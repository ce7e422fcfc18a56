//! Account addresses, the well-known program identifiers, and program
//! derived addresses.

use vstd::prelude::*;

verus! {

/// A 32-byte account address.
#[derive(Clone, Copy, Debug, PartialEq, Eq)]
pub struct Address {
    pub bytes: [u8; 32],
}

impl View for Address {
    type V = Seq<u8>;

    open spec fn view(&self) -> Seq<u8> {
        self.bytes@
    }
}

impl Address {
    /// The address made of the given bytes.
    pub fn new(bytes: [u8; 32]) -> (r: Address)
        ensures
            r@ == bytes@,
    {
        Address { bytes }
    }

    /// Whether two addresses are the same address.
    pub fn same_as(&self, other: &Address) -> (r: bool)
        ensures
            r == (self@ == other@),
    {
        let mut i: usize = 0;
        while i < 32
            invariant
                i <= 32,
                self@.len() == 32,
                other@.len() == 32,
                forall|j: int| 0 <= j < i ==> self@[j] == other@[j],
            decreases 32 - i,
        {
            if self.bytes[i] != other.bytes[i] {
                assert(self@[i as int] != other@[i as int]);
                return false;
            }
            i = i + 1;
        }
        assert(self@ =~= other@);
        true
    }

    /// The address's bytes, as a seed.
    pub fn to_seed(&self) -> (r: Vec<u8>)
        ensures
            r@ == self@,
    {
        let mut v: Vec<u8> = Vec::new();
        let mut i: usize = 0;
        while i < 32
            invariant
                i <= 32,
                self@.len() == 32,
                v@ == self@.take(i as int),
            decreases 32 - i,
        {
            v.push(self.bytes[i]);
            i = i + 1;
            assert(v@ =~= self@.take(i as int));
        }
        assert(self@.take(32) =~= self@);
        v
    }
}

/// The system program's address (all zero bytes).
pub const SYSTEM_PROGRAM_BYTES: [u8; 32] = [
    0, 0, 0, 0, 0, 0, 0, 0, 0, 0, 0, 0, 0, 0, 0, 0,
    0, 0, 0, 0, 0, 0, 0, 0, 0, 0, 0, 0, 0, 0, 0, 0,
];

/// The Token-2022 program's address, `TokenzQdBNbLqP5VEhdkAS6EPFLC1PHnBqCXEpPxuEb`.
pub const TOKEN_2022_PROGRAM_BYTES: [u8; 32] = [
    6, 221, 246, 225, 238, 117, 143, 222, 24, 66, 93, 188, 228, 108, 205, 218,
    182, 26, 252, 77, 131, 185, 13, 39, 254, 189, 249, 40, 216, 161, 139, 252,
];

/// The legacy SPL Token program's address, `TokenkegQfeZyiNwAJbNbGKPFXCWuBvf9Ss623VQ5DA`.
pub const TOKEN_PROGRAM_BYTES: [u8; 32] = [
    6, 221, 246, 225, 215, 101, 161, 147, 217, 203, 225, 70, 206, 235, 121, 172,
    28, 180, 133, 237, 95, 91, 55, 145, 58, 140, 245, 133, 126, 255, 0, 169,
];

/// The associated token account program's address,
/// `ATokenGPvbdGVxr1b2hvZbsiqW5xWH25efTNsLJA8knL`.
pub const ASSOCIATED_TOKEN_PROGRAM_BYTES: [u8; 32] = [
    140, 151, 37, 143, 78, 36, 137, 241, 187, 61, 16, 41, 20, 142, 13, 131,
    11, 90, 19, 153, 218, 255, 16, 132, 4, 142, 123, 216, 219, 233, 248, 89,
];

/// The escrow program's address, `FNz31K54MxJkxd2dUXuHgCs2KyjW2BtDZ8WkcnT6ExuR`.
pub const ESCROW_PROGRAM_BYTES: [u8; 32] = [
    213, 165, 77, 155, 220, 7, 135, 147, 213, 18, 163, 210, 68, 176, 23, 54,
    67, 26, 195, 86, 16, 79, 234, 107, 187, 110, 6, 180, 238, 19, 103, 244,
];

pub fn system_program_id() -> (r: Address)
    ensures
        r == (Address { bytes: SYSTEM_PROGRAM_BYTES }),
        r@ == SYSTEM_PROGRAM_BYTES@,
{
    Address { bytes: SYSTEM_PROGRAM_BYTES }
}

pub fn token_program_id() -> (r: Address)
    ensures
        r == (Address { bytes: TOKEN_PROGRAM_BYTES }),
        r@ == TOKEN_PROGRAM_BYTES@,
{
    Address { bytes: TOKEN_PROGRAM_BYTES }
}

pub fn token_2022_program_id() -> (r: Address)
    ensures
        r == (Address { bytes: TOKEN_2022_PROGRAM_BYTES }),
        r@ == TOKEN_2022_PROGRAM_BYTES@,
{
    Address { bytes: TOKEN_2022_PROGRAM_BYTES }
}

pub fn associated_token_program_id() -> (r: Address)
    ensures
        r == (Address { bytes: ASSOCIATED_TOKEN_PROGRAM_BYTES }),
        r@ == ASSOCIATED_TOKEN_PROGRAM_BYTES@,
{
    Address { bytes: ASSOCIATED_TOKEN_PROGRAM_BYTES }
}

/// The escrow program's own address.
pub fn escrow_program_id() -> (r: Address)
    ensures
        r == (Address { bytes: ESCROW_PROGRAM_BYTES }),
        r@ == ESCROW_PROGRAM_BYTES@,
{
    Address { bytes: ESCROW_PROGRAM_BYTES }
}

/// Whether `a` is one of the two token programs that the token interface
/// accepts (SPL Token or Token-2022).
pub open spec fn is_token_program(a: Seq<u8>) -> bool {
    a == TOKEN_PROGRAM_BYTES@ || a == TOKEN_2022_PROGRAM_BYTES@
}

pub fn check_token_program(a: &Address) -> (r: bool)
    ensures
        r == is_token_program(a@),
{
    let t = token_program_id();
    let t22 = token_2022_program_id();
    a.same_as(&t) || a.same_as(&t22)
}

// ---------------------------------------------------------------------------
// Program derived addresses
// ---------------------------------------------------------------------------

/// The most seeds an address derivation takes, bump included.
pub open spec fn max_seeds() -> nat {
    16
}

/// The longest seed an address derivation takes.
pub open spec fn max_seed_len() -> nat {
    32
}

/// What `Pubkey::create_program_address` yields for `seeds` under
/// `program_id`: `Some` of the derived address, or `None` where it fails.
pub uninterp spec fn program_address(seeds: Seq<Seq<u8>>, program_id: Seq<u8>) -> Option<Seq<u8>>;

pub open spec fn seeds_view(seeds: Seq<Vec<u8>>) -> Seq<Seq<u8>> {
    seeds.map_values(|s: Vec<u8>| s@)
}

pub open spec fn seeds_within_limits(seeds: Seq<Seq<u8>>) -> bool {
    &&& seeds.len() <= max_seeds()
    &&& forall|i: int| 0 <= i < seeds.len() ==> #[trigger] seeds[i].len() <= max_seed_len()
}

/// `seeds` followed by the one-byte bump seed.
pub open spec fn with_bump(seeds: Seq<Seq<u8>>, bump: u8) -> Seq<Seq<u8>> {
    seeds.push(seq![bump])
}

/// `bump` is the highest bump in 1..=255 under which `seeds` derive an
/// address, and that address is `addr`.
pub open spec fn is_canonical_bump(
    seeds: Seq<Seq<u8>>,
    program_id: Seq<u8>,
    addr: Seq<u8>,
    bump: u8,
) -> bool {
    &&& 1 <= bump
    &&& program_address(with_bump(seeds, bump), program_id) == Some(addr)
    &&& forall|c: u8|
        bump < c ==> #[trigger] program_address(with_bump(seeds, c), program_id) is None
}

/// No bump in 1..=255 makes `seeds` derive an address.
pub open spec fn no_viable_bump(seeds: Seq<Seq<u8>>, program_id: Seq<u8>) -> bool {
    forall|c: u8| 1 <= c ==> #[trigger] program_address(with_bump(seeds, c), program_id) is None
}

/// The canonical program derived address of `seeds` and its bump, if any.
pub open spec fn canonical_address(seeds: Seq<Seq<u8>>, program_id: Seq<u8>) -> Option<(Seq<u8>, u8)> {
    if exists|a: Seq<u8>, b: u8| is_canonical_bump(seeds, program_id, a, b) {
        Some(choose|a: Seq<u8>, b: u8| is_canonical_bump(seeds, program_id, a, b))
    } else {
        None
    }
}

/// A canonical bump, where there is one, is unique.
pub proof fn lemma_canonical_unique(
    seeds: Seq<Seq<u8>>,
    program_id: Seq<u8>,
    addr: Seq<u8>,
    bump: u8,
)
    requires
        is_canonical_bump(seeds, program_id, addr, bump),
    ensures
        canonical_address(seeds, program_id) == Some((addr, bump)),
{
    let (a2, b2) = choose|a: Seq<u8>, b: u8| is_canonical_bump(seeds, program_id, a, b);
    assert(is_canonical_bump(seeds, program_id, a2, b2));
    if b2 < bump {
        assert(program_address(with_bump(seeds, bump), program_id) is None);
    } else if bump < b2 {
        assert(program_address(with_bump(seeds, b2), program_id) is None);
    }
}

/// Calls `Pubkey::create_program_address`: the address that `seeds`
/// (each seed a byte string) derive under `program_id`, or `None` where the
/// call returns an error. The derived address is named by
/// `program_address`; the source shows that more than 16 seeds, or a seed
/// longer than 32 bytes, is always refused.
#[verifier::external_body]
pub(crate) fn create_program_address(seeds: &Vec<Vec<u8>>, program_id: &Address) -> (r: Option<Address>)
    ensures
        r matches Some(a) ==> program_address(seeds_view(seeds@), program_id@) == Some(a@),
        r is None ==> program_address(seeds_view(seeds@), program_id@) is None,
        r is Some ==> seeds_within_limits(seeds_view(seeds@)),
{
    let slices: Vec<&[u8]> = seeds.iter().map(|s| s.as_slice()).collect();
    let program = anchor_lang::prelude::Pubkey::new_from_array(program_id.bytes);
    match anchor_lang::prelude::Pubkey::create_program_address(&slices, &program) {
        Ok(key) => Some(Address { bytes: key.to_bytes() }),
        Err(_) => None,
    }
}

/// Calls `Pubkey::try_find_program_address`, which tries the bumps 255
/// down to 1 with `create_program_address` and returns the first address
/// found with its bump, or `None` where none is found.
#[verifier::external_body]
fn try_find_program_address(seeds: &Vec<Vec<u8>>, program_id: &Address) -> (r: Option<(Address, u8)>)
    ensures
        match r {
            Some((a, bump)) => is_canonical_bump(seeds_view(seeds@), program_id@, a@, bump),
            None => no_viable_bump(seeds_view(seeds@), program_id@),
        },
{
    let slices: Vec<&[u8]> = seeds.iter().map(|s| s.as_slice()).collect();
    let program = anchor_lang::prelude::Pubkey::new_from_array(program_id.bytes);
    match anchor_lang::prelude::Pubkey::try_find_program_address(&slices, &program) {
        Some((key, bump)) => Some((Address { bytes: key.to_bytes() }, bump)),
        None => None,
    }
}

/// The canonical program derived address of `seeds` under `program_id`
/// and its bump (what Anchor's `seeds` constraint without an explicit bump
/// derives), or `None` where there is none.
pub fn find_program_address(seeds: &Vec<Vec<u8>>, program_id: &Address) -> (r: Option<(Address, u8)>)
    ensures
        match r {
            Some((a, bump)) => canonical_address(seeds_view(seeds@), program_id@) == Some((a@, bump)),
            None => canonical_address(seeds_view(seeds@), program_id@) is None,
        },
{
    let r = try_find_program_address(seeds, program_id);
    proof {
        let s = seeds_view(seeds@);
        match r {
            Some((a, bump)) => {
                lemma_canonical_unique(s, program_id@, a@, bump);
            },
            None => {
                if exists|a: Seq<u8>, b: u8| is_canonical_bump(s, program_id@, a, b) {
                    let (a, b) = choose|a: Seq<u8>, b: u8| is_canonical_bump(s, program_id@, a, b);
                    assert(program_address(with_bump(s, b), program_id@) is None);
                }
            },
        }
    }
    r
}

/// The associated token account of `wallet` for `mint` under the token
/// program `token_program`: the canonical address of the seeds
/// `[wallet, token_program, mint]` under the associated token account
/// program (what `get_associated_token_address_with_program_id` returns).
pub open spec fn associated_token_address(
    wallet: Seq<u8>,
    mint: Seq<u8>,
    token_program: Seq<u8>,
) -> Option<Seq<u8>> {
    match canonical_address(seq![wallet, token_program, mint], ASSOCIATED_TOKEN_PROGRAM_BYTES@) {
        Some((a, _)) => Some(a),
        None => None,
    }
}

pub fn find_associated_token_address(wallet: &Address, mint: &Address, token_program: &Address) -> (r: Option<Address>)
    ensures
        match r {
            Some(a) => associated_token_address(wallet@, mint@, token_program@) == Some(a@),
            None => associated_token_address(wallet@, mint@, token_program@) is None,
        },
{
    let mut seeds: Vec<Vec<u8>> = Vec::new();
    seeds.push(wallet.to_seed());
    seeds.push(token_program.to_seed());
    seeds.push(mint.to_seed());
    let ata_program = associated_token_program_id();
    proof {
        assert(seeds_view(seeds@) =~= seq![wallet@, token_program@, mint@]);
    }
    match find_program_address(&seeds, &ata_program) {
        Some((a, _)) => Some(a),
        None => None,
    }
}

} // verus!
