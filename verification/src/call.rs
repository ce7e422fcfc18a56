//! The calls an instruction hands to other programs (the system program,
//! the associated token account program, the token program), and the
//! program's own closing of an account: what each instruction asks, with
//! which accounts, amounts and signer seeds.

use vstd::prelude::*;

use crate::address::{seeds_view, with_bump, Address};
use crate::state::{escrow_seed_list, escrow_seeds};

verus! {

/// The escrow's signature in a call: the escrow's own seeds, sender and
/// deal number, and its bump.
#[derive(Clone, Copy, Debug, PartialEq, Eq)]
pub struct EscrowSigner {
    pub sender: Address,
    pub deal_id: u64,
    pub bump: u8,
}

/// The signer seeds of an escrow signature.
pub open spec fn signer_seeds(s: EscrowSigner) -> Seq<Seq<u8>> {
    with_bump(escrow_seeds(s.sender@, s.deal_id), s.bump)
}

impl EscrowSigner {
    /// The seeds to sign with: `"escrow"`, the sender, the deal number in
    /// little-endian bytes, and the bump.
    pub fn seeds(&self) -> (r: Vec<Vec<u8>>)
        ensures
            seeds_view(r@) == signer_seeds(*self),
    {
        let mut seeds = escrow_seed_list(&self.sender, self.deal_id);
        let bump_seed: Vec<u8> = vec![self.bump];
        let ghost before = seeds@;
        assert(bump_seed@ =~= seq![self.bump]);
        seeds.push(bump_seed);
        proof {
            assert(seeds_view(seeds@) =~= with_bump(seeds_view(before), self.bump));
        }
        seeds
    }
}

/// One call to another program, or the program's closing of one of its own
/// accounts.
#[derive(Clone, Copy, Debug, PartialEq, Eq)]
pub enum Call {
    /// System program `create_account`: `lamports` from `from` into the new
    /// account `to` of `space` bytes owned by `owner`, `to` signing with
    /// the escrow's seeds.
    CreateAccount { from: Address, to: Address, lamports: u64, space: u64, owner: Address, signer: EscrowSigner },
    /// System program `transfer` of `lamports` from `from` to `to`.
    Transfer { from: Address, to: Address, lamports: u64 },
    /// System program `allocate` of `space` bytes for `account`.
    Allocate { account: Address, space: u64, signer: EscrowSigner },
    /// System program `assign` of `account` to `owner`.
    Assign { account: Address, owner: Address, signer: EscrowSigner },
    /// Associated token account program `create`: the account of `wallet`
    /// for `mint` under `token_program`, paid by `payer`.
    CreateAssociatedTokenAccount {
        program: Address,
        payer: Address,
        associated_token: Address,
        wallet: Address,
        mint: Address,
        system_program: Address,
        token_program: Address,
    },
    /// Token program `transfer_checked`.
    TransferChecked {
        token_program: Address,
        from: Address,
        mint: Address,
        to: Address,
        authority: Address,
        amount: u64,
        decimals: u8,
        pda_signer: Option<EscrowSigner>,
    },
    /// Token program `close_account`.
    CloseAccount {
        token_program: Address,
        account: Address,
        destination: Address,
        authority: Address,
        pda_signer: Option<EscrowSigner>,
    },
    /// Token program `burn_checked`.
    BurnChecked {
        token_program: Address,
        from: Address,
        mint: Address,
        authority: Address,
        amount: u64,
        decimals: u8,
    },
    /// The program closes its own `account`: its lamports go to
    /// `destination` and it goes back to the system program.
    CloseProgramAccount { account: Address, destination: Address },
}

} // verus!
