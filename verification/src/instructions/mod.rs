//! The escrow program's instructions.

use vstd::prelude::*;

use crate::account::framework;
use crate::address::{create_program_address, program_address, seeds_view, with_bump, Address};
use crate::error::{EscrowError, Failure, FrameworkError};
use crate::state::{escrow_seed_list, escrow_seeds, EscrowAccount};

pub mod initialize;
pub mod deposit;
pub mod release;
pub mod cancel;

verus! {

/// The minimum balances that the runtime's rent schedule asks of the
/// accounts an instruction creates.
#[derive(Clone, Copy, Debug, PartialEq, Eq)]
pub struct Rent {
    /// For an escrow record account.
    pub escrow_account: u64,
    /// For a token account.
    pub token_account: u64,
}

/// What an instruction is handed: the program's own address, the accounts,
/// and the rent schedule.
#[derive(Debug, PartialEq, Eq)]
pub struct Context<T> {
    pub program_id: Address,
    pub accounts: T,
    pub rent: Rent,
}

pub open spec fn escrow_error(e: EscrowError) -> Option<Failure> {
    Some(Failure::Escrow(e))
}

/// The escrow's address must be the one derived from its seeds and its
/// recorded bump.
pub open spec fn escrow_seeds_failure(
    program_id: Seq<u8>,
    escrow: EscrowAccount,
    sender: Seq<u8>,
    deal_id: u64,
) -> Option<Failure> {
    match program_address(with_bump(escrow_seeds(sender, deal_id), escrow.state.bump), program_id) {
        Some(a) => if a == escrow.info.key@ {
            None
        } else {
            framework(FrameworkError::ConstraintSeeds)
        },
        None => framework(FrameworkError::ConstraintSeeds),
    }
}

pub fn check_escrow_seeds(program_id: &Address, escrow: &EscrowAccount, sender: &Address, deal_id: u64) -> (r: Option<Failure>)
    ensures
        r == escrow_seeds_failure(program_id@, *escrow, sender@, deal_id),
{
    let mut seeds = escrow_seed_list(sender, deal_id);
    let bump_seed: Vec<u8> = vec![escrow.state.bump];
    let ghost before = seeds@;
    assert(bump_seed@ =~= seq![escrow.state.bump]);
    seeds.push(bump_seed);
    proof {
        assert(seeds_view(seeds@) =~= with_bump(seeds_view(before), escrow.state.bump));
    }
    match create_program_address(&seeds, program_id) {
        Some(a) => if a.same_as(&escrow.info.key) {
            None
        } else {
            Some(Failure::Framework(FrameworkError::ConstraintSeeds))
        },
        None => Some(Failure::Framework(FrameworkError::ConstraintSeeds)),
    }
}

} // verus!
