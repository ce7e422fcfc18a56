//! A verified model of a Token-2022 escrow program (`initialize`,
//! `deposit`, `release`, `cancel`) and of the token starter's
//! `burn_tokens` instruction: the account checks each instruction makes, in
//! the order it makes them, the failure it reports, and what it does to the
//! accounts when it succeeds.

use vstd::prelude::*;

pub mod address;
pub mod error;
pub mod account;
pub mod call;
pub mod state;
pub mod instructions;
pub mod dispatch;
pub mod token_starter;
pub mod laws;
pub mod outcomes;

pub use crate::address::Address;
pub use crate::call::{Call, EscrowSigner};
pub use crate::error::{EscrowError, Failure, TokenStarterError};
pub use crate::instructions::cancel::Cancel;
pub use crate::instructions::deposit::Deposit;
pub use crate::instructions::initialize::Initialize;
pub use crate::instructions::release::Release;
pub use crate::instructions::Context;
pub use crate::state::{EscrowState, EscrowStatus, ESCROW_SEED};

use crate::instructions::cancel::{cancel_calls, cancel_failure, cancel_post};
use crate::instructions::deposit::{deposit_calls, deposit_failure, deposit_post};
use crate::instructions::initialize::{initialize_calls, initialize_failure, initialize_post};
use crate::instructions::release::{release_calls, release_failure, release_post};

verus! {

/// The `initialize` instruction: opens the deal `deal_id` for `amount`.
pub fn initialize(ctx: &mut Context<Initialize>, deal_id: u64, amount: u64) -> (r: Result<Vec<Call>, Failure>)
    ensures
        match initialize_failure(*old(ctx), deal_id, amount) {
            Some(f) => r == Err::<Vec<Call>, Failure>(f) && *final(ctx) == *old(ctx),
            None => r is Ok && r.unwrap()@ == initialize_calls(*old(ctx), deal_id)
                && *final(ctx) == initialize_post(*old(ctx), deal_id, amount),
        },
{
    instructions::initialize::handler(ctx, deal_id, amount)
}

/// The `deposit` instruction: funds the deal `deal_id`.
pub fn deposit(ctx: &mut Context<Deposit>, deal_id: u64) -> (r: Result<Vec<Call>, Failure>)
    ensures
        match deposit_failure(*old(ctx), deal_id) {
            Some(f) => r == Err::<Vec<Call>, Failure>(f) && *final(ctx) == *old(ctx),
            None => r is Ok && r.unwrap()@ == deposit_calls(*old(ctx))
                && *final(ctx) == deposit_post(*old(ctx)),
        },
{
    instructions::deposit::handler(ctx, deal_id)
}

/// The `release` instruction: pays the deal `deal_id` to its receiver.
pub fn release(ctx: &mut Context<Release>, deal_id: u64) -> (r: Result<Vec<Call>, Failure>)
    ensures
        match release_failure(*old(ctx), deal_id) {
            Some(f) => r == Err::<Vec<Call>, Failure>(f) && *final(ctx) == *old(ctx),
            None => r is Ok && r.unwrap()@ == release_calls(*old(ctx), deal_id)
                && *final(ctx) == release_post(*old(ctx)),
        },
{
    instructions::release::handler(ctx, deal_id)
}

/// The `cancel` instruction: calls the deal `deal_id` off.
pub fn cancel(ctx: &mut Context<Cancel>, deal_id: u64) -> (r: Result<Vec<Call>, Failure>)
    ensures
        match cancel_failure(*old(ctx), deal_id) {
            Some(f) => r == Err::<Vec<Call>, Failure>(f) && *final(ctx) == *old(ctx),
            None => r is Ok && r.unwrap()@ == cancel_calls(*old(ctx), deal_id)
                && *final(ctx) == cancel_post(*old(ctx)),
        },
{
    instructions::cancel::handler(ctx, deal_id)
}

} // verus!
