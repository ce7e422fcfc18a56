//! The escrow's on-chain record and its life cycle.

use vstd::prelude::*;
use vstd::bytes::{spec_u64_to_le_bytes, u64_to_le_bytes};

use crate::account::AccountInfo;
use crate::address::{seeds_view, Address};
use crate::error::EscrowError;

verus! {

/// The first seed of every escrow's address: the bytes of `"escrow"`.
pub const ESCROW_SEED: [u8; 6] = [101, 115, 99, 114, 111, 119];

/// Where a deal stands.
#[derive(Clone, Copy, Debug, PartialEq, Eq, Structural)]
pub enum EscrowStatus {
    Created,
    Funded,
    Released,
    Cancelled,
}

/// How far a status lies along the life cycle.
pub open spec fn status_rank(s: EscrowStatus) -> nat {
    match s {
        EscrowStatus::Created => 0,
        EscrowStatus::Funded => 1,
        EscrowStatus::Released => 2,
        EscrowStatus::Cancelled => 2,
    }
}

/// A status from which no instruction moves on.
pub open spec fn is_final(s: EscrowStatus) -> bool {
    s == EscrowStatus::Released || s == EscrowStatus::Cancelled
}

/// The status after a deposit: only a created deal can be funded.
pub open spec fn fund_result(s: EscrowStatus) -> Result<EscrowStatus, EscrowError> {
    match s {
        EscrowStatus::Created => Ok(EscrowStatus::Funded),
        _ => Err(EscrowError::AlreadyProcessed),
    }
}

/// The status after a release: only a funded deal can be released.
pub open spec fn release_result(s: EscrowStatus) -> Result<EscrowStatus, EscrowError> {
    match s {
        EscrowStatus::Funded => Ok(EscrowStatus::Released),
        EscrowStatus::Created => Err(EscrowError::InvalidStatus),
        _ => Err(EscrowError::AlreadyProcessed),
    }
}

/// The status after a cancellation: a deal can be cancelled until it is
/// released or cancelled.
pub open spec fn cancel_result(s: EscrowStatus) -> Result<EscrowStatus, EscrowError> {
    match s {
        EscrowStatus::Created | EscrowStatus::Funded => Ok(EscrowStatus::Cancelled),
        _ => Err(EscrowError::AlreadyProcessed),
    }
}

impl EscrowStatus {
    pub fn fund(self) -> (r: Result<EscrowStatus, EscrowError>)
        ensures
            r == fund_result(self),
    {
        match self {
            EscrowStatus::Created => Ok(EscrowStatus::Funded),
            EscrowStatus::Funded | EscrowStatus::Released | EscrowStatus::Cancelled => {
                Err(EscrowError::AlreadyProcessed)
            },
        }
    }

    pub fn release(self) -> (r: Result<EscrowStatus, EscrowError>)
        ensures
            r == release_result(self),
    {
        match self {
            EscrowStatus::Funded => Ok(EscrowStatus::Released),
            EscrowStatus::Released | EscrowStatus::Cancelled => Err(EscrowError::AlreadyProcessed),
            EscrowStatus::Created => Err(EscrowError::InvalidStatus),
        }
    }

    pub fn cancel(self) -> (r: Result<EscrowStatus, EscrowError>)
        ensures
            r == cancel_result(self),
    {
        match self {
            EscrowStatus::Created | EscrowStatus::Funded => Ok(EscrowStatus::Cancelled),
            EscrowStatus::Released | EscrowStatus::Cancelled => Err(EscrowError::AlreadyProcessed),
        }
    }

    pub fn is_created(&self) -> (r: bool)
        ensures
            r == (*self == EscrowStatus::Created),
    {
        match self {
            EscrowStatus::Created => true,
            _ => false,
        }
    }

    pub fn is_funded(&self) -> (r: bool)
        ensures
            r == (*self == EscrowStatus::Funded),
    {
        match self {
            EscrowStatus::Funded => true,
            _ => false,
        }
    }
}

/// The record of one deal.
#[derive(Clone, Copy, Debug, PartialEq, Eq)]
pub struct EscrowState {
    pub sender: Address,
    pub receiver: Address,
    pub mint: Address,
    pub amount: u64,
    pub deal_id: u64,
    /// The bump seed of the escrow's address.
    pub bump: u8,
    pub status: EscrowStatus,
}

impl EscrowState {
    /// The bytes the record takes once serialized: three addresses, two
    /// `u64`, the bump and the status.
    pub fn init_space() -> (r: u64)
        ensures
            r == 3 * 32 + 2 * 8 + 1 + 1,
    {
        114
    }

    /// The size of an escrow account: the record and its 8-byte
    /// discriminator.
    pub fn account_space() -> (r: u64)
        ensures
            r == 8 + 114,
    {
        8 + Self::init_space()
    }
}

/// The account that holds a deal's record.
#[derive(Clone, Copy, Debug, PartialEq, Eq)]
pub struct EscrowAccount {
    pub info: AccountInfo,
    pub state: EscrowState,
}

/// The seeds of the address of the deal `deal_id` of `sender`:
/// `"escrow"`, the sender's address and the deal's number in little-endian
/// bytes.
pub open spec fn escrow_seeds(sender: Seq<u8>, deal_id: u64) -> Seq<Seq<u8>> {
    seq![ESCROW_SEED@, sender, spec_u64_to_le_bytes(deal_id)]
}

pub fn escrow_seed_list(sender: &Address, deal_id: u64) -> (r: Vec<Vec<u8>>)
    ensures
        seeds_view(r@) == escrow_seeds(sender@, deal_id),
{
    let prefix: Vec<u8> = vec![101u8, 115, 99, 114, 111, 119];
    assert(prefix@ =~= ESCROW_SEED@);
    let mut r: Vec<Vec<u8>> = Vec::new();
    r.push(prefix);
    r.push(sender.to_seed());
    r.push(u64_to_le_bytes(deal_id));
    assert(seeds_view(r@) =~= escrow_seeds(sender@, deal_id));
    r
}

} // verus!
