//! Reading an instruction of the escrow program from its data: an 8-byte
//! tag that names the instruction, then its arguments, each `u64` in
//! little-endian bytes.

use vstd::prelude::*;
use vstd::bytes::{spec_u64_from_le_bytes, u64_from_le_bytes};
use vstd::slice::slice_subrange;

use crate::address::{Address, ESCROW_PROGRAM_BYTES};
use crate::error::{Failure, FrameworkError};

verus! {

/// The tag of `initialize`.
pub const INITIALIZE_TAG: [u8; 8] = [175, 175, 109, 31, 13, 152, 155, 237];
/// The tag of `deposit`.
pub const DEPOSIT_TAG: [u8; 8] = [242, 35, 198, 137, 82, 225, 242, 182];
/// The tag of `release`.
pub const RELEASE_TAG: [u8; 8] = [253, 249, 15, 206, 28, 127, 193, 241];
/// The tag of `cancel`.
pub const CANCEL_TAG: [u8; 8] = [232, 219, 223, 41, 219, 236, 220, 190];
/// The tag that marks an event emitted through the program itself.
pub const EVENT_TAG: [u8; 8] = [228, 69, 165, 46, 81, 203, 154, 29];

/// An instruction of the escrow program with its arguments.
#[derive(Clone, Copy, Debug, PartialEq, Eq)]
pub enum EscrowInstruction {
    Initialize { deal_id: u64, amount: u64 },
    Deposit { deal_id: u64 },
    Release { deal_id: u64 },
    Cancel { deal_id: u64 },
}

/// `data` begins with `tag`.
pub open spec fn starts_with(data: Seq<u8>, tag: Seq<u8>) -> bool {
    tag.len() <= data.len() && data.subrange(0, tag.len() as int) == tag
}

/// The `u64` whose little-endian bytes start at `at`.
pub open spec fn u64_at(data: Seq<u8>, at: int) -> u64 {
    spec_u64_from_le_bytes(data.subrange(at, at + 8))
}

/// The arguments after the tag: `count` of them, each a `u64`; where fewer
/// bytes follow, they cannot be read (bytes after them are ignored).
pub open spec fn has_args(data: Seq<u8>, count: int) -> bool {
    8 + 8 * count <= data.len()
}

/// The instruction that `data` holds for the program at `program_id`, or
/// the failure that stops it: the program must run under its own address;
/// the first tag that the data begins with names the instruction; data
/// that begins with none of them, or with the event tag, is refused.
pub open spec fn decode(program_id: Seq<u8>, data: Seq<u8>) -> Result<EscrowInstruction, Failure> {
    if program_id != ESCROW_PROGRAM_BYTES@ {
        Err(Failure::Framework(FrameworkError::DeclaredProgramIdMismatch))
    } else if starts_with(data, INITIALIZE_TAG@) {
        if has_args(data, 2) {
            Ok(EscrowInstruction::Initialize { deal_id: u64_at(data, 8), amount: u64_at(data, 16) })
        } else {
            Err(Failure::Framework(FrameworkError::InstructionDidNotDeserialize))
        }
    } else if starts_with(data, DEPOSIT_TAG@) {
        if has_args(data, 1) {
            Ok(EscrowInstruction::Deposit { deal_id: u64_at(data, 8) })
        } else {
            Err(Failure::Framework(FrameworkError::InstructionDidNotDeserialize))
        }
    } else if starts_with(data, RELEASE_TAG@) {
        if has_args(data, 1) {
            Ok(EscrowInstruction::Release { deal_id: u64_at(data, 8) })
        } else {
            Err(Failure::Framework(FrameworkError::InstructionDidNotDeserialize))
        }
    } else if starts_with(data, CANCEL_TAG@) {
        if has_args(data, 1) {
            Ok(EscrowInstruction::Cancel { deal_id: u64_at(data, 8) })
        } else {
            Err(Failure::Framework(FrameworkError::InstructionDidNotDeserialize))
        }
    } else if starts_with(data, EVENT_TAG@) {
        Err(Failure::Framework(FrameworkError::EventInstructionStub))
    } else {
        Err(Failure::Framework(FrameworkError::InstructionFallbackNotFound))
    }
}

fn begins_with(data: &[u8], tag: &[u8; 8]) -> (r: bool)
    ensures
        r == starts_with(data@, tag@),
{
    if data.len() < 8 {
        return false;
    }
    let mut i: usize = 0;
    while i < 8
        invariant
            i <= 8,
            8 <= data@.len(),
            tag@.len() == 8,
            forall|j: int| 0 <= j < i ==> data@[j] == tag@[j],
        decreases 8 - i,
    {
        if data[i] != tag[i] {
            proof {
                assert(data@.subrange(0, 8)[i as int] != tag@[i as int]);
            }
            return false;
        }
        i = i + 1;
    }
    assert(data@.subrange(0, 8) =~= tag@);
    true
}

fn read_u64(data: &[u8], at: usize) -> (r: u64)
    requires
        at <= 16,
        at + 8 <= data@.len(),
    ensures
        r == u64_at(data@, at as int),
{
    let bytes = slice_subrange(data, at, at + 8);
    u64_from_le_bytes(bytes)
}

/// Reads the instruction that `data` holds, exactly as `decode` says.
pub fn decode_instruction(program_id: &Address, data: &[u8]) -> (r: Result<EscrowInstruction, Failure>)
    ensures
        r == decode(program_id@, data@),
{
    let own = Address { bytes: ESCROW_PROGRAM_BYTES };
    if !program_id.same_as(&own) {
        return Err(Failure::Framework(FrameworkError::DeclaredProgramIdMismatch));
    }
    let unreadable = Failure::Framework(FrameworkError::InstructionDidNotDeserialize);
    if begins_with(data, &INITIALIZE_TAG) {
        if data.len() < 24 {
            Err(unreadable)
        } else {
            Ok(EscrowInstruction::Initialize { deal_id: read_u64(data, 8), amount: read_u64(data, 16) })
        }
    } else if begins_with(data, &DEPOSIT_TAG) {
        if data.len() < 16 {
            Err(unreadable)
        } else {
            Ok(EscrowInstruction::Deposit { deal_id: read_u64(data, 8) })
        }
    } else if begins_with(data, &RELEASE_TAG) {
        if data.len() < 16 {
            Err(unreadable)
        } else {
            Ok(EscrowInstruction::Release { deal_id: read_u64(data, 8) })
        }
    } else if begins_with(data, &CANCEL_TAG) {
        if data.len() < 16 {
            Err(unreadable)
        } else {
            Ok(EscrowInstruction::Cancel { deal_id: read_u64(data, 8) })
        }
    } else if begins_with(data, &EVENT_TAG) {
        Err(Failure::Framework(FrameworkError::EventInstructionStub))
    } else {
        Err(Failure::Framework(FrameworkError::InstructionFallbackNotFound))
    }
}

} // verus!
