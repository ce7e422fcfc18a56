//! The accounts that the instructions read and write, the checks that the
//! account framework makes on them while loading them, and the effect of the
//! token program's instructions on them.

use vstd::prelude::*;

use crate::address::{
    check_token_program, is_token_program, system_program_id, Address, SYSTEM_PROGRAM_BYTES,
};
use crate::error::{CreationError, Failure, FrameworkError, TokenProgramError};

verus! {

/// What the runtime reports of any account.
#[derive(Clone, Copy, Debug, PartialEq, Eq)]
pub struct AccountInfo {
    pub key: Address,
    /// The program that owns the account.
    pub owner: Address,
    pub lamports: u64,
    pub is_signer: bool,
    pub is_writable: bool,
    pub executable: bool,
}

/// A token mint, as the token programs store it. The mints modelled here
/// carry none of Token-2022's extensions that change how accounts of the
/// mint are created or how its tokens move (transfer fee, transfer hook,
/// non-transferable, default account state, pausable, confidential
/// transfers): the token program's rules below are those for such a plain
/// mint.
#[derive(Clone, Copy, Debug, PartialEq, Eq)]
pub struct MintAccount {
    pub info: AccountInfo,
    pub decimals: u8,
    pub supply: u64,
}

/// A token account, as the token programs store it.
#[derive(Clone, Copy, Debug, PartialEq, Eq)]
pub struct TokenAccount {
    pub info: AccountInfo,
    pub mint: Address,
    /// The wallet that may move the tokens (the account's authority).
    pub owner: Address,
    pub amount: u64,
    /// Whether the mint's freeze authority froze the account.
    pub is_frozen: bool,
}

/// An account that no longer exists: the system program owns it and it
/// holds no lamports.
pub open spec fn is_closed(info: AccountInfo) -> bool {
    info.owner@ == SYSTEM_PROGRAM_BYTES@ && info.lamports == 0
}

pub fn account_is_closed(info: &AccountInfo) -> (r: bool)
    ensures
        r == is_closed(*info),
{
    let system = system_program_id();
    info.owner.same_as(&system) && info.lamports == 0
}

/// The first of two outcomes that is a failure.
pub open spec fn first_failure(a: Option<Failure>, b: Option<Failure>) -> Option<Failure> {
    if a is Some {
        a
    } else {
        b
    }
}

pub open spec fn framework(e: FrameworkError) -> Option<Failure> {
    Some(Failure::Framework(e))
}

/// Loading a signer: the account must have signed.
pub open spec fn signer_failure(info: AccountInfo) -> Option<Failure> {
    if info.is_signer {
        None
    } else {
        framework(FrameworkError::AccountNotSigner)
    }
}

pub fn check_signer(info: &AccountInfo) -> (r: Option<Failure>)
    ensures
        r == signer_failure(*info),
{
    if info.is_signer {
        None
    } else {
        Some(Failure::Framework(FrameworkError::AccountNotSigner))
    }
}

/// A `mut` constraint: the account must be passed as writable.
pub open spec fn mut_failure(info: AccountInfo) -> Option<Failure> {
    if info.is_writable {
        None
    } else {
        framework(FrameworkError::ConstraintMut)
    }
}

pub fn check_mut(info: &AccountInfo) -> (r: Option<Failure>)
    ensures
        r == mut_failure(*info),
{
    if info.is_writable {
        None
    } else {
        Some(Failure::Framework(FrameworkError::ConstraintMut))
    }
}

/// Loading a mint or a token account through the token interface: it must
/// exist and be owned by one of the two token programs.
pub open spec fn token_interface_account_failure(info: AccountInfo) -> Option<Failure> {
    if is_closed(info) {
        framework(FrameworkError::AccountNotInitialized)
    } else if !is_token_program(info.owner@) {
        framework(FrameworkError::AccountOwnedByWrongProgram)
    } else {
        None
    }
}

pub fn check_token_interface_account(info: &AccountInfo) -> (r: Option<Failure>)
    ensures
        r == token_interface_account_failure(*info),
{
    if account_is_closed(info) {
        Some(Failure::Framework(FrameworkError::AccountNotInitialized))
    } else if !check_token_program(&info.owner) {
        Some(Failure::Framework(FrameworkError::AccountOwnedByWrongProgram))
    } else {
        None
    }
}

/// Loading an account of a program's own type: it must exist and be owned
/// by `program`.
pub open spec fn program_account_failure(info: AccountInfo, program: Seq<u8>) -> Option<Failure> {
    if is_closed(info) {
        framework(FrameworkError::AccountNotInitialized)
    } else if info.owner@ != program {
        framework(FrameworkError::AccountOwnedByWrongProgram)
    } else {
        None
    }
}

pub fn check_program_account(info: &AccountInfo, program: &Address) -> (r: Option<Failure>)
    ensures
        r == program_account_failure(*info, program@),
{
    if account_is_closed(info) {
        Some(Failure::Framework(FrameworkError::AccountNotInitialized))
    } else if !info.owner.same_as(program) {
        Some(Failure::Framework(FrameworkError::AccountOwnedByWrongProgram))
    } else {
        None
    }
}

/// Loading the token program through the token interface: it must be one
/// of the two token programs, and executable.
pub open spec fn token_interface_program_failure(info: AccountInfo) -> Option<Failure> {
    if !is_token_program(info.key@) {
        framework(FrameworkError::InvalidProgramId)
    } else if !info.executable {
        framework(FrameworkError::InvalidProgramExecutable)
    } else {
        None
    }
}

pub fn check_token_interface_program(info: &AccountInfo) -> (r: Option<Failure>)
    ensures
        r == token_interface_program_failure(*info),
{
    if !check_token_program(&info.key) {
        Some(Failure::Framework(FrameworkError::InvalidProgramId))
    } else if !info.executable {
        Some(Failure::Framework(FrameworkError::InvalidProgramExecutable))
    } else {
        None
    }
}

/// Loading a named program: it must be that program, and executable.
pub open spec fn named_program_failure(info: AccountInfo, program: Seq<u8>) -> Option<Failure> {
    if info.key@ != program {
        framework(FrameworkError::InvalidProgramId)
    } else if !info.executable {
        framework(FrameworkError::InvalidProgramExecutable)
    } else {
        None
    }
}

pub fn check_named_program(info: &AccountInfo, program: &Address) -> (r: Option<Failure>)
    ensures
        r == named_program_failure(*info, program@),
{
    if !info.key.same_as(program) {
        Some(Failure::Framework(FrameworkError::InvalidProgramId))
    } else if !info.executable {
        Some(Failure::Framework(FrameworkError::InvalidProgramExecutable))
    } else {
        None
    }
}

/// A `token::mint`, `token::authority` and `token::token_program`
/// constraint on a token account, checked in that order: authority, mint,
/// token program.
pub open spec fn token_constraint_failure(
    account: TokenAccount,
    mint: Seq<u8>,
    authority: Seq<u8>,
    token_program: Seq<u8>,
) -> Option<Failure> {
    if account.owner@ != authority {
        framework(FrameworkError::ConstraintTokenOwner)
    } else if account.mint@ != mint {
        framework(FrameworkError::ConstraintTokenMint)
    } else if account.info.owner@ != token_program {
        framework(FrameworkError::ConstraintTokenTokenProgram)
    } else {
        None
    }
}

pub fn check_token_constraint(
    account: &TokenAccount,
    mint: &Address,
    authority: &Address,
    token_program: &Address,
) -> (r: Option<Failure>)
    ensures
        r == token_constraint_failure(*account, mint@, authority@, token_program@),
{
    if !account.owner.same_as(authority) {
        Some(Failure::Framework(FrameworkError::ConstraintTokenOwner))
    } else if !account.mint.same_as(mint) {
        Some(Failure::Framework(FrameworkError::ConstraintTokenMint))
    } else if !account.info.owner.same_as(token_program) {
        Some(Failure::Framework(FrameworkError::ConstraintTokenTokenProgram))
    } else {
        None
    }
}

/// A `mint::token_program` constraint.
pub open spec fn mint_constraint_failure(mint: MintAccount, token_program: Seq<u8>) -> Option<Failure> {
    if mint.info.owner@ != token_program {
        framework(FrameworkError::ConstraintMintTokenProgram)
    } else {
        None
    }
}

pub fn check_mint_constraint(mint: &MintAccount, token_program: &Address) -> (r: Option<Failure>)
    ensures
        r == mint_constraint_failure(*mint, token_program@),
{
    if !mint.info.owner.same_as(token_program) {
        Some(Failure::Framework(FrameworkError::ConstraintMintTokenProgram))
    } else {
        None
    }
}

/// Mutable accounts that are written back must be distinct accounts.
pub open spec fn duplicate_failure(keys: Seq<Seq<u8>>) -> Option<Failure> {
    if exists|i: int, j: int| 0 <= i < j < keys.len() && keys[i] == keys[j] {
        framework(FrameworkError::ConstraintDuplicateMutableAccount)
    } else {
        None
    }
}

pub fn check_duplicates(keys: &Vec<Address>) -> (r: Option<Failure>)
    ensures
        r == duplicate_failure(keys@.map_values(|a: Address| a@)),
{
    let ghost ks = keys@.map_values(|a: Address| a@);
    let n = keys.len();
    let mut i: usize = 0;
    while i < n
        invariant
            n == keys.len(),
            ks == keys@.map_values(|a: Address| a@),
            i <= n,
            forall|a: int, b: int| 0 <= a < b < ks.len() && a < i ==> ks[a] != ks[b],
        decreases n - i,
    {
        let mut j: usize = i + 1;
        while j < n
            invariant
                n == keys.len(),
                ks == keys@.map_values(|a: Address| a@),
                i < j <= n,
                forall|a: int, b: int| 0 <= a < b < ks.len() && a < i ==> ks[a] != ks[b],
                forall|b: int| i < b < j ==> ks[i as int] != ks[b],
            decreases n - j,
        {
            if keys[i].same_as(&keys[j]) {
                assert(ks[i as int] == ks[j as int]);
                return Some(Failure::Framework(FrameworkError::ConstraintDuplicateMutableAccount));
            }
            j = j + 1;
        }
        i = i + 1;
    }
    None
}

// ---------------------------------------------------------------------------
// The token program's instructions
//
// The instructions hand transfers, closings and burns to the token program
// by cross-program calls, which run on chain. What follows states when the
// token program refuses such a call and what it does to the accounts, so
// that an instruction's outcome can be stated as a whole.
// ---------------------------------------------------------------------------

/// `transfer_checked` of `amount` from `from` to `to`, where the accounts
/// framework has already checked that both accounts belong to the called
/// token program and to the mint, and that the authority signed: it fails
/// when either account is frozen, when `from` holds too little, or when `to`
/// would overflow.
pub open spec fn transfer_failure(from: TokenAccount, to: TokenAccount, amount: u64) -> Option<Failure> {
    if from.is_frozen || to.is_frozen {
        Some(Failure::TokenProgram(TokenProgramError::AccountFrozen))
    } else if from.amount < amount {
        Some(Failure::TokenProgram(TokenProgramError::InsufficientFunds))
    } else if to.amount + amount > u64::MAX {
        Some(Failure::TokenProgram(TokenProgramError::Overflow))
    } else {
        None
    }
}

pub fn check_transfer(from: &TokenAccount, to: &TokenAccount, amount: u64) -> (r: Option<Failure>)
    ensures
        r == transfer_failure(*from, *to, amount),
{
    if from.is_frozen || to.is_frozen {
        Some(Failure::TokenProgram(TokenProgramError::AccountFrozen))
    } else if from.amount < amount {
        Some(Failure::TokenProgram(TokenProgramError::InsufficientFunds))
    } else if to.amount > u64::MAX - amount {
        Some(Failure::TokenProgram(TokenProgramError::Overflow))
    } else {
        None
    }
}

/// `close_account` of `account`, its lamports going to `destination`: the
/// two must be different accounts, the account must hold no tokens, and the
/// destination must not overflow.
pub open spec fn close_token_account_failure(account: TokenAccount, destination: AccountInfo) -> Option<Failure> {
    if account.info.key@ == destination.key@ {
        Some(Failure::TokenProgram(TokenProgramError::InvalidAccountData))
    } else if account.amount != 0 {
        Some(Failure::TokenProgram(TokenProgramError::NonNativeHasBalance))
    } else if destination.lamports + account.info.lamports > u64::MAX {
        Some(Failure::TokenProgram(TokenProgramError::Overflow))
    } else {
        None
    }
}

pub fn check_close_token_account(account: &TokenAccount, destination: &AccountInfo) -> (r: Option<Failure>)
    ensures
        r == close_token_account_failure(*account, *destination),
{
    if account.info.key.same_as(&destination.key) {
        Some(Failure::TokenProgram(TokenProgramError::InvalidAccountData))
    } else if account.amount != 0 {
        Some(Failure::TokenProgram(TokenProgramError::NonNativeHasBalance))
    } else if destination.lamports > u64::MAX - account.info.lamports {
        Some(Failure::TokenProgram(TokenProgramError::Overflow))
    } else {
        None
    }
}

/// The account as it is once closed: owned by the system program, with no
/// lamports left.
pub open spec fn closed_info(info: AccountInfo) -> AccountInfo {
    AccountInfo { owner: Address { bytes: SYSTEM_PROGRAM_BYTES }, lamports: 0, ..info }
}

pub fn close_info(info: &mut AccountInfo)
    ensures
        *final(info) == closed_info(*old(info)),
{
    info.owner = system_program_id();
    info.lamports = 0;
}

// ---------------------------------------------------------------------------
// Creating accounts
// ---------------------------------------------------------------------------

/// The lamports that a payer adds to an account that holds `current`
/// lamports so that it holds its rent: the whole rent for an empty account,
/// otherwise what is missing up to the rent (and at least one lamport).
pub open spec fn funding_needed(current: u64, rent: u64) -> u64 {
    if current == 0 {
        rent
    } else {
        let target: u64 = if rent == 0 { 1 } else { rent };
        if target > current {
            (target - current) as u64
        } else {
            0
        }
    }
}

pub fn compute_funding_needed(current: u64, rent: u64) -> (r: u64)
    ensures
        r == funding_needed(current, rent),
{
    if current == 0 {
        rent
    } else {
        let target: u64 = if rent == 0 { 1 } else { rent };
        if target > current {
            target - current
        } else {
            0
        }
    }
}

/// Creating `account` with the system program, paid by `payer`: the calls
/// take `account` as writable, and `payer` too where they move lamports
/// (always for an empty account, otherwise where it is short of the rent),
/// and the runtime refuses them where the instruction did not receive those
/// accounts as writable; an empty account is created outright and must not
/// be in use; an account that already holds lamports is topped up first,
/// then taken over, and must be owned by the system program.
pub open spec fn system_create_failure(payer: AccountInfo, account: AccountInfo, rent: u64) -> Option<Failure> {
    let pays = account.lamports == 0 || funding_needed(account.lamports, rent) > 0;
    let in_use = account.owner@ != SYSTEM_PROGRAM_BYTES@;
    let short = payer.lamports < funding_needed(account.lamports, rent);
    if !account.is_writable || (pays && !payer.is_writable) {
        Some(Failure::Creation(CreationError::PrivilegeEscalation))
    } else if account.lamports == 0 {
        if in_use {
            Some(Failure::Creation(CreationError::AccountAlreadyInUse))
        } else if short {
            Some(Failure::Creation(CreationError::InsufficientLamports))
        } else {
            None
        }
    } else {
        if short {
            Some(Failure::Creation(CreationError::InsufficientLamports))
        } else if in_use {
            Some(Failure::Creation(CreationError::AccountAlreadyInUse))
        } else {
            None
        }
    }
}

pub fn check_system_create(payer: &AccountInfo, account: &AccountInfo, rent: u64) -> (r: Option<Failure>)
    ensures
        r == system_create_failure(*payer, *account, rent),
{
    let funding = compute_funding_needed(account.lamports, rent);
    let pays = account.lamports == 0 || funding > 0;
    if !account.is_writable || (pays && !payer.is_writable) {
        return Some(Failure::Creation(CreationError::PrivilegeEscalation));
    }
    let system = system_program_id();
    let in_use = !account.owner.same_as(&system);
    let short = payer.lamports < funding;
    if account.lamports == 0 {
        if in_use {
            Some(Failure::Creation(CreationError::AccountAlreadyInUse))
        } else if short {
            Some(Failure::Creation(CreationError::InsufficientLamports))
        } else {
            None
        }
    } else {
        if short {
            Some(Failure::Creation(CreationError::InsufficientLamports))
        } else if in_use {
            Some(Failure::Creation(CreationError::AccountAlreadyInUse))
        } else {
            None
        }
    }
}

} // verus!
