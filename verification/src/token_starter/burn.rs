//! `burn_tokens`: the owner of a token account destroys some of its tokens,
//! lowering both its balance and the mint's supply.

use vstd::prelude::*;

use crate::account::{
    check_duplicates, check_mut, check_signer, check_token_interface_account, check_token_interface_program,
    duplicate_failure, first_failure, mut_failure, signer_failure, token_interface_account_failure,
    token_interface_program_failure, AccountInfo, MintAccount, TokenAccount,
};
use crate::address::Address;
use crate::call::Call;
use crate::error::{Failure, TokenProgramError, TokenStarterError};
use crate::instructions::Context;

verus! {

/// The accounts of a burn.
#[derive(Clone, Copy, Debug, PartialEq, Eq)]
pub struct BurnTokens {
    /// The account to burn from; must be of `mint` and owned by `authority`.
    pub token_account: TokenAccount,
    pub mint: MintAccount,
    /// Signs; the token account's owner.
    pub authority: AccountInfo,
    pub token_program: AccountInfo,
}

pub open spec fn starter_error(e: TokenStarterError) -> Option<Failure> {
    Some(Failure::TokenStarter(e))
}

pub open spec fn load_failure(a: BurnTokens) -> Option<Failure> {
    first_failure(token_interface_account_failure(a.token_account.info),
    first_failure(token_interface_account_failure(a.mint.info),
    first_failure(signer_failure(a.authority),
    token_interface_program_failure(a.token_program))))
}

/// The mutable accounts written back: the token account and the mint.
pub open spec fn mutable_keys(a: BurnTokens) -> Seq<Seq<u8>> {
    seq![a.token_account.info.key@, a.mint.info.key@]
}

/// The constraints on the accounts: the token account is writable and of
/// the mint and the authority, then the mint and the authority are
/// writable.
pub open spec fn constraint_failure(a: BurnTokens) -> Option<Failure> {
    first_failure(mut_failure(a.token_account.info),
    first_failure(raw_constraint_failure(a),
    first_failure(mut_failure(a.mint.info),
    mut_failure(a.authority))))
}

/// The raw constraints on the token account: its mint, then its owner.
pub open spec fn raw_constraint_failure(a: BurnTokens) -> Option<Failure> {
    if a.token_account.mint@ != a.mint.info.key@ {
        starter_error(TokenStarterError::InvalidMint)
    } else if a.token_account.owner@ != a.authority.key@ {
        starter_error(TokenStarterError::InvalidAuthority)
    } else {
        None
    }
}

/// `burn_checked` of `amount`: both accounts must belong to the called token
/// program, the account must not be frozen and must hold the amount, and the supply must cover it.
pub open spec fn burn_failure(a: BurnTokens, amount: u64) -> Option<Failure> {
    if a.token_account.info.owner@ != a.token_program.key@ || a.mint.info.owner@ != a.token_program.key@ {
        Some(Failure::TokenProgram(TokenProgramError::IncorrectProgramId))
    } else if a.token_account.is_frozen {
        Some(Failure::TokenProgram(TokenProgramError::AccountFrozen))
    } else if a.token_account.amount < amount {
        Some(Failure::TokenProgram(TokenProgramError::InsufficientFunds))
    } else if a.mint.supply < amount {
        Some(Failure::TokenProgram(TokenProgramError::Overflow))
    } else {
        None
    }
}

/// The instruction's own checks: a positive amount, then the burn.
pub open spec fn handler_failure(a: BurnTokens, amount: u64) -> Option<Failure> {
    if amount == 0 {
        starter_error(TokenStarterError::InvalidAmount)
    } else {
        burn_failure(a, amount)
    }
}

/// The first failure of a burn, or `None` where it succeeds.
pub open spec fn burn_tokens_failure(ctx: Context<BurnTokens>, amount: u64) -> Option<Failure> {
    let a = ctx.accounts;
    first_failure(load_failure(a),
    first_failure(duplicate_failure(mutable_keys(a)),
    first_failure(constraint_failure(a),
    handler_failure(a, amount))))
}

/// The accounts after a successful burn: the balance and the supply are both
/// lower by the amount.
pub open spec fn burn_tokens_post(ctx: Context<BurnTokens>, amount: u64) -> Context<BurnTokens> {
    let a = ctx.accounts;
    Context {
        accounts: BurnTokens {
            token_account: TokenAccount { amount: (a.token_account.amount - amount) as u64, ..a.token_account },
            mint: MintAccount { supply: (a.mint.supply - amount) as u64, ..a.mint },
            ..a
        },
        ..ctx
    }
}

/// The call a burn makes: the token program's `burn_checked` of `amount`,
/// at the mint's decimals, from the token account, signed by the authority.
pub open spec fn burn_tokens_calls(ctx: Context<BurnTokens>, amount: u64) -> Seq<Call> {
    let a = ctx.accounts;
    seq![
        Call::BurnChecked {
            token_program: a.token_program.key,
            from: a.token_account.info.key,
            mint: a.mint.info.key,
            authority: a.authority.key,
            amount: amount,
            decimals: a.mint.decimals,
        },
    ]
}

/// Runs a burn of `amount` tokens. It fails, changing nothing, with the
/// first failure of `burn_tokens_failure`; otherwise it returns the call of
/// `burn_tokens_calls` and the accounts become `burn_tokens_post`.
pub fn handler(ctx: &mut Context<BurnTokens>, amount: u64) -> (r: Result<Vec<Call>, Failure>)
    ensures
        match burn_tokens_failure(*old(ctx), amount) {
            Some(f) => r == Err::<Vec<Call>, Failure>(f) && *final(ctx) == *old(ctx),
            None => r is Ok && r.unwrap()@ == burn_tokens_calls(*old(ctx), amount)
                && *final(ctx) == burn_tokens_post(*old(ctx), amount),
        },
{
    let a = &ctx.accounts;
    if let Some(f) = check_token_interface_account(&a.token_account.info) {
        return Err(f);
    }
    if let Some(f) = check_token_interface_account(&a.mint.info) {
        return Err(f);
    }
    if let Some(f) = check_signer(&a.authority) {
        return Err(f);
    }
    if let Some(f) = check_token_interface_program(&a.token_program) {
        return Err(f);
    }
    let keys: Vec<Address> = vec![a.token_account.info.key, a.mint.info.key];
    proof {
        assert(keys@.map_values(|k: Address| k@) =~= mutable_keys(*a));
    }
    if let Some(f) = check_duplicates(&keys) {
        return Err(f);
    }
    if let Some(f) = check_mut(&a.token_account.info) {
        return Err(f);
    }
    if !a.token_account.mint.same_as(&a.mint.info.key) {
        return Err(Failure::TokenStarter(TokenStarterError::InvalidMint));
    }
    if !a.token_account.owner.same_as(&a.authority.key) {
        return Err(Failure::TokenStarter(TokenStarterError::InvalidAuthority));
    }
    if let Some(f) = check_mut(&a.mint.info) {
        return Err(f);
    }
    if let Some(f) = check_mut(&a.authority) {
        return Err(f);
    }
    if amount == 0 {
        return Err(Failure::TokenStarter(TokenStarterError::InvalidAmount));
    }
    if !a.token_account.info.owner.same_as(&a.token_program.key)
        || !a.mint.info.owner.same_as(&a.token_program.key) {
        return Err(Failure::TokenProgram(TokenProgramError::IncorrectProgramId));
    }
    if a.token_account.is_frozen {
        return Err(Failure::TokenProgram(TokenProgramError::AccountFrozen));
    }
    if a.token_account.amount < amount {
        return Err(Failure::TokenProgram(TokenProgramError::InsufficientFunds));
    }
    if a.mint.supply < amount {
        return Err(Failure::TokenProgram(TokenProgramError::Overflow));
    }
    let calls: Vec<Call> = vec![
        Call::BurnChecked {
            token_program: a.token_program.key,
            from: a.token_account.info.key,
            mint: a.mint.info.key,
            authority: a.authority.key,
            amount,
            decimals: a.mint.decimals,
        },
    ];
    proof {
        assert(calls@ =~= burn_tokens_calls(*ctx, amount));
    }
    ctx.accounts.token_account.amount = ctx.accounts.token_account.amount - amount;
    ctx.accounts.mint.supply = ctx.accounts.mint.supply - amount;
    Ok(calls)
}

} // verus!
