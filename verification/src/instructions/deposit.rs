//! `deposit`: the sender moves the deal's amount into the vault.

use vstd::prelude::*;

use crate::account::{
    check_duplicates, check_mint_constraint, check_mut, check_program_account, check_signer,
    check_token_constraint, check_token_interface_account, check_token_interface_program,
    check_transfer, duplicate_failure, first_failure, mint_constraint_failure, mut_failure,
    program_account_failure, signer_failure, token_constraint_failure,
    token_interface_account_failure, token_interface_program_failure, transfer_failure,
    AccountInfo, MintAccount, TokenAccount,
};
use crate::address::{
    escrow_program_id, token_2022_program_id, Address, ESCROW_PROGRAM_BYTES,
    TOKEN_2022_PROGRAM_BYTES,
};
use crate::call::Call;
use crate::error::{EscrowError, Failure};
use crate::instructions::{check_escrow_seeds, escrow_error, escrow_seeds_failure, Context};
use crate::state::{EscrowAccount, EscrowState, EscrowStatus};

verus! {

/// The accounts of a deposit.
#[derive(Clone, Copy, Debug, PartialEq, Eq)]
pub struct Deposit {
    /// Signs; must be the deal's sender.
    pub sender: AccountInfo,
    /// The deal's record, at the address its seeds derive.
    pub escrow: EscrowAccount,
    /// The deal's mint.
    pub mint: MintAccount,
    /// The sender's token account, the source of the tokens.
    pub sender_token: TokenAccount,
    /// The escrow's token account.
    pub vault: TokenAccount,
    /// Must be Token-2022.
    pub token_program: AccountInfo,
}

/// Loading the accounts, in their order.
pub open spec fn load_failure(a: Deposit) -> Option<Failure> {
    first_failure(signer_failure(a.sender),
    first_failure(program_account_failure(a.escrow.info, ESCROW_PROGRAM_BYTES@),
    first_failure(token_interface_account_failure(a.mint.info),
    first_failure(token_interface_account_failure(a.sender_token.info),
    first_failure(token_interface_account_failure(a.vault.info),
    token_interface_program_failure(a.token_program))))))
}

/// The mutable accounts written back: the escrow, the sender's token
/// account and the vault.
pub open spec fn mutable_keys(a: Deposit) -> Seq<Seq<u8>> {
    seq![a.escrow.info.key@, a.sender_token.info.key@, a.vault.info.key@]
}

/// The constraints on the escrow: its address, its sender, its mint, and
/// that it has not been funded yet.
pub open spec fn escrow_constraint_failure(program_id: Seq<u8>, a: Deposit, deal_id: u64) -> Option<Failure> {
    first_failure(escrow_seeds_failure(program_id, a.escrow, a.sender.key@, deal_id),
    first_failure(mut_failure(a.escrow.info),
    if a.escrow.state.sender@ != a.sender.key@ {
        escrow_error(EscrowError::InvalidSender)
    } else if a.escrow.state.mint@ != a.mint.info.key@ {
        escrow_error(EscrowError::InvalidMint)
    } else if a.escrow.state.status != EscrowStatus::Created {
        escrow_error(EscrowError::AlreadyProcessed)
    } else {
        None
    }))
}

/// The constraints on the other accounts, in their order.
pub open spec fn other_constraint_failure(a: Deposit) -> Option<Failure> {
    first_failure(mint_constraint_failure(a.mint, a.token_program.key@),
    first_failure(mut_failure(a.sender_token.info),
    first_failure(token_constraint_failure(a.sender_token, a.mint.info.key@, a.sender.key@, a.token_program.key@),
    first_failure(mut_failure(a.vault.info),
    first_failure(token_constraint_failure(a.vault, a.mint.info.key@, a.escrow.info.key@, a.token_program.key@),
    if a.token_program.key@ != TOKEN_2022_PROGRAM_BYTES@ {
        escrow_error(EscrowError::InvalidTokenProgram)
    } else {
        None
    })))))
}

/// The instruction's own checks: a positive amount, and a transfer that
/// the token program carries out.
pub open spec fn handler_failure(a: Deposit) -> Option<Failure> {
    if a.escrow.state.amount == 0 {
        escrow_error(EscrowError::InvalidAmount)
    } else {
        transfer_failure(a.sender_token, a.vault, a.escrow.state.amount)
    }
}

/// The first failure of a deposit, or `None` where it succeeds.
pub open spec fn deposit_failure(ctx: Context<Deposit>, deal_id: u64) -> Option<Failure> {
    let a = ctx.accounts;
    first_failure(load_failure(a),
    first_failure(duplicate_failure(mutable_keys(a)),
    first_failure(escrow_constraint_failure(ctx.program_id@, a, deal_id),
    first_failure(other_constraint_failure(a),
    handler_failure(a)))))
}

/// The accounts after a successful deposit: the amount has moved from the
/// sender's token account to the vault, and the deal is funded.
pub open spec fn deposit_post(ctx: Context<Deposit>) -> Context<Deposit> {
    let a = ctx.accounts;
    let amount = a.escrow.state.amount;
    Context {
        accounts: Deposit {
            sender_token: TokenAccount { amount: (a.sender_token.amount - amount) as u64, ..a.sender_token },
            vault: TokenAccount { amount: (a.vault.amount + amount) as u64, ..a.vault },
            escrow: EscrowAccount {
                state: EscrowState { status: EscrowStatus::Funded, ..a.escrow.state },
                ..a.escrow
            },
            ..a
        },
        ..ctx
    }
}

/// The call a deposit makes: the token program's `transfer_checked` of the
/// deal's amount, at the mint's decimals, from the sender's token account
/// to the vault, signed by the sender.
pub open spec fn deposit_calls(ctx: Context<Deposit>) -> Seq<Call> {
    let a = ctx.accounts;
    seq![
        Call::TransferChecked {
            token_program: a.token_program.key,
            from: a.sender_token.info.key,
            mint: a.mint.info.key,
            to: a.vault.info.key,
            authority: a.sender.key,
            amount: a.escrow.state.amount,
            decimals: a.mint.decimals,
            pda_signer: None,
        },
    ]
}

/// Runs a deposit of the deal `deal_id`. It fails, changing nothing, with
/// the first failure of `deposit_failure`; otherwise it returns the calls of
/// `deposit_calls` and the accounts become `deposit_post`.
pub fn handler(ctx: &mut Context<Deposit>, deal_id: u64) -> (r: Result<Vec<Call>, Failure>)
    ensures
        match deposit_failure(*old(ctx), deal_id) {
            Some(f) => r == Err::<Vec<Call>, Failure>(f) && *final(ctx) == *old(ctx),
            None => r is Ok && r.unwrap()@ == deposit_calls(*old(ctx))
                && *final(ctx) == deposit_post(*old(ctx)),
        },
{
    let a = &ctx.accounts;
    // Loading the accounts.
    if let Some(f) = check_signer(&a.sender) {
        return Err(f);
    }
    let escrow_program = escrow_program_id();
    if let Some(f) = check_program_account(&a.escrow.info, &escrow_program) {
        return Err(f);
    }
    if let Some(f) = check_token_interface_account(&a.mint.info) {
        return Err(f);
    }
    if let Some(f) = check_token_interface_account(&a.sender_token.info) {
        return Err(f);
    }
    if let Some(f) = check_token_interface_account(&a.vault.info) {
        return Err(f);
    }
    if let Some(f) = check_token_interface_program(&a.token_program) {
        return Err(f);
    }
    // Distinct mutable accounts.
    let keys: Vec<Address> = vec![a.escrow.info.key, a.sender_token.info.key, a.vault.info.key];
    proof {
        assert(keys@.map_values(|k: Address| k@) =~= mutable_keys(*a));
    }
    if let Some(f) = check_duplicates(&keys) {
        return Err(f);
    }
    // The escrow's constraints.
    if let Some(f) = check_escrow_seeds(&ctx.program_id, &a.escrow, &a.sender.key, deal_id) {
        return Err(f);
    }
    if let Some(f) = check_mut(&a.escrow.info) {
        return Err(f);
    }
    if !a.escrow.state.sender.same_as(&a.sender.key) {
        return Err(Failure::Escrow(EscrowError::InvalidSender));
    }
    if !a.escrow.state.mint.same_as(&a.mint.info.key) {
        return Err(Failure::Escrow(EscrowError::InvalidMint));
    }
    if !a.escrow.state.status.is_created() {
        return Err(Failure::Escrow(EscrowError::AlreadyProcessed));
    }
    // The other accounts' constraints.
    if let Some(f) = check_mint_constraint(&a.mint, &a.token_program.key) {
        return Err(f);
    }
    if let Some(f) = check_mut(&a.sender_token.info) {
        return Err(f);
    }
    if let Some(f) = check_token_constraint(&a.sender_token, &a.mint.info.key, &a.sender.key, &a.token_program.key) {
        return Err(f);
    }
    if let Some(f) = check_mut(&a.vault.info) {
        return Err(f);
    }
    if let Some(f) = check_token_constraint(&a.vault, &a.mint.info.key, &a.escrow.info.key, &a.token_program.key) {
        return Err(f);
    }
    let token_2022 = token_2022_program_id();
    if !a.token_program.key.same_as(&token_2022) {
        return Err(Failure::Escrow(EscrowError::InvalidTokenProgram));
    }
    // The instruction itself.
    let amount = a.escrow.state.amount;
    if amount == 0 {
        return Err(Failure::Escrow(EscrowError::InvalidAmount));
    }
    if let Some(f) = check_transfer(&a.sender_token, &a.vault, amount) {
        return Err(f);
    }
    let status = match a.escrow.state.status.fund() {
        Ok(s) => s,
        Err(e) => return Err(Failure::Escrow(e)),
    };
    let calls: Vec<Call> = vec![
        Call::TransferChecked {
            token_program: a.token_program.key,
            from: a.sender_token.info.key,
            mint: a.mint.info.key,
            to: a.vault.info.key,
            authority: a.sender.key,
            amount,
            decimals: a.mint.decimals,
            pda_signer: None,
        },
    ];
    proof {
        assert(calls@ =~= deposit_calls(*ctx));
    }
    ctx.accounts.sender_token.amount = ctx.accounts.sender_token.amount - amount;
    ctx.accounts.vault.amount = ctx.accounts.vault.amount + amount;
    ctx.accounts.escrow.state.status = status;
    Ok(calls)
}

} // verus!
