//! `cancel`: the sender calls a deal off before it is released; escrowed
//! tokens go back to the sender, and the vault and the record are closed
//! with their rent going back to the sender.

use vstd::prelude::*;

use crate::account::{
    check_close_token_account, check_duplicates, check_mint_constraint, check_mut, check_program_account,
    check_signer, check_token_constraint, check_token_interface_account,
    check_token_interface_program, check_transfer, close_info, close_token_account_failure,
    closed_info, duplicate_failure, first_failure, framework, mint_constraint_failure, mut_failure,
    program_account_failure, signer_failure, token_constraint_failure,
    token_interface_account_failure, token_interface_program_failure, transfer_failure,
    AccountInfo, MintAccount, TokenAccount,
};
use crate::address::{
    escrow_program_id, token_2022_program_id, Address, ESCROW_PROGRAM_BYTES,
    TOKEN_2022_PROGRAM_BYTES,
};
use crate::call::{Call, EscrowSigner};
use crate::error::{EscrowError, Failure, FrameworkError};
use crate::instructions::{check_escrow_seeds, escrow_error, escrow_seeds_failure, Context};
use crate::state::{EscrowAccount, EscrowState, EscrowStatus};

verus! {

/// The accounts of a cancellation.
#[derive(Clone, Copy, Debug, PartialEq, Eq)]
pub struct Cancel {
    /// Signs; must be the deal's sender; gets the tokens and the rent back.
    pub sender: AccountInfo,
    /// The deal's record.
    pub escrow: EscrowAccount,
    /// The deal's mint.
    pub mint: MintAccount,
    /// The sender's token account.
    pub sender_token: TokenAccount,
    /// The escrow's token account.
    pub vault: TokenAccount,
    /// Must be Token-2022.
    pub token_program: AccountInfo,
}

pub open spec fn load_failure(a: Cancel) -> Option<Failure> {
    first_failure(signer_failure(a.sender),
    first_failure(program_account_failure(a.escrow.info, ESCROW_PROGRAM_BYTES@),
    first_failure(token_interface_account_failure(a.mint.info),
    first_failure(token_interface_account_failure(a.sender_token.info),
    first_failure(token_interface_account_failure(a.vault.info),
    token_interface_program_failure(a.token_program))))))
}

/// The mutable accounts written back: the escrow, the sender's token
/// account and the vault.
pub open spec fn mutable_keys(a: Cancel) -> Seq<Seq<u8>> {
    seq![a.escrow.info.key@, a.sender_token.info.key@, a.vault.info.key@]
}

/// The constraints on the escrow: its address, its sender and mint, that it
/// is neither released nor cancelled, and that it is not closed into itself.
pub open spec fn escrow_constraint_failure(program_id: Seq<u8>, a: Cancel, deal_id: u64) -> Option<Failure> {
    first_failure(escrow_seeds_failure(program_id, a.escrow, a.sender.key@, deal_id),
    first_failure(mut_failure(a.escrow.info),
    if a.escrow.state.sender@ != a.sender.key@ {
        escrow_error(EscrowError::InvalidSender)
    } else if a.escrow.state.mint@ != a.mint.info.key@ {
        escrow_error(EscrowError::InvalidMint)
    } else if a.escrow.state.status != EscrowStatus::Created
        && a.escrow.state.status != EscrowStatus::Funded {
        escrow_error(EscrowError::AlreadyProcessed)
    } else if a.escrow.info.key@ == a.sender.key@ {
        framework(FrameworkError::ConstraintClose)
    } else {
        None
    }))
}

pub open spec fn other_constraint_failure(a: Cancel) -> Option<Failure> {
    first_failure(mint_constraint_failure(a.mint, a.token_program.key@),
    first_failure(mut_failure(a.sender_token.info),
    first_failure(token_constraint_failure(a.sender_token, a.mint.info.key@, a.sender.key@, a.token_program.key@),
    first_failure(mut_failure(a.vault.info),
    first_failure(token_constraint_failure(a.vault, a.mint.info.key@, a.escrow.info.key@, a.token_program.key@),
    if a.token_program.key@ != TOKEN_2022_PROGRAM_BYTES@ {
        escrow_error(EscrowError::InvalidTokenProgram)
    } else {
        None
    })))))
}

/// The amount that goes back to the sender: the deal's amount where the deal
/// was funded, nothing otherwise.
pub open spec fn refund(a: Cancel) -> u64 {
    if a.escrow.state.status == EscrowStatus::Funded {
        a.escrow.state.amount
    } else {
        0
    }
}

/// The vault after the refund.
pub open spec fn vault_after_refund(a: Cancel) -> TokenAccount {
    TokenAccount { amount: (a.vault.amount - refund(a)) as u64, ..a.vault }
}

/// The instruction's own steps: the refund where the deal was funded,
/// closing the vault into the sender, and closing the record into the
/// sender.
pub open spec fn handler_failure(a: Cancel) -> Option<Failure> {
    first_failure(
        if a.escrow.state.status == EscrowStatus::Funded {
            transfer_failure(a.vault, a.sender_token, a.escrow.state.amount)
        } else {
            None
        },
    first_failure(close_token_account_failure(vault_after_refund(a), a.sender),
    if a.sender.lamports + a.vault.info.lamports + a.escrow.info.lamports > u64::MAX {
        Some(Failure::LamportsOverflow)
    } else {
        None
    }))
}

/// The first failure of a cancellation, or `None` where it succeeds.
pub open spec fn cancel_failure(ctx: Context<Cancel>, deal_id: u64) -> Option<Failure> {
    let a = ctx.accounts;
    first_failure(load_failure(a),
    first_failure(duplicate_failure(mutable_keys(a)),
    first_failure(mut_failure(a.sender),
    first_failure(escrow_constraint_failure(ctx.program_id@, a, deal_id),
    first_failure(other_constraint_failure(a),
    handler_failure(a))))))
}

/// The accounts after a successful cancellation: the sender has the refund
/// and the lamports, the vault and the record are closed.
pub open spec fn cancel_post(ctx: Context<Cancel>) -> Context<Cancel> {
    let a = ctx.accounts;
    Context {
        accounts: Cancel {
            sender: AccountInfo {
                lamports: (a.sender.lamports + a.vault.info.lamports + a.escrow.info.lamports) as u64,
                ..a.sender
            },
            sender_token: TokenAccount {
                amount: (a.sender_token.amount + refund(a)) as u64,
                ..a.sender_token
            },
            vault: TokenAccount { info: closed_info(a.vault.info), ..vault_after_refund(a) },
            escrow: EscrowAccount {
                info: closed_info(a.escrow.info),
                state: EscrowState { status: EscrowStatus::Cancelled, ..a.escrow.state },
            },
            ..a
        },
        ..ctx
    }
}

/// The escrow's signature for the deal `deal_id`.
pub open spec fn cancel_signer(a: Cancel, deal_id: u64) -> EscrowSigner {
    EscrowSigner { sender: a.sender.key, deal_id: deal_id, bump: a.escrow.state.bump }
}

/// The calls that close the vault and the record into the sender.
pub open spec fn closing_calls(a: Cancel, deal_id: u64) -> Seq<Call> {
    seq![
        Call::CloseAccount {
            token_program: a.token_program.key,
            account: a.vault.info.key,
            destination: a.sender.key,
            authority: a.escrow.info.key,
            pda_signer: Some(cancel_signer(a, deal_id)),
        },
        Call::CloseProgramAccount { account: a.escrow.info.key, destination: a.sender.key },
    ]
}

/// The calls a cancellation makes, in order: where the deal was funded, the
/// token program's `transfer_checked` of the deal's amount, at the mint's
/// decimals, from the vault back to the sender's token account, signed by
/// the escrow; then the token program's `close_account` of the vault into
/// the sender, signed by the escrow; then the program closes the record
/// into the sender.
pub open spec fn cancel_calls(ctx: Context<Cancel>, deal_id: u64) -> Seq<Call> {
    let a = ctx.accounts;
    if a.escrow.state.status == EscrowStatus::Funded {
        seq![
            Call::TransferChecked {
                token_program: a.token_program.key,
                from: a.vault.info.key,
                mint: a.mint.info.key,
                to: a.sender_token.info.key,
                authority: a.escrow.info.key,
                amount: a.escrow.state.amount,
                decimals: a.mint.decimals,
                pda_signer: Some(cancel_signer(a, deal_id)),
            },
        ] + closing_calls(a, deal_id)
    } else {
        closing_calls(a, deal_id)
    }
}

/// Runs a cancellation of the deal `deal_id`. It fails, changing nothing,
/// with the first failure of `cancel_failure`; otherwise it returns the
/// calls of `cancel_calls` and the accounts become `cancel_post`.
pub fn handler(ctx: &mut Context<Cancel>, deal_id: u64) -> (r: Result<Vec<Call>, Failure>)
    ensures
        match cancel_failure(*old(ctx), deal_id) {
            Some(f) => r == Err::<Vec<Call>, Failure>(f) && *final(ctx) == *old(ctx),
            None => r is Ok && r.unwrap()@ == cancel_calls(*old(ctx), deal_id)
                && *final(ctx) == cancel_post(*old(ctx)),
        },
{
    let a = &ctx.accounts;
    if let Some(f) = check_signer(&a.sender) {
        return Err(f);
    }
    let escrow_program = escrow_program_id();
    if let Some(f) = check_program_account(&a.escrow.info, &escrow_program) {
        return Err(f);
    }
    if let Some(f) = check_token_interface_account(&a.mint.info) {
        return Err(f);
    }
    if let Some(f) = check_token_interface_account(&a.sender_token.info) {
        return Err(f);
    }
    if let Some(f) = check_token_interface_account(&a.vault.info) {
        return Err(f);
    }
    if let Some(f) = check_token_interface_program(&a.token_program) {
        return Err(f);
    }
    let keys: Vec<Address> = vec![a.escrow.info.key, a.sender_token.info.key, a.vault.info.key];
    proof {
        assert(keys@.map_values(|k: Address| k@) =~= mutable_keys(*a));
    }
    if let Some(f) = check_duplicates(&keys) {
        return Err(f);
    }
    if let Some(f) = check_mut(&a.sender) {
        return Err(f);
    }
    if let Some(f) = check_escrow_seeds(&ctx.program_id, &a.escrow, &a.sender.key, deal_id) {
        return Err(f);
    }
    if let Some(f) = check_mut(&a.escrow.info) {
        return Err(f);
    }
    if !a.escrow.state.sender.same_as(&a.sender.key) {
        return Err(Failure::Escrow(EscrowError::InvalidSender));
    }
    if !a.escrow.state.mint.same_as(&a.mint.info.key) {
        return Err(Failure::Escrow(EscrowError::InvalidMint));
    }
    let funded = a.escrow.state.status.is_funded();
    if !a.escrow.state.status.is_created() && !funded {
        return Err(Failure::Escrow(EscrowError::AlreadyProcessed));
    }
    if a.escrow.info.key.same_as(&a.sender.key) {
        return Err(Failure::Framework(FrameworkError::ConstraintClose));
    }
    if let Some(f) = check_mint_constraint(&a.mint, &a.token_program.key) {
        return Err(f);
    }
    if let Some(f) = check_mut(&a.sender_token.info) {
        return Err(f);
    }
    if let Some(f) = check_token_constraint(&a.sender_token, &a.mint.info.key, &a.sender.key, &a.token_program.key) {
        return Err(f);
    }
    if let Some(f) = check_mut(&a.vault.info) {
        return Err(f);
    }
    if let Some(f) = check_token_constraint(&a.vault, &a.mint.info.key, &a.escrow.info.key, &a.token_program.key) {
        return Err(f);
    }
    let token_2022 = token_2022_program_id();
    if !a.token_program.key.same_as(&token_2022) {
        return Err(Failure::Escrow(EscrowError::InvalidTokenProgram));
    }
    // Give the escrowed tokens back where the deal was funded.
    let refund = if funded { a.escrow.state.amount } else { 0 };
    if funded {
        if let Some(f) = check_transfer(&a.vault, &a.sender_token, refund) {
            return Err(f);
        }
    }
    let vault_after = TokenAccount { amount: a.vault.amount - refund, ..a.vault };
    // Close the vault into the sender, then the record.
    if let Some(f) = check_close_token_account(&vault_after, &a.sender) {
        return Err(f);
    }
    let sender_lamports = a.sender.lamports + a.vault.info.lamports;
    if sender_lamports > u64::MAX - a.escrow.info.lamports {
        return Err(Failure::LamportsOverflow);
    }
    let status = match a.escrow.state.status.cancel() {
        Ok(s) => s,
        Err(e) => return Err(Failure::Escrow(e)),
    };
    let escrow_lamports = a.escrow.info.lamports;
    let signer = EscrowSigner { sender: a.sender.key, deal_id, bump: a.escrow.state.bump };
    let mut calls: Vec<Call> = Vec::new();
    if funded {
        calls.push(Call::TransferChecked {
            token_program: a.token_program.key,
            from: a.vault.info.key,
            mint: a.mint.info.key,
            to: a.sender_token.info.key,
            authority: a.escrow.info.key,
            amount: refund,
            decimals: a.mint.decimals,
            pda_signer: Some(signer),
        });
    }
    calls.push(Call::CloseAccount {
        token_program: a.token_program.key,
        account: a.vault.info.key,
        destination: a.sender.key,
        authority: a.escrow.info.key,
        pda_signer: Some(signer),
    });
    calls.push(Call::CloseProgramAccount { account: a.escrow.info.key, destination: a.sender.key });
    proof {
        assert(calls@ =~= cancel_calls(*ctx, deal_id));
    }
    ctx.accounts.sender_token.amount = ctx.accounts.sender_token.amount + refund;
    ctx.accounts.vault = vault_after;
    close_info(&mut ctx.accounts.vault.info);
    ctx.accounts.sender.lamports = sender_lamports + escrow_lamports;
    ctx.accounts.escrow.state.status = status;
    close_info(&mut ctx.accounts.escrow.info);
    Ok(calls)
}

} // verus!
