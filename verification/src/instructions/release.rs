//! `release`: the sender hands the escrowed tokens to the receiver; the
//! vault and the record are closed and their rent goes back to the sender.

use vstd::prelude::*;

use crate::account::{
    check_close_token_account, check_duplicates, check_mint_constraint, check_mut, check_program_account,
    check_signer, check_token_constraint, check_token_interface_account,
    check_token_interface_program, check_transfer, close_info, close_token_account_failure,
    closed_info, duplicate_failure, first_failure, framework, mint_constraint_failure, mut_failure,
    program_account_failure, signer_failure, token_constraint_failure,
    token_interface_account_failure, token_interface_program_failure, transfer_failure,
    AccountInfo, MintAccount, TokenAccount,
};
use crate::address::{
    escrow_program_id, token_2022_program_id, Address, ESCROW_PROGRAM_BYTES,
    TOKEN_2022_PROGRAM_BYTES,
};
use crate::call::{Call, EscrowSigner};
use crate::error::{EscrowError, Failure, FrameworkError};
use crate::instructions::{check_escrow_seeds, escrow_error, escrow_seeds_failure, Context};
use crate::state::{release_result, EscrowAccount, EscrowState, EscrowStatus};

verus! {

/// The accounts of a release.
#[derive(Clone, Copy, Debug, PartialEq, Eq)]
pub struct Release {
    /// Signs; must be the deal's sender; receives the rent back.
    pub sender: AccountInfo,
    /// Must be the deal's receiver; does not sign.
    pub receiver: AccountInfo,
    /// The deal's record.
    pub escrow: EscrowAccount,
    /// The deal's mint.
    pub mint: MintAccount,
    /// The escrow's token account.
    pub vault: TokenAccount,
    /// The receiver's token account.
    pub receiver_token: TokenAccount,
    /// Must be Token-2022.
    pub token_program: AccountInfo,
}

pub open spec fn load_failure(a: Release) -> Option<Failure> {
    first_failure(signer_failure(a.sender),
    first_failure(program_account_failure(a.escrow.info, ESCROW_PROGRAM_BYTES@),
    first_failure(token_interface_account_failure(a.mint.info),
    first_failure(token_interface_account_failure(a.vault.info),
    first_failure(token_interface_account_failure(a.receiver_token.info),
    token_interface_program_failure(a.token_program))))))
}

/// The mutable accounts written back: the escrow, the vault and the
/// receiver's token account.
pub open spec fn mutable_keys(a: Release) -> Seq<Seq<u8>> {
    seq![a.escrow.info.key@, a.vault.info.key@, a.receiver_token.info.key@]
}

/// The constraints on the escrow: its address, its sender, receiver and
/// mint, that its status lets it be released (a deal that was never funded
/// gets `InvalidStatus`, a released or cancelled one `AlreadyProcessed`),
/// and that it is not closed into itself.
pub open spec fn escrow_constraint_failure(program_id: Seq<u8>, a: Release, deal_id: u64) -> Option<Failure> {
    first_failure(escrow_seeds_failure(program_id, a.escrow, a.sender.key@, deal_id),
    first_failure(mut_failure(a.escrow.info),
    if a.escrow.state.sender@ != a.sender.key@ {
        escrow_error(EscrowError::InvalidSender)
    } else if a.escrow.state.receiver@ != a.receiver.key@ {
        escrow_error(EscrowError::InvalidReceiver)
    } else if a.escrow.state.mint@ != a.mint.info.key@ {
        escrow_error(EscrowError::InvalidMint)
    } else if release_result(a.escrow.state.status) is Err {
        escrow_error(release_result(a.escrow.state.status)->Err_0)
    } else if a.escrow.info.key@ == a.sender.key@ {
        framework(FrameworkError::ConstraintClose)
    } else {
        None
    }))
}

pub open spec fn other_constraint_failure(a: Release) -> Option<Failure> {
    first_failure(mint_constraint_failure(a.mint, a.token_program.key@),
    first_failure(mut_failure(a.vault.info),
    first_failure(token_constraint_failure(a.vault, a.mint.info.key@, a.escrow.info.key@, a.token_program.key@),
    first_failure(mut_failure(a.receiver_token.info),
    first_failure(token_constraint_failure(a.receiver_token, a.mint.info.key@, a.receiver.key@, a.token_program.key@),
    if a.token_program.key@ != TOKEN_2022_PROGRAM_BYTES@ {
        escrow_error(EscrowError::InvalidTokenProgram)
    } else {
        None
    })))))
}

/// The vault after the transfer to the receiver.
pub open spec fn vault_after_transfer(a: Release) -> TokenAccount {
    TokenAccount { amount: (a.vault.amount - a.escrow.state.amount) as u64, ..a.vault }
}

/// The sender's lamports once the vault's rent came back.
pub open spec fn sender_after_vault_close(a: Release) -> AccountInfo {
    AccountInfo { lamports: (a.sender.lamports + a.vault.info.lamports) as u64, ..a.sender }
}

/// The instruction's own steps: the transfer to the receiver, closing the
/// vault into the sender, and closing the record into the sender.
pub open spec fn handler_failure(a: Release) -> Option<Failure> {
    first_failure(transfer_failure(a.vault, a.receiver_token, a.escrow.state.amount),
    first_failure(close_token_account_failure(vault_after_transfer(a), a.sender),
    if sender_after_vault_close(a).lamports + a.escrow.info.lamports > u64::MAX {
        Some(Failure::LamportsOverflow)
    } else {
        None
    }))
}

/// The first failure of a release, or `None` where it succeeds.
pub open spec fn release_failure(ctx: Context<Release>, deal_id: u64) -> Option<Failure> {
    let a = ctx.accounts;
    first_failure(load_failure(a),
    first_failure(duplicate_failure(mutable_keys(a)),
    first_failure(mut_failure(a.sender),
    first_failure(escrow_constraint_failure(ctx.program_id@, a, deal_id),
    first_failure(other_constraint_failure(a),
    handler_failure(a))))))
}

/// The accounts after a successful release: the receiver has the amount,
/// the vault and the record are closed, and the sender has their lamports.
pub open spec fn release_post(ctx: Context<Release>) -> Context<Release> {
    let a = ctx.accounts;
    Context {
        accounts: Release {
            sender: AccountInfo {
                lamports: (a.sender.lamports + a.vault.info.lamports + a.escrow.info.lamports) as u64,
                ..a.sender
            },
            receiver_token: TokenAccount {
                amount: (a.receiver_token.amount + a.escrow.state.amount) as u64,
                ..a.receiver_token
            },
            vault: TokenAccount { info: closed_info(a.vault.info), ..vault_after_transfer(a) },
            escrow: EscrowAccount {
                info: closed_info(a.escrow.info),
                state: EscrowState { status: EscrowStatus::Released, ..a.escrow.state },
            },
            ..a
        },
        ..ctx
    }
}

/// The escrow's signature for the deal `deal_id`: its sender's address and
/// the recorded bump.
pub open spec fn release_signer(a: Release, deal_id: u64) -> EscrowSigner {
    EscrowSigner { sender: a.sender.key, deal_id: deal_id, bump: a.escrow.state.bump }
}

/// The calls a release makes, in order: the token program's
/// `transfer_checked` of the deal's amount, at the mint's decimals, from the
/// vault to the receiver's token account, then its `close_account` of the
/// vault into the sender, both signed by the escrow with its seeds; then
/// the program closes the record into the sender.
pub open spec fn release_calls(ctx: Context<Release>, deal_id: u64) -> Seq<Call> {
    let a = ctx.accounts;
    seq![
        Call::TransferChecked {
            token_program: a.token_program.key,
            from: a.vault.info.key,
            mint: a.mint.info.key,
            to: a.receiver_token.info.key,
            authority: a.escrow.info.key,
            amount: a.escrow.state.amount,
            decimals: a.mint.decimals,
            pda_signer: Some(release_signer(a, deal_id)),
        },
        Call::CloseAccount {
            token_program: a.token_program.key,
            account: a.vault.info.key,
            destination: a.sender.key,
            authority: a.escrow.info.key,
            pda_signer: Some(release_signer(a, deal_id)),
        },
        Call::CloseProgramAccount { account: a.escrow.info.key, destination: a.sender.key },
    ]
}

/// Runs a release of the deal `deal_id`. It fails, changing nothing, with
/// the first failure of `release_failure`; otherwise it returns the calls of
/// `release_calls` and the accounts become `release_post`.
pub fn handler(ctx: &mut Context<Release>, deal_id: u64) -> (r: Result<Vec<Call>, Failure>)
    ensures
        match release_failure(*old(ctx), deal_id) {
            Some(f) => r == Err::<Vec<Call>, Failure>(f) && *final(ctx) == *old(ctx),
            None => r is Ok && r.unwrap()@ == release_calls(*old(ctx), deal_id)
                && *final(ctx) == release_post(*old(ctx)),
        },
{
    let a = &ctx.accounts;
    if let Some(f) = check_signer(&a.sender) {
        return Err(f);
    }
    let escrow_program = escrow_program_id();
    if let Some(f) = check_program_account(&a.escrow.info, &escrow_program) {
        return Err(f);
    }
    if let Some(f) = check_token_interface_account(&a.mint.info) {
        return Err(f);
    }
    if let Some(f) = check_token_interface_account(&a.vault.info) {
        return Err(f);
    }
    if let Some(f) = check_token_interface_account(&a.receiver_token.info) {
        return Err(f);
    }
    if let Some(f) = check_token_interface_program(&a.token_program) {
        return Err(f);
    }
    let keys: Vec<Address> = vec![a.escrow.info.key, a.vault.info.key, a.receiver_token.info.key];
    proof {
        assert(keys@.map_values(|k: Address| k@) =~= mutable_keys(*a));
    }
    if let Some(f) = check_duplicates(&keys) {
        return Err(f);
    }
    if let Some(f) = check_mut(&a.sender) {
        return Err(f);
    }
    if let Some(f) = check_escrow_seeds(&ctx.program_id, &a.escrow, &a.sender.key, deal_id) {
        return Err(f);
    }
    if let Some(f) = check_mut(&a.escrow.info) {
        return Err(f);
    }
    if !a.escrow.state.sender.same_as(&a.sender.key) {
        return Err(Failure::Escrow(EscrowError::InvalidSender));
    }
    if !a.escrow.state.receiver.same_as(&a.receiver.key) {
        return Err(Failure::Escrow(EscrowError::InvalidReceiver));
    }
    if !a.escrow.state.mint.same_as(&a.mint.info.key) {
        return Err(Failure::Escrow(EscrowError::InvalidMint));
    }
    let status = match a.escrow.state.status.release() {
        Ok(s) => s,
        Err(e) => return Err(Failure::Escrow(e)),
    };
    if a.escrow.info.key.same_as(&a.sender.key) {
        return Err(Failure::Framework(FrameworkError::ConstraintClose));
    }
    if let Some(f) = check_mint_constraint(&a.mint, &a.token_program.key) {
        return Err(f);
    }
    if let Some(f) = check_mut(&a.vault.info) {
        return Err(f);
    }
    if let Some(f) = check_token_constraint(&a.vault, &a.mint.info.key, &a.escrow.info.key, &a.token_program.key) {
        return Err(f);
    }
    if let Some(f) = check_mut(&a.receiver_token.info) {
        return Err(f);
    }
    if let Some(f) = check_token_constraint(&a.receiver_token, &a.mint.info.key, &a.receiver.key, &a.token_program.key) {
        return Err(f);
    }
    let token_2022 = token_2022_program_id();
    if !a.token_program.key.same_as(&token_2022) {
        return Err(Failure::Escrow(EscrowError::InvalidTokenProgram));
    }
    // Transfer the escrowed amount to the receiver.
    let amount = a.escrow.state.amount;
    if let Some(f) = check_transfer(&a.vault, &a.receiver_token, amount) {
        return Err(f);
    }
    let vault_after = TokenAccount { amount: a.vault.amount - amount, ..a.vault };
    // Close the vault into the sender.
    if let Some(f) = check_close_token_account(&vault_after, &a.sender) {
        return Err(f);
    }
    let sender_lamports = a.sender.lamports + a.vault.info.lamports;
    // Close the record into the sender.
    if sender_lamports > u64::MAX - a.escrow.info.lamports {
        return Err(Failure::LamportsOverflow);
    }
    let escrow_lamports = a.escrow.info.lamports;
    let signer = EscrowSigner { sender: a.sender.key, deal_id, bump: a.escrow.state.bump };
    let calls: Vec<Call> = vec![
        Call::TransferChecked {
            token_program: a.token_program.key,
            from: a.vault.info.key,
            mint: a.mint.info.key,
            to: a.receiver_token.info.key,
            authority: a.escrow.info.key,
            amount,
            decimals: a.mint.decimals,
            pda_signer: Some(signer),
        },
        Call::CloseAccount {
            token_program: a.token_program.key,
            account: a.vault.info.key,
            destination: a.sender.key,
            authority: a.escrow.info.key,
            pda_signer: Some(signer),
        },
        Call::CloseProgramAccount { account: a.escrow.info.key, destination: a.sender.key },
    ];
    proof {
        assert(calls@ =~= release_calls(*ctx, deal_id));
    }
    ctx.accounts.receiver_token.amount = ctx.accounts.receiver_token.amount + amount;
    ctx.accounts.vault = vault_after;
    close_info(&mut ctx.accounts.vault.info);
    ctx.accounts.sender.lamports = sender_lamports + escrow_lamports;
    ctx.accounts.escrow.state.status = status;
    close_info(&mut ctx.accounts.escrow.info);
    Ok(calls)
}

} // verus!
