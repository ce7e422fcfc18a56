//! `initialize`: the sender opens the deal `deal_id` with a receiver, a mint
//! and an amount; the record and the vault are created, paid by the sender.

use vstd::prelude::*;

use crate::account::{
    check_mint_constraint, check_mut, check_named_program, check_signer, check_system_create,
    check_token_interface_account, check_token_interface_program, compute_funding_needed,
    first_failure, framework, funding_needed, mint_constraint_failure, mut_failure,
    named_program_failure,
    signer_failure, system_create_failure, token_interface_account_failure,
    token_interface_program_failure, AccountInfo, MintAccount, TokenAccount,
};
use crate::address::{
    associated_token_address, associated_token_program_id, canonical_address,
    find_associated_token_address, find_program_address, system_program_id,
    token_2022_program_id, ASSOCIATED_TOKEN_PROGRAM_BYTES, SYSTEM_PROGRAM_BYTES,
    TOKEN_2022_PROGRAM_BYTES,
};
use crate::call::{Call, EscrowSigner};
use crate::error::{CreationError, EscrowError, Failure, FrameworkError, TokenProgramError};
use crate::instructions::{escrow_error, Context};
use crate::state::{escrow_seed_list, escrow_seeds, EscrowAccount, EscrowState, EscrowStatus};

verus! {

/// The accounts of an initialization.
#[derive(Clone, Copy, Debug, PartialEq, Eq)]
pub struct Initialize {
    /// Signs and pays for the new accounts.
    pub sender: AccountInfo,
    /// The counterparty; must differ from the sender.
    pub receiver: AccountInfo,
    /// The deal's mint.
    pub mint: MintAccount,
    /// The record to create, at the canonical address of the deal's seeds.
    pub escrow: EscrowAccount,
    /// The escrow's associated token account, to create.
    pub vault: TokenAccount,
    /// Must be Token-2022.
    pub token_program: AccountInfo,
    pub associated_token_program: AccountInfo,
    pub system_program: AccountInfo,
}

/// Loading the accounts that exist already, in their order.
pub open spec fn load_failure(a: Initialize) -> Option<Failure> {
    first_failure(signer_failure(a.sender),
    first_failure(token_interface_account_failure(a.mint.info),
    first_failure(token_interface_program_failure(a.token_program),
    first_failure(named_program_failure(a.associated_token_program, ASSOCIATED_TOKEN_PROGRAM_BYTES@),
    named_program_failure(a.system_program, SYSTEM_PROGRAM_BYTES@)))))
}

/// Creating the record: the search for the canonical address of the
/// deal's seeds must find one (the program aborts otherwise), the record
/// must be at that address, and the system program must create it.
pub open spec fn escrow_init_failure(ctx: Context<Initialize>, deal_id: u64) -> Option<Failure> {
    let a = ctx.accounts;
    match canonical_address(escrow_seeds(a.sender.key@, deal_id), ctx.program_id@) {
        None => Some(Failure::NoViableBump),
        Some((pda, _)) => if pda != a.escrow.info.key@ {
            framework(FrameworkError::ConstraintSeeds)
        } else if a.escrow.info.lamports != 0 && a.escrow.info.key@ == a.sender.key@ {
            framework(FrameworkError::TryingToInitPayerAsProgramAccount)
        } else {
            system_create_failure(a.sender, a.escrow.info, ctx.rent.escrow_account)
        },
    }
}

/// What the record's creation costs the sender.
pub open spec fn escrow_funding(ctx: Context<Initialize>) -> u64 {
    funding_needed(ctx.accounts.escrow.info.lamports, ctx.rent.escrow_account)
}

/// What the vault's creation costs the sender.
pub open spec fn vault_funding(ctx: Context<Initialize>) -> u64 {
    funding_needed(ctx.accounts.vault.info.lamports, ctx.rent.token_account)
}

/// Creating the vault with the associated token account program: the call
/// takes the sender and the vault as writable, and the runtime refuses it
/// where the instruction did not receive them as writable; the vault's
/// address must be the escrow's associated token account for the mint, it
/// must be owned by the system program, the mint must belong to the token
/// program, and the sender must still be able to pay (the program tops an
/// account up the way `funding_needed` says).
pub open spec fn vault_init_failure(ctx: Context<Initialize>) -> Option<Failure> {
    let a = ctx.accounts;
    if !a.sender.is_writable || !a.vault.info.is_writable {
        Some(Failure::Creation(CreationError::PrivilegeEscalation))
    } else {
        match associated_token_address(a.escrow.info.key@, a.mint.info.key@, a.token_program.key@) {
            None => Some(Failure::Creation(CreationError::InvalidSeeds)),
            Some(ata) => if ata != a.vault.info.key@ {
                Some(Failure::Creation(CreationError::InvalidSeeds))
            } else if a.vault.info.owner@ != SYSTEM_PROGRAM_BYTES@ {
                Some(Failure::Creation(CreationError::IllegalOwner))
            } else if a.mint.info.owner@ != a.token_program.key@ {
                Some(Failure::TokenProgram(TokenProgramError::IncorrectProgramId))
            } else if a.sender.lamports - escrow_funding(ctx) < vault_funding(ctx) {
                Some(Failure::Creation(CreationError::InsufficientLamports))
            } else {
                None
            },
        }
    }
}

/// The constraints on the accounts that existed already.
pub open spec fn constraint_failure(a: Initialize) -> Option<Failure> {
    first_failure(mut_failure(a.sender),
    first_failure(mint_constraint_failure(a.mint, a.token_program.key@),
    if a.token_program.key@ != TOKEN_2022_PROGRAM_BYTES@ {
        escrow_error(EscrowError::InvalidTokenProgram)
    } else {
        None
    }))
}

/// The instruction's own checks.
pub open spec fn handler_failure(a: Initialize, amount: u64) -> Option<Failure> {
    if amount == 0 {
        escrow_error(EscrowError::InvalidAmount)
    } else if a.sender.key@ == a.receiver.key@ {
        escrow_error(EscrowError::SenderEqualsReceiver)
    } else {
        None
    }
}

/// The first failure of an initialization, or `None` where it succeeds.
pub open spec fn initialize_failure(ctx: Context<Initialize>, deal_id: u64, amount: u64) -> Option<Failure> {
    first_failure(load_failure(ctx.accounts),
    first_failure(escrow_init_failure(ctx, deal_id),
    first_failure(vault_init_failure(ctx),
    first_failure(constraint_failure(ctx.accounts),
    handler_failure(ctx.accounts, amount)))))
}

/// The bump of the record's address.
pub open spec fn escrow_bump(ctx: Context<Initialize>, deal_id: u64) -> u8 {
    canonical_address(escrow_seeds(ctx.accounts.sender.key@, deal_id), ctx.program_id@).unwrap().1
}

/// The accounts after a successful initialization: the sender paid for
/// the record and the vault; the record, owned by the program, holds the
/// deal in the `Created` status; the vault is an empty token account of the
/// mint whose authority is the escrow.
pub open spec fn initialize_post(ctx: Context<Initialize>, deal_id: u64, amount: u64) -> Context<Initialize> {
    let a = ctx.accounts;
    Context {
        accounts: Initialize {
            sender: AccountInfo {
                lamports: (a.sender.lamports - escrow_funding(ctx) - vault_funding(ctx)) as u64,
                ..a.sender
            },
            escrow: EscrowAccount {
                info: AccountInfo {
                    owner: ctx.program_id,
                    lamports: (a.escrow.info.lamports + escrow_funding(ctx)) as u64,
                    ..a.escrow.info
                },
                state: EscrowState {
                    sender: a.sender.key,
                    receiver: a.receiver.key,
                    mint: a.mint.info.key,
                    amount: amount,
                    deal_id: deal_id,
                    bump: escrow_bump(ctx, deal_id),
                    status: EscrowStatus::Created,
                },
            },
            vault: TokenAccount {
                info: AccountInfo {
                    owner: a.token_program.key,
                    lamports: (a.vault.info.lamports + vault_funding(ctx)) as u64,
                    ..a.vault.info
                },
                mint: a.mint.info.key,
                owner: a.escrow.info.key,
                amount: 0,
                is_frozen: false,
            },
            ..a
        },
        ..ctx
    }
}

/// The escrow's signature while its record is created.
pub open spec fn initialize_signer(ctx: Context<Initialize>, deal_id: u64) -> EscrowSigner {
    EscrowSigner { sender: ctx.accounts.sender.key, deal_id: deal_id, bump: escrow_bump(ctx, deal_id) }
}

/// The system program calls that create the record, of 122 bytes and owned
/// by the program, paid by the sender: one `create_account` of the rent
/// for an empty account; otherwise a `transfer` of what is missing (where
/// anything is), an `allocate` and an `assign`, the record signing with its
/// seeds.
pub open spec fn escrow_creation_calls(ctx: Context<Initialize>, deal_id: u64) -> Seq<Call> {
    let a = ctx.accounts;
    let signer = initialize_signer(ctx, deal_id);
    if a.escrow.info.lamports == 0 {
        seq![
            Call::CreateAccount {
                from: a.sender.key,
                to: a.escrow.info.key,
                lamports: ctx.rent.escrow_account,
                space: 122,
                owner: ctx.program_id,
                signer: signer,
            },
        ]
    } else {
        (if escrow_funding(ctx) > 0 {
            seq![Call::Transfer { from: a.sender.key, to: a.escrow.info.key, lamports: escrow_funding(ctx) }]
        } else {
            Seq::<Call>::empty()
        }) + seq![
            Call::Allocate { account: a.escrow.info.key, space: 122, signer: signer },
            Call::Assign { account: a.escrow.info.key, owner: ctx.program_id, signer: signer },
        ]
    }
}

/// The calls an initialization makes, in order: creating the record, then
/// the associated token account program's `create` of the escrow's account
/// for the mint under the token program, paid by the sender.
pub open spec fn initialize_calls(ctx: Context<Initialize>, deal_id: u64) -> Seq<Call> {
    let a = ctx.accounts;
    escrow_creation_calls(ctx, deal_id) + seq![
        Call::CreateAssociatedTokenAccount {
            program: a.associated_token_program.key,
            payer: a.sender.key,
            associated_token: a.vault.info.key,
            wallet: a.escrow.info.key,
            mint: a.mint.info.key,
            system_program: a.system_program.key,
            token_program: a.token_program.key,
        },
    ]
}

proof fn lemma_funding_fits(current: u64, rent: u64)
    ensures
        current + funding_needed(current, rent) <= u64::MAX,
{
}

/// Runs an initialization of the deal `deal_id` for `amount` tokens. It
/// fails, changing nothing, with the first failure of
/// `initialize_failure`; otherwise it returns the calls of
/// `initialize_calls` and the accounts become `initialize_post`.
pub fn handler(ctx: &mut Context<Initialize>, deal_id: u64, amount: u64) -> (r: Result<Vec<Call>, Failure>)
    ensures
        match initialize_failure(*old(ctx), deal_id, amount) {
            Some(f) => r == Err::<Vec<Call>, Failure>(f) && *final(ctx) == *old(ctx),
            None => r is Ok && r.unwrap()@ == initialize_calls(*old(ctx), deal_id)
                && *final(ctx) == initialize_post(*old(ctx), deal_id, amount),
        },
{
    let a = &ctx.accounts;
    // Loading the accounts that exist already.
    if let Some(f) = check_signer(&a.sender) {
        return Err(f);
    }
    if let Some(f) = check_token_interface_account(&a.mint.info) {
        return Err(f);
    }
    if let Some(f) = check_token_interface_program(&a.token_program) {
        return Err(f);
    }
    let ata_program = associated_token_program_id();
    if let Some(f) = check_named_program(&a.associated_token_program, &ata_program) {
        return Err(f);
    }
    let system_program = system_program_id();
    if let Some(f) = check_named_program(&a.system_program, &system_program) {
        return Err(f);
    }
    // Creating the record.
    let seeds = escrow_seed_list(&a.sender.key, deal_id);
    let bump = match find_program_address(&seeds, &ctx.program_id) {
        None => return Err(Failure::NoViableBump),
        Some((pda, bump)) => {
            if !pda.same_as(&a.escrow.info.key) {
                return Err(Failure::Framework(FrameworkError::ConstraintSeeds));
            }
            bump
        },
    };
    if a.escrow.info.lamports != 0 && a.escrow.info.key.same_as(&a.sender.key) {
        return Err(Failure::Framework(FrameworkError::TryingToInitPayerAsProgramAccount));
    }
    if let Some(f) = check_system_create(&a.sender, &a.escrow.info, ctx.rent.escrow_account) {
        return Err(f);
    }
    let escrow_funding = compute_funding_needed(a.escrow.info.lamports, ctx.rent.escrow_account);
    let vault_funding = compute_funding_needed(a.vault.info.lamports, ctx.rent.token_account);
    // Creating the vault.
    if !a.sender.is_writable || !a.vault.info.is_writable {
        return Err(Failure::Creation(CreationError::PrivilegeEscalation));
    }
    match find_associated_token_address(&a.escrow.info.key, &a.mint.info.key, &a.token_program.key) {
        None => return Err(Failure::Creation(CreationError::InvalidSeeds)),
        Some(ata) => {
            if !ata.same_as(&a.vault.info.key) {
                return Err(Failure::Creation(CreationError::InvalidSeeds));
            }
        },
    }
    if !a.vault.info.owner.same_as(&system_program) {
        return Err(Failure::Creation(CreationError::IllegalOwner));
    }
    if !a.mint.info.owner.same_as(&a.token_program.key) {
        return Err(Failure::TokenProgram(TokenProgramError::IncorrectProgramId));
    }
    if a.sender.lamports - escrow_funding < vault_funding {
        return Err(Failure::Creation(CreationError::InsufficientLamports));
    }
    // The constraints on the accounts that existed already.
    if let Some(f) = check_mut(&a.sender) {
        return Err(f);
    }
    if let Some(f) = check_mint_constraint(&a.mint, &a.token_program.key) {
        return Err(f);
    }
    let token_2022 = token_2022_program_id();
    if !a.token_program.key.same_as(&token_2022) {
        return Err(Failure::Escrow(EscrowError::InvalidTokenProgram));
    }
    // The instruction itself.
    if amount == 0 {
        return Err(Failure::Escrow(EscrowError::InvalidAmount));
    }
    if a.sender.key.same_as(&a.receiver.key) {
        return Err(Failure::Escrow(EscrowError::SenderEqualsReceiver));
    }
    proof {
        lemma_funding_fits(a.escrow.info.lamports, ctx.rent.escrow_account);
        lemma_funding_fits(a.vault.info.lamports, ctx.rent.token_account);
    }
    let signer = EscrowSigner { sender: a.sender.key, deal_id, bump };
    let space = EscrowState::account_space();
    let mut calls: Vec<Call> = Vec::new();
    if a.escrow.info.lamports == 0 {
        calls.push(Call::CreateAccount {
            from: a.sender.key,
            to: a.escrow.info.key,
            lamports: ctx.rent.escrow_account,
            space,
            owner: ctx.program_id,
            signer,
        });
    } else {
        if escrow_funding > 0 {
            calls.push(Call::Transfer { from: a.sender.key, to: a.escrow.info.key, lamports: escrow_funding });
        }
        calls.push(Call::Allocate { account: a.escrow.info.key, space, signer });
        calls.push(Call::Assign { account: a.escrow.info.key, owner: ctx.program_id, signer });
    }
    calls.push(Call::CreateAssociatedTokenAccount {
        program: a.associated_token_program.key,
        payer: a.sender.key,
        associated_token: a.vault.info.key,
        wallet: a.escrow.info.key,
        mint: a.mint.info.key,
        system_program: a.system_program.key,
        token_program: a.token_program.key,
    });
    proof {
        assert(calls@ =~= initialize_calls(*ctx, deal_id));
    }
    let sender_key = a.sender.key;
    let receiver_key = a.receiver.key;
    let mint_key = a.mint.info.key;
    let escrow_key = a.escrow.info.key;
    let token_program_key = a.token_program.key;
    let program_id = ctx.program_id;
    ctx.accounts.sender.lamports = ctx.accounts.sender.lamports - escrow_funding - vault_funding;
    ctx.accounts.escrow.info.owner = program_id;
    ctx.accounts.escrow.info.lamports = ctx.accounts.escrow.info.lamports + escrow_funding;
    ctx.accounts.escrow.state = EscrowState {
        sender: sender_key,
        receiver: receiver_key,
        mint: mint_key,
        amount,
        deal_id,
        bump,
        status: EscrowStatus::Created,
    };
    ctx.accounts.vault.info.owner = token_program_key;
    ctx.accounts.vault.info.lamports = ctx.accounts.vault.info.lamports + vault_funding;
    ctx.accounts.vault.mint = mint_key;
    ctx.accounts.vault.owner = escrow_key;
    ctx.accounts.vault.amount = 0;
    ctx.accounts.vault.is_frozen = false;
    Ok(calls)
}

} // verus!
