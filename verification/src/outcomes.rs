//! When each instruction succeeds, and what it asks other programs to do,
//! stated over the accounts' own fields.

use vstd::prelude::*;
use vstd::bytes::{lemma_auto_spec_u64_to_from_le_bytes, spec_u64_to_le_bytes};

use crate::address::{
    is_canonical_bump, lemma_canonical_unique, program_address, ASSOCIATED_TOKEN_PROGRAM_BYTES, ESCROW_PROGRAM_BYTES, SYSTEM_PROGRAM_BYTES, TOKEN_2022_PROGRAM_BYTES,
    TOKEN_PROGRAM_BYTES,
};
use crate::dispatch::{
    decode, EscrowInstruction, CANCEL_TAG, DEPOSIT_TAG, INITIALIZE_TAG, RELEASE_TAG,
};
use crate::call::{Call, EscrowSigner};
use crate::error::{EscrowError, Failure, FrameworkError, TokenProgramError, TokenStarterError};
use crate::instructions::cancel::cancel_calls;
use crate::instructions::deposit::deposit_calls;
use crate::instructions::initialize::initialize_calls;
use crate::instructions::release::release_calls;
use crate::token_starter::burn::burn_tokens_calls;
use crate::instructions::cancel::{cancel_failure, Cancel};
use crate::instructions::deposit::{deposit_failure, Deposit};
use crate::instructions::initialize::{initialize_failure, initialize_post, Initialize};
use crate::instructions::release::{release_failure, Release};
use crate::token_starter::burn::{burn_tokens_failure, BurnTokens};
use crate::instructions::Context;
use crate::state::{EscrowAccount, EscrowStatus, ESCROW_SEED};

verus! {

/// The record of the deal `deal_id` of `sender` is at the address that its
/// seeds (`"escrow"`, the sender, the deal number in little-endian bytes)
/// and its recorded bump derive under `program_id`.
pub open spec fn at_deal_address(program_id: Seq<u8>, escrow: EscrowAccount, sender: Seq<u8>, deal_id: u64) -> bool {
    program_address(
        seq![ESCROW_SEED@, sender, spec_u64_to_le_bytes(deal_id), seq![escrow.state.bump]],
        program_id,
    ) == Some(escrow.info.key@)
}

/// A deposit succeeds exactly when the sender signs; the record belongs to
/// the program, sits at the deal's address, is writable, names this sender
/// and mint and is still `Created`; the mint, the sender's token account and
/// the vault belong to Token-2022, which is the token program given; the
/// sender's token account is the sender's and the vault is the record's,
/// both of the mint, writable, distinct from each other and from the
/// record, and not frozen; the deal's amount is positive, the sender holds
/// it, and the vault can take it.
pub proof fn lemma_deposit_succeeds_exactly_when(ctx: Context<Deposit>, deal_id: u64)
    ensures
        ({
            let a = ctx.accounts;
            let amount = a.escrow.state.amount;
            (deposit_failure(ctx, deal_id) is None) <==> {
                &&& a.sender.is_signer
                &&& a.escrow.info.owner@ == ESCROW_PROGRAM_BYTES@
                &&& at_deal_address(ctx.program_id@, a.escrow, a.sender.key@, deal_id)
                &&& a.escrow.info.is_writable
                &&& a.escrow.state.sender@ == a.sender.key@
                &&& a.escrow.state.mint@ == a.mint.info.key@
                &&& a.escrow.state.status == EscrowStatus::Created
                &&& a.token_program.key@ == TOKEN_2022_PROGRAM_BYTES@
                &&& a.token_program.executable
                &&& a.mint.info.owner@ == TOKEN_2022_PROGRAM_BYTES@
                &&& a.sender_token.info.owner@ == TOKEN_2022_PROGRAM_BYTES@
                &&& a.vault.info.owner@ == TOKEN_2022_PROGRAM_BYTES@
                &&& a.sender_token.info.is_writable
                &&& a.vault.info.is_writable
                &&& a.sender_token.owner@ == a.sender.key@
                &&& a.sender_token.mint@ == a.mint.info.key@
                &&& a.vault.owner@ == a.escrow.info.key@
                &&& a.vault.mint@ == a.mint.info.key@
                &&& a.escrow.info.key@ != a.sender_token.info.key@
                &&& a.escrow.info.key@ != a.vault.info.key@
                &&& a.sender_token.info.key@ != a.vault.info.key@
                &&& !a.sender_token.is_frozen
                &&& !a.vault.is_frozen
                &&& amount > 0
                &&& a.sender_token.amount >= amount
                &&& a.vault.amount + amount <= u64::MAX
            }
        }),
{
    lemma_program_ids_differ();
    let a = ctx.accounts;
    assert(crate::address::with_bump(crate::state::escrow_seeds(a.sender.key@, deal_id), a.escrow.state.bump)
        =~= seq![ESCROW_SEED@, a.sender.key@, spec_u64_to_le_bytes(deal_id), seq![a.escrow.state.bump]]);
    let keys = crate::instructions::deposit::mutable_keys(a);
    if a.escrow.info.key@ == a.sender_token.info.key@ {
        assert(keys[0] == keys[1]);
    }
    if a.escrow.info.key@ == a.vault.info.key@ {
        assert(keys[0] == keys[2]);
    }
    if a.sender_token.info.key@ == a.vault.info.key@ {
        assert(keys[1] == keys[2]);
    }
}

/// One of the two token programs that the token interface accepts: SPL
/// Token or Token-2022.
pub open spec fn either_token_program(a: Seq<u8>) -> bool {
    a == TOKEN_PROGRAM_BYTES@ || a == TOKEN_2022_PROGRAM_BYTES@
}

/// A burn succeeds exactly when the token program given is either token
/// program, executable, and owns both the token account and the mint; the
/// authority signs, is writable and owns the token account; the token
/// account is of the mint, distinct from it, and both are writable; the
/// token account is not frozen; and `0 < amount <= balance <= supply`
/// holds for the amount (the balance covering it, the supply too).
pub proof fn lemma_burn_succeeds_exactly_when(ctx: Context<BurnTokens>, amount: u64)
    ensures
        ({
            let a = ctx.accounts;
            (burn_tokens_failure(ctx, amount) is None) <==> {
                &&& either_token_program(a.token_program.key@)
                &&& a.token_program.executable
                &&& a.token_account.info.owner@ == a.token_program.key@
                &&& a.mint.info.owner@ == a.token_program.key@
                &&& a.authority.is_signer
                &&& a.authority.is_writable
                &&& a.token_account.owner@ == a.authority.key@
                &&& a.token_account.mint@ == a.mint.info.key@
                &&& a.token_account.info.key@ != a.mint.info.key@
                &&& a.token_account.info.is_writable
                &&& a.mint.info.is_writable
                &&& !a.token_account.is_frozen
                &&& amount > 0
                &&& a.token_account.amount >= amount
                &&& a.mint.supply >= amount
            }
        }),
{
    lemma_program_ids_differ();
    let a = ctx.accounts;
    let keys = crate::token_starter::burn::mutable_keys(a);
    if a.token_account.info.key@ == a.mint.info.key@ {
        assert(keys[0] == keys[1]);
    }
}

/// A release succeeds exactly when the sender signs and is writable; the
/// record belongs to the program, sits at the deal's address, is writable,
/// is not the sender's own account, names this sender, receiver and mint
/// and is `Funded`; the mint, the vault and the receiver's token account
/// belong to Token-2022, which is the token program given; the vault is the
/// record's and the receiver's token account is the receiver's, both of the
/// mint, writable, distinct from each other and from the record, and not
/// frozen; the vault holds exactly the deal's amount, which the receiver's
/// account can take; the vault is not the sender's account; and the sender
/// can take back the rent of the vault and the record.
pub proof fn lemma_release_succeeds_exactly_when(ctx: Context<Release>, deal_id: u64)
    ensures
        ({
            let a = ctx.accounts;
            let amount = a.escrow.state.amount;
            (release_failure(ctx, deal_id) is None) <==> {
                &&& a.sender.is_signer
                &&& a.sender.is_writable
                &&& a.escrow.info.owner@ == ESCROW_PROGRAM_BYTES@
                &&& at_deal_address(ctx.program_id@, a.escrow, a.sender.key@, deal_id)
                &&& a.escrow.info.is_writable
                &&& a.escrow.info.key@ != a.sender.key@
                &&& a.escrow.state.sender@ == a.sender.key@
                &&& a.escrow.state.receiver@ == a.receiver.key@
                &&& a.escrow.state.mint@ == a.mint.info.key@
                &&& a.escrow.state.status == EscrowStatus::Funded
                &&& a.token_program.key@ == TOKEN_2022_PROGRAM_BYTES@
                &&& a.token_program.executable
                &&& a.mint.info.owner@ == TOKEN_2022_PROGRAM_BYTES@
                &&& a.vault.info.owner@ == TOKEN_2022_PROGRAM_BYTES@
                &&& a.receiver_token.info.owner@ == TOKEN_2022_PROGRAM_BYTES@
                &&& a.vault.info.is_writable
                &&& a.receiver_token.info.is_writable
                &&& a.vault.owner@ == a.escrow.info.key@
                &&& a.vault.mint@ == a.mint.info.key@
                &&& a.receiver_token.owner@ == a.receiver.key@
                &&& a.receiver_token.mint@ == a.mint.info.key@
                &&& a.escrow.info.key@ != a.vault.info.key@
                &&& a.escrow.info.key@ != a.receiver_token.info.key@
                &&& a.vault.info.key@ != a.receiver_token.info.key@
                &&& a.vault.info.key@ != a.sender.key@
                &&& !a.vault.is_frozen
                &&& !a.receiver_token.is_frozen
                &&& a.vault.amount == amount
                &&& a.receiver_token.amount + amount <= u64::MAX
                &&& a.sender.lamports + a.vault.info.lamports + a.escrow.info.lamports <= u64::MAX
            }
        }),
{
    lemma_program_ids_differ();
    let a = ctx.accounts;
    assert(crate::address::with_bump(crate::state::escrow_seeds(a.sender.key@, deal_id), a.escrow.state.bump)
        =~= seq![ESCROW_SEED@, a.sender.key@, spec_u64_to_le_bytes(deal_id), seq![a.escrow.state.bump]]);
    let keys = crate::instructions::release::mutable_keys(a);
    if a.escrow.info.key@ == a.vault.info.key@ {
        assert(keys[0] == keys[1]);
    }
    if a.escrow.info.key@ == a.receiver_token.info.key@ {
        assert(keys[0] == keys[2]);
    }
    if a.vault.info.key@ == a.receiver_token.info.key@ {
        assert(keys[1] == keys[2]);
    }
}

/// A cancellation succeeds exactly when the sender signs and is writable;
/// the record belongs to the program, sits at the deal's address, is
/// writable, is not the sender's own account, names this sender and mint
/// and is `Created` or `Funded`; the mint, the sender's token account and
/// the vault belong to Token-2022, which is the token program given; the
/// sender's token account is the sender's and the vault is the record's,
/// both of the mint, writable and distinct from each other and from the
/// record; where the deal is funded, neither is frozen, the vault holds the
/// amount and the sender's account can take it back; the vault is empty
/// once refunded; the vault is not the sender's account; and the sender can
/// take back the rent of the vault and the record.
pub proof fn lemma_cancel_succeeds_exactly_when(ctx: Context<Cancel>, deal_id: u64)
    ensures
        ({
            let a = ctx.accounts;
            let funded = a.escrow.state.status == EscrowStatus::Funded;
            let back: int = if funded { a.escrow.state.amount as int } else { 0 };
            (cancel_failure(ctx, deal_id) is None) <==> {
                &&& a.sender.is_signer
                &&& a.sender.is_writable
                &&& a.escrow.info.owner@ == ESCROW_PROGRAM_BYTES@
                &&& at_deal_address(ctx.program_id@, a.escrow, a.sender.key@, deal_id)
                &&& a.escrow.info.is_writable
                &&& a.escrow.info.key@ != a.sender.key@
                &&& a.escrow.state.sender@ == a.sender.key@
                &&& a.escrow.state.mint@ == a.mint.info.key@
                &&& (a.escrow.state.status == EscrowStatus::Created || funded)
                &&& a.token_program.key@ == TOKEN_2022_PROGRAM_BYTES@
                &&& a.token_program.executable
                &&& a.mint.info.owner@ == TOKEN_2022_PROGRAM_BYTES@
                &&& a.sender_token.info.owner@ == TOKEN_2022_PROGRAM_BYTES@
                &&& a.vault.info.owner@ == TOKEN_2022_PROGRAM_BYTES@
                &&& a.sender_token.info.is_writable
                &&& a.vault.info.is_writable
                &&& a.sender_token.owner@ == a.sender.key@
                &&& a.sender_token.mint@ == a.mint.info.key@
                &&& a.vault.owner@ == a.escrow.info.key@
                &&& a.vault.mint@ == a.mint.info.key@
                &&& a.escrow.info.key@ != a.sender_token.info.key@
                &&& a.escrow.info.key@ != a.vault.info.key@
                &&& a.sender_token.info.key@ != a.vault.info.key@
                &&& a.vault.info.key@ != a.sender.key@
                &&& (funded ==> !a.vault.is_frozen && !a.sender_token.is_frozen
                    && a.sender_token.amount + a.escrow.state.amount <= u64::MAX)
                &&& a.vault.amount == back
                &&& a.sender.lamports + a.vault.info.lamports + a.escrow.info.lamports <= u64::MAX
            }
        }),
{
    lemma_program_ids_differ();
    let a = ctx.accounts;
    assert(crate::address::with_bump(crate::state::escrow_seeds(a.sender.key@, deal_id), a.escrow.state.bump)
        =~= seq![ESCROW_SEED@, a.sender.key@, spec_u64_to_le_bytes(deal_id), seq![a.escrow.state.bump]]);
    let keys = crate::instructions::cancel::mutable_keys(a);
    if a.escrow.info.key@ == a.sender_token.info.key@ {
        assert(keys[0] == keys[1]);
    }
    if a.escrow.info.key@ == a.vault.info.key@ {
        assert(keys[0] == keys[2]);
    }
    if a.sender_token.info.key@ == a.vault.info.key@ {
        assert(keys[1] == keys[2]);
    }
}

/// What an account holding `current` lamports lacks to hold `rent`: all of
/// it when empty; otherwise the difference up to the rent (at least one
/// lamport), or nothing.
pub open spec fn missing_rent(current: u64, rent: u64) -> int {
    if current == 0 {
        rent as int
    } else if (if rent == 0 { 1 } else { rent as int }) > current {
        (if rent == 0 { 1 } else { rent as int }) - current
    } else {
        0
    }
}

/// An initialization succeeds exactly when the sender signs and is
/// writable; the mint belongs to Token-2022, which is the token program
/// given, executable; the associated token account program and the system
/// program are the ones given, executable; the record is the canonical
/// address of the deal's seeds (`"escrow"`, the sender, the deal number in
/// little-endian bytes) under the program, writable, owned by the system
/// program, and not the sender's account unless it holds no lamports; the
/// vault is the canonical address of `[record, Token-2022, mint]` under the
/// associated token account program, writable and owned by the system
/// program; the sender can pay what both lack of their rent; the amount is
/// positive; and the receiver is another account. Nothing else about the
/// receiver (whether it is writable, signs, or what it holds) matters.
pub proof fn lemma_initialize_succeeds_exactly_when(ctx: Context<Initialize>, deal_id: u64, amount: u64)
    ensures
        ({
            let a = ctx.accounts;
            let seeds = seq![ESCROW_SEED@, a.sender.key@, spec_u64_to_le_bytes(deal_id)];
            let vault_seeds = seq![a.escrow.info.key@, TOKEN_2022_PROGRAM_BYTES@, a.mint.info.key@];
            (initialize_failure(ctx, deal_id, amount) is None) <==> {
                &&& a.sender.is_signer
                &&& a.sender.is_writable
                &&& a.mint.info.owner@ == TOKEN_2022_PROGRAM_BYTES@
                &&& a.token_program.key@ == TOKEN_2022_PROGRAM_BYTES@
                &&& a.token_program.executable
                &&& a.associated_token_program.key@ == ASSOCIATED_TOKEN_PROGRAM_BYTES@
                &&& a.associated_token_program.executable
                &&& a.system_program.key@ == SYSTEM_PROGRAM_BYTES@
                &&& a.system_program.executable
                &&& (exists|b: u8| is_canonical_bump(seeds, ctx.program_id@, a.escrow.info.key@, b))
                &&& a.escrow.info.is_writable
                &&& a.escrow.info.owner@ == SYSTEM_PROGRAM_BYTES@
                &&& (a.escrow.info.lamports == 0 || a.escrow.info.key@ != a.sender.key@)
                &&& (exists|b: u8| is_canonical_bump(vault_seeds, ASSOCIATED_TOKEN_PROGRAM_BYTES@, a.vault.info.key@, b))
                &&& a.vault.info.is_writable
                &&& a.vault.info.owner@ == SYSTEM_PROGRAM_BYTES@
                &&& a.sender.lamports >= missing_rent(a.escrow.info.lamports, ctx.rent.escrow_account)
                    + missing_rent(a.vault.info.lamports, ctx.rent.token_account)
                &&& amount > 0
                &&& a.sender.key@ != a.receiver.key@
            }
        }),
{
    lemma_program_ids_differ();
    let a = ctx.accounts;
    let seeds = seq![ESCROW_SEED@, a.sender.key@, spec_u64_to_le_bytes(deal_id)];
    let vault_seeds = seq![a.escrow.info.key@, TOKEN_2022_PROGRAM_BYTES@, a.mint.info.key@];
    assert(crate::state::escrow_seeds(a.sender.key@, deal_id) == seeds);
    if exists|b: u8| is_canonical_bump(seeds, ctx.program_id@, a.escrow.info.key@, b) {
        let b = choose|b: u8| is_canonical_bump(seeds, ctx.program_id@, a.escrow.info.key@, b);
        lemma_canonical_unique(seeds, ctx.program_id@, a.escrow.info.key@, b);
    }
    if exists|b: u8| is_canonical_bump(vault_seeds, ASSOCIATED_TOKEN_PROGRAM_BYTES@, a.vault.info.key@, b) {
        let b = choose|b: u8| is_canonical_bump(vault_seeds, ASSOCIATED_TOKEN_PROGRAM_BYTES@, a.vault.info.key@, b);
        lemma_canonical_unique(vault_seeds, ASSOCIATED_TOKEN_PROGRAM_BYTES@, a.vault.info.key@, b);
    }
    match crate::address::canonical_address(seeds, ctx.program_id@) {
        Some((pda, b)) => {
            assert(is_canonical_bump(seeds, ctx.program_id@, pda, b));
        },
        None => {},
    }
    match crate::address::canonical_address(vault_seeds, ASSOCIATED_TOKEN_PROGRAM_BYTES@) {
        Some((pda, b)) => {
            assert(is_canonical_bump(vault_seeds, ASSOCIATED_TOKEN_PROGRAM_BYTES@, pda, b));
        },
        None => {},
    }
}

/// Reading an instruction undoes writing it: the data that a client writes
/// for an instruction (its tag, then each argument as the eight
/// little-endian bytes of a `u64`, then anything at all) reads back, for
/// the escrow program, as that instruction with the same arguments.
pub proof fn lemma_decode_reads_what_was_written(deal_id: u64, amount: u64, rest: Seq<u8>)
    ensures
        decode(ESCROW_PROGRAM_BYTES@,
            INITIALIZE_TAG@ + spec_u64_to_le_bytes(deal_id) + spec_u64_to_le_bytes(amount) + rest)
            == Ok::<EscrowInstruction, Failure>(EscrowInstruction::Initialize { deal_id, amount }),
        decode(ESCROW_PROGRAM_BYTES@, DEPOSIT_TAG@ + spec_u64_to_le_bytes(deal_id) + rest)
            == Ok::<EscrowInstruction, Failure>(EscrowInstruction::Deposit { deal_id }),
        decode(ESCROW_PROGRAM_BYTES@, RELEASE_TAG@ + spec_u64_to_le_bytes(deal_id) + rest)
            == Ok::<EscrowInstruction, Failure>(EscrowInstruction::Release { deal_id }),
        decode(ESCROW_PROGRAM_BYTES@, CANCEL_TAG@ + spec_u64_to_le_bytes(deal_id) + rest)
            == Ok::<EscrowInstruction, Failure>(EscrowInstruction::Cancel { deal_id }),
{
    lemma_auto_spec_u64_to_from_le_bytes();
    let d = spec_u64_to_le_bytes(deal_id);
    let x = spec_u64_to_le_bytes(amount);
    let init = INITIALIZE_TAG@ + d + x + rest;
    assert(init.subrange(0, 8) =~= INITIALIZE_TAG@);
    assert(init.subrange(8, 16) =~= d);
    assert(init.subrange(16, 24) =~= x);
    assert(DEPOSIT_TAG@[0] != INITIALIZE_TAG@[0]);
    assert(RELEASE_TAG@[0] != INITIALIZE_TAG@[0] && RELEASE_TAG@[0] != DEPOSIT_TAG@[0]);
    assert(CANCEL_TAG@[0] != INITIALIZE_TAG@[0] && CANCEL_TAG@[0] != DEPOSIT_TAG@[0]
        && CANCEL_TAG@[0] != RELEASE_TAG@[0]);
    let dep = DEPOSIT_TAG@ + d + rest;
    assert(dep.subrange(0, 8) =~= DEPOSIT_TAG@);
    assert(dep.subrange(8, 16) =~= d);
    assert(dep.subrange(0, 8)[0] != INITIALIZE_TAG@[0]);
    let rel = RELEASE_TAG@ + d + rest;
    assert(rel.subrange(0, 8) =~= RELEASE_TAG@);
    assert(rel.subrange(8, 16) =~= d);
    assert(rel.subrange(0, 8)[0] != INITIALIZE_TAG@[0]);
    assert(rel.subrange(0, 8)[0] != DEPOSIT_TAG@[0]);
    let can = CANCEL_TAG@ + d + rest;
    assert(can.subrange(0, 8) =~= CANCEL_TAG@);
    assert(can.subrange(8, 16) =~= d);
    assert(can.subrange(0, 8)[0] != INITIALIZE_TAG@[0]);
    assert(can.subrange(0, 8)[0] != DEPOSIT_TAG@[0]);
    assert(can.subrange(0, 8)[0] != RELEASE_TAG@[0]);
}

/// `signer` signs for `account`: its seeds (`"escrow"`, the sender, the
/// deal number in little-endian bytes, the bump) derive that address under
/// `program_id`.
pub open spec fn signs_for(signer: EscrowSigner, program_id: Seq<u8>, account: Seq<u8>) -> bool {
    program_address(
        seq![ESCROW_SEED@, signer.sender@, spec_u64_to_le_bytes(signer.deal_id), seq![signer.bump]],
        program_id,
    ) == Some(account)
}

/// A successful deposit asks for exactly one checked transfer on
/// Token-2022: of the deal's amount, at the mint's decimals, of the mint,
/// from the sender's token account to the vault, authorized by the owner
/// of the source account without any program signature.
pub proof fn lemma_deposit_asks_for_the_deal_transfer(ctx: Context<Deposit>, deal_id: u64)
    requires
        deposit_failure(ctx, deal_id) is None,
    ensures
        ({
            let a = ctx.accounts;
            let c = deposit_calls(ctx);
            &&& c.len() == 1
            &&& c[0] is TransferChecked
            &&& c[0]->TransferChecked_token_program@ == TOKEN_2022_PROGRAM_BYTES@
            &&& c[0]->TransferChecked_from == a.sender_token.info.key
            &&& c[0]->TransferChecked_to == a.vault.info.key
            &&& c[0]->TransferChecked_mint == a.mint.info.key
            &&& a.sender_token.mint@ == a.mint.info.key@
            &&& c[0]->TransferChecked_authority@ == a.sender_token.owner@
            &&& c[0]->TransferChecked_amount == a.escrow.state.amount
            &&& c[0]->TransferChecked_decimals == a.mint.decimals
            &&& c[0]->TransferChecked_pda_signer is None
        }),
{
    lemma_deposit_succeeds_exactly_when(ctx, deal_id);
}

/// A successful release asks, in order, for a checked transfer on
/// Token-2022 of everything the vault holds (the deal's amount), at the
/// mint's decimals, from the vault to the receiver's token account,
/// authorized by the vault's owner and signed for it by the deal's seeds;
/// then for closing the vault into the deal's sender with the same
/// authority and signature; then for closing the record into the sender.
pub proof fn lemma_release_asks_for_payment_then_closing(ctx: Context<Release>, deal_id: u64)
    requires
        release_failure(ctx, deal_id) is None,
    ensures
        ({
            let a = ctx.accounts;
            let c = release_calls(ctx, deal_id);
            &&& c.len() == 3
            &&& c[0] is TransferChecked
            &&& c[0]->TransferChecked_token_program@ == TOKEN_2022_PROGRAM_BYTES@
            &&& c[0]->TransferChecked_from == a.vault.info.key
            &&& c[0]->TransferChecked_to == a.receiver_token.info.key
            &&& a.receiver_token.owner@ == a.escrow.state.receiver@
            &&& c[0]->TransferChecked_mint == a.mint.info.key
            &&& c[0]->TransferChecked_authority@ == a.vault.owner@
            &&& c[0]->TransferChecked_amount == a.vault.amount
            &&& c[0]->TransferChecked_amount == a.escrow.state.amount
            &&& c[0]->TransferChecked_decimals == a.mint.decimals
            &&& c[0]->TransferChecked_pda_signer is Some
            &&& signs_for(c[0]->TransferChecked_pda_signer->0, ctx.program_id@, a.vault.owner@)
            &&& c[1] is CloseAccount
            &&& c[1]->CloseAccount_token_program@ == TOKEN_2022_PROGRAM_BYTES@
            &&& c[1]->CloseAccount_account == a.vault.info.key
            &&& c[1]->CloseAccount_destination@ == a.escrow.state.sender@
            &&& c[1]->CloseAccount_authority@ == a.vault.owner@
            &&& c[1]->CloseAccount_pda_signer is Some
            &&& signs_for(c[1]->CloseAccount_pda_signer->0, ctx.program_id@, a.vault.owner@)
            &&& c[2] == Call::CloseProgramAccount { account: a.escrow.info.key, destination: a.sender.key }
        }),
{
    lemma_release_succeeds_exactly_when(ctx, deal_id);
}

/// A successful cancellation asks, where the deal was funded, first for a
/// checked transfer on Token-2022 of everything the vault holds (the
/// deal's amount), at the mint's decimals, from the vault back to the
/// sender's token account, authorized by the vault's owner and signed for
/// it by the deal's seeds; then (in every case) for closing the vault into
/// the deal's sender with the same authority and signature, and for
/// closing the record into the sender.
pub proof fn lemma_cancel_asks_for_refund_then_closing(ctx: Context<Cancel>, deal_id: u64)
    requires
        cancel_failure(ctx, deal_id) is None,
    ensures
        ({
            let a = ctx.accounts;
            let c = cancel_calls(ctx, deal_id);
            let funded = a.escrow.state.status == EscrowStatus::Funded;
            let k: int = if funded { 1 } else { 0 };
            &&& c.len() == 2 + k
            &&& funded ==> {
                &&& c[0] is TransferChecked
                &&& c[0]->TransferChecked_token_program@ == TOKEN_2022_PROGRAM_BYTES@
                &&& c[0]->TransferChecked_from == a.vault.info.key
                &&& c[0]->TransferChecked_to == a.sender_token.info.key
                &&& a.sender_token.owner@ == a.escrow.state.sender@
                &&& c[0]->TransferChecked_mint == a.mint.info.key
                &&& c[0]->TransferChecked_authority@ == a.vault.owner@
                &&& c[0]->TransferChecked_amount == a.vault.amount
                &&& c[0]->TransferChecked_amount == a.escrow.state.amount
                &&& c[0]->TransferChecked_decimals == a.mint.decimals
                &&& c[0]->TransferChecked_pda_signer is Some
                &&& signs_for(c[0]->TransferChecked_pda_signer->0, ctx.program_id@, a.vault.owner@)
            }
            &&& c[k] is CloseAccount
            &&& c[k]->CloseAccount_token_program@ == TOKEN_2022_PROGRAM_BYTES@
            &&& c[k]->CloseAccount_account == a.vault.info.key
            &&& c[k]->CloseAccount_destination@ == a.escrow.state.sender@
            &&& c[k]->CloseAccount_authority@ == a.vault.owner@
            &&& c[k]->CloseAccount_pda_signer is Some
            &&& signs_for(c[k]->CloseAccount_pda_signer->0, ctx.program_id@, a.vault.owner@)
            &&& c[k + 1] == Call::CloseProgramAccount { account: a.escrow.info.key, destination: a.sender.key }
        }),
{
    lemma_cancel_succeeds_exactly_when(ctx, deal_id);
}

/// A successful burn asks for exactly one checked burn of `amount`, at the
/// mint's decimals, of the mint, from the token account, authorized by its
/// owner, on the token program that owns the token account.
pub proof fn lemma_burn_asks_for_the_checked_burn(ctx: Context<BurnTokens>, amount: u64)
    requires
        burn_tokens_failure(ctx, amount) is None,
    ensures
        ({
            let a = ctx.accounts;
            let c = burn_tokens_calls(ctx, amount);
            &&& c.len() == 1
            &&& c[0] is BurnChecked
            &&& c[0]->BurnChecked_token_program@ == a.token_account.info.owner@
            &&& c[0]->BurnChecked_from == a.token_account.info.key
            &&& c[0]->BurnChecked_mint == a.mint.info.key
            &&& a.token_account.mint@ == a.mint.info.key@
            &&& c[0]->BurnChecked_authority@ == a.token_account.owner@
            &&& c[0]->BurnChecked_amount == amount
            &&& c[0]->BurnChecked_decimals == a.mint.decimals
        }),
{
    lemma_burn_succeeds_exactly_when(ctx, amount);
}

/// A successful initialization asks the system program to create the
/// record at its address, signed for by the deal's seeds and its bump,
/// owned by the program, of the record's 122 bytes, paid by the sender (the
/// whole rent for an empty account; otherwise what it lacks, before taking
/// it over); and then the associated token account program to create the
/// vault, the record's Token-2022 account for the mint, paid by the sender.
pub proof fn lemma_initialize_asks_for_record_then_vault(ctx: Context<Initialize>, deal_id: u64, amount: u64)
    requires
        initialize_failure(ctx, deal_id, amount) is None,
    ensures
        ({
            let a = ctx.accounts;
            let c = initialize_calls(ctx, deal_id);
            let need = missing_rent(a.escrow.info.lamports, ctx.rent.escrow_account);
            &&& c.len() >= 2
            &&& c.last() is CreateAssociatedTokenAccount
            &&& c.last()->CreateAssociatedTokenAccount_program@ == ASSOCIATED_TOKEN_PROGRAM_BYTES@
            &&& c.last()->CreateAssociatedTokenAccount_payer == a.sender.key
            &&& c.last()->CreateAssociatedTokenAccount_associated_token == a.vault.info.key
            &&& c.last()->CreateAssociatedTokenAccount_wallet == a.escrow.info.key
            &&& c.last()->CreateAssociatedTokenAccount_mint == a.mint.info.key
            &&& c.last()->CreateAssociatedTokenAccount_system_program@ == SYSTEM_PROGRAM_BYTES@
            &&& c.last()->CreateAssociatedTokenAccount_token_program@ == TOKEN_2022_PROGRAM_BYTES@
            &&& a.escrow.info.lamports == 0 ==> {
                &&& c.len() == 2
                &&& c[0] is CreateAccount
                &&& c[0]->CreateAccount_from == a.sender.key
                &&& c[0]->CreateAccount_to == a.escrow.info.key
                &&& c[0]->CreateAccount_lamports == ctx.rent.escrow_account
                &&& c[0]->CreateAccount_space == 122
                &&& c[0]->CreateAccount_owner == ctx.program_id
                &&& c[0]->CreateAccount_signer.sender == a.sender.key
                &&& c[0]->CreateAccount_signer.deal_id == deal_id
                &&& signs_for(c[0]->CreateAccount_signer, ctx.program_id@, a.escrow.info.key@)
            }
            &&& a.escrow.info.lamports != 0 ==> {
                let t: int = if need > 0 { 1 } else { 0 };
                &&& c.len() == 3 + t
                &&& need > 0 ==> c[0] == Call::Transfer { from: a.sender.key, to: a.escrow.info.key, lamports: need as u64 }
                &&& c[t] is Allocate
                &&& c[t]->Allocate_account == a.escrow.info.key
                &&& c[t]->Allocate_space == 122
                &&& c[t]->Allocate_signer.sender == a.sender.key
                &&& c[t]->Allocate_signer.deal_id == deal_id
                &&& signs_for(c[t]->Allocate_signer, ctx.program_id@, a.escrow.info.key@)
                &&& c[t + 1] is Assign
                &&& c[t + 1]->Assign_account == a.escrow.info.key
                &&& c[t + 1]->Assign_owner == ctx.program_id
                &&& signs_for(c[t + 1]->Assign_signer, ctx.program_id@, a.escrow.info.key@)
            }
        }),
{
    lemma_initialize_succeeds_exactly_when(ctx, deal_id, amount);
    let a = ctx.accounts;
    let seeds = seq![ESCROW_SEED@, a.sender.key@, spec_u64_to_le_bytes(deal_id)];
    let b = crate::instructions::initialize::escrow_bump(ctx, deal_id);
    assert(crate::state::escrow_seeds(a.sender.key@, deal_id) == seeds);
    assert(is_canonical_bump(seeds, ctx.program_id@, a.escrow.info.key@, b));
    assert(crate::address::with_bump(seeds, b) =~= seq![ESCROW_SEED@, a.sender.key@, spec_u64_to_le_bytes(deal_id), seq![b]]);
}

/// On a deposit that would go through, the sender's balance alone decides:
/// with any balance below the deal's amount it fails with
/// `InsufficientFunds`, with any balance that covers it (and that the
/// vault can take) it goes through; a frozen source or vault fails with
/// `AccountFrozen`.
pub proof fn lemma_deposit_balance_and_freezing_decide(ctx: Context<Deposit>, deal_id: u64, balance: u64)
    requires
        deposit_failure(ctx, deal_id) is None,
    ensures
        ({
            let a = ctx.accounts;
            let with_balance = Context {
                accounts: Deposit { sender_token: crate::account::TokenAccount { amount: balance, ..a.sender_token }, ..a },
                ..ctx
            };
            let frozen_source = Context {
                accounts: Deposit { sender_token: crate::account::TokenAccount { is_frozen: true, ..a.sender_token }, ..a },
                ..ctx
            };
            let frozen_vault = Context {
                accounts: Deposit { vault: crate::account::TokenAccount { is_frozen: true, ..a.vault }, ..a },
                ..ctx
            };
            &&& balance < a.escrow.state.amount ==> deposit_failure(with_balance, deal_id)
                == Some(Failure::TokenProgram(TokenProgramError::InsufficientFunds))
            &&& balance >= a.escrow.state.amount ==> deposit_failure(with_balance, deal_id) is None
            &&& deposit_failure(frozen_source, deal_id) == Some(Failure::TokenProgram(TokenProgramError::AccountFrozen))
            &&& deposit_failure(frozen_vault, deal_id) == Some(Failure::TokenProgram(TokenProgramError::AccountFrozen))
        }),
{
}

/// On a release that would go through, naming another receiver fails with
/// `InvalidReceiver`, and an unsigned sender with `AccountNotSigner`.
pub proof fn lemma_release_refuses_other_receiver_or_unsigned_sender(
    ctx: Context<Release>,
    deal_id: u64,
    other: crate::account::AccountInfo,
)
    requires
        release_failure(ctx, deal_id) is None,
        other.key@ != ctx.accounts.receiver.key@,
    ensures
        ({
            let a = ctx.accounts;
            let swapped = Context { accounts: Release { receiver: other, ..a }, ..ctx };
            let unsigned = Context {
                accounts: Release { sender: crate::account::AccountInfo { is_signer: false, ..a.sender }, ..a },
                ..ctx
            };
            &&& release_failure(swapped, deal_id) == Some(Failure::Escrow(EscrowError::InvalidReceiver))
            &&& release_failure(unsigned, deal_id) == Some(Failure::Framework(FrameworkError::AccountNotSigner))
        }),
{
}

/// On a cancellation that would go through, a record that says the deal is
/// released or already cancelled fails with `AlreadyProcessed`.
pub proof fn lemma_cancel_refuses_a_finished_deal(ctx: Context<Cancel>, deal_id: u64, status: EscrowStatus)
    requires
        cancel_failure(ctx, deal_id) is None,
        status == EscrowStatus::Released || status == EscrowStatus::Cancelled,
    ensures
        ({
            let a = ctx.accounts;
            let finished = Context {
                accounts: Cancel {
                    escrow: EscrowAccount {
                        state: crate::state::EscrowState { status: status, ..a.escrow.state },
                        ..a.escrow
                    },
                    ..a
                },
                ..ctx
            };
            cancel_failure(finished, deal_id) == Some(Failure::Escrow(EscrowError::AlreadyProcessed))
        }),
{
}

/// On an initialization that would go through, a zero amount fails with
/// `InvalidAmount`, and the sender named as its own receiver with
/// `SenderEqualsReceiver`.
pub proof fn lemma_initialize_refuses_zero_amount_and_self_deal(ctx: Context<Initialize>, deal_id: u64, amount: u64)
    requires
        initialize_failure(ctx, deal_id, amount) is None,
    ensures
        ({
            let a = ctx.accounts;
            let self_deal = Context { accounts: Initialize { receiver: a.sender, ..a }, ..ctx };
            &&& initialize_failure(ctx, deal_id, 0) == Some(Failure::Escrow(EscrowError::InvalidAmount))
            &&& initialize_failure(self_deal, deal_id, amount)
                == Some(Failure::Escrow(EscrowError::SenderEqualsReceiver))
        }),
{
}

/// On a burn that would go through, a zero amount fails with
/// `InvalidAmount`, more than the balance with `InsufficientFunds`, and a
/// signer who does not own the account with `InvalidAuthority`.
pub proof fn lemma_burn_refusals(
    ctx: Context<BurnTokens>,
    amount: u64,
    more: u64,
    stranger: crate::account::AccountInfo,
)
    requires
        burn_tokens_failure(ctx, amount) is None,
        more > ctx.accounts.token_account.amount,
        stranger.key@ != ctx.accounts.token_account.owner@,
        stranger.is_signer,
        stranger.is_writable,
    ensures
        ({
            let a = ctx.accounts;
            let other_signer = Context { accounts: BurnTokens { authority: stranger, ..a }, ..ctx };
            &&& burn_tokens_failure(ctx, 0) == Some(Failure::TokenStarter(TokenStarterError::InvalidAmount))
            &&& burn_tokens_failure(ctx, more) == Some(Failure::TokenProgram(TokenProgramError::InsufficientFunds))
            &&& burn_tokens_failure(other_signer, amount)
                == Some(Failure::TokenStarter(TokenStarterError::InvalidAuthority))
        }),
{
}

/// The program runs only under its own address, and an instruction whose
/// tag is followed by too few bytes for its arguments cannot be read.
pub proof fn lemma_decode_refusals(program_id: Seq<u8>, data: Seq<u8>, short: Seq<u8>)
    requires
        short.len() < 8,
    ensures
        program_id != ESCROW_PROGRAM_BYTES@ ==> decode(program_id, data)
            == Err::<EscrowInstruction, Failure>(Failure::Framework(FrameworkError::DeclaredProgramIdMismatch)),
        decode(ESCROW_PROGRAM_BYTES@, DEPOSIT_TAG@ + short)
            == Err::<EscrowInstruction, Failure>(Failure::Framework(FrameworkError::InstructionDidNotDeserialize)),
        decode(ESCROW_PROGRAM_BYTES@, CANCEL_TAG@ + short)
            == Err::<EscrowInstruction, Failure>(Failure::Framework(FrameworkError::InstructionDidNotDeserialize)),
        decode(ESCROW_PROGRAM_BYTES@, RELEASE_TAG@ + short)
            == Err::<EscrowInstruction, Failure>(Failure::Framework(FrameworkError::InstructionDidNotDeserialize)),
{
    let dep = DEPOSIT_TAG@ + short;
    assert(dep.subrange(0, 8) =~= DEPOSIT_TAG@);
    assert(dep.subrange(0, 8)[0] != INITIALIZE_TAG@[0]);
    let rel = RELEASE_TAG@ + short;
    assert(rel.subrange(0, 8) =~= RELEASE_TAG@);
    assert(rel.subrange(0, 8)[0] != INITIALIZE_TAG@[0]);
    assert(rel.subrange(0, 8)[0] != DEPOSIT_TAG@[0]);
    let can = CANCEL_TAG@ + short;
    assert(can.subrange(0, 8) =~= CANCEL_TAG@);
    assert(can.subrange(0, 8)[0] != INITIALIZE_TAG@[0]);
    assert(can.subrange(0, 8)[0] != DEPOSIT_TAG@[0]);
    assert(can.subrange(0, 8)[0] != RELEASE_TAG@[0]);
}

/// After a successful initialization the record belongs to the program and
/// the vault to Token-2022; each holds what it held plus exactly what it
/// lacked of its rent, which the sender paid; and the record keeps the
/// bump under which the deal's seeds derive its address.
pub proof fn lemma_initialize_funds_the_new_accounts(ctx: Context<Initialize>, deal_id: u64, amount: u64)
    requires
        initialize_failure(ctx, deal_id, amount) is None,
    ensures
        ({
            let a = ctx.accounts;
            let p = initialize_post(ctx, deal_id, amount).accounts;
            let fe = missing_rent(a.escrow.info.lamports, ctx.rent.escrow_account);
            let fv = missing_rent(a.vault.info.lamports, ctx.rent.token_account);
            &&& p.escrow.info.owner == ctx.program_id
            &&& p.vault.info.owner@ == TOKEN_2022_PROGRAM_BYTES@
            &&& p.escrow.info.lamports == a.escrow.info.lamports + fe
            &&& p.vault.info.lamports == a.vault.info.lamports + fv
            &&& p.sender.lamports == a.sender.lamports - fe - fv
            &&& !p.vault.is_frozen
            &&& p.escrow.info.key == a.escrow.info.key
            &&& p.vault.info.key == a.vault.info.key
            &&& at_deal_address(ctx.program_id@, p.escrow, a.sender.key@, deal_id)
        }),
{
    lemma_initialize_succeeds_exactly_when(ctx, deal_id, amount);
    let a = ctx.accounts;
    let seeds = seq![ESCROW_SEED@, a.sender.key@, spec_u64_to_le_bytes(deal_id)];
    let b = crate::instructions::initialize::escrow_bump(ctx, deal_id);
    assert(crate::state::escrow_seeds(a.sender.key@, deal_id) == seeds);
    assert(is_canonical_bump(seeds, ctx.program_id@, a.escrow.info.key@, b));
    assert(crate::address::with_bump(seeds, b) =~= seq![ESCROW_SEED@, a.sender.key@, spec_u64_to_le_bytes(deal_id), seq![b]]);
}

/// The program ids are distinct: none of the programs' own accounts is a
/// system account.
pub proof fn lemma_program_ids_differ()
    ensures
        ESCROW_PROGRAM_BYTES@ != SYSTEM_PROGRAM_BYTES@,
        TOKEN_2022_PROGRAM_BYTES@ != SYSTEM_PROGRAM_BYTES@,
        TOKEN_PROGRAM_BYTES@ != SYSTEM_PROGRAM_BYTES@,
        TOKEN_PROGRAM_BYTES@ != TOKEN_2022_PROGRAM_BYTES@,
{
    assert(ESCROW_PROGRAM_BYTES@[0] != SYSTEM_PROGRAM_BYTES@[0]);
    assert(TOKEN_2022_PROGRAM_BYTES@[0] != SYSTEM_PROGRAM_BYTES@[0]);
    assert(TOKEN_PROGRAM_BYTES@[0] != SYSTEM_PROGRAM_BYTES@[0]);
    assert(TOKEN_PROGRAM_BYTES@[4] != TOKEN_2022_PROGRAM_BYTES@[4]);
}

} // verus!
