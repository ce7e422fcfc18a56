//! Properties of the escrow program that span its instructions.

use vstd::prelude::*;
use vstd::bytes::{lemma_auto_spec_u64_to_from_le_bytes, spec_u64_from_le_bytes};

use crate::account::is_closed;
use crate::address::{
    is_canonical_bump, program_address, with_bump, SYSTEM_PROGRAM_BYTES, TOKEN_2022_PROGRAM_BYTES,
};
use crate::error::{EscrowError, Failure, FrameworkError};
use crate::instructions::cancel::{
    cancel_failure, cancel_post, mutable_keys as mutable_keys_cancel, refund, Cancel,
};
use crate::instructions::deposit::{
    deposit_failure, deposit_post, mutable_keys as mutable_keys_deposit, Deposit,
};
use crate::instructions::initialize::{initialize_failure, initialize_post, Initialize};
use crate::instructions::release::{release_failure, release_post, Release};
use crate::instructions::{escrow_seeds_failure, Context};
use crate::state::{
    cancel_result, escrow_seeds, EscrowAccount, EscrowState, fund_result, is_final, release_result, status_rank, EscrowStatus,
};
use crate::token_starter::burn::{burn_tokens_failure, burn_tokens_post, BurnTokens};

verus! {

/// A released or cancelled deal accepts no further transition.
pub proof fn lemma_final_status_is_terminal(s: EscrowStatus)
    requires
        is_final(s),
    ensures
        fund_result(s) is Err,
        release_result(s) is Err,
        cancel_result(s) is Err,
        fund_result(s) == Err::<EscrowStatus, EscrowError>(EscrowError::AlreadyProcessed),
        release_result(s) == Err::<EscrowStatus, EscrowError>(EscrowError::AlreadyProcessed),
        cancel_result(s) == Err::<EscrowStatus, EscrowError>(EscrowError::AlreadyProcessed),
{
}

/// Every successful transition moves a deal strictly forward along
/// `Created`, `Funded`, then `Released` or `Cancelled`.
pub proof fn lemma_transitions_move_forward(s: EscrowStatus)
    ensures
        fund_result(s) matches Ok(t) ==> status_rank(s) < status_rank(t),
        release_result(s) matches Ok(t) ==> status_rank(s) < status_rank(t),
        cancel_result(s) matches Ok(t) ==> status_rank(s) < status_rank(t) && is_final(t),
        release_result(s) matches Ok(t) ==> is_final(t),
{
}

/// The seeds of a deal's address tell the sender and the deal apart: two
/// deals share their seeds only where they share the sender and the number.
pub proof fn lemma_escrow_seeds_distinguish_deals(
    sender1: Seq<u8>,
    deal1: u64,
    sender2: Seq<u8>,
    deal2: u64,
)
    requires
        escrow_seeds(sender1, deal1) == escrow_seeds(sender2, deal2),
    ensures
        sender1 == sender2,
        deal1 == deal2,
{
    lemma_auto_spec_u64_to_from_le_bytes();
    assert(escrow_seeds(sender1, deal1)[1] == sender1);
    assert(escrow_seeds(sender2, deal2)[1] == sender2);
    assert(escrow_seeds(sender1, deal1)[2] == escrow_seeds(sender2, deal2)[2]);
    assert(spec_u64_from_le_bytes(escrow_seeds(sender1, deal1)[2]) == deal1);
}

/// A successful initialization records exactly the deal it was asked for,
/// in the `Created` status, with an empty vault that the escrow controls,
/// for a positive amount between two different parties, under Token-2022.
pub proof fn lemma_initialize_records_deal(ctx: Context<Initialize>, deal_id: u64, amount: u64)
    requires
        initialize_failure(ctx, deal_id, amount) is None,
    ensures
        ({
            let a = ctx.accounts;
            let p = initialize_post(ctx, deal_id, amount).accounts;
            &&& amount > 0
            &&& a.sender.key@ != a.receiver.key@
            &&& a.sender.is_signer
            &&& a.token_program.key@ == TOKEN_2022_PROGRAM_BYTES@
            &&& p.escrow.state.sender == a.sender.key
            &&& p.escrow.state.receiver == a.receiver.key
            &&& p.escrow.state.mint == a.mint.info.key
            &&& p.escrow.state.amount == amount
            &&& p.escrow.state.deal_id == deal_id
            &&& p.escrow.state.status == EscrowStatus::Created
            &&& p.vault.amount == 0
            &&& p.vault.owner == a.escrow.info.key
            &&& p.vault.mint == a.mint.info.key
        }),
{
}

/// The sender's lamports pay exactly for what the two new accounts gain.
pub proof fn lemma_initialize_conserves_lamports(ctx: Context<Initialize>, deal_id: u64, amount: u64)
    requires
        initialize_failure(ctx, deal_id, amount) is None,
    ensures
        ({
            let a = ctx.accounts;
            let p = initialize_post(ctx, deal_id, amount).accounts;
            p.sender.lamports + p.escrow.info.lamports + p.vault.info.lamports
                == a.sender.lamports + a.escrow.info.lamports + a.vault.info.lamports
        }),
{
}

/// A deal's record that is in use (not owned by the system program) cannot
/// be initialized again.
pub proof fn lemma_initialize_rejects_existing_escrow(ctx: Context<Initialize>, deal_id: u64, amount: u64)
    requires
        ctx.accounts.escrow.info.owner@ != SYSTEM_PROGRAM_BYTES@,
    ensures
        initialize_failure(ctx, deal_id, amount) is Some,
{
}

/// Initializing the same deal twice fails the second time, for a program
/// whose own address is not the system program's.
pub proof fn lemma_initialize_cannot_repeat(ctx: Context<Initialize>, deal_id: u64, amount: u64, amount2: u64)
    requires
        initialize_failure(ctx, deal_id, amount) is None,
        ctx.program_id@ != SYSTEM_PROGRAM_BYTES@,
    ensures
        initialize_failure(initialize_post(ctx, deal_id, amount), deal_id, amount2) is Some,
{
    lemma_initialize_rejects_existing_escrow(initialize_post(ctx, deal_id, amount), deal_id, amount2);
}

/// The bump that a successful initialization records reproduces the
/// record's address: the later instructions' seeds check passes on it.
pub proof fn lemma_initialized_bump_reproduces_address(ctx: Context<Initialize>, deal_id: u64, amount: u64)
    requires
        initialize_failure(ctx, deal_id, amount) is None,
    ensures
        ({
            let p = initialize_post(ctx, deal_id, amount);
            escrow_seeds_failure(p.program_id@, p.accounts.escrow, p.accounts.sender.key@, deal_id) is None
        }),
{
    let seeds = escrow_seeds(ctx.accounts.sender.key@, deal_id);
    let pid = ctx.program_id@;
    assert(exists|a: Seq<u8>, b: u8| is_canonical_bump(seeds, pid, a, b));
    let (a, b) = choose|a: Seq<u8>, b: u8| is_canonical_bump(seeds, pid, a, b);
    assert(is_canonical_bump(seeds, pid, a, b));
}

/// A successful deposit is made by the deal's sender, under Token-2022, and
/// moves exactly the deal's amount from the sender's token account into
/// the vault: the two balances keep their sum, the mint's supply does not
/// change, and the deal becomes funded.
pub proof fn lemma_deposit_moves_amount(ctx: Context<Deposit>, deal_id: u64)
    requires
        deposit_failure(ctx, deal_id) is None,
    ensures
        ({
            let a = ctx.accounts;
            let p = deposit_post(ctx).accounts;
            &&& a.sender.is_signer
            &&& a.escrow.state.sender@ == a.sender.key@
            &&& a.escrow.state.mint@ == a.mint.info.key@
            &&& a.escrow.state.amount > 0
            &&& a.sender_token.owner@ == a.sender.key@
            &&& a.vault.owner@ == a.escrow.info.key@
            &&& a.vault.mint@ == a.mint.info.key@
            &&& a.token_program.key@ == TOKEN_2022_PROGRAM_BYTES@
            &&& a.escrow.state.status == EscrowStatus::Created
            &&& p.escrow.state.status == EscrowStatus::Funded
            &&& p.vault.amount == a.vault.amount + a.escrow.state.amount
            &&& p.sender_token.amount == a.sender_token.amount - a.escrow.state.amount
            &&& p.vault.amount + p.sender_token.amount == a.vault.amount + a.sender_token.amount
            &&& p.mint == a.mint
        }),
{
}

/// A deal can be funded only once: a deposit on the accounts a successful
/// deposit left fails as already processed.
pub proof fn lemma_deposit_cannot_repeat(ctx: Context<Deposit>, deal_id: u64)
    requires
        deposit_failure(ctx, deal_id) is None,
    ensures
        deposit_failure(deposit_post(ctx), deal_id)
            == Some(Failure::Escrow(EscrowError::AlreadyProcessed)),
{
}

/// A successful release is signed by the deal's sender and pays the deal's
/// receiver: the receiver's token account (owned by the recorded receiver)
/// gains exactly the amount, the vault is emptied and closed, the record is
/// closed, and the sender gets back exactly the lamports of both.
pub proof fn lemma_release_pays_receiver(ctx: Context<Release>, deal_id: u64)
    requires
        release_failure(ctx, deal_id) is None,
    ensures
        ({
            let a = ctx.accounts;
            let p = release_post(ctx).accounts;
            &&& a.sender.is_signer
            &&& a.escrow.state.sender@ == a.sender.key@
            &&& a.escrow.state.receiver@ == a.receiver.key@
            &&& a.escrow.state.mint@ == a.mint.info.key@
            &&& a.receiver_token.owner@ == a.receiver.key@
            &&& a.receiver_token.mint@ == a.mint.info.key@
            &&& a.vault.owner@ == a.escrow.info.key@
            &&& a.token_program.key@ == TOKEN_2022_PROGRAM_BYTES@
            &&& a.escrow.state.status == EscrowStatus::Funded
            &&& p.receiver_token.amount == a.receiver_token.amount + a.escrow.state.amount
            &&& p.vault.amount == 0
            &&& is_closed(p.vault.info)
            &&& is_closed(p.escrow.info)
            &&& p.escrow.state.status == EscrowStatus::Released
            &&& p.sender.lamports == a.sender.lamports + a.vault.info.lamports + a.escrow.info.lamports
            &&& p.mint == a.mint
        }),
{
}

/// A released deal cannot be released again.
pub proof fn lemma_release_cannot_repeat(ctx: Context<Release>, deal_id: u64)
    requires
        release_failure(ctx, deal_id) is None,
    ensures
        release_failure(release_post(ctx), deal_id)
            == Some(Failure::Framework(FrameworkError::AccountNotInitialized)),
{
}

/// A deal that was never funded cannot be released: where a release would
/// go through on a funded deal, the same release on the deal still in the
/// `Created` status fails with `InvalidStatus` (and, as every failure,
/// moves no token and closes nothing).
pub proof fn lemma_release_of_unfunded_deal_is_invalid(ctx: Context<Release>, deal_id: u64)
    requires
        release_failure(ctx, deal_id) is None,
    ensures
        ({
            let a = ctx.accounts;
            let unfunded = Context {
                accounts: Release {
                    escrow: EscrowAccount {
                        state: EscrowState { status: EscrowStatus::Created, ..a.escrow.state },
                        ..a.escrow
                    },
                    ..a
                },
                ..ctx
            };
            release_failure(unfunded, deal_id) == Some(Failure::Escrow(EscrowError::InvalidStatus))
        }),
{
}

/// Once its record is closed, a deal accepts no deposit, release or
/// cancellation signed by its sender.
pub proof fn lemma_closed_escrow_accepts_nothing(
    d: Context<Deposit>,
    r: Context<Release>,
    c: Context<Cancel>,
    deal_id: u64,
)
    requires
        is_closed(d.accounts.escrow.info),
        is_closed(r.accounts.escrow.info),
        is_closed(c.accounts.escrow.info),
        d.accounts.sender.is_signer,
        r.accounts.sender.is_signer,
        c.accounts.sender.is_signer,
    ensures
        deposit_failure(d, deal_id) == Some(Failure::Framework(FrameworkError::AccountNotInitialized)),
        release_failure(r, deal_id) == Some(Failure::Framework(FrameworkError::AccountNotInitialized)),
        cancel_failure(c, deal_id) == Some(Failure::Framework(FrameworkError::AccountNotInitialized)),
{
}

/// A cancellation after a release fails, whatever the other accounts.
pub proof fn lemma_cancel_after_release_fails(r: Context<Release>, c: Context<Cancel>, deal_id: u64)
    requires
        release_failure(r, deal_id) is None,
        c.accounts.escrow == release_post(r).accounts.escrow,
    ensures
        cancel_failure(c, deal_id) is Some,
{
}

/// A successful cancellation is signed by the deal's sender and gives the
/// sender back what the deal held: the amount where it was funded (the two
/// token balances keep their sum), and the lamports of the vault and the
/// record, both of which are closed.
pub proof fn lemma_cancel_refunds_sender(ctx: Context<Cancel>, deal_id: u64)
    requires
        cancel_failure(ctx, deal_id) is None,
    ensures
        ({
            let a = ctx.accounts;
            let p = cancel_post(ctx).accounts;
            &&& a.sender.is_signer
            &&& a.escrow.state.sender@ == a.sender.key@
            &&& a.escrow.state.mint@ == a.mint.info.key@
            &&& a.sender_token.owner@ == a.sender.key@
            &&& a.vault.owner@ == a.escrow.info.key@
            &&& a.token_program.key@ == TOKEN_2022_PROGRAM_BYTES@
            &&& !is_final(a.escrow.state.status)
            &&& p.sender_token.amount == a.sender_token.amount + refund(a)
            &&& (a.escrow.state.status == EscrowStatus::Funded ==> refund(a) == a.escrow.state.amount)
            &&& (a.escrow.state.status == EscrowStatus::Created ==> refund(a) == 0)
            &&& p.sender_token.amount + p.vault.amount == a.sender_token.amount + a.vault.amount
            &&& p.vault.amount == 0
            &&& is_closed(p.vault.info)
            &&& is_closed(p.escrow.info)
            &&& p.escrow.state.status == EscrowStatus::Cancelled
            &&& p.sender.lamports == a.sender.lamports + a.vault.info.lamports + a.escrow.info.lamports
            &&& p.mint == a.mint
        }),
{
}

/// A cancelled deal can be neither cancelled nor released afterwards.
pub proof fn lemma_cancel_is_final(c: Context<Cancel>, c2: Context<Cancel>, r: Context<Release>, deal_id: u64)
    requires
        cancel_failure(c, deal_id) is None,
        c2.accounts.escrow == cancel_post(c).accounts.escrow,
        r.accounts.escrow == cancel_post(c).accounts.escrow,
    ensures
        cancel_failure(c2, deal_id) is Some,
        release_failure(r, deal_id) is Some,
{
}

/// A deposit, a release or a cancellation that succeeds acts on the record
/// at the address derived from its sender's address, the deal's number and
/// the recorded bump, under the program's own address.
pub proof fn lemma_escrow_bound_to_sender_and_deal(
    d: Context<Deposit>,
    r: Context<Release>,
    c: Context<Cancel>,
    deal_id: u64,
)
    ensures
        deposit_failure(d, deal_id) is None ==> program_address(
            with_bump(escrow_seeds(d.accounts.sender.key@, deal_id), d.accounts.escrow.state.bump),
            d.program_id@,
        ) == Some(d.accounts.escrow.info.key@),
        release_failure(r, deal_id) is None ==> program_address(
            with_bump(escrow_seeds(r.accounts.sender.key@, deal_id), r.accounts.escrow.state.bump),
            r.program_id@,
        ) == Some(r.accounts.escrow.info.key@),
        cancel_failure(c, deal_id) is None ==> program_address(
            with_bump(escrow_seeds(c.accounts.sender.key@, deal_id), c.accounts.escrow.state.bump),
            c.program_id@,
        ) == Some(c.accounts.escrow.info.key@),
{
}

/// Initializing a deal, funding it and cancelling it is undone in full: the
/// cancellation that runs on the accounts the two others left succeeds,
/// the sender's token account holds again what it held before the deposit,
/// the record and the vault are closed, and the sender holds every lamport
/// that the sender, the record and the vault held before the
/// initialization. This holds where the sender's wallet is neither the
/// record nor the vault, and where those lamports together fit in a `u64`.
#[verifier::rlimit(50)]
pub proof fn lemma_initialize_deposit_cancel_round_trip(
    i: Context<Initialize>,
    d: Context<Deposit>,
    c: Context<Cancel>,
    deal_id: u64,
    amount: u64,
)
    requires
        initialize_failure(i, deal_id, amount) is None,
        d.program_id == i.program_id,
        d.accounts.escrow == initialize_post(i, deal_id, amount).accounts.escrow,
        d.accounts.vault == initialize_post(i, deal_id, amount).accounts.vault,
        deposit_failure(d, deal_id) is None,
        c.program_id == d.program_id,
        c.accounts.sender == initialize_post(i, deal_id, amount).accounts.sender,
        c.accounts.escrow == deposit_post(d).accounts.escrow,
        c.accounts.vault == deposit_post(d).accounts.vault,
        c.accounts.sender_token == deposit_post(d).accounts.sender_token,
        c.accounts.mint == d.accounts.mint,
        c.accounts.token_program == d.accounts.token_program,
        i.accounts.sender.key@ != i.accounts.escrow.info.key@,
        i.accounts.sender.key@ != i.accounts.vault.info.key@,
        i.accounts.sender.lamports + i.accounts.escrow.info.lamports + i.accounts.vault.info.lamports
            <= u64::MAX,
    ensures
        cancel_failure(c, deal_id) is None,
        cancel_post(c).accounts.sender_token.amount == d.accounts.sender_token.amount,
        cancel_post(c).accounts.vault.amount == 0,
        is_closed(cancel_post(c).accounts.vault.info),
        is_closed(cancel_post(c).accounts.escrow.info),
        cancel_post(c).accounts.escrow.state.status == EscrowStatus::Cancelled,
        cancel_post(c).accounts.sender.lamports == i.accounts.sender.lamports
            + i.accounts.escrow.info.lamports + i.accounts.vault.info.lamports,
{
    lemma_initialize_conserves_lamports(i, deal_id, amount);
    lemma_deposit_moves_amount(d, deal_id);
    assert(mutable_keys_cancel(c.accounts) == mutable_keys_deposit(deposit_post(d).accounts));
}

/// A successful burn lowers the account's balance and the mint's supply by
/// the same amount.
pub proof fn lemma_burn_lowers_balance_and_supply(ctx: Context<BurnTokens>, amount: u64)
    requires
        burn_tokens_failure(ctx, amount) is None,
    ensures
        ({
            let a = ctx.accounts;
            let p = burn_tokens_post(ctx, amount).accounts;
            &&& amount > 0
            &&& a.authority.is_signer
            &&& a.token_account.owner@ == a.authority.key@
            &&& p.token_account.amount == a.token_account.amount - amount
            &&& p.mint.supply == a.mint.supply - amount
            &&& a.mint.supply - p.mint.supply == a.token_account.amount - p.token_account.amount
        }),
{
}

} // verus!
