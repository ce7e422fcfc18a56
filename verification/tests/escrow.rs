use anchor_lang::prelude::{Pubkey, Rent as RentSchedule};
use escrow::account::{AccountInfo, MintAccount, TokenAccount};
use escrow::address::{
    associated_token_program_id, escrow_program_id, system_program_id, token_2022_program_id,
    token_program_id,
};
use escrow::error::{CreationError, FrameworkError, TokenProgramError};
use escrow::instructions::Rent;
use escrow::state::EscrowAccount;
use escrow::{
    Address, Call, Cancel, EscrowSigner, Context, Deposit, EscrowError, EscrowState, EscrowStatus, Failure,
    Initialize, Release, ESCROW_SEED,
};

const DECIMALS: u8 = 6;
const MINT_AMOUNT: u64 = 1_000_000;
const DEAL_AMOUNT: u64 = 400_000;
const DEAL_ID: u64 = 1;

fn key(byte: u8) -> Address {
    let mut bytes = [0u8; 32];
    bytes[0] = byte;
    bytes[31] = 0xA5;
    Address::new(bytes)
}

fn pubkey(a: &Address) -> Pubkey {
    Pubkey::new_from_array(a.bytes)
}

fn wallet(address: Address, lamports: u64) -> AccountInfo {
    AccountInfo {
        key: address,
        owner: system_program_id(),
        lamports,
        is_signer: false,
        is_writable: true,
        executable: false,
    }
}

fn program(address: Address) -> AccountInfo {
    AccountInfo {
        key: address,
        owner: address,
        lamports: 1,
        is_signer: false,
        is_writable: true,
        executable: true,
    }
}

fn ata(owner: &Address, mint: &Address) -> Address {
    let key = anchor_spl::associated_token::get_associated_token_address_with_program_id(
        &pubkey(owner),
        &pubkey(mint),
        &anchor_spl::token_2022::ID,
    );
    Address::new(key.to_bytes())
}

fn escrow_pda(sender: &Address, deal_id: u64) -> (Address, u8) {
    let (pda, bump) = Pubkey::find_program_address(
        &[&ESCROW_SEED, pubkey(sender).as_ref(), &deal_id.to_le_bytes()],
        &pubkey(&escrow_program_id()),
    );
    (Address::new(pda.to_bytes()), bump)
}

fn token_account(address: Address, mint: Address, owner: Address, amount: u64) -> TokenAccount {
    TokenAccount {
        info: AccountInfo {
            key: address,
            owner: token_2022_program_id(),
            lamports: RentSchedule::default().minimum_balance(170),
            is_signer: false,
            is_writable: true,
            executable: false,
        },
        mint,
        owner,
        amount,
        is_frozen: false,
    }
}

fn empty_record() -> EscrowState {
    EscrowState {
        sender: system_program_id(),
        receiver: system_program_id(),
        mint: system_program_id(),
        amount: 0,
        deal_id: 0,
        bump: 0,
        status: EscrowStatus::Created,
    }
}

/// The accounts of one deal and its parties, as the chain holds them.
struct Harness {
    deal_id: u64,
    sender: AccountInfo,
    receiver: AccountInfo,
    attacker: AccountInfo,
    mint: MintAccount,
    sender_ata: TokenAccount,
    receiver_ata: TokenAccount,
    escrow: EscrowAccount,
    vault: TokenAccount,
    token_program: AccountInfo,
    associated_token_program: AccountInfo,
    system_program: AccountInfo,
    rent: Rent,
}

fn setup_deal(mint_amount: u64, deal_id: u64) -> Harness {
    let sender = wallet(key(1), 2_000_000_000);
    let receiver = wallet(key(2), 1_000_000_000);
    let attacker = wallet(key(3), 1_000_000_000);
    let mint_key = key(4);
    let mint = MintAccount {
        info: AccountInfo {
            key: mint_key,
            owner: token_2022_program_id(),
            lamports: RentSchedule::default().minimum_balance(82),
            is_signer: false,
            is_writable: true,
            executable: false,
        },
        decimals: DECIMALS,
        supply: mint_amount,
    };
    let sender_ata = token_account(ata(&sender.key, &mint_key), mint_key, sender.key, mint_amount);
    let receiver_ata = token_account(ata(&receiver.key, &mint_key), mint_key, receiver.key, 0);
    let (pda, _) = escrow_pda(&sender.key, deal_id);
    let escrow = EscrowAccount { info: wallet(pda, 0), state: empty_record() };
    let vault_key = ata(&pda, &mint_key);
    let vault = TokenAccount {
        info: wallet(vault_key, 0),
        mint: system_program_id(),
        owner: system_program_id(),
        amount: 0,
        is_frozen: false,
    };
    Harness {
        deal_id,
        sender,
        receiver,
        attacker,
        mint,
        sender_ata,
        receiver_ata,
        escrow,
        vault,
        token_program: program(token_2022_program_id()),
        associated_token_program: program(associated_token_program_id()),
        system_program: program(system_program_id()),
        rent: Rent {
            escrow_account: RentSchedule::default().minimum_balance(8 + 114),
            token_account: RentSchedule::default().minimum_balance(170),
        },
    }
}

fn setup_with_mint_amount(mint_amount: u64) -> Harness {
    setup_deal(mint_amount, DEAL_ID)
}

fn setup() -> Harness {
    setup_with_mint_amount(MINT_AMOUNT)
}

fn signed(a: AccountInfo) -> AccountInfo {
    AccountInfo { is_signer: true, ..a }
}

fn initialize_ctx(h: &Harness) -> Context<Initialize> {
    Context {
        program_id: escrow_program_id(),
        accounts: Initialize {
            sender: signed(h.sender),
            receiver: h.receiver,
            mint: h.mint,
            escrow: h.escrow,
            vault: h.vault,
            token_program: h.token_program,
            associated_token_program: h.associated_token_program,
            system_program: h.system_program,
        },
        rent: h.rent,
    }
}

fn run_initialize(h: &mut Harness, mut ctx: Context<Initialize>, amount: u64) -> Result<Vec<Call>, Failure> {
    let r = escrow::initialize(&mut ctx, h.deal_id, amount);
    let a = ctx.accounts;
    if a.sender.key == h.sender.key {
        h.sender.lamports = a.sender.lamports;
    }
    h.escrow = a.escrow;
    h.vault = a.vault;
    r
}

fn initialize_deal(h: &mut Harness, amount: u64) -> Result<Vec<Call>, Failure> {
    let ctx = initialize_ctx(h);
    run_initialize(h, ctx, amount)
}

fn deposit_ctx(h: &Harness) -> Context<Deposit> {
    Context {
        program_id: escrow_program_id(),
        accounts: Deposit {
            sender: signed(h.sender),
            escrow: h.escrow,
            mint: h.mint,
            sender_token: h.sender_ata,
            vault: h.vault,
            token_program: h.token_program,
        },
        rent: h.rent,
    }
}

fn run_deposit(h: &mut Harness, mut ctx: Context<Deposit>) -> Result<Vec<Call>, Failure> {
    let r = escrow::deposit(&mut ctx, h.deal_id);
    h.escrow = ctx.accounts.escrow;
    h.sender_ata = ctx.accounts.sender_token;
    h.vault = ctx.accounts.vault;
    r
}

fn deposit_deal(h: &mut Harness) -> Result<Vec<Call>, Failure> {
    let ctx = deposit_ctx(h);
    run_deposit(h, ctx)
}

fn release_ctx(h: &Harness) -> Context<Release> {
    Context {
        program_id: escrow_program_id(),
        accounts: Release {
            sender: signed(h.sender),
            receiver: h.receiver,
            escrow: h.escrow,
            mint: h.mint,
            vault: h.vault,
            receiver_token: h.receiver_ata,
            token_program: h.token_program,
        },
        rent: h.rent,
    }
}

fn run_release(h: &mut Harness, mut ctx: Context<Release>) -> Result<Vec<Call>, Failure> {
    let r = escrow::release(&mut ctx, h.deal_id);
    if ctx.accounts.sender.key == h.sender.key {
        h.sender.lamports = ctx.accounts.sender.lamports;
    }
    h.escrow = ctx.accounts.escrow;
    h.vault = ctx.accounts.vault;
    h.receiver_ata = ctx.accounts.receiver_token;
    r
}

fn release_deal(h: &mut Harness) -> Result<Vec<Call>, Failure> {
    let ctx = release_ctx(h);
    run_release(h, ctx)
}

fn cancel_ctx(h: &Harness) -> Context<Cancel> {
    Context {
        program_id: escrow_program_id(),
        accounts: Cancel {
            sender: signed(h.sender),
            escrow: h.escrow,
            mint: h.mint,
            sender_token: h.sender_ata,
            vault: h.vault,
            token_program: h.token_program,
        },
        rent: h.rent,
    }
}

fn cancel_deal(h: &mut Harness) -> Result<Vec<Call>, Failure> {
    let mut ctx = cancel_ctx(h);
    let r = escrow::cancel(&mut ctx, h.deal_id);
    h.sender.lamports = ctx.accounts.sender.lamports;
    h.escrow = ctx.accounts.escrow;
    h.vault = ctx.accounts.vault;
    h.sender_ata = ctx.accounts.sender_token;
    r
}

fn fund_deal(h: &mut Harness, amount: u64) {
    initialize_deal(h, amount).expect("initialize");
    deposit_deal(h).expect("deposit");
}

fn is_closed(a: &AccountInfo) -> bool {
    a.lamports == 0
}

fn account_exists(a: &AccountInfo) -> bool {
    !(a.owner == system_program_id() && a.lamports == 0)
}

#[test]
fn test_initialize_deposit_release_transfers_tokens_and_refunds_rent() {
    let mut h = setup();

    initialize_deal(&mut h, DEAL_AMOUNT).expect("initialize");
    let state = h.escrow.state;
    assert_eq!(state.sender, h.sender.key);
    assert_eq!(state.receiver, h.receiver.key);
    assert_eq!(state.mint, h.mint.info.key);
    assert_eq!(state.amount, DEAL_AMOUNT);
    assert_eq!(state.deal_id, DEAL_ID);
    assert_eq!(state.status, EscrowStatus::Created);
    assert_eq!(h.vault.amount, 0);

    deposit_deal(&mut h).expect("deposit");
    assert_eq!(h.escrow.state.status, EscrowStatus::Funded);
    assert_eq!(h.sender_ata.amount, MINT_AMOUNT - DEAL_AMOUNT);
    assert_eq!(h.vault.amount, DEAL_AMOUNT);
    assert_eq!(h.receiver_ata.amount, 0);

    let escrow_rent = h.escrow.info.lamports;
    let vault_rent = h.vault.info.lamports;
    let sender_before = h.sender.lamports;
    assert!(escrow_rent > 0);
    assert!(vault_rent > 0);

    release_deal(&mut h).expect("release");

    assert!(is_closed(&h.escrow.info), "escrow state must be closed");
    assert!(is_closed(&h.vault.info), "vault must be closed");
    assert_eq!(h.sender_ata.amount, MINT_AMOUNT - DEAL_AMOUNT);
    assert_eq!(h.receiver_ata.amount, DEAL_AMOUNT);
    assert_eq!(
        h.sender.lamports,
        sender_before + escrow_rent + vault_rent,
        "release must return vault and EscrowState rent to sender"
    );
}

#[test]
fn test_initialize_deposit_cancel_returns_tokens_to_sender() {
    let mut h = setup();

    fund_deal(&mut h, DEAL_AMOUNT);
    assert_eq!(h.sender_ata.amount, MINT_AMOUNT - DEAL_AMOUNT);
    assert_eq!(h.vault.amount, DEAL_AMOUNT);

    let escrow_rent = h.escrow.info.lamports;
    let vault_rent = h.vault.info.lamports;
    let sender_before = h.sender.lamports;

    cancel_deal(&mut h).expect("cancel");

    assert!(is_closed(&h.escrow.info), "escrow state must be closed");
    assert!(is_closed(&h.vault.info), "vault must be closed");
    assert_eq!(h.sender_ata.amount, MINT_AMOUNT);
    assert_eq!(h.receiver_ata.amount, 0);
    assert_eq!(
        h.sender.lamports,
        sender_before + escrow_rent + vault_rent,
        "cancel must return vault and EscrowState rent to sender"
    );
}

#[test]
fn test_initialize_rejects_zero_amount() {
    let mut h = setup();

    let result = initialize_deal(&mut h, 0);
    assert!(result.is_err(), "zero amount initialize must fail");
    assert_eq!(result, Err(Failure::Escrow(EscrowError::InvalidAmount)));
    assert!(!account_exists(&h.escrow.info), "failed initialize must not leave escrow account");
}

#[test]
fn test_release_and_cancel_cannot_replay() {
    let mut h = setup();

    fund_deal(&mut h, DEAL_AMOUNT);
    let sender_after_fund = h.sender_ata.amount;

    release_deal(&mut h).expect("first release");
    assert!(release_deal(&mut h).is_err(), "second release must fail");
    assert!(cancel_deal(&mut h).is_err(), "cancel after release must fail");
    assert_eq!(h.sender_ata.amount, sender_after_fund);
    assert_eq!(h.receiver_ata.amount, DEAL_AMOUNT);
    assert!(is_closed(&h.escrow.info));
    assert!(is_closed(&h.vault.info));

    let second_id = DEAL_ID + 1;
    let mut h = setup_deal(MINT_AMOUNT, second_id);
    fund_deal(&mut h, DEAL_AMOUNT);
    cancel_deal(&mut h).expect("first cancel");
    assert!(cancel_deal(&mut h).is_err(), "second cancel must fail");
    assert!(release_deal(&mut h).is_err(), "release after cancel must fail");
    assert_eq!(h.sender_ata.amount, MINT_AMOUNT);
    assert_eq!(h.receiver_ata.amount, 0);
    assert!(is_closed(&h.escrow.info));
}

#[test]
fn test_rejects_swapped_sender_or_receiver() {
    let mut h = setup();
    fund_deal(&mut h, DEAL_AMOUNT);
    let sender_before = h.sender_ata.amount;
    let receiver_before = h.receiver_ata.amount;
    let vault_before = h.vault.amount;

    let mut attacker_as_sender = deposit_ctx(&h);
    attacker_as_sender.accounts.sender = signed(h.attacker);
    let before = attacker_as_sender.accounts;
    assert!(
        run_deposit(&mut h, attacker_as_sender).is_err(),
        "deposit with swapped sender must fail"
    );
    assert_eq!(h.escrow, before.escrow);
    assert_eq!(h.sender_ata, before.sender_token);
    assert_eq!(h.vault, before.vault);

    let mut attacker_as_release_sender = release_ctx(&h);
    attacker_as_release_sender.accounts.sender = signed(h.attacker);
    let before = attacker_as_release_sender.accounts;
    assert!(
        run_release(&mut h, attacker_as_release_sender).is_err(),
        "release signed by attacker as sender must fail"
    );
    assert_eq!(h.escrow, before.escrow);
    assert_eq!(h.vault, before.vault);
    assert_eq!(h.receiver_ata, before.receiver_token);

    let mut swapped_receiver = release_ctx(&h);
    swapped_receiver.accounts.receiver = h.attacker;
    let before = swapped_receiver.accounts;
    assert!(
        run_release(&mut h, swapped_receiver).is_err(),
        "release with swapped receiver must fail"
    );
    assert_eq!(h.escrow, before.escrow);
    assert_eq!(h.vault, before.vault);
    assert_eq!(h.receiver_ata, before.receiver_token);

    let mut unsigned_sender = release_ctx(&h);
    unsigned_sender.accounts.sender.is_signer = false;
    let before = unsigned_sender.accounts;
    assert!(
        run_release(&mut h, unsigned_sender).is_err(),
        "release must require sender signature, not receiver"
    );
    assert_eq!(h.escrow, before.escrow);
    assert_eq!(h.vault, before.vault);
    assert_eq!(h.receiver_ata, before.receiver_token);
    assert_eq!(h.sender.lamports, before.sender.lamports);

    assert_eq!(h.sender_ata.amount, sender_before);
    assert_eq!(h.receiver_ata.amount, receiver_before);
    assert_eq!(h.vault.amount, vault_before);
    assert_eq!(h.escrow.state.status, EscrowStatus::Funded);
}

#[test]
fn test_deposit_rejects_insufficient_balance() {
    let mut h = setup_with_mint_amount(1);
    initialize_deal(&mut h, DEAL_AMOUNT).expect("initialize");

    assert!(
        deposit_deal(&mut h).is_err(),
        "deposit larger than sender balance must fail"
    );
    assert_eq!(h.sender_ata.amount, 1);
    assert_eq!(h.vault.amount, 0);
    assert_eq!(h.escrow.state.status, EscrowStatus::Created);
}

#[test]
fn test_initialize_rejects_duplicate_deal_id() {
    let mut h = setup();
    initialize_deal(&mut h, DEAL_AMOUNT).expect("first initialize");
    let first = h.escrow.state;

    assert!(
        initialize_deal(&mut h, DEAL_AMOUNT + 1).is_err(),
        "same sender and deal_id must not reinitialize"
    );

    let second = h.escrow.state;
    assert_eq!(second.amount, first.amount);
    assert_eq!(second.status, EscrowStatus::Created);
    assert_eq!(second.receiver, first.receiver);
}

#[test]
fn test_initialize_rejects_sender_equals_receiver() {
    let mut h = setup();
    let mut ctx = initialize_ctx(&h);
    ctx.accounts.receiver = h.sender;

    assert!(
        run_initialize(&mut h, ctx, DEAL_AMOUNT).is_err(),
        "sender and receiver must differ"
    );
    assert!(!account_exists(&h.escrow.info));
}

#[test]
fn test_deposit_cannot_run_twice() {
    let mut h = setup();
    fund_deal(&mut h, DEAL_AMOUNT);

    assert!(deposit_deal(&mut h).is_err(), "second deposit must fail");
    assert_eq!(h.sender_ata.amount, MINT_AMOUNT - DEAL_AMOUNT);
    assert_eq!(h.vault.amount, DEAL_AMOUNT);
    assert_eq!(h.escrow.state.status, EscrowStatus::Funded);
}

// ---------------------------------------------------------------------------
// Which failure each case reports
// ---------------------------------------------------------------------------

#[test]
fn initialize_records_the_canonical_bump() {
    let mut h = setup();
    initialize_deal(&mut h, DEAL_AMOUNT).expect("initialize");
    let (pda, bump) = escrow_pda(&h.sender.key, DEAL_ID);
    assert_eq!(h.escrow.info.key, pda);
    assert_eq!(h.escrow.state.bump, bump);
    assert_eq!(h.escrow.info.owner, escrow_program_id());
    assert_eq!(h.vault.info.owner, token_2022_program_id());
    assert_eq!(h.vault.owner, pda);
    assert_eq!(h.vault.mint, h.mint.info.key);
    assert_eq!(h.escrow.info.lamports, h.rent.escrow_account);
    assert_eq!(h.vault.info.lamports, h.rent.token_account);
    assert_eq!(
        h.sender.lamports,
        2_000_000_000 - h.rent.escrow_account - h.rent.token_account
    );
}

#[test]
fn initialize_failures_are_reported_precisely() {
    let mut h = setup();
    let mut ctx = initialize_ctx(&h);
    ctx.accounts.receiver = h.sender;
    assert_eq!(
        run_initialize(&mut h, ctx, DEAL_AMOUNT),
        Err(Failure::Escrow(EscrowError::SenderEqualsReceiver))
    );

    let mut ctx = initialize_ctx(&h);
    ctx.accounts.sender.is_signer = false;
    assert_eq!(
        run_initialize(&mut h, ctx, DEAL_AMOUNT),
        Err(Failure::Framework(FrameworkError::AccountNotSigner))
    );

    // The record must be at the address of this sender's deal.
    let mut other = setup_deal(MINT_AMOUNT, DEAL_ID + 7);
    other.escrow = h.escrow;
    let ctx = initialize_ctx(&other);
    assert_eq!(
        run_initialize(&mut other, ctx, DEAL_AMOUNT),
        Err(Failure::Framework(FrameworkError::ConstraintSeeds))
    );

    // The legacy token program is accepted by the interface but refused here:
    // the vault's address for it is not the one given.
    let mut ctx = initialize_ctx(&h);
    ctx.accounts.token_program = program(token_program_id());
    assert_eq!(
        run_initialize(&mut h, ctx, DEAL_AMOUNT),
        Err(Failure::Creation(CreationError::InvalidSeeds))
    );

    let mut ctx = initialize_ctx(&h);
    ctx.accounts.token_program = program(key(9));
    assert_eq!(
        run_initialize(&mut h, ctx, DEAL_AMOUNT),
        Err(Failure::Framework(FrameworkError::InvalidProgramId))
    );

    let mut poor = setup();
    poor.sender.lamports = 1_000;
    assert_eq!(
        initialize_deal(&mut poor, DEAL_AMOUNT),
        Err(Failure::Creation(CreationError::InsufficientLamports))
    );

    initialize_deal(&mut h, DEAL_AMOUNT).expect("initialize");
    assert_eq!(
        initialize_deal(&mut h, DEAL_AMOUNT),
        Err(Failure::Creation(CreationError::AccountAlreadyInUse))
    );
}

#[test]
fn deposit_failures_are_reported_precisely() {
    let mut h = setup();
    initialize_deal(&mut h, DEAL_AMOUNT).expect("initialize");

    let mut ctx = deposit_ctx(&h);
    ctx.accounts.sender = signed(h.attacker);
    assert_eq!(
        escrow::deposit(&mut ctx, DEAL_ID),
        Err(Failure::Framework(FrameworkError::ConstraintSeeds))
    );

    let mut ctx = deposit_ctx(&h);
    ctx.accounts.vault = ctx.accounts.sender_token;
    assert_eq!(
        escrow::deposit(&mut ctx, DEAL_ID),
        Err(Failure::Framework(FrameworkError::ConstraintDuplicateMutableAccount))
    );

    let mut ctx = deposit_ctx(&h);
    ctx.accounts.escrow.state.sender = h.attacker.key;
    assert_eq!(
        escrow::deposit(&mut ctx, DEAL_ID),
        Err(Failure::Escrow(EscrowError::InvalidSender))
    );

    let mut ctx = deposit_ctx(&h);
    ctx.accounts.mint.info.key = key(8);
    assert_eq!(
        escrow::deposit(&mut ctx, DEAL_ID),
        Err(Failure::Escrow(EscrowError::InvalidMint))
    );

    let mut ctx = deposit_ctx(&h);
    ctx.accounts.sender_token = h.receiver_ata;
    assert_eq!(
        escrow::deposit(&mut ctx, DEAL_ID),
        Err(Failure::Framework(FrameworkError::ConstraintTokenOwner))
    );

    let mut ctx = deposit_ctx(&h);
    ctx.accounts.token_program = program(token_program_id());
    assert_eq!(
        escrow::deposit(&mut ctx, DEAL_ID),
        Err(Failure::Framework(FrameworkError::ConstraintMintTokenProgram))
    );

    let mut ctx = deposit_ctx(&h);
    ctx.accounts.vault.info.is_writable = false;
    assert_eq!(
        escrow::deposit(&mut ctx, DEAL_ID),
        Err(Failure::Framework(FrameworkError::ConstraintMut))
    );

    let mut ctx = deposit_ctx(&h);
    ctx.accounts.escrow.info.owner = key(7);
    assert_eq!(
        escrow::deposit(&mut ctx, DEAL_ID),
        Err(Failure::Framework(FrameworkError::AccountOwnedByWrongProgram))
    );

    let mut ctx = deposit_ctx(&h);
    ctx.accounts.sender_token.amount = 1;
    let before = ctx.accounts;
    assert_eq!(
        escrow::deposit(&mut ctx, DEAL_ID),
        Err(Failure::TokenProgram(TokenProgramError::InsufficientFunds))
    );
    assert_eq!(ctx.accounts, before);

    deposit_deal(&mut h).expect("deposit");
    assert_eq!(
        deposit_deal(&mut h),
        Err(Failure::Escrow(EscrowError::AlreadyProcessed))
    );
}

#[test]
fn release_failures_are_reported_precisely() {
    let mut h = setup();
    initialize_deal(&mut h, DEAL_AMOUNT).expect("initialize");
    let escrow_before = h.escrow;
    let vault_before = h.vault;
    let receiver_before = h.receiver_ata;
    let sender_lamports = h.sender.lamports;
    assert_eq!(release_deal(&mut h), Err(Failure::Escrow(EscrowError::InvalidStatus)));
    assert_eq!(h.escrow, escrow_before);
    assert_eq!(h.escrow.state.status, EscrowStatus::Created);
    assert_eq!(h.vault, vault_before);
    assert_eq!(h.receiver_ata, receiver_before);
    assert_eq!(h.sender.lamports, sender_lamports);
    assert!(account_exists(&h.escrow.info));
    assert!(account_exists(&h.vault.info));
    deposit_deal(&mut h).expect("deposit");

    // A record that still exists but says the deal is over is refused as
    // already processed.
    for status in [EscrowStatus::Released, EscrowStatus::Cancelled] {
        let mut ctx = release_ctx(&h);
        ctx.accounts.escrow.state.status = status;
        assert_eq!(
            escrow::release(&mut ctx, DEAL_ID),
            Err(Failure::Escrow(EscrowError::AlreadyProcessed))
        );
    }

    let mut ctx = release_ctx(&h);
    ctx.accounts.receiver = h.attacker;
    assert_eq!(
        escrow::release(&mut ctx, DEAL_ID),
        Err(Failure::Escrow(EscrowError::InvalidReceiver))
    );

    let mut ctx = release_ctx(&h);
    ctx.accounts.sender.is_signer = false;
    assert_eq!(
        escrow::release(&mut ctx, DEAL_ID),
        Err(Failure::Framework(FrameworkError::AccountNotSigner))
    );

    let mut ctx = release_ctx(&h);
    ctx.accounts.receiver_token = h.sender_ata;
    assert_eq!(
        escrow::release(&mut ctx, DEAL_ID),
        Err(Failure::Framework(FrameworkError::ConstraintTokenOwner))
    );

    // Tokens sent to the vault beyond the deal's amount keep it from closing.
    let mut ctx = release_ctx(&h);
    ctx.accounts.vault.amount = DEAL_AMOUNT + 5;
    assert_eq!(
        escrow::release(&mut ctx, DEAL_ID),
        Err(Failure::TokenProgram(TokenProgramError::NonNativeHasBalance))
    );

    release_deal(&mut h).expect("release");
    assert_eq!(
        release_deal(&mut h),
        Err(Failure::Framework(FrameworkError::AccountNotInitialized))
    );
    assert_eq!(
        cancel_deal(&mut h),
        Err(Failure::Framework(FrameworkError::AccountNotInitialized))
    );
    assert_eq!(
        deposit_deal(&mut h),
        Err(Failure::Framework(FrameworkError::AccountNotInitialized))
    );
}

#[test]
fn cancel_before_funding_closes_without_moving_tokens() {
    let mut h = setup();
    initialize_deal(&mut h, DEAL_AMOUNT).expect("initialize");
    let sender_lamports = h.sender.lamports;
    let rents = h.escrow.info.lamports + h.vault.info.lamports;
    cancel_deal(&mut h).expect("cancel");
    assert_eq!(h.sender_ata.amount, MINT_AMOUNT);
    assert_eq!(h.sender.lamports, sender_lamports + rents);
    assert_eq!(h.escrow.state.status, EscrowStatus::Cancelled);
    assert!(is_closed(&h.escrow.info));
    assert!(is_closed(&h.vault.info));
    assert_eq!(h.escrow.info.owner, system_program_id());
    assert_eq!(deposit_deal(&mut h), Err(Failure::Framework(FrameworkError::AccountNotInitialized)));
}

#[test]
fn release_conserves_tokens_and_lamports() {
    let mut h = setup();
    fund_deal(&mut h, DEAL_AMOUNT);
    let tokens = h.vault.amount + h.receiver_ata.amount;
    let lamports = h.sender.lamports + h.vault.info.lamports + h.escrow.info.lamports;
    release_deal(&mut h).expect("release");
    assert_eq!(h.vault.amount + h.receiver_ata.amount, tokens);
    assert_eq!(h.sender.lamports + h.vault.info.lamports + h.escrow.info.lamports, lamports);
    assert_eq!(h.escrow.state.status, EscrowStatus::Released);
    assert_eq!(h.mint.supply, MINT_AMOUNT);
}

// ---------------------------------------------------------------------------
// The calls each instruction hands to other programs
// ---------------------------------------------------------------------------

fn expected_seeds(sender: &Address, deal_id: u64, bump: u8) -> Vec<Vec<u8>> {
    vec![
        ESCROW_SEED.to_vec(),
        sender.bytes.to_vec(),
        deal_id.to_le_bytes().to_vec(),
        vec![bump],
    ]
}

#[test]
fn initialize_asks_for_the_record_and_the_vault() {
    let mut h = setup();
    let (pda, bump) = escrow_pda(&h.sender.key, DEAL_ID);
    let calls = initialize_deal(&mut h, DEAL_AMOUNT).expect("initialize");
    let signer = EscrowSigner { sender: h.sender.key, deal_id: DEAL_ID, bump };
    assert_eq!(
        calls,
        vec![
            Call::CreateAccount {
                from: h.sender.key,
                to: pda,
                lamports: h.rent.escrow_account,
                space: 122,
                owner: escrow_program_id(),
                signer,
            },
            Call::CreateAssociatedTokenAccount {
                program: associated_token_program_id(),
                payer: h.sender.key,
                associated_token: h.vault.info.key,
                wallet: pda,
                mint: h.mint.info.key,
                system_program: system_program_id(),
                token_program: token_2022_program_id(),
            },
        ]
    );
    let seeds = signer.seeds();
    assert_eq!(seeds, expected_seeds(&h.sender.key, DEAL_ID, bump));
    let slices: Vec<&[u8]> = seeds.iter().map(|s| s.as_slice()).collect();
    let derived = Pubkey::create_program_address(&slices, &pubkey(&escrow_program_id()))
        .expect("the signer seeds derive the record's address");
    assert_eq!(derived.to_bytes(), pda.bytes);
}

#[test]
fn initialize_tops_up_a_record_that_already_holds_lamports() {
    let mut h = setup();
    h.escrow.info.lamports = 1_000;
    let (pda, bump) = escrow_pda(&h.sender.key, DEAL_ID);
    let calls = initialize_deal(&mut h, DEAL_AMOUNT).expect("initialize");
    let signer = EscrowSigner { sender: h.sender.key, deal_id: DEAL_ID, bump };
    assert_eq!(calls.len(), 4);
    assert_eq!(
        calls[0],
        Call::Transfer { from: h.sender.key, to: pda, lamports: h.rent.escrow_account - 1_000 }
    );
    assert_eq!(calls[1], Call::Allocate { account: pda, space: 122, signer });
    assert_eq!(calls[2], Call::Assign { account: pda, owner: escrow_program_id(), signer });
    assert_eq!(h.escrow.info.lamports, h.rent.escrow_account);
}

#[test]
fn deposit_asks_for_one_checked_transfer_signed_by_the_sender() {
    let mut h = setup();
    initialize_deal(&mut h, DEAL_AMOUNT).expect("initialize");
    let calls = deposit_deal(&mut h).expect("deposit");
    assert_eq!(
        calls,
        vec![Call::TransferChecked {
            token_program: token_2022_program_id(),
            from: h.sender_ata.info.key,
            mint: h.mint.info.key,
            to: h.vault.info.key,
            authority: h.sender.key,
            amount: DEAL_AMOUNT,
            decimals: DECIMALS,
            pda_signer: None,
        }]
    );
}

#[test]
fn release_asks_for_transfer_then_close_signed_by_the_escrow() {
    let mut h = setup();
    fund_deal(&mut h, DEAL_AMOUNT);
    let (pda, bump) = escrow_pda(&h.sender.key, DEAL_ID);
    let signer = EscrowSigner { sender: h.sender.key, deal_id: DEAL_ID, bump };
    let calls = release_deal(&mut h).expect("release");
    assert_eq!(
        calls,
        vec![
            Call::TransferChecked {
                token_program: token_2022_program_id(),
                from: h.vault.info.key,
                mint: h.mint.info.key,
                to: h.receiver_ata.info.key,
                authority: pda,
                amount: DEAL_AMOUNT,
                decimals: DECIMALS,
                pda_signer: Some(signer),
            },
            Call::CloseAccount {
                token_program: token_2022_program_id(),
                account: h.vault.info.key,
                destination: h.sender.key,
                authority: pda,
                pda_signer: Some(signer),
            },
            Call::CloseProgramAccount { account: pda, destination: h.sender.key },
        ]
    );
    assert_eq!(signer.seeds(), expected_seeds(&h.sender.key, DEAL_ID, bump));
}

#[test]
fn cancel_asks_for_a_refund_only_when_funded() {
    let mut h = setup();
    fund_deal(&mut h, DEAL_AMOUNT);
    let (pda, bump) = escrow_pda(&h.sender.key, DEAL_ID);
    let signer = EscrowSigner { sender: h.sender.key, deal_id: DEAL_ID, bump };
    let calls = cancel_deal(&mut h).expect("cancel");
    assert_eq!(
        calls,
        vec![
            Call::TransferChecked {
                token_program: token_2022_program_id(),
                from: h.vault.info.key,
                mint: h.mint.info.key,
                to: h.sender_ata.info.key,
                authority: pda,
                amount: DEAL_AMOUNT,
                decimals: DECIMALS,
                pda_signer: Some(signer),
            },
            Call::CloseAccount {
                token_program: token_2022_program_id(),
                account: h.vault.info.key,
                destination: h.sender.key,
                authority: pda,
                pda_signer: Some(signer),
            },
            Call::CloseProgramAccount { account: pda, destination: h.sender.key },
        ]
    );

    let mut h = setup_deal(MINT_AMOUNT, DEAL_ID + 2);
    initialize_deal(&mut h, DEAL_AMOUNT).expect("initialize");
    let (pda, bump) = escrow_pda(&h.sender.key, DEAL_ID + 2);
    let signer = EscrowSigner { sender: h.sender.key, deal_id: DEAL_ID + 2, bump };
    let calls = cancel_deal(&mut h).expect("cancel");
    assert_eq!(
        calls,
        vec![
            Call::CloseAccount {
                token_program: token_2022_program_id(),
                account: h.vault.info.key,
                destination: h.sender.key,
                authority: pda,
                pda_signer: Some(signer),
            },
            Call::CloseProgramAccount { account: pda, destination: h.sender.key },
        ]
    );
}

#[test]
fn frozen_token_accounts_refuse_transfers() {
    let mut h = setup();
    initialize_deal(&mut h, DEAL_AMOUNT).expect("initialize");

    let mut ctx = deposit_ctx(&h);
    ctx.accounts.sender_token.is_frozen = true;
    let before = ctx.accounts;
    assert_eq!(
        escrow::deposit(&mut ctx, DEAL_ID),
        Err(Failure::TokenProgram(TokenProgramError::AccountFrozen))
    );
    assert_eq!(ctx.accounts, before);

    let mut ctx = deposit_ctx(&h);
    ctx.accounts.vault.is_frozen = true;
    assert_eq!(
        escrow::deposit(&mut ctx, DEAL_ID),
        Err(Failure::TokenProgram(TokenProgramError::AccountFrozen))
    );

    deposit_deal(&mut h).expect("deposit");
    let mut ctx = release_ctx(&h);
    ctx.accounts.receiver_token.is_frozen = true;
    assert_eq!(
        escrow::release(&mut ctx, DEAL_ID),
        Err(Failure::TokenProgram(TokenProgramError::AccountFrozen))
    );
    assert_eq!(h.escrow.state.status, EscrowStatus::Funded);
}

#[test]
fn round_trip_restores_the_sender() {
    let mut h = setup();
    let tokens = h.sender_ata.amount;
    let lamports = h.sender.lamports + h.escrow.info.lamports + h.vault.info.lamports;
    fund_deal(&mut h, DEAL_AMOUNT);
    cancel_deal(&mut h).expect("cancel");
    assert_eq!(h.sender_ata.amount, tokens);
    assert_eq!(h.sender.lamports, lamports);
    assert_eq!(h.vault.amount, 0);
    assert_eq!(h.escrow.state.status, EscrowStatus::Cancelled);
    assert!(!account_exists(&h.escrow.info));
    assert!(!account_exists(&h.vault.info));
}

#[test]
fn initialize_needs_the_created_accounts_and_the_payer_writable() {
    for which in 0..3 {
        let mut h = setup();
        let mut ctx = initialize_ctx(&h);
        match which {
            0 => ctx.accounts.sender.is_writable = false,
            1 => ctx.accounts.escrow.info.is_writable = false,
            _ => ctx.accounts.vault.info.is_writable = false,
        }
        let before = ctx.accounts;
        assert_eq!(
            run_initialize(&mut h, ctx, DEAL_AMOUNT),
            Err(Failure::Creation(CreationError::PrivilegeEscalation))
        );
        assert_eq!(h.escrow, before.escrow);
        assert_eq!(h.vault, before.vault);
        assert_eq!(h.sender.lamports, before.sender.lamports);
    }
}
