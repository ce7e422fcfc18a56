use escrow::account::{AccountInfo, MintAccount, TokenAccount};
use escrow::address::{system_program_id, token_2022_program_id, token_program_id, Address};
use escrow::error::{FrameworkError, TokenProgramError};
use escrow::instructions::Rent;
use escrow::token_starter::burn::{handler as burn_tokens, BurnTokens};
use escrow::token_starter::CustomError;
use escrow::{Call, Context, Failure, TokenStarterError};

const DECIMALS: u8 = 6;
const MINT_AMOUNT: u64 = 1_000_000;
const BURN_AMOUNT: u64 = 400_000;

fn key(byte: u8) -> Address {
    let mut bytes = [0u8; 32];
    bytes[0] = byte;
    bytes[31] = 0x5A;
    Address::new(bytes)
}

struct Harness {
    authority: AccountInfo,
    alice: AccountInfo,
    mint: MintAccount,
    alice_ata: TokenAccount,
    token_program: AccountInfo,
}

fn setup_minted(amount: u64) -> Harness {
    let authority = AccountInfo {
        key: key(1),
        owner: system_program_id(),
        lamports: 1_000_000_000,
        is_signer: false,
        is_writable: true,
        executable: false,
    };
    let alice = AccountInfo { key: key(2), ..authority };
    let mint = MintAccount {
        info: AccountInfo {
            key: key(3),
            owner: token_2022_program_id(),
            lamports: 1_461_600,
            is_signer: false,
            is_writable: true,
            executable: false,
        },
        decimals: DECIMALS,
        supply: amount,
    };
    let alice_ata = TokenAccount {
        info: AccountInfo {
            key: key(4),
            owner: token_2022_program_id(),
            lamports: 2_074_080,
            is_signer: false,
            is_writable: true,
            executable: false,
        },
        mint: mint.info.key,
        owner: alice.key,
        amount,
        is_frozen: false,
    };
    let token_program = AccountInfo {
        key: token_2022_program_id(),
        owner: token_2022_program_id(),
        lamports: 1,
        is_signer: false,
        is_writable: true,
        executable: true,
    };
    Harness { authority, alice, mint, alice_ata, token_program }
}

fn burn_ctx(h: &Harness, signer: AccountInfo) -> Context<BurnTokens> {
    Context {
        program_id: key(9),
        accounts: BurnTokens {
            token_account: h.alice_ata,
            mint: h.mint,
            authority: AccountInfo { is_signer: true, ..signer },
            token_program: h.token_program,
        },
        rent: Rent { escrow_account: 0, token_account: 0 },
    }
}

fn burn(h: &mut Harness, signer: AccountInfo, amount: u64) -> Result<Vec<Call>, Failure> {
    let mut ctx = burn_ctx(h, signer);
    let r = burn_tokens(&mut ctx, amount);
    h.alice_ata = ctx.accounts.token_account;
    h.mint = ctx.accounts.mint;
    r
}

#[test]
fn test_burn_tokens_reduces_balance() {
    let mut h = setup_minted(MINT_AMOUNT);

    assert_eq!(h.alice_ata.amount, MINT_AMOUNT);
    assert_eq!(h.mint.supply, MINT_AMOUNT);

    let alice = h.alice;
    burn(&mut h, alice, BURN_AMOUNT).expect("burn_tokens failed");

    assert_eq!(h.alice_ata.amount, MINT_AMOUNT - BURN_AMOUNT);
    assert_eq!(h.mint.supply, MINT_AMOUNT - BURN_AMOUNT);
}

#[test]
fn burn_rejects_zero_amount() {
    let mut h = setup_minted(MINT_AMOUNT);
    let alice = h.alice;
    assert_eq!(
        burn(&mut h, alice, 0),
        Err(Failure::TokenStarter(TokenStarterError::InvalidAmount))
    );
    assert_eq!(h.alice_ata.amount, MINT_AMOUNT);
    assert_eq!(h.mint.supply, MINT_AMOUNT);
}

#[test]
fn burn_rejects_wrong_authority_and_mint() {
    let mut h = setup_minted(MINT_AMOUNT);
    let stranger = h.authority;
    assert_eq!(
        burn(&mut h, stranger, 1),
        Err(Failure::TokenStarter(TokenStarterError::InvalidAuthority))
    );
    let alice = h.alice;
    let mut ctx = burn_ctx(&h, alice);
    ctx.accounts.mint.info.key = key(8);
    assert_eq!(
        burn_tokens(&mut ctx, 1),
        Err(Failure::TokenStarter(CustomError::InvalidMint))
    );
    let mut ctx = burn_ctx(&h, alice);
    ctx.accounts.authority.is_signer = false;
    assert_eq!(
        burn_tokens(&mut ctx, 1),
        Err(Failure::Framework(FrameworkError::AccountNotSigner))
    );
    assert_eq!(h.alice_ata.amount, MINT_AMOUNT);
    assert_eq!(h.mint.supply, MINT_AMOUNT);
}

#[test]
fn burn_rejects_more_than_the_balance() {
    let mut h = setup_minted(MINT_AMOUNT);
    let alice = h.alice;
    assert_eq!(
        burn(&mut h, alice, MINT_AMOUNT + 1),
        Err(Failure::TokenProgram(TokenProgramError::InsufficientFunds))
    );
    burn(&mut h, alice, MINT_AMOUNT).expect("burn everything");
    assert_eq!(h.alice_ata.amount, 0);
    assert_eq!(h.mint.supply, 0);
}

#[test]
fn burn_goes_to_the_program_that_owns_the_accounts() {
    let h = setup_minted(MINT_AMOUNT);
    let mut ctx = burn_ctx(&h, h.alice);
    ctx.accounts.token_program.key = token_program_id();
    assert_eq!(
        burn_tokens(&mut ctx, 1),
        Err(Failure::TokenProgram(TokenProgramError::IncorrectProgramId))
    );
    let mut ctx = burn_ctx(&h, h.alice);
    ctx.accounts.mint.info.key = h.alice_ata.info.key;
    ctx.accounts.token_account.mint = h.alice_ata.info.key;
    assert_eq!(
        burn_tokens(&mut ctx, 1),
        Err(Failure::Framework(FrameworkError::ConstraintDuplicateMutableAccount))
    );
}

#[test]
fn token_starter_error_codes() {
    assert_eq!(TokenStarterError::AmountMustBePositive.code(), 6000);
    assert_eq!(TokenStarterError::SourceEqualsDestination.code(), 6001);
    assert_eq!(TokenStarterError::InvalidMint.code(), 6002);
    assert_eq!(TokenStarterError::InvalidAuthority.code(), 6003);
    assert_eq!(TokenStarterError::InvalidAmount.code(), 6004);
}

#[test]
fn burn_asks_for_one_checked_burn() {
    let mut h = setup_minted(MINT_AMOUNT);
    let alice = h.alice;
    let calls = burn(&mut h, alice, BURN_AMOUNT).expect("burn");
    assert_eq!(
        calls,
        vec![Call::BurnChecked {
            token_program: token_2022_program_id(),
            from: h.alice_ata.info.key,
            mint: h.mint.info.key,
            authority: alice.key,
            amount: BURN_AMOUNT,
            decimals: DECIMALS,
        }]
    );
}

#[test]
fn burn_refuses_a_frozen_account() {
    let mut h = setup_minted(MINT_AMOUNT);
    h.alice_ata.is_frozen = true;
    let alice = h.alice;
    assert_eq!(
        burn(&mut h, alice, 1),
        Err(Failure::TokenProgram(TokenProgramError::AccountFrozen))
    );
    assert_eq!(h.alice_ata.amount, MINT_AMOUNT);
    assert_eq!(h.mint.supply, MINT_AMOUNT);
}
