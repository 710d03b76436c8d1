use token_vault::contract::{check_nonnegative_amount, Token};
use token_vault::error::ContractError;
use token_vault::metadata::{
    has_escrow_id, has_mint_authority, read_decimal, read_escrow_id, read_mint_authority,
    read_name, read_symbol, write_escrow_id, write_metadata, write_mint_authority, Metadata,
    TokenMetadata,
};

const MINT_AUTHORITY: u64 = 1;
const USER1: u64 = 2;
const USER2: u64 = 3;
const USER3: u64 = 4;

fn create_token(mint_authority: u64, escrow_id: &str) -> Token {
    Token::__constructor(
        "TestToken".to_string(),
        "TST".to_string(),
        escrow_id.to_string(),
        7,
        mint_authority,
    )
    .unwrap()
}

#[test]
fn test() {
    let mut token = create_token(MINT_AUTHORITY, "test_escrow_123");

    token.mint(MINT_AUTHORITY, USER1, 1000).unwrap();
    assert_eq!(token.balance(USER1), 1000);

    token.approve(USER2, USER2, USER3, 500, 200).unwrap();
    assert_eq!(token.allowance(USER2, USER3, 0), 500);

    token.transfer(USER1, USER1, USER2, 600).unwrap();
    assert_eq!(token.balance(USER1), 400);
    assert_eq!(token.balance(USER2), 600);

    token.transfer_from(USER3, USER3, USER2, USER1, 400, 0).unwrap();
    assert_eq!(token.balance(USER1), 800);
    assert_eq!(token.balance(USER2), 200);

    token.transfer(USER1, USER1, USER3, 300).unwrap();
    assert_eq!(token.balance(USER1), 500);
    assert_eq!(token.balance(USER3), 300);

    // Increase to 500
    token.approve(USER2, USER2, USER3, 500, 200).unwrap();
    assert_eq!(token.allowance(USER2, USER3, 0), 500);
    token.approve(USER2, USER2, USER3, 0, 200).unwrap();
    assert_eq!(token.allowance(USER2, USER3, 0), 0);
}

#[test]
fn test_burn() {
    let mut token = create_token(MINT_AUTHORITY, "test_escrow_456");

    token.mint(MINT_AUTHORITY, USER1, 1000).unwrap();
    assert_eq!(token.balance(USER1), 1000);

    token.approve(USER1, USER1, USER2, 500, 200).unwrap();
    assert_eq!(token.allowance(USER1, USER2, 0), 500);

    token.burn_from(USER2, USER2, USER1, 500, 0).unwrap();

    assert_eq!(token.allowance(USER1, USER2, 0), 0);
    assert_eq!(token.balance(USER1), 500);
    assert_eq!(token.balance(USER2), 0);

    token.burn(USER1, USER1, 500).unwrap();

    assert_eq!(token.balance(USER1), 0);
    assert_eq!(token.balance(USER2), 0);
}

#[test]
fn transfer_insufficient_balance() {
    let mut token = create_token(MINT_AUTHORITY, "test_escrow_789");

    token.mint(MINT_AUTHORITY, USER1, 1000).unwrap();
    assert_eq!(token.balance(USER1), 1000);

    let r = token.transfer(USER1, USER1, USER2, 1001);
    assert_eq!(r, Err(ContractError::InsufficientBalance));
    assert_eq!(token.balance(USER1), 1000);
    assert_eq!(token.balance(USER2), 0);
}

#[test]
fn transfer_from_insufficient_allowance() {
    let mut token = create_token(MINT_AUTHORITY, "test_escrow_101112");

    token.mint(MINT_AUTHORITY, USER1, 1000).unwrap();
    assert_eq!(token.balance(USER1), 1000);

    token.approve(USER1, USER1, USER3, 100, 200).unwrap();
    assert_eq!(token.allowance(USER1, USER3, 0), 100);

    let r = token.transfer_from(USER3, USER3, USER1, USER2, 101, 0);
    assert_eq!(r, Err(ContractError::InsufficientAllowance));
    assert_eq!(token.balance(USER1), 1000);
    assert_eq!(token.balance(USER2), 0);
}

#[test]
fn decimal_is_over_eighteen() {
    let r = Token::__constructor(
        "name".to_string(),
        "symbol".to_string(),
        "escrow_123".to_string(),
        19,
        MINT_AUTHORITY,
    );
    assert!(matches!(r, Err(ContractError::InvalidAmount)));
}

#[test]
fn test_metadata_getters() {
    let token = create_token(MINT_AUTHORITY, "test_escrow_metadata");

    assert_eq!(token.name().as_str(), "TestToken");
    assert_eq!(token.symbol().as_str(), "TST");
    assert_eq!(token.decimals(), 7);
    assert_eq!(token.escrow_id().as_str(), "test_escrow_metadata");
}

#[test]
fn test_mint_authority_can_mint() {
    let mut token = create_token(MINT_AUTHORITY, "test_escrow_mint");

    let user: u64 = 5;
    token.mint(MINT_AUTHORITY, user, 1000).unwrap();
    assert_eq!(token.balance(user), 1000);

    token.mint(MINT_AUTHORITY, user, 500).unwrap();
    assert_eq!(token.balance(user), 1500);
}

#[test]
fn test_deployer_cannot_mint() {
    let deployer: u64 = 99;
    let mut token = create_token(MINT_AUTHORITY, "test_escrow_deployer");

    let user: u64 = 5;
    let r = token.mint(deployer, user, 1000);
    assert_eq!(r, Err(ContractError::Unauthorized));
    assert_eq!(token.balance(user), 0);
}

#[test]
fn test_metadata_immutability() {
    let mut meta = Metadata::new();
    write_metadata(
        &mut meta,
        TokenMetadata {
            decimal: 7,
            name: "TestToken".to_string(),
            symbol: "TST".to_string(),
        },
    );
    write_escrow_id(&mut meta, "test_escrow_immutable".to_string()).unwrap();
    assert!(has_escrow_id(&meta));

    let r = write_escrow_id(&mut meta, "new_escrow".to_string());
    assert_eq!(r, Err(ContractError::AlreadyInitialized));
    assert_eq!(read_escrow_id(&meta).as_str(), "test_escrow_immutable");
}

#[test]
fn second_write_fails_even_with_equal_value() {
    let mut meta = Metadata::new();
    write_escrow_id(&mut meta, "escrow_a".to_string()).unwrap();
    let r = write_escrow_id(&mut meta, "escrow_a".to_string());
    assert_eq!(r, Err(ContractError::AlreadyInitialized));

    assert!(!has_mint_authority(&meta));
    write_mint_authority(&mut meta, 42).unwrap();
    assert!(has_mint_authority(&meta));
    let r2 = write_mint_authority(&mut meta, 42);
    assert_eq!(r2, Err(ContractError::AlreadyInitialized));
    assert_eq!(read_mint_authority(&meta), 42);
}

#[test]
fn second_initialize_fails_and_changes_nothing() {
    let mut token = create_token(MINT_AUTHORITY, "escrow_first");
    let r = token.initialize(
        "Other".to_string(),
        "OTH".to_string(),
        9,
        "escrow_second".to_string(),
        55,
    );
    assert_eq!(r, Err(ContractError::AlreadyInitialized));
    assert_eq!(token.name().as_str(), "TestToken");
    assert_eq!(token.symbol().as_str(), "TST");
    assert_eq!(token.decimals(), 7);
    assert_eq!(token.escrow_id().as_str(), "escrow_first");
    assert_eq!(token.mint_authority(), MINT_AUTHORITY);
}

#[test]
fn standard_metadata_is_rewritable() {
    let mut meta = Metadata::new();
    write_metadata(
        &mut meta,
        TokenMetadata {
            decimal: 7,
            name: "First".to_string(),
            symbol: "FST".to_string(),
        },
    );
    write_metadata(
        &mut meta,
        TokenMetadata {
            decimal: 9,
            name: "Second".to_string(),
            symbol: "SND".to_string(),
        },
    );
    assert_eq!(read_decimal(&meta), 9);
    assert_eq!(read_name(&meta).as_str(), "Second");
    assert_eq!(read_symbol(&meta).as_str(), "SND");
}

#[test]
fn transfer_moves_exactly_and_conserves_supply() {
    let mut token = create_token(MINT_AUTHORITY, "escrow_supply");
    token.mint(MINT_AUTHORITY, USER1, 700).unwrap();
    token.mint(MINT_AUTHORITY, USER2, 300).unwrap();

    token.transfer(USER1, USER1, USER2, 250).unwrap();
    assert_eq!(token.balance(USER1), 450);
    assert_eq!(token.balance(USER2), 550);
    assert_eq!(token.balance(USER1) + token.balance(USER2), 1000);
}

#[test]
fn transfer_requires_senders_authorization() {
    let mut token = create_token(MINT_AUTHORITY, "escrow_auth");
    token.mint(MINT_AUTHORITY, USER1, 100).unwrap();
    let r = token.transfer(USER2, USER1, USER2, 50);
    assert_eq!(r, Err(ContractError::Unauthorized));
    assert_eq!(token.balance(USER1), 100);
}

#[test]
fn negative_amounts_are_rejected() {
    let mut token = create_token(MINT_AUTHORITY, "escrow_negative");
    token.mint(MINT_AUTHORITY, USER1, 100).unwrap();

    assert!(!check_nonnegative_amount(-1));
    assert!(check_nonnegative_amount(0));

    assert_eq!(
        token.mint(MINT_AUTHORITY, USER1, -5),
        Err(ContractError::InvalidAmount)
    );
    assert_eq!(
        token.transfer(USER1, USER1, USER2, -5),
        Err(ContractError::InvalidAmount)
    );
    assert_eq!(
        token.approve(USER1, USER1, USER2, -5, 200),
        Err(ContractError::InvalidAmount)
    );
    assert_eq!(
        token.burn(USER1, USER1, -5),
        Err(ContractError::InvalidAmount)
    );
    assert_eq!(token.balance(USER1), 100);
}

#[test]
fn approve_twice_yields_same_record() {
    let mut token = create_token(MINT_AUTHORITY, "escrow_idempotent");
    token.approve(USER1, USER1, USER2, 350, 120).unwrap();
    let first = token.allowance(USER1, USER2, 0);
    token.approve(USER1, USER1, USER2, 350, 120).unwrap();
    assert_eq!(token.allowance(USER1, USER2, 0), first);
    assert_eq!(token.allowance(USER1, USER2, 0), 350);
}

#[test]
fn expired_allowance_blocks_even_with_balance() {
    let mut token = create_token(MINT_AUTHORITY, "escrow_expired");
    token.mint(MINT_AUTHORITY, USER1, 1000).unwrap();
    token.approve(USER1, USER1, USER2, 500, 200).unwrap();

    // Still effective at exactly the expiration height.
    assert_eq!(token.allowance(USER1, USER2, 200), 500);
    // Expired one ledger later: treated as zero.
    assert_eq!(token.allowance(USER1, USER2, 201), 0);

    let r = token.transfer_from(USER2, USER2, USER1, USER3, 100, 201);
    assert_eq!(r, Err(ContractError::InsufficientAllowance));
    assert_eq!(token.balance(USER1), 1000);
}

#[test]
fn allowance_is_spent_to_zero_at_its_limit() {
    let mut token = create_token(MINT_AUTHORITY, "escrow_limit");
    token.mint(MINT_AUTHORITY, USER2, 1000).unwrap();

    let ledger_height: u32 = 0;
    token
        .approve(USER2, USER2, USER3, 500, ledger_height + 200)
        .unwrap();

    let r = token.transfer_from(USER3, USER3, USER2, USER1, 501, ledger_height);
    assert_eq!(r, Err(ContractError::InsufficientAllowance));

    token
        .transfer_from(USER3, USER3, USER2, USER1, 500, ledger_height)
        .unwrap();
    assert_eq!(token.allowance(USER2, USER3, ledger_height), 0);
    assert_eq!(token.balance(USER1), 500);
    assert_eq!(token.balance(USER2), 500);
}

#[test]
fn zero_approval_clears_future_spends() {
    let mut token = create_token(MINT_AUTHORITY, "escrow_clear");
    token.mint(MINT_AUTHORITY, USER1, 1000).unwrap();
    token.approve(USER1, USER1, USER2, 500, 200).unwrap();
    token.approve(USER1, USER1, USER2, 0, 200).unwrap();

    let r = token.transfer_from(USER2, USER2, USER1, USER3, 1, 0);
    assert_eq!(r, Err(ContractError::InsufficientAllowance));
    assert_eq!(token.balance(USER1), 1000);
}

#[test]
fn transfer_to_self_changes_nothing() {
    let mut token = create_token(MINT_AUTHORITY, "escrow_self");
    token.mint(MINT_AUTHORITY, USER1, 100).unwrap();
    token.transfer(USER1, USER1, USER1, 60).unwrap();
    assert_eq!(token.balance(USER1), 100);
}

#[test]
fn burn_from_respects_expiration() {
    let mut token = create_token(MINT_AUTHORITY, "escrow_burn_expired");
    token.mint(MINT_AUTHORITY, USER1, 1000).unwrap();
    token.approve(USER1, USER1, USER2, 500, 150).unwrap();

    let r = token.burn_from(USER2, USER2, USER1, 100, 151);
    assert_eq!(r, Err(ContractError::InsufficientAllowance));

    token.burn_from(USER2, USER2, USER1, 100, 150).unwrap();
    assert_eq!(token.balance(USER1), 900);
    assert_eq!(token.allowance(USER1, USER2, 150), 400);
}

#[test]
fn error_messages_name_each_condition() {
    assert_eq!(ContractError::AdminNotFound.message(), "Admin not found");
    assert_eq!(
        ContractError::ExchangeDisabled.message(),
        "Exchange is currently disabled"
    );
    assert_eq!(
        ContractError::NothingToClaim.message(),
        "Beneficiary has no tokens to claim"
    );
    assert_eq!(
        ContractError::InsufficientVaultFunds.message(),
        "Vault does not have enough USDC"
    );
    assert_eq!(ContractError::Unauthorized.message(), "Unauthorized");
}
