use token_vault::contract::Token;
use token_vault::error::ContractError;
use token_vault::sale::{read_config, write_config, TokenSaleContract};

const USDC_ISSUER: u64 = 50;
const ESCROW_CONTRACT: u64 = 60;
const SALE_CONTRACT: u64 = 70;
const SALE_ADMIN: u64 = 71;
const PAYER: u64 = 80;
const BENEFICIARY: u64 = 81;
const SALE_TOKEN_REF: u64 = 7;

fn create_usdc_token() -> Token {
    Token::__constructor(
        "USD Coin".to_string(),
        "USDC".to_string(),
        "usdc_escrow".to_string(),
        7,
        USDC_ISSUER,
    )
    .unwrap()
}

fn create_sale_token() -> Token {
    // The purchase flow itself is the registered mint authority.
    Token::__constructor(
        "SaleToken".to_string(),
        "SALE".to_string(),
        "sale_escrow".to_string(),
        7,
        SALE_CONTRACT,
    )
    .unwrap()
}

fn create_token_sale() -> TokenSaleContract {
    TokenSaleContract::__constructor(SALE_CONTRACT, SALE_ADMIN, ESCROW_CONTRACT, SALE_TOKEN_REF)
}

#[test]
fn test_buy_transfers_usdc_and_mints_sale_token() {
    let mut usdc = create_usdc_token();
    let mut sale_token = create_sale_token();
    let sale = create_token_sale();

    let amount: i128 = 100;
    usdc.mint(USDC_ISSUER, PAYER, amount).unwrap();

    sale.buy(PAYER, &mut usdc, PAYER, BENEFICIARY, amount, &mut sale_token)
        .unwrap();

    let escrow_balance = usdc.balance(ESCROW_CONTRACT);
    assert_eq!(escrow_balance, amount);

    let sale_token_balance = sale_token.balance(BENEFICIARY);
    assert_eq!(sale_token_balance, amount);
}

#[test]
fn buy_requires_payers_authorization() {
    let mut usdc = create_usdc_token();
    let mut sale_token = create_sale_token();
    let sale = create_token_sale();

    usdc.mint(USDC_ISSUER, PAYER, 100).unwrap();
    let r = sale.buy(BENEFICIARY, &mut usdc, PAYER, BENEFICIARY, 100, &mut sale_token);
    assert_eq!(r, Err(ContractError::Unauthorized));
    assert_eq!(usdc.balance(PAYER), 100);
    assert_eq!(usdc.balance(ESCROW_CONTRACT), 0);
    assert_eq!(sale_token.balance(BENEFICIARY), 0);
}

#[test]
fn buy_fails_atomically_without_payer_funds() {
    let mut usdc = create_usdc_token();
    let mut sale_token = create_sale_token();
    let sale = create_token_sale();

    usdc.mint(USDC_ISSUER, PAYER, 99).unwrap();
    let r = sale.buy(PAYER, &mut usdc, PAYER, BENEFICIARY, 100, &mut sale_token);
    assert_eq!(r, Err(ContractError::InsufficientBalance));
    // Neither step applied: no escrow credit, nothing minted.
    assert_eq!(usdc.balance(PAYER), 99);
    assert_eq!(usdc.balance(ESCROW_CONTRACT), 0);
    assert_eq!(sale_token.balance(BENEFICIARY), 0);
}

#[test]
fn buy_fails_atomically_when_flow_is_not_mint_authority() {
    let mut usdc = create_usdc_token();
    // A sale token whose mint authority is someone else entirely.
    let mut sale_token = Token::__constructor(
        "SaleToken".to_string(),
        "SALE".to_string(),
        "sale_escrow".to_string(),
        7,
        99,
    )
    .unwrap();
    let sale = create_token_sale();

    usdc.mint(USDC_ISSUER, PAYER, 100).unwrap();
    let r = sale.buy(PAYER, &mut usdc, PAYER, BENEFICIARY, 100, &mut sale_token);
    assert_eq!(r, Err(ContractError::Unauthorized));
    // No state in which the escrow was paid but nothing was minted.
    assert_eq!(usdc.balance(PAYER), 100);
    assert_eq!(usdc.balance(ESCROW_CONTRACT), 0);
    assert_eq!(sale_token.balance(BENEFICIARY), 0);
}

#[test]
fn buy_rejects_negative_amount() {
    let mut usdc = create_usdc_token();
    let mut sale_token = create_sale_token();
    let sale = create_token_sale();

    let r = sale.buy(PAYER, &mut usdc, PAYER, BENEFICIARY, -1, &mut sale_token);
    assert_eq!(r, Err(ContractError::InvalidAmount));
}

#[test]
fn set_token_is_admin_only_and_keeps_escrow() {
    let mut sale = create_token_sale();

    let r = sale.set_token(PAYER, 8);
    assert_eq!(r, Err(ContractError::Unauthorized));
    assert_eq!(read_config(&sale).sale_token, SALE_TOKEN_REF);

    sale.set_token(SALE_ADMIN, 8).unwrap();
    let cfg = read_config(&sale);
    assert_eq!(cfg.sale_token, 8);
    assert_eq!(cfg.escrow_contract, ESCROW_CONTRACT);
}

#[test]
fn config_roundtrip() {
    let mut sale = create_token_sale();
    write_config(&mut sale, 61, 9);
    let cfg = read_config(&sale);
    assert_eq!(cfg.escrow_contract, 61);
    assert_eq!(cfg.sale_token, 9);
}
