use sebi::errors::{Error, MarketError, TransferError};
use sebi::instructions::buy::{Buy, Settlement, TradeEvent, TradeSide};
use sebi::instructions::sell::Sell;
use sebi::price::total_price;
use sebi::pubkey::Pubkey;
use sebi::state::Market;
use sebi::token::{transfer, TokenAccount, Transfer};

fn key(tag: u8) -> Pubkey {
    Pubkey::new_from_array([tag; 32])
}

fn holding(address: u8, mint: u8, owner: u8, amount: u64) -> TokenAccount {
    TokenAccount { key: key(address), mint: key(mint), owner: key(owner), amount }
}

const MARKET: u8 = 1;
const BOND: u8 = 2;
const USDC: u8 = 3;
const ADMIN: u8 = 4;
const TRADER: u8 = 5;

fn market(price: u128, paused: bool) -> Market {
    Market {
        key: key(MARKET),
        bond_mint: key(BOND),
        usdc_mint: key(USDC),
        price_per_token: price,
        vault_bond: key(10),
        vault_usdc: key(11),
        admin: key(ADMIN),
        paused,
        bump: 255,
    }
}

fn purchase(price: u128, paused: bool, buyer_usdc: u64, vault_bond: u64) -> Buy {
    Buy {
        market: market(price, paused),
        buyer: key(TRADER),
        buyer_usdc: holding(20, USDC, TRADER, buyer_usdc),
        buyer_bond: holding(21, BOND, TRADER, 0),
        vault_usdc: holding(11, USDC, MARKET, 0),
        vault_bond: holding(10, BOND, MARKET, vault_bond),
    }
}

fn sale(price: u128, paused: bool, seller_bond: u64, vault_usdc: u64) -> Sell {
    Sell {
        market: market(price, paused),
        seller: key(TRADER),
        seller_bond: holding(21, BOND, TRADER, seller_bond),
        seller_usdc: holding(20, USDC, TRADER, 0),
        vault_bond: holding(10, BOND, MARKET, 0),
        vault_usdc: holding(11, USDC, MARKET, vault_usdc),
    }
}

#[test]
fn total_price_is_the_product() {
    assert_eq!(total_price(1_000_000, 5), Ok(5_000_000));
    assert_eq!(total_price(0, 77), Ok(0));
    assert_eq!(total_price(77, 0), Ok(0));
    assert_eq!(total_price(3, 4), Ok(12));
}

#[test]
fn total_price_at_the_edge_of_the_transfer_width() {
    assert_eq!(total_price(u64::MAX as u128, 1), Ok(u64::MAX));
    assert_eq!(total_price(1, u64::MAX), Ok(u64::MAX));
    assert_eq!(total_price(u64::MAX as u128 + 1, 1), Err(MarketError::MathOverflow));
    assert_eq!(total_price(1u128 << 63, 2), Err(MarketError::MathOverflow));
}

#[test]
fn total_price_overflowing_128_bits() {
    assert_eq!(total_price(u128::MAX, 2), Err(MarketError::MathOverflow));
    assert_eq!(total_price(u128::MAX, u64::MAX), Err(MarketError::MathOverflow));
    assert_eq!(total_price(u128::MAX, 0), Ok(0));
}

#[test]
fn transfer_moves_the_amount() {
    let mut from = holding(1, BOND, TRADER, 10);
    let mut to = holding(2, BOND, ADMIN, 1);
    assert_eq!(
        transfer(&mut from, &mut to, &key(TRADER), 4),
        Ok(Transfer { from: key(1), to: key(2), authority: key(TRADER), amount: 4 })
    );
    assert_eq!(from, holding(1, BOND, TRADER, 6));
    assert_eq!(to, holding(2, BOND, ADMIN, 5));
}

#[test]
fn transfer_refuses_more_than_the_balance() {
    let mut from = holding(1, BOND, TRADER, 10);
    let mut to = holding(2, BOND, ADMIN, 1);
    assert_eq!(transfer(&mut from, &mut to, &key(TRADER), 11), Err(TransferError::InsufficientFunds));
    assert_eq!(from.amount, 10);
    assert_eq!(to.amount, 1);
}

#[test]
fn transfer_refuses_another_asset() {
    let mut from = holding(1, BOND, TRADER, 10);
    let mut to = holding(2, USDC, ADMIN, 1);
    assert_eq!(transfer(&mut from, &mut to, &key(TRADER), 4), Err(TransferError::MintMismatch));
    assert_eq!(from.amount, 10);
    assert_eq!(to.amount, 1);
}

#[test]
fn transfer_refuses_a_foreign_authority() {
    let mut from = holding(1, BOND, TRADER, 10);
    let mut to = holding(2, BOND, ADMIN, 1);
    assert_eq!(transfer(&mut from, &mut to, &key(ADMIN), 4), Err(TransferError::OwnerMismatch));
    assert_eq!(from.amount, 10);
    assert_eq!(to.amount, 1);
}

#[test]
fn transfer_refuses_to_overflow_the_destination() {
    let mut from = holding(1, BOND, TRADER, 10);
    let mut to = holding(2, BOND, ADMIN, u64::MAX - 3);
    assert_eq!(transfer(&mut from, &mut to, &key(TRADER), 4), Err(TransferError::Overflow));
    assert_eq!(from.amount, 10);
    assert_eq!(to.amount, u64::MAX - 3);
    assert!(transfer(&mut from, &mut to, &key(TRADER), 3).is_ok());
    assert_eq!(to.amount, u64::MAX);
}

#[test]
fn transfer_refusals_come_in_order() {
    // Short of funds, of another asset and under a foreign authority at once.
    let mut from = holding(1, BOND, TRADER, 1);
    let mut to = holding(2, USDC, ADMIN, u64::MAX);
    assert_eq!(transfer(&mut from, &mut to, &key(ADMIN), 2), Err(TransferError::InsufficientFunds));
    assert_eq!(transfer(&mut from, &mut to, &key(ADMIN), 1), Err(TransferError::MintMismatch));
    to.mint = key(BOND);
    assert_eq!(transfer(&mut from, &mut to, &key(ADMIN), 1), Err(TransferError::OwnerMismatch));
    assert_eq!(transfer(&mut from, &mut to, &key(TRADER), 1), Err(TransferError::Overflow));
}

#[test]
fn buy_five_at_one_million() {
    let mut ctx = purchase(1_000_000, false, 7_000_000, 8);
    let settlement = sebi::instructions::buy::handler(&mut ctx, 5);
    assert_eq!(
        settlement,
        Ok(Settlement {
            first: Transfer {
                from: key(20),
                to: key(11),
                authority: key(TRADER),
                amount: 5_000_000,
            },
            second: Transfer { from: key(10), to: key(21), authority: key(MARKET), amount: 5 },
            event: TradeEvent {
                market: key(MARKET),
                trader: key(TRADER),
                side: TradeSide::Buy,
                amount: 5,
                price: 1_000_000,
            },
        })
    );
    assert_eq!(ctx.buyer_usdc.amount, 2_000_000);
    assert_eq!(ctx.vault_usdc.amount, 5_000_000);
    assert_eq!(ctx.buyer_bond.amount, 5);
    assert_eq!(ctx.vault_bond.amount, 3);
    assert_eq!(ctx.market, market(1_000_000, false));
}

#[test]
fn buy_on_a_paused_market_changes_nothing() {
    let mut ctx = purchase(1_000_000, true, 7_000_000, 8);
    let before = ctx;
    assert_eq!(
        sebi::instructions::buy::handler(&mut ctx, 1),
        Err(Error::Market(MarketError::MarketPaused))
    );
    assert_eq!(ctx, before);
}

#[test]
fn sell_on_a_paused_market_changes_nothing() {
    let mut ctx = sale(1_000_000, true, 5, 9_000_000);
    let before = ctx;
    assert_eq!(
        sebi::instructions::sell::handler(&mut ctx, 1),
        Err(Error::Market(MarketError::MarketPaused))
    );
    assert_eq!(ctx, before);
}

#[test]
fn trades_that_overflow_change_nothing() {
    let mut ctx = purchase(u128::MAX, false, u64::MAX, 8);
    let before = ctx;
    assert_eq!(
        sebi::instructions::buy::handler(&mut ctx, 2),
        Err(Error::Market(MarketError::MathOverflow))
    );
    assert_eq!(ctx, before);

    let mut ctx = sale(1u128 << 64, false, 5, u64::MAX);
    let before = ctx;
    assert_eq!(
        sebi::instructions::sell::handler(&mut ctx, 1),
        Err(Error::Market(MarketError::MathOverflow))
    );
    assert_eq!(ctx, before);
}

#[test]
fn paused_comes_before_overflow() {
    let mut ctx = purchase(u128::MAX, true, u64::MAX, 8);
    assert_eq!(
        sebi::instructions::buy::handler(&mut ctx, 2),
        Err(Error::Market(MarketError::MarketPaused))
    );
}

#[test]
fn buy_without_the_money_changes_nothing() {
    let mut ctx = purchase(1_000_000, false, 4_999_999, 8);
    let before = ctx;
    assert_eq!(
        sebi::instructions::buy::handler(&mut ctx, 5),
        Err(Error::Transfer(TransferError::InsufficientFunds))
    );
    assert_eq!(ctx, before);
}

#[test]
fn buy_from_an_underfunded_vault_takes_back_the_payment() {
    let mut ctx = purchase(1_000_000, false, 7_000_000, 4);
    let before = ctx;
    assert_eq!(
        sebi::instructions::buy::handler(&mut ctx, 5),
        Err(Error::Transfer(TransferError::InsufficientFunds))
    );
    assert_eq!(ctx, before);
}

#[test]
fn buy_from_a_vault_the_market_does_not_own() {
    let mut ctx = purchase(1_000_000, false, 7_000_000, 8);
    ctx.vault_bond.owner = key(ADMIN);
    let before = ctx;
    assert_eq!(
        sebi::instructions::buy::handler(&mut ctx, 5),
        Err(Error::Transfer(TransferError::OwnerMismatch))
    );
    assert_eq!(ctx, before);
}

#[test]
fn buy_at_price_zero_is_free() {
    let mut ctx = purchase(0, false, 0, 8);
    let settlement = sebi::instructions::buy::handler(&mut ctx, 8).unwrap();
    assert_eq!(settlement.event.price, 0);
    assert_eq!(settlement.event.amount, 8);
    assert_eq!(settlement.first.amount, 0);
    assert_eq!(settlement.second.amount, 8);
    assert_eq!(ctx.buyer_bond.amount, 8);
    assert_eq!(ctx.vault_bond.amount, 0);
    assert_eq!(ctx.buyer_usdc.amount, 0);
    assert_eq!(ctx.vault_usdc.amount, 0);
}

#[test]
fn sell_three_at_two_hundred() {
    let mut ctx = sale(200, false, 5, 1_000);
    let settlement = sebi::instructions::sell::handler(&mut ctx, 3);
    assert_eq!(
        settlement,
        Ok(Settlement {
            first: Transfer { from: key(21), to: key(10), authority: key(TRADER), amount: 3 },
            second: Transfer { from: key(11), to: key(20), authority: key(MARKET), amount: 600 },
            event: TradeEvent {
                market: key(MARKET),
                trader: key(TRADER),
                side: TradeSide::Sell,
                amount: 3,
                price: 200,
            },
        })
    );
    assert_eq!(ctx.seller_bond.amount, 2);
    assert_eq!(ctx.vault_bond.amount, 3);
    assert_eq!(ctx.vault_usdc.amount, 400);
    assert_eq!(ctx.seller_usdc.amount, 600);
}

#[test]
fn sell_to_a_vault_short_of_funds_leaves_the_bonds() {
    let mut ctx = sale(200, false, 5, 599);
    let before = ctx;
    assert_eq!(
        sebi::instructions::sell::handler(&mut ctx, 3),
        Err(Error::Market(MarketError::InsufficientVaultFunds))
    );
    assert_eq!(ctx.seller_bond, before.seller_bond);
    assert_eq!(ctx.vault_bond, before.vault_bond);
    assert_eq!(ctx, before);
}

#[test]
fn sell_to_a_vault_with_exactly_the_total() {
    let mut ctx = sale(200, false, 5, 600);
    assert!(sebi::instructions::sell::handler(&mut ctx, 3).is_ok());
    assert_eq!(ctx.vault_usdc.amount, 0);
    assert_eq!(ctx.seller_usdc.amount, 600);
}

#[test]
fn sell_without_the_bonds_fails_before_the_funds_check() {
    let mut ctx = sale(200, false, 2, 0);
    let before = ctx;
    assert_eq!(
        sebi::instructions::sell::handler(&mut ctx, 3),
        Err(Error::Transfer(TransferError::InsufficientFunds))
    );
    assert_eq!(ctx, before);
}

#[test]
fn sell_that_would_overflow_the_seller_takes_back_the_bonds() {
    let mut ctx = sale(200, false, 5, 1_000);
    ctx.seller_usdc.amount = u64::MAX - 599;
    let before = ctx;
    assert_eq!(
        sebi::instructions::sell::handler(&mut ctx, 3),
        Err(Error::Transfer(TransferError::Overflow))
    );
    assert_eq!(ctx, before);
}

#[test]
fn buy_then_sell_restores_every_balance() {
    let mut bought = purchase(1_000_000, false, 7_000_000, 8);
    bought.vault_usdc.amount = 123;
    bought.buyer_bond.amount = 45;
    let before = bought;
    sebi::instructions::buy::handler(&mut bought, 5).unwrap();
    assert_ne!(bought, before);
    let mut sold = Sell {
        market: bought.market,
        seller: bought.buyer,
        seller_bond: bought.buyer_bond,
        seller_usdc: bought.buyer_usdc,
        vault_bond: bought.vault_bond,
        vault_usdc: bought.vault_usdc,
    };
    sebi::instructions::sell::handler(&mut sold, 5).unwrap();
    assert_eq!(sold.seller_bond, before.buyer_bond);
    assert_eq!(sold.seller_usdc, before.buyer_usdc);
    assert_eq!(sold.vault_bond, before.vault_bond);
    assert_eq!(sold.vault_usdc, before.vault_usdc);
    assert_eq!(sold.market, before.market);
}
