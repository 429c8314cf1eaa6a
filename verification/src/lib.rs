//! A fixed-price exchange for one bond/stable asset pair.
//!
//! An administrator creates a market for a bond asset and sets its price;
//! anyone may then buy or sell bond units against the stable asset at that
//! price. The funds lie in two vaults that only the market itself controls.
//!
//! Each operation first checks that the accounts handed to it fit together,
//! then runs its handler from [`instructions`]. An operation is carried out
//! whole or not at all.

use vstd::prelude::*;

pub mod address;
pub mod errors;
pub mod instructions;
pub mod price;
pub mod pubkey;
pub mod state;
pub mod theorems;
pub mod token;

pub use crate::instructions::buy::Buy;
pub use crate::instructions::initialize::InitializeMarket;
pub use crate::instructions::pause::Pause;
pub use crate::instructions::sell::Sell;
pub use crate::instructions::update_price::UpdatePrice;
pub use crate::instructions::withdraw::Withdraw;

use crate::errors::{ConstraintError, Error, MarketError};
use crate::instructions::buy::Settlement;
use crate::token::Transfer;
use crate::pubkey::Pubkey;
use crate::state::{find_market_address, has_market_bump, is_market_bump, market_address};

verus! {

/// Creates the market for the bond asset named in `ctx`, at the address
/// derived from that asset, with two empty vaults under the market's own
/// authority, and at the price `price_per_token`.
///
/// Fails with `Seeds`, changing nothing, only if no bump seed derives an
/// address for the asset.
pub fn initialize_market(ctx: &mut InitializeMarket, price_per_token: u128) -> (result: Result<
    (),
    Error,
>)
    ensures
        result is Ok <==> has_market_bump(old(ctx).bond_mint),
        result is Ok ==> {
            &&& is_market_bump(old(ctx).bond_mint, final(ctx).market.bump)
            &&& market_address(old(ctx).bond_mint, final(ctx).market.bump) == Some(
                final(ctx).market.key@,
            )
            &&& *final(ctx) == old(ctx).created(final(ctx).market.key).settled(
                price_per_token,
                final(ctx).market.bump,
            )
        },
        result is Ok ==> {
            &&& final(ctx).market.address_is_derived()
            &&& !final(ctx).market.paused
            &&& final(ctx).market.admin == old(ctx).admin
            &&& final(ctx).vault_bond.owner == final(ctx).market.key
            &&& final(ctx).vault_usdc.owner == final(ctx).market.key
            &&& final(ctx).vault_bond.amount == 0
            &&& final(ctx).vault_usdc.amount == 0
        },
        result is Err ==> result == Err::<(), Error>(Error::Constraint(ConstraintError::Seeds))
            && *final(ctx) == *old(ctx),
{
    match find_market_address(&ctx.bond_mint) {
        None => Err(Error::Constraint(ConstraintError::Seeds)),
        Some((key, bump)) => {
            ctx.create(key);
            crate::instructions::initialize::handler(ctx, price_per_token, bump)
        },
    }
}

/// Buys `amount` bond units for the buyer named in `ctx`.
///
/// The accounts are checked first, against the address that the market's
/// bond asset and bump seed derive; then the purchase is carried out as
/// [`instructions::buy::handler`] says.
pub fn buy(ctx: &mut Buy, amount: u64) -> (result: Result<Settlement, Error>)
    ensures
        match old(ctx).violation(old(ctx).market.address_is_derived()) {
            Some(e) => result == Err::<Settlement, Error>(e) && *final(ctx) == *old(ctx),
            None => match old(ctx).refusal(amount) {
                Some(e) => result == Err::<Settlement, Error>(e) && *final(ctx) == *old(ctx),
                None => result == Ok::<Settlement, Error>(old(ctx).settlement(amount))
                    && *final(ctx) == old(ctx).settled(amount),
            },
        },
        result is Err ==> *final(ctx) == *old(ctx),
        old(ctx).market.paused ==> result is Err,
        old(ctx).market.paused && old(ctx).violation(old(ctx).market.address_is_derived())
            is None ==> result == Err::<Settlement, Error>(
            Error::Market(MarketError::MarketPaused),
        ),
        final(ctx).market == old(ctx).market,
{
    let derived = ctx.market.derived_key();
    proof {
        if let Some(key) = derived {
            Pubkey::lemma_view_injective(key, ctx.market.key);
        }
    }
    match ctx.validate(derived) {
        Ok(()) => {},
        Err(e) => {
            return Err(e);
        },
    }
    crate::instructions::buy::handler(ctx, amount)
}

/// Sells `amount` bond units for the seller named in `ctx`.
///
/// The accounts are checked first, against the address that the market's
/// bond asset and bump seed derive; then the sale is carried out as
/// [`instructions::sell::handler`] says.
pub fn sell(ctx: &mut Sell, amount: u64) -> (result: Result<Settlement, Error>)
    ensures
        match old(ctx).violation(old(ctx).market.address_is_derived()) {
            Some(e) => result == Err::<Settlement, Error>(e) && *final(ctx) == *old(ctx),
            None => match old(ctx).refusal(amount) {
                Some(e) => result == Err::<Settlement, Error>(e) && *final(ctx) == *old(ctx),
                None => result == Ok::<Settlement, Error>(old(ctx).settlement(amount))
                    && *final(ctx) == old(ctx).settled(amount),
            },
        },
        result is Err ==> *final(ctx) == *old(ctx),
        old(ctx).market.paused ==> result is Err,
        old(ctx).market.paused && old(ctx).violation(old(ctx).market.address_is_derived())
            is None ==> result == Err::<Settlement, Error>(
            Error::Market(MarketError::MarketPaused),
        ),
        final(ctx).market == old(ctx).market,
{
    let derived = ctx.market.derived_key();
    proof {
        if let Some(key) = derived {
            Pubkey::lemma_view_injective(key, ctx.market.key);
        }
    }
    match ctx.validate(derived) {
        Ok(()) => {},
        Err(e) => {
            return Err(e);
        },
    }
    crate::instructions::sell::handler(ctx, amount)
}

/// Sets the market's price to `new_price`, for its administrator only.
///
/// That the caller is the administrator is tested twice, once among the
/// accounts and once by the handler; each test alone refuses another caller.
pub fn update_price(ctx: &mut UpdatePrice, new_price: u128) -> (result: Result<(), Error>)
    ensures
        old(ctx).authorized() ==> result == Ok::<(), Error>(()) && *final(ctx) == old(
            ctx,
        ).settled(new_price),
        !old(ctx).authorized() ==> result == Err::<(), Error>(
            Error::Market(MarketError::Unauthorized),
        ) && *final(ctx) == *old(ctx),
        result is Ok ==> old(ctx).authorized(),
        final(ctx).market.same_identity(old(ctx).market),
{
    match ctx.validate() {
        Ok(()) => {},
        Err(e) => {
            return Err(e);
        },
    }
    crate::instructions::update_price::handler(ctx, new_price)
}

/// Flips the market's pause flag, for its administrator only.
///
/// That the caller is the administrator is tested twice, once among the
/// accounts and once by the handler; each test alone refuses another caller.
pub fn pause(ctx: &mut Pause) -> (result: Result<(), Error>)
    ensures
        old(ctx).authorized() ==> result == Ok::<(), Error>(()) && *final(ctx) == old(
            ctx,
        ).settled(),
        !old(ctx).authorized() ==> result == Err::<(), Error>(
            Error::Market(MarketError::Unauthorized),
        ) && *final(ctx) == *old(ctx),
        result is Ok ==> old(ctx).authorized(),
        final(ctx).market.same_identity(old(ctx).market),
{
    match ctx.validate() {
        Ok(()) => {},
        Err(e) => {
            return Err(e);
        },
    }
    crate::instructions::pause::handler(ctx)
}

/// Withdraws `amount` from the stable vault (`is_usdc`) or the bond vault
/// (not `is_usdc`) to the administrator's holding.
///
/// That the caller is the administrator is tested twice, once among the
/// accounts and once by the handler; each test alone refuses another caller.
pub fn withdraw(ctx: &mut Withdraw, amount: u64, is_usdc: bool) -> (result: Result<Transfer, Error>)
    ensures
        match old(ctx).violation() {
            Some(e) => result == Err::<Transfer, Error>(e) && *final(ctx) == *old(ctx),
            None => match old(ctx).refusal(amount, is_usdc) {
                Some(e) => result == Err::<Transfer, Error>(e) && *final(ctx) == *old(ctx),
                None => result == Ok::<Transfer, Error>(old(ctx).payout(amount, is_usdc))
                    && *final(ctx) == old(ctx).settled(amount, is_usdc),
            },
        },
        !old(ctx).authorized() ==> result == Err::<Transfer, Error>(
            Error::Market(MarketError::Unauthorized),
        ),
        result is Ok ==> old(ctx).authorized(),
        result is Err ==> *final(ctx) == *old(ctx),
        final(ctx).market == old(ctx).market,
{
    match ctx.validate() {
        Ok(()) => {},
        Err(e) => {
            return Err(e);
        },
    }
    crate::instructions::withdraw::handler(ctx, amount, is_usdc)
}

} // verus!
