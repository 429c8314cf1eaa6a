//! What holds across the operations of the exchange, proved from the
//! handlers' own descriptions.

use vstd::prelude::*;
use crate::instructions::buy::Buy;
use crate::instructions::pause::Pause;
use crate::instructions::sell::Sell;
use crate::instructions::withdraw::Withdraw;
use crate::state::Market;

verus! {

/// The accounts of the sale by which the buyer of `bought` gives back what
/// was bought: the same market and vaults, the buyer as the seller.
pub open spec fn resale(bought: Buy) -> Sell {
    Sell {
        market: bought.market,
        seller: bought.buyer,
        seller_bond: bought.buyer_bond,
        seller_usdc: bought.buyer_usdc,
        vault_bond: bought.vault_bond,
        vault_usdc: bought.vault_usdc,
    }
}

/// Buying and then selling the same quantity at an unchanged price undoes
/// the purchase.
///
/// Where a purchase of `amount` is carried out on `ctx`, the buyer owns the
/// bond holding that received, and the market owns its stable vault, the sale
/// of `amount` by the buyer on the accounts as the purchase left them is
/// carried out too, and leaves both of the trader's holdings and both vaults
/// as they were before the purchase. The vaults are funded for it by the
/// purchase itself.
pub proof fn lemma_buy_then_sell_restores(ctx: Buy, amount: u64)
    requires
        ctx.refusal(amount) is None,
        ctx.buyer_bond.owner == ctx.buyer,
        ctx.vault_usdc.owner == ctx.market.key,
    ensures
        resale(ctx.settled(amount)).refusal(amount) is None,
        resale(ctx.settled(amount)).settled(amount) == resale(ctx),
        forall|address_derived: bool|
            ctx.violation(address_derived) is None ==> resale(ctx.settled(amount)).violation(
                address_derived,
            ) is None,
{
}

/// A trade moves assets and neither makes nor destroys them.
///
/// Where a purchase or a sale is carried out, the bond units of the trader
/// and the bond vault together are as many after it as before, and so are
/// the stable units of the trader and the stable vault.
pub proof fn lemma_trades_conserve_assets(buy: Buy, sell: Sell, amount: u64)
    ensures
        buy.refusal(amount) is None ==> {
            &&& buy.settled(amount).buyer_bond.amount + buy.settled(amount).vault_bond.amount
                == buy.buyer_bond.amount + buy.vault_bond.amount
            &&& buy.settled(amount).buyer_usdc.amount + buy.settled(amount).vault_usdc.amount
                == buy.buyer_usdc.amount + buy.vault_usdc.amount
        },
        sell.refusal(amount) is None ==> {
            &&& sell.settled(amount).seller_bond.amount + sell.settled(amount).vault_bond.amount
                == sell.seller_bond.amount + sell.vault_bond.amount
            &&& sell.settled(amount).seller_usdc.amount + sell.settled(amount).vault_usdc.amount
                == sell.seller_usdc.amount + sell.vault_usdc.amount
        },
{
}

/// Whether the market is paused plays no part in a withdrawal.
///
/// A withdrawal on a paused market is refused, or carried out, exactly as
/// the same withdrawal on the market unpaused.
pub proof fn lemma_withdraw_ignores_pause(ctx: Withdraw, amount: u64, is_usdc: bool)
    ensures
        (Withdraw { market: Market { paused: true, ..ctx.market }, ..ctx }).refusal(
            amount,
            is_usdc,
        ) == (Withdraw { market: Market { paused: false, ..ctx.market }, ..ctx }).refusal(
            amount,
            is_usdc,
        ),
        (Withdraw { market: Market { paused: true, ..ctx.market }, ..ctx }).violation() == (Withdraw {
            market: Market { paused: false, ..ctx.market },
            ..ctx
        }).violation(),
{
}

/// Toggling the pause flag twice restores the market.
///
/// For the administrator both toggles are carried out, the market after the
/// second is the market before the first, and so a trade is refused after
/// them exactly as it was before.
pub proof fn lemma_pause_twice_restores(ctx: Pause, buy: Buy, sell: Sell, amount: u64)
    requires
        ctx.authorized(),
    ensures
        ctx.settled().authorized(),
        ctx.settled().market.paused == !ctx.market.paused,
        ctx.settled().settled() == ctx,
        (Buy { market: ctx.settled().settled().market, ..buy }).refusal(amount) == (Buy {
            market: ctx.market,
            ..buy
        }).refusal(amount),
        (Sell { market: ctx.settled().settled().market, ..sell }).refusal(amount) == (Sell {
            market: ctx.market,
            ..sell
        }).refusal(amount),
{
}

} // verus!
