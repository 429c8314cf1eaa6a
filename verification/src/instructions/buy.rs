use vstd::prelude::*;
use crate::errors::{ConstraintError, Error, MarketError};
use crate::price::{total_fits, total_price, total_value};
use crate::pubkey::Pubkey;
use crate::state::Market;
use crate::token::{movement, transfer, transfer_refusal, TokenAccount, Transfer};

verus! {

/// The accounts of a purchase: the market, the buyer with the two holdings
/// that pay and receive, and the market's two vaults.
#[derive(Clone, Copy, Debug, PartialEq, Eq)]
pub struct Buy {
    pub market: Market,
    /// The buyer, who authorizes the payment.
    pub buyer: Pubkey,
    pub buyer_usdc: TokenAccount,
    pub buyer_bond: TokenAccount,
    pub vault_usdc: TokenAccount,
    pub vault_bond: TokenAccount,
}

/// The record of one completed trade.
#[derive(Clone, Copy, Debug, PartialEq, Eq)]
pub struct TradeEvent {
    pub market: Pubkey,
    pub trader: Pubkey,
    pub side: TradeSide,
    /// The quantity of bond units traded.
    pub amount: u64,
    /// The price per unit at which they were traded.
    pub price: u128,
}

/// What a completed trade did: its two movements, in the order in which
/// they were made, and its record.
#[derive(Clone, Copy, Debug, PartialEq, Eq)]
pub struct Settlement {
    pub first: Transfer,
    pub second: Transfer,
    pub event: TradeEvent,
}

/// The direction of a trade, seen from the trader.
#[derive(Clone, Copy, Debug, PartialEq, Eq, Structural)]
pub enum TradeSide {
    Buy,
    Sell,
}

impl Buy {
    /// The first relationship among the accounts that does not hold, if any.
    /// In order: the market's address is the derived one (`address_derived`
    /// says whether it is); both of the buyer's holdings are owned by the
    /// buyer, the paying one first; both vaults are the ones recorded in the
    /// market, the stable one first.
    pub open spec fn violation(self, address_derived: bool) -> Option<Error> {
        if !address_derived {
            Some(Error::Constraint(ConstraintError::Seeds))
        } else if self.buyer_usdc.owner != self.buyer {
            Some(Error::Constraint(ConstraintError::TokenOwner))
        } else if self.buyer_bond.owner != self.buyer {
            Some(Error::Constraint(ConstraintError::TokenOwner))
        } else if self.vault_usdc.key != self.market.vault_usdc {
            Some(Error::Constraint(ConstraintError::Address))
        } else if self.vault_bond.key != self.market.vault_bond {
            Some(Error::Constraint(ConstraintError::Address))
        } else {
            None
        }
    }

    /// Checks the relationships among the accounts, given the address that
    /// the market's bond asset and bump seed derive.
    pub fn validate(&self, derived: Option<Pubkey>) -> (result: Result<(), Error>)
        ensures
            result == match self.violation(derived == Some(self.market.key)) {
                Some(e) => Err::<(), Error>(e),
                None => Ok::<(), Error>(()),
            },
    {
        match derived {
            None => {
                return Err(Error::Constraint(ConstraintError::Seeds));
            },
            Some(key) => {
                if key != self.market.key {
                    return Err(Error::Constraint(ConstraintError::Seeds));
                }
            },
        }
        if self.buyer_usdc.owner != self.buyer {
            return Err(Error::Constraint(ConstraintError::TokenOwner));
        }
        if self.buyer_bond.owner != self.buyer {
            return Err(Error::Constraint(ConstraintError::TokenOwner));
        }
        if self.vault_usdc.key != self.market.vault_usdc {
            return Err(Error::Constraint(ConstraintError::Address));
        }
        if self.vault_bond.key != self.market.vault_bond {
            return Err(Error::Constraint(ConstraintError::Address));
        }
        Ok(())
    }

    /// What the buyer pays for `amount` units, where that fits a transfer.
    pub open spec fn total(self, amount: u64) -> u64
        recommends
            total_fits(self.market.price_per_token, amount),
    {
        total_value(self.market.price_per_token, amount) as u64
    }

    /// Why a purchase of `amount` units is refused, or `None` if it is
    /// carried out. In order: the market is paused; the total overflows; the
    /// payment from the buyer to the stable vault is refused; the delivery
    /// from the bond vault to the buyer, which the market itself authorizes,
    /// is refused.
    pub open spec fn refusal(self, amount: u64) -> Option<Error> {
        if self.market.paused {
            Some(Error::Market(MarketError::MarketPaused))
        } else if !total_fits(self.market.price_per_token, amount) {
            Some(Error::Market(MarketError::MathOverflow))
        } else {
            match transfer_refusal(
                self.buyer_usdc,
                self.vault_usdc,
                self.buyer,
                self.total(amount),
            ) {
                Some(e) => Some(Error::Transfer(e)),
                None => match transfer_refusal(
                    self.vault_bond,
                    self.buyer_bond,
                    self.market.key,
                    amount,
                ) {
                    Some(e) => Some(Error::Transfer(e)),
                    None => None,
                },
            }
        }
    }

    /// The accounts after a purchase of `amount` units that is carried out:
    /// the total has moved from the buyer to the stable vault, and `amount`
    /// bond units from the bond vault to the buyer.
    pub open spec fn settled(self, amount: u64) -> Buy {
        Buy {
            buyer_usdc: self.buyer_usdc.debited(self.total(amount)),
            vault_usdc: self.vault_usdc.credited(self.total(amount)),
            vault_bond: self.vault_bond.debited(amount),
            buyer_bond: self.buyer_bond.credited(amount),
            ..self
        }
    }

    /// The payment for `amount` units: the total, from the buyer's stable
    /// holding to the stable vault, authorized by the buyer.
    pub open spec fn payment(self, amount: u64) -> Transfer {
        movement(self.buyer_usdc, self.vault_usdc, self.buyer, self.total(amount))
    }

    /// The delivery of `amount` units: from the bond vault to the buyer's
    /// bond holding, authorized by the market itself.
    pub open spec fn delivery(self, amount: u64) -> Transfer {
        movement(self.vault_bond, self.buyer_bond, self.market.key, amount)
    }

    /// What a purchase of `amount` units that is carried out did: the
    /// payment, then the delivery, and the record.
    pub open spec fn settlement(self, amount: u64) -> Settlement {
        Settlement {
            first: self.payment(amount),
            second: self.delivery(amount),
            event: self.event(amount),
        }
    }

    /// The record of a purchase of `amount` units.
    pub open spec fn event(self, amount: u64) -> TradeEvent {
        TradeEvent {
            market: self.market.key,
            trader: self.buyer,
            side: TradeSide::Buy,
            amount,
            price: self.market.price_per_token,
        }
    }
}

/// Buys `amount` bond units at the market's price: the buyer pays the total
/// into the stable vault and receives the units from the bond vault.
///
/// Both transfers happen or neither does: a refused purchase leaves every
/// account as it was.
pub fn handler(ctx: &mut Buy, amount: u64) -> (result: Result<Settlement, Error>)
    ensures
        match old(ctx).refusal(amount) {
            Some(e) => result == Err::<Settlement, Error>(e) && *final(ctx) == *old(ctx),
            None => result == Ok::<Settlement, Error>(old(ctx).settlement(amount))
                && *final(ctx) == old(ctx).settled(amount),
        },
        old(ctx).market.paused ==> result == Err::<Settlement, Error>(
            Error::Market(MarketError::MarketPaused),
        ) && *final(ctx) == *old(ctx),
        !old(ctx).market.paused && !total_fits(old(ctx).market.price_per_token, amount) ==> result
            == Err::<Settlement, Error>(Error::Market(MarketError::MathOverflow)) && *final(ctx)
            == *old(ctx),
        final(ctx).market == old(ctx).market,
{
    if ctx.market.paused {
        return Err(Error::Market(MarketError::MarketPaused));
    }
    let price: u128 = ctx.market.price_per_token;
    let total: u64 = match total_price(price, amount) {
        Ok(total) => total,
        Err(e) => {
            return Err(Error::Market(e));
        },
    };
    let mut buyer_usdc = ctx.buyer_usdc;
    let mut vault_usdc = ctx.vault_usdc;
    let mut vault_bond = ctx.vault_bond;
    let mut buyer_bond = ctx.buyer_bond;
    let payment = match transfer(&mut buyer_usdc, &mut vault_usdc, &ctx.buyer, total) {
        Ok(made) => made,
        Err(e) => {
            return Err(Error::Transfer(e));
        },
    };
    let delivery = match transfer(&mut vault_bond, &mut buyer_bond, &ctx.market.key, amount) {
        Ok(made) => made,
        Err(e) => {
            return Err(Error::Transfer(e));
        },
    };
    ctx.buyer_usdc = buyer_usdc;
    ctx.vault_usdc = vault_usdc;
    ctx.vault_bond = vault_bond;
    ctx.buyer_bond = buyer_bond;
    Ok(
        Settlement {
            first: payment,
            second: delivery,
            event: TradeEvent {
                market: ctx.market.key,
                trader: ctx.buyer,
                side: TradeSide::Buy,
                amount,
                price,
            },
        },
    )
}

} // verus!
