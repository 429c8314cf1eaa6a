use vstd::prelude::*;
use crate::errors::{ConstraintError, Error, MarketError};
use crate::instructions::buy::{Settlement, TradeEvent, TradeSide};
use crate::price::{total_fits, total_price, total_value};
use crate::pubkey::Pubkey;
use crate::state::Market;
use crate::token::{movement, transfer, transfer_refusal, TokenAccount, Transfer};

verus! {

/// The accounts of a sale: the market, the seller with the two holdings that
/// deliver and receive, and the market's two vaults.
#[derive(Clone, Copy, Debug, PartialEq, Eq)]
pub struct Sell {
    pub market: Market,
    /// The seller, who authorizes the delivery.
    pub seller: Pubkey,
    pub seller_bond: TokenAccount,
    pub seller_usdc: TokenAccount,
    pub vault_bond: TokenAccount,
    pub vault_usdc: TokenAccount,
}

impl Sell {
    /// The first relationship among the accounts that does not hold, if any.
    /// In order: the market's address is the derived one (`address_derived`
    /// says whether it is); both of the seller's holdings are owned by the
    /// seller, the delivering one first; both vaults are the ones recorded in
    /// the market, the bond one first.
    pub open spec fn violation(self, address_derived: bool) -> Option<Error> {
        if !address_derived {
            Some(Error::Constraint(ConstraintError::Seeds))
        } else if self.seller_bond.owner != self.seller {
            Some(Error::Constraint(ConstraintError::TokenOwner))
        } else if self.seller_usdc.owner != self.seller {
            Some(Error::Constraint(ConstraintError::TokenOwner))
        } else if self.vault_bond.key != self.market.vault_bond {
            Some(Error::Constraint(ConstraintError::Address))
        } else if self.vault_usdc.key != self.market.vault_usdc {
            Some(Error::Constraint(ConstraintError::Address))
        } else {
            None
        }
    }

    /// Checks the relationships among the accounts, given the address that
    /// the market's bond asset and bump seed derive.
    pub fn validate(&self, derived: Option<Pubkey>) -> (result: Result<(), Error>)
        ensures
            result == match self.violation(derived == Some(self.market.key)) {
                Some(e) => Err::<(), Error>(e),
                None => Ok::<(), Error>(()),
            },
    {
        match derived {
            None => {
                return Err(Error::Constraint(ConstraintError::Seeds));
            },
            Some(key) => {
                if key != self.market.key {
                    return Err(Error::Constraint(ConstraintError::Seeds));
                }
            },
        }
        if self.seller_bond.owner != self.seller {
            return Err(Error::Constraint(ConstraintError::TokenOwner));
        }
        if self.seller_usdc.owner != self.seller {
            return Err(Error::Constraint(ConstraintError::TokenOwner));
        }
        if self.vault_bond.key != self.market.vault_bond {
            return Err(Error::Constraint(ConstraintError::Address));
        }
        if self.vault_usdc.key != self.market.vault_usdc {
            return Err(Error::Constraint(ConstraintError::Address));
        }
        Ok(())
    }

    /// What the seller receives for `amount` units, where that fits a
    /// transfer.
    pub open spec fn total(self, amount: u64) -> u64
        recommends
            total_fits(self.market.price_per_token, amount),
    {
        total_value(self.market.price_per_token, amount) as u64
    }

    /// Whether the sale gets as far as the test of the stable vault's
    /// balance: the market trades, the total fits, and the delivery from the
    /// seller to the bond vault is not refused.
    pub open spec fn reaches_funds_check(self, amount: u64) -> bool {
        &&& !self.market.paused
        &&& total_fits(self.market.price_per_token, amount)
        &&& transfer_refusal(self.seller_bond, self.vault_bond, self.seller, amount) is None
    }

    /// Why a sale of `amount` units is refused, or `None` if it is carried
    /// out. In order: the market is paused; the total overflows; the delivery
    /// from the seller to the bond vault is refused; the stable vault holds
    /// less than the total; the payout from the stable vault to the seller,
    /// which the market itself authorizes, is refused.
    pub open spec fn refusal(self, amount: u64) -> Option<Error> {
        if self.market.paused {
            Some(Error::Market(MarketError::MarketPaused))
        } else if !total_fits(self.market.price_per_token, amount) {
            Some(Error::Market(MarketError::MathOverflow))
        } else {
            match transfer_refusal(self.seller_bond, self.vault_bond, self.seller, amount) {
                Some(e) => Some(Error::Transfer(e)),
                None => if self.vault_usdc.amount < self.total(amount) {
                    Some(Error::Market(MarketError::InsufficientVaultFunds))
                } else {
                    match transfer_refusal(
                        self.vault_usdc,
                        self.seller_usdc,
                        self.market.key,
                        self.total(amount),
                    ) {
                        Some(e) => Some(Error::Transfer(e)),
                        None => None,
                    }
                },
            }
        }
    }

    /// The accounts after a sale of `amount` units that is carried out:
    /// `amount` bond units have moved from the seller to the bond vault, and
    /// the total from the stable vault to the seller.
    pub open spec fn settled(self, amount: u64) -> Sell {
        Sell {
            seller_bond: self.seller_bond.debited(amount),
            vault_bond: self.vault_bond.credited(amount),
            vault_usdc: self.vault_usdc.debited(self.total(amount)),
            seller_usdc: self.seller_usdc.credited(self.total(amount)),
            ..self
        }
    }

    /// The delivery of `amount` units: from the seller's bond holding to the
    /// bond vault, authorized by the seller.
    pub open spec fn delivery(self, amount: u64) -> Transfer {
        movement(self.seller_bond, self.vault_bond, self.seller, amount)
    }

    /// The payout for `amount` units: the total, from the stable vault to the
    /// seller's stable holding, authorized by the market itself.
    pub open spec fn payout(self, amount: u64) -> Transfer {
        movement(self.vault_usdc, self.seller_usdc, self.market.key, self.total(amount))
    }

    /// What a sale of `amount` units that is carried out did: the delivery,
    /// then the payout, and the record.
    pub open spec fn settlement(self, amount: u64) -> Settlement {
        Settlement {
            first: self.delivery(amount),
            second: self.payout(amount),
            event: self.event(amount),
        }
    }

    /// The record of a sale of `amount` units.
    pub open spec fn event(self, amount: u64) -> TradeEvent {
        TradeEvent {
            market: self.market.key,
            trader: self.seller,
            side: TradeSide::Sell,
            amount,
            price: self.market.price_per_token,
        }
    }
}

/// Sells `amount` bond units at the market's price: the seller delivers the
/// units into the bond vault and receives the total from the stable vault.
///
/// The delivery, the test of the stable vault's balance and the payout are one
/// unit: a refused sale leaves every account as it was, the seller's bond
/// holding and the bond vault included.
pub fn handler(ctx: &mut Sell, amount: u64) -> (result: Result<Settlement, Error>)
    ensures
        match old(ctx).refusal(amount) {
            Some(e) => result == Err::<Settlement, Error>(e) && *final(ctx) == *old(ctx),
            None => result == Ok::<Settlement, Error>(old(ctx).settlement(amount))
                && *final(ctx) == old(ctx).settled(amount),
        },
        old(ctx).market.paused ==> result == Err::<Settlement, Error>(
            Error::Market(MarketError::MarketPaused),
        ) && *final(ctx) == *old(ctx),
        !old(ctx).market.paused && !total_fits(old(ctx).market.price_per_token, amount) ==> result
            == Err::<Settlement, Error>(Error::Market(MarketError::MathOverflow)) && *final(ctx)
            == *old(ctx),
        result == Err::<Settlement, Error>(Error::Market(MarketError::InsufficientVaultFunds)) <==> (
        old(ctx).reaches_funds_check(amount) && old(ctx).vault_usdc.amount < total_value(
            old(ctx).market.price_per_token,
            amount,
        )),
        result == Err::<Settlement, Error>(Error::Market(MarketError::InsufficientVaultFunds))
            ==> final(ctx).seller_bond == old(ctx).seller_bond && final(ctx).vault_bond == old(
            ctx,
        ).vault_bond,
        final(ctx).market == old(ctx).market,
{
    if ctx.market.paused {
        return Err(Error::Market(MarketError::MarketPaused));
    }
    let price: u128 = ctx.market.price_per_token;
    let total: u64 = match total_price(price, amount) {
        Ok(total) => total,
        Err(e) => {
            return Err(Error::Market(e));
        },
    };
    let mut seller_bond = ctx.seller_bond;
    let mut vault_bond = ctx.vault_bond;
    let mut vault_usdc = ctx.vault_usdc;
    let mut seller_usdc = ctx.seller_usdc;
    let delivery = match transfer(&mut seller_bond, &mut vault_bond, &ctx.seller, amount) {
        Ok(made) => made,
        Err(e) => {
            return Err(Error::Transfer(e));
        },
    };
    if ctx.vault_usdc.amount < total {
        return Err(Error::Market(MarketError::InsufficientVaultFunds));
    }
    let payout = match transfer(&mut vault_usdc, &mut seller_usdc, &ctx.market.key, total) {
        Ok(made) => made,
        Err(e) => {
            return Err(Error::Transfer(e));
        },
    };
    ctx.seller_bond = seller_bond;
    ctx.vault_bond = vault_bond;
    ctx.vault_usdc = vault_usdc;
    ctx.seller_usdc = seller_usdc;
    Ok(
        Settlement {
            first: delivery,
            second: payout,
            event: TradeEvent {
                market: ctx.market.key,
                trader: ctx.seller,
                side: TradeSide::Sell,
                amount,
                price,
            },
        },
    )
}

} // verus!
