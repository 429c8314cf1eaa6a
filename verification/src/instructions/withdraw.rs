use vstd::prelude::*;
use crate::errors::{ConstraintError, Error, MarketError};
use crate::pubkey::Pubkey;
use crate::state::Market;
use crate::token::{movement, transfer, transfer_refusal, TokenAccount, Transfer};

verus! {

/// The accounts of a withdrawal: the market, the caller who claims to
/// administer it, the holding that receives, and the market's two vaults.
#[derive(Clone, Copy, Debug, PartialEq, Eq)]
pub struct Withdraw {
    pub market: Market,
    pub admin: Pubkey,
    pub destination: TokenAccount,
    pub vault_bond: TokenAccount,
    pub vault_usdc: TokenAccount,
}

impl Withdraw {
    /// Whether the caller is the market's recorded administrator.
    pub open spec fn authorized(self) -> bool {
        self.admin == self.market.admin
    }

    /// The first relationship among the accounts that does not hold, if any.
    /// In order: the market names the caller as its administrator; the
    /// destination is owned by the caller; both vaults are the ones recorded
    /// in the market, the bond one first.
    pub open spec fn violation(self) -> Option<Error> {
        if self.market.admin != self.admin {
            Some(Error::Market(MarketError::Unauthorized))
        } else if self.destination.owner != self.admin {
            Some(Error::Constraint(ConstraintError::TokenOwner))
        } else if self.vault_bond.key != self.market.vault_bond {
            Some(Error::Constraint(ConstraintError::Address))
        } else if self.vault_usdc.key != self.market.vault_usdc {
            Some(Error::Constraint(ConstraintError::Address))
        } else {
            None
        }
    }

    /// Checks the relationships among the accounts.
    pub fn validate(&self) -> (result: Result<(), Error>)
        ensures
            result == match self.violation() {
                Some(e) => Err::<(), Error>(e),
                None => Ok::<(), Error>(()),
            },
    {
        if self.market.admin != self.admin {
            return Err(Error::Market(MarketError::Unauthorized));
        }
        if self.destination.owner != self.admin {
            return Err(Error::Constraint(ConstraintError::TokenOwner));
        }
        if self.vault_bond.key != self.market.vault_bond {
            return Err(Error::Constraint(ConstraintError::Address));
        }
        if self.vault_usdc.key != self.market.vault_usdc {
            return Err(Error::Constraint(ConstraintError::Address));
        }
        Ok(())
    }

    /// The vault that a withdrawal draws on: the stable one if `is_usdc`, the
    /// bond one if not.
    pub open spec fn source(self, is_usdc: bool) -> TokenAccount {
        if is_usdc {
            self.vault_usdc
        } else {
            self.vault_bond
        }
    }

    /// Why a withdrawal of `amount` is refused, or `None` if it is carried
    /// out. In order: the caller is not the administrator; the transfer from
    /// the chosen vault to the destination, which the market itself
    /// authorizes, is refused. Whether the market is paused plays no part.
    pub open spec fn refusal(self, amount: u64, is_usdc: bool) -> Option<Error> {
        if !self.authorized() {
            Some(Error::Market(MarketError::Unauthorized))
        } else {
            match transfer_refusal(
                self.source(is_usdc),
                self.destination,
                self.market.key,
                amount,
            ) {
                Some(e) => Some(Error::Transfer(e)),
                None => None,
            }
        }
    }

    /// The movement that a withdrawal of `amount` makes: from the chosen
    /// vault to the destination, authorized by the market itself.
    pub open spec fn payout(self, amount: u64, is_usdc: bool) -> Transfer {
        movement(self.source(is_usdc), self.destination, self.market.key, amount)
    }

    /// The accounts after a withdrawal of `amount` that is carried out:
    /// `amount` has moved from the chosen vault to the destination.
    pub open spec fn settled(self, amount: u64, is_usdc: bool) -> Withdraw {
        if is_usdc {
            Withdraw {
                vault_usdc: self.vault_usdc.debited(amount),
                destination: self.destination.credited(amount),
                ..self
            }
        } else {
            Withdraw {
                vault_bond: self.vault_bond.debited(amount),
                destination: self.destination.credited(amount),
                ..self
            }
        }
    }
}

/// Moves `amount` from the stable vault (`is_usdc`) or the bond vault (not
/// `is_usdc`) to the destination, for the market's administrator only.
///
/// Returns the movement made. A refused withdrawal leaves every account as
/// it was.
pub fn handler(ctx: &mut Withdraw, amount: u64, is_usdc: bool) -> (result: Result<Transfer, Error>)
    ensures
        match old(ctx).refusal(amount, is_usdc) {
            Some(e) => result == Err::<Transfer, Error>(e) && *final(ctx) == *old(ctx),
            None => result == Ok::<Transfer, Error>(old(ctx).payout(amount, is_usdc))
                && *final(ctx) == old(ctx).settled(amount, is_usdc),
        },
        !old(ctx).authorized() ==> result == Err::<Transfer, Error>(
            Error::Market(MarketError::Unauthorized),
        ) && *final(ctx) == *old(ctx),
        result is Ok ==> old(ctx).authorized(),
        final(ctx).market == old(ctx).market,
{
    if ctx.admin != ctx.market.admin {
        return Err(Error::Market(MarketError::Unauthorized));
    }
    let mut destination = ctx.destination;
    let payout = if is_usdc {
        let mut vault_usdc = ctx.vault_usdc;
        let made = match transfer(&mut vault_usdc, &mut destination, &ctx.market.key, amount) {
            Ok(made) => made,
            Err(e) => {
                return Err(Error::Transfer(e));
            },
        };
        ctx.vault_usdc = vault_usdc;
        made
    } else {
        let mut vault_bond = ctx.vault_bond;
        let made = match transfer(&mut vault_bond, &mut destination, &ctx.market.key, amount) {
            Ok(made) => made,
            Err(e) => {
                return Err(Error::Transfer(e));
            },
        };
        ctx.vault_bond = vault_bond;
        made
    };
    ctx.destination = destination;
    Ok(payout)
}

} // verus!
