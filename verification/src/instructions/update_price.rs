use vstd::prelude::*;
use crate::errors::{Error, MarketError};
use crate::pubkey::Pubkey;
use crate::state::Market;

verus! {

/// The accounts of a price change: the market and the caller who claims to
/// administer it.
#[derive(Clone, Copy, Debug, PartialEq, Eq)]
pub struct UpdatePrice {
    pub market: Market,
    pub admin: Pubkey,
}

impl UpdatePrice {
    /// Whether the caller is the market's recorded administrator.
    pub open spec fn authorized(self) -> bool {
        self.admin == self.market.admin
    }

    /// The relationship among the accounts that does not hold, if any: the
    /// market must name the caller as its administrator.
    pub open spec fn violation(self) -> Option<Error> {
        if self.market.admin != self.admin {
            Some(Error::Market(MarketError::Unauthorized))
        } else {
            None
        }
    }

    /// Checks that the market names the caller as its administrator.
    pub fn validate(&self) -> (result: Result<(), Error>)
        ensures
            result == match self.violation() {
                Some(e) => Err::<(), Error>(e),
                None => Ok::<(), Error>(()),
            },
    {
        if self.market.admin != self.admin {
            return Err(Error::Market(MarketError::Unauthorized));
        }
        Ok(())
    }

    /// The accounts after a price change that is carried out: the price is
    /// `new_price`, and nothing else changes.
    pub open spec fn settled(self, new_price: u128) -> UpdatePrice {
        UpdatePrice { market: Market { price_per_token: new_price, ..self.market }, ..self }
    }
}

/// Sets the market's price to `new_price`, for its administrator only.
///
/// Any price is accepted: zero, and one so large that every later trade
/// overflows, included.
pub fn handler(ctx: &mut UpdatePrice, new_price: u128) -> (result: Result<(), Error>)
    ensures
        old(ctx).authorized() ==> result == Ok::<(), Error>(()) && *final(ctx) == old(
            ctx,
        ).settled(new_price),
        !old(ctx).authorized() ==> result == Err::<(), Error>(
            Error::Market(MarketError::Unauthorized),
        ) && *final(ctx) == *old(ctx),
        result is Ok ==> old(ctx).authorized(),
        final(ctx).market.same_identity(old(ctx).market),
{
    if ctx.admin != ctx.market.admin {
        return Err(Error::Market(MarketError::Unauthorized));
    }
    ctx.market.price_per_token = new_price;
    Ok(())
}

} // verus!
