use vstd::prelude::*;
use crate::errors::{Error, MarketError};
use crate::pubkey::Pubkey;
use crate::state::Market;

verus! {

/// The accounts of a pause toggle: the market and the caller who claims to
/// administer it.
#[derive(Clone, Copy, Debug, PartialEq, Eq)]
pub struct Pause {
    pub market: Market,
    pub admin: Pubkey,
}

impl Pause {
    /// Whether the caller is the market's recorded administrator.
    pub open spec fn authorized(self) -> bool {
        self.admin == self.market.admin
    }

    /// The relationship among the accounts that does not hold, if any: the
    /// market must name the caller as its administrator.
    pub open spec fn violation(self) -> Option<Error> {
        if self.market.admin != self.admin {
            Some(Error::Market(MarketError::Unauthorized))
        } else {
            None
        }
    }

    /// Checks that the market names the caller as its administrator.
    pub fn validate(&self) -> (result: Result<(), Error>)
        ensures
            result == match self.violation() {
                Some(e) => Err::<(), Error>(e),
                None => Ok::<(), Error>(()),
            },
    {
        if self.market.admin != self.admin {
            return Err(Error::Market(MarketError::Unauthorized));
        }
        Ok(())
    }

    /// The accounts after a toggle that is carried out: the pause flag is
    /// flipped, and nothing else changes.
    pub open spec fn settled(self) -> Pause {
        Pause { market: Market { paused: !self.market.paused, ..self.market }, ..self }
    }
}

/// Flips the market's pause flag, for its administrator only.
///
/// The flag is toggled, not set: a paused market trades again after the
/// call, a trading one is paused.
pub fn handler(ctx: &mut Pause) -> (result: Result<(), Error>)
    ensures
        old(ctx).authorized() ==> result == Ok::<(), Error>(()) && *final(ctx) == old(
            ctx,
        ).settled(),
        !old(ctx).authorized() ==> result == Err::<(), Error>(
            Error::Market(MarketError::Unauthorized),
        ) && *final(ctx) == *old(ctx),
        result is Ok ==> old(ctx).authorized(),
        final(ctx).market.same_identity(old(ctx).market),
{
    if ctx.admin != ctx.market.admin {
        return Err(Error::Market(MarketError::Unauthorized));
    }
    ctx.market.paused = !ctx.market.paused;
    Ok(())
}

} // verus!
