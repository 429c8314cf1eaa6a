use vstd::prelude::*;
use crate::errors::MarketError;

verus! {

/// The value of `amount` units at `price_per_token` each, as a mathematical
/// integer: no width limits it.
pub open spec fn total_value(price_per_token: u128, amount: u64) -> int {
    price_per_token * amount
}

/// Whether the value of a trade can be moved in one transfer, whose amount
/// is 64 bits wide. A value that overflows 128 bits does not fit either.
pub open spec fn total_fits(price_per_token: u128, amount: u64) -> bool {
    total_value(price_per_token, amount) <= u64::MAX
}

/// The total price of `amount` units at `price_per_token` each.
///
/// Fails with `MathOverflow` exactly when the product overflows 128 bits or
/// does not fit the 64 bits of a transfer amount.
pub fn total_price(price_per_token: u128, amount: u64) -> (result: Result<u64, MarketError>)
    ensures
        total_fits(price_per_token, amount) ==> result == Ok::<u64, MarketError>(
            total_value(price_per_token, amount) as u64,
        ),
        !total_fits(price_per_token, amount) ==> result == Err::<u64, MarketError>(
            MarketError::MathOverflow,
        ),
{
    let amount_u128: u128 = u128::from(amount);
    match price_per_token.checked_mul(amount_u128) {
        None => Err(MarketError::MathOverflow),
        Some(total_u128) => match u64::try_from(total_u128) {
            Ok(total_u64) => Ok(total_u64),
            Err(_) => Err(MarketError::MathOverflow),
        },
    }
}

} // verus!
