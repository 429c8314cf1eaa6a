use vstd::prelude::*;
use crate::errors::TransferError;
use crate::pubkey::Pubkey;

verus! {

/// A holding: a balance of one asset, kept at an address for an owner.
///
/// Only the owner may authorize a debit.
#[derive(Clone, Copy, Debug, PartialEq, Eq)]
pub struct TokenAccount {
    /// The address of the holding itself.
    pub key: Pubkey,
    /// The asset held.
    pub mint: Pubkey,
    /// The identity that controls the holding.
    pub owner: Pubkey,
    /// The balance, in the asset's smallest unit.
    pub amount: u64,
}

/// One movement of an asset: `amount` from the holding at `from` to the
/// holding at `to`, authorized by `authority`.
#[derive(Clone, Copy, Debug, PartialEq, Eq)]
pub struct Transfer {
    pub from: Pubkey,
    pub to: Pubkey,
    pub authority: Pubkey,
    pub amount: u64,
}

impl TokenAccount {
    /// This holding with `amount` taken out.
    pub open spec fn debited(self, amount: u64) -> TokenAccount
        recommends
            amount <= self.amount,
    {
        TokenAccount { amount: (self.amount - amount) as u64, ..self }
    }

    /// This holding with `amount` put in.
    pub open spec fn credited(self, amount: u64) -> TokenAccount
        recommends
            self.amount + amount <= u64::MAX,
    {
        TokenAccount { amount: (self.amount + amount) as u64, ..self }
    }
}

/// Why custody refuses to move `amount` from `from` to `to` under
/// `authority`, or `None` if it does not refuse. The conditions are tested in
/// the order written.
pub open spec fn transfer_refusal(
    from: TokenAccount,
    to: TokenAccount,
    authority: Pubkey,
    amount: u64,
) -> Option<TransferError> {
    if from.amount < amount {
        Some(TransferError::InsufficientFunds)
    } else if from.mint != to.mint {
        Some(TransferError::MintMismatch)
    } else if from.owner != authority {
        Some(TransferError::OwnerMismatch)
    } else if to.amount + amount > u64::MAX {
        Some(TransferError::Overflow)
    } else {
        None
    }
}

/// The movement of `amount` from `from` to `to` under `authority`.
pub open spec fn movement(
    from: TokenAccount,
    to: TokenAccount,
    authority: Pubkey,
    amount: u64,
) -> Transfer {
    Transfer { from: from.key, to: to.key, authority, amount }
}

/// Moves `amount` from `from` to `to`, authorized by `authority`, and
/// returns the movement made.
///
/// Either both holdings change, by exactly `amount`, or neither does.
pub fn transfer(
    from: &mut TokenAccount,
    to: &mut TokenAccount,
    authority: &Pubkey,
    amount: u64,
) -> (result: Result<Transfer, TransferError>)
    ensures
        match transfer_refusal(*old(from), *old(to), *authority, amount) {
            Some(e) => {
                &&& result == Err::<Transfer, TransferError>(e)
                &&& *final(from) == *old(from)
                &&& *final(to) == *old(to)
            },
            None => {
                &&& result == Ok::<Transfer, TransferError>(
                    movement(*old(from), *old(to), *authority, amount),
                )
                &&& *final(from) == old(from).debited(amount)
                &&& *final(to) == old(to).credited(amount)
            },
        },
        final(from).amount + final(to).amount == old(from).amount + old(to).amount,
{
    if from.amount < amount {
        return Err(TransferError::InsufficientFunds);
    }
    if from.mint != to.mint {
        return Err(TransferError::MintMismatch);
    }
    if from.owner != *authority {
        return Err(TransferError::OwnerMismatch);
    }
    match to.amount.checked_add(amount) {
        None => Err(TransferError::Overflow),
        Some(credited) => {
            from.amount = from.amount - amount;
            to.amount = credited;
            Ok(Transfer { from: from.key, to: to.key, authority: *authority, amount })
        },
    }
}

} // verus!
