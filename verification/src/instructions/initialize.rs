use vstd::prelude::*;
use crate::errors::Error;
use crate::pubkey::Pubkey;
use crate::state::Market;
use crate::token::TokenAccount;

verus! {

/// The accounts of a market's creation: the record to fill, the two assets,
/// the two vaults to set up, and the administrator who creates it.
#[derive(Clone, Copy, Debug, PartialEq, Eq)]
pub struct InitializeMarket {
    pub market: Market,
    pub bond_mint: Pubkey,
    pub usdc_mint: Pubkey,
    pub vault_bond: TokenAccount,
    pub vault_usdc: TokenAccount,
    pub admin: Pubkey,
}

impl InitializeMarket {
    /// The accounts once the market's record stands at the address `key` and
    /// its vaults are set up: each vault keeps its own address, holds its
    /// asset, is empty, and is owned by `key` and by nothing else.
    pub open spec fn created(self, key: Pubkey) -> InitializeMarket {
        InitializeMarket {
            market: Market { key, ..self.market },
            vault_bond: TokenAccount {
                key: self.vault_bond.key,
                mint: self.bond_mint,
                owner: key,
                amount: 0,
            },
            vault_usdc: TokenAccount {
                key: self.vault_usdc.key,
                mint: self.usdc_mint,
                owner: key,
                amount: 0,
            },
            ..self
        }
    }

    /// Puts the market's record at the address `key` and sets up its two
    /// vaults, empty and under the authority of `key`.
    pub fn create(&mut self, key: Pubkey)
        ensures
            *final(self) == old(self).created(key),
    {
        self.market.key = key;
        self.vault_bond = TokenAccount {
            key: self.vault_bond.key,
            mint: self.bond_mint,
            owner: key,
            amount: 0,
        };
        self.vault_usdc = TokenAccount {
            key: self.vault_usdc.key,
            mint: self.usdc_mint,
            owner: key,
            amount: 0,
        };
    }

    /// The accounts after the record is filled: it names the two assets, the
    /// price, the two vaults and the administrator, it trades, and it keeps
    /// its address.
    pub open spec fn settled(self, price_per_token: u128, bump: u8) -> InitializeMarket {
        InitializeMarket {
            market: Market {
                key: self.market.key,
                bond_mint: self.bond_mint,
                usdc_mint: self.usdc_mint,
                price_per_token,
                vault_bond: self.vault_bond.key,
                vault_usdc: self.vault_usdc.key,
                admin: self.admin,
                paused: false,
                bump,
            },
            ..self
        }
    }
}

/// Fills the market's record: its assets, price, vaults and administrator,
/// and the bump seed `bump` of its address. The new market is not paused.
pub fn handler(ctx: &mut InitializeMarket, price_per_token: u128, bump: u8) -> (result: Result<
    (),
    Error,
>)
    ensures
        result == Ok::<(), Error>(()),
        *final(ctx) == old(ctx).settled(price_per_token, bump),
{
    ctx.market.bond_mint = ctx.bond_mint;
    ctx.market.usdc_mint = ctx.usdc_mint;
    ctx.market.price_per_token = price_per_token;
    ctx.market.vault_bond = ctx.vault_bond.key;
    ctx.market.vault_usdc = ctx.vault_usdc.key;
    ctx.market.admin = ctx.admin;
    ctx.market.paused = false;
    ctx.market.bump = bump;
    Ok(())
}

} // verus!
