use vstd::prelude::*;
use crate::address::{derive_address, program_address};
use crate::pubkey::Pubkey;

verus! {

/// The bytes of the exchange program's own identifier.
pub const ID_BYTES: [u8; 32] = [
    213, 222, 56, 192, 192, 91, 132, 232, 122, 76, 74, 249, 91, 109, 19, 128,
    92, 166, 7, 16, 128, 171, 62, 114, 244, 98, 17, 11, 98, 53, 190, 34,
];

/// The tag that starts the seeds of every market address: the ASCII bytes of
/// the word "market".
pub const MARKET_SEED: [u8; 6] = [109, 97, 114, 107, 101, 116];

/// The identifier of the exchange program, for which market addresses are
/// derived.
pub fn id() -> (program: Pubkey)
    ensures
        program.bytes == ID_BYTES,
{
    Pubkey { bytes: ID_BYTES }
}

/// The seeds from which the address of the market for `bond_mint` is derived
/// with the bump seed `bump`.
pub open spec fn market_seeds(bond_mint: Pubkey, bump: u8) -> Seq<Seq<u8>> {
    seq![MARKET_SEED@, bond_mint@, seq![bump]]
}

/// The address derived for the market of `bond_mint` with the bump seed
/// `bump`, where the derivation yields one.
pub open spec fn market_address(bond_mint: Pubkey, bump: u8) -> Option<Seq<u8>> {
    program_address(market_seeds(bond_mint, bump), ID_BYTES@)
}

/// Whether `bump` is the bump seed of the market for `bond_mint`: the highest
/// from 255 down to 1 that derives an address.
pub open spec fn is_market_bump(bond_mint: Pubkey, bump: u8) -> bool {
    &&& bump >= 1
    &&& market_address(bond_mint, bump) is Some
    &&& forall|higher: u8| bump < higher ==> market_address(bond_mint, higher) is None
}

/// Whether any bump seed from 255 down to 1 derives an address for the market
/// of `bond_mint`.
pub open spec fn has_market_bump(bond_mint: Pubkey) -> bool {
    exists|bump: u8| bump >= 1 && market_address(bond_mint, bump) is Some
}

/// One trading pair: its two assets, its price, its vaults and its
/// administrator.
#[derive(Clone, Copy, Debug, PartialEq, Eq)]
pub struct Market {
    /// The market's own address, which is also the authority over its vaults.
    pub key: Pubkey,
    /// The asset that is bought and sold.
    pub bond_mint: Pubkey,
    /// The asset that pays for it.
    pub usdc_mint: Pubkey,
    /// The price of one bond unit in stable units, already scaled.
    pub price_per_token: u128,
    /// The address of the vault that holds bond units.
    pub vault_bond: Pubkey,
    /// The address of the vault that holds stable units.
    pub vault_usdc: Pubkey,
    /// The only identity that may change the price, pause or withdraw.
    pub admin: Pubkey,
    /// Whether trading is disabled.
    pub paused: bool,
    /// The bump seed with which the market's address was derived.
    pub bump: u8,
}

impl Market {
    /// The bytes that a stored market record takes: a tag of 8, five
    /// identifiers of 32, the price of 16, the pause flag and the bump seed.
    /// The market's address is where the record is stored, and no part of it.
    pub const LEN: usize = 8 + (32 * 5) + 16 + 1 + 1;

    /// Whether `other` is this market but for what an operation may change:
    /// the same address, assets, vaults, administrator and bump seed. Only
    /// the price and the pause flag may differ.
    pub open spec fn same_identity(self, other: Market) -> bool {
        &&& self.key == other.key
        &&& self.bond_mint == other.bond_mint
        &&& self.usdc_mint == other.usdc_mint
        &&& self.vault_bond == other.vault_bond
        &&& self.vault_usdc == other.vault_usdc
        &&& self.admin == other.admin
        &&& self.bump == other.bump
    }

    /// The seeds that derive this market's address.
    pub open spec fn seeds(&self) -> Seq<Seq<u8>> {
        market_seeds(self.bond_mint, self.bump)
    }

    /// Whether the market's address is the one derived from its bond asset
    /// and bump seed.
    pub open spec fn address_is_derived(&self) -> bool {
        market_address(self.bond_mint, self.bump) == Some(self.key@)
    }

    /// The seeds with which the market signs for its vaults.
    pub fn signer_seeds(&self) -> (seeds: Vec<Vec<u8>>)
        ensures
            seeds.deep_view() == self.seeds(),
    {
        seeds_for(&self.bond_mint, self.bump)
    }

    /// The address that the market's bond asset and bump seed derive, if they
    /// derive one.
    pub fn derived_key(&self) -> (derived: Option<Pubkey>)
        ensures
            match derived {
                Some(key) => market_address(self.bond_mint, self.bump) == Some(key@),
                None => market_address(self.bond_mint, self.bump) is None,
            },
    {
        derive_address(&self.signer_seeds(), &id())
    }
}

/// The seeds of the market for `bond_mint` with the bump seed `bump`, as
/// bytes.
pub fn seeds_for(bond_mint: &Pubkey, bump: u8) -> (seeds: Vec<Vec<u8>>)
    ensures
        seeds.deep_view() == market_seeds(*bond_mint, bump),
{
    let mut tag: Vec<u8> = Vec::new();
    let mut i: usize = 0;
    while i < 6
        invariant
            i <= 6,
            tag@ == MARKET_SEED@.take(i as int),
        decreases 6 - i,
    {
        tag.push(MARKET_SEED[i]);
        i += 1;
        assert(tag@ =~= MARKET_SEED@.take(i as int));
    }
    let mut mint: Vec<u8> = Vec::new();
    let mut j: usize = 0;
    while j < 32
        invariant
            j <= 32,
            mint@ == bond_mint@.take(j as int),
        decreases 32 - j,
    {
        mint.push(bond_mint.bytes[j]);
        j += 1;
        assert(mint@ =~= bond_mint@.take(j as int));
    }
    let mut last: Vec<u8> = Vec::new();
    last.push(bump);
    let mut seeds: Vec<Vec<u8>> = Vec::new();
    seeds.push(tag);
    seeds.push(mint);
    seeds.push(last);
    assert(seeds.deep_view() =~~= market_seeds(*bond_mint, bump));
    seeds
}

/// Searches the bump seeds from 255 down to 1 for the first that derives an
/// address for the market of `bond_mint`, and returns that address with its
/// bump seed.
pub fn find_market_address(bond_mint: &Pubkey) -> (found: Option<(Pubkey, u8)>)
    ensures
        match found {
            Some((key, bump)) => {
                &&& is_market_bump(*bond_mint, bump)
                &&& market_address(*bond_mint, bump) == Some(key@)
            },
            None => !has_market_bump(*bond_mint),
        },
{
    let program = id();
    let mut bump: u8 = 255;
    while bump >= 1
        invariant
            program.bytes == ID_BYTES,
            forall|higher: u8| bump < higher ==> market_address(*bond_mint, higher) is None,
        decreases bump,
    {
        let seeds = seeds_for(bond_mint, bump);
        match derive_address(&seeds, &program) {
            Some(key) => {
                return Some((key, bump));
            },
            None => {},
        }
        bump -= 1;
    }
    None
}

} // verus!
