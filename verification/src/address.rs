use vstd::prelude::*;
use crate::pubkey::Pubkey;

verus! {

/// The error of `Pubkey::create_program_address`, carried through unread.
#[verifier::external_type_specification]
#[verifier::external_body]
pub struct ExPubkeyError(anchor_lang::solana_program::pubkey::PubkeyError);

/// The address that `Pubkey::create_program_address`, which `anchor_lang`
/// hands on from `solana_program`, derives from `seeds` for the program
/// `program_id`, or `None` where it returns an error. The derivation hashes
/// its arguments and nothing else, so equal arguments give equal results.
pub uninterp spec fn program_address(seeds: Seq<Seq<u8>>, program_id: Seq<u8>) -> Option<Seq<u8>>;

/// Calls `Pubkey::create_program_address` of `anchor_lang::solana_program`.
///
/// Trusted, not proved: the result is the one that `program_address` names
/// for the same seeds and program, an address where the call returns one and
/// an error where it returns one. Nothing is claimed of which seeds derive an
/// address.
#[verifier::external_body]
pub(crate) fn create_program_address(seeds: &Vec<Vec<u8>>, program_id: &Pubkey) -> (result: Result<
    Pubkey,
    anchor_lang::solana_program::pubkey::PubkeyError,
>)
    ensures
        match result {
            Ok(address) => program_address(seeds.deep_view(), program_id@) == Some(address@),
            Err(_) => program_address(seeds.deep_view(), program_id@) is None,
        },
{
    let parts: Vec<&[u8]> = seeds.iter().map(|seed| seed.as_slice()).collect();
    let program = anchor_lang::solana_program::pubkey::Pubkey::new_from_array(program_id.bytes);
    anchor_lang::solana_program::pubkey::Pubkey::create_program_address(&parts, &program)
        .map(|address| Pubkey { bytes: address.to_bytes() })
}

/// The address derived from `seeds` for `program_id`, if there is one.
pub fn derive_address(seeds: &Vec<Vec<u8>>, program_id: &Pubkey) -> (address: Option<Pubkey>)
    ensures
        match address {
            Some(a) => program_address(seeds.deep_view(), program_id@) == Some(a@),
            None => program_address(seeds.deep_view(), program_id@) is None,
        },
{
    match create_program_address(seeds, program_id) {
        Ok(address) => Some(address),
        Err(_) => None,
    }
}

} // verus!
