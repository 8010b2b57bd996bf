//! The calls this program makes into the Solana crates, each with the
//! contract that the library relies on and does not prove.

use vstd::prelude::*;
use crate::address::Address;
use solana_program::program_error::ProgramError;
use solana_program::pubkey::Pubkey;
use spl_token_metadata::state::{Key, Metadata, MAX_METADATA_LEN};

verus! {

/// Errors of the Solana runtime and of the programs it calls; carried through
/// unchanged where an instruction fails on one.
#[verifier::external_type_specification]
#[verifier::external_body]
pub struct ExProgramError(ProgramError);

/// The program-derived address for `seeds` under `program_id` with the bump
/// seed that the search finds first, or `None` when there is none (no bump in
/// 255 down to 1 leaves the curve, or the seeds are too many or too long).
pub uninterp spec fn program_address(seeds: Seq<Seq<u8>>, program_id: Seq<u8>) -> Option<(Seq<u8>, u8)>;

/// The public key that the base-58 text stands for, or `None` when the text
/// is not the base-58 form of 32 bytes.
pub uninterp spec fn parsed_address(text: Seq<char>) -> Option<Seq<u8>>;

/// The creators listed in a token-metadata record, read from the record's
/// bytes: `Err` when the bytes are not a metadata record, `Ok(None)` when the
/// record lists no creators.
pub uninterp spec fn metadata_creators(data: Seq<u8>) -> Result<Option<Seq<Creator>>, ProgramError>;

/// A creator entry of an NFT's metadata.
#[derive(Clone, Copy, Debug, PartialEq, Eq)]
pub struct Creator {
    pub address: Address,
    pub verified: bool,
    pub share: u8,
}

/// The bytes of each seed.
pub open spec fn seed_views(seeds: Seq<Vec<u8>>) -> Seq<Seq<u8>> {
    seeds.map_values(|s: Vec<u8>| s@)
}

/// Calls `Pubkey::try_find_program_address`, which searches the bump seeds
/// from 255 down for one whose hash is off the curve; its result is a
/// function of the seeds and the program id alone.
#[verifier::external_body]
pub(crate) fn find_program_address(seeds: &Vec<Vec<u8>>, program_id: &Address) -> (r: Option<(Address, u8)>)
    ensures
        match r {
            Some((a, bump)) => program_address(seed_views(seeds@), program_id@) == Some((a@, bump)),
            None => program_address(seed_views(seeds@), program_id@) is None,
        },
{
    let parts: Vec<&[u8]> = seeds.iter().map(|s| s.as_slice()).collect();
    Pubkey::try_find_program_address(&parts, &Pubkey::new_from_array(*program_id)).map(
        |(k, bump)| (k.to_bytes(), bump),
    )
}

/// Calls `Pubkey::from_str`: base-58 decoding of the text, kept when it
/// gives exactly 32 bytes.
#[verifier::external_body]
pub(crate) fn parse_address(text: &str) -> (r: Option<Address>)
    ensures
        match r {
            Some(a) => parsed_address(text@) == Some(a@),
            None => parsed_address(text@) is None,
        },
{
    match text.parse::<Pubkey>() {
        Ok(k) => Some(k.to_bytes()),
        Err(_) => None,
    }
}

/// Calls `spl_token::id()`, the id that the token crate declares from the
/// text "TokenkegQfeZyiNwAJbNbGKPFXCWuBvf9Ss623VQ5DA".
#[verifier::external_body]
pub(crate) fn token_program_id() -> (r: Address)
    ensures
        parsed_address("TokenkegQfeZyiNwAJbNbGKPFXCWuBvf9Ss623VQ5DA"@) == Some(r@),
{
    spl_token::id().to_bytes()
}

/// Reads `spl_token_metadata::ID`, the id that the metadata crate declares
/// from the text "metaqbxxUerdq28cj1RbAWkYQm3ybzjb6a8bt518x1s".
#[verifier::external_body]
pub(crate) fn metadata_program_id() -> (r: Address)
    ensures
        parsed_address("metaqbxxUerdq28cj1RbAWkYQm3ybzjb6a8bt518x1s"@) == Some(r@),
{
    spl_token_metadata::ID.to_bytes()
}

/// Calls `spl_associated_token_account::id()`, the id that the crate
/// declares from the text "ATokenGPvbdGVxr1b2hvZbsiqW5xWH25efTNsLJA8knL".
#[verifier::external_body]
pub(crate) fn associated_token_program_id() -> (r: Address)
    ensures
        parsed_address("ATokenGPvbdGVxr1b2hvZbsiqW5xWH25efTNsLJA8knL"@) == Some(r@),
{
    spl_associated_token_account::id().to_bytes()
}

/// Calls `spl_token_metadata::utils::try_from_slice_checked` for a
/// `Metadata` record, as `Metadata::from_account_info` does on an account's
/// data, and lists the record's creators. That function indexes the first
/// byte, so it is not called on empty data.
#[verifier::external_body]
pub(crate) fn read_metadata_creators(data: &[u8]) -> (r: Result<Option<Vec<Creator>>, ProgramError>)
    requires
        data@.len() > 0,
    ensures
        match r {
            Ok(Some(v)) => metadata_creators(data@) == Ok::<Option<Seq<Creator>>, ProgramError>(Some(v@)),
            Ok(None) => metadata_creators(data@) == Ok::<Option<Seq<Creator>>, ProgramError>(None),
            Err(e) => metadata_creators(data@) == Err::<Option<Seq<Creator>>, ProgramError>(e),
        },
{
    let md: Metadata = spl_token_metadata::utils::try_from_slice_checked(
        data,
        Key::MetadataV1,
        MAX_METADATA_LEN,
    )?;
    Ok(md.data.creators.map(|cs| cs.iter().map(|c| Creator {
        address: c.address.to_bytes(),
        verified: c.verified,
        share: c.share,
    }).collect()))
}

} // verus!
