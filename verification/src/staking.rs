//! What claiming and unstaking share: the accounts they check, the NFT's
//! collection read from its metadata, and the records they read.

use vstd::prelude::*;
use crate::address::{Address, same_address};
use crate::codec::{
    ContractData, RateData, StakeData, contract_data_from, decode_contract_data, decode_rate_data,
    decode_stake_data, rate_data_from, stake_data_from,
};
use crate::keys::Config;
use crate::outside::{Creator, metadata_creators, read_metadata_creators};
use crate::plan::{
    AccountView, Abort, Outcome, Plan, PlanSpec, StakeError, abort_with, aborts, end_with, ends,
    fail_with, fails,
};
use solana_program::program_error::ProgramError;

verus! {

pub const STAKER_DID_NOT_SIGN: u32 = 0x11;
pub const WRONG_TOKEN_PROGRAM: u32 = 0x345;
pub const WRONG_STAKE_ACCOUNT: u32 = 0x60;
pub const WRONG_VAULT: u32 = 0x61;
pub const WRONG_STAKER_REWARD_HOLDER: u32 = 0x62;
pub const WRONG_VAULT_REWARD_HOLDER: u32 = 0x63;
pub const WRONG_STAKER_NFT_HOLDER: u32 = 0x64;
pub const WRONG_VAULT_NFT_HOLDER: u32 = 0x65;
pub const WRONG_METADATA: u32 = 0x66;
pub const WRONG_REWARD_MINT: u32 = 0x67;
pub const WRONG_WHITELIST: u32 = 0x910;
pub const BAD_RATE_RECORD: u32 = 0x911;
pub const BAD_VAULT_RECORD: u32 = 0x912;
pub const BAD_STAKE_RECORD: u32 = 0x913;
pub const CREATOR_NOT_VERIFIED: u32 = 0x106;
pub const STAKE_INACTIVE: u32 = 0x107;
pub const NOT_THE_STAKER: u32 = 0x108;

/// The first creator of an NFT's metadata, as far as it can be read.
#[derive(Debug, PartialEq)]
pub enum FirstCreator {
    /// The metadata account holds no data.
    Empty,
    /// The data is not a metadata record.
    Failed(ProgramError),
    /// The record lists no creators.
    NoCreators,
    /// The record lists an empty set of creators.
    NoFirst,
    First(Creator),
}

pub open spec fn first_creator(data: Seq<u8>) -> FirstCreator {
    if data.len() == 0 {
        FirstCreator::Empty
    } else {
        match metadata_creators(data) {
            Err(e) => FirstCreator::Failed(e),
            Ok(None) => FirstCreator::NoCreators,
            Ok(Some(s)) => if s.len() == 0 {
                FirstCreator::NoFirst
            } else {
                FirstCreator::First(s[0])
            },
        }
    }
}

/// Reads the first creator from a metadata account's data.
pub fn read_first_creator(data: &[u8]) -> (r: FirstCreator)
    ensures
        r == first_creator(data@),
{
    if data.len() == 0 {
        return FirstCreator::Empty;
    }
    match read_metadata_creators(data) {
        Err(e) => FirstCreator::Failed(e),
        Ok(None) => FirstCreator::NoCreators,
        Ok(Some(v)) => {
            if v.len() == 0 {
                FirstCreator::NoFirst
            } else {
                FirstCreator::First(v[0])
            }
        },
    }
}

/// Addresses that claiming and unstaking check their accounts against.
pub struct StakerKeys {
    pub stake: Option<(Address, u8)>,
    pub vault: Option<(Address, u8)>,
    pub staker_reward_holder: Option<Address>,
    pub vault_reward_holder: Option<Address>,
    pub staker_nft_holder: Option<Address>,
    pub vault_nft_holder: Option<Address>,
    pub metadata: Option<(Address, u8)>,
}

pub open spec fn keys_present(k: StakerKeys) -> bool {
    &&& k.stake is Some
    &&& k.vault is Some
    &&& k.staker_reward_holder is Some
    &&& k.vault_reward_holder is Some
    &&& k.staker_nft_holder is Some
    &&& k.vault_nft_holder is Some
    &&& k.metadata is Some
}

pub fn staker_keys_present(k: &StakerKeys) -> (r: bool)
    ensures
        r == keys_present(*k),
{
    k.stake.is_some() && k.vault.is_some() && k.staker_reward_holder.is_some()
        && k.vault_reward_holder.is_some() && k.staker_nft_holder.is_some()
        && k.vault_nft_holder.is_some() && k.metadata.is_some()
}

/// Where the account checks that claiming and unstaking share end the
/// instruction, if they do. Accounts: staker, system program, NFT mint,
/// token program, rent, associated-token program, stake record, vault,
/// staker's and vault's reward holders, staker's and vault's NFT holders,
/// metadata, whitelist entry, reward mint.
pub open spec fn staker_check_end(cfg: Config, accs: Seq<AccountView>, k: StakerKeys, md: FirstCreator) -> Option<PlanSpec> {
    if !accs[0].is_signer {
        Some(fails(seq![], STAKER_DID_NOT_SIGN))
    } else if accs[3].key != cfg.token_program {
        Some(fails(seq![], WRONG_TOKEN_PROGRAM))
    } else if k.stake.unwrap().0 != accs[6].key {
        Some(fails(seq![], WRONG_STAKE_ACCOUNT))
    } else if k.vault.unwrap().0 != accs[7].key {
        Some(fails(seq![], WRONG_VAULT))
    } else if k.staker_reward_holder.unwrap() != accs[8].key {
        Some(fails(seq![], WRONG_STAKER_REWARD_HOLDER))
    } else if k.vault_reward_holder.unwrap() != accs[9].key {
        Some(fails(seq![], WRONG_VAULT_REWARD_HOLDER))
    } else if k.staker_nft_holder.unwrap() != accs[10].key {
        Some(fails(seq![], WRONG_STAKER_NFT_HOLDER))
    } else if k.vault_nft_holder.unwrap() != accs[11].key {
        Some(fails(seq![], WRONG_VAULT_NFT_HOLDER))
    } else if k.metadata.unwrap().0 != accs[12].key {
        Some(fails(seq![], WRONG_METADATA))
    } else if cfg.reward_mint != accs[14].key {
        Some(fails(seq![], WRONG_REWARD_MINT))
    } else {
        match md {
            FirstCreator::Empty => Some(aborts(seq![], Abort::EmptyMetadata)),
            FirstCreator::Failed(e) => Some(ends(seq![], Outcome::Fail(StakeError::Program(e)))),
            FirstCreator::NoCreators => Some(aborts(seq![], Abort::NoCreators)),
            FirstCreator::NoFirst => Some(aborts(seq![], Abort::NoFirstCreator)),
            FirstCreator::First(_) => None,
        }
    }
}

/// Runs the shared account checks; gives the NFT's first creator when they
/// pass.
pub fn staker_checks(cfg: &Config, accounts: &Vec<AccountView>, k: &StakerKeys, md: FirstCreator) -> (r: Result<Creator, Plan>)
    requires
        accounts@.len() >= 15,
        keys_present(*k),
    ensures
        match r {
            Ok(c) => staker_check_end(*cfg, accounts@, *k, md) is None && md == FirstCreator::First(c),
            Err(p) => staker_check_end(*cfg, accounts@, *k, md) == Some(p@),
        },
{
    if !accounts[0].is_signer {
        return Err(fail_with(Vec::new(), STAKER_DID_NOT_SIGN));
    }
    if !same_address(&accounts[3].key, &cfg.token_program) {
        return Err(fail_with(Vec::new(), WRONG_TOKEN_PROGRAM));
    }
    if !same_address(&k.stake.unwrap().0, &accounts[6].key) {
        return Err(fail_with(Vec::new(), WRONG_STAKE_ACCOUNT));
    }
    if !same_address(&k.vault.unwrap().0, &accounts[7].key) {
        return Err(fail_with(Vec::new(), WRONG_VAULT));
    }
    if !same_address(&k.staker_reward_holder.unwrap(), &accounts[8].key) {
        return Err(fail_with(Vec::new(), WRONG_STAKER_REWARD_HOLDER));
    }
    if !same_address(&k.vault_reward_holder.unwrap(), &accounts[9].key) {
        return Err(fail_with(Vec::new(), WRONG_VAULT_REWARD_HOLDER));
    }
    if !same_address(&k.staker_nft_holder.unwrap(), &accounts[10].key) {
        return Err(fail_with(Vec::new(), WRONG_STAKER_NFT_HOLDER));
    }
    if !same_address(&k.vault_nft_holder.unwrap(), &accounts[11].key) {
        return Err(fail_with(Vec::new(), WRONG_VAULT_NFT_HOLDER));
    }
    if !same_address(&k.metadata.unwrap().0, &accounts[12].key) {
        return Err(fail_with(Vec::new(), WRONG_METADATA));
    }
    if !same_address(&cfg.reward_mint, &accounts[14].key) {
        return Err(fail_with(Vec::new(), WRONG_REWARD_MINT));
    }
    match md {
        FirstCreator::Empty => Err(abort_with(Vec::new(), Abort::EmptyMetadata)),
        FirstCreator::Failed(e) => Err(end_with(Vec::new(), Outcome::Fail(StakeError::Program(e)))),
        FirstCreator::NoCreators => Err(abort_with(Vec::new(), Abort::NoCreators)),
        FirstCreator::NoFirst => Err(abort_with(Vec::new(), Abort::NoFirstCreator)),
        FirstCreator::First(c) => Ok(c),
    }
}

/// The records a claim works with: the collection's rate, the vault's
/// schedule and the NFT's stake record.
pub struct StakerRecords {
    pub rate: RateData,
    pub schedule: ContractData,
    pub stake: StakeData,
}

/// Where the checks of the whitelist entry and the records end the
/// instruction, if they do.
pub open spec fn record_check_end(accs: Seq<AccountView>, entry: Option<(Address, u8)>, c: Creator) -> Option<PlanSpec> {
    if entry is None {
        Some(aborts(seq![], Abort::NoViableBump))
    } else if accs[13].key != entry.unwrap().0 {
        Some(fails(seq![], WRONG_WHITELIST))
    } else if rate_data_from(accs[13].data@) is None {
        Some(fails(seq![], BAD_RATE_RECORD))
    } else if contract_data_from(accs[7].data@) is None {
        Some(fails(seq![], BAD_VAULT_RECORD))
    } else if stake_data_from(accs[6].data@) is None {
        Some(fails(seq![], BAD_STAKE_RECORD))
    } else if !c.verified {
        Some(fails(seq![], CREATOR_NOT_VERIFIED))
    } else if !stake_data_from(accs[6].data@).unwrap().active {
        Some(fails(seq![], STAKE_INACTIVE))
    } else if stake_data_from(accs[6].data@).unwrap().staker != accs[0].key {
        Some(fails(seq![], NOT_THE_STAKER))
    } else {
        None
    }
}

pub open spec fn staker_records(accs: Seq<AccountView>) -> StakerRecords {
    StakerRecords {
        rate: rate_data_from(accs[13].data@).unwrap(),
        schedule: contract_data_from(accs[7].data@).unwrap(),
        stake: stake_data_from(accs[6].data@).unwrap(),
    }
}

/// Checks the whitelist entry and reads the records.
pub fn record_checks(accounts: &Vec<AccountView>, entry: Option<(Address, u8)>, c: Creator) -> (r: Result<StakerRecords, Plan>)
    requires
        accounts@.len() >= 15,
    ensures
        match r {
            Ok(recs) => record_check_end(accounts@, entry, c) is None && recs == staker_records(accounts@),
            Err(p) => record_check_end(accounts@, entry, c) == Some(p@),
        },
{
    let (entry_key, _) = match entry {
        Some(v) => v,
        None => return Err(abort_with(Vec::new(), Abort::NoViableBump)),
    };
    if !same_address(&accounts[13].key, &entry_key) {
        return Err(fail_with(Vec::new(), WRONG_WHITELIST));
    }
    let rate = match decode_rate_data(accounts[13].data.as_slice()) {
        Some(d) => d,
        None => return Err(fail_with(Vec::new(), BAD_RATE_RECORD)),
    };
    let schedule = match decode_contract_data(accounts[7].data.as_slice()) {
        Some(d) => d,
        None => return Err(fail_with(Vec::new(), BAD_VAULT_RECORD)),
    };
    let stake = match decode_stake_data(accounts[6].data.as_slice()) {
        Some(d) => d,
        None => return Err(fail_with(Vec::new(), BAD_STAKE_RECORD)),
    };
    if !c.verified {
        return Err(fail_with(Vec::new(), CREATOR_NOT_VERIFIED));
    }
    if !stake.active {
        return Err(fail_with(Vec::new(), STAKE_INACTIVE));
    }
    if !same_address(&stake.staker, &accounts[0].key) {
        return Err(fail_with(Vec::new(), NOT_THE_STAKER));
    }
    Ok(StakerRecords { rate, schedule, stake })
}

} // verus!
