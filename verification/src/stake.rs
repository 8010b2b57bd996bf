//! Staking an NFT, in two steps: the first checks the proof-token accounts
//! and creates the NFT's stake record if the program does not own it yet;
//! the second, run on the accounts as they are after that, writes the record,
//! checks the NFT's collection and moves the proof token and the NFT.
//!
//! Accounts: staker, NFT mint, metadata, vault, staker's NFT holder, vault's
//! NFT holder, token program, system program, rent, associated-token program,
//! stake record, whitelist entry, proof mint, vault's proof holder, staker's
//! proof holder.

use vstd::prelude::*;
use crate::address::{Address, same_address};
use crate::codec::{Record, StakeData, decode_rate_data, decode_stake_data, rate_data_from, stake_data_from};
use crate::keys::{
    Config, associated, associated_address, derived, metadata_address, metadata_seeds,
    stake_address, stake_seeds, vault_address, vault_seeds,
};
use crate::plan::{
    AccountView, Abort, Action, Outcome, Plan, PlanSpec, Signer, StakeError, abort_with, aborts,
    end_with, ends, fail_with, fails, lamports_to_add, top_up,
};
use crate::admin::{creation, creation_actions};
use crate::claim::{creator_of, derive_entry, entry_for};
use crate::staking::{
    FirstCreator, STAKER_DID_NOT_SIGN, WRONG_TOKEN_PROGRAM, first_creator, read_first_creator,
};
use solana_program::program_error::ProgramError;

verus! {

pub const WRONG_PROOF_MINT: u32 = 0x480;
pub const WRONG_STAKER_PROOF_HOLDER: u32 = 0x481;
pub const WRONG_VAULT_PROOF_HOLDER: u32 = 0x482;
pub const WRONG_STAKE_RECORD: u32 = 0x10;
pub const WRONG_METADATA_ACCOUNT: u32 = 0x03;
pub const WRONG_WHITELIST_ENTRY: u32 = 0x900;
pub const UNREADABLE_RATE: u32 = 0x901;
pub const NOT_WHITELISTED: u32 = 0x902;
pub const UNVERIFIED_CREATOR: u32 = 0x06;
pub const WRONG_STAKE_VAULT: u32 = 0x07;
pub const WRONG_NFT_SOURCE: u32 = 0x08;
pub const WRONG_NFT_DESTINATION: u32 = 0x09;

/// Size of a stake record's account.
pub const STAKE_ACCOUNT_SIZE: u64 = 89;

// ---------------------------------------------------------------------------
// First step
// ---------------------------------------------------------------------------

/// Addresses the first step checks accounts against.
pub struct OpenKeys {
    /// The staker's proof holder.
    pub staker_proof_holder: Option<Address>,
    /// The vault's proof holder.
    pub vault_proof_holder: Option<Address>,
    /// The NFT's stake record.
    pub stake: Option<(Address, u8)>,
}

pub open spec fn open_keys(program_id: Address, cfg: Config, accs: Seq<AccountView>) -> OpenKeys {
    OpenKeys {
        staker_proof_holder: associated(cfg, accs[0].key, accs[12].key),
        vault_proof_holder: associated(cfg, accs[3].key, accs[12].key),
        stake: derived(stake_seeds(accs[1].key), program_id),
    }
}

/// The first step of staking; it ends in `Resume` when the second step is
/// to follow. `rent` is the rent-exempt minimum for a stake record.
pub open spec fn open_stake_plan(
    cfg: Config,
    program_id: Address,
    accs: Seq<AccountView>,
    clock: Result<i64, ProgramError>,
    rent: Result<u64, ProgramError>,
    k: OpenKeys,
) -> PlanSpec {
    if accs.len() < 15 {
        ends(seq![], Outcome::Fail(StakeError::NotEnoughAccountKeys))
    } else if clock is Err {
        ends(seq![], Outcome::Fail(StakeError::Program(clock->Err_0)))
    } else if accs[12].key != cfg.proof_mint {
        fails(seq![], WRONG_PROOF_MINT)
    } else if k.staker_proof_holder is None {
        aborts(seq![], Abort::NoViableBump)
    } else if k.staker_proof_holder.unwrap() != accs[14].key {
        fails(seq![], WRONG_STAKER_PROOF_HOLDER)
    } else if k.vault_proof_holder is None {
        aborts(seq![], Abort::NoViableBump)
    } else if k.vault_proof_holder.unwrap() != accs[13].key {
        fails(seq![], WRONG_VAULT_PROOF_HOLDER)
    } else if accs[6].key != cfg.token_program {
        fails(seq![], WRONG_TOKEN_PROGRAM)
    } else if rent is Err {
        ends(seq![], Outcome::Fail(StakeError::Program(rent->Err_0)))
    } else if k.stake is None {
        aborts(seq![], Abort::NoViableBump)
    } else if !accs[0].is_signer {
        fails(seq![], STAKER_DID_NOT_SIGN)
    } else if k.stake.unwrap().0 != accs[10].key {
        fails(seq![], WRONG_STAKE_RECORD)
    } else if accs[10].owner != program_id {
        ends(
            creation(
                0,
                10,
                7,
                top_up(rent->Ok_0, accs[10].lamports),
                STAKE_ACCOUNT_SIZE,
                program_id,
                Signer::Stake { mint: accs[1].key, bump: k.stake.unwrap().1 },
            ),
            Outcome::Resume,
        )
    } else {
        ends(seq![], Outcome::Resume)
    }
}

/// Decides the first step from the derived addresses.
pub fn decide_open_stake(
    cfg: &Config,
    program_id: &Address,
    accounts: &Vec<AccountView>,
    clock: Result<i64, ProgramError>,
    rent: Result<u64, ProgramError>,
    k: &OpenKeys,
) -> (r: Plan)
    ensures
        r@ == open_stake_plan(*cfg, *program_id, accounts@, clock, rent, *k),
{
    if accounts.len() < 15 {
        return end_with(Vec::new(), Outcome::Fail(StakeError::NotEnoughAccountKeys));
    }
    if let Err(e) = clock {
        return end_with(Vec::new(), Outcome::Fail(StakeError::Program(e)));
    }
    if !same_address(&accounts[12].key, &cfg.proof_mint) {
        return fail_with(Vec::new(), WRONG_PROOF_MINT);
    }
    let staker_proof_holder = match k.staker_proof_holder {
        Some(a) => a,
        None => return abort_with(Vec::new(), Abort::NoViableBump),
    };
    if !same_address(&staker_proof_holder, &accounts[14].key) {
        return fail_with(Vec::new(), WRONG_STAKER_PROOF_HOLDER);
    }
    let vault_proof_holder = match k.vault_proof_holder {
        Some(a) => a,
        None => return abort_with(Vec::new(), Abort::NoViableBump),
    };
    if !same_address(&vault_proof_holder, &accounts[13].key) {
        return fail_with(Vec::new(), WRONG_VAULT_PROOF_HOLDER);
    }
    if !same_address(&accounts[6].key, &cfg.token_program) {
        return fail_with(Vec::new(), WRONG_TOKEN_PROGRAM);
    }
    let minimum = match rent {
        Ok(m) => m,
        Err(e) => return end_with(Vec::new(), Outcome::Fail(StakeError::Program(e))),
    };
    let (stake_key, bump) = match k.stake {
        Some(v) => v,
        None => return abort_with(Vec::new(), Abort::NoViableBump),
    };
    if !accounts[0].is_signer {
        return fail_with(Vec::new(), STAKER_DID_NOT_SIGN);
    }
    if !same_address(&stake_key, &accounts[10].key) {
        return fail_with(Vec::new(), WRONG_STAKE_RECORD);
    }
    if !same_address(&accounts[10].owner, program_id) {
        let actions = creation_actions(
            0,
            10,
            7,
            lamports_to_add(minimum, accounts[10].lamports),
            STAKE_ACCOUNT_SIZE,
            *program_id,
            Signer::Stake { mint: accounts[1].key, bump },
        );
        end_with(actions, Outcome::Resume)
    } else {
        end_with(Vec::new(), Outcome::Resume)
    }
}

/// Plans the first step of staking.
pub fn plan_open_stake(
    cfg: &Config,
    program_id: &Address,
    accounts: &Vec<AccountView>,
    clock: Result<i64, ProgramError>,
    rent: Result<u64, ProgramError>,
) -> (r: Plan)
    ensures
        r@ == open_stake_plan(*cfg, *program_id, accounts@, clock, rent, open_keys(*program_id, *cfg, accounts@)),
{
    if accounts.len() < 15 {
        return end_with(Vec::new(), Outcome::Fail(StakeError::NotEnoughAccountKeys));
    }
    let k = OpenKeys {
        staker_proof_holder: associated_address(cfg, &accounts[0].key, &accounts[12].key),
        vault_proof_holder: associated_address(cfg, &accounts[3].key, &accounts[12].key),
        stake: stake_address(program_id, &accounts[1].key),
    };
    decide_open_stake(cfg, program_id, accounts, clock, rent, &k)
}

// ---------------------------------------------------------------------------
// Second step
// ---------------------------------------------------------------------------

/// Addresses the second step checks accounts against.
pub struct SettleKeys {
    pub metadata: Option<(Address, u8)>,
    pub vault: Option<(Address, u8)>,
    /// The staker's NFT holder.
    pub source: Option<Address>,
    /// The vault's NFT holder (of the derived vault).
    pub destination: Option<Address>,
}

pub open spec fn settle_keys(program_id: Address, cfg: Config, accs: Seq<AccountView>) -> SettleKeys {
    let vault = derived(vault_seeds(), program_id);
    SettleKeys {
        metadata: derived(metadata_seeds(cfg.metadata_program, accs[1].key), cfg.metadata_program),
        vault,
        source: associated(cfg, accs[0].key, accs[1].key),
        destination: match vault {
            Some((v, _)) => associated(cfg, v, accs[1].key),
            None => None,
        },
    }
}

/// The harvest an NFT carries into a new stake: what its readable stake
/// record says, or nothing.
pub open spec fn carried_harvest(data: Seq<u8>) -> u64 {
    match stake_data_from(data) {
        Some(d) => d.harvested,
        None => 0,
    }
}

/// The stake record that staking writes.
pub open spec fn new_stake(now: i64, accs: Seq<AccountView>) -> StakeData {
    StakeData {
        timestamp: now as u64,
        staker: accs[0].key,
        mint: accs[1].key,
        active: true,
        withdrawn: 0,
        harvested: carried_harvest(accs[10].data@),
    }
}

pub open spec fn deposit_actions(vault_bump: u8) -> Seq<Action> {
    seq![
        Action::CreateTokenAccount {
            funder: 0,
            wallet: 0,
            mint: 12,
            holder: 14,
            wallet_info: 0,
            mint_info: 12,
            system: 7,
            token: 6,
            rent: 8,
            ata_program: 9,
        },
        Action::TokenTransfer {
            token: 6,
            source: 13,
            destination: 14,
            authority: 3,
            amount: 1,
            program_signer: Some(Signer::Vault { bump: vault_bump }),
        },
        Action::CreateTokenAccount {
            funder: 0,
            wallet: 3,
            mint: 1,
            holder: 5,
            wallet_info: 3,
            mint_info: 1,
            system: 7,
            token: 6,
            rent: 8,
            ata_program: 9,
        },
        Action::TokenTransfer {
            token: 6,
            source: 4,
            destination: 5,
            authority: 0,
            amount: 1,
            program_signer: None,
        },
    ]
}

/// The second step of staking, on the accounts as they are after the
/// first; `now` is the clock reading the first step was given.
pub open spec fn settle_stake_plan(
    cfg: Config,
    program_id: Address,
    accs: Seq<AccountView>,
    now: i64,
    k: SettleKeys,
    md: FirstCreator,
    entry: Option<(Address, u8)>,
) -> PlanSpec {
    let written = seq![Action::Write { account: 10, record: Record::Stake(new_stake(now, accs)) }];
    if accs.len() < 15 {
        ends(seq![], Outcome::Fail(StakeError::NotEnoughAccountKeys))
    } else if k.metadata is None {
        aborts(written, Abort::NoViableBump)
    } else if k.metadata.unwrap().0 != accs[2].key {
        fails(written, WRONG_METADATA_ACCOUNT)
    } else if md is Empty {
        aborts(written, Abort::EmptyMetadata)
    } else if md is Failed {
        ends(written, Outcome::Fail(StakeError::Program(md->Failed_0)))
    } else if md is NoCreators {
        aborts(written, Abort::NoCreators)
    } else if md is NoFirst {
        aborts(written, Abort::NoFirstCreator)
    } else if entry is None {
        aborts(written, Abort::NoViableBump)
    } else if entry.unwrap().0 != accs[11].key {
        fails(written, WRONG_WHITELIST_ENTRY)
    } else if accs[11].owner != program_id {
        fails(written, NOT_WHITELISTED)
    } else if rate_data_from(accs[11].data@) is None {
        fails(written, UNREADABLE_RATE)
    } else if !creator_of(md).verified {
        fails(written, UNVERIFIED_CREATOR)
    } else if k.vault is None {
        aborts(written, Abort::NoViableBump)
    } else if k.vault.unwrap().0 != accs[3].key {
        fails(written, WRONG_STAKE_VAULT)
    } else if k.source is None {
        aborts(written, Abort::NoViableBump)
    } else if k.source.unwrap() != accs[4].key {
        fails(written, WRONG_NFT_SOURCE)
    } else if k.destination is None {
        aborts(written, Abort::NoViableBump)
    } else if k.destination.unwrap() != accs[5].key {
        fails(written, WRONG_NFT_DESTINATION)
    } else {
        ends(written + deposit_actions(k.vault.unwrap().1), Outcome::Done)
    }
}

/// Decides the second step from the derived addresses and the NFT's first
/// creator.
pub fn decide_settle_stake(
    cfg: &Config,
    program_id: &Address,
    accounts: &Vec<AccountView>,
    now: i64,
    k: &SettleKeys,
    md: FirstCreator,
    entry: Option<(Address, u8)>,
) -> (r: Plan)
    ensures
        r@ == settle_stake_plan(*cfg, *program_id, accounts@, now, *k, md, entry),
{
    if accounts.len() < 15 {
        return end_with(Vec::new(), Outcome::Fail(StakeError::NotEnoughAccountKeys));
    }
    let harvested = match decode_stake_data(accounts[10].data.as_slice()) {
        Some(d) => d.harvested,
        None => 0,
    };
    let record = StakeData {
        timestamp: now as u64,
        staker: accounts[0].key,
        mint: accounts[1].key,
        active: true,
        withdrawn: 0,
        harvested,
    };
    let mut actions: Vec<Action> = Vec::new();
    actions.push(Action::Write { account: 10, record: Record::Stake(record) });
    let ghost written = actions@;
    assert(written =~= seq![Action::Write { account: 10, record: Record::Stake(new_stake(now, accounts@)) }]);
    let metadata = match k.metadata {
        Some((a, _)) => a,
        None => return abort_with(actions, Abort::NoViableBump),
    };
    if !same_address(&metadata, &accounts[2].key) {
        return fail_with(actions, WRONG_METADATA_ACCOUNT);
    }
    let c = match md {
        FirstCreator::Empty => return abort_with(actions, Abort::EmptyMetadata),
        FirstCreator::Failed(e) => return end_with(actions, Outcome::Fail(StakeError::Program(e))),
        FirstCreator::NoCreators => return abort_with(actions, Abort::NoCreators),
        FirstCreator::NoFirst => return abort_with(actions, Abort::NoFirstCreator),
        FirstCreator::First(c) => c,
    };
    let entry_key = match entry {
        Some((a, _)) => a,
        None => return abort_with(actions, Abort::NoViableBump),
    };
    if !same_address(&entry_key, &accounts[11].key) {
        return fail_with(actions, WRONG_WHITELIST_ENTRY);
    }
    if !same_address(&accounts[11].owner, program_id) {
        return fail_with(actions, NOT_WHITELISTED);
    }
    if decode_rate_data(accounts[11].data.as_slice()).is_none() {
        return fail_with(actions, UNREADABLE_RATE);
    }
    if !c.verified {
        return fail_with(actions, UNVERIFIED_CREATOR);
    }
    let (vault, bump) = match k.vault {
        Some(v) => v,
        None => return abort_with(actions, Abort::NoViableBump),
    };
    if !same_address(&vault, &accounts[3].key) {
        return fail_with(actions, WRONG_STAKE_VAULT);
    }
    let source = match k.source {
        Some(a) => a,
        None => return abort_with(actions, Abort::NoViableBump),
    };
    if !same_address(&source, &accounts[4].key) {
        return fail_with(actions, WRONG_NFT_SOURCE);
    }
    let destination = match k.destination {
        Some(a) => a,
        None => return abort_with(actions, Abort::NoViableBump),
    };
    if !same_address(&destination, &accounts[5].key) {
        return fail_with(actions, WRONG_NFT_DESTINATION);
    }
    actions.push(
        Action::CreateTokenAccount {
            funder: 0,
            wallet: 0,
            mint: 12,
            holder: 14,
            wallet_info: 0,
            mint_info: 12,
            system: 7,
            token: 6,
            rent: 8,
            ata_program: 9,
        },
    );
    actions.push(
        Action::TokenTransfer {
            token: 6,
            source: 13,
            destination: 14,
            authority: 3,
            amount: 1,
            program_signer: Some(Signer::Vault { bump }),
        },
    );
    actions.push(
        Action::CreateTokenAccount {
            funder: 0,
            wallet: 3,
            mint: 1,
            holder: 5,
            wallet_info: 3,
            mint_info: 1,
            system: 7,
            token: 6,
            rent: 8,
            ata_program: 9,
        },
    );
    actions.push(
        Action::TokenTransfer {
            token: 6,
            source: 4,
            destination: 5,
            authority: 0,
            amount: 1,
            program_signer: None,
        },
    );
    let r = end_with(actions, Outcome::Done);
    assert(r@.actions =~= written + deposit_actions(bump));
    r
}

/// Plans the second step of staking, on the accounts as they are after the
/// first step's actions.
pub fn plan_settle_stake(cfg: &Config, program_id: &Address, accounts: &Vec<AccountView>, now: i64) -> (r: Plan)
    ensures
        r@ == settle_stake_plan(
            *cfg,
            *program_id,
            accounts@,
            now,
            settle_keys(*program_id, *cfg, accounts@),
            first_creator(accounts@[2].data@),
            entry_for(*program_id, first_creator(accounts@[2].data@)),
        ),
{
    if accounts.len() < 15 {
        return end_with(Vec::new(), Outcome::Fail(StakeError::NotEnoughAccountKeys));
    }
    let vault = vault_address(program_id);
    let destination = match vault {
        Some((v, _)) => associated_address(cfg, &v, &accounts[1].key),
        None => None,
    };
    let k = SettleKeys {
        metadata: metadata_address(cfg, &accounts[1].key),
        vault,
        source: associated_address(cfg, &accounts[0].key, &accounts[1].key),
        destination,
    };
    let md = read_first_creator(accounts[2].data.as_slice());
    let entry = derive_entry(program_id, &md);
    decide_settle_stake(cfg, program_id, accounts, now, &k, md, entry)
}

} // verus!
