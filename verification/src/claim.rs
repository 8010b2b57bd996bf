//! Claiming the reward of a staked NFT, with or without unstaking it.

use vstd::prelude::*;
use crate::address::{Address, same_address};
use crate::codec::{Record, StakeData};
use crate::keys::{
    Config, associated, associated_address, derived, metadata_address, metadata_seeds,
    stake_address, stake_seeds, vault_address, vault_seeds, whitelist_address, whitelist_seeds,
};
use crate::plan::{
    AccountView, Abort, Action, Outcome, Plan, PlanSpec, Signer, StakeError, abort_with, aborts,
    end_with, ends, fail_with, fails,
};
use crate::reward::{compute_reward, paid, pay_out, reward_due, staked_seconds, staked_time};
use crate::staking::{
    FirstCreator, StakerKeys, first_creator, keys_present, read_first_creator, record_check_end,
    record_checks, staker_check_end, staker_checks, staker_keys_present, staker_records,
};
use crate::outside::Creator;
use solana_program::program_error::ProgramError;

verus! {

pub const WRONG_PROOF_SOURCE: u32 = 0x490;
pub const WRONG_PROOF_DESTINATION: u32 = 0x491;
/// The stake has not lasted the vault's minimum period yet.
pub const MIN_PERIOD_NOT_REACHED: u32 = 0x109;

pub open spec fn staker_keys(cfg: Config, program_id: Address, accs: Seq<AccountView>) -> StakerKeys {
    StakerKeys {
        stake: derived(stake_seeds(accs[2].key), program_id),
        vault: derived(vault_seeds(), program_id),
        staker_reward_holder: associated(cfg, accs[0].key, cfg.reward_mint),
        vault_reward_holder: associated(cfg, accs[7].key, cfg.reward_mint),
        staker_nft_holder: associated(cfg, accs[0].key, accs[2].key),
        vault_nft_holder: associated(cfg, accs[7].key, accs[2].key),
        metadata: derived(metadata_seeds(cfg.metadata_program, accs[2].key), cfg.metadata_program),
    }
}

pub fn derive_staker_keys(cfg: &Config, program_id: &Address, accounts: &Vec<AccountView>) -> (r: StakerKeys)
    requires
        accounts@.len() >= 15,
    ensures
        r == staker_keys(*cfg, *program_id, accounts@),
{
    StakerKeys {
        stake: stake_address(program_id, &accounts[2].key),
        vault: vault_address(program_id),
        staker_reward_holder: associated_address(cfg, &accounts[0].key, &cfg.reward_mint),
        vault_reward_holder: associated_address(cfg, &accounts[7].key, &cfg.reward_mint),
        staker_nft_holder: associated_address(cfg, &accounts[0].key, &accounts[2].key),
        vault_nft_holder: associated_address(cfg, &accounts[7].key, &accounts[2].key),
        metadata: metadata_address(cfg, &accounts[2].key),
    }
}

pub open spec fn creator_of(md: FirstCreator) -> Creator {
    match md {
        FirstCreator::First(c) => c,
        _ => arbitrary(),
    }
}

/// The whitelist entry of the NFT's collection, when its first creator is
/// known.
pub open spec fn entry_for(program_id: Address, md: FirstCreator) -> Option<(Address, u8)> {
    match md {
        FirstCreator::First(c) => derived(whitelist_seeds(c.address), program_id),
        _ => None,
    }
}

pub fn derive_entry(program_id: &Address, md: &FirstCreator) -> (r: Option<(Address, u8)>)
    ensures
        r == entry_for(*program_id, *md),
{
    match md {
        FirstCreator::First(c) => whitelist_address(program_id, &c.address),
        _ => None,
    }
}

pub open spec fn create_reward_holder() -> Action {
    Action::CreateTokenAccount {
        funder: 0,
        wallet: 0,
        mint: 14,
        holder: 8,
        wallet_info: 0,
        mint_info: 14,
        system: 1,
        token: 3,
        rent: 4,
        ata_program: 5,
    }
}

pub open spec fn pay_reward(reward: u64, vault_bump: u8) -> Action {
    Action::TokenTransfer {
        token: 3,
        source: 9,
        destination: 8,
        authority: 7,
        amount: reward,
        program_signer: Some(Signer::Vault { bump: vault_bump }),
    }
}

// ---------------------------------------------------------------------------
// StakeWithdraw
// ---------------------------------------------------------------------------

/// Claiming the reward due on a staked NFT, which stays staked; as with
/// unstaking, the vault's minimum period must have passed since the stake.
pub open spec fn claim_plan(
    cfg: Config,
    accs: Seq<AccountView>,
    clock: Result<i64, ProgramError>,
    k: StakerKeys,
    md: FirstCreator,
    entry: Option<(Address, u8)>,
) -> PlanSpec {
    if accs.len() < 15 {
        ends(seq![], Outcome::Fail(StakeError::NotEnoughAccountKeys))
    } else if clock is Err {
        ends(seq![], Outcome::Fail(StakeError::Program(clock->Err_0)))
    } else if !keys_present(k) {
        aborts(seq![], Abort::NoViableBump)
    } else if staker_check_end(cfg, accs, k, md) is Some {
        staker_check_end(cfg, accs, k, md).unwrap()
    } else if record_check_end(accs, entry, creator_of(md)) is Some {
        record_check_end(accs, entry, creator_of(md)).unwrap()
    } else {
        let recs = staker_records(accs);
        let now = clock->Ok_0;
        match staked_seconds(now, recs.stake) {
            None => aborts(seq![], Abort::Arithmetic),
            Some(e) => if e < recs.schedule.min_period {
                fails(seq![], MIN_PERIOD_NOT_REACHED)
            } else {
                match reward_due(now, recs.stake, recs.schedule, recs.rate) {
                    None => aborts(seq![], Abort::Arithmetic),
                    Some(reward) => ends(
                        seq![
                            create_reward_holder(),
                            pay_reward(reward, k.vault.unwrap().1),
                            Action::Write {
                                account: 6,
                                record: Record::Stake(paid(recs.stake, reward)),
                            },
                        ],
                        Outcome::Done,
                    ),
                }
            },
        }
    }
}

/// Decides a claim from the derived addresses and the NFT's first creator.
pub fn decide_stake_withdraw(
    cfg: &Config,
    accounts: &Vec<AccountView>,
    clock: Result<i64, ProgramError>,
    k: &StakerKeys,
    md: FirstCreator,
    entry: Option<(Address, u8)>,
) -> (r: Plan)
    ensures
        r@ == claim_plan(*cfg, accounts@, clock, *k, md, entry),
{
    if accounts.len() < 15 {
        return end_with(Vec::new(), Outcome::Fail(StakeError::NotEnoughAccountKeys));
    }
    let now = match clock {
        Ok(t) => t,
        Err(e) => return end_with(Vec::new(), Outcome::Fail(StakeError::Program(e))),
    };
    if !staker_keys_present(k) {
        return abort_with(Vec::new(), Abort::NoViableBump);
    }
    let ghost md0 = md;
    let c = match staker_checks(cfg, accounts, k, md) {
        Ok(c) => c,
        Err(p) => return p,
    };
    let recs = match record_checks(accounts, entry, c) {
        Ok(recs) => recs,
        Err(p) => return p,
    };
    let e = match staked_time(now, &recs.stake) {
        Some(e) => e,
        None => return abort_with(Vec::new(), Abort::Arithmetic),
    };
    if e < recs.schedule.min_period {
        return fail_with(Vec::new(), MIN_PERIOD_NOT_REACHED);
    }
    let reward = match compute_reward(now, &recs.stake, &recs.schedule, &recs.rate) {
        Some(r) => r,
        None => return abort_with(Vec::new(), Abort::Arithmetic),
    };
    let updated = pay_out(&recs.stake, reward, now, &recs.schedule, &recs.rate);
    let mut actions: Vec<Action> = Vec::new();
    actions.push(
        Action::CreateTokenAccount {
            funder: 0,
            wallet: 0,
            mint: 14,
            holder: 8,
            wallet_info: 0,
            mint_info: 14,
            system: 1,
            token: 3,
            rent: 4,
            ata_program: 5,
        },
    );
    actions.push(
        Action::TokenTransfer {
            token: 3,
            source: 9,
            destination: 8,
            authority: 7,
            amount: reward,
            program_signer: Some(Signer::Vault { bump: k.vault.unwrap().1 }),
        },
    );
    actions.push(Action::Write { account: 6, record: Record::Stake(updated) });
    let r = end_with(actions, Outcome::Done);
    assert(r@.actions =~= claim_plan(*cfg, accounts@, clock, *k, md0, entry).actions);
    r
}

/// Plans a claim of the reward due on a staked NFT.
pub fn plan_stake_withdraw(
    cfg: &Config,
    program_id: &Address,
    accounts: &Vec<AccountView>,
    clock: Result<i64, ProgramError>,
) -> (r: Plan)
    ensures
        r@ == claim_plan(
            *cfg,
            accounts@,
            clock,
            staker_keys(*cfg, *program_id, accounts@),
            first_creator(accounts@[12].data@),
            entry_for(*program_id, first_creator(accounts@[12].data@)),
        ),
{
    if accounts.len() < 15 {
        return end_with(Vec::new(), Outcome::Fail(StakeError::NotEnoughAccountKeys));
    }
    let k = derive_staker_keys(cfg, program_id, accounts);
    let md = read_first_creator(accounts[12].data.as_slice());
    let entry = derive_entry(program_id, &md);
    decide_stake_withdraw(cfg, accounts, clock, &k, md, entry)
}

// ---------------------------------------------------------------------------
// Unstake
// ---------------------------------------------------------------------------

/// The proof-token holders an unstake checks: the staker's, from which the
/// proof token goes back, and the vault's.
pub struct ProofKeys {
    pub source: Option<Address>,
    pub destination: Option<Address>,
}

pub open spec fn proof_keys(cfg: Config, accs: Seq<AccountView>) -> ProofKeys {
    ProofKeys {
        source: associated(cfg, accs[0].key, cfg.proof_mint),
        destination: associated(cfg, accs[7].key, cfg.proof_mint),
    }
}

/// What an unstake leaves in the stake record: no longer active, with the
/// payout counted.
pub open spec fn unstaked(stake: StakeData, reward: u64) -> StakeData {
    StakeData { active: false, ..paid(stake, reward) }
}

pub open spec fn unstake_actions(stake: StakeData, reward: u64, vault_bump: u8) -> Seq<Action> {
    let vault = Signer::Vault { bump: vault_bump };
    seq![
        Action::TokenTransfer {
            token: 3,
            source: 15,
            destination: 16,
            authority: 0,
            amount: 1,
            program_signer: None,
        },
        create_reward_holder(),
        pay_reward(reward, vault_bump),
        Action::CreateTokenAccount {
            funder: 0,
            wallet: 0,
            mint: 2,
            holder: 10,
            wallet_info: 0,
            mint_info: 2,
            system: 1,
            token: 3,
            rent: 4,
            ata_program: 5,
        },
        Action::TokenTransfer {
            token: 3,
            source: 11,
            destination: 10,
            authority: 7,
            amount: 1,
            program_signer: Some(vault),
        },
        Action::CloseTokenAccount { token: 3, account: 11, destination: 0, authority: 7, signer: vault },
        Action::Write { account: 6, record: Record::Stake(unstaked(stake, reward)) },
    ]
}

/// Unstaking an NFT: the proof token goes back to the vault, the reward due
/// and the NFT go to the staker, and the vault's NFT holder is closed.
/// Accounts: those of a claim, then the staker's and the vault's proof
/// holders.
pub open spec fn unstake_plan(
    cfg: Config,
    accs: Seq<AccountView>,
    clock: Result<i64, ProgramError>,
    k: StakerKeys,
    pk: ProofKeys,
    md: FirstCreator,
    entry: Option<(Address, u8)>,
) -> PlanSpec {
    if accs.len() < 17 {
        ends(seq![], Outcome::Fail(StakeError::NotEnoughAccountKeys))
    } else if clock is Err {
        ends(seq![], Outcome::Fail(StakeError::Program(clock->Err_0)))
    } else if !keys_present(k) || pk.source is None || pk.destination is None {
        aborts(seq![], Abort::NoViableBump)
    } else if pk.source.unwrap() != accs[15].key {
        fails(seq![], WRONG_PROOF_SOURCE)
    } else if pk.destination.unwrap() != accs[16].key {
        fails(seq![], WRONG_PROOF_DESTINATION)
    } else if staker_check_end(cfg, accs, k, md) is Some {
        staker_check_end(cfg, accs, k, md).unwrap()
    } else if record_check_end(accs, entry, creator_of(md)) is Some {
        record_check_end(accs, entry, creator_of(md)).unwrap()
    } else {
        let recs = staker_records(accs);
        let now = clock->Ok_0;
        match staked_seconds(now, recs.stake) {
            None => aborts(seq![], Abort::Arithmetic),
            Some(e) => if e < recs.schedule.min_period {
                fails(seq![], MIN_PERIOD_NOT_REACHED)
            } else {
                match reward_due(now, recs.stake, recs.schedule, recs.rate) {
                    None => aborts(seq![], Abort::Arithmetic),
                    Some(reward) => ends(
                        unstake_actions(recs.stake, reward, k.vault.unwrap().1),
                        Outcome::Done,
                    ),
                }
            },
        }
    }
}

/// Decides an unstake from the derived addresses and the NFT's first creator.
pub fn decide_unstake(
    cfg: &Config,
    accounts: &Vec<AccountView>,
    clock: Result<i64, ProgramError>,
    k: &StakerKeys,
    pk: &ProofKeys,
    md: FirstCreator,
    entry: Option<(Address, u8)>,
) -> (r: Plan)
    ensures
        r@ == unstake_plan(*cfg, accounts@, clock, *k, *pk, md, entry),
{
    if accounts.len() < 17 {
        return end_with(Vec::new(), Outcome::Fail(StakeError::NotEnoughAccountKeys));
    }
    let now = match clock {
        Ok(t) => t,
        Err(e) => return end_with(Vec::new(), Outcome::Fail(StakeError::Program(e))),
    };
    if !staker_keys_present(k) || pk.source.is_none() || pk.destination.is_none() {
        return abort_with(Vec::new(), Abort::NoViableBump);
    }
    if !same_address(&pk.source.unwrap(), &accounts[15].key) {
        return fail_with(Vec::new(), WRONG_PROOF_SOURCE);
    }
    if !same_address(&pk.destination.unwrap(), &accounts[16].key) {
        return fail_with(Vec::new(), WRONG_PROOF_DESTINATION);
    }
    let ghost md0 = md;
    let c = match staker_checks(cfg, accounts, k, md) {
        Ok(c) => c,
        Err(p) => return p,
    };
    let recs = match record_checks(accounts, entry, c) {
        Ok(recs) => recs,
        Err(p) => return p,
    };
    let e = match staked_time(now, &recs.stake) {
        Some(e) => e,
        None => return abort_with(Vec::new(), Abort::Arithmetic),
    };
    if e < recs.schedule.min_period {
        return fail_with(Vec::new(), MIN_PERIOD_NOT_REACHED);
    }
    let reward = match compute_reward(now, &recs.stake, &recs.schedule, &recs.rate) {
        Some(r) => r,
        None => return abort_with(Vec::new(), Abort::Arithmetic),
    };
    let settled = pay_out(&recs.stake, reward, now, &recs.schedule, &recs.rate);
    let vault = Signer::Vault { bump: k.vault.unwrap().1 };
    let mut actions: Vec<Action> = Vec::new();
    actions.push(
        Action::TokenTransfer {
            token: 3,
            source: 15,
            destination: 16,
            authority: 0,
            amount: 1,
            program_signer: None,
        },
    );
    actions.push(
        Action::CreateTokenAccount {
            funder: 0,
            wallet: 0,
            mint: 14,
            holder: 8,
            wallet_info: 0,
            mint_info: 14,
            system: 1,
            token: 3,
            rent: 4,
            ata_program: 5,
        },
    );
    actions.push(
        Action::TokenTransfer {
            token: 3,
            source: 9,
            destination: 8,
            authority: 7,
            amount: reward,
            program_signer: Some(vault),
        },
    );
    actions.push(
        Action::CreateTokenAccount {
            funder: 0,
            wallet: 0,
            mint: 2,
            holder: 10,
            wallet_info: 0,
            mint_info: 2,
            system: 1,
            token: 3,
            rent: 4,
            ata_program: 5,
        },
    );
    actions.push(
        Action::TokenTransfer {
            token: 3,
            source: 11,
            destination: 10,
            authority: 7,
            amount: 1,
            program_signer: Some(vault),
        },
    );
    actions.push(
        Action::CloseTokenAccount { token: 3, account: 11, destination: 0, authority: 7, signer: vault },
    );
    actions.push(
        Action::Write { account: 6, record: Record::Stake(StakeData { active: false, ..settled }) },
    );
    let r = end_with(actions, Outcome::Done);
    assert(r@.actions =~= unstake_plan(*cfg, accounts@, clock, *k, *pk, md0, entry).actions);
    r
}

/// Plans unstaking an NFT.
pub fn plan_unstake(
    cfg: &Config,
    program_id: &Address,
    accounts: &Vec<AccountView>,
    clock: Result<i64, ProgramError>,
) -> (r: Plan)
    ensures
        r@ == unstake_plan(
            *cfg,
            accounts@,
            clock,
            staker_keys(*cfg, *program_id, accounts@),
            proof_keys(*cfg, accounts@),
            first_creator(accounts@[12].data@),
            entry_for(*program_id, first_creator(accounts@[12].data@)),
        ),
{
    if accounts.len() < 17 {
        return end_with(Vec::new(), Outcome::Fail(StakeError::NotEnoughAccountKeys));
    }
    let k = derive_staker_keys(cfg, program_id, accounts);
    let pk = ProofKeys {
        source: associated_address(cfg, &accounts[0].key, &cfg.proof_mint),
        destination: associated_address(cfg, &accounts[7].key, &cfg.proof_mint),
    };
    let md = read_first_creator(accounts[12].data.as_slice());
    let entry = derive_entry(program_id, &md);
    decide_unstake(cfg, accounts, clock, &k, &pk, md, entry)
}

} // verus!
