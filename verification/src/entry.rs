//! The program's entry: which instruction runs, with which configuration.

use vstd::prelude::*;
use crate::address::Address;
use crate::codec::{CONTRACT_DATA_LEN, ContractData, RATE_DATA_LEN, STAKE_DATA_LEN};
use crate::instruction::StakeInstruction;
use crate::keys::{Config, derived, is_program_config, lemma_config_unique, program_config, vault_seeds, whitelist_seeds};
use crate::outside::parsed_address;
use crate::keys::{admin_text, proof_mint_text, reward_mint_text};
use crate::plan::{AccountView, Abort, Plan, PlanSpec, abort_with, aborts};
use crate::admin::{plan_add_to_whitelist, plan_generate_vault, plan_withdraw, vault_plan, whitelist_plan, withdraw_keys, withdraw_plan};
use crate::claim::{claim_plan, entry_for, plan_stake_withdraw, plan_unstake, proof_keys, staker_keys, unstake_plan};
use crate::stake::{open_keys, open_stake_plan, plan_open_stake, plan_settle_stake, settle_keys, settle_stake_plan};
use crate::staking::first_creator;
use crate::codec::RateData;
use solana_program::program_error::ProgramError;

verus! {

/// The program's configuration, when its configured addresses are valid.
pub open spec fn configured() -> Option<Config> {
    if exists|c: Config| is_program_config(c) {
        Some(choose|c: Config| is_program_config(c))
    } else {
        None
    }
}

/// Reads the configuration.
pub fn configuration() -> (r: Option<Config>)
    ensures
        r == configured(),
{
    let r = program_config();
    proof {
        match r {
            Some(c) => {
                let d = choose|c: Config| is_program_config(c);
                lemma_config_unique(c, d);
            },
            None => {
                if exists|c: Config| is_program_config(c) {
                    let d = choose|c: Config| is_program_config(c);
                    assert(parsed_address(admin_text()) is Some);
                    assert(parsed_address(reward_mint_text()) is Some);
                    assert(parsed_address(proof_mint_text()) is Some);
                }
            },
        }
    }
    r
}

/// The account holding the rent variable for an instruction that may create
/// an account, with the size of the account it would create.
pub open spec fn rent_needed(ix: StakeInstruction) -> Option<(usize, u64)> {
    match ix {
        StakeInstruction::AddToWhitelist { .. } => Some((4, RATE_DATA_LEN as u64)),
        StakeInstruction::Stake => Some((8, STAKE_DATA_LEN as u64)),
        StakeInstruction::GenerateVault { .. } => Some((3, CONTRACT_DATA_LEN as u64)),
        _ => None,
    }
}

pub fn rent_request(ix: &StakeInstruction) -> (r: Option<(usize, u64)>)
    ensures
        r == rent_needed(*ix),
{
    match ix {
        StakeInstruction::AddToWhitelist { .. } => Some((4, RATE_DATA_LEN as u64)),
        StakeInstruction::Stake => Some((8, STAKE_DATA_LEN as u64)),
        StakeInstruction::GenerateVault { .. } => Some((3, CONTRACT_DATA_LEN as u64)),
        _ => None,
    }
}

/// What an instruction asks of the runtime. `clock` is the clock reading (or
/// the error reading it gave); `rent` is the rent-exempt minimum for the size
/// that `rent_needed` names (or the error reading the rent variable gave).
pub open spec fn instruction_plan(
    program_id: Address,
    accs: Seq<AccountView>,
    ix: StakeInstruction,
    clock: Result<i64, ProgramError>,
    rent: Result<u64, ProgramError>,
) -> PlanSpec {
    match configured() {
        None => aborts(seq![], Abort::BadConfiguredAddress),
        Some(cfg) => match ix {
            StakeInstruction::Withdraw { amount } => withdraw_plan(
                cfg,
                accs,
                amount,
                withdraw_keys(cfg, program_id, accs),
            ),
            StakeInstruction::AddToWhitelist { price, maxreward } => whitelist_plan(
                cfg,
                program_id,
                accs,
                RateData { price, maxreward },
                rent,
                derived(whitelist_seeds(accs[1].key), program_id),
            ),
            StakeInstruction::StakeWithdraw => claim_plan(
                cfg,
                accs,
                clock,
                staker_keys(cfg, program_id, accs),
                first_creator(accs[12].data@),
                entry_for(program_id, first_creator(accs[12].data@)),
            ),
            StakeInstruction::Unstake => unstake_plan(
                cfg,
                accs,
                clock,
                staker_keys(cfg, program_id, accs),
                proof_keys(cfg, accs),
                first_creator(accs[12].data@),
                entry_for(program_id, first_creator(accs[12].data@)),
            ),
            StakeInstruction::Stake => open_stake_plan(
                cfg,
                program_id,
                accs,
                clock,
                rent,
                open_keys(program_id, cfg, accs),
            ),
            StakeInstruction::GenerateVault {
                min_period,
                reward_period,
                bonus_percentage,
                bonus_period,
            } => vault_plan(
                cfg,
                program_id,
                accs,
                ContractData { min_period, reward_period, bonus_percentage, bonus_period },
                rent,
                derived(vault_seeds(), program_id),
            ),
        },
    }
}

/// Plans an instruction.
pub fn plan_instruction(
    program_id: &Address,
    accounts: &Vec<AccountView>,
    ix: &StakeInstruction,
    clock: Result<i64, ProgramError>,
    rent: Result<u64, ProgramError>,
) -> (r: Plan)
    ensures
        r@ == instruction_plan(*program_id, accounts@, *ix, clock, rent),
{
    let cfg = match configuration() {
        Some(c) => c,
        None => return abort_with(Vec::new(), Abort::BadConfiguredAddress),
    };
    match ix {
        StakeInstruction::Withdraw { amount } => plan_withdraw(&cfg, program_id, accounts, *amount),
        StakeInstruction::AddToWhitelist { price, maxreward } => plan_add_to_whitelist(
            &cfg,
            program_id,
            accounts,
            *price,
            *maxreward,
            rent,
        ),
        StakeInstruction::StakeWithdraw => plan_stake_withdraw(&cfg, program_id, accounts, clock),
        StakeInstruction::Unstake => plan_unstake(&cfg, program_id, accounts, clock),
        StakeInstruction::Stake => plan_open_stake(&cfg, program_id, accounts, clock, rent),
        StakeInstruction::GenerateVault {
            min_period,
            reward_period,
            bonus_percentage,
            bonus_period,
        } => plan_generate_vault(
            &cfg,
            program_id,
            accounts,
            ContractData {
                min_period: *min_period,
                reward_period: *reward_period,
                bonus_percentage: *bonus_percentage,
                bonus_period: *bonus_period,
            },
            rent,
        ),
    }
}

/// The second step of staking, on the accounts as they are after the first
/// step's actions.
pub open spec fn resume_plan(program_id: Address, accs: Seq<AccountView>, now: i64) -> PlanSpec {
    match configured() {
        None => aborts(seq![], Abort::BadConfiguredAddress),
        Some(cfg) => settle_stake_plan(
            cfg,
            program_id,
            accs,
            now,
            settle_keys(program_id, cfg, accs),
            first_creator(accs[2].data@),
            entry_for(program_id, first_creator(accs[2].data@)),
        ),
    }
}

/// Plans the second step of staking.
pub fn resume_stake(program_id: &Address, accounts: &Vec<AccountView>, now: i64) -> (r: Plan)
    ensures
        r@ == resume_plan(*program_id, accounts@, now),
{
    let cfg = match configuration() {
        Some(c) => c,
        None => return abort_with(Vec::new(), Abort::BadConfiguredAddress),
    };
    plan_settle_stake(&cfg, program_id, accounts, now)
}

} // verus!
