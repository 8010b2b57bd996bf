//! What holds of every instruction: who may do what, what a claim pays, and
//! what a completed instruction leaves behind.

use vstd::prelude::*;
use crate::address::Address;
use crate::codec::{
    ContractData, Record, StakeData, contract_data_from, lemma_contract_data_roundtrip,
    lemma_rate_data_roundtrip, lemma_stake_data_roundtrip, lemma_store_then_read, rate_data_from,
    record_bytes, stake_data_from,
};
use crate::keys::Config;
use crate::plan::{AccountView, Action, Outcome, PlanSpec, Signer, StakeError};
use crate::instruction::StakeInstruction;
use crate::entry::{configured, instruction_plan, resume_plan};
use crate::admin::{RATE_ACCOUNT_SIZE, VAULT_ACCOUNT_SIZE};
use crate::stake::STAKE_ACCOUNT_SIZE;
use crate::admin::{WithdrawKeys, is_admin, vault_plan, whitelist_plan, withdraw_plan};
use crate::claim::{ProofKeys, claim_plan, creator_of, unstake_plan, unstaked};
use crate::reward::{lemma_harvest_within_cap, paid, reward_due, staked_seconds};
use crate::stake::{SettleKeys, carried_harvest, new_stake, settle_stake_plan};
use crate::staking::{FirstCreator, StakerKeys};
use crate::outside::Creator;
use crate::codec::RateData;
use crate::codec::stored;
use crate::outside::metadata_creators;
use crate::plan::top_up;
use crate::stake::open_stake_plan;
use crate::stake::OpenKeys;
use crate::staking::first_creator;
use solana_program::program_error::ProgramError;

verus! {

/// Only the admin withdraws from the vault: a withdrawal that completes was
/// signed by the admin and moves the tokens through the token program.
pub proof fn law_withdraw_needs_admin(cfg: Config, accs: Seq<AccountView>, amount: u64, k: WithdrawKeys)
    requires
        withdraw_plan(cfg, accs, amount, k).outcome is Done,
    ensures
        is_admin(cfg, accs[0]),
        accs[0].key == cfg.admin && accs[0].is_signer,
        accs[6].key == cfg.token_program,
        k.vault is Some && accs[3].key == k.vault.unwrap().0,
        k.admin_holder is Some && accs[1].key == k.admin_holder.unwrap(),
        k.vault_holder is Some && accs[2].key == k.vault_holder.unwrap(),
{
}

/// Only the admin whitelists: a whitelisting that completes was signed by the
/// admin, and it writes the rate into the collection's entry.
pub proof fn law_whitelist_needs_admin(
    cfg: Config,
    program_id: Address,
    accs: Seq<AccountView>,
    rate: RateData,
    rent: Result<u64, ProgramError>,
    entry: Option<(Address, u8)>,
)
    requires
        whitelist_plan(cfg, program_id, accs, rate, rent, entry).outcome is Done,
    ensures
        is_admin(cfg, accs[0]),
        accs[0].key == cfg.admin && accs[0].is_signer,
        entry is Some && accs[2].key == entry.unwrap().0,
        whitelist_plan(cfg, program_id, accs, rate, rent, entry).actions.last() == (Action::Write {
            account: 2,
            record: Record::Rate(rate),
        }),
{
}

/// Only the admin configures the vault: no vault configuration writes the
/// schedule unless the admin signed.
pub proof fn law_vault_needs_admin(
    cfg: Config,
    program_id: Address,
    accs: Seq<AccountView>,
    schedule: ContractData,
    rent: Result<u64, ProgramError>,
    vault: Option<(Address, u8)>,
    i: int,
)
    requires
        0 <= i < vault_plan(cfg, program_id, accs, schedule, rent, vault).actions.len(),
        vault_plan(cfg, program_id, accs, schedule, rent, vault).actions[i] is Write,
    ensures
        is_admin(cfg, accs[0]),
        accs[0].key == cfg.admin && accs[0].is_signer,
        vault is Some && accs[2].key == vault.unwrap().0,
        vault_plan(cfg, program_id, accs, schedule, rent, vault).outcome is Done,
{
}

/// A claim completes only for the staker who signed, on an active stake of an
/// NFT whose first creator is verified that has lasted the vault's minimum
/// period, and it pays exactly the reward due
/// and records that payout without lifting the NFT's lifetime harvest above
/// its collection's cap.
pub proof fn law_claim_pays_the_staker_what_is_due(
    cfg: Config,
    accs: Seq<AccountView>,
    clock: Result<i64, ProgramError>,
    k: StakerKeys,
    md: FirstCreator,
    entry: Option<(Address, u8)>,
)
    requires
        claim_plan(cfg, accs, clock, k, md, entry).outcome is Done,
    ensures
        ({
            let stake = stake_data_from(accs[6].data@).unwrap();
            let schedule = contract_data_from(accs[7].data@).unwrap();
            let rate = rate_data_from(accs[13].data@).unwrap();
            let plan = claim_plan(cfg, accs, clock, k, md, entry);
            &&& accs[0].is_signer
            &&& clock is Ok
            &&& stake_data_from(accs[6].data@) is Some
            &&& stake.active
            &&& stake.staker == accs[0].key
            &&& staked_seconds(clock->Ok_0, stake)->0 >= schedule.min_period
            &&& clock->Ok_0 as u64 >= stake.timestamp
            &&& clock->Ok_0 as u64 - stake.timestamp >= schedule.min_period
            &&& md is First && creator_of(md).verified
            &&& (md matches FirstCreator::First(c) && c.verified)
            &&& entry is Some && accs[13].key == entry.unwrap().0
            &&& reward_due(clock->Ok_0, stake, schedule, rate) is Some
            &&& plan.actions.len() == 3
            &&& plan.actions[1] matches Action::TokenTransfer { amount, source, destination, .. }
                && amount == reward_due(clock->Ok_0, stake, schedule, rate)->0 && source == 9
                && destination == 8
            &&& plan.actions[2] == (Action::Write {
                account: 6,
                record: Record::Stake(paid(stake, reward_due(clock->Ok_0, stake, schedule, rate)->0)),
            })
            &&& paid(stake, reward_due(clock->Ok_0, stake, schedule, rate)->0).harvested <= rate.maxreward
        }),
{
    let stake = stake_data_from(accs[6].data@).unwrap();
    let schedule = contract_data_from(accs[7].data@).unwrap();
    let rate = rate_data_from(accs[13].data@).unwrap();
    lemma_harvest_within_cap(clock->Ok_0, stake, schedule, rate);
}

/// An unstake completes only for the signing staker of an active stake that
/// has lasted the vault's minimum period; it takes back one proof token,
/// returns the NFT and leaves the stake record inactive.
pub proof fn law_unstake_returns_the_nft(
    cfg: Config,
    accs: Seq<AccountView>,
    clock: Result<i64, ProgramError>,
    k: StakerKeys,
    pk: ProofKeys,
    md: FirstCreator,
    entry: Option<(Address, u8)>,
)
    requires
        unstake_plan(cfg, accs, clock, k, pk, md, entry).outcome is Done,
    ensures
        ({
            let stake = stake_data_from(accs[6].data@).unwrap();
            let schedule = contract_data_from(accs[7].data@).unwrap();
            let rate = rate_data_from(accs[13].data@).unwrap();
            let plan = unstake_plan(cfg, accs, clock, k, pk, md, entry);
            let reward = reward_due(clock->Ok_0, stake, schedule, rate)->0;
            &&& accs[0].is_signer
            &&& stake.active
            &&& stake.staker == accs[0].key
            &&& staked_seconds(clock->Ok_0, stake)->0 >= schedule.min_period
            &&& clock->Ok_0 as u64 >= stake.timestamp
            &&& clock->Ok_0 as u64 - stake.timestamp >= schedule.min_period
            &&& (md matches FirstCreator::First(c) && c.verified)
            &&& entry is Some && accs[13].key == entry.unwrap().0
            &&& pk.source is Some && accs[15].key == pk.source.unwrap()
            &&& pk.destination is Some && accs[16].key == pk.destination.unwrap()
            &&& plan.actions.len() == 7
            &&& plan.actions[0] matches Action::TokenTransfer { amount, source, destination, authority, .. }
                && amount == 1 && source == 15 && destination == 16 && authority == 0
            &&& plan.actions[2] matches Action::TokenTransfer { amount, .. } && amount == reward
            &&& plan.actions[4] matches Action::TokenTransfer { amount, source, destination, .. }
                && amount == 1 && source == 11 && destination == 10
            &&& plan.actions[6] == (Action::Write { account: 6, record: Record::Stake(unstaked(stake, reward)) })
            &&& !unstaked(stake, reward).active
            &&& unstaked(stake, reward).harvested <= rate.maxreward
        }),
{
    let stake = stake_data_from(accs[6].data@).unwrap();
    let schedule = contract_data_from(accs[7].data@).unwrap();
    let rate = rate_data_from(accs[13].data@).unwrap();
    lemma_harvest_within_cap(clock->Ok_0, stake, schedule, rate);
}

/// An inactive stake record pays nothing more: no claim on it completes.
pub proof fn law_inactive_stake_cannot_claim(
    cfg: Config,
    accs: Seq<AccountView>,
    clock: Result<i64, ProgramError>,
    k: StakerKeys,
    md: FirstCreator,
    entry: Option<(Address, u8)>,
)
    requires
        stake_data_from(accs[6].data@) is Some,
        !stake_data_from(accs[6].data@).unwrap().active,
    ensures
        !(claim_plan(cfg, accs, clock, k, md, entry).outcome is Done),
{
}

/// Once an unstake's record is written back into the stake account, that
/// account no longer supports a claim.
pub proof fn law_unstaked_record_blocks_claims(
    cfg: Config,
    accs: Seq<AccountView>,
    clock: Result<i64, ProgramError>,
    k: StakerKeys,
    md: FirstCreator,
    entry: Option<(Address, u8)>,
    stake: StakeData,
    reward: u64,
)
    requires
        accs.len() > 6,
        accs[6].data@ == record_bytes(Record::Stake(unstaked(stake, reward))),
    ensures
        !(claim_plan(cfg, accs, clock, k, md, entry).outcome is Done),
{
    lemma_store_then_read(accs[6].data@, Record::Stake(unstaked(stake, reward)));
}

/// Staking completes only for a signing staker, on an NFT whose collection
/// the program whitelisted and whose first creator is verified; it records
/// an active stake by that staker starting at the clock reading, with nothing
/// withdrawn and the NFT's earlier harvest carried over, and it moves one
/// proof token to the staker (creating the staker's holder for the proof
/// mint when missing) and the NFT into the vault.
pub proof fn law_stake_records_an_active_stake(
    cfg: Config,
    program_id: Address,
    accs: Seq<AccountView>,
    now: i64,
    k: SettleKeys,
    md: FirstCreator,
    entry: Option<(Address, u8)>,
)
    requires
        settle_stake_plan(cfg, program_id, accs, now, k, md, entry).outcome is Done,
    ensures
        ({
            let plan = settle_stake_plan(cfg, program_id, accs, now, k, md, entry);
            let s = new_stake(now, accs);
            &&& accs[11].owner == program_id
            &&& md is First && creator_of(md).verified
            &&& rate_data_from(accs[11].data@) is Some
            &&& plan.actions[0] == (Action::Write { account: 10, record: Record::Stake(s) })
            &&& s.active && s.staker == accs[0].key && s.withdrawn == 0
            &&& s.timestamp == now as u64
            &&& s.harvested == carried_harvest(accs[10].data@)
            &&& plan.actions.len() == 5
            &&& plan.actions[1] matches Action::CreateTokenAccount { funder, wallet, mint, holder, mint_info, .. }
                && funder == 0 && wallet == 0 && mint == 12 && holder == 14 && mint_info == 12
            &&& plan.actions[2] matches Action::TokenTransfer { amount, destination, .. } && amount == 1
                && destination == 14
            &&& plan.actions[4] matches Action::TokenTransfer { amount, source, destination, authority, .. }
                && amount == 1 && source == 4 && destination == 5 && authority == 0
        }),
{
}

/// Restaking keeps an NFT's lifetime harvest, so the collection's cap spans
/// all of its stakes.
pub proof fn law_restake_keeps_harvest(now: i64, accs: Seq<AccountView>, old_record: StakeData)
    requires
        accs.len() > 10,
        accs[10].data@ == record_bytes(Record::Stake(old_record)),
    ensures
        new_stake(now, accs).harvested == old_record.harvested,
{
    lemma_store_then_read(accs[10].data@, Record::Stake(old_record));
}

/// Every account an action names is in the instruction's account list.
pub open spec fn names_listed(a: Action, n: int) -> bool {
    match a {
        Action::SystemTransfer { from, to, system, .. } => from < n && to < n && system < n,
        Action::Allocate { account, system, .. } => account < n && system < n,
        Action::Assign { account, system, .. } => account < n && system < n,
        Action::CreateTokenAccount {
            funder,
            wallet,
            mint,
            holder,
            wallet_info,
            mint_info,
            system,
            token,
            rent,
            ata_program,
        } => funder < n && wallet < n && mint < n && holder < n && wallet_info < n && mint_info < n
            && system < n && token < n && rent < n && ata_program < n,
        Action::TokenTransfer { token, source, destination, authority, .. } => token < n && source < n
            && destination < n && authority < n,
        Action::CloseTokenAccount { token, account, destination, authority, .. } => token < n
            && account < n && destination < n && authority < n,
        Action::Write { account, .. } => account < n,
    }
}

pub open spec fn all_listed(p: PlanSpec, n: int) -> bool {
    forall|i: int| 0 <= i < p.actions.len() ==> names_listed(#[trigger] p.actions[i], n)
}

/// A plan only ever names accounts that the instruction was given.
pub proof fn law_plans_name_given_accounts(
    program_id: Address,
    accs: Seq<AccountView>,
    ix: StakeInstruction,
    clock: Result<i64, ProgramError>,
    rent: Result<u64, ProgramError>,
)
    ensures
        all_listed(instruction_plan(program_id, accs, ix, clock, rent), accs.len() as int),
{
}

/// The second step of staking only names accounts it was given.
pub proof fn law_resume_names_given_accounts(program_id: Address, accs: Seq<AccountView>, now: i64)
    ensures
        all_listed(resume_plan(program_id, accs, now), accs.len() as int),
{
}

/// The accounts the program creates are exactly as large as the records it
/// writes into them.
pub proof fn law_created_accounts_fit_their_records(s: StakeData, c: ContractData, r: RateData)
    ensures
        record_bytes(Record::Stake(s)).len() == STAKE_ACCOUNT_SIZE,
        record_bytes(Record::Vault(c)).len() == VAULT_ACCOUNT_SIZE,
        record_bytes(Record::Rate(r)).len() == RATE_ACCOUNT_SIZE,
{
    lemma_stake_data_roundtrip(s);
    lemma_contract_data_roundtrip(c);
    lemma_rate_data_roundtrip(r);
}

// ---------------------------------------------------------------------------
// What each completed instruction asks for, action by action
// ---------------------------------------------------------------------------

/// A completed withdrawal creates the admin's reward holder if missing and
/// moves `amount` from the vault's reward holder (account 2) to the admin's
/// (account 1) through the token program, signed by the vault.
pub proof fn law_withdraw_actions(cfg: Config, accs: Seq<AccountView>, amount: u64, k: WithdrawKeys)
    requires
        withdraw_plan(cfg, accs, amount, k).outcome is Done,
    ensures
        k.vault is Some,
        withdraw_plan(cfg, accs, amount, k).actions == seq![
            Action::CreateTokenAccount {
                funder: 0,
                wallet: 0,
                mint: 4,
                holder: 1,
                wallet_info: 0,
                mint_info: 4,
                system: 5,
                token: 6,
                rent: 7,
                ata_program: 8,
            },
            Action::TokenTransfer {
                token: 6,
                source: 2,
                destination: 1,
                authority: 3,
                amount,
                program_signer: Some(Signer::Vault { bump: k.vault.unwrap().1 }),
            },
        ],
{
    assert(withdraw_plan(cfg, accs, amount, k).actions =~= seq![
        Action::CreateTokenAccount {
            funder: 0,
            wallet: 0,
            mint: 4,
            holder: 1,
            wallet_info: 0,
            mint_info: 4,
            system: 5,
            token: 6,
            rent: 7,
            ata_program: 8,
        },
        Action::TokenTransfer {
            token: 6,
            source: 2,
            destination: 1,
            authority: 3,
            amount,
            program_signer: Some(Signer::Vault { bump: k.vault.unwrap().1 }),
        },
    ]);
}

/// A completed whitelisting writes exactly the given price and cap into the
/// collection's entry (account 2), after creating it with 16 bytes when the
/// program does not own it yet.
pub proof fn law_whitelist_writes_the_rate(
    cfg: Config,
    program_id: Address,
    accs: Seq<AccountView>,
    price: u64,
    maxreward: u64,
    rent: Result<u64, ProgramError>,
    entry: Option<(Address, u8)>,
)
    requires
        whitelist_plan(cfg, program_id, accs, RateData { price, maxreward }, rent, entry).outcome is Done,
    ensures
        ({
            let plan = whitelist_plan(cfg, program_id, accs, RateData { price, maxreward }, rent, entry);
            let n = plan.actions.len();
            &&& plan.actions[n - 1] == (Action::Write {
                account: 2,
                record: Record::Rate(RateData { price, maxreward }),
            })
            &&& n == (if accs[2].owner == program_id { 1int } else { 4int })
            &&& accs[2].owner != program_id ==> plan.actions[1] == (Action::Allocate {
                account: 2,
                system: 3,
                space: 16,
                signer: Signer::Whitelist { collection: accs[1].key, bump: entry.unwrap().1 },
            })
        }),
{
}

/// A completed vault configuration writes exactly the given schedule into
/// the vault (account 2).
pub proof fn law_vault_writes_the_schedule(
    cfg: Config,
    program_id: Address,
    accs: Seq<AccountView>,
    a: u64,
    b: u64,
    c: u64,
    d: u64,
    rent: Result<u64, ProgramError>,
    vault: Option<(Address, u8)>,
)
    requires
        vault_plan(
            cfg,
            program_id,
            accs,
            ContractData { min_period: a, reward_period: b, bonus_percentage: c, bonus_period: d },
            rent,
            vault,
        ).outcome is Done,
    ensures
        ({
            let plan = vault_plan(
                cfg,
                program_id,
                accs,
                ContractData { min_period: a, reward_period: b, bonus_percentage: c, bonus_period: d },
                rent,
                vault,
            );
            plan.actions[plan.actions.len() - 1] == (Action::Write {
                account: 2,
                record: Record::Vault(
                    ContractData { min_period: a, reward_period: b, bonus_percentage: c, bonus_period: d },
                ),
            })
        }),
{
}

/// A completed claim creates the staker's reward holder if missing, moves
/// the reward due from the vault's reward holder (account 9) to the
/// staker's (account 8), signed by the vault (account 7), and records that
/// amount as both withdrawn and harvested.
pub proof fn law_claim_actions(
    cfg: Config,
    accs: Seq<AccountView>,
    clock: Result<i64, ProgramError>,
    k: StakerKeys,
    md: FirstCreator,
    entry: Option<(Address, u8)>,
)
    requires
        claim_plan(cfg, accs, clock, k, md, entry).outcome is Done,
    ensures
        ({
            let stake = stake_data_from(accs[6].data@).unwrap();
            let schedule = contract_data_from(accs[7].data@).unwrap();
            let rate = rate_data_from(accs[13].data@).unwrap();
            let reward = reward_due(clock->Ok_0, stake, schedule, rate)->0;
            claim_plan(cfg, accs, clock, k, md, entry).actions == seq![
                Action::CreateTokenAccount {
                    funder: 0,
                    wallet: 0,
                    mint: 14,
                    holder: 8,
                    wallet_info: 0,
                    mint_info: 14,
                    system: 1,
                    token: 3,
                    rent: 4,
                    ata_program: 5,
                },
                Action::TokenTransfer {
                    token: 3,
                    source: 9,
                    destination: 8,
                    authority: 7,
                    amount: reward,
                    program_signer: Some(Signer::Vault { bump: k.vault.unwrap().1 }),
                },
                Action::Write {
                    account: 6,
                    record: Record::Stake(
                        StakeData {
                            timestamp: stake.timestamp,
                            staker: stake.staker,
                            mint: stake.mint,
                            active: stake.active,
                            withdrawn: (stake.withdrawn + reward) as u64,
                            harvested: (stake.harvested + reward) as u64,
                        },
                    ),
                },
            ]
        }),
{
    let stake = stake_data_from(accs[6].data@).unwrap();
    let schedule = contract_data_from(accs[7].data@).unwrap();
    let rate = rate_data_from(accs[13].data@).unwrap();
    let reward = reward_due(clock->Ok_0, stake, schedule, rate)->0;
    assert(claim_plan(cfg, accs, clock, k, md, entry).actions =~= seq![
        Action::CreateTokenAccount {
            funder: 0,
            wallet: 0,
            mint: 14,
            holder: 8,
            wallet_info: 0,
            mint_info: 14,
            system: 1,
            token: 3,
            rent: 4,
            ata_program: 5,
        },
        Action::TokenTransfer {
            token: 3,
            source: 9,
            destination: 8,
            authority: 7,
            amount: reward,
            program_signer: Some(Signer::Vault { bump: k.vault.unwrap().1 }),
        },
        Action::Write {
            account: 6,
            record: Record::Stake(
                StakeData {
                    timestamp: stake.timestamp,
                    staker: stake.staker,
                    mint: stake.mint,
                    active: stake.active,
                    withdrawn: (stake.withdrawn + reward) as u64,
                    harvested: (stake.harvested + reward) as u64,
                },
            ),
        },
    ]);
}

/// A completed unstake moves one proof token from the staker's proof
/// holder (account 15) to the vault's (account 16) signed by the staker,
/// pays the reward due from the vault's reward holder (account 9) to the
/// staker's (account 8) signed by the vault, returns the NFT from the
/// vault's NFT holder (account 11) to the staker's (account 10), closes the
/// vault's NFT holder into the staker, and records the stake as inactive
/// with the reward counted.
pub proof fn law_unstake_actions(
    cfg: Config,
    accs: Seq<AccountView>,
    clock: Result<i64, ProgramError>,
    k: StakerKeys,
    pk: ProofKeys,
    md: FirstCreator,
    entry: Option<(Address, u8)>,
)
    requires
        unstake_plan(cfg, accs, clock, k, pk, md, entry).outcome is Done,
    ensures
        ({
            let stake = stake_data_from(accs[6].data@).unwrap();
            let schedule = contract_data_from(accs[7].data@).unwrap();
            let rate = rate_data_from(accs[13].data@).unwrap();
            let reward = reward_due(clock->Ok_0, stake, schedule, rate)->0;
            let vault = Signer::Vault { bump: k.vault.unwrap().1 };
            unstake_plan(cfg, accs, clock, k, pk, md, entry).actions == seq![
                Action::TokenTransfer {
                    token: 3,
                    source: 15,
                    destination: 16,
                    authority: 0,
                    amount: 1,
                    program_signer: None,
                },
                Action::CreateTokenAccount {
                    funder: 0,
                    wallet: 0,
                    mint: 14,
                    holder: 8,
                    wallet_info: 0,
                    mint_info: 14,
                    system: 1,
                    token: 3,
                    rent: 4,
                    ata_program: 5,
                },
                Action::TokenTransfer {
                    token: 3,
                    source: 9,
                    destination: 8,
                    authority: 7,
                    amount: reward,
                    program_signer: Some(vault),
                },
                Action::CreateTokenAccount {
                    funder: 0,
                    wallet: 0,
                    mint: 2,
                    holder: 10,
                    wallet_info: 0,
                    mint_info: 2,
                    system: 1,
                    token: 3,
                    rent: 4,
                    ata_program: 5,
                },
                Action::TokenTransfer {
                    token: 3,
                    source: 11,
                    destination: 10,
                    authority: 7,
                    amount: 1,
                    program_signer: Some(vault),
                },
                Action::CloseTokenAccount {
                    token: 3,
                    account: 11,
                    destination: 0,
                    authority: 7,
                    signer: vault,
                },
                Action::Write {
                    account: 6,
                    record: Record::Stake(
                        StakeData {
                            timestamp: stake.timestamp,
                            staker: stake.staker,
                            mint: stake.mint,
                            active: false,
                            withdrawn: (stake.withdrawn + reward) as u64,
                            harvested: (stake.harvested + reward) as u64,
                        },
                    ),
                },
            ]
        }),
{
    let stake = stake_data_from(accs[6].data@).unwrap();
    let schedule = contract_data_from(accs[7].data@).unwrap();
    let rate = rate_data_from(accs[13].data@).unwrap();
    let reward = reward_due(clock->Ok_0, stake, schedule, rate)->0;
    let vault = Signer::Vault { bump: k.vault.unwrap().1 };
    assert(unstake_plan(cfg, accs, clock, k, pk, md, entry).actions =~= seq![
        Action::TokenTransfer {
            token: 3,
            source: 15,
            destination: 16,
            authority: 0,
            amount: 1,
            program_signer: None,
        },
        Action::CreateTokenAccount {
            funder: 0,
            wallet: 0,
            mint: 14,
            holder: 8,
            wallet_info: 0,
            mint_info: 14,
            system: 1,
            token: 3,
            rent: 4,
            ata_program: 5,
        },
        Action::TokenTransfer {
            token: 3,
            source: 9,
            destination: 8,
            authority: 7,
            amount: reward,
            program_signer: Some(vault),
        },
        Action::CreateTokenAccount {
            funder: 0,
            wallet: 0,
            mint: 2,
            holder: 10,
            wallet_info: 0,
            mint_info: 2,
            system: 1,
            token: 3,
            rent: 4,
            ata_program: 5,
        },
        Action::TokenTransfer {
            token: 3,
            source: 11,
            destination: 10,
            authority: 7,
            amount: 1,
            program_signer: Some(vault),
        },
        Action::CloseTokenAccount { token: 3, account: 11, destination: 0, authority: 7, signer: vault },
        Action::Write {
            account: 6,
            record: Record::Stake(
                StakeData {
                    timestamp: stake.timestamp,
                    staker: stake.staker,
                    mint: stake.mint,
                    active: false,
                    withdrawn: (stake.withdrawn + reward) as u64,
                    harvested: (stake.harvested + reward) as u64,
                },
            ),
        },
    ]);
}

/// A completed stake writes a fresh active record (this clock reading, this
/// staker and mint, nothing withdrawn, the earlier harvest kept), creates the
/// staker's holder for the proof mint (account 12) if missing, moves one
/// proof token from the vault's proof holder (account 13) to it signed by
/// the vault, creates the vault's (account 3) holder for the NFT mint
/// (account 1) if missing, and moves the NFT from the staker's holder
/// (account 4) into it signed by the staker.
pub proof fn law_stake_actions(
    cfg: Config,
    program_id: Address,
    accs: Seq<AccountView>,
    now: i64,
    k: SettleKeys,
    md: FirstCreator,
    entry: Option<(Address, u8)>,
)
    requires
        settle_stake_plan(cfg, program_id, accs, now, k, md, entry).outcome is Done,
    ensures
        ({
            let harvested: u64 = match stake_data_from(accs[10].data@) {
                Some(d) => d.harvested,
                None => 0,
            };
            settle_stake_plan(cfg, program_id, accs, now, k, md, entry).actions == seq![
                Action::Write {
                    account: 10,
                    record: Record::Stake(
                        StakeData {
                            timestamp: now as u64,
                            staker: accs[0].key,
                            mint: accs[1].key,
                            active: true,
                            withdrawn: 0,
                            harvested,
                        },
                    ),
                },
                Action::CreateTokenAccount {
                    funder: 0,
                    wallet: 0,
                    mint: 12,
                    holder: 14,
                    wallet_info: 0,
                    mint_info: 12,
                    system: 7,
                    token: 6,
                    rent: 8,
                    ata_program: 9,
                },
                Action::TokenTransfer {
                    token: 6,
                    source: 13,
                    destination: 14,
                    authority: 3,
                    amount: 1,
                    program_signer: Some(Signer::Vault { bump: k.vault.unwrap().1 }),
                },
                Action::CreateTokenAccount {
                    funder: 0,
                    wallet: 3,
                    mint: 1,
                    holder: 5,
                    wallet_info: 3,
                    mint_info: 1,
                    system: 7,
                    token: 6,
                    rent: 8,
                    ata_program: 9,
                },
                Action::TokenTransfer {
                    token: 6,
                    source: 4,
                    destination: 5,
                    authority: 0,
                    amount: 1,
                    program_signer: None,
                },
            ]
        }),
{
    let harvested: u64 = match stake_data_from(accs[10].data@) {
        Some(d) => d.harvested,
        None => 0,
    };
    assert(settle_stake_plan(cfg, program_id, accs, now, k, md, entry).actions =~= seq![
        Action::Write {
            account: 10,
            record: Record::Stake(
                StakeData {
                    timestamp: now as u64,
                    staker: accs[0].key,
                    mint: accs[1].key,
                    active: true,
                    withdrawn: 0,
                    harvested,
                },
            ),
        },
        Action::CreateTokenAccount {
            funder: 0,
            wallet: 0,
            mint: 12,
            holder: 14,
            wallet_info: 0,
            mint_info: 12,
            system: 7,
            token: 6,
            rent: 8,
            ata_program: 9,
        },
        Action::TokenTransfer {
            token: 6,
            source: 13,
            destination: 14,
            authority: 3,
            amount: 1,
            program_signer: Some(Signer::Vault { bump: k.vault.unwrap().1 }),
        },
        Action::CreateTokenAccount {
            funder: 0,
            wallet: 3,
            mint: 1,
            holder: 5,
            wallet_info: 3,
            mint_info: 1,
            system: 7,
            token: 6,
            rent: 8,
            ata_program: 9,
        },
        Action::TokenTransfer {
            token: 6,
            source: 4,
            destination: 5,
            authority: 0,
            amount: 1,
            program_signer: None,
        },
    ]);
}

// ---------------------------------------------------------------------------
// Building blocks
// ---------------------------------------------------------------------------

/// The collection of an NFT is its metadata's first listed creator.
pub proof fn law_first_creator_is_listed_first(data: Seq<u8>, c: Creator)
    requires
        first_creator(data) == FirstCreator::First(c),
    ensures
        data.len() > 0,
        metadata_creators(data) is Ok,
        metadata_creators(data)->Ok_0 is Some,
        metadata_creators(data)->Ok_0.unwrap().len() > 0,
        metadata_creators(data)->Ok_0.unwrap()[0] == c,
{
}

/// Staked seconds are the clock reading (taken as unsigned) less the stake's
/// start, and there are none when the start lies after the reading.
pub proof fn law_staked_seconds(now: i64, stake: StakeData)
    ensures
        staked_seconds(now, stake) is None <==> (now as u64) < stake.timestamp,
        staked_seconds(now, stake) is Some ==> staked_seconds(now, stake)->0 + stake.timestamp == now as u64,
{
}

/// The lamports added to an account being created bring it to the
/// rent-exempt minimum (at least one lamport), and nothing is added to an
/// account that holds that much already.
pub proof fn law_top_up(minimum: u64, held: u64)
    ensures
        held < minimum ==> top_up(minimum, held) + held == minimum,
        held == 0 && minimum == 0 ==> top_up(minimum, held) == 1,
        held >= minimum && held >= 1 ==> top_up(minimum, held) == 0,
        top_up(minimum, held) + held >= minimum,
{
}

/// Writing a record keeps the account's size, puts the record's bytes at
/// the start and leaves the rest of the data alone; it fails only when the
/// data is shorter than the record.
pub proof fn law_store_shape(data: Seq<u8>, r: Record)
    ensures
        (stored(data, r) is None) <==> data.len() < record_bytes(r).len(),
        stored(data, r) is Some ==> ({
            let out = stored(data, r)->0;
            let n = record_bytes(r).len() as int;
            &&& out.len() == data.len()
            &&& out.subrange(0, n) == record_bytes(r)
            &&& out.subrange(n, out.len() as int) == data.subrange(n, data.len() as int)
        }),
{
    if stored(data, r) is Some {
        let out = stored(data, r)->0;
        let n = record_bytes(r).len() as int;
        assert(out.subrange(0, n) =~= record_bytes(r));
        assert(out.subrange(n, out.len() as int) =~= data.subrange(n, data.len() as int));
    }
}

/// The first step of staking goes on only for a signing staker whose proof
/// mint, proof holders, token program and stake record are the right ones;
/// it creates the stake record (89 bytes, owned by the program, signed with
/// the NFT's seeds) exactly when the program does not own it yet.
pub proof fn law_open_stake(
    cfg: Config,
    program_id: Address,
    accs: Seq<AccountView>,
    clock: Result<i64, ProgramError>,
    rent: Result<u64, ProgramError>,
    k: OpenKeys,
)
    requires
        open_stake_plan(cfg, program_id, accs, clock, rent, k).outcome is Resume,
    ensures
        ({
            let plan = open_stake_plan(cfg, program_id, accs, clock, rent, k);
            let signer = Signer::Stake { mint: accs[1].key, bump: k.stake.unwrap().1 };
            &&& clock is Ok && rent is Ok
            &&& accs[0].is_signer
            &&& accs[12].key == cfg.proof_mint
            &&& accs[6].key == cfg.token_program
            &&& k.staker_proof_holder is Some && accs[14].key == k.staker_proof_holder.unwrap()
            &&& k.vault_proof_holder is Some && accs[13].key == k.vault_proof_holder.unwrap()
            &&& k.stake is Some && accs[10].key == k.stake.unwrap().0
            &&& accs[10].owner == program_id ==> plan.actions.len() == 0
            &&& accs[10].owner != program_id ==> plan.actions == seq![
                Action::SystemTransfer { from: 0, to: 10, system: 7, lamports: top_up(rent->Ok_0, accs[10].lamports) },
                Action::Allocate { account: 10, system: 7, space: 89, signer },
                Action::Assign { account: 10, system: 7, owner: program_id, signer },
            ]
        }),
{
}

/// A completed vault configuration creates the vault (32 bytes, owned by
/// the program, signed with the vault's seeds) exactly when the program does
/// not own it yet, and writes the schedule last.
pub proof fn law_vault_creation(
    cfg: Config,
    program_id: Address,
    accs: Seq<AccountView>,
    schedule: ContractData,
    rent: Result<u64, ProgramError>,
    vault: Option<(Address, u8)>,
)
    requires
        vault_plan(cfg, program_id, accs, schedule, rent, vault).outcome is Done,
    ensures
        ({
            let plan = vault_plan(cfg, program_id, accs, schedule, rent, vault);
            let signer = Signer::Vault { bump: vault.unwrap().1 };
            &&& accs[2].owner == program_id ==> plan.actions == seq![
                Action::Write { account: 2, record: Record::Vault(schedule) },
            ]
            &&& accs[2].owner != program_id ==> plan.actions == seq![
                Action::SystemTransfer { from: 0, to: 2, system: 1, lamports: top_up(rent->Ok_0, accs[2].lamports) },
                Action::Allocate { account: 2, system: 1, space: 32, signer },
                Action::Assign { account: 2, system: 1, owner: program_id, signer },
                Action::Write { account: 2, record: Record::Vault(schedule) },
            ]
        }),
{
    let plan = vault_plan(cfg, program_id, accs, schedule, rent, vault);
    let signer = Signer::Vault { bump: vault.unwrap().1 };
    if accs[2].owner != program_id {
        assert(plan.actions =~= seq![
            Action::SystemTransfer { from: 0, to: 2, system: 1, lamports: top_up(rent->Ok_0, accs[2].lamports) },
            Action::Allocate { account: 2, system: 1, space: 32, signer },
            Action::Assign { account: 2, system: 1, owner: program_id, signer },
            Action::Write { account: 2, record: Record::Vault(schedule) },
        ]);
    } else {
        assert(plan.actions =~= seq![Action::Write { account: 2, record: Record::Vault(schedule) }]);
    }
}

/// A completed whitelisting creates the entry (16 bytes, owned by the
/// program, signed with the collection's seeds) exactly when the program does
/// not own it yet, and writes the rate last.
pub proof fn law_whitelist_creation(
    cfg: Config,
    program_id: Address,
    accs: Seq<AccountView>,
    rate: RateData,
    rent: Result<u64, ProgramError>,
    entry: Option<(Address, u8)>,
)
    requires
        whitelist_plan(cfg, program_id, accs, rate, rent, entry).outcome is Done,
    ensures
        ({
            let plan = whitelist_plan(cfg, program_id, accs, rate, rent, entry);
            let signer = Signer::Whitelist { collection: accs[1].key, bump: entry.unwrap().1 };
            &&& accs[2].owner == program_id ==> plan.actions == seq![
                Action::Write { account: 2, record: Record::Rate(rate) },
            ]
            &&& accs[2].owner != program_id ==> plan.actions == seq![
                Action::SystemTransfer { from: 0, to: 2, system: 3, lamports: top_up(rent->Ok_0, accs[2].lamports) },
                Action::Allocate { account: 2, system: 3, space: 16, signer },
                Action::Assign { account: 2, system: 3, owner: program_id, signer },
                Action::Write { account: 2, record: Record::Rate(rate) },
            ]
        }),
{
    let plan = whitelist_plan(cfg, program_id, accs, rate, rent, entry);
    let signer = Signer::Whitelist { collection: accs[1].key, bump: entry.unwrap().1 };
    if accs[2].owner != program_id {
        assert(plan.actions =~= seq![
            Action::SystemTransfer { from: 0, to: 2, system: 3, lamports: top_up(rent->Ok_0, accs[2].lamports) },
            Action::Allocate { account: 2, system: 3, space: 16, signer },
            Action::Assign { account: 2, system: 3, owner: program_id, signer },
            Action::Write { account: 2, record: Record::Rate(rate) },
        ]);
    } else {
        assert(plan.actions =~= seq![Action::Write { account: 2, record: Record::Rate(rate) }]);
    }
}

// ---------------------------------------------------------------------------
// Refusals say why
// ---------------------------------------------------------------------------

/// A claim refused for a missing signature, an inactive stake, another
/// staker or a too-short stake was refused for that reason.
pub proof fn law_claim_refusals_are_justified(
    cfg: Config,
    accs: Seq<AccountView>,
    clock: Result<i64, ProgramError>,
    k: StakerKeys,
    md: FirstCreator,
    entry: Option<(Address, u8)>,
)
    ensures
        ({
            let out = claim_plan(cfg, accs, clock, k, md, entry).outcome;
            let stake = stake_data_from(accs[6].data@).unwrap();
            let schedule = contract_data_from(accs[7].data@).unwrap();
            &&& out == Outcome::Fail(StakeError::Custom(0x11)) ==> !accs[0].is_signer
            &&& out == Outcome::Fail(StakeError::Custom(0x107)) ==> stake_data_from(accs[6].data@) is Some && !stake.active
            &&& out == Outcome::Fail(StakeError::Custom(0x108)) ==> stake_data_from(accs[6].data@) is Some && stake.staker != accs[0].key
            &&& out == Outcome::Fail(StakeError::Custom(0x109)) ==> clock is Ok && stake_data_from(accs[6].data@) is Some
                && contract_data_from(accs[7].data@) is Some && clock->Ok_0 as u64 >= stake.timestamp
                && clock->Ok_0 as u64 - stake.timestamp < schedule.min_period
        }),
{
}

/// An unstake refused for a missing signature, an inactive stake, another
/// staker or a too-short stake was refused for that reason.
pub proof fn law_unstake_refusals_are_justified(
    cfg: Config,
    accs: Seq<AccountView>,
    clock: Result<i64, ProgramError>,
    k: StakerKeys,
    pk: ProofKeys,
    md: FirstCreator,
    entry: Option<(Address, u8)>,
)
    ensures
        ({
            let out = unstake_plan(cfg, accs, clock, k, pk, md, entry).outcome;
            let stake = stake_data_from(accs[6].data@).unwrap();
            let schedule = contract_data_from(accs[7].data@).unwrap();
            &&& out == Outcome::Fail(StakeError::Custom(0x11)) ==> !accs[0].is_signer
            &&& out == Outcome::Fail(StakeError::Custom(0x107)) ==> stake_data_from(accs[6].data@) is Some && !stake.active
            &&& out == Outcome::Fail(StakeError::Custom(0x108)) ==> stake_data_from(accs[6].data@) is Some && stake.staker != accs[0].key
            &&& out == Outcome::Fail(StakeError::Custom(0x109)) ==> clock is Ok && stake_data_from(accs[6].data@) is Some
                && contract_data_from(accs[7].data@) is Some && clock->Ok_0 as u64 >= stake.timestamp
                && clock->Ok_0 as u64 - stake.timestamp < schedule.min_period
        }),
{
}

/// A withdrawal refused as unauthorised came from someone other than the
/// signing admin.
pub proof fn law_withdraw_refusal_is_justified(cfg: Config, accs: Seq<AccountView>, amount: u64, k: WithdrawKeys)
    ensures
        withdraw_plan(cfg, accs, amount, k).outcome == Outcome::Fail(StakeError::Custom(0x231))
            ==> !(accs[0].key == cfg.admin && accs[0].is_signer),
{
}

} // verus!
