use borsh::BorshSerialize;
use nft_staking::address::Address;
use nft_staking::codec::{
    encode_contract_data, encode_rate_data, encode_stake_data, ContractData, RateData, Record,
    StakeData,
};
use nft_staking::entry::{plan_instruction, rent_request, resume_stake};
use nft_staking::instruction::StakeInstruction;
use nft_staking::keys::{program_config, signer_seeds, Config};
use nft_staking::plan::{needs_token_account, Abort, AccountView, Action, Outcome, Plan, Signer, StakeError};
use solana_program::program_error::ProgramError;
use solana_program::pubkey::Pubkey;
use spl_associated_token_account::get_associated_token_address;
use spl_token_metadata::state::{Creator, Data, Key, Metadata, MAX_METADATA_LEN};

fn pid() -> Pubkey {
    Pubkey::new_from_array([42u8; 32])
}

fn cfg() -> Config {
    program_config().unwrap()
}

fn pk(a: &Address) -> Pubkey {
    Pubkey::new_from_array(*a)
}

fn account(key: Pubkey) -> AccountView {
    AccountView { key: key.to_bytes(), is_signer: false, owner: [0u8; 32], lamports: 0, data: Vec::new() }
}

fn signer(key: Pubkey) -> AccountView {
    AccountView { is_signer: true, ..account(key) }
}

fn owned(key: Pubkey, owner: Pubkey, data: Vec<u8>) -> AccountView {
    AccountView { owner: owner.to_bytes(), data, ..account(key) }
}

fn vault() -> (Pubkey, u8) {
    Pubkey::find_program_address(&[b"vault"], &pid())
}

fn run(accounts: &Vec<AccountView>, ix: StakeInstruction, clock: i64, rent: u64) -> Plan {
    plan_instruction(&pid().to_bytes(), accounts, &ix, Ok(clock), Ok(rent))
}

fn custom(code: u32) -> Outcome {
    Outcome::Fail(StakeError::Custom(code))
}

// ---------------------------------------------------------------------------
// Configuration and derived addresses
// ---------------------------------------------------------------------------

#[test]
fn configuration_matches_the_program_constants() {
    let c = cfg();
    assert_eq!(pk(&c.admin), "9urEjHV3Wm4Pv4Da8uuufRoAuLT9FNAm97wHy3qF9pYy".parse::<Pubkey>().unwrap());
    assert_eq!(pk(&c.reward_mint), "9gw5yXb2XCkqTTywcqYj9CE3LBuEeWCNDtRqbaJ4Xc1W".parse::<Pubkey>().unwrap());
    assert_eq!(pk(&c.proof_mint), "Eurhvwdurf1f5UmqryoqscP3Xps2uibqaN7zT1AkxEhw".parse::<Pubkey>().unwrap());
    assert_eq!(pk(&c.token_program), spl_token::id());
    assert_eq!(pk(&c.metadata_program), spl_token_metadata::ID);
    assert_eq!(pk(&c.ata_program), spl_associated_token_account::id());
}

#[test]
fn derived_addresses_match_the_runtime() {
    let c = cfg();
    let (v, bump) = vault();
    assert_eq!(nft_staking::keys::vault_address(&pid().to_bytes()), Some((v.to_bytes(), bump)));
    let wallet = Pubkey::new_from_array([3u8; 32]);
    let mint = Pubkey::new_from_array([4u8; 32]);
    assert_eq!(
        nft_staking::keys::associated_address(&c, &wallet.to_bytes(), &mint.to_bytes()),
        Some(get_associated_token_address(&wallet, &mint).to_bytes())
    );
    let (stake, sb) = Pubkey::find_program_address(&[&mint.to_bytes()], &pid());
    assert_eq!(
        nft_staking::keys::stake_address(&pid().to_bytes(), &mint.to_bytes()),
        Some((stake.to_bytes(), sb))
    );
    let (wl, wb) = Pubkey::find_program_address(&[b"whitelist", &wallet.to_bytes()], &pid());
    assert_eq!(
        nft_staking::keys::whitelist_address(&pid().to_bytes(), &wallet.to_bytes()),
        Some((wl.to_bytes(), wb))
    );
    let md_id = spl_token_metadata::ID;
    let (md, mb) = Pubkey::find_program_address(&[b"metadata", &md_id.to_bytes(), &mint.to_bytes()], &md_id);
    assert_eq!(nft_staking::keys::metadata_address(&c, &mint.to_bytes()), Some((md.to_bytes(), mb)));
}

#[test]
fn signer_seeds_are_word_key_and_bump() {
    assert_eq!(signer_seeds(&Signer::Vault { bump: 7 }), vec![b"vault".to_vec(), vec![7]]);
    assert_eq!(
        signer_seeds(&Signer::Whitelist { collection: [1u8; 32], bump: 9 }),
        vec![b"whitelist".to_vec(), vec![1u8; 32], vec![9]]
    );
    assert_eq!(signer_seeds(&Signer::Stake { mint: [2u8; 32], bump: 3 }), vec![vec![2u8; 32], vec![3]]);
}

#[test]
fn rent_is_read_for_account_creating_instructions() {
    assert_eq!(rent_request(&StakeInstruction::AddToWhitelist { price: 1, maxreward: 2 }), Some((4, 16)));
    assert_eq!(rent_request(&StakeInstruction::Stake), Some((8, 89)));
    assert_eq!(
        rent_request(&StakeInstruction::GenerateVault {
            min_period: 0,
            reward_period: 1,
            bonus_percentage: 0,
            bonus_period: 1
        }),
        Some((3, 32))
    );
    assert_eq!(rent_request(&StakeInstruction::Unstake), None);
}

// ---------------------------------------------------------------------------
// Withdraw
// ---------------------------------------------------------------------------

fn withdraw_accounts(admin_signs: bool) -> Vec<AccountView> {
    let c = cfg();
    let admin = pk(&c.admin);
    let reward = pk(&c.reward_mint);
    let (v, _) = vault();
    let mut first = account(admin);
    first.is_signer = admin_signs;
    vec![
        first,
        account(get_associated_token_address(&admin, &reward)),
        account(get_associated_token_address(&v, &reward)),
        account(v),
        account(reward),
        account(Pubkey::new_from_array([0u8; 32])),
        account(spl_token::id()),
        account(solana_program::sysvar::rent::id()),
        account(spl_associated_token_account::id()),
    ]
}

#[test]
fn withdraw_by_admin_moves_the_amount() {
    let plan = run(&withdraw_accounts(true), StakeInstruction::Withdraw { amount: 10 }, 0, 0);
    assert_eq!(plan.outcome, Outcome::Done);
    assert_eq!(plan.actions.len(), 2);
    assert!(matches!(plan.actions[0], Action::CreateTokenAccount { holder: 1, mint: 4, .. }));
    assert_eq!(
        plan.actions[1],
        Action::TokenTransfer {
            token: 6,
            source: 2,
            destination: 1,
            authority: 3,
            amount: 10,
            program_signer: Some(Signer::Vault { bump: vault().1 }),
        }
    );
}

#[test]
fn withdraw_refuses_others() {
    let plan = run(&withdraw_accounts(false), StakeInstruction::Withdraw { amount: 10 }, 0, 0);
    assert_eq!(plan.outcome, custom(0x231));
    assert!(plan.actions.is_empty());
    let mut accs = withdraw_accounts(true);
    accs[0] = signer(Pubkey::new_from_array([8u8; 32]));
    assert_eq!(run(&accs, StakeInstruction::Withdraw { amount: 10 }, 0, 0).outcome, custom(0x231));
}

#[test]
fn withdraw_checks_vault_and_holders() {
    let mut accs = withdraw_accounts(true);
    accs[3] = account(Pubkey::new_from_array([8u8; 32]));
    assert_eq!(run(&accs, StakeInstruction::Withdraw { amount: 1 }, 0, 0).outcome, custom(0x261));
    let mut accs = withdraw_accounts(true);
    accs[1] = account(Pubkey::new_from_array([8u8; 32]));
    assert_eq!(run(&accs, StakeInstruction::Withdraw { amount: 1 }, 0, 0).outcome, custom(0x262));
    let mut accs = withdraw_accounts(true);
    accs[2] = account(Pubkey::new_from_array([8u8; 32]));
    assert_eq!(run(&accs, StakeInstruction::Withdraw { amount: 1 }, 0, 0).outcome, custom(0x263));
}

#[test]
fn withdraw_through_another_program_fails_after_creating_the_holder() {
    let mut accs = withdraw_accounts(true);
    accs[6] = account(Pubkey::new_from_array([8u8; 32]));
    let plan = run(&accs, StakeInstruction::Withdraw { amount: 1 }, 0, 0);
    assert_eq!(plan.outcome, Outcome::Fail(StakeError::IncorrectProgramId));
    assert_eq!(plan.actions.len(), 1);
    assert!(matches!(plan.actions[0], Action::CreateTokenAccount { holder: 1, .. }));
}

#[test]
fn too_few_accounts() {
    let mut accs = withdraw_accounts(true);
    accs.pop();
    let plan = run(&accs, StakeInstruction::Withdraw { amount: 1 }, 0, 0);
    assert_eq!(plan.outcome, Outcome::Fail(StakeError::NotEnoughAccountKeys));
    let plan = run(&Vec::new(), StakeInstruction::Unstake, 0, 0);
    assert_eq!(plan.outcome, Outcome::Fail(StakeError::NotEnoughAccountKeys));
}

// ---------------------------------------------------------------------------
// AddToWhitelist and GenerateVault
// ---------------------------------------------------------------------------

fn whitelist_accounts(candy: Pubkey, entry_owner: Pubkey, lamports: u64) -> Vec<AccountView> {
    let admin = pk(&cfg().admin);
    let (entry, _) = Pubkey::find_program_address(&[b"whitelist", &candy.to_bytes()], &pid());
    let mut e = owned(entry, entry_owner, vec![0u8; 16]);
    e.lamports = lamports;
    vec![signer(admin), account(candy), e, account(Pubkey::new_from_array([0u8; 32])), account(solana_program::sysvar::rent::id())]
}

#[test]
fn whitelisting_creates_and_writes_the_entry() {
    let candy = Pubkey::new_from_array([77u8; 32]);
    let (_, bump) = Pubkey::find_program_address(&[b"whitelist", &candy.to_bytes()], &pid());
    let ix = StakeInstruction::AddToWhitelist { price: 1, maxreward: 30 };
    let plan = run(&whitelist_accounts(candy, Pubkey::new_from_array([0u8; 32]), 100), ix, 0, 1_000_000);
    assert_eq!(plan.outcome, Outcome::Done);
    let s = Signer::Whitelist { collection: candy.to_bytes(), bump };
    assert_eq!(
        plan.actions,
        vec![
            Action::SystemTransfer { from: 0, to: 2, system: 3, lamports: 999_900 },
            Action::Allocate { account: 2, system: 3, space: 16, signer: s },
            Action::Assign { account: 2, system: 3, owner: pid().to_bytes(), signer: s },
            Action::Write { account: 2, record: Record::Rate(RateData { price: 1, maxreward: 30 }) },
        ]
    );
    // An entry the program owns already is only rewritten.
    let plan = run(&whitelist_accounts(candy, pid(), 100), ix, 0, 1_000_000);
    assert_eq!(plan.actions.len(), 1);
    // A funded account gets no lamports, yet is still funded with at least one.
    let plan = run(&whitelist_accounts(candy, Pubkey::new_from_array([0u8; 32]), 2_000_000), ix, 0, 1_000_000);
    assert!(matches!(plan.actions[0], Action::SystemTransfer { lamports: 0, .. }));
    let plan = run(&whitelist_accounts(candy, Pubkey::new_from_array([0u8; 32]), 0), ix, 0, 0);
    assert!(matches!(plan.actions[0], Action::SystemTransfer { lamports: 1, .. }));
}

#[test]
fn whitelisting_errors() {
    let candy = Pubkey::new_from_array([77u8; 32]);
    let ix = StakeInstruction::AddToWhitelist { price: 1, maxreward: 30 };
    let mut accs = whitelist_accounts(candy, pid(), 0);
    accs[0].is_signer = false;
    assert_eq!(run(&accs, ix, 0, 0).outcome, custom(0x31));
    let mut accs = whitelist_accounts(candy, pid(), 0);
    accs[1] = account(Pubkey::new_from_array([78u8; 32]));
    assert_eq!(run(&accs, ix, 0, 0).outcome, custom(0x32));
    let accs = whitelist_accounts(candy, pid(), 0);
    let plan = plan_instruction(&pid().to_bytes(), &accs, &ix, Ok(0), Err(ProgramError::InvalidArgument));
    assert_eq!(plan.outcome, Outcome::Fail(StakeError::Program(ProgramError::InvalidArgument)));
}

#[test]
fn vault_configuration_checks_the_admin_after_creating() {
    let (v, bump) = vault();
    let schedule = ContractData { min_period: 60, reward_period: 10, bonus_percentage: 0, bonus_period: 30 };
    let ix = StakeInstruction::GenerateVault {
        min_period: 60,
        reward_period: 10,
        bonus_percentage: 0,
        bonus_period: 30,
    };
    let stranger = signer(Pubkey::new_from_array([9u8; 32]));
    let accs = vec![stranger, account(Pubkey::new_from_array([0u8; 32])), account(v), account(Pubkey::new_from_array([1u8; 32]))];
    let plan = run(&accs, ix, 0, 500);
    assert_eq!(plan.outcome, custom(0x02));
    assert_eq!(plan.actions.len(), 3);
    assert_eq!(plan.actions[1], Action::Allocate { account: 2, system: 1, space: 32, signer: Signer::Vault { bump } });
    let mut accs = accs;
    accs[0] = signer(pk(&cfg().admin));
    accs[2].owner = pid().to_bytes();
    let plan = run(&accs, ix, 0, 500);
    assert_eq!(plan.outcome, Outcome::Done);
    assert_eq!(plan.actions, vec![Action::Write { account: 2, record: Record::Vault(schedule) }]);
    let mut wrong = accs.clone_views();
    wrong[2] = account(Pubkey::new_from_array([5u8; 32]));
    assert_eq!(run(&wrong, ix, 0, 500).outcome, custom(0x00));
}

trait CloneViews {
    fn clone_views(&self) -> Vec<AccountView>;
}

impl CloneViews for Vec<AccountView> {
    fn clone_views(&self) -> Vec<AccountView> {
        self.iter()
            .map(|a| AccountView {
                key: a.key,
                is_signer: a.is_signer,
                owner: a.owner,
                lamports: a.lamports,
                data: a.data.clone(),
            })
            .collect()
    }
}

// ---------------------------------------------------------------------------
// Claiming and unstaking
// ---------------------------------------------------------------------------

const NFT: [u8; 32] = [21u8; 32];
const CANDY: [u8; 32] = [22u8; 32];
const STAKER: [u8; 32] = [23u8; 32];

fn metadata_bytes(creators: Option<Vec<Creator>>) -> Vec<u8> {
    let md = Metadata {
        key: Key::MetadataV1,
        update_authority: Pubkey::new_from_array([1u8; 32]),
        mint: Pubkey::new_from_array(NFT),
        data: Data {
            name: "n".to_string(),
            symbol: "s".to_string(),
            uri: "u".to_string(),
            seller_fee_basis_points: 0,
            creators,
        },
        primary_sale_happened: false,
        is_mutable: true,
        edition_nonce: None,
    };
    let mut bytes = md.try_to_vec().unwrap();
    bytes.resize(MAX_METADATA_LEN, 0);
    bytes
}

fn creators(verified: bool) -> Option<Vec<Creator>> {
    Some(vec![Creator { address: Pubkey::new_from_array(CANDY), verified, share: 0 }])
}

fn staker_accounts(stake: StakeData, metadata: Vec<u8>, unstaking: bool) -> Vec<AccountView> {
    let c = cfg();
    let staker = Pubkey::new_from_array(STAKER);
    let nft = Pubkey::new_from_array(NFT);
    let reward = pk(&c.reward_mint);
    let (v, _) = vault();
    let (stake_key, _) = Pubkey::find_program_address(&[&NFT], &pid());
    let md_id = spl_token_metadata::ID;
    let (md, _) = Pubkey::find_program_address(&[b"metadata", &md_id.to_bytes(), &NFT], &md_id);
    let (wl, _) = Pubkey::find_program_address(&[b"whitelist", &CANDY], &pid());
    let schedule = ContractData { min_period: 60, reward_period: 10, bonus_percentage: 5, bonus_period: 30 };
    let mut accs = vec![
        signer(staker),
        account(Pubkey::new_from_array([0u8; 32])),
        account(nft),
        account(spl_token::id()),
        account(solana_program::sysvar::rent::id()),
        account(spl_associated_token_account::id()),
        owned(stake_key, pid(), encode_stake_data(&stake)),
        owned(v, pid(), encode_contract_data(&schedule)),
        account(get_associated_token_address(&staker, &reward)),
        account(get_associated_token_address(&v, &reward)),
        account(get_associated_token_address(&staker, &nft)),
        account(get_associated_token_address(&v, &nft)),
        owned(md, md_id, metadata),
        owned(wl, pid(), encode_rate_data(&RateData { price: 1, maxreward: 1000 })),
        account(reward),
    ];
    if unstaking {
        let proof = pk(&c.proof_mint);
        accs.push(account(get_associated_token_address(&staker, &proof)));
        accs.push(account(get_associated_token_address(&v, &proof)));
    }
    accs
}

fn active_stake() -> StakeData {
    StakeData { timestamp: 0, staker: STAKER, mint: NFT, active: true, withdrawn: 0, harvested: 0 }
}

#[test]
fn claim_pays_the_reward_due() {
    let accs = staker_accounts(active_stake(), metadata_bytes(creators(true)), false);
    let plan = run(&accs, StakeInstruction::StakeWithdraw, 1000, 0);
    assert_eq!(plan.outcome, Outcome::Done);
    assert_eq!(plan.actions.len(), 3);
    assert!(matches!(plan.actions[0], Action::CreateTokenAccount { holder: 8, mint: 14, .. }));
    assert_eq!(
        plan.actions[1],
        Action::TokenTransfer {
            token: 3,
            source: 9,
            destination: 8,
            authority: 7,
            amount: 265,
            program_signer: Some(Signer::Vault { bump: vault().1 }),
        }
    );
    assert_eq!(
        plan.actions[2],
        Action::Write {
            account: 6,
            record: Record::Stake(StakeData { withdrawn: 265, harvested: 265, ..active_stake() }),
        }
    );
}

#[test]
fn claiming_waits_for_the_minimum_period() {
    let accs = staker_accounts(active_stake(), metadata_bytes(creators(true)), false);
    assert_eq!(run(&accs, StakeInstruction::StakeWithdraw, 59, 0).outcome, custom(0x109));
    let plan = run(&accs, StakeInstruction::StakeWithdraw, 60, 0);
    assert_eq!(plan.outcome, Outcome::Done);
    // 6 periods, 2 bonus periods of 5 %: 6 + 6 * 10 / 100.
    assert!(matches!(plan.actions[1], Action::TokenTransfer { amount: 6, .. }));
}

#[test]
fn claim_refusals() {
    let md = metadata_bytes(creators(true));
    let mut accs = staker_accounts(active_stake(), md.clone(), false);
    accs[0].is_signer = false;
    assert_eq!(run(&accs, StakeInstruction::StakeWithdraw, 1000, 0).outcome, custom(0x11));
    let mut accs = staker_accounts(active_stake(), md.clone(), false);
    accs[3] = account(Pubkey::new_from_array([3u8; 32]));
    assert_eq!(run(&accs, StakeInstruction::StakeWithdraw, 1000, 0).outcome, custom(0x345));
    let mut accs = staker_accounts(active_stake(), md.clone(), false);
    accs[14] = account(Pubkey::new_from_array([3u8; 32]));
    assert_eq!(run(&accs, StakeInstruction::StakeWithdraw, 1000, 0).outcome, custom(0x67));
    let accs = staker_accounts(active_stake(), metadata_bytes(creators(false)), false);
    assert_eq!(run(&accs, StakeInstruction::StakeWithdraw, 1000, 0).outcome, custom(0x106));
    let inactive = StakeData { active: false, ..active_stake() };
    let accs = staker_accounts(inactive, md.clone(), false);
    assert_eq!(run(&accs, StakeInstruction::StakeWithdraw, 1000, 0).outcome, custom(0x107));
    let other = StakeData { staker: [99u8; 32], ..active_stake() };
    let accs = staker_accounts(other, md.clone(), false);
    assert_eq!(run(&accs, StakeInstruction::StakeWithdraw, 1000, 0).outcome, custom(0x108));
    let mut accs = staker_accounts(active_stake(), md.clone(), false);
    accs[13].data = vec![0u8; 15];
    assert_eq!(run(&accs, StakeInstruction::StakeWithdraw, 1000, 0).outcome, custom(0x911));
    let mut accs = staker_accounts(active_stake(), md.clone(), false);
    accs[7].data = vec![];
    assert_eq!(run(&accs, StakeInstruction::StakeWithdraw, 1000, 0).outcome, custom(0x912));
    let mut accs = staker_accounts(active_stake(), md, false);
    accs[6].data = vec![0u8; 88];
    assert_eq!(run(&accs, StakeInstruction::StakeWithdraw, 1000, 0).outcome, custom(0x913));
}

#[test]
fn claim_aborts_where_the_program_panics() {
    let accs = staker_accounts(active_stake(), vec![], false);
    assert_eq!(run(&accs, StakeInstruction::StakeWithdraw, 1000, 0).outcome, Outcome::Abort(Abort::EmptyMetadata));
    let accs = staker_accounts(active_stake(), metadata_bytes(None), false);
    assert_eq!(run(&accs, StakeInstruction::StakeWithdraw, 1000, 0).outcome, Outcome::Abort(Abort::NoCreators));
    let accs = staker_accounts(active_stake(), metadata_bytes(Some(vec![])), false);
    assert_eq!(run(&accs, StakeInstruction::StakeWithdraw, 1000, 0).outcome, Outcome::Abort(Abort::NoFirstCreator));
    let accs = staker_accounts(active_stake(), metadata_bytes(creators(true)), false);
    let early = StakeData { timestamp: 2000, ..active_stake() };
    let accs_early = staker_accounts(early, metadata_bytes(creators(true)), false);
    assert_eq!(run(&accs_early, StakeInstruction::StakeWithdraw, 1000, 0).outcome, Outcome::Abort(Abort::Arithmetic));
    let plan = plan_instruction(&pid().to_bytes(), &accs, &StakeInstruction::StakeWithdraw, Err(ProgramError::UnsupportedSysvar), Ok(0));
    assert_eq!(plan.outcome, Outcome::Fail(StakeError::Program(ProgramError::UnsupportedSysvar)));
}

#[test]
fn claim_passes_on_metadata_errors() {
    let mut md = metadata_bytes(creators(true));
    md[0] = 1;
    let accs = staker_accounts(active_stake(), md, false);
    let plan = run(&accs, StakeInstruction::StakeWithdraw, 1000, 0);
    assert!(matches!(plan.outcome, Outcome::Fail(StakeError::Program(_))));
}

#[test]
fn unstake_returns_everything() {
    let accs = staker_accounts(active_stake(), metadata_bytes(creators(true)), true);
    let plan = run(&accs, StakeInstruction::Unstake, 1000, 0);
    assert_eq!(plan.outcome, Outcome::Done);
    assert_eq!(plan.actions.len(), 7);
    assert_eq!(
        plan.actions[0],
        Action::TokenTransfer { token: 3, source: 15, destination: 16, authority: 0, amount: 1, program_signer: None }
    );
    assert!(matches!(plan.actions[2], Action::TokenTransfer { amount: 265, .. }));
    assert!(matches!(plan.actions[4], Action::TokenTransfer { source: 11, destination: 10, amount: 1, .. }));
    assert!(matches!(plan.actions[5], Action::CloseTokenAccount { account: 11, destination: 0, .. }));
    assert_eq!(
        plan.actions[6],
        Action::Write {
            account: 6,
            record: Record::Stake(StakeData { active: false, withdrawn: 265, harvested: 265, ..active_stake() }),
        }
    );
}

#[test]
fn unstake_needs_the_minimum_period_and_proof_holders() {
    let accs = staker_accounts(active_stake(), metadata_bytes(creators(true)), true);
    assert_eq!(run(&accs, StakeInstruction::Unstake, 59, 0).outcome, custom(0x109));
    assert_eq!(run(&accs, StakeInstruction::Unstake, 60, 0).outcome, Outcome::Done);
    let mut accs = staker_accounts(active_stake(), metadata_bytes(creators(true)), true);
    accs[15] = account(Pubkey::new_from_array([3u8; 32]));
    assert_eq!(run(&accs, StakeInstruction::Unstake, 1000, 0).outcome, custom(0x490));
    let mut accs = staker_accounts(active_stake(), metadata_bytes(creators(true)), true);
    accs[16] = account(Pubkey::new_from_array([3u8; 32]));
    assert_eq!(run(&accs, StakeInstruction::Unstake, 1000, 0).outcome, custom(0x491));
}

// ---------------------------------------------------------------------------
// Staking
// ---------------------------------------------------------------------------

fn stake_accounts(stake_owner: Pubkey, stake_data: Vec<u8>, wl_owner: Pubkey) -> Vec<AccountView> {
    let c = cfg();
    let staker = Pubkey::new_from_array(STAKER);
    let nft = Pubkey::new_from_array(NFT);
    let proof = pk(&c.proof_mint);
    let (v, _) = vault();
    let (stake_key, _) = Pubkey::find_program_address(&[&NFT], &pid());
    let md_id = spl_token_metadata::ID;
    let (md, _) = Pubkey::find_program_address(&[b"metadata", &md_id.to_bytes(), &NFT], &md_id);
    let (wl, _) = Pubkey::find_program_address(&[b"whitelist", &CANDY], &pid());
    vec![
        signer(staker),
        account(nft),
        owned(md, md_id, metadata_bytes(creators(true))),
        account(v),
        account(get_associated_token_address(&staker, &nft)),
        account(get_associated_token_address(&v, &nft)),
        account(spl_token::id()),
        account(Pubkey::new_from_array([0u8; 32])),
        account(solana_program::sysvar::rent::id()),
        account(spl_associated_token_account::id()),
        owned(stake_key, stake_owner, stake_data),
        owned(wl, wl_owner, encode_rate_data(&RateData { price: 1, maxreward: 1000 })),
        account(proof),
        account(get_associated_token_address(&v, &proof)),
        account(get_associated_token_address(&staker, &proof)),
    ]
}

#[test]
fn staking_creates_the_record_then_deposits() {
    let (_, bump) = Pubkey::find_program_address(&[&NFT], &pid());
    let accs = stake_accounts(Pubkey::new_from_array([0u8; 32]), vec![], pid());
    let first = run(&accs, StakeInstruction::Stake, 500, 1000);
    assert_eq!(first.outcome, Outcome::Resume);
    assert_eq!(first.actions.len(), 3);
    assert_eq!(
        first.actions[1],
        Action::Allocate { account: 10, system: 7, space: 89, signer: Signer::Stake { mint: NFT, bump } }
    );
    // After creation the record's account holds zeros and belongs to the program.
    let mut after = accs;
    after[10].owner = pid().to_bytes();
    after[10].data = vec![0u8; 89];
    let second = resume_stake(&pid().to_bytes(), &after, 500);
    assert_eq!(second.outcome, Outcome::Done);
    assert_eq!(second.actions.len(), 5);
    assert_eq!(
        second.actions[0],
        Action::Write {
            account: 10,
            record: Record::Stake(StakeData { timestamp: 500, staker: STAKER, mint: NFT, active: true, withdrawn: 0, harvested: 0 }),
        }
    );
    assert!(matches!(second.actions[2], Action::TokenTransfer { source: 13, destination: 14, amount: 1, .. }));
    assert_eq!(
        second.actions[4],
        Action::TokenTransfer { token: 6, source: 4, destination: 5, authority: 0, amount: 1, program_signer: None }
    );
}

#[test]
fn first_stake_creates_the_staker_proof_holder_for_the_proof_mint() {
    let mut accs = stake_accounts(pid(), vec![0u8; 89], pid());
    // The staker has no proof holder yet: the account is not the token program's.
    accs[14].owner = [0u8; 32];
    assert!(needs_token_account(&accs[14].owner, &accs[6].key));
    let second = resume_stake(&pid().to_bytes(), &accs, 500);
    assert_eq!(second.outcome, Outcome::Done);
    assert_eq!(
        second.actions[1],
        Action::CreateTokenAccount {
            funder: 0,
            wallet: 0,
            mint: 12,
            holder: 14,
            wallet_info: 0,
            mint_info: 12,
            system: 7,
            token: 6,
            rent: 8,
            ata_program: 9,
        }
    );
    // The account created is the staker's associated account for the proof mint.
    let staker = Pubkey::new_from_array(accs[0].key);
    let proof = Pubkey::new_from_array(accs[12].key);
    assert_eq!(accs[12].key, cfg().proof_mint);
    assert_eq!(accs[14].key, get_associated_token_address(&staker, &proof).to_bytes());
    assert!(matches!(second.actions[2], Action::TokenTransfer { source: 13, destination: 14, amount: 1, .. }));
}

#[test]
fn restaking_carries_the_harvest() {
    let old = StakeData { timestamp: 1, staker: [5u8; 32], mint: NFT, active: false, withdrawn: 9, harvested: 77 };
    let accs = stake_accounts(pid(), encode_stake_data(&old), pid());
    let first = run(&accs, StakeInstruction::Stake, 500, 1000);
    assert_eq!(first.outcome, Outcome::Resume);
    assert!(first.actions.is_empty());
    let second = resume_stake(&pid().to_bytes(), &accs, 500);
    assert_eq!(
        second.actions[0],
        Action::Write {
            account: 10,
            record: Record::Stake(StakeData { timestamp: 500, staker: STAKER, mint: NFT, active: true, withdrawn: 0, harvested: 77 }),
        }
    );
}

#[test]
fn staking_refusals() {
    let accs = stake_accounts(pid(), vec![0u8; 89], Pubkey::new_from_array([0u8; 32]));
    let second = resume_stake(&pid().to_bytes(), &accs, 500);
    assert_eq!(second.outcome, custom(0x902));
    assert_eq!(second.actions.len(), 1);
    let mut accs = stake_accounts(pid(), vec![0u8; 89], pid());
    accs[12] = account(Pubkey::new_from_array([3u8; 32]));
    assert_eq!(run(&accs, StakeInstruction::Stake, 500, 1000).outcome, custom(0x480));
    let mut accs = stake_accounts(pid(), vec![0u8; 89], pid());
    accs[0].is_signer = false;
    assert_eq!(run(&accs, StakeInstruction::Stake, 500, 1000).outcome, custom(0x11));
    let mut accs = stake_accounts(pid(), vec![0u8; 89], pid());
    accs[10] = account(Pubkey::new_from_array([3u8; 32]));
    assert_eq!(run(&accs, StakeInstruction::Stake, 500, 1000).outcome, custom(0x10));
    let mut accs = stake_accounts(pid(), vec![0u8; 89], pid());
    accs[2].key = [3u8; 32];
    assert_eq!(resume_stake(&pid().to_bytes(), &accs, 500).outcome, custom(0x03));
    let mut accs = stake_accounts(pid(), vec![0u8; 89], pid());
    accs[4] = account(Pubkey::new_from_array([3u8; 32]));
    assert_eq!(resume_stake(&pid().to_bytes(), &accs, 500).outcome, custom(0x08));
}
