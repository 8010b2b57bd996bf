//! The administrator's instructions: configuring the vault, whitelisting a
//! collection and withdrawing reward tokens from the vault.

use vstd::prelude::*;
use crate::address::{Address, same_address};
use crate::codec::{ContractData, RateData, Record};
use crate::keys::{
    Config, associated, associated_address, derived, vault_address, vault_seeds,
    whitelist_address, whitelist_seeds,
};
use crate::plan::{
    AccountView, Abort, Action, Outcome, Plan, PlanSpec, Signer, StakeError, abort_with, aborts,
    end_with, ends, fail_with, fails, lamports_to_add, top_up,
};
use solana_program::program_error::ProgramError;

verus! {

pub const UNAUTHORIZED_WITHDRAW: u32 = 0x231;
pub const WRONG_VAULT_FOR_WITHDRAW: u32 = 0x261;
pub const WRONG_ADMIN_REWARD_HOLDER: u32 = 0x262;
pub const WRONG_VAULT_REWARD_HOLDER_FOR_WITHDRAW: u32 = 0x263;
pub const UNAUTHORIZED_WHITELIST: u32 = 0x31;
pub const WRONG_WHITELIST_ACCOUNT: u32 = 0x32;
pub const WRONG_VAULT_ACCOUNT: u32 = 0x00;
pub const UNAUTHORIZED_VAULT: u32 = 0x02;

/// Size of a whitelist entry's account.
pub const RATE_ACCOUNT_SIZE: u64 = 16;
/// Size of the vault's account.
pub const VAULT_ACCOUNT_SIZE: u64 = 32;

/// The account's key is the admin's and the account signed.
pub open spec fn is_admin(cfg: Config, a: AccountView) -> bool {
    a.key == cfg.admin && a.is_signer
}

fn admin_signed(cfg: &Config, a: &AccountView) -> (r: bool)
    ensures
        r == is_admin(*cfg, *a),
{
    same_address(&a.key, &cfg.admin) && a.is_signer
}

/// Funding, allocating and assigning an account that the program takes over.
pub open spec fn creation(
    payer: usize,
    account: usize,
    system: usize,
    lamports: u64,
    space: u64,
    owner: Address,
    signer: Signer,
) -> Seq<Action> {
    seq![
        Action::SystemTransfer { from: payer, to: account, system, lamports },
        Action::Allocate { account, system, space, signer },
        Action::Assign { account, system, owner, signer },
    ]
}

pub fn creation_actions(
    payer: usize,
    account: usize,
    system: usize,
    lamports: u64,
    space: u64,
    owner: Address,
    signer: Signer,
) -> (r: Vec<Action>)
    ensures
        r@ == creation(payer, account, system, lamports, space, owner, signer),
{
    let mut r: Vec<Action> = Vec::new();
    r.push(Action::SystemTransfer { from: payer, to: account, system, lamports });
    r.push(Action::Allocate { account, system, space, signer });
    r.push(Action::Assign { account, system, owner, signer });
    assert(r@ =~= creation(payer, account, system, lamports, space, owner, signer));
    r
}

// ---------------------------------------------------------------------------
// Withdraw
// ---------------------------------------------------------------------------

/// Addresses that a withdrawal checks its accounts against.
pub struct WithdrawKeys {
    pub vault: Option<(Address, u8)>,
    pub admin_holder: Option<Address>,
    pub vault_holder: Option<Address>,
}

pub open spec fn withdraw_keys(cfg: Config, program_id: Address, accs: Seq<AccountView>) -> WithdrawKeys {
    WithdrawKeys {
        vault: derived(vault_seeds(), program_id),
        admin_holder: associated(cfg, accs[0].key, cfg.reward_mint),
        vault_holder: associated(cfg, accs[3].key, cfg.reward_mint),
    }
}

pub open spec fn create_admin_reward_holder() -> Action {
    Action::CreateTokenAccount {
        funder: 0,
        wallet: 0,
        mint: 4,
        holder: 1,
        wallet_info: 0,
        mint_info: 4,
        system: 5,
        token: 6,
        rent: 7,
        ata_program: 8,
    }
}

/// Withdrawing `amount` reward tokens. Accounts: admin, admin's reward
/// holder, vault's reward holder, vault, reward mint, system program, token
/// program, rent, associated-token program. The admin's reward holder is
/// created before the token program account is checked.
pub open spec fn withdraw_plan(cfg: Config, accs: Seq<AccountView>, amount: u64, k: WithdrawKeys) -> PlanSpec {
    if accs.len() < 9 {
        ends(seq![], Outcome::Fail(StakeError::NotEnoughAccountKeys))
    } else if !is_admin(cfg, accs[0]) {
        fails(seq![], UNAUTHORIZED_WITHDRAW)
    } else if k.vault is None || k.admin_holder is None || k.vault_holder is None {
        aborts(seq![], Abort::NoViableBump)
    } else if k.vault.unwrap().0 != accs[3].key {
        fails(seq![], WRONG_VAULT_FOR_WITHDRAW)
    } else if k.admin_holder->0 != accs[1].key {
        fails(seq![], WRONG_ADMIN_REWARD_HOLDER)
    } else if k.vault_holder->0 != accs[2].key {
        fails(seq![], WRONG_VAULT_REWARD_HOLDER_FOR_WITHDRAW)
    } else if accs[6].key != cfg.token_program {
        ends(seq![create_admin_reward_holder()], Outcome::Fail(StakeError::IncorrectProgramId))
    } else {
        ends(
            seq![
                create_admin_reward_holder(),
                Action::TokenTransfer {
                    token: 6,
                    source: 2,
                    destination: 1,
                    authority: 3,
                    amount,
                    program_signer: Some(Signer::Vault { bump: k.vault.unwrap().1 }),
                },
            ],
            Outcome::Done,
        )
    }
}

/// Decides a withdrawal from the derived addresses.
pub fn decide_withdraw(cfg: &Config, accounts: &Vec<AccountView>, amount: u64, k: &WithdrawKeys) -> (r: Plan)
    ensures
        r@ == withdraw_plan(*cfg, accounts@, amount, *k),
{
    if accounts.len() < 9 {
        return end_with(Vec::new(), Outcome::Fail(StakeError::NotEnoughAccountKeys));
    }
    if !admin_signed(cfg, &accounts[0]) {
        return fail_with(Vec::new(), UNAUTHORIZED_WITHDRAW);
    }
    let (vault, bump) = match k.vault {
        Some(v) => v,
        None => return abort_with(Vec::new(), Abort::NoViableBump),
    };
    let admin_holder = match k.admin_holder {
        Some(v) => v,
        None => return abort_with(Vec::new(), Abort::NoViableBump),
    };
    let vault_holder = match k.vault_holder {
        Some(v) => v,
        None => return abort_with(Vec::new(), Abort::NoViableBump),
    };
    if !same_address(&vault, &accounts[3].key) {
        return fail_with(Vec::new(), WRONG_VAULT_FOR_WITHDRAW);
    }
    if !same_address(&admin_holder, &accounts[1].key) {
        return fail_with(Vec::new(), WRONG_ADMIN_REWARD_HOLDER);
    }
    if !same_address(&vault_holder, &accounts[2].key) {
        return fail_with(Vec::new(), WRONG_VAULT_REWARD_HOLDER_FOR_WITHDRAW);
    }
    let mut actions: Vec<Action> = Vec::new();
    actions.push(
        Action::CreateTokenAccount {
            funder: 0,
            wallet: 0,
            mint: 4,
            holder: 1,
            wallet_info: 0,
            mint_info: 4,
            system: 5,
            token: 6,
            rent: 7,
            ata_program: 8,
        },
    );
    if !same_address(&accounts[6].key, &cfg.token_program) {
        return end_with(actions, Outcome::Fail(StakeError::IncorrectProgramId));
    }
    actions.push(
        Action::TokenTransfer {
            token: 6,
            source: 2,
            destination: 1,
            authority: 3,
            amount,
            program_signer: Some(Signer::Vault { bump }),
        },
    );
    let r = end_with(actions, Outcome::Done);
    assert(r@.actions =~= withdraw_plan(*cfg, accounts@, amount, *k).actions);
    r
}

/// Plans a withdrawal of `amount` reward tokens from the vault to the admin.
pub fn plan_withdraw(cfg: &Config, program_id: &Address, accounts: &Vec<AccountView>, amount: u64) -> (r: Plan)
    ensures
        r@ == withdraw_plan(*cfg, accounts@, amount, withdraw_keys(*cfg, *program_id, accounts@)),
{
    if accounts.len() < 9 {
        return end_with(Vec::new(), Outcome::Fail(StakeError::NotEnoughAccountKeys));
    }
    let k = WithdrawKeys {
        vault: vault_address(program_id),
        admin_holder: associated_address(cfg, &accounts[0].key, &cfg.reward_mint),
        vault_holder: associated_address(cfg, &accounts[3].key, &cfg.reward_mint),
    };
    decide_withdraw(cfg, accounts, amount, &k)
}

// ---------------------------------------------------------------------------
// AddToWhitelist
// ---------------------------------------------------------------------------

/// Whitelisting a collection at `rate`. Accounts: admin, the collection's
/// creator key, the whitelist entry, system program, rent. `rent` is the
/// rent-exempt minimum for the entry's size, or the error reading the rent
/// variable gave.
pub open spec fn whitelist_plan(
    cfg: Config,
    program_id: Address,
    accs: Seq<AccountView>,
    rate: RateData,
    rent: Result<u64, ProgramError>,
    entry: Option<(Address, u8)>,
) -> PlanSpec {
    if accs.len() < 5 {
        ends(seq![], Outcome::Fail(StakeError::NotEnoughAccountKeys))
    } else if rent is Err {
        ends(seq![], Outcome::Fail(StakeError::Program(rent->Err_0)))
    } else if !is_admin(cfg, accs[0]) {
        fails(seq![], UNAUTHORIZED_WHITELIST)
    } else if entry is None {
        aborts(seq![], Abort::NoViableBump)
    } else if accs[2].key != entry.unwrap().0 {
        fails(seq![], WRONG_WHITELIST_ACCOUNT)
    } else {
        let signer = Signer::Whitelist { collection: accs[1].key, bump: entry.unwrap().1 };
        let created = if accs[2].owner != program_id {
            creation(0, 2, 3, top_up(rent->Ok_0, accs[2].lamports), RATE_ACCOUNT_SIZE, program_id, signer)
        } else {
            seq![]
        };
        ends(created.push(Action::Write { account: 2, record: Record::Rate(rate) }), Outcome::Done)
    }
}

/// Decides whitelisting from the entry's derived address.
pub fn decide_add_to_whitelist(
    cfg: &Config,
    program_id: &Address,
    accounts: &Vec<AccountView>,
    rate: RateData,
    rent: Result<u64, ProgramError>,
    entry: Option<(Address, u8)>,
) -> (r: Plan)
    ensures
        r@ == whitelist_plan(*cfg, *program_id, accounts@, rate, rent, entry),
{
    if accounts.len() < 5 {
        return end_with(Vec::new(), Outcome::Fail(StakeError::NotEnoughAccountKeys));
    }
    let minimum = match rent {
        Ok(m) => m,
        Err(e) => return end_with(Vec::new(), Outcome::Fail(StakeError::Program(e))),
    };
    if !admin_signed(cfg, &accounts[0]) {
        return fail_with(Vec::new(), UNAUTHORIZED_WHITELIST);
    }
    let (entry_key, bump) = match entry {
        Some(v) => v,
        None => return abort_with(Vec::new(), Abort::NoViableBump),
    };
    if !same_address(&accounts[2].key, &entry_key) {
        return fail_with(Vec::new(), WRONG_WHITELIST_ACCOUNT);
    }
    let signer = Signer::Whitelist { collection: accounts[1].key, bump };
    let mut actions: Vec<Action> = if !same_address(&accounts[2].owner, program_id) {
        creation_actions(
            0,
            2,
            3,
            lamports_to_add(minimum, accounts[2].lamports),
            RATE_ACCOUNT_SIZE,
            *program_id,
            signer,
        )
    } else {
        Vec::new()
    };
    actions.push(Action::Write { account: 2, record: Record::Rate(rate) });
    let r = end_with(actions, Outcome::Done);
    assert(r@.actions =~= whitelist_plan(*cfg, *program_id, accounts@, rate, rent, entry).actions);
    r
}

/// Plans whitelisting the collection of `accounts[1]` at `price` per reward
/// period, with at most `maxreward` paid per NFT.
pub fn plan_add_to_whitelist(
    cfg: &Config,
    program_id: &Address,
    accounts: &Vec<AccountView>,
    price: u64,
    maxreward: u64,
    rent: Result<u64, ProgramError>,
) -> (r: Plan)
    ensures
        r@ == whitelist_plan(
            *cfg,
            *program_id,
            accounts@,
            RateData { price, maxreward },
            rent,
            derived(whitelist_seeds(accounts@[1].key), *program_id),
        ),
{
    let rate = RateData { price, maxreward };
    if accounts.len() < 5 {
        return end_with(Vec::new(), Outcome::Fail(StakeError::NotEnoughAccountKeys));
    }
    let entry = whitelist_address(program_id, &accounts[1].key);
    decide_add_to_whitelist(cfg, program_id, accounts, rate, rent, entry)
}

// ---------------------------------------------------------------------------
// GenerateVault
// ---------------------------------------------------------------------------

/// Configuring the vault with `schedule`. Accounts: admin, system program,
/// vault, rent. The vault is created before the admin is checked.
pub open spec fn vault_plan(
    cfg: Config,
    program_id: Address,
    accs: Seq<AccountView>,
    schedule: ContractData,
    rent: Result<u64, ProgramError>,
    vault: Option<(Address, u8)>,
) -> PlanSpec {
    if accs.len() < 4 {
        ends(seq![], Outcome::Fail(StakeError::NotEnoughAccountKeys))
    } else if rent is Err {
        ends(seq![], Outcome::Fail(StakeError::Program(rent->Err_0)))
    } else if vault is None {
        aborts(seq![], Abort::NoViableBump)
    } else if accs[2].key != vault.unwrap().0 {
        fails(seq![], WRONG_VAULT_ACCOUNT)
    } else {
        let created = if accs[2].owner != program_id {
            creation(
                0,
                2,
                1,
                top_up(rent->Ok_0, accs[2].lamports),
                VAULT_ACCOUNT_SIZE,
                program_id,
                Signer::Vault { bump: vault.unwrap().1 },
            )
        } else {
            seq![]
        };
        if !is_admin(cfg, accs[0]) {
            fails(created, UNAUTHORIZED_VAULT)
        } else {
            ends(
                created.push(Action::Write { account: 2, record: Record::Vault(schedule) }),
                Outcome::Done,
            )
        }
    }
}

/// Decides the vault's configuration from its derived address.
pub fn decide_generate_vault(
    cfg: &Config,
    program_id: &Address,
    accounts: &Vec<AccountView>,
    schedule: ContractData,
    rent: Result<u64, ProgramError>,
    vault: Option<(Address, u8)>,
) -> (r: Plan)
    ensures
        r@ == vault_plan(*cfg, *program_id, accounts@, schedule, rent, vault),
{
    if accounts.len() < 4 {
        return end_with(Vec::new(), Outcome::Fail(StakeError::NotEnoughAccountKeys));
    }
    let minimum = match rent {
        Ok(m) => m,
        Err(e) => return end_with(Vec::new(), Outcome::Fail(StakeError::Program(e))),
    };
    let (vault_key, bump) = match vault {
        Some(v) => v,
        None => return abort_with(Vec::new(), Abort::NoViableBump),
    };
    if !same_address(&accounts[2].key, &vault_key) {
        return fail_with(Vec::new(), WRONG_VAULT_ACCOUNT);
    }
    let mut actions: Vec<Action> = if !same_address(&accounts[2].owner, program_id) {
        creation_actions(
            0,
            2,
            1,
            lamports_to_add(minimum, accounts[2].lamports),
            VAULT_ACCOUNT_SIZE,
            *program_id,
            Signer::Vault { bump },
        )
    } else {
        Vec::new()
    };
    if !admin_signed(cfg, &accounts[0]) {
        return fail_with(actions, UNAUTHORIZED_VAULT);
    }
    actions.push(Action::Write { account: 2, record: Record::Vault(schedule) });
    let r = end_with(actions, Outcome::Done);
    assert(r@.actions =~= vault_plan(*cfg, *program_id, accounts@, schedule, rent, vault).actions);
    r
}

/// Plans configuring the vault with the given schedule.
pub fn plan_generate_vault(
    cfg: &Config,
    program_id: &Address,
    accounts: &Vec<AccountView>,
    schedule: ContractData,
    rent: Result<u64, ProgramError>,
) -> (r: Plan)
    ensures
        r@ == vault_plan(*cfg, *program_id, accounts@, schedule, rent, derived(vault_seeds(), *program_id)),
{
    if accounts.len() < 4 {
        return end_with(Vec::new(), Outcome::Fail(StakeError::NotEnoughAccountKeys));
    }
    let vault = vault_address(program_id);
    decide_generate_vault(cfg, program_id, accounts, schedule, rent, vault)
}

} // verus!
