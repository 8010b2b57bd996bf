//! What an instruction asks of the runtime: an ordered list of actions to
//! perform, and how the instruction ends once they have all succeeded.
//!
//! Accounts are named by their position in the instruction's account list.
//! Any action that fails ends the instruction with that action's error, and
//! the runtime then discards every change the instruction made.

use vstd::prelude::*;
use crate::address::{Address, same_address};
use crate::codec::Record;
use solana_program::program_error::ProgramError;

verus! {

/// The part of an account that the program reads.
pub struct AccountView {
    pub key: Address,
    pub is_signer: bool,
    pub owner: Address,
    pub lamports: u64,
    pub data: Vec<u8>,
}

/// The seeds with which the program signs for one of its derived accounts.
#[derive(Clone, Copy, Debug, PartialEq, Eq)]
pub enum Signer {
    /// The vault: seeds `["vault", bump]`.
    Vault { bump: u8 },
    /// A collection's whitelist entry: seeds `["whitelist", collection, bump]`.
    Whitelist { collection: Address, bump: u8 },
    /// An NFT's stake record: seeds `[mint, bump]`.
    Stake { mint: Address, bump: u8 },
}

/// One cross-program call or account write.
#[derive(Clone, Copy, Debug, PartialEq, Eq)]
pub enum Action {
    /// System transfer of `lamports` from `from` to `to`.
    SystemTransfer { from: usize, to: usize, system: usize, lamports: u64 },
    /// System allocation of `space` bytes for `account`, signed by the program.
    Allocate { account: usize, system: usize, space: u64, signer: Signer },
    /// System assignment of `account` to `owner`, signed by the program.
    Assign { account: usize, system: usize, owner: Address, signer: Signer },
    /// Creation of the associated token account of the keys of `wallet` and
    /// `mint`, funded by `funder`; the accounts handed to the call are
    /// `funder, holder, wallet_info, mint_info, system, token, rent,
    /// ata_program`. Made only when, at that moment, `holder` is not owned by
    /// the account at `token`.
    CreateTokenAccount {
        funder: usize,
        wallet: usize,
        mint: usize,
        holder: usize,
        wallet_info: usize,
        mint_info: usize,
        system: usize,
        token: usize,
        rent: usize,
        ata_program: usize,
    },
    /// Token transfer of `amount` from `source` to `destination` by
    /// `authority`, signed by the program when `program_signer` is given.
    /// Plans only list it with `token` being the token program.
    TokenTransfer {
        token: usize,
        source: usize,
        destination: usize,
        authority: usize,
        amount: u64,
        program_signer: Option<Signer>,
    },
    /// Closing of the token account `account` into `destination`, signed by
    /// the program as `authority`.
    CloseTokenAccount { token: usize, account: usize, destination: usize, authority: usize, signer: Signer },
    /// Writing `record` over the start of `account`'s data; fails when the
    /// data is too short for it.
    Write { account: usize, record: Record },
}

/// Why an instruction aborts the program outright.
#[derive(Clone, Copy, Debug, PartialEq, Eq, Structural)]
pub enum Abort {
    /// No bump seed gives a derived address.
    NoViableBump,
    /// A configured address is not valid base-58 text of a key.
    BadConfiguredAddress,
    /// The metadata account holds no data.
    EmptyMetadata,
    /// The NFT's metadata lists no creators.
    NoCreators,
    /// The NFT's metadata lists an empty set of creators.
    NoFirstCreator,
    /// The reward arithmetic fails (time before the stake, a zero period,
    /// an overflow or an underflow).
    Arithmetic,
}

/// How an instruction fails.
#[derive(Debug, PartialEq)]
pub enum StakeError {
    /// The program's own error code.
    Custom(u32),
    /// Fewer accounts than the instruction reads.
    NotEnoughAccountKeys,
    /// A token transfer was asked of an account that is not the token
    /// program.
    IncorrectProgramId,
    /// An error of a system variable or of the metadata record, passed on.
    Program(ProgramError),
}

/// How an instruction ends after its actions.
#[derive(Debug, PartialEq)]
pub enum Outcome {
    Done,
    Fail(StakeError),
    Abort(Abort),
    /// Staking goes on in a second step, with the accounts read again.
    Resume,
}

#[derive(Debug, PartialEq)]
pub struct Plan {
    pub actions: Vec<Action>,
    pub outcome: Outcome,
}

pub struct PlanSpec {
    pub actions: Seq<Action>,
    pub outcome: Outcome,
}

impl View for Plan {
    type V = PlanSpec;

    open spec fn view(&self) -> PlanSpec {
        PlanSpec { actions: self.actions@, outcome: self.outcome }
    }
}

pub open spec fn ends(actions: Seq<Action>, outcome: Outcome) -> PlanSpec {
    PlanSpec { actions, outcome }
}

pub open spec fn fails(actions: Seq<Action>, code: u32) -> PlanSpec {
    PlanSpec { actions, outcome: Outcome::Fail(StakeError::Custom(code)) }
}

pub open spec fn aborts(actions: Seq<Action>, why: Abort) -> PlanSpec {
    PlanSpec { actions, outcome: Outcome::Abort(why) }
}

pub fn fail_with(actions: Vec<Action>, code: u32) -> (r: Plan)
    ensures
        r@ == fails(actions@, code),
{
    Plan { actions, outcome: Outcome::Fail(StakeError::Custom(code)) }
}

pub fn abort_with(actions: Vec<Action>, why: Abort) -> (r: Plan)
    ensures
        r@ == aborts(actions@, why),
{
    Plan { actions, outcome: Outcome::Abort(why) }
}

pub fn end_with(actions: Vec<Action>, outcome: Outcome) -> (r: Plan)
    ensures
        r@ == ends(actions@, outcome),
{
    Plan { actions, outcome }
}

/// Whether a `CreateTokenAccount` action is to be carried out: the holder is
/// not owned by the token program's account.
pub fn needs_token_account(holder_owner: &Address, token_program: &Address) -> (r: bool)
    ensures
        r == (*holder_owner != *token_program),
{
    !same_address(holder_owner, token_program)
}

/// Lamports to move into an account that the program is about to create:
/// the rent-exempt minimum (at least one lamport) less what the account
/// already holds.
pub open spec fn top_up(minimum: u64, held: u64) -> u64 {
    let m: u64 = if minimum < 1 { 1 } else { minimum };
    if m > held { (m - held) as u64 } else { 0 }
}

pub fn lamports_to_add(minimum: u64, held: u64) -> (r: u64)
    ensures
        r == top_up(minimum, held),
{
    let m: u64 = if minimum < 1 { 1 } else { minimum };
    m.saturating_sub(held)
}

} // verus!
