//! Reward accounting for a staked NFT.
//!
//! For `elapsed` seconds of staking the reward accrued is
//! `base + base * bonus / 100`, where `base` is the number of whole reward
//! periods times the collection's price and `bonus` is the number of whole
//! bonus periods times the vault's bonus percentage. What is paid is what
//! accrued less what was already withdrawn during this stake, capped by what
//! the collection still allows this NFT over its lifetime.

use vstd::prelude::*;
use crate::codec::{ContractData, RateData, StakeData};
use vstd::arithmetic::div_mod::lemma_div_is_ordered;
use vstd::arithmetic::mul::lemma_mul_inequality;

verus! {

/// Reward before the bonus: whole reward periods times the price.
pub open spec fn base_reward(elapsed: int, vault: ContractData, rate: RateData) -> int {
    (elapsed / (vault.reward_period as int)) * (rate.price as int)
}

/// Bonus percentage: whole bonus periods times the vault's percentage.
pub open spec fn bonus_percent(elapsed: int, vault: ContractData) -> int {
    (elapsed / (vault.bonus_period as int)) * (vault.bonus_percentage as int)
}

/// Everything accrued over `elapsed` seconds.
pub open spec fn accrued(elapsed: int, vault: ContractData, rate: RateData) -> int {
    base_reward(elapsed, vault, rate) + base_reward(elapsed, vault, rate) * bonus_percent(
        elapsed,
        vault,
    ) / 100
}

/// Whether the accrual can be computed in 64-bit arithmetic: both periods are
/// nonzero and no intermediate product or sum exceeds `u64::MAX`.
pub open spec fn accrual_fits(elapsed: int, vault: ContractData, rate: RateData) -> bool {
    &&& vault.reward_period > 0
    &&& vault.bonus_period > 0
    &&& base_reward(elapsed, vault, rate) <= u64::MAX
    &&& bonus_percent(elapsed, vault) <= u64::MAX
    &&& base_reward(elapsed, vault, rate) * bonus_percent(elapsed, vault) <= u64::MAX
    &&& accrued(elapsed, vault, rate) <= u64::MAX
}

/// Seconds staked at clock reading `now` (the reading taken as unsigned),
/// or `None` when the stake lies in the future of that reading.
pub open spec fn staked_seconds(now: i64, stake: StakeData) -> Option<u64> {
    let t = now as u64;
    if t < stake.timestamp {
        None
    } else {
        Some((t - stake.timestamp) as u64)
    }
}

/// The reward due at clock reading `now`; `None` exactly when the 64-bit
/// computation fails (time before the stake, a zero period, an overflow, more
/// withdrawn than accrued, or more harvested than the cap).
pub open spec fn reward_due(now: i64, stake: StakeData, vault: ContractData, rate: RateData) -> Option<u64> {
    match staked_seconds(now, stake) {
        None => None,
        Some(e) => {
            let total = accrued(e as int, vault, rate);
            if !accrual_fits(e as int, vault, rate) || total < stake.withdrawn || rate.maxreward
                < stake.harvested {
                None
            } else {
                let due = total - stake.withdrawn;
                let cap = rate.maxreward - stake.harvested;
                Some((if due > cap { cap } else { due }) as u64)
            }
        },
    }
}

/// The stake record after paying `reward` out of it.
pub open spec fn paid(stake: StakeData, reward: u64) -> StakeData {
    StakeData {
        harvested: (stake.harvested + reward) as u64,
        withdrawn: (stake.withdrawn + reward) as u64,
        ..stake
    }
}

/// Seconds staked, computed as the program does.
pub fn staked_time(now: i64, stake: &StakeData) -> (r: Option<u64>)
    ensures
        r == staked_seconds(now, *stake),
{
    let t = now as u64;
    if t < stake.timestamp {
        None
    } else {
        Some(t - stake.timestamp)
    }
}

/// Computes the reward due, failing exactly where 64-bit arithmetic does.
pub fn compute_reward(now: i64, stake: &StakeData, vault: &ContractData, rate: &RateData) -> (r:
    Option<u64>)
    ensures
        r == reward_due(now, *stake, *vault, *rate),
{
    let e = match staked_time(now, stake) {
        Some(e) => e,
        None => return None,
    };
    if vault.reward_period == 0 || vault.bonus_period == 0 {
        return None;
    }
    let ghost ei = e as int;
    let base = match (e / vault.reward_period).checked_mul(rate.price) {
        Some(v) => v,
        None => return None,
    };
    assert(base == base_reward(ei, *vault, *rate));
    let pct = match (e / vault.bonus_period).checked_mul(vault.bonus_percentage) {
        Some(v) => v,
        None => return None,
    };
    assert(pct == bonus_percent(ei, *vault));
    let bonus_num = match base.checked_mul(pct) {
        Some(v) => v,
        None => return None,
    };
    let total = match base.checked_add(bonus_num / 100) {
        Some(v) => v,
        None => return None,
    };
    assert(total == accrued(ei, *vault, *rate));
    if total < stake.withdrawn || rate.maxreward < stake.harvested {
        return None;
    }
    let due = total - stake.withdrawn;
    let cap = rate.maxreward - stake.harvested;
    Some(if due > cap { cap } else { due })
}

/// Applies a payout to a stake record.
pub fn pay_out(stake: &StakeData, reward: u64, now: i64, vault: &ContractData, rate: &RateData) -> (r:
    StakeData)
    requires
        reward_due(now, *stake, *vault, *rate) == Some(reward),
    ensures
        r == paid(*stake, reward),
{
    proof {
        lemma_payout_fits(now, *stake, *vault, *rate);
    }
    StakeData {
        harvested: stake.harvested + reward,
        withdrawn: stake.withdrawn + reward,
        ..*stake
    }
}

// ---------------------------------------------------------------------------
// Laws
// ---------------------------------------------------------------------------

/// A payout never exceeds what accrued less what was withdrawn, nor what the
/// cap still allows; and the record after the payout holds its counters
/// without overflow.
pub proof fn lemma_payout_fits(now: i64, stake: StakeData, vault: ContractData, rate: RateData)
    requires
        reward_due(now, stake, vault, rate) is Some,
    ensures
        ({
            let r = reward_due(now, stake, vault, rate)->0;
            let e = staked_seconds(now, stake)->0;
            &&& r <= accrued(e as int, vault, rate) - stake.withdrawn
            &&& r <= rate.maxreward - stake.harvested
            &&& stake.harvested + r <= rate.maxreward
            &&& stake.withdrawn + r <= accrued(e as int, vault, rate)
            &&& stake.withdrawn + r <= u64::MAX
        }),
{
}

/// No payout lifts an NFT's lifetime harvest above its collection's cap.
pub proof fn lemma_harvest_within_cap(now: i64, stake: StakeData, vault: ContractData, rate: RateData)
    requires
        reward_due(now, stake, vault, rate) is Some,
    ensures
        paid(stake, reward_due(now, stake, vault, rate)->0).harvested <= rate.maxreward,
{
}

/// The accrual never decreases as time goes on.
pub proof fn lemma_accrued_monotonic(e1: int, e2: int, vault: ContractData, rate: RateData)
    requires
        0 <= e1 <= e2,
        vault.reward_period > 0,
        vault.bonus_period > 0,
    ensures
        base_reward(e1, vault, rate) <= base_reward(e2, vault, rate),
        bonus_percent(e1, vault) <= bonus_percent(e2, vault),
        accrued(e1, vault, rate) <= accrued(e2, vault, rate),
{
    let rp = vault.reward_period as int;
    let bp = vault.bonus_period as int;
    lemma_div_is_ordered(e1, e2, rp);
    lemma_div_is_ordered(e1, e2, bp);
    lemma_mul_inequality(e1 / rp, e2 / rp, rate.price as int);
    lemma_mul_inequality(e1 / bp, e2 / bp, vault.bonus_percentage as int);
    let b1 = base_reward(e1, vault, rate);
    let b2 = base_reward(e2, vault, rate);
    let p1 = bonus_percent(e1, vault);
    let p2 = bonus_percent(e2, vault);
    assert(0 <= e1 / rp) by {
        lemma_div_is_ordered(0, e1, rp);
    }
    assert(0 <= e1 / bp) by {
        lemma_div_is_ordered(0, e1, bp);
    }
    assert(0 <= b1) by {
        lemma_mul_inequality(0, e1 / rp, rate.price as int);
    }
    assert(0 <= p1) by {
        lemma_mul_inequality(0, e1 / bp, vault.bonus_percentage as int);
    }
    lemma_mul_inequality(b1, b2, p1);
    lemma_mul_inequality(p1, p2, b2);
    assert(b2 * p1 == p1 * b2) by (nonlinear_arith);
    lemma_div_is_ordered(b1 * p1, b2 * p2, 100);
}

/// Claiming twice at the same moment pays nothing the second time.
pub proof fn lemma_second_claim_pays_nothing(now: i64, stake: StakeData, vault: ContractData, rate: RateData)
    requires
        reward_due(now, stake, vault, rate) is Some,
    ensures
        reward_due(now, paid(stake, reward_due(now, stake, vault, rate)->0), vault, rate) == Some(
            0u64,
        ),
{
}

/// A payout never makes a later claim fail: once a claim at `now1` is paid,
/// a claim at a later reading `now2` succeeds whenever the accrual at `now2`
/// fits in 64 bits.
pub proof fn lemma_later_claim_succeeds(
    now1: i64,
    now2: i64,
    stake: StakeData,
    vault: ContractData,
    rate: RateData,
)
    requires
        reward_due(now1, stake, vault, rate) is Some,
        now1 as u64 <= now2 as u64,
        accrual_fits((now2 as u64 - stake.timestamp) as int, vault, rate),
    ensures
        reward_due(now2, paid(stake, reward_due(now1, stake, vault, rate)->0), vault, rate) is Some,
{
    let e1 = staked_seconds(now1, stake)->0;
    let e2 = (now2 as u64 - stake.timestamp) as int;
    lemma_accrued_monotonic(e1 as int, e2, vault, rate);
}

/// The reward due, in closed form: after `e` whole seconds of staking it is
/// `B + B * P / 100` less what was withdrawn, capped by what the cap still
/// allows, where `B` is the number of whole reward periods times the price
/// and `P` the number of whole bonus periods times the bonus percentage; it
/// is due exactly when every step fits in 64 bits.
pub proof fn law_reward_formula(now: i64, stake: StakeData, vault: ContractData, rate: RateData)
    ensures
        ({
            let t = now as u64;
            let e = t - stake.timestamp;
            let b = (e / (vault.reward_period as int)) * (rate.price as int);
            let p = (e / (vault.bonus_period as int)) * (vault.bonus_percentage as int);
            let total = b + b * p / 100;
            let due = total - stake.withdrawn;
            let cap = rate.maxreward - stake.harvested;
            let computable = t >= stake.timestamp && vault.reward_period > 0 && vault.bonus_period > 0
                && b <= u64::MAX && p <= u64::MAX && b * p <= u64::MAX && total <= u64::MAX && total
                >= stake.withdrawn && rate.maxreward >= stake.harvested;
            &&& (reward_due(now, stake, vault, rate) is Some <==> computable)
            &&& computable ==> reward_due(now, stake, vault, rate) == Some(
                (if due > cap { cap } else { due }) as u64,
            )
        }),
{
}

/// With nothing withdrawn or harvested and the cap out of reach, the reward
/// is the whole accrual, bonus included: `B + B * P / 100`.
pub proof fn law_first_reward_is_the_accrual(now: i64, stake: StakeData, vault: ContractData, rate: RateData)
    requires
        stake.withdrawn == 0,
        stake.harvested == 0,
        now as u64 >= stake.timestamp,
        vault.reward_period > 0,
        vault.bonus_period > 0,
        ({
            let e = now as u64 - stake.timestamp;
            let b = (e / (vault.reward_period as int)) * (rate.price as int);
            let p = (e / (vault.bonus_period as int)) * (vault.bonus_percentage as int);
            p <= u64::MAX && b * p <= u64::MAX && b + b * p / 100 <= rate.maxreward
        }),
    ensures
        ({
            let e = now as u64 - stake.timestamp;
            let b = (e / (vault.reward_period as int)) * (rate.price as int);
            let p = (e / (vault.bonus_period as int)) * (vault.bonus_percentage as int);
            reward_due(now, stake, vault, rate) == Some((b + b * p / 100) as u64)
        }),
{
    let e = now as u64 - stake.timestamp;
    let b = (e / (vault.reward_period as int)) * (rate.price as int);
    let p = (e / (vault.bonus_period as int)) * (vault.bonus_percentage as int);
    assert(0 <= e / (vault.reward_period as int)) by {
        lemma_div_is_ordered(0, e, vault.reward_period as int);
    }
    assert(0 <= e / (vault.bonus_period as int)) by {
        lemma_div_is_ordered(0, e, vault.bonus_period as int);
    }
    assert(0 <= b) by {
        lemma_mul_inequality(0, e / (vault.reward_period as int), rate.price as int);
    }
    assert(0 <= p) by {
        lemma_mul_inequality(0, e / (vault.bonus_period as int), vault.bonus_percentage as int);
    }
    assert(0 <= b * p) by {
        lemma_mul_inequality(0, b, p);
    }
    assert(0 <= b * p / 100) by {
        lemma_div_is_ordered(0, b * p, 100);
    }
    law_reward_formula(now, stake, vault, rate);
}

} // verus!
