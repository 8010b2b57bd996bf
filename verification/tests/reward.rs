use nft_staking::codec::{ContractData, RateData, StakeData};
use nft_staking::reward::{compute_reward, pay_out, staked_time};

fn stake(timestamp: u64, withdrawn: u64, harvested: u64) -> StakeData {
    StakeData { timestamp, staker: [1u8; 32], mint: [2u8; 32], active: true, withdrawn, harvested }
}

const SCHEDULE: ContractData =
    ContractData { min_period: 60, reward_period: 10, bonus_percentage: 5, bonus_period: 30 };
const RATE: RateData = RateData { price: 1, maxreward: 1000 };

#[test]
fn reward_with_bonus() {
    // 100 periods of 10 s, 33 bonus periods of 5 % each: 100 + 100 * 165 / 100.
    assert_eq!(compute_reward(1000, &stake(0, 0, 0), &SCHEDULE, &RATE), Some(265));
    // Partial periods do not count.
    assert_eq!(compute_reward(1009, &stake(0, 0, 0), &SCHEDULE, &RATE), Some(265));
    let plain = ContractData { bonus_percentage: 0, ..SCHEDULE };
    assert_eq!(compute_reward(1000, &stake(0, 0, 0), &plain, &RATE), Some(100));
}

#[test]
fn reward_subtracts_withdrawn_and_respects_cap() {
    assert_eq!(compute_reward(1000, &stake(0, 65, 0), &SCHEDULE, &RATE), Some(200));
    assert_eq!(compute_reward(1000, &stake(0, 0, 900), &SCHEDULE, &RATE), Some(100));
    assert_eq!(compute_reward(1000, &stake(0, 0, 1000), &SCHEDULE, &RATE), Some(0));
}

#[test]
fn reward_arithmetic_failures() {
    // More withdrawn than accrued.
    assert_eq!(compute_reward(1000, &stake(0, 266, 0), &SCHEDULE, &RATE), None);
    // More harvested than the cap.
    assert_eq!(compute_reward(1000, &stake(0, 0, 1001), &SCHEDULE, &RATE), None);
    // A zero period.
    let zero = ContractData { reward_period: 0, ..SCHEDULE };
    assert_eq!(compute_reward(1000, &stake(0, 0, 0), &zero, &RATE), None);
    let zero_bonus = ContractData { bonus_period: 0, ..SCHEDULE };
    assert_eq!(compute_reward(1000, &stake(0, 0, 0), &zero_bonus, &RATE), None);
    // A stake after the clock reading.
    assert_eq!(compute_reward(1000, &stake(1001, 0, 0), &SCHEDULE, &RATE), None);
    assert_eq!(staked_time(1000, &stake(1001, 0, 0)), None);
    assert_eq!(staked_time(1000, &stake(400, 0, 0)), Some(600));
    // An overflowing product.
    let rich = RateData { price: u64::MAX, maxreward: u64::MAX };
    assert_eq!(compute_reward(1000, &stake(0, 0, 0), &SCHEDULE, &rich), None);
}

#[test]
fn second_claim_at_same_time_pays_nothing() {
    let s = stake(0, 0, 0);
    let r = compute_reward(1000, &s, &SCHEDULE, &RATE).unwrap();
    let after = pay_out(&s, r, 1000, &SCHEDULE, &RATE);
    assert_eq!(after.withdrawn, 265);
    assert_eq!(after.harvested, 265);
    assert_eq!(compute_reward(1000, &after, &SCHEDULE, &RATE), Some(0));
    // Later, only the newly accrued part is paid.
    assert_eq!(compute_reward(1300, &after, &SCHEDULE, &RATE), Some(130 + 130 * 215 / 100 - 265));
}

#[test]
fn capped_payouts_stop_at_the_cap() {
    let rate = RateData { price: 1, maxreward: 30 };
    let s = stake(0, 0, 0);
    let r = compute_reward(1000, &s, &SCHEDULE, &rate).unwrap();
    assert_eq!(r, 30);
    let after = pay_out(&s, r, 1000, &SCHEDULE, &rate);
    assert_eq!(after.harvested, 30);
    assert_eq!(compute_reward(5000, &after, &SCHEDULE, &rate), Some(0));
}
