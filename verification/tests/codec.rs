use nft_staking::codec::{
    decode_contract_data, decode_rate_data, decode_stake_data, encode_contract_data,
    encode_rate_data, encode_record, encode_stake_data, store_record, ContractData, RateData,
    Record, StakeData,
};
use nft_staking::instruction::{decode_instruction, encode_instruction, StakeInstruction};

fn sample_stake() -> StakeData {
    StakeData {
        timestamp: 0x0102030405060708,
        staker: [7u8; 32],
        mint: [9u8; 32],
        active: true,
        withdrawn: 300,
        harvested: 1_000_000,
    }
}

#[test]
fn stake_data_layout_is_fields_in_order() {
    let bytes = encode_stake_data(&sample_stake());
    assert_eq!(bytes.len(), 89);
    assert_eq!(&bytes[0..8], &[8, 7, 6, 5, 4, 3, 2, 1]);
    assert_eq!(&bytes[8..40], &[7u8; 32]);
    assert_eq!(&bytes[40..72], &[9u8; 32]);
    assert_eq!(bytes[72], 1);
    assert_eq!(&bytes[73..81], &300u64.to_le_bytes());
    assert_eq!(&bytes[81..89], &1_000_000u64.to_le_bytes());
}

#[test]
fn stake_data_roundtrip() {
    let d = sample_stake();
    assert_eq!(decode_stake_data(&encode_stake_data(&d)), Some(d));
    let inactive = StakeData { active: false, ..d };
    assert_eq!(decode_stake_data(&encode_stake_data(&inactive)), Some(inactive));
}

#[test]
fn stake_data_rejects_wrong_length_and_bad_bool() {
    let mut bytes = encode_stake_data(&sample_stake());
    bytes.push(0);
    assert_eq!(decode_stake_data(&bytes), None);
    bytes.pop();
    bytes.pop();
    assert_eq!(decode_stake_data(&bytes), None);
    let mut bytes = encode_stake_data(&sample_stake());
    bytes[72] = 2;
    assert_eq!(decode_stake_data(&bytes), None);
    assert_eq!(decode_stake_data(&[0u8; 89]).map(|d| d.active), Some(false));
}

#[test]
fn contract_and_rate_roundtrip() {
    let c = ContractData { min_period: 60, reward_period: 10, bonus_percentage: 5, bonus_period: 30 };
    let bytes = encode_contract_data(&c);
    assert_eq!(bytes.len(), 32);
    assert_eq!(&bytes[8..16], &10u64.to_le_bytes());
    assert_eq!(decode_contract_data(&bytes), Some(c));
    assert_eq!(decode_contract_data(&bytes[..31]), None);
    let r = RateData { price: 1, maxreward: 30 };
    let bytes = encode_rate_data(&r);
    assert_eq!(bytes, vec![1, 0, 0, 0, 0, 0, 0, 0, 30, 0, 0, 0, 0, 0, 0, 0]);
    assert_eq!(decode_rate_data(&bytes), Some(r));
    assert_eq!(decode_rate_data(&[0u8; 17]), None);
}

#[test]
fn store_record_overwrites_the_start() {
    let r = Record::Rate(RateData { price: 2, maxreward: 3 });
    assert_eq!(store_record(&[0u8; 15], &r), None);
    let out = store_record(&[0xffu8; 20], &r).unwrap();
    assert_eq!(out.len(), 20);
    assert_eq!(&out[..16], &encode_record(&r)[..]);
    assert_eq!(&out[16..], &[0xff; 4]);
    let exact = store_record(&[0u8; 16], &r).unwrap();
    assert_eq!(decode_rate_data(&exact), Some(RateData { price: 2, maxreward: 3 }));
}

#[test]
fn instruction_layouts() {
    let gv = StakeInstruction::GenerateVault {
        min_period: 60,
        reward_period: 10,
        bonus_percentage: 0,
        bonus_period: 30,
    };
    let bytes = encode_instruction(&gv);
    assert_eq!(bytes.len(), 33);
    assert_eq!(bytes[0], 0);
    assert_eq!(&bytes[1..9], &60u64.to_le_bytes());
    assert_eq!(decode_instruction(&bytes), Some(gv));
    assert_eq!(encode_instruction(&StakeInstruction::Stake), vec![1]);
    assert_eq!(encode_instruction(&StakeInstruction::Unstake), vec![2]);
    assert_eq!(encode_instruction(&StakeInstruction::StakeWithdraw), vec![5]);
    let w = StakeInstruction::AddToWhitelist { price: 1, maxreward: 30 };
    assert_eq!(decode_instruction(&encode_instruction(&w)), Some(w));
    let wd = StakeInstruction::Withdraw { amount: 10 };
    assert_eq!(encode_instruction(&wd), vec![4, 10, 0, 0, 0, 0, 0, 0, 0]);
}

#[test]
fn instruction_decoding_ignores_trailing_bytes_and_rejects_short_or_unknown() {
    assert_eq!(decode_instruction(&[1, 9, 9]), Some(StakeInstruction::Stake));
    assert_eq!(
        decode_instruction(&[4, 10, 0, 0, 0, 0, 0, 0, 0, 1, 2]),
        Some(StakeInstruction::Withdraw { amount: 10 })
    );
    assert_eq!(decode_instruction(&[]), None);
    assert_eq!(decode_instruction(&[6]), None);
    assert_eq!(decode_instruction(&[4, 1, 2, 3]), None);
    assert_eq!(decode_instruction(&[3, 1, 0, 0, 0, 0, 0, 0, 0]), None);
    assert_eq!(decode_instruction(&[0; 32]), None);
}
