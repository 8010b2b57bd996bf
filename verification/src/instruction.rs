//! The program's instructions and their byte layout: one tag byte naming the
//! variant (in declaration order, from 0), then the variant's `u64` fields in
//! little-endian order.

use vstd::prelude::*;
use crate::codec::{le_bytes, push_u64, read_u64, u64_at, lemma_le_bytes_of_value, lemma_le_value_of_bytes};

verus! {

#[derive(Clone, Copy, Debug, PartialEq, Eq, Structural)]
pub enum StakeInstruction {
    /// Creates or reconfigures the vault (admin only).
    GenerateVault { min_period: u64, reward_period: u64, bonus_percentage: u64, bonus_period: u64 },
    /// Deposits an NFT of a whitelisted collection and hands out a proof token.
    Stake,
    /// Returns the NFT, takes back the proof token and pays the reward due.
    Unstake,
    /// Whitelists a collection with its rate (admin only).
    AddToWhitelist { price: u64, maxreward: u64 },
    /// Moves reward tokens out of the vault (admin only).
    Withdraw { amount: u64 },
    /// Pays the reward due without unstaking.
    StakeWithdraw,
}

pub open spec fn instruction_bytes(i: StakeInstruction) -> Seq<u8> {
    match i {
        StakeInstruction::GenerateVault {
            min_period,
            reward_period,
            bonus_percentage,
            bonus_period,
        } => seq![0u8] + le_bytes(min_period) + le_bytes(reward_period) + le_bytes(bonus_percentage)
            + le_bytes(bonus_period),
        StakeInstruction::Stake => seq![1u8],
        StakeInstruction::Unstake => seq![2u8],
        StakeInstruction::AddToWhitelist { price, maxreward } => seq![3u8] + le_bytes(price)
            + le_bytes(maxreward),
        StakeInstruction::Withdraw { amount } => seq![4u8] + le_bytes(amount),
        StakeInstruction::StakeWithdraw => seq![5u8],
    }
}

/// The instruction at the start of `b`; bytes after it are ignored.
pub open spec fn instruction_from(b: Seq<u8>) -> Option<StakeInstruction> {
    if b.len() == 0 {
        None
    } else if b[0] == 0 {
        if b.len() >= 33 {
            Some(
                StakeInstruction::GenerateVault {
                    min_period: u64_at(b, 1),
                    reward_period: u64_at(b, 9),
                    bonus_percentage: u64_at(b, 17),
                    bonus_period: u64_at(b, 25),
                },
            )
        } else {
            None
        }
    } else if b[0] == 1 {
        Some(StakeInstruction::Stake)
    } else if b[0] == 2 {
        Some(StakeInstruction::Unstake)
    } else if b[0] == 3 {
        if b.len() >= 17 {
            Some(StakeInstruction::AddToWhitelist { price: u64_at(b, 1), maxreward: u64_at(b, 9) })
        } else {
            None
        }
    } else if b[0] == 4 {
        if b.len() >= 9 {
            Some(StakeInstruction::Withdraw { amount: u64_at(b, 1) })
        } else {
            None
        }
    } else if b[0] == 5 {
        Some(StakeInstruction::StakeWithdraw)
    } else {
        None
    }
}

/// Reads the instruction at the start of `data`.
pub fn decode_instruction(data: &[u8]) -> (r: Option<StakeInstruction>)
    ensures
        r == instruction_from(data@),
{
    let n = data.len();
    if n == 0 {
        return None;
    }
    let tag = data[0];
    if tag == 0 {
        if n >= 33 {
            Some(
                StakeInstruction::GenerateVault {
                    min_period: read_u64(data, 1),
                    reward_period: read_u64(data, 9),
                    bonus_percentage: read_u64(data, 17),
                    bonus_period: read_u64(data, 25),
                },
            )
        } else {
            None
        }
    } else if tag == 1 {
        Some(StakeInstruction::Stake)
    } else if tag == 2 {
        Some(StakeInstruction::Unstake)
    } else if tag == 3 {
        if n >= 17 {
            Some(
                StakeInstruction::AddToWhitelist {
                    price: read_u64(data, 1),
                    maxreward: read_u64(data, 9),
                },
            )
        } else {
            None
        }
    } else if tag == 4 {
        if n >= 9 {
            Some(StakeInstruction::Withdraw { amount: read_u64(data, 1) })
        } else {
            None
        }
    } else if tag == 5 {
        Some(StakeInstruction::StakeWithdraw)
    } else {
        None
    }
}

/// Writes the bytes of an instruction.
pub fn encode_instruction(i: &StakeInstruction) -> (r: Vec<u8>)
    ensures
        r@ == instruction_bytes(*i),
{
    let mut out: Vec<u8> = Vec::new();
    match i {
        StakeInstruction::GenerateVault {
            min_period,
            reward_period,
            bonus_percentage,
            bonus_period,
        } => {
            out.push(0u8);
            push_u64(&mut out, *min_period);
            push_u64(&mut out, *reward_period);
            push_u64(&mut out, *bonus_percentage);
            push_u64(&mut out, *bonus_period);
        },
        StakeInstruction::Stake => {
            out.push(1u8);
        },
        StakeInstruction::Unstake => {
            out.push(2u8);
        },
        StakeInstruction::AddToWhitelist { price, maxreward } => {
            out.push(3u8);
            push_u64(&mut out, *price);
            push_u64(&mut out, *maxreward);
        },
        StakeInstruction::Withdraw { amount } => {
            out.push(4u8);
            push_u64(&mut out, *amount);
        },
        StakeInstruction::StakeWithdraw => {
            out.push(5u8);
        },
    }
    assert(out@ =~= instruction_bytes(*i));
    out
}

proof fn lemma_field(b: Seq<u8>, at: int, v: u64)
    requires
        0 <= at,
        at + 8 <= b.len(),
        b.subrange(at, at + 8) == le_bytes(v),
    ensures
        u64_at(b, at) == v,
{
    lemma_le_value_of_bytes(v);
}

/// An encoded instruction is read back as itself, whatever bytes follow it.
pub proof fn lemma_instruction_roundtrip(i: StakeInstruction, rest: Seq<u8>)
    ensures
        instruction_from(instruction_bytes(i) + rest) == Some(i),
{
    let b = instruction_bytes(i) + rest;
    match i {
        StakeInstruction::GenerateVault {
            min_period,
            reward_period,
            bonus_percentage,
            bonus_period,
        } => {
            assert(b.subrange(1, 9) =~= le_bytes(min_period));
            assert(b.subrange(9, 17) =~= le_bytes(reward_period));
            assert(b.subrange(17, 25) =~= le_bytes(bonus_percentage));
            assert(b.subrange(25, 33) =~= le_bytes(bonus_period));
            lemma_field(b, 1, min_period);
            lemma_field(b, 9, reward_period);
            lemma_field(b, 17, bonus_percentage);
            lemma_field(b, 25, bonus_period);
        },
        StakeInstruction::AddToWhitelist { price, maxreward } => {
            assert(b.subrange(1, 9) =~= le_bytes(price));
            assert(b.subrange(9, 17) =~= le_bytes(maxreward));
            lemma_field(b, 1, price);
            lemma_field(b, 9, maxreward);
        },
        StakeInstruction::Withdraw { amount } => {
            assert(b.subrange(1, 9) =~= le_bytes(amount));
            lemma_field(b, 1, amount);
        },
        _ => {
            assert(b[0] == instruction_bytes(i)[0]);
        },
    }
}

/// An instruction is read only from data that starts with its encoding.
pub proof fn lemma_instruction_canonical(b: Seq<u8>)
    requires
        instruction_from(b) is Some,
    ensures
        instruction_bytes(instruction_from(b)->0).len() <= b.len(),
        b.subrange(0, instruction_bytes(instruction_from(b)->0).len() as int) == instruction_bytes(
            instruction_from(b)->0,
        ),
{
    let i = instruction_from(b)->0;
    let n = instruction_bytes(i).len() as int;
    if b[0] == 0 {
        lemma_le_bytes_of_value(b.subrange(1, 9));
        lemma_le_bytes_of_value(b.subrange(9, 17));
        lemma_le_bytes_of_value(b.subrange(17, 25));
        lemma_le_bytes_of_value(b.subrange(25, 33));
        assert(seq![b[0]] + b.subrange(1, 9) + b.subrange(9, 17) + b.subrange(17, 25) + b.subrange(
            25,
            33,
        ) =~= b.subrange(0, 33));
    } else if b[0] == 3 {
        lemma_le_bytes_of_value(b.subrange(1, 9));
        lemma_le_bytes_of_value(b.subrange(9, 17));
        assert(seq![b[0]] + b.subrange(1, 9) + b.subrange(9, 17) =~= b.subrange(0, 17));
    } else if b[0] == 4 {
        lemma_le_bytes_of_value(b.subrange(1, 9));
        assert(seq![b[0]] + b.subrange(1, 9) =~= b.subrange(0, 9));
    }
    assert(b.subrange(0, n) =~= instruction_bytes(i));
}

/// The tag byte names the instruction: 0 GenerateVault, 1 Stake, 2 Unstake,
/// 3 AddToWhitelist, 4 Withdraw, 5 StakeWithdraw; the fields follow in
/// declaration order, each as eight little-endian bytes, and anything after
/// them is ignored.
pub proof fn law_instruction_layout(a: u64, b: u64, c: u64, d: u64, rest: Seq<u8>)
    ensures
        instruction_from(seq![0u8] + le_bytes(a) + le_bytes(b) + le_bytes(c) + le_bytes(d) + rest)
            == Some(
            StakeInstruction::GenerateVault {
                min_period: a,
                reward_period: b,
                bonus_percentage: c,
                bonus_period: d,
            },
        ),
        instruction_from(seq![1u8] + rest) == Some(StakeInstruction::Stake),
        instruction_from(seq![2u8] + rest) == Some(StakeInstruction::Unstake),
        instruction_from(seq![3u8] + le_bytes(a) + le_bytes(b) + rest) == Some(
            StakeInstruction::AddToWhitelist { price: a, maxreward: b },
        ),
        instruction_from(seq![4u8] + le_bytes(a) + rest) == Some(
            StakeInstruction::Withdraw { amount: a },
        ),
        instruction_from(seq![5u8] + rest) == Some(StakeInstruction::StakeWithdraw),
{
    let g = seq![0u8] + le_bytes(a) + le_bytes(b) + le_bytes(c) + le_bytes(d) + rest;
    assert(g.subrange(1, 9) =~= le_bytes(a));
    assert(g.subrange(9, 17) =~= le_bytes(b));
    assert(g.subrange(17, 25) =~= le_bytes(c));
    assert(g.subrange(25, 33) =~= le_bytes(d));
    lemma_field(g, 1, a);
    lemma_field(g, 9, b);
    lemma_field(g, 17, c);
    lemma_field(g, 25, d);
    let w = seq![3u8] + le_bytes(a) + le_bytes(b) + rest;
    assert(w.subrange(1, 9) =~= le_bytes(a));
    assert(w.subrange(9, 17) =~= le_bytes(b));
    lemma_field(w, 1, a);
    lemma_field(w, 9, b);
    let x = seq![4u8] + le_bytes(a) + rest;
    assert(x.subrange(1, 9) =~= le_bytes(a));
    lemma_field(x, 1, a);
    assert((seq![1u8] + rest)[0] == 1u8);
    assert((seq![2u8] + rest)[0] == 2u8);
    assert((seq![5u8] + rest)[0] == 5u8);
}

} // verus!
