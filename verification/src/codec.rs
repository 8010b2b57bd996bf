//! Byte layouts of the program's instruction and account records.
//!
//! Integers are little-endian `u64`s, addresses are their 32 raw bytes,
//! booleans are one byte (0 or 1, any other byte is rejected), and an
//! instruction starts with one tag byte naming its variant.

use vstd::prelude::*;
use crate::address::{Address, address_at, address_of, lemma_address_of_bytes, lemma_address_of_view};

verus! {

broadcast use vstd::array::group_array_axioms;

// ---------------------------------------------------------------------------
// Little-endian u64
// ---------------------------------------------------------------------------

/// The eight little-endian bytes of `v`.
pub open spec fn le_bytes(v: u64) -> Seq<u8> {
    seq![
        (v & 0xff) as u8,
        ((v >> 8) & 0xff) as u8,
        ((v >> 16) & 0xff) as u8,
        ((v >> 24) & 0xff) as u8,
        ((v >> 32) & 0xff) as u8,
        ((v >> 40) & 0xff) as u8,
        ((v >> 48) & 0xff) as u8,
        ((v >> 56) & 0xff) as u8,
    ]
}

/// The `u64` whose little-endian bytes are `b[0..8]`.
pub open spec fn le_value(b: Seq<u8>) -> u64 {
    le_from8(b[0], b[1], b[2], b[3], b[4], b[5], b[6], b[7])
}

pub open spec fn le_from8(b0: u8, b1: u8, b2: u8, b3: u8, b4: u8, b5: u8, b6: u8, b7: u8) -> u64 {
    (b0 as u64) | ((b1 as u64) << 8) | ((b2 as u64) << 16) | ((b3 as u64) << 24) | ((b4 as u64)
        << 32) | ((b5 as u64) << 40) | ((b6 as u64) << 48) | ((b7 as u64) << 56)
}

/// The `u64` stored at offset `at` of `b`.
pub open spec fn u64_at(b: Seq<u8>, at: int) -> u64 {
    le_value(b.subrange(at, at + 8))
}

/// Reading back the bytes of a `u64` gives the `u64`.
pub proof fn lemma_le_value_of_bytes(v: u64)
    ensures
        le_value(le_bytes(v)) == v,
{
    let b = le_bytes(v);
    assert(le_from8(
        (v & 0xff) as u8,
        ((v >> 8) & 0xff) as u8,
        ((v >> 16) & 0xff) as u8,
        ((v >> 24) & 0xff) as u8,
        ((v >> 32) & 0xff) as u8,
        ((v >> 40) & 0xff) as u8,
        ((v >> 48) & 0xff) as u8,
        ((v >> 56) & 0xff) as u8,
    ) == v) by (bit_vector);
}

/// Eight bytes are the bytes of the `u64` they encode.
pub proof fn lemma_le_bytes_of_value(b: Seq<u8>)
    requires
        b.len() == 8,
    ensures
        le_bytes(le_value(b)) == b,
{
    let (b0, b1, b2, b3, b4, b5, b6, b7) = (b[0], b[1], b[2], b[3], b[4], b[5], b[6], b[7]);
    let v = le_from8(b0, b1, b2, b3, b4, b5, b6, b7);
    assert(v == le_from8(b0, b1, b2, b3, b4, b5, b6, b7) ==> (
        (v & 0xff) as u8 == b0 && ((v >> 8) & 0xff) as u8 == b1
        && ((v >> 16) & 0xff) as u8 == b2 && ((v >> 24) & 0xff) as u8 == b3
        && ((v >> 32) & 0xff) as u8 == b4 && ((v >> 40) & 0xff) as u8 == b5
        && ((v >> 48) & 0xff) as u8 == b6 && ((v >> 56) & 0xff) as u8 == b7)) by (bit_vector);
    assert(le_bytes(v) =~= b);
}

/// Reads the little-endian `u64` at offset `at`.
pub fn read_u64(data: &[u8], at: usize) -> (r: u64)
    requires
        at + 8 <= data@.len(),
    ensures
        r == u64_at(data@, at as int),
{
    let s = Ghost(data@.subrange(at as int, at + 8));
    assert(s@[0] == data@[at as int] && s@[1] == data@[at + 1] && s@[2] == data@[at + 2]
        && s@[3] == data@[at + 3] && s@[4] == data@[at + 4] && s@[5] == data@[at + 5]
        && s@[6] == data@[at + 6] && s@[7] == data@[at + 7]);
    (data[at] as u64) | ((data[at + 1] as u64) << 8) | ((data[at + 2] as u64) << 16) | ((data[at
        + 3] as u64) << 24) | ((data[at + 4] as u64) << 32) | ((data[at + 5] as u64) << 40) | ((
    data[at + 6] as u64) << 48) | ((data[at + 7] as u64) << 56)
}

/// Appends the little-endian bytes of `v`.
pub fn push_u64(out: &mut Vec<u8>, v: u64)
    ensures
        final(out)@ == old(out)@ + le_bytes(v),
{
    out.push((v & 0xff) as u8);
    out.push(((v >> 8) & 0xff) as u8);
    out.push(((v >> 16) & 0xff) as u8);
    out.push(((v >> 24) & 0xff) as u8);
    out.push(((v >> 32) & 0xff) as u8);
    out.push(((v >> 40) & 0xff) as u8);
    out.push(((v >> 48) & 0xff) as u8);
    out.push(((v >> 56) & 0xff) as u8);
    assert(out@ =~= old(out)@ + le_bytes(v));
}

/// Appends the 32 bytes of an address.
pub fn push_address(out: &mut Vec<u8>, a: &Address)
    ensures
        final(out)@ == old(out)@ + a@,
{
    let mut i: usize = 0;
    while i < 32
        invariant
            0 <= i <= 32,
            out@ == old(out)@ + a@.subrange(0, i as int),
        decreases 32 - i,
    {
        out.push(a[i]);
        assert(a@.subrange(0, i + 1) =~= a@.subrange(0, i as int).push(a@[i as int]));
        i = i + 1;
    }
    assert(a@.subrange(0, 32) =~= a@);
}

// ---------------------------------------------------------------------------
// Records kept in program accounts
// ---------------------------------------------------------------------------

/// One staked NFT: when it was staked, by whom, whether it is still staked,
/// and how much reward was paid out for it.
#[derive(Clone, Copy, Debug, PartialEq, Eq)]
pub struct StakeData {
    pub timestamp: u64,
    pub staker: Address,
    pub mint: Address,
    pub active: bool,
    /// Paid out since the current stake began.
    pub withdrawn: u64,
    /// Paid out for this NFT over all of its stakes.
    pub harvested: u64,
}

/// The vault's reward schedule: periods are in seconds.
#[derive(Clone, Copy, Debug, PartialEq, Eq, Structural)]
pub struct ContractData {
    pub min_period: u64,
    pub reward_period: u64,
    pub bonus_percentage: u64,
    pub bonus_period: u64,
}

/// A whitelisted collection's reward per period and its lifetime cap per NFT.
#[derive(Clone, Copy, Debug, PartialEq, Eq, Structural)]
pub struct RateData {
    pub price: u64,
    pub maxreward: u64,
}

pub const STAKE_DATA_LEN: usize = 89;
pub const CONTRACT_DATA_LEN: usize = 32;
pub const RATE_DATA_LEN: usize = 16;

pub open spec fn bool_byte(b: bool) -> u8 {
    if b { 1 } else { 0 }
}

pub open spec fn stake_data_bytes(d: StakeData) -> Seq<u8> {
    le_bytes(d.timestamp) + d.staker@ + d.mint@ + seq![bool_byte(d.active)] + le_bytes(d.withdrawn)
        + le_bytes(d.harvested)
}

pub open spec fn contract_data_bytes(d: ContractData) -> Seq<u8> {
    le_bytes(d.min_period) + le_bytes(d.reward_period) + le_bytes(d.bonus_percentage) + le_bytes(
        d.bonus_period,
    )
}

pub open spec fn rate_data_bytes(d: RateData) -> Seq<u8> {
    le_bytes(d.price) + le_bytes(d.maxreward)
}

/// The stake record that `b` holds when `b` is exactly one encoded record.
pub open spec fn stake_data_from(b: Seq<u8>) -> Option<StakeData> {
    if b.len() == STAKE_DATA_LEN && b[72] <= 1 {
        Some(
            StakeData {
                timestamp: u64_at(b, 0),
                staker: address_of(b.subrange(8, 40)),
                mint: address_of(b.subrange(40, 72)),
                active: b[72] == 1,
                withdrawn: u64_at(b, 73),
                harvested: u64_at(b, 81),
            },
        )
    } else {
        None
    }
}

/// The reward schedule that `b` holds when `b` is exactly one encoded record.
pub open spec fn contract_data_from(b: Seq<u8>) -> Option<ContractData> {
    if b.len() == CONTRACT_DATA_LEN {
        Some(
            ContractData {
                min_period: u64_at(b, 0),
                reward_period: u64_at(b, 8),
                bonus_percentage: u64_at(b, 16),
                bonus_period: u64_at(b, 24),
            },
        )
    } else {
        None
    }
}

/// The rate that `b` holds when `b` is exactly one encoded record.
pub open spec fn rate_data_from(b: Seq<u8>) -> Option<RateData> {
    if b.len() == RATE_DATA_LEN {
        Some(RateData { price: u64_at(b, 0), maxreward: u64_at(b, 8) })
    } else {
        None
    }
}

pub fn encode_stake_data(d: &StakeData) -> (r: Vec<u8>)
    ensures
        r@ == stake_data_bytes(*d),
{
    let mut out: Vec<u8> = Vec::new();
    push_u64(&mut out, d.timestamp);
    push_address(&mut out, &d.staker);
    push_address(&mut out, &d.mint);
    out.push(if d.active { 1u8 } else { 0u8 });
    push_u64(&mut out, d.withdrawn);
    push_u64(&mut out, d.harvested);
    assert(out@ =~= stake_data_bytes(*d));
    out
}

pub fn encode_contract_data(d: &ContractData) -> (r: Vec<u8>)
    ensures
        r@ == contract_data_bytes(*d),
{
    let mut out: Vec<u8> = Vec::new();
    push_u64(&mut out, d.min_period);
    push_u64(&mut out, d.reward_period);
    push_u64(&mut out, d.bonus_percentage);
    push_u64(&mut out, d.bonus_period);
    assert(out@ =~= contract_data_bytes(*d));
    out
}

pub fn encode_rate_data(d: &RateData) -> (r: Vec<u8>)
    ensures
        r@ == rate_data_bytes(*d),
{
    let mut out: Vec<u8> = Vec::new();
    push_u64(&mut out, d.price);
    push_u64(&mut out, d.maxreward);
    assert(out@ =~= rate_data_bytes(*d));
    out
}

/// Reads a stake record that fills `data` exactly.
pub fn decode_stake_data(data: &[u8]) -> (r: Option<StakeData>)
    ensures
        r == stake_data_from(data@),
{
    if data.len() != STAKE_DATA_LEN || data[72] > 1 {
        return None;
    }
    let staker = address_at(data, 8);
    let mint = address_at(data, 40);
    proof {
        lemma_address_of_view(staker);
        lemma_address_of_view(mint);
    }
    Some(
        StakeData {
            timestamp: read_u64(data, 0),
            staker,
            mint,
            active: data[72] == 1,
            withdrawn: read_u64(data, 73),
            harvested: read_u64(data, 81),
        },
    )
}

/// Reads a reward schedule that fills `data` exactly.
pub fn decode_contract_data(data: &[u8]) -> (r: Option<ContractData>)
    ensures
        r == contract_data_from(data@),
{
    if data.len() != CONTRACT_DATA_LEN {
        return None;
    }
    Some(
        ContractData {
            min_period: read_u64(data, 0),
            reward_period: read_u64(data, 8),
            bonus_percentage: read_u64(data, 16),
            bonus_period: read_u64(data, 24),
        },
    )
}

/// Reads a rate that fills `data` exactly.
pub fn decode_rate_data(data: &[u8]) -> (r: Option<RateData>)
    ensures
        r == rate_data_from(data@),
{
    if data.len() != RATE_DATA_LEN {
        return None;
    }
    Some(RateData { price: read_u64(data, 0), maxreward: read_u64(data, 8) })
}

// ---------------------------------------------------------------------------
// Laws of the record layouts
// ---------------------------------------------------------------------------

proof fn lemma_u64_at_of(b: Seq<u8>, at: int, v: u64)
    requires
        0 <= at,
        at + 8 <= b.len(),
        b.subrange(at, at + 8) == le_bytes(v),
    ensures
        u64_at(b, at) == v,
{
    lemma_le_value_of_bytes(v);
}

proof fn lemma_address_in(b: Seq<u8>, at: int, a: Address)
    requires
        0 <= at,
        at + 32 <= b.len(),
        b.subrange(at, at + 32) == a@,
    ensures
        address_of(b.subrange(at, at + 32)) == a,
{
    lemma_address_of_view(a);
}

/// Reading an encoded stake record gives the record back.
pub proof fn lemma_stake_data_roundtrip(d: StakeData)
    ensures
        stake_data_bytes(d).len() == STAKE_DATA_LEN,
        stake_data_from(stake_data_bytes(d)) == Some(d),
{
    let b = stake_data_bytes(d);
    assert(b.subrange(0, 8) =~= le_bytes(d.timestamp));
    assert(b.subrange(8, 40) =~= d.staker@);
    assert(b.subrange(40, 72) =~= d.mint@);
    assert(b.subrange(73, 81) =~= le_bytes(d.withdrawn));
    assert(b.subrange(81, 89) =~= le_bytes(d.harvested));
    lemma_u64_at_of(b, 0, d.timestamp);
    lemma_u64_at_of(b, 73, d.withdrawn);
    lemma_u64_at_of(b, 81, d.harvested);
    lemma_address_in(b, 8, d.staker);
    lemma_address_in(b, 40, d.mint);
    assert(b[72] == bool_byte(d.active));
}

/// A stake record is read only from its own encoding: the layout has one
/// encoding per record.
pub proof fn lemma_stake_data_canonical(b: Seq<u8>)
    requires
        stake_data_from(b) is Some,
    ensures
        stake_data_bytes(stake_data_from(b)->0) == b,
{
    let d = stake_data_from(b)->0;
    lemma_le_bytes_of_value(b.subrange(0, 8));
    lemma_le_bytes_of_value(b.subrange(73, 81));
    lemma_le_bytes_of_value(b.subrange(81, 89));
    lemma_address_of_bytes(b.subrange(8, 40));
    lemma_address_of_bytes(b.subrange(40, 72));
    assert(b.subrange(0, 8) + b.subrange(8, 40) + b.subrange(40, 72) + seq![b[72]] + b.subrange(
        73,
        81,
    ) + b.subrange(81, 89) =~= b);
    assert(stake_data_bytes(d) =~= b);
}

/// Reading an encoded reward schedule gives it back.
pub proof fn lemma_contract_data_roundtrip(d: ContractData)
    ensures
        contract_data_bytes(d).len() == CONTRACT_DATA_LEN,
        contract_data_from(contract_data_bytes(d)) == Some(d),
{
    let b = contract_data_bytes(d);
    assert(b.subrange(0, 8) =~= le_bytes(d.min_period));
    assert(b.subrange(8, 16) =~= le_bytes(d.reward_period));
    assert(b.subrange(16, 24) =~= le_bytes(d.bonus_percentage));
    assert(b.subrange(24, 32) =~= le_bytes(d.bonus_period));
    lemma_u64_at_of(b, 0, d.min_period);
    lemma_u64_at_of(b, 8, d.reward_period);
    lemma_u64_at_of(b, 16, d.bonus_percentage);
    lemma_u64_at_of(b, 24, d.bonus_period);
}

/// A reward schedule is read only from its own encoding.
pub proof fn lemma_contract_data_canonical(b: Seq<u8>)
    requires
        contract_data_from(b) is Some,
    ensures
        contract_data_bytes(contract_data_from(b)->0) == b,
{
    lemma_le_bytes_of_value(b.subrange(0, 8));
    lemma_le_bytes_of_value(b.subrange(8, 16));
    lemma_le_bytes_of_value(b.subrange(16, 24));
    lemma_le_bytes_of_value(b.subrange(24, 32));
    assert(b.subrange(0, 8) + b.subrange(8, 16) + b.subrange(16, 24) + b.subrange(24, 32) =~= b);
}

/// Reading an encoded rate gives it back.
pub proof fn lemma_rate_data_roundtrip(d: RateData)
    ensures
        rate_data_bytes(d).len() == RATE_DATA_LEN,
        rate_data_from(rate_data_bytes(d)) == Some(d),
{
    let b = rate_data_bytes(d);
    assert(b.subrange(0, 8) =~= le_bytes(d.price));
    assert(b.subrange(8, 16) =~= le_bytes(d.maxreward));
    lemma_u64_at_of(b, 0, d.price);
    lemma_u64_at_of(b, 8, d.maxreward);
}

/// A rate is read only from its own encoding.
pub proof fn lemma_rate_data_canonical(b: Seq<u8>)
    requires
        rate_data_from(b) is Some,
    ensures
        rate_data_bytes(rate_data_from(b)->0) == b,
{
    lemma_le_bytes_of_value(b.subrange(0, 8));
    lemma_le_bytes_of_value(b.subrange(8, 16));
    assert(b.subrange(0, 8) + b.subrange(8, 16) =~= b);
}

// ---------------------------------------------------------------------------
// Writing a record into an account
// ---------------------------------------------------------------------------

/// A record that an instruction writes into an account.
#[derive(Clone, Copy, Debug, PartialEq, Eq)]
pub enum Record {
    Stake(StakeData),
    Vault(ContractData),
    Rate(RateData),
}

pub open spec fn record_bytes(r: Record) -> Seq<u8> {
    match r {
        Record::Stake(d) => stake_data_bytes(d),
        Record::Vault(d) => contract_data_bytes(d),
        Record::Rate(d) => rate_data_bytes(d),
    }
}

/// The account data after writing `r` at its start: `None` when the data is
/// too short to hold the record (the bytes after the record stay as they were).
pub open spec fn stored(data: Seq<u8>, r: Record) -> Option<Seq<u8>> {
    let enc = record_bytes(r);
    if data.len() < enc.len() {
        None
    } else {
        Some(enc + data.subrange(enc.len() as int, data.len() as int))
    }
}

pub fn encode_record(r: &Record) -> (out: Vec<u8>)
    ensures
        out@ == record_bytes(*r),
{
    match r {
        Record::Stake(d) => encode_stake_data(d),
        Record::Vault(d) => encode_contract_data(d),
        Record::Rate(d) => encode_rate_data(d),
    }
}

/// Writes `r` over the start of `data`, giving the new contents.
pub fn store_record(data: &[u8], r: &Record) -> (out: Option<Vec<u8>>)
    ensures
        match out {
            Some(v) => stored(data@, *r) == Some(v@),
            None => stored(data@, *r) is None,
        },
{
    let mut enc = encode_record(r);
    let n = enc.len();
    if data.len() < n {
        return None;
    }
    let ghost e = enc@;
    let mut i = n;
    while i < data.len()
        invariant
            n <= i <= data@.len(),
            n == e.len(),
            enc@ == e + data@.subrange(n as int, i as int),
        decreases data@.len() - i,
    {
        enc.push(data[i]);
        assert(data@.subrange(n as int, i + 1) =~= data@.subrange(n as int, i as int).push(
            data@[i as int],
        ));
        i = i + 1;
    }
    Some(enc)
}

/// What a write leaves in an account of exactly the record's size is read
/// back as the record written.
pub proof fn lemma_store_then_read(data: Seq<u8>, r: Record)
    requires
        data.len() == record_bytes(r).len(),
    ensures
        stored(data, r) == Some(record_bytes(r)),
        match r {
            Record::Stake(d) => stake_data_from(stored(data, r)->0) == Some(d),
            Record::Vault(d) => contract_data_from(stored(data, r)->0) == Some(d),
            Record::Rate(d) => rate_data_from(stored(data, r)->0) == Some(d),
        },
{
    let enc = record_bytes(r);
    assert(enc + data.subrange(enc.len() as int, data.len() as int) =~= enc);
    match r {
        Record::Stake(d) => lemma_stake_data_roundtrip(d),
        Record::Vault(d) => lemma_contract_data_roundtrip(d),
        Record::Rate(d) => lemma_rate_data_roundtrip(d),
    }
}

/// Little-endian bytes, in arithmetic: the value of eight bytes is
/// `b0 + 256 * b1 + ... + 256^7 * b7`, and the bytes of a value are its
/// base-256 digits, lowest first.
pub proof fn law_le_arithmetic(v: u64, b: Seq<u8>)
    requires
        b.len() == 8,
    ensures
        le_value(b) as int == b[0] as int + 0x100 * b[1] + 0x10000 * b[2] + 0x1000000 * b[3]
            + 0x100000000 * b[4] + 0x10000000000 * b[5] + 0x1000000000000 * b[6]
            + 0x100000000000000 * b[7],
        le_bytes(v).len() == 8,
        le_bytes(v)[0] == v % 0x100,
        le_bytes(v)[1] == (v / 0x100) % 0x100,
        le_bytes(v)[2] == (v / 0x10000) % 0x100,
        le_bytes(v)[3] == (v / 0x1000000) % 0x100,
        le_bytes(v)[4] == (v / 0x100000000) % 0x100,
        le_bytes(v)[5] == (v / 0x10000000000) % 0x100,
        le_bytes(v)[6] == (v / 0x1000000000000) % 0x100,
        le_bytes(v)[7] == (v / 0x100000000000000) % 0x100,
{
    let (b0, b1, b2, b3, b4, b5, b6, b7) = (b[0], b[1], b[2], b[3], b[4], b[5], b[6], b[7]);
    assert(le_from8(b0, b1, b2, b3, b4, b5, b6, b7) as int == b0 as int + 0x100 * b1 + 0x10000 * b2
        + 0x1000000 * b3 + 0x100000000 * b4 + 0x10000000000 * b5 + 0x1000000000000 * b6
        + 0x100000000000000 * b7) by (bit_vector);
    assert((v & 0xff) as u8 == v % 0x100 && ((v >> 8) & 0xff) as u8 == (v / 0x100) % 0x100
        && ((v >> 16) & 0xff) as u8 == (v / 0x10000) % 0x100 && ((v >> 24) & 0xff) as u8 == (v
        / 0x1000000) % 0x100 && ((v >> 32) & 0xff) as u8 == (v / 0x100000000) % 0x100 && ((v
        >> 40) & 0xff) as u8 == (v / 0x10000000000) % 0x100 && ((v >> 48) & 0xff) as u8 == (v
        / 0x1000000000000) % 0x100 && ((v >> 56) & 0xff) as u8 == (v / 0x100000000000000)
        % 0x100) by (bit_vector);
}

/// The stake record's layout: timestamp, staker, mint, active flag (one
/// byte, 0 or 1), withdrawn, harvested.
pub proof fn law_stake_data_layout(t: u64, staker: Address, mint: Address, active: bool, w: u64, h: u64)
    ensures
        stake_data_from(
            le_bytes(t) + staker@ + mint@ + seq![if active { 1u8 } else { 0u8 }] + le_bytes(w)
                + le_bytes(h),
        ) == Some(
            StakeData { timestamp: t, staker, mint, active, withdrawn: w, harvested: h },
        ),
{
    let d = StakeData { timestamp: t, staker, mint, active, withdrawn: w, harvested: h };
    lemma_stake_data_roundtrip(d);
    assert(stake_data_bytes(d) =~= le_bytes(t) + staker@ + mint@ + seq![
        if active { 1u8 } else { 0u8 },
    ] + le_bytes(w) + le_bytes(h));
}

/// The vault schedule's layout: minimum period, reward period, bonus
/// percentage, bonus period.
pub proof fn law_contract_data_layout(a: u64, b: u64, c: u64, d: u64)
    ensures
        contract_data_from(le_bytes(a) + le_bytes(b) + le_bytes(c) + le_bytes(d)) == Some(
            ContractData { min_period: a, reward_period: b, bonus_percentage: c, bonus_period: d },
        ),
{
    lemma_contract_data_roundtrip(
        ContractData { min_period: a, reward_period: b, bonus_percentage: c, bonus_period: d },
    );
}

/// The rate's layout: price, then lifetime cap.
pub proof fn law_rate_data_layout(price: u64, maxreward: u64)
    ensures
        rate_data_from(le_bytes(price) + le_bytes(maxreward)) == Some(RateData { price, maxreward }),
{
    lemma_rate_data_roundtrip(RateData { price, maxreward });
}

} // verus!
