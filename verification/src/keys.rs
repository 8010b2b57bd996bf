//! The program's configured addresses and the addresses it derives.

use vstd::prelude::*;
use crate::address::{Address, address_of, lemma_address_of_view};
use crate::outside::{
    associated_token_program_id, find_program_address, metadata_program_id, parse_address,
    parsed_address, program_address, seed_views, token_program_id,
};
use crate::plan::Signer;

verus! {

/// The addresses the program works with.
#[derive(Clone, Copy, Debug, PartialEq, Eq)]
pub struct Config {
    /// The only key that may configure the vault, whitelist collections and
    /// withdraw from the vault.
    pub admin: Address,
    /// The token paid out as reward.
    pub reward_mint: Address,
    /// The token handed to a staker as proof of a stake.
    pub proof_mint: Address,
    pub token_program: Address,
    pub metadata_program: Address,
    pub ata_program: Address,
}

pub open spec fn admin_text() -> Seq<char> {
    "9urEjHV3Wm4Pv4Da8uuufRoAuLT9FNAm97wHy3qF9pYy"@
}

pub open spec fn reward_mint_text() -> Seq<char> {
    "9gw5yXb2XCkqTTywcqYj9CE3LBuEeWCNDtRqbaJ4Xc1W"@
}

pub open spec fn proof_mint_text() -> Seq<char> {
    "Eurhvwdurf1f5UmqryoqscP3Xps2uibqaN7zT1AkxEhw"@
}

/// `c` holds the configured addresses and the ids of the token, metadata and
/// associated-token programs.
pub open spec fn is_program_config(c: Config) -> bool {
    &&& parsed_address(admin_text()) == Some(c.admin@)
    &&& parsed_address(reward_mint_text()) == Some(c.reward_mint@)
    &&& parsed_address(proof_mint_text()) == Some(c.proof_mint@)
    &&& parsed_address("TokenkegQfeZyiNwAJbNbGKPFXCWuBvf9Ss623VQ5DA"@) == Some(c.token_program@)
    &&& parsed_address("metaqbxxUerdq28cj1RbAWkYQm3ybzjb6a8bt518x1s"@) == Some(c.metadata_program@)
    &&& parsed_address("ATokenGPvbdGVxr1b2hvZbsiqW5xWH25efTNsLJA8knL"@) == Some(c.ata_program@)
}

/// Reads the configured addresses; `None` when one of them is not valid text.
pub fn program_config() -> (r: Option<Config>)
    ensures
        match r {
            Some(c) => is_program_config(c),
            None => parsed_address(admin_text()) is None || parsed_address(reward_mint_text()) is None
                || parsed_address(proof_mint_text()) is None,
        },
{
    let admin = match parse_address("9urEjHV3Wm4Pv4Da8uuufRoAuLT9FNAm97wHy3qF9pYy") {
        Some(a) => a,
        None => return None,
    };
    let reward_mint = match parse_address("9gw5yXb2XCkqTTywcqYj9CE3LBuEeWCNDtRqbaJ4Xc1W") {
        Some(a) => a,
        None => return None,
    };
    let proof_mint = match parse_address("Eurhvwdurf1f5UmqryoqscP3Xps2uibqaN7zT1AkxEhw") {
        Some(a) => a,
        None => return None,
    };
    Some(
        Config {
            admin,
            reward_mint,
            proof_mint,
            token_program: token_program_id(),
            metadata_program: metadata_program_id(),
            ata_program: associated_token_program_id(),
        },
    )
}

/// There is one configuration: two that both hold the configured addresses
/// are the same.
pub proof fn lemma_config_unique(a: Config, b: Config)
    requires
        is_program_config(a),
        is_program_config(b),
    ensures
        a == b,
{
    assert(a.admin =~= b.admin);
    assert(a.reward_mint =~= b.reward_mint);
    assert(a.proof_mint =~= b.proof_mint);
    assert(a.token_program =~= b.token_program);
    assert(a.metadata_program =~= b.metadata_program);
    assert(a.ata_program =~= b.ata_program);
}

// ---------------------------------------------------------------------------
// Seeds
// ---------------------------------------------------------------------------

/// The bytes of "vault".
pub open spec fn vault_word() -> Seq<u8> {
    seq![118u8, 97u8, 117u8, 108u8, 116u8]
}

/// The bytes of "whitelist".
pub open spec fn whitelist_word() -> Seq<u8> {
    seq![119u8, 104u8, 105u8, 116u8, 101u8, 108u8, 105u8, 115u8, 116u8]
}

/// The bytes of "metadata".
pub open spec fn metadata_word() -> Seq<u8> {
    seq![109u8, 101u8, 116u8, 97u8, 100u8, 97u8, 116u8, 97u8]
}

fn vault_word_bytes() -> (r: Vec<u8>)
    ensures
        r@ == vault_word(),
{
    let r = vec![118u8, 97u8, 117u8, 108u8, 116u8];
    assert(r@ =~= vault_word());
    r
}

fn whitelist_word_bytes() -> (r: Vec<u8>)
    ensures
        r@ == whitelist_word(),
{
    let r = vec![119u8, 104u8, 105u8, 116u8, 101u8, 108u8, 105u8, 115u8, 116u8];
    assert(r@ =~= whitelist_word());
    r
}

fn metadata_word_bytes() -> (r: Vec<u8>)
    ensures
        r@ == metadata_word(),
{
    let r = vec![109u8, 101u8, 116u8, 97u8, 100u8, 97u8, 116u8, 97u8];
    assert(r@ =~= metadata_word());
    r
}

fn one_byte(b: u8) -> (r: Vec<u8>)
    ensures
        r@ == seq![b],
{
    let mut r: Vec<u8> = Vec::new();
    r.push(b);
    assert(r@ =~= seq![b]);
    r
}

fn address_bytes(a: &Address) -> (r: Vec<u8>)
    ensures
        r@ == a@,
{
    let mut r: Vec<u8> = Vec::new();
    let mut i: usize = 0;
    while i < 32
        invariant
            0 <= i <= 32,
            r@ == a@.subrange(0, i as int),
        decreases 32 - i,
    {
        r.push(a[i]);
        assert(a@.subrange(0, i + 1) =~= a@.subrange(0, i as int).push(a@[i as int]));
        i = i + 1;
    }
    assert(a@.subrange(0, 32) =~= a@);
    r
}

pub open spec fn vault_seeds() -> Seq<Seq<u8>> {
    seq![vault_word()]
}

pub open spec fn whitelist_seeds(collection: Address) -> Seq<Seq<u8>> {
    seq![whitelist_word(), collection@]
}

pub open spec fn stake_seeds(mint: Address) -> Seq<Seq<u8>> {
    seq![mint@]
}

pub open spec fn metadata_seeds(metadata_program: Address, mint: Address) -> Seq<Seq<u8>> {
    seq![metadata_word(), metadata_program@, mint@]
}

pub open spec fn associated_seeds(wallet: Address, token_program: Address, mint: Address) -> Seq<Seq<u8>> {
    seq![wallet@, token_program@, mint@]
}

/// The seeds, bump included, with which the program signs as `s`.
pub open spec fn signer_seed_bytes(s: Signer) -> Seq<Seq<u8>> {
    match s {
        Signer::Vault { bump } => seq![vault_word(), seq![bump]],
        Signer::Whitelist { collection, bump } => seq![whitelist_word(), collection@, seq![bump]],
        Signer::Stake { mint, bump } => seq![mint@, seq![bump]],
    }
}

/// The seeds with which the program signs as `s`.
pub fn signer_seeds(s: &Signer) -> (r: Vec<Vec<u8>>)
    ensures
        seed_views(r@) == signer_seed_bytes(*s),
{
    let mut r: Vec<Vec<u8>> = Vec::new();
    match s {
        Signer::Vault { bump } => {
            r.push(vault_word_bytes());
            r.push(one_byte(*bump));
        },
        Signer::Whitelist { collection, bump } => {
            r.push(whitelist_word_bytes());
            r.push(address_bytes(collection));
            r.push(one_byte(*bump));
        },
        Signer::Stake { mint, bump } => {
            r.push(address_bytes(mint));
            r.push(one_byte(*bump));
        },
    }
    assert(seed_views(r@) =~= signer_seed_bytes(*s));
    r
}

// ---------------------------------------------------------------------------
// Derived addresses
// ---------------------------------------------------------------------------

/// The address derived from `seeds` under `program`, with its bump.
pub open spec fn derived(seeds: Seq<Seq<u8>>, program: Address) -> Option<(Address, u8)> {
    match program_address(seeds, program@) {
        Some((k, bump)) => Some((address_of(k), bump)),
        None => None,
    }
}

fn derive(seeds: &Vec<Vec<u8>>, program: &Address) -> (r: Option<(Address, u8)>)
    ensures
        r == derived(seed_views(seeds@), *program),
{
    match find_program_address(seeds, program) {
        Some((a, bump)) => {
            proof {
                lemma_address_of_view(a);
            }
            Some((a, bump))
        },
        None => None,
    }
}

/// The vault's address and bump.
pub fn vault_address(program_id: &Address) -> (r: Option<(Address, u8)>)
    ensures
        r == derived(vault_seeds(), *program_id),
{
    let mut seeds: Vec<Vec<u8>> = Vec::new();
    seeds.push(vault_word_bytes());
    assert(seed_views(seeds@) =~= vault_seeds());
    derive(&seeds, program_id)
}

/// The address and bump of a collection's whitelist entry.
pub fn whitelist_address(program_id: &Address, collection: &Address) -> (r: Option<(Address, u8)>)
    ensures
        r == derived(whitelist_seeds(*collection), *program_id),
{
    let mut seeds: Vec<Vec<u8>> = Vec::new();
    seeds.push(whitelist_word_bytes());
    seeds.push(address_bytes(collection));
    assert(seed_views(seeds@) =~= whitelist_seeds(*collection));
    derive(&seeds, program_id)
}

/// The address and bump of an NFT's stake record.
pub fn stake_address(program_id: &Address, mint: &Address) -> (r: Option<(Address, u8)>)
    ensures
        r == derived(stake_seeds(*mint), *program_id),
{
    let mut seeds: Vec<Vec<u8>> = Vec::new();
    seeds.push(address_bytes(mint));
    assert(seed_views(seeds@) =~= stake_seeds(*mint));
    derive(&seeds, program_id)
}

/// The address of an NFT's metadata record.
pub fn metadata_address(cfg: &Config, mint: &Address) -> (r: Option<(Address, u8)>)
    ensures
        r == derived(metadata_seeds(cfg.metadata_program, *mint), cfg.metadata_program),
{
    let mut seeds: Vec<Vec<u8>> = Vec::new();
    seeds.push(metadata_word_bytes());
    seeds.push(address_bytes(&cfg.metadata_program));
    seeds.push(address_bytes(mint));
    assert(seed_views(seeds@) =~= metadata_seeds(cfg.metadata_program, *mint));
    derive(&seeds, &cfg.metadata_program)
}

/// The associated token account of `wallet` for `mint`.
pub open spec fn associated(cfg: Config, wallet: Address, mint: Address) -> Option<Address> {
    match derived(associated_seeds(wallet, cfg.token_program, mint), cfg.ata_program) {
        Some((a, _)) => Some(a),
        None => None,
    }
}

/// The associated token account of `wallet` for `mint`: the address derived
/// from the wallet, the token program and the mint under the
/// associated-token program.
pub fn associated_address(cfg: &Config, wallet: &Address, mint: &Address) -> (r: Option<Address>)
    ensures
        r == associated(*cfg, *wallet, *mint),
{
    let mut seeds: Vec<Vec<u8>> = Vec::new();
    seeds.push(address_bytes(wallet));
    seeds.push(address_bytes(&cfg.token_program));
    seeds.push(address_bytes(mint));
    assert(seed_views(seeds@) =~= associated_seeds(*wallet, cfg.token_program, *mint));
    match derive(&seeds, &cfg.ata_program) {
        Some((a, _)) => Some(a),
        None => None,
    }
}

} // verus!
