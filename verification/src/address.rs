//! Addresses (32-byte public keys) and their comparison.

use vstd::prelude::*;

verus! {

broadcast use vstd::array::group_array_axioms;

/// A 32-byte public key, as the runtime hands it over.
pub type Address = [u8; 32];

/// The address whose bytes are `s` (meaningful when `s` has 32 bytes).
pub open spec fn address_of(s: Seq<u8>) -> Address {
    choose|a: Address| a@ == s
}

/// Two addresses with the same bytes are the same address.
pub proof fn lemma_address_ext(a: Address, b: Address)
    requires
        a@ == b@,
    ensures
        a == b,
{
    assert(a =~= b);
}

/// `address_of` gives back an address from its bytes.
pub proof fn lemma_address_of_view(a: Address)
    ensures
        address_of(a@) == a,
{
    let b = address_of(a@);
    assert(exists|x: Address| x@ == a@);
    lemma_address_ext(b, a);
}

/// Any 32 bytes are the bytes of an address.
pub proof fn lemma_address_of_bytes(s: Seq<u8>)
    requires
        s.len() == 32,
    ensures
        address_of(s)@ == s,
{
    let a: Address = [s[0], s[1], s[2], s[3], s[4], s[5], s[6], s[7], s[8], s[9], s[10], s[11], s[12], s[13], s[14], s[15], s[16], s[17], s[18], s[19], s[20], s[21], s[22], s[23], s[24], s[25], s[26], s[27], s[28], s[29], s[30], s[31]];
    assert(a@ =~= s);
}

/// Compares two addresses byte by byte.
pub fn same_address(a: &Address, b: &Address) -> (r: bool)
    ensures
        r == (*a == *b),
{
    let mut i: usize = 0;
    while i < 32
        invariant
            0 <= i <= 32,
            forall|j: int| 0 <= j < i ==> a@[j] == b@[j],
        decreases 32 - i,
    {
        if a[i] != b[i] {
            return false;
        }
        i = i + 1;
    }
    proof {
        assert(a@ =~= b@);
        lemma_address_ext(*a, *b);
    }
    true
}

/// Copies 32 bytes starting at `at` into an address.
pub fn address_at(data: &[u8], at: usize) -> (r: Address)
    requires
        at + 32 <= data@.len(),
    ensures
        r@ == data@.subrange(at as int, at + 32),
{
    let mut r: Address = [0u8; 32];
    let n = data.len();
    let mut i: usize = 0;
    while i < 32
        invariant
            0 <= i <= 32,
            n == data@.len(),
            at + 32 <= data@.len(),
            forall|j: int| 0 <= j < i ==> r@[j] == data@[at + j],
        decreases 32 - i,
    {
        r[i] = data[at + i];
        i = i + 1;
    }
    assert(r@ =~= data@.subrange(at as int, at + 32));
    r
}

} // verus!
