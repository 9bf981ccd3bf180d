//! Program-derived addresses: the boundary to the external sub-identity
//! resolver, which maps a seed list to an address deterministically.

use vstd::prelude::*;

use crate::state::Pubkey;

verus! {

/// What the external address derivation returns for the given seeds and
/// program id: the derived 32-byte address and its bump seed, or nothing when
/// no bump seed yields a valid address. The result is a pure function of the
/// two arguments.
pub uninterp spec fn program_address_of(seeds: Seq<Seq<u8>>, program_id: Seq<u8>) -> Option<
    (Seq<u8>, u8),
>;

/// Relies on `solana_pubkey::Pubkey::try_find_program_address`: the derived
/// address and bump seed depend on the seed list and the program id alone;
/// `None` comes back only when the seed list breaks the derivation limits or
/// when (statistically improbably) no bump seed yields a valid address.
#[verifier::external_body]
pub(crate) fn try_find_program_address(seeds: &Vec<Vec<u8>>, program_id: &Vec<u8>) -> (r: Option<
    (Vec<u8>, u8),
>)
    requires
        program_id@.len() == 32,
    ensures
        match r {
            Some((address, bump)) => program_address_of(
                seeds@.map_values(|s: Vec<u8>| s@),
                program_id@,
            ) == Some((address@, bump)),
            None => program_address_of(seeds@.map_values(|s: Vec<u8>| s@), program_id@) is None,
        },
{
    let pid = solana_pubkey::Pubkey::try_from(program_id.as_slice()).unwrap();
    let seed_slices: Vec<&[u8]> = seeds.iter().map(|s| s.as_slice()).collect();
    match solana_pubkey::Pubkey::try_find_program_address(&seed_slices, &pid) {
        Some((address, bump)) => Some((address.to_bytes().to_vec(), bump)),
        None => None,
    }
}

/// The 32-byte serialization of a key: its four words, each little-endian.
pub open spec fn key_bytes(k: Pubkey) -> Seq<u8> {
    vstd::bytes::spec_u64_to_le_bytes(k.w0) + vstd::bytes::spec_u64_to_le_bytes(k.w1)
        + vstd::bytes::spec_u64_to_le_bytes(k.w2) + vstd::bytes::spec_u64_to_le_bytes(k.w3)
}

/// A key's serialization is exactly 32 bytes long.
pub(crate) proof fn lemma_key_bytes_len(k: Pubkey)
    ensures
        key_bytes(k).len() == 32,
{
    vstd::bytes::lemma_auto_spec_u64_to_from_le_bytes();
}

/// Serializes a key to its 32 bytes.
pub(crate) fn key_to_bytes(k: &Pubkey) -> (r: Vec<u8>)
    ensures
        r@ == key_bytes(*k),
        r@.len() == 32,
{
    let mut r = vstd::bytes::u64_to_le_bytes(k.w0);
    let mut b1 = vstd::bytes::u64_to_le_bytes(k.w1);
    let mut b2 = vstd::bytes::u64_to_le_bytes(k.w2);
    let mut b3 = vstd::bytes::u64_to_le_bytes(k.w3);
    r.append(&mut b1);
    r.append(&mut b2);
    r.append(&mut b3);
    r
}

/// Whether two byte strings are equal.
pub(crate) fn bytes_eq(a: &Vec<u8>, b: &Vec<u8>) -> (r: bool)
    ensures
        r == (a@ == b@),
{
    let n = a.len();
    if n != b.len() {
        return false;
    }
    let mut i: usize = 0;
    while i < n
        invariant
            i <= n,
            n == a@.len(),
            n == b@.len(),
            forall|j: int| 0 <= j < i ==> a@[j] == b@[j],
        decreases n - i,
    {
        if a[i] != b[i] {
            return false;
        }
        i += 1;
    }
    proof {
        assert(a@ =~= b@);
    }
    true
}

} // verus!
