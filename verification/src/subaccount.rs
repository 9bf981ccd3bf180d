//! Sub-account registration: verifying that a claimed sub-account address
//! really derives from its wallet, and recording the reverse mapping.
//!
//! A wallet can act as two flavors of delegated sub-identity, both derived
//! deterministically from the wallet address and an index: a "derived"
//! address (subject to full threshold governance) under the ASCII seed tag
//! `CosmicSmalletDerived`, and an "owner invoker" address (any single current
//! owner may act as it) under the tag `CosmicSmalletOwnerInvoker`.

use vstd::prelude::*;

use crate::pda::{
    bytes_eq, key_bytes, key_to_bytes, lemma_key_bytes_len, program_address_of,
    try_find_program_address,
};
use crate::state::{Pubkey, SubaccountInfo, SubaccountType};
use crate::ErrorCode;

verus! {

/// The ASCII bytes of `CosmicSmalletDerived`, the seed tag of a derived
/// address.
pub open spec fn spec_derived_tag() -> Seq<u8> {
    seq![
        0x43u8,
        0x6fu8,
        0x73u8,
        0x6du8,
        0x69u8,
        0x63u8,
        0x53u8,
        0x6du8,
        0x61u8,
        0x6cu8,
        0x6cu8,
        0x65u8,
        0x74u8,
        0x44u8,
        0x65u8,
        0x72u8,
        0x69u8,
        0x76u8,
        0x65u8,
        0x64u8,
    ]
}

/// The ASCII bytes of `CosmicSmalletOwnerInvoker`, the seed tag of an
/// owner-invoker address.
pub open spec fn spec_invoker_tag() -> Seq<u8> {
    seq![
        0x43u8,
        0x6fu8,
        0x73u8,
        0x6du8,
        0x69u8,
        0x63u8,
        0x53u8,
        0x6du8,
        0x61u8,
        0x6cu8,
        0x6cu8,
        0x65u8,
        0x74u8,
        0x4fu8,
        0x77u8,
        0x6eu8,
        0x65u8,
        0x72u8,
        0x49u8,
        0x6eu8,
        0x76u8,
        0x6fu8,
        0x6bu8,
        0x65u8,
        0x72u8,
    ]
}

/// The seed tag of a derived address.
fn derived_tag() -> (r: Vec<u8>)
    ensures
        r@ == spec_derived_tag(),
{
    let r: Vec<u8> = vec![
        0x43u8, 0x6fu8, 0x73u8, 0x6du8, 0x69u8, 0x63u8, 0x53u8, 0x6du8, 0x61u8, 0x6cu8, 0x6cu8,
        0x65u8, 0x74u8, 0x44u8, 0x65u8, 0x72u8, 0x69u8, 0x76u8, 0x65u8, 0x64u8,
    ];
    proof {
        assert(r@ =~= spec_derived_tag());
    }
    r
}

/// The seed tag of an owner-invoker address.
fn invoker_tag() -> (r: Vec<u8>)
    ensures
        r@ == spec_invoker_tag(),
{
    let r: Vec<u8> = vec![
        0x43u8, 0x6fu8, 0x73u8, 0x6du8, 0x69u8, 0x63u8, 0x53u8, 0x6du8, 0x61u8, 0x6cu8, 0x6cu8,
        0x65u8, 0x74u8, 0x4fu8, 0x77u8, 0x6eu8, 0x65u8, 0x72u8, 0x49u8, 0x6eu8, 0x76u8, 0x6fu8,
        0x6bu8, 0x65u8, 0x72u8,
    ];
    proof {
        assert(r@ =~= spec_invoker_tag());
    }
    r
}

/// The seed list from which a sub-account of the given kind derives: the
/// kind's tag, the wallet address, and the index in little-endian bytes.
pub open spec fn subaccount_seeds(kind: SubaccountType, smallet: Pubkey, index: u64) -> Seq<
    Seq<u8>,
> {
    seq![
        if kind == SubaccountType::Derived {
            spec_derived_tag()
        } else {
            spec_invoker_tag()
        },
        key_bytes(smallet),
        vstd::bytes::spec_u64_to_le_bytes(index),
    ]
}

/// Why a sub-account registration is rejected, if it is: the claimed address
/// must be exactly what the external resolver derives from the wallet, the
/// kind and the index under `program_id`.
pub open spec fn create_subaccount_error(
    subaccount: Pubkey,
    smallet: Pubkey,
    index: u64,
    kind: SubaccountType,
    program_id: Pubkey,
) -> Option<ErrorCode> {
    match program_address_of(subaccount_seeds(kind, smallet, index), key_bytes(program_id)) {
        Some((address, bump)) => if address == key_bytes(subaccount) {
            None
        } else {
            Some(ErrorCode::SubaccountOwnerMismatch)
        },
        None => Some(ErrorCode::SubaccountOwnerMismatch),
    }
}

/// Records the reverse mapping of a sub-account address to its wallet, after
/// checking that the address really derives from the wallet, the kind and the
/// index under `program_id`.
pub fn create_subaccount_info(
    subaccount: Pubkey,
    smallet: Pubkey,
    index: u64,
    subaccount_type: SubaccountType,
    program_id: Pubkey,
) -> (r: Result<SubaccountInfo, ErrorCode>)
    ensures
        match r {
            Ok(info) => {
                &&& create_subaccount_error(subaccount, smallet, index, subaccount_type, program_id)
                    is None
                &&& info == (SubaccountInfo { smallet, subaccount_type, index })
            },
            Err(e) => create_subaccount_error(subaccount, smallet, index, subaccount_type, program_id)
                == Some(e),
        },
{
    let tag = match subaccount_type {
        SubaccountType::Derived => derived_tag(),
        SubaccountType::OwnerInvoker => invoker_tag(),
    };
    let mut seeds: Vec<Vec<u8>> = Vec::new();
    seeds.push(tag);
    seeds.push(key_to_bytes(&smallet));
    seeds.push(vstd::bytes::u64_to_le_bytes(index));
    proof {
        assert(seeds@.map_values(|s: Vec<u8>| s@) =~= subaccount_seeds(
            subaccount_type,
            smallet,
            index,
        ));
        lemma_key_bytes_len(program_id);
    }
    let pid = key_to_bytes(&program_id);
    match try_find_program_address(&seeds, &pid) {
        Some((address, _bump)) => {
            let claimed = key_to_bytes(&subaccount);
            if bytes_eq(&address, &claimed) {
                Ok(SubaccountInfo { smallet, subaccount_type, index })
            } else {
                Err(ErrorCode::SubaccountOwnerMismatch)
            }
        },
        None => Err(ErrorCode::SubaccountOwnerMismatch),
    }
}

} // verus!
