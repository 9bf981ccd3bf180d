//! The owner-direct-invocation path: any single current owner may act as the
//! wallet's owner-invoker sub-identity, bypassing the proposal, approval and
//! timelock pipeline entirely. These functions authorize the owner and build
//! the instruction to dispatch; the dispatch itself is the caller's concern.

use vstd::prelude::*;

use crate::state::{is_owner, Pubkey, Smallet, TXAccountMeta, TXInstruction};
use crate::ErrorCode;

verus! {

/// Authorizes `owner` to invoke `ix` as an owner-invoker of the wallet: the
/// instruction passes through untouched, but only for a current owner.
pub fn owner_invoke_instruction(smallet: &Smallet, owner: Pubkey, ix: TXInstruction) -> (r: Result<
    TXInstruction,
    ErrorCode,
>)
    ensures
        r is Ok <==> is_owner(smallet.owners@, owner),
        r matches Ok(out) ==> out.program_id == ix.program_id && out.keys@ == ix.keys@ && out.data@
            == ix.data@,
        r matches Err(e) ==> e == ErrorCode::InvalidOwner,
{
    match smallet.try_owner_index(owner) {
        Ok(_) => Ok(ix),
        Err(e) => Err(e),
    }
}

/// Authorizes `owner` to invoke an instruction as the owner-invoker identity
/// `invoker`, and builds that instruction from raw parts: the account list is
/// carried over unchanged except that any account standing for `invoker`
/// itself is marked as a signer, since the derivation authority will sign
/// for it.
pub fn owner_invoke_instruction_v2(
    smallet: &Smallet,
    owner: Pubkey,
    invoker: Pubkey,
    program_id: Pubkey,
    accounts: Vec<TXAccountMeta>,
    data: Vec<u8>,
) -> (r: Result<TXInstruction, ErrorCode>)
    ensures
        r is Ok <==> is_owner(smallet.owners@, owner),
        r matches Err(e) ==> e == ErrorCode::InvalidOwner,
        r matches Ok(out) ==> {
            &&& out.program_id == program_id
            &&& out.data@ == data@
            &&& out.keys@.len() == accounts@.len()
            &&& forall|i: int|
                0 <= i < accounts@.len() ==> out.keys@[i] == (TXAccountMeta {
                    pubkey: accounts@[i].pubkey,
                    is_signer: accounts@[i].pubkey == invoker || accounts@[i].is_signer,
                    is_writable: accounts@[i].is_writable,
                })
        },
{
    if smallet.owner_index_opt(owner).is_none() {
        return Err(ErrorCode::InvalidOwner);
    }
    let n = accounts.len();
    let mut keys: Vec<TXAccountMeta> = Vec::new();
    let mut i: usize = 0;
    while i < n
        invariant
            i <= n,
            n == accounts@.len(),
            keys@.len() == i,
            forall|j: int|
                0 <= j < i ==> keys@[j] == (TXAccountMeta {
                    pubkey: accounts@[j].pubkey,
                    is_signer: accounts@[j].pubkey == invoker || accounts@[j].is_signer,
                    is_writable: accounts@[j].is_writable,
                }),
        decreases n - i,
    {
        let account = accounts[i];
        keys.push(
            TXAccountMeta {
                pubkey: account.pubkey,
                is_signer: if account.pubkey == invoker {
                    true
                } else {
                    account.is_signer
                },
                is_writable: account.is_writable,
            },
        );
        i += 1;
    }
    Ok(TXInstruction { program_id, keys, data })
}

} // verus!
