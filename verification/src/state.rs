//! State records: the wallet, its transactions, and their sub-accounts.

use vstd::prelude::*;

use crate::ErrorCode;
use crate::MAX_DELAY_SECONDS;

verus! {

/// A 32-byte identity (an account address), stored as four 64-bit words in
/// little-endian order.
#[derive(Clone, Copy, Debug, PartialEq, Eq, Structural)]
pub struct Pubkey {
    pub w0: u64,
    pub w1: u64,
    pub w2: u64,
    pub w3: u64,
}

/// The all-zero identity.
pub open spec fn pubkey_zero() -> Pubkey {
    Pubkey { w0: 0, w1: 0, w2: 0, w3: 0 }
}

impl Default for Pubkey {
    /// The all-zero key; it marks the executor of a transaction that has not
    /// been executed yet.
    fn default() -> (r: Self)
        ensures
            r == pubkey_zero(),
    {
        Pubkey { w0: 0, w1: 0, w2: 0, w3: 0 }
    }
}

/// Account metadata used to define [`TXInstruction`]s.
#[derive(Clone, Copy, Debug, PartialEq, Eq, Structural)]
pub struct TXAccountMeta {
    /// An account's public key.
    pub pubkey: Pubkey,
    /// True if the instruction requires a transaction signature matching
    /// `pubkey`.
    pub is_signer: bool,
    /// True if the account may be loaded as read-write.
    pub is_writable: bool,
}

/// One instruction unit of a [`Transaction`]: an opaque payload addressed to
/// an instruction processor, together with the accounts it touches.
#[derive(Clone, Debug)]
pub struct TXInstruction {
    /// Key of the instruction processor that executes this instruction.
    pub program_id: Pubkey,
    /// Which accounts should be passed to the instruction processor.
    pub keys: Vec<TXAccountMeta>,
    /// Opaque data passed to the instruction processor.
    pub data: Vec<u8>,
}

/// The governed multi-owner authority record.
#[derive(Clone, Debug)]
pub struct Smallet {
    /// Address of this wallet record.
    pub key: Pubkey,
    /// Base key the wallet address was derived from.
    pub base: Pubkey,
    /// Bump seed of the wallet address derivation.
    pub bump: u8,
    /// Minimum number of owner approvals needed to execute a [`Transaction`].
    pub threshold: u64,
    /// Minimum delay between proposal and execution, in seconds; 0 disables
    /// the floor.
    pub minimum_delay: i64,
    /// Time after the ETA during which a [`Transaction`] may still execute.
    pub grace_period: i64,
    /// Version counter of the owner set, incremented on every owner-set
    /// mutation. A transaction whose snapshot of this counter is out of date
    /// can never be approved, unapproved, or executed again.
    pub owner_set_seqno: u32,
    /// Total number of [`Transaction`]s proposed on this wallet.
    pub num_transactions: u64,
    /// Owners of the wallet, all distinct.
    pub owners: Vec<Pubkey>,
}

/// A proposed, ordered batch of external actions pending owner approval and
/// execution.
#[derive(Clone, Debug)]
pub struct Transaction {
    /// The wallet this transaction belongs to.
    pub smallet: Pubkey,
    /// The auto-incremented index of the transaction, unique per wallet.
    pub index: u64,
    /// The owner that proposed the transaction.
    pub proposer: Pubkey,
    /// The instructions to dispatch on execution.
    pub instructions: Vec<TXInstruction>,
    /// `signers[i]` is true iff the owner at position `i` of the owner list
    /// as it existed at creation has currently approved.
    pub signers: Vec<bool>,
    /// The wallet's owner-set sequence number at creation time.
    pub owner_set_seqno: u32,
    /// Earliest permitted execution time, or [`crate::NO_ETA`] for none.
    pub eta: i64,
    /// The account that executed the transaction; all-zero until executed.
    pub executor: Pubkey,
    /// When the transaction was executed; [`crate::NOT_EXECUTED`] until then.
    pub executed_at: i64,
}

/// Which flavor of sub-account an address is.
#[derive(Clone, Copy, Debug, PartialEq, Eq, Structural)]
pub enum SubaccountType {
    /// Requires the normal multisig approval process.
    Derived,
    /// Any single owner may sign an instruction as this address.
    OwnerInvoker,
}

impl Default for SubaccountType {
    fn default() -> (r: Self)
        ensures
            r == SubaccountType::Derived,
    {
        SubaccountType::Derived
    }
}

/// Reverse mapping of a sub-account address to its wallet.
#[derive(Clone, Copy, Debug, PartialEq, Eq, Structural)]
pub struct SubaccountInfo {
    /// The wallet of the sub-account.
    pub smallet: Pubkey,
    /// Type of the sub-account.
    pub subaccount_type: SubaccountType,
    /// Derivation index of the sub-account.
    pub index: u64,
}

/// Position of the first occurrence of `key` in `owners`, if any.
pub open spec fn owner_position(owners: Seq<Pubkey>, key: Pubkey) -> Option<int>
    decreases owners.len(),
{
    if owners.len() == 0 {
        None
    } else if owners[0] == key {
        Some(0int)
    } else {
        match owner_position(owners.drop_first(), key) {
            Some(i) => Some(i + 1),
            None => None,
        }
    }
}

/// Whether `key` is one of `owners`.
pub open spec fn is_owner(owners: Seq<Pubkey>, key: Pubkey) -> bool {
    owner_position(owners, key) is Some
}

/// No two entries of `keys` are equal.
pub open spec fn distinct_keys(keys: Seq<Pubkey>) -> bool {
    forall|i: int, j: int| 0 <= i < j < keys.len() ==> keys[i] != keys[j]
}

/// How many entries of a signer bitmap are set.
pub open spec fn count_approvals(signers: Seq<bool>) -> int
    decreases signers.len(),
{
    if signers.len() == 0 {
        0
    } else {
        count_approvals(signers.drop_last()) + if signers.last() {
            1int
        } else {
            0int
        }
    }
}

/// [`owner_position`] returns exactly the least index holding `key`, or
/// `None` when `key` does not occur.
pub proof fn lemma_owner_position(owners: Seq<Pubkey>, key: Pubkey)
    ensures
        match owner_position(owners, key) {
            Some(i) => 0 <= i < owners.len() && owners[i] == key && (forall|j: int|
                0 <= j < i ==> owners[j] != key),
            None => forall|j: int| 0 <= j < owners.len() ==> owners[j] != key,
        },
    decreases owners.len(),
{
    if owners.len() == 0 {
    } else if owners[0] == key {
    } else {
        let rest = owners.drop_first();
        lemma_owner_position(rest, key);
        assert(forall|j: int| 0 <= j < rest.len() ==> rest[j] == owners[j + 1]);
        match owner_position(rest, key) {
            Some(i) => {
                assert(owners[i + 1] == key);
                assert forall|j: int| 0 <= j < i + 1 implies owners[j] != key by {
                    if j > 0 {
                        assert(rest[j - 1] != key);
                    }
                }
            },
            None => {
                assert forall|j: int| 0 <= j < owners.len() implies owners[j] != key by {
                    if j > 0 {
                        assert(rest[j - 1] != key);
                    }
                }
            },
        }
    }
}

impl Smallet {
    /// Well-formedness of a wallet: every reachable wallet satisfies this.
    pub open spec fn wf(self) -> bool {
        &&& self.threshold <= self.owners@.len()
        &&& 0 <= self.minimum_delay < MAX_DELAY_SECONDS
        &&& 0 <= self.grace_period
        &&& distinct_keys(self.owners@)
    }

    /// Index of `key` in the owner list, or `None`.
    pub fn owner_index_opt(&self, key: Pubkey) -> (r: Option<usize>)
        ensures
            match r {
                Some(i) => owner_position(self.owners@, key) == Some(i as int),
                None => owner_position(self.owners@, key) is None,
            },
    {
        let n = self.owners.len();
        let mut i: usize = 0;
        while i < n
            invariant
                i <= n,
                n == self.owners@.len(),
                forall|j: int| 0 <= j < i ==> self.owners@[j] != key,
            decreases n - i,
        {
            if self.owners[i] == key {
                proof {
                    lemma_owner_position(self.owners@, key);
                }
                return Some(i);
            }
            i += 1;
        }
        proof {
            lemma_owner_position(self.owners@, key);
        }
        None
    }

    /// Index of `key` in the owner list, or [`ErrorCode::InvalidOwner`].
    pub fn try_owner_index(&self, key: Pubkey) -> (r: Result<usize, ErrorCode>)
        ensures
            match r {
                Ok(i) => owner_position(self.owners@, key) == Some(i as int),
                Err(e) => owner_position(self.owners@, key) is None && e
                    == ErrorCode::InvalidOwner,
            },
    {
        match self.owner_index_opt(key) {
            Some(i) => Ok(i),
            None => Err(ErrorCode::InvalidOwner),
        }
    }
}

impl Transaction {
    /// The structural pairing between a transaction's signer bitmap and the
    /// wallet it was built against: whenever the transaction still claims to
    /// match the wallet's current owner set, the bitmap has one entry per
    /// owner. Every operation of this crate preserves it.
    pub open spec fn consistent_with(self, smallet: Smallet) -> bool {
        (self.smallet == smallet.key && self.owner_set_seqno == smallet.owner_set_seqno)
            ==> self.signers@.len() == smallet.owners@.len()
    }

    /// All fields other than the signer bitmap agree between `self` and
    /// `other`.
    pub open spec fn same_except_signers(self, other: Transaction) -> bool {
        &&& self.smallet == other.smallet
        &&& self.index == other.index
        &&& self.proposer == other.proposer
        &&& self.instructions == other.instructions
        &&& self.owner_set_seqno == other.owner_set_seqno
        &&& self.eta == other.eta
        &&& self.executor == other.executor
        &&& self.executed_at == other.executed_at
    }

    /// Number of owners that have currently approved.
    pub fn num_signers(&self) -> (r: usize)
        ensures
            r == count_approvals(self.signers@),
    {
        let n = self.signers.len();
        let mut count: usize = 0;
        let mut i: usize = 0;
        while i < n
            invariant
                i <= n,
                n == self.signers@.len(),
                count == count_approvals(self.signers@.subrange(0, i as int)),
                count <= i,
            decreases n - i,
        {
            proof {
                assert(self.signers@.subrange(0, i + 1).drop_last() =~= self.signers@.subrange(
                    0,
                    i as int,
                ));
                assert(self.signers@.subrange(0, i + 1).last() == self.signers@[i as int]);
            }
            if self.signers[i] {
                count += 1;
            }
            i += 1;
        }
        proof {
            assert(self.signers@.subrange(0, n as int) =~= self.signers@);
        }
        count
    }
}

} // verus!
