use vstd::prelude::*;

use crate::address::Address;
use crate::error::MultiSigError;

verus! {

/// Mathematical model of one transaction record.
pub struct TxModel {
    /// Target identity of the outward effect.
    pub to: Address,
    /// Amount handed to the outward effect.
    pub value: u128,
    /// Opaque payload handed to the outward effect.
    pub data: Seq<u8>,
    /// Whether execution has been committed for this record.
    pub executed: bool,
    /// The owners that have confirmed this record, in confirmation order.
    pub confirmations: Seq<Address>,
}

/// Mathematical model of the whole wallet state.
pub struct StateModel {
    /// The installed owners, in installation order.
    pub owners: Seq<Address>,
    /// How many distinct confirmations a record needs before it may execute.
    pub threshold: nat,
    /// The append-only transaction log; a record's index is its identity.
    pub txs: Seq<TxModel>,
}

/// No two entries of `s` are the same identity.
pub open spec fn all_distinct(s: Seq<Address>) -> bool {
    forall|i: int, j: int| #![trigger s[i], s[j]] 0 <= i < j < s.len() ==> s[i] != s[j]
}

/// No entry of `s` is the null identity.
pub open spec fn all_nonnull(s: Seq<Address>) -> bool {
    forall|i: int| 0 <= i < s.len() ==> !(#[trigger] s[i]).spec_is_null()
}

/// Exactly the owner sets and thresholds that `initialize` accepts.
pub open spec fn valid_owner_set(owners: Seq<Address>, threshold: nat) -> bool {
    &&& owners.len() > 0
    &&& 1 <= threshold <= owners.len()
    &&& all_nonnull(owners)
    &&& all_distinct(owners)
}

/// Invariant of one transaction record: an owner confirms at most once, and
/// only owners confirm.
pub open spec fn wf_tx(t: TxModel, owners: Seq<Address>) -> bool {
    &&& all_distinct(t.confirmations)
    &&& forall|k: int| 0 <= k < t.confirmations.len() ==> owners.contains(#[trigger] t.confirmations[k])
}

/// One transaction record: what was proposed, whether it has been executed,
/// and who has confirmed it so far.
pub struct TxRecord {
    to: Address,
    value: u128,
    data: Vec<u8>,
    executed: bool,
    confirmations: Vec<Address>,
}

impl View for TxRecord {
    type V = TxModel;

    closed spec fn view(&self) -> TxModel {
        TxModel {
            to: self.to,
            value: self.value,
            data: self.data@,
            executed: self.executed,
            confirmations: self.confirmations@,
        }
    }
}

/// What a committed execution asks of the surrounding host: perform the
/// outward effect `(to, value, data)` and report whether it succeeded.
#[derive(Clone, Debug, PartialEq, Eq)]
pub struct EffectRequest {
    pub to: Address,
    pub value: u128,
    pub data: Vec<u8>,
}

/// The wallet: an owner registry frozen at initialization and an append-only
/// transaction log, advanced only through the operations below.
pub struct MultiSig {
    owners: Vec<Address>,
    threshold: usize,
    transactions: Vec<TxRecord>,
}

impl View for MultiSig {
    type V = StateModel;

    closed spec fn view(&self) -> StateModel {
        StateModel {
            owners: self.owners@,
            threshold: self.threshold as nat,
            txs: Seq::new(self.transactions@.len(), |i: int| self.transactions@[i]@),
        }
    }
}

impl MultiSig {
    /// True once an owner set has been installed.
    pub open spec fn initialized(self) -> bool {
        self@.owners.len() > 0
    }

    /// True exactly of the installed owner identities.
    pub open spec fn spec_is_owner(self, a: Address) -> bool {
        self@.owners.contains(a)
    }

    /// Structural invariant: the registry, once installed, is a valid owner
    /// set; before installation everything is empty; and every record obeys
    /// its own invariant.
    pub open spec fn wf(self) -> bool {
        &&& (self.initialized() ==> valid_owner_set(self@.owners, self@.threshold))
        &&& (!self.initialized() ==> self@.threshold == 0 && self@.txs.len() == 0)
        &&& (forall|i: int| 0 <= i < self@.txs.len() ==> wf_tx(#[trigger] self@.txs[i], self@.owners))
    }

    /// A fresh, uninitialized wallet: no owners, no threshold, no records.
    pub fn new() -> (s: MultiSig)
        ensures
            s.wf(),
            !s.initialized(),
            s@.owners.len() == 0,
            s@.threshold == 0,
            s@.txs.len() == 0,
    {
        MultiSig { owners: Vec::new(), threshold: 0, transactions: Vec::new() }
    }

    /// Installs the owner set and the confirmation threshold, exactly once.
    ///
    /// Fails with `AlreadyInitialized` whenever an owner set is already
    /// installed, whatever the arguments; fails with `InvalidInput` on an
    /// empty owner set, a zero threshold, a threshold above the set's size,
    /// a null entry or a duplicate entry. On any failure nothing is changed:
    /// either the full owner set and threshold are installed, or nothing is.
    #[verifier::loop_isolation(false)]
    pub fn initialize(&mut self, owners: Vec<Address>, threshold: usize) -> (r: Result<
        (),
        MultiSigError,
    >)
        requires
            old(self).wf(),
        ensures
            final(self).wf(),
            old(self).initialized() ==> r == Err::<(), MultiSigError>(
                MultiSigError::AlreadyInitialized,
            ) && final(self)@ == old(self)@,
            !old(self).initialized() && !valid_owner_set(owners@, threshold as nat) ==> r
                == Err::<(), MultiSigError>(MultiSigError::InvalidInput)
                && final(self)@ == old(self)@,
            !old(self).initialized() && valid_owner_set(owners@, threshold as nat) ==> r
                == Ok::<(), MultiSigError>(())
                && final(self)@.owners == owners@
                && final(self)@.threshold == threshold as nat
                && final(self)@.txs == old(self)@.txs,
    {
        if self.owners.len() > 0 {
            return Err(MultiSigError::AlreadyInitialized);
        }
        let n = owners.len();
        if n == 0 || threshold == 0 || threshold > n {
            return Err(MultiSigError::InvalidInput);
        }
        let mut i: usize = 0;
        while i < n
            invariant
                n == owners@.len(),
                i <= n,
                all_nonnull(owners@.subrange(0, i as int)),
                all_distinct(owners@.subrange(0, i as int)),
            decreases n - i,
        {
            if owners[i].is_null() {
                assert(!all_nonnull(owners@));
                return Err(MultiSigError::InvalidInput);
            }
            let mut j: usize = 0;
            while j < i
                invariant
                    n == owners@.len(),
                    j <= i < n,
                    forall|q: int| 0 <= q < j ==> owners@[q] != owners@[i as int],
                decreases i - j,
            {
                if owners[j] == owners[i] {
                    assert(!all_distinct(owners@));
                    return Err(MultiSigError::InvalidInput);
                }
                j += 1;
            }
            proof {
                assert(all_nonnull(owners@.subrange(0, i + 1))) by {
                    assert(forall|p: int|
                        0 <= p < i + 1 ==> owners@.subrange(0, i + 1)[p] == owners@[p]);
                }
                assert(all_distinct(owners@.subrange(0, i + 1))) by {
                    assert(forall|p: int|
                        0 <= p < i + 1 ==> owners@.subrange(0, i + 1)[p] == owners@[p]);
                    assert(forall|q: int| 0 <= q < i ==> owners@[q] != owners@[i as int]);
                }
            }
            i += 1;
        }
        proof {
            assert(owners@.subrange(0, n as int) == owners@);
            assert(valid_owner_set(owners@, threshold as nat));
        }
        self.owners = owners;
        self.threshold = threshold;
        Ok(())
    }

    /// Appends a new transaction record proposing the effect `(to, value,
    /// data)`, and returns its index in the log.
    ///
    /// Only an installed owner may propose; any other caller is rejected
    /// with `NotOwner` and nothing is changed. No quorum is needed to
    /// propose. The new record starts unexecuted, with no confirmations.
    pub fn submit_transaction(
        &mut self,
        caller: Address,
        to: Address,
        value: u128,
        data: Vec<u8>,
    ) -> (r: Result<usize, MultiSigError>)
        requires
            old(self).wf(),
        ensures
            final(self).wf(),
            !old(self).spec_is_owner(caller) ==> r == Err::<usize, MultiSigError>(
                MultiSigError::NotOwner,
            ) && final(self)@ == old(self)@,
            old(self).spec_is_owner(caller) ==> r == Ok::<usize, MultiSigError>(
                old(self)@.txs.len() as usize,
            )
                && final(self)@.txs.len() == old(self)@.txs.len() + 1
                && final(self)@.txs[old(self)@.txs.len() as int].to == to
                && final(self)@.txs[old(self)@.txs.len() as int].value == value
                && final(self)@.txs[old(self)@.txs.len() as int].data == data@
                && final(self)@.txs[old(self)@.txs.len() as int].executed == false
                && final(self)@.txs[old(self)@.txs.len() as int].confirmations
                == Seq::<Address>::empty()
                && (forall|j: int|
                    0 <= j < old(self)@.txs.len() ==> final(self)@.txs[j] == old(self)@.txs[j])
                && final(self)@.owners == old(self)@.owners
                && final(self)@.threshold == old(self)@.threshold,
    {
        if !contains_address(&self.owners, caller) {
            return Err(MultiSigError::NotOwner);
        }
        let index = self.transactions.len();
        let record = TxRecord {
            to,
            value,
            data,
            executed: false,
            confirmations: Vec::new(),
        };
        self.transactions.push(record);
        proof {
            assert forall|i: int| 0 <= i < self@.txs.len() implies wf_tx(
                self@.txs[i],
                self@.owners,
            ) by {
                if i < old(self)@.txs.len() {
                    assert(self@.txs[i] == old(self)@.txs[i]);
                    assert(wf_tx(old(self)@.txs[i], old(self)@.owners));
                } else {
                    assert(self@.txs[i].confirmations == Seq::<Address>::empty());
                }
            }
        }
        Ok(index)
    }

    /// Registers the caller's one-time confirmation of the record at
    /// `tx_index`.
    ///
    /// The guards are checked in order: the caller must be an installed
    /// owner (`NotOwner`), the index must address a record
    /// (`TxDoesNotExist`), the record must not be executed yet
    /// (`TxAlreadyExecuted`), and the caller must not have confirmed it
    /// before (`TxAlreadyConfirmed`). On any failure nothing is changed.
    /// On success the caller is appended to the record's confirmation set,
    /// so its confirmation count grows by exactly one and everything else
    /// is untouched: confirmations only ever advance a record toward quorum.
    pub fn confirm_transaction(&mut self, caller: Address, tx_index: usize) -> (r: Result<
        (),
        MultiSigError,
    >)
        requires
            old(self).wf(),
        ensures
            final(self).wf(),
            !old(self).spec_is_owner(caller) ==> r == Err::<(), MultiSigError>(
                MultiSigError::NotOwner,
            ) && final(self)@ == old(self)@,
            old(self).spec_is_owner(caller) && tx_index >= old(self)@.txs.len() ==> r
                == Err::<(), MultiSigError>(MultiSigError::TxDoesNotExist)
                && final(self)@ == old(self)@,
            old(self).spec_is_owner(caller) && tx_index < old(self)@.txs.len() && old(
                self,
            )@.txs[tx_index as int].executed ==> r == Err::<(), MultiSigError>(
                MultiSigError::TxAlreadyExecuted,
            ) && final(self)@ == old(self)@,
            old(self).spec_is_owner(caller) && tx_index < old(self)@.txs.len() && !old(
                self,
            )@.txs[tx_index as int].executed && old(self)@.txs[tx_index as int].confirmations.contains(
                caller,
            ) ==> r == Err::<(), MultiSigError>(MultiSigError::TxAlreadyConfirmed)
                && final(self)@ == old(self)@,
            old(self).spec_is_owner(caller) && tx_index < old(self)@.txs.len() && !old(
                self,
            )@.txs[tx_index as int].executed && !old(self)@.txs[tx_index as int].confirmations.contains(
                caller,
            ) ==> r == Ok::<(), MultiSigError>(())
                && final(self)@.txs.len() == old(self)@.txs.len()
                && final(self)@.txs[tx_index as int].confirmations
                == old(self)@.txs[tx_index as int].confirmations.push(caller)
                && final(self)@.txs[tx_index as int].to == old(self)@.txs[tx_index as int].to
                && final(self)@.txs[tx_index as int].value == old(self)@.txs[tx_index as int].value
                && final(self)@.txs[tx_index as int].data == old(self)@.txs[tx_index as int].data
                && final(self)@.txs[tx_index as int].executed == old(
                self,
            )@.txs[tx_index as int].executed
                && (forall|j: int|
                    0 <= j < old(self)@.txs.len() && j != tx_index ==> final(self)@.txs[j] == old(
                        self,
                    )@.txs[j])
                && final(self)@.owners == old(self)@.owners
                && final(self)@.threshold == old(self)@.threshold,
    {
        if !contains_address(&self.owners, caller) {
            return Err(MultiSigError::NotOwner);
        }
        if tx_index >= self.transactions.len() {
            return Err(MultiSigError::TxDoesNotExist);
        }
        if self.transactions[tx_index].executed {
            return Err(MultiSigError::TxAlreadyExecuted);
        }
        if contains_address(&self.transactions[tx_index].confirmations, caller) {
            return Err(MultiSigError::TxAlreadyConfirmed);
        }
        let record = &mut self.transactions[tx_index];
        record.confirmations.push(caller);
        proof {
            let i = tx_index as int;
            lemma_distinct_push(old(self)@.txs[i].confirmations, caller);
            assert forall|j: int| 0 <= j < self@.txs.len() implies wf_tx(
                self@.txs[j],
                self@.owners,
            ) by {
                if j == i {
                    assert forall|k: int|
                        0 <= k < self@.txs[i].confirmations.len() implies self@.owners.contains(
                        self@.txs[i].confirmations[k],
                    ) by {
                        if k < old(self)@.txs[i].confirmations.len() {
                            assert(wf_tx(old(self)@.txs[i], old(self)@.owners));
                        } else {
                            assert(self@.txs[i].confirmations[k] == caller);
                        }
                    }
                } else {
                    assert(self@.txs[j] == old(self)@.txs[j]);
                    assert(wf_tx(old(self)@.txs[j], old(self)@.owners));
                }
            }
        }
        Ok(())
    }

    /// Commits the execution of the record at `tx_index` and hands back the
    /// effect it asks for.
    ///
    /// The guards are checked in order: the caller must be an installed
    /// owner (`NotOwner`), the index must address a record
    /// (`TxDoesNotExist`), the record must not be executed yet
    /// (`TxAlreadyExecuted`), and the record must have at least as many
    /// confirmations as the threshold (`NotEnoughConfirmations`). On any
    /// failure nothing is changed.
    ///
    /// On success the record is marked executed and its target, amount and
    /// payload are handed back as an [`EffectRequest`] for the host to
    /// perform; everything else is untouched. The flag is committed before
    /// the effect is performed, so even a re-entrant call triggered by the
    /// effect itself already sees the record as executed. The host reports
    /// the effect's outcome to [`execution_result`]; the flag stays set
    /// whatever that outcome, so a failed effect cannot be retried.
    pub fn execute_transaction(&mut self, caller: Address, tx_index: usize) -> (r: Result<
        EffectRequest,
        MultiSigError,
    >)
        requires
            old(self).wf(),
        ensures
            final(self).wf(),
            !old(self).spec_is_owner(caller) ==> r == Err::<EffectRequest, MultiSigError>(
                MultiSigError::NotOwner,
            ) && final(self)@ == old(self)@,
            old(self).spec_is_owner(caller) && tx_index >= old(self)@.txs.len() ==> r
                == Err::<EffectRequest, MultiSigError>(MultiSigError::TxDoesNotExist)
                && final(self)@ == old(self)@,
            old(self).spec_is_owner(caller) && tx_index < old(self)@.txs.len() && old(
                self,
            )@.txs[tx_index as int].executed ==> r == Err::<EffectRequest, MultiSigError>(
                MultiSigError::TxAlreadyExecuted,
            ) && final(self)@ == old(self)@,
            old(self).spec_is_owner(caller) && tx_index < old(self)@.txs.len() && !old(
                self,
            )@.txs[tx_index as int].executed && old(
                self,
            )@.txs[tx_index as int].confirmations.len() < old(self)@.threshold ==> r
                == Err::<EffectRequest, MultiSigError>(MultiSigError::NotEnoughConfirmations)
                && final(self)@ == old(self)@,
            old(self).spec_is_owner(caller) && tx_index < old(self)@.txs.len() && !old(
                self,
            )@.txs[tx_index as int].executed && old(
                self,
            )@.txs[tx_index as int].confirmations.len() >= old(self)@.threshold ==> (
            r matches Ok(req) && req.to == old(self)@.txs[tx_index as int].to && req.value == old(
                self,
            )@.txs[tx_index as int].value && req.data@ == old(self)@.txs[tx_index as int].data)
                && final(self)@.txs.len() == old(self)@.txs.len()
                && final(self)@.txs[tx_index as int].executed == true
                && final(self)@.txs[tx_index as int].to == old(self)@.txs[tx_index as int].to
                && final(self)@.txs[tx_index as int].value == old(self)@.txs[tx_index as int].value
                && final(self)@.txs[tx_index as int].data == old(self)@.txs[tx_index as int].data
                && final(self)@.txs[tx_index as int].confirmations == old(
                self,
            )@.txs[tx_index as int].confirmations
                && (forall|j: int|
                    0 <= j < old(self)@.txs.len() && j != tx_index ==> final(self)@.txs[j] == old(
                        self,
                    )@.txs[j])
                && final(self)@.owners == old(self)@.owners
                && final(self)@.threshold == old(self)@.threshold,
    {
        if !contains_address(&self.owners, caller) {
            return Err(MultiSigError::NotOwner);
        }
        if tx_index >= self.transactions.len() {
            return Err(MultiSigError::TxDoesNotExist);
        }
        if self.transactions[tx_index].executed {
            return Err(MultiSigError::TxAlreadyExecuted);
        }
        if self.transactions[tx_index].confirmations.len() < self.threshold {
            return Err(MultiSigError::NotEnoughConfirmations);
        }
        let record = &mut self.transactions[tx_index];
        record.executed = true;
        let to = record.to;
        let value = record.value;
        let data = copy_bytes(&record.data);
        proof {
            assert forall|j: int| 0 <= j < self@.txs.len() implies wf_tx(
                self@.txs[j],
                self@.owners,
            ) by {
                assert(self@.txs[j].confirmations == old(self)@.txs[j].confirmations);
                assert(wf_tx(old(self)@.txs[j], old(self)@.owners));
            }
        }
        Ok(EffectRequest { to, value, data })
    }

    /// Pure membership lookup against the owner registry: true exactly of
    /// the installed owners. Never fails and never changes state.
    pub fn is_owner(&self, check_address: Address) -> (r: bool)
        ensures
            r == self.spec_is_owner(check_address),
    {
        contains_address(&self.owners, check_address)
    }

    /// How many owners are installed; zero before initialization.
    pub fn owner_count(&self) -> (n: usize)
        ensures
            n == self@.owners.len(),
    {
        self.owners.len()
    }

    /// The owner at position `i` of the installation order, if any.
    pub fn owner_at(&self, i: usize) -> (r: Option<Address>)
        ensures
            i < self@.owners.len() ==> r == Some(self@.owners[i as int]),
            i >= self@.owners.len() ==> r == None::<Address>,
    {
        if i < self.owners.len() {
            Some(self.owners[i])
        } else {
            None
        }
    }

    /// The installed confirmation threshold; zero before initialization.
    pub fn required_confirmations(&self) -> (t: usize)
        ensures
            t == self@.threshold,
    {
        self.threshold
    }

    /// How many records the transaction log holds.
    pub fn transaction_count(&self) -> (n: usize)
        ensures
            n == self@.txs.len(),
    {
        self.transactions.len()
    }

    /// How many confirmations the record at `tx_index` has, if it exists.
    pub fn num_confirmations(&self, tx_index: usize) -> (r: Option<usize>)
        ensures
            tx_index < self@.txs.len() ==> r == Some(
                self@.txs[tx_index as int].confirmations.len() as usize,
            ),
            tx_index >= self@.txs.len() ==> r == None::<usize>,
    {
        if tx_index < self.transactions.len() {
            Some(self.transactions[tx_index].confirmations.len())
        } else {
            None
        }
    }

    /// Whether the record at `tx_index` is marked executed, if it exists.
    pub fn is_executed(&self, tx_index: usize) -> (r: Option<bool>)
        ensures
            tx_index < self@.txs.len() ==> r == Some(self@.txs[tx_index as int].executed),
            tx_index >= self@.txs.len() ==> r == None::<bool>,
    {
        if tx_index < self.transactions.len() {
            Some(self.transactions[tx_index].executed)
        } else {
            None
        }
    }

    /// Whether `owner` has confirmed the record at `tx_index`, if it exists.
    pub fn has_confirmed(&self, tx_index: usize, owner: Address) -> (r: Option<bool>)
        ensures
            tx_index < self@.txs.len() ==> r == Some(
                self@.txs[tx_index as int].confirmations.contains(owner),
            ),
            tx_index >= self@.txs.len() ==> r == None::<bool>,
    {
        if tx_index < self.transactions.len() {
            Some(contains_address(&self.transactions[tx_index].confirmations, owner))
        } else {
            None
        }
    }
}

/// A wallet that has accepted an owner set is initialized from then on, so
/// by the contract of `initialize` every later `initialize` call fails with
/// `AlreadyInitialized` and changes nothing, whatever its arguments.
pub proof fn lemma_initialize_guard(post: MultiSig, owners: Seq<Address>, threshold: nat)
    requires
        post@.owners == owners,
        valid_owner_set(owners, threshold),
    ensures
        post.initialized(),
{
}

/// After a successful initialization, membership is exactly the supplied
/// set: by the contracts of `initialize` and `is_owner`, the wallet answers
/// `true` for an identity if and only if it was among the installed owners.
pub proof fn lemma_membership_after_initialize(post: MultiSig, owners: Seq<Address>, a: Address)
    requires
        post@.owners == owners,
    ensures
        post.spec_is_owner(a) == owners.contains(a),
{
}

/// A successful confirmation registers the caller in the record's
/// confirmation set, so by the contract of `confirm_transaction` a second
/// confirmation of the same record by the same owner fails with
/// `TxAlreadyConfirmed` and changes nothing: each owner confirms a given
/// record at most once.
pub proof fn lemma_confirm_registers(before: Seq<Address>, caller: Address)
    ensures
        before.push(caller).contains(caller),
{
    assert(before.push(caller)[before.len() as int] == caller);
}

/// Whether `a` occurs in `v`.
fn contains_address(v: &Vec<Address>, a: Address) -> (r: bool)
    ensures
        r == v@.contains(a),
{
    let mut i: usize = 0;
    while i < v.len()
        invariant
            i <= v@.len(),
            forall|k: int| 0 <= k < i ==> v@[k] != a,
        decreases v@.len() - i,
    {
        if v[i] == a {
            return true;
        }
        i += 1;
    }
    false
}

/// A fresh copy of a byte vector, equal to its source.
fn copy_bytes(src: &Vec<u8>) -> (out: Vec<u8>)
    ensures
        out@ == src@,
{
    let mut out: Vec<u8> = Vec::new();
    let mut i: usize = 0;
    while i < src.len()
        invariant
            i <= src@.len(),
            out@ == src@.subrange(0, i as int),
        decreases src@.len() - i,
    {
        out.push(src[i]);
        proof {
            assert(out@ =~= src@.subrange(0, i + 1));
        }
        i += 1;
    }
    proof {
        assert(out@ =~= src@);
    }
    out
}

/// Appending an identity that a distinct sequence does not yet hold keeps
/// the sequence distinct.
proof fn lemma_distinct_push(s: Seq<Address>, a: Address)
    requires
        all_distinct(s),
        !s.contains(a),
    ensures
        all_distinct(s.push(a)),
{
    assert forall|p: int, q: int| #![trigger s.push(a)[p], s.push(a)[q]]
        0 <= p < q < s.push(a).len() implies s.push(a)[p] != s.push(a)[q] by {
        if q == s.len() {
            assert(s.push(a)[p] == s[p]);
            assert(s.push(a)[q] == a);
            if s[p] == a {
                assert(s.contains(a));
            }
        } else {
            assert(s.push(a)[p] == s[p]);
            assert(s.push(a)[q] == s[q]);
        }
    }
}

/// Decides the overall result of an execution attempt from the effect
/// invoker's report: a failed outward effect surfaces as `ExecuteFailed`,
/// while the record stays marked executed either way.
pub fn execution_result(effect_ok: bool) -> (r: Result<(), MultiSigError>)
    ensures
        effect_ok ==> r == Ok::<(), MultiSigError>(()),
        !effect_ok ==> r == Err::<(), MultiSigError>(MultiSigError::ExecuteFailed),
{
    if effect_ok {
        Ok(())
    } else {
        Err(MultiSigError::ExecuteFailed)
    }
}

} // verus!
