use vstd::prelude::*;

use crate::entry::{
    entry_models, request_models, EntryModel, NotificationRequest, PendingEntry, RequestModel,
};
use crate::store::PendingStore;

verus! {

/// The entries a batch of requests becomes when intake stamps it:
/// the requests in input order, with consecutive identifiers from `base`.
pub open spec fn stamped(batch: Seq<RequestModel>, base: int) -> Seq<EntryModel> {
    batch.map(|i: int, r: RequestModel| EntryModel { request: r, id: (base + i) as u128 })
}

/// The delayed-dispatch scheduling engine: the pending store together with
/// the identifier source, and — as ghost state — the history of every entry
/// that ever passed through it. One scheduler is constructed per process;
/// intake and the drain cycle share it, each call made whole under one lock
/// held by the surrounding runtime.
pub struct Scheduler {
    store: PendingStore,
    next_id: u128,
    submitted: Ghost<Seq<EntryModel>>,
    drained: Ghost<Seq<EntryModel>>,
}

impl Scheduler {
    /// The entries still waiting for the next drain tick, in arrival order.
    pub closed spec fn pending(&self) -> Seq<EntryModel> {
        self.store.entries()
    }

    /// Every entry ever accepted by intake, in acceptance order.
    pub closed spec fn submitted(&self) -> Seq<EntryModel> {
        self.submitted@
    }

    /// Every entry ever removed by a drain tick, in removal order.
    pub closed spec fn drained(&self) -> Seq<EntryModel> {
        self.drained@
    }

    /// How many identifiers have been issued so far.
    pub closed spec fn issued(&self) -> u128 {
        self.next_id
    }

    /// Well-formedness, established by `new` and preserved by every method:
    /// the submission history splits into the drained prefix and the pending
    /// suffix, and identifiers were issued consecutively from zero — which
    /// is what makes them unique for the lifetime of the scheduler.
    pub closed spec fn wf(&self) -> bool {
        &&& self.submitted@ == self.drained@ + self.store.entries()
        &&& self.next_id as int == self.submitted@.len() as int
        &&& forall|i: int|
            0 <= i < self.submitted@.len() ==> (#[trigger] self.submitted@[i]).id == i as u128
    }

    /// A fresh scheduler: nothing pending, nothing submitted, nothing drained.
    pub fn new() -> (s: Self)
        ensures
            s.wf(),
            s.pending() == Seq::<EntryModel>::empty(),
            s.submitted() == Seq::<EntryModel>::empty(),
            s.drained() == Seq::<EntryModel>::empty(),
            s.issued() == 0,
    {
        let s = Scheduler {
            store: PendingStore::new(),
            next_id: 0,
            submitted: Ghost(Seq::empty()),
            drained: Ghost(Seq::empty()),
        };
        proof {
            assert(s.submitted@ =~= s.drained@ + s.store.entries());
        }
        s
    }

    /// Whether identifiers remain for `n` more entries. Exhaustion of the
    /// 128-bit identifier space is unreachable in any real process, but a
    /// caller checks it once so that `submit` never has to fail.
    pub fn can_accept(&self, n: usize) -> (b: bool)
        ensures
            b == (self.issued() + n <= u128::MAX),
    {
        n as u128 <= u128::MAX - self.next_id
    }

    /// How many entries are currently pending.
    pub fn pending_len(&self) -> (n: usize)
        ensures
            n == self.pending().len(),
    {
        self.store.len()
    }

    /// Intake. Stamp each request of the batch, in input order, with a fresh
    /// identifier never issued before, and append the whole batch to the
    /// pending store. Returns how many entries were scheduled: always the
    /// size of the batch — intake defines no error conditions and rejects
    /// nothing. No timer is started and no delivery happens here.
    #[verifier::loop_isolation(false)]
    pub fn submit(&mut self, batch: Vec<NotificationRequest>) -> (count: usize)
        requires
            old(self).wf(),
            old(self).issued() + batch@.len() <= u128::MAX,
        ensures
            final(self).wf(),
            count == batch@.len(),
            final(self).submitted() == old(self).submitted() + stamped(
                request_models(batch@),
                old(self).issued() as int,
            ),
            final(self).pending() == old(self).pending() + stamped(
                request_models(batch@),
                old(self).issued() as int,
            ),
            final(self).drained() == old(self).drained(),
            final(self).issued() == old(self).issued() + batch@.len(),
    {
        let ghost orig = batch@;
        let base = self.next_id;
        let ghost new_models = stamped(request_models(orig), base as int);
        let mut rest = batch;
        let count = rest.len();
        let mut entries: Vec<PendingEntry> = Vec::new();
        while rest.len() > 0
            invariant
                entries@.len() + rest@.len() == orig.len(),
                base + orig.len() <= u128::MAX,
                entry_models(entries@) =~= new_models.take(entries@.len() as int),
                rest@ =~= orig.skip(entries@.len() as int),
            decreases rest@.len(),
        {
            let ghost done = entries@.len() as int;
            let r = rest.remove(0);
            let id = base + entries.len() as u128;
            entries.push(PendingEntry { request: r, id });
            proof {
                assert(entry_models(entries@)[done] == entries@[done]@);
                assert(entry_models(entries@) =~= new_models.take(done + 1));
                assert(rest@ =~= orig.skip(done + 1));
            }
        }
        proof {
            assert(entry_models(entries@) =~= new_models);
        }
        self.store.append(entries);
        self.next_id = base + count as u128;
        proof {
            self.submitted = Ghost(self.submitted@ + new_models);
            assert forall|i: int| 0 <= i < self.submitted@.len() implies (
            #[trigger] self.submitted@[i]).id == i as u128 by {
                if i >= old(self).submitted@.len() {
                    assert(self.submitted@[i] == new_models[i - old(self).submitted@.len()]);
                }
            }
            assert(self.submitted@ =~= self.drained@ + self.store.entries());
        }
        count
    }

    /// One drain tick's take-and-clear. Removes and returns every entry
    /// pending at the call, each exactly once and none invented; afterwards
    /// the store holds nothing. The caller spawns one dispatch task per
    /// returned entry; the entries themselves are never stored again.
    pub fn drain(&mut self) -> (taken: Vec<PendingEntry>)
        requires
            old(self).wf(),
        ensures
            final(self).wf(),
            entry_models(taken@) == old(self).pending(),
            final(self).pending() == Seq::<EntryModel>::empty(),
            final(self).drained() == old(self).drained() + old(self).pending(),
            final(self).submitted() == old(self).submitted(),
            final(self).issued() == old(self).issued(),
    {
        let taken = self.store.take_and_clear();
        proof {
            self.drained = Ghost(self.drained@ + entry_models(taken@));
            assert(self.submitted@ =~= self.drained@ + self.store.entries());
        }
        taken
    }
}

/// No entry is ever lost or duplicated: at every reachable state, the
/// entries ever drained followed by the entries still pending are exactly
/// the entries ever submitted, each exactly once and in submission order.
/// Intake calls and drain ticks interleave atomically through the store's
/// lock, so every reachable state of the shared scheduler is a state some
/// sequence of `submit` and `drain` calls produces, and each of those
/// preserves `wf`.
pub proof fn lemma_no_entry_lost(s: &Scheduler)
    requires
        s.wf(),
    ensures
        s.drained() + s.pending() == s.submitted(),
{
}

/// Once nothing is pending, everything ever submitted has been handed to a
/// dispatch task: the drained history is the whole submission history.
pub proof fn lemma_all_drained(s: &Scheduler)
    requires
        s.wf(),
        s.pending() == Seq::<EntryModel>::empty(),
    ensures
        s.drained() == s.submitted(),
{
    assert(s.drained() =~= s.drained() + s.pending());
}

/// The identifier source never lags or runs ahead: the number of
/// identifiers issued is exactly the number of entries ever submitted.
pub proof fn lemma_issued_counts_submissions(s: &Scheduler)
    requires
        s.wf(),
    ensures
        s.issued() as int == s.submitted().len() as int,
{
}

/// Identifiers are unique for the lifetime of the scheduler: any two
/// distinct entries of the submission history carry distinct identifiers.
/// Identifiers are never reused or recycled.
pub proof fn lemma_identifiers_distinct(s: &Scheduler, i: int, j: int)
    requires
        s.wf(),
        0 <= i < s.submitted().len(),
        0 <= j < s.submitted().len(),
        i != j,
    ensures
        s.submitted()[i].id != s.submitted()[j].id,
{
}

} // verus!
