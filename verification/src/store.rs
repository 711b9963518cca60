use vstd::prelude::*;

use crate::entry::{entry_models, EntryModel, PendingEntry};

verus! {

/// The pending store: the container of entries that have been accepted by
/// intake but not yet taken by a drain tick. Entries stand in insertion
/// order, but the order carries no meaning: a drain takes the whole
/// contents as one snapshot. Capacity is unbounded; an append is never
/// rejected, whatever the size, so a stalled drain grows memory without
/// limit — a documented resource risk of the design, not a bug.
pub struct PendingStore {
    entries: Vec<PendingEntry>,
}

impl PendingStore {
    /// The entries currently held, in insertion order.
    pub closed spec fn entries(&self) -> Seq<EntryModel> {
        entry_models(self.entries@)
    }

    /// A store that holds nothing.
    pub fn new() -> (s: Self)
        ensures
            s.entries() == Seq::<EntryModel>::empty(),
    {
        let s = PendingStore { entries: Vec::new() };
        proof {
            assert(s.entries() =~= Seq::<EntryModel>::empty());
        }
        s
    }

    /// How many entries are currently held.
    pub fn len(&self) -> (n: usize)
        ensures
            n == self.entries().len(),
    {
        self.entries.len()
    }

    /// Append a whole batch after the current contents. Nothing already
    /// held is changed or dropped, and the append never fails.
    pub fn append(&mut self, batch: Vec<PendingEntry>)
        ensures
            final(self).entries() == old(self).entries() + entry_models(batch@),
    {
        let ghost pre = self.entries@;
        let ghost added = batch@;
        let mut batch = batch;
        self.entries.append(&mut batch);
        proof {
            assert(entry_models(pre + added) =~= entry_models(pre) + entry_models(added));
        }
    }

    /// Take every entry currently held, leaving the store empty: exactly
    /// the entries appended since the previous take, each exactly once.
    pub fn take_and_clear(&mut self) -> (taken: Vec<PendingEntry>)
        ensures
            entry_models(taken@) == old(self).entries(),
            final(self).entries() == Seq::<EntryModel>::empty(),
    {
        let mut taken: Vec<PendingEntry> = Vec::new();
        core::mem::swap(&mut self.entries, &mut taken);
        proof {
            assert(self.entries() =~= Seq::<EntryModel>::empty());
        }
        taken
    }
}

} // verus!
