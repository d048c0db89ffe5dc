use vstd::prelude::*;
use crate::scalar::Scalar;

verus! {

/// The immutable result of one reduction of the fleet's raw load reports:
/// an aggregate load signal, its dispersion, and how many fleet members
/// contributed. A snapshot is fully formed or does not exist; there is no
/// partially written snapshot.
#[derive(Clone, Copy, Debug, PartialEq, Eq, Structural)]
pub struct LoadSnapshot {
    /// Aggregate load across the fleet (opaque scalar, zero and up).
    pub load_avg: Scalar,
    /// Dispersion statistic; informational only.
    pub load_std: Scalar,
    /// Number of fleet members contributing to this reduction.
    pub endpoint_count: usize,
}

impl LoadSnapshot {
    /// The snapshot served before any refresh has succeeded: absence of
    /// data reads as "no load", never as an error.
    pub open spec fn spec_default() -> LoadSnapshot {
        LoadSnapshot { load_avg: Scalar { bits: 0 }, load_std: Scalar { bits: 0 }, endpoint_count: 0 }
    }
}

impl Default for LoadSnapshot {
    fn default() -> (r: LoadSnapshot)
        ensures
            r == LoadSnapshot::spec_default(),
    {
        LoadSnapshot { load_avg: Scalar { bits: 0 }, load_std: Scalar { bits: 0 }, endpoint_count: 0 }
    }
}

/// A single-slot cache holding the latest [`LoadSnapshot`], or none before
/// the first successful refresh.
///
/// The refresh loop is the single writer (`publish`); query handlers are the
/// readers (`read`). A reader observes the slot only through whole-snapshot
/// replacement — swap-the-value semantics — so no read mixes fields of two
/// publishes. The process shares one store between the loop and the handlers
/// under a mutual exclusion scoped to the swap alone; that brief critical
/// section is the only wait either side can incur.
///
/// The ghost `history` records every snapshot ever published, so contracts
/// can say that what a reader observes was published, and which publish it
/// was.
pub struct SnapshotStore {
    slot: Option<LoadSnapshot>,
    history: Ghost<Seq<LoadSnapshot>>,
}

impl SnapshotStore {
    /// What a reader observes right now.
    pub closed spec fn current(&self) -> Option<LoadSnapshot> {
        self.slot
    }

    /// Every snapshot published so far, in publish order.
    pub closed spec fn history(&self) -> Seq<LoadSnapshot> {
        self.history@
    }

    /// The slot holds nothing before the first publish, and afterwards
    /// exactly the most recent publish.
    pub open spec fn wf(&self) -> bool {
        &&& self.history().len() == 0 ==> self.current() is None
        &&& self.history().len() > 0 ==> self.current() == Some(self.history().last())
    }

    /// An empty store: created at process start, before any refresh.
    pub fn new() -> (s: SnapshotStore)
        ensures
            s.wf(),
            s.history() == Seq::<LoadSnapshot>::empty(),
            s.current() is None,
    {
        SnapshotStore { slot: None, history: Ghost(Seq::empty()) }
    }

    /// Atomically replaces the stored snapshot. Subsequent reads observe
    /// the new value whole. Never fails.
    pub fn publish(&mut self, snapshot: LoadSnapshot)
        requires
            old(self).wf(),
        ensures
            final(self).wf(),
            final(self).history() == old(self).history().push(snapshot),
            final(self).current() == Some(snapshot),
    {
        self.slot = Some(snapshot);
        self.history = Ghost(self.history@.push(snapshot));
    }

    /// Returns the current snapshot, or `None` if no refresh has ever
    /// succeeded. Never fails and never waits beyond the store's brief
    /// critical section.
    pub fn read(&self) -> (r: Option<LoadSnapshot>)
        ensures
            r == self.current(),
    {
        self.slot
    }
}

/// Whatever sequence of publishes has completed, a read observes either no
/// snapshot — only when nothing was ever published — or one previously
/// published snapshot, whole: the most recent publish, never a mixture of
/// fields from two publishes.
pub proof fn lemma_read_observes_published(s: &SnapshotStore)
    requires
        s.wf(),
    ensures
        s.history().len() == 0 ==> s.current() is None,
        s.history().len() > 0 ==> s.current() == Some(s.history().last()),
        s.current() matches Some(snap) ==> s.history().contains(snap),
{
    if s.history().len() > 0 {
        assert(s.history()[s.history().len() - 1] == s.history().last());
    }
}

} // verus!
