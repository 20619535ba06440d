//! The registry of spawned player processes, drained at shutdown.

use vstd::prelude::*;

verus! {

/// The handles of every player started and not yet terminated, in start order.
pub struct ProcessRegistry<H> {
    handles: Vec<H>,
}

/// What a drain of a registry holding `held` hands over, and what it leaves.
pub open spec fn drained<H>(held: Seq<H>) -> (Seq<H>, Seq<H>) {
    (held, Seq::empty())
}

impl<H> ProcessRegistry<H> {
    /// The handles held, in start order.
    pub closed spec fn view(&self) -> Seq<H> {
        self.handles@
    }

    /// An empty registry.
    pub fn new() -> (r: ProcessRegistry<H>)
        ensures
            r.view() == Seq::<H>::empty(),
    {
        ProcessRegistry { handles: Vec::new() }
    }

    /// Records a newly started process.
    pub fn register(&mut self, handle: H)
        ensures
            final(self).view() == old(self).view().push(handle),
    {
        self.handles.push(handle);
    }

    /// Number of processes held.
    pub fn len(&self) -> (r: usize)
        ensures
            r == self.view().len(),
    {
        self.handles.len()
    }

    /// Hands over every held process for termination and leaves the registry
    /// empty; on an empty registry this does nothing.
    pub fn drain(&mut self) -> (r: Vec<H>)
        ensures
            (r@, final(self).view()) == drained(old(self).view()),
    {
        let mut taken: Vec<H> = Vec::new();
        std::mem::swap(&mut taken, &mut self.handles);
        taken
    }
}

/// Draining twice in a row succeeds: the second drain hands nothing over and
/// the registry stays empty; draining an empty registry does the same.
pub proof fn lemma_drain_idempotent<H>(held: Seq<H>)
    ensures
        drained(drained(held).1) == (Seq::<H>::empty(), Seq::<H>::empty()),
        drained(Seq::<H>::empty()) == (Seq::<H>::empty(), Seq::<H>::empty()),
{
}

} // verus!
