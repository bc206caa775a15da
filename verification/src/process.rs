//! The child processes the tools started and that have not ended yet.
use vstd::prelude::*;
use std::collections::HashSet;
use vstd::std_specs::iter::IteratorSpec;

verus! {

broadcast use vstd::std_specs::hash::group_hash_axioms;

/// The process ids of the running child processes.
pub struct ProcessTracker {
    pids: HashSet<u32>,
}

impl View for ProcessTracker {
    type V = Set<u32>;

    closed spec fn view(&self) -> Set<u32> {
        self.pids@
    }
}

impl Default for ProcessTracker {
    /// A tracker with no processes, as `new` gives.
    fn default() -> (t: Self)
        ensures
            t@ == Set::<u32>::empty(),
    {
        ProcessTracker::new()
    }
}

impl ProcessTracker {
    /// A tracker with no processes.
    pub fn new() -> (t: Self)
        ensures
            t@ == Set::<u32>::empty(),
    {
        ProcessTracker { pids: HashSet::new() }
    }

    /// Starts tracking `pid`.
    pub fn add_pid(&mut self, pid: u32)
        ensures
            final(self)@ == old(self)@.insert(pid),
    {
        self.pids.insert(pid);
    }

    /// Stops tracking `pid` (its process ended).
    pub fn remove_pid(&mut self, pid: u32)
        ensures
            final(self)@ == old(self)@.remove(pid),
    {
        self.pids.remove(&pid);
    }

    /// Whether no process is tracked.
    pub fn is_empty(&self) -> (r: bool)
        ensures
            r == (self@ == Set::<u32>::empty()),
    {
        let r = self.pids.is_empty();
        proof {
            if !r {
                assert(self@ != Set::<u32>::empty());
            }
        }
        r
    }

    /// The tracked process ids, each once.
    pub fn pids(&self) -> (r: Vec<u32>)
        ensures
            r@.to_set() == self@,
            r@.no_duplicates(),
    {
        let mut out: Vec<u32> = Vec::new();
        let ghost keys = vstd::std_specs::hash::spec_hash_keys_iter(&self.pids).remaining().unref();
        for p in it: self.pids.iter()
            invariant
                it.seq().unref() == keys,
                out@ == keys.take(it.index() as int),
        {
            out.push(*p);
        }
        assert(out@ =~= keys);
        out
    }
}

/// Adding a process that was not tracked and then removing it leaves the
/// tracker as it was.
pub proof fn lemma_remove_undoes_add(before: Set<u32>, pid: u32)
    requires
        !before.contains(pid),
    ensures
        before.insert(pid).remove(pid) == before,
{
    assert(before.insert(pid).remove(pid) =~= before);
}

/// Adding a process twice tracks it once.
pub proof fn lemma_add_is_idempotent(before: Set<u32>, pid: u32)
    ensures
        before.insert(pid).insert(pid) == before.insert(pid),
{
    assert(before.insert(pid).insert(pid) =~= before.insert(pid));
}

} // verus!
