//! The queue of host object handles that computations no longer need.

use vstd::prelude::*;

verus! {

/// Handles that wait to be given back to the host, oldest first.
#[derive(Clone, Debug)]
pub struct HandleQueue {
    pub pending: Vec<u64>,
}

impl HandleQueue {
    /// A queue with nothing in it.
    pub fn new() -> (q: HandleQueue)
        ensures
            q.pending@ == Seq::<u64>::empty(),
    {
        HandleQueue { pending: Vec::new() }
    }

    /// Adds a handle that is no longer needed.
    pub fn enqueue(&mut self, handle: u64)
        ensures
            final(self).pending@ == old(self).pending@.push(handle),
    {
        self.pending.push(handle);
    }

    /// Takes every pending handle out of the queue, in the order in which they
    /// came, or nothing if none is pending.
    pub fn maybe_drain(&mut self) -> (drained: Option<Vec<u64>>)
        ensures
            final(self).pending@ == Seq::<u64>::empty(),
            match drained {
                Some(handles) => handles@.len() > 0 && handles@ == old(self).pending@,
                None => old(self).pending@.len() == 0,
            },
    {
        if self.pending.len() == 0 {
            None
        } else {
            let mut handles: Vec<u64> = Vec::new();
            std::mem::swap(&mut self.pending, &mut handles);
            Some(handles)
        }
    }
}

} // verus!
