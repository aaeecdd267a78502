//! The handle through which one computation reaches the shared registry.

use std::sync::Arc;
use vstd::prelude::*;
use crate::graph::{EntryId, Graph, Lookup};
use crate::handles::HandleQueue;
use crate::resettable::share;

verus! {

/// What a request through a context comes to.
#[derive(Debug)]
pub struct Fetched {
    /// The handles that were pending when the request was made, oldest first.
    /// They have left the queue; giving them back to the host is the caller's
    /// part.
    pub released: Vec<u64>,
    /// The graph's answer.
    pub lookup: Lookup,
}

/// The context of one node's evaluation: the node's slot, and the registry that
/// all contexts share. `R` is the registry as the embedding program shares it:
/// a `Core`, or a `Core` behind the lock that guards its changes.
#[derive(Debug)]
pub struct Context<R> {
    pub entry_id: EntryId,
    pub core: Arc<R>,
}

impl<R> Context<R> {
    /// The context of the slot `entry_id` on the registry `core`.
    pub fn new(entry_id: EntryId, core: Arc<R>) -> (c: Context<R>)
        ensures
            c.entry_id == entry_id,
            c.core == core,
    {
        Context { entry_id, core }
    }

    /// Takes every pending handle out of `handles`, then asks `graph` for `node`
    /// on behalf of this context's slot, so that the graph records the edge
    /// from that slot to `node`. The handles taken out come back together with
    /// the graph's answer. `graph` and `handles` are those of this context's
    /// registry, which the caller has locked.
    pub fn get(&self, graph: &mut Graph, handles: &mut HandleQueue, node: EntryId) -> (f: Fetched)
        ensures
            f.released@ == old(handles).pending@,
            final(handles).pending@ == Seq::<u64>::empty(),
            f.lookup == old(graph)@.lookup(node),
            final(graph)@ == old(graph)@.get(self.entry_id, node),
    {
        let released = match handles.maybe_drain() {
            Some(drained) => drained,
            None => Vec::new(),
        };
        let lookup = graph.get(self.entry_id, node);
        Fetched { released, lookup }
    }
}

impl<R> Clone for Context<R> {
    /// Another context of the same slot on the same registry.
    fn clone(&self) -> (c: Context<R>)
        ensures
            c == *self,
    {
        Context { entry_id: self.entry_id, core: share(&self.core) }
    }
}

/// The capability to make the context of another slot.
pub trait ContextFactory<R> {
    /// The registry that every context made here shares.
    spec fn registry(&self) -> R;

    /// A context for the slot `entry_id` on the same registry.
    fn create(&self, entry_id: EntryId) -> (c: Context<R>)
        ensures
            c.entry_id == entry_id,
            *c.core == self.registry(),
    ;
}

impl<R> ContextFactory<R> for Context<R> {
    open spec fn registry(&self) -> R {
        *self.core
    }

    /// A context for the slot `entry_id` that shares this context's registry:
    /// only the handle to the registry is duplicated.
    fn create(&self, entry_id: EntryId) -> (c: Context<R>) {
        Context { entry_id, core: share(&self.core) }
    }
}

/// Contexts made one from another all share the registry of the first,
/// whatever their slots.
pub proof fn lemma_created_contexts_share_registry<R>(
    first: Context<R>,
    second: Context<R>,
    third: Context<R>,
)
    requires
        *second.core == first.registry(),
        *third.core == second.registry(),
    ensures
        third.registry() == first.registry(),
        third.core == first.core,
{
}

} // verus!
