//! A lazily built resource that can be invalidated and is rebuilt on next use.

use std::sync::Arc;
use vstd::prelude::*;

verus! {

/// What a caller of [`Resettable::get`] is told.
#[derive(Clone, Copy, Debug, PartialEq, Eq, Structural)]
pub enum Fetch {
    /// An instance is live: share it.
    Existing,
    /// No instance was live: the factory runs once, and its product is the live
    /// instance from now on.
    Built,
}

/// The state of one resettable resource. Instances are numbered in the order in
/// which the factory made them, from 1; the numbers exist for the proofs only.
#[derive(Clone, Copy)]
pub struct Resettable {
    /// Whether an instance is handed to new callers.
    pub live: bool,
    /// How many times the factory has run, which is also the number of the
    /// newest instance.
    pub built: Ghost<nat>,
}

impl Resettable {
    /// A resource that has never been built.
    pub open spec fn fresh() -> Resettable {
        Resettable { live: false, built: Ghost(0) }
    }

    /// The number of the newest instance; it is the live one while one is live.
    pub open spec fn newest(self) -> nat {
        self.built@
    }

    /// The state after `get`.
    pub open spec fn after_get(self) -> Resettable {
        if self.live {
            self
        } else {
            Resettable { live: true, built: Ghost(self.built@ + 1) }
        }
    }

    /// What `get` answers.
    pub open spec fn fetched(self) -> Fetch {
        if self.live {
            Fetch::Existing
        } else {
            Fetch::Built
        }
    }

    /// The state after `reset`.
    pub open spec fn after_reset(self) -> Resettable {
        Resettable { live: false, built: self.built }
    }

    /// A resource that has never been built.
    pub fn new() -> (r: Resettable)
        ensures
            r == Resettable::fresh(),
    {
        Resettable { live: false, built: Ghost(0) }
    }

    /// Shares the live instance, or has the factory build one if none is live.
    pub fn get(&mut self) -> (f: Fetch)
        ensures
            *final(self) == old(self).after_get(),
            f == old(self).fetched(),
            final(self).live,
    {
        if self.live {
            Fetch::Existing
        } else {
            self.live = true;
            self.built = Ghost(self.built@ + 1);
            Fetch::Built
        }
    }

    /// Discards the live instance without running the factory. Holders of the
    /// old instance keep it; it is no longer handed out.
    pub fn reset(&mut self)
        ensures
            *final(self) == old(self).after_reset(),
    {
        self.live = false;
    }

    /// Whether an instance is live.
    pub fn is_live(&self) -> (b: bool)
        ensures
            b == self.live,
    {
        self.live
    }
}

/// `Arc::clone`: the new handle points to the same value as `handle`; the value
/// is neither copied nor changed.
#[verifier::external_body]
pub(crate) fn share<T>(handle: &Arc<T>) -> (shared: Arc<T>)
    ensures
        shared == *handle,
{
    Arc::clone(handle)
}

/// A resettable resource together with the instance that is live, shared by
/// everyone who got it.
pub struct Holder<T> {
    pub state: Resettable,
    pub instance: Option<Arc<T>>,
}

impl<T> Holder<T> {
    /// An instance is held exactly when one is live.
    pub open spec fn wf(self) -> bool {
        self.state.live <==> self.instance is Some
    }

    /// The holder after `reset`.
    pub open spec fn after_reset(self) -> Holder<T> {
        Holder { state: self.state.after_reset(), instance: None }
    }

    /// A holder whose resource has never been built.
    pub fn new() -> (h: Holder<T>)
        ensures
            h.wf(),
            h.instance is None,
            h.state == Resettable::fresh(),
    {
        Holder { state: Resettable::new(), instance: None }
    }

    /// Whether an instance is held exactly when one is live.
    pub fn is_valid(&self) -> (b: bool)
        ensures
            b == self.wf(),
    {
        self.state.live == self.instance.is_some()
    }

    /// The live instance, if there is one. Nothing is built.
    pub fn current(&self) -> (live: Option<Arc<T>>)
        ensures
            live == self.instance,
    {
        match &self.instance {
            Some(instance) => Some(share(instance)),
            None => None,
        }
    }

    /// Makes `value`, which the caller built, the live instance of a holder
    /// that has none.
    pub fn install(&mut self, value: T) -> (live: Arc<T>)
        requires
            old(self).wf(),
            old(self).instance is None,
        ensures
            final(self).wf(),
            *live == value,
            final(self).instance == Some(live),
            final(self).state == old(self).state.after_get(),
    {
        let live = Arc::new(value);
        self.state.get();
        self.instance = Some(share(&live));
        live
    }

    /// Takes what an attempt to build the resource produced. A product becomes
    /// the live instance; after a failed attempt the holder is as it was, so
    /// that the next caller tries again.
    pub fn accept(&mut self, attempt: Option<T>) -> (live: Option<Arc<T>>)
        requires
            old(self).wf(),
            old(self).instance is None,
        ensures
            final(self).wf(),
            match attempt {
                Some(value) => {
                    &&& live matches Some(instance) && *instance == value
                    &&& final(self).instance == live
                    &&& final(self).state == old(self).state.after_get()
                },
                None => live is None && *final(self) == *old(self),
            },
    {
        match attempt {
            Some(value) => Some(self.install(value)),
            None => None,
        }
    }

    /// Hands out the live instance, or runs `make` to build one if none is
    /// live. `make` runs at most once, and not at all while an instance is live.
    pub fn get<F: FnOnce() -> T>(&mut self, make: F) -> (live: Arc<T>)
        requires
            old(self).wf(),
            old(self).instance is None ==> make.requires(()),
        ensures
            final(self).wf(),
            final(self).state == old(self).state.after_get(),
            final(self).instance == Some(live),
            old(self).instance matches Some(before) ==> live == before,
            old(self).instance is None ==> make.ensures((), *live),
    {
        match self.current() {
            Some(live) => live,
            None => self.install(make()),
        }
    }

    /// Discards the live instance without building another, and hands the
    /// holder's handle to it back. Those who hold the old instance keep it.
    /// Nothing is dropped here: where the handle that comes back is the last
    /// one, the instance ends when the caller lets go of it, at a place of the
    /// caller's choosing.
    pub fn reset(&mut self) -> (discarded: Option<Arc<T>>)
        ensures
            *final(self) == old(self).after_reset(),
            discarded == old(self).instance,
            final(self).wf(),
    {
        self.state.reset();
        let mut discarded: Option<Arc<T>> = None;
        std::mem::swap(&mut self.instance, &mut discarded);
        discarded
    }

    /// Whether an instance is live.
    pub fn is_live(&self) -> (b: bool)
        ensures
            b == self.instance.is_some(),
    {
        self.instance.is_some()
    }
}

/// A `get` that follows a `reset` always runs the factory, and the instance it
/// makes live is newer than every instance that existed before the reset: it
/// is none of those that callers may still hold.
pub proof fn lemma_get_after_reset_is_fresh(r: Resettable)
    ensures
        r.after_reset().fetched() == Fetch::Built,
        r.after_reset().after_get().live,
        r.after_reset().after_get().newest() == r.newest() + 1,
        r.after_reset().after_get().newest() > r.newest(),
{
}

/// A holder that was reset holds no instance, whatever it held before, so its
/// next `get` runs the factory, and what the factory builds is numbered after
/// every instance that existed before.
pub proof fn lemma_holder_rebuilds_after_reset<T>(h: Holder<T>)
    ensures
        h.after_reset().wf(),
        h.after_reset().instance is None,
        h.after_reset().state.fetched() == Fetch::Built,
        h.after_reset().state.after_get().newest() > h.state.newest(),
        h.after_reset().after_reset() == h.after_reset(),
{
}

/// Resetting twice is the same as resetting once.
pub proof fn lemma_reset_idempotent(r: Resettable)
    ensures
        r.after_reset().after_reset() == r.after_reset(),
{
}

/// Between two resets the factory runs at most once: a second `get` shares what
/// the first one found or built.
pub proof fn lemma_get_builds_once(r: Resettable)
    ensures
        r.after_get().live,
        r.after_get().fetched() == Fetch::Existing,
        r.after_get().after_get() == r.after_get(),
{
}

} // verus!
