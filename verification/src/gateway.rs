//! Admission control in front of a process-execution backend.

use vstd::prelude::*;
use crate::resettable::Resettable;

verus! {

/// Where admitted requests are executed.
#[derive(Clone, Debug, PartialEq, Eq)]
pub enum Backend {
    /// In a sandbox on this host.
    Local,
    /// By an execution service at `address`, with `replicas` calls in flight at
    /// most per logical replica.
    Remote { address: String, replicas: usize },
}

/// A backend as contracts see it.
pub enum BackendModel {
    Local,
    Remote { address: Seq<char>, replicas: nat },
}

impl View for Backend {
    type V = BackendModel;

    open spec fn view(&self) -> BackendModel {
        match self {
            Backend::Local => BackendModel::Local,
            Backend::Remote { address, replicas } => BackendModel::Remote {
                address: address@,
                replicas: *replicas as nat,
            },
        }
    }
}

impl Backend {
    /// Whether requests leave this host.
    pub fn is_remote(&self) -> (b: bool)
        ensures
            b == (self@ is Remote),
    {
        match self {
            Backend::Local => false,
            Backend::Remote { .. } => true,
        }
    }
}

/// The answer to a submitted request.
#[derive(Clone, Copy, Debug, PartialEq, Eq, Structural)]
pub enum Admission {
    /// A slot was free: the request goes to the backend now.
    Dispatched,
    /// Every slot is taken: the request waits its turn.
    Queued,
}

/// What the end of an execution sets free.
#[derive(Clone, Copy, Debug, PartialEq, Eq, Structural)]
pub enum Release {
    /// Nothing was in flight, so nothing ended.
    Idle,
    /// A slot is free again and nobody waits for it.
    Freed,
    /// The slot went straight to this request, the one that had waited longest.
    Handed(u64),
}

/// One step on a gateway.
pub enum GatewayEvent {
    /// A request asks for a slot.
    Submit(u64),
    /// An execution ends.
    Finish,
}

/// The admission state of a gateway: its limit, the number of executions in
/// flight, and the requests that wait, oldest first.
pub struct GatewayModel {
    pub limit: nat,
    pub running: nat,
    pub waiting: Seq<u64>,
}

impl GatewayModel {
    /// Never more in flight than the limit, and nobody waits while a slot is free.
    pub open spec fn wf(self) -> bool {
        &&& self.running <= self.limit
        &&& (self.waiting.len() > 0 ==> self.running == self.limit)
    }

    /// A gateway with nothing in flight and nobody waiting.
    pub open spec fn idle(limit: nat) -> GatewayModel {
        GatewayModel { limit, running: 0, waiting: Seq::empty() }
    }

    /// The answer to the next submitted request.
    pub open spec fn admission(self) -> Admission {
        if self.running < self.limit {
            Admission::Dispatched
        } else {
            Admission::Queued
        }
    }

    /// The state after `request` was submitted.
    pub open spec fn submit(self, request: u64) -> GatewayModel {
        if self.running < self.limit {
            GatewayModel { running: self.running + 1, ..self }
        } else {
            GatewayModel { waiting: self.waiting.push(request), ..self }
        }
    }

    /// What the end of one execution sets free.
    pub open spec fn release(self) -> Release {
        if self.running == 0 {
            Release::Idle
        } else if self.waiting.len() == 0 {
            Release::Freed
        } else {
            Release::Handed(self.waiting[0])
        }
    }

    /// The state after one execution ended, in success or in failure.
    pub open spec fn finish(self) -> GatewayModel {
        if self.running == 0 {
            self
        } else if self.waiting.len() == 0 {
            GatewayModel { running: (self.running - 1) as nat, ..self }
        } else {
            GatewayModel { waiting: self.waiting.subrange(1, self.waiting.len() as int), ..self }
        }
    }

    /// The state after one event.
    pub open spec fn step(self, event: GatewayEvent) -> GatewayModel {
        match event {
            GatewayEvent::Submit(request) => self.submit(request),
            GatewayEvent::Finish => self.finish(),
        }
    }

    /// The state after the events of `events`, in order.
    pub open spec fn run(self, events: Seq<GatewayEvent>) -> GatewayModel
        decreases events.len(),
    {
        if events.len() == 0 {
            self
        } else {
            self.run(events.drop_last()).step(events.last())
        }
    }

    /// The state after `count` executions ended one after another.
    pub open spec fn finish_times(self, count: nat) -> GatewayModel
        decreases count,
    {
        if count == 0 {
            self
        } else {
            self.finish_times((count - 1) as nat).finish()
        }
    }

    /// The state after the requests of `requests` were submitted in order.
    pub open spec fn submit_all(self, requests: Seq<u64>) -> GatewayModel
        decreases requests.len(),
    {
        if requests.len() == 0 {
            self
        } else {
            self.submit_all(requests.drop_last()).submit(requests.last())
        }
    }
}

/// A concurrency-bounded gateway over one backend.
#[derive(Clone)]
pub struct BoundedCommandRunner {
    /// The backend behind the gateway.
    pub backend: Backend,
    /// The backend's pooled connections and handles.
    pub connections: Resettable,
    /// The number of admission slots.
    pub limit: usize,
    /// The number of executions in flight.
    pub running: usize,
    /// The requests that wait for a slot, oldest first.
    pub waiting: Vec<u64>,
}

impl View for BoundedCommandRunner {
    type V = GatewayModel;

    open spec fn view(&self) -> GatewayModel {
        GatewayModel {
            limit: self.limit as nat,
            running: self.running as nat,
            waiting: self.waiting@,
        }
    }
}

impl BoundedCommandRunner {
    /// Never more in flight than the limit, and nobody waits while a slot is
    /// free.
    pub open spec fn wf(&self) -> bool {
        self@.wf()
    }

    /// Whether the admission state is valid.
    pub fn is_valid(&self) -> (b: bool)
        ensures
            b == self.wf(),
    {
        self.running <= self.limit && (self.waiting.len() == 0 || self.running == self.limit)
    }

    /// A gateway of `limit` slots over `backend`, with nothing in flight.
    pub fn new(backend: Backend, limit: usize) -> (g: BoundedCommandRunner)
        ensures
            g.wf(),
            g@ == GatewayModel::idle(limit as nat),
            g.backend == backend,
            g.connections == Resettable::fresh(),
    {
        BoundedCommandRunner {
            backend,
            connections: Resettable::new(),
            limit,
            running: 0,
            waiting: Vec::new(),
        }
    }

    /// Asks for a slot for `request`. The request is dispatched if a slot is
    /// free, and else joins the end of the queue; it is never turned away.
    pub fn submit(&mut self, request: u64) -> (a: Admission)
        requires
            old(self).wf(),
        ensures
            final(self).wf(),
            final(self)@ == old(self)@.submit(request),
            a == old(self)@.admission(),
            final(self).backend == old(self).backend,
            final(self).connections == old(self).connections,
    {
        if self.running < self.limit {
            self.running = self.running + 1;
            Admission::Dispatched
        } else {
            self.waiting.push(request);
            Admission::Queued
        }
    }

    /// Records that one execution ended, whether it succeeded or failed. Its
    /// slot goes to the request that has waited longest, if any waits.
    pub fn finish(&mut self) -> (r: Release)
        requires
            old(self).wf(),
        ensures
            final(self).wf(),
            final(self)@ == old(self)@.finish(),
            r == old(self)@.release(),
            final(self).backend == old(self).backend,
            final(self).connections == old(self).connections,
    {
        if self.running == 0 {
            Release::Idle
        } else if self.waiting.len() == 0 {
            self.running = self.running - 1;
            Release::Freed
        } else {
            let next: u64 = self.waiting.remove(0);
            assert(self.waiting@ == old(self).waiting@.subrange(1, old(self).waiting@.len() as int));
            Release::Handed(next)
        }
    }

    /// The gateway after `reset_prefork`: the backend has nothing pooled, and
    /// the limit, the executions in flight and the queue are as they were.
    pub open spec fn after_reset_prefork(self) -> BoundedCommandRunner {
        BoundedCommandRunner { connections: self.connections.after_reset(), ..self }
    }

    /// Drops the backend's pooled state ahead of a fork. The limit, the
    /// executions in flight and the queue are policy and bookkeeping, not state
    /// that a fork invalidates: they stay as they are.
    pub fn reset_prefork(&mut self)
        ensures
            *final(self) == old(self).after_reset_prefork(),
            final(self)@ == old(self)@,
            old(self).wf() ==> final(self).wf(),
    {
        self.connections.reset();
    }

    /// The number of executions in flight.
    pub fn in_flight(&self) -> (n: usize)
        ensures
            n == self@.running,
    {
        self.running
    }

    /// The number of requests that wait for a slot.
    pub fn queued(&self) -> (n: usize)
        ensures
            n == self@.waiting.len(),
    {
        self.waiting.len()
    }
}

/// Submitting and finishing keep the number in flight within the limit.
pub proof fn lemma_steps_keep_limit(m: GatewayModel, request: u64)
    requires
        m.wf(),
    ensures
        m.submit(request).wf(),
        m.finish().wf(),
        m.submit(request).limit == m.limit,
        m.finish().limit == m.limit,
{
}

/// However submissions and completions interleave, the limit stays what it
/// was, the number in flight stays within it, and nobody waits while a slot is
/// free.
pub proof fn lemma_never_over_limit(m: GatewayModel, events: Seq<GatewayEvent>)
    requires
        m.wf(),
    ensures
        m.run(events).wf(),
        m.run(events).limit == m.limit,
        m.run(events).running <= m.limit,
    decreases events.len(),
{
    if events.len() > 0 {
        lemma_never_over_limit(m, events.drop_last());
    }
}

/// Waiting requests get their slots in the order in which they arrived: while
/// requests wait, each ending execution hands its slot to the oldest of them,
/// the number in flight stays at the limit, and the others keep their order.
pub proof fn lemma_handed_in_arrival_order(m: GatewayModel, count: nat)
    requires
        m.wf(),
        m.limit > 0,
        count <= m.waiting.len(),
    ensures
        m.finish_times(count) == (GatewayModel {
            waiting: m.waiting.subrange(count as int, m.waiting.len() as int),
            ..m
        }),
        count < m.waiting.len() ==> m.finish_times(count).release() == Release::Handed(
            m.waiting[count as int],
        ),
    decreases count,
{
    if count == 0 {
        assert(m.waiting.subrange(0, m.waiting.len() as int) =~= m.waiting);
    } else {
        let earlier = (count - 1) as nat;
        lemma_handed_in_arrival_order(m, earlier);
        let before = m.finish_times(earlier);
        assert(before.waiting.subrange(1, before.waiting.len() as int) =~= m.waiting.subrange(
            count as int,
            m.waiting.len() as int,
        ));
    }
}

/// Up to the limit, every request submitted to an idle gateway is dispatched.
pub proof fn lemma_within_limit_all_dispatched(limit: nat, requests: Seq<u64>)
    requires
        requests.len() <= limit,
    ensures
        GatewayModel::idle(limit).submit_all(requests) == (GatewayModel {
            limit,
            running: requests.len(),
            waiting: Seq::empty(),
        }),
    decreases requests.len(),
{
    if requests.len() > 0 {
        lemma_within_limit_all_dispatched(limit, requests.drop_last());
    }
}

/// Of one request more than the limit, submitted to an idle gateway, the last
/// is queued while the others are in flight, and it gets the first slot that an
/// ending execution sets free.
pub proof fn lemma_one_over_limit_waits(limit: nat, requests: Seq<u64>)
    requires
        requests.len() == limit + 1,
    ensures
        GatewayModel::idle(limit).submit_all(requests.drop_last()).admission() == Admission::Queued,
        GatewayModel::idle(limit).submit_all(requests) == (GatewayModel {
            limit,
            running: limit,
            waiting: seq![requests.last()],
        }),
        limit > 0 ==> GatewayModel::idle(limit).submit_all(requests).release() == Release::Handed(
            requests.last(),
        ),
        limit > 0 ==> GatewayModel::idle(limit).submit_all(requests).finish() == (GatewayModel {
            limit,
            running: limit,
            waiting: Seq::empty(),
        }),
{
    lemma_within_limit_all_dispatched(limit, requests.drop_last());
    let full = GatewayModel::idle(limit).submit_all(requests.drop_last());
    assert(full.submit(requests.last()).waiting =~= seq![requests.last()]);
    let over = GatewayModel::idle(limit).submit_all(requests);
    assert(over.waiting.subrange(1, over.waiting.len() as int) =~= Seq::<u64>::empty());
}

} // verus!
