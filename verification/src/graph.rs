//! The memoization table of the computation graph: one evaluation and one
//! result per node slot, shared by everyone who asks.

use std::collections::HashMap;
use vstd::prelude::*;
use vstd::std_specs::hash::*;

verus! {

broadcast use vstd::std_specs::hash::group_hash_axioms;

/// The identity of a node's slot in the graph.
#[derive(Clone, Copy, Debug, PartialEq, Eq, Structural)]
pub struct EntryId(pub u64);

/// How an evaluation ended: with a value or with a failure, each named by the
/// key under which the host holds it.
#[derive(Clone, Copy, Debug, PartialEq, Eq, Structural)]
pub enum Outcome {
    Value(u64),
    Failure(u64),
}

/// What the graph knows of a slot that was asked for.
#[derive(Clone, Copy, Debug, PartialEq, Eq, Structural)]
pub enum EntryState {
    /// The one evaluation of the slot is in flight.
    Running,
    /// The evaluation ended with this outcome.
    Done(Outcome),
}

/// The answer to a request for a slot.
#[derive(Clone, Copy, Debug, PartialEq, Eq, Structural)]
pub enum Lookup {
    /// Nobody asked before: the caller's request starts the evaluation.
    Start,
    /// The evaluation is in flight: the caller waits for its outcome.
    Pending,
    /// The evaluation has ended: the caller gets its outcome.
    Ready(Outcome),
}

/// One step on the graph.
pub enum GraphEvent {
    /// The slot `src` asks for the slot `node`.
    Get { src: EntryId, node: EntryId },
    /// The evaluation of `node` ends with `outcome`.
    Complete { node: EntryId, outcome: Outcome },
}

/// The graph as contracts see it: the state of each slot that was asked for, and
/// the dependency edges in the order in which they were recorded.
pub struct GraphModel {
    pub entries: Map<u64, EntryState>,
    pub edges: Seq<(EntryId, EntryId)>,
}

impl GraphModel {
    /// The graph that nobody has asked anything.
    pub open spec fn empty() -> GraphModel {
        GraphModel { entries: Map::empty(), edges: Seq::empty() }
    }

    /// The answer to a request for `node`.
    pub open spec fn lookup(self, node: EntryId) -> Lookup {
        if !self.entries.contains_key(node.0) {
            Lookup::Start
        } else {
            match self.entries[node.0] {
                EntryState::Running => Lookup::Pending,
                EntryState::Done(outcome) => Lookup::Ready(outcome),
            }
        }
    }

    /// The graph after `src` asked for `node`.
    pub open spec fn get(self, src: EntryId, node: EntryId) -> GraphModel {
        GraphModel {
            entries: if self.entries.contains_key(node.0) {
                self.entries
            } else {
                self.entries.insert(node.0, EntryState::Running)
            },
            edges: self.edges.push((src, node)),
        }
    }

    /// Whether an outcome reported for `node` is recorded: only the evaluation
    /// in flight can end.
    pub open spec fn accepts(self, node: EntryId) -> bool {
        self.entries.contains_key(node.0) && self.entries[node.0] == EntryState::Running
    }

    /// The graph after `outcome` was reported for `node`.
    pub open spec fn complete(self, node: EntryId, outcome: Outcome) -> GraphModel {
        if self.accepts(node) {
            GraphModel { entries: self.entries.insert(node.0, EntryState::Done(outcome)), ..self }
        } else {
            self
        }
    }

    /// The graph after one event.
    pub open spec fn step(self, event: GraphEvent) -> GraphModel {
        match event {
            GraphEvent::Get { src, node } => self.get(src, node),
            GraphEvent::Complete { node, outcome } => self.complete(node, outcome),
        }
    }

    /// The graph after the events of `events`, in order.
    pub open spec fn run(self, events: Seq<GraphEvent>) -> GraphModel
        decreases events.len(),
    {
        if events.len() == 0 {
            self
        } else {
            self.run(events.drop_last()).step(events.last())
        }
    }

    /// Whether `event` starts an evaluation of `node` on this graph.
    pub open spec fn starts(self, event: GraphEvent, node: EntryId) -> bool {
        match event {
            GraphEvent::Get { src, node: asked } => asked == node && self.lookup(node)
                == Lookup::Start,
            GraphEvent::Complete { .. } => false,
        }
    }

    /// How many evaluations of `node` the events of `events` start.
    pub open spec fn evaluations(self, events: Seq<GraphEvent>, node: EntryId) -> nat
        decreases events.len(),
    {
        if events.len() == 0 {
            0
        } else {
            let before = self.evaluations(events.drop_last(), node);
            if self.run(events.drop_last()).starts(events.last(), node) {
                before + 1
            } else {
                before
            }
        }
    }
}

/// The computation graph's memoization table.
#[derive(Clone, Debug)]
pub struct Graph {
    /// The state of each slot that was asked for, by the slot's number.
    pub entries: HashMap<u64, EntryState>,
    /// The dependency edges, from the slot that asked to the slot asked for.
    pub edges: Vec<(EntryId, EntryId)>,
}

impl View for Graph {
    type V = GraphModel;

    open spec fn view(&self) -> GraphModel {
        GraphModel { entries: self.entries@, edges: self.edges@ }
    }
}

impl Graph {
    /// A graph that nobody has asked anything.
    pub fn new() -> (g: Graph)
        ensures
            g@ == GraphModel::empty(),
    {
        Graph { entries: HashMap::new(), edges: Vec::new() }
    }

    /// Asks for `node` on behalf of `src`, and records the edge between them.
    /// The first request for a slot starts its evaluation; every later one joins
    /// it or gets its outcome.
    pub fn get(&mut self, src: EntryId, node: EntryId) -> (l: Lookup)
        ensures
            l == old(self)@.lookup(node),
            final(self)@ == old(self)@.get(src, node),
    {
        self.edges.push((src, node));
        let found: Option<EntryState> = match self.entries.get(&node.0) {
            Some(state) => Some(*state),
            None => None,
        };
        match found {
            None => {
                self.entries.insert(node.0, EntryState::Running);
                Lookup::Start
            },
            Some(EntryState::Running) => Lookup::Pending,
            Some(EntryState::Done(outcome)) => Lookup::Ready(outcome),
        }
    }

    /// Reports that the evaluation of `node` ended with `outcome`. The outcome
    /// is recorded, and `true` returned, if and only if that evaluation was in
    /// flight; an outcome once recorded is never replaced.
    pub fn complete(&mut self, node: EntryId, outcome: Outcome) -> (recorded: bool)
        ensures
            recorded == old(self)@.accepts(node),
            final(self)@ == old(self)@.complete(node, outcome),
    {
        let running: bool = match self.entries.get(&node.0) {
            Some(EntryState::Running) => true,
            _ => false,
        };
        if running {
            self.entries.insert(node.0, EntryState::Done(outcome));
        }
        running
    }

    /// The state of `node`, if anybody has asked for it.
    pub fn state(&self, node: EntryId) -> (s: Option<EntryState>)
        ensures
            s == (if self@.entries.contains_key(node.0) {
                Some(self@.entries[node.0])
            } else {
                None
            }),
    {
        match self.entries.get(&node.0) {
            Some(state) => Some(*state),
            None => None,
        }
    }
}

/// A slot that was asked for stays known, and an outcome that was recorded
/// stays as it is, whatever happens afterwards.
pub proof fn lemma_results_are_stable(g: GraphModel, events: Seq<GraphEvent>, node: EntryId)
    requires
        g.entries.contains_key(node.0),
    ensures
        g.run(events).entries.contains_key(node.0),
        g.entries[node.0] matches EntryState::Done(outcome) ==> g.run(events).lookup(node)
            == Lookup::Ready(outcome),
        g.run(events).lookup(node) != Lookup::Start,
    decreases events.len(),
{
    if events.len() > 0 {
        lemma_results_are_stable(g, events.drop_last(), node);
    }
}

/// However requests and completions interleave, a slot is evaluated at most
/// once, and exactly once if anybody asked for it.
pub proof fn lemma_single_evaluation(g: GraphModel, events: Seq<GraphEvent>, node: EntryId)
    ensures
        g.entries.contains_key(node.0) ==> g.evaluations(events, node) == 0,
        !g.entries.contains_key(node.0) ==> g.evaluations(events, node) == (if g.run(
            events,
        ).entries.contains_key(node.0) {
            1nat
        } else {
            0nat
        }),
        g.evaluations(events, node) <= 1,
    decreases events.len(),
{
    if events.len() > 0 {
        let earlier = events.drop_last();
        lemma_single_evaluation(g, earlier, node);
        if g.entries.contains_key(node.0) {
            lemma_results_are_stable(g, earlier, node);
        }
    }
}

/// Once an outcome is recorded for a slot, every request for it is answered with
/// that outcome, whoever asks and whatever happened in between.
pub proof fn lemma_all_observe_one_result(
    g: GraphModel,
    node: EntryId,
    outcome: Outcome,
    events: Seq<GraphEvent>,
)
    requires
        g.accepts(node),
    ensures
        g.complete(node, outcome).run(events).lookup(node) == Lookup::Ready(outcome),
{
    lemma_results_are_stable(g.complete(node, outcome), events, node);
}

} // verus!
