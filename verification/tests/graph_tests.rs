use engine::context::{Context, ContextFactory};
use engine::graph::{EntryId, EntryState, Graph, Lookup, Outcome};
use engine::handles::HandleQueue;
use engine::registry::{Core, Environment, Policy};
use std::sync::Arc;

fn registry() -> Core<Vec<u8>, Vec<u8>, Vec<u8>> {
    let env = Environment {
        home_dir: Some("/home/user".to_string()),
        store_dir: Ok(()),
        store: Ok(()),
        vfs: Ok(()),
    };
    Core::new(
        vec![1, 2],
        vec![1],
        vec![2],
        vec![3],
        "/build".to_string(),
        vec!["*.pyc".to_string()],
        "/build/.work".to_string(),
        None,
        None,
        Policy::default(),
        env,
    )
    .unwrap()
}

#[test]
fn first_request_starts_and_later_ones_join() {
    let mut g = Graph::new();
    assert_eq!(g.state(EntryId(7)), None);
    assert_eq!(g.get(EntryId(1), EntryId(7)), Lookup::Start);
    assert_eq!(g.state(EntryId(7)), Some(EntryState::Running));
    assert_eq!(g.get(EntryId(2), EntryId(7)), Lookup::Pending);
    assert_eq!(g.get(EntryId(3), EntryId(7)), Lookup::Pending);
    assert!(g.complete(EntryId(7), Outcome::Value(42)));
    assert_eq!(g.get(EntryId(4), EntryId(7)), Lookup::Ready(Outcome::Value(42)));
    assert_eq!(g.get(EntryId(1), EntryId(7)), Lookup::Ready(Outcome::Value(42)));
}

#[test]
fn an_outcome_is_recorded_once() {
    let mut g = Graph::new();
    assert!(!g.complete(EntryId(7), Outcome::Value(1)));
    assert_eq!(g.state(EntryId(7)), None);
    g.get(EntryId(1), EntryId(7));
    assert!(g.complete(EntryId(7), Outcome::Failure(3)));
    assert!(!g.complete(EntryId(7), Outcome::Value(5)));
    assert_eq!(g.state(EntryId(7)), Some(EntryState::Done(Outcome::Failure(3))));
    assert_eq!(g.get(EntryId(2), EntryId(7)), Lookup::Ready(Outcome::Failure(3)));
}

#[test]
fn edges_are_recorded_in_order() {
    let mut g = Graph::new();
    g.get(EntryId(1), EntryId(7));
    g.get(EntryId(2), EntryId(7));
    g.get(EntryId(7), EntryId(8));
    assert_eq!(
        g.edges,
        vec![(EntryId(1), EntryId(7)), (EntryId(2), EntryId(7)), (EntryId(7), EntryId(8))]
    );
}

#[test]
fn many_requests_for_one_slot_start_one_evaluation() {
    let mut g = Graph::new();
    let mut started = 0;
    for caller in 0..50u64 {
        if caller == 20 {
            assert!(g.complete(EntryId(99), Outcome::Value(5)));
        }
        match g.get(EntryId(caller), EntryId(99)) {
            Lookup::Start => started += 1,
            Lookup::Pending => assert!(caller < 20),
            Lookup::Ready(outcome) => {
                assert!(caller >= 20);
                assert_eq!(outcome, Outcome::Value(5));
            }
        }
    }
    assert_eq!(started, 1);
}

#[test]
fn handle_queue_drains_in_arrival_order() {
    let mut q = HandleQueue::new();
    assert_eq!(q.maybe_drain(), None);
    q.enqueue(5);
    q.enqueue(3);
    q.enqueue(8);
    assert_eq!(q.maybe_drain(), Some(vec![5, 3, 8]));
    assert_eq!(q.pending, Vec::<u64>::new());
    assert_eq!(q.maybe_drain(), None);
}

#[test]
fn context_get_releases_handles_and_asks_for_its_own_slot() {
    let core = Arc::new(registry());
    let ctx = Context::new(EntryId(4), core);
    let mut graph = Graph::new();
    let mut handles = HandleQueue::new();
    handles.enqueue(11);
    handles.enqueue(12);
    let first = ctx.get(&mut graph, &mut handles, EntryId(9));
    assert_eq!(first.released, vec![11, 12]);
    assert_eq!(first.lookup, Lookup::Start);
    assert_eq!(handles.pending, Vec::<u64>::new());
    assert_eq!(graph.edges, vec![(EntryId(4), EntryId(9))]);
    let second = ctx.get(&mut graph, &mut handles, EntryId(9));
    assert_eq!(second.released, Vec::<u64>::new());
    assert_eq!(second.lookup, Lookup::Pending);
}

#[test]
fn contexts_on_one_registry_observe_one_result() {
    let core = Arc::new(registry());
    let a = Context::new(EntryId(1), core.clone());
    let b = a.create(EntryId(2));
    let c = b.create(EntryId(3));
    let mut graph = Graph::new();
    let mut handles = HandleQueue::new();
    assert_eq!(a.get(&mut graph, &mut handles, EntryId(50)).lookup, Lookup::Start);
    assert_eq!(b.get(&mut graph, &mut handles, EntryId(50)).lookup, Lookup::Pending);
    assert!(graph.complete(EntryId(50), Outcome::Value(77)));
    let ready = Lookup::Ready(Outcome::Value(77));
    assert_eq!(a.get(&mut graph, &mut handles, EntryId(50)).lookup, ready);
    assert_eq!(b.get(&mut graph, &mut handles, EntryId(50)).lookup, ready);
    assert_eq!(c.get(&mut graph, &mut handles, EntryId(50)).lookup, ready);
}

#[test]
fn create_shares_the_registry_without_copying_it() {
    let core = Arc::new(registry());
    let first = Context::new(EntryId(1), core.clone());
    assert_eq!(Arc::strong_count(&core), 2);
    let second = first.create(EntryId(2));
    assert_eq!(second.entry_id, EntryId(2));
    assert_eq!(first.entry_id, EntryId(1));
    assert!(Arc::ptr_eq(&first.core, &second.core));
    assert!(Arc::ptr_eq(&core, &second.core));
    assert_eq!(Arc::strong_count(&core), 3);
    drop(second);
    assert_eq!(Arc::strong_count(&core), 2);
}

#[test]
fn context_new_keeps_what_it_is_given() {
    let core = Arc::new(registry());
    let ctx = Context::new(EntryId(12), core.clone());
    assert_eq!(ctx.entry_id, EntryId(12));
    assert!(Arc::ptr_eq(&ctx.core, &core));
}

#[test]
fn cloned_context_has_the_same_slot_and_registry() {
    let core = Arc::new(registry());
    let ctx = Context::new(EntryId(6), core.clone());
    let copy = ctx.clone();
    assert_eq!(copy.entry_id, EntryId(6));
    assert!(Arc::ptr_eq(&copy.core, &core));
    assert_eq!(Arc::strong_count(&core), 3);
}
