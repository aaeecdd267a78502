use engine::gateway::{Admission, Backend, BoundedCommandRunner, Release};
use engine::resettable::Fetch;

#[test]
fn new_gateway_is_idle() {
    let g = BoundedCommandRunner::new(Backend::Local, 16);
    assert_eq!(g.limit, 16);
    assert_eq!(g.in_flight(), 0);
    assert_eq!(g.queued(), 0);
    assert_eq!(g.backend, Backend::Local);
    assert!(!g.backend.is_remote());
}

#[test]
fn requests_up_to_the_limit_are_dispatched() {
    let mut g = BoundedCommandRunner::new(Backend::Local, 3);
    assert_eq!(g.submit(10), Admission::Dispatched);
    assert_eq!(g.submit(11), Admission::Dispatched);
    assert_eq!(g.submit(12), Admission::Dispatched);
    assert_eq!(g.in_flight(), 3);
    assert_eq!(g.queued(), 0);
}

#[test]
fn one_request_over_the_limit_waits_for_a_slot() {
    let limit: usize = 16;
    let mut g = BoundedCommandRunner::new(Backend::Local, limit);
    for request in 0..16u64 {
        assert_eq!(g.submit(request), Admission::Dispatched);
    }
    assert_eq!(g.submit(16), Admission::Queued);
    assert_eq!(g.in_flight(), limit);
    assert_eq!(g.waiting, vec![16]);
    assert_eq!(g.finish(), Release::Handed(16));
    assert_eq!(g.in_flight(), limit);
    assert_eq!(g.queued(), 0);
}

#[test]
fn waiting_requests_are_admitted_in_arrival_order() {
    let mut g = BoundedCommandRunner::new(Backend::Local, 1);
    assert_eq!(g.submit(1), Admission::Dispatched);
    assert_eq!(g.submit(2), Admission::Queued);
    assert_eq!(g.submit(3), Admission::Queued);
    assert_eq!(g.submit(4), Admission::Queued);
    assert_eq!(g.finish(), Release::Handed(2));
    assert_eq!(g.finish(), Release::Handed(3));
    assert_eq!(g.finish(), Release::Handed(4));
    assert_eq!(g.finish(), Release::Freed);
    assert_eq!(g.finish(), Release::Idle);
    assert_eq!(g.in_flight(), 0);
}

#[test]
fn in_flight_never_exceeds_the_limit() {
    let mut g = BoundedCommandRunner::new(Backend::Local, 4);
    for step in 0..200u64 {
        if step % 3 == 2 {
            g.finish();
        } else {
            g.submit(step);
        }
        assert!(g.in_flight() <= 4);
        assert!(g.is_valid());
        assert!(g.queued() == 0 || g.in_flight() == 4);
    }
}

#[test]
fn gateway_without_slots_queues_everything() {
    let mut g = BoundedCommandRunner::new(Backend::Local, 0);
    assert_eq!(g.submit(1), Admission::Queued);
    assert_eq!(g.finish(), Release::Idle);
    assert_eq!(g.waiting, vec![1]);
}

#[test]
fn reset_prefork_keeps_the_admission_state() {
    let backend = Backend::Remote { address: "10.0.0.1:9999".to_string(), replicas: 1 };
    let mut g = BoundedCommandRunner::new(backend.clone(), 2);
    g.submit(1);
    g.submit(2);
    g.submit(3);
    assert_eq!(g.connections.get(), Fetch::Built);
    assert!(g.is_valid());
    g.reset_prefork();
    assert_eq!(g.limit, 2);
    assert_eq!(g.in_flight(), 2);
    assert_eq!(g.waiting, vec![3]);
    assert_eq!(g.backend, backend);
    assert!(g.backend.is_remote());
    assert!(!g.connections.is_live());
    assert_eq!(g.connections.get(), Fetch::Built);
    assert_eq!(g.connections.get(), Fetch::Existing);
}

#[test]
fn validity_is_what_the_steps_keep() {
    let mut g = BoundedCommandRunner::new(Backend::Local, 2);
    assert!(g.is_valid());
    g.running = 3;
    assert!(!g.is_valid());
    g.running = 1;
    g.waiting.push(9);
    assert!(!g.is_valid());
    g.running = 2;
    assert!(g.is_valid());
}
