use engine::resettable::{Fetch, Resettable};

#[test]
fn new_resource_is_not_live() {
    let r = Resettable::new();
    assert!(!r.is_live());
    assert!(!r.live);
}

#[test]
fn first_get_builds_and_later_gets_share() {
    let mut r = Resettable::new();
    assert_eq!(r.get(), Fetch::Built);
    assert!(r.is_live());
    assert_eq!(r.get(), Fetch::Existing);
    assert_eq!(r.get(), Fetch::Existing);
    assert!(r.is_live());
}

#[test]
fn reset_discards_the_live_instance() {
    let mut r = Resettable::new();
    r.get();
    r.reset();
    assert!(!r.is_live());
}

#[test]
fn get_after_reset_builds_a_new_instance() {
    let mut r = Resettable::new();
    assert_eq!(r.get(), Fetch::Built);
    r.reset();
    assert_eq!(r.get(), Fetch::Built);
    assert_eq!(r.get(), Fetch::Existing);
}

#[test]
fn reset_twice_is_reset_once() {
    let mut once = Resettable::new();
    once.get();
    let mut twice = once;
    once.reset();
    twice.reset();
    twice.reset();
    assert_eq!(once.is_live(), twice.is_live());
    assert_eq!(once.get(), Fetch::Built);
    assert_eq!(twice.get(), Fetch::Built);
    assert_eq!(twice.get(), Fetch::Existing);
}

#[test]
fn reset_of_a_resource_never_built_changes_nothing() {
    let mut r = Resettable::new();
    r.reset();
    assert!(!r.is_live());
    assert_eq!(r.get(), Fetch::Built);
}

#[test]
fn a_copy_of_the_state_goes_its_own_way() {
    let mut r = Resettable::new();
    let mut copy = r;
    assert_eq!(r.get(), Fetch::Built);
    assert!(!copy.is_live());
    assert_eq!(copy.get(), Fetch::Built);
}
