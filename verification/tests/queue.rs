use upstream_sync::identity::Identity;
use upstream_sync::queue::UniqueDelayQueue;

#[test]
fn readd_before_fire_coalesces() {
    let mut queue = UniqueDelayQueue::new();
    let key = Identity::new("id-1".to_string());

    let first = queue.add(&key, 0, 100);
    let second = queue.add(&key, 10, 50);

    // Rescheduled to fire `d2` after the second call, not at the first
    // schedule, and under a fresh generation.
    assert_eq!(second.deadline, 60);
    assert_ne!(second.generation, first.generation);

    // The first schedule's timer is stale: it emits nothing.
    assert!(!queue.fire(&key, first.generation));
    // The live schedule emits exactly once.
    assert!(queue.fire(&key, second.generation));
    assert!(!queue.fire(&key, second.generation));
}

#[test]
fn readd_after_fire_is_fresh() {
    let mut queue = UniqueDelayQueue::new();
    let key = Identity::new("id-1".to_string());

    let first = queue.add(&key, 0, 5);
    assert!(queue.fire(&key, first.generation));

    // No residual state from the earlier firing: a fresh, independent
    // schedule, firing at the new deadline.
    let second = queue.add(&key, 100, 5);
    assert_eq!(second.deadline, 105);
    assert_ne!(second.generation, first.generation);
    assert!(queue.fire(&key, second.generation));
}

#[test]
fn keys_are_independent() {
    let mut queue = UniqueDelayQueue::new();
    let one = Identity::new("id-1".to_string());
    let two = Identity::new("id-2".to_string());

    let t1 = queue.add(&one, 0, 10);
    let t2 = queue.add(&two, 0, 20);

    // Rescheduling one key leaves the other key's schedule alone.
    let t1b = queue.add(&one, 5, 10);
    assert!(!queue.fire(&one, t1.generation));
    assert!(queue.fire(&two, t2.generation));
    assert!(queue.fire(&one, t1b.generation));
}

#[test]
fn firing_unknown_key_emits_nothing() {
    let mut queue = UniqueDelayQueue::new();
    let key = Identity::new("never-added".to_string());
    assert!(!queue.fire(&key, 0));
}

#[test]
fn identities_compare_by_content() {
    let a = upstream_sync::identity::Identity::new("same".to_string());
    let b = upstream_sync::identity::Identity::new("same".to_string());
    let c = upstream_sync::identity::Identity::new("other".to_string());
    assert!(a.same_as(&b));
    assert!(!a.same_as(&c));
}
