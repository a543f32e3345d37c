use ceremony::contributor::Contributor;
use ceremony::storage::{ContributorQueue, InactiveContributorState, InactiveContributorStatus, InactiveContributors, QueuedContributorState};

fn person(name: &str, key: u8) -> Contributor {
    Contributor::new_with_verifying_key(name, &format!("{name}@example.com"), [key; 32])
}

fn queued(c: &Contributor, joined: i128) -> QueuedContributorState {
    QueuedContributorState { joined, updated_timestamp: joined, contributor: c.clone() }
}

#[test]
fn queue_is_first_come_first_served() {
    let alice = person("Alice", 1);
    let bob = person("Bob", 2);
    let mut q = ContributorQueue::new();
    q.update(&alice, queued(&alice, 10));
    q.update(&bob, queued(&bob, 20));
    assert_eq!(q.first().contributor.name, "Alice");
    q.dequeue_first();
    assert_eq!(q.first().contributor.name, "Bob");
    assert_eq!(q.first().joined, 20);
}

#[test]
fn queue_turn_goes_by_join_time() {
    let alice = person("Alice", 1);
    let bob = person("Bob", 2);
    let carol = person("Carol", 3);
    let dave = person("Dave", 4);
    let mut q = ContributorQueue::new();
    // added out of join order
    q.update(&bob, queued(&bob, 30));
    q.update(&alice, queued(&alice, 10));
    q.update(&carol, queued(&carol, 20));
    q.update(&dave, queued(&dave, 10));
    // Alice and Dave joined at the same time; Alice is nearer the front
    assert_eq!(q.first().contributor.name, "Alice");
    q.dequeue_first();
    assert_eq!(q.first().contributor.name, "Dave");
    q.dequeue_first();
    assert_eq!(q.first().contributor.name, "Carol");
    q.dequeue_first();
    assert_eq!(q.first().contributor.name, "Bob");
    q.dequeue_first();
    q.dequeue_first();
    q.update(&carol, queued(&carol, 1));
    assert_eq!(q.first().contributor.name, "Carol");
}

#[test]
fn queue_update_replaces_in_place() {
    let alice = person("Alice", 1);
    let bob = person("Bob", 2);
    let mut q = ContributorQueue::new();
    q.update(&alice, queued(&alice, 10));
    q.update(&bob, queued(&bob, 20));
    let mut refreshed = queued(&alice, 10);
    refreshed.updated_timestamp = 99;
    q.update(&alice, refreshed);
    let first = q.first();
    assert_eq!(first.contributor.name, "Alice");
    assert_eq!(first.updated_timestamp, 99);
    q.dequeue_first();
    assert_eq!(q.first().contributor.name, "Bob");
}

#[test]
fn dequeue_on_empty_queue_does_nothing() {
    let mut q = ContributorQueue::new();
    q.dequeue_first();
    let alice = person("Alice", 1);
    q.update(&alice, queued(&alice, 5));
    assert_eq!(q.first().joined, 5);
}

#[test]
fn inactive_contributors_start_not_joined() {
    let people = vec![person("Alice", 1), person("Bob", 2)];
    let inactive = InactiveContributors::with_initialial_authorized_contributors(&people);
    let v = inactive.as_vec();
    assert_eq!(v.len(), 2);
    assert_eq!(v[0].contributor.name, "Alice");
    assert_eq!(v[1].contributor.name, "Bob");
    assert!(v.iter().all(|s| s.status == InactiveContributorStatus::KickedOrDidntJoin));
}

#[test]
fn inactive_contributors_finish_add_remove() {
    let alice = person("Alice", 1);
    let bob = person("Bob", 2);
    let carol = person("Carol", 3);
    let mut inactive = InactiveContributors::with_initialial_authorized_contributors(&vec![alice.clone(), bob.clone()]);
    inactive.finish(&alice, ());
    let v = inactive.as_vec();
    assert_eq!(v.len(), 2);
    assert_eq!(v[0].status, InactiveContributorStatus::Finished);
    assert_eq!(v[1].status, InactiveContributorStatus::KickedOrDidntJoin);

    inactive.add(&carol);
    let v = inactive.as_vec();
    assert_eq!(v.len(), 3);
    assert_eq!(v[2].contributor.name, "Carol");

    inactive.remove(&bob);
    let v = inactive.as_vec();
    assert_eq!(v.len(), 2);
    assert_eq!(v[0].contributor.name, "Alice");
    assert_eq!(v[1].contributor.name, "Carol");

    inactive.remove(&bob);
    assert_eq!(inactive.as_vec().len(), 2);
}

#[test]
fn making_a_contributor_queued_keeps_it() {
    let alice = person("Alice", 1);
    let s = InactiveContributorState::starting_state(alice);
    assert_eq!(s.status, InactiveContributorStatus::KickedOrDidntJoin);
    let q = s.make_queued();
    assert_eq!(q.contributor.name, "Alice");
    assert_eq!(q.joined, q.updated_timestamp);
}
