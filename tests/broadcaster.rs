use mongodb_redis::broadcaster::{new_planet_frame, Broadcaster, CONNECTED_FRAME, PING_FRAME};

#[test]
fn frames() {
    assert_eq!(CONNECTED_FRAME, "data: Connected\n\n");
    assert_eq!(PING_FRAME, "data: Ping\n\n");
    assert_eq!(new_planet_frame("abc"), "data: Planet created: \"abc\"\n\n");
    assert_eq!(
        new_planet_frame("{\"name\":\"Ceres\"}"),
        "data: Planet created: \"{\\\"name\\\":\\\"Ceres\\\"}\"\n\n"
    );
}

#[test]
fn empty_registry_sends_to_nobody() {
    let b = Broadcaster::new();
    assert!(b.send().is_empty());
}

#[test]
fn subscribed_client_gets_each_message_once() {
    let mut b = Broadcaster::new();
    let first = b.new_client().unwrap();
    let second = b.new_client().unwrap();
    assert_ne!(first, second);
    let targets = b.send();
    assert_eq!(targets, vec![first, second]);
    assert_eq!(targets.iter().filter(|c| **c == first).count(), 1);
}

#[test]
fn stale_client_is_pruned_and_gets_nothing_more() {
    let mut b = Broadcaster::new();
    let alive = b.new_client().unwrap();
    let dead = b.new_client().unwrap();
    let late = b.new_client().unwrap();
    b.remove_stale_clients(&vec![true, false, true]);
    assert_eq!(b.send(), vec![alive, late]);
    // a second failed heartbeat finds it gone already
    b.remove_stale_clients(&vec![true, true]);
    assert!(!b.send().contains(&dead));
    let again = b.new_client().unwrap();
    assert_ne!(again, dead);
    assert_eq!(b.send(), vec![alive, late, again]);
}
