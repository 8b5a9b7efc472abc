use amp_extras_core::hub::Hub;

#[test]
fn publish_without_subscribers_is_done_at_once() {
    let h = Hub::new();
    let b = h.begin_publish("{}".to_string());
    assert!(b.is_done());
    assert_eq!(b.next_target(), None);
    assert!(b.delivered().is_empty());
}

#[test]
fn one_failing_subscriber_does_not_stop_the_others() {
    let mut h = Hub::new();
    for id in [1, 2, 3, 4] {
        assert!(h.add(id));
    }
    let mut b = h.begin_publish("payload".to_string());
    let mut attempted = Vec::new();
    while let Some(id) = b.next_target() {
        attempted.push(id);
        assert_eq!(b.payload(), "payload");
        b.record(id != 2);
    }
    assert_eq!(attempted, vec![1, 2, 3, 4]);
    assert_eq!(b.delivered(), vec![1, 3, 4]);
}

#[test]
fn subscribers_are_unique_and_removable() {
    let mut h = Hub::new();
    assert!(h.add(7));
    assert!(!h.add(7));
    assert!(h.add(8));
    assert_eq!(h.subscribers(), vec![7, 8]);
    assert!(h.remove(7));
    assert!(!h.remove(7));
    assert!(!h.contains(7));
    assert_eq!(h.subscribers(), vec![8]);
}

#[test]
fn subscriber_added_after_start_is_not_a_target() {
    let mut h = Hub::new();
    h.add(1);
    let mut b = h.begin_publish("x".to_string());
    h.add(2);
    assert_eq!(b.next_target(), Some(1));
    b.record(true);
    assert_eq!(b.next_target(), None);
}

#[test]
fn deliver_all_attempts_every_subscriber_despite_a_failure() {
    let mut h = Hub::new();
    for id in [10, 20, 30] {
        h.add(id);
    }
    let mut b = h.begin_publish("n".to_string());
    b.deliver_all(|id| id != 20);
    assert!(b.is_done());
    assert_eq!(b.delivered(), vec![10, 30]);
}

#[test]
fn deliver_all_without_subscribers_succeeds() {
    let h = Hub::new();
    let mut b = h.begin_publish("n".to_string());
    b.deliver_all(|_| false);
    assert!(b.is_done());
    assert!(b.delivered().is_empty());
}
