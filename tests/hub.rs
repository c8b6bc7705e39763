use mexc_rs::hub::{BroadcastHub, SubscriberState};

#[test]
fn late_reader_gets_last_capacity_messages() {
    let mut hub = BroadcastHub::new(3);
    let mut sub = hub.subscribe();
    for i in 0..10u32 {
        hub.publish(i);
    }
    assert_eq!(hub.state(&sub), SubscriberState::Lagging);
    let mut got = Vec::new();
    while let Some(m) = hub.next(&mut sub) {
        got.push(*m);
    }
    assert_eq!(got, vec![7, 8, 9]);
    assert_eq!(hub.state(&sub), SubscriberState::Active);
}

#[test]
fn subscribers_see_only_later_messages_in_order() {
    let mut hub = BroadcastHub::new(8);
    hub.publish(1u32);
    let mut early = hub.subscribe();
    hub.publish(2);
    hub.publish(3);
    let mut late = hub.subscribe();
    hub.publish(4);
    hub.publish(5);
    let mut a = Vec::new();
    while let Some(m) = hub.next(&mut early) {
        a.push(*m);
    }
    let mut b = Vec::new();
    while let Some(m) = hub.next(&mut late) {
        b.push(*m);
    }
    assert_eq!(a, vec![2, 3, 4, 5]);
    assert_eq!(b, vec![4, 5]);
}

#[test]
fn reader_keeps_up_across_eviction() {
    let mut hub = BroadcastHub::new(2);
    let mut sub = hub.subscribe();
    let mut got = Vec::new();
    for i in 0..6u32 {
        hub.publish(i);
        if i % 2 == 1 {
            while let Some(m) = hub.next(&mut sub) {
                got.push(*m);
            }
        }
    }
    assert_eq!(got, vec![0, 1, 2, 3, 4, 5]);
}

#[test]
fn closed_hub_ends_subscribers() {
    let mut hub = BroadcastHub::new(2);
    let mut sub = hub.subscribe();
    hub.publish(1u32);
    hub.close();
    assert_eq!(hub.state(&sub), SubscriberState::Active);
    assert_eq!(hub.next(&mut sub), Some(&1));
    assert_eq!(hub.next(&mut sub), None);
    assert_eq!(hub.state(&sub), SubscriberState::Closed);
}
