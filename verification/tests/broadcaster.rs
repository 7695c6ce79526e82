use frame_relay::broadcaster::{Broadcaster, Delivery, Subscription};

fn frame(tag: u8) -> Vec<u8> {
    vec![0xff, 0xd8, tag, 0xff, 0xd9]
}

fn expect_frame(viewer: &mut Subscription, source: &Broadcaster, tag: u8) {
    match viewer.next(source) {
        Delivery::Frame(got) => assert_eq!(got, frame(tag)),
        other => panic!("expected frame {}, got {:?}", tag, other),
    }
}

fn expect_lagged(viewer: &mut Subscription, source: &Broadcaster, missed: u64) {
    match viewer.next(source) {
        Delivery::Lagged(got) => assert_eq!(got, missed),
        other => panic!("expected a lag of {}, got {:?}", missed, other),
    }
}

#[test]
fn new_broadcaster_is_empty_and_open() {
    let source = Broadcaster::new(100);
    assert_eq!(source.capacity(), 100);
    assert_eq!(source.published(), 0);
    assert_eq!(source.retained_len(), 0);
    assert_eq!(source.subscriber_count(), 0);
    assert!(!source.is_closed());
}

#[test]
fn subscribe_then_publish_yields_that_frame() {
    let mut source = Broadcaster::new(4);
    let mut viewer = source.subscribe();
    source.publish(vec![1, 2, 3]);
    match viewer.next(&source) {
        Delivery::Frame(got) => assert_eq!(got, vec![1, 2, 3]),
        other => panic!("expected a frame, got {:?}", other),
    }
    assert!(matches!(viewer.next(&source), Delivery::Pending));
}

#[test]
fn frames_arrive_in_publish_order() {
    let mut source = Broadcaster::new(8);
    let mut viewer = source.subscribe();
    for tag in 0..8u8 {
        source.publish(frame(tag));
    }
    for tag in 0..8u8 {
        expect_frame(&mut viewer, &source, tag);
    }
    assert!(matches!(viewer.next(&source), Delivery::Pending));
    assert_eq!(viewer.position(), 8);
}

#[test]
fn interleaved_publish_and_poll_keep_order() {
    let mut source = Broadcaster::new(2);
    let mut viewer = source.subscribe();
    for tag in 0..20u8 {
        source.publish(frame(tag));
        expect_frame(&mut viewer, &source, tag);
        assert!(matches!(viewer.next(&source), Delivery::Pending));
    }
    assert_eq!(source.published(), 20);
    assert_eq!(source.retained_len(), 2);
}

#[test]
fn new_subscriber_gets_no_backlog() {
    let mut source = Broadcaster::new(4);
    source.publish(frame(1));
    source.publish(frame(2));
    let mut viewer = source.subscribe();
    assert_eq!(viewer.position(), 2);
    assert!(matches!(viewer.next(&source), Delivery::Pending));
    source.publish(frame(3));
    expect_frame(&mut viewer, &source, 3);
}

#[test]
fn slow_subscriber_is_told_how_many_frames_it_missed() {
    let mut source = Broadcaster::new(3);
    let mut viewer = source.subscribe();
    for tag in 0..5u8 {
        source.publish(frame(tag));
    }
    expect_lagged(&mut viewer, &source, 2);
    expect_frame(&mut viewer, &source, 2);
    expect_frame(&mut viewer, &source, 3);
    expect_frame(&mut viewer, &source, 4);
    assert!(matches!(viewer.next(&source), Delivery::Pending));
}

#[test]
fn lag_counts_unread_frames_only() {
    let mut source = Broadcaster::new(3);
    let mut viewer = source.subscribe();
    for tag in 0..3u8 {
        source.publish(frame(tag));
    }
    for tag in 0..3u8 {
        expect_frame(&mut viewer, &source, tag);
    }
    for tag in 3..7u8 {
        source.publish(frame(tag));
    }
    expect_lagged(&mut viewer, &source, 1);
    expect_frame(&mut viewer, &source, 4);
    expect_frame(&mut viewer, &source, 5);
    expect_frame(&mut viewer, &source, 6);
    assert!(matches!(viewer.next(&source), Delivery::Pending));
}

#[test]
fn lag_is_reported_once() {
    let mut source = Broadcaster::new(1);
    let mut viewer = source.subscribe();
    source.publish(frame(1));
    source.publish(frame(2));
    source.publish(frame(3));
    expect_lagged(&mut viewer, &source, 2);
    expect_frame(&mut viewer, &source, 3);
    assert!(matches!(viewer.next(&source), Delivery::Pending));
    source.publish(frame(4));
    expect_frame(&mut viewer, &source, 4);
}

#[test]
fn exactly_capacity_frames_cause_no_lag() {
    let mut source = Broadcaster::new(3);
    let mut viewer = source.subscribe();
    for tag in 0..3u8 {
        source.publish(frame(tag));
    }
    for tag in 0..3u8 {
        expect_frame(&mut viewer, &source, tag);
    }
}

#[test]
fn idle_subscriber_does_not_hold_up_another() {
    let mut source = Broadcaster::new(4);
    let mut reader = source.subscribe();
    let idle = source.subscribe();
    for tag in 0..4u8 {
        source.publish(frame(tag));
    }
    for tag in 0..4u8 {
        expect_frame(&mut reader, &source, tag);
    }
    assert_eq!(idle.position(), 0);
    assert_eq!(source.published(), 4);
    assert_eq!(source.subscriber_count(), 2);
}

#[test]
fn subscribers_read_at_their_own_pace() {
    let mut source = Broadcaster::new(4);
    let mut fast = source.subscribe();
    let mut slow = source.subscribe();
    source.publish(frame(1));
    source.publish(frame(2));
    expect_frame(&mut fast, &source, 1);
    expect_frame(&mut fast, &source, 2);
    source.publish(frame(3));
    expect_frame(&mut slow, &source, 1);
    expect_frame(&mut fast, &source, 3);
    expect_frame(&mut slow, &source, 2);
    expect_frame(&mut slow, &source, 3);
}

#[test]
fn released_subscription_leaves_the_other_untouched() {
    let mut source = Broadcaster::new(4);
    let mut stays = source.subscribe();
    let mut leaves = source.subscribe();
    source.publish(frame(1));
    expect_frame(&mut leaves, &source, 1);
    source.publish(frame(2));
    source.release(leaves);
    assert_eq!(source.subscriber_count(), 1);
    source.publish(frame(3));
    expect_frame(&mut stays, &source, 1);
    expect_frame(&mut stays, &source, 2);
    expect_frame(&mut stays, &source, 3);
    assert_eq!(source.published(), 3);
}

#[test]
fn release_never_counts_below_zero() {
    let mut source = Broadcaster::new(2);
    let mut other = Broadcaster::new(2);
    let stray = other.subscribe();
    source.release(stray);
    assert_eq!(source.subscriber_count(), 0);
    assert_eq!(other.subscriber_count(), 1);
}

#[test]
fn closed_broadcaster_drains_then_reports_closed() {
    let mut source = Broadcaster::new(4);
    let mut viewer = source.subscribe();
    source.publish(frame(1));
    source.close();
    assert!(source.is_closed());
    expect_frame(&mut viewer, &source, 1);
    assert!(matches!(viewer.next(&source), Delivery::Closed));
    assert!(matches!(viewer.next(&source), Delivery::Closed));
}

#[test]
fn closed_broadcaster_drops_what_is_published() {
    let mut source = Broadcaster::new(4);
    source.publish(frame(1));
    source.close();
    source.publish(frame(2));
    assert_eq!(source.published(), 1);
    assert_eq!(source.retained_len(), 1);
}

#[test]
fn ring_never_holds_more_than_capacity() {
    let mut source = Broadcaster::new(3);
    for tag in 0..10u8 {
        source.publish(frame(tag));
        assert_eq!(source.retained_len(), std::cmp::min(tag as usize + 1, 3));
    }
    assert_eq!(source.published(), 10);
}

#[test]
fn delivered_frame_is_a_copy_of_what_was_published() {
    let mut source = Broadcaster::new(2);
    let mut first = source.subscribe();
    let mut second = source.subscribe();
    source.publish(vec![]);
    source.publish(vec![9; 1000]);
    match (first.next(&source), second.next(&source)) {
        (Delivery::Frame(a), Delivery::Frame(b)) => {
            assert!(a.is_empty());
            assert!(b.is_empty());
        }
        other => panic!("expected two frames, got {:?}", other),
    }
    match first.next(&source) {
        Delivery::Frame(a) => assert_eq!(a, vec![9; 1000]),
        other => panic!("expected a frame, got {:?}", other),
    }
}

#[test]
fn default_capacity_is_one_hundred_frames() {
    assert_eq!(frame_relay::broadcaster::DEFAULT_CAPACITY, 100);
    let mut source = Broadcaster::new(frame_relay::broadcaster::DEFAULT_CAPACITY);
    let mut viewer = source.subscribe();
    for tag in 0..101u8 {
        source.publish(frame(tag));
    }
    expect_lagged(&mut viewer, &source, 1);
    expect_frame(&mut viewer, &source, 1);
    assert_eq!(source.retained_len(), 100);
}
