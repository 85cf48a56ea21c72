use esp_csi_rs::capture::build_frame;
use esp_csi_rs::CSIFrame;
use esp_csi_rs::DistributionChannel;
use esp_csi_rs::Error;
use esp_csi_rs::NextPoll;

fn frame(tag: i8, ts: u64) -> CSIFrame {
    let raw: Vec<i8> = vec![tag; 4];
    build_frame(&raw, ts, 616)
}

fn ready_tag(p: NextPoll) -> i8 {
    match p {
        NextPoll::Ready(f) => f.sample(0),
        NextPoll::Pending => panic!("expected a frame, the queue is still waiting"),
        NextPoll::Closed => panic!("expected a frame, the channel is closed"),
    }
}

#[test]
fn zero_bounds_are_rejected_at_construction() {
    assert!(matches!(DistributionChannel::new(0, 2), Err(Error::ConfigError(_))));
    assert!(matches!(DistributionChannel::new(4, 0), Err(Error::ConfigError(_))));
    assert!(DistributionChannel::new(4, 2).is_ok());
}

#[test]
fn overflow_evicts_exactly_the_oldest_and_keeps_capture_order() {
    let mut ch = DistributionChannel::new(4, 2).unwrap();
    let sub = ch.subscribe().unwrap();
    // Publish N + 1 = 5 frames with no reads: the first is evicted, the
    // rest come out in capture order.
    for tag in 1..=5 {
        ch.publish(&frame(tag, tag as u64));
    }
    assert_eq!(ready_tag(ch.poll_next(sub)), 2);
    assert_eq!(ready_tag(ch.poll_next(sub)), 3);
    assert_eq!(ready_tag(ch.poll_next(sub)), 4);
    assert_eq!(ready_tag(ch.poll_next(sub)), 5);
    assert!(matches!(ch.poll_next(sub), NextPoll::Pending));
}

#[test]
fn each_extra_publish_evicts_one_more() {
    let mut ch = DistributionChannel::new(4, 1).unwrap();
    let sub = ch.subscribe().unwrap();
    for tag in 1..=7 {
        ch.publish(&frame(tag, 0));
    }
    // Seven publishes into a queue of four: frames 1-3 were evicted.
    for expect in 4..=7 {
        assert_eq!(ready_tag(ch.poll_next(sub)), expect);
    }
    assert!(matches!(ch.poll_next(sub), NextPoll::Pending));
}

#[test]
fn subscriber_beyond_the_bound_fails_and_leaves_the_rest_working() {
    let mut ch = DistributionChannel::new(4, 2).unwrap();
    let a = ch.subscribe().unwrap();
    let b = ch.subscribe().unwrap();
    assert_eq!(a, 0);
    assert_eq!(b, 1);
    // The third subscription fails with CSIError.
    assert!(matches!(ch.subscribe(), Err(Error::CSIError(_))));
    // The two existing subscribers still receive frames independently.
    ch.publish(&frame(9, 1));
    assert_eq!(ready_tag(ch.poll_next(a)), 9);
    assert_eq!(ready_tag(ch.poll_next(b)), 9);
    assert!(matches!(ch.poll_next(a), NextPoll::Pending));
}

#[test]
fn each_subscriber_has_an_independent_cursor() {
    let mut ch = DistributionChannel::new(4, 2).unwrap();
    let a = ch.subscribe().unwrap();
    ch.publish(&frame(1, 1));
    let b = ch.subscribe().unwrap();
    ch.publish(&frame(2, 2));
    // The first subscriber sees both frames; the late one only the second.
    assert_eq!(ready_tag(ch.poll_next(a)), 1);
    assert_eq!(ready_tag(ch.poll_next(a)), 2);
    assert_eq!(ready_tag(ch.poll_next(b)), 2);
    assert!(matches!(ch.poll_next(b), NextPoll::Pending));
}

#[test]
fn closing_is_terminal_and_drains_first() {
    let mut ch = DistributionChannel::new(4, 1).unwrap();
    let sub = ch.subscribe().unwrap();
    ch.publish(&frame(1, 1));
    ch.close();
    assert!(ch.is_closed());
    // The unread frame is still delivered, then closure is observed.
    assert_eq!(ready_tag(ch.poll_next(sub)), 1);
    assert!(matches!(ch.poll_next(sub), NextPoll::Closed));
    assert!(matches!(ch.poll_next(sub), NextPoll::Closed));
    // Closed is terminal: no new subscribers, published frames are dropped.
    assert!(matches!(ch.subscribe(), Err(Error::CSIError(_))));
    ch.publish(&frame(2, 2));
    assert!(matches!(ch.poll_next(sub), NextPoll::Closed));
}

#[test]
fn empty_open_queue_reports_pending() {
    let mut ch = DistributionChannel::new(4, 1).unwrap();
    let sub = ch.subscribe().unwrap();
    assert!(matches!(ch.poll_next(sub), NextPoll::Pending));
    assert_eq!(ch.capacity(), 4);
    assert_eq!(ch.max_subscribers(), 1);
    assert_eq!(ch.subscriber_count(), 1);
}
