use traffic_shaper::driver::is_ordered;
use traffic_shaper::{ApplyConfig, Decision, Driver, Events, PacketLoss};

const SECOND: u64 = 1_000_000_000;

fn event(time: u64, latency: u32) -> Events {
    Events {
        time,
        latency,
        bandwidth: 1_000 * latency as u64,
        packet_loss: PacketLoss::from_bits((latency as f32).to_bits()),
    }
}

fn change(latency: u32) -> ApplyConfig {
    ApplyConfig {
        packet_loss: PacketLoss::from_bits((latency as f32).to_bits()),
        latency,
        max_bandwidth: 1_000 * latency as u64,
    }
}

#[test]
fn events_with_equal_offsets_apply_back_to_back() {
    let epoch = 7 * SECOND;
    let mut driver =
        Driver::new(vec![event(0, 1), event(2, 2), event(2, 3), event(5, 4)], epoch);
    assert_eq!(driver.poll(epoch), Decision::Apply(change(1)));
    driver.applied();
    assert_eq!(driver.poll(epoch), Decision::Sleep { deadline: (epoch + 2 * SECOND) as u128 });
    // Woken early: nothing is applied, and the wait is for the same deadline.
    assert_eq!(
        driver.poll(epoch + SECOND),
        Decision::Sleep { deadline: (epoch + 2 * SECOND) as u128 }
    );
    assert_eq!(
        driver.poll(epoch + 2 * SECOND - 1),
        Decision::Sleep { deadline: (epoch + 2 * SECOND) as u128 }
    );
    assert_eq!(driver.position(), 1);
    let now = epoch + 2 * SECOND;
    assert_eq!(driver.poll(now), Decision::Apply(change(2)));
    driver.applied();
    assert_eq!(driver.poll(now), Decision::Apply(change(3)));
    driver.applied();
    assert_eq!(driver.poll(now), Decision::Sleep { deadline: (epoch + 5 * SECOND) as u128 });
    assert_eq!(driver.position(), 3);
    assert_eq!(driver.poll(epoch + 5 * SECOND), Decision::Apply(change(4)));
    driver.applied();
    assert_eq!(driver.poll(epoch + 5 * SECOND), Decision::Complete);
    assert_eq!(driver.position(), 4);
}

#[test]
fn late_wake_applies_everything_that_is_due() {
    let epoch = 3;
    let mut driver = Driver::new(vec![event(1, 1), event(3, 2)], epoch);
    let now = epoch + 10 * SECOND;
    assert_eq!(driver.poll(now), Decision::Apply(change(1)));
    driver.applied();
    assert_eq!(driver.poll(now), Decision::Apply(change(2)));
    driver.applied();
    assert_eq!(driver.poll(now), Decision::Complete);
    assert_eq!(driver.poll(now), Decision::Complete);
    assert_eq!(driver.position(), 2);
}

#[test]
fn poll_does_not_move_past_an_event() {
    let mut driver = Driver::new(vec![event(0, 1), event(0, 2)], 0);
    // Until its change is applied, the event is handed out again.
    assert_eq!(driver.poll(5), Decision::Apply(change(1)));
    assert_eq!(driver.position(), 0);
    assert_eq!(driver.poll(5), Decision::Apply(change(1)));
    assert_eq!(driver.position(), 0);
    driver.applied();
    assert_eq!(driver.position(), 1);
    assert_eq!(driver.poll(5), Decision::Apply(change(2)));
    assert_eq!(driver.position(), 1);
}

#[test]
fn applied_stays_at_the_end_of_the_timeline() {
    let mut driver = Driver::new(vec![event(0, 1)], 0);
    driver.applied();
    assert_eq!(driver.position(), 1);
    driver.applied();
    assert_eq!(driver.position(), 1);
    assert_eq!(driver.poll(0), Decision::Complete);
    let mut empty = Driver::new(Vec::new(), 0);
    empty.applied();
    assert_eq!(empty.position(), 0);
}

#[test]
fn empty_timeline_is_complete_at_once() {
    let driver = Driver::new(Vec::new(), 0);
    assert_eq!(driver.poll(0), Decision::Complete);
    assert_eq!(driver.position(), 0);
}

#[test]
fn event_is_due_exactly_at_its_deadline() {
    let driver = Driver::new(vec![event(1, 1)], 500);
    assert_eq!(driver.poll(SECOND + 499), Decision::Sleep { deadline: (SECOND + 500) as u128 });
    assert_eq!(driver.poll(SECOND + 500), Decision::Apply(change(1)));
}

#[test]
fn deadline_beyond_the_clock_does_not_wrap() {
    let driver = Driver::new(vec![event(u64::MAX, 1)], u64::MAX);
    let deadline = u64::MAX as u128 + u64::MAX as u128 * SECOND as u128;
    assert_eq!(driver.poll(u64::MAX), Decision::Sleep { deadline });
    assert_eq!(driver.position(), 0);
}

#[test]
fn out_of_order_timeline_is_walked_in_list_order() {
    let mut driver = Driver::new(vec![event(5, 1), event(2, 2)], 0);
    assert_eq!(driver.poll(3 * SECOND), Decision::Sleep { deadline: 5 * SECOND as u128 });
    assert_eq!(driver.poll(5 * SECOND), Decision::Apply(change(1)));
    driver.applied();
    assert_eq!(driver.poll(5 * SECOND), Decision::Apply(change(2)));
    driver.applied();
    assert_eq!(driver.poll(5 * SECOND), Decision::Complete);
}

#[test]
fn restart_goes_back_to_the_first_event() {
    let mut driver = Driver::new(vec![event(0, 1), event(1, 2)], 0);
    assert_eq!(driver.poll(0), Decision::Apply(change(1)));
    driver.applied();
    assert_eq!(driver.position(), 1);
    driver.restart(10 * SECOND);
    assert_eq!(driver.position(), 0);
    assert_eq!(driver.poll(0), Decision::Sleep { deadline: 10 * SECOND as u128 });
    assert_eq!(driver.poll(10 * SECOND), Decision::Apply(change(1)));
    driver.applied();
    assert_eq!(driver.poll(10 * SECOND), Decision::Sleep { deadline: 11 * SECOND as u128 });
}

#[test]
fn ordered_timelines_are_told_apart() {
    assert!(is_ordered(&Vec::new()));
    assert!(is_ordered(&vec![event(3, 1)]));
    assert!(is_ordered(&vec![event(0, 1), event(2, 2), event(2, 3), event(5, 4)]));
    assert!(!is_ordered(&vec![event(5, 1), event(2, 2)]));
    assert!(!is_ordered(&vec![event(0, 1), event(2, 2), event(1, 3), event(5, 4)]));
    assert!(!is_ordered(&vec![event(0, 1), event(1, 2), event(2, 3), event(1, 4)]));
}
