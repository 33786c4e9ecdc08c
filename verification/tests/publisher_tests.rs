use steering::event::{Channel, Event, Polarity, Throttle};
use steering::input::{Axis, Button, RawEvent};
use steering::publisher::{replay, Intake, Publisher, Round, MIN_SLEEP, SLEEP_STEP};

const TRIGGER: Throttle = Throttle { channel: Channel::Trigger, polarity: Polarity::Direct };
const MS: u64 = 1_000_000;

fn at_100_hz() -> Publisher {
    Publisher::new(100, TRIGGER, 0).unwrap()
}

#[test]
fn zero_frequency_is_refused() {
    assert_eq!(Publisher::new(0, TRIGGER, 0), None);
}

#[test]
fn period_is_the_inverse_of_the_frequency() {
    assert_eq!(at_100_hz().period, 10 * MS);
    assert_eq!(Publisher::new(1, TRIGGER, 0).unwrap().period, 1_000_000_000);
    assert_eq!(Publisher::new(3, TRIGGER, 0).unwrap().period, 333_333_333);
    assert_eq!(Publisher::new(u32::MAX, TRIGGER, 0).unwrap().period, 0);
}

#[test]
fn a_new_publisher_is_idle() {
    let p = Publisher::new(100, TRIGGER, 55).unwrap();
    assert_eq!(
        p,
        Publisher {
            event: Event { gear: 1, speed: 0, direction: 0 },
            throttle: TRIGGER,
            period: 10 * MS,
            last_emit: 55,
            pending: false,
            interval: MIN_SLEEP,
        }
    );
}

#[test]
fn a_short_period_caps_the_first_sleep() {
    let p = Publisher::new(4000, TRIGGER, 0).unwrap();
    assert_eq!(p.period, 250_000);
    assert_eq!(p.interval, 250_000);
}

#[test]
fn idle_sleep_grows_to_the_period_and_stays() {
    let mut p = at_100_hz();
    let mut previous = 0;
    for round in 0..20u64 {
        let intake = p.absorb(None);
        let expected = std::cmp::min(MIN_SLEEP + round * SLEEP_STEP, 10 * MS);
        assert_eq!(intake, Intake { modified: false, sleep: Some(expected) });
        assert!(expected >= previous);
        previous = expected;
        assert_eq!(p.settle(1_000 * MS), None);
    }
    assert_eq!(p.interval, 10 * MS);
}

#[test]
fn idle_sleep_cap_is_not_a_multiple_of_the_step() {
    let mut p = Publisher::new(400, TRIGGER, 0).unwrap();
    assert_eq!(p.period, 2_500_000);
    assert_eq!(p.absorb(None).sleep, Some(1_000_000));
    assert_eq!(p.absorb(None).sleep, Some(2_000_000));
    assert_eq!(p.absorb(None).sleep, Some(2_500_000));
    assert_eq!(p.absorb(None).sleep, Some(2_500_000));
}

#[test]
fn a_change_resets_the_idle_sleep() {
    let mut p = at_100_hz();
    for _ in 0..5 {
        p.absorb(None);
    }
    assert_eq!(p.interval, 6 * MS);
    let intake = p.absorb(Some(RawEvent::AxisChanged(Axis::LeftStickX, 5)));
    assert_eq!(intake, Intake { modified: true, sleep: None });
    assert_eq!(p.interval, MIN_SLEEP);
    assert!(p.pending);
}

#[test]
fn an_event_that_changes_nothing_keeps_the_idle_sleep() {
    let mut p = at_100_hz();
    p.absorb(None);
    p.absorb(None);
    let intake = p.absorb(Some(RawEvent::ButtonPressed(Button::East, 0)));
    assert_eq!(intake, Intake { modified: false, sleep: None });
    assert_eq!(p.interval, 3 * MS);
    assert!(!p.pending);
}

#[test]
fn a_change_is_published_when_the_period_has_passed() {
    let mut p = at_100_hz();
    p.absorb(Some(RawEvent::AxisChanged(Axis::LeftStickX, 5)));
    assert_eq!(p.settle(10 * MS), Some((10 * MS, Event { gear: 1, speed: 0, direction: 5 })));
    assert_eq!(p.last_emit, 10 * MS);
    assert!(!p.pending);
}

#[test]
fn a_change_waits_for_the_period() {
    let mut p = at_100_hz();
    p.absorb(Some(RawEvent::AxisChanged(Axis::LeftStickX, 5)));
    assert_eq!(p.settle(10 * MS - 1), None);
    assert!(p.pending);
    assert_eq!(p.last_emit, 0);
    // No sleep while the change waits.
    assert_eq!(p.absorb(None), Intake { modified: false, sleep: None });
    assert_eq!(p.interval, MIN_SLEEP);
    assert_eq!(p.settle(10 * MS), Some((10 * MS, Event { gear: 1, speed: 0, direction: 5 })));
    assert_eq!(p.absorb(None).sleep, Some(MIN_SLEEP));
}

#[test]
fn nothing_is_published_without_a_change() {
    let mut p = at_100_hz();
    p.absorb(None);
    assert_eq!(p.settle(500 * MS), None);
    p.absorb(Some(RawEvent::Other));
    assert_eq!(p.settle(900 * MS), None);
    assert_eq!(p.last_emit, 0);
}

#[test]
fn a_clock_that_runs_backwards_publishes_nothing() {
    let mut p = Publisher::new(100, TRIGGER, 50 * MS).unwrap();
    p.absorb(Some(RawEvent::Disconnected));
    assert_eq!(p.settle(0), None);
    assert!(p.pending);
}

#[test]
fn replay_collects_snapshots_in_order() {
    let mut p = at_100_hz();
    let steer = |v: i32| Some(RawEvent::AxisChanged(Axis::LeftStickX, v));
    let rounds = vec![
        Round { input: steer(1), now: 2 * MS },
        Round { input: steer(2), now: 4 * MS },
        Round { input: None, now: 9 * MS },
        Round { input: None, now: 11 * MS },
        Round { input: None, now: 13 * MS },
        Round { input: steer(3), now: 15 * MS },
        Round { input: Some(RawEvent::ButtonReleased(Button::West, 0)), now: 21 * MS },
        Round { input: None, now: 40 * MS },
    ];
    let out = replay(&mut p, &rounds);
    assert_eq!(
        out,
        vec![
            (11 * MS, Event { gear: 1, speed: 0, direction: 2 }),
            (21 * MS, Event { gear: 2, speed: 0, direction: 3 }),
        ]
    );
    assert_eq!(p.last_emit, 21 * MS);
    assert!(!p.pending);
    for pair in out.windows(2) {
        assert!(pair[1].0 - pair[0].0 >= p.period);
    }
}

#[test]
fn replay_of_nothing_changes_nothing() {
    let mut p = at_100_hz();
    assert_eq!(replay(&mut p, &vec![]), vec![]);
    assert_eq!(p, at_100_hz());
}

#[test]
fn validity_of_a_publisher() {
    let good = at_100_hz();
    assert!(good.valid());
    assert!(!Publisher { interval: 0, ..good }.valid());
    assert!(!Publisher { interval: 10 * MS + 1, ..good }.valid());
    assert!(!Publisher { period: 2_000_000_000, interval: MS, ..good }.valid());
    assert!(!Publisher { event: Event { gear: 0, speed: 0, direction: 0 }, ..good }.valid());
    assert!(Publisher { period: 0, interval: 0, ..good }.valid());
}
