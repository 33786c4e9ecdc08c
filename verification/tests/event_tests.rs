use steering::event::{normalise, Channel, Event, Polarity, Throttle};
use steering::input::{abs, from_released_high, Axis, Button, RawEvent, Snapshot, UNIT};

const TRIGGER: Throttle = Throttle { channel: Channel::Trigger, polarity: Polarity::Direct };
const PEDAL: Throttle = Throttle { channel: Channel::Pedal, polarity: Polarity::ReleasedHigh };

fn moving() -> Event {
    Event { gear: 3, speed: 400_000, direction: -250_000 }
}

#[test]
fn released_high_formula() {
    assert_eq!(from_released_high(UNIT), 0);
    assert_eq!(from_released_high(-UNIT), UNIT);
    assert_eq!(from_released_high(0), 500_000);
    assert_eq!(from_released_high(500_000), 250_000);
    assert_eq!(from_released_high(-500_000), 750_000);
    assert_eq!(from_released_high(999_999), 0);
    assert_eq!(from_released_high(999_998), 1);
}

#[test]
fn released_high_out_of_range_rounds_down() {
    assert_eq!(from_released_high(UNIT + 4), -2);
    assert_eq!(from_released_high(UNIT + 3), -2);
    assert_eq!(from_released_high(UNIT + 1), -1);
    assert_eq!(from_released_high(i32::MAX), (1_000_000i64 - i32::MAX as i64 - 1) as i32 / 2);
    assert_eq!(from_released_high(i32::MIN), ((1_000_000i64 - i32::MIN as i64) / 2) as i32);
}

#[test]
fn magnitude_of_readings() {
    assert_eq!(abs(0), 0);
    assert_eq!(abs(7), 7);
    assert_eq!(abs(-7), 7);
    assert_eq!(abs(i32::MIN), i32::MAX);
    assert_eq!(abs(i32::MIN + 1), i32::MAX);
}

#[test]
fn normalise_by_polarity() {
    assert_eq!(normalise(300_000, Polarity::Direct), 300_000);
    assert_eq!(normalise(300_000, Polarity::ReleasedHigh), 350_000);
}

#[test]
fn new_event_rests_in_first_gear() {
    assert_eq!(Event::new(), Event { gear: 1, speed: 0, direction: 0 });
}

#[test]
fn disconnect_zeroes_axes_and_keeps_gear() {
    for gear in [-2, -1, 1, 2, 3, 4, 5] {
        for throttle in [TRIGGER, PEDAL] {
            let mut e = Event { gear, speed: 123, direction: -456 };
            assert!(e.update(RawEvent::Disconnected, throttle));
            assert_eq!(e, Event { gear, speed: 0, direction: 0 });
        }
    }
}

#[test]
fn steering_axis_passes_through() {
    let mut e = moving();
    assert!(e.update(RawEvent::AxisChanged(Axis::LeftStickX, 777_000), TRIGGER));
    assert_eq!(e, Event { gear: 3, speed: 400_000, direction: 777_000 });
    assert!(e.update(RawEvent::AxisChanged(Axis::LeftStickX, -UNIT), PEDAL));
    assert_eq!(e.direction, -UNIT);
}

#[test]
fn trigger_sets_speed_directly() {
    let mut e = moving();
    assert!(e.update(RawEvent::ButtonChanged(Button::RightTrigger2, 900_000), TRIGGER));
    assert_eq!(e, Event { gear: 3, speed: 900_000, direction: -250_000 });
}

#[test]
fn pedal_sets_speed_inverted() {
    let mut e = moving();
    assert!(e.update(RawEvent::AxisChanged(Axis::RightZ, -UNIT), PEDAL));
    assert_eq!(e, Event { gear: 3, speed: UNIT, direction: -250_000 });
    assert!(e.update(RawEvent::AxisChanged(Axis::RightZ, UNIT), PEDAL));
    assert_eq!(e.speed, 0);
    assert!(e.update(RawEvent::AxisChanged(Axis::RightZ, 200_000), PEDAL));
    assert_eq!(e.speed, 400_000);
}

#[test]
fn the_other_channel_is_ignored() {
    let mut e = moving();
    assert!(!e.update(RawEvent::AxisChanged(Axis::RightZ, 5), TRIGGER));
    assert!(!e.update(RawEvent::ButtonChanged(Button::RightTrigger2, 5), PEDAL));
    assert_eq!(e, moving());
}

#[test]
fn pedal_channel_with_direct_polarity() {
    let throttle = Throttle { channel: Channel::Pedal, polarity: Polarity::Direct };
    let mut e = moving();
    assert!(e.update(RawEvent::AxisChanged(Axis::RightZ, 123_456), throttle));
    assert_eq!(e.speed, 123_456);
}

#[test]
fn north_is_hold_to_reverse() {
    let mut e = Event::new();
    assert!(e.update(RawEvent::ButtonPressed(Button::North, 0), TRIGGER));
    assert_eq!(e.gear, -1);
    assert!(!e.update(RawEvent::ButtonPressed(Button::North, 0), TRIGGER));
    assert_eq!(e.gear, -1);
    assert!(e.update(RawEvent::ButtonReleased(Button::North, 0), TRIGGER));
    assert_eq!(e.gear, 1);
    assert!(!e.update(RawEvent::ButtonReleased(Button::North, 0), TRIGGER));
    assert_eq!(e.gear, 1);
}

#[test]
fn west_and_south_shift_on_release() {
    let mut e = Event::new();
    assert!(e.update(RawEvent::ButtonReleased(Button::West, 0), TRIGGER));
    assert_eq!(e.gear, 2);
    assert!(!e.update(RawEvent::ButtonPressed(Button::West, 0), TRIGGER));
    assert_eq!(e.gear, 2);
    assert!(e.update(RawEvent::ButtonReleased(Button::South, 0), TRIGGER));
    assert_eq!(e.gear, 1);
    assert!(!e.update(RawEvent::ButtonReleased(Button::South, 0), TRIGGER));
    assert_eq!(e.gear, 1);
}

#[test]
fn shifting_up_at_the_top_is_no_modification() {
    let mut e = Event { gear: 5, speed: 1, direction: 2 };
    assert!(!e.update(RawEvent::ButtonReleased(Button::West, 0), PEDAL));
    assert_eq!(e, Event { gear: 5, speed: 1, direction: 2 });
    assert!(!e.gear_up());
    assert!(e.gear_down());
    assert_eq!(e.gear, 4);
}

#[test]
fn unmatched_events_are_no_modification() {
    for ty in [
        RawEvent::Connected,
        RawEvent::Other,
        RawEvent::ButtonPressed(Button::East, 3),
        RawEvent::ButtonReleased(Button::Start, 3),
        RawEvent::ButtonChanged(Button::LeftTrigger2, 9),
        RawEvent::AxisChanged(Axis::LeftStickY, 9),
        RawEvent::AxisChanged(Axis::LeftZ, 9),
    ] {
        let mut e = moving();
        assert!(!e.update(ty, TRIGGER));
        assert_eq!(e, moving());
    }
}

#[test]
fn snapshot_queries() {
    let mut device = Snapshot::neutral();
    assert_eq!(device.value(Axis::LeftStickX), 0);
    assert!(!device.is_pressed(Button::North));
    device.left_z = 5;
    device.right_stick_y = -6;
    device.dpad_left = true;
    assert_eq!(device.value(Axis::LeftZ), 5);
    assert_eq!(device.value(Axis::RightStickY), -6);
    assert_eq!(device.value(Axis::RightZ), 0);
    assert_eq!(device.value(Axis::Unknown), 0);
    assert!(device.is_pressed(Button::DPadLeft));
    assert!(!device.is_pressed(Button::DPadRight));
    assert!(!device.is_pressed(Button::Start));
}

#[test]
fn snapshot_holds_every_named_element() {
    let axes = [
        Axis::LeftStickX,
        Axis::LeftStickY,
        Axis::LeftZ,
        Axis::RightStickX,
        Axis::RightStickY,
        Axis::RightZ,
        Axis::DPadX,
        Axis::DPadY,
    ];
    let mut device = Snapshot::neutral();
    device.left_stick_x = 1;
    device.left_stick_y = 2;
    device.left_z = 3;
    device.right_stick_x = 4;
    device.right_stick_y = 5;
    device.right_z = 6;
    device.dpad_x = 7;
    device.dpad_y = 8;
    for (k, axis) in axes.into_iter().enumerate() {
        assert_eq!(device.value(axis), k as i32 + 1);
    }
    assert_eq!(device.value(Axis::Unknown), 0);

    let buttons = [
        Button::South,
        Button::East,
        Button::North,
        Button::West,
        Button::C,
        Button::Z,
        Button::LeftTrigger,
        Button::LeftTrigger2,
        Button::RightTrigger,
        Button::RightTrigger2,
        Button::Select,
        Button::Start,
        Button::Mode,
        Button::LeftThumb,
        Button::RightThumb,
        Button::DPadUp,
        Button::DPadDown,
        Button::DPadLeft,
        Button::DPadRight,
    ];
    for held in 0..buttons.len() {
        let mut device = Snapshot::neutral();
        match held {
            0 => device.south = true,
            1 => device.east = true,
            2 => device.north = true,
            3 => device.west = true,
            4 => device.c = true,
            5 => device.z = true,
            6 => device.left_trigger = true,
            7 => device.left_trigger2 = true,
            8 => device.right_trigger = true,
            9 => device.right_trigger2 = true,
            10 => device.select = true,
            11 => device.start = true,
            12 => device.mode = true,
            13 => device.left_thumb = true,
            14 => device.right_thumb = true,
            15 => device.dpad_up = true,
            16 => device.dpad_down = true,
            17 => device.dpad_left = true,
            _ => device.dpad_right = true,
        }
        for (k, button) in buttons.into_iter().enumerate() {
            assert_eq!(device.is_pressed(button), k == held);
        }
        assert!(!device.is_pressed(Button::Unknown));
    }
}
