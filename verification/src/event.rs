//! The normalised record of the push model, and the rules by which a raw
//! event of an arcade wheel changes it.

use vstd::prelude::*;
use crate::gear;
use crate::input::{from_released_high, released_high, Axis, Button, RawEvent};

verus! {

/// Which element of the device carries the throttle.
#[derive(Clone, Copy, Debug, PartialEq, Eq, Structural)]
pub enum Channel {
    /// The right trigger, reported as a button value.
    Trigger,
    /// The right Z axis.
    Pedal,
}

/// How the raw throttle reading relates to the speed.
#[derive(Clone, Copy, Debug, PartialEq, Eq, Structural)]
pub enum Polarity {
    /// The reading is the speed.
    Direct,
    /// The released pedal reads `+1.0`: the speed is `(1 - raw) / 2`.
    ReleasedHigh,
}

/// The throttle convention of one backend.
#[derive(Clone, Copy, Debug, PartialEq, Eq, Structural)]
pub struct Throttle {
    pub channel: Channel,
    pub polarity: Polarity,
}

/// Gear, speed in `[0, 1]` and direction in `[-1, 1]`, the latter two in
/// fixed point.
#[derive(Clone, Copy, Debug, PartialEq, Eq, Structural)]
pub struct Event {
    pub gear: i8,
    pub speed: i32,
    pub direction: i32,
}

/// The speed that a raw throttle reading stands for.
pub open spec fn speed_of(raw: i32, polarity: Polarity) -> int {
    match polarity {
        Polarity::Direct => raw as int,
        Polarity::ReleasedHigh => released_high(raw),
    }
}

/// Whether `ty` is a reading of the throttle under `throttle`, and if so,
/// the raw value.
pub open spec fn throttle_reading(ty: RawEvent, throttle: Throttle) -> Option<i32> {
    match (ty, throttle.channel) {
        (RawEvent::ButtonChanged(Button::RightTrigger2, raw), Channel::Trigger) => Some(raw),
        (RawEvent::AxisChanged(Axis::RightZ, raw), Channel::Pedal) => Some(raw),
        _ => None,
    }
}

/// The record after `ty` and whether `ty` counts as a modification.
///
/// A disconnect zeroes speed and direction; the left stick's X axis is the
/// direction; the throttle channel sets the speed; north is the
/// hold-to-reverse control; releasing west shifts up and releasing south
/// shifts down. Every other event leaves the record and is no modification.
pub open spec fn updated(e: Event, ty: RawEvent, throttle: Throttle) -> (Event, bool) {
    if ty == RawEvent::Disconnected {
        (Event { gear: e.gear, speed: 0, direction: 0 }, true)
    } else if let RawEvent::AxisChanged(Axis::LeftStickX, value) = ty {
        (Event { gear: e.gear, speed: e.speed, direction: value }, true)
    } else if let Some(raw) = throttle_reading(ty, throttle) {
        (
            Event {
                gear: e.gear,
                speed: speed_of(raw, throttle.polarity) as i32,
                direction: e.direction,
            },
            true,
        )
    } else {
        let gear = match ty {
            RawEvent::ButtonPressed(Button::North, _) => gear::reverse_pressed(e.gear),
            RawEvent::ButtonReleased(Button::North, _) => gear::reverse_released(e.gear),
            RawEvent::ButtonReleased(Button::West, _) => gear::up(e.gear),
            RawEvent::ButtonReleased(Button::South, _) => gear::down(e.gear),
            _ => e.gear,
        };
        (Event { gear, speed: e.speed, direction: e.direction }, gear != e.gear)
    }
}

impl Event {
    /// The gear is a member of the gear domain.
    pub open spec fn wf(&self) -> bool {
        gear::valid_level(self.gear)
    }

    /// The record of a device at rest in first gear.
    pub fn new() -> (e: Self)
        ensures
            e == (Event { gear: gear::FIRST, speed: 0, direction: 0 }),
            e.wf(),
    {
        Event { gear: gear::FIRST, speed: 0, direction: 0 }
    }

    /// Up-shift. Returns whether the gear changed.
    pub fn gear_up(&mut self) -> (changed: bool)
        ensures
            *final(self) == (Event { gear: gear::up(old(self).gear), ..*old(self) }),
            changed == (final(self).gear != old(self).gear),
    {
        let (level, changed) = gear::advance_up(self.gear);
        self.gear = level;
        changed
    }

    /// Down-shift. Returns whether the gear changed.
    pub fn gear_down(&mut self) -> (changed: bool)
        ensures
            *final(self) == (Event { gear: gear::down(old(self).gear), ..*old(self) }),
            changed == (final(self).gear != old(self).gear),
    {
        let (level, changed) = gear::advance_down(self.gear);
        self.gear = level;
        changed
    }

    /// Applies one raw event under the throttle convention `throttle` and
    /// returns whether the event counts as a modification.
    pub fn update(&mut self, ty: RawEvent, throttle: Throttle) -> (modified: bool)
        ensures
            (*final(self), modified) == updated(*old(self), ty, throttle),
            old(self).wf() ==> final(self).wf(),
    {
        match ty {
            RawEvent::Disconnected => {
                self.speed = 0;
                self.direction = 0;
                true
            },
            RawEvent::AxisChanged(Axis::LeftStickX, value) => {
                self.direction = value;
                true
            },
            RawEvent::ButtonChanged(Button::RightTrigger2, raw) => {
                match throttle.channel {
                    Channel::Trigger => {
                        self.speed = normalise(raw, throttle.polarity);
                        true
                    },
                    Channel::Pedal => false,
                }
            },
            RawEvent::AxisChanged(Axis::RightZ, raw) => {
                match throttle.channel {
                    Channel::Pedal => {
                        self.speed = normalise(raw, throttle.polarity);
                        true
                    },
                    Channel::Trigger => false,
                }
            },
            RawEvent::ButtonPressed(Button::North, _) => {
                let (level, changed) = gear::press_reverse(self.gear);
                self.gear = level;
                changed
            },
            RawEvent::ButtonReleased(Button::North, _) => {
                let (level, changed) = gear::release_reverse(self.gear);
                self.gear = level;
                changed
            },
            RawEvent::ButtonReleased(Button::West, _) => self.gear_up(),
            RawEvent::ButtonReleased(Button::South, _) => self.gear_down(),
            _ => false,
        }
    }
}

/// The speed that a raw throttle reading stands for.
pub fn normalise(raw: i32, polarity: Polarity) -> (speed: i32)
    ensures
        speed == speed_of(raw, polarity),
{
    match polarity {
        Polarity::Direct => raw,
        Polarity::ReleasedHigh => from_released_high(raw),
    }
}

/// A disconnect zeroes speed and direction, keeps the gear, and counts as
/// a modification, whatever the record held and whatever the throttle
/// convention.
pub proof fn lemma_disconnect_resets(e: Event, throttle: Throttle)
    ensures
        updated(e, RawEvent::Disconnected, throttle) == (
            Event { gear: e.gear, speed: 0, direction: 0 },
            true,
        ),
{
}

/// No raw event takes the gear out of the gear domain.
pub proof fn lemma_update_keeps_gear_valid(e: Event, ty: RawEvent, throttle: Throttle)
    requires
        e.wf(),
    ensures
        updated(e, ty, throttle).0.wf(),
{
}

/// An event that is no modification leaves the record as it was.
pub proof fn lemma_unmodified_is_unchanged(e: Event, ty: RawEvent, throttle: Throttle)
    requires
        !updated(e, ty, throttle).1,
    ensures
        updated(e, ty, throttle).0 == e,
{
}

} // verus!
