//! What a controller reports: raw events, and a snapshot of the elements
//! that the backends query. Axis readings are fixed-point: `UNIT` is `1.0`.

use vstd::prelude::*;

verus! {

/// The fixed-point reading that stands for `1.0`.
pub const UNIT: i32 = 1_000_000;

/// True of a reading within `[-1.0, 1.0]`.
pub open spec fn in_axis_range(value: i32) -> bool {
    -UNIT <= value && value <= UNIT
}

/// True of a reading within `[0.0, 1.0]`.
pub open spec fn in_unit_range(value: i32) -> bool {
    0 <= value && value <= UNIT
}

/// A named axis of a controller.
#[derive(Clone, Copy, Debug, PartialEq, Eq, Structural)]
pub enum Axis {
    LeftStickX,
    LeftStickY,
    LeftZ,
    RightStickX,
    RightStickY,
    RightZ,
    DPadX,
    DPadY,
    Unknown,
}

/// A named button of a controller.
#[derive(Clone, Copy, Debug, PartialEq, Eq, Structural)]
pub enum Button {
    South,
    East,
    North,
    West,
    C,
    Z,
    LeftTrigger,
    LeftTrigger2,
    RightTrigger,
    RightTrigger2,
    Select,
    Start,
    Mode,
    LeftThumb,
    RightThumb,
    DPadUp,
    DPadDown,
    DPadLeft,
    DPadRight,
    Unknown,
}

/// One raw event. Button events carry the hardware's numeric code beside
/// the semantic name, since some wheels report only `Button::Unknown`.
#[derive(Clone, Copy, Debug, PartialEq, Eq, Structural)]
pub enum RawEvent {
    ButtonPressed(Button, u32),
    ButtonReleased(Button, u32),
    ButtonChanged(Button, i32),
    AxisChanged(Axis, i32),
    Connected,
    Disconnected,
    /// Anything else the source may deliver; no backend reacts to it.
    Other,
}

/// A raw event together with the id of the device that sent it.
#[derive(Clone, Copy, Debug, PartialEq, Eq, Structural)]
pub struct SourceEvent {
    pub id: usize,
    pub event: RawEvent,
}

/// The state of one device at one moment: whether each named button is
/// held, and the reading of each named axis.
#[derive(Clone, Copy, Debug, PartialEq, Eq, Structural)]
pub struct Snapshot {
    pub south: bool,
    pub east: bool,
    pub north: bool,
    pub west: bool,
    pub c: bool,
    pub z: bool,
    pub left_trigger: bool,
    pub left_trigger2: bool,
    pub right_trigger: bool,
    pub right_trigger2: bool,
    pub select: bool,
    pub start: bool,
    pub mode: bool,
    pub left_thumb: bool,
    pub right_thumb: bool,
    pub dpad_up: bool,
    pub dpad_down: bool,
    pub dpad_left: bool,
    pub dpad_right: bool,
    pub left_stick_x: i32,
    pub left_stick_y: i32,
    pub left_z: i32,
    pub right_stick_x: i32,
    pub right_stick_y: i32,
    pub right_z: i32,
    pub dpad_x: i32,
    pub dpad_y: i32,
}

impl Snapshot {
    /// The reading of `axis`. `Axis::Unknown` names no axis and reads zero.
    pub open spec fn axis(&self, axis: Axis) -> i32 {
        match axis {
            Axis::LeftStickX => self.left_stick_x,
            Axis::LeftStickY => self.left_stick_y,
            Axis::LeftZ => self.left_z,
            Axis::RightStickX => self.right_stick_x,
            Axis::RightStickY => self.right_stick_y,
            Axis::RightZ => self.right_z,
            Axis::DPadX => self.dpad_x,
            Axis::DPadY => self.dpad_y,
            Axis::Unknown => 0,
        }
    }

    /// Whether `button` is held. `Button::Unknown` names no button and is
    /// never held.
    pub open spec fn pressed(&self, button: Button) -> bool {
        match button {
            Button::South => self.south,
            Button::East => self.east,
            Button::North => self.north,
            Button::West => self.west,
            Button::C => self.c,
            Button::Z => self.z,
            Button::LeftTrigger => self.left_trigger,
            Button::LeftTrigger2 => self.left_trigger2,
            Button::RightTrigger => self.right_trigger,
            Button::RightTrigger2 => self.right_trigger2,
            Button::Select => self.select,
            Button::Start => self.start,
            Button::Mode => self.mode,
            Button::LeftThumb => self.left_thumb,
            Button::RightThumb => self.right_thumb,
            Button::DPadUp => self.dpad_up,
            Button::DPadDown => self.dpad_down,
            Button::DPadLeft => self.dpad_left,
            Button::DPadRight => self.dpad_right,
            Button::Unknown => false,
        }
    }

    /// A device at rest: nothing held, every axis centred.
    pub fn neutral() -> (s: Self)
        ensures
            forall|a: Axis| s.axis(a) == 0,
            forall|b: Button| !s.pressed(b),
    {
        Snapshot {
            south: false,
            east: false,
            north: false,
            west: false,
            c: false,
            z: false,
            left_trigger: false,
            left_trigger2: false,
            right_trigger: false,
            right_trigger2: false,
            select: false,
            start: false,
            mode: false,
            left_thumb: false,
            right_thumb: false,
            dpad_up: false,
            dpad_down: false,
            dpad_left: false,
            dpad_right: false,
            left_stick_x: 0,
            left_stick_y: 0,
            left_z: 0,
            right_stick_x: 0,
            right_stick_y: 0,
            right_z: 0,
            dpad_x: 0,
            dpad_y: 0,
        }
    }

    /// The reading of `axis`.
    pub fn value(&self, axis: Axis) -> (v: i32)
        ensures
            v == self.axis(axis),
    {
        match axis {
            Axis::LeftStickX => self.left_stick_x,
            Axis::LeftStickY => self.left_stick_y,
            Axis::LeftZ => self.left_z,
            Axis::RightStickX => self.right_stick_x,
            Axis::RightStickY => self.right_stick_y,
            Axis::RightZ => self.right_z,
            Axis::DPadX => self.dpad_x,
            Axis::DPadY => self.dpad_y,
            Axis::Unknown => 0,
        }
    }

    /// Whether `button` is held.
    pub fn is_pressed(&self, button: Button) -> (p: bool)
        ensures
            p == self.pressed(button),
    {
        match button {
            Button::South => self.south,
            Button::East => self.east,
            Button::North => self.north,
            Button::West => self.west,
            Button::C => self.c,
            Button::Z => self.z,
            Button::LeftTrigger => self.left_trigger,
            Button::LeftTrigger2 => self.left_trigger2,
            Button::RightTrigger => self.right_trigger,
            Button::RightTrigger2 => self.right_trigger2,
            Button::Select => self.select,
            Button::Start => self.start,
            Button::Mode => self.mode,
            Button::LeftThumb => self.left_thumb,
            Button::RightThumb => self.right_thumb,
            Button::DPadUp => self.dpad_up,
            Button::DPadDown => self.dpad_down,
            Button::DPadLeft => self.dpad_left,
            Button::DPadRight => self.dpad_right,
            Button::Unknown => false,
        }
    }
}

/// The size of a reading: `|value|`, saturating at `i32::MAX`.
pub open spec fn magnitude(value: i32) -> i32 {
    if value >= 0 {
        value
    } else if value == i32::MIN {
        i32::MAX
    } else {
        (-value) as i32
    }
}

/// Computes `magnitude`.
pub fn abs(value: i32) -> (m: i32)
    ensures
        m == magnitude(value),
        m >= 0,
{
    if value >= 0 {
        value
    } else if value == i32::MIN {
        i32::MAX
    } else {
        -value
    }
}

/// Half the gap between `raw` and full deflection, `(1 - raw) / 2`: a pedal
/// that rests at `+1.0` and bottoms out at `-1.0` reads `0.0` to `1.0`.
pub open spec fn released_high(raw: i32) -> int {
    (UNIT - raw) / 2
}

/// Computes `released_high`.
pub fn from_released_high(raw: i32) -> (v: i32)
    ensures
        v == released_high(raw),
        in_axis_range(raw) ==> in_unit_range(v),
{
    let gap: i64 = UNIT as i64 - raw as i64;
    if gap >= 0 {
        (gap / 2) as i32
    } else {
        // Round towards negative infinity, as for non-negative gaps.
        let below: i64 = (gap - 1) / 2;
        below as i32
    }
}

} // verus!
