//! The generic gamepad: shifting by the start and select buttons, and a
//! two-axis vector taken from the face buttons, the d-pad or the sticks.

use vstd::prelude::*;
use crate::context::{active_after, Context};
use crate::gear;
use crate::input::{abs, magnitude, Button, RawEvent, Snapshot, SourceEvent, UNIT};
use crate::Status;

verus! {

/// The gamepad's state: its device context.
#[derive(Clone, Copy, Debug, PartialEq, Eq, Structural)]
pub struct XBox360(pub Context);

/// The sign chosen by a pair of opposed buttons: the first alone gives
/// `1`, the second alone `-1`, both together or neither `0`.
pub open spec fn opposed(first: bool, second: bool) -> int {
    if first && !second {
        1
    } else if second && !first {
        -1
    } else {
        0
    }
}

/// Of two readings, the one of larger size; the second on a tie.
pub open spec fn larger(first: i32, second: i32) -> i32 {
    if magnitude(first) > magnitude(second) {
        first
    } else {
        second
    }
}

/// The pair `(y, x)` that a device in state `d` stands for. A held face
/// button decides both axes, north against south for `y` and west
/// against east for `x`; failing that a held d-pad direction does, up
/// against down and left against right; failing that each axis is the
/// larger of the two sticks' readings.
pub open spec fn mapped(d: Snapshot) -> (i32, i32) {
    if d.north || d.south || d.west || d.east {
        ((opposed(d.north, d.south) * UNIT) as i32, (opposed(d.west, d.east) * UNIT) as i32)
    } else if d.dpad_up || d.dpad_down || d.dpad_left || d.dpad_right {
        (
            (opposed(d.dpad_up, d.dpad_down) * UNIT) as i32,
            (opposed(d.dpad_left, d.dpad_right) * UNIT) as i32,
        )
    } else {
        (larger(d.left_stick_y, d.right_stick_y), larger(d.left_stick_x, d.right_stick_x))
    }
}

/// The larger of the sizes of `y` and `x`.
pub open spec fn radius(y: i32, x: i32) -> i32 {
    if magnitude(x) >= magnitude(y) {
        magnitude(x)
    } else {
        magnitude(y)
    }
}

/// The level after an event: releasing start shifts up, releasing select
/// shifts down; nothing else moves the level.
pub open spec fn level_after(level: i8, event: RawEvent) -> i8 {
    match event {
        RawEvent::ButtonReleased(Button::Start, _) => gear::up(level),
        RawEvent::ButtonReleased(Button::Select, _) => gear::down(level),
        _ => level,
    }
}

/// A pair of signs as a pair of full deflections.
pub fn button(y: i8, x: i8) -> (r: (i32, i32))
    ensures
        r.0 == y * UNIT,
        r.1 == x * UNIT,
{
    let wide_y: i32 = y as i32;
    let wide_x: i32 = x as i32;
    (wide_y * UNIT, wide_x * UNIT)
}

/// Computes `opposed`.
pub fn sign(first: bool, second: bool) -> (s: i8)
    ensures
        s == opposed(first, second),
{
    if first && !second {
        1
    } else if second && !first {
        -1
    } else {
        0
    }
}

/// Computes `mapped`.
pub fn map(gamepad: &Snapshot) -> (r: (i32, i32))
    ensures
        r == mapped(*gamepad),
{
    if gamepad.north || gamepad.south || gamepad.west || gamepad.east {
        button(sign(gamepad.north, gamepad.south), sign(gamepad.west, gamepad.east))
    } else if gamepad.dpad_up || gamepad.dpad_down || gamepad.dpad_left || gamepad.dpad_right {
        button(
            sign(gamepad.dpad_up, gamepad.dpad_down),
            sign(gamepad.dpad_left, gamepad.dpad_right),
        )
    } else {
        let x = if abs(gamepad.left_stick_x) > abs(gamepad.right_stick_x) {
            gamepad.left_stick_x
        } else {
            gamepad.right_stick_x
        };
        let y = if abs(gamepad.left_stick_y) > abs(gamepad.right_stick_y) {
            gamepad.left_stick_y
        } else {
            gamepad.right_stick_y
        };
        (y, x)
    }
}

impl XBox360 {
    /// The level is in the gear domain and disconnects of the active
    /// device stop at the context.
    pub open spec fn wf(&self) -> bool {
        self.0.wf() && !self.0.forward_disconnect
    }

    /// The gamepad's state after `incoming`.
    pub open spec fn after(self, incoming: SourceEvent) -> XBox360 {
        XBox360(
            Context {
                active: active_after(self.0.active, incoming),
                level: level_after(self.0.level, incoming.event),
                forward_disconnect: self.0.forward_disconnect,
            },
        )
    }

    /// The pair `(y, x)` to report: that of the active device, `(0, 0)`
    /// while none is active.
    pub open spec fn pair(self, device: Snapshot) -> (i32, i32) {
        if self.0.active.is_some() {
            mapped(device)
        } else {
            (0, 0)
        }
    }

    /// The gamepad before any event.
    pub fn new() -> (s: Self)
        ensures
            s.wf(),
            s.0.active.is_none(),
            s.0.level == gear::FIRST,
    {
        XBox360(Context::new(false))
    }

    /// Folds in one event of the source.
    pub fn handle(&mut self, incoming: SourceEvent)
        ensures
            old(self).wf() ==> *final(self) == old(self).after(incoming) && final(self).wf(),
    {
        if let Some(e) = self.0.handle_events(incoming) {
            match e {
                RawEvent::ButtonReleased(Button::Start, _) => {
                    self.0.gear_up();
                },
                RawEvent::ButtonReleased(Button::Select, _) => {
                    self.0.gear_down();
                },
                _ => {},
            }
        }
    }

    /// Folds in a batch of events, first to last.
    pub fn drain(&mut self, pending: &Vec<SourceEvent>)
        requires
            old(self).wf(),
        ensures
            *final(self) == after_all(*old(self), pending@),
            final(self).wf(),
    {
        let ghost start = *self;
        let mut i: usize = 0;
        while i < pending.len()
            invariant
                i <= pending.len(),
                self.wf(),
                *self == after_all(start, pending@.take(i as int)),
            decreases pending.len() - i,
        {
            proof {
                assert(pending@.take(i + 1).drop_last() =~= pending@.take(i as int));
            }
            self.handle(pending[i]);
            i += 1;
        }
        proof {
            assert(pending@.take(pending.len() as int) =~= pending@);
        }
    }

    /// The device to read for the next status, if any.
    pub fn active(&self) -> (id: Option<usize>)
        ensures
            id == self.0.active,
    {
        self.0.active
    }

    /// The pair `(y, x)` before the conversion to magnitude and angle.
    pub fn vector(&self, device: &Snapshot) -> (r: (i32, i32))
        ensures
            r == self.pair(*device),
    {
        match self.0.active {
            Some(_) => map(device),
            None => (0, 0),
        }
    }

    /// The status in polar form. The magnitude is computed here; the angle
    /// of `vector(device)` is the caller's to compute and is reported as
    /// given.
    pub fn status(&self, device: &Snapshot, angle: i32) -> (s: Status)
        ensures
            s.level == self.0.level,
            s.rho == radius(self.pair(*device).0, self.pair(*device).1),
            s.theta == angle,
    {
        let (y, x) = self.vector(device);
        let size_x: i32 = abs(x);
        let size_y: i32 = abs(y);
        Status {
            level: self.0.level,
            rho: if size_x >= size_y { size_x } else { size_y },
            theta: angle,
        }
    }
}

/// Opposed buttons held together cancel on their axis: north with south
/// gives no `y` and west with east no `x`, and so do up with down and
/// left with right on the d-pad while no face button is held.
pub proof fn lemma_opposed_buttons_cancel(d: Snapshot)
    ensures
        d.north && d.south ==> mapped(d).0 == 0,
        d.west && d.east ==> mapped(d).1 == 0,
        !(d.north || d.south || d.west || d.east) && d.dpad_up && d.dpad_down ==> mapped(d).0
            == 0,
        !(d.north || d.south || d.west || d.east) && d.dpad_left && d.dpad_right ==> mapped(d).1
            == 0,
{
}

/// While a face button or a d-pad direction is held, each of the two
/// readings is a full deflection or zero, whatever the sticks read.
pub proof fn lemma_buttons_give_full_deflection(d: Snapshot)
    requires
        d.north || d.south || d.west || d.east || d.dpad_up || d.dpad_down || d.dpad_left
            || d.dpad_right,
    ensures
        mapped(d).0 == UNIT || mapped(d).0 == 0 || mapped(d).0 == -UNIT,
        mapped(d).1 == UNIT || mapped(d).1 == 0 || mapped(d).1 == -UNIT,
{
}

/// The gamepad's state after a sequence of events, applied first to last.
pub open spec fn after_all(pad: XBox360, pending: Seq<SourceEvent>) -> XBox360
    decreases pending.len(),
{
    if pending.len() == 0 {
        pad
    } else {
        after_all(pad, pending.drop_last()).after(pending.last())
    }
}

} // verus!
