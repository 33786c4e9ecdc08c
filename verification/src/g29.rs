//! The force-feedback wheel: shifting by hardware button codes, and a
//! pedal whose reading counts only once the pedal has reported.

use vstd::prelude::*;
use crate::context::{active_after, Context};
use crate::gear;
use crate::input::{from_released_high, released_high, Axis, Button, RawEvent, Snapshot, SourceEvent};
use crate::{Status, Steering};

verus! {

/// The code of the button that toggles reverse.
pub const REVERSE_CODE: u32 = 65827;

/// The code of the up-shift paddle.
pub const UP_CODE: u32 = 65828;

/// The code of the down-shift paddle.
pub const DOWN_CODE: u32 = 65829;

/// The autocentering strength that the wheel is configured with.
pub const AUTOCENTER: i32 = 0x6000;

/// The wheel's state: the device context and whether the pedal has
/// reported since the last connect or disconnect.
#[derive(Clone, Copy, Debug, PartialEq, Eq, Structural)]
pub struct G29 {
    pub context: Context,
    pub rho_initialized: bool,
}

/// The level after an event: the three button codes, released, toggle
/// reverse, shift up and shift down; nothing else moves the level.
pub open spec fn level_after(level: i8, event: RawEvent) -> i8 {
    match event {
        RawEvent::ButtonReleased(Button::Unknown, code) => if code == REVERSE_CODE {
            gear::toggled(level)
        } else if code == UP_CODE {
            gear::up(level)
        } else if code == DOWN_CODE {
            gear::down(level)
        } else {
            level
        },
        _ => level,
    }
}

/// The calibration flag after an event: a change of the pedal axis sets
/// it, a connect or disconnect clears it.
pub open spec fn calibrated_after(calibrated: bool, event: RawEvent) -> bool {
    match event {
        RawEvent::AxisChanged(Axis::LeftZ, _) => true,
        RawEvent::Connected => false,
        RawEvent::Disconnected => false,
        _ => calibrated,
    }
}

impl Steering for G29 {
    /// The level is in the gear domain and disconnects reach the wheel.
    open spec fn wf(&self) -> bool {
        self.context.wf() && self.context.forward_disconnect
    }

    open spec fn active_device(&self) -> Option<usize> {
        self.context.active
    }

    /// The sender becomes or ceases to be the active device, the level and
    /// the calibration flag follow the event.
    open spec fn after(&self, incoming: SourceEvent) -> G29 {
        G29 {
            context: Context {
                active: active_after(self.context.active, incoming),
                level: level_after(self.context.level, incoming.event),
                forward_disconnect: self.context.forward_disconnect,
            },
            rho_initialized: calibrated_after(self.rho_initialized, incoming.event),
        }
    }

    /// Every connect calls for the autocentering to be set again.
    open spec fn reasserts(&self, incoming: SourceEvent) -> bool {
        incoming.event == RawEvent::Connected
    }

    /// The pedal as `(1 - raw) / 2` once calibrated, the wheel angle as
    /// read; both zero while no device is active.
    open spec fn reported(&self, device: Snapshot) -> Status {
        Status {
            level: self.context.level,
            rho: if self.context.active.is_some() && self.rho_initialized {
                released_high(device.left_z) as i32
            } else {
                0
            },
            theta: if self.context.active.is_some() {
                device.left_stick_x
            } else {
                0
            },
        }
    }

    fn new() -> (s: Self)
        ensures
            s == (G29 {
                context: Context { active: None, level: 1, forward_disconnect: true },
                rho_initialized: false,
            }),
    {
        G29 { context: Context::new(true), rho_initialized: false }
    }

    fn handle(&mut self, incoming: SourceEvent) -> (reassert: bool) {
        let mut reassert = false;
        if let Some(e) = self.context.handle_events(incoming) {
            match e {
                RawEvent::ButtonReleased(Button::Unknown, code) => {
                    if code == REVERSE_CODE {
                        self.context.level = gear::toggle_reverse(self.context.level);
                    } else if code == UP_CODE {
                        self.context.gear_up();
                    } else if code == DOWN_CODE {
                        self.context.gear_down();
                    }
                },
                RawEvent::AxisChanged(Axis::LeftZ, _) => {
                    self.rho_initialized = true;
                },
                RawEvent::Connected => {
                    self.rho_initialized = false;
                    reassert = true;
                },
                RawEvent::Disconnected => {
                    self.rho_initialized = false;
                },
                _ => {},
            }
        }
        reassert
    }

    fn active(&self) -> (id: Option<usize>) {
        self.context.active
    }

    fn status(&self, device: &Snapshot) -> (s: Status) {
        let rho: i32 = if self.rho_initialized {
            match self.context.active {
                Some(_) => from_released_high(device.left_z),
                None => 0,
            }
        } else {
            0
        };
        Status {
            level: self.context.level,
            rho,
            theta: self.context.axis_value(device, Axis::LeftStickX),
        }
    }
}

/// Until the pedal has reported after a connect, the wheel reports zero
/// pedal travel whatever the device reads.
pub proof fn lemma_uncalibrated_reports_zero(wheel: G29, sender: usize, device: Snapshot)
    ensures
        wheel.after(SourceEvent { id: sender, event: RawEvent::Connected }).reported(device).rho
            == 0,
{
}

} // verus!
