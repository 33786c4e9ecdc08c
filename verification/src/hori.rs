//! The arcade wheel in the pull model: the normalised record, kept up to
//! date event by event and reported as it stands.

use vstd::prelude::*;
use crate::context::{active_after, Context};
use crate::event::{updated, Channel, Event, Polarity, Throttle};
use crate::input::{Snapshot, SourceEvent};
use crate::{Status, Steering};

verus! {

/// The arcade wheel's state: the device context, the record, and the
/// throttle convention of the platform.
#[derive(Clone, Copy, Debug, PartialEq, Eq, Structural)]
pub struct Hori {
    pub context: Context,
    pub event: Event,
    pub throttle: Throttle,
}

impl Hori {
    /// An arcade wheel before any event, with the throttle convention
    /// `throttle`.
    pub fn with_throttle(throttle: Throttle) -> (s: Self)
        ensures
            s.wf(),
            s.context.active.is_none(),
            s.event == (Event { gear: 1, speed: 0, direction: 0 }),
            s.throttle == throttle,
    {
        Hori { context: Context::new(true), event: Event::new(), throttle }
    }
}

impl Steering for Hori {
    /// The gear is in the gear domain, the context's level follows it, and
    /// disconnects reach the wheel.
    open spec fn wf(&self) -> bool {
        self.event.wf() && self.context.level == self.event.gear
            && self.context.forward_disconnect
    }

    open spec fn active_device(&self) -> Option<usize> {
        self.context.active
    }

    /// The sender becomes or ceases to be the active device, and the
    /// record is updated by the event.
    open spec fn after(&self, incoming: SourceEvent) -> Hori {
        let event = updated(self.event, incoming.event, self.throttle).0;
        Hori {
            context: Context {
                active: active_after(self.context.active, incoming),
                level: event.gear,
                forward_disconnect: self.context.forward_disconnect,
            },
            event,
            throttle: self.throttle,
        }
    }

    open spec fn reasserts(&self, incoming: SourceEvent) -> bool {
        false
    }

    /// The record as it stands: the wheel reports what its events said,
    /// whatever the device reads.
    open spec fn reported(&self, device: Snapshot) -> Status {
        Status { level: self.event.gear, rho: self.event.speed, theta: self.event.direction }
    }

    /// An arcade wheel whose throttle is the trigger, read as it is.
    fn new() -> (s: Self)
        ensures
            s.event == (Event { gear: 1, speed: 0, direction: 0 }),
            s.throttle == (Throttle { channel: Channel::Trigger, polarity: Polarity::Direct }),
    {
        Hori::with_throttle(Throttle { channel: Channel::Trigger, polarity: Polarity::Direct })
    }

    fn handle(&mut self, incoming: SourceEvent) -> (reassert: bool) {
        if let Some(e) = self.context.handle_events(incoming) {
            self.event.update(e, self.throttle);
            self.context.level = self.event.gear;
        }
        false
    }

    fn active(&self) -> (id: Option<usize>) {
        self.context.active
    }

    fn status(&self, device: &Snapshot) -> (s: Status) {
        Status { level: self.event.gear, rho: self.event.speed, theta: self.event.direction }
    }
}

} // verus!
