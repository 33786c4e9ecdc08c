//! The device context: which device is active, the gear level that the
//! backends share, and the point queries scoped to the active device.

use vstd::prelude::*;
use crate::gear;
use crate::input::{Axis, Button, RawEvent, Snapshot, SourceEvent};

verus! {

/// Tracks the one active device and the current gear level.
///
/// When a second device sends an event while one is active, the sender
/// becomes the active device: the most recently active device wins.
#[derive(Clone, Copy, Debug, PartialEq, Eq, Structural)]
pub struct Context {
    pub active: Option<usize>,
    pub level: i8,
    /// Whether the disconnect of the active device is handed on to the
    /// backend or swallowed here.
    pub forward_disconnect: bool,
}

/// The active device after `incoming` is folded in: its disconnect clears
/// the active device, the disconnect of another leaves it, and any other
/// event makes the sender active.
pub open spec fn active_after(active: Option<usize>, incoming: SourceEvent) -> Option<usize> {
    if incoming.event == RawEvent::Disconnected {
        if active == Some(incoming.id) {
            None
        } else {
            active
        }
    } else {
        Some(incoming.id)
    }
}

/// What the backend gets to see of `incoming`: everything but the
/// disconnect of the active device when disconnects are swallowed.
pub open spec fn forwarded(
    active: Option<usize>,
    forward_disconnect: bool,
    incoming: SourceEvent,
) -> Option<RawEvent> {
    if incoming.event == RawEvent::Disconnected && active == Some(incoming.id)
        && !forward_disconnect {
        None
    } else {
        Some(incoming.event)
    }
}

/// The outcome of draining `pending` from position `from` on: the context
/// after it, the first event that is forwarded, if any, and the position
/// behind that event, or behind the last event if none is forwarded.
pub open spec fn drained(context: Context, pending: Seq<SourceEvent>, from: int) -> (
    Context,
    Option<RawEvent>,
    int,
)
    decreases pending.len() - from,
{
    if from < 0 || from >= pending.len() {
        (context, None, from)
    } else {
        let next = Context { active: active_after(context.active, pending[from]), ..context };
        match forwarded(context.active, context.forward_disconnect, pending[from]) {
            Some(event) => (next, Some(event), from + 1),
            None => drained(next, pending, from + 1),
        }
    }
}

impl Context {
    /// The level is a member of the gear domain.
    pub open spec fn wf(&self) -> bool {
        gear::valid_level(self.level)
    }

    /// A context with no active device, in first gear.
    pub fn new(forward_disconnect: bool) -> (c: Self)
        ensures
            c.active.is_none(),
            c.level == gear::FIRST,
            c.forward_disconnect == forward_disconnect,
            c.wf(),
    {
        Context { active: None, level: gear::FIRST, forward_disconnect }
    }

    /// Folds one event of the source into the active-device tracking and
    /// returns the event that the backend is to react to, if any.
    pub fn handle_events(&mut self, incoming: SourceEvent) -> (relevant: Option<RawEvent>)
        ensures
            final(self).active == active_after(old(self).active, incoming),
            relevant == forwarded(old(self).active, old(self).forward_disconnect, incoming),
            final(self).level == old(self).level,
            final(self).forward_disconnect == old(self).forward_disconnect,
    {
        match incoming.event {
            RawEvent::Disconnected => {
                let was_active = match self.active {
                    Some(id) => id == incoming.id,
                    None => false,
                };
                if was_active {
                    self.active = None;
                    if !self.forward_disconnect {
                        return None;
                    }
                }
            },
            _ => {
                self.active = Some(incoming.id);
            },
        }
        Some(incoming.event)
    }

    /// Drains the queue `pending` from position `from` on, folding every
    /// event into the active-device tracking, up to the first event that
    /// the backend is to react to. Returns that event, if there is one, and
    /// the position to go on from.
    pub fn next_relevant_event(&mut self, pending: &Vec<SourceEvent>, from: usize) -> (r: (
        Option<RawEvent>,
        usize,
    ))
        ensures
            (*final(self), r.0, r.1 as int) == drained(*old(self), pending@, from as int),
            r.0.is_some() ==> from < r.1 <= pending@.len(),
            r.0.is_none() && from <= pending@.len() ==> r.1 == pending@.len(),
    {
        let mut i: usize = from;
        while i < pending.len()
            invariant
                from <= i,
                from <= pending@.len() ==> i <= pending@.len(),
                drained(*old(self), pending@, from as int) == drained(*self, pending@, i as int),
            decreases pending@.len() - i,
        {
            let relevant = self.handle_events(pending[i]);
            i += 1;
            if relevant.is_some() {
                return (relevant, i);
            }
        }
        (None, i)
    }

    /// Up-shift of the shared level. Returns whether the level changed.
    pub fn gear_up(&mut self) -> (changed: bool)
        ensures
            final(self).level == gear::up(old(self).level),
            changed == (final(self).level != old(self).level),
            final(self).active == old(self).active,
            final(self).forward_disconnect == old(self).forward_disconnect,
            old(self).wf() ==> final(self).wf(),
    {
        let (level, changed) = gear::advance_up(self.level);
        self.level = level;
        changed
    }

    /// Down-shift of the shared level. Returns whether the level changed.
    pub fn gear_down(&mut self) -> (changed: bool)
        ensures
            final(self).level == gear::down(old(self).level),
            changed == (final(self).level != old(self).level),
            final(self).active == old(self).active,
            final(self).forward_disconnect == old(self).forward_disconnect,
            old(self).wf() ==> final(self).wf(),
    {
        let (level, changed) = gear::advance_down(self.level);
        self.level = level;
        changed
    }

    /// The reading of `axis` on the active device, whose state is `device`;
    /// zero while no device is active.
    pub fn axis_value(&self, device: &Snapshot, axis: Axis) -> (v: i32)
        ensures
            v == (if self.active.is_some() { device.axis(axis) } else { 0 }),
    {
        if self.active.is_some() {
            device.value(axis)
        } else {
            0
        }
    }

    /// Whether `button` is held on the active device, whose state is
    /// `device`; false while no device is active.
    pub fn is_pressed(&self, device: &Snapshot, button: Button) -> (p: bool)
        ensures
            p == (self.active.is_some() && device.pressed(button)),
    {
        self.active.is_some() && device.is_pressed(button)
    }
}

} // verus!
