//! Normalisation of steering-wheel and gamepad input into a small status
//! record: a gear level and two axis readings.
//!
//! Axis readings are fixed-point integers: `input::UNIT` stands for `1.0`.
//! Times are whole nanoseconds on a monotonic clock chosen by the caller.
//! The library never touches a device: the caller polls the event source,
//! hands each event in, and reads the device for the snapshot it passes.

use vstd::prelude::*;
use crate::input::{Snapshot, SourceEvent};

pub mod gear;
pub mod input;
pub mod context;
pub mod event;
pub mod g29;
pub mod xbox360;
pub mod hori;
pub mod publisher;
pub mod force_feedback;

verus! {

/// The record of the pull model: the gear level and two readings whose
/// meaning the backend fixes (for a wheel, pedal travel and wheel angle).
#[derive(Clone, Copy, Debug, PartialEq, Eq, Structural)]
pub struct Status {
    pub level: i8,
    pub rho: i32,
    pub theta: i32,
}

/// A backend: it folds the events of the source into its state and
/// reports a status from the state of the active device.
pub trait Steering: Sized {
    /// The backend's invariant.
    spec fn wf(&self) -> bool;

    /// The device that the backend takes its readings from, if any.
    spec fn active_device(&self) -> Option<usize>;

    /// The backend's state after `incoming`.
    spec fn after(&self, incoming: SourceEvent) -> Self;

    /// Whether `incoming` calls for the device's force feedback to be
    /// configured anew.
    spec fn reasserts(&self, incoming: SourceEvent) -> bool;

    /// The status that the backend reports when the active device is in
    /// state `device`.
    spec fn reported(&self, device: Snapshot) -> Status;

    /// The backend before any event.
    fn new() -> (s: Self)
        ensures
            s.wf(),
            s.active_device().is_none(),
    ;

    /// Folds in one event. Returns whether the caller is to configure the
    /// device's force feedback anew.
    fn handle(&mut self, incoming: SourceEvent) -> (reassert: bool)
        ensures
            old(self).wf() ==> *final(self) == old(self).after(incoming) && final(self).wf()
                && reassert == old(self).reasserts(incoming),
    ;

    /// The device to read for the next status, if any.
    fn active(&self) -> (id: Option<usize>)
        ensures
            id == self.active_device(),
    ;

    /// The status, given the state of the active device. While no device
    /// is active, `device` is not looked at.
    fn status(&self, device: &Snapshot) -> (s: Status)
        ensures
            s == self.reported(*device),
    ;
}

/// The backend's state after a sequence of events, applied first to last.
pub open spec fn after_all<S: Steering>(backend: S, pending: Seq<SourceEvent>) -> S
    decreases pending.len(),
{
    if pending.len() == 0 {
        backend
    } else {
        after_all(backend, pending.drop_last()).after(pending.last())
    }
}

/// How many of a sequence of events call for the force feedback to be
/// configured anew.
pub open spec fn reasserts_in<S: Steering>(backend: S, pending: Seq<SourceEvent>) -> nat
    decreases pending.len(),
{
    if pending.len() == 0 {
        0
    } else {
        let earlier = pending.drop_last();
        reasserts_in(backend, earlier) + if after_all(backend, earlier).reasserts(
            pending.last(),
        ) {
            1nat
        } else {
            0nat
        }
    }
}

/// Folds a batch of pending events into a backend, first to last, so that
/// the status asked for next rests on all of them. Returns how many times
/// the force feedback is to be configured anew.
pub fn drain<S: Steering>(backend: &mut S, pending: &Vec<SourceEvent>) -> (count: usize)
    requires
        old(backend).wf(),
    ensures
        *final(backend) == after_all(*old(backend), pending@),
        final(backend).wf(),
        count == reasserts_in(*old(backend), pending@),
{
    let ghost start = *backend;
    let mut count: usize = 0;
    let mut i: usize = 0;
    while i < pending.len()
        invariant
            i <= pending.len(),
            count <= i,
            backend.wf(),
            *backend == after_all(start, pending@.take(i as int)),
            count == reasserts_in(start, pending@.take(i as int)),
        decreases pending.len() - i,
    {
        proof {
            assert(pending@.take(i + 1).drop_last() =~= pending@.take(i as int));
        }
        if backend.handle(pending[i]) {
            count += 1;
        }
        i += 1;
    }
    proof {
        assert(pending@.take(pending.len() as int) =~= pending@);
    }
    count
}

/// The fallback where no device is configured.
#[derive(Clone, Copy, Debug, PartialEq, Eq, Structural)]
pub struct NoDevice;

impl Steering for NoDevice {
    open spec fn wf(&self) -> bool {
        true
    }

    open spec fn active_device(&self) -> Option<usize> {
        None
    }

    open spec fn after(&self, incoming: SourceEvent) -> Self {
        NoDevice
    }

    open spec fn reasserts(&self, incoming: SourceEvent) -> bool {
        false
    }

    /// First gear, both readings zero.
    open spec fn reported(&self, device: Snapshot) -> Status {
        Status { level: 1, rho: 0, theta: 0 }
    }

    fn new() -> (s: Self) {
        NoDevice
    }

    fn handle(&mut self, incoming: SourceEvent) -> (reassert: bool) {
        false
    }

    fn active(&self) -> (id: Option<usize>) {
        None
    }

    fn status(&self, device: &Snapshot) -> (s: Status) {
        Status { level: gear::FIRST, rho: 0, theta: 0 }
    }
}

} // verus!
