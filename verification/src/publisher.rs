//! The adaptive publisher: the decisions of the loop that turns raw events
//! into rate-limited snapshots. The caller polls the source, sleeps and
//! reads the clock; what to do with each of them is decided here.

use vstd::prelude::*;
use crate::event::{updated, Event, Throttle};
use crate::gear;
use crate::input::RawEvent;

verus! {

/// Nanoseconds in a second.
pub const NANOS_PER_SECOND: u64 = 1_000_000_000;

/// The shortest idle sleep, unless the publish period is shorter still.
pub const MIN_SLEEP: u64 = 1_000_000;

/// By how much the idle sleep grows after each idle round.
pub const SLEEP_STEP: u64 = 1_000_000;

/// The publish period `1 / frequency`, in whole nanoseconds.
pub open spec fn period_of(frequency: u32) -> int
    recommends
        frequency > 0,
{
    NANOS_PER_SECOND as int / frequency as int
}

/// The idle sleep right after a change: `MIN_SLEEP`, capped at the period.
pub open spec fn floor_of(period: u64) -> u64 {
    if period < MIN_SLEEP {
        period
    } else {
        MIN_SLEEP
    }
}

/// The idle sleep after one more idle round: one step longer, capped at
/// the period.
pub open spec fn grown(interval: u64, period: u64) -> u64 {
    if interval + SLEEP_STEP >= period {
        period
    } else {
        (interval + SLEEP_STEP) as u64
    }
}

/// Time passed from `since` to `now`; zero if the clock ran backwards.
pub open spec fn elapsed(since: u64, now: u64) -> int {
    if now >= since {
        now - since
    } else {
        0
    }
}

/// The publisher's state: the record, the throttle convention, the publish
/// period, when the last snapshot went out, whether a change waits to be
/// published, and the current idle sleep.
#[derive(Clone, Copy, Debug, PartialEq, Eq, Structural)]
pub struct Publisher {
    pub event: Event,
    pub throttle: Throttle,
    pub period: u64,
    pub last_emit: u64,
    pub pending: bool,
    pub interval: u64,
}

/// What the first half of a round tells the caller.
#[derive(Clone, Copy, Debug, PartialEq, Eq, Structural)]
pub struct Intake {
    /// Whether the input changed the record.
    pub modified: bool,
    /// How long to sleep before the second half of the round, if at all.
    pub sleep: Option<u64>,
}

impl Publisher {
    /// The gear is in the gear domain, the period is at most a second, and
    /// the idle sleep lies between its floor and the period.
    pub open spec fn wf(&self) -> bool {
        &&& self.event.wf()
        &&& self.period <= NANOS_PER_SECOND
        &&& floor_of(self.period) <= self.interval
        &&& self.interval <= self.period
    }

    /// The state after the first half of a round, and what the caller is
    /// told. An input is applied to the record; if it is a modification, a
    /// change is pending and the idle sleep falls to its floor. Without an
    /// input and without a pending change the caller sleeps for the current
    /// idle sleep, which then grows; with a pending change it does not
    /// sleep.
    pub open spec fn absorbed(self, input: Option<RawEvent>) -> (Publisher, Intake) {
        match input {
            Some(ty) => {
                let (event, modified) = updated(self.event, ty, self.throttle);
                (
                    Publisher {
                        event,
                        pending: self.pending || modified,
                        interval: if modified {
                            floor_of(self.period)
                        } else {
                            self.interval
                        },
                        ..self
                    },
                    Intake { modified, sleep: None },
                )
            },
            None => if self.pending {
                (self, Intake { modified: false, sleep: None })
            } else {
                (
                    Publisher { interval: grown(self.interval, self.period), ..self },
                    Intake { modified: false, sleep: Some(self.interval) },
                )
            },
        }
    }

    /// Whether a snapshot is due at `now`: a change is pending and a full
    /// period has passed since the last snapshot.
    pub open spec fn due(self, now: u64) -> bool {
        self.pending && elapsed(self.last_emit, now) >= self.period
    }

    /// The state after the second half of a round, and the snapshot to
    /// publish, if one is due.
    pub open spec fn settled(self, now: u64) -> (Publisher, Option<(u64, Event)>) {
        if self.due(now) {
            (Publisher { last_emit: now, pending: false, ..self }, Some((now, self.event)))
        } else {
            (self, None)
        }
    }

    /// A publisher for `frequency` snapshots a second at most, started at
    /// `now`. A frequency of zero is refused.
    pub fn new(frequency: u32, throttle: Throttle, now: u64) -> (p: Option<Self>)
        ensures
            p.is_some() == (frequency > 0),
            p.is_some() ==> p.unwrap() == (Publisher {
                event: Event { gear: 1, speed: 0, direction: 0 },
                throttle,
                period: period_of(frequency) as u64,
                last_emit: now,
                pending: false,
                interval: floor_of(period_of(frequency) as u64),
            }) && p.unwrap().wf(),
    {
        if frequency == 0 {
            return None;
        }
        let wide: u64 = frequency as u64;
        let period: u64 = NANOS_PER_SECOND / wide;
        Some(
            Publisher {
                event: Event::new(),
                throttle,
                period,
                last_emit: now,
                pending: false,
                interval: if period < MIN_SLEEP { period } else { MIN_SLEEP },
            },
        )
    }

    /// Whether the state is well formed.
    pub fn valid(&self) -> (ok: bool)
        ensures
            ok == self.wf(),
    {
        let floor: u64 = if self.period < MIN_SLEEP { self.period } else { MIN_SLEEP };
        gear::is_level(self.event.gear) && self.period <= NANOS_PER_SECOND && floor
            <= self.interval && self.interval <= self.period
    }

    /// First half of a round: takes what the source had to offer.
    pub fn absorb(&mut self, input: Option<RawEvent>) -> (intake: Intake)
        requires
            old(self).wf(),
        ensures
            (*final(self), intake) == old(self).absorbed(input),
            final(self).wf(),
    {
        match input {
            Some(ty) => {
                let modified = self.event.update(ty, self.throttle);
                if modified {
                    self.pending = true;
                    self.interval = if self.period < MIN_SLEEP { self.period } else { MIN_SLEEP };
                }
                Intake { modified, sleep: None }
            },
            None => {
                if self.pending {
                    Intake { modified: false, sleep: None }
                } else {
                    let sleep = self.interval;
                    self.interval = if self.interval + SLEEP_STEP >= self.period {
                        self.period
                    } else {
                        self.interval + SLEEP_STEP
                    };
                    Intake { modified: false, sleep: Some(sleep) }
                }
            },
        }
    }

    /// Second half of a round: decides at time `now` whether to publish.
    pub fn settle(&mut self, now: u64) -> (snapshot: Option<(u64, Event)>)
        ensures
            (*final(self), snapshot) == old(self).settled(now),
            old(self).wf() ==> final(self).wf(),
    {
        let waited: u64 = if now >= self.last_emit { now - self.last_emit } else { 0 };
        if self.pending && waited >= self.period {
            self.last_emit = now;
            self.pending = false;
            Some((now, self.event))
        } else {
            None
        }
    }
}

/// One scripted round: what the source offered, and what the clock read
/// when the second half of the round began.
#[derive(Clone, Copy, Debug, PartialEq, Eq, Structural)]
pub struct Round {
    pub input: Option<RawEvent>,
    pub now: u64,
}

/// The publisher after a sequence of rounds.
pub open spec fn state_after(p: Publisher, rounds: Seq<Round>) -> Publisher
    decreases rounds.len(),
{
    if rounds.len() == 0 {
        p
    } else {
        state_after(p, rounds.drop_last()).absorbed(rounds.last().input).0.settled(
            rounds.last().now,
        ).0
    }
}

/// The snapshots published over a sequence of rounds, oldest first.
pub open spec fn published(p: Publisher, rounds: Seq<Round>) -> Seq<(u64, Event)>
    decreases rounds.len(),
{
    if rounds.len() == 0 {
        Seq::empty()
    } else {
        let before = published(p, rounds.drop_last());
        let last = rounds.last();
        match state_after(p, rounds.drop_last()).absorbed(last.input).0.settled(last.now).1 {
            Some(snapshot) => before.push(snapshot),
            None => before,
        }
    }
}

/// Plays a sequence of rounds and collects what is published.
pub fn replay(p: &mut Publisher, rounds: &Vec<Round>) -> (out: Vec<(u64, Event)>)
    requires
        old(p).wf(),
    ensures
        *final(p) == state_after(*old(p), rounds@),
        out@ == published(*old(p), rounds@),
        final(p).wf(),
{
    let ghost start = *p;
    let mut out: Vec<(u64, Event)> = Vec::new();
    let mut i: usize = 0;
    while i < rounds.len()
        invariant
            i <= rounds.len(),
            p.wf(),
            *p == state_after(start, rounds@.take(i as int)),
            out@ == published(start, rounds@.take(i as int)),
        decreases rounds.len() - i,
    {
        proof {
            assert(rounds@.take(i + 1).drop_last() =~= rounds@.take(i as int));
        }
        let round = rounds[i];
        p.absorb(round.input);
        if let Some(snapshot) = p.settle(round.now) {
            out.push(snapshot);
        }
        i += 1;
    }
    proof {
        assert(rounds@.take(rounds.len() as int) =~= rounds@);
    }
    out
}

/// The idle sleep never shrinks while nothing changes and never exceeds
/// the period; a modification drops it to its floor at once. The second
/// half of a round does not touch it.
pub proof fn lemma_backoff(p: Publisher, input: Option<RawEvent>, now: u64)
    requires
        p.wf(),
    ensures
        p.absorbed(input).1.modified ==> p.absorbed(input).0.interval == floor_of(p.period),
        !p.absorbed(input).1.modified ==> p.interval <= p.absorbed(input).0.interval,
        p.absorbed(input).0.interval <= p.period,
        p.absorbed(input).0.period == p.period,
        p.settled(now).0.interval == p.interval,
{
}

/// Rounds keep a well-formed publisher well formed, and never touch its
/// period or its throttle convention.
pub proof fn lemma_rounds_keep_wf(p: Publisher, rounds: Seq<Round>)
    requires
        p.wf(),
    ensures
        state_after(p, rounds).wf(),
        state_after(p, rounds).period == p.period,
        state_after(p, rounds).throttle == p.throttle,
    decreases rounds.len(),
{
    if rounds.len() > 0 {
        lemma_rounds_keep_wf(p, rounds.drop_last());
    }
}

/// Over any sequence of rounds, round `i` either is a modification, and
/// the idle sleep after it is at its floor, or is none, and the idle
/// sleep after it is no shorter than before it; it never exceeds the
/// period.
pub proof fn lemma_backoff_over_rounds(p: Publisher, rounds: Seq<Round>, i: int)
    requires
        p.wf(),
        0 <= i < rounds.len(),
    ensures
        state_after(p, rounds.take(i + 1)).interval <= p.period,
        state_after(p, rounds.take(i)).absorbed(rounds[i].input).1.modified ==> state_after(
            p,
            rounds.take(i + 1),
        ).interval == floor_of(p.period),
        !state_after(p, rounds.take(i)).absorbed(rounds[i].input).1.modified ==> state_after(
            p,
            rounds.take(i),
        ).interval <= state_after(p, rounds.take(i + 1)).interval,
{
    lemma_rounds_keep_wf(p, rounds.take(i));
    assert(rounds.take(i + 1).drop_last() =~= rounds.take(i));
    assert(rounds.take(i + 1).last() == rounds[i]);
}

/// The sleep the caller is told is at most the period, and none is told
/// while a change waits to be published.
pub proof fn lemma_sleep_bounded(p: Publisher, input: Option<RawEvent>)
    requires
        p.wf(),
    ensures
        p.absorbed(input).1.sleep.is_some() ==> p.absorbed(input).1.sleep.unwrap() <= p.period,
        p.absorbed(input).0.pending ==> p.absorbed(input).1.sleep.is_none(),
{
}

/// A modification is never lost: it is pending after the first half of
/// its round, and stays so until the round in which a snapshot goes out;
/// that snapshot then holds the record as the modification left it.
pub proof fn lemma_change_is_published(p: Publisher, input: Option<RawEvent>, now: u64)
    requires
        p.absorbed(input).1.modified,
    ensures
        p.absorbed(input).0.pending,
        elapsed(p.last_emit, now) >= p.period ==> p.absorbed(input).0.settled(now).1 == Some(
            (now, p.absorbed(input).0.event),
        ),
        elapsed(p.last_emit, now) < p.period ==> p.absorbed(input).0.settled(now).1.is_none()
            && p.absorbed(input).0.settled(now).0.pending,
{
}

/// A snapshot goes out only when a full period has passed since the one
/// before; the state then remembers its time and holds no pending change.
pub proof fn lemma_publish_spacing(p: Publisher, now: u64)
    requires
        p.settled(now).1.is_some(),
    ensures
        elapsed(p.last_emit, now) >= p.period,
        p.settled(now).1 == Some((now, p.event)),
        p.settled(now).0.last_emit == now,
        !p.settled(now).0.pending,
{
}

/// While a change is pending the caller is told no sleep, so two rounds
/// in a row are as far apart as the caller's loop takes, `gap` at most.
/// If the change was not yet due at `before` and the next round reads
/// `now`, then either it is still not due, and still pending, or it goes
/// out at `now`, less than a period and a gap after the last snapshot.
pub proof fn lemma_publish_delay_bounded(p: Publisher, before: u64, now: u64, gap: u64)
    requires
        p.pending,
        p.last_emit <= before <= now,
        now - before <= gap,
        !p.due(before),
    ensures
        p.absorbed(None) == (p, Intake { modified: false, sleep: None }),
        p.settled(now).1.is_none() ==> p.settled(now).0 == p && now - p.last_emit < p.period,
        p.settled(now).1.is_some() ==> p.settled(now).1 == Some((now, p.event)) && p.period
            <= now - p.last_emit < p.period + gap,
{
}

/// True when the clock readings of `rounds` never run backwards and none
/// lies before `start`.
pub open spec fn monotone(start: u64, rounds: Seq<Round>) -> bool {
    &&& forall|i: int| 0 <= i < rounds.len() ==> start <= (#[trigger] rounds[i]).now
    &&& forall|i: int, j: int|
        0 <= i <= j < rounds.len() ==> (#[trigger] rounds[i]).now <= (#[trigger] rounds[j]).now
}

/// On a clock that never runs backwards, snapshots are published in
/// order of time and any two of them are at least a period apart; the
/// first is at least a period after the start.
pub proof fn lemma_published_in_order(p: Publisher, rounds: Seq<Round>)
    requires
        monotone(p.last_emit, rounds),
    ensures
        state_after(p, rounds).period == p.period,
        published(p, rounds).len() == 0 ==> state_after(p, rounds).last_emit == p.last_emit,
        published(p, rounds).len() > 0 ==> state_after(p, rounds).last_emit == published(
            p,
            rounds,
        ).last().0,
        forall|k: int|
            0 <= k < published(p, rounds).len() ==> p.last_emit + p.period <= (
            #[trigger] published(p, rounds)[k]).0 && rounds.len() > 0 && published(p, rounds)[k].0
                <= rounds.last().now,
        forall|i: int, j: int|
            0 <= i < j < published(p, rounds).len() ==> (#[trigger] published(p, rounds)[i]).0
                + p.period <= (#[trigger] published(p, rounds)[j]).0,
    decreases rounds.len(),
{
    if rounds.len() > 0 {
        let earlier = rounds.drop_last();
        assert(monotone(p.last_emit, earlier)) by {
            assert forall|i: int| 0 <= i < earlier.len() implies p.last_emit <= (
            #[trigger] earlier[i]).now by {
                assert(earlier[i] == rounds[i]);
            }
            assert forall|i: int, j: int| 0 <= i <= j < earlier.len() implies (
            #[trigger] earlier[i]).now <= (#[trigger] earlier[j]).now by {
                assert(earlier[i] == rounds[i]);
                assert(earlier[j] == rounds[j]);
            }
        }
        lemma_published_in_order(p, earlier);
        let before = published(p, earlier);
        let last = rounds.last();
        let state = state_after(p, earlier);
        assert(p.last_emit <= last.now) by {
            assert(rounds[rounds.len() - 1] == last);
        }
        if earlier.len() > 0 {
            assert(earlier.last().now <= last.now) by {
                assert(earlier.last() == rounds[rounds.len() - 2]);
                assert(rounds[rounds.len() - 1] == last);
            }
        }
        assert(state.last_emit <= last.now);
    }
}

} // verus!
