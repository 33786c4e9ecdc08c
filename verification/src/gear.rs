//! The gear state machine: a level in `{-2, -1, 1, 2, 3, 4, 5}` together with
//! the transitions that the shift and reverse controls cause.

use vstd::prelude::*;

verus! {

/// The level a device starts in: first forward gear.
pub const FIRST: i8 = 1;

/// The level that stands for "reverse engaged".
pub const REVERSE: i8 = -1;

/// Membership in the gear domain. Zero is not a level.
pub open spec fn valid_level(level: i8) -> bool {
    level == -2 || level == -1 || (1 <= level && level <= 5)
}

/// The level reached by an up-shift: `-1` goes to `-2`, each forward gear
/// below the top goes one up, and every other level stays.
pub open spec fn up(level: i8) -> i8 {
    if level == -1 {
        -2i8
    } else if 1 <= level && level <= 4 {
        (level + 1) as i8
    } else {
        level
    }
}

/// The level reached by a down-shift: `-2` goes to `-1`, each forward gear
/// above the first goes one down, and every other level stays.
pub open spec fn down(level: i8) -> i8 {
    if level == -2 {
        -1i8
    } else if 2 <= level && level <= 5 {
        (level - 1) as i8
    } else {
        level
    }
}

/// The level after the reverse control is pressed under the hold-to-reverse
/// convention: any forward gear becomes reverse.
pub open spec fn reverse_pressed(level: i8) -> i8 {
    if 1 <= level && level <= 5 {
        -1i8
    } else {
        level
    }
}

/// The level after the reverse control is released under the hold-to-reverse
/// convention: either reverse level becomes first gear.
pub open spec fn reverse_released(level: i8) -> i8 {
    if level == -2 || level == -1 {
        1
    } else {
        level
    }
}

/// The level after the reverse button is clicked under the toggle
/// convention: forward becomes reverse, anything else becomes first gear.
pub open spec fn toggled(level: i8) -> i8 {
    if level >= 1 {
        -1i8
    } else {
        1i8
    }
}

/// One input of the shift paddles.
#[derive(Clone, Copy, Debug, PartialEq, Eq, Structural)]
pub enum Shift {
    Up,
    Down,
}

/// The level reached by one shift input.
pub open spec fn shifted(level: i8, shift: Shift) -> i8 {
    match shift {
        Shift::Up => up(level),
        Shift::Down => down(level),
    }
}

/// The level reached from `level` by a whole sequence of shift inputs,
/// applied first to last.
pub open spec fn shifted_all(level: i8, shifts: Seq<Shift>) -> i8
    decreases shifts.len(),
{
    if shifts.len() == 0 {
        level
    } else {
        shifted(shifted_all(level, shifts.drop_last()), shifts.last())
    }
}

/// Whether `level` is a member of the gear domain.
pub fn is_level(level: i8) -> (member: bool)
    ensures
        member == valid_level(level),
{
    level == -2 || level == -1 || (1 <= level && level <= 5)
}

/// Up-shift. Returns the new level and whether it differs from the old one.
pub fn advance_up(level: i8) -> (r: (i8, bool))
    ensures
        r.0 == up(level),
        r.1 == (r.0 != level),
        valid_level(level) ==> valid_level(r.0),
{
    if level == -1 {
        (-2, true)
    } else if 1 <= level && level <= 4 {
        (level + 1, true)
    } else {
        (level, false)
    }
}

/// Down-shift. Returns the new level and whether it differs from the old one.
pub fn advance_down(level: i8) -> (r: (i8, bool))
    ensures
        r.0 == down(level),
        r.1 == (r.0 != level),
        valid_level(level) ==> valid_level(r.0),
{
    if level == -2 {
        (-1, true)
    } else if 2 <= level && level <= 5 {
        (level - 1, true)
    } else {
        (level, false)
    }
}

/// Hold-to-reverse, control pressed. Returns the new level and whether it
/// differs from the old one.
pub fn press_reverse(level: i8) -> (r: (i8, bool))
    ensures
        r.0 == reverse_pressed(level),
        r.1 == (r.0 != level),
        valid_level(level) ==> valid_level(r.0),
{
    if 1 <= level && level <= 5 {
        (REVERSE, true)
    } else {
        (level, false)
    }
}

/// Hold-to-reverse, control released. Returns the new level and whether it
/// differs from the old one.
pub fn release_reverse(level: i8) -> (r: (i8, bool))
    ensures
        r.0 == reverse_released(level),
        r.1 == (r.0 != level),
        valid_level(level) ==> valid_level(r.0),
{
    if level == -2 || level == -1 {
        (FIRST, true)
    } else {
        (level, false)
    }
}

/// Button-toggle reverse: one click switches between forward and reverse.
pub fn toggle_reverse(level: i8) -> (r: i8)
    ensures
        r == toggled(level),
        valid_level(r),
{
    if level >= 1 {
        REVERSE
    } else {
        FIRST
    }
}

/// Applies a sequence of shift inputs in order and returns the final level.
pub fn apply_shifts(level: i8, shifts: &Vec<Shift>) -> (r: i8)
    ensures
        r == shifted_all(level, shifts@),
        valid_level(level) ==> valid_level(r),
{
    let mut current: i8 = level;
    let mut i: usize = 0;
    while i < shifts.len()
        invariant
            i <= shifts.len(),
            current == shifted_all(level, shifts@.take(i as int)),
            valid_level(level) ==> valid_level(current),
        decreases shifts.len() - i,
    {
        proof {
            assert(shifts@.take(i + 1).drop_last() =~= shifts@.take(i as int));
        }
        current = match shifts[i] {
            Shift::Up => advance_up(current).0,
            Shift::Down => advance_down(current).0,
        };
        i += 1;
    }
    proof {
        assert(shifts@.take(shifts.len() as int) =~= shifts@);
    }
    current
}

/// Every transition of the machine keeps a level inside the gear domain.
pub proof fn lemma_transitions_stay_in_domain(level: i8)
    requires
        valid_level(level),
    ensures
        valid_level(up(level)),
        valid_level(down(level)),
        valid_level(reverse_pressed(level)),
        valid_level(reverse_released(level)),
        valid_level(toggled(level)),
{
}

/// Whatever sequence of up- and down-shifts is applied to a level of the
/// domain, every level passed on the way is in the domain; none is zero.
pub proof fn lemma_shifts_stay_in_domain(level: i8, shifts: Seq<Shift>, k: int)
    requires
        valid_level(level),
        0 <= k <= shifts.len(),
    ensures
        valid_level(shifted_all(level, shifts.take(k))),
        shifted_all(level, shifts.take(k)) != 0,
    decreases k,
{
    if k > 0 {
        lemma_shifts_stay_in_domain(level, shifts, k - 1);
        assert(shifts.take(k).drop_last() =~= shifts.take(k - 1));
    }
}

/// An up-shift followed by a down-shift returns to the starting level,
/// from every level but the two at which the up-shift is refused.
pub proof fn lemma_up_then_down(level: i8)
    requires
        valid_level(level),
        level != 5,
        level != -2,
    ensures
        up(level) != level,
        down(up(level)) == level,
{
}

/// A down-shift followed by an up-shift returns to the starting level,
/// from every level but the two at which the down-shift is refused.
pub proof fn lemma_down_then_up(level: i8)
    requires
        valid_level(level),
        level != 1,
        level != -1,
    ensures
        down(level) != level,
        up(down(level)) == level,
{
}

/// At the levels where a shift is refused the machine clamps: the level
/// stays, and the opposite shift then moves away from it.
pub proof fn lemma_refused_shifts_clamp()
    ensures
        up(5i8) == 5 && down(up(5i8)) == 4,
        up(-2i8) == -2 && down(up(-2i8)) == -1,
        down(1i8) == 1 && up(down(1i8)) == 2,
        down(-1i8) == -1 && up(down(-1i8)) == -2,
{
}

} // verus!
