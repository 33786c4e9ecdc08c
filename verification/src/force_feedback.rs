//! The force-feedback side channel of the wheel: where its device file is,
//! according to the host's registry of input devices, and the record that
//! sets the autocentering strength. Reading the registry and writing the
//! record are the caller's; the text and the bytes are decided here.

use vstd::prelude::*;
use vstd::arithmetic::div_mod::{lemma_hoist_over_denominator, lemma_mod_multiples_vanish};
use vstd::string::*;

verus! {

/// The event class of force-feedback commands.
pub const EV_FF: u16 = 0x15;

/// The command that sets the autocentering strength.
pub const FF_AUTOCENTER: u16 = 0x61;

/// The length of a control record: two 8-byte time fields, two 2-byte
/// fields and one 4-byte field.
pub const RECORD_LEN: usize = 24;

/// What every device file's path begins with; the event index follows.
pub const DEVICE_PREFIX: &'static str = "/dev/input/event";

/// The registry line that names the wheel.
pub const NAME: &'static str = "N: Name=\"Logitech G29 Driving Force Racing Wheel\"";

/// What the registry line that lists a device's handlers begins with.
pub const HANDLERS: &'static str = "H: Handlers=";

/// What the handler that stands for a device file begins with; the event
/// index follows.
pub const EVENT: &'static str = "event";

/// Byte `k` of `x`, counted from the least significant; for a negative
/// `x`, of its two's complement.
pub open spec fn byte(x: int, k: int) -> u8 {
    if k == 0 {
        (x % 256) as u8
    } else if k == 1 {
        (x / 0x100 % 256) as u8
    } else if k == 2 {
        (x / 0x1_0000 % 256) as u8
    } else {
        (x / 0x100_0000 % 256) as u8
    }
}

/// A 16-bit field in the given byte order.
pub open spec fn field16(x: u16, big_endian: bool) -> Seq<u8> {
    if big_endian {
        seq![byte(x as int, 1), byte(x as int, 0)]
    } else {
        seq![byte(x as int, 0), byte(x as int, 1)]
    }
}

/// A 32-bit signed field in the given byte order.
pub open spec fn field32(x: i32, big_endian: bool) -> Seq<u8> {
    if big_endian {
        seq![byte(x as int, 3), byte(x as int, 2), byte(x as int, 1), byte(x as int, 0)]
    } else {
        seq![byte(x as int, 0), byte(x as int, 1), byte(x as int, 2), byte(x as int, 3)]
    }
}

/// The record that sets the autocentering strength to `value`: sixteen
/// zero bytes of time, the event class, the command, the strength.
pub open spec fn record(value: i32, big_endian: bool) -> Seq<u8> {
    Seq::new(16, |i: int| 0u8) + field16(EV_FF, big_endian) + field16(FF_AUTOCENTER, big_endian)
        + field32(value, big_endian)
}

/// Appends a 16-bit field in the given byte order.
fn push16(out: &mut Vec<u8>, x: u16, big_endian: bool)
    ensures
        final(out)@ == old(out)@ + field16(x, big_endian),
{
    let low: u8 = (x % 256) as u8;
    let high: u8 = (x / 256) as u8;
    if big_endian {
        out.push(high);
        out.push(low);
    } else {
        out.push(low);
        out.push(high);
    }
    proof {
        assert(final(out)@ =~= old(out)@ + field16(x, big_endian));
    }
}

/// Adding `2^32` to a number changes none of its four low bytes.
proof fn lemma_bytes_wrap(x: int)
    ensures
        byte(x + 0x1_0000_0000, 0) == byte(x, 0),
        byte(x + 0x1_0000_0000, 1) == byte(x, 1),
        byte(x + 0x1_0000_0000, 2) == byte(x, 2),
        byte(x + 0x1_0000_0000, 3) == byte(x, 3),
{
    lemma_mod_multiples_vanish(0x100_0000, x, 256);
    lemma_hoist_over_denominator(x, 0x100_0000, 0x100);
    lemma_mod_multiples_vanish(0x1_0000, x / 0x100, 256);
    lemma_hoist_over_denominator(x, 0x1_0000, 0x1_0000);
    lemma_mod_multiples_vanish(0x100, x / 0x1_0000, 256);
    lemma_hoist_over_denominator(x, 0x100, 0x100_0000);
    lemma_mod_multiples_vanish(1, x / 0x100_0000, 256);
}

/// Appends a 32-bit signed field in the given byte order.
fn push32(out: &mut Vec<u8>, x: i32, big_endian: bool)
    ensures
        final(out)@ == old(out)@ + field32(x, big_endian),
{
    let wide: i64 = x as i64;
    let unsigned: u64 = if wide < 0 { (wide + 0x1_0000_0000) as u64 } else { wide as u64 };
    proof {
        if wide < 0 {
            lemma_bytes_wrap(x as int);
        }
    }
    let b0: u8 = (unsigned % 256) as u8;
    let b1: u8 = (unsigned / 0x100 % 256) as u8;
    let b2: u8 = (unsigned / 0x1_0000 % 256) as u8;
    let b3: u8 = (unsigned / 0x100_0000 % 256) as u8;
    if big_endian {
        out.push(b3);
        out.push(b2);
        out.push(b1);
        out.push(b0);
    } else {
        out.push(b0);
        out.push(b1);
        out.push(b2);
        out.push(b3);
    }
    proof {
        assert(final(out)@ =~= old(out)@ + field32(x, big_endian));
    }
}

/// Encodes the record that sets the autocentering strength to `value`, in
/// the byte order asked for.
pub fn set_autocenter(value: i32, big_endian: bool) -> (bytes: Vec<u8>)
    ensures
        bytes@ == record(value, big_endian),
        bytes@.len() == RECORD_LEN,
{
    let mut out: Vec<u8> = Vec::new();
    let mut i: usize = 0;
    while i < 16
        invariant
            i <= 16,
            out@ == Seq::new(i as nat, |k: int| 0u8),
        decreases 16 - i,
    {
        out.push(0);
        i += 1;
        proof {
            assert(out@ =~= Seq::new(i as nat, |k: int| 0u8));
        }
    }
    push16(&mut out, EV_FF, big_endian);
    push16(&mut out, FF_AUTOCENTER, big_endian);
    push32(&mut out, value, big_endian);
    out
}

/// The decimal digits of `n`, most significant first, as ASCII.
pub open spec fn digits_of(n: nat) -> Seq<u8>
    decreases n,
{
    if n < 10 {
        seq![(48 + n) as u8]
    } else {
        digits_of(n / 10).push((48 + n % 10) as u8)
    }
}

/// The path of the device file with event index `index`.
pub open spec fn path_of(index: u8) -> Seq<u8> {
    DEVICE_PREFIX.spec_bytes() + digits_of(index as nat)
}

/// The path of the device file with event index `index`, as bytes.
pub fn device_path(index: u8) -> (path: Vec<u8>)
    ensures
        path@ == path_of(index),
{
    let mut path = DEVICE_PREFIX.as_bytes_vec();
    let ghost prefix = path@;
    if index >= 100 {
        path.push(48 + index / 100);
    }
    if index >= 10 {
        path.push(48 + index / 10 % 10);
    }
    path.push(48 + index % 10);
    proof {
        reveal_with_fuel(digits_of, 3);
        assert(path@ =~= prefix + digits_of(index as nat));
    }
    path
}

/// The number of bytes from `from` up to the next line feed or the end
/// of the text.
pub open spec fn line_len(text: Seq<u8>, from: int) -> nat
    decreases text.len() - from,
{
    if from < 0 || from >= text.len() || text[from] == 10 {
        0
    } else {
        1 + line_len(text, from + 1)
    }
}

/// The number of bytes that the line at `from` takes up, its line feed
/// included where it has one.
pub open spec fn line_span(text: Seq<u8>, from: int) -> nat {
    let n = line_len(text, from);
    if from + n < text.len() {
        n + 1
    } else {
        n
    }
}

/// A line within the text ends within the text.
pub proof fn lemma_line_within(text: Seq<u8>, from: int)
    requires
        0 <= from <= text.len(),
    ensures
        from + line_len(text, from) <= text.len(),
        from + line_span(text, from) <= text.len(),
        from < text.len() ==> line_span(text, from) >= 1,
    decreases text.len() - from,
{
    if from < text.len() && text[from] != 10 {
        lemma_line_within(text, from + 1);
    }
}

/// Where the content of the line at `from` stops: before its line feed,
/// and before a carriage return that precedes the line feed.
pub open spec fn line_stop(text: Seq<u8>, from: int) -> int {
    let end = from + line_len(text, from);
    if end > from && end < text.len() && text[end - 1] == 13 {
        end - 1
    } else {
        end
    }
}

/// The content of the line at `from`.
pub open spec fn line_at(text: Seq<u8>, from: int) -> Seq<u8> {
    text.subrange(from, line_stop(text, from))
}

/// The number of bytes that the block at `from` takes up: its lines up to
/// and including the first empty one, or up to the end of the text.
pub open spec fn block_len(text: Seq<u8>, from: int) -> nat
    decreases text.len() - from,
    via block_len_decreases
{
    if from < 0 || from >= text.len() {
        0
    } else if line_stop(text, from) == from {
        line_span(text, from)
    } else {
        line_span(text, from) + block_len(text, from + line_span(text, from))
    }
}

#[via_fn]
proof fn block_len_decreases(text: Seq<u8>, from: int) {
    if 0 <= from < text.len() {
        lemma_line_within(text, from);
    }
}

/// A block within the text is not empty and ends within the text.
pub proof fn lemma_block_within(text: Seq<u8>, from: int)
    requires
        0 <= from <= text.len(),
    ensures
        from + block_len(text, from) <= text.len(),
        from < text.len() ==> block_len(text, from) >= 1,
    decreases text.len() - from,
{
    if from < text.len() {
        lemma_line_within(text, from);
        if line_stop(text, from) != from {
            lemma_block_within(text, from + line_span(text, from));
        }
    }
}

/// Whether one of the lines that begin in `[from, end)` is `line`.
pub open spec fn has_line(text: Seq<u8>, from: int, end: int, line: Seq<u8>) -> bool
    decreases text.len() - from,
    via has_line_decreases
{
    0 <= from < end && from < text.len() && (line_at(text, from) == line || has_line(
        text,
        from + line_span(text, from),
        end,
        line,
    ))
}

#[via_fn]
proof fn has_line_decreases(text: Seq<u8>, from: int, end: int, line: Seq<u8>) {
    if 0 <= from < text.len() {
        lemma_line_within(text, from);
    }
}

/// Where the first of the lines that begin in `[from, end)` and start
/// with `prefix` begins.
pub open spec fn first_with_prefix(text: Seq<u8>, from: int, end: int, prefix: Seq<u8>) -> Option<
    int,
>
    decreases text.len() - from,
    via first_with_prefix_decreases
{
    if from < 0 || from >= end || from >= text.len() {
        None
    } else if prefix.is_prefix_of(line_at(text, from)) {
        Some(from)
    } else {
        first_with_prefix(text, from + line_span(text, from), end, prefix)
    }
}

#[via_fn]
proof fn first_with_prefix_decreases(text: Seq<u8>, from: int, end: int, prefix: Seq<u8>) {
    if 0 <= from < text.len() {
        lemma_line_within(text, from);
    }
}

/// The first block at or after `from`, a block's beginning, that holds
/// the line `name`: where it begins and where it ends.
pub open spec fn named_block(text: Seq<u8>, from: int, name: Seq<u8>) -> Option<(int, int)>
    decreases text.len() - from,
    via named_block_decreases
{
    if from < 0 || from >= text.len() {
        None
    } else {
        let end = from + block_len(text, from);
        if has_line(text, from, end, name) {
            Some((from, end))
        } else {
            named_block(text, end, name)
        }
    }
}

#[via_fn]
proof fn named_block_decreases(text: Seq<u8>, from: int, name: Seq<u8>) {
    if 0 <= from < text.len() {
        lemma_block_within(text, from);
    }
}

/// ASCII white space: what separates the handlers of a line.
pub open spec fn is_space(b: u8) -> bool {
    b == 32 || (9 <= b && b <= 13)
}

/// The number of bytes from `from` up to the next white space or `end`.
pub open spec fn token_len(text: Seq<u8>, from: int, end: int) -> nat
    decreases end - from,
{
    if from < 0 || from >= end || from >= text.len() || is_space(text[from]) {
        0
    } else {
        1 + token_len(text, from + 1, end)
    }
}

/// The first token in `[from, end)` that starts with `prefix`: where what
/// follows the prefix begins, and where the token ends.
pub open spec fn token_after(text: Seq<u8>, from: int, end: int, prefix: Seq<u8>) -> Option<
    (int, int),
>
    decreases end - from,
    via token_after_decreases
{
    if from < 0 || from >= end || from >= text.len() {
        None
    } else if is_space(text[from]) {
        token_after(text, from + 1, end, prefix)
    } else {
        let stop = from + token_len(text, from, end);
        if prefix.is_prefix_of(text.subrange(from, stop)) {
            Some((from + prefix.len(), stop))
        } else {
            token_after(text, stop, end, prefix)
        }
    }
}

/// A token within a range ends within the range.
pub proof fn lemma_token_within(text: Seq<u8>, from: int, end: int)
    requires
        0 <= from <= end,
    ensures
        from + token_len(text, from, end) <= end,
    decreases end - from,
{
    if from < end && from < text.len() && !is_space(text[from]) {
        lemma_token_within(text, from + 1, end);
    }
}

#[via_fn]
proof fn token_after_decreases(text: Seq<u8>, from: int, end: int, prefix: Seq<u8>) {
    if 0 <= from < end && from < text.len() && !is_space(text[from]) {
        lemma_token_within(text, from, end);
        assert(token_len(text, from, end) >= 1);
    }
}

/// True of an ASCII decimal digit.
pub open spec fn is_digit(b: u8) -> bool {
    48 <= b && b <= 57
}

/// True when every byte is a decimal digit.
pub open spec fn all_digits(s: Seq<u8>) -> bool {
    forall|i: int| 0 <= i < s.len() ==> is_digit(#[trigger] s[i])
}

/// The number that a sequence of decimal digits denotes.
pub open spec fn decimal(digits: Seq<u8>) -> nat
    decreases digits.len(),
{
    if digits.len() == 0 {
        0
    } else {
        decimal(digits.drop_last()) * 10 + (digits.last() - 48) as nat
    }
}

/// The event index that `digits` denotes: one or more decimal digits and
/// nothing else, of a value up to 255.
pub open spec fn parsed_index(digits: Seq<u8>) -> Option<u8> {
    if digits.len() > 0 && all_digits(digits) && decimal(digits) <= 255 {
        Some(decimal(digits) as u8)
    } else {
        None
    }
}

/// The event index of the device that the line `name` names in the
/// registry `text`. The first block that holds the line decides; in it the
/// first line that starts with `handlers`; in that line, after the prefix,
/// the first token that starts with `event`; and what follows `event` in
/// that token has to be an index. Where any of these is missing there is
/// no index.
pub open spec fn index_in(
    text: Seq<u8>,
    name: Seq<u8>,
    handlers: Seq<u8>,
    event: Seq<u8>,
) -> Option<u8> {
    match named_block(text, 0, name) {
        None => None,
        Some((begin, end)) => match first_with_prefix(text, begin, end, handlers) {
            None => None,
            Some(line) => match token_after(
                text,
                line + handlers.len(),
                line_stop(text, line),
                event,
            ) {
                None => None,
                Some((from, to)) => parsed_index(text.subrange(from, to)),
            },
        },
    }
}

/// The event index of the wheel according to the registry `text`.
pub open spec fn wheel_index(text: Seq<u8>) -> Option<u8> {
    index_in(text, NAME.spec_bytes(), HANDLERS.spec_bytes(), EVENT.spec_bytes())
}

/// The digits of an index denote that index: a path made here names the
/// device that the registry named.
pub proof fn lemma_digits_denote(index: u8)
    ensures
        parsed_index(digits_of(index as nat)) == Some(index),
{
    let n = index as nat;
    reveal_with_fuel(digits_of, 3);
    reveal_with_fuel(decimal, 4);
    let d = digits_of(n);
    if n < 10 {
        assert(d.drop_last() =~= Seq::<u8>::empty());
    } else if n < 100 {
        assert(d.drop_last() =~= digits_of(n / 10));
        assert(d.drop_last().drop_last() =~= Seq::<u8>::empty());
    } else {
        assert(d.drop_last() =~= digits_of(n / 10));
        assert(d.drop_last().drop_last() =~= digits_of(n / 100));
        assert(d.drop_last().drop_last().drop_last() =~= Seq::<u8>::empty());
    }
}

/// Computes `line_len`.
fn line_length(text: &[u8], from: usize) -> (n: usize)
    requires
        from <= text@.len(),
    ensures
        n == line_len(text@, from as int),
        from + n <= text@.len(),
{
    let mut i: usize = from;
    while i < text.len() && text[i] != 10
        invariant
            from <= i <= text@.len(),
            line_len(text@, from as int) == (i - from) + line_len(text@, i as int),
        decreases text@.len() - i,
    {
        i += 1;
    }
    i - from
}

/// Where the line at `from` stops and where the next line begins.
fn line_bounds(text: &[u8], from: usize) -> (r: (usize, usize))
    requires
        from < text@.len(),
    ensures
        r.0 == line_stop(text@, from as int),
        r.1 == from + line_span(text@, from as int),
        from <= r.0 <= r.1 <= text@.len(),
        from < r.1,
{
    let len = text.len();
    let n = line_length(text, from);
    let end: usize = from + n;
    let stop: usize = if end > from && end < len && text[end - 1] == 13 {
        end - 1
    } else {
        end
    };
    let next: usize = if end < text.len() { end + 1 } else { end };
    (stop, next)
}

/// Whether `text[from..to]` is `pattern`.
fn range_is(text: &[u8], from: usize, to: usize, pattern: &[u8]) -> (same: bool)
    requires
        from <= to <= text@.len(),
    ensures
        same == (text@.subrange(from as int, to as int) == pattern@),
{
    if to - from != pattern.len() {
        return false;
    }
    let ghost range = text@.subrange(from as int, to as int);
    let mut i: usize = 0;
    while i < pattern.len()
        invariant
            i <= pattern@.len(),
            pattern@.len() == to - from,
            from <= to <= text@.len(),
            range == text@.subrange(from as int, to as int),
            forall|k: int| 0 <= k < i ==> range[k] == pattern@[k],
        decreases pattern@.len() - i,
    {
        if text[from + i] != pattern[i] {
            proof {
                assert(range[i as int] != pattern@[i as int]);
            }
            return false;
        }
        i += 1;
    }
    proof {
        assert(range =~= pattern@);
    }
    true
}

/// Whether `text[from..to]` starts with `pattern`.
fn range_starts_with(text: &[u8], from: usize, to: usize, pattern: &[u8]) -> (starts: bool)
    requires
        from <= to <= text@.len(),
    ensures
        starts == pattern@.is_prefix_of(text@.subrange(from as int, to as int)),
{
    if to - from < pattern.len() {
        return false;
    }
    proof {
        assert(text@.subrange(from as int, to as int).subrange(0, pattern@.len() as int)
            =~= text@.subrange(from as int, from + pattern@.len()));
    }
    range_is(text, from, from + pattern.len(), pattern)
}

/// Where the block at `from` ends.
fn block_end(text: &[u8], from: usize) -> (end: usize)
    requires
        from < text@.len(),
    ensures
        end == from + block_len(text@, from as int),
        from < end <= text@.len(),
{
    let mut pos: usize = from;
    loop
        invariant
            from <= pos < text@.len(),
            block_len(text@, from as int) == (pos - from) + block_len(text@, pos as int),
        decreases text@.len() - pos,
    {
        let (stop, next) = line_bounds(text, pos);
        if stop == pos || next >= text.len() {
            proof {
                if stop != pos {
                    assert(block_len(text@, next as int) == 0);
                }
            }
            return next;
        }
        pos = next;
    }
}

/// Computes `has_line`.
fn block_has_line(text: &[u8], from: usize, end: usize, line: &[u8]) -> (found: bool)
    requires
        from <= end <= text@.len(),
    ensures
        found == has_line(text@, from as int, end as int, line@),
{
    let mut pos: usize = from;
    while pos < end
        invariant
            from <= pos <= text@.len(),
            end <= text@.len(),
            has_line(text@, from as int, end as int, line@) == has_line(
                text@,
                pos as int,
                end as int,
                line@,
            ),
        decreases text@.len() - pos,
    {
        let (stop, next) = line_bounds(text, pos);
        if range_is(text, pos, stop, line) {
            return true;
        }
        pos = next;
    }
    false
}

/// Computes `first_with_prefix`.
fn block_line_with_prefix(text: &[u8], from: usize, end: usize, prefix: &[u8]) -> (found: Option<
    (usize, usize),
>)
    requires
        from <= end <= text@.len(),
    ensures
        found.is_some() == first_with_prefix(text@, from as int, end as int, prefix@).is_some(),
        found.is_some() ==> first_with_prefix(text@, from as int, end as int, prefix@) == Some(
            found.unwrap().0 as int,
        ) && found.unwrap().1 == line_stop(text@, found.unwrap().0 as int) && found.unwrap().0
            + prefix@.len() <= found.unwrap().1 <= text@.len(),
{
    let mut pos: usize = from;
    while pos < end
        invariant
            from <= pos <= text@.len(),
            end <= text@.len(),
            first_with_prefix(text@, from as int, end as int, prefix@) == first_with_prefix(
                text@,
                pos as int,
                end as int,
                prefix@,
            ),
        decreases text@.len() - pos,
    {
        let (stop, next) = line_bounds(text, pos);
        if range_starts_with(text, pos, stop, prefix) {
            return Some((pos, stop));
        }
        pos = next;
    }
    None
}

/// Computes `named_block` from the beginning of the text.
fn find_block(text: &[u8], name: &[u8]) -> (found: Option<(usize, usize)>)
    ensures
        found.is_some() == named_block(text@, 0, name@).is_some(),
        found.is_some() ==> named_block(text@, 0, name@) == Some(
            (found.unwrap().0 as int, found.unwrap().1 as int),
        ) && found.unwrap().0 <= found.unwrap().1 <= text@.len(),
{
    let mut pos: usize = 0;
    while pos < text.len()
        invariant
            pos <= text@.len(),
            named_block(text@, 0, name@) == named_block(text@, pos as int, name@),
        decreases text@.len() - pos,
    {
        let end = block_end(text, pos);
        if block_has_line(text, pos, end, name) {
            return Some((pos, end));
        }
        pos = end;
    }
    None
}

/// Computes `token_len`.
fn token_length(text: &[u8], from: usize, end: usize) -> (n: usize)
    requires
        from <= end <= text@.len(),
    ensures
        n == token_len(text@, from as int, end as int),
        from + n <= end,
{
    let mut i: usize = from;
    while i < end && !space(text[i])
        invariant
            from <= i <= end <= text@.len(),
            token_len(text@, from as int, end as int) == (i - from) + token_len(
                text@,
                i as int,
                end as int,
            ),
        decreases end - i,
    {
        i += 1;
    }
    i - from
}

/// Computes `is_space`.
fn space(b: u8) -> (r: bool)
    ensures
        r == is_space(b),
{
    b == 32 || (9 <= b && b <= 13)
}

/// Computes `token_after`.
fn find_token(text: &[u8], from: usize, end: usize, prefix: &[u8]) -> (found: Option<
    (usize, usize),
>)
    requires
        from <= end <= text@.len(),
    ensures
        found.is_some() == token_after(text@, from as int, end as int, prefix@).is_some(),
        found.is_some() ==> token_after(text@, from as int, end as int, prefix@) == Some(
            (found.unwrap().0 as int, found.unwrap().1 as int),
        ) && found.unwrap().0 <= found.unwrap().1 <= text@.len(),
{
    let mut pos: usize = from;
    while pos < end
        invariant
            from <= pos <= end <= text@.len(),
            token_after(text@, from as int, end as int, prefix@) == token_after(
                text@,
                pos as int,
                end as int,
                prefix@,
            ),
        decreases end - pos,
    {
        if space(text[pos]) {
            pos += 1;
        } else {
            let stop: usize = pos + token_length(text, pos, end);
            if range_starts_with(text, pos, stop, prefix) {
                return Some((pos + prefix.len(), stop));
            }
            pos = stop;
        }
    }
    None
}

/// A number never gets smaller when a digit is appended.
proof fn lemma_decimal_grows(digits: Seq<u8>, k: int)
    requires
        all_digits(digits),
        0 <= k <= digits.len(),
    ensures
        decimal(digits.take(k)) <= decimal(digits),
    decreases digits.len() - k,
{
    if k < digits.len() {
        lemma_decimal_grows(digits, k + 1);
        assert(digits.take(k + 1).drop_last() =~= digits.take(k));
        assert(is_digit(digits[k]));
        assert(digits.take(k + 1).last() == digits[k]);
    } else {
        assert(digits.take(k) =~= digits);
    }
}

/// Computes `parsed_index` of `text[from..to]`.
fn parse_index(text: &[u8], from: usize, to: usize) -> (index: Option<u8>)
    requires
        from <= to <= text@.len(),
    ensures
        index == parsed_index(text@.subrange(from as int, to as int)),
{
    let ghost digits = text@.subrange(from as int, to as int);
    if from == to {
        return None;
    }
    let mut value: u32 = 0;
    let mut i: usize = from;
    while i < to
        invariant
            from <= i <= to <= text@.len(),
            digits == text@.subrange(from as int, to as int),
            all_digits(digits.take(i - from)),
            value == decimal(digits.take(i - from)),
            value <= 255,
        decreases to - i,
    {
        let b = text[i];
        proof {
            assert(digits[i - from] == b);
            assert(digits.take(i - from + 1).drop_last() =~= digits.take(i - from));
            assert(digits.take(i - from + 1).last() == b);
        }
        if b < 48 || b > 57 {
            return None;
        }
        let digit: u32 = (b - 48) as u32;
        value = value * 10 + digit;
        if value > 255 {
            proof {
                if all_digits(digits) {
                    lemma_decimal_grows(digits, i - from + 1);
                }
            }
            return None;
        }
        i += 1;
    }
    proof {
        assert(digits.take(to - from) =~= digits);
    }
    Some(value as u8)
}

/// The event index of the device that the line `name` names in the
/// registry `text`, for any choice of the three fixed strings.
pub fn find_index(text: &[u8], name: &[u8], handlers: &[u8], event: &[u8]) -> (index: Option<u8>)
    ensures
        index == index_in(text@, name@, handlers@, event@),
{
    match find_block(text, name) {
        None => None,
        Some((begin, end)) => match block_line_with_prefix(text, begin, end, handlers) {
            None => None,
            Some((line, stop)) => match find_token(text, line + handlers.len(), stop, event) {
                None => None,
                Some((from, to)) => parse_index(text, from, to),
            },
        },
    }
}

/// The path of the wheel's device file according to the registry `text`,
/// if the registry names the wheel and an event handler for it.
pub fn find(text: &[u8]) -> (path: Option<Vec<u8>>)
    ensures
        path.is_some() == wheel_index(text@).is_some(),
        path.is_some() ==> path.unwrap()@ == path_of(wheel_index(text@).unwrap()),
{
    match find_index(text, NAME.as_bytes(), HANDLERS.as_bytes(), EVENT.as_bytes()) {
        Some(index) => Some(device_path(index)),
        None => None,
    }
}

} // verus!
