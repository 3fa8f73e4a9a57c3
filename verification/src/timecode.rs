//! Timecodes of the form `HH:MM:SS` and `HH:MM:SS.mmm`, counted in
//! milliseconds, and the bounds of a clip within its source.

use vstd::prelude::*;
use crate::text::{
    chars_of, decimal, padded_decimal, parse_number, parsed_number, push_three_digits,
    push_two_digits, split, split_ranges,
};

verus! {

/// Milliseconds in a second.
pub const MS_PER_SECOND: u64 = 1000;

/// Milliseconds in a minute.
pub const MS_PER_MINUTE: u64 = 60000;

/// Milliseconds in an hour.
pub const MS_PER_HOUR: u64 = 3600000;

/// The timecode of `ms` milliseconds: hours, minutes and seconds with two
/// digits each (more for a hundred hours and beyond), and the milliseconds
/// with three digits behind a dot unless they are zero.
pub open spec fn timecode(ms: nat) -> Seq<char> {
    let hours = ms / (MS_PER_HOUR as nat);
    let minutes = (ms % (MS_PER_HOUR as nat)) / (MS_PER_MINUTE as nat);
    let seconds = (ms % (MS_PER_MINUTE as nat)) / (MS_PER_SECOND as nat);
    let millis = ms % (MS_PER_SECOND as nat);
    let whole = padded_decimal(hours, 2) + seq![':'] + padded_decimal(minutes, 2) + seq![':']
        + padded_decimal(seconds, 2);
    if millis == 0 {
        whole
    } else {
        whole + seq!['.'] + padded_decimal(millis, 3)
    }
}

/// Writes `ms` milliseconds as a timecode.
pub fn format_timecode(ms: u64) -> (r: String)
    ensures
        r@ == timecode(ms as nat),
{
    let hours = ms / MS_PER_HOUR;
    let minutes = (ms % MS_PER_HOUR) / MS_PER_MINUTE;
    let seconds = (ms % MS_PER_MINUTE) / MS_PER_SECOND;
    let millis = ms % MS_PER_SECOND;
    proof {
        reveal_strlit(":");
        reveal_strlit(".");
    }
    let mut out = String::new();
    push_two_digits(&mut out, hours);
    out.append(":");
    push_two_digits(&mut out, minutes);
    out.append(":");
    push_two_digits(&mut out, seconds);
    proof {
        assert(":"@ =~= seq![':']);
        assert(out@ =~= padded_decimal(hours as nat, 2) + seq![':'] + padded_decimal(
            minutes as nat,
            2,
        ) + seq![':'] + padded_decimal(seconds as nat, 2));
    }
    if millis != 0 {
        out.append(".");
        push_three_digits(&mut out, millis);
        proof {
            assert("."@ =~= seq!['.']);
        }
    }
    out
}

/// The milliseconds that a fraction of a second of one to three digits
/// stands for: the digits, filled up with zeros on the right.
pub open spec fn fraction_ms(digits: Seq<char>) -> Option<nat> {
    match parsed_number(digits, 10, 999) {
        Some(v) => if digits.len() == 1 {
            Some(v * 100)
        } else if digits.len() == 2 {
            Some(v * 10)
        } else if digits.len() == 3 {
            Some(v)
        } else {
            None
        },
        None => None,
    }
}

/// The milliseconds that the seconds field of a timecode stands for: one or
/// two digits below 60, and behind a dot one to three digits, if there is a
/// dot.
pub open spec fn seconds_field_ms(field: Seq<char>) -> Option<nat> {
    let parts = split(field, '.');
    if parts.len() == 1 {
        match parsed_number(parts[0], 10, 59) {
            Some(s) => if parts[0].len() <= 2 {
                Some(s * 1000)
            } else {
                None
            },
            None => None,
        }
    } else if parts.len() == 2 {
        match (parsed_number(parts[0], 10, 59), fraction_ms(parts[1])) {
            (Some(s), Some(f)) => if parts[0].len() <= 2 {
                Some(s * 1000 + f)
            } else {
                None
            },
            _ => None,
        }
    } else {
        None
    }
}

/// The milliseconds that a timecode stands for, if `text` is a timecode:
/// hours, minutes and seconds between colons, the minutes and seconds of one
/// or two digits and below 60, the hours below a million.
pub open spec fn timecode_ms(text: Seq<char>) -> Option<nat> {
    let fields = split(text, ':');
    if fields.len() != 3 {
        None
    } else {
        match (
            parsed_number(fields[0], 10, 999999),
            parsed_number(fields[1], 10, 59),
            seconds_field_ms(fields[2]),
        ) {
            (Some(h), Some(m), Some(s)) => if fields[1].len() <= 2 {
                Some(h * (MS_PER_HOUR as nat) + m * (MS_PER_MINUTE as nat) + s)
            } else {
                None
            },
            _ => None,
        }
    }
}

/// Reads the seconds field of a timecode.
fn parse_seconds_field(chars: &Vec<char>, from: usize, to: usize) -> (r: Option<u64>)
    requires
        from <= to <= chars.len(),
    ensures
        match r {
            Some(v) => seconds_field_ms(chars@.subrange(from as int, to as int)) == Some(v as nat)
                && v < 60000,
            None => seconds_field_ms(chars@.subrange(from as int, to as int)) is None,
        },
{
    let field = crate::text::copy_chars(chars, from, to);
    let ranges = split_ranges(&field, '.');
    if ranges.len() == 1 {
        let (a, b) = ranges[0];
        if b - a > 2 {
            return None;
        }
        match parse_number(&field, a, b, 10, 59) {
            Some(s) => Some(s * 1000),
            None => None,
        }
    } else if ranges.len() == 2 {
        let (a, b) = ranges[0];
        let (c, d) = ranges[1];
        let seconds = parse_number(&field, a, b, 10, 59);
        let fraction = parse_number(&field, c, d, 10, 999);
        match (seconds, fraction) {
            (Some(s), Some(f)) => {
                if b - a > 2 {
                    return None;
                }
                let n = d - c;
                if n == 1 {
                    assert(f <= 9) by {
                        reveal_with_fuel(crate::text::digits_value, 2);
                        lemma_digit_bound(field@.subrange(c as int, d as int));
                    }
                    Some(s * 1000 + f * 100)
                } else if n == 2 {
                    assert(f <= 99) by {
                        lemma_two_digit_bound(field@.subrange(c as int, d as int));
                    }
                    Some(s * 1000 + f * 10)
                } else if n == 3 {
                    Some(s * 1000 + f)
                } else {
                    None
                }
            },
            _ => None,
        }
    } else {
        None
    }
}

/// One decimal digit is worth at most nine.
proof fn lemma_digit_bound(s: Seq<char>)
    requires
        s.len() == 1,
        crate::text::all_digits(s, 10),
    ensures
        crate::text::digits_value(s, 10) <= 9,
{
    reveal_with_fuel(crate::text::digits_value, 2);
    assert(crate::text::digit_value(s[0], 10) is Some);
    assert(s.last() == s[0]);
}

/// Two decimal digits are worth at most ninety-nine.
proof fn lemma_two_digit_bound(s: Seq<char>)
    requires
        s.len() == 2,
        crate::text::all_digits(s, 10),
    ensures
        crate::text::digits_value(s, 10) <= 99,
{
    let head = s.drop_last();
    assert(head.len() == 1);
    assert(head[0] == s[0]);
    assert(crate::text::digit_value(s[0], 10) is Some);
    assert(crate::text::digit_value(s[1], 10) is Some);
    assert(crate::text::all_digits(head, 10));
    lemma_digit_bound(head);
    assert(s.last() == s[1]);
}

/// Reads a timecode.
pub fn parse_timecode(text: &str) -> (r: Option<u64>)
    ensures
        match r {
            Some(ms) => timecode_ms(text@) == Some(ms as nat),
            None => timecode_ms(text@) is None,
        },
{
    let chars = chars_of(text);
    let ranges = split_ranges(&chars, ':');
    if ranges.len() != 3 {
        return None;
    }
    let (a, b) = ranges[0];
    let (c, d) = ranges[1];
    let (e, f) = ranges[2];
    let hours = parse_number(&chars, a, b, 10, 999999);
    let minutes = parse_number(&chars, c, d, 10, 59);
    let seconds = parse_seconds_field(&chars, e, f);
    match (hours, minutes, seconds) {
        (Some(h), Some(m), Some(s)) => {
            if d - c > 2 {
                return None;
            }
            Some(h * MS_PER_HOUR + m * MS_PER_MINUTE + s)
        },
        _ => None,
    }
}

/// A run of decimal digits holds neither a colon nor a dot.
proof fn lemma_digits_hold_no_mark(s: Seq<char>)
    requires
        crate::text::all_digits(s, 10),
    ensures
        forall|i: int| 0 <= i < s.len() ==> s[i] != ':' && s[i] != '.',
{
    assert forall|i: int| 0 <= i < s.len() implies s[i] != ':' && s[i] != '.' by {
        assert(crate::text::digit_value(s[i], 10) is Some);
    }
}

/// What is written is read back: the timecode of a time below a million
/// hours stands for that time.
pub proof fn lemma_timecode_round_trip(ms: nat)
    requires
        ms / (MS_PER_HOUR as nat) <= 999999,
    ensures
        timecode_ms(timecode(ms)) == Some(ms),
{
    let hours = ms / (MS_PER_HOUR as nat);
    let minutes = (ms % (MS_PER_HOUR as nat)) / (MS_PER_MINUTE as nat);
    let seconds = (ms % (MS_PER_MINUTE as nat)) / (MS_PER_SECOND as nat);
    let millis = ms % (MS_PER_SECOND as nat);
    let h = padded_decimal(hours, 2);
    let m = padded_decimal(minutes, 2);
    let s = padded_decimal(seconds, 2);
    let f = padded_decimal(millis, 3);
    crate::text::lemma_padded_value(hours, 2);
    crate::text::lemma_padded_value(minutes, 2);
    crate::text::lemma_padded_value(seconds, 2);
    crate::text::lemma_padded_value(millis, 3);
    crate::text::lemma_decimal_len(minutes);
    crate::text::lemma_decimal_len(seconds);
    crate::text::lemma_decimal_len(millis);
    lemma_digits_hold_no_mark(h);
    lemma_digits_hold_no_mark(m);
    lemma_digits_hold_no_mark(s);
    lemma_digits_hold_no_mark(f);
    assert(m.len() == 2 && s.len() == 2 && f.len() == 3);
    let field = if millis == 0 {
        s
    } else {
        s + seq!['.'] + f
    };
    // The seconds field.
    if millis == 0 {
        crate::text::lemma_split_first(s, Seq::empty(), '.');
        assert(split(field, '.') == seq![s]);
    } else {
        crate::text::lemma_split_first(s, f, '.');
        crate::text::lemma_split_first(f, Seq::empty(), '.');
        assert(split(field, '.') =~= seq![s, f]);
        assert(crate::text::parsed_number(f, 10, 999) == Some(millis));
        assert(fraction_ms(f) == Some(millis));
    }
    assert(crate::text::parsed_number(s, 10, 59) == Some(seconds));
    assert(seconds_field_ms(field) == Some(seconds * 1000 + millis));
    // The three fields.
    assert forall|i: int| 0 <= i < field.len() implies field[i] != ':' by {
        if i < s.len() {
            assert(field[i] == s[i]);
        } else if millis != 0 && i > s.len() {
            assert(field[i] == f[i - s.len() - 1]);
        }
    }
    let text = timecode(ms);
    assert(text =~= h + seq![':'] + (m + seq![':'] + field));
    crate::text::lemma_split_first(h, m + seq![':'] + field, ':');
    crate::text::lemma_split_first(m, field, ':');
    crate::text::lemma_split_first(field, Seq::empty(), ':');
    assert(split(text, ':') =~= seq![h, m, field]);
    assert(crate::text::parsed_number(h, 10, 999999) == Some(hours));
    assert(crate::text::parsed_number(m, 10, 59) == Some(minutes));
    assert(hours * 3600000 + minutes * 60000 + (seconds * 1000 + millis) == ms);
}

/// The bounds of a clip within its source, in milliseconds.
#[derive(Clone, Copy, Debug, PartialEq, Eq, Structural)]
pub struct ClipTimes {
    pub start_ms: u64,
    pub end_ms: u64,
    /// The configured end lay behind the end of the source and was pulled
    /// in; the pulled-in end is to be stored.
    pub clamped: bool,
    /// The configured bounds made no clip and were replaced by the whole
    /// source.
    pub reset: bool,
}

/// Whether a configured end lies behind the end of a source of `duration`
/// milliseconds. Times that differ by no more than a millisecond count as
/// equal.
pub open spec fn exceeds(configured_end: u64, duration: u64) -> bool {
    configured_end > duration + 1
}

/// The bounds of a clip. A configured end behind the end of the source is
/// pulled in to it. An end that is missing or zero is the end of the
/// source. Where the start does not lie before the end, the clip is the
/// whole source.
pub open spec fn clip_times(start: Option<u64>, end: Option<u64>, duration: u64) -> ClipTimes {
    let begin = match start {
        Some(s) => s,
        None => 0,
    };
    let clamped = end is Some && exceeds(end->0, duration);
    let zero_end = end is Some && end->0 == 0;
    let stop = match end {
        Some(e) => if e == 0 || exceeds(e, duration) {
            duration
        } else {
            e
        },
        None => duration,
    };
    if begin >= stop {
        ClipTimes { start_ms: 0, end_ms: duration, clamped, reset: true }
    } else {
        ClipTimes { start_ms: begin, end_ms: stop, clamped, reset: zero_end }
    }
}

/// Finds the bounds of a clip in a source of `duration` milliseconds.
pub fn normalize_clip_times(start: Option<u64>, end: Option<u64>, duration: u64) -> (r: ClipTimes)
    ensures
        r == clip_times(start, end, duration),
{
    let begin = match start {
        Some(s) => s,
        None => 0,
    };
    let mut clamped = false;
    let mut reset = false;
    let stop = match end {
        Some(e) => {
            if e == 0 {
                reset = true;
                duration
            } else if duration < u64::MAX && e > duration + 1 {
                clamped = true;
                duration
            } else {
                e
            }
        },
        None => duration,
    };
    if begin >= stop {
        ClipTimes { start_ms: 0, end_ms: duration, clamped, reset: true }
    } else {
        ClipTimes { start_ms: begin, end_ms: stop, clamped, reset }
    }
}

/// A clip lies inside its source, but for the millisecond by which equal
/// times may differ, and is empty only where the source is.
pub proof fn lemma_clip_within_source(start: Option<u64>, end: Option<u64>, duration: u64)
    ensures
        clip_times(start, end, duration).start_ms <= clip_times(start, end, duration).end_ms,
        clip_times(start, end, duration).end_ms <= duration + 1,
        duration > 0 ==> clip_times(start, end, duration).start_ms < clip_times(
            start,
            end,
            duration,
        ).end_ms,
{
}

} // verus!
