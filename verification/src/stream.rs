//! Playback addresses: when they expire, and which quality is asked for.

use vstd::prelude::*;
use crate::text::{
    all_digits, chars_of, decimal_digit_value, is_split, parse_number, parse_unsigned,
    parsed_number, parsed_unsigned, split, split_ranges, str_eq,
};

verus! {

/// The quality that is asked for where the settings name none.
pub const DEFAULT_QUALITY: i64 = 10000;

/// The pairs of the query of an address, names and values decoded, or
/// `None` where the text is no absolute address.
pub uninterp spec fn url_query_pairs(url: Seq<char>) -> Option<Seq<(Seq<char>, Seq<char>)>>;

/// The texts of a list of pairs.
pub open spec fn pairs_of(list: Seq<(String, String)>) -> Seq<(Seq<char>, Seq<char>)> {
    list.map_values(|p: (String, String)| (p.0@, p.1@))
}

/// Parses `url` with `url::Url::parse` and collects `Url::query_pairs`. The
/// contract names the pairs as a function of the text; a text that does not
/// parse gives `None`.
#[verifier::external_body]
pub(crate) fn query_pairs(url: &str) -> (r: Option<Vec<(String, String)>>)
    ensures
        match r {
            Some(pairs) => url_query_pairs(url@) == Some(pairs_of(pairs@)),
            None => url_query_pairs(url@) is None,
        },
{
    match url::Url::parse(url) {
        Ok(parsed) => Some(
            parsed.query_pairs().map(|(k, v)| (k.into_owned(), v.into_owned())).collect(),
        ),
        Err(_) => None,
    }
}

/// The time that a query value names: a run of decimal digits is a decimal
/// number; anything else is read as a hexadecimal number, and failing that
/// as a decimal one, in both cases with one `+` allowed in front. A number
/// beyond 64 bits is none.
pub open spec fn expire_value(value: Seq<char>) -> Option<nat> {
    if value.len() == 0 {
        None
    } else if all_digits(value, 10) {
        parsed_number(value, 10, u64::MAX as nat)
    } else {
        match parsed_unsigned(value, 16, u64::MAX as nat) {
            Some(v) => Some(v),
            None => parsed_unsigned(value, 10, u64::MAX as nat),
        }
    }
}

/// Whether every character is a decimal digit.
pub fn only_decimal_digits(chars: &Vec<char>) -> (r: bool)
    ensures
        r == all_digits(chars@, 10),
{
    let mut i: usize = 0;
    while i < chars.len()
        invariant
            i <= chars.len(),
            forall|j: int| 0 <= j < i ==> (#[trigger] crate::text::digit_value(chars[j], 10)) is Some,
        decreases chars.len() - i,
    {
        if crate::text::char_digit(chars[i], 10).is_none() {
            return false;
        }
        i += 1;
    }
    true
}

/// Reads the time that a query value names.
pub fn parse_stream_expire_value(value: &str) -> (r: Option<u64>)
    ensures
        match r {
            Some(v) => expire_value(value@) == Some(v as nat),
            None => expire_value(value@) is None,
        },
{
    let chars = chars_of(value);
    if chars.len() == 0 {
        return None;
    }
    if only_decimal_digits(&chars) {
        assert(chars@ =~= chars@.subrange(0, chars.len() as int));
        parse_number(&chars, 0, chars.len(), 10, u64::MAX)
    } else {
        match parse_unsigned(&chars, 16, u64::MAX) {
            Some(v) => Some(v),
            None => parse_unsigned(&chars, 10, u64::MAX),
        }
    }
}

/// Whether a query name names a time of expiry.
pub open spec fn is_expiry_key(key: Seq<char>) -> bool {
    key == "expires"@ || key == "expire"@ || key == "deadline"@ || key == "txTime"@ || key
        == "wsTime"@
}

/// The earliest time of expiry that the pairs name.
pub open spec fn earliest_expiry(pairs: Seq<(Seq<char>, Seq<char>)>) -> Option<nat>
    decreases pairs.len(),
{
    if pairs.len() == 0 {
        None
    } else {
        let before = earliest_expiry(pairs.drop_last());
        let here = if is_expiry_key(pairs.last().0) {
            expire_value(pairs.last().1)
        } else {
            None
        };
        match (before, here) {
            (Some(a), Some(b)) => if b < a {
                Some(b)
            } else {
                Some(a)
            },
            (Some(a), None) => Some(a),
            (None, other) => other,
        }
    }
}

/// Finds the earliest time of expiry among the pairs of a query.
pub fn earliest_expiry_of(pairs: &Vec<(String, String)>) -> (r: Option<u64>)
    ensures
        match r {
            Some(v) => earliest_expiry(pairs_of(pairs@)) == Some(v as nat),
            None => earliest_expiry(pairs_of(pairs@)) is None,
        },
{
    let mut result: Option<u64> = None;
    let mut i: usize = 0;
    assert(pairs_of(pairs@).take(0) =~= Seq::<(Seq<char>, Seq<char>)>::empty());
    while i < pairs.len()
        invariant
            i <= pairs@.len(),
            match result {
                Some(v) => earliest_expiry(pairs_of(pairs@).take(i as int)) == Some(v as nat),
                None => earliest_expiry(pairs_of(pairs@).take(i as int)) is None,
            },
        decreases pairs@.len() - i,
    {
        proof {
            let upto = pairs_of(pairs@).take(i + 1);
            assert(upto.drop_last() =~= pairs_of(pairs@).take(i as int));
            assert(upto.last() == (pairs@[i as int].0@, pairs@[i as int].1@));
        }
        let key = pairs[i].0.as_str();
        if str_eq(key, "expires") || str_eq(key, "expire") || str_eq(key, "deadline") || str_eq(
            key,
            "txTime",
        ) || str_eq(key, "wsTime") {
            if let Some(ts) = parse_stream_expire_value(pairs[i].1.as_str()) {
                result = match result {
                    Some(prev) => if ts < prev {
                        Some(ts)
                    } else {
                        Some(prev)
                    },
                    None => Some(ts),
                };
            }
        }
        i += 1;
    }
    assert(pairs_of(pairs@).take(pairs@.len() as int) =~= pairs_of(pairs@));
    result
}

/// The time at which a playback address expires, if it names one.
pub fn stream_url_expire_at(url: &str) -> (r: Option<u64>)
    ensures
        match r {
            Some(v) => url_query_pairs(url@) is Some && earliest_expiry(url_query_pairs(url@)->0)
                == Some(v as nat),
            None => url_query_pairs(url@) is None || earliest_expiry(url_query_pairs(url@)->0)
                is None,
        },
{
    match query_pairs(url) {
        Some(pairs) => earliest_expiry_of(&pairs),
        None => None,
    }
}

/// An address that is about to expire: when it expires, and when that was
/// found.
#[derive(Clone, Copy, Debug, PartialEq, Eq, Structural)]
pub struct StreamExpiry {
    pub expire_at: u64,
    pub now: u64,
}

/// Whether an address that expires at `expire` is fetched anew at `now`:
/// it expires within `lead_secs`.
pub fn expiry_due(expire: Option<u64>, now: i64, lead_secs: u64) -> (r: Option<StreamExpiry>)
    ensures
        r == if expire is Some && now >= 0 && expire->0 <= now + lead_secs {
            Some(StreamExpiry { expire_at: expire->0, now: now as u64 })
        } else {
            None
        },
{
    let expire = match expire {
        Some(e) => e,
        None => {
            return None;
        },
    };
    if now < 0 {
        return None;
    }
    let now = now as u64;
    let deadline = if now > u64::MAX - lead_secs {
        u64::MAX
    } else {
        now + lead_secs
    };
    if expire <= deadline {
        Some(StreamExpiry { expire_at: expire, now })
    } else {
        None
    }
}

/// Whether the playback address `url` is fetched anew at `now`.
pub fn should_refresh_stream_url(url: &str, lead_secs: u64, now: i64) -> (r: Option<StreamExpiry>)
    ensures
        match r {
            Some(due) => now >= 0 && url_query_pairs(url@) is Some && earliest_expiry(
                url_query_pairs(url@)->0,
            ) == Some(due.expire_at as nat) && due.expire_at <= now + lead_secs && due.now == now,
            None => now < 0 || url_query_pairs(url@) is None || match earliest_expiry(
                url_query_pairs(url@)->0,
            ) {
                Some(e) => e > now + lead_secs,
                None => true,
            },
        },
{
    let expire = stream_url_expire_at(url);
    expiry_due(expire, now, lead_secs)
}

/// The decimal digits of `s`, in order.
pub open spec fn digits_in(s: Seq<char>) -> Seq<char>
    decreases s.len(),
{
    if s.len() == 0 {
        Seq::empty()
    } else if decimal_digit_value(s.last()) is Some {
        digits_in(s.drop_last()).push(s.last())
    } else {
        digits_in(s.drop_last())
    }
}

/// The quality that one piece of the setting names: the number that its
/// digits make, if it has digits and the number is positive and fits.
pub open spec fn piece_quality(piece: Seq<char>) -> Option<nat> {
    match parsed_number(digits_in(piece), 10, i64::MAX as nat) {
        Some(q) => if q > 0 {
            Some(q)
        } else {
            None
        },
        None => None,
    }
}

/// The quality that the first of the pieces names that names one.
pub open spec fn first_quality(pieces: Seq<Seq<char>>) -> Option<nat>
    decreases pieces.len(),
{
    if pieces.len() == 0 {
        None
    } else {
        match piece_quality(pieces[0]) {
            Some(q) => Some(q),
            None => first_quality(pieces.drop_first()),
        }
    }
}

/// The quality that a setting asks for: the setting is a list between
/// commas; the first piece whose digits make a positive number gives it,
/// and where there is none it is 10000.
pub open spec fn quality_of(value: Seq<char>) -> int {
    match first_quality(split(value, ',')) {
        Some(q) => q as int,
        None => DEFAULT_QUALITY as int,
    }
}

/// The decimal digits of `chars[from..to]`.
fn collect_digits(chars: &Vec<char>, from: usize, to: usize) -> (r: Vec<char>)
    requires
        from <= to <= chars.len(),
    ensures
        r@ == digits_in(chars@.subrange(from as int, to as int)),
        all_digits(r@, 10),
{
    let mut out: Vec<char> = Vec::new();
    let mut i = from;
    assert(chars@.subrange(from as int, from as int) =~= Seq::<char>::empty());
    while i < to
        invariant
            from <= i <= to <= chars.len(),
            out@ == digits_in(chars@.subrange(from as int, i as int)),
            all_digits(out@, 10),
        decreases to - i,
    {
        proof {
            let upto = chars@.subrange(from as int, i + 1);
            assert(upto.drop_last() =~= chars@.subrange(from as int, i as int));
            assert(upto.last() == chars[i as int]);
        }
        let c = chars[i];
        if crate::text::char_digit(c, 10).is_some() {
            let ghost before = out@;
            out.push(c);
            proof {
                assert forall|j: int| 0 <= j < out@.len() implies (#[trigger] crate::text::digit_value(
                    out@[j],
                    10,
                )) is Some by {
                    if j < before.len() {
                        assert(out@[j] == before[j]);
                    }
                }
            }
        }
        i += 1;
    }
    out
}

/// Reads the quality that a setting asks for.
pub fn parse_quality(value: &str) -> (r: i64)
    ensures
        r == quality_of(value@),
        r > 0,
{
    let chars = chars_of(value);
    let ranges = split_ranges(&chars, ',');
    let ghost pieces = split(value@, ',');
    assert(pieces.skip(0) =~= pieces);
    let mut i: usize = 0;
    while i < ranges.len()
        invariant
            i <= ranges.len(),
            chars@ == value@,
            pieces == split(value@, ','),
            is_split(chars@, ',', ranges@),
            first_quality(pieces) == first_quality(pieces.skip(i as int)),
        decreases ranges.len() - i,
    {
        let (a, b) = ranges[i];
        let ghost rest = pieces.skip(i as int);
        proof {
            assert(rest[0] == pieces[i as int]);
            assert(rest.drop_first() =~= pieces.skip(i + 1));
        }
        let digits = collect_digits(&chars, a, b);
        assert(digits@ =~= digits@.subrange(0, digits.len() as int));
        if let Some(q) = parse_number(&digits, 0, digits.len(), 10, i64::MAX as u64) {
            if q > 0 {
                return q as i64;
            }
        }
        i += 1;
    }
    assert(pieces.skip(ranges.len() as int) =~= Seq::<Seq<char>>::empty());
    DEFAULT_QUALITY
}

} // verus!
