//! Character-level helpers on strings, with their meaning stated over `Seq<char>`.

use vstd::prelude::*;

verus! {

/// Whether `c` has the Unicode `White_Space` property, which is what
/// trimming removes.
pub open spec fn is_space(c: char) -> bool {
    let u = c as u32;
    ||| 0x09 <= u <= 0x0D
    ||| u == 0x20
    ||| u == 0x85
    ||| u == 0xA0
    ||| u == 0x1680
    ||| 0x2000 <= u <= 0x200A
    ||| u == 0x2028
    ||| u == 0x2029
    ||| u == 0x202F
    ||| u == 0x205F
    ||| u == 0x3000
}

/// Number of white-space characters at the front of `s`.
pub open spec fn leading_spaces(s: Seq<char>) -> nat
    decreases s.len(),
{
    if s.len() > 0 && is_space(s[0]) {
        1 + leading_spaces(s.drop_first())
    } else {
        0
    }
}

/// Number of white-space characters at the back of `s`.
pub open spec fn trailing_spaces(s: Seq<char>) -> nat
    decreases s.len(),
{
    if s.len() > 0 && is_space(s.last()) {
        1 + trailing_spaces(s.drop_last())
    } else {
        0
    }
}

/// `s` without its leading white space.
pub open spec fn trim_start_of(s: Seq<char>) -> Seq<char> {
    s.skip(leading_spaces(s) as int)
}

/// `s` without its leading and trailing white space.
pub open spec fn trimmed(s: Seq<char>) -> Seq<char> {
    let rest = trim_start_of(s);
    rest.take(rest.len() - trailing_spaces(rest))
}

/// Whether `s` holds nothing but white space.
pub open spec fn is_blank(s: Seq<char>) -> bool {
    trimmed(s).len() == 0
}

/// Whether `needle` stands in `hay` at index `i`.
pub open spec fn occurs_at(hay: Seq<char>, needle: Seq<char>, i: int) -> bool {
    &&& 0 <= i
    &&& i + needle.len() <= hay.len()
    &&& hay.subrange(i, i + needle.len()) == needle
}

/// Whether `needle` occurs somewhere in `hay`.
pub open spec fn contains(hay: Seq<char>, needle: Seq<char>) -> bool {
    exists|i: int| occurs_at(hay, needle, i)
}

/// Whether `s` begins with `prefix`.
pub open spec fn starts_with(s: Seq<char>, prefix: Seq<char>) -> bool {
    occurs_at(s, prefix, 0)
}

/// The character for a decimal digit below ten.
pub open spec fn digit_char(d: nat) -> char {
    if d == 0 {
        '0'
    } else if d == 1 {
        '1'
    } else if d == 2 {
        '2'
    } else if d == 3 {
        '3'
    } else if d == 4 {
        '4'
    } else if d == 5 {
        '5'
    } else if d == 6 {
        '6'
    } else if d == 7 {
        '7'
    } else if d == 8 {
        '8'
    } else {
        '9'
    }
}

/// Decimal notation of `n`, without leading zeros.
pub open spec fn decimal(n: nat) -> Seq<char>
    decreases n,
{
    if n < 10 {
        seq![digit_char(n)]
    } else {
        decimal(n / 10).push(digit_char(n % 10))
    }
}

/// Decimal notation of a signed number, with `-` in front of a negative one.
pub open spec fn signed_decimal(n: int) -> Seq<char> {
    if n < 0 {
        seq!['-'] + decimal((-n) as nat)
    } else {
        decimal(n as nat)
    }
}

/// Decimal notation of `n`, padded with zeros on the left to `width` digits.
pub open spec fn padded_decimal(n: nat, width: nat) -> Seq<char> {
    let digits = decimal(n);
    if digits.len() >= width {
        digits
    } else {
        Seq::new((width - digits.len()) as nat, |i: int| '0') + digits
    }
}

/// Value of an ASCII decimal digit, if `c` is one.
pub open spec fn decimal_digit_value(c: char) -> Option<nat> {
    if '0' <= c <= '9' {
        Some((c as u32 - '0' as u32) as nat)
    } else {
        None
    }
}

/// Value of a hexadecimal digit of either case, if `c` is one.
pub open spec fn hex_digit_value(c: char) -> Option<nat> {
    if '0' <= c <= '9' {
        Some((c as u32 - '0' as u32) as nat)
    } else if 'a' <= c <= 'f' {
        Some((c as u32 - 'a' as u32 + 10) as nat)
    } else if 'A' <= c <= 'F' {
        Some((c as u32 - 'A' as u32 + 10) as nat)
    } else {
        None
    }
}

/// Value of a digit in the given radix (10 or 16).
pub open spec fn digit_value(c: char, radix: nat) -> Option<nat> {
    if radix == 16 {
        hex_digit_value(c)
    } else {
        decimal_digit_value(c)
    }
}

/// Whether every character of `s` is a digit of the radix.
pub open spec fn all_digits(s: Seq<char>, radix: nat) -> bool {
    forall|i: int| 0 <= i < s.len() ==> (#[trigger] digit_value(s[i], radix)) is Some
}

/// The number that the digits of `s` denote in the radix, most significant
/// digit first. Meaningful where `all_digits(s, radix)`.
pub open spec fn digits_value(s: Seq<char>, radix: nat) -> nat
    decreases s.len(),
{
    if s.len() == 0 {
        0
    } else {
        digits_value(s.drop_last(), radix) * radix + match digit_value(s.last(), radix) {
            Some(d) => d,
            None => 0,
        }
    }
}

/// ASCII lower-case form of one character.
pub open spec fn ascii_lower(c: char) -> char {
    if 'A' <= c <= 'Z' {
        ((c as u32 + 32) as u8) as char
    } else {
        c
    }
}

/// ASCII lower-case form of a string.
pub open spec fn ascii_lowercase(s: Seq<char>) -> Seq<char> {
    Seq::new(s.len(), |i: int| ascii_lower(s[i]))
}

/// The pieces of `s` between the occurrences of `sep`, found by scanning
/// from `at` with the current piece starting at `start`.
pub open spec fn split_from(s: Seq<char>, sep: char, start: int, at: int) -> Seq<Seq<char>>
    decreases s.len() - at,
{
    if at >= s.len() {
        seq![s.subrange(start, s.len() as int)]
    } else if s[at] == sep {
        seq![s.subrange(start, at)] + split_from(s, sep, at + 1, at + 1)
    } else {
        split_from(s, sep, start, at + 1)
    }
}

/// The pieces of `s` between the occurrences of `sep`. There is always at
/// least one piece; pieces may be empty.
pub open spec fn split(s: Seq<char>, sep: char) -> Seq<Seq<char>> {
    split_from(s, sep, 0, 0)
}

/// Whether `ranges` are the bounds of the pieces of `s` between the
/// occurrences of `sep`, in order.
pub open spec fn is_split(s: Seq<char>, sep: char, ranges: Seq<(usize, usize)>) -> bool {
    &&& ranges.len() == split(s, sep).len()
    &&& forall|i: int|
        0 <= i < ranges.len() ==> {
            &&& (#[trigger] ranges[i]).0 <= ranges[i].1 <= s.len()
            &&& s.subrange(ranges[i].0 as int, ranges[i].1 as int) == split(s, sep)[i]
        }
}

/// The number that `s` denotes in the radix, if `s` is a non-empty run of
/// digits and the number is at most `max`.
pub open spec fn parsed_number(s: Seq<char>, radix: nat, max: nat) -> Option<nat> {
    if s.len() > 0 && all_digits(s, radix) && digits_value(s, radix) <= max {
        Some(digits_value(s, radix))
    } else {
        None
    }
}

/// As `parsed_number`, with one `+` allowed in front of the digits.
pub open spec fn parsed_unsigned(s: Seq<char>, radix: nat, max: nat) -> Option<nat> {
    if s.len() > 0 && s[0] == '+' {
        parsed_number(s.skip(1), radix, max)
    } else {
        parsed_number(s, radix, max)
    }
}

/// The white space at the start of `s` is `k` characters long where the
/// first `k` are white space and the next one, if any, is not.
pub proof fn lemma_leading_spaces(s: Seq<char>, k: int)
    requires
        0 <= k <= s.len(),
        forall|i: int| 0 <= i < k ==> is_space(#[trigger] s[i]),
        k == s.len() || !is_space(s[k]),
    ensures
        leading_spaces(s) == k,
    decreases k,
{
    if k > 0 {
        let rest = s.drop_first();
        assert forall|i: int| 0 <= i < k - 1 implies is_space(#[trigger] rest[i]) by {
            assert(rest[i] == s[i + 1]);
        }
        if k - 1 < rest.len() {
            assert(rest[k - 1] == s[k]);
        }
        lemma_leading_spaces(rest, k - 1);
    }
}

/// The white space at the end of `s` is `k` characters long where the
/// last `k` are white space and the one before them, if any, is not.
pub proof fn lemma_trailing_spaces(s: Seq<char>, k: int)
    requires
        0 <= k <= s.len(),
        forall|i: int| s.len() - k <= i < s.len() ==> is_space(#[trigger] s[i]),
        k == s.len() || !is_space(s[s.len() - k - 1]),
    ensures
        trailing_spaces(s) == k,
    decreases k,
{
    if k > 0 {
        let rest = s.drop_last();
        assert forall|i: int| rest.len() - (k - 1) <= i < rest.len() implies is_space(
            #[trigger] rest[i],
        ) by {
            assert(rest[i] == s[i]);
        }
        if k - 1 < rest.len() {
            assert(rest[rest.len() - (k - 1) - 1] == s[s.len() - k - 1]);
        }
        lemma_trailing_spaces(rest, k - 1);
    }
}

/// Trimming is the range between the first and the last character that is
/// not white space.
pub proof fn lemma_trimmed_range(s: Seq<char>, a: int, b: int)
    requires
        0 <= a <= b <= s.len(),
        forall|i: int| 0 <= i < a ==> is_space(#[trigger] s[i]),
        forall|i: int| b <= i < s.len() ==> is_space(#[trigger] s[i]),
        a == b || (!is_space(s[a]) && !is_space(s[b - 1])),
    ensures
        trimmed(s) == s.subrange(a, b),
{
    if a == b {
        // Everything is white space: the front count runs to the end.
        assert forall|i: int| 0 <= i < s.len() implies is_space(#[trigger] s[i]) by {
            if i < a {
            } else {
            }
        }
        lemma_leading_spaces(s, s.len() as int);
        let rest = trim_start_of(s);
        assert(rest.len() == 0);
        assert(trimmed(s) =~= s.subrange(a, b));
    } else {
        lemma_leading_spaces(s, a);
        let rest = trim_start_of(s);
        let k = s.len() - b;
        assert forall|i: int| rest.len() - k <= i < rest.len() implies is_space(
            #[trigger] rest[i],
        ) by {
            assert(rest[i] == s[i + a]);
        }
        assert(rest[rest.len() - k - 1] == s[b - 1]);
        lemma_trailing_spaces(rest, k);
        assert(trimmed(s) =~= s.subrange(a, b));
    }
}

/// Trimming twice changes nothing more.
pub proof fn lemma_trimmed_idempotent(s: Seq<char>)
    ensures
        trimmed(trimmed(s)) == trimmed(s),
{
    let t = trimmed(s);
    lemma_trimmed_ends(s);
    lemma_trimmed_range(t, 0, t.len() as int);
    assert(t.subrange(0, t.len() as int) =~= t);
}

/// A trimmed string neither starts nor ends with white space.
pub proof fn lemma_trimmed_ends(s: Seq<char>)
    ensures
        trimmed(s).len() > 0 ==> !is_space(trimmed(s)[0]) && !is_space(trimmed(s).last()),
        trimmed(s).len() <= s.len(),
{
    let a = leading_spaces(s) as int;
    lemma_leading_bound(s);
    let rest = trim_start_of(s);
    lemma_trailing_bound(rest);
    let k = trailing_spaces(rest) as int;
    if trimmed(s).len() > 0 {
        assert(trimmed(s)[0] == s[a]);
        assert(trimmed(s).last() == rest[rest.len() - k - 1]);
    }
}

/// The front count stops at the first character that is not white space.
pub proof fn lemma_leading_bound(s: Seq<char>)
    ensures
        leading_spaces(s) <= s.len(),
        forall|i: int| 0 <= i < leading_spaces(s) ==> is_space(#[trigger] s[i]),
        leading_spaces(s) < s.len() ==> !is_space(s[leading_spaces(s) as int]),
    decreases s.len(),
{
    if s.len() > 0 && is_space(s[0]) {
        let rest = s.drop_first();
        lemma_leading_bound(rest);
        assert forall|i: int| 0 <= i < leading_spaces(s) implies is_space(#[trigger] s[i]) by {
            if i > 0 {
                assert(s[i] == rest[i - 1]);
            }
        }
        if leading_spaces(s) < s.len() {
            assert(s[leading_spaces(s) as int] == rest[leading_spaces(rest) as int]);
        }
    }
}

/// The back count stops at the last character that is not white space.
pub proof fn lemma_trailing_bound(s: Seq<char>)
    ensures
        trailing_spaces(s) <= s.len(),
        forall|i: int| s.len() - trailing_spaces(s) <= i < s.len() ==> is_space(#[trigger] s[i]),
        trailing_spaces(s) < s.len() ==> !is_space(s[s.len() - trailing_spaces(s) - 1]),
    decreases s.len(),
{
    if s.len() > 0 && is_space(s.last()) {
        let rest = s.drop_last();
        lemma_trailing_bound(rest);
        assert forall|i: int| s.len() - trailing_spaces(s) <= i < s.len() implies is_space(
            #[trigger] s[i],
        ) by {
            if i < s.len() - 1 {
                assert(s[i] == rest[i]);
            }
        }
        if trailing_spaces(s) < s.len() {
            assert(s[s.len() - trailing_spaces(s) - 1] == rest[rest.len() - trailing_spaces(rest)
                - 1]);
        }
    }
}

/// The characters of a string slice, in order.
pub fn chars_of(s: &str) -> (out: Vec<char>)
    ensures
        out@ == s@,
{
    let mut out: Vec<char> = Vec::new();
    for c in it: s.chars()
        invariant
            out@ == it.seq().take(it.index() as int),
            it.seq() == s@,
    {
        out.push(c);
    }
    out
}

/// Whether two string slices hold the same characters.
pub fn str_eq(a: &str, b: &str) -> (r: bool)
    ensures
        r == (a@ == b@),
{
    let x = chars_of(a);
    let y = chars_of(b);
    chars_eq(&x, &y)
}

/// Whether two character vectors are equal.
pub fn chars_eq(x: &Vec<char>, y: &Vec<char>) -> (r: bool)
    ensures
        r == (x@ == y@),
{
    if x.len() != y.len() {
        return false;
    }
    let mut i: usize = 0;
    while i < x.len()
        invariant
            x.len() == y.len(),
            i <= x.len(),
            forall|j: int| 0 <= j < i ==> x[j] == y[j],
        decreases x.len() - i,
    {
        if x[i] != y[i] {
            return false;
        }
        i += 1;
    }
    assert(x@ =~= y@);
    true
}

/// Tells white space from other characters.
pub fn char_is_space(c: char) -> (r: bool)
    ensures
        r == is_space(c),
{
    let u = c as u32;
    (0x09 <= u && u <= 0x0D) || u == 0x20 || u == 0x85 || u == 0xA0 || u == 0x1680 || (0x2000 <= u
        && u <= 0x200A) || u == 0x2028 || u == 0x2029 || u == 0x202F || u == 0x205F || u == 0x3000
}

/// The bounds of the trimmed part of `chars`: it is `chars[a..b]`.
pub fn trim_bounds(chars: &Vec<char>) -> (r: (usize, usize))
    ensures
        r.0 <= r.1 <= chars.len(),
        trimmed(chars@) == chars@.subrange(r.0 as int, r.1 as int),
{
    let n = chars.len();
    let mut a: usize = 0;
    while a < n && char_is_space(chars[a])
        invariant
            a <= n,
            n == chars.len(),
            forall|i: int| 0 <= i < a ==> is_space(#[trigger] chars[i]),
        decreases n - a,
    {
        a += 1;
    }
    let mut b: usize = n;
    while b > a && char_is_space(chars[b - 1])
        invariant
            a <= b <= n,
            n == chars.len(),
            forall|i: int| b <= i < n ==> is_space(#[trigger] chars[i]),
        decreases b,
    {
        b -= 1;
    }
    proof {
        lemma_trimmed_range(chars@, a as int, b as int);
    }
    (a, b)
}

/// `s` without the white space around it.
pub fn trim(s: &str) -> (out: String)
    ensures
        out@ == trimmed(s@),
{
    let chars = chars_of(s);
    let (a, b) = trim_bounds(&chars);
    String::from_str(s.substring_char(a, b))
}

/// Whether `s` is empty once trimmed.
pub fn blank(s: &str) -> (r: bool)
    ensures
        r == is_blank(s@),
{
    let chars = chars_of(s);
    let (a, b) = trim_bounds(&chars);
    a == b
}

/// Whether `needle` stands in `hay` at index `at`.
pub fn chars_occur_at(hay: &Vec<char>, needle: &Vec<char>, at: usize) -> (r: bool)
    ensures
        r == occurs_at(hay@, needle@, at as int),
{
    if needle.len() > hay.len() || at > hay.len() - needle.len() {
        return false;
    }
    let mut j: usize = 0;
    while j < needle.len()
        invariant
            j <= needle.len(),
            at + needle.len() <= hay.len(),
            forall|k: int| 0 <= k < j ==> hay[at + k] == needle[k],
        decreases needle.len() - j,
    {
        if hay[at + j] != needle[j] {
            assert(hay@.subrange(at as int, at + needle.len())[j as int] == hay[at + j]);
            return false;
        }
        j += 1;
    }
    assert(hay@.subrange(at as int, at + needle.len()) =~= needle@);
    true
}

/// Whether `needle` occurs in `hay`.
pub fn chars_contain(hay: &Vec<char>, needle: &Vec<char>) -> (r: bool)
    ensures
        r == contains(hay@, needle@),
{
    if needle.len() > hay.len() {
        return false;
    }
    let last = hay.len() - needle.len();
    let mut i: usize = 0;
    loop
        invariant
            i <= last,
            last + needle.len() == hay.len(),
            forall|k: int| 0 <= k < i ==> !occurs_at(hay@, needle@, k),
        decreases last - i,
    {
        if chars_occur_at(hay, needle, i) {
            return true;
        }
        if i == last {
            return false;
        }
        i += 1;
    }
}

/// Whether the text `needle` occurs in the text `hay`.
pub fn str_contains(hay: &str, needle: &str) -> (r: bool)
    ensures
        r == contains(hay@, needle@),
{
    let h = chars_of(hay);
    let n = chars_of(needle);
    chars_contain(&h, &n)
}

/// Whether the text `s` begins with `prefix`.
pub fn str_starts_with(s: &str, prefix: &str) -> (r: bool)
    ensures
        r == starts_with(s@, prefix@),
{
    let h = chars_of(s);
    let n = chars_of(prefix);
    chars_occur_at(&h, &n, 0)
}

/// The text of one decimal digit.
fn digit_str(d: u8) -> (r: &'static str)
    requires
        d < 10,
    ensures
        r@ == seq![digit_char(d as nat)],
{
    proof {
        reveal_strlit("0");
        reveal_strlit("1");
        reveal_strlit("2");
        reveal_strlit("3");
        reveal_strlit("4");
        reveal_strlit("5");
        reveal_strlit("6");
        reveal_strlit("7");
        reveal_strlit("8");
        reveal_strlit("9");
    }
    let r = if d == 0 {
        "0"
    } else if d == 1 {
        "1"
    } else if d == 2 {
        "2"
    } else if d == 3 {
        "3"
    } else if d == 4 {
        "4"
    } else if d == 5 {
        "5"
    } else if d == 6 {
        "6"
    } else if d == 7 {
        "7"
    } else if d == 8 {
        "8"
    } else {
        "9"
    };
    assert(r@ =~= seq![digit_char(d as nat)]);
    r
}

/// Appends the decimal notation of `n` to `out`.
pub fn push_decimal(out: &mut String, n: u64)
    ensures
        final(out)@ == old(out)@ + decimal(n as nat),
    decreases n,
{
    if n >= 10 {
        push_decimal(out, n / 10);
    }
    let d = (n % 10) as u8;
    out.append(digit_str(d));
    proof {
        if n >= 10 {
            assert(final(out)@ =~= old(out)@ + decimal(n as nat));
        } else {
            assert(final(out)@ =~= old(out)@ + decimal(n as nat));
        }
    }
}

/// Decimal notation of `n`.
pub fn decimal_string(n: u64) -> (out: String)
    ensures
        out@ == decimal(n as nat),
{
    let mut out = String::new();
    push_decimal(&mut out, n);
    assert(Seq::<char>::empty() + decimal(n as nat) =~= decimal(n as nat));
    out
}

/// Appends the decimal notation of a signed number to `out`.
pub fn push_signed_decimal(out: &mut String, n: i64)
    ensures
        final(out)@ == old(out)@ + signed_decimal(n as int),
{
    if n < 0 {
        proof {
            reveal_strlit("-");
        }
        out.append("-");
        let magnitude: u64 = if n == i64::MIN {
            9223372036854775808u64
        } else {
            (-n) as u64
        };
        push_decimal(out, magnitude);
        assert(final(out)@ =~= old(out)@ + signed_decimal(n as int)) by {
            assert("-"@ =~= seq!['-']);
        }
    } else {
        push_decimal(out, n as u64);
    }
}

/// Decimal notation of a signed number.
pub fn signed_decimal_string(n: i64) -> (out: String)
    ensures
        out@ == signed_decimal(n as int),
{
    let mut out = String::new();
    push_signed_decimal(&mut out, n);
    assert(Seq::<char>::empty() + signed_decimal(n as int) =~= signed_decimal(n as int));
    out
}

/// The decimal notation of a number below a thousand has as many digits as
/// its size class.
pub proof fn lemma_decimal_len(n: nat)
    ensures
        decimal(n).len() >= 1,
        n < 10 ==> decimal(n).len() == 1,
        10 <= n < 100 ==> decimal(n).len() == 2,
        n >= 10 ==> decimal(n).len() >= 2,
        100 <= n < 1000 ==> decimal(n).len() == 3,
        n >= 100 ==> decimal(n).len() >= 3,
{
    reveal_with_fuel(decimal, 4);
}

/// Appends `n` in decimal, padded with zeros on the left to two digits.
pub fn push_two_digits(out: &mut String, n: u64)
    ensures
        final(out)@ == old(out)@ + padded_decimal(n as nat, 2),
{
    proof {
        lemma_decimal_len(n as nat);
    }
    if n < 10 {
        proof {
            reveal_strlit("0");
        }
        out.append("0");
        let ghost mid = out@;
        push_decimal(out, n);
        assert(final(out)@ =~= old(out)@ + padded_decimal(n as nat, 2)) by {
            assert("0"@ =~= seq!['0']);
            assert(Seq::new(1nat, |i: int| '0') =~= seq!['0']);
        }
    } else {
        push_decimal(out, n);
    }
}

/// Appends `n` in decimal, padded with zeros on the left to three digits.
pub fn push_three_digits(out: &mut String, n: u64)
    ensures
        final(out)@ == old(out)@ + padded_decimal(n as nat, 3),
{
    proof {
        lemma_decimal_len(n as nat);
    }
    if n < 10 {
        proof {
            reveal_strlit("00");
        }
        out.append("00");
        push_decimal(out, n);
        assert(final(out)@ =~= old(out)@ + padded_decimal(n as nat, 3)) by {
            assert("00"@ =~= seq!['0', '0']);
            assert(Seq::new(2nat, |i: int| '0') =~= seq!['0', '0']);
        }
    } else if n < 100 {
        proof {
            reveal_strlit("0");
        }
        out.append("0");
        push_decimal(out, n);
        assert(final(out)@ =~= old(out)@ + padded_decimal(n as nat, 3)) by {
            assert("0"@ =~= seq!['0']);
            assert(Seq::new(1nat, |i: int| '0') =~= seq!['0']);
        }
    } else {
        push_decimal(out, n);
    }
}

/// The decimal notation of a number is a run of digits that denotes it.
pub proof fn lemma_decimal_value(n: nat)
    ensures
        decimal(n).len() >= 1,
        all_digits(decimal(n), 10),
        digits_value(decimal(n), 10) == n,
    decreases n,
{
    let s = decimal(n);
    if n < 10 {
        assert(s =~= seq![digit_char(n)]);
        assert(s[0] == digit_char(n));
        assert(digit_value(s[0], 10) == Some(n));
        assert(s.last() == s[0]);
        assert(s.drop_last() =~= Seq::<char>::empty());
        reveal_with_fuel(digits_value, 2);
    } else {
        let head = decimal(n / 10);
        lemma_decimal_value(n / 10);
        assert(s == head.push(digit_char(n % 10)));
        assert(s.drop_last() =~= head);
        assert(s.last() == digit_char(n % 10));
        assert(digit_value(digit_char(n % 10), 10) == Some(n % 10));
        assert forall|i: int| 0 <= i < s.len() implies (#[trigger] digit_value(s[i], 10))
            is Some by {
            if i < head.len() {
                assert(s[i] == head[i]);
            }
        }
    }
}

/// Zeros in front of a run of digits change nothing of what it denotes.
pub proof fn lemma_leading_zeros(k: nat, s: Seq<char>)
    requires
        all_digits(s, 10),
    ensures
        all_digits(Seq::new(k, |i: int| '0') + s, 10),
        digits_value(Seq::new(k, |i: int| '0') + s, 10) == digits_value(s, 10),
    decreases s.len(), k,
{
    let zeros = Seq::new(k, |i: int| '0');
    let t = zeros + s;
    assert forall|i: int| 0 <= i < t.len() implies (#[trigger] digit_value(t[i], 10)) is Some by {
        if i < k {
            assert(t[i] == '0');
        } else {
            assert(t[i] == s[i - k]);
            assert(digit_value(s[i - k], 10) is Some);
        }
    }
    if s.len() > 0 {
        let head = s.drop_last();
        assert forall|i: int| 0 <= i < head.len() implies (#[trigger] digit_value(head[i], 10))
            is Some by {
            assert(head[i] == s[i]);
        }
        lemma_leading_zeros(k, head);
        assert(t.drop_last() =~= zeros + head);
        assert(t.last() == s.last());
    } else if k > 0 {
        let fewer = Seq::new((k - 1) as nat, |i: int| '0');
        lemma_leading_zeros((k - 1) as nat, s);
        assert(t.drop_last() =~= fewer + s);
        assert(t.last() == '0');
        assert(digit_value('0', 10) == Some(0nat));
    } else {
        assert(t =~= s);
    }
}

/// The padded decimal notation of a number is a run of digits that denotes
/// it, as long as the width or as the plain notation, whichever is more.
pub proof fn lemma_padded_value(n: nat, width: nat)
    ensures
        all_digits(padded_decimal(n, width), 10),
        digits_value(padded_decimal(n, width), 10) == n,
        padded_decimal(n, width).len() == if decimal(n).len() >= width {
            decimal(n).len()
        } else {
            width
        },
{
    lemma_decimal_value(n);
    let digits = decimal(n);
    if digits.len() < width {
        lemma_leading_zeros((width - digits.len()) as nat, digits);
        assert(padded_decimal(n, width) =~= Seq::new(
            (width - digits.len()) as nat,
            |i: int| '0',
        ) + digits);
    }
}

/// Scanning a text for separators from a place behind a prefix finds the
/// pieces of the text without the prefix.
pub proof fn lemma_split_shift(prefix: Seq<char>, rest: Seq<char>, sep: char, start: int, at: int)
    requires
        0 <= start <= at <= rest.len(),
    ensures
        split_from(prefix + rest, sep, prefix.len() + start, prefix.len() + at) == split_from(
            rest,
            sep,
            start,
            at,
        ),
    decreases rest.len() - at,
{
    let s = prefix + rest;
    let n = prefix.len() as int;
    if at >= rest.len() {
        assert(s.subrange(n + start, s.len() as int) =~= rest.subrange(start, rest.len() as int));
    } else {
        assert(s[n + at] == rest[at]);
        if rest[at] == sep {
            assert(s.subrange(n + start, n + at) =~= rest.subrange(start, at));
            lemma_split_shift(prefix, rest, sep, at + 1, at + 1);
        } else {
            lemma_split_shift(prefix, rest, sep, start, at + 1);
        }
    }
}

/// Scanning over characters that are no separators leaves the pieces as
/// they are.
pub proof fn lemma_split_scan(s: Seq<char>, sep: char, at: int, upto: int)
    requires
        0 <= at <= upto <= s.len(),
        forall|i: int| 0 <= i < upto ==> s[i] != sep,
    ensures
        split_from(s, sep, 0, at) == split_from(s, sep, 0, upto),
    decreases upto - at,
{
    if at < upto {
        lemma_split_scan(s, sep, at + 1, upto);
    }
}

/// A text without a separator is one piece; and where a text without a
/// separator is followed by a separator and more text, it is the first
/// piece, and the pieces of the rest follow.
pub proof fn lemma_split_first(first: Seq<char>, rest: Seq<char>, sep: char)
    requires
        forall|i: int| 0 <= i < first.len() ==> first[i] != sep,
    ensures
        split(first, sep) == seq![first],
        split(first + seq![sep] + rest, sep) == seq![first] + split(rest, sep),
{
    let n = first.len() as int;
    lemma_split_scan(first, sep, 0, n);
    assert(first.subrange(0, n) =~= first);
    let head = first + seq![sep];
    let s = head + rest;
    assert forall|i: int| 0 <= i < n implies s[i] != sep by {
        assert(s[i] == first[i]);
    }
    lemma_split_scan(s, sep, 0, n);
    assert(s[n] == sep);
    assert(s.subrange(0, n) =~= first);
    lemma_split_shift(head, rest, sep, 0, 0);
}

/// A run of digits is worth at least as much as any of its prefixes.
pub proof fn lemma_digits_prefix(s: Seq<char>, radix: nat, k: int)
    requires
        radix >= 1,
        0 <= k <= s.len(),
    ensures
        digits_value(s.take(k), radix) <= digits_value(s, radix),
    decreases s.len() - k,
{
    if k < s.len() {
        let longer = s.take(k + 1);
        assert(longer.drop_last() =~= s.take(k));
        assert(digits_value(longer, radix) >= digits_value(s.take(k), radix) * radix);
        assert(digits_value(s.take(k), radix) * radix >= digits_value(s.take(k), radix))
            by (nonlinear_arith)
            requires
                radix >= 1,
        ;
        lemma_digits_prefix(s, radix, k + 1);
    } else {
        assert(s.take(k) =~= s);
    }
}

/// Value of `c` as a digit of the radix.
pub fn char_digit(c: char, radix: u64) -> (r: Option<u64>)
    requires
        radix == 10 || radix == 16,
    ensures
        match r {
            Some(d) => digit_value(c, radix as nat) == Some(d as nat) && d < radix,
            None => digit_value(c, radix as nat) is None,
        },
{
    let u = c as u32;
    if 0x30 <= u && u <= 0x39 {
        Some((u - 0x30) as u64)
    } else if radix == 16 && 0x61 <= u && u <= 0x66 {
        Some((u - 0x61 + 10) as u64)
    } else if radix == 16 && 0x41 <= u && u <= 0x46 {
        Some((u - 0x41 + 10) as u64)
    } else {
        None
    }
}

/// Reads `chars[from..to]` as a number in the radix that is at most `max`.
pub fn parse_number(chars: &Vec<char>, from: usize, to: usize, radix: u64, max: u64) -> (r: Option<
    u64,
>)
    requires
        radix == 10 || radix == 16,
        from <= to <= chars.len(),
    ensures
        match r {
            Some(v) => parsed_number(chars@.subrange(from as int, to as int), radix as nat, max as nat)
                == Some(v as nat),
            None => parsed_number(chars@.subrange(from as int, to as int), radix as nat, max as nat)
                is None,
        },
{
    let ghost s = chars@.subrange(from as int, to as int);
    if from == to {
        return None;
    }
    let mut acc: u64 = 0;
    let mut i = from;
    while i < to
        invariant
            radix == 10 || radix == 16,
            from <= i <= to <= chars.len(),
            s == chars@.subrange(from as int, to as int),
            all_digits(s.take(i - from), radix as nat),
            acc == digits_value(s.take(i - from), radix as nat),
            acc <= max,
        decreases to - i,
    {
        let ghost prefix = s.take(i - from);
        let ghost longer = s.take(i - from + 1);
        proof {
            assert(longer.drop_last() =~= prefix);
            assert(longer.last() == chars[i as int]);
        }
        match char_digit(chars[i], radix) {
            None => {
                assert(s[i - from] == chars[i as int]);
                return None;
            },
            Some(d) => {
                if d > max || acc > (max - d) / radix {
                    proof {
                        if all_digits(s, radix as nat) {
                            lemma_digits_prefix(s, radix as nat, i - from + 1);
                            assert(acc * radix + d > max) by (nonlinear_arith)
                                requires
                                    d > max || acc > (max - d) / (radix as int),
                                    radix >= 1,
                                    acc >= 0,
                                    d >= 0,
                            ;
                        }
                    }
                    return None;
                }
                assert(acc * radix + d <= max) by (nonlinear_arith)
                    requires
                        acc <= (max - d) / (radix as int),
                        d <= max,
                        radix >= 1,
                ;
                acc = acc * radix + d;
                proof {
                    assert forall|j: int| 0 <= j < longer.len() implies (#[trigger] digit_value(
                        longer[j],
                        radix as nat,
                    )) is Some by {
                        if j < prefix.len() {
                            assert(longer[j] == prefix[j]);
                        }
                    }
                }
            },
        }
        i += 1;
    }
    assert(s.take(to - from) =~= s);
    Some(acc)
}

/// Reads `chars` as an unsigned number in the radix, with one `+` allowed
/// in front.
pub fn parse_unsigned(chars: &Vec<char>, radix: u64, max: u64) -> (r: Option<u64>)
    requires
        radix == 10 || radix == 16,
    ensures
        match r {
            Some(v) => parsed_unsigned(chars@, radix as nat, max as nat) == Some(v as nat),
            None => parsed_unsigned(chars@, radix as nat, max as nat) is None,
        },
{
    if chars.len() > 0 && chars[0] == '+' {
        assert(chars@.skip(1) =~= chars@.subrange(1, chars.len() as int));
        parse_number(chars, 1, chars.len(), radix, max)
    } else {
        assert(chars@ =~= chars@.subrange(0, chars.len() as int));
        parse_number(chars, 0, chars.len(), radix, max)
    }
}

/// The bounds of the pieces of `chars` between the occurrences of `sep`.
pub fn split_ranges(chars: &Vec<char>, sep: char) -> (out: Vec<(usize, usize)>)
    ensures
        is_split(chars@, sep, out@),
        out@.len() >= 1,
{
    let ghost s = chars@;
    let mut out: Vec<(usize, usize)> = Vec::new();
    let ghost mut done: Seq<Seq<char>> = Seq::empty();
    let mut start: usize = 0;
    let mut at: usize = 0;
    while at < chars.len()
        invariant
            s == chars@,
            start <= at <= chars.len(),
            out@.len() == done.len(),
            split(s, sep) == done + split_from(s, sep, start as int, at as int),
            forall|i: int|
                0 <= i < out@.len() ==> {
                    &&& (#[trigger] out@[i]).0 <= out@[i].1 <= s.len()
                    &&& s.subrange(out@[i].0 as int, out@[i].1 as int) == done[i]
                },
        decreases chars.len() - at,
    {
        if chars[at] == sep {
            out.push((start, at));
            proof {
                let piece = s.subrange(start as int, at as int);
                assert(done.push(piece) + split_from(s, sep, at + 1, at + 1) =~= done + split_from(
                    s,
                    sep,
                    start as int,
                    at as int,
                ));
                done = done.push(piece);
            }
            start = at + 1;
        }
        at += 1;
    }
    out.push((start, at));
    proof {
        let piece = s.subrange(start as int, s.len() as int);
        assert(split(s, sep) =~= done.push(piece));
        done = done.push(piece);
    }
    out
}

/// Copies `chars[from..to]` into a new vector.
pub fn copy_chars(chars: &Vec<char>, from: usize, to: usize) -> (out: Vec<char>)
    requires
        from <= to <= chars.len(),
    ensures
        out@ == chars@.subrange(from as int, to as int),
{
    let mut out: Vec<char> = Vec::new();
    let mut i = from;
    while i < to
        invariant
            from <= i <= to <= chars.len(),
            out@ == chars@.subrange(from as int, i as int),
        decreases to - i,
    {
        out.push(chars[i]);
        assert(out@ =~= chars@.subrange(from as int, i + 1));
        i += 1;
    }
    out
}

/// `s` with every occurrence of `pattern` replaced by `with`, found from
/// left to right; an occurrence begins only behind the one before it. An
/// empty pattern occurs nowhere.
pub open spec fn replaced(s: Seq<char>, pattern: Seq<char>, with: Seq<char>) -> Seq<char>
    decreases s.len(),
{
    if pattern.len() == 0 || s.len() < pattern.len() {
        s
    } else if s.subrange(0, pattern.len() as int) == pattern {
        with + replaced(s.skip(pattern.len() as int), pattern, with)
    } else {
        seq![s[0]] + replaced(s.skip(1), pattern, with)
    }
}

/// Replaces every occurrence of `pattern` in `s` by `with`.
pub fn replace_all(s: &str, pattern: &str, with: &str) -> (out: String)
    ensures
        out@ == replaced(s@, pattern@, with@),
{
    let chars = chars_of(s);
    let pat = chars_of(pattern);
    if pat.len() == 0 {
        return String::from_str(s);
    }
    let n = chars.len();
    let mut out = String::new();
    let mut start: usize = 0;
    let mut i: usize = 0;
    proof {
        assert(s@.skip(0) =~= s@);
        assert(out@ + s@.subrange(0, 0) + replaced(s@, pattern@, with@) =~= replaced(
            s@,
            pattern@,
            with@,
        ));
    }
    while i < n
        invariant
            start <= i <= n,
            n == s@.len(),
            chars@ == s@,
            pat@ == pattern@,
            pat@.len() > 0,
            replaced(s@, pattern@, with@) == out@ + s@.subrange(start as int, i as int) + replaced(
                s@.skip(i as int),
                pattern@,
                with@,
            ),
        decreases n - i,
    {
        let ghost rest = s@.skip(i as int);
        if chars_occur_at(&chars, &pat, i) {
            let ghost before = out@;
            out.append(s.substring_char(start, i));
            out.append(with);
            proof {
                assert(rest.subrange(0, pat@.len() as int) =~= s@.subrange(
                    i as int,
                    i + pat@.len(),
                ));
                assert(rest.skip(pat@.len() as int) =~= s@.skip(i + pat@.len()));
                assert(s@.subrange((i + pat@.len()) as int, (i + pat@.len()) as int)
                    =~= Seq::<char>::empty());
                assert(out@ + s@.subrange((i + pat@.len()) as int, (i + pat@.len()) as int)
                    + replaced(s@.skip(i + pat@.len()), pattern@, with@) =~= before + s@.subrange(
                    start as int,
                    i as int,
                ) + replaced(rest, pattern@, with@));
            }
            i += pat.len();
            start = i;
        } else {
            proof {
                assert(rest[0] == s@[i as int]);
                assert(rest.skip(1) =~= s@.skip(i + 1));
                if rest.len() >= pat@.len() {
                    assert(rest.subrange(0, pat@.len() as int) =~= s@.subrange(
                        i as int,
                        i + pat@.len(),
                    ));
                    assert(replaced(rest, pattern@, with@) == seq![rest[0]] + replaced(
                        rest.skip(1),
                        pattern@,
                        with@,
                    ));
                } else {
                    assert(replaced(rest, pattern@, with@) == rest);
                    assert(replaced(rest.skip(1), pattern@, with@) == rest.skip(1));
                    assert(rest =~= seq![rest[0]] + rest.skip(1));
                }
                assert(s@.subrange(start as int, i + 1) =~= s@.subrange(start as int, i as int)
                    + seq![s@[i as int]]);
                assert(out@ + s@.subrange(start as int, i + 1) + replaced(
                    s@.skip(i + 1),
                    pattern@,
                    with@,
                ) =~= out@ + s@.subrange(start as int, i as int) + (seq![rest[0]] + replaced(
                    rest.skip(1),
                    pattern@,
                    with@,
                )));
            }
            i += 1;
        }
    }
    let ghost before = out@;
    out.append(s.substring_char(start, n));
    proof {
        assert(s@.skip(n as int) =~= Seq::<char>::empty());
        assert(replaced(Seq::<char>::empty(), pattern@, with@) =~= Seq::<char>::empty());
        assert(out@ =~= before + s@.subrange(start as int, n as int) + Seq::<char>::empty());
    }
    out
}

} // verus!
