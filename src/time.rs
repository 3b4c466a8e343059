//! Time boundary expressions: classification, resolution against a clock
//! reading, and validation of a (from, to) pair.
use vstd::prelude::*;

verus! {

pub const MILLIS_PER_SECOND: u64 = 1000;

pub const MILLIS_PER_MINUTE: u64 = 60000;

pub const MILLIS_PER_HOUR: u64 = 3600000;

pub const MILLIS_PER_DAY: u64 = 86400000;

pub const MILLIS_PER_WEEK: u64 = 604800000;

/// A month is approximated as thirty days.
pub const MILLIS_PER_MONTH: u64 = 2592000000;

/// Largest value of a signed 64-bit millisecond count.
pub const MAX_MILLIS: u64 = 9223372036854775807;

/// Length of the shortest date-time accepted as absolute (`YYYY-MM-DDTHH:MM:SSZ`).
pub const MIN_ABSOLUTE_LEN: usize = 20;

/// A classified time boundary.
#[derive(Clone, Copy, Debug, PartialEq, Eq, Structural)]
pub enum TimeExpression {
    /// The evaluation instant minus an offset in milliseconds.
    Relative { offset_ms: u64 },
    /// A date-time with an explicit UTC offset, in milliseconds since the epoch.
    Absolute { millis: i64 },
    /// A bare count of milliseconds since the epoch.
    EpochMillis { millis: i64 },
}

pub open spec fn is_digit(c: char) -> bool {
    '0' <= c && c <= '9'
}

pub open spec fn digit_value(c: char) -> int {
    c as int - '0' as int
}

pub open spec fn all_digits(s: Seq<char>) -> bool {
    forall|i: int| 0 <= i < s.len() ==> #[trigger] is_digit(s[i])
}

/// The number written in decimal by `s`.
pub open spec fn digits_value(s: Seq<char>) -> int
    decreases s.len(),
{
    if s.len() == 0 {
        0
    } else {
        digits_value(s.drop_last()) * 10 + digit_value(s.last())
    }
}

/// `c` is the lower-case ASCII letter `lower`, in either case.
pub open spec fn same_letter(c: char, lower: char) -> bool {
    c == lower || (c as u32) + 32 == (lower as u32)
}

/// `s` starts with the word `now`, in any case.
pub open spec fn has_now_prefix(s: Seq<char>) -> bool {
    s.len() >= 3 && same_letter(s[0], 'n') && same_letter(s[1], 'o') && same_letter(s[2], 'w')
}

/// Milliseconds in one unit named by `u` (`s`, `m`, `h`, `d`, `w`, `mo`, any case).
pub open spec fn unit_millis(u: Seq<char>) -> Option<int> {
    if u.len() == 1 {
        if same_letter(u[0], 's') {
            Some(MILLIS_PER_SECOND as int)
        } else if same_letter(u[0], 'm') {
            Some(MILLIS_PER_MINUTE as int)
        } else if same_letter(u[0], 'h') {
            Some(MILLIS_PER_HOUR as int)
        } else if same_letter(u[0], 'd') {
            Some(MILLIS_PER_DAY as int)
        } else if same_letter(u[0], 'w') {
            Some(MILLIS_PER_WEEK as int)
        } else {
            None
        }
    } else if u.len() == 2 && same_letter(u[0], 'm') && same_letter(u[1], 'o') {
        Some(MILLIS_PER_MONTH as int)
    } else {
        None
    }
}

/// How many trailing characters of the text after `now-` name the unit.
pub open spec fn unit_len(rest: Seq<char>) -> int {
    if rest.len() >= 2 && same_letter(rest[rest.len() - 2], 'm') && same_letter(rest.last(), 'o') {
        2
    } else {
        1
    }
}

/// The count `N` and the unit length of `now-<N><unit>`.
pub struct RelativeForm {
    pub count: int,
    pub unit_ms: int,
}

/// The count and the unit (in milliseconds) of a relative expression:
/// `now` alone counts zero seconds; `now-<N><unit>` gives `N` and the unit.
pub open spec fn relative_form(s: Seq<char>) -> Option<RelativeForm> {
    if !has_now_prefix(s) {
        None
    } else if s.len() == 3 {
        Some(RelativeForm { count: 0, unit_ms: MILLIS_PER_SECOND as int })
    } else if s[3] != '-' {
        None
    } else {
        let rest = s.subrange(4, s.len() as int);
        let k = unit_len(rest);
        let count = rest.subrange(0, rest.len() - k);
        let unit = rest.subrange(rest.len() - k, rest.len() as int);
        if rest.len() > k && all_digits(count) && unit_millis(unit) is Some {
            Some(RelativeForm { count: digits_value(count), unit_ms: unit_millis(unit)->0 })
        } else {
            None
        }
    }
}

/// The offset of a relative expression, when it fits a signed 64-bit count.
pub open spec fn relative_offset(s: Seq<char>) -> Option<int> {
    match relative_form(s) {
        Some(f) => if f.count * f.unit_ms <= MAX_MILLIS as int {
            Some(f.count * f.unit_ms)
        } else {
            None
        },
        None => None,
    }
}

/// What an absolute date-time must look like before its value is read:
/// `DDDD-DD-DD`, a `T`, `t` or space, then `DD:DD:DD`, and at least one
/// more character for the UTC offset.
pub open spec fn shape_char(i: int, c: char) -> bool {
    if i == 4 || i == 7 {
        c == '-'
    } else if i == 10 {
        c == 'T' || c == 't' || c == ' '
    } else if i == 13 || i == 16 {
        c == ':'
    } else {
        is_digit(c)
    }
}

pub open spec fn absolute_shape(s: Seq<char>) -> bool {
    s.len() >= MIN_ABSOLUTE_LEN && forall|i: int| 0 <= i < 19 ==> #[trigger] shape_char(i, s[i])
}

/// The instant that chrono reads from an RFC 3339 date-time, in milliseconds
/// since the epoch, or `None` where chrono rejects the text.
pub uninterp spec fn rfc3339_millis(s: Seq<char>) -> Option<i64>;

/// The classification of a time boundary string; `None` is Invalid.
pub open spec fn classify_spec(s: Seq<char>) -> Option<TimeExpression> {
    if has_now_prefix(s) {
        match relative_offset(s) {
            Some(o) => Some(TimeExpression::Relative { offset_ms: o as u64 }),
            None => None,
        }
    } else if s.len() > 0 && all_digits(s) {
        if digits_value(s) <= MAX_MILLIS as int {
            Some(TimeExpression::EpochMillis { millis: digits_value(s) as i64 })
        } else {
            None
        }
    } else if absolute_shape(s) {
        match rfc3339_millis(s) {
            Some(m) => Some(TimeExpression::Absolute { millis: m }),
            None => None,
        }
    } else {
        None
    }
}

/// The instant an expression denotes when the clock reads `now`.
pub open spec fn resolve_spec(e: TimeExpression, now: int) -> int {
    match e {
        TimeExpression::Relative { offset_ms } => now - offset_ms,
        TimeExpression::Absolute { millis } => millis as int,
        TimeExpression::EpochMillis { millis } => millis as int,
    }
}

/// Both bounds classify and `from` resolves strictly before `to` at `now`.
pub open spec fn valid_range(from: Seq<char>, to: Seq<char>, now: int) -> bool {
    match (classify_spec(from), classify_spec(to)) {
        (Some(a), Some(b)) => resolve_spec(a, now) < resolve_spec(b, now),
        _ => false,
    }
}

proof fn lemma_digits_value_nonneg(s: Seq<char>)
    requires
        all_digits(s),
    ensures
        digits_value(s) >= 0,
    decreases s.len(),
{
    if s.len() > 0 {
        assert(is_digit(s[s.len() - 1]));
        lemma_digits_value_nonneg(s.drop_last());
    }
}

proof fn lemma_digits_prefix_le(s: Seq<char>, k: int)
    requires
        all_digits(s),
        0 <= k <= s.len(),
    ensures
        digits_value(s.subrange(0, k)) <= digits_value(s),
    decreases s.len(),
{
    if k == s.len() {
        assert(s.subrange(0, k) =~= s);
    } else {
        let t = s.drop_last();
        assert(is_digit(s[s.len() - 1]));
        lemma_digits_value_nonneg(t);
        lemma_digits_prefix_le(t, k);
        assert(t.subrange(0, k) =~= s.subrange(0, k));
    }
}

proof fn lemma_div_bound(n: int, u: int, m: int)
    requires
        u > 0,
        n >= 0,
        m >= 0,
    ensures
        (n <= m / u) <==> (n * u <= m),
{
    let q = m / u;
    let r = m % u;
    vstd::arithmetic::div_mod::lemma_fundamental_div_mod(m, u);
    vstd::arithmetic::div_mod::lemma_mod_pos_bound(m, u);
    assert((n <= q) <==> (n * u <= m)) by (nonlinear_arith)
        requires
            m == u * q + r,
            0 <= r < u,
            n >= 0,
            u > 0,
    ;
}

fn letter_is(c: char, lower: char) -> (r: bool)
    requires
        'a' <= lower <= 'z',
    ensures
        r == same_letter(c, lower),
{
    c == lower || (c as u32) + 32 == (lower as u32)
}

fn char_is_digit(c: char) -> (r: bool)
    ensures
        r == is_digit(c),
{
    '0' <= c && c <= '9'
}

/// The decimal number written by `s[from..to]`, if that text is a non-empty
/// run of digits whose value is at most `limit`.
fn digits_in(s: &str, from: usize, to: usize, limit: u64) -> (r: Option<u64>)
    requires
        from <= to <= s@.len(),
    ensures
        ({
            let t = s@.subrange(from as int, to as int);
            match r {
                Some(v) => t.len() > 0 && all_digits(t) && v as int == digits_value(t) && v <= limit,
                None => !(t.len() > 0 && all_digits(t) && digits_value(t) <= limit),
            }
        }),
{
    if from == to {
        return None;
    }
    let ghost t = s@.subrange(from as int, to as int);
    let mut v: u64 = 0;
    let mut i: usize = from;
    while i < to
        invariant
            from <= i <= to <= s@.len(),
            t == s@.subrange(from as int, to as int),
            all_digits(s@.subrange(from as int, i as int)),
            v as int == digits_value(s@.subrange(from as int, i as int)),
            v <= limit,
        decreases to - i,
    {
        let c = s.get_char(i);
        let ghost prev = s@.subrange(from as int, i as int);
        let ghost next = s@.subrange(from as int, i + 1);
        assert(next.drop_last() =~= prev);
        assert(next.last() == c);
        if !char_is_digit(c) {
            assert(t[i - from] == c);
            return None;
        }
        assert(all_digits(next)) by {
            assert forall|j: int| 0 <= j < next.len() implies #[trigger] is_digit(next[j]) by {
                if j < prev.len() {
                    assert(next[j] == prev[j]);
                }
            }
        }
        let nv: u128 = (v as u128) * 10 + ((c as u32) - ('0' as u32)) as u128;
        if nv > limit as u128 {
            proof {
                if all_digits(t) {
                    lemma_digits_prefix_le(t, i + 1 - from);
                    assert(t.subrange(0, i + 1 - from) =~= next);
                }
            }
            return None;
        }
        v = nv as u64;
        i = i + 1;
    }
    assert(s@.subrange(from as int, i as int) =~= t);
    Some(v)
}

/// Relies on chrono's `DateTime::parse_from_rfc3339`, read back through
/// `timestamp_millis`: the instant written by an RFC 3339 date-time.
#[verifier::external_body]
fn parse_rfc3339_millis(s: &str) -> (r: Option<i64>)
    ensures
        r == rfc3339_millis(s@),
{
    match chrono::DateTime::parse_from_rfc3339(s) {
        Ok(d) => Some(d.timestamp_millis()),
        Err(_) => None,
    }
}

/// The unit named by the last one or two characters of a relative
/// expression of length `n`, with how many characters name it.
fn unit_at_end(s: &str, n: usize) -> (r: Option<(usize, u64)>)
    requires
        n == s@.len(),
        n >= 5,
    ensures
        ({
            let rest = s@.subrange(4, n as int);
            let k = unit_len(rest);
            let unit = rest.subrange(rest.len() - k, rest.len() as int);
            match r {
                Some((kk, u)) => kk as int == k && k <= rest.len() && unit_millis(unit) == Some(
                    u as int,
                ),
                None => unit_millis(unit) is None,
            }
        }),
{
    let ghost rest = s@.subrange(4, n as int);
    let last = s.get_char(n - 1);
    assert(rest.last() == last);
    if n >= 6 && letter_is(s.get_char(n - 2), 'm') && letter_is(last, 'o') {
        let ghost unit = rest.subrange(rest.len() - 2, rest.len() as int);
        assert(unit[0] == s@[n - 2] && unit[1] == last);
        return Some((2, MILLIS_PER_MONTH));
    }
    let ghost unit = rest.subrange(rest.len() - 1, rest.len() as int);
    assert(unit.len() == 1 && unit[0] == last);
    if letter_is(last, 's') {
        Some((1, MILLIS_PER_SECOND))
    } else if letter_is(last, 'm') {
        Some((1, MILLIS_PER_MINUTE))
    } else if letter_is(last, 'h') {
        Some((1, MILLIS_PER_HOUR))
    } else if letter_is(last, 'd') {
        Some((1, MILLIS_PER_DAY))
    } else if letter_is(last, 'w') {
        Some((1, MILLIS_PER_WEEK))
    } else {
        None
    }
}

/// The offset of a string that starts with `now`.
fn relative_offset_of(s: &str, n: usize) -> (r: Option<u64>)
    requires
        n == s@.len(),
        has_now_prefix(s@),
    ensures
        match r {
            Some(o) => relative_offset(s@) == Some(o as int),
            None => relative_offset(s@) is None,
        },
{
    if n == 3 {
        return Some(0);
    }
    if s.get_char(3) != '-' || n < 5 {
        return None;
    }
    let ghost rest = s@.subrange(4, n as int);
    match unit_at_end(s, n) {
        None => None,
        Some((k, unit)) => {
            let ghost count = rest.subrange(0, rest.len() - k);
            assert(s@.subrange(4, (n - k) as int) =~= count);
            let limit = MAX_MILLIS / unit;
            match digits_in(s, 4, n - k, limit) {
                Some(c) => {
                    proof {
                        lemma_div_bound(c as int, unit as int, MAX_MILLIS as int);
                    }
                    assert(c * unit <= MAX_MILLIS) by (nonlinear_arith)
                        requires
                            c as int * unit as int <= MAX_MILLIS as int,
                    ;
                    Some(c * unit)
                },
                None => {
                    proof {
                        if rest.len() > k && all_digits(count) {
                            lemma_digits_value_nonneg(count);
                            lemma_div_bound(digits_value(count), unit as int, MAX_MILLIS as int);
                        }
                    }
                    None
                },
            }
        },
    }
}

fn has_absolute_shape(s: &str, n: usize) -> (r: bool)
    requires
        n == s@.len(),
    ensures
        r == absolute_shape(s@),
{
    if n < MIN_ABSOLUTE_LEN {
        return false;
    }
    let mut i: usize = 0;
    while i < 19
        invariant
            n == s@.len(),
            n >= MIN_ABSOLUTE_LEN,
            i <= 19,
            forall|j: int| 0 <= j < i ==> #[trigger] shape_char(j, s@[j]),
        decreases 19 - i,
    {
        let c = s.get_char(i);
        let ok = if i == 4 || i == 7 {
            c == '-'
        } else if i == 10 {
            c == 'T' || c == 't' || c == ' '
        } else if i == 13 || i == 16 {
            c == ':'
        } else {
            char_is_digit(c)
        };
        if !ok {
            assert(!shape_char(i as int, s@[i as int]));
            return false;
        }
        i = i + 1;
    }
    true
}

/// Classifies a time boundary: `now` or `now-<N><unit>`, a string of decimal
/// digits (epoch milliseconds), or an RFC 3339 date-time with its offset.
/// `None` stands for Invalid.
pub fn classify(s: &str) -> (r: Option<TimeExpression>)
    ensures
        r == classify_spec(s@),
{
    let n = s.unicode_len();
    if n >= 3 && letter_is(s.get_char(0), 'n') && letter_is(s.get_char(1), 'o') && letter_is(
        s.get_char(2),
        'w',
    ) {
        return match relative_offset_of(s, n) {
            Some(o) => Some(TimeExpression::Relative { offset_ms: o }),
            None => None,
        };
    }
    assert(s@.subrange(0, n as int) =~= s@);
    match digits_in(s, 0, n, MAX_MILLIS) {
        Some(v) => {
            return Some(TimeExpression::EpochMillis { millis: v as i64 });
        },
        None => {},
    }
    if has_absolute_shape(s, n) {
        assert(shape_char(4, s@[4]));
        assert(!is_digit(s@[4]));
        assert(!all_digits(s@));
        match parse_rfc3339_millis(s) {
            Some(m) => Some(TimeExpression::Absolute { millis: m }),
            None => None,
        }
    } else {
        None
    }
}

/// The instant an expression denotes when the clock reads `now_ms`.
pub fn resolve(e: &TimeExpression, now_ms: i64) -> (r: i128)
    ensures
        r as int == resolve_spec(*e, now_ms as int),
{
    match e {
        TimeExpression::Relative { offset_ms } => now_ms as i128 - *offset_ms as i128,
        TimeExpression::Absolute { millis } => *millis as i128,
        TimeExpression::EpochMillis { millis } => *millis as i128,
    }
}

/// Whether `s` is a well-formed time boundary.
pub fn is_valid_time_format(s: &str) -> (r: bool)
    ensures
        r == classify_spec(s@) is Some,
{
    classify(s).is_some()
}

/// Whether `from` and `to` form a non-empty, forward-ordered range when both
/// are resolved against the one clock reading `now_ms`.
pub fn validate_range_at(from: &str, to: &str, now_ms: i64) -> (r: bool)
    ensures
        r == valid_range(from@, to@, now_ms as int),
{
    match (classify(from), classify(to)) {
        (Some(a), Some(b)) => resolve(&a, now_ms) < resolve(&b, now_ms),
        _ => false,
    }
}

/// For a fixed unit, a larger count `N` in `now-<N><unit>` resolves to a
/// strictly earlier instant.
pub proof fn lemma_larger_count_resolves_earlier(s1: Seq<char>, s2: Seq<char>, now: int)
    requires
        classify_spec(s1) is Some,
        classify_spec(s2) is Some,
        relative_form(s1) is Some,
        relative_form(s2) is Some,
        relative_form(s1)->0.unit_ms == relative_form(s2)->0.unit_ms,
        relative_form(s1)->0.count < relative_form(s2)->0.count,
    ensures
        resolve_spec(classify_spec(s2)->0, now) < resolve_spec(classify_spec(s1)->0, now),
{
    let n1 = relative_form(s1)->0.count;
    let u = relative_form(s1)->0.unit_ms;
    let n2 = relative_form(s2)->0.count;
    lemma_relative_form_bounds(s1);
    assert(n1 * u < n2 * u) by (nonlinear_arith)
        requires
            n1 < n2,
            u > 0,
    ;
}

/// With the same count `N > 0`, a longer unit resolves to a strictly earlier
/// instant (so `now-1h` lies before `now-1m`).
pub proof fn lemma_longer_unit_resolves_earlier(s1: Seq<char>, s2: Seq<char>, now: int)
    requires
        classify_spec(s1) is Some,
        classify_spec(s2) is Some,
        relative_form(s1) is Some,
        relative_form(s2) is Some,
        relative_form(s1)->0.count == relative_form(s2)->0.count,
        relative_form(s1)->0.count > 0,
        relative_form(s1)->0.unit_ms > relative_form(s2)->0.unit_ms,
    ensures
        resolve_spec(classify_spec(s1)->0, now) < resolve_spec(classify_spec(s2)->0, now),
{
    let n = relative_form(s1)->0.count;
    let u1 = relative_form(s1)->0.unit_ms;
    let u2 = relative_form(s2)->0.unit_ms;
    assert(n * u2 < n * u1) by (nonlinear_arith)
        requires
            n > 0,
            u2 < u1,
    ;
}

pub(crate) proof fn lemma_relative_form_bounds(s: Seq<char>)
    requires
        relative_form(s) is Some,
    ensures
        relative_form(s)->0.count >= 0,
        relative_form(s)->0.unit_ms > 0,
{
    if s.len() > 3 {
        let rest = s.subrange(4, s.len() as int);
        let k = unit_len(rest);
        lemma_digits_value_nonneg(rest.subrange(0, rest.len() - k));
    }
}

/// A range is never valid when its bounds are the same string, nor when
/// `from` does not resolve strictly before `to`, whatever the clock reads.
pub proof fn lemma_non_forward_range_rejected(from: Seq<char>, to: Seq<char>, now: int)
    ensures
        from == to ==> !valid_range(from, to, now),
        (classify_spec(from) is Some && classify_spec(to) is Some && resolve_spec(
            classify_spec(from)->0,
            now,
        ) >= resolve_spec(classify_spec(to)->0, now)) ==> !valid_range(from, to, now),
{
}

/// `now-abc`, `yesterday` and the empty string are Invalid.
pub proof fn lemma_malformed_examples_invalid()
    ensures
        classify_spec("now-abc"@) is None,
        classify_spec("yesterday"@) is None,
        classify_spec(""@) is None,
{
    reveal_strlit("now-abc");
    reveal_strlit("yesterday");
    reveal_strlit("");
    let a = "now-abc"@;
    let rest = a.subrange(4, 7);
    assert(rest[1] == 'b' && rest[2] == 'c');
    assert(unit_len(rest) == 1);
    assert(rest.subrange(2, 3)[0] == 'c');
    let y = "yesterday"@;
    assert(!is_digit(y[0]));
}

/// Any text that neither starts with `now`, nor is a run of digits, nor has
/// the shape of a date-time, is Invalid.
pub proof fn lemma_unrecognised_text_invalid(s: Seq<char>)
    requires
        !has_now_prefix(s),
        !(s.len() > 0 && all_digits(s)),
        !absolute_shape(s),
    ensures
        classify_spec(s) is None,
{
}

} // verus!
