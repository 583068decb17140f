//! The textual timestamp grammars the resolver accepts: RFC 3339
//! (four-digit year, `T`/`t`/space separator, optional fraction of one
//! to nine digits, `Z`/`z` or `+HH:MM`/`-HH:MM` offset) and the fixed
//! local pattern `YYYY-MM-DD HH:MM:SS`.  Leap-second timestamps
//! (second field 60) lie outside this grammar.

use crate::civil::{civil_wf, days_in_month_exec, Civil};
use crate::render::{dval, is_digit};
use vstd::prelude::*;
use vstd::string::StrSliceExecFns;

verus! {

/// Value of the two digits at positions i, i+1.
pub open spec fn val2(s: Seq<char>, i: int) -> int {
    dval(s[i]) * 10 + dval(s[i + 1])
}

/// Value of the four digits at positions i through i+3.
pub open spec fn val4(s: Seq<char>, i: int) -> int {
    val2(s, i) * 100 + val2(s, i + 2)
}

pub open spec fn two_digits_at(s: Seq<char>, i: int) -> bool {
    is_digit(s[i]) && is_digit(s[i + 1])
}

/// The date-time separator: RFC 3339 readings accept `T`, `t` or a
/// space; the local pattern only a space.
pub open spec fn sep_ok(c: char, rfc: bool) -> bool {
    if rfc {
        c == 'T' || c == 't' || c == ' '
    } else {
        c == ' '
    }
}

/// Shape of the leading 19 characters: `YYYY-MM-DD?HH:MM:SS`.
pub open spec fn civil19_shape(s: Seq<char>, rfc: bool) -> bool {
    &&& s.len() >= 19
    &&& two_digits_at(s, 0)
    &&& two_digits_at(s, 2)
    &&& s[4] == '-'
    &&& two_digits_at(s, 5)
    &&& s[7] == '-'
    &&& two_digits_at(s, 8)
    &&& sep_ok(s[10], rfc)
    &&& two_digits_at(s, 11)
    &&& s[13] == ':'
    &&& two_digits_at(s, 14)
    &&& s[16] == ':'
    &&& two_digits_at(s, 17)
}

/// The civil fields the leading 19 characters carry.
pub open spec fn civil19_fields(s: Seq<char>) -> Civil {
    Civil {
        year: val4(s, 0) as i64,
        month: val2(s, 5) as i64,
        day: val2(s, 8) as i64,
        hour: val2(s, 11) as i64,
        minute: val2(s, 14) as i64,
        second: val2(s, 17) as i64,
    }
}

/// The civil date-time of the leading 19 characters, if shaped and
/// valid.
pub open spec fn spec_parse_civil19(s: Seq<char>, rfc: bool) -> Option<Civil> {
    if civil19_shape(s, rfc) && civil_wf(civil19_fields(s)) {
        Some(civil19_fields(s))
    } else {
        None
    }
}

/// The fixed local pattern: exactly 19 characters, space separator.
pub open spec fn spec_parse_local(s: Seq<char>) -> Option<Civil> {
    if s.len() == 19 {
        spec_parse_civil19(s, false)
    } else {
        None
    }
}

/// Length of the run of digit characters starting at i.
pub open spec fn digit_run_len(s: Seq<char>, i: int) -> int
    decreases s.len() - i,
{
    if i < 0 || i >= s.len() || !is_digit(s[i]) {
        0
    } else {
        1 + digit_run_len(s, i + 1)
    }
}

/// Value of the k digits starting at i.
pub open spec fn digits_val(s: Seq<char>, i: int, k: int) -> int
    decreases k,
{
    if k <= 0 {
        0
    } else {
        digits_val(s, i, k - 1) * 10 + dval(s[i + k - 1])
    }
}

pub open spec fn pow10(e: int) -> int {
    if e <= 0 {
        1
    } else if e == 1 {
        10
    } else if e == 2 {
        100
    } else if e == 3 {
        1000
    } else if e == 4 {
        10000
    } else if e == 5 {
        100000
    } else if e == 6 {
        1000000
    } else if e == 7 {
        10000000
    } else if e == 8 {
        100000000
    } else {
        1000000000
    }
}

/// The offset tail starting at i: `Z`/`z`, or a sign and `HH:MM` with
/// hours to 23 and minutes to 59, reaching exactly to the end.
pub open spec fn spec_parse_offset(s: Seq<char>, i: int) -> Option<int> {
    if i >= s.len() {
        None
    } else if s[i] == 'Z' || s[i] == 'z' {
        if s.len() == i + 1 {
            Some(0)
        } else {
            None
        }
    } else if s[i] == '+' || s[i] == '-' {
        if s.len() == i + 6 && two_digits_at(s, i + 1) && s[i + 3] == ':' && two_digits_at(s, i + 4)
            && val2(s, i + 1) <= 23 && val2(s, i + 4) <= 59 {
            if s[i] == '-' {
                Some(-(val2(s, i + 1) * 3600 + val2(s, i + 4) * 60))
            } else {
                Some(val2(s, i + 1) * 3600 + val2(s, i + 4) * 60)
            }
        } else {
            None
        }
    } else {
        None
    }
}

/// A parsed absolute timestamp: civil fields, subsecond nanoseconds,
/// and the explicit offset in seconds.
#[derive(Clone, Copy, Debug, PartialEq, Eq, Structural)]
pub struct Stamp {
    pub civil: Civil,
    pub nanos: i64,
    pub offset: i64,
}

pub open spec fn stamp_wf(st: Stamp) -> bool {
    &&& civil_wf(st.civil)
    &&& 0 <= st.nanos < 1_000_000_000
    &&& -86340 <= st.offset <= 86340
}

/// The full RFC 3339 reading of a string.
pub open spec fn spec_parse_rfc3339(s: Seq<char>) -> Option<Stamp> {
    match spec_parse_civil19(s, true) {
        None => None,
        Some(c) => {
            if s.len() == 19 {
                None
            } else if s[19] == '.' {
                let k = digit_run_len(s, 20);
                if 1 <= k <= 9 {
                    match spec_parse_offset(s, 20 + k) {
                        None => None,
                        Some(off) => Some(
                            Stamp {
                                civil: c,
                                nanos: (digits_val(s, 20, k) * pow10(9 - k)) as i64,
                                offset: off as i64,
                            },
                        ),
                    }
                } else {
                    None
                }
            } else {
                match spec_parse_offset(s, 19) {
                    None => None,
                    Some(off) => Some(Stamp { civil: c, nanos: 0, offset: off as i64 }),
                }
            }
        },
    }
}

/// A run of digits closed on the right has exactly that length.
proof fn lemma_digit_run(s: Seq<char>, i: int, j: int)
    requires
        0 <= i <= j <= s.len(),
        forall|t: int| i <= t < j ==> is_digit(s[t]),
        j == s.len() || !is_digit(s[j]),
    ensures
        digit_run_len(s, i) == j - i,
    decreases j - i,
{
    if i < j {
        lemma_digit_run(s, i + 1, j);
    }
}

fn char_is(s: &str, i: usize, c: char) -> (r: bool)
    requires
        i < s@.len(),
    ensures
        r == (s@[i as int] == c),
{
    s.get_char(i) == c
}

fn digit_test(s: &str, i: usize) -> (r: bool)
    requires
        i < s@.len(),
    ensures
        r == is_digit(s@[i as int]),
{
    let u = s.get_char(i) as u32;
    48 <= u && u <= 57
}

fn digit_value_at(s: &str, i: usize) -> (r: i64)
    requires
        i < s@.len(),
        is_digit(s@[i as int]),
    ensures
        r == dval(s@[i as int]),
        0 <= r <= 9,
{
    let u = s.get_char(i) as u32;
    (u - 48) as i64
}

fn two_digits_exec(s: &str, i: usize) -> (r: Option<i64>)
    requires
        i <= 100,
        i + 1 < s@.len(),
    ensures
        r is Some <==> two_digits_at(s@, i as int),
        r matches Some(v) ==> v == val2(s@, i as int) && 0 <= v <= 99,
{
    if digit_test(s, i) && digit_test(s, i + 1) {
        Some(digit_value_at(s, i) * 10 + digit_value_at(s, i + 1))
    } else {
        None
    }
}

/// Reads the leading `YYYY-MM-DD?HH:MM:SS` block.
pub fn parse_civil19(s: &str, rfc: bool) -> (r: Option<Civil>)
    ensures
        r == spec_parse_civil19(s@, rfc),
        r matches Some(c) ==> civil_wf(c),
{
    let n = s.unicode_len();
    if n < 19 {
        return None;
    }
    let yh = match two_digits_exec(s, 0) {
        None => return None,
        Some(v) => v,
    };
    let yl = match two_digits_exec(s, 2) {
        None => return None,
        Some(v) => v,
    };
    if !char_is(s, 4, '-') {
        return None;
    }
    let mo = match two_digits_exec(s, 5) {
        None => return None,
        Some(v) => v,
    };
    if !char_is(s, 7, '-') {
        return None;
    }
    let d = match two_digits_exec(s, 8) {
        None => return None,
        Some(v) => v,
    };
    let sep_found = if rfc {
        char_is(s, 10, 'T') || char_is(s, 10, 't') || char_is(s, 10, ' ')
    } else {
        char_is(s, 10, ' ')
    };
    if !sep_found {
        return None;
    }
    let h = match two_digits_exec(s, 11) {
        None => return None,
        Some(v) => v,
    };
    if !char_is(s, 13, ':') {
        return None;
    }
    let mi = match two_digits_exec(s, 14) {
        None => return None,
        Some(v) => v,
    };
    if !char_is(s, 16, ':') {
        return None;
    }
    let sec = match two_digits_exec(s, 17) {
        None => return None,
        Some(v) => v,
    };
    let y = yh * 100 + yl;
    if mo < 1 || mo > 12 {
        return None;
    }
    if d < 1 || d > days_in_month_exec(y, mo) {
        return None;
    }
    if h > 23 || mi > 59 || sec > 59 {
        return None;
    }
    Some(Civil { year: y, month: mo, day: d, hour: h, minute: mi, second: sec })
}

/// Reads the fixed local pattern.
pub fn parse_local_pattern(s: &str) -> (r: Option<Civil>)
    ensures
        r == spec_parse_local(s@),
        r matches Some(c) ==> civil_wf(c),
{
    let n = s.unicode_len();
    if n != 19 {
        return None;
    }
    parse_civil19(s, false)
}

fn parse_offset_exec(s: &str, i: usize) -> (r: Option<i64>)
    requires
        i <= 94,
        i <= s@.len(),
    ensures
        r is Some <==> spec_parse_offset(s@, i as int) is Some,
        r matches Some(v) ==> Some(v as int) == spec_parse_offset(s@, i as int) && -86340 <= v
            <= 86340,
{
    let n = s.unicode_len();
    if i >= n {
        return None;
    }
    if char_is(s, i, 'Z') || char_is(s, i, 'z') {
        if n == i + 1 {
            return Some(0);
        } else {
            return None;
        }
    }
    let negative = char_is(s, i, '-');
    if !negative && !char_is(s, i, '+') {
        return None;
    }
    if n != i + 6 {
        return None;
    }
    let hh = match two_digits_exec(s, i + 1) {
        None => return None,
        Some(v) => v,
    };
    if !char_is(s, i + 3, ':') {
        return None;
    }
    let mm = match two_digits_exec(s, i + 4) {
        None => return None,
        Some(v) => v,
    };
    if hh > 23 || mm > 59 {
        return None;
    }
    let mag = hh * 3600 + mm * 60;
    if negative {
        Some(-mag)
    } else {
        Some(mag)
    }
}

fn pow10_exec(e: i64) -> (r: i64)
    requires
        0 <= e <= 9,
    ensures
        r == pow10(e as int),
        1 <= r <= 1_000_000_000,
{
    if e == 0 {
        1
    } else if e == 1 {
        10
    } else if e == 2 {
        100
    } else if e == 3 {
        1000
    } else if e == 4 {
        10000
    } else if e == 5 {
        100000
    } else if e == 6 {
        1000000
    } else if e == 7 {
        10000000
    } else if e == 8 {
        100000000
    } else {
        1000000000
    }
}

/// Reads a whole RFC 3339 timestamp.
pub fn parse_rfc3339(s: &str) -> (r: Option<Stamp>)
    ensures
        r == spec_parse_rfc3339(s@),
        r matches Some(st) ==> stamp_wf(st),
{
    let c = match parse_civil19(s, true) {
        None => return None,
        Some(c) => c,
    };
    let n = s.unicode_len();
    if n == 19 {
        return None;
    }
    if char_is(s, 19, '.') {
        let mut j: usize = 20;
        while j < n && digit_test(s, j)
            invariant
                20 <= j <= n,
                n == s@.len(),
                forall|t: int| 20 <= t < j ==> is_digit(s@[t]),
            decreases n - j,
        {
            j = j + 1;
        }
        proof {
            lemma_digit_run(s@, 20, j as int);
        }
        let k = j - 20;
        if k < 1 || k > 9 {
            return None;
        }
        let mut v: i64 = 0;
        let mut t: usize = 20;
        while t < 20 + k
            invariant
                20 <= t <= 20 + k,
                1 <= k <= 9,
                n == s@.len(),
                j == 20 + k <= n,
                forall|q: int| 20 <= q < j ==> is_digit(s@[q]),
                v == digits_val(s@, 20, t - 20),
                0 <= v < pow10(t - 20),
            decreases 20 + k - t,
        {
            let d = digit_value_at(s, t);
            v = v * 10 + d;
            t = t + 1;
        }
        let p = pow10_exec(9 - k as i64);
        proof {
            assert(pow10(k as int) * pow10(9 - k as int) == 1_000_000_000) by {
                let ki = k as int;
                if ki == 1 {
                    assert(pow10(1) * pow10(8) == 1_000_000_000);
                } else if ki == 2 {
                    assert(pow10(2) * pow10(7) == 1_000_000_000);
                } else if ki == 3 {
                    assert(pow10(3) * pow10(6) == 1_000_000_000);
                } else if ki == 4 {
                    assert(pow10(4) * pow10(5) == 1_000_000_000);
                } else if ki == 5 {
                    assert(pow10(5) * pow10(4) == 1_000_000_000);
                } else if ki == 6 {
                    assert(pow10(6) * pow10(3) == 1_000_000_000);
                } else if ki == 7 {
                    assert(pow10(7) * pow10(2) == 1_000_000_000);
                } else if ki == 8 {
                    assert(pow10(8) * pow10(1) == 1_000_000_000);
                } else {
                    assert(pow10(9) * pow10(0) == 1_000_000_000);
                }
            }
            assert(v * pow10(9 - k as int) < 1_000_000_000 && v * pow10(9 - k as int) >= 0)
                by (nonlinear_arith)
                requires
                    0 <= v < pow10(k as int),
                    pow10(k as int) * pow10(9 - k as int) == 1_000_000_000,
                    pow10(9 - k as int) >= 1,
            ;
        }
        let nanos = v * p;
        let off = match parse_offset_exec(s, j) {
            None => return None,
            Some(o) => o,
        };
        Some(Stamp { civil: c, nanos, offset: off })
    } else {
        let off = match parse_offset_exec(s, 19) {
            None => return None,
            Some(o) => o,
        };
        Some(Stamp { civil: c, nanos: 0, offset: off })
    }
}

} // verus!
