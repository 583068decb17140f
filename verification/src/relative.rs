//! The relative grammar: a duration text followed by whitespace and
//! the trailing word `ago` or `later`.  The suffix check is the
//! library's own; the duration text itself is read by an outside
//! duration parser behind a trusted wrapper.

use crate::instant::{Instant, MAX_INSTANT_SECS};
use crate::TimeError;
use vstd::prelude::*;
use vstd::string::StrSliceExecFns;

verus! {

/// The whitespace the qualifier must follow.
pub open spec fn is_space(c: char) -> bool {
    c == ' ' || c == '\t' || c == '\n' || c == '\r'
}

pub open spec fn ends_with_ago(s: Seq<char>) -> bool {
    &&& s.len() >= 4
    &&& is_space(s[s.len() - 4])
    &&& s[s.len() - 3] == 'a'
    &&& s[s.len() - 2] == 'g'
    &&& s[s.len() - 1] == 'o'
}

pub open spec fn ends_with_later(s: Seq<char>) -> bool {
    &&& s.len() >= 6
    &&& is_space(s[s.len() - 6])
    &&& s[s.len() - 5] == 'l'
    &&& s[s.len() - 4] == 'a'
    &&& s[s.len() - 3] == 't'
    &&& s[s.len() - 2] == 'e'
    &&& s[s.len() - 1] == 'r'
}

/// `Some(true)` for a trailing `ago`, `Some(false)` for a trailing
/// `later`, `None` when the string carries neither qualifier.
pub open spec fn rel_qualifier(s: Seq<char>) -> Option<bool> {
    if ends_with_ago(s) {
        Some(true)
    } else if ends_with_later(s) {
        Some(false)
    } else {
        None
    }
}

/// The duration text: the input with the qualifier word stripped.
pub open spec fn rel_text(s: Seq<char>) -> Seq<char> {
    if ends_with_ago(s) {
        s.subrange(0, s.len() - 3)
    } else {
        s.subrange(0, s.len() - 5)
    }
}

fn space_test(c: char) -> (r: bool)
    ensures
        r == is_space(c),
{
    c == ' ' || c == '\t' || c == '\n' || c == '\r'
}

/// Reads the trailing qualifier, if any.
pub fn relative_qualifier(s: &str) -> (r: Option<bool>)
    ensures
        r == rel_qualifier(s@),
{
    let n = s.unicode_len();
    if n >= 4 && s.get_char(n - 1) == 'o' && s.get_char(n - 2) == 'g' && s.get_char(n - 3) == 'a'
        && space_test(s.get_char(n - 4)) {
        Some(true)
    } else if n >= 6 && s.get_char(n - 1) == 'r' && s.get_char(n - 2) == 'e' && s.get_char(n - 3)
        == 't' && s.get_char(n - 4) == 'a' && s.get_char(n - 5) == 'l' && space_test(
        s.get_char(n - 6),
    ) {
        Some(false)
    } else {
        None
    }
}

/// What the outside duration parser reads from a text: a function of
/// the characters alone.
pub uninterp spec fn duration_of(s: Seq<char>) -> Option<(u64, u32)>;

/// Relies on parse_duration::parse: a deterministic function of its
/// input string, returning a std Duration on success, whose subsecond
/// nanoseconds lie below one billion.
#[verifier::external_body]
fn parse_duration_text(s: &str) -> (r: Option<(u64, u32)>)
    ensures
        r == duration_of(s@),
        r matches Some(d) ==> d.1 < 1_000_000_000,
{
    match parse_duration::parse(s) {
        Ok(d) => Some((d.as_secs(), d.subsec_nanos())),
        Err(_) => None,
    }
}

/// Tries the relative grammar against `input`, measuring from `now`.
/// `Ok(None)` is "no match" (no qualifier, or an unreadable duration
/// text): the caller falls through to the absolute grammar.  A matched
/// duration that leaves the representable range when applied to `now`
/// is a fatal parse failure, not a "no match".
pub fn try_get_relative_dt(input: &str, now: &Instant) -> (r: Result<Option<Instant>, TimeError>)
    requires
        now.wf(),
    ensures
        rel_qualifier(input@) is None ==> r == Ok::<Option<Instant>, TimeError>(None),
        rel_qualifier(input@) matches Some(is_ago) ==> match duration_of(rel_text(input@)) {
            None => r == Ok::<Option<Instant>, TimeError>(None),
            Some(d) => {
                let delta = d.0 * 1_000_000_000 + d.1;
                if is_ago {
                    if now.value_ns() - delta >= -MAX_INSTANT_SECS * 1_000_000_000 {
                        &&& r matches Ok(oi)
                        &&& oi matches Some(i)
                        &&& i.wf()
                        &&& i.value_ns() == now.value_ns() - delta
                    } else {
                        r == Err::<Option<Instant>, TimeError>(TimeError::InputParse)
                    }
                } else {
                    if now.value_ns() + delta <= MAX_INSTANT_SECS * 1_000_000_000 + 999_999_999 {
                        &&& r matches Ok(oi)
                        &&& oi matches Some(i)
                        &&& i.wf()
                        &&& i.value_ns() == now.value_ns() + delta
                    } else {
                        r == Err::<Option<Instant>, TimeError>(TimeError::InputParse)
                    }
                }
            },
        },
{
    let q = match relative_qualifier(input) {
        None => return Ok(None),
        Some(b) => b,
    };
    let n = input.unicode_len();
    let text = if q {
        input.substring_char(0, n - 3)
    } else {
        input.substring_char(0, n - 5)
    };
    proof {
        assert(text@ =~= rel_text(input@));
    }
    let d = match parse_duration_text(text) {
        None => return Ok(None),
        Some(d) => d,
    };
    let res = if q {
        now.checked_sub_duration(d.0, d.1)
    } else {
        now.checked_add_duration(d.0, d.1)
    };
    match res {
        Some(i) => Ok(Some(i)),
        None => Err(TimeError::InputParse),
    }
}

} // verus!
