//! The resolution pipeline: the relative grammar first, then the
//! absolute grammars, then the requested rendering.

use crate::civil::{
    aday_of, civil_to_aday, civil_wf, days_before_year, days_before_year_exec,
    lemma_days_before_year_bounds, sod_of, Civil,
};
use crate::clock::{local_offset_for_civil, local_offset_now, now_utc};
use crate::format::{format_readable, local_aday, local_sod, rendered_offset};
use crate::instant::Instant;
use crate::relative::{duration_of, rel_qualifier, rel_text, try_get_relative_dt};
use crate::render::{dec_i64, i64_to_string};
use crate::rfc3339::{
    parse_local_pattern, parse_rfc3339, spec_parse_local, spec_parse_rfc3339, stamp_wf, Stamp,
};
use crate::{OutputMode, TimeError};
use vstd::prelude::*;

verus! {

/// The epoch seconds a civil time names when read at the given offset.
pub open spec fn civil_instant_secs(c: Civil, off: int) -> int {
    (aday_of(c) - days_before_year(1970)) * 86400 + sod_of(c) - off
}

/// No relative reading applies: no qualifier, or an unreadable
/// duration text.
pub open spec fn rel_no_match(s: Seq<char>) -> bool {
    match rel_qualifier(s) {
        None => true,
        Some(_) => duration_of(rel_text(s)) is None,
    }
}

/// An instant with these epoch seconds, shifted by the offset `o`,
/// falls on a day renderable with a four-digit year.
pub open spec fn renderable_at(secs: int, o: int) -> bool {
    0 <= (secs + o) / 86400 + days_before_year(1970) < days_before_year(10000)
}

/// The instant is renderable at every offset the clock wrappers can
/// report: its readable rendering cannot fail for want of range.
pub open spec fn renderable_at_every_offset(secs: int) -> bool {
    forall|o: int| -86400 < o < 86400 ==> #[trigger] renderable_at(secs, o)
}

/// An instant whose own day lies strictly inside the renderable year
/// range stays renderable under every offset shift: a shift of less
/// than one day moves the day by at most one.
pub proof fn lemma_renderable_with_margin(secs: int)
    requires
        1 <= secs / 86400 + days_before_year(1970),
        secs / 86400 + days_before_year(1970) < days_before_year(10000) - 1,
    ensures
        renderable_at_every_offset(secs),
{
    assert forall|o: int| -86400 < o < 86400 implies #[trigger] renderable_at(secs, o) by {
        let d = secs / 86400;
        let rm = secs % 86400;
        assert(secs == 86400 * d + rm);
        if rm + o < 0 {
            assert(secs + o == 86400 * (d - 1) + (rm + o + 86400));
            assert((secs + o) / 86400 == d - 1);
        } else if rm + o < 86400 {
            assert(secs + o == 86400 * d + (rm + o));
            assert((secs + o) / 86400 == d);
        } else {
            assert(secs + o == 86400 * (d + 1) + (rm + o - 86400));
            assert((secs + o) / 86400 == d + 1);
        }
    }
}

/// The readable output string, read back under the RFC 3339 grammar,
/// carries the civil fields of the instant with the given epoch
/// seconds shifted by `o`, its subsecond truncated to 100
/// milliseconds, and `o` truncated to whole minutes as its offset.
pub open spec fn readable_matches_at(out: Seq<char>, secs: int, nanos: int, o: int) -> bool {
    &&& spec_parse_rfc3339(out) matches Some(st)
    &&& aday_of(st.civil) == (secs + o) / 86400 + days_before_year(1970)
    &&& sod_of(st.civil) == (secs + o) % 86400
    &&& st.nanos == (nanos / 100_000_000) * 100_000_000
    &&& st.offset == rendered_offset(o)
}

/// The readable output of an instant with the given seconds and
/// subsecond: rendered at some offset the clock wrappers can report.
pub open spec fn readable_output_of(out: Seq<char>, secs: int, nanos: int) -> bool {
    exists|o: int| -86400 < o < 86400 && #[trigger] readable_matches_at(out, secs, nanos, o)
}

/// A readable rendering denotes the instant it was rendered from: the
/// stamp it reparses to (per `format_readable`'s contract) names the
/// same epoch second, shifted only by the sub-minute part of the
/// offset that the rendering drops.
pub proof fn lemma_readable_round_trip(inst: Instant, off: int, st: Stamp)
    requires
        inst.wf(),
        -86400 < off < 86400,
        aday_of(st.civil) == local_aday(inst, off),
        sod_of(st.civil) == local_sod(inst, off),
        st.offset == rendered_offset(off),
    ensures
        civil_instant_secs(st.civil, st.offset as int) == inst.secs + off
            - rendered_offset(off),
{
    let ls = inst.secs + off;
    assert(ls == 86400 * (ls / 86400) + ls % 86400);
}

fn civil_offset_to_instant(c: &Civil, off: i64, nanos: i64) -> (r: Instant)
    requires
        civil_wf(*c),
        -86400 < off < 86400,
        0 <= nanos < 1_000_000_000,
    ensures
        r.wf(),
        r.secs == civil_instant_secs(*c, off as int),
        r.nanos == nanos,
{
    proof {
        lemma_days_before_year_bounds(1970);
        lemma_days_before_year_bounds(10000);
    }
    let aday = civil_to_aday(c);
    let base = days_before_year_exec(1970);
    let sod = c.hour * 3600 + c.minute * 60 + c.second;
    Instant { secs: (aday - base) * 86400 + sod - off, nanos: nanos as u32 }
}

/// The instant an absolute timestamp names: its civil fields read at
/// its own explicit offset.
pub fn stamp_to_instant(st: &Stamp) -> (r: Instant)
    requires
        stamp_wf(*st),
    ensures
        r.wf(),
        r.secs == civil_instant_secs(st.civil, st.offset as int),
        r.nanos == st.nanos,
{
    civil_offset_to_instant(&st.civil, st.offset, st.nanos)
}

/// The instant a local-pattern civil time names, given the zone
/// lookup's outcome.  An ambiguous or nonexistent local time (no
/// unique offset) fails resolution; no branch is guessed.
pub fn local_civil_to_instant(c: &Civil, lookup: Option<i64>) -> (r: Result<Instant, TimeError>)
    requires
        civil_wf(*c),
        lookup matches Some(o) ==> -86400 < o < 86400,
    ensures
        r is Ok <==> lookup is Some,
        lookup is None ==> r == Err::<Instant, TimeError>(TimeError::InputParse),
        lookup matches Some(o) ==> (r matches Ok(i) && i.wf() && i.secs == civil_instant_secs(
            *c,
            o as int,
        ) && i.nanos == 0),
{
    match lookup {
        None => Err(TimeError::InputParse),
        Some(o) => Ok(civil_offset_to_instant(c, o, 0)),
    }
}

/// Tries the absolute grammars: strict RFC 3339 first, then the fixed
/// local pattern read in the process's local zone.  The RFC 3339 path
/// is exact; the local path depends on the zone lookup, and holds for
/// every outcome of it.
pub fn try_get_absolute_dt(input: &str) -> (r: Option<Instant>)
    ensures
        r matches Some(i) ==> i.wf(),
        spec_parse_rfc3339(input@) matches Some(st) ==> (r matches Some(i) && i.secs
            == civil_instant_secs(st.civil, st.offset as int) && i.nanos == st.nanos),
        spec_parse_rfc3339(input@) is None && spec_parse_local(input@) is None ==> r is None,
        spec_parse_rfc3339(input@) is None ==> (spec_parse_local(input@) matches Some(c) ==> (r
            is None || (r matches Some(i) && i.nanos == 0 && exists|o: int|
            -86400 < o < 86400 && i.secs == civil_instant_secs(c, o)))),
{
    match parse_rfc3339(input) {
        Some(st) => Some(stamp_to_instant(&st)),
        None => {
            match parse_local_pattern(input) {
                None => None,
                Some(c) => {
                    match local_offset_for_civil(&c) {
                        None => None,
                        Some(o) => {
                            match local_civil_to_instant(&c, Some(o)) {
                                Ok(i) => {
                                    proof {
                                        assert(-86400 < o < 86400 && i.secs
                                            == civil_instant_secs(c, o as int));
                                    }
                                    Some(i)
                                },
                                Err(_) => None,
                            }
                        },
                    }
                },
            }
        },
    }
}

/// Resolves the optional input string to an instant: absence means
/// "now", captured once at the start of resolution; otherwise the
/// relative grammar is tried, then the absolute grammars; a string
/// matching neither is a fatal parse error.
pub fn input_to_time(input: Option<&str>) -> (r: Result<Instant, TimeError>)
    ensures
        r matches Ok(i) ==> i.wf(),
        r is Err ==> r == Err::<Instant, TimeError>(TimeError::InputParse),
        input is None ==> (r matches Ok(i) && 0 <= i.secs < 8_400_000_000_000),
        input matches Some(s) ==> ((rel_no_match(s@) && spec_parse_rfc3339(s@) is None
            && spec_parse_local(s@) is None) ==> r == Err::<Instant, TimeError>(
            TimeError::InputParse,
        )),
        input matches Some(s) ==> (rel_no_match(s@) ==> (spec_parse_rfc3339(s@) matches Some(st)
            ==> (r matches Ok(i) && i.secs == civil_instant_secs(st.civil, st.offset as int)
            && i.nanos == st.nanos))),
        input matches Some(s) ==> (rel_no_match(s@) ==> (spec_parse_rfc3339(s@) is None ==> (
        spec_parse_local(s@) matches Some(c) ==> (r is Err || (r matches Ok(i) && i.nanos == 0
            && exists|o: int| -86400 < o < 86400 && i.secs == civil_instant_secs(c, o)))))),
        input matches Some(s) ==> (rel_qualifier(s@) matches Some(is_ago) ==> (duration_of(
            rel_text(s@),
        ) matches Some(d) ==> (d.0 * 1_000_000_000 + d.1 <= 500_000_000_000_000_000_000 ==> r
            is Ok))),
{
    let now = now_utc();
    match input {
        None => Ok(now),
        Some(s) => {
            match try_get_relative_dt(s, &now) {
                Err(e) => Err(e),
                Ok(Some(i)) => Ok(i),
                Ok(None) => {
                    match try_get_absolute_dt(s) {
                        Some(i) => Ok(i),
                        None => Err(TimeError::InputParse),
                    }
                },
            }
        },
    }
}

/// Resolves the input and renders it in the requested mode.  Epoch and
/// millisecond renderings are decimal text; a readable rendering is an
/// RFC 3339 string at the current local offset (deliberately so under
/// both timezone choices), truncated to 100-millisecond resolution,
/// and always reparses under the RFC 3339 grammar.
pub fn produce_time_output(input: Option<&str>, mode: OutputMode) -> (r: Result<String, TimeError>)
    ensures
        input is None && !(mode is Readable) ==> r is Ok,
        input is None ==> (r is Ok || r == Err::<String, TimeError>(TimeError::FormatRange)),
        r matches Ok(out) ==> (mode is Readable ==> spec_parse_rfc3339(out@) is Some),
        input matches Some(s) ==> ((rel_no_match(s@) && spec_parse_rfc3339(s@) is None
            && spec_parse_local(s@) is None) ==> r == Err::<String, TimeError>(
            TimeError::InputParse,
        )),
        input matches Some(s) ==> (rel_no_match(s@) ==> (spec_parse_rfc3339(s@) matches Some(st)
            ==> (mode is Epoch ==> (r matches Ok(out) && out@ == dec_i64(
            civil_instant_secs(st.civil, st.offset as int),
        ))))),
        input matches Some(s) ==> (rel_no_match(s@) ==> (spec_parse_rfc3339(s@) matches Some(st)
            ==> (mode is Millis ==> (r matches Ok(out) && out@ == dec_i64(
            civil_instant_secs(st.civil, st.offset as int) * 1000 + st.nanos / 1_000_000,
        ))))),
        input matches Some(s) ==> (rel_no_match(s@) ==> (spec_parse_rfc3339(s@) matches Some(st)
            ==> (mode is Readable && renderable_at_every_offset(
            civil_instant_secs(st.civil, st.offset as int),
        ) ==> r is Ok))),
        input matches Some(s) ==> (rel_no_match(s@) ==> (spec_parse_rfc3339(s@) matches Some(st)
            ==> (mode is Readable ==> (r matches Ok(out) ==> readable_output_of(
            out@,
            civil_instant_secs(st.civil, st.offset as int),
            st.nanos as int,
        ))))),
        input matches Some(s) ==> (rel_no_match(s@) ==> (spec_parse_rfc3339(s@) is None ==> (
        spec_parse_local(s@) matches Some(c) ==> (mode is Readable ==> (r matches Ok(out)
            ==> exists|o1: int|
            -86400 < o1 < 86400 && readable_output_of(out@, civil_instant_secs(c, o1), 0)))))),
        input matches Some(s) ==> (rel_no_match(s@) ==> (spec_parse_rfc3339(s@) is None ==> (
        spec_parse_local(s@) matches Some(c) ==> (mode is Readable && (forall|o1: int|
            -86400 < o1 < 86400 ==> #[trigger] renderable_at_every_offset(
                civil_instant_secs(c, o1),
            )) ==> (r is Ok || r == Err::<String, TimeError>(TimeError::InputParse)))))),
        input matches Some(s) ==> (rel_qualifier(s@) matches Some(is_ago) ==> (duration_of(
            rel_text(s@),
        ) matches Some(d) ==> ((d.0 * 1_000_000_000 + d.1 <= 500_000_000_000_000_000_000 && !(mode
            is Readable)) ==> r is Ok))),
{
    let inst = match input_to_time(input) {
        Err(e) => return Err(e),
        Ok(i) => i,
    };
    match mode {
        OutputMode::Epoch => Ok(i64_to_string(inst.epoch_secs())),
        OutputMode::Millis => Ok(i64_to_string(inst.epoch_millis())),
        OutputMode::Readable(_) => {
            let off = local_offset_now();
            proof {
                // Bring the rendering bound for this offset into scope,
                // so the renderability hypotheses instantiate at it.
                let day_in_range_here = renderable_at(inst.secs as int, off as int);
                lemma_local_witness(input, inst, off as int);
            }
            match format_readable(&inst, off) {
                Some(out) => {
                    proof {
                        assert(readable_matches_at(
                            out@,
                            inst.secs as int,
                            inst.nanos as int,
                            off as int,
                        ));
                        lemma_local_readable_lift(input, inst, out@);
                    }
                    Ok(out)
                },
                None => Err(TimeError::FormatRange),
            }
        },
    }
}

/// For a local-pattern input that resolved, the renderability bound
/// quantified over every admissible zone-lookup offset applies to the
/// resolved instant at the formatting offset.
proof fn lemma_local_witness(input: Option<&str>, inst: Instant, off: int)
    requires
        -86400 < off < 86400,
    ensures
        input matches Some(s) ==> ((spec_parse_rfc3339(s@) is None && spec_parse_local(s@)
            is Some && (exists|o: int|
            -86400 < o < 86400 && inst.secs == civil_instant_secs(spec_parse_local(s@)->0, o))
            && (forall|o1: int|
            -86400 < o1 < 86400 ==> #[trigger] renderable_at_every_offset(
                civil_instant_secs(spec_parse_local(s@)->0, o1),
            ))) ==> renderable_at(inst.secs as int, off)),
{
    match input {
        Some(s) => {
            if spec_parse_rfc3339(s@) is None && spec_parse_local(s@) is Some {
                let cc = spec_parse_local(s@)->0;
                if exists|o: int| -86400 < o < 86400 && inst.secs == civil_instant_secs(cc, o) {
                    let o1 = choose|o: int|
                        -86400 < o < 86400 && inst.secs == civil_instant_secs(cc, o);
                    if forall|o2: int|
                        -86400 < o2 < 86400 ==> #[trigger] renderable_at_every_offset(
                            civil_instant_secs(cc, o2),
                        ) {
                        assert(renderable_at_every_offset(civil_instant_secs(cc, o1)));
                        assert(renderable_at(civil_instant_secs(cc, o1), off));
                    }
                }
            }
        },
        None => {},
    }
}

/// For a local-pattern input that resolved, carries the readable
/// output predicate from the resolved instant over to the civil time
/// at the offset the zone lookup reported.
proof fn lemma_local_readable_lift(input: Option<&str>, inst: Instant, out: Seq<char>)
    requires
        readable_output_of(out, inst.secs as int, inst.nanos as int),
    ensures
        input matches Some(s) ==> ((spec_parse_rfc3339(s@) is None && spec_parse_local(s@)
            is Some && inst.nanos == 0 && (exists|o: int|
            -86400 < o < 86400 && inst.secs == civil_instant_secs(spec_parse_local(s@)->0, o)))
            ==> exists|o1: int|
            -86400 < o1 < 86400 && readable_output_of(
                out,
                civil_instant_secs(spec_parse_local(s@)->0, o1),
                0,
            )),
{
    match input {
        Some(s) => {
            if spec_parse_rfc3339(s@) is None && spec_parse_local(s@) is Some && inst.nanos == 0 {
                let cc = spec_parse_local(s@)->0;
                if exists|o: int| -86400 < o < 86400 && inst.secs == civil_instant_secs(cc, o) {
                    let o1 = choose|o: int|
                        -86400 < o < 86400 && inst.secs == civil_instant_secs(cc, o);
                    assert(readable_output_of(out, civil_instant_secs(cc, o1), 0));
                }
            }
        },
        None => {},
    }
}

} // verus!
