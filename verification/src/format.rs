//! Readable rendering: an instant at a given offset becomes an
//! RFC 3339 string, truncated to 100-millisecond resolution.  The
//! rendering provably reparses under this library's RFC 3339 grammar.

use crate::civil::{
    aday_of, aday_to_date, civil_wf, days_before_year, days_before_year_exec,
    lemma_days_before_year_bounds, sod_of, sod_to_hms, Civil,
};
use crate::instant::Instant;
use crate::render::{
    append_2digit, append_4digit, append_digit, append_mark, digit_char, dval, is_digit,
    lemma_digit_char_val,
};
use crate::rfc3339::{
    civil19_fields, civil19_shape, digit_run_len, digits_val, spec_parse_offset,
    spec_parse_rfc3339, val2, val4, Stamp,
};
use vstd::prelude::*;

verus! {

pub open spec fn off_abs(off: int) -> int {
    if off < 0 {
        -off
    } else {
        off
    }
}

pub open spec fn off_sign(off: int) -> char {
    if off < 0 {
        '-'
    } else {
        '+'
    }
}

/// Whole hours of the rendered offset.
pub open spec fn off_hh(off: int) -> int {
    off_abs(off) / 3600
}

/// Whole minutes of the rendered offset below the hour.
pub open spec fn off_mm(off: int) -> int {
    (off_abs(off) % 3600) / 60
}

/// The offset the rendering carries: the offset truncated to whole
/// minutes, with its sign.
pub open spec fn rendered_offset(off: int) -> int {
    if off < 0 {
        -(off_hh(off) * 3600 + off_mm(off) * 60)
    } else {
        off_hh(off) * 3600 + off_mm(off) * 60
    }
}

/// The 19 leading characters of the rendering:
/// `YYYY-MM-DDTHH:MM:SS`.
pub open spec fn core_of(c: Civil) -> Seq<char> {
    let y = c.year as int;
    let mo = c.month as int;
    let d = c.day as int;
    let h = c.hour as int;
    let mi = c.minute as int;
    let sec = c.second as int;
    seq![
        digit_char((y / 100) / 10),
        digit_char((y / 100) % 10),
        digit_char((y % 100) / 10),
        digit_char((y % 100) % 10),
        '-',
        digit_char(mo / 10),
        digit_char(mo % 10),
        '-',
        digit_char(d / 10),
        digit_char(d % 10),
        'T',
        digit_char(h / 10),
        digit_char(h % 10),
        ':',
        digit_char(mi / 10),
        digit_char(mi % 10),
        ':',
        digit_char(sec / 10),
        digit_char(sec % 10),
    ]
}

/// The fraction part: three digits of the truncated subsecond,
/// omitted when zero.
pub open spec fn frac_of(tenths: int) -> Seq<char> {
    if tenths == 0 {
        Seq::<char>::empty()
    } else {
        seq!['.', digit_char(tenths), '0', '0']
    }
}

/// The offset tail: a sign and `HH:MM`.
pub open spec fn offp_of(off: int) -> Seq<char> {
    seq![
        off_sign(off),
        digit_char(off_hh(off) / 10),
        digit_char(off_hh(off) % 10),
        ':',
        digit_char(off_mm(off) / 10),
        digit_char(off_mm(off) % 10),
    ]
}

/// The readable rendering of a civil date-time, a tenths-of-a-second
/// digit, and an offset: `YYYY-MM-DDTHH:MM:SS[.t00](+|-)HH:MM`, with
/// the fraction omitted when zero.
pub open spec fn readable_seq(c: Civil, tenths: int, off: int) -> Seq<char> {
    core_of(c) + frac_of(tenths) + offp_of(off)
}

/// The seconds of the instant shifted to the rendering offset.
pub open spec fn local_secs(i: Instant, off: int) -> int {
    i.secs + off
}

/// The second of the local day (non-negative: spec division is
/// Euclidean).
pub open spec fn local_sod(i: Instant, off: int) -> int {
    local_secs(i, off) % 86400
}

/// The absolute day the shifted instant falls on.
pub open spec fn local_aday(i: Instant, off: int) -> int {
    local_secs(i, off) / 86400 + days_before_year(1970)
}

/// Floor division of a seconds count by the day length.
fn floor_div_86400(ls: i64) -> (r: (i64, i64))
    requires
        -10_000_000_000_000 <= ls <= 10_000_000_000_000,
    ensures
        r.0 == ls as int / 86400,
        r.1 == ls as int % 86400,
        r.0 * 86400 + r.1 == ls,
        0 <= r.1 < 86400,
{
    if ls >= 0 {
        (ls / 86400, ls % 86400)
    } else {
        let n = -ls;
        let q = n / 86400;
        let rm = n % 86400;
        if rm == 0 {
            (-q, 0)
        } else {
            (-q - 1, 86400 - rm)
        }
    }
}

/// The readable rendering reparses under the RFC 3339 grammar, to the
/// same civil fields, the truncated subsecond, and the minute-truncated
/// offset.
pub proof fn lemma_readable_reparses(c: Civil, tenths: int, off: int)
    requires
        civil_wf(c),
        0 <= tenths < 10,
        -86400 < off < 86400,
    ensures
        spec_parse_rfc3339(readable_seq(c, tenths, off)) == Some(
            Stamp {
                civil: c,
                nanos: (tenths * 100_000_000) as i64,
                offset: rendered_offset(off) as i64,
            },
        ),
{
    let rs = readable_seq(c, tenths, off);
    let y = c.year as int;
    let mo = c.month as int;
    let d = c.day as int;
    let h = c.hour as int;
    let mi = c.minute as int;
    let sec = c.second as int;
    assert forall|dd: int| 0 <= dd < 10 implies is_digit(#[trigger] digit_char(dd)) by {
        lemma_digit_char_val(dd);
    }
    assert forall|dd: int| 0 <= dd < 10 implies dval(#[trigger] digit_char(dd)) == dd by {
        lemma_digit_char_val(dd);
    }
    assert(0 <= y / 100 <= 99);
    assert(0 <= y % 100 <= 99);
    let oh = off_hh(off);
    let om = off_mm(off);
    assert(0 <= oh <= 23);
    assert(0 <= om <= 59);
    let flen: int = if tenths == 0 {
        0
    } else {
        4
    };
    assert(rs.len() == 25 + flen);
    // The leading 19 characters carry the civil fields.
    assert(civil19_shape(rs, true));
    assert(val2(rs, 0) == y / 100);
    assert(val2(rs, 2) == y % 100);
    assert(val4(rs, 0) == y);
    assert(val2(rs, 5) == mo);
    assert(val2(rs, 8) == d);
    assert(val2(rs, 11) == h);
    assert(val2(rs, 14) == mi);
    assert(val2(rs, 17) == sec);
    assert(civil19_fields(rs) == c);
    // The offset tail at its position parses to the rendered offset.
    let ob: int = 19 + flen;
    assert(rs[ob] == off_sign(off));
    assert(rs[ob + 1] == digit_char(oh / 10));
    assert(rs[ob + 2] == digit_char(oh % 10));
    assert(rs[ob + 3] == ':');
    assert(rs[ob + 4] == digit_char(om / 10));
    assert(rs[ob + 5] == digit_char(om % 10));
    assert(val2(rs, ob + 1) == oh);
    assert(val2(rs, ob + 4) == om);
    assert(spec_parse_offset(rs, ob) == Some(rendered_offset(off)));
    if tenths == 0 {
        assert(rs[19] == off_sign(off));
        assert(rs[19] != '.');
        assert(spec_parse_rfc3339(rs) == Some(
            Stamp { civil: c, nanos: 0, offset: rendered_offset(off) as i64 },
        ));
    } else {
        assert(rs[19] == '.');
        assert(rs[20] == digit_char(tenths));
        assert(rs[21] == '0');
        assert(rs[22] == '0');
        assert(is_digit(rs[20]) && is_digit(rs[21]) && is_digit(rs[22]));
        assert(!is_digit(rs[23]));
        assert(digit_run_len(rs, 23) == 0);
        assert(digit_run_len(rs, 22) == 1);
        assert(digit_run_len(rs, 21) == 2);
        assert(digit_run_len(rs, 20) == 3);
        assert(digits_val(rs, 20, 0) == 0);
        assert(digits_val(rs, 20, 1) == tenths);
        assert(digits_val(rs, 20, 2) == tenths * 10);
        assert(digits_val(rs, 20, 3) == tenths * 100);
        assert(spec_parse_rfc3339(rs) == Some(
            Stamp {
                civil: c,
                nanos: (tenths * 100_000_000) as i64,
                offset: rendered_offset(off) as i64,
            },
        ));
    }
}

/// Renders the instant, truncated to 100-millisecond resolution, as an
/// RFC 3339 string at the given offset.  `None` exactly when the
/// shifted instant falls outside the four-digit-year range.  A
/// returned string reparses under the RFC 3339 grammar, to the civil
/// fields of the shifted instant, its truncated subsecond, and the
/// minute-truncated offset.
#[verifier::rlimit(80)]
pub fn format_readable(inst: &Instant, off: i64) -> (r: Option<String>)
    requires
        inst.wf(),
        -86400 < off < 86400,
    ensures
        r is Some <==> 0 <= local_aday(*inst, off as int) < days_before_year(10000),
        r matches Some(out) ==> ({
            &&& spec_parse_rfc3339(out@) matches Some(st)
            &&& aday_of(st.civil) == local_aday(*inst, off as int)
            &&& sod_of(st.civil) == local_sod(*inst, off as int)
            &&& st.nanos == (inst.nanos / 100_000_000) * 100_000_000
            &&& st.offset == rendered_offset(off as int)
        }),
{
    let ls = inst.secs + off;
    let dq = floor_div_86400(ls);
    let ed = dq.0;
    let sod = dq.1;
    proof {
        lemma_days_before_year_bounds(1970);
    }
    let base = days_before_year_exec(1970);
    let aday = ed + base;
    if aday < 0 {
        return None;
    }
    let (y, mo, d) = match aday_to_date(aday) {
        None => return None,
        Some(t) => t,
    };
    let hms = sod_to_hms(sod);
    let h = hms.0;
    let mi = hms.1;
    let sec = hms.2;
    let ghost c = Civil { year: y, month: mo, day: d, hour: h, minute: mi, second: sec };
    assert(civil_wf(c));
    assert(aday_of(c) == local_aday(*inst, off as int));
    assert(sod_of(c) == local_sod(*inst, off as int));
    let tenths: i64 = (inst.nanos / 100_000_000) as i64;
    let mut out = String::new();
    append_4digit(&mut out, y);
    append_mark(&mut out, '-');
    append_2digit(&mut out, mo);
    append_mark(&mut out, '-');
    append_2digit(&mut out, d);
    append_mark(&mut out, 'T');
    append_2digit(&mut out, h);
    append_mark(&mut out, ':');
    append_2digit(&mut out, mi);
    append_mark(&mut out, ':');
    append_2digit(&mut out, sec);
    proof {
        assert(out@ =~= core_of(c));
    }
    if tenths != 0 {
        append_mark(&mut out, '.');
        append_digit(&mut out, tenths);
        append_mark(&mut out, '0');
        append_mark(&mut out, '0');
    }
    proof {
        assert(out@ =~= core_of(c) + frac_of(tenths as int));
    }
    let oabs = if off < 0 {
        -off
    } else {
        off
    };
    let oh = oabs / 3600;
    let om = (oabs % 3600) / 60;
    if off < 0 {
        append_mark(&mut out, '-');
    } else {
        append_mark(&mut out, '+');
    }
    append_2digit(&mut out, oh);
    append_mark(&mut out, ':');
    append_2digit(&mut out, om);
    proof {
        assert(out@ =~= core_of(c) + frac_of(tenths as int) + offp_of(off as int));
        lemma_readable_reparses(c, tenths as int, off as int);
    }
    Some(out)
}

} // verus!
