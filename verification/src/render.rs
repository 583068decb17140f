//! Decimal digits and decimal renderings: the spec-level character
//! sequences the formatters promise, and the executable builders that
//! produce them.

use vstd::prelude::*;
use vstd::string::StringExecFns;

verus! {

pub open spec fn is_digit(c: char) -> bool {
    48 <= c as u32 <= 57
}

/// The numeric value of a decimal digit character.
pub open spec fn dval(c: char) -> int {
    c as u32 - 48
}

/// The decimal digit character of a value below ten.
pub open spec fn digit_char(d: int) -> char {
    if d == 0 {
        '0'
    } else if d == 1 {
        '1'
    } else if d == 2 {
        '2'
    } else if d == 3 {
        '3'
    } else if d == 4 {
        '4'
    } else if d == 5 {
        '5'
    } else if d == 6 {
        '6'
    } else if d == 7 {
        '7'
    } else if d == 8 {
        '8'
    } else {
        '9'
    }
}

pub proof fn lemma_digit_char_val(d: int)
    requires
        0 <= d < 10,
    ensures
        is_digit(digit_char(d)),
        dval(digit_char(d)) == d,
{
}

/// Two-digit zero-padded rendering.
pub open spec fn dec2(v: int) -> Seq<char> {
    seq![digit_char(v / 10), digit_char(v % 10)]
}

/// Four-digit zero-padded rendering: the upper and the lower pair.
pub open spec fn dec4(v: int) -> Seq<char> {
    dec2(v / 100) + dec2(v % 100)
}

fn digit_str(d: i64) -> (r: &'static str)
    requires
        0 <= d < 10,
    ensures
        r@ == seq![digit_char(d as int)],
{
    if d == 0 {
        proof {
            reveal_strlit("0");
        }
        "0"
    } else if d == 1 {
        proof {
            reveal_strlit("1");
        }
        "1"
    } else if d == 2 {
        proof {
            reveal_strlit("2");
        }
        "2"
    } else if d == 3 {
        proof {
            reveal_strlit("3");
        }
        "3"
    } else if d == 4 {
        proof {
            reveal_strlit("4");
        }
        "4"
    } else if d == 5 {
        proof {
            reveal_strlit("5");
        }
        "5"
    } else if d == 6 {
        proof {
            reveal_strlit("6");
        }
        "6"
    } else if d == 7 {
        proof {
            reveal_strlit("7");
        }
        "7"
    } else if d == 8 {
        proof {
            reveal_strlit("8");
        }
        "8"
    } else {
        proof {
            reveal_strlit("9");
        }
        "9"
    }
}

/// Appends one decimal digit character.
pub fn append_digit(s: &mut String, d: i64)
    requires
        0 <= d < 10,
    ensures
        final(s)@ == old(s)@ + seq![digit_char(d as int)],
{
    s.append(digit_str(d));
}

/// Appends the two-digit rendering of a value below one hundred.
pub fn append_2digit(s: &mut String, v: i64)
    requires
        0 <= v < 100,
    ensures
        final(s)@ == old(s)@ + dec2(v as int),
{
    append_digit(s, v / 10);
    append_digit(s, v % 10);
    proof {
        assert(final(s)@ =~= old(s)@ + dec2(v as int));
    }
}

/// Appends the four-digit rendering of a value below ten thousand.
pub fn append_4digit(s: &mut String, v: i64)
    requires
        0 <= v < 10000,
    ensures
        final(s)@ == old(s)@ + dec4(v as int),
{
    append_2digit(s, v / 100);
    append_2digit(s, v % 100);
    proof {
        assert(final(s)@ =~= old(s)@ + dec4(v as int));
    }
}

/// Appends one punctuation mark of the timestamp renderings.
pub fn append_mark(s: &mut String, c: char)
    requires
        c == '-' || c == ':' || c == 'T' || c == '.' || c == '+' || c == '0',
    ensures
        final(s)@ == old(s)@ + seq![c],
{
    let ghost s0 = s@;
    if c == '-' {
        proof {
            reveal_strlit("-");
        }
        s.append("-");
    } else if c == ':' {
        proof {
            reveal_strlit(":");
        }
        s.append(":");
    } else if c == 'T' {
        proof {
            reveal_strlit("T");
        }
        s.append("T");
    } else if c == '.' {
        proof {
            reveal_strlit(".");
        }
        s.append(".");
    } else if c == '+' {
        proof {
            reveal_strlit("+");
        }
        s.append("+");
    } else {
        proof {
            reveal_strlit("0");
        }
        s.append("0");
    }
    proof {
        assert(s@ =~= s0 + seq![c]);
    }
}

/// Decimal rendering of a non-negative value, most significant digit
/// first, no padding.
pub open spec fn dec_nat(n: int) -> Seq<char>
    decreases n,
{
    if n < 10 {
        seq![digit_char(n)]
    } else {
        dec_nat(n / 10).push(digit_char(n % 10))
    }
}

/// Decimal rendering of a signed value: a leading minus sign on a
/// negative value, then the magnitude's digits.
pub open spec fn dec_i64(v: int) -> Seq<char> {
    if v < 0 {
        seq!['-'] + dec_nat(-v)
    } else {
        dec_nat(v)
    }
}

/// The digit characters of a digit-value sequence, read back to front.
pub open spec fn rev_digits(ds: Seq<i64>) -> Seq<char> {
    Seq::new(ds.len(), |i: int| digit_char(ds[ds.len() - 1 - i] as int))
}

/// Renders a signed value as decimal text.
pub fn i64_to_string(v: i64) -> (r: String)
    requires
        v > i64::MIN,
    ensures
        r@ == dec_i64(v as int),
{
    let neg = v < 0;
    let ghost abs_v: int = if v < 0 {
        -(v as int)
    } else {
        v as int
    };
    let mut n: i64 = if neg {
        -v
    } else {
        v
    };
    let mut digs: Vec<i64> = Vec::new();
    digs.push(n % 10);
    n = n / 10;
    proof {
        if n > 0 {
            assert(dec_nat(abs_v) =~= dec_nat(n as int) + rev_digits(digs@));
        } else {
            assert(dec_nat(abs_v) =~= rev_digits(digs@));
        }
    }
    while n > 0
        invariant
            0 <= n,
            n == 0 ==> dec_nat(abs_v) == rev_digits(digs@),
            n > 0 ==> dec_nat(abs_v) == dec_nat(n as int) + rev_digits(digs@),
            forall|i: int| 0 <= i < digs@.len() ==> 0 <= #[trigger] digs@[i] < 10,
            digs@.len() >= 1,
        decreases n,
    {
        let ghost old_digs = digs@;
        let ghost old_n: int = n as int;
        digs.push(n % 10);
        n = n / 10;
        proof {
            if old_n >= 10 {
                assert(dec_nat(old_n) == dec_nat(old_n / 10).push(digit_char(old_n % 10)));
            } else {
                assert(old_n % 10 == old_n && old_n / 10 == 0);
                assert(dec_nat(old_n) == seq![digit_char(old_n)]);
            }
            assert(rev_digits(digs@) =~= seq![digit_char(old_n % 10)] + rev_digits(old_digs));
            if n > 0 {
                assert(dec_nat(abs_v) =~= dec_nat(n as int) + rev_digits(digs@));
            } else {
                assert(dec_nat(abs_v) =~= rev_digits(digs@));
            }
        }
    }
    let mut out = String::new();
    if neg {
        proof {
            reveal_strlit("-");
        }
        out.append("-");
    }
    let ghost start = out@;
    let len = digs.len();
    let mut i: usize = 0;
    while i < len
        invariant
            len == digs@.len(),
            0 <= i <= len,
            forall|k: int| 0 <= k < digs@.len() ==> 0 <= #[trigger] digs@[k] < 10,
            out@ == start + rev_digits(digs@).take(i as int),
        decreases len - i,
    {
        let ghost before = out@;
        append_digit(&mut out, digs[len - 1 - i]);
        i = i + 1;
        proof {
            assert(out@ =~= start + rev_digits(digs@).take(i as int));
        }
    }
    proof {
        assert(rev_digits(digs@).take(len as int) =~= rev_digits(digs@));
        if neg {
            assert(start =~= seq!['-']);
            assert(out@ =~= dec_i64(v as int));
        } else {
            assert(start =~= Seq::<char>::empty());
            assert(out@ =~= dec_i64(v as int));
        }
    }
    out
}

} // verus!
