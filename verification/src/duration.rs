//! Compact duration expressions for the token time-to-live: an
//! optionally signed integer followed by one unit letter (`s`, `m`,
//! `h` or `d`), parsed into whole seconds.

use vstd::prelude::*;
use crate::decimal::{all_digits, dec_val, is_digit_char, lemma_dec_val_prefix_le};

verus! {

/// Seconds per unit letter; zero marks an unknown unit.
pub open spec fn unit_seconds(c: char) -> int {
    if c == 's' {
        1
    } else if c == 'm' {
        60
    } else if c == 'h' {
        3600
    } else if c == 'd' {
        86400
    } else {
        0
    }
}

/// The digit part of a duration expression: everything up to the unit
/// letter, minus a leading sign if one is present.
pub open spec fn magnitude_digits(s: Seq<char>) -> Seq<char> {
    if s.len() >= 1 && s[0] == '-' {
        s.subrange(1, s.len() - 1)
    } else {
        s.subrange(0, s.len() - 1)
    }
}

/// Whether `s` is a well-formed duration expression: at least one
/// digit, an optional leading `-`, and a final unit letter.
pub open spec fn is_duration_str(s: Seq<char>) -> bool {
    &&& s.len() >= 2
    &&& unit_seconds(s.last()) != 0
    &&& magnitude_digits(s).len() >= 1
    &&& all_digits(magnitude_digits(s))
}

/// Whether `s` is a well-formed duration expression whose value the
/// codec can represent: the magnitude fits a signed 64-bit count of
/// seconds.
pub open spec fn ttl_ok(s: Seq<char>) -> bool {
    is_duration_str(s) && -0x7fff_ffff_ffff_ffff <= duration_seconds(s)
        <= 0x7fff_ffff_ffff_ffff
}

/// The signed number of seconds a well-formed duration expression
/// denotes.
pub open spec fn duration_seconds(s: Seq<char>) -> int {
    if s.len() >= 1 && s[0] == '-' {
        -(dec_val(magnitude_digits(s)) * unit_seconds(s.last()))
    } else {
        dec_val(magnitude_digits(s)) * unit_seconds(s.last())
    }
}

/// Parses a duration expression such as `"60m"` or `"-30s"` into
/// whole seconds. `Ok` exactly on well-formed expressions whose value
/// fits an `i64`.
pub fn parse_duration(duration_str: &str) -> (r: Result<i64, ()>)
    ensures
        r matches Ok(secs) ==> is_duration_str(duration_str@) && secs == duration_seconds(
            duration_str@,
        ) && -0x7fff_ffff_ffff_ffff <= secs,
        r is Ok <==> ttl_ok(duration_str@),
{
    let s = duration_str;
    let ghost sv = s@;
    let len: usize = s.unicode_len();
    if len < 2 {
        return Err(());
    }
    let unit_char = s.get_char(len - 1);
    let unit: u64 = if unit_char == 's' {
        1
    } else if unit_char == 'm' {
        60
    } else if unit_char == 'h' {
        3600
    } else if unit_char == 'd' {
        86400
    } else {
        return Err(());
    };
    assert(unit == unit_seconds(sv.last()));
    let negative = s.get_char(0) == '-';
    let start: usize = if negative {
        1
    } else {
        0
    };
    if len - start < 2 {
        // a bare sign with a unit letter has no digits
        return Err(());
    }
    let ghost digits = magnitude_digits(sv);
    proof {
        assert(digits =~= sv.subrange(start as int, len - 1));
        assert(digits.len() >= 1);
    }
    let mut acc: u64 = 0;
    let mut i: usize = start;
    while i < len - 1
        invariant
            sv == s@,
            sv == duration_str@,
            start <= i <= len - 1,
            len == sv.len(),
            len >= 2,
            start <= 1,
            digits == sv.subrange(start as int, len - 1),
            digits == magnitude_digits(sv),
            all_digits(digits.take(i - start)),
            acc as nat == dec_val(digits.take(i - start)),
            acc <= 0x7fff_ffff_ffff_ffff,
            unit == unit_seconds(sv.last()),
            unit >= 1,
        decreases len - i,
    {
        let c = s.get_char(i);
        let cv: u32 = c as u32;
        if cv < 48 || cv > 57 {
            proof {
                assert(digits[i - start] == sv[i as int]);
                assert(!is_digit_char(sv[i as int]));
            }
            return Err(());
        }
        let d: u64 = (cv - 48) as u64;
        proof {
            assert(digits.take(i - start + 1).drop_last() =~= digits.take(i - start));
            assert(digits.take(i - start + 1).last() == sv[i as int]);
        }
        if acc > (0x7fff_ffff_ffff_ffffu64 - d) / 10 {
            proof {
                assert(acc * 10 + d > 0x7fff_ffff_ffff_ffff) by (nonlinear_arith)
                    requires
                        acc > (0x7fff_ffff_ffff_ffffu64 - d) / 10,
                        d <= 9,
                ;
                assert(dec_val(digits.take(i - start + 1)) > 0x7fff_ffff_ffff_ffff);
                if all_digits(digits) {
                    lemma_dec_val_prefix_le(digits, i - start + 1);
                    assert(dec_val(digits) > 0x7fff_ffff_ffff_ffff);
                    lemma_magnitude_bound(sv, dec_val(digits), unit_seconds(sv.last()));
                }
            }
            return Err(());
        }
        proof {
            assert(acc * 10 + d <= 0x7fff_ffff_ffff_ffff) by (nonlinear_arith)
                requires
                    acc <= (0x7fff_ffff_ffff_ffffu64 - d) / 10,
                    d <= 9,
            ;
        }
        acc = acc * 10 + d;
        i = i + 1;
    }
    proof {
        assert(digits.take(len - 1 - start) =~= digits);
    }
    // acc * unit, checked against the i64 range
    if acc > 0x7fff_ffff_ffff_ffffu64 / unit {
        proof {
            assert(acc * unit > 0x7fff_ffff_ffff_ffff) by (nonlinear_arith)
                requires
                    acc > 0x7fff_ffff_ffff_ffffu64 / unit,
                    1 <= unit <= 86400,
            ;
            lemma_magnitude_bound(sv, dec_val(digits), unit_seconds(sv.last()));
        }
        return Err(());
    }
    proof {
        assert(acc * unit <= 0x7fff_ffff_ffff_ffff) by (nonlinear_arith)
            requires
                acc <= 0x7fff_ffff_ffff_ffffu64 / unit,
                1 <= unit <= 86400,
        ;
    }
    let magnitude: u64 = acc * unit;
    if negative {
        let secs: i64 = -(magnitude as i64);
        assert(secs == duration_seconds(sv));
        Ok(secs)
    } else {
        let secs: i64 = magnitude as i64;
        assert(secs == duration_seconds(sv));
        Ok(secs)
    }
}

/// A duration whose magnitude exceeds `i64::MAX` lies outside the
/// representable range in either sign direction.
proof fn lemma_magnitude_bound(s: Seq<char>, v: nat, u: int)
    requires
        s.len() >= 2,
        v * u > 0x7fff_ffff_ffff_ffff || (u >= 1 && v > 0x7fff_ffff_ffff_ffff),
        u >= 1,
        v == dec_val(magnitude_digits(s)),
        u == unit_seconds(s.last()),
    ensures
        !(-0x7fff_ffff_ffff_ffff <= duration_seconds(s) <= 0x7fff_ffff_ffff_ffff),
{
    assert(v * u >= v * 1) by (nonlinear_arith)
        requires
            u >= 1,
            v >= 0,
    ;
    assert(v * u > 0x7fff_ffff_ffff_ffff) by (nonlinear_arith)
        requires
            v * u >= v,
            v * u >= 0,
            v * u > 0x7fff_ffff_ffff_ffff || v > 0x7fff_ffff_ffff_ffff,
    ;
    if s.len() >= 1 && s[0] == '-' {
        assert(duration_seconds(s) == -(v * u));
    } else {
        assert(duration_seconds(s) == v * u);
    }
}

} // verus!
