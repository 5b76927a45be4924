//! Signed sexagesimal degrees-minutes-seconds triples.
//!
//! The degrees field carries the sign of the whole value; minutes and seconds
//! are magnitudes. The value of a triple is exactly captured in arcseconds,
//! an integer, so conversion in both directions is proved exact here; the
//! decimal-degrees form (arcseconds divided by 3600) is real-valued and is
//! left to the caller.

use vstd::arithmetic::div_mod::lemma_div_is_ordered;
use vstd::arithmetic::div_mod::lemma_div_pos_is_pos;
use vstd::arithmetic::div_mod::lemma_fundamental_div_mod;
use vstd::arithmetic::div_mod::lemma_fundamental_div_mod_converse;
use vstd::arithmetic::div_mod::lemma_mod_multiples_vanish;
use vstd::prelude::*;

use crate::digits::signed_decimal_string;
use crate::digits::spec_signed_decimal;

verus! {

/// A signed sexagesimal triple: `d` degrees (sign carries the hemisphere),
/// `m` arcminutes and `s` arcseconds, both conventionally non-negative.
/// A value in `(-1, 0)` degrees is not representable: `d == 0` reads as
/// non-negative.
#[derive(Clone, Copy, Debug, PartialEq, Eq, Structural)]
pub struct DMS {
    pub d: i32,
    pub m: i32,
    pub s: i32,
}

/// The largest arcsecond count whose degrees fit the `d` field.
pub const MAX_ARCSECONDS: i64 = 2147483647 * 3600 + 3599;

/// The value of a triple in arcseconds: the sign of `d` applied to
/// `|d|·3600 + m·60 + s`. Negative `m` or `s` are not treated specially.
pub open spec fn spec_total_arcseconds(d: int, m: int, s: int) -> int {
    if d < 0 {
        -((-d) * 3600 + m * 60 + s)
    } else {
        d * 3600 + m * 60 + s
    }
}

/// The triple read back from a signed arcsecond count: the magnitude split
/// as whole degrees, then minutes, then seconds, with the sign put back on
/// the degrees field.
pub open spec fn spec_from_arcseconds(t: int) -> (int, int, int) {
    let mag = if t < 0 {
        -t
    } else {
        t
    };
    let d = mag / 3600;
    let m = (mag % 3600) / 60;
    let s = mag % 60;
    if t < 0 {
        (-d, m, s)
    } else {
        (d, m, s)
    }
}

/// The display form `{d}° {m}' {s}"`.
pub open spec fn spec_dms_display(d: int, m: int, s: int) -> Seq<char> {
    spec_signed_decimal(d) + "\u{b0} "@ + spec_signed_decimal(m) + "' "@ + spec_signed_decimal(s)
        + "\""@
}

impl DMS {
    /// The exact value of the triple, in arcseconds.
    pub fn total_arcseconds(&self) -> (r: i64)
        ensures
            r == spec_total_arcseconds(self.d as int, self.m as int, self.s as int),
    {
        let d = self.d as i64;
        let m = self.m as i64;
        let s = self.s as i64;
        if d < 0 {
            -((-d) * 3600 + m * 60 + s)
        } else {
            d * 3600 + m * 60 + s
        }
    }

    /// Rebuilds a triple from a signed arcsecond count, with minutes and
    /// seconds in `[0, 60)`. A negative count smaller than one degree in
    /// magnitude comes back non-negative: the sign has nowhere to live.
    pub fn from_total_arcseconds(t: i64) -> (r: DMS)
        requires
            -MAX_ARCSECONDS <= t <= MAX_ARCSECONDS,
        ensures
            (r.d as int, r.m as int, r.s as int) == spec_from_arcseconds(t as int),
            0 <= r.m < 60,
            0 <= r.s < 60,
    {
        let neg = t < 0;
        let mag: u64 = if neg {
            (-t) as u64
        } else {
            t as u64
        };
        proof {
            lemma_div_is_ordered(mag as int, MAX_ARCSECONDS as int, 3600);
            lemma_fundamental_div_mod_converse(MAX_ARCSECONDS as int, 3600, 2147483647, 3599);
        }
        let du: u64 = mag / 3600;
        let mu: u64 = (mag % 3600) / 60;
        let su: u64 = mag % 60;
        let d: i32 = if neg {
            -(du as i32)
        } else {
            du as i32
        };
        DMS { d, m: mu as i32, s: su as i32 }
    }

    /// The canonical display form `{d}° {m}' {s}"`, rendered exactly as the
    /// fields print in decimal.
    pub fn display(&self) -> (r: String)
        ensures
            r@ == spec_dms_display(self.d as int, self.m as int, self.s as int),
    {
        let mut out = signed_decimal_string(self.d);
        out.append("\u{b0} ");
        let m = signed_decimal_string(self.m);
        out.append(m.as_str());
        out.append("' ");
        let s = signed_decimal_string(self.s);
        out.append(s.as_str());
        out.append("\"");
        proof {
            assert(out@ =~= spec_dms_display(self.d as int, self.m as int, self.s as int));
        }
        out
    }
}

/// Converting a well-formed triple to arcseconds and back recovers it
/// exactly, for any signed degrees and minutes and seconds in `[0, 60)`.
pub proof fn lemma_dms_round_trip(d: int, m: int, s: int)
    requires
        0 <= m < 60,
        0 <= s < 60,
    ensures
        spec_from_arcseconds(spec_total_arcseconds(d, m, s)) == (d, m, s),
{
    let low = m * 60 + s;
    assert(0 <= low < 3600);
    let mag = if d < 0 {
        (-d) * 3600 + low
    } else {
        d * 3600 + low
    };
    let dd = if d < 0 {
        -d
    } else {
        d
    };
    assert(mag == dd * 3600 + low);
    lemma_fundamental_div_mod_converse(mag, 3600, dd, low);
    lemma_fundamental_div_mod_converse(low, 60, m, s);
    assert(mag == (dd * 60 + m) * 60 + s) by (nonlinear_arith)
        requires
            mag == dd * 3600 + m * 60 + s,
    ;
    lemma_fundamental_div_mod_converse(mag, 60, dd * 60 + m, s);
}

/// Reading an arcsecond count as a triple always yields minutes and seconds
/// in `[0, 60)`, and writing the triple back recovers the count — except for
/// a negative count smaller than one degree in magnitude, whose sign has
/// nowhere to live in the triple: there the magnitude comes back instead.
pub proof fn lemma_arcseconds_round_trip(t: int)
    ensures
        0 <= spec_from_arcseconds(t).1 < 60,
        0 <= spec_from_arcseconds(t).2 < 60,
        t >= 0 || t <= -3600 ==> spec_total_arcseconds(
            spec_from_arcseconds(t).0,
            spec_from_arcseconds(t).1,
            spec_from_arcseconds(t).2,
        ) == t,
        -3600 < t < 0 ==> spec_total_arcseconds(
            spec_from_arcseconds(t).0,
            spec_from_arcseconds(t).1,
            spec_from_arcseconds(t).2,
        ) == -t,
{
    let mag = if t < 0 {
        -t
    } else {
        t
    };
    let d = mag / 3600;
    let r = mag % 3600;
    let m = r / 60;
    let s = mag % 60;
    lemma_fundamental_div_mod(mag, 3600);
    lemma_fundamental_div_mod(r, 60);
    lemma_div_pos_is_pos(mag, 3600);
    lemma_div_pos_is_pos(r, 60);
    lemma_div_is_ordered(r, 3599, 60);
    lemma_fundamental_div_mod_converse(3599, 60, 59, 59);
    lemma_mod_multiples_vanish(60 * d, r, 60);
    assert(60 * (60 * d) == 3600 * d) by (nonlinear_arith);
    assert(mag == 60 * (60 * d) + r);
    assert(s == r % 60);
    assert(d > 0 ==> mag >= 3600) by (nonlinear_arith)
        requires
            d == mag / 3600 && mag >= 0,
    ;
}

} // verus!
