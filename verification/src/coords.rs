//! Geographic coordinates in fixed-point micro-degrees.
//!
//! The configuration supplies latitude and longitude as decimal strings; the
//! engine holds them as integer micro-degrees (one millionth of a degree),
//! which covers far more precision than the provider accepts. Parsing and
//! rendering are exact over this fixed-point grammar: an optional sign, up to
//! nine integer digits, and an optional fraction of which the first six
//! digits are significant.

use crate::numeric::{
    chars_of, frac_trimmed_dec, is_digit_char, lemma_pow10_mono, lemma_pow10_mul, lemma_pow10_pos,
    lemma_pow10_vals, spec_digits_value, spec_frac_trimmed, spec_is_digit, spec_pow10,
    spec_u64_dec, u64_to_dec,
};
use vstd::prelude::*;
use vstd::string::*;

verus! {

/// A coordinate pair, in micro-degrees.
#[derive(Clone, Copy, Debug, PartialEq, Eq, Structural)]
pub struct Coordinates {
    pub latitude_micro: i64,
    pub longitude_micro: i64,
}

/// Largest magnitude a latitude may have: 90 degrees.
pub const MAX_LATITUDE_MICRO: i64 = 90_000_000;

/// Largest magnitude a longitude may have: 180 degrees.
pub const MAX_LONGITUDE_MICRO: i64 = 180_000_000;

/// A coordinate pair lies within the valid geographic ranges.
pub open spec fn valid_coordinates(c: Coordinates) -> bool {
    &&& -MAX_LATITUDE_MICRO <= c.latitude_micro <= MAX_LATITUDE_MICRO
    &&& -MAX_LONGITUDE_MICRO <= c.longitude_micro <= MAX_LONGITUDE_MICRO
}

/// Checks that a coordinate pair lies within the valid geographic ranges.
pub fn coordinates_valid(c: &Coordinates) -> (r: bool)
    ensures
        r == valid_coordinates(*c),
{
    -MAX_LATITUDE_MICRO <= c.latitude_micro && c.latitude_micro <= MAX_LATITUDE_MICRO
        && -MAX_LONGITUDE_MICRO <= c.longitude_micro && c.longitude_micro <= MAX_LONGITUDE_MICRO
}

/// `p` marks the boundary between the integer digits and the fraction of an
/// unsigned coordinate string `t`: either `p == t.len()` (no fraction) or
/// `t[p]` is the decimal point followed by at least one digit.
pub open spec fn coord_shape(t: Seq<char>, p: int) -> bool {
    &&& 1 <= p <= 9
    &&& p <= t.len()
    &&& (forall|j: int| 0 <= j < p ==> spec_is_digit(#[trigger] t[j]))
    &&& (p == t.len() || (t[p] == '.' && p + 1 < t.len() && (forall|j: int|
        p < j < t.len() ==> spec_is_digit(#[trigger] t[j]))))
}

/// The fraction of an unsigned coordinate string, scaled to micro-degrees:
/// the first six digits after the decimal point, zero-padded on the right.
pub open spec fn spec_frac_micro_of(t: Seq<char>, p: int) -> int {
    if p >= t.len() {
        0
    } else {
        let fend = if p + 7 <= t.len() {
            p + 7
        } else {
            t.len() as int
        };
        spec_digits_value(t.subrange(p + 1, fend)) * spec_pow10((6 - (fend - p - 1)) as nat)
    }
}

/// The micro-degree value of an unsigned coordinate string, when it fits the
/// grammar.
pub open spec fn spec_coord_micro_unsigned(t: Seq<char>) -> Option<int> {
    if exists|p: int| coord_shape(t, p) {
        let p = choose|p: int| coord_shape(t, p);
        Option::Some(spec_digits_value(t.subrange(0, p)) * 1_000_000 + spec_frac_micro_of(t, p))
    } else {
        Option::None
    }
}

/// The micro-degree value of a coordinate string with an optional sign.
pub open spec fn spec_coord_micro(s: Seq<char>) -> Option<int> {
    if s.len() > 0 && s[0] == '-' {
        match spec_coord_micro_unsigned(s.skip(1)) {
            Option::Some(v) => Option::Some(-v),
            Option::None => Option::None,
        }
    } else if s.len() > 0 && s[0] == '+' {
        spec_coord_micro_unsigned(s.skip(1))
    } else {
        spec_coord_micro_unsigned(s)
    }
}

/// What parsing a coordinate string yields: its micro-degree value when the
/// string fits the grammar and the value's magnitude is at most `max_micro`,
/// nothing otherwise.
pub open spec fn spec_parse_coordinate(s: Seq<char>, max_micro: int) -> Option<int> {
    match spec_coord_micro(s) {
        Option::Some(v) => if -max_micro <= v <= max_micro {
            Option::Some(v)
        } else {
            Option::None
        },
        Option::None => Option::None,
    }
}

/// The fraction boundary of a coordinate string is unique.
proof fn lemma_coord_shape_unique(t: Seq<char>, p1: int, p2: int)
    requires
        coord_shape(t, p1),
        coord_shape(t, p2),
    ensures
        p1 == p2,
{
    if p1 < p2 {
        assert(spec_is_digit(t[p1]));
        assert(p1 < t.len());
        assert(t[p1] == '.');
    }
    if p2 < p1 {
        assert(spec_is_digit(t[p2]));
        assert(p2 < t.len());
        assert(t[p2] == '.');
    }
}

/// No boundary fits when a non-digit other than the first decimal point
/// stands among the integer digits.
proof fn lemma_no_shape_bad_int_char(t: Seq<char>, p: int, i: int)
    requires
        0 <= i < p <= t.len(),
        !spec_is_digit(t[i]),
        forall|q: int| 0 <= q < p ==> t[q] != '.',
    ensures
        forall|q: int| !coord_shape(t, q),
{
    assert forall|q: int| !coord_shape(t, q) by {
        if coord_shape(t, q) {
            if q > i {
                assert(spec_is_digit(t[i]));
            } else {
                assert(q <= i < p <= t.len());
                assert(t[q] == '.');
            }
        }
    }
}

/// No boundary fits when the integer digits would number more than nine.
proof fn lemma_no_shape_long_int(t: Seq<char>, p: int)
    requires
        10 <= p <= t.len(),
        forall|q: int| 0 <= q < p ==> t[q] != '.',
    ensures
        forall|q: int| !coord_shape(t, q),
{
    assert forall|q: int| !coord_shape(t, q) by {
        if coord_shape(t, q) {
            assert(q <= 9 < p <= t.len());
            assert(t[q] == '.');
        }
    }
}

/// When the first decimal point stands at `p`, the only boundary that can
/// fit the grammar is `p` itself.
proof fn lemma_shape_at_first_dot(t: Seq<char>, p: int, q: int)
    requires
        coord_shape(t, q),
        0 <= p < t.len(),
        t[p] == '.',
        forall|j: int| 0 <= j < p ==> t[j] != '.',
    ensures
        q == p,
{
    if q < p {
        assert(q < t.len());
        assert(t[q] == '.');
    }
    if q > p {
        assert(spec_is_digit(t[p]));
    }
}

/// A fraction of `w` significant digits scaled to six digits stays below one
/// million.
proof fn lemma_scaled_frac_bound(f: nat, w: nat)
    requires
        w <= 6,
        f < spec_pow10(w),
    ensures
        f * spec_pow10((6 - w) as nat) < 1_000_000,
        f * spec_pow10((6 - w) as nat) >= 0,
{
    lemma_pow10_vals();
    lemma_pow10_mul(w, (6 - w) as nat);
    lemma_pow10_pos((6 - w) as nat);
    assert(f * spec_pow10((6 - w) as nat) <= (spec_pow10(w) - 1) * spec_pow10((6 - w) as nat))
        by (nonlinear_arith)
        requires
            f < spec_pow10(w),
            spec_pow10((6 - w) as nat) >= 1,
    ;
    assert((spec_pow10(w) - 1) * spec_pow10((6 - w) as nat) == spec_pow10(w) * spec_pow10(
        (6 - w) as nat,
    ) - spec_pow10((6 - w) as nat)) by (nonlinear_arith);
}

/// Ten to the `k`.
fn pow10_u64(k: u64) -> (r: u64)
    requires
        k <= 6,
    ensures
        r == spec_pow10(k as nat),
{
    proof {
        lemma_pow10_vals();
    }
    if k == 0 {
        1
    } else if k == 1 {
        10
    } else if k == 2 {
        100
    } else if k == 3 {
        1000
    } else if k == 4 {
        10000
    } else if k == 5 {
        100000
    } else {
        1000000
    }
}

/// Parses the unsigned part of a coordinate string (everything after an
/// optional sign) into micro-degrees.
#[verifier::rlimit(50)]
fn parse_unsigned_micro(v: &Vec<char>, base: usize) -> (r: Option<u64>)
    requires
        base <= v@.len(),
    ensures
        ({
            let t = v@.skip(base as int);
            match r {
                Option::Some(u) => spec_coord_micro_unsigned(t) == Option::Some(u as int) && u
                    < 2_000_000_000_000_000,
                Option::None => spec_coord_micro_unsigned(t) is None,
            }
        }),
{
    let ghost t = v@.skip(base as int);
    proof {
        assert(forall|j: int| 0 <= j < t.len() ==> t[j] == v@[base + j]);
    }
    let n = v.len();
    let m = n - base;
    if m == 0 {
        proof {
            assert(forall|q: int| !coord_shape(t, q));
        }
        return None;
    }
    // Find the first decimal point, if any.
    let mut seen_dot: bool = false;
    let mut dot: usize = 0;
    let mut j: usize = 0;
    while j < m
        invariant
            m == t.len(),
            base + m == v@.len(),
            base + m <= usize::MAX,
            t == v@.skip(base as int),
            0 <= j <= m,
            seen_dot ==> 0 <= dot < j && t[dot as int] == '.' && (forall|q: int|
                0 <= q < dot ==> t[q] != '.'),
            !seen_dot ==> (forall|q: int| 0 <= q < j ==> t[q] != '.'),
        decreases m - j,
    {
        if !seen_dot {
            if v[base + j] == '.' {
                seen_dot = true;
                dot = j;
            }
        }
        j += 1;
    }
    let p = if seen_dot {
        dot
    } else {
        m
    };
    proof {
        assert(forall|q: int| 0 <= q < p ==> t[q] != '.');
        assert(p < m ==> t[p as int] == '.');
    }
    if p == 0 {
        proof {
            assert forall|q: int| !coord_shape(t, q) by {
                if coord_shape(t, q) {
                    assert(spec_is_digit(t[0]));
                }
            }
        }
        return None;
    }
    if p > 9 {
        proof {
            lemma_no_shape_long_int(t, p as int);
        }
        return None;
    }
    // Integer part: all digits, accumulated left to right.
    let mut ip: u64 = 0;
    let mut i: usize = 0;
    while i < p
        invariant
            m == t.len(),
            base + m == v@.len(),
            base + m <= usize::MAX,
            t == v@.skip(base as int),
            1 <= p <= 9,
            p <= m,
            0 <= i <= p,
            forall|q: int| 0 <= q < i ==> spec_is_digit(#[trigger] t[q]),
            ip == spec_digits_value(t.subrange(0, i as int)),
            ip < spec_pow10(i as nat),
            forall|q: int| 0 <= q < p ==> t[q] != '.',
            p < m ==> t[p as int] == '.',
        decreases p - i,
    {
        let c = v[base + i];
        if !is_digit_char(c) {
            proof {
                lemma_no_shape_bad_int_char(t, p as int, i as int);
            }
            return None;
        }
        proof {
            lemma_pow10_vals();
            lemma_pow10_mono(i as nat, 8);
            assert(t.subrange(0, i + 1).drop_last() =~= t.subrange(0, i as int));
            assert(t.subrange(0, i + 1).last() == t[i as int]);
            assert(spec_pow10((i + 1) as nat) == 10 * spec_pow10(i as nat));
        }
        ip = ip * 10 + (c as u32 as u64 - 48);
        i += 1;
    }
    proof {
        lemma_pow10_vals();
        lemma_pow10_mono(p as nat, 9);
        assert(ip < 1_000_000_000);
    }
    // Fraction: when a decimal point is present, at least one digit must
    // follow, and every following character must be a digit.
    let mut frac: u64 = 0;
    if p < m {
        if p + 1 >= m {
            proof {
                assert forall|q: int| !coord_shape(t, q) by {
                    if coord_shape(t, q) {
                        lemma_shape_at_first_dot(t, p as int, q);
                    }
                }
            }
            return None;
        }
        let mut k: usize = p + 1;
        while k < m
            invariant
                m == t.len(),
                base + m == v@.len(),
                base + m <= usize::MAX,
                t == v@.skip(base as int),
                1 <= p <= 9,
                p + 1 < m,
                t[p as int] == '.',
                forall|q: int| 0 <= q < p ==> spec_is_digit(#[trigger] t[q]),
                forall|q: int| 0 <= q < p ==> t[q] != '.',
                p + 1 <= k <= m,
                forall|q: int| p < q < k ==> spec_is_digit(#[trigger] t[q]),
            decreases m - k,
        {
            let ck = v[base + k];
            if !is_digit_char(ck) {
                proof {
                    assert(t[k as int] == v@[base + k]);
                    assert(!spec_is_digit(t[k as int]));
                    assert forall|q: int| !coord_shape(t, q) by {
                        if coord_shape(t, q) {
                            lemma_shape_at_first_dot(t, p as int, q);
                            assert(spec_is_digit(t[k as int]));
                        }
                    }
                }
                return None;
            }
            k += 1;
        }
        // The first six fraction digits, scaled to micro-degrees.
        let fend = if p + 7 <= m {
            p + 7
        } else {
            m
        };
        let mut fi: usize = p + 1;
        while fi < fend
            invariant
                m == t.len(),
                base + m == v@.len(),
                base + m <= usize::MAX,
                t == v@.skip(base as int),
                1 <= p <= 9,
                p + 1 < m,
                fend == if p + 7 <= m {
                    (p + 7) as int
                } else {
                    m as int
                },
                p + 1 <= fi <= fend,
                fend <= m,
                forall|q: int| p < q < m ==> spec_is_digit(#[trigger] t[q]),
                frac == spec_digits_value(t.subrange(p + 1, fi as int)),
                frac < spec_pow10((fi - p - 1) as nat),
            decreases fend - fi,
        {
            let c = v[base + fi];
            proof {
                lemma_pow10_vals();
                lemma_pow10_mono((fi - p - 1) as nat, 5);
                assert(spec_is_digit(t[fi as int]));
                assert(t.subrange(p + 1, fi + 1).drop_last() =~= t.subrange(p + 1, fi as int));
                assert(t.subrange(p + 1, fi + 1).last() == t[fi as int]);
                assert(spec_pow10((fi + 1 - p - 1) as nat) == 10 * spec_pow10(
                    (fi - p - 1) as nat,
                ));
            }
            frac = frac * 10 + (c as u32 as u64 - 48);
            fi += 1;
        }
        let width = fend - p - 1;
        proof {
            lemma_pow10_vals();
            lemma_scaled_frac_bound(frac as nat, width as nat);
            lemma_pow10_mono((6 - width) as nat, 6);
        }
        let scale = pow10_u64(6 - width as u64);
        frac = frac * scale;
        proof {
            assert(frac < 1_000_000);
        }
    }
    // The string fits the grammar at boundary `p`; its value follows.
    proof {
        assert(coord_shape(t, p as int));
        let chosen = choose|q: int| coord_shape(t, q);
        lemma_coord_shape_unique(t, chosen, p as int);
        if p < m {
            assert(t.subrange(p + 1, if p + 7 <= m {
                (p + 7) as int
            } else {
                m as int
            }) == t.subrange(p + 1, t.len() as int).subrange(
                0,
                (if p + 7 <= m {
                    (p + 7) as int
                } else {
                    m as int
                }) - (p + 1),
            )) by {
                assert(t.subrange(p + 1, if p + 7 <= m {
                    (p + 7) as int
                } else {
                    m as int
                }) =~= t.subrange(p + 1, t.len() as int).subrange(
                    0,
                    (if p + 7 <= m {
                        (p + 7) as int
                    } else {
                        m as int
                    }) - (p + 1),
                ));
            }
        }
        assert(spec_frac_micro_of(t, p as int) == frac as int);
        assert(spec_coord_micro_unsigned(t) == Option::Some(ip * 1_000_000 + frac as int));
    }
    let value_u = ip * 1_000_000 + frac;
    Some(value_u)
}

/// Parses a decimal coordinate string into micro-degrees, accepting only
/// values whose magnitude is at most `max_micro`. A string outside the
/// grammar or outside the range yields nothing: the fetch is then simply not
/// attempted.
pub fn parse_coordinate(s: &str, max_micro: i64) -> (r: Option<i64>)
    requires
        0 <= max_micro <= 1_000_000_000,
    ensures
        r is Some <==> spec_parse_coordinate(s@, max_micro as int) is Some,
        r matches Option::Some(x) ==> spec_parse_coordinate(s@, max_micro as int)
            == Option::Some(x as int),
{
    let v = chars_of(s);
    let n = v.len();
    let mut base: usize = 0;
    let mut neg: bool = false;
    let mut plus: bool = false;
    if n > 0 {
        let c0 = v[0];
        if c0 == '-' {
            neg = true;
            base = 1;
        } else if c0 == '+' {
            plus = true;
            base = 1;
        }
    }
    let ghost t = s@.skip(base as int);
    proof {
        if !neg && !plus {
            assert(t =~= s@);
        }
        assert(neg ==> s@.len() > 0 && s@[0] == '-' && t == s@.skip(1));
        assert(plus ==> s@.len() > 0 && s@[0] == '+' && t == s@.skip(1));
        assert(!neg ==> !(s@.len() > 0 && s@[0] == '-'));
        assert(!plus ==> !(s@.len() > 0 && s@[0] == '+'));
    }
    match parse_unsigned_micro(&v, base) {
        None => {
            proof {
                assert(spec_coord_micro(s@) is None);
            }
            None
        },
        Some(u) => {
            let value: i64 = if neg {
                -(u as i64)
            } else {
                u as i64
            };
            proof {
                if neg {
                    assert(spec_coord_micro(s@) == Option::<int>::Some(-(u as int)));
                } else {
                    assert(spec_coord_micro(s@) == Option::<int>::Some(u as int));
                }
            }
            if -max_micro <= value && value <= max_micro {
                Some(value)
            } else {
                None
            }
        },
    }
}

/// The display form of a micro-degree value: the integer degrees, then the
/// fraction with trailing zeros removed, no fraction at all for a whole
/// number of degrees.
pub open spec fn spec_coord_text(v: int) -> Seq<char> {
    if v < 0 {
        seq!['-'] + spec_coord_abs_text(-v)
    } else {
        spec_coord_abs_text(v)
    }
}

pub open spec fn spec_coord_abs_text(m: int) -> Seq<char> {
    if m % 1_000_000 == 0 {
        spec_u64_dec((m / 1_000_000) as nat)
    } else {
        spec_u64_dec((m / 1_000_000) as nat) + seq!['.'] + spec_frac_trimmed(
            (m % 1_000_000) as nat,
            6,
        )
    }
}

/// Renders a micro-degree value as decimal degrees.
pub fn coordinate_text(v: i64) -> (s: String)
    requires
        v > i64::MIN,
    ensures
        s@ == spec_coord_text(v as int),
{
    if v < 0 {
        let mut s = String::from_str("-");
        let rest = coordinate_abs_text((-v) as u64);
        s.append(rest.as_str());
        proof {
            reveal_strlit("-");
            assert("-"@ =~= seq!['-']);
        }
        s
    } else {
        coordinate_abs_text(v as u64)
    }
}

fn coordinate_abs_text(m: u64) -> (s: String)
    ensures
        s@ == spec_coord_abs_text(m as int),
{
    let whole = m / 1_000_000;
    let frac = m % 1_000_000;
    if frac == 0 {
        u64_to_dec(whole)
    } else {
        let mut s = u64_to_dec(whole);
        s.append(".");
        let tail = frac_trimmed_dec(frac, 6);
        s.append(tail.as_str());
        proof {
            reveal_strlit(".");
            assert("."@ =~= seq!['.']);
        }
        s
    }
}

} // verus!
