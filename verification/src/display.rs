//! Presentation encoding of a snapshot's temperature.
//!
//! The panel shows the temperature as whole degrees Celsius, truncated toward
//! zero, followed by the degree sign and the unit letter. Decoding that text
//! recovers exactly the truncated degrees: the round trip is proved below.

use crate::numeric::{
    all_digits, chars_of, i64_to_dec, is_digit_char, lemma_pow10_mono, lemma_pow10_vals,
    lemma_u64_dec_all_digits, lemma_u64_dec_len, lemma_u64_dec_value, spec_digits_value,
    spec_i64_dec, spec_is_digit, spec_pow10, spec_u64_dec, u64_to_dec,
};
use vstd::prelude::*;
use vstd::string::*;

verus! {

/// Whole degrees of a milli-degree temperature, truncated toward zero, as
/// the display rounds.
pub open spec fn spec_trunc_degrees(milli: int) -> int {
    if milli >= 0 {
        milli / 1000
    } else {
        -((-milli) / 1000)
    }
}

/// Whole degrees of a milli-degree temperature, truncated toward zero.
pub fn trunc_degrees(milli: i64) -> (r: i64)
    ensures
        r as int == spec_trunc_degrees(milli as int),
{
    if milli >= 0 {
        ((milli as u64) / 1000) as i64
    } else {
        // Negate through the magnitude so the smallest value needs no care.
        let mag: u64 = ((-(milli + 1)) as u64) + 1;
        proof {
            assert(mag == -(milli as int));
        }
        let q = mag / 1000;
        -(q as i64)
    }
}

/// The display text of a temperature: truncated whole degrees, the degree
/// sign, and the Celsius letter.
pub open spec fn spec_temperature_text(milli: int) -> Seq<char> {
    spec_i64_dec(spec_trunc_degrees(milli)) + "\u{b0}C"@
}

/// Renders a temperature for display.
pub fn temperature_text(milli: i64) -> (s: String)
    ensures
        s@ == spec_temperature_text(milli as int),
{
    let d = trunc_degrees(milli);
    proof {
        // Truncation divides the magnitude by a thousand, so the rendering's
        // one excluded value is out of reach.
        assert(d as int > i64::MIN);
    }
    let mut s = i64_to_dec(d);
    s.append("\u{b0}C");
    s
}

/// The popup's feels-like line.
pub open spec fn spec_feels_like_text(milli: int) -> Seq<char> {
    "Feels like "@ + spec_temperature_text(milli)
}

/// Renders the popup's feels-like line.
pub fn feels_like_text(milli: i64) -> (s: String)
    ensures
        s@ == spec_feels_like_text(milli as int),
{
    let mut s = String::from_str("Feels like ");
    let t = temperature_text(milli);
    s.append(t.as_str());
    s
}

/// The popup's humidity line.
pub open spec fn spec_humidity_text(h: u8) -> Seq<char> {
    "Humidity: "@ + spec_u64_dec(h as nat) + "%"@
}

/// Renders the popup's humidity line.
pub fn humidity_text(h: u8) -> (s: String)
    ensures
        s@ == spec_humidity_text(h),
{
    let mut s = String::from_str("Humidity: ");
    let n = u64_to_dec(h as u64);
    s.append(n.as_str());
    s.append("%");
    s
}

/// The value of unsigned temperature display text: up to eighteen digits,
/// then the degree sign and the Celsius letter.
pub open spec fn spec_parse_temp_unsigned(t: Seq<char>) -> Option<int> {
    if t.len() >= 3 && t.len() - 2 <= 18 && all_digits(t.subrange(0, t.len() - 2)) && t[t.len()
        - 2] == '\u{b0}' && t[t.len() - 1] == 'C' {
        Option::Some(spec_digits_value(t.subrange(0, t.len() - 2)))
    } else {
        Option::None
    }
}

/// The value of temperature display text, with an optional leading minus.
pub open spec fn spec_parse_temperature_text(s: Seq<char>) -> Option<int> {
    if s.len() > 0 && s[0] == '-' {
        match spec_parse_temp_unsigned(s.skip(1)) {
            Option::Some(v) => Option::Some(-v),
            Option::None => Option::None,
        }
    } else {
        spec_parse_temp_unsigned(s)
    }
}

/// Decodes temperature display text back into whole degrees.
pub fn parse_temperature_text(s: &str) -> (r: Option<i64>)
    ensures
        r is Some <==> spec_parse_temperature_text(s@) is Some,
        r matches Option::Some(x) ==> spec_parse_temperature_text(s@) == Option::Some(x as int),
{
    let v = chars_of(s);
    let n = v.len();
    let mut base: usize = 0;
    let mut neg: bool = false;
    if n > 0 {
        if v[0] == '-' {
            neg = true;
            base = 1;
        }
    }
    let ghost t = s@.skip(base as int);
    proof {
        if !neg {
            assert(t =~= s@);
        }
        assert(forall|j: int| 0 <= j < t.len() ==> t[j] == v@[base + j]);
    }
    let m = n - base;
    if m < 3 {
        return None;
    }
    let k = m - 2;
    if k > 18 {
        return None;
    }
    if !(v[base + m - 2] == '\u{b0}' && v[base + m - 1] == 'C') {
        return None;
    }
    let mut acc: u64 = 0;
    let mut i: usize = 0;
    while i < k
        invariant
            m == t.len(),
            base + m == v@.len(),
            base + m <= usize::MAX,
            t == v@.skip(base as int),
            t == s@.skip(base as int),
            neg ==> s@.len() > 0 && s@[0] == '-' && t == s@.skip(1),
            !neg ==> t == s@ && !(s@.len() > 0 && s@[0] == '-'),
            3 <= m,
            k == m - 2,
            k <= 18,
            0 <= i <= k,
            forall|q: int| 0 <= q < i ==> spec_is_digit(#[trigger] t[q]),
            acc == spec_digits_value(t.subrange(0, i as int)),
            acc < spec_pow10(i as nat),
        decreases k - i,
    {
        let c = v[base + i];
        if !is_digit_char(c) {
            proof {
                assert(!spec_is_digit(t[i as int]));
                assert(t.subrange(0, t.len() - 2)[i as int] == t[i as int]);
                assert(!all_digits(t.subrange(0, t.len() - 2)));
            }
            return None;
        }
        proof {
            lemma_pow10_vals();
            lemma_pow10_mono(i as nat, 17);
            assert(t.subrange(0, i + 1).drop_last() =~= t.subrange(0, i as int));
            assert(t.subrange(0, i + 1).last() == t[i as int]);
            assert(spec_pow10((i + 1) as nat) == 10 * spec_pow10(i as nat));
        }
        acc = acc * 10 + (c as u32 as u64 - 48);
        i += 1;
    }
    proof {
        lemma_pow10_vals();
        lemma_pow10_mono(k as nat, 18);
        assert(acc < 1_000_000_000_000_000_000);
        assert(t.subrange(0, t.len() - 2) =~= t.subrange(0, k as int));
        assert(all_digits(t.subrange(0, t.len() - 2)));
        assert(spec_parse_temp_unsigned(t) == Option::Some(acc as int));
    }
    let value: i64 = if neg {
        -(acc as i64)
    } else {
        acc as i64
    };
    proof {
        if neg {
            assert(s@[0] == '-');
            assert(t == s@.skip(1));
            assert(spec_parse_temperature_text(s@) == Option::<int>::Some(-(acc as int)));
        } else {
            assert(!(s@.len() > 0 && s@[0] == '-'));
            assert(spec_parse_temperature_text(s@) == Option::<int>::Some(acc as int));
        }
    }
    Some(value)
}

/// Decoding the display text of any temperature recovers exactly its
/// truncated whole degrees: the presentation encoding loses nothing beyond
/// the fraction it deliberately drops.
pub proof fn lemma_temperature_text_round_trip(milli: i64)
    ensures
        spec_parse_temperature_text(spec_temperature_text(milli as int)) == Option::Some(
            spec_trunc_degrees(milli as int),
        ),
{
    let d = spec_trunc_degrees(milli as int);
    reveal_strlit("\u{b0}C");
    assert("\u{b0}C"@.len() == 2);
    assert("\u{b0}C"@[0] == '\u{b0}');
    assert("\u{b0}C"@[1] == 'C');
    lemma_pow10_vals();
    if d >= 0 {
        let u = spec_u64_dec(d as nat);
        lemma_u64_dec_all_digits(d as nat);
        lemma_u64_dec_value(d as nat);
        lemma_u64_dec_len(d as nat, 18);
        let s = spec_temperature_text(milli as int);
        assert(s == u + "\u{b0}C"@);
        assert(s.len() == u.len() + 2);
        assert(s.subrange(0, s.len() - 2) =~= u);
        assert(s[s.len() - 2] == '\u{b0}');
        assert(s[s.len() - 1] == 'C');
        assert(s[0] == u[0]);
        assert(spec_is_digit(u[0]));
        assert(s[0] != '-');
        assert(spec_parse_temp_unsigned(s) == Option::Some(d));
    } else {
        let mag = (-d) as nat;
        let u = spec_u64_dec(mag);
        lemma_u64_dec_all_digits(mag);
        lemma_u64_dec_value(mag);
        lemma_u64_dec_len(mag, 18);
        let s = spec_temperature_text(milli as int);
        assert(spec_i64_dec(d) == seq!['-'] + u);
        assert(s == (seq!['-'] + u) + "\u{b0}C"@);
        assert(s[0] == '-');
        assert(s.len() > 0);
        let t = s.skip(1);
        assert(t =~= u + "\u{b0}C"@);
        assert(t.subrange(0, t.len() - 2) =~= u);
        assert(t[t.len() - 2] == '\u{b0}');
        assert(t[t.len() - 1] == 'C');
        assert(spec_parse_temp_unsigned(t) == Option::Some(-d));
        assert(spec_parse_temperature_text(s) == Option::Some(d));
    }
}

} // verus!
