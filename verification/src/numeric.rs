//! Decimal rendering and parsing over character sequences.
//!
//! The engine exchanges numbers with the outside world as text: coordinates
//! arrive as decimal strings from the configuration, and the temperature is
//! rendered as a decimal string for display. Everything here is stated over
//! `Seq<char>` so the contracts of the callers can speak about the exact text.

use vstd::prelude::*;
use vstd::string::*;

verus! {

/// The decimal digit character for `d` (meaningful for `d < 10`).
pub open spec fn spec_digit_char(d: nat) -> char {
    if d == 0 {
        '0'
    } else if d == 1 {
        '1'
    } else if d == 2 {
        '2'
    } else if d == 3 {
        '3'
    } else if d == 4 {
        '4'
    } else if d == 5 {
        '5'
    } else if d == 6 {
        '6'
    } else if d == 7 {
        '7'
    } else if d == 8 {
        '8'
    } else {
        '9'
    }
}

/// The usual decimal rendering of `n`, most significant digit first,
/// without leading zeros (a single `'0'` for zero).
pub open spec fn spec_u64_dec(n: nat) -> Seq<char>
    decreases n,
{
    if n < 10 {
        seq![spec_digit_char(n)]
    } else {
        spec_u64_dec(n / 10).push(spec_digit_char(n % 10))
    }
}

/// Decimal rendering of a signed value: a leading `'-'` for negatives.
pub open spec fn spec_i64_dec(v: int) -> Seq<char> {
    if v < 0 {
        seq!['-'] + spec_u64_dec((-v) as nat)
    } else {
        spec_u64_dec(v as nat)
    }
}

pub open spec fn spec_is_digit(c: char) -> bool {
    48 <= c as int <= 57
}

pub open spec fn spec_digit_val(c: char) -> int {
    c as int - 48
}

pub open spec fn all_digits(s: Seq<char>) -> bool {
    forall|i: int| 0 <= i < s.len() ==> spec_is_digit(#[trigger] s[i])
}

/// The value of a digit sequence read in base ten, most significant first.
/// Meaningful only when `all_digits(s)` holds.
pub open spec fn spec_digits_value(s: Seq<char>) -> int
    decreases s.len(),
{
    if s.len() == 0 {
        0
    } else {
        spec_digits_value(s.drop_last()) * 10 + spec_digit_val(s.last())
    }
}

pub open spec fn spec_pow10(k: nat) -> int
    decreases k,
{
    if k == 0 {
        1
    } else {
        10 * spec_pow10((k - 1) as nat)
    }
}

/// The rendering of `n` consists of digit characters only.
pub proof fn lemma_u64_dec_all_digits(n: nat)
    ensures
        all_digits(spec_u64_dec(n)),
        spec_u64_dec(n).len() >= 1,
    decreases n,
{
    if n >= 10 {
        lemma_u64_dec_all_digits(n / 10);
    }
}

/// Reading the rendering of `n` back as a digit sequence gives `n`.
pub proof fn lemma_u64_dec_value(n: nat)
    ensures
        spec_digits_value(spec_u64_dec(n)) == n,
    decreases n,
{
    assert(forall|d: nat| d < 10 ==> spec_digit_val(#[trigger] spec_digit_char(d)) == d);
    assert(spec_digits_value(spec_u64_dec(n)) == spec_digits_value(spec_u64_dec(n).drop_last())
        * 10 + spec_digit_val(spec_u64_dec(n).last()));
    if n < 10 {
        assert(spec_u64_dec(n).drop_last() =~= Seq::<char>::empty());
        assert(spec_digits_value(Seq::<char>::empty()) == 0);
        assert(spec_u64_dec(n).last() == spec_digit_char(n));
    } else {
        lemma_u64_dec_value(n / 10);
        assert(spec_u64_dec(n) == spec_u64_dec(n / 10).push(spec_digit_char(n % 10)));
        assert(spec_u64_dec(n).drop_last() =~= spec_u64_dec(n / 10));
        assert(spec_u64_dec(n).last() == spec_digit_char(n % 10));
    }
}

/// The rendering of `n` has at most `k` digits when `n < 10^k`.
pub proof fn lemma_u64_dec_len(n: nat, k: nat)
    requires
        k >= 1,
        n < spec_pow10(k),
    ensures
        spec_u64_dec(n).len() <= k,
    decreases n,
{
    if n >= 10 {
        assert(spec_pow10(k) == 10 * spec_pow10((k - 1) as nat));
        lemma_u64_dec_len(n / 10, (k - 1) as nat);
    }
}

/// The decimal rendering of `f` zero-padded on the left to exactly `w` digits
/// (the lowest `w` digits of `f`).
pub open spec fn spec_padded(f: nat, w: nat) -> Seq<char>
    decreases w,
{
    if w == 0 {
        Seq::<char>::empty()
    } else {
        spec_padded(f / 10, (w - 1) as nat).push(spec_digit_char(f % 10))
    }
}

/// The `w`-digit rendering of `f` with trailing zeros removed: the shortest
/// digit sequence that still denotes the fraction `f / 10^w`.
pub open spec fn spec_frac_trimmed(f: nat, w: nat) -> Seq<char>
    decreases w,
{
    if w > 0 && f % 10 == 0 {
        spec_frac_trimmed(f / 10, (w - 1) as nat)
    } else {
        spec_padded(f, w)
    }
}

/// The concrete values of the small powers of ten.
pub proof fn lemma_pow10_vals()
    ensures
        spec_pow10(0) == 1,
        spec_pow10(1) == 10,
        spec_pow10(2) == 100,
        spec_pow10(3) == 1000,
        spec_pow10(4) == 10_000,
        spec_pow10(5) == 100_000,
        spec_pow10(6) == 1_000_000,
        spec_pow10(7) == 10_000_000,
        spec_pow10(8) == 100_000_000,
        spec_pow10(9) == 1_000_000_000,
        spec_pow10(16) == 10_000_000_000_000_000,
        spec_pow10(17) == 100_000_000_000_000_000,
        spec_pow10(18) == 1_000_000_000_000_000_000,
{
    assert(spec_pow10(0) == 1);
    assert(spec_pow10(1) == 10);
    assert(spec_pow10(2) == 100);
    assert(spec_pow10(3) == 1000);
    assert(spec_pow10(4) == 10_000);
    assert(spec_pow10(5) == 100_000);
    assert(spec_pow10(6) == 1_000_000);
    assert(spec_pow10(7) == 10_000_000);
    assert(spec_pow10(8) == 100_000_000);
    assert(spec_pow10(9) == 1_000_000_000);
    assert(spec_pow10(10) == 10_000_000_000);
    assert(spec_pow10(11) == 100_000_000_000);
    assert(spec_pow10(12) == 1_000_000_000_000);
    assert(spec_pow10(13) == 10_000_000_000_000);
    assert(spec_pow10(14) == 100_000_000_000_000);
    assert(spec_pow10(15) == 1_000_000_000_000_000);
    assert(spec_pow10(16) == 10_000_000_000_000_000);
    assert(spec_pow10(17) == 100_000_000_000_000_000);
    assert(spec_pow10(18) == 1_000_000_000_000_000_000);
}

/// Powers of ten are positive.
pub proof fn lemma_pow10_pos(k: nat)
    ensures
        spec_pow10(k) >= 1,
    decreases k,
{
    if k > 0 {
        lemma_pow10_pos((k - 1) as nat);
    }
}

/// Powers of ten grow with the exponent.
pub proof fn lemma_pow10_mono(a: nat, b: nat)
    requires
        a <= b,
    ensures
        spec_pow10(a) <= spec_pow10(b),
    decreases b,
{
    if a < b {
        lemma_pow10_mono(a, (b - 1) as nat);
        lemma_pow10_pos((b - 1) as nat);
    }
}

/// Powers of ten multiply by adding exponents.
pub proof fn lemma_pow10_mul(a: nat, b: nat)
    ensures
        spec_pow10(a) * spec_pow10(b) == spec_pow10((a + b) as nat),
    decreases a,
{
    if a == 0 {
        assert(spec_pow10(0) == 1);
    } else {
        lemma_pow10_mul((a - 1) as nat, b);
        assert(spec_pow10(a) == 10 * spec_pow10((a - 1) as nat));
        assert(spec_pow10(a) * spec_pow10(b) == 10 * (spec_pow10((a - 1) as nat) * spec_pow10(b)))
            by (nonlinear_arith)
            requires
                spec_pow10(a) == 10 * spec_pow10((a - 1) as nat),
        ;
    }
}

/// The characters of `s`, in order.
pub(crate) fn chars_of(s: &str) -> (v: Vec<char>)
    ensures
        v@ == s@,
{
    let n = s.unicode_len();
    let mut v: Vec<char> = Vec::new();
    let mut i: usize = 0;
    while i < n
        invariant
            n == s@.len(),
            0 <= i <= n,
            v@ =~= s@.subrange(0, i as int),
        decreases n - i,
    {
        v.push(s.get_char(i));
        proof {
            assert(s@.subrange(0, i + 1 as int) =~= s@.subrange(0, i as int).push(s@[i as int]));
        }
        i += 1;
    }
    proof {
        assert(v@ =~= s@);
    }
    v
}

/// Tests whether `c` is a decimal digit.
pub(crate) fn is_digit_char(c: char) -> (r: bool)
    ensures
        r == spec_is_digit(c),
{
    let u = c as u32;
    48 <= u && u <= 57
}

/// A single-character string for the digit `d`.
pub(crate) fn digit_str(d: u64) -> (s: &'static str)
    requires
        d < 10,
    ensures
        s@ =~= seq![spec_digit_char(d as nat)],
{
    let s: &'static str = if d == 0 {
        "0"
    } else if d == 1 {
        "1"
    } else if d == 2 {
        "2"
    } else if d == 3 {
        "3"
    } else if d == 4 {
        "4"
    } else if d == 5 {
        "5"
    } else if d == 6 {
        "6"
    } else if d == 7 {
        "7"
    } else if d == 8 {
        "8"
    } else {
        "9"
    };
    proof {
        reveal_strlit("0");
        reveal_strlit("1");
        reveal_strlit("2");
        reveal_strlit("3");
        reveal_strlit("4");
        reveal_strlit("5");
        reveal_strlit("6");
        reveal_strlit("7");
        reveal_strlit("8");
        reveal_strlit("9");
    }
    s
}

/// Renders `n` in decimal.
pub fn u64_to_dec(n: u64) -> (s: String)
    ensures
        s@ == spec_u64_dec(n as nat),
    decreases n,
{
    if n < 10 {
        String::from_str(digit_str(n))
    } else {
        let mut s = u64_to_dec(n / 10);
        s.append(digit_str(n % 10));
        proof {
            assert(spec_u64_dec((n / 10) as nat) + seq![spec_digit_char((n % 10) as nat)]
                =~= spec_u64_dec((n / 10) as nat).push(spec_digit_char((n % 10) as nat)));
        }
        s
    }
}

/// Renders `v` in decimal with a leading minus sign for negatives.
pub fn i64_to_dec(v: i64) -> (s: String)
    requires
        v > i64::MIN,
    ensures
        s@ == spec_i64_dec(v as int),
{
    if v >= 0 {
        u64_to_dec(v as u64)
    } else {
        let mut s = String::from_str("-");
        let rest = u64_to_dec((-v) as u64);
        s.append(rest.as_str());
        proof {
            reveal_strlit("-");
            assert("-"@ =~= seq!['-']);
        }
        s
    }
}

/// Renders the lowest `w` digits of `f`, zero-padded to width `w`.
pub fn padded_dec(f: u64, w: u64) -> (s: String)
    ensures
        s@ == spec_padded(f as nat, w as nat),
    decreases w,
{
    if w == 0 {
        String::new()
    } else {
        let mut s = padded_dec(f / 10, w - 1);
        s.append(digit_str(f % 10));
        proof {
            assert(spec_padded((f / 10) as nat, (w - 1) as nat) + seq![
                spec_digit_char((f % 10) as nat),
            ] =~= spec_padded((f / 10) as nat, (w - 1) as nat).push(
                spec_digit_char((f % 10) as nat),
            ));
        }
        s
    }
}

/// Renders `f` as a `w`-digit fraction with trailing zeros removed.
pub fn frac_trimmed_dec(f: u64, w: u64) -> (s: String)
    ensures
        s@ == spec_frac_trimmed(f as nat, w as nat),
    decreases w,
{
    if w > 0 && f % 10 == 0 {
        frac_trimmed_dec(f / 10, w - 1)
    } else {
        padded_dec(f, w)
    }
}

} // verus!
