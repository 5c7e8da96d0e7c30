//! Exact decimal text for integers and for fixed-point values held in
//! 1/65536ths of a unit.

use vstd::prelude::*;
use vstd::arithmetic::div_mod::{lemma_fundamental_div_mod, lemma_mod_bound};

verus! {

/// A signed fixed-point number: `ticks` counts 1/65536ths of a unit.
///
/// The denominator is a power of two, so every value has a finite, exact
/// decimal expansion; the formatter below produces it.
#[derive(Clone, Copy, Debug, PartialEq, Eq, Structural)]
pub struct FixedValue {
    pub ticks: i64,
}

/// The decimal digit character for d, 0 <= d <= 9.
pub open spec fn spec_digit(d: int) -> char {
    if d == 0 {
        '0'
    } else if d == 1 {
        '1'
    } else if d == 2 {
        '2'
    } else if d == 3 {
        '3'
    } else if d == 4 {
        '4'
    } else if d == 5 {
        '5'
    } else if d == 6 {
        '6'
    } else if d == 7 {
        '7'
    } else if d == 8 {
        '8'
    } else {
        '9'
    }
}

/// The decimal digits of n, most significant first, without sign or leading
/// zeros (except for "0" itself).
pub open spec fn spec_decimal(n: nat) -> Seq<char>
    decreases n,
{
    if n < 10 {
        seq![spec_digit(n as int)]
    } else {
        spec_decimal((n / 10) as nat).push(spec_digit((n % 10) as int))
    }
}

/// The decimal digits of i, with a leading '-' when i is negative.
pub open spec fn spec_decimal_signed(i: int) -> Seq<char> {
    if i < 0 {
        seq!['-'] + spec_decimal((-i) as nat)
    } else {
        spec_decimal(i as nat)
    }
}

fn digit_char(d: u64) -> (r: char)
    requires
        d < 10,
    ensures
        r == spec_digit(d as int),
{
    if d == 0 {
        '0'
    } else if d == 1 {
        '1'
    } else if d == 2 {
        '2'
    } else if d == 3 {
        '3'
    } else if d == 4 {
        '4'
    } else if d == 5 {
        '5'
    } else if d == 6 {
        '6'
    } else if d == 7 {
        '7'
    } else if d == 8 {
        '8'
    } else {
        '9'
    }
}

/// The decimal digits of n as characters.
pub fn decimal_chars(n: u64) -> (r: Vec<char>)
    ensures
        r@ == spec_decimal(n as nat),
{
    let mut out: Vec<char> = Vec::new();
    if n == 0 {
        out.push('0');
        proof {
            assert(out@ =~= spec_decimal(0));
        }
        return out;
    }
    let mut m: u64 = n;
    proof {
        assert(spec_decimal(n as nat) =~= spec_decimal(n as nat) + out@);
    }
    while m > 0
        invariant
            m > 0 ==> spec_decimal(n as nat) == spec_decimal(m as nat) + out@,
            m == 0 ==> spec_decimal(n as nat) == out@,
        decreases m,
    {
        let d = m % 10;
        let c = digit_char(d);
        let ghost out0 = out@;
        let ghost m0 = m;
        out.insert(0, c);
        m = m / 10;
        proof {
            assert(out@ =~= seq![c] + out0);
            if m0 < 10 {
                assert(spec_decimal(m0 as nat) == seq![c]);
                assert(spec_decimal(m0 as nat) + out0 =~= out@);
            } else {
                assert(spec_decimal(m0 as nat) == spec_decimal((m0 / 10) as nat).push(c));
                assert(spec_decimal(m0 as nat) + out0 =~= spec_decimal(m as nat) + out@);
            }
        }
    }
    out
}

/// The decimal digits of i as characters, '-' first when i is negative.
pub fn decimal_chars_signed(i: i64) -> (r: Vec<char>)
    ensures
        r@ == spec_decimal_signed(i as int),
{
    if i >= 0 {
        decimal_chars(i as u64)
    } else {
        let mag: u64 = (-(i as i128)) as u64;
        let mut out: Vec<char> = Vec::new();
        out.push('-');
        let mut digits = decimal_chars(mag);
        out.append(&mut digits);
        proof {
            assert(out@ =~= spec_decimal_signed(i as int));
        }
        out
    }
}

/// 10 to the k-th power.
pub open spec fn pow10(k: nat) -> nat
    decreases k,
{
    if k == 0 {
        1
    } else {
        10 * pow10((k - 1) as nat)
    }
}

/// n below 10^k has at most k decimal digits.
pub proof fn lemma_decimal_len_bound(n: nat, k: nat)
    requires
        k >= 1,
        n < pow10(k),
    ensures
        spec_decimal(n).len() <= k,
    decreases k,
{
    if n < 10 {
    } else {
        assert(pow10(k) == 10 * pow10((k - 1) as nat));
        assert(n / 10 < pow10((k - 1) as nat)) by (nonlinear_arith)
            requires
                n < 10 * pow10((k - 1) as nat),
                n >= 10,
        ;
        assert(k >= 2) by {
            if k == 1 {
                assert(pow10(1) == 10);
            }
        }
        lemma_decimal_len_bound(n / 10, (k - 1) as nat);
    }
}

/// k '0' characters.
pub open spec fn spec_zeros(k: nat) -> Seq<char> {
    Seq::new(k, (|i: int| '0'))
}

/// s with trailing '0' characters removed.
pub open spec fn spec_trim_zeros(s: Seq<char>) -> Seq<char>
    decreases s.len(),
{
    if s.len() > 0 && s.last() == '0' {
        spec_trim_zeros(s.drop_last())
    } else {
        s
    }
}

/// 5^16: the factor that turns f/65536 into an integer over 10^16.
pub const FRAC_SCALE: u64 = 152587890625;

/// The digits after the decimal point of f/65536, for 0 < f < 65536: the exact
/// 16-digit expansion of f * 5^16, left-padded with zeros to 16 places, with
/// trailing zeros removed.
pub open spec fn spec_fraction_digits(f: int) -> Seq<char>
    recommends
        0 < f < 65536,
{
    let scaled = spec_decimal((f * 152587890625) as nat);
    spec_trim_zeros(spec_zeros((16 - scaled.len()) as nat) + scaled)
}

/// The exact decimal text of ticks/65536: sign, integer part, and a fractional
/// part exactly when the value is not an integer.
pub open spec fn spec_fixed_text(ticks: int) -> Seq<char> {
    let mag = if ticks < 0 { -ticks } else { ticks };
    let sign: Seq<char> = if ticks < 0 { seq!['-'] } else { Seq::empty() };
    let whole = spec_decimal((mag / 65536) as nat);
    if mag % 65536 == 0 {
        sign + whole
    } else {
        sign + whole + seq!['.'] + spec_fraction_digits(mag % 65536)
    }
}

/// Remove trailing '0' characters in place.
fn trim_zeros(v: &mut Vec<char>)
    ensures
        final(v)@ == spec_trim_zeros(old(v)@),
{
    while v.len() > 0 && v[v.len() - 1] == '0'
        invariant
            spec_trim_zeros(old(v)@) == spec_trim_zeros(v@),
        decreases v.len(),
    {
        let ghost before = v@;
        v.pop();
        proof {
            assert(v@ =~= before.drop_last());
        }
    }
}

/// The fraction digits of f/65536 as characters.
fn fraction_chars(f: u64) -> (r: Vec<char>)
    requires
        0 < f < 65536,
    ensures
        r@ == spec_fraction_digits(f as int),
{
    let scaled: u64 = f * FRAC_SCALE;
    proof {
        assert(pow10(16) == 10000000000000000) by {
            reveal_with_fuel(pow10, 17);
        }
        assert(scaled < 10000000000000000);
        lemma_decimal_len_bound(scaled as nat, 16);
    }
    let mut digits = decimal_chars(scaled);
    let ghost scaled_digits = digits@;
    while digits.len() < 16
        invariant
            digits@.len() <= 16,
            digits@ =~= spec_zeros((digits@.len() - scaled_digits.len()) as nat) + scaled_digits,
            scaled_digits.len() <= 16,
            digits@.len() >= scaled_digits.len(),
        decreases 16 - digits@.len(),
    {
        let ghost before = digits@;
        digits.insert(0, '0');
        proof {
            assert(digits@ =~= seq!['0'] + before);
            assert(digits@ =~= spec_zeros((digits@.len() - scaled_digits.len()) as nat)
                + scaled_digits);
        }
    }
    proof {
        assert(digits@ =~= spec_zeros((16 - scaled_digits.len()) as nat) + scaled_digits);
    }
    trim_zeros(&mut digits);
    digits
}

/// The exact decimal text of a fixed-point value as characters.
pub fn fixed_chars(v: FixedValue) -> (r: Vec<char>)
    ensures
        r@ == spec_fixed_text(v.ticks as int),
{
    let mag: u64 = if v.ticks < 0 {
        (-(v.ticks as i128)) as u64
    } else {
        v.ticks as u64
    };
    let whole: u64 = mag / 65536;
    let frac: u64 = mag % 65536;
    let mut out: Vec<char> = Vec::new();
    if v.ticks < 0 {
        out.push('-');
    }
    let mut whole_digits = decimal_chars(whole);
    out.append(&mut whole_digits);
    if frac > 0 {
        out.push('.');
        let mut frac_digits = fraction_chars(frac);
        out.append(&mut frac_digits);
    }
    proof {
        assert(out@ =~= spec_fixed_text(v.ticks as int));
    }
    out
}

/// Relies on `String`'s `FromIterator<char>` impl (std): collecting a vector
/// of characters yields the string whose characters are exactly those.
#[verifier::external_body]
pub fn chars_to_string(v: Vec<char>) -> (r: String)
    ensures
        r@ == v@,
{
    v.into_iter().collect()
}

/// The exact decimal text of a fixed-point value.
pub fn fixed_to_string(v: FixedValue) -> (r: String)
    ensures
        r@ == spec_fixed_text(v.ticks as int),
{
    chars_to_string(fixed_chars(v))
}

/// The decimal text of a signed integer.
pub fn i64_to_string(i: i64) -> (r: String)
    ensures
        r@ == spec_decimal_signed(i as int),
{
    chars_to_string(decimal_chars_signed(i))
}

/// Whether c is a decimal digit character.
pub open spec fn spec_is_digit(c: char) -> bool {
    c == '0' || c == '1' || c == '2' || c == '3' || c == '4' || c == '5' || c == '6' || c == '7'
        || c == '8' || c == '9'
}

/// The numeric value of a digit character.
pub open spec fn spec_digit_value(c: char) -> int {
    if c == '0' {
        0
    } else if c == '1' {
        1
    } else if c == '2' {
        2
    } else if c == '3' {
        3
    } else if c == '4' {
        4
    } else if c == '5' {
        5
    } else if c == '6' {
        6
    } else if c == '7' {
        7
    } else if c == '8' {
        8
    } else {
        9
    }
}

/// The number named by a sequence of digit characters, most significant
/// first; the empty sequence names 0.
pub open spec fn spec_parse_decimal(s: Seq<char>) -> int
    decreases s.len(),
{
    if s.len() == 0 {
        0
    } else {
        spec_parse_decimal(s.drop_last()) * 10 + spec_digit_value(s.last())
    }
}

/// The number named by digits with an optional leading '-'.
pub open spec fn spec_parse_decimal_signed(s: Seq<char>) -> int {
    if s.len() > 0 && s[0] == '-' {
        -spec_parse_decimal(s.skip(1))
    } else {
        spec_parse_decimal(s)
    }
}

/// Every character of a number's decimal text is a digit.
pub proof fn lemma_decimal_all_digits(n: nat)
    ensures
        forall|i: int|
            0 <= i < spec_decimal(n).len() ==> spec_is_digit(#[trigger] spec_decimal(n)[i]),
    decreases n,
{
    if n < 10 {
    } else {
        lemma_decimal_all_digits((n / 10) as nat);
        assert forall|i: int|
            0 <= i < spec_decimal(n).len() implies spec_is_digit(#[trigger] spec_decimal(n)[i]) by {
            if i < spec_decimal((n / 10) as nat).len() {
                assert(spec_decimal(n)[i] == spec_decimal((n / 10) as nat)[i]);
            }
        }
    }
}

/// Law: the decimal text of a number reads back as that number - formatting
/// then parsing is the identity on unsigned values.
pub proof fn lemma_decimal_round_trip(n: nat)
    ensures
        spec_parse_decimal(spec_decimal(n)) == n,
    decreases n,
{
    if n < 10 {
        assert(spec_decimal(n).last() == spec_digit(n as int));
        assert(spec_digit_value(spec_digit(n as int)) == n);
        assert(spec_decimal(n).drop_last() =~= Seq::<char>::empty());
        assert(spec_parse_decimal(Seq::<char>::empty()) == 0);
        assert(spec_parse_decimal(spec_decimal(n)) == spec_parse_decimal(
            spec_decimal(n).drop_last(),
        ) * 10 + spec_digit_value(spec_decimal(n).last()));
    } else {
        lemma_decimal_round_trip((n / 10) as nat);
        assert(spec_decimal(n).last() == spec_digit((n % 10) as int));
        assert(spec_digit_value(spec_digit((n % 10) as int)) == n % 10);
        assert(spec_decimal(n).drop_last() =~= spec_decimal((n / 10) as nat));
    }
}

/// Whether every character of s is a decimal digit.
pub open spec fn spec_all_digits(s: Seq<char>) -> bool {
    forall|i: int| 0 <= i < s.len() ==> spec_is_digit(#[trigger] s[i])
}

/// A run of zeros names 0.
proof fn lemma_parse_zeros(k: nat)
    ensures
        spec_parse_decimal(spec_zeros(k)) == 0,
    decreases k,
{
    if k > 0 {
        lemma_parse_zeros((k - 1) as nat);
        assert(spec_zeros(k).drop_last() =~= spec_zeros((k - 1) as nat));
    }
}

/// Leading zeros do not change the number a digit run names.
proof fn lemma_parse_leading_zeros(k: nat, s: Seq<char>)
    ensures
        spec_parse_decimal(spec_zeros(k) + s) == spec_parse_decimal(s),
    decreases s.len(),
{
    if s.len() == 0 {
        assert(spec_zeros(k) + s =~= spec_zeros(k));
        lemma_parse_zeros(k);
    } else {
        lemma_parse_leading_zeros(k, s.drop_last());
        assert((spec_zeros(k) + s).drop_last() =~= spec_zeros(k) + s.drop_last());
        assert((spec_zeros(k) + s).last() == s.last());
    }
}

/// Trimming trailing zeros divides the named number by the matching power
/// of ten: the number is recoverable from the trimmed text and the length.
proof fn lemma_parse_trim(s: Seq<char>)
    ensures
        spec_trim_zeros(s).len() <= s.len(),
        spec_parse_decimal(s) == spec_parse_decimal(spec_trim_zeros(s)) * pow10(
            (s.len() - spec_trim_zeros(s).len()) as nat,
        ),
    decreases s.len(),
{
    if s.len() > 0 && s.last() == '0' {
        lemma_parse_trim(s.drop_last());
        let t = spec_trim_zeros(s);
        let dropped = (s.drop_last().len() - t.len()) as nat;
        assert(t == spec_trim_zeros(s.drop_last()));
        assert(spec_digit_value('0') == 0);
        assert(spec_parse_decimal(s) == spec_parse_decimal(s.drop_last()) * 10);
        assert(spec_parse_decimal(s.drop_last()) == spec_parse_decimal(t) * pow10(dropped));
        assert(pow10((dropped + 1) as nat) == 10 * pow10(dropped));
        assert((spec_parse_decimal(t) * pow10(dropped)) * 10 == spec_parse_decimal(t) * (10
            * pow10(dropped))) by (nonlinear_arith);
        assert((s.len() - t.len()) as nat == dropped + 1);
        assert(spec_parse_decimal(s) == spec_parse_decimal(t) * pow10((dropped + 1) as nat));
        assert(spec_parse_decimal(s) == spec_parse_decimal(spec_trim_zeros(s)) * pow10(
            (s.len() - spec_trim_zeros(s).len()) as nat,
        ));
    } else {
        assert(spec_trim_zeros(s) == s);
        assert((s.len() - spec_trim_zeros(s).len()) as nat == 0);
        assert(pow10((s.len() - spec_trim_zeros(s).len()) as nat) == 1);
        assert(spec_parse_decimal(s) * 1 == spec_parse_decimal(s)) by (nonlinear_arith);
        assert(spec_parse_decimal(s) == spec_parse_decimal(spec_trim_zeros(s)) * pow10(
            (s.len() - spec_trim_zeros(s).len()) as nat,
        ));
    }
}

/// Trimming only drops characters from the end: the trimmed text is a
/// prefix of the untrimmed one.
proof fn lemma_trim_prefix(s: Seq<char>)
    ensures
        spec_trim_zeros(s).len() <= s.len(),
        spec_trim_zeros(s) == s.take(spec_trim_zeros(s).len() as int),
    decreases s.len(),
{
    if s.len() > 0 && s.last() == '0' {
        lemma_trim_prefix(s.drop_last());
        assert(s.drop_last().take(spec_trim_zeros(s).len() as int) =~= s.take(
            spec_trim_zeros(s).len() as int,
        ));
    } else {
        assert(s.take(s.len() as int) =~= s);
    }
}

/// Law: the signed decimal text of an integer reads back as that integer -
/// formatting then parsing is the identity on timestamps and every other
/// signed value.
pub proof fn lemma_decimal_signed_round_trip(i: int)
    ensures
        spec_parse_decimal_signed(spec_decimal_signed(i)) == i,
{
    if i < 0 {
        let s = spec_decimal_signed(i);
        assert(s.skip(1) =~= spec_decimal((-i) as nat));
        lemma_decimal_round_trip((-i) as nat);
    } else {
        lemma_decimal_round_trip(i as nat);
        lemma_decimal_all_digits(i as nat);
        assert(spec_is_digit(spec_decimal(i as nat)[0]));
    }
}

proof fn lemma_decimal_len_pos(n: nat)
    ensures
        spec_decimal(n).len() >= 1,
{
}

/// The fraction digits of f/65536 are digits, at most 16 of them, and they
/// name f * 5^16 once scaled back by the trimmed power of ten.
proof fn lemma_fraction_digits_value(f: int)
    requires
        0 < f < 65536,
    ensures
        1 <= spec_fraction_digits(f).len() <= 16,
        spec_all_digits(spec_fraction_digits(f)),
        spec_parse_decimal(spec_fraction_digits(f)) * pow10(
            (16 - spec_fraction_digits(f).len()) as nat,
        ) == f * 152587890625,
{
    let scaled = (f * 152587890625) as nat;
    assert(pow10(16) == 10000000000000000) by {
        reveal_with_fuel(pow10, 17);
    }
    assert(f * 152587890625 <= 65535 * 152587890625) by (nonlinear_arith)
        requires
            f < 65536,
    ;
    lemma_decimal_len_bound(scaled, 16);
    let ds = spec_decimal(scaled);
    lemma_decimal_len_pos(scaled);
    let padded = spec_zeros((16 - ds.len()) as nat) + ds;
    assert(padded.len() == 16);
    lemma_decimal_round_trip(scaled);
    lemma_parse_leading_zeros((16 - ds.len()) as nat, ds);
    lemma_parse_trim(padded);
    lemma_trim_prefix(padded);
    lemma_decimal_all_digits(scaled);
    let fr = spec_trim_zeros(padded);
    assert(fr == spec_fraction_digits(f));
    assert(spec_all_digits(padded)) by {
        assert forall|i: int| 0 <= i < padded.len() implies spec_is_digit(
            #[trigger] padded[i],
        ) by {
            if i >= 16 - ds.len() {
                assert(padded[i] == ds[i - (16 - ds.len())]);
            }
        }
    }
    assert(spec_all_digits(fr)) by {
        assert forall|i: int| 0 <= i < fr.len() implies spec_is_digit(#[trigger] fr[i]) by {
            assert(fr[i] == padded[i]);
        }
    }
    assert(fr.len() >= 1) by {
        if fr.len() == 0 {
            assert(spec_parse_decimal(fr) == 0);
            assert(spec_parse_decimal(padded) == 0);
            assert(f * 152587890625 >= 1 * 152587890625) by (nonlinear_arith)
                requires
                    f >= 1,
            ;
        }
    }
}

/// The shape of a fixed-point text: a non-negative value starts with a
/// digit; a negative value is '-' followed by the text of its magnitude.
proof fn lemma_fixed_text_shape(t: int)
    ensures
        t >= 0 ==> spec_fixed_text(t).len() >= 1 && spec_is_digit(spec_fixed_text(t)[0]),
        t < 0 ==> spec_fixed_text(t) == seq!['-'] + spec_fixed_text(-t),
{
    if t >= 0 {
        let w = (t / 65536) as nat;
        lemma_decimal_len_pos(w);
        lemma_decimal_all_digits(w);
        assert(spec_fixed_text(t)[0] == spec_decimal(w)[0]);
        assert(spec_is_digit(spec_decimal(w)[0]));
    } else {
        assert(spec_fixed_text(t) =~= seq!['-'] + spec_fixed_text(-t));
    }
}

/// Injectivity of the fixed-point text for non-negative values.
proof fn lemma_fixed_text_injective_nonneg(a: int, b: int)
    requires
        0 <= a,
        0 <= b,
        spec_fixed_text(a) == spec_fixed_text(b),
    ensures
        a == b,
{
    lemma_fundamental_div_mod(a, 65536);
    lemma_fundamental_div_mod(b, 65536);
    lemma_mod_bound(a, 65536);
    lemma_mod_bound(b, 65536);
    let wa = (a / 65536) as nat;
    let fa = a % 65536;
    let wb = (b / 65536) as nat;
    let fb = b % 65536;
    let da = spec_decimal(wa);
    let db = spec_decimal(wb);
    lemma_decimal_all_digits(wa);
    lemma_decimal_all_digits(wb);
    lemma_decimal_len_pos(wa);
    lemma_decimal_len_pos(wb);
    lemma_decimal_round_trip(wa);
    lemma_decimal_round_trip(wb);
    let text = spec_fixed_text(a);
    if fa == 0 && fb == 0 {
        assert(text =~= da);
        assert(text =~= db);
        assert(da == db);
    } else if fa == 0 && fb != 0 {
        lemma_fraction_digits_value(fb);
        assert(text =~= da);
        assert(text =~= db + seq!['.'] + spec_fraction_digits(fb));
        assert(text[db.len() as int] == '.');
        assert(spec_is_digit(text[db.len() as int]));
        assert(false);
    } else if fa != 0 && fb == 0 {
        lemma_fraction_digits_value(fa);
        assert(text =~= db);
        assert(text =~= da + seq!['.'] + spec_fraction_digits(fa));
        assert(text[da.len() as int] == '.');
        assert(spec_is_digit(text[da.len() as int]));
        assert(false);
    } else {
        lemma_fraction_digits_value(fa);
        lemma_fraction_digits_value(fb);
        let fra = spec_fraction_digits(fa);
        let frb = spec_fraction_digits(fb);
        assert(text =~= da + seq!['.'] + fra);
        assert(text =~= db + seq!['.'] + frb);
        assert(da.len() == db.len()) by {
            if da.len() < db.len() {
                assert(text[da.len() as int] == '.');
                assert(spec_is_digit(db[da.len() as int]));
                assert(text[da.len() as int] == db[da.len() as int]);
            }
            if db.len() < da.len() {
                assert(text[db.len() as int] == '.');
                assert(spec_is_digit(da[db.len() as int]));
                assert(text[db.len() as int] == da[db.len() as int]);
            }
        }
        assert(da =~= db) by {
            assert forall|i: int| 0 <= i < da.len() implies da[i] == db[i] by {
                assert(da[i] == text[i]);
                assert(db[i] == text[i]);
            }
        }
        assert(fra.len() == frb.len());
        assert(fra =~= frb) by {
            assert forall|i: int| 0 <= i < fra.len() implies fra[i] == frb[i] by {
                assert(fra[i] == text[da.len() + 1 + i]);
                assert(frb[i] == text[db.len() + 1 + i]);
            }
        }
        assert(fa * 152587890625 == fb * 152587890625);
        assert(fa == fb);
    }
}

/// Law: no two fixed-point values print alike - the exact decimal text of
/// a reading determines the reading, so the numeric field of a metric
/// record can always be read back unambiguously.
pub proof fn lemma_fixed_text_injective(a: int, b: int)
    requires
        spec_fixed_text(a) == spec_fixed_text(b),
    ensures
        a == b,
{
    lemma_fixed_text_shape(a);
    lemma_fixed_text_shape(b);
    if a < 0 && b < 0 {
        assert(spec_fixed_text(-a) =~= spec_fixed_text(a).skip(1));
        assert(spec_fixed_text(-b) =~= spec_fixed_text(b).skip(1));
        lemma_fixed_text_injective_nonneg(-a, -b);
    } else if a >= 0 && b >= 0 {
        lemma_fixed_text_injective_nonneg(a, b);
    } else if a < 0 {
        assert(spec_fixed_text(a)[0] == '-');
        assert(spec_is_digit(spec_fixed_text(b)[0]));
        assert(false);
    } else {
        assert(spec_fixed_text(b)[0] == '-');
        assert(spec_is_digit(spec_fixed_text(a)[0]));
        assert(false);
    }
}

} // verus!
