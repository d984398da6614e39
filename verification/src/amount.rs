//! Decimal amounts and their conversion to base units.
//!
//! An amount is written in decimal units of an asset; the asset's descriptor
//! says how many decimal places a base unit has. Converting multiplies by
//! that power of ten and rounds to the nearest base unit, a tie going down,
//! so that a conversion never credits more than half a base unit too much.
//! What exceeds `u64::MAX` is held at `u64::MAX`.

use vstd::prelude::*;

verus! {

/// Ten to the power `e`.
pub open spec fn pow10(e: nat) -> nat
    decreases e,
{
    if e == 0 {
        1
    } else {
        10 * pow10((e - 1) as nat)
    }
}

/// `n / d` rounded to the nearest whole number, a tie going down.
pub open spec fn round_half_down(n: nat, d: nat) -> nat {
    if 2 * (n % d) > d {
        n / d + 1
    } else {
        n / d
    }
}

/// The base units in `numerator / 10^scale` decimal units of an asset with
/// `decimals` decimal places, before the limit of `u64` is applied.
pub open spec fn exact_units(numerator: nat, scale: nat, decimals: nat) -> nat {
    round_half_down(numerator * pow10(decimals), pow10(scale))
}

/// The base units in `numerator / 10^scale` decimal units of an asset with
/// `decimals` decimal places, held at `u64::MAX`.
pub open spec fn base_units(numerator: nat, scale: nat, decimals: nat) -> nat {
    if exact_units(numerator, scale, decimals) > u64::MAX {
        u64::MAX as nat
    } else {
        exact_units(numerator, scale, decimals)
    }
}

/// A power of ten is at least one.
pub proof fn lemma_pow10_positive(e: nat)
    ensures
        pow10(e) >= 1,
    decreases e,
{
    if e > 0 {
        lemma_pow10_positive((e - 1) as nat);
    }
}

/// Powers of ten multiply by adding exponents.
pub proof fn lemma_pow10_adds(a: nat, b: nat)
    ensures
        pow10(a + b) == pow10(a) * pow10(b),
    decreases a,
{
    if a == 0 {
        assert(pow10(0) == 1);
        assert(1 * pow10(b) == pow10(b)) by (nonlinear_arith);
    } else {
        let a1 = (a - 1) as nat;
        lemma_pow10_adds(a1, b);
        assert(((a + b) - 1) as nat == a1 + b);
        assert(10 * (pow10(a1) * pow10(b)) == (10 * pow10(a1)) * pow10(b)) by (nonlinear_arith);
    }
}

/// A larger exponent gives a power of ten at least as large.
pub proof fn lemma_pow10_increases(a: nat, b: nat)
    requires
        a <= b,
    ensures
        pow10(a) <= pow10(b),
{
    let c = (b - a) as nat;
    lemma_pow10_adds(a, c);
    lemma_pow10_positive(c);
    lemma_pow10_positive(a);
    assert(pow10(a) <= pow10(a) * pow10(c)) by (nonlinear_arith)
        requires
            pow10(c) >= 1,
    ;
}

/// Rounding, read off a quotient and a remainder: where `n` is `q` times
/// `d` and `r` more, with `r` below `d`, the rounded quotient is `q`, or
/// `q + 1` when `r` is more than half of `d`.
pub proof fn lemma_round_from_parts(n: nat, d: nat, q: nat, r: nat)
    requires
        d > 0,
        r < d,
        n == q * d + r,
    ensures
        round_half_down(n, d) == if 2 * r > d {
            q + 1
        } else {
            q
        },
{
    vstd::arithmetic::div_mod::lemma_fundamental_div_mod_converse(
        n as int,
        d as int,
        q as int,
        r as int,
    );
}

/// Rounding does not change when numerator and denominator are multiplied
/// by the same positive number.
pub proof fn lemma_round_cancels(n: nat, d: nat, c: nat)
    requires
        d > 0,
        c > 0,
    ensures
        round_half_down(n * c, d * c) == round_half_down(n, d),
{
    let q = n / d;
    let r = n % d;
    vstd::arithmetic::div_mod::lemma_fundamental_div_mod(n as int, d as int);
    vstd::arithmetic::div_mod::lemma_mod_bound(n as int, d as int);
    assert(n == q * d + r) by (nonlinear_arith)
        requires
            n == d * q + r,
    ;
    assert(n * c == q * (d * c) + r * c) by (nonlinear_arith)
        requires
            n == q * d + r,
    ;
    assert(r * c < d * c) by (nonlinear_arith)
        requires
            r < d,
            c > 0,
    ;
    assert(d * c > 0) by (nonlinear_arith)
        requires
            d > 0,
            c > 0,
    ;
    assert((2 * (r * c) > d * c) == (2 * r > d)) by (nonlinear_arith)
        requires
            c > 0,
    ;
    lemma_round_from_parts(n * c, d * c, q, r * c);
}

/// The rounded quotient is the one whole number within half a unit of the
/// exact quotient, the lower one where two are: twice its product with `d`
/// lies from `2n - d` up to, but not at, `2n + d`.
pub proof fn lemma_round_is_nearest(n: nat, d: nat)
    requires
        d > 0,
    ensures
        2 * n - d <= 2 * (round_half_down(n, d) * d) < 2 * n + d,
{
    let q = n / d;
    let r = n % d;
    vstd::arithmetic::div_mod::lemma_fundamental_div_mod(n as int, d as int);
    vstd::arithmetic::div_mod::lemma_mod_bound(n as int, d as int);
    assert(q * d == d * q) by (nonlinear_arith);
    assert((q + 1) * d == q * d + d) by (nonlinear_arith);
}

/// No other whole number lies that close: rounding is pinned by the bounds
/// of `lemma_round_is_nearest`.
pub proof fn lemma_nearest_is_round(n: nat, d: nat, u: nat)
    requires
        d > 0,
        2 * n - d <= 2 * (u * d) < 2 * n + d,
    ensures
        u == round_half_down(n, d),
{
    let v = round_half_down(n, d);
    lemma_round_is_nearest(n, d);
    assert(u == v) by (nonlinear_arith)
        requires
            d > 0,
            2 * n - d <= 2 * (u * d) < 2 * n + d,
            2 * n - d <= 2 * (v * d) < 2 * n + d,
    ;
}

/// A larger numerator never rounds to a smaller quotient.
pub proof fn lemma_round_is_monotonic(smaller: nat, larger: nat, d: nat)
    requires
        d > 0,
        smaller <= larger,
    ensures
        round_half_down(smaller, d) <= round_half_down(larger, d),
{
    let u = round_half_down(smaller, d);
    let v = round_half_down(larger, d);
    lemma_round_is_nearest(smaller, d);
    lemma_round_is_nearest(larger, d);
    assert(u <= v) by (nonlinear_arith)
        requires
            d > 0,
            smaller <= larger,
            2 * (u * d) < 2 * smaller + d,
            2 * larger - d <= 2 * (v * d),
    ;
}

/// With at least as many decimal places in the asset as in the amount, the
/// conversion is exact: the numerator times a power of ten.
pub proof fn lemma_exact_units_whole(numerator: nat, scale: nat, decimals: nat)
    requires
        scale <= decimals,
    ensures
        exact_units(numerator, scale, decimals) == numerator * pow10((decimals - scale) as nat),
{
    let e = (decimals - scale) as nat;
    lemma_pow10_adds(e, scale);
    lemma_pow10_positive(scale);
    assert(numerator * (pow10(e) * pow10(scale)) == (numerator * pow10(e)) * pow10(scale) + 0)
        by (nonlinear_arith);
    lemma_round_from_parts(
        numerator * pow10(decimals),
        pow10(scale),
        numerator * pow10(e),
        0,
    );
}

/// With more decimal places in the amount than in the asset, the conversion
/// rounds the numerator over the power of ten by which they differ.
pub proof fn lemma_exact_units_rounded(numerator: nat, scale: nat, decimals: nat)
    requires
        scale > decimals,
    ensures
        exact_units(numerator, scale, decimals) == round_half_down(
            numerator,
            pow10((scale - decimals) as nat),
        ),
{
    let k = (scale - decimals) as nat;
    lemma_pow10_adds(k, decimals);
    lemma_pow10_positive(k);
    lemma_pow10_positive(decimals);
    lemma_round_cancels(numerator, pow10(k), pow10(decimals));
}

/// Base units written as a decimal amount convert back to themselves.
pub proof fn lemma_base_units_round_trip(units: u64, decimals: u8)
    ensures
        base_units(units as nat, decimals as nat, decimals as nat) == units,
{
    lemma_exact_units_whole(units as nat, decimals as nat, decimals as nat);
    assert(pow10(0) == 1);
    assert((units as nat) * 1 == units as nat) by (nonlinear_arith);
}

/// A conversion never credits half a base unit or more beyond the exact
/// amount: twice the base units, in units of `10^-scale`, stay below twice
/// the exact amount plus one base unit.
pub proof fn lemma_base_units_never_over_credit(numerator: nat, scale: nat, decimals: nat)
    ensures
        2 * (base_units(numerator, scale, decimals) * pow10(scale)) < 2 * (numerator * pow10(
            decimals,
        )) + pow10(scale),
{
    let d = pow10(scale);
    let exact = exact_units(numerator, scale, decimals);
    let held = base_units(numerator, scale, decimals);
    lemma_pow10_positive(scale);
    lemma_round_is_nearest(numerator * pow10(decimals), d);
    assert(held * d <= exact * d) by (nonlinear_arith)
        requires
            held <= exact,
    ;
}

/// A larger amount never converts to fewer base units.
pub proof fn lemma_base_units_is_monotonic(smaller: nat, larger: nat, scale: nat, decimals: nat)
    requires
        smaller <= larger,
    ensures
        base_units(smaller, scale, decimals) <= base_units(larger, scale, decimals),
{
    lemma_pow10_positive(scale);
    assert(smaller * pow10(decimals) <= larger * pow10(decimals)) by (nonlinear_arith)
        requires
            smaller <= larger,
    ;
    lemma_round_is_monotonic(smaller * pow10(decimals), larger * pow10(decimals), pow10(scale));
}

/// Converts `numerator / 10^scale` decimal units of an asset with
/// `decimals` decimal places to base units.
pub fn units_of(numerator: u128, scale: u16, decimals: u8) -> (units: u64)
    ensures
        units == base_units(numerator as nat, scale as nat, decimals as nat),
{
    if scale <= decimals as u16 {
        let e: u16 = decimals as u16 - scale;
        proof {
            lemma_exact_units_whole(numerator as nat, scale as nat, decimals as nat);
        }
        let mut acc: u128 = numerator;
        let mut i: u16 = 0;
        proof {
            assert(pow10(0) == 1);
            assert((numerator as nat) * 1 == numerator as nat) by (nonlinear_arith);
        }
        while i < e
            invariant
                i <= e,
                acc == numerator * pow10(i as nat),
                exact_units(numerator as nat, scale as nat, decimals as nat) == numerator * pow10(
                    e as nat,
                ),
            decreases e - i,
        {
            if acc > u64::MAX as u128 {
                proof {
                    lemma_pow10_increases(i as nat, e as nat);
                    assert(numerator * pow10(i as nat) <= numerator * pow10(e as nat))
                        by (nonlinear_arith)
                        requires
                            pow10(i as nat) <= pow10(e as nat),
                    ;
                }
                return u64::MAX;
            }
            proof {
                assert(pow10((i + 1) as nat) == 10 * pow10(i as nat));
                assert(numerator * (10 * pow10(i as nat)) == (numerator * pow10(i as nat)) * 10)
                    by (nonlinear_arith);
            }
            acc = acc * 10;
            i += 1;
        }
        if acc > u64::MAX as u128 {
            u64::MAX
        } else {
            acc as u64
        }
    } else {
        let k: u16 = scale - decimals as u16;
        proof {
            lemma_exact_units_rounded(numerator as nat, scale as nat, decimals as nat);
            lemma_pow10_positive(k as nat);
        }
        // `half` is half of ten to the power `i`.
        let mut half: u128 = 5;
        let mut i: u16 = 1;
        proof {
            assert(pow10(1) == 10 * pow10(0));
            assert(pow10(0) == 1);
        }
        while i < k
            invariant
                1 <= i <= k,
                2 * half == pow10(i as nat),
                exact_units(numerator as nat, scale as nat, decimals as nat) == round_half_down(
                    numerator as nat,
                    pow10(k as nat),
                ),
            decreases k - i,
        {
            if half > numerator / 10 {
                proof {
                    assert(pow10((i + 1) as nat) == 10 * pow10(i as nat));
                    lemma_pow10_increases((i + 1) as nat, k as nat);
                    lemma_round_from_parts(numerator as nat, pow10(k as nat), 0, numerator as nat);
                }
                return 0;
            }
            proof {
                assert(pow10((i + 1) as nat) == 10 * pow10(i as nat));
            }
            half = half * 10;
            i += 1;
        }
        if half > numerator {
            proof {
                lemma_round_from_parts(numerator as nat, pow10(k as nat), 0, numerator as nat);
            }
            return 0;
        }
        let halves: u128 = numerator / half;
        let rest: u128 = numerator % half;
        let whole: u128 = halves / 2;
        let odd: bool = halves % 2 == 1;
        proof {
            let d = pow10(k as nat);
            vstd::arithmetic::div_mod::lemma_fundamental_div_mod(numerator as int, half as int);
            assert(numerator == half * halves + rest);
            if odd {
                assert(halves == 2 * whole + 1);
                assert(numerator == whole * d + (half + rest)) by (nonlinear_arith)
                    requires
                        numerator == half * halves + rest,
                        halves == 2 * whole + 1,
                        d == 2 * half,
                ;
                lemma_round_from_parts(
                    numerator as nat,
                    d,
                    whole as nat,
                    (half + rest) as nat,
                );
            } else {
                assert(halves == 2 * whole);
                assert(numerator == whole * d + rest) by (nonlinear_arith)
                    requires
                        numerator == half * halves + rest,
                        halves == 2 * whole,
                        d == 2 * half,
                ;
                lemma_round_from_parts(numerator as nat, d, whole as nat, rest as nat);
            }
        }
        let rounded: u128 = if odd && rest > 0 {
            whole + 1
        } else {
            whole
        };
        if rounded > u64::MAX as u128 {
            u64::MAX
        } else {
            rounded as u64
        }
    }
}

/// An amount in decimal units: `mantissa / 10^scale`.
#[derive(Debug, Clone, Copy, PartialEq, Eq, Structural)]
pub struct Decimal {
    /// The digits of the amount, read as a whole number.
    pub mantissa: u64,
    /// How many of those digits stand after the decimal point.
    pub scale: u8,
}

impl Decimal {
    /// The base units of this amount in an asset with `decimals` decimal
    /// places.
    pub open spec fn base_units_spec(self, decimals: u8) -> nat {
        base_units(self.mantissa as nat, self.scale as nat, decimals as nat)
    }

    /// The base units, in an asset with `decimals` decimal places, of this
    /// amount multiplied by `rate`.
    pub open spec fn base_units_at_spec(self, rate: Decimal, decimals: u8) -> nat {
        base_units(
            (self.mantissa * rate.mantissa) as nat,
            (self.scale + rate.scale) as nat,
            decimals as nat,
        )
    }

    /// The amount `mantissa / 10^scale`.
    pub fn new(mantissa: u64, scale: u8) -> (amount: Decimal)
        ensures
            amount == (Decimal { mantissa, scale }),
    {
        Decimal { mantissa, scale }
    }

    /// The amount that `units` base units make in an asset with `decimals`
    /// decimal places.
    pub fn from_base_units(units: u64, decimals: u8) -> (amount: Decimal)
        ensures
            amount == (Decimal { mantissa: units, scale: decimals }),
            amount.base_units_spec(decimals) == units,
    {
        proof {
            lemma_base_units_round_trip(units, decimals);
        }
        Decimal { mantissa: units, scale: decimals }
    }

    /// Converts the amount to base units of an asset with `decimals` decimal
    /// places.
    pub fn to_base_units(&self, decimals: u8) -> (units: u64)
        ensures
            units == self.base_units_spec(decimals),
    {
        units_of(self.mantissa as u128, self.scale as u16, decimals)
    }

    /// Converts the amount, multiplied by `rate`, to base units of an asset
    /// with `decimals` decimal places. The product is rounded once, at the
    /// end.
    pub fn to_base_units_at(&self, rate: &Decimal, decimals: u8) -> (units: u64)
        ensures
            units == self.base_units_at_spec(*rate, decimals),
    {
        proof {
            assert(self.mantissa * rate.mantissa <= u64::MAX * u64::MAX) by (nonlinear_arith)
                requires
                    self.mantissa <= u64::MAX,
                    rate.mantissa <= u64::MAX,
            ;
        }
        let numerator: u128 = self.mantissa as u128 * rate.mantissa as u128;
        units_of(numerator, self.scale as u16 + rate.scale as u16, decimals)
    }
}

/// Whether a byte is an ASCII digit.
pub open spec fn is_digit(byte: u8) -> bool {
    48 <= byte <= 57
}

/// Whether every byte is an ASCII digit.
pub open spec fn all_digits(text: Seq<u8>) -> bool {
    forall|i: int| 0 <= i < text.len() ==> is_digit(#[trigger] text[i])
}

/// The number that a string of ASCII digits writes.
pub open spec fn digits_value(digits: Seq<u8>) -> nat
    decreases digits.len(),
{
    if digits.len() == 0 {
        0
    } else {
        (digits_value(digits.drop_last()) * 10 + (digits.last() - 48)) as nat
    }
}

/// Where the first decimal point of `text` stands; the length of `text`
/// where it has none.
pub open spec fn first_point(text: Seq<u8>) -> nat
    decreases text.len(),
{
    if text.len() == 0 || text[0] == 46 {
        0
    } else {
        1 + first_point(text.drop_first())
    }
}

/// The digits of `text` before its first decimal point.
pub open spec fn whole_part(text: Seq<u8>) -> Seq<u8> {
    text.take(first_point(text) as int)
}

/// The digits of `text` after its first decimal point; none where it has no
/// decimal point.
pub open spec fn fraction_part(text: Seq<u8>) -> Seq<u8> {
    if first_point(text) < text.len() {
        text.skip(first_point(text) as int + 1)
    } else {
        Seq::empty()
    }
}

/// Whether `text` writes a decimal amount: one or more digits, and after
/// them, if anything, a decimal point and one or more digits.
pub open spec fn well_written(text: Seq<u8>) -> bool {
    &&& whole_part(text).len() > 0
    &&& all_digits(whole_part(text))
    &&& all_digits(fraction_part(text))
    &&& first_point(text) < text.len() ==> fraction_part(text).len() > 0
}

/// The amount that `text` writes: its digits as the mantissa and the number
/// of digits after the point as the scale. `None` where `text` is not well
/// written, where it has more than 255 digits after the point, or where its
/// digits write a number above `u64::MAX`.
pub open spec fn parse_spec(text: Seq<u8>) -> Option<Decimal> {
    let digits = whole_part(text) + fraction_part(text);
    if well_written(text) && fraction_part(text).len() <= 255 && digits_value(digits) <= u64::MAX {
        Some(
            Decimal {
                mantissa: digits_value(digits) as u64,
                scale: fraction_part(text).len() as u8,
            },
        )
    } else {
        None
    }
}

/// The first decimal point is found by its place: nothing before it is a
/// point, and it is one or the text ends there.
pub proof fn lemma_first_point(text: Seq<u8>, at: nat)
    requires
        at <= text.len(),
        forall|i: int| 0 <= i < at ==> text[i] != 46,
        at < text.len() ==> text[at as int] == 46,
    ensures
        first_point(text) == at,
    decreases text.len(),
{
    if at > 0 {
        let rest = text.drop_first();
        assert forall|i: int| 0 <= i < at - 1 implies rest[i] != 46 by {
            assert(rest[i] == text[i + 1]);
        }
        lemma_first_point(rest, (at - 1) as nat);
    }
}

/// The digits read so far never write more than all the digits do.
pub proof fn lemma_digits_value_grows(digits: Seq<u8>, read: nat)
    requires
        read <= digits.len(),
        all_digits(digits),
    ensures
        digits_value(digits.take(read as int)) <= digits_value(digits),
    decreases digits.len() - read,
{
    if read == digits.len() {
        assert(digits.take(read as int) =~= digits);
    } else {
        lemma_digits_value_grows(digits, read + 1);
        let longer = digits.take(read as int + 1);
        assert(longer.drop_last() =~= digits.take(read as int));
        assert(is_digit(digits[read as int]));
        assert(longer.last() == digits[read as int]);
    }
}

/// Reads `digits[from..to]` onto the number `before`, which the digits
/// `prefix` write. `None` where a byte is no digit or the number passes
/// `u64::MAX`.
fn read_digits(text: &[u8], from: usize, to: usize, before: u64, Ghost(prefix): Ghost<Seq<u8>>) -> (r:
    Option<u64>)
    requires
        from <= to <= text@.len(),
        before == digits_value(prefix),
        all_digits(prefix),
    ensures
        ({
            let digits = text@.subrange(from as int, to as int);
            match r {
                Some(value) => all_digits(digits) && value == digits_value(prefix + digits),
                None => !all_digits(digits) || digits_value(prefix + digits) > u64::MAX,
            }
        }),
{
    let ghost digits = text@.subrange(from as int, to as int);
    let mut value: u64 = before;
    let mut i: usize = from;
    proof {
        assert(prefix + digits.take(0) =~= prefix);
    }
    while i < to
        invariant
            from <= i <= to <= text@.len(),
            digits == text@.subrange(from as int, to as int),
            all_digits(prefix),
            all_digits(digits.take(i - from)),
            value == digits_value(prefix + digits.take(i - from)),
        decreases to - i,
    {
        let byte = text[i];
        if byte < 48 || byte > 57 {
            proof {
                assert(digits[i - from] == byte);
            }
            return None;
        }
        proof {
            let shorter = prefix + digits.take(i - from);
            let longer = prefix + digits.take(i - from + 1);
            assert(longer.drop_last() =~= shorter);
            assert(longer.last() == byte);
            assert(digits_value(longer) == value * 10 + (byte - 48));
            assert forall|j: int| 0 <= j < digits.take(i - from + 1).len() implies is_digit(
                #[trigger] digits.take(i - from + 1)[j],
            ) by {
                if j < i - from {
                    assert(digits.take(i - from)[j] == digits[j]);
                }
            }
            if value * 10 + (byte - 48) > u64::MAX {
                // Whatever follows, if all digits, only makes the number larger.
                if all_digits(digits) {
                    let all = prefix + digits;
                    assert forall|j: int| 0 <= j < all.len() implies is_digit(#[trigger] all[j]) by {
                        if j < prefix.len() {
                            assert(all[j] == prefix[j]);
                        } else {
                            assert(all[j] == digits[j - prefix.len()]);
                        }
                    }
                    assert(all.take(prefix.len() + (i - from + 1)) =~= longer);
                    lemma_digits_value_grows(all, (prefix.len() + (i - from + 1)) as nat);
                }
            }
        }
        let scaled = match value.checked_mul(10) {
            Some(scaled) => scaled,
            None => {
                return None;
            },
        };
        value = match scaled.checked_add((byte - 48) as u64) {
            Some(sum) => sum,
            None => {
                return None;
            },
        };
        i += 1;
    }
    proof {
        assert(digits.take(to - from) =~= digits);
    }
    Some(value)
}

impl Decimal {
    /// Reads an amount written in ASCII: digits, then optionally a decimal
    /// point and more digits. `50` is fifty, `0.5` a half, `50.0` fifty with
    /// one digit after the point. A sign, an exponent, a blank or a missing
    /// digit before or after the point makes the text unreadable, and so do
    /// more than 255 digits after the point and digits that write a number
    /// above `u64::MAX`.
    pub fn parse(text: &[u8]) -> (amount: Option<Decimal>)
        ensures
            amount == parse_spec(text@),
    {
        let mut point: usize = 0;
        while point < text.len() && text[point] != 46
            invariant
                point <= text.len(),
                forall|i: int| 0 <= i < point ==> text@[i] != 46,
            decreases text.len() - point,
        {
            point += 1;
        }
        proof {
            lemma_first_point(text@, point as nat);
            assert(whole_part(text@) =~= text@.subrange(0, point as int));
            assert(Seq::<u8>::empty() + whole_part(text@) =~= whole_part(text@));
        }
        if point == 0 {
            return None;
        }
        let whole = match read_digits(text, 0, point, 0, Ghost(Seq::empty())) {
            Some(whole) => whole,
            None => {
                proof {
                    if well_written(text@) {
                        let all = whole_part(text@) + fraction_part(text@);
                        assert forall|j: int| 0 <= j < all.len() implies is_digit(
                            #[trigger] all[j],
                        ) by {
                            if j < whole_part(text@).len() {
                                assert(all[j] == whole_part(text@)[j]);
                            } else {
                                assert(all[j] == fraction_part(text@)[j - whole_part(text@).len()]);
                            }
                        }
                        assert(all.take(point as int) =~= whole_part(text@));
                        lemma_digits_value_grows(all, point as nat);
                    }
                }
                return None;
            },
        };
        if point == text.len() {
            proof {
                assert(whole_part(text@) + fraction_part(text@) =~= whole_part(text@));
            }
            return Some(Decimal { mantissa: whole, scale: 0 });
        }
        let digits = text.len() - point - 1;
        proof {
            assert(fraction_part(text@) =~= text@.subrange(point + 1, text@.len() as int));
        }
        if digits == 0 || digits > 255 {
            return None;
        }
        match read_digits(text, point + 1, text.len(), whole, Ghost(whole_part(text@))) {
            Some(mantissa) => Some(Decimal { mantissa, scale: digits as u8 }),
            None => None,
        }
    }
}

} // verus!
