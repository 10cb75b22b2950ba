//! Fixed-point decimal numbers and their text form.
//!
//! A [`Decimal`] is an integer mantissa with a count of fractional digits.
//! Its text is plain positional notation: no exponent, no digit grouping, no
//! trailing zeros in the fraction, and no decimal point when the fraction is
//! empty.

use vstd::arithmetic::div_mod::{lemma_breakdown, lemma_div_denominator, lemma_fundamental_div_mod};
use vstd::prelude::*;
use vstd::string::*;

verus! {

/// Ten to the power `k`.
pub open spec fn pow10(k: nat) -> nat
    decreases k,
{
    if k == 0 {
        1
    } else {
        10 * pow10((k - 1) as nat)
    }
}

/// The character that writes the digit `d`.
pub open spec fn digit_char(d: nat) -> char {
    if d == 0 {
        '0'
    } else if d == 1 {
        '1'
    } else if d == 2 {
        '2'
    } else if d == 3 {
        '3'
    } else if d == 4 {
        '4'
    } else if d == 5 {
        '5'
    } else if d == 6 {
        '6'
    } else if d == 7 {
        '7'
    } else if d == 8 {
        '8'
    } else {
        '9'
    }
}

/// The decimal digits of `n`, highest first, without leading zeros.
pub open spec fn nat_text(n: nat) -> Seq<char>
    decreases n,
{
    if n < 10 {
        seq![digit_char(n)]
    } else {
        nat_text(n / 10).push(digit_char(n % 10))
    }
}

/// The `width` lowest decimal digits of `n`, highest first, zeros included.
pub open spec fn low_digits(n: nat, width: nat) -> Seq<char>
    decreases width,
{
    if width == 0 {
        Seq::empty()
    } else {
        low_digits(n / 10, (width - 1) as nat).push(digit_char(n % 10))
    }
}

/// The text of the integer `v`: a minus sign for a negative one, then its digits.
pub open spec fn int_text(v: int) -> Seq<char> {
    if v < 0 {
        seq!['-'] + nat_text((-v) as nat)
    } else {
        nat_text(v as nat)
    }
}

/// The text of `n / 10^scale` for a natural `n`: the integer part, and, unless
/// the fraction is zero, a point and the fraction up to its last nonzero digit.
pub open spec fn fixed_text(n: nat, scale: nat) -> Seq<char>
    decreases scale,
{
    if scale == 0 {
        nat_text(n)
    } else if n % 10 == 0 {
        fixed_text(n / 10, (scale - 1) as nat)
    } else {
        nat_text(n / pow10(scale)) + seq!['.'] + low_digits(n, scale)
    }
}

/// The text of `mantissa / 10^scale`.
pub open spec fn decimal_text(mantissa: int, scale: nat) -> Seq<char> {
    if mantissa < 0 {
        seq!['-'] + fixed_text((-mantissa) as nat, scale)
    } else {
        fixed_text(mantissa as nat, scale)
    }
}

proof fn lemma_pow10_positive(k: nat)
    ensures
        pow10(k) > 0,
    decreases k,
{
    if k > 0 {
        lemma_pow10_positive((k - 1) as nat);
    }
}

/// Digits held lowest first, written highest first.
spec fn digits_text(digits: Seq<u8>) -> Seq<char> {
    Seq::new(digits.len(), |i: int| digit_char(digits[digits.len() - 1 - i] as nat))
}

/// The digits of `n`, or nothing for zero: what is still to be written in front
/// of the digits already taken off `n`.
spec fn leading_text(n: nat) -> Seq<char> {
    if n == 0 {
        Seq::empty()
    } else {
        nat_text(n)
    }
}

proof fn lemma_take_digit(q: nat, digits: Seq<u8>)
    requires
        q > 0,
    ensures
        leading_text(q) + digits_text(digits) == leading_text(q / 10) + digits_text(
            digits.push((q % 10) as u8),
        ),
{
    assert(leading_text(q) == leading_text(q / 10).push(digit_char(q % 10)));
}

proof fn lemma_take_low_digit(q: nat, width: nat, digits: Seq<u8>)
    requires
        width > 0,
    ensures
        low_digits(q, width) + digits_text(digits) == low_digits(q / 10, (width - 1) as nat)
            + digits_text(digits.push((q % 10) as u8)),
{
}

proof fn lemma_shift_once(n: nat, k: nat)
    ensures
        (n / pow10(k)) / 10 == n / pow10(k + 1),
{
    lemma_pow10_positive(k);
    lemma_div_denominator(n as int, pow10(k) as int, 10);
    assert(pow10(k) * 10 == 10 * pow10(k)) by (nonlinear_arith);
}

/// The one-character text of the digit `d`.
fn digit_str(d: u8) -> (s: &'static str)
    requires
        d < 10,
    ensures
        s@ == seq![digit_char(d as nat)],
{
    proof {
        reveal_strlit("0");
        reveal_strlit("1");
        reveal_strlit("2");
        reveal_strlit("3");
        reveal_strlit("4");
        reveal_strlit("5");
        reveal_strlit("6");
        reveal_strlit("7");
        reveal_strlit("8");
        reveal_strlit("9");
    }
    if d == 0 {
        "0"
    } else if d == 1 {
        "1"
    } else if d == 2 {
        "2"
    } else if d == 3 {
        "3"
    } else if d == 4 {
        "4"
    } else if d == 5 {
        "5"
    } else if d == 6 {
        "6"
    } else if d == 7 {
        "7"
    } else if d == 8 {
        "8"
    } else {
        "9"
    }
}

/// Writes digits that were collected lowest first.
fn append_digits(out: &mut String, digits: &Vec<u8>)
    requires
        forall|i: int| 0 <= i < digits.len() ==> digits[i] < 10,
    ensures
        final(out)@ == old(out)@ + digits_text(digits@),
{
    let ghost start = out@;
    let ghost text = digits_text(digits@);
    let mut left: usize = digits.len();
    while left > 0
        invariant
            left <= digits.len(),
            text == digits_text(digits@),
            forall|i: int| 0 <= i < digits.len() ==> digits[i] < 10,
            out@ == start + text.subrange(0, digits.len() - left),
        decreases left,
    {
        left = left - 1;
        out.append(digit_str(digits[left]));
    }
}

/// Appends the digits of `n` to `out`.
pub fn append_nat(out: &mut String, n: u128)
    ensures
        final(out)@ == old(out)@ + nat_text(n as nat),
{
    let mut digits: Vec<u8> = Vec::new();
    let mut q: u128 = n;
    if q == 0 {
        digits.push(0);
    } else {
        while q > 0
            invariant
                forall|i: int| 0 <= i < digits.len() ==> digits[i] < 10,
                leading_text(q as nat) + digits_text(digits@) == nat_text(n as nat),
            decreases q,
        {
            proof {
                lemma_take_digit(q as nat, digits@);
            }
            digits.push((q % 10) as u8);
            q = q / 10;
        }
    }
    append_digits(out, &digits);
}

/// Appends the text of the integer `v` to `out`.
pub fn append_int(out: &mut String, v: i64)
    ensures
        final(out)@ == old(out)@ + int_text(v as int),
{
    if v < 0 {
        proof {
            reveal_strlit("-");
        }
        out.append("-");
        let magnitude: u128 = (-(v as i128)) as u128;
        append_nat(out, magnitude);
    } else {
        append_nat(out, v as u128);
    }
}

/// Appends the text of `n / 10^scale` to `out`.
fn append_fixed(out: &mut String, n: u128, scale: u32)
    ensures
        final(out)@ == old(out)@ + fixed_text(n as nat, scale as nat),
{
    let mut m: u128 = n;
    let mut s: u32 = scale;
    while s > 0 && m % 10 == 0
        invariant
            fixed_text(m as nat, s as nat) == fixed_text(n as nat, scale as nat),
        decreases s,
    {
        m = m / 10;
        s = s - 1;
    }
    if s == 0 {
        append_nat(out, m);
        return ;
    }
    let mut digits: Vec<u8> = Vec::new();
    let mut q: u128 = m;
    let mut taken: u32 = 0;
    assert(pow10(0) == 1);
    while taken < s
        invariant
            taken <= s,
            q as nat == (m as nat) / pow10(taken as nat),
            forall|i: int| 0 <= i < digits.len() ==> digits[i] < 10,
            low_digits(q as nat, (s - taken) as nat) + digits_text(digits@) == low_digits(
                m as nat,
                s as nat,
            ),
        decreases s - taken,
    {
        proof {
            lemma_take_low_digit(q as nat, (s - taken) as nat, digits@);
            lemma_shift_once(m as nat, taken as nat);
        }
        digits.push((q % 10) as u8);
        q = q / 10;
        taken = taken + 1;
    }
    append_nat(out, q);
    proof {
        reveal_strlit(".");
    }
    out.append(".");
    append_digits(out, &digits);
}

/// A fixed-point decimal number: `mantissa / 10^scale`.
#[derive(Clone, Copy, Debug)]
pub struct Decimal {
    pub mantissa: i128,
    pub scale: u32,
}

impl Decimal {
    /// The text of this number.
    pub open spec fn text(&self) -> Seq<char> {
        decimal_text(self.mantissa as int, self.scale as nat)
    }

    /// The number `mantissa / 10^scale`.
    pub fn new(mantissa: i128, scale: u32) -> (d: Decimal)
        ensures
            d.mantissa == mantissa,
            d.scale == scale,
    {
        Decimal { mantissa, scale }
    }

    /// The whole number `value`.
    pub fn from_int(value: i64) -> (d: Decimal)
        ensures
            d.mantissa == value,
            d.scale == 0,
    {
        Decimal { mantissa: value as i128, scale: 0 }
    }

    /// Appends the text of this number to `out`.
    pub fn append_to(&self, out: &mut String)
        ensures
            final(out)@ == old(out)@ + self.text(),
    {
        if self.mantissa < 0 {
            proof {
                reveal_strlit("-");
            }
            out.append("-");
            let magnitude: u128 = if self.mantissa == i128::MIN {
                0x8000_0000_0000_0000_0000_0000_0000_0000u128
            } else {
                (-self.mantissa) as u128
            };
            append_fixed(out, magnitude, self.scale);
        } else {
            append_fixed(out, self.mantissa as u128, self.scale);
        }
    }

    /// The text of this number as a string of its own.
    pub fn to_text(&self) -> (s: String)
        ensures
            s@ == self.text(),
    {
        let mut s = String::new();
        self.append_to(&mut s);
        s
    }
}

proof fn lemma_pow10_adds(a: nat, b: nat)
    ensures
        pow10(a + b) == pow10(a) * pow10(b),
    decreases a,
{
    if a == 0 {
        assert(pow10(0) * pow10(b) == pow10(b)) by (nonlinear_arith)
            requires
                pow10(0) == 1,
        ;
    } else {
        lemma_pow10_adds((a - 1) as nat, b);
        let rest = pow10((a - 1) as nat);
        assert(10 * (rest * pow10(b)) == (10 * rest) * pow10(b)) by (nonlinear_arith);
    }
}

/// A number with more fractional digits than another, and a nonzero last
/// one, is not the same value.
proof fn lemma_longer_fraction_differs(short: nat, short_scale: nat, long: nat, long_scale: nat)
    requires
        short_scale < long_scale,
        long % 10 != 0,
    ensures
        short * pow10(long_scale) != long * pow10(short_scale),
{
    let gap = (long_scale - short_scale) as nat;
    lemma_pow10_adds(short_scale, gap);
    lemma_pow10_positive(short_scale);
    let unit = pow10(short_scale);
    let tail = pow10((gap - 1) as nat);
    if short * pow10(long_scale) == long * unit {
        assert(short * (unit * (10 * tail)) == (10 * (short * tail)) * unit)
            by (nonlinear_arith);
        assert(long == 10 * (short * tail)) by (nonlinear_arith)
            requires
                (10 * (short * tail)) * unit == long * unit,
                unit > 0,
        ;
    }
}

proof fn lemma_fixed_text_of_value(n1: nat, s1: nat, n2: nat, s2: nat)
    requires
        n1 * pow10(s2) == n2 * pow10(s1),
    ensures
        fixed_text(n1, s1) == fixed_text(n2, s2),
    decreases s1 + s2,
{
    lemma_pow10_positive(s1);
    lemma_pow10_positive(s2);
    if s1 > 0 && n1 % 10 == 0 {
        let less = pow10((s1 - 1) as nat);
        assert((n1 / 10) * pow10(s2) == n2 * less) by (nonlinear_arith)
            requires
                n1 * pow10(s2) == n2 * pow10(s1),
                n1 == 10 * (n1 / 10),
                pow10(s1) == 10 * less,
        ;
        lemma_fixed_text_of_value(n1 / 10, (s1 - 1) as nat, n2, s2);
    } else if s2 > 0 && n2 % 10 == 0 {
        let less = pow10((s2 - 1) as nat);
        assert(n1 * less == (n2 / 10) * pow10(s1)) by (nonlinear_arith)
            requires
                n1 * pow10(s2) == n2 * pow10(s1),
                n2 == 10 * (n2 / 10),
                pow10(s2) == 10 * less,
        ;
        lemma_fixed_text_of_value(n1, s1, n2 / 10, (s2 - 1) as nat);
    } else if s1 < s2 {
        lemma_longer_fraction_differs(n1, s1, n2, s2);
    } else if s2 < s1 {
        lemma_longer_fraction_differs(n2, s2, n1, s1);
    } else {
        assert(n1 == n2) by (nonlinear_arith)
            requires
                n1 * pow10(s1) == n2 * pow10(s1),
                pow10(s1) > 0,
        ;
    }
}

/// The text is stable: two ways of writing one value, `m1 / 10^s1` and
/// `m2 / 10^s2`, have the same text.
pub proof fn law_equal_values_equal_text(m1: int, s1: nat, m2: int, s2: nat)
    requires
        m1 * pow10(s2) == m2 * pow10(s1),
    ensures
        decimal_text(m1, s1) == decimal_text(m2, s2),
{
    lemma_pow10_positive(s1);
    lemma_pow10_positive(s2);
    let ten1 = pow10(s1) as int;
    let ten2 = pow10(s2) as int;
    assert(m1 < 0 <==> m2 < 0) by (nonlinear_arith)
        requires
            m1 * ten2 == m2 * ten1,
            ten1 > 0,
            ten2 > 0,
    ;
    if m1 < 0 {
        assert((-m1) * ten2 == (-m2) * ten1) by (nonlinear_arith)
            requires
                m1 * ten2 == m2 * ten1,
        ;
        lemma_fixed_text_of_value((-m1) as nat, s1, (-m2) as nat, s2);
    } else {
        lemma_fixed_text_of_value(m1 as nat, s1, m2 as nat, s2);
    }
}

/// Whether `c` writes a digit.
spec fn is_digit(c: char) -> bool {
    c == '0' || c == '1' || c == '2' || c == '3' || c == '4' || c == '5' || c == '6' || c == '7'
        || c == '8' || c == '9'
}

proof fn lemma_nat_text_is_digits(n: nat)
    ensures
        nat_text(n).len() >= 1,
        n >= 10 ==> nat_text(n).len() >= 2,
        forall|i: int| 0 <= i < nat_text(n).len() ==> is_digit(#[trigger] nat_text(n)[i]),
    decreases n,
{
    if n >= 10 {
        lemma_nat_text_is_digits(n / 10);
    }
}

proof fn lemma_low_digits_is_digits(n: nat, width: nat)
    ensures
        low_digits(n, width).len() == width,
        forall|i: int| 0 <= i < width ==> is_digit(#[trigger] low_digits(n, width)[i]),
    decreases width,
{
    if width > 0 {
        lemma_low_digits_is_digits(n / 10, (width - 1) as nat);
    }
}

proof fn lemma_fixed_text_starts_with_digit(n: nat, scale: nat)
    ensures
        fixed_text(n, scale).len() >= 1,
        is_digit(fixed_text(n, scale)[0]),
    decreases scale,
{
    if scale == 0 {
        lemma_nat_text_is_digits(n);
    } else if n % 10 == 0 {
        lemma_fixed_text_starts_with_digit(n / 10, (scale - 1) as nat);
    } else {
        lemma_nat_text_is_digits(n / pow10(scale));
    }
}

proof fn lemma_nat_text_tells_number(a: nat, b: nat)
    requires
        nat_text(a) == nat_text(b),
    ensures
        a == b,
    decreases a,
{
    lemma_nat_text_is_digits(a);
    lemma_nat_text_is_digits(b);
    if a < 10 {
        assert(nat_text(a)[0] == digit_char(a));
        assert(nat_text(b)[0] == digit_char(b));
    } else {
        let front_a = nat_text(a / 10);
        let front_b = nat_text(b / 10);
        let last_a = digit_char(a % 10);
        let last_b = digit_char(b % 10);
        assert(front_a.push(last_a).last() == last_a);
        assert(front_b.push(last_b).last() == last_b);
        assert(front_a.push(last_a).drop_last() =~= front_a);
        assert(front_b.push(last_b).drop_last() =~= front_b);
        lemma_nat_text_tells_number(a / 10, b / 10);
    }
}

proof fn lemma_low_digits_tell_remainder(a: nat, b: nat, width: nat)
    requires
        low_digits(a, width) == low_digits(b, width),
    ensures
        a % pow10(width) == b % pow10(width),
    decreases width,
{
    if width > 0 {
        let less = (width - 1) as nat;
        let front_a = low_digits(a / 10, less);
        let front_b = low_digits(b / 10, less);
        let last_a = digit_char(a % 10);
        let last_b = digit_char(b % 10);
        assert(front_a.push(last_a).last() == last_a);
        assert(front_b.push(last_b).last() == last_b);
        assert(front_a.push(last_a).drop_last() =~= front_a);
        assert(front_b.push(last_b).drop_last() =~= front_b);
        lemma_low_digits_tell_remainder(a / 10, b / 10, less);
        lemma_pow10_positive(less);
        lemma_breakdown(a as int, 10, pow10(less) as int);
        lemma_breakdown(b as int, 10, pow10(less) as int);
    }
}

/// Two texts with a point, each a whole part of digits and a fraction, are
/// the same text only if whole part and fraction are.
proof fn lemma_point_splits(
    whole1: Seq<char>,
    frac1: Seq<char>,
    whole2: Seq<char>,
    frac2: Seq<char>,
)
    requires
        forall|i: int| 0 <= i < whole1.len() ==> is_digit(#[trigger] whole1[i]),
        forall|i: int| 0 <= i < whole2.len() ==> is_digit(#[trigger] whole2[i]),
        whole1 + seq!['.'] + frac1 == whole2 + seq!['.'] + frac2,
    ensures
        whole1 == whole2,
        frac1 == frac2,
{
    let text1 = whole1 + seq!['.'] + frac1;
    let text2 = whole2 + seq!['.'] + frac2;
    let at = whole1.len() as int;
    assert(whole1.len() == whole2.len()) by {
        if whole1.len() < whole2.len() {
            assert(text2[at] == whole2[at]);
        }
        if whole2.len() < whole1.len() {
            assert(text1[whole2.len() as int] == whole1[whole2.len() as int]);
        }
    }
    assert(whole1 =~= text1.subrange(0, at));
    assert(whole2 =~= text2.subrange(0, at));
    assert(frac1 =~= text1.subrange(at + 1, text1.len() as int));
    assert(frac2 =~= text2.subrange(at + 1, text2.len() as int));
}

proof fn lemma_fixed_text_tells_value(n1: nat, s1: nat, n2: nat, s2: nat)
    requires
        fixed_text(n1, s1) == fixed_text(n2, s2),
    ensures
        n1 * pow10(s2) == n2 * pow10(s1),
    decreases s1 + s2,
{
    if s1 > 0 && n1 % 10 == 0 {
        let less = pow10((s1 - 1) as nat);
        lemma_fixed_text_tells_value(n1 / 10, (s1 - 1) as nat, n2, s2);
        assert(n1 * pow10(s2) == n2 * pow10(s1)) by (nonlinear_arith)
            requires
                (n1 / 10) * pow10(s2) == n2 * less,
                n1 == 10 * (n1 / 10),
                pow10(s1) == 10 * less,
        ;
    } else if s2 > 0 && n2 % 10 == 0 {
        let less = pow10((s2 - 1) as nat);
        lemma_fixed_text_tells_value(n1, s1, n2 / 10, (s2 - 1) as nat);
        assert(n1 * pow10(s2) == n2 * pow10(s1)) by (nonlinear_arith)
            requires
                n1 * less == (n2 / 10) * pow10(s1),
                n2 == 10 * (n2 / 10),
                pow10(s2) == 10 * less,
        ;
    } else if s1 == 0 && s2 == 0 {
        lemma_nat_text_tells_number(n1, n2);
    } else if s1 == 0 {
        let whole = nat_text(n2 / pow10(s2));
        lemma_nat_text_is_digits(n1);
        lemma_nat_text_is_digits(n2 / pow10(s2));
        assert(fixed_text(n2, s2)[whole.len() as int] == '.');
    } else if s2 == 0 {
        let whole = nat_text(n1 / pow10(s1));
        lemma_nat_text_is_digits(n2);
        lemma_nat_text_is_digits(n1 / pow10(s1));
        assert(fixed_text(n1, s1)[whole.len() as int] == '.');
    } else {
        lemma_nat_text_is_digits(n1 / pow10(s1));
        lemma_nat_text_is_digits(n2 / pow10(s2));
        lemma_point_splits(
            nat_text(n1 / pow10(s1)),
            low_digits(n1, s1),
            nat_text(n2 / pow10(s2)),
            low_digits(n2, s2),
        );
        lemma_low_digits_is_digits(n1, s1);
        lemma_low_digits_is_digits(n2, s2);
        lemma_nat_text_tells_number(n1 / pow10(s1), n2 / pow10(s2));
        lemma_low_digits_tell_remainder(n1, n2, s1);
        lemma_pow10_positive(s1);
        lemma_fundamental_div_mod(n1 as int, pow10(s1) as int);
        lemma_fundamental_div_mod(n2 as int, pow10(s1) as int);
    }
}

/// The text loses nothing: two numbers with the same text, `m1 / 10^s1`
/// and `m2 / 10^s2`, are the same value.
pub proof fn law_equal_text_equal_values(m1: int, s1: nat, m2: int, s2: nat)
    requires
        decimal_text(m1, s1) == decimal_text(m2, s2),
    ensures
        m1 * pow10(s2) == m2 * pow10(s1),
{
    let text1 = decimal_text(m1, s1);
    let text2 = decimal_text(m2, s2);
    let size1 = if m1 < 0 {
        (-m1) as nat
    } else {
        m1 as nat
    };
    let size2 = if m2 < 0 {
        (-m2) as nat
    } else {
        m2 as nat
    };
    lemma_fixed_text_starts_with_digit(size1, s1);
    lemma_fixed_text_starts_with_digit(size2, s2);
    assert(m1 < 0 <==> m2 < 0) by {
        assert(m1 < 0 <==> text1[0] == '-');
        assert(m2 < 0 <==> text2[0] == '-');
    }
    if m1 < 0 {
        assert(fixed_text(size1, s1) =~= text1.subrange(1, text1.len() as int));
        assert(fixed_text(size2, s2) =~= text2.subrange(1, text2.len() as int));
    }
    lemma_fixed_text_tells_value(size1, s1, size2, s2);
    assert(m1 * pow10(s2) == m2 * pow10(s1)) by (nonlinear_arith)
        requires
            size1 * pow10(s2) == size2 * pow10(s1),
            m1 < 0 <==> m2 < 0,
            size1 == if m1 < 0 {
                -m1
            } else {
                m1
            },
            size2 == if m2 < 0 {
                -m2
            } else {
                m2
            },
    ;
}

} // verus!
