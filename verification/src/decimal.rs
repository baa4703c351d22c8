//! The exact decimal scalar that every indicator computes with.
//!
//! A [`Dec`] is the value `m / 10^s` for a 96-bit signed mantissa `m` and a
//! scale `s` of at most 28 fractional digits. The arithmetic itself is done
//! by the host decimal library; each operation is exposed here through one
//! trusted function whose contract states what that library's source shows.
//! Results that would overflow the representable range are reported as
//! `None` rather than panicking.

use rust_decimal::MathematicalOps;
use vstd::prelude::*;

verus! {

/// Exact decimal scalar: the value `mantissa / 10^scale`.
#[derive(Clone, Copy, Debug)]
pub struct Dec {
    mantissa: i128,
    scale: u32,
}

/// Mantissas are confined to 96 bits: `|m| < 2^96`.
pub open spec fn in_mantissa_range(m: int) -> bool {
    -0x1000000000000000000000000 < m < 0x1000000000000000000000000
}

/// `10^n`.
pub open spec fn pow10(n: nat) -> int
    decreases n,
{
    if n == 0 {
        1
    } else {
        10 * pow10((n - 1) as nat)
    }
}

impl Dec {
    /// Every decimal value in the running program obeys these bounds.
    #[verifier::type_invariant]
    spec fn inv(self) -> bool {
        in_mantissa_range(self.mantissa as int) && self.scale <= 28
    }

    /// The signed mantissa, as a mathematical integer.
    pub closed spec fn m(self) -> int {
        self.mantissa as int
    }

    /// The scale: the number of fractional digits.
    pub closed spec fn s(self) -> nat {
        self.scale as nat
    }

    /// The decimal with the given mantissa and scale.
    pub closed spec fn from_spec(m: int, s: int) -> Dec {
        Dec { mantissa: m as i128, scale: s as u32 }
    }

    /// Builds the decimal `m / 10^scale` from a small mantissa.
    pub fn new(m: i64, scale: u32) -> (r: Dec)
        requires
            scale <= 28,
        ensures
            r == Dec::from_spec(m as int, scale as int),
            r.m() == m as int,
            r.s() == scale as nat,
    {
        Dec { mantissa: m as i128, scale }
    }

    /// Builds a decimal from a full-width mantissa, refusing one that is
    /// out of the representable range.
    pub fn from_parts(m: i128, scale: u32) -> (r: Option<Dec>)
        ensures
            (in_mantissa_range(m as int) && scale <= 28) <==> r is Some,
            r matches Some(v) ==> v == Dec::from_spec(m as int, scale as int) && v.m() == m as int
                && v.s() == scale as nat,
    {
        if scale <= 28 && -0x1000000000000000000000000i128 < m && m < 0x1000000000000000000000000i128 {
            Some(Dec { mantissa: m, scale })
        } else {
            None
        }
    }

    /// The integer `n` as a decimal with scale zero.
    pub fn from_usize(n: usize) -> (r: Dec)
        ensures
            r == Dec::from_spec(n as int, 0),
            r.m() == n as int,
            r.s() == 0,
    {
        Dec { mantissa: n as i128, scale: 0 }
    }

    /// The integer `n + 1` as a decimal with scale zero, computed without
    /// any risk of machine overflow.
    pub fn from_usize_succ(n: usize) -> (r: Dec)
        ensures
            r == Dec::from_spec(n as int + 1, 0),
            r.m() == n as int + 1,
            r.s() == 0,
    {
        Dec { mantissa: n as i128 + 1, scale: 0 }
    }

    /// Hands the mantissa and scale back out, for callers that move values
    /// into another representation.
    pub fn to_parts(&self) -> (r: (i128, u32))
        ensures
            r.0 as int == self.m(),
            r.1 as nat == self.s(),
    {
        (self.mantissa, self.scale)
    }

    /// The absolute value: the mantissa loses its sign, the scale is kept.
    pub closed spec fn abs_spec(self) -> Dec {
        if self.mantissa < 0 {
            Dec { mantissa: (-(self.mantissa as int)) as i128, scale: self.scale }
        } else {
            self
        }
    }

    /// The absolute value: the mantissa loses its sign, the scale is kept.
    pub fn abs(&self) -> (r: Dec)
        ensures
            r == self.abs_spec(),
            r.m() == if self.m() < 0 {
                -self.m()
            } else {
                self.m()
            },
            r.s() == self.s(),
    {
        proof {
            use_type_invariant(self);
        }
        if self.mantissa < 0 {
            Dec { mantissa: -self.mantissa, scale: self.scale }
        } else {
            Dec { mantissa: self.mantissa, scale: self.scale }
        }
    }
}

/// The character for one decimal digit.
pub open spec fn dec_digit(d: nat) -> char {
    if d == 0 {
        '0'
    } else if d == 1 {
        '1'
    } else if d == 2 {
        '2'
    } else if d == 3 {
        '3'
    } else if d == 4 {
        '4'
    } else if d == 5 {
        '5'
    } else if d == 6 {
        '6'
    } else if d == 7 {
        '7'
    } else if d == 8 {
        '8'
    } else {
        '9'
    }
}

/// The decimal digits of `n`, most significant first; a lone zero for 0.
pub open spec fn digits_of(n: nat) -> Seq<char>
    decreases n,
{
    if n < 10 {
        seq![dec_digit(n)]
    } else {
        digits_of(n / 10).push(dec_digit(n % 10))
    }
}

/// The low `width` decimal digits of `n`, zero-padded on the left.
pub open spec fn padded_digits_of(n: nat, width: nat) -> Seq<char>
    decreases width,
{
    if width == 0 {
        Seq::empty()
    } else {
        padded_digits_of(n / 10, (width - 1) as nat).push(dec_digit(n % 10))
    }
}

/// How a decimal value is written out: an optional minus sign, the
/// integer digits, and, for a positive scale, a point followed by exactly
/// `scale` fractional digits, trailing zeros kept.
pub open spec fn text_of(d: Dec) -> Seq<char> {
    let mag = (if d.m() < 0 {
        -d.m()
    } else {
        d.m()
    }) as nat;
    let unit = pow10(d.s()) as nat;
    let sign: Seq<char> = if d.m() < 0 {
        seq!['-']
    } else {
        Seq::empty()
    };
    if d.s() == 0 {
        sign + digits_of(mag)
    } else {
        sign + digits_of(mag / unit) + seq!['.'] + padded_digits_of(mag % unit, d.s())
    }
}

/// One decimal digit as text.
fn digit_str(d: usize) -> (s: &'static str)
    requires
        d < 10,
    ensures
        s@ == seq![dec_digit(d as nat)],
{
    proof {
        reveal_strlit("0");
        reveal_strlit("1");
        reveal_strlit("2");
        reveal_strlit("3");
        reveal_strlit("4");
        reveal_strlit("5");
        reveal_strlit("6");
        reveal_strlit("7");
        reveal_strlit("8");
        reveal_strlit("9");
        assert("0"@ =~= seq!['0']);
        assert("1"@ =~= seq!['1']);
        assert("2"@ =~= seq!['2']);
        assert("3"@ =~= seq!['3']);
        assert("4"@ =~= seq!['4']);
        assert("5"@ =~= seq!['5']);
        assert("6"@ =~= seq!['6']);
        assert("7"@ =~= seq!['7']);
        assert("8"@ =~= seq!['8']);
        assert("9"@ =~= seq!['9']);
    }
    match d {
        0 => "0",
        1 => "1",
        2 => "2",
        3 => "3",
        4 => "4",
        5 => "5",
        6 => "6",
        7 => "7",
        8 => "8",
        _ => "9",
    }
}

/// Writes an integer out in decimal digits.
pub fn format_usize(n: usize) -> (s: String)
    ensures
        s@ == digits_of(n as nat),
    decreases n,
{
    if n < 10 {
        String::from_str(digit_str(n))
    } else {
        let prefix = format_usize(n / 10);
        proof {
            assert(digits_of(n as nat) =~= digits_of(n as nat / 10).push(
                dec_digit(n as nat % 10),
            ));
            assert(digits_of(n as nat / 10).push(dec_digit(n as nat % 10)) =~= digits_of(
                n as nat / 10,
            ) + seq![dec_digit(n as nat % 10)]);
        }
        prefix.concat(digit_str(n % 10))
    }
}

/// `a < b` as rationals: `a.m / 10^a.s < b.m / 10^b.s`, cross-multiplied.
pub open spec fn lt_num(a: Dec, b: Dec) -> bool {
    a.m() * pow10(b.s()) < b.m() * pow10(a.s())
}

/// `a <= b` as rationals.
pub open spec fn le_num(a: Dec, b: Dec) -> bool {
    !lt_num(b, a)
}

/// `a == b` as rationals; distinct representations of one value are equal.
pub open spec fn eq_num(a: Dec, b: Dec) -> bool {
    a.m() * pow10(b.s()) == b.m() * pow10(a.s())
}

/// The common scale that addition and subtraction align to.
pub open spec fn common_scale(a: Dec, b: Dec) -> nat {
    if a.s() >= b.s() {
        a.s()
    } else {
        b.s()
    }
}

/// The mantissa of `a` rescaled to a scale of at least `a.s()`.
pub open spec fn rescaled(a: Dec, scale: nat) -> int {
    a.m() * pow10((scale - a.s()) as nat)
}

/// The exact mantissa of `a + b` at the common scale.
pub open spec fn sum_aligned(a: Dec, b: Dec) -> int {
    rescaled(a, common_scale(a, b)) + rescaled(b, common_scale(a, b))
}

/// The exact mantissa of `a - b` at the common scale.
pub open spec fn diff_aligned(a: Dec, b: Dec) -> int {
    rescaled(a, common_scale(a, b)) - rescaled(b, common_scale(a, b))
}

/// What the host library's checked addition returns: `Some` of the rounded
/// sum, or `None` when the sum is out of range.
pub uninterp spec fn add_of(a: Dec, b: Dec) -> Option<Dec>;

/// What the host library's checked subtraction returns.
pub uninterp spec fn sub_of(a: Dec, b: Dec) -> Option<Dec>;

/// What the host library's checked multiplication returns.
pub uninterp spec fn mul_of(a: Dec, b: Dec) -> Option<Dec>;

/// What the host library's checked division returns: `None` on a zero
/// divisor or when the quotient is out of range.
pub uninterp spec fn div_of(a: Dec, b: Dec) -> Option<Dec>;

/// What the host library's square root returns.
pub uninterp spec fn sqrt_of(a: Dec) -> Option<Dec>;

/// Relies on rust_decimal's `Decimal::checked_add`: adding zero returns the
/// other operand unchanged; otherwise, whenever the sum of the mantissas
/// aligned to the larger scale still fits in 96 bits, the result is exactly
/// that sum at that scale. Adding two non-negative values keeps the sign,
/// since same-sign magnitudes are added. Out-of-range results give `None`.
#[verifier::external_body]
pub(crate) fn dec_add(a: Dec, b: Dec) -> (r: Option<Dec>)
    ensures
        r == add_of(a, b),
        a.m() == 0 ==> r == Some(b),
        a.m() != 0 && b.m() == 0 ==> r == Some(a),
        a.m() >= 0 && b.m() >= 0 && r is Some ==> r->Some_0.m() >= 0,
        a.m() != 0 && b.m() != 0 && in_mantissa_range(sum_aligned(a, b)) ==> r is Some && r->Some_0.m() == sum_aligned(a, b) && r->Some_0.s() == common_scale(a, b),
{
    let x = rust_decimal::Decimal::from_i128_with_scale(a.mantissa, a.scale);
    let y = rust_decimal::Decimal::from_i128_with_scale(b.mantissa, b.scale);
    x.checked_add(y).map(|d| Dec { mantissa: d.mantissa(), scale: d.scale() })
}

/// Relies on rust_decimal's `Decimal::checked_sub`: subtracting from zero
/// negates the operand and keeps its scale; subtracting zero returns the
/// operand unchanged; otherwise, whenever the difference of the mantissas
/// aligned to the larger scale still fits in 96 bits, the result is exactly
/// that difference at that scale. Out-of-range results give `None`.
#[verifier::external_body]
pub(crate) fn dec_sub(a: Dec, b: Dec) -> (r: Option<Dec>)
    ensures
        r == sub_of(a, b),
        a.m() == 0 ==> r is Some && r->Some_0.m() == -b.m() && r->Some_0.s() == b.s(),
        a.m() != 0 && b.m() == 0 ==> r == Some(a),
        a.m() != 0 && b.m() != 0 && in_mantissa_range(diff_aligned(a, b)) ==> r is Some && r->Some_0.m() == diff_aligned(a, b) && r->Some_0.s() == common_scale(a, b),
{
    let x = rust_decimal::Decimal::from_i128_with_scale(a.mantissa, a.scale);
    let y = rust_decimal::Decimal::from_i128_with_scale(b.mantissa, b.scale);
    x.checked_sub(y).map(|d| Dec { mantissa: d.mantissa(), scale: d.scale() })
}

/// Relies on rust_decimal's `Decimal::checked_mul`: the product, rounded to
/// the representable precision, or `None` when it is out of range. A zero
/// operand short-circuits to the canonical zero.
#[verifier::external_body]
pub(crate) fn dec_mul(a: Dec, b: Dec) -> (r: Option<Dec>)
    ensures
        r == mul_of(a, b),
        a.m() == 0 || b.m() == 0 ==> r == Some(Dec::from_spec(0, 0)),
{
    let x = rust_decimal::Decimal::from_i128_with_scale(a.mantissa, a.scale);
    let y = rust_decimal::Decimal::from_i128_with_scale(b.mantissa, b.scale);
    x.checked_mul(y).map(|d| Dec { mantissa: d.mantissa(), scale: d.scale() })
}

/// Relies on rust_decimal's `Decimal::checked_div`: `None` exactly on a
/// zero divisor or an out-of-range quotient; a zero dividend gives the
/// canonical zero; a positive integer divisor cannot overflow, since the
/// quotient is then no larger than the dividend. The quotient's sign is
/// the exclusive-or of the operands' signs, dividing by the integer one
/// returns the dividend unchanged, and dividing a nonzero value by
/// itself gives exactly one.
#[verifier::external_body]
pub(crate) fn dec_div(a: Dec, b: Dec) -> (r: Option<Dec>)
    ensures
        r == div_of(a, b),
        b.m() == 0 ==> r is None,
        b.m() != 0 && a.m() == 0 ==> r is Some && r->Some_0.m() == 0 && r->Some_0.s() == 0,
        b.s() == 0 && b.m() >= 1 ==> r is Some,
        a.m() >= 0 && b.m() > 0 && r is Some ==> r->Some_0.m() >= 0,
        a.m() != 0 && b.m() == 1 && b.s() == 0 ==> r == Some(a),
        a == b && a.m() != 0 ==> r == Some(Dec::from_spec(1, 0)),
{
    let x = rust_decimal::Decimal::from_i128_with_scale(a.mantissa, a.scale);
    let y = rust_decimal::Decimal::from_i128_with_scale(b.mantissa, b.scale);
    x.checked_div(y).map(|d| Dec { mantissa: d.mantissa(), scale: d.scale() })
}

/// Relies on rust_decimal's `MathematicalOps::sqrt`: `None` for every
/// negative argument, the canonical zero for zero, and a non-negative
/// root otherwise. The source computes the root by an iteration whose
/// convergence it guards rather than establishes, so no more than that
/// is assumed of when a value comes back.
#[verifier::external_body]
pub(crate) fn dec_sqrt(a: Dec) -> (r: Option<Dec>)
    ensures
        r == sqrt_of(a),
        a.m() < 0 ==> r is None,
        a.m() == 0 ==> r == Some(Dec::from_spec(0, 0)),
        r matches Some(v) ==> v.m() >= 0,
{
    let x = rust_decimal::Decimal::from_i128_with_scale(a.mantissa, a.scale);
    x.sqrt().map(|d| Dec { mantissa: d.mantissa(), scale: d.scale() })
}

/// Relies on rust_decimal's `Ord` for `Decimal`, which orders numerically.
#[verifier::external_body]
pub(crate) fn dec_lt(a: &Dec, b: &Dec) -> (r: bool)
    ensures
        r == lt_num(*a, *b),
{
    let x = rust_decimal::Decimal::from_i128_with_scale(a.mantissa, a.scale);
    let y = rust_decimal::Decimal::from_i128_with_scale(b.mantissa, b.scale);
    x < y
}

/// Relies on rust_decimal's `Display` for `Decimal`: the sign and the
/// digits of the mantissa, with a point placed `scale` digits from the
/// right and trailing zeros kept.
#[verifier::external_body]
pub(crate) fn dec_text(d: &Dec) -> (s: String)
    ensures
        s@ == text_of(*d),
{
    let x = rust_decimal::Decimal::from_i128_with_scale(d.mantissa, d.scale);
    format!("{}", x)
}

/// `a <= b`, decided through the numeric order.
pub(crate) fn dec_le(a: &Dec, b: &Dec) -> (r: bool)
    ensures
        r == le_num(*a, *b),
{
    !dec_lt(b, a)
}

/// Whether `a` and `b` denote the same number, possibly at different
/// scales.
pub(crate) fn dec_eq(a: &Dec, b: &Dec) -> (r: bool)
    ensures
        r == eq_num(*a, *b),
{
    let below = dec_lt(a, b);
    let above = dec_lt(b, a);
    proof {
        lemma_order_trichotomy(*a, *b);
    }
    !below && !above
}

/// The numeric order is a trichotomy: exactly one of `<`, `==`, `>` holds.
pub proof fn lemma_order_trichotomy(a: Dec, b: Dec)
    ensures
        eq_num(a, b) <==> (!lt_num(a, b) && !lt_num(b, a)),
        lt_num(a, b) ==> !lt_num(b, a),
{
}

/// Two decimals with equal mantissa and scale are the same value.
pub proof fn lemma_dec_parts_determine(a: Dec, b: Dec)
    requires
        a.m() == b.m(),
        a.s() == b.s(),
    ensures
        a == b,
{
}

/// `from_spec` reproduces the mantissa and scale it was given, within
/// the machine ranges of the two parts.
pub proof fn lemma_from_spec(m: int, s: int)
    requires
        i128::MIN <= m <= i128::MAX,
        0 <= s <= u32::MAX,
    ensures
        Dec::from_spec(m, s).m() == m,
        Dec::from_spec(m, s).s() == s,
{
}

/// Powers of ten are positive.
pub proof fn lemma_pow10_pos(n: nat)
    ensures
        pow10(n) >= 1,
    decreases n,
{
    if n > 0 {
        lemma_pow10_pos((n - 1) as nat);
    }
}

/// A value not below a zero has a non-negative mantissa.
pub proof fn lemma_not_below_zero(a: Dec, zero: Dec)
    requires
        zero.m() == 0,
        !lt_num(a, zero),
    ensures
        a.m() >= 0,
{
    lemma_pow10_pos(zero.s());
    assert(a.m() >= 0) by (nonlinear_arith)
        requires
            a.m() * pow10(zero.s()) >= 0,
            pow10(zero.s()) >= 1,
    ;
}

/// A value not equal to a zero has a nonzero mantissa.
pub proof fn lemma_not_zero(a: Dec, zero: Dec)
    requires
        zero.m() == 0,
        !eq_num(a, zero),
    ensures
        a.m() != 0,
{
}

} // verus!
