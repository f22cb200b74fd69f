use vstd::arithmetic::power::{
    lemma_pow_adds, lemma_pow_increases, lemma_pow_positive, lemma_pow_strictly_increases, pow,
};
use vstd::prelude::*;

verus! {

/// Largest mantissa magnitude a decimal can carry (96 bits).
pub const MAX_MANTISSA: i128 = 0xFFFF_FFFF_FFFF_FFFF_FFFF_FFFFi128;

/// Largest number of fractional digits a decimal can carry.
pub const MAX_SCALE: u32 = 28;

/// An exact decimal number `mantissa / 10^scale`, with the ranges of `rust_decimal`. Like
/// `rust_decimal` it keeps a sign of its own, so that a zero may be negative (`-0.00`).
#[derive(Debug, Clone, Copy)]
pub struct DecimalValue {
    mantissa: i128,
    scale: u32,
    negative: bool,
}

impl DecimalValue {
    /// The mantissa fits in 96 bits, the scale is at most 28, and a number that is not zero
    /// is negative exactly when its mantissa is.
    #[verifier::type_invariant]
    closed spec fn in_range(self) -> bool {
        &&& -MAX_MANTISSA <= self.mantissa <= MAX_MANTISSA
        &&& self.scale <= MAX_SCALE
        &&& self.mantissa != 0 ==> self.negative == (self.mantissa < 0)
    }

    /// Whether the number carries a minus sign (a zero may carry one too).
    pub closed spec fn is_negative_spec(self) -> bool {
        self.negative
    }

    /// The integer whose digits the number holds.
    pub closed spec fn mantissa_spec(self) -> int {
        self.mantissa as int
    }

    /// How many of those digits are fractional.
    pub closed spec fn scale_spec(self) -> nat {
        self.scale as nat
    }

    /// The number `mantissa / 10^scale`, when both fit the ranges of a decimal; a zero is
    /// positive.
    pub fn new(mantissa: i128, scale: u32) -> (r: Option<DecimalValue>)
        ensures
            r is Some <==> (-MAX_MANTISSA <= mantissa <= MAX_MANTISSA && scale <= MAX_SCALE),
            r matches Some(d) ==> d.mantissa_spec() == mantissa && d.scale_spec() == scale
                && d.is_negative_spec() == (mantissa < 0),
    {
        if -MAX_MANTISSA <= mantissa && mantissa <= MAX_MANTISSA && scale <= MAX_SCALE {
            Some(DecimalValue { mantissa, scale, negative: mantissa < 0 })
        } else {
            None
        }
    }

    /// The number `mantissa / 10^scale` with the sign `negative`, when both fit the ranges
    /// of a decimal and the sign agrees with a mantissa that is not zero.
    pub fn from_parts(mantissa: i128, scale: u32, negative: bool) -> (r: Option<DecimalValue>)
        ensures
            r is Some <==> (-MAX_MANTISSA <= mantissa <= MAX_MANTISSA && scale <= MAX_SCALE && (
            mantissa != 0 ==> negative == (mantissa < 0))),
            r matches Some(d) ==> d.mantissa_spec() == mantissa && d.scale_spec() == scale
                && d.is_negative_spec() == negative,
    {
        if -MAX_MANTISSA <= mantissa && mantissa <= MAX_MANTISSA && scale <= MAX_SCALE && (
        mantissa == 0 || negative == (mantissa < 0)) {
            Some(DecimalValue { mantissa, scale, negative })
        } else {
            None
        }
    }

    /// Whether the number carries a minus sign.
    pub fn is_negative(&self) -> (r: bool)
        ensures
            r == self.is_negative_spec(),
    {
        self.negative
    }

    /// The mantissa.
    pub fn mantissa(&self) -> (r: i128)
        ensures
            r == self.mantissa_spec(),
    {
        self.mantissa
    }

    /// The scale.
    pub fn scale(&self) -> (r: u32)
        ensures
            r == self.scale_spec(),
    {
        self.scale
    }
}

/// The whole number `n` as a decimal with no fractional digit.
pub closed spec fn whole_decimal(n: i64) -> DecimalValue {
    DecimalValue { mantissa: n as i128, scale: 0, negative: n < 0 }
}

impl DecimalValue {
    /// The whole number `n`, as `Decimal::new(n, 0)` builds it.
    pub fn from_int(n: i64) -> (r: DecimalValue)
        ensures
            r == whole_decimal(n),
            r.mantissa_spec() == n,
            r.scale_spec() == 0,
            r.is_negative_spec() == (n < 0),
    {
        DecimalValue { mantissa: n as i128, scale: 0, negative: n < 0 }
    }
}

/// What `rust_decimal` computes for `a + b` (which may round to fit its 96-bit mantissa),
/// or `None` where that addition overflows.
pub uninterp spec fn decimal_sum_of(a: DecimalValue, b: DecimalValue) -> Option<DecimalValue>;

/// Adds two decimals with `rust_decimal::Decimal::checked_add`, which gives `None` exactly
/// where the `+` operator panics. The result is only named: how `rust_decimal` rounds is
/// left to it.
#[verifier::external_body]
pub(crate) fn decimal_checked_add(a: &DecimalValue, b: &DecimalValue) -> (r: Option<DecimalValue>)
    ensures
        r == decimal_sum_of(*a, *b),
{
    let mut x = rust_decimal::Decimal::from_i128_with_scale(a.mantissa, a.scale);
    x.set_sign_negative(a.negative);
    let mut y = rust_decimal::Decimal::from_i128_with_scale(b.mantissa, b.scale);
    y.set_sign_negative(b.negative);
    match x.checked_add(y) {
        Some(d) => Some(DecimalValue { mantissa: d.mantissa(), scale: d.scale(), negative: d.is_sign_negative() }),
        None => None,
    }
}

/// What `rust_decimal` computes for `a / b`, or `None` where that division overflows or
/// divides by zero.
pub uninterp spec fn decimal_quotient_of(a: DecimalValue, b: DecimalValue) -> Option<DecimalValue>;

/// Divides two decimals with `rust_decimal::Decimal::checked_div`, which gives `None`
/// exactly where the `/` operator panics (overflow, or a zero divisor). The result is only
/// named: how `rust_decimal` rounds a quotient is left to it.
#[verifier::external_body]
pub(crate) fn decimal_checked_div(a: &DecimalValue, b: &DecimalValue) -> (r: Option<DecimalValue>)
    ensures
        r == decimal_quotient_of(*a, *b),
{
    let mut x = rust_decimal::Decimal::from_i128_with_scale(a.mantissa, a.scale);
    x.set_sign_negative(a.negative);
    let mut y = rust_decimal::Decimal::from_i128_with_scale(b.mantissa, b.scale);
    y.set_sign_negative(b.negative);
    match x.checked_div(y) {
        Some(d) => Some(DecimalValue { mantissa: d.mantissa(), scale: d.scale(), negative: d.is_sign_negative() }),
        None => None,
    }
}

/// What `rust_decimal` computes for `a * b` (which may round to fit its 96-bit mantissa),
/// or `None` where that multiplication overflows.
pub uninterp spec fn decimal_product_of(a: DecimalValue, b: DecimalValue) -> Option<DecimalValue>;

/// Multiplies two decimals with `rust_decimal::Decimal::checked_mul`, which gives `None`
/// exactly where the `*` operator panics. The result is only named: how `rust_decimal`
/// rounds a product is left to it.
#[verifier::external_body]
pub(crate) fn decimal_checked_mul(a: &DecimalValue, b: &DecimalValue) -> (r: Option<DecimalValue>)
    ensures
        r == decimal_product_of(*a, *b),
{
    let mut x = rust_decimal::Decimal::from_i128_with_scale(a.mantissa, a.scale);
    x.set_sign_negative(a.negative);
    let mut y = rust_decimal::Decimal::from_i128_with_scale(b.mantissa, b.scale);
    y.set_sign_negative(b.negative);
    match x.checked_mul(y) {
        Some(d) => Some(DecimalValue { mantissa: d.mantissa(), scale: d.scale(), negative: d.is_sign_negative() }),
        None => None,
    }
}

/// `n / p` rounded to the nearest whole number, a tie going to the even one.
pub open spec fn half_even_quotient(n: nat, p: nat) -> nat {
    let q = n / p;
    let r = n % p;
    if 2 * r < p {
        q
    } else if 2 * r > p {
        q + 1
    } else if q % 2 == 0 {
        q
    } else {
        q + 1
    }
}

/// Mantissa and scale of `d` rounded to `dp` fractional digits with banker's rounding (a
/// tie goes to the even neighbour, on the magnitude): `d` itself when it has no more than
/// `dp` fractional digits.
pub open spec fn rounded_to_places(d: DecimalValue, dp: u32) -> (int, nat) {
    let m = d.mantissa_spec();
    let s = d.scale_spec();
    if s <= dp {
        (m, s)
    } else {
        let p = pow(10, (s - dp) as nat) as nat;
        let magnitude = half_even_quotient((if m < 0 { -m } else { m }) as nat, p);
        (if m < 0 { -magnitude } else { magnitude as int }, dp as nat)
    }
}

/// `10^e`, for `e` up to the largest scale.
fn power_of_ten(e: u32) -> (r: i128)
    requires
        e <= MAX_SCALE,
    ensures
        r == pow(10, e as nat),
        0 < r <= 10_000_000_000_000_000_000_000_000_000i128,
{
    assert(pow(10, 28) == 10_000_000_000_000_000_000_000_000_000int) by {
        reveal_with_fuel(pow, 29);
    }
    reveal(pow);
    let mut p: i128 = 1;
    let mut j: u32 = 0;
    while j < e
        invariant
            j <= e <= MAX_SCALE,
            p == pow(10, j as nat),
            pow(10, 28) == 10_000_000_000_000_000_000_000_000_000int,
        decreases e - j,
    {
        proof {
            reveal(pow);
            lemma_pow_strictly_increases(10, j as nat, 28);
            lemma_pow_positive(10, j as nat);
        }
        p = p * 10;
        j = j + 1;
    }
    proof {
        lemma_pow_positive(10, e as nat);
        lemma_pow_increases(10, e as nat, 28);
    }
    p
}

/// The sign of `d` rounded to `dp` fractional digits: a zero, or a number that needs no
/// rounding, keeps its own sign; a number that is rounded is negative when the result is,
/// so that one rounded to zero is a positive zero.
pub open spec fn rounded_sign(d: DecimalValue, dp: u32) -> bool {
    if d.scale_spec() <= dp || d.mantissa_spec() == 0 {
        d.is_negative_spec()
    } else {
        rounded_to_places(d, dp).0 < 0
    }
}

/// Rounds a decimal to `dp` fractional digits as `rust_decimal::Decimal::round_dp(dp)`
/// does: banker's rounding, and a number with no more than `dp` fractional digits is kept
/// as it is.
pub fn decimal_round_dp(d: &DecimalValue, dp: u32) -> (r: DecimalValue)
    ensures
        r.mantissa_spec() == rounded_to_places(*d, dp).0,
        r.scale_spec() == rounded_to_places(*d, dp).1,
        r.is_negative_spec() == rounded_sign(*d, dp),
{
    proof {
        use_type_invariant(d);
    }
    if d.scale <= dp {
        return *d;
    }
    let p = power_of_ten(d.scale - dp);
    let m = d.mantissa;
    let magnitude: i128 = if m < 0 {
        -m
    } else {
        m
    };
    let q = magnitude / p;
    let rem = magnitude % p;
    let rounded: i128 = if 2 * rem < p {
        q
    } else if 2 * rem > p {
        q + 1
    } else if q % 2 == 0 {
        q
    } else {
        q + 1
    };
    proof {
        assert(magnitude == p * q + rem && 0 <= rem < p) by {
            vstd::arithmetic::div_mod::lemma_fundamental_div_mod(magnitude as int, p as int);
        }
        assert(q >= 0) by (nonlinear_arith)
            requires
                magnitude == p * q + rem,
                0 <= rem < p,
                0 <= magnitude,
        ;
        assert(q <= magnitude) by (nonlinear_arith)
            requires
                magnitude == p * q + rem,
                0 <= rem,
                p >= 1,
                q >= 0,
        ;
        if rounded == q + 1 {
            assert(rem >= 1);
            assert(q + 1 <= magnitude) by (nonlinear_arith)
                requires
                    magnitude == p * q + rem,
                    rem >= 1,
                    p >= 1,
                    q >= 0,
            ;
        }
    }
    DecimalValue {
        mantissa: if m < 0 {
            -rounded
        } else {
            rounded
        },
        scale: dp,
        negative: if m == 0 {
            d.negative
        } else {
            m < 0 && rounded != 0
        },
    }
}

/// Two decimals with the same mantissa, scale and sign are the same value.
pub proof fn lemma_decimal_parts_determine(a: DecimalValue, b: DecimalValue)
    requires
        a.mantissa_spec() == b.mantissa_spec(),
        a.scale_spec() == b.scale_spec(),
        a.is_negative_spec() == b.is_negative_spec(),
    ensures
        a == b,
{
}

/// Whether two decimals stand for the same number, whatever their scales.
pub open spec fn same_number(a: DecimalValue, b: DecimalValue) -> bool {
    a.mantissa_spec() * pow(10, b.scale_spec()) == b.mantissa_spec() * pow(10, a.scale_spec())
}

/// Whether two optional decimals are both absent or stand for the same number.
pub open spec fn same_optional_number(a: Option<DecimalValue>, b: Option<DecimalValue>) -> bool {
    match (a, b) {
        (Some(x), Some(y)) => same_number(x, y),
        (None, None) => true,
        _ => false,
    }
}

/// Whether `x * 10^e` equals `y`.
fn shifted_equals(x: i128, y: i128, e: u32) -> (r: bool)
    requires
        -MAX_MANTISSA <= y <= MAX_MANTISSA,
        e <= MAX_SCALE,
    ensures
        r == (x * pow(10, e as nat) == y),
{
    let p = power_of_ten(e);
    match x.checked_mul(p) {
        Some(v) => v == y,
        None => false,
    }
}

/// Two decimals whose scales differ by `e = sb - sa` stand for the same number exactly when
/// the mantissa with the smaller scale, shifted by `e` digits, equals the other mantissa.
proof fn lemma_same_number_by_shift(ma: int, sa: nat, mb: int, sb: nat)
    requires
        sa <= sb,
    ensures
        (ma * pow(10, sb) == mb * pow(10, sa)) == (ma * pow(10, (sb - sa) as nat) == mb),
{
    let d = (sb - sa) as nat;
    lemma_pow_adds(10, sa, d);
    assert(sa + d == sb);
    lemma_pow_positive(10, sa);
    let ps = pow(10, sa);
    let pd = pow(10, d);
    assert(pow(10, sb) == ps * pd);
    assert((ma * (ps * pd) == mb * ps) == (ma * pd == mb)) by (nonlinear_arith)
        requires
            ps > 0,
    {
        assert(ma * (ps * pd) == (ma * pd) * ps);
        assert(mb * ps == ps * mb);
        if ma * pd != mb {
            assert((ma * pd) * ps != mb * ps);
        }
    }
}

/// Compares two decimals as `rust_decimal::Decimal`'s `==` does: by the numbers they stand
/// for, whatever their scales and the sign of a zero (so 1.0 equals 1.00, and -0 equals 0).
pub fn decimal_eq(a: &DecimalValue, b: &DecimalValue) -> (r: bool)
    ensures
        r == same_number(*a, *b),
{
    proof {
        use_type_invariant(a);
        use_type_invariant(b);
    }
    if a.scale <= b.scale {
        proof {
            lemma_same_number_by_shift(a.mantissa as int, a.scale as nat, b.mantissa as int, b.scale as nat);
        }
        shifted_equals(a.mantissa, b.mantissa, b.scale - a.scale)
    } else {
        proof {
            lemma_same_number_by_shift(b.mantissa as int, b.scale as nat, a.mantissa as int, a.scale as nat);
        }
        shifted_equals(b.mantissa, a.mantissa, a.scale - b.scale)
    }
}

/// Compares two optional decimals: equal when both are absent or stand for the same number.
pub fn optional_decimal_eq(a: &Option<DecimalValue>, b: &Option<DecimalValue>) -> (r: bool)
    ensures
        r == same_optional_number(*a, *b),
{
    match (a, b) {
        (Some(x), Some(y)) => decimal_eq(x, y),
        (None, None) => true,
        _ => false,
    }
}


/// Decimals compare as the numbers they stand for: the comparison is reflexive, symmetric
/// and transitive, whatever the scales involved.
pub proof fn lemma_same_number_is_equivalence(a: DecimalValue, b: DecimalValue, c: DecimalValue)
    ensures
        same_number(a, a),
        same_number(a, b) ==> same_number(b, a),
        same_number(a, b) && same_number(b, c) ==> same_number(a, c),
{
    let pa = pow(10, a.scale_spec());
    let pb = pow(10, b.scale_spec());
    let pc = pow(10, c.scale_spec());
    lemma_pow_positive(10, b.scale_spec());
    let (ma, mb, mc) = (a.mantissa_spec(), b.mantissa_spec(), c.mantissa_spec());
    if same_number(a, b) && same_number(b, c) {
        assert(ma * pb == mb * pa);
        assert(mb * pc == mc * pb);
        assert(ma * pc * pb == mc * pa * pb) by (nonlinear_arith)
            requires
                ma * pb == mb * pa,
                mb * pc == mc * pb,
        {
        }
        assert(ma * pc == mc * pa) by (nonlinear_arith)
            requires
                ma * pc * pb == mc * pa * pb,
                pb > 0,
        {
        }
    }
}

/// Two optional decimals compare like the numbers they hold: an absent decimal only equals
/// an absent one, and the comparison is reflexive.
pub proof fn lemma_same_optional_number_reflexive(a: Option<DecimalValue>)
    ensures
        same_optional_number(a, a),
{
}

} // verus!
