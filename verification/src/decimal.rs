//! Decimal numbers of up to 96 bits, with the arithmetic of `rust_decimal`.

use rust_decimal::prelude::ToPrimitive;
use vstd::prelude::*;
use vstd::std_specs::cmp::PartialEqSpecImpl;

use crate::text;

verus! {

/// The largest magnitude a mantissa can have: 96 bits, all set.
pub const MAX_MANTISSA: i128 = 0xFFFF_FFFF_FFFF_FFFF_FFFF_FFFF;

/// The largest number of digits after the decimal point.
pub const MAX_SCALE: u32 = 28;

/// The number `mantissa / 10^scale`.
pub struct DecimalView {
    pub mantissa: int,
    pub scale: nat,
}

/// Ten to the power of `k`.
pub open spec fn pow10(k: nat) -> int
    decreases k,
{
    if k == 0 {
        1
    } else {
        10 * pow10((k - 1) as nat)
    }
}

impl DecimalView {
    pub open spec fn new(mantissa: int, scale: nat) -> DecimalView {
        DecimalView { mantissa, scale }
    }

    /// Whether mantissa and scale are within what a decimal can hold.
    pub open spec fn in_range(self) -> bool {
        &&& -MAX_MANTISSA <= self.mantissa <= MAX_MANTISSA
        &&& self.scale <= MAX_SCALE
    }

    /// The product with no digit lost.
    pub open spec fn exact_product(self, other: DecimalView) -> DecimalView {
        DecimalView::new(self.mantissa * other.mantissa, self.scale + other.scale)
    }

    /// Whether the number is not below `other`.
    pub open spec fn at_least(self, other: DecimalView) -> bool {
        self.mantissa * pow10(other.scale) >= other.mantissa * pow10(self.scale)
    }

    /// Whether the two are the same number, perhaps with different scales.
    pub open spec fn same_number(self, other: DecimalView) -> bool {
        self.mantissa * pow10(other.scale) == other.mantissa * pow10(self.scale)
    }

    /// The product, where it is a decimal: exact if it is in range, otherwise
    /// `rounded`. A product of zero has no digits after the point.
    pub open spec fn times_or(
        self,
        other: DecimalView,
        rounded: Option<(int, nat)>,
    ) -> Option<DecimalView> {
        if self.mantissa == 0 || other.mantissa == 0 {
            Some(DecimalView::new(0, 0))
        } else if self.exact_product(other).in_range() {
            Some(self.exact_product(other))
        } else {
            match rounded {
                Some((mantissa, scale)) => Some(DecimalView::new(mantissa, scale)),
                None => None,
            }
        }
    }

    /// The product, where it is a decimal.
    pub open spec fn times(self, other: DecimalView) -> Option<DecimalView> {
        self.times_or(
            other,
            rounded_product(self.mantissa, self.scale, other.mantissa, other.scale),
        )
    }

    /// The quotient, where it is a decimal: none for a divisor of zero, one for
    /// one over one, otherwise `rounded`.
    pub open spec fn over_or(
        self,
        other: DecimalView,
        rounded: Option<(int, nat)>,
    ) -> Option<DecimalView> {
        if other.mantissa == 0 {
            None
        } else if other == DecimalView::new(1, 0) && self == DecimalView::new(1, 0) {
            Some(DecimalView::new(1, 0))
        } else {
            match rounded {
                Some((mantissa, scale)) => Some(DecimalView::new(mantissa, scale)),
                None => None,
            }
        }
    }

    /// The quotient, where it is a decimal.
    pub open spec fn over(self, other: DecimalView) -> Option<DecimalView> {
        self.over_or(
            other,
            rounded_quotient(self.mantissa, self.scale, other.mantissa, other.scale),
        )
    }

    /// Whether `quotient` is exact where it can be: if some decimal times `other`
    /// is the number, `quotient` is that decimal.
    pub open spec fn divides_exactly(
        self,
        other: DecimalView,
        quotient: Option<DecimalView>,
    ) -> bool {
        forall|q: DecimalView|
            q.in_range() && #[trigger] q.exact_product(other).same_number(self)
                ==> quotient is Some && quotient->0.same_number(q)
    }

    /// Whether `rounded` is within one unit of its last digit of the number. A zero
    /// stands for what is smaller than any decimal.
    pub open spec fn rounds_to(self, rounded: DecimalView) -> bool {
        let unit = pow10(self.scale);
        if rounded.mantissa != 0 {
            -unit < rounded.mantissa * unit - self.mantissa * pow10(rounded.scale) < unit
        } else {
            -unit < self.mantissa * pow10(MAX_SCALE as nat) < unit
        }
    }

    /// Whether the number is beyond the largest decimal, or below its negative.
    pub open spec fn is_beyond_decimals(self) -> bool {
        self.mantissa > MAX_MANTISSA * pow10(self.scale) || self.mantissa < -MAX_MANTISSA * pow10(
            self.scale,
        )
    }

    /// Whether `product` is the exact product up to the rounding of its last digit,
    /// or is missing because that is beyond the largest decimal.
    pub open spec fn multiplies_closely(
        self,
        other: DecimalView,
        product: Option<DecimalView>,
    ) -> bool {
        match product {
            Some(product) => self.exact_product(other).rounds_to(product),
            None => self.exact_product(other).is_beyond_decimals(),
        }
    }

    /// Whether `product` is the number times `10^d` with no digit lost, or is
    /// missing because that is beyond the largest decimal.
    pub open spec fn shifts_exactly(self, d: nat, product: Option<DecimalView>) -> bool {
        let exact = self.exact_product(DecimalView::new(pow10(d), 0));
        match product {
            Some(product) => product.same_number(exact),
            None => exact.mantissa > MAX_MANTISSA * pow10(exact.scale) || exact.mantissa
                < -MAX_MANTISSA * pow10(exact.scale),
        }
    }

    /// The least integer that is not below the number.
    pub open spec fn ceiling(self) -> int {
        -((-self.mantissa) / pow10(self.scale))
    }

    /// The number with what follows the decimal point dropped.
    pub open spec fn truncated(self) -> int {
        if self.mantissa < 0 {
            -((-self.mantissa) / pow10(self.scale))
        } else {
            self.mantissa / pow10(self.scale)
        }
    }

    /// The number in positional notation, with `scale` digits after the point.
    pub open spec fn text(self) -> Seq<char> {
        let magnitude = (if self.mantissa < 0 {
            -self.mantissa
        } else {
            self.mantissa
        }) as nat;
        let digits = padded(text::nat_text(magnitude), self.scale + 1);
        let sign = if self.mantissa < 0 {
            seq!['-']
        } else {
            Seq::empty()
        };
        if self.scale == 0 {
            sign + digits
        } else {
            sign + digits.take(digits.len() - self.scale) + seq!['.'] + digits.skip(
                digits.len() - self.scale,
            )
        }
    }
}

/// `digits` with zeros put in front until there are at least `len` of them.
pub open spec fn padded(digits: Seq<char>, len: nat) -> Seq<char> {
    if digits.len() >= len {
        digits
    } else {
        Seq::new((len - digits.len()) as nat, |i: int| '0') + digits
    }
}

/// What `rust_decimal::Decimal::checked_mul` makes of two factors that are not
/// zero and whose exact product does not fit: the mantissa and the scale of the
/// product, or nothing where even its integer part is too large.
pub uninterp spec fn rounded_product(
    left_mantissa: int,
    left_scale: nat,
    right_mantissa: int,
    right_scale: nat,
) -> Option<(int, nat)>;

/// What `rust_decimal::Decimal::checked_div` makes of a dividend and a divisor
/// that is not zero: the mantissa and the scale of the quotient, or nothing
/// where it is too large.
pub uninterp spec fn rounded_quotient(
    dividend_mantissa: int,
    dividend_scale: nat,
    divisor_mantissa: int,
    divisor_scale: nat,
) -> Option<(int, nat)>;

/// The view of a decimal that may be missing.
pub open spec fn decimal_option(d: Option<Decimal>) -> Option<DecimalView> {
    match d {
        Some(d) => Some(d@),
        None => None,
    }
}

/// A decimal number. Two are equal if they are the same number, whatever their
/// scales.
#[derive(Clone, Copy, Debug, Eq)]
pub struct Decimal {
    pub(crate) mantissa: i128,
    pub(crate) scale: u32,
}

impl View for Decimal {
    type V = DecimalView;

    closed spec fn view(&self) -> DecimalView {
        DecimalView::new(self.mantissa as int, self.scale as nat)
    }
}

impl Decimal {
    #[verifier::type_invariant]
    spec fn in_range(self) -> bool {
        &&& -MAX_MANTISSA <= self.mantissa <= MAX_MANTISSA
        &&& self.scale <= MAX_SCALE
    }

    /// The decimal `num / 10^scale`.
    pub fn new(num: i64, scale: u32) -> (r: Decimal)
        requires
            scale <= MAX_SCALE,
        ensures
            r@ == DecimalView::new(num as int, scale as nat),
    {
        Decimal { mantissa: num as i128, scale }
    }

    /// The decimal `mantissa / 10^scale`, if it is in range.
    pub fn from_parts(mantissa: i128, scale: u32) -> (r: Option<Decimal>)
        ensures
            r is Some <==> DecimalView::new(mantissa as int, scale as nat).in_range(),
            r matches Some(d) ==> d@ == DecimalView::new(mantissa as int, scale as nat),
    {
        if -MAX_MANTISSA <= mantissa && mantissa <= MAX_MANTISSA && scale <= MAX_SCALE {
            Some(Decimal { mantissa, scale })
        } else {
            None
        }
    }

    /// The number times `10^scale`.
    pub fn mantissa(&self) -> (r: i128)
        ensures
            r == self@.mantissa,
    {
        self.mantissa
    }

    /// The number of digits after the decimal point.
    pub fn scale(&self) -> (r: u32)
        ensures
            r == self@.scale,
            r <= MAX_SCALE,
    {
        proof {
            use_type_invariant(self);
        }
        self.scale
    }

    /// `==` of `rust_decimal::Decimal`: whether the two are the same number.
    #[verifier::external_body]
    fn equals(&self, other: &Decimal) -> (r: bool)
        ensures
            r == self@.same_number(other@),
    {
        let left = rust_decimal::Decimal::from_i128_with_scale(self.mantissa, self.scale);
        let right = rust_decimal::Decimal::from_i128_with_scale(other.mantissa, other.scale);
        left == right
    }

    /// `rust_decimal::Decimal::checked_mul`: zero if a factor is zero, the exact
    /// product if that is in range, otherwise the rounded product, if any. It is
    /// rounded in its last digit, and is missing only beyond the largest decimal. A
    /// product with a small power of ten is never rounded: what it gains in digits
    /// before the point are zeros after it, which are dropped to make it fit.
    #[verifier::external_body]
    pub(crate) fn checked_mul(self, other: Decimal) -> (r: Option<Decimal>)
        ensures
            decimal_option(r) == self@.times_or(
                other@,
                rounded_product(self@.mantissa, self@.scale, other@.mantissa, other@.scale),
            ),
            self@.multiplies_closely(other@, decimal_option(r)),
            forall|d: nat|
                d <= 4 && other@ == DecimalView::new(#[trigger] pow10(d), 0)
                    ==> self@.shifts_exactly(d, decimal_option(r)),
    {
        let left = rust_decimal::Decimal::from_i128_with_scale(self.mantissa, self.scale);
        let right = rust_decimal::Decimal::from_i128_with_scale(other.mantissa, other.scale);
        let product = left.checked_mul(right)?;
        Some(Decimal { mantissa: product.mantissa(), scale: product.scale() })
    }

    /// `rust_decimal::Decimal::checked_div`: nothing if the divisor is zero, one
    /// for one over one, otherwise the rounded quotient, if any. A quotient that is
    /// a decimal is not rounded. There is always one for a dividend of one: even
    /// over the smallest decimal it is 10^28, which fits.
    #[verifier::external_body]
    pub(crate) fn checked_div(self, other: Decimal) -> (r: Option<Decimal>)
        ensures
            decimal_option(r) == self@.over_or(
                other@,
                rounded_quotient(self@.mantissa, self@.scale, other@.mantissa, other@.scale),
            ),
            self@ == DecimalView::new(1, 0) && other@.mantissa != 0 ==> r is Some,
            other@.mantissa != 0 ==> self@.divides_exactly(other@, decimal_option(r)),
    {
        let dividend = rust_decimal::Decimal::from_i128_with_scale(self.mantissa, self.scale);
        let divisor = rust_decimal::Decimal::from_i128_with_scale(other.mantissa, other.scale);
        let quotient = dividend.checked_div(divisor)?;
        Some(Decimal { mantissa: quotient.mantissa(), scale: quotient.scale() })
    }

    /// `rust_decimal::Decimal::ceil`: the least integer not below the number,
    /// with no digits after the point.
    #[verifier::external_body]
    pub(crate) fn ceil(self) -> (r: Decimal)
        ensures
            r@ == DecimalView::new(self@.ceiling(), 0),
    {
        let d = rust_decimal::Decimal::from_i128_with_scale(self.mantissa, self.scale).ceil();
        Decimal { mantissa: d.mantissa(), scale: d.scale() }
    }

    /// `to_i64` of `rust_decimal`'s `ToPrimitive`: the number without what
    /// follows the point, if that is an `i64`.
    #[verifier::external_body]
    pub(crate) fn to_i64(self) -> (r: Option<i64>)
        ensures
            r is Some <==> i64::MIN <= self@.truncated() <= i64::MAX,
            r matches Some(n) ==> n == self@.truncated(),
    {
        rust_decimal::Decimal::from_i128_with_scale(self.mantissa, self.scale).to_i64()
    }

    /// The `Display` form of `rust_decimal::Decimal`: positional notation with
    /// all the digits of the scale.
    #[verifier::external_body]
    pub(crate) fn to_text(self) -> (r: String)
        ensures
            r@ == self@.text(),
    {
        rust_decimal::Decimal::from_i128_with_scale(self.mantissa, self.scale).to_string()
    }
}

impl PartialEq for Decimal {
    fn eq(&self, other: &Decimal) -> (r: bool) {
        self.equals(other)
    }
}

impl PartialEqSpecImpl for Decimal {
    open spec fn obeys_eq_spec() -> bool {
        true
    }

    open spec fn eq_spec(&self, other: &Decimal) -> bool {
        self@.same_number(other@)
    }
}

/// A power of ten is positive.
pub proof fn lemma_pow10_positive(k: nat)
    ensures
        pow10(k) > 0,
    decreases k,
{
    if k > 0 {
        lemma_pow10_positive((k - 1) as nat);
    }
}

/// Powers of ten multiply by adding exponents.
pub proof fn lemma_pow10_adds(a: nat, b: nat)
    ensures
        pow10(a + b) == pow10(a) * pow10(b),
    decreases a,
{
    if a > 0 {
        lemma_pow10_adds((a - 1) as nat, b);
        let p = pow10((a - 1) as nat);
        let q = pow10(b);
        assert(pow10(a + b) == 10 * pow10(((a - 1) + b) as nat));
        assert((10 * p) * q == 10 * (p * q)) by (nonlinear_arith);
    }
}

/// The ceiling of a number is the least integer that is not below it.
pub proof fn law_ceiling_is_least(d: DecimalView, n: int)
    ensures
        d.ceiling() * pow10(d.scale) >= d.mantissa,
        n * pow10(d.scale) >= d.mantissa ==> n >= d.ceiling(),
{
    lemma_pow10_positive(d.scale);
    let p = pow10(d.scale);
    let m = -d.mantissa;
    vstd::arithmetic::div_mod::lemma_fundamental_div_mod(m, p);
    let q = m / p;
    let r = m % p;
    assert(m == p * q + r);
    assert((-q) * p == -(p * q)) by (nonlinear_arith);
    assert(0 <= r < p);
    if n * p >= d.mantissa && n < -q {
        assert(n + 1 <= -q);
        assert((n + 1) * p <= (-q) * p) by (nonlinear_arith)
            requires
                n + 1 <= -q,
                p > 0,
        ;
        assert((n + 1) * p == n * p + p) by (nonlinear_arith);
        assert(false);
    }
}

/// The order of decimals is transitive.
pub proof fn lemma_at_least_transitive(a: DecimalView, b: DecimalView, c: DecimalView)
    requires
        a.at_least(b),
        b.at_least(c),
    ensures
        a.at_least(c),
{
    lemma_pow10_positive(a.scale);
    lemma_pow10_positive(b.scale);
    lemma_pow10_positive(c.scale);
    let (pa, pb, pc) = (pow10(a.scale), pow10(b.scale), pow10(c.scale));
    let (ma, mb, mc) = (a.mantissa, b.mantissa, c.mantissa);
    assert((ma * pc) * pb >= (mc * pa) * pb) by (nonlinear_arith)
        requires
            ma * pb >= mb * pa,
            mb * pc >= mc * pb,
            pa > 0,
            pb > 0,
            pc > 0,
    {
        assert((ma * pb) * pc >= (mb * pa) * pc);
        assert((mb * pc) * pa >= (mc * pb) * pa);
        assert((ma * pb) * pc == (ma * pc) * pb);
        assert((mb * pa) * pc == (mb * pc) * pa);
        assert((mc * pb) * pa == (mc * pa) * pb);
    }
    assert(ma * pc >= mc * pa) by (nonlinear_arith)
        requires
            (ma * pc) * pb >= (mc * pa) * pb,
            pb > 0,
    ;
}

/// The same number in another scale has the same ceiling.
pub proof fn lemma_same_number_same_ceiling(a: DecimalView, b: DecimalView)
    requires
        a.same_number(b),
    ensures
        a.ceiling() == b.ceiling(),
{
    assert(pow10(0) == 1);
    law_ceiling_is_least(a, b.ceiling());
    law_ceiling_is_least(b, a.ceiling());
    lemma_at_least_transitive(DecimalView::new(a.ceiling(), 0), a, b);
    lemma_at_least_transitive(DecimalView::new(b.ceiling(), 0), b, a);
}

/// A product whose exact value is in range, or is zero, is that value.
pub proof fn law_product_in_range_is_exact(a: DecimalView, b: DecimalView)
    requires
        a.exact_product(b).in_range() || a.mantissa == 0 || b.mantissa == 0,
    ensures
        a.times(b) is Some,
        a.times(b)->0.same_number(a.exact_product(b)),
{
    if a.mantissa == 0 || b.mantissa == 0 {
        assert(a.mantissa * b.mantissa == 0) by (nonlinear_arith)
            requires
                a.mantissa == 0 || b.mantissa == 0,
        ;
        assert(0 * pow10(a.scale + b.scale) == 0);
        assert(0 * pow10(0) == 0);
    }
}

/// Zeros in front of digits do not change the number they stand for.
proof fn lemma_leading_zeros(k: nat, digits: Seq<char>)
    ensures
        text::numeral_value(Seq::new(k, |i: int| '0') + digits) == text::numeral_value(digits),
    decreases k, digits.len(),
{
    let all = Seq::new(k, |i: int| '0') + digits;
    if digits.len() > 0 {
        assert(all.drop_last() =~= Seq::new(k, |i: int| '0') + digits.drop_last());
        lemma_leading_zeros(k, digits.drop_last());
    } else if k > 0 {
        let fewer = Seq::new((k - 1) as nat, |i: int| '0') + digits;
        assert(all.drop_last() =~= fewer);
        lemma_leading_zeros((k - 1) as nat, digits);
    } else {
        assert(all =~= digits);
    }
}

/// The text of a decimal has a minus sign if the number is negative, as many digits
/// after the point as the scale says, at least one before it, and no point without a
/// scale; its digits are those of the mantissa.
pub proof fn law_text_of_a_decimal(d: DecimalView)
    ensures
        ({
            let magnitude = if d.mantissa < 0 {
                -d.mantissa
            } else {
                d.mantissa
            };
            let start: int = if d.mantissa < 0 {
                1
            } else {
                0
            };
            let t = d.text();
            let point = t.len() - 1 - d.scale;
            &&& d.mantissa < 0 ==> t[0] == '-'
            &&& d.scale == 0 ==> {
                &&& t.len() > start
                &&& text::numeral_value(t.skip(start)) == magnitude
            }
            &&& d.scale > 0 ==> {
                &&& point > start
                &&& t[point] == '.'
                &&& text::numeral_value(t.subrange(start, point) + t.skip(point + 1)) == magnitude
            }
        }),
{
    let magnitude = (if d.mantissa < 0 {
        -d.mantissa
    } else {
        d.mantissa
    }) as nat;
    let start: int = if d.mantissa < 0 {
        1
    } else {
        0
    };
    let plain = text::nat_text(magnitude);
    let digits = padded(plain, d.scale + 1);
    let t = d.text();
    let point = t.len() - 1 - d.scale;
    text::law_numeral_stands_for_its_number(magnitude);
    if plain.len() < d.scale + 1 {
        lemma_leading_zeros((d.scale + 1 - plain.len()) as nat, plain);
    }
    assert(text::numeral_value(digits) == magnitude);
    if d.scale == 0 {
        assert(t.skip(start) =~= digits);
    } else {
        assert(t.subrange(start, point) + t.skip(point + 1) =~= digits);
    }
}

/// Dropping what follows the point goes towards zero, by less than one; rounding up
/// goes to the least integer that is not below the number.
pub proof fn law_integers_near_a_decimal(d: DecimalView)
    ensures
        ({
            let unit = pow10(d.scale);
            &&& d.mantissa >= 0 ==> d.truncated() * unit <= d.mantissa < (d.truncated() + 1) * unit
            &&& d.mantissa <= 0 ==> (d.truncated() - 1) * unit < d.mantissa <= d.truncated() * unit
            &&& (d.ceiling() - 1) * unit < d.mantissa <= d.ceiling() * unit
        }),
{
    let unit = pow10(d.scale);
    let m = d.mantissa;
    lemma_pow10_positive(d.scale);
    assert((m / unit) * unit <= m < (m / unit + 1) * unit) by (nonlinear_arith)
        requires
            unit > 0,
    ;
    let n = -m;
    let q = n / unit;
    assert(q * unit <= n < (q + 1) * unit) by (nonlinear_arith)
        requires
            unit > 0,
            q == n / unit,
    ;
    assert((-q) * unit == -(q * unit)) by (nonlinear_arith);
    assert((-q - 1) * unit == -((q + 1) * unit)) by (nonlinear_arith);
}

} // verus!
