//! Currency conversion over a table of exchange rates.

use std::collections::HashMap;

use rusty_money::{iso, Money};
use vstd::prelude::*;

use crate::currency::{self, Currency};
use crate::decimal::{self, Decimal, DecimalView};

verus! {

broadcast use vstd::std_specs::hash::group_hash_axioms;

/// Why an amount could not be converted.
#[derive(Clone, Copy, Debug, PartialEq, Eq, Structural)]
pub enum CurrencyConversionError {
    /// A product was too large for a decimal.
    DecimalMultiplicationFailed,
    /// The table has no factors for the currency.
    ConversionNotSupported(Currency),
}

/// The two factors of a currency, as numbers.
pub struct FactorsView {
    pub to_factor: DecimalView,
    pub from_factor: DecimalView,
}

/// The multiplicative factors between a currency and the base currency.
#[derive(Clone, Copy, Debug, PartialEq, Eq)]
pub struct CurrencyFactors {
    /// Units of the currency per unit of the base currency.
    pub to_factor: Decimal,
    /// Units of the base currency per unit of the currency.
    pub from_factor: Decimal,
}

impl View for CurrencyFactors {
    type V = FactorsView;

    open spec fn view(&self) -> FactorsView {
        FactorsView { to_factor: self.to_factor@, from_factor: self.from_factor@ }
    }
}

impl CurrencyFactors {
    pub fn new(to_factor: Decimal, from_factor: Decimal) -> (r: CurrencyFactors)
        ensures
            r.to_factor == to_factor,
            r.from_factor == from_factor,
    {
        CurrencyFactors { to_factor, from_factor }
    }
}

/// The factors of each currency that can be converted.
pub struct ConversionTable {
    factors: HashMap<u64, CurrencyFactors>,
}

impl View for ConversionTable {
    type V = Map<Currency, FactorsView>;

    closed spec fn view(&self) -> Map<Currency, FactorsView> {
        Map::new(
            |c: Currency| self.factors@.contains_key(c.ordinal()),
            |c: Currency| self.factors@[c.ordinal()]@,
        )
    }
}

impl ConversionTable {
    /// A table without currencies.
    pub fn new() -> (r: ConversionTable)
        ensures
            r@ == Map::<Currency, FactorsView>::empty(),
    {
        let r = ConversionTable { factors: HashMap::new() };
        assert(r@ =~= Map::<Currency, FactorsView>::empty());
        r
    }

    /// Sets the factors of `currency`, in place of those it had.
    pub fn insert(&mut self, currency: Currency, factors: CurrencyFactors)
        ensures
            final(self)@ == old(self)@.insert(currency, factors@),
    {
        let ghost before = self@;
        self.factors.insert(currency.index(), factors);
        proof {
            assert forall|c: Currency| c.ordinal() == currency.ordinal() implies c == currency by {
                currency::lemma_ordinal_injective(c, currency);
            }
            assert(self@ =~= before.insert(currency, factors@));
        }
    }

    /// The factors of `currency`, if the table has any.
    pub fn get(&self, currency: Currency) -> (r: Option<CurrencyFactors>)
        ensures
            r is Some <==> self@.contains_key(currency),
            r matches Some(factors) ==> factors@ == self@[currency],
    {
        match self.factors.get(&currency.index()) {
            Some(factors) => Some(*factors),
            None => None,
        }
    }

    /// Whether the table has factors for `currency`.
    pub fn contains_key(&self, currency: Currency) -> (r: bool)
        ensures
            r == self@.contains_key(currency),
    {
        self.factors.contains_key(&currency.index())
    }
}

/// Exchange rates against a base currency.
pub struct ExchangeRates {
    /// The currency all factors refer to.
    pub base_currency: Currency,
    /// The factors of each currency.
    pub conversion: ConversionTable,
}

/// The rates as a mathematical table.
pub struct RatesView {
    pub base_currency: Currency,
    pub conversion: Map<Currency, FactorsView>,
}

impl View for ExchangeRates {
    type V = RatesView;

    open spec fn view(&self) -> RatesView {
        RatesView { base_currency: self.base_currency, conversion: self.conversion@ }
    }
}

/// The number of digits after the point that `rusty_money` gives a currency.
pub open spec fn iso_exponent(c: Currency) -> nat {
    match c {
        Currency::BIF | Currency::CLP | Currency::DJF | Currency::GNF | Currency::HUF
        | Currency::ISK | Currency::JPY | Currency::KMF | Currency::KRW | Currency::PYG
        | Currency::RWF | Currency::UGX | Currency::VND | Currency::VUV | Currency::XAF
        | Currency::XOF | Currency::XPF => 0,
        Currency::MGA | Currency::MRU => 1,
        Currency::BHD | Currency::IQD | Currency::JOD | Currency::KWD | Currency::LYD
        | Currency::OMR | Currency::TND => 3,
        Currency::CLF => 4,
        _ => 2,
    }
}

/// An amount in minor units of `c`, in major units as `rusty_money` has them.
pub open spec fn major_amount(amount: int, c: Currency) -> DecimalView {
    DecimalView::new(amount, iso_exponent(c))
}

/// An amount in minor units of `c`, in major units by the digits that the
/// currency itself has after the point. For a few currencies `rusty_money` has
/// others, so that a charge counted by those would count for more or less than it
/// is.
pub open spec fn charged_amount(amount: int, c: Currency) -> DecimalView {
    DecimalView::new(amount, c.fraction_digits())
}

/// How many minor units of `c` make one major unit, as a decimal.
pub open spec fn minor_per_major(c: Currency) -> DecimalView {
    DecimalView::new(decimal::pow10(c.fraction_digits()), 0)
}

/// A product as the result of a conversion.
pub open spec fn scaled(amount: DecimalView, factor: DecimalView) -> Result<
    DecimalView,
    CurrencyConversionError,
> {
    match amount.times(factor) {
        Some(product) => Ok(product),
        None => Err(CurrencyConversionError::DecimalMultiplicationFailed),
    }
}

impl RatesView {
    /// `amount` of `from`, in the base currency.
    pub open spec fn to_base(self, amount: DecimalView, from: Currency) -> Result<
        DecimalView,
        CurrencyConversionError,
    > {
        if self.conversion.contains_key(from) {
            scaled(amount, self.conversion[from].from_factor)
        } else {
            Err(CurrencyConversionError::ConversionNotSupported(from))
        }
    }

    /// `amount` of the base currency, in `to`.
    pub open spec fn from_base(self, amount: DecimalView, to: Currency) -> Result<
        DecimalView,
        CurrencyConversionError,
    > {
        if self.conversion.contains_key(to) {
            scaled(amount, self.conversion[to].to_factor)
        } else {
            Err(CurrencyConversionError::ConversionNotSupported(to))
        }
    }

    /// `major` major units of `from`, in major units of `to`.
    pub open spec fn exchanged(self, from: Currency, to: Currency, major: DecimalView) -> Result<
        DecimalView,
        CurrencyConversionError,
    > {
        if to == self.base_currency {
            self.to_base(major, from)
        } else if from == self.base_currency {
            self.from_base(major, to)
        } else {
            match self.to_base(major, from) {
                Ok(base_amount) => self.from_base(base_amount, to),
                Err(error) => Err(error),
            }
        }
    }

    /// `amount` minor units of `from`, in major units of `to`.
    pub open spec fn converted(self, from: Currency, to: Currency, amount: int) -> Result<
        DecimalView,
        CurrencyConversionError,
    > {
        self.exchanged(from, to, major_amount(amount, from))
    }

    /// `amount` minor units of `from` in minor units of `to`, rounded up.
    pub open spec fn minor_units_ceil(self, from: Currency, to: Currency, amount: int) -> Option<
        int,
    > {
        if amount < 0 {
            None
        } else if from == to {
            Some(amount)
        } else {
            match self.exchanged(from, to, charged_amount(amount, from)) {
                Err(_) => None,
                Ok(major) => {
                    let units = major.exact_product(minor_per_major(to)).ceiling();
                    if 0 <= units <= i64::MAX {
                        Some(units)
                    } else {
                        None
                    }
                },
            }
        }
    }

    /// The product of the factors that lead from `from` to `to`, with no digit
    /// lost.
    pub open spec fn exact_factor(self, from: Currency, to: Currency) -> DecimalView {
        if to == self.base_currency {
            self.conversion[from].from_factor
        } else if from == self.base_currency {
            self.conversion[to].to_factor
        } else {
            self.conversion[from].from_factor.exact_product(self.conversion[to].to_factor)
        }
    }

    /// `amount` minor units of `from` in major units of `to`, with no digit lost.
    pub open spec fn exact_conversion(self, from: Currency, to: Currency, amount: int) -> DecimalView {
        major_amount(amount, from).exact_product(self.exact_factor(from, to))
    }

    /// A charge of `amount` minor units of `from` in major units of `to`, with no
    /// digit lost.
    pub open spec fn exact_charge(self, from: Currency, to: Currency, amount: int) -> DecimalView {
        charged_amount(amount, from).exact_product(self.exact_factor(from, to))
    }

    /// Whether the table has all the factors that lead from `from` to `to`.
    pub open spec fn supports(self, from: Currency, to: Currency) -> bool {
        &&& from == self.base_currency && to != self.base_currency
            || self.conversion.contains_key(from)
        &&& to == self.base_currency || self.conversion.contains_key(to)
    }
}

/// The view of the result of a conversion.
pub open spec fn conversion_result(r: Result<Decimal, CurrencyConversionError>) -> Result<
    DecimalView,
    CurrencyConversionError,
> {
    match r {
        Ok(amount) => Ok(amount@),
        Err(error) => Err(error),
    }
}

/// The amount of `rusty_money::Money::from_minor` for the currency that
/// `rusty_money::iso::find` gives for a code: for the code of each currency,
/// the amount with as many digits after the point as that currency has there.
#[verifier::external_body]
fn money_from_minor(amount: i64, code: &str) -> (r: Option<Decimal>)
    ensures
        forall|c: Currency| #[trigger]
            c.alpha_code() == code@ ==> r is Some && r->0@ == major_amount(amount as int, c),
{
    let money = Money::from_minor(amount, iso::find(code)?);
    Some(Decimal { mantissa: money.amount().mantissa(), scale: money.amount().scale() })
}

/// The product of an amount and a factor.
fn scale_amount(amount: Decimal, factor: Decimal) -> (r: Result<Decimal, CurrencyConversionError>)
    ensures
        conversion_result(r) == scaled(amount@, factor@),
        match r {
            Ok(product) => amount@.exact_product(factor@).rounds_to(product@),
            Err(error) => error == CurrencyConversionError::DecimalMultiplicationFailed
                && amount@.exact_product(factor@).is_beyond_decimals(),
        },
{
    match amount.checked_mul(factor) {
        Some(product) => Ok(product),
        None => Err(CurrencyConversionError::DecimalMultiplicationFailed),
    }
}

impl ExchangeRates {
    pub fn new(base_currency: Currency, conversion: ConversionTable) -> (r: ExchangeRates)
        ensures
            r.base_currency == base_currency,
            r.conversion == conversion,
    {
        ExchangeRates { base_currency, conversion }
    }

    /// `amount` of `from_currency`, in the base currency.
    pub fn forward_conversion(&self, amount: Decimal, from_currency: Currency) -> (r: Result<
        Decimal,
        CurrencyConversionError,
    >)
        ensures
            conversion_result(r) == self@.to_base(amount@, from_currency),
            r is Ok || r == Err::<Decimal, CurrencyConversionError>(
                CurrencyConversionError::DecimalMultiplicationFailed,
            ) <==> self.conversion@.contains_key(from_currency),
            r matches Ok(product) ==> amount@.exact_product(
                self.conversion@[from_currency].from_factor,
            ).rounds_to(product@),
            r == Err::<Decimal, CurrencyConversionError>(
                CurrencyConversionError::DecimalMultiplicationFailed,
            ) ==> amount@.exact_product(
                self.conversion@[from_currency].from_factor,
            ).is_beyond_decimals(),
    {
        match self.conversion.get(from_currency) {
            Some(factors) => scale_amount(amount, factors.from_factor),
            None => Err(CurrencyConversionError::ConversionNotSupported(from_currency)),
        }
    }

    /// `amount` of the base currency, in `to_currency`.
    pub fn backward_conversion(&self, amount: Decimal, to_currency: Currency) -> (r: Result<
        Decimal,
        CurrencyConversionError,
    >)
        ensures
            conversion_result(r) == self@.from_base(amount@, to_currency),
            r is Ok || r == Err::<Decimal, CurrencyConversionError>(
                CurrencyConversionError::DecimalMultiplicationFailed,
            ) <==> self.conversion@.contains_key(to_currency),
            r matches Ok(product) ==> amount@.exact_product(
                self.conversion@[to_currency].to_factor,
            ).rounds_to(product@),
            r == Err::<Decimal, CurrencyConversionError>(
                CurrencyConversionError::DecimalMultiplicationFailed,
            ) ==> amount@.exact_product(
                self.conversion@[to_currency].to_factor,
            ).is_beyond_decimals(),
    {
        match self.conversion.get(to_currency) {
            Some(factors) => scale_amount(amount, factors.to_factor),
            None => Err(CurrencyConversionError::ConversionNotSupported(to_currency)),
        }
    }
}

/// Converts `major` major units of `from_currency` into major units of
/// `to_currency`, unrounded, by way of the base currency.
fn exchange(
    ex_rates: &ExchangeRates,
    from_currency: Currency,
    to_currency: Currency,
    major: Decimal,
) -> (r: Result<Decimal, CurrencyConversionError>)
    ensures
        conversion_result(r) == ex_rates@.exchanged(from_currency, to_currency, major@),
        to_currency == ex_rates.base_currency ==> (r matches Ok(product) ==> {
            &&& ex_rates.conversion@.contains_key(from_currency)
            &&& major@.exact_product(
                ex_rates.conversion@[from_currency].from_factor,
            ).rounds_to(product@)
        }),
        to_currency != ex_rates.base_currency && from_currency == ex_rates.base_currency ==> (
        r matches Ok(product) ==> {
            &&& ex_rates.conversion@.contains_key(to_currency)
            &&& major@.exact_product(
                ex_rates.conversion@[to_currency].to_factor,
            ).rounds_to(product@)
        }),
        to_currency != ex_rates.base_currency && from_currency != ex_rates.base_currency ==> (
        r matches Ok(product) ==> exists|base_amount: DecimalView|
            {
                &&& ex_rates.conversion@.contains_key(from_currency)
                &&& ex_rates.conversion@.contains_key(to_currency)
                &&& #[trigger] major@.exact_product(
                    ex_rates.conversion@[from_currency].from_factor,
                ).rounds_to(base_amount)
                &&& base_amount.exact_product(
                    ex_rates.conversion@[to_currency].to_factor,
                ).rounds_to(product@)
            }),
{
    let base_currency = ex_rates.base_currency;
    if to_currency == base_currency {
        ex_rates.forward_conversion(major, from_currency)
    } else if from_currency == base_currency {
        ex_rates.backward_conversion(major, to_currency)
    } else {
        match ex_rates.forward_conversion(major, from_currency) {
            Ok(base_amount) => {
                assert(major@.exact_product(
                    ex_rates.conversion@[from_currency].from_factor,
                ).rounds_to(base_amount@));
                ex_rates.backward_conversion(base_amount, to_currency)
            },
            Err(error) => Err(error),
        }
    }
}

/// Converts `amount` minor units of `from_currency` into major units of
/// `to_currency`, unrounded, by way of the base currency.
pub fn convert(
    ex_rates: &ExchangeRates,
    from_currency: Currency,
    to_currency: Currency,
    amount: i64,
) -> (r: Result<Decimal, CurrencyConversionError>)
    ensures
        conversion_result(r) == ex_rates@.converted(from_currency, to_currency, amount as int),
        to_currency == ex_rates.base_currency ==> (r matches Ok(product) ==> {
            &&& ex_rates.conversion@.contains_key(from_currency)
            &&& major_amount(amount as int, from_currency).exact_product(
                ex_rates.conversion@[from_currency].from_factor,
            ).rounds_to(product@)
        }),
        to_currency != ex_rates.base_currency && from_currency == ex_rates.base_currency ==> (
        r matches Ok(product) ==> {
            &&& ex_rates.conversion@.contains_key(to_currency)
            &&& major_amount(amount as int, from_currency).exact_product(
                ex_rates.conversion@[to_currency].to_factor,
            ).rounds_to(product@)
        }),
        to_currency != ex_rates.base_currency && from_currency != ex_rates.base_currency ==> (
        r matches Ok(product) ==> exists|base_amount: DecimalView|
            {
                &&& ex_rates.conversion@.contains_key(from_currency)
                &&& ex_rates.conversion@.contains_key(to_currency)
                &&& #[trigger] major_amount(amount as int, from_currency).exact_product(
                    ex_rates.conversion@[from_currency].from_factor,
                ).rounds_to(base_amount)
                &&& base_amount.exact_product(
                    ex_rates.conversion@[to_currency].to_factor,
                ).rounds_to(product@)
            }),
{
    let major = money_from_minor(amount, from_currency.code()).unwrap();
    exchange(ex_rates, from_currency, to_currency, major)
}

/// Ten to the power of a currency's number of digits after the point.
fn power_of_ten(digits: u8) -> (r: i64)
    requires
        digits <= 4,
    ensures
        r == decimal::pow10(digits as nat),
{
    proof {
        reveal_with_fuel(decimal::pow10, 5);
    }
    match digits {
        0 => 1,
        1 => 10,
        2 => 100,
        3 => 1000,
        _ => 10000,
    }
}

/// Converts `amount_minor` minor units of `from_currency` into minor units of
/// `to_currency`, rounding up to the next minor unit.
///
/// Rounding up is deliberate: a converted charge must not be counted for less
/// than it is against a spending limit. For the same reason the amounts go by the
/// digits that the currencies themselves have after the point. There is no result
/// for a negative amount, where a rate is missing, where a product is too large,
/// and where the result is not an `i64` or is negative; callers block the charge
/// then.
pub fn to_minor_units_ceil(
    ex_rates: &ExchangeRates,
    from_currency: Currency,
    to_currency: Currency,
    amount_minor: i64,
) -> (r: Option<i64>)
    ensures
        r is Some <==> ex_rates@.minor_units_ceil(
            from_currency,
            to_currency,
            amount_minor as int,
        ) is Some,
        r matches Some(value) ==> ex_rates@.minor_units_ceil(
            from_currency,
            to_currency,
            amount_minor as int,
        ) == Some(value as int),
{
    if amount_minor < 0 {
        return None;
    }
    if from_currency == to_currency {
        return Some(amount_minor);
    }
    let digits: u8 = from_currency.number_of_digits_after_decimal_point();
    let charged = Decimal::new(amount_minor, digits as u32);
    let major = match exchange(ex_rates, from_currency, to_currency, charged) {
        Ok(major) => major,
        Err(_) => {
            return None;
        },
    };
    let exponent: u8 = to_currency.number_of_digits_after_decimal_point();
    let scale = Decimal::new(power_of_ten(exponent), 0);
    let ghost exact = major@.exact_product(minor_per_major(to_currency));
    let product = match major.checked_mul(scale) {
        Some(product) => product,
        None => {
            proof {
                lemma_beyond_decimals(exact);
            }
            return None;
        },
    };
    proof {
        decimal::lemma_same_number_same_ceiling(product@, exact);
    }
    let minor = product.ceil();
    assert(decimal::pow10(0) == 1);
    assert(minor@.truncated() == minor@.mantissa);
    match minor.to_i64() {
        Some(value) => if value >= 0 {
            Some(value)
        } else {
            None
        },
        None => None,
    }
}

/// A charge whose currency is that of the limit is counted as it is.
pub proof fn law_same_currency_is_identity(rates: RatesView, currency: Currency, amount: int)
    requires
        amount >= 0,
    ensures
        rates.minor_units_ceil(currency, currency, amount) == Some(amount),
{
}

/// There is a converted amount only where the table leads from the one currency
/// to the other.
pub proof fn law_missing_rate_has_no_amount(
    rates: RatesView,
    from: Currency,
    to: Currency,
    amount: int,
)
    requires
        from != to,
        !rates.supports(from, to),
    ensures
        rates.converted(from, to, amount) is Err,
        rates.minor_units_ceil(from, to, amount) is None,
{
}

/// The ceiling of a number beyond the largest decimal is no `i64`, or is negative.
proof fn lemma_beyond_decimals(d: DecimalView)
    requires
        d.mantissa > decimal::MAX_MANTISSA * decimal::pow10(d.scale) || d.mantissa
            < -decimal::MAX_MANTISSA * decimal::pow10(d.scale),
    ensures
        !(0 <= d.ceiling() <= i64::MAX),
{
    let p = decimal::pow10(d.scale);
    decimal::lemma_pow10_positive(d.scale);
    decimal::law_ceiling_is_least(d, -decimal::MAX_MANTISSA as int);
    if d.mantissa > decimal::MAX_MANTISSA * p {
        let n = d.ceiling();
        assert(n > decimal::MAX_MANTISSA) by (nonlinear_arith)
            requires
                n * p > decimal::MAX_MANTISSA * p,
                p > 0,
        ;
    }
}

/// A converted charge counts as the least number of minor units that is not below
/// the decimal it was converted to.
pub proof fn law_conversion_rounds_up(
    rates: RatesView,
    from: Currency,
    to: Currency,
    amount: int,
    other: int,
)
    requires
        from != to,
        rates.minor_units_ceil(from, to, amount) is Some,
    ensures
        ({
            let units = rates.minor_units_ceil(from, to, amount)->0;
            let major = rates.exchanged(from, to, charged_amount(amount, from))->Ok_0;
            let minor = major.exact_product(minor_per_major(to));
            &&& units >= 0
            &&& DecimalView::new(units, 0).at_least(minor)
            &&& DecimalView::new(other, 0).at_least(minor) ==> other >= units
        }),
{
    let major = rates.exchanged(from, to, charged_amount(amount, from))->Ok_0;
    decimal::law_ceiling_is_least(major.exact_product(minor_per_major(to)), other);
    assert(decimal::pow10(0) == 1);
}

/// A converted charge is never counted for less than the exact amount, unless the
/// products with the rates were rounded below that.
pub proof fn law_converted_charge_is_not_undercounted(
    rates: RatesView,
    from: Currency,
    to: Currency,
    amount: int,
)
    requires
        from != to,
        rates.minor_units_ceil(from, to, amount) is Some,
        rates.exchanged(from, to, charged_amount(amount, from))->Ok_0.at_least(
            rates.exact_charge(from, to, amount),
        ),
    ensures
        DecimalView::new(rates.minor_units_ceil(from, to, amount)->0, 0).at_least(
            rates.exact_charge(from, to, amount).exact_product(minor_per_major(to)),
        ),
{
    let major = rates.exchanged(from, to, charged_amount(amount, from))->Ok_0;
    let exact = rates.exact_charge(from, to, amount);
    law_conversion_rounds_up(rates, from, to, amount, 0);
    lemma_shift_keeps_order(major, exact, to);
    decimal::lemma_at_least_transitive(
        DecimalView::new(rates.minor_units_ceil(from, to, amount)->0, 0),
        major.exact_product(minor_per_major(to)),
        exact.exact_product(minor_per_major(to)),
    );
}

/// Counting in minor units keeps the order of amounts.
proof fn lemma_shift_keeps_order(a: DecimalView, b: DecimalView, c: Currency)
    requires
        a.at_least(b),
    ensures
        a.exact_product(minor_per_major(c)).at_least(b.exact_product(minor_per_major(c))),
{
    decimal::lemma_pow10_positive(c.fraction_digits());
    let p = decimal::pow10(c.fraction_digits());
    let (pa, pb) = (decimal::pow10(a.scale), decimal::pow10(b.scale));
    let (ma, mb) = (a.mantissa, b.mantissa);
    assert((ma * p) * pb >= (mb * p) * pa) by (nonlinear_arith)
        requires
            ma * pb >= mb * pa,
            p > 0,
    {
        assert((ma * p) * pb == (ma * pb) * p);
        assert((mb * p) * pa == (mb * pa) * p);
    }
}

/// A product in range, in full: zero has no digits after the point.
proof fn lemma_product_in_range(a: DecimalView, b: DecimalView)
    requires
        a.exact_product(b).in_range(),
    ensures
        a.times(b) == Some(plain_zero(a.exact_product(b))),
{
    if a.mantissa == 0 || b.mantissa == 0 {
        assert(a.mantissa * b.mantissa == 0) by (nonlinear_arith)
            requires
                a.mantissa == 0 || b.mantissa == 0,
        ;
    } else {
        assert(a.mantissa * b.mantissa != 0) by (nonlinear_arith)
            requires
                a.mantissa != 0,
                b.mantissa != 0,
        ;
    }
}

/// The number itself, or zero without digits after the point.
spec fn plain_zero(d: DecimalView) -> DecimalView {
    if d.mantissa == 0 {
        DecimalView::new(0, 0)
    } else {
        d
    }
}

/// What an exchange whose exact products are in range gives.
proof fn lemma_exchange_in_range(
    rates: RatesView,
    from: Currency,
    to: Currency,
    major: DecimalView,
)
    requires
        rates.supports(from, to),
        major.exact_product(rates.exact_factor(from, to)).in_range(),
        from != rates.base_currency && to != rates.base_currency ==> major.exact_product(
            rates.conversion[from].from_factor,
        ).in_range(),
    ensures
        rates.exchanged(from, to, major) == Ok::<DecimalView, CurrencyConversionError>(
            plain_zero(major.exact_product(rates.exact_factor(from, to))),
        ),
{
    let exact = major.exact_product(rates.exact_factor(from, to));
    if to == rates.base_currency || from == rates.base_currency {
        lemma_product_in_range(major, rates.exact_factor(from, to));
    } else {
        let f = rates.conversion[from].from_factor;
        let t = rates.conversion[to].to_factor;
        lemma_product_in_range(major, f);
        let (ma, mf, mt) = (major.mantissa, f.mantissa, t.mantissa);
        assert(ma * (mf * mt) == (ma * mf) * mt) by (nonlinear_arith);
        let base_amount = major.exact_product(f);
        assert(base_amount.exact_product(t) == exact);
        if base_amount.mantissa == 0 {
            assert(0 * mt == 0);
        } else {
            lemma_product_in_range(base_amount, t);
        }
    }
}

/// Where the exact products are in range, the converted amount is exact,
/// whichever of the two currencies is the base, or neither.
pub proof fn law_conversion_in_range_is_exact(
    rates: RatesView,
    from: Currency,
    to: Currency,
    amount: int,
)
    requires
        rates.supports(from, to),
        rates.exact_conversion(from, to, amount).in_range(),
        from != rates.base_currency && to != rates.base_currency ==> major_amount(
            amount,
            from,
        ).exact_product(rates.conversion[from].from_factor).in_range(),
    ensures
        rates.converted(from, to, amount) is Ok,
        rates.converted(from, to, amount)->Ok_0.same_number(
            rates.exact_conversion(from, to, amount),
        ),
{
    lemma_exchange_in_range(rates, from, to, major_amount(amount, from));
    let exact = rates.exact_conversion(from, to, amount);
    assert(0 * decimal::pow10(exact.scale) == 0);
}

/// Where the exact products with the rates are in range, a converted charge counts
/// as the least number of minor units that is not below the exact amount.
pub proof fn law_charge_in_range_counts_in_full(
    rates: RatesView,
    from: Currency,
    to: Currency,
    amount: int,
    other: int,
)
    requires
        from != to,
        rates.supports(from, to),
        from != rates.base_currency && to != rates.base_currency ==> charged_amount(
            amount,
            from,
        ).exact_product(rates.conversion[from].from_factor).in_range(),
        rates.exact_charge(from, to, amount).in_range(),
        rates.minor_units_ceil(from, to, amount) is Some,
    ensures
        ({
            let units = rates.minor_units_ceil(from, to, amount)->0;
            let exact = rates.exact_charge(from, to, amount).exact_product(minor_per_major(to));
            &&& DecimalView::new(units, 0).at_least(exact)
            &&& DecimalView::new(other, 0).at_least(exact) ==> other >= units
        }),
{
    let major = rates.exchanged(from, to, charged_amount(amount, from))->Ok_0;
    let exact = rates.exact_charge(from, to, amount);
    let factor = minor_per_major(to);
    lemma_exchange_in_range(rates, from, to, charged_amount(amount, from));
    assert(0 * decimal::pow10(exact.scale) == 0);
    assert(major.same_number(exact));
    law_conversion_rounds_up(rates, from, to, amount, other);
    lemma_shift_keeps_order(major, exact, to);
    lemma_shift_keeps_order(exact, major, to);
    decimal::lemma_at_least_transitive(
        DecimalView::new(rates.minor_units_ceil(from, to, amount)->0, 0),
        major.exact_product(factor),
        exact.exact_product(factor),
    );
    if DecimalView::new(other, 0).at_least(exact.exact_product(factor)) {
        decimal::lemma_at_least_transitive(
            DecimalView::new(other, 0),
            exact.exact_product(factor),
            major.exact_product(factor),
        );
    }
}

/// An amount converted to the base currency is its product with the second factor
/// of its currency, and one converted from the base is its product with the first
/// factor. Between two other currencies the one follows the other. A missing factor
/// and a product that is too large are errors, and nothing else is.
pub proof fn law_conversion_goes_by_way_of_the_base(
    rates: RatesView,
    from: Currency,
    to: Currency,
    amount: int,
)
    ensures
        ({
            let major = DecimalView::new(amount, iso_exponent(from));
            let f = rates.conversion[from].from_factor;
            let t = rates.conversion[to].to_factor;
            let base = rates.base_currency;
            let result = rates.converted(from, to, amount);
            let too_large = Err::<DecimalView, CurrencyConversionError>(
                CurrencyConversionError::DecimalMultiplicationFailed,
            );
            let has_from = rates.conversion.contains_key(from);
            let has_to = rates.conversion.contains_key(to);
            &&& to == base && has_from ==> {
                &&& major.times(f) matches Some(product) ==> result == Ok::<
                    DecimalView,
                    CurrencyConversionError,
                >(product)
                &&& major.times(f) is None ==> result == too_large
            }
            &&& to != base && from == base && has_to ==> {
                &&& major.times(t) matches Some(product) ==> result == Ok::<
                    DecimalView,
                    CurrencyConversionError,
                >(product)
                &&& major.times(t) is None ==> result == too_large
            }
            &&& to != base && from != base && has_from && has_to ==> {
                &&& major.times(f) is None ==> result == too_large
                &&& major.times(f) matches Some(middle) ==> {
                    &&& middle.times(t) matches Some(product) ==> result == Ok::<
                        DecimalView,
                        CurrencyConversionError,
                    >(product)
                    &&& middle.times(t) is None ==> result == too_large
                }
            }
            &&& !has_from && (to == base || from != base) ==> result == Err::<
                DecimalView,
                CurrencyConversionError,
            >(CurrencyConversionError::ConversionNotSupported(from))
            &&& !has_to && to != base && (from == base || has_from && major.times(f) is Some)
                ==> result == Err::<DecimalView, CurrencyConversionError>(
                CurrencyConversionError::ConversionNotSupported(to),
            )
        }),
{
}

/// A charge in another currency than that of the limit counts, whenever the factors
/// that lead there are in the table and the products with them exist: as the least
/// number of minor units that is not below the product, if that is an `i64` and not
/// negative. `middle` is the amount in the base currency where neither of the two is
/// the base.
pub proof fn law_charge_counts_by_way_of_the_base(
    rates: RatesView,
    from: Currency,
    to: Currency,
    amount: int,
    middle: DecimalView,
    major: DecimalView,
    units: int,
)
    requires
        from != to,
        amount >= 0,
        ({
            let charged = DecimalView::new(amount, from.fraction_digits());
            let base = rates.base_currency;
            &&& to == base ==> {
                &&& rates.conversion.contains_key(from)
                &&& charged.times(rates.conversion[from].from_factor) == Some(major)
            }
            &&& from == base ==> {
                &&& rates.conversion.contains_key(to)
                &&& charged.times(rates.conversion[to].to_factor) == Some(major)
            }
            &&& to != base && from != base ==> {
                &&& rates.conversion.contains_key(from)
                &&& rates.conversion.contains_key(to)
                &&& charged.times(rates.conversion[from].from_factor) == Some(middle)
                &&& middle.times(rates.conversion[to].to_factor) == Some(major)
            }
        }),
        (units - 1) * decimal::pow10(major.scale) < major.mantissa * decimal::pow10(
            to.fraction_digits(),
        ) <= units * decimal::pow10(major.scale),
    ensures
        0 <= units <= i64::MAX ==> rates.minor_units_ceil(from, to, amount) == Some(units),
        !(0 <= units <= i64::MAX) ==> rates.minor_units_ceil(from, to, amount) is None,
{
    let minor = major.exact_product(minor_per_major(to));
    lemma_least_is_ceiling(minor, units);
}

proof fn lemma_least_is_ceiling(d: DecimalView, units: int)
    requires
        (units - 1) * decimal::pow10(d.scale) < d.mantissa <= units * decimal::pow10(d.scale),
    ensures
        d.ceiling() == units,
{
    let p = decimal::pow10(d.scale);
    decimal::lemma_pow10_positive(d.scale);
    decimal::law_ceiling_is_least(d, units);
    let n = d.ceiling();
    if n <= units - 1 {
        assert(n * p <= (units - 1) * p) by (nonlinear_arith)
            requires
                n <= units - 1,
                p > 0,
        ;
    }
}

/// A charge counts whenever the table has the factors and the exact products with
/// them are in range. `factor` is the factor to the base, the factor from the base,
/// or the product of the two; the charge counts as the least number of minor units
/// that is not below its amount times the factor.
pub proof fn law_supported_charge_is_counted(
    rates: RatesView,
    from: Currency,
    to: Currency,
    amount: int,
    factor: DecimalView,
    units: int,
)
    requires
        from != to,
        amount >= 0,
        ({
            let base = rates.base_currency;
            let f = rates.conversion[from].from_factor;
            let t = rates.conversion[to].to_factor;
            &&& to == base ==> rates.conversion.contains_key(from) && factor == f
            &&& from == base ==> rates.conversion.contains_key(to) && factor == t
            &&& to != base && from != base ==> {
                &&& rates.conversion.contains_key(from)
                &&& rates.conversion.contains_key(to)
                &&& factor == DecimalView::new(f.mantissa * t.mantissa, f.scale + t.scale)
                &&& DecimalView::new(
                    amount * f.mantissa,
                    from.fraction_digits() + f.scale,
                ).in_range()
            }
        }),
        DecimalView::new(
            amount * factor.mantissa,
            from.fraction_digits() + factor.scale,
        ).in_range(),
        ({
            let one_unit = decimal::pow10(from.fraction_digits() + factor.scale);
            let total = (amount * factor.mantissa) * decimal::pow10(to.fraction_digits());
            (units - 1) * one_unit < total <= units * one_unit
        }),
        0 <= units <= i64::MAX,
    ensures
        rates.minor_units_ceil(from, to, amount) == Some(units),
{
    let charged = charged_amount(amount, from);
    let exact = charged.exact_product(factor);
    assert(factor == rates.exact_factor(from, to));
    lemma_exchange_in_range(rates, from, to, charged);
    let major = rates.exchanged(from, to, charged)->Ok_0;
    assert(0 * decimal::pow10(exact.scale) == 0);
    assert(major.same_number(exact));
    lemma_shift_keeps_order(major, exact, to);
    lemma_shift_keeps_order(exact, major, to);
    decimal::lemma_same_number_same_ceiling(
        major.exact_product(minor_per_major(to)),
        exact.exact_product(minor_per_major(to)),
    );
    lemma_least_is_ceiling(exact.exact_product(minor_per_major(to)), units);
}

/// A charge does not count if it is negative, if a factor is missing, or if a
/// product with a factor is too large.
pub proof fn law_charge_without_a_rate_does_not_count(
    rates: RatesView,
    from: Currency,
    to: Currency,
    amount: int,
)
    ensures
        amount < 0 ==> rates.minor_units_ceil(from, to, amount) is None,
        from != to && from != rates.base_currency && !rates.conversion.contains_key(from)
            ==> rates.minor_units_ceil(from, to, amount) is None,
        from != to && to != rates.base_currency && !rates.conversion.contains_key(to)
            ==> rates.minor_units_ceil(from, to, amount) is None,
        from != to && from != rates.base_currency && DecimalView::new(
            amount,
            from.fraction_digits(),
        ).times(rates.conversion[from].from_factor) is None ==> rates.minor_units_ceil(
            from,
            to,
            amount,
        ) is None,
        from != to && from == rates.base_currency && DecimalView::new(
            amount,
            from.fraction_digits(),
        ).times(rates.conversion[to].to_factor) is None ==> rates.minor_units_ceil(
            from,
            to,
            amount,
        ) is None,
        from != to && from != rates.base_currency && to != rates.base_currency ==> (
        DecimalView::new(amount, from.fraction_digits()).times(
            rates.conversion[from].from_factor,
        ) matches Some(middle) ==> (middle.times(rates.conversion[to].to_factor) is None
            ==> rates.minor_units_ceil(from, to, amount) is None)),
{
}

/// The factors that a table shows are those of its currencies, and the result of a
/// conversion shows its amount, or its error.
pub proof fn law_views_show_all_of_a_conversion(
    factors: CurrencyFactors,
    rates: ExchangeRates,
    amount: Decimal,
    error: CurrencyConversionError,
)
    ensures
        factors@.to_factor == factors.to_factor@,
        factors@.from_factor == factors.from_factor@,
        rates@.base_currency == rates.base_currency,
        rates@.conversion == rates.conversion@,
        conversion_result(Ok(amount)) == Ok::<DecimalView, CurrencyConversionError>(amount@),
        conversion_result(Err(error)) == Err::<DecimalView, CurrencyConversionError>(error),
        decimal::decimal_option(Some(amount)) == Some(amount@),
        decimal::decimal_option(None) is None,
{
}

/// How many digits after the point each currency has for `rusty_money`.
pub proof fn law_digits_of_rusty_money(c: Currency)
    ensures
        iso_exponent(c) == 0 <==> (c == Currency::BIF || c == Currency::CLP || c == Currency::DJF
            || c == Currency::GNF || c == Currency::HUF || c == Currency::ISK || c == Currency::JPY
            || c == Currency::KMF || c == Currency::KRW || c == Currency::PYG || c == Currency::RWF
            || c == Currency::UGX || c == Currency::VND || c == Currency::VUV || c == Currency::XAF
            || c == Currency::XOF || c == Currency::XPF),
        iso_exponent(c) == 1 <==> (c == Currency::MGA || c == Currency::MRU),
        iso_exponent(c) == 3 <==> (c == Currency::BHD || c == Currency::IQD || c == Currency::JOD
            || c == Currency::KWD || c == Currency::LYD || c == Currency::OMR || c
            == Currency::TND),
        iso_exponent(c) == 4 <==> c == Currency::CLF,
        iso_exponent(c) <= 4,
{
}

} // verus!
