//! Tables of exchange rates, from the feeds of the rate providers and from
//! configuration.

use vstd::hash_map::StringHashMap;
use vstd::prelude::*;

use crate::conversion::{
    self, ConversionTable, CurrencyConversionError, CurrencyFactors, ExchangeRates, FactorsView,
    RatesView,
};
use crate::currency::{self, Currency, CURRENCY_COUNT};
use crate::decimal::{self, Decimal, DecimalView};
use crate::forex::error::ForexError;
use crate::text;

verus! {

/// What the keys of the Currency Layer feed begin with: the source currency.
pub const CURRENCY_LAYER_QUOTE_PREFIX: &'static str = "USD";

/// The number one.
pub open spec fn one() -> DecimalView {
    DecimalView::new(1, 0)
}

/// The rate of a currency in a feed: one for the base currency, and for any other
/// what the feed quotes.
pub open spec fn feed_rate(
    base: Currency,
    quote: spec_fn(Currency) -> Option<DecimalView>,
    c: Currency,
) -> Option<DecimalView> {
    if c == base {
        Some(one())
    } else {
        quote(c)
    }
}

/// The table of a feed: for each currency with a rate other than zero, the rate
/// and its inverse.
pub open spec fn built_table(
    base: Currency,
    quote: spec_fn(Currency) -> Option<DecimalView>,
) -> Map<Currency, FactorsView> {
    Map::new(
        |c: Currency| feed_rate(base, quote, c) matches Some(rate) && rate.mantissa != 0,
        |c: Currency|
            FactorsView {
                to_factor: feed_rate(base, quote, c)->0,
                from_factor: one().over(feed_rate(base, quote, c)->0)->0,
            },
    )
}

/// Whether the second factor of each currency of a table is the quotient of one
/// and the first, exact where it can be.
pub open spec fn has_inverses(table: Map<Currency, FactorsView>) -> bool {
    forall|c: Currency| #[trigger]
        table.contains_key(c) ==> {
            &&& one().over(table[c].to_factor) == Some(table[c].from_factor)
            &&& one().divides_exactly(table[c].to_factor, Some(table[c].from_factor))
        }
}

/// Whether `quote` is what calls of `rate_of` returned, one for each currency
/// but the base.
pub open spec fn quotes_of<F: Fn(Currency) -> Option<Decimal>>(
    base: Currency,
    rate_of: F,
    quote: spec_fn(Currency) -> Option<DecimalView>,
) -> bool {
    forall|c: Currency| c != base ==> quoted_by(rate_of, c, #[trigger] quote(c))
}

/// Whether `rate` can be what a call of `rate_of` returns for a currency.
pub open spec fn quoted_by<F: Fn(Currency) -> Option<Decimal>>(
    rate_of: F,
    c: Currency,
    rate: Option<DecimalView>,
) -> bool {
    exists|r: Option<Decimal>| #[trigger]
        call_ensures(rate_of, (c,), r) && decimal::decimal_option(r) == rate
}

/// The quotes in the order of the currencies, as a function.
spec fn listed(quotes: Seq<Option<DecimalView>>) -> spec_fn(Currency) -> Option<DecimalView> {
    |c: Currency| quotes[c.ordinal() as int]
}

/// Builds the table of a feed. `rate_of` tells how many units of a currency one
/// unit of the base currency is worth. The base currency has a rate of one,
/// whatever the feed says of it, so that conversions from and to the base are
/// always defined. A rate of zero, which has no inverse, is left out; any other
/// has one.
pub fn build_exchange_rates<F: Fn(Currency) -> Option<Decimal>>(
    base_currency: Currency,
    rate_of: F,
) -> (r: ExchangeRates)
    requires
        forall|c: Currency| #[trigger] call_requires(rate_of, (c,)),
    ensures
        r.base_currency == base_currency,
        exists|quote: spec_fn(Currency) -> Option<DecimalView>| #[trigger]
            quotes_of(base_currency, rate_of, quote) && r.conversion@ == built_table(
                base_currency,
                quote,
            ),
        has_inverses(r.conversion@),
{
    let mut conversions = ConversionTable::new();
    let ghost mut quotes: Seq<Option<DecimalView>> = Seq::empty();
    let one = Decimal::new(1, 0);
    let mut i: u64 = 0;
    while i < CURRENCY_COUNT
        invariant
            i <= CURRENCY_COUNT,
            one@ == DecimalView::new(1, 0),
            quotes.len() == i,
            forall|c: Currency| #[trigger] call_requires(rate_of, (c,)),
            forall|c: Currency| #[trigger]
                c.ordinal() < i && c != base_currency ==> quoted_by(
                    rate_of,
                    c,
                    quotes[c.ordinal() as int],
                ),
            forall|c: Currency| #[trigger]
                conversions@.contains_key(c) <==> c.ordinal() < i && built_table(
                    base_currency,
                    listed(quotes),
                ).contains_key(c),
            forall|c: Currency| #[trigger]
                conversions@.contains_key(c) ==> conversions@[c] == built_table(
                    base_currency,
                    listed(quotes),
                )[c],
            has_inverses(conversions@),
        decreases CURRENCY_COUNT - i,
    {
        let enum_curr = Currency::from_index(i).unwrap();
        let ghost before = conversions@;
        let ghost earlier = quotes;
        let rate = if enum_curr == base_currency {
            Some(one)
        } else {
            rate_of(enum_curr)
        };
        proof {
            quotes = quotes.push(decimal::decimal_option(rate));
            assert(enum_curr.ordinal() == i);
            assert forall|c: Currency| c.ordinal() == i implies c == enum_curr by {
                currency::lemma_ordinal_injective(c, enum_curr);
            }
            assert forall|c: Currency| c.ordinal() < i implies #[trigger] listed(quotes)(c)
                == listed(earlier)(c) by {}
            assert(listed(quotes)(enum_curr) == decimal::decimal_option(rate));
        }
        if let Some(rate) = rate {
            if let Some(from_factor) = one.checked_div(rate) {
                conversions.insert(enum_curr, CurrencyFactors::new(rate, from_factor));
            }
        }
        i = i + 1;
    }
    proof {
        assert forall|c: Currency| #[trigger] c.ordinal() < CURRENCY_COUNT by {
            currency::lemma_ordinal_round_trip(c);
        }
        assert(conversions@ =~= built_table(base_currency, listed(quotes)));
        assert(quotes_of(base_currency, rate_of, listed(quotes)));
    }
    ExchangeRates::new(base_currency, conversions)
}

/// Tables are the same for quotes that agree on every currency but the base.
proof fn lemma_table_of_quotes(
    base: Currency,
    quote: spec_fn(Currency) -> Option<DecimalView>,
    other: spec_fn(Currency) -> Option<DecimalView>,
)
    requires
        forall|c: Currency| c != base ==> #[trigger] quote(c) == other(c),
    ensures
        built_table(base, quote) == built_table(base, other),
{
    assert(built_table(base, quote) =~= built_table(base, other));
}

/// The rates of a feed, by key.
pub struct RateSheet {
    rates: StringHashMap<Decimal>,
}

impl View for RateSheet {
    type V = Map<Seq<char>, DecimalView>;

    closed spec fn view(&self) -> Map<Seq<char>, DecimalView> {
        self.rates@.map_values(|rate: Decimal| rate@)
    }
}

/// The rate that a sheet has under a key, if any.
pub open spec fn quoted(sheet: Map<Seq<char>, DecimalView>, key: Seq<char>) -> Option<DecimalView> {
    if sheet.contains_key(key) {
        Some(sheet[key])
    } else {
        None
    }
}

/// The quotes of a sheet whose keys are the codes of currencies.
pub open spec fn quotes_by_code(sheet: Map<Seq<char>, DecimalView>) -> spec_fn(Currency) -> Option<
    DecimalView,
> {
    |c: Currency| quoted(sheet, c.alpha_code())
}

/// The quotes of a sheet whose keys are a prefix and the codes of currencies.
pub open spec fn quotes_by_prefixed_code(
    sheet: Map<Seq<char>, DecimalView>,
    prefix: Seq<char>,
) -> spec_fn(Currency) -> Option<DecimalView> {
    |c: Currency| quoted(sheet, prefix + c.alpha_code())
}

impl RateSheet {
    /// A sheet without rates.
    pub fn new() -> (r: RateSheet)
        ensures
            r@ == Map::<Seq<char>, DecimalView>::empty(),
    {
        let r = RateSheet { rates: StringHashMap::new() };
        assert(r@ =~= Map::<Seq<char>, DecimalView>::empty());
        r
    }

    /// Sets the rate under a key, in place of the one that was there.
    pub fn insert(&mut self, key: String, rate: Decimal)
        ensures
            final(self)@ == old(self)@.insert(key@, rate@),
    {
        let ghost before = self@;
        self.rates.insert(key, rate);
        assert(self@ =~= before.insert(key@, rate@));
    }

    /// The rate under a key, if any.
    pub fn get(&self, key: &str) -> (r: Option<Decimal>)
        ensures
            decimal::decimal_option(r) == quoted(self@, key@),
    {
        match self.rates.get(key) {
            Some(rate) => Some(*rate),
            None => None,
        }
    }

    /// Whether there are no rates.
    pub fn is_empty(&self) -> (r: bool)
        ensures
            r == (self@ == Map::<Seq<char>, DecimalView>::empty()),
    {
        let r = self.rates.is_empty();
        proof {
            if r {
                assert(self@ =~= Map::<Seq<char>, DecimalView>::empty());
            } else if self@ == Map::<Seq<char>, DecimalView>::empty() {
                assert(self.rates@.dom() =~= self@.dom());
            }
        }
        r
    }
}

/// The table of a sheet whose keys are the codes of currencies.
fn table_by_code(base_currency: Currency, sheet: &RateSheet) -> (r: ExchangeRates)
    ensures
        r@ == (RatesView {
            base_currency,
            conversion: built_table(base_currency, quotes_by_code(sheet@)),
        }),
        has_inverses(r.conversion@),
{
    let rate_of = |c: Currency| -> (rate: Option<Decimal>)
        ensures
            decimal::decimal_option(rate) == quoted(sheet@, c.alpha_code()),
        { sheet.get(c.code()) };
    let r = build_exchange_rates(base_currency, rate_of);
    proof {
        let quote = choose|quote: spec_fn(Currency) -> Option<DecimalView>| #[trigger]
            quotes_of(base_currency, rate_of, quote) && r.conversion@ == built_table(
                base_currency,
                quote,
            );
        lemma_table_of_quotes(base_currency, quote, quotes_by_code(sheet@));
    }
    r
}

/// An answer of Open Exchange Rates, whose base is the US dollar.
pub struct OerResponse {
    pub rates: RateSheet,
}

impl OerResponse {
    /// The table of the answer.
    pub fn into_exchange_rates(self) -> (r: ExchangeRates)
        ensures
            r@ == (RatesView {
                base_currency: Currency::USD,
                conversion: built_table(Currency::USD, quotes_by_code(self.rates@)),
            }),
            has_inverses(r.conversion@),
    {
        table_by_code(Currency::USD, &self.rates)
    }
}

/// An answer of Currency Layer, whose base is the US dollar. Its keys have the
/// code of the base in front, as in `USDZAR`.
pub struct CurrencyLayerResponse {
    pub quotes: RateSheet,
}

impl CurrencyLayerResponse {
    /// The table of the answer.
    pub fn into_exchange_rates(self) -> (r: ExchangeRates)
        ensures
            r@ == (RatesView {
                base_currency: Currency::USD,
                conversion: built_table(
                    Currency::USD,
                    quotes_by_prefixed_code(self.quotes@, CURRENCY_LAYER_QUOTE_PREFIX@),
                ),
            }),
            has_inverses(r.conversion@),
    {
        let quotes = &self.quotes;
        let rate_of = |c: Currency| -> (rate: Option<Decimal>)
            ensures
                decimal::decimal_option(rate) == quoted(
                    quotes@,
                    CURRENCY_LAYER_QUOTE_PREFIX@ + c.alpha_code(),
                ),
            { quotes.get(text::joined(CURRENCY_LAYER_QUOTE_PREFIX, c.code()).as_str()) };
        let r = build_exchange_rates(Currency::USD, rate_of);
        proof {
            let quote = choose|quote: spec_fn(Currency) -> Option<DecimalView>| #[trigger]
                quotes_of(Currency::USD, rate_of, quote) && r.conversion@ == built_table(
                    Currency::USD,
                    quote,
                );
            lemma_table_of_quotes(
                Currency::USD,
                quote,
                quotes_by_prefixed_code(self.quotes@, CURRENCY_LAYER_QUOTE_PREFIX@),
            );
        }
        r
    }
}

/// Why Fixer refused a request.
#[derive(Debug)]
pub struct FixerErrorBody {
    pub code: i64,
    pub error_type: String,
    pub info: Option<String>,
}

/// An answer of Fixer: rates and the base they refer to, or an error.
pub struct FixerResponse {
    /// Whether the request was served.
    pub success: bool,
    pub base: Option<String>,
    pub rates: Option<RateSheet>,
    pub error: Option<FixerErrorBody>,
}

/// The view of a table, or of why there is none.
pub open spec fn rates_result(r: Result<ExchangeRates, ForexError>) -> Result<
    RatesView,
    ForexError,
> {
    match r {
        Ok(rates) => Ok(rates@),
        Err(error) => Err(error),
    }
}

impl FixerResponse {
    /// The table of the answer, or why there is none: an answer that is an
    /// error, that has no rates or that names no base is an API error, and one
    /// whose base is not a known currency is a conversion error.
    pub open spec fn table(self) -> Result<RatesView, ForexError> {
        match (self.rates, self.base) {
            (Some(sheet), Some(base)) if self.success && sheet@ != Map::<
                Seq<char>,
                DecimalView,
            >::empty() => match Currency::of_code(base@) {
                Some(base_currency) => Ok(
                    RatesView {
                        base_currency,
                        conversion: built_table(base_currency, quotes_by_code(sheet@)),
                    },
                ),
                None => Err(ForexError::ConversionError),
            },
            _ => Err(ForexError::ApiError),
        }
    }

    /// The table of the answer, or why there is none.
    pub fn into_exchange_rates(self) -> (r: Result<ExchangeRates, ForexError>)
        ensures
            rates_result(r) == self.table(),
            r matches Ok(rates) ==> has_inverses(rates.conversion@),
    {
        if !self.success {
            return Err(ForexError::ApiError);
        }
        let rates = match self.rates {
            Some(rates) => {
                // Without rates the table would hold the base currency only.
                if rates.is_empty() {
                    return Err(ForexError::ApiError);
                }
                rates
            },
            None => {
                return Err(ForexError::ApiError);
            },
        };
        let base = match self.base {
            Some(base) => base,
            None => {
                return Err(ForexError::ApiError);
            },
        };
        match Currency::from_code(base.as_str()) {
            Some(base_currency) => Ok(table_by_code(base_currency, &rates)),
            None => Err(ForexError::ConversionError),
        }
    }
}

/// The factors of a currency, as configuration has them.
#[derive(Clone, Copy, Debug)]
pub struct Conversion {
    pub to_factor: Decimal,
    pub from_factor: Decimal,
}

impl From<Conversion> for CurrencyFactors {
    fn from(value: Conversion) -> (r: CurrencyFactors) {
        CurrencyFactors { to_factor: value.to_factor, from_factor: value.from_factor }
    }
}

impl vstd::std_specs::convert::FromSpecImpl<Conversion> for CurrencyFactors {
    open spec fn obeys_from_spec() -> bool {
        true
    }

    open spec fn from_spec(value: Conversion) -> CurrencyFactors {
        CurrencyFactors { to_factor: value.to_factor, from_factor: value.from_factor }
    }
}

/// The exchange rates of the configuration: the base currency, and the factors
/// of each currency by its code.
pub struct DefaultExchangeRates {
    pub base_currency: String,
    pub conversion: Vec<(String, Conversion)>,
}

/// The table of configured entries, if each has the code of a currency. A later
/// entry takes the place of an earlier one for the same currency.
pub open spec fn configured_table(entries: Seq<(String, Conversion)>) -> Option<
    Map<Currency, FactorsView>,
>
    decreases entries.len(),
{
    if entries.len() == 0 {
        Some(Map::empty())
    } else {
        let (code, conversion) = entries.last();
        match (configured_table(entries.drop_last()), Currency::of_code(code@)) {
            (Some(table), Some(c)) => Some(
                table.insert(
                    c,
                    FactorsView {
                        to_factor: conversion.to_factor@,
                        from_factor: conversion.from_factor@,
                    },
                ),
            ),
            _ => None,
        }
    }
}

impl DefaultExchangeRates {
    /// The table of the configuration, if all its codes are those of currencies.
    pub open spec fn table(self) -> Result<RatesView, ForexError> {
        match (configured_table(self.conversion@), Currency::of_code(self.base_currency@)) {
            (Some(conversion), Some(base_currency)) => Ok(RatesView { base_currency, conversion }),
            _ => Err(ForexError::ConversionError),
        }
    }
}

/// Entries that go on after one with an unknown code have no table.
proof fn lemma_unknown_code_spoils(entries: Seq<(String, Conversion)>, n: nat)
    requires
        n <= entries.len(),
        configured_table(entries.take(n as int)) is None,
    ensures
        configured_table(entries) is None,
    decreases entries.len(),
{
    if n == entries.len() {
        assert(entries.take(n as int) =~= entries);
    } else {
        assert(entries.drop_last().take(n as int) =~= entries.take(n as int));
        lemma_unknown_code_spoils(entries.drop_last(), n);
    }
}

impl ExchangeRates {
    /// The exchange rates of the configuration.
    pub fn try_from(value: DefaultExchangeRates) -> (r: Result<ExchangeRates, ForexError>)
        ensures
            rates_result(r) == value.table(),
    {
        let mut conversion_usable = ConversionTable::new();
        let ghost entries = value.conversion@;
        let mut i: usize = 0;
        while i < value.conversion.len()
            invariant
                i <= value.conversion.len(),
                entries == value.conversion@,
                configured_table(entries.take(i as int)) == Some(conversion_usable@),
            decreases value.conversion.len() - i,
        {
            let ghost seen = entries.take(i + 1);
            assert(seen.drop_last() =~= entries.take(i as int));
            assert(seen.last() == entries[i as int]);
            let entry = &value.conversion[i];
            match Currency::from_code(entry.0.as_str()) {
                Some(enum_curr) => {
                    conversion_usable.insert(enum_curr, CurrencyFactors::from(entry.1));
                },
                None => {
                    proof {
                        lemma_unknown_code_spoils(entries, (i + 1) as nat);
                    }
                    return Err(ForexError::ConversionError);
                },
            }
            i = i + 1;
        }
        assert(entries.take(i as int) =~= entries);
        match Currency::from_code(value.base_currency.as_str()) {
            Some(base_currency) => Ok(ExchangeRates::new(base_currency, conversion_usable)),
            None => Err(ForexError::ConversionError),
        }
    }
}

/// The base currency of a feed always has factors, and both are one.
pub proof fn law_base_is_identity(
    base: Currency,
    quote: spec_fn(Currency) -> Option<DecimalView>,
)
    ensures
        built_table(base, quote).contains_key(base),
        built_table(base, quote)[base] == (FactorsView { to_factor: one(), from_factor: one() }),
{
}

/// A currency other than the base is in the table of a feed if and only if it is
/// quoted and the quote is not zero; its factors are the quote and the inverse.
pub proof fn law_table_has_rate_and_inverse(
    base: Currency,
    quote: spec_fn(Currency) -> Option<DecimalView>,
    c: Currency,
)
    requires
        c != base,
    ensures
        built_table(base, quote).contains_key(c) <==> quote(c) is Some && quote(c)->0.mantissa
            != 0,
        built_table(base, quote).contains_key(c) ==> built_table(base, quote)[c] == (FactorsView {
            to_factor: quote(c)->0,
            from_factor: one().over(quote(c)->0)->0,
        }),
{
}

/// Where a rate of a feed has an inverse among the decimals, the second factor is
/// that inverse: an amount converted with both factors is the same again.
pub proof fn law_inverse_is_exact_where_it_can_be(
    table: Map<Currency, FactorsView>,
    c: Currency,
    inverse: DecimalView,
)
    requires
        has_inverses(table),
        table.contains_key(c),
        inverse.in_range(),
        inverse.exact_product(table[c].to_factor).same_number(one()),
    ensures
        table[c].from_factor.same_number(inverse),
        table[c].from_factor.exact_product(table[c].to_factor).same_number(one()),
{
    let (f, t, i) = (table[c].from_factor, table[c].to_factor, inverse);
    assert(f.same_number(i));
    decimal::lemma_pow10_adds(f.scale, t.scale);
    decimal::lemma_pow10_adds(i.scale, t.scale);
    decimal::lemma_pow10_positive(i.scale);
    assert(decimal::pow10(0) == 1);
    let (pf, pt, pi) = (decimal::pow10(f.scale), decimal::pow10(t.scale), decimal::pow10(i.scale));
    let (mf, mt, mi) = (f.mantissa, t.mantissa, i.mantissa);
    assert((mf * mt) * pi == (pf * pt) * pi) by (nonlinear_arith)
        requires
            mf * pi == mi * pf,
            mi * mt == pi * pt,
    {
        assert((mf * mt) * pi == (mf * pi) * mt);
        assert((mi * pf) * mt == (mi * mt) * pf);
        assert((pi * pt) * pf == (pf * pt) * pi);
    }
    assert(mf * mt == pf * pt) by (nonlinear_arith)
        requires
            (mf * mt) * pi == (pf * pt) * pi,
            pi > 0,
    ;
}

/// A quote of zero is left out of the table of a feed.
pub proof fn law_zero_rate_is_skipped(
    base: Currency,
    quote: spec_fn(Currency) -> Option<DecimalView>,
    c: Currency,
)
    requires
        c != base,
        quote(c) matches Some(rate) && rate.mantissa == 0,
    ensures
        !built_table(base, quote).contains_key(c),
{
}

/// With the table of a feed, an amount of the base currency converts to itself.
pub proof fn law_base_converts_to_itself(
    base: Currency,
    quote: spec_fn(Currency) -> Option<DecimalView>,
    amount: int,
)
    requires
        i64::MIN <= amount <= i64::MAX,
    ensures
        ({
            let rates = RatesView { base_currency: base, conversion: built_table(base, quote) };
            let converted = rates.converted(base, base, amount);
            converted is Ok && converted->Ok_0.same_number(
                conversion::major_amount(amount, base),
            )
        }),
{
    let rates = RatesView { base_currency: base, conversion: built_table(base, quote) };
    let major = conversion::major_amount(amount, base);
    law_base_is_identity(base, quote);
    assert(major.exact_product(one()) == major);
    decimal::law_product_in_range_is_exact(major, one());
}

/// The two feeds with plain keys and the one with prefixed keys give the same
/// table for the same rates.
pub proof fn law_prefix_is_stripped(
    base: Currency,
    plain: Map<Seq<char>, DecimalView>,
    prefixed: Map<Seq<char>, DecimalView>,
    prefix: Seq<char>,
)
    requires
        forall|code: Seq<char>| #[trigger]
            quoted(plain, code) == quoted(prefixed, prefix + code),
    ensures
        built_table(base, quotes_by_code(plain)) == built_table(
            base,
            quotes_by_prefixed_code(prefixed, prefix),
        ),
{
    lemma_table_of_quotes(base, quotes_by_code(plain), quotes_by_prefixed_code(prefixed, prefix));
}

/// Whatever the base of a feed, each pair of currencies in its table converts, in
/// either direction, unless a product is too large.
pub proof fn law_every_pair_converts(
    base: Currency,
    quote: spec_fn(Currency) -> Option<DecimalView>,
    from: Currency,
    to: Currency,
    amount: int,
)
    requires
        built_table(base, quote).contains_key(from),
        built_table(base, quote).contains_key(to),
    ensures
        ({
            let rates = RatesView { base_currency: base, conversion: built_table(base, quote) };
            &&& rates.supports(from, to)
            &&& rates.converted(from, to, amount) matches Err(error) ==> error
                == CurrencyConversionError::DecimalMultiplicationFailed
        }),
{
}

/// The table of a sheet whose keys are codes. The base is in it with factors of one.
/// Any other currency is in it if and only if the sheet has a rate other than zero
/// under its code; that rate is its first factor, and the quotient of one and the rate
/// is its second.
pub proof fn law_table_by_code(base: Currency, sheet: Map<Seq<char>, DecimalView>, c: Currency)
    ensures
        ({
            let table = built_table(base, quotes_by_code(sheet));
            let code = c.alpha_code();
            &&& c == base ==> {
                &&& table.contains_key(c)
                &&& table[c].to_factor.mantissa == 1
                &&& table[c].to_factor.scale == 0
                &&& table[c].from_factor.mantissa == 1
                &&& table[c].from_factor.scale == 0
            }
            &&& c != base ==> {
                &&& table.contains_key(c) <==> sheet.contains_key(code) && sheet[code].mantissa
                    != 0
                &&& table.contains_key(c) ==> {
                    &&& table[c].to_factor == sheet[code]
                    &&& table[c].from_factor == DecimalView::new(1, 0).over(sheet[code])->0
                }
            }
        }),
{
}

/// The table of a sheet whose keys are a prefix and codes: the rate of a currency is
/// the one under the prefix and its code.
pub proof fn law_table_by_prefixed_code(
    base: Currency,
    sheet: Map<Seq<char>, DecimalView>,
    prefix: Seq<char>,
    c: Currency,
)
    ensures
        CURRENCY_LAYER_QUOTE_PREFIX@ == "USD"@,
        ({
            let table = built_table(base, quotes_by_prefixed_code(sheet, prefix));
            let key = prefix + c.alpha_code();
            &&& c == base ==> {
                &&& table.contains_key(c)
                &&& table[c].to_factor.mantissa == 1
                &&& table[c].to_factor.scale == 0
                &&& table[c].from_factor.mantissa == 1
                &&& table[c].from_factor.scale == 0
            }
            &&& c != base ==> {
                &&& table.contains_key(c) <==> sheet.contains_key(key) && sheet[key].mantissa != 0
                &&& table.contains_key(c) ==> {
                    &&& table[c].to_factor == sheet[key]
                    &&& table[c].from_factor == DecimalView::new(1, 0).over(sheet[key])->0
                }
            }
        }),
{
}

/// A sheet has the rates under its keys, and no others.
pub proof fn law_sheet_has_its_rates(sheet: Map<Seq<char>, DecimalView>, key: Seq<char>)
    ensures
        quoted(sheet, key) is Some <==> sheet.contains_key(key),
        quoted(sheet, key) matches Some(rate) ==> rate == sheet[key],
{
}

/// What an answer of Fixer comes to: the table of its rates for the base that it
/// names, if the request was served and it has rates and a base; an unknown base is a
/// conversion error, and any other answer an API error.
pub proof fn law_answers_of_fixer(answer: FixerResponse)
    ensures
        ({
            let served = answer.success && answer.base is Some && answer.rates is Some && exists|
                key: Seq<char>,
            | #[trigger]
                answer.rates->0@.contains_key(key);
            &&& !served <==> answer.table() == Err::<RatesView, ForexError>(ForexError::ApiError)
            &&& served && Currency::of_code(answer.base->0@) is None ==> answer.table() == Err::<
                RatesView,
                ForexError,
            >(ForexError::ConversionError)
            &&& served && Currency::of_code(answer.base->0@) is Some ==> {
                let table = answer.table();
                let base = Currency::of_code(answer.base->0@)->0;
                &&& table is Ok
                &&& table->Ok_0.base_currency == base
                &&& table->Ok_0.conversion == built_table(
                    base,
                    quotes_by_code(answer.rates->0@),
                )
            }
        }),
{
    if let Some(sheet) = answer.rates {
        let none = Map::<Seq<char>, DecimalView>::empty();
        if forall|key: Seq<char>| !#[trigger] sheet@.contains_key(key) {
            assert(sheet@ =~= none);
        } else {
            let key = choose|key: Seq<char>| #[trigger] sheet@.contains_key(key);
            assert(!none.contains_key(key));
        }
    }
}

/// Configured entries have a table if and only if each of their codes stands for a
/// currency.
pub proof fn law_configured_codes_are_known(entries: Seq<(String, Conversion)>)
    ensures
        configured_table(entries) is Some <==> forall|i: int|
            0 <= i < entries.len() ==> Currency::of_code((#[trigger] entries[i]).0@) is Some,
    decreases entries.len(),
{
    if entries.len() > 0 {
        let rest = entries.drop_last();
        law_configured_codes_are_known(rest);
        assert(entries[entries.len() - 1] == entries.last());
        assert forall|i: int| 0 <= i < rest.len() implies rest[i] == #[trigger] entries[i] by {}
        if forall|i: int|
            0 <= i < entries.len() ==> Currency::of_code((#[trigger] entries[i]).0@) is Some {
            assert forall|i: int| 0 <= i < rest.len() implies Currency::of_code(
                (#[trigger] rest[i]).0@,
            ) is Some by {
                assert(rest[i] == entries[i]);
            }
        }
    }
}

/// The factors of a currency in the table of configured entries are those of the last
/// entry with its code.
pub proof fn law_last_configured_entry_counts(
    entries: Seq<(String, Conversion)>,
    i: int,
    c: Currency,
)
    requires
        configured_table(entries) is Some,
        0 <= i < entries.len(),
        Currency::of_code(entries[i].0@) == Some(c),
        forall|j: int|
            i < j < entries.len() ==> Currency::of_code((#[trigger] entries[j]).0@) != Some(c),
    ensures
        ({
            let table = configured_table(entries)->0;
            &&& table.contains_key(c)
            &&& table[c].to_factor == entries[i].1.to_factor@
            &&& table[c].from_factor == entries[i].1.from_factor@
        }),
    decreases entries.len(),
{
    let last = entries.len() - 1;
    assert(entries[last] == entries.last());
    if i < last {
        let rest = entries.drop_last();
        assert(rest[i] == entries[i]);
        assert forall|j: int| i < j < rest.len() implies Currency::of_code(
            (#[trigger] rest[j]).0@,
        ) != Some(c) by {
            assert(rest[j] == entries[j]);
        }
        law_last_configured_entry_counts(rest, i, c);
    }
}

/// A currency whose code no configured entry has is not in their table.
pub proof fn law_only_configured_currencies_count(
    entries: Seq<(String, Conversion)>,
    c: Currency,
)
    requires
        configured_table(entries) is Some,
        forall|i: int|
            0 <= i < entries.len() ==> Currency::of_code((#[trigger] entries[i]).0@) != Some(c),
    ensures
        !configured_table(entries)->0.contains_key(c),
    decreases entries.len(),
{
    if entries.len() > 0 {
        let rest = entries.drop_last();
        assert(entries[entries.len() - 1] == entries.last());
        assert forall|i: int| 0 <= i < rest.len() implies Currency::of_code(
            (#[trigger] rest[i]).0@,
        ) != Some(c) by {
            assert(rest[i] == entries[i]);
        }
        law_only_configured_currencies_count(rest, c);
    }
}

/// The rates of the configuration have the configured base and the table of its
/// entries; with any unknown code there are none, for a conversion error.
pub proof fn law_configured_rates(value: DefaultExchangeRates)
    ensures
        ({
            let base = Currency::of_code(value.base_currency@);
            let table = value.table();
            &&& table is Ok <==> base is Some && configured_table(value.conversion@) is Some
            &&& table matches Ok(rates) ==> {
                &&& rates.base_currency == base->0
                &&& rates.conversion == configured_table(value.conversion@)->0
            }
            &&& table matches Err(error) ==> error == ForexError::ConversionError
        }),
{
}

/// Tables and errors show all that they hold.
pub proof fn law_views_show_all_of_a_table(table: ExchangeRates, error: ForexError)
    ensures
        rates_result(Ok(table)) == Ok::<RatesView, ForexError>(table@),
        rates_result(Err(error)) == Err::<RatesView, ForexError>(error),
{
}

} // verus!
