use spending_limits::conversion::{
    convert, to_minor_units_ceil, ConversionTable, CurrencyConversionError, CurrencyFactors,
    ExchangeRates,
};
use spending_limits::currency::{Currency, CURRENCY_COUNT};
use spending_limits::decimal::{Decimal, MAX_MANTISSA};

/// The number as `rust_decimal` has it, for comparisons.
fn number(d: Decimal) -> rust_decimal::Decimal {
    rust_decimal::Decimal::from_i128_with_scale(d.mantissa(), d.scale())
}

fn expected(mantissa: i64, scale: u32) -> rust_decimal::Decimal {
    rust_decimal::Decimal::new(mantissa, scale)
}

fn two_entry_rates(
    base: Currency,
    first: (Currency, CurrencyFactors),
    second: (Currency, CurrencyFactors),
) -> ExchangeRates {
    let mut conversion = ConversionTable::new();
    conversion.insert(first.0, first.1);
    conversion.insert(second.0, second.1);
    ExchangeRates::new(base, conversion)
}

fn one() -> CurrencyFactors {
    CurrencyFactors::new(Decimal::new(1, 0), Decimal::new(1, 0))
}

#[test]
fn currency_to_currency_conversion() {
    let inr_conversion_rates = CurrencyFactors::new(Decimal::new(823173, 4), Decimal::new(1214, 5));
    let szl_conversion_rates = CurrencyFactors::new(Decimal::new(194423, 4), Decimal::new(514, 4));
    let convert_from = Currency::SZL;
    let convert_to = Currency::INR;
    let amount = 2000;
    let sample_rate = two_entry_rates(
        Currency::USD,
        (convert_from, inr_conversion_rates),
        (convert_to, szl_conversion_rates),
    );
    let res = convert(&sample_rate, convert_from, convert_to, amount).expect("converted_currency");
    println!("The conversion from {amount} {convert_from:?} to {convert_to:?} is {res:?}");
    // 20.00 * 0.01214 * 19.4423
    assert_eq!(number(res), expected(472_059_044, 8));
}

#[test]
fn currency_to_base_conversion() {
    let inr_conversion_rates = CurrencyFactors::new(Decimal::new(823173, 4), Decimal::new(1214, 5));
    let convert_from = Currency::INR;
    let convert_to = Currency::USD;
    let amount = 2000;
    let sample_rate = two_entry_rates(
        Currency::USD,
        (convert_from, inr_conversion_rates),
        (convert_to, one()),
    );
    let res = convert(&sample_rate, convert_from, convert_to, amount).expect("converted_currency");
    println!("The conversion from {amount} {convert_from:?} to {convert_to:?} is {res:?}");
    assert_eq!(number(res), expected(2428, 4));
}

#[test]
fn base_to_currency_conversion() {
    let inr_conversion_rates = CurrencyFactors::new(Decimal::new(823173, 4), Decimal::new(1214, 5));
    let convert_from = Currency::USD;
    let convert_to = Currency::INR;
    let amount = 2000;
    let sample_rate = two_entry_rates(
        Currency::USD,
        (convert_from, one()),
        (convert_to, inr_conversion_rates),
    );
    let res = convert(&sample_rate, convert_from, convert_to, amount).expect("converted_currency");
    println!("The conversion from {amount} {convert_from:?} to {convert_to:?} is {res:?}");
    assert_eq!(number(res), expected(1_646_346, 3));
    assert_eq!(res.mantissa(), 1_646_346_000);
    assert_eq!(res.scale(), 6);
}

/// USD-base rate table where `to` is reachable at `to_factor` (base -> to).
fn usd_base_rates(to: Currency, to_factor: Decimal) -> ExchangeRates {
    two_entry_rates(
        Currency::USD,
        (Currency::USD, one()),
        (to, CurrencyFactors::new(to_factor, Decimal::new(1, 0))),
    )
}

#[test]
fn to_minor_same_currency_is_identity() {
    let rates = usd_base_rates(Currency::ZAR, Decimal::new(18, 0));
    assert_eq!(
        to_minor_units_ceil(&rates, Currency::ZAR, Currency::ZAR, 12_345),
        Some(12_345)
    );
}

#[test]
fn to_minor_two_decimal_exact() {
    // USD $100.00 (10000 minor) -> ZAR @ 18.0 = R1800.00 = 180000 minor
    let rates = usd_base_rates(Currency::ZAR, Decimal::new(18, 0));
    assert_eq!(
        to_minor_units_ceil(&rates, Currency::USD, Currency::ZAR, 10_000),
        Some(180_000)
    );
}

#[test]
fn to_minor_rounds_up_never_down() {
    // USD $100.00 -> ZAR @ 18.00005 = R1800.005 -> 180000.5 minor -> ceil 180001
    let rates = usd_base_rates(Currency::ZAR, Decimal::new(1_800_005, 5));
    assert_eq!(
        to_minor_units_ceil(&rates, Currency::USD, Currency::ZAR, 10_000),
        Some(180_001)
    );
}

#[test]
fn to_minor_zero_decimal_currency() {
    // JPY is zero-decimal (minor == whole yen). $100 -> JPY @ 150.005 = 15000.5 -> ceil 15001
    let rates = usd_base_rates(Currency::JPY, Decimal::new(150_005, 3));
    assert_eq!(
        to_minor_units_ceil(&rates, Currency::USD, Currency::JPY, 10_000),
        Some(15_001)
    );
}

#[test]
fn to_minor_missing_rate_is_none() {
    let rates = usd_base_rates(Currency::ZAR, Decimal::new(18, 0));
    // KES rate absent -> conversion unavailable -> None (fail-closed)
    assert_eq!(
        to_minor_units_ceil(&rates, Currency::USD, Currency::KES, 10_000),
        None
    );
}

#[test]
fn to_minor_overflow_is_none() {
    // 6e17 USD minor * 18 * 100 exceeds i64::MAX -> None (fail-closed)
    let rates = usd_base_rates(Currency::ZAR, Decimal::new(18, 0));
    assert_eq!(
        to_minor_units_ceil(&rates, Currency::USD, Currency::ZAR, 600_000_000_000_000_000),
        None
    );
}

#[test]
fn to_minor_refuses_negative_amounts() {
    let rates = usd_base_rates(Currency::ZAR, Decimal::new(18, 0));
    assert_eq!(to_minor_units_ceil(&rates, Currency::ZAR, Currency::ZAR, -1), None);
    assert_eq!(to_minor_units_ceil(&rates, Currency::USD, Currency::ZAR, -1), None);
    assert_eq!(to_minor_units_ceil(&rates, Currency::USD, Currency::ZAR, 0), Some(0));
}

#[test]
fn to_minor_refuses_a_negative_result() {
    let rates = usd_base_rates(Currency::ZAR, Decimal::new(-18, 0));
    assert_eq!(to_minor_units_ceil(&rates, Currency::USD, Currency::ZAR, 10_000), None);
    // Above minus one, the result rounds up to nothing.
    let rates = usd_base_rates(Currency::ZAR, Decimal::new(-5, 1));
    assert_eq!(to_minor_units_ceil(&rates, Currency::USD, Currency::ZAR, 1), Some(0));
}

#[test]
fn to_minor_has_the_largest_i64_but_no_more() {
    let rates = usd_base_rates(Currency::ZAR, Decimal::new(1, 0));
    assert_eq!(
        to_minor_units_ceil(&rates, Currency::USD, Currency::ZAR, i64::MAX),
        Some(i64::MAX)
    );
    let rates = usd_base_rates(Currency::ZAR, Decimal::new(2, 0));
    assert_eq!(to_minor_units_ceil(&rates, Currency::USD, Currency::ZAR, i64::MAX), None);
}

#[test]
fn to_minor_knows_three_decimal_currencies() {
    // $100.00 -> KWD @ 0.3075 = 30.750 = 30750 fils
    let rates = usd_base_rates(Currency::KWD, Decimal::new(3075, 4));
    assert_eq!(
        to_minor_units_ceil(&rates, Currency::USD, Currency::KWD, 10_000),
        Some(30_750)
    );
    // 1.234 KWD at one dollar to the dinar.
    assert_eq!(
        to_minor_units_ceil(&rates, Currency::KWD, Currency::USD, 1_234),
        Some(124)
    );
}

#[test]
fn a_product_below_the_smallest_decimal_is_lost() {
    let smallest = Decimal::from_parts(1, 28).unwrap();
    let rates = usd_base_rates(Currency::ZAR, smallest);
    // 0.01 * 10^-28 has more digits than a decimal holds.
    assert_eq!(to_minor_units_ceil(&rates, Currency::USD, Currency::ZAR, 1), Some(0));
    // 1.00 * 10^-28 does not.
    assert_eq!(to_minor_units_ceil(&rates, Currency::USD, Currency::ZAR, 100), Some(1));
}

#[test]
fn conversion_reports_what_is_missing() {
    let rates = usd_base_rates(Currency::ZAR, Decimal::new(18, 0));
    assert_eq!(
        convert(&rates, Currency::KES, Currency::ZAR, 1),
        Err(CurrencyConversionError::ConversionNotSupported(Currency::KES))
    );
    assert_eq!(
        convert(&rates, Currency::ZAR, Currency::KES, 1),
        Err(CurrencyConversionError::ConversionNotSupported(Currency::KES))
    );
    assert_eq!(
        convert(&rates, Currency::KES, Currency::USD, 1),
        Err(CurrencyConversionError::ConversionNotSupported(Currency::KES))
    );
}

#[test]
fn conversion_fails_on_a_product_that_is_too_large() {
    let largest = Decimal::from_parts(MAX_MANTISSA, 0).unwrap();
    let rates = usd_base_rates(Currency::ZAR, largest);
    assert_eq!(
        convert(&rates, Currency::USD, Currency::ZAR, i64::MAX),
        Err(CurrencyConversionError::DecimalMultiplicationFailed)
    );
    assert_eq!(
        to_minor_units_ceil(&rates, Currency::USD, Currency::ZAR, i64::MAX),
        None
    );
    // Nothing is nothing, whatever the factor.
    let zero = convert(&rates, Currency::USD, Currency::ZAR, 0).unwrap();
    assert_eq!((zero.mantissa(), zero.scale()), (0, 0));
}

#[test]
fn base_amount_converts_to_itself() {
    let rates = usd_base_rates(Currency::ZAR, Decimal::new(18, 0));
    let same = convert(&rates, Currency::USD, Currency::USD, -12_345).unwrap();
    assert_eq!(number(same), expected(-12_345, 2));
}

#[test]
fn decimals_stay_in_range() {
    assert!(Decimal::from_parts(MAX_MANTISSA, 28).is_some());
    assert!(Decimal::from_parts(-MAX_MANTISSA, 0).is_some());
    assert!(Decimal::from_parts(MAX_MANTISSA + 1, 0).is_none());
    assert!(Decimal::from_parts(1, 29).is_none());
}

#[test]
fn every_currency_is_found_by_code_and_place() {
    for i in 0..CURRENCY_COUNT {
        let currency = Currency::from_index(i).unwrap();
        assert_eq!(currency.index(), i);
        assert_eq!(Currency::from_code(currency.code()), Some(currency));
        assert_eq!(currency.to_string(), currency.code());
        assert_eq!(currency.code(), format!("{currency:?}"));
    }
    assert!(Currency::from_index(CURRENCY_COUNT).is_none());
    assert!(Currency::from_code("usd").is_none());
    assert!(Currency::from_code("").is_none());
    assert!(Currency::from_code("XXX").is_none());
}

#[test]
fn every_currency_has_its_minor_units() {
    for i in 0..CURRENCY_COUNT {
        let currency = Currency::from_index(i).unwrap();
        let mut conversion = ConversionTable::new();
        conversion.insert(currency, one());
        let rates = ExchangeRates::new(currency, conversion);
        let amount = convert(&rates, currency, currency, 123_456).unwrap();
        let digits = match currency.code() {
            "BIF" | "CLP" | "DJF" | "GNF" | "HUF" | "ISK" | "JPY" | "KMF" | "KRW" | "PYG"
            | "RWF" | "UGX" | "VND" | "VUV" | "XAF" | "XOF" | "XPF" => 0,
            "MGA" | "MRU" => 1,
            "BHD" | "IQD" | "JOD" | "KWD" | "LYD" | "OMR" | "TND" => 3,
            "CLF" => 4,
            _ => 2,
        };
        assert_eq!(amount.mantissa(), 123_456, "{currency:?}");
        assert_eq!(amount.scale(), digits, "{currency:?}");
    }
}

#[test]
fn digits_after_the_point_by_currency() {
    assert_eq!(Currency::USD.number_of_digits_after_decimal_point(), 2);
    assert_eq!(Currency::JPY.number_of_digits_after_decimal_point(), 0);
    assert_eq!(Currency::KWD.number_of_digits_after_decimal_point(), 3);
    assert_eq!(Currency::CLF.number_of_digits_after_decimal_point(), 4);
}

#[test]
fn table_has_the_latest_factors() {
    let mut table = ConversionTable::new();
    assert!(!table.contains_key(Currency::EUR));
    assert!(table.get(Currency::EUR).is_none());
    table.insert(Currency::EUR, one());
    table.insert(Currency::EUR, CurrencyFactors::new(Decimal::new(2, 0), Decimal::new(5, 1)));
    assert!(table.contains_key(Currency::EUR));
    let factors = table.get(Currency::EUR).unwrap();
    assert_eq!(factors.to_factor, Decimal::new(2, 0));
    assert_eq!(factors.from_factor, Decimal::new(5, 1));
}

#[test]
fn charges_go_by_the_digits_of_their_currency() {
    let rates = |from: Currency| {
        two_entry_rates(Currency::USD, (Currency::USD, one()), (from, one()))
    };
    let counted = |from: Currency, amount: i64| {
        to_minor_units_ceil(&rates(from), from, Currency::USD, amount)
    };
    // Two digits: 1.00 is one dollar.
    assert_eq!(counted(Currency::EUR, 100), Some(100));
    // The rial and the ariary have no digits after the point.
    assert_eq!(counted(Currency::IRR, 100), Some(10_000));
    assert_eq!(counted(Currency::MGA, 100), Some(10_000));
    // The forint, the krona and the ouguiya have two.
    assert_eq!(counted(Currency::HUF, 100), Some(100));
    assert_eq!(counted(Currency::ISK, 100), Some(100));
    assert_eq!(counted(Currency::MRU, 100), Some(100));
    // A plain conversion goes by the digits of `rusty_money`.
    let major = |from: Currency| convert(&rates(from), from, Currency::USD, 100).unwrap();
    assert_eq!(major(Currency::IRR), Decimal::new(1, 0));
    assert_eq!(major(Currency::HUF), Decimal::new(100, 0));
}

#[test]
fn decimals_are_equal_as_numbers() {
    assert_eq!(Decimal::new(10, 1), Decimal::new(1, 0));
    assert_eq!(Decimal::new(0, 5), Decimal::new(0, 0));
    assert_ne!(Decimal::new(1, 1), Decimal::new(1, 0));
    assert_ne!(Decimal::new(-1, 0), Decimal::new(1, 0));
    let largest = Decimal::from_parts(MAX_MANTISSA, 0).unwrap();
    assert_ne!(largest, Decimal::from_parts(MAX_MANTISSA, 28).unwrap());
}

#[test]
fn counting_in_minor_units_loses_no_digit() {
    // 0.01 * 792.28... fills all 96 bits, and a hundred times that needs more.
    let factor = Decimal::from_parts(MAX_MANTISSA, 26).unwrap();
    let rates = usd_base_rates(Currency::ZAR, factor);
    // 792.28162514264337593543950335 cents, rounded up.
    assert_eq!(to_minor_units_ceil(&rates, Currency::USD, Currency::ZAR, 1), Some(793));
    // Beyond the largest decimal there is no amount.
    let rates = usd_base_rates(Currency::ZAR, Decimal::from_parts(MAX_MANTISSA, 0).unwrap());
    assert_eq!(to_minor_units_ceil(&rates, Currency::USD, Currency::ZAR, 100), None);
}
