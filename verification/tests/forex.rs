use std::sync::Arc;

use spending_limits::conversion::{convert, CurrencyFactors, ExchangeRates};
use spending_limits::currency::Currency;
use spending_limits::decimal::{Decimal, MAX_MANTISSA};
use spending_limits::forex::cache::{
    acquire_redis_lock, convert_currency, get_forex_rates, get_forex_rates_at,
    is_redis_expired_at, release_redis_lock, retrieve_forex_data_from_redis,
    retrieve_forex_from_local_cache, save_forex_data_to_local_cache, save_forex_data_to_redis,
    ForexCache, FxExchangeRatesCacheEntry, Lookup, LookupEvent, LookupStep, RedisReply,
    RefreshEvent, RefreshStep, RefreshTask, SetnxReply, REDIX_FOREX_CACHE_DATA,
    REDIX_FOREX_CACHE_KEY,
};
use spending_limits::forex::error::ForexError;
use spending_limits::forex::provider::{
    fetch_rates, fetch_with_fallback, forex_get_json, FeedReply, FetchError, FetchEvent,
    FetchStep, ForexApi, ForexProvider, HttpReply, ProviderName,
};
use spending_limits::forex::rates::{
    build_exchange_rates, Conversion, CurrencyLayerResponse, DefaultExchangeRates, FixerErrorBody,
    FixerResponse, OerResponse, RateSheet,
};
use spending_limits::secret::Secret;

/// The number as `rust_decimal` has it, for comparisons.
fn number(d: Decimal) -> rust_decimal::Decimal {
    rust_decimal::Decimal::from_i128_with_scale(d.mantissa(), d.scale())
}

fn sheet(rates: &[(&str, i64, u32)]) -> RateSheet {
    let mut sheet = RateSheet::new();
    for (key, mantissa, scale) in rates {
        sheet.insert(key.to_string(), Decimal::new(*mantissa, *scale));
    }
    sheet
}

fn secret(value: &str) -> Secret {
    Secret::new(value.to_string())
}

fn conf(api_key: &str, fallback_api_key: &str) -> ForexApi {
    ForexApi {
        api_key: secret(api_key),
        fallback_api_key: secret(fallback_api_key),
        data_expiration_delay_in_seconds: 21_600,
        redis_lock_timeout_in_seconds: 100,
        redis_ttl_in_seconds: 172_800,
        ..ForexApi::default()
    }
}

fn rates_with_base(base: Currency) -> ExchangeRates {
    build_exchange_rates(base, |curr| {
        if curr == base {
            Some(Decimal::new(1, 0))
        } else {
            None
        }
    })
}

fn entry(base: Currency, timestamp: i64) -> FxExchangeRatesCacheEntry {
    FxExchangeRatesCacheEntry::new_at(Arc::new(rates_with_base(base)), timestamp)
}

#[test]
fn provider_name_deserializes_each_variant() {
    assert_eq!(
        ProviderName::from_label("open_exchange_rates").unwrap(),
        ProviderName::OpenExchangeRates
    );
    assert_eq!(ProviderName::from_label("fixer").unwrap(), ProviderName::Fixer);
    assert_eq!(
        ProviderName::from_label("currency_layer").unwrap(),
        ProviderName::CurrencyLayer
    );
    assert!(ProviderName::from_label("nope").is_none());
}

#[test]
fn default_fallback_is_currency_layer() {
    let conf = ForexApi::default();
    assert_eq!(conf.provider, ProviderName::OpenExchangeRates);
    assert_eq!(conf.fallback_provider, ProviderName::CurrencyLayer);
}

#[test]
fn build_exchange_rates_sets_inverse_factors() {
    let rates = build_exchange_rates(Currency::USD, |curr| match curr {
        Currency::USD => Some(Decimal::new(1, 0)),
        Currency::ZAR => Some(Decimal::new(185, 1)), // 18.5
        _ => None,
    });
    assert_eq!(rates.base_currency, Currency::USD);
    let zar = rates.conversion.get(Currency::ZAR).unwrap();
    assert_eq!(zar.to_factor, Decimal::new(185, 1));
    assert_eq!(
        number(zar.from_factor),
        rust_decimal::Decimal::new(1, 0)
            .checked_div(rust_decimal::Decimal::new(185, 1))
            .unwrap()
    );
}

#[test]
fn build_exchange_rates_inserts_base_identity_when_absent() {
    // EUR (the base) is not present in the feed.
    let rates = build_exchange_rates(Currency::EUR, |curr| match curr {
        Currency::ZAR => Some(Decimal::new(20, 0)),
        _ => None,
    });
    let eur = rates.conversion.get(Currency::EUR).unwrap();
    assert_eq!(eur.to_factor, Decimal::new(1, 0));
    assert_eq!(eur.from_factor, Decimal::new(1, 0));
}

#[test]
fn build_exchange_rates_skips_zero_rate() {
    let rates = build_exchange_rates(Currency::USD, |curr| match curr {
        Currency::USD => Some(Decimal::new(1, 0)),
        Currency::ZAR => Some(Decimal::new(0, 0)),
        _ => None,
    });
    assert!(!rates.conversion.contains_key(Currency::ZAR));
}

#[test]
fn oer_response_uses_usd_base() {
    let response = OerResponse { rates: sheet(&[("USD", 1, 0), ("ZAR", 185, 1)]) };
    let rates = response.into_exchange_rates();
    assert_eq!(rates.base_currency, Currency::USD);
    assert!(rates.conversion.contains_key(Currency::ZAR));
}

#[test]
fn currency_layer_strips_usd_prefix() {
    let response = CurrencyLayerResponse { quotes: sheet(&[("USDZAR", 185, 1)]) };
    let rates = response.into_exchange_rates();
    assert_eq!(rates.base_currency, Currency::USD);
    assert!(rates.conversion.contains_key(Currency::ZAR));
}

fn fixer_eur() -> FixerResponse {
    FixerResponse {
        success: true,
        base: Some("EUR".to_string()),
        rates: Some(sheet(&[
            ("USD", 11634, 4),  // 1 EUR = 1.1634 USD
            ("ZAR", 189115, 4), // 1 EUR = 18.9115 ZAR
            ("EUR", 1, 0),
        ])),
        error: None,
    }
}

#[test]
fn fixer_success_reads_base_from_response() {
    let rates = fixer_eur().into_exchange_rates().unwrap();
    assert_eq!(rates.base_currency, Currency::EUR);
    assert!(rates.conversion.contains_key(Currency::USD));
}

#[test]
fn fixer_error_body_is_an_error() {
    let response = FixerResponse {
        success: false,
        base: None,
        rates: None,
        error: Some(FixerErrorBody {
            code: 105,
            error_type: "base_currency_access_restricted".to_string(),
            info: None,
        }),
    };
    assert!(response.into_exchange_rates().is_err());
}

#[test]
fn fixer_success_without_rates_is_an_error() {
    let response = FixerResponse {
        success: true,
        base: Some("EUR".to_string()),
        rates: None,
        error: None,
    };
    assert!(response.into_exchange_rates().is_err());
}

#[test]
fn conversion_is_base_agnostic_through_eur() {
    let rates = fixer_eur().into_exchange_rates().unwrap();

    // 100.00 USD -> ZAR  (~ 100 * 18.9115 / 1.1634 = 1625.5)
    let usd_to_zar = number(convert(&rates, Currency::USD, Currency::ZAR, 10000).unwrap());
    assert!(
        usd_to_zar > rust_decimal::Decimal::new(1600, 0)
            && usd_to_zar < rust_decimal::Decimal::new(1650, 0),
        "USD->ZAR was {usd_to_zar}"
    );

    // 100.00 ZAR -> USD  (~ 6.15)
    let zar_to_usd = number(convert(&rates, Currency::ZAR, Currency::USD, 10000).unwrap());
    assert!(
        zar_to_usd > rust_decimal::Decimal::new(5, 0)
            && zar_to_usd < rust_decimal::Decimal::new(7, 0),
        "ZAR->USD was {zar_to_usd}"
    );
}

/// Fetches with the answers that the two providers give.
fn fetch(
    primary: Result<ExchangeRates, ForexError>,
    fallback: Result<ExchangeRates, ForexError>,
) -> Result<ExchangeRates, FetchError> {
    match fetch_with_fallback("primary", "fallback", FetchEvent::Primary(primary)) {
        FetchStep::Fetched(rates) => Ok(rates),
        FetchStep::Failed(error) => Err(error),
        FetchStep::AskFallback => {
            match fetch_with_fallback("primary", "fallback", FetchEvent::Fallback(fallback)) {
                FetchStep::Fetched(rates) => Ok(rates),
                FetchStep::Failed(error) => Err(error),
                FetchStep::AskFallback => panic!("asked twice"),
            }
        }
    }
}

#[test]
fn fallback_not_used_when_primary_succeeds() {
    // USD base proves the primary's result was returned, not the fallback's EUR.
    let rates =
        fetch(Ok(rates_with_base(Currency::USD)), Ok(rates_with_base(Currency::EUR))).unwrap();
    assert_eq!(rates.base_currency, Currency::USD);
}

#[test]
fn fallback_used_when_primary_fails() {
    let rates = fetch(Err(ForexError::ApiError), Ok(rates_with_base(Currency::EUR))).unwrap();
    assert_eq!(rates.base_currency, Currency::EUR);
}

#[test]
fn error_when_both_providers_fail() {
    let err = fetch(Err(ForexError::ApiError), Err(ForexError::ApiUnresponsive)).err().unwrap();
    // The returned error carries cross-provider context.
    let rendered = format!("{err:?}");
    assert!(
        rendered.contains("fallback provider") && rendered.contains("also failed after primary"),
        "missing cross-provider context in both-failed error: {rendered}"
    );
    assert_eq!(err.error, ForexError::ApiUnresponsive);
    assert_eq!(
        err.context.as_deref(),
        Some("fallback provider `fallback` also failed after primary `primary`")
    );
}

#[test]
fn base_has_a_rate_of_one_whatever_the_feed_says() {
    for quoted in [Decimal::new(2, 0), Decimal::new(0, 0), Decimal::new(-1, 3)] {
        let rates = build_exchange_rates(Currency::USD, |curr| match curr {
            Currency::USD => Some(quoted),
            Currency::ZAR => Some(Decimal::new(20, 0)),
            _ => None,
        });
        let usd = rates.conversion.get(Currency::USD).unwrap();
        assert_eq!(usd.to_factor, Decimal::new(1, 0));
        assert_eq!(usd.from_factor, Decimal::new(1, 0));
        let zar = rates.conversion.get(Currency::ZAR).unwrap();
        assert_eq!(zar.from_factor, Decimal::new(5, 2));
    }
}

#[test]
fn feed_need_not_quote_every_currency() {
    let rates = OerResponse { rates: sheet(&[("ZAR", 185, 1), ("nope", 3, 0)]) }
        .into_exchange_rates();
    assert!(rates.conversion.contains_key(Currency::USD));
    assert!(rates.conversion.contains_key(Currency::ZAR));
    assert!(!rates.conversion.contains_key(Currency::KES));
}

#[test]
fn rates_at_the_ends_of_the_range_are_kept() {
    // One over 10^-28 is 10^28, which fits.
    let rates = build_exchange_rates(Currency::USD, |curr| match curr {
        Currency::ZAR => Decimal::from_parts(1, 28),
        Currency::KES => Decimal::from_parts(MAX_MANTISSA, 0),
        _ => None,
    });
    let zar = rates.conversion.get(Currency::ZAR).unwrap();
    assert_eq!(
        number(zar.from_factor),
        rust_decimal::Decimal::from_i128_with_scale(10_i128.pow(28), 0)
    );
    // One over the largest decimal is below the smallest, and becomes zero.
    let kes = rates.conversion.get(Currency::KES).unwrap();
    assert!(number(kes.from_factor).is_zero());
}

#[test]
fn feeds_with_plain_and_prefixed_keys_agree() {
    let plain = OerResponse { rates: sheet(&[("ZAR", 185, 1), ("JPY", 150, 0)]) }
        .into_exchange_rates();
    let prefixed =
        CurrencyLayerResponse { quotes: sheet(&[("USDZAR", 185, 1), ("USDJPY", 150, 0)]) }
            .into_exchange_rates();
    for currency in [Currency::USD, Currency::ZAR, Currency::JPY, Currency::EUR] {
        assert_eq!(plain.conversion.get(currency), prefixed.conversion.get(currency));
    }
    // A key without the prefix is no quote.
    let bare = CurrencyLayerResponse { quotes: sheet(&[("ZAR", 185, 1)]) }.into_exchange_rates();
    assert!(!bare.conversion.contains_key(Currency::ZAR));
}

#[test]
fn fixer_errors_are_told_apart() {
    let mut response = fixer_eur();
    response.success = false;
    assert_eq!(response.into_exchange_rates().err(), Some(ForexError::ApiError));
    let mut response = fixer_eur();
    response.rates = Some(RateSheet::new());
    assert_eq!(response.into_exchange_rates().err(), Some(ForexError::ApiError));
    let mut response = fixer_eur();
    response.base = None;
    assert_eq!(response.into_exchange_rates().err(), Some(ForexError::ApiError));
    let mut response = fixer_eur();
    response.base = Some("eur".to_string());
    assert_eq!(response.into_exchange_rates().err(), Some(ForexError::ConversionError));
}

fn default_rates(base: &str, codes: &[(&str, i64)]) -> DefaultExchangeRates {
    DefaultExchangeRates {
        base_currency: base.to_string(),
        conversion: codes
            .iter()
            .map(|(code, factor)| {
                (
                    code.to_string(),
                    Conversion {
                        to_factor: Decimal::new(*factor, 1),
                        from_factor: Decimal::new(*factor, 2),
                    },
                )
            })
            .collect(),
    }
}

#[test]
fn configured_rates_are_read() {
    let rates = ExchangeRates::try_from(default_rates("USD", &[("ZAR", 185), ("EUR", 9)])).unwrap();
    assert_eq!(rates.base_currency, Currency::USD);
    let zar = rates.conversion.get(Currency::ZAR).unwrap();
    assert_eq!(zar, CurrencyFactors::new(Decimal::new(185, 1), Decimal::new(185, 2)));
    assert!(rates.conversion.contains_key(Currency::EUR));
    assert!(!rates.conversion.contains_key(Currency::USD));
}

#[test]
fn configured_rates_with_an_unknown_code_are_refused() {
    for rates in [
        default_rates("USD", &[("ZAR", 185), ("nope", 9)]),
        default_rates("USD", &[("", 1)]),
        default_rates("nope", &[("ZAR", 185)]),
    ] {
        assert_eq!(ExchangeRates::try_from(rates).err(), Some(ForexError::ConversionError));
    }
}

#[test]
fn keys_belong_to_providers() {
    let conf = ForexApi { fixer_api_key: secret("fx"), ..conf("oer", "cl") };
    assert_eq!(conf.key_for(ProviderName::Fixer).peek(), "fx");
    assert_eq!(conf.key_for(ProviderName::OpenExchangeRates).peek(), "oer");
    assert_eq!(conf.key_for(ProviderName::CurrencyLayer).peek(), "cl");
}

#[test]
fn providers_have_labels_and_addresses() {
    let conf = ForexApi { fixer_api_key: secret("fx"), ..conf("oer", "cl") };
    let oer = ForexProvider::from_config(ProviderName::OpenExchangeRates, &conf);
    assert_eq!(oer.name(), "open_exchange_rates");
    assert_eq!(
        oer.url(),
        "https://openexchangerates.org/api/latest.json?app_id=oer&base=USD"
    );
    let fixer = ForexProvider::from_config(ProviderName::Fixer, &conf);
    assert_eq!(fixer.name(), "fixer");
    assert_eq!(fixer.provider(), ProviderName::Fixer);
    assert_eq!(fixer.url(), "https://data.fixer.io/api/latest?access_key=fx");
    let layer = ForexProvider::from_config(ProviderName::CurrencyLayer, &conf);
    assert_eq!(layer.name(), "currency_layer");
    assert_eq!(layer.url(), "http://apilayer.net/api/live?access_key=cl");
}

#[test]
fn replies_of_feeds_become_tables() {
    assert_eq!(forex_get_json(HttpReply::Parsed(7)), Ok(7));
    assert_eq!(
        forex_get_json::<u8>(HttpReply::Unresponsive),
        Err(ForexError::ApiUnresponsive)
    );
    assert_eq!(forex_get_json::<u8>(HttpReply::Unparsable), Err(ForexError::ParsingError));
    let fixer = fetch_rates(FeedReply::Fixer(HttpReply::Parsed(fixer_eur()))).unwrap();
    assert_eq!(fixer.base_currency, Currency::EUR);
    let oer = OerResponse { rates: sheet(&[("ZAR", 185, 1)]) };
    let oer = fetch_rates(FeedReply::OpenExchangeRates(HttpReply::Parsed(oer))).unwrap();
    assert!(oer.conversion.contains_key(Currency::ZAR));
    let layer = CurrencyLayerResponse { quotes: sheet(&[("USDZAR", 185, 1)]) };
    let layer = fetch_rates(FeedReply::CurrencyLayer(HttpReply::Parsed(layer))).unwrap();
    assert!(layer.conversion.contains_key(Currency::ZAR));
    assert_eq!(
        fetch_rates(FeedReply::Fixer(HttpReply::Unparsable)).err(),
        Some(ForexError::ParsingError)
    );
    assert_eq!(
        fetch_rates(FeedReply::CurrencyLayer(HttpReply::Unresponsive)).err(),
        Some(ForexError::ApiUnresponsive)
    );
}

#[test]
fn age_of_rates_at_the_boundary() {
    let entry = entry(Currency::USD, 1_000);
    assert!(!entry.is_expired_at(60, 1_060));
    assert!(entry.is_expired_at(60, 1_061));
    assert!(is_redis_expired_at(Some(&entry), 60, 1_059).is_some());
    assert!(is_redis_expired_at(Some(&entry), 60, 1_060).is_none());
    assert!(is_redis_expired_at(None, 60, 0).is_none());
    // A moment near the end of time does not run over.
    let last = FxExchangeRatesCacheEntry::new_at(entry.data.clone(), i64::MAX);
    assert!(!last.is_expired_at(u32::MAX, i64::MAX));
    assert_eq!(last.timestamp(), i64::MAX);
}

#[test]
fn new_rates_are_not_expired() {
    let entry = FxExchangeRatesCacheEntry::new(rates_with_base(Currency::USD));
    assert!(!entry.is_expired(3_600));
    // Later than the year 2020.
    assert!(entry.timestamp() > 1_577_836_800);
    let old = FxExchangeRatesCacheEntry::new_at(entry.data.clone(), 0);
    assert!(old.is_expired(3_600));
}

fn looked_up(step: LookupStep) -> Lookup {
    match step {
        LookupStep::Done(lookup) => lookup,
        LookupStep::AskRedis => panic!("the shared store was asked"),
    }
}

#[test]
fn rates_in_the_process_are_served_until_they_expire() {
    let mut cache = ForexCache::new();
    save_forex_data_to_local_cache(&mut cache, entry(Currency::EUR, 1_000));
    let with_key = conf("oer", "");
    let fresh =
        looked_up(get_forex_rates_at(&with_key, &mut cache, 60, LookupEvent::Started, 1_060));
    assert!(!fresh.refresh);
    assert_eq!(fresh.result.unwrap().data.base_currency, Currency::EUR);
    // Too old: handed out all the same, and renewed.
    let stale =
        looked_up(get_forex_rates_at(&with_key, &mut cache, 60, LookupEvent::Started, 1_061));
    assert!(stale.refresh);
    let stale = stale.result.unwrap();
    assert_eq!(stale.data.base_currency, Currency::EUR);
    assert_eq!(stale.timestamp(), 1_000);
    // Without a key they cannot be renewed.
    let without_key = conf("", "");
    let refused =
        looked_up(get_forex_rates_at(&without_key, &mut cache, 60, LookupEvent::Started, 1_061));
    assert!(!refused.refresh);
    assert_eq!(
        refused.result.err(),
        Some(ForexError::ConfigurationError("api_keys not provided".to_string()))
    );
}

#[test]
fn key_of_the_fallback_is_enough() {
    let mut cache = ForexCache::new();
    save_forex_data_to_local_cache(&mut cache, entry(Currency::EUR, 1_000));
    let only_fallback = conf("", "cl");
    let stale =
        looked_up(get_forex_rates_at(&only_fallback, &mut cache, 60, LookupEvent::Started, 9_999));
    assert!(stale.refresh);
    assert!(stale.result.is_ok());
}

#[test]
fn shared_rates_are_kept_in_the_process() {
    let mut cache = ForexCache::new();
    let conf = conf("oer", "cl");
    assert!(matches!(
        get_forex_rates_at(&conf, &mut cache, 60, LookupEvent::Started, 1_000),
        LookupStep::AskRedis
    ));
    let stored = LookupEvent::Retrieved(RedisReply::Done(Some(entry(Currency::ZAR, 950))));
    let lookup = looked_up(get_forex_rates_at(&conf, &mut cache, 60, stored, 1_000));
    assert!(!lookup.refresh);
    let served = lookup.result.unwrap();
    assert_eq!(served.data.base_currency, Currency::ZAR);
    assert_eq!(served.timestamp(), 1_000);
    let again = looked_up(get_forex_rates_at(&conf, &mut cache, 60, LookupEvent::Started, 1_060));
    assert!(!again.refresh);
    assert_eq!(again.result.unwrap().data.base_currency, Currency::ZAR);
}

#[test]
fn old_shared_rates_are_served_and_renewed() {
    let mut cache = ForexCache::new();
    let stored = LookupEvent::Retrieved(RedisReply::Done(Some(entry(Currency::ZAR, 940))));
    let lookup = looked_up(get_forex_rates_at(&conf("oer", ""), &mut cache, 60, stored, 1_000));
    assert!(lookup.refresh);
    assert_eq!(lookup.result.unwrap().timestamp(), 940);
    assert!(retrieve_forex_from_local_cache(&cache).is_none());
}

#[test]
fn without_rates_a_refresh_is_started() {
    let mut cache = ForexCache::new();
    for reply in [RedisReply::Done(None), RedisReply::Failed, RedisReply::NoConnection] {
        let event = LookupEvent::Retrieved(reply);
        let lookup = looked_up(get_forex_rates(&conf("oer", ""), &mut cache, 60, event));
        assert!(lookup.refresh);
        assert_eq!(lookup.result.err(), Some(ForexError::EntryNotFound));
    }
    let event = LookupEvent::Retrieved(RedisReply::Done(None));
    let lookup = looked_up(get_forex_rates(&conf("", ""), &mut cache, 60, event));
    assert!(!lookup.refresh);
    assert!(matches!(lookup.result.err(), Some(ForexError::ConfigurationError(_))));
}

#[test]
fn replies_of_the_store_become_errors() {
    assert_eq!(acquire_redis_lock(RedisReply::Done(SetnxReply::KeySet)), Ok(true));
    assert_eq!(acquire_redis_lock(RedisReply::Done(SetnxReply::KeyNotSet)), Ok(false));
    assert_eq!(
        acquire_redis_lock(RedisReply::Failed),
        Err(ForexError::CouldNotAcquireLock)
    );
    assert_eq!(
        acquire_redis_lock(RedisReply::NoConnection),
        Err(ForexError::RedisConnectionError)
    );
    assert_eq!(release_redis_lock(RedisReply::Done(())), Ok(()));
    assert_eq!(
        release_redis_lock(RedisReply::Failed),
        Err(ForexError::RedisLockReleaseFailed)
    );
    assert_eq!(save_forex_data_to_redis(RedisReply::Done(())), Ok(()));
    assert_eq!(
        save_forex_data_to_redis(RedisReply::Failed),
        Err(ForexError::RedisWriteError)
    );
    assert_eq!(
        save_forex_data_to_redis(RedisReply::NoConnection),
        Err(ForexError::RedisConnectionError)
    );
    assert!(matches!(retrieve_forex_data_from_redis(RedisReply::Done(None)), Ok(None)));
    assert_eq!(
        retrieve_forex_data_from_redis(RedisReply::Failed).err(),
        Some(ForexError::EntryNotFound)
    );
    assert_eq!(REDIX_FOREX_CACHE_KEY, "{forex_cache}_lock");
    assert_eq!(REDIX_FOREX_CACHE_DATA, "{forex_cache}_data");
}

fn locked_task(cache: &mut ForexCache) -> RefreshTask {
    let mut task = RefreshTask::new(&conf("oer", "cl"));
    match task.step() {
        RefreshStep::AcquireLock { expiry_seconds } => assert_eq!(expiry_seconds, 100),
        _ => panic!("expected to ask for the lock"),
    }
    match task.advance(cache, RefreshEvent::Locked(RedisReply::Done(SetnxReply::KeySet))) {
        RefreshStep::Fetch { provider, url } => {
            assert_eq!(provider, ProviderName::OpenExchangeRates);
            assert!(url.contains("app_id=oer"));
        }
        _ => panic!("expected to ask the first provider"),
    }
    task
}

fn finished(step: RefreshStep) -> Result<(), FetchError> {
    match step {
        RefreshStep::Finished(result) => result,
        _ => panic!("the task goes on"),
    }
}

#[test]
fn renewed_rates_are_stored_and_served() {
    let mut cache = ForexCache::new();
    let mut task = locked_task(&mut cache);
    let fetched = RefreshEvent::Fetched(Ok(rates_with_base(Currency::EUR)));
    match task.advance_at(&mut cache, fetched, 5_000) {
        RefreshStep::Store { entry, expiry_seconds } => {
            assert_eq!(entry.data.base_currency, Currency::EUR);
            assert_eq!(entry.timestamp(), 5_000);
            assert_eq!(expiry_seconds, 172_800);
        }
        _ => panic!("expected to store the rates"),
    }
    let step = task.advance_at(&mut cache, RefreshEvent::Stored(RedisReply::Done(())), 5_001);
    assert!(matches!(step, RefreshStep::Release));
    assert!(retrieve_forex_from_local_cache(&cache).is_none());
    let step = task.advance_at(&mut cache, RefreshEvent::Released(RedisReply::Done(())), 5_002);
    assert!(finished(step).is_ok());
    let conf = conf("oer", "cl");
    let lookup = looked_up(get_forex_rates_at(&conf, &mut cache, 60, LookupEvent::Started, 5_060));
    assert!(!lookup.refresh);
    assert_eq!(lookup.result.unwrap().data.base_currency, Currency::EUR);
}

#[test]
fn refresh_falls_back_and_releases_the_lock_when_both_fail() {
    let mut cache = ForexCache::new();
    let mut task = locked_task(&mut cache);
    match task.advance(&mut cache, RefreshEvent::Fetched(Err(ForexError::ParsingError))) {
        RefreshStep::Fetch { provider, url } => {
            assert_eq!(provider, ProviderName::CurrencyLayer);
            assert!(url.ends_with("access_key=cl"));
        }
        _ => panic!("expected to ask the fallback"),
    }
    let step = task.advance(&mut cache, RefreshEvent::Fetched(Err(ForexError::ApiError)));
    assert!(matches!(step, RefreshStep::Release));
    let step = task.advance(&mut cache, RefreshEvent::Released(RedisReply::Done(())));
    let error = finished(step).err().unwrap();
    assert_eq!(error.error, ForexError::ApiError);
    assert_eq!(
        error.context.as_deref(),
        Some(
            "fallback provider `currency_layer` also failed after primary `open_exchange_rates`"
        )
    );
    assert!(retrieve_forex_from_local_cache(&cache).is_none());
}

#[test]
fn refresh_without_the_lock_asks_no_provider() {
    let mut cache = ForexCache::new();
    for (reply, expected) in [
        (RedisReply::Done(SetnxReply::KeyNotSet), ForexError::CouldNotAcquireLock),
        (RedisReply::Failed, ForexError::CouldNotAcquireLock),
        (RedisReply::NoConnection, ForexError::RedisConnectionError),
    ] {
        let mut task = RefreshTask::new(&conf("oer", "cl"));
        let step = task.advance(&mut cache, RefreshEvent::Locked(reply));
        assert_eq!(finished(step).err().unwrap().error, expected);
    }
}

#[test]
fn refresh_reports_a_store_that_fails() {
    let mut cache = ForexCache::new();
    let mut task = locked_task(&mut cache);
    task.advance(&mut cache, RefreshEvent::Fetched(Ok(rates_with_base(Currency::EUR))));
    let step = task.advance(&mut cache, RefreshEvent::Stored(RedisReply::Failed));
    assert_eq!(finished(step).err().unwrap().error, ForexError::RedisWriteError);
    // The task is over: nothing changes it.
    let step = task.advance(&mut cache, RefreshEvent::Released(RedisReply::Done(())));
    assert_eq!(finished(step).err().unwrap().error, ForexError::RedisWriteError);
    assert!(retrieve_forex_from_local_cache(&cache).is_none());

    let mut task = locked_task(&mut cache);
    task.advance(&mut cache, RefreshEvent::Fetched(Ok(rates_with_base(Currency::EUR))));
    task.advance(&mut cache, RefreshEvent::Stored(RedisReply::Done(())));
    let step = task.advance(&mut cache, RefreshEvent::Released(RedisReply::Failed));
    assert_eq!(finished(step).err().unwrap().error, ForexError::RedisLockReleaseFailed);
    assert!(retrieve_forex_from_local_cache(&cache).is_none());
}

#[test]
fn event_that_is_not_awaited_changes_nothing() {
    let mut cache = ForexCache::new();
    let mut task = RefreshTask::new(&conf("oer", "cl"));
    for event in [
        RefreshEvent::Fetched(Ok(rates_with_base(Currency::EUR))),
        RefreshEvent::Stored(RedisReply::Done(())),
        RefreshEvent::Released(RedisReply::Done(())),
    ] {
        assert!(matches!(
            task.advance(&mut cache, event),
            RefreshStep::AcquireLock { .. }
        ));
    }
}

fn inr_rates() -> FxExchangeRatesCacheEntry {
    let rates = build_exchange_rates(Currency::USD, |curr| match curr {
        Currency::INR => Some(Decimal::new(823173, 4)),
        Currency::ZAR => Decimal::from_parts(MAX_MANTISSA, 0),
        _ => None,
    });
    FxExchangeRatesCacheEntry::new_at(Arc::new(rates), 0)
}

fn converted(amount: i64, to: &str, from: &str) -> Result<(String, String), ForexError> {
    convert_currency(Ok(inr_rates()), amount, to.to_string(), from.to_string())
        .map(|response| (response.converted_amount, response.currency))
}

#[test]
fn amounts_are_converted_between_codes() {
    assert_eq!(
        converted(2_000, "INR", "USD"),
        Ok(("1646.346000".to_string(), "INR".to_string()))
    );
    assert_eq!(
        converted(-2_000, "INR", "USD"),
        Ok(("-1646.346000".to_string(), "INR".to_string()))
    );
    assert_eq!(converted(1, "INR", "USD"), Ok(("0.823173".to_string(), "INR".to_string())));
    assert_eq!(converted(-5, "USD", "USD"), Ok(("-0.05".to_string(), "USD".to_string())));
    assert_eq!(converted(0, "INR", "USD"), Ok(("0".to_string(), "INR".to_string())));
}

#[test]
fn conversion_errors_come_in_order() {
    assert_eq!(converted(1, "nope", "USD"), Err(ForexError::CurrencyNotAcceptable));
    assert_eq!(converted(1, "USD", "nope"), Err(ForexError::CurrencyNotAcceptable));
    assert_eq!(converted(1, "KES", "USD"), Err(ForexError::ConversionError));
    assert_eq!(converted(i64::MAX, "ZAR", "USD"), Err(ForexError::ConversionError));
    let no_rates = convert_currency(
        Err(ForexError::EntryNotFound),
        1,
        "nope".to_string(),
        "nope".to_string(),
    );
    assert_eq!(no_rates.err(), Some(ForexError::ApiError));
}

#[test]
fn errors_have_words() {
    let words = [
        (ForexError::ApiError, "API error"),
        (ForexError::ApiTimeout, "API timeout"),
        (ForexError::ApiUnresponsive, "API unresponsive"),
        (ForexError::ConversionError, "Conversion error"),
        (ForexError::CouldNotAcquireLock, "Could not acquire the lock for cache entry"),
        (ForexError::CurrencyNotAcceptable, "Provided currency not acceptable"),
        (
            ForexError::ConfigurationError("api_keys not provided".to_string()),
            "Forex configuration error: api_keys not provided",
        ),
        (
            ForexError::DefaultCurrencyParsingError,
            "Incorrect entries in default Currency response",
        ),
        (ForexError::EntryNotFound, "Entry not found in cache"),
        (ForexError::ForexDataUnavailable, "Forex data unavailable"),
        (ForexError::InvalidLogExpiry, "Expiration time invalid"),
        (ForexError::LocalReadError, "Error reading local"),
        (ForexError::LocalWriteError, "Error writing to local cache"),
        (ForexError::ParsingError, "Json Parsing error"),
        (ForexError::AwsKmsDecryptionFailed, "Aws Kms decryption error"),
        (ForexError::RedisConnectionError, "Error connecting to redis"),
        (ForexError::RedisLockReleaseFailed, "Not able to release write lock"),
        (ForexError::RedisWriteError, "Error writing to redis"),
        (ForexError::WriteLockNotAcquired, "Not able to acquire write lock"),
    ];
    for (error, text) in words {
        assert_eq!(error.message(), text);
        assert_eq!(error.clone(), error);
    }
}

#[test]
fn inverse_is_exact_where_it_can_be() {
    let rates = build_exchange_rates(Currency::EUR, |curr| match curr {
        Currency::ZAR => Some(Decimal::new(20, 0)),
        Currency::USD => Some(Decimal::new(125, 2)),
        Currency::JPY => Some(Decimal::new(-8, 0)),
        _ => None,
    });
    let inverse = |curr: Currency| rates.conversion.get(curr).unwrap().from_factor;
    assert_eq!(inverse(Currency::ZAR), Decimal::new(5, 2));
    assert_eq!(inverse(Currency::USD), Decimal::new(8, 1));
    assert_eq!(inverse(Currency::JPY), Decimal::new(-125, 3));
}
