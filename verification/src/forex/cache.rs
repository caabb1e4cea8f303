//! The exchange rates that are kept, how old they may get, and how they are
//! renewed.
//!
//! Rates are kept in the process, and in a store that processes share. Rates
//! that are too old are still handed out, while a task fetches new ones under a
//! lock on the shared store, so that one process at a time does.

use std::sync::Arc;

use vstd::prelude::*;

use crate::clock;
use crate::conversion::{convert, ExchangeRates, RatesView};
use crate::currency::{self, Currency};
use crate::forex::error::ForexError;
use crate::forex::provider::{
    self, fetch_with_fallback, FetchError, FetchErrorView, FetchEvent, FetchStep, FetchStepView,
    ForexApi, ForexProvider, ProviderName,
};

verus! {

/// The key of the lock in the shared store.
pub const REDIX_FOREX_CACHE_KEY: &'static str = "{forex_cache}_lock";

/// The key of the rates in the shared store.
pub const REDIX_FOREX_CACHE_DATA: &'static str = "{forex_cache}_data";

/// Exchange rates, and when they were had.
pub struct FxExchangeRatesCacheEntry {
    pub data: Arc<ExchangeRates>,
    timestamp: i64,
}

/// Exchange rates, and the Unix time at which they were had.
pub struct EntryView {
    pub data: RatesView,
    pub timestamp: int,
}

impl View for FxExchangeRatesCacheEntry {
    type V = EntryView;

    closed spec fn view(&self) -> EntryView {
        EntryView { data: self.data@, timestamp: self.timestamp as int }
    }
}

/// The view of rates that may be missing.
pub open spec fn rates_option(rates: Option<Arc<ExchangeRates>>) -> Option<RatesView> {
    match rates {
        Some(rates) => Some(rates@),
        None => None,
    }
}

/// The view of an entry that may be missing.
pub open spec fn entry_option(entry: Option<FxExchangeRatesCacheEntry>) -> Option<EntryView> {
    match entry {
        Some(entry) => Some(entry@),
        None => None,
    }
}

/// The view of an entry, or of why there is none.
pub open spec fn entry_result(r: Result<FxExchangeRatesCacheEntry, ForexError>) -> Result<
    EntryView,
    ForexError,
> {
    match r {
        Ok(entry) => Ok(entry@),
        Err(error) => Err(error),
    }
}

impl EntryView {
    /// Whether rates kept in the process are too old at `now`.
    pub open spec fn is_expired_at(self, delay: u32, now: int) -> bool {
        self.timestamp + delay < now
    }

    /// Whether rates in the shared store are still good at `now`.
    pub open spec fn is_reusable_at(self, delay: u32, now: int) -> bool {
        self.timestamp + delay > now
    }
}

/// `Arc::clone`: another pointer to the same value.
#[verifier::external_body]
fn share(data: &Arc<ExchangeRates>) -> (r: Arc<ExchangeRates>)
    ensures
        r == *data,
{
    Arc::clone(data)
}

impl Clone for FxExchangeRatesCacheEntry {
    fn clone(&self) -> (r: FxExchangeRatesCacheEntry)
        ensures
            r == *self,
    {
        FxExchangeRatesCacheEntry { data: share(&self.data), timestamp: self.timestamp }
    }
}

impl FxExchangeRatesCacheEntry {
    /// Rates that were had now.
    pub fn new(exchange_rate: ExchangeRates) -> (r: FxExchangeRatesCacheEntry)
        ensures
            r@.data == exchange_rate@,
    {
        let now: i64 = clock::current_unix_seconds();
        FxExchangeRatesCacheEntry::new_at(Arc::new(exchange_rate), now)
    }

    /// Rates that were had at the Unix time `now`.
    pub fn new_at(data: Arc<ExchangeRates>, now: i64) -> (r: FxExchangeRatesCacheEntry)
        ensures
            r@ == (EntryView { data: data@, timestamp: now as int }),
    {
        FxExchangeRatesCacheEntry { data, timestamp: now }
    }

    /// The Unix time at which the rates were had.
    pub fn timestamp(&self) -> (r: i64)
        ensures
            r == self@.timestamp,
    {
        self.timestamp
    }

    /// Whether the rates are too old now.
    pub fn is_expired(&self, data_expiration_delay: u32) -> (r: bool)
        ensures
            exists|now: i64|
                r == #[trigger] self@.is_expired_at(data_expiration_delay, now as int),
    {
        let now: i64 = clock::current_unix_seconds();
        self.is_expired_at(data_expiration_delay, now)
    }

    /// Whether the rates are too old at the Unix time `now`.
    pub fn is_expired_at(&self, data_expiration_delay: u32, now: i64) -> (r: bool)
        ensures
            r == self@.is_expired_at(data_expiration_delay, now as int),
            r <==> now > self@.timestamp + data_expiration_delay,
    {
        self.timestamp as i128 + (data_expiration_delay as i128) < now as i128
    }
}

/// The rates of an entry of the shared store, if they are still good at the Unix
/// time `now`.
pub fn is_redis_expired_at(
    redis_cache: Option<&FxExchangeRatesCacheEntry>,
    data_expiration_delay: u32,
    now: i64,
) -> (r: Option<Arc<ExchangeRates>>)
    ensures
        rates_option(r) == match redis_cache {
            Some(cache) if cache@.is_reusable_at(data_expiration_delay, now as int) => Some(
                cache@.data,
            ),
            _ => None,
        },
        redis_cache is None ==> r is None,
        redis_cache matches Some(cache) ==> {
            &&& r is Some <==> now < cache@.timestamp + data_expiration_delay
            &&& r matches Some(rates) ==> rates@ == cache@.data
        },
{
    match redis_cache {
        Some(cache) => {
            if cache.timestamp as i128 + (data_expiration_delay as i128) > now as i128 {
                Some(share(&cache.data))
            } else {
                None
            }
        },
        None => None,
    }
}

/// The rates that a process keeps.
pub struct ForexCache {
    entry: Option<FxExchangeRatesCacheEntry>,
}

impl View for ForexCache {
    type V = Option<EntryView>;

    closed spec fn view(&self) -> Option<EntryView> {
        entry_option(self.entry)
    }
}

impl ForexCache {
    /// A cache without rates.
    pub fn new() -> (r: ForexCache)
        ensures
            r@ is None,
    {
        ForexCache { entry: None }
    }
}

/// The rates that the process keeps, if any.
pub fn retrieve_forex_from_local_cache(cache: &ForexCache) -> (r: Option<FxExchangeRatesCacheEntry>)
    ensures
        entry_option(r) == cache@,
{
    match &cache.entry {
        Some(entry) => Some(entry.clone()),
        None => None,
    }
}

/// Keeps rates in the process, in place of those it had.
pub fn save_forex_data_to_local_cache(cache: &mut ForexCache, entry: FxExchangeRatesCacheEntry)
    ensures
        final(cache)@ == Some(entry@),
{
    cache.entry = Some(entry);
}

/// What became of a command to the shared store.
pub enum RedisReply<T> {
    /// There is no connection to the store.
    NoConnection,
    /// The command failed.
    Failed,
    /// What the store replied.
    Done(T),
}

impl<T> RedisReply<T> {
    /// The reply, or the error of a command whose failure is `failure`.
    pub open spec fn or_error(self, failure: ForexError) -> Result<T, ForexError> {
        match self {
            RedisReply::NoConnection => Err(ForexError::RedisConnectionError),
            RedisReply::Failed => Err(failure),
            RedisReply::Done(value) => Ok(value),
        }
    }

    /// The reply, or the error of a command whose failure is `failure`.
    fn into_result(self, failure: ForexError) -> (r: Result<T, ForexError>)
        ensures
            r == self.or_error(failure),
    {
        match self {
            RedisReply::NoConnection => Err(ForexError::RedisConnectionError),
            RedisReply::Failed => Err(failure),
            RedisReply::Done(value) => Ok(value),
        }
    }
}

/// What the shared store replied to setting a key only if it is not there.
#[derive(Clone, Copy, Debug, PartialEq, Eq, Structural)]
pub enum SetnxReply {
    KeySet,
    KeyNotSet,
}

/// Whether the lock was had, or why that could not be told.
pub fn acquire_redis_lock(reply: RedisReply<SetnxReply>) -> (r: Result<bool, ForexError>)
    ensures
        r == match reply.or_error(ForexError::CouldNotAcquireLock) {
            Ok(reply) => Ok::<bool, ForexError>(reply == SetnxReply::KeySet),
            Err(error) => Err::<bool, ForexError>(error),
        },
{
    match reply.into_result(ForexError::CouldNotAcquireLock) {
        Ok(reply) => Ok(reply == SetnxReply::KeySet),
        Err(error) => Err(error),
    }
}

/// Whether the lock was released, or why not.
pub fn release_redis_lock(reply: RedisReply<()>) -> (r: Result<(), ForexError>)
    ensures
        r == reply.or_error(ForexError::RedisLockReleaseFailed),
{
    reply.into_result(ForexError::RedisLockReleaseFailed)
}

/// Whether rates were stored, or why not.
pub fn save_forex_data_to_redis(reply: RedisReply<()>) -> (r: Result<(), ForexError>)
    ensures
        r == reply.or_error(ForexError::RedisWriteError),
{
    reply.into_result(ForexError::RedisWriteError)
}

/// The rates that are stored, if any, or why they could not be read.
pub fn retrieve_forex_data_from_redis(
    reply: RedisReply<Option<FxExchangeRatesCacheEntry>>,
) -> (r: Result<Option<FxExchangeRatesCacheEntry>, ForexError>)
    ensures
        r == reply.or_error(ForexError::EntryNotFound),
{
    reply.into_result(ForexError::EntryNotFound)
}

/// What a question for rates came to.
pub struct Lookup {
    /// The rates, or why there are none.
    pub result: Result<FxExchangeRatesCacheEntry, ForexError>,
    /// Whether a task is to be started that renews the rates.
    pub refresh: bool,
}

/// What a question for rates came to, as numbers.
pub struct LookupView {
    pub result: Result<EntryView, ForexError>,
    pub refresh: bool,
}

impl View for Lookup {
    type V = LookupView;

    open spec fn view(&self) -> LookupView {
        LookupView { result: entry_result(self.result), refresh: self.refresh }
    }
}

/// Whether an error says that there are no keys.
pub open spec fn is_missing_key_error(error: ForexError) -> bool {
    error matches ForexError::ConfigurationError(detail) && detail@ == "api_keys not provided"@
}

/// Whether a question for rates may come to `lookup` when the rates at hand are
/// too old, or there are none.
///
/// Without any key that is a configuration error. With one, the rates are
/// renewed, and those at hand are handed out meanwhile; without rates at hand,
/// the entry is not found.
pub open spec fn renewing(conf: ForexApi, stale: Option<EntryView>, lookup: LookupView) -> bool {
    if conf.has_key() {
        lookup == (LookupView {
            result: match stale {
                Some(entry) => Ok(entry),
                None => Err(ForexError::EntryNotFound),
            },
            refresh: true,
        })
    } else {
        !lookup.refresh && (lookup.result matches Err(error) && is_missing_key_error(error))
    }
}

/// What a question for rates comes to when those at hand, if any, are too old.
pub fn call_forex_api_and_save_data_to_cache_and_redis(
    conf: &ForexApi,
    stale_redis_data: Option<FxExchangeRatesCacheEntry>,
) -> (r: Lookup)
    ensures
        renewing(*conf, entry_option(stale_redis_data), r@),
{
    // A key for the fallback is enough: the first provider fails without one,
    // and the fallback is asked.
    if conf.key_for(conf.provider).is_empty() && conf.key_for(conf.fallback_provider).is_empty() {
        Lookup {
            result: Err(ForexError::ConfigurationError("api_keys not provided".to_owned())),
            refresh: false,
        }
    } else {
        let result = match stale_redis_data {
            Some(entry) => Ok(entry),
            None => Err(ForexError::EntryNotFound),
        };
        Lookup { result, refresh: true }
    }
}

/// Whether a question for rates may leave `cache` and come to `lookup` when the
/// process had none and the shared store has `stored`.
pub open spec fn looked_up_stored(
    conf: ForexApi,
    before: Option<EntryView>,
    stored: EntryView,
    delay: u32,
    now: int,
    cache: Option<EntryView>,
    lookup: LookupView,
) -> bool {
    if stored.is_reusable_at(delay, now) {
        let entry = EntryView { data: stored.data, timestamp: now };
        cache == Some(entry) && lookup == (LookupView { result: Ok(entry), refresh: false })
    } else {
        cache == before && renewing(conf, Some(stored), lookup)
    }
}

/// What a question for rates comes to when the shared store has an entry: rates
/// that are still good are kept in the process, as had now. Others are renewed.
pub fn call_forex_api_if_redis_data_expired(
    conf: &ForexApi,
    cache: &mut ForexCache,
    redis_data: FxExchangeRatesCacheEntry,
    data_expiration_delay: u32,
    now: i64,
) -> (r: Lookup)
    ensures
        looked_up_stored(
            *conf,
            old(cache)@,
            redis_data@,
            data_expiration_delay,
            now as int,
            final(cache)@,
            r@,
        ),
{
    match is_redis_expired_at(Some(&redis_data), data_expiration_delay, now) {
        Some(redis_forex) => {
            let exchange_rates = FxExchangeRatesCacheEntry::new_at(redis_forex, now);
            save_forex_data_to_local_cache(cache, exchange_rates.clone());
            Lookup { result: Ok(exchange_rates), refresh: false }
        },
        None => call_forex_api_and_save_data_to_cache_and_redis(conf, Some(redis_data)),
    }
}

/// Whether a question for rates may leave `cache` and come to `lookup` when the
/// process had none and the shared store gave `reply`.
pub open spec fn looked_up_shared(
    conf: ForexApi,
    before: Option<EntryView>,
    reply: RedisReply<Option<FxExchangeRatesCacheEntry>>,
    delay: u32,
    now: int,
    cache: Option<EntryView>,
    lookup: LookupView,
) -> bool {
    match reply {
        RedisReply::Done(Some(stored)) => looked_up_stored(
            conf,
            before,
            stored@,
            delay,
            now,
            cache,
            lookup,
        ),
        _ => cache == before && renewing(conf, None, lookup),
    }
}

/// What a question for rates comes to, by the reply of the shared store. A store
/// that cannot be read is taken as one without rates.
pub fn call_api_if_redis_forex_data_expired(
    conf: &ForexApi,
    cache: &mut ForexCache,
    reply: RedisReply<Option<FxExchangeRatesCacheEntry>>,
    data_expiration_delay: u32,
    now: i64,
) -> (r: Lookup)
    ensures
        looked_up_shared(
            *conf,
            old(cache)@,
            reply,
            data_expiration_delay,
            now as int,
            final(cache)@,
            r@,
        ),
{
    match retrieve_forex_data_from_redis(reply) {
        Ok(Some(data)) => call_forex_api_if_redis_data_expired(
            conf,
            cache,
            data,
            data_expiration_delay,
            now,
        ),
        Ok(None) | Err(_) => {
            let lookup = call_forex_api_and_save_data_to_cache_and_redis(conf, None);
            match lookup.result {
                Ok(_) => Lookup {
                    result: Err(ForexError::ForexDataUnavailable),
                    refresh: lookup.refresh,
                },
                Err(error) => Lookup { result: Err(error), refresh: lookup.refresh },
            }
        },
    }
}

/// What happened last in a question for rates.
pub enum LookupEvent {
    /// The question begins.
    Started,
    /// The shared store was asked for rates.
    Retrieved(RedisReply<Option<FxExchangeRatesCacheEntry>>),
}

/// What is to be done next in a question for rates.
pub enum LookupStep {
    /// Ask the shared store for rates.
    AskRedis,
    /// This is what the question came to.
    Done(Lookup),
}

/// What is to be done next, as numbers.
pub enum LookupStepView {
    AskRedis,
    Done(LookupView),
}

impl View for LookupStep {
    type V = LookupStepView;

    open spec fn view(&self) -> LookupStepView {
        match self {
            LookupStep::AskRedis => LookupStepView::AskRedis,
            LookupStep::Done(lookup) => LookupStepView::Done(lookup@),
        }
    }
}

/// Whether a question for rates may leave `cache` and go on with `step` after
/// `event`, at the Unix time `now`.
pub open spec fn looked_up(
    conf: ForexApi,
    before: Option<EntryView>,
    event: LookupEvent,
    delay: u32,
    now: int,
    cache: Option<EntryView>,
    step: LookupStepView,
) -> bool {
    match event {
        LookupEvent::Started => cache == before && match before {
            None => step is AskRedis,
            Some(entry) => step matches LookupStepView::Done(lookup) && if entry.is_expired_at(
                delay,
                now,
            ) {
                renewing(conf, Some(entry), lookup)
            } else {
                lookup == (LookupView { result: Ok(entry), refresh: false })
            },
        },
        LookupEvent::Retrieved(reply) => step matches LookupStepView::Done(lookup)
            && looked_up_shared(conf, before, reply, delay, now, cache, lookup),
    }
}

/// Takes what happened last in a question for rates, and says what is to be done
/// next.
///
/// Rates in the process that are not too old are handed out. Rates in the process
/// that are too old are renewed. Only without rates in the process is the shared
/// store asked.
pub fn get_forex_rates(
    conf: &ForexApi,
    cache: &mut ForexCache,
    data_expiration_delay: u32,
    event: LookupEvent,
) -> (r: LookupStep)
    ensures
        exists|now: i64| #[trigger]
            looked_up(
                *conf,
                old(cache)@,
                event,
                data_expiration_delay,
                now as int,
                final(cache)@,
                r@,
            ),
{
    let now: i64 = clock::current_unix_seconds();
    get_forex_rates_at(conf, cache, data_expiration_delay, event, now)
}

/// [`get_forex_rates`], at the Unix time `now`.
pub fn get_forex_rates_at(
    conf: &ForexApi,
    cache: &mut ForexCache,
    data_expiration_delay: u32,
    event: LookupEvent,
    now: i64,
) -> (r: LookupStep)
    ensures
        looked_up(
            *conf,
            old(cache)@,
            event,
            data_expiration_delay,
            now as int,
            final(cache)@,
            r@,
        ),
{
    match event {
        LookupEvent::Started => match retrieve_forex_from_local_cache(cache) {
            Some(local_rates) => {
                if local_rates.is_expired_at(data_expiration_delay, now) {
                    LookupStep::Done(
                        call_forex_api_and_save_data_to_cache_and_redis(conf, Some(local_rates)),
                    )
                } else {
                    LookupStep::Done(Lookup { result: Ok(local_rates), refresh: false })
                }
            },
            None => LookupStep::AskRedis,
        },
        LookupEvent::Retrieved(reply) => LookupStep::Done(
            call_api_if_redis_forex_data_expired(conf, cache, reply, data_expiration_delay, now),
        ),
    }
}

/// What happened last in a task that renews the rates.
pub enum RefreshEvent {
    /// The lock was asked for.
    Locked(RedisReply<SetnxReply>),
    /// A provider was asked for rates.
    Fetched(Result<ExchangeRates, ForexError>),
    /// The rates were stored.
    Stored(RedisReply<()>),
    /// The lock was released.
    Released(RedisReply<()>),
}

/// What is to be done next in a task that renews the rates.
pub enum RefreshStep {
    /// Set the key of the lock if it is not there, for so many seconds.
    AcquireLock { expiry_seconds: i64 },
    /// Fetch rates from a provider.
    Fetch { provider: ProviderName, url: String },
    /// Store rates, for so many seconds.
    Store { entry: FxExchangeRatesCacheEntry, expiry_seconds: i64 },
    /// Delete the key of the lock.
    Release,
    /// The task is over.
    Finished(Result<(), FetchError>),
}

/// What is to be done next, as numbers and characters.
pub enum RefreshStepView {
    AcquireLock { expiry_seconds: int },
    Fetch { provider: ProviderName, url: Seq<char> },
    Store { entry: EntryView, expiry_seconds: int },
    Release,
    Finished(Result<(), FetchErrorView>),
}

/// The view of the end of a task.
pub open spec fn finish_result(r: Result<(), FetchError>) -> Result<(), FetchErrorView> {
    match r {
        Ok(()) => Ok(()),
        Err(error) => Err(error@),
    }
}

impl View for RefreshStep {
    type V = RefreshStepView;

    open spec fn view(&self) -> RefreshStepView {
        match self {
            RefreshStep::AcquireLock { expiry_seconds } => RefreshStepView::AcquireLock {
                expiry_seconds: *expiry_seconds as int,
            },
            RefreshStep::Fetch { provider, url } => RefreshStepView::Fetch {
                provider: *provider,
                url: url@,
            },
            RefreshStep::Store { entry, expiry_seconds } => RefreshStepView::Store {
                entry: entry@,
                expiry_seconds: *expiry_seconds as int,
            },
            RefreshStep::Release => RefreshStepView::Release,
            RefreshStep::Finished(result) => RefreshStepView::Finished(finish_result(*result)),
        }
    }
}

/// Where a task that renews the rates stands.
enum RefreshPhase {
    Locking,
    AskingPrimary,
    AskingFallback,
    Storing(FxExchangeRatesCacheEntry),
    /// The rates are stored; the lock is being released.
    Releasing(FxExchangeRatesCacheEntry),
    /// Both providers failed; the lock is being released.
    GivingUp(FetchError),
    Finished(Result<(), FetchError>),
}

/// Where a task that renews the rates stands, as numbers and characters.
pub enum PhaseView {
    /// The lock is asked for.
    Locking,
    /// The first provider is asked for rates.
    AskingPrimary,
    /// The fallback is asked for rates.
    AskingFallback,
    /// The rates are being stored.
    Storing(EntryView),
    /// The rates are stored; the lock is being released.
    Releasing(EntryView),
    /// Both providers failed; the lock is being released.
    GivingUp(FetchErrorView),
    /// The task is over.
    Finished(Result<(), FetchErrorView>),
}

/// A task that renews the rates.
pub struct RefreshTask {
    primary: ForexProvider,
    fallback: ForexProvider,
    lock_expiry_seconds: i64,
    store_expiry_seconds: i64,
    phase: RefreshPhase,
}

/// A task that renews the rates, as numbers and characters.
pub struct RefreshView {
    pub primary: ProviderName,
    pub primary_key: Seq<char>,
    pub fallback: ProviderName,
    pub fallback_key: Seq<char>,
    pub lock_expiry_seconds: int,
    pub store_expiry_seconds: int,
    pub phase: PhaseView,
}

impl View for RefreshTask {
    type V = RefreshView;

    closed spec fn view(&self) -> RefreshView {
        RefreshView {
            primary: self.primary.spec_name(),
            primary_key: self.primary.spec_key(),
            fallback: self.fallback.spec_name(),
            fallback_key: self.fallback.spec_key(),
            lock_expiry_seconds: self.lock_expiry_seconds as int,
            store_expiry_seconds: self.store_expiry_seconds as int,
            phase: match self.phase {
                RefreshPhase::Locking => PhaseView::Locking,
                RefreshPhase::AskingPrimary => PhaseView::AskingPrimary,
                RefreshPhase::AskingFallback => PhaseView::AskingFallback,
                RefreshPhase::Storing(entry) => PhaseView::Storing(entry@),
                RefreshPhase::Releasing(entry) => PhaseView::Releasing(entry@),
                RefreshPhase::GivingUp(error) => PhaseView::GivingUp(error@),
                RefreshPhase::Finished(result) => PhaseView::Finished(finish_result(result)),
            },
        }
    }
}

/// The end of a task for an error that is not about both providers.
pub open spec fn failed_with(error: ForexError) -> PhaseView {
    PhaseView::Finished(Err(FetchErrorView { error, context: None }))
}

impl RefreshView {
    /// A task that has not begun.
    pub open spec fn fresh(conf: ForexApi) -> RefreshView {
        RefreshView {
            primary: conf.provider,
            primary_key: conf.key(conf.provider)@,
            fallback: conf.fallback_provider,
            fallback_key: conf.key(conf.fallback_provider)@,
            lock_expiry_seconds: conf.redis_lock_timeout_in_seconds as int,
            store_expiry_seconds: conf.redis_ttl_in_seconds as int,
            phase: PhaseView::Locking,
        }
    }

    /// What is to be done in the phase of the task.
    pub open spec fn step(self) -> RefreshStepView {
        match self.phase {
            PhaseView::Locking => RefreshStepView::AcquireLock {
                expiry_seconds: self.lock_expiry_seconds,
            },
            PhaseView::AskingPrimary => RefreshStepView::Fetch {
                provider: self.primary,
                url: provider::rates_url(self.primary, self.primary_key),
            },
            PhaseView::AskingFallback => RefreshStepView::Fetch {
                provider: self.fallback,
                url: provider::rates_url(self.fallback, self.fallback_key),
            },
            PhaseView::Storing(entry) => RefreshStepView::Store {
                entry,
                expiry_seconds: self.store_expiry_seconds,
            },
            PhaseView::Releasing(_) | PhaseView::GivingUp(_) => RefreshStepView::Release,
            PhaseView::Finished(result) => RefreshStepView::Finished(result),
        }
    }

    /// The phase that what fetching rates came to leads to, at the Unix time
    /// `now`.
    pub open spec fn after_fetch(self, event: FetchEvent, now: int) -> PhaseView {
        match provider::fetch_step(
            self.primary.label_text(),
            self.fallback.label_text(),
            event,
        ) {
            FetchStepView::AskFallback => PhaseView::AskingFallback,
            FetchStepView::Fetched(data) => PhaseView::Storing(EntryView { data, timestamp: now }),
            FetchStepView::Failed(error) => PhaseView::GivingUp(error),
        }
    }

    /// The phase after `event`, at the Unix time `now`. An event that the task
    /// does not wait for changes nothing.
    pub open spec fn next_phase(self, event: RefreshEvent, now: int) -> PhaseView {
        match (self.phase, event) {
            (PhaseView::Locking, RefreshEvent::Locked(reply)) => match reply {
                RedisReply::Done(SetnxReply::KeySet) => PhaseView::AskingPrimary,
                RedisReply::NoConnection => failed_with(ForexError::RedisConnectionError),
                _ => failed_with(ForexError::CouldNotAcquireLock),
            },
            (PhaseView::AskingPrimary, RefreshEvent::Fetched(rates)) => self.after_fetch(
                FetchEvent::Primary(rates),
                now,
            ),
            (PhaseView::AskingFallback, RefreshEvent::Fetched(rates)) => self.after_fetch(
                FetchEvent::Fallback(rates),
                now,
            ),
            (PhaseView::Storing(entry), RefreshEvent::Stored(reply)) => match reply.or_error(
                ForexError::RedisWriteError,
            ) {
                Ok(()) => PhaseView::Releasing(entry),
                Err(error) => failed_with(error),
            },
            (PhaseView::Releasing(_), RefreshEvent::Released(reply)) => match reply.or_error(
                ForexError::RedisLockReleaseFailed,
            ) {
                Ok(()) => PhaseView::Finished(Ok(())),
                Err(error) => failed_with(error),
            },
            (PhaseView::GivingUp(failure), RefreshEvent::Released(reply)) => match reply.or_error(
                ForexError::RedisLockReleaseFailed,
            ) {
                Ok(()) => PhaseView::Finished(Err(failure)),
                Err(error) => failed_with(error),
            },
            (phase, _) => phase,
        }
    }

    /// The task after `event`, at the Unix time `now`.
    pub open spec fn next(self, event: RefreshEvent, now: int) -> RefreshView {
        RefreshView { phase: self.next_phase(event, now), ..self }
    }

    /// The rates that the process keeps after `event`: new ones once they are
    /// stored and the lock is released.
    pub open spec fn cache_after(self, event: RefreshEvent, cache: Option<EntryView>) -> Option<
        EntryView,
    > {
        match (self.phase, event) {
            (
                PhaseView::Releasing(entry),
                RefreshEvent::Released(RedisReply::Done(_)),
            ) => Some(entry),
            _ => cache,
        }
    }
}

impl RefreshTask {
    /// A task that has not begun.
    pub fn new(conf: &ForexApi) -> (r: RefreshTask)
        ensures
            r@ == RefreshView::fresh(*conf),
    {
        RefreshTask {
            primary: ForexProvider::from_config(conf.provider, conf),
            fallback: ForexProvider::from_config(conf.fallback_provider, conf),
            lock_expiry_seconds: conf.redis_lock_timeout_in_seconds as i64,
            store_expiry_seconds: conf.redis_ttl_in_seconds as i64,
            phase: RefreshPhase::Locking,
        }
    }

    /// What is to be done next.
    pub fn step(&self) -> (r: RefreshStep)
        ensures
            r@ == self@.step(),
    {
        match &self.phase {
            RefreshPhase::Locking => RefreshStep::AcquireLock {
                expiry_seconds: self.lock_expiry_seconds,
            },
            RefreshPhase::AskingPrimary => RefreshStep::Fetch {
                provider: self.primary.provider(),
                url: self.primary.url(),
            },
            RefreshPhase::AskingFallback => RefreshStep::Fetch {
                provider: self.fallback.provider(),
                url: self.fallback.url(),
            },
            RefreshPhase::Storing(entry) => RefreshStep::Store {
                entry: entry.clone(),
                expiry_seconds: self.store_expiry_seconds,
            },
            RefreshPhase::Releasing(_) => RefreshStep::Release,
            RefreshPhase::GivingUp(_) => RefreshStep::Release,
            RefreshPhase::Finished(result) => RefreshStep::Finished(
                match result {
                    Ok(()) => Ok(()),
                    Err(error) => Err(error.clone()),
                },
            ),
        }
    }
    /// Takes what happened last, and says what is to be done next.
    ///
    /// Only the process that has the lock asks for rates: the first provider, and
    /// the fallback if that fails. Rates are stored, then the lock is released,
    /// and then the process keeps them. If there are none, the lock is released
    /// too. If they could not be stored, the lock is left to expire.
    pub fn advance(&mut self, cache: &mut ForexCache, event: RefreshEvent) -> (r: RefreshStep)
        ensures
            exists|now: i64| final(self)@ == #[trigger] old(self)@.next(event, now as int),
            final(cache)@ == old(self)@.cache_after(event, old(cache)@),
            r@ == final(self)@.step(),
    {
        let now: i64 = clock::current_unix_seconds();
        self.advance_at(cache, event, now)
    }

    /// [`advance`](RefreshTask::advance), at the Unix time `now`.
    pub fn advance_at(&mut self, cache: &mut ForexCache, event: RefreshEvent, now: i64) -> (r:
        RefreshStep)
        ensures
            final(self)@ == old(self)@.next(event, now as int),
            final(cache)@ == old(self)@.cache_after(event, old(cache)@),
            r@ == final(self)@.step(),
    {
        match event {
            RefreshEvent::Locked(reply) => {
                if let RefreshPhase::Locking = &self.phase {
                    self.phase = match acquire_redis_lock(reply) {
                        Ok(true) => RefreshPhase::AskingPrimary,
                        Ok(false) => failed(ForexError::CouldNotAcquireLock),
                        Err(error) => failed(error),
                    };
                }
            },
            RefreshEvent::Fetched(rates) => {
                let asked = match &self.phase {
                    RefreshPhase::AskingPrimary => Some(FetchEvent::Primary(rates)),
                    RefreshPhase::AskingFallback => Some(FetchEvent::Fallback(rates)),
                    _ => None,
                };
                if let Some(asked) = asked {
                    self.phase = match fetch_with_fallback(
                        self.primary.name(),
                        self.fallback.name(),
                        asked,
                    ) {
                        FetchStep::AskFallback => RefreshPhase::AskingFallback,
                        FetchStep::Fetched(rates) => RefreshPhase::Storing(
                            FxExchangeRatesCacheEntry::new_at(Arc::new(rates), now),
                        ),
                        FetchStep::Failed(error) => RefreshPhase::GivingUp(error),
                    };
                }
            },
            RefreshEvent::Stored(reply) => {
                let stored = match &self.phase {
                    RefreshPhase::Storing(entry) => Some(entry.clone()),
                    _ => None,
                };
                if let Some(entry) = stored {
                    self.phase = match save_forex_data_to_redis(reply) {
                        Ok(()) => RefreshPhase::Releasing(entry),
                        Err(error) => failed(error),
                    };
                }
            },
            RefreshEvent::Released(reply) => {
                let finished = match &self.phase {
                    RefreshPhase::Releasing(entry) => {
                        match release_redis_lock(reply) {
                            Ok(()) => {
                                save_forex_data_to_local_cache(cache, entry.clone());
                                Some(RefreshPhase::Finished(Ok(())))
                            },
                            Err(error) => Some(failed(error)),
                        }
                    },
                    RefreshPhase::GivingUp(failure) => {
                        match release_redis_lock(reply) {
                            Ok(()) => Some(RefreshPhase::Finished(Err(failure.clone()))),
                            Err(error) => Some(failed(error)),
                        }
                    },
                    _ => None,
                };
                if let Some(phase) = finished {
                    self.phase = phase;
                }
            },
        }
        self.step()
    }
}

/// The end of a task for an error that is not about both providers.
fn failed(error: ForexError) -> (r: RefreshPhase)
    ensures
        r == RefreshPhase::Finished(Err(FetchError { error, context: None })),
{
    RefreshPhase::Finished(Err(FetchError { error, context: None }))
}

/// The answer to a request for a conversion.
#[derive(Debug)]
pub struct CurrencyConversionResponse {
    /// The converted amount, in major units.
    pub converted_amount: String,
    /// The currency of the converted amount.
    pub currency: String,
}

/// The answer to a request for a conversion, as characters.
pub struct ConversionView {
    pub converted_amount: Seq<char>,
    pub currency: Seq<char>,
}

impl View for CurrencyConversionResponse {
    type V = ConversionView;

    open spec fn view(&self) -> ConversionView {
        ConversionView {
            converted_amount: self.converted_amount@,
            currency: self.currency@,
        }
    }
}

/// The view of an answer, or of why there is none.
pub open spec fn response_result(r: Result<CurrencyConversionResponse, ForexError>) -> Result<
    ConversionView,
    ForexError,
> {
    match r {
        Ok(response) => Ok(response@),
        Err(error) => Err(error),
    }
}

/// The answer to a request for a conversion with what asking for rates gave.
pub open spec fn conversion_answer(
    rates: Result<EntryView, ForexError>,
    amount: int,
    to_currency: Seq<char>,
    from_currency: Seq<char>,
) -> Result<ConversionView, ForexError> {
    match (rates, Currency::of_code(to_currency), Currency::of_code(from_currency)) {
        (Err(_), _, _) => Err(ForexError::ApiError),
        (Ok(entry), Some(to), Some(from)) => match entry.data.converted(from, to, amount) {
            Ok(converted) => Ok(
                ConversionView { converted_amount: converted.text(), currency: to.alpha_code() },
            ),
            Err(_) => Err(ForexError::ConversionError),
        },
        _ => Err(ForexError::CurrencyNotAcceptable),
    }
}

/// Converts `amount` minor units of one currency into another, both given by
/// their codes. `rates` is what asking for rates gave.
pub fn convert_currency(
    rates: Result<FxExchangeRatesCacheEntry, ForexError>,
    amount: i64,
    to_currency: String,
    from_currency: String,
) -> (r: Result<CurrencyConversionResponse, ForexError>)
    ensures
        response_result(r) == conversion_answer(
            entry_result(rates),
            amount as int,
            to_currency@,
            from_currency@,
        ),
{
    let rates = match rates {
        Ok(rates) => rates,
        Err(_) => {
            return Err(ForexError::ApiError);
        },
    };
    let to_currency = match Currency::from_code(to_currency.as_str()) {
        Some(to_currency) => to_currency,
        None => {
            return Err(ForexError::CurrencyNotAcceptable);
        },
    };
    let from_currency = match Currency::from_code(from_currency.as_str()) {
        Some(from_currency) => from_currency,
        None => {
            return Err(ForexError::CurrencyNotAcceptable);
        },
    };
    match convert(&rates.data, from_currency, to_currency, amount) {
        Ok(converted_amount) => Ok(
            CurrencyConversionResponse {
                converted_amount: converted_amount.to_text(),
                currency: to_currency.to_string(),
            },
        ),
        Err(_) => Err(ForexError::ConversionError),
    }
}

/// Rates of the shared store that are still good are not too old for the process
/// either, and at any moment but the last one of the delay rates that are not too
/// old are still good.
pub proof fn law_reusable_rates_are_not_expired(entry: EntryView, delay: u32, now: int)
    ensures
        entry.is_reusable_at(delay, now) ==> !entry.is_expired_at(delay, now),
        now != entry.timestamp + delay ==> (entry.is_reusable_at(delay, now) <==> !entry.is_expired_at(
            delay,
            now,
        )),
{
}

/// Rates grow too old once, and stay so.
pub proof fn law_expired_rates_stay_expired(entry: EntryView, delay: u32, now: int, later: int)
    requires
        entry.is_expired_at(delay, now),
        now <= later,
    ensures
        entry.is_expired_at(delay, later),
        !entry.is_reusable_at(delay, later),
{
}

/// Rates in the process are handed out as they are until the delay has passed;
/// nothing is renewed, and the shared store is not asked.
pub proof fn law_rates_in_process_are_served(
    conf: ForexApi,
    entry: EntryView,
    delay: u32,
    now: int,
    cache: Option<EntryView>,
    step: LookupStepView,
)
    requires
        now <= entry.timestamp + delay,
        looked_up(conf, Some(entry), LookupEvent::Started, delay, now, cache, step),
    ensures
        cache == Some(entry),
        step == LookupStepView::Done(LookupView { result: Ok(entry), refresh: false }),
{
}

/// Rates that are too old are handed out all the same while they are renewed, be
/// they in the process or in the shared store, if there is a key.
pub proof fn law_old_rates_are_served_meanwhile(
    conf: ForexApi,
    entry: FxExchangeRatesCacheEntry,
    delay: u32,
    now: int,
    cache: Option<EntryView>,
    step: LookupStepView,
)
    requires
        conf.has_key(),
        ({
            ||| entry@.is_expired_at(delay, now) && looked_up(
                conf,
                Some(entry@),
                LookupEvent::Started,
                delay,
                now,
                cache,
                step,
            )
            ||| !entry@.is_reusable_at(delay, now) && looked_up(
                conf,
                None,
                LookupEvent::Retrieved(RedisReply::Done(Some(entry))),
                delay,
                now,
                cache,
                step,
            )
        }),
    ensures
        step == LookupStepView::Done(LookupView { result: Ok(entry@), refresh: true }),
{
}

/// Without rates at hand and with a key, the rates are renewed and the question
/// fails, also if the shared store cannot be read.
pub proof fn law_no_rates_at_hand_is_an_error(
    conf: ForexApi,
    reply: RedisReply<Option<FxExchangeRatesCacheEntry>>,
    delay: u32,
    now: int,
    cache: Option<EntryView>,
    step: LookupStepView,
)
    requires
        conf.has_key(),
        !(reply matches RedisReply::Done(Some(_))),
        looked_up(conf, None, LookupEvent::Retrieved(reply), delay, now, cache, step),
    ensures
        cache is None,
        step == LookupStepView::Done(
            LookupView { result: Err(ForexError::EntryNotFound), refresh: true },
        ),
{
}

/// A question for rates starts a task only if a provider has a key; without a
/// key, rates that would have to be renewed are a configuration error.
pub proof fn law_renewing_needs_a_key(
    conf: ForexApi,
    before: Option<EntryView>,
    event: LookupEvent,
    delay: u32,
    now: int,
    cache: Option<EntryView>,
    lookup: LookupView,
)
    requires
        !conf.has_key(),
        looked_up(conf, before, event, delay, now, cache, LookupStepView::Done(lookup)),
    ensures
        !lookup.refresh,
        lookup.result matches Err(error) ==> is_missing_key_error(error),
        lookup.result is Ok ==> cache is Some && lookup.result == Ok::<EntryView, ForexError>(
            cache->0,
        ),
{
}

/// Rates of the shared store that are still good are kept in the process, and the
/// next question is answered with them until the delay has passed once more.
pub proof fn law_stored_rates_are_kept(
    conf: ForexApi,
    stored: FxExchangeRatesCacheEntry,
    delay: u32,
    now: int,
    cache: Option<EntryView>,
    step: LookupStepView,
    later: int,
    next_cache: Option<EntryView>,
    next_step: LookupStepView,
)
    requires
        stored@.is_reusable_at(delay, now),
        looked_up(
            conf,
            None,
            LookupEvent::Retrieved(RedisReply::Done(Some(stored))),
            delay,
            now,
            cache,
            step,
        ),
        later <= now + delay,
        looked_up(conf, cache, LookupEvent::Started, delay, later, next_cache, next_step),
    ensures
        ({
            let entry = EntryView { data: stored@.data, timestamp: now };
            &&& step == LookupStepView::Done(LookupView { result: Ok(entry), refresh: false })
            &&& next_step == step
            &&& next_cache == Some(entry)
        }),
{
}

impl PhaseView {
    /// How many events can still follow before the task is over.
    pub open spec fn rank(self) -> nat {
        match self {
            PhaseView::Locking => 5,
            PhaseView::AskingPrimary => 4,
            PhaseView::AskingFallback => 3,
            PhaseView::Storing(_) => 2,
            PhaseView::Releasing(_) | PhaseView::GivingUp(_) => 1,
            PhaseView::Finished(_) => 0,
        }
    }

    /// Whether `event` is the reply to what is done in the phase.
    pub open spec fn awaits(self, event: RefreshEvent) -> bool {
        match self {
            PhaseView::Locking => event is Locked,
            PhaseView::AskingPrimary | PhaseView::AskingFallback => event is Fetched,
            PhaseView::Storing(_) => event is Stored,
            PhaseView::Releasing(_) | PhaseView::GivingUp(_) => event is Released,
            PhaseView::Finished(_) => false,
        }
    }
}

/// A task ends: each reply that it waits for brings it nearer to its end, and no
/// other event changes it.
pub proof fn law_refresh_ends(task: RefreshView, event: RefreshEvent, now: int)
    ensures
        task.phase.awaits(event) ==> task.next(event, now).phase.rank() < task.phase.rank(),
        !task.phase.awaits(event) ==> task.next(event, now) == task,
        task.phase.rank() == 0 <==> task.step() is Finished,
{
}

/// A process that does not get the lock asks no provider: its task is over, with
/// an error.
pub proof fn law_only_the_lock_holder_fetches(
    conf: ForexApi,
    reply: RedisReply<SetnxReply>,
    now: int,
)
    ensures
        ({
            let task = RefreshView::fresh(conf).next(RefreshEvent::Locked(reply), now);
            if reply == RedisReply::Done(SetnxReply::KeySet) {
                task.step() == (RefreshStepView::Fetch {
                    provider: conf.provider,
                    url: provider::rates_url(conf.provider, conf.key(conf.provider)@),
                })
            } else {
                task.step() matches RefreshStepView::Finished(Err(_))
            }
        }),
{
}

/// If both providers fail, the lock is released, and the task ends with the error
/// of the fallback and words that name both.
pub proof fn law_lock_is_released_when_both_fail(
    conf: ForexApi,
    first: ForexError,
    second: ForexError,
    now: int,
)
    ensures
        ({
            let locked = RefreshView::fresh(conf).next(
                RefreshEvent::Locked(RedisReply::Done(SetnxReply::KeySet)),
                now,
            );
            let once = locked.next(RefreshEvent::Fetched(Err(first)), now);
            let twice = once.next(RefreshEvent::Fetched(Err(second)), now);
            let released = twice.next(RefreshEvent::Released(RedisReply::Done(())), now);
            &&& once.step() == (RefreshStepView::Fetch {
                provider: conf.fallback_provider,
                url: provider::rates_url(
                    conf.fallback_provider,
                    conf.key(conf.fallback_provider)@,
                ),
            })
            &&& twice.step() is Release
            &&& released.step() == RefreshStepView::Finished(
                Err(
                    FetchErrorView {
                        error: second,
                        context: Some(
                            provider::both_failed_text(
                                conf.provider.label_text(),
                                conf.fallback_provider.label_text(),
                            ),
                        ),
                    },
                ),
            )
        }),
{
}

/// Rates that were fetched are stored, the lock is released, and from then on the
/// process hands these rates out until the delay has passed.
pub proof fn law_renewed_rates_are_served(
    conf: ForexApi,
    task: RefreshView,
    rates: ExchangeRates,
    fetched: int,
    before: Option<EntryView>,
    delay: u32,
    later: int,
    cache: Option<EntryView>,
    step: LookupStepView,
)
    requires
        task.phase is AskingPrimary || task.phase is AskingFallback,
        later <= fetched + delay,
        ({
            let storing = task.next(RefreshEvent::Fetched(Ok(rates)), fetched);
            let releasing = storing.next(RefreshEvent::Stored(RedisReply::Done(())), fetched);
            looked_up(
                conf,
                releasing.cache_after(RefreshEvent::Released(RedisReply::Done(())), before),
                LookupEvent::Started,
                delay,
                later,
                cache,
                step,
            )
        }),
    ensures
        ({
            let entry = EntryView { data: rates@, timestamp: fetched };
            let storing = task.next(RefreshEvent::Fetched(Ok(rates)), fetched);
            let releasing = storing.next(RefreshEvent::Stored(RedisReply::Done(())), fetched);
            let done = releasing.next(RefreshEvent::Released(RedisReply::Done(())), fetched);
            &&& storing.step() == (RefreshStepView::Store {
                entry,
                expiry_seconds: task.store_expiry_seconds,
            })
            &&& releasing.step() is Release
            &&& done.step() == RefreshStepView::Finished(Ok(()))
            &&& step == LookupStepView::Done(LookupView { result: Ok(entry), refresh: false })
        }),
{
}

/// The process keeps what it has unless new rates were stored and the lock was
/// released.
pub proof fn law_failed_refresh_keeps_the_rates(
    task: RefreshView,
    event: RefreshEvent,
    now: int,
    cache: Option<EntryView>,
)
    requires
        task.next(event, now).phase != PhaseView::Finished(Ok(())),
    ensures
        task.cache_after(event, cache) == cache,
{
}

/// An amount is converted, or the request has exactly one error: the rates could
/// not be had, a currency is not known, or the conversion failed, in this order.
pub proof fn law_conversion_errors_are_ordered(
    rates: Result<EntryView, ForexError>,
    amount: int,
    to_currency: Seq<char>,
    from_currency: Seq<char>,
)
    ensures
        ({
            let known = Currency::of_code(to_currency) is Some && Currency::of_code(
                from_currency,
            ) is Some;
            let answer = conversion_answer(rates, amount, to_currency, from_currency);
            &&& answer == Err::<ConversionView, ForexError>(ForexError::ApiError) <==> rates is Err
            &&& answer == Err::<ConversionView, ForexError>(ForexError::CurrencyNotAcceptable)
                <==> rates is Ok && !known
            &&& answer is Ok || answer == Err::<ConversionView, ForexError>(
                ForexError::ConversionError,
            ) <==> rates is Ok && known
        }),
{
}

/// What a question comes to by the rates in the process. Until the delay has passed
/// they are handed out, and nothing is renewed. After it, with a key they are handed
/// out and renewed, and without one that is a configuration error. Only without rates
/// in the process is the shared store asked.
pub proof fn law_question_in_the_process(
    conf: ForexApi,
    before: Option<EntryView>,
    delay: u32,
    now: int,
    cache: Option<EntryView>,
    step: LookupStepView,
)
    requires
        looked_up(conf, before, LookupEvent::Started, delay, now, cache, step),
    ensures
        cache == before,
        before is None <==> step is AskRedis,
        before matches Some(entry) ==> {
            let keyed = conf.key(conf.provider)@.len() > 0 || conf.key(
                conf.fallback_provider,
            )@.len() > 0;
            &&& step is Done
            &&& now <= entry.timestamp + delay ==> {
                &&& step->Done_0.result == Ok::<EntryView, ForexError>(entry)
                &&& !step->Done_0.refresh
            }
            &&& now > entry.timestamp + delay && keyed ==> {
                &&& step->Done_0.result == Ok::<EntryView, ForexError>(entry)
                &&& step->Done_0.refresh
            }
            &&& now > entry.timestamp + delay && !keyed ==> {
                &&& step->Done_0.result is Err
                &&& step->Done_0.result->Err_0 is ConfigurationError
                &&& step->Done_0.result->Err_0->ConfigurationError_0@ == "api_keys not provided"@
                &&& !step->Done_0.refresh
            }
        },
{
}

/// What a question comes to by the rates in the shared store. Before the delay has
/// passed they are kept in the process and handed out, as had now, and nothing is
/// renewed. From then on, with a key they are handed out as they are and renewed,
/// and without one that is a configuration error; the process keeps what it had.
pub proof fn law_question_to_the_shared_store(
    conf: ForexApi,
    before: Option<EntryView>,
    stored: FxExchangeRatesCacheEntry,
    delay: u32,
    now: int,
    cache: Option<EntryView>,
    step: LookupStepView,
)
    requires
        looked_up(
            conf,
            before,
            LookupEvent::Retrieved(RedisReply::Done(Some(stored))),
            delay,
            now,
            cache,
            step,
        ),
    ensures
        step is Done,
        ({
            let keyed = conf.key(conf.provider)@.len() > 0 || conf.key(
                conf.fallback_provider,
            )@.len() > 0;
            let lookup = step->Done_0;
            &&& now < stored@.timestamp + delay ==> {
                &&& lookup.result is Ok
                &&& lookup.result->Ok_0.data == stored@.data
                &&& lookup.result->Ok_0.timestamp == now
                &&& cache == Some(lookup.result->Ok_0)
                &&& !lookup.refresh
            }
            &&& now >= stored@.timestamp + delay && keyed ==> {
                &&& lookup.result == Ok::<EntryView, ForexError>(stored@)
                &&& lookup.refresh
                &&& cache == before
            }
            &&& now >= stored@.timestamp + delay && !keyed ==> {
                &&& lookup.result is Err
                &&& lookup.result->Err_0 is ConfigurationError
                &&& lookup.result->Err_0->ConfigurationError_0@ == "api_keys not provided"@
                &&& !lookup.refresh
                &&& cache == before
            }
        }),
{
}

/// What a question comes to when the shared store has no rates, or cannot be read:
/// with a key they are renewed, and the question fails; without one that is a
/// configuration error. The process keeps what it had.
pub proof fn law_question_without_rates(
    conf: ForexApi,
    before: Option<EntryView>,
    reply: RedisReply<Option<FxExchangeRatesCacheEntry>>,
    delay: u32,
    now: int,
    cache: Option<EntryView>,
    step: LookupStepView,
)
    requires
        reply is NoConnection || reply is Failed || reply == RedisReply::Done(
            None::<FxExchangeRatesCacheEntry>,
        ),
        looked_up(conf, before, LookupEvent::Retrieved(reply), delay, now, cache, step),
    ensures
        cache == before,
        step is Done,
        ({
            let keyed = conf.key(conf.provider)@.len() > 0 || conf.key(
                conf.fallback_provider,
            )@.len() > 0;
            let lookup = step->Done_0;
            &&& lookup.refresh == keyed
            &&& lookup.result is Err
            &&& keyed ==> lookup.result->Err_0 == ForexError::EntryNotFound
            &&& !keyed ==> {
                &&& lookup.result->Err_0 is ConfigurationError
                &&& lookup.result->Err_0->ConfigurationError_0@ == "api_keys not provided"@
            }
        }),
{
}

/// What the renewal of rates comes to alone, whatever question led to it.
pub proof fn law_renewal_of_rates(conf: ForexApi, stale: Option<EntryView>, lookup: LookupView)
    requires
        renewing(conf, stale, lookup),
    ensures
        ({
            let keyed = conf.key(conf.provider)@.len() > 0 || conf.key(
                conf.fallback_provider,
            )@.len() > 0;
            &&& lookup.refresh == keyed
            &&& keyed && stale is Some ==> lookup.result == Ok::<EntryView, ForexError>(stale->0)
            &&& keyed && stale is None ==> lookup.result == Err::<EntryView, ForexError>(
                ForexError::EntryNotFound,
            )
            &&& !keyed ==> {
                &&& lookup.result is Err
                &&& lookup.result->Err_0 is ConfigurationError
                &&& lookup.result->Err_0->ConfigurationError_0@ == "api_keys not provided"@
            }
        }),
{
}

/// The error of a command to the shared store: that there is no connection, or the
/// failure of the command. A reply is handed on.
pub proof fn law_replies_of_the_shared_store<T>(value: T, failure: ForexError)
    ensures
        RedisReply::<T>::NoConnection.or_error(failure) == Err::<T, ForexError>(
            ForexError::RedisConnectionError,
        ),
        RedisReply::<T>::Failed.or_error(failure) == Err::<T, ForexError>(failure),
        RedisReply::Done(value).or_error(failure) == Ok::<T, ForexError>(value),
{
}

/// A task begins with the lock, and takes its providers, keys and times from the
/// settings. No event changes any of these.
pub proof fn law_refresh_keeps_its_settings(
    conf: ForexApi,
    task: RefreshView,
    event: RefreshEvent,
    now: int,
)
    ensures
        ({
            let fresh = RefreshView::fresh(conf);
            &&& fresh.primary == conf.provider
            &&& fresh.primary_key == conf.key(conf.provider)@
            &&& fresh.fallback == conf.fallback_provider
            &&& fresh.fallback_key == conf.key(conf.fallback_provider)@
            &&& fresh.lock_expiry_seconds == conf.redis_lock_timeout_in_seconds
            &&& fresh.store_expiry_seconds == conf.redis_ttl_in_seconds
            &&& fresh.phase is Locking
        }),
        ({
            let after = task.next(event, now);
            &&& after.primary == task.primary
            &&& after.primary_key == task.primary_key
            &&& after.fallback == task.fallback
            &&& after.fallback_key == task.fallback_key
            &&& after.lock_expiry_seconds == task.lock_expiry_seconds
            &&& after.store_expiry_seconds == task.store_expiry_seconds
        }),
{
}

/// What is done in each phase of a task.
pub proof fn law_step_of_each_phase(task: RefreshView)
    ensures
        task.phase is Locking ==> task.step() == (RefreshStepView::AcquireLock {
            expiry_seconds: task.lock_expiry_seconds,
        }),
        task.phase is AskingPrimary ==> task.step() == (RefreshStepView::Fetch {
            provider: task.primary,
            url: provider::rates_url(task.primary, task.primary_key),
        }),
        task.phase is AskingFallback ==> task.step() == (RefreshStepView::Fetch {
            provider: task.fallback,
            url: provider::rates_url(task.fallback, task.fallback_key),
        }),
        task.phase matches PhaseView::Storing(entry) ==> task.step() == (RefreshStepView::Store {
            entry,
            expiry_seconds: task.store_expiry_seconds,
        }),
        task.phase is Releasing || task.phase is GivingUp ==> task.step() is Release,
        task.phase matches PhaseView::Finished(result) ==> task.step()
            == RefreshStepView::Finished(result),
{
}

/// What the lock leads to. With it the first provider is asked. Without it the task
/// is over, and its error says whether the lock was not had or there is no connection.
pub proof fn law_refresh_after_the_lock(
    task: RefreshView,
    reply: RedisReply<SetnxReply>,
    now: int,
)
    requires
        task.phase is Locking,
    ensures
        ({
            let after = task.next(RefreshEvent::Locked(reply), now).phase;
            &&& after is AskingPrimary <==> reply == RedisReply::Done(SetnxReply::KeySet)
            &&& !(after is AskingPrimary) ==> {
                &&& after is Finished
                &&& after->Finished_0 is Err
                &&& after->Finished_0->Err_0.context is None
                &&& reply is NoConnection ==> after->Finished_0->Err_0.error
                    == ForexError::RedisConnectionError
                &&& !(reply is NoConnection) ==> after->Finished_0->Err_0.error
                    == ForexError::CouldNotAcquireLock
            }
        }),
{
}

/// What the answer of a provider leads to. Rates are stored, as had when they came. If
/// the first provider fails, the fallback is asked. If that fails too, the lock is
/// released with its error, and words that name both.
pub proof fn law_refresh_after_an_answer(
    task: RefreshView,
    answer: Result<ExchangeRates, ForexError>,
    now: int,
)
    requires
        task.phase is AskingPrimary || task.phase is AskingFallback,
    ensures
        ({
            let after = task.next(RefreshEvent::Fetched(answer), now).phase;
            &&& answer matches Ok(rates) ==> {
                &&& after is Storing
                &&& after->Storing_0.data == rates@
                &&& after->Storing_0.timestamp == now
            }
            &&& answer is Err && task.phase is AskingPrimary ==> after is AskingFallback
            &&& answer is Err && task.phase is AskingFallback ==> {
                &&& after is GivingUp
                &&& after->GivingUp_0.error == answer->Err_0
                &&& after->GivingUp_0.context == Some(
                    "fallback provider `"@ + task.fallback.label_text()
                        + "` also failed after primary `"@ + task.primary.label_text() + "`"@,
                )
            }
        }),
{
}

/// What storing rates leads to: once they are stored the lock is released, and if they
/// could not be stored the task is over with the error of the store.
pub proof fn law_refresh_after_storing(task: RefreshView, reply: RedisReply<()>, now: int)
    requires
        task.phase is Storing,
    ensures
        ({
            let after = task.next(RefreshEvent::Stored(reply), now).phase;
            &&& reply is Done ==> after == PhaseView::Releasing(task.phase->Storing_0)
            &&& !(reply is Done) ==> {
                &&& after is Finished
                &&& after->Finished_0 is Err
                &&& after->Finished_0->Err_0.context is None
                &&& reply is NoConnection ==> after->Finished_0->Err_0.error
                    == ForexError::RedisConnectionError
                &&& reply is Failed ==> after->Finished_0->Err_0.error
                    == ForexError::RedisWriteError
            }
        }),
{
}

/// What releasing the lock leads to: the task is over. It went well if the rates were
/// stored and the lock was released, and only then does the process keep the rates.
pub proof fn law_refresh_after_releasing(
    task: RefreshView,
    reply: RedisReply<()>,
    now: int,
    cache: Option<EntryView>,
)
    requires
        task.phase is Releasing || task.phase is GivingUp,
    ensures
        ({
            let event = RefreshEvent::Released(reply);
            let after = task.next(event, now).phase;
            let kept = task.cache_after(event, cache);
            &&& after is Finished
            &&& reply is Done && task.phase is Releasing ==> {
                &&& after->Finished_0 is Ok
                &&& kept == Some(task.phase->Releasing_0)
            }
            &&& !(reply is Done && task.phase is Releasing) ==> {
                &&& after->Finished_0 is Err
                &&& kept == cache
            }
            &&& reply is Done && task.phase is GivingUp ==> after->Finished_0->Err_0
                == task.phase->GivingUp_0
            &&& !(reply is Done) ==> {
                &&& after->Finished_0->Err_0.context is None
                &&& reply is NoConnection ==> after->Finished_0->Err_0.error
                    == ForexError::RedisConnectionError
                &&& reply is Failed ==> after->Finished_0->Err_0.error
                    == ForexError::RedisLockReleaseFailed
            }
        }),
{
}

/// An event that a task does not wait for changes neither the task nor the rates that
/// the process keeps; nor does any event but the release of the lock change the rates.
pub proof fn law_refresh_takes_only_its_replies(
    task: RefreshView,
    event: RefreshEvent,
    now: int,
    cache: Option<EntryView>,
)
    ensures
        !(event is Released) ==> task.cache_after(event, cache) == cache,
        ({
            let phase = task.phase;
            ({
                ||| event is Locked && !(phase is Locking)
                ||| event is Fetched && !(phase is AskingPrimary) && !(phase is AskingFallback)
                ||| event is Stored && !(phase is Storing)
                ||| event is Released && !(phase is Releasing) && !(phase is GivingUp)
            }) ==> task.next(event, now) == task && task.cache_after(event, cache) == cache
        }),
{
}

/// With rates, and with codes that stand for currencies, the answer to a request is
/// the converted amount and the code of the currency it is in, whenever the amount can
/// be converted.
pub proof fn law_conversion_is_answered(
    entry: EntryView,
    amount: int,
    to_currency: Seq<char>,
    from_currency: Seq<char>,
    to: Currency,
    from: Currency,
)
    requires
        to.alpha_code() == to_currency,
        from.alpha_code() == from_currency,
    ensures
        ({
            let answer = conversion_answer(Ok(entry), amount, to_currency, from_currency);
            let converted = entry.data.converted(from, to, amount);
            &&& answer is Ok <==> converted is Ok
            &&& answer is Ok ==> {
                &&& answer->Ok_0.converted_amount == converted->Ok_0.text()
                &&& answer->Ok_0.currency == to_currency
            }
            &&& answer is Err ==> answer->Err_0 == ForexError::ConversionError
        }),
{
    currency::law_code_stands_for_its_currency(to_currency, to);
    currency::law_code_stands_for_its_currency(from_currency, from);
}

/// Questions, steps and answers show all that they hold.
pub proof fn law_views_show_all_of_a_question(
    lookup: Lookup,
    entry: FxExchangeRatesCacheEntry,
    rates: Arc<ExchangeRates>,
    error: ForexError,
    response: CurrencyConversionResponse,
    failure: FetchError,
    name: ProviderName,
    url: String,
    seconds: i64,
)
    ensures
        rates_option(Some(rates)) == Some(rates@),
        rates_option(None) is None,
        entry_option(Some(entry)) == Some(entry@),
        entry_option(None) is None,
        entry_result(Ok(entry)) == Ok::<EntryView, ForexError>(entry@),
        entry_result(Err(error)) == Err::<EntryView, ForexError>(error),
        lookup@.result == entry_result(lookup.result),
        lookup@.refresh == lookup.refresh,
        LookupStep::AskRedis@ == LookupStepView::AskRedis,
        LookupStep::Done(lookup)@ == LookupStepView::Done(lookup@),
        (RefreshStep::AcquireLock { expiry_seconds: seconds })@ == (RefreshStepView::AcquireLock {
            expiry_seconds: seconds as int,
        }),
        (RefreshStep::Fetch { provider: name, url })@ == (RefreshStepView::Fetch {
            provider: name,
            url: url@,
        }),
        (RefreshStep::Store { entry, expiry_seconds: seconds })@ == (RefreshStepView::Store {
            entry: entry@,
            expiry_seconds: seconds as int,
        }),
        RefreshStep::Release@ == RefreshStepView::Release,
        RefreshStep::Finished(Ok(()))@ == RefreshStepView::Finished(Ok(())),
        RefreshStep::Finished(Err(failure))@ == RefreshStepView::Finished(Err(failure@)),
        response@.converted_amount == response.converted_amount@,
        response@.currency == response.currency@,
        response_result(Ok(response)) == Ok::<ConversionView, ForexError>(response@),
        response_result(Err(error)) == Err::<ConversionView, ForexError>(error),
{
}

} // verus!
