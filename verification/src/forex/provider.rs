//! The providers of exchange rates, and what happens when one of them fails.

use vstd::prelude::*;

use crate::conversion::{ExchangeRates, RatesView};
use crate::currency::Currency;
use crate::forex::error::ForexError;
use crate::forex::rates::{self, CurrencyLayerResponse, FixerResponse, OerResponse};
use crate::secret::Secret;
use crate::text;

verus! {

/// How long a request for rates may take, in seconds.
pub const FOREX_API_TIMEOUT: u64 = 5;

/// The address of Open Exchange Rates, up to the key.
pub const OER_BASE_URL: &'static str = "https://openexchangerates.org/api/latest.json?app_id=";

/// What follows the key in the address of Open Exchange Rates.
pub const OER_BASE_PARAM: &'static str = "&base=USD";

/// The address of Currency Layer, up to the key.
pub const CURRENCY_LAYER_BASE_URL: &'static str = "http://apilayer.net/api/live?access_key=";

/// The address of Fixer, up to the key.
pub const FIXER_BASE_URL: &'static str = "https://data.fixer.io/api/latest?access_key=";

/// A provider of exchange rates.
#[derive(Clone, Copy, Debug, PartialEq, Eq, Structural)]
pub enum ProviderName {
    OpenExchangeRates,
    Fixer,
    CurrencyLayer,
}

impl ProviderName {
    /// The label of the provider.
    pub open spec fn label_text(self) -> Seq<char> {
        match self {
            ProviderName::OpenExchangeRates => "open_exchange_rates"@,
            ProviderName::Fixer => "fixer"@,
            ProviderName::CurrencyLayer => "currency_layer"@,
        }
    }

    /// The label of the provider, for configuration, logs and metrics.
    pub fn label(self) -> (r: &'static str)
        ensures
            r@ == self.label_text(),
    {
        match self {
            ProviderName::OpenExchangeRates => "open_exchange_rates",
            ProviderName::Fixer => "fixer",
            ProviderName::CurrencyLayer => "currency_layer",
        }
    }

    /// The provider with a label, if there is one.
    pub fn from_label(label: &str) -> (r: Option<ProviderName>)
        ensures
            forall|name: ProviderName| r == Some(name) <==> #[trigger] name.label_text() == label@,
    {
        proof {
            lemma_labels_differ();
        }
        if text::same_text(label, "open_exchange_rates") {
            Some(ProviderName::OpenExchangeRates)
        } else if text::same_text(label, "fixer") {
            Some(ProviderName::Fixer)
        } else if text::same_text(label, "currency_layer") {
            Some(ProviderName::CurrencyLayer)
        } else {
            None
        }
    }
}

proof fn lemma_labels_differ()
    ensures
        "open_exchange_rates"@ != "fixer"@,
        "open_exchange_rates"@ != "currency_layer"@,
        "fixer"@ != "currency_layer"@,
{
    reveal_strlit("open_exchange_rates");
    reveal_strlit("fixer");
    reveal_strlit("currency_layer");
    assert("open_exchange_rates"@.len() == 19);
    assert("fixer"@.len() == 5);
    assert("currency_layer"@.len() == 14);
}

/// The settings of exchange rates.
pub struct ForexApi {
    /// The provider that is asked first.
    pub provider: ProviderName,
    /// The provider that is asked if the first one fails.
    pub fallback_provider: ProviderName,
    /// The key for Open Exchange Rates.
    pub api_key: Secret,
    /// The key for Currency Layer.
    pub fallback_api_key: Secret,
    /// The key for Fixer.
    pub fixer_api_key: Secret,
    /// How old rates may get, in seconds.
    pub data_expiration_delay_in_seconds: u32,
    /// How long the lock on a refresh is held at most, in seconds.
    pub redis_lock_timeout_in_seconds: u32,
    /// How long rates are stored, in seconds.
    pub redis_ttl_in_seconds: u32,
}

impl Default for ForexApi {
    /// Open Exchange Rates, with Currency Layer as its fallback, and no keys.
    fn default() -> (r: ForexApi)
        ensures
            r.provider == ProviderName::OpenExchangeRates,
            r.fallback_provider == ProviderName::CurrencyLayer,
            r.api_key@ == Seq::<char>::empty(),
            r.fallback_api_key@ == Seq::<char>::empty(),
            r.fixer_api_key@ == Seq::<char>::empty(),
            r.data_expiration_delay_in_seconds == 0,
            r.redis_lock_timeout_in_seconds == 0,
            r.redis_ttl_in_seconds == 0,
    {
        ForexApi {
            provider: ProviderName::OpenExchangeRates,
            fallback_provider: ProviderName::CurrencyLayer,
            api_key: Secret::new(String::new()),
            fallback_api_key: Secret::new(String::new()),
            fixer_api_key: Secret::new(String::new()),
            data_expiration_delay_in_seconds: 0,
            redis_lock_timeout_in_seconds: 0,
            redis_ttl_in_seconds: 0,
        }
    }
}

impl ForexApi {
    /// The key for a provider.
    pub open spec fn key(self, name: ProviderName) -> Secret {
        match name {
            ProviderName::OpenExchangeRates => self.api_key,
            ProviderName::Fixer => self.fixer_api_key,
            ProviderName::CurrencyLayer => self.fallback_api_key,
        }
    }

    /// The key for a provider.
    pub fn key_for(&self, name: ProviderName) -> (r: &Secret)
        ensures
            *r == self.key(name),
    {
        match name {
            ProviderName::OpenExchangeRates => &self.api_key,
            ProviderName::Fixer => &self.fixer_api_key,
            ProviderName::CurrencyLayer => &self.fallback_api_key,
        }
    }

    /// Whether a provider has a key: the first one, or its fallback.
    pub open spec fn has_key(self) -> bool {
        self.key(self.provider)@.len() > 0 || self.key(self.fallback_provider)@.len() > 0
    }
}

/// A provider together with its key.
pub struct ForexProvider {
    name: ProviderName,
    api_key: Secret,
}

/// The address that rates are fetched from.
pub open spec fn rates_url(name: ProviderName, api_key: Seq<char>) -> Seq<char> {
    match name {
        ProviderName::OpenExchangeRates => OER_BASE_URL@ + api_key + OER_BASE_PARAM@,
        ProviderName::Fixer => FIXER_BASE_URL@ + api_key,
        ProviderName::CurrencyLayer => CURRENCY_LAYER_BASE_URL@ + api_key,
    }
}

impl ForexProvider {
    pub closed spec fn spec_name(self) -> ProviderName {
        self.name
    }

    pub closed spec fn spec_key(self) -> Seq<char> {
        self.api_key@
    }

    /// The provider `name`, with its key from the settings.
    pub fn from_config(name: ProviderName, conf: &ForexApi) -> (r: ForexProvider)
        ensures
            r.spec_name() == name,
            r.spec_key() == conf.key(name)@,
    {
        ForexProvider { name, api_key: conf.key_for(name).clone() }
    }

    /// Which provider it is.
    pub fn provider(&self) -> (r: ProviderName)
        ensures
            r == self.spec_name(),
    {
        self.name
    }

    /// The label of the provider, without its key.
    pub fn name(&self) -> (r: &'static str)
        ensures
            r@ == self.spec_name().label_text(),
    {
        self.name.label()
    }

    /// The address that rates are fetched from. It holds the key, and is not to
    /// be logged.
    pub fn url(&self) -> (r: String)
        ensures
            r@ == rates_url(self.spec_name(), self.spec_key()),
    {
        let key = self.api_key.peek();
        match self.name {
            ProviderName::OpenExchangeRates => {
                let mut url = text::joined(OER_BASE_URL, key);
                url.append(OER_BASE_PARAM);
                url
            },
            ProviderName::Fixer => text::joined(FIXER_BASE_URL, key),
            ProviderName::CurrencyLayer => text::joined(CURRENCY_LAYER_BASE_URL, key),
        }
    }
}

/// What became of a request for rates.
pub enum HttpReply<R> {
    /// No answer came.
    Unresponsive,
    /// An answer came that could not be parsed.
    Unparsable,
    /// The answer.
    Parsed(R),
}

/// The answer to a request for rates, or why there is none.
pub fn forex_get_json<R>(reply: HttpReply<R>) -> (r: Result<R, ForexError>)
    ensures
        r == match reply {
            HttpReply::Unresponsive => Err::<R, ForexError>(ForexError::ApiUnresponsive),
            HttpReply::Unparsable => Err::<R, ForexError>(ForexError::ParsingError),
            HttpReply::Parsed(answer) => Ok::<R, ForexError>(answer),
        },
{
    match reply {
        HttpReply::Unresponsive => Err(ForexError::ApiUnresponsive),
        HttpReply::Unparsable => Err(ForexError::ParsingError),
        HttpReply::Parsed(answer) => Ok(answer),
    }
}

/// What became of a request for rates, by provider.
pub enum FeedReply {
    OpenExchangeRates(HttpReply<OerResponse>),
    Fixer(HttpReply<FixerResponse>),
    CurrencyLayer(HttpReply<CurrencyLayerResponse>),
}

impl FeedReply {
    /// The table that came of a request, or why there is none.
    pub open spec fn table(self) -> Result<RatesView, ForexError> {
        match self {
            FeedReply::OpenExchangeRates(HttpReply::Parsed(answer)) => Ok(
                RatesView {
                    base_currency: Currency::USD,
                    conversion: rates::built_table(
                        Currency::USD,
                        rates::quotes_by_code(answer.rates@),
                    ),
                },
            ),
            FeedReply::Fixer(HttpReply::Parsed(answer)) => answer.table(),
            FeedReply::CurrencyLayer(HttpReply::Parsed(answer)) => Ok(
                RatesView {
                    base_currency: Currency::USD,
                    conversion: rates::built_table(
                        Currency::USD,
                        rates::quotes_by_prefixed_code(
                            answer.quotes@,
                            rates::CURRENCY_LAYER_QUOTE_PREFIX@,
                        ),
                    ),
                },
            ),
            FeedReply::OpenExchangeRates(HttpReply::Unparsable)
            | FeedReply::Fixer(HttpReply::Unparsable)
            | FeedReply::CurrencyLayer(HttpReply::Unparsable) => Err(ForexError::ParsingError),
            FeedReply::OpenExchangeRates(HttpReply::Unresponsive)
            | FeedReply::Fixer(HttpReply::Unresponsive)
            | FeedReply::CurrencyLayer(HttpReply::Unresponsive) => Err(ForexError::ApiUnresponsive),
        }
    }
}

/// The table that came of a request for rates, or why there is none.
pub fn fetch_rates(reply: FeedReply) -> (r: Result<ExchangeRates, ForexError>)
    ensures
        rates::rates_result(r) == reply.table(),
        r matches Ok(table) ==> rates::has_inverses(table.conversion@),
{
    match reply {
        FeedReply::OpenExchangeRates(reply) => match forex_get_json(reply) {
            Ok(answer) => Ok(answer.into_exchange_rates()),
            Err(error) => Err(error),
        },
        FeedReply::Fixer(reply) => match forex_get_json(reply) {
            Ok(answer) => answer.into_exchange_rates(),
            Err(error) => Err(error),
        },
        FeedReply::CurrencyLayer(reply) => match forex_get_json(reply) {
            Ok(answer) => Ok(answer.into_exchange_rates()),
            Err(error) => Err(error),
        },
    }
}

/// Why no rates could be fetched.
#[derive(Debug)]
pub struct FetchError {
    pub error: ForexError,
    /// Which providers failed, if it was both.
    pub context: Option<String>,
}

/// Why no rates could be fetched, with its texts as characters.
pub struct FetchErrorView {
    pub error: ForexError,
    pub context: Option<Seq<char>>,
}

impl View for FetchError {
    type V = FetchErrorView;

    open spec fn view(&self) -> FetchErrorView {
        FetchErrorView {
            error: self.error,
            context: match self.context {
                Some(context) => Some(context@),
                None => None,
            },
        }
    }
}

impl Clone for FetchError {
    fn clone(&self) -> (r: FetchError)
        ensures
            r == *self,
    {
        FetchError {
            error: self.error.clone(),
            context: match &self.context {
                Some(context) => Some(context.clone()),
                None => None,
            },
        }
    }
}

/// The words for two providers that both failed.
pub open spec fn both_failed_text(primary: Seq<char>, fallback: Seq<char>) -> Seq<char> {
    "fallback provider `"@ + fallback + "` also failed after primary `"@ + primary + "`"@
}

/// What happened last while rates are fetched.
pub enum FetchEvent {
    /// The first provider was asked.
    Primary(Result<ExchangeRates, ForexError>),
    /// The fallback was asked.
    Fallback(Result<ExchangeRates, ForexError>),
}

/// What is to be done next while rates are fetched.
pub enum FetchStep {
    /// Ask the fallback.
    AskFallback,
    /// These are the rates.
    Fetched(ExchangeRates),
    /// Both providers failed.
    Failed(FetchError),
}

/// What is to be done next, as numbers and characters.
pub enum FetchStepView {
    AskFallback,
    Fetched(RatesView),
    Failed(FetchErrorView),
}

impl View for FetchStep {
    type V = FetchStepView;

    open spec fn view(&self) -> FetchStepView {
        match self {
            FetchStep::AskFallback => FetchStepView::AskFallback,
            FetchStep::Fetched(rates) => FetchStepView::Fetched(rates@),
            FetchStep::Failed(error) => FetchStepView::Failed(error@),
        }
    }
}

/// What is to be done after `event`, with providers of these labels.
pub open spec fn fetch_step(
    primary: Seq<char>,
    fallback: Seq<char>,
    event: FetchEvent,
) -> FetchStepView {
    match event {
        FetchEvent::Primary(Ok(rates)) | FetchEvent::Fallback(Ok(rates)) => FetchStepView::Fetched(
            rates@,
        ),
        FetchEvent::Primary(Err(_)) => FetchStepView::AskFallback,
        FetchEvent::Fallback(Err(error)) => FetchStepView::Failed(
            FetchErrorView { error, context: Some(both_failed_text(primary, fallback)) },
        ),
    }
}

/// Takes the answer of a provider, and says what is to be done next: any error of
/// the first provider leads to the fallback. If that fails too, its error is
/// returned, with words that name both providers.
pub fn fetch_with_fallback(primary: &str, fallback: &str, event: FetchEvent) -> (r: FetchStep)
    ensures
        r@ == fetch_step(primary@, fallback@, event),
{
    match event {
        FetchEvent::Primary(Ok(rates)) => FetchStep::Fetched(rates),
        FetchEvent::Primary(Err(_)) => FetchStep::AskFallback,
        FetchEvent::Fallback(Ok(rates)) => FetchStep::Fetched(rates),
        FetchEvent::Fallback(Err(error)) => {
            let mut context = text::joined("fallback provider `", fallback);
            context.append("` also failed after primary `");
            context.append(primary);
            context.append("`");
            FetchStep::Failed(FetchError { error, context: Some(context) })
        },
    }
}

/// The labels of providers tell them apart.
pub proof fn law_labels_are_distinct(a: ProviderName, b: ProviderName)
    requires
        a.label_text() == b.label_text(),
    ensures
        a == b,
{
    lemma_labels_differ();
}

/// What fetching rates from two providers comes to, with the answers that they
/// would give.
pub open spec fn fetched(
    primary: Seq<char>,
    fallback: Seq<char>,
    primary_answer: Result<ExchangeRates, ForexError>,
    fallback_answer: Result<ExchangeRates, ForexError>,
) -> FetchStepView {
    match fetch_step(primary, fallback, FetchEvent::Primary(primary_answer)) {
        FetchStepView::AskFallback => fetch_step(
            primary,
            fallback,
            FetchEvent::Fallback(fallback_answer),
        ),
        step => step,
    }
}

/// The rates of the first provider are taken if it has any, and those of the
/// fallback otherwise. Only if both fail are there none, and then the error is
/// the fallback's.
pub proof fn law_fallback_only_after_failure(
    primary: Seq<char>,
    fallback: Seq<char>,
    primary_answer: Result<ExchangeRates, ForexError>,
    fallback_answer: Result<ExchangeRates, ForexError>,
)
    ensures
        fetched(primary, fallback, primary_answer, fallback_answer) == match (
            primary_answer,
            fallback_answer,
        ) {
            (Ok(rates), _) => FetchStepView::Fetched(rates@),
            (Err(_), Ok(rates)) => FetchStepView::Fetched(rates@),
            (Err(_), Err(error)) => FetchStepView::Failed(
                FetchErrorView { error, context: Some(both_failed_text(primary, fallback)) },
            ),
        },
{
}

/// Each provider has a label, a key and an address of its own. Only Open Exchange
/// Rates is told the base.
pub proof fn law_providers_have_their_own(conf: ForexApi, key: Seq<char>)
    ensures
        ProviderName::OpenExchangeRates.label_text() == "open_exchange_rates"@,
        ProviderName::Fixer.label_text() == "fixer"@,
        ProviderName::CurrencyLayer.label_text() == "currency_layer"@,
        conf.key(ProviderName::OpenExchangeRates) == conf.api_key,
        conf.key(ProviderName::Fixer) == conf.fixer_api_key,
        conf.key(ProviderName::CurrencyLayer) == conf.fallback_api_key,
        rates_url(ProviderName::OpenExchangeRates, key)
            == "https://openexchangerates.org/api/latest.json?app_id="@ + key + "&base=USD"@,
        rates_url(ProviderName::Fixer, key) == "https://data.fixer.io/api/latest?access_key="@
            + key,
        rates_url(ProviderName::CurrencyLayer, key) == "http://apilayer.net/api/live?access_key="@
            + key,
{
}

/// Rates can be fetched if the first provider or its fallback has a key.
pub proof fn law_either_key_is_enough(conf: ForexApi)
    ensures
        conf.has_key() <==> !(conf.key(conf.provider)@ == Seq::<char>::empty() && conf.key(
            conf.fallback_provider,
        )@ == Seq::<char>::empty()),
{
    assert(conf.key(conf.provider)@.len() == 0 ==> conf.key(conf.provider)@ =~= Seq::empty());
    assert(conf.key(conf.fallback_provider)@.len() == 0 ==> conf.key(conf.fallback_provider)@
        =~= Seq::empty());
}

/// What fetching goes on with after each answer.
pub proof fn law_fetching_after_each_answer(
    primary: Seq<char>,
    fallback: Seq<char>,
    table: ExchangeRates,
    error: ForexError,
)
    ensures
        fetch_step(primary, fallback, FetchEvent::Primary(Ok(table))) == FetchStepView::Fetched(
            table@,
        ),
        fetch_step(primary, fallback, FetchEvent::Primary(Err(error)))
            == FetchStepView::AskFallback,
        fetch_step(primary, fallback, FetchEvent::Fallback(Ok(table))) == FetchStepView::Fetched(
            table@,
        ),
        ({
            let step = fetch_step(primary, fallback, FetchEvent::Fallback(Err(error)));
            &&& step is Failed
            &&& step->Failed_0.error == error
            &&& step->Failed_0.context == Some(
                "fallback provider `"@ + fallback + "` also failed after primary `"@ + primary
                    + "`"@,
            )
        }),
        both_failed_text(primary, fallback) == "fallback provider `"@ + fallback
            + "` also failed after primary `"@ + primary + "`"@,
{
}

/// What an answer of each provider comes to. Open Exchange Rates and Currency Layer
/// quote in US dollars, Currency Layer with the code of the dollar before each key.
/// Fixer names its base. A request without an answer, or with one that could not be
/// parsed, has the same error for all.
pub proof fn law_table_of_each_provider(
    oer: OerResponse,
    layer: CurrencyLayerResponse,
    fixer: FixerResponse,
)
    ensures
        ({
            let table = FeedReply::OpenExchangeRates(HttpReply::Parsed(oer)).table();
            &&& table is Ok
            &&& table->Ok_0.base_currency == Currency::USD
            &&& table->Ok_0.conversion == rates::built_table(
                Currency::USD,
                rates::quotes_by_code(oer.rates@),
            )
        }),
        ({
            let table = FeedReply::CurrencyLayer(HttpReply::Parsed(layer)).table();
            &&& table is Ok
            &&& table->Ok_0.base_currency == Currency::USD
            &&& table->Ok_0.conversion == rates::built_table(
                Currency::USD,
                rates::quotes_by_prefixed_code(layer.quotes@, "USD"@),
            )
        }),
        FeedReply::Fixer(HttpReply::Parsed(fixer)).table() == fixer.table(),
        FeedReply::OpenExchangeRates(HttpReply::Unresponsive).table() == Err::<
            RatesView,
            ForexError,
        >(ForexError::ApiUnresponsive),
        FeedReply::CurrencyLayer(HttpReply::Unresponsive).table() == Err::<RatesView, ForexError>(
            ForexError::ApiUnresponsive,
        ),
        FeedReply::Fixer(HttpReply::Unresponsive).table() == Err::<RatesView, ForexError>(
            ForexError::ApiUnresponsive,
        ),
        FeedReply::OpenExchangeRates(HttpReply::Unparsable).table() == Err::<
            RatesView,
            ForexError,
        >(ForexError::ParsingError),
        FeedReply::CurrencyLayer(HttpReply::Unparsable).table() == Err::<RatesView, ForexError>(
            ForexError::ParsingError,
        ),
        FeedReply::Fixer(HttpReply::Unparsable).table() == Err::<RatesView, ForexError>(
            ForexError::ParsingError,
        ),
{
}

/// Errors and steps show all that they hold.
pub proof fn law_views_show_all_of_a_fetch(
    failure: FetchError,
    table: ExchangeRates,
)
    ensures
        failure@.error == failure.error,
        failure@.context is Some <==> failure.context is Some,
        failure.context matches Some(context) ==> failure@.context == Some(context@),
        FetchStep::AskFallback@ == FetchStepView::AskFallback,
        FetchStep::Fetched(table)@ == FetchStepView::Fetched(table@),
        FetchStep::Failed(failure)@ == FetchStepView::Failed(failure@),
{
}

} // verus!
