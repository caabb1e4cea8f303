//! The limits check in the payment flow.
//!
//! - [`evaluate_and_record`] starts the check of a charge, and [`LimitsCheck`]
//!   carries it through: it says when to call the provider, and ends with the
//!   charge allowed, or with the records of a blocked charge and the error for
//!   the caller. The charges of a process share one [`decision_service`].
//! - [`record_block`] makes those records: the attempt failed, and so did the
//!   payment.
//! - [`settle_on_terminal`] makes the settle request when an attempt reaches a
//!   terminal status.

use vstd::hash_map::StringHashMap;
use vstd::prelude::*;

use crate::clock::{self, Instant};
use crate::currency::Currency;
use crate::limits::circuit_breaker::BreakerView;
use crate::limits::config::LimitsProfileConfig;
use crate::limits::decision::{
    self, decline_reason_label, unavailable_details, DecisionEvent, DecisionStep,
    LimitsDecisionService, LimitsEvaluateContext, LimitsMetadata, LimitsOutcome, OutcomeView,
    Replies, StepView,
};
use crate::limits::metrics::{self, decision_metrics, LimitsMetric};
use crate::limits::types::{
    clone_text, LimitDeclineReason, LimitSettleOutcome, LimitsEvaluateRequest,
    LimitsEvaluateResponse, LimitsProviderError, LimitsSettleRequest,
};
use crate::secret::Secret;
use crate::text;

verus! {

/// How long the circuit breaker stays open, in seconds.
pub const BREAKER_COOLDOWN_SECS: u64 = 30;

/// The status of a payment attempt.
#[derive(Clone, Copy, Debug, PartialEq, Eq, Structural)]
pub enum AttemptStatus {
    Started,
    AuthenticationFailed,
    RouterDeclined,
    AuthenticationPending,
    AuthenticationSuccessful,
    Authorized,
    AuthorizationFailed,
    Charged,
    Authorizing,
    CodInitiated,
    Voided,
    VoidedPostCharge,
    VoidInitiated,
    CaptureInitiated,
    CaptureFailed,
    VoidFailed,
    AutoRefunded,
    PartialCharged,
    PartiallyAuthorized,
    PartialChargedAndChargeable,
    Unresolved,
    Pending,
    Failure,
    PaymentMethodAwaited,
    ConfirmationAwaited,
    DeviceDataCollectionPending,
    IntegrityFailure,
    Expired,
}

impl AttemptStatus {
    /// Whether the attempt is over.
    pub open spec fn is_terminal(self) -> bool {
        match self {
            AttemptStatus::RouterDeclined | AttemptStatus::Charged | AttemptStatus::AutoRefunded
            | AttemptStatus::Voided | AttemptStatus::VoidedPostCharge | AttemptStatus::VoidFailed
            | AttemptStatus::CaptureFailed | AttemptStatus::Failure | AttemptStatus::PartialCharged
            | AttemptStatus::Expired => true,
            _ => false,
        }
    }

    /// Whether the attempt is over.
    pub fn is_terminal_status(self) -> (r: bool)
        ensures
            r == self.is_terminal(),
    {
        match self {
            AttemptStatus::RouterDeclined | AttemptStatus::Charged | AttemptStatus::AutoRefunded
            | AttemptStatus::Voided | AttemptStatus::VoidedPostCharge | AttemptStatus::VoidFailed
            | AttemptStatus::CaptureFailed | AttemptStatus::Failure | AttemptStatus::PartialCharged
            | AttemptStatus::Expired => true,
            _ => false,
        }
    }
}

/// The status of a payment that a blocked charge leads to.
#[derive(Clone, Copy, Debug, PartialEq, Eq, Structural)]
pub enum IntentStatus {
    Failed,
}

/// The settings of limits.
pub struct LimitsSettings {
    /// Whether limits are checked at all.
    pub enabled: bool,
    pub provider_base_url: String,
    pub hmac_secret: Secret,
    pub trigger_agentic_only: bool,
    pub fail_closed: bool,
    pub timeout_ms: u64,
    pub circuit_breaker_threshold: u32,
}

/// What the check reads of a payment and its attempt.
pub struct PaymentData {
    pub payment_id: String,
    pub attempt_id: String,
    pub payment_method_id: Option<String>,
    pub mandate_id: Option<String>,
    /// The total amount of the attempt, in minor units.
    pub total_amount_minor: i64,
    pub currency: Currency,
    /// The metadata that the merchant gave with the payment.
    pub metadata: Option<serde_json::Value>,
    /// The feature metadata of the payment, which an update carries over.
    pub feature_metadata: Option<String>,
}

/// What the check reads of the processor.
pub struct Processor {
    /// The merchant whose credentials execute the charge.
    pub processor_merchant_id: String,
    /// The storage scheme of the processor's account.
    pub storage_scheme: String,
}

/// A JSON value.
#[verifier::external_type_specification]
#[verifier::external_body]
pub struct ExJsonValue(serde_json::Value);

/// The members of a JSON object that are booleans. Any other JSON value has
/// none.
pub uninterp spec fn json_flags(value: serde_json::Value) -> Map<Seq<char>, bool>;

/// `serde_json::Value::get` and `serde_json::Value::as_bool`: the boolean that
/// an object has under a key, if there is one.
#[verifier::external_body]
fn json_flag(value: &serde_json::Value, key: &str) -> (r: Option<bool>)
    ensures
        r == if json_flags(*value).contains_key(key@) {
            Some(json_flags(*value)[key@])
        } else {
            None
        },
{
    value.get(key).and_then(serde_json::Value::as_bool)
}

/// Whether the metadata of a payment says that it was made by an agent.
pub open spec fn marked_agentic(metadata: Option<serde_json::Value>) -> bool {
    metadata matches Some(value) && json_flags(value).contains_key("agentic"@)
        && json_flags(value)["agentic"@]
}

/// Whether the flag of the metadata, if there is one, says that an agent made
/// the payment.
pub fn agentic_from_flag(flag: Option<bool>) -> (r: bool)
    ensures
        r == (flag == Some(true)),
{
    match flag {
        Some(agentic) => agentic,
        None => false,
    }
}

/// Whether a payment was made by an agent: its metadata has `agentic` as true.
pub fn is_agentic(payment_data: &PaymentData) -> (r: bool)
    ensures
        r == marked_agentic(payment_data.metadata),
{
    match &payment_data.metadata {
        Some(metadata) => agentic_from_flag(json_flag(metadata, "agentic")),
        None => false,
    }
}

/// The configuration of a profile, from the settings.
pub fn profile_config(settings: &LimitsSettings) -> (r: LimitsProfileConfig)
    ensures
        r == settings.config(),
{
    LimitsProfileConfig {
        provider_base_url: settings.provider_base_url.clone(),
        hmac_secret: settings.hmac_secret.clone(),
        trigger_agentic_only: settings.trigger_agentic_only,
        fail_closed: settings.fail_closed,
        timeout_ms: settings.timeout_ms,
        circuit_breaker_threshold: settings.circuit_breaker_threshold,
    }
}

impl LimitsSettings {
    /// The settings without the switch that enables limits.
    pub open spec fn config(self) -> LimitsProfileConfig {
        LimitsProfileConfig {
            provider_base_url: self.provider_base_url,
            hmac_secret: self.hmac_secret,
            trigger_agentic_only: self.trigger_agentic_only,
            fail_closed: self.fail_closed,
            timeout_ms: self.timeout_ms,
            circuit_breaker_threshold: self.circuit_breaker_threshold,
        }
    }
}

impl PaymentData {
    /// The `evaluate` request for the payment, made for a payment method.
    pub open spec fn request(
        self,
        payment_method_id: String,
        processor: Processor,
        agentic: bool,
    ) -> LimitsEvaluateRequest {
        LimitsEvaluateRequest {
            tx_id: self.payment_id,
            attempt_id: self.attempt_id,
            payment_method_id,
            processor_merchant_id: processor.processor_merchant_id,
            amount_minor: self.total_amount_minor,
            currency: self.currency,
            agentic,
            intent_mandate_id: self.mandate_id,
        }
    }
}

/// The `evaluate` request for a payment. There is none without a payment method,
/// which the provider keys reservations on.
pub fn build_request(payment_data: &PaymentData, processor: &Processor, agentic: bool) -> (r: Option<
    LimitsEvaluateRequest,
>)
    ensures
        r == match payment_data.payment_method_id {
            Some(payment_method_id) => Some(
                payment_data.request(payment_method_id, *processor, agentic),
            ),
            None => None,
        },
        r is Some <==> payment_data.payment_method_id is Some,
        r matches Some(request) ==> {
            &&& request.tx_id@ == payment_data.payment_id@
            &&& request.attempt_id@ == payment_data.attempt_id@
            &&& request.payment_method_id@ == payment_data.payment_method_id->0@
            &&& request.processor_merchant_id@ == processor.processor_merchant_id@
            &&& request.amount_minor == payment_data.total_amount_minor
            &&& request.currency == payment_data.currency
            &&& request.agentic == agentic
            &&& request.intent_mandate_id == payment_data.mandate_id
        },
{
    match &payment_data.payment_method_id {
        Some(payment_method_id) => Some(
            LimitsEvaluateRequest {
                tx_id: payment_data.payment_id.clone(),
                attempt_id: payment_data.attempt_id.clone(),
                payment_method_id: payment_method_id.clone(),
                processor_merchant_id: processor.processor_merchant_id.clone(),
                amount_minor: payment_data.total_amount_minor,
                currency: payment_data.currency,
                agentic,
                intent_mandate_id: clone_text(&payment_data.mandate_id),
            },
        ),
        None => None,
    }
}

/// The error that the caller of a blocked charge gets.
#[derive(Debug)]
pub enum ApiErrorResponse {
    AgenticLimitExceeded {
        scope: String,
        period: String,
        currency: String,
        used_minor: i64,
        max_minor: i64,
        attempted_minor: i64,
        reason: String,
    },
}

/// The error of a blocked charge, with its texts as characters.
pub struct ApiErrorView {
    pub scope: Seq<char>,
    pub period: Seq<char>,
    pub currency: Seq<char>,
    pub used_minor: int,
    pub max_minor: int,
    pub attempted_minor: int,
    pub reason: Seq<char>,
}

impl View for ApiErrorResponse {
    type V = ApiErrorView;

    open spec fn view(&self) -> ApiErrorView {
        match self {
            ApiErrorResponse::AgenticLimitExceeded {
                scope,
                period,
                currency,
                used_minor,
                max_minor,
                attempted_minor,
                reason,
            } => ApiErrorView {
                scope: scope@,
                period: period@,
                currency: currency@,
                used_minor: *used_minor as int,
                max_minor: *max_minor as int,
                attempted_minor: *attempted_minor as int,
                reason: reason@,
            },
        }
    }
}

/// A blocked charge.
#[derive(Debug)]
pub struct LimitBreach {
    pub reason: LimitDeclineReason,
    /// The reason in words.
    pub details: String,
    /// The scope of the limit, as the provider reported it.
    pub scope: String,
    /// The period of the limit, as the provider reported it.
    pub period: String,
    /// The currency of the reported amounts.
    pub currency: String,
    /// What is used of the limit, in minor units.
    pub used_minor: i64,
    /// The limit, in minor units.
    pub max_minor: i64,
    /// The amount of the charge, in minor units of its own currency, whichever
    /// currency the provider reported its amounts in.
    pub attempted_minor: i64,
}

impl Clone for LimitBreach {
    fn clone(&self) -> (r: LimitBreach)
        ensures
            r == *self,
    {
        LimitBreach {
            reason: self.reason,
            details: self.details.clone(),
            scope: self.scope.clone(),
            period: self.period.clone(),
            currency: self.currency.clone(),
            used_minor: self.used_minor,
            max_minor: self.max_minor,
            attempted_minor: self.attempted_minor,
        }
    }
}

/// A blocked charge, with its texts as characters.
pub struct BreachView {
    pub reason: LimitDeclineReason,
    pub details: Seq<char>,
    pub scope: Seq<char>,
    pub period: Seq<char>,
    pub currency: Seq<char>,
    pub used_minor: int,
    pub max_minor: int,
    pub attempted_minor: int,
}

impl View for LimitBreach {
    type V = BreachView;

    open spec fn view(&self) -> BreachView {
        BreachView {
            reason: self.reason,
            details: self.details@,
            scope: self.scope@,
            period: self.period@,
            currency: self.currency@,
            used_minor: self.used_minor as int,
            max_minor: self.max_minor as int,
            attempted_minor: self.attempted_minor as int,
        }
    }
}

/// A text that the provider reported, or that it is not known.
pub open spec fn reported_text(reported: Option<String>) -> Seq<char> {
    match reported {
        Some(reported) => reported@,
        None => "unknown"@,
    }
}

/// An amount that the provider reported, or zero.
pub open spec fn reported_minor(reported: Option<i64>) -> int {
    match reported {
        Some(reported) => reported as int,
        None => 0,
    }
}

impl BreachView {
    /// The breach of a request that the provider blocked: the limit is as the
    /// provider reported it, so far as it did.
    pub open spec fn of_response(
        request: LimitsEvaluateRequest,
        response: LimitsEvaluateResponse,
        reason: LimitDeclineReason,
        details: Seq<char>,
    ) -> BreachView {
        BreachView {
            reason,
            details,
            scope: reported_text(response.scope),
            period: reported_text(response.period),
            currency: match response.currency {
                Some(currency) => currency.alpha_code(),
                None => request.currency.alpha_code(),
            },
            used_minor: reported_minor(response.used_minor),
            max_minor: reported_minor(response.max_minor),
            attempted_minor: request.amount_minor as int,
        }
    }

    /// The breach of a request that the provider did or did not reply to.
    pub open spec fn of_charge(
        request: LimitsEvaluateRequest,
        response: Option<LimitsEvaluateResponse>,
        reason: LimitDeclineReason,
        details: Seq<char>,
    ) -> BreachView {
        match response {
            Some(response) => BreachView::of_response(request, response, reason, details),
            None => BreachView::of_request(request, reason, details),
        }
    }

    /// The breach of a request whose limit is not known.
    pub open spec fn of_request(
        request: LimitsEvaluateRequest,
        reason: LimitDeclineReason,
        details: Seq<char>,
    ) -> BreachView {
        BreachView {
            reason,
            details,
            scope: "unknown"@,
            period: "unknown"@,
            currency: request.currency.alpha_code(),
            used_minor: 0,
            max_minor: 0,
            attempted_minor: request.amount_minor as int,
        }
    }

    /// The error that the caller of the charge gets.
    pub open spec fn api_error(self) -> ApiErrorView {
        ApiErrorView {
            scope: self.scope,
            period: self.period,
            currency: self.currency,
            used_minor: self.used_minor,
            max_minor: self.max_minor,
            attempted_minor: self.attempted_minor,
            reason: decision::decline_reason_text(self.reason),
        }
    }

    /// The records of the charge.
    pub open spec fn record(
        self,
        updated_by: Seq<char>,
        feature_metadata: Option<String>,
    ) -> RecordView {
        RecordView {
            attempt: AttemptUpdateView {
                status: AttemptStatus::Failure,
                error_code: "AGENTIC_LIMIT_EXCEEDED"@,
                error_message: "Agentic spending limit exceeded: "@ + self.details,
                error_reason: self.details,
                amount_capturable: 0,
                updated_by,
            },
            intent_status: IntentStatus::Failed,
            intent_updated_by: updated_by,
            feature_metadata,
        }
    }
}

impl LimitBreach {
    /// The error that the caller of the charge gets.
    pub fn to_api_error(&self) -> (r: ApiErrorResponse)
        ensures
            r@ == self@.api_error(),
    {
        ApiErrorResponse::AgenticLimitExceeded {
            scope: self.scope.clone(),
            period: self.period.clone(),
            currency: self.currency.clone(),
            used_minor: self.used_minor,
            max_minor: self.max_minor,
            attempted_minor: self.attempted_minor,
            reason: decline_reason_label(self.reason).to_owned(),
        }
    }
}

/// A text that the provider reported, or that it is not known.
fn text_or_unknown(reported: &Option<String>) -> (r: String)
    ensures
        r@ == reported_text(*reported),
{
    match reported {
        Some(reported) => reported.clone(),
        None => "unknown".to_owned(),
    }
}

/// An amount that the provider reported, or zero.
fn minor_or_zero(reported: Option<i64>) -> (r: i64)
    ensures
        r == reported_minor(reported),
{
    match reported {
        Some(reported) => reported,
        None => 0,
    }
}

/// The breach of a charge that was blocked. `response` is what the provider
/// replied, if it did: the limit is as it is reported there.
pub fn block_breach(
    request: &LimitsEvaluateRequest,
    response: Option<&LimitsEvaluateResponse>,
    reason: LimitDeclineReason,
    details: String,
) -> (r: LimitBreach)
    ensures
        r@ == match response {
            Some(response) => BreachView::of_response(*request, *response, reason, details@),
            None => BreachView::of_request(*request, reason, details@),
        },
{
    match response {
        Some(response) => LimitBreach {
            reason,
            details,
            scope: text_or_unknown(&response.scope),
            period: text_or_unknown(&response.period),
            currency: match response.currency {
                Some(currency) => currency.to_string(),
                None => request.currency.to_string(),
            },
            used_minor: minor_or_zero(response.used_minor),
            max_minor: minor_or_zero(response.max_minor),
            attempted_minor: request.amount_minor,
        },
        None => LimitBreach {
            reason,
            details,
            scope: "unknown".to_owned(),
            period: "unknown".to_owned(),
            currency: request.currency.to_string(),
            used_minor: 0,
            max_minor: 0,
            attempted_minor: request.amount_minor,
        },
    }
}

/// The breach of a charge when the provider is unavailable for `cause` and the
/// profile fails closed.
pub fn unavailable_breach(request: &LimitsEvaluateRequest, cause: &str) -> (r: LimitBreach)
    ensures
        r@ == BreachView::of_request(
            *request,
            LimitDeclineReason::ProviderUnavailable,
            decision::unavailable_text(cause@),
        ),
{
    block_breach(
        request,
        None,
        LimitDeclineReason::ProviderUnavailable,
        unavailable_details(cause),
    )
}

/// What is written to the attempt of a blocked charge. What an attempt has
/// beyond these fields is left as it is.
#[derive(Debug)]
pub struct AttemptErrorUpdate {
    pub status: AttemptStatus,
    pub error_code: String,
    pub error_message: String,
    pub error_reason: String,
    /// What can still be captured, in minor units.
    pub amount_capturable: i64,
    pub updated_by: String,
}

/// What is written to the payment of a blocked charge.
#[derive(Debug)]
pub struct IntentStatusUpdate {
    pub status: IntentStatus,
    pub updated_by: String,
    pub feature_metadata: Option<String>,
}

/// The records of a blocked charge. Both are written, the attempt first; the
/// caller gets the error even if a write fails.
#[derive(Debug)]
pub struct BlockRecord {
    pub attempt: AttemptErrorUpdate,
    pub intent: IntentStatusUpdate,
}

/// What is written to an attempt, with its texts as characters.
pub struct AttemptUpdateView {
    pub status: AttemptStatus,
    pub error_code: Seq<char>,
    pub error_message: Seq<char>,
    pub error_reason: Seq<char>,
    pub amount_capturable: int,
    pub updated_by: Seq<char>,
}

/// The records of a blocked charge, with their texts as characters.
pub struct RecordView {
    pub attempt: AttemptUpdateView,
    pub intent_status: IntentStatus,
    pub intent_updated_by: Seq<char>,
    pub feature_metadata: Option<String>,
}

impl View for BlockRecord {
    type V = RecordView;

    open spec fn view(&self) -> RecordView {
        RecordView {
            attempt: AttemptUpdateView {
                status: self.attempt.status,
                error_code: self.attempt.error_code@,
                error_message: self.attempt.error_message@,
                error_reason: self.attempt.error_reason@,
                amount_capturable: self.attempt.amount_capturable as int,
                updated_by: self.attempt.updated_by@,
            },
            intent_status: self.intent.status,
            intent_updated_by: self.intent.updated_by@,
            feature_metadata: self.intent.feature_metadata,
        }
    }
}

/// The records of a blocked charge: its attempt failed for the breach, nothing
/// can be captured, and the payment failed.
pub fn record_block(
    breach: &LimitBreach,
    storage_scheme: &str,
    feature_metadata: &Option<String>,
) -> (r: BlockRecord)
    ensures
        r@ == breach@.record(storage_scheme@, *feature_metadata),
{
    BlockRecord {
        attempt: AttemptErrorUpdate {
            status: AttemptStatus::Failure,
            error_code: "AGENTIC_LIMIT_EXCEEDED".to_owned(),
            error_message: text::joined(
                "Agentic spending limit exceeded: ",
                breach.details.as_str(),
            ),
            error_reason: breach.details.clone(),
            amount_capturable: 0,
            updated_by: storage_scheme.to_owned(),
        },
        intent: IntentStatusUpdate {
            status: IntentStatus::Failed,
            updated_by: storage_scheme.to_owned(),
            feature_metadata: clone_text(feature_metadata),
        },
    }
}

/// The handles of the reservations that are not settled yet, by payment.
pub struct Reservations {
    handles: StringHashMap<String>,
}

impl View for Reservations {
    type V = Map<Seq<char>, Seq<char>>;

    closed spec fn view(&self) -> Map<Seq<char>, Seq<char>> {
        self.handles@.map_values(|handle: String| handle@)
    }
}

impl Reservations {
    pub fn new() -> (r: Reservations)
        ensures
            r@ == Map::<Seq<char>, Seq<char>>::empty(),
    {
        let r = Reservations { handles: StringHashMap::new() };
        assert(r@ =~= Map::<Seq<char>, Seq<char>>::empty());
        r
    }
}

/// Keeps the handle of a payment's reservation, in place of one it had.
pub fn stash_reservation(reservations: &mut Reservations, tx_id: &str, reservation_id: String)
    ensures
        final(reservations)@ == old(reservations)@.insert(tx_id@, reservation_id@),
{
    let ghost before = reservations@;
    reservations.handles.insert(tx_id.to_owned(), reservation_id);
    assert(reservations@ =~= before.insert(tx_id@, reservation_id@));
}

/// Takes the handle of a payment's reservation out, if there is one.
pub fn take_reservation(reservations: &mut Reservations, tx_id: &str) -> (r: Option<String>)
    ensures
        final(reservations)@ == old(reservations)@.remove(tx_id@),
        decision::text_option(r) == reserved(old(reservations)@, tx_id@),
{
    let ghost before = reservations@;
    let handle = match reservations.handles.get(tx_id) {
        Some(handle) => Some(handle.clone()),
        None => None,
    };
    reservations.handles.remove(tx_id);
    assert(reservations@ =~= before.remove(tx_id@));
    handle
}

/// The handle that is kept for a payment.
pub open spec fn reserved(reservations: Map<Seq<char>, Seq<char>>, tx_id: Seq<char>) -> Option<
    Seq<char>,
> {
    if reservations.contains_key(tx_id) {
        Some(reservations[tx_id])
    } else {
        None
    }
}

/// What a terminal status means for the reservation.
pub open spec fn settle_outcome(status: AttemptStatus) -> LimitSettleOutcome {
    match status {
        AttemptStatus::Charged | AttemptStatus::PartialCharged
        | AttemptStatus::PartialChargedAndChargeable => LimitSettleOutcome::Succeeded,
        AttemptStatus::Voided | AttemptStatus::VoidedPostCharge => LimitSettleOutcome::Voided,
        AttemptStatus::AutoRefunded => LimitSettleOutcome::Refunded,
        _ => LimitSettleOutcome::Failed,
    }
}

/// What a terminal status means for the reservation.
pub fn settle_outcome_for(status: AttemptStatus) -> (r: LimitSettleOutcome)
    ensures
        r == settle_outcome(status),
{
    match status {
        AttemptStatus::Charged | AttemptStatus::PartialCharged
        | AttemptStatus::PartialChargedAndChargeable => LimitSettleOutcome::Succeeded,
        AttemptStatus::Voided | AttemptStatus::VoidedPostCharge => LimitSettleOutcome::Voided,
        AttemptStatus::AutoRefunded => LimitSettleOutcome::Refunded,
        _ => LimitSettleOutcome::Failed,
    }
}

/// The label of a settle outcome.
pub open spec fn settle_outcome_text(outcome: LimitSettleOutcome) -> Seq<char> {
    match outcome {
        LimitSettleOutcome::Succeeded => "succeeded"@,
        LimitSettleOutcome::Failed => "failed"@,
        LimitSettleOutcome::Voided => "voided"@,
        LimitSettleOutcome::Refunded => "refunded"@,
    }
}

/// The label of a settle outcome.
pub fn settle_outcome_label(outcome: LimitSettleOutcome) -> (r: &'static str)
    ensures
        r@ == settle_outcome_text(outcome),
{
    match outcome {
        LimitSettleOutcome::Succeeded => "succeeded",
        LimitSettleOutcome::Failed => "failed",
        LimitSettleOutcome::Voided => "voided",
        LimitSettleOutcome::Refunded => "refunded",
    }
}

/// A settle request, with its texts as characters.
pub struct SettleView {
    pub tx_id: Seq<char>,
    pub reservation_id: Seq<char>,
    pub outcome: LimitSettleOutcome,
    pub captured_amount_minor: Option<i64>,
    pub refunded_amount_minor: Option<i64>,
}

impl View for LimitsSettleRequest {
    type V = SettleView;

    open spec fn view(&self) -> SettleView {
        SettleView {
            tx_id: self.tx_id@,
            reservation_id: self.reservation_id@,
            outcome: self.outcome,
            captured_amount_minor: self.captured_amount_minor,
            refunded_amount_minor: self.refunded_amount_minor,
        }
    }
}

/// The view of a settle request that may be missing.
pub open spec fn settle_option(request: Option<LimitsSettleRequest>) -> Option<SettleView> {
    match request {
        Some(request) => Some(request@),
        None => None,
    }
}

/// The reservations once an attempt of a payment has reached `status`, and the
/// settle request that is due, if any.
pub open spec fn settled(
    reservations: Map<Seq<char>, Seq<char>>,
    enabled: bool,
    tx_id: Seq<char>,
    status: AttemptStatus,
    captured_amount_minor: Option<i64>,
    refunded_amount_minor: Option<i64>,
) -> (Map<Seq<char>, Seq<char>>, Option<SettleView>) {
    if !enabled || !status.is_terminal() {
        (reservations, None)
    } else {
        (
            reservations.remove(tx_id),
            match reserved(reservations, tx_id) {
                Some(reservation_id) => Some(
                    SettleView {
                        tx_id,
                        reservation_id,
                        outcome: settle_outcome(status),
                        captured_amount_minor,
                        refunded_amount_minor,
                    },
                ),
                None => None,
            },
        )
    }
}

/// The settle request that is due when an attempt of the payment `tx_id` has
/// reached `status`: one if limits are enabled, the status is terminal, and a
/// reservation is kept for the payment. The reservation is taken out, so that it
/// is settled once. Sending the request is best effort.
pub fn settle_on_terminal(
    reservations: &mut Reservations,
    enabled: bool,
    tx_id: String,
    status: AttemptStatus,
    captured_amount_minor: Option<i64>,
    refunded_amount_minor: Option<i64>,
) -> (r: Option<LimitsSettleRequest>)
    ensures
        (final(reservations)@, settle_option(r)) == settled(
            old(reservations)@,
            enabled,
            tx_id@,
            status,
            captured_amount_minor,
            refunded_amount_minor,
        ),
{
    if !enabled {
        return None;
    }
    if !status.is_terminal_status() {
        return None;
    }
    match take_reservation(reservations, tx_id.as_str()) {
        Some(reservation_id) => Some(
            LimitsSettleRequest {
                tx_id,
                reservation_id,
                outcome: settle_outcome_for(status),
                captured_amount_minor,
                refunded_amount_minor,
            },
        ),
        None => None,
    }
}

/// What happened last in a limits check.
#[derive(Debug)]
pub enum CheckEvent {
    /// The client of the provider was built, or could not be.
    ProviderBuilt(bool),
    /// The provider was asked whether there are limits.
    HasLimits(Result<bool, LimitsProviderError>),
    /// The provider was asked to evaluate the charge.
    Evaluated(Result<LimitsEvaluateResponse, LimitsProviderError>),
}

impl Clone for CheckEvent {
    fn clone(&self) -> (r: CheckEvent)
        ensures
            r == *self,
    {
        match self {
            CheckEvent::ProviderBuilt(built) => CheckEvent::ProviderBuilt(*built),
            CheckEvent::HasLimits(Ok(reply)) => CheckEvent::HasLimits(Ok(*reply)),
            CheckEvent::HasLimits(Err(error)) => CheckEvent::HasLimits(Err(error.clone())),
            CheckEvent::Evaluated(Ok(response)) => CheckEvent::Evaluated(Ok(response.clone())),
            CheckEvent::Evaluated(Err(error)) => CheckEvent::Evaluated(Err(error.clone())),
        }
    }
}

/// What is to be done next in a limits check.
#[derive(Debug)]
pub enum CheckStep {
    /// Ask the provider whether there are limits for the customer.
    AskHasLimits { customer_ref: String },
    /// Ask the provider to evaluate the charge.
    AskEvaluate { request: LimitsEvaluateRequest },
    /// The charge may proceed.
    Allowed,
    /// The charge is blocked: write the records, and return the error.
    Blocked { record: BlockRecord, error: ApiErrorResponse },
}

/// What is to be done next, with its texts as characters.
pub enum CheckStepView {
    AskHasLimits { customer_ref: Seq<char> },
    AskEvaluate { request: LimitsEvaluateRequest },
    Allowed,
    Blocked { record: RecordView, error: ApiErrorView },
}

impl View for CheckStep {
    type V = CheckStepView;

    open spec fn view(&self) -> CheckStepView {
        match self {
            CheckStep::AskHasLimits { customer_ref } => CheckStepView::AskHasLimits {
                customer_ref: customer_ref@,
            },
            CheckStep::AskEvaluate { request } => CheckStepView::AskEvaluate { request: *request },
            CheckStep::Allowed => CheckStepView::Allowed,
            CheckStep::Blocked { record, error } => CheckStepView::Blocked {
                record: record@,
                error: error@,
            },
        }
    }
}

impl CheckStepView {
    /// Whether the check is over.
    pub open spec fn is_end(self) -> bool {
        self is Allowed || self is Blocked
    }
}

/// The check of one charge. The decision service is not part of it: its breaker
/// spans the charges of a process.
pub struct LimitsCheck {
    config: LimitsProfileConfig,
    metadata: LimitsMetadata,
    ctx: LimitsEvaluateContext,
    storage_scheme: String,
    feature_metadata: Option<String>,
}

/// What a check is about.
pub struct CheckView {
    pub config: LimitsProfileConfig,
    pub metadata: LimitsMetadata,
    pub ctx: LimitsEvaluateContext,
    pub storage_scheme: Seq<char>,
    pub feature_metadata: Option<String>,
}

impl View for LimitsCheck {
    type V = CheckView;

    closed spec fn view(&self) -> CheckView {
        CheckView {
            config: self.config,
            metadata: self.metadata,
            ctx: self.ctx,
            storage_scheme: self.storage_scheme@,
            feature_metadata: self.feature_metadata,
        }
    }
}

/// The event of the decision that an event of a check amounts to.
pub open spec fn decision_event(event: CheckEvent) -> DecisionEvent {
    match event {
        CheckEvent::ProviderBuilt(_) => DecisionEvent::Started,
        CheckEvent::HasLimits(reply) => DecisionEvent::HasLimits(reply),
        CheckEvent::Evaluated(reply) => DecisionEvent::Evaluated(reply),
    }
}

/// What the provider replied of a charge in an event, if it did.
pub open spec fn replied(event: CheckEvent) -> Option<LimitsEvaluateResponse> {
    match event {
        CheckEvent::Evaluated(Ok(response)) => Some(response),
        _ => None,
    }
}

impl CheckView {
    /// The step that blocks the charge for a reason, with the limit as the
    /// provider reported it, if it did.
    pub open spec fn block(
        self,
        response: Option<LimitsEvaluateResponse>,
        reason: LimitDeclineReason,
        details: Seq<char>,
    ) -> CheckStepView {
        let breach = BreachView::of_charge(self.ctx.request, response, reason, details);
        CheckStepView::Blocked {
            record: breach.record(self.storage_scheme, self.feature_metadata),
            error: breach.api_error(),
        }
    }

    /// The step of the fail-mode when the provider is unavailable for `cause`.
    pub open spec fn unavailable(self, cause: Seq<char>) -> CheckStepView {
        if self.config.fail_closed {
            self.block(
                None,
                LimitDeclineReason::ProviderUnavailable,
                decision::unavailable_text(cause),
            )
        } else {
            CheckStepView::Allowed
        }
    }

    /// The reservations after `outcome`, and the step that it leads to.
    pub open spec fn conclude(
        self,
        reservations: Map<Seq<char>, Seq<char>>,
        response: Option<LimitsEvaluateResponse>,
        outcome: OutcomeView,
    ) -> (Map<Seq<char>, Seq<char>>, CheckStepView) {
        match outcome {
            OutcomeView::Allow { reservation_id } => (
                match reservation_id {
                    Some(handle) => reservations.insert(self.ctx.request.tx_id@, handle),
                    None => reservations,
                },
                CheckStepView::Allowed,
            ),
            OutcomeView::Block { reason, details } => (
                reservations,
                self.block(response, reason, details),
            ),
        }
    }

    /// The breaker and the reservations after `event`, and what is to be done
    /// next. Without a provider, a charge that the trigger rule leaves out is
    /// allowed, and the fail-mode decides any other.
    pub open spec fn next(
        self,
        breaker: BreakerView,
        reservations: Map<Seq<char>, Seq<char>>,
        event: CheckEvent,
        now: nat,
    ) -> (BreakerView, Map<Seq<char>, Seq<char>>, CheckStepView) {
        if event == CheckEvent::ProviderBuilt(false) {
            (
                breaker,
                reservations,
                if decision::triggered(self.config, self.metadata) {
                    self.unavailable("provider_construction_failed"@)
                } else {
                    CheckStepView::Allowed
                },
            )
        } else {
            let (after, step) = decision::next_step(
                breaker,
                self.config,
                true,
                self.metadata,
                self.ctx,
                decision_event(event),
                now,
            );
            match step {
                StepView::Decided(outcome) => {
                    let (kept, next) = self.conclude(reservations, replied(event), outcome);
                    (after, kept, next)
                },
                StepView::AskHasLimits { customer_ref } => (
                    after,
                    reservations,
                    CheckStepView::AskHasLimits { customer_ref },
                ),
                StepView::AskEvaluate { request } => (
                    after,
                    reservations,
                    CheckStepView::AskEvaluate { request },
                ),
            }
        }
    }

    /// What is counted for a step: what happened, and whether the check is over.
    /// That the provider could not be built is not counted.
    pub open spec fn counted(self, event: CheckEvent, ended: bool) -> Seq<LimitsMetric> {
        metrics::step_metrics(
            self.config,
            true,
            self.metadata,
            decision_event(event),
            ended && event != CheckEvent::ProviderBuilt(false),
        )
    }

    /// The check of a payment.
    pub open spec fn of_payment(
        settings: LimitsSettings,
        payment_data: PaymentData,
        processor: Processor,
        payment_method_id: String,
    ) -> CheckView {
        let agentic = marked_agentic(payment_data.metadata);
        CheckView {
            config: settings.config(),
            metadata: LimitsMetadata { agentic },
            ctx: LimitsEvaluateContext {
                request: payment_data.request(payment_method_id, processor, agentic),
                customer_ref: payment_method_id,
            },
            storage_scheme: processor.storage_scheme@,
            feature_metadata: payment_data.feature_metadata,
        }
    }
}

impl LimitsSettings {
    /// The breaker of a process that has checked no charge.
    pub open spec fn fresh_breaker(self) -> BreakerView {
        BreakerView::fresh(
            self.circuit_breaker_threshold as nat,
            (BREAKER_COOLDOWN_SECS * 1_000_000_000) as nat,
        )
    }
}

/// The decision service that the charges of a process share.
pub fn decision_service(settings: &LimitsSettings) -> (r: LimitsDecisionService)
    ensures
        r@ == settings.fresh_breaker(),
{
    LimitsDecisionService::new(settings.circuit_breaker_threshold, BREAKER_COOLDOWN_SECS)
}

/// Starts the limits check of a charge. There is none if limits are disabled, or
/// if the attempt has no payment method: the charge may proceed then. Otherwise
/// the client of the provider is built next.
pub fn evaluate_and_record(
    settings: &LimitsSettings,
    payment_data: &PaymentData,
    processor: &Processor,
) -> (r: Option<LimitsCheck>)
    ensures
        match payment_data.payment_method_id {
            Some(payment_method_id) if settings.enabled => r matches Some(check) && check@
                == CheckView::of_payment(*settings, *payment_data, *processor, payment_method_id),
            _ => r is None,
        },
        r is Some <==> settings.enabled && payment_data.payment_method_id is Some,
        r matches Some(check) ==> {
            &&& check@.ctx.request.tx_id@ == payment_data.payment_id@
            &&& check@.ctx.request.amount_minor == payment_data.total_amount_minor
            &&& check@.ctx.request.currency == payment_data.currency
            &&& check@.ctx.customer_ref@ == payment_data.payment_method_id->0@
            &&& check@.metadata.agentic == check@.ctx.request.agentic
        },
{
    if !settings.enabled {
        return None;
    }
    let config = profile_config(settings);
    let metadata = LimitsMetadata { agentic: is_agentic(payment_data) };
    match build_request(payment_data, processor, metadata.agentic) {
        Some(request) => Some(
            LimitsCheck {
                config,
                metadata,
                ctx: LimitsEvaluateContext::from_request(request),
                storage_scheme: processor.storage_scheme.clone(),
                feature_metadata: clone_text(&payment_data.feature_metadata),
            },
        ),
        None => None,
    }
}

impl LimitsCheck {
    /// The configuration the check runs under.
    pub fn config(&self) -> (r: &LimitsProfileConfig)
        ensures
            *r == self@.config,
    {
        &self.config
    }

    /// Takes what happened last, and says what is to be done next. The service is
    /// the one that the charges of the process share.
    pub fn advance(
        &self,
        service: &mut LimitsDecisionService,
        reservations: &mut Reservations,
        event: CheckEvent,
    ) -> (r: CheckStep)
        ensures
            final(service).spec_clock() == old(service).spec_clock(),
            exists|now: nat|
                now <= clock::MAX_NANOS && (final(service)@, final(reservations)@, r@)
                    == #[trigger] self@.next(old(service)@, old(reservations)@, event, now),
    {
        let now = service.now();
        self.advance_at(service, reservations, event, now)
    }

    /// [`advance`](LimitsCheck::advance), at the moment `now`.
    pub fn advance_at(
        &self,
        service: &mut LimitsDecisionService,
        reservations: &mut Reservations,
        event: CheckEvent,
        now: Instant,
    ) -> (r: CheckStep)
        ensures
            final(service).spec_clock() == old(service).spec_clock(),
            (final(service)@, final(reservations)@, r@) == self@.next(
                old(service)@,
                old(reservations)@,
                event,
                now@,
            ),
    {
        if let CheckEvent::ProviderBuilt(false) = &event {
            if service.should_check_limits(&self.config, &self.metadata)
                && self.config.fail_closed {
                let breach = unavailable_breach(&self.ctx.request, "provider_construction_failed");
                return self.blocked(breach);
            }
            return CheckStep::Allowed;
        }
        let response = match &event {
            CheckEvent::Evaluated(Ok(response)) => Some(response.clone()),
            _ => None,
        };
        let step = service.decide_at(
            &self.config,
            true,
            &self.metadata,
            &self.ctx,
            to_decision_event(event),
            now,
        );
        match step {
            DecisionStep::AskHasLimits { customer_ref } => CheckStep::AskHasLimits { customer_ref },
            DecisionStep::AskEvaluate { request } => CheckStep::AskEvaluate { request },
            DecisionStep::Decided(LimitsOutcome::Allow { reservation_id }) => {
                if let Some(reservation_id) = reservation_id {
                    stash_reservation(
                        reservations,
                        self.ctx.request.tx_id.as_str(),
                        reservation_id,
                    );
                }
                CheckStep::Allowed
            },
            DecisionStep::Decided(LimitsOutcome::Block { reason, details }) => {
                let breach = block_breach(&self.ctx.request, response.as_ref(), reason, details);
                self.blocked(breach)
            },
        }
    }

    /// What is counted for a step of the check that followed `event`.
    pub fn metrics(&self, event: &CheckEvent, step: &CheckStep) -> (r: Vec<LimitsMetric>)
        ensures
            r@ == self@.counted(*event, step@.is_end()),
    {
        let ended = match step {
            CheckStep::Allowed => true,
            CheckStep::Blocked { .. } => true,
            _ => false,
        };
        let built = match event {
            CheckEvent::ProviderBuilt(built) => *built,
            _ => true,
        };
        decision_metrics(
            &self.config,
            true,
            &self.metadata,
            &to_decision_event(event.clone()),
            ended && built,
        )
    }

    /// The step that ends the check with a breach.
    fn blocked(&self, breach: LimitBreach) -> (r: CheckStep)
        ensures
            r@ == (CheckStepView::Blocked {
                record: breach@.record(self@.storage_scheme, self@.feature_metadata),
                error: breach@.api_error(),
            }),
    {
        CheckStep::Blocked {
            record: record_block(&breach, self.storage_scheme.as_str(), &self.feature_metadata),
            error: breach.to_api_error(),
        }
    }
}

/// The event of the decision that an event of a check amounts to.
fn to_decision_event(event: CheckEvent) -> (r: DecisionEvent)
    ensures
        r == decision_event(event),
{
    match event {
        CheckEvent::ProviderBuilt(_) => DecisionEvent::Started,
        CheckEvent::HasLimits(reply) => DecisionEvent::HasLimits(reply),
        CheckEvent::Evaluated(reply) => DecisionEvent::Evaluated(reply),
    }
}

/// A charge, and what the provider would reply of it.
pub struct Charge {
    pub check: CheckView,
    pub replies: Replies,
}

/// The whole check of a charge: how it ended, the calls that were made, and what
/// it left.
pub struct ChargeRun {
    pub end: CheckStepView,
    pub asked_has_limits: bool,
    pub asked_evaluate: bool,
    pub breaker: BreakerView,
    pub reservations: Map<Seq<char>, Seq<char>>,
}

/// The whole check of a charge, with a provider that was built.
pub open spec fn charge_run(
    breaker: BreakerView,
    reservations: Map<Seq<char>, Seq<char>>,
    charge: Charge,
) -> ChargeRun {
    let replies = charge.replies;
    let (b1, k1, s1) = charge.check.next(
        breaker,
        reservations,
        CheckEvent::ProviderBuilt(true),
        replies.started,
    );
    if s1.is_end() {
        ChargeRun {
            end: s1,
            asked_has_limits: false,
            asked_evaluate: false,
            breaker: b1,
            reservations: k1,
        }
    } else {
        let (b2, k2, s2) = charge.check.next(
            b1,
            k1,
            CheckEvent::HasLimits(replies.has_limits),
            replies.started,
        );
        if s2.is_end() {
            ChargeRun {
                end: s2,
                asked_has_limits: true,
                asked_evaluate: false,
                breaker: b2,
                reservations: k2,
            }
        } else {
            let (b3, k3, s3) = charge.check.next(
                b2,
                k2,
                CheckEvent::Evaluated(replies.evaluated),
                replies.answered,
            );
            ChargeRun {
                end: s3,
                asked_has_limits: true,
                asked_evaluate: true,
                breaker: b3,
                reservations: k3,
            }
        }
    }
}

/// The breaker and the reservations of a process after it has checked `charges`,
/// one after the other.
pub open spec fn after_charges(
    breaker: BreakerView,
    reservations: Map<Seq<char>, Seq<char>>,
    charges: Seq<Charge>,
) -> (BreakerView, Map<Seq<char>, Seq<char>>)
    decreases charges.len(),
{
    if charges.len() == 0 {
        (breaker, reservations)
    } else {
        let (b, k) = after_charges(breaker, reservations, charges.drop_last());
        let run = charge_run(b, k, charges.last());
        (run.breaker, run.reservations)
    }
}

/// The check of the charge at place `i` of `charges`, after those before it.
pub open spec fn run_at(
    breaker: BreakerView,
    reservations: Map<Seq<char>, Seq<char>>,
    charges: Seq<Charge>,
    i: int,
) -> ChargeRun {
    let (b, k) = after_charges(breaker, reservations, charges.take(i));
    charge_run(b, k, charges[i])
}

/// A handle that was kept for a payment is taken out once, and is not there a
/// second time; the handles of other payments are as they were.
pub proof fn law_reservation_is_taken_once(
    reservations: Map<Seq<char>, Seq<char>>,
    tx_id: Seq<char>,
    handle: Seq<char>,
    other: Seq<char>,
)
    ensures
        reserved(reservations.insert(tx_id, handle), tx_id) == Some(handle),
        reserved(reservations.insert(tx_id, handle).remove(tx_id), tx_id) is None,
        other != tx_id ==> reserved(reservations.insert(tx_id, handle).remove(tx_id), other)
            == reserved(reservations, other),
{
}

/// A charge that the provider allowed with a reservation is settled once, with
/// the handle of that reservation, when its attempt reaches a terminal status.
pub proof fn law_allowed_charge_is_settled_once(
    check: CheckView,
    breaker: BreakerView,
    reservations: Map<Seq<char>, Seq<char>>,
    response: LimitsEvaluateResponse,
    handle: Seq<char>,
    now: nat,
    status: AttemptStatus,
    captured: Option<i64>,
    refunded: Option<i64>,
)
    requires
        response.decision == crate::limits::types::LimitDecision::Allow,
        decision::text_option(response.reservation_id) == Some(handle),
        status.is_terminal(),
    ensures
        ({
            let tx_id = check.ctx.request.tx_id@;
            let (_, kept, step) = check.next(
                breaker,
                reservations,
                CheckEvent::Evaluated(Ok(response)),
                now,
            );
            let (left, first) = settled(kept, true, tx_id, status, captured, refunded);
            let (_, second) = settled(left, true, tx_id, status, captured, refunded);
            &&& step is Allowed
            &&& first == Some(
                SettleView {
                    tx_id,
                    reservation_id: handle,
                    outcome: settle_outcome(status),
                    captured_amount_minor: captured,
                    refunded_amount_minor: refunded,
                },
            )
            &&& second is None
        }),
{
}

/// A status that is not terminal settles nothing, and neither does any status
/// when limits are disabled.
pub proof fn law_settle_waits_for_the_end(
    reservations: Map<Seq<char>, Seq<char>>,
    enabled: bool,
    tx_id: Seq<char>,
    status: AttemptStatus,
    captured: Option<i64>,
    refunded: Option<i64>,
)
    requires
        !enabled || !status.is_terminal(),
    ensures
        settled(reservations, enabled, tx_id, status, captured, refunded) == (
            reservations,
            None::<SettleView>,
        ),
{
}

/// Whenever a check blocks a charge, the attempt is recorded as failed with
/// nothing left to capture, the payment is recorded as failed, the caller's
/// error has the amount of the charge, and no reservation is kept.
pub proof fn law_blocked_charge_is_recorded(
    check: CheckView,
    breaker: BreakerView,
    reservations: Map<Seq<char>, Seq<char>>,
    event: CheckEvent,
    now: nat,
)
    requires
        check.next(breaker, reservations, event, now).2 is Blocked,
    ensures
        ({
            let (_, kept, step) = check.next(breaker, reservations, event, now);
            let record = step->record;
            let error = step->error;
            &&& record.attempt.status == AttemptStatus::Failure
            &&& record.attempt.error_code == "AGENTIC_LIMIT_EXCEEDED"@
            &&& record.attempt.error_message == "Agentic spending limit exceeded: "@
                + record.attempt.error_reason
            &&& record.attempt.amount_capturable == 0
            &&& record.intent_status == IntentStatus::Failed
            &&& record.feature_metadata == check.feature_metadata
            &&& error.attempted_minor == check.ctx.request.amount_minor
            &&& kept == reservations
        }),
{
}

/// A check asks the provider, allows the charge or blocks it; once the provider
/// has evaluated the charge, or could not be built, the check is over.
pub proof fn law_check_ends(
    check: CheckView,
    breaker: BreakerView,
    reservations: Map<Seq<char>, Seq<char>>,
    event: CheckEvent,
    now: nat,
)
    ensures
        ({
            let step = check.next(breaker, reservations, event, now).2;
            match event {
                CheckEvent::ProviderBuilt(true) => !(step is AskEvaluate),
                CheckEvent::HasLimits(_) => !(step is AskHasLimits),
                CheckEvent::ProviderBuilt(false) | CheckEvent::Evaluated(_) => step is Allowed
                    || step is Blocked,
            }
        }),
{
}

/// If the client of the provider cannot be built, a charge that is to be checked
/// is blocked as `ProviderUnavailable` if the profile fails closed, and allowed if
/// it fails open.
pub proof fn law_missing_provider_obeys_the_fail_mode(
    check: CheckView,
    breaker: BreakerView,
    reservations: Map<Seq<char>, Seq<char>>,
    now: nat,
)
    requires
        decision::triggered(check.config, check.metadata),
    ensures
        ({
            let (_, kept, step) = check.next(
                breaker,
                reservations,
                CheckEvent::ProviderBuilt(false),
                now,
            );
            &&& kept == reservations
            &&& if check.config.fail_closed {
                step matches CheckStepView::Blocked { error, .. } && error.reason
                    == "provider_unavailable"@
            } else {
                step is Allowed
            }
        }),
{
}

/// A charge that the trigger rule leaves out is allowed at once, whether or not
/// the client of the provider could be built. Nothing is reserved, and the breaker
/// stays as it is.
pub proof fn law_charge_left_out_is_allowed(
    check: CheckView,
    breaker: BreakerView,
    reservations: Map<Seq<char>, Seq<char>>,
    built: bool,
    now: nat,
)
    requires
        check.config.trigger_agentic_only,
        !check.metadata.agentic,
    ensures
        check.next(breaker, reservations, CheckEvent::ProviderBuilt(built), now) == (
            breaker,
            reservations,
            CheckStepView::Allowed,
        ),
{
}

/// The error of a charge that the provider blocked has the scope, the period, the
/// currency and the amounts that the provider reported.
pub proof fn law_block_reports_the_limit(
    check: CheckView,
    breaker: BreakerView,
    reservations: Map<Seq<char>, Seq<char>>,
    response: LimitsEvaluateResponse,
    now: nat,
)
    requires
        response.decision == crate::limits::types::LimitDecision::Block,
    ensures
        ({
            let step = check.next(
                breaker,
                reservations,
                CheckEvent::Evaluated(Ok(response)),
                now,
            ).2;
            let error = step->error;
            &&& step is Blocked
            &&& response.scope matches Some(scope) ==> error.scope == scope@
            &&& response.scope is None ==> error.scope == "unknown"@
            &&& response.period matches Some(period) ==> error.period == period@
            &&& response.period is None ==> error.period == "unknown"@
            &&& response.currency matches Some(currency) ==> error.currency
                == currency.alpha_code()
            &&& response.currency is None ==> error.currency
                == check.ctx.request.currency.alpha_code()
            &&& response.used_minor matches Some(used) ==> error.used_minor == used
            &&& response.used_minor is None ==> error.used_minor == 0
            &&& response.max_minor matches Some(max) ==> error.max_minor == max
            &&& response.max_minor is None ==> error.max_minor == 0
        }),
{
}

/// A charge whose evaluation failed is one more failure for the breaker, and
/// reserves nothing.
proof fn lemma_failed_charge(
    breaker: BreakerView,
    reservations: Map<Seq<char>, Seq<char>>,
    charge: Charge,
)
    requires
        charge.replies.evaluated is Err,
        charge_run(breaker, reservations, charge).asked_evaluate,
    ensures
        charge_run(breaker, reservations, charge).breaker == breaker.checked_at(
            charge.replies.started,
        ).failed_at(charge.replies.answered),
        charge_run(breaker, reservations, charge).reservations == reservations,
{
}

/// Whether all of the charges were evaluated, and all evaluations failed.
pub open spec fn all_failed(
    breaker: BreakerView,
    reservations: Map<Seq<char>, Seq<char>>,
    charges: Seq<Charge>,
) -> bool {
    forall|i: int|
        0 <= i < charges.len() ==> (#[trigger] charges[i]).replies.evaluated is Err && run_at(
            breaker,
            reservations,
            charges,
            i,
        ).asked_evaluate
}

/// Of charges that all failed, so did all but the last, and the last was evaluated
/// after them.
proof fn lemma_all_but_the_last_failed(
    breaker: BreakerView,
    reservations: Map<Seq<char>, Seq<char>>,
    charges: Seq<Charge>,
)
    requires
        charges.len() > 0,
        all_failed(breaker, reservations, charges),
    ensures
        all_failed(breaker, reservations, charges.drop_last()),
        charges.last().replies.evaluated is Err,
        ({
            let (b, k) = after_charges(breaker, reservations, charges.drop_last());
            charge_run(b, k, charges.last()).asked_evaluate
        }),
{
    let earlier = charges.drop_last();
    assert forall|i: int| 0 <= i < earlier.len() implies (
    #[trigger] earlier[i]).replies.evaluated is Err && run_at(
        breaker,
        reservations,
        earlier,
        i,
    ).asked_evaluate by {
        assert(earlier[i] == charges[i]);
        assert(earlier.take(i) =~= charges.take(i));
    }
    assert(charges.last() == charges[charges.len() - 1]);
    assert(charges.take(charges.len() - 1) =~= earlier);
}

/// The failures of charges that were all evaluated add up in the breaker.
proof fn lemma_failed_charges_add_up(
    breaker: BreakerView,
    reservations: Map<Seq<char>, Seq<char>>,
    charges: Seq<Charge>,
)
    requires
        all_failed(breaker, reservations, charges),
    ensures
        ({
            let (after, kept) = after_charges(breaker, reservations, charges);
            &&& after.threshold == breaker.threshold
            &&& after.cooldown == breaker.cooldown
            &&& after.consecutive_failures >= charges.len() || after.consecutive_failures
                >= u32::MAX
            &&& charges.len() > 0 && after.consecutive_failures >= breaker.threshold
                ==> after.open_until == Some(charges.last().replies.answered + breaker.cooldown)
            &&& kept == reservations
        }),
    decreases charges.len(),
{
    if charges.len() > 0 {
        lemma_all_but_the_last_failed(breaker, reservations, charges);
        lemma_failed_charges_add_up(breaker, reservations, charges.drop_last());
        let (b, k) = after_charges(breaker, reservations, charges.drop_last());
        lemma_failed_charge(b, k, charges.last());
    }
}

/// After as many failed charges in a row as the threshold of the breaker says, the
/// next charge within the cooldown makes no call: the fail-mode decides it, and
/// nothing is reserved. Whatever the process has seen before makes no difference.
pub proof fn law_failed_charges_open_the_breaker(
    breaker: BreakerView,
    reservations: Map<Seq<char>, Seq<char>>,
    charges: Seq<Charge>,
    next: Charge,
)
    requires
        0 < charges.len(),
        breaker.threshold <= charges.len(),
        breaker.threshold <= u32::MAX,
        all_failed(breaker, reservations, charges),
        decision::triggered(next.check.config, next.check.metadata),
        next.replies.started < charges.last().replies.answered + breaker.cooldown,
    ensures
        ({
            let (after, kept) = after_charges(breaker, reservations, charges);
            let run = charge_run(after, kept, next);
            &&& !run.asked_has_limits
            &&& !run.asked_evaluate
            &&& run.end == next.check.unavailable("circuit_breaker_open"@)
            &&& run.breaker == after
            &&& run.reservations == reservations
        }),
{
    lemma_failed_charges_add_up(breaker, reservations, charges);
}

/// While fewer charges have failed than the threshold says, in a process whose
/// breaker was new before them, the next charge reaches the provider.
pub proof fn law_charges_reach_the_provider_below_the_threshold(
    settings: LimitsSettings,
    reservations: Map<Seq<char>, Seq<char>>,
    charges: Seq<Charge>,
    next: Charge,
)
    requires
        charges.len() < settings.circuit_breaker_threshold,
        forall|i: int|
            0 <= i < charges.len() ==> {
                &&& (#[trigger] charges[i]).replies.evaluated is Err
                &&& charges[i].replies.has_limits != Ok::<bool, LimitsProviderError>(false)
                &&& decision::triggered(charges[i].check.config, charges[i].check.metadata)
            },
        decision::triggered(next.check.config, next.check.metadata),
    ensures
        ({
            let (after, kept) = after_charges(settings.fresh_breaker(), reservations, charges);
            &&& after.consecutive_failures == charges.len()
            &&& kept == reservations
            &&& charge_run(after, kept, next).asked_has_limits
            &&& next.replies.has_limits != Ok::<bool, LimitsProviderError>(false)
                ==> charge_run(after, kept, next).asked_evaluate
        }),
{
    lemma_breaker_stays_closed(settings, reservations, charges);
}

proof fn lemma_breaker_stays_closed(
    settings: LimitsSettings,
    reservations: Map<Seq<char>, Seq<char>>,
    charges: Seq<Charge>,
)
    requires
        charges.len() < settings.circuit_breaker_threshold,
        forall|i: int|
            0 <= i < charges.len() ==> {
                &&& (#[trigger] charges[i]).replies.evaluated is Err
                &&& charges[i].replies.has_limits != Ok::<bool, LimitsProviderError>(false)
                &&& decision::triggered(charges[i].check.config, charges[i].check.metadata)
            },
    ensures
        after_charges(settings.fresh_breaker(), reservations, charges) == (
            BreakerView {
                consecutive_failures: charges.len(),
                ..settings.fresh_breaker()
            },
            reservations,
        ),
    decreases charges.len(),
{
    if charges.len() > 0 {
        let earlier = charges.drop_last();
        assert forall|i: int| 0 <= i < earlier.len() implies {
            &&& (#[trigger] earlier[i]).replies.evaluated is Err
            &&& earlier[i].replies.has_limits != Ok::<bool, LimitsProviderError>(false)
            &&& decision::triggered(earlier[i].check.config, earlier[i].check.metadata)
        } by {
            assert(earlier[i] == charges[i]);
        }
        lemma_breaker_stays_closed(settings, reservations, earlier);
        assert(charges.last() == charges[charges.len() - 1]);
    }
}

/// Without a reservation for a payment there is nothing to settle, and the
/// reservations of other payments are as they were.
pub proof fn law_nothing_to_settle_without_a_reservation(
    reservations: Map<Seq<char>, Seq<char>>,
    enabled: bool,
    tx_id: Seq<char>,
    status: AttemptStatus,
    captured: Option<i64>,
    refunded: Option<i64>,
)
    requires
        reserved(reservations, tx_id) is None,
    ensures
        settled(reservations, enabled, tx_id, status, captured, refunded) == (
            reservations,
            None::<SettleView>,
        ),
{
    assert(reservations.remove(tx_id) =~= reservations);
}

/// Settling one payment leaves the reservations of the others.
pub proof fn law_settling_leaves_other_payments(
    reservations: Map<Seq<char>, Seq<char>>,
    enabled: bool,
    tx_id: Seq<char>,
    status: AttemptStatus,
    captured: Option<i64>,
    refunded: Option<i64>,
    other: Seq<char>,
)
    requires
        other != tx_id,
    ensures
        reserved(settled(reservations, enabled, tx_id, status, captured, refunded).0, other)
            == reserved(reservations, other),
{
}

/// The request for a payment has the identifiers, the amount, the currency and the
/// mandate of the payment, the merchant of the processor, and the flag and the method
/// that it was made for, whatever these are.
pub proof fn law_request_is_of_the_payment(
    payment: PaymentData,
    payment_method_id: String,
    processor: Processor,
    agentic: bool,
)
    ensures
        ({
            let request = payment.request(payment_method_id, processor, agentic);
            &&& request.tx_id == payment.payment_id
            &&& request.attempt_id == payment.attempt_id
            &&& request.payment_method_id == payment_method_id
            &&& request.processor_merchant_id == processor.processor_merchant_id
            &&& request.amount_minor == payment.total_amount_minor
            &&& request.currency == payment.currency
            &&& request.agentic == agentic
            &&& request.intent_mandate_id == payment.mandate_id
        }),
{
}

/// Whenever the check of a payment has the provider evaluate it, it asks about the
/// amount, the currency, the method and the identifiers of the payment; and whenever
/// it asks about the customer, it asks about the method.
pub proof fn law_provider_is_asked_about_the_payment(
    settings: LimitsSettings,
    payment: PaymentData,
    processor: Processor,
    payment_method_id: String,
    breaker: BreakerView,
    reservations: Map<Seq<char>, Seq<char>>,
    event: CheckEvent,
    now: nat,
)
    ensures
        ({
            let check = CheckView::of_payment(settings, payment, processor, payment_method_id);
            let step = check.next(breaker, reservations, event, now).2;
            &&& step matches CheckStepView::AskEvaluate { request } ==> {
                &&& request.tx_id == payment.payment_id
                &&& request.attempt_id == payment.attempt_id
                &&& request.payment_method_id == payment_method_id
                &&& request.processor_merchant_id == processor.processor_merchant_id
                &&& request.amount_minor == payment.total_amount_minor
                &&& request.currency == payment.currency
                &&& request.intent_mandate_id == payment.mandate_id
                &&& request.agentic <==> payment.metadata is Some && json_flags(
                    payment.metadata->0,
                ).contains_key("agentic"@) && json_flags(payment.metadata->0)["agentic"@]
            }
            &&& step matches CheckStepView::AskHasLimits { customer_ref } ==> customer_ref
                == payment_method_id@
        }),
{
}

/// The check of a payment runs under the settings, is that of an agent if the
/// payment's metadata says so, and records under the storage scheme of the processor.
pub proof fn law_check_is_of_the_payment(
    settings: LimitsSettings,
    payment: PaymentData,
    processor: Processor,
    payment_method_id: String,
)
    ensures
        ({
            let check = CheckView::of_payment(settings, payment, processor, payment_method_id);
            &&& check.config.provider_base_url == settings.provider_base_url
            &&& check.config.hmac_secret == settings.hmac_secret
            &&& check.config.trigger_agentic_only == settings.trigger_agentic_only
            &&& check.config.fail_closed == settings.fail_closed
            &&& check.config.timeout_ms == settings.timeout_ms
            &&& check.config.circuit_breaker_threshold == settings.circuit_breaker_threshold
            &&& check.config == settings.config()
            &&& check.metadata.agentic <==> payment.metadata is Some && json_flags(
                payment.metadata->0,
            ).contains_key("agentic"@) && json_flags(payment.metadata->0)["agentic"@]
            &&& check.metadata.agentic == marked_agentic(payment.metadata)
            &&& check.ctx.customer_ref == payment_method_id
            &&& check.storage_scheme == processor.storage_scheme@
            &&& check.feature_metadata == payment.feature_metadata
        }),
        ({
            let breaker = settings.fresh_breaker();
            &&& breaker.threshold == settings.circuit_breaker_threshold
            &&& breaker.cooldown == 30_000_000_000
            &&& breaker.consecutive_failures == 0
            &&& breaker.open_until is None
        }),
{
}

/// Which statuses are terminal.
pub proof fn law_terminal_statuses(status: AttemptStatus)
    ensures
        status.is_terminal() <==> (status == AttemptStatus::RouterDeclined || status
            == AttemptStatus::Charged || status == AttemptStatus::AutoRefunded || status
            == AttemptStatus::Voided || status == AttemptStatus::VoidedPostCharge || status
            == AttemptStatus::VoidFailed || status == AttemptStatus::CaptureFailed || status
            == AttemptStatus::Failure || status == AttemptStatus::PartialCharged || status
            == AttemptStatus::Expired),
{
}

/// An attempt that has not come to one of its ends settles nothing and leaves every
/// reservation, so that the charge can still be settled when it does.
pub proof fn law_attempt_under_way_keeps_its_reservation(
    reservations: Map<Seq<char>, Seq<char>>,
    enabled: bool,
    tx_id: Seq<char>,
    status: AttemptStatus,
    captured: Option<i64>,
    refunded: Option<i64>,
)
    requires
        status != AttemptStatus::RouterDeclined,
        status != AttemptStatus::Charged,
        status != AttemptStatus::AutoRefunded,
        status != AttemptStatus::Voided,
        status != AttemptStatus::VoidedPostCharge,
        status != AttemptStatus::VoidFailed,
        status != AttemptStatus::CaptureFailed,
        status != AttemptStatus::Failure,
        status != AttemptStatus::PartialCharged,
        status != AttemptStatus::Expired,
    ensures
        settled(reservations, enabled, tx_id, status, captured, refunded).0 == reservations,
        settled(reservations, enabled, tx_id, status, captured, refunded).1 is None,
{
}

/// What each status means for the reservation: a charge commits it, a void voids it,
/// a refund refunds it, and any other status reports a failure.
pub proof fn law_outcomes_of_statuses(status: AttemptStatus)
    ensures
        settle_outcome(status) == LimitSettleOutcome::Succeeded <==> (status
            == AttemptStatus::Charged || status == AttemptStatus::PartialCharged || status
            == AttemptStatus::PartialChargedAndChargeable),
        settle_outcome(status) == LimitSettleOutcome::Voided <==> (status == AttemptStatus::Voided
            || status == AttemptStatus::VoidedPostCharge),
        settle_outcome(status) == LimitSettleOutcome::Refunded <==> status
            == AttemptStatus::AutoRefunded,
        settle_outcome_text(LimitSettleOutcome::Succeeded) == "succeeded"@,
        settle_outcome_text(LimitSettleOutcome::Failed) == "failed"@,
        settle_outcome_text(LimitSettleOutcome::Voided) == "voided"@,
        settle_outcome_text(LimitSettleOutcome::Refunded) == "refunded"@,
{
}

/// When limits are enabled and an attempt has come to one of its ends, the kept
/// reservation of its payment, and no other, is settled with the amounts given, and is
/// kept no longer.
pub proof fn law_end_of_an_attempt_settles(
    reservations: Map<Seq<char>, Seq<char>>,
    tx_id: Seq<char>,
    status: AttemptStatus,
    captured: Option<i64>,
    refunded: Option<i64>,
    other: Seq<char>,
)
    requires
        status == AttemptStatus::RouterDeclined || status == AttemptStatus::Charged || status
            == AttemptStatus::AutoRefunded || status == AttemptStatus::Voided || status
            == AttemptStatus::VoidedPostCharge || status == AttemptStatus::VoidFailed || status
            == AttemptStatus::CaptureFailed || status == AttemptStatus::Failure || status
            == AttemptStatus::PartialCharged || status == AttemptStatus::Expired,
    ensures
        ({
            let (kept, request) = settled(reservations, true, tx_id, status, captured, refunded);
            &&& request is Some <==> reservations.contains_key(tx_id)
            &&& request matches Some(request) ==> {
                &&& request.tx_id == tx_id
                &&& request.reservation_id == reservations[tx_id]
                &&& request.outcome == settle_outcome(status)
                &&& request.captured_amount_minor == captured
                &&& request.refunded_amount_minor == refunded
            }
            &&& !kept.contains_key(tx_id)
            &&& other != tx_id ==> {
                &&& kept.contains_key(other) <==> reservations.contains_key(other)
                &&& kept.contains_key(other) ==> kept[other] == reservations[other]
            }
        }),
{
}

/// What a check does with the decision on its charge. A reservation is kept for the
/// payment, and for no other. A block is recorded and reported. A question is passed
/// on. The breaker is that of the decision.
pub proof fn law_check_follows_the_decision(
    check: CheckView,
    breaker: BreakerView,
    reservations: Map<Seq<char>, Seq<char>>,
    event: CheckEvent,
    now: nat,
    decided: DecisionEvent,
    other: Seq<char>,
)
    requires
        event is ProviderBuilt ==> event == CheckEvent::ProviderBuilt(true) && decided
            == DecisionEvent::Started,
        event matches CheckEvent::HasLimits(reply) ==> decided == DecisionEvent::HasLimits(reply),
        event matches CheckEvent::Evaluated(reply) ==> decided == DecisionEvent::Evaluated(reply),
    ensures
        ({
            let (after, kept, step) = check.next(breaker, reservations, event, now);
            let (next, said) = decision::next_step(
                breaker,
                check.config,
                true,
                check.metadata,
                check.ctx,
                decided,
                now,
            );
            let tx_id = check.ctx.request.tx_id@;
            &&& after == next
            &&& said matches StepView::AskHasLimits { customer_ref } ==> step
                == (CheckStepView::AskHasLimits { customer_ref }) && kept == reservations
            &&& said matches StepView::AskEvaluate { request } ==> step
                == (CheckStepView::AskEvaluate { request }) && kept == reservations
            &&& said matches StepView::Decided(OutcomeView::Allow { reservation_id }) ==> {
                &&& step is Allowed
                &&& reservation_id is None ==> kept == reservations
                &&& reservation_id matches Some(handle) ==> {
                    &&& kept.contains_key(tx_id)
                    &&& kept[tx_id] == handle
                    &&& other != tx_id ==> {
                        &&& kept.contains_key(other) <==> reservations.contains_key(other)
                        &&& kept.contains_key(other) ==> kept[other] == reservations[other]
                    }
                }
            }
            &&& said matches StepView::Decided(OutcomeView::Block { reason, details }) ==> {
                &&& kept == reservations
                &&& step is Blocked
                &&& step->error.reason == decision::decline_reason_text(reason)
                &&& step->error.attempted_minor == check.ctx.request.amount_minor
                &&& step->record.attempt.error_reason == details
                &&& step->record.attempt.error_message == "Agentic spending limit exceeded: "@
                    + details
                &&& step->record.attempt.error_code == "AGENTIC_LIMIT_EXCEEDED"@
                &&& step->record.attempt.status == AttemptStatus::Failure
                &&& step->record.attempt.amount_capturable == 0
                &&& step->record.attempt.updated_by == check.storage_scheme
                &&& step->record.intent_updated_by == check.storage_scheme
                &&& step->record.intent_status == IntentStatus::Failed
                &&& step->record.feature_metadata == check.feature_metadata
                &&& !(event is Evaluated) || (event->Evaluated_0 is Err) ==> {
                    &&& step->error.scope == "unknown"@
                    &&& step->error.period == "unknown"@
                    &&& step->error.currency == check.ctx.request.currency.alpha_code()
                    &&& step->error.used_minor == 0
                    &&& step->error.max_minor == 0
                }
            }
        }),
{
}

/// Without a provider, a charge that is to be checked is blocked if the profile fails
/// closed, with the reason in the error and in the records; any other charge is
/// allowed. The breaker and the reservations stay as they are.
pub proof fn law_check_without_a_provider(
    check: CheckView,
    breaker: BreakerView,
    reservations: Map<Seq<char>, Seq<char>>,
    now: nat,
)
    ensures
        ({
            let (after, kept, step) = check.next(
                breaker,
                reservations,
                CheckEvent::ProviderBuilt(false),
                now,
            );
            let checked = check.metadata.agentic || !check.config.trigger_agentic_only;
            &&& after == breaker
            &&& kept == reservations
            &&& !checked || !check.config.fail_closed ==> step is Allowed
            &&& checked && check.config.fail_closed ==> {
                &&& step is Blocked
                &&& step->error.reason == "provider_unavailable"@
                &&& step->error.attempted_minor == check.ctx.request.amount_minor
                &&& step->record.attempt.error_reason == "limits provider unavailable ("@
                    + "provider_construction_failed"@ + "); fail-closed"@
                &&& step->record.attempt.status == AttemptStatus::Failure
                &&& step->record.attempt.updated_by == check.storage_scheme
                &&& step->record.intent_status == IntentStatus::Failed
                &&& step->record.intent_updated_by == check.storage_scheme
                &&& step->error.scope == "unknown"@
                &&& step->error.period == "unknown"@
                &&& step->error.currency == check.ctx.request.currency.alpha_code()
                &&& step->error.used_minor == 0
                &&& step->error.max_minor == 0
            }
        }),
{
}

/// What a breach holds, field by field: the limit as the provider reported it, and
/// nothing of a limit that was not reported.
pub proof fn law_breach_field_by_field(
    request: LimitsEvaluateRequest,
    response: LimitsEvaluateResponse,
    reason: LimitDeclineReason,
    details: Seq<char>,
)
    ensures
        ({
            let b = BreachView::of_response(request, response, reason, details);
            &&& b.reason == reason
            &&& b.details == details
            &&& response.scope matches Some(scope) ==> b.scope == scope@
            &&& response.scope is None ==> b.scope == "unknown"@
            &&& response.period matches Some(period) ==> b.period == period@
            &&& response.period is None ==> b.period == "unknown"@
            &&& response.currency matches Some(currency) ==> b.currency == currency.alpha_code()
            &&& response.currency is None ==> b.currency == request.currency.alpha_code()
            &&& response.used_minor matches Some(used) ==> b.used_minor == used
            &&& response.used_minor is None ==> b.used_minor == 0
            &&& response.max_minor matches Some(max) ==> b.max_minor == max
            &&& response.max_minor is None ==> b.max_minor == 0
            &&& b.attempted_minor == request.amount_minor
        }),
        ({
            let b = BreachView::of_request(request, reason, details);
            &&& b.reason == reason
            &&& b.details == details
            &&& b.scope == "unknown"@
            &&& b.period == "unknown"@
            &&& b.currency == request.currency.alpha_code()
            &&& b.used_minor == 0
            &&& b.max_minor == 0
            &&& b.attempted_minor == request.amount_minor
        }),
{
}

/// The error and the records of a breach say what the breach says.
pub proof fn law_breach_is_reported_and_recorded(
    breach: BreachView,
    updated_by: Seq<char>,
    feature_metadata: Option<String>,
)
    ensures
        ({
            let error = breach.api_error();
            &&& error.scope == breach.scope
            &&& error.period == breach.period
            &&& error.currency == breach.currency
            &&& error.used_minor == breach.used_minor
            &&& error.max_minor == breach.max_minor
            &&& error.attempted_minor == breach.attempted_minor
            &&& error.reason == decision::decline_reason_text(breach.reason)
        }),
        ({
            let record = breach.record(updated_by, feature_metadata);
            &&& record.attempt.status == AttemptStatus::Failure
            &&& record.attempt.error_code == "AGENTIC_LIMIT_EXCEEDED"@
            &&& record.attempt.error_message == "Agentic spending limit exceeded: "@
                + breach.details
            &&& record.attempt.error_reason == breach.details
            &&& record.attempt.amount_capturable == 0
            &&& record.attempt.updated_by == updated_by
            &&& record.intent_status == IntentStatus::Failed
            &&& record.intent_updated_by == updated_by
            &&& record.feature_metadata == feature_metadata
        }),
{
}

/// What is counted for a step of a check.
pub proof fn law_check_is_counted(check: CheckView, event: CheckEvent, ended: bool)
    ensures
        ({
            let counted = check.counted(event, ended);
            let checked = check.metadata.agentic || !check.config.trigger_agentic_only;
            let fail_mode = if check.config.fail_closed {
                LimitsMetric::FailClosed
            } else {
                LimitsMetric::FailOpen
            };
            &&& event is ProviderBuilt && !checked ==> counted == seq![
                LimitsMetric::SkippedNotTriggered,
            ]
            &&& event == CheckEvent::ProviderBuilt(true) && checked && ended ==> counted == seq![
                LimitsMetric::BreakerOpen,
                fail_mode,
            ]
            &&& event == CheckEvent::ProviderBuilt(true) && checked && !ended ==> counted
                == Seq::<LimitsMetric>::empty()
            &&& event == CheckEvent::ProviderBuilt(false) && checked ==> counted == Seq::<
                LimitsMetric,
            >::empty()
            &&& event matches CheckEvent::HasLimits(reply) ==> if reply is Ok && !reply->Ok_0 {
                counted == seq![LimitsMetric::FastpathNoLimits]
            } else {
                counted == Seq::<LimitsMetric>::empty()
            }
            &&& event matches CheckEvent::Evaluated(Ok(response)) ==> {
                &&& counted.len() == 1
                &&& response.decision == crate::limits::types::LimitDecision::Allow ==> counted[0]
                    == LimitsMetric::Allowed
                &&& response.decision == crate::limits::types::LimitDecision::Block ==> counted[0]
                    is Blocked
                &&& counted[0] matches LimitsMetric::Blocked { reason } ==> reason == (
                match response.reason {
                    Some(reason) => reason,
                    None => LimitDeclineReason::LimitExceeded,
                })
            }
            &&& event matches CheckEvent::Evaluated(Err(error)) ==> counted == seq![
                LimitsMetric::ProviderError { error },
                fail_mode,
            ]
        }),
{
}

/// Errors, breaches, records, settle requests and steps show all that they hold.
pub proof fn law_views_show_all_of_a_check(
    breach: LimitBreach,
    record: BlockRecord,
    request: LimitsSettleRequest,
    error: ApiErrorResponse,
    customer_ref: String,
    evaluate: LimitsEvaluateRequest,
)
    ensures
        ({
            let ApiErrorResponse::AgenticLimitExceeded {
                scope,
                period,
                currency,
                used_minor,
                max_minor,
                attempted_minor,
                reason,
            } = error;
            &&& error@.scope == scope@
            &&& error@.period == period@
            &&& error@.currency == currency@
            &&& error@.used_minor == used_minor
            &&& error@.max_minor == max_minor
            &&& error@.attempted_minor == attempted_minor
            &&& error@.reason == reason@
        }),
        breach@.reason == breach.reason,
        breach@.details == breach.details@,
        breach@.scope == breach.scope@,
        breach@.period == breach.period@,
        breach@.currency == breach.currency@,
        breach@.used_minor == breach.used_minor,
        breach@.max_minor == breach.max_minor,
        breach@.attempted_minor == breach.attempted_minor,
        record@.attempt.status == record.attempt.status,
        record@.attempt.error_code == record.attempt.error_code@,
        record@.attempt.error_message == record.attempt.error_message@,
        record@.attempt.error_reason == record.attempt.error_reason@,
        record@.attempt.amount_capturable == record.attempt.amount_capturable,
        record@.attempt.updated_by == record.attempt.updated_by@,
        record@.intent_status == record.intent.status,
        record@.intent_updated_by == record.intent.updated_by@,
        record@.feature_metadata == record.intent.feature_metadata,
        request@.tx_id == request.tx_id@,
        request@.reservation_id == request.reservation_id@,
        request@.outcome == request.outcome,
        request@.captured_amount_minor == request.captured_amount_minor,
        request@.refunded_amount_minor == request.refunded_amount_minor,
        settle_option(Some(request)) == Some(request@),
        settle_option(None) is None,
        (CheckStep::AskHasLimits { customer_ref })@ == (CheckStepView::AskHasLimits {
            customer_ref: customer_ref@,
        }),
        (CheckStep::AskEvaluate { request: evaluate })@ == (CheckStepView::AskEvaluate {
            request: evaluate,
        }),
        CheckStep::Allowed@ == CheckStepView::Allowed,
        (CheckStep::Blocked { record, error })@ == (CheckStepView::Blocked {
            record: record@,
            error: error@,
        }),
{
}

/// A payment has a reservation if and only if one is kept for it; and a check is over
/// if and only if the charge is allowed or blocked.
pub proof fn law_kept_reservations_and_ends(
    reservations: Map<Seq<char>, Seq<char>>,
    tx_id: Seq<char>,
    step: CheckStepView,
)
    ensures
        reserved(reservations, tx_id) is Some <==> reservations.contains_key(tx_id),
        reserved(reservations, tx_id) matches Some(handle) ==> handle == reservations[tx_id],
        step.is_end() <==> !(step is AskHasLimits) && !(step is AskEvaluate),
{
}

} // verus!
