//! The decision on one charge.
//!
//! The decision alternates with calls to the provider: [`LimitsDecisionService::decide`]
//! takes what happened last and says what to do next, until it has decided. It
//! applies the switch of the profile, the trigger rule, the circuit breaker, the
//! `has-limits` shortcut and the configured fail-mode, in that order.

use vstd::prelude::*;
use vstd::string::*;

use crate::clock::{self, Duration, Instant, MonotonicClock};
use crate::limits::circuit_breaker::{BreakerView, CircuitBreaker};
use crate::limits::config::LimitsProfileConfig;
use crate::limits::types::{
    clone_text, LimitDecision, LimitDeclineReason, LimitsEvaluateRequest, LimitsEvaluateResponse,
    LimitsProviderError,
};
use crate::text;

verus! {

/// What is known of a charge when it is decided whether limits apply at all.
#[derive(Clone, Copy, Debug)]
pub struct LimitsMetadata {
    /// Whether the charge was made by an agent.
    pub agentic: bool,
}

impl Default for LimitsMetadata {
    fn default() -> (r: LimitsMetadata)
        ensures
            !r.agentic,
    {
        LimitsMetadata { agentic: false }
    }
}

/// Everything that is needed to evaluate one charge.
#[derive(Debug)]
pub struct LimitsEvaluateContext {
    /// The request for the provider's `evaluate`.
    pub request: LimitsEvaluateRequest,
    /// The customer that `has-limits` is asked about.
    pub customer_ref: String,
}

impl Clone for LimitsEvaluateContext {
    fn clone(&self) -> (r: LimitsEvaluateContext)
        ensures
            r == *self,
    {
        LimitsEvaluateContext {
            request: self.request.clone(),
            customer_ref: self.customer_ref.clone(),
        }
    }
}

impl LimitsEvaluateContext {
    /// The context of a request, with the payment method as the customer.
    pub fn from_request(request: LimitsEvaluateRequest) -> (r: LimitsEvaluateContext)
        ensures
            r.request == request,
            r.customer_ref == request.payment_method_id,
    {
        let customer_ref = request.payment_method_id.clone();
        LimitsEvaluateContext { request, customer_ref }
    }
}

/// The result of a limits check.
#[derive(Debug, PartialEq, Eq)]
pub enum LimitsOutcome {
    /// The charge may proceed.
    Allow {
        /// The handle of the reservation, if the provider made one.
        reservation_id: Option<String>,
    },
    /// The charge is blocked.
    Block {
        reason: LimitDeclineReason,
        /// The reason in words.
        details: String,
    },
}

/// The result of a limits check, with its texts as characters.
pub enum OutcomeView {
    Allow { reservation_id: Option<Seq<char>> },
    Block { reason: LimitDeclineReason, details: Seq<char> },
}

/// The characters of an optional string.
pub open spec fn text_option(value: Option<String>) -> Option<Seq<char>> {
    match value {
        Some(value) => Some(value@),
        None => None,
    }
}

impl View for LimitsOutcome {
    type V = OutcomeView;

    open spec fn view(&self) -> OutcomeView {
        match self {
            LimitsOutcome::Allow { reservation_id } => OutcomeView::Allow {
                reservation_id: text_option(*reservation_id),
            },
            LimitsOutcome::Block { reason, details } => OutcomeView::Block {
                reason: *reason,
                details: details@,
            },
        }
    }
}

impl Clone for LimitsOutcome {
    fn clone(&self) -> (r: LimitsOutcome)
        ensures
            r == *self,
    {
        match self {
            LimitsOutcome::Allow { reservation_id } => LimitsOutcome::Allow {
                reservation_id: clone_text(reservation_id),
            },
            LimitsOutcome::Block { reason, details } => LimitsOutcome::Block {
                reason: *reason,
                details: details.clone(),
            },
        }
    }
}

impl OutcomeView {
    /// The charge may proceed, and nothing was reserved.
    pub open spec fn allow_no_reservation() -> OutcomeView {
        OutcomeView::Allow { reservation_id: None }
    }
}

impl LimitsOutcome {
    /// The charge may proceed, and nothing was reserved.
    pub fn allow_no_reservation() -> (r: LimitsOutcome)
        ensures
            r@ == OutcomeView::allow_no_reservation(),
    {
        LimitsOutcome::Allow { reservation_id: None }
    }
}

/// What happened last in a decision.
#[derive(Debug)]
pub enum DecisionEvent {
    /// The decision begins.
    Started,
    /// The provider was asked whether there are limits.
    HasLimits(Result<bool, LimitsProviderError>),
    /// The provider was asked to evaluate the charge.
    Evaluated(Result<LimitsEvaluateResponse, LimitsProviderError>),
}

impl Clone for DecisionEvent {
    fn clone(&self) -> (r: DecisionEvent)
        ensures
            r == *self,
    {
        match self {
            DecisionEvent::Started => DecisionEvent::Started,
            DecisionEvent::HasLimits(Ok(reply)) => DecisionEvent::HasLimits(Ok(*reply)),
            DecisionEvent::HasLimits(Err(error)) => DecisionEvent::HasLimits(Err(error.clone())),
            DecisionEvent::Evaluated(Ok(response)) => {
                DecisionEvent::Evaluated(Ok(response.clone()))
            },
            DecisionEvent::Evaluated(Err(error)) => DecisionEvent::Evaluated(Err(error.clone())),
        }
    }
}

/// What is to be done next in a decision.
#[derive(Debug)]
pub enum DecisionStep {
    /// The charge is decided.
    Decided(LimitsOutcome),
    /// Ask the provider whether there are limits for the customer.
    AskHasLimits { customer_ref: String },
    /// Ask the provider to evaluate the charge.
    AskEvaluate { request: LimitsEvaluateRequest },
}

/// What is to be done next, with its texts as characters.
pub enum StepView {
    Decided(OutcomeView),
    AskHasLimits { customer_ref: Seq<char> },
    AskEvaluate { request: LimitsEvaluateRequest },
}

impl View for DecisionStep {
    type V = StepView;

    open spec fn view(&self) -> StepView {
        match self {
            DecisionStep::Decided(outcome) => StepView::Decided(outcome@),
            DecisionStep::AskHasLimits { customer_ref } => StepView::AskHasLimits {
                customer_ref: customer_ref@,
            },
            DecisionStep::AskEvaluate { request } => StepView::AskEvaluate { request: *request },
        }
    }
}

/// The label of a decline reason.
pub open spec fn decline_reason_text(reason: LimitDeclineReason) -> Seq<char> {
    match reason {
        LimitDeclineReason::LimitExceeded => "limit_exceeded"@,
        LimitDeclineReason::FxUnavailable => "fx_unavailable"@,
        LimitDeclineReason::NotEnabled => "not_enabled"@,
        LimitDeclineReason::ProviderUnavailable => "provider_unavailable"@,
    }
}

/// The label of a provider error.
pub open spec fn provider_error_text(error: LimitsProviderError) -> Seq<char> {
    match error {
        LimitsProviderError::Timeout => "timeout"@,
        LimitsProviderError::Http { .. } => "http"@,
        LimitsProviderError::Decode(_) => "decode"@,
        LimitsProviderError::Unavailable(_) => "unavailable"@,
    }
}

/// The words for a provider that is unavailable for `cause`.
pub open spec fn unavailable_text(cause: Seq<char>) -> Seq<char> {
    "limits provider unavailable ("@ + cause + "); fail-closed"@
}

/// An optional detail with the words in front of it, or nothing.
pub open spec fn detail_text(words: Seq<char>, detail: Option<String>) -> Seq<char> {
    match detail {
        Some(detail) => words + detail@,
        None => Seq::empty(),
    }
}

/// The words for a charge that the provider blocked.
pub open spec fn block_text(
    response: LimitsEvaluateResponse,
    reason: LimitDeclineReason,
) -> Seq<char> {
    let head = "blocked: "@ + decline_reason_text(reason);
    match (response.used_minor, response.max_minor) {
        (Some(used), Some(max)) => head + " (used "@ + text::int_text(used as int) + " of "@
            + text::int_text(max as int) + detail_text(", scope "@, response.scope)
            + detail_text(", period "@, response.period) + ")"@,
        _ => head,
    }
}

/// The outcome when the provider is unavailable for `cause`.
pub open spec fn fail_mode(fail_closed: bool, cause: Seq<char>) -> OutcomeView {
    if fail_closed {
        OutcomeView::Block {
            reason: LimitDeclineReason::ProviderUnavailable,
            details: unavailable_text(cause),
        }
    } else {
        OutcomeView::allow_no_reservation()
    }
}

/// The outcome of a response.
pub open spec fn response_outcome(response: LimitsEvaluateResponse) -> OutcomeView {
    match response.decision {
        LimitDecision::Allow => OutcomeView::Allow {
            reservation_id: text_option(response.reservation_id),
        },
        LimitDecision::Block => {
            let reason = match response.reason {
                Some(reason) => reason,
                None => LimitDeclineReason::LimitExceeded,
            };
            OutcomeView::Block { reason, details: block_text(response, reason) }
        },
    }
}

/// Whether limits are checked for a charge.
pub open spec fn triggered(config: LimitsProfileConfig, metadata: LimitsMetadata) -> bool {
    config.trigger_agentic_only ==> metadata.agentic
}

/// The breaker after `event` at the moment `now`, and what is to be done next.
pub open spec fn next_step(
    breaker: BreakerView,
    config: LimitsProfileConfig,
    enabled: bool,
    metadata: LimitsMetadata,
    ctx: LimitsEvaluateContext,
    event: DecisionEvent,
    now: nat,
) -> (BreakerView, StepView) {
    match event {
        DecisionEvent::Started => if !enabled || !triggered(config, metadata) {
            (breaker, StepView::Decided(OutcomeView::allow_no_reservation()))
        } else if breaker.is_open_at(now) {
            (breaker, StepView::Decided(fail_mode(config.fail_closed, "circuit_breaker_open"@)))
        } else {
            (
                breaker.checked_at(now),
                StepView::AskHasLimits { customer_ref: ctx.customer_ref@ },
            )
        },
        DecisionEvent::HasLimits(reply) => if reply == Ok::<bool, LimitsProviderError>(false) {
            (breaker, StepView::Decided(OutcomeView::allow_no_reservation()))
        } else {
            (breaker, StepView::AskEvaluate { request: ctx.request })
        },
        DecisionEvent::Evaluated(Ok(response)) => (
            breaker.succeeded(),
            StepView::Decided(response_outcome(response)),
        ),
        DecisionEvent::Evaluated(Err(error)) => (
            breaker.failed_at(now),
            StepView::Decided(fail_mode(config.fail_closed, provider_error_text(error))),
        ),
    }
}

/// The label of a decline reason, as metrics, logs and API errors carry it.
pub fn decline_reason_label(reason: LimitDeclineReason) -> (r: &'static str)
    ensures
        r@ == decline_reason_text(reason),
{
    match reason {
        LimitDeclineReason::LimitExceeded => "limit_exceeded",
        LimitDeclineReason::FxUnavailable => "fx_unavailable",
        LimitDeclineReason::NotEnabled => "not_enabled",
        LimitDeclineReason::ProviderUnavailable => "provider_unavailable",
    }
}

/// The label of a provider error.
pub fn provider_error_label(error: &LimitsProviderError) -> (r: &'static str)
    ensures
        r@ == provider_error_text(*error),
{
    match error {
        LimitsProviderError::Timeout => "timeout",
        LimitsProviderError::Http { .. } => "http",
        LimitsProviderError::Decode(_) => "decode",
        LimitsProviderError::Unavailable(_) => "unavailable",
    }
}

/// The words for a provider that is unavailable for `cause`.
pub fn unavailable_details(cause: &str) -> (r: String)
    ensures
        r@ == unavailable_text(cause@),
{
    let mut details = "limits provider unavailable (".to_owned();
    details.append(cause);
    details.append("); fail-closed");
    details
}

/// The words for a charge that the provider blocked: the reason, and, where the
/// provider gave them, how much of the limit is used, and the limit's scope and
/// period.
pub fn format_block_details(
    response: &LimitsEvaluateResponse,
    reason: LimitDeclineReason,
) -> (r: String)
    ensures
        r@ == block_text(*response, reason),
{
    let mut details = text::joined("blocked: ", decline_reason_label(reason));
    if let (Some(used), Some(max)) = (response.used_minor, response.max_minor) {
        details.append(" (used ");
        details.append(text::i64_text(used).as_str());
        details.append(" of ");
        details.append(text::i64_text(max).as_str());
        let ghost before_scope = details@;
        if let Some(scope) = &response.scope {
            details.append(", scope ");
            details.append(scope.as_str());
        }
        assert(details@ =~= before_scope + detail_text(", scope "@, response.scope));
        let ghost before_period = details@;
        if let Some(period) = &response.period {
            details.append(", period ");
            details.append(period.as_str());
        }
        assert(details@ =~= before_period + detail_text(", period "@, response.period));
        details.append(")");
    }
    details
}

/// Decides charges, one at a time. The circuit breaker lives as long as the
/// service, so that its count of failures spans decisions.
#[derive(Debug)]
pub struct LimitsDecisionService {
    breaker: CircuitBreaker,
}

impl View for LimitsDecisionService {
    type V = BreakerView;

    closed spec fn view(&self) -> BreakerView {
        self.breaker@
    }
}

impl LimitsDecisionService {
    /// The clock of the breaker, which runs on from when the service was made.
    pub closed spec fn spec_clock(self) -> MonotonicClock {
        self.breaker.spec_clock()
    }

    /// A service whose breaker opens after `circuit_breaker_threshold`
    /// consecutive failures, for `breaker_cooldown_secs` seconds.
    pub fn new(
        circuit_breaker_threshold: u32,
        breaker_cooldown_secs: u64,
    ) -> (r: LimitsDecisionService)
        ensures
            r@ == BreakerView::fresh(
                circuit_breaker_threshold as nat,
                (breaker_cooldown_secs * 1_000_000_000) as nat,
            ),
    {
        LimitsDecisionService {
            breaker: CircuitBreaker::new(
                circuit_breaker_threshold,
                Duration::from_secs(breaker_cooldown_secs),
            ),
        }
    }

    /// The present moment on the clock of the service.
    pub(crate) fn now(&self) -> (r: Instant)
        ensures
            r@ <= clock::MAX_NANOS,
    {
        self.breaker.now()
    }

    /// Whether limits are checked for a charge: for the charges of agents only,
    /// unless the profile asks for all.
    pub fn should_check_limits(
        &self,
        config: &LimitsProfileConfig,
        metadata: &LimitsMetadata,
    ) -> (r: bool)
        ensures
            r == triggered(*config, *metadata),
    {
        if config.trigger_agentic_only {
            metadata.agentic
        } else {
            true
        }
    }

    /// Takes what happened last in the decision on a charge, and says what is to
    /// be done next.
    ///
    /// 1. A charge that is not to be checked is allowed, without a call.
    /// 2. While the breaker is open, the fail-mode decides, without a call.
    /// 3. A customer without limits is allowed. If that could not be found out,
    ///    the charge is evaluated all the same.
    /// 4. The reply to `evaluate` decides; if the call failed, the fail-mode does.
    pub fn decide(
        &mut self,
        config: &LimitsProfileConfig,
        enabled: bool,
        metadata: &LimitsMetadata,
        ctx: &LimitsEvaluateContext,
        event: DecisionEvent,
    ) -> (r: DecisionStep)
        ensures
            final(self).spec_clock() == old(self).spec_clock(),
            exists|now: nat|
                now <= clock::MAX_NANOS && (final(self)@, r@) == #[trigger] next_step(
                    old(self)@,
                    *config,
                    enabled,
                    *metadata,
                    *ctx,
                    event,
                    now,
                ),
    {
        let now = self.now();
        self.decide_at(config, enabled, metadata, ctx, event, now)
    }

    /// [`decide`](LimitsDecisionService::decide), at the moment `now`.
    pub fn decide_at(
        &mut self,
        config: &LimitsProfileConfig,
        enabled: bool,
        metadata: &LimitsMetadata,
        ctx: &LimitsEvaluateContext,
        event: DecisionEvent,
        now: Instant,
    ) -> (r: DecisionStep)
        ensures
            final(self).spec_clock() == old(self).spec_clock(),
            (final(self)@, r@) == next_step(
                old(self)@,
                *config,
                enabled,
                *metadata,
                *ctx,
                event,
                now@,
            ),
    {
        match event {
            DecisionEvent::Started => {
                if !enabled || !self.should_check_limits(config, metadata) {
                    return DecisionStep::Decided(LimitsOutcome::allow_no_reservation());
                }
                if self.breaker.is_open_at(now) {
                    return DecisionStep::Decided(
                        self.fail_mode_outcome(config, "circuit_breaker_open"),
                    );
                }
                DecisionStep::AskHasLimits { customer_ref: ctx.customer_ref.clone() }
            },
            DecisionEvent::HasLimits(reply) => {
                if let Ok(false) = reply {
                    DecisionStep::Decided(LimitsOutcome::allow_no_reservation())
                } else {
                    // Neither a yes nor a failed question counts for the breaker:
                    // otherwise each question would reset the count of failures.
                    DecisionStep::AskEvaluate { request: ctx.request.clone() }
                }
            },
            DecisionEvent::Evaluated(Ok(response)) => {
                self.breaker.record_success();
                DecisionStep::Decided(self.map_evaluate_response(response))
            },
            DecisionEvent::Evaluated(Err(error)) => {
                self.breaker.record_failure_at(now);
                DecisionStep::Decided(self.handle_provider_error(config, error))
            },
        }
    }

    /// The outcome of a response.
    pub fn map_evaluate_response(&self, response: LimitsEvaluateResponse) -> (r: LimitsOutcome)
        ensures
            r@ == response_outcome(response),
    {
        match response.decision {
            LimitDecision::Allow => LimitsOutcome::Allow {
                reservation_id: response.reservation_id,
            },
            LimitDecision::Block => {
                let reason = match response.reason {
                    Some(reason) => reason,
                    None => LimitDeclineReason::LimitExceeded,
                };
                let details = format_block_details(&response, reason);
                LimitsOutcome::Block { reason, details }
            },
        }
    }

    /// The outcome when a call to the provider failed.
    pub fn handle_provider_error(
        &self,
        config: &LimitsProfileConfig,
        error: LimitsProviderError,
    ) -> (r: LimitsOutcome)
        ensures
            r@ == fail_mode(config.fail_closed, provider_error_text(error)),
    {
        self.fail_mode_outcome(config, provider_error_label(&error))
    }

    /// The outcome when the provider is unavailable for `cause`: blocked if the
    /// profile fails closed, allowed if it fails open.
    pub fn fail_mode_outcome(&self, config: &LimitsProfileConfig, cause: &str) -> (r: LimitsOutcome)
        ensures
            r@ == fail_mode(config.fail_closed, cause@),
    {
        if config.fail_closed {
            LimitsOutcome::Block {
                reason: LimitDeclineReason::ProviderUnavailable,
                details: unavailable_details(cause),
            }
        } else {
            LimitsOutcome::allow_no_reservation()
        }
    }
}

/// What the provider would reply in one decision, and when.
pub struct Replies {
    /// When the decision begins.
    pub started: nat,
    pub has_limits: Result<bool, LimitsProviderError>,
    pub evaluated: Result<LimitsEvaluateResponse, LimitsProviderError>,
    /// When the reply to `evaluate` is there.
    pub answered: nat,
}

/// A whole decision: its outcome, the calls that were made, and the breaker
/// afterwards.
pub struct DecisionRun {
    pub outcome: OutcomeView,
    pub asked_has_limits: bool,
    pub asked_evaluate: bool,
    pub breaker: BreakerView,
}

/// The decision on a charge, with the replies that the provider would give.
pub open spec fn decision_run(
    breaker: BreakerView,
    config: LimitsProfileConfig,
    enabled: bool,
    metadata: LimitsMetadata,
    ctx: LimitsEvaluateContext,
    replies: Replies,
) -> DecisionRun {
    let (b1, s1) = next_step(
        breaker,
        config,
        enabled,
        metadata,
        ctx,
        DecisionEvent::Started,
        replies.started,
    );
    match s1 {
        StepView::Decided(outcome) => DecisionRun {
            outcome,
            asked_has_limits: false,
            asked_evaluate: false,
            breaker: b1,
        },
        _ => {
            let (b2, s2) = next_step(
                b1,
                config,
                enabled,
                metadata,
                ctx,
                DecisionEvent::HasLimits(replies.has_limits),
                replies.started,
            );
            match s2 {
                StepView::Decided(outcome) => DecisionRun {
                    outcome,
                    asked_has_limits: true,
                    asked_evaluate: false,
                    breaker: b2,
                },
                _ => {
                    let (b3, s3) = next_step(
                        b2,
                        config,
                        enabled,
                        metadata,
                        ctx,
                        DecisionEvent::Evaluated(replies.evaluated),
                        replies.answered,
                    );
                    DecisionRun {
                        outcome: s3->Decided_0,
                        asked_has_limits: true,
                        asked_evaluate: true,
                        breaker: b3,
                    }
                },
            }
        },
    }
}

/// The breaker after one decision for each of `replies`, in order.
pub open spec fn breaker_after_runs(
    breaker: BreakerView,
    config: LimitsProfileConfig,
    metadata: LimitsMetadata,
    ctx: LimitsEvaluateContext,
    replies: Seq<Replies>,
) -> BreakerView
    decreases replies.len(),
{
    if replies.len() == 0 {
        breaker
    } else {
        decision_run(
            breaker_after_runs(breaker, config, metadata, ctx, replies.drop_last()),
            config,
            true,
            metadata,
            ctx,
            replies.last(),
        ).breaker
    }
}

/// A decision ends after at most three steps: first the customer is asked about,
/// then the request is evaluated, exactly as the context has them, and the reply
/// to that decides.
pub proof fn law_decision_ends(
    breaker: BreakerView,
    config: LimitsProfileConfig,
    enabled: bool,
    metadata: LimitsMetadata,
    ctx: LimitsEvaluateContext,
    event: DecisionEvent,
    now: nat,
)
    ensures
        ({
            let step = next_step(breaker, config, enabled, metadata, ctx, event, now).1;
            match event {
                DecisionEvent::Started => step is Decided || step == (StepView::AskHasLimits {
                    customer_ref: ctx.customer_ref@,
                }),
                DecisionEvent::HasLimits(_) => step is Decided || step == (StepView::AskEvaluate {
                    request: ctx.request,
                }),
                DecisionEvent::Evaluated(_) => step is Decided,
            }
        }),
{
}

/// A charge on a profile without limits, or that the trigger rule leaves out, is
/// allowed without a call, and leaves the breaker as it is.
pub proof fn law_charge_that_is_not_checked_passes(
    breaker: BreakerView,
    config: LimitsProfileConfig,
    enabled: bool,
    metadata: LimitsMetadata,
    ctx: LimitsEvaluateContext,
    replies: Replies,
)
    requires
        !enabled || (config.trigger_agentic_only && !metadata.agentic),
    ensures
        ({
            let run = decision_run(breaker, config, enabled, metadata, ctx, replies);
            &&& run.outcome == OutcomeView::allow_no_reservation()
            &&& !run.asked_has_limits
            &&& !run.asked_evaluate
            &&& run.breaker == breaker
        }),
{
}

/// While the breaker is open, a checked charge is decided by the fail-mode, and
/// the provider is not called.
pub proof fn law_open_breaker_spares_the_provider(
    breaker: BreakerView,
    config: LimitsProfileConfig,
    metadata: LimitsMetadata,
    ctx: LimitsEvaluateContext,
    replies: Replies,
)
    requires
        triggered(config, metadata),
        breaker.is_open_at(replies.started),
    ensures
        ({
            let run = decision_run(breaker, config, true, metadata, ctx, replies);
            &&& run.outcome == fail_mode(config.fail_closed, "circuit_breaker_open"@)
            &&& !run.asked_has_limits
            &&& !run.asked_evaluate
            &&& run.breaker == breaker
        }),
{
}

/// A customer without limits is allowed, and the charge is not evaluated.
pub proof fn law_no_limits_skips_evaluate(
    breaker: BreakerView,
    config: LimitsProfileConfig,
    metadata: LimitsMetadata,
    ctx: LimitsEvaluateContext,
    replies: Replies,
)
    requires
        triggered(config, metadata),
        !breaker.is_open_at(replies.started),
        replies.has_limits == Ok::<bool, LimitsProviderError>(false),
    ensures
        ({
            let run = decision_run(breaker, config, true, metadata, ctx, replies);
            &&& run.outcome == OutcomeView::allow_no_reservation()
            &&& run.asked_has_limits
            &&& !run.asked_evaluate
            &&& run.breaker == breaker.checked_at(replies.started)
        }),
{
}

/// If the question for limits fails, the charge is evaluated as if the answer
/// had been yes.
pub proof fn law_failed_question_is_taken_as_yes(
    breaker: BreakerView,
    config: LimitsProfileConfig,
    enabled: bool,
    metadata: LimitsMetadata,
    ctx: LimitsEvaluateContext,
    replies: Replies,
)
    requires
        replies.has_limits is Err,
    ensures
        decision_run(breaker, config, enabled, metadata, ctx, replies) == decision_run(
            breaker,
            config,
            enabled,
            metadata,
            ctx,
            Replies { has_limits: Ok(true), ..replies },
        ),
{
}

/// When the evaluation of a charge fails, a profile that fails closed blocks the
/// charge as `ProviderUnavailable`, and one that fails open allows it.
pub proof fn law_failed_evaluation_obeys_the_fail_mode(
    breaker: BreakerView,
    config: LimitsProfileConfig,
    enabled: bool,
    metadata: LimitsMetadata,
    ctx: LimitsEvaluateContext,
    replies: Replies,
)
    requires
        decision_run(breaker, config, enabled, metadata, ctx, replies).asked_evaluate,
        replies.evaluated is Err,
    ensures
        ({
            let outcome = decision_run(breaker, config, enabled, metadata, ctx, replies).outcome;
            if config.fail_closed {
                outcome matches OutcomeView::Block { reason, .. } && reason
                    == LimitDeclineReason::ProviderUnavailable
            } else {
                outcome == OutcomeView::allow_no_reservation()
            }
        }),
{
}

/// A profile that fails closed lets a charge through only if it is not checked,
/// if the provider said that there are no limits, or if the provider allowed it.
pub proof fn law_fail_closed_allows_only_on_word(
    breaker: BreakerView,
    config: LimitsProfileConfig,
    metadata: LimitsMetadata,
    ctx: LimitsEvaluateContext,
    replies: Replies,
)
    requires
        config.fail_closed,
        triggered(config, metadata),
        decision_run(breaker, config, true, metadata, ctx, replies).outcome is Allow,
    ensures
        ({
            let run = decision_run(breaker, config, true, metadata, ctx, replies);
            ||| run.asked_has_limits && replies.has_limits == Ok::<bool, LimitsProviderError>(false)
            ||| run.asked_evaluate && (replies.evaluated matches Ok(response) && response.decision
                == LimitDecision::Allow)
        }),
{
}

/// Only the evaluation of a charge counts for the breaker: a success starts it
/// over, and a failure is one more in a row.
pub proof fn law_only_evaluate_drives_the_breaker(
    breaker: BreakerView,
    config: LimitsProfileConfig,
    enabled: bool,
    metadata: LimitsMetadata,
    ctx: LimitsEvaluateContext,
    replies: Replies,
)
    ensures
        ({
            let run = decision_run(breaker, config, enabled, metadata, ctx, replies);
            if run.asked_evaluate {
                run.breaker == match replies.evaluated {
                    Ok(_) => breaker.succeeded(),
                    Err(_) => breaker.checked_at(replies.started).failed_at(replies.answered),
                }
            } else {
                run.breaker.consecutive_failures == breaker.consecutive_failures
            }
        }),
{
}

proof fn lemma_failing_runs(
    threshold: nat,
    cooldown: nat,
    config: LimitsProfileConfig,
    metadata: LimitsMetadata,
    ctx: LimitsEvaluateContext,
    replies: Seq<Replies>,
)
    requires
        triggered(config, metadata),
        replies.len() <= threshold <= u32::MAX,
        forall|i: int|
            0 <= i < replies.len() ==> (#[trigger] replies[i]).evaluated is Err
                && replies[i].has_limits != Ok::<bool, LimitsProviderError>(false),
    ensures
        ({
            let breaker = breaker_after_runs(
                BreakerView::fresh(threshold, cooldown),
                config,
                metadata,
                ctx,
                replies,
            );
            &&& breaker.threshold == threshold
            &&& breaker.cooldown == cooldown
            &&& breaker.consecutive_failures == replies.len()
            &&& breaker.open_until == if replies.len() > 0 && replies.len() == threshold {
                Some(replies.last().answered + cooldown)
            } else {
                None
            }
        }),
    decreases replies.len(),
{
    if replies.len() > 0 {
        let earlier = replies.drop_last();
        assert forall|i: int| 0 <= i < earlier.len() implies (#[trigger] earlier[i]).evaluated is Err
            && earlier[i].has_limits != Ok::<bool, LimitsProviderError>(false) by {
            assert(earlier[i] == replies[i]);
        }
        lemma_failing_runs(threshold, cooldown, config, metadata, ctx, earlier);
        assert(replies.last() == replies[replies.len() - 1]);
    }
}

/// When as many evaluations in a row fail as the threshold says, each of them
/// reached the provider, and the next charge within the cooldown does not.
pub proof fn law_sustained_failures_open_the_breaker(
    threshold: nat,
    cooldown: nat,
    config: LimitsProfileConfig,
    metadata: LimitsMetadata,
    ctx: LimitsEvaluateContext,
    failures: Seq<Replies>,
    next: Replies,
)
    requires
        triggered(config, metadata),
        0 < failures.len() == threshold <= u32::MAX,
        forall|i: int|
            0 <= i < failures.len() ==> (#[trigger] failures[i]).evaluated is Err
                && failures[i].has_limits != Ok::<bool, LimitsProviderError>(false),
        next.started < failures.last().answered + cooldown,
    ensures
        ({
            let fresh = BreakerView::fresh(threshold, cooldown);
            let run = decision_run(
                breaker_after_runs(fresh, config, metadata, ctx, failures),
                config,
                true,
                metadata,
                ctx,
                next,
            );
            &&& forall|i: int|
                0 <= i < failures.len() ==> decision_run(
                    breaker_after_runs(fresh, config, metadata, ctx, failures.take(i)),
                    config,
                    true,
                    metadata,
                    ctx,
                    #[trigger] failures[i],
                ).asked_evaluate
            &&& !run.asked_has_limits
            &&& !run.asked_evaluate
            &&& run.outcome == fail_mode(config.fail_closed, "circuit_breaker_open"@)
        }),
{
    lemma_failing_runs(threshold, cooldown, config, metadata, ctx, failures);
    assert forall|i: int| 0 <= i < failures.len() implies decision_run(
        breaker_after_runs(
            BreakerView::fresh(threshold, cooldown),
            config,
            metadata,
            ctx,
            failures.take(i),
        ),
        config,
        true,
        metadata,
        ctx,
        #[trigger] failures[i],
    ).asked_evaluate by {
        let earlier = failures.take(i);
        assert forall|j: int| 0 <= j < earlier.len() implies (#[trigger] earlier[j]).evaluated is Err
            && earlier[j].has_limits != Ok::<bool, LimitsProviderError>(false) by {
            assert(earlier[j] == failures[j]);
        }
        lemma_failing_runs(threshold, cooldown, config, metadata, ctx, earlier);
    }
}

/// The label of a decline reason tells which reason it is.
pub proof fn law_decline_labels_are_distinct(a: LimitDeclineReason, b: LimitDeclineReason)
    requires
        decline_reason_text(a) == decline_reason_text(b),
    ensures
        a == b,
{
    reveal_strlit("limit_exceeded");
    reveal_strlit("fx_unavailable");
    reveal_strlit("not_enabled");
    reveal_strlit("provider_unavailable");
    assert("limit_exceeded"@[0] == 'l');
    assert("fx_unavailable"@[0] == 'f');
    assert("not_enabled"@[0] == 'n');
    assert("provider_unavailable"@[0] == 'p');
}

/// A charge is checked if an agent made it, or if the profile has all charges
/// checked, and not otherwise.
pub proof fn law_trigger_rule(config: LimitsProfileConfig, metadata: LimitsMetadata)
    ensures
        metadata.agentic ==> triggered(config, metadata),
        !config.trigger_agentic_only ==> triggered(config, metadata),
        config.trigger_agentic_only && !metadata.agentic ==> !triggered(config, metadata),
{
}

/// How a decision begins. A charge that is not checked is allowed. While the breaker
/// is open, the fail-mode decides. In every other case the provider is asked about
/// the customer.
pub proof fn law_decision_begins(
    breaker: BreakerView,
    config: LimitsProfileConfig,
    enabled: bool,
    metadata: LimitsMetadata,
    ctx: LimitsEvaluateContext,
    now: nat,
)
    ensures
        ({
            let (after, step) = next_step(
                breaker,
                config,
                enabled,
                metadata,
                ctx,
                DecisionEvent::Started,
                now,
            );
            let checked = enabled && (metadata.agentic || !config.trigger_agentic_only);
            let open = breaker.open_until is Some && now < breaker.open_until->0;
            &&& !checked ==> {
                &&& step == StepView::Decided(OutcomeView::Allow { reservation_id: None })
                &&& after == breaker
            }
            &&& checked && open && config.fail_closed ==> {
                &&& step == StepView::Decided(
                    OutcomeView::Block {
                        reason: LimitDeclineReason::ProviderUnavailable,
                        details: "limits provider unavailable ("@ + "circuit_breaker_open"@
                            + "); fail-closed"@,
                    },
                )
                &&& after == breaker
            }
            &&& checked && open && !config.fail_closed ==> {
                &&& step == StepView::Decided(OutcomeView::Allow { reservation_id: None })
                &&& after == breaker
            }
            &&& checked && !open ==> {
                &&& step == (StepView::AskHasLimits { customer_ref: ctx.customer_ref@ })
                &&& after.consecutive_failures == breaker.consecutive_failures
                &&& after.open_until is None
                &&& after.threshold == breaker.threshold
                &&& after.cooldown == breaker.cooldown
            }
        }),
{
}

/// How a decision goes on once the provider was asked about the customer: without
/// limits the charge is allowed, and in every other case it is evaluated, exactly as
/// it was requested. The breaker stays as it is.
pub proof fn law_decision_goes_on(
    breaker: BreakerView,
    config: LimitsProfileConfig,
    enabled: bool,
    metadata: LimitsMetadata,
    ctx: LimitsEvaluateContext,
    reply: Result<bool, LimitsProviderError>,
    now: nat,
)
    ensures
        ({
            let (after, step) = next_step(
                breaker,
                config,
                enabled,
                metadata,
                ctx,
                DecisionEvent::HasLimits(reply),
                now,
            );
            &&& after == breaker
            &&& reply is Ok && !reply->Ok_0 ==> step == StepView::Decided(
                OutcomeView::Allow { reservation_id: None },
            )
            &&& reply is Err || reply->Ok_0 ==> step == (StepView::AskEvaluate {
                request: ctx.request,
            })
        }),
{
}

/// How a decision ends once the charge was evaluated: as the provider decided, with
/// its reservation or its reason, or by the fail-mode. A reply closes the breaker,
/// and a failure counts for it.
pub proof fn law_evaluation_decides(
    breaker: BreakerView,
    config: LimitsProfileConfig,
    enabled: bool,
    metadata: LimitsMetadata,
    ctx: LimitsEvaluateContext,
    reply: Result<LimitsEvaluateResponse, LimitsProviderError>,
    now: nat,
)
    ensures
        ({
            let (after, step) = next_step(
                breaker,
                config,
                enabled,
                metadata,
                ctx,
                DecisionEvent::Evaluated(reply),
                now,
            );
            &&& step is Decided
            &&& reply matches Ok(response) ==> {
                &&& after.consecutive_failures == 0
                &&& after.open_until is None
                &&& after.threshold == breaker.threshold
                &&& after.cooldown == breaker.cooldown
                &&& response.decision == LimitDecision::Allow ==> {
                    &&& response.reservation_id matches Some(handle) ==> step
                        == StepView::Decided(OutcomeView::Allow { reservation_id: Some(handle@) })
                    &&& response.reservation_id is None ==> step == StepView::Decided(
                        OutcomeView::Allow { reservation_id: None },
                    )
                }
                &&& response.decision == LimitDecision::Block ==> {
                    &&& step->Decided_0 is Block
                    &&& response.reason matches Some(reason) ==> step->Decided_0->reason == reason
                    &&& response.reason is None ==> step->Decided_0->reason
                        == LimitDeclineReason::LimitExceeded
                    &&& step->Decided_0->details == block_text(
                        response,
                        step->Decided_0->reason,
                    )
                }
            }
            &&& reply matches Err(error) ==> {
                &&& after == breaker.failed_at(now)
                &&& !config.fail_closed ==> step == StepView::Decided(
                    OutcomeView::Allow { reservation_id: None },
                )
                &&& config.fail_closed ==> step == StepView::Decided(
                    OutcomeView::Block {
                        reason: LimitDeclineReason::ProviderUnavailable,
                        details: "limits provider unavailable ("@ + provider_error_text(error)
                            + "); fail-closed"@,
                    },
                )
            }
        }),
{
}

/// The words for a blocked charge name the reason, and after it, if the provider
/// reported both amounts, what is used of the limit, the scope and the period.
pub proof fn law_block_words(response: LimitsEvaluateResponse, reason: LimitDeclineReason)
    ensures
        ({
            let head = "blocked: "@ + decline_reason_text(reason);
            let words = block_text(response, reason);
            &&& response.used_minor is None || response.max_minor is None ==> words == head
            &&& response.used_minor matches Some(used) ==> response.max_minor matches Some(max)
                ==> {
                let amounts = head + " (used "@ + text::int_text(used as int) + " of "@
                    + text::int_text(max as int);
                &&& response.scope is None && response.period is None ==> words == amounts + ")"@
                &&& response.scope matches Some(scope) ==> response.period is None ==> words
                    == amounts + ", scope "@ + scope@ + ")"@
                &&& response.period matches Some(period) ==> response.scope is None ==> words
                    == amounts + ", period "@ + period@ + ")"@
                &&& response.scope matches Some(scope) ==> response.period matches Some(period)
                    ==> words == amounts + ", scope "@ + scope@ + ", period "@ + period@ + ")"@
            }
        }),
{
    if response.used_minor is Some && response.max_minor is Some {
        let amounts = "blocked: "@ + decline_reason_text(reason) + " (used "@ + text::int_text(
            response.used_minor->0 as int,
        ) + " of "@ + text::int_text(response.max_minor->0 as int);
        let scope = detail_text(", scope "@, response.scope);
        let period = detail_text(", period "@, response.period);
        assert(amounts + Seq::empty() =~= amounts);
        match (response.scope, response.period) {
            (Some(s), Some(p)) => {
                assert(amounts + (", scope "@ + s@) + (", period "@ + p@) + ")"@ =~= amounts
                    + ", scope "@ + s@ + ", period "@ + p@ + ")"@);
            },
            (Some(s), None) => {
                assert(amounts + (", scope "@ + s@) + Seq::empty() + ")"@ =~= amounts
                    + ", scope "@ + s@ + ")"@);
            },
            (None, Some(p)) => {
                assert(amounts + Seq::empty() + (", period "@ + p@) + ")"@ =~= amounts
                    + ", period "@ + p@ + ")"@);
            },
            (None, None) => {
                assert(amounts + Seq::empty() + Seq::empty() + ")"@ =~= amounts + ")"@);
            },
        }
    }
}

/// The fail-mode blocks a charge with words that name the cause if the profile fails
/// closed, and allows it without a reservation if not, whatever the cause.
pub proof fn law_fail_mode(cause: Seq<char>)
    ensures
        unavailable_text(cause) == "limits provider unavailable ("@ + cause + "); fail-closed"@,
        fail_mode(true, cause) == (OutcomeView::Block {
            reason: LimitDeclineReason::ProviderUnavailable,
            details: "limits provider unavailable ("@ + cause + "); fail-closed"@,
        }),
        fail_mode(false, cause) == (OutcomeView::Allow { reservation_id: None }),
{
}

/// The labels of reasons and errors.
pub proof fn law_labels(status: u16, detail: String)
    ensures
        decline_reason_text(LimitDeclineReason::LimitExceeded) == "limit_exceeded"@,
        decline_reason_text(LimitDeclineReason::FxUnavailable) == "fx_unavailable"@,
        decline_reason_text(LimitDeclineReason::NotEnabled) == "not_enabled"@,
        decline_reason_text(LimitDeclineReason::ProviderUnavailable) == "provider_unavailable"@,
        provider_error_text(LimitsProviderError::Timeout) == "timeout"@,
        provider_error_text(LimitsProviderError::Http { status }) == "http"@,
        provider_error_text(LimitsProviderError::Decode(detail)) == "decode"@,
        provider_error_text(LimitsProviderError::Unavailable(detail)) == "unavailable"@,
{
}

/// An outcome and a step show all that they hold.
pub proof fn law_views_show_all_of_a_decision(
    handle: String,
    reason: LimitDeclineReason,
    details: String,
    outcome: LimitsOutcome,
    customer_ref: String,
    request: LimitsEvaluateRequest,
)
    ensures
        (LimitsOutcome::Allow { reservation_id: Some(handle) })@ == (OutcomeView::Allow {
            reservation_id: Some(handle@),
        }),
        (LimitsOutcome::Allow { reservation_id: None })@ == (OutcomeView::Allow {
            reservation_id: None,
        }),
        (LimitsOutcome::Block { reason, details })@ == (OutcomeView::Block {
            reason,
            details: details@,
        }),
        DecisionStep::Decided(outcome)@ == StepView::Decided(outcome@),
        (DecisionStep::AskHasLimits { customer_ref })@ == (StepView::AskHasLimits {
            customer_ref: customer_ref@,
        }),
        (DecisionStep::AskEvaluate { request })@ == (StepView::AskEvaluate { request }),
        text_option(Some(handle)) == Some(handle@),
        text_option(None) is None,
{
}

} // verus!
