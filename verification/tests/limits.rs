use spending_limits::clock::{Duration, Instant};
use spending_limits::currency::Currency;
use spending_limits::limits::circuit_breaker::CircuitBreaker;
use spending_limits::limits::config::{
    LimitsProfileConfig, DEFAULT_CIRCUIT_BREAKER_THRESHOLD, DEFAULT_TIMEOUT_MS,
};
use spending_limits::limits::decision::{
    decline_reason_label, format_block_details, provider_error_label, unavailable_details,
    DecisionEvent, DecisionStep, LimitsDecisionService, LimitsEvaluateContext, LimitsMetadata,
    LimitsOutcome,
};
use spending_limits::limits::types::{
    LimitDecision, LimitDeclineReason, LimitsEvaluateRequest, LimitsEvaluateResponse,
    LimitsProviderError,
};

/// How the mock responds to `evaluate`.
enum EvaluateBehavior {
    Allow(Option<String>),
    Block(LimitDeclineReason),
    Fail(LimitsProviderError),
}

/// A provider under the control of the test that counts its calls.
struct MockLimitsProvider {
    has_limits: Result<bool, LimitsProviderError>,
    evaluate: EvaluateBehavior,
    evaluate_calls: usize,
    has_limits_calls: usize,
}

impl MockLimitsProvider {
    fn allow() -> Self {
        Self {
            has_limits: Ok(true),
            evaluate: EvaluateBehavior::Allow(Some("res_1".to_string())),
            evaluate_calls: 0,
            has_limits_calls: 0,
        }
    }

    fn with_evaluate(mut self, behavior: EvaluateBehavior) -> Self {
        self.evaluate = behavior;
        self
    }

    fn with_has_limits(mut self, value: Result<bool, LimitsProviderError>) -> Self {
        self.has_limits = value;
        self
    }

    fn evaluate(
        &mut self,
        _req: LimitsEvaluateRequest,
    ) -> Result<LimitsEvaluateResponse, LimitsProviderError> {
        self.evaluate_calls += 1;
        match &self.evaluate {
            EvaluateBehavior::Allow(reservation_id) => Ok(LimitsEvaluateResponse {
                decision: LimitDecision::Allow,
                reservation_id: reservation_id.clone(),
                reason: None,
                scope: None,
                period: None,
                currency: None,
                used_minor: None,
                max_minor: None,
                converted_minor: None,
            }),
            EvaluateBehavior::Block(reason) => Ok(block_response(Some(*reason))),
            EvaluateBehavior::Fail(err) => Err(err.clone()),
        }
    }

    fn has_limits(&mut self, _customer_ref: &str) -> Result<bool, LimitsProviderError> {
        self.has_limits_calls += 1;
        self.has_limits.clone()
    }
}

fn block_response(reason: Option<LimitDeclineReason>) -> LimitsEvaluateResponse {
    LimitsEvaluateResponse {
        decision: LimitDecision::Block,
        reservation_id: None,
        reason,
        scope: Some("payment_method".to_string()),
        period: Some("month".to_string()),
        currency: Some(Currency::USD),
        used_minor: Some(9_500),
        max_minor: Some(10_000),
        converted_minor: Some(1_000),
    }
}

fn sample_request() -> LimitsEvaluateRequest {
    LimitsEvaluateRequest {
        tx_id: "pay_1".to_string(),
        attempt_id: "att_1".to_string(),
        payment_method_id: "pm_1".to_string(),
        processor_merchant_id: "merch_1".to_string(),
        amount_minor: 1_000,
        currency: Currency::USD,
        agentic: true,
        intent_mandate_id: None,
    }
}

fn agentic_meta() -> LimitsMetadata {
    LimitsMetadata { agentic: true }
}

fn fail_closed_config() -> LimitsProfileConfig {
    LimitsProfileConfig { fail_closed: true, ..Default::default() }
}

fn fail_open_config() -> LimitsProfileConfig {
    LimitsProfileConfig { fail_closed: false, ..Default::default() }
}

fn decide_with(
    service: &mut LimitsDecisionService,
    provider: &mut MockLimitsProvider,
    config: &LimitsProfileConfig,
    enabled: bool,
    meta: &LimitsMetadata,
) -> LimitsOutcome {
    let ctx = LimitsEvaluateContext::from_request(sample_request());
    let mut event = DecisionEvent::Started;
    loop {
        match service.decide(config, enabled, meta, &ctx, event) {
            DecisionStep::Decided(outcome) => return outcome,
            DecisionStep::AskHasLimits { customer_ref } => {
                assert_eq!(customer_ref, "pm_1");
                event = DecisionEvent::HasLimits(provider.has_limits(&customer_ref));
            }
            DecisionStep::AskEvaluate { request } => {
                assert_eq!(request.tx_id, "pay_1");
                event = DecisionEvent::Evaluated(provider.evaluate(request));
            }
        }
    }
}

fn decide(
    provider: &mut MockLimitsProvider,
    config: &LimitsProfileConfig,
    enabled: bool,
    meta: &LimitsMetadata,
) -> LimitsOutcome {
    let mut service = LimitsDecisionService::new(3, 30);
    decide_with(&mut service, provider, config, enabled, meta)
}

fn after(secs: u64) -> Instant {
    Instant::after_origin(Duration::from_secs(secs))
}

#[test]
fn opens_after_threshold_consecutive_failures() {
    let mut breaker = CircuitBreaker::new(3, Duration::from_secs(30));
    assert!(!breaker.is_open());

    breaker.record_failure();
    breaker.record_failure();
    assert!(!breaker.is_open(), "must stay closed below threshold");

    breaker.record_failure();
    assert!(breaker.is_open(), "must open at threshold");
}

#[test]
fn success_resets_failure_count() {
    let mut breaker = CircuitBreaker::new(3, Duration::from_secs(30));
    breaker.record_failure();
    breaker.record_failure();
    breaker.record_success();
    breaker.record_failure();
    breaker.record_failure();
    assert!(!breaker.is_open(), "a success in the middle must reset the consecutive count");
}

#[test]
fn half_opens_after_cooldown() {
    let now = after(1_000);
    let mut breaker = CircuitBreaker::new(1, Duration::from_secs(30));
    breaker.record_failure_at(now);
    assert!(breaker.is_open_at(now));
    // Within the cooldown it is still open.
    assert!(breaker.is_open_at(now.checked_add(Duration::from_secs(10)).unwrap()));
    // After the cooldown it is half-open: it reports closed to allow a probe.
    assert!(!breaker.is_open_at(now.checked_add(Duration::from_secs(31)).unwrap()));
}

#[test]
fn cooldown_ends_at_its_last_moment() {
    let mut breaker = CircuitBreaker::new(1, Duration::from_secs(30));
    breaker.record_failure_at(after(0));
    assert!(breaker.is_open_at(Instant::after_origin(Duration::from_millis(29_999))));
    assert!(!breaker.is_open_at(after(30)));
    // The cooldown is forgotten once it was found to have passed.
    assert!(!breaker.is_open_at(after(10)));
}

#[test]
fn failed_probe_reopens_at_once() {
    let mut breaker = CircuitBreaker::new(3, Duration::from_secs(30));
    for secs in 0..3 {
        breaker.record_failure_at(after(secs));
    }
    assert!(breaker.is_open_at(after(31)));
    assert!(!breaker.is_open_at(after(32)));
    breaker.record_failure_at(after(33));
    assert!(breaker.is_open_at(after(62)));
    assert!(!breaker.is_open_at(after(63)));
}

#[test]
fn each_failure_beyond_the_threshold_prolongs_the_cooldown() {
    let mut breaker = CircuitBreaker::new(1, Duration::from_secs(30));
    breaker.record_failure_at(after(0));
    breaker.record_failure_at(after(20));
    assert!(breaker.is_open_at(after(49)));
    assert!(!breaker.is_open_at(after(50)));
}

#[test]
fn breaker_with_threshold_zero_opens_on_a_failure() {
    let mut breaker = CircuitBreaker::new(0, Duration::from_secs(30));
    assert!(!breaker.is_open_at(after(0)));
    breaker.record_failure_at(after(0));
    assert!(breaker.is_open_at(after(1)));
    breaker.record_success();
    assert!(!breaker.is_open_at(after(1)));
}

#[test]
fn instants_do_not_run_over() {
    let last = Instant::after_origin(Duration::from_secs(u64::MAX));
    assert!(last.checked_add(Duration::from_secs(1)).is_none());
    assert_eq!(
        after(1).checked_add(Duration::from_millis(5)).unwrap().as_nanos(),
        1_005_000_000
    );
}

#[test]
fn allow_passes_with_reservation() {
    let mut provider = MockLimitsProvider::allow();
    let outcome = decide(&mut provider, &fail_closed_config(), true, &agentic_meta());
    assert_eq!(outcome, LimitsOutcome::Allow { reservation_id: Some("res_1".to_string()) });
    assert_eq!(provider.evaluate_calls, 1);
}

#[test]
fn block_returns_decline_reason() {
    let mut provider = MockLimitsProvider::allow()
        .with_evaluate(EvaluateBehavior::Block(LimitDeclineReason::LimitExceeded));
    let outcome = decide(&mut provider, &fail_closed_config(), true, &agentic_meta());
    match outcome {
        LimitsOutcome::Block { reason, details } => {
            assert_eq!(reason, LimitDeclineReason::LimitExceeded);
            assert!(details.contains("limit_exceeded"), "details: {details}");
        }
        other => panic!("expected Block, got {other:?}"),
    }
}

#[test]
fn timeout_fail_closed_blocks_provider_unavailable() {
    let mut provider = MockLimitsProvider::allow()
        .with_evaluate(EvaluateBehavior::Fail(LimitsProviderError::Timeout));
    let outcome = decide(&mut provider, &fail_closed_config(), true, &agentic_meta());
    match outcome {
        LimitsOutcome::Block { reason, .. } => {
            assert_eq!(reason, LimitDeclineReason::ProviderUnavailable);
        }
        other => panic!("expected Block(provider_unavailable), got {other:?}"),
    }
    assert_eq!(provider.evaluate_calls, 1);
}

#[test]
fn timeout_fail_open_allows() {
    let mut provider = MockLimitsProvider::allow()
        .with_evaluate(EvaluateBehavior::Fail(LimitsProviderError::Timeout));
    let outcome = decide(&mut provider, &fail_open_config(), true, &agentic_meta());
    assert_eq!(outcome, LimitsOutcome::Allow { reservation_id: None });
}

#[test]
fn unavailable_fail_closed_blocks() {
    let mut provider = MockLimitsProvider::allow().with_evaluate(EvaluateBehavior::Fail(
        LimitsProviderError::Unavailable("conn refused".to_string()),
    ));
    let outcome = decide(&mut provider, &fail_closed_config(), true, &agentic_meta());
    assert!(matches!(
        outcome,
        LimitsOutcome::Block { reason: LimitDeclineReason::ProviderUnavailable, .. }
    ));
}

#[test]
fn has_limits_false_short_circuits_without_evaluate() {
    let mut provider = MockLimitsProvider::allow().with_has_limits(Ok(false));
    let outcome = decide(&mut provider, &fail_closed_config(), true, &agentic_meta());
    assert_eq!(outcome, LimitsOutcome::Allow { reservation_id: None });
    assert_eq!(provider.has_limits_calls, 1);
    assert_eq!(provider.evaluate_calls, 0, "evaluate must be skipped when has_limits=false");
}

#[test]
fn non_agentic_trigger_allows_without_calling_provider() {
    let mut provider = MockLimitsProvider::allow();
    let non_agentic = LimitsMetadata { agentic: false };
    // Default config: trigger_agentic_only = true.
    let outcome = decide(&mut provider, &fail_closed_config(), true, &non_agentic);
    assert_eq!(outcome, LimitsOutcome::Allow { reservation_id: None });
    assert_eq!(provider.has_limits_calls, 0);
    assert_eq!(provider.evaluate_calls, 0);
}

#[test]
fn disabled_allows_without_calling_provider() {
    let mut provider = MockLimitsProvider::allow();
    let outcome = decide(&mut provider, &fail_closed_config(), false, &agentic_meta());
    assert_eq!(outcome, LimitsOutcome::Allow { reservation_id: None });
    assert_eq!(provider.evaluate_calls, 0);
}

#[test]
fn trigger_all_charges_when_not_agentic_only() {
    let mut provider = MockLimitsProvider::allow();
    let config = LimitsProfileConfig { trigger_agentic_only: false, ..Default::default() };
    let non_agentic = LimitsMetadata { agentic: false };
    let outcome = decide(&mut provider, &config, true, &non_agentic);
    // trigger_agentic_only=false -> even a non-agentic charge is evaluated.
    assert_eq!(outcome, LimitsOutcome::Allow { reservation_id: Some("res_1".to_string()) });
    assert_eq!(provider.evaluate_calls, 1);
}

#[test]
fn circuit_breaker_opens_after_threshold_failures() {
    // Threshold = 3: after 3 consecutive provider errors the breaker opens and
    // the 4th call short-circuits to the fail-mode WITHOUT calling evaluate.
    let mut provider = MockLimitsProvider::allow()
        .with_evaluate(EvaluateBehavior::Fail(LimitsProviderError::Unavailable(
            "down".to_string(),
        )))
        // breaker-open path skips has_limits too; keep it benign.
        .with_has_limits(Ok(true));
    let mut svc = LimitsDecisionService::new(3, 30);
    let config = fail_closed_config();
    let meta = agentic_meta();

    for _ in 0..3 {
        let outcome = decide_with(&mut svc, &mut provider, &config, true, &meta);
        assert!(matches!(outcome, LimitsOutcome::Block { .. }));
    }
    let evaluate_calls_before = provider.evaluate_calls;
    assert_eq!(evaluate_calls_before, 3);

    // Breaker now open: this decision must not reach the provider.
    let outcome = decide_with(&mut svc, &mut provider, &config, true, &meta);
    assert!(matches!(
        outcome,
        LimitsOutcome::Block { reason: LimitDeclineReason::ProviderUnavailable, .. }
    ));
    assert_eq!(
        provider.evaluate_calls, evaluate_calls_before,
        "evaluate must not be called while the breaker is open"
    );
    assert_eq!(provider.has_limits_calls, 3);
}

#[test]
fn circuit_breaker_open_fail_open_allows_without_provider_call() {
    let mut provider = MockLimitsProvider::allow().with_evaluate(EvaluateBehavior::Fail(
        LimitsProviderError::Unavailable("down".to_string()),
    ));
    let mut svc = LimitsDecisionService::new(1, 30);
    let meta = agentic_meta();

    // First failure (threshold=1) opens the breaker, fail-open -> still allow.
    let first = decide_with(&mut svc, &mut provider, &fail_open_config(), true, &meta);
    assert_eq!(first, LimitsOutcome::Allow { reservation_id: None });

    // Now breaker open + fail-open -> allow without touching the provider.
    let calls_before = provider.evaluate_calls;
    let second = decide_with(&mut svc, &mut provider, &fail_open_config(), true, &meta);
    assert_eq!(second, LimitsOutcome::Allow { reservation_id: None });
    assert_eq!(provider.evaluate_calls, calls_before);
}

#[test]
fn has_limits_error_falls_through_to_evaluate() {
    // A failing has-limits probe is non-fatal: we still evaluate.
    let mut provider = MockLimitsProvider::allow()
        .with_has_limits(Err(LimitsProviderError::Unavailable("probe down".to_string())));
    let outcome = decide(&mut provider, &fail_closed_config(), true, &agentic_meta());
    assert_eq!(outcome, LimitsOutcome::Allow { reservation_id: Some("res_1".to_string()) });
    assert_eq!(provider.has_limits_calls, 1);
    assert_eq!(provider.evaluate_calls, 1);
}

#[test]
fn open_breaker_lets_a_probe_through_after_the_cooldown() {
    let mut svc = LimitsDecisionService::new(1, 30);
    let config = fail_closed_config();
    let meta = agentic_meta();
    let ctx = LimitsEvaluateContext::from_request(sample_request());
    let failed = DecisionEvent::Evaluated(Err(LimitsProviderError::Timeout));
    svc.decide_at(&config, true, &meta, &ctx, failed, after(100));
    match svc.decide_at(&config, true, &meta, &ctx, DecisionEvent::Started, after(129)) {
        DecisionStep::Decided(LimitsOutcome::Block { reason, details }) => {
            assert_eq!(reason, LimitDeclineReason::ProviderUnavailable);
            assert_eq!(
                details,
                "limits provider unavailable (circuit_breaker_open); fail-closed"
            );
        }
        other => panic!("expected a block, got {other:?}"),
    }
    assert!(matches!(
        svc.decide_at(&config, true, &meta, &ctx, DecisionEvent::Started, after(130)),
        DecisionStep::AskHasLimits { .. }
    ));
}

#[test]
fn a_yes_to_has_limits_leaves_the_failure_count() {
    let mut svc = LimitsDecisionService::new(2, 30);
    let config = fail_closed_config();
    let meta = agentic_meta();
    let ctx = LimitsEvaluateContext::from_request(sample_request());
    let failed = || DecisionEvent::Evaluated(Err(LimitsProviderError::Timeout));
    svc.decide_at(&config, true, &meta, &ctx, failed(), after(0));
    svc.decide_at(&config, true, &meta, &ctx, DecisionEvent::HasLimits(Ok(true)), after(0));
    svc.decide_at(&config, true, &meta, &ctx, failed(), after(0));
    assert!(matches!(
        svc.decide_at(&config, true, &meta, &ctx, DecisionEvent::Started, after(1)),
        DecisionStep::Decided(_)
    ));
}

#[test]
fn block_without_a_reason_is_limit_exceeded() {
    let svc = LimitsDecisionService::new(3, 30);
    match svc.map_evaluate_response(block_response(None)) {
        LimitsOutcome::Block { reason, details } => {
            assert_eq!(reason, LimitDeclineReason::LimitExceeded);
            assert_eq!(
                details,
                "blocked: limit_exceeded (used 9500 of 10000, scope payment_method, period month)"
            );
        }
        other => panic!("expected a block, got {other:?}"),
    }
}

#[test]
fn block_details_have_what_the_provider_gave() {
    let mut response = block_response(None);
    response.scope = None;
    response.used_minor = Some(-5);
    assert_eq!(
        format_block_details(&response, LimitDeclineReason::FxUnavailable),
        "blocked: fx_unavailable (used -5 of 10000, period month)"
    );
    response.period = None;
    response.max_minor = Some(i64::MIN);
    assert_eq!(
        format_block_details(&response, LimitDeclineReason::NotEnabled),
        "blocked: not_enabled (used -5 of -9223372036854775808)"
    );
    response.max_minor = None;
    response.scope = Some("global".to_string());
    assert_eq!(
        format_block_details(&response, LimitDeclineReason::ProviderUnavailable),
        "blocked: provider_unavailable"
    );
}

#[test]
fn provider_errors_have_labels_and_words() {
    let timeout = LimitsProviderError::Timeout;
    let http = LimitsProviderError::Http { status: 503 };
    let decode = LimitsProviderError::Decode("bad body".to_string());
    let unavailable = LimitsProviderError::Unavailable("refused".to_string());
    assert_eq!(provider_error_label(&timeout), "timeout");
    assert_eq!(provider_error_label(&http), "http");
    assert_eq!(provider_error_label(&decode), "decode");
    assert_eq!(provider_error_label(&unavailable), "unavailable");
    assert_eq!(timeout.message(), "limits provider timed out");
    assert_eq!(http.message(), "limits provider returned HTTP error: status 503");
    assert_eq!(decode.message(), "failed to decode limits provider response: bad body");
    assert_eq!(unavailable.message(), "limits provider unavailable: refused");
}

#[test]
fn decline_reasons_have_labels() {
    assert_eq!(decline_reason_label(LimitDeclineReason::LimitExceeded), "limit_exceeded");
    assert_eq!(decline_reason_label(LimitDeclineReason::FxUnavailable), "fx_unavailable");
    assert_eq!(decline_reason_label(LimitDeclineReason::NotEnabled), "not_enabled");
    assert_eq!(
        decline_reason_label(LimitDeclineReason::ProviderUnavailable),
        "provider_unavailable"
    );
    assert_eq!(
        unavailable_details("timeout"),
        "limits provider unavailable (timeout); fail-closed"
    );
}

#[test]
fn profile_defaults_check_agents_and_fail_closed() {
    let config = LimitsProfileConfig::default();
    assert!(config.trigger_agentic_only);
    assert!(config.fail_closed);
    assert_eq!(config.timeout_ms, DEFAULT_TIMEOUT_MS);
    assert_eq!(config.timeout_ms, 2_000);
    assert_eq!(config.circuit_breaker_threshold, DEFAULT_CIRCUIT_BREAKER_THRESHOLD);
    assert_eq!(config.circuit_breaker_threshold, 5);
    assert_eq!(config.provider_base_url, "");
    assert!(config.hmac_secret.is_empty());
    assert!(!LimitsMetadata::default().agentic);
}
