use spending_limits::clock::{Duration, Instant};
use spending_limits::currency::Currency;
use spending_limits::limits::decision::{LimitsDecisionService, LimitsEvaluateContext};
use spending_limits::limits::metrics::{settle_metric, LimitsMetric};
use spending_limits::limits::types::{
    LimitDecision, LimitDeclineReason, LimitSettleOutcome, LimitsEvaluateResponse,
    LimitsProviderError,
};
use spending_limits::limits::wiring::{
    agentic_from_flag, block_breach, build_request, decision_service, evaluate_and_record, is_agentic,
    profile_config, record_block, settle_on_terminal, settle_outcome_for, settle_outcome_label,
    stash_reservation, take_reservation, unavailable_breach, ApiErrorResponse, AttemptStatus,
    CheckEvent, CheckStep, IntentStatus, LimitBreach, LimitsCheck, LimitsSettings, PaymentData,
    Processor, Reservations, BREAKER_COOLDOWN_SECS,
};
use spending_limits::secret::Secret;

fn settings() -> LimitsSettings {
    LimitsSettings {
        enabled: true,
        provider_base_url: "https://mypeach.example".to_string(),
        hmac_secret: Secret::new("top-secret".to_string()),
        trigger_agentic_only: true,
        fail_closed: true,
        timeout_ms: 1_500,
        circuit_breaker_threshold: 4,
    }
}

fn payment(metadata: &str) -> PaymentData {
    PaymentData {
        payment_id: "pay_1".to_string(),
        attempt_id: "att_1".to_string(),
        payment_method_id: Some("pm_1".to_string()),
        mandate_id: Some("man_1".to_string()),
        total_amount_minor: 1_000,
        currency: Currency::ZAR,
        metadata: Some(serde_json::from_str(metadata).unwrap()),
        feature_metadata: Some("{\"f\":1}".to_string()),
    }
}

fn processor() -> Processor {
    Processor {
        processor_merchant_id: "merch_1".to_string(),
        storage_scheme: "postgres_only".to_string(),
    }
}

fn check(settings: &LimitsSettings) -> LimitsCheck {
    evaluate_and_record(settings, &payment("{\"agentic\":true}"), &processor()).unwrap()
}

fn service() -> LimitsDecisionService {
    decision_service(&settings())
}

fn allow(reservation_id: Option<&str>) -> LimitsEvaluateResponse {
    LimitsEvaluateResponse {
        decision: LimitDecision::Allow,
        reservation_id: reservation_id.map(|id| id.to_string()),
        reason: None,
        scope: None,
        period: None,
        currency: None,
        used_minor: None,
        max_minor: None,
        converted_minor: None,
    }
}

fn block() -> LimitsEvaluateResponse {
    LimitsEvaluateResponse {
        decision: LimitDecision::Block,
        reason: Some(LimitDeclineReason::LimitExceeded),
        used_minor: Some(9_500),
        max_minor: Some(10_000),
        ..allow(None)
    }
}

#[test]
fn reservation_round_trip_stash_then_take() {
    let mut reservations = Reservations::new();
    let tx_id = "pay_wiring_test_1";
    stash_reservation(&mut reservations, tx_id, "res_xyz".to_string());
    assert_eq!(take_reservation(&mut reservations, tx_id), Some("res_xyz".to_string()));
    // Taken once; subsequent take is empty (idempotent settle guard).
    assert_eq!(take_reservation(&mut reservations, tx_id), None);
}

#[test]
fn settle_outcome_mapping() {
    assert_eq!(settle_outcome_for(AttemptStatus::Charged), LimitSettleOutcome::Succeeded);
    assert_eq!(settle_outcome_for(AttemptStatus::Voided), LimitSettleOutcome::Voided);
    assert_eq!(settle_outcome_for(AttemptStatus::AutoRefunded), LimitSettleOutcome::Refunded);
    assert_eq!(settle_outcome_for(AttemptStatus::Failure), LimitSettleOutcome::Failed);
}

#[test]
fn breach_to_api_error_carries_structured_fields() {
    let breach = LimitBreach {
        reason: LimitDeclineReason::LimitExceeded,
        details: "blocked: limit_exceeded".to_string(),
        scope: "payment_method".to_string(),
        period: "month".to_string(),
        currency: "USD".to_string(),
        used_minor: 9_500,
        max_minor: 10_000,
        attempted_minor: 1_000,
    };
    match breach.to_api_error() {
        ApiErrorResponse::AgenticLimitExceeded { scope, reason, attempted_minor, .. } => {
            assert_eq!(scope, "payment_method");
            assert_eq!(reason, "limit_exceeded");
            assert_eq!(attempted_minor, 1_000);
        }
    }
}

#[test]
fn a_later_reservation_takes_the_place_of_an_earlier_one() {
    let mut reservations = Reservations::new();
    stash_reservation(&mut reservations, "pay_a", "res_1".to_string());
    stash_reservation(&mut reservations, "pay_b", "res_2".to_string());
    stash_reservation(&mut reservations, "pay_a", "res_3".to_string());
    assert_eq!(take_reservation(&mut reservations, "pay_a"), Some("res_3".to_string()));
    assert_eq!(take_reservation(&mut reservations, "pay_b"), Some("res_2".to_string()));
}

#[test]
fn settle_outcomes_cover_partial_and_late_statuses() {
    assert_eq!(settle_outcome_for(AttemptStatus::PartialCharged), LimitSettleOutcome::Succeeded);
    assert_eq!(
        settle_outcome_for(AttemptStatus::PartialChargedAndChargeable),
        LimitSettleOutcome::Succeeded
    );
    assert_eq!(settle_outcome_for(AttemptStatus::VoidedPostCharge), LimitSettleOutcome::Voided);
    for status in [
        AttemptStatus::RouterDeclined,
        AttemptStatus::CaptureFailed,
        AttemptStatus::VoidFailed,
        AttemptStatus::Expired,
    ] {
        assert_eq!(settle_outcome_for(status), LimitSettleOutcome::Failed);
    }
    assert_eq!(settle_outcome_label(LimitSettleOutcome::Succeeded), "succeeded");
    assert_eq!(settle_outcome_label(LimitSettleOutcome::Failed), "failed");
    assert_eq!(settle_outcome_label(LimitSettleOutcome::Voided), "voided");
    assert_eq!(settle_outcome_label(LimitSettleOutcome::Refunded), "refunded");
}

#[test]
fn settle_waits_for_a_terminal_status() {
    let mut reservations = Reservations::new();
    stash_reservation(&mut reservations, "pay_1", "res_1".to_string());
    let mut settle = |enabled: bool, status: AttemptStatus| {
        settle_on_terminal(
            &mut reservations,
            enabled,
            "pay_1".to_string(),
            status,
            Some(800),
            Some(200),
        )
    };
    assert!(settle(true, AttemptStatus::Pending).is_none());
    assert!(settle(true, AttemptStatus::Authorized).is_none());
    assert!(settle(false, AttemptStatus::Charged).is_none());
    let request = settle(true, AttemptStatus::Charged).unwrap();
    assert_eq!(request.tx_id, "pay_1");
    assert_eq!(request.reservation_id, "res_1");
    assert_eq!(request.outcome, LimitSettleOutcome::Succeeded);
    assert_eq!(request.captured_amount_minor, Some(800));
    assert_eq!(request.refunded_amount_minor, Some(200));
    assert!(settle(true, AttemptStatus::Charged).is_none());
}

#[test]
fn only_a_boolean_flag_marks_an_agent() {
    assert!(is_agentic(&payment("{\"agentic\":true}")));
    assert!(!is_agentic(&payment("{\"agentic\":false}")));
    assert!(!is_agentic(&payment("{\"agentic\":\"true\"}")));
    assert!(!is_agentic(&payment("{\"agentic\":1}")));
    assert!(!is_agentic(&payment("{\"other\":true}")));
    assert!(!is_agentic(&payment("{\"nested\":{\"agentic\":true}}")));
    assert!(!is_agentic(&payment("[\"agentic\"]")));
    assert!(!is_agentic(&payment("true")));
    let mut bare = payment("null");
    assert!(!is_agentic(&bare));
    bare.metadata = None;
    assert!(!is_agentic(&bare));
    assert!(agentic_from_flag(Some(true)));
    assert!(!agentic_from_flag(Some(false)));
    assert!(!agentic_from_flag(None));
}

#[test]
fn request_is_made_from_the_payment() {
    let request = build_request(&payment("{}"), &processor(), true).unwrap();
    assert_eq!(request.tx_id, "pay_1");
    assert_eq!(request.attempt_id, "att_1");
    assert_eq!(request.payment_method_id, "pm_1");
    assert_eq!(request.processor_merchant_id, "merch_1");
    assert_eq!(request.amount_minor, 1_000);
    assert_eq!(request.currency, Currency::ZAR);
    assert!(request.agentic);
    assert_eq!(request.intent_mandate_id, Some("man_1".to_string()));
    let mut without_method = payment("{}");
    without_method.payment_method_id = None;
    assert!(build_request(&without_method, &processor(), true).is_none());
}

#[test]
fn config_is_the_settings() {
    let config = profile_config(&settings());
    assert_eq!(config.provider_base_url, "https://mypeach.example");
    assert_eq!(config.hmac_secret.peek(), "top-secret");
    assert!(config.trigger_agentic_only);
    assert!(config.fail_closed);
    assert_eq!(config.timeout_ms, 1_500);
    assert_eq!(config.circuit_breaker_threshold, 4);
    assert_eq!(check(&settings()).config().timeout_ms, 1_500);
    assert_eq!(BREAKER_COOLDOWN_SECS, 30);
}

#[test]
fn disabled_limits_and_missing_methods_start_no_check() {
    let mut disabled = settings();
    disabled.enabled = false;
    let charge = payment("{\"agentic\":true}");
    assert!(evaluate_and_record(&disabled, &charge, &processor()).is_none());
    let mut without_method = payment("{\"agentic\":true}");
    without_method.payment_method_id = None;
    assert!(evaluate_and_record(&settings(), &without_method, &processor()).is_none());
}

#[test]
fn allowed_charge_keeps_its_reservation_and_is_settled_once() {
    let mut reservations = Reservations::new();
    let mut service = service();
    let check = check(&settings());
    match check.advance(&mut service, &mut reservations, CheckEvent::ProviderBuilt(true)) {
        CheckStep::AskHasLimits { customer_ref } => assert_eq!(customer_ref, "pm_1"),
        other => panic!("expected a question, got {other:?}"),
    }
    match check.advance(&mut service, &mut reservations, CheckEvent::HasLimits(Ok(true))) {
        CheckStep::AskEvaluate { request } => {
            assert_eq!(request.tx_id, "pay_1");
            assert!(request.agentic);
        }
        other => panic!("expected a question, got {other:?}"),
    }
    assert!(matches!(
        check.advance(&mut service, &mut reservations, CheckEvent::Evaluated(Ok(allow(Some("res_9"))))),
        CheckStep::Allowed
    ));
    let tx_id = || "pay_1".to_string();
    let settled = settle_on_terminal(
        &mut reservations,
        true,
        tx_id(),
        AttemptStatus::Voided,
        None,
        None,
    )
    .unwrap();
    assert_eq!(settled.reservation_id, "res_9");
    assert_eq!(settled.outcome, LimitSettleOutcome::Voided);
    assert!(settle_on_terminal(
        &mut reservations,
        true,
        tx_id(),
        AttemptStatus::Voided,
        None,
        None
    )
    .is_none());
}

#[test]
fn blocked_charge_is_recorded_as_failed() {
    let mut reservations = Reservations::new();
    let mut service = service();
    let check = check(&settings());
    match check.advance(&mut service, &mut reservations, CheckEvent::Evaluated(Ok(block()))) {
        CheckStep::Blocked { record, error } => {
            assert_eq!(record.attempt.status, AttemptStatus::Failure);
            assert_eq!(record.attempt.error_code, "AGENTIC_LIMIT_EXCEEDED");
            assert_eq!(
                record.attempt.error_message,
                "Agentic spending limit exceeded: blocked: limit_exceeded (used 9500 of 10000)"
            );
            assert_eq!(
                record.attempt.error_reason,
                "blocked: limit_exceeded (used 9500 of 10000)"
            );
            assert_eq!(record.attempt.amount_capturable, 0);
            assert_eq!(record.attempt.updated_by, "postgres_only");
            assert_eq!(record.intent.status, IntentStatus::Failed);
            assert_eq!(record.intent.updated_by, "postgres_only");
            assert_eq!(record.intent.feature_metadata, Some("{\"f\":1}".to_string()));
            match error {
                ApiErrorResponse::AgenticLimitExceeded {
                    scope,
                    period,
                    currency,
                    used_minor,
                    max_minor,
                    attempted_minor,
                    reason,
                } => {
                    assert_eq!(scope, "unknown");
                    assert_eq!(period, "unknown");
                    assert_eq!(currency, "ZAR");
                    assert_eq!(used_minor, 9_500);
                    assert_eq!(max_minor, 10_000);
                    assert_eq!(attempted_minor, 1_000);
                    assert_eq!(reason, "limit_exceeded");
                }
            }
        }
        other => panic!("expected a block, got {other:?}"),
    }
    assert_eq!(take_reservation(&mut reservations, "pay_1"), None);
}

#[test]
fn missing_provider_obeys_the_fail_mode() {
    let mut reservations = Reservations::new();
    match check(&settings()).advance(&mut service(), &mut reservations, CheckEvent::ProviderBuilt(false)) {
        CheckStep::Blocked { record, .. } => assert_eq!(
            record.attempt.error_reason,
            "limits provider unavailable (provider_construction_failed); fail-closed"
        ),
        other => panic!("expected a block, got {other:?}"),
    }
    let mut open = settings();
    open.fail_closed = false;
    assert!(matches!(
        check(&open).advance(&mut service(), &mut reservations, CheckEvent::ProviderBuilt(false)),
        CheckStep::Allowed
    ));
}

#[test]
fn charge_that_is_not_an_agents_is_allowed_at_once() {
    let mut reservations = Reservations::new();
    let mut service = service();
    let check = evaluate_and_record(&settings(), &payment("{}"), &processor()).unwrap();
    // Whether or not the provider could be built.
    for built in [true, false] {
        let event = CheckEvent::ProviderBuilt(built);
        let step = check.advance(&mut service, &mut reservations, event.clone());
        assert!(matches!(step, CheckStep::Allowed));
        assert_eq!(check.metrics(&event, &step), vec![LimitsMetric::SkippedNotTriggered]);
    }
}

#[test]
fn failed_evaluation_blocks_or_allows_by_the_fail_mode() {
    let mut reservations = Reservations::new();
    let failed = || CheckEvent::Evaluated(Err(LimitsProviderError::Http { status: 502 }));
    match check(&settings()).advance(&mut service(), &mut reservations, failed()) {
        CheckStep::Blocked { record, .. } => assert_eq!(
            record.attempt.error_reason,
            "limits provider unavailable (http); fail-closed"
        ),
        other => panic!("expected a block, got {other:?}"),
    }
    let mut open = settings();
    open.fail_closed = false;
    assert!(matches!(check(&open).advance(&mut service(), &mut reservations, failed()), CheckStep::Allowed));
}

#[test]
fn breaches_are_made_from_the_request() {
    let request = build_request(&payment("{}"), &processor(), false).unwrap();
    let breach = block_breach(&request, None, LimitDeclineReason::NotEnabled, "why".to_string());
    assert_eq!(breach.reason, LimitDeclineReason::NotEnabled);
    assert_eq!(breach.details, "why");
    assert_eq!(breach.currency, "ZAR");
    assert_eq!(breach.attempted_minor, 1_000);
    let record = record_block(&breach, "redis_kv", &None);
    assert_eq!(record.attempt.error_message, "Agentic spending limit exceeded: why");
    assert_eq!(record.attempt.updated_by, "redis_kv");
    assert_eq!(record.intent.feature_metadata, None);
    let unavailable = unavailable_breach(&request, "timeout");
    assert_eq!(unavailable.reason, LimitDeclineReason::ProviderUnavailable);
    assert_eq!(unavailable.details, "limits provider unavailable (timeout); fail-closed");
    assert_eq!(unavailable.scope, "unknown");
    assert_eq!(unavailable.period, "unknown");
}

#[test]
fn terminal_statuses_are_the_final_ones() {
    for status in [
        AttemptStatus::Charged,
        AttemptStatus::PartialCharged,
        AttemptStatus::Voided,
        AttemptStatus::VoidedPostCharge,
        AttemptStatus::AutoRefunded,
        AttemptStatus::Failure,
        AttemptStatus::RouterDeclined,
        AttemptStatus::Expired,
    ] {
        assert!(status.is_terminal_status());
    }
    for status in [
        AttemptStatus::Started,
        AttemptStatus::Pending,
        AttemptStatus::Authorized,
        AttemptStatus::PartialChargedAndChargeable,
        AttemptStatus::ConfirmationAwaited,
    ] {
        assert!(!status.is_terminal_status());
    }
}

#[test]
fn settling_leaves_other_payments() {
    let mut reservations = Reservations::new();
    stash_reservation(&mut reservations, "pay_a", "res_a".to_string());
    stash_reservation(&mut reservations, "pay_b", "res_b".to_string());
    let mut settle = |tx_id: &str| {
        settle_on_terminal(
            &mut reservations,
            true,
            tx_id.to_string(),
            AttemptStatus::Failure,
            None,
            None,
        )
    };
    assert!(settle("pay_c").is_none());
    assert_eq!(settle("pay_a").unwrap().outcome, LimitSettleOutcome::Failed);
    assert_eq!(settle("pay_b").unwrap().reservation_id, "res_b");
}

#[test]
fn block_reports_the_limit_that_the_provider_reported() {
    let mut reservations = Reservations::new();
    let response = LimitsEvaluateResponse {
        scope: Some("payment_method".to_string()),
        period: Some("month".to_string()),
        currency: Some(Currency::EUR),
        ..block()
    };
    let event = CheckEvent::Evaluated(Ok(response));
    match check(&settings()).advance(&mut service(), &mut reservations, event) {
        CheckStep::Blocked { error, .. } => match error {
            ApiErrorResponse::AgenticLimitExceeded {
                scope,
                period,
                currency,
                used_minor,
                max_minor,
                attempted_minor,
                ..
            } => {
                assert_eq!(scope, "payment_method");
                assert_eq!(period, "month");
                assert_eq!(currency, "EUR");
                assert_eq!(used_minor, 9_500);
                assert_eq!(max_minor, 10_000);
                assert_eq!(attempted_minor, 1_000);
            }
        },
        other => panic!("expected a block, got {other:?}"),
    }
    // What was not reported is not known.
    let silent = LimitsEvaluateResponse { used_minor: None, max_minor: None, ..block() };
    let request = build_request(&payment("{}"), &processor(), true).unwrap();
    let breach = block_breach(
        &request,
        Some(&silent),
        LimitDeclineReason::LimitExceeded,
        "why".to_string(),
    );
    assert_eq!(breach.scope, "unknown");
    assert_eq!(breach.period, "unknown");
    assert_eq!(breach.currency, "ZAR");
    assert_eq!((breach.used_minor, breach.max_minor), (0, 0));
}

fn after(secs: u64) -> Instant {
    Instant::after_origin(Duration::from_secs(secs))
}

#[test]
fn failed_charges_open_the_breaker_for_the_next_one() {
    let mut reservations = Reservations::new();
    let settings = settings();
    let mut service = decision_service(&settings);
    let timeout = || LimitsProviderError::Timeout;
    for secs in 0..4 {
        let check = check(&settings);
        let started = CheckEvent::ProviderBuilt(true);
        assert!(matches!(
            check.advance_at(&mut service, &mut reservations, started, after(secs)),
            CheckStep::AskHasLimits { .. }
        ));
        let failed = CheckEvent::Evaluated(Err(timeout()));
        let step = check.advance_at(&mut service, &mut reservations, failed.clone(), after(secs));
        assert!(matches!(step, CheckStep::Blocked { .. }));
        assert_eq!(
            check.metrics(&failed, &step),
            vec![LimitsMetric::ProviderError { error: timeout() }, LimitsMetric::FailClosed]
        );
    }
    // The last failure was at 3 seconds: no charge reaches the provider until 33.
    let next = check(&settings);
    let started = CheckEvent::ProviderBuilt(true);
    let step = next.advance_at(&mut service, &mut reservations, started.clone(), after(32));
    assert_eq!(
        next.metrics(&started, &step),
        vec![LimitsMetric::BreakerOpen, LimitsMetric::FailClosed]
    );
    match step {
        CheckStep::Blocked { error, record } => {
            let ApiErrorResponse::AgenticLimitExceeded { reason, .. } = error;
            assert_eq!(reason, "provider_unavailable");
            assert_eq!(
                record.attempt.error_reason,
                "limits provider unavailable (circuit_breaker_open); fail-closed"
            );
        }
        other => panic!("expected a block, got {other:?}"),
    }
    let step = next.advance_at(&mut service, &mut reservations, started, after(33));
    assert!(matches!(step, CheckStep::AskHasLimits { .. }));
}

#[test]
fn steps_of_a_check_are_counted() {
    let mut reservations = Reservations::new();
    let mut service = service();
    let check = check(&settings());
    let mut counted = |event: CheckEvent| {
        let step = check.advance(&mut service, &mut reservations, event.clone());
        check.metrics(&event, &step)
    };
    assert_eq!(counted(CheckEvent::ProviderBuilt(true)), vec![]);
    assert_eq!(counted(CheckEvent::ProviderBuilt(false)), vec![]);
    assert_eq!(counted(CheckEvent::HasLimits(Ok(true))), vec![]);
    assert_eq!(
        counted(CheckEvent::HasLimits(Ok(false))),
        vec![LimitsMetric::FastpathNoLimits]
    );
    assert_eq!(
        counted(CheckEvent::Evaluated(Ok(allow(None)))),
        vec![LimitsMetric::Allowed]
    );
    let unexplained = LimitsEvaluateResponse { reason: None, ..block() };
    let blocked = counted(CheckEvent::Evaluated(Ok(unexplained)));
    assert_eq!(
        blocked,
        vec![LimitsMetric::Blocked { reason: LimitDeclineReason::LimitExceeded }]
    );
    assert_eq!(blocked[0].name(), "LIMITS_BLOCKED");
    assert_eq!(blocked[0].attribute(), Some(("reason", "limit_exceeded")));
}

#[test]
fn counters_have_names_and_attributes() {
    let settled = settle_metric(LimitSettleOutcome::Refunded, true);
    assert_eq!(settled.name(), "LIMITS_SETTLED");
    assert_eq!(settled.attribute(), Some(("outcome", "refunded")));
    let lost = settle_metric(LimitSettleOutcome::Refunded, false);
    assert_eq!(lost.name(), "LIMITS_SETTLE_FAILED");
    assert_eq!(lost.attribute(), None);
    let error =
        LimitsMetric::ProviderError { error: LimitsProviderError::Http { status: 500 } };
    assert_eq!(error.name(), "LIMITS_PROVIDER_ERROR");
    assert_eq!(error.attribute(), Some(("kind", "http")));
    for (metric, name) in [
        (LimitsMetric::Allowed, "LIMITS_ALLOWED"),
        (LimitsMetric::FailClosed, "LIMITS_FAIL_CLOSED"),
        (LimitsMetric::FailOpen, "LIMITS_FAIL_OPEN"),
        (LimitsMetric::BreakerOpen, "LIMITS_BREAKER_OPEN"),
        (LimitsMetric::FastpathNoLimits, "LIMITS_FASTPATH_NO_LIMITS"),
        (LimitsMetric::SkippedNotTriggered, "LIMITS_SKIPPED_NOT_TRIGGERED"),
    ] {
        assert_eq!(metric.name(), name);
        assert_eq!(metric.attribute(), None);
    }
}

#[test]
fn copies_are_equal() {
    let request = build_request(&payment("{}"), &processor(), true).unwrap();
    let breach = block_breach(&request, Some(&block()), LimitDeclineReason::NotEnabled, "x".into());
    assert_eq!(format!("{:?}", breach.clone()), format!("{breach:?}"));
    let ctx = LimitsEvaluateContext::from_request(request);
    assert_eq!(format!("{:?}", ctx.clone()), format!("{ctx:?}"));
}
