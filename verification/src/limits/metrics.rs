//! What is counted of limits checks.

use vstd::prelude::*;

use crate::limits::config::LimitsProfileConfig;
use crate::limits::decision::{
    self, decline_reason_label, provider_error_label, DecisionEvent, LimitsMetadata,
};
use crate::limits::types::{
    LimitDecision, LimitDeclineReason, LimitSettleOutcome, LimitsEvaluateResponse,
    LimitsProviderError,
};
use crate::limits::wiring::{self, settle_outcome_label};

verus! {

/// Something that is counted.
#[derive(Debug, PartialEq, Eq)]
pub enum LimitsMetric {
    /// The provider allowed a charge.
    Allowed,
    /// The provider blocked a charge.
    Blocked { reason: LimitDeclineReason },
    /// A call to evaluate a charge failed.
    ProviderError { error: LimitsProviderError },
    /// The fail-mode blocked a charge.
    FailClosed,
    /// The fail-mode allowed a charge.
    FailOpen,
    /// The provider was not called because the breaker is open.
    BreakerOpen,
    /// A charge was allowed because there are no limits.
    FastpathNoLimits,
    /// A charge was allowed because the trigger rule leaves it out.
    SkippedNotTriggered,
    /// A reservation was settled.
    Settled { outcome: LimitSettleOutcome },
    /// A call to settle a reservation failed.
    SettleFailed,
}

impl LimitsMetric {
    /// The name of the counter.
    pub open spec fn name_text(self) -> Seq<char> {
        match self {
            LimitsMetric::Allowed => "LIMITS_ALLOWED"@,
            LimitsMetric::Blocked { .. } => "LIMITS_BLOCKED"@,
            LimitsMetric::ProviderError { .. } => "LIMITS_PROVIDER_ERROR"@,
            LimitsMetric::FailClosed => "LIMITS_FAIL_CLOSED"@,
            LimitsMetric::FailOpen => "LIMITS_FAIL_OPEN"@,
            LimitsMetric::BreakerOpen => "LIMITS_BREAKER_OPEN"@,
            LimitsMetric::FastpathNoLimits => "LIMITS_FASTPATH_NO_LIMITS"@,
            LimitsMetric::SkippedNotTriggered => "LIMITS_SKIPPED_NOT_TRIGGERED"@,
            LimitsMetric::Settled { .. } => "LIMITS_SETTLED"@,
            LimitsMetric::SettleFailed => "LIMITS_SETTLE_FAILED"@,
        }
    }

    /// The name of the counter.
    pub fn name(&self) -> (r: &'static str)
        ensures
            r@ == self.name_text(),
    {
        match self {
            LimitsMetric::Allowed => "LIMITS_ALLOWED",
            LimitsMetric::Blocked { .. } => "LIMITS_BLOCKED",
            LimitsMetric::ProviderError { .. } => "LIMITS_PROVIDER_ERROR",
            LimitsMetric::FailClosed => "LIMITS_FAIL_CLOSED",
            LimitsMetric::FailOpen => "LIMITS_FAIL_OPEN",
            LimitsMetric::BreakerOpen => "LIMITS_BREAKER_OPEN",
            LimitsMetric::FastpathNoLimits => "LIMITS_FASTPATH_NO_LIMITS",
            LimitsMetric::SkippedNotTriggered => "LIMITS_SKIPPED_NOT_TRIGGERED",
            LimitsMetric::Settled { .. } => "LIMITS_SETTLED",
            LimitsMetric::SettleFailed => "LIMITS_SETTLE_FAILED",
        }
    }

    /// The attribute that the counter is told apart by, if it has one: its key
    /// and its value.
    pub open spec fn attribute_text(self) -> Option<(Seq<char>, Seq<char>)> {
        match self {
            LimitsMetric::Blocked { reason } => Some(
                ("reason"@, decision::decline_reason_text(reason)),
            ),
            LimitsMetric::ProviderError { error } => Some(
                ("kind"@, decision::provider_error_text(error)),
            ),
            LimitsMetric::Settled { outcome } => Some(
                ("outcome"@, wiring::settle_outcome_text(outcome)),
            ),
            _ => None,
        }
    }

    /// The attribute that the counter is told apart by, if it has one: its key
    /// and its value.
    pub fn attribute(&self) -> (r: Option<(&'static str, &'static str)>)
        ensures
            match r {
                Some((key, value)) => self.attribute_text() == Some((key@, value@)),
                None => self.attribute_text() is None,
            },
    {
        match self {
            LimitsMetric::Blocked { reason } => Some(("reason", decline_reason_label(*reason))),
            LimitsMetric::ProviderError { error } => Some(("kind", provider_error_label(error))),
            LimitsMetric::Settled { outcome } => Some(("outcome", settle_outcome_label(*outcome))),
            _ => None,
        }
    }
}

/// What is counted when the fail-mode decides.
pub open spec fn fail_mode_metric(fail_closed: bool) -> LimitsMetric {
    if fail_closed {
        LimitsMetric::FailClosed
    } else {
        LimitsMetric::FailOpen
    }
}

/// What is counted for a response.
pub open spec fn response_metric(response: LimitsEvaluateResponse) -> LimitsMetric {
    match response.decision {
        LimitDecision::Allow => LimitsMetric::Allowed,
        LimitDecision::Block => LimitsMetric::Blocked {
            reason: match response.reason {
                Some(reason) => reason,
                None => LimitDeclineReason::LimitExceeded,
            },
        },
    }
}

/// What is counted for a step of a decision: what happened, and whether that
/// decided the charge.
pub open spec fn step_metrics(
    config: LimitsProfileConfig,
    enabled: bool,
    metadata: LimitsMetadata,
    event: DecisionEvent,
    decided: bool,
) -> Seq<LimitsMetric> {
    match event {
        DecisionEvent::Started => if !enabled {
            seq![]
        } else if !decision::triggered(config, metadata) {
            seq![LimitsMetric::SkippedNotTriggered]
        } else if decided {
            seq![LimitsMetric::BreakerOpen, fail_mode_metric(config.fail_closed)]
        } else {
            seq![]
        },
        DecisionEvent::HasLimits(reply) => if reply == Ok::<bool, LimitsProviderError>(false) {
            seq![LimitsMetric::FastpathNoLimits]
        } else {
            seq![]
        },
        DecisionEvent::Evaluated(Ok(response)) => seq![response_metric(response)],
        DecisionEvent::Evaluated(Err(error)) => seq![
            LimitsMetric::ProviderError { error },
            fail_mode_metric(config.fail_closed),
        ],
    }
}

/// What is counted when the fail-mode decides.
fn fail_mode_count(fail_closed: bool) -> (r: LimitsMetric)
    ensures
        r == fail_mode_metric(fail_closed),
{
    if fail_closed {
        LimitsMetric::FailClosed
    } else {
        LimitsMetric::FailOpen
    }
}

/// What is counted for a step of a decision: what happened, and whether that
/// decided the charge.
pub fn decision_metrics(
    config: &LimitsProfileConfig,
    enabled: bool,
    metadata: &LimitsMetadata,
    event: &DecisionEvent,
    decided: bool,
) -> (r: Vec<LimitsMetric>)
    ensures
        r@ == step_metrics(*config, enabled, *metadata, *event, decided),
{
    let mut counts: Vec<LimitsMetric> = Vec::new();
    match event {
        DecisionEvent::Started => {
            if enabled {
                if config.trigger_agentic_only && !metadata.agentic {
                    counts.push(LimitsMetric::SkippedNotTriggered);
                } else if decided {
                    counts.push(LimitsMetric::BreakerOpen);
                    counts.push(fail_mode_count(config.fail_closed));
                }
            }
        },
        DecisionEvent::HasLimits(reply) => {
            if let Ok(false) = reply {
                counts.push(LimitsMetric::FastpathNoLimits);
            }
        },
        DecisionEvent::Evaluated(Ok(response)) => {
            match response.decision {
                LimitDecision::Allow => counts.push(LimitsMetric::Allowed),
                LimitDecision::Block => {
                    let reason = match response.reason {
                        Some(reason) => reason,
                        None => LimitDeclineReason::LimitExceeded,
                    };
                    counts.push(LimitsMetric::Blocked { reason });
                },
            }
        },
        DecisionEvent::Evaluated(Err(error)) => {
            counts.push(LimitsMetric::ProviderError { error: error.clone() });
            counts.push(fail_mode_count(config.fail_closed));
        },
    }
    assert(counts@ =~= step_metrics(*config, enabled, *metadata, *event, decided));
    counts
}

/// What is counted for a settle request that was sent: the outcome that was
/// delivered, or that the call failed.
pub fn settle_metric(outcome: LimitSettleOutcome, delivered: bool) -> (r: LimitsMetric)
    ensures
        r == if delivered {
            LimitsMetric::Settled { outcome }
        } else {
            LimitsMetric::SettleFailed
        },
{
    if delivered {
        LimitsMetric::Settled { outcome }
    } else {
        LimitsMetric::SettleFailed
    }
}

/// What is counted for a step of a decision, by what happened.
pub proof fn law_decision_is_counted(
    config: LimitsProfileConfig,
    enabled: bool,
    metadata: LimitsMetadata,
    event: DecisionEvent,
    decided: bool,
)
    ensures
        ({
            let counted = step_metrics(config, enabled, metadata, event, decided);
            let checked = metadata.agentic || !config.trigger_agentic_only;
            let fail_mode = if config.fail_closed {
                LimitsMetric::FailClosed
            } else {
                LimitsMetric::FailOpen
            };
            &&& event is Started && !enabled ==> counted.len() == 0
            &&& event is Started && enabled && !checked ==> counted == seq![
                LimitsMetric::SkippedNotTriggered,
            ]
            &&& event is Started && enabled && checked && decided ==> counted == seq![
                LimitsMetric::BreakerOpen,
                fail_mode,
            ]
            &&& event is Started && enabled && checked && !decided ==> counted.len() == 0
            &&& event matches DecisionEvent::HasLimits(reply) ==> if reply is Ok && !reply->Ok_0 {
                counted == seq![LimitsMetric::FastpathNoLimits]
            } else {
                counted.len() == 0
            }
            &&& event matches DecisionEvent::Evaluated(Ok(response)) ==> {
                &&& counted.len() == 1
                &&& response.decision == LimitDecision::Allow ==> counted[0]
                    == LimitsMetric::Allowed
                &&& response.decision == LimitDecision::Block ==> counted[0]
                    == (LimitsMetric::Blocked {
                    reason: match response.reason {
                        Some(reason) => reason,
                        None => LimitDeclineReason::LimitExceeded,
                    },
                })
            }
            &&& event matches DecisionEvent::Evaluated(Err(error)) ==> counted == seq![
                LimitsMetric::ProviderError { error },
                fail_mode,
            ]
        }),
{
}

/// The names of counters.
pub proof fn law_names_of_counters(
    reason: LimitDeclineReason,
    error: LimitsProviderError,
    outcome: LimitSettleOutcome,
)
    ensures
        LimitsMetric::Allowed.name_text() == "LIMITS_ALLOWED"@,
        (LimitsMetric::Blocked { reason }).name_text() == "LIMITS_BLOCKED"@,
        (LimitsMetric::ProviderError { error }).name_text() == "LIMITS_PROVIDER_ERROR"@,
        LimitsMetric::FailClosed.name_text() == "LIMITS_FAIL_CLOSED"@,
        LimitsMetric::FailOpen.name_text() == "LIMITS_FAIL_OPEN"@,
        LimitsMetric::BreakerOpen.name_text() == "LIMITS_BREAKER_OPEN"@,
        LimitsMetric::FastpathNoLimits.name_text() == "LIMITS_FASTPATH_NO_LIMITS"@,
        LimitsMetric::SkippedNotTriggered.name_text() == "LIMITS_SKIPPED_NOT_TRIGGERED"@,
        (LimitsMetric::Settled { outcome }).name_text() == "LIMITS_SETTLED"@,
        LimitsMetric::SettleFailed.name_text() == "LIMITS_SETTLE_FAILED"@,
{
}

/// The attributes of counters: the reason of a block, the kind of an error and the
/// outcome of a settlement.
pub proof fn law_counters_are_told_apart(
    reason: LimitDeclineReason,
    error: LimitsProviderError,
    outcome: LimitSettleOutcome,
)
    ensures
        (LimitsMetric::Blocked { reason }).attribute_text() == Some(
            ("reason"@, decision::decline_reason_text(reason)),
        ),
        (LimitsMetric::ProviderError { error }).attribute_text() == Some(
            ("kind"@, decision::provider_error_text(error)),
        ),
        (LimitsMetric::Settled { outcome }).attribute_text() == Some(
            ("outcome"@, wiring::settle_outcome_text(outcome)),
        ),
        LimitsMetric::Allowed.attribute_text() is None,
        LimitsMetric::FailClosed.attribute_text() is None,
        LimitsMetric::FailOpen.attribute_text() is None,
        LimitsMetric::BreakerOpen.attribute_text() is None,
        LimitsMetric::FastpathNoLimits.attribute_text() is None,
        LimitsMetric::SkippedNotTriggered.attribute_text() is None,
        LimitsMetric::SettleFailed.attribute_text() is None,
{
}

} // verus!
