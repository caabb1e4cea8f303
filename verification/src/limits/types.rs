//! The requests to a limits provider and its replies.
//!
//! A charge is checked in two phases: `evaluate` reserves budget for it, and
//! `settle` commits, voids or refunds the reservation. `has-limits` tells
//! beforehand whether there is any limit to check. None of these carries
//! cardholder data.

use vstd::prelude::*;

use crate::currency::Currency;
use crate::text;

verus! {

/// Asks the provider to reserve budget for a charge.
#[derive(Debug)]
pub struct LimitsEvaluateRequest {
    /// The payment the charge belongs to.
    pub tx_id: String,
    /// The payment attempt that is checked.
    pub attempt_id: String,
    /// The payment method the charge is drawn against.
    pub payment_method_id: String,
    /// The merchant the charge belongs to.
    pub processor_merchant_id: String,
    /// The amount of the charge, in minor units of `currency`.
    pub amount_minor: i64,
    pub currency: Currency,
    /// Whether the charge was made by an agent.
    pub agentic: bool,
    /// The mandate of the charge, if it has one.
    pub intent_mandate_id: Option<String>,
}

/// The provider's decision on a charge.
#[derive(Debug)]
pub struct LimitsEvaluateResponse {
    pub decision: LimitDecision,
    /// The handle of the reservation, on `Allow`.
    pub reservation_id: Option<String>,
    /// Why the charge was blocked, on `Block`.
    pub reason: Option<LimitDeclineReason>,
    /// The scope of the limit that decided.
    pub scope: Option<String>,
    /// The period of the limit that decided.
    pub period: Option<String>,
    /// The currency of the amounts below.
    pub currency: Option<Currency>,
    /// What is used of the limit, in minor units.
    pub used_minor: Option<i64>,
    /// The limit, in minor units.
    pub max_minor: Option<i64>,
    /// The charge in the currency of the limit, in minor units.
    pub converted_minor: Option<i64>,
}

/// Commits, voids or refunds a reservation.
#[derive(Debug)]
pub struct LimitsSettleRequest {
    /// The payment the charge belongs to.
    pub tx_id: String,
    /// The handle that `evaluate` returned.
    pub reservation_id: String,
    /// What became of the charge.
    pub outcome: LimitSettleOutcome,
    /// What was captured, in minor units.
    pub captured_amount_minor: Option<i64>,
    /// What was refunded, in minor units.
    pub refunded_amount_minor: Option<i64>,
}

/// The provider's reply to a settle request.
#[derive(Clone, Copy, Debug)]
pub struct LimitsSettleResponse {
    /// Whether the settle was applied.
    pub ok: bool,
}

/// The provider's reply to a `has-limits` request.
#[derive(Clone, Copy, Debug)]
pub struct LimitsHasLimitsResponse {
    /// Whether any limit applies, so that the charge must be evaluated.
    pub has_limits: bool,
}

/// Whether a charge is within limits.
#[derive(Clone, Copy, Debug, PartialEq, Eq, Structural)]
pub enum LimitDecision {
    /// The charge is within limits, and budget was reserved.
    Allow,
    /// The charge is blocked.
    Block,
}

/// Why a charge was blocked.
#[derive(Clone, Copy, Debug, PartialEq, Eq, Structural)]
pub enum LimitDeclineReason {
    /// The charge would exceed a limit.
    LimitExceeded,
    /// The charge had to be converted, and there were no rates.
    FxUnavailable,
    /// Limits are not enabled for the subject.
    NotEnabled,
    /// The provider could not be reached or failed.
    ProviderUnavailable,
}

/// What became of a charge.
#[derive(Clone, Copy, Debug, PartialEq, Eq, Structural)]
pub enum LimitSettleOutcome {
    /// The charge succeeded: the reservation is committed.
    Succeeded,
    /// The charge failed: the reservation is voided.
    Failed,
    /// The charge was voided: so is the reservation.
    Voided,
    /// The charge was refunded: the budget is restored.
    Refunded,
}

/// Why a call to the provider failed. A decision to block is not a failure.
#[derive(Debug, PartialEq, Eq)]
pub enum LimitsProviderError {
    /// The call took longer than it may.
    Timeout,
    /// The provider answered with a status other than success.
    Http { status: u16 },
    /// The body of the answer could not be read.
    Decode(String),
    /// The provider could not be reached.
    Unavailable(String),
}

/// A copy of an optional string.
pub(crate) fn clone_text(value: &Option<String>) -> (r: Option<String>)
    ensures
        r == *value,
{
    match value {
        Some(value) => Some(value.clone()),
        None => None,
    }
}

impl Clone for LimitsEvaluateRequest {
    fn clone(&self) -> (r: LimitsEvaluateRequest)
        ensures
            r == *self,
    {
        LimitsEvaluateRequest {
            tx_id: self.tx_id.clone(),
            attempt_id: self.attempt_id.clone(),
            payment_method_id: self.payment_method_id.clone(),
            processor_merchant_id: self.processor_merchant_id.clone(),
            amount_minor: self.amount_minor,
            currency: self.currency,
            agentic: self.agentic,
            intent_mandate_id: clone_text(&self.intent_mandate_id),
        }
    }
}

impl Clone for LimitsEvaluateResponse {
    fn clone(&self) -> (r: LimitsEvaluateResponse)
        ensures
            r == *self,
    {
        LimitsEvaluateResponse {
            decision: self.decision,
            reservation_id: clone_text(&self.reservation_id),
            reason: self.reason,
            scope: clone_text(&self.scope),
            period: clone_text(&self.period),
            currency: self.currency,
            used_minor: self.used_minor,
            max_minor: self.max_minor,
            converted_minor: self.converted_minor,
        }
    }
}

impl Clone for LimitsSettleRequest {
    fn clone(&self) -> (r: LimitsSettleRequest)
        ensures
            r == *self,
    {
        LimitsSettleRequest {
            tx_id: self.tx_id.clone(),
            reservation_id: self.reservation_id.clone(),
            outcome: self.outcome,
            captured_amount_minor: self.captured_amount_minor,
            refunded_amount_minor: self.refunded_amount_minor,
        }
    }
}

impl Clone for LimitsProviderError {
    fn clone(&self) -> (r: LimitsProviderError)
        ensures
            r == *self,
    {
        match self {
            LimitsProviderError::Timeout => LimitsProviderError::Timeout,
            LimitsProviderError::Http { status } => LimitsProviderError::Http { status: *status },
            LimitsProviderError::Decode(detail) => LimitsProviderError::Decode(detail.clone()),
            LimitsProviderError::Unavailable(detail) => {
                LimitsProviderError::Unavailable(detail.clone())
            },
        }
    }
}

impl LimitsProviderError {
    /// The error in words.
    pub open spec fn message_text(self) -> Seq<char> {
        match self {
            LimitsProviderError::Timeout => "limits provider timed out"@,
            LimitsProviderError::Http { status } => {
                "limits provider returned HTTP error: status "@ + text::nat_text(status as nat)
            },
            LimitsProviderError::Decode(detail) => {
                "failed to decode limits provider response: "@ + detail@
            },
            LimitsProviderError::Unavailable(detail) => {
                "limits provider unavailable: "@ + detail@
            },
        }
    }

    /// The error in words.
    pub fn message(&self) -> (r: String)
        ensures
            r@ == self.message_text(),
    {
        match self {
            LimitsProviderError::Timeout => "limits provider timed out".to_owned(),
            LimitsProviderError::Http { status } => text::joined(
                "limits provider returned HTTP error: status ",
                text::u64_text(*status as u64).as_str(),
            ),
            LimitsProviderError::Decode(detail) => text::joined(
                "failed to decode limits provider response: ",
                detail.as_str(),
            ),
            LimitsProviderError::Unavailable(detail) => text::joined(
                "limits provider unavailable: ",
                detail.as_str(),
            ),
        }
    }
}

/// The words of each error: those of a status end in its numeral, and those of a
/// failure in its detail.
pub proof fn law_words_of_provider_errors(status: u16, detail: String)
    ensures
        LimitsProviderError::Timeout.message_text() == "limits provider timed out"@,
        (LimitsProviderError::Http { status }).message_text()
            == "limits provider returned HTTP error: status "@ + text::nat_text(status as nat),
        LimitsProviderError::Decode(detail).message_text()
            == "failed to decode limits provider response: "@ + detail@,
        LimitsProviderError::Unavailable(detail).message_text() == "limits provider unavailable: "@
            + detail@,
{
}

} // verus!
