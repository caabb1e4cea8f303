//! A consecutive-failures circuit breaker.
//!
//! Once a threshold of consecutive failures is reached, the breaker opens for a
//! cooldown, during which calls to the provider are skipped. When the cooldown
//! has passed, the next call goes through as a probe. A success closes the
//! breaker.

use vstd::prelude::*;

use crate::clock::{self, Duration, Instant, MonotonicClock};

verus! {

/// The state of a breaker; spans and moments are in nanoseconds.
pub struct BreakerView {
    pub threshold: nat,
    pub cooldown: nat,
    pub consecutive_failures: nat,
    /// When set, the breaker is open until this moment.
    pub open_until: Option<nat>,
}

impl BreakerView {
    /// A breaker that has seen no call.
    pub open spec fn fresh(threshold: nat, cooldown: nat) -> BreakerView {
        BreakerView { threshold, cooldown, consecutive_failures: 0, open_until: None }
    }

    /// Whether a breaker can be in this state: it is open, or has been, only for
    /// failures that reached the threshold.
    pub open spec fn valid(self) -> bool {
        self.open_until is Some ==> self.consecutive_failures >= self.threshold
    }

    /// Whether calls are skipped at the moment `now`.
    pub open spec fn is_open_at(self, now: nat) -> bool {
        self.open_until matches Some(until) && now < until
    }

    /// The breaker once it was asked at `now` whether it is open: a cooldown
    /// that has passed is forgotten.
    pub open spec fn checked_at(self, now: nat) -> BreakerView {
        if self.is_open_at(now) {
            self
        } else {
            BreakerView { open_until: None, ..self }
        }
    }

    /// The breaker after a successful call.
    pub open spec fn succeeded(self) -> BreakerView {
        BreakerView { consecutive_failures: 0, open_until: None, ..self }
    }

    /// The breaker after a call that failed at `now`.
    pub open spec fn failed_at(self, now: nat) -> BreakerView {
        let failures = if self.consecutive_failures < u32::MAX {
            self.consecutive_failures + 1
        } else {
            self.consecutive_failures
        };
        BreakerView {
            consecutive_failures: failures,
            open_until: if failures >= self.threshold {
                Some(now + self.cooldown)
            } else {
                self.open_until
            },
            ..self
        }
    }

    /// The breaker after calls that failed at each of `times`, in order.
    pub open spec fn failed_at_each(self, times: Seq<nat>) -> BreakerView
        decreases times.len(),
    {
        if times.len() == 0 {
            self
        } else {
            self.failed_at_each(times.drop_last()).failed_at(times.last())
        }
    }
}

/// A circuit breaker for the calls of one process.
#[derive(Debug)]
pub struct CircuitBreaker {
    threshold: u32,
    cooldown: Duration,
    consecutive_failures: u32,
    open_until: Option<u128>,
    clock: MonotonicClock,
}

impl View for CircuitBreaker {
    type V = BreakerView;

    closed spec fn view(&self) -> BreakerView {
        BreakerView {
            threshold: self.threshold as nat,
            cooldown: self.cooldown@,
            consecutive_failures: self.consecutive_failures as nat,
            open_until: match self.open_until {
                Some(until) => Some(until as nat),
                None => None,
            },
        }
    }
}

impl CircuitBreaker {
    /// The clock that the end of a cooldown is measured on. It runs on from when
    /// the breaker was made.
    pub closed spec fn spec_clock(self) -> MonotonicClock {
        self.clock
    }

    /// A breaker that opens after `threshold` consecutive failures and stays
    /// open for `cooldown`.
    pub fn new(threshold: u32, cooldown: Duration) -> (r: CircuitBreaker)
        ensures
            r@ == BreakerView::fresh(threshold as nat, cooldown@),
    {
        CircuitBreaker {
            threshold,
            cooldown,
            consecutive_failures: 0,
            open_until: None,
            clock: MonotonicClock::start(),
        }
    }

    /// The present moment on the breaker's clock.
    pub(crate) fn now(&self) -> (r: Instant)
        ensures
            r@ <= clock::MAX_NANOS,
    {
        self.clock.now()
    }

    /// Whether the breaker is open now. If its cooldown has passed, it reports
    /// closed, so that the next call probes the provider.
    pub fn is_open(&mut self) -> (r: bool)
        ensures
            exists|now: nat|
                now <= clock::MAX_NANOS && #[trigger] old(self)@.is_open_at(now) == r
                    && final(self)@ == old(self)@.checked_at(now),
            final(self).spec_clock() == old(self).spec_clock(),
    {
        let now = self.now();
        self.is_open_at(now)
    }

    /// Records a successful call, which closes the breaker.
    pub fn record_success(&mut self)
        ensures
            final(self)@ == old(self)@.succeeded(),
            final(self).spec_clock() == old(self).spec_clock(),
    {
        self.consecutive_failures = 0;
        self.open_until = None;
    }

    /// Records a call that failed now.
    pub fn record_failure(&mut self)
        ensures
            exists|now: nat|
                now <= clock::MAX_NANOS && final(self)@ == #[trigger] old(self)@.failed_at(now),
            final(self).spec_clock() == old(self).spec_clock(),
    {
        let now = self.now();
        self.record_failure_at(now);
    }

    /// Whether the breaker is open at the moment `now`.
    pub fn is_open_at(&mut self, now: Instant) -> (r: bool)
        ensures
            r == old(self)@.is_open_at(now@),
            final(self)@ == old(self)@.checked_at(now@),
            final(self).spec_clock() == old(self).spec_clock(),
    {
        match self.open_until {
            Some(until) => {
                if now.as_nanos() < until {
                    true
                } else {
                    self.open_until = None;
                    false
                }
            },
            None => false,
        }
    }

    /// Records a call that failed at the moment `now`. Opens the breaker once
    /// the threshold of consecutive failures is reached.
    pub fn record_failure_at(&mut self, now: Instant)
        ensures
            final(self)@ == old(self)@.failed_at(now@),
            final(self).spec_clock() == old(self).spec_clock(),
    {
        self.consecutive_failures = self.consecutive_failures.saturating_add(1);
        if self.consecutive_failures >= self.threshold {
            self.open_until = Some(now.as_nanos() + self.cooldown.as_nanos());
        }
    }
}

/// A breaker that has seen only failures is closed below the threshold, and
/// from the threshold on is open for the cooldown after the last of them.
pub proof fn law_opens_at_threshold(threshold: nat, cooldown: nat, times: Seq<nat>, now: nat)
    requires
        0 < times.len() <= u32::MAX,
    ensures
        ({
            let b = BreakerView::fresh(threshold, cooldown).failed_at_each(times);
            b.is_open_at(now) <==> times.len() >= threshold && now < times.last() + cooldown
        }),
{
    lemma_failures_add_up(BreakerView::fresh(threshold, cooldown), times);
}

/// Consecutive failures are counted one by one, and open the breaker from the
/// threshold on.
pub proof fn lemma_failures_add_up(b: BreakerView, times: Seq<nat>)
    requires
        b.consecutive_failures + times.len() <= u32::MAX,
    ensures
        ({
            let after = b.failed_at_each(times);
            let failures = b.consecutive_failures + times.len();
            &&& after.threshold == b.threshold
            &&& after.cooldown == b.cooldown
            &&& after.consecutive_failures == failures
            &&& times.len() > 0 && failures >= b.threshold ==> after.open_until == Some(
                times.last() + b.cooldown,
            )
            &&& times.len() == 0 || failures < b.threshold ==> after.open_until == b.open_until
        }),
    decreases times.len(),
{
    if times.len() > 0 {
        lemma_failures_add_up(b, times.drop_last());
    }
}

/// A new breaker is in a valid state, and whatever happens to it keeps it so.
pub proof fn law_breaker_stays_valid(b: BreakerView, threshold: nat, cooldown: nat, now: nat)
    ensures
        BreakerView::fresh(threshold, cooldown).valid(),
        b.valid() ==> b.checked_at(now).valid(),
        b.succeeded().valid(),
        b.valid() ==> b.failed_at(now).valid(),
{
}

/// A success closes the breaker, and from then on it takes as many failures to
/// open it as if it were new.
pub proof fn law_success_starts_over(b: BreakerView, now: nat)
    ensures
        !b.succeeded().is_open_at(now),
        b.succeeded() == BreakerView::fresh(b.threshold, b.cooldown),
{
}

/// An open breaker reports closed once its cooldown has passed, and keeps its
/// count of failures: if the probe fails, it is open again at once.
pub proof fn law_failed_probe_reopens(b: BreakerView, probed: nat, failed: nat, now: nat)
    requires
        b.valid(),
        b.open_until matches Some(until) && probed >= until,
        now < failed + b.cooldown,
    ensures
        !b.is_open_at(probed),
        b.checked_at(probed).open_until is None,
        b.checked_at(probed).failed_at(failed).is_open_at(now),
{
}

/// What happens to a breaker, field by field. The threshold and the cooldown never
/// change. A failure is counted, and from the threshold on sets the end of the
/// cooldown. A question forgets a cooldown that has passed, and nothing else. A
/// success forgets the failures and the cooldown.
pub proof fn law_breaker_field_by_field(b: BreakerView, threshold: nat, cooldown: nat, now: nat)
    ensures
        ({
            let fresh = BreakerView::fresh(threshold, cooldown);
            &&& fresh.threshold == threshold
            &&& fresh.cooldown == cooldown
            &&& fresh.consecutive_failures == 0
            &&& fresh.open_until is None
        }),
        b.open_until is None ==> !b.is_open_at(now),
        b.open_until matches Some(until) ==> (b.is_open_at(now) <==> now < until),
        ({
            let after = b.checked_at(now);
            &&& after.threshold == b.threshold
            &&& after.cooldown == b.cooldown
            &&& after.consecutive_failures == b.consecutive_failures
            &&& b.open_until is Some && now < b.open_until->0 ==> after.open_until
                == b.open_until
            &&& b.open_until is Some && now >= b.open_until->0 ==> after.open_until is None
            &&& b.open_until is None ==> after.open_until is None
        }),
        ({
            let after = b.succeeded();
            &&& after.threshold == b.threshold
            &&& after.cooldown == b.cooldown
            &&& after.consecutive_failures == 0
            &&& after.open_until is None
        }),
        ({
            let after = b.failed_at(now);
            &&& after.threshold == b.threshold
            &&& after.cooldown == b.cooldown
            &&& b.consecutive_failures < u32::MAX ==> after.consecutive_failures
                == b.consecutive_failures + 1
            &&& b.consecutive_failures >= u32::MAX ==> after.consecutive_failures
                == b.consecutive_failures
            &&& after.consecutive_failures >= b.threshold ==> after.open_until == Some(
                now + b.cooldown,
            )
            &&& after.consecutive_failures < b.threshold ==> after.open_until == b.open_until
        }),
{
}

} // verus!
