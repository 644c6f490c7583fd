//! Process-wide FIPS compliance state: two monotone latches, the
//! service-indicator combinator that feeds them, and the status query.
//!
//! The underlying cryptographic module signals "an approved-mode primitive
//! ran" only through a side counter. Call sites read that counter immediately
//! before and after an operation and hand both readings to
//! [`FipsState::indicator_check`], which classifies the outcome and, under
//! strict configuration, poisons the process permanently when the counter did
//! not move. The module's asynchronous self-test failure callback feeds
//! [`FipsState::record_failure`]. [`FipsState::fips_health_status`]
//! aggregates both latches into a single pass/fail verdict.

use vstd::prelude::*;

use crate::error::Unspecified;

verus! {

/// Build-time configuration of compliance tracking, rendered as a value
/// chosen once at start-up.
///
/// `tracking` says whether wrapped calls are measured at all; when it is
/// false the combinator is a pass-through. `strict` says whether a detected
/// non-approved path is enforced by poisoning the process. `status` says
/// whether the module's failure callback is wired to the health latch.
#[derive(Clone, Copy, Debug, PartialEq, Eq, Structural)]
pub struct FipsConfig {
    pub tracking: bool,
    pub strict: bool,
    pub status: bool,
}

/// Records that some approved-call attempt was detected running a
/// non-approved path. One-way: once poisoned, poisoned for the rest of the
/// process lifetime; no operation of this library resets it.
pub struct PoisonLatch {
    poisoned: bool,
}

impl View for PoisonLatch {
    type V = bool;

    /// True exactly when the latch is poisoned.
    closed spec fn view(&self) -> bool {
        self.poisoned
    }
}

impl PoisonLatch {
    /// A fresh latch starts clean.
    pub fn new() -> (r: PoisonLatch)
        ensures
            !r@,
    {
        PoisonLatch { poisoned: false }
    }

    pub fn is_poisoned(&self) -> (r: bool)
        ensures
            r == self@,
    {
        self.poisoned
    }

    /// Establishes poisoning permanently. Idempotent: the resulting state
    /// does not depend on the state before the call.
    pub fn set_poisoned(&mut self)
        ensures
            final(self)@,
    {
        self.poisoned = true;
    }
}

/// A poison latch is determined by what it reports: two latches that report
/// alike are equal. Together with `set_poisoned`'s contract this makes the
/// poisoning operation idempotent at the level of states, not only reports.
pub proof fn lemma_poison_latch_determined(a: PoisonLatch, b: PoisonLatch)
    requires
        a@ == b@,
    ensures
        a == b,
{
}

/// Records whether the module has reported a self-test or runtime-check
/// failure. One-way: healthy until the first failure report, unhealthy ever
/// after.
pub struct HealthLatch {
    healthy: bool,
}

impl View for HealthLatch {
    type V = bool;

    /// True exactly when no failure has ever been reported.
    closed spec fn view(&self) -> bool {
        self.healthy
    }
}

impl HealthLatch {
    /// A fresh latch starts healthy.
    pub fn new() -> (r: HealthLatch)
        ensures
            r@,
    {
        HealthLatch { healthy: true }
    }

    pub fn is_healthy(&self) -> (r: bool)
        ensures
            r == self@,
    {
        self.healthy
    }

    /// The write path of the module's asynchronous failure notification.
    /// Idempotent, and never reversed.
    pub fn record_failure(&mut self)
        ensures
            !final(self)@,
    {
        self.healthy = false;
    }
}

/// A health latch is determined by what it reports.
pub proof fn lemma_health_latch_determined(a: HealthLatch, b: HealthLatch)
    requires
        a@ == b@,
    ensures
        a == b,
{
}

/// A wrapped call's result together with its compliance classification.
///
/// The classification is metadata, never a filter: the result is carried
/// whether or not the call was serviced by approved code.
#[non_exhaustive]
#[derive(Debug, PartialEq, Eq, Clone, Copy)]
pub enum ServiceIndicator<T> {
    Approved(T),
    NotApproved(T),
}

impl<T> ServiceIndicator<T> {
    /// The carried result, whatever the classification.
    pub open spec fn inner_spec(self) -> T {
        match self {
            ServiceIndicator::Approved(t) => t,
            ServiceIndicator::NotApproved(t) => t,
        }
    }

    pub fn is_approved(&self) -> (r: bool)
        ensures
            r == (*self is Approved),
    {
        matches!(self, ServiceIndicator::Approved(_))
    }

    /// Unwraps the carried result, discarding the classification.
    pub fn into_inner(self) -> (r: T)
        ensures
            r == self.inner_spec(),
    {
        match self {
            ServiceIndicator::Approved(t) => t,
            ServiceIndicator::NotApproved(t) => t,
        }
    }
}

/// The mathematical model of the process-wide compliance state: the chosen
/// configuration and the two latch readings.
pub struct FipsModel {
    pub config: FipsConfig,
    pub healthy: bool,
    pub poisoned: bool,
}

/// The process-wide compliance state: configuration fixed at start-up, plus
/// the two latches. The latches are reachable only through the methods
/// below, all of which move them in one direction only.
pub struct FipsState {
    config: FipsConfig,
    health: HealthLatch,
    poison: PoisonLatch,
}

impl View for FipsState {
    type V = FipsModel;

    closed spec fn view(&self) -> FipsModel {
        FipsModel { config: self.config, healthy: self.health@, poisoned: self.poison@ }
    }
}

/// A wrapped call must be poisoned exactly when tracking is on, strict
/// enforcement is configured, and the service indicator did not move across
/// the call.
pub open spec fn should_poison(config: FipsConfig, before: u64, after: u64) -> bool {
    config.tracking && config.strict && before == after
}

/// One observable action on the compliance state: an explicit poisoning, a
/// failure report from the module, or one wrapped call with its two
/// indicator readings.
#[derive(Clone, Copy, Debug, PartialEq, Eq, Structural)]
pub enum FipsEvent {
    Poison,
    HealthFailure,
    IndicatorCheck { before: u64, after: u64 },
}

/// What one event does to the model. Every mutating method of `FipsState`
/// promises exactly this of its event.
pub open spec fn apply_event(m: FipsModel, e: FipsEvent) -> FipsModel {
    match e {
        FipsEvent::Poison => FipsModel { poisoned: true, ..m },
        FipsEvent::HealthFailure => FipsModel { healthy: false, ..m },
        FipsEvent::IndicatorCheck { before, after } => if should_poison(m.config, before, after) {
            FipsModel { poisoned: true, ..m }
        } else {
            m
        },
    }
}

/// The model after a whole sequence of events, first event first.
pub open spec fn run(m: FipsModel, events: Seq<FipsEvent>) -> FipsModel
    decreases events.len(),
{
    if events.len() == 0 {
        m
    } else {
        run(apply_event(m, events[0]), events.drop_first())
    }
}

impl FipsState {
    /// A fresh state: both latches in their good position, the given
    /// configuration fixed for the process lifetime.
    pub fn new(config: FipsConfig) -> (s: FipsState)
        ensures
            s@ == (FipsModel { config, healthy: true, poisoned: false }),
    {
        FipsState { config, health: HealthLatch::new(), poison: PoisonLatch::new() }
    }

    pub fn config(&self) -> (r: FipsConfig)
        ensures
            r == self@.config,
    {
        self.config
    }

    pub fn is_healthy(&self) -> (r: bool)
        ensures
            r == self@.healthy,
    {
        self.health.is_healthy()
    }

    pub fn is_poisoned(&self) -> (r: bool)
        ensures
            r == self@.poisoned,
    {
        self.poison.is_poisoned()
    }

    /// Marks the process non-compliant, permanently.
    pub fn set_poisoned(&mut self)
        ensures
            final(self)@ == apply_event(old(self)@, FipsEvent::Poison),
    {
        self.poison.set_poisoned();
    }

    /// The entry point behind the module's asynchronous failure callback:
    /// marks the process unhealthy, permanently.
    pub fn record_failure(&mut self)
        ensures
            final(self)@ == apply_event(old(self)@, FipsEvent::HealthFailure),
    {
        self.health.record_failure();
    }

    /// Classifies one wrapped call from the service-indicator counter
    /// readings taken immediately before and after it, and enforces strict
    /// compliance.
    ///
    /// A moved counter means the call was serviced by approved code: the
    /// outcome is `Approved` and nothing is poisoned, whatever the
    /// configuration. An unmoved counter under strict tracking poisons the
    /// latch and classifies `NotApproved`; under any other configuration it
    /// is advisory only, so the outcome is `Approved` and the state is left
    /// alone. The wrapped call's own result is carried in either case.
    pub fn indicator_check<T>(&mut self, before: u64, after: u64, result: T) -> (r:
        ServiceIndicator<T>)
        ensures
            final(self)@ == apply_event(
                old(self)@,
                (FipsEvent::IndicatorCheck { before, after }),
            ),
            r == if should_poison(old(self)@.config, before, after) {
                ServiceIndicator::NotApproved(result)
            } else {
                ServiceIndicator::Approved(result)
            },
            r.inner_spec() == result,
            before != after ==> r is Approved && final(self)@ == old(self)@,
            before == after && old(self)@.config.tracking && old(self)@.config.strict
                ==> final(self)@.poisoned && r is NotApproved,
            before == after && !(old(self)@.config.tracking && old(self)@.config.strict)
                ==> r is Approved && final(self)@ == old(self)@,
    {
        if self.config.tracking && self.config.strict && before == after {
            self.poison.set_poisoned();
            ServiceIndicator::NotApproved(result)
        } else {
            ServiceIndicator::Approved(result)
        }
    }

    /// The aggregate compliance verdict.
    ///
    /// Available only when some compliance feature is configured; succeeds
    /// exactly when the module is healthy and, under strict configuration,
    /// the poison latch is still clean. The error carries no detail on
    /// purpose: internal compliance diagnostics are not to be probed through
    /// this channel.
    pub fn fips_health_status(&self) -> (r: Result<(), Unspecified>)
        requires
            self@.config.strict || self@.config.status,
        ensures
            r is Ok <==> (self@.healthy && (self@.config.strict ==> !self@.poisoned)),
    {
        let mut status = self.health.is_healthy();
        if self.config.strict {
            status = status && !self.poison.is_poisoned();
        }
        if status {
            Ok(())
        } else {
            Err(Unspecified)
        }
    }
}

/// Once the model is poisoned, it stays poisoned under every sequence of
/// events: no operation of this library resets the poison latch.
pub proof fn lemma_poisoned_monotone(m: FipsModel, events: Seq<FipsEvent>)
    requires
        m.poisoned,
    ensures
        run(m, events).poisoned,
    decreases events.len(),
{
    if events.len() > 0 {
        lemma_poisoned_monotone(apply_event(m, events[0]), events.drop_first());
    }
}

/// Once the model is unhealthy, it stays unhealthy under every sequence of
/// events: no operation of this library resets the health latch.
pub proof fn lemma_unhealthy_monotone(m: FipsModel, events: Seq<FipsEvent>)
    requires
        !m.healthy,
    ensures
        !run(m, events).healthy,
    decreases events.len(),
{
    if events.len() > 0 {
        lemma_unhealthy_monotone(apply_event(m, events[0]), events.drop_first());
    }
}

/// The configuration is fixed for the process lifetime: no event changes it.
pub proof fn lemma_run_preserves_config(m: FipsModel, events: Seq<FipsEvent>)
    ensures
        run(m, events).config == m.config,
    decreases events.len(),
{
    if events.len() > 0 {
        lemma_run_preserves_config(apply_event(m, events[0]), events.drop_first());
    }
}

/// Poisoning twice in succession leaves the model exactly where poisoning
/// once leaves it.
pub proof fn lemma_set_poisoned_idempotent(m: FipsModel)
    ensures
        apply_event(apply_event(m, FipsEvent::Poison), FipsEvent::Poison) == apply_event(
            m,
            FipsEvent::Poison,
        ),
{
}

/// No poisoning is ever lost: if any call in a sequence was one that should
/// poison (strict tracking, indicator unmoved), the final state is poisoned,
/// whatever happened before or after it.
pub proof fn lemma_poisoning_call_never_lost(m: FipsModel, events: Seq<FipsEvent>, i: int)
    requires
        0 <= i < events.len(),
        events[i] matches FipsEvent::IndicatorCheck { before, after } && should_poison(
            m.config,
            before,
            after,
        ),
    ensures
        run(m, events).poisoned,
    decreases events.len(),
{
    let next = apply_event(m, events[0]);
    if i == 0 {
        lemma_poisoned_monotone(next, events.drop_first());
    } else {
        assert(events.drop_first()[i - 1] == events[i]);
        lemma_poisoning_call_never_lost(next, events.drop_first(), i - 1);
    }
}

} // verus!

