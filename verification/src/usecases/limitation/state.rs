//! The Controllable System state machine of Limitation of Power Consumption and Production.
//!
//! This is what a heat pump, wallbox, battery, inverter or energy manager runs when a grid
//! operator's control box limits it. One machine serves both directions. [`CsView`] is the
//! machine as a mathematical value; every method of [`ControllableSystem`] is stated as a step
//! of it.

use super::Direction;
use crate::model::ErrorNumber;
use crate::number::Number;
use crate::time::{after, earlier, elapsed, Duration};
use crate::usecases::signals::{
    number_fact, qualified, seconds_fact, Signal, SignalFact, SignalSet, SignalValue, SignalView,
};
use vstd::prelude::*;

verus! {

/// No heartbeat for this long, in nanoseconds, moves the system into the failsafe state.
pub const HEARTBEAT_TIMEOUT: u128 = 120_000_000_000;

/// A limit write counts only if a heartbeat arrived within this many nanoseconds before it.
pub const WRITE_WINDOW: u128 = 60_000_000_000;

/// How long, in nanoseconds, a system waits for a heartbeat and a following limit write before
/// it runs unlimited.
pub const SETTLE_TIMEOUT: u128 = 120_000_000_000;

/// The shortest failsafe duration minimum: two hours, in nanoseconds.
pub const FAILSAFE_DURATION_LEAST: u128 = 7_200_000_000_000;

/// The longest failsafe duration minimum: twenty-four hours, in nanoseconds.
pub const FAILSAFE_DURATION_MOST: u128 = 86_400_000_000_000;

/// The states of a Controllable System.
#[derive(Clone, Copy, Debug, PartialEq, Eq, Structural)]
pub enum LimitationState {
    /// Just (re)started: limited by the failsafe value until the Energy Guard is heard from.
    Init,
    /// Under the Energy Guard's control, with an active limit applied.
    Limited,
    /// Under the Energy Guard's control, with no limit in force.
    UnlimitedControlled,
    /// The Energy Guard has gone quiet; the failsafe value applies.
    FailsafeState,
    /// The Energy Guard has been absent long enough that the system runs on its own.
    UnlimitedAutonomous,
}

impl LimitationState {
    /// The state's name.
    pub open spec fn name(self) -> Seq<char> {
        match self {
            LimitationState::Init => "init"@,
            LimitationState::Limited => "limited"@,
            LimitationState::UnlimitedControlled => "unlimited/controlled"@,
            LimitationState::FailsafeState => "failsafe state"@,
            LimitationState::UnlimitedAutonomous => "unlimited/autonomous"@,
        }
    }

    /// The name of the state's test configuration.
    pub open spec fn configuration(self) -> Seq<char> {
        match self {
            LimitationState::Init => "CF_CS_Init"@,
            LimitationState::Limited => "CF_CS_Limited"@,
            LimitationState::UnlimitedControlled => "CF_CS_UnlCntrl"@,
            LimitationState::FailsafeState => "CF_CS_FS"@,
            LimitationState::UnlimitedAutonomous => "CF_CS_UnlAuto"@,
        }
    }

    /// The two states in which an Energy Guard is in control.
    pub open spec fn controlled(self) -> bool {
        self is Limited || self is UnlimitedControlled
    }

    /// The state's name as a laboratory reads it off a debug interface.
    pub fn as_str(self) -> (r: &'static str)
        ensures
            r@ == self.name(),
    {
        match self {
            LimitationState::Init => "init",
            LimitationState::Limited => "limited",
            LimitationState::UnlimitedControlled => "unlimited/controlled",
            LimitationState::FailsafeState => "failsafe state",
            LimitationState::UnlimitedAutonomous => "unlimited/autonomous",
        }
    }

    /// The test configuration that abstract test cases name this state by.
    pub fn test_configuration(self) -> (r: &'static str)
        ensures
            r@ == self.configuration(),
    {
        match self {
            LimitationState::Init => "CF_CS_Init",
            LimitationState::Limited => "CF_CS_Limited",
            LimitationState::UnlimitedControlled => "CF_CS_UnlCntrl",
            LimitationState::FailsafeState => "CF_CS_FS",
            LimitationState::UnlimitedAutonomous => "CF_CS_UnlAuto",
        }
    }
}

/// What the system is actually limited to right now.
#[derive(Clone, Copy, Debug, PartialEq, Eq, Structural)]
pub enum EffectiveLimit {
    /// No limitation.
    Unrestricted,
    /// The Energy Guard's active power limit, in watts.
    Active(Number),
    /// The failsafe active power limit, in watts.
    Failsafe(Number),
}

impl EffectiveLimit {
    /// The limit as a number, where there is one.
    pub open spec fn amount(self) -> Option<Number> {
        match self {
            EffectiveLimit::Unrestricted => None,
            EffectiveLimit::Active(watts) => Some(watts),
            EffectiveLimit::Failsafe(watts) => Some(watts),
        }
    }

    /// The limit in watts, or `None` when the device is unrestricted.
    pub fn watts(self) -> (r: Option<Number>)
        ensures
            r == self.amount(),
    {
        match self {
            EffectiveLimit::Unrestricted => None,
            EffectiveLimit::Active(watts) => Some(watts),
            EffectiveLimit::Failsafe(watts) => Some(watts),
        }
    }
}

/// A write on the active power limit.
#[derive(Clone, Copy, Debug, PartialEq, Eq, Structural)]
pub struct LimitWrite {
    /// Whether the limit is in force.
    pub is_active: bool,
    /// The limit in watts. Always at or above zero in a valid write.
    pub watts: Number,
    /// How long the limit is valid, counted from the arrival of the write.
    pub duration: Option<Duration>,
}

impl LimitWrite {
    /// An activated limit without a duration.
    pub fn active(watts: Number) -> (r: LimitWrite)
        ensures
            r == (LimitWrite { is_active: true, watts, duration: None }),
    {
        LimitWrite { is_active: true, watts, duration: None }
    }

    /// An activated limit valid for `duration`.
    pub fn active_for(watts: Number, duration: Duration) -> (r: LimitWrite)
        ensures
            r == (LimitWrite { is_active: true, watts, duration: Some(duration) }),
    {
        LimitWrite { is_active: true, watts, duration: Some(duration) }
    }

    /// A deactivated limit, which lifts an earlier limitation.
    pub fn deactivated() -> (r: LimitWrite)
        ensures
            r == (LimitWrite { is_active: false, watts: Number::Finite(0), duration: None }),
    {
        LimitWrite { is_active: false, watts: Number::Finite(0), duration: None }
    }

    /// Whether applying this write leaves a limit in force: a duration of zero ends it at once.
    pub open spec fn takes_hold(self) -> bool {
        self.is_active && !(self.duration matches Some(d) && d.nanos == 0)
    }
}

/// Whether the device can actually follow a limit it has been sent.
#[derive(Clone, Copy, Debug, PartialEq, Eq, Structural)]
pub enum LocalDecision {
    /// The device will follow the limit.
    Apply,
    /// The device cannot follow it, for one of the permitted reasons.
    Reject(RejectReason),
}

/// Why a Controllable System may refuse a limit.
#[derive(Clone, Copy, Debug, PartialEq, Eq, Structural)]
pub enum RejectReason {
    /// Following the limit would damage the device.
    SelfProtection,
    /// A safety-related activity is under way.
    SafetyRelated,
    /// A legal or regulatory requirement takes precedence.
    Regulatory,
    /// Uncontrolled loads prevent an energy manager from reaching the limit.
    UncontrolledLoads,
}

impl RejectReason {
    /// The reason in words.
    pub open spec fn text(self) -> Seq<char> {
        match self {
            RejectReason::SelfProtection => "self-protection"@,
            RejectReason::SafetyRelated => "safety-related activity"@,
            RejectReason::Regulatory => "legal or regulatory requirement"@,
            RejectReason::UncontrolledLoads =>
                "uncontrolled loads prevent achieving the limit"@,
        }
    }

    /// The reason in words.
    pub fn message(self) -> (r: String)
        ensures
            r@ == self.text(),
    {
        match self {
            RejectReason::SelfProtection => String::from_str("self-protection"),
            RejectReason::SafetyRelated => String::from_str("safety-related activity"),
            RejectReason::Regulatory => String::from_str("legal or regulatory requirement"),
            RejectReason::UncontrolledLoads => String::from_str(
                "uncontrolled loads prevent achieving the limit",
            ),
        }
    }
}

/// What a write was answered with.
#[derive(Clone, Copy, Debug, PartialEq, Eq, Structural)]
pub enum WriteOutcome {
    /// Accepted.
    Accepted,
    /// Refused.
    Rejected(NackReason),
}

impl WriteOutcome {
    /// The number this outcome is reported with.
    pub open spec fn number(self) -> ErrorNumber {
        match self {
            WriteOutcome::Accepted => ErrorNumber::NoError,
            WriteOutcome::Rejected(_) => ErrorNumber::CommandRejected,
        }
    }

    /// True for an acceptance.
    pub fn is_accepted(self) -> (r: bool)
        ensures
            r == (self == WriteOutcome::Accepted),
    {
        match self {
            WriteOutcome::Accepted => true,
            WriteOutcome::Rejected(_) => false,
        }
    }

    /// The `errorNumber` this outcome is reported with.
    ///
    /// The reason of a refusal is local and is not sent to the Energy Guard.
    pub fn error_number(self) -> (r: ErrorNumber)
        ensures
            r == self.number(),
    {
        match self {
            WriteOutcome::Accepted => ErrorNumber::NoError,
            WriteOutcome::Rejected(_) => ErrorNumber::CommandRejected,
        }
    }
}

/// Why a write was refused.
#[derive(Clone, Copy, Debug, PartialEq, Eq, Structural)]
pub enum NackReason {
    /// The device cannot follow the value.
    CannotApply(RejectReason),
    /// A negative limit.
    NegativeValue,
    /// A limit that is not a finite number.
    NotFinite,
    /// A failsafe duration outside the permitted range.
    DurationOutOfRange,
    /// A write that arrived without a recent heartbeat.
    NoRecentHeartbeat,
    /// A write on a data point other than the limit, before the opening sequence of a heartbeat
    /// and a limit write has completed.
    SequenceIncomplete,
    /// The write named this system's limit but carried a value that could not be read.
    Unreadable,
    /// The peer refused and did not say why.
    Unstated,
}

impl NackReason {
    /// The reason in words.
    pub open spec fn text(self) -> Seq<char> {
        match self {
            NackReason::CannotApply(reason) => "cannot apply the value: "@ + reason.text(),
            NackReason::NegativeValue => "a limit below zero is not permitted"@,
            NackReason::NotFinite => "the limit is not a finite value"@,
            NackReason::DurationOutOfRange =>
                "the failsafe duration minimum must be between 2 and 24 hours"@,
            NackReason::NoRecentHeartbeat => "no heartbeat within the last 60 seconds"@,
            NackReason::SequenceIncomplete =>
                "the heartbeat-then-limit sequence has not completed"@,
            NackReason::Unreadable => "the limit value could not be read"@,
            NackReason::Unstated => "the peer refused without stating a reason"@,
        }
    }

    /// The reason in words.
    pub fn message(self) -> (r: String)
        ensures
            r@ == self.text(),
    {
        match self {
            NackReason::CannotApply(reason) => {
                let mut text = String::from_str("cannot apply the value: ");
                text.append(reason.message().as_str());
                text
            },
            NackReason::NegativeValue => String::from_str("a limit below zero is not permitted"),
            NackReason::NotFinite => String::from_str("the limit is not a finite value"),
            NackReason::DurationOutOfRange => String::from_str(
                "the failsafe duration minimum must be between 2 and 24 hours",
            ),
            NackReason::NoRecentHeartbeat => String::from_str(
                "no heartbeat within the last 60 seconds",
            ),
            NackReason::SequenceIncomplete => String::from_str(
                "the heartbeat-then-limit sequence has not completed",
            ),
            NackReason::Unreadable => String::from_str("the limit value could not be read"),
            NackReason::Unstated => String::from_str("the peer refused without stating a reason"),
        }
    }
}

/// How a Controllable System is set up.
#[derive(Clone, Copy, Debug, PartialEq, Eq, Structural)]
pub struct CsConfig {
    /// The failsafe active power limit in watts.
    pub failsafe_watts: Number,
    /// The failsafe duration minimum.
    pub failsafe_duration: Duration,
    /// The largest failsafe duration minimum this device accepts.
    pub failsafe_duration_max: Duration,
    /// The nominal maximum power of a device.
    pub nominal_max_watts: Option<Number>,
    /// The contractual maximum of an energy manager.
    pub contractual_max_watts: Option<Number>,
    /// Whether this Controllable System runs inside a Customer Energy Manager.
    pub on_cem: bool,
}

impl CsConfig {
    /// A configuration with the two mandatory failsafe values.
    pub fn new(failsafe_watts: Number, failsafe_duration: Duration) -> (r: CsConfig)
        ensures
            r == (CsConfig {
                failsafe_watts,
                failsafe_duration,
                failsafe_duration_max: Duration { nanos: FAILSAFE_DURATION_MOST },
                nominal_max_watts: None,
                contractual_max_watts: None,
                on_cem: false,
            }),
    {
        CsConfig {
            failsafe_watts,
            failsafe_duration,
            failsafe_duration_max: Duration { nanos: FAILSAFE_DURATION_MOST },
            nominal_max_watts: None,
            contractual_max_watts: None,
            on_cem: false,
        }
    }

    /// Says this Controllable System runs inside a Customer Energy Manager.
    #[must_use]
    pub fn on_cem(self) -> (r: CsConfig)
        ensures
            r == (CsConfig { on_cem: true, ..self }),
    {
        CsConfig { on_cem: true, ..self }
    }

    /// Sets the device's nominal maximum.
    #[must_use]
    pub fn with_nominal_max(self, watts: Number) -> (r: CsConfig)
        ensures
            r == (CsConfig { nominal_max_watts: Some(watts), ..self }),
    {
        CsConfig { nominal_max_watts: Some(watts), ..self }
    }

    /// Sets the contractual maximum of an energy manager.
    #[must_use]
    pub fn with_contractual_max(self, watts: Number) -> (r: CsConfig)
        ensures
            r == (CsConfig { contractual_max_watts: Some(watts), ..self }),
    {
        CsConfig { contractual_max_watts: Some(watts), ..self }
    }
}

/// A Controllable System as a mathematical value.
pub struct CsView {
    /// The configuration, with the failsafe values as last written.
    pub config: CsConfig,
    /// The current state.
    pub state: LimitationState,
    /// The last limit that was accepted and not interrupted since.
    pub limit: Option<LimitWrite>,
    /// When that limit's duration runs out.
    pub limit_expiry: Option<Duration>,
    /// When the Energy Guard was last heard.
    pub last_heartbeat: Option<Duration>,
    /// When the current state was entered.
    pub entered_state_at: Duration,
    /// When a heartbeat first arrived in a failsafe state that waits for a limit write.
    pub awaiting_write_since: Option<Duration>,
    /// Whether a limit write has been evaluated since control was last lost.
    pub sequence_complete: bool,
}

impl CsView {
    /// A system that has just started.
    pub open spec fn started(config: CsConfig, now: Duration) -> CsView {
        CsView {
            config,
            state: LimitationState::Init,
            limit: None,
            limit_expiry: None,
            last_heartbeat: None,
            entered_state_at: now,
            awaiting_write_since: None,
            sequence_complete: false,
        }
    }

    /// What holds in every reachable state: a limit that is held is a valid one, the limited
    /// state has an activated one, the opening sequence counts as complete only under control,
    /// and only the failsafe state waits for a write.
    pub open spec fn wf(self) -> bool {
        &&& self.limit matches Some(limit) ==> limit.watts.finite() && !limit.watts.negative()
        &&& self.state is Limited ==> (self.limit matches Some(limit) && limit.is_active)
        &&& self.sequence_complete ==> self.state.controlled()
        &&& self.awaiting_write_since is Some ==> self.state is FailsafeState
    }

    /// What the system is limited to.
    pub open spec fn effective(self) -> EffectiveLimit {
        match self.state {
            LimitationState::Init | LimitationState::FailsafeState =>
                EffectiveLimit::Failsafe(self.config.failsafe_watts),
            LimitationState::Limited => match self.limit {
                Some(limit) => if limit.is_active {
                    EffectiveLimit::Active(limit.watts)
                } else {
                    EffectiveLimit::Unrestricted
                },
                None => EffectiveLimit::Unrestricted,
            },
            _ => EffectiveLimit::Unrestricted,
        }
    }

    /// The most power the device may draw or feed in.
    pub open spec fn ceiling(self) -> Option<Number> {
        match (self.effective().amount(), self.config.contractual_max_watts) {
            (Some(limit), Some(contract)) => Some(limit.smaller(contract)),
            (Some(limit), None) => Some(limit),
            (None, contract) => contract,
        }
    }

    /// Whether the limit is activated.
    pub open spec fn limit_active(self) -> bool {
        self.state is Limited && (self.limit matches Some(limit) && limit.is_active)
    }

    /// From when the Energy Guard's silence is counted.
    pub open spec fn quiet_since(self) -> Duration {
        match self.last_heartbeat {
            Some(heartbeat) => heartbeat,
            None => self.entered_state_at,
        }
    }

    /// Whether a heartbeat arrived within the write window.
    pub open spec fn heard_recently(self, now: Duration) -> bool {
        self.last_heartbeat matches Some(heartbeat) && elapsed(now, heartbeat) < WRITE_WINDOW
    }

    /// Whether writes are not evaluated at all: nobody is in control, and no heartbeat opened
    /// the window.
    pub open spec fn gated(self, now: Duration) -> bool {
        !self.state.controlled() && !self.heard_recently(now)
    }

    /// The system in `state`; entering the state it is in changes nothing.
    pub open spec fn entering(self, state: LimitationState, now: Duration) -> CsView {
        if self.state == state {
            self
        } else {
            CsView {
                state,
                entered_state_at: now,
                awaiting_write_since: None,
                sequence_complete: self.sequence_complete && state.controlled(),
                ..self
            }
        }
    }

    /// In a controlled state, the Energy Guard has been quiet for too long.
    pub open spec fn guard_lost(self, now: Duration) -> bool {
        self.state.controlled() && elapsed(now, self.quiet_since()) >= HEARTBEAT_TIMEOUT
    }

    /// The limit in force has run out.
    pub open spec fn limit_expired(self, now: Duration) -> bool {
        self.state is Limited && (self.limit_expiry matches Some(expiry)
            && expiry.nanos <= now.nanos)
    }

    /// A system waiting for an Energy Guard has waited long enough.
    pub open spec fn waited_out(self, now: Duration) -> bool {
        match self.state {
            LimitationState::Init => elapsed(now, self.entered_state_at) >= SETTLE_TIMEOUT,
            LimitationState::FailsafeState => {
                ||| elapsed(now, self.entered_state_at) >= self.config.failsafe_duration.nanos
                ||| self.awaiting_write_since matches Some(since)
                    && elapsed(now, since) >= SETTLE_TIMEOUT
            },
            _ => false,
        }
    }

    /// The system once its timers are brought up to `now`.
    pub open spec fn timed_out(self, now: Duration) -> CsView {
        if self.guard_lost(now) {
            self.entering(LimitationState::FailsafeState, now)
        } else if self.limit_expired(now) {
            self.entering(LimitationState::UnlimitedControlled, now)
        } else if self.waited_out(now) {
            self.entering(LimitationState::UnlimitedAutonomous, now)
        } else {
            self
        }
    }

    /// When the timers have to be looked at next.
    pub open spec fn deadline(self) -> Option<Duration> {
        match self.state {
            LimitationState::Limited => {
                let quiet = after(self.quiet_since(), HEARTBEAT_TIMEOUT as int);
                match self.limit_expiry {
                    Some(expiry) => Some(earlier(quiet, expiry)),
                    None => Some(quiet),
                }
            },
            LimitationState::UnlimitedControlled => Some(
                after(self.quiet_since(), HEARTBEAT_TIMEOUT as int),
            ),
            LimitationState::Init => Some(after(self.entered_state_at, SETTLE_TIMEOUT as int)),
            LimitationState::FailsafeState => {
                let minimum = after(
                    self.entered_state_at,
                    self.config.failsafe_duration.nanos as int,
                );
                match self.awaiting_write_since {
                    Some(since) => Some(earlier(minimum, after(since, SETTLE_TIMEOUT as int))),
                    None => Some(minimum),
                }
            },
            LimitationState::UnlimitedAutonomous => None,
        }
    }

    /// The system after a heartbeat.
    pub open spec fn heard(self, now: Duration) -> CsView {
        CsView {
            last_heartbeat: Some(now),
            awaiting_write_since: if self.state is FailsafeState
                && self.awaiting_write_since is None {
                Some(now)
            } else {
                self.awaiting_write_since
            },
            ..self
        }
    }

    /// Why an evaluated limit write is refused, if it is.
    pub open spec fn refusal(write: LimitWrite, decision: LocalDecision) -> Option<NackReason> {
        if !write.watts.finite() {
            Some(NackReason::NotFinite)
        } else if write.watts.negative() {
            Some(NackReason::NegativeValue)
        } else {
            match decision {
                LocalDecision::Reject(reason) => Some(NackReason::CannotApply(reason)),
                LocalDecision::Apply => None,
            }
        }
    }

    /// The system after an evaluated limit write was refused.
    pub open spec fn refused(self, now: Duration) -> CsView {
        let moved = if self.state.controlled() {
            self
        } else {
            self.entering(LimitationState::UnlimitedControlled, now)
        };
        CsView { sequence_complete: true, awaiting_write_since: None, ..moved }
    }

    /// The system after a limit write was applied.
    pub open spec fn applied(self, write: LimitWrite, now: Duration) -> CsView {
        let holding = CsView {
            sequence_complete: true,
            awaiting_write_since: None,
            limit: Some(write),
            limit_expiry: match write.duration {
                Some(duration) => Some(after(now, duration.nanos as int)),
                None => None,
            },
            ..self
        };
        if write.takes_hold() {
            holding.entering(LimitationState::Limited, now)
        } else {
            holding.entering(LimitationState::UnlimitedControlled, now)
        }
    }

    /// A limit write: the system after it, and the answer.
    pub open spec fn limit_written(
        self,
        write: LimitWrite,
        decision: LocalDecision,
        now: Duration,
    ) -> (CsView, WriteOutcome) {
        let ticked = self.timed_out(now);
        if ticked.gated(now) {
            (ticked, WriteOutcome::Rejected(NackReason::NoRecentHeartbeat))
        } else {
            match CsView::refusal(write, decision) {
                Some(reason) => (ticked.refused(now), WriteOutcome::Rejected(reason)),
                None => (ticked.applied(write, now), WriteOutcome::Accepted),
            }
        }
    }

    /// A limit write whose value could not be read: the system after it, and the answer.
    pub open spec fn unreadable_written(self, now: Duration) -> (CsView, WriteOutcome) {
        let ticked = self.timed_out(now);
        if ticked.gated(now) {
            (ticked, WriteOutcome::Rejected(NackReason::NoRecentHeartbeat))
        } else {
            (ticked.refused(now), WriteOutcome::Rejected(NackReason::Unreadable))
        }
    }

    /// Why a write on anything but the limit is not evaluated, if it is not.
    pub open spec fn barred(self, now: Duration) -> Option<NackReason> {
        if !self.sequence_complete {
            Some(NackReason::SequenceIncomplete)
        } else if self.gated(now) {
            Some(NackReason::NoRecentHeartbeat)
        } else {
            None
        }
    }

    /// Why a write on the failsafe limit is refused, if it is.
    pub open spec fn failsafe_limit_refusal(self, watts: Number, now: Duration) -> Option<
        NackReason,
    > {
        match self.barred(now) {
            Some(reason) => Some(reason),
            None => if !watts.finite() {
                Some(NackReason::NotFinite)
            } else if watts.negative() {
                Some(NackReason::NegativeValue)
            } else {
                None
            },
        }
    }

    /// A write on the failsafe limit: the system after it, and the answer.
    pub open spec fn failsafe_limit_written(self, watts: Number, now: Duration) -> (
        CsView,
        WriteOutcome,
    ) {
        let ticked = self.timed_out(now);
        match ticked.failsafe_limit_refusal(watts, now) {
            Some(reason) => (ticked, WriteOutcome::Rejected(reason)),
            None => (
                CsView {
                    config: CsConfig { failsafe_watts: watts, ..ticked.config },
                    ..ticked
                },
                WriteOutcome::Accepted,
            ),
        }
    }

    /// Why a write on the failsafe duration minimum is refused, if it is.
    pub open spec fn failsafe_duration_refusal(self, duration: Duration, now: Duration) -> Option<
        NackReason,
    > {
        match self.barred(now) {
            Some(reason) => Some(reason),
            None => if FAILSAFE_DURATION_LEAST <= duration.nanos <= FAILSAFE_DURATION_MOST
                && duration.nanos <= self.config.failsafe_duration_max.nanos {
                None
            } else {
                Some(NackReason::DurationOutOfRange)
            },
        }
    }

    /// A write on the failsafe duration minimum: the system after it, and the answer.
    pub open spec fn failsafe_duration_written(self, duration: Duration, now: Duration) -> (
        CsView,
        WriteOutcome,
    ) {
        let ticked = self.timed_out(now);
        match ticked.failsafe_duration_refusal(duration, now) {
            Some(reason) => (ticked, WriteOutcome::Rejected(reason)),
            None => (
                CsView {
                    config: CsConfig { failsafe_duration: duration, ..ticked.config },
                    ..ticked
                },
                WriteOutcome::Accepted,
            ),
        }
    }

    /// Whether the device itself may end the limitation for this reason.
    pub open spec fn may_interrupt(self, reason: RejectReason) -> bool {
        self.state is Limited && (reason is UncontrolledLoads ==> self.config.on_cem)
    }

    /// The system after the device asked to end the limitation.
    pub open spec fn interrupted(self, reason: RejectReason, now: Duration) -> CsView {
        if self.may_interrupt(reason) {
            CsView { limit: None, limit_expiry: None, ..self }.entering(
                LimitationState::UnlimitedControlled,
                now,
            )
        } else {
            self
        }
    }

    /// The signals, in the order of the parameter sheet.
    pub open spec fn signals(self, direction: Direction) -> Seq<SignalView> {
        let prefix = direction.prefix();
        let watts = Some("W"@);
        seq![
            SignalView {
                name: qualified(prefix, "state"@),
                value: SignalFact::Text(self.state.name()),
                unit: None,
            },
            SignalView {
                name: qualified(prefix, "limit"@),
                value: match self.limit {
                    Some(limit) if self.state is Limited => SignalFact::Number(limit.watts),
                    _ => SignalFact::Absent,
                },
                unit: watts,
            },
            SignalView {
                name: qualified(prefix, "duration"@),
                value: match self.limit {
                    Some(limit) => seconds_fact(limit.duration),
                    None => SignalFact::Absent,
                },
                unit: None,
            },
            SignalView {
                name: qualified(prefix, "isActive"@),
                value: SignalFact::Bool(self.limit_active()),
                unit: None,
            },
            SignalView {
                name: qualified(prefix, "failsafeLimit"@),
                value: SignalFact::Number(self.config.failsafe_watts),
                unit: watts,
            },
            SignalView {
                name: qualified(prefix, "failsafeDuration"@),
                value: SignalFact::Seconds(self.config.failsafe_duration),
                unit: None,
            },
            SignalView {
                name: qualified(prefix, "nominalMax"@),
                value: if self.config.on_cem {
                    SignalFact::Absent
                } else {
                    number_fact(self.config.nominal_max_watts)
                },
                unit: watts,
            },
            SignalView {
                name: qualified(prefix, "contractualMax"@),
                value: if self.config.on_cem {
                    number_fact(self.config.contractual_max_watts)
                } else {
                    SignalFact::Absent
                },
                unit: watts,
            },
            SignalView {
                name: qualified(prefix, "effectiveLimit"@),
                value: number_fact(self.effective().amount()),
                unit: watts,
            },
            SignalView {
                name: qualified(prefix, "powerCeiling"@),
                value: number_fact(self.ceiling()),
                unit: watts,
            },
            SignalView {
                name: qualified(prefix, "lastHeartbeat"@),
                value: seconds_fact(self.last_heartbeat),
                unit: None,
            },
            SignalView {
                name: qualified(prefix, "nextDeadline"@),
                value: seconds_fact(self.deadline()),
                unit: None,
            },
        ]
    }
}

/// The Controllable System actor of Limitation of Power Consumption or Production.
#[derive(Clone, Debug)]
pub struct ControllableSystem {
    config: CsConfig,
    state: LimitationState,
    limit: Option<LimitWrite>,
    limit_expiry: Option<Duration>,
    last_heartbeat: Option<Duration>,
    entered_state_at: Duration,
    awaiting_write_since: Option<Duration>,
    sequence_complete: bool,
}

impl View for ControllableSystem {
    type V = CsView;

    closed spec fn view(&self) -> CsView {
        CsView {
            config: self.config,
            state: self.state,
            limit: self.limit,
            limit_expiry: self.limit_expiry,
            last_heartbeat: self.last_heartbeat,
            entered_state_at: self.entered_state_at,
            awaiting_write_since: self.awaiting_write_since,
            sequence_complete: self.sequence_complete,
        }
    }
}

impl ControllableSystem {
    /// Starts in `init`, limited by the failsafe value.
    pub fn new(config: CsConfig, now: Duration) -> (r: ControllableSystem)
        ensures
            r@ == CsView::started(config, now),
    {
        ControllableSystem {
            config,
            state: LimitationState::Init,
            limit: None,
            limit_expiry: None,
            last_heartbeat: None,
            entered_state_at: now,
            awaiting_write_since: None,
            sequence_complete: false,
        }
    }

    /// The current state.
    pub fn state(&self) -> (r: LimitationState)
        ensures
            r == self@.state,
    {
        self.state
    }

    /// The configuration, including the failsafe values the Energy Guard may read.
    pub fn config(&self) -> (r: &CsConfig)
        ensures
            *r == self@.config,
    {
        &self.config
    }

    /// The last limit that was accepted and not interrupted since.
    pub fn limit(&self) -> (r: Option<LimitWrite>)
        ensures
            r == self@.limit,
    {
        self.limit
    }

    /// The most power the device may draw or feed in right now, in watts.
    ///
    /// An energy manager has a contractual maximum it must never exceed whatever the Energy
    /// Guard says. `None` means genuinely unbounded.
    pub fn power_ceiling(&self) -> (r: Option<Number>)
        ensures
            r == self@.ceiling(),
    {
        match (self.effective_limit().watts(), self.config.contractual_max_watts) {
            (Some(limit), Some(contract)) => Some(limit.min(contract)),
            (Some(limit), None) => Some(limit),
            (None, contract) => contract,
        }
    }

    /// What the device is limited to right now.
    pub fn effective_limit(&self) -> (r: EffectiveLimit)
        ensures
            r == self@.effective(),
    {
        match self.state {
            LimitationState::Init | LimitationState::FailsafeState => EffectiveLimit::Failsafe(
                self.config.failsafe_watts,
            ),
            LimitationState::Limited => match self.limit {
                Some(limit) => if limit.is_active {
                    EffectiveLimit::Active(limit.watts)
                } else {
                    EffectiveLimit::Unrestricted
                },
                None => EffectiveLimit::Unrestricted,
            },
            LimitationState::UnlimitedControlled | LimitationState::UnlimitedAutonomous =>
                EffectiveLimit::Unrestricted,
        }
    }

    /// Whether the limit is currently activated.
    pub fn is_limit_active(&self) -> (r: bool)
        ensures
            r == self@.limit_active(),
    {
        match self.limit {
            Some(limit) => self.state == LimitationState::Limited && limit.is_active,
            None => false,
        }
    }

    /// Records a heartbeat from the Energy Guard.
    ///
    /// A heartbeat on its own never establishes control: it opens the window in which a limit
    /// write counts, and in the failsafe state it starts the window after which a guard that is
    /// present but silent about limits releases the system.
    pub fn on_heartbeat(&mut self, now: Duration)
        ensures
            final(self)@ == old(self)@.heard(now),
    {
        self.last_heartbeat = Some(now);
        if self.state == LimitationState::FailsafeState && self.awaiting_write_since.is_none() {
            self.awaiting_write_since = Some(now);
        }
    }

    /// Applies a write on the active power limit.
    ///
    /// `decision` is the device's own answer to "can I follow this?". Outside the controlled
    /// states a write without a recent heartbeat is not evaluated at all; a write that is
    /// evaluated and found unusable is a refusal, and a refusal moves the state machine.
    pub fn on_limit_write(
        &mut self,
        write: &LimitWrite,
        decision: LocalDecision,
        now: Duration,
    ) -> (r: WriteOutcome)
        ensures
            (final(self)@, r) == old(self)@.limit_written(*write, decision, now),
    {
        self.handle_timeout(now);
        if self.needs_recent_heartbeat() && !self.heartbeat_within(now, WRITE_WINDOW) {
            return WriteOutcome::Rejected(NackReason::NoRecentHeartbeat);
        }
        if !write.watts.is_finite() {
            return self.refuse(NackReason::NotFinite, now);
        }
        if write.watts.is_negative() {
            return self.refuse(NackReason::NegativeValue, now);
        }
        if let LocalDecision::Reject(reason) = decision {
            return self.refuse(NackReason::CannotApply(reason), now);
        }
        self.sequence_complete = true;
        self.awaiting_write_since = None;
        self.limit = Some(*write);
        self.limit_expiry = match write.duration {
            Some(duration) => Some(now.saturating_add(duration)),
            None => None,
        };
        let ends_at_once = match write.duration {
            Some(duration) => duration.nanos == 0,
            None => false,
        };
        if write.is_active && !ends_at_once {
            self.enter(LimitationState::Limited, now);
        } else {
            self.enter(LimitationState::UnlimitedControlled, now);
        }
        WriteOutcome::Accepted
    }

    /// Refuses a limit write whose payload could not be read as a limit.
    pub fn on_unreadable_limit_write(&mut self, now: Duration) -> (r: WriteOutcome)
        ensures
            (final(self)@, r) == old(self)@.unreadable_written(now),
    {
        self.handle_timeout(now);
        if self.needs_recent_heartbeat() && !self.heartbeat_within(now, WRITE_WINDOW) {
            return WriteOutcome::Rejected(NackReason::NoRecentHeartbeat);
        }
        self.refuse(NackReason::Unreadable, now)
    }

    /// The state change every refused limit write makes, whatever the reason.
    fn refuse(&mut self, reason: NackReason, now: Duration) -> (r: WriteOutcome)
        ensures
            final(self)@ == old(self)@.refused(now),
            r == WriteOutcome::Rejected(reason),
    {
        if self.needs_recent_heartbeat() {
            self.enter(LimitationState::UnlimitedControlled, now);
        }
        self.sequence_complete = true;
        self.awaiting_write_since = None;
        WriteOutcome::Rejected(reason)
    }

    /// Applies a write on the failsafe active power limit.
    pub fn on_failsafe_limit_write(&mut self, watts: Number, now: Duration) -> (r: WriteOutcome)
        ensures
            (final(self)@, r) == old(self)@.failsafe_limit_written(watts, now),
    {
        self.handle_timeout(now);
        if let Some(reason) = self.check_secondary_write(now) {
            return WriteOutcome::Rejected(reason);
        }
        if !watts.is_finite() {
            return WriteOutcome::Rejected(NackReason::NotFinite);
        }
        if watts.is_negative() {
            return WriteOutcome::Rejected(NackReason::NegativeValue);
        }
        self.config.failsafe_watts = watts;
        WriteOutcome::Accepted
    }

    /// Applies a write on the failsafe duration minimum.
    pub fn on_failsafe_duration_write(&mut self, duration: Duration, now: Duration) -> (r:
        WriteOutcome)
        ensures
            (final(self)@, r) == old(self)@.failsafe_duration_written(duration, now),
    {
        self.handle_timeout(now);
        if let Some(reason) = self.check_secondary_write(now) {
            return WriteOutcome::Rejected(reason);
        }
        if duration.nanos < FAILSAFE_DURATION_LEAST || duration.nanos > FAILSAFE_DURATION_MOST
            || duration.nanos > self.config.failsafe_duration_max.nanos {
            return WriteOutcome::Rejected(NackReason::DurationOutOfRange);
        }
        self.config.failsafe_duration = duration;
        WriteOutcome::Accepted
    }

    /// Interrupts an active limitation for a permitted reason.
    ///
    /// Returns whether the interruption took effect; it does nothing outside `limited`, and
    /// uncontrolled loads are a reason only an energy manager may give.
    pub fn interrupt(&mut self, reason: RejectReason, now: Duration) -> (r: bool)
        ensures
            r == old(self)@.may_interrupt(reason),
            final(self)@ == old(self)@.interrupted(reason, now),
    {
        if self.state != LimitationState::Limited {
            return false;
        }
        if reason == RejectReason::UncontrolledLoads && !self.config.on_cem {
            return false;
        }
        self.limit = None;
        self.limit_expiry = None;
        self.enter(LimitationState::UnlimitedControlled, now);
        true
    }

    /// Advances the timers. Call at or after the instant [`Self::poll_timeout`] reported.
    pub fn handle_timeout(&mut self, now: Duration)
        ensures
            final(self)@ == old(self)@.timed_out(now),
    {
        if !self.needs_recent_heartbeat() {
            let since = match self.last_heartbeat {
                Some(heartbeat) => heartbeat,
                None => self.entered_state_at,
            };
            if now.saturating_sub(since).nanos >= HEARTBEAT_TIMEOUT {
                self.enter(LimitationState::FailsafeState, now);
                return;
            }
        }
        if self.state == LimitationState::Limited {
            if let Some(expiry) = self.limit_expiry {
                if now.nanos >= expiry.nanos {
                    self.enter(LimitationState::UnlimitedControlled, now);
                    return;
                }
            }
        }
        match self.state {
            LimitationState::Init => {
                if now.saturating_sub(self.entered_state_at).nanos >= SETTLE_TIMEOUT {
                    self.enter(LimitationState::UnlimitedAutonomous, now);
                }
            },
            LimitationState::FailsafeState => {
                let minimum_elapsed = now.saturating_sub(self.entered_state_at).nanos
                    >= self.config.failsafe_duration.nanos;
                let heard_but_not_controlling = match self.awaiting_write_since {
                    Some(since) => now.saturating_sub(since).nanos >= SETTLE_TIMEOUT,
                    None => false,
                };
                if minimum_elapsed || heard_but_not_controlling {
                    self.enter(LimitationState::UnlimitedAutonomous, now);
                }
            },
            _ => {},
        }
    }

    /// When [`Self::handle_timeout`] should next be called: an absolute instant, and `None` in
    /// exactly one state, unlimited/autonomous.
    pub fn poll_timeout(&self) -> (r: Option<Duration>)
        ensures
            r == self@.deadline(),
            r is None <==> self@.state is UnlimitedAutonomous,
    {
        match self.state {
            LimitationState::Limited | LimitationState::UnlimitedControlled => {
                let since = match self.last_heartbeat {
                    Some(heartbeat) => heartbeat,
                    None => self.entered_state_at,
                };
                let quiet = since.saturating_add(Duration { nanos: HEARTBEAT_TIMEOUT });
                match self.limit_expiry {
                    Some(expiry) if self.state == LimitationState::Limited => Some(
                        quiet.min(expiry),
                    ),
                    _ => Some(quiet),
                }
            },
            LimitationState::Init => Some(
                self.entered_state_at.saturating_add(Duration { nanos: SETTLE_TIMEOUT }),
            ),
            LimitationState::FailsafeState => {
                let minimum = self.entered_state_at.saturating_add(self.config.failsafe_duration);
                match self.awaiting_write_since {
                    Some(since) => Some(
                        minimum.min(since.saturating_add(Duration { nanos: SETTLE_TIMEOUT })),
                    ),
                    None => Some(minimum),
                }
            },
            LimitationState::UnlimitedAutonomous => None,
        }
    }

    /// True in the states where the ordering gate applies.
    fn needs_recent_heartbeat(&self) -> (r: bool)
        ensures
            r == !self@.state.controlled(),
    {
        match self.state {
            LimitationState::Init | LimitationState::FailsafeState
            | LimitationState::UnlimitedAutonomous => true,
            _ => false,
        }
    }

    /// Whether a heartbeat arrived less than `window` nanoseconds ago.
    fn heartbeat_within(&self, now: Duration, window: u128) -> (r: bool)
        ensures
            r == (self@.last_heartbeat matches Some(heartbeat) && elapsed(now, heartbeat)
                < window),
    {
        match self.last_heartbeat {
            Some(heartbeat) => now.saturating_sub(heartbeat).nanos < window,
            None => false,
        }
    }

    /// The gates a write on anything other than the limit has to pass first.
    fn check_secondary_write(&self, now: Duration) -> (r: Option<NackReason>)
        ensures
            r == self@.barred(now),
    {
        if !self.sequence_complete {
            return Some(NackReason::SequenceIncomplete);
        }
        if self.needs_recent_heartbeat() && !self.heartbeat_within(now, WRITE_WINDOW) {
            return Some(NackReason::NoRecentHeartbeat);
        }
        None
    }

    /// Moves to `state`. Losing the Energy Guard means the opening sequence has to be run again.
    fn enter(&mut self, state: LimitationState, now: Duration)
        requires
            !(state is Init),
        ensures
            final(self)@ == old(self)@.entering(state, now),
    {
        if self.state == state {
            return;
        }
        self.state = state;
        self.entered_state_at = now;
        self.awaiting_write_since = None;
        match state {
            LimitationState::FailsafeState | LimitationState::UnlimitedAutonomous => {
                self.sequence_complete = false;
            },
            _ => {},
        }
    }

    /// What a certification laboratory reads off the device, in the parameter sheet's order:
    /// the state, the limit and its duration, the failsafe pair, the constraints, and what the
    /// system has concluded from them.
    pub fn signals(&self, direction: Direction) -> (r: SignalSet)
        ensures
            r@ == self@.signals(direction),
    {
        let prefix = direction.signal_prefix();
        let limit = match self.limit {
            Some(limit) if self.state == LimitationState::Limited => Some(limit.watts),
            _ => None,
        };
        let duration = match self.limit {
            Some(limit) => limit.duration,
            None => None,
        };
        let nominal = if self.config.on_cem {
            None
        } else {
            self.config.nominal_max_watts
        };
        let contractual = if self.config.on_cem {
            self.config.contractual_max_watts
        } else {
            None
        };
        let set = SignalSet::new()
            .with(Signal::named(prefix, "state", SignalValue::text(self.state.as_str())))
            .with(Signal::named(prefix, "limit", SignalValue::number(limit)).in_unit("W"))
            .with(Signal::named(prefix, "duration", SignalValue::seconds(duration)))
            .with(Signal::named(prefix, "isActive", SignalValue::Bool(self.is_limit_active())))
            .with(
                Signal::named(
                    prefix,
                    "failsafeLimit",
                    SignalValue::Number(self.config.failsafe_watts),
                ).in_unit("W"),
            )
            .with(
                Signal::named(
                    prefix,
                    "failsafeDuration",
                    SignalValue::Seconds(self.config.failsafe_duration),
                ),
            )
            .with(Signal::named(prefix, "nominalMax", SignalValue::number(nominal)).in_unit("W"))
            .with(
                Signal::named(prefix, "contractualMax", SignalValue::number(contractual)).in_unit(
                    "W",
                ),
            )
            .with(
                Signal::named(
                    prefix,
                    "effectiveLimit",
                    SignalValue::number(self.effective_limit().watts()),
                ).in_unit("W"),
            )
            .with(
                Signal::named(
                    prefix,
                    "powerCeiling",
                    SignalValue::number(self.power_ceiling()),
                ).in_unit("W"),
            )
            .with(
                Signal::named(prefix, "lastHeartbeat", SignalValue::seconds(self.last_heartbeat)),
            )
            .with(
                Signal::named(prefix, "nextDeadline", SignalValue::seconds(self.poll_timeout())),
            );
        assert(set@ =~= self@.signals(direction));
        set
    }
}

} // verus!
