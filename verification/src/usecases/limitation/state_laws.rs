//! What holds of the Controllable System state machine as a whole.

use super::state::{
    CsConfig, CsView, EffectiveLimit, LimitWrite, LimitationState, LocalDecision, NackReason,
    RejectReason, WriteOutcome, FAILSAFE_DURATION_LEAST, FAILSAFE_DURATION_MOST,
    HEARTBEAT_TIMEOUT,
};
use super::Direction;
use crate::number::Number;
use crate::time::Duration;
use crate::usecases::signals::SignalFact;
use vstd::prelude::*;

verus! {

/// The system after a run of heartbeats.
pub open spec fn heard_all(system: CsView, beats: Seq<Duration>) -> CsView
    decreases beats.len(),
{
    if beats.len() == 0 {
        system
    } else {
        heard_all(system, beats.drop_last()).heard(beats.last())
    }
}

/// The system after its timers were looked at `rounds` times, each time at the deadline that it
/// reported.
pub open spec fn waited(system: CsView, rounds: nat) -> CsView
    decreases rounds,
{
    if rounds == 0 {
        system
    } else {
        let before = waited(system, (rounds - 1) as nat);
        match before.deadline() {
            Some(deadline) => before.timed_out(deadline),
            None => before,
        }
    }
}

/// No instant that the system remembers, and no failsafe duration, is beyond `bound`.
pub open spec fn within(system: CsView, bound: int) -> bool {
    &&& system.entered_state_at.nanos <= bound
    &&& system.config.failsafe_duration.nanos <= bound
    &&& system.last_heartbeat matches Some(instant) ==> instant.nanos <= bound
    &&& system.limit_expiry matches Some(instant) ==> instant.nanos <= bound
    &&& system.awaiting_write_since matches Some(instant) ==> instant.nanos <= bound
}

/// A restart is limited by the failsafe value, never unlimited.
pub proof fn law_restart_is_limited(config: CsConfig, now: Duration)
    ensures
        CsView::started(config, now).wf(),
        CsView::started(config, now).state is Init,
        CsView::started(config, now).effective() == EffectiveLimit::Failsafe(
            config.failsafe_watts,
        ),
{
}

/// Heartbeats alone establish nothing: however many arrive, the state, the limit, the
/// configuration and what the device is limited to stay as they were.
pub proof fn law_heartbeats_establish_nothing(system: CsView, beats: Seq<Duration>)
    ensures
        heard_all(system, beats).state == system.state,
        heard_all(system, beats).limit == system.limit,
        heard_all(system, beats).limit_expiry == system.limit_expiry,
        heard_all(system, beats).config == system.config,
        heard_all(system, beats).sequence_complete == system.sequence_complete,
        heard_all(system, beats).effective() == system.effective(),
        heard_all(system, beats).ceiling() == system.ceiling(),
    decreases beats.len(),
{
    if beats.len() > 0 {
        law_heartbeats_establish_nothing(system, beats.drop_last());
    }
}

/// Control is established by a write and by nothing else: neither a heartbeat nor the passing
/// of time moves an uncontrolled system into a controlled state.
pub proof fn law_only_a_write_takes_control(system: CsView, now: Duration)
    requires
        !system.state.controlled(),
    ensures
        !system.heard(now).state.controlled(),
        !system.timed_out(now).state.controlled(),
{
}

/// Every operation keeps what holds of a fresh system.
pub proof fn law_invariant_is_kept(
    system: CsView,
    write: LimitWrite,
    decision: LocalDecision,
    watts: Number,
    duration: Duration,
    reason: RejectReason,
    now: Duration,
)
    requires
        system.wf(),
    ensures
        system.heard(now).wf(),
        system.timed_out(now).wf(),
        system.limit_written(write, decision, now).0.wf(),
        system.unreadable_written(now).0.wf(),
        system.failsafe_limit_written(watts, now).0.wf(),
        system.failsafe_duration_written(duration, now).0.wf(),
        system.interrupted(reason, now).wf(),
{
}

/// A limit write is accepted exactly when an Energy Guard is in control or was heard within the
/// write window, the value is finite and not negative, and the device can follow it.
pub proof fn law_acceptance(
    system: CsView,
    write: LimitWrite,
    decision: LocalDecision,
    now: Duration,
)
    ensures
        system.limit_written(write, decision, now).1 == WriteOutcome::Accepted <==> {
            let ticked = system.timed_out(now);
            &&& ticked.state.controlled() || ticked.heard_recently(now)
            &&& write.watts.finite()
            &&& !write.watts.negative()
            &&& decision is Apply
        },
{
}

/// After an accepted write the system is limited to the written value, or controlled without a
/// limit if the write is not activated or ends at once.
pub proof fn law_accepted_write_takes_effect(
    system: CsView,
    write: LimitWrite,
    decision: LocalDecision,
    now: Duration,
)
    requires
        system.limit_written(write, decision, now).1 == WriteOutcome::Accepted,
    ensures
        ({
            let after = system.limit_written(write, decision, now).0;
            &&& after.limit == Some(write)
            &&& after.sequence_complete
            &&& after.effective() == if write.takes_hold() {
                EffectiveLimit::Active(write.watts)
            } else {
                EffectiveLimit::Unrestricted
            }
            &&& after.state == if write.takes_hold() {
                LimitationState::Limited
            } else {
                LimitationState::UnlimitedControlled
            }
        }),
{
}

/// A refused limit write never changes the limit or what a controlled system is limited to. One
/// that was evaluated leaves the system controlled and the opening sequence complete; one that
/// was not evaluated leaves nothing but the timers changed.
pub proof fn law_refusal_is_safe(
    system: CsView,
    write: LimitWrite,
    decision: LocalDecision,
    now: Duration,
)
    requires
        system.limit_written(write, decision, now).1 != WriteOutcome::Accepted,
    ensures
        ({
            let ticked = system.timed_out(now);
            let (after, outcome) = system.limit_written(write, decision, now);
            &&& after.limit == ticked.limit
            &&& after.limit_expiry == ticked.limit_expiry
            &&& ticked.state.controlled() ==> after.state == ticked.state && after.effective()
                == ticked.effective()
            &&& outcome == WriteOutcome::Rejected(NackReason::NoRecentHeartbeat) ==> after
                == ticked
            &&& outcome != WriteOutcome::Rejected(NackReason::NoRecentHeartbeat) ==> {
                &&& after.sequence_complete
                &&& after.state.controlled()
                &&& !ticked.state.controlled() ==> after.state is UnlimitedControlled
            }
        }),
{
}

/// Without a heartbeat in the window, no write of any kind takes an uncontrolled system out of
/// its state or changes its configuration.
pub proof fn law_no_heartbeat_no_change(
    system: CsView,
    write: LimitWrite,
    decision: LocalDecision,
    watts: Number,
    duration: Duration,
    now: Duration,
)
    requires
        system.timed_out(now).gated(now),
    ensures
        system.limit_written(write, decision, now) == (
            system.timed_out(now),
            WriteOutcome::Rejected(NackReason::NoRecentHeartbeat),
        ),
        system.unreadable_written(now) == (
            system.timed_out(now),
            WriteOutcome::Rejected(NackReason::NoRecentHeartbeat),
        ),
        system.failsafe_limit_written(watts, now).0 == system.timed_out(now),
        system.failsafe_limit_written(watts, now).1 != WriteOutcome::Accepted,
        system.failsafe_duration_written(duration, now).0 == system.timed_out(now),
        system.failsafe_duration_written(duration, now).1 != WriteOutcome::Accepted,
{
}

/// A system that is not under control has to see the opening sequence again: until a limit
/// write is evaluated, the failsafe values cannot be changed.
pub proof fn law_lost_control_bars_failsafe_writes(
    system: CsView,
    watts: Number,
    duration: Duration,
    now: Duration,
)
    requires
        system.wf(),
        !system.timed_out(now).state.controlled(),
    ensures
        system.failsafe_limit_written(watts, now) == (
            system.timed_out(now),
            WriteOutcome::Rejected(NackReason::SequenceIncomplete),
        ),
        system.failsafe_duration_written(duration, now) == (
            system.timed_out(now),
            WriteOutcome::Rejected(NackReason::SequenceIncomplete),
        ),
{
}

/// The configuration changes only by an accepted failsafe write, and then in the one value that
/// was written; an accepted duration lies in the permitted range and within the device's own
/// maximum.
pub proof fn law_configuration_changes_only_by_failsafe_writes(
    system: CsView,
    write: LimitWrite,
    decision: LocalDecision,
    watts: Number,
    duration: Duration,
    reason: RejectReason,
    now: Duration,
)
    ensures
        system.heard(now).config == system.config,
        system.timed_out(now).config == system.config,
        system.limit_written(write, decision, now).0.config == system.config,
        system.unreadable_written(now).0.config == system.config,
        system.interrupted(reason, now).config == system.config,
        ({
            let (after, outcome) = system.failsafe_limit_written(watts, now);
            after.config == if outcome == WriteOutcome::Accepted {
                CsConfig { failsafe_watts: watts, ..system.config }
            } else {
                system.config
            }
        }),
        ({
            let (after, outcome) = system.failsafe_duration_written(duration, now);
            &&& after.config == if outcome == WriteOutcome::Accepted {
                CsConfig { failsafe_duration: duration, ..system.config }
            } else {
                system.config
            }
            &&& outcome == WriteOutcome::Accepted ==> FAILSAFE_DURATION_LEAST
                <= duration.nanos <= FAILSAFE_DURATION_MOST && duration.nanos
                <= system.config.failsafe_duration_max.nanos
        }),
{
}

/// The transitions that time alone makes: from a controlled state to the failsafe state, from
/// limited to unlimited/controlled, and from init or the failsafe state to
/// unlimited/autonomous. No other.
pub proof fn law_timed_transitions(system: CsView, now: Duration)
    ensures
        ({
            let after = system.timed_out(now).state;
            ||| after == system.state
            ||| system.state.controlled() && after is FailsafeState
            ||| system.state is Limited && after is UnlimitedControlled
            ||| system.state is Init && after is UnlimitedAutonomous
            ||| system.state is FailsafeState && after is UnlimitedAutonomous
        }),
{
}

/// Whatever the Energy Guard says, and also when it says nothing, the ceiling is there and does
/// not exceed the contractual maximum.
pub proof fn law_ceiling_honours_the_contract(system: CsView, contract: Number)
    requires
        system.config.contractual_max_watts == Some(contract),
        !(contract is NotANumber),
    ensures
        system.ceiling() matches Some(ceiling) && ceiling.at_most(contract),
{
}

/// A valid limit in force is what the ceiling is, unless the contract is lower.
pub proof fn law_ceiling_honours_the_limit(system: CsView)
    requires
        system.wf(),
        system.state is Limited,
    ensures
        system.limit matches Some(limit) && system.effective() == EffectiveLimit::Active(
            limit.watts,
        ) && system.limit_active() && (system.ceiling() matches Some(ceiling)
            && ceiling.at_most(limit.watts)),
{
}

/// Before the reported deadline the timers change nothing. (A failsafe duration of zero is over
/// at any instant, even one that lies before the failsafe state was entered.)
pub proof fn law_nothing_before_the_deadline(system: CsView, now: Duration)
    requires
        system.state is FailsafeState ==> system.config.failsafe_duration.nanos > 0,
        system.deadline() matches Some(deadline) ==> now.nanos < deadline.nanos,
    ensures
        system.timed_out(now) == system,
{
}

/// How far a system is from its resting state.
pub open spec fn distance(state: LimitationState) -> nat {
    match state {
        LimitationState::Limited => 3,
        LimitationState::UnlimitedControlled => 2,
        LimitationState::Init | LimitationState::FailsafeState => 1,
        LimitationState::UnlimitedAutonomous => 0,
    }
}

/// At the reported deadline, or later, a transition is due, and it brings the system closer to
/// its resting state. (The last instant that the clock can show is no deadline.)
pub proof fn law_the_deadline_is_due(system: CsView, now: Duration)
    requires
        system.deadline() matches Some(deadline) && deadline.nanos <= now.nanos
            && deadline.nanos < u128::MAX,
    ensures
        distance(system.timed_out(now).state) < distance(system.state),
{
}

proof fn lemma_one_round(system: CsView, bound: int)
    requires
        within(system, bound),
        HEARTBEAT_TIMEOUT <= bound,
        2 * bound < u128::MAX,
    ensures
        within(waited(system, 1), 2 * bound),
        system.state is UnlimitedAutonomous ==> waited(system, 1) == system,
        !(system.state is UnlimitedAutonomous) ==> distance(waited(system, 1).state) < distance(
            system.state,
        ),
{
    reveal_with_fuel(waited, 2);
}

/// Waiting on the deadlines drives the system to its resting state: three rounds are enough from
/// any state, as long as the clock does not run out.
pub proof fn law_waiting_reaches_autonomy(system: CsView, bound: int)
    requires
        within(system, bound),
        HEARTBEAT_TIMEOUT <= bound,
        8 * bound < u128::MAX,
    ensures
        waited(system, 3).state is UnlimitedAutonomous,
        waited(system, 3).deadline() is None,
{
    reveal_with_fuel(waited, 4);
    lemma_one_round(system, bound);
    lemma_one_round(waited(system, 1), 2 * bound);
    lemma_one_round(waited(system, 2), 4 * bound);
}

/// What the system is limited to follows from its state: the failsafe value where no Energy Guard
/// is in control and one is waited for, the limit where one is in force, and nothing otherwise.
pub proof fn law_the_state_decides_what_applies(system: CsView)
    requires
        system.wf(),
    ensures
        system.state is Init || system.state is FailsafeState ==> system.effective().amount()
            == Some(system.config.failsafe_watts) && system.effective() is Failsafe,
        system.state is Limited ==> (system.limit matches Some(limit) && limit.is_active
            && system.effective().amount() == Some(limit.watts)) && system.effective() is Active,
        system.state is UnlimitedControlled || system.state is UnlimitedAutonomous
            ==> system.effective().amount() is None,
        system.limit_active() <==> system.state is Limited,
{
}

/// The ceiling is the lower of what applies and the contract, where both are there, and the one
/// that is there otherwise.
pub proof fn law_the_ceiling_is_the_lower_bound(system: CsView, applies: i64, contract: i64)
    ensures
        system.config.contractual_max_watts is None ==> system.ceiling()
            == system.effective().amount(),
        system.effective().amount() is None ==> system.ceiling()
            == system.config.contractual_max_watts,
        system.effective().amount() == Some(Number::Finite(applies))
            && system.config.contractual_max_watts == Some(Number::Finite(contract))
            ==> system.ceiling() == Some(
            Number::Finite(
                if applies <= contract {
                    applies
                } else {
                    contract
                },
            ),
        ),
{
}

/// A restart remembers nothing: no limit, no heartbeat, and no opening sequence.
pub proof fn law_a_restart_remembers_nothing(config: CsConfig, now: Duration)
    ensures
        ({
            let system = CsView::started(config, now);
            &&& system.config == config
            &&& system.entered_state_at == now
            &&& system.limit is None && system.limit_expiry is None
            &&& system.last_heartbeat is None && system.awaiting_write_since is None
            &&& !system.sequence_complete
        }),
{
}

/// A heartbeat is remembered as the last one, whenever it arrives. In the failsafe state the first
/// one starts the wait for a write, and later ones do not start it anew.
pub proof fn law_heartbeats_are_remembered(system: CsView, now: Duration)
    ensures
        ({
            let after = system.heard(now);
            &&& after.last_heartbeat == Some(now)
            &&& after.entered_state_at == system.entered_state_at
            &&& system.awaiting_write_since is Some ==> after.awaiting_write_since
                == system.awaiting_write_since
            &&& system.awaiting_write_since is None ==> (after.awaiting_write_since
                == if system.state is FailsafeState {
                Some(now)
            } else {
                None
            })
        }),
{
}

/// Two minutes after the last heartbeat, or after it took control if none came, a controlled
/// system falls into the failsafe state, and not before.
pub proof fn law_two_minutes_of_silence_end_control(system: CsView, now: Duration)
    requires
        system.state is Limited || system.state is UnlimitedControlled,
    ensures
        ({
            let after = system.timed_out(now);
            let quiet = match system.last_heartbeat {
                Some(at) => at.nanos,
                None => system.entered_state_at.nanos,
            };
            &&& after.state is FailsafeState <==> now.nanos >= quiet + 120_000_000_000
            &&& after.state is FailsafeState ==> after.entered_state_at == now
                && after.awaiting_write_since is None && !after.sequence_complete
            &&& after.limit == system.limit && after.last_heartbeat == system.last_heartbeat
        }),
{
}

/// While its guard is heard, a limited system stays limited until its limit runs out, and is
/// controlled without a limit from then on.
pub proof fn law_a_limit_ends_when_it_runs_out(system: CsView, now: Duration)
    requires
        system.state is Limited,
        system.last_heartbeat matches Some(at) && now.nanos < at.nanos + 120_000_000_000,
    ensures
        match system.limit_expiry {
            Some(expiry) if now.nanos >= expiry.nanos => {
                &&& system.timed_out(now).state is UnlimitedControlled
                &&& system.timed_out(now).entered_state_at == now
                &&& system.timed_out(now).sequence_complete == system.sequence_complete
            },
            _ => system.timed_out(now) == system,
        },
{
}

/// A system that waits for a guard runs on its own two minutes after its start; from the failsafe
/// state when the failsafe duration is over, or two minutes after a heartbeat that no write
/// followed. Not before, and one that runs on its own stays so.
pub proof fn law_waiting_ends_in_time(system: CsView, now: Duration)
    ensures
        system.state is Init ==> (system.timed_out(now).state is UnlimitedAutonomous
            <==> now.nanos >= system.entered_state_at.nanos + 120_000_000_000),
        system.state is FailsafeState && system.config.failsafe_duration.nanos > 0 ==> (
        system.timed_out(now).state is UnlimitedAutonomous <==> {
            ||| now.nanos >= system.entered_state_at.nanos + system.config.failsafe_duration.nanos
            ||| system.awaiting_write_since matches Some(since) && now.nanos >= since.nanos
                + 120_000_000_000
        }),
        system.state is Init || system.state is FailsafeState ==> (system.timed_out(now).state
            is UnlimitedAutonomous || system.timed_out(now) == system),
        system.state is UnlimitedAutonomous ==> system.timed_out(now) == system,
{
}

/// Each limit write is answered by its reason: unheard where no guard is in control and none was
/// heard within a minute, then by its value, then by what the device says of it.
pub proof fn law_every_limit_write_has_its_answer(
    system: CsView,
    write: LimitWrite,
    decision: LocalDecision,
    now: Duration,
)
    ensures
        ({
            let ticked = system.timed_out(now);
            let heard = ticked.state is Limited || ticked.state is UnlimitedControlled || (
            ticked.last_heartbeat matches Some(at) && now.nanos < at.nanos + 60_000_000_000);
            let (after, answer) = system.limit_written(write, decision, now);
            let unread = system.unreadable_written(now).0;
            &&& !heard ==> after == ticked && unread == ticked
            &&& heard ==> after.state.controlled() && after.sequence_complete
                && after.awaiting_write_since is None
            &&& heard ==> unread.state.controlled() && unread.sequence_complete
                && unread.awaiting_write_since is None && unread.limit == ticked.limit
                && unread.limit_expiry == ticked.limit_expiry
            &&& !heard ==> answer == WriteOutcome::Rejected(NackReason::NoRecentHeartbeat)
            &&& heard && !(write.watts is Finite) ==> answer == WriteOutcome::Rejected(
                NackReason::NotFinite,
            )
            &&& heard && (write.watts matches Number::Finite(watts) && watts < 0) ==> answer
                == WriteOutcome::Rejected(NackReason::NegativeValue)
            &&& heard && (write.watts matches Number::Finite(watts) && watts >= 0) ==> (
            match decision {
                LocalDecision::Apply => answer == WriteOutcome::Accepted,
                LocalDecision::Reject(reason) => answer == WriteOutcome::Rejected(
                    NackReason::CannotApply(reason),
                ),
            })
            &&& system.unreadable_written(now).1 == if heard {
                WriteOutcome::Rejected(NackReason::Unreadable)
            } else {
                WriteOutcome::Rejected(NackReason::NoRecentHeartbeat)
            }
        }),
{
}

/// The duration of a limit runs from its write, in whatever state it arrives and whatever was in
/// force: an accepted limit that has one ends so long after `now`, and one without has no end.
pub proof fn law_a_limit_runs_from_its_write(
    system: CsView,
    write: LimitWrite,
    decision: LocalDecision,
    now: Duration,
)
    requires
        system.limit_written(write, decision, now).1 == WriteOutcome::Accepted,
    ensures
        ({
            let after = system.limit_written(write, decision, now).0;
            &&& after.limit == Some(write)
            &&& write.duration is None ==> after.limit_expiry is None
            &&& write.duration matches Some(duration) ==> (after.limit_expiry matches Some(expiry)
                && (now.nanos + duration.nanos <= u128::MAX ==> expiry.nanos == now.nanos
                + duration.nanos))
            &&& after.awaiting_write_since is None
            &&& after.last_heartbeat == system.last_heartbeat
            &&& after.state != system.timed_out(now).state ==> after.entered_state_at == now
            &&& after.state is Limited <==> write.is_active && write.duration != Some(
                Duration { nanos: 0 },
            )
            &&& after.state is Limited || after.state is UnlimitedControlled
        }),
{
}

/// A limit that takes hold is in force until its duration is over and no longer, as long as the
/// guard is heard; one without a duration stays in force.
pub proof fn law_a_limit_is_in_force_for_its_duration(
    system: CsView,
    write: LimitWrite,
    now: Duration,
    beat: Duration,
    later: Duration,
)
    requires
        system.limit_written(write, LocalDecision::Apply, now).1 == WriteOutcome::Accepted,
        write.is_active,
        write.duration != Some(Duration { nanos: 0 }),
        write.duration matches Some(duration) ==> now.nanos + duration.nanos <= u128::MAX,
        later.nanos < beat.nanos + 120_000_000_000,
    ensures
        ({
            let after = system.limit_written(write, LocalDecision::Apply, now).0;
            let then = after.heard(beat).timed_out(later);
            match write.duration {
                Some(duration) if later.nanos >= now.nanos + duration.nanos => {
                    then.state is UnlimitedControlled && then.effective().amount() is None
                },
                _ => then.state is Limited && then.effective() == EffectiveLimit::Active(
                    write.watts,
                ),
            }
        }),
{
}

/// A renewed limit replaces the one before: nothing of the earlier limit is left.
pub proof fn law_a_renewed_limit_replaces_the_earlier(
    system: CsView,
    earlier: LimitWrite,
    write: LimitWrite,
    before: Duration,
    now: Duration,
)
    requires
        write.watts matches Number::Finite(watts) && watts >= 0,
        ({
            let limited = system.limit_written(earlier, LocalDecision::Apply, before).0;
            limited.timed_out(now).state is Limited
        }),
    ensures
        ({
            let limited = system.limit_written(earlier, LocalDecision::Apply, before).0;
            let after = limited.limit_written(write, LocalDecision::Apply, now).0;
            &&& after.limit == Some(write)
            &&& after.limit_expiry is Some <==> write.duration is Some
            &&& write.duration matches Some(duration) ==> (now.nanos + duration.nanos <= u128::MAX
                ==> after.limit_expiry == Some(
                Duration { nanos: (now.nanos + duration.nanos) as u128 },
            ))
        }),
{
}

/// A failsafe value is taken over exactly where the opening sequence is complete, a guard is in
/// control or was heard within a minute, and the value is permitted; otherwise the answer says
/// which of these is missing.
pub proof fn law_every_failsafe_write_has_its_answer(
    system: CsView,
    watts: Number,
    duration: Duration,
    now: Duration,
)
    ensures
        ({
            let ticked = system.timed_out(now);
            let heard = ticked.state is Limited || ticked.state is UnlimitedControlled || (
            ticked.last_heartbeat matches Some(at) && now.nanos < at.nanos + 60_000_000_000);
            let bar = if !ticked.sequence_complete {
                Some(NackReason::SequenceIncomplete)
            } else if !heard {
                Some(NackReason::NoRecentHeartbeat)
            } else {
                None
            };
            let (by_limit, limit_answer) = system.failsafe_limit_written(watts, now);
            let (by_duration, duration_answer) = system.failsafe_duration_written(duration, now);
            let permitted = 7_200_000_000_000 <= duration.nanos <= 86_400_000_000_000
                && duration.nanos <= system.config.failsafe_duration_max.nanos;
            &&& bar matches Some(reason) ==> limit_answer == WriteOutcome::Rejected(reason)
                && duration_answer == WriteOutcome::Rejected(reason) && by_limit == ticked
                && by_duration == ticked
            &&& bar is None ==> {
                &&& (watts matches Number::Finite(value) && value >= 0) ==> limit_answer
                    == WriteOutcome::Accepted && by_limit.config.failsafe_watts == watts
                &&& (watts matches Number::Finite(value) && value < 0) ==> limit_answer
                    == WriteOutcome::Rejected(NackReason::NegativeValue)
                &&& !(watts is Finite) ==> limit_answer == WriteOutcome::Rejected(
                    NackReason::NotFinite,
                )
                &&& permitted ==> duration_answer == WriteOutcome::Accepted
                    && by_duration.config.failsafe_duration == duration
                &&& !permitted ==> duration_answer == WriteOutcome::Rejected(
                    NackReason::DurationOutOfRange,
                )
            }
            &&& by_limit.state == ticked.state && by_limit.limit == ticked.limit
                && by_limit.limit_expiry == ticked.limit_expiry
            &&& by_duration.state == ticked.state && by_duration.limit == ticked.limit
                && by_duration.limit_expiry == ticked.limit_expiry
        }),
{
}

/// The device ends a limitation for a permitted reason, and for no other: the limit is gone, and
/// the guard stays in control. Uncontrolled loads are a reason for an energy manager alone.
pub proof fn law_interruptions_lift_the_limit(system: CsView, reason: RejectReason, now: Duration)
    ensures
        ({
            let after = system.interrupted(reason, now);
            if system.state is Limited && (reason != RejectReason::UncontrolledLoads
                || system.config.on_cem) {
                &&& after.state is UnlimitedControlled
                &&& after.limit is None && after.limit_expiry is None
                &&& after.effective().amount() is None
                &&& after.entered_state_at == now
                &&& after.last_heartbeat == system.last_heartbeat
                &&& after.sequence_complete == system.sequence_complete
                &&& system.may_interrupt(reason)
            } else {
                after == system && !system.may_interrupt(reason)
            }
        }),
{
}

/// The deadline is the instant at which time alone would next change the state: the end of the
/// guard's two minutes or of the limit, whichever is first; the end of the wait; or none.
pub proof fn law_deadlines_are_instants(system: CsView, bound: int)
    requires
        within(system, bound),
        120_000_000_000 + 2 * bound < u128::MAX,
    ensures
        match system.deadline() {
            Some(deadline) => {
                let quiet = match system.last_heartbeat {
                    Some(at) => at.nanos + 120_000_000_000,
                    None => system.entered_state_at.nanos + 120_000_000_000,
                };
                match system.state {
                    LimitationState::Limited => match system.limit_expiry {
                        Some(expiry) => deadline.nanos <= quiet && deadline.nanos <= expiry.nanos
                            && (deadline.nanos == quiet || deadline.nanos == expiry.nanos),
                        None => deadline.nanos == quiet,
                    },
                    LimitationState::UnlimitedControlled => deadline.nanos == quiet,
                    LimitationState::Init => deadline.nanos == system.entered_state_at.nanos
                        + 120_000_000_000,
                    LimitationState::FailsafeState => {
                        let over = system.entered_state_at.nanos
                            + system.config.failsafe_duration.nanos;
                        match system.awaiting_write_since {
                            Some(since) => {
                                &&& deadline.nanos <= over
                                &&& deadline.nanos <= since.nanos + 120_000_000_000
                                &&& deadline.nanos == over || deadline.nanos == since.nanos
                                    + 120_000_000_000
                            },
                            None => deadline.nanos == over,
                        }
                    },
                    LimitationState::UnlimitedAutonomous => false,
                }
            },
            None => system.state is UnlimitedAutonomous,
        },
{
}

/// The signals show what the getters say: the state, the limit in force, the failsafe values, the
/// maximum of the kind the system has, what applies, and the next deadline.
pub proof fn law_signals_show_the_system(system: CsView, direction: Direction)
    requires
        system.wf(),
    ensures
        ({
            let signals = system.signals(direction);
            &&& signals.len() == 12
            &&& signals[0].value == SignalFact::Text(system.state.name())
            &&& system.state is Limited ==> signals[1].value == SignalFact::Number(
                system.limit->0.watts,
            )
            &&& !(system.state is Limited) ==> signals[1].value is Absent
            &&& system.limit is None ==> signals[2].value is Absent
            &&& system.limit matches Some(limit) ==> (match limit.duration {
                Some(duration) => signals[2].value == SignalFact::Seconds(duration),
                None => signals[2].value is Absent,
            })
            &&& signals[3].value == SignalFact::Bool(system.state is Limited)
            &&& signals[4].value == SignalFact::Number(system.config.failsafe_watts)
            &&& signals[5].value == SignalFact::Seconds(system.config.failsafe_duration)
            &&& system.config.on_cem ==> signals[6].value is Absent
            &&& !system.config.on_cem ==> signals[7].value is Absent
            &&& !system.config.on_cem && system.config.nominal_max_watts is Some
                ==> signals[6].value == SignalFact::Number(system.config.nominal_max_watts->0)
            &&& system.config.on_cem && system.config.contractual_max_watts is Some
                ==> signals[7].value == SignalFact::Number(system.config.contractual_max_watts->0)
            &&& system.effective().amount() matches Some(watts) ==> signals[8].value
                == SignalFact::Number(watts)
            &&& system.effective().amount() is None ==> signals[8].value is Absent
            &&& system.ceiling() matches Some(watts) ==> signals[9].value == SignalFact::Number(
                watts,
            )
            &&& system.ceiling() is None ==> signals[9].value is Absent
            &&& system.last_heartbeat matches Some(at) ==> signals[10].value
                == SignalFact::Seconds(at)
            &&& system.last_heartbeat is None ==> signals[10].value is Absent
            &&& system.deadline() matches Some(at) ==> signals[11].value == SignalFact::Seconds(at)
            &&& system.deadline() is None ==> signals[11].value is Absent
        }),
{
}

} // verus!
