//! What holds of the Controllable System on a node as a whole.

use super::actor::{failsafe_steps, key_value, CsActorView, CsEventView};
use super::payloads::{
    limit_write_of, names_limit, FAILSAFE_DURATION_KEY, FAILSAFE_LIMIT_KEY, LIMIT_ID,
};
use super::state::{CsView, LimitWrite, LocalDecision, NackReason, WriteOutcome};
use crate::address::FeatureAddressView;
use crate::model::{
    DeviceConfigurationKeyId, DeviceConfigurationKeyValueData, DeviceConfigurationKeyValueValue,
    ErrorNumber, Function, LoadControlLimitData, LoadControlLimitId, MsgCounter, Payload,
    ScaledNumber, WriteToken,
};
use crate::number::Number;
use crate::spine::{CommandView, EngineView, SpineEvent};
use crate::time::Duration;
use crate::usecases::signals::SignalFact;
use vstd::prelude::*;

verus! {

/// The answer that a decision is sent as.
pub open spec fn answer(token: WriteToken, outcome: WriteOutcome) -> CommandView {
    if outcome is Accepted {
        CommandView::Accept { token }
    } else {
        CommandView::Reject { token, error: ErrorNumber::CommandRejected }
    }
}

/// Whether one answer was queued, and nothing after it but data to be published.
pub open spec fn answered_once(
    before: EngineView,
    after: EngineView,
    token: WriteToken,
    outcome: WriteOutcome,
    now: Duration,
) -> bool {
    let count = before.outbox.len() as int;
    &&& after.outbox.len() > count
    &&& after.outbox.take(count) == before.outbox
    &&& after.outbox[count] == (now, answer(token, outcome))
    &&& forall|i: int|
        count < i < after.outbox.len() ==> (#[trigger] after.outbox[i]).1 is Publish
    &&& outcome is Accepted <==> after.outbox.len() > count + 1
}

/// Every limit write is answered exactly once and recorded exactly once, with the outcome that
/// the application is told; an accepted one is published, a refused one publishes nothing.
pub proof fn law_limit_writes_are_answered_and_recorded(
    actor: CsActorView,
    engine: EngineView,
    token: WriteToken,
    request: MsgCounter,
    peer: Option<Seq<char>>,
    data: Payload,
    resolved: Payload,
    now: Duration,
)
    ensures
        ({
            let (after, sent, event) = actor.limit_decided(
                engine,
                token,
                request,
                peer,
                data,
                resolved,
                now,
            );
            let outcome = match event {
                CsEventView::LimitDecided { request, write, outcome } => outcome,
                CsEventView::LimitUnreadable { request, outcome } => outcome,
                _ => WriteOutcome::Accepted,
            };
            &&& event is LimitDecided || event is LimitUnreadable
            &&& answered_once(engine, sent, token, outcome, now)
            &&& exists|record: super::audit::LimitRecordView|
                {
                    &&& after.audit == #[trigger] actor.audit.recorded(record)
                    &&& record.at == now
                    &&& record.request == request
                    &&& record.peer == peer
                    &&& record.outcome == outcome
                    &&& record.write is Some <==> event is LimitDecided
                }
        }),
{
    let (after, sent, event) = actor.limit_decided(
        engine,
        token,
        request,
        peer,
        data,
        resolved,
        now,
    );
    let own = LoadControlLimitId(LIMIT_ID);
    assert(sent.outbox.take(engine.outbox.len() as int) =~= engine.outbox);
    let outcome = match event {
        CsEventView::LimitDecided { request, write, outcome } => outcome,
        CsEventView::LimitUnreadable { request, outcome } => outcome,
        _ => WriteOutcome::Accepted,
    };
    let record = super::audit::LimitRecordView {
        peer,
        ..super::audit::LimitRecordView::bare(
            now,
            request,
            match event {
                CsEventView::LimitDecided { request, write, outcome } => Some(write),
                _ => None,
            },
            outcome,
        )
    };
    assert(after.audit == actor.audit.recorded(record));
}

/// A write that does not address this system's limit is refused and does not reach the state
/// machine.
pub proof fn law_unaddressed_writes_do_not_reach_the_system(
    actor: CsActorView,
    engine: EngineView,
    token: WriteToken,
    request: MsgCounter,
    peer: Option<Seq<char>>,
    data: Payload,
    resolved: Payload,
    now: Duration,
)
    requires
        !names_limit(data, LoadControlLimitId(LIMIT_ID)),
    ensures
        ({
            let (after, sent, event) = actor.limit_decided(
                engine,
                token,
                request,
                peer,
                data,
                resolved,
                now,
            );
            &&& after.system == actor.system
            &&& event == CsEventView::LimitUnreadable {
                request,
                outcome: WriteOutcome::Rejected(NackReason::Unreadable),
            }
        }),
{
}

/// A write that addresses this system's limit with a value that cannot be read is refused like
/// any other: it moves the state machine as a refusal does, and never becomes a limit.
pub proof fn law_unreadable_limits_are_refused(
    actor: CsActorView,
    engine: EngineView,
    token: WriteToken,
    request: MsgCounter,
    peer: Option<Seq<char>>,
    data: Payload,
    resolved: Payload,
    now: Duration,
)
    requires
        names_limit(data, LoadControlLimitId(LIMIT_ID)),
        limit_write_of(resolved, LoadControlLimitId(LIMIT_ID)) is None,
    ensures
        ({
            let (after, sent, event) = actor.limit_decided(
                engine,
                token,
                request,
                peer,
                data,
                resolved,
                now,
            );
            let (system, outcome) = actor.system.unreadable_written(now);
            &&& after.system == system
            &&& after.system.limit == actor.system.limit
            &&& !(outcome is Accepted)
            &&& !actor.system.timed_out(now).gated(now) ==> after.system.state.controlled()
                && after.system.sequence_complete
            &&& event == CsEventView::LimitUnreadable { request, outcome }
            &&& sent == engine.queued(now, answer(token, outcome))
        }),
{
}

/// Every failsafe write is answered exactly once, with the outcome that the application is told.
pub proof fn law_failsafe_writes_are_answered(
    actor: CsActorView,
    engine: EngineView,
    token: WriteToken,
    request: MsgCounter,
    data: Payload,
    resolved: Payload,
    now: Duration,
)
    ensures
        ({
            let (after, sent, event) = actor.failsafe_decided(
                engine,
                token,
                request,
                data,
                resolved,
                now,
            );
            &&& event matches CsEventView::FailsafeDecided { request: answered, outcome }
                && answered == request && answered_once(engine, sent, token, outcome, now)
            &&& after.audit == actor.audit
            &&& after.guard == actor.guard
        }),
{
    let (after, sent, event) = actor.failsafe_decided(
        engine,
        token,
        request,
        data,
        resolved,
        now,
    );
    assert(sent.outbox.take(engine.outbox.len() as int) =~= engine.outbox);
}

/// The Energy Guard in control is the one entity that holds both bindings: it is identified only
/// by a binding, only once, and only where the two are on one entity.
pub proof fn law_one_entity_is_the_guard(
    actor: CsActorView,
    client: FeatureAddressView,
    server: FeatureAddressView,
)
    ensures
        ({
            let (after, event) = actor.bound(client, server);
            &&& event is Some <==> actor.guard is None && after.guard is Some
            &&& actor.guard is Some ==> after.guard == actor.guard
            &&& event is Some ==> (after.bound_load_control matches Some(one)
                && after.bound_configuration matches Some(other) && one.shares_entity(other)
                && after.guard == Some(one) && event == Some(
                CsEventView::GuardIdentified { guard: one },
            ))
        }),
{
}

/// A released binding leaves nobody in control, and the next guard has to be identified, and
/// followed, anew. The limit itself is kept: the silence of the heartbeat ends it.
pub proof fn law_release_forgets_the_guard(actor: CsActorView, server: FeatureAddressView)
    ensures
        actor.released(server).guard is None,
        actor.released(server).guard_diagnosis is None,
        !actor.released(server).subscribed,
        !actor.released(server).guard_discovery_asked,
        actor.released(server).system == actor.system,
{
}

/// The guard's heartbeat is subscribed to at most once, and asked for at most once, until the
/// guard changes.
pub proof fn law_guard_is_followed_once(actor: CsActorView, engine: EngineView, now: Duration)
    ensures
        ({
            let (after, sent) = actor.following(engine, now);
            &&& actor.subscribed ==> sent == engine && after == actor
            &&& after.following(sent, now).1 == sent || (after.guard_discovery_asked
                && !actor.guard_discovery_asked && after.following(sent, now).0.subscribed)
            &&& after.system == actor.system
        }),
{
}

/// A readable write of this system's limit is the write that the system decides on, that the
/// application is told of and that is recorded, under the request and the peer it came with.
pub proof fn law_limit_writes_reach_the_system(
    actor: CsActorView,
    engine: EngineView,
    token: WriteToken,
    request: MsgCounter,
    peer: Option<Seq<char>>,
    data: Payload,
    resolved: Payload,
    write: LimitWrite,
    now: Duration,
)
    requires
        names_limit(data, LoadControlLimitId(LIMIT_ID)),
        limit_write_of(resolved, LoadControlLimitId(LIMIT_ID)) == Some(write),
    ensures
        ({
            let (after, sent, event) = actor.limit_decided(
                engine,
                token,
                request,
                peer,
                data,
                resolved,
                now,
            );
            let (system, outcome) = actor.system.limit_written(write, LocalDecision::Apply, now);
            let record = after.audit.records.last();
            &&& after == CsActorView { system: after.system, audit: after.audit, ..actor }
            &&& after.system == system
            &&& event == CsEventView::LimitDecided { request, write, outcome }
            &&& after.audit.records.len() > 0
            &&& record.at == now && record.request == request && record.peer == peer
                && record.write == Some(write) && record.outcome == outcome && record.basis is None
                && record.timestamp is None
            &&& outcome is Accepted ==> after.system.limit == Some(write)
            &&& outcome is Accepted ==> sent == after.published(
                engine.queued(now, CommandView::Accept { token }),
                now,
            )
            &&& !(outcome is Accepted) ==> sent == engine.queued(
                now,
                CommandView::Reject { token, error: ErrorNumber::CommandRejected },
            )
        }),
{
}

/// What a system publishes is what it does: its limit with whether it is in force and what applies,
/// its failsafe values, and what it can take at most; the descriptions name each of them. Only the
/// values that change are announced to those who listen.
pub proof fn law_what_is_published_shows_the_system(
    actor: CsActorView,
    engine: EngineView,
    now: Duration,
)
    ensures
        ({
            let sent = actor.published(engine, now);
            let system = actor.system;
            let n = engine.outbox.len() as int;
            &&& sent.outbox.len() == n + 4 + (if actor.electrical_connection is Some {
                1int
            } else {
                0int
            })
            &&& sent.outbox.take(n) == engine.outbox
            &&& sent.outbox[n].1 matches CommandView::Publish { feature, data, notify } && feature
                == actor.load_control && !notify && (data
                matches Payload::LoadControlLimitDescriptionListData(Some(entries))
                && entries.len() == 1 && entries[0].limit_id == Some(LoadControlLimitId(LIMIT_ID)))
            &&& sent.outbox[n + 1].1 matches CommandView::Publish { feature, data, notify }
                && feature == actor.load_control && notify && (data
                matches Payload::LoadControlLimitListData(Some(entries)) && entries.len() == 1
                && shows_limit(entries[0], system))
            &&& sent.outbox[n + 2].1 matches CommandView::Publish { feature, data, notify }
                && feature == actor.device_configuration && !notify && (data
                matches Payload::DeviceConfigurationKeyValueDescriptionListData(Some(entries))
                && entries.len() == 2)
            &&& sent.outbox[n + 3].1 matches CommandView::Publish { feature, data, notify }
                && feature == actor.device_configuration && notify && (data
                matches Payload::DeviceConfigurationKeyValueListData(Some(entries))
                && shows_failsafe(entries, system))
            &&& actor.electrical_connection matches Some(electrical) ==> (sent.outbox[n + 4].1
                matches CommandView::Publish { feature, data, notify } && feature == electrical
                && !notify && data is ElectricalConnectionCharacteristicListData)
        }),
{
    assert(actor.published(engine, now).outbox.take(engine.outbox.len() as int) =~= engine.outbox);
}

/// Whether an entry shows the limit of a system: in force exactly in the limited state, and with
/// the value that applies.
pub open spec fn shows_limit(entry: LoadControlLimitData, system: CsView) -> bool {
    &&& entry.limit_id == Some(LoadControlLimitId(LIMIT_ID))
    &&& entry.is_limit_changeable == Some(true)
    &&& entry.is_limit_active == Some(
        system.state is Limited && (system.limit matches Some(limit) && limit.is_active),
    )
    &&& entry.time_period is None
    &&& (system.state is Init || system.state is FailsafeState) ==> entry.value == Some(
        ScaledNumber::encoded(system.config.failsafe_watts, 0),
    )
    &&& system.state is Limited ==> (system.limit matches Some(limit) ==> (limit.is_active
        ==> entry.value == Some(ScaledNumber::encoded(limit.watts, 0))))
    &&& (system.state is UnlimitedControlled || system.state is UnlimitedAutonomous)
        ==> entry.value == Some(ScaledNumber::encoded(Number::Finite(0), 0))
}

/// Whether entries show the failsafe values of a system, each under its key.
pub open spec fn shows_failsafe(
    entries: Seq<DeviceConfigurationKeyValueData>,
    system: CsView,
) -> bool {
    &&& entries.len() == 2
    &&& entries[0].key_id == Some(DeviceConfigurationKeyId(FAILSAFE_LIMIT_KEY))
    &&& entries[0].value matches Some(value) && value.scaled_number == Some(
        ScaledNumber::encoded(system.config.failsafe_watts, 0),
    )
    &&& entries[1].key_id == Some(DeviceConfigurationKeyId(FAILSAFE_DURATION_KEY))
    &&& entries[1].value matches Some(value) && value.duration == Some(
        system.config.failsafe_duration,
    )
}

/// Each failsafe value that is written reaches the system, in order: a limit as a limit, a duration
/// as a duration. One refusal refuses the whole. Other keys reach nothing, and a value that cannot
/// be read is refused.
pub proof fn law_failsafe_writes_reach_the_system(
    system: CsView,
    written: Seq<DeviceConfigurationKeyValueData>,
    entry: DeviceConfigurationKeyValueData,
    effective: Seq<DeviceConfigurationKeyValueData>,
    value: DeviceConfigurationKeyValueValue,
    now: Duration,
)
    ensures
        ({
            let before = failsafe_steps(system, written, effective, now);
            let after = failsafe_steps(system, written.push(entry), effective, now);
            let limit = DeviceConfigurationKeyId(FAILSAFE_LIMIT_KEY);
            let duration = DeviceConfigurationKeyId(FAILSAFE_DURATION_KEY);
            &&& written.len() == 0 ==> before == (system, WriteOutcome::Accepted)
            &&& !(before.1 is Accepted) ==> !(after.1 is Accepted)
            &&& entry.key_id != Some(limit) && entry.key_id != Some(duration) ==> after == before
            &&& entry.key_id == Some(limit) && key_value(effective, limit) == Some(value) ==> (
            value.scaled_number matches Some(ScaledNumber::Value(watts)) ==> ({
                let (system, outcome) = before.0.failsafe_limit_written(
                    Number::Finite(watts),
                    now,
                );
                &&& after.0 == system
                &&& outcome is Accepted ==> after.1 == before.1
                &&& !(outcome is Accepted) ==> after.1 == outcome
            }))
            &&& entry.key_id == Some(limit) && key_value(effective, limit) is None
                ==> !(after.1 is Accepted) && after.0.config == before.0.config
            &&& entry.key_id == Some(duration) && key_value(effective, duration) == Some(value)
                ==> (value.duration matches Some(span) ==> ({
                let (system, outcome) = before.0.failsafe_duration_written(span, now);
                &&& after.0 == system
                &&& outcome is Accepted ==> after.1 == before.1
                &&& !(outcome is Accepted) ==> after.1 == outcome
            }))
            &&& entry.key_id == Some(duration) && key_value(effective, duration) is None
                ==> !(after.1 is Accepted) && after.0.config == before.0.config
        }),
{
    let longer = written.push(entry);
    assert(longer.drop_last() =~= written);
    assert(longer.last() == entry);
    reveal(Seq::fold_left);
}

/// A failsafe write changes nothing but the system: its values are the ones the keys name, and an
/// accepted one is published.
pub proof fn law_failsafe_writes_change_only_the_system(
    actor: CsActorView,
    engine: EngineView,
    token: WriteToken,
    request: MsgCounter,
    written: Seq<DeviceConfigurationKeyValueData>,
    effective: Seq<DeviceConfigurationKeyValueData>,
    now: Duration,
)
    ensures
        ({
            let (after, sent, event) = actor.failsafe_decided(
                engine,
                token,
                request,
                Payload::DeviceConfigurationKeyValueListData(Some(written)),
                Payload::DeviceConfigurationKeyValueListData(Some(effective)),
                now,
            );
            let (system, outcome) = failsafe_steps(actor.system, written, effective, now);
            &&& after == CsActorView { system, ..actor }
            &&& event == CsEventView::FailsafeDecided { request, outcome }
            &&& outcome is Accepted ==> sent == after.published(
                engine.queued(now, CommandView::Accept { token }),
                now,
            )
        }),
{
}

/// When the timers are looked at, a heartbeat goes out if one is due and then only, the system
/// moves on as its own clock has it, and a change of state is told and published.
pub proof fn law_timers_move_the_system(actor: CsActorView, engine: EngineView, now: Duration)
    ensures
        ({
            let (after, sent, event) = actor.ticked(engine, now);
            let due = now.nanos >= actor.heartbeat.next.nanos;
            let n = engine.outbox.len() as int;
            &&& after.system == actor.system.timed_out(now)
            &&& after == CsActorView { system: after.system, heartbeat: after.heartbeat, ..actor }
            &&& !due ==> after.heartbeat == actor.heartbeat
            &&& due && now.nanos + 60_000_000_000 <= u128::MAX ==> after.heartbeat.next.nanos
                == now.nanos + 60_000_000_000
            &&& due && actor.heartbeat.counter < u64::MAX ==> after.heartbeat.counter
                == actor.heartbeat.counter + 1
            &&& due ==> sent.outbox.len() > n && (sent.outbox[n].1 matches CommandView::Beat {
                feature,
                counter,
            } && feature == actor.device_diagnosis && counter == actor.heartbeat.counter)
            &&& event is Some <==> after.system.state != actor.system.state
            &&& event matches Some(event) ==> event == (CsEventView::StateChanged {
                from: actor.system.state,
                to: after.system.state,
            })
            &&& event is None ==> sent.outbox.len() == n + (if due {
                1int
            } else {
                0int
            })
            &&& event is Some ==> sent == after.published(
                if due {
                    engine.queued(now, sent.outbox[n].1)
                } else {
                    engine
                },
                now,
            )
        }),
{
}

/// A heartbeat that arrives, in a reply or a notification, is heard; other data changes nothing,
/// and neither is answered.
pub proof fn law_heartbeats_are_heard(
    actor: CsActorView,
    engine: EngineView,
    event: SpineEvent,
    data: Payload,
    now: Duration,
)
    requires
        (event matches SpineEvent::ReplyReceived { feature, resolved } && resolved@ == data) || (
        event matches SpineEvent::DataNotified { feature, resolved } && resolved@ == data),
    ensures
        ({
            let (after, sent, report) = actor.stepped(engine, event, now);
            &&& sent == engine && report is None
            &&& data is DeviceDiagnosisHeartbeatData ==> after.system == actor.system.heard(now)
                && after.system.last_heartbeat == Some(now)
            &&& !(data is DeviceDiagnosisHeartbeatData) ==> after == actor
            &&& after == CsActorView { system: after.system, ..actor }
        }),
{
}

/// A write is decided by the feature it is for: the limit, the configuration, or nobody.
pub proof fn law_writes_are_decided_by_their_feature(
    actor: CsActorView,
    engine: EngineView,
    event: SpineEvent,
    now: Duration,
)
    ensures
        event matches SpineEvent::WriteRequested(write) ==> ({
            let (after, sent, report) = actor.stepped(engine, event, now);
            let peer = match write.from.device {
                Some(device) => Some(device@),
                None => None,
            };
            if write.feature@ == actor.load_control {
                let decided = actor.limit_decided(
                    engine,
                    write.token,
                    write.request,
                    peer,
                    write.data@,
                    write.resolved@,
                    now,
                );
                after == decided.0 && sent == decided.1 && report == Some(decided.2)
            } else if write.feature@ == actor.device_configuration {
                let decided = actor.failsafe_decided(
                    engine,
                    write.token,
                    write.request,
                    write.data@,
                    write.resolved@,
                    now,
                );
                after == decided.0 && sent == decided.1 && report == Some(decided.2)
            } else {
                after == actor && sent == engine && report is None
            }
        }),
{
}

/// A binding is noted for the feature it is to, and only that, and so is its release.
pub proof fn law_bindings_are_noted_where_they_are(
    actor: CsActorView,
    client: FeatureAddressView,
    server: FeatureAddressView,
)
    ensures
        ({
            let after = actor.bound(client, server).0;
            let released = actor.released(server);
            &&& after == CsActorView {
                bound_load_control: after.bound_load_control,
                bound_configuration: after.bound_configuration,
                guard: after.guard,
                ..actor
            }
            &&& server == actor.load_control ==> after.bound_load_control == Some(client)
                && after.bound_configuration == actor.bound_configuration
            &&& server != actor.load_control && server == actor.device_configuration
                ==> after.bound_configuration == Some(client) && after.bound_load_control
                == actor.bound_load_control
            &&& server != actor.load_control && server != actor.device_configuration ==> after
                == actor
            &&& actor.guard is None && (after.bound_load_control matches Some(one)
                && after.bound_configuration matches Some(other) && one.shares_entity(other)) && (
            server == actor.load_control || server == actor.device_configuration) ==> after.guard
                == after.bound_load_control
            &&& server.shares_entity(actor.load_control) ==> released.bound_load_control is None
                && released.bound_configuration == actor.bound_configuration
            &&& !server.shares_entity(actor.load_control) && server.shares_entity(
                actor.device_configuration,
            ) ==> released.bound_configuration is None && released.bound_load_control
                == actor.bound_load_control
            &&& !server.shares_entity(actor.load_control) && !server.shares_entity(
                actor.device_configuration,
            ) ==> released.bound_configuration == actor.bound_configuration
                && released.bound_load_control == actor.bound_load_control
            &&& released.audit == actor.audit && released.heartbeat == actor.heartbeat
        }),
{
}

/// The guard's heartbeat is subscribed to as soon as the guard's entity is known to serve one;
/// until then its device is asked once what it serves.
pub proof fn law_the_guard_is_followed(
    actor: CsActorView,
    engine: EngineView,
    guard: FeatureAddressView,
    device: Seq<char>,
    now: Duration,
)
    requires
        actor.guard == Some(guard),
        guard.device == Some(device),
        !actor.subscribed,
    ensures
        ({
            let (after, sent) = actor.following(engine, now);
            let n = engine.outbox.len() as int;
            match actor.guards_heartbeat(engine) {
                Some(feature) => {
                    &&& after == CsActorView {
                        guard_diagnosis: Some(feature),
                        subscribed: true,
                        ..actor
                    }
                    &&& sent.outbox.len() == n + 1
                    &&& sent.outbox[n].1 matches CommandView::Subscribe { counter, client, server }
                        && client == actor.device_diagnosis_client && server == feature
                },
                None => if actor.guard_discovery_asked {
                    after == actor && sent == engine
                } else {
                    &&& after == CsActorView { guard_discovery_asked: true, ..actor }
                    &&& sent.outbox.len() == n + 1
                    &&& sent.outbox[n].1 matches CommandView::Read { counter, to, from, function }
                        && to.device == Some(device) && from.device == Some(engine.address)
                        && function == Function::NodeManagementDetailedDiscoveryData
                },
            }
        }),
{
}

/// The signals of a system on a node are those of the system, and after them who is in control and
/// how much is recorded.
pub proof fn law_signals_show_who_is_in_control(actor: CsActorView)
    ensures
        ({
            let signals = actor.signals();
            let system = actor.system.signals(actor.direction);
            let n = system.len() as int;
            &&& signals.len() == n + 2
            &&& signals.take(n) == system
            &&& actor.guard is None <==> signals[n].value is Absent
            &&& actor.guard matches Some(guard) ==> signals[n].value == SignalFact::Text(
                CsActorView::guard_text(guard),
            )
            &&& actor.audit.records.len() <= 9_000_000_000_000_000 ==> (signals[n + 1].value
                matches SignalFact::Number(Number::Finite(count)) && count == 1000
                * actor.audit.records.len())
        }),
{
    let system = actor.system.signals(actor.direction);
    assert(actor.signals().take(system.len() as int) =~= system);
}

} // verus!
