//! What the Energy Guard owes the grid operator: what is required of a device is what the device is
//! told, what it answers is what is known of it, and nothing else changes either.

use super::guard_model::{
    normalised, normalised_option, same_limit, writeable_duration, writeable_watts, CsPeerView,
    GuardEventView, GuardView, MemberView, Unanswered,
};
use super::payloads::PeerIds;
use super::state::{LimitWrite, NackReason, WriteOutcome};
use super::Direction;
use crate::address::FeatureAddressView;
use crate::model::{
    AbsoluteOrRelativeTime, DeviceConfigurationKeyId, DeviceConfigurationKeyValueValue,
    ErrorNumber, FeatureType, Function, LoadControlLimitId, MsgCounter, Payload, Role,
    ScaledNumber,
};
use crate::number::Number;
use crate::seqs::{
    first_index, lemma_filter_keeps_all, lemma_filtered, lemma_first_index, lemma_no_first_index,
};
use crate::spine::{CommandView, EngineView, HeartbeatMonitor, SpineEvent};
use crate::time::Duration;
use vstd::prelude::*;

verus! {

/// A limit is sent as it was asked for, but for a value below zero, which is sent as zero, and a
/// duration of zero on an activated limit, which is left out.
pub proof fn law_limits_are_sent_as_asked(limit: LimitWrite, watts: i64)
    ensures
        normalised(limit).is_active == limit.is_active,
        limit.watts == Number::Finite(watts) ==> normalised(limit).watts == Number::Finite(
            if watts < 0 {
                0
            } else {
                watts
            },
        ),
        limit.watts is PositiveInfinity || limit.watts is NotANumber ==> normalised(limit).watts
            == limit.watts,
        !limit.is_active || limit.duration != Some(Duration { nanos: 0 }) ==> normalised(
            limit,
        ).duration == limit.duration,
        limit.is_active && limit.duration == Some(Duration { nanos: 0 }) ==> normalised(
            limit,
        ).duration is None,
        normalised_option(Some(limit)) == Some(normalised(limit)),
        normalised_option(None) is None,
{
}

/// Two limits come to the same where both are activated for the same time and differ by less than
/// half a watt, or where neither is activated, for the same time; in no other case.
pub proof fn law_same_limits(a: LimitWrite, b: LimitWrite, x: i64, y: i64)
    ensures
        same_limit(a, b) ==> a.is_active == b.is_active && a.duration == b.duration,
        !a.is_active && !b.is_active && a.duration == b.duration ==> same_limit(a, b),
        same_limit(a, b) == same_limit(b, a),
        a.is_active && b.is_active && a.duration == b.duration && a.watts == Number::Finite(x)
            && b.watts == Number::Finite(y) ==> (same_limit(a, b) <==> 2 * (x - y) < 1000 && 2 * (y
            - x) < 1000),
        a.is_active && !(a.watts is Finite && b.watts is Finite) ==> !same_limit(a, b),
{
}

/// What stays as it was when something is required of a peer.
pub open spec fn only_the_requirement_changed(before: MemberView, after: MemberView) -> bool {
    after == MemberView {
        required: after.required,
        retry_at: after.retry_at,
        refusals: after.refusals,
        write_due_at: after.write_due_at,
        unsettled: after.unsettled,
        ..before
    }
}

/// A new requirement takes the place of the old one, whatever that was, and is due at once; a
/// backoff after earlier refusals does not apply to it. Nothing else is forgotten.
pub proof fn law_a_requirement_replaces_the_old_one(
    member: MemberView,
    limit: Option<LimitWrite>,
    now: Duration,
)
    ensures
        ({
            let after = member.requiring(limit, now);
            &&& limit is None ==> after.required is None
            &&& limit matches Some(limit) ==> after.required == Some(normalised(limit))
            &&& after.write_due_at == Some(now)
            &&& after.retry_at is None && after.refusals == 0
            &&& only_the_requirement_changed(member, after)
        }),
{
}

/// What is required of all is required of each: every attached peer has the new requirement,
/// whatever was required of it before, its write is due, and it is as if each had been asked.
pub proof fn law_requiring_of_all_requires_of_each(
    guard: GuardView,
    limit: Option<LimitWrite>,
    index: int,
    now: Duration,
)
    requires
        0 <= index < guard.peers.len(),
    ensures
        ({
            let after = guard.requiring_all(limit, now);
            let peer = after.peers[index];
            &&& after.peers.len() == guard.peers.len()
            &&& limit is None ==> peer.required is None
            &&& limit matches Some(limit) ==> peer.required == Some(normalised(limit))
            &&& peer.write_due_at == Some(now)
            &&& peer.retry_at is None && peer.refusals == 0
            &&& only_the_requirement_changed(guard.peers[index], peer)
            &&& after.deferred == guard.deferred && after.heartbeat == guard.heartbeat
            &&& after.audit == guard.audit && after.direction == guard.direction
            &&& after.client == guard.client && after.diagnosis == guard.diagnosis
            &&& guard.place(guard.peers[index].peer.device) == Some(index) ==> peer
                == guard.requiring(
                guard.peers[index].peer.device,
                limit,
                now,
            ).peers[index]
        }),
{
    lemma_first_index(
        guard.peers,
        |member: MemberView| member.peer.device == guard.peers[index].peer.device,
    );
}

/// What is required of one device is required of it alone: every other peer, and what is held for
/// every other device, stays as it was.
pub proof fn law_requiring_of_one_leaves_the_others(
    guard: GuardView,
    device: Seq<char>,
    limit: Option<LimitWrite>,
    now: Duration,
)
    ensures
        ({
            let after = guard.requiring(device, limit, now);
            &&& after.peers.len() == guard.peers.len()
            &&& forall|i: int|
                0 <= i < guard.peers.len() && (#[trigger] guard.peers[i]).peer.device != device
                    ==> after.peers[i] == guard.peers[i]
            &&& guard.place(device) matches Some(index) ==> {
                &&& after.deferred == guard.deferred
                &&& after.peers[index].required == normalised_option(limit)
                &&& after.peers[index].write_due_at == Some(now)
                &&& only_the_requirement_changed(guard.peers[index], after.peers[index])
            }
            &&& guard.place(device) is None ==> {
                &&& after.peers == guard.peers
                &&& after.deferred.len() > 0 && after.deferred.last() == (device, limit)
                &&& forall|i: int|
                    0 <= i < after.deferred.len() - 1 ==> (#[trigger] after.deferred[i]).0 != device
                        && guard.deferred.contains(after.deferred[i])
            }
            &&& after.audit == guard.audit && after.heartbeat == guard.heartbeat
        }),
{
    let wanted = |member: MemberView| member.peer.device == device;
    lemma_first_index(guard.peers, wanted);
    let others = super::guard_model::for_other_devices(device);
    lemma_filtered(guard.deferred, others);
    if guard.place(device) is None {
        let after = guard.requiring(device, limit, now);
        assert forall|i: int| 0 <= i < after.deferred.len() - 1 implies (
        #[trigger] after.deferred[i]).0 != device && guard.deferred.contains(
            after.deferred[i],
        ) by {
            assert(after.deferred[i] == guard.deferred.filter(others)[i]);
            assert(others(guard.deferred.filter(others)[i]));
        }
    }
}

/// A device that is detached is forgotten but for what is required of it, and the others stay.
pub proof fn law_detaching_leaves_the_others(guard: GuardView, device: Seq<char>)
    ensures
        ({
            let after = guard.detached(device);
            &&& forall|i: int|
                0 <= i < after.peers.len() ==> (#[trigger] after.peers[i]).peer.device != device
                    && guard.peers.contains(after.peers[i])
            &&& (forall|i: int|
                0 <= i < guard.peers.len() ==> (#[trigger] guard.peers[i]).peer.device != device)
                ==> after == guard
            &&& after.audit == guard.audit && after.heartbeat == guard.heartbeat
            &&& after.direction == guard.direction && after.client == guard.client
            &&& after.diagnosis == guard.diagnosis
        }),
{
    let others = |member: MemberView| member.peer.device != device;
    let same = |member: MemberView| member.peer.device == device;
    lemma_filtered(guard.peers, others);
    let after = guard.detached(device);
    assert forall|i: int| 0 <= i < after.peers.len() implies (
    #[trigger] after.peers[i]).peer.device != device && guard.peers.contains(after.peers[i]) by {
        assert(others(guard.peers.filter(others)[i]));
    }
    if forall|i: int|
        0 <= i < guard.peers.len() ==> (#[trigger] guard.peers[i]).peer.device != device {
        lemma_filter_keeps_all(guard.peers, others);
        lemma_no_first_index(guard.peers, same);
    }
}

/// What is owed to a peer: the requirement; where there is none, that a limit it holds is lifted.
pub proof fn law_what_a_peer_is_told(member: MemberView)
    ensures
        member.required matches Some(limit) ==> member.to_write() == limit && member.wanted()
            == Some(limit),
        member.required is None ==> !member.to_write().is_active && member.to_write().duration
            is None,
        member.required is None && member.applied is Some ==> (member.wanted() matches Some(limit)
            && !limit.is_active && limit.duration is None),
        member.required is None && member.applied is None ==> member.wanted() is None,
{
}

/// When a write is owed: always for the opening one; for a later one where the peer should hold a
/// limit that it does not, or holds one in force that it should not.
pub proof fn law_when_a_write_is_owed(member: MemberView, limit: LimitWrite, held: LimitWrite)
    ensures
        !member.opening_write_sent ==> member.wants_write(),
        member.required == Some(limit) && member.applied is None ==> member.wants_write(),
        member.required == Some(limit) && member.applied == Some(held) && !same_limit(limit, held)
            ==> member.wants_write(),
        member.required is None && member.applied == Some(held) && held.is_active
            ==> member.wants_write(),
        member.opening_write_sent && !member.unsettled && member.required == Some(limit)
            && member.applied == Some(held) && same_limit(limit, held) ==> !member.wants_write(),
        member.opening_write_sent && !member.unsettled && member.required is None
            && member.applied is None ==> !member.wants_write(),
{
}

/// When an owed write goes out: not before both bindings and the peer's own number are there, not
/// while another is on its way, not before the peer listens or ten seconds have passed, not before
/// a backoff is over, and otherwise not within five minutes of the last one. At any other time it
/// does.
pub proof fn law_when_an_owed_write_goes_out(member: MemberView, now: Duration)
    requires
        member.wants_write(),
    ensures
        ({
            let ready = member.bound_load_control && member.bound_configuration
                && member.ids.limit is Some;
            let listens = member.watches_heartbeat || now.nanos >= member.attached_at.nanos
                + 10_000_000_000;
            let spaced = match (member.retry_at, member.last_write) {
                (Some(retry_at), _) => now.nanos >= retry_at.nanos,
                (None, Some(last)) => now.nanos >= last.nanos + 300_000_000_000,
                (None, None) => true,
            };
            &&& member.ready() == ready
            &&& member.held_back(now) is None <==> ready && member.outstanding is None && listens
                && spaced
            &&& ready && member.outstanding is None && !listens ==> (member.held_back(now)
                matches Some(Some(due)) && (member.attached_at.nanos + 10_000_000_000
                <= u128::MAX ==> due.nanos == member.attached_at.nanos + 10_000_000_000))
            &&& ready && member.outstanding is None && listens ==> {
                &&& member.retry_at matches Some(retry_at) ==> (now.nanos < retry_at.nanos
                    ==> member.held_back(now) == Some(Some(retry_at)))
                &&& member.retry_at is None && !spaced ==> (member.held_back(now) matches Some(
                    Some(due),
                ) && (member.last_write->0.nanos + 300_000_000_000 <= u128::MAX ==> due.nanos
                    == member.last_write->0.nanos + 300_000_000_000))
            }
        }),
{
}

/// Whether a command writes a limit under its number to a feature, in words of the wire: the
/// activation, the value to the watt, and the end where there is one. Only what is given is
/// written, and an end that an earlier limit may have left is removed where there is none.
pub open spec fn writes_limit(
    command: CommandView,
    to: FeatureAddressView,
    from: FeatureAddressView,
    id: LoadControlLimitId,
    limit: LimitWrite,
) -> bool {
    match command {
        CommandView::Write { counter, to: target, from: source, data, filters } => {
            &&& target == to
            &&& source == from
            &&& data matches Payload::LoadControlLimitListData(Some(entries)) && entries.len() == 1
                && {
                let entry = entries[0];
                &&& entry.limit_id == Some(id)
                &&& entry.is_limit_active == Some(limit.is_active)
                &&& entry.value == Some(ScaledNumber::encoded(limit.watts, 0))
                &&& limit.duration is None ==> entry.time_period is None
                &&& limit.duration matches Some(duration) ==> (entry.time_period matches Some(
                    period,
                ) && period.end_time == Some(AbsoluteOrRelativeTime::Relative(duration)))
            }
            &&& filters.len() > 0 && filters.last().control is Partial
            &&& limit.duration is Some ==> filters.len() == 1
            &&& limit.duration is None ==> filters.len() == 2 && filters[0].control is Delete
                && filters[0].limit_id == Some(id) && filters[0].end_time
        },
        _ => false,
    }
}

/// A limit that is owed and not held back is written: what is required of the peer, or that its
/// limit is lifted, under the peer's own number, as the last command. The answer is waited for.
pub proof fn law_what_is_owed_is_written(
    guard: GuardView,
    engine: EngineView,
    index: int,
    now: Duration,
)
    requires
        0 <= index < guard.peers.len(),
        guard.peers[index].held_back(now) is None,
    ensures
        ({
            let member = guard.peers[index];
            let (after, sent) = guard.writing(engine, index, now);
            let limit = match member.required {
                Some(limit) => limit,
                None => LimitWrite {
                    is_active: false,
                    watts: Number::Finite(0),
                    duration: None,
                },
            };
            let last = sent.outbox.last();
            &&& last.0 == now
            &&& writes_limit(
                last.1,
                member.peer.load_control,
                guard.client,
                member.ids.limit->0,
                limit,
            )
            &&& after.peers[index].outstanding == Some((last.1->Write_counter, limit))
            &&& after.peers[index].required == member.required
            &&& after.peers[index].applied == member.applied
            &&& after.peers[index].opening_write_sent
            &&& after.peers[index].retry_at is None && after.peers[index].write_due_at is None
        }),
{
}

/// What a write leaves alone: every other peer but for the heartbeat it was sent, what is held, and
/// the record.
pub proof fn law_a_write_leaves_the_others(
    guard: GuardView,
    engine: EngineView,
    index: int,
    other: int,
    now: Duration,
)
    requires
        0 <= index < guard.peers.len(),
        0 <= other < guard.peers.len(),
        other != index,
    ensures
        ({
            let after = guard.writing(engine, index, now).0;
            &&& after.peers.len() == guard.peers.len()
            &&& after.peers[other] == MemberView {
                beat_seen_at: after.peers[other].beat_seen_at,
                ..guard.peers[other]
            }
            &&& after.deferred == guard.deferred && after.audit == guard.audit
            &&& after.client == guard.client && after.diagnosis == guard.diagnosis
            &&& after.direction == guard.direction
        }),
{
}

/// A heartbeat is counted only for the peers that listen, and for each of them.
pub proof fn law_heartbeats_count_where_they_are_heard(
    guard: GuardView,
    engine: EngineView,
    index: int,
    now: Duration,
)
    requires
        0 <= index < guard.peers.len(),
    ensures
        ({
            let (after, sent) = guard.beating(engine, now);
            &&& after.peers[index] == MemberView {
                beat_seen_at: if guard.peers[index].watches_heartbeat {
                    Some(now)
                } else {
                    guard.peers[index].beat_seen_at
                },
                ..guard.peers[index]
            }
            &&& now.nanos + 60_000_000_000 <= u128::MAX ==> after.heartbeat.next.nanos == now.nanos
                + 60_000_000_000
            &&& guard.heartbeat.counter < u64::MAX ==> after.heartbeat.counter
                == guard.heartbeat.counter + 1
            &&& sent.outbox.len() == engine.outbox.len() + 1
            &&& sent.outbox.last().1 matches CommandView::Beat { feature, counter }
                && feature == guard.diagnosis && counter == guard.heartbeat.counter
        }),
        guard.peers[index].beat_is_stale(now) <==> !(guard.peers[index].beat_seen_at matches Some(
            at,
        ) && now.nanos < at.nanos + 30_000_000_000),
{
}

/// The peer after it was looked after, in what a write decides.
spec fn looked_after(before: MemberView, after: MemberView, now: Duration) -> bool {
    &&& after.peer == before.peer && after.ids == before.ids
    &&& after.required == before.required && after.applied == before.applied
    &&& before.held_back(now) is None ==> (after.outstanding matches Some((_, limit)) && limit
        == before.to_write()) && after.opening_write_sent
    &&& before.held_back(now) matches Some(due) ==> after.outstanding == before.outstanding
        && after.write_due_at == due && after.last_write == before.last_write
        && after.opening_write_sent == before.opening_write_sent
    &&& after.monitor.lost == (before.monitor.lost || before.monitor.overdue(now))
    &&& after.monitor.heard_at == before.monitor.heard_at
}

proof fn lemma_sweep(guard: GuardView, engine: EngineView, count: nat, now: Duration)
    requires
        count <= guard.peers.len(),
    ensures
        ({
            let after = guard.swept(engine, count, now).0;
            &&& after.peers.len() == guard.peers.len()
            &&& forall|i: int|
                0 <= i < count ==> looked_after(
                    guard.peers[i],
                    #[trigger] after.peers[i],
                    now,
                )
            &&& forall|i: int|
                count <= i < guard.peers.len() ==> (#[trigger] after.peers[i]) == (MemberView {
                    beat_seen_at: after.peers[i].beat_seen_at,
                    ..guard.peers[i]
                })
        }),
    decreases count,
{
    if count > 0 {
        lemma_sweep(guard, engine, (count - 1) as nat, now);
        let (before, sent, events) = guard.swept(engine, (count - 1) as nat, now);
        let index = count - 1;
        let member = before.peers[index];
        let looked = MemberView {
            monitor: HeartbeatMonitor {
                lost: member.monitor.lost || member.monitor.overdue(now),
                ..member.monitor
            },
            ..member
        };
        let ready = before.with_peer(index, looked);
        assert(looked.held_back(now) == guard.peers[index].held_back(now));
        assert(looked.to_write() == guard.peers[index].to_write());
        let after = ready.writing(sent, index, now).0;
        assert(guard.swept(engine, count, now).0 == after);
        assert forall|i: int| 0 <= i < count implies looked_after(
            guard.peers[i],
            #[trigger] after.peers[i],
            now,
        ) by {
            if i < index {
                law_a_write_leaves_the_others(ready, sent, index, i, now);
                assert(looked_after(guard.peers[i], before.peers[i], now));
            }
        }
        assert forall|i: int| count <= i < guard.peers.len() implies (#[trigger] after.peers[i])
            == (MemberView { beat_seen_at: after.peers[i].beat_seen_at, ..guard.peers[i] }) by {
            law_a_write_leaves_the_others(ready, sent, index, i, now);
            assert(before.peers[i] == (MemberView {
                beat_seen_at: before.peers[i].beat_seen_at,
                ..guard.peers[i]
            }));
        }
    }
}

/// When the timers are looked at, every peer is looked after: each limit that is owed and not held
/// back is written, each that is held back keeps waiting, and no requirement changes.
pub proof fn law_every_peer_is_looked_after(
    guard: GuardView,
    engine: EngineView,
    index: int,
    now: Duration,
)
    requires
        0 <= index < guard.peers.len(),
    ensures
        ({
            let before = guard.peers[index];
            let after = guard.ticked(engine, now).0.peers[index];
            &&& guard.ticked(engine, now).0.peers.len() == guard.peers.len()
            &&& after.peer == before.peer
            &&& after.required == before.required && after.applied == before.applied
            &&& before.held_back(now) is None ==> (after.outstanding matches Some((_, limit))
                && limit == before.to_write())
            &&& before.held_back(now) matches Some(due) ==> after.outstanding
                == before.outstanding && after.write_due_at == due
            &&& before.monitor.overdue(now) ==> after.monitor.lost
        }),
{
    let (ready, sent) = if guard.heartbeat.due(now) {
        guard.beating(engine, now)
    } else {
        (guard, engine)
    };
    lemma_sweep(ready, sent, guard.peers.len(), now);
    assert(ready.peers[index].held_back(now) == guard.peers[index].held_back(now));
    assert(looked_after(
        ready.peers[index],
        guard.ticked(engine, now).0.peers[index],
        now,
    ));
}

/// The operator's instruction reaches the device: once a limit is required of an attached device
/// that holds another, the next look at the timers with nothing in the way writes it; once none is
/// required, the device is told that its limit is lifted.
pub proof fn law_instructions_reach_the_device(
    guard: GuardView,
    engine: EngineView,
    limit: Option<LimitWrite>,
    held: LimitWrite,
    index: int,
    now: Duration,
)
    requires
        0 <= index < guard.peers.len(),
        guard.peers[index].ready(),
        guard.peers[index].outstanding is None,
        guard.peers[index].watches_heartbeat,
        guard.peers[index].last_write matches Some(last) ==> now.nanos >= last.nanos
            + 300_000_000_000,
        guard.peers[index].applied == Some(held),
        held.is_active,
        limit matches Some(limit) ==> !same_limit(normalised(limit), held),
    ensures
        ({
            let after = guard.requiring_all(limit, now).ticked(engine, now).0.peers[index];
            match limit {
                Some(limit) => after.outstanding matches Some((_, sent)) && sent == normalised(
                    limit,
                ),
                None => after.outstanding matches Some((_, sent)) && !sent.is_active
                    && sent.duration is None,
            }
        }),
{
    let asked = guard.requiring_all(limit, now);
    law_requiring_of_all_requires_of_each(guard, limit, index, now);
    let member = asked.peers[index];
    assert(member.wants_write());
    law_when_an_owed_write_goes_out(member, now);
    law_every_peer_is_looked_after(asked, engine, index, now);
}

/// A heartbeat that stopped is reported for each peer that stopped, and for no other.
pub proof fn law_lost_heartbeats_are_reported(
    guard: GuardView,
    engine: EngineView,
    count: nat,
    now: Duration,
)
    requires
        count <= guard.peers.len(),
    ensures
        ({
            let events = guard.swept(engine, count, now).2;
            &&& forall|i: int|
                0 <= i < count && (#[trigger] guard.peers[i]).monitor.overdue(now)
                    ==> events.contains(
                    GuardEventView::PeerHeartbeatLost { device: guard.peers[i].peer.device },
                )
            &&& forall|k: int|
                0 <= k < events.len() ==> exists|i: int|
                    0 <= i < count && (#[trigger] guard.peers[i]).monitor.overdue(now)
                        && #[trigger] events[k] == (GuardEventView::PeerHeartbeatLost {
                        device: guard.peers[i].peer.device,
                    })
        }),
    decreases count,
{
    if count > 0 {
        law_lost_heartbeats_are_reported(guard, engine, (count - 1) as nat, now);
        lemma_sweep(guard, engine, (count - 1) as nat, now);
        let (before, sent, earlier) = guard.swept(engine, (count - 1) as nat, now);
        let events = guard.swept(engine, count, now).2;
        let index = count - 1;
        assert(before.peers[index].monitor == guard.peers[index].monitor);
        assert(before.peers[index].peer == guard.peers[index].peer);
        assert forall|i: int|
            0 <= i < count && (
            #[trigger] guard.peers[i]).monitor.overdue(now) implies events.contains(
            GuardEventView::PeerHeartbeatLost { device: guard.peers[i].peer.device },
        ) by {
            let lost = GuardEventView::PeerHeartbeatLost { device: guard.peers[i].peer.device };
            if i == index {
                assert(events[events.len() - 1] == lost);
            } else {
                let k = choose|k: int| 0 <= k < earlier.len() && earlier[k] == lost;
                assert(events[k] == lost);
            }
        }
        assert forall|k: int| 0 <= k < events.len() implies exists|i: int|
            0 <= i < count && (#[trigger] guard.peers[i]).monitor.overdue(now)
                && #[trigger] events[k] == (GuardEventView::PeerHeartbeatLost {
                device: guard.peers[i].peer.device,
            }) by {
            if k < earlier.len() {
                assert(events[k] == earlier[k]);
                let i = choose|i: int|
                    0 <= i < count - 1 && (#[trigger] guard.peers[i]).monitor.overdue(now)
                        && earlier[k] == (GuardEventView::PeerHeartbeatLost {
                        device: guard.peers[i].peer.device,
                    });
                assert(guard.peers[i].monitor.overdue(now));
            } else {
                assert(guard.peers[index].monitor.overdue(now));
            }
        }
    }
}

/// The next deadline is the earliest of the heartbeat and of the writes that wait for the clock.
pub proof fn law_the_next_deadline_is_the_earliest(guard: GuardView, count: nat)
    requires
        count <= guard.peers.len(),
    ensures
        guard.deadline(count).nanos <= guard.heartbeat.next.nanos,
        forall|i: int|
            0 <= i < count ==> ((#[trigger] guard.peers[i]).write_due_at matches Some(due)
                ==> guard.deadline(count).nanos <= due.nanos),
        guard.deadline(count) == guard.heartbeat.next || exists|i: int|
            0 <= i < count && (#[trigger] guard.peers[i]).write_due_at == Some(
                guard.deadline(count),
            ),
    decreases count,
{
    if count > 0 {
        law_the_next_deadline_is_the_earliest(guard, (count - 1) as nat);
        let rest = guard.deadline((count - 1) as nat);
        if guard.deadline(count) == rest && rest != guard.heartbeat.next {
            let i = choose|i: int|
                0 <= i < count - 1 && (#[trigger] guard.peers[i]).write_due_at == Some(rest);
            assert(guard.peers[i].write_due_at == Some(guard.deadline(count)));
        } else if guard.deadline(count) != rest {
            assert(guard.peers[count - 1].write_due_at == Some(guard.deadline(count)));
        }
    }
}

/// An accepted limit is what the peer holds from then on; a refused or unanswered one changes
/// neither what it holds nor what is required of it. The answer is no longer waited for.
pub proof fn law_answers_settle_what_is_known(
    member: MemberView,
    limit: LimitWrite,
    now: Duration,
)
    ensures
        member.accepted(limit).applied == Some(limit),
        member.accepted(limit).outstanding is None,
        member.accepted(limit).required == member.required,
        member.accepted(limit).refusals == 0,
        member.accepted(limit).last_write == member.last_write,
        member.accepted(limit).opened,
        member.refused(now).applied == member.applied,
        member.refused(now).outstanding is None,
        member.refused(now).required == member.required,
        member.refused(now).last_write == member.last_write,
        member.refusals < u32::MAX ==> member.refused(now).refusals == member.refusals + 1,
        member.refusals < u32::MAX && now.nanos + 60_000_000_000 * (member.refusals + 1)
            <= u128::MAX ==> (member.refused(now).retry_at matches Some(at) && at.nanos == now.nanos
            + 60_000_000_000 * (member.refusals + 1)),
        member.refused(now).write_due_at == member.refused(now).retry_at,
        member.unanswered(now).applied == member.applied,
        member.unanswered(now).outstanding is None,
        member.unanswered(now).required == member.required,
        member.unanswered(now).write_due_at == Some(now),
        member.unanswered(now).refusals == member.refusals,
{
}

/// The answer to a limit write is taken for the peer it was written to, reported and recorded with
/// what was written: an acceptance as one, a refusal with the instant of the next attempt.
pub proof fn law_answers_are_reported_and_recorded(
    guard: GuardView,
    engine: EngineView,
    index: int,
    request: MsgCounter,
    limit: LimitWrite,
    error: ErrorNumber,
    now: Duration,
)
    requires
        first_index(
            guard.peers,
            |member: MemberView| super::guard_model::waits(member.pending_bindings, request),
        ) is None,
        first_index(
            guard.peers,
            |member: MemberView|
                member.outstanding matches Some((counter, _)) && counter == request,
        ) == Some(index),
        guard.peers[index].outstanding == Some((request, limit)),
    ensures
        ({
            let (after, sent, event) = guard.resolved(engine, request, error, now);
            let device = guard.peers[index].peer.device;
            let member = after.peers[index];
            let record = after.audit.records.last();
            &&& sent == engine
            &&& after.peers.len() == guard.peers.len()
            &&& forall|i: int|
                0 <= i < guard.peers.len() && i != index ==> (#[trigger] after.peers[i])
                    == guard.peers[i]
            &&& member.outstanding is None && member.required == guard.peers[index].required
            &&& after.audit.records.len() > 0 && record.at == now && record.request == request
                && record.write == Some(limit) && record.peer == Some(device)
            &&& error is NoError ==> {
                &&& member.applied == Some(limit)
                &&& event == Some(GuardEventView::LimitAccepted { device, limit, request })
                &&& record.outcome == WriteOutcome::Accepted && record.basis is None
            }
            &&& !(error is NoError) ==> {
                &&& member.applied == guard.peers[index].applied
                &&& event matches Some(
                    GuardEventView::LimitRefused {
                        device: refusing,
                        limit: refused,
                        error: stated,
                        retry_at,
                    },
                ) && refusing == device && refused == limit && stated == error
                    && member.retry_at == Some(retry_at)
                &&& record.outcome == WriteOutcome::Rejected(NackReason::Unstated)
                    && record.basis is Some
            }
        }),
{
    lemma_first_index(
        guard.peers,
        |member: MemberView| member.outstanding matches Some((counter, _)) && counter == request,
    );
}

/// A binding counts once it is granted, for the feature it was asked for, and only then.
pub proof fn law_granted_bindings_count(member: MemberView, place: int, granted: bool)
    requires
        0 <= place < member.pending_bindings.len(),
    ensures
        ({
            let after = member.binding_answered(place, granted);
            let feature = member.pending_bindings[place].1;
            &&& !granted ==> after.bound_load_control == member.bound_load_control
                && after.bound_configuration == member.bound_configuration
            &&& granted && feature == member.peer.load_control ==> after.bound_load_control
            &&& granted && feature == member.peer.device_configuration && feature
                != member.peer.load_control ==> after.bound_configuration
            &&& feature != member.peer.load_control ==> after.bound_load_control
                == member.bound_load_control
            &&& feature != member.peer.device_configuration ==> after.bound_configuration
                == member.bound_configuration
            &&& after.pending_bindings == member.pending_bindings.remove(place)
            &&& after.required == member.required && after.ids == member.ids
                && after.pending_reads == member.pending_reads
        }),
{
}

/// Attaching asks for everything that a limit needs: both bindings and both descriptions, and it
/// subscribes to the limit, and to the heartbeat and reads the constraints where they are served.
/// Each answer that is waited for is known by the number it was asked under.
pub proof fn law_attaching_asks_for_what_is_needed(
    guard: GuardView,
    engine: EngineView,
    peer: CsPeerView,
    now: Duration,
)
    ensures
        ({
            let (after, sent) = guard.attached(engine, peer, now);
            let member = after.peers.last();
            let asked = sent.outbox;
            let n = engine.outbox.len() as int;
            &&& asked.len() == n + 5 + (if peer.device_diagnosis is Some {
                1int
            } else {
                0int
            }) + (if peer.electrical_connection is Some {
                1int
            } else {
                0int
            })
            &&& asked.take(n) == engine.outbox
            &&& asked[n].1 matches CommandView::Bind { counter, client, server } && client
                == guard.client && server == peer.load_control && member.pending_bindings[0] == (
                counter,
                peer.load_control,
            )
            &&& asked[n + 1].1 matches CommandView::Bind { counter, client, server } && client
                == guard.client && server == peer.device_configuration
                && member.pending_bindings[1] == (counter, peer.device_configuration)
            &&& asked[n + 2].1 matches CommandView::Read { counter, to, from, function } && to
                == peer.load_control && from == guard.client && function
                == Function::LoadControlLimitDescriptionListData && member.pending_reads[0] == (
                counter,
                peer.load_control,
            )
            &&& asked[n + 3].1 matches CommandView::Read { counter, to, from, function } && to
                == peer.device_configuration && from == guard.client && function
                == Function::DeviceConfigurationKeyValueDescriptionListData
                && member.pending_reads[1] == (counter, peer.device_configuration)
            &&& asked[n + 4].1 matches CommandView::Subscribe { counter, client, server } && client
                == guard.client && server == peer.load_control
            &&& peer.device_diagnosis matches Some(diagnosis) ==> (asked[n + 5].1
                matches CommandView::Subscribe { counter, client, server } && client
                == guard.client && server == diagnosis)
            &&& peer.electrical_connection matches Some(electrical) ==> (asked.last().1
                matches CommandView::Read { counter, to, from, function } && to == electrical
                && from == guard.client && function
                == Function::ElectricalConnectionCharacteristicListData)
            &&& member.peer == peer && member.attached_at == now
            &&& member.pending_bindings.len() == 2 && member.pending_reads.len() == 2
            &&& !member.bound_load_control && !member.bound_configuration
            &&& member.ids.limit is None && member.applied is None && member.outstanding is None
            &&& !member.opening_write_sent && !member.opened && !member.watches_heartbeat
            &&& member.last_write is None && member.beat_seen_at is None
            &&& after.audit == guard.audit && after.heartbeat == guard.heartbeat
        }),
{
    let (after, sent) = guard.attached(engine, peer, now);
    assert(sent.outbox.take(engine.outbox.len() as int) =~= engine.outbox);
}

/// What a peer reports of its limit is what it holds from then on, unless a write is on its way; a
/// requirement that it departs from is written again.
pub proof fn law_departures_are_corrected(
    guard: GuardView,
    engine: EngineView,
    index: int,
    data: Payload,
    reported: LimitWrite,
    required: LimitWrite,
    now: Duration,
)
    requires
        0 <= index < guard.peers.len(),
        guard.peers[index].ids.limit matches Some(id) && super::payloads::limit_write_of(data, id)
            == Some(reported),
        guard.peers[index].applied matches Some(applied) ==> !same_limit(applied, reported),
    ensures
        ({
            let before = guard.peers[index];
            let (after, sent) = guard.observing(engine, index, data, now);
            let member = after.peers[index];
            &&& before.outstanding is Some ==> after == guard && sent == engine
            &&& before.outstanding is None ==> member.applied == Some(reported) && member.required
                == before.required
            &&& before.outstanding is None && before.ready() && before.watches_heartbeat
                && before.retry_at is None && before.last_write is None && before.required == Some(
                required,
            ) && !same_limit(required, reported) ==> (member.outstanding matches Some((_, limit))
                && limit == required)
            &&& before.outstanding is None && before.opening_write_sent && before.required == Some(
                required,
            ) && same_limit(required, reported) ==> sent == engine && member.outstanding is None
        }),
{
    let member = guard.peers[index].reporting(reported);
    let due = MemberView { write_due_at: Some(now), ..member };
    if guard.peers[index].outstanding is None && guard.peers[index].required == Some(required)
        && same_limit(required, reported) && guard.peers[index].opening_write_sent {
        assert(!member.wants_write());
    }
}

/// A peer that listens to the guard's heartbeat is noted as such, and a write that waited for that
/// goes out.
pub proof fn law_listening_releases_the_write(
    guard: GuardView,
    engine: EngineView,
    client: FeatureAddressView,
    device: Seq<char>,
    index: int,
    now: Duration,
)
    requires
        client.device == Some(device),
        guard.place(device) == Some(index),
        guard.peers[index].ready(),
        guard.peers[index].outstanding is None,
        guard.peers[index].wants_write(),
        guard.peers[index].retry_at is None,
        guard.peers[index].last_write is None,
    ensures
        ({
            let (after, sent) = guard.watched(engine, client, guard.diagnosis, now);
            &&& after.peers[index].watches_heartbeat
            &&& after.peers[index].outstanding matches Some((_, limit)) && limit
                == guard.peers[index].to_write()
        }),
{
    lemma_first_index(guard.peers, |member: MemberView| member.peer.device == device);
    let listening = MemberView { watches_heartbeat: true, ..guard.peers[index] };
    law_when_an_owed_write_goes_out(listening, now);
}

/// Readiness is reported when both bindings and the peer's number are there, once, and the write
/// is looked at then.
pub proof fn law_readiness_is_reported_once(
    guard: GuardView,
    engine: EngineView,
    index: int,
    now: Duration,
)
    requires
        0 <= index < guard.peers.len(),
    ensures
        ({
            let before = guard.peers[index];
            let (after, sent, event) = guard.becoming_ready(engine, index, now);
            let ready = before.bound_load_control && before.bound_configuration
                && before.ids.limit is Some;
            if ready && !before.ready_reported {
                &&& event == Some(GuardEventView::Ready { device: before.peer.device })
                &&& after.peers[index].ready_reported
                &&& before.held_back(now) is None ==> (after.peers[index].outstanding
                    matches Some((_, limit)) && limit == before.to_write())
            } else {
                event is None && after == guard && sent == engine
            }
        }),
{
    let reported = MemberView { ready_reported: true, ..guard.peers[index] };
    assert(reported.held_back(now) == guard.peers[index].held_back(now));
}

/// A failsafe value is written to the peer's own key and to no other, once the peer is bound and
/// its key is known; before, nothing is sent.
pub proof fn law_failsafe_values_go_to_the_peers_key(
    guard: GuardView,
    engine: EngineView,
    device: Seq<char>,
    key: spec_fn(PeerIds) -> Option<DeviceConfigurationKeyId>,
    value: DeviceConfigurationKeyValueValue,
    now: Duration,
)
    ensures
        ({
            let (sent, request) = guard.failsafe_write(engine, device, key, value, now);
            match guard.member(device) {
                Some(member) if member.bound_configuration && key(member.ids) is Some => {
                    &&& sent.outbox.len() == engine.outbox.len() + 1
                    &&& sent.outbox.last().0 == now
                    &&& sent.outbox.last().1 matches CommandView::Write {
                        counter,
                        to,
                        from,
                        data,
                        filters,
                    } && request == Some(counter) && to == member.peer.device_configuration && from
                        == guard.client && (data
                        matches Payload::DeviceConfigurationKeyValueListData(Some(entries))
                        && entries.len() == 1 && entries[0].key_id == key(member.ids)
                        && entries[0].value == Some(value)) && filters.len() == 1
                        && filters[0].control is Partial
                },
                _ => sent == engine && request is None,
            }
        }),
{
}

/// A failsafe limit is written as it was asked for, but not below zero; a failsafe duration only
/// between two and twenty-four hours.
pub proof fn law_failsafe_values_are_permitted(watts: Number, duration: Duration)
    ensures
        watts matches Number::Finite(value) ==> writeable_watts(watts) == Number::Finite(
            if value < 0 {
                0
            } else {
                value
            },
        ),
        watts is PositiveInfinity ==> writeable_watts(watts) is PositiveInfinity,
        watts is NotANumber || watts is NegativeInfinity ==> writeable_watts(watts)
            == Number::Finite(0),
        writeable_duration(duration) <==> 7_200_000_000_000 <= duration.nanos
            <= 86_400_000_000_000,
{
}

/// What was never answered is let go and reported by what it was: a limit, a description or a
/// binding; nothing that is required or held changes.
pub proof fn law_silence_is_reported_by_what_was_asked(
    guard: GuardView,
    request: MsgCounter,
    index: int,
    now: Duration,
)
    requires
        first_index(guard.peers, |member: MemberView| member.owes(request)) == Some(index),
    ensures
        ({
            let before = guard.peers[index];
            let (after, event) = guard.given_up(request, now);
            let member = after.peers[index];
            let device = before.peer.device;
            let limit = before.outstanding matches Some((counter, _)) && counter == request;
            &&& event matches Some(
                GuardEventView::PeerUnresponsive { device: silent, outstanding },
            ) && silent == device && (outstanding == if limit {
                Unanswered::Limit
            } else if super::guard_model::waits(before.pending_reads, request) {
                Unanswered::Description
            } else {
                Unanswered::Binding
            })
            &&& member.required == before.required && member.applied == before.applied
            &&& limit ==> member.outstanding is None && member.write_due_at == Some(now)
                && after.audit.records.len() > 0 && after.audit.records.last().write == Some(
                (before.outstanding->0).1,
            ) && after.audit.records.last().outcome == WriteOutcome::Rejected(
                NackReason::Unstated,
            ) && after.audit.records.last().peer == Some(device)
            &&& !limit ==> after.audit == guard.audit && member.outstanding == before.outstanding
        }),
{
    lemma_first_index(guard.peers, |member: MemberView| member.owes(request));
}

/// A device is taken under control when it is discovered with a Controllable System, and only if it
/// is not under control already.
pub proof fn law_discovered_systems_are_taken_up(
    guard: GuardView,
    engine: EngineView,
    device: Seq<char>,
    peer: CsPeerView,
    now: Duration,
)
    requires
        engine.peer(device) matches Some(remote) && super::guard_model::located(
            remote,
            guard.direction,
        ) == Some(peer),
    ensures
        guard.place(device) is Some ==> guard.discovering(engine, device, now) == (guard, engine),
        guard.place(device) is None ==> guard.discovering(engine, device, now) == guard.attached(
            engine,
            peer,
            now,
        ),
{
}

/// What arrives of a peer is taken in for that peer: what it can take at most is told when it is
/// new, its heartbeat is heard, and the limit it reports is held against the requirement.
#[verifier::rlimit(40)]
pub proof fn law_data_of_a_peer_is_taken_in(
    guard: GuardView,
    engine: EngineView,
    feature: FeatureAddressView,
    data: Payload,
    index: int,
    now: Duration,
)
    requires
        first_index(guard.peers, |member: MemberView| member.peer.has(feature)) == Some(index),
    ensures
        ({
            let before = guard.peers[index];
            let (after, sent, event) = guard.informed(engine, feature, data, now);
            let member = after.peers[index];
            let device = before.peer.device;
            let electrical = before.peer.electrical_connection == Some(feature);
            let maximum = super::payloads::read_max(data, guard.direction);
            let limit = feature == before.peer.load_control;
            let configuration = feature == before.peer.device_configuration;
            &&& member.peer == before.peer && member.required == before.required
            &&& electrical ==> sent == engine && (maximum matches Some(nominal_max)
                ==> member.nominal_max == Some(nominal_max) && (before.nominal_max == Some(
                nominal_max,
            ) ==> event is None) && (before.nominal_max != Some(nominal_max) ==> event == Some(
                GuardEventView::ConstraintsLearned { device, nominal_max },
            )))
            &&& electrical && maximum is None ==> after == guard && event is None
            &&& !electrical && data is DeviceDiagnosisHeartbeatData ==> member.monitor.heard_at
                == Some(now) && !member.monitor.lost
            &&& !electrical && !limit && !configuration && !(data is DeviceDiagnosisHeartbeatData)
                ==> after == guard && sent == engine && event is None
            &&& !electrical && (limit || configuration) && !(data is DeviceDiagnosisHeartbeatData)
                ==> member.ids == before.ids.learned(data, guard.direction)
            &&& !electrical && limit && data is LoadControlLimitListData ==> (after, sent)
                == guard.observing(engine, index, data, now) && event is None
            &&& !electrical && limit && data is LoadControlLimitDescriptionListData
                && !before.reported_no_limit && member.ids.limit is None ==> event == Some(
                GuardEventView::NoLimitPublished { device },
            ) && member.reported_no_limit
        }),
{
    lemma_first_index(guard.peers, |member: MemberView| member.peer.has(feature));
    if data is LoadControlLimitListData {
        assert(guard.with_peer(index, guard.peers[index]).peers =~= guard.peers);
    }
    if data is DeviceDiagnosisHeartbeatData {
        assert(guard.with_peer(index, guard.peers[index]).peers =~= guard.peers);
    }
}

/// Data of a feature that belongs to no peer changes nothing.
pub proof fn law_strangers_are_not_heard(
    guard: GuardView,
    engine: EngineView,
    feature: FeatureAddressView,
    data: Payload,
    now: Duration,
)
    requires
        forall|i: int| 0 <= i < guard.peers.len() ==> !(#[trigger] guard.peers[i]).peer.has(feature),
    ensures
        guard.informed(engine, feature, data, now) == (guard, engine, None::<GuardEventView>),
{
    lemma_no_first_index(guard.peers, |member: MemberView| member.peer.has(feature));
}

/// A peer's features are the four it was found with.
pub proof fn law_a_peer_has_its_features(peer: CsPeerView, feature: FeatureAddressView)
    ensures
        peer.has(feature) <==> peer.load_control == feature || peer.device_configuration == feature
            || peer.device_diagnosis == Some(feature) || peer.electrical_connection == Some(
            feature,
        ),
{
}

/// Each event has its effect, and only the events that are named have one.
pub proof fn law_events_have_their_effect(
    guard: GuardView,
    engine: EngineView,
    event: SpineEvent,
    now: Duration,
)
    ensures
        ({
            let (after, sent, report) = guard.stepped(engine, event, now);
            &&& event matches SpineEvent::DiscoveryUpdated { device } ==> (after, sent)
                == guard.discovering(engine, device@, now) && report is None
            &&& event matches SpineEvent::UseCasesUpdated { device } ==> (after, sent)
                == guard.discovering(engine, device@, now) && report is None
            &&& event matches SpineEvent::DataNotified { feature, resolved } ==> (
                after,
                sent,
                report,
            ) == guard.informed(engine, feature@, resolved@, now)
            &&& event matches SpineEvent::ReplyReceived { feature, resolved } ==> (
                after,
                sent,
                report,
            ) == guard.informed(engine, feature@, resolved@, now)
            &&& event matches SpineEvent::SubscriptionGranted { client, server } ==> (after, sent)
                == guard.watched(engine, client@, server@, now) && report is None
            &&& event matches SpineEvent::ResultReceived { request, error } ==> (
                after,
                sent,
                report,
            ) == guard.resolved(engine, request, error, now)
            &&& event matches SpineEvent::RequestTimedOut { request } ==> (after, report)
                == guard.given_up(request, now) && sent == engine
            &&& !(event is DiscoveryUpdated) && !(event is UseCasesUpdated) && !(
            event is DataNotified) && !(event is ReplyReceived) && !(event is SubscriptionGranted)
                && !(event is ResultReceived) && !(event is RequestTimedOut) ==> after == guard
                && sent == engine && report is None
        }),
{
}

/// A granted binding is noted for the peer that asked, and readiness is looked at; a refused one
/// only ends the waiting.
pub proof fn law_answers_to_bindings_are_noted(
    guard: GuardView,
    engine: EngineView,
    index: int,
    place: int,
    request: MsgCounter,
    error: ErrorNumber,
    now: Duration,
)
    requires
        first_index(
            guard.peers,
            |member: MemberView| super::guard_model::waits(member.pending_bindings, request),
        ) == Some(index),
        first_index(
            guard.peers[index].pending_bindings,
            super::guard_model::for_request(request),
        ) == Some(place),
    ensures
        ({
            let before = guard.peers[index];
            let (after, sent, event) = guard.resolved(engine, request, error, now);
            let member = after.peers[index];
            let feature = before.pending_bindings[place].1;
            let granted = error == ErrorNumber::NoError;
            &&& member.pending_bindings == before.pending_bindings.remove(place)
            &&& granted && feature == before.peer.load_control ==> member.bound_load_control
            &&& granted && feature == before.peer.device_configuration && feature
                != before.peer.load_control ==> member.bound_configuration
            &&& !granted ==> member.bound_load_control == before.bound_load_control
                && member.bound_configuration == before.bound_configuration
            &&& after.audit == guard.audit
            &&& event is Some ==> event == Some(
                GuardEventView::Ready { device: before.peer.device },
            ) && member.ready()
            &&& member.ready() ==> member.ready_reported
        }),
{
    lemma_first_index(
        guard.peers,
        |member: MemberView| super::guard_model::waits(member.pending_bindings, request),
    );
    lemma_first_index(
        guard.peers[index].pending_bindings,
        super::guard_model::for_request(request),
    );
}

/// An answer to a request that nobody waits for changes nothing, and neither does its absence.
pub proof fn law_unknown_answers_change_nothing(
    guard: GuardView,
    engine: EngineView,
    request: MsgCounter,
    error: ErrorNumber,
    now: Duration,
)
    requires
        forall|i: int| 0 <= i < guard.peers.len() ==> !(#[trigger] guard.peers[i]).owes(request),
    ensures
        guard.resolved(engine, request, error, now) == (guard, engine, None::<GuardEventView>),
        guard.given_up(request, now) == (guard, None::<GuardEventView>),
{
    lemma_no_first_index(
        guard.peers,
        |member: MemberView| super::guard_model::waits(member.pending_bindings, request),
    );
    lemma_no_first_index(
        guard.peers,
        |member: MemberView| member.outstanding matches Some((counter, _)) && counter == request,
    );
    lemma_no_first_index(guard.peers, |member: MemberView| member.owes(request));
}

/// A subscription to anything but the guard's own heartbeat, or by a device that is not under
/// control, changes nothing.
pub proof fn law_other_subscriptions_change_nothing(
    guard: GuardView,
    engine: EngineView,
    client: FeatureAddressView,
    server: FeatureAddressView,
    now: Duration,
)
    requires
        server != guard.diagnosis || client.device is None || (client.device matches Some(device)
            && guard.place(device) is None),
    ensures
        guard.watched(engine, client, server, now) == (guard, engine),
{
}

/// The opening write starts no interval; every later one does.
pub proof fn law_writes_are_dated(member: MemberView, counter: MsgCounter, now: Duration)
    ensures
        member.opening_write_sent ==> member.written(counter, now).last_write == Some(now),
        !member.opening_write_sent ==> member.written(counter, now).last_write is None,
        member.written(counter, now) == (MemberView {
            outstanding: Some((counter, member.to_write())),
            last_write: member.written(counter, now).last_write,
            retry_at: None,
            write_due_at: None,
            opening_write_sent: true,
            unsettled: false,
            ..member
        }),
{
}

/// A refusal or a silence before anything was ever accepted leaves the opening write owed, until
/// the peer is seen to hold what it should.
pub proof fn law_the_opening_stays_owed(member: MemberView, limit: LimitWrite, now: Duration)
    ensures
        !member.opened ==> member.refused(now).wants_write() && member.unanswered(
            now,
        ).wants_write(),
        member.opened ==> !member.refused(now).unsettled && !member.unanswered(now).unsettled,
        member.required == Some(limit) && limit.watts is Finite ==> !member.reporting(
            limit,
        ).unsettled,
        member.reporting(limit).required == member.required,
        member.applied is None ==> member.reporting(limit).applied == Some(limit),
{
}

/// A system is found on a device that announces it, with the features of the announcing entity: the
/// limit and the configuration, which it has to have, and the heartbeat and the electrical data
/// where it has them.
pub proof fn law_systems_are_found_with_their_features(
    remote: crate::spine::RemoteDeviceView,
    direction: Direction,
)
    ensures
        ({
            let found = super::guard_model::located(remote, direction);
            match remote.use_case(direction.name(), "ControllableSystem"@) {
                None => found is None,
                Some(use_case) => {
                    let feature = |kind: FeatureType|
                        remote.address_of(use_case, kind, Role::Server);
                    &&& found is Some <==> remote.address is Some && feature(
                        FeatureType::LoadControl,
                    ) is Some && feature(FeatureType::DeviceConfiguration) is Some
                    &&& found matches Some(peer) ==> remote.address == Some(peer.device)
                        && feature(FeatureType::LoadControl) == Some(peer.load_control) && feature(
                        FeatureType::DeviceConfiguration,
                    ) == Some(peer.device_configuration) && feature(FeatureType::DeviceDiagnosis)
                        == peer.device_diagnosis && feature(FeatureType::ElectricalConnection)
                        == peer.electrical_connection
                },
            }
        }),
{
}

/// A guard starts with nobody under control and nothing required, and its first heartbeat is due.
pub proof fn law_a_guard_starts_empty(
    direction: Direction,
    client: FeatureAddressView,
    diagnosis: FeatureAddressView,
    now: Duration,
)
    ensures
        ({
            let guard = GuardView::started(direction, client, diagnosis, now);
            &&& guard.peers.len() == 0 && guard.deferred.len() == 0
            &&& guard.audit.records.len() == 0 && guard.audit.dropped == 0
            &&& guard.heartbeat.next == now && guard.heartbeat.counter == 0
            &&& guard.direction == direction && guard.client == client && guard.diagnosis
                == diagnosis
        }),
{
}

/// A device is found under its own address wherever it is under control, and detaching it forgets
/// no other.
pub proof fn law_devices_are_found_under_their_address(
    guard: GuardView,
    device: Seq<char>,
    index: int,
)
    ensures
        guard.member(device) matches Some(member) ==> member.peer.device == device
            && guard.peers.contains(member),
        guard.place(device) matches Some(place) ==> 0 <= place < guard.peers.len() && guard.member(
            device,
        ) == Some(guard.peers[place]),
        0 <= index < guard.peers.len() && guard.peers[index].peer.device == device ==> guard.member(
            device,
        ) is Some,
        0 <= index < guard.peers.len() && guard.peers[index].peer.device != device
            ==> guard.detached(device).peers.contains(guard.peers[index]),
{
    let wanted = |member: MemberView| member.peer.device == device;
    let others = |member: MemberView| member.peer.device != device;
    lemma_first_index(guard.peers, wanted);
    if let Some(i) = first_index(guard.peers, wanted) {
        assert(wanted(guard.peers[i]));
    } else if 0 <= index < guard.peers.len() {
        assert(!wanted(guard.peers[index]));
    }
    if 0 <= index < guard.peers.len() && guard.peers[index].peer.device != device {
        broadcast use vstd::seq_lib::group_filter_ensures;

        assert(others(guard.peers[index]));
        assert(guard.peers.filter(others).contains(guard.peers[index]));
    }
}

} // verus!
