//! What holds of the Energy Guard as a whole, and of the two actors together.

use super::guard_model::{
    limit_payload_view, normalised, normalised_option, CsPeerView, GuardView, MemberView,
    HEARTBEAT_FRESHNESS, MIN_WRITE_INTERVAL, RETRY_BACKOFF_STEP,
};
use super::payloads::limit_write_of;
use super::state::{CsView, LimitWrite, LocalDecision, WriteOutcome, WRITE_WINDOW};
use crate::model::{
    nearest_multiple, LoadControlLimitData, LoadControlLimitId, MsgCounter, ScaledNumber,
};
use crate::number::Number;
use crate::seqs::{
    first_index, lemma_filtered, lemma_first_index_is, lemma_no_first_index,
};
use crate::spine::{EngineView, SpineEvent, HEARTBEAT_PERIOD};
use crate::time::{after, elapsed, Duration};
use vstd::prelude::*;

verus! {

/// A limit that may be sent is not below zero, has no duration of zero where it is activated, and
/// is not changed by being made sendable again.
pub proof fn law_normalised_limits_may_be_sent(limit: LimitWrite)
    ensures
        !normalised(limit).watts.negative(),
        normalised(limit).is_active ==> !(normalised(limit).duration matches Some(duration)
            && duration.nanos == 0),
        normalised(limit).is_active == limit.is_active,
        normalised(normalised(limit)) == normalised(limit),
{
}

/// Whole watts are written as they are.
pub proof fn lemma_whole_watts(watts: int)
    ensures
        nearest_multiple(watts * 1000, 1000) == watts * 1000,
{
    if watts >= 0 {
        assert((2 * (watts * 1000) + 1000) / 2000 == watts) by (nonlinear_arith)
            requires
                watts >= 0,
        ;
    } else {
        assert((2 * -(watts * 1000) + 1000) / 2000 == -watts) by (nonlinear_arith)
            requires
                watts < 0,
        ;
    }
}

/// A limit that a guard writes is read by the system as what it is, to the watt.
pub proof fn law_written_limit_is_read_back(limit: LimitWrite, limit_id: LoadControlLimitId)
    ensures
        limit_write_of(limit_payload_view(limit, limit_id), limit_id) == match
            ScaledNumber::encoded(limit.watts, 0).decoded() {
            Some(watts) => Some(LimitWrite { watts, ..limit }),
            None => None,
        },
{
    let entries = limit_payload_view(limit, limit_id)->LoadControlLimitListData_0->Some_0;
    lemma_first_index_is(
        entries,
        |entry: LoadControlLimitData| entry.limit_id == Some(limit_id),
        0,
    );
}

/// A limit of whole watts is read exactly as it was written.
pub proof fn law_whole_watts_are_read_back_exactly(
    limit: LimitWrite,
    limit_id: LoadControlLimitId,
    watts: int,
)
    requires
        i64::MIN <= watts * 1000 <= i64::MAX,
        limit.watts == Number::Finite((watts * 1000) as i64),
    ensures
        limit_write_of(limit_payload_view(limit, limit_id), limit_id) == Some(limit),
{
    law_written_limit_is_read_back(limit, limit_id);
    lemma_whole_watts(watts);
}

/// A system that heard the guard's heartbeat within the write window accepts every finite limit
/// that the guard may send, whatever state it is in, if it can follow it.
pub proof fn law_heard_guard_is_obeyed(
    system: CsView,
    heard: Duration,
    limit: LimitWrite,
    now: Duration,
)
    requires
        limit.watts.finite(),
        elapsed(now, heard) < WRITE_WINDOW,
    ensures
        system.heard(heard).limit_written(normalised(limit), LocalDecision::Apply, now).1
            == WriteOutcome::Accepted,
{
}

/// What holds a write back sends nothing.
pub proof fn law_held_back_sends_nothing(
    guard: GuardView,
    engine: EngineView,
    index: int,
    now: Duration,
)
    requires
        0 <= index < guard.peers.len(),
    ensures
        guard.peers[index].held_back(now) is Some <==> guard.writing(engine, index, now).1
            == engine,
        guard.peers[index].outstanding is Some ==> guard.writing(engine, index, now).1 == engine,
        !guard.peers[index].ready() ==> guard.writing(engine, index, now).1 == engine,
{
    let member = guard.peers[index];
    if member.held_back(now) is None {
        let (after, sent) = guard.writing(engine, index, now);
        assert(sent.outbox.len() > engine.outbox.len());
    }
}

/// The heartbeat goes first, and then the limit: behind a limit stands a heartbeat that the peer
/// was sent within the last half of its window, or one that was queued just before.
pub proof fn law_heartbeat_goes_first(
    guard: GuardView,
    engine: EngineView,
    index: int,
    now: Duration,
)
    requires
        0 <= index < guard.peers.len(),
        guard.peers[index].held_back(now) is None,
    ensures
        ({
            let sent = guard.writing(engine, index, now).1.outbox;
            let before = engine.outbox.len() as int;
            &&& sent.last().1 is Write
            &&& sent.take(before) == engine.outbox
            &&& {
                ||| guard.peers[index].beat_seen_at matches Some(at) && elapsed(now, at)
                    < HEARTBEAT_FRESHNESS && sent.len() == before + 1
                ||| sent.len() == before + 2 && sent[before].1 is Beat
            }
        }),
{
    let sent = guard.writing(engine, index, now).1.outbox;
    assert(sent.take(engine.outbox.len() as int) =~= engine.outbox);
}

/// Limits are not written more often than the interval allows: a write follows the last one by
/// five minutes, or repeats a refused one once its backoff is over.
pub proof fn law_writes_are_spaced(
    guard: GuardView,
    engine: EngineView,
    index: int,
    now: Duration,
)
    requires
        0 <= index < guard.peers.len(),
        guard.writing(engine, index, now).1 != engine,
    ensures
        match guard.peers[index].retry_at {
            Some(retry_at) => retry_at.nanos <= now.nanos,
            None => guard.peers[index].last_write matches Some(last) ==> elapsed(now, last)
                >= MIN_WRITE_INTERVAL,
        },
{
    law_held_back_sends_nothing(guard, engine, index, now);
}

/// After the opening write a requirement need not wait: the opening write does not start the
/// interval, every later one does.
pub proof fn law_opening_write_starts_no_interval(
    member: MemberView,
    counter: MsgCounter,
    now: Duration,
)
    ensures
        member.written(counter, now).last_write == if member.opening_write_sent {
            Some(now)
        } else {
            None
        },
        member.written(counter, now).opening_write_sent,
{
}

/// The peer after so many refusals in a row, each at its instant.
pub open spec fn refused_at(member: MemberView, instants: Seq<Duration>) -> MemberView
    decreases instants.len(),
{
    if instants.len() == 0 {
        member
    } else {
        refused_at(member, instants.drop_last()).refused(instants.last())
    }
}

/// The n-th refusal in a row puts the write off by n minutes.
pub proof fn law_backoff_grows_by_a_minute(member: MemberView, instants: Seq<Duration>)
    requires
        member.refusals == 0,
        0 < instants.len() <= u32::MAX,
    ensures
        refused_at(member, instants).refusals == instants.len(),
        refused_at(member, instants).retry_at == Some(
            after(instants.last(), RETRY_BACKOFF_STEP * instants.len()),
        ),
        refused_at(member, instants).write_due_at == refused_at(member, instants).retry_at,
    decreases instants.len(),
{
    if instants.len() > 1 {
        law_backoff_grows_by_a_minute(member, instants.drop_last());
    } else {
        assert(refused_at(member, instants.drop_last()) == member);
    }
}

/// A refusal is no reason to give up: the opening write, and any other that the peer still needs,
/// is held back until its backoff is over and no longer.
pub proof fn law_refused_limits_are_written_again(
    member: MemberView,
    refused_at: Duration,
    now: Duration,
)
    requires
        member.ready(),
        member.can_be_heard(now),
        !member.opened || (member.wanted() is Some && !member.holds_wanted()),
    ensures
        ({
            let retry_at = member.backed_off(refused_at);
            member.refused(refused_at).held_back(now) == if now.nanos < retry_at.nanos {
                Some(Some(retry_at))
            } else {
                None
            }
        }),
{
}

/// A limit that was never answered is let go. The opening write, and any other that the peer
/// still needs, is written again as soon as the interval between writes allows, without any
/// backoff.
pub proof fn law_unanswered_limits_are_written_again(
    guard: GuardView,
    index: int,
    request: MsgCounter,
    given_up_at: Duration,
    now: Duration,
)
    requires
        first_index(guard.peers, |member: MemberView| member.owes(request)) == Some(index),
        guard.peers[index].outstanding matches Some((counter, _)) && counter == request,
        guard.peers[index].ready(),
        guard.peers[index].retry_at is None,
        guard.peers[index].can_be_heard(now),
        !guard.peers[index].opened || (guard.peers[index].wanted() is Some
            && !guard.peers[index].holds_wanted()),
    ensures
        ({
            let member = guard.given_up(request, given_up_at).0.peers[index];
            &&& member.write_due_at == Some(given_up_at)
            &&& member.held_back(now) == match guard.peers[index].last_write {
                Some(last) if elapsed(now, last) < MIN_WRITE_INTERVAL => Some(
                    Some(after(last, MIN_WRITE_INTERVAL as int)),
                ),
                _ => None,
            }
        }),
{
    crate::seqs::lemma_first_index(
        guard.peers,
        |member: MemberView| member.owes(request),
    );
}

/// What a peer reports is the truth about it: once it reports what is required of it, or once
/// what is required is what it holds, nothing is written, though a write was refused or never
/// answered before.
pub proof fn law_settled_limits_are_not_written_again(
    member: MemberView,
    reported: LimitWrite,
    limit: Option<LimitWrite>,
    now: Duration,
)
    requires
        member.opening_write_sent,
    ensures
        member.reporting(reported).holds_wanted() ==> member.reporting(reported).held_back(now)
            == Some(None::<Duration>),
        member.requiring(limit, now).holds_wanted() ==> member.requiring(limit, now).held_back(now)
            == Some(None::<Duration>),
        member.opened && member.holds_wanted() ==> {
            &&& member.refused(now).held_back(now) == Some(None::<Duration>)
            &&& member.unanswered(now).held_back(now) == Some(None::<Duration>)
        },
{
}

proof fn lemma_detaching_holds(guard: GuardView, device: Seq<char>, limit: LimitWrite)
    requires
        guard.member(device) matches Some(member) && member.required == Some(limit),
    ensures
        guard.detached(device).place(device) is None,
        guard.detached(device).held_for(device) matches Some(index)
            && guard.detached(device).deferred[index].1 == Some(limit),
{
    let after = guard.detached(device);
    let others = |member: MemberView| member.peer.device != device;
    let same = |member: MemberView| member.peer.device == device;
    lemma_filtered(guard.peers, others);
    assert forall|i: int| 0 <= i < after.peers.len() implies !same(#[trigger] after.peers[i]) by {
        assert(others(guard.peers.filter(others)[i]));
    }
    lemma_no_first_index(after.peers, same);
    lemma_held(guard, device, Some(limit));
}

/// A requirement that is held for a device is found again.
proof fn lemma_held(guard: GuardView, device: Seq<char>, limit: Option<LimitWrite>)
    ensures
        guard.deferring(device, limit).held_for(device) == Some(
            guard.deferred_but(device).len() as int,
        ),
        guard.deferring(device, limit).deferred.last() == (device, limit),
{
    let held = guard.deferring(device, limit);
    let wanted = super::guard_model::for_device(device);
    let others = super::guard_model::for_other_devices(device);
    lemma_filtered(guard.deferred, others);
    let kept = guard.deferred_but(device);
    assert forall|i: int| 0 <= i < kept.len() implies !wanted(#[trigger] held.deferred[i]) by {
        assert(others(guard.deferred.filter(others)[i]));
        assert(held.deferred[i] == kept[i]);
    }
    lemma_first_index_is(held.deferred, wanted, held.deferred.len() - 1);
}

/// A reconnection does not lift a limit: what was required of a peer before it is attached again
/// is what its opening write carries, whether or not it was detached in between.
pub proof fn law_reconnection_keeps_the_requirement(
    guard: GuardView,
    engine: EngineView,
    peer: CsPeerView,
    limit: LimitWrite,
    now: Duration,
)
    requires
        sendable(guard),
        guard.member(peer.device) matches Some(member) && member.required == Some(limit),
    ensures
        guard.attached(engine, peer, now).0.member(peer.device) matches Some(member)
            && member.required == Some(limit) && member.to_write() == limit
            && !member.opening_write_sent && member.wants_write() && member.write_due_at == Some(
            now,
        ),
        guard.detached(peer.device).attached(engine, peer, now) == guard.attached(
            engine,
            peer,
            now,
        ),
{
    crate::seqs::lemma_first_index(
        guard.peers,
        |member: MemberView| member.peer.device == peer.device,
    );
    lemma_attached_place(guard, engine, peer, now);
    lemma_detaching_holds(guard, peer.device, limit);
    let detached = guard.detached(peer.device);
    let others = |member: MemberView| member.peer.device != peer.device;
    lemma_filtered(guard.peers, others);
    assert(detached.peers.filter(others) =~= detached.peers) by {
        crate::seqs::lemma_filter_keeps_all(detached.peers, others);
    }
    assert(detached.detached(peer.device).peers =~= detached.peers);
    assert(detached.detached(peer.device) == detached);
}

proof fn lemma_sweeping_only_appends(
    guard: GuardView,
    engine: EngineView,
    count: nat,
    now: Duration,
)
    requires
        count <= guard.peers.len(),
    ensures
        guard.swept(engine, count, now).0.peers.len() == guard.peers.len(),
        engine.outbox.len() <= guard.swept(engine, count, now).1.outbox.len(),
        guard.swept(engine, count, now).1.outbox.take(engine.outbox.len() as int)
            =~= engine.outbox,
    decreases count,
{
    if count > 0 {
        lemma_sweeping_only_appends(guard, engine, (count - 1) as nat, now);
        let sent = guard.swept(engine, (count - 1) as nat, now).1;
        let after = guard.swept(engine, count, now).1;
        assert(after.outbox.take(sent.outbox.len() as int) =~= sent.outbox);
        assert(after.outbox.take(engine.outbox.len() as int) =~= sent.outbox.take(
            engine.outbox.len() as int,
        ));
    }
}

/// The guard keeps beating, whatever its peers do: a heartbeat that is due goes out, and before
/// anything else.
pub proof fn law_a_due_heartbeat_goes_out(guard: GuardView, engine: EngineView, now: Duration)
    requires
        guard.heartbeat.due(now),
    ensures
        ({
            let sent = guard.ticked(engine, now).1;
            &&& engine.outbox.len() < sent.outbox.len()
            &&& sent.outbox[engine.outbox.len() as int] == (
                now,
                guard.heartbeat.beat(guard.diagnosis),
            )
        }),
{
    let (beaten, sent) = guard.beating(engine, now);
    lemma_sweeping_only_appends(beaten, sent, guard.peers.len(), now);
    let after = guard.ticked(engine, now).1;
    assert(after.outbox.take(sent.outbox.len() as int)[engine.outbox.len() as int]
        == sent.outbox[engine.outbox.len() as int]);
}

/// No deadline of this peer is in the past.
pub open spec fn waits_for_later(member: MemberView, now: Duration) -> bool {
    member.write_due_at matches Some(at) ==> now.nanos < at.nanos
}

proof fn lemma_writing_moves_deadlines(
    guard: GuardView,
    engine: EngineView,
    index: int,
    now: Duration,
)
    requires
        0 <= index < guard.peers.len(),
        now.nanos + HEARTBEAT_PERIOD < u128::MAX,
        now.nanos < guard.heartbeat.next.nanos,
        forall|i: int| 0 <= i < index ==> waits_for_later(#[trigger] guard.peers[i], now),
    ensures
        ({
            let after = guard.writing(engine, index, now).0;
            &&& after.peers.len() == guard.peers.len()
            &&& now.nanos < after.heartbeat.next.nanos
            &&& forall|i: int| 0 <= i <= index ==> waits_for_later(#[trigger] after.peers[i], now)
        }),
{
    let after = guard.writing(engine, index, now).0;
    assert forall|i: int| 0 <= i <= index implies waits_for_later(
        #[trigger] after.peers[i],
        now,
    ) by {
        if i < index {
            assert(waits_for_later(guard.peers[i], now));
        }
    }
}

proof fn lemma_sweeping_moves_deadlines(
    guard: GuardView,
    engine: EngineView,
    count: nat,
    now: Duration,
)
    requires
        count <= guard.peers.len(),
        now.nanos + HEARTBEAT_PERIOD < u128::MAX,
        now.nanos < guard.heartbeat.next.nanos,
    ensures
        ({
            let after = guard.swept(engine, count, now).0;
            &&& after.peers.len() == guard.peers.len()
            &&& now.nanos < after.heartbeat.next.nanos
            &&& forall|i: int| 0 <= i < count ==> waits_for_later(#[trigger] after.peers[i], now)
        }),
    decreases count,
{
    if count > 0 {
        lemma_sweeping_moves_deadlines(guard, engine, (count - 1) as nat, now);
        let (before, sent, events) = guard.swept(engine, (count - 1) as nat, now);
        let index = count - 1;
        let member = before.peers[index];
        let looked = before.with_peer(
            index,
            MemberView {
                monitor: crate::spine::HeartbeatMonitor {
                    lost: member.monitor.lost || member.monitor.overdue(now),
                    ..member.monitor
                },
                ..member
            },
        );
        assert forall|i: int| 0 <= i < index implies waits_for_later(
            #[trigger] looked.peers[i],
            now,
        ) by {
            assert(waits_for_later(before.peers[i], now));
        }
        lemma_writing_moves_deadlines(looked, sent, index, now);
    }
}

proof fn lemma_deadline_is_later(guard: GuardView, count: nat, now: Duration)
    requires
        count <= guard.peers.len(),
        now.nanos < guard.heartbeat.next.nanos,
        forall|i: int| 0 <= i < count ==> waits_for_later(#[trigger] guard.peers[i], now),
    ensures
        now.nanos < guard.deadline(count).nanos,
    decreases count,
{
    if count > 0 {
        lemma_deadline_is_later(guard, (count - 1) as nat, now);
        assert(waits_for_later(guard.peers[count - 1], now));
    }
}

/// Every deadline advances: once the timers are brought up to `now`, the next deadline lies after
/// `now`, so that sleeping until it never spins. (The clock must not be about to run out.)
pub proof fn law_every_deadline_advances(guard: GuardView, engine: EngineView, now: Duration)
    requires
        now.nanos + HEARTBEAT_PERIOD < u128::MAX,
    ensures
        ({
            let after = guard.ticked(engine, now).0;
            now.nanos < after.deadline(after.peers.len()).nanos
        }),
{
    let (ready, sent) = if guard.heartbeat.due(now) {
        guard.beating(engine, now)
    } else {
        (guard, engine)
    };
    lemma_sweeping_moves_deadlines(ready, sent, guard.peers.len(), now);
    let after = guard.ticked(engine, now).0;
    lemma_deadline_is_later(after, after.peers.len(), now);
}

proof fn lemma_attached_place(guard: GuardView, engine: EngineView, peer: CsPeerView, now: Duration)
    ensures
        ({
            let after = guard.attached(engine, peer, now).0;
            &&& after.peers.len() > 0
            &&& after.peers.last().peer == peer
            &&& after.place(peer.device) == Some(after.peers.len() - 1)
        }),
{
    let after = guard.attached(engine, peer, now).0;
    let wanted = |member: MemberView| member.peer.device == peer.device;
    let others = |member: MemberView| member.peer.device != peer.device;
    lemma_filtered(guard.peers, others);
    let kept = guard.peers_but(peer.device);
    assert forall|i: int| 0 <= i < kept.len() implies !wanted(#[trigger] after.peers[i]) by {
        assert(others(guard.peers.filter(others)[i]));
        assert(after.peers[i] == kept[i]);
    }
    lemma_first_index_is(after.peers, wanted, after.peers.len() - 1);
}

/// The order of requiring and attaching does not matter: a requirement for a device that is not
/// under control yet is in force, and due, the moment it is, just as if it were set then.
pub proof fn law_requirement_survives_until_attached(
    guard: GuardView,
    engine: EngineView,
    peer: CsPeerView,
    limit: Option<LimitWrite>,
    earlier: Duration,
    now: Duration,
)
    requires
        guard.place(peer.device) is None,
    ensures
        ({
            let first = guard.requiring(peer.device, limit, earlier).attached(
                engine,
                peer,
                now,
            ).0;
            let later = guard.attached(engine, peer, now).0.requiring(peer.device, limit, now);
            &&& first.member(peer.device) == later.member(peer.device)
            &&& first.member(peer.device) matches Some(member)
                && member.required == normalised_option(limit) && member.write_due_at == Some(now)
        }),
{
    let held = guard.requiring(peer.device, limit, earlier);
    lemma_held(guard, peer.device, limit);
    crate::seqs::lemma_first_index(
        guard.peers,
        |member: MemberView| member.peer.device == peer.device,
    );
    lemma_attached_place(held, engine, peer, now);
    lemma_attached_place(guard, engine, peer, now);
    let attached = guard.attached(engine, peer, now).0;
    let index = attached.peers.len() - 1;
    let later = attached.requiring(peer.device, limit, now);
    let by_device = |member: MemberView| member.peer.device == peer.device;
    crate::seqs::lemma_first_index(attached.peers, by_device);
    assert forall|i: int| 0 <= i < index implies !by_device(#[trigger] later.peers[i]) by {
        assert(!by_device(attached.peers[i]));
    }
    lemma_first_index_is(later.peers, by_device, index);
}

/// Every requirement that the guard works on may be sent.
pub open spec fn sendable(guard: GuardView) -> bool {
    forall|i: int|
        0 <= i < guard.peers.len() ==> (#[trigger] guard.peers[i]).required == normalised_option(
            guard.peers[i].required,
        )
}

proof fn lemma_writing_keeps_requirements(
    guard: GuardView,
    engine: EngineView,
    index: int,
    now: Duration,
)
    requires
        0 <= index < guard.peers.len(),
    ensures
        guard.writing(engine, index, now).0.peers.len() == guard.peers.len(),
        forall|i: int|
            0 <= i < guard.peers.len() ==> (#[trigger] guard.writing(
                engine,
                index,
                now,
            ).0.peers[i]).required == guard.peers[i].required,
{
}

proof fn lemma_sweeping_keeps_requirements(
    guard: GuardView,
    engine: EngineView,
    count: nat,
    now: Duration,
)
    requires
        count <= guard.peers.len(),
    ensures
        guard.swept(engine, count, now).0.peers.len() == guard.peers.len(),
        forall|i: int|
            0 <= i < guard.peers.len() ==> (#[trigger] guard.swept(
                engine,
                count,
                now,
            ).0.peers[i]).required == guard.peers[i].required,
    decreases count,
{
    if count > 0 {
        lemma_sweeping_keeps_requirements(guard, engine, (count - 1) as nat, now);
        let (before, sent, events) = guard.swept(engine, (count - 1) as nat, now);
        let index = count - 1;
        let member = before.peers[index];
        let looked = before.with_peer(
            index,
            MemberView {
                monitor: crate::spine::HeartbeatMonitor {
                    lost: member.monitor.lost || member.monitor.overdue(now),
                    ..member.monitor
                },
                ..member
            },
        );
        lemma_writing_keeps_requirements(looked, sent, index, now);
    }
}

/// Whatever happens, an activated limit is never sent with a duration of zero, nor any limit
/// below zero: what the guard works on may be sent, in every state it can get into.
pub proof fn law_only_sendable_limits_are_worked_on(
    guard: GuardView,
    engine: EngineView,
    event: SpineEvent,
    device: Seq<char>,
    limit: Option<LimitWrite>,
    peer: CsPeerView,
    now: Duration,
)
    requires
        sendable(guard),
    ensures
        sendable(guard.requiring(device, limit, now)),
        sendable(guard.requiring_all(limit, now)),
        sendable(guard.detached(device)),
        sendable(guard.attached(engine, peer, now).0),
        sendable(guard.ticked(engine, now).0),
        sendable(guard.stepped(engine, event, now).0),
        forall|i: int|
            0 <= i < guard.peers.len() ==> !(#[trigger] guard.peers[i]).to_write().watts.negative()
                && (guard.peers[i].to_write().is_active ==> !(
            guard.peers[i].to_write().duration matches Some(duration) && duration.nanos == 0)),
{
    crate::seqs::lemma_first_index(
        guard.peers,
        |member: MemberView| member.peer.device == device,
    );
    lemma_dropping_keeps_sendable(guard, device);
    lemma_attaching_keeps_sendable(guard, engine, peer, now);
    let (ready, sent) = if guard.heartbeat.due(now) {
        guard.beating(engine, now)
    } else {
        (guard, engine)
    };
    lemma_sweeping_keeps_requirements(ready, sent, guard.peers.len(), now);
    lemma_stepping_keeps_sendable(guard, engine, event, now);
}

proof fn lemma_dropping_keeps_sendable(guard: GuardView, device: Seq<char>)
    requires
        sendable(guard),
    ensures
        sendable(guard.detached(device)),
{
    let others = |member: MemberView| member.peer.device != device;
    lemma_filtered(guard.peers, others);
    let kept = guard.peers.filter(others);
    assert forall|i: int| 0 <= i < kept.len() implies (#[trigger] kept[i]).required
        == normalised_option(kept[i].required) by {
        assert(guard.peers.contains(kept[i]));
        let k = choose|k: int| 0 <= k < guard.peers.len() && guard.peers[k] == kept[i];
        assert(guard.peers[k].required == normalised_option(guard.peers[k].required));
    }
}

proof fn lemma_attaching_keeps_sendable(
    guard: GuardView,
    engine: EngineView,
    peer: CsPeerView,
    now: Duration,
)
    requires
        sendable(guard),
    ensures
        sendable(guard.attached(engine, peer, now).0),
{
    lemma_dropping_keeps_sendable(guard, peer.device);
    let kept = guard.detached(peer.device).peers;
    let after = guard.attached(engine, peer, now).0;
    assert forall|i: int| 0 <= i < after.peers.len() implies (
    #[trigger] after.peers[i]).required == normalised_option(after.peers[i].required) by {
        if i < kept.len() {
            assert(after.peers[i] == kept[i]);
            assert(kept[i].required == normalised_option(kept[i].required));
        }
    }
}

proof fn lemma_updating_keeps_sendable(guard: GuardView, index: int, member: MemberView)
    requires
        sendable(guard),
        0 <= index < guard.peers.len(),
        member.required == guard.peers[index].required,
    ensures
        sendable(guard.with_peer(index, member)),
{
    let after = guard.with_peer(index, member);
    assert forall|i: int| 0 <= i < after.peers.len() implies (
    #[trigger] after.peers[i]).required == normalised_option(after.peers[i].required) by {
        assert(guard.peers[i].required == normalised_option(guard.peers[i].required));
    }
}

proof fn lemma_writing_keeps_sendable(
    guard: GuardView,
    engine: EngineView,
    index: int,
    now: Duration,
)
    requires
        sendable(guard),
        0 <= index < guard.peers.len(),
    ensures
        sendable(guard.writing(engine, index, now).0),
{
    lemma_writing_keeps_requirements(guard, engine, index, now);
    let after = guard.writing(engine, index, now).0;
    assert forall|i: int| 0 <= i < after.peers.len() implies (
    #[trigger] after.peers[i]).required == normalised_option(after.peers[i].required) by {
        assert(guard.peers[i].required == normalised_option(guard.peers[i].required));
    }
}

proof fn lemma_becoming_ready_keeps_sendable(
    guard: GuardView,
    engine: EngineView,
    index: int,
    now: Duration,
)
    requires
        sendable(guard),
        0 <= index < guard.peers.len(),
    ensures
        sendable(guard.becoming_ready(engine, index, now).0),
{
    let member = guard.peers[index];
    let reported = MemberView { ready_reported: true, ..member };
    lemma_updating_keeps_sendable(guard, index, reported);
    lemma_writing_keeps_sendable(guard.with_peer(index, reported), engine, index, now);
}

proof fn lemma_learning_keeps_sendable(
    guard: GuardView,
    engine: EngineView,
    index: int,
    feature: crate::address::FeatureAddressView,
    data: crate::model::Payload,
    now: Duration,
)
    requires
        sendable(guard),
        0 <= index < guard.peers.len(),
    ensures
        sendable(guard.learning(engine, index, feature, data, now).0),
        guard.learning(engine, index, feature, data, now).0.peers.len() == guard.peers.len(),
{
    let member = guard.peers[index];
    let told = super::payloads::PeerIds::tells(data, guard.direction);
    let taught = MemberView {
        ids: member.ids.learned(data, guard.direction),
        pending_reads: if told {
            member.pending_reads.filter(
                |entry: super::guard_model::PendingView| entry.1 != feature,
            )
        } else {
            member.pending_reads
        },
        ..member
    };
    lemma_updating_keeps_sendable(guard, index, taught);
    lemma_updating_keeps_sendable(
        guard,
        index,
        MemberView { reported_no_limit: true, ..taught },
    );
    lemma_becoming_ready_keeps_sendable(guard.with_peer(index, taught), engine, index, now);
    lemma_becoming_ready_keeps_peers(guard.with_peer(index, taught), engine, index, now);
}

proof fn lemma_observing_keeps_sendable(
    guard: GuardView,
    engine: EngineView,
    index: int,
    data: crate::model::Payload,
    now: Duration,
)
    requires
        sendable(guard),
        0 <= index < guard.peers.len(),
    ensures
        sendable(guard.observing(engine, index, data, now).0),
{
    let known = guard.peers[index];
    if let Some(id) = known.ids.limit {
        if let Some(reported) = limit_write_of(data, id) {
            let noted = known.reporting(reported);
            let due = MemberView { write_due_at: Some(now), ..noted };
            lemma_updating_keeps_sendable(guard, index, noted);
            lemma_updating_keeps_sendable(guard, index, due);
            lemma_writing_keeps_sendable(guard.with_peer(index, due), engine, index, now);
        }
    }
}

proof fn lemma_informing_keeps_sendable(
    guard: GuardView,
    engine: EngineView,
    feature: crate::address::FeatureAddressView,
    data: crate::model::Payload,
    now: Duration,
)
    requires
        sendable(guard),
    ensures
        sendable(guard.informed(engine, feature, data, now).0),
{
    let wanted = |member: MemberView| member.peer.has(feature);
    crate::seqs::lemma_first_index(guard.peers, wanted);
    if let Some(index) = first_index(guard.peers, wanted) {
        let member = guard.peers[index];
        lemma_learning_keeps_sendable(guard, engine, index, feature, data, now);
        let (learned, sent, event) = guard.learning(engine, index, feature, data, now);
        let known = learned.peers[index];
        lemma_updating_keeps_sendable(
            learned,
            index,
            MemberView { monitor: known.monitor.observed(data, now), ..known },
        );
        lemma_observing_keeps_sendable(learned, sent, index, data, now);
        if let Some(nominal_max) = super::payloads::read_max(data, guard.direction) {
            lemma_updating_keeps_sendable(
                guard,
                index,
                MemberView { nominal_max: Some(nominal_max), ..member },
            );
        }
    }
}

proof fn lemma_becoming_ready_keeps_peers(
    guard: GuardView,
    engine: EngineView,
    index: int,
    now: Duration,
)
    requires
        0 <= index < guard.peers.len(),
    ensures
        guard.becoming_ready(engine, index, now).0.peers.len() == guard.peers.len(),
{
}

proof fn lemma_resolving_keeps_sendable(
    guard: GuardView,
    engine: EngineView,
    request: MsgCounter,
    error: crate::model::ErrorNumber,
    now: Duration,
)
    requires
        sendable(guard),
    ensures
        sendable(guard.resolved(engine, request, error, now).0),
{
    let binds = |member: MemberView|
        super::guard_model::waits(member.pending_bindings, request);
    let writes = |member: MemberView|
        member.outstanding matches Some((counter, _)) && counter == request;
    crate::seqs::lemma_first_index(guard.peers, binds);
    crate::seqs::lemma_first_index(guard.peers, writes);
    if let Some(index) = first_index(guard.peers, binds) {
        let member = guard.peers[index];
        let place = first_index(
            member.pending_bindings,
            super::guard_model::for_request(request),
        )->0;
        let answered = member.binding_answered(place, error is NoError);
        lemma_updating_keeps_sendable(guard, index, answered);
        lemma_becoming_ready_keeps_sendable(
            guard.with_peer(index, answered),
            engine,
            index,
            now,
        );
    } else if let Some(index) = first_index(guard.peers, writes) {
        let member = guard.peers[index];
        let limit = (member.outstanding->0).1;
        lemma_updating_keeps_sendable(guard, index, member.accepted(limit));
        lemma_updating_keeps_sendable(guard, index, member.refused(now));
    }
}

proof fn lemma_stepping_keeps_sendable(
    guard: GuardView,
    engine: EngineView,
    event: SpineEvent,
    now: Duration,
)
    requires
        sendable(guard),
    ensures
        sendable(guard.stepped(engine, event, now).0),
{
    match event {
        SpineEvent::DiscoveryUpdated { device } => {
            if let Some(remote) = engine.peer(device@) {
                if let Some(peer) = super::guard_model::located(remote, guard.direction) {
                    lemma_attaching_keeps_sendable(guard, engine, peer, now);
                }
            }
        },
        SpineEvent::UseCasesUpdated { device } => {
            if let Some(remote) = engine.peer(device@) {
                if let Some(peer) = super::guard_model::located(remote, guard.direction) {
                    lemma_attaching_keeps_sendable(guard, engine, peer, now);
                }
            }
        },
        SpineEvent::DataNotified { feature, resolved } => {
            lemma_informing_keeps_sendable(guard, engine, feature@, resolved@, now);
        },
        SpineEvent::ReplyReceived { feature, resolved } => {
            lemma_informing_keeps_sendable(guard, engine, feature@, resolved@, now);
        },
        SpineEvent::SubscriptionGranted { client, server } => {
            if let Some(device) = client@.device {
                let wanted = |member: MemberView| member.peer.device == device;
                crate::seqs::lemma_first_index(guard.peers, wanted);
                if let Some(index) = guard.place(device) {
                    let member = MemberView {
                        watches_heartbeat: true,
                        ..guard.peers[index]
                    };
                    lemma_updating_keeps_sendable(guard, index, member);
                    lemma_writing_keeps_sendable(
                        guard.with_peer(index, member),
                        engine,
                        index,
                        now,
                    );
                }
            }
        },
        SpineEvent::ResultReceived { request, error } => {
            lemma_resolving_keeps_sendable(guard, engine, request, error, now);
        },
        SpineEvent::RequestTimedOut { request } => {
            let wanted = |member: MemberView| member.owes(request);
            crate::seqs::lemma_first_index(guard.peers, wanted);
            if let Some(index) = first_index(guard.peers, wanted) {
                let member = guard.peers[index];
                let after = guard.given_up(request, now).0.peers[index];
                lemma_updating_keeps_sendable(guard, index, after);
                assert(guard.given_up(request, now).0.peers =~= guard.with_peer(
                    index,
                    after,
                ).peers);
            }
        },
        _ => {},
    }
}

} // verus!
