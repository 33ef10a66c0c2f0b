//! What holds of numbers, instants and requests, wherever they are used.

use crate::address::{management, FeatureAddressView};
use crate::model::{
    nearest_multiple, AbsoluteOrRelativeTime, FeatureType, Function, MsgCounter, Payload, Role,
    ScaledNumber,
};
use crate::number::Number;
use crate::seqs::{first_index, lemma_first_index};
use crate::spine::{
    CommandView, EngineView, Filter, HeartbeatMonitor, HeartbeatProducer, RemoteDeviceView,
    RemoteEntityView, RemoteFeatureView, RemoteUseCaseView,
};
use crate::time::{after, earlier, elapsed, Duration};
use vstd::prelude::*;

verus! {

/// Values are ordered as numbers are: below what is greater, and never in order with what is not a
/// number.
pub proof fn law_values_are_ordered(x: i64, y: i64, other: Number)
    ensures
        Number::Finite(x).below(Number::Finite(y)) <==> x < y,
        Number::Finite(x).at_most(Number::Finite(y)) <==> x <= y,
        Number::Finite(x).below(Number::PositiveInfinity),
        Number::NegativeInfinity.below(Number::Finite(x)),
        !Number::NotANumber.below(other) && !other.below(Number::NotANumber),
        !Number::NotANumber.at_most(other) && !other.at_most(Number::NotANumber),
        Number::Finite(x).negative() <==> x < 0,
        Number::NegativeInfinity.negative(),
        !Number::PositiveInfinity.negative() && !Number::NotANumber.negative(),
        Number::Finite(x).finite(),
        other.finite() <==> !(other is NotANumber) && !(other is PositiveInfinity) && !(
        other is NegativeInfinity),
{
}

/// The smaller of two values is one of them, and above neither; what is not a number gives way.
pub proof fn law_the_smaller_is_below_both(a: Number, b: Number)
    ensures
        a.smaller(b) == a || a.smaller(b) == b,
        !(a is NotANumber) && !(b is NotANumber) ==> a.smaller(b).at_most(a) && a.smaller(
            b,
        ).at_most(b),
        a is NotANumber ==> a.smaller(b) == b,
        b is NotANumber ==> a.smaller(b) == a,
{
}

/// A value that is forced into a range lies in it, and is not changed if it did already.
pub proof fn law_forced_values_lie_in_range(value: i64, low: i64, high: i64)
    requires
        low <= high,
    ensures
        Number::Finite(value).clamped(Number::Finite(low), Number::Finite(high)) == Number::Finite(
            if value < low {
                low
            } else if value > high {
                high
            } else {
                value
            },
        ),
        Number::NotANumber.clamped(Number::Finite(low), Number::Finite(high)) is NotANumber,
        Number::PositiveInfinity.clamped(Number::Finite(low), Number::Finite(high))
            == Number::Finite(high),
        Number::NegativeInfinity.clamped(Number::Finite(low), Number::Finite(high))
            == Number::Finite(low),
{
}

/// How many thousandths a number on the wire is rounded to.
pub open spec fn precision(decimals: u8) -> int {
    if decimals == 0 {
        1000
    } else if decimals == 1 {
        100
    } else if decimals == 2 {
        10
    } else {
        1
    }
}

proof fn lemma_rounded(value: int, unit: int)
    requires
        unit > 0,
    ensures
        nearest_multiple(value, unit) % unit == 0,
        2 * (nearest_multiple(value, unit) - value) <= unit,
        2 * (value - nearest_multiple(value, unit)) <= unit,
        value >= 0 && 2 * (value % unit) == unit ==> nearest_multiple(value, unit) > value,
        value >= 0 ==> nearest_multiple(value, unit) >= 0,
        nearest_multiple(-value, unit) == -nearest_multiple(value, unit),
{
    let size = if value >= 0 {
        value
    } else {
        -value
    };
    let count = (2 * size + unit) / (2 * unit);
    vstd::arithmetic::div_mod::lemma_fundamental_div_mod(2 * size + unit, 2 * unit);
    let rest = (2 * size + unit) % (2 * unit);
    assert(count * unit * 2 + rest == 2 * size + unit) by (nonlinear_arith)
        requires
            2 * size + unit == (2 * unit) * count + rest,
    ;
    vstd::arithmetic::div_mod::lemma_mod_multiples_basic(count, unit);
    vstd::arithmetic::div_mod::lemma_mod_multiples_basic(-count, unit);
    assert((-count) * unit == -(count * unit)) by (nonlinear_arith);
    assert(count * unit >= 0) by (nonlinear_arith)
        requires
            count == (2 * size + unit) / (2 * unit),
            size >= 0,
            unit > 0,
    ;
    if value == 0 {
        assert(count == 0) by (nonlinear_arith)
            requires
                count == unit / (2 * unit),
                unit > 0,
        ;
    }
    if value >= 0 && 2 * (value % unit) == unit {
        vstd::arithmetic::div_mod::lemma_fundamental_div_mod(value, unit);
        let whole = value / unit;
        assert(rest == 0) by (nonlinear_arith)
            requires
                rest == (2 * size + unit) % (2 * unit),
                size == unit * whole + value % unit,
                2 * (value % unit) == unit,
                unit > 0,
        {
            assert(2 * size + unit == (2 * unit) * (whole + 1));
            assert(((2 * unit) * (whole + 1)) % (2 * unit) == 0);
        }
    }
}

/// A value goes on the wire to so many decimals: as the nearest multiple, half away from zero, and
/// unchanged where it is one already. What is not a number does not go on the wire.
pub proof fn law_values_go_on_the_wire_rounded(value: i64, decimals: u8)
    ensures
        ({
            let sent = ScaledNumber::encoded(Number::Finite(value), decimals);
            let unit = precision(decimals);
            &&& sent matches ScaledNumber::Value(rounded) ==> rounded as int % unit == 0 && 2 * (
            rounded - value) <= unit && 2 * (value - rounded) <= unit
            &&& value as int % unit == 0 ==> sent == ScaledNumber::Value(value)
            &&& i64::MIN + unit <= value <= i64::MAX - unit ==> sent is Value
            &&& value >= 0 && 2 * (value as int % unit) == unit ==> (sent matches
                ScaledNumber::Value(rounded) ==> rounded > value)
        }),
        ScaledNumber::encoded(Number::NotANumber, decimals) is Overflow,
        ScaledNumber::encoded(Number::PositiveInfinity, decimals) is Overflow,
        ScaledNumber::encoded(Number::NegativeInfinity, decimals) is Overflow,
        ScaledNumber::Value(value).decoded() == Some(Number::Finite(value)),
        ScaledNumber::Overflow.decoded() is None,
{
    let unit = precision(decimals);
    lemma_rounded(value as int, unit);
    let rounded = nearest_multiple(value as int, unit);
    if value as int % unit == 0 {
        let apart = rounded - value;
        vstd::arithmetic::div_mod::lemma_sub_mod_noop(rounded, value as int, unit);
        assert(apart % unit == 0);
        assert(apart == 0) by (nonlinear_arith)
            requires
                apart % unit == 0,
                2 * apart <= unit,
                -2 * apart <= unit,
                unit > 0,
        ;
    }
}

/// A span is what lies between two instants, and an instant is reached after it.
pub proof fn law_spans_lie_between_instants(start: Duration, end: Duration, span: int)
    requires
        0 <= span,
    ensures
        end.nanos >= start.nanos ==> elapsed(end, start) == end.nanos - start.nanos,
        end.nanos < start.nanos ==> elapsed(end, start) == 0,
        start.nanos + span <= u128::MAX ==> after(start, span).nanos == start.nanos + span,
        after(start, span).nanos >= start.nanos,
        earlier(start, end) == start || earlier(start, end) == end,
        earlier(start, end).nanos <= start.nanos && earlier(start, end).nanos <= end.nanos,
{
}

/// A point in time that is given relative to now is a span; an absolute one is not.
pub proof fn law_only_relative_times_are_spans(span: Duration, time: AbsoluteOrRelativeTime)
    ensures
        AbsoluteOrRelativeTime::Relative(span).span() == Some(span),
        time.span() is Some <==> time is Relative,
{
}

/// Every request is the last of what waits to be sent, under a number of its own; what waited
/// before still does.
pub proof fn law_requests_are_numbered(
    engine: EngineView,
    one: FeatureAddressView,
    other: FeatureAddressView,
    function: Function,
    data: Payload,
    filters: Seq<Filter>,
    now: Duration,
)
    ensures
        ({
            let counter = MsgCounter(engine.next);
            let reading = engine.reading(one, other, function, now);
            let subscribing = engine.subscribing(one, other, now);
            let binding = engine.binding(one, other, now);
            let writing = engine.writing(one, other, data, filters, now);
            let publishing = engine.publishing(one, data, true, now);
            &&& added(engine, reading, now)
            &&& reading.outbox.last().1 == (CommandView::Read {
                counter,
                to: one,
                from: other,
                function,
            })
            &&& added(engine, subscribing, now)
            &&& subscribing.outbox.last().1 == (CommandView::Subscribe {
                counter,
                client: one,
                server: other,
            })
            &&& added(engine, binding, now)
            &&& binding.outbox.last().1 == (CommandView::Bind {
                counter,
                client: one,
                server: other,
            })
            &&& added(engine, writing, now)
            &&& writing.outbox.last().1 == (CommandView::Write {
                counter,
                to: one,
                from: other,
                data,
                filters,
            })
            &&& publishing.outbox.last() == (
                now,
                CommandView::Publish { feature: one, data, notify: true },
            )
            &&& publishing.next == engine.next
            &&& engine.next < u64::MAX ==> reading.next == engine.next + 1 && subscribing.next
                == engine.next + 1 && binding.next == engine.next + 1 && writing.next == engine.next
                + 1
            &&& reading.counter() != counter && subscribing.counter() != counter
                && binding.counter() != counter && writing.counter() != counter
        }),
{
    let reading = engine.reading(one, other, function, now);
    let subscribing = engine.subscribing(one, other, now);
    let binding = engine.binding(one, other, now);
    let writing = engine.writing(one, other, data, filters, now);
    let n = engine.outbox.len() as int;
    assert(reading.outbox.take(n) =~= engine.outbox);
    assert(subscribing.outbox.take(n) =~= engine.outbox);
    assert(binding.outbox.take(n) =~= engine.outbox);
    assert(writing.outbox.take(n) =~= engine.outbox);
}

/// Whether one command was added at an instant, and nothing else happened to a node.
pub open spec fn added(before: EngineView, after: EngineView, now: Duration) -> bool {
    &&& after.outbox.len() == before.outbox.len() + 1
    &&& after.outbox.take(before.outbox.len() as int) == before.outbox
    &&& after.outbox.last().0 == now
    &&& after.address == before.address
    &&& after.peers == before.peers
}

/// A heartbeat goes out every minute, counted on.
pub proof fn law_heartbeats_go_out_every_minute(
    producer: HeartbeatProducer,
    feature: FeatureAddressView,
    now: Duration,
)
    ensures
        now.nanos + 60_000_000_000 <= u128::MAX ==> producer.beaten(now).next.nanos == now.nanos
            + 60_000_000_000,
        producer.counter < u64::MAX ==> producer.beaten(now).counter == producer.counter + 1,
        producer.beat(feature) == (CommandView::Beat { feature, counter: producer.counter }),
        producer.due(now) <==> now.nanos >= producer.next.nanos,
{
}

/// Two minutes of silence, and no less, lose a heartbeat, once; the next one finds it again. What
/// was never heard is never lost.
pub proof fn law_two_minutes_lose_a_heartbeat(
    monitor: HeartbeatMonitor,
    data: Payload,
    now: Duration,
)
    ensures
        monitor.heard_at matches Some(at) ==> (monitor.overdue(now) <==> !monitor.lost && now.nanos
            >= at.nanos + 120_000_000_000),
        monitor.heard_at is None ==> !monitor.overdue(now),
        data is DeviceDiagnosisHeartbeatData ==> monitor.observed(data, now).heard_at == Some(now)
            && !monitor.observed(data, now).lost,
        !(data is DeviceDiagnosisHeartbeatData) ==> monitor.observed(data, now) == monitor,
{
}

/// Features are shared as their addresses say: the same feature of the same entity, on the same
/// device where both name one.
pub proof fn law_addresses_are_shared(a: FeatureAddressView, b: FeatureAddressView)
    ensures
        a.shares_device(b) <==> a.device is None || b.device is None || a.device == b.device,
        a.shares_entity(b) <==> a.shares_device(b) && a.path() == b.path(),
        a.shares_feature(b) <==> a.shares_entity(b) && a.feature == b.feature,
        a.shares_device(b) == b.shares_device(a),
        a.shares_entity(b) == b.shares_entity(a),
        a.shares_feature(b) == b.shares_feature(a),
        a.shares_feature(a),
        a.entity matches Some(path) ==> a.path() == path,
        a.entity is None ==> a.path().len() == 0,
{
}

/// A device is managed on its first feature of its first entity.
pub proof fn law_devices_are_managed_on_their_first_feature(device: Seq<char>)
    ensures
        management(device).device == Some(device),
        management(device).path().len() == 1 && management(device).path()[0] == 0,
        management(device).feature == Some(0u32),
{
}

/// What is found of a peer is what was looked for, and it is found where it is there: the device by
/// its address, an entity by its path, a feature by its type and role, and a use case by its name
/// and actor.
pub proof fn law_what_is_found_was_looked_for(
    engine: EngineView,
    device: Seq<char>,
    remote: RemoteDeviceView,
    path: Seq<u32>,
    entity: RemoteEntityView,
    feature_type: FeatureType,
    role: Role,
    name: Seq<char>,
    actor: Seq<char>,
)
    ensures
        engine.peer(device) matches Some(found) ==> engine.peers.contains(found) && found.address
            == Some(device),
        engine.peers.contains(remote) && remote.address == Some(device) ==> engine.peer(
            device,
        ) is Some,
        remote.entity(path) matches Some(found) ==> remote.entities.contains(found) && found.path
            == path,
        remote.entities.contains(entity) && entity.path == path ==> remote.entity(path) is Some,
        entity.feature(feature_type, role) matches Some(found) ==> entity.features.contains(found)
            && found.feature_type == feature_type && found.role == role,
        remote.use_case(name, actor) matches Some(found) ==> remote.use_cases.contains(found)
            && found.name == name && found.actor == actor,
{
    let by_address = |peer: RemoteDeviceView| peer.address == Some(device);
    let by_path = |entity: RemoteEntityView| entity.path == path;
    let by_type = |feature: RemoteFeatureView|
        feature.feature_type == feature_type && feature.role == role;
    let by_name = |use_case: RemoteUseCaseView| use_case.plays(name, actor);
    lemma_first_index(engine.peers, by_address);
    lemma_first_index(remote.entities, by_path);
    lemma_first_index(entity.features, by_type);
    lemma_first_index(remote.use_cases, by_name);
    if let Some(i) = first_index(engine.peers, by_address) {
        assert(by_address(engine.peers[i]));
    }
    if let Some(i) = first_index(remote.entities, by_path) {
        assert(by_path(remote.entities[i]));
    }
    if let Some(i) = first_index(entity.features, by_type) {
        assert(by_type(entity.features[i]));
    }
    if let Some(i) = first_index(remote.use_cases, by_name) {
        assert(by_name(remote.use_cases[i]));
    }
    if engine.peers.contains(remote) && remote.address == Some(device) {
        let i = choose|i: int| 0 <= i < engine.peers.len() && engine.peers[i] == remote;
        assert(by_address(engine.peers[i]));
    }
    if remote.entities.contains(entity) && entity.path == path {
        let i = choose|i: int| 0 <= i < remote.entities.len() && remote.entities[i] == entity;
        assert(by_path(remote.entities[i]));
    }
}

/// A feature that names its functions serves those; one that names none may serve any.
pub proof fn law_features_serve_what_they_name(feature: RemoteFeatureView, function: Function)
    ensures
        feature.may_serve(function) <==> feature.functions.len() == 0
            || feature.functions.contains(function),
{
}

} // verus!
