//! Measured temperatures: of the hot water, of a room, and outdoors.

use crate::address::FeatureAddressView;
use crate::assoc::place_of;
use crate::model::{
    AbsoluteOrRelativeTime, CmdData, FeatureType, Function, MeasurementConstraintsData,
    MeasurementConstraintsListData, MeasurementData, MeasurementDescriptionData,
    MeasurementDescriptionListData, MeasurementId, MeasurementListData, MeasurementValueSource,
    MeasurementValueState, MeasurementValueType, Payload, Role, ScaledNumber, UnitOfMeasurement,
};
use crate::number::Number;
use crate::seqs::{lemma_mapped_first_index, lemma_take_next, position};
use crate::spine::{LocalFeature, Operations, RemoteDevice, RemoteDeviceView, RemoteUseCaseView};
use crate::usecases::monitoring::appliance::{MonitoredUnitPeer, UnitPeerView};
use crate::usecases::monitoring::measurand::Measurand;
use crate::usecases::monitoring::unit::measurement_feature_view;
use vstd::prelude::*;

verus! {

/// Builds the `Measurement` feature that a temperature is served from.
pub fn measurement_feature(address: u32) -> (r: LocalFeature)
    ensures
        r@ == measurement_feature_view(address),
{
    let feature = LocalFeature::new(address, FeatureType::Measurement, Role::Server).with_function(
        Function::MeasurementDescriptionListData,
        Operations::read(),
    ).with_function(
        Function::MeasurementConstraintsListData,
        Operations::read(),
    ).with_function(Function::MeasurementListData, Operations::read());
    proof {
        reveal_with_fuel(place_of, 4);
        assert(feature@.functions =~= measurement_feature_view(address).functions);
    }
    feature
}

/// The description of a temperature, as a payload.
pub open spec fn description_payload(
    measurand: Measurand,
    id: MeasurementId,
    unit: UnitOfMeasurement,
) -> Payload {
    Payload::MeasurementDescriptionListData(
        Some(
            seq![
                MeasurementDescriptionData {
                    measurement_id: Some(id),
                    measurement_type: Some(measurand.quantity.kind()),
                    commodity_type: Some(measurand.commodity()),
                    unit: Some(unit),
                    scope_type: Some(measurand.scope()),
                },
            ],
        ),
    )
}

/// The description of a temperature, in the unit that the sensor works in.
pub fn description(measurand: &Measurand, id: MeasurementId, unit: UnitOfMeasurement) -> (r:
    CmdData)
    ensures
        r@ == description_payload(*measurand, id, unit),
{
    let entries = vec![
        MeasurementDescriptionData {
            measurement_id: Some(id),
            measurement_type: Some(measurand.measurement_type()),
            commodity_type: Some(measurand.commodity_type()),
            unit: Some(unit),
            scope_type: Some(measurand.scope_type()),
        },
    ];
    assert(description_payload(*measurand, id, unit)->MeasurementDescriptionListData_0->Some_0
        =~= entries@);
    CmdData::MeasurementDescriptionListData(
        MeasurementDescriptionListData { measurement_description_data: Some(entries) },
    )
}

/// The range and granularity of a sensor, as a payload, to the tenth of a degree.
pub open spec fn constraints_payload(
    id: MeasurementId,
    min: Number,
    max: Number,
    step: Option<Number>,
) -> Payload {
    Payload::MeasurementConstraintsListData(
        Some(
            seq![
                MeasurementConstraintsData {
                    measurement_id: Some(id),
                    value_range_min: Some(ScaledNumber::encoded(min, 1)),
                    value_range_max: Some(ScaledNumber::encoded(max, 1)),
                    value_step_size: match step {
                        Some(step) => Some(ScaledNumber::encoded(step, 1)),
                        None => None,
                    },
                },
            ],
        ),
    )
}

/// The range and granularity of a sensor.
pub fn constraints(id: MeasurementId, min: Number, max: Number, step: Option<Number>) -> (r:
    CmdData)
    ensures
        r@ == constraints_payload(id, min, max, step),
{
    let entries = vec![
        MeasurementConstraintsData {
            measurement_id: Some(id),
            value_range_min: Some(ScaledNumber::from_number(min, 1)),
            value_range_max: Some(ScaledNumber::from_number(max, 1)),
            value_step_size: match step {
                Some(step) => Some(ScaledNumber::from_number(step, 1)),
                None => None,
            },
        },
    ];
    assert(constraints_payload(id, min, max, step)->MeasurementConstraintsListData_0->Some_0
        =~= entries@);
    CmdData::MeasurementConstraintsListData(
        MeasurementConstraintsListData { measurement_constraints_data: Some(entries) },
    )
}

/// A temperature, as a payload, to the tenth of a degree. There is one entry: only the latest
/// value is reported, and no history.
pub open spec fn reported_payload(
    id: MeasurementId,
    degrees: Number,
    source: MeasurementValueSource,
    state: Option<MeasurementValueState>,
    taken_at: Option<AbsoluteOrRelativeTime>,
) -> Payload {
    Payload::MeasurementListData(
        Some(
            seq![
                MeasurementData {
                    measurement_id: Some(id),
                    value_type: Some(MeasurementValueType::Value),
                    timestamp: taken_at,
                    value: Some(ScaledNumber::encoded(degrees, 1)),
                    value_source: Some(source),
                    value_state: state,
                },
            ],
        ),
    )
}

/// A temperature, where it comes from, whether it can be trusted, and when it was taken.
pub fn reported(
    id: MeasurementId,
    degrees: Number,
    source: MeasurementValueSource,
    state: Option<MeasurementValueState>,
    taken_at: Option<AbsoluteOrRelativeTime>,
) -> (r: CmdData)
    ensures
        r@ == reported_payload(id, degrees, source, state, taken_at),
{
    let entries = vec![
        MeasurementData {
            measurement_id: Some(id),
            value_type: Some(MeasurementValueType::Value),
            timestamp: taken_at,
            value: Some(ScaledNumber::from_number(degrees, 1)),
            value_source: Some(source),
            value_state: state,
        },
    ];
    assert(reported_payload(
        id,
        degrees,
        source,
        state,
        taken_at,
    )->MeasurementListData_0->Some_0 =~= entries@);
    CmdData::MeasurementListData(MeasurementListData { measurement_data: Some(entries) })
}

/// Picks out the units that measure on this feature.
pub open spec fn measures_on(feature: FeatureAddressView) -> spec_fn(UnitPeerView) -> bool {
    |peer: UnitPeerView| peer.measurement == Some(feature)
}

/// The units found once one more announcement is looked at: a unit that measures, on a feature
/// that was not found before.
pub open spec fn unit_found(
    remote: RemoteDeviceView,
    found: Seq<UnitPeerView>,
    played: RemoteUseCaseView,
    use_case: Seq<char>,
    actor: Seq<char>,
) -> Seq<UnitPeerView> {
    if !played.plays(use_case, actor) {
        found
    } else {
        match remote.address_of(played, FeatureType::Measurement, Role::Server) {
            Some(feature) => if crate::seqs::first_index(found, measures_on(feature)) is Some {
                found
            } else {
                found.push(UnitPeerView::measuring(remote.address->0, feature))
            },
            None => found,
        }
    }
}

/// The units found among announcements, in their order.
pub open spec fn units_found(
    remote: RemoteDeviceView,
    announced: Seq<RemoteUseCaseView>,
    use_case: Seq<char>,
    actor: Seq<char>,
) -> Seq<UnitPeerView>
    decreases announced.len(),
{
    if announced.len() == 0 {
        Seq::empty()
    } else {
        unit_found(
            remote,
            units_found(remote, announced.drop_last(), use_case, actor),
            announced.last(),
            use_case,
            actor,
        )
    }
}

/// Every unit of a device that measures as this actor of this use case.
pub open spec fn all_located(
    remote: RemoteDeviceView,
    use_case: Seq<char>,
    actor: Seq<char>,
) -> Seq<UnitPeerView> {
    if remote.address is Some {
        units_found(remote, remote.use_cases, use_case, actor)
    } else {
        Seq::empty()
    }
}

/// The contents of peers.
pub open spec fn peer_views(peers: Seq<MonitoredUnitPeer>) -> Seq<UnitPeerView> {
    peers.map_values(|peer: MonitoredUnitPeer| peer@)
}

/// Finds the first unit of a device that measures as this actor of this use case.
pub fn locate(remote: &RemoteDevice, use_case: &str, actor: &str) -> (r: Option<MonitoredUnitPeer>)
    ensures
        match r {
            Some(peer) => all_located(remote@, use_case@, actor@).len() > 0 && peer@
                == all_located(remote@, use_case@, actor@)[0],
            None => all_located(remote@, use_case@, actor@).len() == 0,
        },
{
    let mut found = locate_all(remote, use_case, actor);
    assert(peer_views(found@).len() == found@.len());
    if found.len() == 0 {
        None
    } else {
        assert(peer_views(found@)[0] == found@[0]@);
        Some(found.remove(0))
    }
}

/// Finds every unit of a device that measures as this actor of this use case: one for each
/// entity that announced it.
pub fn locate_all(remote: &RemoteDevice, use_case: &str, actor: &str) -> (r: Vec<
    MonitoredUnitPeer,
>)
    ensures
        peer_views(r@) == all_located(remote@, use_case@, actor@),
{
    let mut found: Vec<MonitoredUnitPeer> = Vec::new();
    assert(peer_views(found@) =~= Seq::empty());
    let device = match &remote.address {
        Some(device) => device,
        None => return found,
    };
    let mut i: usize = 0;
    assert(remote@.use_cases.take(0) =~= Seq::empty());
    while i < remote.use_cases.len()
        invariant
            i <= remote.use_cases@.len(),
            remote@.address == Some(device@),
            peer_views(found@) == units_found(
                remote@,
                remote@.use_cases.take(i as int),
                use_case@,
                actor@,
            ),
        decreases remote.use_cases@.len() - i,
    {
        proof {
            lemma_take_next(remote@.use_cases, i as int);
        }
        if remote.use_cases[i].plays(use_case, actor) {
            if let Some(feature) = remote.address_of(
                &remote.use_cases[i],
                FeatureType::Measurement,
                Role::Server,
            ) {
                let ghost wanted = |peer: MonitoredUnitPeer| measures_on(feature@)(peer@);
                proof {
                    lemma_mapped_first_index(
                        found@,
                        |peer: MonitoredUnitPeer| peer@,
                        wanted,
                        measures_on(feature@),
                    );
                }
                let known = position(
                    &found,
                    |peer: &MonitoredUnitPeer| -> (b: bool)
                        ensures
                            b == measures_on(feature@)(peer@)
                        { crate::address::names(&peer.measurement, &feature) },
                    Ghost(wanted),
                );
                if known.is_none() {
                    let ghost had = found@;
                    let ghost address = feature@;
                    found.push(MonitoredUnitPeer::measuring(device.copy(), feature));
                    assert(peer_views(found@) =~= peer_views(had).push(
                        UnitPeerView::measuring(device@, address),
                    ));
                }
            }
        }
        i = i + 1;
    }
    assert(remote@.use_cases.take(i as int) =~= remote@.use_cases);
    found
}

} // verus!
