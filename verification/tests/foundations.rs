//! Numbers, spans of time, texts and descriptors.

use eebus::address::{same_entity, same_feature, AddressDevice, FeatureAddress};
use eebus::model::{ScaledNumber, EntityType, FeatureType, Function, Role};
use eebus::number::Number;
use eebus::spine::{LocalFeature, Operations, RemoteFeature, WriteBinding};
use eebus::text::{bracketed_text, decimal_text};
use eebus::time::Duration;
use eebus::usecases::mgcp::{self, Curtailment, FeedInLimit};
use eebus::usecases::monitoring::{Measurand, Quantity, Readings};
use eebus::usecases::{mob, lpc};

#[test]
fn numbers_compare_as_values_do() {
    assert!(Number::whole(-1).is_below(Number::from_thousandths(-999)));
    assert!(Number::whole(2).is_at_most(Number::PositiveInfinity));
    assert!(!Number::NotANumber.is_at_most(Number::NotANumber));
    assert!(Number::NegativeInfinity.is_negative());
    assert!(!Number::PositiveInfinity.is_finite());
    assert_eq!(Number::NotANumber.min(Number::whole(1)), Number::whole(1));
    assert_eq!(
        Number::whole(9).clamp(Number::whole(1), Number::whole(5)),
        Number::whole(5)
    );
    assert_eq!(
        Number::saturating(i128::MAX),
        Number::from_thousandths(i64::MAX)
    );
    assert_eq!(Number::count(3), Number::whole(3));
}

#[test]
fn wire_numbers_round_half_away_from_zero() {
    for (thousandths, decimals, wire) in [
        (1_499, 0, 1_000),
        (1_500, 0, 2_000),
        (-1_500, 0, -2_000),
        (1_250, 1, 1_300),
        (1_255, 2, 1_260),
        (1_255, 3, 1_255),
    ] {
        assert_eq!(
            ScaledNumber::from_number(Number::from_thousandths(thousandths), decimals),
            ScaledNumber::Value(wire)
        );
    }
    assert_eq!(
        ScaledNumber::from_number(Number::NotANumber, 0),
        ScaledNumber::Overflow
    );
    assert_eq!(ScaledNumber::Overflow.to_number(), None);
}

#[test]
fn spans_of_time_saturate() {
    let most = Duration::from_nanos(u128::MAX);
    assert_eq!(most.saturating_add(Duration::from_secs(1)), most);
    assert_eq!(
        Duration::from_secs(1).saturating_sub(Duration::from_secs(2)),
        Duration::zero()
    );
    assert_eq!(
        Duration::from_secs(3).min(Duration::from_secs(2)),
        Duration::from_secs(2)
    );
}

#[test]
fn numbers_are_written_out() {
    assert_eq!(decimal_text(0), "0");
    assert_eq!(decimal_text(18_446_744_073_709_551_615), "18446744073709551615");
    assert_eq!(bracketed_text(&vec![]), "[]");
    assert_eq!(bracketed_text(&vec![1, 20, 3]), "[1, 20, 3]");
}

#[test]
fn addresses_agree_on_entities_and_features() {
    let device = || AddressDevice::named("d:_i:1_A");
    let a = FeatureAddress::new(device(), vec![1, 2], 3);
    let b = FeatureAddress::new(device(), vec![1, 2], 4);
    assert!(same_entity(&a, &b));
    assert!(!same_feature(&a, &b));
    assert!(a.is_on(&device()));
    assert!(!same_entity(&a, &FeatureAddress::new(device(), vec![1], 3)));
}

#[test]
fn features_list_what_they_serve() {
    let feature = LocalFeature::new(1, FeatureType::Measurement, Role::Server)
        .with_function(Function::MeasurementListData, Operations::read())
        .with_function(Function::SetpointListData, Operations::read_write());
    assert_eq!(feature.functions().len(), 2);
    assert!(feature.functions()[1].1.write);
    assert_eq!(feature.write_binding(), WriteBinding::Required);
    assert_eq!(
        feature.with_unbound_writes().write_binding(),
        WriteBinding::NotRequired
    );
    let silent = RemoteFeature {
        address: FeatureAddress::new(AddressDevice::named("d"), vec![1], 1),
        feature_type: FeatureType::Measurement,
        role: Role::Server,
        functions: vec![],
    };
    assert!(
        silent.may_serve(Function::MeasurementListData),
        "a feature that lists nothing may serve anything"
    );
}

#[test]
fn a_descriptor_says_what_it_serves() {
    let system = lpc::controllable_system();
    let served = system.server_functions();
    assert!(served.contains(&(
        FeatureType::LoadControl,
        Function::LoadControlLimitListData
    )));
    assert!(system.permits_entity(EntityType::EVSE));
    assert!(!system.permits_entity(EntityType::GridGuard));
    assert_eq!(system.use_case_name(), "limitationOfPowerConsumption");
    assert_eq!(mgcp::monitoring_appliance().use_case_actor(), "MonitoringAppliance");
    assert_eq!(mgcp::grid_connection_point().version, "1.0.0");
}

#[test]
fn a_discharging_battery_reads_negative() {
    let power = Measurand::unphased(Quantity::DcPower);
    let charge = Measurand::unphased(Quantity::StateOfCharge);
    let mut battery = mob::monitored_unit(1).with(power).with(charge);
    battery.set(&power, Number::whole(-3_200));
    battery.set(&charge, Number::whole(61));

    let mut readings = Readings::new();
    readings.describe(&battery.measurement_descriptions());
    readings.describe(&battery.parameter_descriptions());
    readings.apply(&battery.measurements());
    assert_eq!(readings.value(&power), Some(Number::whole(-3_200)));
}

#[test]
fn a_factor_may_arrive_before_its_name() {
    let mut known = Curtailment::new();
    assert_eq!(
        known.apply(&mgcp::curtailment_value(Number::whole(60))),
        None
    );
    assert!(known.describe(&mgcp::curtailment_description()));
    assert_eq!(known.factor_percent(), Some(Number::whole(60)));
    assert_eq!(
        known.limit(Number::whole(10_000)),
        Some(FeedInLimit::new(Number::whole(60), Number::whole(10_000)))
    );
    assert_eq!(
        known.apply(&mgcp::curtailment_value(Number::whole(60))),
        Some(Number::whole(60))
    );
    assert_eq!(
        FeedInLimit::new(Number::from_thousandths(33_333), Number::whole(1)).watts(),
        Number::from_thousandths(333)
    );
    assert!(!FeedInLimit::new(Number::whole(50), Number::whole(100))
        .permits(Number::NotANumber));
}
