//! The functions that the scenarios of the monitoring use cases need.

use crate::model::{FeatureType, Function};
use crate::usecases::descriptor::{asked, served, written, FunctionUse};
use vstd::prelude::*;

verus! {

/// A server offers the descriptions, the constraints and the values of measurements.
pub open spec fn server_measurements_uses() -> Seq<FunctionUse> {
    seq![
        served(
            FeatureType::ElectricalConnection,
            Function::ElectricalConnectionDescriptionListData,
        ),
        served(
            FeatureType::ElectricalConnection,
            Function::ElectricalConnectionParameterDescriptionListData,
        ),
        served(FeatureType::Measurement, Function::MeasurementDescriptionListData),
        served(FeatureType::Measurement, Function::MeasurementConstraintsListData),
        served(FeatureType::Measurement, Function::MeasurementListData),
    ]
}

/// A server offers the descriptions, the constraints and the values of measurements.
pub fn server_measurements() -> (r: Vec<FunctionUse>)
    ensures
        r@ == server_measurements_uses(),
{
    let uses = vec![
        FunctionUse::server(
            FeatureType::ElectricalConnection,
            Function::ElectricalConnectionDescriptionListData,
        ),
        FunctionUse::server(
            FeatureType::ElectricalConnection,
            Function::ElectricalConnectionParameterDescriptionListData,
        ),
        FunctionUse::server(FeatureType::Measurement, Function::MeasurementDescriptionListData),
        FunctionUse::server(FeatureType::Measurement, Function::MeasurementConstraintsListData),
        FunctionUse::server(FeatureType::Measurement, Function::MeasurementListData),
    ];
    assert(uses@ =~= server_measurements_uses());
    uses
}

/// A client uses the descriptions, the constraints and the values of measurements.
pub open spec fn client_measurements_uses() -> Seq<FunctionUse> {
    seq![
        asked(
            FeatureType::ElectricalConnection,
            Function::ElectricalConnectionDescriptionListData,
        ),
        asked(
            FeatureType::ElectricalConnection,
            Function::ElectricalConnectionParameterDescriptionListData,
        ),
        asked(FeatureType::Measurement, Function::MeasurementDescriptionListData),
        asked(FeatureType::Measurement, Function::MeasurementConstraintsListData),
        asked(FeatureType::Measurement, Function::MeasurementListData),
    ]
}

/// A client uses the descriptions, the constraints and the values of measurements.
pub fn client_measurements() -> (r: Vec<FunctionUse>)
    ensures
        r@ == client_measurements_uses(),
{
    let uses = vec![
        FunctionUse::client(
            FeatureType::ElectricalConnection,
            Function::ElectricalConnectionDescriptionListData,
        ),
        FunctionUse::client(
            FeatureType::ElectricalConnection,
            Function::ElectricalConnectionParameterDescriptionListData,
        ),
        FunctionUse::client(FeatureType::Measurement, Function::MeasurementDescriptionListData),
        FunctionUse::client(FeatureType::Measurement, Function::MeasurementConstraintsListData),
        FunctionUse::client(FeatureType::Measurement, Function::MeasurementListData),
    ];
    assert(uses@ =~= client_measurements_uses());
    uses
}

/// A server offers the characteristics of an electrical connection.
pub open spec fn server_characteristics_uses() -> Seq<FunctionUse> {
    seq![
        served(
            FeatureType::ElectricalConnection,
            Function::ElectricalConnectionDescriptionListData,
        ),
        served(
            FeatureType::ElectricalConnection,
            Function::ElectricalConnectionParameterDescriptionListData,
        ),
        served(
            FeatureType::ElectricalConnection,
            Function::ElectricalConnectionCharacteristicListData,
        ),
    ]
}

/// A server offers the characteristics of an electrical connection.
pub fn server_characteristics() -> (r: Vec<FunctionUse>)
    ensures
        r@ == server_characteristics_uses(),
{
    let uses = vec![
        FunctionUse::server(
            FeatureType::ElectricalConnection,
            Function::ElectricalConnectionDescriptionListData,
        ),
        FunctionUse::server(
            FeatureType::ElectricalConnection,
            Function::ElectricalConnectionParameterDescriptionListData,
        ),
        FunctionUse::server(
            FeatureType::ElectricalConnection,
            Function::ElectricalConnectionCharacteristicListData,
        ),
    ];
    assert(uses@ =~= server_characteristics_uses());
    uses
}

/// A client uses the characteristics of an electrical connection.
pub open spec fn client_characteristics_uses() -> Seq<FunctionUse> {
    seq![
        asked(
            FeatureType::ElectricalConnection,
            Function::ElectricalConnectionDescriptionListData,
        ),
        asked(
            FeatureType::ElectricalConnection,
            Function::ElectricalConnectionParameterDescriptionListData,
        ),
        asked(
            FeatureType::ElectricalConnection,
            Function::ElectricalConnectionCharacteristicListData,
        ),
    ]
}

/// A client uses the characteristics of an electrical connection.
pub fn client_characteristics() -> (r: Vec<FunctionUse>)
    ensures
        r@ == client_characteristics_uses(),
{
    let uses = vec![
        FunctionUse::client(
            FeatureType::ElectricalConnection,
            Function::ElectricalConnectionDescriptionListData,
        ),
        FunctionUse::client(
            FeatureType::ElectricalConnection,
            Function::ElectricalConnectionParameterDescriptionListData,
        ),
        FunctionUse::client(
            FeatureType::ElectricalConnection,
            Function::ElectricalConnectionCharacteristicListData,
        ),
    ];
    assert(uses@ =~= client_characteristics_uses());
    uses
}

/// A server offers the manufacturer's data.
pub open spec fn server_identification_uses() -> Seq<FunctionUse> {
    seq![
        served(
            FeatureType::DeviceClassification,
            Function::DeviceClassificationManufacturerData,
        ),
    ]
}

/// A server offers the manufacturer's data.
pub fn server_identification() -> (r: Vec<FunctionUse>)
    ensures
        r@ == server_identification_uses(),
{
    let uses = vec![
        FunctionUse::server(
            FeatureType::DeviceClassification,
            Function::DeviceClassificationManufacturerData,
        ),
    ];
    assert(uses@ =~= server_identification_uses());
    uses
}

/// A client uses the manufacturer's data.
pub open spec fn client_identification_uses() -> Seq<FunctionUse> {
    seq![
        asked(
            FeatureType::DeviceClassification,
            Function::DeviceClassificationManufacturerData,
        ),
    ]
}

/// A client uses the manufacturer's data.
pub fn client_identification() -> (r: Vec<FunctionUse>)
    ensures
        r@ == client_identification_uses(),
{
    let uses = vec![
        FunctionUse::client(
            FeatureType::DeviceClassification,
            Function::DeviceClassificationManufacturerData,
        ),
    ];
    assert(uses@ =~= client_identification_uses());
    uses
}

/// A server offers the operating state.
pub open spec fn server_state_uses() -> Seq<FunctionUse> {
    seq![
        served(FeatureType::DeviceDiagnosis, Function::DeviceDiagnosisStateData),
    ]
}

/// A server offers the operating state.
pub fn server_state() -> (r: Vec<FunctionUse>)
    ensures
        r@ == server_state_uses(),
{
    let uses = vec![
        FunctionUse::server(FeatureType::DeviceDiagnosis, Function::DeviceDiagnosisStateData),
    ];
    assert(uses@ =~= server_state_uses());
    uses
}

/// A client uses the operating state.
pub open spec fn client_state_uses() -> Seq<FunctionUse> {
    seq![
        asked(FeatureType::DeviceDiagnosis, Function::DeviceDiagnosisStateData),
    ]
}

/// A client uses the operating state.
pub fn client_state() -> (r: Vec<FunctionUse>)
    ensures
        r@ == client_state_uses(),
{
    let uses = vec![
        FunctionUse::client(FeatureType::DeviceDiagnosis, Function::DeviceDiagnosisStateData),
    ];
    assert(uses@ =~= client_state_uses());
    uses
}

/// A server offers configuration values.
pub open spec fn server_configuration_uses() -> Seq<FunctionUse> {
    seq![
        served(
            FeatureType::DeviceConfiguration,
            Function::DeviceConfigurationKeyValueDescriptionListData,
        ),
        served(FeatureType::DeviceConfiguration, Function::DeviceConfigurationKeyValueListData),
    ]
}

/// A server offers configuration values.
pub fn server_configuration() -> (r: Vec<FunctionUse>)
    ensures
        r@ == server_configuration_uses(),
{
    let uses = vec![
        FunctionUse::server(
            FeatureType::DeviceConfiguration,
            Function::DeviceConfigurationKeyValueDescriptionListData,
        ),
        FunctionUse::server(
            FeatureType::DeviceConfiguration,
            Function::DeviceConfigurationKeyValueListData,
        ),
    ];
    assert(uses@ =~= server_configuration_uses());
    uses
}

/// A client uses configuration values.
pub open spec fn client_configuration_uses() -> Seq<FunctionUse> {
    seq![
        asked(
            FeatureType::DeviceConfiguration,
            Function::DeviceConfigurationKeyValueDescriptionListData,
        ),
        asked(FeatureType::DeviceConfiguration, Function::DeviceConfigurationKeyValueListData),
    ]
}

/// A client uses configuration values.
pub fn client_configuration() -> (r: Vec<FunctionUse>)
    ensures
        r@ == client_configuration_uses(),
{
    let uses = vec![
        FunctionUse::client(
            FeatureType::DeviceConfiguration,
            Function::DeviceConfigurationKeyValueDescriptionListData,
        ),
        FunctionUse::client(
            FeatureType::DeviceConfiguration,
            Function::DeviceConfigurationKeyValueListData,
        ),
    ];
    assert(uses@ =~= client_configuration_uses());
    uses
}

/// A server offers configuration values that can be written.
pub open spec fn server_configuration_writeable_uses() -> Seq<FunctionUse> {
    seq![
        served(
            FeatureType::DeviceConfiguration,
            Function::DeviceConfigurationKeyValueDescriptionListData,
        ),
        written(
            served(
                FeatureType::DeviceConfiguration,
                Function::DeviceConfigurationKeyValueListData,
            ),
        ),
    ]
}

/// A server offers configuration values that can be written.
pub fn server_configuration_writeable() -> (r: Vec<FunctionUse>)
    ensures
        r@ == server_configuration_writeable_uses(),
{
    let uses = vec![
        FunctionUse::server(
            FeatureType::DeviceConfiguration,
            Function::DeviceConfigurationKeyValueDescriptionListData,
        ),
        FunctionUse::server_writeable(
            FeatureType::DeviceConfiguration,
            Function::DeviceConfigurationKeyValueListData,
        ),
    ];
    assert(uses@ =~= server_configuration_writeable_uses());
    uses
}

/// A client uses configuration values that are written.
pub open spec fn client_configuration_writes_uses() -> Seq<FunctionUse> {
    seq![
        asked(
            FeatureType::DeviceConfiguration,
            Function::DeviceConfigurationKeyValueDescriptionListData,
        ),
        written(
            asked(
                FeatureType::DeviceConfiguration,
                Function::DeviceConfigurationKeyValueListData,
            ),
        ),
    ]
}

/// A client uses configuration values that are written.
pub fn client_configuration_writes() -> (r: Vec<FunctionUse>)
    ensures
        r@ == client_configuration_writes_uses(),
{
    let uses = vec![
        FunctionUse::client(
            FeatureType::DeviceConfiguration,
            Function::DeviceConfigurationKeyValueDescriptionListData,
        ),
        FunctionUse::client_writes(
            FeatureType::DeviceConfiguration,
            Function::DeviceConfigurationKeyValueListData,
        ),
    ];
    assert(uses@ =~= client_configuration_writes_uses());
    uses
}

} // verus!
