//! The functions that the scenarios of these use cases need.

use crate::model::{FeatureType, Function, Role};
use crate::usecases::descriptor::{asked, served, written_unbound, FunctionUse};
use vstd::prelude::*;

verus! {

/// A function that is served, or read by a client.
pub open spec fn used(side: Role, feature: FeatureType, function: Function) -> FunctionUse {
    match side {
        Role::Server => served(feature, function),
        Role::Client => asked(feature, function),
    }
}

/// The same function, where it is written without a binding.
pub open spec fn used_for(
    side: Role,
    writes: bool,
    feature: FeatureType,
    function: Function,
) -> FunctionUse {
    if writes {
        written_unbound(used(side, feature, function))
    } else {
        used(side, feature, function)
    }
}

/// A function that is served, or read by a client.
fn plain(side: Role, feature: FeatureType, function: Function) -> (r: FunctionUse)
    ensures
        r == used(side, feature, function),
{
    match side {
        Role::Server => FunctionUse::server(feature, function),
        Role::Client => FunctionUse::client(feature, function),
    }
}

/// The same function, where it may be written without a binding.
fn perhaps_written(side: Role, writes: bool, feature: FeatureType, function: Function) -> (r:
    FunctionUse)
    ensures
        r == used_for(side, writes, feature, function),
{
    if writes {
        match side {
            Role::Server => FunctionUse::server_writeable_unbound(feature, function),
            Role::Client => FunctionUse::client_writes_unbound(feature, function),
        }
    } else {
        plain(side, feature, function)
    }
}

/// The functions of an operation mode.
pub open spec fn mode_uses(side: Role, writes: bool) -> Seq<FunctionUse> {
    seq![
        used(side, FeatureType::HVAC, Function::HvacSystemFunctionDescriptionListData),
        used(side, FeatureType::HVAC, Function::HvacOperationModeDescriptionListData),
        used(side, FeatureType::HVAC, Function::HvacSystemFunctionOperationModeRelationListData),
        used_for(side, writes, FeatureType::HVAC, Function::HvacSystemFunctionListData),
    ]
}

/// The functions of an operation mode.
pub fn mode_functions(side: Role, writes: bool) -> (r: Vec<FunctionUse>)
    ensures
        r@ == mode_uses(side, writes),
{
    let uses = vec![
        plain(side, FeatureType::HVAC, Function::HvacSystemFunctionDescriptionListData),
        plain(side, FeatureType::HVAC, Function::HvacOperationModeDescriptionListData),
        plain(side, FeatureType::HVAC, Function::HvacSystemFunctionOperationModeRelationListData),
        perhaps_written(side, writes, FeatureType::HVAC, Function::HvacSystemFunctionListData),
    ];
    assert(uses@ =~= mode_uses(side, writes));
    uses
}

/// The functions of an overrun.
pub open spec fn overrun_uses(side: Role, writes: bool) -> Seq<FunctionUse> {
    seq![
        used(side, FeatureType::HVAC, Function::HvacSystemFunctionDescriptionListData),
        used(side, FeatureType::HVAC, Function::HvacSystemFunctionListData),
        used(side, FeatureType::HVAC, Function::HvacOverrunDescriptionListData),
        used_for(side, writes, FeatureType::HVAC, Function::HvacOverrunListData),
    ]
}

/// The functions of an overrun.
pub fn overrun_functions(side: Role, writes: bool) -> (r: Vec<FunctionUse>)
    ensures
        r@ == overrun_uses(side, writes),
{
    let uses = vec![
        plain(side, FeatureType::HVAC, Function::HvacSystemFunctionDescriptionListData),
        plain(side, FeatureType::HVAC, Function::HvacSystemFunctionListData),
        plain(side, FeatureType::HVAC, Function::HvacOverrunDescriptionListData),
        perhaps_written(side, writes, FeatureType::HVAC, Function::HvacOverrunListData),
    ];
    assert(uses@ =~= overrun_uses(side, writes));
    uses
}

/// The functions of a setpoint.
pub open spec fn setpoint_uses(side: Role) -> Seq<FunctionUse> {
    seq![
        used(side, FeatureType::Setpoint, Function::SetpointDescriptionListData),
        used(side, FeatureType::Setpoint, Function::SetpointConstraintsListData),
        used_for(side, true, FeatureType::Setpoint, Function::SetpointListData),
        used(side, FeatureType::HVAC, Function::HvacSystemFunctionSetpointRelationListData),
    ]
}

/// The functions of a setpoint.
pub fn setpoint_functions(side: Role) -> (r: Vec<FunctionUse>)
    ensures
        r@ == setpoint_uses(side),
{
    let uses = vec![
        plain(side, FeatureType::Setpoint, Function::SetpointDescriptionListData),
        plain(side, FeatureType::Setpoint, Function::SetpointConstraintsListData),
        perhaps_written(side, true, FeatureType::Setpoint, Function::SetpointListData),
        plain(side, FeatureType::HVAC, Function::HvacSystemFunctionSetpointRelationListData),
    ];
    assert(uses@ =~= setpoint_uses(side));
    uses
}

/// The functions of a measured temperature.
pub open spec fn temperature_uses(side: Role) -> Seq<FunctionUse> {
    seq![
        used(side, FeatureType::Measurement, Function::MeasurementDescriptionListData),
        used(side, FeatureType::Measurement, Function::MeasurementConstraintsListData),
        used(side, FeatureType::Measurement, Function::MeasurementListData),
    ]
}

/// The functions of a measured temperature.
pub fn temperature_functions(side: Role) -> (r: Vec<FunctionUse>)
    ensures
        r@ == temperature_uses(side),
{
    let uses = vec![
        plain(side, FeatureType::Measurement, Function::MeasurementDescriptionListData),
        plain(side, FeatureType::Measurement, Function::MeasurementConstraintsListData),
        plain(side, FeatureType::Measurement, Function::MeasurementListData),
    ];
    assert(uses@ =~= temperature_uses(side));
    uses
}

} // verus!
