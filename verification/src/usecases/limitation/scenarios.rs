//! The four scenarios that both limitation use cases have.

use super::Direction;
use crate::model::{FeatureType, Function};
use crate::spine::HEARTBEAT_PERIOD;
use crate::usecases::descriptor::{
    asked, scenario, scenario_views, sent_every, served, written, FunctionUse, Scenario,
    ScenarioView, Support,
};
use vstd::prelude::*;

verus! {

/// The scenarios as the Energy Guard plays them.
pub open spec fn guard_scenario_views(direction: Direction) -> Seq<ScenarioView> {
    seq![
        scenario(
            1,
            direction.first_scenario(),
            Support::Mandatory,
            seq![
                asked(FeatureType::LoadControl, Function::LoadControlLimitDescriptionListData),
                written(asked(FeatureType::LoadControl, Function::LoadControlLimitListData)),
            ],
        ),
        scenario(
            2,
            "Failsafe values"@,
            Support::Mandatory,
            seq![
                asked(
                    FeatureType::DeviceConfiguration,
                    Function::DeviceConfigurationKeyValueDescriptionListData,
                ),
                written(
                    asked(
                        FeatureType::DeviceConfiguration,
                        Function::DeviceConfigurationKeyValueListData,
                    ),
                ),
            ],
        ),
        scenario(3, "Heartbeat"@, Support::Mandatory, heartbeat_uses()),
        scenario(
            4,
            "Constraints"@,
            Support::Mandatory,
            seq![
                asked(
                    FeatureType::ElectricalConnection,
                    Function::ElectricalConnectionCharacteristicListData,
                ),
            ],
        ),
    ]
}

/// The scenarios as the Controllable System plays them.
pub open spec fn system_scenario_views(direction: Direction) -> Seq<ScenarioView> {
    seq![
        scenario(
            1,
            direction.first_scenario(),
            Support::Mandatory,
            seq![
                served(FeatureType::LoadControl, Function::LoadControlLimitDescriptionListData),
                written(served(FeatureType::LoadControl, Function::LoadControlLimitListData)),
            ],
        ),
        scenario(
            2,
            "Failsafe values"@,
            Support::Mandatory,
            seq![
                served(
                    FeatureType::DeviceConfiguration,
                    Function::DeviceConfigurationKeyValueDescriptionListData,
                ),
                written(
                    served(
                        FeatureType::DeviceConfiguration,
                        Function::DeviceConfigurationKeyValueListData,
                    ),
                ),
            ],
        ),
        scenario(3, "Heartbeat"@, Support::Mandatory, heartbeat_uses()),
        scenario(
            4,
            "Constraints"@,
            Support::Recommended,
            seq![
                served(
                    FeatureType::ElectricalConnection,
                    Function::ElectricalConnectionCharacteristicListData,
                ),
            ],
        ),
    ]
}

/// Both actors serve a heartbeat and read the other's.
pub open spec fn heartbeat_uses() -> Seq<FunctionUse> {
    seq![
        sent_every(
            served(FeatureType::DeviceDiagnosis, Function::DeviceDiagnosisHeartbeatData),
            HEARTBEAT_PERIOD,
        ),
        sent_every(
            asked(FeatureType::DeviceDiagnosis, Function::DeviceDiagnosisHeartbeatData),
            HEARTBEAT_PERIOD,
        ),
    ]
}

/// Both actors serve a heartbeat and read the other's.
fn heartbeat_functions() -> (r: Vec<FunctionUse>)
    ensures
        r@ == heartbeat_uses(),
{
    let uses = vec![
        FunctionUse::server(
            FeatureType::DeviceDiagnosis,
            Function::DeviceDiagnosisHeartbeatData,
        ).periodic(HEARTBEAT_PERIOD),
        FunctionUse::client(
            FeatureType::DeviceDiagnosis,
            Function::DeviceDiagnosisHeartbeatData,
        ).periodic(HEARTBEAT_PERIOD),
    ];
    assert(uses@ =~= heartbeat_uses());
    uses
}

/// The scenarios as the Energy Guard plays them.
pub fn guard_scenarios(direction: Direction) -> (r: Vec<Scenario>)
    ensures
        scenario_views(r@) == guard_scenario_views(direction),
{
    let limit = vec![
        FunctionUse::client(
            FeatureType::LoadControl,
            Function::LoadControlLimitDescriptionListData,
        ),
        FunctionUse::client_writes(FeatureType::LoadControl, Function::LoadControlLimitListData),
    ];
    let failsafe = vec![
        FunctionUse::client(
            FeatureType::DeviceConfiguration,
            Function::DeviceConfigurationKeyValueDescriptionListData,
        ),
        FunctionUse::client_writes(
            FeatureType::DeviceConfiguration,
            Function::DeviceConfigurationKeyValueListData,
        ),
    ];
    let constraints = vec![
        FunctionUse::client(
            FeatureType::ElectricalConnection,
            Function::ElectricalConnectionCharacteristicListData,
        ),
    ];
    let ghost views = guard_scenario_views(direction);
    assert(limit@ =~= views[0].functions);
    assert(failsafe@ =~= views[1].functions);
    assert(constraints@ =~= views[3].functions);
    let scenarios = vec![
        Scenario::new(1, direction.scenario_one_name(), Support::Mandatory, limit),
        Scenario::new(2, "Failsafe values", Support::Mandatory, failsafe),
        Scenario::new(3, "Heartbeat", Support::Mandatory, heartbeat_functions()),
        Scenario::new(4, "Constraints", Support::Mandatory, constraints),
    ];
    assert(scenario_views(scenarios@) =~= views);
    scenarios
}

/// The scenarios as the Controllable System plays them.
pub fn system_scenarios(direction: Direction) -> (r: Vec<Scenario>)
    ensures
        scenario_views(r@) == system_scenario_views(direction),
{
    let limit = vec![
        FunctionUse::server(
            FeatureType::LoadControl,
            Function::LoadControlLimitDescriptionListData,
        ),
        FunctionUse::server_writeable(
            FeatureType::LoadControl,
            Function::LoadControlLimitListData,
        ),
    ];
    let failsafe = vec![
        FunctionUse::server(
            FeatureType::DeviceConfiguration,
            Function::DeviceConfigurationKeyValueDescriptionListData,
        ),
        FunctionUse::server_writeable(
            FeatureType::DeviceConfiguration,
            Function::DeviceConfigurationKeyValueListData,
        ),
    ];
    let constraints = vec![
        FunctionUse::server(
            FeatureType::ElectricalConnection,
            Function::ElectricalConnectionCharacteristicListData,
        ),
    ];
    let ghost views = system_scenario_views(direction);
    assert(limit@ =~= views[0].functions);
    assert(failsafe@ =~= views[1].functions);
    assert(constraints@ =~= views[3].functions);
    let scenarios = vec![
        Scenario::new(1, direction.scenario_one_name(), Support::Mandatory, limit),
        Scenario::new(2, "Failsafe values", Support::Mandatory, failsafe),
        Scenario::new(3, "Heartbeat", Support::Mandatory, heartbeat_functions()),
        Scenario::new(4, "Constraints", Support::Recommended, constraints),
    ];
    assert(scenario_views(scenarios@) =~= views);
    scenarios
}

} // verus!
