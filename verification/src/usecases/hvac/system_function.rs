//! A system function: what its server publishes about it, and how a client follows and
//! changes it.

use super::setpoint::Setpoints;
use super::{
    find_system_function, function_among, mode_id_of, modes_learned, OperationModes,
};
use crate::assoc::{
    get, get_ref, holds, lemma_mapped_place, lemma_mapped_store, lemma_place, lookup, mapped,
    place_of, store, stored,
};
use crate::model::{
    entries_of, listed, listed_views, CmdData, ErrorNumber, FeatureType, Function,
    HvacOperationModeDescriptionData, HvacOperationModeDescriptionListData, HvacOperationModeId,
    HvacOperationModeType, HvacOverrunData, HvacOverrunDescriptionData,
    HvacOverrunDescriptionListData, HvacOverrunId, HvacOverrunListData, HvacOverrunStatus,
    HvacOverrunType, HvacSystemFunctionData, HvacSystemFunctionDescriptionData,
    HvacSystemFunctionDescriptionListData, HvacSystemFunctionId, HvacSystemFunctionListData,
    HvacSystemFunctionOperationModeRelationData, HvacSystemFunctionOperationModeRelationListData,
    HvacSystemFunctionType, ModeRelationEntry, OverrunEntry, Payload, Role, SetpointId,
};
use crate::seqs::{
    copy_list, first, lemma_mapped_first_index, lemma_no_first_index, lemma_take_next, position,
};
use crate::spine::{
    reading, writing, LocalFeature, LocalFeatureView, Operations, WriteBinding,
};
use vstd::prelude::*;

verus! {

/// The identifier that this crate publishes a mode under.
pub open spec fn own_mode_id(kind: HvacOperationModeType) -> Option<HvacOperationModeId> {
    match kind {
        HvacOperationModeType::Auto => Some(HvacOperationModeId(1)),
        HvacOperationModeType::On => Some(HvacOperationModeId(2)),
        HvacOperationModeType::Off => Some(HvacOperationModeId(3)),
        HvacOperationModeType::Eco => Some(HvacOperationModeId(4)),
        HvacOperationModeType::Other(_) => None,
    }
}

/// The identifier that this crate publishes a mode under; none for a mode that is not one of the
/// four. Modes are described once for a device, and which of them a function has is the relation.
pub fn operation_mode_id(kind: &HvacOperationModeType) -> (r: Option<HvacOperationModeId>)
    ensures
        r == own_mode_id(*kind),
{
    match kind {
        HvacOperationModeType::Auto => Some(HvacOperationModeId(1)),
        HvacOperationModeType::On => Some(HvacOperationModeId(2)),
        HvacOperationModeType::Off => Some(HvacOperationModeId(3)),
        HvacOperationModeType::Eco => Some(HvacOperationModeId(4)),
        HvacOperationModeType::Other(_) => None,
    }
}

/// The functions of an `HVAC` feature, with the operations of those that may be written.
pub open spec fn hvac_functions(overrun: bool, operations: Operations) -> Seq<
    (Function, Operations),
> {
    let modes = seq![
        (Function::HvacSystemFunctionDescriptionListData, reading()),
        (Function::HvacOperationModeDescriptionListData, reading()),
        (Function::HvacSystemFunctionOperationModeRelationListData, reading()),
        (Function::HvacSystemFunctionListData, operations),
    ];
    if overrun {
        modes.push((Function::HvacOverrunDescriptionListData, reading())).push(
            (Function::HvacOverrunListData, operations),
        )
    } else {
        modes
    }
}

/// An `HVAC` feature that reports.
pub open spec fn hvac_feature_view(address: u32, overrun: bool) -> LocalFeatureView {
    LocalFeatureView::read_only(
        address,
        FeatureType::HVAC,
        Role::Server,
        hvac_functions(overrun, reading()),
    )
}

/// An `HVAC` feature that can be configured without a binding.
pub open spec fn writeable_view(address: u32, overrun: bool) -> LocalFeatureView {
    LocalFeatureView {
        deferred_writes: true,
        write_binding: WriteBinding::NotRequired,
        ..LocalFeatureView::read_only(
            address,
            FeatureType::HVAC,
            Role::Server,
            hvac_functions(overrun, writing()),
        )
    }
}

/// Builds the `HVAC` feature that reports modes and, where there is one, the overrun.
pub fn hvac_feature(address: u32, overrun: bool) -> (r: LocalFeature)
    ensures
        r@ == hvac_feature_view(address, overrun),
{
    let feature = LocalFeature::new(address, FeatureType::HVAC, Role::Server).with_function(
        Function::HvacSystemFunctionDescriptionListData,
        Operations::read(),
    ).with_function(
        Function::HvacOperationModeDescriptionListData,
        Operations::read(),
    ).with_function(
        Function::HvacSystemFunctionOperationModeRelationListData,
        Operations::read(),
    ).with_function(Function::HvacSystemFunctionListData, Operations::read());
    proof {
        reveal_with_fuel(place_of, 5);
        assert(feature@.functions =~= hvac_functions(false, reading()));
    }
    if !overrun {
        return feature;
    }
    let extended = feature.with_function(
        Function::HvacOverrunDescriptionListData,
        Operations::read(),
    ).with_function(Function::HvacOverrunListData, Operations::read());
    proof {
        reveal_with_fuel(place_of, 7);
        assert(extended@.functions =~= hvac_functions(true, reading()));
    }
    extended
}

/// Builds the `HVAC` feature whose mode, and overrun where there is one, can be written. Each
/// write is the application's to decide, and needs no binding.
pub fn writeable(address: u32, overrun: bool) -> (r: LocalFeature)
    ensures
        r@ == writeable_view(address, overrun),
{
    let feature = hvac_feature(
        address,
        overrun,
    ).with_deferred_writes().with_unbound_writes();
    proof {
        lemma_place(feature@.functions, Function::HvacSystemFunctionListData);
        assert(feature@.functions[3].0 == Function::HvacSystemFunctionListData);
        crate::assoc::lemma_place_is(
            feature@.functions,
            Function::HvacSystemFunctionListData,
            3,
        );
    }
    let moded = feature.with_function(
        Function::HvacSystemFunctionListData,
        Operations::read_write(),
    );
    if !overrun {
        assert(moded@.functions =~= hvac_functions(false, writing()));
        return moded;
    }
    proof {
        assert(moded@.functions[5].0 == Function::HvacOverrunListData);
        crate::assoc::lemma_place_is(moded@.functions, Function::HvacOverrunListData, 5);
    }
    let extended = moded.with_function(Function::HvacOverrunListData, Operations::read_write());
    assert(extended@.functions =~= hvac_functions(true, writing()));
    extended
}

/// The same feature, also carrying the relations between modes and setpoints.
pub fn with_setpoint_relations(feature: LocalFeature) -> (r: LocalFeature)
    ensures
        r@ == feature@.with(Function::HvacSystemFunctionSetpointRelationListData, reading()),
{
    feature.with_function(
        Function::HvacSystemFunctionSetpointRelationListData,
        Operations::read(),
    )
}

/// A description of one system function.
pub open spec fn function_entry(
    id: HvacSystemFunctionId,
    kind: HvacSystemFunctionType,
) -> HvacSystemFunctionDescriptionData {
    HvacSystemFunctionDescriptionData {
        system_function_id: Some(id),
        system_function_type: Some(kind),
    }
}

/// The description of one system function, as a payload.
pub open spec fn description_payload(
    id: HvacSystemFunctionId,
    kind: HvacSystemFunctionType,
) -> Payload {
    Payload::HvacSystemFunctionDescriptionListData(Some(seq![function_entry(id, kind)]))
}

/// The description of one system function.
pub fn description(id: HvacSystemFunctionId, kind: HvacSystemFunctionType) -> (r: CmdData)
    ensures
        r@ == description_payload(id, kind),
{
    let entries = vec![
        HvacSystemFunctionDescriptionData {
            system_function_id: Some(id),
            system_function_type: Some(kind),
        },
    ];
    assert(entries@ =~= seq![function_entry(id, kind)]);
    CmdData::HvacSystemFunctionDescriptionListData(
        HvacSystemFunctionDescriptionListData {
            hvac_system_function_description_data: Some(entries),
        },
    )
}

/// The descriptions of several system functions of one device.
pub fn descriptions(functions: &Vec<(HvacSystemFunctionId, HvacSystemFunctionType)>) -> (r:
    CmdData)
    ensures
        r@ == Payload::HvacSystemFunctionDescriptionListData(
            Some(
                functions@.map_values(
                    |function: (HvacSystemFunctionId, HvacSystemFunctionType)|
                        function_entry(function.0, function.1),
                ),
            ),
        ),
{
    let ghost image = |function: (HvacSystemFunctionId, HvacSystemFunctionType)|
        function_entry(function.0, function.1);
    let mut entries: Vec<HvacSystemFunctionDescriptionData> = Vec::new();
    let mut i: usize = 0;
    while i < functions.len()
        invariant
            i <= functions@.len(),
            image == (|function: (HvacSystemFunctionId, HvacSystemFunctionType)|
                function_entry(function.0, function.1)),
            entries@ =~= functions@.take(i as int).map_values(image),
        decreases functions@.len() - i,
    {
        proof {
            lemma_take_next(functions@, i as int);
        }
        entries.push(
            HvacSystemFunctionDescriptionData {
                system_function_id: Some(functions[i].0),
                system_function_type: Some(functions[i].1),
            },
        );
        i = i + 1;
    }
    assert(functions@.take(i as int) =~= functions@);
    CmdData::HvacSystemFunctionDescriptionListData(
        HvacSystemFunctionDescriptionListData {
            hvac_system_function_description_data: Some(entries),
        },
    )
}

/// Whether all these modes have an identifier of ours.
pub open spec fn all_numbered(modes: Seq<HvacOperationModeType>) -> bool {
    forall|i: int| 0 <= i < modes.len() ==> own_mode_id(#[trigger] modes[i]) is Some
}

/// The identifiers of modes.
pub open spec fn mode_ids(modes: Seq<HvacOperationModeType>) -> Seq<HvacOperationModeId> {
    modes.map_values(|kind: HvacOperationModeType| own_mode_id(kind)->0)
}

/// The descriptions of modes.
pub open spec fn mode_entries(modes: Seq<HvacOperationModeType>) -> Seq<
    HvacOperationModeDescriptionData,
> {
    modes.map_values(
        |kind: HvacOperationModeType|
            HvacOperationModeDescriptionData {
                operation_mode_id: own_mode_id(kind),
                operation_mode_type: Some(kind),
            },
    )
}

/// The content of an optional payload.
pub open spec fn payload_of(data: Option<CmdData>) -> Option<Payload> {
    match data {
        Some(data) => Some(data@),
        None => None,
    }
}

/// The description of the modes of a device: none for fewer than two, or where a mode is not one
/// of the four.
pub open spec fn mode_descriptions_payload(modes: Seq<HvacOperationModeType>) -> Option<Payload> {
    if modes.len() >= 2 && all_numbered(modes) {
        Some(Payload::HvacOperationModeDescriptionListData(Some(mode_entries(modes))))
    } else {
        None
    }
}

/// The description of the modes of a device: none for fewer than two, or where a mode is not one
/// of the four.
pub fn operation_mode_descriptions(modes: &[HvacOperationModeType]) -> (r: Option<CmdData>)
    ensures
        payload_of(r) == mode_descriptions_payload(modes@),
{
    if modes.len() < 2 {
        return None;
    }
    let mut entries: Vec<HvacOperationModeDescriptionData> = Vec::new();
    let mut i: usize = 0;
    while i < modes.len()
        invariant
            i <= modes@.len(),
            entries@ =~= mode_entries(modes@.take(i as int)),
            all_numbered(modes@.take(i as int)),
        decreases modes@.len() - i,
    {
        proof {
            lemma_take_next(modes@, i as int);
        }
        match operation_mode_id(&modes[i]) {
            Some(id) => {
                entries.push(
                    HvacOperationModeDescriptionData {
                        operation_mode_id: Some(id),
                        operation_mode_type: Some(modes[i]),
                    },
                );
            },
            None => {
                assert(own_mode_id(modes@[i as int]) is None);
                return None;
            },
        }
        i = i + 1;
    }
    assert(modes@.take(i as int) =~= modes@);
    Some(
        CmdData::HvacOperationModeDescriptionListData(
            HvacOperationModeDescriptionListData {
                hvac_operation_mode_description_data: Some(entries),
            },
        ),
    )
}

/// The identifiers of modes, if all of them have one.
fn number_modes(modes: &[HvacOperationModeType]) -> (r: Option<Vec<HvacOperationModeId>>)
    ensures
        match r {
            Some(ids) => all_numbered(modes@) && ids@ == mode_ids(modes@),
            None => !all_numbered(modes@),
        },
{
    let mut ids: Vec<HvacOperationModeId> = Vec::new();
    let mut i: usize = 0;
    while i < modes.len()
        invariant
            i <= modes@.len(),
            ids@ =~= mode_ids(modes@.take(i as int)),
            all_numbered(modes@.take(i as int)),
        decreases modes@.len() - i,
    {
        proof {
            lemma_take_next(modes@, i as int);
        }
        match operation_mode_id(&modes[i]) {
            Some(id) => {
                ids.push(id);
            },
            None => {
                assert(own_mode_id(modes@[i as int]) is None);
                return None;
            },
        }
        i = i + 1;
    }
    assert(modes@.take(i as int) =~= modes@);
    Some(ids)
}

/// Which modes a system function has: none for fewer than two, or where a mode is not one of the
/// four.
pub open spec fn mode_relations_payload(
    function: HvacSystemFunctionId,
    modes: Seq<HvacOperationModeType>,
) -> Option<Payload> {
    if modes.len() >= 2 && all_numbered(modes) {
        Some(
            Payload::HvacSystemFunctionOperationModeRelationListData(
                Some(seq![relation_entry(function, modes)]),
            ),
        )
    } else {
        None
    }
}

/// One relation between a system function and its modes.
pub open spec fn relation_entry(
    function: HvacSystemFunctionId,
    modes: Seq<HvacOperationModeType>,
) -> ModeRelationEntry {
    ModeRelationEntry {
        system_function_id: Some(function),
        operation_mode_id: Some(mode_ids(modes)),
    }
}

/// Which modes a system function has: none for fewer than two, or where a mode is not one of the
/// four.
pub fn operation_mode_relations(
    function: HvacSystemFunctionId,
    modes: &[HvacOperationModeType],
) -> (r: Option<CmdData>)
    ensures
        payload_of(r) == mode_relations_payload(function, modes@),
{
    if modes.len() < 2 {
        return None;
    }
    let ids = match number_modes(modes) {
        Some(ids) => ids,
        None => return None,
    };
    let entries = vec![
        HvacSystemFunctionOperationModeRelationData {
            system_function_id: Some(function),
            operation_mode_id: Some(ids),
        },
    ];
    assert(listed_views(Some(entries))->0 =~= seq![relation_entry(function, modes@)]);
    Some(
        CmdData::HvacSystemFunctionOperationModeRelationListData(
            HvacSystemFunctionOperationModeRelationListData {
                hvac_system_function_operation_mode_relation_data: Some(entries),
            },
        ),
    )
}

/// A system function and the modes it has.
pub type FunctionModes = (HvacSystemFunctionId, Vec<HvacOperationModeType>);

/// Whether every function has at least two modes, all of the four.
pub open spec fn all_relatable(functions: Seq<FunctionModes>) -> bool {
    forall|i: int|
        0 <= i < functions.len() ==> (#[trigger] functions[i]).1@.len() >= 2 && all_numbered(
            functions[i].1@,
        )
}

/// The relations of several system functions.
pub open spec fn relation_entries(functions: Seq<FunctionModes>) -> Seq<ModeRelationEntry> {
    functions.map_values(|function: FunctionModes| relation_entry(function.0, function.1@))
}

/// Which modes several system functions of one device have: none where one has fewer than two,
/// or a mode that is not one of the four.
pub fn operation_mode_relations_of(functions: &Vec<FunctionModes>) -> (r: Option<CmdData>)
    ensures
        payload_of(r) == if all_relatable(functions@) {
            Some(
                Payload::HvacSystemFunctionOperationModeRelationListData(
                    Some(relation_entries(functions@)),
                ),
            )
        } else {
            None
        },
{
    let mut entries: Vec<HvacSystemFunctionOperationModeRelationData> = Vec::new();
    let ghost image = |entry: HvacSystemFunctionOperationModeRelationData| entry@;
    let mut i: usize = 0;
    while i < functions.len()
        invariant
            i <= functions@.len(),
            image == (|entry: HvacSystemFunctionOperationModeRelationData| entry@),
            entries@.map_values(image) =~= relation_entries(functions@.take(i as int)),
            all_relatable(functions@.take(i as int)),
        decreases functions@.len() - i,
    {
        proof {
            lemma_take_next(functions@, i as int);
        }
        if functions[i].1.len() < 2 {
            assert(functions@[i as int].1@.len() < 2);
            return None;
        }
        match number_modes(functions[i].1.as_slice()) {
            Some(ids) => {
                let ghost had = entries@;
                entries.push(
                    HvacSystemFunctionOperationModeRelationData {
                        system_function_id: Some(functions[i].0),
                        operation_mode_id: Some(ids),
                    },
                );
                assert(entries@.map_values(image) =~= had.map_values(image).push(
                    relation_entry(functions@[i as int].0, functions@[i as int].1@),
                ));
            },
            None => {
                assert(!all_numbered(functions@[i as int].1@));
                return None;
            },
        }
        i = i + 1;
    }
    assert(functions@.take(i as int) =~= functions@);
    assert(listed_views(Some(entries))->0 =~= relation_entries(functions@));
    Some(
        CmdData::HvacSystemFunctionOperationModeRelationListData(
            HvacSystemFunctionOperationModeRelationListData {
                hvac_system_function_operation_mode_relation_data: Some(entries),
            },
        ),
    )
}

/// The state of a system function.
pub open spec fn state_entry(
    function: HvacSystemFunctionId,
    current: HvacOperationModeId,
    overrun_active: bool,
    changeable: Option<bool>,
) -> HvacSystemFunctionData {
    HvacSystemFunctionData {
        system_function_id: Some(function),
        current_operation_mode_id: Some(current),
        is_operation_mode_id_changeable: changeable,
        is_overrun_active: Some(overrun_active),
    }
}

/// The state of one system function, as a payload.
pub open spec fn state_payload(
    function: HvacSystemFunctionId,
    current: HvacOperationModeId,
    overrun_active: bool,
    changeable: Option<bool>,
) -> Payload {
    Payload::HvacSystemFunctionListData(
        Some(seq![state_entry(function, current, overrun_active, changeable)]),
    )
}

/// The mode a system function is in, whether an overrun is overriding it, and whether it can be
/// changed.
pub fn state(
    function: HvacSystemFunctionId,
    current: HvacOperationModeId,
    overrun_active: bool,
    changeable: Option<bool>,
) -> (r: CmdData)
    ensures
        r@ == state_payload(function, current, overrun_active, changeable),
{
    let entries = vec![
        HvacSystemFunctionData {
            system_function_id: Some(function),
            current_operation_mode_id: Some(current),
            is_operation_mode_id_changeable: changeable,
            is_overrun_active: Some(overrun_active),
        },
    ];
    assert(entries@ =~= seq![state_entry(function, current, overrun_active, changeable)]);
    CmdData::HvacSystemFunctionListData(
        HvacSystemFunctionListData { hvac_system_function_data: Some(entries) },
    )
}

/// A system function, the mode it is in, whether an overrun is overriding it, and whether the
/// mode can be changed.
pub type StateOfFunction = (HvacSystemFunctionId, HvacOperationModeId, bool, Option<bool>);

/// The states of several system functions of one device.
pub fn states(functions: &Vec<StateOfFunction>) -> (r: CmdData)
    ensures
        r@ == Payload::HvacSystemFunctionListData(
            Some(
                functions@.map_values(
                    |function: StateOfFunction|
                        state_entry(function.0, function.1, function.2, function.3),
                ),
            ),
        ),
{
    let ghost image = |function: StateOfFunction|
        state_entry(function.0, function.1, function.2, function.3);
    let mut entries: Vec<HvacSystemFunctionData> = Vec::new();
    let mut i: usize = 0;
    while i < functions.len()
        invariant
            i <= functions@.len(),
            image == (|function: StateOfFunction|
                state_entry(function.0, function.1, function.2, function.3)),
            entries@ =~= functions@.take(i as int).map_values(image),
        decreases functions@.len() - i,
    {
        proof {
            lemma_take_next(functions@, i as int);
        }
        entries.push(
            HvacSystemFunctionData {
                system_function_id: Some(functions[i].0),
                current_operation_mode_id: Some(functions[i].1),
                is_operation_mode_id_changeable: functions[i].3,
                is_overrun_active: Some(functions[i].2),
            },
        );
        i = i + 1;
    }
    assert(functions@.take(i as int) =~= functions@);
    CmdData::HvacSystemFunctionListData(
        HvacSystemFunctionListData { hvac_system_function_data: Some(entries) },
    )
}

/// The description of one overrun, as a payload.
pub open spec fn overrun_description_payload(
    id: HvacOverrunId,
    kind: HvacOverrunType,
    affects: Seq<HvacSystemFunctionId>,
) -> Payload {
    Payload::HvacOverrunDescriptionListData(
        Some(
            seq![
                OverrunEntry {
                    overrun_id: Some(id),
                    overrun_type: Some(kind),
                    affected_system_function_id: Some(affects),
                },
            ],
        ),
    )
}

/// The description of one overrun, and of the system functions it affects.
pub fn overrun_description(
    id: HvacOverrunId,
    kind: HvacOverrunType,
    affects: &Vec<HvacSystemFunctionId>,
) -> (r: CmdData)
    ensures
        r@ == overrun_description_payload(id, kind, affects@),
{
    let entries = vec![
        HvacOverrunDescriptionData {
            overrun_id: Some(id),
            overrun_type: Some(kind),
            affected_system_function_id: Some(copy_list(affects)),
        },
    ];
    assert(listed_views(Some(entries))->0 =~= seq![
        OverrunEntry {
            overrun_id: Some(id),
            overrun_type: Some(kind),
            affected_system_function_id: Some(affects@),
        },
    ]);
    CmdData::HvacOverrunDescriptionListData(
        HvacOverrunDescriptionListData { hvac_overrun_description_data: Some(entries) },
    )
}

/// The state of one overrun, as a payload.
pub open spec fn overrun_state_payload(id: HvacOverrunId, status: HvacOverrunStatus) -> Payload {
    Payload::HvacOverrunListData(
        Some(seq![HvacOverrunData { overrun_id: Some(id), overrun_status: Some(status) }]),
    )
}

/// The state of one overrun.
pub fn overrun_state(id: HvacOverrunId, status: HvacOverrunStatus) -> (r: CmdData)
    ensures
        r@ == overrun_state_payload(id, status),
{
    let entries = vec![HvacOverrunData { overrun_id: Some(id), overrun_status: Some(status) }];
    assert(entries@ =~= seq![
        HvacOverrunData { overrun_id: Some(id), overrun_status: Some(status) },
    ]);
    CmdData::HvacOverrunListData(HvacOverrunListData { hvac_overrun_data: Some(entries) })
}

/// A state in which an overrun can rest. That it has finished is an announcement, and no state.
#[derive(Clone, Copy, Debug, PartialEq, Eq, Structural)]
pub enum OverrunReport {
    /// It was started.
    Active,
    /// It is under way.
    Running,
    /// It is not under way.
    Inactive,
}

impl OverrunReport {
    /// The status to publish.
    pub open spec fn status(self) -> HvacOverrunStatus {
        match self {
            OverrunReport::Active => HvacOverrunStatus::Active,
            OverrunReport::Running => HvacOverrunStatus::Running,
            OverrunReport::Inactive => HvacOverrunStatus::Inactive,
        }
    }

    /// The state that a status leaves behind, and whether it announces the end of an overrun.
    pub open spec fn of(status: HvacOverrunStatus) -> Option<(OverrunReport, bool)> {
        match status {
            HvacOverrunStatus::Active => Some((OverrunReport::Active, false)),
            HvacOverrunStatus::Running => Some((OverrunReport::Running, false)),
            HvacOverrunStatus::Inactive => Some((OverrunReport::Inactive, false)),
            HvacOverrunStatus::Finished => Some((OverrunReport::Inactive, true)),
            HvacOverrunStatus::Other(_) => None,
        }
    }

    /// The status to publish.
    pub fn as_status(self) -> (r: HvacOverrunStatus)
        ensures
            r == self.status(),
            OverrunReport::of(r) == Some((self, false)),
    {
        match self {
            OverrunReport::Active => HvacOverrunStatus::Active,
            OverrunReport::Running => HvacOverrunStatus::Running,
            OverrunReport::Inactive => HvacOverrunStatus::Inactive,
        }
    }

    /// The state that a status leaves behind, and whether it announces the end of an overrun.
    pub fn read(status: &HvacOverrunStatus) -> (r: Option<(OverrunReport, bool)>)
        ensures
            r == OverrunReport::of(*status),
    {
        match status {
            HvacOverrunStatus::Active => Some((OverrunReport::Active, false)),
            HvacOverrunStatus::Running => Some((OverrunReport::Running, false)),
            HvacOverrunStatus::Inactive => Some((OverrunReport::Inactive, false)),
            HvacOverrunStatus::Finished => Some((OverrunReport::Inactive, true)),
            HvacOverrunStatus::Other(_) => None,
        }
    }
}

/// A write of the mode, and of nothing else.
pub open spec fn set_mode_payload(
    function: HvacSystemFunctionId,
    mode: HvacOperationModeId,
) -> Payload {
    Payload::HvacSystemFunctionListData(
        Some(
            seq![
                HvacSystemFunctionData {
                    system_function_id: Some(function),
                    current_operation_mode_id: Some(mode),
                    is_operation_mode_id_changeable: None,
                    is_overrun_active: None,
                },
            ],
        ),
    )
}

/// A write of the mode, and of nothing else.
pub fn set_operation_mode(function: HvacSystemFunctionId, mode: HvacOperationModeId) -> (r:
    CmdData)
    ensures
        r@ == set_mode_payload(function, mode),
{
    let entries = vec![
        HvacSystemFunctionData {
            system_function_id: Some(function),
            current_operation_mode_id: Some(mode),
            is_operation_mode_id_changeable: None,
            is_overrun_active: None,
        },
    ];
    assert(set_mode_payload(function, mode)->HvacSystemFunctionListData_0->Some_0 =~= entries@);
    CmdData::HvacSystemFunctionListData(
        HvacSystemFunctionListData { hvac_system_function_data: Some(entries) },
    )
}

/// A write that starts an overrun.
pub fn start_overrun(id: HvacOverrunId) -> (r: CmdData)
    ensures
        r@ == overrun_state_payload(id, HvacOverrunStatus::Active),
{
    overrun_state(id, HvacOverrunStatus::Active)
}

/// A write that stops an overrun.
pub fn stop_overrun(id: HvacOverrunId) -> (r: CmdData)
    ensures
        r@ == overrun_state_payload(id, HvacOverrunStatus::Inactive),
{
    overrun_state(id, HvacOverrunStatus::Inactive)
}

/// Why a mode or overrun write is refused.
#[derive(Clone, Copy, Debug, PartialEq, Eq, Structural)]
pub enum ModeRefused {
    /// The peer has not said which system function this is.
    FunctionUnknown,
    /// The write names some other system function.
    NotAddressed,
    /// The system function does not have that operation mode.
    NotRelated,
    /// The peer says its operation mode is not changeable.
    NotChangeable,
    /// The peer has no overrun of this kind.
    NoOverrun,
}

impl ModeRefused {
    /// The number a refusal is answered with.
    pub open spec fn number(self) -> ErrorNumber {
        match self {
            ModeRefused::NotChangeable => ErrorNumber::CommandRejected,
            _ => ErrorNumber::DestinationUnknown,
        }
    }

    /// The refusal in words.
    pub open spec fn text(self) -> Seq<char> {
        match self {
            ModeRefused::FunctionUnknown =>
                "the peer has not said which system function this is"@,
            ModeRefused::NotAddressed => "this write names some other system function"@,
            ModeRefused::NotRelated =>
                "this system function does not have that operation mode"@,
            ModeRefused::NotChangeable =>
                "the peer says its operation mode is not changeable"@,
            ModeRefused::NoOverrun => "the peer has no overrun of this kind"@,
        }
    }

    /// The `errorNumber` a refusal is answered with.
    pub fn error_number(self) -> (r: ErrorNumber)
        ensures
            r == self.number(),
    {
        match self {
            ModeRefused::NotChangeable => ErrorNumber::CommandRejected,
            _ => ErrorNumber::DestinationUnknown,
        }
    }

    /// The refusal in words.
    pub fn message(self) -> (r: String)
        ensures
            r@ == self.text(),
    {
        match self {
            ModeRefused::FunctionUnknown => String::from_str(
                "the peer has not said which system function this is",
            ),
            ModeRefused::NotAddressed => String::from_str(
                "this write names some other system function",
            ),
            ModeRefused::NotRelated => String::from_str(
                "this system function does not have that operation mode",
            ),
            ModeRefused::NotChangeable => String::from_str(
                "the peer says its operation mode is not changeable",
            ),
            ModeRefused::NoOverrun => String::from_str("the peer has no overrun of this kind"),
        }
    }
}

/// What a write asks for.
#[derive(Clone, Copy, Debug, PartialEq, Eq, Structural)]
pub enum Request {
    /// Another mode.
    SetMode(HvacOperationModeId),
    /// The start of an overrun.
    StartOverrun(HvacOverrunId),
    /// The end of an overrun.
    StopOverrun(HvacOverrunId),
}

/// What is known of one system function's state.
#[derive(Clone, Copy, Debug, PartialEq, Eq, Structural)]
pub struct FunctionState {
    /// The mode it is in.
    pub current: Option<HvacOperationModeId>,
    /// Whether the mode can be changed.
    pub changeable: Option<bool>,
    /// Whether an overrun is overriding the mode.
    pub overrun_active: Option<bool>,
}

/// A reader of a system function as a mathematical value.
pub struct SystemFunctionView {
    /// The kind of function that is followed.
    pub kind: HvacSystemFunctionType,
    /// The kind of overrun that is followed, if any.
    pub overrun_type: Option<HvacOverrunType>,
    /// The identifier that the peer published the function under.
    pub function: Option<HvacSystemFunctionId>,
    /// The modes of the device.
    pub modes: Seq<(HvacOperationModeId, HvacOperationModeType)>,
    /// The modes of each function.
    pub related: Seq<(HvacSystemFunctionId, Seq<HvacOperationModeId>)>,
    /// The state of each function.
    pub states: Seq<(HvacSystemFunctionId, FunctionState)>,
    /// The overruns, with the functions each affects.
    pub overruns: Seq<(HvacOverrunId, (HvacOverrunType, Seq<HvacSystemFunctionId>))>,
    /// The state of each overrun, and whether it announced its end.
    pub overrun_states: Seq<(HvacOverrunId, (OverrunReport, bool))>,
}

/// A list that is left out has no elements.
pub open spec fn or_none<T>(list: Option<Seq<T>>) -> Seq<T> {
    match list {
        Some(elements) => elements,
        None => Seq::empty(),
    }
}

/// The modes of each function once relations are taken in, one after the other.
pub open spec fn relations_learned(
    known: Seq<(HvacSystemFunctionId, Seq<HvacOperationModeId>)>,
    entries: Seq<ModeRelationEntry>,
) -> Seq<(HvacSystemFunctionId, Seq<HvacOperationModeId>)>
    decreases entries.len(),
{
    if entries.len() == 0 {
        known
    } else {
        let before = relations_learned(known, entries.drop_last());
        let entry = entries.last();
        match entry.system_function_id {
            Some(id) => stored(before, id, or_none(entry.operation_mode_id)),
            None => before,
        }
    }
}

/// The state of each function once states are taken in, one after the other.
pub open spec fn states_learned(
    known: Seq<(HvacSystemFunctionId, FunctionState)>,
    entries: Seq<HvacSystemFunctionData>,
) -> Seq<(HvacSystemFunctionId, FunctionState)>
    decreases entries.len(),
{
    if entries.len() == 0 {
        known
    } else {
        let before = states_learned(known, entries.drop_last());
        let entry = entries.last();
        match entry.system_function_id {
            Some(id) => stored(
                before,
                id,
                FunctionState {
                    current: entry.current_operation_mode_id,
                    changeable: entry.is_operation_mode_id_changeable,
                    overrun_active: entry.is_overrun_active,
                },
            ),
            None => before,
        }
    }
}

/// The overruns once descriptions are taken in, one after the other.
pub open spec fn overruns_learned(
    known: Seq<(HvacOverrunId, (HvacOverrunType, Seq<HvacSystemFunctionId>))>,
    entries: Seq<OverrunEntry>,
) -> Seq<(HvacOverrunId, (HvacOverrunType, Seq<HvacSystemFunctionId>))>
    decreases entries.len(),
{
    if entries.len() == 0 {
        known
    } else {
        let before = overruns_learned(known, entries.drop_last());
        let entry = entries.last();
        match (entry.overrun_id, entry.overrun_type) {
            (Some(id), Some(kind)) => stored(
                before,
                id,
                (kind, or_none(entry.affected_system_function_id)),
            ),
            _ => before,
        }
    }
}

/// The state of each overrun once states are taken in, one after the other.
pub open spec fn overrun_states_learned(
    known: Seq<(HvacOverrunId, (OverrunReport, bool))>,
    entries: Seq<HvacOverrunData>,
) -> Seq<(HvacOverrunId, (OverrunReport, bool))>
    decreases entries.len(),
{
    if entries.len() == 0 {
        known
    } else {
        let before = overrun_states_learned(known, entries.drop_last());
        let entry = entries.last();
        match (entry.overrun_id, entry.overrun_status) {
            (Some(id), Some(status)) => match OverrunReport::of(status) {
                Some(report) => stored(before, id, report),
                None => before,
            },
            _ => before,
        }
    }
}

/// Picks out the overruns of one kind that affect a function; one that names no function affects
/// all.
pub open spec fn overrun_on(
    kind: HvacOverrunType,
    function: HvacSystemFunctionId,
) -> spec_fn((HvacOverrunId, (HvacOverrunType, Seq<HvacSystemFunctionId>))) -> bool {
    |entry: (HvacOverrunId, (HvacOverrunType, Seq<HvacSystemFunctionId>))|
        (entry.1).0 == kind && ((entry.1).1.len() == 0 || (entry.1).1.contains(function))
}

/// Picks out the entries for one function.
pub open spec fn state_of_function(function: HvacSystemFunctionId) -> spec_fn(
    HvacSystemFunctionData,
) -> bool {
    |entry: HvacSystemFunctionData| entry.system_function_id == Some(function)
}

/// Picks out the entries for one overrun.
pub open spec fn state_of_overrun(id: HvacOverrunId) -> spec_fn(HvacOverrunData) -> bool {
    |entry: HvacOverrunData| entry.overrun_id == Some(id)
}

impl SystemFunctionView {
    /// A reader that knows nothing yet.
    pub open spec fn following(
        kind: HvacSystemFunctionType,
        overrun_type: Option<HvacOverrunType>,
    ) -> SystemFunctionView {
        SystemFunctionView {
            kind,
            overrun_type,
            function: None,
            modes: Seq::empty(),
            related: Seq::empty(),
            states: Seq::empty(),
            overruns: Seq::empty(),
            overrun_states: Seq::empty(),
        }
    }

    /// Whether a payload belongs to a system function at all.
    pub open spec fn concerns(data: Payload) -> bool {
        ||| data is HvacOperationModeDescriptionListData
        ||| data is HvacSystemFunctionDescriptionListData
        ||| data is HvacSystemFunctionOperationModeRelationListData
        ||| data is HvacSystemFunctionListData
        ||| data is HvacOverrunDescriptionListData
        ||| data is HvacOverrunListData
    }

    /// The reader once a payload is taken in.
    pub open spec fn learned(self, data: Payload) -> SystemFunctionView {
        match data {
            Payload::HvacOperationModeDescriptionListData(_) => SystemFunctionView {
                modes: modes_learned(self.modes, data),
                ..self
            },
            Payload::HvacSystemFunctionDescriptionListData(_) => SystemFunctionView {
                function: match function_among(data, self.kind) {
                    Some(id) => Some(id),
                    None => self.function,
                },
                ..self
            },
            Payload::HvacSystemFunctionOperationModeRelationListData(list) => SystemFunctionView {
                related: relations_learned(self.related, entries_of(list)),
                ..self
            },
            Payload::HvacSystemFunctionListData(list) => SystemFunctionView {
                states: states_learned(self.states, entries_of(list)),
                ..self
            },
            Payload::HvacOverrunDescriptionListData(list) => SystemFunctionView {
                overruns: overruns_learned(self.overruns, entries_of(list)),
                ..self
            },
            Payload::HvacOverrunListData(list) => SystemFunctionView {
                overrun_states: overrun_states_learned(self.overrun_states, entries_of(list)),
                ..self
            },
            _ => self,
        }
    }

    /// What is known of the function's state.
    pub open spec fn state(self) -> Option<FunctionState> {
        match self.function {
            Some(function) => lookup(self.states, function),
            None => None,
        }
    }

    /// The mode the function is in.
    pub open spec fn mode_id(self) -> Option<HvacOperationModeId> {
        match self.state() {
            Some(state) => state.current,
            None => None,
        }
    }

    /// The mode the function is in, by its kind.
    pub open spec fn mode(self) -> Option<HvacOperationModeType> {
        match self.mode_id() {
            Some(id) => lookup(self.modes, id),
            None => None,
        }
    }

    /// Whether the mode can be changed.
    pub open spec fn changeable(self) -> Option<bool> {
        match self.state() {
            Some(state) => state.changeable,
            None => None,
        }
    }

    /// Whether an overrun is overriding the mode.
    pub open spec fn overrun_active(self) -> Option<bool> {
        match self.state() {
            Some(state) => state.overrun_active,
            None => None,
        }
    }

    /// The modes the function has.
    pub open spec fn related_modes(self) -> Seq<HvacOperationModeId> {
        match self.function {
            Some(function) => or_none(lookup(self.related, function)),
            None => Seq::empty(),
        }
    }

    /// The overrun of the wanted kind that affects the function.
    pub open spec fn overrun_id(self) -> Option<HvacOverrunId> {
        match (self.function, self.overrun_type) {
            (Some(function), Some(kind)) => match first(
                self.overruns,
                overrun_on(kind, function),
            ) {
                Some(entry) => Some(entry.0),
                None => None,
            },
            _ => None,
        }
    }

    /// The state of that overrun, and whether it announced its end.
    pub open spec fn overrun_report(self) -> Option<(OverrunReport, bool)> {
        match self.overrun_id() {
            Some(id) => lookup(self.overrun_states, id),
            None => None,
        }
    }

    /// Whether the function can be named, has modes to change between, and is in one.
    pub open spec fn complete(self) -> bool {
        self.function is Some && self.modes.len() >= 2 && self.mode_id() is Some
    }

    /// Why the mode cannot be set to this one, if it cannot.
    pub open spec fn mode_refusal(self, mode: HvacOperationModeId) -> Option<ModeRefused> {
        if self.function is None {
            Some(ModeRefused::FunctionUnknown)
        } else if !self.related_modes().contains(mode) {
            Some(ModeRefused::NotRelated)
        } else if self.changeable() == Some(false) {
            Some(ModeRefused::NotChangeable)
        } else {
            None
        }
    }

    /// The write that sets the mode.
    pub open spec fn mode_write(self, mode: HvacOperationModeId) -> Result<Payload, ModeRefused> {
        match self.mode_refusal(mode) {
            Some(refusal) => Err(refusal),
            None => Ok(set_mode_payload(self.function->0, mode)),
        }
    }

    /// The write that sets the mode, by its kind.
    pub open spec fn named_mode_write(self, kind: HvacOperationModeType) -> Result<
        Payload,
        ModeRefused,
    > {
        match mode_id_of(self.modes, kind) {
            Some(id) => self.mode_write(id),
            None => Err(ModeRefused::NotRelated),
        }
    }

    /// The write that brings the overrun into a state.
    pub open spec fn overrun_write(self, status: HvacOverrunStatus) -> Result<
        Payload,
        ModeRefused,
    > {
        match self.overrun_id() {
            Some(id) => Ok(overrun_state_payload(id, status)),
            None => Err(ModeRefused::NoOverrun),
        }
    }

    /// What a write asks of this function, or why it is refused.
    pub open spec fn requested(self, fragment: Payload) -> Result<Request, ModeRefused> {
        match fragment {
            Payload::HvacSystemFunctionListData(list) => match self.function {
                Some(function) => match first(entries_of(list), state_of_function(function)) {
                    Some(entry) => match entry.current_operation_mode_id {
                        Some(mode) => match self.mode_refusal(mode) {
                            Some(refusal) => Err(refusal),
                            None => Ok(Request::SetMode(mode)),
                        },
                        None => Err(ModeRefused::NotRelated),
                    },
                    None => Err(ModeRefused::NotAddressed),
                },
                None => Err(ModeRefused::FunctionUnknown),
            },
            Payload::HvacOverrunListData(list) => match self.overrun_id() {
                Some(id) => match first(entries_of(list), state_of_overrun(id)) {
                    Some(entry) => match entry.overrun_status {
                        Some(HvacOverrunStatus::Active) => Ok(Request::StartOverrun(id)),
                        Some(HvacOverrunStatus::Running) => Ok(Request::StartOverrun(id)),
                        Some(HvacOverrunStatus::Inactive) => Ok(Request::StopOverrun(id)),
                        Some(_) => Err(ModeRefused::NoOverrun),
                        None => Err(ModeRefused::NotAddressed),
                    },
                    None => Err(ModeRefused::NotAddressed),
                },
                None => Err(ModeRefused::NoOverrun),
            },
            _ => Err(ModeRefused::NotAddressed),
        }
    }
}

/// The content of a write or a refusal.
pub open spec fn write_of(result: Result<CmdData, ModeRefused>) -> Result<Payload, ModeRefused> {
    match result {
        Ok(data) => Ok(data@),
        Err(refusal) => Err(refusal),
    }
}

/// The elements of a list.
pub open spec fn elements<T>() -> spec_fn(Vec<T>) -> Seq<T> {
    |list: Vec<T>| list@
}

/// The content of what is known of an overrun.
pub open spec fn overrun_content() -> spec_fn((HvacOverrunType, Vec<HvacSystemFunctionId>)) -> (
    HvacOverrunType,
    Seq<HvacSystemFunctionId>,
) {
    |overrun: (HvacOverrunType, Vec<HvacSystemFunctionId>)| (overrun.0, overrun.1@)
}

/// Follows one system function of a peer.
///
/// The payloads that describe it may arrive in any order; what each says is kept until the
/// others give it its meaning.
#[derive(Clone, Debug, PartialEq, Eq)]
pub struct SystemFunction {
    kind: HvacSystemFunctionType,
    overrun_type: Option<HvacOverrunType>,
    function: Option<HvacSystemFunctionId>,
    modes: OperationModes,
    related: Vec<(HvacSystemFunctionId, Vec<HvacOperationModeId>)>,
    states: Vec<(HvacSystemFunctionId, FunctionState)>,
    overruns: Vec<(HvacOverrunId, (HvacOverrunType, Vec<HvacSystemFunctionId>))>,
    overrun_states: Vec<(HvacOverrunId, (OverrunReport, bool))>,
}

impl View for SystemFunction {
    type V = SystemFunctionView;

    closed spec fn view(&self) -> SystemFunctionView {
        SystemFunctionView {
            kind: self.kind,
            overrun_type: self.overrun_type,
            function: self.function,
            modes: self.modes@,
            related: mapped(self.related@, elements()),
            states: self.states@,
            overruns: mapped(self.overruns@, overrun_content()),
            overrun_states: self.overrun_states@,
        }
    }
}

impl SystemFunction {
    /// Follows the hot water, and its one-time heating.
    pub fn dhw() -> (r: SystemFunction)
        ensures
            r@ == SystemFunctionView::following(
                HvacSystemFunctionType::Dhw,
                Some(HvacOverrunType::OneTimeDhw),
            ),
    {
        SystemFunction::new(HvacSystemFunctionType::Dhw, Some(HvacOverrunType::OneTimeDhw))
    }

    /// Follows the room heating.
    pub fn heating() -> (r: SystemFunction)
        ensures
            r@ == SystemFunctionView::following(HvacSystemFunctionType::Heating, None),
    {
        SystemFunction::new(HvacSystemFunctionType::Heating, None)
    }

    /// Follows the room cooling.
    pub fn cooling() -> (r: SystemFunction)
        ensures
            r@ == SystemFunctionView::following(HvacSystemFunctionType::Cooling, None),
    {
        SystemFunction::new(HvacSystemFunctionType::Cooling, None)
    }

    /// Follows a kind of function, and a kind of overrun on it.
    pub fn new(kind: HvacSystemFunctionType, overrun_type: Option<HvacOverrunType>) -> (r:
        SystemFunction)
        ensures
            r@ == SystemFunctionView::following(kind, overrun_type),
    {
        let r = SystemFunction {
            kind,
            overrun_type,
            function: None,
            modes: OperationModes::new(),
            related: Vec::new(),
            states: Vec::new(),
            overruns: Vec::new(),
            overrun_states: Vec::new(),
        };
        assert(r@.related =~= Seq::empty());
        assert(r@.overruns =~= Seq::empty());
        r
    }

    /// The kind of function that is followed.
    pub fn kind(&self) -> (r: &HvacSystemFunctionType)
        ensures
            *r == self@.kind,
    {
        &self.kind
    }

    /// Takes in a payload, and says whether it belongs to a system function at all.
    #[verifier::loop_isolation(false)]
    pub fn learn(&mut self, data: &CmdData) -> (r: bool)
        ensures
            r == SystemFunctionView::concerns(data@),
            final(self)@ == old(self)@.learned(data@),
    {
        if self.modes.learn(data) {
            return true;
        }
        let ghost before = self@;
        match data {
            CmdData::HvacSystemFunctionDescriptionListData(_) => {
                if let Some(id) = find_system_function(data, &self.kind) {
                    self.function = Some(id);
                }
                true
            },
            CmdData::HvacSystemFunctionOperationModeRelationListData(list) => {
                if let Some(entries) = &list.hvac_system_function_operation_mode_relation_data {
                    let ghost views = listed_views(Some(*entries))->0;
                    let mut i: usize = 0;
                    assert(views.take(0) =~= Seq::empty());
                    while i < entries.len()
                        invariant
                            i <= entries@.len(),
                            self@ == (SystemFunctionView {
                                related: relations_learned(before.related, views.take(i as int)),
                                ..before
                            }),
                        decreases entries@.len() - i,
                    {
                        proof {
                            lemma_take_next(views, i as int);
                            assert(views[i as int] == entries@[i as int]@);
                        }
                        if let Some(id) = entries[i].system_function_id {
                            let modes = match &entries[i].operation_mode_id {
                                Some(modes) => copy_list(modes),
                                None => Vec::new(),
                            };
                            proof {
                                assert(modes@ =~= or_none(views[i as int].operation_mode_id));
                                lemma_mapped_store(self.related@, elements(), id, modes);
                            }
                            store(&mut self.related, id, modes);
                        }
                        i = i + 1;
                    }
                    assert(views.take(i as int) =~= views);
                }
                true
            },
            CmdData::HvacSystemFunctionListData(list) => {
                if let Some(entries) = &list.hvac_system_function_data {
                    let mut i: usize = 0;
                    assert(entries@.take(0) =~= Seq::empty());
                    while i < entries.len()
                        invariant
                            i <= entries@.len(),
                            self@ == (SystemFunctionView {
                                states: states_learned(before.states, entries@.take(i as int)),
                                ..before
                            }),
                        decreases entries@.len() - i,
                    {
                        proof {
                            lemma_take_next(entries@, i as int);
                        }
                        if let Some(id) = entries[i].system_function_id {
                            let found = FunctionState {
                                current: entries[i].current_operation_mode_id,
                                changeable: entries[i].is_operation_mode_id_changeable,
                                overrun_active: entries[i].is_overrun_active,
                            };
                            store(&mut self.states, id, found);
                        }
                        i = i + 1;
                    }
                    assert(entries@.take(i as int) =~= entries@);
                }
                true
            },
            CmdData::HvacOverrunDescriptionListData(list) => {
                if let Some(entries) = &list.hvac_overrun_description_data {
                    let ghost views = listed_views(Some(*entries))->0;
                    let mut i: usize = 0;
                    assert(views.take(0) =~= Seq::empty());
                    while i < entries.len()
                        invariant
                            i <= entries@.len(),
                            self@ == (SystemFunctionView {
                                overruns: overruns_learned(before.overruns, views.take(i as int)),
                                ..before
                            }),
                        decreases entries@.len() - i,
                    {
                        proof {
                            lemma_take_next(views, i as int);
                            assert(views[i as int] == entries@[i as int]@);
                        }
                        if let (Some(id), Some(kind)) = (
                            entries[i].overrun_id,
                            entries[i].overrun_type,
                        ) {
                            let affects = match &entries[i].affected_system_function_id {
                                Some(affects) => copy_list(affects),
                                None => Vec::new(),
                            };
                            proof {
                                assert(affects@ =~= or_none(
                                    views[i as int].affected_system_function_id,
                                ));
                                lemma_mapped_store(
                                    self.overruns@,
                                    overrun_content(),
                                    id,
                                    (kind, affects),
                                );
                            }
                            store(&mut self.overruns, id, (kind, affects));
                        }
                        i = i + 1;
                    }
                    assert(views.take(i as int) =~= views);
                }
                true
            },
            CmdData::HvacOverrunListData(list) => {
                if let Some(entries) = &list.hvac_overrun_data {
                    let mut i: usize = 0;
                    assert(entries@.take(0) =~= Seq::empty());
                    while i < entries.len()
                        invariant
                            i <= entries@.len(),
                            self@ == (SystemFunctionView {
                                overrun_states: overrun_states_learned(
                                    before.overrun_states,
                                    entries@.take(i as int),
                                ),
                                ..before
                            }),
                        decreases entries@.len() - i,
                    {
                        proof {
                            lemma_take_next(entries@, i as int);
                        }
                        if let (Some(id), Some(status)) = (
                            entries[i].overrun_id,
                            entries[i].overrun_status,
                        ) {
                            if let Some(report) = OverrunReport::read(&status) {
                                store(&mut self.overrun_states, id, report);
                            }
                        }
                        i = i + 1;
                    }
                    assert(entries@.take(i as int) =~= entries@);
                }
                true
            },
            _ => false,
        }
    }

    /// What is known of the function's state.
    fn state(&self) -> (r: Option<FunctionState>)
        ensures
            r == self@.state(),
    {
        match self.function {
            Some(function) => get(&self.states, function),
            None => None,
        }
    }

    /// The overrun of the wanted kind that affects the function.
    pub fn overrun_id(&self) -> (r: Option<HvacOverrunId>)
        ensures
            r == self@.overrun_id(),
    {
        let (function, kind) = match (self.function, self.overrun_type) {
            (Some(function), Some(kind)) => (function, kind),
            _ => return None,
        };
        let ghost wanted = |entry: (
            HvacOverrunId,
            (HvacOverrunType, Vec<HvacSystemFunctionId>),
        )| overrun_on(kind, function)((entry.0, overrun_content()(entry.1)));
        proof {
            lemma_mapped_first_index(
                self.overruns@,
                |entry: (HvacOverrunId, (HvacOverrunType, Vec<HvacSystemFunctionId>))|
                    (entry.0, overrun_content()(entry.1)),
                wanted,
                overrun_on(kind, function),
            );
        }
        let found = position(
            &self.overruns,
            |entry: &(HvacOverrunId, (HvacOverrunType, Vec<HvacSystemFunctionId>))| -> (b: bool)
                ensures
                    b == overrun_on(kind, function)((entry.0, overrun_content()(entry.1)))
                {
                    (entry.1).0 == kind && ((entry.1).1.len() == 0 || holds(&(entry.1).1, function))
                },
            Ghost(wanted),
        );
        match found {
            Some(index) => Some(self.overruns[index].0),
            None => None,
        }
    }

    /// The identifier that the peer published the function under.
    pub fn system_function(&self) -> (r: Option<HvacSystemFunctionId>)
        ensures
            r == self@.function,
    {
        self.function
    }

    /// The modes of the device.
    pub fn modes(&self) -> (r: &OperationModes)
        ensures
            r@ == self@.modes,
    {
        &self.modes
    }

    /// The mode the function is in, by its kind.
    pub fn mode(&self) -> (r: Option<HvacOperationModeType>)
        ensures
            r == self@.mode(),
    {
        match self.mode_id() {
            Some(id) => self.modes.kind_of(id),
            None => None,
        }
    }

    /// The mode the function is in.
    pub fn mode_id(&self) -> (r: Option<HvacOperationModeId>)
        ensures
            r == self@.mode_id(),
    {
        match self.state() {
            Some(state) => state.current,
            None => None,
        }
    }

    /// The modes the function has.
    pub fn related_modes(&self) -> (r: Vec<HvacOperationModeId>)
        ensures
            r@ == self@.related_modes(),
    {
        let none: Vec<HvacOperationModeId> = Vec::new();
        assert(none@ =~= Seq::empty());
        match self.function {
            Some(function) => {
                proof {
                    lemma_mapped_place(
                        self.related@,
                        elements::<HvacOperationModeId>(),
                        function,
                    );
                    lemma_place(self.related@, function);
                }
                match get_ref(&self.related, function) {
                    Some(modes) => copy_list(modes),
                    None => none,
                }
            },
            None => none,
        }
    }

    /// The modes the function has and the device described, each with its kind.
    pub fn available_modes(&self) -> (r: Vec<(HvacOperationModeId, HvacOperationModeType)>)
        ensures
            r@ == available(self@.related_modes(), self@.modes),
    {
        let related = self.related_modes();
        let mut found: Vec<(HvacOperationModeId, HvacOperationModeType)> = Vec::new();
        let mut i: usize = 0;
        assert(related@.take(0) =~= Seq::empty());
        while i < related.len()
            invariant
                i <= related@.len(),
                found@ == available(related@.take(i as int), self@.modes),
            decreases related@.len() - i,
        {
            proof {
                lemma_take_next(related@, i as int);
            }
            if let Some(kind) = self.modes.kind_of(related[i]) {
                found.push((related[i], kind));
            }
            i = i + 1;
        }
        assert(related@.take(i as int) =~= related@);
        found
    }

    /// The setpoints that the mode the function is in uses: what a temperature write reaches.
    pub fn current_setpoints(&self, setpoints: &Setpoints) -> (r: Vec<SetpointId>)
        ensures
            r@ == match (self@.function, self@.mode_id()) {
                (Some(function), Some(mode)) => setpoints@.for_mode(function, mode),
                _ => Seq::empty(),
            },
    {
        match (self.function, self.mode_id()) {
            (Some(function), Some(mode)) => setpoints.for_mode(function, mode),
            _ => {
                let none: Vec<SetpointId> = Vec::new();
                assert(none@ =~= Seq::empty());
                none
            },
        }
    }

    /// Whether an overrun is overriding the mode.
    pub fn overrun_active(&self) -> (r: Option<bool>)
        ensures
            r == self@.overrun_active(),
    {
        match self.state() {
            Some(state) => state.overrun_active,
            None => None,
        }
    }

    /// Whether the mode can be changed.
    pub fn mode_changeable(&self) -> (r: Option<bool>)
        ensures
            r == self@.changeable(),
    {
        match self.state() {
            Some(state) => state.changeable,
            None => None,
        }
    }

    /// The state that the overrun rests in.
    pub fn overrun(&self) -> (r: Option<OverrunReport>)
        ensures
            r == match self@.overrun_report() {
                Some((report, _)) => Some(report),
                None => None,
            },
    {
        match self.overrun_report() {
            Some((report, _)) => Some(report),
            None => None,
        }
    }

    /// The state of the overrun, and whether it announced its end.
    fn overrun_report(&self) -> (r: Option<(OverrunReport, bool)>)
        ensures
            r == self@.overrun_report(),
    {
        match self.overrun_id() {
            Some(id) => get(&self.overrun_states, id),
            None => None,
        }
    }

    /// Whether the last payload announced the end of the overrun.
    pub fn overrun_just_finished(&self) -> (r: bool)
        ensures
            r == (self@.overrun_report() matches Some((_, finished)) && finished),
    {
        match self.overrun_report() {
            Some((_, finished)) => finished,
            None => false,
        }
    }

    /// Whether the function can be named, has modes to change between, and is in one.
    pub fn is_complete(&self) -> (r: bool)
        ensures
            r == self@.complete(),
    {
        self.function.is_some() && self.modes.is_sufficient() && self.mode_id().is_some()
    }

    /// Why the mode cannot be set to this one, if it cannot.
    fn refuse_mode(&self, mode: HvacOperationModeId) -> (r: Option<ModeRefused>)
        ensures
            r == self@.mode_refusal(mode),
    {
        if self.function.is_none() {
            return Some(ModeRefused::FunctionUnknown);
        }
        if !holds(&self.related_modes(), mode) {
            return Some(ModeRefused::NotRelated);
        }
        match self.mode_changeable() {
            Some(false) => Some(ModeRefused::NotChangeable),
            _ => None,
        }
    }

    /// The write that sets the mode. A mode that the function does not have, or a function whose
    /// mode is fixed, is refused here rather than by the peer.
    pub fn set_mode(&self, mode: HvacOperationModeId) -> (r: Result<CmdData, ModeRefused>)
        ensures
            write_of(r) == self@.mode_write(mode),
    {
        match (self.refuse_mode(mode), self.function) {
            (Some(refusal), _) => Err(refusal),
            (None, Some(function)) => Ok(set_operation_mode(function, mode)),
            (None, None) => Err(ModeRefused::FunctionUnknown),
        }
    }

    /// The write that sets the mode, by its kind.
    pub fn set_mode_named(&self, kind: &HvacOperationModeType) -> (r: Result<CmdData, ModeRefused>)
        ensures
            write_of(r) == self@.named_mode_write(*kind),
    {
        match self.modes.id_of(kind) {
            Some(id) => self.set_mode(id),
            None => Err(ModeRefused::NotRelated),
        }
    }

    /// The write that starts the overrun.
    pub fn start_overrun(&self) -> (r: Result<CmdData, ModeRefused>)
        ensures
            write_of(r) == self@.overrun_write(HvacOverrunStatus::Active),
    {
        match self.overrun_id() {
            Some(id) => Ok(start_overrun(id)),
            None => Err(ModeRefused::NoOverrun),
        }
    }

    /// The write that stops the overrun.
    pub fn stop_overrun(&self) -> (r: Result<CmdData, ModeRefused>)
        ensures
            write_of(r) == self@.overrun_write(HvacOverrunStatus::Inactive),
    {
        match self.overrun_id() {
            Some(id) => Ok(stop_overrun(id)),
            None => Err(ModeRefused::NoOverrun),
        }
    }

    /// What a write asks of this function, or why it is refused.
    ///
    /// Give this what was sent rather than what it resolves to: the resolved list holds the
    /// other functions of the device too, and does not say which of them was written.
    pub fn apply(&self, fragment: &CmdData) -> (r: Result<Request, ModeRefused>)
        ensures
            r == self@.requested(fragment@),
    {
        match fragment {
            CmdData::HvacSystemFunctionListData(list) => {
                let function = match self.function {
                    Some(function) => function,
                    None => return Err(ModeRefused::FunctionUnknown),
                };
                match find_state(&list.hvac_system_function_data, function) {
                    Some(entry) => match entry.current_operation_mode_id {
                        Some(mode) => match self.refuse_mode(mode) {
                            Some(refusal) => Err(refusal),
                            None => Ok(Request::SetMode(mode)),
                        },
                        None => Err(ModeRefused::NotRelated),
                    },
                    None => Err(ModeRefused::NotAddressed),
                }
            },
            CmdData::HvacOverrunListData(list) => {
                let id = match self.overrun_id() {
                    Some(id) => id,
                    None => return Err(ModeRefused::NoOverrun),
                };
                match find_overrun(&list.hvac_overrun_data, id) {
                    Some(entry) => match entry.overrun_status {
                        Some(HvacOverrunStatus::Active) => Ok(Request::StartOverrun(id)),
                        Some(HvacOverrunStatus::Running) => Ok(Request::StartOverrun(id)),
                        Some(HvacOverrunStatus::Inactive) => Ok(Request::StopOverrun(id)),
                        Some(_) => Err(ModeRefused::NoOverrun),
                        None => Err(ModeRefused::NotAddressed),
                    },
                    None => Err(ModeRefused::NotAddressed),
                }
            },
            _ => Err(ModeRefused::NotAddressed),
        }
    }
}

/// The related modes that are described, each with its kind.
pub open spec fn available(
    related: Seq<HvacOperationModeId>,
    modes: Seq<(HvacOperationModeId, HvacOperationModeType)>,
) -> Seq<(HvacOperationModeId, HvacOperationModeType)>
    decreases related.len(),
{
    if related.len() == 0 {
        Seq::empty()
    } else {
        let before = available(related.drop_last(), modes);
        match lookup(modes, related.last()) {
            Some(kind) => before.push((related.last(), kind)),
            None => before,
        }
    }
}

/// The first entry for a function.
fn find_state(list: &Option<Vec<HvacSystemFunctionData>>, function: HvacSystemFunctionId) -> (r:
    Option<HvacSystemFunctionData>)
    ensures
        r == first(entries_of(listed(*list)), state_of_function(function)),
{
    match list {
        Some(entries) => {
            let found = position(
                entries,
                |entry: &HvacSystemFunctionData| -> (b: bool)
                    ensures
                        b == (entry.system_function_id == Some(function))
                    {
                        match entry.system_function_id {
                            Some(id) => id == function,
                            None => false,
                        }
                    },
                Ghost(state_of_function(function)),
            );
            match found {
                Some(index) => Some(entries[index]),
                None => None,
            }
        },
        None => {
            proof {
                lemma_no_first_index(
                    Seq::<HvacSystemFunctionData>::empty(),
                    state_of_function(function),
                );
            }
            None
        },
    }
}

/// The first entry for an overrun.
fn find_overrun(list: &Option<Vec<HvacOverrunData>>, id: HvacOverrunId) -> (r: Option<
    HvacOverrunData,
>)
    ensures
        r == first(entries_of(listed(*list)), state_of_overrun(id)),
{
    match list {
        Some(entries) => {
            let found = position(
                entries,
                |entry: &HvacOverrunData| -> (b: bool)
                    ensures
                        b == (entry.overrun_id == Some(id))
                    {
                        match entry.overrun_id {
                            Some(found) => found == id,
                            None => false,
                        }
                    },
                Ghost(state_of_overrun(id)),
            );
            match found {
                Some(index) => Some(entries[index]),
                None => None,
            }
        },
        None => {
            proof {
                lemma_no_first_index(Seq::<HvacOverrunData>::empty(), state_of_overrun(id));
            }
            None
        },
    }
}

} // verus!
