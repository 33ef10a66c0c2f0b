//! Temperature setpoints: what a server publishes about them, and how a client finds the one a
//! write takes effect on.

use super::system_function::{
    elements, or_none, payload_of, SystemFunction, SystemFunctionView,
};
use crate::assoc::{
    find, get, get_ref, holds, lemma_mapped_place, lemma_mapped_store, lemma_place, lookup, mapped,
    place_of, store, stored, Key,
};
use crate::model::{
    entries_of, listed_views, nearest_multiple, read_number, readable, round_to_multiple, CmdData,
    FeatureType, Function, HvacOperationModeId, HvacOperationModeType, HvacSystemFunctionId,
    HvacSystemFunctionSetpointRelationData, HvacSystemFunctionSetpointRelationListData,
    MeasurementId, Payload, Role, ScaledNumber, ScopeType, SetpointConstraintsData,
    SetpointConstraintsListData, SetpointData, SetpointDescriptionData, SetpointDescriptionListData,
    SetpointId, SetpointListData, SetpointRelationEntry, SetpointType, UnitOfMeasurement,
};
use crate::number::Number;
use crate::seqs::{
    copy_list, first, lemma_no_first_index, lemma_take_next, position, retain,
};
use crate::spine::{
    reading, writing, LocalFeature, LocalFeatureView, Operations, WriteBinding,
};
use crate::text::{append_value, decimal, decimal_text, value_text};
use core::ops::RangeInclusive;
use vstd::prelude::*;

verus! {

/// The units a temperature may be published in.
pub fn units() -> (r: [UnitOfMeasurement; 3])
    ensures
        r@ == seq![UnitOfMeasurement::DegC, UnitOfMeasurement::DegF, UnitOfMeasurement::K],
{
    let units = [UnitOfMeasurement::DegC, UnitOfMeasurement::DegF, UnitOfMeasurement::K];
    assert(units@ =~= seq![
        UnitOfMeasurement::DegC,
        UnitOfMeasurement::DegF,
        UnitOfMeasurement::K,
    ]);
    units
}

/// How few and how many setpoints an operation mode may use.
pub open spec fn permitted(mode: HvacOperationModeType) -> (usize, usize) {
    match mode {
        HvacOperationModeType::Auto => (1, 4),
        HvacOperationModeType::On => (1, 1),
        HvacOperationModeType::Eco => (1, 1),
        HvacOperationModeType::Off => (0, 1),
        HvacOperationModeType::Other(_) => (0, 4),
    }
}

/// How few and how many setpoints an operation mode may use.
pub fn permitted_setpoints(mode: &HvacOperationModeType) -> (r: RangeInclusive<usize>)
    ensures
        (r@.start, r@.end) == permitted(*mode),
        !r@.exhausted,
{
    match mode {
        HvacOperationModeType::Auto => RangeInclusive::new(1, 4),
        HvacOperationModeType::On => RangeInclusive::new(1, 1),
        HvacOperationModeType::Eco => RangeInclusive::new(1, 1),
        HvacOperationModeType::Off => RangeInclusive::new(0, 1),
        HvacOperationModeType::Other(_) => RangeInclusive::new(0, 4),
    }
}

/// An operation mode and the setpoints it uses.
pub type ModeRelation = (HvacOperationModeId, HvacOperationModeType, Vec<SetpointId>);

/// Whether a mode uses as many setpoints as it may.
pub open spec fn valid_count(mode: HvacOperationModeType, count: nat) -> bool {
    permitted(mode).0 <= count <= permitted(mode).1
}

/// Whether a relation between an operation mode and its setpoints is well formed.
pub fn relation_is_valid(mode: &HvacOperationModeType, setpoints: &[SetpointId]) -> (r: bool)
    ensures
        r == valid_count(*mode, setpoints@.len()),
{
    permitted_setpoints(mode).contains(&setpoints.len())
}

/// A feature that serves setpoints.
pub open spec fn setpoint_feature_view(address: u32) -> LocalFeatureView {
    LocalFeatureView {
        deferred_writes: true,
        write_binding: WriteBinding::NotRequired,
        ..LocalFeatureView::read_only(
            address,
            FeatureType::Setpoint,
            Role::Server,
            seq![
                (Function::SetpointDescriptionListData, reading()),
                (Function::SetpointConstraintsListData, reading()),
                (Function::SetpointListData, writing()),
            ],
        )
    }
}

/// Builds the `Setpoint` feature. The values alone can be written; each write is the
/// application's to decide, and needs no binding.
pub fn setpoint_feature(address: u32) -> (r: LocalFeature)
    ensures
        r@ == setpoint_feature_view(address),
{
    let feature = LocalFeature::new(
        address,
        FeatureType::Setpoint,
        Role::Server,
    ).with_deferred_writes().with_unbound_writes().with_function(
        Function::SetpointDescriptionListData,
        Operations::read(),
    ).with_function(
        Function::SetpointConstraintsListData,
        Operations::read(),
    ).with_function(Function::SetpointListData, Operations::read_write());
    proof {
        reveal_with_fuel(place_of, 4);
        assert(feature@.functions =~= setpoint_feature_view(address).functions);
    }
    feature
}

/// A feature that says which setpoint belongs to which mode, and nothing else.
pub open spec fn relation_feature_view(address: u32) -> LocalFeatureView {
    LocalFeatureView::read_only(
        address,
        FeatureType::HVAC,
        Role::Server,
        seq![(Function::HvacSystemFunctionSetpointRelationListData, reading())],
    )
}

/// Builds the `HVAC` feature that says which setpoint belongs to which operation mode.
pub fn hvac_feature(address: u32) -> (r: LocalFeature)
    ensures
        r@ == relation_feature_view(address),
{
    let feature = LocalFeature::new(address, FeatureType::HVAC, Role::Server).with_function(
        Function::HvacSystemFunctionSetpointRelationListData,
        Operations::read(),
    );
    assert(feature@.functions =~= relation_feature_view(address).functions);
    feature
}

/// The description of one setpoint.
pub open spec fn description_entry(
    id: SetpointId,
    scope: ScopeType,
    unit: UnitOfMeasurement,
    measurement: Option<MeasurementId>,
) -> SetpointDescriptionData {
    SetpointDescriptionData {
        setpoint_id: Some(id),
        measurement_id: measurement,
        setpoint_type: Some(SetpointType::ValueAbsolute),
        unit: Some(unit),
        scope_type: Some(scope),
    }
}

/// The description of one setpoint, as a payload.
pub open spec fn description_payload(
    id: SetpointId,
    scope: ScopeType,
    unit: UnitOfMeasurement,
    measurement: Option<MeasurementId>,
) -> Payload {
    Payload::SetpointDescriptionListData(
        Some(seq![description_entry(id, scope, unit, measurement)]),
    )
}

/// The description of one setpoint. The measurement is left out where none reports the same
/// temperature.
pub fn description(
    id: SetpointId,
    scope: ScopeType,
    unit: UnitOfMeasurement,
    measurement: Option<MeasurementId>,
) -> (r: CmdData)
    ensures
        r@ == description_payload(id, scope, unit, measurement),
{
    let entries = vec![
        SetpointDescriptionData {
            setpoint_id: Some(id),
            measurement_id: measurement,
            setpoint_type: Some(SetpointType::ValueAbsolute),
            unit: Some(unit),
            scope_type: Some(scope),
        },
    ];
    assert(entries@ =~= seq![description_entry(id, scope, unit, measurement)]);
    CmdData::SetpointDescriptionListData(
        SetpointDescriptionListData { setpoint_description_data: Some(entries) },
    )
}

/// A setpoint, its scope, its unit, and the measurement of the same temperature.
pub type DescribedSetpoint = (SetpointId, ScopeType, UnitOfMeasurement, Option<MeasurementId>);

/// The descriptions of several setpoints.
pub fn descriptions(setpoints: &Vec<DescribedSetpoint>) -> (r: CmdData)
    ensures
        r@ == Payload::SetpointDescriptionListData(
            Some(
                setpoints@.map_values(
                    |setpoint: DescribedSetpoint|
                        description_entry(setpoint.0, setpoint.1, setpoint.2, setpoint.3),
                ),
            ),
        ),
{
    let ghost image = |setpoint: DescribedSetpoint|
        description_entry(setpoint.0, setpoint.1, setpoint.2, setpoint.3);
    let mut entries: Vec<SetpointDescriptionData> = Vec::new();
    let mut i: usize = 0;
    while i < setpoints.len()
        invariant
            i <= setpoints@.len(),
            image == (|setpoint: DescribedSetpoint|
                description_entry(setpoint.0, setpoint.1, setpoint.2, setpoint.3)),
            entries@ =~= setpoints@.take(i as int).map_values(image),
        decreases setpoints@.len() - i,
    {
        proof {
            lemma_take_next(setpoints@, i as int);
        }
        entries.push(
            SetpointDescriptionData {
                setpoint_id: Some(setpoints[i].0),
                measurement_id: setpoints[i].3,
                setpoint_type: Some(SetpointType::ValueAbsolute),
                unit: Some(setpoints[i].2),
                scope_type: Some(setpoints[i].1),
            },
        );
        i = i + 1;
    }
    assert(setpoints@.take(i as int) =~= setpoints@);
    CmdData::SetpointDescriptionListData(
        SetpointDescriptionListData { setpoint_description_data: Some(entries) },
    )
}

/// What one setpoint accepts, to the tenth of a degree.
pub open spec fn constraints_entry(
    id: SetpointId,
    min: Number,
    max: Number,
    step: Option<Number>,
) -> SetpointConstraintsData {
    SetpointConstraintsData {
        setpoint_id: Some(id),
        setpoint_range_min: Some(ScaledNumber::encoded(min, 1)),
        setpoint_range_max: Some(ScaledNumber::encoded(max, 1)),
        setpoint_step_size: match step {
            Some(step) => Some(ScaledNumber::encoded(step, 1)),
            None => None,
        },
    }
}

/// What one setpoint accepts, to the tenth of a degree.
fn constrain(id: SetpointId, min: Number, max: Number, step: Option<Number>) -> (r:
    SetpointConstraintsData)
    ensures
        r == constraints_entry(id, min, max, step),
{
    SetpointConstraintsData {
        setpoint_id: Some(id),
        setpoint_range_min: Some(ScaledNumber::from_number(min, 1)),
        setpoint_range_max: Some(ScaledNumber::from_number(max, 1)),
        setpoint_step_size: match step {
            Some(step) => Some(ScaledNumber::from_number(step, 1)),
            None => None,
        },
    }
}

/// A setpoint, the least and the most it accepts, and its step.
pub type ConstrainedSetpoint = (SetpointId, Number, Number, Option<Number>);

/// What several setpoints accept.
pub fn constraints_of(setpoints: &Vec<ConstrainedSetpoint>) -> (r: CmdData)
    ensures
        r@ == Payload::SetpointConstraintsListData(
            Some(
                setpoints@.map_values(
                    |setpoint: ConstrainedSetpoint|
                        constraints_entry(setpoint.0, setpoint.1, setpoint.2, setpoint.3),
                ),
            ),
        ),
{
    let ghost image = |setpoint: ConstrainedSetpoint|
        constraints_entry(setpoint.0, setpoint.1, setpoint.2, setpoint.3);
    let mut entries: Vec<SetpointConstraintsData> = Vec::new();
    let mut i: usize = 0;
    while i < setpoints.len()
        invariant
            i <= setpoints@.len(),
            image == (|setpoint: ConstrainedSetpoint|
                constraints_entry(setpoint.0, setpoint.1, setpoint.2, setpoint.3)),
            entries@ =~= setpoints@.take(i as int).map_values(image),
        decreases setpoints@.len() - i,
    {
        proof {
            lemma_take_next(setpoints@, i as int);
        }
        entries.push(
            constrain(setpoints[i].0, setpoints[i].1, setpoints[i].2, setpoints[i].3),
        );
        i = i + 1;
    }
    assert(setpoints@.take(i as int) =~= setpoints@);
    CmdData::SetpointConstraintsListData(
        SetpointConstraintsListData { setpoint_constraints_data: Some(entries) },
    )
}

/// The value of one setpoint, to the tenth of a degree.
pub open spec fn value_entry(id: SetpointId, degrees: Number) -> SetpointData {
    SetpointData {
        setpoint_id: Some(id),
        value: Some(ScaledNumber::encoded(degrees, 1)),
        is_setpoint_changeable: Some(true),
    }
}

/// The values of several setpoints.
pub fn values(setpoints: &Vec<(SetpointId, Number)>) -> (r: CmdData)
    ensures
        r@ == Payload::SetpointListData(
            Some(
                setpoints@.map_values(
                    |setpoint: (SetpointId, Number)| value_entry(setpoint.0, setpoint.1),
                ),
            ),
        ),
{
    let ghost image = |setpoint: (SetpointId, Number)| value_entry(setpoint.0, setpoint.1);
    let mut entries: Vec<SetpointData> = Vec::new();
    let mut i: usize = 0;
    while i < setpoints.len()
        invariant
            i <= setpoints@.len(),
            image == (|setpoint: (SetpointId, Number)| value_entry(setpoint.0, setpoint.1)),
            entries@ =~= setpoints@.take(i as int).map_values(image),
        decreases setpoints@.len() - i,
    {
        proof {
            lemma_take_next(setpoints@, i as int);
        }
        entries.push(
            SetpointData {
                setpoint_id: Some(setpoints[i].0),
                value: Some(ScaledNumber::from_number(setpoints[i].1, 1)),
                is_setpoint_changeable: Some(true),
            },
        );
        i = i + 1;
    }
    assert(setpoints@.take(i as int) =~= setpoints@);
    CmdData::SetpointListData(SetpointListData { setpoint_data: Some(entries) })
}

/// What one setpoint accepts, as a payload.
pub open spec fn constraints_payload(
    id: SetpointId,
    min: Number,
    max: Number,
    step: Option<Number>,
) -> Payload {
    Payload::SetpointConstraintsListData(Some(seq![constraints_entry(id, min, max, step)]))
}

/// What one setpoint accepts.
pub fn constraints(id: SetpointId, min: Number, max: Number, step: Option<Number>) -> (r: CmdData)
    ensures
        r@ == constraints_payload(id, min, max, step),
{
    let entries = vec![constrain(id, min, max, step)];
    assert(entries@ =~= seq![constraints_entry(id, min, max, step)]);
    CmdData::SetpointConstraintsListData(
        SetpointConstraintsListData { setpoint_constraints_data: Some(entries) },
    )
}

/// The value of one setpoint, as a payload.
pub open spec fn value_payload(id: SetpointId, degrees: Number) -> Payload {
    Payload::SetpointListData(Some(seq![value_entry(id, degrees)]))
}

/// The value of one setpoint.
pub fn value(id: SetpointId, degrees: Number) -> (r: CmdData)
    ensures
        r@ == value_payload(id, degrees),
{
    let entries = vec![
        SetpointData {
            setpoint_id: Some(id),
            value: Some(ScaledNumber::from_number(degrees, 1)),
            is_setpoint_changeable: Some(true),
        },
    ];
    assert(entries@ =~= seq![value_entry(id, degrees)]);
    CmdData::SetpointListData(SetpointListData { setpoint_data: Some(entries) })
}

/// One relation between a mode of a function and its setpoints; a mode without setpoints leaves
/// the list out.
pub open spec fn relation_entry(
    function: HvacSystemFunctionId,
    relation: ModeRelation,
) -> SetpointRelationEntry {
    SetpointRelationEntry {
        system_function_id: Some(function),
        operation_mode_id: Some(relation.0),
        setpoint_id: if relation.2@.len() == 0 {
            None
        } else {
            Some(relation.2@)
        },
    }
}

/// Whether every mode uses as many setpoints as it may.
pub open spec fn all_valid(modes: Seq<ModeRelation>) -> bool {
    forall|i: int|
        0 <= i < modes.len() ==> valid_count(
            (#[trigger] modes[i]).1,
            modes[i].2@.len(),
        )
}

/// The relations of one function.
pub open spec fn relation_entries(
    function: HvacSystemFunctionId,
    modes: Seq<ModeRelation>,
) -> Seq<SetpointRelationEntry> {
    modes.map_values(|relation: ModeRelation| relation_entry(function, relation))
}

/// The contents of relations.
pub open spec fn relation_views(entries: Seq<HvacSystemFunctionSetpointRelationData>) -> Seq<
    SetpointRelationEntry,
> {
    entries.map_values(|entry: HvacSystemFunctionSetpointRelationData| entry@)
}

/// The relations of one function, as a payload; none where a mode uses more or fewer setpoints
/// than it may.
pub open spec fn relations_payload(
    function: HvacSystemFunctionId,
    modes: Seq<ModeRelation>,
) -> Option<Payload> {
    if all_valid(modes) {
        Some(
            Payload::HvacSystemFunctionSetpointRelationListData(
                Some(relation_entries(function, modes)),
            ),
        )
    } else {
        None
    }
}

/// Adds the relations of one function, if every mode uses as many setpoints as it may.
fn add_relations(
    entries: &mut Vec<HvacSystemFunctionSetpointRelationData>,
    function: HvacSystemFunctionId,
    modes: &[ModeRelation],
) -> (r: bool)
    ensures
        r == all_valid(modes@),
        r ==> relation_views(final(entries)@) == relation_views(old(entries)@)
            + relation_entries(function, modes@),
{
    let ghost before = entries@;
    let mut i: usize = 0;
    assert(relation_views(entries@) =~= relation_views(before) + relation_entries(
        function,
        modes@.take(0),
    ));
    while i < modes.len()
        invariant
            i <= modes@.len(),
            all_valid(modes@.take(i as int)),
            relation_views(entries@) == relation_views(before) + relation_entries(
                function,
                modes@.take(i as int),
            ),
        decreases modes@.len() - i,
    {
        proof {
            lemma_take_next(modes@, i as int);
        }
        let relation = &modes[i];
        if !relation_is_valid(&relation.1, relation.2.as_slice()) {
            assert(!valid_count(modes@[i as int].1, modes@[i as int].2@.len()));
            return false;
        }
        let setpoint_id = if relation.2.len() == 0 {
            None
        } else {
            Some(copy_list(&relation.2))
        };
        let ghost had = entries@;
        entries.push(
            HvacSystemFunctionSetpointRelationData {
                system_function_id: Some(function),
                operation_mode_id: Some(relation.0),
                setpoint_id,
            },
        );
        proof {
            assert(entries@.last()@ == relation_entry(function, modes@[i as int]));
            assert(relation_views(entries@) =~= relation_views(had).push(
                relation_entry(function, modes@[i as int]),
            ));
            assert(relation_views(entries@) =~= relation_views(before) + relation_entries(
                function,
                modes@.take(i + 1),
            ));
        }
        i = i + 1;
    }
    assert(modes@.take(i as int) =~= modes@);
    true
}

/// Which setpoints each mode of a function uses. Nothing is published where a mode uses more or
/// fewer than it may: a client could not tell which of them its write takes effect on.
pub fn relations(function: HvacSystemFunctionId, modes: &[ModeRelation]) -> (r: Option<CmdData>)
    ensures
        payload_of(r) == relations_payload(function, modes@),
{
    let mut entries: Vec<HvacSystemFunctionSetpointRelationData> = Vec::new();
    if !add_relations(&mut entries, function, modes) {
        return None;
    }
    assert(relation_views(entries@) =~= relation_entries(function, modes@));
    assert(listed_views(Some(entries))->0 =~= relation_views(entries@));
    Some(
        CmdData::HvacSystemFunctionSetpointRelationListData(
            HvacSystemFunctionSetpointRelationListData {
                hvac_system_function_setpoint_relation_data: Some(entries),
            },
        ),
    )
}

/// A system function and its relations.
pub type FunctionRelations = (HvacSystemFunctionId, Vec<ModeRelation>);

/// The relations of several functions, one after the other.
pub open spec fn all_relation_entries(functions: Seq<FunctionRelations>) -> Seq<
    SetpointRelationEntry,
>
    decreases functions.len(),
{
    if functions.len() == 0 {
        Seq::empty()
    } else {
        all_relation_entries(functions.drop_last()) + relation_entries(
            functions.last().0,
            functions.last().1@,
        )
    }
}

/// Whether every mode of every function uses as many setpoints as it may.
pub open spec fn all_functions_valid(functions: Seq<FunctionRelations>) -> bool {
    forall|i: int| 0 <= i < functions.len() ==> all_valid((#[trigger] functions[i]).1@)
}

/// Which setpoints each mode of several functions of one device uses.
pub fn relations_of(functions: &Vec<FunctionRelations>) -> (r: Option<CmdData>)
    ensures
        payload_of(r) == if all_functions_valid(functions@) {
            Some(
                Payload::HvacSystemFunctionSetpointRelationListData(
                    Some(all_relation_entries(functions@)),
                ),
            )
        } else {
            None
        },
{
    let mut entries: Vec<HvacSystemFunctionSetpointRelationData> = Vec::new();
    let mut i: usize = 0;
    assert(relation_views(entries@) =~= all_relation_entries(functions@.take(0)));
    while i < functions.len()
        invariant
            i <= functions@.len(),
            all_functions_valid(functions@.take(i as int)),
            relation_views(entries@) == all_relation_entries(functions@.take(i as int)),
        decreases functions@.len() - i,
    {
        proof {
            lemma_take_next(functions@, i as int);
        }
        if !add_relations(&mut entries, functions[i].0, functions[i].1.as_slice()) {
            assert(!all_valid(functions@[i as int].1@));
            return None;
        }
        i = i + 1;
    }
    assert(functions@.take(i as int) =~= functions@);
    assert(listed_views(Some(entries))->0 =~= relation_views(entries@));
    Some(
        CmdData::HvacSystemFunctionSetpointRelationListData(
            HvacSystemFunctionSetpointRelationListData {
                hvac_system_function_setpoint_relation_data: Some(entries),
            },
        ),
    )
}

/// Picks out the entries for one setpoint.
pub open spec fn value_of(id: SetpointId) -> spec_fn(SetpointData) -> bool {
    |entry: SetpointData| entry.setpoint_id == Some(id)
}

/// The temperature that a payload gives a setpoint.
pub open spec fn written_value(data: Payload, id: SetpointId) -> Option<Number> {
    match data {
        Payload::SetpointListData(list) => match first(entries_of(list), value_of(id)) {
            Some(entry) => readable(entry.value),
            None => None,
        },
        _ => None,
    }
}

/// Reads a payload as a temperature of this setpoint.
///
/// Give this the resolved state rather than a partial update: an element that is left out of an
/// update is unchanged.
pub fn read_write(data: &CmdData, id: SetpointId) -> (r: Option<Number>)
    ensures
        r == written_value(data@, id),
{
    match data {
        CmdData::SetpointListData(list) => match &list.setpoint_data {
            Some(entries) => {
                let found = position(
                    entries,
                    |entry: &SetpointData| -> (b: bool)
                        ensures
                            b == (entry.setpoint_id == Some(id))
                        {
                            match entry.setpoint_id {
                                Some(found) => found == id,
                                None => false,
                            }
                        },
                    Ghost(value_of(id)),
                );
                match found {
                    Some(index) => read_number(entries[index].value),
                    None => None,
                }
            },
            None => {
                proof {
                    lemma_no_first_index(Seq::<SetpointData>::empty(), value_of(id));
                }
                None
            },
        },
        _ => None,
    }
}

/// What a setpoint accepts.
#[derive(Clone, Copy, Debug, PartialEq, Eq, Structural)]
pub struct Constraints {
    /// The least.
    pub min: Number,
    /// The most.
    pub max: Number,
    /// The step, where there is one.
    pub step: Option<Number>,
}

impl Constraints {
    /// The step, where it is one.
    pub open spec fn effective_step(self) -> Option<Number> {
        match self.step {
            Some(step) if Number::Finite(0).below(step) => Some(step),
            _ => None,
        }
    }

    /// Whether a temperature lies in the range.
    pub open spec fn within(self, degrees: Number) -> bool {
        self.min.at_most(degrees) && degrees.at_most(self.max)
    }

    /// The nearest temperature that is a whole number of steps above the least, and in the range.
    pub open spec fn nearest(self, degrees: Number) -> Number {
        match self.effective_step() {
            None => degrees,
            Some(step) => match (self.min, step, degrees) {
                (Number::Finite(min), Number::Finite(step), Number::Finite(degrees)) =>
                    Number::saturated(min + nearest_multiple(degrees - min, step as int)).clamped(
                        self.min,
                        self.max,
                    ),
                (Number::Finite(_), Number::Finite(_), Number::PositiveInfinity) => self.max,
                (Number::Finite(_), Number::Finite(_), Number::NegativeInfinity) => self.min,
                _ => Number::NotANumber,
            },
        }
    }

    /// Whether a temperature lies in the range.
    pub fn permits(&self, degrees: Number) -> (r: bool)
        ensures
            r == self.within(degrees),
    {
        self.min.is_at_most(degrees) && degrees.is_at_most(self.max)
    }

    /// The nearest temperature that the setpoint can hold: a whole number of steps above the
    /// least, half a step going away from it, and in the range.
    pub fn rounded(&self, degrees: Number) -> (r: Number)
        requires
            self.effective_step() is Some ==> self.min.at_most(self.max),
        ensures
            r == self.nearest(degrees),
    {
        let step = match self.step {
            Some(step) => {
                if !Number::Finite(0).is_below(step) {
                    return degrees;
                }
                step
            },
            None => return degrees,
        };
        match (self.min, step, degrees) {
            (Number::Finite(min), Number::Finite(step), Number::Finite(degrees)) => {
                let above: i128 = (degrees as i128) - (min as i128);
                let steps: i128 = round_to_multiple(above, step as i128);
                Number::saturating((min as i128) + steps).clamp(self.min, self.max)
            },
            (Number::Finite(_), Number::Finite(_), Number::PositiveInfinity) => self.max,
            (Number::Finite(_), Number::Finite(_), Number::NegativeInfinity) => self.min,
            _ => Number::NotANumber,
        }
    }
}

/// What writing a setpoint would do.
#[derive(Clone, Copy, Debug, PartialEq, Eq, Structural)]
pub enum SetpointEffect {
    /// It takes effect.
    Effective,
    /// The mode the server is in does not use the setpoint: nothing changes.
    NotInCurrentMode,
    /// It takes effect once the overrun is over.
    OverriddenByOverrun,
    /// The mode, or what it uses, is not known.
    Unknown,
}

impl SetpointEffect {
    /// Whether a write takes effect now.
    pub fn is_effective(self) -> (r: bool)
        ensures
            r == (self is Effective),
    {
        match self {
            SetpointEffect::Effective => true,
            _ => false,
        }
    }
}

/// Why a temperature write is refused.
#[derive(Clone, Copy, Debug, PartialEq, Eq, Structural)]
pub enum WriteRefused {
    /// The server has published no such temperature setpoint in this scope.
    UnknownSetpoint,
    /// The server is in an operation mode that does not read this setpoint.
    NotInCurrentMode,
    /// Which operation mode the server is in is not known yet.
    ModeUnknown,
    /// The server has not published what this setpoint accepts.
    NoConstraints,
    /// The mode the server is in reads several setpoints, and which of them applies is the
    /// server's business.
    SeveralSetpoints {
        /// How many.
        count: usize,
    },
    /// The temperature is outside the range.
    OutOfRange {
        /// The temperature.
        degrees: Number,
        /// The least that is accepted.
        min: Number,
        /// The most that is accepted.
        max: Number,
    },
}

impl WriteRefused {
    /// The refusal in words.
    pub open spec fn text(self) -> Seq<char> {
        match self {
            WriteRefused::UnknownSetpoint =>
                "the server has published no such temperature setpoint in this scope"@,
            WriteRefused::NotInCurrentMode =>
                "the server is in an operation mode that does not read this setpoint"@,
            WriteRefused::ModeUnknown =>
                "which operation mode the server is in is not known yet"@,
            WriteRefused::NoConstraints =>
                "the server has not published what this setpoint accepts"@,
            WriteRefused::SeveralSetpoints { count } =>
                "the operation mode the server is in reads "@ + decimal(count as nat)
                    + " setpoints"@,
            WriteRefused::OutOfRange { degrees, min, max } => value_text(degrees)
                + " is outside the "@ + value_text(min) + "..="@ + value_text(max)
                + " the server accepts"@,
        }
    }

    /// The refusal in words.
    pub fn message(self) -> (r: String)
        ensures
            r@ == self.text(),
    {
        match self {
            WriteRefused::UnknownSetpoint => String::from_str(
                "the server has published no such temperature setpoint in this scope",
            ),
            WriteRefused::NotInCurrentMode => String::from_str(
                "the server is in an operation mode that does not read this setpoint",
            ),
            WriteRefused::ModeUnknown => String::from_str(
                "which operation mode the server is in is not known yet",
            ),
            WriteRefused::NoConstraints => String::from_str(
                "the server has not published what this setpoint accepts",
            ),
            WriteRefused::SeveralSetpoints { count } => {
                let mut text = String::from_str("the operation mode the server is in reads ");
                text.append(decimal_text(count as u64).as_str());
                text.append(" setpoints");
                text
            },
            WriteRefused::OutOfRange { degrees, min, max } => {
                let mut text = String::new();
                append_value(&mut text, degrees);
                text.append(" is outside the ");
                append_value(&mut text, min);
                text.append("..=");
                append_value(&mut text, max);
                text.append(" the server accepts");
                assert(text@ =~= self.text());
                text
            },
        }
    }
}

/// A mode of a system function.
#[derive(Clone, Copy, Debug, PartialEq, Eq, Structural)]
pub struct ModeKey {
    /// The system function.
    pub function: HvacSystemFunctionId,
    /// The mode.
    pub mode: HvacOperationModeId,
}

impl Key for ModeKey {
    fn same(self, other: ModeKey) -> (r: bool) {
        self == other
    }
}

/// A reader of setpoints as a mathematical value.
pub struct SetpointsView {
    /// The scope whose setpoints are collected.
    pub scope: ScopeType,
    /// The setpoints of the scope, with their units.
    pub temperatures: Seq<(SetpointId, Option<UnitOfMeasurement>)>,
    /// What each setpoint accepts.
    pub constraints: Seq<(SetpointId, Constraints)>,
    /// The value of each setpoint.
    pub values: Seq<(SetpointId, Number)>,
    /// The setpoints of each mode of each function.
    pub relations: Seq<(ModeKey, Seq<SetpointId>)>,
}

/// Picks out every other setpoint.
pub open spec fn other_setpoints(id: SetpointId) -> spec_fn(
    (SetpointId, Option<UnitOfMeasurement>),
) -> bool {
    |entry: (SetpointId, Option<UnitOfMeasurement>)| entry.0 != id
}

/// The setpoints of the scope once descriptions are taken in, one after the other. A setpoint
/// that is described with another scope is no longer one of them.
pub open spec fn temperatures_learned(
    scope: ScopeType,
    known: Seq<(SetpointId, Option<UnitOfMeasurement>)>,
    entries: Seq<SetpointDescriptionData>,
) -> Seq<(SetpointId, Option<UnitOfMeasurement>)>
    decreases entries.len(),
{
    if entries.len() == 0 {
        known
    } else {
        let before = temperatures_learned(scope, known, entries.drop_last());
        let entry = entries.last();
        match entry.setpoint_id {
            Some(id) => if entry.scope_type == Some(scope) {
                stored(before, id, entry.unit)
            } else {
                before.filter(other_setpoints(id))
            },
            None => before,
        }
    }
}

/// What each setpoint accepts once constraints are taken in, one after the other; those without a
/// readable range are passed over.
pub open spec fn constraints_learned(
    known: Seq<(SetpointId, Constraints)>,
    entries: Seq<SetpointConstraintsData>,
) -> Seq<(SetpointId, Constraints)>
    decreases entries.len(),
{
    if entries.len() == 0 {
        known
    } else {
        let before = constraints_learned(known, entries.drop_last());
        let entry = entries.last();
        match (
            entry.setpoint_id,
            readable(entry.setpoint_range_min),
            readable(entry.setpoint_range_max),
        ) {
            (Some(id), Some(min), Some(max)) => stored(
                before,
                id,
                Constraints { min, max, step: readable(entry.setpoint_step_size) },
            ),
            _ => before,
        }
    }
}

/// The value of each setpoint once values are taken in, one after the other; one that cannot be
/// read is passed over.
pub open spec fn values_learned(
    known: Seq<(SetpointId, Number)>,
    entries: Seq<SetpointData>,
) -> Seq<(SetpointId, Number)>
    decreases entries.len(),
{
    if entries.len() == 0 {
        known
    } else {
        let before = values_learned(known, entries.drop_last());
        let entry = entries.last();
        match (entry.setpoint_id, readable(entry.value)) {
            (Some(id), Some(value)) => stored(before, id, value),
            _ => before,
        }
    }
}

/// The setpoints of each mode once relations are taken in, one after the other.
pub open spec fn setpoint_relations_learned(
    known: Seq<(ModeKey, Seq<SetpointId>)>,
    entries: Seq<SetpointRelationEntry>,
) -> Seq<(ModeKey, Seq<SetpointId>)>
    decreases entries.len(),
{
    if entries.len() == 0 {
        known
    } else {
        let before = setpoint_relations_learned(known, entries.drop_last());
        let entry = entries.last();
        match (entry.system_function_id, entry.operation_mode_id) {
            (Some(function), Some(mode)) => stored(
                before,
                ModeKey { function, mode },
                or_none(entry.setpoint_id),
            ),
            _ => before,
        }
    }
}

impl SetpointsView {
    /// A reader that knows nothing yet.
    pub open spec fn collecting(scope: ScopeType) -> SetpointsView {
        SetpointsView {
            scope,
            temperatures: Seq::empty(),
            constraints: Seq::empty(),
            values: Seq::empty(),
            relations: Seq::empty(),
        }
    }

    /// Whether a payload belongs to setpoints at all.
    pub open spec fn concerns(data: Payload) -> bool {
        ||| data is SetpointDescriptionListData
        ||| data is SetpointConstraintsListData
        ||| data is SetpointListData
        ||| data is HvacSystemFunctionSetpointRelationListData
    }

    /// The reader once a payload is taken in.
    pub open spec fn learned(self, data: Payload) -> SetpointsView {
        match data {
            Payload::SetpointDescriptionListData(list) => SetpointsView {
                temperatures: temperatures_learned(
                    self.scope,
                    self.temperatures,
                    entries_of(list),
                ),
                ..self
            },
            Payload::SetpointConstraintsListData(list) => SetpointsView {
                constraints: constraints_learned(self.constraints, entries_of(list)),
                ..self
            },
            Payload::SetpointListData(list) => SetpointsView {
                values: values_learned(self.values, entries_of(list)),
                ..self
            },
            Payload::HvacSystemFunctionSetpointRelationListData(list) => SetpointsView {
                relations: setpoint_relations_learned(self.relations, entries_of(list)),
                ..self
            },
            _ => self,
        }
    }

    /// Whether a setpoint of the scope has this identifier.
    pub open spec fn knows(self, id: SetpointId) -> bool {
        place_of(self.temperatures, id) is Some
    }

    /// Whether the setpoints of this mode are known.
    pub open spec fn describes(
        self,
        function: HvacSystemFunctionId,
        mode: HvacOperationModeId,
    ) -> bool {
        place_of(self.relations, ModeKey { function, mode }) is Some
    }

    /// The setpoints of this mode.
    pub open spec fn for_mode(
        self,
        function: HvacSystemFunctionId,
        mode: HvacOperationModeId,
    ) -> Seq<SetpointId> {
        or_none(lookup(self.relations, ModeKey { function, mode }))
    }

    /// The write of a temperature, or why it is refused.
    pub open spec fn write(self, id: SetpointId, degrees: Number) -> Result<
        Payload,
        WriteRefused,
    > {
        if !self.knows(id) {
            Err(WriteRefused::UnknownSetpoint)
        } else {
            match lookup(self.constraints, id) {
                Some(constraints) => if constraints.within(degrees) {
                    Ok(write_payload(id, degrees))
                } else {
                    Err(
                        WriteRefused::OutOfRange {
                            degrees,
                            min: constraints.min,
                            max: constraints.max,
                        },
                    )
                },
                None => Err(WriteRefused::NoConstraints),
            }
        }
    }

    /// What writing a setpoint would do.
    pub open spec fn effect(self, id: SetpointId, state: SystemFunctionView) -> SetpointEffect {
        match (state.function, state.mode_id()) {
            (Some(function), Some(mode)) => if !self.describes(function, mode) {
                SetpointEffect::Unknown
            } else if !self.for_mode(function, mode).contains(id) {
                SetpointEffect::NotInCurrentMode
            } else if state.overrun_active() == Some(true) {
                SetpointEffect::OverriddenByOverrun
            } else {
                SetpointEffect::Effective
            },
            _ => SetpointEffect::Unknown,
        }
    }

    /// The write of a temperature into a mode that uses the setpoint, or why it is refused.
    pub open spec fn effective_write(
        self,
        id: SetpointId,
        degrees: Number,
        state: SystemFunctionView,
    ) -> Result<Payload, WriteRefused> {
        if !self.knows(id) {
            Err(WriteRefused::UnknownSetpoint)
        } else {
            match self.effect(id, state) {
                SetpointEffect::NotInCurrentMode => Err(WriteRefused::NotInCurrentMode),
                SetpointEffect::Unknown => Err(WriteRefused::ModeUnknown),
                _ => self.write(id, degrees),
            }
        }
    }

    /// The one setpoint that the mode the server is in uses, or why there is none.
    pub open spec fn current(self, state: SystemFunctionView) -> Result<
        SetpointId,
        WriteRefused,
    > {
        match (state.function, state.mode_id()) {
            (Some(function), Some(mode)) => {
                let used = self.for_mode(function, mode);
                if !self.describes(function, mode) {
                    Err(WriteRefused::ModeUnknown)
                } else if used.len() == 0 {
                    Err(WriteRefused::NotInCurrentMode)
                } else if used.len() == 1 {
                    Ok(used[0])
                } else {
                    Err(WriteRefused::SeveralSetpoints { count: used.len() as usize })
                }
            },
            _ => Err(WriteRefused::ModeUnknown),
        }
    }

    /// The write of a temperature to that setpoint, or why it is refused.
    pub open spec fn current_write(self, degrees: Number, state: SystemFunctionView) -> Result<
        Payload,
        WriteRefused,
    > {
        match self.current(state) {
            Ok(id) => self.write(id, degrees),
            Err(refusal) => Err(refusal),
        }
    }
}

/// A write of one temperature, and of nothing else.
pub open spec fn write_payload(id: SetpointId, degrees: Number) -> Payload {
    Payload::SetpointListData(
        Some(
            seq![
                SetpointData {
                    setpoint_id: Some(id),
                    value: Some(ScaledNumber::encoded(degrees, 1)),
                    is_setpoint_changeable: None,
                },
            ],
        ),
    )
}

/// The content of a write or a refusal.
pub open spec fn temperature_write_of(result: Result<CmdData, WriteRefused>) -> Result<
    Payload,
    WriteRefused,
> {
    match result {
        Ok(data) => Ok(data@),
        Err(refusal) => Err(refusal),
    }
}

/// Collects the setpoints of one scope of a peer.
#[derive(Clone, Debug, PartialEq, Eq)]
pub struct Setpoints {
    scope: ScopeType,
    temperatures: Vec<(SetpointId, Option<UnitOfMeasurement>)>,
    constraints: Vec<(SetpointId, Constraints)>,
    values: Vec<(SetpointId, Number)>,
    relations: Vec<(ModeKey, Vec<SetpointId>)>,
}

impl View for Setpoints {
    type V = SetpointsView;

    closed spec fn view(&self) -> SetpointsView {
        SetpointsView {
            scope: self.scope,
            temperatures: self.temperatures@,
            constraints: self.constraints@,
            values: self.values@,
            relations: mapped(self.relations@, elements()),
        }
    }
}

impl Setpoints {
    /// Collects hot water setpoints.
    pub fn dhw() -> (r: Setpoints)
        ensures
            r@ == SetpointsView::collecting(ScopeType::DhwTemperature),
    {
        Setpoints::of(ScopeType::DhwTemperature)
    }

    /// Collects room air setpoints.
    pub fn room_air() -> (r: Setpoints)
        ensures
            r@ == SetpointsView::collecting(ScopeType::RoomAirTemperature),
    {
        Setpoints::of(ScopeType::RoomAirTemperature)
    }

    /// Collects the setpoints of a scope.
    pub fn of(scope: ScopeType) -> (r: Setpoints)
        ensures
            r@ == SetpointsView::collecting(scope),
    {
        let r = Setpoints {
            scope,
            temperatures: Vec::new(),
            constraints: Vec::new(),
            values: Vec::new(),
            relations: Vec::new(),
        };
        assert(r@.relations =~= Seq::empty());
        r
    }

    /// The scope whose setpoints are collected.
    pub fn scope(&self) -> (r: &ScopeType)
        ensures
            *r == self@.scope,
    {
        &self.scope
    }

    /// Takes in a payload, and says whether it belongs to setpoints at all.
    #[verifier::loop_isolation(false)]
    pub fn learn(&mut self, data: &CmdData) -> (r: bool)
        ensures
            r == SetpointsView::concerns(data@),
            final(self)@ == old(self)@.learned(data@),
    {
        let ghost before = self@;
        match data {
            CmdData::SetpointDescriptionListData(list) => {
                if let Some(entries) = &list.setpoint_description_data {
                    let mut i: usize = 0;
                    assert(entries@.take(0) =~= Seq::empty());
                    while i < entries.len()
                        invariant
                            i <= entries@.len(),
                            self@ == (SetpointsView {
                                temperatures: temperatures_learned(
                                    before.scope,
                                    before.temperatures,
                                    entries@.take(i as int),
                                ),
                                ..before
                            }),
                        decreases entries@.len() - i,
                    {
                        proof {
                            lemma_take_next(entries@, i as int);
                        }
                        if let Some(id) = entries[i].setpoint_id {
                            let in_scope = match entries[i].scope_type {
                                Some(scope) => scope == self.scope,
                                None => false,
                            };
                            if in_scope {
                                store(&mut self.temperatures, id, entries[i].unit);
                            } else {
                                retain(
                                    &mut self.temperatures,
                                    |entry: &(SetpointId, Option<UnitOfMeasurement>)| -> (b: bool)
                                        ensures
                                            b == (entry.0 != id)
                                        { entry.0 != id },
                                    Ghost(other_setpoints(id)),
                                );
                            }
                        }
                        i = i + 1;
                    }
                    assert(entries@.take(i as int) =~= entries@);
                }
                true
            },
            CmdData::SetpointConstraintsListData(list) => {
                if let Some(entries) = &list.setpoint_constraints_data {
                    let mut i: usize = 0;
                    assert(entries@.take(0) =~= Seq::empty());
                    while i < entries.len()
                        invariant
                            i <= entries@.len(),
                            self@ == (SetpointsView {
                                constraints: constraints_learned(
                                    before.constraints,
                                    entries@.take(i as int),
                                ),
                                ..before
                            }),
                        decreases entries@.len() - i,
                    {
                        proof {
                            lemma_take_next(entries@, i as int);
                        }
                        if let (Some(id), Some(min), Some(max)) = (
                            entries[i].setpoint_id,
                            read_number(entries[i].setpoint_range_min),
                            read_number(entries[i].setpoint_range_max),
                        ) {
                            let step = read_number(entries[i].setpoint_step_size);
                            store(&mut self.constraints, id, Constraints { min, max, step });
                        }
                        i = i + 1;
                    }
                    assert(entries@.take(i as int) =~= entries@);
                }
                true
            },
            CmdData::SetpointListData(list) => {
                if let Some(entries) = &list.setpoint_data {
                    let mut i: usize = 0;
                    assert(entries@.take(0) =~= Seq::empty());
                    while i < entries.len()
                        invariant
                            i <= entries@.len(),
                            self@ == (SetpointsView {
                                values: values_learned(before.values, entries@.take(i as int)),
                                ..before
                            }),
                        decreases entries@.len() - i,
                    {
                        proof {
                            lemma_take_next(entries@, i as int);
                        }
                        if let (Some(id), Some(value)) = (
                            entries[i].setpoint_id,
                            read_number(entries[i].value),
                        ) {
                            store(&mut self.values, id, value);
                        }
                        i = i + 1;
                    }
                    assert(entries@.take(i as int) =~= entries@);
                }
                true
            },
            CmdData::HvacSystemFunctionSetpointRelationListData(list) => {
                if let Some(entries) = &list.hvac_system_function_setpoint_relation_data {
                    let ghost views = listed_views(Some(*entries))->0;
                    let mut i: usize = 0;
                    assert(views.take(0) =~= Seq::empty());
                    while i < entries.len()
                        invariant
                            i <= entries@.len(),
                            self@ == (SetpointsView {
                                relations: setpoint_relations_learned(
                                    before.relations,
                                    views.take(i as int),
                                ),
                                ..before
                            }),
                        decreases entries@.len() - i,
                    {
                        proof {
                            lemma_take_next(views, i as int);
                            assert(views[i as int] == entries@[i as int]@);
                        }
                        if let (Some(function), Some(mode)) = (
                            entries[i].system_function_id,
                            entries[i].operation_mode_id,
                        ) {
                            let used = match &entries[i].setpoint_id {
                                Some(used) => copy_list(used),
                                None => Vec::new(),
                            };
                            proof {
                                assert(used@ =~= or_none(views[i as int].setpoint_id));
                                lemma_mapped_store(
                                    self.relations@,
                                    elements(),
                                    ModeKey { function, mode },
                                    used,
                                );
                            }
                            store(&mut self.relations, ModeKey { function, mode }, used);
                        }
                        i = i + 1;
                    }
                    assert(views.take(i as int) =~= views);
                }
                true
            },
            _ => false,
        }
    }

    /// The setpoints of the scope, in the order in which they were described.
    pub fn temperature_setpoints(&self) -> (r: Vec<SetpointId>)
        ensures
            r@ == self@.temperatures.map_values(
                |entry: (SetpointId, Option<UnitOfMeasurement>)| entry.0,
            ),
    {
        let ghost image = |entry: (SetpointId, Option<UnitOfMeasurement>)| entry.0;
        let mut ids: Vec<SetpointId> = Vec::new();
        let mut i: usize = 0;
        while i < self.temperatures.len()
            invariant
                i <= self.temperatures@.len(),
                image == (|entry: (SetpointId, Option<UnitOfMeasurement>)| entry.0),
                ids@ =~= self.temperatures@.take(i as int).map_values(image),
            decreases self.temperatures@.len() - i,
        {
            proof {
                lemma_take_next(self.temperatures@, i as int);
            }
            ids.push(self.temperatures[i].0);
            i = i + 1;
        }
        assert(self.temperatures@.take(i as int) =~= self.temperatures@);
        ids
    }

    /// The unit of a setpoint of the scope.
    pub fn unit_of(&self, id: SetpointId) -> (r: Option<UnitOfMeasurement>)
        ensures
            r == match lookup(self@.temperatures, id) {
                Some(unit) => unit,
                None => None,
            },
    {
        match get(&self.temperatures, id) {
            Some(unit) => unit,
            None => None,
        }
    }

    /// What a setpoint accepts.
    pub fn constraints_of(&self, id: SetpointId) -> (r: Option<Constraints>)
        ensures
            r == lookup(self@.constraints, id),
    {
        get(&self.constraints, id)
    }

    /// The value of a setpoint.
    pub fn temperature(&self, id: SetpointId) -> (r: Option<Number>)
        ensures
            r == lookup(self@.values, id),
    {
        get(&self.values, id)
    }

    /// The setpoints that a mode of a function uses.
    pub fn for_mode(&self, function: HvacSystemFunctionId, mode: HvacOperationModeId) -> (r: Vec<
        SetpointId,
    >)
        ensures
            r@ == self@.for_mode(function, mode),
    {
        let none: Vec<SetpointId> = Vec::new();
        assert(none@ =~= Seq::empty());
        proof {
            lemma_mapped_place(
                self.relations@,
                elements::<SetpointId>(),
                ModeKey { function, mode },
            );
            lemma_place(self.relations@, ModeKey { function, mode });
        }
        match get_ref(&self.relations, ModeKey { function, mode }) {
            Some(used) => copy_list(used),
            None => none,
        }
    }

    /// Whether the setpoints of this mode are known.
    pub fn describes(&self, function: HvacSystemFunctionId, mode: HvacOperationModeId) -> (r: bool)
        ensures
            r == self@.describes(function, mode),
    {
        proof {
            lemma_mapped_place(
                self.relations@,
                elements::<SetpointId>(),
                ModeKey { function, mode },
            );
        }
        find(&self.relations, ModeKey { function, mode }).is_some()
    }

    /// The write of a temperature. One that the server would refuse is refused here.
    pub fn write(&self, id: SetpointId, degrees: Number) -> (r: Result<CmdData, WriteRefused>)
        ensures
            temperature_write_of(r) == self@.write(id, degrees),
    {
        if find(&self.temperatures, id).is_none() {
            return Err(WriteRefused::UnknownSetpoint);
        }
        let constraints = match self.constraints_of(id) {
            Some(constraints) => constraints,
            None => return Err(WriteRefused::NoConstraints),
        };
        if !constraints.permits(degrees) {
            return Err(
                WriteRefused::OutOfRange { degrees, min: constraints.min, max: constraints.max },
            );
        }
        let entries = vec![
            SetpointData {
                setpoint_id: Some(id),
                value: Some(ScaledNumber::from_number(degrees, 1)),
                is_setpoint_changeable: None,
            },
        ];
        assert(write_payload(id, degrees)->SetpointListData_0->Some_0 =~= entries@);
        Ok(CmdData::SetpointListData(SetpointListData { setpoint_data: Some(entries) }))
    }

    /// What writing a setpoint would do, given what is known of the system function.
    pub fn effect_of(&self, id: SetpointId, state: &SystemFunction) -> (r: SetpointEffect)
        ensures
            r == self@.effect(id, state@),
    {
        let (function, mode) = match (state.system_function(), state.mode_id()) {
            (Some(function), Some(mode)) => (function, mode),
            _ => return SetpointEffect::Unknown,
        };
        if !self.describes(function, mode) {
            return SetpointEffect::Unknown;
        }
        if !holds(&self.for_mode(function, mode), id) {
            return SetpointEffect::NotInCurrentMode;
        }
        match state.overrun_active() {
            Some(true) => SetpointEffect::OverriddenByOverrun,
            _ => SetpointEffect::Effective,
        }
    }

    /// The write of a temperature, refused where the mode the server is in does not use the
    /// setpoint: the server would apply it, and nothing would change. An overrun is no reason to
    /// refuse: the write takes effect once it is over.
    pub fn write_effective(&self, id: SetpointId, degrees: Number, state: &SystemFunction) -> (r:
        Result<CmdData, WriteRefused>)
        ensures
            temperature_write_of(r) == self@.effective_write(id, degrees, state@),
    {
        if find(&self.temperatures, id).is_none() {
            return Err(WriteRefused::UnknownSetpoint);
        }
        match self.effect_of(id, state) {
            SetpointEffect::NotInCurrentMode => Err(WriteRefused::NotInCurrentMode),
            SetpointEffect::Unknown => Err(WriteRefused::ModeUnknown),
            _ => self.write(id, degrees),
        }
    }

    /// The one setpoint that the mode the server is in uses. Where it uses several, which of them
    /// applies is the server's business, and none is picked.
    pub fn current_setpoint(&self, state: &SystemFunction) -> (r: Result<SetpointId, WriteRefused>)
        ensures
            r == self@.current(state@),
    {
        let (function, mode) = match (state.system_function(), state.mode_id()) {
            (Some(function), Some(mode)) => (function, mode),
            _ => return Err(WriteRefused::ModeUnknown),
        };
        if !self.describes(function, mode) {
            return Err(WriteRefused::ModeUnknown);
        }
        let used = self.for_mode(function, mode);
        let count: usize = used.len();
        if count == 0 {
            Err(WriteRefused::NotInCurrentMode)
        } else if count == 1 {
            Ok(used[0])
        } else {
            Err(WriteRefused::SeveralSetpoints { count })
        }
    }

    /// The write of a temperature to the one setpoint that the mode the server is in uses.
    pub fn write_current(&self, degrees: Number, state: &SystemFunction) -> (r: Result<
        CmdData,
        WriteRefused,
    >)
        ensures
            temperature_write_of(r) == self@.current_write(degrees, state@),
    {
        match self.current_setpoint(state) {
            Ok(id) => self.write(id, degrees),
            Err(refusal) => Err(refusal),
        }
    }
}

} // verus!
