//! The Monitored Unit: the side that measures.

use super::measurand::Measurand;
use crate::address::FeatureAddress;
use crate::assoc::place_of;
use crate::model::{
    AbsoluteOrRelativeTime, CmdData, ElectricalConnectionDescriptionData,
    ElectricalConnectionDescriptionListData, ElectricalConnectionId,
    ElectricalConnectionParameterDescriptionData,
    ElectricalConnectionParameterDescriptionListData, ElectricalConnectionParameterId,
    ElectricalConnectionVoltageType, EnergyDirection, FeatureType, Function,
    MeasurementConstraintsData, MeasurementConstraintsListData, MeasurementData,
    MeasurementDescriptionData, MeasurementDescriptionListData, MeasurementId,
    MeasurementListData, MeasurementValueState, MeasurementValueType, Payload, Role,
    ScaledNumber, ScopeType,
};
use crate::number::Number;
use crate::seqs::{first, first_index, lemma_first_index, lemma_take_next, position};
use crate::spine::{reading, Engine, LocalFeature, LocalFeatureView, Operations};
use crate::time::Duration;
use crate::usecases::signals::{
    number_fact, qualified, Signal, SignalFact, SignalSet, SignalValue, SignalView,
};
use vstd::prelude::*;

verus! {

/// With how many decimals measured values are published.
pub const DECIMALS: u8 = 3;

/// From whose side the scopes and signals are named.
#[derive(Clone, Copy, Debug, PartialEq, Eq, Structural)]
pub enum Naming {
    /// An appliance.
    Appliance,
    /// A grid connection point.
    GridConnectionPoint,
    /// The charging of a vehicle.
    EvCharging,
    /// The battery of a vehicle.
    EvBattery,
}

impl Naming {
    /// The prefix of the signals.
    pub open spec fn prefix(self) -> Seq<char> {
        match self {
            Naming::Appliance => "mpc"@,
            Naming::GridConnectionPoint => "mgcp"@,
            Naming::EvCharging => "evcem"@,
            Naming::EvBattery => "evsoc"@,
        }
    }

    /// The scope of a measurand.
    pub open spec fn scope(self, measurand: Measurand) -> ScopeType {
        match self {
            Naming::GridConnectionPoint => measurand.grid_scope(),
            _ => measurand.scope(),
        }
    }

    /// The prefix of the signals.
    pub fn signal_prefix(self) -> (r: &'static str)
        ensures
            r@ == self.prefix(),
    {
        match self {
            Naming::Appliance => "mpc",
            Naming::GridConnectionPoint => "mgcp",
            Naming::EvCharging => "evcem",
            Naming::EvBattery => "evsoc",
        }
    }
}

/// One measurement of a unit.
#[derive(Clone, Copy, Debug, PartialEq, Eq)]
pub struct Slot {
    /// What is measured.
    pub measurand: Measurand,
    /// The identifier of the measurement.
    pub measurement_id: MeasurementId,
    /// The identifier of its parameter.
    pub parameter_id: ElectricalConnectionParameterId,
    /// The value, once there is one.
    pub value: Option<Number>,
    /// Whether the value can be trusted.
    pub state: MeasurementValueState,
    /// The range that values are expected in.
    pub range: Option<(Number, Number)>,
    /// When the value was taken.
    pub taken_at: Option<AbsoluteOrRelativeTime>,
}

impl Slot {
    /// A measurement without a value, in the range that its quantity has by nature.
    pub open spec fn fresh(measurand: Measurand, number: u32) -> Slot {
        Slot {
            measurand,
            measurement_id: MeasurementId(number),
            parameter_id: ElectricalConnectionParameterId(number),
            value: None,
            state: MeasurementValueState::Normal,
            range: measurand.quantity.bounds(),
            taken_at: None,
        }
    }

    /// Whether a value lies outside the range that it is expected in.
    pub open spec fn outside(self, value: Number) -> bool {
        self.range matches Some((min, max)) && (value.below(min) || max.below(value))
    }

    /// With a new value; its state says whether it lies in the range.
    pub open spec fn recorded(
        self,
        value: Number,
        taken_at: Option<AbsoluteOrRelativeTime>,
    ) -> Slot {
        Slot {
            value: Some(value),
            taken_at,
            state: if self.outside(value) {
                MeasurementValueState::OutOfRange
            } else {
                MeasurementValueState::Normal
            },
            ..self
        }
    }

    /// Whether there is anything to report.
    pub open spec fn reportable(self) -> bool {
        self.value is Some || !(self.state is Normal)
    }

    /// The reported measurement.
    pub open spec fn report(self) -> MeasurementData {
        MeasurementData {
            measurement_id: Some(self.measurement_id),
            value_type: Some(MeasurementValueType::Value),
            timestamp: self.taken_at,
            value: match self.value {
                Some(value) => Some(ScaledNumber::encoded(value, DECIMALS)),
                None => None,
            },
            value_source: None,
            value_state: if self.state is Normal {
                None
            } else {
                Some(self.state)
            },
        }
    }

    /// The published range.
    pub open spec fn limits(self) -> MeasurementConstraintsData {
        MeasurementConstraintsData {
            measurement_id: Some(self.measurement_id),
            value_range_min: Some(ScaledNumber::encoded((self.range->0).0, DECIMALS)),
            value_range_max: Some(ScaledNumber::encoded((self.range->0).1, DECIMALS)),
            value_step_size: None,
        }
    }

    /// The description of the measurement.
    pub open spec fn description(self, naming: Naming) -> MeasurementDescriptionData {
        MeasurementDescriptionData {
            measurement_id: Some(self.measurement_id),
            measurement_type: Some(self.measurand.quantity.kind()),
            commodity_type: Some(self.measurand.commodity()),
            unit: Some(self.measurand.quantity.measured_in()),
            scope_type: Some(naming.scope(self.measurand)),
        }
    }

    /// The description of the parameter.
    pub open spec fn parameter(
        self,
        connection: ElectricalConnectionId,
        naming: Naming,
    ) -> ElectricalConnectionParameterDescriptionData {
        ElectricalConnectionParameterDescriptionData {
            electrical_connection_id: Some(connection),
            parameter_id: Some(self.parameter_id),
            measurement_id: Some(self.measurement_id),
            voltage_type: Some(ElectricalConnectionVoltageType::Ac),
            ac_measured_phases: self.measurand.phases,
            scope_type: Some(naming.scope(self.measurand)),
        }
    }

    /// The signal.
    pub open spec fn signal(self, naming: Naming) -> SignalView {
        SignalView {
            name: qualified(naming.prefix(), self.measurand.name()),
            value: match self.state {
                MeasurementValueState::Normal => number_fact(self.value),
                state => SignalFact::Text(state.text()),
            },
            unit: Some(self.measurand.quantity.measured_in().text()),
        }
    }
}

/// Picks out the slot of a measurand.
pub open spec fn measures(measurand: Measurand) -> spec_fn(Slot) -> bool {
    |slot: Slot| slot.measurand == measurand
}

/// A unit as a mathematical value.
pub struct UnitView {
    /// The electrical connection that the measurements belong to.
    pub connection: ElectricalConnectionId,
    /// From whose side the scopes and signals are named.
    pub naming: Naming,
    /// The measurements, in the order in which they were added.
    pub slots: Seq<Slot>,
}

impl UnitView {
    /// The measurements are numbered from one, and no measurand occurs twice.
    pub open spec fn wf(self) -> bool {
        &&& self.slots.len() <= u32::MAX
        &&& forall|i: int|
            0 <= i < self.slots.len() ==> (#[trigger] self.slots[i]).measurement_id
                == MeasurementId((i + 1) as u32)
        &&& forall|i: int|
            0 <= i < self.slots.len() ==> (#[trigger] self.slots[i]).parameter_id
                == ElectricalConnectionParameterId((i + 1) as u32)
        &&& forall|i: int, j: int|
            0 <= i < j < self.slots.len() ==> (#[trigger] self.slots[i]).measurand != (
            #[trigger] self.slots[j]).measurand
    }

    /// The place of a measurand.
    pub open spec fn place(self, measurand: Measurand) -> Option<int> {
        first_index(self.slots, measures(measurand))
    }

    /// The slot of a measurand.
    pub open spec fn slot(self, measurand: Measurand) -> Option<Slot> {
        first(self.slots, measures(measurand))
    }

    /// With one slot changed, if there is one for the measurand.
    pub open spec fn with_slot(self, measurand: Measurand, slot: Slot) -> UnitView {
        match self.place(measurand) {
            Some(place) => UnitView { slots: self.slots.update(place, slot), ..self },
            None => self,
        }
    }

    /// With a measurand added, unless it is there.
    pub open spec fn with(self, measurand: Measurand) -> UnitView {
        match self.place(measurand) {
            Some(_) => self,
            None => UnitView {
                slots: self.slots.push(
                    Slot::fresh(measurand, (self.slots.len() + 1) as u32),
                ),
                ..self
            },
        }
    }

    /// With a value recorded.
    pub open spec fn recorded(
        self,
        measurand: Measurand,
        value: Number,
        taken_at: Option<AbsoluteOrRelativeTime>,
    ) -> UnitView {
        match self.slot(measurand) {
            Some(slot) => self.with_slot(measurand, slot.recorded(value, taken_at)),
            None => self,
        }
    }

    /// With the range of a sensor set.
    pub open spec fn ranged(self, measurand: Measurand, min: Number, max: Number) -> UnitView {
        match self.slot(measurand) {
            Some(slot) => self.with_slot(measurand, Slot { range: Some((min, max)), ..slot }),
            None => self,
        }
    }

    /// With the state of a value set.
    pub open spec fn stated(self, measurand: Measurand, state: MeasurementValueState) -> UnitView {
        match self.slot(measurand) {
            Some(slot) => self.with_slot(measurand, Slot { state, ..slot }),
            None => self,
        }
    }

    /// The description of the connection.
    pub open spec fn connection_payload(self) -> Payload {
        Payload::ElectricalConnectionDescriptionListData(
            Some(
                seq![
                    ElectricalConnectionDescriptionData {
                        electrical_connection_id: Some(self.connection),
                        power_supply_type: Some(ElectricalConnectionVoltageType::Ac),
                        positive_energy_direction: Some(EnergyDirection::Consume),
                    },
                ],
            ),
        )
    }

    /// The descriptions of the parameters.
    pub open spec fn parameters_payload(self) -> Payload {
        Payload::ElectricalConnectionParameterDescriptionListData(
            Some(
                self.slots.map_values(|slot: Slot| slot.parameter(self.connection, self.naming)),
            ),
        )
    }

    /// The ranges that the sensors cover.
    pub open spec fn constraints_payload(self) -> Payload {
        Payload::MeasurementConstraintsListData(
            Some(
                self.slots.filter(|slot: Slot| slot.range is Some).map_values(
                    |slot: Slot| slot.limits(),
                ),
            ),
        )
    }

    /// The descriptions of the measurements.
    pub open spec fn descriptions_payload(self) -> Payload {
        Payload::MeasurementDescriptionListData(
            Some(self.slots.map_values(|slot: Slot| slot.description(self.naming))),
        )
    }

    /// The measurements that have something to report.
    pub open spec fn measurements_payload(self) -> Payload {
        Payload::MeasurementListData(
            Some(
                self.slots.filter(|slot: Slot| slot.reportable()).map_values(
                    |slot: Slot| slot.report(),
                ),
            ),
        )
    }

    /// The signals.
    pub open spec fn signals(self) -> Seq<SignalView> {
        self.slots.map_values(|slot: Slot| slot.signal(self.naming))
    }
}

/// The Monitored Unit: what it measures, and the values.
#[derive(Clone, Debug, PartialEq, Eq)]
pub struct MonitoredUnit {
    connection: ElectricalConnectionId,
    naming: Naming,
    slots: Vec<Slot>,
}

impl View for MonitoredUnit {
    type V = UnitView;

    closed spec fn view(&self) -> UnitView {
        UnitView { connection: self.connection, naming: self.naming, slots: self.slots@ }
    }
}

impl MonitoredUnit {
    /// A unit that measures nothing yet, named as an appliance.
    pub fn new(connection: u32) -> (r: MonitoredUnit)
        ensures
            r@ == (UnitView {
                connection: ElectricalConnectionId(connection),
                naming: Naming::Appliance,
                slots: Seq::empty(),
            }),
            r@.wf(),
    {
        MonitoredUnit {
            connection: ElectricalConnectionId(connection),
            naming: Naming::Appliance,
            slots: Vec::new(),
        }
    }

    /// Names the scopes and signals from another side.
    #[must_use]
    pub fn naming(self, naming: Naming) -> (r: MonitoredUnit)
        ensures
            r@ == (UnitView { naming, ..self@ }),
    {
        MonitoredUnit { naming, ..self }
    }

    /// Adds a measurand, unless it is there.
    #[must_use]
    pub fn with(self, measurand: Measurand) -> (r: MonitoredUnit)
        requires
            self@.place(measurand) is None ==> self@.slots.len() < u32::MAX,
        ensures
            r@ == self@.with(measurand),
            self@.wf() ==> r@.wf(),
    {
        let mut unit = self;
        unit.add(measurand);
        unit
    }

    /// Where a measurand stands.
    fn find(&self, measurand: &Measurand) -> (r: Option<usize>)
        ensures
            match r {
                Some(place) => self@.place(*measurand) == Some(place as int) && place
                    < self.slots@.len(),
                None => self@.place(*measurand) is None,
            },
    {
        position(
            &self.slots,
            |slot: &Slot| -> (b: bool)
                ensures
                    b == (slot.measurand == *measurand)
                { slot.measurand == *measurand },
            Ghost(measures(*measurand)),
        )
    }

    /// Adds a measurand, unless it is there, and says under which identifier it is published.
    pub fn add(&mut self, measurand: Measurand) -> (r: MeasurementId)
        requires
            old(self)@.place(measurand) is None ==> old(self)@.slots.len() < u32::MAX,
        ensures
            final(self)@ == old(self)@.with(measurand),
            final(self)@.slot(measurand) matches Some(slot) && slot.measurement_id == r,
            old(self)@.wf() ==> final(self)@.wf(),
    {
        if let Some(place) = self.find(&measurand) {
            return self.slots[place].measurement_id;
        }
        let next: u32 = self.slots.len() as u32 + 1;
        proof {
            lemma_first_index(self.slots@, measures(measurand));
        }
        let ghost before = self.slots@;
        self.slots.push(
            Slot {
                measurand,
                measurement_id: MeasurementId(next),
                parameter_id: ElectricalConnectionParameterId(next),
                value: None,
                state: MeasurementValueState::Normal,
                range: measurand.quantity.natural_range(),
                taken_at: None,
            },
        );
        proof {
            assert forall|i: int| 0 <= i < before.len() implies !measures(measurand)(
                #[trigger] self.slots@[i],
            ) by {
                assert(!measures(measurand)(before[i]));
            }
            crate::seqs::lemma_first_index_is(
                self.slots@,
                measures(measurand),
                before.len() as int,
            );
        }
        MeasurementId(next)
    }

    /// The identifier that a measurand is published under.
    pub fn measurement_id(&self, measurand: &Measurand) -> (r: Option<MeasurementId>)
        ensures
            r == match self@.slot(*measurand) {
                Some(slot) => Some(slot.measurement_id),
                None => None,
            },
    {
        match self.find(measurand) {
            Some(place) => Some(self.slots[place].measurement_id),
            None => None,
        }
    }

    /// The value of a measurand.
    pub fn value(&self, measurand: &Measurand) -> (r: Option<Number>)
        ensures
            r == match self@.slot(*measurand) {
                Some(slot) => slot.value,
                None => None,
            },
    {
        match self.find(measurand) {
            Some(place) => self.slots[place].value,
            None => None,
        }
    }

    /// Sets the range that the sensor of a measurand covers.
    #[must_use]
    pub fn with_range(self, measurand: Measurand, min: Number, max: Number) -> (r: MonitoredUnit)
        ensures
            r@ == self@.ranged(measurand, min, max),
    {
        let mut unit = self;
        unit.set_range(&measurand, min, max);
        unit
    }

    /// Sets the range that the sensor of a measurand covers.
    pub fn set_range(&mut self, measurand: &Measurand, min: Number, max: Number)
        ensures
            final(self)@ == old(self)@.ranged(*measurand, min, max),
    {
        if let Some(place) = self.find(measurand) {
            let slot = self.slots[place];
            self.slots.set(place, Slot { range: Some((min, max)), ..slot });
        }
    }

    /// Sets the value of a measurand. A value outside the range is flagged.
    pub fn set(&mut self, measurand: &Measurand, value: Number)
        ensures
            final(self)@ == old(self)@.recorded(*measurand, value, None),
    {
        self.record(measurand, value, None);
    }

    /// Sets the value of a measurand, and when it was taken.
    pub fn set_at(&mut self, measurand: &Measurand, value: Number, taken_at: AbsoluteOrRelativeTime)
        ensures
            final(self)@ == old(self)@.recorded(*measurand, value, Some(taken_at)),
    {
        self.record(measurand, value, Some(taken_at));
    }

    /// Sets the value of a measurand.
    fn record(
        &mut self,
        measurand: &Measurand,
        value: Number,
        taken_at: Option<AbsoluteOrRelativeTime>,
    )
        ensures
            final(self)@ == old(self)@.recorded(*measurand, value, taken_at),
    {
        if let Some(place) = self.find(measurand) {
            let slot = self.slots[place];
            let outside = match slot.range {
                Some((min, max)) => value.is_below(min) || max.is_below(value),
                None => false,
            };
            let state = if outside {
                MeasurementValueState::OutOfRange
            } else {
                MeasurementValueState::Normal
            };
            self.slots.set(place, Slot { value: Some(value), taken_at, state, ..slot });
        }
    }

    /// Says whether the value of a measurand can be trusted.
    pub fn set_state(&mut self, measurand: &Measurand, state: MeasurementValueState)
        ensures
            final(self)@ == old(self)@.stated(*measurand, state),
    {
        if let Some(place) = self.find(measurand) {
            let slot = self.slots[place];
            self.slots.set(place, Slot { state, ..slot });
        }
    }

    /// The scope of a measurand.
    fn scope_of(&self, measurand: &Measurand) -> (r: ScopeType)
        ensures
            r == self@.naming.scope(*measurand),
    {
        match self.naming {
            Naming::GridConnectionPoint => measurand.grid_scope_type(),
            _ => measurand.scope_type(),
        }
    }

    /// Builds the `ElectricalConnection` feature that the unit serves.
    pub fn electrical_connection_feature(&self, address: u32) -> (r: LocalFeature)
        ensures
            r@ == LocalFeatureView::read_only(
                address,
                FeatureType::ElectricalConnection,
                Role::Server,
                seq![
                    (Function::ElectricalConnectionDescriptionListData, reading()),
                    (Function::ElectricalConnectionParameterDescriptionListData, reading()),
                ],
            ),
    {
        let feature = LocalFeature::new(
            address,
            FeatureType::ElectricalConnection,
            Role::Server,
        ).with_function(
            Function::ElectricalConnectionDescriptionListData,
            Operations::read(),
        ).with_function(
            Function::ElectricalConnectionParameterDescriptionListData,
            Operations::read(),
        );
        proof {
            reveal_with_fuel(place_of, 3);
            assert(feature@.functions =~= seq![
                (Function::ElectricalConnectionDescriptionListData, reading()),
                (Function::ElectricalConnectionParameterDescriptionListData, reading()),
            ]);
        }
        feature
    }

    /// Builds the `Measurement` feature that the unit serves.
    pub fn measurement_feature(&self, address: u32) -> (r: LocalFeature)
        ensures
            r@ == measurement_feature_view(address),
    {
        let feature = LocalFeature::new(
            address,
            FeatureType::Measurement,
            Role::Server,
        ).with_function(
            Function::MeasurementDescriptionListData,
            Operations::read(),
        ).with_function(
            Function::MeasurementConstraintsListData,
            Operations::read(),
        ).with_function(Function::MeasurementListData, Operations::read());
        proof {
            reveal_with_fuel(place_of, 4);
            assert(feature@.functions =~= measurement_feature_view(address).functions);
        }
        feature
    }

    /// The description of the connection.
    pub fn connection_description(&self) -> (r: CmdData)
        ensures
            r@ == self@.connection_payload(),
    {
        let entries = vec![
            ElectricalConnectionDescriptionData {
                electrical_connection_id: Some(self.connection),
                power_supply_type: Some(ElectricalConnectionVoltageType::Ac),
                positive_energy_direction: Some(EnergyDirection::Consume),
            },
        ];
        assert(self@.connection_payload()->ElectricalConnectionDescriptionListData_0->Some_0
            =~= entries@);
        CmdData::ElectricalConnectionDescriptionListData(
            ElectricalConnectionDescriptionListData {
                electrical_connection_description_data: Some(entries),
            },
        )
    }

    /// The descriptions of the parameters: which measurement covers which phases.
    pub fn parameter_descriptions(&self) -> (r: CmdData)
        ensures
            r@ == self@.parameters_payload(),
    {
        let ghost image = |slot: Slot| slot.parameter(self@.connection, self@.naming);
        let mut entries: Vec<ElectricalConnectionParameterDescriptionData> = Vec::new();
        let mut i: usize = 0;
        while i < self.slots.len()
            invariant
                i <= self.slots@.len(),
                image == (|slot: Slot| slot.parameter(self@.connection, self@.naming)),
                entries@ =~= self.slots@.take(i as int).map_values(image),
            decreases self.slots@.len() - i,
        {
            proof {
                lemma_take_next(self.slots@, i as int);
            }
            let slot = &self.slots[i];
            entries.push(
                ElectricalConnectionParameterDescriptionData {
                    electrical_connection_id: Some(self.connection),
                    parameter_id: Some(slot.parameter_id),
                    measurement_id: Some(slot.measurement_id),
                    voltage_type: Some(ElectricalConnectionVoltageType::Ac),
                    ac_measured_phases: slot.measurand.phases,
                    scope_type: Some(self.scope_of(&slot.measurand)),
                },
            );
            i = i + 1;
        }
        assert(self.slots@.take(i as int) =~= self.slots@);
        CmdData::ElectricalConnectionParameterDescriptionListData(
            ElectricalConnectionParameterDescriptionListData {
                electrical_connection_parameter_description_data: Some(entries),
            },
        )
    }

    /// The ranges that the sensors cover, of those that have one.
    pub fn constraints(&self) -> (r: CmdData)
        ensures
            r@ == self@.constraints_payload(),
    {
        let ghost wanted = |slot: Slot| slot.range is Some;
        let ghost image = |slot: Slot| slot.limits();
        let mut entries: Vec<MeasurementConstraintsData> = Vec::new();
        let mut i: usize = 0;
        proof {
            reveal(Seq::filter);
            assert(self.slots@.take(0) =~= Seq::empty());
        }
        while i < self.slots.len()
            invariant
                i <= self.slots@.len(),
                wanted == (|slot: Slot| slot.range is Some),
                image == (|slot: Slot| slot.limits()),
                entries@ =~= self.slots@.take(i as int).filter(wanted).map_values(image),
            decreases self.slots@.len() - i,
        {
            proof {
                reveal(Seq::filter);
                lemma_take_next(self.slots@, i as int);
            }
            let slot = &self.slots[i];
            if let Some((min, max)) = slot.range {
                entries.push(
                    MeasurementConstraintsData {
                        measurement_id: Some(slot.measurement_id),
                        value_range_min: Some(ScaledNumber::from_number(min, DECIMALS)),
                        value_range_max: Some(ScaledNumber::from_number(max, DECIMALS)),
                        value_step_size: None,
                    },
                );
            }
            i = i + 1;
        }
        assert(self.slots@.take(i as int) =~= self.slots@);
        CmdData::MeasurementConstraintsListData(
            MeasurementConstraintsListData { measurement_constraints_data: Some(entries) },
        )
    }

    /// The descriptions of the measurements.
    pub fn measurement_descriptions(&self) -> (r: CmdData)
        ensures
            r@ == self@.descriptions_payload(),
    {
        let ghost image = |slot: Slot| slot.description(self@.naming);
        let mut entries: Vec<MeasurementDescriptionData> = Vec::new();
        let mut i: usize = 0;
        while i < self.slots.len()
            invariant
                i <= self.slots@.len(),
                image == (|slot: Slot| slot.description(self@.naming)),
                entries@ =~= self.slots@.take(i as int).map_values(image),
            decreases self.slots@.len() - i,
        {
            proof {
                lemma_take_next(self.slots@, i as int);
            }
            let slot = &self.slots[i];
            entries.push(
                MeasurementDescriptionData {
                    measurement_id: Some(slot.measurement_id),
                    measurement_type: Some(slot.measurand.measurement_type()),
                    commodity_type: Some(slot.measurand.commodity_type()),
                    unit: Some(slot.measurand.unit()),
                    scope_type: Some(self.scope_of(&slot.measurand)),
                },
            );
            i = i + 1;
        }
        assert(self.slots@.take(i as int) =~= self.slots@);
        CmdData::MeasurementDescriptionListData(
            MeasurementDescriptionListData { measurement_description_data: Some(entries) },
        )
    }

    /// The measurements that have a value, or a state that says why they have none.
    pub fn measurements(&self) -> (r: CmdData)
        ensures
            r@ == self@.measurements_payload(),
    {
        let ghost wanted = |slot: Slot| slot.reportable();
        let ghost image = |slot: Slot| slot.report();
        let mut entries: Vec<MeasurementData> = Vec::new();
        let mut i: usize = 0;
        proof {
            reveal(Seq::filter);
            assert(self.slots@.take(0) =~= Seq::empty());
        }
        while i < self.slots.len()
            invariant
                i <= self.slots@.len(),
                wanted == (|slot: Slot| slot.reportable()),
                image == (|slot: Slot| slot.report()),
                entries@ =~= self.slots@.take(i as int).filter(wanted).map_values(image),
            decreases self.slots@.len() - i,
        {
            proof {
                reveal(Seq::filter);
                lemma_take_next(self.slots@, i as int);
            }
            let slot = &self.slots[i];
            let normal = match slot.state {
                MeasurementValueState::Normal => true,
                _ => false,
            };
            if slot.value.is_some() || !normal {
                entries.push(
                    MeasurementData {
                        measurement_id: Some(slot.measurement_id),
                        value_type: Some(MeasurementValueType::Value),
                        timestamp: slot.taken_at,
                        value: match slot.value {
                            Some(value) => Some(ScaledNumber::from_number(value, DECIMALS)),
                            None => None,
                        },
                        value_source: None,
                        value_state: if normal {
                            None
                        } else {
                            Some(slot.state)
                        },
                    },
                );
            }
            i = i + 1;
        }
        assert(self.slots@.take(i as int) =~= self.slots@);
        CmdData::MeasurementListData(MeasurementListData { measurement_data: Some(entries) })
    }

    /// Publishes the descriptions, the constraints and the values.
    pub fn publish(
        &self,
        engine: &mut Engine,
        electrical_connection: &FeatureAddress,
        measurement: &FeatureAddress,
        now: Duration,
    )
        ensures
            final(engine)@ == old(engine)@.publishing(
                electrical_connection@,
                self@.connection_payload(),
                false,
                now,
            ).publishing(
                electrical_connection@,
                self@.parameters_payload(),
                false,
                now,
            ).publishing(
                measurement@,
                self@.descriptions_payload(),
                false,
                now,
            ).publishing(
                measurement@,
                self@.constraints_payload(),
                false,
                now,
            ).publishing(measurement@, self@.measurements_payload(), false, now),
    {
        engine.publish(electrical_connection, self.connection_description(), false, now);
        engine.publish(electrical_connection, self.parameter_descriptions(), false, now);
        engine.publish(measurement, self.measurement_descriptions(), false, now);
        engine.publish(measurement, self.constraints(), false, now);
        engine.publish(measurement, self.measurements(), false, now);
    }

    /// Publishes the values, and tells the subscribers if they changed.
    pub fn notify(&self, engine: &mut Engine, measurement: &FeatureAddress, now: Duration)
        ensures
            final(engine)@ == old(engine)@.publishing(
                measurement@,
                self@.measurements_payload(),
                true,
                now,
            ),
    {
        engine.publish(measurement, self.measurements(), true, now);
    }

    /// What the debug interface shows: every value, or why there is none.
    pub fn signals(&self) -> (r: SignalSet)
        ensures
            r@ == self@.signals(),
    {
        let ghost image = |slot: Slot| slot.signal(self@.naming);
        let prefix = self.naming.signal_prefix();
        let mut signals = SignalSet::new();
        let mut i: usize = 0;
        while i < self.slots.len()
            invariant
                i <= self.slots@.len(),
                prefix@ == self@.naming.prefix(),
                image == (|slot: Slot| slot.signal(self@.naming)),
                signals@ =~= self.slots@.take(i as int).map_values(image),
            decreases self.slots@.len() - i,
        {
            proof {
                lemma_take_next(self.slots@, i as int);
            }
            let slot = &self.slots[i];
            let value = match slot.state {
                MeasurementValueState::Normal => SignalValue::number(slot.value),
                state => SignalValue::text(state.as_str()),
            };
            let name = slot.measurand.signal_name();
            signals = signals.with(
                Signal::named(prefix, name.as_str(), value).in_unit(
                    slot.measurand.unit().as_str(),
                ),
            );
            i = i + 1;
        }
        assert(self.slots@.take(i as int) =~= self.slots@);
        signals
    }
}

/// A feature that serves measurements.
pub open spec fn measurement_feature_view(address: u32) -> LocalFeatureView {
    LocalFeatureView::read_only(
        address,
        FeatureType::Measurement,
        Role::Server,
        seq![
            (Function::MeasurementDescriptionListData, reading()),
            (Function::MeasurementConstraintsListData, reading()),
            (Function::MeasurementListData, reading()),
        ],
    )
}

} // verus!
