//! What an appliance has learned about a unit's measurements.
//!
//! A value arrives as an identifier and a number and nothing else. What that means is in two
//! descriptions; [`Readings`] holds them and resolves each value against them.

use super::measurand::{Measurand, Quantity};
use crate::assoc::{get, lookup, store, stored};
use crate::model::{
    entries_of, read_number, readable, AbsoluteOrRelativeTime, CmdData,
    ElectricalConnectionParameterDescriptionData, ElectricalConnectionPhaseName, MeasurementData,
    MeasurementDescriptionData, MeasurementId, MeasurementValueState, Payload, ScopeType,
};
use crate::number::Number;
use crate::seqs::{first, lemma_take_next, position};
use vstd::prelude::*;

verus! {

/// Whether a value can be trusted.
#[derive(Clone, Copy, Debug, PartialEq, Eq, Structural)]
pub enum ReadingState {
    /// It can.
    Normal,
    /// It lies outside the range of the sensor, and is to be ignored.
    OutOfRange,
    /// The unit could not measure, and the value is to be ignored.
    Error,
}

/// One resolved value.
#[derive(Clone, Copy, Debug, PartialEq, Eq, Structural)]
pub struct Reading {
    /// What was measured, and on which phases.
    pub measurand: Measurand,
    /// The value, in the measurand's unit, as it was sent.
    pub value: Option<Number>,
    /// Whether the value can be trusted.
    pub state: ReadingState,
    /// When the value was taken, where the unit said so.
    pub timestamp: Option<AbsoluteOrRelativeTime>,
}

impl Reading {
    /// The value, unless the unit flagged it.
    pub open spec fn trusted(self) -> Option<Number> {
        if self.state is Normal {
            self.value
        } else {
            None
        }
    }

    /// The value, unless the unit flagged it: a flagged value is to be ignored, whether it is out
    /// of range or the sensor failed.
    pub fn usable(&self) -> (r: Option<Number>)
        ensures
            r == self.trusted(),
    {
        match self.state {
            ReadingState::Normal => self.value,
            _ => None,
        }
    }
}

/// What one identifier is known to mean.
#[derive(Clone, Copy, Debug, PartialEq, Eq)]
pub struct Known {
    /// The quantity.
    pub quantity: Quantity,
    /// The phases, once they are known; a measurement may also be known to have none.
    pub phases: Option<Option<ElectricalConnectionPhaseName>>,
    /// Whether a parameter description stated them, rather than the scope alone.
    pub stated: bool,
}

/// What a scope alone says about the phases: nothing where they are in the parameter description,
/// that there are none where the measurement is not of alternating current, and all three for a
/// total.
pub open spec fn phases_of_scope(scope: ScopeType) -> Option<
    Option<ElectricalConnectionPhaseName>,
> {
    match scope {
        ScopeType::AcPower
        | ScopeType::AcCurrent
        | ScopeType::AcVoltage
        | ScopeType::AcPowerApparent
        | ScopeType::AcPowerReactive => None,
        ScopeType::DcPower
        | ScopeType::DcCurrent
        | ScopeType::DcVoltage
        | ScopeType::DcEnergy
        | ScopeType::DcChargeEnergy
        | ScopeType::DcDischargeEnergy
        | ScopeType::Charge
        | ScopeType::StateOfCharge
        | ScopeType::StateOfHealth
        | ScopeType::StateOfEnergy
        | ScopeType::UseableCapacity
        | ScopeType::LoadCycleCount
        | ScopeType::InsulationResistance
        | ScopeType::ComponentTemperature
        | ScopeType::DhwTemperature
        | ScopeType::RoomAirTemperature
        | ScopeType::OutsideAirTemperature
        | ScopeType::TravelRange => Some(None),
        _ => Some(Some(ElectricalConnectionPhaseName::Abc)),
    }
}

/// What a scope alone says about the phases.
pub fn phasing_of(scope: &ScopeType) -> (r: Option<Option<ElectricalConnectionPhaseName>>)
    ensures
        r == phases_of_scope(*scope),
{
    match scope {
        ScopeType::AcPower
        | ScopeType::AcCurrent
        | ScopeType::AcVoltage
        | ScopeType::AcPowerApparent
        | ScopeType::AcPowerReactive => None,
        ScopeType::DcPower
        | ScopeType::DcCurrent
        | ScopeType::DcVoltage
        | ScopeType::DcEnergy
        | ScopeType::DcChargeEnergy
        | ScopeType::DcDischargeEnergy
        | ScopeType::Charge
        | ScopeType::StateOfCharge
        | ScopeType::StateOfHealth
        | ScopeType::StateOfEnergy
        | ScopeType::UseableCapacity
        | ScopeType::LoadCycleCount
        | ScopeType::InsulationResistance
        | ScopeType::ComponentTemperature
        | ScopeType::DhwTemperature
        | ScopeType::RoomAirTemperature
        | ScopeType::OutsideAirTemperature
        | ScopeType::TravelRange => Some(None),
        _ => Some(Some(ElectricalConnectionPhaseName::Abc)),
    }
}

/// The quantity that a scope names, from either side.
pub open spec fn quantity_of_scope(scope: ScopeType) -> Option<Quantity> {
    match scope {
        ScopeType::AcPowerTotal | ScopeType::AcPower => Some(Quantity::Power),
        ScopeType::AcEnergyConsumed | ScopeType::GridConsumption => Some(
            Quantity::EnergyConsumed,
        ),
        ScopeType::AcEnergyProduced | ScopeType::GridFeedIn => Some(Quantity::EnergyProduced),
        ScopeType::AcCurrent => Some(Quantity::Current),
        ScopeType::AcVoltage => Some(Quantity::Voltage),
        ScopeType::AcFrequency => Some(Quantity::Frequency),
        ScopeType::Charge => Some(Quantity::EnergyCharged),
        ScopeType::StateOfCharge => Some(Quantity::StateOfCharge),
        ScopeType::StateOfHealth => Some(Quantity::StateOfHealth),
        ScopeType::TravelRange => Some(Quantity::TravelRange),
        ScopeType::AcPowerApparentTotal | ScopeType::AcPowerApparent => Some(
            Quantity::ApparentPower,
        ),
        ScopeType::AcPowerReactiveTotal | ScopeType::AcPowerReactive => Some(
            Quantity::ReactivePower,
        ),
        ScopeType::AcCosPhi => Some(Quantity::PowerFactor),
        ScopeType::AcYieldDay => Some(Quantity::YieldDay),
        ScopeType::AcYieldMonth => Some(Quantity::YieldMonth),
        ScopeType::AcYieldYear => Some(Quantity::YieldYear),
        ScopeType::AcYieldTotal => Some(Quantity::YieldTotal),
        ScopeType::ComponentTemperature => Some(Quantity::Temperature),
        ScopeType::DhwTemperature => Some(Quantity::DhwTemperature),
        ScopeType::RoomAirTemperature => Some(Quantity::RoomTemperature),
        ScopeType::OutsideAirTemperature => Some(Quantity::OutdoorTemperature),
        ScopeType::DcPower => Some(Quantity::DcPower),
        ScopeType::DcCurrent => Some(Quantity::DcCurrent),
        ScopeType::DcVoltage => Some(Quantity::DcVoltage),
        ScopeType::DcEnergy => Some(Quantity::DcEnergy),
        ScopeType::DcChargeEnergy => Some(Quantity::DcChargeEnergy),
        ScopeType::DcDischargeEnergy => Some(Quantity::DcDischargeEnergy),
        ScopeType::StateOfEnergy => Some(Quantity::StateOfEnergy),
        ScopeType::UseableCapacity => Some(Quantity::UsableCapacity),
        ScopeType::LoadCycleCount => Some(Quantity::LoadCycleCount),
        ScopeType::InsulationResistance => Some(Quantity::InsulationResistance),
        ScopeType::ActivePowerLimit | ScopeType::Other(_) => None,
    }
}

/// The quantity that a scope names, from either side.
pub fn quantity_of(scope: &ScopeType) -> (r: Option<Quantity>)
    ensures
        r == quantity_of_scope(*scope),
{
    match scope {
        ScopeType::AcPowerTotal | ScopeType::AcPower => Some(Quantity::Power),
        ScopeType::AcEnergyConsumed | ScopeType::GridConsumption => Some(
            Quantity::EnergyConsumed,
        ),
        ScopeType::AcEnergyProduced | ScopeType::GridFeedIn => Some(Quantity::EnergyProduced),
        ScopeType::AcCurrent => Some(Quantity::Current),
        ScopeType::AcVoltage => Some(Quantity::Voltage),
        ScopeType::AcFrequency => Some(Quantity::Frequency),
        ScopeType::Charge => Some(Quantity::EnergyCharged),
        ScopeType::StateOfCharge => Some(Quantity::StateOfCharge),
        ScopeType::StateOfHealth => Some(Quantity::StateOfHealth),
        ScopeType::TravelRange => Some(Quantity::TravelRange),
        ScopeType::AcPowerApparentTotal | ScopeType::AcPowerApparent => Some(
            Quantity::ApparentPower,
        ),
        ScopeType::AcPowerReactiveTotal | ScopeType::AcPowerReactive => Some(
            Quantity::ReactivePower,
        ),
        ScopeType::AcCosPhi => Some(Quantity::PowerFactor),
        ScopeType::AcYieldDay => Some(Quantity::YieldDay),
        ScopeType::AcYieldMonth => Some(Quantity::YieldMonth),
        ScopeType::AcYieldYear => Some(Quantity::YieldYear),
        ScopeType::AcYieldTotal => Some(Quantity::YieldTotal),
        ScopeType::ComponentTemperature => Some(Quantity::Temperature),
        ScopeType::DhwTemperature => Some(Quantity::DhwTemperature),
        ScopeType::RoomAirTemperature => Some(Quantity::RoomTemperature),
        ScopeType::OutsideAirTemperature => Some(Quantity::OutdoorTemperature),
        ScopeType::DcPower => Some(Quantity::DcPower),
        ScopeType::DcCurrent => Some(Quantity::DcCurrent),
        ScopeType::DcVoltage => Some(Quantity::DcVoltage),
        ScopeType::DcEnergy => Some(Quantity::DcEnergy),
        ScopeType::DcChargeEnergy => Some(Quantity::DcChargeEnergy),
        ScopeType::DcDischargeEnergy => Some(Quantity::DcDischargeEnergy),
        ScopeType::StateOfEnergy => Some(Quantity::StateOfEnergy),
        ScopeType::UseableCapacity => Some(Quantity::UsableCapacity),
        ScopeType::LoadCycleCount => Some(Quantity::LoadCycleCount),
        ScopeType::InsulationResistance => Some(Quantity::InsulationResistance),
        ScopeType::ActivePowerLimit | ScopeType::Other(_) => None,
    }
}

/// What an identifier means once a measurement description is taken in. Phases that a parameter
/// description stated are not unlearned, nor any others by a scope that says nothing of them.
pub open spec fn described_meaning(
    before: Option<Known>,
    quantity: Quantity,
    scope: ScopeType,
) -> Known {
    let inferred = phases_of_scope(scope);
    match before {
        Some(before) => Known {
            quantity,
            phases: if before.stated || inferred is None {
                before.phases
            } else {
                inferred
            },
            stated: before.stated,
        },
        None => Known { quantity, phases: inferred, stated: false },
    }
}

/// What an identifier means once a parameter description is taken in, which states the phases.
pub open spec fn stated_meaning(
    quantity: Quantity,
    phases: Option<ElectricalConnectionPhaseName>,
) -> Known {
    Known { quantity, phases: Some(phases), stated: true }
}

/// The meanings once measurement descriptions are taken in, one after the other.
pub open spec fn measurements_described(
    known: Seq<(MeasurementId, Known)>,
    entries: Seq<MeasurementDescriptionData>,
) -> Seq<(MeasurementId, Known)>
    decreases entries.len(),
{
    if entries.len() == 0 {
        known
    } else {
        let before = measurements_described(known, entries.drop_last());
        let entry = entries.last();
        match (entry.measurement_id, entry.scope_type) {
            (Some(id), Some(scope)) => match quantity_of_scope(scope) {
                Some(quantity) => stored(
                    before,
                    id,
                    described_meaning(lookup(before, id), quantity, scope),
                ),
                None => before,
            },
            _ => before,
        }
    }
}

/// The meanings once parameter descriptions are taken in, one after the other.
pub open spec fn parameters_described(
    known: Seq<(MeasurementId, Known)>,
    entries: Seq<ElectricalConnectionParameterDescriptionData>,
) -> Seq<(MeasurementId, Known)>
    decreases entries.len(),
{
    if entries.len() == 0 {
        known
    } else {
        let before = parameters_described(known, entries.drop_last());
        let entry = entries.last();
        match (entry.measurement_id, entry.scope_type) {
            (Some(id), Some(scope)) => match quantity_of_scope(scope) {
                Some(quantity) => stored(
                    before,
                    id,
                    stated_meaning(quantity, entry.ac_measured_phases),
                ),
                None => before,
            },
            _ => before,
        }
    }
}

/// The measurand that an identifier is known to mean, once its phases are known too.
pub open spec fn meaning_of(known: Seq<(MeasurementId, Known)>, id: MeasurementId) -> Option<
    Measurand,
> {
    match lookup(known, id) {
        Some(meaning) => match meaning.phases {
            Some(phases) => Some(Measurand { quantity: meaning.quantity, phases }),
            None => None,
        },
        None => None,
    }
}

/// The reading that a measurement resolves to, if its identifier has a meaning.
pub open spec fn resolved(
    known: Seq<(MeasurementId, Known)>,
    entry: MeasurementData,
) -> Option<(MeasurementId, Reading)> {
    match entry.measurement_id {
        Some(id) => match meaning_of(known, id) {
            Some(measurand) => Some(
                (
                    id,
                    Reading {
                        measurand,
                        value: readable(entry.value),
                        state: match entry.value_state {
                            Some(MeasurementValueState::OutOfRange) => ReadingState::OutOfRange,
                            Some(MeasurementValueState::Error) => ReadingState::Error,
                            _ => ReadingState::Normal,
                        },
                        timestamp: entry.timestamp,
                    },
                ),
            ),
            None => None,
        },
        None => None,
    }
}

/// The readings once measurements are taken in, one after the other, and those that they resolve
/// to; a number without a meaning is dropped.
pub open spec fn measured(
    known: Seq<(MeasurementId, Known)>,
    values: Seq<(MeasurementId, Reading)>,
    entries: Seq<MeasurementData>,
) -> (Seq<(MeasurementId, Reading)>, Seq<Reading>)
    decreases entries.len(),
{
    if entries.len() == 0 {
        (values, Seq::empty())
    } else {
        let (before, readings) = measured(known, values, entries.drop_last());
        match resolved(known, entries.last()) {
            Some((id, reading)) => (stored(before, id, reading), readings.push(reading)),
            None => (before, readings),
        }
    }
}

/// Picks out the readings of a measurand.
pub open spec fn reading_of(measurand: Measurand) -> spec_fn((MeasurementId, Reading)) -> bool {
    |entry: (MeasurementId, Reading)| entry.1.measurand == measurand
}

/// The identifiers whose meaning is fully known, with it.
pub open spec fn fully_known(known: Seq<(MeasurementId, Known)>) -> Seq<
    (MeasurementId, Measurand),
>
    decreases known.len(),
{
    if known.len() == 0 {
        Seq::empty()
    } else {
        let before = fully_known(known.drop_last());
        match known.last().1.phases {
            Some(phases) => before.push(
                (
                    known.last().0,
                    Measurand { quantity: known.last().1.quantity, phases },
                ),
            ),
            None => before,
        }
    }
}

/// The readings that are held, in the order in which their measurements were described.
pub open spec fn held(
    known: Seq<(MeasurementId, Known)>,
    values: Seq<(MeasurementId, Reading)>,
) -> Seq<Reading>
    decreases known.len(),
{
    if known.len() == 0 {
        Seq::empty()
    } else {
        let before = held(known.drop_last(), values);
        match lookup(values, known.last().0) {
            Some(reading) => before.push(reading),
            None => before,
        }
    }
}

/// What an appliance has learned, as a mathematical value.
pub struct ReadingsView {
    /// What each identifier is known to mean.
    pub known: Seq<(MeasurementId, Known)>,
    /// The latest reading of each identifier.
    pub values: Seq<(MeasurementId, Reading)>,
}

impl ReadingsView {
    /// Nothing learned yet.
    pub open spec fn nothing() -> ReadingsView {
        ReadingsView { known: Seq::empty(), values: Seq::empty() }
    }

    /// Whether a payload describes measurements.
    pub open spec fn describes(data: Payload) -> bool {
        ||| data is MeasurementDescriptionListData
        ||| data is ElectricalConnectionParameterDescriptionListData
    }

    /// Once a description is taken in.
    pub open spec fn described(self, data: Payload) -> ReadingsView {
        match data {
            Payload::MeasurementDescriptionListData(list) => ReadingsView {
                known: measurements_described(self.known, entries_of(list)),
                ..self
            },
            Payload::ElectricalConnectionParameterDescriptionListData(list) => ReadingsView {
                known: parameters_described(self.known, entries_of(list)),
                ..self
            },
            _ => self,
        }
    }

    /// Once values are taken in, and the readings they resolve to.
    pub open spec fn applied(self, data: Payload) -> (ReadingsView, Seq<Reading>) {
        match data {
            Payload::MeasurementListData(list) => {
                let (values, readings) = measured(self.known, self.values, entries_of(list));
                (ReadingsView { values, ..self }, readings)
            },
            _ => (self, Seq::empty()),
        }
    }

    /// The latest reading of a measurand.
    pub open spec fn reading(self, measurand: Measurand) -> Option<Reading> {
        match first(self.values, reading_of(measurand)) {
            Some(entry) => Some(entry.1),
            None => None,
        }
    }

    /// The latest usable value of a measurand.
    pub open spec fn value(self, measurand: Measurand) -> Option<Number> {
        match self.reading(measurand) {
            Some(reading) => reading.trusted(),
            None => None,
        }
    }
}

/// What an appliance has learned about one unit.
#[derive(Clone, Debug, PartialEq, Eq)]
pub struct Readings {
    known: Vec<(MeasurementId, Known)>,
    values: Vec<(MeasurementId, Reading)>,
}

impl View for Readings {
    type V = ReadingsView;

    closed spec fn view(&self) -> ReadingsView {
        ReadingsView { known: self.known@, values: self.values@ }
    }
}

impl Default for Readings {
    fn default() -> (r: Readings)
        ensures
            r@ == ReadingsView::nothing(),
    {
        Readings::new()
    }
}

impl Readings {
    /// Nothing known yet.
    pub fn new() -> (r: Readings)
        ensures
            r@ == ReadingsView::nothing(),
    {
        Readings { known: Vec::new(), values: Vec::new() }
    }

    /// Learns what each identifier means, from either description, and says whether the payload
    /// was one. The two may arrive in either order.
    #[verifier::loop_isolation(false)]
    pub fn describe(&mut self, data: &CmdData) -> (r: bool)
        ensures
            r == ReadingsView::describes(data@),
            final(self)@ == old(self)@.described(data@),
    {
        let ghost before = self@;
        match data {
            CmdData::MeasurementDescriptionListData(list) => {
                if let Some(entries) = &list.measurement_description_data {
                    let mut i: usize = 0;
                    assert(entries@.take(0) =~= Seq::empty());
                    while i < entries.len()
                        invariant
                            i <= entries@.len(),
                            self@ == (ReadingsView {
                                known: measurements_described(
                                    before.known,
                                    entries@.take(i as int),
                                ),
                                ..before
                            }),
                        decreases entries@.len() - i,
                    {
                        proof {
                            lemma_take_next(entries@, i as int);
                        }
                        if let (Some(id), Some(scope)) = (
                            entries[i].measurement_id,
                            entries[i].scope_type,
                        ) {
                            if let Some(quantity) = quantity_of(&scope) {
                                self.learn(id, quantity, scope);
                            }
                        }
                        i = i + 1;
                    }
                    assert(entries@.take(i as int) =~= entries@);
                }
                true
            },
            CmdData::ElectricalConnectionParameterDescriptionListData(list) => {
                if let Some(entries) = &list.electrical_connection_parameter_description_data {
                    let mut i: usize = 0;
                    assert(entries@.take(0) =~= Seq::empty());
                    while i < entries.len()
                        invariant
                            i <= entries@.len(),
                            self@ == (ReadingsView {
                                known: parameters_described(
                                    before.known,
                                    entries@.take(i as int),
                                ),
                                ..before
                            }),
                        decreases entries@.len() - i,
                    {
                        proof {
                            lemma_take_next(entries@, i as int);
                        }
                        if let (Some(id), Some(scope)) = (
                            entries[i].measurement_id,
                            entries[i].scope_type,
                        ) {
                            if let Some(quantity) = quantity_of(&scope) {
                                store(
                                    &mut self.known,
                                    id,
                                    Known {
                                        quantity,
                                        phases: Some(entries[i].ac_measured_phases),
                                        stated: true,
                                    },
                                );
                            }
                        }
                        i = i + 1;
                    }
                    assert(entries@.take(i as int) =~= entries@);
                }
                true
            },
            _ => false,
        }
    }

    /// Records what a measurement description said, without unlearning phases that are known.
    fn learn(&mut self, id: MeasurementId, quantity: Quantity, scope: ScopeType)
        ensures
            final(self)@ == (ReadingsView {
                known: stored(
                    old(self)@.known,
                    id,
                    described_meaning(lookup(old(self)@.known, id), quantity, scope),
                ),
                ..old(self)@
            }),
    {
        let inferred = phasing_of(&scope);
        let known = match get(&self.known, id) {
            Some(before) => Known {
                quantity,
                phases: if before.stated || inferred.is_none() {
                    before.phases
                } else {
                    inferred
                },
                stated: before.stated,
            },
            None => Known { quantity, phases: inferred, stated: false },
        };
        store(&mut self.known, id, known);
    }

    /// Takes in values, and returns what they resolve to. A value whose identifier has no meaning
    /// yet is dropped: a number without a meaning invites a guess.
    #[verifier::loop_isolation(false)]
    pub fn apply(&mut self, data: &CmdData) -> (r: Vec<Reading>)
        ensures
            (final(self)@, r@) == old(self)@.applied(data@),
    {
        let ghost before = self@;
        let mut readings: Vec<Reading> = Vec::new();
        assert(readings@ =~= Seq::empty());
        let list = match data {
            CmdData::MeasurementListData(list) => list,
            _ => return readings,
        };
        if let Some(entries) = &list.measurement_data {
            let mut i: usize = 0;
            assert(entries@.take(0) =~= Seq::empty());
            while i < entries.len()
                invariant
                    i <= entries@.len(),
                    self@.known == before.known,
                    (self@.values, readings@) == measured(
                        before.known,
                        before.values,
                        entries@.take(i as int),
                    ),
                decreases entries@.len() - i,
            {
                proof {
                    lemma_take_next(entries@, i as int);
                }
                if let Some(id) = entries[i].measurement_id {
                    if let Some(measurand) = self.measurand_of(id) {
                        let state = match entries[i].value_state {
                            Some(MeasurementValueState::OutOfRange) => ReadingState::OutOfRange,
                            Some(MeasurementValueState::Error) => ReadingState::Error,
                            _ => ReadingState::Normal,
                        };
                        let reading = Reading {
                            measurand,
                            value: read_number(entries[i].value),
                            state,
                            timestamp: entries[i].timestamp,
                        };
                        store(&mut self.values, id, reading);
                        readings.push(reading);
                    }
                }
                i = i + 1;
            }
            assert(entries@.take(i as int) =~= entries@);
        }
        readings
    }

    /// The measurements whose meaning is fully known, whether or not a value has arrived.
    pub fn described(&self) -> (r: Vec<(MeasurementId, Measurand)>)
        ensures
            r@ == fully_known(self@.known),
    {
        let mut found: Vec<(MeasurementId, Measurand)> = Vec::new();
        let mut i: usize = 0;
        assert(self.known@.take(0) =~= Seq::empty());
        while i < self.known.len()
            invariant
                i <= self.known@.len(),
                found@ == fully_known(self.known@.take(i as int)),
            decreases self.known@.len() - i,
        {
            proof {
                lemma_take_next(self.known@, i as int);
            }
            if let Some(phases) = self.known[i].1.phases {
                found.push(
                    (self.known[i].0, Measurand { quantity: self.known[i].1.quantity, phases }),
                );
            }
            i = i + 1;
        }
        assert(self.known@.take(i as int) =~= self.known@);
        found
    }

    /// What an identifier means, once both descriptions were read.
    pub fn measurand_of(&self, id: MeasurementId) -> (r: Option<Measurand>)
        ensures
            r == meaning_of(self@.known, id),
    {
        match get(&self.known, id) {
            Some(meaning) => match meaning.phases {
                Some(phases) => Some(Measurand { quantity: meaning.quantity, phases }),
                None => None,
            },
            None => None,
        }
    }

    /// The latest reading of a measurand.
    pub fn get(&self, measurand: &Measurand) -> (r: Option<Reading>)
        ensures
            r == self@.reading(*measurand),
    {
        let found = position(
            &self.values,
            |entry: &(MeasurementId, Reading)| -> (b: bool)
                ensures
                    b == (entry.1.measurand == *measurand)
                { entry.1.measurand == *measurand },
            Ghost(reading_of(*measurand)),
        );
        match found {
            Some(index) => Some(self.values[index].1),
            None => None,
        }
    }

    /// The latest usable value of a measurand, in its unit.
    pub fn value(&self, measurand: &Measurand) -> (r: Option<Number>)
        ensures
            r == self@.value(*measurand),
    {
        match self.get(measurand) {
            Some(reading) => reading.usable(),
            None => None,
        }
    }

    /// The latest total active power, in watts. Positive means drawing, negative feeding in.
    pub fn total_power(&self) -> (r: Option<Number>)
        ensures
            r == self@.value(
                (Measurand {
                    quantity: Quantity::Power,
                    phases: Some(ElectricalConnectionPhaseName::Abc),
                }),
            ),
    {
        self.value(&Measurand::total_power())
    }

    /// Every reading that is held, in the order in which the measurements were first described.
    pub fn all(&self) -> (r: Vec<Reading>)
        ensures
            r@ == held(self@.known, self@.values),
    {
        let mut found: Vec<Reading> = Vec::new();
        let mut i: usize = 0;
        assert(self.known@.take(0) =~= Seq::empty());
        while i < self.known.len()
            invariant
                i <= self.known@.len(),
                found@ == held(self.known@.take(i as int), self.values@),
            decreases self.known@.len() - i,
        {
            proof {
                lemma_take_next(self.known@, i as int);
            }
            if let Some(reading) = get(&self.values, self.known[i].0) {
                found.push(reading);
            }
            i = i + 1;
        }
        assert(self.known@.take(i as int) =~= self.known@);
        found
    }
}

} // verus!
