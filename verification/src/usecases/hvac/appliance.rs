//! An appliance that follows and configures heating, hot water and cooling.
//!
//! It keeps one unit for each entity that it follows, and on a unit one reader for each system
//! function and each setpoint scope. There is no binding and there are no timers.

use super::peer::{Following, FollowingView, HvacPeer, HvacPeerView, Subject};
use super::setpoint::{
    SetpointEffect, Setpoints, SetpointsView, WriteRefused,
};
use super::system_function::{
    ModeRefused, OverrunReport, SystemFunction, SystemFunctionView,
};
use crate::address::{
    copy_feature, feature_of, same_feature, AddressDevice, FeatureAddress, FeatureAddressView,
    UnitId, UnitIdView,
};
use crate::assoc::{get, lookup, store, stored};
use crate::model::{
    CmdData, HvacOperationModeId, HvacOperationModeType, HvacOverrunStatus,
    HvacSystemFunctionType, MsgCounter, Payload, ScopeType, SetpointId, UnitOfMeasurement,
};
use crate::number::Number;
use crate::seqs::{
    first, first_index, lemma_mapped_filter, lemma_mapped_first_index, lemma_take_next, position,
    retain,
};
use crate::spine::{partial_only, Engine, EngineView, SpineEvent};
use crate::time::Duration;
use vstd::prelude::*;

verus! {

/// What the appliance reports to the application.
#[derive(Clone, Debug, PartialEq, Eq)]
pub enum HvacEvent {
    /// A system function is described, so that it can be read and set.
    FunctionDescribed {
        /// The unit.
        unit: UnitId,
        /// The function.
        function: HvacSystemFunctionType,
    },
    /// A system function is in another mode.
    ModeChanged {
        /// The unit.
        unit: UnitId,
        /// The function.
        function: HvacSystemFunctionType,
        /// The mode.
        mode: HvacOperationModeType,
        /// Its identifier.
        id: HvacOperationModeId,
    },
    /// An overrun is in another state.
    OverrunChanged {
        /// The unit.
        unit: UnitId,
        /// The function.
        function: HvacSystemFunctionType,
        /// The state.
        report: OverrunReport,
    },
    /// An overrun has finished.
    OverrunFinished {
        /// The unit.
        unit: UnitId,
        /// The function.
        function: HvacSystemFunctionType,
    },
    /// A setpoint has another value.
    SetpointChanged {
        /// The unit.
        unit: UnitId,
        /// The setpoint.
        setpoint: SetpointId,
        /// The value.
        degrees: Number,
    },
}

/// The content of an [`HvacEvent`].
pub enum HvacEventView {
    /// See [`HvacEvent::FunctionDescribed`].
    FunctionDescribed {
        /// The unit.
        unit: UnitIdView,
        /// The function.
        function: HvacSystemFunctionType,
    },
    /// See [`HvacEvent::ModeChanged`].
    ModeChanged {
        /// The unit.
        unit: UnitIdView,
        /// The function.
        function: HvacSystemFunctionType,
        /// The mode.
        mode: HvacOperationModeType,
        /// Its identifier.
        id: HvacOperationModeId,
    },
    /// See [`HvacEvent::OverrunChanged`].
    OverrunChanged {
        /// The unit.
        unit: UnitIdView,
        /// The function.
        function: HvacSystemFunctionType,
        /// The state.
        report: OverrunReport,
    },
    /// See [`HvacEvent::OverrunFinished`].
    OverrunFinished {
        /// The unit.
        unit: UnitIdView,
        /// The function.
        function: HvacSystemFunctionType,
    },
    /// See [`HvacEvent::SetpointChanged`].
    SetpointChanged {
        /// The unit.
        unit: UnitIdView,
        /// The setpoint.
        setpoint: SetpointId,
        /// The value.
        degrees: Number,
    },
}

impl View for HvacEvent {
    type V = HvacEventView;

    open spec fn view(&self) -> HvacEventView {
        match *self {
            HvacEvent::FunctionDescribed { unit, function } => HvacEventView::FunctionDescribed {
                unit: unit@,
                function,
            },
            HvacEvent::ModeChanged { unit, function, mode, id } => HvacEventView::ModeChanged {
                unit: unit@,
                function,
                mode,
                id,
            },
            HvacEvent::OverrunChanged { unit, function, report } =>
                HvacEventView::OverrunChanged { unit: unit@, function, report },
            HvacEvent::OverrunFinished { unit, function } => HvacEventView::OverrunFinished {
                unit: unit@,
                function,
            },
            HvacEvent::SetpointChanged { unit, setpoint, degrees } =>
                HvacEventView::SetpointChanged { unit: unit@, setpoint, degrees },
        }
    }
}

/// The contents of events.
pub open spec fn hvac_events(events: Seq<HvacEvent>) -> Seq<HvacEventView> {
    events.map_values(|event: HvacEvent| event@)
}

/// Adds an event to a list.
fn report(events: &mut Vec<HvacEvent>, event: HvacEvent)
    ensures
        hvac_events(final(events)@) == hvac_events(old(events)@).push(event@),
{
    let ghost before = events@;
    events.push(event);
    assert(hvac_events(events@) =~= hvac_events(before).push(event@));
}

/// One element, if a condition holds.
pub open spec fn only_if<T>(condition: bool, element: T) -> Seq<T> {
    if condition {
        seq![element]
    } else {
        Seq::empty()
    }
}

/// A system function that is followed, and what was last reported of it.
pub struct FunctionView {
    /// The kind of function.
    pub kind: HvacSystemFunctionType,
    /// What is known of it.
    pub reader: SystemFunctionView,
    /// Whether it was reported as described.
    pub described: bool,
    /// The mode it was last in.
    pub mode: Option<HvacOperationModeId>,
    /// The state its overrun was last in.
    pub overrun: Option<OverrunReport>,
}

impl FunctionView {
    /// A function that nothing is known of.
    pub open spec fn fresh(subject: Subject) -> FunctionView {
        FunctionView {
            kind: subject.function,
            reader: SystemFunctionView::following(subject.function, subject.overrun),
            described: false,
            mode: None,
            overrun: None,
        }
    }

    /// The state that the overrun rests in.
    pub open spec fn resting(reader: SystemFunctionView) -> Option<OverrunReport> {
        match reader.overrun_report() {
            Some((report, _)) => Some(report),
            None => None,
        }
    }

    /// Once a payload is taken in.
    pub open spec fn informed(self, data: Payload) -> FunctionView {
        if SystemFunctionView::concerns(data) {
            let reader = self.reader.learned(data);
            FunctionView {
                reader,
                described: self.described || reader.complete(),
                mode: reader.mode_id(),
                overrun: FunctionView::resting(reader),
                ..self
            }
        } else {
            self
        }
    }

    /// What a payload gives to report: that the function is described, a change of the mode and
    /// of the overrun, and the end of the overrun.
    pub open spec fn reports(self, unit: UnitIdView, data: Payload) -> Seq<HvacEventView> {
        if SystemFunctionView::concerns(data) {
            let reader = self.reader.learned(data);
            let mode = reader.mode_id();
            let kind = match mode {
                Some(id) => lookup(reader.modes, id),
                None => None,
            };
            let overrun = FunctionView::resting(reader);
            only_if(
                !self.described && reader.complete(),
                HvacEventView::FunctionDescribed { unit, function: self.kind },
            ) + only_if(
                self.mode != mode && kind is Some,
                HvacEventView::ModeChanged {
                    unit,
                    function: self.kind,
                    mode: kind->0,
                    id: mode->0,
                },
            ) + only_if(
                self.overrun != overrun && overrun is Some,
                HvacEventView::OverrunChanged {
                    unit,
                    function: self.kind,
                    report: overrun->0,
                },
            ) + only_if(
                data is HvacOverrunListData && (reader.overrun_report() matches Some((_, finished))
                    && finished),
                HvacEventView::OverrunFinished { unit, function: self.kind },
            )
        } else {
            Seq::empty()
        }
    }
}

/// The setpoints of one scope that are followed, for the functions they serve.
pub struct ScopeView {
    /// The scope.
    pub scope: ScopeType,
    /// What is known of the setpoints.
    pub reader: SetpointsView,
    /// The functions they serve.
    pub functions: Seq<HvacSystemFunctionType>,
    /// The values last reported.
    pub seen: Seq<(SetpointId, Number)>,
}

/// The values last reported, and the changes to report, once setpoints are looked at one after
/// the other.
pub open spec fn values_seen(
    reader: SetpointsView,
    seen: Seq<(SetpointId, Number)>,
    unit: UnitIdView,
    setpoints: Seq<SetpointId>,
) -> (Seq<(SetpointId, Number)>, Seq<HvacEventView>)
    decreases setpoints.len(),
{
    if setpoints.len() == 0 {
        (seen, Seq::empty())
    } else {
        let (before, events) = values_seen(reader, seen, unit, setpoints.drop_last());
        let setpoint = setpoints.last();
        match lookup(reader.values, setpoint) {
            Some(degrees) => if lookup(before, setpoint) == Some(degrees) {
                (before, events)
            } else {
                (
                    stored(before, setpoint, degrees),
                    events.push(HvacEventView::SetpointChanged { unit, setpoint, degrees }),
                )
            },
            None => (before, events),
        }
    }
}

impl ScopeView {
    /// A scope that nothing is known of, for one function.
    pub open spec fn fresh(scope: ScopeType, function: HvacSystemFunctionType) -> ScopeView {
        ScopeView {
            scope,
            reader: SetpointsView::collecting(scope),
            functions: seq![function],
            seen: Seq::empty(),
        }
    }

    /// Serving one more function.
    pub open spec fn serving(self, function: HvacSystemFunctionType) -> ScopeView {
        if self.functions.contains(function) {
            self
        } else {
            ScopeView { functions: self.functions.push(function), ..self }
        }
    }

    /// The setpoints of the scope.
    pub open spec fn setpoints(reader: SetpointsView) -> Seq<SetpointId> {
        reader.temperatures.map_values(
            |entry: (SetpointId, Option<UnitOfMeasurement>)| entry.0,
        )
    }

    /// Once a payload is taken in, and the changes to report.
    pub open spec fn informed(self, unit: UnitIdView, data: Payload) -> (
        ScopeView,
        Seq<HvacEventView>,
    ) {
        if SetpointsView::concerns(data) {
            let reader = self.reader.learned(data);
            let (seen, events) = values_seen(
                reader,
                self.seen,
                unit,
                ScopeView::setpoints(reader),
            );
            (ScopeView { reader, seen, ..self }, events)
        } else {
            (self, Seq::empty())
        }
    }
}

/// The reports of several functions, one after the other.
pub open spec fn function_reports(
    functions: Seq<FunctionView>,
    unit: UnitIdView,
    data: Payload,
) -> Seq<HvacEventView>
    decreases functions.len(),
{
    if functions.len() == 0 {
        Seq::empty()
    } else {
        function_reports(functions.drop_last(), unit, data) + functions.last().reports(unit, data)
    }
}

/// The reports of several scopes, one after the other.
pub open spec fn scope_reports(scopes: Seq<ScopeView>, unit: UnitIdView, data: Payload) -> Seq<
    HvacEventView,
>
    decreases scopes.len(),
{
    if scopes.len() == 0 {
        Seq::empty()
    } else {
        scope_reports(scopes.drop_last(), unit, data) + scopes.last().informed(unit, data).1
    }
}

/// Picks out a function of this kind.
pub open spec fn of_kind(kind: HvacSystemFunctionType) -> spec_fn(FunctionView) -> bool {
    |function: FunctionView| function.kind == kind
}

/// Picks out the setpoints of a scope.
pub open spec fn of_scope(scope: ScopeType) -> spec_fn(ScopeView) -> bool {
    |setpoints: ScopeView| setpoints.scope == scope
}

/// Picks out the setpoints that serve a function.
pub open spec fn for_function(kind: HvacSystemFunctionType) -> spec_fn(ScopeView) -> bool {
    |setpoints: ScopeView| setpoints.functions.contains(kind)
}

/// A unit that is followed.
pub struct HvacUnitView {
    /// The unit.
    pub id: UnitIdView,
    /// The feature that serves modes and relations.
    pub hvac: FeatureAddressView,
    /// The feature that serves setpoints.
    pub setpoint: Option<FeatureAddressView>,
    /// Its system functions.
    pub functions: Seq<FunctionView>,
    /// Its setpoints, by scope.
    pub scopes: Seq<ScopeView>,
}

impl HvacUnitView {
    /// A unit that nothing is known of.
    pub open spec fn fresh(id: UnitIdView, hvac: FeatureAddressView) -> HvacUnitView {
        HvacUnitView { id, hvac, setpoint: None, functions: Seq::empty(), scopes: Seq::empty() }
    }

    /// A system function of the unit.
    pub open spec fn function(self, kind: HvacSystemFunctionType) -> Option<FunctionView> {
        first(self.functions, of_kind(kind))
    }

    /// The setpoints that serve a function.
    pub open spec fn setpoints_of(self, kind: HvacSystemFunctionType) -> Option<SetpointsView> {
        match first(self.scopes, for_function(kind)) {
            Some(setpoints) => Some(setpoints.reader),
            None => None,
        }
    }

    /// Whether a feature is one of the unit's; its address has to name the device.
    pub open spec fn serves(self, feature: FeatureAddressView) -> bool {
        &&& feature.device == Some(self.id.device)
        &&& {
            ||| self.hvac.shares_feature(feature)
            ||| self.setpoint matches Some(setpoint) && setpoint.shares_feature(feature)
        }
    }

    /// With the features of a peer, and with the readers that its subject needs. What is known
    /// already is kept.
    pub open spec fn taking_up(self, peer: HvacPeerView) -> HvacUnitView {
        let placed = HvacUnitView {
            hvac: peer.hvac,
            setpoint: if peer.setpoint is Some {
                peer.setpoint
            } else {
                self.setpoint
            },
            ..self
        };
        let function = peer.subject.function;
        match peer.subject.scope {
            Some(scope) => HvacUnitView {
                scopes: match first_index(self.scopes, of_scope(scope)) {
                    Some(index) => self.scopes.update(
                        index,
                        self.scopes[index].serving(function),
                    ),
                    None => self.scopes.push(ScopeView::fresh(scope, function)),
                },
                ..placed
            },
            None => HvacUnitView {
                functions: if self.function(function) is Some {
                    self.functions
                } else {
                    self.functions.push(FunctionView::fresh(peer.subject))
                },
                ..placed
            },
        }
    }

    /// Once a payload is taken in, and what there is to report.
    pub open spec fn informed(self, data: Payload) -> (HvacUnitView, Seq<HvacEventView>) {
        (
            HvacUnitView {
                functions: self.functions.map_values(
                    |function: FunctionView| function.informed(data),
                ),
                scopes: self.scopes.map_values(
                    |setpoints: ScopeView| setpoints.informed(self.id, data).0,
                ),
                ..self
            },
            function_reports(self.functions, self.id, data) + scope_reports(
                self.scopes,
                self.id,
                data,
            ),
        )
    }
}

/// The appliance as a mathematical value.
pub struct HvacApplianceView {
    /// The own feature that asks and writes.
    pub client: FeatureAddressView,
    /// The units, in the order in which they were attached.
    pub units: Seq<HvacUnitView>,
}

/// Picks out a unit.
pub open spec fn is_unit(id: UnitIdView) -> spec_fn(HvacUnitView) -> bool {
    |unit: HvacUnitView| unit.id == id
}

/// Picks out every other unit.
pub open spec fn is_other_unit(id: UnitIdView) -> spec_fn(HvacUnitView) -> bool {
    |unit: HvacUnitView| unit.id != id
}

/// Picks out the units of other devices.
pub open spec fn is_elsewhere(device: Seq<char>) -> spec_fn(HvacUnitView) -> bool {
    |unit: HvacUnitView| unit.id.device != device
}

/// Picks out the unit that a feature belongs to.
pub open spec fn is_served_on(feature: FeatureAddressView) -> spec_fn(HvacUnitView) -> bool {
    |unit: HvacUnitView| unit.serves(feature)
}

impl HvacApplianceView {
    /// A unit.
    pub open spec fn unit(self, id: UnitIdView) -> Option<HvacUnitView> {
        first(self.units, is_unit(id))
    }

    /// What is known of a system function.
    pub open spec fn reader(self, id: UnitIdView, kind: HvacSystemFunctionType) -> Option<
        SystemFunctionView,
    > {
        match self.unit(id) {
            Some(unit) => match unit.function(kind) {
                Some(function) => Some(function.reader),
                None => None,
            },
            None => None,
        }
    }

    /// What is known of the setpoints that serve a system function.
    pub open spec fn setpoints(self, id: UnitIdView, kind: HvacSystemFunctionType) -> Option<
        SetpointsView,
    > {
        match self.unit(id) {
            Some(unit) => unit.setpoints_of(kind),
            None => None,
        }
    }

    /// A use case of a peer is followed.
    pub open spec fn attached(self, engine: EngineView, peer: HvacPeerView, now: Duration) -> (
        HvacApplianceView,
        EngineView,
        FollowingView,
    ) {
        let (sent, following) = peer.followed(engine, self.client, now);
        (
            HvacApplianceView {
                units: match first_index(self.units, is_unit(peer.unit())) {
                    Some(index) => self.units.update(index, self.units[index].taking_up(peer)),
                    None => self.units.push(
                        HvacUnitView::fresh(peer.unit(), peer.hvac).taking_up(peer),
                    ),
                },
                ..self
            },
            sent,
            following,
        )
    }

    /// The node once a write is sent, and its number; or why it is refused.
    pub open spec fn sending<E>(
        self,
        engine: EngineView,
        feature: FeatureAddressView,
        write: Result<Payload, E>,
        now: Duration,
    ) -> (EngineView, Result<MsgCounter, E>) {
        match write {
            Ok(data) => (
                engine.writing(feature, self.client, data, partial_only(), now),
                Ok(engine.counter()),
            ),
            Err(refusal) => (engine, Err(refusal)),
        }
    }

    /// A mode is set, by its name.
    pub open spec fn setting_mode(
        self,
        engine: EngineView,
        id: UnitIdView,
        kind: HvacSystemFunctionType,
        mode: HvacOperationModeType,
        now: Duration,
    ) -> (EngineView, Result<MsgCounter, ModeRefused>) {
        match (self.unit(id), self.reader(id, kind)) {
            (Some(unit), Some(reader)) => self.sending(
                engine,
                unit.hvac,
                reader.named_mode_write(mode),
                now,
            ),
            _ => (engine, Err(ModeRefused::FunctionUnknown)),
        }
    }

    /// An overrun is brought into a state.
    pub open spec fn setting_overrun(
        self,
        engine: EngineView,
        id: UnitIdView,
        kind: HvacSystemFunctionType,
        status: HvacOverrunStatus,
        now: Duration,
    ) -> (EngineView, Result<MsgCounter, ModeRefused>) {
        match (self.unit(id), self.reader(id, kind)) {
            (Some(unit), Some(reader)) => self.sending(
                engine,
                unit.hvac,
                reader.overrun_write(status),
                now,
            ),
            _ => (engine, Err(ModeRefused::NoOverrun)),
        }
    }

    /// The temperature that the mode the function is in uses, is set.
    pub open spec fn setting_temperature(
        self,
        engine: EngineView,
        id: UnitIdView,
        kind: HvacSystemFunctionType,
        degrees: Number,
        now: Duration,
    ) -> (EngineView, Result<MsgCounter, WriteRefused>) {
        match (self.unit(id), self.reader(id, kind)) {
            (Some(unit), Some(reader)) => match (unit.setpoints_of(kind), unit.setpoint) {
                (Some(setpoints), Some(feature)) => self.sending(
                    engine,
                    feature,
                    setpoints.current_write(degrees, reader),
                    now,
                ),
                _ => (engine, Err(WriteRefused::UnknownSetpoint)),
            },
            _ => (engine, Err(WriteRefused::ModeUnknown)),
        }
    }

    /// A setpoint that the mode the function is in uses, is set.
    pub open spec fn setting_setpoint(
        self,
        engine: EngineView,
        id: UnitIdView,
        kind: HvacSystemFunctionType,
        setpoint: SetpointId,
        degrees: Number,
        now: Duration,
    ) -> (EngineView, Result<MsgCounter, WriteRefused>) {
        match (self.unit(id), self.reader(id, kind)) {
            (Some(unit), Some(reader)) => match (unit.setpoints_of(kind), unit.setpoint) {
                (Some(setpoints), Some(feature)) => self.sending(
                    engine,
                    feature,
                    setpoints.effective_write(setpoint, degrees, reader),
                    now,
                ),
                _ => (engine, Err(WriteRefused::UnknownSetpoint)),
            },
            _ => (engine, Err(WriteRefused::ModeUnknown)),
        }
    }

    /// A setpoint is set, whatever mode the function is in.
    pub open spec fn preloading_setpoint(
        self,
        engine: EngineView,
        id: UnitIdView,
        kind: HvacSystemFunctionType,
        setpoint: SetpointId,
        degrees: Number,
        now: Duration,
    ) -> (EngineView, Result<MsgCounter, WriteRefused>) {
        match self.unit(id) {
            Some(unit) => match (unit.setpoints_of(kind), unit.setpoint) {
                (Some(setpoints), Some(feature)) => self.sending(
                    engine,
                    feature,
                    setpoints.write(setpoint, degrees),
                    now,
                ),
                _ => (engine, Err(WriteRefused::UnknownSetpoint)),
            },
            None => (engine, Err(WriteRefused::UnknownSetpoint)),
        }
    }

    /// Data of a feature arrived.
    pub open spec fn informed(self, feature: FeatureAddressView, data: Payload) -> (
        HvacApplianceView,
        Seq<HvacEventView>,
    ) {
        match first_index(self.units, is_served_on(feature)) {
            Some(index) => {
                let (unit, events) = self.units[index].informed(data);
                (HvacApplianceView { units: self.units.update(index, unit), ..self }, events)
            },
            None => (self, Seq::empty()),
        }
    }

    /// What an event does.
    pub open spec fn stepped(self, event: SpineEvent) -> (HvacApplianceView, Seq<HvacEventView>) {
        match event {
            SpineEvent::ReplyReceived { feature, resolved } => self.informed(
                feature@,
                resolved@,
            ),
            SpineEvent::DataNotified { feature, resolved } => self.informed(
                feature@,
                resolved@,
            ),
            _ => (self, Seq::empty()),
        }
    }
}

/// A system function that is followed.
#[derive(Debug)]
struct FollowedFunction {
    kind: HvacSystemFunctionType,
    reader: SystemFunction,
    described: bool,
    mode: Option<HvacOperationModeId>,
    overrun: Option<OverrunReport>,
}

impl View for FollowedFunction {
    type V = FunctionView;

    closed spec fn view(&self) -> FunctionView {
        FunctionView {
            kind: self.kind,
            reader: self.reader@,
            described: self.described,
            mode: self.mode,
            overrun: self.overrun,
        }
    }
}

impl FollowedFunction {
    /// Takes in a payload, and reports what changed.
    fn inform(&mut self, unit: &UnitId, data: &CmdData, events: &mut Vec<HvacEvent>)
        ensures
            final(self)@ == old(self)@.informed(data@),
            hvac_events(final(events)@) == hvac_events(old(events)@) + old(self)@.reports(
                unit@,
                data@,
            ),
    {
        let ghost before = hvac_events(events@);
        let ghost reports = self@.reports(unit@, data@);
        if !self.reader.learn(data) {
            assert(before =~= before + reports);
            return;
        }
        if !self.described && self.reader.is_complete() {
            self.described = true;
            report(
                events,
                HvacEvent::FunctionDescribed { unit: unit.copy(), function: self.kind },
            );
        }
        let mode = self.reader.mode_id();
        if let Some(id) = mode {
            let same = match self.mode {
                Some(known) => known == id,
                None => false,
            };
            if !same {
                if let Some(kind) = self.reader.modes().kind_of(id) {
                    report(
                        events,
                        HvacEvent::ModeChanged {
                            unit: unit.copy(),
                            function: self.kind,
                            mode: kind,
                            id,
                        },
                    );
                }
            }
        }
        let overrun = self.reader.overrun();
        if let Some(found) = overrun {
            let same = match self.overrun {
                Some(known) => known == found,
                None => false,
            };
            if !same {
                report(
                    events,
                    HvacEvent::OverrunChanged {
                        unit: unit.copy(),
                        function: self.kind,
                        report: found,
                    },
                );
            }
        }
        let is_overrun = match data {
            CmdData::HvacOverrunListData(_) => true,
            _ => false,
        };
        if is_overrun && self.reader.overrun_just_finished() {
            report(
                events,
                HvacEvent::OverrunFinished { unit: unit.copy(), function: self.kind },
            );
        }
        self.mode = mode;
        self.overrun = overrun;
        assert(hvac_events(events@) =~= before + reports);
    }
}

/// The setpoints of one scope that are followed.
#[derive(Debug)]
struct FollowedScope {
    scope: ScopeType,
    reader: Setpoints,
    functions: Vec<HvacSystemFunctionType>,
    seen: Vec<(SetpointId, Number)>,
}

impl View for FollowedScope {
    type V = ScopeView;

    closed spec fn view(&self) -> ScopeView {
        ScopeView {
            scope: self.scope,
            reader: self.reader@,
            functions: self.functions@,
            seen: self.seen@,
        }
    }
}

impl FollowedScope {
    /// Whether these setpoints serve a function.
    fn serves(&self, kind: HvacSystemFunctionType) -> (r: bool)
        ensures
            r == self@.functions.contains(kind),
    {
        let mut i: usize = 0;
        while i < self.functions.len()
            invariant
                i <= self.functions@.len(),
                forall|j: int| 0 <= j < i ==> self.functions@[j] != kind,
            decreases self.functions@.len() - i,
        {
            if self.functions[i] == kind {
                assert(self.functions@[i as int] == kind);
                return true;
            }
            i = i + 1;
        }
        false
    }

    /// Takes in a payload, and reports what changed.
    fn inform(&mut self, unit: &UnitId, data: &CmdData, events: &mut Vec<HvacEvent>)
        ensures
            final(self)@ == old(self)@.informed(unit@, data@).0,
            hvac_events(final(events)@) == hvac_events(old(events)@) + old(self)@.informed(
                unit@,
                data@,
            ).1,
    {
        let ghost start = self@;
        let ghost before = hvac_events(events@);
        if !self.reader.learn(data) {
            assert(before =~= before + start.informed(unit@, data@).1);
            return;
        }
        let setpoints = self.reader.temperature_setpoints();
        let ghost reader = self.reader@;
        let mut i: usize = 0;
        assert(setpoints@.take(0) =~= Seq::empty());
        assert(before =~= before + Seq::<HvacEventView>::empty());
        while i < setpoints.len()
            invariant
                i <= setpoints@.len(),
                self@ == (ScopeView { reader, seen: self@.seen, ..start }),
                self@.seen == values_seen(
                    reader,
                    start.seen,
                    unit@,
                    setpoints@.take(i as int),
                ).0,
                hvac_events(events@) == before + values_seen(
                    reader,
                    start.seen,
                    unit@,
                    setpoints@.take(i as int),
                ).1,
            decreases setpoints@.len() - i,
        {
            proof {
                lemma_take_next(setpoints@, i as int);
            }
            let setpoint = setpoints[i];
            if let Some(degrees) = self.reader.temperature(setpoint) {
                let same = match get(&self.seen, setpoint) {
                    Some(known) => known == degrees,
                    None => false,
                };
                if !same {
                    let ghost had = hvac_events(events@);
                    store(&mut self.seen, setpoint, degrees);
                    report(
                        events,
                        HvacEvent::SetpointChanged { unit: unit.copy(), setpoint, degrees },
                    );
                    assert(hvac_events(events@) =~= before + values_seen(
                        reader,
                        start.seen,
                        unit@,
                        setpoints@.take(i + 1),
                    ).1);
                }
            }
            i = i + 1;
        }
        assert(setpoints@.take(i as int) =~= setpoints@);
    }
}

/// A unit that is followed.
#[derive(Debug)]
struct FollowedUnit {
    id: UnitId,
    hvac: FeatureAddress,
    setpoint: Option<FeatureAddress>,
    functions: Vec<FollowedFunction>,
    scopes: Vec<FollowedScope>,
}

impl View for FollowedUnit {
    type V = HvacUnitView;

    closed spec fn view(&self) -> HvacUnitView {
        HvacUnitView {
            id: self.id@,
            hvac: self.hvac@,
            setpoint: feature_of(self.setpoint),
            functions: self.functions@.map_values(|function: FollowedFunction| function@),
            scopes: self.scopes@.map_values(|setpoints: FollowedScope| setpoints@),
        }
    }
}

impl FollowedUnit {
    /// A unit that nothing is known of.
    fn new(id: UnitId, hvac: FeatureAddress) -> (r: FollowedUnit)
        ensures
            r@ == HvacUnitView::fresh(id@, hvac@),
    {
        let r = FollowedUnit {
            id,
            hvac,
            setpoint: None,
            functions: Vec::new(),
            scopes: Vec::new(),
        };
        assert(r@.functions =~= Seq::empty());
        assert(r@.scopes =~= Seq::empty());
        r
    }

    /// A system function of the unit.
    fn function(&self, kind: &HvacSystemFunctionType) -> (r: Option<&FollowedFunction>)
        ensures
            match r {
                Some(function) => self@.function(*kind) == Some(function@),
                None => self@.function(*kind) is None,
            },
    {
        let ghost wanted = |function: FollowedFunction| of_kind(*kind)(function@);
        proof {
            lemma_mapped_first_index(
                self.functions@,
                |function: FollowedFunction| function@,
                wanted,
                of_kind(*kind),
            );
        }
        let found = position(
            &self.functions,
            |function: &FollowedFunction| -> (b: bool)
                ensures
                    b == of_kind(*kind)(function@)
                { function.kind == *kind },
            Ghost(wanted),
        );
        match found {
            Some(index) => Some(&self.functions[index]),
            None => None,
        }
    }

    /// The setpoints that serve a function.
    fn setpoints_of(&self, kind: &HvacSystemFunctionType) -> (r: Option<&Setpoints>)
        ensures
            match r {
                Some(setpoints) => self@.setpoints_of(*kind) == Some(setpoints@),
                None => self@.setpoints_of(*kind) is None,
            },
    {
        let ghost wanted = |setpoints: FollowedScope| for_function(*kind)(setpoints@);
        proof {
            lemma_mapped_first_index(
                self.scopes@,
                |setpoints: FollowedScope| setpoints@,
                wanted,
                for_function(*kind),
            );
        }
        let found = position(
            &self.scopes,
            |setpoints: &FollowedScope| -> (b: bool)
                ensures
                    b == for_function(*kind)(setpoints@)
                { setpoints.serves(*kind) },
            Ghost(wanted),
        );
        match found {
            Some(index) => Some(&self.scopes[index].reader),
            None => None,
        }
    }

    /// Whether a feature is one of the unit's.
    fn serves(&self, feature: &FeatureAddress) -> (r: bool)
        ensures
            r == self@.serves(feature@),
    {
        if !feature.is_on(&self.id.device) {
            return false;
        }
        if same_feature(&self.hvac, feature) {
            return true;
        }
        match &self.setpoint {
            Some(setpoint) => same_feature(setpoint, feature),
            None => false,
        }
    }

    /// Takes up the features of a peer, and the readers that its subject needs.
    fn take_up(&mut self, peer: &HvacPeer)
        ensures
            final(self)@ == old(self)@.taking_up(peer@),
    {
        let ghost before = self@;
        self.hvac = peer.hvac.copy();
        if peer.setpoint.is_some() {
            self.setpoint = copy_feature(&peer.setpoint);
        }
        let function = peer.subject.function;
        match peer.subject.scope {
            Some(scope) => {
                let ghost wanted = |setpoints: FollowedScope| of_scope(scope)(setpoints@);
                proof {
                    lemma_mapped_first_index(
                        self.scopes@,
                        |setpoints: FollowedScope| setpoints@,
                        wanted,
                        of_scope(scope),
                    );
                }
                let found = position(
                    &self.scopes,
                    |setpoints: &FollowedScope| -> (b: bool)
                        ensures
                            b == of_scope(scope)(setpoints@)
                        { setpoints.scope == scope },
                    Ghost(wanted),
                );
                match found {
                    Some(index) => {
                        let ghost scopes = self.scopes@;
                        assert(scopes[index as int]@ == before.scopes[index as int]);
                        if !self.scopes[index].serves(function) {
                            self.scopes[index].functions.push(function);
                        }
                        assert(self@.scopes =~= before.scopes.update(
                            index as int,
                            before.scopes[index as int].serving(function),
                        ));
                    },
                    None => {
                        let functions = vec![function];
                        let fresh = FollowedScope {
                            scope,
                            reader: Setpoints::of(scope),
                            functions,
                            seen: Vec::new(),
                        };
                        assert(fresh@.functions =~= seq![function]);
                        self.scopes.push(fresh);
                        assert(self@.scopes =~= before.scopes.push(fresh@));
                    },
                }
            },
            None => {
                if self.function(&function).is_none() {
                    let fresh = FollowedFunction {
                        kind: function,
                        reader: peer.subject.system_function(),
                        described: false,
                        mode: None,
                        overrun: None,
                    };
                    self.functions.push(fresh);
                    assert(self@.functions =~= before.functions.push(fresh@));
                }
            },
        }
        assert(self@ == before.taking_up(peer@));
    }

    /// Takes in a payload, and reports what changed.
    fn apply(&mut self, data: &CmdData) -> (r: Vec<HvacEvent>)
        ensures
            (final(self)@, hvac_events(r@)) == old(self)@.informed(data@),
    {
        let ghost before = self@;
        let mut events: Vec<HvacEvent> = Vec::new();
        let mut i: usize = 0;
        assert(before.functions.take(0) =~= Seq::empty());
        assert(hvac_events(events@) =~= Seq::empty());
        while i < self.functions.len()
            invariant
                i <= self.functions@.len(),
                self.functions@.len() == before.functions.len(),
                self@ == (HvacUnitView { functions: self@.functions, ..before }),
                forall|j: int|
                    0 <= j < i ==> (#[trigger] self.functions@[j])@ == before.functions[j].informed(
                        data@,
                    ),
                forall|j: int|
                    i <= j < self.functions@.len() ==> (#[trigger] self.functions@[j])@
                        == before.functions[j],
                hvac_events(events@) == function_reports(
                    before.functions.take(i as int),
                    before.id,
                    data@,
                ),
            decreases self.functions@.len() - i,
        {
            proof {
                lemma_take_next(before.functions, i as int);
            }
            self.functions[i].inform(&self.id, data, &mut events);
            i = i + 1;
        }
        assert(before.functions.take(i as int) =~= before.functions);
        assert(self@.functions =~= before.informed(data@).0.functions);
        let ghost taught = self@;
        let ghost reported = hvac_events(events@);
        i = 0;
        assert(before.scopes.take(0) =~= Seq::empty());
        assert(reported =~= reported + scope_reports(before.scopes.take(0), before.id, data@));
        while i < self.scopes.len()
            invariant
                i <= self.scopes@.len(),
                self.scopes@.len() == before.scopes.len(),
                taught == (HvacUnitView { functions: taught.functions, ..before }),
                self@ == (HvacUnitView { scopes: self@.scopes, ..taught }),
                forall|j: int|
                    0 <= j < i ==> (#[trigger] self.scopes@[j])@ == before.scopes[j].informed(
                        before.id,
                        data@,
                    ).0,
                forall|j: int|
                    i <= j < self.scopes@.len() ==> (#[trigger] self.scopes@[j])@
                        == before.scopes[j],
                hvac_events(events@) == reported + scope_reports(
                    before.scopes.take(i as int),
                    before.id,
                    data@,
                ),
            decreases self.scopes@.len() - i,
        {
            proof {
                lemma_take_next(before.scopes, i as int);
            }
            self.scopes[i].inform(&self.id, data, &mut events);
            assert(hvac_events(events@) =~= reported + scope_reports(
                before.scopes.take(i + 1),
                before.id,
                data@,
            ));
            i = i + 1;
        }
        assert(before.scopes.take(i as int) =~= before.scopes);
        assert(self@.scopes =~= before.informed(data@).0.scopes);
        events
    }
}

/// A Monitoring or Configuration Appliance on a node.
#[derive(Debug)]
pub struct HvacApplianceActor {
    client: FeatureAddress,
    units: Vec<FollowedUnit>,
}

impl View for HvacApplianceActor {
    type V = HvacApplianceView;

    closed spec fn view(&self) -> HvacApplianceView {
        HvacApplianceView {
            client: self.client@,
            units: self.units@.map_values(|unit: FollowedUnit| unit@),
        }
    }
}

impl HvacApplianceActor {
    /// An appliance that reads and writes from its one client feature.
    pub fn new(client: FeatureAddress) -> (r: HvacApplianceActor)
        ensures
            r@ == (HvacApplianceView { client: client@, units: Seq::empty() }),
    {
        let r = HvacApplianceActor { client, units: Vec::new() };
        assert(r@.units =~= Seq::empty());
        r
    }

    /// Where a unit is.
    fn find(&self, id: &UnitId) -> (r: Option<usize>)
        ensures
            match r {
                Some(index) => first_index(self@.units, is_unit(id@)) == Some(index as int)
                    && index < self.units@.len(),
                None => first_index(self@.units, is_unit(id@)) is None,
            },
    {
        let ghost wanted = |unit: FollowedUnit| is_unit(id@)(unit@);
        proof {
            lemma_mapped_first_index(
                self.units@,
                |unit: FollowedUnit| unit@,
                wanted,
                is_unit(id@),
            );
        }
        position(
            &self.units,
            |unit: &FollowedUnit| -> (b: bool)
                ensures
                    b == is_unit(id@)(unit@)
                { unit.id.is(id) },
            Ghost(wanted),
        )
    }

    /// A unit.
    fn unit(&self, id: &UnitId) -> (r: Option<&FollowedUnit>)
        ensures
            match r {
                Some(unit) => self@.unit(id@) == Some(unit@),
                None => self@.unit(id@) is None,
            },
    {
        match self.find(id) {
            Some(index) => Some(&self.units[index]),
            None => None,
        }
    }

    /// Follows one use case of one peer: subscribes, reads, and keeps the reader it needs. Use
    /// cases of one entity gather on one unit. For one that is followed already the exchange
    /// starts over, and what is known is kept until the replies replace it.
    pub fn attach(&mut self, engine: &mut Engine, peer: HvacPeer, now: Duration) -> (r: Following)
        ensures
            (final(self)@, final(engine)@, r@) == old(self)@.attached(old(engine)@, peer@, now),
    {
        let following = peer.follow(engine, &self.client, now);
        let id = peer.id();
        let ghost before = self@;
        match self.find(&id) {
            Some(index) => {
                let ghost units = self.units@;
                assert(units[index as int]@ == before.units[index as int]);
                self.units[index].take_up(&peer);
                assert(self@.units =~= before.units.update(
                    index as int,
                    before.units[index as int].taking_up(peer@),
                ));
            },
            None => {
                let mut unit = FollowedUnit::new(id, peer.hvac.copy());
                unit.take_up(&peer);
                self.units.push(unit);
                assert(self@.units =~= before.units.push(unit@));
            },
        }
        following
    }

    /// Stops following a unit.
    pub fn detach(&mut self, unit: &UnitId)
        ensures
            final(self)@ == (HvacApplianceView {
                units: old(self)@.units.filter(is_other_unit(unit@)),
                ..old(self)@
            }),
    {
        let ghost wanted = |member: FollowedUnit| is_other_unit(unit@)(member@);
        proof {
            lemma_mapped_filter(
                self.units@,
                |member: FollowedUnit| member@,
                wanted,
                is_other_unit(unit@),
            );
        }
        retain(
            &mut self.units,
            |member: &FollowedUnit| -> (b: bool)
                ensures
                    b == is_other_unit(unit@)(member@)
                { !member.id.is(unit) },
            Ghost(wanted),
        );
    }

    /// Stops following every unit of a device, as when its connection is lost.
    pub fn detach_device(&mut self, device: &AddressDevice)
        ensures
            final(self)@ == (HvacApplianceView {
                units: old(self)@.units.filter(is_elsewhere(device@)),
                ..old(self)@
            }),
    {
        let ghost wanted = |member: FollowedUnit| is_elsewhere(device@)(member@);
        proof {
            lemma_mapped_filter(
                self.units@,
                |member: FollowedUnit| member@,
                wanted,
                is_elsewhere(device@),
            );
        }
        retain(
            &mut self.units,
            |member: &FollowedUnit| -> (b: bool)
                ensures
                    b == is_elsewhere(device@)(member@)
                { !member.id.device.is(device) },
            Ghost(wanted),
        );
    }

    /// The units that are followed.
    pub fn units(&self) -> (r: Vec<&UnitId>)
        ensures
            r@.len() == self@.units.len(),
            forall|i: int| 0 <= i < r@.len() ==> (#[trigger] r@[i])@ == self@.units[i].id,
    {
        let mut ids: Vec<&UnitId> = Vec::new();
        let mut i: usize = 0;
        while i < self.units.len()
            invariant
                i <= self.units@.len(),
                ids@.len() == i,
                forall|j: int| 0 <= j < i ==> (#[trigger] ids@[j])@ == self@.units[j].id,
            decreases self.units@.len() - i,
        {
            ids.push(&self.units[i].id);
            i = i + 1;
        }
        ids
    }

    /// What is known of one system function of a unit.
    pub fn system_function(&self, unit: &UnitId, function: &HvacSystemFunctionType) -> (r: Option<
        &SystemFunction,
    >)
        ensures
            match r {
                Some(reader) => self@.reader(unit@, *function) == Some(reader@),
                None => self@.reader(unit@, *function) is None,
            },
    {
        match self.unit(unit) {
            Some(unit) => match unit.function(function) {
                Some(followed) => Some(&followed.reader),
                None => None,
            },
            None => None,
        }
    }

    /// What is known of the setpoints that serve a system function.
    pub fn setpoints(&self, unit: &UnitId, function: &HvacSystemFunctionType) -> (r: Option<
        &Setpoints,
    >)
        ensures
            match r {
                Some(setpoints) => self@.setpoints(unit@, *function) == Some(setpoints@),
                None => self@.setpoints(unit@, *function) is None,
            },
    {
        match self.unit(unit) {
            Some(unit) => unit.setpoints_of(function),
            None => None,
        }
    }

    /// The mode that a system function is in, by its name.
    pub fn mode(&self, unit: &UnitId, function: &HvacSystemFunctionType) -> (r: Option<
        HvacOperationModeType,
    >)
        ensures
            r == match self@.reader(unit@, *function) {
                Some(reader) => reader.mode(),
                None => None,
            },
    {
        match self.system_function(unit, function) {
            Some(reader) => reader.mode(),
            None => None,
        }
    }

    /// The temperature that a unit is currently working to, and its setpoint: none where the mode
    /// uses no single setpoint, or its value is not known.
    pub fn temperature(&self, unit: &UnitId, function: &HvacSystemFunctionType) -> (r: Option<
        (SetpointId, Number),
    >)
        ensures
            r == match (self@.reader(unit@, *function), self@.setpoints(unit@, *function)) {
                (Some(reader), Some(setpoints)) => match setpoints.current(reader) {
                    Ok(id) => match lookup(setpoints.values, id) {
                        Some(degrees) => Some((id, degrees)),
                        None => None,
                    },
                    Err(_) => None,
                },
                _ => None,
            },
    {
        match (self.system_function(unit, function), self.setpoints(unit, function)) {
            (Some(reader), Some(setpoints)) => match setpoints.current_setpoint(reader) {
                Ok(id) => match setpoints.temperature(id) {
                    Some(degrees) => Some((id, degrees)),
                    None => None,
                },
                Err(_) => None,
            },
            _ => None,
        }
    }

    /// What writing one setpoint of a unit would do.
    pub fn effect(
        &self,
        unit: &UnitId,
        function: &HvacSystemFunctionType,
        setpoint: SetpointId,
    ) -> (r: SetpointEffect)
        ensures
            r == match (self@.reader(unit@, *function), self@.setpoints(unit@, *function)) {
                (Some(reader), Some(setpoints)) => setpoints.effect(setpoint, reader),
                _ => SetpointEffect::Unknown,
            },
    {
        match (self.system_function(unit, function), self.setpoints(unit, function)) {
            (Some(reader), Some(setpoints)) => setpoints.effect_of(setpoint, reader),
            _ => SetpointEffect::Unknown,
        }
    }

    /// Puts a system function into a mode, by its name.
    pub fn set_mode(
        &self,
        engine: &mut Engine,
        unit: &UnitId,
        function: &HvacSystemFunctionType,
        mode: &HvacOperationModeType,
        now: Duration,
    ) -> (r: Result<MsgCounter, ModeRefused>)
        ensures
            (final(engine)@, r) == self@.setting_mode(
                old(engine)@,
                unit@,
                *function,
                *mode,
                now,
            ),
    {
        let unit = match self.unit(unit) {
            Some(unit) => unit,
            None => return Err(ModeRefused::FunctionUnknown),
        };
        let followed = match unit.function(function) {
            Some(followed) => followed,
            None => return Err(ModeRefused::FunctionUnknown),
        };
        match followed.reader.set_mode_named(mode) {
            Ok(write) => Ok(self.send(engine, &unit.hvac, write, now)),
            Err(refusal) => Err(refusal),
        }
    }

    /// Starts a system function's overrun.
    pub fn start_overrun(
        &self,
        engine: &mut Engine,
        unit: &UnitId,
        function: &HvacSystemFunctionType,
        now: Duration,
    ) -> (r: Result<MsgCounter, ModeRefused>)
        ensures
            (final(engine)@, r) == self@.setting_overrun(
                old(engine)@,
                unit@,
                *function,
                HvacOverrunStatus::Active,
                now,
            ),
    {
        self.overrun(engine, unit, function, now, true)
    }

    /// Stops a system function's overrun.
    pub fn stop_overrun(
        &self,
        engine: &mut Engine,
        unit: &UnitId,
        function: &HvacSystemFunctionType,
        now: Duration,
    ) -> (r: Result<MsgCounter, ModeRefused>)
        ensures
            (final(engine)@, r) == self@.setting_overrun(
                old(engine)@,
                unit@,
                *function,
                HvacOverrunStatus::Inactive,
                now,
            ),
    {
        self.overrun(engine, unit, function, now, false)
    }

    /// Starts or stops a system function's overrun.
    fn overrun(
        &self,
        engine: &mut Engine,
        unit: &UnitId,
        function: &HvacSystemFunctionType,
        now: Duration,
        start: bool,
    ) -> (r: Result<MsgCounter, ModeRefused>)
        ensures
            (final(engine)@, r) == self@.setting_overrun(
                old(engine)@,
                unit@,
                *function,
                if start {
                    HvacOverrunStatus::Active
                } else {
                    HvacOverrunStatus::Inactive
                },
                now,
            ),
    {
        let unit = match self.unit(unit) {
            Some(unit) => unit,
            None => return Err(ModeRefused::NoOverrun),
        };
        let followed = match unit.function(function) {
            Some(followed) => followed,
            None => return Err(ModeRefused::NoOverrun),
        };
        let write = if start {
            followed.reader.start_overrun()
        } else {
            followed.reader.stop_overrun()
        };
        match write {
            Ok(write) => Ok(self.send(engine, &unit.hvac, write, now)),
            Err(refusal) => Err(refusal),
        }
    }

    /// Sets the temperature that the mode a function is in uses. Refused where the mode is not
    /// known, where it uses no setpoint or several, and where the write would be out of range.
    pub fn set_temperature(
        &self,
        engine: &mut Engine,
        unit: &UnitId,
        function: &HvacSystemFunctionType,
        degrees: Number,
        now: Duration,
    ) -> (r: Result<MsgCounter, WriteRefused>)
        ensures
            (final(engine)@, r) == self@.setting_temperature(
                old(engine)@,
                unit@,
                *function,
                degrees,
                now,
            ),
    {
        let unit = match self.unit(unit) {
            Some(unit) => unit,
            None => return Err(WriteRefused::ModeUnknown),
        };
        let followed = match unit.function(function) {
            Some(followed) => followed,
            None => return Err(WriteRefused::ModeUnknown),
        };
        match (unit.setpoints_of(function), &unit.setpoint) {
            (Some(setpoints), Some(feature)) => match setpoints.write_current(
                degrees,
                &followed.reader,
            ) {
                Ok(write) => Ok(self.send(engine, feature, write, now)),
                Err(refusal) => Err(refusal),
            },
            _ => Err(WriteRefused::UnknownSetpoint),
        }
    }

    /// Sets one setpoint, if the mode the function is in uses it.
    pub fn set_setpoint(
        &self,
        engine: &mut Engine,
        unit: &UnitId,
        function: &HvacSystemFunctionType,
        setpoint: SetpointId,
        degrees: Number,
        now: Duration,
    ) -> (r: Result<MsgCounter, WriteRefused>)
        ensures
            (final(engine)@, r) == self@.setting_setpoint(
                old(engine)@,
                unit@,
                *function,
                setpoint,
                degrees,
                now,
            ),
    {
        let unit = match self.unit(unit) {
            Some(unit) => unit,
            None => return Err(WriteRefused::ModeUnknown),
        };
        let followed = match unit.function(function) {
            Some(followed) => followed,
            None => return Err(WriteRefused::ModeUnknown),
        };
        match (unit.setpoints_of(function), &unit.setpoint) {
            (Some(setpoints), Some(feature)) => match setpoints.write_effective(
                setpoint,
                degrees,
                &followed.reader,
            ) {
                Ok(write) => Ok(self.send(engine, feature, write, now)),
                Err(refusal) => Err(refusal),
            },
            _ => Err(WriteRefused::UnknownSetpoint),
        }
    }

    /// Sets one setpoint, whatever mode the function is in: for a mode that is to be entered.
    pub fn preload_setpoint(
        &self,
        engine: &mut Engine,
        unit: &UnitId,
        function: &HvacSystemFunctionType,
        setpoint: SetpointId,
        degrees: Number,
        now: Duration,
    ) -> (r: Result<MsgCounter, WriteRefused>)
        ensures
            (final(engine)@, r) == self@.preloading_setpoint(
                old(engine)@,
                unit@,
                *function,
                setpoint,
                degrees,
                now,
            ),
    {
        let unit = match self.unit(unit) {
            Some(unit) => unit,
            None => return Err(WriteRefused::UnknownSetpoint),
        };
        match (unit.setpoints_of(function), &unit.setpoint) {
            (Some(setpoints), Some(feature)) => match setpoints.write(setpoint, degrees) {
                Ok(write) => Ok(self.send(engine, feature, write, now)),
                Err(refusal) => Err(refusal),
            },
            _ => Err(WriteRefused::UnknownSetpoint),
        }
    }

    /// Sends a write that sets only what it gives.
    fn send(
        &self,
        engine: &mut Engine,
        feature: &FeatureAddress,
        write: CmdData,
        now: Duration,
    ) -> (r: MsgCounter)
        ensures
            r == old(engine)@.counter(),
            final(engine)@ == old(engine)@.writing(
                feature@,
                self@.client,
                write@,
                partial_only(),
                now,
            ),
    {
        engine.write(feature, &self.client, write, now)
    }

    /// Handles one event. Data of a feature that is not followed is not this appliance's.
    pub fn handle_event(&mut self, event: &SpineEvent) -> (r: Vec<HvacEvent>)
        ensures
            (final(self)@, hvac_events(r@)) == old(self)@.stepped(*event),
    {
        let none: Vec<HvacEvent> = Vec::new();
        assert(hvac_events(none@) =~= Seq::empty());
        let (feature, data) = match event {
            SpineEvent::ReplyReceived { feature, resolved } => (feature, resolved),
            SpineEvent::DataNotified { feature, resolved } => (feature, resolved),
            _ => return none,
        };
        let ghost wanted = |unit: FollowedUnit| is_served_on(feature@)(unit@);
        proof {
            lemma_mapped_first_index(
                self.units@,
                |unit: FollowedUnit| unit@,
                wanted,
                is_served_on(feature@),
            );
        }
        let found = position(
            &self.units,
            |unit: &FollowedUnit| -> (b: bool)
                ensures
                    b == is_served_on(feature@)(unit@)
                { unit.serves(feature) },
            Ghost(wanted),
        );
        match found {
            Some(index) => {
                let ghost before = self@;
                let ghost units = self.units@;
                assert(units[index as int]@ == before.units[index as int]);
                let events = self.units[index].apply(data);
                assert(self@.units =~= before.units.update(
                    index as int,
                    self.units@[index as int]@,
                ));
                events
            },
            None => none,
        }
    }
}

} // verus!
