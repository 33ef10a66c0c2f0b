//! Monitoring of Grid Connection Point: what a premises exchanges with the grid, and by how much
//! its feed-in is curtailed.

use super::monitoring::functions::{
    client_configuration, client_configuration_uses, client_measurements,
    client_measurements_uses, server_configuration, server_configuration_uses,
    server_measurements, server_measurements_uses,
};
use super::monitoring::unit::Naming;
use crate::assoc::{get, lookup, place_of, store, stored};
use crate::model::{
    entries_of, read_number, readable, CmdData, DeviceConfigurationKeyId,
    DeviceConfigurationKeyName, DeviceConfigurationKeyValueData,
    DeviceConfigurationKeyValueDescriptionData, DeviceConfigurationKeyValueDescriptionListData,
    DeviceConfigurationKeyValueListData, DeviceConfigurationKeyValueType,
    DeviceConfigurationKeyValueValue, EntityType, FeatureType, Function, Payload, Role,
    ScaledNumber, UnitOfMeasurement,
};
use crate::number::Number;
use crate::seqs::{first, lemma_no_first_index, lemma_take_next, position};
use crate::spine::{reading, LocalFeature, LocalFeatureView, Operations};
use crate::usecases::actors;
use crate::usecases::descriptor::{
    first_release, scenario, scenario_views, ActorRole, DescriptorView, Scenario, ScenarioView,
    Support, UseCaseDescriptor,
};
use crate::usecases::limitation::state::LimitWrite;
use crate::usecases::names;
use vstd::prelude::*;

verus! {

/// From whose side the scopes are named.
pub const NAMING: Naming = Naming::GridConnectionPoint;

/// The key of the curtailment factor.
pub const PV_CURTAILMENT_LIMIT_FACTOR: DeviceConfigurationKeyName =
    DeviceConfigurationKeyName::PvCurtailmentLimitFactor;

/// The identifier that this crate publishes the curtailment factor under.
pub const CURTAILMENT_KEY: u32 = 1;

/// The most that the factor can be, in thousandths of a percent.
pub const WHOLE: i64 = 100_000;

/// Builds the `DeviceConfiguration` feature that the factor is served from.
pub fn curtailment_feature(address: u32) -> (r: LocalFeature)
    ensures
        r@ == LocalFeatureView::read_only(
            address,
            FeatureType::DeviceConfiguration,
            Role::Server,
            seq![
                (Function::DeviceConfigurationKeyValueDescriptionListData, reading()),
                (Function::DeviceConfigurationKeyValueListData, reading()),
            ],
        ),
{
    let feature = LocalFeature::new(
        address,
        FeatureType::DeviceConfiguration,
        Role::Server,
    ).with_function(
        Function::DeviceConfigurationKeyValueDescriptionListData,
        Operations::read(),
    ).with_function(Function::DeviceConfigurationKeyValueListData, Operations::read());
    proof {
        reveal_with_fuel(place_of, 3);
        assert(feature@.functions =~= seq![
            (Function::DeviceConfigurationKeyValueDescriptionListData, reading()),
            (Function::DeviceConfigurationKeyValueListData, reading()),
        ]);
    }
    feature
}

/// The description of the factor, as a payload.
pub open spec fn curtailment_description_payload() -> Payload {
    Payload::DeviceConfigurationKeyValueDescriptionListData(
        Some(
            seq![
                DeviceConfigurationKeyValueDescriptionData {
                    key_id: Some(DeviceConfigurationKeyId(CURTAILMENT_KEY)),
                    key_name: Some(DeviceConfigurationKeyName::PvCurtailmentLimitFactor),
                    value_type: Some(DeviceConfigurationKeyValueType::ScaledNumber),
                    unit: Some(UnitOfMeasurement::Pct),
                },
            ],
        ),
    )
}

/// The description of the factor.
pub fn curtailment_description() -> (r: CmdData)
    ensures
        r@ == curtailment_description_payload(),
{
    let entries = vec![
        DeviceConfigurationKeyValueDescriptionData {
            key_id: Some(DeviceConfigurationKeyId(CURTAILMENT_KEY)),
            key_name: Some(PV_CURTAILMENT_LIMIT_FACTOR),
            value_type: Some(DeviceConfigurationKeyValueType::ScaledNumber),
            unit: Some(UnitOfMeasurement::Pct),
        },
    ];
    let ghost payload = curtailment_description_payload();
    assert(payload->DeviceConfigurationKeyValueDescriptionListData_0->Some_0 =~= entries@);
    CmdData::DeviceConfigurationKeyValueDescriptionListData(
        DeviceConfigurationKeyValueDescriptionListData {
            device_configuration_key_value_description_data: Some(entries),
        },
    )
}

/// A factor, forced between none and all.
pub open spec fn share(percent: Number) -> Number {
    percent.clamped(Number::Finite(0), Number::Finite(WHOLE))
}

/// The value of the factor, as a payload: between none and all, to the hundredth.
pub open spec fn curtailment_value_payload(percent: Number) -> Payload {
    Payload::DeviceConfigurationKeyValueListData(
        Some(
            seq![
                DeviceConfigurationKeyValueData {
                    key_id: Some(DeviceConfigurationKeyId(CURTAILMENT_KEY)),
                    value: Some(
                        DeviceConfigurationKeyValueValue {
                            scaled_number: Some(ScaledNumber::encoded(share(percent), 2)),
                            duration: None,
                        },
                    ),
                    is_value_changeable: None,
                },
            ],
        ),
    )
}

/// The value of the factor, as a percentage.
pub fn curtailment_value(percent: Number) -> (r: CmdData)
    ensures
        r@ == curtailment_value_payload(percent),
{
    let share = percent.clamp(Number::Finite(0), Number::Finite(WHOLE));
    let entries = vec![
        DeviceConfigurationKeyValueData {
            key_id: Some(DeviceConfigurationKeyId(CURTAILMENT_KEY)),
            value: Some(
                DeviceConfigurationKeyValueValue {
                    scaled_number: Some(ScaledNumber::from_number(share, 2)),
                    duration: None,
                },
            ),
            is_value_changeable: None,
        },
    ];
    assert(curtailment_value_payload(percent)->DeviceConfigurationKeyValueListData_0->Some_0
        =~= entries@);
    CmdData::DeviceConfigurationKeyValueListData(
        DeviceConfigurationKeyValueListData { device_configuration_key_value_data: Some(entries) },
    )
}

/// Picks out the values of one key.
pub open spec fn value_of_key(key: DeviceConfigurationKeyId) -> spec_fn(
    DeviceConfigurationKeyValueData,
) -> bool {
    |entry: DeviceConfigurationKeyValueData| entry.key_id == Some(key)
}

/// The number that an entry holds, where it is present and readable.
pub open spec fn number_in(entry: DeviceConfigurationKeyValueData) -> Option<Number> {
    match entry.value {
        Some(value) => readable(value.scaled_number),
        None => None,
    }
}

/// The factor that a payload states.
pub open spec fn curtailment_in(data: Payload) -> Option<Number> {
    match data {
        Payload::DeviceConfigurationKeyValueListData(list) => match first(
            entries_of(list),
            value_of_key(DeviceConfigurationKeyId(CURTAILMENT_KEY)),
        ) {
            Some(entry) => number_in(entry),
            None => None,
        },
        _ => None,
    }
}

/// The number that an entry holds, where it is present and readable.
fn read_entry(entry: &DeviceConfigurationKeyValueData) -> (r: Option<Number>)
    ensures
        r == number_in(*entry),
{
    match entry.value {
        Some(value) => read_number(value.scaled_number),
        None => None,
    }
}

/// Reads the factor that a payload states, under this crate's own identifier. A payload without
/// one is no curtailment, and no factor of zero.
pub fn read_curtailment(data: &CmdData) -> (r: Option<Number>)
    ensures
        r == curtailment_in(data@),
{
    let key = DeviceConfigurationKeyId(CURTAILMENT_KEY);
    match data {
        CmdData::DeviceConfigurationKeyValueListData(list) => match &list.device_configuration_key_value_data {
            Some(entries) => {
                let found = position(
                    entries,
                    |entry: &DeviceConfigurationKeyValueData| -> (b: bool)
                        ensures
                            b == (entry.key_id == Some(key))
                        {
                            match entry.key_id {
                                Some(id) => id == key,
                                None => false,
                            }
                        },
                    Ghost(value_of_key(key)),
                );
                match found {
                    Some(index) => read_entry(&entries[index]),
                    None => None,
                }
            },
            None => {
                proof {
                    lemma_no_first_index(
                        Seq::<DeviceConfigurationKeyValueData>::empty(),
                        value_of_key(key),
                    );
                }
                None
            },
        },
        _ => None,
    }
}

/// How much may be fed in: a factor of the installed peak power.
#[derive(Clone, Copy, Debug, PartialEq, Eq, Structural)]
pub struct FeedInLimit {
    factor_percent: Number,
    nominal_peak_watts: Number,
}

/// A peak power, which is not below zero.
pub open spec fn peak(watts: Number) -> Number {
    if watts is NotANumber || watts.negative() {
        Number::Finite(0)
    } else {
        watts
    }
}

/// A share of a power, to the nearest thousandth of a watt, half a thousandth going up.
pub open spec fn share_of(percent: Number, watts: Number) -> Number {
    match (percent, watts) {
        (Number::Finite(percent), Number::Finite(watts)) => Number::saturated(
            (2 * percent * watts + WHOLE) / (2 * WHOLE as int),
        ),
        (Number::Finite(percent), Number::PositiveInfinity) => if percent > 0 {
            Number::PositiveInfinity
        } else {
            Number::NotANumber
        },
        _ => Number::NotANumber,
    }
}

impl FeedInLimit {
    /// The factor.
    pub closed spec fn factor(self) -> Number {
        self.factor_percent
    }

    /// The peak power.
    pub closed spec fn peak_watts(self) -> Number {
        self.nominal_peak_watts
    }

    /// The factor is between none and all, and the peak power not below zero.
    #[verifier::type_invariant]
    spec fn wf(self) -> bool {
        &&& self.factor() is Finite ==> 0 <= self.factor()->Finite_0 <= WHOLE
        &&& self.factor() is Finite || self.factor() is NotANumber
        &&& self.peak_watts() is Finite ==> 0 <= self.peak_watts()->Finite_0
        &&& self.peak_watts() is Finite || self.peak_watts() is PositiveInfinity
    }

    /// A factor of a peak power. Both are forced into their ranges.
    pub fn new(factor_percent: Number, nominal_peak_watts: Number) -> (r: FeedInLimit)
        ensures
            r.factor() == share(factor_percent),
            r.peak_watts() == peak(nominal_peak_watts),
    {
        let peak = if nominal_peak_watts == Number::NotANumber || nominal_peak_watts.is_negative() {
            Number::Finite(0)
        } else {
            nominal_peak_watts
        };
        FeedInLimit {
            factor_percent: factor_percent.clamp(Number::Finite(0), Number::Finite(WHOLE)),
            nominal_peak_watts: peak,
        }
    }

    /// The factor that a payload states, of a peak power.
    pub fn from_data(data: &CmdData, nominal_peak_watts: Number) -> (r: Option<FeedInLimit>)
        ensures
            match r {
                Some(limit) => curtailment_in(data@) matches Some(factor) && limit.factor()
                    == share(factor) && limit.peak_watts() == peak(nominal_peak_watts),
                None => curtailment_in(data@) is None,
            },
    {
        match read_curtailment(data) {
            Some(factor) => Some(FeedInLimit::new(factor, nominal_peak_watts)),
            None => None,
        }
    }

    /// The factor, as a percentage.
    pub fn factor_percent(self) -> (r: Number)
        ensures
            r == self.factor(),
    {
        self.factor_percent
    }

    /// The peak power.
    pub fn nominal_peak_watts(self) -> (r: Number)
        ensures
            r == self.peak_watts(),
    {
        self.nominal_peak_watts
    }

    /// The ceiling in watts: the factor times the installed peak power.
    pub fn watts(self) -> (r: Number)
        ensures
            r == share_of(self.factor(), self.peak_watts()),
    {
        proof {
            use_type_invariant(&self);
        }
        match (self.factor_percent, self.nominal_peak_watts) {
            (Number::Finite(percent), Number::Finite(watts)) => {
                let wide_percent: i128 = percent as i128;
                let wide_watts: i128 = watts as i128;
                assert(0 <= wide_percent * wide_watts <= 100_000 * 0x7fff_ffff_ffff_ffff)
                    by (nonlinear_arith)
                    requires
                        0 <= wide_percent <= 100_000,
                        0 <= wide_watts <= 0x7fff_ffff_ffff_ffff,
                ;
                let product: i128 = wide_percent * wide_watts;
                assert(2 * percent * watts == 2 * product) by (nonlinear_arith)
                    requires
                        product == percent * watts,
                ;
                let rounded: i128 = (2 * product + WHOLE as i128) / (2 * (WHOLE as i128));
                Number::saturating(rounded)
            },
            (Number::Finite(percent), Number::PositiveInfinity) => {
                if percent > 0 {
                    Number::PositiveInfinity
                } else {
                    Number::NotANumber
                }
            },
            _ => Number::NotANumber,
        }
    }

    /// Whether feeding in so much stays under the ceiling.
    pub fn permits(self, watts: Number) -> (r: bool)
        ensures
            r == watts.at_most(share_of(self.factor(), self.peak_watts())),
    {
        watts.is_at_most(self.watts())
    }

    /// The ceiling as a limit on production.
    pub fn as_production_limit(self) -> (r: LimitWrite)
        ensures
            r == (LimitWrite {
                is_active: true,
                watts: share_of(self.factor(), self.peak_watts()),
                duration: None,
            }),
    {
        LimitWrite::active(self.watts())
    }
}

/// Picks out the descriptions of the factor.
pub open spec fn describes_factor() -> spec_fn(DeviceConfigurationKeyValueDescriptionData) -> bool {
    |entry: DeviceConfigurationKeyValueDescriptionData|
        entry.key_id is Some && entry.key_name == Some(
            DeviceConfigurationKeyName::PvCurtailmentLimitFactor,
        )
}

/// The numbers of a peer's configuration once values are taken in, one after the other.
pub open spec fn numbers_learned(
    known: Seq<(DeviceConfigurationKeyId, Number)>,
    entries: Seq<DeviceConfigurationKeyValueData>,
) -> Seq<(DeviceConfigurationKeyId, Number)>
    decreases entries.len(),
{
    if entries.len() == 0 {
        known
    } else {
        let before = numbers_learned(known, entries.drop_last());
        match (entries.last().key_id, number_in(entries.last())) {
            (Some(key), Some(number)) => stored(before, key, number),
            _ => before,
        }
    }
}

/// A peer's factor as a mathematical value.
pub struct CurtailmentView {
    /// The key that the peer published the factor under.
    pub key: Option<DeviceConfigurationKeyId>,
    /// The numbers of its configuration.
    pub numbers: Seq<(DeviceConfigurationKeyId, Number)>,
}

impl CurtailmentView {
    /// Nothing known yet.
    pub open spec fn nothing() -> CurtailmentView {
        CurtailmentView { key: None, numbers: Seq::empty() }
    }

    /// Once a description is taken in.
    pub open spec fn described(self, data: Payload) -> CurtailmentView {
        match data {
            Payload::DeviceConfigurationKeyValueDescriptionListData(list) => CurtailmentView {
                key: match first(entries_of(list), describes_factor()) {
                    Some(entry) => entry.key_id,
                    None => self.key,
                },
                ..self
            },
            _ => self,
        }
    }

    /// Once values are taken in.
    pub open spec fn applied(self, data: Payload) -> CurtailmentView {
        match data {
            Payload::DeviceConfigurationKeyValueListData(list) => CurtailmentView {
                numbers: numbers_learned(self.numbers, entries_of(list)),
                ..self
            },
            _ => self,
        }
    }

    /// The factor, once its key and its value are known, between none and all.
    pub open spec fn factor(self) -> Option<Number> {
        match self.key {
            Some(key) => match lookup(self.numbers, key) {
                Some(number) => Some(share(number)),
                None => None,
            },
            None => None,
        }
    }
}

/// A peer's curtailment factor. The key is the peer's own, and is found by its name; the value
/// may arrive before the description that names it.
#[derive(Clone, Debug, PartialEq, Eq)]
pub struct Curtailment {
    key: Option<DeviceConfigurationKeyId>,
    numbers: Vec<(DeviceConfigurationKeyId, Number)>,
}

impl View for Curtailment {
    type V = CurtailmentView;

    closed spec fn view(&self) -> CurtailmentView {
        CurtailmentView { key: self.key, numbers: self.numbers@ }
    }
}

impl Curtailment {
    /// Nothing known yet.
    pub fn new() -> (r: Curtailment)
        ensures
            r@ == CurtailmentView::nothing(),
    {
        Curtailment { key: None, numbers: Vec::new() }
    }

    /// Takes in a description, and says whether the payload was one.
    pub fn describe(&mut self, data: &CmdData) -> (r: bool)
        ensures
            r == (data@ is DeviceConfigurationKeyValueDescriptionListData),
            final(self)@ == old(self)@.described(data@),
    {
        let list = match data {
            CmdData::DeviceConfigurationKeyValueDescriptionListData(list) => list,
            _ => return false,
        };
        match &list.device_configuration_key_value_description_data {
            Some(entries) => {
                let found = position(
                    entries,
                    |entry: &DeviceConfigurationKeyValueDescriptionData| -> (b: bool)
                        ensures
                            b == describes_factor()(*entry)
                        {
                            match entry.key_name {
                                Some(name) => entry.key_id.is_some() && name
                                    == PV_CURTAILMENT_LIMIT_FACTOR,
                                None => false,
                            }
                        },
                    Ghost(describes_factor()),
                );
                if let Some(index) = found {
                    self.key = entries[index].key_id;
                }
            },
            None => {
                proof {
                    lemma_no_first_index(
                        Seq::<DeviceConfigurationKeyValueDescriptionData>::empty(),
                        describes_factor(),
                    );
                }
            },
        }
        true
    }

    /// Takes in values, and says what the factor is after that.
    #[verifier::loop_isolation(false)]
    pub fn apply(&mut self, data: &CmdData) -> (r: Option<Number>)
        ensures
            final(self)@ == old(self)@.applied(data@),
            r == final(self)@.factor(),
    {
        if let CmdData::DeviceConfigurationKeyValueListData(list) = data {
            if let Some(entries) = &list.device_configuration_key_value_data {
                let ghost before = self@;
                let mut i: usize = 0;
                assert(entries@.take(0) =~= Seq::empty());
                while i < entries.len()
                    invariant
                        i <= entries@.len(),
                        self@.key == before.key,
                        self@.numbers == numbers_learned(
                            before.numbers,
                            entries@.take(i as int),
                        ),
                    decreases entries@.len() - i,
                {
                    proof {
                        lemma_take_next(entries@, i as int);
                    }
                    if let (Some(key), Some(number)) = (
                        entries[i].key_id,
                        read_entry(&entries[i]),
                    ) {
                        store(&mut self.numbers, key, number);
                    }
                    i = i + 1;
                }
                assert(entries@.take(i as int) =~= entries@);
            }
        }
        self.factor_percent()
    }

    /// The factor, once its key and its value are known.
    pub fn factor_percent(&self) -> (r: Option<Number>)
        ensures
            r == self@.factor(),
    {
        match self.key {
            Some(key) => match get(&self.numbers, key) {
                Some(number) => Some(number.clamp(Number::Finite(0), Number::Finite(WHOLE))),
                None => None,
            },
            None => None,
        }
    }

    /// The ceiling that the factor makes of a peak power.
    pub fn limit(&self, nominal_peak_watts: Number) -> (r: Option<FeedInLimit>)
        ensures
            match r {
                Some(limit) => self@.factor() matches Some(factor) && limit.factor() == share(
                    factor,
                ) && limit.peak_watts() == peak(nominal_peak_watts),
                None => self@.factor() is None,
            },
    {
        match self.factor_percent() {
            Some(factor) => Some(FeedInLimit::new(factor, nominal_peak_watts)),
            None => None,
        }
    }
}

/// A published factor is read back, to the hundredth of a percent.
pub proof fn law_curtailment_round_trips(percent: Number)
    ensures
        curtailment_in(curtailment_value_payload(percent)) == ScaledNumber::encoded(
            share(percent),
            2,
        ).decoded(),
        CurtailmentView::nothing().described(curtailment_description_payload()).applied(
            curtailment_value_payload(percent),
        ).factor() == match ScaledNumber::encoded(share(percent), 2).decoded() {
            Some(factor) => Some(share(factor)),
            None => None,
        },
{
    let key = DeviceConfigurationKeyId(CURTAILMENT_KEY);
    let entries = entries_of(
        curtailment_value_payload(percent)->DeviceConfigurationKeyValueListData_0,
    );
    crate::seqs::lemma_first_index_is(entries, value_of_key(key), 0);
    let descriptions = entries_of(
        curtailment_description_payload()->DeviceConfigurationKeyValueDescriptionListData_0,
    );
    crate::seqs::lemma_first_index_is(descriptions, describes_factor(), 0);
    reveal_with_fuel(numbers_learned, 2);
    assert(entries.drop_last() =~= Seq::empty());
    if let Some(number) = ScaledNumber::encoded(share(percent), 2).decoded() {
        crate::assoc::law_lookup_after_store(
            Seq::<(DeviceConfigurationKeyId, Number)>::empty(),
            key,
            number,
            key,
        );
    }
}

/// The value and the description of a factor may arrive in either order.
pub proof fn law_curtailment_arrives_in_any_order(known: CurtailmentView, a: Payload, b: Payload)
    ensures
        known.described(a).applied(b) == known.applied(b).described(a),
{
}

/// The ceiling lies between nothing and the installed peak power, and is the whole of it where
/// nothing is curtailed.
pub proof fn law_ceiling_is_a_share_of_the_peak(percent: i64, watts: i64)
    requires
        0 <= percent <= WHOLE,
        0 <= watts,
    ensures
        ({
            let ceiling = share_of(Number::Finite(percent), Number::Finite(watts));
            &&& Number::Finite(0).at_most(ceiling)
            &&& ceiling.at_most(Number::Finite(watts))
            &&& percent == WHOLE ==> ceiling == Number::Finite(watts)
            &&& percent == 0 ==> ceiling == Number::Finite(0)
        }),
{
    let product = percent * watts;
    assert(0 <= product <= 100_000 * watts) by (nonlinear_arith)
        requires
            product == percent * watts,
            0 <= percent <= 100_000,
            0 <= watts,
    ;
    assert(2 * percent * watts == 2 * product) by (nonlinear_arith)
        requires
            product == percent * watts,
    ;
    let ceiling = (2 * product + 100_000) / 200_000;
    assert(0 <= ceiling <= watts);
    if percent == 100_000 {
        assert(product == 100_000 * watts) by (nonlinear_arith)
            requires
                product == percent * watts,
                percent == 100_000,
        ;
    }
    if percent == 0 {
        assert(product == 0) by (nonlinear_arith)
            requires
                product == percent * watts,
                percent == 0,
        ;
    }
}

/// The scenarios, with what each actor does about them.
pub open spec fn scenario_list(server: bool) -> Seq<ScenarioView> {
    let factor = if server {
        server_configuration_uses()
    } else {
        client_configuration_uses()
    };
    let values = if server {
        server_measurements_uses()
    } else {
        client_measurements_uses()
    };
    seq![
        scenario(1, "Monitor PV feed-in power limitation factor"@, Support::Optional, factor),
        scenario(
            2,
            "Monitor momentary power consumption/production"@,
            if server {
                Support::Mandatory
            } else {
                Support::Recommended
            },
            values,
        ),
        scenario(
            3,
            "Monitor total feed-in energy"@,
            if server {
                Support::Mandatory
            } else {
                Support::Optional
            },
            values,
        ),
        scenario(
            4,
            "Monitor total consumed energy"@,
            if server {
                Support::Mandatory
            } else {
                Support::Optional
            },
            values,
        ),
        scenario(
            5,
            "Monitor momentary current consumption/production phase details"@,
            if server {
                Support::Recommended
            } else {
                Support::Optional
            },
            values,
        ),
        scenario(6, "Monitor voltage phase details"@, Support::Optional, values),
        scenario(7, "Monitor frequency"@, Support::Optional, values),
    ]
}

/// The Monitoring Appliance as a mathematical value.
pub open spec fn monitoring_appliance_view() -> DescriptorView {
    first_release(
        names::MGCP@,
        actors::MONITORING_APPLIANCE@,
        ActorRole::Client,
        Seq::empty(),
        actors::GRID_CONNECTION_POINT@,
        scenario_list(false),
    )
}

/// The Grid Connection Point as a mathematical value.
pub open spec fn grid_connection_point_view() -> DescriptorView {
    first_release(
        names::MGCP@,
        actors::GRID_CONNECTION_POINT@,
        ActorRole::Server,
        seq![EntityType::CEM, EntityType::GridConnectionPointOfPremises],
        actors::MONITORING_APPLIANCE@,
        scenario_list(true),
    )
}

/// The Monitoring Appliance: the actor that reads.
pub fn monitoring_appliance() -> (r: UseCaseDescriptor)
    ensures
        r@ == monitoring_appliance_view(),
{
    let entities: Vec<EntityType> = Vec::new();
    assert(entities@ =~= Seq::empty());
    let scenarios = vec![
        Scenario::new(
            1,
            "Monitor PV feed-in power limitation factor",
            Support::Optional,
            client_configuration(),
        ),
        Scenario::new(
            2,
            "Monitor momentary power consumption/production",
            Support::Recommended,
            client_measurements(),
        ),
        Scenario::new(
            3,
            "Monitor total feed-in energy",
            Support::Optional,
            client_measurements(),
        ),
        Scenario::new(
            4,
            "Monitor total consumed energy",
            Support::Optional,
            client_measurements(),
        ),
        Scenario::new(
            5,
            "Monitor momentary current consumption/production phase details",
            Support::Optional,
            client_measurements(),
        ),
        Scenario::new(
            6,
            "Monitor voltage phase details",
            Support::Optional,
            client_measurements(),
        ),
        Scenario::new(7, "Monitor frequency", Support::Optional, client_measurements()),
    ];
    assert(scenario_views(scenarios@) =~= scenario_list(false));
    UseCaseDescriptor::released(
        names::MGCP,
        actors::MONITORING_APPLIANCE,
        ActorRole::Client,
        entities,
        actors::GRID_CONNECTION_POINT,
        scenarios,
    )
}

/// The Grid Connection Point: the actor that is read.
pub fn grid_connection_point() -> (r: UseCaseDescriptor)
    ensures
        r@ == grid_connection_point_view(),
{
    let entities = vec![EntityType::CEM, EntityType::GridConnectionPointOfPremises];
    assert(entities@ =~= grid_connection_point_view().entity_types);
    let scenarios = vec![
        Scenario::new(
            1,
            "Monitor PV feed-in power limitation factor",
            Support::Optional,
            server_configuration(),
        ),
        Scenario::new(
            2,
            "Monitor momentary power consumption/production",
            Support::Mandatory,
            server_measurements(),
        ),
        Scenario::new(
            3,
            "Monitor total feed-in energy",
            Support::Mandatory,
            server_measurements(),
        ),
        Scenario::new(
            4,
            "Monitor total consumed energy",
            Support::Mandatory,
            server_measurements(),
        ),
        Scenario::new(
            5,
            "Monitor momentary current consumption/production phase details",
            Support::Recommended,
            server_measurements(),
        ),
        Scenario::new(
            6,
            "Monitor voltage phase details",
            Support::Optional,
            server_measurements(),
        ),
        Scenario::new(7, "Monitor frequency", Support::Optional, server_measurements()),
    ];
    assert(scenario_views(scenarios@) =~= scenario_list(true));
    UseCaseDescriptor::released(
        names::MGCP,
        actors::GRID_CONNECTION_POINT,
        ActorRole::Server,
        entities,
        actors::MONITORING_APPLIANCE,
        scenarios,
    )
}

} // verus!
