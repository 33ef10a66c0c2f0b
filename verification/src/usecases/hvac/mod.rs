//! Use cases of heating, hot water and cooling.
//!
//! A device publishes its system functions, the operation modes it has, which mode belongs to
//! which function, and which setpoints a mode uses. All identifiers are the device's own; a peer
//! finds them in the descriptions and never assumes them.

use crate::assoc::{get, lookup, store, stored};
use crate::model::{
    entries_of, CmdData, HvacOperationModeDescriptionData, HvacOperationModeId,
    HvacOperationModeType, HvacSystemFunctionDescriptionData, HvacSystemFunctionId,
    HvacSystemFunctionType, Payload,
};
use crate::seqs::{first, lemma_no_first_index, lemma_take_next, position};
use vstd::prelude::*;

pub mod appliance;
pub mod appliance_laws;
pub mod cdsf;
pub mod cdt;
pub mod control_laws;
pub mod crct;
pub mod laws;
pub mod learning_laws;
pub mod mdsf;
pub mod mdt;
pub mod mot;
pub mod mrcsf;
pub mod mrt;
pub mod peer;
pub mod publishing_laws;
pub mod report_laws;
pub mod scenarios;
pub mod setpoint;
pub mod system_function;
pub mod temperature;

pub use self::appliance::{HvacApplianceActor, HvacEvent};
pub use self::peer::{Following, HvacPeer, Subject};

verus! {

/// Hot water.
pub const DHW: HvacSystemFunctionType = HvacSystemFunctionType::Dhw;

/// Room heating.
pub const HEATING: HvacSystemFunctionType = HvacSystemFunctionType::Heating;

/// Room cooling.
pub const COOLING: HvacSystemFunctionType = HvacSystemFunctionType::Cooling;

/// The identifier that this crate publishes a system function under.
pub open spec fn own_function_id(kind: HvacSystemFunctionType) -> HvacSystemFunctionId {
    HvacSystemFunctionId(
        match kind {
            HvacSystemFunctionType::Dhw => 1,
            HvacSystemFunctionType::Heating => 2,
            HvacSystemFunctionType::Cooling => 3,
            HvacSystemFunctionType::Ventilation => 4,
            HvacSystemFunctionType::Other(_) => 5,
        },
    )
}

/// The identifier that this crate publishes a system function under. They are distinct, which is
/// what lets one feature carry several functions.
pub fn system_function_id(kind: &HvacSystemFunctionType) -> (r: HvacSystemFunctionId)
    ensures
        r == own_function_id(*kind),
{
    HvacSystemFunctionId(
        match kind {
            HvacSystemFunctionType::Dhw => 1,
            HvacSystemFunctionType::Heating => 2,
            HvacSystemFunctionType::Cooling => 3,
            HvacSystemFunctionType::Ventilation => 4,
            HvacSystemFunctionType::Other(_) => 5,
        },
    )
}

/// The functions of the standard's list have identifiers of their own.
pub proof fn law_own_functions_are_distinct(a: HvacSystemFunctionType, b: HvacSystemFunctionType)
    requires
        !(a is Other && b is Other),
    ensures
        own_function_id(a) == own_function_id(b) <==> a == b,
{
}

/// Picks out the descriptions of one kind of function.
pub open spec fn describes_kind(kind: HvacSystemFunctionType) -> spec_fn(
    HvacSystemFunctionDescriptionData,
) -> bool {
    |entry: HvacSystemFunctionDescriptionData| entry.system_function_type == Some(kind)
}

/// The identifier that a peer published a system function under: that of the first description
/// of this kind.
pub open spec fn function_among(data: Payload, kind: HvacSystemFunctionType) -> Option<
    HvacSystemFunctionId,
> {
    match data {
        Payload::HvacSystemFunctionDescriptionListData(list) => match first(
            entries_of(list),
            describes_kind(kind),
        ) {
            Some(entry) => entry.system_function_id,
            None => None,
        },
        _ => None,
    }
}

/// Finds the identifier that a peer published a system function under, by its type.
pub fn find_system_function(data: &CmdData, kind: &HvacSystemFunctionType) -> (r: Option<
    HvacSystemFunctionId,
>)
    ensures
        r == function_among(data@, *kind),
{
    match data {
        CmdData::HvacSystemFunctionDescriptionListData(list) => match &list.hvac_system_function_description_data {
            Some(entries) => {
                let found = position(
                    entries,
                    |entry: &HvacSystemFunctionDescriptionData| -> (b: bool)
                        ensures
                            b == (entry.system_function_type == Some(*kind))
                        {
                            match entry.system_function_type {
                                Some(found) => found == *kind,
                                None => false,
                            }
                        },
                    Ghost(describes_kind(*kind)),
                );
                match found {
                    Some(index) => entries[index].system_function_id,
                    None => None,
                }
            },
            None => {
                proof {
                    lemma_no_first_index(
                        Seq::<HvacSystemFunctionDescriptionData>::empty(),
                        describes_kind(*kind),
                    );
                }
                None
            },
        },
        _ => None,
    }
}

/// The modes once one more description is taken in; a description that lacks the identifier or
/// the type is passed over.
pub open spec fn mode_described(
    known: Seq<(HvacOperationModeId, HvacOperationModeType)>,
    entry: HvacOperationModeDescriptionData,
) -> Seq<(HvacOperationModeId, HvacOperationModeType)> {
    match (entry.operation_mode_id, entry.operation_mode_type) {
        (Some(id), Some(kind)) => stored(known, id, kind),
        _ => known,
    }
}

/// The modes once descriptions are taken in, one after the other.
pub open spec fn modes_described(
    known: Seq<(HvacOperationModeId, HvacOperationModeType)>,
    entries: Seq<HvacOperationModeDescriptionData>,
) -> Seq<(HvacOperationModeId, HvacOperationModeType)>
    decreases entries.len(),
{
    if entries.len() == 0 {
        known
    } else {
        mode_described(modes_described(known, entries.drop_last()), entries.last())
    }
}

/// The modes once a payload is taken in.
pub open spec fn modes_learned(
    known: Seq<(HvacOperationModeId, HvacOperationModeType)>,
    data: Payload,
) -> Seq<(HvacOperationModeId, HvacOperationModeType)> {
    match data {
        Payload::HvacOperationModeDescriptionListData(list) => modes_described(
            known,
            entries_of(list),
        ),
        _ => known,
    }
}

/// Picks out the modes of one kind.
pub open spec fn is_mode(kind: HvacOperationModeType) -> spec_fn(
    (HvacOperationModeId, HvacOperationModeType),
) -> bool {
    |entry: (HvacOperationModeId, HvacOperationModeType)| entry.1 == kind
}

/// The identifier of the first mode of this kind.
pub open spec fn mode_id_of(
    known: Seq<(HvacOperationModeId, HvacOperationModeType)>,
    kind: HvacOperationModeType,
) -> Option<HvacOperationModeId> {
    match first(known, is_mode(kind)) {
        Some(entry) => Some(entry.0),
        None => None,
    }
}

/// The operation modes that a device described, in the order in which it did.
#[derive(Clone, Debug, PartialEq, Eq)]
pub struct OperationModes {
    known: Vec<(HvacOperationModeId, HvacOperationModeType)>,
}

impl View for OperationModes {
    type V = Seq<(HvacOperationModeId, HvacOperationModeType)>;

    closed spec fn view(&self) -> Seq<(HvacOperationModeId, HvacOperationModeType)> {
        self.known@
    }
}

impl Default for OperationModes {
    fn default() -> (r: OperationModes)
        ensures
            r@ == Seq::<(HvacOperationModeId, HvacOperationModeType)>::empty(),
    {
        OperationModes::new()
    }
}

impl OperationModes {
    /// None yet.
    pub fn new() -> (r: OperationModes)
        ensures
            r@ == Seq::<(HvacOperationModeId, HvacOperationModeType)>::empty(),
    {
        OperationModes { known: Vec::new() }
    }

    /// Takes in a payload, and says whether it described modes.
    pub fn learn(&mut self, data: &CmdData) -> (r: bool)
        ensures
            r == (data@ is HvacOperationModeDescriptionListData),
            final(self)@ == modes_learned(old(self)@, data@),
    {
        let list = match data {
            CmdData::HvacOperationModeDescriptionListData(list) => list,
            _ => return false,
        };
        if let Some(entries) = &list.hvac_operation_mode_description_data {
            let ghost before = self@;
            let mut i: usize = 0;
            assert(entries@.take(0) =~= Seq::empty());
            while i < entries.len()
                invariant
                    i <= entries@.len(),
                    self@ == modes_described(before, entries@.take(i as int)),
                decreases entries@.len() - i,
            {
                proof {
                    lemma_take_next(entries@, i as int);
                }
                if let (Some(id), Some(kind)) = (
                    entries[i].operation_mode_id,
                    entries[i].operation_mode_type,
                ) {
                    store(&mut self.known, id, kind);
                }
                i = i + 1;
            }
            assert(entries@.take(i as int) =~= entries@);
        }
        true
    }

    /// The identifier of a mode, by its kind.
    pub fn id_of(&self, kind: &HvacOperationModeType) -> (r: Option<HvacOperationModeId>)
        ensures
            r == mode_id_of(self@, *kind),
    {
        let found = position(
            &self.known,
            |entry: &(HvacOperationModeId, HvacOperationModeType)| -> (b: bool)
                ensures
                    b == (entry.1 == *kind)
                { entry.1 == *kind },
            Ghost(is_mode(*kind)),
        );
        match found {
            Some(index) => Some(self.known[index].0),
            None => None,
        }
    }

    /// The kind of a mode, by its identifier.
    pub fn kind_of(&self, id: HvacOperationModeId) -> (r: Option<HvacOperationModeType>)
        ensures
            r == lookup(self@, id),
    {
        get(&self.known, id)
    }

    /// The modes, in the order in which they were described.
    pub fn all(&self) -> (r: &Vec<(HvacOperationModeId, HvacOperationModeType)>)
        ensures
            r@ == self@,
    {
        &self.known
    }

    /// Whether there are enough modes for a change of mode to exist.
    pub fn is_sufficient(&self) -> (r: bool)
        ensures
            r == (self@.len() >= 2),
    {
        self.known.len() >= 2
    }

    /// Whether there are none.
    pub fn is_empty(&self) -> (r: bool)
        ensures
            r == (self@.len() == 0),
    {
        self.known.len() == 0
    }
}

} // verus!
