//! Addresses of devices, entities and features.

use vstd::prelude::*;

verus! {

/// Whether two lists of numbers are the same.
pub fn same_path(a: &Vec<u32>, b: &Vec<u32>) -> (r: bool)
    ensures
        r == (a@ == b@),
{
    if a.len() != b.len() {
        return false;
    }
    let mut i: usize = 0;
    while i < a.len()
        invariant
            i <= a@.len(),
            a@.len() == b@.len(),
            a@.take(i as int) == b@.take(i as int),
        decreases a@.len() - i,
    {
        if a[i] != b[i] {
            assert(a@[i as int] != b@[i as int]);
            return false;
        }
        proof {
            crate::seqs::lemma_take_next(a@, i as int);
            crate::seqs::lemma_take_next(b@, i as int);
        }
        i = i + 1;
    }
    assert(a@.take(i as int) =~= a@);
    assert(b@.take(i as int) =~= b@);
    true
}

/// The same list of numbers once more.
pub fn copy_path(path: &Vec<u32>) -> (r: Vec<u32>)
    ensures
        r@ == path@,
{
    let mut copy: Vec<u32> = Vec::new();
    let mut i: usize = 0;
    while i < path.len()
        invariant
            i <= path@.len(),
            copy@ == path@.take(i as int),
        decreases path@.len() - i,
    {
        proof {
            crate::seqs::lemma_take_next(path@, i as int);
        }
        copy.push(path[i]);
        i = i + 1;
    }
    assert(path@.take(i as int) =~= path@);
    copy
}

/// The address of a device.
#[derive(Clone, Debug, PartialEq, Eq)]
pub struct AddressDevice(pub String);

impl View for AddressDevice {
    type V = Seq<char>;

    open spec fn view(&self) -> Seq<char> {
        self.0@
    }
}

impl AddressDevice {
    /// The device with this address.
    pub fn named(name: &str) -> (r: AddressDevice)
        ensures
            r@ == name@,
    {
        AddressDevice(String::from_str(name))
    }

    /// Whether two addresses are the same.
    pub fn is(&self, other: &AddressDevice) -> (r: bool)
        ensures
            r == (self@ == other@),
    {
        self.0 == other.0
    }

    /// The same address once more.
    pub fn copy(&self) -> (r: AddressDevice)
        ensures
            r@ == self@,
    {
        AddressDevice(self.0.clone())
    }
}

/// The address of a feature: the device, the entity's path on it, and the feature's number.
#[derive(Clone, Debug, PartialEq, Eq)]
pub struct FeatureAddress {
    /// The device.
    pub device: Option<AddressDevice>,
    /// The path of the entity.
    pub entity: Option<Vec<u32>>,
    /// The number of the feature on the entity.
    pub feature: Option<u32>,
}

/// The content of a [`FeatureAddress`].
pub struct FeatureAddressView {
    /// The device.
    pub device: Option<Seq<char>>,
    /// The path of the entity.
    pub entity: Option<Seq<u32>>,
    /// The number of the feature on the entity.
    pub feature: Option<u32>,
}

/// The content of an optional device address.
pub open spec fn device_of(device: Option<AddressDevice>) -> Option<Seq<char>> {
    match device {
        Some(device) => Some(device@),
        None => None,
    }
}

/// The content of an optional feature address.
pub open spec fn feature_of(feature: Option<FeatureAddress>) -> Option<FeatureAddressView> {
    match feature {
        Some(feature) => Some(feature@),
        None => None,
    }
}

impl View for FeatureAddress {
    type V = FeatureAddressView;

    open spec fn view(&self) -> FeatureAddressView {
        FeatureAddressView {
            device: device_of(self.device),
            entity: match self.entity {
                Some(path) => Some(path@),
                None => None,
            },
            feature: self.feature,
        }
    }
}

impl FeatureAddressView {
    /// The path of the entity; an address without one has the empty path.
    pub open spec fn path(self) -> Seq<u32> {
        match self.entity {
            Some(path) => path,
            None => Seq::empty(),
        }
    }

    /// Whether the two addresses can be on one device: devices differ only where both are named.
    pub open spec fn shares_device(self, other: FeatureAddressView) -> bool {
        (self.device is Some && other.device is Some) ==> self.device == other.device
    }

    /// Whether the two addresses name one entity.
    pub open spec fn shares_entity(self, other: FeatureAddressView) -> bool {
        self.shares_device(other) && self.path() == other.path()
    }

    /// Whether the two addresses name one feature.
    pub open spec fn shares_feature(self, other: FeatureAddressView) -> bool {
        self.shares_entity(other) && self.feature == other.feature
    }
}

/// The node management feature of a device.
pub open spec fn management(device: Seq<char>) -> FeatureAddressView {
    FeatureAddressView { device: Some(device), entity: Some(seq![0u32]), feature: Some(0u32) }
}

impl FeatureAddress {
    /// The feature with this number on this entity of this device.
    pub fn new(device: AddressDevice, entity: Vec<u32>, feature: u32) -> (r: FeatureAddress)
        ensures
            r@ == (FeatureAddressView {
                device: Some(device@),
                entity: Some(entity@),
                feature: Some(feature),
            }),
    {
        FeatureAddress { device: Some(device), entity: Some(entity), feature: Some(feature) }
    }

    /// Whether two addresses are the same in every part.
    pub fn is(&self, other: &FeatureAddress) -> (r: bool)
        ensures
            r == (self@ == other@),
    {
        let devices = match (&self.device, &other.device) {
            (Some(a), Some(b)) => a.is(b),
            (None, None) => true,
            _ => false,
        };
        let entities = match (&self.entity, &other.entity) {
            (Some(a), Some(b)) => same_path(a, b),
            (None, None) => true,
            _ => false,
        };
        let features = match (self.feature, other.feature) {
            (Some(a), Some(b)) => a == b,
            (None, None) => true,
            _ => false,
        };
        devices && entities && features
    }

    /// The same address once more.
    pub fn copy(&self) -> (r: FeatureAddress)
        ensures
            r@ == self@,
    {
        FeatureAddress {
            device: match &self.device {
                Some(device) => Some(device.copy()),
                None => None,
            },
            entity: match &self.entity {
                Some(path) => Some(copy_path(path)),
                None => None,
            },
            feature: self.feature,
        }
    }

    /// Whether the feature is on this device, named in the address.
    pub fn is_on(&self, device: &AddressDevice) -> (r: bool)
        ensures
            r == (self@.device == Some(device@)),
    {
        match &self.device {
            Some(own) => own.is(device),
            None => false,
        }
    }
}

/// Whether an optional address is this one.
pub fn names(feature: &Option<FeatureAddress>, other: &FeatureAddress) -> (r: bool)
    ensures
        r == (feature_of(*feature) == Some(other@)),
{
    match feature {
        Some(feature) => feature.is(other),
        None => false,
    }
}

/// The same optional address once more.
pub fn copy_feature(feature: &Option<FeatureAddress>) -> (r: Option<FeatureAddress>)
    ensures
        feature_of(r) == feature_of(*feature),
{
    match feature {
        Some(feature) => Some(feature.copy()),
        None => None,
    }
}

/// The path of the entity that a feature is on.
pub fn entity_path(address: &FeatureAddress) -> (r: Vec<u32>)
    ensures
        r@ == address@.path(),
{
    match &address.entity {
        Some(path) => copy_path(path),
        None => {
            let path: Vec<u32> = Vec::new();
            assert(path@ =~= Seq::<u32>::empty());
            path
        },
    }
}

/// Whether two addresses name one entity. Devices are compared only where both are named.
pub fn same_entity(a: &FeatureAddress, b: &FeatureAddress) -> (r: bool)
    ensures
        r == a@.shares_entity(b@),
{
    let devices = match (&a.device, &b.device) {
        (Some(x), Some(y)) => x.is(y),
        _ => true,
    };
    devices && same_path(&entity_path(a), &entity_path(b))
}

/// Whether two addresses name one feature. Devices are compared only where both are named.
pub fn same_feature(a: &FeatureAddress, b: &FeatureAddress) -> (r: bool)
    ensures
        r == a@.shares_feature(b@),
{
    let features = match (a.feature, b.feature) {
        (Some(x), Some(y)) => x == y,
        (None, None) => true,
        _ => false,
    };
    same_entity(a, b) && features
}

/// The node management feature of a device.
pub fn node_management(device: &AddressDevice) -> (r: FeatureAddress)
    ensures
        r@ == management(device@),
{
    let mut path: Vec<u32> = Vec::new();
    path.push(0);
    assert(path@ =~= seq![0u32]);
    FeatureAddress::new(device.copy(), path, 0)
}

/// One unit of a device: the entity that announced a use case.
#[derive(Clone, Debug, PartialEq, Eq)]
pub struct UnitId {
    /// The device.
    pub device: AddressDevice,
    /// The path of the entity.
    pub entity: Vec<u32>,
}

/// The content of a [`UnitId`].
pub struct UnitIdView {
    /// The device.
    pub device: Seq<char>,
    /// The path of the entity.
    pub entity: Seq<u32>,
}

impl View for UnitId {
    type V = UnitIdView;

    open spec fn view(&self) -> UnitIdView {
        UnitIdView { device: self.device@, entity: self.entity@ }
    }
}

impl UnitId {
    /// Whether two units are the same.
    pub fn is(&self, other: &UnitId) -> (r: bool)
        ensures
            r == (self@ == other@),
    {
        self.device.is(&other.device) && same_path(&self.entity, &other.entity)
    }

    /// The same unit once more.
    pub fn copy(&self) -> (r: UnitId)
        ensures
            r@ == self@,
    {
        UnitId { device: self.device.copy(), entity: copy_path(&self.entity) }
    }
}

} // verus!
