//! What an exception carries beside its message: the class it is raised as
//! and the structured properties that go with that class.

use crate::kind::{ErrorKind, PropertyKey};
use vstd::prelude::*;

verus! {

/// The party that a protocol error is about: a name and a device.
#[derive(Debug, PartialEq, Eq)]
pub struct ProtocolAddress {
    pub name: String,
    pub device_id: u32,
}

/// A [`ProtocolAddress`] as contracts see it.
pub struct ProtocolAddressView {
    pub name: Seq<char>,
    pub device_id: u32,
}

impl View for ProtocolAddress {
    type V = ProtocolAddressView;

    open spec fn view(&self) -> ProtocolAddressView {
        ProtocolAddressView { name: self.name@, device_id: self.device_id }
    }
}

impl ProtocolAddress {
    /// The address of the device `device_id` of the party `name`.
    pub fn new(name: String, device_id: u32) -> (address: ProtocolAddress)
        ensures
            address@ == (ProtocolAddressView { name: name@, device_id }),
    {
        ProtocolAddress { name, device_id }
    }
}

impl Clone for ProtocolAddress {
    fn clone(&self) -> (copy: ProtocolAddress)
        ensures
            copy@ == self@,
    {
        ProtocolAddress { name: self.name.clone(), device_id: self.device_id }
    }
}

/// Copies a list of strings, string by string.
pub fn clone_texts(list: &Vec<String>) -> (copy: Vec<String>)
    ensures
        texts(copy@) == texts(list@),
{
    let mut copy: Vec<String> = Vec::new();
    let mut index: usize = 0;
    while index < list.len()
        invariant
            index <= list.len(),
            copy.len() == index,
            forall|i: int| 0 <= i < index ==> copy[i]@ == list[i]@,
        decreases list.len() - index,
    {
        copy.push(list[index].clone());
        index += 1;
    }
    assert(texts(copy@) =~= texts(list@));
    copy
}

/// The value of one structured property.
#[derive(Debug, PartialEq, Eq)]
pub enum PropertyValue {
    /// A string.
    Text(String),
    /// A number.
    Number(u32),
    /// An address, handed to the host as an address object.
    Address(ProtocolAddress),
    /// A list of strings, in order.
    TextList(Vec<String>),
}

/// A [`PropertyValue`] as contracts see it.
pub enum PropertyValueView {
    Text(Seq<char>),
    Number(u32),
    Address(ProtocolAddressView),
    TextList(Seq<Seq<char>>),
}

/// The strings of a list, each as its characters.
pub open spec fn texts(list: Seq<String>) -> Seq<Seq<char>> {
    Seq::new(list.len(), |i: int| list[i]@)
}

impl View for PropertyValue {
    type V = PropertyValueView;

    open spec fn view(&self) -> PropertyValueView {
        match *self {
            PropertyValue::Text(text) => PropertyValueView::Text(text@),
            PropertyValue::Number(number) => PropertyValueView::Number(number),
            PropertyValue::Address(address) => PropertyValueView::Address(address@),
            PropertyValue::TextList(list) => PropertyValueView::TextList(texts(list@)),
        }
    }
}

impl Clone for PropertyValue {
    fn clone(&self) -> (copy: PropertyValue)
        ensures
            copy@ == self@,
    {
        match self {
            PropertyValue::Text(text) => PropertyValue::Text(text.clone()),
            PropertyValue::Number(number) => PropertyValue::Number(*number),
            PropertyValue::Address(address) => PropertyValue::Address(address.clone()),
            PropertyValue::TextList(list) => PropertyValue::TextList(clone_texts(list)),
        }
    }
}

/// The structured properties of one exception: a mapping from property keys to
/// values. Every class that has properties has exactly one.
#[derive(Debug, PartialEq, Eq)]
pub struct ExtraProperties {
    key: PropertyKey,
    value: PropertyValue,
}

impl View for ExtraProperties {
    type V = Map<PropertyKey, PropertyValueView>;

    closed spec fn view(&self) -> Map<PropertyKey, PropertyValueView> {
        map![self.key => self.value@]
    }
}

impl Clone for ExtraProperties {
    fn clone(&self) -> (copy: ExtraProperties)
        ensures
            copy@ == self@,
    {
        ExtraProperties { key: self.key, value: self.value.clone() }
    }
}

impl ExtraProperties {
    /// The mapping that holds `value` under `key` and nothing else.
    pub fn single(key: PropertyKey, value: PropertyValue) -> (properties: ExtraProperties)
        ensures
            properties@ == map![key => value@],
            properties@.dom() == set![key],
    {
        assert(map![key => value@].dom() =~= set![key]);
        ExtraProperties { key, value }
    }

    /// The one key of the mapping.
    pub fn key(&self) -> (key: PropertyKey)
        ensures
            self@.dom() == set![key],
    {
        proof {
            assert(self@.dom() =~= set![self.key]);
        }
        self.key
    }

    /// The value under `key`, if the mapping has that key.
    pub fn get(&self, key: PropertyKey) -> (value: Option<&PropertyValue>)
        ensures
            self@.contains_key(key) ==> value is Some && value->Some_0@ == self@[key],
            !self@.contains_key(key) ==> value is None,
    {
        if self.key == key {
            Some(&self.value)
        } else {
            None
        }
    }

    /// Takes the mapping apart into its key and its value.
    pub fn into_entry(self) -> (entry: (PropertyKey, PropertyValue))
        ensures
            self@ == map![entry.0 => entry.1@],
    {
        (self.key, self.value)
    }
}

/// The key under which an exception of the given class carries its property,
/// if the class has one. `None` for the class stands for the base class.
pub open spec fn property_key(kind: Option<ErrorKind>) -> Option<PropertyKey> {
    match kind {
        Some(ErrorKind::UntrustedIdentity) => Some(PropertyKey::Addr),
        Some(ErrorKind::InvalidRegistrationId) => Some(PropertyKey::Addr),
        Some(ErrorKind::InvalidSenderKeySession) => Some(PropertyKey::DistributionId),
        Some(ErrorKind::RateLimitedError) => Some(PropertyKey::RetryAfterSecs),
        Some(ErrorKind::SvrRestoreFailed) => Some(PropertyKey::TriesRemaining),
        Some(ErrorKind::BackupValidation) => Some(PropertyKey::UnknownFields),
        _ => None,
    }
}

/// What the taxonomy says of one native error: the class to raise it as, or
/// `None` for the base class, and the properties to attach.
#[derive(Debug, PartialEq, Eq)]
pub struct Classification {
    pub kind: Option<ErrorKind>,
    pub extra: Option<ExtraProperties>,
}

/// A [`Classification`] as contracts see it.
pub struct ClassificationView {
    pub kind: Option<ErrorKind>,
    pub extra: Option<Map<PropertyKey, PropertyValueView>>,
}

impl View for Classification {
    type V = ClassificationView;

    open spec fn view(&self) -> ClassificationView {
        ClassificationView {
            kind: self.kind,
            extra: match self.extra {
                Some(properties) => Some(properties@),
                None => None,
            },
        }
    }
}

impl ClassificationView {
    /// The base class, with no properties.
    pub open spec fn base() -> ClassificationView {
        ClassificationView { kind: None, extra: None }
    }

    /// The class `kind`, with no properties.
    pub open spec fn of(kind: ErrorKind) -> ClassificationView {
        ClassificationView { kind: Some(kind), extra: None }
    }

    /// The class `kind`, with `value` under `key`.
    pub open spec fn with(
        kind: ErrorKind,
        key: PropertyKey,
        value: PropertyValueView,
    ) -> ClassificationView {
        ClassificationView { kind: Some(kind), extra: Some(map![key => value]) }
    }

    /// The keys of the properties are those of the class, and no others.
    pub open spec fn keys_follow_kind(self) -> bool {
        match property_key(self.kind) {
            Some(key) => self.extra is Some && self.extra->Some_0.dom() == set![key],
            None => self.extra is None,
        }
    }
}

impl Classification {
    /// The base class, with no properties.
    pub fn base() -> (classification: Classification)
        ensures
            classification@ == ClassificationView::base(),
    {
        Classification { kind: None, extra: None }
    }

    /// The class `kind`, with no properties.
    pub fn of(kind: ErrorKind) -> (classification: Classification)
        ensures
            classification@ == ClassificationView::of(kind),
    {
        Classification { kind: Some(kind), extra: None }
    }

    /// The class `kind`, with `value` under `key`.
    pub fn with(kind: ErrorKind, key: PropertyKey, value: PropertyValue) -> (classification:
        Classification)
        ensures
            classification@ == ClassificationView::with(kind, key, value@),
            classification@.extra->Some_0.dom() == set![key],
    {
        Classification { kind: Some(kind), extra: Some(ExtraProperties::single(key, value)) }
    }
}

} // verus!
