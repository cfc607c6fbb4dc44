//! The data that travels to the twin platform: properties, feed
//! definitions, locations and property updates, each with the mathematical
//! view that the contracts of this crate speak of.

use vstd::prelude::*;
use vstd::string::*;

use crate::constants::LANGUAGE;

verus! {

/// Predicate of a twin's or feed's label.
pub const LABEL: &'static str = "http://www.w3.org/2000/01/rdf-schema#label";

/// Predicate of a free-text comment.
pub const COMMENT: &'static str = "http://www.w3.org/2000/01/rdf-schema#comment";

/// Predicate that states the type of a twin.
pub const RDF_TYPE_PROPERTY: &'static str = "http://www.w3.org/1999/02/22-rdf-syntax-ns#type";

/// Predicate that says how a twin came to be.
pub const CREATED_FROM_PROPERTY: &'static str = "https://data.iotics.com/app#createdFrom";

/// Predicate that links a twin to the model it was made from.
pub const MODEL_PROPERTY: &'static str = "https://data.iotics.com/app#model";

/// Predicate of the time at which a twin was created.
pub const CREATED_AT_PROPERTY: &'static str = "https://data.iotics.com/app#createdAt";

/// Predicate of the time at which a twin was last updated.
pub const UPDATED_AT_PROPERTY: &'static str = "https://data.iotics.com/app#updatedAt";

/// Predicate that names who created a twin.
pub const CREATED_BY_PROPERTY: &'static str = "https://data.iotics.com/app#createdBy";

/// Predicate that names who last updated a twin.
pub const UPDATED_BY_PROPERTY: &'static str = "https://data.iotics.com/app#updatedBy";

/// Predicate that lists the hosts allowed to see a twin.
pub const HOST_ALLOW_LIST_PROPERTY: &'static str = "http://data.iotics.com/public#hostAllowList";

/// Object that allows every host.
pub const ALL_HOSTS: &'static str = "http://data.iotics.com/public#allHosts";

/// Object that marks a twin as a model.
pub const MODEL_OBJECT: &'static str = "https://data.iotics.com/app#Model";

/// Object that marks a twin as made from a model.
pub const BY_MODEL_OBJECT: &'static str = "https://data.iotics.com/app#ByModel";

/// Object that marks a twin as made by a public connector.
pub const BY_PUBLIC_CONNECTOR_OBJECT: &'static str = "https://data.iotics.com/app#ByPublicConnector";

/// Placeholder for a value that is filled in for each twin.
pub const SET_LATER: &'static str = "<SET-LATER>";

/// Data type of a literal that holds a point in time.
pub const DATE_TIME: &'static str = "dateTime";

/// Who may find a twin.
#[derive(Debug, Clone, Copy, PartialEq, Eq, Structural)]
pub enum Visibility {
    Private,
    Public,
}

/// A point on the globe. Each coordinate is kept as the bit pattern of the
/// binary64 number that the platform expects, so that it passes through
/// unchanged.
#[derive(Debug, Clone, Copy, PartialEq, Eq, Structural)]
pub struct GeoLocation {
    pub lat_bits: u64,
    pub lon_bits: u64,
}

/// The object of a property.
#[derive(Debug, PartialEq, Eq)]
pub enum Value {
    Literal { data_type: String, value: String },
    LangLiteral { lang: String, value: String },
    StringLiteral { value: String },
    Uri { value: String },
}

/// What a [`Value`] says.
pub enum ValueView {
    Literal { data_type: Seq<char>, value: Seq<char> },
    LangLiteral { lang: Seq<char>, value: Seq<char> },
    StringLiteral { value: Seq<char> },
    Uri { value: Seq<char> },
}

impl View for Value {
    type V = ValueView;

    open spec fn view(&self) -> ValueView {
        match self {
            Value::Literal { data_type, value } => ValueView::Literal {
                data_type: data_type@,
                value: value@,
            },
            Value::LangLiteral { lang, value } => ValueView::LangLiteral {
                lang: lang@,
                value: value@,
            },
            Value::StringLiteral { value } => ValueView::StringLiteral { value: value@ },
            Value::Uri { value } => ValueView::Uri { value: value@ },
        }
    }
}

impl Clone for Value {
    fn clone(&self) -> (copy: Self)
        ensures
            copy == *self,
    {
        match self {
            Value::Literal { data_type, value } => Value::Literal {
                data_type: data_type.clone(),
                value: value.clone(),
            },
            Value::LangLiteral { lang, value } => Value::LangLiteral {
                lang: lang.clone(),
                value: value.clone(),
            },
            Value::StringLiteral { value } => Value::StringLiteral { value: value.clone() },
            Value::Uri { value } => Value::Uri { value: value.clone() },
        }
    }
}

/// One statement about a twin or a feed: a predicate and its object.
#[derive(Debug, PartialEq, Eq)]
pub struct Property {
    pub key: String,
    pub value: Option<Value>,
}

/// What a [`Property`] says.
pub struct PropertyView {
    pub key: Seq<char>,
    pub value: Option<ValueView>,
}

impl View for Property {
    type V = PropertyView;

    open spec fn view(&self) -> PropertyView {
        PropertyView {
            key: self.key@,
            value: match self.value {
                Some(value) => Some(value@),
                None => None,
            },
        }
    }
}

impl Clone for Property {
    fn clone(&self) -> (copy: Self)
        ensures
            copy == *self,
    {
        Property {
            key: self.key.clone(),
            value: match &self.value {
                Some(value) => Some(value.clone()),
                None => None,
            },
        }
    }
}

/// The views of the elements of `items`, in order.
pub open spec fn views<T: View>(items: Seq<T>) -> Seq<T::V> {
    Seq::new(items.len(), |i: int| items[i]@)
}

/// The property that gives `key` the text `value` in language `lang`.
pub open spec fn lang_literal_property(
    key: Seq<char>,
    lang: Seq<char>,
    value: Seq<char>,
) -> PropertyView {
    PropertyView { key, value: Some(ValueView::LangLiteral { lang, value }) }
}

/// The property that gives `key` the resource `value`.
pub open spec fn uri_property(key: Seq<char>, value: Seq<char>) -> PropertyView {
    PropertyView { key, value: Some(ValueView::Uri { value }) }
}

/// The property that gives `key` the literal `value` of type `data_type`.
pub open spec fn literal_property(
    key: Seq<char>,
    data_type: Seq<char>,
    value: Seq<char>,
) -> PropertyView {
    PropertyView { key, value: Some(ValueView::Literal { data_type, value }) }
}

/// The property that gives `key` the plain text `value`.
pub open spec fn string_literal_property(key: Seq<char>, value: Seq<char>) -> PropertyView {
    PropertyView { key, value: Some(ValueView::StringLiteral { value }) }
}

/// The label `value` in language `lang`.
pub open spec fn label_property(lang: Seq<char>, value: Seq<char>) -> PropertyView {
    lang_literal_property(LABEL@, lang, value)
}

/// Makes properties of each kind.
pub struct PropertyBuilder;

impl PropertyBuilder {
    pub fn build_label(lang: &str, value: &str) -> (property: Property)
        ensures
            property@ == label_property(lang@, value@),
    {
        PropertyBuilder::build_lang_literal(LABEL, lang, value)
    }

    pub fn build_lang_literal(key: &str, lang: &str, value: &str) -> (property: Property)
        ensures
            property@ == lang_literal_property(key@, lang@, value@),
    {
        Property {
            key: String::from_str(key),
            value: Some(
                Value::LangLiteral { lang: String::from_str(lang), value: String::from_str(value) },
            ),
        }
    }

    pub fn build_uri_value(key: &str, value: &str) -> (property: Property)
        ensures
            property@ == uri_property(key@, value@),
    {
        Property {
            key: String::from_str(key),
            value: Some(Value::Uri { value: String::from_str(value) }),
        }
    }

    pub fn build_literal_value(key: &str, data_type: &str, value: &str) -> (property: Property)
        ensures
            property@ == literal_property(key@, data_type@, value@),
    {
        Property {
            key: String::from_str(key),
            value: Some(
                Value::Literal {
                    data_type: String::from_str(data_type),
                    value: String::from_str(value),
                },
            ),
        }
    }

    pub fn build_string_literal_value(key: &str, value: &str) -> (property: Property)
        ensures
            property@ == string_literal_property(key@, value@),
    {
        Property {
            key: String::from_str(key),
            value: Some(Value::StringLiteral { value: String::from_str(value) }),
        }
    }
}

/// One value that a feed carries.
#[derive(Debug, PartialEq, Eq)]
pub struct FeedValue {
    pub label: String,
    pub comment: String,
    pub unit: String,
    pub data_type: String,
}

/// What a [`FeedValue`] says.
pub struct FeedValueView {
    pub label: Seq<char>,
    pub comment: Seq<char>,
    pub unit: Seq<char>,
    pub data_type: Seq<char>,
}

impl View for FeedValue {
    type V = FeedValueView;

    open spec fn view(&self) -> FeedValueView {
        FeedValueView {
            label: self.label@,
            comment: self.comment@,
            unit: self.unit@,
            data_type: self.data_type@,
        }
    }
}

impl Clone for FeedValue {
    fn clone(&self) -> (copy: Self)
        ensures
            copy == *self,
    {
        FeedValue {
            label: self.label.clone(),
            comment: self.comment.clone(),
            unit: self.unit.clone(),
            data_type: self.data_type.clone(),
        }
    }
}

/// The definition of a feed, as the platform takes it when a twin is upserted.
#[derive(Debug, PartialEq, Eq)]
pub struct UpsertFeedWithMeta {
    pub id: String,
    pub store_last: bool,
    pub values: Vec<FeedValue>,
    pub properties: Vec<Property>,
}

/// What an [`UpsertFeedWithMeta`] says.
pub struct FeedView {
    pub id: Seq<char>,
    pub store_last: bool,
    pub values: Seq<FeedValueView>,
    pub properties: Seq<PropertyView>,
}

impl View for UpsertFeedWithMeta {
    type V = FeedView;

    open spec fn view(&self) -> FeedView {
        FeedView {
            id: self.id@,
            store_last: self.store_last,
            values: views(self.values@),
            properties: views(self.properties@),
        }
    }
}

impl Clone for UpsertFeedWithMeta {
    fn clone(&self) -> (copy: Self)
        ensures
            copy@ == self@,
            copy.values@ == self.values@,
            copy.properties@ == self.properties@,
    {
        let values = self.values.clone();
        let properties = self.properties.clone();
        assert(values@ =~= self.values@);
        assert(properties@ =~= self.properties@);
        UpsertFeedWithMeta { id: self.id.clone(), store_last: self.store_last, values, properties }
    }
}

/// A change to the properties of a twin. The platform first clears, then
/// deletes, then adds.
#[derive(Debug, PartialEq, Eq)]
pub struct PropertyUpdate {
    pub cleared_all: bool,
    pub deleted: Vec<Property>,
    pub deleted_by_key: Vec<String>,
    pub added: Vec<Property>,
}

/// What a [`PropertyUpdate`] says.
pub struct PropertyUpdateView {
    pub cleared_all: bool,
    pub deleted: Seq<PropertyView>,
    pub deleted_by_key: Seq<Seq<char>>,
    pub added: Seq<PropertyView>,
}

impl View for PropertyUpdate {
    type V = PropertyUpdateView;

    open spec fn view(&self) -> PropertyUpdateView {
        PropertyUpdateView {
            cleared_all: self.cleared_all,
            deleted: views(self.deleted@),
            deleted_by_key: views(self.deleted_by_key@),
            added: views(self.added@),
        }
    }
}

/// The keys of `properties`, in order.
pub open spec fn keys_of(properties: Seq<PropertyView>) -> Seq<Seq<char>> {
    Seq::new(properties.len(), |i: int| properties[i].key)
}

/// The update that replaces whatever the twin holds under the keys of
/// `properties` by `properties`.
pub open spec fn replacement_of(properties: Seq<PropertyView>) -> PropertyUpdateView {
    PropertyUpdateView {
        cleared_all: false,
        deleted: Seq::empty(),
        deleted_by_key: keys_of(properties),
        added: properties,
    }
}

impl PropertyUpdate {
    /// The update that replaces what the twin holds under the keys of
    /// `properties`: each key is first deleted, then the properties are added.
    pub fn replacing(properties: &Vec<Property>) -> (update: PropertyUpdate)
        ensures
            update@ == replacement_of(views(properties@)),
    {
        let mut deleted_by_key: Vec<String> = Vec::new();
        let mut i: usize = 0;
        while i < properties.len()
            invariant
                i <= properties.len(),
                deleted_by_key.len() == i,
                forall|j: int| 0 <= j < i ==> deleted_by_key@[j] == properties@[j].key,
            decreases properties.len() - i,
        {
            deleted_by_key.push(properties[i].key.clone());
            i = i + 1;
        }
        let added = properties.clone();
        let update = PropertyUpdate {
            cleared_all: false,
            deleted: Vec::new(),
            deleted_by_key,
            added,
        };
        proof {
            assert(added@ =~= properties@);
            assert(update@.deleted =~= Seq::<PropertyView>::empty());
            assert(update@.deleted_by_key =~= keys_of(views(properties@)));
        }
        update
    }
}

} // verus!

verus! {

/// One sample to publish: the platform's share operation takes the twin,
/// the feed, the bytes, and whether to keep the sample for late subscribers.
#[derive(Debug, PartialEq, Eq)]
pub struct FeedShare {
    pub twin_did: String,
    pub feed_id: String,
    pub payload: Vec<u8>,
    pub retain_last: bool,
}

/// What a [`FeedShare`] says.
pub struct FeedShareView {
    pub twin_did: Seq<char>,
    pub feed_id: Seq<char>,
    pub payload: Seq<u8>,
    pub retain_last: bool,
}

impl View for FeedShare {
    type V = FeedShareView;

    open spec fn view(&self) -> FeedShareView {
        FeedShareView {
            twin_did: self.twin_did@,
            feed_id: self.feed_id@,
            payload: self.payload@,
            retain_last: self.retain_last,
        }
    }
}

/// One twin to create or bring up to date: the platform's upsert operation
/// takes these, and the identifier that the identity layer derives from
/// `seed`.
#[derive(Debug, PartialEq, Eq)]
pub struct TwinUpsert {
    pub seed: String,
    pub properties: Vec<Property>,
    pub feeds: Vec<UpsertFeedWithMeta>,
    pub location: Option<GeoLocation>,
    pub visibility: Visibility,
}

/// What a [`TwinUpsert`] says.
pub struct TwinUpsertView {
    pub seed: Seq<char>,
    pub properties: Seq<PropertyView>,
    pub feeds: Seq<FeedView>,
    pub location: Option<GeoLocation>,
    pub visibility: Visibility,
}

impl View for TwinUpsert {
    type V = TwinUpsertView;

    open spec fn view(&self) -> TwinUpsertView {
        TwinUpsertView {
            seed: self.seed@,
            properties: views(self.properties@),
            feeds: views(self.feeds@),
            location: self.location,
            visibility: self.visibility,
        }
    }
}

} // verus!
