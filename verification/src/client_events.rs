//! Events of light clients, emitted towards relayers.
use vstd::prelude::*;
use crate::abci::{attributes_view, pairs_view, Event, EventAttribute};
use crate::attribute::{reads_back, AttributeValue, Newtype};
use crate::decode::{
    earlier_failure, field_readable, field_wrong, first_value, keys_distinct, key_absent,
    lemma_distinct_keys, missing_attribute, scan_field, FieldScan,
};
use crate::handler_events::DecodingError;
use crate::identifiers::{ClientId, ClientType, Height};

verus! {

/// The `client_id` attribute: the client.
#[derive(Clone, Debug, PartialEq, Eq)]
pub struct ClientIdAttribute(pub ClientId);

impl ClientIdAttribute {
    /// The key of this attribute in an ABCI event.
    pub const ATTRIBUTE_KEY: &'static str = "client_id";

    /// How errors name this attribute.
    pub const FRIENDLY_NAME: &'static str = "client ID";

    /// The attribute holding `value`.
    pub fn new(value: ClientId) -> (r: ClientIdAttribute)
        ensures
            r@ == value,
    {
        ClientIdAttribute(value)
    }

    /// The value held.
    pub fn value(&self) -> (r: &ClientId)
        ensures
            *r == self@,
    {
        &self.0
    }

    /// The ABCI attribute that this attribute becomes: its key, its value
    /// spelled out, not indexed.
    pub open spec fn attribute_view(self) -> (Seq<char>, Seq<char>, bool) {
        (Self::ATTRIBUTE_KEY@, self@.event_value(), false)
    }

    /// Reads the attribute from the text of its value.
    pub fn parse(text: &str) -> (r: Result<ClientIdAttribute, DecodingError>)
        ensures
            r is Ok <==> <ClientId as AttributeValue>::accepts(text@),
            r matches Ok(a) ==> a@.event_value() == <ClientId as AttributeValue>::normal_form(text@),
            r matches Ok(a) ==> a@.canonical(),
    {
        match <ClientId as AttributeValue>::parse_event_value(text) {
            Ok(v) => Ok(ClientIdAttribute(v)),
            Err(e) => Err(e),
        }
    }
}

impl core::str::FromStr for ClientIdAttribute {
    type Err = DecodingError;

    fn from_str(text: &str) -> Result<ClientIdAttribute, DecodingError> {
        ClientIdAttribute::parse(text)
    }
}

/// Reads the attribute from an ABCI attribute: the key must be this
/// attribute's, and the value is read as `parse` reads it.
impl TryFrom<EventAttribute> for ClientIdAttribute {
    type Error = DecodingError;

    fn try_from(attribute: EventAttribute) -> (r: Result<ClientIdAttribute, DecodingError>)
        ensures
            attribute@.0 != ClientIdAttribute::ATTRIBUTE_KEY@ ==> (r matches Err(
                DecodingError::MismatchedResourceName { expected, actual },
            ) && expected@ == ClientIdAttribute::ATTRIBUTE_KEY@ && actual@ == attribute@.0),
            r is Ok <==> attribute@.0 == ClientIdAttribute::ATTRIBUTE_KEY@
                && <ClientId as AttributeValue>::accepts(attribute@.1),
            r matches Ok(a) ==> a@.event_value() == <ClientId as AttributeValue>::normal_form(attribute@.1),
            forall|x: ClientIdAttribute|
                #[trigger] x.attribute_view() == attribute@ && reads_back(x@) ==> (r matches Ok(y)
                    && y.attribute_view() == x.attribute_view()),
            forall|x: ClientIdAttribute|
                #[trigger] x.attribute_view() == attribute@ && reads_back(x@) && x@.canonical() ==> (
                r matches Ok(y) && y@.same_value(x@)),
    {
        let expected = String::from_str(ClientIdAttribute::ATTRIBUTE_KEY);
        if !(attribute.key == expected) {
            return Err(DecodingError::MismatchedResourceName { expected, actual: attribute.key });
        }
        let r = ClientIdAttribute::parse(attribute.value.as_str());
        proof {
            assert forall|x: ClientIdAttribute|
                #[trigger] x.attribute_view() == attribute@ && reads_back(x@) && x@.canonical()
                implies r matches Ok(y) && y@.same_value(x@) by {
                <ClientId as AttributeValue>::lemma_spelling_injective(r->Ok_0@, x@);
            }
        }
        r
    }
}

impl vstd::std_specs::convert::TryFromSpecImpl<EventAttribute> for ClientIdAttribute {
    open spec fn obeys_try_from_spec() -> bool {
        false
    }

    open spec fn try_from_spec(v: EventAttribute) -> Result<ClientIdAttribute, DecodingError> {
        arbitrary()
    }
}

impl View for ClientIdAttribute {
    type V = ClientId;

    open spec fn view(&self) -> ClientId {
        self.0
    }
}

impl Newtype for ClientIdAttribute {
    type Inner = ClientId;
}

impl From<ClientId> for ClientIdAttribute {
    fn from(inner: ClientId) -> (r: ClientIdAttribute) {
        ClientIdAttribute(inner)
    }
}

impl vstd::std_specs::convert::FromSpecImpl<ClientId> for ClientIdAttribute {
    open spec fn obeys_from_spec() -> bool {
        true
    }

    open spec fn from_spec(v: ClientId) -> ClientIdAttribute {
        ClientIdAttribute(v)
    }
}

impl From<ClientIdAttribute> for ClientId {
    fn from(attribute: ClientIdAttribute) -> (r: ClientId) {
        attribute.0
    }
}

impl vstd::std_specs::convert::FromSpecImpl<ClientIdAttribute> for ClientId {
    open spec fn obeys_from_spec() -> bool {
        true
    }

    open spec fn from_spec(v: ClientIdAttribute) -> ClientId {
        v@
    }
}

/// The attribute as an ABCI attribute: its key and its value spelled out,
/// not indexed. A spec function cannot build the strings of an
/// `EventAttribute`, so `from` states its result in its own `ensures`.
impl From<ClientIdAttribute> for EventAttribute {
    fn from(attribute: ClientIdAttribute) -> (r: EventAttribute)
        ensures
            r@ == attribute.attribute_view(),
    {
        let value = attribute.0.to_event_value();
        EventAttribute::new(ClientIdAttribute::ATTRIBUTE_KEY, value, false)
    }
}

impl vstd::std_specs::convert::FromSpecImpl<ClientIdAttribute> for EventAttribute {
    open spec fn obeys_from_spec() -> bool {
        false
    }

    open spec fn from_spec(v: ClientIdAttribute) -> EventAttribute {
        arbitrary()
    }
}

/// The `client_type` attribute: the type of the client.
#[derive(Clone, Debug, PartialEq, Eq)]
pub struct ClientTypeAttribute(pub ClientType);

impl ClientTypeAttribute {
    /// The key of this attribute in an ABCI event.
    pub const ATTRIBUTE_KEY: &'static str = "client_type";

    /// How errors name this attribute.
    pub const FRIENDLY_NAME: &'static str = "client type";

    /// The attribute holding `value`.
    pub fn new(value: ClientType) -> (r: ClientTypeAttribute)
        ensures
            r@ == value,
    {
        ClientTypeAttribute(value)
    }

    /// The value held.
    pub fn value(&self) -> (r: &ClientType)
        ensures
            *r == self@,
    {
        &self.0
    }

    /// The ABCI attribute that this attribute becomes: its key, its value
    /// spelled out, not indexed.
    pub open spec fn attribute_view(self) -> (Seq<char>, Seq<char>, bool) {
        (Self::ATTRIBUTE_KEY@, self@.event_value(), false)
    }

    /// Reads the attribute from the text of its value.
    pub fn parse(text: &str) -> (r: Result<ClientTypeAttribute, DecodingError>)
        ensures
            r is Ok <==> <ClientType as AttributeValue>::accepts(text@),
            r matches Ok(a) ==> a@.event_value() == <ClientType as AttributeValue>::normal_form(text@),
            r matches Ok(a) ==> a@.canonical(),
    {
        match <ClientType as AttributeValue>::parse_event_value(text) {
            Ok(v) => Ok(ClientTypeAttribute(v)),
            Err(e) => Err(e),
        }
    }
}

impl core::str::FromStr for ClientTypeAttribute {
    type Err = DecodingError;

    fn from_str(text: &str) -> Result<ClientTypeAttribute, DecodingError> {
        ClientTypeAttribute::parse(text)
    }
}

/// Reads the attribute from an ABCI attribute: the key must be this
/// attribute's, and the value is read as `parse` reads it.
impl TryFrom<EventAttribute> for ClientTypeAttribute {
    type Error = DecodingError;

    fn try_from(attribute: EventAttribute) -> (r: Result<ClientTypeAttribute, DecodingError>)
        ensures
            attribute@.0 != ClientTypeAttribute::ATTRIBUTE_KEY@ ==> (r matches Err(
                DecodingError::MismatchedResourceName { expected, actual },
            ) && expected@ == ClientTypeAttribute::ATTRIBUTE_KEY@ && actual@ == attribute@.0),
            r is Ok <==> attribute@.0 == ClientTypeAttribute::ATTRIBUTE_KEY@
                && <ClientType as AttributeValue>::accepts(attribute@.1),
            r matches Ok(a) ==> a@.event_value() == <ClientType as AttributeValue>::normal_form(attribute@.1),
            forall|x: ClientTypeAttribute|
                #[trigger] x.attribute_view() == attribute@ && reads_back(x@) ==> (r matches Ok(y)
                    && y.attribute_view() == x.attribute_view()),
            forall|x: ClientTypeAttribute|
                #[trigger] x.attribute_view() == attribute@ && reads_back(x@) && x@.canonical() ==> (
                r matches Ok(y) && y@.same_value(x@)),
    {
        let expected = String::from_str(ClientTypeAttribute::ATTRIBUTE_KEY);
        if !(attribute.key == expected) {
            return Err(DecodingError::MismatchedResourceName { expected, actual: attribute.key });
        }
        let r = ClientTypeAttribute::parse(attribute.value.as_str());
        proof {
            assert forall|x: ClientTypeAttribute|
                #[trigger] x.attribute_view() == attribute@ && reads_back(x@) && x@.canonical()
                implies r matches Ok(y) && y@.same_value(x@) by {
                <ClientType as AttributeValue>::lemma_spelling_injective(r->Ok_0@, x@);
            }
        }
        r
    }
}

impl vstd::std_specs::convert::TryFromSpecImpl<EventAttribute> for ClientTypeAttribute {
    open spec fn obeys_try_from_spec() -> bool {
        false
    }

    open spec fn try_from_spec(v: EventAttribute) -> Result<ClientTypeAttribute, DecodingError> {
        arbitrary()
    }
}

impl View for ClientTypeAttribute {
    type V = ClientType;

    open spec fn view(&self) -> ClientType {
        self.0
    }
}

impl Newtype for ClientTypeAttribute {
    type Inner = ClientType;
}

impl From<ClientType> for ClientTypeAttribute {
    fn from(inner: ClientType) -> (r: ClientTypeAttribute) {
        ClientTypeAttribute(inner)
    }
}

impl vstd::std_specs::convert::FromSpecImpl<ClientType> for ClientTypeAttribute {
    open spec fn obeys_from_spec() -> bool {
        true
    }

    open spec fn from_spec(v: ClientType) -> ClientTypeAttribute {
        ClientTypeAttribute(v)
    }
}

impl From<ClientTypeAttribute> for ClientType {
    fn from(attribute: ClientTypeAttribute) -> (r: ClientType) {
        attribute.0
    }
}

impl vstd::std_specs::convert::FromSpecImpl<ClientTypeAttribute> for ClientType {
    open spec fn obeys_from_spec() -> bool {
        true
    }

    open spec fn from_spec(v: ClientTypeAttribute) -> ClientType {
        v@
    }
}

/// The attribute as an ABCI attribute: its key and its value spelled out,
/// not indexed. A spec function cannot build the strings of an
/// `EventAttribute`, so `from` states its result in its own `ensures`.
impl From<ClientTypeAttribute> for EventAttribute {
    fn from(attribute: ClientTypeAttribute) -> (r: EventAttribute)
        ensures
            r@ == attribute.attribute_view(),
    {
        let value = attribute.0.to_event_value();
        EventAttribute::new(ClientTypeAttribute::ATTRIBUTE_KEY, value, false)
    }
}

impl vstd::std_specs::convert::FromSpecImpl<ClientTypeAttribute> for EventAttribute {
    open spec fn obeys_from_spec() -> bool {
        false
    }

    open spec fn from_spec(v: ClientTypeAttribute) -> EventAttribute {
        arbitrary()
    }
}

/// The `consensus_height` attribute: the height of the consensus state.
#[derive(Clone, Debug, PartialEq, Eq)]
pub struct ConsensusHeightAttribute(pub Height);

impl ConsensusHeightAttribute {
    /// The key of this attribute in an ABCI event.
    pub const ATTRIBUTE_KEY: &'static str = "consensus_height";

    /// How errors name this attribute.
    pub const FRIENDLY_NAME: &'static str = "consensus height";

    /// The attribute holding `value`.
    pub fn new(value: Height) -> (r: ConsensusHeightAttribute)
        ensures
            r@ == value,
    {
        ConsensusHeightAttribute(value)
    }

    /// The value held.
    pub fn value(&self) -> (r: &Height)
        ensures
            *r == self@,
    {
        &self.0
    }

    /// The ABCI attribute that this attribute becomes: its key, its value
    /// spelled out, not indexed.
    pub open spec fn attribute_view(self) -> (Seq<char>, Seq<char>, bool) {
        (Self::ATTRIBUTE_KEY@, self@.event_value(), false)
    }

    /// Reads the attribute from the text of its value.
    pub fn parse(text: &str) -> (r: Result<ConsensusHeightAttribute, DecodingError>)
        ensures
            r is Ok <==> <Height as AttributeValue>::accepts(text@),
            r matches Ok(a) ==> a@.event_value() == <Height as AttributeValue>::normal_form(text@),
            r matches Ok(a) ==> a@.canonical(),
    {
        match <Height as AttributeValue>::parse_event_value(text) {
            Ok(v) => Ok(ConsensusHeightAttribute(v)),
            Err(e) => Err(e),
        }
    }
}

impl core::str::FromStr for ConsensusHeightAttribute {
    type Err = DecodingError;

    fn from_str(text: &str) -> Result<ConsensusHeightAttribute, DecodingError> {
        ConsensusHeightAttribute::parse(text)
    }
}

/// Reads the attribute from an ABCI attribute: the key must be this
/// attribute's, and the value is read as `parse` reads it.
impl TryFrom<EventAttribute> for ConsensusHeightAttribute {
    type Error = DecodingError;

    fn try_from(attribute: EventAttribute) -> (r: Result<ConsensusHeightAttribute, DecodingError>)
        ensures
            attribute@.0 != ConsensusHeightAttribute::ATTRIBUTE_KEY@ ==> (r matches Err(
                DecodingError::MismatchedResourceName { expected, actual },
            ) && expected@ == ConsensusHeightAttribute::ATTRIBUTE_KEY@ && actual@ == attribute@.0),
            r is Ok <==> attribute@.0 == ConsensusHeightAttribute::ATTRIBUTE_KEY@
                && <Height as AttributeValue>::accepts(attribute@.1),
            r matches Ok(a) ==> a@.event_value() == <Height as AttributeValue>::normal_form(attribute@.1),
            forall|x: ConsensusHeightAttribute|
                #[trigger] x.attribute_view() == attribute@ && reads_back(x@) ==> (r matches Ok(y)
                    && y.attribute_view() == x.attribute_view()),
            forall|x: ConsensusHeightAttribute|
                #[trigger] x.attribute_view() == attribute@ && reads_back(x@) && x@.canonical() ==> (
                r matches Ok(y) && y@.same_value(x@)),
    {
        let expected = String::from_str(ConsensusHeightAttribute::ATTRIBUTE_KEY);
        if !(attribute.key == expected) {
            return Err(DecodingError::MismatchedResourceName { expected, actual: attribute.key });
        }
        let r = ConsensusHeightAttribute::parse(attribute.value.as_str());
        proof {
            assert forall|x: ConsensusHeightAttribute|
                #[trigger] x.attribute_view() == attribute@ && reads_back(x@) && x@.canonical()
                implies r matches Ok(y) && y@.same_value(x@) by {
                <Height as AttributeValue>::lemma_spelling_injective(r->Ok_0@, x@);
            }
        }
        r
    }
}

impl vstd::std_specs::convert::TryFromSpecImpl<EventAttribute> for ConsensusHeightAttribute {
    open spec fn obeys_try_from_spec() -> bool {
        false
    }

    open spec fn try_from_spec(v: EventAttribute) -> Result<ConsensusHeightAttribute, DecodingError> {
        arbitrary()
    }
}

impl View for ConsensusHeightAttribute {
    type V = Height;

    open spec fn view(&self) -> Height {
        self.0
    }
}

impl Newtype for ConsensusHeightAttribute {
    type Inner = Height;
}

impl From<Height> for ConsensusHeightAttribute {
    fn from(inner: Height) -> (r: ConsensusHeightAttribute) {
        ConsensusHeightAttribute(inner)
    }
}

impl vstd::std_specs::convert::FromSpecImpl<Height> for ConsensusHeightAttribute {
    open spec fn obeys_from_spec() -> bool {
        true
    }

    open spec fn from_spec(v: Height) -> ConsensusHeightAttribute {
        ConsensusHeightAttribute(v)
    }
}

impl From<ConsensusHeightAttribute> for Height {
    fn from(attribute: ConsensusHeightAttribute) -> (r: Height) {
        attribute.0
    }
}

impl vstd::std_specs::convert::FromSpecImpl<ConsensusHeightAttribute> for Height {
    open spec fn obeys_from_spec() -> bool {
        true
    }

    open spec fn from_spec(v: ConsensusHeightAttribute) -> Height {
        v@
    }
}

/// The attribute as an ABCI attribute: its key and its value spelled out,
/// not indexed. A spec function cannot build the strings of an
/// `EventAttribute`, so `from` states its result in its own `ensures`.
impl From<ConsensusHeightAttribute> for EventAttribute {
    fn from(attribute: ConsensusHeightAttribute) -> (r: EventAttribute)
        ensures
            r@ == attribute.attribute_view(),
    {
        let value = attribute.0.to_event_value();
        EventAttribute::new(ConsensusHeightAttribute::ATTRIBUTE_KEY, value, false)
    }
}

impl vstd::std_specs::convert::FromSpecImpl<ConsensusHeightAttribute> for EventAttribute {
    open spec fn obeys_from_spec() -> bool {
        false
    }

    open spec fn from_spec(v: ConsensusHeightAttribute) -> EventAttribute {
        arbitrary()
    }
}

/// The `consensus_heights` attribute: the heights of the consensus states, comma-separated.
#[derive(Clone, Debug, PartialEq, Eq)]
pub struct ConsensusHeightsAttribute(pub Vec<Height>);

impl ConsensusHeightsAttribute {
    /// The key of this attribute in an ABCI event.
    pub const ATTRIBUTE_KEY: &'static str = "consensus_heights";

    /// How errors name this attribute.
    pub const FRIENDLY_NAME: &'static str = "consensus heights";

    /// The attribute holding `value`.
    pub fn new(value: Vec<Height>) -> (r: ConsensusHeightsAttribute)
        ensures
            r@ == value,
    {
        ConsensusHeightsAttribute(value)
    }

    /// The value held.
    pub fn value(&self) -> (r: &Vec<Height>)
        ensures
            *r == self@,
    {
        &self.0
    }

    /// The ABCI attribute that this attribute becomes: its key, its value
    /// spelled out, not indexed.
    pub open spec fn attribute_view(self) -> (Seq<char>, Seq<char>, bool) {
        (Self::ATTRIBUTE_KEY@, self@.event_value(), false)
    }

    /// Reads the attribute from the text of its value.
    pub fn parse(text: &str) -> (r: Result<ConsensusHeightsAttribute, DecodingError>)
        ensures
            r is Ok <==> <Vec<Height> as AttributeValue>::accepts(text@),
            r matches Ok(a) ==> a@.event_value() == <Vec<Height> as AttributeValue>::normal_form(text@),
            r matches Ok(a) ==> a@.canonical(),
    {
        match <Vec<Height> as AttributeValue>::parse_event_value(text) {
            Ok(v) => Ok(ConsensusHeightsAttribute(v)),
            Err(e) => Err(e),
        }
    }
}

impl core::str::FromStr for ConsensusHeightsAttribute {
    type Err = DecodingError;

    fn from_str(text: &str) -> Result<ConsensusHeightsAttribute, DecodingError> {
        ConsensusHeightsAttribute::parse(text)
    }
}

/// Reads the attribute from an ABCI attribute: the key must be this
/// attribute's, and the value is read as `parse` reads it.
impl TryFrom<EventAttribute> for ConsensusHeightsAttribute {
    type Error = DecodingError;

    fn try_from(attribute: EventAttribute) -> (r: Result<ConsensusHeightsAttribute, DecodingError>)
        ensures
            attribute@.0 != ConsensusHeightsAttribute::ATTRIBUTE_KEY@ ==> (r matches Err(
                DecodingError::MismatchedResourceName { expected, actual },
            ) && expected@ == ConsensusHeightsAttribute::ATTRIBUTE_KEY@ && actual@ == attribute@.0),
            r is Ok <==> attribute@.0 == ConsensusHeightsAttribute::ATTRIBUTE_KEY@
                && <Vec<Height> as AttributeValue>::accepts(attribute@.1),
            r matches Ok(a) ==> a@.event_value() == <Vec<Height> as AttributeValue>::normal_form(attribute@.1),
            forall|x: ConsensusHeightsAttribute|
                #[trigger] x.attribute_view() == attribute@ && reads_back(x@) ==> (r matches Ok(y)
                    && y.attribute_view() == x.attribute_view()),
            forall|x: ConsensusHeightsAttribute|
                #[trigger] x.attribute_view() == attribute@ && reads_back(x@) && x@.canonical() ==> (
                r matches Ok(y) && y@.same_value(x@)),
    {
        let expected = String::from_str(ConsensusHeightsAttribute::ATTRIBUTE_KEY);
        if !(attribute.key == expected) {
            return Err(DecodingError::MismatchedResourceName { expected, actual: attribute.key });
        }
        let r = ConsensusHeightsAttribute::parse(attribute.value.as_str());
        proof {
            assert forall|x: ConsensusHeightsAttribute|
                #[trigger] x.attribute_view() == attribute@ && reads_back(x@) && x@.canonical()
                implies r matches Ok(y) && y@.same_value(x@) by {
                <Vec<Height> as AttributeValue>::lemma_spelling_injective(r->Ok_0@, x@);
            }
        }
        r
    }
}

impl vstd::std_specs::convert::TryFromSpecImpl<EventAttribute> for ConsensusHeightsAttribute {
    open spec fn obeys_try_from_spec() -> bool {
        false
    }

    open spec fn try_from_spec(v: EventAttribute) -> Result<ConsensusHeightsAttribute, DecodingError> {
        arbitrary()
    }
}

impl View for ConsensusHeightsAttribute {
    type V = Vec<Height>;

    open spec fn view(&self) -> Vec<Height> {
        self.0
    }
}

impl Newtype for ConsensusHeightsAttribute {
    type Inner = Vec<Height>;
}

impl From<Vec<Height>> for ConsensusHeightsAttribute {
    fn from(inner: Vec<Height>) -> (r: ConsensusHeightsAttribute) {
        ConsensusHeightsAttribute(inner)
    }
}

impl vstd::std_specs::convert::FromSpecImpl<Vec<Height>> for ConsensusHeightsAttribute {
    open spec fn obeys_from_spec() -> bool {
        true
    }

    open spec fn from_spec(v: Vec<Height>) -> ConsensusHeightsAttribute {
        ConsensusHeightsAttribute(v)
    }
}

impl From<ConsensusHeightsAttribute> for Vec<Height> {
    fn from(attribute: ConsensusHeightsAttribute) -> (r: Vec<Height>) {
        attribute.0
    }
}

impl vstd::std_specs::convert::FromSpecImpl<ConsensusHeightsAttribute> for Vec<Height> {
    open spec fn obeys_from_spec() -> bool {
        true
    }

    open spec fn from_spec(v: ConsensusHeightsAttribute) -> Vec<Height> {
        v@
    }
}

/// The attribute as an ABCI attribute: its key and its value spelled out,
/// not indexed. A spec function cannot build the strings of an
/// `EventAttribute`, so `from` states its result in its own `ensures`.
impl From<ConsensusHeightsAttribute> for EventAttribute {
    fn from(attribute: ConsensusHeightsAttribute) -> (r: EventAttribute)
        ensures
            r@ == attribute.attribute_view(),
    {
        let value = attribute.0.to_event_value();
        EventAttribute::new(ConsensusHeightsAttribute::ATTRIBUTE_KEY, value, false)
    }
}

impl vstd::std_specs::convert::FromSpecImpl<ConsensusHeightsAttribute> for EventAttribute {
    open spec fn obeys_from_spec() -> bool {
        false
    }

    open spec fn from_spec(v: ConsensusHeightsAttribute) -> EventAttribute {
        arbitrary()
    }
}

/// The `header` attribute: the header in hexadecimal.
#[derive(Clone, Debug, PartialEq, Eq)]
pub struct HeaderAttribute(pub Vec<u8>);

impl HeaderAttribute {
    /// The key of this attribute in an ABCI event.
    pub const ATTRIBUTE_KEY: &'static str = "header";

    /// How errors name this attribute.
    pub const FRIENDLY_NAME: &'static str = "header";

    /// The attribute holding `value`.
    pub fn new(value: Vec<u8>) -> (r: HeaderAttribute)
        ensures
            r@ == value,
    {
        HeaderAttribute(value)
    }

    /// The value held.
    pub fn value(&self) -> (r: &Vec<u8>)
        ensures
            *r == self@,
    {
        &self.0
    }

    /// The ABCI attribute that this attribute becomes: its key, its value
    /// spelled out, not indexed.
    pub open spec fn attribute_view(self) -> (Seq<char>, Seq<char>, bool) {
        (Self::ATTRIBUTE_KEY@, self@.event_value(), false)
    }

    /// Reads the attribute from the text of its value.
    pub fn parse(text: &str) -> (r: Result<HeaderAttribute, DecodingError>)
        ensures
            r is Ok <==> <Vec<u8> as AttributeValue>::accepts(text@),
            r matches Ok(a) ==> a@.event_value() == <Vec<u8> as AttributeValue>::normal_form(text@),
            r matches Ok(a) ==> a@.canonical(),
    {
        match <Vec<u8> as AttributeValue>::parse_event_value(text) {
            Ok(v) => Ok(HeaderAttribute(v)),
            Err(e) => Err(e),
        }
    }
}

impl core::str::FromStr for HeaderAttribute {
    type Err = DecodingError;

    fn from_str(text: &str) -> Result<HeaderAttribute, DecodingError> {
        HeaderAttribute::parse(text)
    }
}

/// Reads the attribute from an ABCI attribute: the key must be this
/// attribute's, and the value is read as `parse` reads it.
impl TryFrom<EventAttribute> for HeaderAttribute {
    type Error = DecodingError;

    fn try_from(attribute: EventAttribute) -> (r: Result<HeaderAttribute, DecodingError>)
        ensures
            attribute@.0 != HeaderAttribute::ATTRIBUTE_KEY@ ==> (r matches Err(
                DecodingError::MismatchedResourceName { expected, actual },
            ) && expected@ == HeaderAttribute::ATTRIBUTE_KEY@ && actual@ == attribute@.0),
            r is Ok <==> attribute@.0 == HeaderAttribute::ATTRIBUTE_KEY@
                && <Vec<u8> as AttributeValue>::accepts(attribute@.1),
            r matches Ok(a) ==> a@.event_value() == <Vec<u8> as AttributeValue>::normal_form(attribute@.1),
            forall|x: HeaderAttribute|
                #[trigger] x.attribute_view() == attribute@ && reads_back(x@) ==> (r matches Ok(y)
                    && y.attribute_view() == x.attribute_view()),
            forall|x: HeaderAttribute|
                #[trigger] x.attribute_view() == attribute@ && reads_back(x@) && x@.canonical() ==> (
                r matches Ok(y) && y@.same_value(x@)),
    {
        let expected = String::from_str(HeaderAttribute::ATTRIBUTE_KEY);
        if !(attribute.key == expected) {
            return Err(DecodingError::MismatchedResourceName { expected, actual: attribute.key });
        }
        let r = HeaderAttribute::parse(attribute.value.as_str());
        proof {
            assert forall|x: HeaderAttribute|
                #[trigger] x.attribute_view() == attribute@ && reads_back(x@) && x@.canonical()
                implies r matches Ok(y) && y@.same_value(x@) by {
                <Vec<u8> as AttributeValue>::lemma_spelling_injective(r->Ok_0@, x@);
            }
        }
        r
    }
}

impl vstd::std_specs::convert::TryFromSpecImpl<EventAttribute> for HeaderAttribute {
    open spec fn obeys_try_from_spec() -> bool {
        false
    }

    open spec fn try_from_spec(v: EventAttribute) -> Result<HeaderAttribute, DecodingError> {
        arbitrary()
    }
}

impl View for HeaderAttribute {
    type V = Vec<u8>;

    open spec fn view(&self) -> Vec<u8> {
        self.0
    }
}

impl Newtype for HeaderAttribute {
    type Inner = Vec<u8>;
}

impl From<Vec<u8>> for HeaderAttribute {
    fn from(inner: Vec<u8>) -> (r: HeaderAttribute) {
        HeaderAttribute(inner)
    }
}

impl vstd::std_specs::convert::FromSpecImpl<Vec<u8>> for HeaderAttribute {
    open spec fn obeys_from_spec() -> bool {
        true
    }

    open spec fn from_spec(v: Vec<u8>) -> HeaderAttribute {
        HeaderAttribute(v)
    }
}

impl From<HeaderAttribute> for Vec<u8> {
    fn from(attribute: HeaderAttribute) -> (r: Vec<u8>) {
        attribute.0
    }
}

impl vstd::std_specs::convert::FromSpecImpl<HeaderAttribute> for Vec<u8> {
    open spec fn obeys_from_spec() -> bool {
        true
    }

    open spec fn from_spec(v: HeaderAttribute) -> Vec<u8> {
        v@
    }
}

/// The attribute as an ABCI attribute: its key and its value spelled out,
/// not indexed. A spec function cannot build the strings of an
/// `EventAttribute`, so `from` states its result in its own `ensures`.
impl From<HeaderAttribute> for EventAttribute {
    fn from(attribute: HeaderAttribute) -> (r: EventAttribute)
        ensures
            r@ == attribute.attribute_view(),
    {
        let value = attribute.0.to_event_value();
        EventAttribute::new(HeaderAttribute::ATTRIBUTE_KEY, value, false)
    }
}

impl vstd::std_specs::convert::FromSpecImpl<HeaderAttribute> for EventAttribute {
    open spec fn obeys_from_spec() -> bool {
        false
    }

    open spec fn from_spec(v: HeaderAttribute) -> EventAttribute {
        arbitrary()
    }
}

/// The `create_client` event: a light client was created.
#[derive(Clone, Debug, PartialEq, Eq)]
pub struct CreateClient {
    pub client_id: ClientIdAttribute,
    pub client_type: ClientTypeAttribute,
    pub consensus_height: ConsensusHeightAttribute,
}

impl CreateClient {
    /// The kind of this event in ABCI.
    pub const EVENT_KIND: &'static str = "create_client";

    /// The event with the given attribute values.
    pub fn new(client_id: ClientId, client_type: ClientType, consensus_height: Height) -> (r: CreateClient)
        ensures
            r.client_id@ == client_id,
            r.client_type@ == client_type,
            r.consensus_height@ == consensus_height,
    {
        CreateClient { client_id: ClientIdAttribute::new(client_id), client_type: ClientTypeAttribute::new(client_type), consensus_height: ConsensusHeightAttribute::new(consensus_height) }
    }

    /// The value of the `client_id` attribute.
    pub fn client_id(&self) -> (r: &ClientId)
        ensures
            *r == self.client_id@,
    {
        self.client_id.value()
    }

    /// The value of the `client_type` attribute.
    pub fn client_type(&self) -> (r: &ClientType)
        ensures
            *r == self.client_type@,
    {
        self.client_type.value()
    }

    /// The value of the `consensus_height` attribute.
    pub fn consensus_height(&self) -> (r: &Height)
        ensures
            *r == self.consensus_height@,
    {
        self.consensus_height.value()
    }

    /// The ABCI event that this event becomes: its kind, and its
    /// attributes in the order of the fields.
    pub open spec fn abci_view(self) -> (Seq<char>, Seq<(Seq<char>, Seq<char>, bool)>) {
        (Self::EVENT_KIND@, seq![self.client_id.attribute_view(), self.client_type.attribute_view(), self.consensus_height.attribute_view()])
    }
}

/// The event as an ABCI event: its kind and its attributes in the order of
/// the fields. A spec function cannot build the strings of an `Event`, so
/// `from` states its result in its own `ensures`.
impl From<CreateClient> for Event {
    fn from(event: CreateClient) -> (r: Event)
        ensures
            r@ == event.abci_view(),
    {
        let ghost view = event.abci_view();
        let attributes = vec![
            EventAttribute::from(event.client_id),
            EventAttribute::from(event.client_type),
            EventAttribute::from(event.consensus_height),
        ];
        let r = Event { kind: String::from_str(CreateClient::EVENT_KIND), attributes };
        assert(attributes_view(r.attributes@) =~= view.1);
        r
    }
}

impl vstd::std_specs::convert::FromSpecImpl<CreateClient> for Event {
    open spec fn obeys_from_spec() -> bool {
        false
    }

    open spec fn from_spec(v: CreateClient) -> Event {
        arbitrary()
    }
}

impl CreateClient {
    /// Whether the spelling of every attribute value reads back as itself.
    pub open spec fn fields_read_back(self) -> bool {
        &&& reads_back(self.client_id@)
        &&& reads_back(self.client_type@)
        &&& reads_back(self.consensus_height@)
    }

    /// Whether every attribute value is the one its spelling is read as.
    pub open spec fn fields_canonical(self) -> bool {
        &&& self.client_id@.canonical()
        &&& self.client_type@.canonical()
        &&& self.consensus_height@.canonical()
    }

    /// Whether the two events hold the same values, attribute by
    /// attribute.
    pub open spec fn same_values(self, other: CreateClient) -> bool {
        &&& self.client_id@.same_value(other.client_id@)
        &&& self.client_type@.same_value(other.client_type@)
        &&& self.consensus_height@.same_value(other.consensus_height@)
    }
}

/// Reads the event back from its ABCI form. The kind must be this event's;
/// each attribute of the event must occur once and hold a value of its
/// type, and attributes with other keys are passed over. Where several
/// attributes are wrong, the error is that of the first wrong attribute
/// in the list, and where none is wrong but some are missing, that of the
/// first missing one in the order of the fields.
impl TryFrom<Event> for CreateClient {
    type Error = DecodingError;

    fn try_from(event: Event) -> (r: Result<CreateClient, DecodingError>)
        ensures
            event@.0 != CreateClient::EVENT_KIND@ ==> (r matches Err(
                DecodingError::MismatchedResourceName { expected, actual },
            ) && expected@ == CreateClient::EVENT_KIND@ && actual@ == event@.0),
            r is Ok <==> event@.0 == CreateClient::EVENT_KIND@
                && field_readable::<ClientId>(event@.1, ClientIdAttribute::ATTRIBUTE_KEY@)
                && field_readable::<ClientType>(event@.1, ClientTypeAttribute::ATTRIBUTE_KEY@)
                && field_readable::<Height>(event@.1, ConsensusHeightAttribute::ATTRIBUTE_KEY@),
            r matches Ok(e) ==> {
                &&& e.client_id@.event_value() == <ClientId as AttributeValue>::normal_form(
                    first_value(event@.1, ClientIdAttribute::ATTRIBUTE_KEY@),
                )
                &&& e.client_type@.event_value() == <ClientType as AttributeValue>::normal_form(
                    first_value(event@.1, ClientTypeAttribute::ATTRIBUTE_KEY@),
                )
                &&& e.consensus_height@.event_value() == <Height as AttributeValue>::normal_form(
                    first_value(event@.1, ConsensusHeightAttribute::ATTRIBUTE_KEY@),
                )
            },
            event@.0 == CreateClient::EVENT_KIND@ ==> (r matches Err(e) ==> (e is MissingRawData <==> !(
                field_wrong::<ClientId>(event@.1, ClientIdAttribute::ATTRIBUTE_KEY@)
                || field_wrong::<ClientType>(event@.1, ClientTypeAttribute::ATTRIBUTE_KEY@)
                || field_wrong::<Height>(event@.1, ConsensusHeightAttribute::ATTRIBUTE_KEY@)))),
            forall|x: CreateClient|
                #[trigger] x.abci_view() == event@ && x.fields_read_back() ==> (r matches Ok(y)
                    && y.abci_view() == x.abci_view()),
            forall|x: CreateClient|
                #[trigger] x.abci_view() == event@ && x.fields_read_back() && x.fields_canonical()
                    ==> (r matches Ok(y) && y.same_values(x)),
    {
        proof {
            assert forall|x: CreateClient| #[trigger] x.abci_view() == event@ && x.fields_read_back()
                implies {
                &&& field_readable::<ClientId>(event@.1, ClientIdAttribute::ATTRIBUTE_KEY@)
                &&& first_value(event@.1, ClientIdAttribute::ATTRIBUTE_KEY@) == x.client_id@.event_value()
                &&& field_readable::<ClientType>(event@.1, ClientTypeAttribute::ATTRIBUTE_KEY@)
                &&& first_value(event@.1, ClientTypeAttribute::ATTRIBUTE_KEY@) == x.client_type@.event_value()
                &&& field_readable::<Height>(event@.1, ConsensusHeightAttribute::ATTRIBUTE_KEY@)
                &&& first_value(event@.1, ConsensusHeightAttribute::ATTRIBUTE_KEY@) == x.consensus_height@.event_value()
            } by {
                let s = x.abci_view().1;
                reveal_strlit("client_id");
                reveal_strlit("client_type");
                reveal_strlit("consensus_height");
                assert(s.take(3) =~= s);
                assert(s.take(3).drop_last() =~= s.take(2));
                assert(s.take(2).drop_last() =~= s.take(1));
                assert(s.take(1).drop_last() =~= s.take(0));
                reveal_with_fuel(keys_distinct, 4);
                reveal_with_fuel(key_absent, 4);
                assert(s[0].0 == ClientIdAttribute::ATTRIBUTE_KEY@ && s[0].0.len() == 9);
                assert(s[1].0 == ClientTypeAttribute::ATTRIBUTE_KEY@ && s[1].0.len() == 11);
                assert(s[2].0 == ConsensusHeightAttribute::ATTRIBUTE_KEY@ && s[2].0.len() == 16);
                assert(s.take(1).last() == s[0]);
                assert(key_absent(s.take(0), s[0].0));
                assert(keys_distinct(s.take(1)));
                assert(s.take(2).last() == s[1]);
                assert(key_absent(s.take(1), s[1].0));
                assert(keys_distinct(s.take(2)));
                assert(s.take(3).last() == s[2]);
                assert(key_absent(s.take(2), s[2].0));
                assert(keys_distinct(s.take(3)));
                lemma_distinct_keys(s, 0);
                lemma_distinct_keys(s, 1);
                lemma_distinct_keys(s, 2);
                assert(s[0].0 == ClientIdAttribute::ATTRIBUTE_KEY@ && s[0].1 == x.client_id@.event_value());
                assert(s[1].0 == ClientTypeAttribute::ATTRIBUTE_KEY@ && s[1].1 == x.client_type@.event_value());
                assert(s[2].0 == ConsensusHeightAttribute::ATTRIBUTE_KEY@ && s[2].1 == x.consensus_height@.event_value());
            }
        }
        let expected = String::from_str(CreateClient::EVENT_KIND);
        if !(event.kind == expected) {
            return Err(DecodingError::MismatchedResourceName { expected, actual: event.kind });
        }
        let mut failure: Option<(usize, DecodingError)> = None;
        let client_id = match scan_field::<ClientId>(
            &event.attributes,
            ClientIdAttribute::ATTRIBUTE_KEY,
            ClientIdAttribute::FRIENDLY_NAME,
        ) {
            FieldScan::Found(v) => Some(v),
            FieldScan::Missing => None,
            FieldScan::Failed { at, error } => {
                failure = earlier_failure(failure, at, error);
                None
            },
        };
        let client_type = match scan_field::<ClientType>(
            &event.attributes,
            ClientTypeAttribute::ATTRIBUTE_KEY,
            ClientTypeAttribute::FRIENDLY_NAME,
        ) {
            FieldScan::Found(v) => Some(v),
            FieldScan::Missing => None,
            FieldScan::Failed { at, error } => {
                failure = earlier_failure(failure, at, error);
                None
            },
        };
        let consensus_height = match scan_field::<Height>(
            &event.attributes,
            ConsensusHeightAttribute::ATTRIBUTE_KEY,
            ConsensusHeightAttribute::FRIENDLY_NAME,
        ) {
            FieldScan::Found(v) => Some(v),
            FieldScan::Missing => None,
            FieldScan::Failed { at, error } => {
                failure = earlier_failure(failure, at, error);
                None
            },
        };
        if let Some((_, error)) = failure {
            return Err(error);
        }
        let client_id = match client_id {
            Some(v) => ClientIdAttribute(v),
            None => {
                return Err(missing_attribute(ClientIdAttribute::FRIENDLY_NAME));
            },
        };
        let client_type = match client_type {
            Some(v) => ClientTypeAttribute(v),
            None => {
                return Err(missing_attribute(ClientTypeAttribute::FRIENDLY_NAME));
            },
        };
        let consensus_height = match consensus_height {
            Some(v) => ConsensusHeightAttribute(v),
            None => {
                return Err(missing_attribute(ConsensusHeightAttribute::FRIENDLY_NAME));
            },
        };
        let r = CreateClient { client_id, client_type, consensus_height };
        proof {
            assert forall|x: CreateClient| #[trigger] x.abci_view() == event@ && x.fields_read_back()
                implies r.abci_view() == x.abci_view() by {
                assert(r.abci_view().1 =~= x.abci_view().1);
            }
            assert forall|x: CreateClient|
                #[trigger] x.abci_view() == event@ && x.fields_read_back() && x.fields_canonical()
                implies r.same_values(x) by {
                <ClientId as AttributeValue>::lemma_spelling_injective(r.client_id@, x.client_id@);
                <ClientType as AttributeValue>::lemma_spelling_injective(r.client_type@, x.client_type@);
                <Height as AttributeValue>::lemma_spelling_injective(r.consensus_height@, x.consensus_height@);
            }
        }
        Ok(r)
    }
}

impl vstd::std_specs::convert::TryFromSpecImpl<Event> for CreateClient {
    open spec fn obeys_try_from_spec() -> bool {
        false
    }

    open spec fn try_from_spec(v: Event) -> Result<CreateClient, DecodingError> {
        arbitrary()
    }
}

/// Reads the event from its kind and its attributes given as key-value
/// pairs, as `try_from` reads the ABCI event with those attributes.
impl TryFrom<(String, Vec<(String, String)>)> for CreateClient {
    type Error = DecodingError;

    fn try_from(parts: (String, Vec<(String, String)>)) -> (r: Result<CreateClient, DecodingError>)
        ensures
            parts.0@ != CreateClient::EVENT_KIND@ ==> (r matches Err(
                DecodingError::MismatchedResourceName { expected, actual },
            ) && expected@ == CreateClient::EVENT_KIND@ && actual@ == parts.0@),
            r is Ok <==> parts.0@ == CreateClient::EVENT_KIND@
                && field_readable::<ClientId>(pairs_view(parts.1@), ClientIdAttribute::ATTRIBUTE_KEY@)
                && field_readable::<ClientType>(pairs_view(parts.1@), ClientTypeAttribute::ATTRIBUTE_KEY@)
                && field_readable::<Height>(pairs_view(parts.1@), ConsensusHeightAttribute::ATTRIBUTE_KEY@),
            r matches Ok(e) ==> {
                &&& e.client_id@.event_value() == <ClientId as AttributeValue>::normal_form(
                    first_value(pairs_view(parts.1@), ClientIdAttribute::ATTRIBUTE_KEY@),
                )
                &&& e.client_type@.event_value() == <ClientType as AttributeValue>::normal_form(
                    first_value(pairs_view(parts.1@), ClientTypeAttribute::ATTRIBUTE_KEY@),
                )
                &&& e.consensus_height@.event_value() == <Height as AttributeValue>::normal_form(
                    first_value(pairs_view(parts.1@), ConsensusHeightAttribute::ATTRIBUTE_KEY@),
                )
            },
            parts.0@ == CreateClient::EVENT_KIND@ ==> (r matches Err(e) ==> (e is MissingRawData <==> !(
                field_wrong::<ClientId>(pairs_view(parts.1@), ClientIdAttribute::ATTRIBUTE_KEY@)
                || field_wrong::<ClientType>(pairs_view(parts.1@), ClientTypeAttribute::ATTRIBUTE_KEY@)
                || field_wrong::<Height>(pairs_view(parts.1@), ConsensusHeightAttribute::ATTRIBUTE_KEY@)))),
            forall|x: CreateClient|
                #[trigger] x.abci_view() == (parts.0@, pairs_view(parts.1@)) && x.fields_read_back() ==> (r matches Ok(y)
                    && y.abci_view() == x.abci_view()),
            forall|x: CreateClient|
                #[trigger] x.abci_view() == (parts.0@, pairs_view(parts.1@)) && x.fields_read_back() && x.fields_canonical()
                    ==> (r matches Ok(y) && y.same_values(x)),
    {
        let (kind, pairs) = parts;
        <CreateClient as TryFrom<Event>>::try_from(Event::from_pairs(kind, pairs))
    }
}

impl vstd::std_specs::convert::TryFromSpecImpl<(String, Vec<(String, String)>)> for CreateClient {
    open spec fn obeys_try_from_spec() -> bool {
        false
    }

    open spec fn try_from_spec(v: (String, Vec<(String, String)>)) -> Result<CreateClient, DecodingError> {
        arbitrary()
    }
}

/// The `update_client` event: a light client was updated with a header.
#[derive(Clone, Debug, PartialEq, Eq)]
pub struct UpdateClient {
    pub client_id: ClientIdAttribute,
    pub client_type: ClientTypeAttribute,
    pub consensus_height: ConsensusHeightAttribute,
    pub consensus_heights: ConsensusHeightsAttribute,
    pub header: HeaderAttribute,
}

impl UpdateClient {
    /// The kind of this event in ABCI.
    pub const EVENT_KIND: &'static str = "update_client";

    /// The event with the given attribute values.
    pub fn new(client_id: ClientId, client_type: ClientType, consensus_height: Height, consensus_heights: Vec<Height>, header: Vec<u8>) -> (r: UpdateClient)
        ensures
            r.client_id@ == client_id,
            r.client_type@ == client_type,
            r.consensus_height@ == consensus_height,
            r.consensus_heights@ == consensus_heights,
            r.header@ == header,
    {
        UpdateClient { client_id: ClientIdAttribute::new(client_id), client_type: ClientTypeAttribute::new(client_type), consensus_height: ConsensusHeightAttribute::new(consensus_height), consensus_heights: ConsensusHeightsAttribute::new(consensus_heights), header: HeaderAttribute::new(header) }
    }

    /// The value of the `client_id` attribute.
    pub fn client_id(&self) -> (r: &ClientId)
        ensures
            *r == self.client_id@,
    {
        self.client_id.value()
    }

    /// The value of the `client_type` attribute.
    pub fn client_type(&self) -> (r: &ClientType)
        ensures
            *r == self.client_type@,
    {
        self.client_type.value()
    }

    /// The value of the `consensus_height` attribute.
    pub fn consensus_height(&self) -> (r: &Height)
        ensures
            *r == self.consensus_height@,
    {
        self.consensus_height.value()
    }

    /// The value of the `consensus_heights` attribute.
    pub fn consensus_heights(&self) -> (r: &Vec<Height>)
        ensures
            *r == self.consensus_heights@,
    {
        self.consensus_heights.value()
    }

    /// The value of the `header` attribute.
    pub fn header(&self) -> (r: &Vec<u8>)
        ensures
            *r == self.header@,
    {
        self.header.value()
    }

    /// The ABCI event that this event becomes: its kind, and its
    /// attributes in the order of the fields.
    pub open spec fn abci_view(self) -> (Seq<char>, Seq<(Seq<char>, Seq<char>, bool)>) {
        (Self::EVENT_KIND@, seq![self.client_id.attribute_view(), self.client_type.attribute_view(), self.consensus_height.attribute_view(), self.consensus_heights.attribute_view(), self.header.attribute_view()])
    }
}

/// The event as an ABCI event: its kind and its attributes in the order of
/// the fields. A spec function cannot build the strings of an `Event`, so
/// `from` states its result in its own `ensures`.
impl From<UpdateClient> for Event {
    fn from(event: UpdateClient) -> (r: Event)
        ensures
            r@ == event.abci_view(),
    {
        let ghost view = event.abci_view();
        let attributes = vec![
            EventAttribute::from(event.client_id),
            EventAttribute::from(event.client_type),
            EventAttribute::from(event.consensus_height),
            EventAttribute::from(event.consensus_heights),
            EventAttribute::from(event.header),
        ];
        let r = Event { kind: String::from_str(UpdateClient::EVENT_KIND), attributes };
        assert(attributes_view(r.attributes@) =~= view.1);
        r
    }
}

impl vstd::std_specs::convert::FromSpecImpl<UpdateClient> for Event {
    open spec fn obeys_from_spec() -> bool {
        false
    }

    open spec fn from_spec(v: UpdateClient) -> Event {
        arbitrary()
    }
}

impl UpdateClient {
    /// Whether the spelling of every attribute value reads back as itself.
    pub open spec fn fields_read_back(self) -> bool {
        &&& reads_back(self.client_id@)
        &&& reads_back(self.client_type@)
        &&& reads_back(self.consensus_height@)
        &&& reads_back(self.consensus_heights@)
        &&& reads_back(self.header@)
    }

    /// Whether every attribute value is the one its spelling is read as.
    pub open spec fn fields_canonical(self) -> bool {
        &&& self.client_id@.canonical()
        &&& self.client_type@.canonical()
        &&& self.consensus_height@.canonical()
        &&& self.consensus_heights@.canonical()
        &&& self.header@.canonical()
    }

    /// Whether the two events hold the same values, attribute by
    /// attribute.
    pub open spec fn same_values(self, other: UpdateClient) -> bool {
        &&& self.client_id@.same_value(other.client_id@)
        &&& self.client_type@.same_value(other.client_type@)
        &&& self.consensus_height@.same_value(other.consensus_height@)
        &&& self.consensus_heights@.same_value(other.consensus_heights@)
        &&& self.header@.same_value(other.header@)
    }
}

/// Reads the event back from its ABCI form. The kind must be this event's;
/// each attribute of the event must occur once and hold a value of its
/// type, and attributes with other keys are passed over. Where several
/// attributes are wrong, the error is that of the first wrong attribute
/// in the list, and where none is wrong but some are missing, that of the
/// first missing one in the order of the fields.
impl TryFrom<Event> for UpdateClient {
    type Error = DecodingError;

    fn try_from(event: Event) -> (r: Result<UpdateClient, DecodingError>)
        ensures
            event@.0 != UpdateClient::EVENT_KIND@ ==> (r matches Err(
                DecodingError::MismatchedResourceName { expected, actual },
            ) && expected@ == UpdateClient::EVENT_KIND@ && actual@ == event@.0),
            r is Ok <==> event@.0 == UpdateClient::EVENT_KIND@
                && field_readable::<ClientId>(event@.1, ClientIdAttribute::ATTRIBUTE_KEY@)
                && field_readable::<ClientType>(event@.1, ClientTypeAttribute::ATTRIBUTE_KEY@)
                && field_readable::<Height>(event@.1, ConsensusHeightAttribute::ATTRIBUTE_KEY@)
                && field_readable::<Vec<Height>>(event@.1, ConsensusHeightsAttribute::ATTRIBUTE_KEY@)
                && field_readable::<Vec<u8>>(event@.1, HeaderAttribute::ATTRIBUTE_KEY@),
            r matches Ok(e) ==> {
                &&& e.client_id@.event_value() == <ClientId as AttributeValue>::normal_form(
                    first_value(event@.1, ClientIdAttribute::ATTRIBUTE_KEY@),
                )
                &&& e.client_type@.event_value() == <ClientType as AttributeValue>::normal_form(
                    first_value(event@.1, ClientTypeAttribute::ATTRIBUTE_KEY@),
                )
                &&& e.consensus_height@.event_value() == <Height as AttributeValue>::normal_form(
                    first_value(event@.1, ConsensusHeightAttribute::ATTRIBUTE_KEY@),
                )
                &&& e.consensus_heights@.event_value() == <Vec<Height> as AttributeValue>::normal_form(
                    first_value(event@.1, ConsensusHeightsAttribute::ATTRIBUTE_KEY@),
                )
                &&& e.header@.event_value() == <Vec<u8> as AttributeValue>::normal_form(
                    first_value(event@.1, HeaderAttribute::ATTRIBUTE_KEY@),
                )
            },
            event@.0 == UpdateClient::EVENT_KIND@ ==> (r matches Err(e) ==> (e is MissingRawData <==> !(
                field_wrong::<ClientId>(event@.1, ClientIdAttribute::ATTRIBUTE_KEY@)
                || field_wrong::<ClientType>(event@.1, ClientTypeAttribute::ATTRIBUTE_KEY@)
                || field_wrong::<Height>(event@.1, ConsensusHeightAttribute::ATTRIBUTE_KEY@)
                || field_wrong::<Vec<Height>>(event@.1, ConsensusHeightsAttribute::ATTRIBUTE_KEY@)
                || field_wrong::<Vec<u8>>(event@.1, HeaderAttribute::ATTRIBUTE_KEY@)))),
            forall|x: UpdateClient|
                #[trigger] x.abci_view() == event@ && x.fields_read_back() ==> (r matches Ok(y)
                    && y.abci_view() == x.abci_view()),
            forall|x: UpdateClient|
                #[trigger] x.abci_view() == event@ && x.fields_read_back() && x.fields_canonical()
                    ==> (r matches Ok(y) && y.same_values(x)),
    {
        proof {
            assert forall|x: UpdateClient| #[trigger] x.abci_view() == event@ && x.fields_read_back()
                implies {
                &&& field_readable::<ClientId>(event@.1, ClientIdAttribute::ATTRIBUTE_KEY@)
                &&& first_value(event@.1, ClientIdAttribute::ATTRIBUTE_KEY@) == x.client_id@.event_value()
                &&& field_readable::<ClientType>(event@.1, ClientTypeAttribute::ATTRIBUTE_KEY@)
                &&& first_value(event@.1, ClientTypeAttribute::ATTRIBUTE_KEY@) == x.client_type@.event_value()
                &&& field_readable::<Height>(event@.1, ConsensusHeightAttribute::ATTRIBUTE_KEY@)
                &&& first_value(event@.1, ConsensusHeightAttribute::ATTRIBUTE_KEY@) == x.consensus_height@.event_value()
                &&& field_readable::<Vec<Height>>(event@.1, ConsensusHeightsAttribute::ATTRIBUTE_KEY@)
                &&& first_value(event@.1, ConsensusHeightsAttribute::ATTRIBUTE_KEY@) == x.consensus_heights@.event_value()
                &&& field_readable::<Vec<u8>>(event@.1, HeaderAttribute::ATTRIBUTE_KEY@)
                &&& first_value(event@.1, HeaderAttribute::ATTRIBUTE_KEY@) == x.header@.event_value()
            } by {
                let s = x.abci_view().1;
                reveal_strlit("client_id");
                reveal_strlit("client_type");
                reveal_strlit("consensus_height");
                reveal_strlit("consensus_heights");
                reveal_strlit("header");
                assert(s.take(5) =~= s);
                assert(s.take(5).drop_last() =~= s.take(4));
                assert(s.take(4).drop_last() =~= s.take(3));
                assert(s.take(3).drop_last() =~= s.take(2));
                assert(s.take(2).drop_last() =~= s.take(1));
                assert(s.take(1).drop_last() =~= s.take(0));
                reveal_with_fuel(keys_distinct, 6);
                reveal_with_fuel(key_absent, 6);
                assert(s[0].0 == ClientIdAttribute::ATTRIBUTE_KEY@ && s[0].0.len() == 9);
                assert(s[1].0 == ClientTypeAttribute::ATTRIBUTE_KEY@ && s[1].0.len() == 11);
                assert(s[2].0 == ConsensusHeightAttribute::ATTRIBUTE_KEY@ && s[2].0.len() == 16);
                assert(s[3].0 == ConsensusHeightsAttribute::ATTRIBUTE_KEY@ && s[3].0.len() == 17);
                assert(s[4].0 == HeaderAttribute::ATTRIBUTE_KEY@ && s[4].0.len() == 6);
                assert(s.take(1).last() == s[0]);
                assert(key_absent(s.take(0), s[0].0));
                assert(keys_distinct(s.take(1)));
                assert(s.take(2).last() == s[1]);
                assert(key_absent(s.take(1), s[1].0));
                assert(keys_distinct(s.take(2)));
                assert(s.take(3).last() == s[2]);
                assert(key_absent(s.take(2), s[2].0));
                assert(keys_distinct(s.take(3)));
                assert(s.take(4).last() == s[3]);
                assert(key_absent(s.take(3), s[3].0));
                assert(keys_distinct(s.take(4)));
                assert(s.take(5).last() == s[4]);
                assert(key_absent(s.take(4), s[4].0));
                assert(keys_distinct(s.take(5)));
                lemma_distinct_keys(s, 0);
                lemma_distinct_keys(s, 1);
                lemma_distinct_keys(s, 2);
                lemma_distinct_keys(s, 3);
                lemma_distinct_keys(s, 4);
                assert(s[0].0 == ClientIdAttribute::ATTRIBUTE_KEY@ && s[0].1 == x.client_id@.event_value());
                assert(s[1].0 == ClientTypeAttribute::ATTRIBUTE_KEY@ && s[1].1 == x.client_type@.event_value());
                assert(s[2].0 == ConsensusHeightAttribute::ATTRIBUTE_KEY@ && s[2].1 == x.consensus_height@.event_value());
                assert(s[3].0 == ConsensusHeightsAttribute::ATTRIBUTE_KEY@ && s[3].1 == x.consensus_heights@.event_value());
                assert(s[4].0 == HeaderAttribute::ATTRIBUTE_KEY@ && s[4].1 == x.header@.event_value());
            }
        }
        let expected = String::from_str(UpdateClient::EVENT_KIND);
        if !(event.kind == expected) {
            return Err(DecodingError::MismatchedResourceName { expected, actual: event.kind });
        }
        let mut failure: Option<(usize, DecodingError)> = None;
        let client_id = match scan_field::<ClientId>(
            &event.attributes,
            ClientIdAttribute::ATTRIBUTE_KEY,
            ClientIdAttribute::FRIENDLY_NAME,
        ) {
            FieldScan::Found(v) => Some(v),
            FieldScan::Missing => None,
            FieldScan::Failed { at, error } => {
                failure = earlier_failure(failure, at, error);
                None
            },
        };
        let client_type = match scan_field::<ClientType>(
            &event.attributes,
            ClientTypeAttribute::ATTRIBUTE_KEY,
            ClientTypeAttribute::FRIENDLY_NAME,
        ) {
            FieldScan::Found(v) => Some(v),
            FieldScan::Missing => None,
            FieldScan::Failed { at, error } => {
                failure = earlier_failure(failure, at, error);
                None
            },
        };
        let consensus_height = match scan_field::<Height>(
            &event.attributes,
            ConsensusHeightAttribute::ATTRIBUTE_KEY,
            ConsensusHeightAttribute::FRIENDLY_NAME,
        ) {
            FieldScan::Found(v) => Some(v),
            FieldScan::Missing => None,
            FieldScan::Failed { at, error } => {
                failure = earlier_failure(failure, at, error);
                None
            },
        };
        let consensus_heights = match scan_field::<Vec<Height>>(
            &event.attributes,
            ConsensusHeightsAttribute::ATTRIBUTE_KEY,
            ConsensusHeightsAttribute::FRIENDLY_NAME,
        ) {
            FieldScan::Found(v) => Some(v),
            FieldScan::Missing => None,
            FieldScan::Failed { at, error } => {
                failure = earlier_failure(failure, at, error);
                None
            },
        };
        let header = match scan_field::<Vec<u8>>(
            &event.attributes,
            HeaderAttribute::ATTRIBUTE_KEY,
            HeaderAttribute::FRIENDLY_NAME,
        ) {
            FieldScan::Found(v) => Some(v),
            FieldScan::Missing => None,
            FieldScan::Failed { at, error } => {
                failure = earlier_failure(failure, at, error);
                None
            },
        };
        if let Some((_, error)) = failure {
            return Err(error);
        }
        let client_id = match client_id {
            Some(v) => ClientIdAttribute(v),
            None => {
                return Err(missing_attribute(ClientIdAttribute::FRIENDLY_NAME));
            },
        };
        let client_type = match client_type {
            Some(v) => ClientTypeAttribute(v),
            None => {
                return Err(missing_attribute(ClientTypeAttribute::FRIENDLY_NAME));
            },
        };
        let consensus_height = match consensus_height {
            Some(v) => ConsensusHeightAttribute(v),
            None => {
                return Err(missing_attribute(ConsensusHeightAttribute::FRIENDLY_NAME));
            },
        };
        let consensus_heights = match consensus_heights {
            Some(v) => ConsensusHeightsAttribute(v),
            None => {
                return Err(missing_attribute(ConsensusHeightsAttribute::FRIENDLY_NAME));
            },
        };
        let header = match header {
            Some(v) => HeaderAttribute(v),
            None => {
                return Err(missing_attribute(HeaderAttribute::FRIENDLY_NAME));
            },
        };
        let r = UpdateClient { client_id, client_type, consensus_height, consensus_heights, header };
        proof {
            assert forall|x: UpdateClient| #[trigger] x.abci_view() == event@ && x.fields_read_back()
                implies r.abci_view() == x.abci_view() by {
                assert(r.abci_view().1 =~= x.abci_view().1);
            }
            assert forall|x: UpdateClient|
                #[trigger] x.abci_view() == event@ && x.fields_read_back() && x.fields_canonical()
                implies r.same_values(x) by {
                <ClientId as AttributeValue>::lemma_spelling_injective(r.client_id@, x.client_id@);
                <ClientType as AttributeValue>::lemma_spelling_injective(r.client_type@, x.client_type@);
                <Height as AttributeValue>::lemma_spelling_injective(r.consensus_height@, x.consensus_height@);
                <Vec<Height> as AttributeValue>::lemma_spelling_injective(r.consensus_heights@, x.consensus_heights@);
                <Vec<u8> as AttributeValue>::lemma_spelling_injective(r.header@, x.header@);
            }
        }
        Ok(r)
    }
}

impl vstd::std_specs::convert::TryFromSpecImpl<Event> for UpdateClient {
    open spec fn obeys_try_from_spec() -> bool {
        false
    }

    open spec fn try_from_spec(v: Event) -> Result<UpdateClient, DecodingError> {
        arbitrary()
    }
}

/// Reads the event from its kind and its attributes given as key-value
/// pairs, as `try_from` reads the ABCI event with those attributes.
impl TryFrom<(String, Vec<(String, String)>)> for UpdateClient {
    type Error = DecodingError;

    fn try_from(parts: (String, Vec<(String, String)>)) -> (r: Result<UpdateClient, DecodingError>)
        ensures
            parts.0@ != UpdateClient::EVENT_KIND@ ==> (r matches Err(
                DecodingError::MismatchedResourceName { expected, actual },
            ) && expected@ == UpdateClient::EVENT_KIND@ && actual@ == parts.0@),
            r is Ok <==> parts.0@ == UpdateClient::EVENT_KIND@
                && field_readable::<ClientId>(pairs_view(parts.1@), ClientIdAttribute::ATTRIBUTE_KEY@)
                && field_readable::<ClientType>(pairs_view(parts.1@), ClientTypeAttribute::ATTRIBUTE_KEY@)
                && field_readable::<Height>(pairs_view(parts.1@), ConsensusHeightAttribute::ATTRIBUTE_KEY@)
                && field_readable::<Vec<Height>>(pairs_view(parts.1@), ConsensusHeightsAttribute::ATTRIBUTE_KEY@)
                && field_readable::<Vec<u8>>(pairs_view(parts.1@), HeaderAttribute::ATTRIBUTE_KEY@),
            r matches Ok(e) ==> {
                &&& e.client_id@.event_value() == <ClientId as AttributeValue>::normal_form(
                    first_value(pairs_view(parts.1@), ClientIdAttribute::ATTRIBUTE_KEY@),
                )
                &&& e.client_type@.event_value() == <ClientType as AttributeValue>::normal_form(
                    first_value(pairs_view(parts.1@), ClientTypeAttribute::ATTRIBUTE_KEY@),
                )
                &&& e.consensus_height@.event_value() == <Height as AttributeValue>::normal_form(
                    first_value(pairs_view(parts.1@), ConsensusHeightAttribute::ATTRIBUTE_KEY@),
                )
                &&& e.consensus_heights@.event_value() == <Vec<Height> as AttributeValue>::normal_form(
                    first_value(pairs_view(parts.1@), ConsensusHeightsAttribute::ATTRIBUTE_KEY@),
                )
                &&& e.header@.event_value() == <Vec<u8> as AttributeValue>::normal_form(
                    first_value(pairs_view(parts.1@), HeaderAttribute::ATTRIBUTE_KEY@),
                )
            },
            parts.0@ == UpdateClient::EVENT_KIND@ ==> (r matches Err(e) ==> (e is MissingRawData <==> !(
                field_wrong::<ClientId>(pairs_view(parts.1@), ClientIdAttribute::ATTRIBUTE_KEY@)
                || field_wrong::<ClientType>(pairs_view(parts.1@), ClientTypeAttribute::ATTRIBUTE_KEY@)
                || field_wrong::<Height>(pairs_view(parts.1@), ConsensusHeightAttribute::ATTRIBUTE_KEY@)
                || field_wrong::<Vec<Height>>(pairs_view(parts.1@), ConsensusHeightsAttribute::ATTRIBUTE_KEY@)
                || field_wrong::<Vec<u8>>(pairs_view(parts.1@), HeaderAttribute::ATTRIBUTE_KEY@)))),
            forall|x: UpdateClient|
                #[trigger] x.abci_view() == (parts.0@, pairs_view(parts.1@)) && x.fields_read_back() ==> (r matches Ok(y)
                    && y.abci_view() == x.abci_view()),
            forall|x: UpdateClient|
                #[trigger] x.abci_view() == (parts.0@, pairs_view(parts.1@)) && x.fields_read_back() && x.fields_canonical()
                    ==> (r matches Ok(y) && y.same_values(x)),
    {
        let (kind, pairs) = parts;
        <UpdateClient as TryFrom<Event>>::try_from(Event::from_pairs(kind, pairs))
    }
}

impl vstd::std_specs::convert::TryFromSpecImpl<(String, Vec<(String, String)>)> for UpdateClient {
    open spec fn obeys_try_from_spec() -> bool {
        false
    }

    open spec fn try_from_spec(v: (String, Vec<(String, String)>)) -> Result<UpdateClient, DecodingError> {
        arbitrary()
    }
}

/// The `client_misbehaviour` event: a light client was frozen on evidence of misbehaviour.
#[derive(Clone, Debug, PartialEq, Eq)]
pub struct ClientMisbehaviour {
    pub client_id: ClientIdAttribute,
    pub client_type: ClientTypeAttribute,
}

impl ClientMisbehaviour {
    /// The kind of this event in ABCI.
    pub const EVENT_KIND: &'static str = "client_misbehaviour";

    /// The event with the given attribute values.
    pub fn new(client_id: ClientId, client_type: ClientType) -> (r: ClientMisbehaviour)
        ensures
            r.client_id@ == client_id,
            r.client_type@ == client_type,
    {
        ClientMisbehaviour { client_id: ClientIdAttribute::new(client_id), client_type: ClientTypeAttribute::new(client_type) }
    }

    /// The value of the `client_id` attribute.
    pub fn client_id(&self) -> (r: &ClientId)
        ensures
            *r == self.client_id@,
    {
        self.client_id.value()
    }

    /// The value of the `client_type` attribute.
    pub fn client_type(&self) -> (r: &ClientType)
        ensures
            *r == self.client_type@,
    {
        self.client_type.value()
    }

    /// The ABCI event that this event becomes: its kind, and its
    /// attributes in the order of the fields.
    pub open spec fn abci_view(self) -> (Seq<char>, Seq<(Seq<char>, Seq<char>, bool)>) {
        (Self::EVENT_KIND@, seq![self.client_id.attribute_view(), self.client_type.attribute_view()])
    }
}

/// The event as an ABCI event: its kind and its attributes in the order of
/// the fields. A spec function cannot build the strings of an `Event`, so
/// `from` states its result in its own `ensures`.
impl From<ClientMisbehaviour> for Event {
    fn from(event: ClientMisbehaviour) -> (r: Event)
        ensures
            r@ == event.abci_view(),
    {
        let ghost view = event.abci_view();
        let attributes = vec![
            EventAttribute::from(event.client_id),
            EventAttribute::from(event.client_type),
        ];
        let r = Event { kind: String::from_str(ClientMisbehaviour::EVENT_KIND), attributes };
        assert(attributes_view(r.attributes@) =~= view.1);
        r
    }
}

impl vstd::std_specs::convert::FromSpecImpl<ClientMisbehaviour> for Event {
    open spec fn obeys_from_spec() -> bool {
        false
    }

    open spec fn from_spec(v: ClientMisbehaviour) -> Event {
        arbitrary()
    }
}

impl ClientMisbehaviour {
    /// Whether the spelling of every attribute value reads back as itself.
    pub open spec fn fields_read_back(self) -> bool {
        &&& reads_back(self.client_id@)
        &&& reads_back(self.client_type@)
    }

    /// Whether every attribute value is the one its spelling is read as.
    pub open spec fn fields_canonical(self) -> bool {
        &&& self.client_id@.canonical()
        &&& self.client_type@.canonical()
    }

    /// Whether the two events hold the same values, attribute by
    /// attribute.
    pub open spec fn same_values(self, other: ClientMisbehaviour) -> bool {
        &&& self.client_id@.same_value(other.client_id@)
        &&& self.client_type@.same_value(other.client_type@)
    }
}

/// Reads the event back from its ABCI form. The kind must be this event's;
/// each attribute of the event must occur once and hold a value of its
/// type, and attributes with other keys are passed over. Where several
/// attributes are wrong, the error is that of the first wrong attribute
/// in the list, and where none is wrong but some are missing, that of the
/// first missing one in the order of the fields.
impl TryFrom<Event> for ClientMisbehaviour {
    type Error = DecodingError;

    fn try_from(event: Event) -> (r: Result<ClientMisbehaviour, DecodingError>)
        ensures
            event@.0 != ClientMisbehaviour::EVENT_KIND@ ==> (r matches Err(
                DecodingError::MismatchedResourceName { expected, actual },
            ) && expected@ == ClientMisbehaviour::EVENT_KIND@ && actual@ == event@.0),
            r is Ok <==> event@.0 == ClientMisbehaviour::EVENT_KIND@
                && field_readable::<ClientId>(event@.1, ClientIdAttribute::ATTRIBUTE_KEY@)
                && field_readable::<ClientType>(event@.1, ClientTypeAttribute::ATTRIBUTE_KEY@),
            r matches Ok(e) ==> {
                &&& e.client_id@.event_value() == <ClientId as AttributeValue>::normal_form(
                    first_value(event@.1, ClientIdAttribute::ATTRIBUTE_KEY@),
                )
                &&& e.client_type@.event_value() == <ClientType as AttributeValue>::normal_form(
                    first_value(event@.1, ClientTypeAttribute::ATTRIBUTE_KEY@),
                )
            },
            event@.0 == ClientMisbehaviour::EVENT_KIND@ ==> (r matches Err(e) ==> (e is MissingRawData <==> !(
                field_wrong::<ClientId>(event@.1, ClientIdAttribute::ATTRIBUTE_KEY@)
                || field_wrong::<ClientType>(event@.1, ClientTypeAttribute::ATTRIBUTE_KEY@)))),
            forall|x: ClientMisbehaviour|
                #[trigger] x.abci_view() == event@ && x.fields_read_back() ==> (r matches Ok(y)
                    && y.abci_view() == x.abci_view()),
            forall|x: ClientMisbehaviour|
                #[trigger] x.abci_view() == event@ && x.fields_read_back() && x.fields_canonical()
                    ==> (r matches Ok(y) && y.same_values(x)),
    {
        proof {
            assert forall|x: ClientMisbehaviour| #[trigger] x.abci_view() == event@ && x.fields_read_back()
                implies {
                &&& field_readable::<ClientId>(event@.1, ClientIdAttribute::ATTRIBUTE_KEY@)
                &&& first_value(event@.1, ClientIdAttribute::ATTRIBUTE_KEY@) == x.client_id@.event_value()
                &&& field_readable::<ClientType>(event@.1, ClientTypeAttribute::ATTRIBUTE_KEY@)
                &&& first_value(event@.1, ClientTypeAttribute::ATTRIBUTE_KEY@) == x.client_type@.event_value()
            } by {
                let s = x.abci_view().1;
                reveal_strlit("client_id");
                reveal_strlit("client_type");
                assert(s.take(2) =~= s);
                assert(s.take(2).drop_last() =~= s.take(1));
                assert(s.take(1).drop_last() =~= s.take(0));
                reveal_with_fuel(keys_distinct, 3);
                reveal_with_fuel(key_absent, 3);
                assert(s[0].0 == ClientIdAttribute::ATTRIBUTE_KEY@ && s[0].0.len() == 9);
                assert(s[1].0 == ClientTypeAttribute::ATTRIBUTE_KEY@ && s[1].0.len() == 11);
                assert(s.take(1).last() == s[0]);
                assert(key_absent(s.take(0), s[0].0));
                assert(keys_distinct(s.take(1)));
                assert(s.take(2).last() == s[1]);
                assert(key_absent(s.take(1), s[1].0));
                assert(keys_distinct(s.take(2)));
                lemma_distinct_keys(s, 0);
                lemma_distinct_keys(s, 1);
                assert(s[0].0 == ClientIdAttribute::ATTRIBUTE_KEY@ && s[0].1 == x.client_id@.event_value());
                assert(s[1].0 == ClientTypeAttribute::ATTRIBUTE_KEY@ && s[1].1 == x.client_type@.event_value());
            }
        }
        let expected = String::from_str(ClientMisbehaviour::EVENT_KIND);
        if !(event.kind == expected) {
            return Err(DecodingError::MismatchedResourceName { expected, actual: event.kind });
        }
        let mut failure: Option<(usize, DecodingError)> = None;
        let client_id = match scan_field::<ClientId>(
            &event.attributes,
            ClientIdAttribute::ATTRIBUTE_KEY,
            ClientIdAttribute::FRIENDLY_NAME,
        ) {
            FieldScan::Found(v) => Some(v),
            FieldScan::Missing => None,
            FieldScan::Failed { at, error } => {
                failure = earlier_failure(failure, at, error);
                None
            },
        };
        let client_type = match scan_field::<ClientType>(
            &event.attributes,
            ClientTypeAttribute::ATTRIBUTE_KEY,
            ClientTypeAttribute::FRIENDLY_NAME,
        ) {
            FieldScan::Found(v) => Some(v),
            FieldScan::Missing => None,
            FieldScan::Failed { at, error } => {
                failure = earlier_failure(failure, at, error);
                None
            },
        };
        if let Some((_, error)) = failure {
            return Err(error);
        }
        let client_id = match client_id {
            Some(v) => ClientIdAttribute(v),
            None => {
                return Err(missing_attribute(ClientIdAttribute::FRIENDLY_NAME));
            },
        };
        let client_type = match client_type {
            Some(v) => ClientTypeAttribute(v),
            None => {
                return Err(missing_attribute(ClientTypeAttribute::FRIENDLY_NAME));
            },
        };
        let r = ClientMisbehaviour { client_id, client_type };
        proof {
            assert forall|x: ClientMisbehaviour| #[trigger] x.abci_view() == event@ && x.fields_read_back()
                implies r.abci_view() == x.abci_view() by {
                assert(r.abci_view().1 =~= x.abci_view().1);
            }
            assert forall|x: ClientMisbehaviour|
                #[trigger] x.abci_view() == event@ && x.fields_read_back() && x.fields_canonical()
                implies r.same_values(x) by {
                <ClientId as AttributeValue>::lemma_spelling_injective(r.client_id@, x.client_id@);
                <ClientType as AttributeValue>::lemma_spelling_injective(r.client_type@, x.client_type@);
            }
        }
        Ok(r)
    }
}

impl vstd::std_specs::convert::TryFromSpecImpl<Event> for ClientMisbehaviour {
    open spec fn obeys_try_from_spec() -> bool {
        false
    }

    open spec fn try_from_spec(v: Event) -> Result<ClientMisbehaviour, DecodingError> {
        arbitrary()
    }
}

/// Reads the event from its kind and its attributes given as key-value
/// pairs, as `try_from` reads the ABCI event with those attributes.
impl TryFrom<(String, Vec<(String, String)>)> for ClientMisbehaviour {
    type Error = DecodingError;

    fn try_from(parts: (String, Vec<(String, String)>)) -> (r: Result<ClientMisbehaviour, DecodingError>)
        ensures
            parts.0@ != ClientMisbehaviour::EVENT_KIND@ ==> (r matches Err(
                DecodingError::MismatchedResourceName { expected, actual },
            ) && expected@ == ClientMisbehaviour::EVENT_KIND@ && actual@ == parts.0@),
            r is Ok <==> parts.0@ == ClientMisbehaviour::EVENT_KIND@
                && field_readable::<ClientId>(pairs_view(parts.1@), ClientIdAttribute::ATTRIBUTE_KEY@)
                && field_readable::<ClientType>(pairs_view(parts.1@), ClientTypeAttribute::ATTRIBUTE_KEY@),
            r matches Ok(e) ==> {
                &&& e.client_id@.event_value() == <ClientId as AttributeValue>::normal_form(
                    first_value(pairs_view(parts.1@), ClientIdAttribute::ATTRIBUTE_KEY@),
                )
                &&& e.client_type@.event_value() == <ClientType as AttributeValue>::normal_form(
                    first_value(pairs_view(parts.1@), ClientTypeAttribute::ATTRIBUTE_KEY@),
                )
            },
            parts.0@ == ClientMisbehaviour::EVENT_KIND@ ==> (r matches Err(e) ==> (e is MissingRawData <==> !(
                field_wrong::<ClientId>(pairs_view(parts.1@), ClientIdAttribute::ATTRIBUTE_KEY@)
                || field_wrong::<ClientType>(pairs_view(parts.1@), ClientTypeAttribute::ATTRIBUTE_KEY@)))),
            forall|x: ClientMisbehaviour|
                #[trigger] x.abci_view() == (parts.0@, pairs_view(parts.1@)) && x.fields_read_back() ==> (r matches Ok(y)
                    && y.abci_view() == x.abci_view()),
            forall|x: ClientMisbehaviour|
                #[trigger] x.abci_view() == (parts.0@, pairs_view(parts.1@)) && x.fields_read_back() && x.fields_canonical()
                    ==> (r matches Ok(y) && y.same_values(x)),
    {
        let (kind, pairs) = parts;
        <ClientMisbehaviour as TryFrom<Event>>::try_from(Event::from_pairs(kind, pairs))
    }
}

impl vstd::std_specs::convert::TryFromSpecImpl<(String, Vec<(String, String)>)> for ClientMisbehaviour {
    open spec fn obeys_try_from_spec() -> bool {
        false
    }

    open spec fn try_from_spec(v: (String, Vec<(String, String)>)) -> Result<ClientMisbehaviour, DecodingError> {
        arbitrary()
    }
}

/// The `upgrade_client` event: a light client was upgraded.
#[derive(Clone, Debug, PartialEq, Eq)]
pub struct UpgradeClient {
    pub client_id: ClientIdAttribute,
    pub client_type: ClientTypeAttribute,
    pub consensus_height: ConsensusHeightAttribute,
}

impl UpgradeClient {
    /// The kind of this event in ABCI.
    pub const EVENT_KIND: &'static str = "upgrade_client";

    /// The event with the given attribute values.
    pub fn new(client_id: ClientId, client_type: ClientType, consensus_height: Height) -> (r: UpgradeClient)
        ensures
            r.client_id@ == client_id,
            r.client_type@ == client_type,
            r.consensus_height@ == consensus_height,
    {
        UpgradeClient { client_id: ClientIdAttribute::new(client_id), client_type: ClientTypeAttribute::new(client_type), consensus_height: ConsensusHeightAttribute::new(consensus_height) }
    }

    /// The value of the `client_id` attribute.
    pub fn client_id(&self) -> (r: &ClientId)
        ensures
            *r == self.client_id@,
    {
        self.client_id.value()
    }

    /// The value of the `client_type` attribute.
    pub fn client_type(&self) -> (r: &ClientType)
        ensures
            *r == self.client_type@,
    {
        self.client_type.value()
    }

    /// The value of the `consensus_height` attribute.
    pub fn consensus_height(&self) -> (r: &Height)
        ensures
            *r == self.consensus_height@,
    {
        self.consensus_height.value()
    }

    /// The ABCI event that this event becomes: its kind, and its
    /// attributes in the order of the fields.
    pub open spec fn abci_view(self) -> (Seq<char>, Seq<(Seq<char>, Seq<char>, bool)>) {
        (Self::EVENT_KIND@, seq![self.client_id.attribute_view(), self.client_type.attribute_view(), self.consensus_height.attribute_view()])
    }
}

/// The event as an ABCI event: its kind and its attributes in the order of
/// the fields. A spec function cannot build the strings of an `Event`, so
/// `from` states its result in its own `ensures`.
impl From<UpgradeClient> for Event {
    fn from(event: UpgradeClient) -> (r: Event)
        ensures
            r@ == event.abci_view(),
    {
        let ghost view = event.abci_view();
        let attributes = vec![
            EventAttribute::from(event.client_id),
            EventAttribute::from(event.client_type),
            EventAttribute::from(event.consensus_height),
        ];
        let r = Event { kind: String::from_str(UpgradeClient::EVENT_KIND), attributes };
        assert(attributes_view(r.attributes@) =~= view.1);
        r
    }
}

impl vstd::std_specs::convert::FromSpecImpl<UpgradeClient> for Event {
    open spec fn obeys_from_spec() -> bool {
        false
    }

    open spec fn from_spec(v: UpgradeClient) -> Event {
        arbitrary()
    }
}

impl UpgradeClient {
    /// Whether the spelling of every attribute value reads back as itself.
    pub open spec fn fields_read_back(self) -> bool {
        &&& reads_back(self.client_id@)
        &&& reads_back(self.client_type@)
        &&& reads_back(self.consensus_height@)
    }

    /// Whether every attribute value is the one its spelling is read as.
    pub open spec fn fields_canonical(self) -> bool {
        &&& self.client_id@.canonical()
        &&& self.client_type@.canonical()
        &&& self.consensus_height@.canonical()
    }

    /// Whether the two events hold the same values, attribute by
    /// attribute.
    pub open spec fn same_values(self, other: UpgradeClient) -> bool {
        &&& self.client_id@.same_value(other.client_id@)
        &&& self.client_type@.same_value(other.client_type@)
        &&& self.consensus_height@.same_value(other.consensus_height@)
    }
}

/// Reads the event back from its ABCI form. The kind must be this event's;
/// each attribute of the event must occur once and hold a value of its
/// type, and attributes with other keys are passed over. Where several
/// attributes are wrong, the error is that of the first wrong attribute
/// in the list, and where none is wrong but some are missing, that of the
/// first missing one in the order of the fields.
impl TryFrom<Event> for UpgradeClient {
    type Error = DecodingError;

    fn try_from(event: Event) -> (r: Result<UpgradeClient, DecodingError>)
        ensures
            event@.0 != UpgradeClient::EVENT_KIND@ ==> (r matches Err(
                DecodingError::MismatchedResourceName { expected, actual },
            ) && expected@ == UpgradeClient::EVENT_KIND@ && actual@ == event@.0),
            r is Ok <==> event@.0 == UpgradeClient::EVENT_KIND@
                && field_readable::<ClientId>(event@.1, ClientIdAttribute::ATTRIBUTE_KEY@)
                && field_readable::<ClientType>(event@.1, ClientTypeAttribute::ATTRIBUTE_KEY@)
                && field_readable::<Height>(event@.1, ConsensusHeightAttribute::ATTRIBUTE_KEY@),
            r matches Ok(e) ==> {
                &&& e.client_id@.event_value() == <ClientId as AttributeValue>::normal_form(
                    first_value(event@.1, ClientIdAttribute::ATTRIBUTE_KEY@),
                )
                &&& e.client_type@.event_value() == <ClientType as AttributeValue>::normal_form(
                    first_value(event@.1, ClientTypeAttribute::ATTRIBUTE_KEY@),
                )
                &&& e.consensus_height@.event_value() == <Height as AttributeValue>::normal_form(
                    first_value(event@.1, ConsensusHeightAttribute::ATTRIBUTE_KEY@),
                )
            },
            event@.0 == UpgradeClient::EVENT_KIND@ ==> (r matches Err(e) ==> (e is MissingRawData <==> !(
                field_wrong::<ClientId>(event@.1, ClientIdAttribute::ATTRIBUTE_KEY@)
                || field_wrong::<ClientType>(event@.1, ClientTypeAttribute::ATTRIBUTE_KEY@)
                || field_wrong::<Height>(event@.1, ConsensusHeightAttribute::ATTRIBUTE_KEY@)))),
            forall|x: UpgradeClient|
                #[trigger] x.abci_view() == event@ && x.fields_read_back() ==> (r matches Ok(y)
                    && y.abci_view() == x.abci_view()),
            forall|x: UpgradeClient|
                #[trigger] x.abci_view() == event@ && x.fields_read_back() && x.fields_canonical()
                    ==> (r matches Ok(y) && y.same_values(x)),
    {
        proof {
            assert forall|x: UpgradeClient| #[trigger] x.abci_view() == event@ && x.fields_read_back()
                implies {
                &&& field_readable::<ClientId>(event@.1, ClientIdAttribute::ATTRIBUTE_KEY@)
                &&& first_value(event@.1, ClientIdAttribute::ATTRIBUTE_KEY@) == x.client_id@.event_value()
                &&& field_readable::<ClientType>(event@.1, ClientTypeAttribute::ATTRIBUTE_KEY@)
                &&& first_value(event@.1, ClientTypeAttribute::ATTRIBUTE_KEY@) == x.client_type@.event_value()
                &&& field_readable::<Height>(event@.1, ConsensusHeightAttribute::ATTRIBUTE_KEY@)
                &&& first_value(event@.1, ConsensusHeightAttribute::ATTRIBUTE_KEY@) == x.consensus_height@.event_value()
            } by {
                let s = x.abci_view().1;
                reveal_strlit("client_id");
                reveal_strlit("client_type");
                reveal_strlit("consensus_height");
                assert(s.take(3) =~= s);
                assert(s.take(3).drop_last() =~= s.take(2));
                assert(s.take(2).drop_last() =~= s.take(1));
                assert(s.take(1).drop_last() =~= s.take(0));
                reveal_with_fuel(keys_distinct, 4);
                reveal_with_fuel(key_absent, 4);
                assert(s[0].0 == ClientIdAttribute::ATTRIBUTE_KEY@ && s[0].0.len() == 9);
                assert(s[1].0 == ClientTypeAttribute::ATTRIBUTE_KEY@ && s[1].0.len() == 11);
                assert(s[2].0 == ConsensusHeightAttribute::ATTRIBUTE_KEY@ && s[2].0.len() == 16);
                assert(s.take(1).last() == s[0]);
                assert(key_absent(s.take(0), s[0].0));
                assert(keys_distinct(s.take(1)));
                assert(s.take(2).last() == s[1]);
                assert(key_absent(s.take(1), s[1].0));
                assert(keys_distinct(s.take(2)));
                assert(s.take(3).last() == s[2]);
                assert(key_absent(s.take(2), s[2].0));
                assert(keys_distinct(s.take(3)));
                lemma_distinct_keys(s, 0);
                lemma_distinct_keys(s, 1);
                lemma_distinct_keys(s, 2);
                assert(s[0].0 == ClientIdAttribute::ATTRIBUTE_KEY@ && s[0].1 == x.client_id@.event_value());
                assert(s[1].0 == ClientTypeAttribute::ATTRIBUTE_KEY@ && s[1].1 == x.client_type@.event_value());
                assert(s[2].0 == ConsensusHeightAttribute::ATTRIBUTE_KEY@ && s[2].1 == x.consensus_height@.event_value());
            }
        }
        let expected = String::from_str(UpgradeClient::EVENT_KIND);
        if !(event.kind == expected) {
            return Err(DecodingError::MismatchedResourceName { expected, actual: event.kind });
        }
        let mut failure: Option<(usize, DecodingError)> = None;
        let client_id = match scan_field::<ClientId>(
            &event.attributes,
            ClientIdAttribute::ATTRIBUTE_KEY,
            ClientIdAttribute::FRIENDLY_NAME,
        ) {
            FieldScan::Found(v) => Some(v),
            FieldScan::Missing => None,
            FieldScan::Failed { at, error } => {
                failure = earlier_failure(failure, at, error);
                None
            },
        };
        let client_type = match scan_field::<ClientType>(
            &event.attributes,
            ClientTypeAttribute::ATTRIBUTE_KEY,
            ClientTypeAttribute::FRIENDLY_NAME,
        ) {
            FieldScan::Found(v) => Some(v),
            FieldScan::Missing => None,
            FieldScan::Failed { at, error } => {
                failure = earlier_failure(failure, at, error);
                None
            },
        };
        let consensus_height = match scan_field::<Height>(
            &event.attributes,
            ConsensusHeightAttribute::ATTRIBUTE_KEY,
            ConsensusHeightAttribute::FRIENDLY_NAME,
        ) {
            FieldScan::Found(v) => Some(v),
            FieldScan::Missing => None,
            FieldScan::Failed { at, error } => {
                failure = earlier_failure(failure, at, error);
                None
            },
        };
        if let Some((_, error)) = failure {
            return Err(error);
        }
        let client_id = match client_id {
            Some(v) => ClientIdAttribute(v),
            None => {
                return Err(missing_attribute(ClientIdAttribute::FRIENDLY_NAME));
            },
        };
        let client_type = match client_type {
            Some(v) => ClientTypeAttribute(v),
            None => {
                return Err(missing_attribute(ClientTypeAttribute::FRIENDLY_NAME));
            },
        };
        let consensus_height = match consensus_height {
            Some(v) => ConsensusHeightAttribute(v),
            None => {
                return Err(missing_attribute(ConsensusHeightAttribute::FRIENDLY_NAME));
            },
        };
        let r = UpgradeClient { client_id, client_type, consensus_height };
        proof {
            assert forall|x: UpgradeClient| #[trigger] x.abci_view() == event@ && x.fields_read_back()
                implies r.abci_view() == x.abci_view() by {
                assert(r.abci_view().1 =~= x.abci_view().1);
            }
            assert forall|x: UpgradeClient|
                #[trigger] x.abci_view() == event@ && x.fields_read_back() && x.fields_canonical()
                implies r.same_values(x) by {
                <ClientId as AttributeValue>::lemma_spelling_injective(r.client_id@, x.client_id@);
                <ClientType as AttributeValue>::lemma_spelling_injective(r.client_type@, x.client_type@);
                <Height as AttributeValue>::lemma_spelling_injective(r.consensus_height@, x.consensus_height@);
            }
        }
        Ok(r)
    }
}

impl vstd::std_specs::convert::TryFromSpecImpl<Event> for UpgradeClient {
    open spec fn obeys_try_from_spec() -> bool {
        false
    }

    open spec fn try_from_spec(v: Event) -> Result<UpgradeClient, DecodingError> {
        arbitrary()
    }
}

/// Reads the event from its kind and its attributes given as key-value
/// pairs, as `try_from` reads the ABCI event with those attributes.
impl TryFrom<(String, Vec<(String, String)>)> for UpgradeClient {
    type Error = DecodingError;

    fn try_from(parts: (String, Vec<(String, String)>)) -> (r: Result<UpgradeClient, DecodingError>)
        ensures
            parts.0@ != UpgradeClient::EVENT_KIND@ ==> (r matches Err(
                DecodingError::MismatchedResourceName { expected, actual },
            ) && expected@ == UpgradeClient::EVENT_KIND@ && actual@ == parts.0@),
            r is Ok <==> parts.0@ == UpgradeClient::EVENT_KIND@
                && field_readable::<ClientId>(pairs_view(parts.1@), ClientIdAttribute::ATTRIBUTE_KEY@)
                && field_readable::<ClientType>(pairs_view(parts.1@), ClientTypeAttribute::ATTRIBUTE_KEY@)
                && field_readable::<Height>(pairs_view(parts.1@), ConsensusHeightAttribute::ATTRIBUTE_KEY@),
            r matches Ok(e) ==> {
                &&& e.client_id@.event_value() == <ClientId as AttributeValue>::normal_form(
                    first_value(pairs_view(parts.1@), ClientIdAttribute::ATTRIBUTE_KEY@),
                )
                &&& e.client_type@.event_value() == <ClientType as AttributeValue>::normal_form(
                    first_value(pairs_view(parts.1@), ClientTypeAttribute::ATTRIBUTE_KEY@),
                )
                &&& e.consensus_height@.event_value() == <Height as AttributeValue>::normal_form(
                    first_value(pairs_view(parts.1@), ConsensusHeightAttribute::ATTRIBUTE_KEY@),
                )
            },
            parts.0@ == UpgradeClient::EVENT_KIND@ ==> (r matches Err(e) ==> (e is MissingRawData <==> !(
                field_wrong::<ClientId>(pairs_view(parts.1@), ClientIdAttribute::ATTRIBUTE_KEY@)
                || field_wrong::<ClientType>(pairs_view(parts.1@), ClientTypeAttribute::ATTRIBUTE_KEY@)
                || field_wrong::<Height>(pairs_view(parts.1@), ConsensusHeightAttribute::ATTRIBUTE_KEY@)))),
            forall|x: UpgradeClient|
                #[trigger] x.abci_view() == (parts.0@, pairs_view(parts.1@)) && x.fields_read_back() ==> (r matches Ok(y)
                    && y.abci_view() == x.abci_view()),
            forall|x: UpgradeClient|
                #[trigger] x.abci_view() == (parts.0@, pairs_view(parts.1@)) && x.fields_read_back() && x.fields_canonical()
                    ==> (r matches Ok(y) && y.same_values(x)),
    {
        let (kind, pairs) = parts;
        <UpgradeClient as TryFrom<Event>>::try_from(Event::from_pairs(kind, pairs))
    }
}

impl vstd::std_specs::convert::TryFromSpecImpl<(String, Vec<(String, String)>)> for UpgradeClient {
    open spec fn obeys_try_from_spec() -> bool {
        false
    }

    open spec fn try_from_spec(v: (String, Vec<(String, String)>)) -> Result<UpgradeClient, DecodingError> {
        arbitrary()
    }
}

} // verus!
