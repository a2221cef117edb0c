//! Events of channel handshakes and of packets, emitted towards relayers.
use vstd::prelude::*;
use crate::abci::{attributes_view, pairs_view, Event, EventAttribute};
use crate::attribute::{reads_back, AttributeValue, Newtype};
use crate::decode::{
    earlier_failure, field_readable, field_wrong, first_value, keys_distinct, key_absent,
    lemma_distinct_keys, missing_attribute, scan_field, FieldScan,
};
use crate::handler_events::DecodingError;
use crate::identifiers::{ChannelId, ConnectionId, PortId, Sequence, Version};
use crate::packet::{Acknowledgement, Order, TimeoutHeight, TimeoutTimestamp};

verus! {

/// The `connection_id` attribute: the connection under the channel.
#[derive(Clone, Debug, PartialEq, Eq)]
pub struct ConnectionIdAttribute(pub ConnectionId);

impl ConnectionIdAttribute {
    /// The key of this attribute in an ABCI event.
    pub const ATTRIBUTE_KEY: &'static str = "connection_id";

    /// How errors name this attribute.
    pub const FRIENDLY_NAME: &'static str = "connection ID";

    /// The attribute holding `value`.
    pub fn new(value: ConnectionId) -> (r: ConnectionIdAttribute)
        ensures
            r@ == value,
    {
        ConnectionIdAttribute(value)
    }

    /// The value held.
    pub fn value(&self) -> (r: &ConnectionId)
        ensures
            *r == self@,
    {
        &self.0
    }

    /// The ABCI attribute that this attribute becomes: its key, its value
    /// spelled out, not indexed.
    pub open spec fn attribute_view(self) -> (Seq<char>, Seq<char>, bool) {
        (Self::ATTRIBUTE_KEY@, self@.event_value(), false)
    }

    /// Reads the attribute from the text of its value.
    pub fn parse(text: &str) -> (r: Result<ConnectionIdAttribute, DecodingError>)
        ensures
            r is Ok <==> <ConnectionId as AttributeValue>::accepts(text@),
            r matches Ok(a) ==> a@.event_value() == <ConnectionId as AttributeValue>::normal_form(text@),
            r matches Ok(a) ==> a@.canonical(),
    {
        match <ConnectionId as AttributeValue>::parse_event_value(text) {
            Ok(v) => Ok(ConnectionIdAttribute(v)),
            Err(e) => Err(e),
        }
    }
}

impl core::str::FromStr for ConnectionIdAttribute {
    type Err = DecodingError;

    fn from_str(text: &str) -> Result<ConnectionIdAttribute, DecodingError> {
        ConnectionIdAttribute::parse(text)
    }
}

/// Reads the attribute from an ABCI attribute: the key must be this
/// attribute's, and the value is read as `parse` reads it.
impl TryFrom<EventAttribute> for ConnectionIdAttribute {
    type Error = DecodingError;

    fn try_from(attribute: EventAttribute) -> (r: Result<ConnectionIdAttribute, DecodingError>)
        ensures
            attribute@.0 != ConnectionIdAttribute::ATTRIBUTE_KEY@ ==> (r matches Err(
                DecodingError::MismatchedResourceName { expected, actual },
            ) && expected@ == ConnectionIdAttribute::ATTRIBUTE_KEY@ && actual@ == attribute@.0),
            r is Ok <==> attribute@.0 == ConnectionIdAttribute::ATTRIBUTE_KEY@
                && <ConnectionId as AttributeValue>::accepts(attribute@.1),
            r matches Ok(a) ==> a@.event_value() == <ConnectionId as AttributeValue>::normal_form(attribute@.1),
            forall|x: ConnectionIdAttribute|
                #[trigger] x.attribute_view() == attribute@ && reads_back(x@) ==> (r matches Ok(y)
                    && y.attribute_view() == x.attribute_view()),
            forall|x: ConnectionIdAttribute|
                #[trigger] x.attribute_view() == attribute@ && reads_back(x@) && x@.canonical() ==> (
                r matches Ok(y) && y@.same_value(x@)),
    {
        let expected = String::from_str(ConnectionIdAttribute::ATTRIBUTE_KEY);
        if !(attribute.key == expected) {
            return Err(DecodingError::MismatchedResourceName { expected, actual: attribute.key });
        }
        let r = ConnectionIdAttribute::parse(attribute.value.as_str());
        proof {
            assert forall|x: ConnectionIdAttribute|
                #[trigger] x.attribute_view() == attribute@ && reads_back(x@) && x@.canonical()
                implies r matches Ok(y) && y@.same_value(x@) by {
                <ConnectionId as AttributeValue>::lemma_spelling_injective(r->Ok_0@, x@);
            }
        }
        r
    }
}

impl vstd::std_specs::convert::TryFromSpecImpl<EventAttribute> for ConnectionIdAttribute {
    open spec fn obeys_try_from_spec() -> bool {
        false
    }

    open spec fn try_from_spec(v: EventAttribute) -> Result<ConnectionIdAttribute, DecodingError> {
        arbitrary()
    }
}

impl View for ConnectionIdAttribute {
    type V = ConnectionId;

    open spec fn view(&self) -> ConnectionId {
        self.0
    }
}

impl Newtype for ConnectionIdAttribute {
    type Inner = ConnectionId;
}

impl From<ConnectionId> for ConnectionIdAttribute {
    fn from(inner: ConnectionId) -> (r: ConnectionIdAttribute) {
        ConnectionIdAttribute(inner)
    }
}

impl vstd::std_specs::convert::FromSpecImpl<ConnectionId> for ConnectionIdAttribute {
    open spec fn obeys_from_spec() -> bool {
        true
    }

    open spec fn from_spec(v: ConnectionId) -> ConnectionIdAttribute {
        ConnectionIdAttribute(v)
    }
}

impl From<ConnectionIdAttribute> for ConnectionId {
    fn from(attribute: ConnectionIdAttribute) -> (r: ConnectionId) {
        attribute.0
    }
}

impl vstd::std_specs::convert::FromSpecImpl<ConnectionIdAttribute> for ConnectionId {
    open spec fn obeys_from_spec() -> bool {
        true
    }

    open spec fn from_spec(v: ConnectionIdAttribute) -> ConnectionId {
        v@
    }
}

/// The attribute as an ABCI attribute: its key and its value spelled out,
/// not indexed. A spec function cannot build the strings of an
/// `EventAttribute`, so `from` states its result in its own `ensures`.
impl From<ConnectionIdAttribute> for EventAttribute {
    fn from(attribute: ConnectionIdAttribute) -> (r: EventAttribute)
        ensures
            r@ == attribute.attribute_view(),
    {
        let value = attribute.0.to_event_value();
        EventAttribute::new(ConnectionIdAttribute::ATTRIBUTE_KEY, value, false)
    }
}

impl vstd::std_specs::convert::FromSpecImpl<ConnectionIdAttribute> for EventAttribute {
    open spec fn obeys_from_spec() -> bool {
        false
    }

    open spec fn from_spec(v: ConnectionIdAttribute) -> EventAttribute {
        arbitrary()
    }
}

/// The `port_id` attribute: the port on the emitting chain.
#[derive(Clone, Debug, PartialEq, Eq)]
pub struct PortIdAttribute(pub PortId);

impl PortIdAttribute {
    /// The key of this attribute in an ABCI event.
    pub const ATTRIBUTE_KEY: &'static str = "port_id";

    /// How errors name this attribute.
    pub const FRIENDLY_NAME: &'static str = "port ID";

    /// The attribute holding `value`.
    pub fn new(value: PortId) -> (r: PortIdAttribute)
        ensures
            r@ == value,
    {
        PortIdAttribute(value)
    }

    /// The value held.
    pub fn value(&self) -> (r: &PortId)
        ensures
            *r == self@,
    {
        &self.0
    }

    /// The ABCI attribute that this attribute becomes: its key, its value
    /// spelled out, not indexed.
    pub open spec fn attribute_view(self) -> (Seq<char>, Seq<char>, bool) {
        (Self::ATTRIBUTE_KEY@, self@.event_value(), false)
    }

    /// Reads the attribute from the text of its value.
    pub fn parse(text: &str) -> (r: Result<PortIdAttribute, DecodingError>)
        ensures
            r is Ok <==> <PortId as AttributeValue>::accepts(text@),
            r matches Ok(a) ==> a@.event_value() == <PortId as AttributeValue>::normal_form(text@),
            r matches Ok(a) ==> a@.canonical(),
    {
        match <PortId as AttributeValue>::parse_event_value(text) {
            Ok(v) => Ok(PortIdAttribute(v)),
            Err(e) => Err(e),
        }
    }
}

impl core::str::FromStr for PortIdAttribute {
    type Err = DecodingError;

    fn from_str(text: &str) -> Result<PortIdAttribute, DecodingError> {
        PortIdAttribute::parse(text)
    }
}

/// Reads the attribute from an ABCI attribute: the key must be this
/// attribute's, and the value is read as `parse` reads it.
impl TryFrom<EventAttribute> for PortIdAttribute {
    type Error = DecodingError;

    fn try_from(attribute: EventAttribute) -> (r: Result<PortIdAttribute, DecodingError>)
        ensures
            attribute@.0 != PortIdAttribute::ATTRIBUTE_KEY@ ==> (r matches Err(
                DecodingError::MismatchedResourceName { expected, actual },
            ) && expected@ == PortIdAttribute::ATTRIBUTE_KEY@ && actual@ == attribute@.0),
            r is Ok <==> attribute@.0 == PortIdAttribute::ATTRIBUTE_KEY@
                && <PortId as AttributeValue>::accepts(attribute@.1),
            r matches Ok(a) ==> a@.event_value() == <PortId as AttributeValue>::normal_form(attribute@.1),
            forall|x: PortIdAttribute|
                #[trigger] x.attribute_view() == attribute@ && reads_back(x@) ==> (r matches Ok(y)
                    && y.attribute_view() == x.attribute_view()),
            forall|x: PortIdAttribute|
                #[trigger] x.attribute_view() == attribute@ && reads_back(x@) && x@.canonical() ==> (
                r matches Ok(y) && y@.same_value(x@)),
    {
        let expected = String::from_str(PortIdAttribute::ATTRIBUTE_KEY);
        if !(attribute.key == expected) {
            return Err(DecodingError::MismatchedResourceName { expected, actual: attribute.key });
        }
        let r = PortIdAttribute::parse(attribute.value.as_str());
        proof {
            assert forall|x: PortIdAttribute|
                #[trigger] x.attribute_view() == attribute@ && reads_back(x@) && x@.canonical()
                implies r matches Ok(y) && y@.same_value(x@) by {
                <PortId as AttributeValue>::lemma_spelling_injective(r->Ok_0@, x@);
            }
        }
        r
    }
}

impl vstd::std_specs::convert::TryFromSpecImpl<EventAttribute> for PortIdAttribute {
    open spec fn obeys_try_from_spec() -> bool {
        false
    }

    open spec fn try_from_spec(v: EventAttribute) -> Result<PortIdAttribute, DecodingError> {
        arbitrary()
    }
}

impl View for PortIdAttribute {
    type V = PortId;

    open spec fn view(&self) -> PortId {
        self.0
    }
}

impl Newtype for PortIdAttribute {
    type Inner = PortId;
}

impl From<PortId> for PortIdAttribute {
    fn from(inner: PortId) -> (r: PortIdAttribute) {
        PortIdAttribute(inner)
    }
}

impl vstd::std_specs::convert::FromSpecImpl<PortId> for PortIdAttribute {
    open spec fn obeys_from_spec() -> bool {
        true
    }

    open spec fn from_spec(v: PortId) -> PortIdAttribute {
        PortIdAttribute(v)
    }
}

impl From<PortIdAttribute> for PortId {
    fn from(attribute: PortIdAttribute) -> (r: PortId) {
        attribute.0
    }
}

impl vstd::std_specs::convert::FromSpecImpl<PortIdAttribute> for PortId {
    open spec fn obeys_from_spec() -> bool {
        true
    }

    open spec fn from_spec(v: PortIdAttribute) -> PortId {
        v@
    }
}

/// The attribute as an ABCI attribute: its key and its value spelled out,
/// not indexed. A spec function cannot build the strings of an
/// `EventAttribute`, so `from` states its result in its own `ensures`.
impl From<PortIdAttribute> for EventAttribute {
    fn from(attribute: PortIdAttribute) -> (r: EventAttribute)
        ensures
            r@ == attribute.attribute_view(),
    {
        let value = attribute.0.to_event_value();
        EventAttribute::new(PortIdAttribute::ATTRIBUTE_KEY, value, false)
    }
}

impl vstd::std_specs::convert::FromSpecImpl<PortIdAttribute> for EventAttribute {
    open spec fn obeys_from_spec() -> bool {
        false
    }

    open spec fn from_spec(v: PortIdAttribute) -> EventAttribute {
        arbitrary()
    }
}

/// The `counterparty_port_id` attribute: the port on the counterparty chain.
#[derive(Clone, Debug, PartialEq, Eq)]
pub struct CounterpartyPortIdAttribute(pub PortId);

impl CounterpartyPortIdAttribute {
    /// The key of this attribute in an ABCI event.
    pub const ATTRIBUTE_KEY: &'static str = "counterparty_port_id";

    /// How errors name this attribute.
    pub const FRIENDLY_NAME: &'static str = "counterparty port ID";

    /// The attribute holding `value`.
    pub fn new(value: PortId) -> (r: CounterpartyPortIdAttribute)
        ensures
            r@ == value,
    {
        CounterpartyPortIdAttribute(value)
    }

    /// The value held.
    pub fn value(&self) -> (r: &PortId)
        ensures
            *r == self@,
    {
        &self.0
    }

    /// The ABCI attribute that this attribute becomes: its key, its value
    /// spelled out, not indexed.
    pub open spec fn attribute_view(self) -> (Seq<char>, Seq<char>, bool) {
        (Self::ATTRIBUTE_KEY@, self@.event_value(), false)
    }

    /// Reads the attribute from the text of its value.
    pub fn parse(text: &str) -> (r: Result<CounterpartyPortIdAttribute, DecodingError>)
        ensures
            r is Ok <==> <PortId as AttributeValue>::accepts(text@),
            r matches Ok(a) ==> a@.event_value() == <PortId as AttributeValue>::normal_form(text@),
            r matches Ok(a) ==> a@.canonical(),
    {
        match <PortId as AttributeValue>::parse_event_value(text) {
            Ok(v) => Ok(CounterpartyPortIdAttribute(v)),
            Err(e) => Err(e),
        }
    }
}

impl core::str::FromStr for CounterpartyPortIdAttribute {
    type Err = DecodingError;

    fn from_str(text: &str) -> Result<CounterpartyPortIdAttribute, DecodingError> {
        CounterpartyPortIdAttribute::parse(text)
    }
}

/// Reads the attribute from an ABCI attribute: the key must be this
/// attribute's, and the value is read as `parse` reads it.
impl TryFrom<EventAttribute> for CounterpartyPortIdAttribute {
    type Error = DecodingError;

    fn try_from(attribute: EventAttribute) -> (r: Result<CounterpartyPortIdAttribute, DecodingError>)
        ensures
            attribute@.0 != CounterpartyPortIdAttribute::ATTRIBUTE_KEY@ ==> (r matches Err(
                DecodingError::MismatchedResourceName { expected, actual },
            ) && expected@ == CounterpartyPortIdAttribute::ATTRIBUTE_KEY@ && actual@ == attribute@.0),
            r is Ok <==> attribute@.0 == CounterpartyPortIdAttribute::ATTRIBUTE_KEY@
                && <PortId as AttributeValue>::accepts(attribute@.1),
            r matches Ok(a) ==> a@.event_value() == <PortId as AttributeValue>::normal_form(attribute@.1),
            forall|x: CounterpartyPortIdAttribute|
                #[trigger] x.attribute_view() == attribute@ && reads_back(x@) ==> (r matches Ok(y)
                    && y.attribute_view() == x.attribute_view()),
            forall|x: CounterpartyPortIdAttribute|
                #[trigger] x.attribute_view() == attribute@ && reads_back(x@) && x@.canonical() ==> (
                r matches Ok(y) && y@.same_value(x@)),
    {
        let expected = String::from_str(CounterpartyPortIdAttribute::ATTRIBUTE_KEY);
        if !(attribute.key == expected) {
            return Err(DecodingError::MismatchedResourceName { expected, actual: attribute.key });
        }
        let r = CounterpartyPortIdAttribute::parse(attribute.value.as_str());
        proof {
            assert forall|x: CounterpartyPortIdAttribute|
                #[trigger] x.attribute_view() == attribute@ && reads_back(x@) && x@.canonical()
                implies r matches Ok(y) && y@.same_value(x@) by {
                <PortId as AttributeValue>::lemma_spelling_injective(r->Ok_0@, x@);
            }
        }
        r
    }
}

impl vstd::std_specs::convert::TryFromSpecImpl<EventAttribute> for CounterpartyPortIdAttribute {
    open spec fn obeys_try_from_spec() -> bool {
        false
    }

    open spec fn try_from_spec(v: EventAttribute) -> Result<CounterpartyPortIdAttribute, DecodingError> {
        arbitrary()
    }
}

impl View for CounterpartyPortIdAttribute {
    type V = PortId;

    open spec fn view(&self) -> PortId {
        self.0
    }
}

impl Newtype for CounterpartyPortIdAttribute {
    type Inner = PortId;
}

impl From<PortId> for CounterpartyPortIdAttribute {
    fn from(inner: PortId) -> (r: CounterpartyPortIdAttribute) {
        CounterpartyPortIdAttribute(inner)
    }
}

impl vstd::std_specs::convert::FromSpecImpl<PortId> for CounterpartyPortIdAttribute {
    open spec fn obeys_from_spec() -> bool {
        true
    }

    open spec fn from_spec(v: PortId) -> CounterpartyPortIdAttribute {
        CounterpartyPortIdAttribute(v)
    }
}

impl From<CounterpartyPortIdAttribute> for PortId {
    fn from(attribute: CounterpartyPortIdAttribute) -> (r: PortId) {
        attribute.0
    }
}

impl vstd::std_specs::convert::FromSpecImpl<CounterpartyPortIdAttribute> for PortId {
    open spec fn obeys_from_spec() -> bool {
        true
    }

    open spec fn from_spec(v: CounterpartyPortIdAttribute) -> PortId {
        v@
    }
}

/// The attribute as an ABCI attribute: its key and its value spelled out,
/// not indexed. A spec function cannot build the strings of an
/// `EventAttribute`, so `from` states its result in its own `ensures`.
impl From<CounterpartyPortIdAttribute> for EventAttribute {
    fn from(attribute: CounterpartyPortIdAttribute) -> (r: EventAttribute)
        ensures
            r@ == attribute.attribute_view(),
    {
        let value = attribute.0.to_event_value();
        EventAttribute::new(CounterpartyPortIdAttribute::ATTRIBUTE_KEY, value, false)
    }
}

impl vstd::std_specs::convert::FromSpecImpl<CounterpartyPortIdAttribute> for EventAttribute {
    open spec fn obeys_from_spec() -> bool {
        false
    }

    open spec fn from_spec(v: CounterpartyPortIdAttribute) -> EventAttribute {
        arbitrary()
    }
}

/// The `channel_id` attribute: the channel on the emitting chain.
#[derive(Clone, Debug, PartialEq, Eq)]
pub struct ChannelIdAttribute(pub ChannelId);

impl ChannelIdAttribute {
    /// The key of this attribute in an ABCI event.
    pub const ATTRIBUTE_KEY: &'static str = "channel_id";

    /// How errors name this attribute.
    pub const FRIENDLY_NAME: &'static str = "channel ID";

    /// The attribute holding `value`.
    pub fn new(value: ChannelId) -> (r: ChannelIdAttribute)
        ensures
            r@ == value,
    {
        ChannelIdAttribute(value)
    }

    /// The value held.
    pub fn value(&self) -> (r: &ChannelId)
        ensures
            *r == self@,
    {
        &self.0
    }

    /// The ABCI attribute that this attribute becomes: its key, its value
    /// spelled out, not indexed.
    pub open spec fn attribute_view(self) -> (Seq<char>, Seq<char>, bool) {
        (Self::ATTRIBUTE_KEY@, self@.event_value(), false)
    }

    /// Reads the attribute from the text of its value.
    pub fn parse(text: &str) -> (r: Result<ChannelIdAttribute, DecodingError>)
        ensures
            r is Ok <==> <ChannelId as AttributeValue>::accepts(text@),
            r matches Ok(a) ==> a@.event_value() == <ChannelId as AttributeValue>::normal_form(text@),
            r matches Ok(a) ==> a@.canonical(),
    {
        match <ChannelId as AttributeValue>::parse_event_value(text) {
            Ok(v) => Ok(ChannelIdAttribute(v)),
            Err(e) => Err(e),
        }
    }
}

impl core::str::FromStr for ChannelIdAttribute {
    type Err = DecodingError;

    fn from_str(text: &str) -> Result<ChannelIdAttribute, DecodingError> {
        ChannelIdAttribute::parse(text)
    }
}

/// Reads the attribute from an ABCI attribute: the key must be this
/// attribute's, and the value is read as `parse` reads it.
impl TryFrom<EventAttribute> for ChannelIdAttribute {
    type Error = DecodingError;

    fn try_from(attribute: EventAttribute) -> (r: Result<ChannelIdAttribute, DecodingError>)
        ensures
            attribute@.0 != ChannelIdAttribute::ATTRIBUTE_KEY@ ==> (r matches Err(
                DecodingError::MismatchedResourceName { expected, actual },
            ) && expected@ == ChannelIdAttribute::ATTRIBUTE_KEY@ && actual@ == attribute@.0),
            r is Ok <==> attribute@.0 == ChannelIdAttribute::ATTRIBUTE_KEY@
                && <ChannelId as AttributeValue>::accepts(attribute@.1),
            r matches Ok(a) ==> a@.event_value() == <ChannelId as AttributeValue>::normal_form(attribute@.1),
            forall|x: ChannelIdAttribute|
                #[trigger] x.attribute_view() == attribute@ && reads_back(x@) ==> (r matches Ok(y)
                    && y.attribute_view() == x.attribute_view()),
            forall|x: ChannelIdAttribute|
                #[trigger] x.attribute_view() == attribute@ && reads_back(x@) && x@.canonical() ==> (
                r matches Ok(y) && y@.same_value(x@)),
    {
        let expected = String::from_str(ChannelIdAttribute::ATTRIBUTE_KEY);
        if !(attribute.key == expected) {
            return Err(DecodingError::MismatchedResourceName { expected, actual: attribute.key });
        }
        let r = ChannelIdAttribute::parse(attribute.value.as_str());
        proof {
            assert forall|x: ChannelIdAttribute|
                #[trigger] x.attribute_view() == attribute@ && reads_back(x@) && x@.canonical()
                implies r matches Ok(y) && y@.same_value(x@) by {
                <ChannelId as AttributeValue>::lemma_spelling_injective(r->Ok_0@, x@);
            }
        }
        r
    }
}

impl vstd::std_specs::convert::TryFromSpecImpl<EventAttribute> for ChannelIdAttribute {
    open spec fn obeys_try_from_spec() -> bool {
        false
    }

    open spec fn try_from_spec(v: EventAttribute) -> Result<ChannelIdAttribute, DecodingError> {
        arbitrary()
    }
}

impl View for ChannelIdAttribute {
    type V = ChannelId;

    open spec fn view(&self) -> ChannelId {
        self.0
    }
}

impl Newtype for ChannelIdAttribute {
    type Inner = ChannelId;
}

impl From<ChannelId> for ChannelIdAttribute {
    fn from(inner: ChannelId) -> (r: ChannelIdAttribute) {
        ChannelIdAttribute(inner)
    }
}

impl vstd::std_specs::convert::FromSpecImpl<ChannelId> for ChannelIdAttribute {
    open spec fn obeys_from_spec() -> bool {
        true
    }

    open spec fn from_spec(v: ChannelId) -> ChannelIdAttribute {
        ChannelIdAttribute(v)
    }
}

impl From<ChannelIdAttribute> for ChannelId {
    fn from(attribute: ChannelIdAttribute) -> (r: ChannelId) {
        attribute.0
    }
}

impl vstd::std_specs::convert::FromSpecImpl<ChannelIdAttribute> for ChannelId {
    open spec fn obeys_from_spec() -> bool {
        true
    }

    open spec fn from_spec(v: ChannelIdAttribute) -> ChannelId {
        v@
    }
}

/// The attribute as an ABCI attribute: its key and its value spelled out,
/// not indexed. A spec function cannot build the strings of an
/// `EventAttribute`, so `from` states its result in its own `ensures`.
impl From<ChannelIdAttribute> for EventAttribute {
    fn from(attribute: ChannelIdAttribute) -> (r: EventAttribute)
        ensures
            r@ == attribute.attribute_view(),
    {
        let value = attribute.0.to_event_value();
        EventAttribute::new(ChannelIdAttribute::ATTRIBUTE_KEY, value, false)
    }
}

impl vstd::std_specs::convert::FromSpecImpl<ChannelIdAttribute> for EventAttribute {
    open spec fn obeys_from_spec() -> bool {
        false
    }

    open spec fn from_spec(v: ChannelIdAttribute) -> EventAttribute {
        arbitrary()
    }
}

/// The `counterparty_channel_id` attribute: the channel on the counterparty chain.
#[derive(Clone, Debug, PartialEq, Eq)]
pub struct CounterpartyChannelIdAttribute(pub ChannelId);

impl CounterpartyChannelIdAttribute {
    /// The key of this attribute in an ABCI event.
    pub const ATTRIBUTE_KEY: &'static str = "counterparty_channel_id";

    /// How errors name this attribute.
    pub const FRIENDLY_NAME: &'static str = "counterparty channel ID";

    /// The attribute holding `value`.
    pub fn new(value: ChannelId) -> (r: CounterpartyChannelIdAttribute)
        ensures
            r@ == value,
    {
        CounterpartyChannelIdAttribute(value)
    }

    /// The value held.
    pub fn value(&self) -> (r: &ChannelId)
        ensures
            *r == self@,
    {
        &self.0
    }

    /// The ABCI attribute that this attribute becomes: its key, its value
    /// spelled out, not indexed.
    pub open spec fn attribute_view(self) -> (Seq<char>, Seq<char>, bool) {
        (Self::ATTRIBUTE_KEY@, self@.event_value(), false)
    }

    /// Reads the attribute from the text of its value.
    pub fn parse(text: &str) -> (r: Result<CounterpartyChannelIdAttribute, DecodingError>)
        ensures
            r is Ok <==> <ChannelId as AttributeValue>::accepts(text@),
            r matches Ok(a) ==> a@.event_value() == <ChannelId as AttributeValue>::normal_form(text@),
            r matches Ok(a) ==> a@.canonical(),
    {
        match <ChannelId as AttributeValue>::parse_event_value(text) {
            Ok(v) => Ok(CounterpartyChannelIdAttribute(v)),
            Err(e) => Err(e),
        }
    }
}

impl core::str::FromStr for CounterpartyChannelIdAttribute {
    type Err = DecodingError;

    fn from_str(text: &str) -> Result<CounterpartyChannelIdAttribute, DecodingError> {
        CounterpartyChannelIdAttribute::parse(text)
    }
}

/// Reads the attribute from an ABCI attribute: the key must be this
/// attribute's, and the value is read as `parse` reads it.
impl TryFrom<EventAttribute> for CounterpartyChannelIdAttribute {
    type Error = DecodingError;

    fn try_from(attribute: EventAttribute) -> (r: Result<CounterpartyChannelIdAttribute, DecodingError>)
        ensures
            attribute@.0 != CounterpartyChannelIdAttribute::ATTRIBUTE_KEY@ ==> (r matches Err(
                DecodingError::MismatchedResourceName { expected, actual },
            ) && expected@ == CounterpartyChannelIdAttribute::ATTRIBUTE_KEY@ && actual@ == attribute@.0),
            r is Ok <==> attribute@.0 == CounterpartyChannelIdAttribute::ATTRIBUTE_KEY@
                && <ChannelId as AttributeValue>::accepts(attribute@.1),
            r matches Ok(a) ==> a@.event_value() == <ChannelId as AttributeValue>::normal_form(attribute@.1),
            forall|x: CounterpartyChannelIdAttribute|
                #[trigger] x.attribute_view() == attribute@ && reads_back(x@) ==> (r matches Ok(y)
                    && y.attribute_view() == x.attribute_view()),
            forall|x: CounterpartyChannelIdAttribute|
                #[trigger] x.attribute_view() == attribute@ && reads_back(x@) && x@.canonical() ==> (
                r matches Ok(y) && y@.same_value(x@)),
    {
        let expected = String::from_str(CounterpartyChannelIdAttribute::ATTRIBUTE_KEY);
        if !(attribute.key == expected) {
            return Err(DecodingError::MismatchedResourceName { expected, actual: attribute.key });
        }
        let r = CounterpartyChannelIdAttribute::parse(attribute.value.as_str());
        proof {
            assert forall|x: CounterpartyChannelIdAttribute|
                #[trigger] x.attribute_view() == attribute@ && reads_back(x@) && x@.canonical()
                implies r matches Ok(y) && y@.same_value(x@) by {
                <ChannelId as AttributeValue>::lemma_spelling_injective(r->Ok_0@, x@);
            }
        }
        r
    }
}

impl vstd::std_specs::convert::TryFromSpecImpl<EventAttribute> for CounterpartyChannelIdAttribute {
    open spec fn obeys_try_from_spec() -> bool {
        false
    }

    open spec fn try_from_spec(v: EventAttribute) -> Result<CounterpartyChannelIdAttribute, DecodingError> {
        arbitrary()
    }
}

impl View for CounterpartyChannelIdAttribute {
    type V = ChannelId;

    open spec fn view(&self) -> ChannelId {
        self.0
    }
}

impl Newtype for CounterpartyChannelIdAttribute {
    type Inner = ChannelId;
}

impl From<ChannelId> for CounterpartyChannelIdAttribute {
    fn from(inner: ChannelId) -> (r: CounterpartyChannelIdAttribute) {
        CounterpartyChannelIdAttribute(inner)
    }
}

impl vstd::std_specs::convert::FromSpecImpl<ChannelId> for CounterpartyChannelIdAttribute {
    open spec fn obeys_from_spec() -> bool {
        true
    }

    open spec fn from_spec(v: ChannelId) -> CounterpartyChannelIdAttribute {
        CounterpartyChannelIdAttribute(v)
    }
}

impl From<CounterpartyChannelIdAttribute> for ChannelId {
    fn from(attribute: CounterpartyChannelIdAttribute) -> (r: ChannelId) {
        attribute.0
    }
}

impl vstd::std_specs::convert::FromSpecImpl<CounterpartyChannelIdAttribute> for ChannelId {
    open spec fn obeys_from_spec() -> bool {
        true
    }

    open spec fn from_spec(v: CounterpartyChannelIdAttribute) -> ChannelId {
        v@
    }
}

/// The attribute as an ABCI attribute: its key and its value spelled out,
/// not indexed. A spec function cannot build the strings of an
/// `EventAttribute`, so `from` states its result in its own `ensures`.
impl From<CounterpartyChannelIdAttribute> for EventAttribute {
    fn from(attribute: CounterpartyChannelIdAttribute) -> (r: EventAttribute)
        ensures
            r@ == attribute.attribute_view(),
    {
        let value = attribute.0.to_event_value();
        EventAttribute::new(CounterpartyChannelIdAttribute::ATTRIBUTE_KEY, value, false)
    }
}

impl vstd::std_specs::convert::FromSpecImpl<CounterpartyChannelIdAttribute> for EventAttribute {
    open spec fn obeys_from_spec() -> bool {
        false
    }

    open spec fn from_spec(v: CounterpartyChannelIdAttribute) -> EventAttribute {
        arbitrary()
    }
}

/// The `counterparty_channel_id` attribute: the channel on the counterparty chain, empty where it is not known.
#[derive(Clone, Debug, PartialEq, Eq)]
pub struct MaybeCounterpartyChannelIdAttribute(pub Option<ChannelId>);

impl MaybeCounterpartyChannelIdAttribute {
    /// The key of this attribute in an ABCI event.
    pub const ATTRIBUTE_KEY: &'static str = "counterparty_channel_id";

    /// How errors name this attribute.
    pub const FRIENDLY_NAME: &'static str = "counterparty channel ID";

    /// The attribute holding `value`.
    pub fn new(value: Option<ChannelId>) -> (r: MaybeCounterpartyChannelIdAttribute)
        ensures
            r@ == value,
    {
        MaybeCounterpartyChannelIdAttribute(value)
    }

    /// The value held.
    pub fn value(&self) -> (r: &Option<ChannelId>)
        ensures
            *r == self@,
    {
        &self.0
    }

    /// The ABCI attribute that this attribute becomes: its key, its value
    /// spelled out, not indexed.
    pub open spec fn attribute_view(self) -> (Seq<char>, Seq<char>, bool) {
        (Self::ATTRIBUTE_KEY@, self@.event_value(), false)
    }

    /// Reads the attribute from the text of its value.
    pub fn parse(text: &str) -> (r: Result<MaybeCounterpartyChannelIdAttribute, DecodingError>)
        ensures
            r is Ok <==> <Option<ChannelId> as AttributeValue>::accepts(text@),
            r matches Ok(a) ==> a@.event_value() == <Option<ChannelId> as AttributeValue>::normal_form(text@),
            r matches Ok(a) ==> a@.canonical(),
    {
        match <Option<ChannelId> as AttributeValue>::parse_event_value(text) {
            Ok(v) => Ok(MaybeCounterpartyChannelIdAttribute(v)),
            Err(e) => Err(e),
        }
    }
}

impl core::str::FromStr for MaybeCounterpartyChannelIdAttribute {
    type Err = DecodingError;

    fn from_str(text: &str) -> Result<MaybeCounterpartyChannelIdAttribute, DecodingError> {
        MaybeCounterpartyChannelIdAttribute::parse(text)
    }
}

/// Reads the attribute from an ABCI attribute: the key must be this
/// attribute's, and the value is read as `parse` reads it.
impl TryFrom<EventAttribute> for MaybeCounterpartyChannelIdAttribute {
    type Error = DecodingError;

    fn try_from(attribute: EventAttribute) -> (r: Result<MaybeCounterpartyChannelIdAttribute, DecodingError>)
        ensures
            attribute@.0 != MaybeCounterpartyChannelIdAttribute::ATTRIBUTE_KEY@ ==> (r matches Err(
                DecodingError::MismatchedResourceName { expected, actual },
            ) && expected@ == MaybeCounterpartyChannelIdAttribute::ATTRIBUTE_KEY@ && actual@ == attribute@.0),
            r is Ok <==> attribute@.0 == MaybeCounterpartyChannelIdAttribute::ATTRIBUTE_KEY@
                && <Option<ChannelId> as AttributeValue>::accepts(attribute@.1),
            r matches Ok(a) ==> a@.event_value() == <Option<ChannelId> as AttributeValue>::normal_form(attribute@.1),
            forall|x: MaybeCounterpartyChannelIdAttribute|
                #[trigger] x.attribute_view() == attribute@ && reads_back(x@) ==> (r matches Ok(y)
                    && y.attribute_view() == x.attribute_view()),
            forall|x: MaybeCounterpartyChannelIdAttribute|
                #[trigger] x.attribute_view() == attribute@ && reads_back(x@) && x@.canonical() ==> (
                r matches Ok(y) && y@.same_value(x@)),
    {
        let expected = String::from_str(MaybeCounterpartyChannelIdAttribute::ATTRIBUTE_KEY);
        if !(attribute.key == expected) {
            return Err(DecodingError::MismatchedResourceName { expected, actual: attribute.key });
        }
        let r = MaybeCounterpartyChannelIdAttribute::parse(attribute.value.as_str());
        proof {
            assert forall|x: MaybeCounterpartyChannelIdAttribute|
                #[trigger] x.attribute_view() == attribute@ && reads_back(x@) && x@.canonical()
                implies r matches Ok(y) && y@.same_value(x@) by {
                <Option<ChannelId> as AttributeValue>::lemma_spelling_injective(r->Ok_0@, x@);
            }
        }
        r
    }
}

impl vstd::std_specs::convert::TryFromSpecImpl<EventAttribute> for MaybeCounterpartyChannelIdAttribute {
    open spec fn obeys_try_from_spec() -> bool {
        false
    }

    open spec fn try_from_spec(v: EventAttribute) -> Result<MaybeCounterpartyChannelIdAttribute, DecodingError> {
        arbitrary()
    }
}

impl View for MaybeCounterpartyChannelIdAttribute {
    type V = Option<ChannelId>;

    open spec fn view(&self) -> Option<ChannelId> {
        self.0
    }
}

impl Newtype for MaybeCounterpartyChannelIdAttribute {
    type Inner = Option<ChannelId>;
}

impl From<Option<ChannelId>> for MaybeCounterpartyChannelIdAttribute {
    fn from(inner: Option<ChannelId>) -> (r: MaybeCounterpartyChannelIdAttribute) {
        MaybeCounterpartyChannelIdAttribute(inner)
    }
}

impl vstd::std_specs::convert::FromSpecImpl<Option<ChannelId>> for MaybeCounterpartyChannelIdAttribute {
    open spec fn obeys_from_spec() -> bool {
        true
    }

    open spec fn from_spec(v: Option<ChannelId>) -> MaybeCounterpartyChannelIdAttribute {
        MaybeCounterpartyChannelIdAttribute(v)
    }
}

impl From<MaybeCounterpartyChannelIdAttribute> for Option<ChannelId> {
    fn from(attribute: MaybeCounterpartyChannelIdAttribute) -> (r: Option<ChannelId>) {
        attribute.0
    }
}

impl vstd::std_specs::convert::FromSpecImpl<MaybeCounterpartyChannelIdAttribute> for Option<ChannelId> {
    open spec fn obeys_from_spec() -> bool {
        true
    }

    open spec fn from_spec(v: MaybeCounterpartyChannelIdAttribute) -> Option<ChannelId> {
        v@
    }
}

/// The attribute as an ABCI attribute: its key and its value spelled out,
/// not indexed. A spec function cannot build the strings of an
/// `EventAttribute`, so `from` states its result in its own `ensures`.
impl From<MaybeCounterpartyChannelIdAttribute> for EventAttribute {
    fn from(attribute: MaybeCounterpartyChannelIdAttribute) -> (r: EventAttribute)
        ensures
            r@ == attribute.attribute_view(),
    {
        let value = attribute.0.to_event_value();
        EventAttribute::new(MaybeCounterpartyChannelIdAttribute::ATTRIBUTE_KEY, value, false)
    }
}

impl vstd::std_specs::convert::FromSpecImpl<MaybeCounterpartyChannelIdAttribute> for EventAttribute {
    open spec fn obeys_from_spec() -> bool {
        false
    }

    open spec fn from_spec(v: MaybeCounterpartyChannelIdAttribute) -> EventAttribute {
        arbitrary()
    }
}

/// The `version` attribute: the channel version.
#[derive(Clone, Debug, PartialEq, Eq)]
pub struct VersionAttribute(pub Version);

impl VersionAttribute {
    /// The key of this attribute in an ABCI event.
    pub const ATTRIBUTE_KEY: &'static str = "version";

    /// How errors name this attribute.
    pub const FRIENDLY_NAME: &'static str = "version";

    /// The attribute holding `value`.
    pub fn new(value: Version) -> (r: VersionAttribute)
        ensures
            r@ == value,
    {
        VersionAttribute(value)
    }

    /// The value held.
    pub fn value(&self) -> (r: &Version)
        ensures
            *r == self@,
    {
        &self.0
    }

    /// The ABCI attribute that this attribute becomes: its key, its value
    /// spelled out, not indexed.
    pub open spec fn attribute_view(self) -> (Seq<char>, Seq<char>, bool) {
        (Self::ATTRIBUTE_KEY@, self@.event_value(), false)
    }

    /// Reads the attribute from the text of its value.
    pub fn parse(text: &str) -> (r: Result<VersionAttribute, DecodingError>)
        ensures
            r is Ok <==> <Version as AttributeValue>::accepts(text@),
            r matches Ok(a) ==> a@.event_value() == <Version as AttributeValue>::normal_form(text@),
            r matches Ok(a) ==> a@.canonical(),
    {
        match <Version as AttributeValue>::parse_event_value(text) {
            Ok(v) => Ok(VersionAttribute(v)),
            Err(e) => Err(e),
        }
    }
}

impl core::str::FromStr for VersionAttribute {
    type Err = DecodingError;

    fn from_str(text: &str) -> Result<VersionAttribute, DecodingError> {
        VersionAttribute::parse(text)
    }
}

/// Reads the attribute from an ABCI attribute: the key must be this
/// attribute's, and the value is read as `parse` reads it.
impl TryFrom<EventAttribute> for VersionAttribute {
    type Error = DecodingError;

    fn try_from(attribute: EventAttribute) -> (r: Result<VersionAttribute, DecodingError>)
        ensures
            attribute@.0 != VersionAttribute::ATTRIBUTE_KEY@ ==> (r matches Err(
                DecodingError::MismatchedResourceName { expected, actual },
            ) && expected@ == VersionAttribute::ATTRIBUTE_KEY@ && actual@ == attribute@.0),
            r is Ok <==> attribute@.0 == VersionAttribute::ATTRIBUTE_KEY@
                && <Version as AttributeValue>::accepts(attribute@.1),
            r matches Ok(a) ==> a@.event_value() == <Version as AttributeValue>::normal_form(attribute@.1),
            forall|x: VersionAttribute|
                #[trigger] x.attribute_view() == attribute@ && reads_back(x@) ==> (r matches Ok(y)
                    && y.attribute_view() == x.attribute_view()),
            forall|x: VersionAttribute|
                #[trigger] x.attribute_view() == attribute@ && reads_back(x@) && x@.canonical() ==> (
                r matches Ok(y) && y@.same_value(x@)),
    {
        let expected = String::from_str(VersionAttribute::ATTRIBUTE_KEY);
        if !(attribute.key == expected) {
            return Err(DecodingError::MismatchedResourceName { expected, actual: attribute.key });
        }
        let r = VersionAttribute::parse(attribute.value.as_str());
        proof {
            assert forall|x: VersionAttribute|
                #[trigger] x.attribute_view() == attribute@ && reads_back(x@) && x@.canonical()
                implies r matches Ok(y) && y@.same_value(x@) by {
                <Version as AttributeValue>::lemma_spelling_injective(r->Ok_0@, x@);
            }
        }
        r
    }
}

impl vstd::std_specs::convert::TryFromSpecImpl<EventAttribute> for VersionAttribute {
    open spec fn obeys_try_from_spec() -> bool {
        false
    }

    open spec fn try_from_spec(v: EventAttribute) -> Result<VersionAttribute, DecodingError> {
        arbitrary()
    }
}

impl View for VersionAttribute {
    type V = Version;

    open spec fn view(&self) -> Version {
        self.0
    }
}

impl Newtype for VersionAttribute {
    type Inner = Version;
}

impl From<Version> for VersionAttribute {
    fn from(inner: Version) -> (r: VersionAttribute) {
        VersionAttribute(inner)
    }
}

impl vstd::std_specs::convert::FromSpecImpl<Version> for VersionAttribute {
    open spec fn obeys_from_spec() -> bool {
        true
    }

    open spec fn from_spec(v: Version) -> VersionAttribute {
        VersionAttribute(v)
    }
}

impl From<VersionAttribute> for Version {
    fn from(attribute: VersionAttribute) -> (r: Version) {
        attribute.0
    }
}

impl vstd::std_specs::convert::FromSpecImpl<VersionAttribute> for Version {
    open spec fn obeys_from_spec() -> bool {
        true
    }

    open spec fn from_spec(v: VersionAttribute) -> Version {
        v@
    }
}

/// The attribute as an ABCI attribute: its key and its value spelled out,
/// not indexed. A spec function cannot build the strings of an
/// `EventAttribute`, so `from` states its result in its own `ensures`.
impl From<VersionAttribute> for EventAttribute {
    fn from(attribute: VersionAttribute) -> (r: EventAttribute)
        ensures
            r@ == attribute.attribute_view(),
    {
        let value = attribute.0.to_event_value();
        EventAttribute::new(VersionAttribute::ATTRIBUTE_KEY, value, false)
    }
}

impl vstd::std_specs::convert::FromSpecImpl<VersionAttribute> for EventAttribute {
    open spec fn obeys_from_spec() -> bool {
        false
    }

    open spec fn from_spec(v: VersionAttribute) -> EventAttribute {
        arbitrary()
    }
}

/// The `packet_sequence` attribute: the sequence number of the packet.
#[derive(Clone, Debug, PartialEq, Eq)]
pub struct SequenceAttribute(pub Sequence);

impl SequenceAttribute {
    /// The key of this attribute in an ABCI event.
    pub const ATTRIBUTE_KEY: &'static str = "packet_sequence";

    /// How errors name this attribute.
    pub const FRIENDLY_NAME: &'static str = "version";

    /// The attribute holding `value`.
    pub fn new(value: Sequence) -> (r: SequenceAttribute)
        ensures
            r@ == value,
    {
        SequenceAttribute(value)
    }

    /// The value held.
    pub fn value(&self) -> (r: &Sequence)
        ensures
            *r == self@,
    {
        &self.0
    }

    /// The ABCI attribute that this attribute becomes: its key, its value
    /// spelled out, not indexed.
    pub open spec fn attribute_view(self) -> (Seq<char>, Seq<char>, bool) {
        (Self::ATTRIBUTE_KEY@, self@.event_value(), false)
    }

    /// Reads the attribute from the text of its value.
    pub fn parse(text: &str) -> (r: Result<SequenceAttribute, DecodingError>)
        ensures
            r is Ok <==> <Sequence as AttributeValue>::accepts(text@),
            r matches Ok(a) ==> a@.event_value() == <Sequence as AttributeValue>::normal_form(text@),
            r matches Ok(a) ==> a@.canonical(),
    {
        match <Sequence as AttributeValue>::parse_event_value(text) {
            Ok(v) => Ok(SequenceAttribute(v)),
            Err(e) => Err(e),
        }
    }
}

impl core::str::FromStr for SequenceAttribute {
    type Err = DecodingError;

    fn from_str(text: &str) -> Result<SequenceAttribute, DecodingError> {
        SequenceAttribute::parse(text)
    }
}

/// Reads the attribute from an ABCI attribute: the key must be this
/// attribute's, and the value is read as `parse` reads it.
impl TryFrom<EventAttribute> for SequenceAttribute {
    type Error = DecodingError;

    fn try_from(attribute: EventAttribute) -> (r: Result<SequenceAttribute, DecodingError>)
        ensures
            attribute@.0 != SequenceAttribute::ATTRIBUTE_KEY@ ==> (r matches Err(
                DecodingError::MismatchedResourceName { expected, actual },
            ) && expected@ == SequenceAttribute::ATTRIBUTE_KEY@ && actual@ == attribute@.0),
            r is Ok <==> attribute@.0 == SequenceAttribute::ATTRIBUTE_KEY@
                && <Sequence as AttributeValue>::accepts(attribute@.1),
            r matches Ok(a) ==> a@.event_value() == <Sequence as AttributeValue>::normal_form(attribute@.1),
            forall|x: SequenceAttribute|
                #[trigger] x.attribute_view() == attribute@ && reads_back(x@) ==> (r matches Ok(y)
                    && y.attribute_view() == x.attribute_view()),
            forall|x: SequenceAttribute|
                #[trigger] x.attribute_view() == attribute@ && reads_back(x@) && x@.canonical() ==> (
                r matches Ok(y) && y@.same_value(x@)),
    {
        let expected = String::from_str(SequenceAttribute::ATTRIBUTE_KEY);
        if !(attribute.key == expected) {
            return Err(DecodingError::MismatchedResourceName { expected, actual: attribute.key });
        }
        let r = SequenceAttribute::parse(attribute.value.as_str());
        proof {
            assert forall|x: SequenceAttribute|
                #[trigger] x.attribute_view() == attribute@ && reads_back(x@) && x@.canonical()
                implies r matches Ok(y) && y@.same_value(x@) by {
                <Sequence as AttributeValue>::lemma_spelling_injective(r->Ok_0@, x@);
            }
        }
        r
    }
}

impl vstd::std_specs::convert::TryFromSpecImpl<EventAttribute> for SequenceAttribute {
    open spec fn obeys_try_from_spec() -> bool {
        false
    }

    open spec fn try_from_spec(v: EventAttribute) -> Result<SequenceAttribute, DecodingError> {
        arbitrary()
    }
}

impl View for SequenceAttribute {
    type V = Sequence;

    open spec fn view(&self) -> Sequence {
        self.0
    }
}

impl Newtype for SequenceAttribute {
    type Inner = Sequence;
}

impl From<Sequence> for SequenceAttribute {
    fn from(inner: Sequence) -> (r: SequenceAttribute) {
        SequenceAttribute(inner)
    }
}

impl vstd::std_specs::convert::FromSpecImpl<Sequence> for SequenceAttribute {
    open spec fn obeys_from_spec() -> bool {
        true
    }

    open spec fn from_spec(v: Sequence) -> SequenceAttribute {
        SequenceAttribute(v)
    }
}

impl From<SequenceAttribute> for Sequence {
    fn from(attribute: SequenceAttribute) -> (r: Sequence) {
        attribute.0
    }
}

impl vstd::std_specs::convert::FromSpecImpl<SequenceAttribute> for Sequence {
    open spec fn obeys_from_spec() -> bool {
        true
    }

    open spec fn from_spec(v: SequenceAttribute) -> Sequence {
        v@
    }
}

/// The attribute as an ABCI attribute: its key and its value spelled out,
/// not indexed. A spec function cannot build the strings of an
/// `EventAttribute`, so `from` states its result in its own `ensures`.
impl From<SequenceAttribute> for EventAttribute {
    fn from(attribute: SequenceAttribute) -> (r: EventAttribute)
        ensures
            r@ == attribute.attribute_view(),
    {
        let value = attribute.0.to_event_value();
        EventAttribute::new(SequenceAttribute::ATTRIBUTE_KEY, value, false)
    }
}

impl vstd::std_specs::convert::FromSpecImpl<SequenceAttribute> for EventAttribute {
    open spec fn obeys_from_spec() -> bool {
        false
    }

    open spec fn from_spec(v: SequenceAttribute) -> EventAttribute {
        arbitrary()
    }
}

/// The `packet_data_hex` attribute: the packet data in hexadecimal.
#[derive(Clone, Debug, PartialEq, Eq)]
pub struct PacketDataAttribute(pub Vec<u8>);

impl PacketDataAttribute {
    /// The key of this attribute in an ABCI event.
    pub const ATTRIBUTE_KEY: &'static str = "packet_data_hex";

    /// How errors name this attribute.
    pub const FRIENDLY_NAME: &'static str = "hex-encoded packet data";

    /// The attribute holding `value`.
    pub fn new(value: Vec<u8>) -> (r: PacketDataAttribute)
        ensures
            r@ == value,
    {
        PacketDataAttribute(value)
    }

    /// The value held.
    pub fn value(&self) -> (r: &Vec<u8>)
        ensures
            *r == self@,
    {
        &self.0
    }

    /// The ABCI attribute that this attribute becomes: its key, its value
    /// spelled out, not indexed.
    pub open spec fn attribute_view(self) -> (Seq<char>, Seq<char>, bool) {
        (Self::ATTRIBUTE_KEY@, self@.event_value(), false)
    }

    /// Reads the attribute from the text of its value.
    pub fn parse(text: &str) -> (r: Result<PacketDataAttribute, DecodingError>)
        ensures
            r is Ok <==> <Vec<u8> as AttributeValue>::accepts(text@),
            r matches Ok(a) ==> a@.event_value() == <Vec<u8> as AttributeValue>::normal_form(text@),
            r matches Ok(a) ==> a@.canonical(),
    {
        match <Vec<u8> as AttributeValue>::parse_event_value(text) {
            Ok(v) => Ok(PacketDataAttribute(v)),
            Err(e) => Err(e),
        }
    }
}

impl core::str::FromStr for PacketDataAttribute {
    type Err = DecodingError;

    fn from_str(text: &str) -> Result<PacketDataAttribute, DecodingError> {
        PacketDataAttribute::parse(text)
    }
}

/// Reads the attribute from an ABCI attribute: the key must be this
/// attribute's, and the value is read as `parse` reads it.
impl TryFrom<EventAttribute> for PacketDataAttribute {
    type Error = DecodingError;

    fn try_from(attribute: EventAttribute) -> (r: Result<PacketDataAttribute, DecodingError>)
        ensures
            attribute@.0 != PacketDataAttribute::ATTRIBUTE_KEY@ ==> (r matches Err(
                DecodingError::MismatchedResourceName { expected, actual },
            ) && expected@ == PacketDataAttribute::ATTRIBUTE_KEY@ && actual@ == attribute@.0),
            r is Ok <==> attribute@.0 == PacketDataAttribute::ATTRIBUTE_KEY@
                && <Vec<u8> as AttributeValue>::accepts(attribute@.1),
            r matches Ok(a) ==> a@.event_value() == <Vec<u8> as AttributeValue>::normal_form(attribute@.1),
            forall|x: PacketDataAttribute|
                #[trigger] x.attribute_view() == attribute@ && reads_back(x@) ==> (r matches Ok(y)
                    && y.attribute_view() == x.attribute_view()),
            forall|x: PacketDataAttribute|
                #[trigger] x.attribute_view() == attribute@ && reads_back(x@) && x@.canonical() ==> (
                r matches Ok(y) && y@.same_value(x@)),
    {
        let expected = String::from_str(PacketDataAttribute::ATTRIBUTE_KEY);
        if !(attribute.key == expected) {
            return Err(DecodingError::MismatchedResourceName { expected, actual: attribute.key });
        }
        let r = PacketDataAttribute::parse(attribute.value.as_str());
        proof {
            assert forall|x: PacketDataAttribute|
                #[trigger] x.attribute_view() == attribute@ && reads_back(x@) && x@.canonical()
                implies r matches Ok(y) && y@.same_value(x@) by {
                <Vec<u8> as AttributeValue>::lemma_spelling_injective(r->Ok_0@, x@);
            }
        }
        r
    }
}

impl vstd::std_specs::convert::TryFromSpecImpl<EventAttribute> for PacketDataAttribute {
    open spec fn obeys_try_from_spec() -> bool {
        false
    }

    open spec fn try_from_spec(v: EventAttribute) -> Result<PacketDataAttribute, DecodingError> {
        arbitrary()
    }
}

impl View for PacketDataAttribute {
    type V = Vec<u8>;

    open spec fn view(&self) -> Vec<u8> {
        self.0
    }
}

impl Newtype for PacketDataAttribute {
    type Inner = Vec<u8>;
}

impl From<Vec<u8>> for PacketDataAttribute {
    fn from(inner: Vec<u8>) -> (r: PacketDataAttribute) {
        PacketDataAttribute(inner)
    }
}

impl vstd::std_specs::convert::FromSpecImpl<Vec<u8>> for PacketDataAttribute {
    open spec fn obeys_from_spec() -> bool {
        true
    }

    open spec fn from_spec(v: Vec<u8>) -> PacketDataAttribute {
        PacketDataAttribute(v)
    }
}

impl From<PacketDataAttribute> for Vec<u8> {
    fn from(attribute: PacketDataAttribute) -> (r: Vec<u8>) {
        attribute.0
    }
}

impl vstd::std_specs::convert::FromSpecImpl<PacketDataAttribute> for Vec<u8> {
    open spec fn obeys_from_spec() -> bool {
        true
    }

    open spec fn from_spec(v: PacketDataAttribute) -> Vec<u8> {
        v@
    }
}

/// The attribute as an ABCI attribute: its key and its value spelled out,
/// not indexed. A spec function cannot build the strings of an
/// `EventAttribute`, so `from` states its result in its own `ensures`.
impl From<PacketDataAttribute> for EventAttribute {
    fn from(attribute: PacketDataAttribute) -> (r: EventAttribute)
        ensures
            r@ == attribute.attribute_view(),
    {
        let value = attribute.0.to_event_value();
        EventAttribute::new(PacketDataAttribute::ATTRIBUTE_KEY, value, false)
    }
}

impl vstd::std_specs::convert::FromSpecImpl<PacketDataAttribute> for EventAttribute {
    open spec fn obeys_from_spec() -> bool {
        false
    }

    open spec fn from_spec(v: PacketDataAttribute) -> EventAttribute {
        arbitrary()
    }
}

/// The `packet_src_port` attribute: the port the packet was sent from.
#[derive(Clone, Debug, PartialEq, Eq)]
pub struct SrcPortIdAttribute(pub PortId);

impl SrcPortIdAttribute {
    /// The key of this attribute in an ABCI event.
    pub const ATTRIBUTE_KEY: &'static str = "packet_src_port";

    /// How errors name this attribute.
    pub const FRIENDLY_NAME: &'static str = "packet source port ID";

    /// The attribute holding `value`.
    pub fn new(value: PortId) -> (r: SrcPortIdAttribute)
        ensures
            r@ == value,
    {
        SrcPortIdAttribute(value)
    }

    /// The value held.
    pub fn value(&self) -> (r: &PortId)
        ensures
            *r == self@,
    {
        &self.0
    }

    /// The ABCI attribute that this attribute becomes: its key, its value
    /// spelled out, not indexed.
    pub open spec fn attribute_view(self) -> (Seq<char>, Seq<char>, bool) {
        (Self::ATTRIBUTE_KEY@, self@.event_value(), false)
    }

    /// Reads the attribute from the text of its value.
    pub fn parse(text: &str) -> (r: Result<SrcPortIdAttribute, DecodingError>)
        ensures
            r is Ok <==> <PortId as AttributeValue>::accepts(text@),
            r matches Ok(a) ==> a@.event_value() == <PortId as AttributeValue>::normal_form(text@),
            r matches Ok(a) ==> a@.canonical(),
    {
        match <PortId as AttributeValue>::parse_event_value(text) {
            Ok(v) => Ok(SrcPortIdAttribute(v)),
            Err(e) => Err(e),
        }
    }
}

impl core::str::FromStr for SrcPortIdAttribute {
    type Err = DecodingError;

    fn from_str(text: &str) -> Result<SrcPortIdAttribute, DecodingError> {
        SrcPortIdAttribute::parse(text)
    }
}

/// Reads the attribute from an ABCI attribute: the key must be this
/// attribute's, and the value is read as `parse` reads it.
impl TryFrom<EventAttribute> for SrcPortIdAttribute {
    type Error = DecodingError;

    fn try_from(attribute: EventAttribute) -> (r: Result<SrcPortIdAttribute, DecodingError>)
        ensures
            attribute@.0 != SrcPortIdAttribute::ATTRIBUTE_KEY@ ==> (r matches Err(
                DecodingError::MismatchedResourceName { expected, actual },
            ) && expected@ == SrcPortIdAttribute::ATTRIBUTE_KEY@ && actual@ == attribute@.0),
            r is Ok <==> attribute@.0 == SrcPortIdAttribute::ATTRIBUTE_KEY@
                && <PortId as AttributeValue>::accepts(attribute@.1),
            r matches Ok(a) ==> a@.event_value() == <PortId as AttributeValue>::normal_form(attribute@.1),
            forall|x: SrcPortIdAttribute|
                #[trigger] x.attribute_view() == attribute@ && reads_back(x@) ==> (r matches Ok(y)
                    && y.attribute_view() == x.attribute_view()),
            forall|x: SrcPortIdAttribute|
                #[trigger] x.attribute_view() == attribute@ && reads_back(x@) && x@.canonical() ==> (
                r matches Ok(y) && y@.same_value(x@)),
    {
        let expected = String::from_str(SrcPortIdAttribute::ATTRIBUTE_KEY);
        if !(attribute.key == expected) {
            return Err(DecodingError::MismatchedResourceName { expected, actual: attribute.key });
        }
        let r = SrcPortIdAttribute::parse(attribute.value.as_str());
        proof {
            assert forall|x: SrcPortIdAttribute|
                #[trigger] x.attribute_view() == attribute@ && reads_back(x@) && x@.canonical()
                implies r matches Ok(y) && y@.same_value(x@) by {
                <PortId as AttributeValue>::lemma_spelling_injective(r->Ok_0@, x@);
            }
        }
        r
    }
}

impl vstd::std_specs::convert::TryFromSpecImpl<EventAttribute> for SrcPortIdAttribute {
    open spec fn obeys_try_from_spec() -> bool {
        false
    }

    open spec fn try_from_spec(v: EventAttribute) -> Result<SrcPortIdAttribute, DecodingError> {
        arbitrary()
    }
}

impl View for SrcPortIdAttribute {
    type V = PortId;

    open spec fn view(&self) -> PortId {
        self.0
    }
}

impl Newtype for SrcPortIdAttribute {
    type Inner = PortId;
}

impl From<PortId> for SrcPortIdAttribute {
    fn from(inner: PortId) -> (r: SrcPortIdAttribute) {
        SrcPortIdAttribute(inner)
    }
}

impl vstd::std_specs::convert::FromSpecImpl<PortId> for SrcPortIdAttribute {
    open spec fn obeys_from_spec() -> bool {
        true
    }

    open spec fn from_spec(v: PortId) -> SrcPortIdAttribute {
        SrcPortIdAttribute(v)
    }
}

impl From<SrcPortIdAttribute> for PortId {
    fn from(attribute: SrcPortIdAttribute) -> (r: PortId) {
        attribute.0
    }
}

impl vstd::std_specs::convert::FromSpecImpl<SrcPortIdAttribute> for PortId {
    open spec fn obeys_from_spec() -> bool {
        true
    }

    open spec fn from_spec(v: SrcPortIdAttribute) -> PortId {
        v@
    }
}

/// The attribute as an ABCI attribute: its key and its value spelled out,
/// not indexed. A spec function cannot build the strings of an
/// `EventAttribute`, so `from` states its result in its own `ensures`.
impl From<SrcPortIdAttribute> for EventAttribute {
    fn from(attribute: SrcPortIdAttribute) -> (r: EventAttribute)
        ensures
            r@ == attribute.attribute_view(),
    {
        let value = attribute.0.to_event_value();
        EventAttribute::new(SrcPortIdAttribute::ATTRIBUTE_KEY, value, false)
    }
}

impl vstd::std_specs::convert::FromSpecImpl<SrcPortIdAttribute> for EventAttribute {
    open spec fn obeys_from_spec() -> bool {
        false
    }

    open spec fn from_spec(v: SrcPortIdAttribute) -> EventAttribute {
        arbitrary()
    }
}

/// The `packet_src_channel` attribute: the channel the packet was sent on.
#[derive(Clone, Debug, PartialEq, Eq)]
pub struct SrcChannelIdAttribute(pub ChannelId);

impl SrcChannelIdAttribute {
    /// The key of this attribute in an ABCI event.
    pub const ATTRIBUTE_KEY: &'static str = "packet_src_channel";

    /// How errors name this attribute.
    pub const FRIENDLY_NAME: &'static str = "packet source channel ID";

    /// The attribute holding `value`.
    pub fn new(value: ChannelId) -> (r: SrcChannelIdAttribute)
        ensures
            r@ == value,
    {
        SrcChannelIdAttribute(value)
    }

    /// The value held.
    pub fn value(&self) -> (r: &ChannelId)
        ensures
            *r == self@,
    {
        &self.0
    }

    /// The ABCI attribute that this attribute becomes: its key, its value
    /// spelled out, not indexed.
    pub open spec fn attribute_view(self) -> (Seq<char>, Seq<char>, bool) {
        (Self::ATTRIBUTE_KEY@, self@.event_value(), false)
    }

    /// Reads the attribute from the text of its value.
    pub fn parse(text: &str) -> (r: Result<SrcChannelIdAttribute, DecodingError>)
        ensures
            r is Ok <==> <ChannelId as AttributeValue>::accepts(text@),
            r matches Ok(a) ==> a@.event_value() == <ChannelId as AttributeValue>::normal_form(text@),
            r matches Ok(a) ==> a@.canonical(),
    {
        match <ChannelId as AttributeValue>::parse_event_value(text) {
            Ok(v) => Ok(SrcChannelIdAttribute(v)),
            Err(e) => Err(e),
        }
    }
}

impl core::str::FromStr for SrcChannelIdAttribute {
    type Err = DecodingError;

    fn from_str(text: &str) -> Result<SrcChannelIdAttribute, DecodingError> {
        SrcChannelIdAttribute::parse(text)
    }
}

/// Reads the attribute from an ABCI attribute: the key must be this
/// attribute's, and the value is read as `parse` reads it.
impl TryFrom<EventAttribute> for SrcChannelIdAttribute {
    type Error = DecodingError;

    fn try_from(attribute: EventAttribute) -> (r: Result<SrcChannelIdAttribute, DecodingError>)
        ensures
            attribute@.0 != SrcChannelIdAttribute::ATTRIBUTE_KEY@ ==> (r matches Err(
                DecodingError::MismatchedResourceName { expected, actual },
            ) && expected@ == SrcChannelIdAttribute::ATTRIBUTE_KEY@ && actual@ == attribute@.0),
            r is Ok <==> attribute@.0 == SrcChannelIdAttribute::ATTRIBUTE_KEY@
                && <ChannelId as AttributeValue>::accepts(attribute@.1),
            r matches Ok(a) ==> a@.event_value() == <ChannelId as AttributeValue>::normal_form(attribute@.1),
            forall|x: SrcChannelIdAttribute|
                #[trigger] x.attribute_view() == attribute@ && reads_back(x@) ==> (r matches Ok(y)
                    && y.attribute_view() == x.attribute_view()),
            forall|x: SrcChannelIdAttribute|
                #[trigger] x.attribute_view() == attribute@ && reads_back(x@) && x@.canonical() ==> (
                r matches Ok(y) && y@.same_value(x@)),
    {
        let expected = String::from_str(SrcChannelIdAttribute::ATTRIBUTE_KEY);
        if !(attribute.key == expected) {
            return Err(DecodingError::MismatchedResourceName { expected, actual: attribute.key });
        }
        let r = SrcChannelIdAttribute::parse(attribute.value.as_str());
        proof {
            assert forall|x: SrcChannelIdAttribute|
                #[trigger] x.attribute_view() == attribute@ && reads_back(x@) && x@.canonical()
                implies r matches Ok(y) && y@.same_value(x@) by {
                <ChannelId as AttributeValue>::lemma_spelling_injective(r->Ok_0@, x@);
            }
        }
        r
    }
}

impl vstd::std_specs::convert::TryFromSpecImpl<EventAttribute> for SrcChannelIdAttribute {
    open spec fn obeys_try_from_spec() -> bool {
        false
    }

    open spec fn try_from_spec(v: EventAttribute) -> Result<SrcChannelIdAttribute, DecodingError> {
        arbitrary()
    }
}

impl View for SrcChannelIdAttribute {
    type V = ChannelId;

    open spec fn view(&self) -> ChannelId {
        self.0
    }
}

impl Newtype for SrcChannelIdAttribute {
    type Inner = ChannelId;
}

impl From<ChannelId> for SrcChannelIdAttribute {
    fn from(inner: ChannelId) -> (r: SrcChannelIdAttribute) {
        SrcChannelIdAttribute(inner)
    }
}

impl vstd::std_specs::convert::FromSpecImpl<ChannelId> for SrcChannelIdAttribute {
    open spec fn obeys_from_spec() -> bool {
        true
    }

    open spec fn from_spec(v: ChannelId) -> SrcChannelIdAttribute {
        SrcChannelIdAttribute(v)
    }
}

impl From<SrcChannelIdAttribute> for ChannelId {
    fn from(attribute: SrcChannelIdAttribute) -> (r: ChannelId) {
        attribute.0
    }
}

impl vstd::std_specs::convert::FromSpecImpl<SrcChannelIdAttribute> for ChannelId {
    open spec fn obeys_from_spec() -> bool {
        true
    }

    open spec fn from_spec(v: SrcChannelIdAttribute) -> ChannelId {
        v@
    }
}

/// The attribute as an ABCI attribute: its key and its value spelled out,
/// not indexed. A spec function cannot build the strings of an
/// `EventAttribute`, so `from` states its result in its own `ensures`.
impl From<SrcChannelIdAttribute> for EventAttribute {
    fn from(attribute: SrcChannelIdAttribute) -> (r: EventAttribute)
        ensures
            r@ == attribute.attribute_view(),
    {
        let value = attribute.0.to_event_value();
        EventAttribute::new(SrcChannelIdAttribute::ATTRIBUTE_KEY, value, false)
    }
}

impl vstd::std_specs::convert::FromSpecImpl<SrcChannelIdAttribute> for EventAttribute {
    open spec fn obeys_from_spec() -> bool {
        false
    }

    open spec fn from_spec(v: SrcChannelIdAttribute) -> EventAttribute {
        arbitrary()
    }
}

/// The `packet_dst_port` attribute: the port the packet is sent to.
#[derive(Clone, Debug, PartialEq, Eq)]
pub struct DstPortIdAttribute(pub PortId);

impl DstPortIdAttribute {
    /// The key of this attribute in an ABCI event.
    pub const ATTRIBUTE_KEY: &'static str = "packet_dst_port";

    /// How errors name this attribute.
    pub const FRIENDLY_NAME: &'static str = "packet destination port ID";

    /// The attribute holding `value`.
    pub fn new(value: PortId) -> (r: DstPortIdAttribute)
        ensures
            r@ == value,
    {
        DstPortIdAttribute(value)
    }

    /// The value held.
    pub fn value(&self) -> (r: &PortId)
        ensures
            *r == self@,
    {
        &self.0
    }

    /// The ABCI attribute that this attribute becomes: its key, its value
    /// spelled out, not indexed.
    pub open spec fn attribute_view(self) -> (Seq<char>, Seq<char>, bool) {
        (Self::ATTRIBUTE_KEY@, self@.event_value(), false)
    }

    /// Reads the attribute from the text of its value.
    pub fn parse(text: &str) -> (r: Result<DstPortIdAttribute, DecodingError>)
        ensures
            r is Ok <==> <PortId as AttributeValue>::accepts(text@),
            r matches Ok(a) ==> a@.event_value() == <PortId as AttributeValue>::normal_form(text@),
            r matches Ok(a) ==> a@.canonical(),
    {
        match <PortId as AttributeValue>::parse_event_value(text) {
            Ok(v) => Ok(DstPortIdAttribute(v)),
            Err(e) => Err(e),
        }
    }
}

impl core::str::FromStr for DstPortIdAttribute {
    type Err = DecodingError;

    fn from_str(text: &str) -> Result<DstPortIdAttribute, DecodingError> {
        DstPortIdAttribute::parse(text)
    }
}

/// Reads the attribute from an ABCI attribute: the key must be this
/// attribute's, and the value is read as `parse` reads it.
impl TryFrom<EventAttribute> for DstPortIdAttribute {
    type Error = DecodingError;

    fn try_from(attribute: EventAttribute) -> (r: Result<DstPortIdAttribute, DecodingError>)
        ensures
            attribute@.0 != DstPortIdAttribute::ATTRIBUTE_KEY@ ==> (r matches Err(
                DecodingError::MismatchedResourceName { expected, actual },
            ) && expected@ == DstPortIdAttribute::ATTRIBUTE_KEY@ && actual@ == attribute@.0),
            r is Ok <==> attribute@.0 == DstPortIdAttribute::ATTRIBUTE_KEY@
                && <PortId as AttributeValue>::accepts(attribute@.1),
            r matches Ok(a) ==> a@.event_value() == <PortId as AttributeValue>::normal_form(attribute@.1),
            forall|x: DstPortIdAttribute|
                #[trigger] x.attribute_view() == attribute@ && reads_back(x@) ==> (r matches Ok(y)
                    && y.attribute_view() == x.attribute_view()),
            forall|x: DstPortIdAttribute|
                #[trigger] x.attribute_view() == attribute@ && reads_back(x@) && x@.canonical() ==> (
                r matches Ok(y) && y@.same_value(x@)),
    {
        let expected = String::from_str(DstPortIdAttribute::ATTRIBUTE_KEY);
        if !(attribute.key == expected) {
            return Err(DecodingError::MismatchedResourceName { expected, actual: attribute.key });
        }
        let r = DstPortIdAttribute::parse(attribute.value.as_str());
        proof {
            assert forall|x: DstPortIdAttribute|
                #[trigger] x.attribute_view() == attribute@ && reads_back(x@) && x@.canonical()
                implies r matches Ok(y) && y@.same_value(x@) by {
                <PortId as AttributeValue>::lemma_spelling_injective(r->Ok_0@, x@);
            }
        }
        r
    }
}

impl vstd::std_specs::convert::TryFromSpecImpl<EventAttribute> for DstPortIdAttribute {
    open spec fn obeys_try_from_spec() -> bool {
        false
    }

    open spec fn try_from_spec(v: EventAttribute) -> Result<DstPortIdAttribute, DecodingError> {
        arbitrary()
    }
}

impl View for DstPortIdAttribute {
    type V = PortId;

    open spec fn view(&self) -> PortId {
        self.0
    }
}

impl Newtype for DstPortIdAttribute {
    type Inner = PortId;
}

impl From<PortId> for DstPortIdAttribute {
    fn from(inner: PortId) -> (r: DstPortIdAttribute) {
        DstPortIdAttribute(inner)
    }
}

impl vstd::std_specs::convert::FromSpecImpl<PortId> for DstPortIdAttribute {
    open spec fn obeys_from_spec() -> bool {
        true
    }

    open spec fn from_spec(v: PortId) -> DstPortIdAttribute {
        DstPortIdAttribute(v)
    }
}

impl From<DstPortIdAttribute> for PortId {
    fn from(attribute: DstPortIdAttribute) -> (r: PortId) {
        attribute.0
    }
}

impl vstd::std_specs::convert::FromSpecImpl<DstPortIdAttribute> for PortId {
    open spec fn obeys_from_spec() -> bool {
        true
    }

    open spec fn from_spec(v: DstPortIdAttribute) -> PortId {
        v@
    }
}

/// The attribute as an ABCI attribute: its key and its value spelled out,
/// not indexed. A spec function cannot build the strings of an
/// `EventAttribute`, so `from` states its result in its own `ensures`.
impl From<DstPortIdAttribute> for EventAttribute {
    fn from(attribute: DstPortIdAttribute) -> (r: EventAttribute)
        ensures
            r@ == attribute.attribute_view(),
    {
        let value = attribute.0.to_event_value();
        EventAttribute::new(DstPortIdAttribute::ATTRIBUTE_KEY, value, false)
    }
}

impl vstd::std_specs::convert::FromSpecImpl<DstPortIdAttribute> for EventAttribute {
    open spec fn obeys_from_spec() -> bool {
        false
    }

    open spec fn from_spec(v: DstPortIdAttribute) -> EventAttribute {
        arbitrary()
    }
}

/// The `packet_dst_channel` attribute: the channel the packet is received on.
#[derive(Clone, Debug, PartialEq, Eq)]
pub struct DstChannelIdAttribute(pub ChannelId);

impl DstChannelIdAttribute {
    /// The key of this attribute in an ABCI event.
    pub const ATTRIBUTE_KEY: &'static str = "packet_dst_channel";

    /// How errors name this attribute.
    pub const FRIENDLY_NAME: &'static str = "packet destination channel ID";

    /// The attribute holding `value`.
    pub fn new(value: ChannelId) -> (r: DstChannelIdAttribute)
        ensures
            r@ == value,
    {
        DstChannelIdAttribute(value)
    }

    /// The value held.
    pub fn value(&self) -> (r: &ChannelId)
        ensures
            *r == self@,
    {
        &self.0
    }

    /// The ABCI attribute that this attribute becomes: its key, its value
    /// spelled out, not indexed.
    pub open spec fn attribute_view(self) -> (Seq<char>, Seq<char>, bool) {
        (Self::ATTRIBUTE_KEY@, self@.event_value(), false)
    }

    /// Reads the attribute from the text of its value.
    pub fn parse(text: &str) -> (r: Result<DstChannelIdAttribute, DecodingError>)
        ensures
            r is Ok <==> <ChannelId as AttributeValue>::accepts(text@),
            r matches Ok(a) ==> a@.event_value() == <ChannelId as AttributeValue>::normal_form(text@),
            r matches Ok(a) ==> a@.canonical(),
    {
        match <ChannelId as AttributeValue>::parse_event_value(text) {
            Ok(v) => Ok(DstChannelIdAttribute(v)),
            Err(e) => Err(e),
        }
    }
}

impl core::str::FromStr for DstChannelIdAttribute {
    type Err = DecodingError;

    fn from_str(text: &str) -> Result<DstChannelIdAttribute, DecodingError> {
        DstChannelIdAttribute::parse(text)
    }
}

/// Reads the attribute from an ABCI attribute: the key must be this
/// attribute's, and the value is read as `parse` reads it.
impl TryFrom<EventAttribute> for DstChannelIdAttribute {
    type Error = DecodingError;

    fn try_from(attribute: EventAttribute) -> (r: Result<DstChannelIdAttribute, DecodingError>)
        ensures
            attribute@.0 != DstChannelIdAttribute::ATTRIBUTE_KEY@ ==> (r matches Err(
                DecodingError::MismatchedResourceName { expected, actual },
            ) && expected@ == DstChannelIdAttribute::ATTRIBUTE_KEY@ && actual@ == attribute@.0),
            r is Ok <==> attribute@.0 == DstChannelIdAttribute::ATTRIBUTE_KEY@
                && <ChannelId as AttributeValue>::accepts(attribute@.1),
            r matches Ok(a) ==> a@.event_value() == <ChannelId as AttributeValue>::normal_form(attribute@.1),
            forall|x: DstChannelIdAttribute|
                #[trigger] x.attribute_view() == attribute@ && reads_back(x@) ==> (r matches Ok(y)
                    && y.attribute_view() == x.attribute_view()),
            forall|x: DstChannelIdAttribute|
                #[trigger] x.attribute_view() == attribute@ && reads_back(x@) && x@.canonical() ==> (
                r matches Ok(y) && y@.same_value(x@)),
    {
        let expected = String::from_str(DstChannelIdAttribute::ATTRIBUTE_KEY);
        if !(attribute.key == expected) {
            return Err(DecodingError::MismatchedResourceName { expected, actual: attribute.key });
        }
        let r = DstChannelIdAttribute::parse(attribute.value.as_str());
        proof {
            assert forall|x: DstChannelIdAttribute|
                #[trigger] x.attribute_view() == attribute@ && reads_back(x@) && x@.canonical()
                implies r matches Ok(y) && y@.same_value(x@) by {
                <ChannelId as AttributeValue>::lemma_spelling_injective(r->Ok_0@, x@);
            }
        }
        r
    }
}

impl vstd::std_specs::convert::TryFromSpecImpl<EventAttribute> for DstChannelIdAttribute {
    open spec fn obeys_try_from_spec() -> bool {
        false
    }

    open spec fn try_from_spec(v: EventAttribute) -> Result<DstChannelIdAttribute, DecodingError> {
        arbitrary()
    }
}

impl View for DstChannelIdAttribute {
    type V = ChannelId;

    open spec fn view(&self) -> ChannelId {
        self.0
    }
}

impl Newtype for DstChannelIdAttribute {
    type Inner = ChannelId;
}

impl From<ChannelId> for DstChannelIdAttribute {
    fn from(inner: ChannelId) -> (r: DstChannelIdAttribute) {
        DstChannelIdAttribute(inner)
    }
}

impl vstd::std_specs::convert::FromSpecImpl<ChannelId> for DstChannelIdAttribute {
    open spec fn obeys_from_spec() -> bool {
        true
    }

    open spec fn from_spec(v: ChannelId) -> DstChannelIdAttribute {
        DstChannelIdAttribute(v)
    }
}

impl From<DstChannelIdAttribute> for ChannelId {
    fn from(attribute: DstChannelIdAttribute) -> (r: ChannelId) {
        attribute.0
    }
}

impl vstd::std_specs::convert::FromSpecImpl<DstChannelIdAttribute> for ChannelId {
    open spec fn obeys_from_spec() -> bool {
        true
    }

    open spec fn from_spec(v: DstChannelIdAttribute) -> ChannelId {
        v@
    }
}

/// The attribute as an ABCI attribute: its key and its value spelled out,
/// not indexed. A spec function cannot build the strings of an
/// `EventAttribute`, so `from` states its result in its own `ensures`.
impl From<DstChannelIdAttribute> for EventAttribute {
    fn from(attribute: DstChannelIdAttribute) -> (r: EventAttribute)
        ensures
            r@ == attribute.attribute_view(),
    {
        let value = attribute.0.to_event_value();
        EventAttribute::new(DstChannelIdAttribute::ATTRIBUTE_KEY, value, false)
    }
}

impl vstd::std_specs::convert::FromSpecImpl<DstChannelIdAttribute> for EventAttribute {
    open spec fn obeys_from_spec() -> bool {
        false
    }

    open spec fn from_spec(v: DstChannelIdAttribute) -> EventAttribute {
        arbitrary()
    }
}

/// The `packet_channel_ordering` attribute: the ordering of the channel.
#[derive(Clone, Debug, PartialEq, Eq)]
pub struct ChannelOrderingAttribute(pub Order);

impl ChannelOrderingAttribute {
    /// The key of this attribute in an ABCI event.
    pub const ATTRIBUTE_KEY: &'static str = "packet_channel_ordering";

    /// How errors name this attribute.
    pub const FRIENDLY_NAME: &'static str = "packet destination channel ID";

    /// The attribute holding `value`.
    pub fn new(value: Order) -> (r: ChannelOrderingAttribute)
        ensures
            r@ == value,
    {
        ChannelOrderingAttribute(value)
    }

    /// The value held.
    pub fn value(&self) -> (r: &Order)
        ensures
            *r == self@,
    {
        &self.0
    }

    /// The ABCI attribute that this attribute becomes: its key, its value
    /// spelled out, not indexed.
    pub open spec fn attribute_view(self) -> (Seq<char>, Seq<char>, bool) {
        (Self::ATTRIBUTE_KEY@, self@.event_value(), false)
    }

    /// Reads the attribute from the text of its value.
    pub fn parse(text: &str) -> (r: Result<ChannelOrderingAttribute, DecodingError>)
        ensures
            r is Ok <==> <Order as AttributeValue>::accepts(text@),
            r matches Ok(a) ==> a@.event_value() == <Order as AttributeValue>::normal_form(text@),
            r matches Ok(a) ==> a@.canonical(),
    {
        match <Order as AttributeValue>::parse_event_value(text) {
            Ok(v) => Ok(ChannelOrderingAttribute(v)),
            Err(e) => Err(e),
        }
    }
}

impl core::str::FromStr for ChannelOrderingAttribute {
    type Err = DecodingError;

    fn from_str(text: &str) -> Result<ChannelOrderingAttribute, DecodingError> {
        ChannelOrderingAttribute::parse(text)
    }
}

/// Reads the attribute from an ABCI attribute: the key must be this
/// attribute's, and the value is read as `parse` reads it.
impl TryFrom<EventAttribute> for ChannelOrderingAttribute {
    type Error = DecodingError;

    fn try_from(attribute: EventAttribute) -> (r: Result<ChannelOrderingAttribute, DecodingError>)
        ensures
            attribute@.0 != ChannelOrderingAttribute::ATTRIBUTE_KEY@ ==> (r matches Err(
                DecodingError::MismatchedResourceName { expected, actual },
            ) && expected@ == ChannelOrderingAttribute::ATTRIBUTE_KEY@ && actual@ == attribute@.0),
            r is Ok <==> attribute@.0 == ChannelOrderingAttribute::ATTRIBUTE_KEY@
                && <Order as AttributeValue>::accepts(attribute@.1),
            r matches Ok(a) ==> a@.event_value() == <Order as AttributeValue>::normal_form(attribute@.1),
            forall|x: ChannelOrderingAttribute|
                #[trigger] x.attribute_view() == attribute@ && reads_back(x@) ==> (r matches Ok(y)
                    && y.attribute_view() == x.attribute_view()),
            forall|x: ChannelOrderingAttribute|
                #[trigger] x.attribute_view() == attribute@ && reads_back(x@) && x@.canonical() ==> (
                r matches Ok(y) && y@.same_value(x@)),
    {
        let expected = String::from_str(ChannelOrderingAttribute::ATTRIBUTE_KEY);
        if !(attribute.key == expected) {
            return Err(DecodingError::MismatchedResourceName { expected, actual: attribute.key });
        }
        let r = ChannelOrderingAttribute::parse(attribute.value.as_str());
        proof {
            assert forall|x: ChannelOrderingAttribute|
                #[trigger] x.attribute_view() == attribute@ && reads_back(x@) && x@.canonical()
                implies r matches Ok(y) && y@.same_value(x@) by {
                <Order as AttributeValue>::lemma_spelling_injective(r->Ok_0@, x@);
            }
        }
        r
    }
}

impl vstd::std_specs::convert::TryFromSpecImpl<EventAttribute> for ChannelOrderingAttribute {
    open spec fn obeys_try_from_spec() -> bool {
        false
    }

    open spec fn try_from_spec(v: EventAttribute) -> Result<ChannelOrderingAttribute, DecodingError> {
        arbitrary()
    }
}

impl View for ChannelOrderingAttribute {
    type V = Order;

    open spec fn view(&self) -> Order {
        self.0
    }
}

impl Newtype for ChannelOrderingAttribute {
    type Inner = Order;
}

impl From<Order> for ChannelOrderingAttribute {
    fn from(inner: Order) -> (r: ChannelOrderingAttribute) {
        ChannelOrderingAttribute(inner)
    }
}

impl vstd::std_specs::convert::FromSpecImpl<Order> for ChannelOrderingAttribute {
    open spec fn obeys_from_spec() -> bool {
        true
    }

    open spec fn from_spec(v: Order) -> ChannelOrderingAttribute {
        ChannelOrderingAttribute(v)
    }
}

impl From<ChannelOrderingAttribute> for Order {
    fn from(attribute: ChannelOrderingAttribute) -> (r: Order) {
        attribute.0
    }
}

impl vstd::std_specs::convert::FromSpecImpl<ChannelOrderingAttribute> for Order {
    open spec fn obeys_from_spec() -> bool {
        true
    }

    open spec fn from_spec(v: ChannelOrderingAttribute) -> Order {
        v@
    }
}

/// The attribute as an ABCI attribute: its key and its value spelled out,
/// not indexed. A spec function cannot build the strings of an
/// `EventAttribute`, so `from` states its result in its own `ensures`.
impl From<ChannelOrderingAttribute> for EventAttribute {
    fn from(attribute: ChannelOrderingAttribute) -> (r: EventAttribute)
        ensures
            r@ == attribute.attribute_view(),
    {
        let value = attribute.0.to_event_value();
        EventAttribute::new(ChannelOrderingAttribute::ATTRIBUTE_KEY, value, false)
    }
}

impl vstd::std_specs::convert::FromSpecImpl<ChannelOrderingAttribute> for EventAttribute {
    open spec fn obeys_from_spec() -> bool {
        false
    }

    open spec fn from_spec(v: ChannelOrderingAttribute) -> EventAttribute {
        arbitrary()
    }
}

/// The `packet_timeout_height` attribute: the height at which the packet times out.
#[derive(Clone, Debug, PartialEq, Eq)]
pub struct TimeoutHeightAttribute(pub TimeoutHeight);

impl TimeoutHeightAttribute {
    /// The key of this attribute in an ABCI event.
    pub const ATTRIBUTE_KEY: &'static str = "packet_timeout_height";

    /// How errors name this attribute.
    pub const FRIENDLY_NAME: &'static str = "packet timeout height";

    /// The attribute holding `value`.
    pub fn new(value: TimeoutHeight) -> (r: TimeoutHeightAttribute)
        ensures
            r@ == value,
    {
        TimeoutHeightAttribute(value)
    }

    /// The value held.
    pub fn value(&self) -> (r: &TimeoutHeight)
        ensures
            *r == self@,
    {
        &self.0
    }

    /// The ABCI attribute that this attribute becomes: its key, its value
    /// spelled out, not indexed.
    pub open spec fn attribute_view(self) -> (Seq<char>, Seq<char>, bool) {
        (Self::ATTRIBUTE_KEY@, self@.event_value(), false)
    }

    /// Reads the attribute from the text of its value.
    pub fn parse(text: &str) -> (r: Result<TimeoutHeightAttribute, DecodingError>)
        ensures
            r is Ok <==> <TimeoutHeight as AttributeValue>::accepts(text@),
            r matches Ok(a) ==> a@.event_value() == <TimeoutHeight as AttributeValue>::normal_form(text@),
            r matches Ok(a) ==> a@.canonical(),
    {
        match <TimeoutHeight as AttributeValue>::parse_event_value(text) {
            Ok(v) => Ok(TimeoutHeightAttribute(v)),
            Err(e) => Err(e),
        }
    }
}

impl core::str::FromStr for TimeoutHeightAttribute {
    type Err = DecodingError;

    fn from_str(text: &str) -> Result<TimeoutHeightAttribute, DecodingError> {
        TimeoutHeightAttribute::parse(text)
    }
}

/// Reads the attribute from an ABCI attribute: the key must be this
/// attribute's, and the value is read as `parse` reads it.
impl TryFrom<EventAttribute> for TimeoutHeightAttribute {
    type Error = DecodingError;

    fn try_from(attribute: EventAttribute) -> (r: Result<TimeoutHeightAttribute, DecodingError>)
        ensures
            attribute@.0 != TimeoutHeightAttribute::ATTRIBUTE_KEY@ ==> (r matches Err(
                DecodingError::MismatchedResourceName { expected, actual },
            ) && expected@ == TimeoutHeightAttribute::ATTRIBUTE_KEY@ && actual@ == attribute@.0),
            r is Ok <==> attribute@.0 == TimeoutHeightAttribute::ATTRIBUTE_KEY@
                && <TimeoutHeight as AttributeValue>::accepts(attribute@.1),
            r matches Ok(a) ==> a@.event_value() == <TimeoutHeight as AttributeValue>::normal_form(attribute@.1),
            forall|x: TimeoutHeightAttribute|
                #[trigger] x.attribute_view() == attribute@ && reads_back(x@) ==> (r matches Ok(y)
                    && y.attribute_view() == x.attribute_view()),
            forall|x: TimeoutHeightAttribute|
                #[trigger] x.attribute_view() == attribute@ && reads_back(x@) && x@.canonical() ==> (
                r matches Ok(y) && y@.same_value(x@)),
    {
        let expected = String::from_str(TimeoutHeightAttribute::ATTRIBUTE_KEY);
        if !(attribute.key == expected) {
            return Err(DecodingError::MismatchedResourceName { expected, actual: attribute.key });
        }
        let r = TimeoutHeightAttribute::parse(attribute.value.as_str());
        proof {
            assert forall|x: TimeoutHeightAttribute|
                #[trigger] x.attribute_view() == attribute@ && reads_back(x@) && x@.canonical()
                implies r matches Ok(y) && y@.same_value(x@) by {
                <TimeoutHeight as AttributeValue>::lemma_spelling_injective(r->Ok_0@, x@);
            }
        }
        r
    }
}

impl vstd::std_specs::convert::TryFromSpecImpl<EventAttribute> for TimeoutHeightAttribute {
    open spec fn obeys_try_from_spec() -> bool {
        false
    }

    open spec fn try_from_spec(v: EventAttribute) -> Result<TimeoutHeightAttribute, DecodingError> {
        arbitrary()
    }
}

impl View for TimeoutHeightAttribute {
    type V = TimeoutHeight;

    open spec fn view(&self) -> TimeoutHeight {
        self.0
    }
}

impl Newtype for TimeoutHeightAttribute {
    type Inner = TimeoutHeight;
}

impl From<TimeoutHeight> for TimeoutHeightAttribute {
    fn from(inner: TimeoutHeight) -> (r: TimeoutHeightAttribute) {
        TimeoutHeightAttribute(inner)
    }
}

impl vstd::std_specs::convert::FromSpecImpl<TimeoutHeight> for TimeoutHeightAttribute {
    open spec fn obeys_from_spec() -> bool {
        true
    }

    open spec fn from_spec(v: TimeoutHeight) -> TimeoutHeightAttribute {
        TimeoutHeightAttribute(v)
    }
}

impl From<TimeoutHeightAttribute> for TimeoutHeight {
    fn from(attribute: TimeoutHeightAttribute) -> (r: TimeoutHeight) {
        attribute.0
    }
}

impl vstd::std_specs::convert::FromSpecImpl<TimeoutHeightAttribute> for TimeoutHeight {
    open spec fn obeys_from_spec() -> bool {
        true
    }

    open spec fn from_spec(v: TimeoutHeightAttribute) -> TimeoutHeight {
        v@
    }
}

/// The attribute as an ABCI attribute: its key and its value spelled out,
/// not indexed. A spec function cannot build the strings of an
/// `EventAttribute`, so `from` states its result in its own `ensures`.
impl From<TimeoutHeightAttribute> for EventAttribute {
    fn from(attribute: TimeoutHeightAttribute) -> (r: EventAttribute)
        ensures
            r@ == attribute.attribute_view(),
    {
        let value = attribute.0.to_event_value();
        EventAttribute::new(TimeoutHeightAttribute::ATTRIBUTE_KEY, value, false)
    }
}

impl vstd::std_specs::convert::FromSpecImpl<TimeoutHeightAttribute> for EventAttribute {
    open spec fn obeys_from_spec() -> bool {
        false
    }

    open spec fn from_spec(v: TimeoutHeightAttribute) -> EventAttribute {
        arbitrary()
    }
}

/// The `packet_timeout_timestamp` attribute: the time at which the packet times out.
#[derive(Clone, Debug, PartialEq, Eq)]
pub struct TimeoutTimestampAttribute(pub TimeoutTimestamp);

impl TimeoutTimestampAttribute {
    /// The key of this attribute in an ABCI event.
    pub const ATTRIBUTE_KEY: &'static str = "packet_timeout_timestamp";

    /// How errors name this attribute.
    pub const FRIENDLY_NAME: &'static str = "packet timeout timestamp";

    /// The attribute holding `value`.
    pub fn new(value: TimeoutTimestamp) -> (r: TimeoutTimestampAttribute)
        ensures
            r@ == value,
    {
        TimeoutTimestampAttribute(value)
    }

    /// The value held.
    pub fn value(&self) -> (r: &TimeoutTimestamp)
        ensures
            *r == self@,
    {
        &self.0
    }

    /// The ABCI attribute that this attribute becomes: its key, its value
    /// spelled out, not indexed.
    pub open spec fn attribute_view(self) -> (Seq<char>, Seq<char>, bool) {
        (Self::ATTRIBUTE_KEY@, self@.event_value(), false)
    }

    /// Reads the attribute from the text of its value.
    pub fn parse(text: &str) -> (r: Result<TimeoutTimestampAttribute, DecodingError>)
        ensures
            r is Ok <==> <TimeoutTimestamp as AttributeValue>::accepts(text@),
            r matches Ok(a) ==> a@.event_value() == <TimeoutTimestamp as AttributeValue>::normal_form(text@),
            r matches Ok(a) ==> a@.canonical(),
    {
        match <TimeoutTimestamp as AttributeValue>::parse_event_value(text) {
            Ok(v) => Ok(TimeoutTimestampAttribute(v)),
            Err(e) => Err(e),
        }
    }
}

impl core::str::FromStr for TimeoutTimestampAttribute {
    type Err = DecodingError;

    fn from_str(text: &str) -> Result<TimeoutTimestampAttribute, DecodingError> {
        TimeoutTimestampAttribute::parse(text)
    }
}

/// Reads the attribute from an ABCI attribute: the key must be this
/// attribute's, and the value is read as `parse` reads it.
impl TryFrom<EventAttribute> for TimeoutTimestampAttribute {
    type Error = DecodingError;

    fn try_from(attribute: EventAttribute) -> (r: Result<TimeoutTimestampAttribute, DecodingError>)
        ensures
            attribute@.0 != TimeoutTimestampAttribute::ATTRIBUTE_KEY@ ==> (r matches Err(
                DecodingError::MismatchedResourceName { expected, actual },
            ) && expected@ == TimeoutTimestampAttribute::ATTRIBUTE_KEY@ && actual@ == attribute@.0),
            r is Ok <==> attribute@.0 == TimeoutTimestampAttribute::ATTRIBUTE_KEY@
                && <TimeoutTimestamp as AttributeValue>::accepts(attribute@.1),
            r matches Ok(a) ==> a@.event_value() == <TimeoutTimestamp as AttributeValue>::normal_form(attribute@.1),
            forall|x: TimeoutTimestampAttribute|
                #[trigger] x.attribute_view() == attribute@ && reads_back(x@) ==> (r matches Ok(y)
                    && y.attribute_view() == x.attribute_view()),
            forall|x: TimeoutTimestampAttribute|
                #[trigger] x.attribute_view() == attribute@ && reads_back(x@) && x@.canonical() ==> (
                r matches Ok(y) && y@.same_value(x@)),
    {
        let expected = String::from_str(TimeoutTimestampAttribute::ATTRIBUTE_KEY);
        if !(attribute.key == expected) {
            return Err(DecodingError::MismatchedResourceName { expected, actual: attribute.key });
        }
        let r = TimeoutTimestampAttribute::parse(attribute.value.as_str());
        proof {
            assert forall|x: TimeoutTimestampAttribute|
                #[trigger] x.attribute_view() == attribute@ && reads_back(x@) && x@.canonical()
                implies r matches Ok(y) && y@.same_value(x@) by {
                <TimeoutTimestamp as AttributeValue>::lemma_spelling_injective(r->Ok_0@, x@);
            }
        }
        r
    }
}

impl vstd::std_specs::convert::TryFromSpecImpl<EventAttribute> for TimeoutTimestampAttribute {
    open spec fn obeys_try_from_spec() -> bool {
        false
    }

    open spec fn try_from_spec(v: EventAttribute) -> Result<TimeoutTimestampAttribute, DecodingError> {
        arbitrary()
    }
}

impl View for TimeoutTimestampAttribute {
    type V = TimeoutTimestamp;

    open spec fn view(&self) -> TimeoutTimestamp {
        self.0
    }
}

impl Newtype for TimeoutTimestampAttribute {
    type Inner = TimeoutTimestamp;
}

impl From<TimeoutTimestamp> for TimeoutTimestampAttribute {
    fn from(inner: TimeoutTimestamp) -> (r: TimeoutTimestampAttribute) {
        TimeoutTimestampAttribute(inner)
    }
}

impl vstd::std_specs::convert::FromSpecImpl<TimeoutTimestamp> for TimeoutTimestampAttribute {
    open spec fn obeys_from_spec() -> bool {
        true
    }

    open spec fn from_spec(v: TimeoutTimestamp) -> TimeoutTimestampAttribute {
        TimeoutTimestampAttribute(v)
    }
}

impl From<TimeoutTimestampAttribute> for TimeoutTimestamp {
    fn from(attribute: TimeoutTimestampAttribute) -> (r: TimeoutTimestamp) {
        attribute.0
    }
}

impl vstd::std_specs::convert::FromSpecImpl<TimeoutTimestampAttribute> for TimeoutTimestamp {
    open spec fn obeys_from_spec() -> bool {
        true
    }

    open spec fn from_spec(v: TimeoutTimestampAttribute) -> TimeoutTimestamp {
        v@
    }
}

/// The attribute as an ABCI attribute: its key and its value spelled out,
/// not indexed. A spec function cannot build the strings of an
/// `EventAttribute`, so `from` states its result in its own `ensures`.
impl From<TimeoutTimestampAttribute> for EventAttribute {
    fn from(attribute: TimeoutTimestampAttribute) -> (r: EventAttribute)
        ensures
            r@ == attribute.attribute_view(),
    {
        let value = attribute.0.to_event_value();
        EventAttribute::new(TimeoutTimestampAttribute::ATTRIBUTE_KEY, value, false)
    }
}

impl vstd::std_specs::convert::FromSpecImpl<TimeoutTimestampAttribute> for EventAttribute {
    open spec fn obeys_from_spec() -> bool {
        false
    }

    open spec fn from_spec(v: TimeoutTimestampAttribute) -> EventAttribute {
        arbitrary()
    }
}

/// The `packet_ack_hex` attribute: the acknowledgement in hexadecimal.
#[derive(Clone, Debug, PartialEq, Eq)]
pub struct AcknowledgementAttribute(pub Acknowledgement);

impl AcknowledgementAttribute {
    /// The key of this attribute in an ABCI event.
    pub const ATTRIBUTE_KEY: &'static str = "packet_ack_hex";

    /// How errors name this attribute.
    pub const FRIENDLY_NAME: &'static str = "hex-encoded packet acknowledge";

    /// The attribute holding `value`.
    pub fn new(value: Acknowledgement) -> (r: AcknowledgementAttribute)
        ensures
            r@ == value,
    {
        AcknowledgementAttribute(value)
    }

    /// The value held.
    pub fn value(&self) -> (r: &Acknowledgement)
        ensures
            *r == self@,
    {
        &self.0
    }

    /// The ABCI attribute that this attribute becomes: its key, its value
    /// spelled out, not indexed.
    pub open spec fn attribute_view(self) -> (Seq<char>, Seq<char>, bool) {
        (Self::ATTRIBUTE_KEY@, self@.event_value(), false)
    }

    /// Reads the attribute from the text of its value.
    pub fn parse(text: &str) -> (r: Result<AcknowledgementAttribute, DecodingError>)
        ensures
            r is Ok <==> <Acknowledgement as AttributeValue>::accepts(text@),
            r matches Ok(a) ==> a@.event_value() == <Acknowledgement as AttributeValue>::normal_form(text@),
            r matches Ok(a) ==> a@.canonical(),
    {
        match <Acknowledgement as AttributeValue>::parse_event_value(text) {
            Ok(v) => Ok(AcknowledgementAttribute(v)),
            Err(e) => Err(e),
        }
    }
}

impl core::str::FromStr for AcknowledgementAttribute {
    type Err = DecodingError;

    fn from_str(text: &str) -> Result<AcknowledgementAttribute, DecodingError> {
        AcknowledgementAttribute::parse(text)
    }
}

/// Reads the attribute from an ABCI attribute: the key must be this
/// attribute's, and the value is read as `parse` reads it.
impl TryFrom<EventAttribute> for AcknowledgementAttribute {
    type Error = DecodingError;

    fn try_from(attribute: EventAttribute) -> (r: Result<AcknowledgementAttribute, DecodingError>)
        ensures
            attribute@.0 != AcknowledgementAttribute::ATTRIBUTE_KEY@ ==> (r matches Err(
                DecodingError::MismatchedResourceName { expected, actual },
            ) && expected@ == AcknowledgementAttribute::ATTRIBUTE_KEY@ && actual@ == attribute@.0),
            r is Ok <==> attribute@.0 == AcknowledgementAttribute::ATTRIBUTE_KEY@
                && <Acknowledgement as AttributeValue>::accepts(attribute@.1),
            r matches Ok(a) ==> a@.event_value() == <Acknowledgement as AttributeValue>::normal_form(attribute@.1),
            forall|x: AcknowledgementAttribute|
                #[trigger] x.attribute_view() == attribute@ && reads_back(x@) ==> (r matches Ok(y)
                    && y.attribute_view() == x.attribute_view()),
            forall|x: AcknowledgementAttribute|
                #[trigger] x.attribute_view() == attribute@ && reads_back(x@) && x@.canonical() ==> (
                r matches Ok(y) && y@.same_value(x@)),
    {
        let expected = String::from_str(AcknowledgementAttribute::ATTRIBUTE_KEY);
        if !(attribute.key == expected) {
            return Err(DecodingError::MismatchedResourceName { expected, actual: attribute.key });
        }
        let r = AcknowledgementAttribute::parse(attribute.value.as_str());
        proof {
            assert forall|x: AcknowledgementAttribute|
                #[trigger] x.attribute_view() == attribute@ && reads_back(x@) && x@.canonical()
                implies r matches Ok(y) && y@.same_value(x@) by {
                <Acknowledgement as AttributeValue>::lemma_spelling_injective(r->Ok_0@, x@);
            }
        }
        r
    }
}

impl vstd::std_specs::convert::TryFromSpecImpl<EventAttribute> for AcknowledgementAttribute {
    open spec fn obeys_try_from_spec() -> bool {
        false
    }

    open spec fn try_from_spec(v: EventAttribute) -> Result<AcknowledgementAttribute, DecodingError> {
        arbitrary()
    }
}

impl View for AcknowledgementAttribute {
    type V = Acknowledgement;

    open spec fn view(&self) -> Acknowledgement {
        self.0
    }
}

impl Newtype for AcknowledgementAttribute {
    type Inner = Acknowledgement;
}

impl From<Acknowledgement> for AcknowledgementAttribute {
    fn from(inner: Acknowledgement) -> (r: AcknowledgementAttribute) {
        AcknowledgementAttribute(inner)
    }
}

impl vstd::std_specs::convert::FromSpecImpl<Acknowledgement> for AcknowledgementAttribute {
    open spec fn obeys_from_spec() -> bool {
        true
    }

    open spec fn from_spec(v: Acknowledgement) -> AcknowledgementAttribute {
        AcknowledgementAttribute(v)
    }
}

impl From<AcknowledgementAttribute> for Acknowledgement {
    fn from(attribute: AcknowledgementAttribute) -> (r: Acknowledgement) {
        attribute.0
    }
}

impl vstd::std_specs::convert::FromSpecImpl<AcknowledgementAttribute> for Acknowledgement {
    open spec fn obeys_from_spec() -> bool {
        true
    }

    open spec fn from_spec(v: AcknowledgementAttribute) -> Acknowledgement {
        v@
    }
}

/// The attribute as an ABCI attribute: its key and its value spelled out,
/// not indexed. A spec function cannot build the strings of an
/// `EventAttribute`, so `from` states its result in its own `ensures`.
impl From<AcknowledgementAttribute> for EventAttribute {
    fn from(attribute: AcknowledgementAttribute) -> (r: EventAttribute)
        ensures
            r@ == attribute.attribute_view(),
    {
        let value = attribute.0.to_event_value();
        EventAttribute::new(AcknowledgementAttribute::ATTRIBUTE_KEY, value, false)
    }
}

impl vstd::std_specs::convert::FromSpecImpl<AcknowledgementAttribute> for EventAttribute {
    open spec fn obeys_from_spec() -> bool {
        false
    }

    open spec fn from_spec(v: AcknowledgementAttribute) -> EventAttribute {
        arbitrary()
    }
}

/// The `connection_id` attribute: the connection that carries the packet.
#[derive(Clone, Debug, PartialEq, Eq)]
pub struct PacketConnectionIdAttribute(pub ConnectionId);

impl PacketConnectionIdAttribute {
    /// The key of this attribute in an ABCI event.
    pub const ATTRIBUTE_KEY: &'static str = "connection_id";

    /// How errors name this attribute.
    pub const FRIENDLY_NAME: &'static str = "connection ID";

    /// The attribute holding `value`.
    pub fn new(value: ConnectionId) -> (r: PacketConnectionIdAttribute)
        ensures
            r@ == value,
    {
        PacketConnectionIdAttribute(value)
    }

    /// The value held.
    pub fn value(&self) -> (r: &ConnectionId)
        ensures
            *r == self@,
    {
        &self.0
    }

    /// The ABCI attribute that this attribute becomes: its key, its value
    /// spelled out, not indexed.
    pub open spec fn attribute_view(self) -> (Seq<char>, Seq<char>, bool) {
        (Self::ATTRIBUTE_KEY@, self@.event_value(), false)
    }

    /// Reads the attribute from the text of its value.
    pub fn parse(text: &str) -> (r: Result<PacketConnectionIdAttribute, DecodingError>)
        ensures
            r is Ok <==> <ConnectionId as AttributeValue>::accepts(text@),
            r matches Ok(a) ==> a@.event_value() == <ConnectionId as AttributeValue>::normal_form(text@),
            r matches Ok(a) ==> a@.canonical(),
    {
        match <ConnectionId as AttributeValue>::parse_event_value(text) {
            Ok(v) => Ok(PacketConnectionIdAttribute(v)),
            Err(e) => Err(e),
        }
    }
}

impl core::str::FromStr for PacketConnectionIdAttribute {
    type Err = DecodingError;

    fn from_str(text: &str) -> Result<PacketConnectionIdAttribute, DecodingError> {
        PacketConnectionIdAttribute::parse(text)
    }
}

/// Reads the attribute from an ABCI attribute: the key must be this
/// attribute's, and the value is read as `parse` reads it.
impl TryFrom<EventAttribute> for PacketConnectionIdAttribute {
    type Error = DecodingError;

    fn try_from(attribute: EventAttribute) -> (r: Result<PacketConnectionIdAttribute, DecodingError>)
        ensures
            attribute@.0 != PacketConnectionIdAttribute::ATTRIBUTE_KEY@ ==> (r matches Err(
                DecodingError::MismatchedResourceName { expected, actual },
            ) && expected@ == PacketConnectionIdAttribute::ATTRIBUTE_KEY@ && actual@ == attribute@.0),
            r is Ok <==> attribute@.0 == PacketConnectionIdAttribute::ATTRIBUTE_KEY@
                && <ConnectionId as AttributeValue>::accepts(attribute@.1),
            r matches Ok(a) ==> a@.event_value() == <ConnectionId as AttributeValue>::normal_form(attribute@.1),
            forall|x: PacketConnectionIdAttribute|
                #[trigger] x.attribute_view() == attribute@ && reads_back(x@) ==> (r matches Ok(y)
                    && y.attribute_view() == x.attribute_view()),
            forall|x: PacketConnectionIdAttribute|
                #[trigger] x.attribute_view() == attribute@ && reads_back(x@) && x@.canonical() ==> (
                r matches Ok(y) && y@.same_value(x@)),
    {
        let expected = String::from_str(PacketConnectionIdAttribute::ATTRIBUTE_KEY);
        if !(attribute.key == expected) {
            return Err(DecodingError::MismatchedResourceName { expected, actual: attribute.key });
        }
        let r = PacketConnectionIdAttribute::parse(attribute.value.as_str());
        proof {
            assert forall|x: PacketConnectionIdAttribute|
                #[trigger] x.attribute_view() == attribute@ && reads_back(x@) && x@.canonical()
                implies r matches Ok(y) && y@.same_value(x@) by {
                <ConnectionId as AttributeValue>::lemma_spelling_injective(r->Ok_0@, x@);
            }
        }
        r
    }
}

impl vstd::std_specs::convert::TryFromSpecImpl<EventAttribute> for PacketConnectionIdAttribute {
    open spec fn obeys_try_from_spec() -> bool {
        false
    }

    open spec fn try_from_spec(v: EventAttribute) -> Result<PacketConnectionIdAttribute, DecodingError> {
        arbitrary()
    }
}

impl View for PacketConnectionIdAttribute {
    type V = ConnectionId;

    open spec fn view(&self) -> ConnectionId {
        self.0
    }
}

impl Newtype for PacketConnectionIdAttribute {
    type Inner = ConnectionId;
}

impl From<ConnectionId> for PacketConnectionIdAttribute {
    fn from(inner: ConnectionId) -> (r: PacketConnectionIdAttribute) {
        PacketConnectionIdAttribute(inner)
    }
}

impl vstd::std_specs::convert::FromSpecImpl<ConnectionId> for PacketConnectionIdAttribute {
    open spec fn obeys_from_spec() -> bool {
        true
    }

    open spec fn from_spec(v: ConnectionId) -> PacketConnectionIdAttribute {
        PacketConnectionIdAttribute(v)
    }
}

impl From<PacketConnectionIdAttribute> for ConnectionId {
    fn from(attribute: PacketConnectionIdAttribute) -> (r: ConnectionId) {
        attribute.0
    }
}

impl vstd::std_specs::convert::FromSpecImpl<PacketConnectionIdAttribute> for ConnectionId {
    open spec fn obeys_from_spec() -> bool {
        true
    }

    open spec fn from_spec(v: PacketConnectionIdAttribute) -> ConnectionId {
        v@
    }
}

/// The attribute as an ABCI attribute: its key and its value spelled out,
/// not indexed. A spec function cannot build the strings of an
/// `EventAttribute`, so `from` states its result in its own `ensures`.
impl From<PacketConnectionIdAttribute> for EventAttribute {
    fn from(attribute: PacketConnectionIdAttribute) -> (r: EventAttribute)
        ensures
            r@ == attribute.attribute_view(),
    {
        let value = attribute.0.to_event_value();
        EventAttribute::new(PacketConnectionIdAttribute::ATTRIBUTE_KEY, value, false)
    }
}

impl vstd::std_specs::convert::FromSpecImpl<PacketConnectionIdAttribute> for EventAttribute {
    open spec fn obeys_from_spec() -> bool {
        false
    }

    open spec fn from_spec(v: PacketConnectionIdAttribute) -> EventAttribute {
        arbitrary()
    }
}

/// The `channel_open_init` event: a channel handshake was started.
#[derive(Clone, Debug, PartialEq, Eq)]
pub struct OpenInit {
    pub port_id_on_a: PortIdAttribute,
    pub chan_id_on_a: ChannelIdAttribute,
    pub port_id_on_b: CounterpartyPortIdAttribute,
    pub conn_id_on_a: ConnectionIdAttribute,
    pub version_on_a: VersionAttribute,
}

impl OpenInit {
    /// The kind of this event in ABCI.
    pub const EVENT_KIND: &'static str = "channel_open_init";

    /// The event with the given attribute values.
    pub fn new(port_id_on_a: PortId, chan_id_on_a: ChannelId, port_id_on_b: PortId, conn_id_on_a: ConnectionId, version_on_a: Version) -> (r: OpenInit)
        ensures
            r.port_id_on_a@ == port_id_on_a,
            r.chan_id_on_a@ == chan_id_on_a,
            r.port_id_on_b@ == port_id_on_b,
            r.conn_id_on_a@ == conn_id_on_a,
            r.version_on_a@ == version_on_a,
    {
        OpenInit { port_id_on_a: PortIdAttribute::new(port_id_on_a), chan_id_on_a: ChannelIdAttribute::new(chan_id_on_a), port_id_on_b: CounterpartyPortIdAttribute::new(port_id_on_b), conn_id_on_a: ConnectionIdAttribute::new(conn_id_on_a), version_on_a: VersionAttribute::new(version_on_a) }
    }

    /// The value of the `port_id_on_a` attribute.
    pub fn port_id_on_a(&self) -> (r: &PortId)
        ensures
            *r == self.port_id_on_a@,
    {
        self.port_id_on_a.value()
    }

    /// The value of the `chan_id_on_a` attribute.
    pub fn chan_id_on_a(&self) -> (r: &ChannelId)
        ensures
            *r == self.chan_id_on_a@,
    {
        self.chan_id_on_a.value()
    }

    /// The value of the `port_id_on_b` attribute.
    pub fn port_id_on_b(&self) -> (r: &PortId)
        ensures
            *r == self.port_id_on_b@,
    {
        self.port_id_on_b.value()
    }

    /// The value of the `conn_id_on_a` attribute.
    pub fn conn_id_on_a(&self) -> (r: &ConnectionId)
        ensures
            *r == self.conn_id_on_a@,
    {
        self.conn_id_on_a.value()
    }

    /// The value of the `version_on_a` attribute.
    pub fn version_on_a(&self) -> (r: &Version)
        ensures
            *r == self.version_on_a@,
    {
        self.version_on_a.value()
    }

    /// The ABCI event that this event becomes: its kind, and its
    /// attributes in the order of the fields.
    pub open spec fn abci_view(self) -> (Seq<char>, Seq<(Seq<char>, Seq<char>, bool)>) {
        (Self::EVENT_KIND@, seq![self.port_id_on_a.attribute_view(), self.chan_id_on_a.attribute_view(), self.port_id_on_b.attribute_view(), self.conn_id_on_a.attribute_view(), self.version_on_a.attribute_view()])
    }
}

/// The event as an ABCI event: its kind and its attributes in the order of
/// the fields. A spec function cannot build the strings of an `Event`, so
/// `from` states its result in its own `ensures`.
impl From<OpenInit> for Event {
    fn from(event: OpenInit) -> (r: Event)
        ensures
            r@ == event.abci_view(),
    {
        let ghost view = event.abci_view();
        let attributes = vec![
            EventAttribute::from(event.port_id_on_a),
            EventAttribute::from(event.chan_id_on_a),
            EventAttribute::from(event.port_id_on_b),
            EventAttribute::from(event.conn_id_on_a),
            EventAttribute::from(event.version_on_a),
        ];
        let r = Event { kind: String::from_str(OpenInit::EVENT_KIND), attributes };
        assert(attributes_view(r.attributes@) =~= view.1);
        r
    }
}

impl vstd::std_specs::convert::FromSpecImpl<OpenInit> for Event {
    open spec fn obeys_from_spec() -> bool {
        false
    }

    open spec fn from_spec(v: OpenInit) -> Event {
        arbitrary()
    }
}

impl OpenInit {
    /// Whether the spelling of every attribute value reads back as itself.
    pub open spec fn fields_read_back(self) -> bool {
        &&& reads_back(self.port_id_on_a@)
        &&& reads_back(self.chan_id_on_a@)
        &&& reads_back(self.port_id_on_b@)
        &&& reads_back(self.conn_id_on_a@)
        &&& reads_back(self.version_on_a@)
    }

    /// Whether every attribute value is the one its spelling is read as.
    pub open spec fn fields_canonical(self) -> bool {
        &&& self.port_id_on_a@.canonical()
        &&& self.chan_id_on_a@.canonical()
        &&& self.port_id_on_b@.canonical()
        &&& self.conn_id_on_a@.canonical()
        &&& self.version_on_a@.canonical()
    }

    /// Whether the two events hold the same values, attribute by
    /// attribute.
    pub open spec fn same_values(self, other: OpenInit) -> bool {
        &&& self.port_id_on_a@.same_value(other.port_id_on_a@)
        &&& self.chan_id_on_a@.same_value(other.chan_id_on_a@)
        &&& self.port_id_on_b@.same_value(other.port_id_on_b@)
        &&& self.conn_id_on_a@.same_value(other.conn_id_on_a@)
        &&& self.version_on_a@.same_value(other.version_on_a@)
    }
}

/// Reads the event back from its ABCI form. The kind must be this event's;
/// each attribute of the event must occur once and hold a value of its
/// type, and attributes with other keys are passed over. Where several
/// attributes are wrong, the error is that of the first wrong attribute
/// in the list, and where none is wrong but some are missing, that of the
/// first missing one in the order of the fields.
impl TryFrom<Event> for OpenInit {
    type Error = DecodingError;

    fn try_from(event: Event) -> (r: Result<OpenInit, DecodingError>)
        ensures
            event@.0 != OpenInit::EVENT_KIND@ ==> (r matches Err(
                DecodingError::MismatchedResourceName { expected, actual },
            ) && expected@ == OpenInit::EVENT_KIND@ && actual@ == event@.0),
            r is Ok <==> event@.0 == OpenInit::EVENT_KIND@
                && field_readable::<PortId>(event@.1, PortIdAttribute::ATTRIBUTE_KEY@)
                && field_readable::<ChannelId>(event@.1, ChannelIdAttribute::ATTRIBUTE_KEY@)
                && field_readable::<PortId>(event@.1, CounterpartyPortIdAttribute::ATTRIBUTE_KEY@)
                && field_readable::<ConnectionId>(event@.1, ConnectionIdAttribute::ATTRIBUTE_KEY@)
                && field_readable::<Version>(event@.1, VersionAttribute::ATTRIBUTE_KEY@),
            r matches Ok(e) ==> {
                &&& e.port_id_on_a@.event_value() == <PortId as AttributeValue>::normal_form(
                    first_value(event@.1, PortIdAttribute::ATTRIBUTE_KEY@),
                )
                &&& e.chan_id_on_a@.event_value() == <ChannelId as AttributeValue>::normal_form(
                    first_value(event@.1, ChannelIdAttribute::ATTRIBUTE_KEY@),
                )
                &&& e.port_id_on_b@.event_value() == <PortId as AttributeValue>::normal_form(
                    first_value(event@.1, CounterpartyPortIdAttribute::ATTRIBUTE_KEY@),
                )
                &&& e.conn_id_on_a@.event_value() == <ConnectionId as AttributeValue>::normal_form(
                    first_value(event@.1, ConnectionIdAttribute::ATTRIBUTE_KEY@),
                )
                &&& e.version_on_a@.event_value() == <Version as AttributeValue>::normal_form(
                    first_value(event@.1, VersionAttribute::ATTRIBUTE_KEY@),
                )
            },
            event@.0 == OpenInit::EVENT_KIND@ ==> (r matches Err(e) ==> (e is MissingRawData <==> !(
                field_wrong::<PortId>(event@.1, PortIdAttribute::ATTRIBUTE_KEY@)
                || field_wrong::<ChannelId>(event@.1, ChannelIdAttribute::ATTRIBUTE_KEY@)
                || field_wrong::<PortId>(event@.1, CounterpartyPortIdAttribute::ATTRIBUTE_KEY@)
                || field_wrong::<ConnectionId>(event@.1, ConnectionIdAttribute::ATTRIBUTE_KEY@)
                || field_wrong::<Version>(event@.1, VersionAttribute::ATTRIBUTE_KEY@)))),
            forall|x: OpenInit|
                #[trigger] x.abci_view() == event@ && x.fields_read_back() ==> (r matches Ok(y)
                    && y.abci_view() == x.abci_view()),
            forall|x: OpenInit|
                #[trigger] x.abci_view() == event@ && x.fields_read_back() && x.fields_canonical()
                    ==> (r matches Ok(y) && y.same_values(x)),
    {
        proof {
            assert forall|x: OpenInit| #[trigger] x.abci_view() == event@ && x.fields_read_back()
                implies {
                &&& field_readable::<PortId>(event@.1, PortIdAttribute::ATTRIBUTE_KEY@)
                &&& first_value(event@.1, PortIdAttribute::ATTRIBUTE_KEY@) == x.port_id_on_a@.event_value()
                &&& field_readable::<ChannelId>(event@.1, ChannelIdAttribute::ATTRIBUTE_KEY@)
                &&& first_value(event@.1, ChannelIdAttribute::ATTRIBUTE_KEY@) == x.chan_id_on_a@.event_value()
                &&& field_readable::<PortId>(event@.1, CounterpartyPortIdAttribute::ATTRIBUTE_KEY@)
                &&& first_value(event@.1, CounterpartyPortIdAttribute::ATTRIBUTE_KEY@) == x.port_id_on_b@.event_value()
                &&& field_readable::<ConnectionId>(event@.1, ConnectionIdAttribute::ATTRIBUTE_KEY@)
                &&& first_value(event@.1, ConnectionIdAttribute::ATTRIBUTE_KEY@) == x.conn_id_on_a@.event_value()
                &&& field_readable::<Version>(event@.1, VersionAttribute::ATTRIBUTE_KEY@)
                &&& first_value(event@.1, VersionAttribute::ATTRIBUTE_KEY@) == x.version_on_a@.event_value()
            } by {
                let s = x.abci_view().1;
                reveal_strlit("channel_id");
                reveal_strlit("connection_id");
                reveal_strlit("counterparty_port_id");
                reveal_strlit("port_id");
                reveal_strlit("version");
                assert("port_id"@[0] != "version"@[0]);
                assert(s.take(5) =~= s);
                assert(s.take(5).drop_last() =~= s.take(4));
                assert(s.take(4).drop_last() =~= s.take(3));
                assert(s.take(3).drop_last() =~= s.take(2));
                assert(s.take(2).drop_last() =~= s.take(1));
                assert(s.take(1).drop_last() =~= s.take(0));
                reveal_with_fuel(keys_distinct, 6);
                reveal_with_fuel(key_absent, 6);
                assert(s[0].0 == PortIdAttribute::ATTRIBUTE_KEY@ && s[0].0.len() == 7);
                assert(s[1].0 == ChannelIdAttribute::ATTRIBUTE_KEY@ && s[1].0.len() == 10);
                assert(s[2].0 == CounterpartyPortIdAttribute::ATTRIBUTE_KEY@ && s[2].0.len() == 20);
                assert(s[3].0 == ConnectionIdAttribute::ATTRIBUTE_KEY@ && s[3].0.len() == 13);
                assert(s[4].0 == VersionAttribute::ATTRIBUTE_KEY@ && s[4].0.len() == 7);
                assert(s.take(1).last() == s[0]);
                assert(key_absent(s.take(0), s[0].0));
                assert(keys_distinct(s.take(1)));
                assert(s.take(2).last() == s[1]);
                assert(key_absent(s.take(1), s[1].0));
                assert(keys_distinct(s.take(2)));
                assert(s.take(3).last() == s[2]);
                assert(key_absent(s.take(2), s[2].0));
                assert(keys_distinct(s.take(3)));
                assert(s.take(4).last() == s[3]);
                assert(key_absent(s.take(3), s[3].0));
                assert(keys_distinct(s.take(4)));
                assert(s.take(5).last() == s[4]);
                assert(key_absent(s.take(4), s[4].0));
                assert(keys_distinct(s.take(5)));
                lemma_distinct_keys(s, 0);
                lemma_distinct_keys(s, 1);
                lemma_distinct_keys(s, 2);
                lemma_distinct_keys(s, 3);
                lemma_distinct_keys(s, 4);
                assert(s[0].0 == PortIdAttribute::ATTRIBUTE_KEY@ && s[0].1 == x.port_id_on_a@.event_value());
                assert(s[1].0 == ChannelIdAttribute::ATTRIBUTE_KEY@ && s[1].1 == x.chan_id_on_a@.event_value());
                assert(s[2].0 == CounterpartyPortIdAttribute::ATTRIBUTE_KEY@ && s[2].1 == x.port_id_on_b@.event_value());
                assert(s[3].0 == ConnectionIdAttribute::ATTRIBUTE_KEY@ && s[3].1 == x.conn_id_on_a@.event_value());
                assert(s[4].0 == VersionAttribute::ATTRIBUTE_KEY@ && s[4].1 == x.version_on_a@.event_value());
            }
        }
        let expected = String::from_str(OpenInit::EVENT_KIND);
        if !(event.kind == expected) {
            return Err(DecodingError::MismatchedResourceName { expected, actual: event.kind });
        }
        let mut failure: Option<(usize, DecodingError)> = None;
        let port_id_on_a = match scan_field::<PortId>(
            &event.attributes,
            PortIdAttribute::ATTRIBUTE_KEY,
            PortIdAttribute::FRIENDLY_NAME,
        ) {
            FieldScan::Found(v) => Some(v),
            FieldScan::Missing => None,
            FieldScan::Failed { at, error } => {
                failure = earlier_failure(failure, at, error);
                None
            },
        };
        let chan_id_on_a = match scan_field::<ChannelId>(
            &event.attributes,
            ChannelIdAttribute::ATTRIBUTE_KEY,
            ChannelIdAttribute::FRIENDLY_NAME,
        ) {
            FieldScan::Found(v) => Some(v),
            FieldScan::Missing => None,
            FieldScan::Failed { at, error } => {
                failure = earlier_failure(failure, at, error);
                None
            },
        };
        let port_id_on_b = match scan_field::<PortId>(
            &event.attributes,
            CounterpartyPortIdAttribute::ATTRIBUTE_KEY,
            CounterpartyPortIdAttribute::FRIENDLY_NAME,
        ) {
            FieldScan::Found(v) => Some(v),
            FieldScan::Missing => None,
            FieldScan::Failed { at, error } => {
                failure = earlier_failure(failure, at, error);
                None
            },
        };
        let conn_id_on_a = match scan_field::<ConnectionId>(
            &event.attributes,
            ConnectionIdAttribute::ATTRIBUTE_KEY,
            ConnectionIdAttribute::FRIENDLY_NAME,
        ) {
            FieldScan::Found(v) => Some(v),
            FieldScan::Missing => None,
            FieldScan::Failed { at, error } => {
                failure = earlier_failure(failure, at, error);
                None
            },
        };
        let version_on_a = match scan_field::<Version>(
            &event.attributes,
            VersionAttribute::ATTRIBUTE_KEY,
            VersionAttribute::FRIENDLY_NAME,
        ) {
            FieldScan::Found(v) => Some(v),
            FieldScan::Missing => None,
            FieldScan::Failed { at, error } => {
                failure = earlier_failure(failure, at, error);
                None
            },
        };
        if let Some((_, error)) = failure {
            return Err(error);
        }
        let port_id_on_a = match port_id_on_a {
            Some(v) => PortIdAttribute(v),
            None => {
                return Err(missing_attribute(PortIdAttribute::FRIENDLY_NAME));
            },
        };
        let chan_id_on_a = match chan_id_on_a {
            Some(v) => ChannelIdAttribute(v),
            None => {
                return Err(missing_attribute(ChannelIdAttribute::FRIENDLY_NAME));
            },
        };
        let port_id_on_b = match port_id_on_b {
            Some(v) => CounterpartyPortIdAttribute(v),
            None => {
                return Err(missing_attribute(CounterpartyPortIdAttribute::FRIENDLY_NAME));
            },
        };
        let conn_id_on_a = match conn_id_on_a {
            Some(v) => ConnectionIdAttribute(v),
            None => {
                return Err(missing_attribute(ConnectionIdAttribute::FRIENDLY_NAME));
            },
        };
        let version_on_a = match version_on_a {
            Some(v) => VersionAttribute(v),
            None => {
                return Err(missing_attribute(VersionAttribute::FRIENDLY_NAME));
            },
        };
        let r = OpenInit { port_id_on_a, chan_id_on_a, port_id_on_b, conn_id_on_a, version_on_a };
        proof {
            assert forall|x: OpenInit| #[trigger] x.abci_view() == event@ && x.fields_read_back()
                implies r.abci_view() == x.abci_view() by {
                assert(r.abci_view().1 =~= x.abci_view().1);
            }
            assert forall|x: OpenInit|
                #[trigger] x.abci_view() == event@ && x.fields_read_back() && x.fields_canonical()
                implies r.same_values(x) by {
                <PortId as AttributeValue>::lemma_spelling_injective(r.port_id_on_a@, x.port_id_on_a@);
                <ChannelId as AttributeValue>::lemma_spelling_injective(r.chan_id_on_a@, x.chan_id_on_a@);
                <PortId as AttributeValue>::lemma_spelling_injective(r.port_id_on_b@, x.port_id_on_b@);
                <ConnectionId as AttributeValue>::lemma_spelling_injective(r.conn_id_on_a@, x.conn_id_on_a@);
                <Version as AttributeValue>::lemma_spelling_injective(r.version_on_a@, x.version_on_a@);
            }
        }
        Ok(r)
    }
}

impl vstd::std_specs::convert::TryFromSpecImpl<Event> for OpenInit {
    open spec fn obeys_try_from_spec() -> bool {
        false
    }

    open spec fn try_from_spec(v: Event) -> Result<OpenInit, DecodingError> {
        arbitrary()
    }
}

/// Reads the event from its kind and its attributes given as key-value
/// pairs, as `try_from` reads the ABCI event with those attributes.
impl TryFrom<(String, Vec<(String, String)>)> for OpenInit {
    type Error = DecodingError;

    fn try_from(parts: (String, Vec<(String, String)>)) -> (r: Result<OpenInit, DecodingError>)
        ensures
            parts.0@ != OpenInit::EVENT_KIND@ ==> (r matches Err(
                DecodingError::MismatchedResourceName { expected, actual },
            ) && expected@ == OpenInit::EVENT_KIND@ && actual@ == parts.0@),
            r is Ok <==> parts.0@ == OpenInit::EVENT_KIND@
                && field_readable::<PortId>(pairs_view(parts.1@), PortIdAttribute::ATTRIBUTE_KEY@)
                && field_readable::<ChannelId>(pairs_view(parts.1@), ChannelIdAttribute::ATTRIBUTE_KEY@)
                && field_readable::<PortId>(pairs_view(parts.1@), CounterpartyPortIdAttribute::ATTRIBUTE_KEY@)
                && field_readable::<ConnectionId>(pairs_view(parts.1@), ConnectionIdAttribute::ATTRIBUTE_KEY@)
                && field_readable::<Version>(pairs_view(parts.1@), VersionAttribute::ATTRIBUTE_KEY@),
            r matches Ok(e) ==> {
                &&& e.port_id_on_a@.event_value() == <PortId as AttributeValue>::normal_form(
                    first_value(pairs_view(parts.1@), PortIdAttribute::ATTRIBUTE_KEY@),
                )
                &&& e.chan_id_on_a@.event_value() == <ChannelId as AttributeValue>::normal_form(
                    first_value(pairs_view(parts.1@), ChannelIdAttribute::ATTRIBUTE_KEY@),
                )
                &&& e.port_id_on_b@.event_value() == <PortId as AttributeValue>::normal_form(
                    first_value(pairs_view(parts.1@), CounterpartyPortIdAttribute::ATTRIBUTE_KEY@),
                )
                &&& e.conn_id_on_a@.event_value() == <ConnectionId as AttributeValue>::normal_form(
                    first_value(pairs_view(parts.1@), ConnectionIdAttribute::ATTRIBUTE_KEY@),
                )
                &&& e.version_on_a@.event_value() == <Version as AttributeValue>::normal_form(
                    first_value(pairs_view(parts.1@), VersionAttribute::ATTRIBUTE_KEY@),
                )
            },
            parts.0@ == OpenInit::EVENT_KIND@ ==> (r matches Err(e) ==> (e is MissingRawData <==> !(
                field_wrong::<PortId>(pairs_view(parts.1@), PortIdAttribute::ATTRIBUTE_KEY@)
                || field_wrong::<ChannelId>(pairs_view(parts.1@), ChannelIdAttribute::ATTRIBUTE_KEY@)
                || field_wrong::<PortId>(pairs_view(parts.1@), CounterpartyPortIdAttribute::ATTRIBUTE_KEY@)
                || field_wrong::<ConnectionId>(pairs_view(parts.1@), ConnectionIdAttribute::ATTRIBUTE_KEY@)
                || field_wrong::<Version>(pairs_view(parts.1@), VersionAttribute::ATTRIBUTE_KEY@)))),
            forall|x: OpenInit|
                #[trigger] x.abci_view() == (parts.0@, pairs_view(parts.1@)) && x.fields_read_back() ==> (r matches Ok(y)
                    && y.abci_view() == x.abci_view()),
            forall|x: OpenInit|
                #[trigger] x.abci_view() == (parts.0@, pairs_view(parts.1@)) && x.fields_read_back() && x.fields_canonical()
                    ==> (r matches Ok(y) && y.same_values(x)),
    {
        let (kind, pairs) = parts;
        <OpenInit as TryFrom<Event>>::try_from(Event::from_pairs(kind, pairs))
    }
}

impl vstd::std_specs::convert::TryFromSpecImpl<(String, Vec<(String, String)>)> for OpenInit {
    open spec fn obeys_try_from_spec() -> bool {
        false
    }

    open spec fn try_from_spec(v: (String, Vec<(String, String)>)) -> Result<OpenInit, DecodingError> {
        arbitrary()
    }
}

/// The `channel_open_try` event: the counterparty answered a channel handshake.
#[derive(Clone, Debug, PartialEq, Eq)]
pub struct OpenTry {
    pub port_id_on_b: PortIdAttribute,
    pub chan_id_on_b: ChannelIdAttribute,
    pub port_id_on_a: CounterpartyPortIdAttribute,
    pub chan_id_on_a: CounterpartyChannelIdAttribute,
    pub conn_id_on_b: ConnectionIdAttribute,
    pub version_on_b: VersionAttribute,
}

impl OpenTry {
    /// The kind of this event in ABCI.
    pub const EVENT_KIND: &'static str = "channel_open_try";

    /// The event with the given attribute values.
    pub fn new(port_id_on_b: PortId, chan_id_on_b: ChannelId, port_id_on_a: PortId, chan_id_on_a: ChannelId, conn_id_on_b: ConnectionId, version_on_b: Version) -> (r: OpenTry)
        ensures
            r.port_id_on_b@ == port_id_on_b,
            r.chan_id_on_b@ == chan_id_on_b,
            r.port_id_on_a@ == port_id_on_a,
            r.chan_id_on_a@ == chan_id_on_a,
            r.conn_id_on_b@ == conn_id_on_b,
            r.version_on_b@ == version_on_b,
    {
        OpenTry { port_id_on_b: PortIdAttribute::new(port_id_on_b), chan_id_on_b: ChannelIdAttribute::new(chan_id_on_b), port_id_on_a: CounterpartyPortIdAttribute::new(port_id_on_a), chan_id_on_a: CounterpartyChannelIdAttribute::new(chan_id_on_a), conn_id_on_b: ConnectionIdAttribute::new(conn_id_on_b), version_on_b: VersionAttribute::new(version_on_b) }
    }

    /// The value of the `port_id_on_b` attribute.
    pub fn port_id_on_b(&self) -> (r: &PortId)
        ensures
            *r == self.port_id_on_b@,
    {
        self.port_id_on_b.value()
    }

    /// The value of the `chan_id_on_b` attribute.
    pub fn chan_id_on_b(&self) -> (r: &ChannelId)
        ensures
            *r == self.chan_id_on_b@,
    {
        self.chan_id_on_b.value()
    }

    /// The value of the `port_id_on_a` attribute.
    pub fn port_id_on_a(&self) -> (r: &PortId)
        ensures
            *r == self.port_id_on_a@,
    {
        self.port_id_on_a.value()
    }

    /// The value of the `chan_id_on_a` attribute.
    pub fn chan_id_on_a(&self) -> (r: &ChannelId)
        ensures
            *r == self.chan_id_on_a@,
    {
        self.chan_id_on_a.value()
    }

    /// The value of the `conn_id_on_b` attribute.
    pub fn conn_id_on_b(&self) -> (r: &ConnectionId)
        ensures
            *r == self.conn_id_on_b@,
    {
        self.conn_id_on_b.value()
    }

    /// The value of the `version_on_b` attribute.
    pub fn version_on_b(&self) -> (r: &Version)
        ensures
            *r == self.version_on_b@,
    {
        self.version_on_b.value()
    }

    /// The ABCI event that this event becomes: its kind, and its
    /// attributes in the order of the fields.
    pub open spec fn abci_view(self) -> (Seq<char>, Seq<(Seq<char>, Seq<char>, bool)>) {
        (Self::EVENT_KIND@, seq![self.port_id_on_b.attribute_view(), self.chan_id_on_b.attribute_view(), self.port_id_on_a.attribute_view(), self.chan_id_on_a.attribute_view(), self.conn_id_on_b.attribute_view(), self.version_on_b.attribute_view()])
    }
}

/// The event as an ABCI event: its kind and its attributes in the order of
/// the fields. A spec function cannot build the strings of an `Event`, so
/// `from` states its result in its own `ensures`.
impl From<OpenTry> for Event {
    fn from(event: OpenTry) -> (r: Event)
        ensures
            r@ == event.abci_view(),
    {
        let ghost view = event.abci_view();
        let attributes = vec![
            EventAttribute::from(event.port_id_on_b),
            EventAttribute::from(event.chan_id_on_b),
            EventAttribute::from(event.port_id_on_a),
            EventAttribute::from(event.chan_id_on_a),
            EventAttribute::from(event.conn_id_on_b),
            EventAttribute::from(event.version_on_b),
        ];
        let r = Event { kind: String::from_str(OpenTry::EVENT_KIND), attributes };
        assert(attributes_view(r.attributes@) =~= view.1);
        r
    }
}

impl vstd::std_specs::convert::FromSpecImpl<OpenTry> for Event {
    open spec fn obeys_from_spec() -> bool {
        false
    }

    open spec fn from_spec(v: OpenTry) -> Event {
        arbitrary()
    }
}

impl OpenTry {
    /// Whether the spelling of every attribute value reads back as itself.
    pub open spec fn fields_read_back(self) -> bool {
        &&& reads_back(self.port_id_on_b@)
        &&& reads_back(self.chan_id_on_b@)
        &&& reads_back(self.port_id_on_a@)
        &&& reads_back(self.chan_id_on_a@)
        &&& reads_back(self.conn_id_on_b@)
        &&& reads_back(self.version_on_b@)
    }

    /// Whether every attribute value is the one its spelling is read as.
    pub open spec fn fields_canonical(self) -> bool {
        &&& self.port_id_on_b@.canonical()
        &&& self.chan_id_on_b@.canonical()
        &&& self.port_id_on_a@.canonical()
        &&& self.chan_id_on_a@.canonical()
        &&& self.conn_id_on_b@.canonical()
        &&& self.version_on_b@.canonical()
    }

    /// Whether the two events hold the same values, attribute by
    /// attribute.
    pub open spec fn same_values(self, other: OpenTry) -> bool {
        &&& self.port_id_on_b@.same_value(other.port_id_on_b@)
        &&& self.chan_id_on_b@.same_value(other.chan_id_on_b@)
        &&& self.port_id_on_a@.same_value(other.port_id_on_a@)
        &&& self.chan_id_on_a@.same_value(other.chan_id_on_a@)
        &&& self.conn_id_on_b@.same_value(other.conn_id_on_b@)
        &&& self.version_on_b@.same_value(other.version_on_b@)
    }
}

/// Reads the event back from its ABCI form. The kind must be this event's;
/// each attribute of the event must occur once and hold a value of its
/// type, and attributes with other keys are passed over. Where several
/// attributes are wrong, the error is that of the first wrong attribute
/// in the list, and where none is wrong but some are missing, that of the
/// first missing one in the order of the fields.
impl TryFrom<Event> for OpenTry {
    type Error = DecodingError;

    fn try_from(event: Event) -> (r: Result<OpenTry, DecodingError>)
        ensures
            event@.0 != OpenTry::EVENT_KIND@ ==> (r matches Err(
                DecodingError::MismatchedResourceName { expected, actual },
            ) && expected@ == OpenTry::EVENT_KIND@ && actual@ == event@.0),
            r is Ok <==> event@.0 == OpenTry::EVENT_KIND@
                && field_readable::<PortId>(event@.1, PortIdAttribute::ATTRIBUTE_KEY@)
                && field_readable::<ChannelId>(event@.1, ChannelIdAttribute::ATTRIBUTE_KEY@)
                && field_readable::<PortId>(event@.1, CounterpartyPortIdAttribute::ATTRIBUTE_KEY@)
                && field_readable::<ChannelId>(event@.1, CounterpartyChannelIdAttribute::ATTRIBUTE_KEY@)
                && field_readable::<ConnectionId>(event@.1, ConnectionIdAttribute::ATTRIBUTE_KEY@)
                && field_readable::<Version>(event@.1, VersionAttribute::ATTRIBUTE_KEY@),
            r matches Ok(e) ==> {
                &&& e.port_id_on_b@.event_value() == <PortId as AttributeValue>::normal_form(
                    first_value(event@.1, PortIdAttribute::ATTRIBUTE_KEY@),
                )
                &&& e.chan_id_on_b@.event_value() == <ChannelId as AttributeValue>::normal_form(
                    first_value(event@.1, ChannelIdAttribute::ATTRIBUTE_KEY@),
                )
                &&& e.port_id_on_a@.event_value() == <PortId as AttributeValue>::normal_form(
                    first_value(event@.1, CounterpartyPortIdAttribute::ATTRIBUTE_KEY@),
                )
                &&& e.chan_id_on_a@.event_value() == <ChannelId as AttributeValue>::normal_form(
                    first_value(event@.1, CounterpartyChannelIdAttribute::ATTRIBUTE_KEY@),
                )
                &&& e.conn_id_on_b@.event_value() == <ConnectionId as AttributeValue>::normal_form(
                    first_value(event@.1, ConnectionIdAttribute::ATTRIBUTE_KEY@),
                )
                &&& e.version_on_b@.event_value() == <Version as AttributeValue>::normal_form(
                    first_value(event@.1, VersionAttribute::ATTRIBUTE_KEY@),
                )
            },
            event@.0 == OpenTry::EVENT_KIND@ ==> (r matches Err(e) ==> (e is MissingRawData <==> !(
                field_wrong::<PortId>(event@.1, PortIdAttribute::ATTRIBUTE_KEY@)
                || field_wrong::<ChannelId>(event@.1, ChannelIdAttribute::ATTRIBUTE_KEY@)
                || field_wrong::<PortId>(event@.1, CounterpartyPortIdAttribute::ATTRIBUTE_KEY@)
                || field_wrong::<ChannelId>(event@.1, CounterpartyChannelIdAttribute::ATTRIBUTE_KEY@)
                || field_wrong::<ConnectionId>(event@.1, ConnectionIdAttribute::ATTRIBUTE_KEY@)
                || field_wrong::<Version>(event@.1, VersionAttribute::ATTRIBUTE_KEY@)))),
            forall|x: OpenTry|
                #[trigger] x.abci_view() == event@ && x.fields_read_back() ==> (r matches Ok(y)
                    && y.abci_view() == x.abci_view()),
            forall|x: OpenTry|
                #[trigger] x.abci_view() == event@ && x.fields_read_back() && x.fields_canonical()
                    ==> (r matches Ok(y) && y.same_values(x)),
    {
        proof {
            assert forall|x: OpenTry| #[trigger] x.abci_view() == event@ && x.fields_read_back()
                implies {
                &&& field_readable::<PortId>(event@.1, PortIdAttribute::ATTRIBUTE_KEY@)
                &&& first_value(event@.1, PortIdAttribute::ATTRIBUTE_KEY@) == x.port_id_on_b@.event_value()
                &&& field_readable::<ChannelId>(event@.1, ChannelIdAttribute::ATTRIBUTE_KEY@)
                &&& first_value(event@.1, ChannelIdAttribute::ATTRIBUTE_KEY@) == x.chan_id_on_b@.event_value()
                &&& field_readable::<PortId>(event@.1, CounterpartyPortIdAttribute::ATTRIBUTE_KEY@)
                &&& first_value(event@.1, CounterpartyPortIdAttribute::ATTRIBUTE_KEY@) == x.port_id_on_a@.event_value()
                &&& field_readable::<ChannelId>(event@.1, CounterpartyChannelIdAttribute::ATTRIBUTE_KEY@)
                &&& first_value(event@.1, CounterpartyChannelIdAttribute::ATTRIBUTE_KEY@) == x.chan_id_on_a@.event_value()
                &&& field_readable::<ConnectionId>(event@.1, ConnectionIdAttribute::ATTRIBUTE_KEY@)
                &&& first_value(event@.1, ConnectionIdAttribute::ATTRIBUTE_KEY@) == x.conn_id_on_b@.event_value()
                &&& field_readable::<Version>(event@.1, VersionAttribute::ATTRIBUTE_KEY@)
                &&& first_value(event@.1, VersionAttribute::ATTRIBUTE_KEY@) == x.version_on_b@.event_value()
            } by {
                let s = x.abci_view().1;
                reveal_strlit("channel_id");
                reveal_strlit("connection_id");
                reveal_strlit("counterparty_channel_id");
                reveal_strlit("counterparty_port_id");
                reveal_strlit("port_id");
                reveal_strlit("version");
                assert("port_id"@[0] != "version"@[0]);
                assert(s.take(6) =~= s);
                assert(s.take(6).drop_last() =~= s.take(5));
                assert(s.take(5).drop_last() =~= s.take(4));
                assert(s.take(4).drop_last() =~= s.take(3));
                assert(s.take(3).drop_last() =~= s.take(2));
                assert(s.take(2).drop_last() =~= s.take(1));
                assert(s.take(1).drop_last() =~= s.take(0));
                reveal_with_fuel(keys_distinct, 7);
                reveal_with_fuel(key_absent, 7);
                assert(s[0].0 == PortIdAttribute::ATTRIBUTE_KEY@ && s[0].0.len() == 7);
                assert(s[1].0 == ChannelIdAttribute::ATTRIBUTE_KEY@ && s[1].0.len() == 10);
                assert(s[2].0 == CounterpartyPortIdAttribute::ATTRIBUTE_KEY@ && s[2].0.len() == 20);
                assert(s[3].0 == CounterpartyChannelIdAttribute::ATTRIBUTE_KEY@ && s[3].0.len() == 23);
                assert(s[4].0 == ConnectionIdAttribute::ATTRIBUTE_KEY@ && s[4].0.len() == 13);
                assert(s[5].0 == VersionAttribute::ATTRIBUTE_KEY@ && s[5].0.len() == 7);
                assert(s.take(1).last() == s[0]);
                assert(key_absent(s.take(0), s[0].0));
                assert(keys_distinct(s.take(1)));
                assert(s.take(2).last() == s[1]);
                assert(key_absent(s.take(1), s[1].0));
                assert(keys_distinct(s.take(2)));
                assert(s.take(3).last() == s[2]);
                assert(key_absent(s.take(2), s[2].0));
                assert(keys_distinct(s.take(3)));
                assert(s.take(4).last() == s[3]);
                assert(key_absent(s.take(3), s[3].0));
                assert(keys_distinct(s.take(4)));
                assert(s.take(5).last() == s[4]);
                assert(key_absent(s.take(4), s[4].0));
                assert(keys_distinct(s.take(5)));
                assert(s.take(6).last() == s[5]);
                assert(key_absent(s.take(5), s[5].0));
                assert(keys_distinct(s.take(6)));
                lemma_distinct_keys(s, 0);
                lemma_distinct_keys(s, 1);
                lemma_distinct_keys(s, 2);
                lemma_distinct_keys(s, 3);
                lemma_distinct_keys(s, 4);
                lemma_distinct_keys(s, 5);
                assert(s[0].0 == PortIdAttribute::ATTRIBUTE_KEY@ && s[0].1 == x.port_id_on_b@.event_value());
                assert(s[1].0 == ChannelIdAttribute::ATTRIBUTE_KEY@ && s[1].1 == x.chan_id_on_b@.event_value());
                assert(s[2].0 == CounterpartyPortIdAttribute::ATTRIBUTE_KEY@ && s[2].1 == x.port_id_on_a@.event_value());
                assert(s[3].0 == CounterpartyChannelIdAttribute::ATTRIBUTE_KEY@ && s[3].1 == x.chan_id_on_a@.event_value());
                assert(s[4].0 == ConnectionIdAttribute::ATTRIBUTE_KEY@ && s[4].1 == x.conn_id_on_b@.event_value());
                assert(s[5].0 == VersionAttribute::ATTRIBUTE_KEY@ && s[5].1 == x.version_on_b@.event_value());
            }
        }
        let expected = String::from_str(OpenTry::EVENT_KIND);
        if !(event.kind == expected) {
            return Err(DecodingError::MismatchedResourceName { expected, actual: event.kind });
        }
        let mut failure: Option<(usize, DecodingError)> = None;
        let port_id_on_b = match scan_field::<PortId>(
            &event.attributes,
            PortIdAttribute::ATTRIBUTE_KEY,
            PortIdAttribute::FRIENDLY_NAME,
        ) {
            FieldScan::Found(v) => Some(v),
            FieldScan::Missing => None,
            FieldScan::Failed { at, error } => {
                failure = earlier_failure(failure, at, error);
                None
            },
        };
        let chan_id_on_b = match scan_field::<ChannelId>(
            &event.attributes,
            ChannelIdAttribute::ATTRIBUTE_KEY,
            ChannelIdAttribute::FRIENDLY_NAME,
        ) {
            FieldScan::Found(v) => Some(v),
            FieldScan::Missing => None,
            FieldScan::Failed { at, error } => {
                failure = earlier_failure(failure, at, error);
                None
            },
        };
        let port_id_on_a = match scan_field::<PortId>(
            &event.attributes,
            CounterpartyPortIdAttribute::ATTRIBUTE_KEY,
            CounterpartyPortIdAttribute::FRIENDLY_NAME,
        ) {
            FieldScan::Found(v) => Some(v),
            FieldScan::Missing => None,
            FieldScan::Failed { at, error } => {
                failure = earlier_failure(failure, at, error);
                None
            },
        };
        let chan_id_on_a = match scan_field::<ChannelId>(
            &event.attributes,
            CounterpartyChannelIdAttribute::ATTRIBUTE_KEY,
            CounterpartyChannelIdAttribute::FRIENDLY_NAME,
        ) {
            FieldScan::Found(v) => Some(v),
            FieldScan::Missing => None,
            FieldScan::Failed { at, error } => {
                failure = earlier_failure(failure, at, error);
                None
            },
        };
        let conn_id_on_b = match scan_field::<ConnectionId>(
            &event.attributes,
            ConnectionIdAttribute::ATTRIBUTE_KEY,
            ConnectionIdAttribute::FRIENDLY_NAME,
        ) {
            FieldScan::Found(v) => Some(v),
            FieldScan::Missing => None,
            FieldScan::Failed { at, error } => {
                failure = earlier_failure(failure, at, error);
                None
            },
        };
        let version_on_b = match scan_field::<Version>(
            &event.attributes,
            VersionAttribute::ATTRIBUTE_KEY,
            VersionAttribute::FRIENDLY_NAME,
        ) {
            FieldScan::Found(v) => Some(v),
            FieldScan::Missing => None,
            FieldScan::Failed { at, error } => {
                failure = earlier_failure(failure, at, error);
                None
            },
        };
        if let Some((_, error)) = failure {
            return Err(error);
        }
        let port_id_on_b = match port_id_on_b {
            Some(v) => PortIdAttribute(v),
            None => {
                return Err(missing_attribute(PortIdAttribute::FRIENDLY_NAME));
            },
        };
        let chan_id_on_b = match chan_id_on_b {
            Some(v) => ChannelIdAttribute(v),
            None => {
                return Err(missing_attribute(ChannelIdAttribute::FRIENDLY_NAME));
            },
        };
        let port_id_on_a = match port_id_on_a {
            Some(v) => CounterpartyPortIdAttribute(v),
            None => {
                return Err(missing_attribute(CounterpartyPortIdAttribute::FRIENDLY_NAME));
            },
        };
        let chan_id_on_a = match chan_id_on_a {
            Some(v) => CounterpartyChannelIdAttribute(v),
            None => {
                return Err(missing_attribute(CounterpartyChannelIdAttribute::FRIENDLY_NAME));
            },
        };
        let conn_id_on_b = match conn_id_on_b {
            Some(v) => ConnectionIdAttribute(v),
            None => {
                return Err(missing_attribute(ConnectionIdAttribute::FRIENDLY_NAME));
            },
        };
        let version_on_b = match version_on_b {
            Some(v) => VersionAttribute(v),
            None => {
                return Err(missing_attribute(VersionAttribute::FRIENDLY_NAME));
            },
        };
        let r = OpenTry { port_id_on_b, chan_id_on_b, port_id_on_a, chan_id_on_a, conn_id_on_b, version_on_b };
        proof {
            assert forall|x: OpenTry| #[trigger] x.abci_view() == event@ && x.fields_read_back()
                implies r.abci_view() == x.abci_view() by {
                assert(r.abci_view().1 =~= x.abci_view().1);
            }
            assert forall|x: OpenTry|
                #[trigger] x.abci_view() == event@ && x.fields_read_back() && x.fields_canonical()
                implies r.same_values(x) by {
                <PortId as AttributeValue>::lemma_spelling_injective(r.port_id_on_b@, x.port_id_on_b@);
                <ChannelId as AttributeValue>::lemma_spelling_injective(r.chan_id_on_b@, x.chan_id_on_b@);
                <PortId as AttributeValue>::lemma_spelling_injective(r.port_id_on_a@, x.port_id_on_a@);
                <ChannelId as AttributeValue>::lemma_spelling_injective(r.chan_id_on_a@, x.chan_id_on_a@);
                <ConnectionId as AttributeValue>::lemma_spelling_injective(r.conn_id_on_b@, x.conn_id_on_b@);
                <Version as AttributeValue>::lemma_spelling_injective(r.version_on_b@, x.version_on_b@);
            }
        }
        Ok(r)
    }
}

impl vstd::std_specs::convert::TryFromSpecImpl<Event> for OpenTry {
    open spec fn obeys_try_from_spec() -> bool {
        false
    }

    open spec fn try_from_spec(v: Event) -> Result<OpenTry, DecodingError> {
        arbitrary()
    }
}

/// Reads the event from its kind and its attributes given as key-value
/// pairs, as `try_from` reads the ABCI event with those attributes.
impl TryFrom<(String, Vec<(String, String)>)> for OpenTry {
    type Error = DecodingError;

    fn try_from(parts: (String, Vec<(String, String)>)) -> (r: Result<OpenTry, DecodingError>)
        ensures
            parts.0@ != OpenTry::EVENT_KIND@ ==> (r matches Err(
                DecodingError::MismatchedResourceName { expected, actual },
            ) && expected@ == OpenTry::EVENT_KIND@ && actual@ == parts.0@),
            r is Ok <==> parts.0@ == OpenTry::EVENT_KIND@
                && field_readable::<PortId>(pairs_view(parts.1@), PortIdAttribute::ATTRIBUTE_KEY@)
                && field_readable::<ChannelId>(pairs_view(parts.1@), ChannelIdAttribute::ATTRIBUTE_KEY@)
                && field_readable::<PortId>(pairs_view(parts.1@), CounterpartyPortIdAttribute::ATTRIBUTE_KEY@)
                && field_readable::<ChannelId>(pairs_view(parts.1@), CounterpartyChannelIdAttribute::ATTRIBUTE_KEY@)
                && field_readable::<ConnectionId>(pairs_view(parts.1@), ConnectionIdAttribute::ATTRIBUTE_KEY@)
                && field_readable::<Version>(pairs_view(parts.1@), VersionAttribute::ATTRIBUTE_KEY@),
            r matches Ok(e) ==> {
                &&& e.port_id_on_b@.event_value() == <PortId as AttributeValue>::normal_form(
                    first_value(pairs_view(parts.1@), PortIdAttribute::ATTRIBUTE_KEY@),
                )
                &&& e.chan_id_on_b@.event_value() == <ChannelId as AttributeValue>::normal_form(
                    first_value(pairs_view(parts.1@), ChannelIdAttribute::ATTRIBUTE_KEY@),
                )
                &&& e.port_id_on_a@.event_value() == <PortId as AttributeValue>::normal_form(
                    first_value(pairs_view(parts.1@), CounterpartyPortIdAttribute::ATTRIBUTE_KEY@),
                )
                &&& e.chan_id_on_a@.event_value() == <ChannelId as AttributeValue>::normal_form(
                    first_value(pairs_view(parts.1@), CounterpartyChannelIdAttribute::ATTRIBUTE_KEY@),
                )
                &&& e.conn_id_on_b@.event_value() == <ConnectionId as AttributeValue>::normal_form(
                    first_value(pairs_view(parts.1@), ConnectionIdAttribute::ATTRIBUTE_KEY@),
                )
                &&& e.version_on_b@.event_value() == <Version as AttributeValue>::normal_form(
                    first_value(pairs_view(parts.1@), VersionAttribute::ATTRIBUTE_KEY@),
                )
            },
            parts.0@ == OpenTry::EVENT_KIND@ ==> (r matches Err(e) ==> (e is MissingRawData <==> !(
                field_wrong::<PortId>(pairs_view(parts.1@), PortIdAttribute::ATTRIBUTE_KEY@)
                || field_wrong::<ChannelId>(pairs_view(parts.1@), ChannelIdAttribute::ATTRIBUTE_KEY@)
                || field_wrong::<PortId>(pairs_view(parts.1@), CounterpartyPortIdAttribute::ATTRIBUTE_KEY@)
                || field_wrong::<ChannelId>(pairs_view(parts.1@), CounterpartyChannelIdAttribute::ATTRIBUTE_KEY@)
                || field_wrong::<ConnectionId>(pairs_view(parts.1@), ConnectionIdAttribute::ATTRIBUTE_KEY@)
                || field_wrong::<Version>(pairs_view(parts.1@), VersionAttribute::ATTRIBUTE_KEY@)))),
            forall|x: OpenTry|
                #[trigger] x.abci_view() == (parts.0@, pairs_view(parts.1@)) && x.fields_read_back() ==> (r matches Ok(y)
                    && y.abci_view() == x.abci_view()),
            forall|x: OpenTry|
                #[trigger] x.abci_view() == (parts.0@, pairs_view(parts.1@)) && x.fields_read_back() && x.fields_canonical()
                    ==> (r matches Ok(y) && y.same_values(x)),
    {
        let (kind, pairs) = parts;
        <OpenTry as TryFrom<Event>>::try_from(Event::from_pairs(kind, pairs))
    }
}

impl vstd::std_specs::convert::TryFromSpecImpl<(String, Vec<(String, String)>)> for OpenTry {
    open spec fn obeys_try_from_spec() -> bool {
        false
    }

    open spec fn try_from_spec(v: (String, Vec<(String, String)>)) -> Result<OpenTry, DecodingError> {
        arbitrary()
    }
}

/// The `channel_open_ack` event: the initiator acknowledged a channel handshake.
#[derive(Clone, Debug, PartialEq, Eq)]
pub struct OpenAck {
    pub port_id_on_a: PortIdAttribute,
    pub chan_id_on_a: ChannelIdAttribute,
    pub port_id_on_b: CounterpartyPortIdAttribute,
    pub chan_id_on_b: CounterpartyChannelIdAttribute,
    pub conn_id_on_a: ConnectionIdAttribute,
}

impl OpenAck {
    /// The kind of this event in ABCI.
    pub const EVENT_KIND: &'static str = "channel_open_ack";

    /// The event with the given attribute values.
    pub fn new(port_id_on_a: PortId, chan_id_on_a: ChannelId, port_id_on_b: PortId, chan_id_on_b: ChannelId, conn_id_on_a: ConnectionId) -> (r: OpenAck)
        ensures
            r.port_id_on_a@ == port_id_on_a,
            r.chan_id_on_a@ == chan_id_on_a,
            r.port_id_on_b@ == port_id_on_b,
            r.chan_id_on_b@ == chan_id_on_b,
            r.conn_id_on_a@ == conn_id_on_a,
    {
        OpenAck { port_id_on_a: PortIdAttribute::new(port_id_on_a), chan_id_on_a: ChannelIdAttribute::new(chan_id_on_a), port_id_on_b: CounterpartyPortIdAttribute::new(port_id_on_b), chan_id_on_b: CounterpartyChannelIdAttribute::new(chan_id_on_b), conn_id_on_a: ConnectionIdAttribute::new(conn_id_on_a) }
    }

    /// The value of the `port_id_on_a` attribute.
    pub fn port_id_on_a(&self) -> (r: &PortId)
        ensures
            *r == self.port_id_on_a@,
    {
        self.port_id_on_a.value()
    }

    /// The value of the `chan_id_on_a` attribute.
    pub fn chan_id_on_a(&self) -> (r: &ChannelId)
        ensures
            *r == self.chan_id_on_a@,
    {
        self.chan_id_on_a.value()
    }

    /// The value of the `port_id_on_b` attribute.
    pub fn port_id_on_b(&self) -> (r: &PortId)
        ensures
            *r == self.port_id_on_b@,
    {
        self.port_id_on_b.value()
    }

    /// The value of the `chan_id_on_b` attribute.
    pub fn chan_id_on_b(&self) -> (r: &ChannelId)
        ensures
            *r == self.chan_id_on_b@,
    {
        self.chan_id_on_b.value()
    }

    /// The value of the `conn_id_on_a` attribute.
    pub fn conn_id_on_a(&self) -> (r: &ConnectionId)
        ensures
            *r == self.conn_id_on_a@,
    {
        self.conn_id_on_a.value()
    }

    /// The ABCI event that this event becomes: its kind, and its
    /// attributes in the order of the fields.
    pub open spec fn abci_view(self) -> (Seq<char>, Seq<(Seq<char>, Seq<char>, bool)>) {
        (Self::EVENT_KIND@, seq![self.port_id_on_a.attribute_view(), self.chan_id_on_a.attribute_view(), self.port_id_on_b.attribute_view(), self.chan_id_on_b.attribute_view(), self.conn_id_on_a.attribute_view()])
    }
}

/// The event as an ABCI event: its kind and its attributes in the order of
/// the fields. A spec function cannot build the strings of an `Event`, so
/// `from` states its result in its own `ensures`.
impl From<OpenAck> for Event {
    fn from(event: OpenAck) -> (r: Event)
        ensures
            r@ == event.abci_view(),
    {
        let ghost view = event.abci_view();
        let attributes = vec![
            EventAttribute::from(event.port_id_on_a),
            EventAttribute::from(event.chan_id_on_a),
            EventAttribute::from(event.port_id_on_b),
            EventAttribute::from(event.chan_id_on_b),
            EventAttribute::from(event.conn_id_on_a),
        ];
        let r = Event { kind: String::from_str(OpenAck::EVENT_KIND), attributes };
        assert(attributes_view(r.attributes@) =~= view.1);
        r
    }
}

impl vstd::std_specs::convert::FromSpecImpl<OpenAck> for Event {
    open spec fn obeys_from_spec() -> bool {
        false
    }

    open spec fn from_spec(v: OpenAck) -> Event {
        arbitrary()
    }
}

impl OpenAck {
    /// Whether the spelling of every attribute value reads back as itself.
    pub open spec fn fields_read_back(self) -> bool {
        &&& reads_back(self.port_id_on_a@)
        &&& reads_back(self.chan_id_on_a@)
        &&& reads_back(self.port_id_on_b@)
        &&& reads_back(self.chan_id_on_b@)
        &&& reads_back(self.conn_id_on_a@)
    }

    /// Whether every attribute value is the one its spelling is read as.
    pub open spec fn fields_canonical(self) -> bool {
        &&& self.port_id_on_a@.canonical()
        &&& self.chan_id_on_a@.canonical()
        &&& self.port_id_on_b@.canonical()
        &&& self.chan_id_on_b@.canonical()
        &&& self.conn_id_on_a@.canonical()
    }

    /// Whether the two events hold the same values, attribute by
    /// attribute.
    pub open spec fn same_values(self, other: OpenAck) -> bool {
        &&& self.port_id_on_a@.same_value(other.port_id_on_a@)
        &&& self.chan_id_on_a@.same_value(other.chan_id_on_a@)
        &&& self.port_id_on_b@.same_value(other.port_id_on_b@)
        &&& self.chan_id_on_b@.same_value(other.chan_id_on_b@)
        &&& self.conn_id_on_a@.same_value(other.conn_id_on_a@)
    }
}

/// Reads the event back from its ABCI form. The kind must be this event's;
/// each attribute of the event must occur once and hold a value of its
/// type, and attributes with other keys are passed over. Where several
/// attributes are wrong, the error is that of the first wrong attribute
/// in the list, and where none is wrong but some are missing, that of the
/// first missing one in the order of the fields.
impl TryFrom<Event> for OpenAck {
    type Error = DecodingError;

    fn try_from(event: Event) -> (r: Result<OpenAck, DecodingError>)
        ensures
            event@.0 != OpenAck::EVENT_KIND@ ==> (r matches Err(
                DecodingError::MismatchedResourceName { expected, actual },
            ) && expected@ == OpenAck::EVENT_KIND@ && actual@ == event@.0),
            r is Ok <==> event@.0 == OpenAck::EVENT_KIND@
                && field_readable::<PortId>(event@.1, PortIdAttribute::ATTRIBUTE_KEY@)
                && field_readable::<ChannelId>(event@.1, ChannelIdAttribute::ATTRIBUTE_KEY@)
                && field_readable::<PortId>(event@.1, CounterpartyPortIdAttribute::ATTRIBUTE_KEY@)
                && field_readable::<ChannelId>(event@.1, CounterpartyChannelIdAttribute::ATTRIBUTE_KEY@)
                && field_readable::<ConnectionId>(event@.1, ConnectionIdAttribute::ATTRIBUTE_KEY@),
            r matches Ok(e) ==> {
                &&& e.port_id_on_a@.event_value() == <PortId as AttributeValue>::normal_form(
                    first_value(event@.1, PortIdAttribute::ATTRIBUTE_KEY@),
                )
                &&& e.chan_id_on_a@.event_value() == <ChannelId as AttributeValue>::normal_form(
                    first_value(event@.1, ChannelIdAttribute::ATTRIBUTE_KEY@),
                )
                &&& e.port_id_on_b@.event_value() == <PortId as AttributeValue>::normal_form(
                    first_value(event@.1, CounterpartyPortIdAttribute::ATTRIBUTE_KEY@),
                )
                &&& e.chan_id_on_b@.event_value() == <ChannelId as AttributeValue>::normal_form(
                    first_value(event@.1, CounterpartyChannelIdAttribute::ATTRIBUTE_KEY@),
                )
                &&& e.conn_id_on_a@.event_value() == <ConnectionId as AttributeValue>::normal_form(
                    first_value(event@.1, ConnectionIdAttribute::ATTRIBUTE_KEY@),
                )
            },
            event@.0 == OpenAck::EVENT_KIND@ ==> (r matches Err(e) ==> (e is MissingRawData <==> !(
                field_wrong::<PortId>(event@.1, PortIdAttribute::ATTRIBUTE_KEY@)
                || field_wrong::<ChannelId>(event@.1, ChannelIdAttribute::ATTRIBUTE_KEY@)
                || field_wrong::<PortId>(event@.1, CounterpartyPortIdAttribute::ATTRIBUTE_KEY@)
                || field_wrong::<ChannelId>(event@.1, CounterpartyChannelIdAttribute::ATTRIBUTE_KEY@)
                || field_wrong::<ConnectionId>(event@.1, ConnectionIdAttribute::ATTRIBUTE_KEY@)))),
            forall|x: OpenAck|
                #[trigger] x.abci_view() == event@ && x.fields_read_back() ==> (r matches Ok(y)
                    && y.abci_view() == x.abci_view()),
            forall|x: OpenAck|
                #[trigger] x.abci_view() == event@ && x.fields_read_back() && x.fields_canonical()
                    ==> (r matches Ok(y) && y.same_values(x)),
    {
        proof {
            assert forall|x: OpenAck| #[trigger] x.abci_view() == event@ && x.fields_read_back()
                implies {
                &&& field_readable::<PortId>(event@.1, PortIdAttribute::ATTRIBUTE_KEY@)
                &&& first_value(event@.1, PortIdAttribute::ATTRIBUTE_KEY@) == x.port_id_on_a@.event_value()
                &&& field_readable::<ChannelId>(event@.1, ChannelIdAttribute::ATTRIBUTE_KEY@)
                &&& first_value(event@.1, ChannelIdAttribute::ATTRIBUTE_KEY@) == x.chan_id_on_a@.event_value()
                &&& field_readable::<PortId>(event@.1, CounterpartyPortIdAttribute::ATTRIBUTE_KEY@)
                &&& first_value(event@.1, CounterpartyPortIdAttribute::ATTRIBUTE_KEY@) == x.port_id_on_b@.event_value()
                &&& field_readable::<ChannelId>(event@.1, CounterpartyChannelIdAttribute::ATTRIBUTE_KEY@)
                &&& first_value(event@.1, CounterpartyChannelIdAttribute::ATTRIBUTE_KEY@) == x.chan_id_on_b@.event_value()
                &&& field_readable::<ConnectionId>(event@.1, ConnectionIdAttribute::ATTRIBUTE_KEY@)
                &&& first_value(event@.1, ConnectionIdAttribute::ATTRIBUTE_KEY@) == x.conn_id_on_a@.event_value()
            } by {
                let s = x.abci_view().1;
                reveal_strlit("channel_id");
                reveal_strlit("connection_id");
                reveal_strlit("counterparty_channel_id");
                reveal_strlit("counterparty_port_id");
                reveal_strlit("port_id");
                assert(s.take(5) =~= s);
                assert(s.take(5).drop_last() =~= s.take(4));
                assert(s.take(4).drop_last() =~= s.take(3));
                assert(s.take(3).drop_last() =~= s.take(2));
                assert(s.take(2).drop_last() =~= s.take(1));
                assert(s.take(1).drop_last() =~= s.take(0));
                reveal_with_fuel(keys_distinct, 6);
                reveal_with_fuel(key_absent, 6);
                assert(s[0].0 == PortIdAttribute::ATTRIBUTE_KEY@ && s[0].0.len() == 7);
                assert(s[1].0 == ChannelIdAttribute::ATTRIBUTE_KEY@ && s[1].0.len() == 10);
                assert(s[2].0 == CounterpartyPortIdAttribute::ATTRIBUTE_KEY@ && s[2].0.len() == 20);
                assert(s[3].0 == CounterpartyChannelIdAttribute::ATTRIBUTE_KEY@ && s[3].0.len() == 23);
                assert(s[4].0 == ConnectionIdAttribute::ATTRIBUTE_KEY@ && s[4].0.len() == 13);
                assert(s.take(1).last() == s[0]);
                assert(key_absent(s.take(0), s[0].0));
                assert(keys_distinct(s.take(1)));
                assert(s.take(2).last() == s[1]);
                assert(key_absent(s.take(1), s[1].0));
                assert(keys_distinct(s.take(2)));
                assert(s.take(3).last() == s[2]);
                assert(key_absent(s.take(2), s[2].0));
                assert(keys_distinct(s.take(3)));
                assert(s.take(4).last() == s[3]);
                assert(key_absent(s.take(3), s[3].0));
                assert(keys_distinct(s.take(4)));
                assert(s.take(5).last() == s[4]);
                assert(key_absent(s.take(4), s[4].0));
                assert(keys_distinct(s.take(5)));
                lemma_distinct_keys(s, 0);
                lemma_distinct_keys(s, 1);
                lemma_distinct_keys(s, 2);
                lemma_distinct_keys(s, 3);
                lemma_distinct_keys(s, 4);
                assert(s[0].0 == PortIdAttribute::ATTRIBUTE_KEY@ && s[0].1 == x.port_id_on_a@.event_value());
                assert(s[1].0 == ChannelIdAttribute::ATTRIBUTE_KEY@ && s[1].1 == x.chan_id_on_a@.event_value());
                assert(s[2].0 == CounterpartyPortIdAttribute::ATTRIBUTE_KEY@ && s[2].1 == x.port_id_on_b@.event_value());
                assert(s[3].0 == CounterpartyChannelIdAttribute::ATTRIBUTE_KEY@ && s[3].1 == x.chan_id_on_b@.event_value());
                assert(s[4].0 == ConnectionIdAttribute::ATTRIBUTE_KEY@ && s[4].1 == x.conn_id_on_a@.event_value());
            }
        }
        let expected = String::from_str(OpenAck::EVENT_KIND);
        if !(event.kind == expected) {
            return Err(DecodingError::MismatchedResourceName { expected, actual: event.kind });
        }
        let mut failure: Option<(usize, DecodingError)> = None;
        let port_id_on_a = match scan_field::<PortId>(
            &event.attributes,
            PortIdAttribute::ATTRIBUTE_KEY,
            PortIdAttribute::FRIENDLY_NAME,
        ) {
            FieldScan::Found(v) => Some(v),
            FieldScan::Missing => None,
            FieldScan::Failed { at, error } => {
                failure = earlier_failure(failure, at, error);
                None
            },
        };
        let chan_id_on_a = match scan_field::<ChannelId>(
            &event.attributes,
            ChannelIdAttribute::ATTRIBUTE_KEY,
            ChannelIdAttribute::FRIENDLY_NAME,
        ) {
            FieldScan::Found(v) => Some(v),
            FieldScan::Missing => None,
            FieldScan::Failed { at, error } => {
                failure = earlier_failure(failure, at, error);
                None
            },
        };
        let port_id_on_b = match scan_field::<PortId>(
            &event.attributes,
            CounterpartyPortIdAttribute::ATTRIBUTE_KEY,
            CounterpartyPortIdAttribute::FRIENDLY_NAME,
        ) {
            FieldScan::Found(v) => Some(v),
            FieldScan::Missing => None,
            FieldScan::Failed { at, error } => {
                failure = earlier_failure(failure, at, error);
                None
            },
        };
        let chan_id_on_b = match scan_field::<ChannelId>(
            &event.attributes,
            CounterpartyChannelIdAttribute::ATTRIBUTE_KEY,
            CounterpartyChannelIdAttribute::FRIENDLY_NAME,
        ) {
            FieldScan::Found(v) => Some(v),
            FieldScan::Missing => None,
            FieldScan::Failed { at, error } => {
                failure = earlier_failure(failure, at, error);
                None
            },
        };
        let conn_id_on_a = match scan_field::<ConnectionId>(
            &event.attributes,
            ConnectionIdAttribute::ATTRIBUTE_KEY,
            ConnectionIdAttribute::FRIENDLY_NAME,
        ) {
            FieldScan::Found(v) => Some(v),
            FieldScan::Missing => None,
            FieldScan::Failed { at, error } => {
                failure = earlier_failure(failure, at, error);
                None
            },
        };
        if let Some((_, error)) = failure {
            return Err(error);
        }
        let port_id_on_a = match port_id_on_a {
            Some(v) => PortIdAttribute(v),
            None => {
                return Err(missing_attribute(PortIdAttribute::FRIENDLY_NAME));
            },
        };
        let chan_id_on_a = match chan_id_on_a {
            Some(v) => ChannelIdAttribute(v),
            None => {
                return Err(missing_attribute(ChannelIdAttribute::FRIENDLY_NAME));
            },
        };
        let port_id_on_b = match port_id_on_b {
            Some(v) => CounterpartyPortIdAttribute(v),
            None => {
                return Err(missing_attribute(CounterpartyPortIdAttribute::FRIENDLY_NAME));
            },
        };
        let chan_id_on_b = match chan_id_on_b {
            Some(v) => CounterpartyChannelIdAttribute(v),
            None => {
                return Err(missing_attribute(CounterpartyChannelIdAttribute::FRIENDLY_NAME));
            },
        };
        let conn_id_on_a = match conn_id_on_a {
            Some(v) => ConnectionIdAttribute(v),
            None => {
                return Err(missing_attribute(ConnectionIdAttribute::FRIENDLY_NAME));
            },
        };
        let r = OpenAck { port_id_on_a, chan_id_on_a, port_id_on_b, chan_id_on_b, conn_id_on_a };
        proof {
            assert forall|x: OpenAck| #[trigger] x.abci_view() == event@ && x.fields_read_back()
                implies r.abci_view() == x.abci_view() by {
                assert(r.abci_view().1 =~= x.abci_view().1);
            }
            assert forall|x: OpenAck|
                #[trigger] x.abci_view() == event@ && x.fields_read_back() && x.fields_canonical()
                implies r.same_values(x) by {
                <PortId as AttributeValue>::lemma_spelling_injective(r.port_id_on_a@, x.port_id_on_a@);
                <ChannelId as AttributeValue>::lemma_spelling_injective(r.chan_id_on_a@, x.chan_id_on_a@);
                <PortId as AttributeValue>::lemma_spelling_injective(r.port_id_on_b@, x.port_id_on_b@);
                <ChannelId as AttributeValue>::lemma_spelling_injective(r.chan_id_on_b@, x.chan_id_on_b@);
                <ConnectionId as AttributeValue>::lemma_spelling_injective(r.conn_id_on_a@, x.conn_id_on_a@);
            }
        }
        Ok(r)
    }
}

impl vstd::std_specs::convert::TryFromSpecImpl<Event> for OpenAck {
    open spec fn obeys_try_from_spec() -> bool {
        false
    }

    open spec fn try_from_spec(v: Event) -> Result<OpenAck, DecodingError> {
        arbitrary()
    }
}

/// Reads the event from its kind and its attributes given as key-value
/// pairs, as `try_from` reads the ABCI event with those attributes.
impl TryFrom<(String, Vec<(String, String)>)> for OpenAck {
    type Error = DecodingError;

    fn try_from(parts: (String, Vec<(String, String)>)) -> (r: Result<OpenAck, DecodingError>)
        ensures
            parts.0@ != OpenAck::EVENT_KIND@ ==> (r matches Err(
                DecodingError::MismatchedResourceName { expected, actual },
            ) && expected@ == OpenAck::EVENT_KIND@ && actual@ == parts.0@),
            r is Ok <==> parts.0@ == OpenAck::EVENT_KIND@
                && field_readable::<PortId>(pairs_view(parts.1@), PortIdAttribute::ATTRIBUTE_KEY@)
                && field_readable::<ChannelId>(pairs_view(parts.1@), ChannelIdAttribute::ATTRIBUTE_KEY@)
                && field_readable::<PortId>(pairs_view(parts.1@), CounterpartyPortIdAttribute::ATTRIBUTE_KEY@)
                && field_readable::<ChannelId>(pairs_view(parts.1@), CounterpartyChannelIdAttribute::ATTRIBUTE_KEY@)
                && field_readable::<ConnectionId>(pairs_view(parts.1@), ConnectionIdAttribute::ATTRIBUTE_KEY@),
            r matches Ok(e) ==> {
                &&& e.port_id_on_a@.event_value() == <PortId as AttributeValue>::normal_form(
                    first_value(pairs_view(parts.1@), PortIdAttribute::ATTRIBUTE_KEY@),
                )
                &&& e.chan_id_on_a@.event_value() == <ChannelId as AttributeValue>::normal_form(
                    first_value(pairs_view(parts.1@), ChannelIdAttribute::ATTRIBUTE_KEY@),
                )
                &&& e.port_id_on_b@.event_value() == <PortId as AttributeValue>::normal_form(
                    first_value(pairs_view(parts.1@), CounterpartyPortIdAttribute::ATTRIBUTE_KEY@),
                )
                &&& e.chan_id_on_b@.event_value() == <ChannelId as AttributeValue>::normal_form(
                    first_value(pairs_view(parts.1@), CounterpartyChannelIdAttribute::ATTRIBUTE_KEY@),
                )
                &&& e.conn_id_on_a@.event_value() == <ConnectionId as AttributeValue>::normal_form(
                    first_value(pairs_view(parts.1@), ConnectionIdAttribute::ATTRIBUTE_KEY@),
                )
            },
            parts.0@ == OpenAck::EVENT_KIND@ ==> (r matches Err(e) ==> (e is MissingRawData <==> !(
                field_wrong::<PortId>(pairs_view(parts.1@), PortIdAttribute::ATTRIBUTE_KEY@)
                || field_wrong::<ChannelId>(pairs_view(parts.1@), ChannelIdAttribute::ATTRIBUTE_KEY@)
                || field_wrong::<PortId>(pairs_view(parts.1@), CounterpartyPortIdAttribute::ATTRIBUTE_KEY@)
                || field_wrong::<ChannelId>(pairs_view(parts.1@), CounterpartyChannelIdAttribute::ATTRIBUTE_KEY@)
                || field_wrong::<ConnectionId>(pairs_view(parts.1@), ConnectionIdAttribute::ATTRIBUTE_KEY@)))),
            forall|x: OpenAck|
                #[trigger] x.abci_view() == (parts.0@, pairs_view(parts.1@)) && x.fields_read_back() ==> (r matches Ok(y)
                    && y.abci_view() == x.abci_view()),
            forall|x: OpenAck|
                #[trigger] x.abci_view() == (parts.0@, pairs_view(parts.1@)) && x.fields_read_back() && x.fields_canonical()
                    ==> (r matches Ok(y) && y.same_values(x)),
    {
        let (kind, pairs) = parts;
        <OpenAck as TryFrom<Event>>::try_from(Event::from_pairs(kind, pairs))
    }
}

impl vstd::std_specs::convert::TryFromSpecImpl<(String, Vec<(String, String)>)> for OpenAck {
    open spec fn obeys_try_from_spec() -> bool {
        false
    }

    open spec fn try_from_spec(v: (String, Vec<(String, String)>)) -> Result<OpenAck, DecodingError> {
        arbitrary()
    }
}

/// The `channel_open_confirm` event: the counterparty confirmed a channel handshake.
#[derive(Clone, Debug, PartialEq, Eq)]
pub struct OpenConfirm {
    pub port_id_on_b: PortIdAttribute,
    pub chan_id_on_b: ChannelIdAttribute,
    pub port_id_on_a: CounterpartyPortIdAttribute,
    pub chan_id_on_a: CounterpartyChannelIdAttribute,
    pub conn_id_on_b: ConnectionIdAttribute,
}

impl OpenConfirm {
    /// The kind of this event in ABCI.
    pub const EVENT_KIND: &'static str = "channel_open_confirm";

    /// The event with the given attribute values.
    pub fn new(port_id_on_b: PortId, chan_id_on_b: ChannelId, port_id_on_a: PortId, chan_id_on_a: ChannelId, conn_id_on_b: ConnectionId) -> (r: OpenConfirm)
        ensures
            r.port_id_on_b@ == port_id_on_b,
            r.chan_id_on_b@ == chan_id_on_b,
            r.port_id_on_a@ == port_id_on_a,
            r.chan_id_on_a@ == chan_id_on_a,
            r.conn_id_on_b@ == conn_id_on_b,
    {
        OpenConfirm { port_id_on_b: PortIdAttribute::new(port_id_on_b), chan_id_on_b: ChannelIdAttribute::new(chan_id_on_b), port_id_on_a: CounterpartyPortIdAttribute::new(port_id_on_a), chan_id_on_a: CounterpartyChannelIdAttribute::new(chan_id_on_a), conn_id_on_b: ConnectionIdAttribute::new(conn_id_on_b) }
    }

    /// The value of the `port_id_on_b` attribute.
    pub fn port_id_on_b(&self) -> (r: &PortId)
        ensures
            *r == self.port_id_on_b@,
    {
        self.port_id_on_b.value()
    }

    /// The value of the `chan_id_on_b` attribute.
    pub fn chan_id_on_b(&self) -> (r: &ChannelId)
        ensures
            *r == self.chan_id_on_b@,
    {
        self.chan_id_on_b.value()
    }

    /// The value of the `port_id_on_a` attribute.
    pub fn port_id_on_a(&self) -> (r: &PortId)
        ensures
            *r == self.port_id_on_a@,
    {
        self.port_id_on_a.value()
    }

    /// The value of the `chan_id_on_a` attribute.
    pub fn chan_id_on_a(&self) -> (r: &ChannelId)
        ensures
            *r == self.chan_id_on_a@,
    {
        self.chan_id_on_a.value()
    }

    /// The value of the `conn_id_on_b` attribute.
    pub fn conn_id_on_b(&self) -> (r: &ConnectionId)
        ensures
            *r == self.conn_id_on_b@,
    {
        self.conn_id_on_b.value()
    }

    /// The ABCI event that this event becomes: its kind, and its
    /// attributes in the order of the fields.
    pub open spec fn abci_view(self) -> (Seq<char>, Seq<(Seq<char>, Seq<char>, bool)>) {
        (Self::EVENT_KIND@, seq![self.port_id_on_b.attribute_view(), self.chan_id_on_b.attribute_view(), self.port_id_on_a.attribute_view(), self.chan_id_on_a.attribute_view(), self.conn_id_on_b.attribute_view()])
    }
}

/// The event as an ABCI event: its kind and its attributes in the order of
/// the fields. A spec function cannot build the strings of an `Event`, so
/// `from` states its result in its own `ensures`.
impl From<OpenConfirm> for Event {
    fn from(event: OpenConfirm) -> (r: Event)
        ensures
            r@ == event.abci_view(),
    {
        let ghost view = event.abci_view();
        let attributes = vec![
            EventAttribute::from(event.port_id_on_b),
            EventAttribute::from(event.chan_id_on_b),
            EventAttribute::from(event.port_id_on_a),
            EventAttribute::from(event.chan_id_on_a),
            EventAttribute::from(event.conn_id_on_b),
        ];
        let r = Event { kind: String::from_str(OpenConfirm::EVENT_KIND), attributes };
        assert(attributes_view(r.attributes@) =~= view.1);
        r
    }
}

impl vstd::std_specs::convert::FromSpecImpl<OpenConfirm> for Event {
    open spec fn obeys_from_spec() -> bool {
        false
    }

    open spec fn from_spec(v: OpenConfirm) -> Event {
        arbitrary()
    }
}

impl OpenConfirm {
    /// Whether the spelling of every attribute value reads back as itself.
    pub open spec fn fields_read_back(self) -> bool {
        &&& reads_back(self.port_id_on_b@)
        &&& reads_back(self.chan_id_on_b@)
        &&& reads_back(self.port_id_on_a@)
        &&& reads_back(self.chan_id_on_a@)
        &&& reads_back(self.conn_id_on_b@)
    }

    /// Whether every attribute value is the one its spelling is read as.
    pub open spec fn fields_canonical(self) -> bool {
        &&& self.port_id_on_b@.canonical()
        &&& self.chan_id_on_b@.canonical()
        &&& self.port_id_on_a@.canonical()
        &&& self.chan_id_on_a@.canonical()
        &&& self.conn_id_on_b@.canonical()
    }

    /// Whether the two events hold the same values, attribute by
    /// attribute.
    pub open spec fn same_values(self, other: OpenConfirm) -> bool {
        &&& self.port_id_on_b@.same_value(other.port_id_on_b@)
        &&& self.chan_id_on_b@.same_value(other.chan_id_on_b@)
        &&& self.port_id_on_a@.same_value(other.port_id_on_a@)
        &&& self.chan_id_on_a@.same_value(other.chan_id_on_a@)
        &&& self.conn_id_on_b@.same_value(other.conn_id_on_b@)
    }
}

/// Reads the event back from its ABCI form. The kind must be this event's;
/// each attribute of the event must occur once and hold a value of its
/// type, and attributes with other keys are passed over. Where several
/// attributes are wrong, the error is that of the first wrong attribute
/// in the list, and where none is wrong but some are missing, that of the
/// first missing one in the order of the fields.
impl TryFrom<Event> for OpenConfirm {
    type Error = DecodingError;

    fn try_from(event: Event) -> (r: Result<OpenConfirm, DecodingError>)
        ensures
            event@.0 != OpenConfirm::EVENT_KIND@ ==> (r matches Err(
                DecodingError::MismatchedResourceName { expected, actual },
            ) && expected@ == OpenConfirm::EVENT_KIND@ && actual@ == event@.0),
            r is Ok <==> event@.0 == OpenConfirm::EVENT_KIND@
                && field_readable::<PortId>(event@.1, PortIdAttribute::ATTRIBUTE_KEY@)
                && field_readable::<ChannelId>(event@.1, ChannelIdAttribute::ATTRIBUTE_KEY@)
                && field_readable::<PortId>(event@.1, CounterpartyPortIdAttribute::ATTRIBUTE_KEY@)
                && field_readable::<ChannelId>(event@.1, CounterpartyChannelIdAttribute::ATTRIBUTE_KEY@)
                && field_readable::<ConnectionId>(event@.1, ConnectionIdAttribute::ATTRIBUTE_KEY@),
            r matches Ok(e) ==> {
                &&& e.port_id_on_b@.event_value() == <PortId as AttributeValue>::normal_form(
                    first_value(event@.1, PortIdAttribute::ATTRIBUTE_KEY@),
                )
                &&& e.chan_id_on_b@.event_value() == <ChannelId as AttributeValue>::normal_form(
                    first_value(event@.1, ChannelIdAttribute::ATTRIBUTE_KEY@),
                )
                &&& e.port_id_on_a@.event_value() == <PortId as AttributeValue>::normal_form(
                    first_value(event@.1, CounterpartyPortIdAttribute::ATTRIBUTE_KEY@),
                )
                &&& e.chan_id_on_a@.event_value() == <ChannelId as AttributeValue>::normal_form(
                    first_value(event@.1, CounterpartyChannelIdAttribute::ATTRIBUTE_KEY@),
                )
                &&& e.conn_id_on_b@.event_value() == <ConnectionId as AttributeValue>::normal_form(
                    first_value(event@.1, ConnectionIdAttribute::ATTRIBUTE_KEY@),
                )
            },
            event@.0 == OpenConfirm::EVENT_KIND@ ==> (r matches Err(e) ==> (e is MissingRawData <==> !(
                field_wrong::<PortId>(event@.1, PortIdAttribute::ATTRIBUTE_KEY@)
                || field_wrong::<ChannelId>(event@.1, ChannelIdAttribute::ATTRIBUTE_KEY@)
                || field_wrong::<PortId>(event@.1, CounterpartyPortIdAttribute::ATTRIBUTE_KEY@)
                || field_wrong::<ChannelId>(event@.1, CounterpartyChannelIdAttribute::ATTRIBUTE_KEY@)
                || field_wrong::<ConnectionId>(event@.1, ConnectionIdAttribute::ATTRIBUTE_KEY@)))),
            forall|x: OpenConfirm|
                #[trigger] x.abci_view() == event@ && x.fields_read_back() ==> (r matches Ok(y)
                    && y.abci_view() == x.abci_view()),
            forall|x: OpenConfirm|
                #[trigger] x.abci_view() == event@ && x.fields_read_back() && x.fields_canonical()
                    ==> (r matches Ok(y) && y.same_values(x)),
    {
        proof {
            assert forall|x: OpenConfirm| #[trigger] x.abci_view() == event@ && x.fields_read_back()
                implies {
                &&& field_readable::<PortId>(event@.1, PortIdAttribute::ATTRIBUTE_KEY@)
                &&& first_value(event@.1, PortIdAttribute::ATTRIBUTE_KEY@) == x.port_id_on_b@.event_value()
                &&& field_readable::<ChannelId>(event@.1, ChannelIdAttribute::ATTRIBUTE_KEY@)
                &&& first_value(event@.1, ChannelIdAttribute::ATTRIBUTE_KEY@) == x.chan_id_on_b@.event_value()
                &&& field_readable::<PortId>(event@.1, CounterpartyPortIdAttribute::ATTRIBUTE_KEY@)
                &&& first_value(event@.1, CounterpartyPortIdAttribute::ATTRIBUTE_KEY@) == x.port_id_on_a@.event_value()
                &&& field_readable::<ChannelId>(event@.1, CounterpartyChannelIdAttribute::ATTRIBUTE_KEY@)
                &&& first_value(event@.1, CounterpartyChannelIdAttribute::ATTRIBUTE_KEY@) == x.chan_id_on_a@.event_value()
                &&& field_readable::<ConnectionId>(event@.1, ConnectionIdAttribute::ATTRIBUTE_KEY@)
                &&& first_value(event@.1, ConnectionIdAttribute::ATTRIBUTE_KEY@) == x.conn_id_on_b@.event_value()
            } by {
                let s = x.abci_view().1;
                reveal_strlit("channel_id");
                reveal_strlit("connection_id");
                reveal_strlit("counterparty_channel_id");
                reveal_strlit("counterparty_port_id");
                reveal_strlit("port_id");
                assert(s.take(5) =~= s);
                assert(s.take(5).drop_last() =~= s.take(4));
                assert(s.take(4).drop_last() =~= s.take(3));
                assert(s.take(3).drop_last() =~= s.take(2));
                assert(s.take(2).drop_last() =~= s.take(1));
                assert(s.take(1).drop_last() =~= s.take(0));
                reveal_with_fuel(keys_distinct, 6);
                reveal_with_fuel(key_absent, 6);
                assert(s[0].0 == PortIdAttribute::ATTRIBUTE_KEY@ && s[0].0.len() == 7);
                assert(s[1].0 == ChannelIdAttribute::ATTRIBUTE_KEY@ && s[1].0.len() == 10);
                assert(s[2].0 == CounterpartyPortIdAttribute::ATTRIBUTE_KEY@ && s[2].0.len() == 20);
                assert(s[3].0 == CounterpartyChannelIdAttribute::ATTRIBUTE_KEY@ && s[3].0.len() == 23);
                assert(s[4].0 == ConnectionIdAttribute::ATTRIBUTE_KEY@ && s[4].0.len() == 13);
                assert(s.take(1).last() == s[0]);
                assert(key_absent(s.take(0), s[0].0));
                assert(keys_distinct(s.take(1)));
                assert(s.take(2).last() == s[1]);
                assert(key_absent(s.take(1), s[1].0));
                assert(keys_distinct(s.take(2)));
                assert(s.take(3).last() == s[2]);
                assert(key_absent(s.take(2), s[2].0));
                assert(keys_distinct(s.take(3)));
                assert(s.take(4).last() == s[3]);
                assert(key_absent(s.take(3), s[3].0));
                assert(keys_distinct(s.take(4)));
                assert(s.take(5).last() == s[4]);
                assert(key_absent(s.take(4), s[4].0));
                assert(keys_distinct(s.take(5)));
                lemma_distinct_keys(s, 0);
                lemma_distinct_keys(s, 1);
                lemma_distinct_keys(s, 2);
                lemma_distinct_keys(s, 3);
                lemma_distinct_keys(s, 4);
                assert(s[0].0 == PortIdAttribute::ATTRIBUTE_KEY@ && s[0].1 == x.port_id_on_b@.event_value());
                assert(s[1].0 == ChannelIdAttribute::ATTRIBUTE_KEY@ && s[1].1 == x.chan_id_on_b@.event_value());
                assert(s[2].0 == CounterpartyPortIdAttribute::ATTRIBUTE_KEY@ && s[2].1 == x.port_id_on_a@.event_value());
                assert(s[3].0 == CounterpartyChannelIdAttribute::ATTRIBUTE_KEY@ && s[3].1 == x.chan_id_on_a@.event_value());
                assert(s[4].0 == ConnectionIdAttribute::ATTRIBUTE_KEY@ && s[4].1 == x.conn_id_on_b@.event_value());
            }
        }
        let expected = String::from_str(OpenConfirm::EVENT_KIND);
        if !(event.kind == expected) {
            return Err(DecodingError::MismatchedResourceName { expected, actual: event.kind });
        }
        let mut failure: Option<(usize, DecodingError)> = None;
        let port_id_on_b = match scan_field::<PortId>(
            &event.attributes,
            PortIdAttribute::ATTRIBUTE_KEY,
            PortIdAttribute::FRIENDLY_NAME,
        ) {
            FieldScan::Found(v) => Some(v),
            FieldScan::Missing => None,
            FieldScan::Failed { at, error } => {
                failure = earlier_failure(failure, at, error);
                None
            },
        };
        let chan_id_on_b = match scan_field::<ChannelId>(
            &event.attributes,
            ChannelIdAttribute::ATTRIBUTE_KEY,
            ChannelIdAttribute::FRIENDLY_NAME,
        ) {
            FieldScan::Found(v) => Some(v),
            FieldScan::Missing => None,
            FieldScan::Failed { at, error } => {
                failure = earlier_failure(failure, at, error);
                None
            },
        };
        let port_id_on_a = match scan_field::<PortId>(
            &event.attributes,
            CounterpartyPortIdAttribute::ATTRIBUTE_KEY,
            CounterpartyPortIdAttribute::FRIENDLY_NAME,
        ) {
            FieldScan::Found(v) => Some(v),
            FieldScan::Missing => None,
            FieldScan::Failed { at, error } => {
                failure = earlier_failure(failure, at, error);
                None
            },
        };
        let chan_id_on_a = match scan_field::<ChannelId>(
            &event.attributes,
            CounterpartyChannelIdAttribute::ATTRIBUTE_KEY,
            CounterpartyChannelIdAttribute::FRIENDLY_NAME,
        ) {
            FieldScan::Found(v) => Some(v),
            FieldScan::Missing => None,
            FieldScan::Failed { at, error } => {
                failure = earlier_failure(failure, at, error);
                None
            },
        };
        let conn_id_on_b = match scan_field::<ConnectionId>(
            &event.attributes,
            ConnectionIdAttribute::ATTRIBUTE_KEY,
            ConnectionIdAttribute::FRIENDLY_NAME,
        ) {
            FieldScan::Found(v) => Some(v),
            FieldScan::Missing => None,
            FieldScan::Failed { at, error } => {
                failure = earlier_failure(failure, at, error);
                None
            },
        };
        if let Some((_, error)) = failure {
            return Err(error);
        }
        let port_id_on_b = match port_id_on_b {
            Some(v) => PortIdAttribute(v),
            None => {
                return Err(missing_attribute(PortIdAttribute::FRIENDLY_NAME));
            },
        };
        let chan_id_on_b = match chan_id_on_b {
            Some(v) => ChannelIdAttribute(v),
            None => {
                return Err(missing_attribute(ChannelIdAttribute::FRIENDLY_NAME));
            },
        };
        let port_id_on_a = match port_id_on_a {
            Some(v) => CounterpartyPortIdAttribute(v),
            None => {
                return Err(missing_attribute(CounterpartyPortIdAttribute::FRIENDLY_NAME));
            },
        };
        let chan_id_on_a = match chan_id_on_a {
            Some(v) => CounterpartyChannelIdAttribute(v),
            None => {
                return Err(missing_attribute(CounterpartyChannelIdAttribute::FRIENDLY_NAME));
            },
        };
        let conn_id_on_b = match conn_id_on_b {
            Some(v) => ConnectionIdAttribute(v),
            None => {
                return Err(missing_attribute(ConnectionIdAttribute::FRIENDLY_NAME));
            },
        };
        let r = OpenConfirm { port_id_on_b, chan_id_on_b, port_id_on_a, chan_id_on_a, conn_id_on_b };
        proof {
            assert forall|x: OpenConfirm| #[trigger] x.abci_view() == event@ && x.fields_read_back()
                implies r.abci_view() == x.abci_view() by {
                assert(r.abci_view().1 =~= x.abci_view().1);
            }
            assert forall|x: OpenConfirm|
                #[trigger] x.abci_view() == event@ && x.fields_read_back() && x.fields_canonical()
                implies r.same_values(x) by {
                <PortId as AttributeValue>::lemma_spelling_injective(r.port_id_on_b@, x.port_id_on_b@);
                <ChannelId as AttributeValue>::lemma_spelling_injective(r.chan_id_on_b@, x.chan_id_on_b@);
                <PortId as AttributeValue>::lemma_spelling_injective(r.port_id_on_a@, x.port_id_on_a@);
                <ChannelId as AttributeValue>::lemma_spelling_injective(r.chan_id_on_a@, x.chan_id_on_a@);
                <ConnectionId as AttributeValue>::lemma_spelling_injective(r.conn_id_on_b@, x.conn_id_on_b@);
            }
        }
        Ok(r)
    }
}

impl vstd::std_specs::convert::TryFromSpecImpl<Event> for OpenConfirm {
    open spec fn obeys_try_from_spec() -> bool {
        false
    }

    open spec fn try_from_spec(v: Event) -> Result<OpenConfirm, DecodingError> {
        arbitrary()
    }
}

/// Reads the event from its kind and its attributes given as key-value
/// pairs, as `try_from` reads the ABCI event with those attributes.
impl TryFrom<(String, Vec<(String, String)>)> for OpenConfirm {
    type Error = DecodingError;

    fn try_from(parts: (String, Vec<(String, String)>)) -> (r: Result<OpenConfirm, DecodingError>)
        ensures
            parts.0@ != OpenConfirm::EVENT_KIND@ ==> (r matches Err(
                DecodingError::MismatchedResourceName { expected, actual },
            ) && expected@ == OpenConfirm::EVENT_KIND@ && actual@ == parts.0@),
            r is Ok <==> parts.0@ == OpenConfirm::EVENT_KIND@
                && field_readable::<PortId>(pairs_view(parts.1@), PortIdAttribute::ATTRIBUTE_KEY@)
                && field_readable::<ChannelId>(pairs_view(parts.1@), ChannelIdAttribute::ATTRIBUTE_KEY@)
                && field_readable::<PortId>(pairs_view(parts.1@), CounterpartyPortIdAttribute::ATTRIBUTE_KEY@)
                && field_readable::<ChannelId>(pairs_view(parts.1@), CounterpartyChannelIdAttribute::ATTRIBUTE_KEY@)
                && field_readable::<ConnectionId>(pairs_view(parts.1@), ConnectionIdAttribute::ATTRIBUTE_KEY@),
            r matches Ok(e) ==> {
                &&& e.port_id_on_b@.event_value() == <PortId as AttributeValue>::normal_form(
                    first_value(pairs_view(parts.1@), PortIdAttribute::ATTRIBUTE_KEY@),
                )
                &&& e.chan_id_on_b@.event_value() == <ChannelId as AttributeValue>::normal_form(
                    first_value(pairs_view(parts.1@), ChannelIdAttribute::ATTRIBUTE_KEY@),
                )
                &&& e.port_id_on_a@.event_value() == <PortId as AttributeValue>::normal_form(
                    first_value(pairs_view(parts.1@), CounterpartyPortIdAttribute::ATTRIBUTE_KEY@),
                )
                &&& e.chan_id_on_a@.event_value() == <ChannelId as AttributeValue>::normal_form(
                    first_value(pairs_view(parts.1@), CounterpartyChannelIdAttribute::ATTRIBUTE_KEY@),
                )
                &&& e.conn_id_on_b@.event_value() == <ConnectionId as AttributeValue>::normal_form(
                    first_value(pairs_view(parts.1@), ConnectionIdAttribute::ATTRIBUTE_KEY@),
                )
            },
            parts.0@ == OpenConfirm::EVENT_KIND@ ==> (r matches Err(e) ==> (e is MissingRawData <==> !(
                field_wrong::<PortId>(pairs_view(parts.1@), PortIdAttribute::ATTRIBUTE_KEY@)
                || field_wrong::<ChannelId>(pairs_view(parts.1@), ChannelIdAttribute::ATTRIBUTE_KEY@)
                || field_wrong::<PortId>(pairs_view(parts.1@), CounterpartyPortIdAttribute::ATTRIBUTE_KEY@)
                || field_wrong::<ChannelId>(pairs_view(parts.1@), CounterpartyChannelIdAttribute::ATTRIBUTE_KEY@)
                || field_wrong::<ConnectionId>(pairs_view(parts.1@), ConnectionIdAttribute::ATTRIBUTE_KEY@)))),
            forall|x: OpenConfirm|
                #[trigger] x.abci_view() == (parts.0@, pairs_view(parts.1@)) && x.fields_read_back() ==> (r matches Ok(y)
                    && y.abci_view() == x.abci_view()),
            forall|x: OpenConfirm|
                #[trigger] x.abci_view() == (parts.0@, pairs_view(parts.1@)) && x.fields_read_back() && x.fields_canonical()
                    ==> (r matches Ok(y) && y.same_values(x)),
    {
        let (kind, pairs) = parts;
        <OpenConfirm as TryFrom<Event>>::try_from(Event::from_pairs(kind, pairs))
    }
}

impl vstd::std_specs::convert::TryFromSpecImpl<(String, Vec<(String, String)>)> for OpenConfirm {
    open spec fn obeys_try_from_spec() -> bool {
        false
    }

    open spec fn try_from_spec(v: (String, Vec<(String, String)>)) -> Result<OpenConfirm, DecodingError> {
        arbitrary()
    }
}

/// The `channel_close_init` event: a channel is being closed.
#[derive(Clone, Debug, PartialEq, Eq)]
pub struct CloseInit {
    pub port_id_on_a: PortIdAttribute,
    pub chan_id_on_a: ChannelIdAttribute,
    pub port_id_on_b: CounterpartyPortIdAttribute,
    pub chan_id_on_b: CounterpartyChannelIdAttribute,
    pub conn_id_on_a: ConnectionIdAttribute,
}

impl CloseInit {
    /// The kind of this event in ABCI.
    pub const EVENT_KIND: &'static str = "channel_close_init";

    /// The event with the given attribute values.
    pub fn new(port_id_on_a: PortId, chan_id_on_a: ChannelId, port_id_on_b: PortId, chan_id_on_b: ChannelId, conn_id_on_a: ConnectionId) -> (r: CloseInit)
        ensures
            r.port_id_on_a@ == port_id_on_a,
            r.chan_id_on_a@ == chan_id_on_a,
            r.port_id_on_b@ == port_id_on_b,
            r.chan_id_on_b@ == chan_id_on_b,
            r.conn_id_on_a@ == conn_id_on_a,
    {
        CloseInit { port_id_on_a: PortIdAttribute::new(port_id_on_a), chan_id_on_a: ChannelIdAttribute::new(chan_id_on_a), port_id_on_b: CounterpartyPortIdAttribute::new(port_id_on_b), chan_id_on_b: CounterpartyChannelIdAttribute::new(chan_id_on_b), conn_id_on_a: ConnectionIdAttribute::new(conn_id_on_a) }
    }

    /// The value of the `port_id_on_a` attribute.
    pub fn port_id_on_a(&self) -> (r: &PortId)
        ensures
            *r == self.port_id_on_a@,
    {
        self.port_id_on_a.value()
    }

    /// The value of the `chan_id_on_a` attribute.
    pub fn chan_id_on_a(&self) -> (r: &ChannelId)
        ensures
            *r == self.chan_id_on_a@,
    {
        self.chan_id_on_a.value()
    }

    /// The value of the `port_id_on_b` attribute.
    pub fn port_id_on_b(&self) -> (r: &PortId)
        ensures
            *r == self.port_id_on_b@,
    {
        self.port_id_on_b.value()
    }

    /// The value of the `chan_id_on_b` attribute.
    pub fn chan_id_on_b(&self) -> (r: &ChannelId)
        ensures
            *r == self.chan_id_on_b@,
    {
        self.chan_id_on_b.value()
    }

    /// The value of the `conn_id_on_a` attribute.
    pub fn conn_id_on_a(&self) -> (r: &ConnectionId)
        ensures
            *r == self.conn_id_on_a@,
    {
        self.conn_id_on_a.value()
    }

    /// The ABCI event that this event becomes: its kind, and its
    /// attributes in the order of the fields.
    pub open spec fn abci_view(self) -> (Seq<char>, Seq<(Seq<char>, Seq<char>, bool)>) {
        (Self::EVENT_KIND@, seq![self.port_id_on_a.attribute_view(), self.chan_id_on_a.attribute_view(), self.port_id_on_b.attribute_view(), self.chan_id_on_b.attribute_view(), self.conn_id_on_a.attribute_view()])
    }
}

/// The event as an ABCI event: its kind and its attributes in the order of
/// the fields. A spec function cannot build the strings of an `Event`, so
/// `from` states its result in its own `ensures`.
impl From<CloseInit> for Event {
    fn from(event: CloseInit) -> (r: Event)
        ensures
            r@ == event.abci_view(),
    {
        let ghost view = event.abci_view();
        let attributes = vec![
            EventAttribute::from(event.port_id_on_a),
            EventAttribute::from(event.chan_id_on_a),
            EventAttribute::from(event.port_id_on_b),
            EventAttribute::from(event.chan_id_on_b),
            EventAttribute::from(event.conn_id_on_a),
        ];
        let r = Event { kind: String::from_str(CloseInit::EVENT_KIND), attributes };
        assert(attributes_view(r.attributes@) =~= view.1);
        r
    }
}

impl vstd::std_specs::convert::FromSpecImpl<CloseInit> for Event {
    open spec fn obeys_from_spec() -> bool {
        false
    }

    open spec fn from_spec(v: CloseInit) -> Event {
        arbitrary()
    }
}

impl CloseInit {
    /// Whether the spelling of every attribute value reads back as itself.
    pub open spec fn fields_read_back(self) -> bool {
        &&& reads_back(self.port_id_on_a@)
        &&& reads_back(self.chan_id_on_a@)
        &&& reads_back(self.port_id_on_b@)
        &&& reads_back(self.chan_id_on_b@)
        &&& reads_back(self.conn_id_on_a@)
    }

    /// Whether every attribute value is the one its spelling is read as.
    pub open spec fn fields_canonical(self) -> bool {
        &&& self.port_id_on_a@.canonical()
        &&& self.chan_id_on_a@.canonical()
        &&& self.port_id_on_b@.canonical()
        &&& self.chan_id_on_b@.canonical()
        &&& self.conn_id_on_a@.canonical()
    }

    /// Whether the two events hold the same values, attribute by
    /// attribute.
    pub open spec fn same_values(self, other: CloseInit) -> bool {
        &&& self.port_id_on_a@.same_value(other.port_id_on_a@)
        &&& self.chan_id_on_a@.same_value(other.chan_id_on_a@)
        &&& self.port_id_on_b@.same_value(other.port_id_on_b@)
        &&& self.chan_id_on_b@.same_value(other.chan_id_on_b@)
        &&& self.conn_id_on_a@.same_value(other.conn_id_on_a@)
    }
}

/// Reads the event back from its ABCI form. The kind must be this event's;
/// each attribute of the event must occur once and hold a value of its
/// type, and attributes with other keys are passed over. Where several
/// attributes are wrong, the error is that of the first wrong attribute
/// in the list, and where none is wrong but some are missing, that of the
/// first missing one in the order of the fields.
impl TryFrom<Event> for CloseInit {
    type Error = DecodingError;

    fn try_from(event: Event) -> (r: Result<CloseInit, DecodingError>)
        ensures
            event@.0 != CloseInit::EVENT_KIND@ ==> (r matches Err(
                DecodingError::MismatchedResourceName { expected, actual },
            ) && expected@ == CloseInit::EVENT_KIND@ && actual@ == event@.0),
            r is Ok <==> event@.0 == CloseInit::EVENT_KIND@
                && field_readable::<PortId>(event@.1, PortIdAttribute::ATTRIBUTE_KEY@)
                && field_readable::<ChannelId>(event@.1, ChannelIdAttribute::ATTRIBUTE_KEY@)
                && field_readable::<PortId>(event@.1, CounterpartyPortIdAttribute::ATTRIBUTE_KEY@)
                && field_readable::<ChannelId>(event@.1, CounterpartyChannelIdAttribute::ATTRIBUTE_KEY@)
                && field_readable::<ConnectionId>(event@.1, ConnectionIdAttribute::ATTRIBUTE_KEY@),
            r matches Ok(e) ==> {
                &&& e.port_id_on_a@.event_value() == <PortId as AttributeValue>::normal_form(
                    first_value(event@.1, PortIdAttribute::ATTRIBUTE_KEY@),
                )
                &&& e.chan_id_on_a@.event_value() == <ChannelId as AttributeValue>::normal_form(
                    first_value(event@.1, ChannelIdAttribute::ATTRIBUTE_KEY@),
                )
                &&& e.port_id_on_b@.event_value() == <PortId as AttributeValue>::normal_form(
                    first_value(event@.1, CounterpartyPortIdAttribute::ATTRIBUTE_KEY@),
                )
                &&& e.chan_id_on_b@.event_value() == <ChannelId as AttributeValue>::normal_form(
                    first_value(event@.1, CounterpartyChannelIdAttribute::ATTRIBUTE_KEY@),
                )
                &&& e.conn_id_on_a@.event_value() == <ConnectionId as AttributeValue>::normal_form(
                    first_value(event@.1, ConnectionIdAttribute::ATTRIBUTE_KEY@),
                )
            },
            event@.0 == CloseInit::EVENT_KIND@ ==> (r matches Err(e) ==> (e is MissingRawData <==> !(
                field_wrong::<PortId>(event@.1, PortIdAttribute::ATTRIBUTE_KEY@)
                || field_wrong::<ChannelId>(event@.1, ChannelIdAttribute::ATTRIBUTE_KEY@)
                || field_wrong::<PortId>(event@.1, CounterpartyPortIdAttribute::ATTRIBUTE_KEY@)
                || field_wrong::<ChannelId>(event@.1, CounterpartyChannelIdAttribute::ATTRIBUTE_KEY@)
                || field_wrong::<ConnectionId>(event@.1, ConnectionIdAttribute::ATTRIBUTE_KEY@)))),
            forall|x: CloseInit|
                #[trigger] x.abci_view() == event@ && x.fields_read_back() ==> (r matches Ok(y)
                    && y.abci_view() == x.abci_view()),
            forall|x: CloseInit|
                #[trigger] x.abci_view() == event@ && x.fields_read_back() && x.fields_canonical()
                    ==> (r matches Ok(y) && y.same_values(x)),
    {
        proof {
            assert forall|x: CloseInit| #[trigger] x.abci_view() == event@ && x.fields_read_back()
                implies {
                &&& field_readable::<PortId>(event@.1, PortIdAttribute::ATTRIBUTE_KEY@)
                &&& first_value(event@.1, PortIdAttribute::ATTRIBUTE_KEY@) == x.port_id_on_a@.event_value()
                &&& field_readable::<ChannelId>(event@.1, ChannelIdAttribute::ATTRIBUTE_KEY@)
                &&& first_value(event@.1, ChannelIdAttribute::ATTRIBUTE_KEY@) == x.chan_id_on_a@.event_value()
                &&& field_readable::<PortId>(event@.1, CounterpartyPortIdAttribute::ATTRIBUTE_KEY@)
                &&& first_value(event@.1, CounterpartyPortIdAttribute::ATTRIBUTE_KEY@) == x.port_id_on_b@.event_value()
                &&& field_readable::<ChannelId>(event@.1, CounterpartyChannelIdAttribute::ATTRIBUTE_KEY@)
                &&& first_value(event@.1, CounterpartyChannelIdAttribute::ATTRIBUTE_KEY@) == x.chan_id_on_b@.event_value()
                &&& field_readable::<ConnectionId>(event@.1, ConnectionIdAttribute::ATTRIBUTE_KEY@)
                &&& first_value(event@.1, ConnectionIdAttribute::ATTRIBUTE_KEY@) == x.conn_id_on_a@.event_value()
            } by {
                let s = x.abci_view().1;
                reveal_strlit("channel_id");
                reveal_strlit("connection_id");
                reveal_strlit("counterparty_channel_id");
                reveal_strlit("counterparty_port_id");
                reveal_strlit("port_id");
                assert(s.take(5) =~= s);
                assert(s.take(5).drop_last() =~= s.take(4));
                assert(s.take(4).drop_last() =~= s.take(3));
                assert(s.take(3).drop_last() =~= s.take(2));
                assert(s.take(2).drop_last() =~= s.take(1));
                assert(s.take(1).drop_last() =~= s.take(0));
                reveal_with_fuel(keys_distinct, 6);
                reveal_with_fuel(key_absent, 6);
                assert(s[0].0 == PortIdAttribute::ATTRIBUTE_KEY@ && s[0].0.len() == 7);
                assert(s[1].0 == ChannelIdAttribute::ATTRIBUTE_KEY@ && s[1].0.len() == 10);
                assert(s[2].0 == CounterpartyPortIdAttribute::ATTRIBUTE_KEY@ && s[2].0.len() == 20);
                assert(s[3].0 == CounterpartyChannelIdAttribute::ATTRIBUTE_KEY@ && s[3].0.len() == 23);
                assert(s[4].0 == ConnectionIdAttribute::ATTRIBUTE_KEY@ && s[4].0.len() == 13);
                assert(s.take(1).last() == s[0]);
                assert(key_absent(s.take(0), s[0].0));
                assert(keys_distinct(s.take(1)));
                assert(s.take(2).last() == s[1]);
                assert(key_absent(s.take(1), s[1].0));
                assert(keys_distinct(s.take(2)));
                assert(s.take(3).last() == s[2]);
                assert(key_absent(s.take(2), s[2].0));
                assert(keys_distinct(s.take(3)));
                assert(s.take(4).last() == s[3]);
                assert(key_absent(s.take(3), s[3].0));
                assert(keys_distinct(s.take(4)));
                assert(s.take(5).last() == s[4]);
                assert(key_absent(s.take(4), s[4].0));
                assert(keys_distinct(s.take(5)));
                lemma_distinct_keys(s, 0);
                lemma_distinct_keys(s, 1);
                lemma_distinct_keys(s, 2);
                lemma_distinct_keys(s, 3);
                lemma_distinct_keys(s, 4);
                assert(s[0].0 == PortIdAttribute::ATTRIBUTE_KEY@ && s[0].1 == x.port_id_on_a@.event_value());
                assert(s[1].0 == ChannelIdAttribute::ATTRIBUTE_KEY@ && s[1].1 == x.chan_id_on_a@.event_value());
                assert(s[2].0 == CounterpartyPortIdAttribute::ATTRIBUTE_KEY@ && s[2].1 == x.port_id_on_b@.event_value());
                assert(s[3].0 == CounterpartyChannelIdAttribute::ATTRIBUTE_KEY@ && s[3].1 == x.chan_id_on_b@.event_value());
                assert(s[4].0 == ConnectionIdAttribute::ATTRIBUTE_KEY@ && s[4].1 == x.conn_id_on_a@.event_value());
            }
        }
        let expected = String::from_str(CloseInit::EVENT_KIND);
        if !(event.kind == expected) {
            return Err(DecodingError::MismatchedResourceName { expected, actual: event.kind });
        }
        let mut failure: Option<(usize, DecodingError)> = None;
        let port_id_on_a = match scan_field::<PortId>(
            &event.attributes,
            PortIdAttribute::ATTRIBUTE_KEY,
            PortIdAttribute::FRIENDLY_NAME,
        ) {
            FieldScan::Found(v) => Some(v),
            FieldScan::Missing => None,
            FieldScan::Failed { at, error } => {
                failure = earlier_failure(failure, at, error);
                None
            },
        };
        let chan_id_on_a = match scan_field::<ChannelId>(
            &event.attributes,
            ChannelIdAttribute::ATTRIBUTE_KEY,
            ChannelIdAttribute::FRIENDLY_NAME,
        ) {
            FieldScan::Found(v) => Some(v),
            FieldScan::Missing => None,
            FieldScan::Failed { at, error } => {
                failure = earlier_failure(failure, at, error);
                None
            },
        };
        let port_id_on_b = match scan_field::<PortId>(
            &event.attributes,
            CounterpartyPortIdAttribute::ATTRIBUTE_KEY,
            CounterpartyPortIdAttribute::FRIENDLY_NAME,
        ) {
            FieldScan::Found(v) => Some(v),
            FieldScan::Missing => None,
            FieldScan::Failed { at, error } => {
                failure = earlier_failure(failure, at, error);
                None
            },
        };
        let chan_id_on_b = match scan_field::<ChannelId>(
            &event.attributes,
            CounterpartyChannelIdAttribute::ATTRIBUTE_KEY,
            CounterpartyChannelIdAttribute::FRIENDLY_NAME,
        ) {
            FieldScan::Found(v) => Some(v),
            FieldScan::Missing => None,
            FieldScan::Failed { at, error } => {
                failure = earlier_failure(failure, at, error);
                None
            },
        };
        let conn_id_on_a = match scan_field::<ConnectionId>(
            &event.attributes,
            ConnectionIdAttribute::ATTRIBUTE_KEY,
            ConnectionIdAttribute::FRIENDLY_NAME,
        ) {
            FieldScan::Found(v) => Some(v),
            FieldScan::Missing => None,
            FieldScan::Failed { at, error } => {
                failure = earlier_failure(failure, at, error);
                None
            },
        };
        if let Some((_, error)) = failure {
            return Err(error);
        }
        let port_id_on_a = match port_id_on_a {
            Some(v) => PortIdAttribute(v),
            None => {
                return Err(missing_attribute(PortIdAttribute::FRIENDLY_NAME));
            },
        };
        let chan_id_on_a = match chan_id_on_a {
            Some(v) => ChannelIdAttribute(v),
            None => {
                return Err(missing_attribute(ChannelIdAttribute::FRIENDLY_NAME));
            },
        };
        let port_id_on_b = match port_id_on_b {
            Some(v) => CounterpartyPortIdAttribute(v),
            None => {
                return Err(missing_attribute(CounterpartyPortIdAttribute::FRIENDLY_NAME));
            },
        };
        let chan_id_on_b = match chan_id_on_b {
            Some(v) => CounterpartyChannelIdAttribute(v),
            None => {
                return Err(missing_attribute(CounterpartyChannelIdAttribute::FRIENDLY_NAME));
            },
        };
        let conn_id_on_a = match conn_id_on_a {
            Some(v) => ConnectionIdAttribute(v),
            None => {
                return Err(missing_attribute(ConnectionIdAttribute::FRIENDLY_NAME));
            },
        };
        let r = CloseInit { port_id_on_a, chan_id_on_a, port_id_on_b, chan_id_on_b, conn_id_on_a };
        proof {
            assert forall|x: CloseInit| #[trigger] x.abci_view() == event@ && x.fields_read_back()
                implies r.abci_view() == x.abci_view() by {
                assert(r.abci_view().1 =~= x.abci_view().1);
            }
            assert forall|x: CloseInit|
                #[trigger] x.abci_view() == event@ && x.fields_read_back() && x.fields_canonical()
                implies r.same_values(x) by {
                <PortId as AttributeValue>::lemma_spelling_injective(r.port_id_on_a@, x.port_id_on_a@);
                <ChannelId as AttributeValue>::lemma_spelling_injective(r.chan_id_on_a@, x.chan_id_on_a@);
                <PortId as AttributeValue>::lemma_spelling_injective(r.port_id_on_b@, x.port_id_on_b@);
                <ChannelId as AttributeValue>::lemma_spelling_injective(r.chan_id_on_b@, x.chan_id_on_b@);
                <ConnectionId as AttributeValue>::lemma_spelling_injective(r.conn_id_on_a@, x.conn_id_on_a@);
            }
        }
        Ok(r)
    }
}

impl vstd::std_specs::convert::TryFromSpecImpl<Event> for CloseInit {
    open spec fn obeys_try_from_spec() -> bool {
        false
    }

    open spec fn try_from_spec(v: Event) -> Result<CloseInit, DecodingError> {
        arbitrary()
    }
}

/// Reads the event from its kind and its attributes given as key-value
/// pairs, as `try_from` reads the ABCI event with those attributes.
impl TryFrom<(String, Vec<(String, String)>)> for CloseInit {
    type Error = DecodingError;

    fn try_from(parts: (String, Vec<(String, String)>)) -> (r: Result<CloseInit, DecodingError>)
        ensures
            parts.0@ != CloseInit::EVENT_KIND@ ==> (r matches Err(
                DecodingError::MismatchedResourceName { expected, actual },
            ) && expected@ == CloseInit::EVENT_KIND@ && actual@ == parts.0@),
            r is Ok <==> parts.0@ == CloseInit::EVENT_KIND@
                && field_readable::<PortId>(pairs_view(parts.1@), PortIdAttribute::ATTRIBUTE_KEY@)
                && field_readable::<ChannelId>(pairs_view(parts.1@), ChannelIdAttribute::ATTRIBUTE_KEY@)
                && field_readable::<PortId>(pairs_view(parts.1@), CounterpartyPortIdAttribute::ATTRIBUTE_KEY@)
                && field_readable::<ChannelId>(pairs_view(parts.1@), CounterpartyChannelIdAttribute::ATTRIBUTE_KEY@)
                && field_readable::<ConnectionId>(pairs_view(parts.1@), ConnectionIdAttribute::ATTRIBUTE_KEY@),
            r matches Ok(e) ==> {
                &&& e.port_id_on_a@.event_value() == <PortId as AttributeValue>::normal_form(
                    first_value(pairs_view(parts.1@), PortIdAttribute::ATTRIBUTE_KEY@),
                )
                &&& e.chan_id_on_a@.event_value() == <ChannelId as AttributeValue>::normal_form(
                    first_value(pairs_view(parts.1@), ChannelIdAttribute::ATTRIBUTE_KEY@),
                )
                &&& e.port_id_on_b@.event_value() == <PortId as AttributeValue>::normal_form(
                    first_value(pairs_view(parts.1@), CounterpartyPortIdAttribute::ATTRIBUTE_KEY@),
                )
                &&& e.chan_id_on_b@.event_value() == <ChannelId as AttributeValue>::normal_form(
                    first_value(pairs_view(parts.1@), CounterpartyChannelIdAttribute::ATTRIBUTE_KEY@),
                )
                &&& e.conn_id_on_a@.event_value() == <ConnectionId as AttributeValue>::normal_form(
                    first_value(pairs_view(parts.1@), ConnectionIdAttribute::ATTRIBUTE_KEY@),
                )
            },
            parts.0@ == CloseInit::EVENT_KIND@ ==> (r matches Err(e) ==> (e is MissingRawData <==> !(
                field_wrong::<PortId>(pairs_view(parts.1@), PortIdAttribute::ATTRIBUTE_KEY@)
                || field_wrong::<ChannelId>(pairs_view(parts.1@), ChannelIdAttribute::ATTRIBUTE_KEY@)
                || field_wrong::<PortId>(pairs_view(parts.1@), CounterpartyPortIdAttribute::ATTRIBUTE_KEY@)
                || field_wrong::<ChannelId>(pairs_view(parts.1@), CounterpartyChannelIdAttribute::ATTRIBUTE_KEY@)
                || field_wrong::<ConnectionId>(pairs_view(parts.1@), ConnectionIdAttribute::ATTRIBUTE_KEY@)))),
            forall|x: CloseInit|
                #[trigger] x.abci_view() == (parts.0@, pairs_view(parts.1@)) && x.fields_read_back() ==> (r matches Ok(y)
                    && y.abci_view() == x.abci_view()),
            forall|x: CloseInit|
                #[trigger] x.abci_view() == (parts.0@, pairs_view(parts.1@)) && x.fields_read_back() && x.fields_canonical()
                    ==> (r matches Ok(y) && y.same_values(x)),
    {
        let (kind, pairs) = parts;
        <CloseInit as TryFrom<Event>>::try_from(Event::from_pairs(kind, pairs))
    }
}

impl vstd::std_specs::convert::TryFromSpecImpl<(String, Vec<(String, String)>)> for CloseInit {
    open spec fn obeys_try_from_spec() -> bool {
        false
    }

    open spec fn try_from_spec(v: (String, Vec<(String, String)>)) -> Result<CloseInit, DecodingError> {
        arbitrary()
    }
}

/// The `channel_close_confirm` event: the counterparty confirmed that a channel is closed.
#[derive(Clone, Debug, PartialEq, Eq)]
pub struct CloseConfirm {
    pub port_id_on_b: PortIdAttribute,
    pub chan_id_on_b: ChannelIdAttribute,
    pub port_id_on_a: CounterpartyPortIdAttribute,
    pub chan_id_on_a: CounterpartyChannelIdAttribute,
    pub conn_id_on_b: ConnectionIdAttribute,
}

impl CloseConfirm {
    /// The kind of this event in ABCI.
    pub const EVENT_KIND: &'static str = "channel_close_confirm";

    /// The event with the given attribute values.
    pub fn new(port_id_on_b: PortId, chan_id_on_b: ChannelId, port_id_on_a: PortId, chan_id_on_a: ChannelId, conn_id_on_b: ConnectionId) -> (r: CloseConfirm)
        ensures
            r.port_id_on_b@ == port_id_on_b,
            r.chan_id_on_b@ == chan_id_on_b,
            r.port_id_on_a@ == port_id_on_a,
            r.chan_id_on_a@ == chan_id_on_a,
            r.conn_id_on_b@ == conn_id_on_b,
    {
        CloseConfirm { port_id_on_b: PortIdAttribute::new(port_id_on_b), chan_id_on_b: ChannelIdAttribute::new(chan_id_on_b), port_id_on_a: CounterpartyPortIdAttribute::new(port_id_on_a), chan_id_on_a: CounterpartyChannelIdAttribute::new(chan_id_on_a), conn_id_on_b: ConnectionIdAttribute::new(conn_id_on_b) }
    }

    /// The value of the `port_id_on_b` attribute.
    pub fn port_id_on_b(&self) -> (r: &PortId)
        ensures
            *r == self.port_id_on_b@,
    {
        self.port_id_on_b.value()
    }

    /// The value of the `chan_id_on_b` attribute.
    pub fn chan_id_on_b(&self) -> (r: &ChannelId)
        ensures
            *r == self.chan_id_on_b@,
    {
        self.chan_id_on_b.value()
    }

    /// The value of the `port_id_on_a` attribute.
    pub fn port_id_on_a(&self) -> (r: &PortId)
        ensures
            *r == self.port_id_on_a@,
    {
        self.port_id_on_a.value()
    }

    /// The value of the `chan_id_on_a` attribute.
    pub fn chan_id_on_a(&self) -> (r: &ChannelId)
        ensures
            *r == self.chan_id_on_a@,
    {
        self.chan_id_on_a.value()
    }

    /// The value of the `conn_id_on_b` attribute.
    pub fn conn_id_on_b(&self) -> (r: &ConnectionId)
        ensures
            *r == self.conn_id_on_b@,
    {
        self.conn_id_on_b.value()
    }

    /// The ABCI event that this event becomes: its kind, and its
    /// attributes in the order of the fields.
    pub open spec fn abci_view(self) -> (Seq<char>, Seq<(Seq<char>, Seq<char>, bool)>) {
        (Self::EVENT_KIND@, seq![self.port_id_on_b.attribute_view(), self.chan_id_on_b.attribute_view(), self.port_id_on_a.attribute_view(), self.chan_id_on_a.attribute_view(), self.conn_id_on_b.attribute_view()])
    }
}

/// The event as an ABCI event: its kind and its attributes in the order of
/// the fields. A spec function cannot build the strings of an `Event`, so
/// `from` states its result in its own `ensures`.
impl From<CloseConfirm> for Event {
    fn from(event: CloseConfirm) -> (r: Event)
        ensures
            r@ == event.abci_view(),
    {
        let ghost view = event.abci_view();
        let attributes = vec![
            EventAttribute::from(event.port_id_on_b),
            EventAttribute::from(event.chan_id_on_b),
            EventAttribute::from(event.port_id_on_a),
            EventAttribute::from(event.chan_id_on_a),
            EventAttribute::from(event.conn_id_on_b),
        ];
        let r = Event { kind: String::from_str(CloseConfirm::EVENT_KIND), attributes };
        assert(attributes_view(r.attributes@) =~= view.1);
        r
    }
}

impl vstd::std_specs::convert::FromSpecImpl<CloseConfirm> for Event {
    open spec fn obeys_from_spec() -> bool {
        false
    }

    open spec fn from_spec(v: CloseConfirm) -> Event {
        arbitrary()
    }
}

impl CloseConfirm {
    /// Whether the spelling of every attribute value reads back as itself.
    pub open spec fn fields_read_back(self) -> bool {
        &&& reads_back(self.port_id_on_b@)
        &&& reads_back(self.chan_id_on_b@)
        &&& reads_back(self.port_id_on_a@)
        &&& reads_back(self.chan_id_on_a@)
        &&& reads_back(self.conn_id_on_b@)
    }

    /// Whether every attribute value is the one its spelling is read as.
    pub open spec fn fields_canonical(self) -> bool {
        &&& self.port_id_on_b@.canonical()
        &&& self.chan_id_on_b@.canonical()
        &&& self.port_id_on_a@.canonical()
        &&& self.chan_id_on_a@.canonical()
        &&& self.conn_id_on_b@.canonical()
    }

    /// Whether the two events hold the same values, attribute by
    /// attribute.
    pub open spec fn same_values(self, other: CloseConfirm) -> bool {
        &&& self.port_id_on_b@.same_value(other.port_id_on_b@)
        &&& self.chan_id_on_b@.same_value(other.chan_id_on_b@)
        &&& self.port_id_on_a@.same_value(other.port_id_on_a@)
        &&& self.chan_id_on_a@.same_value(other.chan_id_on_a@)
        &&& self.conn_id_on_b@.same_value(other.conn_id_on_b@)
    }
}

/// Reads the event back from its ABCI form. The kind must be this event's;
/// each attribute of the event must occur once and hold a value of its
/// type, and attributes with other keys are passed over. Where several
/// attributes are wrong, the error is that of the first wrong attribute
/// in the list, and where none is wrong but some are missing, that of the
/// first missing one in the order of the fields.
impl TryFrom<Event> for CloseConfirm {
    type Error = DecodingError;

    fn try_from(event: Event) -> (r: Result<CloseConfirm, DecodingError>)
        ensures
            event@.0 != CloseConfirm::EVENT_KIND@ ==> (r matches Err(
                DecodingError::MismatchedResourceName { expected, actual },
            ) && expected@ == CloseConfirm::EVENT_KIND@ && actual@ == event@.0),
            r is Ok <==> event@.0 == CloseConfirm::EVENT_KIND@
                && field_readable::<PortId>(event@.1, PortIdAttribute::ATTRIBUTE_KEY@)
                && field_readable::<ChannelId>(event@.1, ChannelIdAttribute::ATTRIBUTE_KEY@)
                && field_readable::<PortId>(event@.1, CounterpartyPortIdAttribute::ATTRIBUTE_KEY@)
                && field_readable::<ChannelId>(event@.1, CounterpartyChannelIdAttribute::ATTRIBUTE_KEY@)
                && field_readable::<ConnectionId>(event@.1, ConnectionIdAttribute::ATTRIBUTE_KEY@),
            r matches Ok(e) ==> {
                &&& e.port_id_on_b@.event_value() == <PortId as AttributeValue>::normal_form(
                    first_value(event@.1, PortIdAttribute::ATTRIBUTE_KEY@),
                )
                &&& e.chan_id_on_b@.event_value() == <ChannelId as AttributeValue>::normal_form(
                    first_value(event@.1, ChannelIdAttribute::ATTRIBUTE_KEY@),
                )
                &&& e.port_id_on_a@.event_value() == <PortId as AttributeValue>::normal_form(
                    first_value(event@.1, CounterpartyPortIdAttribute::ATTRIBUTE_KEY@),
                )
                &&& e.chan_id_on_a@.event_value() == <ChannelId as AttributeValue>::normal_form(
                    first_value(event@.1, CounterpartyChannelIdAttribute::ATTRIBUTE_KEY@),
                )
                &&& e.conn_id_on_b@.event_value() == <ConnectionId as AttributeValue>::normal_form(
                    first_value(event@.1, ConnectionIdAttribute::ATTRIBUTE_KEY@),
                )
            },
            event@.0 == CloseConfirm::EVENT_KIND@ ==> (r matches Err(e) ==> (e is MissingRawData <==> !(
                field_wrong::<PortId>(event@.1, PortIdAttribute::ATTRIBUTE_KEY@)
                || field_wrong::<ChannelId>(event@.1, ChannelIdAttribute::ATTRIBUTE_KEY@)
                || field_wrong::<PortId>(event@.1, CounterpartyPortIdAttribute::ATTRIBUTE_KEY@)
                || field_wrong::<ChannelId>(event@.1, CounterpartyChannelIdAttribute::ATTRIBUTE_KEY@)
                || field_wrong::<ConnectionId>(event@.1, ConnectionIdAttribute::ATTRIBUTE_KEY@)))),
            forall|x: CloseConfirm|
                #[trigger] x.abci_view() == event@ && x.fields_read_back() ==> (r matches Ok(y)
                    && y.abci_view() == x.abci_view()),
            forall|x: CloseConfirm|
                #[trigger] x.abci_view() == event@ && x.fields_read_back() && x.fields_canonical()
                    ==> (r matches Ok(y) && y.same_values(x)),
    {
        proof {
            assert forall|x: CloseConfirm| #[trigger] x.abci_view() == event@ && x.fields_read_back()
                implies {
                &&& field_readable::<PortId>(event@.1, PortIdAttribute::ATTRIBUTE_KEY@)
                &&& first_value(event@.1, PortIdAttribute::ATTRIBUTE_KEY@) == x.port_id_on_b@.event_value()
                &&& field_readable::<ChannelId>(event@.1, ChannelIdAttribute::ATTRIBUTE_KEY@)
                &&& first_value(event@.1, ChannelIdAttribute::ATTRIBUTE_KEY@) == x.chan_id_on_b@.event_value()
                &&& field_readable::<PortId>(event@.1, CounterpartyPortIdAttribute::ATTRIBUTE_KEY@)
                &&& first_value(event@.1, CounterpartyPortIdAttribute::ATTRIBUTE_KEY@) == x.port_id_on_a@.event_value()
                &&& field_readable::<ChannelId>(event@.1, CounterpartyChannelIdAttribute::ATTRIBUTE_KEY@)
                &&& first_value(event@.1, CounterpartyChannelIdAttribute::ATTRIBUTE_KEY@) == x.chan_id_on_a@.event_value()
                &&& field_readable::<ConnectionId>(event@.1, ConnectionIdAttribute::ATTRIBUTE_KEY@)
                &&& first_value(event@.1, ConnectionIdAttribute::ATTRIBUTE_KEY@) == x.conn_id_on_b@.event_value()
            } by {
                let s = x.abci_view().1;
                reveal_strlit("channel_id");
                reveal_strlit("connection_id");
                reveal_strlit("counterparty_channel_id");
                reveal_strlit("counterparty_port_id");
                reveal_strlit("port_id");
                assert(s.take(5) =~= s);
                assert(s.take(5).drop_last() =~= s.take(4));
                assert(s.take(4).drop_last() =~= s.take(3));
                assert(s.take(3).drop_last() =~= s.take(2));
                assert(s.take(2).drop_last() =~= s.take(1));
                assert(s.take(1).drop_last() =~= s.take(0));
                reveal_with_fuel(keys_distinct, 6);
                reveal_with_fuel(key_absent, 6);
                assert(s[0].0 == PortIdAttribute::ATTRIBUTE_KEY@ && s[0].0.len() == 7);
                assert(s[1].0 == ChannelIdAttribute::ATTRIBUTE_KEY@ && s[1].0.len() == 10);
                assert(s[2].0 == CounterpartyPortIdAttribute::ATTRIBUTE_KEY@ && s[2].0.len() == 20);
                assert(s[3].0 == CounterpartyChannelIdAttribute::ATTRIBUTE_KEY@ && s[3].0.len() == 23);
                assert(s[4].0 == ConnectionIdAttribute::ATTRIBUTE_KEY@ && s[4].0.len() == 13);
                assert(s.take(1).last() == s[0]);
                assert(key_absent(s.take(0), s[0].0));
                assert(keys_distinct(s.take(1)));
                assert(s.take(2).last() == s[1]);
                assert(key_absent(s.take(1), s[1].0));
                assert(keys_distinct(s.take(2)));
                assert(s.take(3).last() == s[2]);
                assert(key_absent(s.take(2), s[2].0));
                assert(keys_distinct(s.take(3)));
                assert(s.take(4).last() == s[3]);
                assert(key_absent(s.take(3), s[3].0));
                assert(keys_distinct(s.take(4)));
                assert(s.take(5).last() == s[4]);
                assert(key_absent(s.take(4), s[4].0));
                assert(keys_distinct(s.take(5)));
                lemma_distinct_keys(s, 0);
                lemma_distinct_keys(s, 1);
                lemma_distinct_keys(s, 2);
                lemma_distinct_keys(s, 3);
                lemma_distinct_keys(s, 4);
                assert(s[0].0 == PortIdAttribute::ATTRIBUTE_KEY@ && s[0].1 == x.port_id_on_b@.event_value());
                assert(s[1].0 == ChannelIdAttribute::ATTRIBUTE_KEY@ && s[1].1 == x.chan_id_on_b@.event_value());
                assert(s[2].0 == CounterpartyPortIdAttribute::ATTRIBUTE_KEY@ && s[2].1 == x.port_id_on_a@.event_value());
                assert(s[3].0 == CounterpartyChannelIdAttribute::ATTRIBUTE_KEY@ && s[3].1 == x.chan_id_on_a@.event_value());
                assert(s[4].0 == ConnectionIdAttribute::ATTRIBUTE_KEY@ && s[4].1 == x.conn_id_on_b@.event_value());
            }
        }
        let expected = String::from_str(CloseConfirm::EVENT_KIND);
        if !(event.kind == expected) {
            return Err(DecodingError::MismatchedResourceName { expected, actual: event.kind });
        }
        let mut failure: Option<(usize, DecodingError)> = None;
        let port_id_on_b = match scan_field::<PortId>(
            &event.attributes,
            PortIdAttribute::ATTRIBUTE_KEY,
            PortIdAttribute::FRIENDLY_NAME,
        ) {
            FieldScan::Found(v) => Some(v),
            FieldScan::Missing => None,
            FieldScan::Failed { at, error } => {
                failure = earlier_failure(failure, at, error);
                None
            },
        };
        let chan_id_on_b = match scan_field::<ChannelId>(
            &event.attributes,
            ChannelIdAttribute::ATTRIBUTE_KEY,
            ChannelIdAttribute::FRIENDLY_NAME,
        ) {
            FieldScan::Found(v) => Some(v),
            FieldScan::Missing => None,
            FieldScan::Failed { at, error } => {
                failure = earlier_failure(failure, at, error);
                None
            },
        };
        let port_id_on_a = match scan_field::<PortId>(
            &event.attributes,
            CounterpartyPortIdAttribute::ATTRIBUTE_KEY,
            CounterpartyPortIdAttribute::FRIENDLY_NAME,
        ) {
            FieldScan::Found(v) => Some(v),
            FieldScan::Missing => None,
            FieldScan::Failed { at, error } => {
                failure = earlier_failure(failure, at, error);
                None
            },
        };
        let chan_id_on_a = match scan_field::<ChannelId>(
            &event.attributes,
            CounterpartyChannelIdAttribute::ATTRIBUTE_KEY,
            CounterpartyChannelIdAttribute::FRIENDLY_NAME,
        ) {
            FieldScan::Found(v) => Some(v),
            FieldScan::Missing => None,
            FieldScan::Failed { at, error } => {
                failure = earlier_failure(failure, at, error);
                None
            },
        };
        let conn_id_on_b = match scan_field::<ConnectionId>(
            &event.attributes,
            ConnectionIdAttribute::ATTRIBUTE_KEY,
            ConnectionIdAttribute::FRIENDLY_NAME,
        ) {
            FieldScan::Found(v) => Some(v),
            FieldScan::Missing => None,
            FieldScan::Failed { at, error } => {
                failure = earlier_failure(failure, at, error);
                None
            },
        };
        if let Some((_, error)) = failure {
            return Err(error);
        }
        let port_id_on_b = match port_id_on_b {
            Some(v) => PortIdAttribute(v),
            None => {
                return Err(missing_attribute(PortIdAttribute::FRIENDLY_NAME));
            },
        };
        let chan_id_on_b = match chan_id_on_b {
            Some(v) => ChannelIdAttribute(v),
            None => {
                return Err(missing_attribute(ChannelIdAttribute::FRIENDLY_NAME));
            },
        };
        let port_id_on_a = match port_id_on_a {
            Some(v) => CounterpartyPortIdAttribute(v),
            None => {
                return Err(missing_attribute(CounterpartyPortIdAttribute::FRIENDLY_NAME));
            },
        };
        let chan_id_on_a = match chan_id_on_a {
            Some(v) => CounterpartyChannelIdAttribute(v),
            None => {
                return Err(missing_attribute(CounterpartyChannelIdAttribute::FRIENDLY_NAME));
            },
        };
        let conn_id_on_b = match conn_id_on_b {
            Some(v) => ConnectionIdAttribute(v),
            None => {
                return Err(missing_attribute(ConnectionIdAttribute::FRIENDLY_NAME));
            },
        };
        let r = CloseConfirm { port_id_on_b, chan_id_on_b, port_id_on_a, chan_id_on_a, conn_id_on_b };
        proof {
            assert forall|x: CloseConfirm| #[trigger] x.abci_view() == event@ && x.fields_read_back()
                implies r.abci_view() == x.abci_view() by {
                assert(r.abci_view().1 =~= x.abci_view().1);
            }
            assert forall|x: CloseConfirm|
                #[trigger] x.abci_view() == event@ && x.fields_read_back() && x.fields_canonical()
                implies r.same_values(x) by {
                <PortId as AttributeValue>::lemma_spelling_injective(r.port_id_on_b@, x.port_id_on_b@);
                <ChannelId as AttributeValue>::lemma_spelling_injective(r.chan_id_on_b@, x.chan_id_on_b@);
                <PortId as AttributeValue>::lemma_spelling_injective(r.port_id_on_a@, x.port_id_on_a@);
                <ChannelId as AttributeValue>::lemma_spelling_injective(r.chan_id_on_a@, x.chan_id_on_a@);
                <ConnectionId as AttributeValue>::lemma_spelling_injective(r.conn_id_on_b@, x.conn_id_on_b@);
            }
        }
        Ok(r)
    }
}

impl vstd::std_specs::convert::TryFromSpecImpl<Event> for CloseConfirm {
    open spec fn obeys_try_from_spec() -> bool {
        false
    }

    open spec fn try_from_spec(v: Event) -> Result<CloseConfirm, DecodingError> {
        arbitrary()
    }
}

/// Reads the event from its kind and its attributes given as key-value
/// pairs, as `try_from` reads the ABCI event with those attributes.
impl TryFrom<(String, Vec<(String, String)>)> for CloseConfirm {
    type Error = DecodingError;

    fn try_from(parts: (String, Vec<(String, String)>)) -> (r: Result<CloseConfirm, DecodingError>)
        ensures
            parts.0@ != CloseConfirm::EVENT_KIND@ ==> (r matches Err(
                DecodingError::MismatchedResourceName { expected, actual },
            ) && expected@ == CloseConfirm::EVENT_KIND@ && actual@ == parts.0@),
            r is Ok <==> parts.0@ == CloseConfirm::EVENT_KIND@
                && field_readable::<PortId>(pairs_view(parts.1@), PortIdAttribute::ATTRIBUTE_KEY@)
                && field_readable::<ChannelId>(pairs_view(parts.1@), ChannelIdAttribute::ATTRIBUTE_KEY@)
                && field_readable::<PortId>(pairs_view(parts.1@), CounterpartyPortIdAttribute::ATTRIBUTE_KEY@)
                && field_readable::<ChannelId>(pairs_view(parts.1@), CounterpartyChannelIdAttribute::ATTRIBUTE_KEY@)
                && field_readable::<ConnectionId>(pairs_view(parts.1@), ConnectionIdAttribute::ATTRIBUTE_KEY@),
            r matches Ok(e) ==> {
                &&& e.port_id_on_b@.event_value() == <PortId as AttributeValue>::normal_form(
                    first_value(pairs_view(parts.1@), PortIdAttribute::ATTRIBUTE_KEY@),
                )
                &&& e.chan_id_on_b@.event_value() == <ChannelId as AttributeValue>::normal_form(
                    first_value(pairs_view(parts.1@), ChannelIdAttribute::ATTRIBUTE_KEY@),
                )
                &&& e.port_id_on_a@.event_value() == <PortId as AttributeValue>::normal_form(
                    first_value(pairs_view(parts.1@), CounterpartyPortIdAttribute::ATTRIBUTE_KEY@),
                )
                &&& e.chan_id_on_a@.event_value() == <ChannelId as AttributeValue>::normal_form(
                    first_value(pairs_view(parts.1@), CounterpartyChannelIdAttribute::ATTRIBUTE_KEY@),
                )
                &&& e.conn_id_on_b@.event_value() == <ConnectionId as AttributeValue>::normal_form(
                    first_value(pairs_view(parts.1@), ConnectionIdAttribute::ATTRIBUTE_KEY@),
                )
            },
            parts.0@ == CloseConfirm::EVENT_KIND@ ==> (r matches Err(e) ==> (e is MissingRawData <==> !(
                field_wrong::<PortId>(pairs_view(parts.1@), PortIdAttribute::ATTRIBUTE_KEY@)
                || field_wrong::<ChannelId>(pairs_view(parts.1@), ChannelIdAttribute::ATTRIBUTE_KEY@)
                || field_wrong::<PortId>(pairs_view(parts.1@), CounterpartyPortIdAttribute::ATTRIBUTE_KEY@)
                || field_wrong::<ChannelId>(pairs_view(parts.1@), CounterpartyChannelIdAttribute::ATTRIBUTE_KEY@)
                || field_wrong::<ConnectionId>(pairs_view(parts.1@), ConnectionIdAttribute::ATTRIBUTE_KEY@)))),
            forall|x: CloseConfirm|
                #[trigger] x.abci_view() == (parts.0@, pairs_view(parts.1@)) && x.fields_read_back() ==> (r matches Ok(y)
                    && y.abci_view() == x.abci_view()),
            forall|x: CloseConfirm|
                #[trigger] x.abci_view() == (parts.0@, pairs_view(parts.1@)) && x.fields_read_back() && x.fields_canonical()
                    ==> (r matches Ok(y) && y.same_values(x)),
    {
        let (kind, pairs) = parts;
        <CloseConfirm as TryFrom<Event>>::try_from(Event::from_pairs(kind, pairs))
    }
}

impl vstd::std_specs::convert::TryFromSpecImpl<(String, Vec<(String, String)>)> for CloseConfirm {
    open spec fn obeys_try_from_spec() -> bool {
        false
    }

    open spec fn try_from_spec(v: (String, Vec<(String, String)>)) -> Result<CloseConfirm, DecodingError> {
        arbitrary()
    }
}

/// The `channel_close` event: an ordered channel was closed by a packet timeout.
#[derive(Clone, Debug, PartialEq, Eq)]
pub struct ChannelClosed {
    pub port_id_on_a: PortIdAttribute,
    pub chan_id_on_a: ChannelIdAttribute,
    pub port_id_on_b: CounterpartyPortIdAttribute,
    pub maybe_chan_id_on_b: MaybeCounterpartyChannelIdAttribute,
    pub conn_id_on_a: ConnectionIdAttribute,
    pub ordering: ChannelOrderingAttribute,
}

impl ChannelClosed {
    /// The kind of this event in ABCI.
    pub const EVENT_KIND: &'static str = "channel_close";

    /// The event with the given attribute values.
    pub fn new(port_id_on_a: PortId, chan_id_on_a: ChannelId, port_id_on_b: PortId, maybe_chan_id_on_b: Option<ChannelId>, conn_id_on_a: ConnectionId, ordering: Order) -> (r: ChannelClosed)
        ensures
            r.port_id_on_a@ == port_id_on_a,
            r.chan_id_on_a@ == chan_id_on_a,
            r.port_id_on_b@ == port_id_on_b,
            r.maybe_chan_id_on_b@ == maybe_chan_id_on_b,
            r.conn_id_on_a@ == conn_id_on_a,
            r.ordering@ == ordering,
    {
        ChannelClosed { port_id_on_a: PortIdAttribute::new(port_id_on_a), chan_id_on_a: ChannelIdAttribute::new(chan_id_on_a), port_id_on_b: CounterpartyPortIdAttribute::new(port_id_on_b), maybe_chan_id_on_b: MaybeCounterpartyChannelIdAttribute::new(maybe_chan_id_on_b), conn_id_on_a: ConnectionIdAttribute::new(conn_id_on_a), ordering: ChannelOrderingAttribute::new(ordering) }
    }

    /// The value of the `port_id_on_a` attribute.
    pub fn port_id_on_a(&self) -> (r: &PortId)
        ensures
            *r == self.port_id_on_a@,
    {
        self.port_id_on_a.value()
    }

    /// The value of the `chan_id_on_a` attribute.
    pub fn chan_id_on_a(&self) -> (r: &ChannelId)
        ensures
            *r == self.chan_id_on_a@,
    {
        self.chan_id_on_a.value()
    }

    /// The value of the `port_id_on_b` attribute.
    pub fn port_id_on_b(&self) -> (r: &PortId)
        ensures
            *r == self.port_id_on_b@,
    {
        self.port_id_on_b.value()
    }

    /// The value of the `maybe_chan_id_on_b` attribute.
    pub fn maybe_chan_id_on_b(&self) -> (r: &Option<ChannelId>)
        ensures
            *r == self.maybe_chan_id_on_b@,
    {
        self.maybe_chan_id_on_b.value()
    }

    /// The value of the `conn_id_on_a` attribute.
    pub fn conn_id_on_a(&self) -> (r: &ConnectionId)
        ensures
            *r == self.conn_id_on_a@,
    {
        self.conn_id_on_a.value()
    }

    /// The value of the `ordering` attribute.
    pub fn ordering(&self) -> (r: &Order)
        ensures
            *r == self.ordering@,
    {
        self.ordering.value()
    }

    /// The ABCI event that this event becomes: its kind, and its
    /// attributes in the order of the fields.
    pub open spec fn abci_view(self) -> (Seq<char>, Seq<(Seq<char>, Seq<char>, bool)>) {
        (Self::EVENT_KIND@, seq![self.port_id_on_a.attribute_view(), self.chan_id_on_a.attribute_view(), self.port_id_on_b.attribute_view(), self.maybe_chan_id_on_b.attribute_view(), self.conn_id_on_a.attribute_view(), self.ordering.attribute_view()])
    }
}

/// The event as an ABCI event: its kind and its attributes in the order of
/// the fields. A spec function cannot build the strings of an `Event`, so
/// `from` states its result in its own `ensures`.
impl From<ChannelClosed> for Event {
    fn from(event: ChannelClosed) -> (r: Event)
        ensures
            r@ == event.abci_view(),
    {
        let ghost view = event.abci_view();
        let attributes = vec![
            EventAttribute::from(event.port_id_on_a),
            EventAttribute::from(event.chan_id_on_a),
            EventAttribute::from(event.port_id_on_b),
            EventAttribute::from(event.maybe_chan_id_on_b),
            EventAttribute::from(event.conn_id_on_a),
            EventAttribute::from(event.ordering),
        ];
        let r = Event { kind: String::from_str(ChannelClosed::EVENT_KIND), attributes };
        assert(attributes_view(r.attributes@) =~= view.1);
        r
    }
}

impl vstd::std_specs::convert::FromSpecImpl<ChannelClosed> for Event {
    open spec fn obeys_from_spec() -> bool {
        false
    }

    open spec fn from_spec(v: ChannelClosed) -> Event {
        arbitrary()
    }
}

impl ChannelClosed {
    /// Whether the spelling of every attribute value reads back as itself.
    pub open spec fn fields_read_back(self) -> bool {
        &&& reads_back(self.port_id_on_a@)
        &&& reads_back(self.chan_id_on_a@)
        &&& reads_back(self.port_id_on_b@)
        &&& reads_back(self.maybe_chan_id_on_b@)
        &&& reads_back(self.conn_id_on_a@)
        &&& reads_back(self.ordering@)
    }

    /// Whether every attribute value is the one its spelling is read as.
    pub open spec fn fields_canonical(self) -> bool {
        &&& self.port_id_on_a@.canonical()
        &&& self.chan_id_on_a@.canonical()
        &&& self.port_id_on_b@.canonical()
        &&& self.maybe_chan_id_on_b@.canonical()
        &&& self.conn_id_on_a@.canonical()
        &&& self.ordering@.canonical()
    }

    /// Whether the two events hold the same values, attribute by
    /// attribute.
    pub open spec fn same_values(self, other: ChannelClosed) -> bool {
        &&& self.port_id_on_a@.same_value(other.port_id_on_a@)
        &&& self.chan_id_on_a@.same_value(other.chan_id_on_a@)
        &&& self.port_id_on_b@.same_value(other.port_id_on_b@)
        &&& self.maybe_chan_id_on_b@.same_value(other.maybe_chan_id_on_b@)
        &&& self.conn_id_on_a@.same_value(other.conn_id_on_a@)
        &&& self.ordering@.same_value(other.ordering@)
    }
}

/// Reads the event back from its ABCI form. The kind must be this event's;
/// each attribute of the event must occur once and hold a value of its
/// type, and attributes with other keys are passed over. Where several
/// attributes are wrong, the error is that of the first wrong attribute
/// in the list, and where none is wrong but some are missing, that of the
/// first missing one in the order of the fields.
impl TryFrom<Event> for ChannelClosed {
    type Error = DecodingError;

    fn try_from(event: Event) -> (r: Result<ChannelClosed, DecodingError>)
        ensures
            event@.0 != ChannelClosed::EVENT_KIND@ ==> (r matches Err(
                DecodingError::MismatchedResourceName { expected, actual },
            ) && expected@ == ChannelClosed::EVENT_KIND@ && actual@ == event@.0),
            r is Ok <==> event@.0 == ChannelClosed::EVENT_KIND@
                && field_readable::<PortId>(event@.1, PortIdAttribute::ATTRIBUTE_KEY@)
                && field_readable::<ChannelId>(event@.1, ChannelIdAttribute::ATTRIBUTE_KEY@)
                && field_readable::<PortId>(event@.1, CounterpartyPortIdAttribute::ATTRIBUTE_KEY@)
                && field_readable::<Option<ChannelId>>(event@.1, MaybeCounterpartyChannelIdAttribute::ATTRIBUTE_KEY@)
                && field_readable::<ConnectionId>(event@.1, ConnectionIdAttribute::ATTRIBUTE_KEY@)
                && field_readable::<Order>(event@.1, ChannelOrderingAttribute::ATTRIBUTE_KEY@),
            r matches Ok(e) ==> {
                &&& e.port_id_on_a@.event_value() == <PortId as AttributeValue>::normal_form(
                    first_value(event@.1, PortIdAttribute::ATTRIBUTE_KEY@),
                )
                &&& e.chan_id_on_a@.event_value() == <ChannelId as AttributeValue>::normal_form(
                    first_value(event@.1, ChannelIdAttribute::ATTRIBUTE_KEY@),
                )
                &&& e.port_id_on_b@.event_value() == <PortId as AttributeValue>::normal_form(
                    first_value(event@.1, CounterpartyPortIdAttribute::ATTRIBUTE_KEY@),
                )
                &&& e.maybe_chan_id_on_b@.event_value() == <Option<ChannelId> as AttributeValue>::normal_form(
                    first_value(event@.1, MaybeCounterpartyChannelIdAttribute::ATTRIBUTE_KEY@),
                )
                &&& e.conn_id_on_a@.event_value() == <ConnectionId as AttributeValue>::normal_form(
                    first_value(event@.1, ConnectionIdAttribute::ATTRIBUTE_KEY@),
                )
                &&& e.ordering@.event_value() == <Order as AttributeValue>::normal_form(
                    first_value(event@.1, ChannelOrderingAttribute::ATTRIBUTE_KEY@),
                )
            },
            event@.0 == ChannelClosed::EVENT_KIND@ ==> (r matches Err(e) ==> (e is MissingRawData <==> !(
                field_wrong::<PortId>(event@.1, PortIdAttribute::ATTRIBUTE_KEY@)
                || field_wrong::<ChannelId>(event@.1, ChannelIdAttribute::ATTRIBUTE_KEY@)
                || field_wrong::<PortId>(event@.1, CounterpartyPortIdAttribute::ATTRIBUTE_KEY@)
                || field_wrong::<Option<ChannelId>>(event@.1, MaybeCounterpartyChannelIdAttribute::ATTRIBUTE_KEY@)
                || field_wrong::<ConnectionId>(event@.1, ConnectionIdAttribute::ATTRIBUTE_KEY@)
                || field_wrong::<Order>(event@.1, ChannelOrderingAttribute::ATTRIBUTE_KEY@)))),
            forall|x: ChannelClosed|
                #[trigger] x.abci_view() == event@ && x.fields_read_back() ==> (r matches Ok(y)
                    && y.abci_view() == x.abci_view()),
            forall|x: ChannelClosed|
                #[trigger] x.abci_view() == event@ && x.fields_read_back() && x.fields_canonical()
                    ==> (r matches Ok(y) && y.same_values(x)),
    {
        proof {
            assert forall|x: ChannelClosed| #[trigger] x.abci_view() == event@ && x.fields_read_back()
                implies {
                &&& field_readable::<PortId>(event@.1, PortIdAttribute::ATTRIBUTE_KEY@)
                &&& first_value(event@.1, PortIdAttribute::ATTRIBUTE_KEY@) == x.port_id_on_a@.event_value()
                &&& field_readable::<ChannelId>(event@.1, ChannelIdAttribute::ATTRIBUTE_KEY@)
                &&& first_value(event@.1, ChannelIdAttribute::ATTRIBUTE_KEY@) == x.chan_id_on_a@.event_value()
                &&& field_readable::<PortId>(event@.1, CounterpartyPortIdAttribute::ATTRIBUTE_KEY@)
                &&& first_value(event@.1, CounterpartyPortIdAttribute::ATTRIBUTE_KEY@) == x.port_id_on_b@.event_value()
                &&& field_readable::<Option<ChannelId>>(event@.1, MaybeCounterpartyChannelIdAttribute::ATTRIBUTE_KEY@)
                &&& first_value(event@.1, MaybeCounterpartyChannelIdAttribute::ATTRIBUTE_KEY@) == x.maybe_chan_id_on_b@.event_value()
                &&& field_readable::<ConnectionId>(event@.1, ConnectionIdAttribute::ATTRIBUTE_KEY@)
                &&& first_value(event@.1, ConnectionIdAttribute::ATTRIBUTE_KEY@) == x.conn_id_on_a@.event_value()
                &&& field_readable::<Order>(event@.1, ChannelOrderingAttribute::ATTRIBUTE_KEY@)
                &&& first_value(event@.1, ChannelOrderingAttribute::ATTRIBUTE_KEY@) == x.ordering@.event_value()
            } by {
                let s = x.abci_view().1;
                reveal_strlit("channel_id");
                reveal_strlit("connection_id");
                reveal_strlit("counterparty_channel_id");
                reveal_strlit("counterparty_port_id");
                reveal_strlit("packet_channel_ordering");
                reveal_strlit("port_id");
                assert("counterparty_channel_id"@[0] != "packet_channel_ordering"@[0]);
                assert(s.take(6) =~= s);
                assert(s.take(6).drop_last() =~= s.take(5));
                assert(s.take(5).drop_last() =~= s.take(4));
                assert(s.take(4).drop_last() =~= s.take(3));
                assert(s.take(3).drop_last() =~= s.take(2));
                assert(s.take(2).drop_last() =~= s.take(1));
                assert(s.take(1).drop_last() =~= s.take(0));
                reveal_with_fuel(keys_distinct, 7);
                reveal_with_fuel(key_absent, 7);
                assert(s[0].0 == PortIdAttribute::ATTRIBUTE_KEY@ && s[0].0.len() == 7);
                assert(s[1].0 == ChannelIdAttribute::ATTRIBUTE_KEY@ && s[1].0.len() == 10);
                assert(s[2].0 == CounterpartyPortIdAttribute::ATTRIBUTE_KEY@ && s[2].0.len() == 20);
                assert(s[3].0 == MaybeCounterpartyChannelIdAttribute::ATTRIBUTE_KEY@ && s[3].0.len() == 23);
                assert(s[4].0 == ConnectionIdAttribute::ATTRIBUTE_KEY@ && s[4].0.len() == 13);
                assert(s[5].0 == ChannelOrderingAttribute::ATTRIBUTE_KEY@ && s[5].0.len() == 23);
                assert(s.take(1).last() == s[0]);
                assert(key_absent(s.take(0), s[0].0));
                assert(keys_distinct(s.take(1)));
                assert(s.take(2).last() == s[1]);
                assert(key_absent(s.take(1), s[1].0));
                assert(keys_distinct(s.take(2)));
                assert(s.take(3).last() == s[2]);
                assert(key_absent(s.take(2), s[2].0));
                assert(keys_distinct(s.take(3)));
                assert(s.take(4).last() == s[3]);
                assert(key_absent(s.take(3), s[3].0));
                assert(keys_distinct(s.take(4)));
                assert(s.take(5).last() == s[4]);
                assert(key_absent(s.take(4), s[4].0));
                assert(keys_distinct(s.take(5)));
                assert(s.take(6).last() == s[5]);
                assert(key_absent(s.take(5), s[5].0));
                assert(keys_distinct(s.take(6)));
                lemma_distinct_keys(s, 0);
                lemma_distinct_keys(s, 1);
                lemma_distinct_keys(s, 2);
                lemma_distinct_keys(s, 3);
                lemma_distinct_keys(s, 4);
                lemma_distinct_keys(s, 5);
                assert(s[0].0 == PortIdAttribute::ATTRIBUTE_KEY@ && s[0].1 == x.port_id_on_a@.event_value());
                assert(s[1].0 == ChannelIdAttribute::ATTRIBUTE_KEY@ && s[1].1 == x.chan_id_on_a@.event_value());
                assert(s[2].0 == CounterpartyPortIdAttribute::ATTRIBUTE_KEY@ && s[2].1 == x.port_id_on_b@.event_value());
                assert(s[3].0 == MaybeCounterpartyChannelIdAttribute::ATTRIBUTE_KEY@ && s[3].1 == x.maybe_chan_id_on_b@.event_value());
                assert(s[4].0 == ConnectionIdAttribute::ATTRIBUTE_KEY@ && s[4].1 == x.conn_id_on_a@.event_value());
                assert(s[5].0 == ChannelOrderingAttribute::ATTRIBUTE_KEY@ && s[5].1 == x.ordering@.event_value());
            }
        }
        let expected = String::from_str(ChannelClosed::EVENT_KIND);
        if !(event.kind == expected) {
            return Err(DecodingError::MismatchedResourceName { expected, actual: event.kind });
        }
        let mut failure: Option<(usize, DecodingError)> = None;
        let port_id_on_a = match scan_field::<PortId>(
            &event.attributes,
            PortIdAttribute::ATTRIBUTE_KEY,
            PortIdAttribute::FRIENDLY_NAME,
        ) {
            FieldScan::Found(v) => Some(v),
            FieldScan::Missing => None,
            FieldScan::Failed { at, error } => {
                failure = earlier_failure(failure, at, error);
                None
            },
        };
        let chan_id_on_a = match scan_field::<ChannelId>(
            &event.attributes,
            ChannelIdAttribute::ATTRIBUTE_KEY,
            ChannelIdAttribute::FRIENDLY_NAME,
        ) {
            FieldScan::Found(v) => Some(v),
            FieldScan::Missing => None,
            FieldScan::Failed { at, error } => {
                failure = earlier_failure(failure, at, error);
                None
            },
        };
        let port_id_on_b = match scan_field::<PortId>(
            &event.attributes,
            CounterpartyPortIdAttribute::ATTRIBUTE_KEY,
            CounterpartyPortIdAttribute::FRIENDLY_NAME,
        ) {
            FieldScan::Found(v) => Some(v),
            FieldScan::Missing => None,
            FieldScan::Failed { at, error } => {
                failure = earlier_failure(failure, at, error);
                None
            },
        };
        let maybe_chan_id_on_b = match scan_field::<Option<ChannelId>>(
            &event.attributes,
            MaybeCounterpartyChannelIdAttribute::ATTRIBUTE_KEY,
            MaybeCounterpartyChannelIdAttribute::FRIENDLY_NAME,
        ) {
            FieldScan::Found(v) => Some(v),
            FieldScan::Missing => None,
            FieldScan::Failed { at, error } => {
                failure = earlier_failure(failure, at, error);
                None
            },
        };
        let conn_id_on_a = match scan_field::<ConnectionId>(
            &event.attributes,
            ConnectionIdAttribute::ATTRIBUTE_KEY,
            ConnectionIdAttribute::FRIENDLY_NAME,
        ) {
            FieldScan::Found(v) => Some(v),
            FieldScan::Missing => None,
            FieldScan::Failed { at, error } => {
                failure = earlier_failure(failure, at, error);
                None
            },
        };
        let ordering = match scan_field::<Order>(
            &event.attributes,
            ChannelOrderingAttribute::ATTRIBUTE_KEY,
            ChannelOrderingAttribute::FRIENDLY_NAME,
        ) {
            FieldScan::Found(v) => Some(v),
            FieldScan::Missing => None,
            FieldScan::Failed { at, error } => {
                failure = earlier_failure(failure, at, error);
                None
            },
        };
        if let Some((_, error)) = failure {
            return Err(error);
        }
        let port_id_on_a = match port_id_on_a {
            Some(v) => PortIdAttribute(v),
            None => {
                return Err(missing_attribute(PortIdAttribute::FRIENDLY_NAME));
            },
        };
        let chan_id_on_a = match chan_id_on_a {
            Some(v) => ChannelIdAttribute(v),
            None => {
                return Err(missing_attribute(ChannelIdAttribute::FRIENDLY_NAME));
            },
        };
        let port_id_on_b = match port_id_on_b {
            Some(v) => CounterpartyPortIdAttribute(v),
            None => {
                return Err(missing_attribute(CounterpartyPortIdAttribute::FRIENDLY_NAME));
            },
        };
        let maybe_chan_id_on_b = match maybe_chan_id_on_b {
            Some(v) => MaybeCounterpartyChannelIdAttribute(v),
            None => {
                return Err(missing_attribute(MaybeCounterpartyChannelIdAttribute::FRIENDLY_NAME));
            },
        };
        let conn_id_on_a = match conn_id_on_a {
            Some(v) => ConnectionIdAttribute(v),
            None => {
                return Err(missing_attribute(ConnectionIdAttribute::FRIENDLY_NAME));
            },
        };
        let ordering = match ordering {
            Some(v) => ChannelOrderingAttribute(v),
            None => {
                return Err(missing_attribute(ChannelOrderingAttribute::FRIENDLY_NAME));
            },
        };
        let r = ChannelClosed { port_id_on_a, chan_id_on_a, port_id_on_b, maybe_chan_id_on_b, conn_id_on_a, ordering };
        proof {
            assert forall|x: ChannelClosed| #[trigger] x.abci_view() == event@ && x.fields_read_back()
                implies r.abci_view() == x.abci_view() by {
                assert(r.abci_view().1 =~= x.abci_view().1);
            }
            assert forall|x: ChannelClosed|
                #[trigger] x.abci_view() == event@ && x.fields_read_back() && x.fields_canonical()
                implies r.same_values(x) by {
                <PortId as AttributeValue>::lemma_spelling_injective(r.port_id_on_a@, x.port_id_on_a@);
                <ChannelId as AttributeValue>::lemma_spelling_injective(r.chan_id_on_a@, x.chan_id_on_a@);
                <PortId as AttributeValue>::lemma_spelling_injective(r.port_id_on_b@, x.port_id_on_b@);
                <Option<ChannelId> as AttributeValue>::lemma_spelling_injective(r.maybe_chan_id_on_b@, x.maybe_chan_id_on_b@);
                <ConnectionId as AttributeValue>::lemma_spelling_injective(r.conn_id_on_a@, x.conn_id_on_a@);
                <Order as AttributeValue>::lemma_spelling_injective(r.ordering@, x.ordering@);
            }
        }
        Ok(r)
    }
}

impl vstd::std_specs::convert::TryFromSpecImpl<Event> for ChannelClosed {
    open spec fn obeys_try_from_spec() -> bool {
        false
    }

    open spec fn try_from_spec(v: Event) -> Result<ChannelClosed, DecodingError> {
        arbitrary()
    }
}

/// Reads the event from its kind and its attributes given as key-value
/// pairs, as `try_from` reads the ABCI event with those attributes.
impl TryFrom<(String, Vec<(String, String)>)> for ChannelClosed {
    type Error = DecodingError;

    fn try_from(parts: (String, Vec<(String, String)>)) -> (r: Result<ChannelClosed, DecodingError>)
        ensures
            parts.0@ != ChannelClosed::EVENT_KIND@ ==> (r matches Err(
                DecodingError::MismatchedResourceName { expected, actual },
            ) && expected@ == ChannelClosed::EVENT_KIND@ && actual@ == parts.0@),
            r is Ok <==> parts.0@ == ChannelClosed::EVENT_KIND@
                && field_readable::<PortId>(pairs_view(parts.1@), PortIdAttribute::ATTRIBUTE_KEY@)
                && field_readable::<ChannelId>(pairs_view(parts.1@), ChannelIdAttribute::ATTRIBUTE_KEY@)
                && field_readable::<PortId>(pairs_view(parts.1@), CounterpartyPortIdAttribute::ATTRIBUTE_KEY@)
                && field_readable::<Option<ChannelId>>(pairs_view(parts.1@), MaybeCounterpartyChannelIdAttribute::ATTRIBUTE_KEY@)
                && field_readable::<ConnectionId>(pairs_view(parts.1@), ConnectionIdAttribute::ATTRIBUTE_KEY@)
                && field_readable::<Order>(pairs_view(parts.1@), ChannelOrderingAttribute::ATTRIBUTE_KEY@),
            r matches Ok(e) ==> {
                &&& e.port_id_on_a@.event_value() == <PortId as AttributeValue>::normal_form(
                    first_value(pairs_view(parts.1@), PortIdAttribute::ATTRIBUTE_KEY@),
                )
                &&& e.chan_id_on_a@.event_value() == <ChannelId as AttributeValue>::normal_form(
                    first_value(pairs_view(parts.1@), ChannelIdAttribute::ATTRIBUTE_KEY@),
                )
                &&& e.port_id_on_b@.event_value() == <PortId as AttributeValue>::normal_form(
                    first_value(pairs_view(parts.1@), CounterpartyPortIdAttribute::ATTRIBUTE_KEY@),
                )
                &&& e.maybe_chan_id_on_b@.event_value() == <Option<ChannelId> as AttributeValue>::normal_form(
                    first_value(pairs_view(parts.1@), MaybeCounterpartyChannelIdAttribute::ATTRIBUTE_KEY@),
                )
                &&& e.conn_id_on_a@.event_value() == <ConnectionId as AttributeValue>::normal_form(
                    first_value(pairs_view(parts.1@), ConnectionIdAttribute::ATTRIBUTE_KEY@),
                )
                &&& e.ordering@.event_value() == <Order as AttributeValue>::normal_form(
                    first_value(pairs_view(parts.1@), ChannelOrderingAttribute::ATTRIBUTE_KEY@),
                )
            },
            parts.0@ == ChannelClosed::EVENT_KIND@ ==> (r matches Err(e) ==> (e is MissingRawData <==> !(
                field_wrong::<PortId>(pairs_view(parts.1@), PortIdAttribute::ATTRIBUTE_KEY@)
                || field_wrong::<ChannelId>(pairs_view(parts.1@), ChannelIdAttribute::ATTRIBUTE_KEY@)
                || field_wrong::<PortId>(pairs_view(parts.1@), CounterpartyPortIdAttribute::ATTRIBUTE_KEY@)
                || field_wrong::<Option<ChannelId>>(pairs_view(parts.1@), MaybeCounterpartyChannelIdAttribute::ATTRIBUTE_KEY@)
                || field_wrong::<ConnectionId>(pairs_view(parts.1@), ConnectionIdAttribute::ATTRIBUTE_KEY@)
                || field_wrong::<Order>(pairs_view(parts.1@), ChannelOrderingAttribute::ATTRIBUTE_KEY@)))),
            forall|x: ChannelClosed|
                #[trigger] x.abci_view() == (parts.0@, pairs_view(parts.1@)) && x.fields_read_back() ==> (r matches Ok(y)
                    && y.abci_view() == x.abci_view()),
            forall|x: ChannelClosed|
                #[trigger] x.abci_view() == (parts.0@, pairs_view(parts.1@)) && x.fields_read_back() && x.fields_canonical()
                    ==> (r matches Ok(y) && y.same_values(x)),
    {
        let (kind, pairs) = parts;
        <ChannelClosed as TryFrom<Event>>::try_from(Event::from_pairs(kind, pairs))
    }
}

impl vstd::std_specs::convert::TryFromSpecImpl<(String, Vec<(String, String)>)> for ChannelClosed {
    open spec fn obeys_try_from_spec() -> bool {
        false
    }

    open spec fn try_from_spec(v: (String, Vec<(String, String)>)) -> Result<ChannelClosed, DecodingError> {
        arbitrary()
    }
}

/// The `send_packet` event: a packet was sent.
#[derive(Clone, Debug, PartialEq, Eq)]
pub struct SendPacket {
    pub packet_data: PacketDataAttribute,
    pub timeout_height_on_b: TimeoutHeightAttribute,
    pub timeout_timestamp_on_b: TimeoutTimestampAttribute,
    pub seq_on_a: SequenceAttribute,
    pub port_id_on_a: SrcPortIdAttribute,
    pub chan_id_on_a: SrcChannelIdAttribute,
    pub port_id_on_b: DstPortIdAttribute,
    pub chan_id_on_b: DstChannelIdAttribute,
    pub ordering: ChannelOrderingAttribute,
    pub conn_id_on_a: PacketConnectionIdAttribute,
}

impl SendPacket {
    /// The kind of this event in ABCI.
    pub const EVENT_KIND: &'static str = "send_packet";

    /// The event with the given attribute values.
    pub fn new(packet_data: Vec<u8>, timeout_height_on_b: TimeoutHeight, timeout_timestamp_on_b: TimeoutTimestamp, seq_on_a: Sequence, port_id_on_a: PortId, chan_id_on_a: ChannelId, port_id_on_b: PortId, chan_id_on_b: ChannelId, ordering: Order, conn_id_on_a: ConnectionId) -> (r: SendPacket)
        ensures
            r.packet_data@ == packet_data,
            r.timeout_height_on_b@ == timeout_height_on_b,
            r.timeout_timestamp_on_b@ == timeout_timestamp_on_b,
            r.seq_on_a@ == seq_on_a,
            r.port_id_on_a@ == port_id_on_a,
            r.chan_id_on_a@ == chan_id_on_a,
            r.port_id_on_b@ == port_id_on_b,
            r.chan_id_on_b@ == chan_id_on_b,
            r.ordering@ == ordering,
            r.conn_id_on_a@ == conn_id_on_a,
    {
        SendPacket { packet_data: PacketDataAttribute::new(packet_data), timeout_height_on_b: TimeoutHeightAttribute::new(timeout_height_on_b), timeout_timestamp_on_b: TimeoutTimestampAttribute::new(timeout_timestamp_on_b), seq_on_a: SequenceAttribute::new(seq_on_a), port_id_on_a: SrcPortIdAttribute::new(port_id_on_a), chan_id_on_a: SrcChannelIdAttribute::new(chan_id_on_a), port_id_on_b: DstPortIdAttribute::new(port_id_on_b), chan_id_on_b: DstChannelIdAttribute::new(chan_id_on_b), ordering: ChannelOrderingAttribute::new(ordering), conn_id_on_a: PacketConnectionIdAttribute::new(conn_id_on_a) }
    }

    /// The value of the `packet_data` attribute.
    pub fn packet_data(&self) -> (r: &Vec<u8>)
        ensures
            *r == self.packet_data@,
    {
        self.packet_data.value()
    }

    /// The value of the `timeout_height_on_b` attribute.
    pub fn timeout_height_on_b(&self) -> (r: &TimeoutHeight)
        ensures
            *r == self.timeout_height_on_b@,
    {
        self.timeout_height_on_b.value()
    }

    /// The value of the `timeout_timestamp_on_b` attribute.
    pub fn timeout_timestamp_on_b(&self) -> (r: &TimeoutTimestamp)
        ensures
            *r == self.timeout_timestamp_on_b@,
    {
        self.timeout_timestamp_on_b.value()
    }

    /// The value of the `seq_on_a` attribute.
    pub fn seq_on_a(&self) -> (r: &Sequence)
        ensures
            *r == self.seq_on_a@,
    {
        self.seq_on_a.value()
    }

    /// The value of the `port_id_on_a` attribute.
    pub fn port_id_on_a(&self) -> (r: &PortId)
        ensures
            *r == self.port_id_on_a@,
    {
        self.port_id_on_a.value()
    }

    /// The value of the `chan_id_on_a` attribute.
    pub fn chan_id_on_a(&self) -> (r: &ChannelId)
        ensures
            *r == self.chan_id_on_a@,
    {
        self.chan_id_on_a.value()
    }

    /// The value of the `port_id_on_b` attribute.
    pub fn port_id_on_b(&self) -> (r: &PortId)
        ensures
            *r == self.port_id_on_b@,
    {
        self.port_id_on_b.value()
    }

    /// The value of the `chan_id_on_b` attribute.
    pub fn chan_id_on_b(&self) -> (r: &ChannelId)
        ensures
            *r == self.chan_id_on_b@,
    {
        self.chan_id_on_b.value()
    }

    /// The value of the `ordering` attribute.
    pub fn ordering(&self) -> (r: &Order)
        ensures
            *r == self.ordering@,
    {
        self.ordering.value()
    }

    /// The value of the `conn_id_on_a` attribute.
    pub fn conn_id_on_a(&self) -> (r: &ConnectionId)
        ensures
            *r == self.conn_id_on_a@,
    {
        self.conn_id_on_a.value()
    }

    /// The ABCI event that this event becomes: its kind, and its
    /// attributes in the order of the fields.
    pub open spec fn abci_view(self) -> (Seq<char>, Seq<(Seq<char>, Seq<char>, bool)>) {
        (Self::EVENT_KIND@, seq![self.packet_data.attribute_view(), self.timeout_height_on_b.attribute_view(), self.timeout_timestamp_on_b.attribute_view(), self.seq_on_a.attribute_view(), self.port_id_on_a.attribute_view(), self.chan_id_on_a.attribute_view(), self.port_id_on_b.attribute_view(), self.chan_id_on_b.attribute_view(), self.ordering.attribute_view(), self.conn_id_on_a.attribute_view()])
    }
}

/// The event as an ABCI event: its kind and its attributes in the order of
/// the fields. A spec function cannot build the strings of an `Event`, so
/// `from` states its result in its own `ensures`.
impl From<SendPacket> for Event {
    fn from(event: SendPacket) -> (r: Event)
        ensures
            r@ == event.abci_view(),
    {
        let ghost view = event.abci_view();
        let attributes = vec![
            EventAttribute::from(event.packet_data),
            EventAttribute::from(event.timeout_height_on_b),
            EventAttribute::from(event.timeout_timestamp_on_b),
            EventAttribute::from(event.seq_on_a),
            EventAttribute::from(event.port_id_on_a),
            EventAttribute::from(event.chan_id_on_a),
            EventAttribute::from(event.port_id_on_b),
            EventAttribute::from(event.chan_id_on_b),
            EventAttribute::from(event.ordering),
            EventAttribute::from(event.conn_id_on_a),
        ];
        let r = Event { kind: String::from_str(SendPacket::EVENT_KIND), attributes };
        assert(attributes_view(r.attributes@) =~= view.1);
        r
    }
}

impl vstd::std_specs::convert::FromSpecImpl<SendPacket> for Event {
    open spec fn obeys_from_spec() -> bool {
        false
    }

    open spec fn from_spec(v: SendPacket) -> Event {
        arbitrary()
    }
}

impl SendPacket {
    /// Whether the spelling of every attribute value reads back as itself.
    pub open spec fn fields_read_back(self) -> bool {
        &&& reads_back(self.packet_data@)
        &&& reads_back(self.timeout_height_on_b@)
        &&& reads_back(self.timeout_timestamp_on_b@)
        &&& reads_back(self.seq_on_a@)
        &&& reads_back(self.port_id_on_a@)
        &&& reads_back(self.chan_id_on_a@)
        &&& reads_back(self.port_id_on_b@)
        &&& reads_back(self.chan_id_on_b@)
        &&& reads_back(self.ordering@)
        &&& reads_back(self.conn_id_on_a@)
    }

    /// Whether every attribute value is the one its spelling is read as.
    pub open spec fn fields_canonical(self) -> bool {
        &&& self.packet_data@.canonical()
        &&& self.timeout_height_on_b@.canonical()
        &&& self.timeout_timestamp_on_b@.canonical()
        &&& self.seq_on_a@.canonical()
        &&& self.port_id_on_a@.canonical()
        &&& self.chan_id_on_a@.canonical()
        &&& self.port_id_on_b@.canonical()
        &&& self.chan_id_on_b@.canonical()
        &&& self.ordering@.canonical()
        &&& self.conn_id_on_a@.canonical()
    }

    /// Whether the two events hold the same values, attribute by
    /// attribute.
    pub open spec fn same_values(self, other: SendPacket) -> bool {
        &&& self.packet_data@.same_value(other.packet_data@)
        &&& self.timeout_height_on_b@.same_value(other.timeout_height_on_b@)
        &&& self.timeout_timestamp_on_b@.same_value(other.timeout_timestamp_on_b@)
        &&& self.seq_on_a@.same_value(other.seq_on_a@)
        &&& self.port_id_on_a@.same_value(other.port_id_on_a@)
        &&& self.chan_id_on_a@.same_value(other.chan_id_on_a@)
        &&& self.port_id_on_b@.same_value(other.port_id_on_b@)
        &&& self.chan_id_on_b@.same_value(other.chan_id_on_b@)
        &&& self.ordering@.same_value(other.ordering@)
        &&& self.conn_id_on_a@.same_value(other.conn_id_on_a@)
    }
}

/// Reads the event back from its ABCI form. The kind must be this event's;
/// each attribute of the event must occur once and hold a value of its
/// type, and attributes with other keys are passed over. Where several
/// attributes are wrong, the error is that of the first wrong attribute
/// in the list, and where none is wrong but some are missing, that of the
/// first missing one in the order of the fields.
impl TryFrom<Event> for SendPacket {
    type Error = DecodingError;

    fn try_from(event: Event) -> (r: Result<SendPacket, DecodingError>)
        ensures
            event@.0 != SendPacket::EVENT_KIND@ ==> (r matches Err(
                DecodingError::MismatchedResourceName { expected, actual },
            ) && expected@ == SendPacket::EVENT_KIND@ && actual@ == event@.0),
            r is Ok <==> event@.0 == SendPacket::EVENT_KIND@
                && field_readable::<Vec<u8>>(event@.1, PacketDataAttribute::ATTRIBUTE_KEY@)
                && field_readable::<TimeoutHeight>(event@.1, TimeoutHeightAttribute::ATTRIBUTE_KEY@)
                && field_readable::<TimeoutTimestamp>(event@.1, TimeoutTimestampAttribute::ATTRIBUTE_KEY@)
                && field_readable::<Sequence>(event@.1, SequenceAttribute::ATTRIBUTE_KEY@)
                && field_readable::<PortId>(event@.1, SrcPortIdAttribute::ATTRIBUTE_KEY@)
                && field_readable::<ChannelId>(event@.1, SrcChannelIdAttribute::ATTRIBUTE_KEY@)
                && field_readable::<PortId>(event@.1, DstPortIdAttribute::ATTRIBUTE_KEY@)
                && field_readable::<ChannelId>(event@.1, DstChannelIdAttribute::ATTRIBUTE_KEY@)
                && field_readable::<Order>(event@.1, ChannelOrderingAttribute::ATTRIBUTE_KEY@)
                && field_readable::<ConnectionId>(event@.1, PacketConnectionIdAttribute::ATTRIBUTE_KEY@),
            r matches Ok(e) ==> {
                &&& e.packet_data@.event_value() == <Vec<u8> as AttributeValue>::normal_form(
                    first_value(event@.1, PacketDataAttribute::ATTRIBUTE_KEY@),
                )
                &&& e.timeout_height_on_b@.event_value() == <TimeoutHeight as AttributeValue>::normal_form(
                    first_value(event@.1, TimeoutHeightAttribute::ATTRIBUTE_KEY@),
                )
                &&& e.timeout_timestamp_on_b@.event_value() == <TimeoutTimestamp as AttributeValue>::normal_form(
                    first_value(event@.1, TimeoutTimestampAttribute::ATTRIBUTE_KEY@),
                )
                &&& e.seq_on_a@.event_value() == <Sequence as AttributeValue>::normal_form(
                    first_value(event@.1, SequenceAttribute::ATTRIBUTE_KEY@),
                )
                &&& e.port_id_on_a@.event_value() == <PortId as AttributeValue>::normal_form(
                    first_value(event@.1, SrcPortIdAttribute::ATTRIBUTE_KEY@),
                )
                &&& e.chan_id_on_a@.event_value() == <ChannelId as AttributeValue>::normal_form(
                    first_value(event@.1, SrcChannelIdAttribute::ATTRIBUTE_KEY@),
                )
                &&& e.port_id_on_b@.event_value() == <PortId as AttributeValue>::normal_form(
                    first_value(event@.1, DstPortIdAttribute::ATTRIBUTE_KEY@),
                )
                &&& e.chan_id_on_b@.event_value() == <ChannelId as AttributeValue>::normal_form(
                    first_value(event@.1, DstChannelIdAttribute::ATTRIBUTE_KEY@),
                )
                &&& e.ordering@.event_value() == <Order as AttributeValue>::normal_form(
                    first_value(event@.1, ChannelOrderingAttribute::ATTRIBUTE_KEY@),
                )
                &&& e.conn_id_on_a@.event_value() == <ConnectionId as AttributeValue>::normal_form(
                    first_value(event@.1, PacketConnectionIdAttribute::ATTRIBUTE_KEY@),
                )
            },
            event@.0 == SendPacket::EVENT_KIND@ ==> (r matches Err(e) ==> (e is MissingRawData <==> !(
                field_wrong::<Vec<u8>>(event@.1, PacketDataAttribute::ATTRIBUTE_KEY@)
                || field_wrong::<TimeoutHeight>(event@.1, TimeoutHeightAttribute::ATTRIBUTE_KEY@)
                || field_wrong::<TimeoutTimestamp>(event@.1, TimeoutTimestampAttribute::ATTRIBUTE_KEY@)
                || field_wrong::<Sequence>(event@.1, SequenceAttribute::ATTRIBUTE_KEY@)
                || field_wrong::<PortId>(event@.1, SrcPortIdAttribute::ATTRIBUTE_KEY@)
                || field_wrong::<ChannelId>(event@.1, SrcChannelIdAttribute::ATTRIBUTE_KEY@)
                || field_wrong::<PortId>(event@.1, DstPortIdAttribute::ATTRIBUTE_KEY@)
                || field_wrong::<ChannelId>(event@.1, DstChannelIdAttribute::ATTRIBUTE_KEY@)
                || field_wrong::<Order>(event@.1, ChannelOrderingAttribute::ATTRIBUTE_KEY@)
                || field_wrong::<ConnectionId>(event@.1, PacketConnectionIdAttribute::ATTRIBUTE_KEY@)))),
            forall|x: SendPacket|
                #[trigger] x.abci_view() == event@ && x.fields_read_back() ==> (r matches Ok(y)
                    && y.abci_view() == x.abci_view()),
            forall|x: SendPacket|
                #[trigger] x.abci_view() == event@ && x.fields_read_back() && x.fields_canonical()
                    ==> (r matches Ok(y) && y.same_values(x)),
    {
        proof {
            assert forall|x: SendPacket| #[trigger] x.abci_view() == event@ && x.fields_read_back()
                implies {
                &&& field_readable::<Vec<u8>>(event@.1, PacketDataAttribute::ATTRIBUTE_KEY@)
                &&& first_value(event@.1, PacketDataAttribute::ATTRIBUTE_KEY@) == x.packet_data@.event_value()
                &&& field_readable::<TimeoutHeight>(event@.1, TimeoutHeightAttribute::ATTRIBUTE_KEY@)
                &&& first_value(event@.1, TimeoutHeightAttribute::ATTRIBUTE_KEY@) == x.timeout_height_on_b@.event_value()
                &&& field_readable::<TimeoutTimestamp>(event@.1, TimeoutTimestampAttribute::ATTRIBUTE_KEY@)
                &&& first_value(event@.1, TimeoutTimestampAttribute::ATTRIBUTE_KEY@) == x.timeout_timestamp_on_b@.event_value()
                &&& field_readable::<Sequence>(event@.1, SequenceAttribute::ATTRIBUTE_KEY@)
                &&& first_value(event@.1, SequenceAttribute::ATTRIBUTE_KEY@) == x.seq_on_a@.event_value()
                &&& field_readable::<PortId>(event@.1, SrcPortIdAttribute::ATTRIBUTE_KEY@)
                &&& first_value(event@.1, SrcPortIdAttribute::ATTRIBUTE_KEY@) == x.port_id_on_a@.event_value()
                &&& field_readable::<ChannelId>(event@.1, SrcChannelIdAttribute::ATTRIBUTE_KEY@)
                &&& first_value(event@.1, SrcChannelIdAttribute::ATTRIBUTE_KEY@) == x.chan_id_on_a@.event_value()
                &&& field_readable::<PortId>(event@.1, DstPortIdAttribute::ATTRIBUTE_KEY@)
                &&& first_value(event@.1, DstPortIdAttribute::ATTRIBUTE_KEY@) == x.port_id_on_b@.event_value()
                &&& field_readable::<ChannelId>(event@.1, DstChannelIdAttribute::ATTRIBUTE_KEY@)
                &&& first_value(event@.1, DstChannelIdAttribute::ATTRIBUTE_KEY@) == x.chan_id_on_b@.event_value()
                &&& field_readable::<Order>(event@.1, ChannelOrderingAttribute::ATTRIBUTE_KEY@)
                &&& first_value(event@.1, ChannelOrderingAttribute::ATTRIBUTE_KEY@) == x.ordering@.event_value()
                &&& field_readable::<ConnectionId>(event@.1, PacketConnectionIdAttribute::ATTRIBUTE_KEY@)
                &&& first_value(event@.1, PacketConnectionIdAttribute::ATTRIBUTE_KEY@) == x.conn_id_on_a@.event_value()
            } by {
                let s = x.abci_view().1;
                reveal_strlit("connection_id");
                reveal_strlit("packet_channel_ordering");
                reveal_strlit("packet_data_hex");
                reveal_strlit("packet_dst_channel");
                reveal_strlit("packet_dst_port");
                reveal_strlit("packet_sequence");
                reveal_strlit("packet_src_channel");
                reveal_strlit("packet_src_port");
                reveal_strlit("packet_timeout_height");
                reveal_strlit("packet_timeout_timestamp");
                assert("packet_data_hex"@[8] != "packet_dst_port"@[8]);
                assert("packet_data_hex"@[7] != "packet_sequence"@[7]);
                assert("packet_data_hex"@[7] != "packet_src_port"@[7]);
                assert("packet_dst_channel"@[7] != "packet_src_channel"@[7]);
                assert("packet_dst_port"@[7] != "packet_sequence"@[7]);
                assert("packet_dst_port"@[7] != "packet_src_port"@[7]);
                assert("packet_sequence"@[8] != "packet_src_port"@[8]);
                assert(s.take(10) =~= s);
                assert(s.take(10).drop_last() =~= s.take(9));
                assert(s.take(9).drop_last() =~= s.take(8));
                assert(s.take(8).drop_last() =~= s.take(7));
                assert(s.take(7).drop_last() =~= s.take(6));
                assert(s.take(6).drop_last() =~= s.take(5));
                assert(s.take(5).drop_last() =~= s.take(4));
                assert(s.take(4).drop_last() =~= s.take(3));
                assert(s.take(3).drop_last() =~= s.take(2));
                assert(s.take(2).drop_last() =~= s.take(1));
                assert(s.take(1).drop_last() =~= s.take(0));
                reveal_with_fuel(keys_distinct, 11);
                reveal_with_fuel(key_absent, 11);
                assert(s[0].0 == PacketDataAttribute::ATTRIBUTE_KEY@ && s[0].0.len() == 15);
                assert(s[1].0 == TimeoutHeightAttribute::ATTRIBUTE_KEY@ && s[1].0.len() == 21);
                assert(s[2].0 == TimeoutTimestampAttribute::ATTRIBUTE_KEY@ && s[2].0.len() == 24);
                assert(s[3].0 == SequenceAttribute::ATTRIBUTE_KEY@ && s[3].0.len() == 15);
                assert(s[4].0 == SrcPortIdAttribute::ATTRIBUTE_KEY@ && s[4].0.len() == 15);
                assert(s[5].0 == SrcChannelIdAttribute::ATTRIBUTE_KEY@ && s[5].0.len() == 18);
                assert(s[6].0 == DstPortIdAttribute::ATTRIBUTE_KEY@ && s[6].0.len() == 15);
                assert(s[7].0 == DstChannelIdAttribute::ATTRIBUTE_KEY@ && s[7].0.len() == 18);
                assert(s[8].0 == ChannelOrderingAttribute::ATTRIBUTE_KEY@ && s[8].0.len() == 23);
                assert(s[9].0 == PacketConnectionIdAttribute::ATTRIBUTE_KEY@ && s[9].0.len() == 13);
                assert(s.take(1).last() == s[0]);
                assert(key_absent(s.take(0), s[0].0));
                assert(keys_distinct(s.take(1)));
                assert(s.take(2).last() == s[1]);
                assert(key_absent(s.take(1), s[1].0));
                assert(keys_distinct(s.take(2)));
                assert(s.take(3).last() == s[2]);
                assert(key_absent(s.take(2), s[2].0));
                assert(keys_distinct(s.take(3)));
                assert(s.take(4).last() == s[3]);
                assert(key_absent(s.take(3), s[3].0));
                assert(keys_distinct(s.take(4)));
                assert(s.take(5).last() == s[4]);
                assert(key_absent(s.take(4), s[4].0));
                assert(keys_distinct(s.take(5)));
                assert(s.take(6).last() == s[5]);
                assert(key_absent(s.take(5), s[5].0));
                assert(keys_distinct(s.take(6)));
                assert(s.take(7).last() == s[6]);
                assert(key_absent(s.take(6), s[6].0));
                assert(keys_distinct(s.take(7)));
                assert(s.take(8).last() == s[7]);
                assert(key_absent(s.take(7), s[7].0));
                assert(keys_distinct(s.take(8)));
                assert(s.take(9).last() == s[8]);
                assert(key_absent(s.take(8), s[8].0));
                assert(keys_distinct(s.take(9)));
                assert(s.take(10).last() == s[9]);
                assert(key_absent(s.take(9), s[9].0));
                assert(keys_distinct(s.take(10)));
                lemma_distinct_keys(s, 0);
                lemma_distinct_keys(s, 1);
                lemma_distinct_keys(s, 2);
                lemma_distinct_keys(s, 3);
                lemma_distinct_keys(s, 4);
                lemma_distinct_keys(s, 5);
                lemma_distinct_keys(s, 6);
                lemma_distinct_keys(s, 7);
                lemma_distinct_keys(s, 8);
                lemma_distinct_keys(s, 9);
                assert(s[0].0 == PacketDataAttribute::ATTRIBUTE_KEY@ && s[0].1 == x.packet_data@.event_value());
                assert(s[1].0 == TimeoutHeightAttribute::ATTRIBUTE_KEY@ && s[1].1 == x.timeout_height_on_b@.event_value());
                assert(s[2].0 == TimeoutTimestampAttribute::ATTRIBUTE_KEY@ && s[2].1 == x.timeout_timestamp_on_b@.event_value());
                assert(s[3].0 == SequenceAttribute::ATTRIBUTE_KEY@ && s[3].1 == x.seq_on_a@.event_value());
                assert(s[4].0 == SrcPortIdAttribute::ATTRIBUTE_KEY@ && s[4].1 == x.port_id_on_a@.event_value());
                assert(s[5].0 == SrcChannelIdAttribute::ATTRIBUTE_KEY@ && s[5].1 == x.chan_id_on_a@.event_value());
                assert(s[6].0 == DstPortIdAttribute::ATTRIBUTE_KEY@ && s[6].1 == x.port_id_on_b@.event_value());
                assert(s[7].0 == DstChannelIdAttribute::ATTRIBUTE_KEY@ && s[7].1 == x.chan_id_on_b@.event_value());
                assert(s[8].0 == ChannelOrderingAttribute::ATTRIBUTE_KEY@ && s[8].1 == x.ordering@.event_value());
                assert(s[9].0 == PacketConnectionIdAttribute::ATTRIBUTE_KEY@ && s[9].1 == x.conn_id_on_a@.event_value());
            }
        }
        let expected = String::from_str(SendPacket::EVENT_KIND);
        if !(event.kind == expected) {
            return Err(DecodingError::MismatchedResourceName { expected, actual: event.kind });
        }
        let mut failure: Option<(usize, DecodingError)> = None;
        let packet_data = match scan_field::<Vec<u8>>(
            &event.attributes,
            PacketDataAttribute::ATTRIBUTE_KEY,
            PacketDataAttribute::FRIENDLY_NAME,
        ) {
            FieldScan::Found(v) => Some(v),
            FieldScan::Missing => None,
            FieldScan::Failed { at, error } => {
                failure = earlier_failure(failure, at, error);
                None
            },
        };
        let timeout_height_on_b = match scan_field::<TimeoutHeight>(
            &event.attributes,
            TimeoutHeightAttribute::ATTRIBUTE_KEY,
            TimeoutHeightAttribute::FRIENDLY_NAME,
        ) {
            FieldScan::Found(v) => Some(v),
            FieldScan::Missing => None,
            FieldScan::Failed { at, error } => {
                failure = earlier_failure(failure, at, error);
                None
            },
        };
        let timeout_timestamp_on_b = match scan_field::<TimeoutTimestamp>(
            &event.attributes,
            TimeoutTimestampAttribute::ATTRIBUTE_KEY,
            TimeoutTimestampAttribute::FRIENDLY_NAME,
        ) {
            FieldScan::Found(v) => Some(v),
            FieldScan::Missing => None,
            FieldScan::Failed { at, error } => {
                failure = earlier_failure(failure, at, error);
                None
            },
        };
        let seq_on_a = match scan_field::<Sequence>(
            &event.attributes,
            SequenceAttribute::ATTRIBUTE_KEY,
            SequenceAttribute::FRIENDLY_NAME,
        ) {
            FieldScan::Found(v) => Some(v),
            FieldScan::Missing => None,
            FieldScan::Failed { at, error } => {
                failure = earlier_failure(failure, at, error);
                None
            },
        };
        let port_id_on_a = match scan_field::<PortId>(
            &event.attributes,
            SrcPortIdAttribute::ATTRIBUTE_KEY,
            SrcPortIdAttribute::FRIENDLY_NAME,
        ) {
            FieldScan::Found(v) => Some(v),
            FieldScan::Missing => None,
            FieldScan::Failed { at, error } => {
                failure = earlier_failure(failure, at, error);
                None
            },
        };
        let chan_id_on_a = match scan_field::<ChannelId>(
            &event.attributes,
            SrcChannelIdAttribute::ATTRIBUTE_KEY,
            SrcChannelIdAttribute::FRIENDLY_NAME,
        ) {
            FieldScan::Found(v) => Some(v),
            FieldScan::Missing => None,
            FieldScan::Failed { at, error } => {
                failure = earlier_failure(failure, at, error);
                None
            },
        };
        let port_id_on_b = match scan_field::<PortId>(
            &event.attributes,
            DstPortIdAttribute::ATTRIBUTE_KEY,
            DstPortIdAttribute::FRIENDLY_NAME,
        ) {
            FieldScan::Found(v) => Some(v),
            FieldScan::Missing => None,
            FieldScan::Failed { at, error } => {
                failure = earlier_failure(failure, at, error);
                None
            },
        };
        let chan_id_on_b = match scan_field::<ChannelId>(
            &event.attributes,
            DstChannelIdAttribute::ATTRIBUTE_KEY,
            DstChannelIdAttribute::FRIENDLY_NAME,
        ) {
            FieldScan::Found(v) => Some(v),
            FieldScan::Missing => None,
            FieldScan::Failed { at, error } => {
                failure = earlier_failure(failure, at, error);
                None
            },
        };
        let ordering = match scan_field::<Order>(
            &event.attributes,
            ChannelOrderingAttribute::ATTRIBUTE_KEY,
            ChannelOrderingAttribute::FRIENDLY_NAME,
        ) {
            FieldScan::Found(v) => Some(v),
            FieldScan::Missing => None,
            FieldScan::Failed { at, error } => {
                failure = earlier_failure(failure, at, error);
                None
            },
        };
        let conn_id_on_a = match scan_field::<ConnectionId>(
            &event.attributes,
            PacketConnectionIdAttribute::ATTRIBUTE_KEY,
            PacketConnectionIdAttribute::FRIENDLY_NAME,
        ) {
            FieldScan::Found(v) => Some(v),
            FieldScan::Missing => None,
            FieldScan::Failed { at, error } => {
                failure = earlier_failure(failure, at, error);
                None
            },
        };
        if let Some((_, error)) = failure {
            return Err(error);
        }
        let packet_data = match packet_data {
            Some(v) => PacketDataAttribute(v),
            None => {
                return Err(missing_attribute(PacketDataAttribute::FRIENDLY_NAME));
            },
        };
        let timeout_height_on_b = match timeout_height_on_b {
            Some(v) => TimeoutHeightAttribute(v),
            None => {
                return Err(missing_attribute(TimeoutHeightAttribute::FRIENDLY_NAME));
            },
        };
        let timeout_timestamp_on_b = match timeout_timestamp_on_b {
            Some(v) => TimeoutTimestampAttribute(v),
            None => {
                return Err(missing_attribute(TimeoutTimestampAttribute::FRIENDLY_NAME));
            },
        };
        let seq_on_a = match seq_on_a {
            Some(v) => SequenceAttribute(v),
            None => {
                return Err(missing_attribute(SequenceAttribute::FRIENDLY_NAME));
            },
        };
        let port_id_on_a = match port_id_on_a {
            Some(v) => SrcPortIdAttribute(v),
            None => {
                return Err(missing_attribute(SrcPortIdAttribute::FRIENDLY_NAME));
            },
        };
        let chan_id_on_a = match chan_id_on_a {
            Some(v) => SrcChannelIdAttribute(v),
            None => {
                return Err(missing_attribute(SrcChannelIdAttribute::FRIENDLY_NAME));
            },
        };
        let port_id_on_b = match port_id_on_b {
            Some(v) => DstPortIdAttribute(v),
            None => {
                return Err(missing_attribute(DstPortIdAttribute::FRIENDLY_NAME));
            },
        };
        let chan_id_on_b = match chan_id_on_b {
            Some(v) => DstChannelIdAttribute(v),
            None => {
                return Err(missing_attribute(DstChannelIdAttribute::FRIENDLY_NAME));
            },
        };
        let ordering = match ordering {
            Some(v) => ChannelOrderingAttribute(v),
            None => {
                return Err(missing_attribute(ChannelOrderingAttribute::FRIENDLY_NAME));
            },
        };
        let conn_id_on_a = match conn_id_on_a {
            Some(v) => PacketConnectionIdAttribute(v),
            None => {
                return Err(missing_attribute(PacketConnectionIdAttribute::FRIENDLY_NAME));
            },
        };
        let r = SendPacket { packet_data, timeout_height_on_b, timeout_timestamp_on_b, seq_on_a, port_id_on_a, chan_id_on_a, port_id_on_b, chan_id_on_b, ordering, conn_id_on_a };
        proof {
            assert forall|x: SendPacket| #[trigger] x.abci_view() == event@ && x.fields_read_back()
                implies r.abci_view() == x.abci_view() by {
                assert(r.abci_view().1 =~= x.abci_view().1);
            }
            assert forall|x: SendPacket|
                #[trigger] x.abci_view() == event@ && x.fields_read_back() && x.fields_canonical()
                implies r.same_values(x) by {
                <Vec<u8> as AttributeValue>::lemma_spelling_injective(r.packet_data@, x.packet_data@);
                <TimeoutHeight as AttributeValue>::lemma_spelling_injective(r.timeout_height_on_b@, x.timeout_height_on_b@);
                <TimeoutTimestamp as AttributeValue>::lemma_spelling_injective(r.timeout_timestamp_on_b@, x.timeout_timestamp_on_b@);
                <Sequence as AttributeValue>::lemma_spelling_injective(r.seq_on_a@, x.seq_on_a@);
                <PortId as AttributeValue>::lemma_spelling_injective(r.port_id_on_a@, x.port_id_on_a@);
                <ChannelId as AttributeValue>::lemma_spelling_injective(r.chan_id_on_a@, x.chan_id_on_a@);
                <PortId as AttributeValue>::lemma_spelling_injective(r.port_id_on_b@, x.port_id_on_b@);
                <ChannelId as AttributeValue>::lemma_spelling_injective(r.chan_id_on_b@, x.chan_id_on_b@);
                <Order as AttributeValue>::lemma_spelling_injective(r.ordering@, x.ordering@);
                <ConnectionId as AttributeValue>::lemma_spelling_injective(r.conn_id_on_a@, x.conn_id_on_a@);
            }
        }
        Ok(r)
    }
}

impl vstd::std_specs::convert::TryFromSpecImpl<Event> for SendPacket {
    open spec fn obeys_try_from_spec() -> bool {
        false
    }

    open spec fn try_from_spec(v: Event) -> Result<SendPacket, DecodingError> {
        arbitrary()
    }
}

/// Reads the event from its kind and its attributes given as key-value
/// pairs, as `try_from` reads the ABCI event with those attributes.
impl TryFrom<(String, Vec<(String, String)>)> for SendPacket {
    type Error = DecodingError;

    fn try_from(parts: (String, Vec<(String, String)>)) -> (r: Result<SendPacket, DecodingError>)
        ensures
            parts.0@ != SendPacket::EVENT_KIND@ ==> (r matches Err(
                DecodingError::MismatchedResourceName { expected, actual },
            ) && expected@ == SendPacket::EVENT_KIND@ && actual@ == parts.0@),
            r is Ok <==> parts.0@ == SendPacket::EVENT_KIND@
                && field_readable::<Vec<u8>>(pairs_view(parts.1@), PacketDataAttribute::ATTRIBUTE_KEY@)
                && field_readable::<TimeoutHeight>(pairs_view(parts.1@), TimeoutHeightAttribute::ATTRIBUTE_KEY@)
                && field_readable::<TimeoutTimestamp>(pairs_view(parts.1@), TimeoutTimestampAttribute::ATTRIBUTE_KEY@)
                && field_readable::<Sequence>(pairs_view(parts.1@), SequenceAttribute::ATTRIBUTE_KEY@)
                && field_readable::<PortId>(pairs_view(parts.1@), SrcPortIdAttribute::ATTRIBUTE_KEY@)
                && field_readable::<ChannelId>(pairs_view(parts.1@), SrcChannelIdAttribute::ATTRIBUTE_KEY@)
                && field_readable::<PortId>(pairs_view(parts.1@), DstPortIdAttribute::ATTRIBUTE_KEY@)
                && field_readable::<ChannelId>(pairs_view(parts.1@), DstChannelIdAttribute::ATTRIBUTE_KEY@)
                && field_readable::<Order>(pairs_view(parts.1@), ChannelOrderingAttribute::ATTRIBUTE_KEY@)
                && field_readable::<ConnectionId>(pairs_view(parts.1@), PacketConnectionIdAttribute::ATTRIBUTE_KEY@),
            r matches Ok(e) ==> {
                &&& e.packet_data@.event_value() == <Vec<u8> as AttributeValue>::normal_form(
                    first_value(pairs_view(parts.1@), PacketDataAttribute::ATTRIBUTE_KEY@),
                )
                &&& e.timeout_height_on_b@.event_value() == <TimeoutHeight as AttributeValue>::normal_form(
                    first_value(pairs_view(parts.1@), TimeoutHeightAttribute::ATTRIBUTE_KEY@),
                )
                &&& e.timeout_timestamp_on_b@.event_value() == <TimeoutTimestamp as AttributeValue>::normal_form(
                    first_value(pairs_view(parts.1@), TimeoutTimestampAttribute::ATTRIBUTE_KEY@),
                )
                &&& e.seq_on_a@.event_value() == <Sequence as AttributeValue>::normal_form(
                    first_value(pairs_view(parts.1@), SequenceAttribute::ATTRIBUTE_KEY@),
                )
                &&& e.port_id_on_a@.event_value() == <PortId as AttributeValue>::normal_form(
                    first_value(pairs_view(parts.1@), SrcPortIdAttribute::ATTRIBUTE_KEY@),
                )
                &&& e.chan_id_on_a@.event_value() == <ChannelId as AttributeValue>::normal_form(
                    first_value(pairs_view(parts.1@), SrcChannelIdAttribute::ATTRIBUTE_KEY@),
                )
                &&& e.port_id_on_b@.event_value() == <PortId as AttributeValue>::normal_form(
                    first_value(pairs_view(parts.1@), DstPortIdAttribute::ATTRIBUTE_KEY@),
                )
                &&& e.chan_id_on_b@.event_value() == <ChannelId as AttributeValue>::normal_form(
                    first_value(pairs_view(parts.1@), DstChannelIdAttribute::ATTRIBUTE_KEY@),
                )
                &&& e.ordering@.event_value() == <Order as AttributeValue>::normal_form(
                    first_value(pairs_view(parts.1@), ChannelOrderingAttribute::ATTRIBUTE_KEY@),
                )
                &&& e.conn_id_on_a@.event_value() == <ConnectionId as AttributeValue>::normal_form(
                    first_value(pairs_view(parts.1@), PacketConnectionIdAttribute::ATTRIBUTE_KEY@),
                )
            },
            parts.0@ == SendPacket::EVENT_KIND@ ==> (r matches Err(e) ==> (e is MissingRawData <==> !(
                field_wrong::<Vec<u8>>(pairs_view(parts.1@), PacketDataAttribute::ATTRIBUTE_KEY@)
                || field_wrong::<TimeoutHeight>(pairs_view(parts.1@), TimeoutHeightAttribute::ATTRIBUTE_KEY@)
                || field_wrong::<TimeoutTimestamp>(pairs_view(parts.1@), TimeoutTimestampAttribute::ATTRIBUTE_KEY@)
                || field_wrong::<Sequence>(pairs_view(parts.1@), SequenceAttribute::ATTRIBUTE_KEY@)
                || field_wrong::<PortId>(pairs_view(parts.1@), SrcPortIdAttribute::ATTRIBUTE_KEY@)
                || field_wrong::<ChannelId>(pairs_view(parts.1@), SrcChannelIdAttribute::ATTRIBUTE_KEY@)
                || field_wrong::<PortId>(pairs_view(parts.1@), DstPortIdAttribute::ATTRIBUTE_KEY@)
                || field_wrong::<ChannelId>(pairs_view(parts.1@), DstChannelIdAttribute::ATTRIBUTE_KEY@)
                || field_wrong::<Order>(pairs_view(parts.1@), ChannelOrderingAttribute::ATTRIBUTE_KEY@)
                || field_wrong::<ConnectionId>(pairs_view(parts.1@), PacketConnectionIdAttribute::ATTRIBUTE_KEY@)))),
            forall|x: SendPacket|
                #[trigger] x.abci_view() == (parts.0@, pairs_view(parts.1@)) && x.fields_read_back() ==> (r matches Ok(y)
                    && y.abci_view() == x.abci_view()),
            forall|x: SendPacket|
                #[trigger] x.abci_view() == (parts.0@, pairs_view(parts.1@)) && x.fields_read_back() && x.fields_canonical()
                    ==> (r matches Ok(y) && y.same_values(x)),
    {
        let (kind, pairs) = parts;
        <SendPacket as TryFrom<Event>>::try_from(Event::from_pairs(kind, pairs))
    }
}

impl vstd::std_specs::convert::TryFromSpecImpl<(String, Vec<(String, String)>)> for SendPacket {
    open spec fn obeys_try_from_spec() -> bool {
        false
    }

    open spec fn try_from_spec(v: (String, Vec<(String, String)>)) -> Result<SendPacket, DecodingError> {
        arbitrary()
    }
}

/// The `recv_packet` event: a packet was received.
#[derive(Clone, Debug, PartialEq, Eq)]
pub struct ReceivePacket {
    pub packet_data: PacketDataAttribute,
    pub timeout_height_on_b: TimeoutHeightAttribute,
    pub timeout_timestamp_on_b: TimeoutTimestampAttribute,
    pub seq_on_a: SequenceAttribute,
    pub port_id_on_a: SrcPortIdAttribute,
    pub chan_id_on_a: SrcChannelIdAttribute,
    pub port_id_on_b: DstPortIdAttribute,
    pub chan_id_on_b: DstChannelIdAttribute,
    pub ordering: ChannelOrderingAttribute,
    pub conn_id_on_b: PacketConnectionIdAttribute,
}

impl ReceivePacket {
    /// The kind of this event in ABCI.
    pub const EVENT_KIND: &'static str = "recv_packet";

    /// The event with the given attribute values.
    pub fn new(packet_data: Vec<u8>, timeout_height_on_b: TimeoutHeight, timeout_timestamp_on_b: TimeoutTimestamp, seq_on_a: Sequence, port_id_on_a: PortId, chan_id_on_a: ChannelId, port_id_on_b: PortId, chan_id_on_b: ChannelId, ordering: Order, conn_id_on_b: ConnectionId) -> (r: ReceivePacket)
        ensures
            r.packet_data@ == packet_data,
            r.timeout_height_on_b@ == timeout_height_on_b,
            r.timeout_timestamp_on_b@ == timeout_timestamp_on_b,
            r.seq_on_a@ == seq_on_a,
            r.port_id_on_a@ == port_id_on_a,
            r.chan_id_on_a@ == chan_id_on_a,
            r.port_id_on_b@ == port_id_on_b,
            r.chan_id_on_b@ == chan_id_on_b,
            r.ordering@ == ordering,
            r.conn_id_on_b@ == conn_id_on_b,
    {
        ReceivePacket { packet_data: PacketDataAttribute::new(packet_data), timeout_height_on_b: TimeoutHeightAttribute::new(timeout_height_on_b), timeout_timestamp_on_b: TimeoutTimestampAttribute::new(timeout_timestamp_on_b), seq_on_a: SequenceAttribute::new(seq_on_a), port_id_on_a: SrcPortIdAttribute::new(port_id_on_a), chan_id_on_a: SrcChannelIdAttribute::new(chan_id_on_a), port_id_on_b: DstPortIdAttribute::new(port_id_on_b), chan_id_on_b: DstChannelIdAttribute::new(chan_id_on_b), ordering: ChannelOrderingAttribute::new(ordering), conn_id_on_b: PacketConnectionIdAttribute::new(conn_id_on_b) }
    }

    /// The value of the `packet_data` attribute.
    pub fn packet_data(&self) -> (r: &Vec<u8>)
        ensures
            *r == self.packet_data@,
    {
        self.packet_data.value()
    }

    /// The value of the `timeout_height_on_b` attribute.
    pub fn timeout_height_on_b(&self) -> (r: &TimeoutHeight)
        ensures
            *r == self.timeout_height_on_b@,
    {
        self.timeout_height_on_b.value()
    }

    /// The value of the `timeout_timestamp_on_b` attribute.
    pub fn timeout_timestamp_on_b(&self) -> (r: &TimeoutTimestamp)
        ensures
            *r == self.timeout_timestamp_on_b@,
    {
        self.timeout_timestamp_on_b.value()
    }

    /// The value of the `seq_on_a` attribute.
    pub fn seq_on_a(&self) -> (r: &Sequence)
        ensures
            *r == self.seq_on_a@,
    {
        self.seq_on_a.value()
    }

    /// The value of the `port_id_on_a` attribute.
    pub fn port_id_on_a(&self) -> (r: &PortId)
        ensures
            *r == self.port_id_on_a@,
    {
        self.port_id_on_a.value()
    }

    /// The value of the `chan_id_on_a` attribute.
    pub fn chan_id_on_a(&self) -> (r: &ChannelId)
        ensures
            *r == self.chan_id_on_a@,
    {
        self.chan_id_on_a.value()
    }

    /// The value of the `port_id_on_b` attribute.
    pub fn port_id_on_b(&self) -> (r: &PortId)
        ensures
            *r == self.port_id_on_b@,
    {
        self.port_id_on_b.value()
    }

    /// The value of the `chan_id_on_b` attribute.
    pub fn chan_id_on_b(&self) -> (r: &ChannelId)
        ensures
            *r == self.chan_id_on_b@,
    {
        self.chan_id_on_b.value()
    }

    /// The value of the `ordering` attribute.
    pub fn ordering(&self) -> (r: &Order)
        ensures
            *r == self.ordering@,
    {
        self.ordering.value()
    }

    /// The value of the `conn_id_on_b` attribute.
    pub fn conn_id_on_b(&self) -> (r: &ConnectionId)
        ensures
            *r == self.conn_id_on_b@,
    {
        self.conn_id_on_b.value()
    }

    /// The ABCI event that this event becomes: its kind, and its
    /// attributes in the order of the fields.
    pub open spec fn abci_view(self) -> (Seq<char>, Seq<(Seq<char>, Seq<char>, bool)>) {
        (Self::EVENT_KIND@, seq![self.packet_data.attribute_view(), self.timeout_height_on_b.attribute_view(), self.timeout_timestamp_on_b.attribute_view(), self.seq_on_a.attribute_view(), self.port_id_on_a.attribute_view(), self.chan_id_on_a.attribute_view(), self.port_id_on_b.attribute_view(), self.chan_id_on_b.attribute_view(), self.ordering.attribute_view(), self.conn_id_on_b.attribute_view()])
    }
}

/// The event as an ABCI event: its kind and its attributes in the order of
/// the fields. A spec function cannot build the strings of an `Event`, so
/// `from` states its result in its own `ensures`.
impl From<ReceivePacket> for Event {
    fn from(event: ReceivePacket) -> (r: Event)
        ensures
            r@ == event.abci_view(),
    {
        let ghost view = event.abci_view();
        let attributes = vec![
            EventAttribute::from(event.packet_data),
            EventAttribute::from(event.timeout_height_on_b),
            EventAttribute::from(event.timeout_timestamp_on_b),
            EventAttribute::from(event.seq_on_a),
            EventAttribute::from(event.port_id_on_a),
            EventAttribute::from(event.chan_id_on_a),
            EventAttribute::from(event.port_id_on_b),
            EventAttribute::from(event.chan_id_on_b),
            EventAttribute::from(event.ordering),
            EventAttribute::from(event.conn_id_on_b),
        ];
        let r = Event { kind: String::from_str(ReceivePacket::EVENT_KIND), attributes };
        assert(attributes_view(r.attributes@) =~= view.1);
        r
    }
}

impl vstd::std_specs::convert::FromSpecImpl<ReceivePacket> for Event {
    open spec fn obeys_from_spec() -> bool {
        false
    }

    open spec fn from_spec(v: ReceivePacket) -> Event {
        arbitrary()
    }
}

impl ReceivePacket {
    /// Whether the spelling of every attribute value reads back as itself.
    pub open spec fn fields_read_back(self) -> bool {
        &&& reads_back(self.packet_data@)
        &&& reads_back(self.timeout_height_on_b@)
        &&& reads_back(self.timeout_timestamp_on_b@)
        &&& reads_back(self.seq_on_a@)
        &&& reads_back(self.port_id_on_a@)
        &&& reads_back(self.chan_id_on_a@)
        &&& reads_back(self.port_id_on_b@)
        &&& reads_back(self.chan_id_on_b@)
        &&& reads_back(self.ordering@)
        &&& reads_back(self.conn_id_on_b@)
    }

    /// Whether every attribute value is the one its spelling is read as.
    pub open spec fn fields_canonical(self) -> bool {
        &&& self.packet_data@.canonical()
        &&& self.timeout_height_on_b@.canonical()
        &&& self.timeout_timestamp_on_b@.canonical()
        &&& self.seq_on_a@.canonical()
        &&& self.port_id_on_a@.canonical()
        &&& self.chan_id_on_a@.canonical()
        &&& self.port_id_on_b@.canonical()
        &&& self.chan_id_on_b@.canonical()
        &&& self.ordering@.canonical()
        &&& self.conn_id_on_b@.canonical()
    }

    /// Whether the two events hold the same values, attribute by
    /// attribute.
    pub open spec fn same_values(self, other: ReceivePacket) -> bool {
        &&& self.packet_data@.same_value(other.packet_data@)
        &&& self.timeout_height_on_b@.same_value(other.timeout_height_on_b@)
        &&& self.timeout_timestamp_on_b@.same_value(other.timeout_timestamp_on_b@)
        &&& self.seq_on_a@.same_value(other.seq_on_a@)
        &&& self.port_id_on_a@.same_value(other.port_id_on_a@)
        &&& self.chan_id_on_a@.same_value(other.chan_id_on_a@)
        &&& self.port_id_on_b@.same_value(other.port_id_on_b@)
        &&& self.chan_id_on_b@.same_value(other.chan_id_on_b@)
        &&& self.ordering@.same_value(other.ordering@)
        &&& self.conn_id_on_b@.same_value(other.conn_id_on_b@)
    }
}

/// Reads the event back from its ABCI form. The kind must be this event's;
/// each attribute of the event must occur once and hold a value of its
/// type, and attributes with other keys are passed over. Where several
/// attributes are wrong, the error is that of the first wrong attribute
/// in the list, and where none is wrong but some are missing, that of the
/// first missing one in the order of the fields.
impl TryFrom<Event> for ReceivePacket {
    type Error = DecodingError;

    fn try_from(event: Event) -> (r: Result<ReceivePacket, DecodingError>)
        ensures
            event@.0 != ReceivePacket::EVENT_KIND@ ==> (r matches Err(
                DecodingError::MismatchedResourceName { expected, actual },
            ) && expected@ == ReceivePacket::EVENT_KIND@ && actual@ == event@.0),
            r is Ok <==> event@.0 == ReceivePacket::EVENT_KIND@
                && field_readable::<Vec<u8>>(event@.1, PacketDataAttribute::ATTRIBUTE_KEY@)
                && field_readable::<TimeoutHeight>(event@.1, TimeoutHeightAttribute::ATTRIBUTE_KEY@)
                && field_readable::<TimeoutTimestamp>(event@.1, TimeoutTimestampAttribute::ATTRIBUTE_KEY@)
                && field_readable::<Sequence>(event@.1, SequenceAttribute::ATTRIBUTE_KEY@)
                && field_readable::<PortId>(event@.1, SrcPortIdAttribute::ATTRIBUTE_KEY@)
                && field_readable::<ChannelId>(event@.1, SrcChannelIdAttribute::ATTRIBUTE_KEY@)
                && field_readable::<PortId>(event@.1, DstPortIdAttribute::ATTRIBUTE_KEY@)
                && field_readable::<ChannelId>(event@.1, DstChannelIdAttribute::ATTRIBUTE_KEY@)
                && field_readable::<Order>(event@.1, ChannelOrderingAttribute::ATTRIBUTE_KEY@)
                && field_readable::<ConnectionId>(event@.1, PacketConnectionIdAttribute::ATTRIBUTE_KEY@),
            r matches Ok(e) ==> {
                &&& e.packet_data@.event_value() == <Vec<u8> as AttributeValue>::normal_form(
                    first_value(event@.1, PacketDataAttribute::ATTRIBUTE_KEY@),
                )
                &&& e.timeout_height_on_b@.event_value() == <TimeoutHeight as AttributeValue>::normal_form(
                    first_value(event@.1, TimeoutHeightAttribute::ATTRIBUTE_KEY@),
                )
                &&& e.timeout_timestamp_on_b@.event_value() == <TimeoutTimestamp as AttributeValue>::normal_form(
                    first_value(event@.1, TimeoutTimestampAttribute::ATTRIBUTE_KEY@),
                )
                &&& e.seq_on_a@.event_value() == <Sequence as AttributeValue>::normal_form(
                    first_value(event@.1, SequenceAttribute::ATTRIBUTE_KEY@),
                )
                &&& e.port_id_on_a@.event_value() == <PortId as AttributeValue>::normal_form(
                    first_value(event@.1, SrcPortIdAttribute::ATTRIBUTE_KEY@),
                )
                &&& e.chan_id_on_a@.event_value() == <ChannelId as AttributeValue>::normal_form(
                    first_value(event@.1, SrcChannelIdAttribute::ATTRIBUTE_KEY@),
                )
                &&& e.port_id_on_b@.event_value() == <PortId as AttributeValue>::normal_form(
                    first_value(event@.1, DstPortIdAttribute::ATTRIBUTE_KEY@),
                )
                &&& e.chan_id_on_b@.event_value() == <ChannelId as AttributeValue>::normal_form(
                    first_value(event@.1, DstChannelIdAttribute::ATTRIBUTE_KEY@),
                )
                &&& e.ordering@.event_value() == <Order as AttributeValue>::normal_form(
                    first_value(event@.1, ChannelOrderingAttribute::ATTRIBUTE_KEY@),
                )
                &&& e.conn_id_on_b@.event_value() == <ConnectionId as AttributeValue>::normal_form(
                    first_value(event@.1, PacketConnectionIdAttribute::ATTRIBUTE_KEY@),
                )
            },
            event@.0 == ReceivePacket::EVENT_KIND@ ==> (r matches Err(e) ==> (e is MissingRawData <==> !(
                field_wrong::<Vec<u8>>(event@.1, PacketDataAttribute::ATTRIBUTE_KEY@)
                || field_wrong::<TimeoutHeight>(event@.1, TimeoutHeightAttribute::ATTRIBUTE_KEY@)
                || field_wrong::<TimeoutTimestamp>(event@.1, TimeoutTimestampAttribute::ATTRIBUTE_KEY@)
                || field_wrong::<Sequence>(event@.1, SequenceAttribute::ATTRIBUTE_KEY@)
                || field_wrong::<PortId>(event@.1, SrcPortIdAttribute::ATTRIBUTE_KEY@)
                || field_wrong::<ChannelId>(event@.1, SrcChannelIdAttribute::ATTRIBUTE_KEY@)
                || field_wrong::<PortId>(event@.1, DstPortIdAttribute::ATTRIBUTE_KEY@)
                || field_wrong::<ChannelId>(event@.1, DstChannelIdAttribute::ATTRIBUTE_KEY@)
                || field_wrong::<Order>(event@.1, ChannelOrderingAttribute::ATTRIBUTE_KEY@)
                || field_wrong::<ConnectionId>(event@.1, PacketConnectionIdAttribute::ATTRIBUTE_KEY@)))),
            forall|x: ReceivePacket|
                #[trigger] x.abci_view() == event@ && x.fields_read_back() ==> (r matches Ok(y)
                    && y.abci_view() == x.abci_view()),
            forall|x: ReceivePacket|
                #[trigger] x.abci_view() == event@ && x.fields_read_back() && x.fields_canonical()
                    ==> (r matches Ok(y) && y.same_values(x)),
    {
        proof {
            assert forall|x: ReceivePacket| #[trigger] x.abci_view() == event@ && x.fields_read_back()
                implies {
                &&& field_readable::<Vec<u8>>(event@.1, PacketDataAttribute::ATTRIBUTE_KEY@)
                &&& first_value(event@.1, PacketDataAttribute::ATTRIBUTE_KEY@) == x.packet_data@.event_value()
                &&& field_readable::<TimeoutHeight>(event@.1, TimeoutHeightAttribute::ATTRIBUTE_KEY@)
                &&& first_value(event@.1, TimeoutHeightAttribute::ATTRIBUTE_KEY@) == x.timeout_height_on_b@.event_value()
                &&& field_readable::<TimeoutTimestamp>(event@.1, TimeoutTimestampAttribute::ATTRIBUTE_KEY@)
                &&& first_value(event@.1, TimeoutTimestampAttribute::ATTRIBUTE_KEY@) == x.timeout_timestamp_on_b@.event_value()
                &&& field_readable::<Sequence>(event@.1, SequenceAttribute::ATTRIBUTE_KEY@)
                &&& first_value(event@.1, SequenceAttribute::ATTRIBUTE_KEY@) == x.seq_on_a@.event_value()
                &&& field_readable::<PortId>(event@.1, SrcPortIdAttribute::ATTRIBUTE_KEY@)
                &&& first_value(event@.1, SrcPortIdAttribute::ATTRIBUTE_KEY@) == x.port_id_on_a@.event_value()
                &&& field_readable::<ChannelId>(event@.1, SrcChannelIdAttribute::ATTRIBUTE_KEY@)
                &&& first_value(event@.1, SrcChannelIdAttribute::ATTRIBUTE_KEY@) == x.chan_id_on_a@.event_value()
                &&& field_readable::<PortId>(event@.1, DstPortIdAttribute::ATTRIBUTE_KEY@)
                &&& first_value(event@.1, DstPortIdAttribute::ATTRIBUTE_KEY@) == x.port_id_on_b@.event_value()
                &&& field_readable::<ChannelId>(event@.1, DstChannelIdAttribute::ATTRIBUTE_KEY@)
                &&& first_value(event@.1, DstChannelIdAttribute::ATTRIBUTE_KEY@) == x.chan_id_on_b@.event_value()
                &&& field_readable::<Order>(event@.1, ChannelOrderingAttribute::ATTRIBUTE_KEY@)
                &&& first_value(event@.1, ChannelOrderingAttribute::ATTRIBUTE_KEY@) == x.ordering@.event_value()
                &&& field_readable::<ConnectionId>(event@.1, PacketConnectionIdAttribute::ATTRIBUTE_KEY@)
                &&& first_value(event@.1, PacketConnectionIdAttribute::ATTRIBUTE_KEY@) == x.conn_id_on_b@.event_value()
            } by {
                let s = x.abci_view().1;
                reveal_strlit("connection_id");
                reveal_strlit("packet_channel_ordering");
                reveal_strlit("packet_data_hex");
                reveal_strlit("packet_dst_channel");
                reveal_strlit("packet_dst_port");
                reveal_strlit("packet_sequence");
                reveal_strlit("packet_src_channel");
                reveal_strlit("packet_src_port");
                reveal_strlit("packet_timeout_height");
                reveal_strlit("packet_timeout_timestamp");
                assert("packet_data_hex"@[8] != "packet_dst_port"@[8]);
                assert("packet_data_hex"@[7] != "packet_sequence"@[7]);
                assert("packet_data_hex"@[7] != "packet_src_port"@[7]);
                assert("packet_dst_channel"@[7] != "packet_src_channel"@[7]);
                assert("packet_dst_port"@[7] != "packet_sequence"@[7]);
                assert("packet_dst_port"@[7] != "packet_src_port"@[7]);
                assert("packet_sequence"@[8] != "packet_src_port"@[8]);
                assert(s.take(10) =~= s);
                assert(s.take(10).drop_last() =~= s.take(9));
                assert(s.take(9).drop_last() =~= s.take(8));
                assert(s.take(8).drop_last() =~= s.take(7));
                assert(s.take(7).drop_last() =~= s.take(6));
                assert(s.take(6).drop_last() =~= s.take(5));
                assert(s.take(5).drop_last() =~= s.take(4));
                assert(s.take(4).drop_last() =~= s.take(3));
                assert(s.take(3).drop_last() =~= s.take(2));
                assert(s.take(2).drop_last() =~= s.take(1));
                assert(s.take(1).drop_last() =~= s.take(0));
                reveal_with_fuel(keys_distinct, 11);
                reveal_with_fuel(key_absent, 11);
                assert(s[0].0 == PacketDataAttribute::ATTRIBUTE_KEY@ && s[0].0.len() == 15);
                assert(s[1].0 == TimeoutHeightAttribute::ATTRIBUTE_KEY@ && s[1].0.len() == 21);
                assert(s[2].0 == TimeoutTimestampAttribute::ATTRIBUTE_KEY@ && s[2].0.len() == 24);
                assert(s[3].0 == SequenceAttribute::ATTRIBUTE_KEY@ && s[3].0.len() == 15);
                assert(s[4].0 == SrcPortIdAttribute::ATTRIBUTE_KEY@ && s[4].0.len() == 15);
                assert(s[5].0 == SrcChannelIdAttribute::ATTRIBUTE_KEY@ && s[5].0.len() == 18);
                assert(s[6].0 == DstPortIdAttribute::ATTRIBUTE_KEY@ && s[6].0.len() == 15);
                assert(s[7].0 == DstChannelIdAttribute::ATTRIBUTE_KEY@ && s[7].0.len() == 18);
                assert(s[8].0 == ChannelOrderingAttribute::ATTRIBUTE_KEY@ && s[8].0.len() == 23);
                assert(s[9].0 == PacketConnectionIdAttribute::ATTRIBUTE_KEY@ && s[9].0.len() == 13);
                assert(s.take(1).last() == s[0]);
                assert(key_absent(s.take(0), s[0].0));
                assert(keys_distinct(s.take(1)));
                assert(s.take(2).last() == s[1]);
                assert(key_absent(s.take(1), s[1].0));
                assert(keys_distinct(s.take(2)));
                assert(s.take(3).last() == s[2]);
                assert(key_absent(s.take(2), s[2].0));
                assert(keys_distinct(s.take(3)));
                assert(s.take(4).last() == s[3]);
                assert(key_absent(s.take(3), s[3].0));
                assert(keys_distinct(s.take(4)));
                assert(s.take(5).last() == s[4]);
                assert(key_absent(s.take(4), s[4].0));
                assert(keys_distinct(s.take(5)));
                assert(s.take(6).last() == s[5]);
                assert(key_absent(s.take(5), s[5].0));
                assert(keys_distinct(s.take(6)));
                assert(s.take(7).last() == s[6]);
                assert(key_absent(s.take(6), s[6].0));
                assert(keys_distinct(s.take(7)));
                assert(s.take(8).last() == s[7]);
                assert(key_absent(s.take(7), s[7].0));
                assert(keys_distinct(s.take(8)));
                assert(s.take(9).last() == s[8]);
                assert(key_absent(s.take(8), s[8].0));
                assert(keys_distinct(s.take(9)));
                assert(s.take(10).last() == s[9]);
                assert(key_absent(s.take(9), s[9].0));
                assert(keys_distinct(s.take(10)));
                lemma_distinct_keys(s, 0);
                lemma_distinct_keys(s, 1);
                lemma_distinct_keys(s, 2);
                lemma_distinct_keys(s, 3);
                lemma_distinct_keys(s, 4);
                lemma_distinct_keys(s, 5);
                lemma_distinct_keys(s, 6);
                lemma_distinct_keys(s, 7);
                lemma_distinct_keys(s, 8);
                lemma_distinct_keys(s, 9);
                assert(s[0].0 == PacketDataAttribute::ATTRIBUTE_KEY@ && s[0].1 == x.packet_data@.event_value());
                assert(s[1].0 == TimeoutHeightAttribute::ATTRIBUTE_KEY@ && s[1].1 == x.timeout_height_on_b@.event_value());
                assert(s[2].0 == TimeoutTimestampAttribute::ATTRIBUTE_KEY@ && s[2].1 == x.timeout_timestamp_on_b@.event_value());
                assert(s[3].0 == SequenceAttribute::ATTRIBUTE_KEY@ && s[3].1 == x.seq_on_a@.event_value());
                assert(s[4].0 == SrcPortIdAttribute::ATTRIBUTE_KEY@ && s[4].1 == x.port_id_on_a@.event_value());
                assert(s[5].0 == SrcChannelIdAttribute::ATTRIBUTE_KEY@ && s[5].1 == x.chan_id_on_a@.event_value());
                assert(s[6].0 == DstPortIdAttribute::ATTRIBUTE_KEY@ && s[6].1 == x.port_id_on_b@.event_value());
                assert(s[7].0 == DstChannelIdAttribute::ATTRIBUTE_KEY@ && s[7].1 == x.chan_id_on_b@.event_value());
                assert(s[8].0 == ChannelOrderingAttribute::ATTRIBUTE_KEY@ && s[8].1 == x.ordering@.event_value());
                assert(s[9].0 == PacketConnectionIdAttribute::ATTRIBUTE_KEY@ && s[9].1 == x.conn_id_on_b@.event_value());
            }
        }
        let expected = String::from_str(ReceivePacket::EVENT_KIND);
        if !(event.kind == expected) {
            return Err(DecodingError::MismatchedResourceName { expected, actual: event.kind });
        }
        let mut failure: Option<(usize, DecodingError)> = None;
        let packet_data = match scan_field::<Vec<u8>>(
            &event.attributes,
            PacketDataAttribute::ATTRIBUTE_KEY,
            PacketDataAttribute::FRIENDLY_NAME,
        ) {
            FieldScan::Found(v) => Some(v),
            FieldScan::Missing => None,
            FieldScan::Failed { at, error } => {
                failure = earlier_failure(failure, at, error);
                None
            },
        };
        let timeout_height_on_b = match scan_field::<TimeoutHeight>(
            &event.attributes,
            TimeoutHeightAttribute::ATTRIBUTE_KEY,
            TimeoutHeightAttribute::FRIENDLY_NAME,
        ) {
            FieldScan::Found(v) => Some(v),
            FieldScan::Missing => None,
            FieldScan::Failed { at, error } => {
                failure = earlier_failure(failure, at, error);
                None
            },
        };
        let timeout_timestamp_on_b = match scan_field::<TimeoutTimestamp>(
            &event.attributes,
            TimeoutTimestampAttribute::ATTRIBUTE_KEY,
            TimeoutTimestampAttribute::FRIENDLY_NAME,
        ) {
            FieldScan::Found(v) => Some(v),
            FieldScan::Missing => None,
            FieldScan::Failed { at, error } => {
                failure = earlier_failure(failure, at, error);
                None
            },
        };
        let seq_on_a = match scan_field::<Sequence>(
            &event.attributes,
            SequenceAttribute::ATTRIBUTE_KEY,
            SequenceAttribute::FRIENDLY_NAME,
        ) {
            FieldScan::Found(v) => Some(v),
            FieldScan::Missing => None,
            FieldScan::Failed { at, error } => {
                failure = earlier_failure(failure, at, error);
                None
            },
        };
        let port_id_on_a = match scan_field::<PortId>(
            &event.attributes,
            SrcPortIdAttribute::ATTRIBUTE_KEY,
            SrcPortIdAttribute::FRIENDLY_NAME,
        ) {
            FieldScan::Found(v) => Some(v),
            FieldScan::Missing => None,
            FieldScan::Failed { at, error } => {
                failure = earlier_failure(failure, at, error);
                None
            },
        };
        let chan_id_on_a = match scan_field::<ChannelId>(
            &event.attributes,
            SrcChannelIdAttribute::ATTRIBUTE_KEY,
            SrcChannelIdAttribute::FRIENDLY_NAME,
        ) {
            FieldScan::Found(v) => Some(v),
            FieldScan::Missing => None,
            FieldScan::Failed { at, error } => {
                failure = earlier_failure(failure, at, error);
                None
            },
        };
        let port_id_on_b = match scan_field::<PortId>(
            &event.attributes,
            DstPortIdAttribute::ATTRIBUTE_KEY,
            DstPortIdAttribute::FRIENDLY_NAME,
        ) {
            FieldScan::Found(v) => Some(v),
            FieldScan::Missing => None,
            FieldScan::Failed { at, error } => {
                failure = earlier_failure(failure, at, error);
                None
            },
        };
        let chan_id_on_b = match scan_field::<ChannelId>(
            &event.attributes,
            DstChannelIdAttribute::ATTRIBUTE_KEY,
            DstChannelIdAttribute::FRIENDLY_NAME,
        ) {
            FieldScan::Found(v) => Some(v),
            FieldScan::Missing => None,
            FieldScan::Failed { at, error } => {
                failure = earlier_failure(failure, at, error);
                None
            },
        };
        let ordering = match scan_field::<Order>(
            &event.attributes,
            ChannelOrderingAttribute::ATTRIBUTE_KEY,
            ChannelOrderingAttribute::FRIENDLY_NAME,
        ) {
            FieldScan::Found(v) => Some(v),
            FieldScan::Missing => None,
            FieldScan::Failed { at, error } => {
                failure = earlier_failure(failure, at, error);
                None
            },
        };
        let conn_id_on_b = match scan_field::<ConnectionId>(
            &event.attributes,
            PacketConnectionIdAttribute::ATTRIBUTE_KEY,
            PacketConnectionIdAttribute::FRIENDLY_NAME,
        ) {
            FieldScan::Found(v) => Some(v),
            FieldScan::Missing => None,
            FieldScan::Failed { at, error } => {
                failure = earlier_failure(failure, at, error);
                None
            },
        };
        if let Some((_, error)) = failure {
            return Err(error);
        }
        let packet_data = match packet_data {
            Some(v) => PacketDataAttribute(v),
            None => {
                return Err(missing_attribute(PacketDataAttribute::FRIENDLY_NAME));
            },
        };
        let timeout_height_on_b = match timeout_height_on_b {
            Some(v) => TimeoutHeightAttribute(v),
            None => {
                return Err(missing_attribute(TimeoutHeightAttribute::FRIENDLY_NAME));
            },
        };
        let timeout_timestamp_on_b = match timeout_timestamp_on_b {
            Some(v) => TimeoutTimestampAttribute(v),
            None => {
                return Err(missing_attribute(TimeoutTimestampAttribute::FRIENDLY_NAME));
            },
        };
        let seq_on_a = match seq_on_a {
            Some(v) => SequenceAttribute(v),
            None => {
                return Err(missing_attribute(SequenceAttribute::FRIENDLY_NAME));
            },
        };
        let port_id_on_a = match port_id_on_a {
            Some(v) => SrcPortIdAttribute(v),
            None => {
                return Err(missing_attribute(SrcPortIdAttribute::FRIENDLY_NAME));
            },
        };
        let chan_id_on_a = match chan_id_on_a {
            Some(v) => SrcChannelIdAttribute(v),
            None => {
                return Err(missing_attribute(SrcChannelIdAttribute::FRIENDLY_NAME));
            },
        };
        let port_id_on_b = match port_id_on_b {
            Some(v) => DstPortIdAttribute(v),
            None => {
                return Err(missing_attribute(DstPortIdAttribute::FRIENDLY_NAME));
            },
        };
        let chan_id_on_b = match chan_id_on_b {
            Some(v) => DstChannelIdAttribute(v),
            None => {
                return Err(missing_attribute(DstChannelIdAttribute::FRIENDLY_NAME));
            },
        };
        let ordering = match ordering {
            Some(v) => ChannelOrderingAttribute(v),
            None => {
                return Err(missing_attribute(ChannelOrderingAttribute::FRIENDLY_NAME));
            },
        };
        let conn_id_on_b = match conn_id_on_b {
            Some(v) => PacketConnectionIdAttribute(v),
            None => {
                return Err(missing_attribute(PacketConnectionIdAttribute::FRIENDLY_NAME));
            },
        };
        let r = ReceivePacket { packet_data, timeout_height_on_b, timeout_timestamp_on_b, seq_on_a, port_id_on_a, chan_id_on_a, port_id_on_b, chan_id_on_b, ordering, conn_id_on_b };
        proof {
            assert forall|x: ReceivePacket| #[trigger] x.abci_view() == event@ && x.fields_read_back()
                implies r.abci_view() == x.abci_view() by {
                assert(r.abci_view().1 =~= x.abci_view().1);
            }
            assert forall|x: ReceivePacket|
                #[trigger] x.abci_view() == event@ && x.fields_read_back() && x.fields_canonical()
                implies r.same_values(x) by {
                <Vec<u8> as AttributeValue>::lemma_spelling_injective(r.packet_data@, x.packet_data@);
                <TimeoutHeight as AttributeValue>::lemma_spelling_injective(r.timeout_height_on_b@, x.timeout_height_on_b@);
                <TimeoutTimestamp as AttributeValue>::lemma_spelling_injective(r.timeout_timestamp_on_b@, x.timeout_timestamp_on_b@);
                <Sequence as AttributeValue>::lemma_spelling_injective(r.seq_on_a@, x.seq_on_a@);
                <PortId as AttributeValue>::lemma_spelling_injective(r.port_id_on_a@, x.port_id_on_a@);
                <ChannelId as AttributeValue>::lemma_spelling_injective(r.chan_id_on_a@, x.chan_id_on_a@);
                <PortId as AttributeValue>::lemma_spelling_injective(r.port_id_on_b@, x.port_id_on_b@);
                <ChannelId as AttributeValue>::lemma_spelling_injective(r.chan_id_on_b@, x.chan_id_on_b@);
                <Order as AttributeValue>::lemma_spelling_injective(r.ordering@, x.ordering@);
                <ConnectionId as AttributeValue>::lemma_spelling_injective(r.conn_id_on_b@, x.conn_id_on_b@);
            }
        }
        Ok(r)
    }
}

impl vstd::std_specs::convert::TryFromSpecImpl<Event> for ReceivePacket {
    open spec fn obeys_try_from_spec() -> bool {
        false
    }

    open spec fn try_from_spec(v: Event) -> Result<ReceivePacket, DecodingError> {
        arbitrary()
    }
}

/// Reads the event from its kind and its attributes given as key-value
/// pairs, as `try_from` reads the ABCI event with those attributes.
impl TryFrom<(String, Vec<(String, String)>)> for ReceivePacket {
    type Error = DecodingError;

    fn try_from(parts: (String, Vec<(String, String)>)) -> (r: Result<ReceivePacket, DecodingError>)
        ensures
            parts.0@ != ReceivePacket::EVENT_KIND@ ==> (r matches Err(
                DecodingError::MismatchedResourceName { expected, actual },
            ) && expected@ == ReceivePacket::EVENT_KIND@ && actual@ == parts.0@),
            r is Ok <==> parts.0@ == ReceivePacket::EVENT_KIND@
                && field_readable::<Vec<u8>>(pairs_view(parts.1@), PacketDataAttribute::ATTRIBUTE_KEY@)
                && field_readable::<TimeoutHeight>(pairs_view(parts.1@), TimeoutHeightAttribute::ATTRIBUTE_KEY@)
                && field_readable::<TimeoutTimestamp>(pairs_view(parts.1@), TimeoutTimestampAttribute::ATTRIBUTE_KEY@)
                && field_readable::<Sequence>(pairs_view(parts.1@), SequenceAttribute::ATTRIBUTE_KEY@)
                && field_readable::<PortId>(pairs_view(parts.1@), SrcPortIdAttribute::ATTRIBUTE_KEY@)
                && field_readable::<ChannelId>(pairs_view(parts.1@), SrcChannelIdAttribute::ATTRIBUTE_KEY@)
                && field_readable::<PortId>(pairs_view(parts.1@), DstPortIdAttribute::ATTRIBUTE_KEY@)
                && field_readable::<ChannelId>(pairs_view(parts.1@), DstChannelIdAttribute::ATTRIBUTE_KEY@)
                && field_readable::<Order>(pairs_view(parts.1@), ChannelOrderingAttribute::ATTRIBUTE_KEY@)
                && field_readable::<ConnectionId>(pairs_view(parts.1@), PacketConnectionIdAttribute::ATTRIBUTE_KEY@),
            r matches Ok(e) ==> {
                &&& e.packet_data@.event_value() == <Vec<u8> as AttributeValue>::normal_form(
                    first_value(pairs_view(parts.1@), PacketDataAttribute::ATTRIBUTE_KEY@),
                )
                &&& e.timeout_height_on_b@.event_value() == <TimeoutHeight as AttributeValue>::normal_form(
                    first_value(pairs_view(parts.1@), TimeoutHeightAttribute::ATTRIBUTE_KEY@),
                )
                &&& e.timeout_timestamp_on_b@.event_value() == <TimeoutTimestamp as AttributeValue>::normal_form(
                    first_value(pairs_view(parts.1@), TimeoutTimestampAttribute::ATTRIBUTE_KEY@),
                )
                &&& e.seq_on_a@.event_value() == <Sequence as AttributeValue>::normal_form(
                    first_value(pairs_view(parts.1@), SequenceAttribute::ATTRIBUTE_KEY@),
                )
                &&& e.port_id_on_a@.event_value() == <PortId as AttributeValue>::normal_form(
                    first_value(pairs_view(parts.1@), SrcPortIdAttribute::ATTRIBUTE_KEY@),
                )
                &&& e.chan_id_on_a@.event_value() == <ChannelId as AttributeValue>::normal_form(
                    first_value(pairs_view(parts.1@), SrcChannelIdAttribute::ATTRIBUTE_KEY@),
                )
                &&& e.port_id_on_b@.event_value() == <PortId as AttributeValue>::normal_form(
                    first_value(pairs_view(parts.1@), DstPortIdAttribute::ATTRIBUTE_KEY@),
                )
                &&& e.chan_id_on_b@.event_value() == <ChannelId as AttributeValue>::normal_form(
                    first_value(pairs_view(parts.1@), DstChannelIdAttribute::ATTRIBUTE_KEY@),
                )
                &&& e.ordering@.event_value() == <Order as AttributeValue>::normal_form(
                    first_value(pairs_view(parts.1@), ChannelOrderingAttribute::ATTRIBUTE_KEY@),
                )
                &&& e.conn_id_on_b@.event_value() == <ConnectionId as AttributeValue>::normal_form(
                    first_value(pairs_view(parts.1@), PacketConnectionIdAttribute::ATTRIBUTE_KEY@),
                )
            },
            parts.0@ == ReceivePacket::EVENT_KIND@ ==> (r matches Err(e) ==> (e is MissingRawData <==> !(
                field_wrong::<Vec<u8>>(pairs_view(parts.1@), PacketDataAttribute::ATTRIBUTE_KEY@)
                || field_wrong::<TimeoutHeight>(pairs_view(parts.1@), TimeoutHeightAttribute::ATTRIBUTE_KEY@)
                || field_wrong::<TimeoutTimestamp>(pairs_view(parts.1@), TimeoutTimestampAttribute::ATTRIBUTE_KEY@)
                || field_wrong::<Sequence>(pairs_view(parts.1@), SequenceAttribute::ATTRIBUTE_KEY@)
                || field_wrong::<PortId>(pairs_view(parts.1@), SrcPortIdAttribute::ATTRIBUTE_KEY@)
                || field_wrong::<ChannelId>(pairs_view(parts.1@), SrcChannelIdAttribute::ATTRIBUTE_KEY@)
                || field_wrong::<PortId>(pairs_view(parts.1@), DstPortIdAttribute::ATTRIBUTE_KEY@)
                || field_wrong::<ChannelId>(pairs_view(parts.1@), DstChannelIdAttribute::ATTRIBUTE_KEY@)
                || field_wrong::<Order>(pairs_view(parts.1@), ChannelOrderingAttribute::ATTRIBUTE_KEY@)
                || field_wrong::<ConnectionId>(pairs_view(parts.1@), PacketConnectionIdAttribute::ATTRIBUTE_KEY@)))),
            forall|x: ReceivePacket|
                #[trigger] x.abci_view() == (parts.0@, pairs_view(parts.1@)) && x.fields_read_back() ==> (r matches Ok(y)
                    && y.abci_view() == x.abci_view()),
            forall|x: ReceivePacket|
                #[trigger] x.abci_view() == (parts.0@, pairs_view(parts.1@)) && x.fields_read_back() && x.fields_canonical()
                    ==> (r matches Ok(y) && y.same_values(x)),
    {
        let (kind, pairs) = parts;
        <ReceivePacket as TryFrom<Event>>::try_from(Event::from_pairs(kind, pairs))
    }
}

impl vstd::std_specs::convert::TryFromSpecImpl<(String, Vec<(String, String)>)> for ReceivePacket {
    open spec fn obeys_try_from_spec() -> bool {
        false
    }

    open spec fn try_from_spec(v: (String, Vec<(String, String)>)) -> Result<ReceivePacket, DecodingError> {
        arbitrary()
    }
}

/// The `write_acknowledgement` event: an acknowledgement was written for a received packet.
#[derive(Clone, Debug, PartialEq, Eq)]
pub struct WriteAcknowledgement {
    pub packet_data: PacketDataAttribute,
    pub timeout_height_on_b: TimeoutHeightAttribute,
    pub timeout_timestamp_on_b: TimeoutTimestampAttribute,
    pub seq_on_a: SequenceAttribute,
    pub port_id_on_a: SrcPortIdAttribute,
    pub chan_id_on_a: SrcChannelIdAttribute,
    pub port_id_on_b: DstPortIdAttribute,
    pub chan_id_on_b: DstChannelIdAttribute,
    pub acknowledgement: AcknowledgementAttribute,
    pub conn_id_on_b: PacketConnectionIdAttribute,
}

impl WriteAcknowledgement {
    /// The kind of this event in ABCI.
    pub const EVENT_KIND: &'static str = "write_acknowledgement";

    /// The event with the given attribute values.
    pub fn new(packet_data: Vec<u8>, timeout_height_on_b: TimeoutHeight, timeout_timestamp_on_b: TimeoutTimestamp, seq_on_a: Sequence, port_id_on_a: PortId, chan_id_on_a: ChannelId, port_id_on_b: PortId, chan_id_on_b: ChannelId, acknowledgement: Acknowledgement, conn_id_on_b: ConnectionId) -> (r: WriteAcknowledgement)
        ensures
            r.packet_data@ == packet_data,
            r.timeout_height_on_b@ == timeout_height_on_b,
            r.timeout_timestamp_on_b@ == timeout_timestamp_on_b,
            r.seq_on_a@ == seq_on_a,
            r.port_id_on_a@ == port_id_on_a,
            r.chan_id_on_a@ == chan_id_on_a,
            r.port_id_on_b@ == port_id_on_b,
            r.chan_id_on_b@ == chan_id_on_b,
            r.acknowledgement@ == acknowledgement,
            r.conn_id_on_b@ == conn_id_on_b,
    {
        WriteAcknowledgement { packet_data: PacketDataAttribute::new(packet_data), timeout_height_on_b: TimeoutHeightAttribute::new(timeout_height_on_b), timeout_timestamp_on_b: TimeoutTimestampAttribute::new(timeout_timestamp_on_b), seq_on_a: SequenceAttribute::new(seq_on_a), port_id_on_a: SrcPortIdAttribute::new(port_id_on_a), chan_id_on_a: SrcChannelIdAttribute::new(chan_id_on_a), port_id_on_b: DstPortIdAttribute::new(port_id_on_b), chan_id_on_b: DstChannelIdAttribute::new(chan_id_on_b), acknowledgement: AcknowledgementAttribute::new(acknowledgement), conn_id_on_b: PacketConnectionIdAttribute::new(conn_id_on_b) }
    }

    /// The value of the `packet_data` attribute.
    pub fn packet_data(&self) -> (r: &Vec<u8>)
        ensures
            *r == self.packet_data@,
    {
        self.packet_data.value()
    }

    /// The value of the `timeout_height_on_b` attribute.
    pub fn timeout_height_on_b(&self) -> (r: &TimeoutHeight)
        ensures
            *r == self.timeout_height_on_b@,
    {
        self.timeout_height_on_b.value()
    }

    /// The value of the `timeout_timestamp_on_b` attribute.
    pub fn timeout_timestamp_on_b(&self) -> (r: &TimeoutTimestamp)
        ensures
            *r == self.timeout_timestamp_on_b@,
    {
        self.timeout_timestamp_on_b.value()
    }

    /// The value of the `seq_on_a` attribute.
    pub fn seq_on_a(&self) -> (r: &Sequence)
        ensures
            *r == self.seq_on_a@,
    {
        self.seq_on_a.value()
    }

    /// The value of the `port_id_on_a` attribute.
    pub fn port_id_on_a(&self) -> (r: &PortId)
        ensures
            *r == self.port_id_on_a@,
    {
        self.port_id_on_a.value()
    }

    /// The value of the `chan_id_on_a` attribute.
    pub fn chan_id_on_a(&self) -> (r: &ChannelId)
        ensures
            *r == self.chan_id_on_a@,
    {
        self.chan_id_on_a.value()
    }

    /// The value of the `port_id_on_b` attribute.
    pub fn port_id_on_b(&self) -> (r: &PortId)
        ensures
            *r == self.port_id_on_b@,
    {
        self.port_id_on_b.value()
    }

    /// The value of the `chan_id_on_b` attribute.
    pub fn chan_id_on_b(&self) -> (r: &ChannelId)
        ensures
            *r == self.chan_id_on_b@,
    {
        self.chan_id_on_b.value()
    }

    /// The value of the `acknowledgement` attribute.
    pub fn acknowledgement(&self) -> (r: &Acknowledgement)
        ensures
            *r == self.acknowledgement@,
    {
        self.acknowledgement.value()
    }

    /// The value of the `conn_id_on_b` attribute.
    pub fn conn_id_on_b(&self) -> (r: &ConnectionId)
        ensures
            *r == self.conn_id_on_b@,
    {
        self.conn_id_on_b.value()
    }

    /// The ABCI event that this event becomes: its kind, and its
    /// attributes in the order of the fields.
    pub open spec fn abci_view(self) -> (Seq<char>, Seq<(Seq<char>, Seq<char>, bool)>) {
        (Self::EVENT_KIND@, seq![self.packet_data.attribute_view(), self.timeout_height_on_b.attribute_view(), self.timeout_timestamp_on_b.attribute_view(), self.seq_on_a.attribute_view(), self.port_id_on_a.attribute_view(), self.chan_id_on_a.attribute_view(), self.port_id_on_b.attribute_view(), self.chan_id_on_b.attribute_view(), self.acknowledgement.attribute_view(), self.conn_id_on_b.attribute_view()])
    }
}

/// The event as an ABCI event: its kind and its attributes in the order of
/// the fields. A spec function cannot build the strings of an `Event`, so
/// `from` states its result in its own `ensures`.
impl From<WriteAcknowledgement> for Event {
    fn from(event: WriteAcknowledgement) -> (r: Event)
        ensures
            r@ == event.abci_view(),
    {
        let ghost view = event.abci_view();
        let attributes = vec![
            EventAttribute::from(event.packet_data),
            EventAttribute::from(event.timeout_height_on_b),
            EventAttribute::from(event.timeout_timestamp_on_b),
            EventAttribute::from(event.seq_on_a),
            EventAttribute::from(event.port_id_on_a),
            EventAttribute::from(event.chan_id_on_a),
            EventAttribute::from(event.port_id_on_b),
            EventAttribute::from(event.chan_id_on_b),
            EventAttribute::from(event.acknowledgement),
            EventAttribute::from(event.conn_id_on_b),
        ];
        let r = Event { kind: String::from_str(WriteAcknowledgement::EVENT_KIND), attributes };
        assert(attributes_view(r.attributes@) =~= view.1);
        r
    }
}

impl vstd::std_specs::convert::FromSpecImpl<WriteAcknowledgement> for Event {
    open spec fn obeys_from_spec() -> bool {
        false
    }

    open spec fn from_spec(v: WriteAcknowledgement) -> Event {
        arbitrary()
    }
}

impl WriteAcknowledgement {
    /// Whether the spelling of every attribute value reads back as itself.
    pub open spec fn fields_read_back(self) -> bool {
        &&& reads_back(self.packet_data@)
        &&& reads_back(self.timeout_height_on_b@)
        &&& reads_back(self.timeout_timestamp_on_b@)
        &&& reads_back(self.seq_on_a@)
        &&& reads_back(self.port_id_on_a@)
        &&& reads_back(self.chan_id_on_a@)
        &&& reads_back(self.port_id_on_b@)
        &&& reads_back(self.chan_id_on_b@)
        &&& reads_back(self.acknowledgement@)
        &&& reads_back(self.conn_id_on_b@)
    }

    /// Whether every attribute value is the one its spelling is read as.
    pub open spec fn fields_canonical(self) -> bool {
        &&& self.packet_data@.canonical()
        &&& self.timeout_height_on_b@.canonical()
        &&& self.timeout_timestamp_on_b@.canonical()
        &&& self.seq_on_a@.canonical()
        &&& self.port_id_on_a@.canonical()
        &&& self.chan_id_on_a@.canonical()
        &&& self.port_id_on_b@.canonical()
        &&& self.chan_id_on_b@.canonical()
        &&& self.acknowledgement@.canonical()
        &&& self.conn_id_on_b@.canonical()
    }

    /// Whether the two events hold the same values, attribute by
    /// attribute.
    pub open spec fn same_values(self, other: WriteAcknowledgement) -> bool {
        &&& self.packet_data@.same_value(other.packet_data@)
        &&& self.timeout_height_on_b@.same_value(other.timeout_height_on_b@)
        &&& self.timeout_timestamp_on_b@.same_value(other.timeout_timestamp_on_b@)
        &&& self.seq_on_a@.same_value(other.seq_on_a@)
        &&& self.port_id_on_a@.same_value(other.port_id_on_a@)
        &&& self.chan_id_on_a@.same_value(other.chan_id_on_a@)
        &&& self.port_id_on_b@.same_value(other.port_id_on_b@)
        &&& self.chan_id_on_b@.same_value(other.chan_id_on_b@)
        &&& self.acknowledgement@.same_value(other.acknowledgement@)
        &&& self.conn_id_on_b@.same_value(other.conn_id_on_b@)
    }
}

/// Reads the event back from its ABCI form. The kind must be this event's;
/// each attribute of the event must occur once and hold a value of its
/// type, and attributes with other keys are passed over. Where several
/// attributes are wrong, the error is that of the first wrong attribute
/// in the list, and where none is wrong but some are missing, that of the
/// first missing one in the order of the fields.
impl TryFrom<Event> for WriteAcknowledgement {
    type Error = DecodingError;

    fn try_from(event: Event) -> (r: Result<WriteAcknowledgement, DecodingError>)
        ensures
            event@.0 != WriteAcknowledgement::EVENT_KIND@ ==> (r matches Err(
                DecodingError::MismatchedResourceName { expected, actual },
            ) && expected@ == WriteAcknowledgement::EVENT_KIND@ && actual@ == event@.0),
            r is Ok <==> event@.0 == WriteAcknowledgement::EVENT_KIND@
                && field_readable::<Vec<u8>>(event@.1, PacketDataAttribute::ATTRIBUTE_KEY@)
                && field_readable::<TimeoutHeight>(event@.1, TimeoutHeightAttribute::ATTRIBUTE_KEY@)
                && field_readable::<TimeoutTimestamp>(event@.1, TimeoutTimestampAttribute::ATTRIBUTE_KEY@)
                && field_readable::<Sequence>(event@.1, SequenceAttribute::ATTRIBUTE_KEY@)
                && field_readable::<PortId>(event@.1, SrcPortIdAttribute::ATTRIBUTE_KEY@)
                && field_readable::<ChannelId>(event@.1, SrcChannelIdAttribute::ATTRIBUTE_KEY@)
                && field_readable::<PortId>(event@.1, DstPortIdAttribute::ATTRIBUTE_KEY@)
                && field_readable::<ChannelId>(event@.1, DstChannelIdAttribute::ATTRIBUTE_KEY@)
                && field_readable::<Acknowledgement>(event@.1, AcknowledgementAttribute::ATTRIBUTE_KEY@)
                && field_readable::<ConnectionId>(event@.1, PacketConnectionIdAttribute::ATTRIBUTE_KEY@),
            r matches Ok(e) ==> {
                &&& e.packet_data@.event_value() == <Vec<u8> as AttributeValue>::normal_form(
                    first_value(event@.1, PacketDataAttribute::ATTRIBUTE_KEY@),
                )
                &&& e.timeout_height_on_b@.event_value() == <TimeoutHeight as AttributeValue>::normal_form(
                    first_value(event@.1, TimeoutHeightAttribute::ATTRIBUTE_KEY@),
                )
                &&& e.timeout_timestamp_on_b@.event_value() == <TimeoutTimestamp as AttributeValue>::normal_form(
                    first_value(event@.1, TimeoutTimestampAttribute::ATTRIBUTE_KEY@),
                )
                &&& e.seq_on_a@.event_value() == <Sequence as AttributeValue>::normal_form(
                    first_value(event@.1, SequenceAttribute::ATTRIBUTE_KEY@),
                )
                &&& e.port_id_on_a@.event_value() == <PortId as AttributeValue>::normal_form(
                    first_value(event@.1, SrcPortIdAttribute::ATTRIBUTE_KEY@),
                )
                &&& e.chan_id_on_a@.event_value() == <ChannelId as AttributeValue>::normal_form(
                    first_value(event@.1, SrcChannelIdAttribute::ATTRIBUTE_KEY@),
                )
                &&& e.port_id_on_b@.event_value() == <PortId as AttributeValue>::normal_form(
                    first_value(event@.1, DstPortIdAttribute::ATTRIBUTE_KEY@),
                )
                &&& e.chan_id_on_b@.event_value() == <ChannelId as AttributeValue>::normal_form(
                    first_value(event@.1, DstChannelIdAttribute::ATTRIBUTE_KEY@),
                )
                &&& e.acknowledgement@.event_value() == <Acknowledgement as AttributeValue>::normal_form(
                    first_value(event@.1, AcknowledgementAttribute::ATTRIBUTE_KEY@),
                )
                &&& e.conn_id_on_b@.event_value() == <ConnectionId as AttributeValue>::normal_form(
                    first_value(event@.1, PacketConnectionIdAttribute::ATTRIBUTE_KEY@),
                )
            },
            event@.0 == WriteAcknowledgement::EVENT_KIND@ ==> (r matches Err(e) ==> (e is MissingRawData <==> !(
                field_wrong::<Vec<u8>>(event@.1, PacketDataAttribute::ATTRIBUTE_KEY@)
                || field_wrong::<TimeoutHeight>(event@.1, TimeoutHeightAttribute::ATTRIBUTE_KEY@)
                || field_wrong::<TimeoutTimestamp>(event@.1, TimeoutTimestampAttribute::ATTRIBUTE_KEY@)
                || field_wrong::<Sequence>(event@.1, SequenceAttribute::ATTRIBUTE_KEY@)
                || field_wrong::<PortId>(event@.1, SrcPortIdAttribute::ATTRIBUTE_KEY@)
                || field_wrong::<ChannelId>(event@.1, SrcChannelIdAttribute::ATTRIBUTE_KEY@)
                || field_wrong::<PortId>(event@.1, DstPortIdAttribute::ATTRIBUTE_KEY@)
                || field_wrong::<ChannelId>(event@.1, DstChannelIdAttribute::ATTRIBUTE_KEY@)
                || field_wrong::<Acknowledgement>(event@.1, AcknowledgementAttribute::ATTRIBUTE_KEY@)
                || field_wrong::<ConnectionId>(event@.1, PacketConnectionIdAttribute::ATTRIBUTE_KEY@)))),
            forall|x: WriteAcknowledgement|
                #[trigger] x.abci_view() == event@ && x.fields_read_back() ==> (r matches Ok(y)
                    && y.abci_view() == x.abci_view()),
            forall|x: WriteAcknowledgement|
                #[trigger] x.abci_view() == event@ && x.fields_read_back() && x.fields_canonical()
                    ==> (r matches Ok(y) && y.same_values(x)),
    {
        proof {
            assert forall|x: WriteAcknowledgement| #[trigger] x.abci_view() == event@ && x.fields_read_back()
                implies {
                &&& field_readable::<Vec<u8>>(event@.1, PacketDataAttribute::ATTRIBUTE_KEY@)
                &&& first_value(event@.1, PacketDataAttribute::ATTRIBUTE_KEY@) == x.packet_data@.event_value()
                &&& field_readable::<TimeoutHeight>(event@.1, TimeoutHeightAttribute::ATTRIBUTE_KEY@)
                &&& first_value(event@.1, TimeoutHeightAttribute::ATTRIBUTE_KEY@) == x.timeout_height_on_b@.event_value()
                &&& field_readable::<TimeoutTimestamp>(event@.1, TimeoutTimestampAttribute::ATTRIBUTE_KEY@)
                &&& first_value(event@.1, TimeoutTimestampAttribute::ATTRIBUTE_KEY@) == x.timeout_timestamp_on_b@.event_value()
                &&& field_readable::<Sequence>(event@.1, SequenceAttribute::ATTRIBUTE_KEY@)
                &&& first_value(event@.1, SequenceAttribute::ATTRIBUTE_KEY@) == x.seq_on_a@.event_value()
                &&& field_readable::<PortId>(event@.1, SrcPortIdAttribute::ATTRIBUTE_KEY@)
                &&& first_value(event@.1, SrcPortIdAttribute::ATTRIBUTE_KEY@) == x.port_id_on_a@.event_value()
                &&& field_readable::<ChannelId>(event@.1, SrcChannelIdAttribute::ATTRIBUTE_KEY@)
                &&& first_value(event@.1, SrcChannelIdAttribute::ATTRIBUTE_KEY@) == x.chan_id_on_a@.event_value()
                &&& field_readable::<PortId>(event@.1, DstPortIdAttribute::ATTRIBUTE_KEY@)
                &&& first_value(event@.1, DstPortIdAttribute::ATTRIBUTE_KEY@) == x.port_id_on_b@.event_value()
                &&& field_readable::<ChannelId>(event@.1, DstChannelIdAttribute::ATTRIBUTE_KEY@)
                &&& first_value(event@.1, DstChannelIdAttribute::ATTRIBUTE_KEY@) == x.chan_id_on_b@.event_value()
                &&& field_readable::<Acknowledgement>(event@.1, AcknowledgementAttribute::ATTRIBUTE_KEY@)
                &&& first_value(event@.1, AcknowledgementAttribute::ATTRIBUTE_KEY@) == x.acknowledgement@.event_value()
                &&& field_readable::<ConnectionId>(event@.1, PacketConnectionIdAttribute::ATTRIBUTE_KEY@)
                &&& first_value(event@.1, PacketConnectionIdAttribute::ATTRIBUTE_KEY@) == x.conn_id_on_b@.event_value()
            } by {
                let s = x.abci_view().1;
                reveal_strlit("connection_id");
                reveal_strlit("packet_ack_hex");
                reveal_strlit("packet_data_hex");
                reveal_strlit("packet_dst_channel");
                reveal_strlit("packet_dst_port");
                reveal_strlit("packet_sequence");
                reveal_strlit("packet_src_channel");
                reveal_strlit("packet_src_port");
                reveal_strlit("packet_timeout_height");
                reveal_strlit("packet_timeout_timestamp");
                assert("packet_data_hex"@[8] != "packet_dst_port"@[8]);
                assert("packet_data_hex"@[7] != "packet_sequence"@[7]);
                assert("packet_data_hex"@[7] != "packet_src_port"@[7]);
                assert("packet_dst_channel"@[7] != "packet_src_channel"@[7]);
                assert("packet_dst_port"@[7] != "packet_sequence"@[7]);
                assert("packet_dst_port"@[7] != "packet_src_port"@[7]);
                assert("packet_sequence"@[8] != "packet_src_port"@[8]);
                assert(s.take(10) =~= s);
                assert(s.take(10).drop_last() =~= s.take(9));
                assert(s.take(9).drop_last() =~= s.take(8));
                assert(s.take(8).drop_last() =~= s.take(7));
                assert(s.take(7).drop_last() =~= s.take(6));
                assert(s.take(6).drop_last() =~= s.take(5));
                assert(s.take(5).drop_last() =~= s.take(4));
                assert(s.take(4).drop_last() =~= s.take(3));
                assert(s.take(3).drop_last() =~= s.take(2));
                assert(s.take(2).drop_last() =~= s.take(1));
                assert(s.take(1).drop_last() =~= s.take(0));
                reveal_with_fuel(keys_distinct, 11);
                reveal_with_fuel(key_absent, 11);
                assert(s[0].0 == PacketDataAttribute::ATTRIBUTE_KEY@ && s[0].0.len() == 15);
                assert(s[1].0 == TimeoutHeightAttribute::ATTRIBUTE_KEY@ && s[1].0.len() == 21);
                assert(s[2].0 == TimeoutTimestampAttribute::ATTRIBUTE_KEY@ && s[2].0.len() == 24);
                assert(s[3].0 == SequenceAttribute::ATTRIBUTE_KEY@ && s[3].0.len() == 15);
                assert(s[4].0 == SrcPortIdAttribute::ATTRIBUTE_KEY@ && s[4].0.len() == 15);
                assert(s[5].0 == SrcChannelIdAttribute::ATTRIBUTE_KEY@ && s[5].0.len() == 18);
                assert(s[6].0 == DstPortIdAttribute::ATTRIBUTE_KEY@ && s[6].0.len() == 15);
                assert(s[7].0 == DstChannelIdAttribute::ATTRIBUTE_KEY@ && s[7].0.len() == 18);
                assert(s[8].0 == AcknowledgementAttribute::ATTRIBUTE_KEY@ && s[8].0.len() == 14);
                assert(s[9].0 == PacketConnectionIdAttribute::ATTRIBUTE_KEY@ && s[9].0.len() == 13);
                assert(s.take(1).last() == s[0]);
                assert(key_absent(s.take(0), s[0].0));
                assert(keys_distinct(s.take(1)));
                assert(s.take(2).last() == s[1]);
                assert(key_absent(s.take(1), s[1].0));
                assert(keys_distinct(s.take(2)));
                assert(s.take(3).last() == s[2]);
                assert(key_absent(s.take(2), s[2].0));
                assert(keys_distinct(s.take(3)));
                assert(s.take(4).last() == s[3]);
                assert(key_absent(s.take(3), s[3].0));
                assert(keys_distinct(s.take(4)));
                assert(s.take(5).last() == s[4]);
                assert(key_absent(s.take(4), s[4].0));
                assert(keys_distinct(s.take(5)));
                assert(s.take(6).last() == s[5]);
                assert(key_absent(s.take(5), s[5].0));
                assert(keys_distinct(s.take(6)));
                assert(s.take(7).last() == s[6]);
                assert(key_absent(s.take(6), s[6].0));
                assert(keys_distinct(s.take(7)));
                assert(s.take(8).last() == s[7]);
                assert(key_absent(s.take(7), s[7].0));
                assert(keys_distinct(s.take(8)));
                assert(s.take(9).last() == s[8]);
                assert(key_absent(s.take(8), s[8].0));
                assert(keys_distinct(s.take(9)));
                assert(s.take(10).last() == s[9]);
                assert(key_absent(s.take(9), s[9].0));
                assert(keys_distinct(s.take(10)));
                lemma_distinct_keys(s, 0);
                lemma_distinct_keys(s, 1);
                lemma_distinct_keys(s, 2);
                lemma_distinct_keys(s, 3);
                lemma_distinct_keys(s, 4);
                lemma_distinct_keys(s, 5);
                lemma_distinct_keys(s, 6);
                lemma_distinct_keys(s, 7);
                lemma_distinct_keys(s, 8);
                lemma_distinct_keys(s, 9);
                assert(s[0].0 == PacketDataAttribute::ATTRIBUTE_KEY@ && s[0].1 == x.packet_data@.event_value());
                assert(s[1].0 == TimeoutHeightAttribute::ATTRIBUTE_KEY@ && s[1].1 == x.timeout_height_on_b@.event_value());
                assert(s[2].0 == TimeoutTimestampAttribute::ATTRIBUTE_KEY@ && s[2].1 == x.timeout_timestamp_on_b@.event_value());
                assert(s[3].0 == SequenceAttribute::ATTRIBUTE_KEY@ && s[3].1 == x.seq_on_a@.event_value());
                assert(s[4].0 == SrcPortIdAttribute::ATTRIBUTE_KEY@ && s[4].1 == x.port_id_on_a@.event_value());
                assert(s[5].0 == SrcChannelIdAttribute::ATTRIBUTE_KEY@ && s[5].1 == x.chan_id_on_a@.event_value());
                assert(s[6].0 == DstPortIdAttribute::ATTRIBUTE_KEY@ && s[6].1 == x.port_id_on_b@.event_value());
                assert(s[7].0 == DstChannelIdAttribute::ATTRIBUTE_KEY@ && s[7].1 == x.chan_id_on_b@.event_value());
                assert(s[8].0 == AcknowledgementAttribute::ATTRIBUTE_KEY@ && s[8].1 == x.acknowledgement@.event_value());
                assert(s[9].0 == PacketConnectionIdAttribute::ATTRIBUTE_KEY@ && s[9].1 == x.conn_id_on_b@.event_value());
            }
        }
        let expected = String::from_str(WriteAcknowledgement::EVENT_KIND);
        if !(event.kind == expected) {
            return Err(DecodingError::MismatchedResourceName { expected, actual: event.kind });
        }
        let mut failure: Option<(usize, DecodingError)> = None;
        let packet_data = match scan_field::<Vec<u8>>(
            &event.attributes,
            PacketDataAttribute::ATTRIBUTE_KEY,
            PacketDataAttribute::FRIENDLY_NAME,
        ) {
            FieldScan::Found(v) => Some(v),
            FieldScan::Missing => None,
            FieldScan::Failed { at, error } => {
                failure = earlier_failure(failure, at, error);
                None
            },
        };
        let timeout_height_on_b = match scan_field::<TimeoutHeight>(
            &event.attributes,
            TimeoutHeightAttribute::ATTRIBUTE_KEY,
            TimeoutHeightAttribute::FRIENDLY_NAME,
        ) {
            FieldScan::Found(v) => Some(v),
            FieldScan::Missing => None,
            FieldScan::Failed { at, error } => {
                failure = earlier_failure(failure, at, error);
                None
            },
        };
        let timeout_timestamp_on_b = match scan_field::<TimeoutTimestamp>(
            &event.attributes,
            TimeoutTimestampAttribute::ATTRIBUTE_KEY,
            TimeoutTimestampAttribute::FRIENDLY_NAME,
        ) {
            FieldScan::Found(v) => Some(v),
            FieldScan::Missing => None,
            FieldScan::Failed { at, error } => {
                failure = earlier_failure(failure, at, error);
                None
            },
        };
        let seq_on_a = match scan_field::<Sequence>(
            &event.attributes,
            SequenceAttribute::ATTRIBUTE_KEY,
            SequenceAttribute::FRIENDLY_NAME,
        ) {
            FieldScan::Found(v) => Some(v),
            FieldScan::Missing => None,
            FieldScan::Failed { at, error } => {
                failure = earlier_failure(failure, at, error);
                None
            },
        };
        let port_id_on_a = match scan_field::<PortId>(
            &event.attributes,
            SrcPortIdAttribute::ATTRIBUTE_KEY,
            SrcPortIdAttribute::FRIENDLY_NAME,
        ) {
            FieldScan::Found(v) => Some(v),
            FieldScan::Missing => None,
            FieldScan::Failed { at, error } => {
                failure = earlier_failure(failure, at, error);
                None
            },
        };
        let chan_id_on_a = match scan_field::<ChannelId>(
            &event.attributes,
            SrcChannelIdAttribute::ATTRIBUTE_KEY,
            SrcChannelIdAttribute::FRIENDLY_NAME,
        ) {
            FieldScan::Found(v) => Some(v),
            FieldScan::Missing => None,
            FieldScan::Failed { at, error } => {
                failure = earlier_failure(failure, at, error);
                None
            },
        };
        let port_id_on_b = match scan_field::<PortId>(
            &event.attributes,
            DstPortIdAttribute::ATTRIBUTE_KEY,
            DstPortIdAttribute::FRIENDLY_NAME,
        ) {
            FieldScan::Found(v) => Some(v),
            FieldScan::Missing => None,
            FieldScan::Failed { at, error } => {
                failure = earlier_failure(failure, at, error);
                None
            },
        };
        let chan_id_on_b = match scan_field::<ChannelId>(
            &event.attributes,
            DstChannelIdAttribute::ATTRIBUTE_KEY,
            DstChannelIdAttribute::FRIENDLY_NAME,
        ) {
            FieldScan::Found(v) => Some(v),
            FieldScan::Missing => None,
            FieldScan::Failed { at, error } => {
                failure = earlier_failure(failure, at, error);
                None
            },
        };
        let acknowledgement = match scan_field::<Acknowledgement>(
            &event.attributes,
            AcknowledgementAttribute::ATTRIBUTE_KEY,
            AcknowledgementAttribute::FRIENDLY_NAME,
        ) {
            FieldScan::Found(v) => Some(v),
            FieldScan::Missing => None,
            FieldScan::Failed { at, error } => {
                failure = earlier_failure(failure, at, error);
                None
            },
        };
        let conn_id_on_b = match scan_field::<ConnectionId>(
            &event.attributes,
            PacketConnectionIdAttribute::ATTRIBUTE_KEY,
            PacketConnectionIdAttribute::FRIENDLY_NAME,
        ) {
            FieldScan::Found(v) => Some(v),
            FieldScan::Missing => None,
            FieldScan::Failed { at, error } => {
                failure = earlier_failure(failure, at, error);
                None
            },
        };
        if let Some((_, error)) = failure {
            return Err(error);
        }
        let packet_data = match packet_data {
            Some(v) => PacketDataAttribute(v),
            None => {
                return Err(missing_attribute(PacketDataAttribute::FRIENDLY_NAME));
            },
        };
        let timeout_height_on_b = match timeout_height_on_b {
            Some(v) => TimeoutHeightAttribute(v),
            None => {
                return Err(missing_attribute(TimeoutHeightAttribute::FRIENDLY_NAME));
            },
        };
        let timeout_timestamp_on_b = match timeout_timestamp_on_b {
            Some(v) => TimeoutTimestampAttribute(v),
            None => {
                return Err(missing_attribute(TimeoutTimestampAttribute::FRIENDLY_NAME));
            },
        };
        let seq_on_a = match seq_on_a {
            Some(v) => SequenceAttribute(v),
            None => {
                return Err(missing_attribute(SequenceAttribute::FRIENDLY_NAME));
            },
        };
        let port_id_on_a = match port_id_on_a {
            Some(v) => SrcPortIdAttribute(v),
            None => {
                return Err(missing_attribute(SrcPortIdAttribute::FRIENDLY_NAME));
            },
        };
        let chan_id_on_a = match chan_id_on_a {
            Some(v) => SrcChannelIdAttribute(v),
            None => {
                return Err(missing_attribute(SrcChannelIdAttribute::FRIENDLY_NAME));
            },
        };
        let port_id_on_b = match port_id_on_b {
            Some(v) => DstPortIdAttribute(v),
            None => {
                return Err(missing_attribute(DstPortIdAttribute::FRIENDLY_NAME));
            },
        };
        let chan_id_on_b = match chan_id_on_b {
            Some(v) => DstChannelIdAttribute(v),
            None => {
                return Err(missing_attribute(DstChannelIdAttribute::FRIENDLY_NAME));
            },
        };
        let acknowledgement = match acknowledgement {
            Some(v) => AcknowledgementAttribute(v),
            None => {
                return Err(missing_attribute(AcknowledgementAttribute::FRIENDLY_NAME));
            },
        };
        let conn_id_on_b = match conn_id_on_b {
            Some(v) => PacketConnectionIdAttribute(v),
            None => {
                return Err(missing_attribute(PacketConnectionIdAttribute::FRIENDLY_NAME));
            },
        };
        let r = WriteAcknowledgement { packet_data, timeout_height_on_b, timeout_timestamp_on_b, seq_on_a, port_id_on_a, chan_id_on_a, port_id_on_b, chan_id_on_b, acknowledgement, conn_id_on_b };
        proof {
            assert forall|x: WriteAcknowledgement| #[trigger] x.abci_view() == event@ && x.fields_read_back()
                implies r.abci_view() == x.abci_view() by {
                assert(r.abci_view().1 =~= x.abci_view().1);
            }
            assert forall|x: WriteAcknowledgement|
                #[trigger] x.abci_view() == event@ && x.fields_read_back() && x.fields_canonical()
                implies r.same_values(x) by {
                <Vec<u8> as AttributeValue>::lemma_spelling_injective(r.packet_data@, x.packet_data@);
                <TimeoutHeight as AttributeValue>::lemma_spelling_injective(r.timeout_height_on_b@, x.timeout_height_on_b@);
                <TimeoutTimestamp as AttributeValue>::lemma_spelling_injective(r.timeout_timestamp_on_b@, x.timeout_timestamp_on_b@);
                <Sequence as AttributeValue>::lemma_spelling_injective(r.seq_on_a@, x.seq_on_a@);
                <PortId as AttributeValue>::lemma_spelling_injective(r.port_id_on_a@, x.port_id_on_a@);
                <ChannelId as AttributeValue>::lemma_spelling_injective(r.chan_id_on_a@, x.chan_id_on_a@);
                <PortId as AttributeValue>::lemma_spelling_injective(r.port_id_on_b@, x.port_id_on_b@);
                <ChannelId as AttributeValue>::lemma_spelling_injective(r.chan_id_on_b@, x.chan_id_on_b@);
                <Acknowledgement as AttributeValue>::lemma_spelling_injective(r.acknowledgement@, x.acknowledgement@);
                <ConnectionId as AttributeValue>::lemma_spelling_injective(r.conn_id_on_b@, x.conn_id_on_b@);
            }
        }
        Ok(r)
    }
}

impl vstd::std_specs::convert::TryFromSpecImpl<Event> for WriteAcknowledgement {
    open spec fn obeys_try_from_spec() -> bool {
        false
    }

    open spec fn try_from_spec(v: Event) -> Result<WriteAcknowledgement, DecodingError> {
        arbitrary()
    }
}

/// Reads the event from its kind and its attributes given as key-value
/// pairs, as `try_from` reads the ABCI event with those attributes.
impl TryFrom<(String, Vec<(String, String)>)> for WriteAcknowledgement {
    type Error = DecodingError;

    fn try_from(parts: (String, Vec<(String, String)>)) -> (r: Result<WriteAcknowledgement, DecodingError>)
        ensures
            parts.0@ != WriteAcknowledgement::EVENT_KIND@ ==> (r matches Err(
                DecodingError::MismatchedResourceName { expected, actual },
            ) && expected@ == WriteAcknowledgement::EVENT_KIND@ && actual@ == parts.0@),
            r is Ok <==> parts.0@ == WriteAcknowledgement::EVENT_KIND@
                && field_readable::<Vec<u8>>(pairs_view(parts.1@), PacketDataAttribute::ATTRIBUTE_KEY@)
                && field_readable::<TimeoutHeight>(pairs_view(parts.1@), TimeoutHeightAttribute::ATTRIBUTE_KEY@)
                && field_readable::<TimeoutTimestamp>(pairs_view(parts.1@), TimeoutTimestampAttribute::ATTRIBUTE_KEY@)
                && field_readable::<Sequence>(pairs_view(parts.1@), SequenceAttribute::ATTRIBUTE_KEY@)
                && field_readable::<PortId>(pairs_view(parts.1@), SrcPortIdAttribute::ATTRIBUTE_KEY@)
                && field_readable::<ChannelId>(pairs_view(parts.1@), SrcChannelIdAttribute::ATTRIBUTE_KEY@)
                && field_readable::<PortId>(pairs_view(parts.1@), DstPortIdAttribute::ATTRIBUTE_KEY@)
                && field_readable::<ChannelId>(pairs_view(parts.1@), DstChannelIdAttribute::ATTRIBUTE_KEY@)
                && field_readable::<Acknowledgement>(pairs_view(parts.1@), AcknowledgementAttribute::ATTRIBUTE_KEY@)
                && field_readable::<ConnectionId>(pairs_view(parts.1@), PacketConnectionIdAttribute::ATTRIBUTE_KEY@),
            r matches Ok(e) ==> {
                &&& e.packet_data@.event_value() == <Vec<u8> as AttributeValue>::normal_form(
                    first_value(pairs_view(parts.1@), PacketDataAttribute::ATTRIBUTE_KEY@),
                )
                &&& e.timeout_height_on_b@.event_value() == <TimeoutHeight as AttributeValue>::normal_form(
                    first_value(pairs_view(parts.1@), TimeoutHeightAttribute::ATTRIBUTE_KEY@),
                )
                &&& e.timeout_timestamp_on_b@.event_value() == <TimeoutTimestamp as AttributeValue>::normal_form(
                    first_value(pairs_view(parts.1@), TimeoutTimestampAttribute::ATTRIBUTE_KEY@),
                )
                &&& e.seq_on_a@.event_value() == <Sequence as AttributeValue>::normal_form(
                    first_value(pairs_view(parts.1@), SequenceAttribute::ATTRIBUTE_KEY@),
                )
                &&& e.port_id_on_a@.event_value() == <PortId as AttributeValue>::normal_form(
                    first_value(pairs_view(parts.1@), SrcPortIdAttribute::ATTRIBUTE_KEY@),
                )
                &&& e.chan_id_on_a@.event_value() == <ChannelId as AttributeValue>::normal_form(
                    first_value(pairs_view(parts.1@), SrcChannelIdAttribute::ATTRIBUTE_KEY@),
                )
                &&& e.port_id_on_b@.event_value() == <PortId as AttributeValue>::normal_form(
                    first_value(pairs_view(parts.1@), DstPortIdAttribute::ATTRIBUTE_KEY@),
                )
                &&& e.chan_id_on_b@.event_value() == <ChannelId as AttributeValue>::normal_form(
                    first_value(pairs_view(parts.1@), DstChannelIdAttribute::ATTRIBUTE_KEY@),
                )
                &&& e.acknowledgement@.event_value() == <Acknowledgement as AttributeValue>::normal_form(
                    first_value(pairs_view(parts.1@), AcknowledgementAttribute::ATTRIBUTE_KEY@),
                )
                &&& e.conn_id_on_b@.event_value() == <ConnectionId as AttributeValue>::normal_form(
                    first_value(pairs_view(parts.1@), PacketConnectionIdAttribute::ATTRIBUTE_KEY@),
                )
            },
            parts.0@ == WriteAcknowledgement::EVENT_KIND@ ==> (r matches Err(e) ==> (e is MissingRawData <==> !(
                field_wrong::<Vec<u8>>(pairs_view(parts.1@), PacketDataAttribute::ATTRIBUTE_KEY@)
                || field_wrong::<TimeoutHeight>(pairs_view(parts.1@), TimeoutHeightAttribute::ATTRIBUTE_KEY@)
                || field_wrong::<TimeoutTimestamp>(pairs_view(parts.1@), TimeoutTimestampAttribute::ATTRIBUTE_KEY@)
                || field_wrong::<Sequence>(pairs_view(parts.1@), SequenceAttribute::ATTRIBUTE_KEY@)
                || field_wrong::<PortId>(pairs_view(parts.1@), SrcPortIdAttribute::ATTRIBUTE_KEY@)
                || field_wrong::<ChannelId>(pairs_view(parts.1@), SrcChannelIdAttribute::ATTRIBUTE_KEY@)
                || field_wrong::<PortId>(pairs_view(parts.1@), DstPortIdAttribute::ATTRIBUTE_KEY@)
                || field_wrong::<ChannelId>(pairs_view(parts.1@), DstChannelIdAttribute::ATTRIBUTE_KEY@)
                || field_wrong::<Acknowledgement>(pairs_view(parts.1@), AcknowledgementAttribute::ATTRIBUTE_KEY@)
                || field_wrong::<ConnectionId>(pairs_view(parts.1@), PacketConnectionIdAttribute::ATTRIBUTE_KEY@)))),
            forall|x: WriteAcknowledgement|
                #[trigger] x.abci_view() == (parts.0@, pairs_view(parts.1@)) && x.fields_read_back() ==> (r matches Ok(y)
                    && y.abci_view() == x.abci_view()),
            forall|x: WriteAcknowledgement|
                #[trigger] x.abci_view() == (parts.0@, pairs_view(parts.1@)) && x.fields_read_back() && x.fields_canonical()
                    ==> (r matches Ok(y) && y.same_values(x)),
    {
        let (kind, pairs) = parts;
        <WriteAcknowledgement as TryFrom<Event>>::try_from(Event::from_pairs(kind, pairs))
    }
}

impl vstd::std_specs::convert::TryFromSpecImpl<(String, Vec<(String, String)>)> for WriteAcknowledgement {
    open spec fn obeys_try_from_spec() -> bool {
        false
    }

    open spec fn try_from_spec(v: (String, Vec<(String, String)>)) -> Result<WriteAcknowledgement, DecodingError> {
        arbitrary()
    }
}

/// The `acknowledge_packet` event: the acknowledgement of a sent packet was processed.
#[derive(Clone, Debug, PartialEq, Eq)]
pub struct AcknowledgePacket {
    pub timeout_height_on_b: TimeoutHeightAttribute,
    pub timeout_timestamp_on_b: TimeoutTimestampAttribute,
    pub seq_on_a: SequenceAttribute,
    pub port_id_on_a: SrcPortIdAttribute,
    pub chan_id_on_a: SrcChannelIdAttribute,
    pub port_id_on_b: DstPortIdAttribute,
    pub chan_id_on_b: DstChannelIdAttribute,
    pub ordering: ChannelOrderingAttribute,
    pub conn_id_on_a: PacketConnectionIdAttribute,
}

impl AcknowledgePacket {
    /// The kind of this event in ABCI.
    pub const EVENT_KIND: &'static str = "acknowledge_packet";

    /// The event with the given attribute values.
    pub fn new(timeout_height_on_b: TimeoutHeight, timeout_timestamp_on_b: TimeoutTimestamp, seq_on_a: Sequence, port_id_on_a: PortId, chan_id_on_a: ChannelId, port_id_on_b: PortId, chan_id_on_b: ChannelId, ordering: Order, conn_id_on_a: ConnectionId) -> (r: AcknowledgePacket)
        ensures
            r.timeout_height_on_b@ == timeout_height_on_b,
            r.timeout_timestamp_on_b@ == timeout_timestamp_on_b,
            r.seq_on_a@ == seq_on_a,
            r.port_id_on_a@ == port_id_on_a,
            r.chan_id_on_a@ == chan_id_on_a,
            r.port_id_on_b@ == port_id_on_b,
            r.chan_id_on_b@ == chan_id_on_b,
            r.ordering@ == ordering,
            r.conn_id_on_a@ == conn_id_on_a,
    {
        AcknowledgePacket { timeout_height_on_b: TimeoutHeightAttribute::new(timeout_height_on_b), timeout_timestamp_on_b: TimeoutTimestampAttribute::new(timeout_timestamp_on_b), seq_on_a: SequenceAttribute::new(seq_on_a), port_id_on_a: SrcPortIdAttribute::new(port_id_on_a), chan_id_on_a: SrcChannelIdAttribute::new(chan_id_on_a), port_id_on_b: DstPortIdAttribute::new(port_id_on_b), chan_id_on_b: DstChannelIdAttribute::new(chan_id_on_b), ordering: ChannelOrderingAttribute::new(ordering), conn_id_on_a: PacketConnectionIdAttribute::new(conn_id_on_a) }
    }

    /// The value of the `timeout_height_on_b` attribute.
    pub fn timeout_height_on_b(&self) -> (r: &TimeoutHeight)
        ensures
            *r == self.timeout_height_on_b@,
    {
        self.timeout_height_on_b.value()
    }

    /// The value of the `timeout_timestamp_on_b` attribute.
    pub fn timeout_timestamp_on_b(&self) -> (r: &TimeoutTimestamp)
        ensures
            *r == self.timeout_timestamp_on_b@,
    {
        self.timeout_timestamp_on_b.value()
    }

    /// The value of the `seq_on_a` attribute.
    pub fn seq_on_a(&self) -> (r: &Sequence)
        ensures
            *r == self.seq_on_a@,
    {
        self.seq_on_a.value()
    }

    /// The value of the `port_id_on_a` attribute.
    pub fn port_id_on_a(&self) -> (r: &PortId)
        ensures
            *r == self.port_id_on_a@,
    {
        self.port_id_on_a.value()
    }

    /// The value of the `chan_id_on_a` attribute.
    pub fn chan_id_on_a(&self) -> (r: &ChannelId)
        ensures
            *r == self.chan_id_on_a@,
    {
        self.chan_id_on_a.value()
    }

    /// The value of the `port_id_on_b` attribute.
    pub fn port_id_on_b(&self) -> (r: &PortId)
        ensures
            *r == self.port_id_on_b@,
    {
        self.port_id_on_b.value()
    }

    /// The value of the `chan_id_on_b` attribute.
    pub fn chan_id_on_b(&self) -> (r: &ChannelId)
        ensures
            *r == self.chan_id_on_b@,
    {
        self.chan_id_on_b.value()
    }

    /// The value of the `ordering` attribute.
    pub fn ordering(&self) -> (r: &Order)
        ensures
            *r == self.ordering@,
    {
        self.ordering.value()
    }

    /// The value of the `conn_id_on_a` attribute.
    pub fn conn_id_on_a(&self) -> (r: &ConnectionId)
        ensures
            *r == self.conn_id_on_a@,
    {
        self.conn_id_on_a.value()
    }

    /// The ABCI event that this event becomes: its kind, and its
    /// attributes in the order of the fields.
    pub open spec fn abci_view(self) -> (Seq<char>, Seq<(Seq<char>, Seq<char>, bool)>) {
        (Self::EVENT_KIND@, seq![self.timeout_height_on_b.attribute_view(), self.timeout_timestamp_on_b.attribute_view(), self.seq_on_a.attribute_view(), self.port_id_on_a.attribute_view(), self.chan_id_on_a.attribute_view(), self.port_id_on_b.attribute_view(), self.chan_id_on_b.attribute_view(), self.ordering.attribute_view(), self.conn_id_on_a.attribute_view()])
    }
}

/// The event as an ABCI event: its kind and its attributes in the order of
/// the fields. A spec function cannot build the strings of an `Event`, so
/// `from` states its result in its own `ensures`.
impl From<AcknowledgePacket> for Event {
    fn from(event: AcknowledgePacket) -> (r: Event)
        ensures
            r@ == event.abci_view(),
    {
        let ghost view = event.abci_view();
        let attributes = vec![
            EventAttribute::from(event.timeout_height_on_b),
            EventAttribute::from(event.timeout_timestamp_on_b),
            EventAttribute::from(event.seq_on_a),
            EventAttribute::from(event.port_id_on_a),
            EventAttribute::from(event.chan_id_on_a),
            EventAttribute::from(event.port_id_on_b),
            EventAttribute::from(event.chan_id_on_b),
            EventAttribute::from(event.ordering),
            EventAttribute::from(event.conn_id_on_a),
        ];
        let r = Event { kind: String::from_str(AcknowledgePacket::EVENT_KIND), attributes };
        assert(attributes_view(r.attributes@) =~= view.1);
        r
    }
}

impl vstd::std_specs::convert::FromSpecImpl<AcknowledgePacket> for Event {
    open spec fn obeys_from_spec() -> bool {
        false
    }

    open spec fn from_spec(v: AcknowledgePacket) -> Event {
        arbitrary()
    }
}

impl AcknowledgePacket {
    /// Whether the spelling of every attribute value reads back as itself.
    pub open spec fn fields_read_back(self) -> bool {
        &&& reads_back(self.timeout_height_on_b@)
        &&& reads_back(self.timeout_timestamp_on_b@)
        &&& reads_back(self.seq_on_a@)
        &&& reads_back(self.port_id_on_a@)
        &&& reads_back(self.chan_id_on_a@)
        &&& reads_back(self.port_id_on_b@)
        &&& reads_back(self.chan_id_on_b@)
        &&& reads_back(self.ordering@)
        &&& reads_back(self.conn_id_on_a@)
    }

    /// Whether every attribute value is the one its spelling is read as.
    pub open spec fn fields_canonical(self) -> bool {
        &&& self.timeout_height_on_b@.canonical()
        &&& self.timeout_timestamp_on_b@.canonical()
        &&& self.seq_on_a@.canonical()
        &&& self.port_id_on_a@.canonical()
        &&& self.chan_id_on_a@.canonical()
        &&& self.port_id_on_b@.canonical()
        &&& self.chan_id_on_b@.canonical()
        &&& self.ordering@.canonical()
        &&& self.conn_id_on_a@.canonical()
    }

    /// Whether the two events hold the same values, attribute by
    /// attribute.
    pub open spec fn same_values(self, other: AcknowledgePacket) -> bool {
        &&& self.timeout_height_on_b@.same_value(other.timeout_height_on_b@)
        &&& self.timeout_timestamp_on_b@.same_value(other.timeout_timestamp_on_b@)
        &&& self.seq_on_a@.same_value(other.seq_on_a@)
        &&& self.port_id_on_a@.same_value(other.port_id_on_a@)
        &&& self.chan_id_on_a@.same_value(other.chan_id_on_a@)
        &&& self.port_id_on_b@.same_value(other.port_id_on_b@)
        &&& self.chan_id_on_b@.same_value(other.chan_id_on_b@)
        &&& self.ordering@.same_value(other.ordering@)
        &&& self.conn_id_on_a@.same_value(other.conn_id_on_a@)
    }
}

/// Reads the event back from its ABCI form. The kind must be this event's;
/// each attribute of the event must occur once and hold a value of its
/// type, and attributes with other keys are passed over. Where several
/// attributes are wrong, the error is that of the first wrong attribute
/// in the list, and where none is wrong but some are missing, that of the
/// first missing one in the order of the fields.
impl TryFrom<Event> for AcknowledgePacket {
    type Error = DecodingError;

    fn try_from(event: Event) -> (r: Result<AcknowledgePacket, DecodingError>)
        ensures
            event@.0 != AcknowledgePacket::EVENT_KIND@ ==> (r matches Err(
                DecodingError::MismatchedResourceName { expected, actual },
            ) && expected@ == AcknowledgePacket::EVENT_KIND@ && actual@ == event@.0),
            r is Ok <==> event@.0 == AcknowledgePacket::EVENT_KIND@
                && field_readable::<TimeoutHeight>(event@.1, TimeoutHeightAttribute::ATTRIBUTE_KEY@)
                && field_readable::<TimeoutTimestamp>(event@.1, TimeoutTimestampAttribute::ATTRIBUTE_KEY@)
                && field_readable::<Sequence>(event@.1, SequenceAttribute::ATTRIBUTE_KEY@)
                && field_readable::<PortId>(event@.1, SrcPortIdAttribute::ATTRIBUTE_KEY@)
                && field_readable::<ChannelId>(event@.1, SrcChannelIdAttribute::ATTRIBUTE_KEY@)
                && field_readable::<PortId>(event@.1, DstPortIdAttribute::ATTRIBUTE_KEY@)
                && field_readable::<ChannelId>(event@.1, DstChannelIdAttribute::ATTRIBUTE_KEY@)
                && field_readable::<Order>(event@.1, ChannelOrderingAttribute::ATTRIBUTE_KEY@)
                && field_readable::<ConnectionId>(event@.1, PacketConnectionIdAttribute::ATTRIBUTE_KEY@),
            r matches Ok(e) ==> {
                &&& e.timeout_height_on_b@.event_value() == <TimeoutHeight as AttributeValue>::normal_form(
                    first_value(event@.1, TimeoutHeightAttribute::ATTRIBUTE_KEY@),
                )
                &&& e.timeout_timestamp_on_b@.event_value() == <TimeoutTimestamp as AttributeValue>::normal_form(
                    first_value(event@.1, TimeoutTimestampAttribute::ATTRIBUTE_KEY@),
                )
                &&& e.seq_on_a@.event_value() == <Sequence as AttributeValue>::normal_form(
                    first_value(event@.1, SequenceAttribute::ATTRIBUTE_KEY@),
                )
                &&& e.port_id_on_a@.event_value() == <PortId as AttributeValue>::normal_form(
                    first_value(event@.1, SrcPortIdAttribute::ATTRIBUTE_KEY@),
                )
                &&& e.chan_id_on_a@.event_value() == <ChannelId as AttributeValue>::normal_form(
                    first_value(event@.1, SrcChannelIdAttribute::ATTRIBUTE_KEY@),
                )
                &&& e.port_id_on_b@.event_value() == <PortId as AttributeValue>::normal_form(
                    first_value(event@.1, DstPortIdAttribute::ATTRIBUTE_KEY@),
                )
                &&& e.chan_id_on_b@.event_value() == <ChannelId as AttributeValue>::normal_form(
                    first_value(event@.1, DstChannelIdAttribute::ATTRIBUTE_KEY@),
                )
                &&& e.ordering@.event_value() == <Order as AttributeValue>::normal_form(
                    first_value(event@.1, ChannelOrderingAttribute::ATTRIBUTE_KEY@),
                )
                &&& e.conn_id_on_a@.event_value() == <ConnectionId as AttributeValue>::normal_form(
                    first_value(event@.1, PacketConnectionIdAttribute::ATTRIBUTE_KEY@),
                )
            },
            event@.0 == AcknowledgePacket::EVENT_KIND@ ==> (r matches Err(e) ==> (e is MissingRawData <==> !(
                field_wrong::<TimeoutHeight>(event@.1, TimeoutHeightAttribute::ATTRIBUTE_KEY@)
                || field_wrong::<TimeoutTimestamp>(event@.1, TimeoutTimestampAttribute::ATTRIBUTE_KEY@)
                || field_wrong::<Sequence>(event@.1, SequenceAttribute::ATTRIBUTE_KEY@)
                || field_wrong::<PortId>(event@.1, SrcPortIdAttribute::ATTRIBUTE_KEY@)
                || field_wrong::<ChannelId>(event@.1, SrcChannelIdAttribute::ATTRIBUTE_KEY@)
                || field_wrong::<PortId>(event@.1, DstPortIdAttribute::ATTRIBUTE_KEY@)
                || field_wrong::<ChannelId>(event@.1, DstChannelIdAttribute::ATTRIBUTE_KEY@)
                || field_wrong::<Order>(event@.1, ChannelOrderingAttribute::ATTRIBUTE_KEY@)
                || field_wrong::<ConnectionId>(event@.1, PacketConnectionIdAttribute::ATTRIBUTE_KEY@)))),
            forall|x: AcknowledgePacket|
                #[trigger] x.abci_view() == event@ && x.fields_read_back() ==> (r matches Ok(y)
                    && y.abci_view() == x.abci_view()),
            forall|x: AcknowledgePacket|
                #[trigger] x.abci_view() == event@ && x.fields_read_back() && x.fields_canonical()
                    ==> (r matches Ok(y) && y.same_values(x)),
    {
        proof {
            assert forall|x: AcknowledgePacket| #[trigger] x.abci_view() == event@ && x.fields_read_back()
                implies {
                &&& field_readable::<TimeoutHeight>(event@.1, TimeoutHeightAttribute::ATTRIBUTE_KEY@)
                &&& first_value(event@.1, TimeoutHeightAttribute::ATTRIBUTE_KEY@) == x.timeout_height_on_b@.event_value()
                &&& field_readable::<TimeoutTimestamp>(event@.1, TimeoutTimestampAttribute::ATTRIBUTE_KEY@)
                &&& first_value(event@.1, TimeoutTimestampAttribute::ATTRIBUTE_KEY@) == x.timeout_timestamp_on_b@.event_value()
                &&& field_readable::<Sequence>(event@.1, SequenceAttribute::ATTRIBUTE_KEY@)
                &&& first_value(event@.1, SequenceAttribute::ATTRIBUTE_KEY@) == x.seq_on_a@.event_value()
                &&& field_readable::<PortId>(event@.1, SrcPortIdAttribute::ATTRIBUTE_KEY@)
                &&& first_value(event@.1, SrcPortIdAttribute::ATTRIBUTE_KEY@) == x.port_id_on_a@.event_value()
                &&& field_readable::<ChannelId>(event@.1, SrcChannelIdAttribute::ATTRIBUTE_KEY@)
                &&& first_value(event@.1, SrcChannelIdAttribute::ATTRIBUTE_KEY@) == x.chan_id_on_a@.event_value()
                &&& field_readable::<PortId>(event@.1, DstPortIdAttribute::ATTRIBUTE_KEY@)
                &&& first_value(event@.1, DstPortIdAttribute::ATTRIBUTE_KEY@) == x.port_id_on_b@.event_value()
                &&& field_readable::<ChannelId>(event@.1, DstChannelIdAttribute::ATTRIBUTE_KEY@)
                &&& first_value(event@.1, DstChannelIdAttribute::ATTRIBUTE_KEY@) == x.chan_id_on_b@.event_value()
                &&& field_readable::<Order>(event@.1, ChannelOrderingAttribute::ATTRIBUTE_KEY@)
                &&& first_value(event@.1, ChannelOrderingAttribute::ATTRIBUTE_KEY@) == x.ordering@.event_value()
                &&& field_readable::<ConnectionId>(event@.1, PacketConnectionIdAttribute::ATTRIBUTE_KEY@)
                &&& first_value(event@.1, PacketConnectionIdAttribute::ATTRIBUTE_KEY@) == x.conn_id_on_a@.event_value()
            } by {
                let s = x.abci_view().1;
                reveal_strlit("connection_id");
                reveal_strlit("packet_channel_ordering");
                reveal_strlit("packet_dst_channel");
                reveal_strlit("packet_dst_port");
                reveal_strlit("packet_sequence");
                reveal_strlit("packet_src_channel");
                reveal_strlit("packet_src_port");
                reveal_strlit("packet_timeout_height");
                reveal_strlit("packet_timeout_timestamp");
                assert("packet_dst_channel"@[7] != "packet_src_channel"@[7]);
                assert("packet_dst_port"@[7] != "packet_sequence"@[7]);
                assert("packet_dst_port"@[7] != "packet_src_port"@[7]);
                assert("packet_sequence"@[8] != "packet_src_port"@[8]);
                assert(s.take(9) =~= s);
                assert(s.take(9).drop_last() =~= s.take(8));
                assert(s.take(8).drop_last() =~= s.take(7));
                assert(s.take(7).drop_last() =~= s.take(6));
                assert(s.take(6).drop_last() =~= s.take(5));
                assert(s.take(5).drop_last() =~= s.take(4));
                assert(s.take(4).drop_last() =~= s.take(3));
                assert(s.take(3).drop_last() =~= s.take(2));
                assert(s.take(2).drop_last() =~= s.take(1));
                assert(s.take(1).drop_last() =~= s.take(0));
                reveal_with_fuel(keys_distinct, 10);
                reveal_with_fuel(key_absent, 10);
                assert(s[0].0 == TimeoutHeightAttribute::ATTRIBUTE_KEY@ && s[0].0.len() == 21);
                assert(s[1].0 == TimeoutTimestampAttribute::ATTRIBUTE_KEY@ && s[1].0.len() == 24);
                assert(s[2].0 == SequenceAttribute::ATTRIBUTE_KEY@ && s[2].0.len() == 15);
                assert(s[3].0 == SrcPortIdAttribute::ATTRIBUTE_KEY@ && s[3].0.len() == 15);
                assert(s[4].0 == SrcChannelIdAttribute::ATTRIBUTE_KEY@ && s[4].0.len() == 18);
                assert(s[5].0 == DstPortIdAttribute::ATTRIBUTE_KEY@ && s[5].0.len() == 15);
                assert(s[6].0 == DstChannelIdAttribute::ATTRIBUTE_KEY@ && s[6].0.len() == 18);
                assert(s[7].0 == ChannelOrderingAttribute::ATTRIBUTE_KEY@ && s[7].0.len() == 23);
                assert(s[8].0 == PacketConnectionIdAttribute::ATTRIBUTE_KEY@ && s[8].0.len() == 13);
                assert(s.take(1).last() == s[0]);
                assert(key_absent(s.take(0), s[0].0));
                assert(keys_distinct(s.take(1)));
                assert(s.take(2).last() == s[1]);
                assert(key_absent(s.take(1), s[1].0));
                assert(keys_distinct(s.take(2)));
                assert(s.take(3).last() == s[2]);
                assert(key_absent(s.take(2), s[2].0));
                assert(keys_distinct(s.take(3)));
                assert(s.take(4).last() == s[3]);
                assert(key_absent(s.take(3), s[3].0));
                assert(keys_distinct(s.take(4)));
                assert(s.take(5).last() == s[4]);
                assert(key_absent(s.take(4), s[4].0));
                assert(keys_distinct(s.take(5)));
                assert(s.take(6).last() == s[5]);
                assert(key_absent(s.take(5), s[5].0));
                assert(keys_distinct(s.take(6)));
                assert(s.take(7).last() == s[6]);
                assert(key_absent(s.take(6), s[6].0));
                assert(keys_distinct(s.take(7)));
                assert(s.take(8).last() == s[7]);
                assert(key_absent(s.take(7), s[7].0));
                assert(keys_distinct(s.take(8)));
                assert(s.take(9).last() == s[8]);
                assert(key_absent(s.take(8), s[8].0));
                assert(keys_distinct(s.take(9)));
                lemma_distinct_keys(s, 0);
                lemma_distinct_keys(s, 1);
                lemma_distinct_keys(s, 2);
                lemma_distinct_keys(s, 3);
                lemma_distinct_keys(s, 4);
                lemma_distinct_keys(s, 5);
                lemma_distinct_keys(s, 6);
                lemma_distinct_keys(s, 7);
                lemma_distinct_keys(s, 8);
                assert(s[0].0 == TimeoutHeightAttribute::ATTRIBUTE_KEY@ && s[0].1 == x.timeout_height_on_b@.event_value());
                assert(s[1].0 == TimeoutTimestampAttribute::ATTRIBUTE_KEY@ && s[1].1 == x.timeout_timestamp_on_b@.event_value());
                assert(s[2].0 == SequenceAttribute::ATTRIBUTE_KEY@ && s[2].1 == x.seq_on_a@.event_value());
                assert(s[3].0 == SrcPortIdAttribute::ATTRIBUTE_KEY@ && s[3].1 == x.port_id_on_a@.event_value());
                assert(s[4].0 == SrcChannelIdAttribute::ATTRIBUTE_KEY@ && s[4].1 == x.chan_id_on_a@.event_value());
                assert(s[5].0 == DstPortIdAttribute::ATTRIBUTE_KEY@ && s[5].1 == x.port_id_on_b@.event_value());
                assert(s[6].0 == DstChannelIdAttribute::ATTRIBUTE_KEY@ && s[6].1 == x.chan_id_on_b@.event_value());
                assert(s[7].0 == ChannelOrderingAttribute::ATTRIBUTE_KEY@ && s[7].1 == x.ordering@.event_value());
                assert(s[8].0 == PacketConnectionIdAttribute::ATTRIBUTE_KEY@ && s[8].1 == x.conn_id_on_a@.event_value());
            }
        }
        let expected = String::from_str(AcknowledgePacket::EVENT_KIND);
        if !(event.kind == expected) {
            return Err(DecodingError::MismatchedResourceName { expected, actual: event.kind });
        }
        let mut failure: Option<(usize, DecodingError)> = None;
        let timeout_height_on_b = match scan_field::<TimeoutHeight>(
            &event.attributes,
            TimeoutHeightAttribute::ATTRIBUTE_KEY,
            TimeoutHeightAttribute::FRIENDLY_NAME,
        ) {
            FieldScan::Found(v) => Some(v),
            FieldScan::Missing => None,
            FieldScan::Failed { at, error } => {
                failure = earlier_failure(failure, at, error);
                None
            },
        };
        let timeout_timestamp_on_b = match scan_field::<TimeoutTimestamp>(
            &event.attributes,
            TimeoutTimestampAttribute::ATTRIBUTE_KEY,
            TimeoutTimestampAttribute::FRIENDLY_NAME,
        ) {
            FieldScan::Found(v) => Some(v),
            FieldScan::Missing => None,
            FieldScan::Failed { at, error } => {
                failure = earlier_failure(failure, at, error);
                None
            },
        };
        let seq_on_a = match scan_field::<Sequence>(
            &event.attributes,
            SequenceAttribute::ATTRIBUTE_KEY,
            SequenceAttribute::FRIENDLY_NAME,
        ) {
            FieldScan::Found(v) => Some(v),
            FieldScan::Missing => None,
            FieldScan::Failed { at, error } => {
                failure = earlier_failure(failure, at, error);
                None
            },
        };
        let port_id_on_a = match scan_field::<PortId>(
            &event.attributes,
            SrcPortIdAttribute::ATTRIBUTE_KEY,
            SrcPortIdAttribute::FRIENDLY_NAME,
        ) {
            FieldScan::Found(v) => Some(v),
            FieldScan::Missing => None,
            FieldScan::Failed { at, error } => {
                failure = earlier_failure(failure, at, error);
                None
            },
        };
        let chan_id_on_a = match scan_field::<ChannelId>(
            &event.attributes,
            SrcChannelIdAttribute::ATTRIBUTE_KEY,
            SrcChannelIdAttribute::FRIENDLY_NAME,
        ) {
            FieldScan::Found(v) => Some(v),
            FieldScan::Missing => None,
            FieldScan::Failed { at, error } => {
                failure = earlier_failure(failure, at, error);
                None
            },
        };
        let port_id_on_b = match scan_field::<PortId>(
            &event.attributes,
            DstPortIdAttribute::ATTRIBUTE_KEY,
            DstPortIdAttribute::FRIENDLY_NAME,
        ) {
            FieldScan::Found(v) => Some(v),
            FieldScan::Missing => None,
            FieldScan::Failed { at, error } => {
                failure = earlier_failure(failure, at, error);
                None
            },
        };
        let chan_id_on_b = match scan_field::<ChannelId>(
            &event.attributes,
            DstChannelIdAttribute::ATTRIBUTE_KEY,
            DstChannelIdAttribute::FRIENDLY_NAME,
        ) {
            FieldScan::Found(v) => Some(v),
            FieldScan::Missing => None,
            FieldScan::Failed { at, error } => {
                failure = earlier_failure(failure, at, error);
                None
            },
        };
        let ordering = match scan_field::<Order>(
            &event.attributes,
            ChannelOrderingAttribute::ATTRIBUTE_KEY,
            ChannelOrderingAttribute::FRIENDLY_NAME,
        ) {
            FieldScan::Found(v) => Some(v),
            FieldScan::Missing => None,
            FieldScan::Failed { at, error } => {
                failure = earlier_failure(failure, at, error);
                None
            },
        };
        let conn_id_on_a = match scan_field::<ConnectionId>(
            &event.attributes,
            PacketConnectionIdAttribute::ATTRIBUTE_KEY,
            PacketConnectionIdAttribute::FRIENDLY_NAME,
        ) {
            FieldScan::Found(v) => Some(v),
            FieldScan::Missing => None,
            FieldScan::Failed { at, error } => {
                failure = earlier_failure(failure, at, error);
                None
            },
        };
        if let Some((_, error)) = failure {
            return Err(error);
        }
        let timeout_height_on_b = match timeout_height_on_b {
            Some(v) => TimeoutHeightAttribute(v),
            None => {
                return Err(missing_attribute(TimeoutHeightAttribute::FRIENDLY_NAME));
            },
        };
        let timeout_timestamp_on_b = match timeout_timestamp_on_b {
            Some(v) => TimeoutTimestampAttribute(v),
            None => {
                return Err(missing_attribute(TimeoutTimestampAttribute::FRIENDLY_NAME));
            },
        };
        let seq_on_a = match seq_on_a {
            Some(v) => SequenceAttribute(v),
            None => {
                return Err(missing_attribute(SequenceAttribute::FRIENDLY_NAME));
            },
        };
        let port_id_on_a = match port_id_on_a {
            Some(v) => SrcPortIdAttribute(v),
            None => {
                return Err(missing_attribute(SrcPortIdAttribute::FRIENDLY_NAME));
            },
        };
        let chan_id_on_a = match chan_id_on_a {
            Some(v) => SrcChannelIdAttribute(v),
            None => {
                return Err(missing_attribute(SrcChannelIdAttribute::FRIENDLY_NAME));
            },
        };
        let port_id_on_b = match port_id_on_b {
            Some(v) => DstPortIdAttribute(v),
            None => {
                return Err(missing_attribute(DstPortIdAttribute::FRIENDLY_NAME));
            },
        };
        let chan_id_on_b = match chan_id_on_b {
            Some(v) => DstChannelIdAttribute(v),
            None => {
                return Err(missing_attribute(DstChannelIdAttribute::FRIENDLY_NAME));
            },
        };
        let ordering = match ordering {
            Some(v) => ChannelOrderingAttribute(v),
            None => {
                return Err(missing_attribute(ChannelOrderingAttribute::FRIENDLY_NAME));
            },
        };
        let conn_id_on_a = match conn_id_on_a {
            Some(v) => PacketConnectionIdAttribute(v),
            None => {
                return Err(missing_attribute(PacketConnectionIdAttribute::FRIENDLY_NAME));
            },
        };
        let r = AcknowledgePacket { timeout_height_on_b, timeout_timestamp_on_b, seq_on_a, port_id_on_a, chan_id_on_a, port_id_on_b, chan_id_on_b, ordering, conn_id_on_a };
        proof {
            assert forall|x: AcknowledgePacket| #[trigger] x.abci_view() == event@ && x.fields_read_back()
                implies r.abci_view() == x.abci_view() by {
                assert(r.abci_view().1 =~= x.abci_view().1);
            }
            assert forall|x: AcknowledgePacket|
                #[trigger] x.abci_view() == event@ && x.fields_read_back() && x.fields_canonical()
                implies r.same_values(x) by {
                <TimeoutHeight as AttributeValue>::lemma_spelling_injective(r.timeout_height_on_b@, x.timeout_height_on_b@);
                <TimeoutTimestamp as AttributeValue>::lemma_spelling_injective(r.timeout_timestamp_on_b@, x.timeout_timestamp_on_b@);
                <Sequence as AttributeValue>::lemma_spelling_injective(r.seq_on_a@, x.seq_on_a@);
                <PortId as AttributeValue>::lemma_spelling_injective(r.port_id_on_a@, x.port_id_on_a@);
                <ChannelId as AttributeValue>::lemma_spelling_injective(r.chan_id_on_a@, x.chan_id_on_a@);
                <PortId as AttributeValue>::lemma_spelling_injective(r.port_id_on_b@, x.port_id_on_b@);
                <ChannelId as AttributeValue>::lemma_spelling_injective(r.chan_id_on_b@, x.chan_id_on_b@);
                <Order as AttributeValue>::lemma_spelling_injective(r.ordering@, x.ordering@);
                <ConnectionId as AttributeValue>::lemma_spelling_injective(r.conn_id_on_a@, x.conn_id_on_a@);
            }
        }
        Ok(r)
    }
}

impl vstd::std_specs::convert::TryFromSpecImpl<Event> for AcknowledgePacket {
    open spec fn obeys_try_from_spec() -> bool {
        false
    }

    open spec fn try_from_spec(v: Event) -> Result<AcknowledgePacket, DecodingError> {
        arbitrary()
    }
}

/// Reads the event from its kind and its attributes given as key-value
/// pairs, as `try_from` reads the ABCI event with those attributes.
impl TryFrom<(String, Vec<(String, String)>)> for AcknowledgePacket {
    type Error = DecodingError;

    fn try_from(parts: (String, Vec<(String, String)>)) -> (r: Result<AcknowledgePacket, DecodingError>)
        ensures
            parts.0@ != AcknowledgePacket::EVENT_KIND@ ==> (r matches Err(
                DecodingError::MismatchedResourceName { expected, actual },
            ) && expected@ == AcknowledgePacket::EVENT_KIND@ && actual@ == parts.0@),
            r is Ok <==> parts.0@ == AcknowledgePacket::EVENT_KIND@
                && field_readable::<TimeoutHeight>(pairs_view(parts.1@), TimeoutHeightAttribute::ATTRIBUTE_KEY@)
                && field_readable::<TimeoutTimestamp>(pairs_view(parts.1@), TimeoutTimestampAttribute::ATTRIBUTE_KEY@)
                && field_readable::<Sequence>(pairs_view(parts.1@), SequenceAttribute::ATTRIBUTE_KEY@)
                && field_readable::<PortId>(pairs_view(parts.1@), SrcPortIdAttribute::ATTRIBUTE_KEY@)
                && field_readable::<ChannelId>(pairs_view(parts.1@), SrcChannelIdAttribute::ATTRIBUTE_KEY@)
                && field_readable::<PortId>(pairs_view(parts.1@), DstPortIdAttribute::ATTRIBUTE_KEY@)
                && field_readable::<ChannelId>(pairs_view(parts.1@), DstChannelIdAttribute::ATTRIBUTE_KEY@)
                && field_readable::<Order>(pairs_view(parts.1@), ChannelOrderingAttribute::ATTRIBUTE_KEY@)
                && field_readable::<ConnectionId>(pairs_view(parts.1@), PacketConnectionIdAttribute::ATTRIBUTE_KEY@),
            r matches Ok(e) ==> {
                &&& e.timeout_height_on_b@.event_value() == <TimeoutHeight as AttributeValue>::normal_form(
                    first_value(pairs_view(parts.1@), TimeoutHeightAttribute::ATTRIBUTE_KEY@),
                )
                &&& e.timeout_timestamp_on_b@.event_value() == <TimeoutTimestamp as AttributeValue>::normal_form(
                    first_value(pairs_view(parts.1@), TimeoutTimestampAttribute::ATTRIBUTE_KEY@),
                )
                &&& e.seq_on_a@.event_value() == <Sequence as AttributeValue>::normal_form(
                    first_value(pairs_view(parts.1@), SequenceAttribute::ATTRIBUTE_KEY@),
                )
                &&& e.port_id_on_a@.event_value() == <PortId as AttributeValue>::normal_form(
                    first_value(pairs_view(parts.1@), SrcPortIdAttribute::ATTRIBUTE_KEY@),
                )
                &&& e.chan_id_on_a@.event_value() == <ChannelId as AttributeValue>::normal_form(
                    first_value(pairs_view(parts.1@), SrcChannelIdAttribute::ATTRIBUTE_KEY@),
                )
                &&& e.port_id_on_b@.event_value() == <PortId as AttributeValue>::normal_form(
                    first_value(pairs_view(parts.1@), DstPortIdAttribute::ATTRIBUTE_KEY@),
                )
                &&& e.chan_id_on_b@.event_value() == <ChannelId as AttributeValue>::normal_form(
                    first_value(pairs_view(parts.1@), DstChannelIdAttribute::ATTRIBUTE_KEY@),
                )
                &&& e.ordering@.event_value() == <Order as AttributeValue>::normal_form(
                    first_value(pairs_view(parts.1@), ChannelOrderingAttribute::ATTRIBUTE_KEY@),
                )
                &&& e.conn_id_on_a@.event_value() == <ConnectionId as AttributeValue>::normal_form(
                    first_value(pairs_view(parts.1@), PacketConnectionIdAttribute::ATTRIBUTE_KEY@),
                )
            },
            parts.0@ == AcknowledgePacket::EVENT_KIND@ ==> (r matches Err(e) ==> (e is MissingRawData <==> !(
                field_wrong::<TimeoutHeight>(pairs_view(parts.1@), TimeoutHeightAttribute::ATTRIBUTE_KEY@)
                || field_wrong::<TimeoutTimestamp>(pairs_view(parts.1@), TimeoutTimestampAttribute::ATTRIBUTE_KEY@)
                || field_wrong::<Sequence>(pairs_view(parts.1@), SequenceAttribute::ATTRIBUTE_KEY@)
                || field_wrong::<PortId>(pairs_view(parts.1@), SrcPortIdAttribute::ATTRIBUTE_KEY@)
                || field_wrong::<ChannelId>(pairs_view(parts.1@), SrcChannelIdAttribute::ATTRIBUTE_KEY@)
                || field_wrong::<PortId>(pairs_view(parts.1@), DstPortIdAttribute::ATTRIBUTE_KEY@)
                || field_wrong::<ChannelId>(pairs_view(parts.1@), DstChannelIdAttribute::ATTRIBUTE_KEY@)
                || field_wrong::<Order>(pairs_view(parts.1@), ChannelOrderingAttribute::ATTRIBUTE_KEY@)
                || field_wrong::<ConnectionId>(pairs_view(parts.1@), PacketConnectionIdAttribute::ATTRIBUTE_KEY@)))),
            forall|x: AcknowledgePacket|
                #[trigger] x.abci_view() == (parts.0@, pairs_view(parts.1@)) && x.fields_read_back() ==> (r matches Ok(y)
                    && y.abci_view() == x.abci_view()),
            forall|x: AcknowledgePacket|
                #[trigger] x.abci_view() == (parts.0@, pairs_view(parts.1@)) && x.fields_read_back() && x.fields_canonical()
                    ==> (r matches Ok(y) && y.same_values(x)),
    {
        let (kind, pairs) = parts;
        <AcknowledgePacket as TryFrom<Event>>::try_from(Event::from_pairs(kind, pairs))
    }
}

impl vstd::std_specs::convert::TryFromSpecImpl<(String, Vec<(String, String)>)> for AcknowledgePacket {
    open spec fn obeys_try_from_spec() -> bool {
        false
    }

    open spec fn try_from_spec(v: (String, Vec<(String, String)>)) -> Result<AcknowledgePacket, DecodingError> {
        arbitrary()
    }
}

/// The `timeout_packet` event: a sent packet timed out.
#[derive(Clone, Debug, PartialEq, Eq)]
pub struct TimeoutPacket {
    pub timeout_height_on_b: TimeoutHeightAttribute,
    pub timeout_timestamp_on_b: TimeoutTimestampAttribute,
    pub seq_on_a: SequenceAttribute,
    pub port_id_on_a: SrcPortIdAttribute,
    pub chan_id_on_a: SrcChannelIdAttribute,
    pub port_id_on_b: DstPortIdAttribute,
    pub chan_id_on_b: DstChannelIdAttribute,
    pub ordering: ChannelOrderingAttribute,
}

impl TimeoutPacket {
    /// The kind of this event in ABCI.
    pub const EVENT_KIND: &'static str = "timeout_packet";

    /// The event with the given attribute values.
    pub fn new(timeout_height_on_b: TimeoutHeight, timeout_timestamp_on_b: TimeoutTimestamp, seq_on_a: Sequence, port_id_on_a: PortId, chan_id_on_a: ChannelId, port_id_on_b: PortId, chan_id_on_b: ChannelId, ordering: Order) -> (r: TimeoutPacket)
        ensures
            r.timeout_height_on_b@ == timeout_height_on_b,
            r.timeout_timestamp_on_b@ == timeout_timestamp_on_b,
            r.seq_on_a@ == seq_on_a,
            r.port_id_on_a@ == port_id_on_a,
            r.chan_id_on_a@ == chan_id_on_a,
            r.port_id_on_b@ == port_id_on_b,
            r.chan_id_on_b@ == chan_id_on_b,
            r.ordering@ == ordering,
    {
        TimeoutPacket { timeout_height_on_b: TimeoutHeightAttribute::new(timeout_height_on_b), timeout_timestamp_on_b: TimeoutTimestampAttribute::new(timeout_timestamp_on_b), seq_on_a: SequenceAttribute::new(seq_on_a), port_id_on_a: SrcPortIdAttribute::new(port_id_on_a), chan_id_on_a: SrcChannelIdAttribute::new(chan_id_on_a), port_id_on_b: DstPortIdAttribute::new(port_id_on_b), chan_id_on_b: DstChannelIdAttribute::new(chan_id_on_b), ordering: ChannelOrderingAttribute::new(ordering) }
    }

    /// The value of the `timeout_height_on_b` attribute.
    pub fn timeout_height_on_b(&self) -> (r: &TimeoutHeight)
        ensures
            *r == self.timeout_height_on_b@,
    {
        self.timeout_height_on_b.value()
    }

    /// The value of the `timeout_timestamp_on_b` attribute.
    pub fn timeout_timestamp_on_b(&self) -> (r: &TimeoutTimestamp)
        ensures
            *r == self.timeout_timestamp_on_b@,
    {
        self.timeout_timestamp_on_b.value()
    }

    /// The value of the `seq_on_a` attribute.
    pub fn seq_on_a(&self) -> (r: &Sequence)
        ensures
            *r == self.seq_on_a@,
    {
        self.seq_on_a.value()
    }

    /// The value of the `port_id_on_a` attribute.
    pub fn port_id_on_a(&self) -> (r: &PortId)
        ensures
            *r == self.port_id_on_a@,
    {
        self.port_id_on_a.value()
    }

    /// The value of the `chan_id_on_a` attribute.
    pub fn chan_id_on_a(&self) -> (r: &ChannelId)
        ensures
            *r == self.chan_id_on_a@,
    {
        self.chan_id_on_a.value()
    }

    /// The value of the `port_id_on_b` attribute.
    pub fn port_id_on_b(&self) -> (r: &PortId)
        ensures
            *r == self.port_id_on_b@,
    {
        self.port_id_on_b.value()
    }

    /// The value of the `chan_id_on_b` attribute.
    pub fn chan_id_on_b(&self) -> (r: &ChannelId)
        ensures
            *r == self.chan_id_on_b@,
    {
        self.chan_id_on_b.value()
    }

    /// The value of the `ordering` attribute.
    pub fn ordering(&self) -> (r: &Order)
        ensures
            *r == self.ordering@,
    {
        self.ordering.value()
    }

    /// The ABCI event that this event becomes: its kind, and its
    /// attributes in the order of the fields.
    pub open spec fn abci_view(self) -> (Seq<char>, Seq<(Seq<char>, Seq<char>, bool)>) {
        (Self::EVENT_KIND@, seq![self.timeout_height_on_b.attribute_view(), self.timeout_timestamp_on_b.attribute_view(), self.seq_on_a.attribute_view(), self.port_id_on_a.attribute_view(), self.chan_id_on_a.attribute_view(), self.port_id_on_b.attribute_view(), self.chan_id_on_b.attribute_view(), self.ordering.attribute_view()])
    }
}

/// The event as an ABCI event: its kind and its attributes in the order of
/// the fields. A spec function cannot build the strings of an `Event`, so
/// `from` states its result in its own `ensures`.
impl From<TimeoutPacket> for Event {
    fn from(event: TimeoutPacket) -> (r: Event)
        ensures
            r@ == event.abci_view(),
    {
        let ghost view = event.abci_view();
        let attributes = vec![
            EventAttribute::from(event.timeout_height_on_b),
            EventAttribute::from(event.timeout_timestamp_on_b),
            EventAttribute::from(event.seq_on_a),
            EventAttribute::from(event.port_id_on_a),
            EventAttribute::from(event.chan_id_on_a),
            EventAttribute::from(event.port_id_on_b),
            EventAttribute::from(event.chan_id_on_b),
            EventAttribute::from(event.ordering),
        ];
        let r = Event { kind: String::from_str(TimeoutPacket::EVENT_KIND), attributes };
        assert(attributes_view(r.attributes@) =~= view.1);
        r
    }
}

impl vstd::std_specs::convert::FromSpecImpl<TimeoutPacket> for Event {
    open spec fn obeys_from_spec() -> bool {
        false
    }

    open spec fn from_spec(v: TimeoutPacket) -> Event {
        arbitrary()
    }
}

impl TimeoutPacket {
    /// Whether the spelling of every attribute value reads back as itself.
    pub open spec fn fields_read_back(self) -> bool {
        &&& reads_back(self.timeout_height_on_b@)
        &&& reads_back(self.timeout_timestamp_on_b@)
        &&& reads_back(self.seq_on_a@)
        &&& reads_back(self.port_id_on_a@)
        &&& reads_back(self.chan_id_on_a@)
        &&& reads_back(self.port_id_on_b@)
        &&& reads_back(self.chan_id_on_b@)
        &&& reads_back(self.ordering@)
    }

    /// Whether every attribute value is the one its spelling is read as.
    pub open spec fn fields_canonical(self) -> bool {
        &&& self.timeout_height_on_b@.canonical()
        &&& self.timeout_timestamp_on_b@.canonical()
        &&& self.seq_on_a@.canonical()
        &&& self.port_id_on_a@.canonical()
        &&& self.chan_id_on_a@.canonical()
        &&& self.port_id_on_b@.canonical()
        &&& self.chan_id_on_b@.canonical()
        &&& self.ordering@.canonical()
    }

    /// Whether the two events hold the same values, attribute by
    /// attribute.
    pub open spec fn same_values(self, other: TimeoutPacket) -> bool {
        &&& self.timeout_height_on_b@.same_value(other.timeout_height_on_b@)
        &&& self.timeout_timestamp_on_b@.same_value(other.timeout_timestamp_on_b@)
        &&& self.seq_on_a@.same_value(other.seq_on_a@)
        &&& self.port_id_on_a@.same_value(other.port_id_on_a@)
        &&& self.chan_id_on_a@.same_value(other.chan_id_on_a@)
        &&& self.port_id_on_b@.same_value(other.port_id_on_b@)
        &&& self.chan_id_on_b@.same_value(other.chan_id_on_b@)
        &&& self.ordering@.same_value(other.ordering@)
    }
}

/// Reads the event back from its ABCI form. The kind must be this event's;
/// each attribute of the event must occur once and hold a value of its
/// type, and attributes with other keys are passed over. Where several
/// attributes are wrong, the error is that of the first wrong attribute
/// in the list, and where none is wrong but some are missing, that of the
/// first missing one in the order of the fields.
impl TryFrom<Event> for TimeoutPacket {
    type Error = DecodingError;

    fn try_from(event: Event) -> (r: Result<TimeoutPacket, DecodingError>)
        ensures
            event@.0 != TimeoutPacket::EVENT_KIND@ ==> (r matches Err(
                DecodingError::MismatchedResourceName { expected, actual },
            ) && expected@ == TimeoutPacket::EVENT_KIND@ && actual@ == event@.0),
            r is Ok <==> event@.0 == TimeoutPacket::EVENT_KIND@
                && field_readable::<TimeoutHeight>(event@.1, TimeoutHeightAttribute::ATTRIBUTE_KEY@)
                && field_readable::<TimeoutTimestamp>(event@.1, TimeoutTimestampAttribute::ATTRIBUTE_KEY@)
                && field_readable::<Sequence>(event@.1, SequenceAttribute::ATTRIBUTE_KEY@)
                && field_readable::<PortId>(event@.1, SrcPortIdAttribute::ATTRIBUTE_KEY@)
                && field_readable::<ChannelId>(event@.1, SrcChannelIdAttribute::ATTRIBUTE_KEY@)
                && field_readable::<PortId>(event@.1, DstPortIdAttribute::ATTRIBUTE_KEY@)
                && field_readable::<ChannelId>(event@.1, DstChannelIdAttribute::ATTRIBUTE_KEY@)
                && field_readable::<Order>(event@.1, ChannelOrderingAttribute::ATTRIBUTE_KEY@),
            r matches Ok(e) ==> {
                &&& e.timeout_height_on_b@.event_value() == <TimeoutHeight as AttributeValue>::normal_form(
                    first_value(event@.1, TimeoutHeightAttribute::ATTRIBUTE_KEY@),
                )
                &&& e.timeout_timestamp_on_b@.event_value() == <TimeoutTimestamp as AttributeValue>::normal_form(
                    first_value(event@.1, TimeoutTimestampAttribute::ATTRIBUTE_KEY@),
                )
                &&& e.seq_on_a@.event_value() == <Sequence as AttributeValue>::normal_form(
                    first_value(event@.1, SequenceAttribute::ATTRIBUTE_KEY@),
                )
                &&& e.port_id_on_a@.event_value() == <PortId as AttributeValue>::normal_form(
                    first_value(event@.1, SrcPortIdAttribute::ATTRIBUTE_KEY@),
                )
                &&& e.chan_id_on_a@.event_value() == <ChannelId as AttributeValue>::normal_form(
                    first_value(event@.1, SrcChannelIdAttribute::ATTRIBUTE_KEY@),
                )
                &&& e.port_id_on_b@.event_value() == <PortId as AttributeValue>::normal_form(
                    first_value(event@.1, DstPortIdAttribute::ATTRIBUTE_KEY@),
                )
                &&& e.chan_id_on_b@.event_value() == <ChannelId as AttributeValue>::normal_form(
                    first_value(event@.1, DstChannelIdAttribute::ATTRIBUTE_KEY@),
                )
                &&& e.ordering@.event_value() == <Order as AttributeValue>::normal_form(
                    first_value(event@.1, ChannelOrderingAttribute::ATTRIBUTE_KEY@),
                )
            },
            event@.0 == TimeoutPacket::EVENT_KIND@ ==> (r matches Err(e) ==> (e is MissingRawData <==> !(
                field_wrong::<TimeoutHeight>(event@.1, TimeoutHeightAttribute::ATTRIBUTE_KEY@)
                || field_wrong::<TimeoutTimestamp>(event@.1, TimeoutTimestampAttribute::ATTRIBUTE_KEY@)
                || field_wrong::<Sequence>(event@.1, SequenceAttribute::ATTRIBUTE_KEY@)
                || field_wrong::<PortId>(event@.1, SrcPortIdAttribute::ATTRIBUTE_KEY@)
                || field_wrong::<ChannelId>(event@.1, SrcChannelIdAttribute::ATTRIBUTE_KEY@)
                || field_wrong::<PortId>(event@.1, DstPortIdAttribute::ATTRIBUTE_KEY@)
                || field_wrong::<ChannelId>(event@.1, DstChannelIdAttribute::ATTRIBUTE_KEY@)
                || field_wrong::<Order>(event@.1, ChannelOrderingAttribute::ATTRIBUTE_KEY@)))),
            forall|x: TimeoutPacket|
                #[trigger] x.abci_view() == event@ && x.fields_read_back() ==> (r matches Ok(y)
                    && y.abci_view() == x.abci_view()),
            forall|x: TimeoutPacket|
                #[trigger] x.abci_view() == event@ && x.fields_read_back() && x.fields_canonical()
                    ==> (r matches Ok(y) && y.same_values(x)),
    {
        proof {
            assert forall|x: TimeoutPacket| #[trigger] x.abci_view() == event@ && x.fields_read_back()
                implies {
                &&& field_readable::<TimeoutHeight>(event@.1, TimeoutHeightAttribute::ATTRIBUTE_KEY@)
                &&& first_value(event@.1, TimeoutHeightAttribute::ATTRIBUTE_KEY@) == x.timeout_height_on_b@.event_value()
                &&& field_readable::<TimeoutTimestamp>(event@.1, TimeoutTimestampAttribute::ATTRIBUTE_KEY@)
                &&& first_value(event@.1, TimeoutTimestampAttribute::ATTRIBUTE_KEY@) == x.timeout_timestamp_on_b@.event_value()
                &&& field_readable::<Sequence>(event@.1, SequenceAttribute::ATTRIBUTE_KEY@)
                &&& first_value(event@.1, SequenceAttribute::ATTRIBUTE_KEY@) == x.seq_on_a@.event_value()
                &&& field_readable::<PortId>(event@.1, SrcPortIdAttribute::ATTRIBUTE_KEY@)
                &&& first_value(event@.1, SrcPortIdAttribute::ATTRIBUTE_KEY@) == x.port_id_on_a@.event_value()
                &&& field_readable::<ChannelId>(event@.1, SrcChannelIdAttribute::ATTRIBUTE_KEY@)
                &&& first_value(event@.1, SrcChannelIdAttribute::ATTRIBUTE_KEY@) == x.chan_id_on_a@.event_value()
                &&& field_readable::<PortId>(event@.1, DstPortIdAttribute::ATTRIBUTE_KEY@)
                &&& first_value(event@.1, DstPortIdAttribute::ATTRIBUTE_KEY@) == x.port_id_on_b@.event_value()
                &&& field_readable::<ChannelId>(event@.1, DstChannelIdAttribute::ATTRIBUTE_KEY@)
                &&& first_value(event@.1, DstChannelIdAttribute::ATTRIBUTE_KEY@) == x.chan_id_on_b@.event_value()
                &&& field_readable::<Order>(event@.1, ChannelOrderingAttribute::ATTRIBUTE_KEY@)
                &&& first_value(event@.1, ChannelOrderingAttribute::ATTRIBUTE_KEY@) == x.ordering@.event_value()
            } by {
                let s = x.abci_view().1;
                reveal_strlit("packet_channel_ordering");
                reveal_strlit("packet_dst_channel");
                reveal_strlit("packet_dst_port");
                reveal_strlit("packet_sequence");
                reveal_strlit("packet_src_channel");
                reveal_strlit("packet_src_port");
                reveal_strlit("packet_timeout_height");
                reveal_strlit("packet_timeout_timestamp");
                assert("packet_dst_channel"@[7] != "packet_src_channel"@[7]);
                assert("packet_dst_port"@[7] != "packet_sequence"@[7]);
                assert("packet_dst_port"@[7] != "packet_src_port"@[7]);
                assert("packet_sequence"@[8] != "packet_src_port"@[8]);
                assert(s.take(8) =~= s);
                assert(s.take(8).drop_last() =~= s.take(7));
                assert(s.take(7).drop_last() =~= s.take(6));
                assert(s.take(6).drop_last() =~= s.take(5));
                assert(s.take(5).drop_last() =~= s.take(4));
                assert(s.take(4).drop_last() =~= s.take(3));
                assert(s.take(3).drop_last() =~= s.take(2));
                assert(s.take(2).drop_last() =~= s.take(1));
                assert(s.take(1).drop_last() =~= s.take(0));
                reveal_with_fuel(keys_distinct, 9);
                reveal_with_fuel(key_absent, 9);
                assert(s[0].0 == TimeoutHeightAttribute::ATTRIBUTE_KEY@ && s[0].0.len() == 21);
                assert(s[1].0 == TimeoutTimestampAttribute::ATTRIBUTE_KEY@ && s[1].0.len() == 24);
                assert(s[2].0 == SequenceAttribute::ATTRIBUTE_KEY@ && s[2].0.len() == 15);
                assert(s[3].0 == SrcPortIdAttribute::ATTRIBUTE_KEY@ && s[3].0.len() == 15);
                assert(s[4].0 == SrcChannelIdAttribute::ATTRIBUTE_KEY@ && s[4].0.len() == 18);
                assert(s[5].0 == DstPortIdAttribute::ATTRIBUTE_KEY@ && s[5].0.len() == 15);
                assert(s[6].0 == DstChannelIdAttribute::ATTRIBUTE_KEY@ && s[6].0.len() == 18);
                assert(s[7].0 == ChannelOrderingAttribute::ATTRIBUTE_KEY@ && s[7].0.len() == 23);
                assert(s.take(1).last() == s[0]);
                assert(key_absent(s.take(0), s[0].0));
                assert(keys_distinct(s.take(1)));
                assert(s.take(2).last() == s[1]);
                assert(key_absent(s.take(1), s[1].0));
                assert(keys_distinct(s.take(2)));
                assert(s.take(3).last() == s[2]);
                assert(key_absent(s.take(2), s[2].0));
                assert(keys_distinct(s.take(3)));
                assert(s.take(4).last() == s[3]);
                assert(key_absent(s.take(3), s[3].0));
                assert(keys_distinct(s.take(4)));
                assert(s.take(5).last() == s[4]);
                assert(key_absent(s.take(4), s[4].0));
                assert(keys_distinct(s.take(5)));
                assert(s.take(6).last() == s[5]);
                assert(key_absent(s.take(5), s[5].0));
                assert(keys_distinct(s.take(6)));
                assert(s.take(7).last() == s[6]);
                assert(key_absent(s.take(6), s[6].0));
                assert(keys_distinct(s.take(7)));
                assert(s.take(8).last() == s[7]);
                assert(key_absent(s.take(7), s[7].0));
                assert(keys_distinct(s.take(8)));
                lemma_distinct_keys(s, 0);
                lemma_distinct_keys(s, 1);
                lemma_distinct_keys(s, 2);
                lemma_distinct_keys(s, 3);
                lemma_distinct_keys(s, 4);
                lemma_distinct_keys(s, 5);
                lemma_distinct_keys(s, 6);
                lemma_distinct_keys(s, 7);
                assert(s[0].0 == TimeoutHeightAttribute::ATTRIBUTE_KEY@ && s[0].1 == x.timeout_height_on_b@.event_value());
                assert(s[1].0 == TimeoutTimestampAttribute::ATTRIBUTE_KEY@ && s[1].1 == x.timeout_timestamp_on_b@.event_value());
                assert(s[2].0 == SequenceAttribute::ATTRIBUTE_KEY@ && s[2].1 == x.seq_on_a@.event_value());
                assert(s[3].0 == SrcPortIdAttribute::ATTRIBUTE_KEY@ && s[3].1 == x.port_id_on_a@.event_value());
                assert(s[4].0 == SrcChannelIdAttribute::ATTRIBUTE_KEY@ && s[4].1 == x.chan_id_on_a@.event_value());
                assert(s[5].0 == DstPortIdAttribute::ATTRIBUTE_KEY@ && s[5].1 == x.port_id_on_b@.event_value());
                assert(s[6].0 == DstChannelIdAttribute::ATTRIBUTE_KEY@ && s[6].1 == x.chan_id_on_b@.event_value());
                assert(s[7].0 == ChannelOrderingAttribute::ATTRIBUTE_KEY@ && s[7].1 == x.ordering@.event_value());
            }
        }
        let expected = String::from_str(TimeoutPacket::EVENT_KIND);
        if !(event.kind == expected) {
            return Err(DecodingError::MismatchedResourceName { expected, actual: event.kind });
        }
        let mut failure: Option<(usize, DecodingError)> = None;
        let timeout_height_on_b = match scan_field::<TimeoutHeight>(
            &event.attributes,
            TimeoutHeightAttribute::ATTRIBUTE_KEY,
            TimeoutHeightAttribute::FRIENDLY_NAME,
        ) {
            FieldScan::Found(v) => Some(v),
            FieldScan::Missing => None,
            FieldScan::Failed { at, error } => {
                failure = earlier_failure(failure, at, error);
                None
            },
        };
        let timeout_timestamp_on_b = match scan_field::<TimeoutTimestamp>(
            &event.attributes,
            TimeoutTimestampAttribute::ATTRIBUTE_KEY,
            TimeoutTimestampAttribute::FRIENDLY_NAME,
        ) {
            FieldScan::Found(v) => Some(v),
            FieldScan::Missing => None,
            FieldScan::Failed { at, error } => {
                failure = earlier_failure(failure, at, error);
                None
            },
        };
        let seq_on_a = match scan_field::<Sequence>(
            &event.attributes,
            SequenceAttribute::ATTRIBUTE_KEY,
            SequenceAttribute::FRIENDLY_NAME,
        ) {
            FieldScan::Found(v) => Some(v),
            FieldScan::Missing => None,
            FieldScan::Failed { at, error } => {
                failure = earlier_failure(failure, at, error);
                None
            },
        };
        let port_id_on_a = match scan_field::<PortId>(
            &event.attributes,
            SrcPortIdAttribute::ATTRIBUTE_KEY,
            SrcPortIdAttribute::FRIENDLY_NAME,
        ) {
            FieldScan::Found(v) => Some(v),
            FieldScan::Missing => None,
            FieldScan::Failed { at, error } => {
                failure = earlier_failure(failure, at, error);
                None
            },
        };
        let chan_id_on_a = match scan_field::<ChannelId>(
            &event.attributes,
            SrcChannelIdAttribute::ATTRIBUTE_KEY,
            SrcChannelIdAttribute::FRIENDLY_NAME,
        ) {
            FieldScan::Found(v) => Some(v),
            FieldScan::Missing => None,
            FieldScan::Failed { at, error } => {
                failure = earlier_failure(failure, at, error);
                None
            },
        };
        let port_id_on_b = match scan_field::<PortId>(
            &event.attributes,
            DstPortIdAttribute::ATTRIBUTE_KEY,
            DstPortIdAttribute::FRIENDLY_NAME,
        ) {
            FieldScan::Found(v) => Some(v),
            FieldScan::Missing => None,
            FieldScan::Failed { at, error } => {
                failure = earlier_failure(failure, at, error);
                None
            },
        };
        let chan_id_on_b = match scan_field::<ChannelId>(
            &event.attributes,
            DstChannelIdAttribute::ATTRIBUTE_KEY,
            DstChannelIdAttribute::FRIENDLY_NAME,
        ) {
            FieldScan::Found(v) => Some(v),
            FieldScan::Missing => None,
            FieldScan::Failed { at, error } => {
                failure = earlier_failure(failure, at, error);
                None
            },
        };
        let ordering = match scan_field::<Order>(
            &event.attributes,
            ChannelOrderingAttribute::ATTRIBUTE_KEY,
            ChannelOrderingAttribute::FRIENDLY_NAME,
        ) {
            FieldScan::Found(v) => Some(v),
            FieldScan::Missing => None,
            FieldScan::Failed { at, error } => {
                failure = earlier_failure(failure, at, error);
                None
            },
        };
        if let Some((_, error)) = failure {
            return Err(error);
        }
        let timeout_height_on_b = match timeout_height_on_b {
            Some(v) => TimeoutHeightAttribute(v),
            None => {
                return Err(missing_attribute(TimeoutHeightAttribute::FRIENDLY_NAME));
            },
        };
        let timeout_timestamp_on_b = match timeout_timestamp_on_b {
            Some(v) => TimeoutTimestampAttribute(v),
            None => {
                return Err(missing_attribute(TimeoutTimestampAttribute::FRIENDLY_NAME));
            },
        };
        let seq_on_a = match seq_on_a {
            Some(v) => SequenceAttribute(v),
            None => {
                return Err(missing_attribute(SequenceAttribute::FRIENDLY_NAME));
            },
        };
        let port_id_on_a = match port_id_on_a {
            Some(v) => SrcPortIdAttribute(v),
            None => {
                return Err(missing_attribute(SrcPortIdAttribute::FRIENDLY_NAME));
            },
        };
        let chan_id_on_a = match chan_id_on_a {
            Some(v) => SrcChannelIdAttribute(v),
            None => {
                return Err(missing_attribute(SrcChannelIdAttribute::FRIENDLY_NAME));
            },
        };
        let port_id_on_b = match port_id_on_b {
            Some(v) => DstPortIdAttribute(v),
            None => {
                return Err(missing_attribute(DstPortIdAttribute::FRIENDLY_NAME));
            },
        };
        let chan_id_on_b = match chan_id_on_b {
            Some(v) => DstChannelIdAttribute(v),
            None => {
                return Err(missing_attribute(DstChannelIdAttribute::FRIENDLY_NAME));
            },
        };
        let ordering = match ordering {
            Some(v) => ChannelOrderingAttribute(v),
            None => {
                return Err(missing_attribute(ChannelOrderingAttribute::FRIENDLY_NAME));
            },
        };
        let r = TimeoutPacket { timeout_height_on_b, timeout_timestamp_on_b, seq_on_a, port_id_on_a, chan_id_on_a, port_id_on_b, chan_id_on_b, ordering };
        proof {
            assert forall|x: TimeoutPacket| #[trigger] x.abci_view() == event@ && x.fields_read_back()
                implies r.abci_view() == x.abci_view() by {
                assert(r.abci_view().1 =~= x.abci_view().1);
            }
            assert forall|x: TimeoutPacket|
                #[trigger] x.abci_view() == event@ && x.fields_read_back() && x.fields_canonical()
                implies r.same_values(x) by {
                <TimeoutHeight as AttributeValue>::lemma_spelling_injective(r.timeout_height_on_b@, x.timeout_height_on_b@);
                <TimeoutTimestamp as AttributeValue>::lemma_spelling_injective(r.timeout_timestamp_on_b@, x.timeout_timestamp_on_b@);
                <Sequence as AttributeValue>::lemma_spelling_injective(r.seq_on_a@, x.seq_on_a@);
                <PortId as AttributeValue>::lemma_spelling_injective(r.port_id_on_a@, x.port_id_on_a@);
                <ChannelId as AttributeValue>::lemma_spelling_injective(r.chan_id_on_a@, x.chan_id_on_a@);
                <PortId as AttributeValue>::lemma_spelling_injective(r.port_id_on_b@, x.port_id_on_b@);
                <ChannelId as AttributeValue>::lemma_spelling_injective(r.chan_id_on_b@, x.chan_id_on_b@);
                <Order as AttributeValue>::lemma_spelling_injective(r.ordering@, x.ordering@);
            }
        }
        Ok(r)
    }
}

impl vstd::std_specs::convert::TryFromSpecImpl<Event> for TimeoutPacket {
    open spec fn obeys_try_from_spec() -> bool {
        false
    }

    open spec fn try_from_spec(v: Event) -> Result<TimeoutPacket, DecodingError> {
        arbitrary()
    }
}

/// Reads the event from its kind and its attributes given as key-value
/// pairs, as `try_from` reads the ABCI event with those attributes.
impl TryFrom<(String, Vec<(String, String)>)> for TimeoutPacket {
    type Error = DecodingError;

    fn try_from(parts: (String, Vec<(String, String)>)) -> (r: Result<TimeoutPacket, DecodingError>)
        ensures
            parts.0@ != TimeoutPacket::EVENT_KIND@ ==> (r matches Err(
                DecodingError::MismatchedResourceName { expected, actual },
            ) && expected@ == TimeoutPacket::EVENT_KIND@ && actual@ == parts.0@),
            r is Ok <==> parts.0@ == TimeoutPacket::EVENT_KIND@
                && field_readable::<TimeoutHeight>(pairs_view(parts.1@), TimeoutHeightAttribute::ATTRIBUTE_KEY@)
                && field_readable::<TimeoutTimestamp>(pairs_view(parts.1@), TimeoutTimestampAttribute::ATTRIBUTE_KEY@)
                && field_readable::<Sequence>(pairs_view(parts.1@), SequenceAttribute::ATTRIBUTE_KEY@)
                && field_readable::<PortId>(pairs_view(parts.1@), SrcPortIdAttribute::ATTRIBUTE_KEY@)
                && field_readable::<ChannelId>(pairs_view(parts.1@), SrcChannelIdAttribute::ATTRIBUTE_KEY@)
                && field_readable::<PortId>(pairs_view(parts.1@), DstPortIdAttribute::ATTRIBUTE_KEY@)
                && field_readable::<ChannelId>(pairs_view(parts.1@), DstChannelIdAttribute::ATTRIBUTE_KEY@)
                && field_readable::<Order>(pairs_view(parts.1@), ChannelOrderingAttribute::ATTRIBUTE_KEY@),
            r matches Ok(e) ==> {
                &&& e.timeout_height_on_b@.event_value() == <TimeoutHeight as AttributeValue>::normal_form(
                    first_value(pairs_view(parts.1@), TimeoutHeightAttribute::ATTRIBUTE_KEY@),
                )
                &&& e.timeout_timestamp_on_b@.event_value() == <TimeoutTimestamp as AttributeValue>::normal_form(
                    first_value(pairs_view(parts.1@), TimeoutTimestampAttribute::ATTRIBUTE_KEY@),
                )
                &&& e.seq_on_a@.event_value() == <Sequence as AttributeValue>::normal_form(
                    first_value(pairs_view(parts.1@), SequenceAttribute::ATTRIBUTE_KEY@),
                )
                &&& e.port_id_on_a@.event_value() == <PortId as AttributeValue>::normal_form(
                    first_value(pairs_view(parts.1@), SrcPortIdAttribute::ATTRIBUTE_KEY@),
                )
                &&& e.chan_id_on_a@.event_value() == <ChannelId as AttributeValue>::normal_form(
                    first_value(pairs_view(parts.1@), SrcChannelIdAttribute::ATTRIBUTE_KEY@),
                )
                &&& e.port_id_on_b@.event_value() == <PortId as AttributeValue>::normal_form(
                    first_value(pairs_view(parts.1@), DstPortIdAttribute::ATTRIBUTE_KEY@),
                )
                &&& e.chan_id_on_b@.event_value() == <ChannelId as AttributeValue>::normal_form(
                    first_value(pairs_view(parts.1@), DstChannelIdAttribute::ATTRIBUTE_KEY@),
                )
                &&& e.ordering@.event_value() == <Order as AttributeValue>::normal_form(
                    first_value(pairs_view(parts.1@), ChannelOrderingAttribute::ATTRIBUTE_KEY@),
                )
            },
            parts.0@ == TimeoutPacket::EVENT_KIND@ ==> (r matches Err(e) ==> (e is MissingRawData <==> !(
                field_wrong::<TimeoutHeight>(pairs_view(parts.1@), TimeoutHeightAttribute::ATTRIBUTE_KEY@)
                || field_wrong::<TimeoutTimestamp>(pairs_view(parts.1@), TimeoutTimestampAttribute::ATTRIBUTE_KEY@)
                || field_wrong::<Sequence>(pairs_view(parts.1@), SequenceAttribute::ATTRIBUTE_KEY@)
                || field_wrong::<PortId>(pairs_view(parts.1@), SrcPortIdAttribute::ATTRIBUTE_KEY@)
                || field_wrong::<ChannelId>(pairs_view(parts.1@), SrcChannelIdAttribute::ATTRIBUTE_KEY@)
                || field_wrong::<PortId>(pairs_view(parts.1@), DstPortIdAttribute::ATTRIBUTE_KEY@)
                || field_wrong::<ChannelId>(pairs_view(parts.1@), DstChannelIdAttribute::ATTRIBUTE_KEY@)
                || field_wrong::<Order>(pairs_view(parts.1@), ChannelOrderingAttribute::ATTRIBUTE_KEY@)))),
            forall|x: TimeoutPacket|
                #[trigger] x.abci_view() == (parts.0@, pairs_view(parts.1@)) && x.fields_read_back() ==> (r matches Ok(y)
                    && y.abci_view() == x.abci_view()),
            forall|x: TimeoutPacket|
                #[trigger] x.abci_view() == (parts.0@, pairs_view(parts.1@)) && x.fields_read_back() && x.fields_canonical()
                    ==> (r matches Ok(y) && y.same_values(x)),
    {
        let (kind, pairs) = parts;
        <TimeoutPacket as TryFrom<Event>>::try_from(Event::from_pairs(kind, pairs))
    }
}

impl vstd::std_specs::convert::TryFromSpecImpl<(String, Vec<(String, String)>)> for TimeoutPacket {
    open spec fn obeys_try_from_spec() -> bool {
        false
    }

    open spec fn try_from_spec(v: (String, Vec<(String, String)>)) -> Result<TimeoutPacket, DecodingError> {
        arbitrary()
    }
}

} // verus!
