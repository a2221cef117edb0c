//! Events of the connection handshake, emitted towards relayers.
use vstd::prelude::*;
use crate::abci::{attributes_view, pairs_view, Event, EventAttribute};
use crate::attribute::{reads_back, AttributeValue, Newtype};
use crate::decode::{
    earlier_failure, field_readable, field_wrong, first_value, keys_distinct, key_absent,
    lemma_distinct_keys, missing_attribute, scan_field, FieldScan,
};
use crate::handler_events::DecodingError;
use crate::identifiers::{ClientId, ConnectionId};

verus! {

/// The `connection_id` attribute: the connection on the emitting chain.
#[derive(Clone, Debug, PartialEq, Eq)]
pub struct ConnectionIdAttribute(pub ConnectionId);

impl ConnectionIdAttribute {
    /// The key of this attribute in an ABCI event.
    pub const ATTRIBUTE_KEY: &'static str = "connection_id";

    /// How errors name this attribute.
    pub const FRIENDLY_NAME: &'static str = "connection ID";

    /// The attribute holding `value`.
    pub fn new(value: ConnectionId) -> (r: ConnectionIdAttribute)
        ensures
            r@ == value,
    {
        ConnectionIdAttribute(value)
    }

    /// The value held.
    pub fn value(&self) -> (r: &ConnectionId)
        ensures
            *r == self@,
    {
        &self.0
    }

    /// The ABCI attribute that this attribute becomes: its key, its value
    /// spelled out, not indexed.
    pub open spec fn attribute_view(self) -> (Seq<char>, Seq<char>, bool) {
        (Self::ATTRIBUTE_KEY@, self@.event_value(), false)
    }

    /// Reads the attribute from the text of its value.
    pub fn parse(text: &str) -> (r: Result<ConnectionIdAttribute, DecodingError>)
        ensures
            r is Ok <==> <ConnectionId as AttributeValue>::accepts(text@),
            r matches Ok(a) ==> a@.event_value() == <ConnectionId as AttributeValue>::normal_form(text@),
            r matches Ok(a) ==> a@.canonical(),
    {
        match <ConnectionId as AttributeValue>::parse_event_value(text) {
            Ok(v) => Ok(ConnectionIdAttribute(v)),
            Err(e) => Err(e),
        }
    }
}

impl core::str::FromStr for ConnectionIdAttribute {
    type Err = DecodingError;

    fn from_str(text: &str) -> Result<ConnectionIdAttribute, DecodingError> {
        ConnectionIdAttribute::parse(text)
    }
}

/// Reads the attribute from an ABCI attribute: the key must be this
/// attribute's, and the value is read as `parse` reads it.
impl TryFrom<EventAttribute> for ConnectionIdAttribute {
    type Error = DecodingError;

    fn try_from(attribute: EventAttribute) -> (r: Result<ConnectionIdAttribute, DecodingError>)
        ensures
            attribute@.0 != ConnectionIdAttribute::ATTRIBUTE_KEY@ ==> (r matches Err(
                DecodingError::MismatchedResourceName { expected, actual },
            ) && expected@ == ConnectionIdAttribute::ATTRIBUTE_KEY@ && actual@ == attribute@.0),
            r is Ok <==> attribute@.0 == ConnectionIdAttribute::ATTRIBUTE_KEY@
                && <ConnectionId as AttributeValue>::accepts(attribute@.1),
            r matches Ok(a) ==> a@.event_value() == <ConnectionId as AttributeValue>::normal_form(attribute@.1),
            forall|x: ConnectionIdAttribute|
                #[trigger] x.attribute_view() == attribute@ && reads_back(x@) ==> (r matches Ok(y)
                    && y.attribute_view() == x.attribute_view()),
            forall|x: ConnectionIdAttribute|
                #[trigger] x.attribute_view() == attribute@ && reads_back(x@) && x@.canonical() ==> (
                r matches Ok(y) && y@.same_value(x@)),
    {
        let expected = String::from_str(ConnectionIdAttribute::ATTRIBUTE_KEY);
        if !(attribute.key == expected) {
            return Err(DecodingError::MismatchedResourceName { expected, actual: attribute.key });
        }
        let r = ConnectionIdAttribute::parse(attribute.value.as_str());
        proof {
            assert forall|x: ConnectionIdAttribute|
                #[trigger] x.attribute_view() == attribute@ && reads_back(x@) && x@.canonical()
                implies r matches Ok(y) && y@.same_value(x@) by {
                <ConnectionId as AttributeValue>::lemma_spelling_injective(r->Ok_0@, x@);
            }
        }
        r
    }
}

impl vstd::std_specs::convert::TryFromSpecImpl<EventAttribute> for ConnectionIdAttribute {
    open spec fn obeys_try_from_spec() -> bool {
        false
    }

    open spec fn try_from_spec(v: EventAttribute) -> Result<ConnectionIdAttribute, DecodingError> {
        arbitrary()
    }
}

impl View for ConnectionIdAttribute {
    type V = ConnectionId;

    open spec fn view(&self) -> ConnectionId {
        self.0
    }
}

impl Newtype for ConnectionIdAttribute {
    type Inner = ConnectionId;
}

impl From<ConnectionId> for ConnectionIdAttribute {
    fn from(inner: ConnectionId) -> (r: ConnectionIdAttribute) {
        ConnectionIdAttribute(inner)
    }
}

impl vstd::std_specs::convert::FromSpecImpl<ConnectionId> for ConnectionIdAttribute {
    open spec fn obeys_from_spec() -> bool {
        true
    }

    open spec fn from_spec(v: ConnectionId) -> ConnectionIdAttribute {
        ConnectionIdAttribute(v)
    }
}

impl From<ConnectionIdAttribute> for ConnectionId {
    fn from(attribute: ConnectionIdAttribute) -> (r: ConnectionId) {
        attribute.0
    }
}

impl vstd::std_specs::convert::FromSpecImpl<ConnectionIdAttribute> for ConnectionId {
    open spec fn obeys_from_spec() -> bool {
        true
    }

    open spec fn from_spec(v: ConnectionIdAttribute) -> ConnectionId {
        v@
    }
}

/// The attribute as an ABCI attribute: its key and its value spelled out,
/// not indexed. A spec function cannot build the strings of an
/// `EventAttribute`, so `from` states its result in its own `ensures`.
impl From<ConnectionIdAttribute> for EventAttribute {
    fn from(attribute: ConnectionIdAttribute) -> (r: EventAttribute)
        ensures
            r@ == attribute.attribute_view(),
    {
        let value = attribute.0.to_event_value();
        EventAttribute::new(ConnectionIdAttribute::ATTRIBUTE_KEY, value, false)
    }
}

impl vstd::std_specs::convert::FromSpecImpl<ConnectionIdAttribute> for EventAttribute {
    open spec fn obeys_from_spec() -> bool {
        false
    }

    open spec fn from_spec(v: ConnectionIdAttribute) -> EventAttribute {
        arbitrary()
    }
}

/// The `client_id` attribute: the client on the emitting chain.
#[derive(Clone, Debug, PartialEq, Eq)]
pub struct ClientIdAttribute(pub ClientId);

impl ClientIdAttribute {
    /// The key of this attribute in an ABCI event.
    pub const ATTRIBUTE_KEY: &'static str = "client_id";

    /// How errors name this attribute.
    pub const FRIENDLY_NAME: &'static str = "connection ID";

    /// The attribute holding `value`.
    pub fn new(value: ClientId) -> (r: ClientIdAttribute)
        ensures
            r@ == value,
    {
        ClientIdAttribute(value)
    }

    /// The value held.
    pub fn value(&self) -> (r: &ClientId)
        ensures
            *r == self@,
    {
        &self.0
    }

    /// The ABCI attribute that this attribute becomes: its key, its value
    /// spelled out, not indexed.
    pub open spec fn attribute_view(self) -> (Seq<char>, Seq<char>, bool) {
        (Self::ATTRIBUTE_KEY@, self@.event_value(), false)
    }

    /// Reads the attribute from the text of its value.
    pub fn parse(text: &str) -> (r: Result<ClientIdAttribute, DecodingError>)
        ensures
            r is Ok <==> <ClientId as AttributeValue>::accepts(text@),
            r matches Ok(a) ==> a@.event_value() == <ClientId as AttributeValue>::normal_form(text@),
            r matches Ok(a) ==> a@.canonical(),
    {
        match <ClientId as AttributeValue>::parse_event_value(text) {
            Ok(v) => Ok(ClientIdAttribute(v)),
            Err(e) => Err(e),
        }
    }
}

impl core::str::FromStr for ClientIdAttribute {
    type Err = DecodingError;

    fn from_str(text: &str) -> Result<ClientIdAttribute, DecodingError> {
        ClientIdAttribute::parse(text)
    }
}

/// Reads the attribute from an ABCI attribute: the key must be this
/// attribute's, and the value is read as `parse` reads it.
impl TryFrom<EventAttribute> for ClientIdAttribute {
    type Error = DecodingError;

    fn try_from(attribute: EventAttribute) -> (r: Result<ClientIdAttribute, DecodingError>)
        ensures
            attribute@.0 != ClientIdAttribute::ATTRIBUTE_KEY@ ==> (r matches Err(
                DecodingError::MismatchedResourceName { expected, actual },
            ) && expected@ == ClientIdAttribute::ATTRIBUTE_KEY@ && actual@ == attribute@.0),
            r is Ok <==> attribute@.0 == ClientIdAttribute::ATTRIBUTE_KEY@
                && <ClientId as AttributeValue>::accepts(attribute@.1),
            r matches Ok(a) ==> a@.event_value() == <ClientId as AttributeValue>::normal_form(attribute@.1),
            forall|x: ClientIdAttribute|
                #[trigger] x.attribute_view() == attribute@ && reads_back(x@) ==> (r matches Ok(y)
                    && y.attribute_view() == x.attribute_view()),
            forall|x: ClientIdAttribute|
                #[trigger] x.attribute_view() == attribute@ && reads_back(x@) && x@.canonical() ==> (
                r matches Ok(y) && y@.same_value(x@)),
    {
        let expected = String::from_str(ClientIdAttribute::ATTRIBUTE_KEY);
        if !(attribute.key == expected) {
            return Err(DecodingError::MismatchedResourceName { expected, actual: attribute.key });
        }
        let r = ClientIdAttribute::parse(attribute.value.as_str());
        proof {
            assert forall|x: ClientIdAttribute|
                #[trigger] x.attribute_view() == attribute@ && reads_back(x@) && x@.canonical()
                implies r matches Ok(y) && y@.same_value(x@) by {
                <ClientId as AttributeValue>::lemma_spelling_injective(r->Ok_0@, x@);
            }
        }
        r
    }
}

impl vstd::std_specs::convert::TryFromSpecImpl<EventAttribute> for ClientIdAttribute {
    open spec fn obeys_try_from_spec() -> bool {
        false
    }

    open spec fn try_from_spec(v: EventAttribute) -> Result<ClientIdAttribute, DecodingError> {
        arbitrary()
    }
}

impl View for ClientIdAttribute {
    type V = ClientId;

    open spec fn view(&self) -> ClientId {
        self.0
    }
}

impl Newtype for ClientIdAttribute {
    type Inner = ClientId;
}

impl From<ClientId> for ClientIdAttribute {
    fn from(inner: ClientId) -> (r: ClientIdAttribute) {
        ClientIdAttribute(inner)
    }
}

impl vstd::std_specs::convert::FromSpecImpl<ClientId> for ClientIdAttribute {
    open spec fn obeys_from_spec() -> bool {
        true
    }

    open spec fn from_spec(v: ClientId) -> ClientIdAttribute {
        ClientIdAttribute(v)
    }
}

impl From<ClientIdAttribute> for ClientId {
    fn from(attribute: ClientIdAttribute) -> (r: ClientId) {
        attribute.0
    }
}

impl vstd::std_specs::convert::FromSpecImpl<ClientIdAttribute> for ClientId {
    open spec fn obeys_from_spec() -> bool {
        true
    }

    open spec fn from_spec(v: ClientIdAttribute) -> ClientId {
        v@
    }
}

/// The attribute as an ABCI attribute: its key and its value spelled out,
/// not indexed. A spec function cannot build the strings of an
/// `EventAttribute`, so `from` states its result in its own `ensures`.
impl From<ClientIdAttribute> for EventAttribute {
    fn from(attribute: ClientIdAttribute) -> (r: EventAttribute)
        ensures
            r@ == attribute.attribute_view(),
    {
        let value = attribute.0.to_event_value();
        EventAttribute::new(ClientIdAttribute::ATTRIBUTE_KEY, value, false)
    }
}

impl vstd::std_specs::convert::FromSpecImpl<ClientIdAttribute> for EventAttribute {
    open spec fn obeys_from_spec() -> bool {
        false
    }

    open spec fn from_spec(v: ClientIdAttribute) -> EventAttribute {
        arbitrary()
    }
}

/// The `counterparty_connection_id` attribute: the connection on the counterparty chain.
#[derive(Clone, Debug, PartialEq, Eq)]
pub struct CounterpartyConnectionIdAttribute(pub ConnectionId);

impl CounterpartyConnectionIdAttribute {
    /// The key of this attribute in an ABCI event.
    pub const ATTRIBUTE_KEY: &'static str = "counterparty_connection_id";

    /// How errors name this attribute.
    pub const FRIENDLY_NAME: &'static str = "connection ID";

    /// The attribute holding `value`.
    pub fn new(value: ConnectionId) -> (r: CounterpartyConnectionIdAttribute)
        ensures
            r@ == value,
    {
        CounterpartyConnectionIdAttribute(value)
    }

    /// The value held.
    pub fn value(&self) -> (r: &ConnectionId)
        ensures
            *r == self@,
    {
        &self.0
    }

    /// The ABCI attribute that this attribute becomes: its key, its value
    /// spelled out, not indexed.
    pub open spec fn attribute_view(self) -> (Seq<char>, Seq<char>, bool) {
        (Self::ATTRIBUTE_KEY@, self@.event_value(), false)
    }

    /// Reads the attribute from the text of its value.
    pub fn parse(text: &str) -> (r: Result<CounterpartyConnectionIdAttribute, DecodingError>)
        ensures
            r is Ok <==> <ConnectionId as AttributeValue>::accepts(text@),
            r matches Ok(a) ==> a@.event_value() == <ConnectionId as AttributeValue>::normal_form(text@),
            r matches Ok(a) ==> a@.canonical(),
    {
        match <ConnectionId as AttributeValue>::parse_event_value(text) {
            Ok(v) => Ok(CounterpartyConnectionIdAttribute(v)),
            Err(e) => Err(e),
        }
    }
}

impl core::str::FromStr for CounterpartyConnectionIdAttribute {
    type Err = DecodingError;

    fn from_str(text: &str) -> Result<CounterpartyConnectionIdAttribute, DecodingError> {
        CounterpartyConnectionIdAttribute::parse(text)
    }
}

/// Reads the attribute from an ABCI attribute: the key must be this
/// attribute's, and the value is read as `parse` reads it.
impl TryFrom<EventAttribute> for CounterpartyConnectionIdAttribute {
    type Error = DecodingError;

    fn try_from(attribute: EventAttribute) -> (r: Result<CounterpartyConnectionIdAttribute, DecodingError>)
        ensures
            attribute@.0 != CounterpartyConnectionIdAttribute::ATTRIBUTE_KEY@ ==> (r matches Err(
                DecodingError::MismatchedResourceName { expected, actual },
            ) && expected@ == CounterpartyConnectionIdAttribute::ATTRIBUTE_KEY@ && actual@ == attribute@.0),
            r is Ok <==> attribute@.0 == CounterpartyConnectionIdAttribute::ATTRIBUTE_KEY@
                && <ConnectionId as AttributeValue>::accepts(attribute@.1),
            r matches Ok(a) ==> a@.event_value() == <ConnectionId as AttributeValue>::normal_form(attribute@.1),
            forall|x: CounterpartyConnectionIdAttribute|
                #[trigger] x.attribute_view() == attribute@ && reads_back(x@) ==> (r matches Ok(y)
                    && y.attribute_view() == x.attribute_view()),
            forall|x: CounterpartyConnectionIdAttribute|
                #[trigger] x.attribute_view() == attribute@ && reads_back(x@) && x@.canonical() ==> (
                r matches Ok(y) && y@.same_value(x@)),
    {
        let expected = String::from_str(CounterpartyConnectionIdAttribute::ATTRIBUTE_KEY);
        if !(attribute.key == expected) {
            return Err(DecodingError::MismatchedResourceName { expected, actual: attribute.key });
        }
        let r = CounterpartyConnectionIdAttribute::parse(attribute.value.as_str());
        proof {
            assert forall|x: CounterpartyConnectionIdAttribute|
                #[trigger] x.attribute_view() == attribute@ && reads_back(x@) && x@.canonical()
                implies r matches Ok(y) && y@.same_value(x@) by {
                <ConnectionId as AttributeValue>::lemma_spelling_injective(r->Ok_0@, x@);
            }
        }
        r
    }
}

impl vstd::std_specs::convert::TryFromSpecImpl<EventAttribute> for CounterpartyConnectionIdAttribute {
    open spec fn obeys_try_from_spec() -> bool {
        false
    }

    open spec fn try_from_spec(v: EventAttribute) -> Result<CounterpartyConnectionIdAttribute, DecodingError> {
        arbitrary()
    }
}

impl View for CounterpartyConnectionIdAttribute {
    type V = ConnectionId;

    open spec fn view(&self) -> ConnectionId {
        self.0
    }
}

impl Newtype for CounterpartyConnectionIdAttribute {
    type Inner = ConnectionId;
}

impl From<ConnectionId> for CounterpartyConnectionIdAttribute {
    fn from(inner: ConnectionId) -> (r: CounterpartyConnectionIdAttribute) {
        CounterpartyConnectionIdAttribute(inner)
    }
}

impl vstd::std_specs::convert::FromSpecImpl<ConnectionId> for CounterpartyConnectionIdAttribute {
    open spec fn obeys_from_spec() -> bool {
        true
    }

    open spec fn from_spec(v: ConnectionId) -> CounterpartyConnectionIdAttribute {
        CounterpartyConnectionIdAttribute(v)
    }
}

impl From<CounterpartyConnectionIdAttribute> for ConnectionId {
    fn from(attribute: CounterpartyConnectionIdAttribute) -> (r: ConnectionId) {
        attribute.0
    }
}

impl vstd::std_specs::convert::FromSpecImpl<CounterpartyConnectionIdAttribute> for ConnectionId {
    open spec fn obeys_from_spec() -> bool {
        true
    }

    open spec fn from_spec(v: CounterpartyConnectionIdAttribute) -> ConnectionId {
        v@
    }
}

/// The attribute as an ABCI attribute: its key and its value spelled out,
/// not indexed. A spec function cannot build the strings of an
/// `EventAttribute`, so `from` states its result in its own `ensures`.
impl From<CounterpartyConnectionIdAttribute> for EventAttribute {
    fn from(attribute: CounterpartyConnectionIdAttribute) -> (r: EventAttribute)
        ensures
            r@ == attribute.attribute_view(),
    {
        let value = attribute.0.to_event_value();
        EventAttribute::new(CounterpartyConnectionIdAttribute::ATTRIBUTE_KEY, value, false)
    }
}

impl vstd::std_specs::convert::FromSpecImpl<CounterpartyConnectionIdAttribute> for EventAttribute {
    open spec fn obeys_from_spec() -> bool {
        false
    }

    open spec fn from_spec(v: CounterpartyConnectionIdAttribute) -> EventAttribute {
        arbitrary()
    }
}

/// The `counterparty_client_id` attribute: the client on the counterparty chain.
#[derive(Clone, Debug, PartialEq, Eq)]
pub struct CounterpartyClientIdAttribute(pub ClientId);

impl CounterpartyClientIdAttribute {
    /// The key of this attribute in an ABCI event.
    pub const ATTRIBUTE_KEY: &'static str = "counterparty_client_id";

    /// How errors name this attribute.
    pub const FRIENDLY_NAME: &'static str = "connection ID";

    /// The attribute holding `value`.
    pub fn new(value: ClientId) -> (r: CounterpartyClientIdAttribute)
        ensures
            r@ == value,
    {
        CounterpartyClientIdAttribute(value)
    }

    /// The value held.
    pub fn value(&self) -> (r: &ClientId)
        ensures
            *r == self@,
    {
        &self.0
    }

    /// The ABCI attribute that this attribute becomes: its key, its value
    /// spelled out, not indexed.
    pub open spec fn attribute_view(self) -> (Seq<char>, Seq<char>, bool) {
        (Self::ATTRIBUTE_KEY@, self@.event_value(), false)
    }

    /// Reads the attribute from the text of its value.
    pub fn parse(text: &str) -> (r: Result<CounterpartyClientIdAttribute, DecodingError>)
        ensures
            r is Ok <==> <ClientId as AttributeValue>::accepts(text@),
            r matches Ok(a) ==> a@.event_value() == <ClientId as AttributeValue>::normal_form(text@),
            r matches Ok(a) ==> a@.canonical(),
    {
        match <ClientId as AttributeValue>::parse_event_value(text) {
            Ok(v) => Ok(CounterpartyClientIdAttribute(v)),
            Err(e) => Err(e),
        }
    }
}

impl core::str::FromStr for CounterpartyClientIdAttribute {
    type Err = DecodingError;

    fn from_str(text: &str) -> Result<CounterpartyClientIdAttribute, DecodingError> {
        CounterpartyClientIdAttribute::parse(text)
    }
}

/// Reads the attribute from an ABCI attribute: the key must be this
/// attribute's, and the value is read as `parse` reads it.
impl TryFrom<EventAttribute> for CounterpartyClientIdAttribute {
    type Error = DecodingError;

    fn try_from(attribute: EventAttribute) -> (r: Result<CounterpartyClientIdAttribute, DecodingError>)
        ensures
            attribute@.0 != CounterpartyClientIdAttribute::ATTRIBUTE_KEY@ ==> (r matches Err(
                DecodingError::MismatchedResourceName { expected, actual },
            ) && expected@ == CounterpartyClientIdAttribute::ATTRIBUTE_KEY@ && actual@ == attribute@.0),
            r is Ok <==> attribute@.0 == CounterpartyClientIdAttribute::ATTRIBUTE_KEY@
                && <ClientId as AttributeValue>::accepts(attribute@.1),
            r matches Ok(a) ==> a@.event_value() == <ClientId as AttributeValue>::normal_form(attribute@.1),
            forall|x: CounterpartyClientIdAttribute|
                #[trigger] x.attribute_view() == attribute@ && reads_back(x@) ==> (r matches Ok(y)
                    && y.attribute_view() == x.attribute_view()),
            forall|x: CounterpartyClientIdAttribute|
                #[trigger] x.attribute_view() == attribute@ && reads_back(x@) && x@.canonical() ==> (
                r matches Ok(y) && y@.same_value(x@)),
    {
        let expected = String::from_str(CounterpartyClientIdAttribute::ATTRIBUTE_KEY);
        if !(attribute.key == expected) {
            return Err(DecodingError::MismatchedResourceName { expected, actual: attribute.key });
        }
        let r = CounterpartyClientIdAttribute::parse(attribute.value.as_str());
        proof {
            assert forall|x: CounterpartyClientIdAttribute|
                #[trigger] x.attribute_view() == attribute@ && reads_back(x@) && x@.canonical()
                implies r matches Ok(y) && y@.same_value(x@) by {
                <ClientId as AttributeValue>::lemma_spelling_injective(r->Ok_0@, x@);
            }
        }
        r
    }
}

impl vstd::std_specs::convert::TryFromSpecImpl<EventAttribute> for CounterpartyClientIdAttribute {
    open spec fn obeys_try_from_spec() -> bool {
        false
    }

    open spec fn try_from_spec(v: EventAttribute) -> Result<CounterpartyClientIdAttribute, DecodingError> {
        arbitrary()
    }
}

impl View for CounterpartyClientIdAttribute {
    type V = ClientId;

    open spec fn view(&self) -> ClientId {
        self.0
    }
}

impl Newtype for CounterpartyClientIdAttribute {
    type Inner = ClientId;
}

impl From<ClientId> for CounterpartyClientIdAttribute {
    fn from(inner: ClientId) -> (r: CounterpartyClientIdAttribute) {
        CounterpartyClientIdAttribute(inner)
    }
}

impl vstd::std_specs::convert::FromSpecImpl<ClientId> for CounterpartyClientIdAttribute {
    open spec fn obeys_from_spec() -> bool {
        true
    }

    open spec fn from_spec(v: ClientId) -> CounterpartyClientIdAttribute {
        CounterpartyClientIdAttribute(v)
    }
}

impl From<CounterpartyClientIdAttribute> for ClientId {
    fn from(attribute: CounterpartyClientIdAttribute) -> (r: ClientId) {
        attribute.0
    }
}

impl vstd::std_specs::convert::FromSpecImpl<CounterpartyClientIdAttribute> for ClientId {
    open spec fn obeys_from_spec() -> bool {
        true
    }

    open spec fn from_spec(v: CounterpartyClientIdAttribute) -> ClientId {
        v@
    }
}

/// The attribute as an ABCI attribute: its key and its value spelled out,
/// not indexed. A spec function cannot build the strings of an
/// `EventAttribute`, so `from` states its result in its own `ensures`.
impl From<CounterpartyClientIdAttribute> for EventAttribute {
    fn from(attribute: CounterpartyClientIdAttribute) -> (r: EventAttribute)
        ensures
            r@ == attribute.attribute_view(),
    {
        let value = attribute.0.to_event_value();
        EventAttribute::new(CounterpartyClientIdAttribute::ATTRIBUTE_KEY, value, false)
    }
}

impl vstd::std_specs::convert::FromSpecImpl<CounterpartyClientIdAttribute> for EventAttribute {
    open spec fn obeys_from_spec() -> bool {
        false
    }

    open spec fn from_spec(v: CounterpartyClientIdAttribute) -> EventAttribute {
        arbitrary()
    }
}

/// The `connection_open_init` event: a connection handshake was started.
#[derive(Clone, Debug, PartialEq, Eq)]
pub struct OpenInit {
    pub conn_id_on_a: ConnectionIdAttribute,
    pub client_id_on_a: ClientIdAttribute,
    pub client_id_on_b: CounterpartyClientIdAttribute,
}

impl OpenInit {
    /// The kind of this event in ABCI.
    pub const EVENT_KIND: &'static str = "connection_open_init";

    /// The event with the given attribute values.
    pub fn new(conn_id_on_a: ConnectionId, client_id_on_a: ClientId, client_id_on_b: ClientId) -> (r: OpenInit)
        ensures
            r.conn_id_on_a@ == conn_id_on_a,
            r.client_id_on_a@ == client_id_on_a,
            r.client_id_on_b@ == client_id_on_b,
    {
        OpenInit { conn_id_on_a: ConnectionIdAttribute::new(conn_id_on_a), client_id_on_a: ClientIdAttribute::new(client_id_on_a), client_id_on_b: CounterpartyClientIdAttribute::new(client_id_on_b) }
    }

    /// The value of the `conn_id_on_a` attribute.
    pub fn conn_id_on_a(&self) -> (r: &ConnectionId)
        ensures
            *r == self.conn_id_on_a@,
    {
        self.conn_id_on_a.value()
    }

    /// The value of the `client_id_on_a` attribute.
    pub fn client_id_on_a(&self) -> (r: &ClientId)
        ensures
            *r == self.client_id_on_a@,
    {
        self.client_id_on_a.value()
    }

    /// The value of the `client_id_on_b` attribute.
    pub fn client_id_on_b(&self) -> (r: &ClientId)
        ensures
            *r == self.client_id_on_b@,
    {
        self.client_id_on_b.value()
    }

    /// The ABCI event that this event becomes: its kind, and its
    /// attributes in the order of the fields.
    pub open spec fn abci_view(self) -> (Seq<char>, Seq<(Seq<char>, Seq<char>, bool)>) {
        (Self::EVENT_KIND@, seq![self.conn_id_on_a.attribute_view(), self.client_id_on_a.attribute_view(), self.client_id_on_b.attribute_view()])
    }
}

/// The event as an ABCI event: its kind and its attributes in the order of
/// the fields. A spec function cannot build the strings of an `Event`, so
/// `from` states its result in its own `ensures`.
impl From<OpenInit> for Event {
    fn from(event: OpenInit) -> (r: Event)
        ensures
            r@ == event.abci_view(),
    {
        let ghost view = event.abci_view();
        let attributes = vec![
            EventAttribute::from(event.conn_id_on_a),
            EventAttribute::from(event.client_id_on_a),
            EventAttribute::from(event.client_id_on_b),
        ];
        let r = Event { kind: String::from_str(OpenInit::EVENT_KIND), attributes };
        assert(attributes_view(r.attributes@) =~= view.1);
        r
    }
}

impl vstd::std_specs::convert::FromSpecImpl<OpenInit> for Event {
    open spec fn obeys_from_spec() -> bool {
        false
    }

    open spec fn from_spec(v: OpenInit) -> Event {
        arbitrary()
    }
}

impl OpenInit {
    /// Whether the spelling of every attribute value reads back as itself.
    pub open spec fn fields_read_back(self) -> bool {
        &&& reads_back(self.conn_id_on_a@)
        &&& reads_back(self.client_id_on_a@)
        &&& reads_back(self.client_id_on_b@)
    }

    /// Whether every attribute value is the one its spelling is read as.
    pub open spec fn fields_canonical(self) -> bool {
        &&& self.conn_id_on_a@.canonical()
        &&& self.client_id_on_a@.canonical()
        &&& self.client_id_on_b@.canonical()
    }

    /// Whether the two events hold the same values, attribute by
    /// attribute.
    pub open spec fn same_values(self, other: OpenInit) -> bool {
        &&& self.conn_id_on_a@.same_value(other.conn_id_on_a@)
        &&& self.client_id_on_a@.same_value(other.client_id_on_a@)
        &&& self.client_id_on_b@.same_value(other.client_id_on_b@)
    }
}

/// Reads the event back from its ABCI form. The kind must be this event's;
/// each attribute of the event must occur once and hold a value of its
/// type, and attributes with other keys are passed over. Where several
/// attributes are wrong, the error is that of the first wrong attribute
/// in the list, and where none is wrong but some are missing, that of the
/// first missing one in the order of the fields.
impl TryFrom<Event> for OpenInit {
    type Error = DecodingError;

    fn try_from(event: Event) -> (r: Result<OpenInit, DecodingError>)
        ensures
            event@.0 != OpenInit::EVENT_KIND@ ==> (r matches Err(
                DecodingError::MismatchedResourceName { expected, actual },
            ) && expected@ == OpenInit::EVENT_KIND@ && actual@ == event@.0),
            r is Ok <==> event@.0 == OpenInit::EVENT_KIND@
                && field_readable::<ConnectionId>(event@.1, ConnectionIdAttribute::ATTRIBUTE_KEY@)
                && field_readable::<ClientId>(event@.1, ClientIdAttribute::ATTRIBUTE_KEY@)
                && field_readable::<ClientId>(event@.1, CounterpartyClientIdAttribute::ATTRIBUTE_KEY@),
            r matches Ok(e) ==> {
                &&& e.conn_id_on_a@.event_value() == <ConnectionId as AttributeValue>::normal_form(
                    first_value(event@.1, ConnectionIdAttribute::ATTRIBUTE_KEY@),
                )
                &&& e.client_id_on_a@.event_value() == <ClientId as AttributeValue>::normal_form(
                    first_value(event@.1, ClientIdAttribute::ATTRIBUTE_KEY@),
                )
                &&& e.client_id_on_b@.event_value() == <ClientId as AttributeValue>::normal_form(
                    first_value(event@.1, CounterpartyClientIdAttribute::ATTRIBUTE_KEY@),
                )
            },
            event@.0 == OpenInit::EVENT_KIND@ ==> (r matches Err(e) ==> (e is MissingRawData <==> !(
                field_wrong::<ConnectionId>(event@.1, ConnectionIdAttribute::ATTRIBUTE_KEY@)
                || field_wrong::<ClientId>(event@.1, ClientIdAttribute::ATTRIBUTE_KEY@)
                || field_wrong::<ClientId>(event@.1, CounterpartyClientIdAttribute::ATTRIBUTE_KEY@)))),
            forall|x: OpenInit|
                #[trigger] x.abci_view() == event@ && x.fields_read_back() ==> (r matches Ok(y)
                    && y.abci_view() == x.abci_view()),
            forall|x: OpenInit|
                #[trigger] x.abci_view() == event@ && x.fields_read_back() && x.fields_canonical()
                    ==> (r matches Ok(y) && y.same_values(x)),
    {
        proof {
            assert forall|x: OpenInit| #[trigger] x.abci_view() == event@ && x.fields_read_back()
                implies {
                &&& field_readable::<ConnectionId>(event@.1, ConnectionIdAttribute::ATTRIBUTE_KEY@)
                &&& first_value(event@.1, ConnectionIdAttribute::ATTRIBUTE_KEY@) == x.conn_id_on_a@.event_value()
                &&& field_readable::<ClientId>(event@.1, ClientIdAttribute::ATTRIBUTE_KEY@)
                &&& first_value(event@.1, ClientIdAttribute::ATTRIBUTE_KEY@) == x.client_id_on_a@.event_value()
                &&& field_readable::<ClientId>(event@.1, CounterpartyClientIdAttribute::ATTRIBUTE_KEY@)
                &&& first_value(event@.1, CounterpartyClientIdAttribute::ATTRIBUTE_KEY@) == x.client_id_on_b@.event_value()
            } by {
                let s = x.abci_view().1;
                reveal_strlit("client_id");
                reveal_strlit("connection_id");
                reveal_strlit("counterparty_client_id");
                assert(s.take(3) =~= s);
                assert(s.take(3).drop_last() =~= s.take(2));
                assert(s.take(2).drop_last() =~= s.take(1));
                assert(s.take(1).drop_last() =~= s.take(0));
                reveal_with_fuel(keys_distinct, 4);
                reveal_with_fuel(key_absent, 4);
                assert(s[0].0 == ConnectionIdAttribute::ATTRIBUTE_KEY@ && s[0].0.len() == 13);
                assert(s[1].0 == ClientIdAttribute::ATTRIBUTE_KEY@ && s[1].0.len() == 9);
                assert(s[2].0 == CounterpartyClientIdAttribute::ATTRIBUTE_KEY@ && s[2].0.len() == 22);
                assert(s.take(1).last() == s[0]);
                assert(key_absent(s.take(0), s[0].0));
                assert(keys_distinct(s.take(1)));
                assert(s.take(2).last() == s[1]);
                assert(key_absent(s.take(1), s[1].0));
                assert(keys_distinct(s.take(2)));
                assert(s.take(3).last() == s[2]);
                assert(key_absent(s.take(2), s[2].0));
                assert(keys_distinct(s.take(3)));
                lemma_distinct_keys(s, 0);
                lemma_distinct_keys(s, 1);
                lemma_distinct_keys(s, 2);
                assert(s[0].0 == ConnectionIdAttribute::ATTRIBUTE_KEY@ && s[0].1 == x.conn_id_on_a@.event_value());
                assert(s[1].0 == ClientIdAttribute::ATTRIBUTE_KEY@ && s[1].1 == x.client_id_on_a@.event_value());
                assert(s[2].0 == CounterpartyClientIdAttribute::ATTRIBUTE_KEY@ && s[2].1 == x.client_id_on_b@.event_value());
            }
        }
        let expected = String::from_str(OpenInit::EVENT_KIND);
        if !(event.kind == expected) {
            return Err(DecodingError::MismatchedResourceName { expected, actual: event.kind });
        }
        let mut failure: Option<(usize, DecodingError)> = None;
        let conn_id_on_a = match scan_field::<ConnectionId>(
            &event.attributes,
            ConnectionIdAttribute::ATTRIBUTE_KEY,
            ConnectionIdAttribute::FRIENDLY_NAME,
        ) {
            FieldScan::Found(v) => Some(v),
            FieldScan::Missing => None,
            FieldScan::Failed { at, error } => {
                failure = earlier_failure(failure, at, error);
                None
            },
        };
        let client_id_on_a = match scan_field::<ClientId>(
            &event.attributes,
            ClientIdAttribute::ATTRIBUTE_KEY,
            ClientIdAttribute::FRIENDLY_NAME,
        ) {
            FieldScan::Found(v) => Some(v),
            FieldScan::Missing => None,
            FieldScan::Failed { at, error } => {
                failure = earlier_failure(failure, at, error);
                None
            },
        };
        let client_id_on_b = match scan_field::<ClientId>(
            &event.attributes,
            CounterpartyClientIdAttribute::ATTRIBUTE_KEY,
            CounterpartyClientIdAttribute::FRIENDLY_NAME,
        ) {
            FieldScan::Found(v) => Some(v),
            FieldScan::Missing => None,
            FieldScan::Failed { at, error } => {
                failure = earlier_failure(failure, at, error);
                None
            },
        };
        if let Some((_, error)) = failure {
            return Err(error);
        }
        let conn_id_on_a = match conn_id_on_a {
            Some(v) => ConnectionIdAttribute(v),
            None => {
                return Err(missing_attribute(ConnectionIdAttribute::FRIENDLY_NAME));
            },
        };
        let client_id_on_a = match client_id_on_a {
            Some(v) => ClientIdAttribute(v),
            None => {
                return Err(missing_attribute(ClientIdAttribute::FRIENDLY_NAME));
            },
        };
        let client_id_on_b = match client_id_on_b {
            Some(v) => CounterpartyClientIdAttribute(v),
            None => {
                return Err(missing_attribute(CounterpartyClientIdAttribute::FRIENDLY_NAME));
            },
        };
        let r = OpenInit { conn_id_on_a, client_id_on_a, client_id_on_b };
        proof {
            assert forall|x: OpenInit| #[trigger] x.abci_view() == event@ && x.fields_read_back()
                implies r.abci_view() == x.abci_view() by {
                assert(r.abci_view().1 =~= x.abci_view().1);
            }
            assert forall|x: OpenInit|
                #[trigger] x.abci_view() == event@ && x.fields_read_back() && x.fields_canonical()
                implies r.same_values(x) by {
                <ConnectionId as AttributeValue>::lemma_spelling_injective(r.conn_id_on_a@, x.conn_id_on_a@);
                <ClientId as AttributeValue>::lemma_spelling_injective(r.client_id_on_a@, x.client_id_on_a@);
                <ClientId as AttributeValue>::lemma_spelling_injective(r.client_id_on_b@, x.client_id_on_b@);
            }
        }
        Ok(r)
    }
}

impl vstd::std_specs::convert::TryFromSpecImpl<Event> for OpenInit {
    open spec fn obeys_try_from_spec() -> bool {
        false
    }

    open spec fn try_from_spec(v: Event) -> Result<OpenInit, DecodingError> {
        arbitrary()
    }
}

/// Reads the event from its kind and its attributes given as key-value
/// pairs, as `try_from` reads the ABCI event with those attributes.
impl TryFrom<(String, Vec<(String, String)>)> for OpenInit {
    type Error = DecodingError;

    fn try_from(parts: (String, Vec<(String, String)>)) -> (r: Result<OpenInit, DecodingError>)
        ensures
            parts.0@ != OpenInit::EVENT_KIND@ ==> (r matches Err(
                DecodingError::MismatchedResourceName { expected, actual },
            ) && expected@ == OpenInit::EVENT_KIND@ && actual@ == parts.0@),
            r is Ok <==> parts.0@ == OpenInit::EVENT_KIND@
                && field_readable::<ConnectionId>(pairs_view(parts.1@), ConnectionIdAttribute::ATTRIBUTE_KEY@)
                && field_readable::<ClientId>(pairs_view(parts.1@), ClientIdAttribute::ATTRIBUTE_KEY@)
                && field_readable::<ClientId>(pairs_view(parts.1@), CounterpartyClientIdAttribute::ATTRIBUTE_KEY@),
            r matches Ok(e) ==> {
                &&& e.conn_id_on_a@.event_value() == <ConnectionId as AttributeValue>::normal_form(
                    first_value(pairs_view(parts.1@), ConnectionIdAttribute::ATTRIBUTE_KEY@),
                )
                &&& e.client_id_on_a@.event_value() == <ClientId as AttributeValue>::normal_form(
                    first_value(pairs_view(parts.1@), ClientIdAttribute::ATTRIBUTE_KEY@),
                )
                &&& e.client_id_on_b@.event_value() == <ClientId as AttributeValue>::normal_form(
                    first_value(pairs_view(parts.1@), CounterpartyClientIdAttribute::ATTRIBUTE_KEY@),
                )
            },
            parts.0@ == OpenInit::EVENT_KIND@ ==> (r matches Err(e) ==> (e is MissingRawData <==> !(
                field_wrong::<ConnectionId>(pairs_view(parts.1@), ConnectionIdAttribute::ATTRIBUTE_KEY@)
                || field_wrong::<ClientId>(pairs_view(parts.1@), ClientIdAttribute::ATTRIBUTE_KEY@)
                || field_wrong::<ClientId>(pairs_view(parts.1@), CounterpartyClientIdAttribute::ATTRIBUTE_KEY@)))),
            forall|x: OpenInit|
                #[trigger] x.abci_view() == (parts.0@, pairs_view(parts.1@)) && x.fields_read_back() ==> (r matches Ok(y)
                    && y.abci_view() == x.abci_view()),
            forall|x: OpenInit|
                #[trigger] x.abci_view() == (parts.0@, pairs_view(parts.1@)) && x.fields_read_back() && x.fields_canonical()
                    ==> (r matches Ok(y) && y.same_values(x)),
    {
        let (kind, pairs) = parts;
        <OpenInit as TryFrom<Event>>::try_from(Event::from_pairs(kind, pairs))
    }
}

impl vstd::std_specs::convert::TryFromSpecImpl<(String, Vec<(String, String)>)> for OpenInit {
    open spec fn obeys_try_from_spec() -> bool {
        false
    }

    open spec fn try_from_spec(v: (String, Vec<(String, String)>)) -> Result<OpenInit, DecodingError> {
        arbitrary()
    }
}

/// The `connection_open_try` event: the counterparty answered a connection handshake.
#[derive(Clone, Debug, PartialEq, Eq)]
pub struct OpenTry {
    pub conn_id_on_a: ConnectionIdAttribute,
    pub client_id_on_a: ClientIdAttribute,
    pub conn_id_on_b: CounterpartyConnectionIdAttribute,
    pub client_id_on_b: CounterpartyClientIdAttribute,
}

impl OpenTry {
    /// The kind of this event in ABCI.
    pub const EVENT_KIND: &'static str = "connection_open_try";

    /// The event with the given attribute values.
    pub fn new(conn_id_on_a: ConnectionId, client_id_on_a: ClientId, conn_id_on_b: ConnectionId, client_id_on_b: ClientId) -> (r: OpenTry)
        ensures
            r.conn_id_on_a@ == conn_id_on_a,
            r.client_id_on_a@ == client_id_on_a,
            r.conn_id_on_b@ == conn_id_on_b,
            r.client_id_on_b@ == client_id_on_b,
    {
        OpenTry { conn_id_on_a: ConnectionIdAttribute::new(conn_id_on_a), client_id_on_a: ClientIdAttribute::new(client_id_on_a), conn_id_on_b: CounterpartyConnectionIdAttribute::new(conn_id_on_b), client_id_on_b: CounterpartyClientIdAttribute::new(client_id_on_b) }
    }

    /// The value of the `conn_id_on_a` attribute.
    pub fn conn_id_on_a(&self) -> (r: &ConnectionId)
        ensures
            *r == self.conn_id_on_a@,
    {
        self.conn_id_on_a.value()
    }

    /// The value of the `client_id_on_a` attribute.
    pub fn client_id_on_a(&self) -> (r: &ClientId)
        ensures
            *r == self.client_id_on_a@,
    {
        self.client_id_on_a.value()
    }

    /// The value of the `conn_id_on_b` attribute.
    pub fn conn_id_on_b(&self) -> (r: &ConnectionId)
        ensures
            *r == self.conn_id_on_b@,
    {
        self.conn_id_on_b.value()
    }

    /// The value of the `client_id_on_b` attribute.
    pub fn client_id_on_b(&self) -> (r: &ClientId)
        ensures
            *r == self.client_id_on_b@,
    {
        self.client_id_on_b.value()
    }

    /// The ABCI event that this event becomes: its kind, and its
    /// attributes in the order of the fields.
    pub open spec fn abci_view(self) -> (Seq<char>, Seq<(Seq<char>, Seq<char>, bool)>) {
        (Self::EVENT_KIND@, seq![self.conn_id_on_a.attribute_view(), self.client_id_on_a.attribute_view(), self.conn_id_on_b.attribute_view(), self.client_id_on_b.attribute_view()])
    }
}

/// The event as an ABCI event: its kind and its attributes in the order of
/// the fields. A spec function cannot build the strings of an `Event`, so
/// `from` states its result in its own `ensures`.
impl From<OpenTry> for Event {
    fn from(event: OpenTry) -> (r: Event)
        ensures
            r@ == event.abci_view(),
    {
        let ghost view = event.abci_view();
        let attributes = vec![
            EventAttribute::from(event.conn_id_on_a),
            EventAttribute::from(event.client_id_on_a),
            EventAttribute::from(event.conn_id_on_b),
            EventAttribute::from(event.client_id_on_b),
        ];
        let r = Event { kind: String::from_str(OpenTry::EVENT_KIND), attributes };
        assert(attributes_view(r.attributes@) =~= view.1);
        r
    }
}

impl vstd::std_specs::convert::FromSpecImpl<OpenTry> for Event {
    open spec fn obeys_from_spec() -> bool {
        false
    }

    open spec fn from_spec(v: OpenTry) -> Event {
        arbitrary()
    }
}

impl OpenTry {
    /// Whether the spelling of every attribute value reads back as itself.
    pub open spec fn fields_read_back(self) -> bool {
        &&& reads_back(self.conn_id_on_a@)
        &&& reads_back(self.client_id_on_a@)
        &&& reads_back(self.conn_id_on_b@)
        &&& reads_back(self.client_id_on_b@)
    }

    /// Whether every attribute value is the one its spelling is read as.
    pub open spec fn fields_canonical(self) -> bool {
        &&& self.conn_id_on_a@.canonical()
        &&& self.client_id_on_a@.canonical()
        &&& self.conn_id_on_b@.canonical()
        &&& self.client_id_on_b@.canonical()
    }

    /// Whether the two events hold the same values, attribute by
    /// attribute.
    pub open spec fn same_values(self, other: OpenTry) -> bool {
        &&& self.conn_id_on_a@.same_value(other.conn_id_on_a@)
        &&& self.client_id_on_a@.same_value(other.client_id_on_a@)
        &&& self.conn_id_on_b@.same_value(other.conn_id_on_b@)
        &&& self.client_id_on_b@.same_value(other.client_id_on_b@)
    }
}

/// Reads the event back from its ABCI form. The kind must be this event's;
/// each attribute of the event must occur once and hold a value of its
/// type, and attributes with other keys are passed over. Where several
/// attributes are wrong, the error is that of the first wrong attribute
/// in the list, and where none is wrong but some are missing, that of the
/// first missing one in the order of the fields.
impl TryFrom<Event> for OpenTry {
    type Error = DecodingError;

    fn try_from(event: Event) -> (r: Result<OpenTry, DecodingError>)
        ensures
            event@.0 != OpenTry::EVENT_KIND@ ==> (r matches Err(
                DecodingError::MismatchedResourceName { expected, actual },
            ) && expected@ == OpenTry::EVENT_KIND@ && actual@ == event@.0),
            r is Ok <==> event@.0 == OpenTry::EVENT_KIND@
                && field_readable::<ConnectionId>(event@.1, ConnectionIdAttribute::ATTRIBUTE_KEY@)
                && field_readable::<ClientId>(event@.1, ClientIdAttribute::ATTRIBUTE_KEY@)
                && field_readable::<ConnectionId>(event@.1, CounterpartyConnectionIdAttribute::ATTRIBUTE_KEY@)
                && field_readable::<ClientId>(event@.1, CounterpartyClientIdAttribute::ATTRIBUTE_KEY@),
            r matches Ok(e) ==> {
                &&& e.conn_id_on_a@.event_value() == <ConnectionId as AttributeValue>::normal_form(
                    first_value(event@.1, ConnectionIdAttribute::ATTRIBUTE_KEY@),
                )
                &&& e.client_id_on_a@.event_value() == <ClientId as AttributeValue>::normal_form(
                    first_value(event@.1, ClientIdAttribute::ATTRIBUTE_KEY@),
                )
                &&& e.conn_id_on_b@.event_value() == <ConnectionId as AttributeValue>::normal_form(
                    first_value(event@.1, CounterpartyConnectionIdAttribute::ATTRIBUTE_KEY@),
                )
                &&& e.client_id_on_b@.event_value() == <ClientId as AttributeValue>::normal_form(
                    first_value(event@.1, CounterpartyClientIdAttribute::ATTRIBUTE_KEY@),
                )
            },
            event@.0 == OpenTry::EVENT_KIND@ ==> (r matches Err(e) ==> (e is MissingRawData <==> !(
                field_wrong::<ConnectionId>(event@.1, ConnectionIdAttribute::ATTRIBUTE_KEY@)
                || field_wrong::<ClientId>(event@.1, ClientIdAttribute::ATTRIBUTE_KEY@)
                || field_wrong::<ConnectionId>(event@.1, CounterpartyConnectionIdAttribute::ATTRIBUTE_KEY@)
                || field_wrong::<ClientId>(event@.1, CounterpartyClientIdAttribute::ATTRIBUTE_KEY@)))),
            forall|x: OpenTry|
                #[trigger] x.abci_view() == event@ && x.fields_read_back() ==> (r matches Ok(y)
                    && y.abci_view() == x.abci_view()),
            forall|x: OpenTry|
                #[trigger] x.abci_view() == event@ && x.fields_read_back() && x.fields_canonical()
                    ==> (r matches Ok(y) && y.same_values(x)),
    {
        proof {
            assert forall|x: OpenTry| #[trigger] x.abci_view() == event@ && x.fields_read_back()
                implies {
                &&& field_readable::<ConnectionId>(event@.1, ConnectionIdAttribute::ATTRIBUTE_KEY@)
                &&& first_value(event@.1, ConnectionIdAttribute::ATTRIBUTE_KEY@) == x.conn_id_on_a@.event_value()
                &&& field_readable::<ClientId>(event@.1, ClientIdAttribute::ATTRIBUTE_KEY@)
                &&& first_value(event@.1, ClientIdAttribute::ATTRIBUTE_KEY@) == x.client_id_on_a@.event_value()
                &&& field_readable::<ConnectionId>(event@.1, CounterpartyConnectionIdAttribute::ATTRIBUTE_KEY@)
                &&& first_value(event@.1, CounterpartyConnectionIdAttribute::ATTRIBUTE_KEY@) == x.conn_id_on_b@.event_value()
                &&& field_readable::<ClientId>(event@.1, CounterpartyClientIdAttribute::ATTRIBUTE_KEY@)
                &&& first_value(event@.1, CounterpartyClientIdAttribute::ATTRIBUTE_KEY@) == x.client_id_on_b@.event_value()
            } by {
                let s = x.abci_view().1;
                reveal_strlit("client_id");
                reveal_strlit("connection_id");
                reveal_strlit("counterparty_client_id");
                reveal_strlit("counterparty_connection_id");
                assert(s.take(4) =~= s);
                assert(s.take(4).drop_last() =~= s.take(3));
                assert(s.take(3).drop_last() =~= s.take(2));
                assert(s.take(2).drop_last() =~= s.take(1));
                assert(s.take(1).drop_last() =~= s.take(0));
                reveal_with_fuel(keys_distinct, 5);
                reveal_with_fuel(key_absent, 5);
                assert(s[0].0 == ConnectionIdAttribute::ATTRIBUTE_KEY@ && s[0].0.len() == 13);
                assert(s[1].0 == ClientIdAttribute::ATTRIBUTE_KEY@ && s[1].0.len() == 9);
                assert(s[2].0 == CounterpartyConnectionIdAttribute::ATTRIBUTE_KEY@ && s[2].0.len() == 26);
                assert(s[3].0 == CounterpartyClientIdAttribute::ATTRIBUTE_KEY@ && s[3].0.len() == 22);
                assert(s.take(1).last() == s[0]);
                assert(key_absent(s.take(0), s[0].0));
                assert(keys_distinct(s.take(1)));
                assert(s.take(2).last() == s[1]);
                assert(key_absent(s.take(1), s[1].0));
                assert(keys_distinct(s.take(2)));
                assert(s.take(3).last() == s[2]);
                assert(key_absent(s.take(2), s[2].0));
                assert(keys_distinct(s.take(3)));
                assert(s.take(4).last() == s[3]);
                assert(key_absent(s.take(3), s[3].0));
                assert(keys_distinct(s.take(4)));
                lemma_distinct_keys(s, 0);
                lemma_distinct_keys(s, 1);
                lemma_distinct_keys(s, 2);
                lemma_distinct_keys(s, 3);
                assert(s[0].0 == ConnectionIdAttribute::ATTRIBUTE_KEY@ && s[0].1 == x.conn_id_on_a@.event_value());
                assert(s[1].0 == ClientIdAttribute::ATTRIBUTE_KEY@ && s[1].1 == x.client_id_on_a@.event_value());
                assert(s[2].0 == CounterpartyConnectionIdAttribute::ATTRIBUTE_KEY@ && s[2].1 == x.conn_id_on_b@.event_value());
                assert(s[3].0 == CounterpartyClientIdAttribute::ATTRIBUTE_KEY@ && s[3].1 == x.client_id_on_b@.event_value());
            }
        }
        let expected = String::from_str(OpenTry::EVENT_KIND);
        if !(event.kind == expected) {
            return Err(DecodingError::MismatchedResourceName { expected, actual: event.kind });
        }
        let mut failure: Option<(usize, DecodingError)> = None;
        let conn_id_on_a = match scan_field::<ConnectionId>(
            &event.attributes,
            ConnectionIdAttribute::ATTRIBUTE_KEY,
            ConnectionIdAttribute::FRIENDLY_NAME,
        ) {
            FieldScan::Found(v) => Some(v),
            FieldScan::Missing => None,
            FieldScan::Failed { at, error } => {
                failure = earlier_failure(failure, at, error);
                None
            },
        };
        let client_id_on_a = match scan_field::<ClientId>(
            &event.attributes,
            ClientIdAttribute::ATTRIBUTE_KEY,
            ClientIdAttribute::FRIENDLY_NAME,
        ) {
            FieldScan::Found(v) => Some(v),
            FieldScan::Missing => None,
            FieldScan::Failed { at, error } => {
                failure = earlier_failure(failure, at, error);
                None
            },
        };
        let conn_id_on_b = match scan_field::<ConnectionId>(
            &event.attributes,
            CounterpartyConnectionIdAttribute::ATTRIBUTE_KEY,
            CounterpartyConnectionIdAttribute::FRIENDLY_NAME,
        ) {
            FieldScan::Found(v) => Some(v),
            FieldScan::Missing => None,
            FieldScan::Failed { at, error } => {
                failure = earlier_failure(failure, at, error);
                None
            },
        };
        let client_id_on_b = match scan_field::<ClientId>(
            &event.attributes,
            CounterpartyClientIdAttribute::ATTRIBUTE_KEY,
            CounterpartyClientIdAttribute::FRIENDLY_NAME,
        ) {
            FieldScan::Found(v) => Some(v),
            FieldScan::Missing => None,
            FieldScan::Failed { at, error } => {
                failure = earlier_failure(failure, at, error);
                None
            },
        };
        if let Some((_, error)) = failure {
            return Err(error);
        }
        let conn_id_on_a = match conn_id_on_a {
            Some(v) => ConnectionIdAttribute(v),
            None => {
                return Err(missing_attribute(ConnectionIdAttribute::FRIENDLY_NAME));
            },
        };
        let client_id_on_a = match client_id_on_a {
            Some(v) => ClientIdAttribute(v),
            None => {
                return Err(missing_attribute(ClientIdAttribute::FRIENDLY_NAME));
            },
        };
        let conn_id_on_b = match conn_id_on_b {
            Some(v) => CounterpartyConnectionIdAttribute(v),
            None => {
                return Err(missing_attribute(CounterpartyConnectionIdAttribute::FRIENDLY_NAME));
            },
        };
        let client_id_on_b = match client_id_on_b {
            Some(v) => CounterpartyClientIdAttribute(v),
            None => {
                return Err(missing_attribute(CounterpartyClientIdAttribute::FRIENDLY_NAME));
            },
        };
        let r = OpenTry { conn_id_on_a, client_id_on_a, conn_id_on_b, client_id_on_b };
        proof {
            assert forall|x: OpenTry| #[trigger] x.abci_view() == event@ && x.fields_read_back()
                implies r.abci_view() == x.abci_view() by {
                assert(r.abci_view().1 =~= x.abci_view().1);
            }
            assert forall|x: OpenTry|
                #[trigger] x.abci_view() == event@ && x.fields_read_back() && x.fields_canonical()
                implies r.same_values(x) by {
                <ConnectionId as AttributeValue>::lemma_spelling_injective(r.conn_id_on_a@, x.conn_id_on_a@);
                <ClientId as AttributeValue>::lemma_spelling_injective(r.client_id_on_a@, x.client_id_on_a@);
                <ConnectionId as AttributeValue>::lemma_spelling_injective(r.conn_id_on_b@, x.conn_id_on_b@);
                <ClientId as AttributeValue>::lemma_spelling_injective(r.client_id_on_b@, x.client_id_on_b@);
            }
        }
        Ok(r)
    }
}

impl vstd::std_specs::convert::TryFromSpecImpl<Event> for OpenTry {
    open spec fn obeys_try_from_spec() -> bool {
        false
    }

    open spec fn try_from_spec(v: Event) -> Result<OpenTry, DecodingError> {
        arbitrary()
    }
}

/// Reads the event from its kind and its attributes given as key-value
/// pairs, as `try_from` reads the ABCI event with those attributes.
impl TryFrom<(String, Vec<(String, String)>)> for OpenTry {
    type Error = DecodingError;

    fn try_from(parts: (String, Vec<(String, String)>)) -> (r: Result<OpenTry, DecodingError>)
        ensures
            parts.0@ != OpenTry::EVENT_KIND@ ==> (r matches Err(
                DecodingError::MismatchedResourceName { expected, actual },
            ) && expected@ == OpenTry::EVENT_KIND@ && actual@ == parts.0@),
            r is Ok <==> parts.0@ == OpenTry::EVENT_KIND@
                && field_readable::<ConnectionId>(pairs_view(parts.1@), ConnectionIdAttribute::ATTRIBUTE_KEY@)
                && field_readable::<ClientId>(pairs_view(parts.1@), ClientIdAttribute::ATTRIBUTE_KEY@)
                && field_readable::<ConnectionId>(pairs_view(parts.1@), CounterpartyConnectionIdAttribute::ATTRIBUTE_KEY@)
                && field_readable::<ClientId>(pairs_view(parts.1@), CounterpartyClientIdAttribute::ATTRIBUTE_KEY@),
            r matches Ok(e) ==> {
                &&& e.conn_id_on_a@.event_value() == <ConnectionId as AttributeValue>::normal_form(
                    first_value(pairs_view(parts.1@), ConnectionIdAttribute::ATTRIBUTE_KEY@),
                )
                &&& e.client_id_on_a@.event_value() == <ClientId as AttributeValue>::normal_form(
                    first_value(pairs_view(parts.1@), ClientIdAttribute::ATTRIBUTE_KEY@),
                )
                &&& e.conn_id_on_b@.event_value() == <ConnectionId as AttributeValue>::normal_form(
                    first_value(pairs_view(parts.1@), CounterpartyConnectionIdAttribute::ATTRIBUTE_KEY@),
                )
                &&& e.client_id_on_b@.event_value() == <ClientId as AttributeValue>::normal_form(
                    first_value(pairs_view(parts.1@), CounterpartyClientIdAttribute::ATTRIBUTE_KEY@),
                )
            },
            parts.0@ == OpenTry::EVENT_KIND@ ==> (r matches Err(e) ==> (e is MissingRawData <==> !(
                field_wrong::<ConnectionId>(pairs_view(parts.1@), ConnectionIdAttribute::ATTRIBUTE_KEY@)
                || field_wrong::<ClientId>(pairs_view(parts.1@), ClientIdAttribute::ATTRIBUTE_KEY@)
                || field_wrong::<ConnectionId>(pairs_view(parts.1@), CounterpartyConnectionIdAttribute::ATTRIBUTE_KEY@)
                || field_wrong::<ClientId>(pairs_view(parts.1@), CounterpartyClientIdAttribute::ATTRIBUTE_KEY@)))),
            forall|x: OpenTry|
                #[trigger] x.abci_view() == (parts.0@, pairs_view(parts.1@)) && x.fields_read_back() ==> (r matches Ok(y)
                    && y.abci_view() == x.abci_view()),
            forall|x: OpenTry|
                #[trigger] x.abci_view() == (parts.0@, pairs_view(parts.1@)) && x.fields_read_back() && x.fields_canonical()
                    ==> (r matches Ok(y) && y.same_values(x)),
    {
        let (kind, pairs) = parts;
        <OpenTry as TryFrom<Event>>::try_from(Event::from_pairs(kind, pairs))
    }
}

impl vstd::std_specs::convert::TryFromSpecImpl<(String, Vec<(String, String)>)> for OpenTry {
    open spec fn obeys_try_from_spec() -> bool {
        false
    }

    open spec fn try_from_spec(v: (String, Vec<(String, String)>)) -> Result<OpenTry, DecodingError> {
        arbitrary()
    }
}

/// The `connection_open_ack` event: the initiator acknowledged a connection handshake.
#[derive(Clone, Debug, PartialEq, Eq)]
pub struct OpenAck {
    pub conn_id_on_a: ConnectionIdAttribute,
    pub client_id_on_a: ClientIdAttribute,
    pub conn_id_on_b: CounterpartyConnectionIdAttribute,
    pub client_id_on_b: CounterpartyClientIdAttribute,
}

impl OpenAck {
    /// The kind of this event in ABCI.
    pub const EVENT_KIND: &'static str = "connection_open_ack";

    /// The event with the given attribute values.
    pub fn new(conn_id_on_a: ConnectionId, client_id_on_a: ClientId, conn_id_on_b: ConnectionId, client_id_on_b: ClientId) -> (r: OpenAck)
        ensures
            r.conn_id_on_a@ == conn_id_on_a,
            r.client_id_on_a@ == client_id_on_a,
            r.conn_id_on_b@ == conn_id_on_b,
            r.client_id_on_b@ == client_id_on_b,
    {
        OpenAck { conn_id_on_a: ConnectionIdAttribute::new(conn_id_on_a), client_id_on_a: ClientIdAttribute::new(client_id_on_a), conn_id_on_b: CounterpartyConnectionIdAttribute::new(conn_id_on_b), client_id_on_b: CounterpartyClientIdAttribute::new(client_id_on_b) }
    }

    /// The value of the `conn_id_on_a` attribute.
    pub fn conn_id_on_a(&self) -> (r: &ConnectionId)
        ensures
            *r == self.conn_id_on_a@,
    {
        self.conn_id_on_a.value()
    }

    /// The value of the `client_id_on_a` attribute.
    pub fn client_id_on_a(&self) -> (r: &ClientId)
        ensures
            *r == self.client_id_on_a@,
    {
        self.client_id_on_a.value()
    }

    /// The value of the `conn_id_on_b` attribute.
    pub fn conn_id_on_b(&self) -> (r: &ConnectionId)
        ensures
            *r == self.conn_id_on_b@,
    {
        self.conn_id_on_b.value()
    }

    /// The value of the `client_id_on_b` attribute.
    pub fn client_id_on_b(&self) -> (r: &ClientId)
        ensures
            *r == self.client_id_on_b@,
    {
        self.client_id_on_b.value()
    }

    /// The ABCI event that this event becomes: its kind, and its
    /// attributes in the order of the fields.
    pub open spec fn abci_view(self) -> (Seq<char>, Seq<(Seq<char>, Seq<char>, bool)>) {
        (Self::EVENT_KIND@, seq![self.conn_id_on_a.attribute_view(), self.client_id_on_a.attribute_view(), self.conn_id_on_b.attribute_view(), self.client_id_on_b.attribute_view()])
    }
}

/// The event as an ABCI event: its kind and its attributes in the order of
/// the fields. A spec function cannot build the strings of an `Event`, so
/// `from` states its result in its own `ensures`.
impl From<OpenAck> for Event {
    fn from(event: OpenAck) -> (r: Event)
        ensures
            r@ == event.abci_view(),
    {
        let ghost view = event.abci_view();
        let attributes = vec![
            EventAttribute::from(event.conn_id_on_a),
            EventAttribute::from(event.client_id_on_a),
            EventAttribute::from(event.conn_id_on_b),
            EventAttribute::from(event.client_id_on_b),
        ];
        let r = Event { kind: String::from_str(OpenAck::EVENT_KIND), attributes };
        assert(attributes_view(r.attributes@) =~= view.1);
        r
    }
}

impl vstd::std_specs::convert::FromSpecImpl<OpenAck> for Event {
    open spec fn obeys_from_spec() -> bool {
        false
    }

    open spec fn from_spec(v: OpenAck) -> Event {
        arbitrary()
    }
}

impl OpenAck {
    /// Whether the spelling of every attribute value reads back as itself.
    pub open spec fn fields_read_back(self) -> bool {
        &&& reads_back(self.conn_id_on_a@)
        &&& reads_back(self.client_id_on_a@)
        &&& reads_back(self.conn_id_on_b@)
        &&& reads_back(self.client_id_on_b@)
    }

    /// Whether every attribute value is the one its spelling is read as.
    pub open spec fn fields_canonical(self) -> bool {
        &&& self.conn_id_on_a@.canonical()
        &&& self.client_id_on_a@.canonical()
        &&& self.conn_id_on_b@.canonical()
        &&& self.client_id_on_b@.canonical()
    }

    /// Whether the two events hold the same values, attribute by
    /// attribute.
    pub open spec fn same_values(self, other: OpenAck) -> bool {
        &&& self.conn_id_on_a@.same_value(other.conn_id_on_a@)
        &&& self.client_id_on_a@.same_value(other.client_id_on_a@)
        &&& self.conn_id_on_b@.same_value(other.conn_id_on_b@)
        &&& self.client_id_on_b@.same_value(other.client_id_on_b@)
    }
}

/// Reads the event back from its ABCI form. The kind must be this event's;
/// each attribute of the event must occur once and hold a value of its
/// type, and attributes with other keys are passed over. Where several
/// attributes are wrong, the error is that of the first wrong attribute
/// in the list, and where none is wrong but some are missing, that of the
/// first missing one in the order of the fields.
impl TryFrom<Event> for OpenAck {
    type Error = DecodingError;

    fn try_from(event: Event) -> (r: Result<OpenAck, DecodingError>)
        ensures
            event@.0 != OpenAck::EVENT_KIND@ ==> (r matches Err(
                DecodingError::MismatchedResourceName { expected, actual },
            ) && expected@ == OpenAck::EVENT_KIND@ && actual@ == event@.0),
            r is Ok <==> event@.0 == OpenAck::EVENT_KIND@
                && field_readable::<ConnectionId>(event@.1, ConnectionIdAttribute::ATTRIBUTE_KEY@)
                && field_readable::<ClientId>(event@.1, ClientIdAttribute::ATTRIBUTE_KEY@)
                && field_readable::<ConnectionId>(event@.1, CounterpartyConnectionIdAttribute::ATTRIBUTE_KEY@)
                && field_readable::<ClientId>(event@.1, CounterpartyClientIdAttribute::ATTRIBUTE_KEY@),
            r matches Ok(e) ==> {
                &&& e.conn_id_on_a@.event_value() == <ConnectionId as AttributeValue>::normal_form(
                    first_value(event@.1, ConnectionIdAttribute::ATTRIBUTE_KEY@),
                )
                &&& e.client_id_on_a@.event_value() == <ClientId as AttributeValue>::normal_form(
                    first_value(event@.1, ClientIdAttribute::ATTRIBUTE_KEY@),
                )
                &&& e.conn_id_on_b@.event_value() == <ConnectionId as AttributeValue>::normal_form(
                    first_value(event@.1, CounterpartyConnectionIdAttribute::ATTRIBUTE_KEY@),
                )
                &&& e.client_id_on_b@.event_value() == <ClientId as AttributeValue>::normal_form(
                    first_value(event@.1, CounterpartyClientIdAttribute::ATTRIBUTE_KEY@),
                )
            },
            event@.0 == OpenAck::EVENT_KIND@ ==> (r matches Err(e) ==> (e is MissingRawData <==> !(
                field_wrong::<ConnectionId>(event@.1, ConnectionIdAttribute::ATTRIBUTE_KEY@)
                || field_wrong::<ClientId>(event@.1, ClientIdAttribute::ATTRIBUTE_KEY@)
                || field_wrong::<ConnectionId>(event@.1, CounterpartyConnectionIdAttribute::ATTRIBUTE_KEY@)
                || field_wrong::<ClientId>(event@.1, CounterpartyClientIdAttribute::ATTRIBUTE_KEY@)))),
            forall|x: OpenAck|
                #[trigger] x.abci_view() == event@ && x.fields_read_back() ==> (r matches Ok(y)
                    && y.abci_view() == x.abci_view()),
            forall|x: OpenAck|
                #[trigger] x.abci_view() == event@ && x.fields_read_back() && x.fields_canonical()
                    ==> (r matches Ok(y) && y.same_values(x)),
    {
        proof {
            assert forall|x: OpenAck| #[trigger] x.abci_view() == event@ && x.fields_read_back()
                implies {
                &&& field_readable::<ConnectionId>(event@.1, ConnectionIdAttribute::ATTRIBUTE_KEY@)
                &&& first_value(event@.1, ConnectionIdAttribute::ATTRIBUTE_KEY@) == x.conn_id_on_a@.event_value()
                &&& field_readable::<ClientId>(event@.1, ClientIdAttribute::ATTRIBUTE_KEY@)
                &&& first_value(event@.1, ClientIdAttribute::ATTRIBUTE_KEY@) == x.client_id_on_a@.event_value()
                &&& field_readable::<ConnectionId>(event@.1, CounterpartyConnectionIdAttribute::ATTRIBUTE_KEY@)
                &&& first_value(event@.1, CounterpartyConnectionIdAttribute::ATTRIBUTE_KEY@) == x.conn_id_on_b@.event_value()
                &&& field_readable::<ClientId>(event@.1, CounterpartyClientIdAttribute::ATTRIBUTE_KEY@)
                &&& first_value(event@.1, CounterpartyClientIdAttribute::ATTRIBUTE_KEY@) == x.client_id_on_b@.event_value()
            } by {
                let s = x.abci_view().1;
                reveal_strlit("client_id");
                reveal_strlit("connection_id");
                reveal_strlit("counterparty_client_id");
                reveal_strlit("counterparty_connection_id");
                assert(s.take(4) =~= s);
                assert(s.take(4).drop_last() =~= s.take(3));
                assert(s.take(3).drop_last() =~= s.take(2));
                assert(s.take(2).drop_last() =~= s.take(1));
                assert(s.take(1).drop_last() =~= s.take(0));
                reveal_with_fuel(keys_distinct, 5);
                reveal_with_fuel(key_absent, 5);
                assert(s[0].0 == ConnectionIdAttribute::ATTRIBUTE_KEY@ && s[0].0.len() == 13);
                assert(s[1].0 == ClientIdAttribute::ATTRIBUTE_KEY@ && s[1].0.len() == 9);
                assert(s[2].0 == CounterpartyConnectionIdAttribute::ATTRIBUTE_KEY@ && s[2].0.len() == 26);
                assert(s[3].0 == CounterpartyClientIdAttribute::ATTRIBUTE_KEY@ && s[3].0.len() == 22);
                assert(s.take(1).last() == s[0]);
                assert(key_absent(s.take(0), s[0].0));
                assert(keys_distinct(s.take(1)));
                assert(s.take(2).last() == s[1]);
                assert(key_absent(s.take(1), s[1].0));
                assert(keys_distinct(s.take(2)));
                assert(s.take(3).last() == s[2]);
                assert(key_absent(s.take(2), s[2].0));
                assert(keys_distinct(s.take(3)));
                assert(s.take(4).last() == s[3]);
                assert(key_absent(s.take(3), s[3].0));
                assert(keys_distinct(s.take(4)));
                lemma_distinct_keys(s, 0);
                lemma_distinct_keys(s, 1);
                lemma_distinct_keys(s, 2);
                lemma_distinct_keys(s, 3);
                assert(s[0].0 == ConnectionIdAttribute::ATTRIBUTE_KEY@ && s[0].1 == x.conn_id_on_a@.event_value());
                assert(s[1].0 == ClientIdAttribute::ATTRIBUTE_KEY@ && s[1].1 == x.client_id_on_a@.event_value());
                assert(s[2].0 == CounterpartyConnectionIdAttribute::ATTRIBUTE_KEY@ && s[2].1 == x.conn_id_on_b@.event_value());
                assert(s[3].0 == CounterpartyClientIdAttribute::ATTRIBUTE_KEY@ && s[3].1 == x.client_id_on_b@.event_value());
            }
        }
        let expected = String::from_str(OpenAck::EVENT_KIND);
        if !(event.kind == expected) {
            return Err(DecodingError::MismatchedResourceName { expected, actual: event.kind });
        }
        let mut failure: Option<(usize, DecodingError)> = None;
        let conn_id_on_a = match scan_field::<ConnectionId>(
            &event.attributes,
            ConnectionIdAttribute::ATTRIBUTE_KEY,
            ConnectionIdAttribute::FRIENDLY_NAME,
        ) {
            FieldScan::Found(v) => Some(v),
            FieldScan::Missing => None,
            FieldScan::Failed { at, error } => {
                failure = earlier_failure(failure, at, error);
                None
            },
        };
        let client_id_on_a = match scan_field::<ClientId>(
            &event.attributes,
            ClientIdAttribute::ATTRIBUTE_KEY,
            ClientIdAttribute::FRIENDLY_NAME,
        ) {
            FieldScan::Found(v) => Some(v),
            FieldScan::Missing => None,
            FieldScan::Failed { at, error } => {
                failure = earlier_failure(failure, at, error);
                None
            },
        };
        let conn_id_on_b = match scan_field::<ConnectionId>(
            &event.attributes,
            CounterpartyConnectionIdAttribute::ATTRIBUTE_KEY,
            CounterpartyConnectionIdAttribute::FRIENDLY_NAME,
        ) {
            FieldScan::Found(v) => Some(v),
            FieldScan::Missing => None,
            FieldScan::Failed { at, error } => {
                failure = earlier_failure(failure, at, error);
                None
            },
        };
        let client_id_on_b = match scan_field::<ClientId>(
            &event.attributes,
            CounterpartyClientIdAttribute::ATTRIBUTE_KEY,
            CounterpartyClientIdAttribute::FRIENDLY_NAME,
        ) {
            FieldScan::Found(v) => Some(v),
            FieldScan::Missing => None,
            FieldScan::Failed { at, error } => {
                failure = earlier_failure(failure, at, error);
                None
            },
        };
        if let Some((_, error)) = failure {
            return Err(error);
        }
        let conn_id_on_a = match conn_id_on_a {
            Some(v) => ConnectionIdAttribute(v),
            None => {
                return Err(missing_attribute(ConnectionIdAttribute::FRIENDLY_NAME));
            },
        };
        let client_id_on_a = match client_id_on_a {
            Some(v) => ClientIdAttribute(v),
            None => {
                return Err(missing_attribute(ClientIdAttribute::FRIENDLY_NAME));
            },
        };
        let conn_id_on_b = match conn_id_on_b {
            Some(v) => CounterpartyConnectionIdAttribute(v),
            None => {
                return Err(missing_attribute(CounterpartyConnectionIdAttribute::FRIENDLY_NAME));
            },
        };
        let client_id_on_b = match client_id_on_b {
            Some(v) => CounterpartyClientIdAttribute(v),
            None => {
                return Err(missing_attribute(CounterpartyClientIdAttribute::FRIENDLY_NAME));
            },
        };
        let r = OpenAck { conn_id_on_a, client_id_on_a, conn_id_on_b, client_id_on_b };
        proof {
            assert forall|x: OpenAck| #[trigger] x.abci_view() == event@ && x.fields_read_back()
                implies r.abci_view() == x.abci_view() by {
                assert(r.abci_view().1 =~= x.abci_view().1);
            }
            assert forall|x: OpenAck|
                #[trigger] x.abci_view() == event@ && x.fields_read_back() && x.fields_canonical()
                implies r.same_values(x) by {
                <ConnectionId as AttributeValue>::lemma_spelling_injective(r.conn_id_on_a@, x.conn_id_on_a@);
                <ClientId as AttributeValue>::lemma_spelling_injective(r.client_id_on_a@, x.client_id_on_a@);
                <ConnectionId as AttributeValue>::lemma_spelling_injective(r.conn_id_on_b@, x.conn_id_on_b@);
                <ClientId as AttributeValue>::lemma_spelling_injective(r.client_id_on_b@, x.client_id_on_b@);
            }
        }
        Ok(r)
    }
}

impl vstd::std_specs::convert::TryFromSpecImpl<Event> for OpenAck {
    open spec fn obeys_try_from_spec() -> bool {
        false
    }

    open spec fn try_from_spec(v: Event) -> Result<OpenAck, DecodingError> {
        arbitrary()
    }
}

/// Reads the event from its kind and its attributes given as key-value
/// pairs, as `try_from` reads the ABCI event with those attributes.
impl TryFrom<(String, Vec<(String, String)>)> for OpenAck {
    type Error = DecodingError;

    fn try_from(parts: (String, Vec<(String, String)>)) -> (r: Result<OpenAck, DecodingError>)
        ensures
            parts.0@ != OpenAck::EVENT_KIND@ ==> (r matches Err(
                DecodingError::MismatchedResourceName { expected, actual },
            ) && expected@ == OpenAck::EVENT_KIND@ && actual@ == parts.0@),
            r is Ok <==> parts.0@ == OpenAck::EVENT_KIND@
                && field_readable::<ConnectionId>(pairs_view(parts.1@), ConnectionIdAttribute::ATTRIBUTE_KEY@)
                && field_readable::<ClientId>(pairs_view(parts.1@), ClientIdAttribute::ATTRIBUTE_KEY@)
                && field_readable::<ConnectionId>(pairs_view(parts.1@), CounterpartyConnectionIdAttribute::ATTRIBUTE_KEY@)
                && field_readable::<ClientId>(pairs_view(parts.1@), CounterpartyClientIdAttribute::ATTRIBUTE_KEY@),
            r matches Ok(e) ==> {
                &&& e.conn_id_on_a@.event_value() == <ConnectionId as AttributeValue>::normal_form(
                    first_value(pairs_view(parts.1@), ConnectionIdAttribute::ATTRIBUTE_KEY@),
                )
                &&& e.client_id_on_a@.event_value() == <ClientId as AttributeValue>::normal_form(
                    first_value(pairs_view(parts.1@), ClientIdAttribute::ATTRIBUTE_KEY@),
                )
                &&& e.conn_id_on_b@.event_value() == <ConnectionId as AttributeValue>::normal_form(
                    first_value(pairs_view(parts.1@), CounterpartyConnectionIdAttribute::ATTRIBUTE_KEY@),
                )
                &&& e.client_id_on_b@.event_value() == <ClientId as AttributeValue>::normal_form(
                    first_value(pairs_view(parts.1@), CounterpartyClientIdAttribute::ATTRIBUTE_KEY@),
                )
            },
            parts.0@ == OpenAck::EVENT_KIND@ ==> (r matches Err(e) ==> (e is MissingRawData <==> !(
                field_wrong::<ConnectionId>(pairs_view(parts.1@), ConnectionIdAttribute::ATTRIBUTE_KEY@)
                || field_wrong::<ClientId>(pairs_view(parts.1@), ClientIdAttribute::ATTRIBUTE_KEY@)
                || field_wrong::<ConnectionId>(pairs_view(parts.1@), CounterpartyConnectionIdAttribute::ATTRIBUTE_KEY@)
                || field_wrong::<ClientId>(pairs_view(parts.1@), CounterpartyClientIdAttribute::ATTRIBUTE_KEY@)))),
            forall|x: OpenAck|
                #[trigger] x.abci_view() == (parts.0@, pairs_view(parts.1@)) && x.fields_read_back() ==> (r matches Ok(y)
                    && y.abci_view() == x.abci_view()),
            forall|x: OpenAck|
                #[trigger] x.abci_view() == (parts.0@, pairs_view(parts.1@)) && x.fields_read_back() && x.fields_canonical()
                    ==> (r matches Ok(y) && y.same_values(x)),
    {
        let (kind, pairs) = parts;
        <OpenAck as TryFrom<Event>>::try_from(Event::from_pairs(kind, pairs))
    }
}

impl vstd::std_specs::convert::TryFromSpecImpl<(String, Vec<(String, String)>)> for OpenAck {
    open spec fn obeys_try_from_spec() -> bool {
        false
    }

    open spec fn try_from_spec(v: (String, Vec<(String, String)>)) -> Result<OpenAck, DecodingError> {
        arbitrary()
    }
}

/// The `connection_open_confirm` event: the counterparty confirmed a connection handshake.
#[derive(Clone, Debug, PartialEq, Eq)]
pub struct OpenConfirm {
    pub conn_id_on_a: ConnectionIdAttribute,
    pub client_id_on_a: ClientIdAttribute,
    pub conn_id_on_b: CounterpartyConnectionIdAttribute,
    pub client_id_on_b: CounterpartyClientIdAttribute,
}

impl OpenConfirm {
    /// The kind of this event in ABCI.
    pub const EVENT_KIND: &'static str = "connection_open_confirm";

    /// The event with the given attribute values.
    pub fn new(conn_id_on_a: ConnectionId, client_id_on_a: ClientId, conn_id_on_b: ConnectionId, client_id_on_b: ClientId) -> (r: OpenConfirm)
        ensures
            r.conn_id_on_a@ == conn_id_on_a,
            r.client_id_on_a@ == client_id_on_a,
            r.conn_id_on_b@ == conn_id_on_b,
            r.client_id_on_b@ == client_id_on_b,
    {
        OpenConfirm { conn_id_on_a: ConnectionIdAttribute::new(conn_id_on_a), client_id_on_a: ClientIdAttribute::new(client_id_on_a), conn_id_on_b: CounterpartyConnectionIdAttribute::new(conn_id_on_b), client_id_on_b: CounterpartyClientIdAttribute::new(client_id_on_b) }
    }

    /// The value of the `conn_id_on_a` attribute.
    pub fn conn_id_on_a(&self) -> (r: &ConnectionId)
        ensures
            *r == self.conn_id_on_a@,
    {
        self.conn_id_on_a.value()
    }

    /// The value of the `client_id_on_a` attribute.
    pub fn client_id_on_a(&self) -> (r: &ClientId)
        ensures
            *r == self.client_id_on_a@,
    {
        self.client_id_on_a.value()
    }

    /// The value of the `conn_id_on_b` attribute.
    pub fn conn_id_on_b(&self) -> (r: &ConnectionId)
        ensures
            *r == self.conn_id_on_b@,
    {
        self.conn_id_on_b.value()
    }

    /// The value of the `client_id_on_b` attribute.
    pub fn client_id_on_b(&self) -> (r: &ClientId)
        ensures
            *r == self.client_id_on_b@,
    {
        self.client_id_on_b.value()
    }

    /// The ABCI event that this event becomes: its kind, and its
    /// attributes in the order of the fields.
    pub open spec fn abci_view(self) -> (Seq<char>, Seq<(Seq<char>, Seq<char>, bool)>) {
        (Self::EVENT_KIND@, seq![self.conn_id_on_a.attribute_view(), self.client_id_on_a.attribute_view(), self.conn_id_on_b.attribute_view(), self.client_id_on_b.attribute_view()])
    }
}

/// The event as an ABCI event: its kind and its attributes in the order of
/// the fields. A spec function cannot build the strings of an `Event`, so
/// `from` states its result in its own `ensures`.
impl From<OpenConfirm> for Event {
    fn from(event: OpenConfirm) -> (r: Event)
        ensures
            r@ == event.abci_view(),
    {
        let ghost view = event.abci_view();
        let attributes = vec![
            EventAttribute::from(event.conn_id_on_a),
            EventAttribute::from(event.client_id_on_a),
            EventAttribute::from(event.conn_id_on_b),
            EventAttribute::from(event.client_id_on_b),
        ];
        let r = Event { kind: String::from_str(OpenConfirm::EVENT_KIND), attributes };
        assert(attributes_view(r.attributes@) =~= view.1);
        r
    }
}

impl vstd::std_specs::convert::FromSpecImpl<OpenConfirm> for Event {
    open spec fn obeys_from_spec() -> bool {
        false
    }

    open spec fn from_spec(v: OpenConfirm) -> Event {
        arbitrary()
    }
}

impl OpenConfirm {
    /// Whether the spelling of every attribute value reads back as itself.
    pub open spec fn fields_read_back(self) -> bool {
        &&& reads_back(self.conn_id_on_a@)
        &&& reads_back(self.client_id_on_a@)
        &&& reads_back(self.conn_id_on_b@)
        &&& reads_back(self.client_id_on_b@)
    }

    /// Whether every attribute value is the one its spelling is read as.
    pub open spec fn fields_canonical(self) -> bool {
        &&& self.conn_id_on_a@.canonical()
        &&& self.client_id_on_a@.canonical()
        &&& self.conn_id_on_b@.canonical()
        &&& self.client_id_on_b@.canonical()
    }

    /// Whether the two events hold the same values, attribute by
    /// attribute.
    pub open spec fn same_values(self, other: OpenConfirm) -> bool {
        &&& self.conn_id_on_a@.same_value(other.conn_id_on_a@)
        &&& self.client_id_on_a@.same_value(other.client_id_on_a@)
        &&& self.conn_id_on_b@.same_value(other.conn_id_on_b@)
        &&& self.client_id_on_b@.same_value(other.client_id_on_b@)
    }
}

/// Reads the event back from its ABCI form. The kind must be this event's;
/// each attribute of the event must occur once and hold a value of its
/// type, and attributes with other keys are passed over. Where several
/// attributes are wrong, the error is that of the first wrong attribute
/// in the list, and where none is wrong but some are missing, that of the
/// first missing one in the order of the fields.
impl TryFrom<Event> for OpenConfirm {
    type Error = DecodingError;

    fn try_from(event: Event) -> (r: Result<OpenConfirm, DecodingError>)
        ensures
            event@.0 != OpenConfirm::EVENT_KIND@ ==> (r matches Err(
                DecodingError::MismatchedResourceName { expected, actual },
            ) && expected@ == OpenConfirm::EVENT_KIND@ && actual@ == event@.0),
            r is Ok <==> event@.0 == OpenConfirm::EVENT_KIND@
                && field_readable::<ConnectionId>(event@.1, ConnectionIdAttribute::ATTRIBUTE_KEY@)
                && field_readable::<ClientId>(event@.1, ClientIdAttribute::ATTRIBUTE_KEY@)
                && field_readable::<ConnectionId>(event@.1, CounterpartyConnectionIdAttribute::ATTRIBUTE_KEY@)
                && field_readable::<ClientId>(event@.1, CounterpartyClientIdAttribute::ATTRIBUTE_KEY@),
            r matches Ok(e) ==> {
                &&& e.conn_id_on_a@.event_value() == <ConnectionId as AttributeValue>::normal_form(
                    first_value(event@.1, ConnectionIdAttribute::ATTRIBUTE_KEY@),
                )
                &&& e.client_id_on_a@.event_value() == <ClientId as AttributeValue>::normal_form(
                    first_value(event@.1, ClientIdAttribute::ATTRIBUTE_KEY@),
                )
                &&& e.conn_id_on_b@.event_value() == <ConnectionId as AttributeValue>::normal_form(
                    first_value(event@.1, CounterpartyConnectionIdAttribute::ATTRIBUTE_KEY@),
                )
                &&& e.client_id_on_b@.event_value() == <ClientId as AttributeValue>::normal_form(
                    first_value(event@.1, CounterpartyClientIdAttribute::ATTRIBUTE_KEY@),
                )
            },
            event@.0 == OpenConfirm::EVENT_KIND@ ==> (r matches Err(e) ==> (e is MissingRawData <==> !(
                field_wrong::<ConnectionId>(event@.1, ConnectionIdAttribute::ATTRIBUTE_KEY@)
                || field_wrong::<ClientId>(event@.1, ClientIdAttribute::ATTRIBUTE_KEY@)
                || field_wrong::<ConnectionId>(event@.1, CounterpartyConnectionIdAttribute::ATTRIBUTE_KEY@)
                || field_wrong::<ClientId>(event@.1, CounterpartyClientIdAttribute::ATTRIBUTE_KEY@)))),
            forall|x: OpenConfirm|
                #[trigger] x.abci_view() == event@ && x.fields_read_back() ==> (r matches Ok(y)
                    && y.abci_view() == x.abci_view()),
            forall|x: OpenConfirm|
                #[trigger] x.abci_view() == event@ && x.fields_read_back() && x.fields_canonical()
                    ==> (r matches Ok(y) && y.same_values(x)),
    {
        proof {
            assert forall|x: OpenConfirm| #[trigger] x.abci_view() == event@ && x.fields_read_back()
                implies {
                &&& field_readable::<ConnectionId>(event@.1, ConnectionIdAttribute::ATTRIBUTE_KEY@)
                &&& first_value(event@.1, ConnectionIdAttribute::ATTRIBUTE_KEY@) == x.conn_id_on_a@.event_value()
                &&& field_readable::<ClientId>(event@.1, ClientIdAttribute::ATTRIBUTE_KEY@)
                &&& first_value(event@.1, ClientIdAttribute::ATTRIBUTE_KEY@) == x.client_id_on_a@.event_value()
                &&& field_readable::<ConnectionId>(event@.1, CounterpartyConnectionIdAttribute::ATTRIBUTE_KEY@)
                &&& first_value(event@.1, CounterpartyConnectionIdAttribute::ATTRIBUTE_KEY@) == x.conn_id_on_b@.event_value()
                &&& field_readable::<ClientId>(event@.1, CounterpartyClientIdAttribute::ATTRIBUTE_KEY@)
                &&& first_value(event@.1, CounterpartyClientIdAttribute::ATTRIBUTE_KEY@) == x.client_id_on_b@.event_value()
            } by {
                let s = x.abci_view().1;
                reveal_strlit("client_id");
                reveal_strlit("connection_id");
                reveal_strlit("counterparty_client_id");
                reveal_strlit("counterparty_connection_id");
                assert(s.take(4) =~= s);
                assert(s.take(4).drop_last() =~= s.take(3));
                assert(s.take(3).drop_last() =~= s.take(2));
                assert(s.take(2).drop_last() =~= s.take(1));
                assert(s.take(1).drop_last() =~= s.take(0));
                reveal_with_fuel(keys_distinct, 5);
                reveal_with_fuel(key_absent, 5);
                assert(s[0].0 == ConnectionIdAttribute::ATTRIBUTE_KEY@ && s[0].0.len() == 13);
                assert(s[1].0 == ClientIdAttribute::ATTRIBUTE_KEY@ && s[1].0.len() == 9);
                assert(s[2].0 == CounterpartyConnectionIdAttribute::ATTRIBUTE_KEY@ && s[2].0.len() == 26);
                assert(s[3].0 == CounterpartyClientIdAttribute::ATTRIBUTE_KEY@ && s[3].0.len() == 22);
                assert(s.take(1).last() == s[0]);
                assert(key_absent(s.take(0), s[0].0));
                assert(keys_distinct(s.take(1)));
                assert(s.take(2).last() == s[1]);
                assert(key_absent(s.take(1), s[1].0));
                assert(keys_distinct(s.take(2)));
                assert(s.take(3).last() == s[2]);
                assert(key_absent(s.take(2), s[2].0));
                assert(keys_distinct(s.take(3)));
                assert(s.take(4).last() == s[3]);
                assert(key_absent(s.take(3), s[3].0));
                assert(keys_distinct(s.take(4)));
                lemma_distinct_keys(s, 0);
                lemma_distinct_keys(s, 1);
                lemma_distinct_keys(s, 2);
                lemma_distinct_keys(s, 3);
                assert(s[0].0 == ConnectionIdAttribute::ATTRIBUTE_KEY@ && s[0].1 == x.conn_id_on_a@.event_value());
                assert(s[1].0 == ClientIdAttribute::ATTRIBUTE_KEY@ && s[1].1 == x.client_id_on_a@.event_value());
                assert(s[2].0 == CounterpartyConnectionIdAttribute::ATTRIBUTE_KEY@ && s[2].1 == x.conn_id_on_b@.event_value());
                assert(s[3].0 == CounterpartyClientIdAttribute::ATTRIBUTE_KEY@ && s[3].1 == x.client_id_on_b@.event_value());
            }
        }
        let expected = String::from_str(OpenConfirm::EVENT_KIND);
        if !(event.kind == expected) {
            return Err(DecodingError::MismatchedResourceName { expected, actual: event.kind });
        }
        let mut failure: Option<(usize, DecodingError)> = None;
        let conn_id_on_a = match scan_field::<ConnectionId>(
            &event.attributes,
            ConnectionIdAttribute::ATTRIBUTE_KEY,
            ConnectionIdAttribute::FRIENDLY_NAME,
        ) {
            FieldScan::Found(v) => Some(v),
            FieldScan::Missing => None,
            FieldScan::Failed { at, error } => {
                failure = earlier_failure(failure, at, error);
                None
            },
        };
        let client_id_on_a = match scan_field::<ClientId>(
            &event.attributes,
            ClientIdAttribute::ATTRIBUTE_KEY,
            ClientIdAttribute::FRIENDLY_NAME,
        ) {
            FieldScan::Found(v) => Some(v),
            FieldScan::Missing => None,
            FieldScan::Failed { at, error } => {
                failure = earlier_failure(failure, at, error);
                None
            },
        };
        let conn_id_on_b = match scan_field::<ConnectionId>(
            &event.attributes,
            CounterpartyConnectionIdAttribute::ATTRIBUTE_KEY,
            CounterpartyConnectionIdAttribute::FRIENDLY_NAME,
        ) {
            FieldScan::Found(v) => Some(v),
            FieldScan::Missing => None,
            FieldScan::Failed { at, error } => {
                failure = earlier_failure(failure, at, error);
                None
            },
        };
        let client_id_on_b = match scan_field::<ClientId>(
            &event.attributes,
            CounterpartyClientIdAttribute::ATTRIBUTE_KEY,
            CounterpartyClientIdAttribute::FRIENDLY_NAME,
        ) {
            FieldScan::Found(v) => Some(v),
            FieldScan::Missing => None,
            FieldScan::Failed { at, error } => {
                failure = earlier_failure(failure, at, error);
                None
            },
        };
        if let Some((_, error)) = failure {
            return Err(error);
        }
        let conn_id_on_a = match conn_id_on_a {
            Some(v) => ConnectionIdAttribute(v),
            None => {
                return Err(missing_attribute(ConnectionIdAttribute::FRIENDLY_NAME));
            },
        };
        let client_id_on_a = match client_id_on_a {
            Some(v) => ClientIdAttribute(v),
            None => {
                return Err(missing_attribute(ClientIdAttribute::FRIENDLY_NAME));
            },
        };
        let conn_id_on_b = match conn_id_on_b {
            Some(v) => CounterpartyConnectionIdAttribute(v),
            None => {
                return Err(missing_attribute(CounterpartyConnectionIdAttribute::FRIENDLY_NAME));
            },
        };
        let client_id_on_b = match client_id_on_b {
            Some(v) => CounterpartyClientIdAttribute(v),
            None => {
                return Err(missing_attribute(CounterpartyClientIdAttribute::FRIENDLY_NAME));
            },
        };
        let r = OpenConfirm { conn_id_on_a, client_id_on_a, conn_id_on_b, client_id_on_b };
        proof {
            assert forall|x: OpenConfirm| #[trigger] x.abci_view() == event@ && x.fields_read_back()
                implies r.abci_view() == x.abci_view() by {
                assert(r.abci_view().1 =~= x.abci_view().1);
            }
            assert forall|x: OpenConfirm|
                #[trigger] x.abci_view() == event@ && x.fields_read_back() && x.fields_canonical()
                implies r.same_values(x) by {
                <ConnectionId as AttributeValue>::lemma_spelling_injective(r.conn_id_on_a@, x.conn_id_on_a@);
                <ClientId as AttributeValue>::lemma_spelling_injective(r.client_id_on_a@, x.client_id_on_a@);
                <ConnectionId as AttributeValue>::lemma_spelling_injective(r.conn_id_on_b@, x.conn_id_on_b@);
                <ClientId as AttributeValue>::lemma_spelling_injective(r.client_id_on_b@, x.client_id_on_b@);
            }
        }
        Ok(r)
    }
}

impl vstd::std_specs::convert::TryFromSpecImpl<Event> for OpenConfirm {
    open spec fn obeys_try_from_spec() -> bool {
        false
    }

    open spec fn try_from_spec(v: Event) -> Result<OpenConfirm, DecodingError> {
        arbitrary()
    }
}

/// Reads the event from its kind and its attributes given as key-value
/// pairs, as `try_from` reads the ABCI event with those attributes.
impl TryFrom<(String, Vec<(String, String)>)> for OpenConfirm {
    type Error = DecodingError;

    fn try_from(parts: (String, Vec<(String, String)>)) -> (r: Result<OpenConfirm, DecodingError>)
        ensures
            parts.0@ != OpenConfirm::EVENT_KIND@ ==> (r matches Err(
                DecodingError::MismatchedResourceName { expected, actual },
            ) && expected@ == OpenConfirm::EVENT_KIND@ && actual@ == parts.0@),
            r is Ok <==> parts.0@ == OpenConfirm::EVENT_KIND@
                && field_readable::<ConnectionId>(pairs_view(parts.1@), ConnectionIdAttribute::ATTRIBUTE_KEY@)
                && field_readable::<ClientId>(pairs_view(parts.1@), ClientIdAttribute::ATTRIBUTE_KEY@)
                && field_readable::<ConnectionId>(pairs_view(parts.1@), CounterpartyConnectionIdAttribute::ATTRIBUTE_KEY@)
                && field_readable::<ClientId>(pairs_view(parts.1@), CounterpartyClientIdAttribute::ATTRIBUTE_KEY@),
            r matches Ok(e) ==> {
                &&& e.conn_id_on_a@.event_value() == <ConnectionId as AttributeValue>::normal_form(
                    first_value(pairs_view(parts.1@), ConnectionIdAttribute::ATTRIBUTE_KEY@),
                )
                &&& e.client_id_on_a@.event_value() == <ClientId as AttributeValue>::normal_form(
                    first_value(pairs_view(parts.1@), ClientIdAttribute::ATTRIBUTE_KEY@),
                )
                &&& e.conn_id_on_b@.event_value() == <ConnectionId as AttributeValue>::normal_form(
                    first_value(pairs_view(parts.1@), CounterpartyConnectionIdAttribute::ATTRIBUTE_KEY@),
                )
                &&& e.client_id_on_b@.event_value() == <ClientId as AttributeValue>::normal_form(
                    first_value(pairs_view(parts.1@), CounterpartyClientIdAttribute::ATTRIBUTE_KEY@),
                )
            },
            parts.0@ == OpenConfirm::EVENT_KIND@ ==> (r matches Err(e) ==> (e is MissingRawData <==> !(
                field_wrong::<ConnectionId>(pairs_view(parts.1@), ConnectionIdAttribute::ATTRIBUTE_KEY@)
                || field_wrong::<ClientId>(pairs_view(parts.1@), ClientIdAttribute::ATTRIBUTE_KEY@)
                || field_wrong::<ConnectionId>(pairs_view(parts.1@), CounterpartyConnectionIdAttribute::ATTRIBUTE_KEY@)
                || field_wrong::<ClientId>(pairs_view(parts.1@), CounterpartyClientIdAttribute::ATTRIBUTE_KEY@)))),
            forall|x: OpenConfirm|
                #[trigger] x.abci_view() == (parts.0@, pairs_view(parts.1@)) && x.fields_read_back() ==> (r matches Ok(y)
                    && y.abci_view() == x.abci_view()),
            forall|x: OpenConfirm|
                #[trigger] x.abci_view() == (parts.0@, pairs_view(parts.1@)) && x.fields_read_back() && x.fields_canonical()
                    ==> (r matches Ok(y) && y.same_values(x)),
    {
        let (kind, pairs) = parts;
        <OpenConfirm as TryFrom<Event>>::try_from(Event::from_pairs(kind, pairs))
    }
}

impl vstd::std_specs::convert::TryFromSpecImpl<(String, Vec<(String, String)>)> for OpenConfirm {
    open spec fn obeys_try_from_spec() -> bool {
        false
    }

    open spec fn try_from_spec(v: (String, Vec<(String, String)>)) -> Result<OpenConfirm, DecodingError> {
        arbitrary()
    }
}

} // verus!
