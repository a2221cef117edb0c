//! The events that the IBC handler emits, and their ABCI form.
use vstd::prelude::*;
use crate::abci::{attributes_view, Event, EventAttribute};
use crate::channel_events as ChannelEvents;
use crate::client_events as ClientEvents;
use crate::connection_events as ConnectionEvents;
use crate::identifiers::IdentifierError;

verus! {

/// The kind of the event that names the module which handled a message.
pub const MESSAGE_EVENT: &'static str = "message";

/// Why a string could not be decoded into a value of this crate.
#[derive(Clone, Debug, PartialEq, Eq)]
pub enum DecodingError {
    /// The kind or the key read was not the one expected.
    MismatchedResourceName { expected: String, actual: String },
    /// A value that must be present was missing.
    MissingRawData { description: String },
    /// A value was present but malformed.
    InvalidRawData { description: String },
    /// An identifier was present but malformed.
    Identifier(IdentifierError),
}

/// One attribute of an event that an application module emits.
#[derive(Clone, Debug, PartialEq, Eq)]
pub struct ModuleEventAttribute {
    pub key: String,
    pub value: String,
}

/// An event that an application module emits: a kind of its choosing and
/// its attributes.
#[derive(Clone, Debug, PartialEq, Eq)]
pub struct ModuleEvent {
    pub kind: String,
    pub attributes: Vec<ModuleEventAttribute>,
}

/// The ABCI attributes of a module event: each key and value, not
/// indexed.
pub open spec fn module_attributes_view(attributes: Seq<ModuleEventAttribute>) -> Seq<
    (Seq<char>, Seq<char>, bool),
> {
    attributes.map_values(|a: ModuleEventAttribute| (a.key@, a.value@, false))
}

impl ModuleEvent {
    /// The ABCI event that a module event becomes: same kind, same
    /// attributes in the same order, none indexed.
    pub open spec fn abci_view(self) -> (Seq<char>, Seq<(Seq<char>, Seq<char>, bool)>) {
        (self.kind@, module_attributes_view(self.attributes@))
    }
}

/// The module event as an ABCI event. A spec function cannot build the
/// strings of an `Event`, so `from` states its result in its own `ensures`.
impl From<ModuleEvent> for Event {
    fn from(event: ModuleEvent) -> (r: Event)
        ensures
            r@ == event.abci_view(),
    {
        let ghost view = event.abci_view();
        let ModuleEvent { kind, attributes: module_attributes } = event;
        let mut attributes: Vec<EventAttribute> = Vec::new();
        let n = module_attributes.len();
        let mut i: usize = 0;
        while i < n
            invariant
                n == module_attributes@.len(),
                i <= n,
                view.1 == module_attributes_view(module_attributes@),
                attributes_view(attributes@) =~= view.1.take(i as int),
            decreases n - i,
        {
            let a = &module_attributes[i];
            let attribute = EventAttribute { key: a.key.clone(), value: a.value.clone(), index: false };
            let ghost prev = attributes@;
            attributes.push(attribute);
            proof {
                assert(view.1[i as int] == attribute@);
                assert(attributes_view(attributes@) =~= attributes_view(prev).push(attribute@));
                assert(view.1.take(i + 1) =~= view.1.take(i as int).push(view.1[i as int]));
            }
            i = i + 1;
        }
        assert(view.1.take(n as int) =~= view.1);
        Event { kind, attributes }
    }
}

impl vstd::std_specs::convert::FromSpecImpl<ModuleEvent> for Event {
    open spec fn obeys_from_spec() -> bool {
        false
    }

    open spec fn from_spec(v: ModuleEvent) -> Event {
        arbitrary()
    }
}

/// The event that names the module which handled a message; relayers
/// read it from the Cosmos SDK and expect it from IBC as well.
#[derive(Clone, Debug, PartialEq, Eq)]
pub enum MessageEvent {
    Client,
    Connection,
    Channel,
    /// An application module, by name.
    Module(String),
}

impl MessageEvent {
    /// The value of the one attribute of a message event, keyed `module`.
    pub open spec fn module_attribute_view(self) -> Seq<char> {
        match self {
            MessageEvent::Client => "ibc_client"@,
            MessageEvent::Connection => "ibc_connection"@,
            MessageEvent::Channel => "ibc_channel"@,
            MessageEvent::Module(name) => name@,
        }
    }

    /// The ABCI event has only one attribute, with key `module`. This method
    /// gets the associated value.
    pub fn module_attribute(&self) -> (r: String)
        ensures
            r@ == self.module_attribute_view(),
    {
        match self {
            MessageEvent::Client => String::from_str("ibc_client"),
            MessageEvent::Connection => String::from_str("ibc_connection"),
            MessageEvent::Channel => String::from_str("ibc_channel"),
            MessageEvent::Module(module_name) => module_name.clone(),
        }
    }
}

/// Events created by the IBC component of a chain, destined for a relayer.
#[derive(Clone, Debug, PartialEq, Eq)]
pub enum IbcEvent {
    CreateClient(ClientEvents::CreateClient),
    UpdateClient(ClientEvents::UpdateClient),
    UpgradeClient(ClientEvents::UpgradeClient),
    ClientMisbehaviour(ClientEvents::ClientMisbehaviour),
    OpenInitConnection(ConnectionEvents::OpenInit),
    OpenTryConnection(ConnectionEvents::OpenTry),
    OpenAckConnection(ConnectionEvents::OpenAck),
    OpenConfirmConnection(ConnectionEvents::OpenConfirm),
    OpenInitChannel(ChannelEvents::OpenInit),
    OpenTryChannel(ChannelEvents::OpenTry),
    OpenAckChannel(ChannelEvents::OpenAck),
    OpenConfirmChannel(ChannelEvents::OpenConfirm),
    CloseInitChannel(ChannelEvents::CloseInit),
    CloseConfirmChannel(ChannelEvents::CloseConfirm),
    SendPacket(ChannelEvents::SendPacket),
    ReceivePacket(ChannelEvents::ReceivePacket),
    WriteAcknowledgement(ChannelEvents::WriteAcknowledgement),
    AcknowledgePacket(ChannelEvents::AcknowledgePacket),
    TimeoutPacket(ChannelEvents::TimeoutPacket),
    ChannelClosed(ChannelEvents::ChannelClosed),
    Module(ModuleEvent),
    Message(MessageEvent),
}

impl IbcEvent {
    /// The kind of the event.
    pub open spec fn kind_view(self) -> Seq<char> {
        match self {
            IbcEvent::CreateClient(_) => ClientEvents::CreateClient::EVENT_KIND@,
            IbcEvent::UpdateClient(_) => ClientEvents::UpdateClient::EVENT_KIND@,
            IbcEvent::UpgradeClient(_) => ClientEvents::UpgradeClient::EVENT_KIND@,
            IbcEvent::ClientMisbehaviour(_) => ClientEvents::ClientMisbehaviour::EVENT_KIND@,
            IbcEvent::OpenInitConnection(_) => ConnectionEvents::OpenInit::EVENT_KIND@,
            IbcEvent::OpenTryConnection(_) => ConnectionEvents::OpenTry::EVENT_KIND@,
            IbcEvent::OpenAckConnection(_) => ConnectionEvents::OpenAck::EVENT_KIND@,
            IbcEvent::OpenConfirmConnection(_) => ConnectionEvents::OpenConfirm::EVENT_KIND@,
            IbcEvent::OpenInitChannel(_) => ChannelEvents::OpenInit::EVENT_KIND@,
            IbcEvent::OpenTryChannel(_) => ChannelEvents::OpenTry::EVENT_KIND@,
            IbcEvent::OpenAckChannel(_) => ChannelEvents::OpenAck::EVENT_KIND@,
            IbcEvent::OpenConfirmChannel(_) => ChannelEvents::OpenConfirm::EVENT_KIND@,
            IbcEvent::CloseInitChannel(_) => ChannelEvents::CloseInit::EVENT_KIND@,
            IbcEvent::CloseConfirmChannel(_) => ChannelEvents::CloseConfirm::EVENT_KIND@,
            IbcEvent::SendPacket(_) => ChannelEvents::SendPacket::EVENT_KIND@,
            IbcEvent::ReceivePacket(_) => ChannelEvents::ReceivePacket::EVENT_KIND@,
            IbcEvent::WriteAcknowledgement(_) => ChannelEvents::WriteAcknowledgement::EVENT_KIND@,
            IbcEvent::AcknowledgePacket(_) => ChannelEvents::AcknowledgePacket::EVENT_KIND@,
            IbcEvent::TimeoutPacket(_) => ChannelEvents::TimeoutPacket::EVENT_KIND@,
            IbcEvent::ChannelClosed(_) => ChannelEvents::ChannelClosed::EVENT_KIND@,
            IbcEvent::Module(e) => e.kind@,
            IbcEvent::Message(_) => MESSAGE_EVENT@,
        }
    }

    /// The ABCI event that this event becomes.
    pub open spec fn abci_view(self) -> (Seq<char>, Seq<(Seq<char>, Seq<char>, bool)>) {
        match self {
            IbcEvent::CreateClient(e) => e.abci_view(),
            IbcEvent::UpdateClient(e) => e.abci_view(),
            IbcEvent::UpgradeClient(e) => e.abci_view(),
            IbcEvent::ClientMisbehaviour(e) => e.abci_view(),
            IbcEvent::OpenInitConnection(e) => e.abci_view(),
            IbcEvent::OpenTryConnection(e) => e.abci_view(),
            IbcEvent::OpenAckConnection(e) => e.abci_view(),
            IbcEvent::OpenConfirmConnection(e) => e.abci_view(),
            IbcEvent::OpenInitChannel(e) => e.abci_view(),
            IbcEvent::OpenTryChannel(e) => e.abci_view(),
            IbcEvent::OpenAckChannel(e) => e.abci_view(),
            IbcEvent::OpenConfirmChannel(e) => e.abci_view(),
            IbcEvent::CloseInitChannel(e) => e.abci_view(),
            IbcEvent::CloseConfirmChannel(e) => e.abci_view(),
            IbcEvent::SendPacket(e) => e.abci_view(),
            IbcEvent::ReceivePacket(e) => e.abci_view(),
            IbcEvent::WriteAcknowledgement(e) => e.abci_view(),
            IbcEvent::AcknowledgePacket(e) => e.abci_view(),
            IbcEvent::TimeoutPacket(e) => e.abci_view(),
            IbcEvent::ChannelClosed(e) => e.abci_view(),
            IbcEvent::Module(e) => e.abci_view(),
            IbcEvent::Message(e) => (MESSAGE_EVENT@, seq![("module"@, e.module_attribute_view(), true)]),
        }
    }

    /// The kind of the event, as its ABCI form carries it.
    pub fn event_type(&self) -> (r: &str)
        ensures
            r@ == self.kind_view(),
    {
        match self {
            IbcEvent::CreateClient(_) => ClientEvents::CreateClient::EVENT_KIND,
            IbcEvent::UpdateClient(_) => ClientEvents::UpdateClient::EVENT_KIND,
            IbcEvent::UpgradeClient(_) => ClientEvents::UpgradeClient::EVENT_KIND,
            IbcEvent::ClientMisbehaviour(_) => ClientEvents::ClientMisbehaviour::EVENT_KIND,
            IbcEvent::OpenInitConnection(_) => ConnectionEvents::OpenInit::EVENT_KIND,
            IbcEvent::OpenTryConnection(_) => ConnectionEvents::OpenTry::EVENT_KIND,
            IbcEvent::OpenAckConnection(_) => ConnectionEvents::OpenAck::EVENT_KIND,
            IbcEvent::OpenConfirmConnection(_) => ConnectionEvents::OpenConfirm::EVENT_KIND,
            IbcEvent::OpenInitChannel(_) => ChannelEvents::OpenInit::EVENT_KIND,
            IbcEvent::OpenTryChannel(_) => ChannelEvents::OpenTry::EVENT_KIND,
            IbcEvent::OpenAckChannel(_) => ChannelEvents::OpenAck::EVENT_KIND,
            IbcEvent::OpenConfirmChannel(_) => ChannelEvents::OpenConfirm::EVENT_KIND,
            IbcEvent::CloseInitChannel(_) => ChannelEvents::CloseInit::EVENT_KIND,
            IbcEvent::CloseConfirmChannel(_) => ChannelEvents::CloseConfirm::EVENT_KIND,
            IbcEvent::SendPacket(_) => ChannelEvents::SendPacket::EVENT_KIND,
            IbcEvent::ReceivePacket(_) => ChannelEvents::ReceivePacket::EVENT_KIND,
            IbcEvent::WriteAcknowledgement(_) => ChannelEvents::WriteAcknowledgement::EVENT_KIND,
            IbcEvent::AcknowledgePacket(_) => ChannelEvents::AcknowledgePacket::EVENT_KIND,
            IbcEvent::TimeoutPacket(_) => ChannelEvents::TimeoutPacket::EVENT_KIND,
            IbcEvent::ChannelClosed(_) => ChannelEvents::ChannelClosed::EVENT_KIND,
            IbcEvent::Module(module_event) => module_event.kind.as_str(),
            IbcEvent::Message(_) => MESSAGE_EVENT,
        }
    }
}

/// The ABCI form of an IBC event. No event fails to convert.
impl TryFrom<IbcEvent> for Event {
    type Error = DecodingError;

    fn try_from(event: IbcEvent) -> (r: Result<Event, DecodingError>)
        ensures
            r matches Ok(e) && e@ == event.abci_view(),
    {
        Ok(match event {
            IbcEvent::CreateClient(e) => Event::from(e),
            IbcEvent::UpdateClient(e) => Event::from(e),
            IbcEvent::UpgradeClient(e) => Event::from(e),
            IbcEvent::ClientMisbehaviour(e) => Event::from(e),
            IbcEvent::OpenInitConnection(e) => Event::from(e),
            IbcEvent::OpenTryConnection(e) => Event::from(e),
            IbcEvent::OpenAckConnection(e) => Event::from(e),
            IbcEvent::OpenConfirmConnection(e) => Event::from(e),
            IbcEvent::OpenInitChannel(e) => Event::from(e),
            IbcEvent::OpenTryChannel(e) => Event::from(e),
            IbcEvent::OpenAckChannel(e) => Event::from(e),
            IbcEvent::OpenConfirmChannel(e) => Event::from(e),
            IbcEvent::CloseInitChannel(e) => Event::from(e),
            IbcEvent::CloseConfirmChannel(e) => Event::from(e),
            IbcEvent::SendPacket(e) => Event::from(e),
            IbcEvent::ReceivePacket(e) => Event::from(e),
            IbcEvent::WriteAcknowledgement(e) => Event::from(e),
            IbcEvent::AcknowledgePacket(e) => Event::from(e),
            IbcEvent::TimeoutPacket(e) => Event::from(e),
            IbcEvent::ChannelClosed(e) => Event::from(e),
            IbcEvent::Module(e) => Event::from(e),
            IbcEvent::Message(e) => {
                let value = e.module_attribute();
                let attribute = EventAttribute::new("module", value, true);
                let attributes = vec![attribute];
                let r = Event { kind: String::from_str(MESSAGE_EVENT), attributes };
                assert(attributes_view(r.attributes@) =~= seq![("module"@, e.module_attribute_view(), true)]);
                r
            },
        })
    }
}

impl vstd::std_specs::convert::TryFromSpecImpl<IbcEvent> for Event {
    open spec fn obeys_try_from_spec() -> bool {
        false
    }

    open spec fn try_from_spec(v: IbcEvent) -> Result<Event, DecodingError> {
        arbitrary()
    }
}

impl From<MessageEvent> for IbcEvent {
    fn from(e: MessageEvent) -> (r: IbcEvent) {
        IbcEvent::Message(e)
    }
}

impl vstd::std_specs::convert::FromSpecImpl<MessageEvent> for IbcEvent {
    open spec fn obeys_from_spec() -> bool {
        true
    }

    open spec fn from_spec(v: MessageEvent) -> IbcEvent {
        IbcEvent::Message(v)
    }
}

impl From<ModuleEvent> for IbcEvent {
    fn from(e: ModuleEvent) -> (r: IbcEvent) {
        IbcEvent::Module(e)
    }
}

impl vstd::std_specs::convert::FromSpecImpl<ModuleEvent> for IbcEvent {
    open spec fn obeys_from_spec() -> bool {
        true
    }

    open spec fn from_spec(v: ModuleEvent) -> IbcEvent {
        IbcEvent::Module(v)
    }
}

/// The kind that `event_type` reports is the kind of the ABCI event that
/// the IBC event becomes, for every event.
pub proof fn lemma_event_type_is_abci_kind(event: IbcEvent)
    ensures
        event.kind_view() == event.abci_view().0,
{
}

} // verus!
