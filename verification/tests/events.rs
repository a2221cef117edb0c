use ibc_event_codec::abci::Event as AbciEvent;
use ibc_event_codec::channel_events;
use ibc_event_codec::client_events::{CreateClient, UpdateClient};
use ibc_event_codec::connection_events::{OpenAck, OpenConfirm, OpenInit, OpenTry};
use ibc_event_codec::handler_events::{IbcEvent, MessageEvent, ModuleEvent, ModuleEventAttribute};
use ibc_event_codec::identifiers::{ChannelId, ClientType, ConnectionId, Height, PortId, Sequence, Version};
use ibc_event_codec::packet::{Acknowledgement, Order, TimeoutHeight, TimeoutTimestamp};

#[test]
fn ibc_to_abci_connection_events() {
    struct Test {
        kind: &'static str,
        event: AbciEvent,
        expected_keys: Vec<&'static str>,
        expected_values: Vec<&'static str>,
    }

    let client_type =
        ClientType::parse("07-tendermint").expect("never fails because it's a valid client type");
    let conn_id_on_a = ConnectionId::zero();
    let client_id_on_a = client_type.build_client_id(0);
    let conn_id_on_b = ConnectionId::new(1);
    let client_id_on_b = client_type.build_client_id(1);
    let expected_keys = vec![
        "connection_id",
        "client_id",
        "counterparty_connection_id",
        "counterparty_client_id",
    ];

    let tests: Vec<Test> = vec![
        Test {
            kind: OpenInit::EVENT_KIND,
            event: OpenInit {
                conn_id_on_a: conn_id_on_a.clone().into(),
                client_id_on_a: client_id_on_a.clone().into(),
                client_id_on_b: client_id_on_b.clone().into(),
            }
            .into(),
            expected_keys: vec!["connection_id", "client_id", "counterparty_client_id"],
            expected_values: vec!["connection-0", "07-tendermint-0", "07-tendermint-1"],
        },
        Test {
            kind: OpenTry::EVENT_KIND,
            event: OpenTry {
                conn_id_on_a: conn_id_on_b.clone().into(),
                client_id_on_a: client_id_on_b.clone().into(),
                conn_id_on_b: conn_id_on_a.clone().into(),
                client_id_on_b: client_id_on_a.clone().into(),
            }
            .into(),
            expected_keys: expected_keys.clone(),
            expected_values: vec![
                "connection-1",
                "07-tendermint-1",
                "connection-0",
                "07-tendermint-0",
            ],
        },
        Test {
            kind: OpenAck::EVENT_KIND,
            event: OpenAck {
                conn_id_on_a: conn_id_on_a.clone().into(),
                client_id_on_a: client_id_on_a.clone().into(),
                conn_id_on_b: conn_id_on_b.clone().into(),
                client_id_on_b: client_id_on_b.clone().into(),
            }
            .into(),
            expected_keys: expected_keys.clone(),
            expected_values: vec![
                "connection-0",
                "07-tendermint-0",
                "connection-1",
                "07-tendermint-1",
            ],
        },
        Test {
            kind: OpenConfirm::EVENT_KIND,
            event: OpenConfirm {
                conn_id_on_a: conn_id_on_b.into(),
                client_id_on_a: client_id_on_b.into(),
                conn_id_on_b: conn_id_on_a.into(),
                client_id_on_b: client_id_on_a.into(),
            }
            .into(),
            expected_keys: expected_keys.clone(),
            expected_values: vec![
                "connection-1",
                "07-tendermint-1",
                "connection-0",
                "07-tendermint-0",
            ],
        },
    ];

    for t in tests {
        assert_eq!(t.kind, t.event.kind);
        assert_eq!(t.expected_keys.len(), t.event.attributes.len());
        for (i, e) in t.event.attributes.iter().enumerate() {
            assert_eq!(e.key_str(), t.expected_keys[i], "key mismatch for {:?}", t.kind);
        }
        for (i, e) in t.event.attributes.iter().enumerate() {
            assert_eq!(e.value_str(), t.expected_values[i], "value mismatch for {:?}", t.kind);
        }
    }
}

#[test]
fn ibc_to_abci_channel_events() {
    struct Test {
        kind: &'static str,
        event: AbciEvent,
        expected_keys: Vec<&'static str>,
        expected_values: Vec<&'static str>,
    }

    let port_id = PortId::transfer();
    let channel_id = ChannelId::zero();
    let connection_id = ConnectionId::zero();
    let counterparty_port_id = PortId::transfer();
    let counterparty_channel_id = ChannelId::new(1);
    let version = Version::new("ics20-1".to_string());
    let expected_keys = vec![
        "port_id",
        "channel_id",
        "counterparty_port_id",
        "counterparty_channel_id",
        "connection_id",
        "version",
    ];
    let expected_values = vec![
        "transfer",
        "channel-0",
        "transfer",
        "channel-1",
        "connection-0",
        "ics20-1",
    ];

    let tests: Vec<Test> = vec![
        Test {
            kind: channel_events::OpenInit::EVENT_KIND,
            event: channel_events::OpenInit::new(
                port_id.clone(),
                channel_id.clone(),
                counterparty_port_id.clone(),
                connection_id.clone(),
                version.clone(),
            )
            .into(),
            expected_keys: vec![
                "port_id",
                "channel_id",
                "counterparty_port_id",
                "connection_id",
                "version",
            ],
            expected_values: vec![
                "transfer",
                "channel-0",
                "transfer",
                "connection-0",
                "ics20-1",
            ],
        },
        Test {
            kind: channel_events::OpenTry::EVENT_KIND,
            event: channel_events::OpenTry::new(
                port_id.clone(),
                channel_id.clone(),
                counterparty_port_id.clone(),
                counterparty_channel_id.clone(),
                connection_id.clone(),
                version,
            )
            .into(),
            expected_keys: expected_keys.clone(),
            expected_values: expected_values.clone(),
        },
        Test {
            kind: channel_events::OpenAck::EVENT_KIND,
            event: channel_events::OpenAck::new(
                port_id.clone(),
                channel_id.clone(),
                counterparty_port_id.clone(),
                counterparty_channel_id.clone(),
                connection_id.clone(),
            )
            .into(),
            expected_keys: expected_keys[0..5].to_vec(),
            expected_values: expected_values[0..5].to_vec(),
        },
        Test {
            kind: channel_events::OpenConfirm::EVENT_KIND,
            event: channel_events::OpenConfirm::new(
                port_id.clone(),
                channel_id.clone(),
                counterparty_port_id.clone(),
                counterparty_channel_id.clone(),
                connection_id.clone(),
            )
            .into(),
            expected_keys: expected_keys[0..5].to_vec(),
            expected_values: expected_values[0..5].to_vec(),
        },
        Test {
            kind: channel_events::CloseInit::EVENT_KIND,
            event: channel_events::CloseInit::new(
                port_id.clone(),
                channel_id.clone(),
                counterparty_port_id.clone(),
                counterparty_channel_id.clone(),
                connection_id.clone(),
            )
            .into(),
            expected_keys: expected_keys[0..5].to_vec(),
            expected_values: expected_values[0..5].to_vec(),
        },
        Test {
            kind: channel_events::CloseConfirm::EVENT_KIND,
            event: channel_events::CloseConfirm::new(
                port_id,
                channel_id,
                counterparty_port_id,
                counterparty_channel_id,
                connection_id,
            )
            .into(),
            expected_keys: expected_keys[0..5].to_vec(),
            expected_values: expected_values[0..5].to_vec(),
        },
    ];

    for t in tests {
        assert_eq!(t.kind, t.event.kind);
        assert_eq!(t.expected_keys.len(), t.event.attributes.len());
        for (i, e) in t.event.attributes.iter().enumerate() {
            assert_eq!(e.key_str(), t.expected_keys[i], "key mismatch for {:?}", t.kind);
        }
        assert_eq!(t.expected_values.len(), t.event.attributes.len());
        for (i, e) in t.event.attributes.iter().enumerate() {
            assert_eq!(e.value_str(), t.expected_values[i], "value mismatch for {:?}", t.kind);
        }
    }
}

fn keys_and_values(event: &AbciEvent) -> Vec<(String, String, bool)> {
    event
        .attributes
        .iter()
        .map(|a| (a.key.clone(), a.value.clone(), a.index))
        .collect()
}

#[test]
fn send_packet_event_spells_every_attribute() {
    let event = channel_events::SendPacket::new(
        vec![0x01, 0xab, 0xff],
        TimeoutHeight::At(Height::new(2, 345).unwrap()),
        TimeoutTimestamp::At(1_700_000_000_000_000_000),
        Sequence::new(42),
        PortId::transfer(),
        ChannelId::new(7),
        PortId::transfer(),
        ChannelId::new(12),
        Order::Unordered,
        ConnectionId::new(3),
    );
    let abci: AbciEvent = event.into();
    assert_eq!(abci.kind, "send_packet");
    let expected: Vec<(String, String, bool)> = vec![
        ("packet_data_hex", "01abff"),
        ("packet_timeout_height", "2-345"),
        ("packet_timeout_timestamp", "1700000000000000000"),
        ("packet_sequence", "42"),
        ("packet_src_port", "transfer"),
        ("packet_src_channel", "channel-7"),
        ("packet_dst_port", "transfer"),
        ("packet_dst_channel", "channel-12"),
        ("packet_channel_ordering", "ORDER_UNORDERED"),
        ("connection_id", "connection-3"),
    ]
    .into_iter()
    .map(|(k, v)| (k.to_string(), v.to_string(), false))
    .collect();
    assert_eq!(keys_and_values(&abci), expected);
}

#[test]
fn timeouts_that_never_fire_are_spelled_as_zero() {
    let event = channel_events::TimeoutPacket::new(
        TimeoutHeight::Never,
        TimeoutTimestamp::Never,
        Sequence::new(0),
        PortId::transfer(),
        ChannelId::zero(),
        PortId::transfer(),
        ChannelId::new(1),
        Order::Ordered,
    );
    let abci: AbciEvent = event.into();
    assert_eq!(abci.kind, "timeout_packet");
    assert_eq!(abci.attributes[0].value, "0-0");
    assert_eq!(abci.attributes[1].value, "0");
    assert_eq!(abci.attributes[2].value, "0");
    assert_eq!(abci.attributes[7].value, "ORDER_ORDERED");
}

#[test]
fn channel_closed_without_counterparty_channel_is_empty() {
    let event = channel_events::ChannelClosed::new(
        PortId::transfer(),
        ChannelId::new(4),
        PortId::transfer(),
        None,
        ConnectionId::zero(),
        Order::Unspecified,
    );
    let abci: AbciEvent = event.into();
    assert_eq!(abci.kind, "channel_close");
    assert_eq!(abci.attributes[3].key, "counterparty_channel_id");
    assert_eq!(abci.attributes[3].value, "");
    assert_eq!(abci.attributes[5].value, "ORDER_NONE_UNSPECIFIED");
}

#[test]
fn write_acknowledgement_spells_ack_in_hex() {
    let ack = Acknowledgement::new(vec![0x7b, 0x22, 0x7d]).unwrap();
    let event = channel_events::WriteAcknowledgement::new(
        vec![],
        TimeoutHeight::Never,
        TimeoutTimestamp::At(5),
        Sequence::new(9),
        PortId::transfer(),
        ChannelId::zero(),
        PortId::transfer(),
        ChannelId::new(1),
        ack,
        ConnectionId::zero(),
    );
    let abci: AbciEvent = event.into();
    assert_eq!(abci.attributes[0].value, "");
    assert_eq!(abci.attributes[2].value, "5");
    assert_eq!(abci.attributes[8].key, "packet_ack_hex");
    assert_eq!(abci.attributes[8].value, "7b227d");
}

#[test]
fn empty_acknowledgement_is_refused() {
    assert!(Acknowledgement::new(vec![]).is_err());
}

#[test]
fn height_zero_is_refused() {
    assert!(Height::new(1, 0).is_err());
    assert!(Height::new(0, 1).is_ok());
}

#[test]
fn update_client_event_joins_heights() {
    let client_type = ClientType::new("07-tendermint");
    let event = UpdateClient::new(
        client_type.build_client_id(0),
        client_type.clone(),
        Height::new(1, 10).unwrap(),
        vec![Height::new(1, 10).unwrap(), Height::new(1, 11).unwrap()],
        vec![0x12, 0x34],
    );
    let abci: AbciEvent = event.into();
    assert_eq!(abci.kind, "update_client");
    let expected: Vec<(String, String, bool)> = vec![
        ("client_id", "07-tendermint-0"),
        ("client_type", "07-tendermint"),
        ("consensus_height", "1-10"),
        ("consensus_heights", "1-10,1-11"),
        ("header", "1234"),
    ]
    .into_iter()
    .map(|(k, v)| (k.to_string(), v.to_string(), false))
    .collect();
    assert_eq!(keys_and_values(&abci), expected);
}

#[test]
fn create_client_event() {
    let client_type = ClientType::new("07-tendermint");
    let event = CreateClient::new(
        client_type.build_client_id(0),
        client_type,
        Height::new(1, 10).unwrap(),
    );
    assert_eq!(event.consensus_height(), &Height::new(1, 10).unwrap());
    let abci: AbciEvent = event.into();
    assert_eq!(abci.kind, CreateClient::EVENT_KIND);
    assert_eq!(abci.attributes.len(), 3);
    assert_eq!(abci.attributes[2].value, "1-10");
}

#[test]
fn message_event_has_one_indexed_module_attribute() {
    let cases = vec![
        (MessageEvent::Client, "ibc_client"),
        (MessageEvent::Connection, "ibc_connection"),
        (MessageEvent::Channel, "ibc_channel"),
        (MessageEvent::Module("transfer".to_string()), "transfer"),
    ];
    for (message, module) in cases {
        assert_eq!(message.module_attribute(), module);
        let event: IbcEvent = message.into();
        assert_eq!(event.event_type(), "message");
        let abci = AbciEvent::try_from(event).unwrap();
        assert_eq!(abci.kind, "message");
        assert_eq!(abci.attributes.len(), 1);
        assert_eq!(abci.attributes[0].key, "module");
        assert_eq!(abci.attributes[0].value, module);
        assert!(abci.attributes[0].index);
    }
}

#[test]
fn module_event_keeps_kind_and_attributes() {
    let module_event = ModuleEvent {
        kind: "fungible_token_packet".to_string(),
        attributes: vec![
            ModuleEventAttribute { key: "sender".to_string(), value: "alice".to_string() },
            ModuleEventAttribute { key: "amount".to_string(), value: "10".to_string() },
        ],
    };
    let event: IbcEvent = module_event.into();
    assert_eq!(event.event_type(), "fungible_token_packet");
    let abci = AbciEvent::try_from(event).unwrap();
    assert_eq!(abci.kind, "fungible_token_packet");
    assert_eq!(
        keys_and_values(&abci),
        vec![
            ("sender".to_string(), "alice".to_string(), false),
            ("amount".to_string(), "10".to_string(), false),
        ]
    );
}

#[test]
fn event_type_is_the_kind_of_the_abci_event() {
    let client_type = ClientType::new("07-tendermint");
    let events = vec![
        IbcEvent::OpenTryConnection(OpenTry::new(
            ConnectionId::new(1),
            client_type.build_client_id(1),
            ConnectionId::zero(),
            client_type.build_client_id(0),
        )),
        IbcEvent::OpenInitChannel(channel_events::OpenInit::new(
            PortId::transfer(),
            ChannelId::zero(),
            PortId::transfer(),
            ConnectionId::zero(),
            Version::new("ics20-1".to_string()),
        )),
        IbcEvent::CreateClient(CreateClient::new(
            client_type.build_client_id(0),
            client_type.clone(),
            Height::new(0, 1).unwrap(),
        )),
        IbcEvent::Message(MessageEvent::Channel),
    ];
    let expected = vec!["connection_open_try", "channel_open_init", "create_client", "message"];
    for (event, kind) in events.into_iter().zip(expected) {
        assert_eq!(event.event_type(), kind);
        let reported = event.event_type().to_string();
        let abci = AbciEvent::try_from(event).unwrap();
        assert_eq!(abci.kind, reported);
    }
}

#[test]
fn attribute_newtype_gives_back_its_value() {
    let id = ConnectionId::new(17);
    let attribute: ibc_event_codec::connection_events::ConnectionIdAttribute = id.clone().into();
    assert_eq!(attribute.value(), &id);
    let back: ConnectionId = attribute.into();
    assert_eq!(back, id);
    assert_eq!(back.as_str(), "connection-17");
}

#[test]
fn large_counters_are_spelled_in_full() {
    assert_eq!(ConnectionId::new(u64::MAX).as_str(), "connection-18446744073709551615");
    assert_eq!(ChannelId::new(10).as_str(), "channel-10");
    let event = channel_events::AcknowledgePacket::new(
        TimeoutHeight::At(Height::new(u64::MAX, 1).unwrap()),
        TimeoutTimestamp::At(u64::MAX),
        Sequence::new(1_000_000),
        PortId::transfer(),
        ChannelId::zero(),
        PortId::transfer(),
        ChannelId::zero(),
        Order::Ordered,
        ConnectionId::zero(),
    );
    let abci: AbciEvent = event.into();
    assert_eq!(abci.attributes[0].value, "18446744073709551615-1");
    assert_eq!(abci.attributes[1].value, "18446744073709551615");
    assert_eq!(abci.attributes[2].value, "1000000");
}
