use ibc_event_codec::abci::{Event as AbciEvent, EventAttribute};
use ibc_event_codec::channel_events;
use ibc_event_codec::client_events::{
    ClientIdAttribute, ConsensusHeightsAttribute, CreateClient, HeaderAttribute, UpdateClient,
};
use ibc_event_codec::connection_events::{OpenAck, OpenInit, OpenTry};
use ibc_event_codec::handler_events::DecodingError;
use ibc_event_codec::identifiers::{
    ChannelId, ClientId, ClientType, ConnectionId, Height, IdentifierError, PortId, Sequence,
};
use ibc_event_codec::packet::{Order, TimeoutHeight, TimeoutTimestamp};
use ibc_event_codec::text::parse_u64;

fn attribute(key: &str, value: &str) -> EventAttribute {
    EventAttribute::new(key, value.to_string(), false)
}

fn event(kind: &str, attributes: Vec<EventAttribute>) -> AbciEvent {
    AbciEvent { kind: kind.to_string(), attributes }
}

#[test]
fn test_create_client_try_from() {
    let cases: Vec<(AbciEvent, Result<CreateClient, DecodingError>)> = vec![
        (
            event(
                CreateClient::EVENT_KIND,
                vec![
                    attribute("client_id", "07-tendermint-0"),
                    attribute("client_type", "07-tendermint"),
                    attribute("consensus_height", "1-10"),
                ],
            ),
            Ok(CreateClient::new(
                ClientId::parse("07-tendermint-0").expect("should parse"),
                ClientType::parse("07-tendermint").expect("should parse"),
                Height::new(1, 10).unwrap(),
            )),
        ),
        (
            event(
                "some_other_event",
                vec![
                    attribute("client_id", "07-tendermint-0"),
                    attribute("client_type", "07-tendermint"),
                    attribute("consensus_height", "1-10"),
                ],
            ),
            Err(DecodingError::MismatchedResourceName {
                expected: CreateClient::EVENT_KIND.to_string(),
                actual: "some_other_event".to_string(),
            }),
        ),
        (
            event(
                CreateClient::EVENT_KIND,
                vec![
                    attribute("client_type", "07-tendermint"),
                    attribute("consensus_height", "1-10"),
                ],
            ),
            Err(DecodingError::MissingRawData { description: "attribute key".to_string() }),
        ),
    ];
    for (abci, expected) in cases {
        let result = CreateClient::try_from(abci);
        if expected.is_err() {
            assert!(result.is_err());
        } else {
            assert_eq!(result.unwrap(), expected.unwrap());
        }
    }
}

#[test]
fn test_update_client_try_from() {
    let cases: Vec<(AbciEvent, Result<UpdateClient, DecodingError>)> = vec![
        (
            event(
                UpdateClient::EVENT_KIND,
                vec![
                    attribute("client_id", "07-tendermint-0"),
                    attribute("client_type", "07-tendermint"),
                    attribute("consensus_height", "1-10"),
                    attribute("consensus_heights", "1-10,1-11"),
                    attribute("header", "1234"),
                ],
            ),
            Ok(UpdateClient::new(
                ClientId::parse("07-tendermint-0").expect("should parse"),
                ClientType::parse("07-tendermint").expect("should parse"),
                Height::new(1, 10).unwrap(),
                vec![Height::new(1, 10).unwrap(), Height::new(1, 11).unwrap()],
                vec![0x12, 0x34],
            )),
        ),
        (
            event(
                "some_other_event",
                vec![
                    attribute("client_id", "07-tendermint-0"),
                    attribute("client_type", "07-tendermint"),
                    attribute("consensus_height", "1-10"),
                    attribute("consensus_heights", "1-10,1-11"),
                    attribute("header", "1234"),
                ],
            ),
            Err(DecodingError::MismatchedResourceName {
                expected: UpdateClient::EVENT_KIND.to_string(),
                actual: "some_other_event".to_owned(),
            }),
        ),
        (
            event(
                UpdateClient::EVENT_KIND,
                vec![
                    attribute("client_type", "07-tendermint"),
                    attribute("consensus_height", "1-10"),
                    attribute("consensus_heights", "1-10,1-11"),
                    attribute("header", "1234"),
                ],
            ),
            Err(DecodingError::MissingRawData { description: "attribute key".to_string() }),
        ),
    ];
    for (abci, expected) in cases {
        let result = UpdateClient::try_from(abci);
        if expected.is_err() {
            assert!(result.is_err());
        } else {
            assert_eq!(result.unwrap(), expected.unwrap());
        }
    }
}

#[test]
fn kind_mismatch_names_both_kinds() {
    let err = CreateClient::try_from(event("create", vec![])).unwrap_err();
    assert_eq!(
        err,
        DecodingError::MismatchedResourceName {
            expected: "create_client".to_string(),
            actual: "create".to_string(),
        }
    );
}

#[test]
fn missing_attribute_is_named() {
    let err = CreateClient::try_from(event(
        "create_client",
        vec![attribute("client_id", "07-tendermint-0"), attribute("consensus_height", "1-10")],
    ))
    .unwrap_err();
    assert_eq!(
        err,
        DecodingError::MissingRawData { description: "Attribute client type is not set!".to_string() }
    );
}

#[test]
fn duplicate_attribute_is_refused() {
    let err = CreateClient::try_from(event(
        "create_client",
        vec![
            attribute("client_id", "07-tendermint-0"),
            attribute("client_type", "07-tendermint"),
            attribute("client_id", "07-tendermint-1"),
            attribute("consensus_height", "1-10"),
        ],
    ))
    .unwrap_err();
    assert_eq!(
        err,
        DecodingError::InvalidRawData {
            description: "Duplicate attribute value found for attribute client ID!".to_string(),
        }
    );
}

#[test]
fn first_wrong_attribute_in_the_list_decides() {
    // The bad height comes before the duplicate client type.
    let err = CreateClient::try_from(event(
        "create_client",
        vec![
            attribute("client_id", "07-tendermint-0"),
            attribute("consensus_height", "1-0"),
            attribute("client_type", "07-tendermint"),
            attribute("client_type", "07-tendermint"),
        ],
    ))
    .unwrap_err();
    assert_eq!(err, DecodingError::InvalidRawData { description: "height: zero height".to_string() });
    // A wrong attribute wins over a missing one.
    let err = CreateClient::try_from(event(
        "create_client",
        vec![attribute("client_type", "07-tendermint"), attribute("client_type", "07-tendermint")],
    ))
    .unwrap_err();
    assert!(matches!(err, DecodingError::InvalidRawData { .. }));
}

#[test]
fn other_keys_are_passed_over() {
    let decoded = OpenInit::try_from(event(
        "connection_open_init",
        vec![
            attribute("module", "ibc_connection"),
            attribute("counterparty_client_id", "07-tendermint-1"),
            attribute("client_id", "07-tendermint-0"),
            attribute("connection_id", "connection-7"),
        ],
    ))
    .unwrap();
    assert_eq!(decoded.conn_id_on_a().as_str(), "connection-7");
    assert_eq!(decoded.client_id_on_a().as_str(), "07-tendermint-0");
    assert_eq!(decoded.client_id_on_b().as_str(), "07-tendermint-1");
}

#[test]
fn connection_events_read_back() {
    let client_type = ClientType::parse("07-tendermint").unwrap();
    let open_try = OpenTry::new(
        ConnectionId::new(3),
        client_type.build_client_id(4),
        ConnectionId::zero(),
        client_type.build_client_id(5),
    );
    let abci: AbciEvent = open_try.clone().into();
    assert_eq!(OpenTry::try_from(abci).unwrap(), open_try);
    let open_ack = OpenAck::new(
        ConnectionId::new(18446744073709551615),
        client_type.build_client_id(0),
        ConnectionId::new(1),
        client_type.build_client_id(1),
    );
    let abci: AbciEvent = open_ack.clone().into();
    assert_eq!(OpenAck::try_from(abci).unwrap(), open_ack);
}

#[test]
fn packet_events_read_back() {
    let send = channel_events::SendPacket::new(
        vec![0x00, 0xff, 0x10],
        TimeoutHeight::At(Height::new(2, 30).unwrap()),
        TimeoutTimestamp::At(1_700_000_000_000_000_000),
        Sequence::new(9),
        PortId::transfer(),
        ChannelId::new(4),
        PortId::parse("transfer").unwrap(),
        ChannelId::zero(),
        Order::Unordered,
        ConnectionId::new(2),
    );
    let abci: AbciEvent = send.clone().into();
    assert_eq!(channel_events::SendPacket::try_from(abci).unwrap(), send);
    let timeout = channel_events::TimeoutPacket::new(
        TimeoutHeight::Never,
        TimeoutTimestamp::Never,
        Sequence::new(0),
        PortId::transfer(),
        ChannelId::new(4),
        PortId::transfer(),
        ChannelId::zero(),
        Order::Ordered,
    );
    let abci: AbciEvent = timeout.clone().into();
    assert_eq!(channel_events::TimeoutPacket::try_from(abci).unwrap(), timeout);
}

#[test]
fn client_identifier_rules() {
    assert!(ClientId::parse("07-tendermint-0").is_ok());
    assert!(matches!(ClientId::parse("07-tend"), Err(IdentifierError::InvalidLength { .. })));
    assert!(matches!(ClientId::parse("07 tendermint-0"), Err(IdentifierError::InvalidCharacter { .. })));
    assert!(ClientType::parse("07-tendermint").is_ok());
    assert!(ClientType::parse("07-tend").is_ok());
    assert!(matches!(ClientType::parse("07-ten"), Err(IdentifierError::InvalidLength { .. })));
    assert!(PortId::parse("a").is_err());
    assert!(PortId::parse("ab").is_ok());
}

#[test]
fn counted_identifier_rules() {
    assert!(ConnectionId::parse("connection-0").is_ok());
    assert!(ConnectionId::parse("connection-+12").is_ok());
    assert!(matches!(ConnectionId::parse("connection-x"), Err(IdentifierError::FailedToParse { .. })));
    assert!(matches!(ConnectionId::parse("connections-1"), Err(IdentifierError::FailedToParse { .. })));
    assert!(matches!(ConnectionId::parse("connection"), Err(IdentifierError::FailedToParse { .. })));
    assert!(matches!(ConnectionId::parse("conn-1"), Err(IdentifierError::InvalidLength { .. })));
    assert!(ChannelId::parse("channel-7").is_ok());
    assert!(matches!(ChannelId::parse("channel-18446744073709551616"), Err(IdentifierError::FailedToParse { .. })));
    assert!(matches!(ChannelId::parse("channel/7"), Err(IdentifierError::InvalidCharacter { .. })));
}

#[test]
fn numbers_read_as_u64_from_str() {
    assert_eq!(parse_u64("0"), Some(0));
    assert_eq!(parse_u64("+42"), Some(42));
    assert_eq!(parse_u64("007"), Some(7));
    assert_eq!(parse_u64("18446744073709551615"), Some(u64::MAX));
    assert_eq!(parse_u64("18446744073709551616"), None);
    assert_eq!(parse_u64(""), None);
    assert_eq!(parse_u64("+"), None);
    assert_eq!(parse_u64("-1"), None);
    assert_eq!(parse_u64("1 "), None);
}

#[test]
fn heights_read_back() {
    let h = Height::parse("3-+07").unwrap();
    assert_eq!((h.revision_number(), h.revision_height()), (3, 7));
    assert!(Height::parse("3-0").is_err());
    assert!(Height::parse("37").is_err());
    assert!(Height::parse("1-2-3").is_err());
    let heights = ConsensusHeightsAttribute::parse("1-10,1-11").unwrap();
    assert_eq!(heights.value().len(), 2);
    assert!(ConsensusHeightsAttribute::parse("").is_err());
    assert!(ConsensusHeightsAttribute::parse("1-10,").is_err());
}

#[test]
fn orderings_read_as_order_from_str() {
    assert_eq!(Order::parse("ORDER_ORDERED"), Some(Order::Ordered));
    assert_eq!(Order::parse("order_order_unordered"), Some(Order::Unordered));
    assert_eq!(Order::parse("Uninitialized"), Some(Order::Unspecified));
    assert_eq!(Order::parse("ORDER_NONE_UNSPECIFIED"), None);
    assert_eq!(Order::parse("ordered "), None);
}

#[test]
fn hex_attributes_read_lower_case_only() {
    let header = HeaderAttribute::parse("00ff10").unwrap();
    assert_eq!(header.value(), &vec![0x00, 0xff, 0x10]);
    assert!(HeaderAttribute::parse("00FF").is_err());
    assert!(HeaderAttribute::parse("abc").is_err());
    assert_eq!(HeaderAttribute::parse("").unwrap().value().len(), 0);
    assert!(channel_events::AcknowledgementAttribute::parse("").is_err());
    assert!(channel_events::AcknowledgementAttribute::parse("01").is_ok());
}

#[test]
fn timeouts_read_back() {
    assert_eq!(*channel_events::TimeoutHeightAttribute::parse("0-0").unwrap().value(), TimeoutHeight::Never);
    assert_eq!(
        *channel_events::TimeoutTimestampAttribute::parse("0").unwrap().value(),
        TimeoutTimestamp::Never
    );
    assert_eq!(
        *channel_events::TimeoutTimestampAttribute::parse("5").unwrap().value(),
        TimeoutTimestamp::At(5)
    );
    assert!(channel_events::MaybeCounterpartyChannelIdAttribute::parse("").unwrap().value().is_none());
}

#[test]
fn attribute_key_must_match() {
    let err = ClientIdAttribute::try_from(attribute("client_type", "07-tendermint-0")).unwrap_err();
    assert_eq!(
        err,
        DecodingError::MismatchedResourceName {
            expected: "client_id".to_string(),
            actual: "client_type".to_string(),
        }
    );
    let ok = ClientIdAttribute::try_from(attribute("client_id", "07-tendermint-0")).unwrap();
    assert_eq!(ok.value().as_str(), "07-tendermint-0");
    let parsed: ClientIdAttribute = "07-tendermint-9".parse().unwrap();
    assert_eq!(parsed.value().as_str(), "07-tendermint-9");
}

#[test]
fn events_read_from_key_value_pairs() {
    let pairs = vec![
        ("client_id".to_string(), "07-tendermint-0".to_string()),
        ("client_type".to_string(), "07-tendermint".to_string()),
        ("consensus_height".to_string(), "1-10".to_string()),
    ];
    let decoded = CreateClient::try_from(("create_client".to_string(), pairs.clone())).unwrap();
    assert_eq!(
        decoded,
        CreateClient::new(
            ClientId::parse("07-tendermint-0").unwrap(),
            ClientType::parse("07-tendermint").unwrap(),
            Height::new(1, 10).unwrap(),
        )
    );
    assert!(CreateClient::try_from(("update_client".to_string(), pairs)).is_err());
}
