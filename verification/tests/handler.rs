use ibc_event_codec::conn_open_try::{
    open_try_execution, open_try_validation_plan, ConnOpenTryError, OpenTryEffect, ValidationStep,
    OPEN_TRY_SUCCESS,
};
use ibc_event_codec::handler_events::{IbcEvent, MessageEvent};
use ibc_event_codec::identifiers::{ClientId, ConnectionId, Height};

#[test]
fn open_try_without_counterparty_connection_is_refused() {
    let r = open_try_execution(
        3,
        ClientId::from_name("07-tendermint-0"),
        ClientId::from_name("07-tendermint-1"),
        None,
    );
    assert_eq!(r.unwrap_err(), ConnOpenTryError::InvalidCounterparty);
}

#[test]
fn open_try_emits_stores_and_logs_in_order() {
    let effects = open_try_execution(
        3,
        ClientId::from_name("07-tendermint-0"),
        ClientId::from_name("07-tendermint-1"),
        Some(ConnectionId::from_name("connection-7")),
    )
    .unwrap();
    assert_eq!(effects.len(), 6);
    match &effects[0] {
        OpenTryEffect::EmitIbcEvent(IbcEvent::Message(MessageEvent::Connection)) => {},
        other => panic!("unexpected {:?}", other),
    }
    match &effects[1] {
        OpenTryEffect::EmitIbcEvent(IbcEvent::OpenTryConnection(e)) => {
            assert_eq!(e.conn_id_on_a().as_str(), "connection-3");
            assert_eq!(e.client_id_on_a().as_str(), "07-tendermint-0");
            assert_eq!(e.conn_id_on_b().as_str(), "connection-7");
            assert_eq!(e.client_id_on_b().as_str(), "07-tendermint-1");
        },
        other => panic!("unexpected {:?}", other),
    }
    match &effects[2] {
        OpenTryEffect::LogMessage(m) => assert_eq!(m, OPEN_TRY_SUCCESS),
        other => panic!("unexpected {:?}", other),
    }
    assert!(matches!(effects[3], OpenTryEffect::IncreaseConnectionCounter));
    match &effects[4] {
        OpenTryEffect::StoreConnectionToClient { client_id, conn_id } => {
            assert_eq!(client_id.as_str(), "07-tendermint-0");
            assert_eq!(conn_id.as_str(), "connection-3");
        },
        other => panic!("unexpected {:?}", other),
    }
    match &effects[5] {
        OpenTryEffect::StoreConnection { conn_id } => assert_eq!(conn_id.as_str(), "connection-3"),
        other => panic!("unexpected {:?}", other),
    }
}

#[test]
fn open_try_validation_without_counterparty_connection_is_refused() {
    let r = open_try_validation_plan(
        ClientId::from_name("07-tendermint-0"),
        ClientId::from_name("07-tendermint-1"),
        None,
        Height::new(1, 10).unwrap(),
        0,
    );
    assert_eq!(r.unwrap_err(), ConnOpenTryError::InvalidCounterparty);
}

#[test]
fn open_try_validation_checks_in_order() {
    let steps = open_try_validation_plan(
        ClientId::from_name("07-tendermint-0"),
        ClientId::from_name("07-tendermint-1"),
        Some(ConnectionId::from_name("connection-7")),
        Height::new(2, 15).unwrap(),
        30,
    )
    .unwrap();
    assert_eq!(steps.len(), 6);
    assert!(matches!(steps[0], ValidationStep::ValidateSigner));
    match &steps[1] {
        ValidationStep::LoadClientState { client_id } => assert_eq!(client_id.as_str(), "07-tendermint-0"),
        other => panic!("unexpected {:?}", other),
    }
    match &steps[2] {
        ValidationStep::CheckClientActive { client_id } => assert_eq!(client_id.as_str(), "07-tendermint-0"),
        other => panic!("unexpected {:?}", other),
    }
    match &steps[3] {
        ValidationStep::ValidateProofHeight { height } => {
            assert_eq!((height.revision_number(), height.revision_height()), (2, 15))
        },
        other => panic!("unexpected {:?}", other),
    }
    match &steps[4] {
        ValidationStep::LoadConsensusState { client_id, height } => {
            assert_eq!(client_id.as_str(), "07-tendermint-0");
            assert_eq!((height.revision_number(), height.revision_height()), (2, 15));
        },
        other => panic!("unexpected {:?}", other),
    }
    match &steps[5] {
        ValidationStep::VerifyCounterpartyConnection {
            conn_id_on_a,
            client_id_on_a,
            counterparty_client_id,
            delay_period,
        } => {
            assert_eq!(conn_id_on_a.as_str(), "connection-7");
            assert_eq!(client_id_on_a.as_str(), "07-tendermint-1");
            assert_eq!(counterparty_client_id.as_str(), "07-tendermint-0");
            assert_eq!(*delay_period, 30);
        },
        other => panic!("unexpected {:?}", other),
    }
}

#[test]
fn open_try_event_reads_back() {
    let effects = open_try_execution(
        12,
        ClientId::parse("07-tendermint-0").unwrap(),
        ClientId::parse("07-tendermint-1").unwrap(),
        Some(ConnectionId::parse("connection-7").unwrap()),
    )
    .unwrap();
    match &effects[1] {
        OpenTryEffect::EmitIbcEvent(IbcEvent::OpenTryConnection(e)) => {
            let abci: ibc_event_codec::abci::Event = e.clone().into();
            let decoded = ibc_event_codec::connection_events::OpenTry::try_from(abci).unwrap();
            assert_eq!(&decoded, e);
        },
        other => panic!("unexpected {:?}", other),
    }
}
