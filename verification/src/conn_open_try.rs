//! What the host chain does, and in which order, when it executes the
//! `ConnOpenTry` step of the connection handshake, and what it checks
//! before: the decisions of the handler, apart from the calls on the host's
//! context that carry them out.
use vstd::prelude::*;
use crate::connection_events::{
    ClientIdAttribute, ConnectionIdAttribute, CounterpartyClientIdAttribute,
    CounterpartyConnectionIdAttribute, OpenTry,
};
use crate::handler_events::{IbcEvent, MessageEvent};
use crate::text::{decimal, is_u64_text, u64_text_value};
use crate::identifiers::{
    counted, is_client_id, is_connection_id, lemma_built_identifiers_valid, lemma_counted_reads_counter, ClientId, ConnectionId,
    Height,
};

verus! {

/// The message that the handler logs once the step is done.
pub const OPEN_TRY_SUCCESS: &'static str = "success: conn_open_try verification passed";

/// One thing that the host chain is asked to do.
#[derive(Debug)]
pub enum OpenTryEffect {
    /// Emit this IBC event.
    EmitIbcEvent(IbcEvent),
    /// Log this message.
    LogMessage(String),
    /// Count one more connection.
    IncreaseConnectionCounter,
    /// Record that the client `client_id` has the connection `conn_id`.
    StoreConnectionToClient { client_id: ClientId, conn_id: ConnectionId },
    /// Store the new connection end under `conn_id`.
    StoreConnection { conn_id: ConnectionId },
}

/// Why the step is refused.
#[derive(Clone, Copy, Debug, PartialEq, Eq)]
pub enum ConnOpenTryError {
    /// The counterparty does not name its connection.
    InvalidCounterparty,
}

/// Whether `effects` are the steps of executing `ConnOpenTry` on this chain
/// (B) for a connection numbered `counter`, whose client here is
/// `client_id_on_b`, and whose counterparty (A) has the client
/// `client_id_on_a` and the connection `conn_id_on_a`: emit the message
/// event of the connection module, then the `OpenTry` event with this
/// chain's side first, log the success, count the connection, record it
/// for the client and store it.
pub open spec fn open_try_effects(
    effects: Seq<OpenTryEffect>,
    counter: u64,
    client_id_on_b: ClientId,
    client_id_on_a: ClientId,
    conn_id_on_a: ConnectionId,
) -> bool {
    let conn_id_on_b = counted("connection-"@, counter);
    &&& effects.len() == 6
    &&& effects[0] == OpenTryEffect::EmitIbcEvent(IbcEvent::Message(MessageEvent::Connection))
    &&& effects[1] matches OpenTryEffect::EmitIbcEvent(IbcEvent::OpenTryConnection(e)) && {
        &&& e.conn_id_on_a@@ == conn_id_on_b
        &&& e.client_id_on_a@@ == client_id_on_b@
        &&& e.conn_id_on_b@@ == conn_id_on_a@
        &&& e.client_id_on_b@@ == client_id_on_a@
    }
    &&& effects[2] matches OpenTryEffect::LogMessage(m) && m@ == OPEN_TRY_SUCCESS@
    &&& effects[3] is IncreaseConnectionCounter
    &&& effects[4] matches OpenTryEffect::StoreConnectionToClient { client_id, conn_id } && client_id@
        == client_id_on_b@ && conn_id@ == conn_id_on_b
    &&& effects[5] matches OpenTryEffect::StoreConnection { conn_id } && conn_id@ == conn_id_on_b
}

/// Whether the connection that `effects` announce, record for the client
/// and store is the one spelled `conn_id`: the identifier that the event
/// gives this chain's side, and the one under which both stores are made.
pub open spec fn new_connection_is_numbered(effects: Seq<OpenTryEffect>, conn_id: Seq<char>) -> bool {
    &&& effects.len() == 6
    &&& effects[1] matches OpenTryEffect::EmitIbcEvent(IbcEvent::OpenTryConnection(e))
        && e.conn_id_on_a@@ == conn_id
    &&& effects[4] matches OpenTryEffect::StoreConnectionToClient { conn_id: c, .. } && c@ == conn_id
    &&& effects[5] matches OpenTryEffect::StoreConnection { conn_id: c } && c@ == conn_id
}

/// Decides how the host chain executes `ConnOpenTry`, given the value of
/// its connection counter and, from the message, its own client and the
/// counterparty's client and connection. The new connection is numbered by
/// the counter; the step is refused when the counterparty does not name
/// its connection.
pub fn open_try_execution(
    connection_counter: u64,
    client_id_on_b: ClientId,
    client_id_on_a: ClientId,
    counterparty_conn_id: Option<ConnectionId>,
) -> (r: Result<Vec<OpenTryEffect>, ConnOpenTryError>)
    ensures
        r is Err <==> counterparty_conn_id is None,
        r matches Err(e) ==> e == ConnOpenTryError::InvalidCounterparty,
        r matches Ok(effects) ==> open_try_effects(
            effects@,
            connection_counter,
            client_id_on_b,
            client_id_on_a,
            counterparty_conn_id->Some_0,
        ),
        r matches Ok(effects) ==> new_connection_is_numbered(
            effects@,
            "connection-"@ + decimal(connection_counter as nat),
        ),
        r matches Ok(effects) ==> (effects@[1] matches OpenTryEffect::EmitIbcEvent(
            IbcEvent::OpenTryConnection(e),
        ) && e.client_id_on_a@@ == client_id_on_b@ && e.conn_id_on_b@@
            == counterparty_conn_id->Some_0@ && e.client_id_on_b@@ == client_id_on_a@),
        r matches Ok(effects) ==> (effects@[4] matches OpenTryEffect::StoreConnectionToClient {
            client_id,
            ..
        } && client_id@ == client_id_on_b@),
{
    let conn_id_on_a = match counterparty_conn_id {
        Some(id) => id,
        None => {
            return Err(ConnOpenTryError::InvalidCounterparty);
        },
    };
    let event = OpenTry {
        conn_id_on_a: ConnectionIdAttribute::new(ConnectionId::new(connection_counter)),
        client_id_on_a: ClientIdAttribute::new(ClientId::from_name(client_id_on_b.as_str())),
        conn_id_on_b: CounterpartyConnectionIdAttribute::new(conn_id_on_a),
        client_id_on_b: CounterpartyClientIdAttribute::new(client_id_on_a),
    };
    let effects = vec![
        OpenTryEffect::EmitIbcEvent(IbcEvent::Message(MessageEvent::Connection)),
        OpenTryEffect::EmitIbcEvent(IbcEvent::OpenTryConnection(event)),
        OpenTryEffect::LogMessage(String::from_str(OPEN_TRY_SUCCESS)),
        OpenTryEffect::IncreaseConnectionCounter,
        OpenTryEffect::StoreConnectionToClient {
            client_id: client_id_on_b,
            conn_id: ConnectionId::new(connection_counter),
        },
        OpenTryEffect::StoreConnection { conn_id: ConnectionId::new(connection_counter) },
    ];
    Ok(effects)
}

/// One check that the host chain makes when it validates `ConnOpenTry`.
#[derive(Debug)]
pub enum ValidationStep {
    /// Check that the host accepts the signer of the message.
    ValidateSigner,
    /// Load the state of the client `client_id` on this chain, the client
    /// of the new connection end.
    LoadClientState { client_id: ClientId },
    /// Check that the client `client_id` is active.
    CheckClientActive { client_id: ClientId },
    /// Check that the loaded client accepts proofs at `height`.
    ValidateProofHeight { height: Height },
    /// Load the consensus state of the client `client_id` at `height`.
    LoadConsensusState { client_id: ClientId, height: Height },
    /// Verify, against the loaded consensus state, that the counterparty
    /// stores under the connection path of `conn_id_on_a` the connection
    /// end it must have: state `Init`, its client `client_id_on_a`, as
    /// counterparty this chain's client `counterparty_client_id` with no
    /// connection and this chain's commitment prefix, the versions of the
    /// message and its delay, `delay_period` nanoseconds.
    VerifyCounterpartyConnection {
        conn_id_on_a: ConnectionId,
        client_id_on_a: ClientId,
        counterparty_client_id: ClientId,
        delay_period: u64,
    },
}

/// Whether `steps` are the checks of validating `ConnOpenTry` on this chain
/// (B), in order: the signer; the state of this chain's client
/// `client_id_on_b`, that it is active, and that it accepts proofs at
/// `proofs_height`; its consensus state at that height; and the membership
/// proof of the counterparty's connection end under `conn_id_on_a`.
pub open spec fn open_try_validation_steps(
    steps: Seq<ValidationStep>,
    client_id_on_b: ClientId,
    client_id_on_a: ClientId,
    conn_id_on_a: ConnectionId,
    proofs_height: Height,
    delay_period: u64,
) -> bool {
    &&& steps.len() == 6
    &&& steps[0] is ValidateSigner
    &&& steps[1] matches ValidationStep::LoadClientState { client_id } && client_id@
        == client_id_on_b@
    &&& steps[2] matches ValidationStep::CheckClientActive { client_id } && client_id@
        == client_id_on_b@
    &&& steps[3] matches ValidationStep::ValidateProofHeight { height } && height@ == proofs_height@
    &&& steps[4] matches ValidationStep::LoadConsensusState { client_id, height } && client_id@
        == client_id_on_b@ && height@ == proofs_height@
    &&& steps[5] matches ValidationStep::VerifyCounterpartyConnection {
        conn_id_on_a: conn,
        client_id_on_a: client,
        counterparty_client_id,
        delay_period: delay,
    } && conn@ == conn_id_on_a@ && client@ == client_id_on_a@ && counterparty_client_id@
        == client_id_on_b@ && delay == delay_period
}

/// Decides what the host chain checks to validate `ConnOpenTry`, given from
/// the message its own client, the counterparty's client and connection,
/// the height of the proofs and the delay in nanoseconds. The step is
/// refused when the counterparty does not name its connection.
pub fn open_try_validation_plan(
    client_id_on_b: ClientId,
    client_id_on_a: ClientId,
    conn_id_on_a: Option<ConnectionId>,
    proofs_height: Height,
    delay_period: u64,
) -> (r: Result<Vec<ValidationStep>, ConnOpenTryError>)
    ensures
        r is Err <==> conn_id_on_a is None,
        r matches Err(e) ==> e == ConnOpenTryError::InvalidCounterparty,
        r matches Ok(steps) ==> open_try_validation_steps(
            steps@,
            client_id_on_b,
            client_id_on_a,
            conn_id_on_a->Some_0,
            proofs_height,
            delay_period,
        ),
        r matches Ok(steps) ==> (steps@.len() == 6 && (steps@[5] matches ValidationStep::VerifyCounterpartyConnection {
            conn_id_on_a: conn,
            client_id_on_a: client,
            counterparty_client_id: ours,
            delay_period: delay,
        } && delay == delay_period && conn@ == conn_id_on_a->Some_0@ && client@ == client_id_on_a@
            && ours@ == client_id_on_b@)),
        r matches Ok(steps) ==> (steps@[0] is ValidateSigner && (steps@[1] matches ValidationStep::LoadClientState {
            client_id,
        } && client_id@ == client_id_on_b@) && (steps@[2] matches ValidationStep::CheckClientActive {
            client_id,
        } && client_id@ == client_id_on_b@)),
        r matches Ok(steps) ==> (steps@[3] matches ValidationStep::ValidateProofHeight { height }
            && height@ == proofs_height@),
        r matches Ok(steps) ==> (steps@[4] matches ValidationStep::LoadConsensusState { client_id, height }
            && client_id@ == client_id_on_b@ && height@ == proofs_height@),
{
    let conn_id_on_a = match conn_id_on_a {
        Some(id) => id,
        None => {
            return Err(ConnOpenTryError::InvalidCounterparty);
        },
    };
    let steps = vec![
        ValidationStep::ValidateSigner,
        ValidationStep::LoadClientState { client_id: ClientId::from_name(client_id_on_b.as_str()) },
        ValidationStep::CheckClientActive {
            client_id: ClientId::from_name(client_id_on_b.as_str()),
        },
        ValidationStep::ValidateProofHeight { height: proofs_height },
        ValidationStep::LoadConsensusState {
            client_id: ClientId::from_name(client_id_on_b.as_str()),
            height: proofs_height,
        },
        ValidationStep::VerifyCounterpartyConnection {
            conn_id_on_a,
            client_id_on_a,
            counterparty_client_id: client_id_on_b,
            delay_period,
        },
    ];
    Ok(steps)
}

/// The `OpenTry` event that executing `ConnOpenTry` emits reads back from
/// its ABCI form, when the identifiers it was given are valid: a relayer
/// decodes the event that the chain emitted.
pub proof fn lemma_open_try_event_reads_back(
    effects: Seq<OpenTryEffect>,
    counter: u64,
    client_id_on_b: ClientId,
    client_id_on_a: ClientId,
    conn_id_on_a: ConnectionId,
)
    requires
        open_try_effects(effects, counter, client_id_on_b, client_id_on_a, conn_id_on_a),
        is_client_id(client_id_on_b@),
        is_client_id(client_id_on_a@),
        is_connection_id(conn_id_on_a@),
    ensures
        effects[1] matches OpenTryEffect::EmitIbcEvent(IbcEvent::OpenTryConnection(e))
            && e.fields_read_back(),
{
    lemma_built_identifiers_valid(Seq::empty(), counter);
}

/// The connection that executing `ConnOpenTry` creates is numbered by the
/// host's connection counter: its identifier is `connection-` followed by
/// text that `u64::from_str` reads as the counter.
pub proof fn lemma_new_connection_names_counter(effects: Seq<OpenTryEffect>, counter: u64)
    requires
        new_connection_is_numbered(effects, "connection-"@ + decimal(counter as nat)),
    ensures
        effects[5] matches OpenTryEffect::StoreConnection { conn_id } && {
            &&& conn_id@.take(11) == "connection-"@
            &&& is_u64_text(conn_id@.skip(11))
            &&& u64_text_value(conn_id@.skip(11)) == counter
        },
{
    reveal_strlit("connection-");
    lemma_counted_reads_counter("connection-"@, counter);
    if let OpenTryEffect::StoreConnection { conn_id } = effects[5] {
        assert(conn_id@.take(11) =~= "connection-"@);
    }
}

} // verus!
