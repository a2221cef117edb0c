# ibc_event_codec

Verified pieces of an IBC implementation:

- borsh encodings of spans of time, Tendermint timestamps, Tendermint
  hashes and ICS-23 proof specs (`duration`, `time`, `hash`, `proof_spec`,
  on top of `bytes`), with proofs that decoding an encoding gives the value
  back: for spans, timestamps and hashes from the encodings themselves, for
  proof specs from what `serialize_spec` states of prost's encoding;
- the events that an IBC handler emits towards relayers (`client_events`,
  `connection_events`, `channel_events`, `handler_events`) and their ABCI
  form (`abci`), with the spelling of identifiers, numbers and bytes in
  attributes (`identifiers`, `packet`, `text`, `attribute`);
- reading those events back from their ABCI form (`TryFrom<Event>` on each
  event, `TryFrom<EventAttribute>` and `parse` on each attribute, on top of
  `decode`): the kind must match, each attribute must occur exactly once
  and hold a value of its type. Each event's `try_from` states that it
  gives back every event whose attribute values read back as themselves;
  the lemmas `lemma_*_reads_back` say which values do (all but a height of
  zero, an empty list of heights or acknowledgement, and the unspecified
  channel ordering, whose name `ORDER_NONE_UNSPECIFIED` is not one that
  `Order::parse` reads);
- the validating parsers of identifiers (`ClientType::parse`,
  `ClientId::parse`, `ConnectionId::parse`, `PortId::parse`,
  `ChannelId::parse`). Identifier characters are ASCII letters and digits
  and `._+-#[]<>`;
- what the host chain checks when it validates the `ConnOpenTry` handshake
  step, and what it emits, logs and stores when it executes it
  (`conn_open_try`).

`src/` is checked by Verus. `app/` adapts the codecs to borsh's readers and
writers and to the types of `core`, Tendermint and ICS-23, converts events
to and from Tendermint's ABCI type, and runs the `ConnOpenTry` plans on the
host chain's context.
