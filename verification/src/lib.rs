//! Borsh encodings of Tendermint values and ICS-23 proof specs, and the
//! IBC events that a chain emits towards relayers.

pub mod bytes;
pub mod error;
pub mod duration;
pub mod time;
pub mod hash;
pub mod proof_spec;
pub mod abci;
pub mod text;
pub mod attribute;
pub mod identifiers;
pub mod packet;
pub mod connection_events;
pub mod channel_events;
pub mod client_events;
pub mod handler_events;
pub mod conn_open_try;
pub mod decode;
