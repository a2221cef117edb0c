[package]
name = "ibc_event_codec"
version = "0.1.0"
edition = "2021"
publish = false

[dependencies]
borsh = "=1.8.1"
tendermint = "=0.41.0"
tendermint-proto = "=0.41.0"
ics23 = "=0.12.0"
prost = "=0.13.5"
subtle-encoding = "=0.5.1"
