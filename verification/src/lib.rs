//! Ingest tier of an unmanned-aircraft telemetry pipeline.
//!
//! Wire-format telemetry frames (ADS-B extended squitter and Network
//! Remote-ID packets) arrive over HTTP; the service authenticates the
//! submitter, deduplicates repeated reports, decodes the binary payload
//! into structured aircraft records, and fans the records out to
//! downstream sinks through bounded ring buffers drained by a batcher.

pub mod amqp;
pub mod cache;
pub mod handlers;
pub mod jwt;
pub mod msg;
pub mod ring;
pub mod text;
pub mod types;
