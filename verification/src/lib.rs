//! Telemetry ingestion for environmental sensors: payload decoding, topic
//! discovery, the producer/consumer handoff, and the persistence write path,
//! each with a verified contract. The broker and the relational store
//! themselves are external collaborators; what this crate verifies is the
//! logic between them.

pub mod broker;
pub mod channel;
pub mod envpayload;
pub mod laws;
pub mod numeric;
pub mod pipeline;
pub mod store;
pub mod text;
pub mod topics;
