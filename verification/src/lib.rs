//! Request handling of a ceseal node, as verified state transitions.
pub mod attestation;
pub mod blocks;
pub mod chain_laws;
pub mod chain_state;
pub mod challenge;
pub mod crypto;
pub mod encoding;
pub mod encoding_laws;
pub mod endpoint;
pub mod endpoint_laws;
pub mod error;
pub mod handover_client;
pub mod handover_laws;
pub mod handover_server;
pub mod node_laws;
pub mod reception_laws;
pub mod runtime;
pub mod runtime_laws;
pub mod scale;
pub mod server_laws;
pub mod service;
pub mod service_laws;
pub mod state;
pub mod types;
pub mod weights;
