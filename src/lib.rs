//! A client for a remote proving service: it shapes the requests, decides on
//! what the service answered, and checks circuit definitions before they are
//! sent.
pub mod circuit;
pub mod client;
pub mod outside;
pub mod proof_data;
pub mod status;

pub use circuit::{check_circuit, parse_circuit_definition, CircuitError, CompiledCircuit};
pub use client::{
    error_message, failure_error, prove_outcome, verify_outcome,
    BbServiceClient, BbServiceError, ErrorResponse, ProveResponse, Reply, VerifyResponse,
};
pub use proof_data::ProofData;
pub use status::is_success_status;
