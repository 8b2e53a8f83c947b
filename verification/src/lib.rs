//! Pre-flight validation and path verification for a cross-chain token
//! transfer.
//!
//! Before a transfer is dispatched over a channel on a source chain, two
//! gates must pass:
//!
//! 1. the raw request fields, together with the configuration, must resolve
//!    to a validated, immutable [`options::TransferOptions`] value; and
//! 2. the claimed channel must be shown to provide a path to the requested
//!    destination chain: the channel end must be open, its first connection
//!    hop must resolve to a connection, and the client state behind that
//!    connection must track the destination chain's consensus.
//!
//! The chain queries themselves are blocking network calls owned by a chain
//! handle collaborator; this crate holds the decisions between them. The
//! [`path::PathVerifier`] state machine names the next query to issue and
//! absorbs each query result, so a driver performs the queries and this
//! library decides, with every decision verified.

pub mod config;
pub mod error;
pub mod ident;
pub mod options;
pub mod outcome;
pub mod path;
