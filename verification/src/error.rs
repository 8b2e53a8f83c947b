//! Error taxonomy for a transfer invocation.
//!
//! Every error is fatal to the invocation that raised it: there is no
//! partial success and no retry at this layer. Each variant carries the
//! full identifying context (the ids involved, and observed versus expected
//! values), so that the reporter can render exactly one terminal message.

use crate::ident::{ChainId, ChannelId, PortId};
use crate::path::ChannelState;
use vstd::prelude::*;

verus! {

/// A raw request field that must be present for validation to proceed.
pub enum RequiredField {
    DstChainId,
    SrcChainId,
    SrcPortId,
    SrcChannelId,
    Amount,
}

/// Why a transfer invocation failed.
pub enum TransferError {
    /// A required raw field was absent; reported before any configuration
    /// lookup or query.
    MissingRequiredField { field: RequiredField },
    /// The configuration has no entry for the source chain.
    MissingSourceChainConfig { chain_id: ChainId },
    /// The configuration has no entry for the destination chain.
    MissingDestinationChainConfig { chain_id: ChainId },
    /// The message repetition count was supplied as zero; the count must be
    /// greater than zero.
    ZeroMessageCount,
    /// The queried channel end is not open: no transfer may cross it.
    /// Carries the requested port and channel, the chain the query went to,
    /// and the state that was observed instead of `Open`.
    ChannelNotOpen {
        port_id: PortId,
        channel_id: ChannelId,
        chain_id: ChainId,
        state: ChannelState,
    },
    /// The queried channel end lists no connection hop, so no connection
    /// query can even be issued: the channel is malformed.
    MissingConnectionHop {
        port_id: PortId,
        channel_id: ChannelId,
        chain_id: ChainId,
    },
    /// The client state behind the channel tracks some chain other than the
    /// requested destination: the channel is a path to the wrong chain.
    DestinationMismatch {
        port_id: PortId,
        channel_id: ChannelId,
        src_chain_id: ChainId,
        tracked_chain_id: ChainId,
        dst_chain_id: ChainId,
    },
    /// A chain query failed outright (channel, connection or client state
    /// not found; node or network failure). The description comes from the
    /// chain handle collaborator.
    QueryFailed { description: String },
    /// The transfer dispatcher reported a failure; its description is
    /// carried through verbatim.
    DispatchFailed { description: String },
}

} // verus!
