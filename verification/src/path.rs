//! Path verification: proving that a channel on the source chain is a
//! genuine path to the requested destination chain.
//!
//! The trust path unwinds channel → connection → client: the channel end
//! must be open and name at least one connection hop; the first hop resolves
//! to a connection; the connection names a client; and that client must
//! track the destination chain's consensus. Each query key depends on the
//! previous answer, so the three queries are strictly sequential.
//!
//! The queries themselves are blocking network calls owned by a chain
//! handle collaborator. [`PathVerifier`] is the decision half: it names the
//! next query to issue and absorbs each answer, failing fast at the first
//! gate that does not hold. A driver loops: perform the named query, hand
//! the answer back, stop on the first error.

use crate::error::TransferError;
use crate::ident::{ChainId, ChannelId, ClientId, ConnectionId, PortId};
use vstd::prelude::*;

verus! {

/// Lifecycle state of a channel end.
#[derive(Clone, Copy, PartialEq, Eq, Structural, Debug)]
pub enum ChannelState {
    Init,
    TryOpen,
    Open,
    Closed,
}

/// Lifecycle state of a connection end.
#[derive(Clone, Copy, PartialEq, Eq, Structural, Debug)]
pub enum ConnectionState {
    Init,
    TryOpen,
    Open,
}

/// A channel end as read from a chain at its latest height: a read-only
/// snapshot for a single invocation, never cached or reused.
pub struct ChannelEnd {
    pub state: ChannelState,
    pub connection_hops: Vec<ConnectionId>,
    pub port_id: PortId,
    pub channel_id: ChannelId,
}

/// A connection end as read from a chain at its latest height.
pub struct ConnectionEnd {
    pub client_id: ClientId,
    pub state: ConnectionState,
}

/// A light-client record as read from a chain at its latest height:
/// which counterparty chain the client tracks, and up to which height it
/// has verified that chain's consensus.
pub struct ClientState {
    pub chain_id: ChainId,
    pub latest_height: u64,
}

/// The channel gate: a transfer may only cross an open channel.
pub open spec fn channel_is_open(end: ChannelEnd) -> bool {
    end.state is Open
}

/// The hop gate: a well-formed channel names at least one connection hop.
pub open spec fn channel_has_hop(end: ChannelEnd) -> bool {
    end.connection_hops@.len() > 0
}

/// The first connection hop of a channel end, the key of the connection
/// query.
pub open spec fn first_hop(end: ChannelEnd) -> Seq<char>
    recommends
        channel_has_hop(end),
{
    end.connection_hops@[0]@
}

/// The client gate: the client behind the channel tracks exactly the
/// requested destination chain.
pub open spec fn client_tracks(client: ClientState, dst_chain_id: Seq<char>) -> bool {
    client.chain_id@ == dst_chain_id
}

/// A path is consistent when every gate holds: the channel is open, it has
/// a connection hop, and the client behind that hop tracks the destination.
pub open spec fn path_is_consistent(
    end: ChannelEnd,
    client: ClientState,
    dst_chain_id: Seq<char>,
) -> bool {
    channel_is_open(end) && channel_has_hop(end) && client_tracks(client, dst_chain_id)
}

/// The verdict of the whole pipeline over the snapshots it would read,
/// with the gates applied in query order and the first failure fatal.
pub enum PathDecision {
    Accept,
    RejectChannelNotOpen,
    RejectMissingHop,
    RejectDestinationMismatch,
}

/// What the pipeline decides of a path, given the channel end the first
/// query would return and the client state the third would return.
pub open spec fn decide_path(
    end: ChannelEnd,
    client: ClientState,
    dst_chain_id: Seq<char>,
) -> PathDecision {
    if !channel_is_open(end) {
        PathDecision::RejectChannelNotOpen
    } else if !channel_has_hop(end) {
        PathDecision::RejectMissingHop
    } else if !client_tracks(client, dst_chain_id) {
        PathDecision::RejectDestinationMismatch
    } else {
        PathDecision::Accept
    }
}

/// Where the verifier stands: which query it is waiting on, or how it
/// ended. The hop and client id are carried from one answer to the next
/// query.
pub enum VerifyStage {
    AwaitingChannel,
    AwaitingConnection { hop: ConnectionId },
    AwaitingClientState { client_id: ClientId },
    Verified,
    Failed,
}

/// A query the driver must perform next against the source chain, at its
/// latest height.
pub enum PathQuery {
    Channel { port_id: PortId, channel_id: ChannelId },
    Connection { connection_id: ConnectionId },
    ClientState { client_id: ClientId },
}

/// The decision half of path verification, driven query by query.
///
/// The driver asks [`PathVerifier::next_query`] what to fetch, performs the
/// query, and hands the answer to the matching `absorb_` method; an `Err`
/// ends the run. Verification is a pure gate: it holds no transfer options
/// and changes nothing about the request.
pub struct PathVerifier {
    pub src_chain_id: ChainId,
    pub dst_chain_id: ChainId,
    pub port_id: PortId,
    pub channel_id: ChannelId,
    pub stage: VerifyStage,
    /// The channel end this run absorbed, recorded for specification only:
    /// it ties the stage the machine stands in to the snapshot that put it
    /// there.
    pub channel_snapshot: Ghost<Option<ChannelEnd>>,
}

impl PathVerifier {
    /// The machine's invariant: past the channel gate, the recorded
    /// channel end passed that gate, and the hop being queried is its
    /// first hop.
    pub open spec fn wf(&self) -> bool {
        match self.stage {
            VerifyStage::AwaitingChannel => self.channel_snapshot@ is None,
            VerifyStage::AwaitingConnection { hop } => (self.channel_snapshot@ matches Some(end)
                && channel_is_open(end) && channel_has_hop(end) && hop@ == first_hop(end)),
            VerifyStage::AwaitingClientState { .. } => (self.channel_snapshot@ matches Some(end)
                && channel_is_open(end) && channel_has_hop(end)),
            VerifyStage::Verified => (self.channel_snapshot@ matches Some(end) && channel_is_open(
                end,
            ) && channel_has_hop(end)),
            VerifyStage::Failed => true,
        }
    }

    pub fn new(
        src_chain_id: ChainId,
        dst_chain_id: ChainId,
        port_id: PortId,
        channel_id: ChannelId,
    ) -> (v: Self)
        ensures
            v.src_chain_id@ == src_chain_id@,
            v.dst_chain_id@ == dst_chain_id@,
            v.port_id@ == port_id@,
            v.channel_id@ == channel_id@,
            v.stage is AwaitingChannel,
            v.wf(),
    {
        PathVerifier {
            src_chain_id,
            dst_chain_id,
            port_id,
            channel_id,
            stage: VerifyStage::AwaitingChannel,
            channel_snapshot: Ghost(None),
        }
    }

    /// The query the driver must perform next; `None` once the run has
    /// ended, verified or failed.
    pub fn next_query(&self) -> (q: Option<PathQuery>)
        ensures
            self.stage is AwaitingChannel ==> (q matches Some(PathQuery::Channel { port_id, channel_id })
                && port_id@ == self.port_id@ && channel_id@ == self.channel_id@),
            (self.stage matches VerifyStage::AwaitingConnection { hop } ==> (q matches Some(
                PathQuery::Connection { connection_id },
            )
                && connection_id@ == hop@)),
            (self.stage matches VerifyStage::AwaitingClientState { client_id: c } ==> (q matches Some(
                PathQuery::ClientState { client_id },
            )
                && client_id@ == c@)),
            self.stage is Verified ==> q is None,
            self.stage is Failed ==> q is None,
    {
        match &self.stage {
            VerifyStage::AwaitingChannel => Some(
                PathQuery::Channel { port_id: self.port_id.clone(), channel_id: self.channel_id.clone() },
            ),
            VerifyStage::AwaitingConnection { hop } => Some(
                PathQuery::Connection { connection_id: hop.clone() },
            ),
            VerifyStage::AwaitingClientState { client_id } => Some(
                PathQuery::ClientState { client_id: client_id.clone() },
            ),
            VerifyStage::Verified => None,
            VerifyStage::Failed => None,
        }
    }

    /// Absorb the channel end the first query returned: require it open
    /// with at least one connection hop, and move on to that hop's
    /// connection query; otherwise fail, before any connection query is
    /// named.
    pub fn absorb_channel(&mut self, end: &ChannelEnd) -> (r: Result<(), TransferError>)
        requires
            old(self).stage is AwaitingChannel,
            old(self).wf(),
        ensures
            final(self).wf(),
            final(self).channel_snapshot@ == Some(*end),
            final(self).src_chain_id@ == old(self).src_chain_id@,
            final(self).dst_chain_id@ == old(self).dst_chain_id@,
            final(self).port_id@ == old(self).port_id@,
            final(self).channel_id@ == old(self).channel_id@,
            r is Ok <==> channel_is_open(*end) && channel_has_hop(*end),
            channel_is_open(*end) && channel_has_hop(*end) ==> (final(self).stage
                matches VerifyStage::AwaitingConnection { hop } && hop@ == first_hop(*end)),
            !channel_is_open(*end) ==> (r matches Err(
                TransferError::ChannelNotOpen { port_id, channel_id, chain_id, state },
            )
                && port_id@ == old(self).port_id@
                && channel_id@ == old(self).channel_id@
                && chain_id@ == old(self).src_chain_id@
                && state == end.state
                && final(self).stage is Failed),
            channel_is_open(*end) && !channel_has_hop(*end) ==> (r matches Err(
                TransferError::MissingConnectionHop { port_id, channel_id, chain_id },
            )
                && port_id@ == old(self).port_id@
                && channel_id@ == old(self).channel_id@
                && chain_id@ == old(self).src_chain_id@
                && final(self).stage is Failed),
    {
        self.channel_snapshot = Ghost(Some(*end));
        if !(end.state == ChannelState::Open) {
            self.stage = VerifyStage::Failed;
            return Err(
                TransferError::ChannelNotOpen {
                    port_id: self.port_id.clone(),
                    channel_id: self.channel_id.clone(),
                    chain_id: self.src_chain_id.clone(),
                    state: end.state,
                },
            );
        }
        if end.connection_hops.len() == 0 {
            self.stage = VerifyStage::Failed;
            return Err(
                TransferError::MissingConnectionHop {
                    port_id: self.port_id.clone(),
                    channel_id: self.channel_id.clone(),
                    chain_id: self.src_chain_id.clone(),
                },
            );
        }
        let hop = end.connection_hops[0].clone();
        self.stage = VerifyStage::AwaitingConnection { hop };
        Ok(())
    }

    /// Absorb the connection end the second query returned: nothing is
    /// checked of it; its client id becomes the key of the client-state
    /// query.
    pub fn absorb_connection(&mut self, conn: &ConnectionEnd)
        requires
            old(self).stage is AwaitingConnection,
            old(self).wf(),
        ensures
            final(self).wf(),
            final(self).channel_snapshot@ == old(self).channel_snapshot@,
            final(self).src_chain_id@ == old(self).src_chain_id@,
            final(self).dst_chain_id@ == old(self).dst_chain_id@,
            final(self).port_id@ == old(self).port_id@,
            final(self).channel_id@ == old(self).channel_id@,
            (final(self).stage matches VerifyStage::AwaitingClientState { client_id } && client_id@
                == conn.client_id@),
    {
        self.stage = VerifyStage::AwaitingClientState { client_id: conn.client_id.clone() };
    }

    /// Absorb the client state the third query returned: require that the
    /// client tracks exactly the requested destination chain; otherwise the
    /// channel is a path to the wrong chain and the run fails.
    /// Beyond this one check, the run-level theorem: the machine ends
    /// `Verified` exactly when the whole pipeline's decision over the
    /// channel end it absorbed and the client state before it is `Accept`.
    pub fn absorb_client_state(&mut self, client: &ClientState) -> (r: Result<(), TransferError>)
        requires
            old(self).stage is AwaitingClientState,
            old(self).wf(),
        ensures
            final(self).wf(),
            final(self).channel_snapshot@ == old(self).channel_snapshot@,
            (final(self).stage is Verified <==> (old(self).channel_snapshot@ matches Some(end)
                && decide_path(end, *client, old(self).dst_chain_id@) is Accept)),
            final(self).src_chain_id@ == old(self).src_chain_id@,
            final(self).dst_chain_id@ == old(self).dst_chain_id@,
            final(self).port_id@ == old(self).port_id@,
            final(self).channel_id@ == old(self).channel_id@,
            r is Ok <==> client_tracks(*client, old(self).dst_chain_id@),
            client_tracks(*client, old(self).dst_chain_id@) ==> final(self).stage is Verified,
            !client_tracks(*client, old(self).dst_chain_id@) ==> (r matches Err(
                TransferError::DestinationMismatch {
                    port_id,
                    channel_id,
                    src_chain_id,
                    tracked_chain_id,
                    dst_chain_id,
                },
            )
                && port_id@ == old(self).port_id@
                && channel_id@ == old(self).channel_id@
                && src_chain_id@ == old(self).src_chain_id@
                && tracked_chain_id@ == client.chain_id@
                && dst_chain_id@ == old(self).dst_chain_id@
                && final(self).stage is Failed),
    {
        if client.chain_id.eq_id(&self.dst_chain_id) {
            self.stage = VerifyStage::Verified;
            Ok(())
        } else {
            self.stage = VerifyStage::Failed;
            Err(
                TransferError::DestinationMismatch {
                    port_id: self.port_id.clone(),
                    channel_id: self.channel_id.clone(),
                    src_chain_id: self.src_chain_id.clone(),
                    tracked_chain_id: client.chain_id.clone(),
                    dst_chain_id: self.dst_chain_id.clone(),
                },
            )
        }
    }

    /// Whether the run ended with every gate passed: only then may a
    /// transfer be dispatched.
    pub fn is_verified(&self) -> (b: bool)
        ensures
            b == (self.stage is Verified),
    {
        match &self.stage {
            VerifyStage::Verified => true,
            _ => false,
        }
    }
}

/// A channel end that is not open is rejected at the first gate, and the
/// verdict does not depend on any connection or client state: no
/// connection query is ever issued for it.
pub proof fn lemma_unopen_channel_rejected_first(
    end: ChannelEnd,
    client_a: ClientState,
    client_b: ClientState,
    dst_a: Seq<char>,
    dst_b: Seq<char>,
)
    requires
        !channel_is_open(end),
    ensures
        decide_path(end, client_a, dst_a) is RejectChannelNotOpen,
        decide_path(end, client_a, dst_a) == decide_path(end, client_b, dst_b),
{
}

/// An open channel whose hop list is empty is rejected at the hop gate,
/// and the verdict does not depend on any connection or client state: no
/// connection query is ever issued for it.
pub proof fn lemma_missing_hop_rejected_before_connection(
    end: ChannelEnd,
    client_a: ClientState,
    client_b: ClientState,
    dst_a: Seq<char>,
    dst_b: Seq<char>,
)
    requires
        channel_is_open(end),
        !channel_has_hop(end),
    ensures
        decide_path(end, client_a, dst_a) is RejectMissingHop,
        decide_path(end, client_a, dst_a) == decide_path(end, client_b, dst_b),
{
}

/// A client state that tracks some chain other than the requested
/// destination is rejected at the client gate, however the channel passed
/// its own gates.
pub proof fn lemma_mismatched_destination_rejected(
    end: ChannelEnd,
    client: ClientState,
    dst_chain_id: Seq<char>,
)
    requires
        channel_is_open(end),
        channel_has_hop(end),
        !client_tracks(client, dst_chain_id),
    ensures
        decide_path(end, client, dst_chain_id) is RejectDestinationMismatch,
{
}

/// The pipeline accepts a path exactly when it is fully consistent: the
/// channel is open, it names a connection hop, and the client behind it
/// tracks the requested destination. Verification transforms nothing: a
/// verifier holds no transfer options, so an accepted request reaches the
/// dispatcher unchanged.
pub proof fn lemma_accepts_iff_consistent(
    end: ChannelEnd,
    client: ClientState,
    dst_chain_id: Seq<char>,
)
    ensures
        decide_path(end, client, dst_chain_id) is Accept <==> path_is_consistent(
            end,
            client,
            dst_chain_id,
        ),
{
}

} // verus!
