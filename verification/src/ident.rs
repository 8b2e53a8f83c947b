//! Identifier types: opaque, comparable names for chains, ports, channels,
//! connections and clients.
//!
//! Each identifier wraps a string and is viewed as its character sequence.
//! Two identifiers are interchangeable exactly when their views are equal.

use vstd::prelude::*;

verus! {

/// Name of a blockchain network; a configuration lookup key, and the value
/// by which a client state says which chain it tracks.
pub struct ChainId {
    pub name: String,
}

impl View for ChainId {
    type V = Seq<char>;

    open spec fn view(&self) -> Seq<char> {
        self.name@
    }
}

impl ChainId {
    pub fn new(name: String) -> (id: Self)
        ensures
            id@ == name@,
    {
        ChainId { name }
    }

    /// Whether the two names are the same chain.
    pub fn eq_id(&self, other: &Self) -> (r: bool)
        ensures
            r == (self@ == other@),
    {
        self.name == other.name
    }

    pub fn as_str(&self) -> (s: &str)
        ensures
            s@ == self@,
    {
        self.name.as_str()
    }
}

impl Clone for ChainId {
    fn clone(&self) -> (r: Self)
        ensures
            r@ == self@,
    {
        ChainId { name: self.name.clone() }
    }
}

/// Name of a port on a chain.
pub struct PortId {
    pub name: String,
}

impl View for PortId {
    type V = Seq<char>;

    open spec fn view(&self) -> Seq<char> {
        self.name@
    }
}

impl PortId {
    pub fn new(name: String) -> (id: Self)
        ensures
            id@ == name@,
    {
        PortId { name }
    }

    pub fn eq_id(&self, other: &Self) -> (r: bool)
        ensures
            r == (self@ == other@),
    {
        self.name == other.name
    }

    pub fn as_str(&self) -> (s: &str)
        ensures
            s@ == self@,
    {
        self.name.as_str()
    }
}

impl Clone for PortId {
    fn clone(&self) -> (r: Self)
        ensures
            r@ == self@,
    {
        PortId { name: self.name.clone() }
    }
}

/// Name of a channel on a chain.
pub struct ChannelId {
    pub name: String,
}

impl View for ChannelId {
    type V = Seq<char>;

    open spec fn view(&self) -> Seq<char> {
        self.name@
    }
}

impl ChannelId {
    pub fn new(name: String) -> (id: Self)
        ensures
            id@ == name@,
    {
        ChannelId { name }
    }

    pub fn eq_id(&self, other: &Self) -> (r: bool)
        ensures
            r == (self@ == other@),
    {
        self.name == other.name
    }

    pub fn as_str(&self) -> (s: &str)
        ensures
            s@ == self@,
    {
        self.name.as_str()
    }
}

impl Clone for ChannelId {
    fn clone(&self) -> (r: Self)
        ensures
            r@ == self@,
    {
        ChannelId { name: self.name.clone() }
    }
}

/// Name of a connection on a chain; a channel lists its connection hops by
/// these.
pub struct ConnectionId {
    pub name: String,
}

impl View for ConnectionId {
    type V = Seq<char>;

    open spec fn view(&self) -> Seq<char> {
        self.name@
    }
}

impl ConnectionId {
    pub fn new(name: String) -> (id: Self)
        ensures
            id@ == name@,
    {
        ConnectionId { name }
    }

    pub fn eq_id(&self, other: &Self) -> (r: bool)
        ensures
            r == (self@ == other@),
    {
        self.name == other.name
    }

    pub fn as_str(&self) -> (s: &str)
        ensures
            s@ == self@,
    {
        self.name.as_str()
    }
}

impl Clone for ConnectionId {
    fn clone(&self) -> (r: Self)
        ensures
            r@ == self@,
    {
        ConnectionId { name: self.name.clone() }
    }
}

/// Name of a light client tracked by a chain; a connection names the client
/// that underlies it.
pub struct ClientId {
    pub name: String,
}

impl View for ClientId {
    type V = Seq<char>;

    open spec fn view(&self) -> Seq<char> {
        self.name@
    }
}

impl ClientId {
    pub fn new(name: String) -> (id: Self)
        ensures
            id@ == name@,
    {
        ClientId { name }
    }

    pub fn eq_id(&self, other: &Self) -> (r: bool)
        ensures
            r == (self@ == other@),
    {
        self.name == other.name
    }

    pub fn as_str(&self) -> (s: &str)
        ensures
            s@ == self@,
    {
        self.name.as_str()
    }
}

impl Clone for ClientId {
    fn clone(&self) -> (r: Self)
        ensures
            r@ == self@,
    {
        ClientId { name: self.name.clone() }
    }
}

} // verus!
