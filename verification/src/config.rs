//! Configuration model: the set of chains an invocation may talk to.
//!
//! A configuration is a list of per-chain entries, looked up by chain id.
//! The per-invocation signing-key override never mutates a configuration in
//! place: an effective configuration is computed as the base plus the
//! override.

use crate::ident::ChainId;
use vstd::prelude::*;

verus! {

/// Configuration entry for one chain: its id and the name of the signing
/// key to use on it.
pub struct ChainConfig {
    pub id: ChainId,
    pub key_name: String,
}

/// Whether two configuration entries carry the same values.
pub open spec fn chain_config_matches(a: ChainConfig, b: ChainConfig) -> bool {
    a.id@ == b.id@ && a.key_name@ == b.key_name@
}

impl ChainConfig {
    pub fn new(id: ChainId, key_name: String) -> (c: Self)
        ensures
            c.id@ == id@,
            c.key_name@ == key_name@,
    {
        ChainConfig { id, key_name }
    }
}

impl Clone for ChainConfig {
    fn clone(&self) -> (r: Self)
        ensures
            chain_config_matches(r, *self),
    {
        ChainConfig { id: self.id.clone(), key_name: self.key_name.clone() }
    }
}

/// `j` is the position of the first entry for `id` in `chains`.
pub open spec fn is_first_match(chains: Seq<ChainConfig>, id: Seq<char>, j: int) -> bool {
    &&& 0 <= j < chains.len()
    &&& chains[j].id@ == id
    &&& forall|k: int| 0 <= k < j ==> chains[k].id@ != id
}

/// The configuration: one entry per known chain.
pub struct Config {
    pub chains: Vec<ChainConfig>,
}

impl Config {
    /// Whether some entry is for the chain named `id`.
    pub open spec fn has_chain(&self, id: Seq<char>) -> bool {
        exists|i: int| 0 <= i < self.chains@.len() && self.chains@[i].id@ == id
    }

    pub fn new() -> (c: Self)
        ensures
            c.chains@.len() == 0,
    {
        Config { chains: Vec::new() }
    }

    pub fn add_chain(&mut self, chain: ChainConfig)
        ensures
            final(self).chains@ == old(self).chains@.push(chain),
    {
        self.chains.push(chain);
    }

    /// Position of the first entry for `id`, if the chain is configured.
    pub fn find_chain_index(&self, id: &ChainId) -> (r: Option<usize>)
        ensures
            r is Some <==> self.has_chain(id@),
            (r matches Some(j) ==> is_first_match(self.chains@, id@, j as int)),
    {
        let n = self.chains.len();
        let mut i: usize = 0;
        while i < n
            invariant
                i <= n,
                n == self.chains@.len(),
                forall|k: int| 0 <= k < i ==> self.chains@[k].id@ != id@,
            decreases n - i,
        {
            if self.chains[i].id.eq_id(id) {
                return Some(i);
            }
            i = i + 1;
        }
        None
    }

    /// The entry for the chain named `id`, if the chain is configured.
    pub fn find_chain(&self, id: &ChainId) -> (r: Option<&ChainConfig>)
        ensures
            r is Some <==> self.has_chain(id@),
            (r matches Some(c) ==> c.id@ == id@ && exists|i: int|
                0 <= i < self.chains@.len() && *c == self.chains@[i]),
    {
        match self.find_chain_index(id) {
            Some(i) => Some(&self.chains[i]),
            None => None,
        }
    }
}

} // verus!
