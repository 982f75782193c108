//! The map of currently connected outbound peers.

use crate::address::Endpoint;
use std::collections::BTreeMap;
use vstd::prelude::*;

verus! {

broadcast use {vstd::std_specs::btree::group_btree_axioms, vstd::laws_cmp::group_laws_cmp};

/// Which endpoint each connected outbound peer was dialled at, by the
/// identifier that the connectivity layer gave the peer.
pub struct OutboundPeers {
    peers: BTreeMap<u64, Endpoint>,
}

impl View for OutboundPeers {
    type V = Map<u64, Endpoint>;

    closed spec fn view(&self) -> Map<u64, Endpoint> {
        self.peers@
    }
}

impl OutboundPeers {
    /// No peer is connected.
    pub fn new() -> (r: Self)
        ensures
            r@ == Map::<u64, Endpoint>::empty(),
    {
        OutboundPeers { peers: BTreeMap::new() }
    }

    /// The endpoint of the peer, if it is connected.
    pub fn get(&self, peer_id: u64) -> (r: Option<Endpoint>)
        ensures
            r == (if self@.contains_key(peer_id) {
                Some(self@[peer_id])
            } else {
                None
            }),
    {
        match self.peers.get(&peer_id) {
            Some(address) => Some(*address),
            None => None,
        }
    }

    /// Records the peer, in place of an earlier one of the same identifier.
    pub fn insert(&mut self, peer_id: u64, address: Endpoint)
        ensures
            final(self)@ == old(self)@.insert(peer_id, address),
    {
        self.peers.insert(peer_id, address);
    }

    /// Forgets the peer and returns the endpoint it was dialled at.
    pub fn remove(&mut self, peer_id: u64) -> (r: Option<Endpoint>)
        ensures
            final(self)@ == old(self)@.remove(peer_id),
            r == (if old(self)@.contains_key(peer_id) {
                Some(old(self)@[peer_id])
            } else {
                None
            }),
    {
        self.peers.remove(&peer_id)
    }
}

} // verus!
