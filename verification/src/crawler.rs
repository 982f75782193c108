//! # Network crawler
//!
//! To keep things simple, the server tries to keep connections open to all
//! reachable nodes. When a new outbound connection is made, a DNS record is
//! added (but only for nodes on the canonical port with a public address).
//! When the connection is closed, the DNS record is removed. When a
//! connection fails, the server increases the backoff time between
//! connection attempts. If the number of failed attempts exceeds the limit,
//! the address is removed from the list. Addresses that were reachable once
//! and addresses that never were have different limits (about one month and
//! about one hour).
//!
//! The crawler is a state machine. It opens no connection, writes no record
//! and reads no clock: every handler takes the event and the current time,
//! changes the state, and returns what the caller has to do next.

use crate::address::Endpoint;
use crate::peers::OutboundPeers;
use crate::state::{
    spec_fresh, AddressData, AddressState, ServerCommands, StateChange, StorageCommand,
    STORAGE_VERSION,
};
use crate::table::{spec_dial, spec_purged, spec_retain, valid_dial, AddressTable};
use vstd::prelude::*;

verus! {

/// Crawler configuration.
#[derive(Clone)]
pub struct CrawlerConfig {
    /// The endpoints supplied by the operator, in textual form.
    pub add_node: Vec<String>,
    /// The canonical peer-protocol port; only endpoints on this port are
    /// published.
    pub p2p_port: u16,
}

/// Why the crawler could not start.
#[derive(Clone, Copy, Debug, PartialEq, Eq, Structural)]
pub enum DnsServerError {
    /// An endpoint supplied by the operator could not be parsed.
    AddrParseError,
    /// The persistent store was written with another layout.
    UnexpectedStorageVersion,
}

/// What to do with the persistent store at startup.
#[derive(Clone, Copy, Debug, PartialEq, Eq, Structural)]
pub enum StorageStartup {
    /// The store is new: write this command and start with no stored
    /// endpoint.
    Initialize(StorageCommand),
    /// The store has the current layout: read the stored endpoints.
    Load,
}

/// A message of the peer manager protocol, as far as the crawler reads it.
#[derive(Clone, Copy, Debug, PartialEq, Eq, Structural)]
pub enum PeerManagerMessage {
    AddrListRequest,
    /// A peer announces an address; `address` is the endpoint that the
    /// announced address converts to, if it converts.
    AnnounceAddrRequest { address: Option<Endpoint> },
    PingRequest { nonce: u64 },
    AddrListResponse,
    AnnounceAddrResponse,
    PingResponse { nonce: u64 },
}

/// An event from the connectivity layer.
#[derive(Clone, Copy, Debug, PartialEq, Eq, Structural)]
pub enum ConnectivityEvent {
    /// A message arrived over an existing connection.
    Message { peer: u64, message: PeerManagerMessage },
    /// An outbound connection was established; `compatible` tells whether
    /// the remote node reported a compatible chain configuration.
    OutboundAccepted { address: Endpoint, peer_id: u64, compatible: bool },
    /// An inbound connection was accepted. The crawler does not listen, so
    /// no handler admits this event.
    InboundAccepted { address: Endpoint, peer_id: u64 },
    /// An outbound connection attempt failed.
    ConnectionError { address: Endpoint },
    /// The remote node closed the connection.
    ConnectionClosed { peer_id: u64 },
    /// A peer misbehaved.
    Misbehaved { peer_id: u64 },
}

/// A call into the connectivity layer.
#[derive(Clone, Copy, Debug, PartialEq, Eq, Structural)]
pub enum ConnectivityCommand {
    Disconnect(u64),
    SendMessage(u64, PeerManagerMessage),
}

/// What the caller has to do after an event was handled: at most one DNS
/// command, one write to the persistent store and one call into the
/// connectivity layer.
#[derive(Clone, Copy, Debug, PartialEq, Eq, Structural)]
pub struct Actions {
    pub dns: Option<ServerCommands>,
    pub storage: Option<StorageCommand>,
    pub conn: Option<ConnectivityCommand>,
}

/// The crawler as contracts see it.
pub struct CrawlerView {
    pub p2p_port: u16,
    /// All known addresses (including currently unreachable).
    pub addresses: Map<Endpoint, AddressData>,
    /// All currently connected outbound peers.
    pub outbound_peers: Map<u64, Endpoint>,
}

/// No action at all.
pub open spec fn no_actions() -> Actions {
    Actions { dns: None, storage: None, conn: None }
}

/// The actions that carry the commands of a state transition.
pub open spec fn actions_of(change: StateChange, conn: Option<ConnectivityCommand>) -> Actions {
    Actions { dns: change.dns, storage: change.storage, conn }
}

/// The decision on the persistent store at startup, by the version found in
/// it.
pub open spec fn spec_load_storage(version: Option<u32>) -> Result<StorageStartup, DnsServerError> {
    match version {
        None => Ok(StorageStartup::Initialize(StorageCommand::SetVersion(STORAGE_VERSION))),
        Some(v) => if v == STORAGE_VERSION {
            Ok(StorageStartup::Load)
        } else {
            Err(DnsServerError::UnexpectedStorageVersion)
        },
    }
}

/// The stored entries that could be parsed, in their order.
pub open spec fn spec_parsed(stored: Seq<Option<Endpoint>>) -> Seq<Endpoint>
    decreases stored.len(),
{
    if stored.len() == 0 {
        Seq::empty()
    } else {
        match stored.last() {
            Some(e) => spec_parsed(stored.drop_last()).push(e),
            None => spec_parsed(stored.drop_last()),
        }
    }
}

/// The address table at startup: the stored endpoints as reachable once, the
/// operator's endpoints as user-added. An endpoint that is both counts as
/// user-added.
pub open spec fn spec_initial_table(
    loaded: Seq<Endpoint>,
    added: Seq<Option<Endpoint>>,
    now: u64,
) -> Map<Endpoint, AddressData> {
    Map::new(
        |e: Endpoint| loaded.contains(e) || added.contains(Some(e)),
        |e: Endpoint|
            if added.contains(Some(e)) {
                spec_fresh(now, false, true)
            } else {
                spec_fresh(now, true, false)
            },
    )
}

impl CrawlerView {
    /// The crawler after `address` was asked to move into `new_state`.
    pub open spec fn set_state(self, address: Endpoint, new_state: AddressState, now: u64) -> CrawlerView {
        CrawlerView {
            addresses: self.addresses.insert(
                address,
                self.addresses[address].spec_change_state(new_state, now),
            ),
            ..self
        }
    }

    /// The commands that go with that request.
    pub open spec fn state_change(self, address: Endpoint, new_state: AddressState) -> StateChange {
        StateChange {
            dns: self.addresses[address].spec_dns_command(address, self.p2p_port, new_state),
            storage: self.addresses[address].spec_storage_command(address, new_state),
        }
    }

    /// Whether `address` is known and can move into `new_state`.
    pub open spec fn can_set_state(self, address: Endpoint, new_state: AddressState) -> bool {
        self.addresses.contains_key(address) && self.addresses[address].can_change_to(new_state)
    }

    /// The crawler after `address` was discovered at `now`: a new address
    /// enters the table as disconnected, a known one is left untouched.
    pub open spec fn spec_new_address(self, address: Endpoint, now: u64) -> CrawlerView {
        if self.addresses.contains_key(address) {
            self
        } else {
            CrawlerView {
                addresses: self.addresses.insert(address, spec_fresh(now, false, false)),
                ..self
            }
        }
    }

    /// The crawler after a message from a peer was handled.
    pub open spec fn spec_handle_conn_request(self, request: PeerManagerMessage, now: u64) -> CrawlerView {
        match request {
            PeerManagerMessage::AnnounceAddrRequest { address: Some(address) } => self.spec_new_address(
                address,
                now,
            ),
            _ => self,
        }
    }

    /// The actions that a message from a peer calls for: a ping is answered
    /// with its nonce, everything else with nothing.
    pub open spec fn conn_request_actions(peer_id: u64, request: PeerManagerMessage) -> Actions {
        match request {
            PeerManagerMessage::PingRequest { nonce } => Actions {
                dns: None,
                storage: None,
                conn: Some(
                    ConnectivityCommand::SendMessage(
                        peer_id,
                        PeerManagerMessage::PingResponse { nonce },
                    ),
                ),
            },
            _ => no_actions(),
        }
    }

    /// The crawler after the connection to `address` became the outbound
    /// peer `peer_id`.
    pub open spec fn spec_create_outbound_peer(self, peer_id: u64, address: Endpoint, now: u64) -> CrawlerView {
        CrawlerView {
            outbound_peers: self.outbound_peers.insert(peer_id, address),
            ..self.set_state(address, AddressState::Connected, now)
        }
    }

    /// The crawler after the outbound peer `peer_id` was removed.
    pub open spec fn spec_remove_outbound_peer(self, peer_id: u64, now: u64) -> CrawlerView {
        CrawlerView {
            outbound_peers: self.outbound_peers.remove(peer_id),
            ..self.set_state(self.outbound_peers[peer_id], AddressState::Disconnected, now)
        }
    }

    /// Whether the handlers accept `event` in this state. They accept no
    /// inbound connection, no event for an address that is not in the
    /// table, and no failure that the failure counter has no room for.
    pub open spec fn admits(self, event: ConnectivityEvent) -> bool {
        match event {
            ConnectivityEvent::Message { .. } => true,
            ConnectivityEvent::OutboundAccepted { address, peer_id, compatible } => if compatible {
                self.can_set_state(address, AddressState::Connected)
            } else {
                self.can_set_state(address, AddressState::Disconnected)
            },
            ConnectivityEvent::InboundAccepted { .. } => false,
            ConnectivityEvent::ConnectionError { address } => self.can_set_state(
                address,
                AddressState::Disconnected,
            ),
            ConnectivityEvent::ConnectionClosed { peer_id } => self.outbound_peers.contains_key(
                peer_id,
            ) ==> self.can_set_state(self.outbound_peers[peer_id], AddressState::Disconnected),
            ConnectivityEvent::Misbehaved { .. } => true,
        }
    }

    /// The crawler after `event` was handled at `now`.
    pub open spec fn spec_handle_conn_event(self, event: ConnectivityEvent, now: u64) -> CrawlerView {
        match event {
            ConnectivityEvent::Message { peer, message } => self.spec_handle_conn_request(
                message,
                now,
            ),
            ConnectivityEvent::OutboundAccepted { address, peer_id, compatible } => if compatible {
                self.spec_create_outbound_peer(peer_id, address, now)
            } else {
                self.set_state(address, AddressState::Disconnected, now)
            },
            ConnectivityEvent::InboundAccepted { .. } => self,
            ConnectivityEvent::ConnectionError { address } => self.set_state(
                address,
                AddressState::Disconnected,
                now,
            ),
            ConnectivityEvent::ConnectionClosed { peer_id } => if self.outbound_peers.contains_key(
                peer_id,
            ) {
                self.spec_remove_outbound_peer(peer_id, now)
            } else {
                self
            },
            ConnectivityEvent::Misbehaved { .. } => self,
        }
    }

    /// The actions that `event` calls for.
    pub open spec fn conn_event_actions(self, event: ConnectivityEvent) -> Actions {
        match event {
            ConnectivityEvent::Message { peer, message } => Self::conn_request_actions(
                peer,
                message,
            ),
            ConnectivityEvent::OutboundAccepted { address, peer_id, compatible } => if compatible {
                actions_of(self.state_change(address, AddressState::Connected), None)
            } else {
                actions_of(
                    self.state_change(address, AddressState::Disconnected),
                    Some(ConnectivityCommand::Disconnect(peer_id)),
                )
            },
            ConnectivityEvent::InboundAccepted { .. } => no_actions(),
            ConnectivityEvent::ConnectionError { address } => actions_of(
                self.state_change(address, AddressState::Disconnected),
                None,
            ),
            ConnectivityEvent::ConnectionClosed { peer_id } => if self.outbound_peers.contains_key(
                peer_id,
            ) {
                actions_of(
                    self.state_change(self.outbound_peers[peer_id], AddressState::Disconnected),
                    None,
                )
            } else {
                no_actions()
            },
            ConnectivityEvent::Misbehaved { .. } => no_actions(),
        }
    }

    /// The crawler after the heartbeat has chosen `dialled` for a connection
    /// attempt.
    pub open spec fn spec_heartbeat_dial(self, dialled: Seq<Endpoint>, now: u64) -> CrawlerView {
        CrawlerView { addresses: spec_dial(self.addresses, dialled, now), ..self }
    }

    /// The crawler after the heartbeat's retention at `now`.
    pub open spec fn spec_heartbeat_retain(self, now: u64) -> CrawlerView {
        CrawlerView { addresses: spec_retain(self.addresses, now), ..self }
    }
}

/// Decides what to do with the persistent store at startup, from the
/// version found in it: a store without a version is initialised, one with
/// the current version is read, any other is refused.
pub fn load_storage(version: Option<u32>) -> (r: Result<StorageStartup, DnsServerError>)
    ensures
        r == spec_load_storage(version),
{
    match version {
        None => Ok(init_storage()),
        Some(v) => if v == STORAGE_VERSION {
            Ok(StorageStartup::Load)
        } else {
            Err(DnsServerError::UnexpectedStorageVersion)
        },
    }
}

/// A new store gets the current version written.
pub fn init_storage() -> (r: StorageStartup)
    ensures
        r == StorageStartup::Initialize(StorageCommand::SetVersion(STORAGE_VERSION)),
{
    StorageStartup::Initialize(StorageCommand::SetVersion(STORAGE_VERSION))
}

/// The endpoints read from a store of the current version: entries that
/// could not be parsed are dropped silently.
pub fn load_storage_v1(stored: &Vec<Option<Endpoint>>) -> (r: Vec<Endpoint>)
    ensures
        r@ == spec_parsed(stored@),
{
    let mut r: Vec<Endpoint> = Vec::new();
    let mut i: usize = 0;
    while i < stored.len()
        invariant
            i <= stored@.len(),
            r@ == spec_parsed(stored@.take(i as int)),
        decreases stored@.len() - i,
    {
        proof {
            assert(stored@.take(i + 1).drop_last() =~= stored@.take(i as int));
        }
        if let Some(e) = stored[i] {
            r.push(e);
        }
        i = i + 1;
    }
    proof {
        assert(stored@.take(stored@.len() as int) =~= stored@);
    }
    r
}

/// The crawler: all known addresses and all connected outbound peers.
pub struct Crawler {
    /// Crawler config
    config: CrawlerConfig,
    /// Map of all known addresses (including currently unreachable)
    addresses: AddressTable,
    /// Map of all currently connected outbound peers
    outbound_peers: OutboundPeers,
}

impl View for Crawler {
    type V = CrawlerView;

    closed spec fn view(&self) -> CrawlerView {
        CrawlerView {
            p2p_port: self.config.p2p_port,
            addresses: self.addresses@,
            outbound_peers: self.outbound_peers@,
        }
    }
}

impl Crawler {
    /// The invariant of the representation.
    pub closed spec fn wf(&self) -> bool {
        self.addresses.wf()
    }

    /// The configuration the crawler was made with.
    pub closed spec fn spec_config(&self) -> CrawlerConfig {
        self.config
    }

    /// Starts a crawler at `now`. `loaded` holds the endpoints read from the
    /// persistent store, `added` the result of parsing each endpoint that
    /// the operator supplied. An operator's endpoint that could not be
    /// parsed is an error; otherwise every endpoint starts disconnected,
    /// and no peer is connected.
    pub fn new(
        config: CrawlerConfig,
        loaded: Vec<Endpoint>,
        added: Vec<Option<Endpoint>>,
        now: u64,
    ) -> (r: Result<Crawler, DnsServerError>)
        ensures
            r.is_err() <==> added@.contains(None),
            r.is_err() ==> r == Err::<Crawler, DnsServerError>(DnsServerError::AddrParseError),
            r.is_ok() ==> {
                let c = r.unwrap();
                &&& c.wf()
                &&& c.spec_config() == config
                &&& c@.p2p_port == config.p2p_port
                &&& c@.addresses == spec_initial_table(loaded@, added@, now)
                &&& c@.outbound_peers == Map::<u64, Endpoint>::empty()
            },
    {
        let mut i: usize = 0;
        while i < added.len()
            invariant
                i <= added@.len(),
                forall|j: int| 0 <= j < i ==> added@[j].is_some(),
            decreases added@.len() - i,
        {
            if added[i].is_none() {
                return Err(DnsServerError::AddrParseError);
            }
            i = i + 1;
        }
        // Added addresses must come after loaded addresses to not lose the `user_added` flag!
        let mut addresses = AddressTable::new();
        let mut i: usize = 0;
        while i < loaded.len()
            invariant
                i <= loaded@.len(),
                addresses.wf(),
                addresses@ == spec_initial_table(
                    loaded@.take(i as int),
                    Seq::<Option<Endpoint>>::empty(),
                    now,
                ),
            decreases loaded@.len() - i,
        {
            addresses.insert(loaded[i], AddressData::fresh(now, true, false));
            proof {
                let before = loaded@.take(i as int);
                let after = loaded@.take(i + 1);
                assert(after =~= before.push(loaded@[i as int]));
                assert forall|e: Endpoint| after.contains(e) <==> (before.contains(e) || e
                    == loaded@[i as int]) by {
                    if before.contains(e) {
                        let j = choose|j: int| 0 <= j < before.len() && before[j] == e;
                        assert(after[j] == e);
                    }
                    if e == loaded@[i as int] {
                        assert(after[i as int] == e);
                    }
                }
                assert(addresses@ =~= spec_initial_table(
                    after,
                    Seq::<Option<Endpoint>>::empty(),
                    now,
                ));
            }
            i = i + 1;
        }
        proof {
            assert(loaded@.take(loaded@.len() as int) =~= loaded@);
        }
        let mut i: usize = 0;
        while i < added.len()
            invariant
                i <= added@.len(),
                forall|j: int| 0 <= j < added@.len() ==> added@[j].is_some(),
                addresses.wf(),
                addresses@ == spec_initial_table(loaded@, added@.take(i as int), now),
            decreases added@.len() - i,
        {
            let address = added[i].unwrap();
            addresses.insert(address, AddressData::fresh(now, false, true));
            proof {
                let before = added@.take(i as int);
                let after = added@.take(i + 1);
                assert(after =~= before.push(added@[i as int]));
                assert forall|e: Endpoint| after.contains(Some(e)) <==> (before.contains(Some(e))
                    || e == address) by {
                    if before.contains(Some(e)) {
                        let j = choose|j: int| 0 <= j < before.len() && before[j] == Some(e);
                        assert(after[j] == Some(e));
                    }
                    if e == address {
                        assert(after[i as int] == Some(e));
                    }
                }
                assert(addresses@ =~= spec_initial_table(loaded@, after, now));
            }
            i = i + 1;
        }
        proof {
            assert(added@.take(added@.len() as int) =~= added@);
        }
        Ok(Crawler { config, addresses, outbound_peers: OutboundPeers::new() })
    }

    /// The configuration the crawler was made with.
    pub fn config(&self) -> (r: &CrawlerConfig)
        ensures
            *r == self.spec_config(),
            r.p2p_port == self@.p2p_port,
    {
        &self.config
    }

    /// The state of `address`, if it is known.
    pub fn address_data(&self, address: &Endpoint) -> (r: Option<AddressData>)
        requires
            self.wf(),
        ensures
            r == (if self@.addresses.contains_key(*address) {
                Some(self@.addresses[*address])
            } else {
                None
            }),
    {
        self.addresses.get(address)
    }

    /// The endpoint that the outbound peer `peer_id` was dialled at, if such
    /// a peer is connected.
    pub fn peer_address(&self, peer_id: u64) -> (r: Option<Endpoint>)
        ensures
            r == (if self@.outbound_peers.contains_key(peer_id) {
                Some(self@.outbound_peers[peer_id])
            } else {
                None
            }),
    {
        self.outbound_peers.get(peer_id)
    }

    /// The number of known addresses.
    pub fn address_count(&self) -> (n: usize)
        requires
            self.wf(),
        ensures
            self@.addresses.dom().finite(),
            n == self@.addresses.len(),
    {
        self.addresses.len()
    }

    /// Whether `address` is known and can move into `new_state`.
    pub fn can_set_state(&self, address: &Endpoint, new_state: AddressState) -> (r: bool)
        requires
            self.wf(),
        ensures
            r == self@.can_set_state(*address, new_state),
    {
        match self.addresses.get(address) {
            Some(data) => !(new_state == AddressState::Disconnected && data.state
                != AddressState::Disconnected) || data.fail_count < u32::MAX,
            None => false,
        }
    }

    /// Whether the handlers accept `event` in this state.
    pub fn admits(&self, event: &ConnectivityEvent) -> (r: bool)
        requires
            self.wf(),
        ensures
            r == self@.admits(*event),
    {
        match *event {
            ConnectivityEvent::Message { .. } => true,
            ConnectivityEvent::OutboundAccepted { address, peer_id, compatible } => if compatible {
                self.can_set_state(&address, AddressState::Connected)
            } else {
                self.can_set_state(&address, AddressState::Disconnected)
            },
            ConnectivityEvent::InboundAccepted { .. } => false,
            ConnectivityEvent::ConnectionError { address } => self.can_set_state(
                &address,
                AddressState::Disconnected,
            ),
            ConnectivityEvent::ConnectionClosed { peer_id } => match self.outbound_peers.get(
                peer_id,
            ) {
                Some(address) => self.can_set_state(&address, AddressState::Disconnected),
                None => true,
            },
            ConnectivityEvent::Misbehaved { .. } => true,
        }
    }

    /// Update address state: moves a known address into `new_state` and
    /// returns the commands that go with the transition.
    fn change_address_state(&mut self, address: &Endpoint, new_state: AddressState, now: u64) -> (change:
        StateChange)
        requires
            old(self).wf(),
            old(self)@.can_set_state(*address, new_state),
        ensures
            final(self).wf(),
            final(self)@ == old(self)@.set_state(*address, new_state, now),
            change == old(self)@.state_change(*address, new_state),
    {
        self.addresses.change_state(self.config.p2p_port, address, new_state, now)
    }

    /// The shared path on which an address is discovered: a new address
    /// enters the table as disconnected, a known one is left untouched.
    pub fn new_address(&mut self, address: Endpoint, now: u64)
        requires
            old(self).wf(),
        ensures
            final(self).wf(),
            final(self)@ == old(self)@.spec_new_address(address, now),
    {
        self.addresses.new_address(address, AddressData::fresh(now, false, false));
    }

    /// Handles a message that arrived over an existing outbound connection.
    pub fn handle_conn_request(&mut self, peer_id: u64, request: PeerManagerMessage, now: u64) -> (actions:
        Actions)
        requires
            old(self).wf(),
        ensures
            final(self).wf(),
            final(self)@ == old(self)@.spec_handle_conn_request(request, now),
            actions == CrawlerView::conn_request_actions(peer_id, request),
    {
        match request {
            PeerManagerMessage::AddrListRequest => Actions { dns: None, storage: None, conn: None },
            PeerManagerMessage::AnnounceAddrRequest { address } => {
                if let Some(address) = address {
                    self.new_address(address, now);
                }
                Actions { dns: None, storage: None, conn: None }
            },
            PeerManagerMessage::PingRequest { nonce } => Actions {
                dns: None,
                storage: None,
                conn: Some(
                    ConnectivityCommand::SendMessage(
                        peer_id,
                        PeerManagerMessage::PingResponse { nonce },
                    ),
                ),
            },
            PeerManagerMessage::AddrListResponse => Actions { dns: None, storage: None, conn: None },
            PeerManagerMessage::AnnounceAddrResponse => Actions {
                dns: None,
                storage: None,
                conn: None,
            },
            PeerManagerMessage::PingResponse { .. } => Actions {
                dns: None,
                storage: None,
                conn: None,
            },
        }
    }

    /// Create new outbound peer.
    pub fn create_outbound_peer(&mut self, peer_id: u64, address: Endpoint, now: u64) -> (actions:
        Actions)
        requires
            old(self).wf(),
            old(self)@.can_set_state(address, AddressState::Connected),
        ensures
            final(self).wf(),
            final(self)@ == old(self)@.spec_create_outbound_peer(peer_id, address, now),
            actions == actions_of(old(self)@.state_change(address, AddressState::Connected), None),
    {
        self.outbound_peers.insert(peer_id, address);
        let change = self.change_address_state(&address, AddressState::Connected, now);
        Actions { dns: change.dns, storage: change.storage, conn: None }
    }

    /// Remove existing outbound peer.
    pub fn remove_outbound_peer(&mut self, peer_id: u64, now: u64) -> (actions: Actions)
        requires
            old(self).wf(),
            old(self)@.outbound_peers.contains_key(peer_id),
            old(self)@.can_set_state(
                old(self)@.outbound_peers[peer_id],
                AddressState::Disconnected,
            ),
        ensures
            final(self).wf(),
            final(self)@ == old(self)@.spec_remove_outbound_peer(peer_id, now),
            actions == actions_of(
                old(self)@.state_change(
                    old(self)@.outbound_peers[peer_id],
                    AddressState::Disconnected,
                ),
                None,
            ),
    {
        let removed = self.outbound_peers.remove(peer_id);
        let address = removed.unwrap();
        let change = self.change_address_state(&address, AddressState::Disconnected, now);
        Actions { dns: change.dns, storage: change.storage, conn: None }
    }

    /// Invalid peer connected and should be disconnected.
    pub fn disconnect_invalid_peer(&mut self, peer_id: u64, address: Endpoint, now: u64) -> (actions:
        Actions)
        requires
            old(self).wf(),
            old(self)@.can_set_state(address, AddressState::Disconnected),
        ensures
            final(self).wf(),
            final(self)@ == old(self)@.set_state(address, AddressState::Disconnected, now),
            actions == actions_of(
                old(self)@.state_change(address, AddressState::Disconnected),
                Some(ConnectivityCommand::Disconnect(peer_id)),
            ),
    {
        let change = self.change_address_state(&address, AddressState::Disconnected, now);
        Actions {
            dns: change.dns,
            storage: change.storage,
            conn: Some(ConnectivityCommand::Disconnect(peer_id)),
        }
    }

    /// Handles an established outbound connection: a compatible node
    /// becomes an outbound peer, an incompatible one is disconnected.
    pub fn handle_outbound_accepted(
        &mut self,
        address: Endpoint,
        peer_id: u64,
        compatible: bool,
        now: u64,
    ) -> (actions: Actions)
        requires
            old(self).wf(),
            old(self)@.admits(ConnectivityEvent::OutboundAccepted { address, peer_id, compatible }),
        ensures
            final(self).wf(),
            final(self)@ == old(self)@.spec_handle_conn_event(
                ConnectivityEvent::OutboundAccepted { address, peer_id, compatible },
                now,
            ),
            actions == old(self)@.conn_event_actions(
                ConnectivityEvent::OutboundAccepted { address, peer_id, compatible },
            ),
    {
        if compatible {
            self.create_outbound_peer(peer_id, address, now)
        } else {
            self.disconnect_invalid_peer(peer_id, address, now)
        }
    }

    /// Handles a failed connection attempt.
    pub fn handle_connection_error(&mut self, address: Endpoint, now: u64) -> (actions: Actions)
        requires
            old(self).wf(),
            old(self)@.can_set_state(address, AddressState::Disconnected),
        ensures
            final(self).wf(),
            final(self)@ == old(self)@.set_state(address, AddressState::Disconnected, now),
            actions == actions_of(
                old(self)@.state_change(address, AddressState::Disconnected),
                None,
            ),
    {
        let change = self.change_address_state(&address, AddressState::Disconnected, now);
        Actions { dns: change.dns, storage: change.storage, conn: None }
    }

    /// Handles a closed connection: an outbound peer is removed, anything
    /// else is ignored.
    pub fn handle_connection_closed(&mut self, peer_id: u64, now: u64) -> (actions: Actions)
        requires
            old(self).wf(),
            old(self)@.admits(ConnectivityEvent::ConnectionClosed { peer_id }),
        ensures
            final(self).wf(),
            final(self)@ == old(self)@.spec_handle_conn_event(
                ConnectivityEvent::ConnectionClosed { peer_id },
                now,
            ),
            actions == old(self)@.conn_event_actions(ConnectivityEvent::ConnectionClosed { peer_id }),
    {
        if self.outbound_peers.get(peer_id).is_some() {
            self.remove_outbound_peer(peer_id, now)
        } else {
            Actions { dns: None, storage: None, conn: None }
        }
    }

    /// Handles one event from the connectivity layer at `now`.
    pub fn handle_conn_event(&mut self, event: ConnectivityEvent, now: u64) -> (actions: Actions)
        requires
            old(self).wf(),
            old(self)@.admits(event),
        ensures
            final(self).wf(),
            final(self)@ == old(self)@.spec_handle_conn_event(event, now),
            actions == old(self)@.conn_event_actions(event),
    {
        match event {
            ConnectivityEvent::Message { peer, message } => self.handle_conn_request(
                peer,
                message,
                now,
            ),
            ConnectivityEvent::OutboundAccepted {
                address,
                peer_id,
                compatible,
            } => self.handle_outbound_accepted(address, peer_id, compatible, now),
            ConnectivityEvent::InboundAccepted { .. } => Actions {
                dns: None,
                storage: None,
                conn: None,
            },
            ConnectivityEvent::ConnectionError { address } => self.handle_connection_error(
                address,
                now,
            ),
            ConnectivityEvent::ConnectionClosed { peer_id } => self.handle_connection_closed(
                peer_id,
                now,
            ),
            ConnectivityEvent::Misbehaved { .. } => {
                // Ignore all misbehave reports
                Actions { dns: None, storage: None, conn: None }
            },
        }
    }

    /// First phase of the heartbeat: among the addresses that are due at
    /// `now`, chooses at random at most `MAX_CONNECTS_PER_HEARTBEAT`, moves
    /// each into `Connecting`, and returns them. The caller dials each of
    /// them and reports an attempt that fails at once as a connection
    /// error.
    pub fn heartbeat_dial(&mut self, now: u64) -> (dialled: Vec<Endpoint>)
        requires
            old(self).wf(),
        ensures
            final(self).wf(),
            valid_dial(old(self)@.addresses, dialled@, now),
            final(self)@ == old(self)@.spec_heartbeat_dial(dialled@, now),
    {
        self.addresses.dial(self.config.p2p_port, now)
    }

    /// Second phase of the heartbeat: deletes old addresses from memory and
    /// returns those that are to be deleted from the persistent store too.
    pub fn heartbeat_retain(&mut self, now: u64) -> (purged: Vec<Endpoint>)
        requires
            old(self).wf(),
        ensures
            final(self).wf(),
            final(self)@ == old(self)@.spec_heartbeat_retain(now),
            purged@.no_duplicates(),
            purged@.to_set() == spec_purged(old(self)@.addresses, now),
    {
        self.addresses.retain(now)
    }
}

} // verus!
