use std::collections::VecDeque;

use dns_crawler::address::{Endpoint, IpAddress};
use dns_crawler::crawler::{
    load_storage, load_storage_v1, Actions, ConnectivityCommand, ConnectivityEvent, Crawler,
    CrawlerConfig, DnsServerError, PeerManagerMessage, StorageStartup,
};
use dns_crawler::state::{
    AddressState, ServerCommands, StorageCommand, MAX_CONNECTS_PER_HEARTBEAT, NANOS_PER_SEC,
    PURGE_REACHABLE_FAIL_COUNT, STORAGE_VERSION,
};
use dns_crawler::storage::DnsServerStorageImpl;

const HEARTBEAT_SECS: u64 = 5;

/// A network of nodes that are online or not, around one crawler, under a
/// clock that the test advances.
struct Network {
    crawler: Crawler,
    store: DnsServerStorageImpl,
    online: Vec<Endpoint>,
    connected: Vec<(Endpoint, u64)>,
    connection_attempts: Vec<Endpoint>,
    events: VecDeque<ConnectivityEvent>,
    dns: Vec<ServerCommands>,
    sent: Vec<ConnectivityCommand>,
    now: u64,
    next_peer_id: u64,
}

fn start(store: DnsServerStorageImpl, add_node: Vec<Endpoint>) -> Network {
    let mut store = store;
    let tx = store.transaction_ro();
    let version = tx.get_version();
    tx.close();
    let loaded = match load_storage(version).unwrap() {
        StorageStartup::Initialize(command) => {
            store.update_db(command);
            Vec::new()
        }
        StorageStartup::Load => {
            let stored = store.transaction_ro().get_addresses();
            load_storage_v1(&stored.into_iter().map(Some).collect())
        }
    };
    let config = CrawlerConfig { add_node: Vec::new(), p2p_port: 3031 };
    let added = add_node.into_iter().map(Some).collect();
    let crawler = Crawler::new(config, loaded, added, 0).unwrap();
    Network {
        crawler,
        store,
        online: Vec::new(),
        connected: Vec::new(),
        connection_attempts: Vec::new(),
        events: VecDeque::new(),
        dns: Vec::new(),
        sent: Vec::new(),
        now: 0,
        next_peer_id: 1,
    }
}

fn test_crawler(add_node: Vec<Endpoint>) -> Network {
    start(DnsServerStorageImpl::new(), add_node)
}

impl Network {
    fn node_online(&mut self, address: Endpoint) {
        assert!(!self.online.contains(&address));
        self.online.push(address);
    }

    fn node_offline(&mut self, address: Endpoint) {
        let at = self.online.iter().position(|a| *a == address).unwrap();
        self.online.remove(at);
        if let Some(at) = self.connected.iter().position(|(a, _)| *a == address) {
            let (_, peer_id) = self.connected.remove(at);
            self.events.push_back(ConnectivityEvent::ConnectionClosed { peer_id });
        }
    }

    fn announce_address(&mut self, from: Endpoint, announced: Endpoint) {
        let peer = self.connected.iter().find(|(a, _)| *a == from).unwrap().1;
        self.events.push_back(ConnectivityEvent::Message {
            peer,
            message: PeerManagerMessage::AnnounceAddrRequest { address: Some(announced) },
        });
    }

    fn connect(&mut self, address: Endpoint) {
        self.connection_attempts.push(address);
        if self.online.contains(&address) {
            let peer_id = self.next_peer_id;
            self.next_peer_id += 1;
            assert!(self.connected.iter().all(|(a, _)| *a != address));
            self.connected.push((address, peer_id));
            self.events.push_back(ConnectivityEvent::OutboundAccepted {
                address,
                peer_id,
                compatible: true,
            });
        } else {
            self.events.push_back(ConnectivityEvent::ConnectionError { address });
        }
    }

    fn perform(&mut self, actions: Actions) {
        if let Some(command) = actions.dns {
            self.dns.push(command);
        }
        if let Some(command) = actions.storage {
            self.store.update_db(command);
        }
        if let Some(command) = actions.conn {
            self.sent.push(command);
        }
    }

    fn handle_events(&mut self) {
        while let Some(event) = self.events.pop_front() {
            assert!(self.crawler.admits(&event));
            let actions = self.crawler.handle_conn_event(event, self.now);
            self.perform(actions);
        }
    }

    fn heartbeat(&mut self) {
        let dialled = self.crawler.heartbeat_dial(self.now);
        assert!(dialled.len() <= MAX_CONNECTS_PER_HEARTBEAT);
        for address in dialled {
            self.connect(address);
        }
        for address in self.crawler.heartbeat_retain(self.now) {
            self.store.update_db(StorageCommand::DelAddress(address));
        }
    }

    fn advance_time(&mut self, step_secs: u64, count: u64) {
        for _ in 0..(step_secs * count / HEARTBEAT_SECS) {
            self.handle_events();
            self.heartbeat();
            self.handle_events();
            self.now += HEARTBEAT_SECS * NANOS_PER_SEC;
        }
    }

    fn stored(&self) -> Vec<Endpoint> {
        self.store.transaction_ro().get_addresses()
    }
}

fn same_set(a: &[Endpoint], b: &[Endpoint]) -> bool {
    a.len() == b.len() && a.iter().all(|x| b.contains(x)) && b.iter().all(|x| a.contains(x))
}

fn v6(first: u16, last: u16, port: u16) -> Endpoint {
    Endpoint::v6([first, 0, 0, 0, 0, 0, 0, last], port)
}

#[test]
fn dns_crawler_basic() {
    let node1 = Endpoint::v4(1, 2, 3, 4, 3031);
    let mut net = test_crawler(vec![node1]);

    // Node goes online, DNS record added
    net.node_online(node1);
    net.advance_time(60, 60);
    assert_eq!(net.dns, vec![ServerCommands::AddAddress(node1.ip)]);

    // Node goes offline, DNS record removed
    net.node_offline(node1);
    net.advance_time(60, 60);
    assert_eq!(
        net.dns,
        vec![ServerCommands::AddAddress(node1.ip), ServerCommands::DelAddress(node1.ip)]
    );
}

#[test]
fn dns_crawler_long_offline() {
    let node1 = Endpoint::v4(1, 2, 3, 4, 3031);
    let mut net = test_crawler(vec![node1]);

    // Two weeks passed
    net.advance_time(60, 14 * 24 * 60);
    assert!(net.dns.is_empty());

    // Node goes online, DNS record is added in 24 hours
    net.node_online(node1);
    net.advance_time(60, 24 * 60);
    assert_eq!(net.dns, vec![ServerCommands::AddAddress(node1.ip)]);
}

#[test]
fn dns_crawler_announced_online() {
    let node1 = Endpoint::v4(1, 2, 3, 4, 3031);
    let node2 = Endpoint::v4(1, 2, 3, 5, 3031);
    let node3 = v6(0x2a00, 1, 3031);
    let mut net = test_crawler(vec![node1]);

    net.node_online(node1);
    net.node_online(node2);
    net.node_online(node3);

    net.advance_time(60, 60);
    assert_eq!(net.dns, vec![ServerCommands::AddAddress(node1.ip)]);

    net.announce_address(node1, node2);
    net.advance_time(60, 60);
    assert_eq!(net.dns.len(), 2);
    assert_eq!(net.dns[1], ServerCommands::AddAddress(node2.ip));

    net.announce_address(node2, node3);
    net.advance_time(60, 60);
    assert_eq!(net.dns.len(), 3);
    assert_eq!(net.dns[2], ServerCommands::AddAddress(node3.ip));

    assert_eq!(net.stored(), vec![node1, node2, node3]);
}

#[test]
fn dns_crawler_announced_offline() {
    let node1 = Endpoint::v4(1, 2, 3, 4, 3031);
    let node2 = Endpoint::v4(1, 2, 3, 5, 3031);
    let mut net = test_crawler(vec![node1]);

    net.node_online(node1);

    net.advance_time(60, 60);
    assert_eq!(net.dns, vec![ServerCommands::AddAddress(node1.ip)]);
    assert_eq!(net.connection_attempts.len(), 1);

    // Check that the crawler tries to connect to an offline node just once
    net.announce_address(node1, node2);
    net.advance_time(60, 24 * 60);
    assert_eq!(net.connection_attempts.len(), 2);

    // Check that the crawler tries to connect if the same address is announced later
    net.node_online(node2);
    net.announce_address(node1, node2);
    net.advance_time(60, 24 * 60);
    assert_eq!(net.dns.len(), 2);
    assert_eq!(net.dns[1], ServerCommands::AddAddress(node2.ip));
    assert_eq!(net.connection_attempts.len(), 3);
}

#[test]
fn dns_private_ip_non_default_port() {
    let node1 = Endpoint::v4(1, 0, 0, 1, 3031);
    let node2 = v6(0x2a00, 1, 3031);
    let node3 = Endpoint::v4(192, 168, 0, 1, 3031);
    let node4 = v6(0xfe80, 1, 3031);
    let node5 = Endpoint::v4(1, 0, 0, 2, 12345);
    let node6 = v6(0x2a00, 2, 12345);
    let nodes = vec![node1, node2, node3, node4, node5, node6];
    let mut net = test_crawler(nodes.clone());

    for node in nodes.iter() {
        net.node_online(*node);
    }

    net.advance_time(60, 24 * 60);

    // Check that only nodes with public addresses and on the default port are added to DNS
    assert_eq!(
        net.dns,
        vec![ServerCommands::AddAddress(node1.ip), ServerCommands::AddAddress(node2.ip)]
    );

    // Check that all reachable nodes are stored in the DB
    assert!(same_set(&net.stored(), &nodes));
}

#[test]
fn once_reachable_address_is_purged_after_many_failures() {
    let node1 = Endpoint::v4(1, 2, 3, 4, 3031);
    let node2 = Endpoint::v4(1, 2, 3, 5, 3031);
    let mut net = test_crawler(vec![node1]);
    net.node_online(node1);
    net.node_online(node2);
    net.advance_time(60, 60);
    net.announce_address(node1, node2);
    net.advance_time(60, 60);
    assert!(same_set(&net.stored(), &[node1, node2]));

    // The announced node goes away for good
    net.node_offline(node2);
    net.advance_time(60, 60);
    let data = net.crawler.address_data(&node2).unwrap();
    assert!(data.was_reachable);
    assert!(!data.user_added);
    assert_eq!(data.state, AddressState::Disconnected);

    // 3 hours, 6 hours, 12 hours, then once a day: after 31 days every
    // one of the 35 failures has happened
    let attempts_before = net.connection_attempts.len();
    net.advance_time(3600, 24 * 31);
    assert_eq!(net.crawler.address_data(&node2), None);
    assert!(same_set(&net.stored(), &[node1]));
    // the connection that closed was the first failure, each later one an attempt
    assert!(net.connection_attempts.len() - attempts_before <= PURGE_REACHABLE_FAIL_COUNT as usize - 1);
    assert_eq!(
        net.dns,
        vec![
            ServerCommands::AddAddress(node1.ip),
            ServerCommands::AddAddress(node2.ip),
            ServerCommands::DelAddress(node2.ip),
        ]
    );
}

#[test]
fn user_added_address_is_never_purged() {
    let node1 = Endpoint::v4(1, 2, 3, 4, 3031);
    let mut net = test_crawler(vec![node1]);
    net.node_online(node1);
    net.advance_time(60, 60);
    net.node_offline(node1);
    net.advance_time(3600, 24 * 60);
    let data = net.crawler.address_data(&node1).unwrap();
    assert!(data.user_added);
    assert!(data.was_reachable);
    assert!(data.fail_count > PURGE_REACHABLE_FAIL_COUNT);
    assert_eq!(net.stored(), vec![node1]);
}

#[test]
fn stored_addresses_are_loaded_at_startup() {
    let node1 = Endpoint::v4(1, 2, 3, 4, 3031);
    let node2 = Endpoint::v4(1, 2, 3, 5, 3031);
    let mut store = DnsServerStorageImpl::new();
    store.update_db(StorageCommand::SetVersion(STORAGE_VERSION));
    store.update_db(StorageCommand::AddAddress(node1));
    store.update_db(StorageCommand::AddAddress(node2));
    let net = start(store, vec![node2]);

    let loaded = net.crawler.address_data(&node1).unwrap();
    assert!(loaded.was_reachable && !loaded.user_added);
    assert_eq!(loaded.state, AddressState::Disconnected);
    assert_eq!(loaded.fail_count, 0);
    // an address that is both stored and supplied counts as supplied
    let added = net.crawler.address_data(&node2).unwrap();
    assert!(!added.was_reachable && added.user_added);
    assert_eq!(net.crawler.address_count(), 2);
}

#[test]
fn new_store_gets_the_version_written() {
    let net = test_crawler(Vec::new());
    assert_eq!(net.store.transaction_ro().get_version(), Some(STORAGE_VERSION));
    assert_eq!(net.crawler.address_count(), 0);
}

#[test]
fn storage_version_decides_the_startup() {
    assert_eq!(
        load_storage(None),
        Ok(StorageStartup::Initialize(StorageCommand::SetVersion(1)))
    );
    assert_eq!(load_storage(Some(1)), Ok(StorageStartup::Load));
    assert_eq!(load_storage(Some(0)), Err(DnsServerError::UnexpectedStorageVersion));
    assert_eq!(load_storage(Some(2)), Err(DnsServerError::UnexpectedStorageVersion));
}

#[test]
fn unparseable_stored_entries_are_dropped() {
    let node1 = Endpoint::v4(1, 2, 3, 4, 3031);
    let node2 = Endpoint::v4(1, 2, 3, 5, 3031);
    assert_eq!(load_storage_v1(&vec![None, Some(node1), None, Some(node2)]), vec![node1, node2]);
    assert_eq!(load_storage_v1(&vec![None]), Vec::<Endpoint>::new());
}

#[test]
fn unparseable_seed_is_fatal() {
    let node1 = Endpoint::v4(1, 2, 3, 4, 3031);
    let config = CrawlerConfig { add_node: vec!["1.2.3.4:3031".to_string(), "x".to_string()], p2p_port: 3031 };
    let r = Crawler::new(config, Vec::new(), vec![Some(node1), None], 0);
    assert!(matches!(r, Err(DnsServerError::AddrParseError)));
}

#[test]
fn ping_is_answered_with_its_nonce() {
    let node1 = Endpoint::v4(1, 2, 3, 4, 3031);
    let mut net = test_crawler(vec![node1]);
    let event = ConnectivityEvent::Message {
        peer: 9,
        message: PeerManagerMessage::PingRequest { nonce: 77 },
    };
    assert!(net.crawler.admits(&event));
    let actions = net.crawler.handle_conn_event(event, 0);
    assert_eq!(
        actions,
        Actions {
            dns: None,
            storage: None,
            conn: Some(ConnectivityCommand::SendMessage(
                9,
                PeerManagerMessage::PingResponse { nonce: 77 }
            )),
        }
    );
}

#[test]
fn other_messages_are_ignored() {
    let node1 = Endpoint::v4(1, 2, 3, 4, 3031);
    let mut net = test_crawler(vec![node1]);
    let nothing = Actions { dns: None, storage: None, conn: None };
    for message in [
        PeerManagerMessage::AddrListRequest,
        PeerManagerMessage::AddrListResponse,
        PeerManagerMessage::AnnounceAddrResponse,
        PeerManagerMessage::PingResponse { nonce: 1 },
        PeerManagerMessage::AnnounceAddrRequest { address: None },
    ] {
        assert_eq!(net.crawler.handle_conn_request(3, message, 5), nothing);
    }
    assert_eq!(net.crawler.handle_conn_event(ConnectivityEvent::Misbehaved { peer_id: 3 }, 5), nothing);
    assert_eq!(net.crawler.address_count(), 1);
}

#[test]
fn announced_known_address_is_left_untouched() {
    let node1 = Endpoint::v4(1, 2, 3, 4, 3031);
    let mut net = test_crawler(vec![node1]);
    let before = net.crawler.address_data(&node1).unwrap();
    net.crawler.new_address(node1, 1234);
    assert_eq!(net.crawler.address_data(&node1), Some(before));
    let node2 = Endpoint::v4(1, 2, 3, 5, 3031);
    net.crawler.new_address(node2, 1234);
    let data = net.crawler.address_data(&node2).unwrap();
    assert_eq!(data.state, AddressState::Disconnected);
    assert_eq!(data.state_updated_at, 1234);
    assert_eq!(data.fail_count, 0);
    assert!(!data.was_reachable && !data.user_added);
}

#[test]
fn incompatible_peer_is_disconnected() {
    let node1 = Endpoint::v4(1, 2, 3, 4, 3031);
    let mut net = test_crawler(vec![node1]);
    assert_eq!(net.crawler.heartbeat_dial(0), vec![node1]);
    let event = ConnectivityEvent::OutboundAccepted { address: node1, peer_id: 4, compatible: false };
    assert!(net.crawler.admits(&event));
    let actions = net.crawler.handle_conn_event(event, 7);
    assert_eq!(
        actions,
        Actions { dns: None, storage: None, conn: Some(ConnectivityCommand::Disconnect(4)) }
    );
    let data = net.crawler.address_data(&node1).unwrap();
    assert_eq!(data.state, AddressState::Disconnected);
    assert_eq!(data.fail_count, 1);
    assert_eq!(data.state_updated_at, 7);
    assert_eq!(net.crawler.peer_address(4), None);
}

#[test]
fn outbound_peers_follow_the_connections() {
    let node1 = Endpoint::v4(1, 2, 3, 4, 3031);
    let mut net = test_crawler(vec![node1]);
    net.crawler.heartbeat_dial(0);
    let actions = net.crawler.handle_outbound_accepted(node1, 11, true, 1);
    assert_eq!(actions.dns, Some(ServerCommands::AddAddress(IpAddress::v4(1, 2, 3, 4))));
    assert_eq!(actions.storage, Some(StorageCommand::AddAddress(node1)));
    assert_eq!(net.crawler.peer_address(11), Some(node1));
    assert_eq!(net.crawler.address_data(&node1).unwrap().state, AddressState::Connected);

    // a closed connection of an unknown peer changes nothing
    let nothing = Actions { dns: None, storage: None, conn: None };
    assert_eq!(net.crawler.handle_connection_closed(12, 2), nothing);
    assert_eq!(net.crawler.peer_address(11), Some(node1));

    let actions = net.crawler.handle_connection_closed(11, 3);
    assert_eq!(actions.dns, Some(ServerCommands::DelAddress(IpAddress::v4(1, 2, 3, 4))));
    assert_eq!(actions.storage, None);
    assert_eq!(net.crawler.peer_address(11), None);
    let data = net.crawler.address_data(&node1).unwrap();
    assert_eq!(data.state, AddressState::Disconnected);
    assert_eq!(data.fail_count, 1);

    // connected again: the address is stored only the first time
    net.crawler.heartbeat_dial(3 + 61 * NANOS_PER_SEC);
    let actions = net.crawler.handle_outbound_accepted(node1, 13, true, 3 + 62 * NANOS_PER_SEC);
    assert_eq!(actions.dns, Some(ServerCommands::AddAddress(IpAddress::v4(1, 2, 3, 4))));
    assert_eq!(actions.storage, None);
    assert_eq!(net.crawler.address_data(&node1).unwrap().fail_count, 0);
}

#[test]
fn inbound_connections_and_unknown_addresses_are_not_admitted() {
    let node1 = Endpoint::v4(1, 2, 3, 4, 3031);
    let node2 = Endpoint::v4(1, 2, 3, 5, 3031);
    let net = test_crawler(vec![node1]);
    assert!(!net.crawler.admits(&ConnectivityEvent::InboundAccepted { address: node1, peer_id: 1 }));
    assert!(!net.crawler.admits(&ConnectivityEvent::ConnectionError { address: node2 }));
    assert!(!net.crawler.admits(&ConnectivityEvent::OutboundAccepted {
        address: node2,
        peer_id: 1,
        compatible: true
    }));
    assert!(net.crawler.admits(&ConnectivityEvent::ConnectionError { address: node1 }));
    assert!(net.crawler.admits(&ConnectivityEvent::ConnectionClosed { peer_id: 1 }));
}

#[test]
fn heartbeat_dials_at_most_the_limit() {
    let mut seeds = Vec::new();
    for i in 0..40u8 {
        seeds.push(Endpoint::v4(1, 2, 3, i, 3031));
    }
    let mut net = test_crawler(seeds.clone());
    let first = net.crawler.heartbeat_dial(0);
    assert_eq!(first.len(), 25);
    for (i, a) in first.iter().enumerate() {
        assert!(seeds.contains(a));
        assert!(!first[..i].contains(a));
        assert_eq!(net.crawler.address_data(a).unwrap().state, AddressState::Connecting);
    }
    let second = net.crawler.heartbeat_dial(0);
    assert_eq!(second.len(), 15);
    for a in second.iter() {
        assert!(seeds.contains(a) && !first.contains(a));
    }
    assert!(net.crawler.heartbeat_dial(0).is_empty());
}

#[test]
fn dns_commands_alternate_for_every_address() {
    let node1 = Endpoint::v4(1, 2, 3, 4, 3031);
    let mut net = test_crawler(vec![node1]);
    net.node_online(node1);
    for _ in 0..5 {
        net.advance_time(60, 120);
        net.node_offline(node1);
        net.advance_time(60, 120);
        net.node_online(node1);
    }
    assert!(!net.dns.is_empty());
    for (i, command) in net.dns.iter().enumerate() {
        if i % 2 == 0 {
            assert_eq!(*command, ServerCommands::AddAddress(node1.ip));
        } else {
            assert_eq!(*command, ServerCommands::DelAddress(node1.ip));
        }
    }
}

#[test]
fn outbound_peers_are_connected_addresses_of_their_own() {
    let mut nodes = Vec::new();
    for i in 1..=6u8 {
        nodes.push(Endpoint::v4(1, 2, 3, i, 3031));
    }
    let mut net = test_crawler(nodes.clone());
    for node in nodes.iter() {
        net.node_online(*node);
    }
    for round in 0..6usize {
        net.advance_time(60, 90);
        let mut seen = Vec::new();
        for (address, peer_id) in net.connected.iter() {
            assert_eq!(net.crawler.peer_address(*peer_id), Some(*address));
            let data = net.crawler.address_data(address).unwrap();
            assert_eq!(data.state, AddressState::Connected);
            assert_eq!(data.fail_count, 0);
            assert!(!seen.contains(address));
            seen.push(*address);
        }
        assert_eq!(seen.len(), 6 - round);
        net.node_offline(nodes[round]);
    }
    net.advance_time(60, 90);
    for peer_id in 0..net.next_peer_id {
        assert_eq!(net.crawler.peer_address(peer_id), None);
    }
}

#[test]
fn failures_stay_on_record_until_the_address_is_connected() {
    let node1 = Endpoint::v4(1, 2, 3, 4, 3031);
    let mut net = test_crawler(vec![node1]);
    net.advance_time(60, 10);
    let failed = net.crawler.address_data(&node1).unwrap();
    assert_eq!(failed.state, AddressState::Disconnected);
    assert!(failed.fail_count > 0);

    // the next attempt is under way: the failures are still on record
    let later = failed.state_updated_at + 3601 * NANOS_PER_SEC;
    assert_eq!(net.crawler.heartbeat_dial(later), vec![node1]);
    let dialled = net.crawler.address_data(&node1).unwrap();
    assert_eq!(dialled.state, AddressState::Connecting);
    assert_eq!(dialled.fail_count, failed.fail_count);

    net.crawler.handle_outbound_accepted(node1, 99, true, later);
    let connected = net.crawler.address_data(&node1).unwrap();
    assert_eq!(connected.state, AddressState::Connected);
    assert_eq!(connected.fail_count, 0);
}
