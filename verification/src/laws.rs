//! What holds of every run of the crawler.
//!
//! A run is a sequence of steps: events from the connectivity layer, and the
//! two phases of the heartbeat. The laws below speak of the views of the
//! crawler before and after, as the contracts of its handlers do.

use crate::address::{spec_get_dns_ip, Endpoint, IpAddress};
use crate::crawler::{spec_initial_table, ConnectivityEvent, CrawlerView};
use crate::state::{AddressData, AddressState, Retention, ServerCommands, StorageCommand};
use crate::table::{spec_purged, valid_dial};
use vstd::prelude::*;

verus! {

/// One step of the crawler.
pub enum Step {
    /// An event from the connectivity layer was handled at `now`.
    Event { event: ConnectivityEvent, now: u64 },
    /// The heartbeat chose `dialled` for a connection attempt at `now`.
    Dial { dialled: Seq<Endpoint>, now: u64 },
    /// The heartbeat dropped old addresses at `now`.
    Retain { now: u64 },
}

impl CrawlerView {
    /// The crawler after `step`.
    pub open spec fn step(self, step: Step) -> CrawlerView {
        match step {
            Step::Event { event, now } => self.spec_handle_conn_event(event, now),
            Step::Dial { dialled, now } => self.spec_heartbeat_dial(dialled, now),
            Step::Retain { now } => self.spec_heartbeat_retain(now),
        }
    }

    /// The DNS command that `step` sends, if it sends one.
    pub open spec fn step_dns(self, step: Step) -> Option<ServerCommands> {
        match step {
            Step::Event { event, now } => self.conn_event_actions(event).dns,
            Step::Dial { .. } => None,
            Step::Retain { .. } => None,
        }
    }

    /// Whether the crawler can take `step`: the handlers accept the event,
    /// and a choice of the heartbeat is one that it may make.
    pub open spec fn step_admitted(self, step: Step) -> bool {
        match step {
            Step::Event { event, now } => self.admits(event),
            Step::Dial { dialled, now } => valid_dial(self.addresses, dialled, now),
            Step::Retain { .. } => true,
        }
    }

    /// Whether `step` is one that the connectivity layer produces: it
    /// reports the outcome of a connection attempt, success or failure,
    /// only for an address that is not connected.
    pub open spec fn step_expected(self, step: Step) -> bool {
        match step {
            Step::Event { event: ConnectivityEvent::OutboundAccepted { address, .. }, .. } => {
                self.addresses[address].state != AddressState::Connected
            },
            Step::Event { event: ConnectivityEvent::ConnectionError { address }, .. } => {
                self.addresses[address].state != AddressState::Connected
            },
            _ => true,
        }
    }

    /// Whether DNS shows `ip`: the endpoint of `ip` on the canonical port
    /// is connected, and `ip` is an address that may be published.
    pub open spec fn published(self, ip: IpAddress) -> bool {
        let e = Endpoint { ip, port: self.p2p_port };
        &&& self.addresses.contains_key(e)
        &&& self.addresses[e].state == AddressState::Connected
        &&& ip.spec_is_global_unicast_ip()
    }

    /// Every outbound peer was dialled at a known address that is
    /// connected, and no two peers at the same address.
    pub open spec fn peers_connected(self) -> bool {
        &&& forall|p: u64| #[trigger]
            self.outbound_peers.contains_key(p) ==> self.addresses.contains_key(
                self.outbound_peers[p],
            ) && self.addresses[self.outbound_peers[p]].state == AddressState::Connected
        &&& forall|p: u64, q: u64|
            self.outbound_peers.contains_key(p) && self.outbound_peers.contains_key(q) && p != q
                ==> #[trigger] self.outbound_peers[p] != #[trigger] self.outbound_peers[q]
    }

    /// The endpoints in the persistent store after `step`, if `store` holds
    /// them before: the step's write is applied, and retention deletes what
    /// it purges.
    pub open spec fn step_store(self, step: Step, store: Set<Endpoint>) -> Set<Endpoint> {
        match step {
            Step::Event { event, now } => match self.conn_event_actions(event).storage {
                Some(StorageCommand::AddAddress(e)) => store.insert(e),
                Some(StorageCommand::DelAddress(e)) => store.remove(e),
                _ => store,
            },
            Step::Dial { .. } => store,
            Step::Retain { now } => store.difference(spec_purged(self.addresses, now)),
        }
    }

    /// Whether `store` holds what it should: every stored endpoint is a
    /// known address that was reachable once or that the operator supplied,
    /// and every known address that was reachable once is stored.
    pub open spec fn store_consistent(self, store: Set<Endpoint>) -> bool {
        &&& forall|e: Endpoint| #[trigger]
            store.contains(e) ==> self.addresses.contains_key(e) && (
            self.addresses[e].was_reachable || self.addresses[e].user_added)
        &&& forall|e: Endpoint| #[trigger]
            self.addresses.contains_key(e) && self.addresses[e].was_reachable ==> store.contains(e)
    }

    /// Every record obeys the rule on the failure counter: a connected
    /// address has no failure on record.
    pub open spec fn fail_counts_consistent(self) -> bool {
        forall|e: Endpoint| #[trigger] self.addresses.contains_key(e) ==> self.addresses[e].wf()
    }
}

/// The crawler after the steps of `steps`, taken in order from `s`.
pub open spec fn run(s: CrawlerView, steps: Seq<Step>) -> CrawlerView
    decreases steps.len(),
{
    if steps.len() == 0 {
        s
    } else {
        run(s, steps.drop_last()).step(steps.last())
    }
}

/// The DNS commands that those steps send, in order.
pub open spec fn run_dns(s: CrawlerView, steps: Seq<Step>) -> Seq<ServerCommands>
    decreases steps.len(),
{
    if steps.len() == 0 {
        Seq::empty()
    } else {
        let before = run_dns(s, steps.drop_last());
        match run(s, steps.drop_last()).step_dns(steps.last()) {
            Some(command) => before.push(command),
            None => before,
        }
    }
}

/// Whether the crawler can take each of the steps in turn.
pub open spec fn run_admitted(s: CrawlerView, steps: Seq<Step>) -> bool
    decreases steps.len(),
{
    steps.len() == 0 || (run_admitted(s, steps.drop_last()) && run(
        s,
        steps.drop_last(),
    ).step_admitted(steps.last()))
}

/// Whether each of the steps is one that the connectivity layer produces.
pub open spec fn run_expected(s: CrawlerView, steps: Seq<Step>) -> bool
    decreases steps.len(),
{
    steps.len() == 0 || (run_expected(s, steps.drop_last()) && run(
        s,
        steps.drop_last(),
    ).step_expected(steps.last()))
}

/// Whether DNS shows `ip` after `commands`, if `live` says whether it
/// showed it before.
pub open spec fn live_after(commands: Seq<ServerCommands>, ip: IpAddress, live: bool) -> bool
    decreases commands.len(),
{
    if commands.len() == 0 {
        live
    } else {
        match commands.last() {
            ServerCommands::AddAddress(a) => a == ip || live_after(commands.drop_last(), ip, live),
            ServerCommands::DelAddress(a) => a != ip && live_after(commands.drop_last(), ip, live),
        }
    }
}

/// Whether the commands for `ip` in `commands` alternate: an `AddAddress`
/// comes only while DNS does not show `ip`, a `DelAddress` only while it
/// does. With `live` false this says that the commands for `ip` are a
/// prefix of `AddAddress, DelAddress, AddAddress, ...`.
pub open spec fn alternates(commands: Seq<ServerCommands>, ip: IpAddress, live: bool) -> bool
    decreases commands.len(),
{
    commands.len() == 0 || (alternates(commands.drop_last(), ip, live) && match commands.last() {
        ServerCommands::AddAddress(a) => a == ip ==> !live_after(commands.drop_last(), ip, live),
        ServerCommands::DelAddress(a) => a == ip ==> live_after(commands.drop_last(), ip, live),
    })
}

/// A transition sends `AddAddress` exactly when the address enters
/// `Connected`, `DelAddress` exactly when it leaves `Connected`, both only
/// for an address that passes the DNS filter, and nothing otherwise.
pub proof fn lemma_transition_dns(
    data: AddressData,
    address: Endpoint,
    p2p_port: u16,
    new_state: AddressState,
)
    ensures
        data.spec_dns_command(address, p2p_port, new_state) == (if spec_get_dns_ip(
            address,
            p2p_port,
        ).is_none() {
            None
        } else if data.state != AddressState::Connected && new_state == AddressState::Connected {
            Some(ServerCommands::AddAddress(address.ip))
        } else if data.state == AddressState::Connected && new_state != AddressState::Connected {
            Some(ServerCommands::DelAddress(address.ip))
        } else {
            None
        }),
{
}

/// A step sends `AddAddress(ip)` exactly when DNS starts to show `ip`, and
/// `DelAddress(ip)` exactly when it ceases to: one command on every entry
/// into `Connected` and one on every exit from it, for an address that
/// passes the DNS filter, and no other command.
pub proof fn lemma_step_dns(s: CrawlerView, step: Step, ip: IpAddress)
    requires
        s.step_admitted(step),
    ensures
        s.step_dns(step) == Some(ServerCommands::AddAddress(ip)) <==> !s.published(ip)
            && s.step(step).published(ip),
        s.step_dns(step) == Some(ServerCommands::DelAddress(ip)) <==> s.published(ip)
            && !s.step(step).published(ip),
{
    let e = Endpoint { ip, port: s.p2p_port };
    match step {
        Step::Event { event, now } => {},
        Step::Dial { dialled, now } => {
            if s.addresses.contains_key(e) && dialled.contains(e) {
                let i = choose|i: int| 0 <= i < dialled.len() && dialled[i] == e;
                assert(crate::table::candidates(s.addresses, now).contains(dialled[i]));
            }
        },
        Step::Retain { now } => {},
    }
}

/// For every address, the DNS commands of a run alternate, beginning with
/// `AddAddress` if DNS did not show the address at the start; and DNS shows
/// the address after the run exactly if its endpoint is connected then and
/// passes the filter.
pub proof fn lemma_dns_commands_alternate(s: CrawlerView, steps: Seq<Step>, ip: IpAddress)
    requires
        run_admitted(s, steps),
    ensures
        alternates(run_dns(s, steps), ip, s.published(ip)),
        live_after(run_dns(s, steps), ip, s.published(ip)) == run(s, steps).published(ip),
    decreases steps.len(),
{
    if steps.len() > 0 {
        let before = steps.drop_last();
        lemma_dns_commands_alternate(s, before, ip);
        let mid = run(s, before);
        lemma_step_dns(mid, steps.last(), ip);
        match mid.step_dns(steps.last()) {
            Some(command) => {
                let commands = run_dns(s, before).push(command);
                assert(commands.drop_last() =~= run_dns(s, before));
                assert(commands.last() == command);
            },
            None => {},
        }
    }
}

/// A step of the kind that the connectivity layer produces keeps every
/// outbound peer at a known, connected address of its own.
pub proof fn lemma_step_keeps_peers_connected(s: CrawlerView, step: Step)
    requires
        s.peers_connected(),
        s.step_admitted(step),
        s.step_expected(step),
    ensures
        s.step(step).peers_connected(),
{
    let t = s.step(step);
    match step {
        Step::Event { event, now } => {
            match event {
                ConnectivityEvent::ConnectionClosed { peer_id } => {
                    if s.outbound_peers.contains_key(peer_id) {
                        assert forall|p: u64| #[trigger]
                            t.outbound_peers.contains_key(p) implies t.addresses.contains_key(
                            t.outbound_peers[p],
                        ) && t.addresses[t.outbound_peers[p]].state
                            == AddressState::Connected by {
                            assert(s.outbound_peers.contains_key(p));
                            assert(s.outbound_peers[p] != s.outbound_peers[peer_id]);
                        }
                    }
                },
                _ => {},
            }
        },
        Step::Dial { dialled, now } => {
            assert forall|p: u64| #[trigger]
                t.outbound_peers.contains_key(p) implies t.addresses.contains_key(
                t.outbound_peers[p],
            ) && t.addresses[t.outbound_peers[p]].state == AddressState::Connected by {
                let e = s.outbound_peers[p];
                if dialled.contains(e) {
                    let i = choose|i: int| 0 <= i < dialled.len() && dialled[i] == e;
                    assert(crate::table::candidates(s.addresses, now).contains(dialled[i]));
                }
            }
        },
        Step::Retain { now } => {},
    }
}

/// In a run of steps that the connectivity layer produces, the endpoints of
/// the outbound peers are at all times known and connected, and no two
/// peers share one.
pub proof fn lemma_run_keeps_peers_connected(s: CrawlerView, steps: Seq<Step>)
    requires
        s.peers_connected(),
        run_admitted(s, steps),
        run_expected(s, steps),
    ensures
        run(s, steps).peers_connected(),
    decreases steps.len(),
{
    if steps.len() > 0 {
        lemma_run_keeps_peers_connected(s, steps.drop_last());
        lemma_step_keeps_peers_connected(run(s, steps.drop_last()), steps.last());
    }
}

/// A transition keeps the rule on the failure counter: after it, a record
/// with failures is not connected.
pub proof fn lemma_transition_keeps_fail_count(data: AddressData, new_state: AddressState, now: u64)
    requires
        data.wf(),
    ensures
        data.spec_change_state(new_state, now).wf(),
{
}

/// In every run, a record with a failure count above zero is never
/// connected: its address is disconnected, or a new attempt is under way.
pub proof fn lemma_run_keeps_fail_counts(s: CrawlerView, steps: Seq<Step>)
    requires
        s.fail_counts_consistent(),
        run_admitted(s, steps),
    ensures
        run(s, steps).fail_counts_consistent(),
    decreases steps.len(),
{
    if steps.len() > 0 {
        lemma_run_keeps_fail_counts(s, steps.drop_last());
        let mid = run(s, steps.drop_last());
        let t = mid.step(steps.last());
        assert forall|e: Endpoint| #[trigger] t.addresses.contains_key(e) implies t.addresses[e].wf() by {
            match steps.last() {
                Step::Event { event, now } => {
                    match event {
                        ConnectivityEvent::ConnectionClosed { peer_id } => {
                            if mid.outbound_peers.contains_key(peer_id) {
                                let a = mid.outbound_peers[peer_id];
                                assert(mid.addresses.contains_key(a));
                                if e != a {
                                    assert(mid.addresses.contains_key(e));
                                }
                            } else {
                                assert(mid.addresses.contains_key(e));
                            }
                        },
                        ConnectivityEvent::OutboundAccepted { address, .. } => {
                            assert(mid.addresses.contains_key(address));
                            if e != address {
                                assert(mid.addresses.contains_key(e));
                            }
                        },
                        ConnectivityEvent::ConnectionError { address } => {
                            assert(mid.addresses.contains_key(address));
                            if e != address {
                                assert(mid.addresses.contains_key(e));
                            }
                        },
                        ConnectivityEvent::Message { peer, message } => {
                            if mid.addresses.contains_key(e) {
                            }
                        },
                        _ => {
                            assert(mid.addresses.contains_key(e));
                        },
                    }
                },
                Step::Dial { dialled, now } => {
                    assert(mid.addresses.contains_key(e));
                },
                Step::Retain { now } => {
                    assert(mid.addresses.contains_key(e));
                },
            }
        }
    }
}

/// An address that the operator supplied stays in the table, as
/// user-added, whatever step the crawler takes.
pub proof fn lemma_step_keeps_user_added(s: CrawlerView, step: Step, e: Endpoint)
    requires
        s.addresses.contains_key(e),
        s.addresses[e].user_added,
    ensures
        s.step(step).addresses.contains_key(e),
        s.step(step).addresses[e].user_added,
{
    match step {
        Step::Retain { now } => {
            assert(s.addresses[e].spec_retention(now) == Retention::Keep);
        },
        _ => {},
    }
}

/// Once an address that the operator supplied is in the table, no run
/// removes it.
pub proof fn lemma_user_added_never_removed(s: CrawlerView, steps: Seq<Step>, e: Endpoint)
    requires
        s.addresses.contains_key(e),
        s.addresses[e].user_added,
    ensures
        run(s, steps).addresses.contains_key(e),
        run(s, steps).addresses[e].user_added,
    decreases steps.len(),
{
    if steps.len() > 0 {
        lemma_user_added_never_removed(s, steps.drop_last(), e);
        lemma_step_keeps_user_added(run(s, steps.drop_last()), steps.last(), e);
    }
}

/// A crawler that has just started obeys the rules above: no peer is
/// connected, no record has a failure, and DNS shows no address.
pub proof fn lemma_initial_state(
    s: CrawlerView,
    loaded: Seq<Endpoint>,
    added: Seq<Option<Endpoint>>,
    now: u64,
)
    requires
        s.addresses == spec_initial_table(loaded, added, now),
        s.outbound_peers == Map::<u64, Endpoint>::empty(),
    ensures
        s.peers_connected(),
        s.fail_counts_consistent(),
        forall|ip: IpAddress| !s.published(ip),
{
}

/// From its start on, the DNS commands that the crawler sends for an
/// address are a prefix of `AddAddress, DelAddress, AddAddress, ...`.
pub proof fn lemma_dns_commands_from_start(
    s: CrawlerView,
    loaded: Seq<Endpoint>,
    added: Seq<Option<Endpoint>>,
    now: u64,
    steps: Seq<Step>,
    ip: IpAddress,
)
    requires
        s.addresses == spec_initial_table(loaded, added, now),
        run_admitted(s, steps),
    ensures
        alternates(run_dns(s, steps), ip, false),
{
    lemma_dns_commands_alternate(s, steps, ip);
}

/// The endpoints in the persistent store after the steps of `steps`, if
/// `store` holds them at the start.
pub open spec fn run_store(s: CrawlerView, steps: Seq<Step>, store: Set<Endpoint>) -> Set<Endpoint>
    decreases steps.len(),
{
    if steps.len() == 0 {
        store
    } else {
        run(s, steps.drop_last()).step_store(
            steps.last(),
            run_store(s, steps.drop_last(), store),
        )
    }
}

/// A crawler that starts from the endpoints of the persistent store finds
/// the store as it should be.
pub proof fn lemma_initial_store(
    s: CrawlerView,
    loaded: Seq<Endpoint>,
    added: Seq<Option<Endpoint>>,
    now: u64,
)
    requires
        s.addresses == spec_initial_table(loaded, added, now),
    ensures
        s.store_consistent(loaded.to_set()),
{
}

/// A step keeps the persistent store as it should be: an address is
/// stored when it is reachable for the first time, and leaves the store
/// when retention purges it.
pub proof fn lemma_step_keeps_store_consistent(s: CrawlerView, step: Step, store: Set<Endpoint>)
    requires
        s.store_consistent(store),
        s.step_admitted(step),
    ensures
        s.step(step).store_consistent(s.step_store(step, store)),
{
    let t = s.step(step);
    let after = s.step_store(step, store);
    match step {
        Step::Event { event, now } => {
            assert forall|e: Endpoint| #[trigger] after.contains(e) implies t.addresses.contains_key(
                e,
            ) && (t.addresses[e].was_reachable || t.addresses[e].user_added) by {
                if store.contains(e) {
                }
            }
            assert forall|e: Endpoint| #[trigger]
                t.addresses.contains_key(e) && t.addresses[e].was_reachable implies after.contains(
                e,
            ) by {
                if s.addresses.contains_key(e) && s.addresses[e].was_reachable {
                    assert(store.contains(e));
                }
            }
        },
        Step::Dial { dialled, now } => {
            assert forall|e: Endpoint| #[trigger] after.contains(e) implies t.addresses.contains_key(
                e,
            ) && (t.addresses[e].was_reachable || t.addresses[e].user_added) by {
                assert(store.contains(e));
            }
            assert forall|e: Endpoint| #[trigger]
                t.addresses.contains_key(e) && t.addresses[e].was_reachable implies after.contains(
                e,
            ) by {
                assert(s.addresses.contains_key(e));
            }
        },
        Step::Retain { now } => {
            assert forall|e: Endpoint| #[trigger] after.contains(e) implies t.addresses.contains_key(
                e,
            ) && (t.addresses[e].was_reachable || t.addresses[e].user_added) by {
                assert(store.contains(e));
            }
            assert forall|e: Endpoint| #[trigger]
                t.addresses.contains_key(e) && t.addresses[e].was_reachable implies after.contains(
                e,
            ) by {
                assert(s.addresses.contains_key(e));
            }
        },
    }
}

/// In every run the persistent store holds exactly the known addresses
/// that were reachable once, besides addresses of the operator that it held
/// from the start.
pub proof fn lemma_run_keeps_store_consistent(s: CrawlerView, steps: Seq<Step>, store: Set<Endpoint>)
    requires
        s.store_consistent(store),
        run_admitted(s, steps),
    ensures
        run(s, steps).store_consistent(run_store(s, steps, store)),
    decreases steps.len(),
{
    if steps.len() > 0 {
        lemma_run_keeps_store_consistent(s, steps.drop_last(), store);
        lemma_step_keeps_store_consistent(
            run(s, steps.drop_last()),
            steps.last(),
            run_store(s, steps.drop_last(), store),
        );
    }
}

} // verus!
