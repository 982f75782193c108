//! The per-endpoint state machine: connection phase, progressive backoff,
//! retention, and the commands that every transition is paired with.
//!
//! Time is a count of nanoseconds on a monotonic clock; the caller supplies
//! it, so that the same code runs under a real and under a virtual clock.

use crate::address::{get_dns_ip, spec_get_dns_ip, Endpoint, IpAddress};
use vstd::prelude::*;

verus! {

pub const NANOS_PER_SEC: u64 = 1_000_000_000;

/// How often the server performs maintenance (tries to connect to new nodes).
pub const HEARTBEAT_INTERVAL: u64 = 5 * NANOS_PER_SEC;

/// How many outbound connection attempts can be made per heartbeat.
pub const MAX_CONNECTS_PER_HEARTBEAT: usize = 25;

/// When the server drops an address that never was reachable. Used for
/// negative caching.
pub const PURGE_UNREACHABLE_TIME: u64 = 3600 * NANOS_PER_SEC;

/// After how many failures in a row the server drops an address that was
/// once reachable. With the backoff below this takes about a month, which
/// helps if the server itself has prolonged connectivity problems.
pub const PURGE_REACHABLE_FAIL_COUNT: u32 = 35;

/// The version of the layout of the persistent store.
pub const STORAGE_VERSION: u32 = 1;

/// Connection state of a potential node address (outbound only).
#[derive(Clone, Copy, Debug, PartialEq, Eq, Structural)]
pub enum AddressState {
    Disconnected,
    Connecting,
    Connected,
}

/// Additional state of a potential node address.
#[derive(Clone, Copy, Debug, PartialEq, Eq, Structural)]
pub struct AddressData {
    /// Connection state.
    pub state: AddressState,
    /// Last time when the connection state was updated.
    pub state_updated_at: u64,
    /// The number of failed connection attempts. New attempts are made after
    /// a progressive backoff time. Resets to 0 when an outbound connection to
    /// the address is successful.
    pub fail_count: u32,
    /// Whether the address was reachable at least once. Addresses that were
    /// once reachable are kept in the persistent store.
    pub was_reachable: bool,
    /// Whether the address was supplied by the operator.
    pub user_added: bool,
}

/// A command for the DNS server.
#[derive(Clone, Copy, Debug, PartialEq, Eq, Structural)]
pub enum ServerCommands {
    AddAddress(IpAddress),
    DelAddress(IpAddress),
}

/// A write to the persistent store; each is one transaction.
#[derive(Clone, Copy, Debug, PartialEq, Eq, Structural)]
pub enum StorageCommand {
    SetVersion(u32),
    AddAddress(Endpoint),
    DelAddress(Endpoint),
}

/// What a state transition asks of the outside world.
#[derive(Clone, Copy, Debug, PartialEq, Eq, Structural)]
pub struct StateChange {
    pub dns: Option<ServerCommands>,
    pub storage: Option<StorageCommand>,
}

/// What the retention rule decides for one address.
#[derive(Clone, Copy, Debug, PartialEq, Eq, Structural)]
pub enum Retention {
    /// The address stays.
    Keep,
    /// The address never was reachable and leaves the table.
    Forget,
    /// The address was reachable once: it leaves the table and the
    /// persistent store.
    Purge,
}

/// The time that has passed at `now` since `since`; zero if `since` lies
/// ahead of `now`.
pub open spec fn spec_age(now: u64, since: u64) -> u64 {
    if now >= since {
        (now - since) as u64
    } else {
        0
    }
}

/// The pause, in seconds, before an operator-supplied address is dialled
/// again after `fail_count >= 1` failures.
pub open spec fn user_added_backoff_secs(fail_count: u32) -> int {
    if fail_count <= 1 {
        60
    } else if fail_count == 2 {
        360
    } else {
        3600
    }
}

/// The pause, in seconds, before an address that was reachable once is
/// dialled again after `fail_count >= 1` failures.
pub open spec fn reachable_backoff_secs(fail_count: u32) -> int {
    if fail_count <= 1 {
        60
    } else if fail_count == 2 {
        360
    } else if fail_count == 3 {
        3600
    } else if fail_count == 4 {
        10800
    } else if fail_count == 5 {
        21600
    } else if fail_count == 6 {
        43200
    } else {
        86400
    }
}

/// The fresh record of an address that has just become known.
pub open spec fn spec_fresh(now: u64, was_reachable: bool, user_added: bool) -> AddressData {
    AddressData {
        state: AddressState::Disconnected,
        state_updated_at: now,
        fail_count: 0,
        was_reachable,
        user_added,
    }
}

impl AddressData {
    /// A connected address has no failures on record. While an address is
    /// being dialled again its earlier failures stay on record, so a count
    /// above zero belongs to a disconnected address or to one whose retry is
    /// under way.
    pub open spec fn wf(self) -> bool {
        self.fail_count > 0 ==> self.state != AddressState::Connected
    }

    /// The record of an address that has just become known: disconnected,
    /// without failures.
    pub fn fresh(now: u64, was_reachable: bool, user_added: bool) -> (r: AddressData)
        ensures
            r == spec_fresh(now, was_reachable, user_added),
            r.wf(),
    {
        AddressData {
            state: AddressState::Disconnected,
            state_updated_at: now,
            fail_count: 0,
            was_reachable,
            user_added,
        }
    }

    /// Whether it is time to dial the address: never while it is connected
    /// or being dialled; at once if it has no failure on record; after the
    /// backoff of its category otherwise, and never again for an address
    /// that was neither supplied by the operator nor ever reachable.
    pub open spec fn spec_connect_now(self, now: u64) -> bool {
        let age = spec_age(now, self.state_updated_at);
        &&& self.state == AddressState::Disconnected
        &&& (self.fail_count == 0 || if self.user_added {
            age > user_added_backoff_secs(self.fail_count) * NANOS_PER_SEC
        } else if self.was_reachable {
            age > reachable_backoff_secs(self.fail_count) * NANOS_PER_SEC
        } else {
            false
        })
    }

    /// What retention decides at `now`: operator-supplied addresses and
    /// addresses that are not disconnected always stay.
    pub open spec fn spec_retention(self, now: u64) -> Retention {
        if self.user_added || self.state != AddressState::Disconnected {
            Retention::Keep
        } else if self.was_reachable && self.fail_count >= PURGE_REACHABLE_FAIL_COUNT {
            Retention::Purge
        } else if !self.was_reachable && self.fail_count > 0 && spec_age(
            now,
            self.state_updated_at,
        ) >= PURGE_UNREACHABLE_TIME {
            Retention::Forget
        } else {
            Retention::Keep
        }
    }

    /// Whether the record can move into `new_state`: a failure can be
    /// counted only while the counter has room.
    pub open spec fn can_change_to(self, new_state: AddressState) -> bool {
        new_state == AddressState::Disconnected && self.state != AddressState::Disconnected
            ==> self.fail_count < u32::MAX
    }

    /// The record after a request to move into `new_state` at `now`. A
    /// request to move into the current state changes nothing.
    pub open spec fn spec_change_state(self, new_state: AddressState, now: u64) -> AddressData {
        if self.state == new_state {
            self
        } else {
            match new_state {
                AddressState::Connecting => AddressData {
                    state: new_state,
                    state_updated_at: now,
                    ..self
                },
                AddressState::Connected => AddressData {
                    state: new_state,
                    state_updated_at: now,
                    fail_count: 0,
                    was_reachable: true,
                    ..self
                },
                AddressState::Disconnected => AddressData {
                    state: new_state,
                    state_updated_at: now,
                    fail_count: (self.fail_count + 1) as u32,
                    ..self
                },
            }
        }
    }

    /// The DNS command that goes with that request: the record is deleted
    /// when the address leaves `Connected` and added when it enters it, if
    /// the address is one that DNS may show at all.
    pub open spec fn spec_dns_command(
        self,
        address: Endpoint,
        p2p_port: u16,
        new_state: AddressState,
    ) -> Option<ServerCommands> {
        match spec_get_dns_ip(address, p2p_port) {
            Some(ip) => if self.state == new_state {
                None
            } else if self.state == AddressState::Connected {
                Some(ServerCommands::DelAddress(ip))
            } else if new_state == AddressState::Connected {
                Some(ServerCommands::AddAddress(ip))
            } else {
                None
            },
            None => None,
        }
    }

    /// The write to the persistent store that goes with that request: the
    /// address is stored the first time it enters `Connected`.
    pub open spec fn spec_storage_command(
        self,
        address: Endpoint,
        new_state: AddressState,
    ) -> Option<StorageCommand> {
        if self.state != new_state && new_state == AddressState::Connected
            && !self.was_reachable {
            Some(StorageCommand::AddAddress(address))
        } else {
            None
        }
    }
}

/// The time that has passed at `now` since `since`, zero if `since` lies
/// ahead of `now`.
pub fn age(now: u64, since: u64) -> (r: u64)
    ensures
        r == spec_age(now, since),
{
    if now >= since {
        now - since
    } else {
        0
    }
}

/// Update address state.
///
/// The only place where the state of an address changes, and where the
/// commands for DNS and for the persistent store arise.
pub fn change_address_state(
    p2p_port: u16,
    address: &Endpoint,
    address_data: &mut AddressData,
    new_state: AddressState,
    now: u64,
) -> (change: StateChange)
    requires
        old(address_data).can_change_to(new_state),
    ensures
        *final(address_data) == old(address_data).spec_change_state(new_state, now),
        change.dns == old(address_data).spec_dns_command(*address, p2p_port, new_state),
        change.storage == old(address_data).spec_storage_command(*address, new_state),
        old(address_data).wf() ==> final(address_data).wf(),
{
    if address_data.state == new_state {
        return StateChange { dns: None, storage: None };
    }
    let old_state = address_data.state;
    address_data.state = new_state;
    address_data.state_updated_at = now;

    let dns_ip = get_dns_ip(address, p2p_port);
    let mut dns: Option<ServerCommands> = None;
    let mut storage: Option<StorageCommand> = None;

    match old_state {
        AddressState::Disconnected | AddressState::Connecting => {},
        AddressState::Connected => {
            // Reachable node has disconnected, update DNS
            if let Some(ip) = dns_ip {
                dns = Some(ServerCommands::DelAddress(ip));
            }
        },
    }

    match new_state {
        AddressState::Connecting => {},
        AddressState::Connected => {
            if let Some(ip) = dns_ip {
                dns = Some(ServerCommands::AddAddress(ip));
            }
            address_data.fail_count = 0;
            if !address_data.was_reachable {
                address_data.was_reachable = true;
                // New reachable address discovered
                storage = Some(StorageCommand::AddAddress(*address));
            }
        },
        AddressState::Disconnected => {
            address_data.fail_count = address_data.fail_count + 1;
        },
    }
    StateChange { dns, storage }
}

/// Returns true when it is time to attempt a new outbound connection.
pub fn connect_now(now: u64, address_data: &AddressData) -> (r: bool)
    ensures
        r == address_data.spec_connect_now(now),
{
    let age = age(now, address_data.state_updated_at);
    match address_data.state {
        AddressState::Connected | AddressState::Connecting => false,
        AddressState::Disconnected => {
            if address_data.user_added {
                // Try to connect to the user added nodes more often
                match address_data.fail_count {
                    0 => true,
                    1 => age > 60 * NANOS_PER_SEC,
                    2 => age > 360 * NANOS_PER_SEC,
                    _ => age > 3600 * NANOS_PER_SEC,
                }
            } else if address_data.was_reachable {
                match address_data.fail_count {
                    0 => true,
                    1 => age > 60 * NANOS_PER_SEC,
                    2 => age > 360 * NANOS_PER_SEC,
                    3 => age > 3600 * NANOS_PER_SEC,
                    4 => age > 3 * 3600 * NANOS_PER_SEC,
                    5 => age > 6 * 3600 * NANOS_PER_SEC,
                    6 => age > 12 * 3600 * NANOS_PER_SEC,
                    _ => age > 24 * 3600 * NANOS_PER_SEC,
                }
            } else {
                // The address was never reachable, try to connect just once
                address_data.fail_count == 0
            }
        },
    }
}

/// Decides whether the address should be kept in memory, and whether its
/// entry in the persistent store goes with it.
pub fn retain_address(now: u64, address_data: &AddressData) -> (r: Retention)
    ensures
        r == address_data.spec_retention(now),
{
    if address_data.user_added || address_data.state != AddressState::Disconnected {
        return Retention::Keep;
    }
    if address_data.was_reachable && address_data.fail_count >= PURGE_REACHABLE_FAIL_COUNT {
        return Retention::Purge;
    }
    if !address_data.was_reachable && address_data.fail_count > 0 && age(
        now,
        address_data.state_updated_at,
    ) >= PURGE_UNREACHABLE_TIME {
        return Retention::Forget;
    }
    Retention::Keep
}

} // verus!
