use dns_crawler::address::{Endpoint, IpAddress};
use dns_crawler::state::{
    age, change_address_state, connect_now, retain_address, AddressData, AddressState, Retention,
    ServerCommands, StateChange, StorageCommand, HEARTBEAT_INTERVAL, MAX_CONNECTS_PER_HEARTBEAT,
    NANOS_PER_SEC, PURGE_REACHABLE_FAIL_COUNT, PURGE_UNREACHABLE_TIME, STORAGE_VERSION,
};

const SEC: u64 = NANOS_PER_SEC;

fn disconnected(fail_count: u32, was_reachable: bool, user_added: bool) -> AddressData {
    AddressData {
        state: AddressState::Disconnected,
        state_updated_at: 1000 * SEC,
        fail_count,
        was_reachable,
        user_added,
    }
}

/// Whether the address is dialled when exactly `secs` have passed, and when
/// one nanosecond more has passed.
fn due_at(data: &AddressData, secs: u64) -> (bool, bool) {
    let at = data.state_updated_at + secs * SEC;
    (connect_now(at, data), connect_now(at + 1, data))
}

#[test]
fn constants_have_their_reference_values() {
    assert_eq!(HEARTBEAT_INTERVAL, 5_000_000_000);
    assert_eq!(MAX_CONNECTS_PER_HEARTBEAT, 25);
    assert_eq!(PURGE_UNREACHABLE_TIME, 3_600_000_000_000);
    assert_eq!(PURGE_REACHABLE_FAIL_COUNT, 35);
    assert_eq!(STORAGE_VERSION, 1);
}

#[test]
fn age_is_zero_before_the_update() {
    assert_eq!(age(10, 3), 7);
    assert_eq!(age(3, 3), 0);
    assert_eq!(age(3, 10), 0);
    assert_eq!(age(u64::MAX, 0), u64::MAX);
}

#[test]
fn fresh_record_is_disconnected_without_failures() {
    let data = AddressData::fresh(42, true, false);
    assert_eq!(
        data,
        AddressData {
            state: AddressState::Disconnected,
            state_updated_at: 42,
            fail_count: 0,
            was_reachable: true,
            user_added: false,
        }
    );
}

#[test]
fn connected_and_connecting_are_never_dialled() {
    for state in [AddressState::Connected, AddressState::Connecting] {
        for user_added in [false, true] {
            for was_reachable in [false, true] {
                let data = AddressData {
                    state,
                    state_updated_at: 0,
                    fail_count: 0,
                    was_reachable,
                    user_added,
                };
                assert!(!connect_now(0, &data));
                assert!(!connect_now(u64::MAX, &data));
            }
        }
    }
}

#[test]
fn address_without_failures_is_dialled_at_once() {
    for user_added in [false, true] {
        for was_reachable in [false, true] {
            let data = disconnected(0, was_reachable, user_added);
            assert!(connect_now(data.state_updated_at, &data));
            assert!(connect_now(0, &data));
        }
    }
}

#[test]
fn user_added_backoff() {
    let schedule = [(1, 60), (2, 360), (3, 3600), (4, 3600), (5, 3600), (6, 3600), (7, 3600), (100, 3600)];
    for (fail_count, secs) in schedule {
        for was_reachable in [false, true] {
            let data = disconnected(fail_count, was_reachable, true);
            assert_eq!(due_at(&data, secs), (false, true), "{} failures", fail_count);
            assert!(!connect_now(data.state_updated_at, &data));
        }
    }
}

#[test]
fn was_reachable_backoff() {
    let schedule = [
        (1, 60),
        (2, 360),
        (3, 3600),
        (4, 10800),
        (5, 21600),
        (6, 43200),
        (7, 86400),
        (8, 86400),
        (34, 86400),
        (u32::MAX, 86400),
    ];
    for (fail_count, secs) in schedule {
        let data = disconnected(fail_count, true, false);
        assert_eq!(due_at(&data, secs), (false, true), "{} failures", fail_count);
        assert!(!connect_now(data.state_updated_at, &data));
    }
}

#[test]
fn never_reachable_is_dialled_just_once() {
    for fail_count in [1, 2, 3, 7, 35, u32::MAX] {
        let data = disconnected(fail_count, false, false);
        assert!(!connect_now(data.state_updated_at, &data));
        assert!(!connect_now(u64::MAX, &data));
    }
}

#[test]
fn retention_keeps_user_added_and_live_addresses() {
    let mut data = disconnected(1000, true, true);
    assert_eq!(retain_address(u64::MAX, &data), Retention::Keep);
    data.was_reachable = false;
    assert_eq!(retain_address(u64::MAX, &data), Retention::Keep);
    for state in [AddressState::Connected, AddressState::Connecting] {
        for was_reachable in [false, true] {
            let data = AddressData {
                state,
                state_updated_at: 0,
                fail_count: 1000,
                was_reachable,
                user_added: false,
            };
            assert_eq!(retain_address(u64::MAX, &data), Retention::Keep);
        }
    }
}

#[test]
fn retention_purges_once_reachable_by_failure_count() {
    let now = 1000 * SEC;
    assert_eq!(retain_address(now, &disconnected(34, true, false)), Retention::Keep);
    assert_eq!(retain_address(u64::MAX, &disconnected(34, true, false)), Retention::Keep);
    assert_eq!(retain_address(now, &disconnected(35, true, false)), Retention::Purge);
    assert_eq!(retain_address(now, &disconnected(36, true, false)), Retention::Purge);
    assert_eq!(retain_address(now, &disconnected(0, true, false)), Retention::Keep);
}

#[test]
fn retention_forgets_never_reachable_by_age() {
    let data = disconnected(1, false, false);
    let at = data.state_updated_at + 3600 * SEC;
    assert_eq!(retain_address(at - 1, &data), Retention::Keep);
    assert_eq!(retain_address(at, &data), Retention::Forget);
    assert_eq!(retain_address(u64::MAX, &data), Retention::Forget);
    // without a failure the address stays however old it is
    assert_eq!(retain_address(u64::MAX, &disconnected(0, false, false)), Retention::Keep);
    assert_eq!(retain_address(u64::MAX, &disconnected(35, false, false)), Retention::Forget);
}

#[test]
fn transitions_and_their_commands() {
    let address = Endpoint::v4(1, 2, 3, 4, 3031);
    let ip = IpAddress::v4(1, 2, 3, 4);
    let nothing = StateChange { dns: None, storage: None };
    let mut data = AddressData::fresh(0, false, true);

    // Disconnected -> Connecting
    assert_eq!(change_address_state(3031, &address, &mut data, AddressState::Connecting, 10), nothing);
    assert_eq!(data.state, AddressState::Connecting);
    assert_eq!(data.state_updated_at, 10);
    assert_eq!(data.fail_count, 0);

    // Connecting -> Disconnected
    assert_eq!(change_address_state(3031, &address, &mut data, AddressState::Disconnected, 20), nothing);
    assert_eq!((data.state, data.state_updated_at, data.fail_count), (AddressState::Disconnected, 20, 1));
    assert!(!data.was_reachable);

    // a failure on record stays while the address is dialled again
    assert_eq!(change_address_state(3031, &address, &mut data, AddressState::Connecting, 30), nothing);
    assert_eq!((data.state, data.state_updated_at, data.fail_count), (AddressState::Connecting, 30, 1));

    // Connecting -> Connected, for the first time
    assert_eq!(
        change_address_state(3031, &address, &mut data, AddressState::Connected, 40),
        StateChange {
            dns: Some(ServerCommands::AddAddress(ip)),
            storage: Some(StorageCommand::AddAddress(address)),
        }
    );
    assert_eq!((data.state, data.state_updated_at, data.fail_count), (AddressState::Connected, 40, 0));
    assert!(data.was_reachable && data.user_added);

    // Connected -> Disconnected
    assert_eq!(
        change_address_state(3031, &address, &mut data, AddressState::Disconnected, 50),
        StateChange { dns: Some(ServerCommands::DelAddress(ip)), storage: None }
    );
    assert_eq!((data.state, data.state_updated_at, data.fail_count), (AddressState::Disconnected, 50, 1));
    assert!(data.was_reachable);

    // connected again: no second write to the store
    change_address_state(3031, &address, &mut data, AddressState::Connecting, 60);
    assert_eq!(
        change_address_state(3031, &address, &mut data, AddressState::Connected, 70),
        StateChange { dns: Some(ServerCommands::AddAddress(ip)), storage: None }
    );
}

#[test]
fn transition_into_the_current_state_is_dropped() {
    let address = Endpoint::v4(1, 2, 3, 4, 3031);
    let nothing = StateChange { dns: None, storage: None };
    for state in [AddressState::Disconnected, AddressState::Connecting, AddressState::Connected] {
        let before = AddressData {
            state,
            state_updated_at: 5,
            fail_count: if state == AddressState::Connected { 0 } else { 3 },
            was_reachable: state == AddressState::Connected,
            user_added: false,
        };
        let mut data = before;
        assert_eq!(change_address_state(3031, &address, &mut data, state, 99), nothing);
        assert_eq!(data, before);
    }
}

#[test]
fn filtered_address_sends_no_dns_command() {
    let nothing_for_dns = |address: Endpoint| {
        let mut data = AddressData::fresh(0, false, false);
        change_address_state(3031, &address, &mut data, AddressState::Connecting, 1);
        let up = change_address_state(3031, &address, &mut data, AddressState::Connected, 2);
        assert_eq!(up, StateChange { dns: None, storage: Some(StorageCommand::AddAddress(address)) });
        let down = change_address_state(3031, &address, &mut data, AddressState::Disconnected, 3);
        assert_eq!(down, StateChange { dns: None, storage: None });
        assert_eq!(data.fail_count, 1);
    };
    nothing_for_dns(Endpoint::v4(192, 168, 0, 1, 3031));
    nothing_for_dns(Endpoint::v4(1, 0, 0, 2, 12345));
    nothing_for_dns(Endpoint::v6([0xfe80, 0, 0, 0, 0, 0, 0, 1], 3031));
    nothing_for_dns(Endpoint::v6([0x2a00, 0, 0, 0, 0, 0, 0, 2], 12345));
}

#[test]
fn failure_count_is_zero_while_connected() {
    let address = Endpoint::v4(1, 2, 3, 4, 3031);
    let mut data = AddressData::fresh(0, true, false);
    for round in 0..10u64 {
        change_address_state(3031, &address, &mut data, AddressState::Connecting, round);
        change_address_state(3031, &address, &mut data, AddressState::Disconnected, round);
        assert_eq!(data.fail_count as u64, round + 1);
    }
    change_address_state(3031, &address, &mut data, AddressState::Connecting, 11);
    assert_eq!(data.fail_count, 10);
    change_address_state(3031, &address, &mut data, AddressState::Connected, 12);
    assert_eq!(data.fail_count, 0);
}
