//! The store of the endpoints that were reachable at least once, with its
//! transactions. The store is kept in memory.
//!
//! A read-only transaction sees the store as it was when the transaction
//! was opened. A read-write transaction collects its writes; they reach
//! the store together when the transaction is committed, and not at all
//! when it is aborted.

use crate::address::Endpoint;
use crate::state::StorageCommand;
use vstd::prelude::*;

verus! {

/// What a store holds, as contracts see it.
pub struct StoreView {
    /// The version of the layout, once it was written.
    pub version: Option<u32>,
    /// The stored endpoints.
    pub addresses: Set<Endpoint>,
}

/// The store after `command` was written to it.
pub open spec fn spec_apply(store: StoreView, command: StorageCommand) -> StoreView {
    match command {
        StorageCommand::SetVersion(version) => StoreView { version: Some(version), ..store },
        StorageCommand::AddAddress(address) => StoreView {
            addresses: store.addresses.insert(address),
            ..store
        },
        StorageCommand::DelAddress(address) => StoreView {
            addresses: store.addresses.remove(address),
            ..store
        },
    }
}

struct StoreData {
    version: Option<u32>,
    addresses: Vec<Endpoint>,
}

impl StoreData {
    spec fn wf(&self) -> bool {
        self.addresses@.no_duplicates()
    }

    spec fn view(&self) -> StoreView {
        StoreView { version: self.version, addresses: self.addresses@.to_set() }
    }

    fn empty() -> (r: StoreData)
        ensures
            r.wf(),
            r.view() == (StoreView { version: None, addresses: Set::<Endpoint>::empty() }),
    {
        let r = StoreData { version: None, addresses: Vec::new() };
        assert(r.addresses@.to_set() =~= Set::<Endpoint>::empty());
        r
    }

    fn copy(&self) -> (r: StoreData)
        requires
            self.wf(),
        ensures
            r.wf(),
            r.view() == self.view(),
            r.addresses@ == self.addresses@,
    {
        let mut addresses: Vec<Endpoint> = Vec::new();
        let mut i: usize = 0;
        while i < self.addresses.len()
            invariant
                i <= self.addresses@.len(),
                addresses@ == self.addresses@.take(i as int),
            decreases self.addresses@.len() - i,
        {
            addresses.push(self.addresses[i]);
            proof {
                assert(self.addresses@.take(i + 1) =~= self.addresses@.take(i as int).push(
                    self.addresses@[i as int],
                ));
            }
            i = i + 1;
        }
        proof {
            assert(self.addresses@.take(self.addresses@.len() as int) =~= self.addresses@);
        }
        StoreData { version: self.version, addresses }
    }

    fn find(&self, address: &Endpoint) -> (r: Option<usize>)
        ensures
            match r {
                Some(i) => i < self.addresses@.len() && self.addresses@[i as int] == *address,
                None => !self.addresses@.contains(*address),
            },
    {
        let mut i: usize = 0;
        while i < self.addresses.len()
            invariant
                i <= self.addresses@.len(),
                forall|j: int| 0 <= j < i ==> self.addresses@[j] != *address,
            decreases self.addresses@.len() - i,
        {
            if self.addresses[i] == *address {
                return Some(i);
            }
            i = i + 1;
        }
        None
    }

    fn apply(&mut self, command: StorageCommand)
        requires
            old(self).wf(),
        ensures
            final(self).wf(),
            final(self).view() == spec_apply(old(self).view(), command),
    {
        match command {
            StorageCommand::SetVersion(version) => {
                self.version = Some(version);
            },
            StorageCommand::AddAddress(address) => {
                let ghost before = self.addresses@;
                if self.find(&address).is_none() {
                    self.addresses.push(address);
                    proof {
                        assert forall|e: Endpoint| self.addresses@.contains(e) <==> (
                        before.contains(e) || e == address) by {
                            if before.contains(e) {
                                let j = choose|j: int| 0 <= j < before.len() && before[j] == e;
                                assert(self.addresses@[j] == e);
                            }
                            if e == address {
                                assert(self.addresses@[before.len() as int] == e);
                            }
                        }
                    }
                }
                assert(self.addresses@.to_set() =~= before.to_set().insert(address));
            },
            StorageCommand::DelAddress(address) => {
                let ghost before = self.addresses@;
                match self.find(&address) {
                    Some(i) => {
                        self.addresses.remove(i);
                        proof {
                            let after = self.addresses@;
                            assert(after =~= before.remove(i as int));
                            assert forall|e: Endpoint| after.contains(e) <==> (before.contains(e)
                                && e != address) by {
                                if after.contains(e) {
                                    let j = choose|j: int| 0 <= j < after.len() && after[j] == e;
                                    if j < i {
                                        assert(before[j] == e);
                                    } else {
                                        assert(before[j + 1] == e);
                                    }
                                }
                                if before.contains(e) && e != address {
                                    let j = choose|j: int| 0 <= j < before.len() && before[j] == e;
                                    if j < i {
                                        assert(after[j] == e);
                                    } else {
                                        assert(after[j - 1] == e);
                                    }
                                }
                            }
                            assert forall|a: int, b: int|
                                0 <= a < after.len() && 0 <= b < after.len() && a != b implies after[a]
                                != after[b] by {
                                let a2 = if a < i { a } else { a + 1 };
                                let b2 = if b < i { b } else { b + 1 };
                                assert(before[a2] != before[b2]);
                            }
                        }
                    },
                    None => {},
                }
                assert(self.addresses@.to_set() =~= before.to_set().remove(address));
            },
        }
    }
}

/// A read-only transaction: the store as it was when the transaction was
/// opened.
pub struct DnsServerStoreTxRo {
    data: StoreData,
}

/// A read-write transaction: the store as it was when the transaction was
/// opened, with the writes made since.
pub struct DnsServerStoreTxRw {
    data: StoreData,
}

/// The store.
pub struct DnsServerStorageImpl {
    data: StoreData,
}

impl View for DnsServerStoreTxRo {
    type V = StoreView;

    closed spec fn view(&self) -> StoreView {
        self.data.view()
    }
}

impl View for DnsServerStoreTxRw {
    type V = StoreView;

    closed spec fn view(&self) -> StoreView {
        self.data.view()
    }
}

impl View for DnsServerStorageImpl {
    type V = StoreView;

    closed spec fn view(&self) -> StoreView {
        self.data.view()
    }
}

impl DnsServerStoreTxRo {
    /// The invariant of the representation.
    pub closed spec fn wf(&self) -> bool {
        self.data.wf()
    }

    /// The version of the layout, if one was written.
    pub fn get_version(&self) -> (r: Option<u32>)
        ensures
            r == self@.version,
    {
        self.data.version
    }

    /// Every stored endpoint, once.
    pub fn get_addresses(&self) -> (r: Vec<Endpoint>)
        requires
            self.wf(),
        ensures
            r@.no_duplicates(),
            r@.to_set() == self@.addresses,
    {
        self.data.copy().addresses
    }

    /// Ends the transaction.
    pub fn close(self) {
    }
}

impl DnsServerStoreTxRw {
    /// The invariant of the representation.
    pub closed spec fn wf(&self) -> bool {
        self.data.wf()
    }

    /// Writes the version of the layout.
    pub fn set_version(&mut self, version: u32)
        requires
            old(self).wf(),
        ensures
            final(self).wf(),
            final(self)@ == spec_apply(old(self)@, StorageCommand::SetVersion(version)),
    {
        self.data.apply(StorageCommand::SetVersion(version));
    }

    /// Stores `address`; storing it again changes nothing.
    pub fn add_address(&mut self, address: &Endpoint)
        requires
            old(self).wf(),
        ensures
            final(self).wf(),
            final(self)@ == spec_apply(old(self)@, StorageCommand::AddAddress(*address)),
    {
        self.data.apply(StorageCommand::AddAddress(*address));
    }

    /// Deletes `address`; deleting an endpoint that is not stored changes
    /// nothing.
    pub fn del_address(&mut self, address: &Endpoint)
        requires
            old(self).wf(),
        ensures
            final(self).wf(),
            final(self)@ == spec_apply(old(self)@, StorageCommand::DelAddress(*address)),
    {
        self.data.apply(StorageCommand::DelAddress(*address));
    }

    /// Ends the transaction and discards its writes.
    pub fn abort(self) {
    }
}

impl DnsServerStorageImpl {
    /// The invariant of the representation.
    pub closed spec fn wf(&self) -> bool {
        self.data.wf()
    }

    /// A store that holds no version and no endpoint.
    pub fn new() -> (r: Self)
        ensures
            r.wf(),
            r@ == (StoreView { version: None, addresses: Set::<Endpoint>::empty() }),
    {
        DnsServerStorageImpl { data: StoreData::empty() }
    }

    /// Opens a read-only transaction.
    pub fn transaction_ro(&self) -> (tx: DnsServerStoreTxRo)
        requires
            self.wf(),
        ensures
            tx.wf(),
            tx@ == self@,
    {
        DnsServerStoreTxRo { data: self.data.copy() }
    }

    /// Opens a read-write transaction.
    pub fn transaction_rw(&self) -> (tx: DnsServerStoreTxRw)
        requires
            self.wf(),
        ensures
            tx.wf(),
            tx@ == self@,
    {
        DnsServerStoreTxRw { data: self.data.copy() }
    }

    /// Ends the transaction `tx` and makes its writes the content of the
    /// store, all at once.
    pub fn commit(&mut self, tx: DnsServerStoreTxRw)
        requires
            tx.wf(),
        ensures
            final(self).wf(),
            final(self)@ == tx@,
    {
        self.data = tx.data;
    }

    /// Writes `command` in a transaction of its own and commits it.
    pub fn update_db(&mut self, command: StorageCommand)
        requires
            old(self).wf(),
        ensures
            final(self).wf(),
            final(self)@ == spec_apply(old(self)@, command),
    {
        let mut tx = self.transaction_rw();
        match command {
            StorageCommand::SetVersion(version) => tx.set_version(version),
            StorageCommand::AddAddress(address) => tx.add_address(&address),
            StorageCommand::DelAddress(address) => tx.del_address(&address),
        }
        self.commit(tx);
    }
}

} // verus!
