//! The address table: every known endpoint with its state.
//!
//! The table is a vector of entries in which no endpoint occurs twice; its
//! view is the map from endpoint to state.

use crate::address::Endpoint;
use crate::sampling::choose_multiple;
use crate::state::{
    change_address_state, connect_now, retain_address, AddressData, AddressState, Retention,
    StateChange, MAX_CONNECTS_PER_HEARTBEAT,
};
use vstd::prelude::*;

verus! {

/// One known endpoint and its state.
#[derive(Clone, Copy, Debug, PartialEq, Eq, Structural)]
pub struct AddressEntry {
    pub address: Endpoint,
    pub data: AddressData,
}

/// Map of all known addresses (including currently unreachable).
pub struct AddressTable {
    entries: Vec<AddressEntry>,
}

spec fn keys_unique(s: Seq<AddressEntry>) -> bool {
    forall|i: int, j: int| 0 <= i < j < s.len() ==> s[i].address != s[j].address
}

spec fn key_at(s: Seq<AddressEntry>, i: int, e: Endpoint) -> bool {
    0 <= i < s.len() && s[i].address == e
}

spec fn has_key(s: Seq<AddressEntry>, e: Endpoint) -> bool {
    exists|i: int| key_at(s, i, e)
}

spec fn index_of(s: Seq<AddressEntry>, e: Endpoint) -> int {
    choose|i: int| key_at(s, i, e)
}

spec fn table_view(s: Seq<AddressEntry>) -> Map<Endpoint, AddressData> {
    Map::new(|e: Endpoint| has_key(s, e), |e: Endpoint| s[index_of(s, e)].data)
}

spec fn addresses_of(s: Seq<AddressEntry>) -> Seq<Endpoint> {
    s.map(|i: int, x: AddressEntry| x.address)
}

proof fn lemma_lookup(s: Seq<AddressEntry>, i: int)
    requires
        keys_unique(s),
        0 <= i < s.len(),
    ensures
        has_key(s, s[i].address),
        index_of(s, s[i].address) == i,
        table_view(s).contains_key(s[i].address),
        table_view(s)[s[i].address] == s[i].data,
{
    assert(key_at(s, i, s[i].address));
    let j = index_of(s, s[i].address);
    assert(key_at(s, j, s[i].address));
    if j < i {
        assert(s[j].address != s[i].address);
    } else if i < j {
        assert(s[i].address != s[j].address);
    }
}

proof fn lemma_update(s: Seq<AddressEntry>, i: int, data: AddressData)
    requires
        keys_unique(s),
        0 <= i < s.len(),
    ensures
        keys_unique(s.update(i, AddressEntry { address: s[i].address, data })),
        table_view(s.update(i, AddressEntry { address: s[i].address, data })) == table_view(
            s,
        ).insert(s[i].address, data),
{
    let t = s.update(i, AddressEntry { address: s[i].address, data });
    assert(keys_unique(t)) by {
        assert forall|a: int, b: int| 0 <= a < b < t.len() implies t[a].address
            != t[b].address by {
            assert(s[a].address != s[b].address);
        }
    }
    let m = table_view(s).insert(s[i].address, data);
    assert forall|e: Endpoint| table_view(t).contains_key(e) <==> m.contains_key(e) by {
        if has_key(t, e) {
            let j = index_of(t, e);
            assert(key_at(t, j, e));
            assert(key_at(s, j, e));
        }
        if has_key(s, e) {
            let j = index_of(s, e);
            assert(key_at(s, j, e));
            assert(key_at(t, j, e));
        }
        if e == s[i].address {
            assert(key_at(t, i, e));
        }
    }
    assert forall|e: Endpoint| table_view(t).contains_key(e) implies table_view(t)[e]
        == m[e] by {
        let j = index_of(t, e);
        assert(key_at(t, j, e));
        lemma_lookup(t, j);
        lemma_lookup(s, j);
    }
    assert(table_view(t) =~= m);
}

proof fn lemma_push(s: Seq<AddressEntry>, entry: AddressEntry)
    requires
        keys_unique(s),
        !has_key(s, entry.address),
    ensures
        keys_unique(s.push(entry)),
        table_view(s.push(entry)) == table_view(s).insert(entry.address, entry.data),
{
    let t = s.push(entry);
    assert(keys_unique(t)) by {
        assert forall|a: int, b: int| 0 <= a < b < t.len() implies t[a].address
            != t[b].address by {
            if b == s.len() {
                assert(key_at(s, a, s[a].address));
            } else {
                assert(s[a].address != s[b].address);
            }
        }
    }
    let m = table_view(s).insert(entry.address, entry.data);
    assert forall|e: Endpoint| table_view(t).contains_key(e) <==> m.contains_key(e) by {
        if has_key(t, e) {
            let j = index_of(t, e);
            assert(key_at(t, j, e));
            if j < s.len() {
                assert(key_at(s, j, e));
            }
        }
        if has_key(s, e) {
            let j = index_of(s, e);
            assert(key_at(s, j, e));
            assert(key_at(t, j, e));
        }
        if e == entry.address {
            assert(key_at(t, s.len() as int, e));
        }
    }
    assert forall|e: Endpoint| table_view(t).contains_key(e) implies table_view(t)[e]
        == m[e] by {
        let j = index_of(t, e);
        assert(key_at(t, j, e));
        lemma_lookup(t, j);
        if j < s.len() {
            lemma_lookup(s, j);
        }
    }
    assert(table_view(t) =~= m);
}

proof fn lemma_domain(s: Seq<AddressEntry>)
    requires
        keys_unique(s),
    ensures
        table_view(s).dom() == addresses_of(s).to_set(),
        table_view(s).dom().finite(),
        addresses_of(s).no_duplicates(),
        table_view(s).dom().len() == s.len(),
{
    let a = addresses_of(s);
    assert forall|e: Endpoint| table_view(s).dom().contains(e) <==> a.to_set().contains(e) by {
        if has_key(s, e) {
            let j = index_of(s, e);
            assert(key_at(s, j, e));
            assert(a[j] == e);
        }
        if a.contains(e) {
            let j = choose|j: int| 0 <= j < a.len() && a[j] == e;
            assert(key_at(s, j, e));
        }
    }
    assert(table_view(s).dom() =~= a.to_set());
    assert(a.no_duplicates()) by {
        assert forall|i: int, j: int| 0 <= i < a.len() && 0 <= j < a.len() && i != j implies a[i]
            != a[j] by {
            if i < j {
                assert(s[i].address != s[j].address);
            } else {
                assert(s[j].address != s[i].address);
            }
        }
    }
    a.unique_seq_to_set();
    vstd::seq_lib::seq_to_set_is_finite(a);
}

/// The endpoints of `m` that are due for a connection attempt at `now`.
pub open spec fn candidates(m: Map<Endpoint, AddressData>, now: u64) -> Set<Endpoint> {
    Set::new(|e: Endpoint| m.contains_key(e) && m[e].spec_connect_now(now))
}

/// How many endpoints one heartbeat dials: all that are due, but at most
/// `MAX_CONNECTS_PER_HEARTBEAT`.
pub open spec fn dial_count(m: Map<Endpoint, AddressData>, now: u64) -> nat {
    if candidates(m, now).len() <= MAX_CONNECTS_PER_HEARTBEAT {
        candidates(m, now).len()
    } else {
        MAX_CONNECTS_PER_HEARTBEAT as nat
    }
}

/// Whether `dialled` is a choice that one heartbeat may make among the
/// endpoints of `m`: distinct endpoints that are due, as many as
/// `dial_count` says.
pub open spec fn valid_dial(m: Map<Endpoint, AddressData>, dialled: Seq<Endpoint>, now: u64) -> bool {
    &&& dialled.no_duplicates()
    &&& forall|i: int| 0 <= i < dialled.len() ==> candidates(m, now).contains(#[trigger] dialled[i])
    &&& dialled.len() == dial_count(m, now)
}

/// The table after the endpoints in `dialled` have moved into `Connecting`.
pub open spec fn spec_dial(
    m: Map<Endpoint, AddressData>,
    dialled: Seq<Endpoint>,
    now: u64,
) -> Map<Endpoint, AddressData> {
    Map::new(
        |e: Endpoint| m.contains_key(e),
        |e: Endpoint|
            if dialled.contains(e) {
                m[e].spec_change_state(AddressState::Connecting, now)
            } else {
                m[e]
            },
    )
}

/// The table after retention at `now`: the entries that the retention rule
/// keeps, unchanged.
pub open spec fn spec_retain(m: Map<Endpoint, AddressData>, now: u64) -> Map<Endpoint, AddressData> {
    Map::new(
        |e: Endpoint| m.contains_key(e) && m[e].spec_retention(now) == Retention::Keep,
        |e: Endpoint| m[e],
    )
}

/// The endpoints that retention at `now` removes from the table and from
/// the persistent store.
pub open spec fn spec_purged(m: Map<Endpoint, AddressData>, now: u64) -> Set<Endpoint> {
    Set::new(|e: Endpoint| m.contains_key(e) && m[e].spec_retention(now) == Retention::Purge)
}

spec fn increasing(idx: Seq<int>, bound: int) -> bool {
    &&& forall|k: int| 0 <= k < idx.len() ==> 0 <= #[trigger] idx[k] < bound
    &&& forall|a: int, b: int| 0 <= a < b < idx.len() ==> idx[a] < idx[b]
}

spec fn picked(chosen: Seq<usize>, k: int, j: int) -> bool {
    exists|t: int| 0 <= t < k && #[trigger] chosen[t] == j
}

impl View for AddressTable {
    type V = Map<Endpoint, AddressData>;

    closed spec fn view(&self) -> Map<Endpoint, AddressData> {
        table_view(self.entries@)
    }
}

impl AddressTable {
    /// No endpoint occurs twice in the table.
    pub closed spec fn wf(&self) -> bool {
        keys_unique(self.entries@)
    }

    /// The empty table.
    pub fn new() -> (r: Self)
        ensures
            r.wf(),
            r@ == Map::<Endpoint, AddressData>::empty(),
    {
        let r = AddressTable { entries: Vec::new() };
        assert(r@ =~= Map::<Endpoint, AddressData>::empty()) by {
            assert forall|e: Endpoint| !has_key(r.entries@, e) by {
                if has_key(r.entries@, e) {
                    assert(key_at(r.entries@, index_of(r.entries@, e), e));
                }
            }
        }
        r
    }

    /// The number of known endpoints.
    pub fn len(&self) -> (n: usize)
        requires
            self.wf(),
        ensures
            self@.dom().finite(),
            n == self@.len(),
    {
        proof {
            lemma_domain(self.entries@);
        }
        self.entries.len()
    }

    fn find(&self, address: &Endpoint) -> (r: Option<usize>)
        requires
            self.wf(),
        ensures
            match r {
                Some(i) => i < self.entries@.len() && self.entries@[i as int].address == *address
                    && self@.contains_key(*address) && self@[*address]
                    == self.entries@[i as int].data,
                None => !self@.contains_key(*address),
            },
    {
        let mut i: usize = 0;
        while i < self.entries.len()
            invariant
                self.wf(),
                i <= self.entries@.len(),
                forall|j: int| 0 <= j < i ==> self.entries@[j].address != *address,
            decreases self.entries@.len() - i,
        {
            if self.entries[i].address == *address {
                proof {
                    lemma_lookup(self.entries@, i as int);
                }
                return Some(i);
            }
            i = i + 1;
        }
        proof {
            if has_key(self.entries@, *address) {
                assert(key_at(self.entries@, index_of(self.entries@, *address), *address));
            }
        }
        None
    }

    /// The state of `address`, if it is known.
    pub fn get(&self, address: &Endpoint) -> (r: Option<AddressData>)
        requires
            self.wf(),
        ensures
            r == (if self@.contains_key(*address) {
                Some(self@[*address])
            } else {
                None
            }),
    {
        match self.find(address) {
            Some(i) => Some(self.entries[i].data),
            None => None,
        }
    }

    /// Adds `address` with `data` unless it is known already; a known
    /// address is left untouched.
    pub fn new_address(&mut self, address: Endpoint, data: AddressData)
        requires
            old(self).wf(),
        ensures
            final(self).wf(),
            final(self)@ == (if old(self)@.contains_key(address) {
                old(self)@
            } else {
                old(self)@.insert(address, data)
            }),
    {
        if self.find(&address).is_none() {
            proof {
                lemma_push(self.entries@, AddressEntry { address, data });
            }
            self.entries.push(AddressEntry { address, data });
        }
    }

    /// Sets the state of `address` to `data`, whether it was known or not.
    pub fn insert(&mut self, address: Endpoint, data: AddressData)
        requires
            old(self).wf(),
        ensures
            final(self).wf(),
            final(self)@ == old(self)@.insert(address, data),
    {
        match self.find(&address) {
            Some(i) => {
                proof {
                    lemma_update(self.entries@, i as int, data);
                }
                self.entries[i] = AddressEntry { address, data };
            },
            None => {
                proof {
                    lemma_push(self.entries@, AddressEntry { address, data });
                }
                self.entries.push(AddressEntry { address, data });
            },
        }
    }

    /// Moves a known address into `new_state` and returns the commands that
    /// go with the transition.
    pub fn change_state(
        &mut self,
        p2p_port: u16,
        address: &Endpoint,
        new_state: AddressState,
        now: u64,
    ) -> (change: StateChange)
        requires
            old(self).wf(),
            old(self)@.contains_key(*address),
            old(self)@[*address].can_change_to(new_state),
        ensures
            final(self).wf(),
            final(self)@ == old(self)@.insert(
                *address,
                old(self)@[*address].spec_change_state(new_state, now),
            ),
            change.dns == old(self)@[*address].spec_dns_command(*address, p2p_port, new_state),
            change.storage == old(self)@[*address].spec_storage_command(*address, new_state),
    {
        let found = self.find(address);
        let i = found.unwrap();
        let mut data = self.entries[i].data;
        let change = change_address_state(p2p_port, address, &mut data, new_state, now);
        proof {
            lemma_update(self.entries@, i as int, data);
        }
        self.entries[i] = AddressEntry { address: *address, data };
        change
    }
    /// Collects the positions of the entries that are due for a connection
    /// attempt at `now`.
    fn due_positions(&self, now: u64) -> (cands: Vec<usize>)
        requires
            self.wf(),
        ensures
            self@.dom().finite(),
            candidates(self@, now).finite(),
            cands@.len() == candidates(self@, now).len(),
            forall|k: int|
                0 <= k < cands@.len() ==> #[trigger] cands@[k] < self.entries@.len()
                    && self.entries@[cands@[k] as int].data.spec_connect_now(now),
            forall|a: int, b: int| 0 <= a < b < cands@.len() ==> cands@[a] < cands@[b],
    {
        let mut cands: Vec<usize> = Vec::new();
        let mut i: usize = 0;
        while i < self.entries.len()
            invariant
                self.wf(),
                i <= self.entries@.len(),
                forall|k: int|
                    0 <= k < cands@.len() ==> #[trigger] cands@[k] < i
                        && self.entries@[cands@[k] as int].data.spec_connect_now(now),
                forall|a: int, b: int| 0 <= a < b < cands@.len() ==> cands@[a] < cands@[b],
                forall|j: int|
                    0 <= j < i && (#[trigger] self.entries@[j]).data.spec_connect_now(now)
                        ==> cands@.contains(j as usize),
            decreases self.entries@.len() - i,
        {
            if connect_now(now, &self.entries[i].data) {
                let ghost before = cands@;
                cands.push(i);
                proof {
                    assert forall|j: int|
                        0 <= j < i + 1 && (#[trigger] self.entries@[j]).data.spec_connect_now(
                            now,
                        ) implies cands@.contains(j as usize) by {
                        if j < i {
                            let k = choose|k: int| 0 <= k < before.len() && before[k] == j as usize;
                            assert(cands@[k] == j as usize);
                        } else {
                            assert(cands@[before.len() as int] == j as usize);
                        }
                    }
                }
            }
            i = i + 1;
        }
        proof {
            let s = self.entries@;
            lemma_domain(s);
            let a = Seq::new(cands@.len(), |k: int| s[cands@[k] as int].address);
            assert(a.no_duplicates()) by {
                assert forall|x: int, y: int|
                    0 <= x < a.len() && 0 <= y < a.len() && x != y implies a[x] != a[y] by {
                    if x < y {
                        assert(cands@[x] < cands@[y]);
                    } else {
                        assert(cands@[y] < cands@[x]);
                    }
                }
            }
            assert forall|e: Endpoint| a.to_set().contains(e) <==> candidates(
                self@,
                now,
            ).contains(e) by {
                if a.contains(e) {
                    let k = choose|k: int| 0 <= k < a.len() && a[k] == e;
                    lemma_lookup(s, cands@[k] as int);
                }
                if candidates(self@, now).contains(e) {
                    let j = index_of(s, e);
                    assert(key_at(s, j, e));
                    lemma_lookup(s, j);
                    assert(s[j].data.spec_connect_now(now));
                    let k = choose|k: int| 0 <= k < cands@.len() && cands@[k] == j as usize;
                    assert(a[k] == e);
                }
            }
            assert(a.to_set() =~= candidates(self@, now));
            a.unique_seq_to_set();
            vstd::seq_lib::seq_to_set_is_finite(a);
        }
        cands
    }

    /// Dial selection: among the endpoints that are due at `now`, chooses at
    /// random as many as one heartbeat may dial, moves each into
    /// `Connecting`, and returns them.
    pub fn dial(&mut self, p2p_port: u16, now: u64) -> (dialled: Vec<Endpoint>)
        requires
            old(self).wf(),
        ensures
            final(self).wf(),
            valid_dial(old(self)@, dialled@, now),
            final(self)@ == spec_dial(old(self)@, dialled@, now),
    {
        let cands = self.due_positions(now);
        let ghost due = cands@;
        proof {
            assert(due.no_duplicates()) by {
                assert forall|x: int, y: int|
                    0 <= x < due.len() && 0 <= y < due.len() && x != y implies due[x] != due[y] by {
                    if x < y {
                        assert(due[x] < due[y]);
                    } else {
                        assert(due[y] < due[x]);
                    }
                }
            }
        }
        let chosen = choose_multiple(cands, MAX_CONNECTS_PER_HEARTBEAT);
        proof {
            assert forall|t: int| 0 <= t < chosen@.len() implies (#[trigger] chosen@[t])
                < self.entries@.len() && self.entries@[chosen@[t] as int].data.spec_connect_now(
                now,
            ) by {
                assert(due.contains(chosen@[t]));
                let c = choose|c: int| 0 <= c < due.len() && due[c] == chosen@[t];
                assert(due[c] < self.entries@.len());
            }
        }
        let ghost s0 = self.entries@;
        let mut dialled: Vec<Endpoint> = Vec::new();
        let mut k: usize = 0;
        while k < chosen.len()
            invariant
                keys_unique(s0),
                k <= chosen@.len(),
                chosen@.no_duplicates(),
                forall|t: int|
                    0 <= t < chosen@.len() ==> (#[trigger] chosen@[t]) < s0.len()
                        && s0[chosen@[t] as int].data.spec_connect_now(now),
                self.entries@.len() == s0.len(),
                dialled@.len() == k,
                forall|t: int| 0 <= t < k ==> #[trigger] dialled@[t] == s0[chosen@[t] as int].address,
                forall|j: int|
                    0 <= j < s0.len() ==> (#[trigger] self.entries@[j]).address == s0[j].address,
                forall|j: int|
                    0 <= j < s0.len() ==> (#[trigger] self.entries@[j]).data == (if picked(
                        chosen@,
                        k as int,
                        j,
                    ) {
                        s0[j].data.spec_change_state(AddressState::Connecting, now)
                    } else {
                        s0[j].data
                    }),
            decreases chosen@.len() - k,
        {
            let idx = chosen[k];
            let address = self.entries[idx].address;
            let mut data = self.entries[idx].data;
            proof {
                if picked(chosen@, k as int, idx as int) {
                    let t = choose|t: int| 0 <= t < k && #[trigger] chosen@[t] == idx;
                    assert(chosen@[t] == chosen@[k as int]);
                }
            }
            let _ = change_address_state(
                p2p_port,
                &address,
                &mut data,
                AddressState::Connecting,
                now,
            );
            let ghost before = self.entries@;
            self.entries[idx] = AddressEntry { address, data };
            dialled.push(address);
            proof {
                assert forall|j: int| 0 <= j < s0.len() implies (#[trigger] self.entries@[j]).data
                    == (if picked(chosen@, k + 1, j) {
                    s0[j].data.spec_change_state(AddressState::Connecting, now)
                } else {
                    s0[j].data
                }) by {
                    if j == idx {
                        assert(chosen@[k as int] == idx);
                    } else {
                        assert(self.entries@[j] == before[j]);
                        if picked(chosen@, k as int, j) {
                            let t = choose|t: int| 0 <= t < k && #[trigger] chosen@[t] == j;
                            assert(chosen@[t] == j);
                        }
                        if picked(chosen@, k + 1, j) {
                            let t = choose|t: int| 0 <= t < k + 1 && #[trigger] chosen@[t] == j;
                            assert(t < k);
                            assert(chosen@[t] == j);
                        }
                    }
                }
            }
            k = k + 1;
        }
        proof {
            let s1 = self.entries@;
            assert(keys_unique(s1)) by {
                assert forall|a: int, b: int| 0 <= a < b < s1.len() implies s1[a].address
                    != s1[b].address by {
                    assert(s0[a].address != s0[b].address);
                }
            }
            lemma_domain(s0);
            // the chosen endpoints are distinct and due
            assert forall|x: int, y: int|
                0 <= x < dialled@.len() && 0 <= y < dialled@.len() && x != y implies dialled@[x]
                != dialled@[y] by {
                let cx = chosen@[x] as int;
                let cy = chosen@[y] as int;
                assert(cx != cy);
                if cx < cy {
                    assert(s0[cx].address != s0[cy].address);
                } else {
                    assert(s0[cy].address != s0[cx].address);
                }
            }
            assert forall|i: int| 0 <= i < dialled@.len() implies candidates(
                old(self)@,
                now,
            ).contains(#[trigger] dialled@[i]) by {
                lemma_lookup(s0, chosen@[i] as int);
            }
            let m = spec_dial(old(self)@, dialled@, now);
            assert forall|e: Endpoint| table_view(s1).contains_key(e) <==> m.contains_key(e) by {
                if has_key(s1, e) {
                    let j = index_of(s1, e);
                    assert(key_at(s1, j, e));
                    assert(key_at(s0, j, e));
                }
                if has_key(s0, e) {
                    let j = index_of(s0, e);
                    assert(key_at(s0, j, e));
                    assert(key_at(s1, j, e));
                }
            }
            assert forall|e: Endpoint| table_view(s1).contains_key(e) implies table_view(s1)[e]
                == m[e] by {
                let j = index_of(s1, e);
                assert(key_at(s1, j, e));
                lemma_lookup(s1, j);
                lemma_lookup(s0, j);
                if picked(chosen@, chosen@.len() as int, j) {
                    let t = choose|t: int| 0 <= t < chosen@.len() && #[trigger] chosen@[t] == j;
                    assert(dialled@[t] == e);
                }
                if dialled@.contains(e) {
                    let t = choose|t: int| 0 <= t < dialled@.len() && dialled@[t] == e;
                    let c = chosen@[t] as int;
                    lemma_lookup(s0, c);
                    assert(c == j);
                    assert(chosen@[t] == j);
                }
            }
            assert(table_view(s1) =~= m);
        }
        dialled
    }

    /// Retention: drops the entries that the retention rule does not keep at
    /// `now`, and returns those among them that are to leave the persistent
    /// store too.
    pub fn retain(&mut self, now: u64) -> (purged: Vec<Endpoint>)
        requires
            old(self).wf(),
        ensures
            final(self).wf(),
            final(self)@ == spec_retain(old(self)@, now),
            purged@.no_duplicates(),
            purged@.to_set() == spec_purged(old(self)@, now),
    {
        let mut kept: Vec<AddressEntry> = Vec::new();
        let mut purged: Vec<Endpoint> = Vec::new();
        let ghost mut kept_at: Seq<int> = Seq::empty();
        let ghost mut purged_at: Seq<int> = Seq::empty();
        let mut i: usize = 0;
        while i < self.entries.len()
            invariant
                self.wf(),
                i <= self.entries@.len(),
                kept_at.len() == kept@.len(),
                purged_at.len() == purged@.len(),
                increasing(kept_at, i as int),
                increasing(purged_at, i as int),
                forall|k: int| 0 <= k < kept@.len() ==> #[trigger] kept@[k] == self.entries@[kept_at[k]],
                forall|k: int|
                    0 <= k < purged@.len() ==> #[trigger] purged@[k]
                        == self.entries@[purged_at[k]].address,
                forall|k: int|
                    0 <= k < kept_at.len() ==> self.entries@[#[trigger] kept_at[k]].data.spec_retention(
                        now,
                    ) == Retention::Keep,
                forall|k: int|
                    0 <= k < purged_at.len() ==> self.entries@[#[trigger] purged_at[k]].data.spec_retention(
                        now,
                    ) == Retention::Purge,
                forall|j: int|
                    0 <= j < i && (#[trigger] self.entries@[j]).data.spec_retention(now)
                        == Retention::Keep ==> kept_at.contains(j),
                forall|j: int|
                    0 <= j < i && (#[trigger] self.entries@[j]).data.spec_retention(now)
                        == Retention::Purge ==> purged_at.contains(j),
            decreases self.entries@.len() - i,
        {
            let entry = self.entries[i];
            let ghost kept_before = kept_at;
            let ghost purged_before = purged_at;
            match retain_address(now, &entry.data) {
                Retention::Keep => {
                    kept.push(entry);
                    proof {
                        kept_at = kept_at.push(i as int);
                    }
                },
                Retention::Purge => {
                    purged.push(entry.address);
                    proof {
                        purged_at = purged_at.push(i as int);
                    }
                },
                Retention::Forget => {},
            }
            proof {
                assert forall|j: int|
                    0 <= j < i + 1 && (#[trigger] self.entries@[j]).data.spec_retention(now)
                        == Retention::Keep implies kept_at.contains(j) by {
                    if j < i {
                        let k = choose|k: int| 0 <= k < kept_before.len() && kept_before[k] == j;
                        assert(kept_at[k] == j);
                    } else {
                        assert(kept_at[kept_before.len() as int] == j);
                    }
                }
                assert forall|j: int|
                    0 <= j < i + 1 && (#[trigger] self.entries@[j]).data.spec_retention(now)
                        == Retention::Purge implies purged_at.contains(j) by {
                    if j < i {
                        let k = choose|k: int|
                            0 <= k < purged_before.len() && purged_before[k] == j;
                        assert(purged_at[k] == j);
                    } else {
                        assert(purged_at[purged_before.len() as int] == j);
                    }
                }
            }
            i = i + 1;
        }
        proof {
            let s = self.entries@;
            let t = kept@;
            assert(keys_unique(t)) by {
                assert forall|a: int, b: int| 0 <= a < b < t.len() implies t[a].address
                    != t[b].address by {
                    assert(kept_at[a] < kept_at[b]);
                    assert(s[kept_at[a]].address != s[kept_at[b]].address);
                }
            }
            let m = spec_retain(self@, now);
            assert forall|e: Endpoint| table_view(t).contains_key(e) <==> m.contains_key(e) by {
                if has_key(t, e) {
                    let k = index_of(t, e);
                    assert(key_at(t, k, e));
                    lemma_lookup(s, kept_at[k]);
                }
                if m.contains_key(e) {
                    let j = index_of(s, e);
                    assert(key_at(s, j, e));
                    lemma_lookup(s, j);
                    let k = choose|k: int| 0 <= k < kept_at.len() && kept_at[k] == j;
                    assert(key_at(t, k, e));
                }
            }
            assert forall|e: Endpoint| table_view(t).contains_key(e) implies table_view(t)[e]
                == m[e] by {
                let k = index_of(t, e);
                assert(key_at(t, k, e));
                lemma_lookup(t, k);
                lemma_lookup(s, kept_at[k]);
            }
            assert(table_view(t) =~= m);
            assert forall|x: int, y: int|
                0 <= x < purged@.len() && 0 <= y < purged@.len() && x != y implies purged@[x]
                != purged@[y] by {
                if x < y {
                    assert(purged_at[x] < purged_at[y]);
                    assert(s[purged_at[x]].address != s[purged_at[y]].address);
                } else {
                    assert(purged_at[y] < purged_at[x]);
                    assert(s[purged_at[y]].address != s[purged_at[x]].address);
                }
            }
            assert forall|e: Endpoint| purged@.to_set().contains(e) <==> spec_purged(
                self@,
                now,
            ).contains(e) by {
                if purged@.contains(e) {
                    let k = choose|k: int| 0 <= k < purged@.len() && purged@[k] == e;
                    lemma_lookup(s, purged_at[k]);
                }
                if spec_purged(self@, now).contains(e) {
                    let j = index_of(s, e);
                    assert(key_at(s, j, e));
                    lemma_lookup(s, j);
                    let k = choose|k: int| 0 <= k < purged_at.len() && purged_at[k] == j;
                    assert(purged@[k] == e);
                }
            }
            assert(purged@.to_set() =~= spec_purged(self@, now));
        }
        self.entries = kept;
        purged
    }
}

} // verus!
