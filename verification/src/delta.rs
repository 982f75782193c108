//! Deltas of keyed data: a change to a value, the change that undoes it,
//! and how two changes to the same key combine into one.

use std::collections::BTreeMap;
use vstd::laws_cmp::obeys_cmp;
use vstd::laws_eq::obeys_concrete_eq;
use vstd::prelude::*;
use vstd::std_specs::cmp::OrdSpec;

verus! {

broadcast use vstd::std_specs::btree::group_btree_axioms;

/// Why two deltas could not be combined.
#[derive(Clone, Copy, Debug, PartialEq, Eq, Structural)]
pub enum Error {
    DeltaDataCreatedMultipleTimes,
    DeltaDataDeletedMultipleTimes,
    DeltaDataModifyAfterDelete,
    DeltaOverUndoApplied,
}

/// A change to the value under one key.
#[derive(Clone, Debug, PartialEq, Eq)]
pub enum DataDelta<T> {
    /// Stores new value
    Create(T),
    /// Stores prev and new values
    Modify(T, T),
    /// Stores value to restore
    Delete(T),
}

/// The change that takes a delta back.
#[derive(Clone, Debug, PartialEq, Eq)]
pub struct DataDeltaUndo<T>(pub DataDelta<T>);

/// What a collection holds under a key: a delta, or the undoing of one.
#[derive(Clone, Debug, PartialEq, Eq)]
pub enum DeltaMapElement<T> {
    Delta(DataDelta<T>),
    DeltaUndo(DataDeltaUndo<T>),
}

/// The outcome of combining two deltas for a given key upon the map that
/// contains it.
pub enum DeltaMapOp<T> {
    /// Insert a specific value (for example, to write a Create or Modify operation)
    Insert(DeltaMapElement<T>),
    /// Erase the value at the relevant key spot (for example, a Create followed by Delete yields nothing)
    Erase,
}

/// What a collection knows of the value under a key.
pub enum GetDataResult<T> {
    Present(T),
    Deleted,
    Missing,
}

/// Whether `b` is `a`, each value either the same or a clone of it.
pub open spec fn delta_cloned<T: Clone>(a: DataDelta<T>, b: DataDelta<T>) -> bool {
    match (a, b) {
        (DataDelta::Create(x), DataDelta::Create(y)) => cloned(x, y),
        (DataDelta::Modify(x1, x2), DataDelta::Modify(y1, y2)) => cloned(x1, y1) && cloned(x2, y2),
        (DataDelta::Delete(x), DataDelta::Delete(y)) => cloned(x, y),
        _ => false,
    }
}

/// Whether `b` is `a`, each value either the same or a clone of it.
pub open spec fn element_cloned<T: Clone>(a: DeltaMapElement<T>, b: DeltaMapElement<T>) -> bool {
    match (a, b) {
        (DeltaMapElement::Delta(x), DeltaMapElement::Delta(y)) => delta_cloned(x, y),
        (DeltaMapElement::DeltaUndo(x), DeltaMapElement::DeltaUndo(y)) => delta_cloned(x.0, y.0),
        _ => false,
    }
}

/// The delta that has the opposite result of `delta`.
pub open spec fn spec_create_undo_delta<T>(delta: DataDelta<T>) -> DataDeltaUndo<T> {
    match delta {
        DataDelta::Create(d) => DataDeltaUndo(DataDelta::Delete(d)),
        DataDelta::Modify(prev, new) => DataDeltaUndo(DataDelta::Modify(new, prev)),
        DataDelta::Delete(d) => DataDeltaUndo(DataDelta::Create(d)),
    }
}

/// The one delta that does what `lhs` and then `rhs` do: `None` where they
/// cancel each other, an error where `rhs` cannot follow `lhs`.
pub open spec fn spec_combine_delta_data<T>(lhs: DataDelta<T>, rhs: DataDelta<T>) -> Result<
    Option<DataDelta<T>>,
    Error,
> {
    match (lhs, rhs) {
        (DataDelta::Create(_), DataDelta::Create(_)) => Err(Error::DeltaDataCreatedMultipleTimes),
        (DataDelta::Create(_), DataDelta::Modify(_, d)) => Ok(Some(DataDelta::Create(d))),
        (DataDelta::Create(_), DataDelta::Delete(_)) => Ok(None),
        (DataDelta::Modify(_, _), DataDelta::Create(_)) => Err(
            Error::DeltaDataCreatedMultipleTimes,
        ),
        (DataDelta::Modify(lhs1, lhs2), DataDelta::Modify(rhs1, rhs2)) => if lhs1 == rhs2 && lhs2
            == rhs1 {
            Ok(None)
        } else {
            Ok(Some(DataDelta::Modify(lhs1, rhs2)))
        },
        (DataDelta::Modify(d, _), DataDelta::Delete(_)) => Ok(Some(DataDelta::Delete(d))),
        (DataDelta::Delete(l), DataDelta::Create(r)) => if l == r {
            Ok(None)
        } else {
            Ok(Some(DataDelta::Modify(l, r)))
        },
        (DataDelta::Delete(_), DataDelta::Modify(_, _)) => Err(Error::DeltaDataModifyAfterDelete),
        (DataDelta::Delete(_), DataDelta::Delete(_)) => Err(Error::DeltaDataDeletedMultipleTimes),
    }
}

/// Whether `result` is `expected`, each value either the same or a clone.
pub open spec fn combined_as<T: Clone>(
    expected: Result<Option<DataDelta<T>>, Error>,
    result: Result<Option<DataDelta<T>>, Error>,
) -> bool {
    match (expected, result) {
        (Err(e1), Err(e2)) => e1 == e2,
        (Ok(None), Ok(None)) => true,
        (Ok(Some(a)), Ok(Some(b))) => delta_cloned(a, b),
        _ => false,
    }
}

impl<T> DeltaMapElement<T> {
    /// The delta inside the element.
    pub open spec fn spec_get_data_delta(self) -> DataDelta<T> {
        match self {
            DeltaMapElement::Delta(d) => d,
            DeltaMapElement::DeltaUndo(d) => d.0,
        }
    }

    pub fn get_data_delta(&self) -> (r: &DataDelta<T>)
        ensures
            *r == self.spec_get_data_delta(),
    {
        match self {
            DeltaMapElement::Delta(d) => d,
            DeltaMapElement::DeltaUndo(d) => &d.0,
        }
    }
}

/// Returns an undo delta that has the opposite result of the provided delta.
pub fn create_undo_delta<T: Clone>(delta: DataDelta<T>) -> (r: DataDeltaUndo<T>)
    ensures
        r == spec_create_undo_delta(delta),
{
    match delta {
        DataDelta::Create(d) => DataDeltaUndo(DataDelta::Delete(d)),
        DataDelta::Modify(prev, new) => DataDeltaUndo(DataDelta::Modify(new, prev)),
        DataDelta::Delete(d) => DataDeltaUndo(DataDelta::Create(d)),
    }
}

/// Given two deltas, combine them into one delta; this is the basic delta
/// data composability function.
pub fn combine_delta_data<T: Clone + PartialEq>(lhs: &DataDelta<T>, rhs: DataDelta<T>) -> (r: Result<
    Option<DataDelta<T>>,
    Error,
>)
    requires
        obeys_concrete_eq::<T>(),
    ensures
        combined_as(spec_combine_delta_data(*lhs, rhs), r),
{
    proof {
        reveal(obeys_concrete_eq);
    }
    match (lhs, rhs) {
        (DataDelta::Create(_), DataDelta::Create(_)) => Err(Error::DeltaDataCreatedMultipleTimes),
        (DataDelta::Create(_), DataDelta::Modify(_, d)) => Ok(Some(DataDelta::Create(d))),
        (DataDelta::Create(_), DataDelta::Delete(_)) => {
            // a creation followed by a deletion leaves nothing
            Ok(None)
        },
        (DataDelta::Modify(_, _), DataDelta::Create(_)) => {
            Err(Error::DeltaDataCreatedMultipleTimes)
        },
        (DataDelta::Modify(lhs1, lhs2), DataDelta::Modify(rhs1, rhs2)) => {
            if *lhs1 == rhs2 && *lhs2 == rhs1 {
                Ok(None)
            } else {
                Ok(Some(DataDelta::Modify(lhs1.clone(), rhs2)))
            }
        },
        (DataDelta::Modify(d, _), DataDelta::Delete(_)) => Ok(Some(DataDelta::Delete(d.clone()))),
        (DataDelta::Delete(lhs), DataDelta::Create(rhs)) => {
            if *lhs == rhs {
                Ok(None)
            } else {
                Ok(Some(DataDelta::Modify(lhs.clone(), rhs)))
            }
        },
        (DataDelta::Delete(_), DataDelta::Modify(_, _)) => Err(Error::DeltaDataModifyAfterDelete),
        (DataDelta::Delete(_), DataDelta::Delete(_)) => Err(Error::DeltaDataDeletedMultipleTimes),
    }
}

/// What becomes of the place where `lhs` stands when `rhs` is applied to
/// it: the combined element, or nothing where the two cancel each other. A
/// delta cannot be applied over the undoing of one.
pub open spec fn spec_combine_delta_elements<T>(
    lhs: DeltaMapElement<T>,
    rhs: DeltaMapElement<T>,
) -> Result<Option<DeltaMapElement<T>>, Error> {
    match (lhs, rhs) {
        (DeltaMapElement::Delta(d1), DeltaMapElement::Delta(d2)) => match spec_combine_delta_data(
            d1,
            d2,
        ) {
            Ok(Some(d)) => Ok(Some(DeltaMapElement::Delta(d))),
            Ok(None) => Ok(None),
            Err(e) => Err(e),
        },
        (DeltaMapElement::Delta(d), DeltaMapElement::DeltaUndo(u)) => match spec_combine_delta_data(
            d,
            u.0,
        ) {
            Ok(Some(d)) => Ok(Some(DeltaMapElement::Delta(d))),
            Ok(None) => Ok(None),
            Err(e) => Err(e),
        },
        (DeltaMapElement::DeltaUndo(_), DeltaMapElement::Delta(_)) => Err(
            Error::DeltaOverUndoApplied,
        ),
        (
            DeltaMapElement::DeltaUndo(u1),
            DeltaMapElement::DeltaUndo(u2),
        ) => match spec_combine_delta_data(u1.0, u2.0) {
            Ok(Some(d)) => Ok(Some(DeltaMapElement::DeltaUndo(DataDeltaUndo(d)))),
            Ok(None) => Ok(None),
            Err(e) => Err(e),
        },
    }
}

/// Whether the operation `result` writes what `expected` says, each value
/// either the same or a clone.
pub open spec fn op_as<T: Clone>(
    expected: Result<Option<DeltaMapElement<T>>, Error>,
    result: Result<DeltaMapOp<T>, Error>,
) -> bool {
    match (expected, result) {
        (Err(e1), Err(e2)) => e1 == e2,
        (Ok(None), Ok(DeltaMapOp::Erase)) => true,
        (Ok(Some(a)), Ok(DeltaMapOp::Insert(b))) => element_cloned(a, b),
        _ => false,
    }
}

/// Combines the element that a collection holds with one that is applied
/// to it.
pub fn combine_delta_elements<T: Clone + PartialEq>(
    lhs: &DeltaMapElement<T>,
    rhs: DeltaMapElement<T>,
) -> (r: Result<DeltaMapOp<T>, Error>)
    requires
        obeys_concrete_eq::<T>(),
    ensures
        op_as(spec_combine_delta_elements(*lhs, rhs), r),
{
    match (lhs, rhs) {
        (DeltaMapElement::Delta(d1), DeltaMapElement::Delta(d2)) => {
            match combine_delta_data(d1, d2) {
                Ok(Some(d)) => Ok(DeltaMapOp::Insert(DeltaMapElement::Delta(d))),
                Ok(None) => Ok(DeltaMapOp::Erase),
                Err(e) => Err(e),
            }
        },
        (DeltaMapElement::Delta(d), DeltaMapElement::DeltaUndo(u)) => {
            match combine_delta_data(d, u.0) {
                Ok(Some(d)) => Ok(DeltaMapOp::Insert(DeltaMapElement::Delta(d))),
                Ok(None) => Ok(DeltaMapOp::Erase),
                Err(e) => Err(e),
            }
        },
        (DeltaMapElement::DeltaUndo(_), DeltaMapElement::Delta(_)) => {
            Err(Error::DeltaOverUndoApplied)
        },
        (DeltaMapElement::DeltaUndo(u1), DeltaMapElement::DeltaUndo(u2)) => {
            match combine_delta_data(&u1.0, u2.0) {
                Ok(Some(d)) => Ok(DeltaMapOp::Insert(DeltaMapElement::DeltaUndo(DataDeltaUndo(d)))),
                Ok(None) => Ok(DeltaMapOp::Erase),
                Err(e) => Err(e),
            }
        },
    }
}

fn clone_delta<T: Clone>(delta: &DataDelta<T>) -> (r: DataDelta<T>)
    ensures
        delta_cloned(*delta, r),
{
    match delta {
        DataDelta::Create(d) => DataDelta::Create(d.clone()),
        DataDelta::Modify(prev, new) => DataDelta::Modify(prev.clone(), new.clone()),
        DataDelta::Delete(d) => DataDelta::Delete(d.clone()),
    }
}

/// What a map holds under a key, if anything.
pub open spec fn lookup<K, V>(m: Map<K, V>, key: K) -> Option<V> {
    if m.contains_key(key) {
        Some(m[key])
    } else {
        None
    }
}

/// What stands under a key after `other` was merged into what stood there.
pub open spec fn spec_merge_element<T>(
    current: Option<DeltaMapElement<T>>,
    other: DeltaMapElement<T>,
) -> Result<Option<DeltaMapElement<T>>, Error> {
    match current {
        Some(current) => spec_combine_delta_elements(current, other),
        None => Ok(Some(other)),
    }
}

/// The undo that merging `other` hands out: the opposite of a delta, and
/// nothing for the undoing of one.
pub open spec fn spec_undo_of<T>(other: DeltaMapElement<T>) -> Option<DataDeltaUndo<T>> {
    match other {
        DeltaMapElement::Delta(d) => Some(spec_create_undo_delta(d)),
        DeltaMapElement::DeltaUndo(_) => None,
    }
}

/// Whether `result` is `expected`, each value either the same or a clone.
pub open spec fn content_as<T: Clone>(
    expected: Option<DeltaMapElement<T>>,
    result: Option<DeltaMapElement<T>>,
) -> bool {
    match (expected, result) {
        (None, None) => true,
        (Some(a), Some(b)) => element_cloned(a, b),
        _ => false,
    }
}

/// Whether `result` is `expected`, each value either the same or a clone.
pub open spec fn undo_as<T: Clone>(
    expected: Option<DataDeltaUndo<T>>,
    result: Option<DataDeltaUndo<T>>,
) -> bool {
    match (expected, result) {
        (None, None) => true,
        (Some(a), Some(b)) => delta_cloned(a.0, b.0),
        _ => false,
    }
}

/// Whether `key` comes before `other` or is `other`, in the order of the
/// keys.
pub open spec fn key_le<K: Ord>(key: K, other: K) -> bool {
    !(key.cmp_spec(&other) is Greater)
}

/// Calls `BTreeMap::pop_first`, which removes and returns the first element
/// of the map; as std documents, its key is the minimum key that was in the
/// map, and an empty map gives `None`.
#[verifier::external_body]
fn pop_first<K: Ord, V>(m: &mut BTreeMap<K, V>) -> (r: Option<(K, V)>)
    ensures
        obeys_cmp::<K>() ==> match r {
            Some((k, v)) => {
                &&& old(m)@.contains_key(k)
                &&& old(m)@[k] == v
                &&& final(m)@ == old(m)@.remove(k)
                &&& forall|k2: K| old(m)@.contains_key(k2) ==> key_le(k, k2)
            },
            None => old(m)@.dom() == Set::<K>::empty() && final(m)@ == old(m)@,
        },
{
    m.pop_first()
}

/// The undo data of a merge: for each key, the delta that takes the merge
/// back.
pub struct DeltaDataUndoCollection<K, T> {
    data: BTreeMap<K, DataDeltaUndo<T>>,
}

impl<K, T> View for DeltaDataUndoCollection<K, T> {
    type V = Map<K, DataDeltaUndo<T>>;

    closed spec fn view(&self) -> Map<K, DataDeltaUndo<T>> {
        self.data@
    }
}

impl<K: Ord + Copy, T: Clone> DeltaDataUndoCollection<K, T> {
    pub fn new(data: BTreeMap<K, DataDeltaUndo<T>>) -> (r: Self)
        ensures
            r@ == data@,
    {
        Self { data }
    }

    pub fn data(&self) -> (r: &BTreeMap<K, DataDeltaUndo<T>>)
        ensures
            r@ == self@,
    {
        &self.data
    }

    pub fn consume(self) -> (r: BTreeMap<K, DataDeltaUndo<T>>)
        ensures
            r@ == self@,
    {
        self.data
    }
}

/// A collection of deltas, one element for each key that was changed.
pub struct DeltaDataCollection<K, T> {
    data: BTreeMap<K, DeltaMapElement<T>>,
}

impl<K, T> View for DeltaDataCollection<K, T> {
    type V = Map<K, DeltaMapElement<T>>;

    closed spec fn view(&self) -> Map<K, DeltaMapElement<T>> {
        self.data@
    }
}

/// What `get_data` answers for the element under a key.
pub open spec fn spec_get_data<T>(element: Option<DeltaMapElement<T>>) -> GetDataResult<T> {
    match element {
        Some(e) => match e.spec_get_data_delta() {
            DataDelta::Create(d) => GetDataResult::Present(d),
            DataDelta::Modify(_, d) => GetDataResult::Present(d),
            DataDelta::Delete(_) => GetDataResult::Deleted,
        },
        None => GetDataResult::Missing,
    }
}

/// How the merge of `other` under `key` relates the collection before and
/// after, and the result: on an error nothing changes; otherwise the key
/// holds the merged element, every other key what it held, and the result
/// is the undo of `other`.
pub open spec fn merge_element_post<K, T: Clone>(
    pre: Map<K, DeltaMapElement<T>>,
    post: Map<K, DeltaMapElement<T>>,
    key: K,
    other: DeltaMapElement<T>,
    r: Result<Option<DataDeltaUndo<T>>, Error>,
) -> bool {
    match spec_merge_element(lookup(pre, key), other) {
        Err(e) => r == Err::<Option<DataDeltaUndo<T>>, Error>(e) && post == pre,
        Ok(content) => {
            &&& r is Ok
            &&& undo_as(spec_undo_of(other), r->Ok_0)
            &&& content_as(content, lookup(post, key))
            &&& forall|k: K| k != key ==> lookup(post, k) == lookup(pre, k)
        },
    }
}

/// Whether `post` holds under `k` what the merge of `delta[k]` into
/// `base` leaves there.
pub open spec fn merged_at<K, T: Clone>(
    base: Map<K, DeltaMapElement<T>>,
    delta: Map<K, DeltaMapElement<T>>,
    post: Map<K, DeltaMapElement<T>>,
    k: K,
) -> bool {
    match spec_merge_element(lookup(base, k), delta[k]) {
        Ok(content) => content_as(content, lookup(post, k)),
        Err(_) => false,
    }
}

/// How the merge of the collection `delta` relates the collection before
/// (`base`) and after (`post`), and the result. The keys of `delta` are
/// merged one by one in their order. If each merge succeeds, every key of
/// `delta` holds its merged element and the result holds the undo of every
/// delta. Otherwise the result is the error of the first key whose merge
/// fails; the keys before it are merged, that key and those after it hold
/// what they held. A key that `delta` does not hold is never touched.
pub open spec fn merge_post<K: Ord, T: Clone>(
    base: Map<K, DeltaMapElement<T>>,
    delta: Map<K, DeltaMapElement<T>>,
    post: Map<K, DeltaMapElement<T>>,
    r: Result<Map<K, DataDeltaUndo<T>>, Error>,
) -> bool {
    &&& forall|k: K| !(#[trigger] delta.contains_key(k)) ==> lookup(post, k) == lookup(base, k)
    &&& match r {
        Ok(undo) => {
            &&& forall|k: K| #[trigger]
                delta.contains_key(k) ==> merged_at(base, delta, post, k) && undo_as(
                    spec_undo_of(delta[k]),
                    lookup(undo, k),
                )
            &&& forall|k: K| #[trigger] undo.contains_key(k) ==> delta.contains_key(k)
        },
        Err(e) => exists|f: K|
            {
                &&& #[trigger] delta.contains_key(f)
                &&& spec_merge_element(lookup(base, f), delta[f]) == Err::<
                    Option<DeltaMapElement<T>>,
                    Error,
                >(e)
                &&& forall|k: K| #[trigger]
                    delta.contains_key(k) ==> (k != f && key_le(k, f) && merged_at(
                        base,
                        delta,
                        post,
                        k,
                    )) || (key_le(f, k) && lookup(post, k) == lookup(base, k))
            },
    }
}

/// The undo data as elements of a collection.
pub open spec fn undo_elements<K, T>(undo: Map<K, DataDeltaUndo<T>>) -> Map<K, DeltaMapElement<T>> {
    Map::new(|k: K| undo.contains_key(k), |k: K| DeltaMapElement::DeltaUndo(undo[k]))
}

impl<K: Ord + Copy, T: Clone + PartialEq> DeltaDataCollection<K, T> {
    pub fn new() -> (r: Self)
        ensures
            r@ == Map::<K, DeltaMapElement<T>>::empty(),
    {
        Self { data: BTreeMap::new() }
    }

    pub fn data(&self) -> (r: &BTreeMap<K, DeltaMapElement<T>>)
        ensures
            r@ == self@,
    {
        &self.data
    }

    /// The value under `key` as the collection leaves it: present after a
    /// creation or a modification, deleted after a deletion, missing where
    /// the collection holds nothing for the key.
    pub fn get_data(&self, key: &K) -> (r: GetDataResult<&T>)
        requires
            obeys_cmp::<K>(),
        ensures
            match (spec_get_data(lookup(self@, *key)), r) {
                (GetDataResult::Present(a), GetDataResult::Present(b)) => a == *b,
                (GetDataResult::Deleted, GetDataResult::Deleted) => true,
                (GetDataResult::Missing, GetDataResult::Missing) => true,
                _ => false,
            },
    {
        match self.data.get(key) {
            Some(d) => match d.get_data_delta() {
                DataDelta::Create(d) => GetDataResult::Present(d),
                DataDelta::Modify(_, d) => GetDataResult::Present(d),
                DataDelta::Delete(_) => GetDataResult::Deleted,
            },
            None => GetDataResult::Missing,
        }
    }

    /// Merges the delta `other_data` into what the collection holds under
    /// `key`, and returns the undo of `other_data`.
    pub fn merge_delta_data_element(&mut self, key: K, other_data: DataDelta<T>) -> (r: Result<
        Option<DataDeltaUndo<T>>,
        Error,
    >)
        requires
            obeys_cmp::<K>(),
            obeys_concrete_eq::<T>(),
        ensures
            merge_element_post(
                old(self)@,
                final(self)@,
                key,
                DeltaMapElement::Delta(other_data),
                r,
            ),
    {
        self.merge_delta_data_element_impl(key, DeltaMapElement::Delta(other_data))
    }

    fn merge_delta_data_element_impl(&mut self, key: K, other: DeltaMapElement<T>) -> (r: Result<
        Option<DataDeltaUndo<T>>,
        Error,
    >)
        requires
            obeys_cmp::<K>(),
            obeys_concrete_eq::<T>(),
        ensures
            merge_element_post(old(self)@, final(self)@, key, other, r),
    {
        let undo = match &other {
            DeltaMapElement::Delta(other_delta) => Some(create_undo_delta(clone_delta(other_delta))),
            DeltaMapElement::DeltaUndo(_) => None,
        };
        let op = match self.data.get(&key) {
            Some(current) => match combine_delta_elements(current, other) {
                Ok(op) => op,
                Err(e) => {
                    return Err(e);
                },
            },
            None => DeltaMapOp::Insert(other),
        };
        match op {
            DeltaMapOp::Insert(el) => {
                self.data.insert(key, el);
            },
            DeltaMapOp::Erase => {
                self.data.remove(&key);
            },
        }
        Ok(undo)
    }

    /// Merges the undo `undo` into what the collection holds under `key`.
    pub fn undo_merge_delta_data_element(&mut self, key: K, undo: DataDeltaUndo<T>) -> (r: Result<
        (),
        Error,
    >)
        requires
            obeys_cmp::<K>(),
            obeys_concrete_eq::<T>(),
        ensures
            merge_element_post(
                old(self)@,
                final(self)@,
                key,
                DeltaMapElement::DeltaUndo(undo),
                match r {
                    Ok(_) => Ok(None),
                    Err(e) => Err(e),
                },
            ),
    {
        match self.merge_delta_data_element_impl(key, DeltaMapElement::DeltaUndo(undo)) {
            Ok(_) => Ok(()),
            Err(e) => Err(e),
        }
    }
    /// Merges every element of `delta_to_apply` into the collection, key by
    /// key in the order of the keys, and returns the undo data of the
    /// merge. The first merge that fails ends the work with its error.
    pub fn merge_delta_data(&mut self, delta_to_apply: Self) -> (r: Result<
        DeltaDataUndoCollection<K, T>,
        Error,
    >)
        requires
            obeys_cmp::<K>(),
            obeys_concrete_eq::<T>(),
        ensures
            merge_post(
                old(self)@,
                delta_to_apply@,
                final(self)@,
                match r {
                    Ok(undo) => Ok(undo@),
                    Err(e) => Err(e),
                },
            ),
    {
        let ghost base = self@;
        let ghost delta = delta_to_apply@;
        let mut rest = delta_to_apply.data;
        let mut data_undo: BTreeMap<K, DataDeltaUndo<T>> = BTreeMap::new();
        let mut failure: Option<Error> = None;
        loop
            invariant_except_break
                failure is None,
                obeys_cmp::<K>(),
                obeys_concrete_eq::<T>(),
                rest@.dom().finite(),
                forall|k: K| #[trigger]
                    rest@.contains_key(k) ==> delta.contains_key(k) && rest@[k] == delta[k],
                forall|k: K|
                    !(#[trigger] delta.contains_key(k)) || rest@.contains_key(k) ==> lookup(
                        self@,
                        k,
                    ) == lookup(base, k) && !data_undo@.contains_key(k),
                forall|k: K| #[trigger]
                    delta.contains_key(k) && !rest@.contains_key(k) ==> merged_at(
                        base,
                        delta,
                        self@,
                        k,
                    ) && undo_as(spec_undo_of(delta[k]), lookup(data_undo@, k)),
                forall|p: K, q: K|
                    #[trigger] delta.contains_key(p) && !rest@.contains_key(p)
                        && #[trigger] rest@.contains_key(q) ==> key_le(p, q),
            ensures
                merge_post(
                    base,
                    delta,
                    self@,
                    match failure {
                        None => Ok(data_undo@),
                        Some(e) => Err(e),
                    },
                ),
            decreases rest@.len(),
        {
            let ghost rest_before = rest@;
            let ghost self_before = self@;
            match pop_first(&mut rest) {
                None => {
                    proof {
                        assert forall|k: K| !rest@.contains_key(k) by {
                            assert(!Set::<K>::empty().contains(k));
                        }
                    }
                    break ;
                },
                Some((key, el)) => {
                    proof {
                        assert(rest_before.contains_key(key));
                        rest_before.lemma_remove_key_len(key);
                    }
                    match self.merge_delta_data_element_impl(key, el) {
                        Ok(undo) => {
                            if let Some(undo) = undo {
                                data_undo.insert(key, undo);
                            }
                        },
                        Err(e) => {
                            failure = Some(e);
                            proof {
                                assert(delta.contains_key(key));
                                assert(self@ == self_before);
                                assert(spec_merge_element(lookup(base, key), delta[key]) == Err::<
                                    Option<DeltaMapElement<T>>,
                                    Error,
                                >(e));
                                assert forall|k: K| #[trigger] delta.contains_key(k) implies (k
                                    != key && key_le(k, key) && merged_at(base, delta, self@, k))
                                    || (key_le(key, k) && lookup(self@, k) == lookup(base, k)) by {
                                    if rest_before.contains_key(k) {
                                    } else {
                                        assert(rest_before.contains_key(key));
                                    }
                                }
                            }
                            break ;
                        },
                    }
                },
            }
        }
        match failure {
            None => Ok(DeltaDataUndoCollection::new(data_undo)),
            Some(e) => Err(e),
        }
    }

    /// Merges every undo of `undo_data` into the collection, key by key in
    /// the order of the keys. The first merge that fails ends the work with
    /// its error.
    pub fn undo_merge_delta_data(&mut self, undo_data: DeltaDataUndoCollection<K, T>) -> (r: Result<
        (),
        Error,
    >)
        requires
            obeys_cmp::<K>(),
            obeys_concrete_eq::<T>(),
        ensures
            merge_post(
                old(self)@,
                undo_elements(undo_data@),
                final(self)@,
                match r {
                    Ok(_) => Ok(Map::<K, DataDeltaUndo<T>>::empty()),
                    Err(e) => Err(e),
                },
            ),
    {
        let ghost base = self@;
        let ghost delta = undo_elements(undo_data@);
        let mut rest = undo_data.consume();
        let mut failure: Option<Error> = None;
        loop
            invariant_except_break
                failure is None,
                obeys_cmp::<K>(),
                obeys_concrete_eq::<T>(),
                rest@.dom().finite(),
                forall|k: K| #[trigger]
                    rest@.contains_key(k) ==> delta.contains_key(k) && DeltaMapElement::DeltaUndo(
                        rest@[k],
                    ) == delta[k],
                forall|k: K| #[trigger] delta.contains_key(k) ==> delta[k] is DeltaUndo,
                forall|k: K|
                    !(#[trigger] delta.contains_key(k)) || rest@.contains_key(k) ==> lookup(
                        self@,
                        k,
                    ) == lookup(base, k),
                forall|k: K| #[trigger]
                    delta.contains_key(k) && !rest@.contains_key(k) ==> merged_at(
                        base,
                        delta,
                        self@,
                        k,
                    ),
                forall|p: K, q: K|
                    #[trigger] delta.contains_key(p) && !rest@.contains_key(p)
                        && #[trigger] rest@.contains_key(q) ==> key_le(p, q),
            ensures
                merge_post(
                    base,
                    delta,
                    self@,
                    match failure {
                        None => Ok(Map::<K, DataDeltaUndo<T>>::empty()),
                        Some(e) => Err(e),
                    },
                ),
            decreases rest@.len(),
        {
            let ghost rest_before = rest@;
            let ghost self_before = self@;
            match pop_first(&mut rest) {
                None => {
                    proof {
                        assert forall|k: K| !rest@.contains_key(k) by {
                            assert(!Set::<K>::empty().contains(k));
                        }
                    }
                    break ;
                },
                Some((key, undo)) => {
                    proof {
                        assert(rest_before.contains_key(key));
                        rest_before.lemma_remove_key_len(key);
                    }
                    match self.undo_merge_delta_data_element(key, undo) {
                        Ok(_) => {},
                        Err(e) => {
                            failure = Some(e);
                            proof {
                                assert(delta.contains_key(key));
                                assert(self@ == self_before);
                                assert(spec_merge_element(lookup(base, key), delta[key]) == Err::<
                                    Option<DeltaMapElement<T>>,
                                    Error,
                                >(e));
                                assert forall|k: K| #[trigger] delta.contains_key(k) implies (k
                                    != key && key_le(k, key) && merged_at(base, delta, self@, k))
                                    || (key_le(key, k) && lookup(self@, k) == lookup(base, k)) by {
                                    if rest_before.contains_key(k) {
                                    } else {
                                        assert(rest_before.contains_key(key));
                                    }
                                }
                            }
                            break ;
                        },
                    }
                },
            }
        }
        match failure {
            None => Ok(()),
            Some(e) => Err(e),
        }
    }
}

} // verus!
