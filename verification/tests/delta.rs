use std::collections::BTreeMap;

use dns_crawler::delta::DataDelta::{Create, Delete, Modify};
use dns_crawler::delta::DeltaMapElement::{Delta, DeltaUndo};
use dns_crawler::delta::{
    combine_delta_data, combine_delta_elements, create_undo_delta, DataDelta, DataDeltaUndo,
    DeltaDataCollection, DeltaDataUndoCollection, DeltaMapElement, DeltaMapOp, Error,
    GetDataResult,
};

type Collection = DeltaDataCollection<u64, char>;

fn collection(items: Vec<(u64, DataDelta<char>)>) -> Collection {
    let mut c = Collection::new();
    for (key, delta) in items {
        c.merge_delta_data_element(key, delta).unwrap();
    }
    c
}

fn content(c: &Collection) -> Vec<(u64, DeltaMapElement<char>)> {
    c.data().iter().map(|(k, v)| (*k, v.clone())).collect()
}

fn get(c: &Collection, key: u64) -> Option<Option<char>> {
    match c.get_data(&key) {
        GetDataResult::Present(d) => Some(Some(*d)),
        GetDataResult::Deleted => Some(None),
        GetDataResult::Missing => None,
    }
}

#[test]
fn undo_is_the_opposite_delta() {
    assert_eq!(create_undo_delta(DataDelta::Create('a')), DataDeltaUndo(DataDelta::Delete('a')));
    assert_eq!(create_undo_delta(DataDelta::Modify('a', 'b')), DataDeltaUndo(DataDelta::Modify('b', 'a')));
    assert_eq!(create_undo_delta(DataDelta::Delete('a')), DataDeltaUndo(DataDelta::Create('a')));
}

#[test]
fn combine_two_deltas() {
    let cases: Vec<(DataDelta<char>, DataDelta<char>, Result<Option<DataDelta<char>>, Error>)> = vec![
        (Create('a'), Create('b'), Err(Error::DeltaDataCreatedMultipleTimes)),
        (Create('a'), Modify('a', 'b'), Ok(Some(Create('b')))),
        (Create('a'), Delete('a'), Ok(None)),
        (Modify('a', 'b'), Create('c'), Err(Error::DeltaDataCreatedMultipleTimes)),
        (Modify('a', 'b'), Modify('b', 'c'), Ok(Some(Modify('a', 'c')))),
        (Modify('a', 'b'), Modify('b', 'a'), Ok(None)),
        (Modify('a', 'b'), Modify('c', 'a'), Ok(Some(Modify('a', 'a')))),
        (Modify('a', 'b'), Delete('b'), Ok(Some(Delete('a')))),
        (Delete('a'), Create('a'), Ok(None)),
        (Delete('a'), Create('b'), Ok(Some(Modify('a', 'b')))),
        (Delete('a'), Modify('a', 'b'), Err(Error::DeltaDataModifyAfterDelete)),
        (Delete('a'), Delete('a'), Err(Error::DeltaDataDeletedMultipleTimes)),
    ];
    for (lhs, rhs, expected) in cases {
        assert_eq!(combine_delta_data(&lhs, rhs.clone()), expected, "{:?} then {:?}", lhs, rhs);
    }
}

fn op(r: Result<DeltaMapOp<char>, Error>) -> Result<Option<DeltaMapElement<char>>, Error> {
    match r {
        Ok(DeltaMapOp::Insert(e)) => Ok(Some(e)),
        Ok(DeltaMapOp::Erase) => Ok(None),
        Err(e) => Err(e),
    }
}

#[test]
fn combine_two_elements() {
    assert_eq!(
        op(combine_delta_elements(&Delta(Create('a')), Delta(Modify('a', 'b')))),
        Ok(Some(Delta(Create('b'))))
    );
    assert_eq!(op(combine_delta_elements(&Delta(Create('a')), Delta(Delete('a')))), Ok(None));
    assert_eq!(
        op(combine_delta_elements(&Delta(Create('a')), Delta(Create('a')))),
        Err(Error::DeltaDataCreatedMultipleTimes)
    );
    // an undo over a delta gives a delta
    assert_eq!(
        op(combine_delta_elements(&Delta(Modify('a', 'b')), DeltaUndo(DataDeltaUndo(Delete('b'))))),
        Ok(Some(Delta(Delete('a'))))
    );
    assert_eq!(
        op(combine_delta_elements(&Delta(Create('a')), DeltaUndo(DataDeltaUndo(Delete('a'))))),
        Ok(None)
    );
    // a delta over an undo is refused
    assert_eq!(
        op(combine_delta_elements(&DeltaUndo(DataDeltaUndo(Delete('a'))), Delta(Create('a')))),
        Err(Error::DeltaOverUndoApplied)
    );
    // an undo over an undo stays an undo
    assert_eq!(
        op(combine_delta_elements(
            &DeltaUndo(DataDeltaUndo(Delete('a'))),
            DeltaUndo(DataDeltaUndo(Create('b')))
        )),
        Ok(Some(DeltaUndo(DataDeltaUndo(Modify('a', 'b')))))
    );
    assert_eq!(
        op(combine_delta_elements(
            &DeltaUndo(DataDeltaUndo(Delete('a'))),
            DeltaUndo(DataDeltaUndo(Delete('a')))
        )),
        Err(Error::DeltaDataDeletedMultipleTimes)
    );
}

#[test]
fn get_data_delta_looks_inside_the_element() {
    let delta = DataDelta::Modify('a', 'b');
    assert_eq!(DeltaMapElement::Delta(delta.clone()).get_data_delta(), &delta);
    assert_eq!(DeltaMapElement::DeltaUndo(DataDeltaUndo(delta.clone())).get_data_delta(), &delta);
}

#[test]
fn get_data_tells_present_deleted_and_missing() {
    let c = collection(vec![
        (1, DataDelta::Create('a')),
        (2, DataDelta::Modify('a', 'b')),
        (3, DataDelta::Delete('c')),
    ]);
    assert_eq!(get(&c, 1), Some(Some('a')));
    assert_eq!(get(&c, 2), Some(Some('b')));
    assert_eq!(get(&c, 3), Some(None));
    assert_eq!(get(&c, 4), None);
    assert!(Collection::new().data().is_empty());
}

#[test]
fn merge_element_returns_its_undo() {
    let mut c = Collection::new();
    assert_eq!(
        c.merge_delta_data_element(1, DataDelta::Create('a')),
        Ok(Some(DataDeltaUndo(DataDelta::Delete('a'))))
    );
    assert_eq!(
        c.merge_delta_data_element(1, DataDelta::Modify('a', 'b')),
        Ok(Some(DataDeltaUndo(DataDelta::Modify('b', 'a'))))
    );
    assert_eq!(content(&c), vec![(1, DeltaMapElement::Delta(DataDelta::Create('b')))]);
    // a failed merge changes nothing
    assert_eq!(
        c.merge_delta_data_element(1, DataDelta::Create('z')),
        Err(Error::DeltaDataCreatedMultipleTimes)
    );
    assert_eq!(content(&c), vec![(1, DeltaMapElement::Delta(DataDelta::Create('b')))]);
    // creation and deletion cancel each other
    assert_eq!(
        c.merge_delta_data_element(1, DataDelta::Delete('b')),
        Ok(Some(DataDeltaUndo(DataDelta::Create('b'))))
    );
    assert!(content(&c).is_empty());
}

#[test]
fn merge_and_undo_collections() {
    let mut base = collection(vec![(1, DataDelta::Create('a')), (3, DataDelta::Modify('x', 'y'))]);
    let before = content(&base);
    let delta = collection(vec![
        (1, DataDelta::Modify('a', 'b')),
        (2, DataDelta::Create('c')),
        (3, DataDelta::Delete('y')),
    ]);
    let undo = base.merge_delta_data(delta).unwrap();
    assert_eq!(
        content(&base),
        vec![
            (1, DeltaMapElement::Delta(DataDelta::Create('b'))),
            (2, DeltaMapElement::Delta(DataDelta::Create('c'))),
            (3, DeltaMapElement::Delta(DataDelta::Delete('x'))),
        ]
    );
    let undo_items: Vec<(u64, DataDeltaUndo<char>)> =
        undo.data().iter().map(|(k, v)| (*k, v.clone())).collect();
    assert_eq!(
        undo_items,
        vec![
            (1, DataDeltaUndo(DataDelta::Modify('b', 'a'))),
            (2, DataDeltaUndo(DataDelta::Delete('c'))),
            (3, DataDeltaUndo(DataDelta::Create('y'))),
        ]
    );
    base.undo_merge_delta_data(undo).unwrap();
    assert_eq!(content(&base), before);
}

#[test]
fn failing_merge_stops_at_the_first_key_that_fails() {
    let mut base = collection(vec![
        (1, DataDelta::Create('a')),
        (2, DataDelta::Delete('b')),
        (3, DataDelta::Create('c')),
        (4, DataDelta::Create('d')),
    ]);
    let delta = collection(vec![
        (4, DataDelta::Create('z')),
        (3, DataDelta::Modify('c', 'e')),
        (2, DataDelta::Modify('b', 'f')),
        (1, DataDelta::Modify('a', 'g')),
    ]);
    assert!(matches!(base.merge_delta_data(delta), Err(Error::DeltaDataModifyAfterDelete)));
    // key 1 was merged, key 2 failed, keys 3 and 4 were never reached
    assert_eq!(
        content(&base),
        vec![
            (1, DeltaMapElement::Delta(DataDelta::Create('g'))),
            (2, DeltaMapElement::Delta(DataDelta::Delete('b'))),
            (3, DeltaMapElement::Delta(DataDelta::Create('c'))),
            (4, DeltaMapElement::Delta(DataDelta::Create('d'))),
        ]
    );
}

#[test]
fn failing_undo_stops_at_the_first_key_that_fails() {
    let mut base = collection(vec![(1, DataDelta::Create('a')), (2, DataDelta::Delete('b'))]);
    let mut undo = BTreeMap::new();
    undo.insert(2, DataDeltaUndo(DataDelta::Delete('b')));
    undo.insert(1, DataDeltaUndo(DataDelta::Delete('a')));
    let r = base.undo_merge_delta_data(DeltaDataUndoCollection::new(undo));
    assert_eq!(r, Err(Error::DeltaDataDeletedMultipleTimes));
    assert_eq!(content(&base), vec![(2, DeltaMapElement::Delta(DataDelta::Delete('b')))]);
}

#[test]
fn undo_of_a_single_element() {
    let mut base = collection(vec![(1, DataDelta::Create('a'))]);
    let undo = base.merge_delta_data_element(1, DataDelta::Modify('a', 'b')).unwrap().unwrap();
    assert_eq!(get(&base, 1), Some(Some('b')));
    assert_eq!(base.undo_merge_delta_data_element(1, undo), Ok(()));
    assert_eq!(get(&base, 1), Some(Some('a')));
    assert_eq!(content(&base), vec![(1, DeltaMapElement::Delta(DataDelta::Create('a')))]);
    let consumed = DeltaDataUndoCollection::<u64, char>::new(BTreeMap::new()).consume();
    assert!(consumed.is_empty());
}
