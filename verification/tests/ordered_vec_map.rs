use std::convert::From;
use vixi::ordered_vec_map::{InsertionResult, OrderedVecMap, RemovalResult};

#[test]
fn insert_empty_len() {
    let x = OrderedVecMap::<u8, u8>::new();
    assert_eq!(0, x.len());
    assert_eq!(true, x.is_empty());
}

#[test]
fn insert_one_len() {
    let mut x = OrderedVecMap::<u8, u8>::new();
    match x.insert((4u8, 2u8)) {
        InsertionResult::Overwrite => {
            assert!(false);
        }
        _ => {}
    };
    assert_eq!(1, x.len());
    assert_eq!(false, x.is_empty());
}

#[test]
fn insert_two_len() {
    let mut x = OrderedVecMap::<u8, u8>::new();
    assert_eq!(InsertionResult::Create, x.insert((4u8, 2u8)));
    assert_eq!(InsertionResult::Create, x.insert((3u8, 3u8)));
    assert_eq!(2, x.len());
}

#[test]
fn insert_same_key_len() {
    let mut x = OrderedVecMap::<u8, u8>::new();
    assert_eq!(InsertionResult::Create, x.insert((3u8, 3u8)));
    assert_eq!(InsertionResult::Overwrite, x.insert((3u8, 3u8)));
    assert_eq!(1, x.len());
}

#[test]
fn remove() {
    let mut x = OrderedVecMap::<u8, u8>::new();
    assert_eq!(InsertionResult::Create, x.insert((3u8, 3u8)));
    assert_eq!(RemovalResult::Removed, x.remove(&3u8));
    assert_eq!(0, x.len());
}

#[test]
fn removal_failure() {
    let mut x = OrderedVecMap::<u8, u8>::new();
    assert_eq!(InsertionResult::Create, x.insert((3u8, 3u8)));
    assert_eq!(RemovalResult::KeyNotFound, x.remove(&1u8));
    assert_eq!(1, x.len());
}

#[test]
fn find_one() {
    let mut x = OrderedVecMap::<u8, u8>::new();
    x.insert((4u8, 2u8));
    assert_eq!(Some(&(4u8, 2u8)), x.find(&4u8));
}

#[test]
fn find_one_by() {
    let mut x = OrderedVecMap::<u8, u8>::new();
    x.insert((4u8, 2u8));
    assert_eq!(Some(&(4u8, 2u8)), x.find_by(|probe| probe.0.cmp(&4u8)));
}

#[test]
fn find() {
    let mut x = OrderedVecMap::<u8, u8>::new();
    x.insert((4u8, 2u8));
    x.insert((3u8, 3u8));
    assert_eq!(Some(&(4u8, 2u8)), x.find(&4u8));
}

#[test]
fn find_by() {
    let mut x = OrderedVecMap::<u8, u8>::new();
    x.insert((3u8, 3u8));
    x.insert((4u8, 2u8));
    assert_eq!(Some(&(4u8, 2u8)), x.find_by(|probe| probe.0.cmp(&4u8)));
}

#[test]
fn from_vec() {
    let v = vec![(1u8, 3u8), (2u8, 2u8), (3u8, 1u8)];
    let x = OrderedVecMap::<u8, u8>::from(v);
    assert_eq!(3, x.len());
    assert_eq!(Some(&(1u8, 3u8)), x.find(&1u8));
}

#[test]
fn find_idx_gives_the_place() {
    let mut x = OrderedVecMap::<u8, u8>::new();
    assert_eq!(Err(0), x.find_idx(&5u8));
    x.insert((10u8, 1u8));
    x.insert((30u8, 3u8));
    x.insert((20u8, 2u8));
    assert_eq!(Err(0), x.find_idx(&5u8));
    assert_eq!(Ok(0), x.find_idx(&10u8));
    assert_eq!(Err(1), x.find_idx(&15u8));
    assert_eq!(Ok(1), x.find_idx(&20u8));
    assert_eq!(Ok(2), x.find_idx(&30u8));
    assert_eq!(Err(3), x.find_idx(&31u8));
}

#[test]
fn entries_stay_sorted() {
    let mut x = OrderedVecMap::<u8, u8>::new();
    for k in [5u8, 1, 9, 3, 7, 3, 1] {
        x.insert((k, k + 100));
    }
    let keys: Vec<u8> = x.iter().map(|e| e.0).collect();
    assert_eq!(vec![1u8, 3, 5, 7, 9], keys);
    assert_eq!(Some(&(1u8, 101u8)), x.get(0));
    assert_eq!(Some(&(9u8, 109u8)), x.get(4));
    assert_eq!(None, x.get(5));
    assert_eq!(RemovalResult::Removed, x.remove(&5u8));
    let keys: Vec<u8> = x.iter().map(|e| e.0).collect();
    assert_eq!(vec![1u8, 3, 7, 9], keys);
    assert_eq!(None, x.find(&5u8));
}

#[test]
fn insert_overwrites_the_value() {
    let mut x = OrderedVecMap::<u8, u8>::new();
    assert_eq!(InsertionResult::Create, x.insert((3u8, 1u8)));
    assert_eq!(InsertionResult::Overwrite, x.insert((3u8, 2u8)));
    assert_eq!(Some(&(3u8, 2u8)), x.find(&3u8));
}

#[test]
fn from_vec_sorts_and_keeps_the_later_of_two() {
    let v = vec![(3u8, 1u8), (1u8, 2u8), (3u8, 3u8), (2u8, 4u8)];
    let x = OrderedVecMap::<u8, u8>::from(v);
    assert_eq!(3, x.len());
    let all: Vec<(u8, u8)> = x.iter().copied().collect();
    assert_eq!(vec![(1u8, 2u8), (2u8, 4u8), (3u8, 3u8)], all);
}

#[test]
fn find_by_finds_nothing_where_nothing_is_equal() {
    let mut x = OrderedVecMap::<u8, u8>::new();
    assert_eq!(None, x.find_by(|probe| probe.0.cmp(&4u8)));
    x.insert((3u8, 3u8));
    x.insert((5u8, 2u8));
    assert_eq!(None, x.find_by(|probe| probe.0.cmp(&4u8)));
    assert_eq!(None, x.find_by(|probe| probe.0.cmp(&9u8)));
    assert_eq!(Some(&(5u8, 2u8)), x.find_by(|probe| probe.0.cmp(&5u8)));
}

#[test]
fn maps_keyed_by_sequences() {
    let mut x = OrderedVecMap::<Vec<u8>, u8>::new();
    x.insert((vec![2u8], 1));
    x.insert((vec![1u8, 2], 2));
    x.insert((vec![1u8], 3));
    x.insert((vec![], 4));
    let keys: Vec<Vec<u8>> = x.iter().map(|e| e.0.clone()).collect();
    assert_eq!(vec![vec![], vec![1u8], vec![1u8, 2], vec![2u8]], keys);
    assert_eq!(Some(&(vec![1u8, 2], 2u8)), x.find(&vec![1u8, 2]));
    assert_eq!(InsertionResult::Overwrite, x.insert((vec![1u8], 9)));
}
