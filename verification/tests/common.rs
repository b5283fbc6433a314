use std::collections::VecDeque;
use vixi::common::{move_to_front, prepend};

#[test]
fn test_move_to_front() {
    let mut front = vec![1u8, 2u8, 3u8];
    let mut typeahead = VecDeque::<u8>::new();
    typeahead.push_back(4u8);
    typeahead.push_back(5u8);
    move_to_front(&mut front, &mut typeahead);
    assert_eq!(0, front.len());
    assert_eq!(5, typeahead.len());
    let mut i = typeahead.iter();
    assert_eq!(Some(&1u8), i.next());
}

#[test]
fn test_prepend() {
    let front = vec![1u8, 2u8, 3u8];
    let mut typeahead = VecDeque::<u8>::new();
    typeahead.push_back(4u8);
    typeahead.push_back(5u8);
    prepend(&front, &mut typeahead);
    assert_eq!(3, front.len());
    assert_eq!(5, typeahead.len());
    let mut i = typeahead.iter();
    assert_eq!(Some(&1u8), i.next());
}

#[test]
fn move_to_front_keeps_the_order() {
    let mut front = vec![1u8, 2u8, 3u8];
    let mut typeahead = VecDeque::<u8>::new();
    typeahead.push_back(4u8);
    typeahead.push_back(5u8);
    move_to_front(&mut front, &mut typeahead);
    let all: Vec<u8> = typeahead.iter().copied().collect();
    assert_eq!(vec![1u8, 2, 3, 4, 5], all);
}

#[test]
fn prepend_keeps_the_order() {
    let front = vec![7u8, 8u8];
    let mut typeahead = VecDeque::<u8>::new();
    typeahead.push_back(9u8);
    prepend(&front, &mut typeahead);
    let all: Vec<u8> = typeahead.iter().copied().collect();
    assert_eq!(vec![7u8, 8, 9], all);
}

#[test]
fn prepend_nothing_changes_nothing() {
    let front: Vec<u8> = Vec::new();
    let mut typeahead = VecDeque::<u8>::new();
    typeahead.push_back(9u8);
    prepend(&front, &mut typeahead);
    assert_eq!(1, typeahead.len());
}
