use vixi::disambiguation_map::Match;
use vixi::key::parse::parse;
use vixi::key::Key::{Char, Left, Space};
use vixi::key::MultiKey;
use vixi::key::MultiKey::{Ctrl, A};
use vixi::typeahead::{RemapType, Typeahead};

#[test]
fn decimal_full_match() {
    let mut typeahead = Typeahead::new();
    typeahead.put_front(&parse("12345g"), RemapType::Remap);
    let result = typeahead.parse_decimal();
    assert_eq!(Match::FullMatch(12345), result);
    assert_eq!(1, typeahead.len());
}

#[test]
fn decimal_full_match_two() {
    let mut typeahead = Typeahead::new();
    typeahead.put_front(&parse("12345gg1"), RemapType::Remap);
    let result = typeahead.parse_decimal();
    assert_eq!(Match::FullMatch(12345), result);
    assert_eq!(3, typeahead.len());
}

#[test]
fn decimal_partial_match() {
    let mut typeahead = Typeahead::new();
    typeahead.put_front(&parse("12345"), RemapType::Remap);
    let result = typeahead.parse_decimal();
    assert_eq!(Match::PartialMatch, result);
    assert_eq!(5, typeahead.len());
}

#[test]
fn decimal_no_match() {
    let mut typeahead = Typeahead::new();
    typeahead.put_front(&parse("g12345"), RemapType::Remap);
    let result = typeahead.parse_decimal();
    assert_eq!(Match::NoMatch, result);
    assert_eq!(6, typeahead.len());
}

#[test]
fn decimal_of_an_empty_buffer_waits() {
    let mut typeahead = Typeahead::<MultiKey>::new();
    assert_eq!(Match::PartialMatch, typeahead.parse_decimal());
    assert_eq!(0, typeahead.len());
}

#[test]
fn decimal_keeps_leading_zeros_out_of_the_value() {
    let mut typeahead = Typeahead::new();
    typeahead.put_front(&parse("007x"), RemapType::Remap);
    assert_eq!(Match::FullMatch(7), typeahead.parse_decimal());
    assert_eq!(Some((A(Char('x')), RemapType::Remap)), typeahead.pop_front());
}

#[test]
fn decimal_stops_at_the_largest_i32() {
    let mut typeahead = Typeahead::new();
    typeahead.put_front(&parse("2147483647x"), RemapType::Remap);
    assert_eq!(Match::FullMatch(2147483647), typeahead.parse_decimal());
    let mut typeahead = Typeahead::new();
    typeahead.put_front(&parse("2147483648x"), RemapType::Remap);
    assert_eq!(Match::FullMatch(2147483647), typeahead.parse_decimal());
    let mut typeahead = Typeahead::new();
    typeahead.put_front(&parse("99999999999999999999x"), RemapType::Remap);
    assert_eq!(Match::FullMatch(2147483647), typeahead.parse_decimal());
    assert_eq!(1, typeahead.len());
}

#[test]
fn decimal_does_not_read_modified_digits() {
    let mut typeahead = Typeahead::new();
    typeahead.put_front(&parse("1<C-2>"), RemapType::Remap);
    assert_eq!(Match::FullMatch(1), typeahead.parse_decimal());
    assert_eq!(Some((Ctrl(Char('2')), RemapType::Remap)), typeahead.pop_front());
}

#[test]
fn string_takes_the_text_at_the_front() {
    let mut typeahead = Typeahead::new();
    typeahead.put_front(&parse("ab<space>c<left>d"), RemapType::Remap);
    assert_eq!("ab c", typeahead.parse_string());
    assert_eq!(Some((A(Left), RemapType::Remap)), typeahead.pop_front());
    assert_eq!(Some((A(Char('d')), RemapType::Remap)), typeahead.pop_front());
    assert_eq!(None, typeahead.pop_front());
}

#[test]
fn string_counts_characters_not_bytes() {
    let mut typeahead = Typeahead::new();
    typeahead.put_front(&parse("\u{e9}<left>x"), RemapType::Remap);
    assert_eq!("\u{e9}", typeahead.parse_string());
    assert_eq!(2, typeahead.len());
    assert_eq!(Some((A(Left), RemapType::Remap)), typeahead.pop_front());
}

#[test]
fn string_of_no_text_is_empty() {
    let mut typeahead = Typeahead::new();
    typeahead.put_front(&parse("<left>x"), RemapType::Remap);
    assert_eq!("", typeahead.parse_string());
    assert_eq!(2, typeahead.len());
    let mut empty = Typeahead::<MultiKey>::new();
    assert_eq!("", empty.parse_string());
}

#[test]
fn queue_ends() {
    let mut typeahead = Typeahead::<u8>::new();
    assert!(typeahead.is_empty());
    typeahead.push_back(2, RemapType::Remap);
    typeahead.push_back(3, RemapType::Noremap);
    typeahead.push_front(1, RemapType::Script);
    assert_eq!(3, typeahead.len());
    assert!(!typeahead.is_empty());
    let all: Vec<(u8, RemapType)> = typeahead.iter().copied().collect();
    assert_eq!(
        vec![(1, RemapType::Script), (2, RemapType::Remap), (3, RemapType::Noremap)],
        all
    );
    assert_eq!(Some((1, RemapType::Script)), typeahead.pop_front());
    assert_eq!(Some((2, RemapType::Remap)), typeahead.pop_front());
    assert_eq!(Some((3, RemapType::Noremap)), typeahead.pop_front());
    assert_eq!(None, typeahead.pop_front());
    typeahead.push_back(9, RemapType::Abbreviation);
    typeahead.clear();
    assert_eq!(0, typeahead.len());
}

#[test]
fn put_front_keeps_the_order() {
    let mut typeahead = Typeahead::<u8>::new();
    typeahead.push_back(4, RemapType::Noremap);
    typeahead.put_front(&vec![1, 2, 3], RemapType::Remap);
    let all: Vec<(u8, RemapType)> = typeahead.iter().copied().collect();
    assert_eq!(
        vec![
            (1, RemapType::Remap),
            (2, RemapType::Remap),
            (3, RemapType::Remap),
            (4, RemapType::Noremap)
        ],
        all
    );
}

#[test]
fn value_iter_walks_the_keys() {
    let mut typeahead = Typeahead::<u8>::new();
    typeahead.push_back(4, RemapType::Noremap);
    typeahead.push_back(5, RemapType::Remap);
    let mut it = typeahead.value_iter();
    assert_eq!(Some(4), it.next());
    assert_eq!(Some(5), it.next());
    assert_eq!(None, it.next());
    assert_eq!(None, it.next());
}

#[test]
fn drain_takes_a_range_out() {
    let mut typeahead = Typeahead::<u8>::new();
    for k in [1u8, 2, 3, 4, 5] {
        typeahead.push_back(k, RemapType::Remap);
    }
    let taken = typeahead.drain(1..3);
    assert_eq!(vec![(2, RemapType::Remap), (3, RemapType::Remap)], taken);
    let left: Vec<u8> = typeahead.iter().map(|e| e.0).collect();
    assert_eq!(vec![1u8, 4, 5], left);
    let none = typeahead.drain(2..2);
    assert!(none.is_empty());
    assert_eq!(3, typeahead.len());
    let all = typeahead.drain(0..3);
    assert_eq!(3, all.len());
    assert!(typeahead.is_empty());
}

#[test]
fn space_is_text() {
    let mut typeahead = Typeahead::new();
    typeahead.push_back(A(Space), RemapType::Remap);
    assert_eq!(" ", typeahead.parse_string());
}

#[test]
fn get_by_position() {
    let mut typeahead = Typeahead::<u8>::new();
    typeahead.push_back(4, RemapType::Noremap);
    typeahead.push_back(5, RemapType::Remap);
    assert_eq!(Some((4, RemapType::Noremap)), typeahead.get(0));
    assert_eq!(Some((5, RemapType::Remap)), typeahead.get(1));
    assert_eq!(None, typeahead.get(2));
}

#[test]
fn pop_back_takes_the_last_key() {
    let mut typeahead = Typeahead::<u8>::new();
    assert_eq!(None, typeahead.pop_back());
    typeahead.push_back(4, RemapType::Noremap);
    typeahead.push_back(5, RemapType::Remap);
    assert_eq!(Some((5, RemapType::Remap)), typeahead.pop_back());
    assert_eq!(Some((4, RemapType::Noremap)), typeahead.pop_back());
    assert_eq!(None, typeahead.pop_back());
}
