use vixi::disambiguation_map::{find_match, match_length, DisambiguationMap, Match};
use vixi::ordered_vec_map::{InsertionResult, OrderedVecMap, RemovalResult};
use vixi::typeahead::{RemapType, Typeahead};

#[test]
fn partial_match() {
    // MatchLen = QueryLen <  KeyLen   =>  Partial
    let mut map = OrderedVecMap::<Vec<u8>, u8>::new();
    map.insert((vec![1u8, 2u8, 3u8, 4u8], 6u8));
    let query = vec![1u8, 2u8, 3u8];
    assert_eq!(Match::PartialMatch, find_match(&map, &query))
}

#[test]
fn full_match() {
    //    MatchLen =  KeyLen  = QueryLen  =>  Full
    let mut map = OrderedVecMap::<Vec<u8>, u8>::new();
    map.insert((vec![1u8, 2u8, 3u8], 6u8));
    let query = vec![1u8, 2u8, 3u8];
    assert_eq!(
        Match::FullMatch(&(vec![1u8, 2u8, 3u8], 6u8)),
        find_match(&map, &query)
    );
}

#[test]
fn overspecified_full_match() {
    //    MatchLen =  KeyLen  < QueryLen  =>  Full
    let mut map = OrderedVecMap::<Vec<u8>, u8>::new();
    map.insert((vec![1u8, 2u8], 6u8));
    let query = vec![1u8, 2u8, 3u8];
    assert_eq!(
        Match::FullMatch(&(vec![1u8, 2u8], 6u8)),
        find_match(&map, &query)
    );
}

#[test]
fn best_full_match() {
    //    MatchLen =  KeyLen  = QueryLen  =>  Full
    let mut map = OrderedVecMap::<Vec<u8>, u8>::new();
    map.insert((vec![1u8], 4u8));
    map.insert((vec![1u8, 2u8], 5u8));
    map.insert((vec![1u8, 2u8, 3u8], 6u8));
    let query = vec![1u8, 2u8, 3u8];
    assert_eq!(
        Match::FullMatch(&(vec![1u8, 2u8, 3u8], 6u8)),
        find_match(&map, &query)
    )
}

#[test]
fn underspecified_no_match() {
    //    MatchLen < QueryLen <  KeyLen   =>  Not a match
    let mut map = OrderedVecMap::<Vec<u8>, u8>::new();
    map.insert((vec![1u8, 2u8, 3u8, 4u8], 6u8));
    let query = vec![1u8, 3u8];
    assert_eq!(Match::NoMatch, find_match(&map, &query))
}

#[test]
fn overspecified_no_match() {
    //    MatchLen <  KeyLen  < QueryLen  =>  Not a match
    let mut map = OrderedVecMap::<Vec<u8>, u8>::new();
    map.insert((vec![1u8, 2u8, 3u8], 6u8));
    let query = vec![1u8, 2u8, 4u8, 5u8];
    assert_eq!(Match::NoMatch, find_match(&map, &query))
}

#[test]
fn critically_specified_no_match() {
    //    MatchLen <  KeyLen  = QueryLen  =>  Not a match
    let mut map = OrderedVecMap::<Vec<u8>, u8>::new();
    map.insert((vec![1u8, 2u8, 3u8], 6u8));
    let query = vec![1u8, 2u8, 4u8];
    assert_eq!(Match::NoMatch, find_match(&map, &query))
}

#[test]
fn no_query() {
    let mut map = OrderedVecMap::<Vec<u8>, u8>::new();
    map.insert((vec![1u8, 2u8, 3u8, 4u8], 6u8));
    let query = vec![];
    assert_eq!(Match::NoMatch, find_match(&map, &query))
}

#[test]
fn exact() {
    let p = Vec::<u8>::from("asdf".as_bytes());
    let q = Vec::<u8>::from("asdf".as_bytes());
    assert_eq!("asdf".as_bytes().len(), match_length(&q, &p));
}

#[test]
fn longer_q() {
    let p = Vec::<u8>::from("asd".as_bytes());
    let q = Vec::<u8>::from("asdf".as_bytes());
    assert_eq!("asd".as_bytes().len(), match_length(&q, &p));
}

#[test]
fn longer_p() {
    let p = Vec::<u8>::from("asdf".as_bytes());
    let q = Vec::<u8>::from("asd".as_bytes());
    assert_eq!("asd".as_bytes().len(), match_length(&q, &p));
}

#[test]
fn both_zero() {
    let p = Vec::<u8>::from("".as_bytes());
    let q = Vec::<u8>::from("".as_bytes());
    assert_eq!(0, match_length(&q, &p));
}

#[test]
fn zero_q() {
    let p = Vec::<u8>::from("asdf".as_bytes());
    let q = Vec::<u8>::from("".as_bytes());
    assert_eq!(0, match_length(&q, &p));
}

#[test]
fn match_length_stops_at_the_first_difference() {
    let p = vec![1u8, 2, 9, 4];
    let q = vec![1u8, 2, 3, 4];
    assert_eq!(2, match_length(&q, &p));
}

#[test]
fn partial_match_overrides_a_full_match() {
    let mut map = OrderedVecMap::<Vec<u8>, u8>::new();
    map.insert((vec![1u8], 4u8));
    map.insert((vec![1u8, 1u8], 5u8));
    let query = vec![1u8];
    assert_eq!(Match::PartialMatch, find_match(&map, &query));
}

#[test]
fn a_key_that_parts_from_the_query_does_not_block() {
    let mut map = OrderedVecMap::<Vec<u8>, u8>::new();
    map.insert((vec![1u8], 4u8));
    map.insert((vec![1u8, 1u8], 5u8));
    let query = vec![1u8, 2u8];
    assert_eq!(Match::FullMatch(&(vec![1u8], 4u8)), find_match(&map, &query));
}

#[test]
fn an_empty_key_matches_nothing() {
    let mut map = OrderedVecMap::<Vec<u8>, u8>::new();
    map.insert((vec![], 4u8));
    let query = vec![1u8];
    assert_eq!(Match::NoMatch, find_match(&map, &query));
}

#[test]
fn the_search_passes_over_keys_that_sort_between() {
    let mut map = OrderedVecMap::<Vec<u8>, u8>::new();
    map.insert((vec![0u8, 9], 1u8));
    map.insert((vec![1u8], 2u8));
    map.insert((vec![1u8, 0], 3u8));
    map.insert((vec![1u8, 2], 4u8));
    map.insert((vec![1u8, 2, 0], 5u8));
    map.insert((vec![2u8], 6u8));
    let query = vec![1u8, 2, 3];
    assert_eq!(Match::FullMatch(&(vec![1u8, 2], 4u8)), find_match(&map, &query));
}

#[test]
fn disambiguation_map_refuses_the_empty_key() {
    let mut map = DisambiguationMap::<u8, u8>::new();
    assert_eq!(InsertionResult::InvalidKey, map.insert((vec![], 1u8)));
    assert_eq!(InsertionResult::Create, map.insert((vec![1u8], 1u8)));
    assert_eq!(InsertionResult::Overwrite, map.insert((vec![1u8], 2u8)));
}

#[test]
fn disambiguation_map_removes() {
    let mut map = DisambiguationMap::<u8, u8>::new();
    map.insert((vec![1u8, 2], 1u8));
    assert_eq!(RemovalResult::KeyNotFound, map.remove(&vec![1u8]));
    assert_eq!(RemovalResult::Removed, map.remove(&vec![1u8, 2]));
    let mut typeahead = Typeahead::<u8>::new();
    typeahead.push_back(1u8, RemapType::Remap);
    assert_eq!(Match::NoMatch, map.process(&typeahead, RemapType::Remap));
}

#[test]
fn disambiguation_map_matches_a_long_buffer() {
    let mut map = DisambiguationMap::<u8, u8>::new();
    map.insert((vec![1u8, 2], 7u8));
    let mut typeahead = Typeahead::<u8>::new();
    for k in [1u8, 2, 3, 4, 5, 6] {
        typeahead.push_back(k, RemapType::Remap);
    }
    assert_eq!(
        Match::FullMatch(&(vec![1u8, 2], 7u8)),
        map.process(&typeahead, RemapType::NotRelavant)
    );
    assert_eq!(6, typeahead.len());
}

#[test]
fn disambiguation_map_waits_on_a_prefix() {
    let mut map = DisambiguationMap::<u8, u8>::new();
    map.insert((vec![1u8, 2, 3], 7u8));
    let mut typeahead = Typeahead::<u8>::new();
    typeahead.push_back(1u8, RemapType::Remap);
    typeahead.push_back(2u8, RemapType::Remap);
    assert_eq!(Match::PartialMatch, map.process(&typeahead, RemapType::Remap));
}

#[test]
fn disambiguation_map_heeds_tags_for_remappings_only() {
    let mut map = DisambiguationMap::<u8, u8>::new();
    map.insert((vec![1u8], 7u8));
    map.insert((vec![1u8, 2], 8u8));
    let mut typeahead = Typeahead::<u8>::new();
    typeahead.push_back(1u8, RemapType::Remap);
    typeahead.push_back(2u8, RemapType::Noremap);
    assert_eq!(
        Match::FullMatch(&(vec![1u8], 7u8)),
        map.process(&typeahead, RemapType::Remap)
    );
    assert_eq!(
        Match::FullMatch(&(vec![1u8, 2], 8u8)),
        map.process(&typeahead, RemapType::NotRelavant)
    );
    let mut closed = Typeahead::<u8>::new();
    closed.push_back(1u8, RemapType::Noremap);
    assert_eq!(Match::NoMatch, map.process(&closed, RemapType::Remap));
    assert_eq!(Match::PartialMatch, map.process(&closed, RemapType::NotRelavant));
}

fn naive(keys: &Vec<Vec<u8>>, query: &Vec<u8>) -> Option<Option<Vec<u8>>> {
    // Some(None): partial; Some(Some(k)): full on k; None: no match.
    if query.is_empty() {
        return None;
    }
    let mut best: Option<Vec<u8>> = None;
    for k in keys {
        if k.len() > query.len() && k[..query.len()] == query[..] {
            return Some(None);
        }
        if !k.is_empty() && k.len() <= query.len() && query[..k.len()] == k[..] {
            if best.as_ref().map_or(true, |b| b.len() < k.len()) {
                best = Some(k.clone());
            }
        }
    }
    best.map(Some)
}

#[test]
fn find_match_agrees_with_the_rule_on_all_small_tables() {
    let mut sequences: Vec<Vec<u8>> = vec![vec![]];
    let mut layer: Vec<Vec<u8>> = vec![vec![]];
    for _ in 0..3 {
        let mut next = Vec::new();
        for s in &layer {
            for k in [1u8, 2] {
                let mut t = s.clone();
                t.push(k);
                next.push(t);
            }
        }
        sequences.extend(next.iter().cloned());
        layer = next;
    }
    let candidates: Vec<Vec<u8>> = sequences.iter().filter(|s| s.len() <= 2).cloned().collect();
    assert_eq!(7, candidates.len());
    for mask in 0u32..(1 << candidates.len()) {
        let mut keys = Vec::new();
        let mut map = OrderedVecMap::<Vec<u8>, u8>::new();
        for (i, k) in candidates.iter().enumerate() {
            if mask & (1 << i) != 0 {
                keys.push(k.clone());
                map.insert((k.clone(), i as u8));
            }
        }
        for query in &sequences {
            let expected = naive(&keys, query);
            match find_match(&map, query) {
                Match::PartialMatch => assert_eq!(Some(None), expected),
                Match::NoMatch => assert_eq!(None, expected),
                Match::FullMatch(entry) => assert_eq!(Some(Some(entry.0.clone())), expected),
            }
        }
    }
}
