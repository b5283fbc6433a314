//! Matching a typed key sequence against a table of mapped sequences, by Vi's
//! rule: the longest mapped sequence that the typed keys spell out wins, but
//! not while the typed keys could still grow into a longer mapped sequence.
//!
//! With `matched` the length of the common prefix of query and key:
//!
//! ```text
//! matched < query < key    no match
//! matched < key   < query  no match
//! matched < key   = query  no match
//! matched = query < key    partial match
//! matched = key   < query  full match
//! matched = key   = query  full match
//! ```
use crate::order::{
    common_prefix_len, lemma_common_prefix, lemma_seq_trichotomy, lemma_token_connected,
    lemma_token_lt_differs, seq_lt, Ordered, Token,
};
use crate::ordered_vec_map::{
    has_key, inserted, lemma_inserted_sorted, lemma_lower_bound, lower_bound, removed, sorted,
    splits_at, InsertionResult, OrderedVecMap, RemovalResult,
};
use crate::typeahead::{keys_of, remappable_run, remappable_run_from, RemapType, Typeahead};
use vstd::prelude::*;

verus! {

/// How a query stands to a table, or to a number.
#[derive(Clone, Debug, PartialEq)]
pub enum Match<T> {
    /// The query is resolved, with what it resolved to.
    FullMatch(T),
    /// More input may still complete the query.
    PartialMatch,
    /// The query resolves to nothing.
    NoMatch,
}

/// `key` starts with `query` and goes on after it.
pub open spec fn extends<K>(key: Seq<K>, query: Seq<K>) -> bool {
    query.len() < key.len() && key.take(query.len() as int) == query
}

/// Some key of `table` starts with `query` and goes on after it: more input
/// may still spell that key.
pub open spec fn awaits_more<K, T>(table: Map<Seq<K>, T>, query: Seq<K>) -> bool {
    exists|k: Seq<K>| #[trigger] table.contains_key(k) && extends(k, query)
}

/// The greatest length from 1 to `n` at which the start of `query` is a key of
/// `table`, or 0 where there is none.
pub open spec fn longest_key<K, T>(table: Map<Seq<K>, T>, query: Seq<K>, n: nat) -> nat
    decreases n,
{
    if n == 0 {
        0
    } else if table.contains_key(query.take(n as int)) {
        n
    } else {
        longest_key(table, query, (n - 1) as nat)
    }
}

/// The match of a query that waits for nothing: the longest key that the
/// query starts with, with its value.
pub open spec fn settle<K, T>(table: Map<Seq<K>, T>, query: Seq<K>) -> Match<(Seq<K>, T)> {
    let n = longest_key(table, query, query.len()) as int;
    if n > 0 {
        Match::FullMatch((query.take(n), table[query.take(n)]))
    } else {
        Match::NoMatch
    }
}

/// Vi's rule. A query that some key extends is a partial match, whatever
/// else it matches. Otherwise the longest key that the query starts with is
/// the full match, with its value. An empty query matches nothing.
pub open spec fn classify<K, T>(table: Map<Seq<K>, T>, query: Seq<K>) -> Match<(Seq<K>, T)> {
    if query.len() > 0 && awaits_more(table, query) {
        Match::PartialMatch
    } else {
        settle(table, query)
    }
}

/// Vi's rule for remappings, which leave alone what is tagged `Noremap`.
/// Only the entries at the front of `buffer` that are open to remapping are
/// matched. Where that is the whole buffer, more input may still follow and
/// the match is that of `classify`. Where an entry tagged `Noremap` ends
/// the run, nothing can follow within it, and the match waits for nothing.
pub open spec fn classify_remappable<K, T>(
    table: Map<Seq<K>, T>,
    buffer: Seq<(K, RemapType)>,
) -> Match<(Seq<K>, T)> {
    let run = remappable_run(buffer);
    if run == buffer.len() {
        classify(table, keys_of(buffer))
    } else {
        settle(table, keys_of(buffer).take(run as int))
    }
}

/// A match on a stored entry, told by the entry's key as a sequence.
pub open spec fn match_view<K, T>(m: Match<&(Vec<K>, T)>) -> Match<(Seq<K>, T)> {
    match m {
        Match::FullMatch(e) => Match::FullMatch((e.0@, e.1)),
        Match::PartialMatch => Match::PartialMatch,
        Match::NoMatch => Match::NoMatch,
    }
}

/// Some entry of `s` has the key `k`.
pub open spec fn holds<K, T>(s: Seq<(Vec<K>, T)>, k: Seq<K>) -> bool {
    exists|i: int| 0 <= i < s.len() && (#[trigger] s[i]).0@ == k
}

/// The entries of `s` as a map from key sequence to value.
pub open spec fn table_of<K, T>(s: Seq<(Vec<K>, T)>) -> Map<Seq<K>, T> {
    Map::new(
        |k: Seq<K>| holds(s, k),
        |k: Seq<K>| s[choose|i: int| 0 <= i < s.len() && (#[trigger] s[i]).0@ == k].1,
    )
}

/// In sorted entries every entry is the table's entry for its key.
pub proof fn lemma_table_entry<K: Token, T>(s: Seq<(Vec<K>, T)>, i: int)
    requires
        sorted(s),
        0 <= i < s.len(),
    ensures
        table_of(s).contains_key(s[i].0@),
        table_of(s)[s[i].0@] == s[i].1,
{
    let k = s[i].0@;
    let j = choose|j: int| 0 <= j < s.len() && (#[trigger] s[j]).0@ == k;
    lemma_seq_trichotomy(s[j].0@, s[i].0@);
}

/// Putting an entry into sorted entries is inserting into the table.
pub proof fn lemma_table_inserted<K: Token, T>(s: Seq<(Vec<K>, T)>, datum: (Vec<K>, T))
    requires
        sorted(s),
    ensures
        table_of(inserted(s, datum)) == table_of(s).insert(datum.0@, datum.1),
{
    let r = inserted(s, datum);
    let lb = lower_bound(s, &datum.0);
    lemma_lower_bound(s, &datum.0);
    lemma_inserted_sorted(s, datum);
    let a = table_of(r);
    let b = table_of(s).insert(datum.0@, datum.1);
    assert(r[lb] == datum);
    assert forall|k: Seq<K>| #[trigger] a.dom().contains(k) == b.dom().contains(k) by {
        if b.dom().contains(k) && k != datum.0@ {
            let si = choose|i: int| 0 <= i < s.len() && (#[trigger] s[i]).0@ == k;
            let i = if has_key(s, &datum.0) || si < lb { si } else { si + 1 };
            assert(r[i] == s[si]);
        }
    }
    assert forall|k: Seq<K>| #[trigger] a.dom().contains(k) implies a[k] == b[k] by {
        if k != datum.0@ {
            let si = choose|i: int| 0 <= i < s.len() && (#[trigger] s[i]).0@ == k;
            let i = if has_key(s, &datum.0) || si < lb { si } else { si + 1 };
            lemma_table_entry(r, i);
        }
    }
}

/// Taking an entry out of sorted entries is removing from the table.
pub proof fn lemma_table_removed<K: Token, T>(s: Seq<(Vec<K>, T)>, key: &Vec<K>)
    requires
        sorted(s),
    ensures
        table_of(removed(s, key)) == table_of(s).remove(key@),
{
    let r = removed(s, key);
    let lb = lower_bound(s, key);
    lemma_lower_bound(s, key);
    let a = table_of(r);
    let b = table_of(s).remove(key@);
    assert forall|k: Seq<K>| #[trigger] a.dom().contains(k) == b.dom().contains(k) by {
        if has_key(s, key) && b.dom().contains(k) {
            let si = choose|i: int| 0 <= i < s.len() && (#[trigger] s[i]).0@ == k;
            let i = if si < lb { si } else { si - 1 };
            assert(r[i] == s[si]);
        }
    }
    assert forall|k: Seq<K>| #[trigger] a.dom().contains(k) implies a[k] == b[k] by {
        if has_key(s, key) {
            let si = choose|i: int| 0 <= i < s.len() && (#[trigger] s[i]).0@ == k;
            let i = if si < lb { si } else { si - 1 };
            lemma_table_entry(r, i);
        }
    }
}

/// `key` stands to `query` as a full or a partial match does: they share a
/// start, and one of them ends where they part.
pub open spec fn candidate<K>(query: Seq<K>, key: Seq<K>) -> bool {
    let m = common_prefix_len(query, key);
    m > 0 && (m == query.len() || m == key.len())
}

/// Where no length from `low` up to `n` gives a key, the longest key is the
/// longest key up to `low`.
pub proof fn lemma_longest_key_skips<K, T>(table: Map<Seq<K>, T>, query: Seq<K>, low: nat, n: nat)
    requires
        low <= n,
        forall|m: int| low < m <= n ==> !table.contains_key(#[trigger] query.take(m)),
    ensures
        longest_key(table, query, n) == longest_key(table, query, low),
    decreases n,
{
    if low < n {
        lemma_longest_key_skips(table, query, low, (n - 1) as nat);
    }
}

/// The longest key is a key, no longer than the bound, and nothing between it
/// and the bound is a key.
pub proof fn lemma_longest_key<K, T>(table: Map<Seq<K>, T>, query: Seq<K>, n: nat)
    ensures
        longest_key(table, query, n) <= n,
        longest_key(table, query, n) > 0 ==> table.contains_key(
            query.take(longest_key(table, query, n) as int),
        ),
        forall|m: int|
            longest_key(table, query, n) < m <= n ==> !table.contains_key(#[trigger] query.take(m)),
    decreases n,
{
    if n > 0 && !table.contains_key(query.take(n as int)) {
        lemma_longest_key(table, query, (n - 1) as nat);
    }
}

/// A query cut off behind one key more than the longest key of the table
/// matches as the whole query does.
pub proof fn lemma_classify_capped<K, T>(
    table: Map<Seq<K>, T>,
    query: Seq<K>,
    longest: nat,
    cap: nat,
)
    requires
        forall|k: Seq<K>| #[trigger] table.contains_key(k) ==> k.len() <= longest,
        longest < cap <= query.len(),
    ensures
        classify(table, query.take(cap as int)) == classify(table, query),
        settle(table, query.take(cap as int)) == settle(table, query),
        !awaits_more(table, query.take(cap as int)),
{
    let short = query.take(cap as int);
    assert forall|m: int| 0 <= m <= cap implies #[trigger] short.take(m) == query.take(m) by {}
    assert forall|m: int| longest < m <= query.len() implies !table.contains_key(
        #[trigger] query.take(m),
    ) by {}
    assert forall|m: int| longest < m <= cap implies !table.contains_key(
        #[trigger] short.take(m),
    ) by {}
    lemma_longest_key_skips(table, query, longest, query.len());
    lemma_longest_key_skips(table, short, longest, cap);
    lemma_longest_key_same(table, query, short, longest);
    lemma_longest_key(table, query, longest);
}

/// Two queries that start alike have the same longest key within that start.
proof fn lemma_longest_key_same<K, T>(table: Map<Seq<K>, T>, a: Seq<K>, b: Seq<K>, n: nat)
    requires
        forall|m: int| 0 <= m <= n ==> #[trigger] a.take(m) == b.take(m),
    ensures
        longest_key(table, a, n) == longest_key(table, b, n),
    decreases n,
{
    if n > 0 {
        lemma_longest_key_same(table, a, b, (n - 1) as nat);
    }
}

/// The longest full match wins: where the query starts with several keys of
/// the table and none extends it, the match is the longest of them, at
/// length `n`, whatever shorter ones there are.
pub proof fn lemma_longest_full_match_wins<K, T>(table: Map<Seq<K>, T>, query: Seq<K>, n: nat)
    requires
        0 < n <= query.len(),
        table.contains_key(query.take(n as int)),
        forall|m: int| n < m <= query.len() ==> !table.contains_key(#[trigger] query.take(m)),
        !awaits_more(table, query),
    ensures
        classify(table, query) == Match::FullMatch(
            (query.take(n as int), table[query.take(n as int)]),
        ),
{
    lemma_longest_key_skips(table, query, n, query.len());
}

/// Ambiguity blocks the match: while some key of the table extends the
/// query, the match is partial, also where the query itself is a key.
pub proof fn lemma_extended_query_is_partial<K, T>(
    table: Map<Seq<K>, T>,
    query: Seq<K>,
    longer: Seq<K>,
)
    requires
        query.len() > 0,
        table.contains_key(longer),
        extends(longer, query),
    ensures
        classify(table, query) == Match::<(Seq<K>, T)>::PartialMatch,
{
}

/// No key of `table` begins with the key `first`.
pub open spec fn begins_none<K, T>(table: Map<Seq<K>, T>, first: K) -> bool {
    forall|k: Seq<K>| #[trigger] table.contains_key(k) && k.len() > 0 ==> k[0] != first
}

/// A query whose first key begins no key of the table matches nothing, at
/// any length, and waits for nothing.
pub proof fn lemma_unrelated_query_matches_nothing<K, T>(
    table: Map<Seq<K>, T>,
    query: Seq<K>,
    n: nat,
)
    requires
        query.len() > 0,
        n <= query.len(),
        begins_none(table, query[0]),
    ensures
        !awaits_more(table, query),
        settle(table, query.take(n as int)) == Match::<(Seq<K>, T)>::NoMatch,
{
    if awaits_more(table, query) {
        let k = choose|k: Seq<K>| #[trigger] table.contains_key(k) && extends(k, query);
        assert(k.take(query.len() as int)[0] == k[0]);
    }
    let q = query.take(n as int);
    assert forall|m: int| 0 < m <= q.len() implies !table.contains_key(#[trigger] q.take(m)) by {
        assert(q.take(m)[0] == query[0]);
    }
    lemma_longest_key_skips(table, q, 0, q.len());
}

/// Whether two tokens are the same key.
pub fn same<K: Token>(a: &K, b: &K) -> (r: bool)
    ensures
        r == (*a == *b),
{
    proof {
        lemma_token_connected(*a, *b);
        if a.lt(b) {
            lemma_token_lt_differs(*a, *b);
        }
    }
    !a.less(b) && !b.less(a)
}

/// The length of the longest common prefix of `query` and `probe`.
pub fn match_length<K: Token>(query: &Vec<K>, probe: &Vec<K>) -> (r: usize)
    ensures
        r == common_prefix_len(query@, probe@),
{
    let mut match_len: usize = 0;
    while match_len < probe.len() && match_len < query.len() && same(
        &probe[match_len],
        &query[match_len],
    )
        invariant
            match_len <= probe.len(),
            match_len <= query.len(),
            forall|j: int| 0 <= j < match_len ==> query@[j] == probe@[j],
        decreases probe.len() - match_len,
    {
        match_len = match_len + 1;
    }
    proof {
        lemma_common_prefix(query@, probe@);
    }
    match_len
}

/// A key that sorts before the one-key sequence of `first` shares no start
/// with a query that begins with `first`.
proof fn lemma_before_initial<K: Token>(query: Seq<K>, key: Seq<K>)
    requires
        query.len() > 0,
        seq_lt(key, seq![query[0]]),
    ensures
        common_prefix_len(query, key) == 0,
{
    lemma_common_prefix(key, seq![query[0]]);
}

/// A key that does not sort before the one-key sequence of `first`, and yet
/// shares no start with a query that begins with `first`, begins with a
/// greater token; and so does every key that sorts after it.
proof fn lemma_past_initial<K: Token>(query: Seq<K>, key: Seq<K>, later: Seq<K>)
    requires
        query.len() > 0,
        !seq_lt(key, seq![query[0]]),
        common_prefix_len(query, key) == 0,
        seq_lt(key, later) || key == later,
    ensures
        common_prefix_len(query, later) == 0,
{
    lemma_common_prefix(query, key);
    lemma_common_prefix(key, later);
    lemma_common_prefix(key, seq![query[0]]);
}

/// `key` is a candidate that the search takes up: any candidate where more
/// input may follow the query, and else one that the query starts with.
pub open spec fn admitted<K>(query: Seq<K>, key: Seq<K>, open_ended: bool) -> bool {
    candidate(query, key) && (open_ended || key.len() <= query.len())
}

/// A candidate no longer than the query is the start of the query.
proof fn lemma_candidate_prefix<K>(query: Seq<K>, key: Seq<K>)
    requires
        candidate(query, key),
        key.len() <= query.len(),
    ensures
        key == query.take(key.len() as int),
{
    lemma_common_prefix(query, key);
}

/// A candidate longer than the query extends it.
proof fn lemma_candidate_extends<K>(query: Seq<K>, key: Seq<K>)
    requires
        candidate(query, key),
        key.len() > query.len(),
    ensures
        extends(key, query),
{
    lemma_common_prefix(query, key);
    assert(key.take(query.len() as int) =~= query);
}

/// A key that the query starts with, or that extends the query, is a
/// candidate.
proof fn lemma_related_is_candidate<K>(query: Seq<K>, key: Seq<K>)
    requires
        query.len() > 0,
        key.len() > 0,
        extends(key, query) || (key.len() <= query.len() && key == query.take(key.len() as int)),
    ensures
        candidate(query, key),
        extends(key, query) ==> common_prefix_len(query, key) == query.len(),
        !extends(key, query) ==> common_prefix_len(query, key) == key.len(),
{
    lemma_common_prefix(query, key);
    if extends(key, query) {
        assert forall|j: int| 0 <= j < query.len() implies query[j] == key[j] by {}
    }
}

/// Matches `query` against the sorted entries of `map` by Vi's rule.
pub fn find_match<'a, K: Token, T>(map: &'a OrderedVecMap<Vec<K>, T>, query: &Vec<K>) -> (r: Match<
    &'a (Vec<K>, T),
>)
    requires
        map.wf(),
    ensures
        match_view(r) == classify(table_of(map@), query@),
{
    search(map, query, true)
}

/// Matches `query` against the sorted entries of `map`: by Vi's rule where
/// more input may follow the query, and else for the longest key that the
/// query starts with.
///
/// The search starts at the first key that begins with the first key of the
/// query, and walks on while the keys share a start with the query: behind
/// the first key that shares none, no key shares any.
fn search<'a, K: Token, T>(
    map: &'a OrderedVecMap<Vec<K>, T>,
    query: &Vec<K>,
    open_ended: bool,
) -> (r: Match<&'a (Vec<K>, T)>)
    requires
        map.wf(),
    ensures
        match_view(r) == if open_ended {
            classify(table_of(map@), query@)
        } else {
            settle(table_of(map@), query@)
        },
{
    let query_len = query.len();
    if query_len == 0 {
        return Match::NoMatch;
    }
    let count = map.len();
    let mut initial: Vec<K> = Vec::new();
    initial.push(query[0]);
    let start = match map.find_idx(&initial) {
        Ok(idx) => idx,
        Err(idx) => idx,
    };
    let mut index = start;
    let mut longest_match_key_len: usize = 0;
    let mut longest_match: Option<&(Vec<K>, T)> = None;
    let ghost best: int = 0;
    let ghost entries = map@;
    let ghost q = query@;
    proof {
        lemma_lower_bound(entries, &initial);
        assert forall|i: int| 0 <= i < start implies common_prefix_len(
            q,
            (#[trigger] entries[i]).0@,
        ) == 0 by {
            lemma_before_initial(q, entries[i].0@);
        }
    }
    loop
        invariant_except_break
            index <= entries.len(),
        invariant
            map.wf(),
            entries == map@,
            q == query@,
            q.len() > 0,
            query_len == q.len(),
            initial@ == seq![q[0]],
            count == entries.len(),
            start <= index,
            splits_at(entries, &initial, start as int),
            forall|i: int|
                0 <= i < index && i < entries.len() && admitted(
                    q,
                    (#[trigger] entries[i]).0@,
                    open_ended,
                ) ==> entries[i].0@.len() <= longest_match_key_len,
            match longest_match {
                Some(e) => 0 <= best < entries.len() && *e == entries[best] && admitted(
                    q,
                    entries[best].0@,
                    open_ended,
                ) && longest_match_key_len == entries[best].0@.len(),
                None => longest_match_key_len == 0,
            },
        ensures
            forall|i: int|
                0 <= i < entries.len() && admitted(q, (#[trigger] entries[i]).0@, open_ended)
                    ==> entries[i].0@.len() <= longest_match_key_len,
        decreases entries.len() - index,
    {
        let entry = map.get(index);
        match entry {
            None => {
                break ;
            },
            Some(kv) => {
                let match_len = match_length(query, &kv.0);
                if match_len == 0 {
                    proof {
                        assert forall|i: int|
                            index <= i < entries.len() implies !candidate(
                            q,
                            (#[trigger] entries[i]).0@,
                        ) by {
                            lemma_past_initial(q, entries[index as int].0@, entries[i].0@);
                        }
                    }
                    break ;
                }
                let key_len = kv.0.len();
                if (match_len >= key_len || (open_ended && match_len >= query_len)) && key_len
                    > longest_match_key_len {
                    proof {
                        lemma_common_prefix(q, kv.0@);
                        best = index as int;
                    }
                    longest_match = Some(kv);
                    longest_match_key_len = key_len;
                }
                index = index + 1;
            },
        }
    }
    proof {
        let table = table_of(entries);
        if longest_match_key_len > query_len {
            lemma_candidate_extends(q, entries[best].0@);
            lemma_table_entry(entries, best);
        } else {
            if open_ended {
                assert(!awaits_more(table, q)) by {
                    if awaits_more(table, q) {
                        let k = choose|k: Seq<K>| #[trigger] table.contains_key(k) && extends(k, q);
                        let i = choose|i: int|
                            0 <= i < entries.len() && (#[trigger] entries[i]).0@ == k;
                        lemma_related_is_candidate(q, k);
                    }
                }
            }
            let len = longest_match_key_len as nat;
            assert forall|m: int| len < m <= q.len() implies !table.contains_key(
                #[trigger] q.take(m),
            ) by {
                if table.contains_key(q.take(m)) {
                    let k = q.take(m);
                    let i = choose|i: int|
                        0 <= i < entries.len() && (#[trigger] entries[i]).0@ == k;
                    lemma_related_is_candidate(q, k);
                }
            }
            lemma_longest_key_skips(table, q, len, q.len());
            if longest_match is Some {
                lemma_candidate_prefix(q, entries[best].0@);
                lemma_table_entry(entries, best);
            }
        }
    }
    if longest_match_key_len > query_len {
        Match::PartialMatch
    } else {
        match longest_match {
            Some(entry) => Match::FullMatch(entry),
            None => Match::NoMatch,
        }
    }
}

/// A table of key sequences that is matched against typed keys.
pub struct DisambiguationMap<K: Token, T: Clone> {
    vec_map: OrderedVecMap<Vec<K>, T>,
    max_key_len: usize,
}

impl<K: Token, T: Clone> View for DisambiguationMap<K, T> {
    type V = Map<Seq<K>, T>;

    /// The table: what each mapped key sequence is mapped to.
    closed spec fn view(&self) -> Map<Seq<K>, T> {
        table_of(self.vec_map@)
    }
}

impl<K: Token, T: Clone> DisambiguationMap<K, T> {
    /// The entries are sorted, no key is empty, and none is longer than the
    /// length that the map keeps as its longest.
    pub closed spec fn wf(&self) -> bool {
        &&& self.vec_map.wf()
        &&& forall|i: int|
            0 <= i < self.vec_map@.len() ==> 0 < (#[trigger] self.vec_map@[i]).0@.len()
                <= self.max_key_len
    }

    /// A length that no key of the table exceeds.
    pub closed spec fn key_len_bound(&self) -> nat {
        self.max_key_len as nat
    }

    /// No key of a well-formed map is empty or longer than the bound.
    pub proof fn lemma_key_lengths(&self)
        requires
            self.wf(),
        ensures
            forall|k: Seq<K>| #[trigger]
                self@.contains_key(k) ==> 0 < k.len() <= self.key_len_bound(),
    {
    }

    /// An empty table.
    pub fn new() -> (r: Self)
        ensures
            r.wf(),
            r@ == Map::<Seq<K>, T>::empty(),
    {
        DisambiguationMap { vec_map: OrderedVecMap::new(), max_key_len: 0 }
    }

    /// Maps the key sequence of `datum` to its value. An empty key sequence
    /// is refused.
    pub fn insert(&mut self, datum: (Vec<K>, T)) -> (r: InsertionResult)
        requires
            old(self).wf(),
        ensures
            final(self).wf(),
            datum.0@.len() == 0 ==> r == InsertionResult::InvalidKey && final(self)@ == old(self)@,
            datum.0@.len() > 0 ==> final(self)@ == old(self)@.insert(datum.0@, datum.1),
            datum.0@.len() > 0 ==> r == if old(self)@.contains_key(datum.0@) {
                InsertionResult::Overwrite
            } else {
                InsertionResult::Create
            },
    {
        let key_len = datum.0.len();
        if key_len == 0 {
            return InsertionResult::InvalidKey;
        }
        proof {
            lemma_table_inserted(self.vec_map@, datum);
            lemma_lower_bound(self.vec_map@, &datum.0);
        }
        let result = self.vec_map.insert(datum);
        match result {
            InsertionResult::Create => {
                if key_len > self.max_key_len {
                    self.max_key_len = key_len;
                }
            },
            InsertionResult::Overwrite => {},
            InsertionResult::InvalidKey => {},
        }
        result
    }

    /// Takes the mapping of `key` out of the table.
    pub fn remove(&mut self, key: &Vec<K>) -> (r: RemovalResult)
        requires
            old(self).wf(),
        ensures
            final(self).wf(),
            final(self)@ == old(self)@.remove(key@),
            r == if old(self)@.contains_key(key@) {
                RemovalResult::Removed
            } else {
                RemovalResult::KeyNotFound
            },
    {
        proof {
            lemma_table_removed(self.vec_map@, key);
        }
        self.vec_map.remove(key)
    }

    /// Whether a lookup for `remap_type` goes by the tags of the keys:
    /// every lookup does but that of operations.
    pub open spec fn heeds_tags(remap_type: RemapType) -> bool {
        remap_type != RemapType::NotRelavant
    }

    /// The keys at the front of `typeahead` that a match can depend on, and
    /// whether more input may follow them. The keys end before the first key
    /// tagged `Noremap`, where the lookup goes by the tags, and behind one
    /// key more than the longest key of the table has.
    fn fill_query(&self, typeahead: &Typeahead<K>, remap_type: RemapType) -> (r: (Vec<K>, bool))
        ensures
            r.0@ == typeahead.keys().take(r.0@.len() as int),
            r.0@.len() <= typeahead@.len(),
            Self::heeds_tags(remap_type) ==> r.0@.len() <= remappable_run(typeahead@),
            r.0@.len() <= self.key_len_bound() + 1,
            r.1 ==> r.0@.len() == typeahead@.len() || r.0@.len() == self.key_len_bound() + 1,
            !r.1 ==> Self::heeds_tags(remap_type) && r.0@.len() == remappable_run(typeahead@)
                && r.0@.len() < typeahead@.len(),
    {
        let longest = self.max_key_len;
        let capacity = if typeahead.len() <= longest {
            typeahead.len()
        } else {
            longest + 1
        };
        let heed = !matches!(remap_type, RemapType::NotRelavant);
        let mut query = Vec::<K>::with_capacity(capacity);
        let mut open_ended = true;
        while query.len() < capacity
            invariant_except_break
                open_ended,
            invariant
                longest == self.key_len_bound(),
                capacity <= typeahead@.len(),
                capacity <= longest + 1,
                capacity == typeahead@.len() || capacity == longest + 1,
                heed == Self::heeds_tags(remap_type),
                query@.len() <= capacity,
                query@ == typeahead.keys().take(query@.len() as int),
                heed ==> query@.len() <= remappable_run(typeahead@),
                heed ==> remappable_run_from(typeahead@, query@.len()) == remappable_run(
                    typeahead@,
                ),
            ensures
                query@.len() <= capacity,
                query@ == typeahead.keys().take(query@.len() as int),
                heed ==> query@.len() <= remappable_run(typeahead@),
                open_ended ==> query@.len() == capacity,
                !open_ended ==> heed && query@.len() == remappable_run(typeahead@) && query@.len()
                    < typeahead@.len(),
            decreases capacity - query.len(),
        {
            let ghost n = query@.len() as int;
            match typeahead.get(query.len()) {
                Some((key, tag)) => {
                    if heed && matches!(tag, RemapType::Noremap) {
                        open_ended = false;
                        break ;
                    }
                    query.push(key);
                    proof {
                        lemma_remappable_run_from(typeahead@, (n + 1) as nat);
                    }
                },
                None => {},
            }
        }
        (query, open_ended)
    }

    /// Matches the keys in `typeahead` against the table: by Vi's rule, and
    /// for any `remap_type` but `NotRelavant` by Vi's rule for remappings.
    pub fn process(&self, typeahead: &Typeahead<K>, remap_type: RemapType) -> (r: Match<
        &(Vec<K>, T),
    >)
        requires
            self.wf(),
        ensures
            match_view(r) == if Self::heeds_tags(remap_type) {
                classify_remappable(self@, typeahead@)
            } else {
                classify(self@, typeahead.keys())
            },
    {
        let (query, open_ended) = self.fill_query(typeahead, remap_type);
        proof {
            let all = typeahead.keys();
            let bound = self.key_len_bound();
            let run = remappable_run(typeahead@);
            self.lemma_key_lengths();
            assert(all.take(all.len() as int) == all);
            lemma_remappable_run(typeahead@);
            if query@.len() == bound + 1 {
                lemma_classify_capped(self@, all, bound, query@.len());
                if Self::heeds_tags(remap_type) && run < all.len() {
                    let eligible = all.take(run as int);
                    assert(eligible.take(query@.len() as int) == query@);
                    lemma_classify_capped(self@, eligible, bound, query@.len());
                }
            }
        }
        search(&self.vec_map, &query, open_ended)
    }
}

/// The run of entries that are open to remapping is no longer than the
/// buffer.
pub proof fn lemma_remappable_run<K>(buffer: Seq<(K, RemapType)>)
    ensures
        remappable_run(buffer) <= buffer.len(),
{
    lemma_remappable_run_from(buffer, 0);
}

proof fn lemma_remappable_run_from<K>(buffer: Seq<(K, RemapType)>, i: nat)
    requires
        i <= buffer.len(),
    ensures
        i <= remappable_run_from(buffer, i) <= buffer.len(),
    decreases buffer.len() - i,
{
    if i < buffer.len() && buffer[i as int].1 != RemapType::Noremap {
        lemma_remappable_run_from(buffer, i + 1);
    }
}

} // verus!
