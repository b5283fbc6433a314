//! The tables of one mode: remappings, from key sequence to key sequence, and
//! operations, from key sequence to an operation of the mode; and the loop
//! that resolves the front of the typeahead buffer against both.
use crate::disambiguation_map::{
    awaits_more, begins_none, classify, classify_remappable, extends,
    lemma_longest_full_match_wins, lemma_longest_key, lemma_remappable_run,
    lemma_unrelated_query_matches_nothing, longest_key, settle, DisambiguationMap, Match,
};
use crate::order::{lemma_seq_trichotomy, Ordered, Token};
use crate::ordered_vec_map::InsertionResult;
use crate::typeahead::{keys_of, remappable_run, tagged, RemapType, Typeahead};
use std::ops::Range;
use vstd::prelude::*;

verus! {

/// Why no operation came out of the typeahead buffer.
#[derive(Clone, Debug, PartialEq)]
pub enum MapErr {
    /// Nothing matches, or what matches may still grow into something longer.
    NoMatch,
    /// Remappings went on rewriting the buffer beyond the bound.
    InfiniteRecursion,
}

/// How many rounds of matching one call of `process` may take.
pub const MAX_REMAP_ITERATIONS: usize = 1000;

/// `table` with `key` bound to `value`; an empty `key` binds nothing.
pub open spec fn put<K, V>(table: Map<Seq<K>, V>, key: Seq<K>, value: V) -> Map<Seq<K>, V> {
    if key.len() == 0 {
        table
    } else {
        table.insert(key, value)
    }
}

/// What binding `key` in `table` reports.
pub open spec fn put_result<K, V>(table: Map<Seq<K>, V>, key: Seq<K>) -> InsertionResult {
    if key.len() == 0 {
        InsertionResult::InvalidKey
    } else if table.contains_key(key) {
        InsertionResult::Overwrite
    } else {
        InsertionResult::Create
    }
}

/// What resolving leaves behind: the outcome and the typeahead buffer.
pub struct Resolution<K, Op> {
    pub outcome: Result<Op, MapErr>,
    pub buffer: Seq<(K, RemapType)>,
}

/// A remap table with its targets as sequences.
pub open spec fn targets<K>(table: Map<Seq<K>, Vec<K>>) -> Map<Seq<K>, Seq<K>> {
    table.map_values(|v: Vec<K>| v@)
}

/// The keys in `buffer` wait for more input: a key of the operations extends
/// them, or a key of the remappings does and all of the buffer is open to
/// remapping. What waits is ambiguous: more keys may still spell the longer
/// key.
pub open spec fn waiting<K, Op>(
    remaps: Map<Seq<K>, Seq<K>>,
    ops: Map<Seq<K>, Op>,
    buffer: Seq<(K, RemapType)>,
) -> bool {
    buffer.len() > 0 && (awaits_more(ops, keys_of(buffer)) || (remappable_run(buffer)
        == buffer.len() && awaits_more(remaps, keys_of(buffer))))
}

/// Resolves `buffer` against the two tables in at most `rounds` rounds.
///
/// A round matches the keys of the buffer against the operations, and those
/// at its front that are open to remapping against the remappings. While
/// the keys wait for more input nothing is resolved. A full match of a
/// remapping goes first: its keys leave the front of the buffer, its target
/// takes their place, tagged `Remap`, and the next round begins. Else a full
/// match of an operation takes its keys off the buffer and is the outcome.
/// Else nothing matches. A buffer that still asks for a round when none is
/// left has been rewritten without end.
pub open spec fn resolve<K, Op>(
    remaps: Map<Seq<K>, Seq<K>>,
    ops: Map<Seq<K>, Op>,
    buffer: Seq<(K, RemapType)>,
    rounds: nat,
) -> Resolution<K, Op>
    decreases rounds,
{
    let keys = keys_of(buffer);
    let remap = classify_remappable(remaps, buffer);
    let op = classify(ops, keys);
    if buffer.len() == 0 {
        Resolution { outcome: Err(MapErr::NoMatch), buffer }
    } else if rounds == 0 {
        Resolution { outcome: Err(MapErr::InfiniteRecursion), buffer }
    } else if waiting(remaps, ops, buffer) {
        Resolution { outcome: Err(MapErr::NoMatch), buffer }
    } else if remap is FullMatch {
        let (key, target) = remap->FullMatch_0;
        resolve(
            remaps,
            ops,
            tagged(target, RemapType::Remap) + buffer.skip(key.len() as int),
            (rounds - 1) as nat,
        )
    } else if op is FullMatch {
        let (key, value) = op->FullMatch_0;
        Resolution { outcome: Ok(value), buffer: buffer.skip(key.len() as int) }
    } else {
        Resolution { outcome: Err(MapErr::NoMatch), buffer }
    }
}

/// A match on a remap table, with its target as a sequence.
pub open spec fn target_view<K>(m: Match<(Seq<K>, Vec<K>)>) -> Match<(Seq<K>, Seq<K>)> {
    match m {
        Match::FullMatch((key, target)) => Match::FullMatch((key, target@)),
        Match::PartialMatch => Match::PartialMatch,
        Match::NoMatch => Match::NoMatch,
    }
}

/// Matching against a remap table goes by its keys alone: with the targets
/// taken as sequences the match is the same, on the target as a sequence.
pub proof fn lemma_classify_targets<K>(table: Map<Seq<K>, Vec<K>>, query: Seq<K>)
    ensures
        classify(targets(table), query) == target_view(classify(table, query)),
        settle(targets(table), query) == target_view(settle(table, query)),
{
    let seqs = targets(table);
    assert forall|k: Seq<K>| #[trigger] seqs.contains_key(k) == table.contains_key(k) by {}
    lemma_longest_key_targets(table, query, query.len());
    lemma_longest_key(table, query, query.len());
    if awaits_more(table, query) {
        let k = choose|k: Seq<K>| #[trigger] table.contains_key(k) && extends(k, query);
        assert(seqs.contains_key(k));
    }
    if awaits_more(seqs, query) {
        let k = choose|k: Seq<K>| #[trigger] seqs.contains_key(k) && extends(k, query);
    }
}

proof fn lemma_longest_key_targets<K>(table: Map<Seq<K>, Vec<K>>, query: Seq<K>, n: nat)
    ensures
        longest_key(targets(table), query, n) == longest_key(table, query, n),
    decreases n,
{
    if n > 0 {
        assert(targets(table).contains_key(query.take(n as int)) == table.contains_key(
            query.take(n as int),
        ));
        lemma_longest_key_targets(table, query, (n - 1) as nat);
    }
}

/// An operation resolves at the longest key that the buffer spells out.
///
/// Where no remapping matches the buffer, no key of the operations extends
/// it, and `n` is the greatest length at which the front of the buffer is a
/// key of the operations, the outcome is the operation of that key, and
/// exactly its `n` keys leave the buffer: shorter keys do not win, and what
/// was typed behind the match stays.
pub proof fn lemma_longest_op_resolves<K, Op>(
    remaps: Map<Seq<K>, Seq<K>>,
    ops: Map<Seq<K>, Op>,
    buffer: Seq<(K, RemapType)>,
    rounds: nat,
    n: nat,
)
    requires
        rounds > 0,
        0 < n <= buffer.len(),
        ops.contains_key(keys_of(buffer).take(n as int)),
        forall|m: int|
            n < m <= buffer.len() ==> !ops.contains_key(#[trigger] keys_of(buffer).take(m)),
        !awaits_more(ops, keys_of(buffer)),
        classify_remappable(remaps, buffer) is NoMatch,
    ensures
        resolve(remaps, ops, buffer, rounds) == (Resolution {
            outcome: Ok(ops[keys_of(buffer).take(n as int)]),
            buffer: buffer.skip(n as int),
        }),
{
    lemma_longest_full_match_wins(ops, keys_of(buffer), n);
}

/// Ambiguity blocks resolution: while a key of the operations extends the
/// keys in the buffer, or a key of the remappings does and all of the buffer
/// is open to remapping, nothing is resolved and the buffer stays as it is,
/// also where those keys are themselves mapped.
pub proof fn lemma_ambiguity_blocks<K, Op>(
    remaps: Map<Seq<K>, Seq<K>>,
    ops: Map<Seq<K>, Op>,
    buffer: Seq<(K, RemapType)>,
    rounds: nat,
)
    requires
        rounds > 0,
        waiting(remaps, ops, buffer),
    ensures
        resolve(remaps, ops, buffer, rounds) == (Resolution {
            outcome: Err::<Op, MapErr>(MapErr::NoMatch),
            buffer,
        }),
{
}

/// What begins no key of either table resolves to nothing, waits for
/// nothing, and stays in the buffer as it is.
pub proof fn lemma_unbound_keys_match_nothing<K, Op>(
    remaps: Map<Seq<K>, Seq<K>>,
    ops: Map<Seq<K>, Op>,
    buffer: Seq<(K, RemapType)>,
    rounds: nat,
)
    requires
        rounds > 0,
        buffer.len() > 0,
        begins_none(remaps, buffer[0].0),
        begins_none(ops, buffer[0].0),
    ensures
        !waiting(remaps, ops, buffer),
        resolve(remaps, ops, buffer, rounds) == (Resolution {
            outcome: Err::<Op, MapErr>(MapErr::NoMatch),
            buffer,
        }),
{
    let keys = keys_of(buffer);
    lemma_remappable_run(buffer);
    lemma_unrelated_query_matches_nothing(remaps, keys, remappable_run(buffer));
    lemma_unrelated_query_matches_nothing(remaps, keys, keys.len());
    lemma_unrelated_query_matches_nothing(ops, keys, keys.len());
    assert(keys.take(keys.len() as int) == keys);
}

/// A remapping goes before an operation: where the keys in the buffer are
/// open to remapping, are remapped, and nothing extends them, the buffer is
/// rewritten to their target and resolved from there, whether or not an
/// operation is bound to the same keys.
pub proof fn lemma_remap_precedes_op<K, Op>(
    remaps: Map<Seq<K>, Seq<K>>,
    ops: Map<Seq<K>, Op>,
    buffer: Seq<(K, RemapType)>,
    rounds: nat,
)
    requires
        rounds > 0,
        buffer.len() > 0,
        remappable_run(buffer) == buffer.len(),
        remaps.contains_key(keys_of(buffer)),
        !awaits_more(remaps, keys_of(buffer)),
        !awaits_more(ops, keys_of(buffer)),
    ensures
        resolve(remaps, ops, buffer, rounds) == resolve(
            remaps,
            ops,
            tagged(remaps[keys_of(buffer)], RemapType::Remap),
            (rounds - 1) as nat,
        ),
{
    let keys = keys_of(buffer);
    assert(keys.take(keys.len() as int) == keys);
}

/// A cycle of remappings ends: where `a` is remapped to `b` and `b` to `a`,
/// and nothing else is remapped, a buffer that holds `a` alone, or `b`, open
/// to remapping, has `InfiniteRecursion` for its outcome when the rounds run
/// out, as long as no operation waits for more keys behind `a` or `b`.
pub proof fn lemma_remap_cycle_ends<K, Op>(
    ops: Map<Seq<K>, Op>,
    a: K,
    b: K,
    first: (K, RemapType),
    rounds: nat,
)
    requires
        a != b,
        first.0 == a || first.0 == b,
        first.1 != RemapType::Noremap,
        !awaits_more(ops, seq![a]),
        !awaits_more(ops, seq![b]),
    ensures
        resolve(swapped(a, b), ops, seq![first], rounds).outcome == Err::<Op, MapErr>(
            MapErr::InfiniteRecursion,
        ),
    decreases rounds,
{
    if rounds > 0 {
        let remaps = swapped(a, b);
        let buffer = seq![first];
        let keys = keys_of(buffer);
        let other = if first.0 == a { b } else { a };
        assert(keys =~= seq![first.0]);
        assert(remappable_run(buffer) == 1) by {
            reveal_with_fuel(crate::typeahead::remappable_run_from, 3);
        }
        assert(seq![a] != seq![b]) by {
            assert(seq![a][0] == a);
        }
        assert(!awaits_more(remaps, keys)) by {
            if awaits_more(remaps, keys) {
                let k = choose|k: Seq<K>| #[trigger] remaps.contains_key(k) && extends(k, keys);
            }
        }
        lemma_remap_precedes_op(remaps, ops, buffer, rounds);
        assert(tagged(seq![other], RemapType::Remap) =~= seq![(other, RemapType::Remap)]);
        lemma_remap_cycle_ends(ops, a, b, (other, RemapType::Remap), (rounds - 1) as nat);
    }
}

/// What is tagged `Noremap` goes past the remappings: a buffer whose first
/// key is tagged so resolves as it would if nothing were remapped.
pub proof fn lemma_noremap_bypasses_remaps<K, Op>(
    remaps: Map<Seq<K>, Seq<K>>,
    ops: Map<Seq<K>, Op>,
    buffer: Seq<(K, RemapType)>,
    rounds: nat,
)
    requires
        buffer.len() > 0,
        buffer[0].1 == RemapType::Noremap,
    ensures
        resolve(remaps, ops, buffer, rounds) == resolve(
            Map::<Seq<K>, Seq<K>>::empty(),
            ops,
            buffer,
            rounds,
        ),
{
}

/// The remappings that take `a` to `b` and `b` to `a`.
pub open spec fn swapped<K>(a: K, b: K) -> Map<Seq<K>, Seq<K>> {
    Map::<Seq<K>, Seq<K>>::empty().insert(seq![a], seq![b]).insert(seq![b], seq![a])
}

/// The remappings and the operations of one mode.
pub struct ModeMap<K: Token, Op: Copy> {
    remap_map: DisambiguationMap<K, Vec<K>>,
    op_map: DisambiguationMap<K, Op>,
}

impl<K: Token, Op: Copy> ModeMap<K, Op> {
    /// Both tables are well formed.
    pub closed spec fn wf(&self) -> bool {
        self.remap_map.wf() && self.op_map.wf()
    }

    /// The remappings: key sequence to the sequence that takes its place.
    pub closed spec fn remaps(&self) -> Map<Seq<K>, Seq<K>> {
        targets(self.remap_map@)
    }

    /// The operations: key sequence to operation.
    pub closed spec fn ops(&self) -> Map<Seq<K>, Op> {
        self.op_map@
    }

    /// A mode without remappings and operations.
    pub fn new() -> (r: Self)
        ensures
            r.wf(),
            r.remaps() == Map::<Seq<K>, Seq<K>>::empty(),
            r.ops() == Map::<Seq<K>, Op>::empty(),
    {
        let r = ModeMap { remap_map: DisambiguationMap::new(), op_map: DisambiguationMap::new() };
        r
    }

    /// Resolves the front of `typeahead` to an operation, rewriting it by the
    /// remappings on the way, in at most `MAX_REMAP_ITERATIONS` rounds.
    pub fn process(&self, typeahead: &mut Typeahead<K>) -> (r: Result<Op, MapErr>)
        requires
            self.wf(),
        ensures
            (Resolution { outcome: r, buffer: final(typeahead)@ }) == resolve(
                self.remaps(),
                self.ops(),
                old(typeahead)@,
                MAX_REMAP_ITERATIONS as nat,
            ),
    {
        let mut i: usize = 0;
        let ghost goal = resolve(
            self.remaps(),
            self.ops(),
            old(typeahead)@,
            MAX_REMAP_ITERATIONS as nat,
        );
        while typeahead.len() > 0
            invariant
                self.wf(),
                i <= MAX_REMAP_ITERATIONS,
                goal == resolve(
                    self.remaps(),
                    self.ops(),
                    old(typeahead)@,
                    MAX_REMAP_ITERATIONS as nat,
                ),
                resolve(
                    self.remaps(),
                    self.ops(),
                    typeahead@,
                    (MAX_REMAP_ITERATIONS - i) as nat,
                ) == goal,
            decreases MAX_REMAP_ITERATIONS - i,
        {
            if i >= MAX_REMAP_ITERATIONS {
                return Err(MapErr::InfiniteRecursion);
            }
            i = i + 1;
            let remap_result = self.remap_map.process(typeahead, RemapType::Remap);
            let op_result = self.op_map.process(typeahead, RemapType::NotRelavant);
            proof {
                let keys = typeahead.keys();
                let run = remappable_run(typeahead@);
                lemma_remappable_run(typeahead@);
                lemma_classify_targets(self.remap_map@, keys);
                lemma_classify_targets(self.remap_map@, keys.take(run as int));
                lemma_longest_key(self.remap_map@, keys, keys.len());
                lemma_longest_key(self.remap_map@, keys.take(run as int), run);
                lemma_longest_key(self.op_map@, keys, keys.len());
            }
            match (remap_result, op_result) {
                (Match::PartialMatch, _) | (_, Match::PartialMatch) => {
                    return Err(MapErr::NoMatch);
                },
                (Match::FullMatch(mapped), _) => {
                    let end = mapped.0.len();
                    let _ = typeahead.drain(Range { start: 0, end });
                    typeahead.put_front(&mapped.1, RemapType::Remap);
                },
                (Match::NoMatch, Match::FullMatch(mapped)) => {
                    let end = mapped.0.len();
                    let _ = typeahead.drain(Range { start: 0, end });
                    return Ok(mapped.1);
                },
                (Match::NoMatch, Match::NoMatch) => {
                    return Err(MapErr::NoMatch);
                },
            }
        }
        Err(MapErr::NoMatch)
    }

    /// Whether the keys in `typeahead` wait for more input: whether they
    /// are the start of a longer key of either table. `process` resolves
    /// nothing while they do, and nothing either where nothing matches; this
    /// tells the one from the other.
    pub fn waits(&self, typeahead: &Typeahead<K>) -> (r: bool)
        requires
            self.wf(),
        ensures
            r == waiting(self.remaps(), self.ops(), typeahead@),
    {
        let remap_result = self.remap_map.process(typeahead, RemapType::Remap);
        let op_result = self.op_map.process(typeahead, RemapType::NotRelavant);
        proof {
            let keys = typeahead.keys();
            let run = remappable_run(typeahead@);
            lemma_remappable_run(typeahead@);
            lemma_classify_targets(self.remap_map@, keys);
            lemma_classify_targets(self.remap_map@, keys.take(run as int));
        }
        matches!(remap_result, Match::PartialMatch) || matches!(op_result, Match::PartialMatch)
    }

    /// Maps the key sequence `key` to the operation `value`. An empty `key`
    /// is refused.
    pub fn insert_op(&mut self, key: Vec<K>, value: Op) -> (r: InsertionResult)
        requires
            old(self).wf(),
        ensures
            final(self).wf(),
            final(self).remaps() == old(self).remaps(),
            final(self).ops() == put(old(self).ops(), key@, value),
            r == put_result(old(self).ops(), key@),
    {
        if key.len() == 0 {
            InsertionResult::InvalidKey
        } else {
            self.op_map.insert((key, value))
        }
    }

    /// Remaps the key sequence `key` to the sequence `value`. An empty `key`
    /// is refused, and so is a `key` that equals `value`.
    pub fn insert_remap(&mut self, key: Vec<K>, value: Vec<K>) -> (r: InsertionResult)
        requires
            old(self).wf(),
        ensures
            final(self).wf(),
            final(self).ops() == old(self).ops(),
            key@ == value@ ==> r == InsertionResult::InvalidKey,
            key@ == value@ ==> final(self).remaps() == old(self).remaps(),
            key@ != value@ ==> final(self).remaps() == put(old(self).remaps(), key@, value@) && r
                == put_result(old(self).remaps(), key@),
    {
        proof {
            lemma_seq_trichotomy(key@, value@);
        }
        if key.len() == 0 || (!key.less(&value) && !value.less(&key)) {
            InsertionResult::InvalidKey
        } else {
            let ghost before = self.remap_map@;
            let r = self.remap_map.insert((key, value));
            proof {
                assert(targets(before.insert(key@, value)) =~= targets(before).insert(
                    key@,
                    value@,
                ));
            }
            r
        }
    }
}

} // verus!
