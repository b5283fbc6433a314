//! The typeahead buffer: the keys that were typed, or put back by a remapping,
//! and still wait to be resolved.
use crate::disambiguation_map::Match;
use std::collections::vec_deque::Iter;
use std::collections::VecDeque;
use std::ops::Range;
use vstd::prelude::*;

verus! {

/// What a key token stands for when it is read as text.
pub trait Parse {
    /// The character of this key where it may be part of a number.
    spec fn as_decimal(&self) -> Option<char>;

    /// The character of this key where it is text.
    spec fn as_character(&self) -> Option<char>;

    /// Computes `as_decimal`.
    fn decimal(&self) -> (r: Option<char>)
        ensures
            r == self.as_decimal(),
    ;

    /// Computes `as_character`.
    fn character(&self) -> (r: Option<char>)
        ensures
            r == self.as_character(),
    ;
}

/// Whether a key in the buffer may be rewritten by a remapping. As the
/// kind of a lookup it says whether the lookup goes by these tags.
#[derive(Copy, Clone, Debug, PartialEq, Eq, Structural)]
pub enum RemapType {
    /// For lookups of operations, which do not go by the tags.
    NotRelavant,
    /// Keys that may be remapped again and again.
    Remap,
    /// Keys that remappings leave alone.
    Noremap,
    /// Keys that script-local mappings may rewrite.
    Script,
    /// Keys that may be expanded as abbreviations.
    Abbreviation,
}

/// A double-ended queue of keys, each with its remap tag. The front is the
/// key that was typed first.
#[derive(Debug, PartialEq)]
pub struct Typeahead<K: Copy> {
    buffer: VecDeque<(K, RemapType)>,
}

/// Walks the keys of a typeahead buffer from the front, without their tags.
pub struct TypeaheadValueIterator<'a, K: Copy> {
    buffer: &'a VecDeque<(K, RemapType)>,
    position: usize,
}

/// The keys of `entries`, without their tags.
pub open spec fn keys_of<K>(entries: Seq<(K, RemapType)>) -> Seq<K> {
    entries.map_values(|e: (K, RemapType)| e.0)
}

/// The keys of `keys`, each tagged `remap_type`.
pub open spec fn tagged<K>(keys: Seq<K>, remap_type: RemapType) -> Seq<(K, RemapType)> {
    keys.map_values(|k: K| (k, remap_type))
}

/// How many entries from index `i` on are open to remapping, one after the
/// other: the run ends before the first entry tagged `Noremap`.
pub open spec fn remappable_run_from<K>(entries: Seq<(K, RemapType)>, i: nat) -> nat
    decreases entries.len() - i,
{
    if i < entries.len() && entries[i as int].1 != RemapType::Noremap {
        remappable_run_from(entries, i + 1)
    } else {
        i
    }
}

/// The number of entries at the front of `entries` that are open to
/// remapping.
pub open spec fn remappable_run<K>(entries: Seq<(K, RemapType)>) -> nat {
    remappable_run_from(entries, 0)
}

/// The value of `key` as a decimal digit, if it is one.
pub open spec fn digit_of<K: Parse>(key: K) -> Option<int> {
    match key.as_decimal() {
        Some(c) => if '0' <= c && c <= '9' {
            Some(c as int - '0' as int)
        } else {
            None
        },
        None => None,
    }
}

/// How many keys from index `i` on are decimal digits, one after the other.
pub open spec fn digit_run_from<K: Parse>(keys: Seq<K>, i: nat) -> nat
    decreases keys.len() - i,
{
    if i < keys.len() && digit_of(keys[i as int]) is Some {
        digit_run_from(keys, i + 1)
    } else {
        i
    }
}

/// The number of decimal digits that `keys` starts with.
pub open spec fn digit_run<K: Parse>(keys: Seq<K>) -> nat {
    digit_run_from(keys, 0)
}

/// The number that the first `n` keys spell in decimal.
pub open spec fn decimal_value<K: Parse>(keys: Seq<K>, n: nat) -> int
    decreases n,
{
    if n == 0 {
        0
    } else {
        decimal_value(keys, (n - 1) as nat) * 10 + digit_of(keys[n - 1])->0
    }
}

/// `v`, or the largest `i32` where `v` is beyond it.
pub open spec fn clamped(v: int) -> int {
    if v > i32::MAX {
        i32::MAX as int
    } else {
        v
    }
}

/// What `parse_decimal` makes of `keys`: a number once a key that is no digit
/// has ended a run of digits, `PartialMatch` while every key is a digit,
/// `NoMatch` where the first key is none.
pub open spec fn decimal_match<K: Parse>(keys: Seq<K>) -> Match<i32> {
    let n = digit_run(keys);
    if n == keys.len() {
        Match::PartialMatch
    } else if n == 0 {
        Match::NoMatch
    } else {
        Match::FullMatch(clamped(decimal_value(keys, n)) as i32)
    }
}

/// How many keys from index `i` on are text, one after the other.
pub open spec fn text_run_from<K: Parse>(keys: Seq<K>, i: nat) -> nat
    decreases keys.len() - i,
{
    if i < keys.len() && keys[i as int].as_character() is Some {
        text_run_from(keys, i + 1)
    } else {
        i
    }
}

/// The number of text keys that `keys` starts with.
pub open spec fn text_run<K: Parse>(keys: Seq<K>) -> nat {
    text_run_from(keys, 0)
}

/// The characters of the first `n` keys.
pub open spec fn text_of<K: Parse>(keys: Seq<K>, n: nat) -> Seq<char> {
    Seq::new(n, |i: int| keys[i].as_character()->0)
}

/// `String::push` of the standard library: the string afterwards is the
/// string before with `ch` behind its last character.
pub assume_specification[ String::push ](s: &mut String, ch: char)
    ensures
        final(s)@ == old(s)@.push(ch),
;

impl<'a, K: Copy> TypeaheadValueIterator<'a, K> {
    /// The keys that are still to come.
    pub closed spec fn remaining(&self) -> Seq<K> {
        if self.position <= self.buffer@.len() {
            keys_of(self.buffer@.skip(self.position as int))
        } else {
            Seq::empty()
        }
    }

    /// The next key, if any is left.
    pub fn next(&mut self) -> (r: Option<K>)
        ensures
            r == if old(self).remaining().len() > 0 {
                Some(old(self).remaining()[0])
            } else {
                None
            },
            final(self).remaining() == if old(self).remaining().len() > 0 {
                old(self).remaining().drop_first()
            } else {
                old(self).remaining()
            },
    {
        broadcast use vstd::std_specs::vecdeque::axiom_spec_len;

        if self.position < self.buffer.len() {
            let key = self.buffer[self.position].0;
            self.position = self.position + 1;
            Some(key)
        } else {
            None
        }
    }
}

impl<K: Copy> View for Typeahead<K> {
    type V = Seq<(K, RemapType)>;

    /// The tagged keys, the front first.
    closed spec fn view(&self) -> Seq<(K, RemapType)> {
        self.buffer@
    }
}

impl<K: Copy> Typeahead<K> {
    /// The keys in the buffer, the front first.
    pub open spec fn keys(&self) -> Seq<K> {
        keys_of(self@)
    }

    /// An empty buffer.
    pub fn new() -> (r: Self)
        ensures
            r@ == Seq::<(K, RemapType)>::empty(),
    {
        Typeahead { buffer: VecDeque::new() }
    }

    /// Drops every key.
    pub fn clear(&mut self)
        ensures
            final(self)@ == Seq::<(K, RemapType)>::empty(),
    {
        self.buffer.clear();
    }

    /// The number of keys that wait.
    pub fn len(&self) -> (r: usize)
        ensures
            r == self@.len(),
    {
        broadcast use vstd::std_specs::vecdeque::axiom_spec_len;

        self.buffer.len()
    }

    /// Whether no key waits.
    pub fn is_empty(&self) -> (r: bool)
        ensures
            r == (self@.len() == 0),
    {
        broadcast use vstd::std_specs::vecdeque::axiom_spec_len;

        self.buffer.len() == 0
    }

    /// The tagged key at position `idx`, counted from the front.
    pub fn get(&self, idx: usize) -> (r: Option<(K, RemapType)>)
        ensures
            r == if idx < self@.len() {
                Some(self@[idx as int])
            } else {
                None
            },
    {
        broadcast use vstd::std_specs::vecdeque::axiom_spec_len;

        if idx < self.buffer.len() {
            Some(self.buffer[idx])
        } else {
            None
        }
    }

    /// An iterator over the tagged keys, the front first.
    pub fn iter(&self) -> (r: Iter<'_, (K, RemapType)>)
        ensures
            vstd::std_specs::iter::IteratorSpec::remaining(&r) == self@.as_ref(),
            vstd::std_specs::iter::IteratorSpec::decrease(&r) is Some,
            vstd::std_specs::iter::IteratorSpec::initial_value_relation(&r, &r),
    {
        broadcast use vstd::std_specs::vecdeque::axiom_spec_iter;

        self.buffer.iter()
    }

    /// An iterator over the keys alone, the front first.
    pub fn value_iter(&self) -> (r: TypeaheadValueIterator<'_, K>)
        ensures
            r.remaining() == self.keys(),
    {
        TypeaheadValueIterator { buffer: &self.buffer, position: 0 }
    }

    /// Takes the key at the front.
    pub fn pop_front(&mut self) -> (r: Option<(K, RemapType)>)
        ensures
            r == if old(self)@.len() > 0 {
                Some(old(self)@[0])
            } else {
                None
            },
            final(self)@ == if old(self)@.len() > 0 {
                old(self)@.drop_first()
            } else {
                old(self)@
            },
    {
        self.buffer.pop_front()
    }

    /// Takes the key at the back.
    pub fn pop_back(&mut self) -> (r: Option<(K, RemapType)>)
        ensures
            r == if old(self)@.len() > 0 {
                Some(old(self)@.last())
            } else {
                None
            },
            final(self)@ == if old(self)@.len() > 0 {
                old(self)@.drop_last()
            } else {
                old(self)@
            },
    {
        self.buffer.pop_back()
    }

    /// Puts a key before the front.
    pub fn push_front(&mut self, value: K, remap_type: RemapType)
        ensures
            final(self)@ == seq![(value, remap_type)] + old(self)@,
    {
        self.buffer.push_front((value, remap_type));
    }

    /// Puts a key behind the back.
    pub fn push_back(&mut self, value: K, remap_type: RemapType)
        ensures
            final(self)@ == old(self)@.push((value, remap_type)),
    {
        self.buffer.push_back((value, remap_type));
    }

    /// Puts the keys of `value` before the front, in their order, each tagged
    /// `remap_type`.
    pub fn put_front(&mut self, value: &Vec<K>, remap_type: RemapType)
        ensures
            final(self)@ == tagged(value@, remap_type) + old(self)@,
    {
        let mut i: usize = value.len();
        while i > 0
            invariant
                i <= value.len(),
                self@ == tagged(value@, remap_type).skip(i as int) + old(self)@,
            decreases i,
        {
            i = i - 1;
            self.push_front(value[i], remap_type);
        }
    }

    /// Takes the keys at the positions of `range` out of the buffer and hands
    /// them back in their order; the keys before and behind them close up.
    pub fn drain(&mut self, range: Range<usize>) -> (r: Vec<(K, RemapType)>)
        requires
            range.start <= range.end <= old(self)@.len(),
        ensures
            r@ == old(self)@.subrange(range.start as int, range.end as int),
            final(self)@ == old(self)@.subrange(0, range.start as int) + old(self)@.subrange(
                range.end as int,
                old(self)@.len() as int,
            ),
    {
        let mut taken: Vec<(K, RemapType)> = Vec::new();
        let mut i: usize = range.start;
        let ghost before = old(self)@;
        while i < range.end
            invariant
                range.start <= i <= range.end <= before.len(),
                taken@ == before.subrange(range.start as int, i as int),
                self@ == before.subrange(0, range.start as int) + before.subrange(
                    i as int,
                    before.len() as int,
                ),
            decreases range.end - i,
        {
            let entry = self.buffer.remove(range.start);
            match entry {
                Some(e) => {
                    taken.push(e);
                },
                None => {},
            }
            i = i + 1;
        }
        taken
    }
}

impl<K: Copy + Parse> Typeahead<K> {
    /// Reads a decimal number off the front of the buffer.
    ///
    /// Gives `FullMatch` with the number, and takes its digits out of the
    /// buffer, once a key that is no digit has ended the run of digits; a
    /// number beyond the largest `i32` counts as that largest. Gives
    /// `PartialMatch` while every key in the buffer is a digit, since more may
    /// follow, and `NoMatch` where the first key is no digit; both leave the
    /// buffer as it is.
    pub fn parse_decimal(&mut self) -> (r: Match<i32>)
        ensures
            r == decimal_match(old(self).keys()),
            final(self)@ == if r is FullMatch {
                old(self)@.skip(digit_run(old(self).keys()) as int)
            } else {
                old(self)@
            },
    {
        broadcast use vstd::std_specs::vecdeque::axiom_spec_len;

        let ghost keys = self.keys();
        let mut n: usize = 0;
        let mut value: i32 = 0;
        while n < self.buffer.len()
            invariant
                keys == self.keys(),
                self@ == old(self)@,
                n <= keys.len(),
                digit_run_from(keys, n as nat) == digit_run(keys),
                forall|j: int| 0 <= j < n ==> digit_of(#[trigger] keys[j]) is Some,
                value == clamped(decimal_value(keys, n as nat)),
                0 <= decimal_value(keys, n as nat),
            ensures
                digit_run(keys) == n,
            decreases keys.len() - n,
        {
            let digit: i32 = match self.buffer[n].0.decimal() {
                Some(c) => if '0' <= c && c <= '9' {
                    (c as u32 - '0' as u32) as i32
                } else {
                    break ;
                },
                None => {
                    break ;
                },
            };
            value = if value > (i32::MAX - digit) / 10 {
                i32::MAX
            } else {
                value * 10 + digit
            };
            n = n + 1;
        }
        if n == self.buffer.len() {
            Match::PartialMatch
        } else if n == 0 {
            Match::NoMatch
        } else {
            let end = n;
            let _ = self.drain(Range { start: 0, end });
            proof {
                assert(old(self)@.subrange(0, 0) + old(self)@.subrange(
                    n as int,
                    old(self)@.len() as int,
                ) == old(self)@.skip(n as int));
            }
            Match::FullMatch(value)
        }
    }

    /// Reads text off the front of the buffer: the characters of the keys up
    /// to the first key that is no text. Those keys leave the buffer.
    pub fn parse_string(&mut self) -> (r: String)
        ensures
            r@ == text_of(old(self).keys(), text_run(old(self).keys())),
            final(self)@ == old(self)@.skip(text_run(old(self).keys()) as int),
    {
        broadcast use vstd::std_specs::vecdeque::axiom_spec_len;

        let ghost keys = self.keys();
        let mut s = String::new();
        let mut n: usize = 0;
        while n < self.buffer.len()
            invariant
                keys == self.keys(),
                self@ == old(self)@,
                n <= keys.len(),
                text_run_from(keys, n as nat) == text_run(keys),
                s@ == text_of(keys, n as nat),
            ensures
                text_run(keys) == n,
            decreases keys.len() - n,
        {
            match self.buffer[n].0.character() {
                Some(c) => {
                    s.push(c);
                },
                None => {
                    break ;
                },
            }
            n = n + 1;
        }
        let end = n;
        let _ = self.drain(Range { start: 0, end });
        proof {
            assert(old(self)@.subrange(0, 0) + old(self)@.subrange(
                n as int,
                old(self)@.len() as int,
            ) == old(self)@.skip(n as int));
        }
        s
    }
}

} // verus!
