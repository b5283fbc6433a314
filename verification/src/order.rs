//! Orderings on keys.
//!
//! [`Ordered`] is what a sorted table asks of its keys: a strict order with a
//! notion of "same key", and an executable comparison that decides it.
//! [`Token`] narrows that to single keystrokes, for which "same key" is plain
//! equality. Sequences of tokens are ordered lexicographically.
use vstd::prelude::*;

verus! {

/// A strict total order up to the equivalence `eqv`.
pub trait Ordered: Sized {
    /// `self` sorts strictly before `other`.
    spec fn lt(&self, other: &Self) -> bool;

    /// `self` and `other` are the same key.
    spec fn eqv(&self, other: &Self) -> bool;

    /// Exactly one of "before", "same" and "after" holds of any two keys.
    proof fn lemma_trichotomy(a: &Self, b: &Self)
        ensures
            a.lt(b) || a.eqv(b) || b.lt(a),
            !(a.lt(b) && a.eqv(b)),
            !(a.lt(b) && b.lt(a)),
            !(a.eqv(b) && b.lt(a)),
    ;

    /// The order is transitive.
    proof fn lemma_lt_transitive(a: &Self, b: &Self, c: &Self)
        requires
            a.lt(b),
            b.lt(c),
        ensures
            a.lt(c),
    ;

    /// Equivalent keys stand in the same place of the order.
    proof fn lemma_eqv_respects_lt(a: &Self, b: &Self, c: &Self)
        requires
            a.eqv(b),
        ensures
            a.lt(c) == b.lt(c),
            c.lt(a) == c.lt(b),
            a.eqv(c) == b.eqv(c),
    ;

    /// Decides `lt`.
    fn less(&self, other: &Self) -> (r: bool)
        ensures
            r == self.lt(other),
    ;
}

/// A single keystroke: ordered, copyable, and the same key only as itself.
pub trait Token: Ordered + Copy {
    /// Two tokens are the same key exactly when they are equal.
    proof fn lemma_eqv_is_equality(a: &Self, b: &Self)
        ensures
            a.eqv(b) == (*a == *b),
    ;
}

impl Ordered for u8 {
    open spec fn lt(&self, other: &Self) -> bool {
        *self < *other
    }

    open spec fn eqv(&self, other: &Self) -> bool {
        *self == *other
    }

    proof fn lemma_trichotomy(a: &Self, b: &Self) {
    }

    proof fn lemma_lt_transitive(a: &Self, b: &Self, c: &Self) {
    }

    proof fn lemma_eqv_respects_lt(a: &Self, b: &Self, c: &Self) {
    }

    fn less(&self, other: &Self) -> (r: bool) {
        *self < *other
    }
}

impl Token for u8 {
    proof fn lemma_eqv_is_equality(a: &Self, b: &Self) {
    }
}

/// How far `a` and `b` agree, scanning on from index `i`.
pub open spec fn common_prefix_from<K>(a: Seq<K>, b: Seq<K>, i: nat) -> nat
    decreases a.len() - i,
{
    if i < a.len() && i < b.len() && a[i as int] == b[i as int] {
        common_prefix_from(a, b, i + 1)
    } else {
        i
    }
}

/// The length of the longest common prefix of `a` and `b`.
pub open spec fn common_prefix_len<K>(a: Seq<K>, b: Seq<K>) -> nat {
    common_prefix_from(a, b, 0)
}

/// `a` comes before `b` in the lexicographic order: at the first place where
/// they part, `a` has ended or holds the smaller token.
pub open spec fn seq_lt<K: Token>(a: Seq<K>, b: Seq<K>) -> bool {
    let c = common_prefix_len(a, b) as int;
    c < b.len() && (c == a.len() || a[c].lt(&b[c]))
}

/// `c` is where `a` and `b` first part.
pub open spec fn parts_at<K>(a: Seq<K>, b: Seq<K>, c: nat) -> bool {
    &&& c <= a.len()
    &&& c <= b.len()
    &&& forall|j: int| 0 <= j < c ==> a[j] == b[j]
    &&& (c < a.len() && c < b.len() ==> a[c as int] != b[c as int])
}

proof fn lemma_common_prefix_parts<K>(a: Seq<K>, b: Seq<K>, i: nat)
    requires
        i <= a.len(),
        i <= b.len(),
        forall|j: int| 0 <= j < i ==> a[j] == b[j],
    ensures
        parts_at(a, b, common_prefix_from(a, b, i)),
    decreases a.len() - i,
{
    if i < a.len() && i < b.len() && a[i as int] == b[i as int] {
        lemma_common_prefix_parts(a, b, i + 1);
    }
}

/// The common prefix length is the one place at which two sequences part.
pub proof fn lemma_common_prefix<K>(a: Seq<K>, b: Seq<K>)
    ensures
        parts_at(a, b, common_prefix_len(a, b)),
        forall|c: nat| parts_at(a, b, c) ==> c == common_prefix_len(a, b),
        common_prefix_len(a, b) == common_prefix_len(b, a),
{
    lemma_common_prefix_parts(a, b, 0);
    lemma_common_prefix_parts(b, a, 0);
}

/// Tokens that are ordered differ.
pub proof fn lemma_token_lt_differs<K: Token>(x: K, y: K)
    requires
        x.lt(&y),
    ensures
        x != y,
        !y.lt(&x),
{
    K::lemma_trichotomy(&x, &y);
}

/// Of two different tokens one comes before the other.
pub proof fn lemma_token_connected<K: Token>(x: K, y: K)
    ensures
        x.lt(&y) || y.lt(&x) || x == y,
{
    K::lemma_trichotomy(&x, &y);
    K::lemma_eqv_is_equality(&x, &y);
}

/// Of two sequences one comes before the other, or they are equal.
pub proof fn lemma_seq_trichotomy<K: Token>(a: Seq<K>, b: Seq<K>)
    ensures
        seq_lt(a, b) || a == b || seq_lt(b, a),
        !(seq_lt(a, b) && a == b),
        !(seq_lt(a, b) && seq_lt(b, a)),
{
    lemma_common_prefix(a, b);
    let c = common_prefix_len(a, b) as int;
    if c < a.len() && c < b.len() {
        lemma_token_connected(a[c], b[c]);
        if a[c].lt(&b[c]) {
            lemma_token_lt_differs(a[c], b[c]);
        }
    }
}

/// The lexicographic order is transitive.
pub proof fn lemma_seq_lt_transitive<K: Token>(a: Seq<K>, b: Seq<K>, c: Seq<K>)
    requires
        seq_lt(a, b),
        seq_lt(b, c),
    ensures
        seq_lt(a, c),
{
    lemma_common_prefix(a, b);
    lemma_common_prefix(b, c);
    lemma_common_prefix(a, c);
    let p = common_prefix_len(a, b);
    let q = common_prefix_len(b, c);
    let m = if p < q { p } else { q };
    if p < a.len() {
        lemma_token_lt_differs(a[p as int], b[p as int]);
    }
    if p == q && p < a.len() {
        K::lemma_lt_transitive(&a[m as int], &b[m as int], &c[m as int]);
    }
}

impl<K: Token> Ordered for Vec<K> {
    open spec fn lt(&self, other: &Self) -> bool {
        seq_lt(self@, other@)
    }

    open spec fn eqv(&self, other: &Self) -> bool {
        self@ == other@
    }

    proof fn lemma_trichotomy(a: &Self, b: &Self) {
        lemma_seq_trichotomy(a@, b@);
    }

    proof fn lemma_lt_transitive(a: &Self, b: &Self, c: &Self) {
        lemma_seq_lt_transitive(a@, b@, c@);
    }

    proof fn lemma_eqv_respects_lt(a: &Self, b: &Self, c: &Self) {
    }

    fn less(&self, other: &Self) -> (r: bool) {
        let mut i: usize = 0;
        while i < self.len() && i < other.len()
            invariant
                i <= self.len(),
                i <= other.len(),
                forall|j: int| 0 <= j < i ==> self@[j] == other@[j],
            decreases self.len() - i,
        {
            if self[i].less(&other[i]) {
                proof {
                    lemma_token_lt_differs(self@[i as int], other@[i as int]);
                    lemma_common_prefix(self@, other@);
                }
                return true;
            }
            if other[i].less(&self[i]) {
                proof {
                    lemma_common_prefix(self@, other@);
                }
                return false;
            }
            proof {
                lemma_token_connected(self@[i as int], other@[i as int]);
            }
            i += 1;
        }
        proof {
            lemma_common_prefix(self@, other@);
        }
        i < other.len()
    }
}

} // verus!
