//! Operator-Pending mode: an operator was given and waits for the motion
//! or the text object that it is to act on.
use crate::command::{Command, Target};
use crate::disambiguation_map::{begins_none, Match};
use crate::mode::{
    kind_of, recast_pending, Mode, ModeKind, NextMode, Outcome, PendingMode, Transition,
};
use crate::mode_map::{
    lemma_unbound_keys_match_nothing, resolve, waiting, MapErr, MAX_REMAP_ITERATIONS,
};
use crate::op::PendingOp;
use crate::order::Token;
use crate::state::{Snapshot, State};
use crate::typeahead::{decimal_match, digit_of, digit_run, digit_run_from, keys_of, Parse};
use vstd::prelude::*;

verus! {

/// The product of two counts, kept at least 1 and within `i32`.
pub open spec fn times(a: i32, b: i32) -> i32 {
    if a * b < 1 {
        1
    } else if a * b > i32::MAX {
        i32::MAX
    } else {
        (a * b) as i32
    }
}

/// The state `at` once the pending operator has left: the count is 1, no
/// operator is pending, and the keys that wait stay.
pub open spec fn settled<K>(at: Snapshot<K>) -> Snapshot<K> {
    at.with_operator(None).with_count(1)
}

/// The state `at` once the pending operator has been applied to `target`:
/// the backend is asked to, with the count, where an operator is pending.
pub open spec fn operated<K>(at: Snapshot<K>, target: Target) -> Snapshot<K> {
    match at.operator {
        Some(operator) => settled(at.with_command(Command::Operate(operator, target, at.count))),
        None => settled(at),
    }
}

/// Where a transition of Operator-Pending mode leads from the state `s`,
/// with the remappings and operations of the mode, and `back` the mode to
/// go back to.
///
/// The keys that wait are resolved. A motion, a text object or an operator
/// that comes out is what the pending operator is applied to; `Cancel`
/// drops the pending operator; either way the mode goes back. Where nothing
/// is resolved the mode stays, with its operator and count: keys that are
/// the start of a longer binding wait for more input; else a count at the
/// front of the buffer multiplies the count and the transition begins anew
/// behind it; a buffer of digits alone waits for more; anything else is
/// dropped. A buffer that remappings rewrote without end is dropped, and so
/// is one that still begins with a count after `restarts` counts have been
/// read.
pub open spec fn pending_outcome<K: Parse>(
    back: NextMode,
    remaps: Map<Seq<K>, Seq<K>>,
    ops: Map<Seq<K>, PendingOp>,
    s: Snapshot<K>,
    restarts: nat,
) -> Outcome<K>
    decreases restarts,
{
    let res = resolve(remaps, ops, s.typeahead, MAX_REMAP_ITERATIONS as nat);
    let at = s.with_typeahead(res.buffer);
    let keys = keys_of(res.buffer);
    let dropped = at.with_typeahead(Seq::empty());
    match res.outcome {
        Err(MapErr::NoMatch) => if waiting(remaps, ops, res.buffer) {
            Outcome { mode: ModeKind::Pending(back), state: at }
        } else {
            match decimal_match(keys) {
                Match::FullMatch(n) => {
                    let counted = at.with_typeahead(
                        res.buffer.skip(digit_run(keys) as int),
                    ).with_count(times(at.count, n));
                    if restarts == 0 {
                        Outcome {
                            mode: ModeKind::Pending(back),
                            state: counted.with_typeahead(Seq::empty()),
                        }
                    } else {
                        pending_outcome(back, remaps, ops, counted, (restarts - 1) as nat)
                    }
                },
                Match::PartialMatch => Outcome { mode: ModeKind::Pending(back), state: at },
                Match::NoMatch => Outcome { mode: ModeKind::Pending(back), state: dropped },
            }
        },
        Err(MapErr::InfiniteRecursion) => Outcome {
            mode: ModeKind::Pending(back),
            state: dropped,
        },
        Ok(op) => match op {
            PendingOp::Cancel => Outcome { mode: kind_of(back), state: settled(at) },
            PendingOp::Operator(o) => Outcome {
                mode: kind_of(back),
                state: operated(at, Target::Operator(o)),
            },
            PendingOp::Motion(m) => Outcome {
                mode: kind_of(back),
                state: operated(at, Target::Motion(m)),
            },
            PendingOp::Object(o) => Outcome {
                mode: kind_of(back),
                state: operated(at, Target::Object(o)),
            },
        },
    }
}

/// Keys that are the start of a longer binding wait: the transition leaves
/// the state as it is, and the mode stays, with its operator.
pub proof fn lemma_pending_mode_waits<K: Parse>(
    back: NextMode,
    remaps: Map<Seq<K>, Seq<K>>,
    ops: Map<Seq<K>, PendingOp>,
    s: Snapshot<K>,
    restarts: nat,
)
    requires
        waiting(remaps, ops, s.typeahead),
    ensures
        pending_outcome(back, remaps, ops, s, restarts) == (Outcome {
            mode: ModeKind::Pending(back),
            state: s,
        }),
{
}

/// Keys that begin no binding and no count are dropped: the buffer is empty
/// afterwards, and the mode stays, with its operator and its count.
pub proof fn lemma_pending_mode_drops_unbound_keys<K: Parse>(
    back: NextMode,
    remaps: Map<Seq<K>, Seq<K>>,
    ops: Map<Seq<K>, PendingOp>,
    s: Snapshot<K>,
    restarts: nat,
)
    requires
        s.typeahead.len() > 0,
        digit_of(s.typeahead[0].0) is None,
        begins_none(remaps, s.typeahead[0].0),
        begins_none(ops, s.typeahead[0].0),
    ensures
        pending_outcome(back, remaps, ops, s, restarts) == (Outcome {
            mode: ModeKind::Pending(back),
            state: s.with_typeahead(Seq::empty()),
        }),
{
    lemma_unbound_keys_match_nothing(remaps, ops, s.typeahead, MAX_REMAP_ITERATIONS as nat);
    assert(decimal_match(keys_of(s.typeahead)) == Match::<i32>::NoMatch) by {
        reveal_with_fuel(digit_run_from, 2);
    }
}

/// Computes `times`.
fn multiply(a: i32, b: i32) -> (r: i32)
    ensures
        r == times(a, b),
{
    assert(-0x4000_0000_0000_0000 <= a * b <= 0x4000_0000_0000_0000) by (nonlinear_arith)
        requires
            -0x8000_0000 <= a <= 0x7fff_ffff,
            -0x8000_0000 <= b <= 0x7fff_ffff,
    ;
    let product: i64 = (a as i64) * (b as i64);
    if product < 1 {
        1
    } else if product > 0x7fff_ffff {
        i32::MAX
    } else {
        product as i32
    }
}

impl<K: Token + Parse> PendingMode<K> {
    /// Asks the backend to apply the pending operator to `target`, and lets
    /// the operator go.
    fn operate(&self, state: &mut State<K>, target: Target)
        requires
            old(state).wf(),
        ensures
            final(state).wf(),
            final(state).same_tables(old(state)),
            final(state).snapshot() == operated(old(state).snapshot(), target),
    {
        match state.operator {
            Some(operator) => {
                state.commands.push(Command::Operate(operator, target, state.count));
            },
            None => {},
        }
        state.operator = None;
        state.count = 1;
    }
}

impl<K: Token + Parse> Transition<K> for PendingMode<K> {
    open spec fn label(&self) -> Seq<char> {
        "Pending"@
    }

    open spec fn next(&self, state: &State<K>) -> Outcome<K> {
        pending_outcome(
            self.returns_to(),
            state.pending_mode_map.remaps(),
            state.pending_mode_map.ops(),
            state.snapshot(),
            MAX_REMAP_ITERATIONS as nat,
        )
    }

    fn name(&self) -> (r: &'static str) {
        "Pending"
    }

    fn transition(&self, state: &mut State<K>) -> (r: Mode<K>) {
        let mut restarts: usize = 0;
        let ghost goal = self.next(state);
        loop
            invariant
                state.wf(),
                state.same_tables(old(state)),
                restarts <= MAX_REMAP_ITERATIONS,
                goal == self.next(old(state)),
                goal == pending_outcome(
                    self.returns_to(),
                    state.pending_mode_map.remaps(),
                    state.pending_mode_map.ops(),
                    state.snapshot(),
                    (MAX_REMAP_ITERATIONS - restarts) as nat,
                ),
            decreases MAX_REMAP_ITERATIONS - restarts,
        {
            match state.pending_mode_map.process(&mut state.typeahead) {
                Err(MapErr::NoMatch) => {
                    if state.pending_mode_map.waits(&state.typeahead) {
                        return recast_pending(self);
                    }
                    match state.typeahead.parse_decimal() {
                        Match::FullMatch(n) => {
                            state.count = multiply(state.count, n);
                            if restarts >= MAX_REMAP_ITERATIONS {
                                state.typeahead.clear();
                                return recast_pending(self);
                            }
                            restarts = restarts + 1;
                        },
                        Match::PartialMatch => {
                            return recast_pending(self);
                        },
                        Match::NoMatch => {
                            state.typeahead.clear();
                            return recast_pending(self);
                        },
                    }
                },
                Err(MapErr::InfiniteRecursion) => {
                    state.typeahead.clear();
                    return recast_pending(self);
                },
                Ok(op) => {
                    match op {
                        PendingOp::Cancel => {
                            state.operator = None;
                            state.count = 1;
                        },
                        PendingOp::Operator(o) => {
                            self.operate(state, Target::Operator(o));
                        },
                        PendingOp::Motion(m) => {
                            self.operate(state, Target::Motion(m));
                        },
                        PendingOp::Object(o) => {
                            self.operate(state, Target::Object(o));
                        },
                    }
                    return self.next_mode();
                },
            }
        }
    }
}

} // verus!
