//! Normal mode.
//!
//! The keys that wait are first resolved against the bindings of the mode.
//! Only where that resolves nothing, and the keys are not the start of a
//! longer binding, is a count read off the front of the buffer: a remapping
//! of digits therefore takes effect as soon as it is typed, before the
//! digits can be read as a count.
use crate::command::Command;
use crate::disambiguation_map::{begins_none, Match};
use crate::mode::{
    insert, normal, pending, recast_normal, replace, Mode, ModeKind, NextMode, NormalMode, Outcome,
    Transition,
};
use crate::mode_map::{
    lemma_unbound_keys_match_nothing, resolve, waiting, MapErr, MAX_REMAP_ITERATIONS,
};
use crate::op::NormalOp;
use crate::order::Token;
use crate::state::{Snapshot, State};
use crate::typeahead::{decimal_match, digit_of, digit_run, digit_run_from, keys_of, Parse};
use vstd::prelude::*;

verus! {

/// A count of at least 1: `n`, or 1 where `n` is less.
pub open spec fn at_least_one(n: i32) -> i32 {
    if n < 1 {
        1
    } else {
        n
    }
}

/// Where a transition of Normal mode leads from the state `s`, with the
/// remappings and operations of the mode.
///
/// The keys that wait are resolved. An operation that comes out is carried
/// out: `Cancel` drops what was begun; `Insert` and `ReplaceMode` change the
/// mode; an operator becomes pending; a motion, `ReplaceChar` and `Repeat`
/// go to the backend with the count, which is 1 again afterwards. Where
/// nothing is resolved, keys that are the start of a longer binding wait
/// for more input; else a count at the front of the buffer is read and the
/// transition begins anew behind it; a buffer of digits alone waits for
/// more; anything else is dropped. A buffer that remappings rewrote without
/// end is dropped, and so is one that still begins with a count after
/// `restarts` counts have been read.
pub open spec fn normal_outcome<K: Parse>(
    remaps: Map<Seq<K>, Seq<K>>,
    ops: Map<Seq<K>, NormalOp>,
    s: Snapshot<K>,
    restarts: nat,
) -> Outcome<K>
    decreases restarts,
{
    let res = resolve(remaps, ops, s.typeahead, MAX_REMAP_ITERATIONS as nat);
    let at = s.with_typeahead(res.buffer);
    let keys = keys_of(res.buffer);
    let dropped = at.with_typeahead(Seq::empty());
    match res.outcome {
        Err(MapErr::NoMatch) => if waiting(remaps, ops, res.buffer) {
            Outcome { mode: ModeKind::Normal, state: at }
        } else {
            match decimal_match(keys) {
                Match::FullMatch(n) => {
                    let counted = at.with_typeahead(
                        res.buffer.skip(digit_run(keys) as int),
                    ).with_count(at_least_one(n));
                    if restarts == 0 {
                        Outcome {
                            mode: ModeKind::Normal,
                            state: counted.with_typeahead(Seq::empty()),
                        }
                    } else {
                        normal_outcome(remaps, ops, counted, (restarts - 1) as nat)
                    }
                },
                Match::PartialMatch => Outcome { mode: ModeKind::Normal, state: at },
                Match::NoMatch => Outcome { mode: ModeKind::Normal, state: dropped },
            }
        },
        Err(MapErr::InfiniteRecursion) => Outcome { mode: ModeKind::Normal, state: dropped },
        Ok(op) => match op {
            NormalOp::Cancel => Outcome { mode: ModeKind::Normal, state: at.cancelled() },
            NormalOp::Insert => Outcome { mode: ModeKind::Insert(false), state: at },
            NormalOp::ReplaceChar => Outcome {
                mode: ModeKind::Normal,
                state: at.with_command(Command::ReplaceChar(at.count)).with_count(1),
            },
            NormalOp::ReplaceMode => Outcome { mode: ModeKind::Insert(true), state: at },
            NormalOp::Repeat => Outcome {
                mode: ModeKind::Normal,
                state: at.with_command(Command::Repeat(at.count)).with_count(1),
            },
            NormalOp::Operator(o) => Outcome {
                mode: ModeKind::Pending(NextMode::Normal),
                state: at.with_operator(Some(o)),
            },
            NormalOp::Motion(m) => Outcome {
                mode: ModeKind::Normal,
                state: at.with_command(Command::Motion(m, at.count)).with_count(1),
            },
        },
    }
}

/// Keys that are the start of a longer binding wait: the transition leaves
/// the state as it is, and the mode stays.
pub proof fn lemma_normal_mode_waits<K: Parse>(
    remaps: Map<Seq<K>, Seq<K>>,
    ops: Map<Seq<K>, NormalOp>,
    s: Snapshot<K>,
    restarts: nat,
)
    requires
        waiting(remaps, ops, s.typeahead),
    ensures
        normal_outcome(remaps, ops, s, restarts) == (Outcome { mode: ModeKind::Normal, state: s }),
{
}

/// Keys that begin no binding and no count are dropped: the buffer is empty
/// afterwards, nothing else changes, and the mode stays.
pub proof fn lemma_normal_mode_drops_unbound_keys<K: Parse>(
    remaps: Map<Seq<K>, Seq<K>>,
    ops: Map<Seq<K>, NormalOp>,
    s: Snapshot<K>,
    restarts: nat,
)
    requires
        s.typeahead.len() > 0,
        digit_of(s.typeahead[0].0) is None,
        begins_none(remaps, s.typeahead[0].0),
        begins_none(ops, s.typeahead[0].0),
    ensures
        normal_outcome(remaps, ops, s, restarts) == (Outcome {
            mode: ModeKind::Normal,
            state: s.with_typeahead(Seq::empty()),
        }),
{
    lemma_unbound_keys_match_nothing(remaps, ops, s.typeahead, MAX_REMAP_ITERATIONS as nat);
    assert(decimal_match(keys_of(s.typeahead)) == Match::<i32>::NoMatch) by {
        reveal_with_fuel(digit_run_from, 2);
    }
}

impl<K: Token + Parse> Transition<K> for NormalMode<K> {
    open spec fn label(&self) -> Seq<char> {
        "Normal"@
    }

    open spec fn next(&self, state: &State<K>) -> Outcome<K> {
        normal_outcome(
            state.normal_mode_map.remaps(),
            state.normal_mode_map.ops(),
            state.snapshot(),
            MAX_REMAP_ITERATIONS as nat,
        )
    }

    fn name(&self) -> (r: &'static str) {
        "Normal"
    }

    fn transition(&self, state: &mut State<K>) -> (r: Mode<K>) {
        let mut restarts: usize = 0;
        let ghost goal = self.next(state);
        loop
            invariant
                state.wf(),
                state.same_tables(old(state)),
                restarts <= MAX_REMAP_ITERATIONS,
                goal == self.next(old(state)),
                goal == normal_outcome(
                    state.normal_mode_map.remaps(),
                    state.normal_mode_map.ops(),
                    state.snapshot(),
                    (MAX_REMAP_ITERATIONS - restarts) as nat,
                ),
            decreases MAX_REMAP_ITERATIONS - restarts,
        {
            match state.normal_mode_map.process(&mut state.typeahead) {
                Err(MapErr::NoMatch) => {
                    if state.normal_mode_map.waits(&state.typeahead) {
                        return recast_normal(self);
                    }
                    match state.typeahead.parse_decimal() {
                        Match::FullMatch(n) => {
                            state.count = if n < 1 {
                                1
                            } else {
                                n
                            };
                            if restarts >= MAX_REMAP_ITERATIONS {
                                state.typeahead.clear();
                                return normal();
                            }
                            restarts = restarts + 1;
                        },
                        Match::PartialMatch => {
                            return recast_normal(self);
                        },
                        Match::NoMatch => {
                            state.typeahead.clear();
                            return normal();
                        },
                    }
                },
                Err(MapErr::InfiniteRecursion) => {
                    state.typeahead.clear();
                    return normal();
                },
                Ok(op) => {
                    match op {
                        NormalOp::Cancel => {
                            state.cancel();
                            return normal();
                        },
                        NormalOp::Insert => {
                            return insert();
                        },
                        NormalOp::ReplaceChar => {
                            state.commands.push(Command::ReplaceChar(state.count));
                            state.count = 1;
                            return normal();
                        },
                        NormalOp::ReplaceMode => {
                            return replace();
                        },
                        NormalOp::Repeat => {
                            state.commands.push(Command::Repeat(state.count));
                            state.count = 1;
                            return normal();
                        },
                        NormalOp::Operator(o) => {
                            state.operator = Some(o);
                            return pending(NextMode::Normal);
                        },
                        NormalOp::Motion(m) => {
                            state.commands.push(Command::Motion(m, state.count));
                            state.count = 1;
                            return normal();
                        },
                    }
                },
            }
        }
    }
}

} // verus!
