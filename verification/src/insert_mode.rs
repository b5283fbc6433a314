//! Insert mode: what is bound is carried out, and what is not is text.
use crate::command::{typed, typed_char, Command};
use crate::disambiguation_map::{classify, classify_remappable};
use crate::key::parse::chars_of;
use crate::mode::{normal, InsertMode, Mode, ModeKind, Outcome, Transition};
use crate::mode_map::{resolve, MapErr, MAX_REMAP_ITERATIONS};
use crate::op::InsertOp;
use crate::order::Token;
use crate::state::{Snapshot, State};
use crate::typeahead::{keys_of, text_of, text_run, Parse};
use vstd::prelude::*;

verus! {

/// Where a transition of Insert mode leads from the state `s`, with the
/// remappings and operations of the mode; `replaces` tells plain Insert
/// mode from Replace mode.
///
/// The keys that wait are resolved. `Cancel` goes back to Normal mode, and
/// so does `Quit`, which also drops what was begun. Any other operation
/// goes to the backend as it is, and the mode stays. Where nothing is
/// resolved, the keys at the front of the buffer that are text are typed:
/// each goes to the backend as a character to insert, a line feed or
/// carriage return as a line break. A buffer that remappings rewrote
/// without end is dropped.
pub open spec fn insert_outcome<K: Parse>(
    replaces: bool,
    remaps: Map<Seq<K>, Seq<K>>,
    ops: Map<Seq<K>, InsertOp>,
    s: Snapshot<K>,
) -> Outcome<K> {
    let res = resolve(remaps, ops, s.typeahead, MAX_REMAP_ITERATIONS as nat);
    let at = s.with_typeahead(res.buffer);
    let keys = keys_of(res.buffer);
    let n = text_run(keys);
    match res.outcome {
        Err(MapErr::NoMatch) => Outcome {
            mode: ModeKind::Insert(replaces),
            state: Snapshot {
                typeahead: res.buffer.skip(n as int),
                count: at.count,
                operator: at.operator,
                commands: at.commands + typed(text_of(keys, n)),
            },
        },
        Err(MapErr::InfiniteRecursion) => Outcome {
            mode: ModeKind::Insert(replaces),
            state: at.with_typeahead(Seq::empty()),
        },
        Ok(InsertOp::Cancel) => Outcome { mode: ModeKind::Normal, state: at },
        Ok(InsertOp::Quit) => Outcome { mode: ModeKind::Normal, state: at.cancelled() },
        Ok(op) => Outcome {
            mode: ModeKind::Insert(replaces),
            state: at.with_command(Command::Edit(op)),
        },
    }
}

/// Text that is bound to nothing is typed, not dropped: where one key waits
/// that is the character `c`, no line break, and neither table of the mode
/// matches it, the backend is asked to insert `c`, the buffer is empty
/// afterwards, and the mode stays.
pub proof fn lemma_unbound_text_is_typed<K: Parse>(
    replaces: bool,
    remaps: Map<Seq<K>, Seq<K>>,
    ops: Map<Seq<K>, InsertOp>,
    s: Snapshot<K>,
    c: char,
)
    requires
        s.typeahead.len() == 1,
        s.typeahead[0].0.as_character() == Some(c),
        c != '\n' && c != '\r',
        classify_remappable(remaps, s.typeahead) is NoMatch,
        classify(ops, keys_of(s.typeahead)) is NoMatch,
    ensures
        insert_outcome(replaces, remaps, ops, s) == (Outcome {
            mode: ModeKind::Insert(replaces),
            state: s.with_typeahead(Seq::empty()).with_command(Command::Char(c)),
        }),
{
    let keys = keys_of(s.typeahead);
    assert(text_run(keys) == 1) by {
        reveal_with_fuel(crate::typeahead::text_run_from, 3);
    }
    assert(typed(text_of(keys, 1)) =~= seq![Command::Char(c)]);
    assert(s.commands + seq![Command::Char(c)] =~= s.commands.push(Command::Char(c)));
    assert(s.typeahead.skip(1) =~= Seq::empty());
}

impl<K: Token + Parse> Transition<K> for InsertMode<K> {
    open spec fn label(&self) -> Seq<char> {
        "Insert"@
    }

    open spec fn next(&self, state: &State<K>) -> Outcome<K> {
        insert_outcome(
            self.replaces(),
            state.insert_mode_map.remaps(),
            state.insert_mode_map.ops(),
            state.snapshot(),
        )
    }

    fn name(&self) -> (r: &'static str) {
        "Insert"
    }

    fn transition(&self, state: &mut State<K>) -> (r: Mode<K>) {
        match state.insert_mode_map.process(&mut state.typeahead) {
            Err(MapErr::NoMatch) => {
                let text = state.typeahead.parse_string();
                let chars = chars_of(text.as_str());
                let ghost before = state.commands@;
                let mut i: usize = 0;
                while i < chars.len()
                    invariant
                        i <= chars@.len(),
                        state.wf(),
                        state.same_tables(old(state)),
                        state.typeahead@ == self.next(old(state)).state.typeahead,
                        state.count == old(state).count,
                        state.operator == old(state).operator,
                        state.commands@ == before + typed(chars@.take(i as int)),
                    decreases chars.len() - i,
                {
                    let c = chars[i];
                    let command = if c == '\n' || c == '\r' {
                        Command::InsertNewline
                    } else {
                        Command::Char(c)
                    };
                    proof {
                        assert(command == typed_char(chars@[i as int]));
                        assert(typed(chars@.take(i as int)).push(command) =~= typed(
                            chars@.take(i as int + 1),
                        ));
                        assert((before + typed(chars@.take(i as int))).push(command) =~= before
                            + typed(chars@.take(i as int + 1)));
                    }
                    state.commands.push(command);
                    i = i + 1;
                }
                proof {
                    assert(chars@.take(chars@.len() as int) == chars@);
                }
            },
            Err(MapErr::InfiniteRecursion) => {
                state.typeahead.clear();
            },
            Ok(op) => {
                match op {
                    InsertOp::Cancel => {
                        return normal();
                    },
                    InsertOp::Quit => {
                        state.cancel();
                        return normal();
                    },
                    _ => {
                        state.commands.push(Command::Edit(op));
                    },
                }
            },
        }
        self.recast()
    }
}

} // verus!
