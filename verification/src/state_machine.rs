//! The state machine of a session: a state and the mode it is in.
use crate::command::Command;
use crate::insert_mode::insert_outcome;
use crate::mode::{normal, Mode, ModeKind, Outcome, Transition};
use crate::mode_map::{ModeMap, MAX_REMAP_ITERATIONS};
use crate::normal_mode::normal_outcome;
use crate::op::{InsertOp, NormalOp, PendingOp};
use crate::order::Token;
use crate::pending_mode::pending_outcome;
use crate::state::{Snapshot, State, Tables};
use crate::typeahead::{Parse, RemapType};
use vstd::prelude::*;

verus! {

/// Where one transition leads from the state `s` in a mode of the kind
/// `mode`, with the tables `tables`.
pub open spec fn outcome_of<K: Parse>(mode: ModeKind, tables: Tables<K>, s: Snapshot<K>) -> Outcome<
    K,
> {
    match mode {
        ModeKind::Normal => normal_outcome(
            tables.normal_remaps,
            tables.normal_ops,
            s,
            MAX_REMAP_ITERATIONS as nat,
        ),
        ModeKind::Pending(back) => pending_outcome(
            back,
            tables.pending_remaps,
            tables.pending_ops,
            s,
            MAX_REMAP_ITERATIONS as nat,
        ),
        ModeKind::Insert(replaces) => insert_outcome(
            replaces,
            tables.insert_remaps,
            tables.insert_ops,
            s,
        ),
    }
}

/// Where transitions lead from `at` until the keys that wait have come to
/// rest: one transition follows another for as long as each leaves fewer
/// keys waiting than it found, and some still wait.
pub open spec fn at_rest<K: Parse>(at: Outcome<K>, tables: Tables<K>) -> Outcome<K>
    decreases at.state.typeahead.len(),
{
    let next = outcome_of(at.mode, tables, at.state);
    if 0 < next.state.typeahead.len() < at.state.typeahead.len() {
        at_rest(next, tables)
    } else {
        next
    }
}

/// Where the key `key` leads: it joins the keys that wait, tagged as open
/// to remapping, and transitions follow until the keys have come to rest.
pub open spec fn keyed<K: Parse>(at: Outcome<K>, tables: Tables<K>, key: K) -> Outcome<K> {
    at_rest(
        Outcome {
            mode: at.mode,
            state: at.state.with_typeahead(at.state.typeahead.push((key, RemapType::Remap))),
        },
        tables,
    )
}

/// Where the keys `keys` lead, one after the other.
pub open spec fn run<K: Parse>(at: Outcome<K>, tables: Tables<K>, keys: Seq<K>) -> Outcome<K>
    decreases keys.len(),
{
    if keys.len() == 0 {
        at
    } else {
        run(keyed(at, tables, keys[0]), tables, keys.drop_first())
    }
}

/// The label of a mode of the kind `mode`.
pub open spec fn label_of(mode: ModeKind) -> Seq<char> {
    match mode {
        ModeKind::Normal => "Normal"@,
        ModeKind::Pending(_) => "Pending"@,
        ModeKind::Insert(_) => "Insert"@,
    }
}

/// A state and the mode it is in.
pub struct StateMachine<K: Token + Parse> {
    state: State<K>,
    mode: Mode<K>,
}

impl<K: Token + Parse> StateMachine<K> {
    /// The state is well formed.
    pub closed spec fn wf(&self) -> bool {
        self.state.wf()
    }

    /// The mode and the state.
    pub closed spec fn at(&self) -> Outcome<K> {
        Outcome { mode: self.mode.kind(), state: self.state.snapshot() }
    }

    /// The remappings and operations of the three modes.
    pub closed spec fn tables(&self) -> Tables<K> {
        self.state.tables()
    }

    /// A machine over the tables of the three modes, in Normal mode, with
    /// nothing waiting and the count at 1.
    pub fn new(
        normal_map: ModeMap<K, NormalOp>,
        pending_map: ModeMap<K, PendingOp>,
        insert_map: ModeMap<K, InsertOp>,
    ) -> (r: Self)
        requires
            normal_map.wf(),
            pending_map.wf(),
            insert_map.wf(),
        ensures
            r.wf(),
            r.tables() == (Tables {
                normal_remaps: normal_map.remaps(),
                normal_ops: normal_map.ops(),
                pending_remaps: pending_map.remaps(),
                pending_ops: pending_map.ops(),
                insert_remaps: insert_map.remaps(),
                insert_ops: insert_map.ops(),
            }),
            r.at() == (Outcome::<K> {
                mode: ModeKind::Normal,
                state: Snapshot {
                    typeahead: Seq::empty(),
                    count: 1,
                    operator: None,
                    commands: Seq::empty(),
                },
            }),
    {
        StateMachine { state: State::new(normal_map, pending_map, insert_map), mode: normal() }
    }

    /// Takes the key `key` in: it joins the keys that wait, and the mode
    /// makes its transitions until the keys have come to rest. That is when
    /// none waits any more, or when a transition has taken none away: then
    /// what waits is waiting for more input.
    pub fn process(&mut self, key: K)
        requires
            old(self).wf(),
        ensures
            final(self).wf(),
            final(self).tables() == old(self).tables(),
            final(self).at() == keyed(old(self).at(), old(self).tables(), key),
    {
        self.state.put(key, RemapType::Remap);
        let ghost goal = at_rest(self.at(), self.tables());
        loop
            invariant
                self.wf(),
                self.tables() == old(self).tables(),
                goal == keyed(old(self).at(), old(self).tables(), key),
                goal == at_rest(self.at(), self.tables()),
            decreases self.state.typeahead@.len(),
        {
            let before = self.state.typeahead.len();
            self.mode = self.mode.transition(&mut self.state);
            let after = self.state.typeahead.len();
            if after == 0 || after >= before {
                return ;
            }
        }
    }

    /// The name of the mode: `"Normal"`, `"Pending"` or `"Insert"`.
    pub fn mode(&self) -> (r: &'static str)
        ensures
            r@ == label_of(self.at().mode),
    {
        self.mode.name()
    }

    /// Hands out the commands that wait for the backend, in the order in
    /// which they were decided on, and keeps none.
    pub fn take_commands(&mut self) -> (r: Vec<Command>)
        requires
            old(self).wf(),
        ensures
            final(self).wf(),
            final(self).tables() == old(self).tables(),
            r@ == old(self).at().state.commands,
            final(self).at() == (Outcome {
                mode: old(self).at().mode,
                state: Snapshot {
                    typeahead: old(self).at().state.typeahead,
                    count: old(self).at().state.count,
                    operator: old(self).at().state.operator,
                    commands: Seq::empty(),
                },
            }),
    {
        let mut commands: Vec<Command> = Vec::new();
        std::mem::swap(&mut commands, &mut self.state.commands);
        commands
    }
}

} // verus!
