//! A session: the state machine over keystrokes, with the bindings that each
//! mode starts with, fed in key notation.
use crate::command::Command;
use crate::key::parse::{key_sequence, parse};
use crate::key::MultiKey;
use crate::maps::{
    insert_bindings, insert_mode_map, normal_bindings, normal_mode_map, pending_bindings,
    pending_mode_map,
};
use crate::mode::{ModeKind, Outcome};
use crate::state::{Snapshot, Tables};
use crate::state_machine::{label_of, run, StateMachine};
use vstd::prelude::*;

verus! {

/// The tables that a session starts with: no remappings, and the bindings
/// that each mode starts with.
pub open spec fn initial_tables() -> Tables<MultiKey> {
    Tables {
        normal_remaps: Map::empty(),
        normal_ops: normal_bindings(),
        pending_remaps: Map::empty(),
        pending_ops: pending_bindings(),
        insert_remaps: Map::empty(),
        insert_ops: insert_bindings(),
    }
}

/// A session of the editor.
pub struct Vixi {
    machine: StateMachine<MultiKey>,
}

impl Vixi {
    /// The machine is well formed and has the tables that a session starts
    /// with.
    pub closed spec fn wf(&self) -> bool {
        self.machine.wf() && self.machine.tables() == initial_tables()
    }

    /// The mode and the state.
    pub closed spec fn at(&self) -> Outcome<MultiKey> {
        self.machine.at()
    }

    /// A session in Normal mode, with nothing waiting and the count at 1.
    pub fn new() -> (r: Self)
        ensures
            r.wf(),
            r.at() == (Outcome::<MultiKey> {
                mode: ModeKind::Normal,
                state: Snapshot {
                    typeahead: Seq::empty(),
                    count: 1,
                    operator: None,
                    commands: Seq::empty(),
                },
            }),
    {
        Vixi {
            machine: StateMachine::new(normal_mode_map(), pending_mode_map(), insert_mode_map()),
        }
    }

    /// Takes in the keys that the notation `keys` spells, one after the
    /// other.
    pub fn process(&mut self, keys: &str)
        requires
            old(self).wf(),
        ensures
            final(self).wf(),
            final(self).at() == run(old(self).at(), initial_tables(), key_sequence(keys@)),
    {
        let sequence = parse(keys);
        let mut i: usize = 0;
        proof {
            assert(sequence@.skip(0) == sequence@);
        }
        while i < sequence.len()
            invariant
                i <= sequence@.len(),
                self.wf(),
                run(self.at(), initial_tables(), sequence@.skip(i as int)) == run(
                    old(self).at(),
                    initial_tables(),
                    sequence@,
                ),
            decreases sequence.len() - i,
        {
            proof {
                assert(sequence@.skip(i as int).drop_first() == sequence@.skip(i as int + 1));
            }
            self.machine.process(sequence[i]);
            i = i + 1;
        }
    }

    /// The name of the mode: `"Normal"`, `"Pending"` or `"Insert"`.
    pub fn mode(&self) -> (r: &'static str)
        ensures
            r@ == label_of(self.at().mode),
    {
        self.machine.mode()
    }

    /// Hands out the commands that wait for the backend, in the order in
    /// which they were decided on, and keeps none.
    pub fn take_commands(&mut self) -> (r: Vec<Command>)
        requires
            old(self).wf(),
        ensures
            final(self).wf(),
            r@ == old(self).at().state.commands,
            final(self).at() == (Outcome {
                mode: old(self).at().mode,
                state: Snapshot {
                    typeahead: old(self).at().state.typeahead,
                    count: old(self).at().state.count,
                    operator: old(self).at().state.operator,
                    commands: Seq::empty(),
                },
            }),
    {
        self.machine.take_commands()
    }
}

} // verus!
