//! What a session holds beside its mode: the typeahead buffer, the tables of
//! the three modes, the pending count and operator, and the commands that
//! wait for the backend.
use crate::command::Command;
use crate::mode_map::ModeMap;
use crate::op::{InsertOp, NormalOp, OperatorOp, PendingOp};
use crate::order::Token;
use crate::typeahead::{Parse, RemapType, Typeahead};
use vstd::prelude::*;

verus! {

/// The state of a session, but for its mode.
pub struct State<K: Token + Parse> {
    /// The commands that were decided on and not yet handed to the backend.
    pub commands: Vec<Command>,
    pub typeahead: Typeahead<K>,
    pub normal_mode_map: ModeMap<K, NormalOp>,
    pub pending_mode_map: ModeMap<K, PendingOp>,
    pub insert_mode_map: ModeMap<K, InsertOp>,
    /// How many times the next operation is to be carried out.
    pub count: i32,
    /// The operator that waits for its motion or text object.
    pub operator: Option<OperatorOp>,
}

/// The remappings and operations of the three modes.
#[verifier::reject_recursive_types(K)]
pub struct Tables<K> {
    pub normal_remaps: Map<Seq<K>, Seq<K>>,
    pub normal_ops: Map<Seq<K>, NormalOp>,
    pub pending_remaps: Map<Seq<K>, Seq<K>>,
    pub pending_ops: Map<Seq<K>, PendingOp>,
    pub insert_remaps: Map<Seq<K>, Seq<K>>,
    pub insert_ops: Map<Seq<K>, InsertOp>,
}

/// The part of the state that a transition changes.
pub struct Snapshot<K> {
    pub typeahead: Seq<(K, RemapType)>,
    pub count: i32,
    pub operator: Option<OperatorOp>,
    pub commands: Seq<Command>,
}

impl<K> Snapshot<K> {
    /// The same, with another typeahead buffer.
    pub open spec fn with_typeahead(self, typeahead: Seq<(K, RemapType)>) -> Self {
        Snapshot { typeahead, count: self.count, operator: self.operator, commands: self.commands }
    }

    /// The same, with another count.
    pub open spec fn with_count(self, count: i32) -> Self {
        Snapshot {
            typeahead: self.typeahead,
            count,
            operator: self.operator,
            commands: self.commands,
        }
    }

    /// The same, with another pending operator.
    pub open spec fn with_operator(self, operator: Option<OperatorOp>) -> Self {
        Snapshot { typeahead: self.typeahead, count: self.count, operator, commands: self.commands }
    }

    /// The same, with one command more.
    pub open spec fn with_command(self, command: Command) -> Self {
        Snapshot {
            typeahead: self.typeahead,
            count: self.count,
            operator: self.operator,
            commands: self.commands.push(command),
        }
    }

    /// The same after a cancel: no keys wait, no operator is pending, and
    /// the count is 1.
    pub open spec fn cancelled(self) -> Self {
        Snapshot {
            typeahead: Seq::empty(),
            count: 1,
            operator: None,
            commands: self.commands,
        }
    }
}

impl<K: Token + Parse> State<K> {
    /// The tables are well formed and the count is at least 1.
    pub open spec fn wf(&self) -> bool {
        &&& self.normal_mode_map.wf()
        &&& self.pending_mode_map.wf()
        &&& self.insert_mode_map.wf()
        &&& self.count >= 1
    }

    /// The part of the state that a transition changes.
    pub open spec fn snapshot(&self) -> Snapshot<K> {
        Snapshot {
            typeahead: self.typeahead@,
            count: self.count,
            operator: self.operator,
            commands: self.commands@,
        }
    }

    /// The remappings and operations of the three modes.
    pub open spec fn tables(&self) -> Tables<K> {
        Tables {
            normal_remaps: self.normal_mode_map.remaps(),
            normal_ops: self.normal_mode_map.ops(),
            pending_remaps: self.pending_mode_map.remaps(),
            pending_ops: self.pending_mode_map.ops(),
            insert_remaps: self.insert_mode_map.remaps(),
            insert_ops: self.insert_mode_map.ops(),
        }
    }

    /// The two states have the same tables.
    pub open spec fn same_tables(&self, other: &Self) -> bool {
        &&& self.normal_mode_map == other.normal_mode_map
        &&& self.pending_mode_map == other.pending_mode_map
        &&& self.insert_mode_map == other.insert_mode_map
    }

    /// A fresh state over the tables of the three modes: no key waits, no
    /// command waits, no operator is pending, and the count is 1.
    pub fn new(
        normal_map: ModeMap<K, NormalOp>,
        pending_map: ModeMap<K, PendingOp>,
        insert_map: ModeMap<K, InsertOp>,
    ) -> (r: Self)
        requires
            normal_map.wf(),
            pending_map.wf(),
            insert_map.wf(),
        ensures
            r.wf(),
            r.normal_mode_map == normal_map,
            r.pending_mode_map == pending_map,
            r.insert_mode_map == insert_map,
            r.snapshot() == (Snapshot::<K> {
                typeahead: Seq::empty(),
                count: 1,
                operator: None,
                commands: Seq::empty(),
            }),
    {
        State {
            commands: Vec::new(),
            typeahead: Typeahead::<K>::new(),
            normal_mode_map: normal_map,
            pending_mode_map: pending_map,
            insert_mode_map: insert_map,
            count: 1,
            operator: None,
        }
    }

    /// Adds a key behind the keys that wait.
    pub fn put(&mut self, key: K, remap_type: RemapType)
        ensures
            old(self).wf() ==> final(self).wf(),
            final(self).same_tables(old(self)),
            final(self).snapshot() == old(self).snapshot().with_typeahead(
                old(self).typeahead@.push((key, remap_type)),
            ),
    {
        self.typeahead.push_back(key, remap_type);
    }

    /// Drops what was begun: the keys that wait, the pending operator and
    /// the count.
    pub fn cancel(&mut self)
        ensures
            old(self).wf() ==> final(self).wf(),
            final(self).same_tables(old(self)),
            final(self).snapshot() == old(self).snapshot().cancelled(),
    {
        self.count = 1;
        self.operator = None;
        self.typeahead.clear();
    }
}

} // verus!
