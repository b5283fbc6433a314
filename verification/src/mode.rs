//! The modes, and what it is to be a mode: to have a name, and to take the
//! state from the keys that wait to the next mode.
use crate::order::Token;
use crate::state::{Snapshot, State};
use crate::typeahead::Parse;
use std::marker::PhantomData;
use vstd::prelude::*;

verus! {

/// A mode told without its key type.
#[derive(Copy, Clone, Debug, PartialEq, Eq, Structural)]
pub enum ModeKind {
    Normal,
    /// An operator waits; the mode to go back to.
    Pending(NextMode),
    /// Text is typed; whether it replaces the text that is there.
    Insert(bool),
}

/// Where a transition leads: the next mode, and the state as it is then.
pub struct Outcome<K> {
    pub mode: ModeKind,
    pub state: Snapshot<K>,
}

/// A mode of the editor.
pub trait Transition<K: Token + Parse> {
    /// The name of the mode.
    spec fn label(&self) -> Seq<char>;

    /// Where one transition leads from `state`.
    spec fn next(&self, state: &State<K>) -> Outcome<K>;

    /// The name of the mode.
    fn name(&self) -> (r: &'static str)
        ensures
            r@ == self.label(),
    ;

    /// Resolves the keys that wait in `state` under this mode: changes
    /// `state`, but for its tables, and gives the next mode.
    fn transition(&self, state: &mut State<K>) -> (r: Mode<K>)
        requires
            old(state).wf(),
        ensures
            final(state).wf(),
            final(state).same_tables(old(state)),
            (Outcome { mode: r.kind(), state: final(state).snapshot() }) == self.next(old(state)),
    ;
}

/// Normal mode: keys are commands.
#[derive(Debug)]
pub struct NormalMode<K> {
    pub(crate) t: PhantomData<K>,
}

/// The mode that Operator-Pending mode goes back to.
#[derive(Clone, Copy, Debug, PartialEq, Eq, Structural)]
pub enum NextMode {
    Normal,
    Insert,
}

/// Operator-Pending mode: an operator waits for its motion or text object.
#[derive(Debug)]
pub struct PendingMode<K> {
    /// Marks the type of the keys; holds nothing.
    pub t: PhantomData<K>,
    /// The mode to go back to after the motion or text object.
    pub next_mode: NextMode,
}

/// Insert mode: keys are text.
#[derive(Debug)]
pub struct InsertMode<K> {
    pub(crate) t: PhantomData<K>,
    replace_mode: bool,
}

/// The mode of a session.
#[derive(Debug)]
pub enum Mode<K> {
    Normal(NormalMode<K>),
    Pending(PendingMode<K>),
    Insert(InsertMode<K>),
}

impl<K> Clone for NormalMode<K> {
    fn clone(&self) -> (r: Self)
        ensures
            r == *self,
    {
        NormalMode { t: self.t }
    }
}

impl<K> Copy for NormalMode<K> {

}

impl<K> Clone for PendingMode<K> {
    fn clone(&self) -> (r: Self)
        ensures
            r == *self,
    {
        PendingMode { t: self.t, next_mode: self.next_mode }
    }
}

impl<K> Copy for PendingMode<K> {

}

impl<K> Clone for InsertMode<K> {
    fn clone(&self) -> (r: Self)
        ensures
            r == *self,
    {
        InsertMode { t: self.t, replace_mode: self.replace_mode }
    }
}

impl<K> Copy for InsertMode<K> {

}

impl<K> Clone for Mode<K> {
    fn clone(&self) -> (r: Self)
        ensures
            r == *self,
    {
        match self {
            Mode::Normal(m) => Mode::Normal(*m),
            Mode::Pending(m) => Mode::Pending(*m),
            Mode::Insert(m) => Mode::Insert(*m),
        }
    }
}

impl<K> Copy for Mode<K> {

}

/// The mode that `back` names.
pub open spec fn kind_of(back: NextMode) -> ModeKind {
    match back {
        NextMode::Insert => ModeKind::Insert(false),
        NextMode::Normal => ModeKind::Normal,
    }
}

impl<K> PendingMode<K> {
    /// The mode to go back to: the field `next_mode`.
    pub open spec fn returns_to(&self) -> NextMode {
        self.next_mode
    }

    /// The mode to go back to.
    pub fn next_mode(&self) -> (r: Mode<K>)
        ensures
            r.kind() == kind_of(self.returns_to()),
    {
        match self.next_mode {
            NextMode::Insert => insert(),
            NextMode::Normal => normal(),
        }
    }
}

impl<K> InsertMode<K> {
    /// Whether typed text replaces the text that is there.
    pub closed spec fn replaces(&self) -> bool {
        self.replace_mode
    }

    /// The mode, told without its key type.
    pub open spec fn kind(&self) -> ModeKind {
        ModeKind::Insert(self.replaces())
    }

    /// This mode again.
    pub fn recast(&self) -> (r: Mode<K>)
        ensures
            r.kind() == self.kind(),
    {
        Mode::Insert(InsertMode::<K> { t: PhantomData, replace_mode: self.replace_mode })
    }
}

impl<K> Mode<K> {
    /// The mode, told without its key type.
    pub open spec fn kind(&self) -> ModeKind {
        match *self {
            Mode::Normal(_) => ModeKind::Normal,
            Mode::Pending(p) => ModeKind::Pending(p.returns_to()),
            Mode::Insert(i) => i.kind(),
        }
    }
}

/// Normal mode.
pub fn normal<K>() -> (r: Mode<K>)
    ensures
        r.kind() == ModeKind::Normal,
{
    Mode::Normal(NormalMode::<K> { t: PhantomData })
}

/// Normal mode again.
pub fn recast_normal<K>(orig: &NormalMode<K>) -> (r: Mode<K>)
    ensures
        r.kind() == ModeKind::Normal,
{
    Mode::Normal(NormalMode::<K> { t: PhantomData })
}

/// Operator-Pending mode that goes back to `next_mode`.
pub fn pending<K>(next_mode: NextMode) -> (r: Mode<K>)
    ensures
        r.kind() == ModeKind::Pending(next_mode),
{
    Mode::Pending(PendingMode::<K> { t: PhantomData, next_mode: next_mode })
}

/// The Operator-Pending mode `orig` again.
pub fn recast_pending<K>(orig: &PendingMode<K>) -> (r: Mode<K>)
    ensures
        r.kind() == ModeKind::Pending(orig.returns_to()),
{
    Mode::Pending(PendingMode::<K> { t: PhantomData, next_mode: orig.next_mode })
}

/// Insert mode.
pub fn insert<K>() -> (r: Mode<K>)
    ensures
        r.kind() == ModeKind::Insert(false),
{
    Mode::Insert(InsertMode::<K> { t: PhantomData, replace_mode: false })
}

/// Insert mode in which typed text replaces the text that is there.
pub fn replace<K>() -> (r: Mode<K>)
    ensures
        r.kind() == ModeKind::Insert(true),
{
    Mode::Insert(InsertMode::<K> { t: PhantomData, replace_mode: true })
}

impl<K: Token + Parse> Transition<K> for Mode<K> {
    open spec fn label(&self) -> Seq<char> {
        match *self {
            Mode::Normal(m) => m.label(),
            Mode::Pending(m) => m.label(),
            Mode::Insert(m) => m.label(),
        }
    }

    open spec fn next(&self, state: &State<K>) -> Outcome<K> {
        match *self {
            Mode::Normal(m) => m.next(state),
            Mode::Pending(m) => m.next(state),
            Mode::Insert(m) => m.next(state),
        }
    }

    fn name(&self) -> (r: &'static str) {
        match *self {
            Mode::Normal(m) => m.name(),
            Mode::Pending(m) => m.name(),
            Mode::Insert(m) => m.name(),
        }
    }

    fn transition(&self, state: &mut State<K>) -> (r: Mode<K>) {
        match *self {
            Mode::Normal(m) => m.transition(state),
            Mode::Pending(m) => m.transition(state),
            Mode::Insert(m) => m.transition(state),
        }
    }
}

} // verus!
