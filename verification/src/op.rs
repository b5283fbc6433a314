//! The operations that key sequences are bound to, mode by mode.
use crate::mode_map::{put, put_result, ModeMap};
use crate::order::Token;
use crate::ordered_vec_map::InsertionResult;
use vstd::prelude::*;

verus! {

/// An operator: it acts on the text that a motion or a text object names.
#[derive(Copy, Clone, Debug, PartialEq, Eq, Structural)]
pub enum OperatorOp {
    /// `c`
    Change,
    /// `d`
    Delete,
    /// `y`
    Yank,
    /// `~`, `g~`
    SwapCase,
    /// `gu`
    ToLower,
    /// `gU`
    ToUpper,
    /// `!`
    ExternalPrg,
    /// `=`
    EqualPrg,
    /// `gq`
    TextFormat,
    /// `g?`
    Rot13,
    /// `>`
    ShiftRight,
    /// `<`
    ShiftLeft,
    /// `zf`
    DefineFold,
    /// `g@`
    OperatorFunc,
}

/// A motion of the cursor.
#[derive(Copy, Clone, Debug, PartialEq, Eq, Structural)]
pub enum MotionOp {
    Left,
    Right,
    Up,
    Down,
    /// `gg`
    Top,
    /// `G`
    Bottom,
    /// `w`
    Word,
    PageUp,
    PageDown,
    Backspace,
    Delete,
    Home,
    End,
}

/// A text object.
#[derive(Copy, Clone, Debug, PartialEq, Eq, Structural)]
pub enum ObjectOp {
    AWord,
    InnerWord,
    AWORD,
    InnerWORD,
    ASentence,
    InnerSentence,
    AParagraph,
    InnerParagraph,
    /// A `[...]` block.
    ASquareBlock,
    InnerSquareBlock,
    /// A `(...)` block.
    AParen,
    InnerParen,
    /// A `<...>` block.
    AAngle,
    InnerAngle,
    /// An xml tag block, as in `<aaa>...</aaa>`.
    ATag,
    InnerTag,
    /// A `{...}` block.
    ABrace,
    InnerBrace,
    /// A `'...'` block.
    ASingleQuote,
    InnerSingleQuote,
    ADoubleQuote,
    InnerDoubleQuote,
    /// A block in back ticks.
    ABackTick,
    InnerBackTick,
}

/// What a key sequence does in Normal mode.
#[derive(Copy, Clone, Debug, PartialEq, Eq, Structural)]
pub enum NormalOp {
    /// Drops what was begun (Esc).
    Cancel,
    /// Goes to Insert mode (`i`).
    Insert,
    /// Replaces a single character.
    ReplaceChar,
    /// Goes to Replace mode.
    ReplaceMode,
    /// Repeats the last change (`.`).
    Repeat,
    /// Begins an operator, which waits for its motion or text object.
    Operator(OperatorOp),
    /// Moves the cursor.
    Motion(MotionOp),
}

/// What a key sequence does while an operator is pending.
#[derive(Copy, Clone, Debug, PartialEq, Eq, Structural)]
pub enum PendingOp {
    /// Drops the pending operator (Esc).
    Cancel,
    Operator(OperatorOp),
    /// A cursor motion for the operator to act over.
    Motion(MotionOp),
    /// A text object for the operator to act on.
    Object(ObjectOp),
}

/// What a key sequence does in Insert mode.
#[derive(Copy, Clone, Debug, PartialEq, Eq, Structural)]
pub enum InsertOp {
    /// Goes back to Normal mode (Esc).
    Cancel,
    /// Goes back to Normal mode without abbreviations (Ctrl-C).
    Quit,
    Up,
    Down,
    Left,
    Right,
    PageUp,
    PageDown,
    Backspace,
    Delete,
    /// Ctrl-W.
    DeleteWord,
    /// Ctrl-U.
    DeleteLine,
    Tab,
    /// Ctrl-K.
    Digraph,
    /// Ctrl-R.
    InsertRegister,
    /// Ctrl-R Ctrl-R.
    InsertRegisterContents,
    Home,
    End,
}

/// A table of one mode, as the traits below see it.
pub trait Bindings<K> {
    /// The operations of the mode.
    type Op;

    /// The table is fit for use.
    spec fn ready(&self) -> bool;

    /// The operations that key sequences are bound to.
    spec fn bound(&self) -> Map<Seq<K>, Self::Op>;

    /// The remappings.
    spec fn rewritten(&self) -> Map<Seq<K>, Seq<K>>;
}

/// A mode in which key sequences can be bound to operators.
pub trait HasOperator<K>: Bindings<K> {
    /// The operation of the mode that stands for `op`.
    spec fn operator(op: OperatorOp) -> Self::Op;

    /// Binds the key sequence `key` to the operator `op`.
    fn insert_operator(&mut self, key: Vec<K>, op: OperatorOp) -> (r: InsertionResult)
        requires
            old(self).ready(),
        ensures
            final(self).ready(),
            final(self).rewritten() == old(self).rewritten(),
            final(self).bound() == put(old(self).bound(), key@, Self::operator(op)),
            r == put_result(old(self).bound(), key@),
    ;
}

/// A mode in which key sequences can be bound to motions.
pub trait HasMotion<K>: Bindings<K> {
    /// The operation of the mode that stands for `op`.
    spec fn motion(op: MotionOp) -> Self::Op;

    /// Binds the key sequence `key` to the motion `op`.
    fn insert_motion(&mut self, key: Vec<K>, op: MotionOp) -> (r: InsertionResult)
        requires
            old(self).ready(),
        ensures
            final(self).ready(),
            final(self).rewritten() == old(self).rewritten(),
            final(self).bound() == put(old(self).bound(), key@, Self::motion(op)),
            r == put_result(old(self).bound(), key@),
    ;
}

/// A mode in which key sequences can be bound to text objects.
pub trait HasObject<K>: Bindings<K> {
    /// The operation of the mode that stands for `op`.
    spec fn object(op: ObjectOp) -> Self::Op;

    /// Binds the key sequence `key` to the text object `op`.
    fn insert_object(&mut self, key: Vec<K>, op: ObjectOp) -> (r: InsertionResult)
        requires
            old(self).ready(),
        ensures
            final(self).ready(),
            final(self).rewritten() == old(self).rewritten(),
            final(self).bound() == put(old(self).bound(), key@, Self::object(op)),
            r == put_result(old(self).bound(), key@),
    ;
}

impl<K: Token, Op: Copy> Bindings<K> for ModeMap<K, Op> {
    type Op = Op;

    open spec fn ready(&self) -> bool {
        self.wf()
    }

    open spec fn bound(&self) -> Map<Seq<K>, Op> {
        self.ops()
    }

    open spec fn rewritten(&self) -> Map<Seq<K>, Seq<K>> {
        self.remaps()
    }
}

} // verus!
