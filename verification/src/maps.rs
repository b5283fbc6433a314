//! The key bindings that each mode starts with.
use crate::key::parse::{key_sequence, parse};
use crate::key::MultiKey;
use crate::mode_map::{put, ModeMap};
use crate::op::{
    Bindings, HasMotion, HasObject, HasOperator, InsertOp, MotionOp, NormalOp, ObjectOp,
    OperatorOp, PendingOp,
};
use crate::ordered_vec_map::InsertionResult;
use vstd::prelude::*;

verus! {

impl HasOperator<MultiKey> for ModeMap<MultiKey, NormalOp> {
    open spec fn operator(op: OperatorOp) -> NormalOp {
        NormalOp::Operator(op)
    }

    fn insert_operator(&mut self, key: Vec<MultiKey>, op: OperatorOp) -> (r: InsertionResult) {
        self.insert_op(key, NormalOp::Operator(op))
    }
}

impl HasMotion<MultiKey> for ModeMap<MultiKey, NormalOp> {
    open spec fn motion(op: MotionOp) -> NormalOp {
        NormalOp::Motion(op)
    }

    fn insert_motion(&mut self, key: Vec<MultiKey>, op: MotionOp) -> (r: InsertionResult) {
        self.insert_op(key, NormalOp::Motion(op))
    }
}

impl HasOperator<MultiKey> for ModeMap<MultiKey, PendingOp> {
    open spec fn operator(op: OperatorOp) -> PendingOp {
        PendingOp::Operator(op)
    }

    fn insert_operator(&mut self, key: Vec<MultiKey>, op: OperatorOp) -> (r: InsertionResult) {
        self.insert_op(key, PendingOp::Operator(op))
    }
}

impl HasMotion<MultiKey> for ModeMap<MultiKey, PendingOp> {
    open spec fn motion(op: MotionOp) -> PendingOp {
        PendingOp::Motion(op)
    }

    fn insert_motion(&mut self, key: Vec<MultiKey>, op: MotionOp) -> (r: InsertionResult) {
        self.insert_op(key, PendingOp::Motion(op))
    }
}

impl HasObject<MultiKey> for ModeMap<MultiKey, PendingOp> {
    open spec fn object(op: ObjectOp) -> PendingOp {
        PendingOp::Object(op)
    }

    fn insert_object(&mut self, key: Vec<MultiKey>, op: ObjectOp) -> (r: InsertionResult) {
        self.insert_op(key, PendingOp::Object(op))
    }
}

/// `table` with the keys that `notation` spells bound to `value`; a notation
/// that spells no key binds nothing.
pub open spec fn bind<V>(table: Map<Seq<MultiKey>, V>, notation: &str, value: V) -> Map<
    Seq<MultiKey>,
    V,
> {
    put(table, key_sequence(notation@), value)
}

/// `table` with the operators of Vi bound, each to what `lift` makes of it.
#[verifier::opaque]
pub open spec fn with_operators<V>(
    table: Map<Seq<MultiKey>, V>,
    lift: spec_fn(OperatorOp) -> V,
) -> Map<Seq<MultiKey>, V> {
    let t = bind(table, "c", lift(OperatorOp::Change));
    let t = bind(t, "d", lift(OperatorOp::Delete));
    let t = bind(t, "y", lift(OperatorOp::Yank));
    let t = bind(t, "g~", lift(OperatorOp::SwapCase));
    let t = bind(t, "gu", lift(OperatorOp::ToLower));
    let t = bind(t, "gU", lift(OperatorOp::ToUpper));
    let t = bind(t, "!", lift(OperatorOp::ExternalPrg));
    let t = bind(t, "=", lift(OperatorOp::EqualPrg));
    let t = bind(t, "gq", lift(OperatorOp::TextFormat));
    let t = bind(t, "g?", lift(OperatorOp::Rot13));
    let t = bind(t, ">", lift(OperatorOp::ShiftRight));
    let t = bind(t, "<", lift(OperatorOp::ShiftLeft));
    let t = bind(t, "<lt>", lift(OperatorOp::ShiftLeft));
    let t = bind(t, "zf", lift(OperatorOp::DefineFold));
    let t = bind(t, "g@", lift(OperatorOp::OperatorFunc));
    t
}

/// Binds the operators of Vi in `map`.
fn add_operators<Op>(map: &mut ModeMap<MultiKey, Op>) where
    Op: Copy,
    ModeMap<MultiKey, Op>: HasOperator<MultiKey>,

    requires
        old(map).ready(),
    ensures
        final(map).ready(),
        final(map).rewritten() == old(map).rewritten(),
        final(map).bound() == with_operators(
            old(map).bound(),
            |op: OperatorOp| <ModeMap<MultiKey, Op> as HasOperator<MultiKey>>::operator(op),
        ),
{
    reveal(with_operators);
    map.insert_operator(parse("c"), OperatorOp::Change);
    map.insert_operator(parse("d"), OperatorOp::Delete);
    map.insert_operator(parse("y"), OperatorOp::Yank);
    map.insert_operator(parse("g~"), OperatorOp::SwapCase);
    map.insert_operator(parse("gu"), OperatorOp::ToLower);
    map.insert_operator(parse("gU"), OperatorOp::ToUpper);
    map.insert_operator(parse("!"), OperatorOp::ExternalPrg);
    map.insert_operator(parse("="), OperatorOp::EqualPrg);
    map.insert_operator(parse("gq"), OperatorOp::TextFormat);
    map.insert_operator(parse("g?"), OperatorOp::Rot13);
    map.insert_operator(parse(">"), OperatorOp::ShiftRight);
    map.insert_operator(parse("<"), OperatorOp::ShiftLeft);
    map.insert_operator(parse("<lt>"), OperatorOp::ShiftLeft);
    map.insert_operator(parse("zf"), OperatorOp::DefineFold);
    map.insert_operator(parse("g@"), OperatorOp::OperatorFunc);
}

/// `table` with the cursor motions bound, each to what `lift` makes of it.
#[verifier::opaque]
pub open spec fn with_motions<V>(
    table: Map<Seq<MultiKey>, V>,
    lift: spec_fn(MotionOp) -> V,
) -> Map<Seq<MultiKey>, V> {
    let t = bind(table, "<left>", lift(MotionOp::Left));
    let t = bind(t, "<right>", lift(MotionOp::Right));
    let t = bind(t, "<up>", lift(MotionOp::Up));
    let t = bind(t, "<down>", lift(MotionOp::Down));
    let t = bind(t, "h", lift(MotionOp::Left));
    let t = bind(t, "l", lift(MotionOp::Right));
    let t = bind(t, "k", lift(MotionOp::Up));
    let t = bind(t, "j", lift(MotionOp::Down));
    let t = bind(t, "gg", lift(MotionOp::Top));
    let t = bind(t, "G", lift(MotionOp::Bottom));
    let t = bind(t, "w", lift(MotionOp::Word));
    let t = bind(t, "<bs>", lift(MotionOp::Backspace));
    let t = bind(t, "<home>", lift(MotionOp::Home));
    let t = bind(t, "<end>", lift(MotionOp::End));
    let t = bind(t, "<khome>", lift(MotionOp::Home));
    let t = bind(t, "<kend>", lift(MotionOp::End));
    let t = bind(t, "<pageup>", lift(MotionOp::PageUp));
    let t = bind(t, "<pagedown>", lift(MotionOp::PageDown));
    let t = bind(t, "<kpageUp>", lift(MotionOp::PageUp));
    let t = bind(t, "<kpageDown>", lift(MotionOp::PageDown));
    t
}

/// Binds the cursor motions in `map`.
fn add_motions<Op>(map: &mut ModeMap<MultiKey, Op>) where
    Op: Copy,
    ModeMap<MultiKey, Op>: HasMotion<MultiKey>,

    requires
        old(map).ready(),
    ensures
        final(map).ready(),
        final(map).rewritten() == old(map).rewritten(),
        final(map).bound() == with_motions(
            old(map).bound(),
            |op: MotionOp| <ModeMap<MultiKey, Op> as HasMotion<MultiKey>>::motion(op),
        ),
{
    reveal(with_motions);
    map.insert_motion(parse("<left>"), MotionOp::Left);
    map.insert_motion(parse("<right>"), MotionOp::Right);
    map.insert_motion(parse("<up>"), MotionOp::Up);
    map.insert_motion(parse("<down>"), MotionOp::Down);
    map.insert_motion(parse("h"), MotionOp::Left);
    map.insert_motion(parse("l"), MotionOp::Right);
    map.insert_motion(parse("k"), MotionOp::Up);
    map.insert_motion(parse("j"), MotionOp::Down);
    map.insert_motion(parse("gg"), MotionOp::Top);
    map.insert_motion(parse("G"), MotionOp::Bottom);
    map.insert_motion(parse("w"), MotionOp::Word);
    map.insert_motion(parse("<bs>"), MotionOp::Backspace);
    map.insert_motion(parse("<home>"), MotionOp::Home);
    map.insert_motion(parse("<end>"), MotionOp::End);
    map.insert_motion(parse("<khome>"), MotionOp::Home);
    map.insert_motion(parse("<kend>"), MotionOp::End);
    map.insert_motion(parse("<pageup>"), MotionOp::PageUp);
    map.insert_motion(parse("<pagedown>"), MotionOp::PageDown);
    map.insert_motion(parse("<kpageUp>"), MotionOp::PageUp);
    map.insert_motion(parse("<kpageDown>"), MotionOp::PageDown);
}

/// `table` with the text objects bound, each to what `lift` makes of it.
#[verifier::opaque]
pub open spec fn with_objects<V>(
    table: Map<Seq<MultiKey>, V>,
    lift: spec_fn(ObjectOp) -> V,
) -> Map<Seq<MultiKey>, V> {
    let t = bind(table, "aw", lift(ObjectOp::AWord));
    let t = bind(t, "iw", lift(ObjectOp::InnerWord));
    let t = bind(t, "aW", lift(ObjectOp::AWORD));
    let t = bind(t, "iW", lift(ObjectOp::InnerWORD));
    let t = bind(t, "as", lift(ObjectOp::ASentence));
    let t = bind(t, "is", lift(ObjectOp::InnerSentence));
    let t = bind(t, "ap", lift(ObjectOp::AParagraph));
    let t = bind(t, "ip", lift(ObjectOp::InnerParagraph));
    let t = bind(t, "a[", lift(ObjectOp::ASquareBlock));
    let t = bind(t, "a]", lift(ObjectOp::ASquareBlock));
    let t = bind(t, "i[", lift(ObjectOp::InnerSquareBlock));
    let t = bind(t, "i]", lift(ObjectOp::InnerSquareBlock));
    let t = bind(t, "a(", lift(ObjectOp::AParen));
    let t = bind(t, "a)", lift(ObjectOp::AParen));
    let t = bind(t, "i(", lift(ObjectOp::InnerParen));
    let t = bind(t, "i)", lift(ObjectOp::InnerParen));
    let t = bind(t, "a<", lift(ObjectOp::AAngle));
    let t = bind(t, "a>", lift(ObjectOp::AAngle));
    let t = bind(t, "i<", lift(ObjectOp::InnerAngle));
    let t = bind(t, "i>", lift(ObjectOp::InnerAngle));
    let t = bind(t, "at", lift(ObjectOp::ATag));
    let t = bind(t, "it", lift(ObjectOp::InnerTag));
    let t = bind(t, "a{", lift(ObjectOp::ABrace));
    let t = bind(t, "a}", lift(ObjectOp::ABrace));
    let t = bind(t, "i{", lift(ObjectOp::InnerBrace));
    let t = bind(t, "i}", lift(ObjectOp::InnerBrace));
    let t = bind(t, "a'", lift(ObjectOp::ASingleQuote));
    let t = bind(t, "i'", lift(ObjectOp::InnerSingleQuote));
    let t = bind(t, "a\"", lift(ObjectOp::ADoubleQuote));
    let t = bind(t, "i\"", lift(ObjectOp::InnerDoubleQuote));
    let t = bind(t, "a`", lift(ObjectOp::ABackTick));
    let t = bind(t, "i`", lift(ObjectOp::InnerBackTick));
    t
}

/// Binds the text objects in `map`.
fn add_objects<Op>(map: &mut ModeMap<MultiKey, Op>) where
    Op: Copy,
    ModeMap<MultiKey, Op>: HasObject<MultiKey>,

    requires
        old(map).ready(),
    ensures
        final(map).ready(),
        final(map).rewritten() == old(map).rewritten(),
        final(map).bound() == with_objects(
            old(map).bound(),
            |op: ObjectOp| <ModeMap<MultiKey, Op> as HasObject<MultiKey>>::object(op),
        ),
{
    reveal(with_objects);
    map.insert_object(parse("aw"), ObjectOp::AWord);
    map.insert_object(parse("iw"), ObjectOp::InnerWord);
    map.insert_object(parse("aW"), ObjectOp::AWORD);
    map.insert_object(parse("iW"), ObjectOp::InnerWORD);
    map.insert_object(parse("as"), ObjectOp::ASentence);
    map.insert_object(parse("is"), ObjectOp::InnerSentence);
    map.insert_object(parse("ap"), ObjectOp::AParagraph);
    map.insert_object(parse("ip"), ObjectOp::InnerParagraph);
    map.insert_object(parse("a["), ObjectOp::ASquareBlock);
    map.insert_object(parse("a]"), ObjectOp::ASquareBlock);
    map.insert_object(parse("i["), ObjectOp::InnerSquareBlock);
    map.insert_object(parse("i]"), ObjectOp::InnerSquareBlock);
    map.insert_object(parse("a("), ObjectOp::AParen);
    map.insert_object(parse("a)"), ObjectOp::AParen);
    map.insert_object(parse("i("), ObjectOp::InnerParen);
    map.insert_object(parse("i)"), ObjectOp::InnerParen);
    map.insert_object(parse("a<"), ObjectOp::AAngle);
    map.insert_object(parse("a>"), ObjectOp::AAngle);
    map.insert_object(parse("i<"), ObjectOp::InnerAngle);
    map.insert_object(parse("i>"), ObjectOp::InnerAngle);
    map.insert_object(parse("at"), ObjectOp::ATag);
    map.insert_object(parse("it"), ObjectOp::InnerTag);
    map.insert_object(parse("a{"), ObjectOp::ABrace);
    map.insert_object(parse("a}"), ObjectOp::ABrace);
    map.insert_object(parse("i{"), ObjectOp::InnerBrace);
    map.insert_object(parse("i}"), ObjectOp::InnerBrace);
    map.insert_object(parse("a'"), ObjectOp::ASingleQuote);
    map.insert_object(parse("i'"), ObjectOp::InnerSingleQuote);
    map.insert_object(parse("a\""), ObjectOp::ADoubleQuote);
    map.insert_object(parse("i\""), ObjectOp::InnerDoubleQuote);
    map.insert_object(parse("a`"), ObjectOp::ABackTick);
    map.insert_object(parse("i`"), ObjectOp::InnerBackTick);
}

/// The bindings of Normal mode.
#[verifier::opaque]
pub open spec fn normal_bindings() -> Map<Seq<MultiKey>, NormalOp> {
    let t = bind(Map::<Seq<MultiKey>, NormalOp>::empty(), "<Esc>", NormalOp::Cancel);
    let t = bind(t, "i", NormalOp::Insert);
    let t = bind(t, "r", NormalOp::ReplaceChar);
    let t = bind(t, "R", NormalOp::ReplaceMode);
    let t = bind(t, ".", NormalOp::Repeat);
    with_motions(
        with_operators(t, |op: OperatorOp| NormalOp::Operator(op)),
        |op: MotionOp| NormalOp::Motion(op),
    )
}

/// The bindings of Operator-Pending mode.
#[verifier::opaque]
pub open spec fn pending_bindings() -> Map<Seq<MultiKey>, PendingOp> {
    let t = bind(Map::<Seq<MultiKey>, PendingOp>::empty(), "<Esc>", PendingOp::Cancel);
    with_motions(
        with_objects(
            with_operators(t, |op: OperatorOp| PendingOp::Operator(op)),
            |op: ObjectOp| PendingOp::Object(op),
        ),
        |op: MotionOp| PendingOp::Motion(op),
    )
}

/// The bindings of Insert mode.
#[verifier::opaque]
pub open spec fn insert_bindings() -> Map<Seq<MultiKey>, InsertOp> {
    let t = bind(Map::<Seq<MultiKey>, InsertOp>::empty(), "<Esc>", InsertOp::Cancel);
    let t = bind(t, "<Up>", InsertOp::Up);
    let t = bind(t, "<Down>", InsertOp::Down);
    let t = bind(t, "<Left>", InsertOp::Left);
    let t = bind(t, "<Right>", InsertOp::Right);
    let t = bind(t, "<Backspace>", InsertOp::Backspace);
    let t = bind(t, "<Delete>", InsertOp::Delete);
    let t = bind(t, "<PageUp>", InsertOp::PageUp);
    let t = bind(t, "<PageDown>", InsertOp::PageDown);
    let t = bind(t, "<kpageUp>", InsertOp::PageUp);
    let t = bind(t, "<kpageDown>", InsertOp::PageDown);
    let t = bind(t, "<home>", InsertOp::Home);
    let t = bind(t, "<end>", InsertOp::End);
    let t = bind(t, "<khome>", InsertOp::Home);
    let t = bind(t, "<kend>", InsertOp::End);
    let t = bind(t, "<C-w>", InsertOp::DeleteWord);
    let t = bind(t, "<C-u>", InsertOp::DeleteLine);
    let t = bind(t, "<Tab>", InsertOp::Tab);
    let t = bind(t, "<C-k>", InsertOp::Digraph);
    let t = bind(t, "<C-r>", InsertOp::InsertRegister);
    let t = bind(t, "<C-r><C-r>", InsertOp::InsertRegisterContents);
    t
}

/// The table that Normal mode starts with: no remappings, and the bindings
/// of `normal_bindings`.
pub fn normal_mode_map() -> (r: ModeMap<MultiKey, NormalOp>)
    ensures
        r.wf(),
        r.remaps() == Map::<Seq<MultiKey>, Seq<MultiKey>>::empty(),
        r.ops() == normal_bindings(),
{
    reveal(normal_bindings);
    reveal(with_operators);
    reveal(with_motions);
    let mut map = ModeMap::new();
    map.insert_op(parse("<Esc>"), NormalOp::Cancel);
    map.insert_op(parse("i"), NormalOp::Insert);
    map.insert_op(parse("r"), NormalOp::ReplaceChar);
    map.insert_op(parse("R"), NormalOp::ReplaceMode);
    map.insert_op(parse("."), NormalOp::Repeat);
    add_operators(&mut map);
    add_motions(&mut map);
    map
}

/// The table that Operator-Pending mode starts with: no remappings, and the bindings
/// of `pending_bindings`.
pub fn pending_mode_map() -> (r: ModeMap<MultiKey, PendingOp>)
    ensures
        r.wf(),
        r.remaps() == Map::<Seq<MultiKey>, Seq<MultiKey>>::empty(),
        r.ops() == pending_bindings(),
{
    reveal(pending_bindings);
    reveal(with_operators);
    reveal(with_objects);
    reveal(with_motions);
    let mut map = ModeMap::new();
    map.insert_op(parse("<Esc>"), PendingOp::Cancel);
    add_operators(&mut map);
    add_objects(&mut map);
    add_motions(&mut map);
    map
}

/// The table that Insert mode starts with: no remappings, and the bindings
/// of `insert_bindings`.
pub fn insert_mode_map() -> (r: ModeMap<MultiKey, InsertOp>)
    ensures
        r.wf(),
        r.remaps() == Map::<Seq<MultiKey>, Seq<MultiKey>>::empty(),
        r.ops() == insert_bindings(),
{
    reveal(insert_bindings);
    let mut map = ModeMap::new();
    map.insert_op(parse("<Esc>"), InsertOp::Cancel);
    map.insert_op(parse("<Up>"), InsertOp::Up);
    map.insert_op(parse("<Down>"), InsertOp::Down);
    map.insert_op(parse("<Left>"), InsertOp::Left);
    map.insert_op(parse("<Right>"), InsertOp::Right);
    map.insert_op(parse("<Backspace>"), InsertOp::Backspace);
    map.insert_op(parse("<Delete>"), InsertOp::Delete);
    map.insert_op(parse("<PageUp>"), InsertOp::PageUp);
    map.insert_op(parse("<PageDown>"), InsertOp::PageDown);
    map.insert_op(parse("<kpageUp>"), InsertOp::PageUp);
    map.insert_op(parse("<kpageDown>"), InsertOp::PageDown);
    map.insert_op(parse("<home>"), InsertOp::Home);
    map.insert_op(parse("<end>"), InsertOp::End);
    map.insert_op(parse("<khome>"), InsertOp::Home);
    map.insert_op(parse("<kend>"), InsertOp::End);
    map.insert_op(parse("<C-w>"), InsertOp::DeleteWord);
    map.insert_op(parse("<C-u>"), InsertOp::DeleteLine);
    map.insert_op(parse("<Tab>"), InsertOp::Tab);
    map.insert_op(parse("<C-k>"), InsertOp::Digraph);
    map.insert_op(parse("<C-r>"), InsertOp::InsertRegister);
    map.insert_op(parse("<C-r><C-r>"), InsertOp::InsertRegisterContents);
    map
}

} // verus!
