//! What the engine asks of the editor backend. The engine decides and
//! records; whoever owns the backend carries the commands out, in order,
//! each by the calls that `request` names for it.
use crate::op::{InsertOp, MotionOp, ObjectOp, OperatorOp};
use vstd::prelude::*;

verus! {

/// What an operator acts on.
#[derive(Copy, Clone, Debug, PartialEq, Eq, Structural)]
pub enum Target {
    /// The operator given a second time, or another operator in its place.
    Operator(OperatorOp),
    /// The text that a motion passes over.
    Motion(MotionOp),
    /// A text object.
    Object(ObjectOp),
}

/// One request to the editor backend.
#[derive(Copy, Clone, Debug, PartialEq, Eq, Structural)]
pub enum Command {
    /// Insert a character at the cursor.
    Char(char),
    /// Insert a line break at the cursor.
    InsertNewline,
    /// Carry out an editing or navigation key of Insert mode.
    Edit(InsertOp),
    /// Move the cursor, as many times as the count says.
    Motion(MotionOp, i32),
    /// Replace the character under the cursor, the count times over.
    ReplaceChar(i32),
    /// Repeat the last change, the count times over.
    Repeat(i32),
    /// Apply an operator to a target, the count times over.
    Operate(OperatorOp, Target, i32),
}

/// The command that inserts `c`: a line break for a line feed or a
/// carriage return, the character itself for any other.
pub open spec fn typed_char(c: char) -> Command {
    if c == '\n' || c == '\r' {
        Command::InsertNewline
    } else {
        Command::Char(c)
    }
}

/// The commands that insert `text`, character by character.
pub open spec fn typed(text: Seq<char>) -> Seq<Command> {
    Seq::new(text.len(), |i: int| typed_char(text[i]))
}

/// One call that the editor backend takes.
#[derive(Copy, Clone, Debug, PartialEq, Eq, Structural)]
pub enum Call {
    /// Insert a character at the cursor.
    Char(char),
    /// Insert a line break at the cursor.
    InsertNewline,
    Up,
    Down,
    Left,
    Right,
    PageUp,
    PageDown,
    /// Move the cursor to the start of its line.
    LineStart,
    /// Move the cursor to the end of its line.
    LineEnd,
    /// Delete the character before the cursor.
    Backspace,
    /// Delete the character under the cursor.
    Delete,
    /// Delete backwards to the start of the word.
    DeleteWord,
    /// Delete backwards to the start of the line.
    DeleteLine,
    /// Apply an operator to a target.
    Operate(OperatorOp, Target),
}

/// A call of the backend, and how many times over it is to be made.
#[derive(Copy, Clone, Debug, PartialEq, Eq, Structural)]
pub struct Request {
    pub call: Call,
    pub times: i32,
}

/// The call that carries out a key of Insert mode: the call of the same
/// name; a tab is the character, and Home and End go to the ends of the
/// line. The keys that change the mode, digraphs and registers have none.
pub open spec fn edit_call(op: InsertOp) -> Option<Call> {
    match op {
        InsertOp::Up => Some(Call::Up),
        InsertOp::Down => Some(Call::Down),
        InsertOp::Left => Some(Call::Left),
        InsertOp::Right => Some(Call::Right),
        InsertOp::PageUp => Some(Call::PageUp),
        InsertOp::PageDown => Some(Call::PageDown),
        InsertOp::Backspace => Some(Call::Backspace),
        InsertOp::Delete => Some(Call::Delete),
        InsertOp::DeleteWord => Some(Call::DeleteWord),
        InsertOp::DeleteLine => Some(Call::DeleteLine),
        InsertOp::Tab => Some(Call::Char('\t')),
        InsertOp::Home => Some(Call::LineStart),
        InsertOp::End => Some(Call::LineEnd),
        InsertOp::Cancel => None,
        InsertOp::Quit => None,
        InsertOp::Digraph => None,
        InsertOp::InsertRegister => None,
        InsertOp::InsertRegisterContents => None,
    }
}

/// The call that moves the cursor as a motion does: the call of the same
/// name; Backspace moves left, Home and End go to the ends of the line, and
/// Delete deletes under the cursor. The backend has no call for the top, the
/// bottom and the next word.
pub open spec fn motion_call(op: MotionOp) -> Option<Call> {
    match op {
        MotionOp::Left => Some(Call::Left),
        MotionOp::Right => Some(Call::Right),
        MotionOp::Up => Some(Call::Up),
        MotionOp::Down => Some(Call::Down),
        MotionOp::PageUp => Some(Call::PageUp),
        MotionOp::PageDown => Some(Call::PageDown),
        MotionOp::Backspace => Some(Call::Left),
        MotionOp::Delete => Some(Call::Delete),
        MotionOp::Home => Some(Call::LineStart),
        MotionOp::End => Some(Call::LineEnd),
        MotionOp::Top => None,
        MotionOp::Bottom => None,
        MotionOp::Word => None,
    }
}

/// `call`, made `times` times, where there is a call.
pub open spec fn repeated(call: Option<Call>, times: i32) -> Option<Request> {
    match call {
        Some(call) => Some(Request { call, times }),
        None => None,
    }
}

/// What `command` asks of the backend: which call, and how many times. Text
/// and the keys of Insert mode are one call. A motion and an operator are
/// made as many times as their count says. Replacing a character and
/// repeating the last change have no call in the backend.
pub open spec fn request_of(command: Command) -> Option<Request> {
    match command {
        Command::Char(c) => Some(Request { call: Call::Char(c), times: 1 }),
        Command::InsertNewline => Some(Request { call: Call::InsertNewline, times: 1 }),
        Command::Edit(op) => repeated(edit_call(op), 1),
        Command::Motion(op, count) => repeated(motion_call(op), count),
        Command::ReplaceChar(_) => None,
        Command::Repeat(_) => None,
        Command::Operate(operator, target, count) => Some(
            Request { call: Call::Operate(operator, target), times: count },
        ),
    }
}

/// Computes `edit_call`.
fn call_of_edit(op: InsertOp) -> (r: Option<Call>)
    ensures
        r == edit_call(op),
{
    match op {
        InsertOp::Up => Some(Call::Up),
        InsertOp::Down => Some(Call::Down),
        InsertOp::Left => Some(Call::Left),
        InsertOp::Right => Some(Call::Right),
        InsertOp::PageUp => Some(Call::PageUp),
        InsertOp::PageDown => Some(Call::PageDown),
        InsertOp::Backspace => Some(Call::Backspace),
        InsertOp::Delete => Some(Call::Delete),
        InsertOp::DeleteWord => Some(Call::DeleteWord),
        InsertOp::DeleteLine => Some(Call::DeleteLine),
        InsertOp::Tab => Some(Call::Char('\t')),
        InsertOp::Home => Some(Call::LineStart),
        InsertOp::End => Some(Call::LineEnd),
        InsertOp::Cancel => None,
        InsertOp::Quit => None,
        InsertOp::Digraph => None,
        InsertOp::InsertRegister => None,
        InsertOp::InsertRegisterContents => None,
    }
}

/// Computes `motion_call`.
fn call_of_motion(op: MotionOp) -> (r: Option<Call>)
    ensures
        r == motion_call(op),
{
    match op {
        MotionOp::Left => Some(Call::Left),
        MotionOp::Right => Some(Call::Right),
        MotionOp::Up => Some(Call::Up),
        MotionOp::Down => Some(Call::Down),
        MotionOp::PageUp => Some(Call::PageUp),
        MotionOp::PageDown => Some(Call::PageDown),
        MotionOp::Backspace => Some(Call::Left),
        MotionOp::Delete => Some(Call::Delete),
        MotionOp::Home => Some(Call::LineStart),
        MotionOp::End => Some(Call::LineEnd),
        MotionOp::Top => None,
        MotionOp::Bottom => None,
        MotionOp::Word => None,
    }
}

/// What `command` asks of the backend: which call, and how many times.
pub fn request(command: &Command) -> (r: Option<Request>)
    ensures
        r == request_of(*command),
{
    match *command {
        Command::Char(c) => Some(Request { call: Call::Char(c), times: 1 }),
        Command::InsertNewline => Some(Request { call: Call::InsertNewline, times: 1 }),
        Command::Edit(op) => match call_of_edit(op) {
            Some(call) => Some(Request { call, times: 1 }),
            None => None,
        },
        Command::Motion(op, count) => match call_of_motion(op) {
            Some(call) => Some(Request { call, times: count }),
            None => None,
        },
        Command::ReplaceChar(_) => None,
        Command::Repeat(_) => None,
        Command::Operate(operator, target, count) => Some(
            Request { call: Call::Operate(operator, target), times: count },
        ),
    }
}

} // verus!
