//! Keys, and the names by which the key notation calls them.
use crate::order::{Ordered, Token};
use crate::key::parse::chars_of;
use crate::typeahead::Parse;
use vstd::prelude::*;
use vstd::string::StrSliceExecFns;

pub mod parse;

verus! {

/// One key of the keyboard.
#[derive(PartialOrd, Ord, Debug, Copy, Clone, PartialEq, Eq, Hash, Structural)]
pub enum Key {
    /// Backspace.
    Backspace,
    /// Left arrow.
    Left,
    /// Right arrow.
    Right,
    /// Up arrow.
    Up,
    /// Down arrow.
    Down,
    /// Home key.
    Home,
    /// End key.
    End,
    /// Page Up key.
    PageUp,
    /// Page Down key.
    PageDown,
    /// Delete key.
    Delete,
    /// Insert key.
    Insert,
    /// Function keys.
    F(u8),
    /// Normal character.
    Char(char),
    /// Null byte.
    Null,
    /// Esc key.
    Esc,
    Space,
    Tab,
    Csi,
    XCsi,
    Eol,
    Help,
    Undo,
    Keypad(u8),
    KeypadHome,
    KeypadEnd,
    KeypadPageUp,
    KeypadPageDown,
    KeypadPlus,
    KeypadMinus,
    KeypadMultiply,
    KeypadDivide,
    KeypadEnter,
    KeypadDot,
}

/// A key as it is pressed: alone, or with one modifier held.
#[derive(PartialOrd, Ord, Debug, Copy, Clone, PartialEq, Eq, Hash, Structural)]
pub enum MultiKey {
    /// A single keystroke.
    A(Key),
    Shift(Key),
    Ctrl(Key),
    /// Also known as Meta, or Option.
    Alt(Key),
    /// Apple's Command key.
    Cmd(Key),
}

/// The room that each kind of key has for what it carries.
pub const KEY_SPAN: u64 = 0x1_0000_0000;

impl Key {
    /// The place of the key in the order of keys: kinds in the order of
    /// their declaration, and within a kind by what the key carries.
    pub open spec fn code(&self) -> int {
        match *self {
            Key::Backspace => 0 * KEY_SPAN,
            Key::Left => 1 * KEY_SPAN,
            Key::Right => 2 * KEY_SPAN,
            Key::Up => 3 * KEY_SPAN,
            Key::Down => 4 * KEY_SPAN,
            Key::Home => 5 * KEY_SPAN,
            Key::End => 6 * KEY_SPAN,
            Key::PageUp => 7 * KEY_SPAN,
            Key::PageDown => 8 * KEY_SPAN,
            Key::Delete => 9 * KEY_SPAN,
            Key::Insert => 10 * KEY_SPAN,
            Key::F(n) => 11 * KEY_SPAN + n,
            Key::Char(c) => 12 * KEY_SPAN + c as int,
            Key::Null => 13 * KEY_SPAN,
            Key::Esc => 14 * KEY_SPAN,
            Key::Space => 15 * KEY_SPAN,
            Key::Tab => 16 * KEY_SPAN,
            Key::Csi => 17 * KEY_SPAN,
            Key::XCsi => 18 * KEY_SPAN,
            Key::Eol => 19 * KEY_SPAN,
            Key::Help => 20 * KEY_SPAN,
            Key::Undo => 21 * KEY_SPAN,
            Key::Keypad(n) => 22 * KEY_SPAN + n,
            Key::KeypadHome => 23 * KEY_SPAN,
            Key::KeypadEnd => 24 * KEY_SPAN,
            Key::KeypadPageUp => 25 * KEY_SPAN,
            Key::KeypadPageDown => 26 * KEY_SPAN,
            Key::KeypadPlus => 27 * KEY_SPAN,
            Key::KeypadMinus => 28 * KEY_SPAN,
            Key::KeypadMultiply => 29 * KEY_SPAN,
            Key::KeypadDivide => 30 * KEY_SPAN,
            Key::KeypadEnter => 31 * KEY_SPAN,
            Key::KeypadDot => 32 * KEY_SPAN,
        }
    }

    /// Computes `code`.
    pub fn ordinal(&self) -> (r: u64)
        ensures
            r == self.code(),
    {
        let span: u64 = KEY_SPAN;
        match *self {
            Key::Backspace => 0,
            Key::Left => span,
            Key::Right => 2 * span,
            Key::Up => 3 * span,
            Key::Down => 4 * span,
            Key::Home => 5 * span,
            Key::End => 6 * span,
            Key::PageUp => 7 * span,
            Key::PageDown => 8 * span,
            Key::Delete => 9 * span,
            Key::Insert => 10 * span,
            Key::F(n) => 11 * span + n as u64,
            Key::Char(c) => 12 * span + c as u64,
            Key::Null => 13 * span,
            Key::Esc => 14 * span,
            Key::Space => 15 * span,
            Key::Tab => 16 * span,
            Key::Csi => 17 * span,
            Key::XCsi => 18 * span,
            Key::Eol => 19 * span,
            Key::Help => 20 * span,
            Key::Undo => 21 * span,
            Key::Keypad(n) => 22 * span + n as u64,
            Key::KeypadHome => 23 * span,
            Key::KeypadEnd => 24 * span,
            Key::KeypadPageUp => 25 * span,
            Key::KeypadPageDown => 26 * span,
            Key::KeypadPlus => 27 * span,
            Key::KeypadMinus => 28 * span,
            Key::KeypadMultiply => 29 * span,
            Key::KeypadDivide => 30 * span,
            Key::KeypadEnter => 31 * span,
            Key::KeypadDot => 32 * span,
        }
    }
}

impl Ordered for Key {
    open spec fn lt(&self, other: &Self) -> bool {
        self.code() < other.code()
    }

    open spec fn eqv(&self, other: &Self) -> bool {
        *self == *other
    }

    proof fn lemma_trichotomy(a: &Self, b: &Self) {
    }

    proof fn lemma_lt_transitive(a: &Self, b: &Self, c: &Self) {
    }

    proof fn lemma_eqv_respects_lt(a: &Self, b: &Self, c: &Self) {
    }

    fn less(&self, other: &Self) -> (r: bool) {
        self.ordinal() < other.ordinal()
    }
}

impl Token for Key {
    proof fn lemma_eqv_is_equality(a: &Self, b: &Self) {
    }
}

impl MultiKey {
    /// The key that is pressed, without its modifier.
    pub open spec fn key(&self) -> Key {
        match *self {
            MultiKey::A(k) => k,
            MultiKey::Shift(k) => k,
            MultiKey::Ctrl(k) => k,
            MultiKey::Alt(k) => k,
            MultiKey::Cmd(k) => k,
        }
    }

    /// The place of the modifier in the order of their declaration.
    pub open spec fn modifier(&self) -> int {
        match *self {
            MultiKey::A(_) => 0,
            MultiKey::Shift(_) => 1,
            MultiKey::Ctrl(_) => 2,
            MultiKey::Alt(_) => 3,
            MultiKey::Cmd(_) => 4,
        }
    }

    /// The place of the keystroke in the order of keystrokes: by modifier,
    /// then by key.
    pub open spec fn code(&self) -> int {
        self.modifier() * (33 * KEY_SPAN) + self.key().code()
    }

    /// Computes `code`.
    pub fn ordinal(&self) -> (r: u64)
        ensures
            r == self.code(),
    {
        let room: u64 = 33 * KEY_SPAN;
        match *self {
            MultiKey::A(k) => k.ordinal(),
            MultiKey::Shift(k) => room + k.ordinal(),
            MultiKey::Ctrl(k) => 2 * room + k.ordinal(),
            MultiKey::Alt(k) => 3 * room + k.ordinal(),
            MultiKey::Cmd(k) => 4 * room + k.ordinal(),
        }
    }
}

impl Ordered for MultiKey {
    open spec fn lt(&self, other: &Self) -> bool {
        self.code() < other.code()
    }

    open spec fn eqv(&self, other: &Self) -> bool {
        *self == *other
    }

    proof fn lemma_trichotomy(a: &Self, b: &Self) {
    }

    proof fn lemma_lt_transitive(a: &Self, b: &Self, c: &Self) {
    }

    proof fn lemma_eqv_respects_lt(a: &Self, b: &Self, c: &Self) {
    }

    fn less(&self, other: &Self) -> (r: bool) {
        self.ordinal() < other.ordinal()
    }
}

impl Token for MultiKey {
    proof fn lemma_eqv_is_equality(a: &Self, b: &Self) {
    }
}

impl Parse for MultiKey {
    /// A decimal digit typed without a modifier.
    open spec fn as_decimal(&self) -> Option<char> {
        match *self {
            MultiKey::A(Key::Char(c)) => if '0' <= c && c <= '9' {
                Some(c)
            } else {
                None
            },
            _ => None,
        }
    }

    /// A character typed without a modifier; the space bar is a blank.
    open spec fn as_character(&self) -> Option<char> {
        match *self {
            MultiKey::A(Key::Char(c)) => Some(c),
            MultiKey::A(Key::Space) => Some(' '),
            _ => None,
        }
    }

    fn decimal(&self) -> (r: Option<char>) {
        match *self {
            MultiKey::A(Key::Char(c)) => if '0' <= c && c <= '9' {
                Some(c)
            } else {
                None
            },
            _ => None,
        }
    }

    fn character(&self) -> (r: Option<char>) {
        match *self {
            MultiKey::A(Key::Char(c)) => Some(c),
            MultiKey::A(Key::Space) => Some(' '),
            _ => None,
        }
    }
}

/// What `name` reads as in lower case, as `str::to_lowercase` gives it.
pub uninterp spec fn lowercase(name: Seq<char>) -> Seq<char>;

/// `str::to_lowercase` of the standard library: the result is a function
/// of the characters of `s` alone, called `lowercase` here. Of what it is
/// nothing is claimed.
pub assume_specification[ str::to_lowercase ](s: &str) -> (r: String)
    ensures
        r@ == lowercase(s@),
;

/// The key that `name` stands for: a key called so, in any case of letters,
/// or else the one character that `name` is.
pub open spec fn any_key(name: Seq<char>) -> Option<Key> {
    match key_named(lowercase(name)) {
        Some(k) => Some(k),
        None => if name.len() == 1 {
            Some(Key::Char(name[0]))
        } else {
            None
        },
    }
}

/// Whether `chars` are the characters of `word`.
fn spells(chars: &Vec<char>, word: &str) -> (r: bool)
    ensures
        r == (chars@ == word@),
{
    let w = chars_of(word);
    if w.len() != chars.len() {
        return false;
    }
    let mut i: usize = 0;
    while i < w.len()
        invariant
            w@ == word@,
            w@.len() == chars@.len(),
            i <= w@.len(),
            forall|j: int| 0 <= j < i ==> chars@[j] == w@[j],
        decreases w.len() - i,
    {
        if chars[i] != w[i] {
            return false;
        }
        i = i + 1;
    }
    proof {
        assert(chars@ =~= w@);
    }
    true
}

/// The key that the notation calls `name`, a name in lower case.
pub open spec fn key_named(name: Seq<char>) -> Option<Key> {
    if name == "nul"@ {
        Some(Key::Null)
    } else if name == "bs"@ {
        Some(Key::Backspace)
    } else if name == "tab"@ {
        Some(Key::Tab)
    } else if name == "nl"@ {
        Some(Key::Char('\n'))
    } else if name == "ff"@ {
        Some(Key::Char('\x0c'))
    } else if name == "cr"@ {
        Some(Key::Char('\r'))
    } else if name == "return"@ {
        Some(Key::Char('\r'))
    } else if name == "enter"@ {
        Some(Key::Char('\r'))
    } else if name == "esc"@ {
        Some(Key::Esc)
    } else if name == "space"@ {
        Some(Key::Space)
    } else if name == "lt"@ {
        Some(Key::Char('<'))
    } else if name == "bslash"@ {
        Some(Key::Char('\\'))
    } else if name == "bar"@ {
        Some(Key::Char('|'))
    } else if name == "del"@ {
        Some(Key::Delete)
    } else if name == "csi"@ {
        Some(Key::Csi)
    } else if name == "xcsi"@ {
        Some(Key::XCsi)
    } else if name == "eol"@ {
        Some(Key::Eol)
    } else if name == "up"@ {
        Some(Key::Up)
    } else if name == "down"@ {
        Some(Key::Down)
    } else if name == "left"@ {
        Some(Key::Left)
    } else if name == "right"@ {
        Some(Key::Right)
    } else if name == "f1"@ {
        Some(Key::F(1))
    } else if name == "f2"@ {
        Some(Key::F(2))
    } else if name == "f3"@ {
        Some(Key::F(3))
    } else if name == "f4"@ {
        Some(Key::F(4))
    } else if name == "f5"@ {
        Some(Key::F(5))
    } else if name == "f6"@ {
        Some(Key::F(6))
    } else if name == "f7"@ {
        Some(Key::F(7))
    } else if name == "f8"@ {
        Some(Key::F(8))
    } else if name == "f9"@ {
        Some(Key::F(9))
    } else if name == "f10"@ {
        Some(Key::F(10))
    } else if name == "f11"@ {
        Some(Key::F(11))
    } else if name == "f12"@ {
        Some(Key::F(12))
    } else if name == "help"@ {
        Some(Key::Help)
    } else if name == "undo"@ {
        Some(Key::Undo)
    } else if name == "insert"@ {
        Some(Key::Insert)
    } else if name == "home"@ {
        Some(Key::Home)
    } else if name == "end"@ {
        Some(Key::End)
    } else if name == "pageup"@ {
        Some(Key::PageUp)
    } else if name == "pagedown"@ {
        Some(Key::PageDown)
    } else if name == "khome"@ {
        Some(Key::KeypadHome)
    } else if name == "kend"@ {
        Some(Key::KeypadEnd)
    } else if name == "kpageup"@ {
        Some(Key::KeypadPageUp)
    } else if name == "kpagedown"@ {
        Some(Key::KeypadPageDown)
    } else if name == "kplus"@ {
        Some(Key::KeypadPlus)
    } else if name == "kminus"@ {
        Some(Key::KeypadMinus)
    } else if name == "kmultiply"@ {
        Some(Key::KeypadMultiply)
    } else if name == "kdivide"@ {
        Some(Key::KeypadDivide)
    } else if name == "kenter"@ {
        Some(Key::KeypadEnter)
    } else if name == "kpoint"@ {
        Some(Key::KeypadDot)
    } else if name == "k0"@ {
        Some(Key::Keypad(0))
    } else if name == "k1"@ {
        Some(Key::Keypad(1))
    } else if name == "k2"@ {
        Some(Key::Keypad(2))
    } else if name == "k3"@ {
        Some(Key::Keypad(3))
    } else if name == "k4"@ {
        Some(Key::Keypad(4))
    } else if name == "k5"@ {
        Some(Key::Keypad(5))
    } else if name == "k6"@ {
        Some(Key::Keypad(6))
    } else if name == "k7"@ {
        Some(Key::Keypad(7))
    } else if name == "k8"@ {
        Some(Key::Keypad(8))
    } else if name == "k9"@ {
        Some(Key::Keypad(9))
    } else {
        None
    }
}

/// The key that the notation calls `name`, a name in lower case.
pub fn key_by_name(name: &str) -> (r: Option<Key>)
    ensures
        r == key_named(name@),
{
    let n = chars_of(name);
    if spells(&n, "nul") {
        Some(Key::Null)
    } else if spells(&n, "bs") {
        Some(Key::Backspace)
    } else if spells(&n, "tab") {
        Some(Key::Tab)
    } else if spells(&n, "nl") {
        Some(Key::Char('\n'))
    } else if spells(&n, "ff") {
        Some(Key::Char('\x0c'))
    } else if spells(&n, "cr") {
        Some(Key::Char('\r'))
    } else if spells(&n, "return") {
        Some(Key::Char('\r'))
    } else if spells(&n, "enter") {
        Some(Key::Char('\r'))
    } else if spells(&n, "esc") {
        Some(Key::Esc)
    } else if spells(&n, "space") {
        Some(Key::Space)
    } else if spells(&n, "lt") {
        Some(Key::Char('<'))
    } else if spells(&n, "bslash") {
        Some(Key::Char('\\'))
    } else if spells(&n, "bar") {
        Some(Key::Char('|'))
    } else if spells(&n, "del") {
        Some(Key::Delete)
    } else if spells(&n, "csi") {
        Some(Key::Csi)
    } else if spells(&n, "xcsi") {
        Some(Key::XCsi)
    } else if spells(&n, "eol") {
        Some(Key::Eol)
    } else if spells(&n, "up") {
        Some(Key::Up)
    } else if spells(&n, "down") {
        Some(Key::Down)
    } else if spells(&n, "left") {
        Some(Key::Left)
    } else if spells(&n, "right") {
        Some(Key::Right)
    } else if spells(&n, "f1") {
        Some(Key::F(1))
    } else if spells(&n, "f2") {
        Some(Key::F(2))
    } else if spells(&n, "f3") {
        Some(Key::F(3))
    } else if spells(&n, "f4") {
        Some(Key::F(4))
    } else if spells(&n, "f5") {
        Some(Key::F(5))
    } else if spells(&n, "f6") {
        Some(Key::F(6))
    } else if spells(&n, "f7") {
        Some(Key::F(7))
    } else if spells(&n, "f8") {
        Some(Key::F(8))
    } else if spells(&n, "f9") {
        Some(Key::F(9))
    } else if spells(&n, "f10") {
        Some(Key::F(10))
    } else if spells(&n, "f11") {
        Some(Key::F(11))
    } else if spells(&n, "f12") {
        Some(Key::F(12))
    } else if spells(&n, "help") {
        Some(Key::Help)
    } else if spells(&n, "undo") {
        Some(Key::Undo)
    } else if spells(&n, "insert") {
        Some(Key::Insert)
    } else if spells(&n, "home") {
        Some(Key::Home)
    } else if spells(&n, "end") {
        Some(Key::End)
    } else if spells(&n, "pageup") {
        Some(Key::PageUp)
    } else if spells(&n, "pagedown") {
        Some(Key::PageDown)
    } else if spells(&n, "khome") {
        Some(Key::KeypadHome)
    } else if spells(&n, "kend") {
        Some(Key::KeypadEnd)
    } else if spells(&n, "kpageup") {
        Some(Key::KeypadPageUp)
    } else if spells(&n, "kpagedown") {
        Some(Key::KeypadPageDown)
    } else if spells(&n, "kplus") {
        Some(Key::KeypadPlus)
    } else if spells(&n, "kminus") {
        Some(Key::KeypadMinus)
    } else if spells(&n, "kmultiply") {
        Some(Key::KeypadMultiply)
    } else if spells(&n, "kdivide") {
        Some(Key::KeypadDivide)
    } else if spells(&n, "kenter") {
        Some(Key::KeypadEnter)
    } else if spells(&n, "kpoint") {
        Some(Key::KeypadDot)
    } else if spells(&n, "k0") {
        Some(Key::Keypad(0))
    } else if spells(&n, "k1") {
        Some(Key::Keypad(1))
    } else if spells(&n, "k2") {
        Some(Key::Keypad(2))
    } else if spells(&n, "k3") {
        Some(Key::Keypad(3))
    } else if spells(&n, "k4") {
        Some(Key::Keypad(4))
    } else if spells(&n, "k5") {
        Some(Key::Keypad(5))
    } else if spells(&n, "k6") {
        Some(Key::Keypad(6))
    } else if spells(&n, "k7") {
        Some(Key::Keypad(7))
    } else if spells(&n, "k8") {
        Some(Key::Keypad(8))
    } else if spells(&n, "k9") {
        Some(Key::Keypad(9))
    } else {
        None
    }
}

/// The key that the notation writes in angle brackets as `buffer`, in any
/// case of letters.
pub fn parse_angle(buffer: &str) -> (r: Option<Key>)
    ensures
        r == key_named(lowercase(buffer@)),
{
    let lower = buffer.to_lowercase();
    key_by_name(lower.as_str())
}

/// The character key of `buffer`, where `buffer` is one character.
pub fn parse_key(buffer: &str) -> (r: Option<Key>)
    ensures
        r == if buffer@.len() == 1 {
            Some(Key::Char(buffer@[0]))
        } else {
            None
        },
{
    if buffer.unicode_len() == 1 {
        Some(Key::Char(buffer.get_char(0)))
    } else {
        None
    }
}

/// The key that `buffer` stands for, by name or as one character.
pub fn parse_any(buffer: &str) -> (r: Option<Key>)
    ensures
        r == any_key(buffer@),
{
    match parse_angle(buffer) {
        Some(k) => Some(k),
        None => parse_key(buffer),
    }
}

} // verus!
