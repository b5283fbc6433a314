//! The key notation: `"<C-w>i<Esc>"` is Ctrl-w, `i`, Escape.
//!
//! A key is written as its character, as a name in angle brackets
//! (`<Esc>`, `<F5>`), or, with a modifier held, as the modifier's letter, a
//! hyphen and the key in angle brackets (`<S-Tab>`, `<C-w>`). What stands in
//! brackets but names no key is read character by character. A bracket that
//! is opened and never closed spoils the whole notation.
use crate::key::{any_key, key_named, lowercase, parse_angle, parse_any, Key, MultiKey};
use vstd::prelude::*;

verus! {

/// A modifier that the notation can put on a key.
#[derive(Debug, Copy, Clone, PartialEq, Eq, Structural)]
pub enum Modifier {
    Shift,
    Ctrl,
    Alt,
    Cmd,
}

impl Modifier {
    /// The key `k` with the modifier held.
    pub open spec fn on(self, k: Key) -> MultiKey {
        match self {
            Modifier::Shift => MultiKey::Shift(k),
            Modifier::Ctrl => MultiKey::Ctrl(k),
            Modifier::Alt => MultiKey::Alt(k),
            Modifier::Cmd => MultiKey::Cmd(k),
        }
    }

    /// Computes `on`.
    pub fn apply(self, k: Key) -> (r: MultiKey)
        ensures
            r == self.on(k),
    {
        match self {
            Modifier::Shift => MultiKey::Shift(k),
            Modifier::Ctrl => MultiKey::Ctrl(k),
            Modifier::Alt => MultiKey::Alt(k),
            Modifier::Cmd => MultiKey::Cmd(k),
        }
    }
}

/// What reading one key off the front of a notation gives.
pub enum Step {
    /// A key, and the number of characters that spell it.
    Token(MultiKey, nat),
    /// A bracket is open and the notation ends before it is closed.
    Incomplete,
    /// This way of reading does not apply.
    Error,
}

/// What reading one key off a slice of characters gave.
pub enum Scanned {
    Token(MultiKey, usize),
    Incomplete,
    Error,
}

impl View for Scanned {
    type V = Step;

    open spec fn view(&self) -> Step {
        match *self {
            Scanned::Token(k, n) => Step::Token(k, n as nat),
            Scanned::Incomplete => Step::Incomplete,
            Scanned::Error => Step::Error,
        }
    }
}

/// The first index from `from` on at which `s` has `>`, or the length of `s`.
pub open spec fn closing(s: Seq<char>, from: nat) -> nat
    decreases s.len() - from,
{
    if from < s.len() && s[from as int] != '>' {
        closing(s, from + 1)
    } else {
        from
    }
}

/// The key in brackets that begin at the front of `s`, with the name of the
/// key beginning at index `from`.
pub open spec fn bracketed(
    s: Seq<char>,
    from: nat,
    named: bool,
    modifier: Option<Modifier>,
) -> Step {
    let end = closing(s, from);
    let name = s.subrange(from as int, end as int);
    let key = if named {
        key_named(lowercase(name))
    } else {
        any_key(name)
    };
    if end >= s.len() {
        Step::Incomplete
    } else if end == from {
        Step::Error
    } else {
        match (key, modifier) {
            (Some(k), Some(m)) => Step::Token(m.on(k), end + 1),
            (Some(k), None) => Step::Token(MultiKey::A(k), end + 1),
            (None, _) => Step::Error,
        }
    }
}

/// Reads a key with a modifier off the front of `s`: `<`, the modifier's
/// letter `lower` or `upper`, a hyphen, what stands for the key, and `>`.
pub open spec fn modified(s: Seq<char>, lower: char, upper: char, modifier: Modifier) -> Step {
    if s.len() >= 1 && s[0] != '<' {
        Step::Error
    } else if s.len() >= 2 && s[1] != lower && s[1] != upper {
        Step::Error
    } else if s.len() >= 3 && s[2] != '-' {
        Step::Error
    } else if s.len() < 3 {
        Step::Incomplete
    } else {
        bracketed(s, 3, false, Some(modifier))
    }
}

/// Reads a named key off the front of `s`: `<`, the key's name, and `>`.
pub open spec fn angled(s: Seq<char>) -> Step {
    if s.len() >= 1 && s[0] != '<' {
        Step::Error
    } else if s.len() < 1 {
        Step::Incomplete
    } else {
        bracketed(s, 1, true, None)
    }
}

/// The first of two readings that applies.
pub open spec fn or_else(first: Step, second: Step) -> Step {
    if first is Error {
        second
    } else {
        first
    }
}

/// Reads one key off the front of `s`, which is not empty: with Shift, with
/// Ctrl, with Meta or Alt, with Cmd, by name, or as the one character at the
/// front, whichever applies first.
pub open spec fn next_key(s: Seq<char>) -> Step {
    or_else(
        modified(s, 's', 'S', Modifier::Shift),
        or_else(
            modified(s, 'c', 'C', Modifier::Ctrl),
            or_else(
                modified(s, 'm', 'M', Modifier::Alt),
                or_else(
                    modified(s, 'a', 'A', Modifier::Alt),
                    or_else(
                        modified(s, 'd', 'D', Modifier::Cmd),
                        or_else(angled(s), Step::Token(MultiKey::A(Key::Char(s[0])), 1)),
                    ),
                ),
            ),
        ),
    )
}

/// The keys that `s` spells, or `None` where a bracket is left open.
pub open spec fn scan(s: Seq<char>) -> Option<Seq<MultiKey>>
    decreases s.len(),
{
    if s.len() == 0 {
        Some(Seq::empty())
    } else {
        match next_key(s) {
            Step::Token(k, n) => if 0 < n <= s.len() {
                match scan(s.skip(n as int)) {
                    Some(rest) => Some(seq![k] + rest),
                    None => None,
                }
            } else {
                None
            },
            _ => None,
        }
    }
}

/// The keys that the notation `s` spells; none where a bracket is left open.
pub open spec fn key_sequence(s: Seq<char>) -> Seq<MultiKey> {
    match scan(s) {
        Some(keys) => keys,
        None => Seq::empty(),
    }
}

/// The characters of `s`, one by one.
pub fn chars_of(s: &str) -> (r: Vec<char>)
    ensures
        r@ == s@,
{
    let mut chars: Vec<char> = Vec::new();
    for c in it: s.chars()
        invariant
            it.seq() == s@,
            chars@ == s@.take(it.index() as int),
    {
        chars.push(c);
    }
    chars
}

/// The index of the first `>` of `s` from `from` on, or the length of `s`.
fn find_closing(s: &[char], from: usize) -> (r: usize)
    requires
        from <= s@.len(),
    ensures
        r == closing(s@, from as nat),
        from <= r <= s@.len(),
{
    let mut i: usize = from;
    while i < s.len() && s[i] != '>'
        invariant
            from <= i <= s@.len(),
            closing(s@, i as nat) == closing(s@, from as nat),
        decreases s.len() - i,
    {
        i = i + 1;
    }
    i
}

/// The characters of `s` from `from` up to `end`, as a string.
fn string_of(s: &[char], from: usize, end: usize) -> (r: String)
    requires
        from <= end <= s@.len(),
    ensures
        r@ == s@.subrange(from as int, end as int),
{
    let mut name = String::new();
    let mut i: usize = from;
    while i < end
        invariant
            from <= i <= end <= s@.len(),
            name@ == s@.subrange(from as int, i as int),
        decreases end - i,
    {
        name.push(s[i]);
        proof {
            assert(s@.subrange(from as int, i as int).push(s@[i as int]) == s@.subrange(
                from as int,
                i as int + 1,
            ));
        }
        i = i + 1;
    }
    name
}

/// Reads the key in brackets that begin at the front of `s`.
fn read_bracketed(s: &[char], from: usize, named: bool, modifier: Option<Modifier>) -> (r: Scanned)
    requires
        from <= s@.len(),
    ensures
        r@ == bracketed(s@, from as nat, named, modifier),
{
    let end = find_closing(s, from);
    if end >= s.len() {
        return Scanned::Incomplete;
    }
    if end == from {
        return Scanned::Error;
    }
    let name = string_of(s, from, end);
    let key = if named {
        parse_angle(name.as_str())
    } else {
        parse_any(name.as_str())
    };
    match (key, modifier) {
        (Some(k), Some(m)) => Scanned::Token(m.apply(k), end + 1),
        (Some(k), None) => Scanned::Token(MultiKey::A(k), end + 1),
        (None, _) => Scanned::Error,
    }
}

/// Reads a key with a modifier off the front of `s`.
fn read_modified(s: &[char], lower: char, upper: char, modifier: Modifier) -> (r: Scanned)
    ensures
        r@ == modified(s@, lower, upper, modifier),
{
    if s.len() >= 1 && s[0] != '<' {
        Scanned::Error
    } else if s.len() >= 2 && s[1] != lower && s[1] != upper {
        Scanned::Error
    } else if s.len() >= 3 && s[2] != '-' {
        Scanned::Error
    } else if s.len() < 3 {
        Scanned::Incomplete
    } else {
        read_bracketed(s, 3, false, Some(modifier))
    }
}

/// Reads a named key off the front of `s`.
fn read_angled(s: &[char]) -> (r: Scanned)
    ensures
        r@ == angled(s@),
{
    if s.len() >= 1 && s[0] != '<' {
        Scanned::Error
    } else if s.len() < 1 {
        Scanned::Incomplete
    } else {
        read_bracketed(s, 1, true, None)
    }
}

/// Reads one key off the front of `s`.
fn read_key(s: &[char]) -> (r: Scanned)
    requires
        s@.len() > 0,
    ensures
        r@ == next_key(s@),
{
    let shift = read_modified(s, 's', 'S', Modifier::Shift);
    if !matches!(shift, Scanned::Error) {
        return shift;
    }
    let ctrl = read_modified(s, 'c', 'C', Modifier::Ctrl);
    if !matches!(ctrl, Scanned::Error) {
        return ctrl;
    }
    let meta = read_modified(s, 'm', 'M', Modifier::Alt);
    if !matches!(meta, Scanned::Error) {
        return meta;
    }
    let alt = read_modified(s, 'a', 'A', Modifier::Alt);
    if !matches!(alt, Scanned::Error) {
        return alt;
    }
    let cmd = read_modified(s, 'd', 'D', Modifier::Cmd);
    if !matches!(cmd, Scanned::Error) {
        return cmd;
    }
    let angle = read_angled(s);
    if !matches!(angle, Scanned::Error) {
        return angle;
    }
    Scanned::Token(MultiKey::A(Key::Char(s[0])), 1)
}

/// The keys that the notation `st` spells; none where a bracket is left open.
pub fn parse(st: &str) -> (r: Vec<MultiKey>)
    ensures
        r@ == key_sequence(st@),
{
    let chars = chars_of(st);
    let mut keys: Vec<MultiKey> = Vec::new();
    let mut pos: usize = 0;
    proof {
        assert(chars@.skip(0) == chars@);
    }
    while pos < chars.len()
        invariant
            chars@ == st@,
            pos <= chars@.len(),
            scan(chars@) == match scan(chars@.skip(pos as int)) {
                Some(rest) => Some(keys@ + rest),
                None => None,
            },
        decreases chars.len() - pos,
    {
        let rest = &chars[pos..chars.len()];
        match read_key(rest) {
            Scanned::Token(k, n) => {
                if n == 0 || n > rest.len() {
                    return Vec::new();
                }
                proof {
                    assert(chars@.skip(pos as int).skip(n as int) == chars@.skip(pos + n));
                }
                keys.push(k);
                pos = pos + n;
            },
            _ => {
                return Vec::new();
            },
        }
    }
    keys
}

} // verus!
