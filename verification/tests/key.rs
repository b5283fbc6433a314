use vixi::key::parse::parse;
use vixi::key::Key::{Backspace, Char, Delete, Esc, Keypad, KeypadDot, Null, Space, Tab, F};
use vixi::key::MultiKey::{Alt, Cmd, Ctrl, Shift, A};
use vixi::key::{key_by_name, parse_angle, parse_any, parse_key, Key, MultiKey};
use vixi::order::Ordered;
use vixi::typeahead::Parse;

#[test]
fn shift_test() {
    assert_eq!(parse("<s-tab>"), vec![Shift(Tab)]);
}

#[test]
fn ctrl_test() {
    assert_eq!(parse("<c-tab>"), vec![Ctrl(Tab)]);
}

#[test]
fn alt_test() {
    assert_eq!(parse("<a-tab>"), vec![Alt(Tab)]);
}

#[test]
fn meta_test() {
    assert_eq!(parse("<m-tab>"), vec![Alt(Tab)]);
}

#[test]
fn cmd_test() {
    assert_eq!(parse("<d-tab>"), vec![Cmd(Tab)]);
}

#[test]
fn any_test() {
    assert_eq!(parse("<tab>"), vec![A(Tab)]);
}

#[test]
fn parse_key_test() {
    assert_eq!(parse("S"), vec![A(Char('S'))]);
}

#[test]
fn parse_test() {
    assert_eq!(parse("<S-Tab>S"), vec![Shift(Tab), A(Char('S'))]);
}

#[test]
fn parse_angle_knows_the_names() {
    assert_eq!(Some(Null), parse_angle("nul"));
    assert_eq!(Some(Backspace), parse_angle("bs"));
    assert_eq!(Some(Char('\n')), parse_angle("nl"));
    assert_eq!(Some(Char('\x0c')), parse_angle("ff"));
    assert_eq!(Some(Char('\r')), parse_angle("cr"));
    assert_eq!(Some(Char('\r')), parse_angle("return"));
    assert_eq!(Some(Char('\r')), parse_angle("enter"));
    assert_eq!(Some(Char('<')), parse_angle("lt"));
    assert_eq!(Some(Char('\\')), parse_angle("bslash"));
    assert_eq!(Some(Char('|')), parse_angle("bar"));
    assert_eq!(Some(Delete), parse_angle("del"));
    assert_eq!(Some(F(1)), parse_angle("f1"));
    assert_eq!(Some(F(12)), parse_angle("f12"));
    assert_eq!(Some(Keypad(0)), parse_angle("k0"));
    assert_eq!(Some(Keypad(9)), parse_angle("k9"));
    assert_eq!(Some(KeypadDot), parse_angle("kpoint"));
    assert_eq!(Some(Space), parse_angle("space"));
}

#[test]
fn parse_angle_lowers_the_case() {
    assert_eq!(Some(Tab), parse_angle("TAB"));
    assert_eq!(Some(Esc), parse_angle("Esc"));
    assert_eq!(Some(Key::KeypadPageUp), parse_angle("kPageUp"));
}

#[test]
fn parse_angle_refuses_other_words() {
    assert_eq!(None, parse_angle("backspace"));
    assert_eq!(None, parse_angle(""));
    assert_eq!(None, parse_angle("f13"));
    assert_eq!(None, parse_angle("a"));
}

#[test]
fn key_by_name_takes_the_name_as_it_is() {
    assert_eq!(Some(Tab), key_by_name("tab"));
    assert_eq!(None, key_by_name("TAB"));
    assert_eq!(None, key_by_name("ta"));
    assert_eq!(None, key_by_name("tabs"));
}

#[test]
fn parse_key_takes_one_character() {
    assert_eq!(Some(Char('a')), parse_key("a"));
    assert_eq!(Some(Char('\u{e9}')), parse_key("\u{e9}"));
    assert_eq!(None, parse_key(""));
    assert_eq!(None, parse_key("ab"));
}

#[test]
fn parse_any_prefers_the_name() {
    assert_eq!(Some(Tab), parse_any("tab"));
    assert_eq!(Some(Char('w')), parse_any("w"));
    assert_eq!(None, parse_any("ww"));
}

#[test]
fn parse_reads_plain_characters() {
    assert_eq!(parse("123d"), vec![A(Char('1')), A(Char('2')), A(Char('3')), A(Char('d'))]);
    assert_eq!(parse(""), Vec::<MultiKey>::new());
    assert_eq!(parse(">"), vec![A(Char('>'))]);
}

#[test]
fn parse_reads_modifiers_in_either_case() {
    assert_eq!(parse("<C-w>"), vec![Ctrl(Char('w'))]);
    assert_eq!(parse("<c-W>"), vec![Ctrl(Char('W'))]);
    assert_eq!(parse("<M-x>"), vec![Alt(Char('x'))]);
    assert_eq!(parse("<A-x>"), vec![Alt(Char('x'))]);
    assert_eq!(parse("<D-Esc>"), vec![Cmd(Esc)]);
    assert_eq!(parse("<C-r><C-r>"), vec![Ctrl(Char('r')), Ctrl(Char('r'))]);
}

#[test]
fn parse_reads_an_unknown_name_as_characters() {
    assert_eq!(
        parse("<foo>"),
        vec![A(Char('<')), A(Char('f')), A(Char('o')), A(Char('o')), A(Char('>'))]
    );
    assert_eq!(parse("<>"), vec![A(Char('<')), A(Char('>'))]);
    assert_eq!(
        parse("<S-xy>"),
        vec![
            A(Char('<')),
            A(Char('S')),
            A(Char('-')),
            A(Char('x')),
            A(Char('y')),
            A(Char('>'))
        ]
    );
    assert_eq!(
        parse("<S->"),
        vec![A(Char('<')), A(Char('S')), A(Char('-')), A(Char('>'))]
    );
}

#[test]
fn parse_gives_nothing_for_an_open_bracket() {
    assert_eq!(parse("<"), Vec::<MultiKey>::new());
    assert_eq!(parse("a<"), Vec::<MultiKey>::new());
    assert_eq!(parse("<S"), Vec::<MultiKey>::new());
    assert_eq!(parse("<S-"), Vec::<MultiKey>::new());
    assert_eq!(parse("i<esc"), Vec::<MultiKey>::new());
    assert_eq!(parse("<tab><"), Vec::<MultiKey>::new());
}

#[test]
fn parse_reads_lt() {
    assert_eq!(parse("<lt>"), vec![A(Char('<'))]);
    assert_eq!(parse("a<lt>b"), vec![A(Char('a')), A(Char('<')), A(Char('b'))]);
}

#[test]
fn keys_are_ordered_as_they_are_declared() {
    let keys = [
        Key::Backspace,
        Key::Left,
        Key::Insert,
        Key::F(0),
        Key::F(255),
        Key::Char('\0'),
        Key::Char('a'),
        Key::Char('\u{10ffff}'),
        Key::Null,
        Key::Keypad(3),
        Key::KeypadDot,
    ];
    for i in 0..keys.len() {
        for j in 0..keys.len() {
            assert_eq!(keys[i] < keys[j], keys[i].less(&keys[j]));
            assert_eq!(i < j, keys[i].less(&keys[j]));
        }
    }
}

#[test]
fn keystrokes_are_ordered_by_modifier_then_key() {
    let keys = [
        A(Key::Backspace),
        A(Key::KeypadDot),
        Shift(Key::Backspace),
        Shift(Key::Char('a')),
        Ctrl(Key::Backspace),
        Alt(Key::F(1)),
        Cmd(Key::Backspace),
        Cmd(Key::KeypadDot),
    ];
    for i in 0..keys.len() {
        for j in 0..keys.len() {
            assert_eq!(keys[i] < keys[j], keys[i].less(&keys[j]));
            assert_eq!(i < j, keys[i].less(&keys[j]));
        }
    }
}

#[test]
fn key_ordinals() {
    assert_eq!(0, Key::Backspace.ordinal());
    assert_eq!(11 * 0x1_0000_0000 + 7, Key::F(7).ordinal());
    assert_eq!(12 * 0x1_0000_0000 + 97, Key::Char('a').ordinal());
    assert_eq!(32 * 0x1_0000_0000, Key::KeypadDot.ordinal());
    assert_eq!(12 * 0x1_0000_0000 + 97, A(Key::Char('a')).ordinal());
    assert_eq!((2 * 33 + 14) * 0x1_0000_0000, Ctrl(Key::Esc).ordinal());
}

#[test]
fn keystrokes_as_text() {
    assert_eq!(Some('7'), A(Char('7')).decimal());
    assert_eq!(None, A(Char('x')).decimal());
    assert_eq!(None, Ctrl(Char('7')).decimal());
    assert_eq!(None, A(Tab).decimal());
    assert_eq!(Some('x'), A(Char('x')).character());
    assert_eq!(Some(' '), A(Space).character());
    assert_eq!(None, A(Tab).character());
    assert_eq!(None, Shift(Char('x')).character());
}

#[test]
fn sequences_are_ordered_lexicographically() {
    let a: Vec<u8> = vec![];
    let b = vec![1u8];
    let c = vec![1u8, 0];
    let d = vec![1u8, 2];
    let e = vec![2u8];
    let all = [a, b, c, d, e];
    for i in 0..all.len() {
        for j in 0..all.len() {
            assert_eq!(i < j, all[i].less(&all[j]));
            assert_eq!(all[i] < all[j], all[i].less(&all[j]));
        }
    }
}
