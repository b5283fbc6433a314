use vixi::command::{request, Call, Command, Request, Target};
use vixi::key::parse::parse;
use vixi::key::MultiKey;
use vixi::maps::{insert_mode_map, normal_mode_map, pending_mode_map};
use vixi::mode::{
    insert, normal, pending, recast_normal, recast_pending, replace, Mode, NextMode, Transition,
};
use vixi::op::{InsertOp, MotionOp, ObjectOp, OperatorOp};
use vixi::state::State;
use vixi::state_machine::StateMachine;
use vixi::typeahead::RemapType;
use vixi::vixi::Vixi;

fn fresh() -> State<MultiKey> {
    State::new(normal_mode_map(), pending_mode_map(), insert_mode_map())
}

fn feed(state: &mut State<MultiKey>, mode: Mode<MultiKey>, keys: &str) -> Mode<MultiKey> {
    let mut mode = mode;
    for key in parse(keys) {
        state.put(key, RemapType::Remap);
        mode = mode.transition(state);
    }
    mode
}

#[test]
fn a_fresh_state() {
    let state = fresh();
    assert_eq!(1, state.count);
    assert_eq!(None, state.operator);
    assert!(state.typeahead.is_empty());
    assert!(state.commands.is_empty());
}

#[test]
fn mode_names() {
    assert_eq!("Normal", normal::<MultiKey>().name());
    assert_eq!("Pending", pending::<MultiKey>(NextMode::Normal).name());
    assert_eq!("Pending", pending::<MultiKey>(NextMode::Insert).name());
    assert_eq!("Insert", insert::<MultiKey>().name());
    assert_eq!("Insert", replace::<MultiKey>().name());
}

#[test]
fn recast_gives_the_mode_again() {
    match normal::<MultiKey>() {
        Mode::Normal(m) => assert_eq!("Normal", recast_normal(&m).name()),
        _ => panic!("normal() is Normal mode"),
    }
    match pending::<MultiKey>(NextMode::Insert) {
        Mode::Pending(m) => match recast_pending(&m) {
            Mode::Pending(again) => {
                assert!(matches!(again.next_mode, NextMode::Insert));
                assert_eq!("Insert", again.next_mode().name());
            }
            _ => panic!("recast_pending gives Pending mode"),
        },
        _ => panic!("pending() is Pending mode"),
    }
}

#[test]
fn mode_round_trip() {
    let mut state = fresh();
    let mode = feed(&mut state, normal(), "i");
    assert_eq!("Insert", mode.name());
    let mode = feed(&mut state, mode, "<Esc>");
    assert_eq!("Normal", mode.name());
    let mode = feed(&mut state, mode, "d");
    assert_eq!("Pending", mode.name());
    match mode {
        Mode::Pending(p) => assert!(matches!(p.next_mode, NextMode::Normal)),
        _ => panic!("an operator leads to Pending mode"),
    }
    assert_eq!(Some(OperatorOp::Delete), state.operator);
    let mode = feed(&mut state, mode, "<Esc>");
    assert_eq!("Normal", mode.name());
    assert_eq!(None, state.operator);
    assert!(state.commands.is_empty());
}

#[test]
fn count_is_captured_before_the_operator() {
    let mut state = fresh();
    let mode = feed(&mut state, normal(), "123");
    assert_eq!("Normal", mode.name());
    assert_eq!(1, state.count);
    assert_eq!(3, state.typeahead.len());
    let mode = feed(&mut state, mode, "d");
    assert_eq!("Pending", mode.name());
    assert_eq!(123, state.count);
    assert_eq!(Some(OperatorOp::Delete), state.operator);
    assert!(state.typeahead.is_empty());
}

#[test]
fn a_count_of_zero_counts_as_one() {
    let mut state = fresh();
    let mode = feed(&mut state, normal(), "0d");
    assert_eq!("Pending", mode.name());
    assert_eq!(1, state.count);
}

#[test]
fn counted_motion_goes_to_the_backend() {
    let mut state = fresh();
    let mode = feed(&mut state, normal(), "3j");
    assert_eq!("Normal", mode.name());
    assert_eq!(vec![Command::Motion(MotionOp::Down, 3)], state.commands);
    assert_eq!(1, state.count);
    let mode = feed(&mut state, mode, "w");
    assert_eq!("Normal", mode.name());
    assert_eq!(
        vec![Command::Motion(MotionOp::Down, 3), Command::Motion(MotionOp::Word, 1)],
        state.commands
    );
}

#[test]
fn repeat_and_replace_char_go_to_the_backend() {
    let mut state = fresh();
    let mode = feed(&mut state, normal(), "2.r");
    assert_eq!("Normal", mode.name());
    assert_eq!(vec![Command::Repeat(2), Command::ReplaceChar(1)], state.commands);
}

#[test]
fn replace_mode_is_insert_mode() {
    let mut state = fresh();
    let mode = feed(&mut state, normal(), "R");
    assert_eq!("Insert", mode.name());
    let mode = feed(&mut state, mode, "x");
    assert_eq!("Insert", mode.name());
    assert_eq!(vec![Command::Char('x')], state.commands);
}

#[test]
fn operator_with_motion() {
    let mut state = fresh();
    let mode = feed(&mut state, normal(), "dw");
    assert_eq!("Normal", mode.name());
    assert_eq!(
        vec![Command::Operate(OperatorOp::Delete, Target::Motion(MotionOp::Word), 1)],
        state.commands
    );
    assert_eq!(None, state.operator);
    assert_eq!(1, state.count);
}

#[test]
fn operator_with_operator() {
    let mut state = fresh();
    let mode = feed(&mut state, normal(), "4yy");
    assert_eq!("Normal", mode.name());
    assert_eq!(
        vec![Command::Operate(OperatorOp::Yank, Target::Operator(OperatorOp::Yank), 4)],
        state.commands
    );
}

#[test]
fn counts_multiply_in_pending_mode() {
    let mut state = fresh();
    let mode = feed(&mut state, normal(), "2d3");
    assert_eq!("Pending", mode.name());
    assert_eq!(2, state.count);
    let mode = feed(&mut state, mode, "l");
    assert_eq!("Normal", mode.name());
    assert_eq!(
        vec![Command::Operate(OperatorOp::Delete, Target::Motion(MotionOp::Right), 6)],
        state.commands
    );
    assert_eq!(1, state.count);
}

#[test]
fn counts_stop_at_the_largest_i32() {
    let mut state = fresh();
    let mode = feed(&mut state, normal(), "65536c65536j");
    assert_eq!("Normal", mode.name());
    assert_eq!(
        vec![Command::Operate(OperatorOp::Change, Target::Motion(MotionOp::Down), i32::MAX)],
        state.commands
    );
}

#[test]
fn unbound_keys_are_dropped_in_normal_mode() {
    let mut state = fresh();
    let mode = feed(&mut state, normal(), "Q");
    assert_eq!("Normal", mode.name());
    assert!(state.typeahead.is_empty());
    assert!(state.commands.is_empty());
}

#[test]
fn unbound_keys_are_dropped_in_pending_mode() {
    let mut state = fresh();
    let mode = feed(&mut state, normal(), "3dQ");
    assert_eq!("Pending", mode.name());
    match mode {
        Mode::Pending(p) => assert!(matches!(p.next_mode, NextMode::Normal)),
        _ => panic!("the mode stays Pending"),
    }
    assert!(state.typeahead.is_empty());
    assert!(state.commands.is_empty());
    assert_eq!(Some(OperatorOp::Delete), state.operator);
    assert_eq!(3, state.count);
    // The operator still waits, and a motion completes it.
    let mode = feed(&mut state, mode, "w");
    assert_eq!("Normal", mode.name());
    assert_eq!(
        vec![Command::Operate(OperatorOp::Delete, Target::Motion(MotionOp::Word), 3)],
        state.commands
    );
}

#[test]
fn a_remap_cycle_is_dropped_in_pending_mode() {
    let mut state = fresh();
    state.pending_mode_map.insert_remap(parse("1"), parse("2"));
    state.pending_mode_map.insert_remap(parse("2"), parse("1"));
    state.operator = Some(OperatorOp::Yank);
    state.count = 5;
    let mode = feed(&mut state, pending(NextMode::Insert), "1");
    assert_eq!("Pending", mode.name());
    match mode {
        Mode::Pending(p) => assert!(matches!(p.next_mode, NextMode::Insert)),
        _ => panic!("the mode stays Pending"),
    }
    assert!(state.typeahead.is_empty());
    assert_eq!(Some(OperatorOp::Yank), state.operator);
    assert_eq!(5, state.count);
}

#[test]
fn pending_mode_goes_back_where_it_is_told() {
    let mut state = fresh();
    state.operator = Some(OperatorOp::Delete);
    let mode = feed(&mut state, pending(NextMode::Insert), "w");
    assert_eq!("Insert", mode.name());
    assert_eq!(
        vec![Command::Operate(OperatorOp::Delete, Target::Motion(MotionOp::Word), 1)],
        state.commands
    );
}

#[test]
fn pending_mode_without_operator_asks_nothing() {
    let mut state = fresh();
    let mode = feed(&mut state, pending(NextMode::Normal), "w");
    assert_eq!("Normal", mode.name());
    assert!(state.commands.is_empty());
}

#[test]
fn text_objects_wait_for_their_second_key() {
    let mut state = fresh();
    state.operator = Some(OperatorOp::Change);
    let mode = feed(&mut state, pending(NextMode::Normal), "i");
    // `i` alone could become `iw`, `ip`, ...: it waits.
    assert_eq!("Pending", mode.name());
    assert_eq!(1, state.typeahead.len());
    assert_eq!(Some(OperatorOp::Change), state.operator);
    let mode = feed(&mut state, mode, "p");
    assert_eq!("Normal", mode.name());
    assert!(state.typeahead.is_empty());
    assert_eq!(
        vec![Command::Operate(OperatorOp::Change, Target::Object(ObjectOp::InnerParagraph), 1)],
        state.commands
    );
    assert_eq!(None, state.operator);
}

#[test]
fn the_start_of_a_longer_binding_waits_in_normal_mode() {
    let mut state = fresh();
    let mode = feed(&mut state, normal(), "g");
    assert_eq!("Normal", mode.name());
    assert_eq!(1, state.typeahead.len());
    assert!(state.commands.is_empty());
    let mode = feed(&mut state, mode, "g");
    assert_eq!("Normal", mode.name());
    assert!(state.typeahead.is_empty());
    assert_eq!(vec![Command::Motion(MotionOp::Top, 1)], state.commands);
}

#[test]
fn a_key_that_ends_the_wait_without_a_match_is_dropped_with_it() {
    let mut state = fresh();
    let mode = feed(&mut state, normal(), "gQ");
    assert_eq!("Normal", mode.name());
    assert!(state.typeahead.is_empty());
    assert!(state.commands.is_empty());
}

#[test]
fn a_count_goes_before_keys_that_wait() {
    let mut state = fresh();
    let mode = feed(&mut state, normal(), "3g");
    assert_eq!("Normal", mode.name());
    assert_eq!(3, state.count);
    assert_eq!(1, state.typeahead.len());
    let mode = feed(&mut state, mode, "u");
    assert_eq!("Pending", mode.name());
    assert_eq!(Some(OperatorOp::ToLower), state.operator);
    assert_eq!(3, state.count);
}

#[test]
fn operators_of_two_keys_can_be_typed() {
    let mut vixi = Vixi::new();
    vixi.process("zf");
    assert_eq!("Pending", vixi.mode());
    vixi.process("aw");
    assert_eq!("Normal", vixi.mode());
    assert_eq!(
        vec![Command::Operate(OperatorOp::DefineFold, Target::Object(ObjectOp::AWord), 1)],
        vixi.take_commands()
    );
}

#[test]
fn commands_name_their_calls() {
    let one = |call| Some(Request { call, times: 1 });
    assert_eq!(one(Call::Char('x')), request(&Command::Char('x')));
    assert_eq!(one(Call::InsertNewline), request(&Command::InsertNewline));
    assert_eq!(one(Call::Up), request(&Command::Edit(InsertOp::Up)));
    assert_eq!(one(Call::Down), request(&Command::Edit(InsertOp::Down)));
    assert_eq!(one(Call::Left), request(&Command::Edit(InsertOp::Left)));
    assert_eq!(one(Call::Right), request(&Command::Edit(InsertOp::Right)));
    assert_eq!(one(Call::PageUp), request(&Command::Edit(InsertOp::PageUp)));
    assert_eq!(one(Call::PageDown), request(&Command::Edit(InsertOp::PageDown)));
    assert_eq!(one(Call::Backspace), request(&Command::Edit(InsertOp::Backspace)));
    assert_eq!(one(Call::Delete), request(&Command::Edit(InsertOp::Delete)));
    assert_eq!(one(Call::DeleteWord), request(&Command::Edit(InsertOp::DeleteWord)));
    assert_eq!(one(Call::DeleteLine), request(&Command::Edit(InsertOp::DeleteLine)));
    assert_eq!(one(Call::Char('\t')), request(&Command::Edit(InsertOp::Tab)));
    assert_eq!(one(Call::LineStart), request(&Command::Edit(InsertOp::Home)));
    assert_eq!(one(Call::LineEnd), request(&Command::Edit(InsertOp::End)));
    assert_eq!(None, request(&Command::Edit(InsertOp::Cancel)));
    assert_eq!(None, request(&Command::Edit(InsertOp::Quit)));
    assert_eq!(None, request(&Command::Edit(InsertOp::Digraph)));
    assert_eq!(None, request(&Command::Edit(InsertOp::InsertRegister)));
    assert_eq!(None, request(&Command::Edit(InsertOp::InsertRegisterContents)));
    assert_eq!(None, request(&Command::ReplaceChar(2)));
    assert_eq!(None, request(&Command::Repeat(2)));
}

#[test]
fn counted_commands_name_their_calls_and_times() {
    let times = |call, times| Some(Request { call, times });
    assert_eq!(times(Call::Left, 3), request(&Command::Motion(MotionOp::Left, 3)));
    assert_eq!(times(Call::Right, 1), request(&Command::Motion(MotionOp::Right, 1)));
    assert_eq!(times(Call::Up, 2), request(&Command::Motion(MotionOp::Up, 2)));
    assert_eq!(times(Call::Down, 7), request(&Command::Motion(MotionOp::Down, 7)));
    assert_eq!(times(Call::PageUp, 2), request(&Command::Motion(MotionOp::PageUp, 2)));
    assert_eq!(times(Call::PageDown, 2), request(&Command::Motion(MotionOp::PageDown, 2)));
    assert_eq!(times(Call::Left, 4), request(&Command::Motion(MotionOp::Backspace, 4)));
    assert_eq!(times(Call::Delete, 4), request(&Command::Motion(MotionOp::Delete, 4)));
    assert_eq!(times(Call::LineStart, 1), request(&Command::Motion(MotionOp::Home, 1)));
    assert_eq!(times(Call::LineEnd, 1), request(&Command::Motion(MotionOp::End, 1)));
    assert_eq!(None, request(&Command::Motion(MotionOp::Top, 1)));
    assert_eq!(None, request(&Command::Motion(MotionOp::Bottom, 1)));
    assert_eq!(None, request(&Command::Motion(MotionOp::Word, 1)));
    assert_eq!(
        times(Call::Operate(OperatorOp::Yank, Target::Object(ObjectOp::ATag)), 5),
        request(&Command::Operate(OperatorOp::Yank, Target::Object(ObjectOp::ATag), 5))
    );
}

#[test]
fn insert_mode_types_unbound_text() {
    let mut state = fresh();
    let mode = feed(&mut state, insert(), "a");
    assert_eq!("Insert", mode.name());
    assert_eq!(vec![Command::Char('a')], state.commands);
    assert!(state.typeahead.is_empty());
}

#[test]
fn insert_mode_types_line_breaks() {
    let mut state = fresh();
    let mode = feed(&mut state, insert(), "a<nl>b<cr>");
    assert_eq!("Insert", mode.name());
    assert_eq!(
        vec![
            Command::Char('a'),
            Command::InsertNewline,
            Command::Char('b'),
            Command::InsertNewline
        ],
        state.commands
    );
}

#[test]
fn insert_mode_hands_on_its_keys() {
    let mut state = fresh();
    let keys = "<Up><Down><Left><Right><PageUp><PageDown><Tab><C-w><C-u><home><kend><C-k>";
    let mode = feed(&mut state, insert(), keys);
    assert_eq!("Insert", mode.name());
    assert_eq!(
        vec![
            Command::Edit(InsertOp::Up),
            Command::Edit(InsertOp::Down),
            Command::Edit(InsertOp::Left),
            Command::Edit(InsertOp::Right),
            Command::Edit(InsertOp::PageUp),
            Command::Edit(InsertOp::PageDown),
            Command::Edit(InsertOp::Tab),
            Command::Edit(InsertOp::DeleteWord),
            Command::Edit(InsertOp::DeleteLine),
            Command::Edit(InsertOp::Home),
            Command::Edit(InsertOp::End),
            Command::Edit(InsertOp::Digraph),
        ],
        state.commands
    );
}

#[test]
fn insert_mode_waits_on_an_ambiguous_key() {
    let mut state = fresh();
    let mode = feed(&mut state, insert(), "<C-r>");
    assert_eq!("Insert", mode.name());
    assert_eq!(1, state.typeahead.len());
    assert!(state.commands.is_empty());
    let mode = feed(&mut state, mode, "<C-r>");
    assert_eq!("Insert", mode.name());
    assert_eq!(vec![Command::Edit(InsertOp::InsertRegisterContents)], state.commands);
    assert!(state.typeahead.is_empty());
}

#[test]
fn insert_mode_resolves_once_the_ambiguity_is_gone() {
    let mut state = fresh();
    let mode = feed(&mut state, insert(), "<C-r>a");
    assert_eq!("Insert", mode.name());
    assert_eq!(vec![Command::Edit(InsertOp::InsertRegister)], state.commands);
    assert_eq!(1, state.typeahead.len());
    let mode = feed(&mut state, mode, "b");
    assert_eq!("Insert", mode.name());
    assert_eq!(
        vec![
            Command::Edit(InsertOp::InsertRegister),
            Command::Char('a'),
            Command::Char('b')
        ],
        state.commands
    );
}

#[test]
fn remap_cycle_clears_the_buffer() {
    let mut state = fresh();
    state.normal_mode_map.insert_remap(parse("1"), parse("2"));
    state.normal_mode_map.insert_remap(parse("2"), parse("1"));
    let mode = feed(&mut state, normal(), "1");
    assert_eq!("Normal", mode.name());
    assert!(state.typeahead.is_empty());
    assert!(state.commands.is_empty());
}

#[test]
fn a_remapped_count_takes_effect_at_once() {
    let mut state = fresh();
    state.normal_mode_map.insert_remap(parse("12"), parse("i"));
    let mode = feed(&mut state, normal(), "1");
    assert_eq!("Normal", mode.name());
    let mode = feed(&mut state, mode, "2");
    assert_eq!("Insert", mode.name());
    assert_eq!(1, state.count);
}

#[test]
fn cancel_and_quit_drop_what_was_begun() {
    let mut state = fresh();
    let mode = feed(&mut state, normal(), "5");
    assert_eq!("Normal", mode.name());
    assert_eq!(1, state.typeahead.len());
    // The key that ends the count is resolved in the same transition: the
    // count is read, and the cancel that follows drops it again.
    let mode = feed(&mut state, mode, "<Esc>");
    assert_eq!("Normal", mode.name());
    assert_eq!(1, state.count);
    assert!(state.typeahead.is_empty());
    state.count = 9;
    state.operator = Some(OperatorOp::Yank);
    state.put(parse("x")[0], RemapType::Remap);
    state.cancel();
    assert_eq!(1, state.count);
    assert_eq!(None, state.operator);
    assert!(state.typeahead.is_empty());
    let mode = feed(&mut state, insert(), "ab");
    state.count = 4;
    let mode = feed(&mut state, mode, "<Esc>");
    assert_eq!("Normal", mode.name());
    assert_eq!(4, state.count);
}

#[test]
fn state_machine_takes_keys_and_hands_out_commands() {
    let mut machine =
        StateMachine::<MultiKey>::new(normal_mode_map(), pending_mode_map(), insert_mode_map());
    assert_eq!("Normal", machine.mode());
    for key in parse("2l") {
        machine.process(key);
    }
    assert_eq!("Normal", machine.mode());
    assert_eq!(vec![Command::Motion(MotionOp::Right, 2)], machine.take_commands());
    assert!(machine.take_commands().is_empty());
}

#[test]
fn session_hands_out_commands_once() {
    let mut vixi = Vixi::new();
    vixi.process("ihi<Esc>dw");
    assert_eq!("Normal", vixi.mode());
    assert_eq!(
        vec![
            Command::Char('h'),
            Command::Char('i'),
            Command::Operate(OperatorOp::Delete, Target::Motion(MotionOp::Word), 1)
        ],
        vixi.take_commands()
    );
    assert!(vixi.take_commands().is_empty());
}

#[test]
fn session_ignores_a_notation_with_an_open_bracket() {
    let mut vixi = Vixi::new();
    vixi.process("i<esc");
    assert_eq!("Normal", vixi.mode());
}

#[test]
fn object_after_operator() {
    let mut state = fresh();
    state.operator = Some(OperatorOp::Yank);
    state.typeahead.put_front(&parse("aw"), RemapType::Remap);
    let mode = pending::<MultiKey>(NextMode::Normal).transition(&mut state);
    assert_eq!("Normal", mode.name());
    assert_eq!(
        vec![Command::Operate(OperatorOp::Yank, Target::Object(ObjectOp::AWord), 1)],
        state.commands
    );
}

#[test]
fn sequences_of_two_keys_resolve_when_both_wait() {
    let mut state = fresh();
    state.typeahead.put_front(&parse("gg"), RemapType::Remap);
    let mode = normal::<MultiKey>().transition(&mut state);
    assert_eq!("Normal", mode.name());
    assert_eq!(vec![Command::Motion(MotionOp::Top, 1)], state.commands);
}

#[test]
fn state_machine_goes_on_until_the_keys_have_come_to_rest() {
    let mut machine =
        StateMachine::<MultiKey>::new(normal_mode_map(), pending_mode_map(), insert_mode_map());
    for key in parse("i<C-r>") {
        machine.process(key);
    }
    assert_eq!("Insert", machine.mode());
    assert!(machine.take_commands().is_empty());
    // The key that ends the ambiguity is typed in the same call.
    for key in parse("a") {
        machine.process(key);
    }
    assert_eq!(
        vec![Command::Edit(InsertOp::InsertRegister), Command::Char('a')],
        machine.take_commands()
    );
}

#[test]
fn state_machine_reads_a_count_and_the_operator_in_one_call() {
    let mut machine =
        StateMachine::<MultiKey>::new(normal_mode_map(), pending_mode_map(), insert_mode_map());
    for key in parse("12") {
        machine.process(key);
    }
    assert_eq!("Normal", machine.mode());
    for key in parse("y") {
        machine.process(key);
    }
    assert_eq!("Pending", machine.mode());
    for key in parse("3y") {
        machine.process(key);
    }
    assert_eq!("Normal", machine.mode());
    assert_eq!(
        vec![Command::Operate(OperatorOp::Yank, Target::Operator(OperatorOp::Yank), 36)],
        machine.take_commands()
    );
}

#[test]
fn state_machine_stops_where_a_key_waits_for_more() {
    let mut normal_map = normal_mode_map();
    // One key becomes three; the first of them is an operation, and the
    // other two wait for the next key.
    normal_map.insert_remap(parse("Q"), parse("l12"));
    let mut machine =
        StateMachine::<MultiKey>::new(normal_map, pending_mode_map(), insert_mode_map());
    for key in parse("Q") {
        machine.process(key);
    }
    assert_eq!("Normal", machine.mode());
    assert_eq!(vec![Command::Motion(MotionOp::Right, 1)], machine.take_commands());
    for key in parse("j") {
        machine.process(key);
    }
    assert_eq!(vec![Command::Motion(MotionOp::Down, 12)], machine.take_commands());
}
