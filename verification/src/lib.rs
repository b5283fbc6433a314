//! A modal-editor input engine: keystrokes queue up in a typeahead buffer,
//! per-mode tables of remappings and operations are matched against the front
//! of that buffer with Vi's longest-match rule, and a small state machine
//! (Normal, Operator-Pending, Insert) decides the next mode and the commands
//! to hand to the editor backend.
pub mod order;
pub mod command;
pub mod common;
pub mod disambiguation_map;
pub mod insert_mode;
pub mod key;
pub mod maps;
pub mod mode;
pub mod mode_map;
pub mod normal_mode;
pub mod op;
pub mod ordered_vec_map;
pub mod pending_mode;
pub mod state;
pub mod state_machine;
pub mod typeahead;
pub mod vixi;
