//! Change mode: reads two hexadecimal digits and replaces the byte under
//! the cursor by the byte they write.

use vstd::prelude::*;
use crate::event::{KeyCode, KeyEvent, MouseEvent};
use crate::geometry::{byte_under_cursor, focused_byte};
use crate::hex::{all_hex, ascii_upper, hex_number, is_ascii_hexdigit, is_hex_digit, lemma_hex_number_bound, parse_hex, pow16, to_ascii_uppercase};
use crate::modes::Modes;
use crate::overlay::{mark_changed, mark_changed_view};
use crate::state::{Parameters, TermState, TermStateView};

verus! {

/// Change mode: the digits typed so far.
pub struct ChangeMode<'a> {
    pub input: Vec<char>,
    pub parameters: &'a Parameters,
}

/// Whether a character is taken as a digit: a hexadecimal digit, while
/// fewer than two are typed.
pub open spec fn change_accepts(input: Seq<char>, c: char) -> bool {
    c != 'q' && is_hex_digit(c) && input.len() < 2
}

/// The byte that Enter writes and where: the byte written by the two
/// digits, at the index under the cursor. `None` where two digits are not
/// typed yet or the buffer has no byte under the cursor.
pub open spec fn change_commits(input: Seq<char>, v: TermStateView, byte_size: u16) -> Option<
    (usize, u8),
> {
    if input.len() == 2 {
        match focused_byte(v, byte_size) {
            Some(index) => Some((index, hex_number(input) as u8)),
            None => None,
        }
    } else {
        None
    }
}

/// The input after a key.
pub open spec fn change_input_after(
    input: Seq<char>,
    v: TermStateView,
    byte_size: u16,
    code: KeyCode,
) -> Seq<char> {
    match code {
        KeyCode::Char(c) => if c == 'q' {
            Seq::empty()
        } else if change_accepts(input, c) {
            input.push(ascii_upper(c))
        } else {
            input
        },
        KeyCode::Backspace => if input.len() > 0 {
            input.drop_last()
        } else {
            input
        },
        KeyCode::Enter => if change_commits(input, v, byte_size) is Some {
            Seq::empty()
        } else {
            input
        },
        _ => input,
    }
}

/// The mode after a key: `q` and a commit lead back to the bytes.
pub open spec fn change_next_mode(
    input: Seq<char>,
    v: TermStateView,
    byte_size: u16,
    code: KeyCode,
) -> Modes {
    match code {
        KeyCode::Char(c) => if c == 'q' {
            Modes::Bytes
        } else {
            Modes::Change
        },
        KeyCode::Enter => if change_commits(input, v, byte_size) is Some {
            Modes::Bytes
        } else {
            Modes::Change
        },
        _ => Modes::Change,
    }
}

/// The state after a key: a commit writes the byte and marks its index
/// changed.
pub open spec fn change_state_after(
    input: Seq<char>,
    v: TermStateView,
    byte_size: u16,
    code: KeyCode,
) -> TermStateView {
    if code == KeyCode::Enter {
        match change_commits(input, v, byte_size) {
            Some((index, value)) => mark_changed_view(v, index, value),
            None => v,
        }
    } else {
        v
    }
}

/// What a key does in Change mode.
pub open spec fn change_key_handled(
    pre: ChangeMode,
    post: ChangeMode,
    code: KeyCode,
    before: TermStateView,
    after: TermStateView,
    next: Modes,
) -> bool {
    &&& post.parameters == pre.parameters
    &&& post.input@ == change_input_after(pre.input@, before, pre.parameters.byte_size, code)
    &&& next == change_next_mode(pre.input@, before, pre.parameters.byte_size, code)
    &&& after == change_state_after(pre.input@, before, pre.parameters.byte_size, code)
}

impl<'a> ChangeMode<'a> {
    /// The input holds hexadecimal digits only.
    pub open spec fn wf(&self) -> bool {
        all_hex(self.input@)
    }

    /// Change mode with an empty input.
    pub fn new(parameters: &'a Parameters) -> (mode: ChangeMode<'a>)
        ensures
            mode.wf(),
            mode.input@ == Seq::<char>::empty(),
            mode.parameters == parameters,
    {
        ChangeMode { input: Vec::new(), parameters }
    }

    /// Handles a key. Up to two hexadecimal digits are taken, in upper
    /// case; Backspace erases the last one; `q` drops the input and leaves
    /// the mode. Enter with two digits replaces the byte under the cursor
    /// by the byte they write, marks its index changed, drops the input
    /// and leaves the mode; with fewer digits, or with no byte of the
    /// buffer under the cursor, it does nothing.
    pub fn handle_input(
        &mut self,
        event: &KeyEvent,
        state: &mut TermState,
        parameters: &Parameters,
    ) -> (next: Modes)
        requires
            old(self).wf(),
        ensures
            final(self).wf(),
            change_key_handled(
                *old(self),
                *final(self),
                event.code,
                old(state)@,
                final(state)@,
                next,
            ),
            old(state).wf(parameters) ==> final(state).wf(parameters),
    {
        let end_mode = match event.code {
            KeyCode::Char(char) => {
                if char == 'q' {
                    self.input.clear();
                    return Modes::Bytes;
                }
                if !is_ascii_hexdigit(char) || self.input.len() >= 2 {
                    return Modes::Change;
                }
                self.input.push(to_ascii_uppercase(char));
                Modes::Change
            },
            KeyCode::Backspace => {
                self.input.pop();
                assert(self.input@ =~= change_input_after(
                    old(self).input@,
                    old(state)@,
                    old(self).parameters.byte_size,
                    event.code,
                ));
                Modes::Change
            },
            KeyCode::Enter => {
                if self.input.len() != 2 {
                    return Modes::Change;
                }
                proof {
                    lemma_hex_number_bound(self.input@);
                    reveal_with_fuel(pow16, 3);
                }
                let byte = parse_hex(&self.input) as u8;
                let length = state.bytes.len();
                match byte_under_cursor(state, self.parameters) {
                    Some(byte_index) => {
                        if byte_index >= length {
                            return Modes::Change;
                        }
                        mark_changed(state, byte_index, byte);
                        self.input.clear();
                        Modes::Bytes
                    },
                    None => Modes::Change,
                }
            },
            _ => Modes::Change,
        };
        end_mode
    }

    /// The mouse does nothing in this mode.
    pub fn handle_mouse(
        &mut self,
        event: &MouseEvent,
        state: &mut TermState,
        parameters: &Parameters,
    ) -> (next: Modes)
        ensures
            next == Modes::Change,
            *final(self) == *old(self),
            *final(state) == *old(state),
    {
        Modes::Change
    }

    /// A resize does nothing in this mode.
    pub fn handle_resize(
        &mut self,
        width: u16,
        height: u16,
        state: &mut TermState,
        parameters: &Parameters,
    ) -> (next: Modes)
        ensures
            next == Modes::Change,
            *final(self) == *old(self),
            *final(state) == *old(state),
    {
        Modes::Change
    }

    /// This mode never ends the session.
    pub fn should_quit(&self) -> (quit: bool)
        ensures
            !quit,
    {
        false
    }
}

} // verus!
