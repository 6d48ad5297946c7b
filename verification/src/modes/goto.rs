//! GoTo mode: reads an eight-digit hexadecimal offset and scrolls the
//! viewport to its row.

use vstd::prelude::*;
use crate::event::{KeyCode, KeyEvent, MouseEvent};
use crate::hex::{all_hex, ascii_upper, hex_number, is_ascii_hexdigit, is_hex_digit, parse_hex, to_ascii_uppercase};
use crate::modes::Modes;
use crate::state::{Parameters, TermState, TermStateView};

verus! {

/// The screen column of the first digit: one past the prompt
/// `Go to offset: 0x`.
pub const GOTO_FIRST: usize = 17;

/// The screen column of the last digit.
pub const GOTO_LAST: usize = 24;

/// GoTo mode: the eight digits of the offset and the input cursor.
pub struct GoToMode {
    pub input: Vec<char>,
    /// The screen column of the input cursor.
    pub cursor: usize,
    pub draw_error: bool,
}

/// The digits after a key: a hexadecimal digit replaces, in upper case, the
/// digit under the cursor.
pub open spec fn goto_input_after(input: Seq<char>, cursor: usize, code: KeyCode) -> Seq<char> {
    match code {
        KeyCode::Char(c) => if is_hex_digit(c) {
            input.update(cursor - GOTO_FIRST, ascii_upper(c))
        } else {
            input
        },
        _ => input,
    }
}

/// The input cursor after a key: Left and Right move it within the digits.
pub open spec fn goto_cursor_after(cursor: usize, code: KeyCode) -> usize {
    match code {
        KeyCode::Right => if cursor < GOTO_LAST {
            (cursor + 1) as usize
        } else {
            cursor
        },
        KeyCode::Left => if cursor > GOTO_FIRST {
            (cursor - 1) as usize
        } else {
            cursor
        },
        _ => cursor,
    }
}

/// The grid row that holds the offset written by `input`.
pub open spec fn goto_target(input: Seq<char>, byte_size: u16) -> int {
    hex_number(input) as int / byte_size as int
}

/// Whether the offset written by `input` is one the viewport can go to: its
/// row is at most the number of full rows of the buffer.
pub open spec fn goto_in_range(input: Seq<char>, bytes: Seq<u8>, byte_size: u16) -> bool {
    goto_target(input, byte_size) <= bytes.len() as int / byte_size as int
}

/// The mode after a key: `q` and Enter on an offset in range lead back to
/// the bytes.
pub open spec fn goto_next_mode(input: Seq<char>, bytes: Seq<u8>, byte_size: u16, code: KeyCode) -> Modes {
    match code {
        KeyCode::Char(c) => if c == 'q' {
            Modes::Bytes
        } else {
            Modes::GoTo
        },
        KeyCode::Enter => if goto_in_range(input, bytes, byte_size) {
            Modes::Bytes
        } else {
            Modes::GoTo
        },
        _ => Modes::GoTo,
    }
}

/// What a key does in GoTo mode.
pub open spec fn goto_key_handled(
    pre: GoToMode,
    post: GoToMode,
    code: KeyCode,
    before: TermStateView,
    after: TermStateView,
    byte_size: u16,
    next: Modes,
) -> bool {
    &&& post.input@ == goto_input_after(pre.input@, pre.cursor, code)
    &&& post.cursor == goto_cursor_after(pre.cursor, code)
    &&& post.draw_error == (code == KeyCode::Enter && !goto_in_range(
        pre.input@,
        before.bytes,
        byte_size,
    ))
    &&& next == goto_next_mode(pre.input@, before.bytes, byte_size, code)
    &&& after == (if code == KeyCode::Enter && goto_in_range(pre.input@, before.bytes, byte_size) {
        TermStateView { render_from_offset: goto_target(pre.input@, byte_size) as usize, ..before }
    } else {
        before
    })
}

impl GoToMode {
    /// The input is eight hexadecimal digits and the cursor is on one of
    /// them.
    pub open spec fn wf(&self) -> bool {
        &&& self.input@.len() == 8
        &&& all_hex(self.input@)
        &&& GOTO_FIRST <= self.cursor <= GOTO_LAST
    }

    /// GoTo mode with the offset `00000000` and the cursor on its last
    /// digit.
    pub fn new() -> (mode: GoToMode)
        ensures
            mode.wf(),
            mode.input@ == seq!['0', '0', '0', '0', '0', '0', '0', '0'],
            mode.cursor == GOTO_LAST,
            !mode.draw_error,
    {
        let mut input: Vec<char> = Vec::new();
        let mut i: usize = 0;
        while i < 8
            invariant
                i <= 8,
                input@.len() == i,
                forall|k: int| 0 <= k < i ==> input@[k] == '0',
            decreases 8 - i,
        {
            input.push('0');
            i += 1;
        }
        assert(input@ =~= seq!['0', '0', '0', '0', '0', '0', '0', '0']);
        GoToMode { input, cursor: GOTO_LAST, draw_error: false }
    }

    /// Handles a key. Left and Right move the cursor over the digits; a
    /// hexadecimal digit replaces the digit under the cursor; `q` leaves
    /// the mode. Enter reads the digits as an offset: where its row is in
    /// range, the viewport starts at that row and the mode is left;
    /// otherwise the error flag is set, for one key, and nothing else
    /// changes.
    pub fn handle_input(
        &mut self,
        event: &KeyEvent,
        state: &mut TermState,
        parameters: &Parameters,
    ) -> (next: Modes)
        requires
            old(self).wf(),
            old(state).wf(parameters),
        ensures
            final(self).wf(),
            final(state).wf(parameters),
            goto_key_handled(
                *old(self),
                *final(self),
                event.code,
                old(state)@,
                final(state)@,
                parameters.byte_size,
                next,
            ),
    {
        if self.draw_error {
            self.draw_error = false;
        }
        let end_mode = match event.code {
            KeyCode::Right => {
                if self.cursor < GOTO_LAST {
                    self.cursor += 1;
                }
                Modes::GoTo
            },
            KeyCode::Left => {
                if self.cursor > GOTO_FIRST {
                    self.cursor -= 1;
                }
                Modes::GoTo
            },
            KeyCode::Char(char) => {
                if char == 'q' {
                    return Modes::Bytes;
                }
                if !is_ascii_hexdigit(char) {
                    return Modes::GoTo;
                }
                self.input.set(self.cursor - GOTO_FIRST, to_ascii_uppercase(char));
                Modes::GoTo
            },
            KeyCode::Enter => {
                let total_number_of_offsets = state.bytes.len() / parameters.byte_size as usize;
                let number = parse_hex(&self.input) as usize;
                let goto = number / parameters.byte_size as usize;
                if goto <= total_number_of_offsets {
                    state.render_from_offset = goto;
                } else {
                    self.draw_error = true;
                    return Modes::GoTo;
                }
                Modes::Bytes
            },
            _ => Modes::GoTo,
        };
        end_mode
    }

    /// The mouse does nothing in this mode.
    pub fn handle_mouse(
        &mut self,
        event: &MouseEvent,
        state: &mut TermState,
        parameters: &Parameters,
    ) -> (next: Modes)
        ensures
            next == Modes::GoTo,
            *final(self) == *old(self),
            *final(state) == *old(state),
    {
        Modes::GoTo
    }

    /// A resize does nothing in this mode.
    pub fn handle_resize(
        &mut self,
        width: u16,
        height: u16,
        state: &mut TermState,
        parameters: &Parameters,
    ) -> (next: Modes)
        ensures
            next == Modes::GoTo,
            *final(self) == *old(self),
            *final(state) == *old(state),
    {
        Modes::GoTo
    }
}

} // verus!
