//! Search mode: reads a string of hexadecimal digits and searches the
//! buffer for the bytes it writes.

use vstd::prelude::*;
use crate::event::{KeyCode, KeyEvent, MouseEvent};
use crate::hex::{all_hex, hex_pattern, is_ascii_hexdigit, is_hex_digit, parse_hex_pattern};
use crate::modes::Modes;
use crate::pattern::{all_matches, naive_search};
use crate::state::{Parameters, TermState, TermStateView};

verus! {

/// The screen column of the cursor where the input is empty: one past the
/// prompt `Search for: `.
pub const SEARCH_HOME: usize = 13;

/// Search mode: the digits typed so far and the input cursor.
pub struct SearchMode {
    pub input: Vec<char>,
    /// The screen column of the input cursor.
    pub cursor: usize,
    pub draw_error: bool,
}

/// Whether Backspace has a digit to erase: the one before the cursor.
pub open spec fn search_can_erase(input: Seq<char>, cursor: usize) -> bool {
    cursor >= SEARCH_HOME + 1 && cursor - (SEARCH_HOME + 1) < input.len()
}

/// Whether a character is taken as a digit of the pattern.
pub open spec fn search_accepts(cursor: usize, c: char) -> bool {
    c != 'q' && is_hex_digit(c) && cursor < usize::MAX
}

/// The input after a key.
pub open spec fn search_input_after(input: Seq<char>, cursor: usize, code: KeyCode) -> Seq<char> {
    match code {
        KeyCode::Backspace => if search_can_erase(input, cursor) {
            input.remove(cursor - (SEARCH_HOME + 1))
        } else {
            input
        },
        KeyCode::Char(c) => if search_accepts(cursor, c) {
            input.push(c)
        } else {
            input
        },
        _ => input,
    }
}

/// The input cursor after a key.
pub open spec fn search_cursor_after(input: Seq<char>, cursor: usize, code: KeyCode) -> usize {
    match code {
        KeyCode::Right => if cursor < usize::MAX {
            (cursor + 1) as usize
        } else {
            cursor
        },
        KeyCode::Left => if cursor > SEARCH_HOME {
            (cursor - 1) as usize
        } else {
            cursor
        },
        KeyCode::Backspace => if search_can_erase(input, cursor) {
            (cursor - 1) as usize
        } else {
            cursor
        },
        KeyCode::Char(c) => if search_accepts(cursor, c) {
            (cursor + 1) as usize
        } else {
            cursor
        },
        _ => cursor,
    }
}

/// Whether a key starts the search: Enter on a non-empty input.
pub open spec fn search_runs(input: Seq<char>, code: KeyCode) -> bool {
    code == KeyCode::Enter && input.len() > 0
}

/// The mode after a key: `q` and a search that ran lead back to the bytes.
pub open spec fn search_next_mode(input: Seq<char>, code: KeyCode) -> Modes {
    match code {
        KeyCode::Char(c) => if c == 'q' {
            Modes::Bytes
        } else {
            Modes::Search
        },
        KeyCode::Enter => if input.len() > 0 {
            Modes::Bytes
        } else {
            Modes::Search
        },
        _ => Modes::Search,
    }
}

/// What a key does in Search mode.
pub open spec fn search_key_handled(
    pre: SearchMode,
    post: SearchMode,
    code: KeyCode,
    before: TermStateView,
    after: TermStateView,
    next: Modes,
) -> bool {
    &&& post.input@ == search_input_after(pre.input@, pre.cursor, code)
    &&& post.cursor == search_cursor_after(pre.input@, pre.cursor, code)
    &&& !post.draw_error
    &&& next == search_next_mode(pre.input@, code)
    &&& after == (if search_runs(pre.input@, code) {
        TermStateView { found: all_matches(hex_pattern(pre.input@), before.bytes), ..before }
    } else {
        before
    })
}

impl SearchMode {
    /// The input holds hexadecimal digits only.
    pub open spec fn wf(&self) -> bool {
        all_hex(self.input@)
    }

    /// Search mode with an empty input.
    pub fn new() -> (mode: SearchMode)
        ensures
            mode.wf(),
            mode.input@ == Seq::<char>::empty(),
            mode.cursor == SEARCH_HOME,
            !mode.draw_error,
    {
        SearchMode { input: Vec::new(), cursor: SEARCH_HOME, draw_error: false }
    }

    /// Handles a key. Hexadecimal digits are appended to the input; Left
    /// and Right move the input cursor; Backspace erases the digit before
    /// the cursor; `q` leaves the mode. Enter on a non-empty input reads
    /// the digits in pairs as bytes (a last single digit is a byte by
    /// itself), replaces the matches of the state by the occurrences of
    /// these bytes in the buffer, and leaves the mode. A key that cannot be
    /// obeyed is ignored.
    pub fn handle_input(
        &mut self,
        event: &KeyEvent,
        state: &mut TermState,
        parameters: &Parameters,
    ) -> (next: Modes)
        requires
            old(self).wf(),
        ensures
            final(self).wf(),
            search_key_handled(
                *old(self),
                *final(self),
                event.code,
                old(state)@,
                final(state)@,
                next,
            ),
            old(state).wf(parameters) ==> final(state).wf(parameters),
    {
        if self.draw_error {
            self.draw_error = false;
        }
        let end_mode = match event.code {
            KeyCode::Right => {
                if self.cursor < usize::MAX {
                    self.cursor += 1;
                }
                Modes::Search
            },
            KeyCode::Left => {
                if self.cursor > SEARCH_HOME {
                    self.cursor -= 1;
                }
                Modes::Search
            },
            KeyCode::Backspace => {
                if self.cursor >= SEARCH_HOME + 1 && self.cursor - (SEARCH_HOME + 1) < self.input.len() {
                    self.input.remove(self.cursor - (SEARCH_HOME + 1));
                    self.cursor -= 1;
                }
                Modes::Search
            },
            KeyCode::Char(char) => {
                if char == 'q' {
                    return Modes::Bytes;
                }
                if !is_ascii_hexdigit(char) || self.cursor == usize::MAX {
                    return Modes::Search;
                }
                self.input.push(char);
                self.cursor += 1;
                Modes::Search
            },
            KeyCode::Enter => {
                if self.input.len() == 0 {
                    return Modes::Search;
                }
                let bytes = parse_hex_pattern(&self.input);
                state.found_sequences = naive_search(&bytes, &state.bytes);
                Modes::Bytes
            },
            _ => Modes::Search,
        };
        end_mode
    }

    /// The mouse does nothing in this mode.
    pub fn handle_mouse(
        &mut self,
        event: &MouseEvent,
        state: &mut TermState,
        parameters: &Parameters,
    ) -> (next: Modes)
        ensures
            next == Modes::Search,
            *final(self) == *old(self),
            *final(state) == *old(state),
    {
        Modes::Search
    }

    /// A resize does nothing in this mode.
    pub fn handle_resize(
        &mut self,
        width: u16,
        height: u16,
        state: &mut TermState,
        parameters: &Parameters,
    ) -> (next: Modes)
        ensures
            next == Modes::Search,
            *final(self) == *old(self),
            *final(state) == *old(state),
    {
        Modes::Search
    }
}

} // verus!
