//! The session state shared by all modes.

use vstd::prelude::*;
use std::collections::HashSet;
use crate::geometry::Dimensions;
use crate::modes::Modes;
use crate::pattern::MatchSet;
use crate::text::{decimal_value, is_decimal_digit, to_chars};

verus! {

/// A horizontal direction of travel, over columns or over byte indices.
#[derive(Clone, Copy, Debug, PartialEq, Eq, Structural)]
pub enum Direction {
    Left,
    Right,
}

/// What the status line shows.
#[derive(Clone, Copy, Debug, PartialEq, Eq, Structural)]
pub enum StatusMode {
    /// Terminal size, cursor position, file and pending changes.
    General,
    /// The key bindings.
    Keys,
    /// The last attempt to write the file failed.
    SaveFailed,
}

/// What the editor was started with.
pub struct Parameters {
    pub file_path: String,
    /// Bytes shown per row.
    pub byte_size: u16,
}

/// The row width where the command line names none.
pub const DEFAULT_BYTE_SIZE: u16 = 16;

/// What is wrong with a command line.
#[derive(Clone, Copy, Debug, PartialEq, Eq, Structural)]
pub enum ArgumentError {
    /// No file is named.
    MissingFilePath,
    /// The row width is no number that fits 16 bits.
    InvalidRowWidth,
    /// The row width is 0.
    ZeroRowWidth,
}

/// What a command line asks for.
pub enum Invocation {
    /// The usage text, and nothing else.
    Help,
    /// An editing session.
    Edit(Parameters),
}

/// Whether an argument asks for the usage text.
pub open spec fn is_help_flag(argument: Seq<char>) -> bool {
    argument == "-h"@ || argument == "--help"@
}

/// The row width that an argument writes: one or more decimal digits whose
/// number fits 16 bits.
pub open spec fn row_width_of(argument: Seq<char>) -> Option<u16> {
    if argument.len() >= 1 && (forall|i: int|
        0 <= i < argument.len() ==> is_decimal_digit(#[trigger] argument[i])) && decimal_value(
        argument,
    ) <= u16::MAX {
        Some(decimal_value(argument) as u16)
    } else {
        None
    }
}

/// What a command line asks for. The first argument is the program's name;
/// the second names the file; the third, where there is one, is the row
/// width, which is 16 otherwise. A `-h` or `--help` anywhere asks for the
/// usage text and nothing else counts.
pub open spec fn invocation_of(args: Seq<Seq<char>>) -> Result<(Seq<char>, u16), ArgumentError> {
    if args.len() < 2 || args[1].len() == 0 {
        Err(ArgumentError::MissingFilePath)
    } else if args.len() < 3 {
        Ok((args[1], DEFAULT_BYTE_SIZE))
    } else {
        match row_width_of(args[2]) {
            None => Err(ArgumentError::InvalidRowWidth),
            Some(width) => if width == 0 {
                Err(ArgumentError::ZeroRowWidth)
            } else {
                Ok((args[1], width))
            },
        }
    }
}

/// Reads a row width.
pub fn parse_row_width(argument: &str) -> (width: Option<u16>)
    ensures
        width == row_width_of(argument@),
{
    let digits = to_chars(argument);
    if digits.len() == 0 {
        return None;
    }
    let mut value: u32 = 0;
    let mut i: usize = 0;
    while i < digits.len()
        invariant
            i <= digits.len(),
            digits@ == argument@,
            digits@.len() >= 1,
            forall|k: int| 0 <= k < i ==> is_decimal_digit(#[trigger] digits@[k]),
            value <= 0x10000,
            value == (if decimal_value(digits@.take(i as int)) < 0x10000 {
                decimal_value(digits@.take(i as int))
            } else {
                0x10000
            }),
        decreases digits.len() - i,
    {
        let c = digits[i];
        if !('0' <= c && c <= '9') {
            assert(!is_decimal_digit(digits@[i as int]));
            return None;
        }
        proof {
            assert(digits@.take(i + 1).drop_last() =~= digits@.take(i as int));
            assert(digits@.take(i + 1).last() == c);
        }
        let digit: u32 = (c as u32) - 0x30;
        value = if value >= 0x10000 || value * 10 + digit >= 0x10000 {
            0x10000
        } else {
            value * 10 + digit
        };
        i += 1;
    }
    proof {
        assert(digits@.take(i as int) =~= digits@);
    }
    if value > u16::MAX as u32 {
        None
    } else {
        Some(value as u16)
    }
}

/// Whether the characters of `a` are those of `b`.
pub fn same_text(a: &str, b: &str) -> (same: bool)
    ensures
        same == (a@ == b@),
{
    let left = to_chars(a);
    let right = to_chars(b);
    if left.len() != right.len() {
        return false;
    }
    let mut i: usize = 0;
    while i < left.len()
        invariant
            i <= left.len(),
            left@ == a@,
            right@ == b@,
            left@.len() == right@.len(),
            forall|k: int| 0 <= k < i ==> left@[k] == right@[k],
        decreases left.len() - i,
    {
        if left[i] != right[i] {
            return false;
        }
        i += 1;
    }
    assert(left@ =~= right@);
    true
}

impl Parameters {
    /// Reads a command line; see [`invocation_of`].
    pub fn from_args(args: &Vec<String>) -> (invocation: Result<Invocation, ArgumentError>)
        ensures
            match invocation {
                Ok(Invocation::Help) => exists|i: int|
                    0 <= i < args@.len() && is_help_flag(#[trigger] args@[i]@),
                Ok(Invocation::Edit(parameters)) => (forall|i: int|
                    0 <= i < args@.len() ==> !is_help_flag(#[trigger] args@[i]@)) && invocation_of(
                    args@.map_values(|a: String| a@),
                ) == Ok::<(Seq<char>, u16), ArgumentError>(
                    (parameters.file_path@, parameters.byte_size),
                ),
                Err(error) => (forall|i: int|
                    0 <= i < args@.len() ==> !is_help_flag(#[trigger] args@[i]@)) && invocation_of(
                    args@.map_values(|a: String| a@),
                ) == Err::<(Seq<char>, u16), ArgumentError>(error),
            },
    {
        let mut i: usize = 0;
        while i < args.len()
            invariant
                i <= args.len(),
                forall|k: int| 0 <= k < i ==> !is_help_flag(#[trigger] args@[k]@),
            decreases args.len() - i,
        {
            if same_text(args[i].as_str(), "-h") || same_text(args[i].as_str(), "--help") {
                return Ok(Invocation::Help);
            }
            i += 1;
        }
        let ghost texts = args@.map_values(|a: String| a@);
        if args.len() < 2 {
            return Err(ArgumentError::MissingFilePath);
        }
        assert(texts[1] == args@[1]@);
        if args[1].as_str().unicode_len() == 0 {
            return Err(ArgumentError::MissingFilePath);
        }
        let mut byte_size = DEFAULT_BYTE_SIZE;
        if args.len() >= 3 {
            assert(texts[2] == args@[2]@);
            byte_size = match parse_row_width(args[2].as_str()) {
                Some(width) => width,
                None => return Err(ArgumentError::InvalidRowWidth),
            };
            if byte_size == 0 {
                return Err(ArgumentError::ZeroRowWidth);
            }
        }
        Ok(Invocation::Edit(Parameters { file_path: args[1].clone(), byte_size }))
    }
}

/// The state of a session: cursor, viewport, buffer, pending edits and
/// search results.
pub struct TermState<'a> {
    pub row: u16,
    pub column: u16,
    pub term_width: u16,
    pub term_height: u16,
    pub padding: u16,
    /// The first visible row of the grid, counted in rows.
    pub render_from_offset: usize,
    pub status_mode: StatusMode,
    pub dimensions: &'a Dimensions,
    pub prev_mode: Modes,
    /// The buffer. A pending replacement is already written here.
    pub bytes: Vec<u8>,
    /// Indices that the next save leaves out.
    pub bytes_removed: HashSet<usize>,
    /// Indices with a pending replacement.
    pub bytes_changed: HashSet<usize>,
    /// The matches of the most recent search.
    pub found_sequences: MatchSet,
    pub file_path: &'a str,
}

/// The mathematical content of a [`TermState`].
pub struct TermStateView {
    pub row: u16,
    pub column: u16,
    pub term_width: u16,
    pub term_height: u16,
    pub padding: u16,
    pub render_from_offset: usize,
    pub status_mode: StatusMode,
    pub dimensions: Dimensions,
    pub prev_mode: Modes,
    pub bytes: Seq<u8>,
    pub removed: Set<usize>,
    pub changed: Set<usize>,
    /// Half-open ranges `(start, end)`.
    pub found: Set<(int, int)>,
    pub file_path: Seq<char>,
}

impl<'a> View for TermState<'a> {
    type V = TermStateView;

    open spec fn view(&self) -> TermStateView {
        TermStateView {
            row: self.row,
            column: self.column,
            term_width: self.term_width,
            term_height: self.term_height,
            padding: self.padding,
            render_from_offset: self.render_from_offset,
            status_mode: self.status_mode,
            dimensions: *self.dimensions,
            prev_mode: self.prev_mode,
            bytes: self.bytes@,
            removed: self.bytes_removed@,
            changed: self.bytes_changed@,
            found: self.found_sequences@,
            file_path: self.file_path@,
        }
    }
}

impl TermStateView {
    /// The grid is the layout of `byte_size` bytes per row at this padding.
    pub open spec fn wf(self, byte_size: u16) -> bool {
        &&& Dimensions::fits(self.padding, byte_size)
        &&& self.dimensions == Dimensions::layout(self.padding, byte_size)
    }

    /// The cursor lies within `[0, term_width] x [1, term_height]` (on row 1
    /// where the terminal has no row at all).
    pub open spec fn cursor_on_screen(self) -> bool {
        &&& self.column <= self.term_width
        &&& 1 <= self.row
        &&& self.row <= self.term_height || self.row == 1
    }
}

impl<'a> TermState<'a> {
    /// The state is consistent with `parameters` (see [`TermStateView::wf`])
    /// and holds no match twice.
    pub open spec fn wf(&self, parameters: &Parameters) -> bool {
        self@.wf(parameters.byte_size) && self.found_sequences.wf()
    }

    /// The state a session starts in: cursor on the first byte cell, the
    /// viewport at the top, nothing edited and nothing found.
    pub fn new(
        padding: u16,
        dimensions: &'a Dimensions,
        term_width: u16,
        term_height: u16,
        bytes: Vec<u8>,
        file_path: &'a str,
    ) -> (state: TermState<'a>)
        ensures
            state.found_sequences.wf(),
            state@ == (TermStateView {
                row: 1,
                column: dimensions.bytes.0,
                term_width,
                term_height,
                padding,
                render_from_offset: 0,
                status_mode: StatusMode::General,
                dimensions: *dimensions,
                prev_mode: Modes::Bytes,
                bytes: bytes@,
                removed: Set::empty(),
                changed: Set::empty(),
                found: Set::empty(),
                file_path: file_path@,
            }),
    {
        TermState {
            row: 1,
            column: dimensions.bytes.0,
            term_width,
            term_height,
            padding,
            render_from_offset: 0,
            status_mode: StatusMode::General,
            dimensions,
            prev_mode: Modes::Bytes,
            bytes,
            bytes_removed: HashSet::new(),
            bytes_changed: HashSet::new(),
            found_sequences: MatchSet::new(),
            file_path,
        }
    }
}

} // verus!
