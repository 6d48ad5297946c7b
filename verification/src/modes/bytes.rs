//! Bytes mode: the grid itself. Keys go through the table of bindings; the
//! mouse scrolls and places the cursor; a resize decides whether the grid
//! still fits.

use vstd::prelude::*;
use crate::actions::{operation_mode, operation_view, perform};
use crate::event::{KeyEvent, MouseButton, MouseEvent, MouseEventKind};
use crate::keyboard::{Keyboard, Operation};
use crate::modes::Modes;
use crate::state::{Parameters, TermState, TermStateView};

verus! {

/// What Bytes mode draws.
#[derive(Clone, Copy, Debug, PartialEq, Eq, Structural)]
pub enum BytesScreens {
    /// The grid.
    Bytes,
    /// A notice that the terminal is too narrow for the grid.
    TooSmall,
}

/// Bytes mode.
pub struct BytesMode<'a> {
    pub keyboard: &'a Keyboard,
    pub parameters: &'a Parameters,
    /// The number of full rows of the file.
    pub offsets: usize,
    /// The least terminal width that shows the grid.
    pub minimal_width: u32,
    pub to_draw: BytesScreens,
    /// Set by the key bound to the save operation: the buffer is to be
    /// written to the file.
    pub save_requested: bool,
}

/// The least terminal width that shows a grid of `byte_size` bytes per row.
pub open spec fn minimal_width(byte_size: u16) -> int {
    (byte_size + 1) * 5 + 16
}

/// The operation that a key is bound to, if any.
pub open spec fn bound_operation(keyboard: &Keyboard, event: KeyEvent) -> Option<Operation> {
    if keyboard@.bindings.contains_key(event) {
        Some(keyboard@.bindings[event])
    } else {
        None
    }
}

/// The nearest row to `row` that the cursor may be on, on a terminal of
/// `term_height` rows: the header row is not one of them.
pub open spec fn clamp_row(row: u16, term_height: u16) -> u16 {
    if row < 1 {
        1
    } else if row > term_height {
        if term_height < 1 {
            1
        } else {
            term_height
        }
    } else {
        row
    }
}

/// The nearest column to `column` that the cursor may be on, on a terminal
/// of `term_width` columns.
pub open spec fn clamp_column(column: u16, term_width: u16) -> u16 {
    if column > term_width {
        term_width
    } else {
        column
    }
}

/// The state with the cursor moved onto the screen.
pub open spec fn clamp_cursor(v: TermStateView) -> TermStateView {
    TermStateView {
        column: clamp_column(v.column, v.term_width),
        row: clamp_row(v.row, v.term_height),
        ..v
    }
}

/// The state after a mouse event. The wheel scrolls the viewport by one
/// row, not above the top; releasing the left button puts the cursor on the
/// cell under the mouse, or on the nearest one that the cursor may be on.
pub open spec fn mouse_view(v: TermStateView, event: MouseEvent) -> TermStateView {
    match event.kind {
        MouseEventKind::ScrollDown => if v.render_from_offset < usize::MAX {
            TermStateView { render_from_offset: (v.render_from_offset + 1) as usize, ..v }
        } else {
            v
        },
        MouseEventKind::ScrollUp => if v.render_from_offset > 0 {
            TermStateView { render_from_offset: (v.render_from_offset - 1) as usize, ..v }
        } else {
            v
        },
        MouseEventKind::Up(MouseButton::Left) => clamp_cursor(
            TermStateView { column: event.column, row: event.row, ..v },
        ),
        _ => v,
    }
}

/// The state after a resize. A terminal too narrow for the grid is not
/// taken over; one that is wide enough is, and the cursor is moved onto it.
pub open spec fn resize_view(v: TermStateView, width: u16, height: u16, minimal_width: u32) -> TermStateView {
    if width < minimal_width {
        clamp_cursor(v)
    } else {
        clamp_cursor(TermStateView { term_width: width, term_height: height, ..v })
    }
}

/// What a key does in Bytes mode: the operation it is bound to, if any.
pub open spec fn bytes_key_handled(
    pre: BytesMode,
    post: BytesMode,
    event: KeyEvent,
    before: TermStateView,
    after: TermStateView,
    byte_size: u16,
    next: Modes,
) -> bool {
    &&& post.keyboard == pre.keyboard
    &&& post.parameters == pre.parameters
    &&& post.offsets == pre.offsets
    &&& post.minimal_width == pre.minimal_width
    &&& post.to_draw == pre.to_draw
    &&& match bound_operation(pre.keyboard, event) {
        Some(operation) => {
            &&& after == operation_view(before, operation, byte_size)
            &&& next == operation_mode(before, operation)
            &&& post.save_requested == (pre.save_requested || operation == Operation::Save)
        },
        None => after == before && next == Modes::Bytes && post.save_requested
            == pre.save_requested,
    }
}

/// What a resize does in Bytes mode.
pub open spec fn bytes_resized(
    pre: BytesMode,
    post: BytesMode,
    width: u16,
    height: u16,
    before: TermStateView,
    after: TermStateView,
) -> bool {
    &&& post.keyboard == pre.keyboard
    &&& post.parameters == pre.parameters
    &&& post.offsets == pre.offsets
    &&& post.minimal_width == pre.minimal_width
    &&& post.save_requested == pre.save_requested
    &&& post.to_draw == (if width < pre.minimal_width {
        BytesScreens::TooSmall
    } else {
        BytesScreens::Bytes
    })
    &&& after == resize_view(before, width, height, pre.minimal_width)
}

/// Moves the cursor onto the screen.
pub fn keep_cursor_on_screen(state: &mut TermState)
    ensures
        final(state)@ == clamp_cursor(old(state)@),
        final(state)@.cursor_on_screen(),
        final(state).found_sequences == old(state).found_sequences,
{
    if state.column > state.term_width {
        state.column = state.term_width
    }
    if state.row < 1 {
        state.row = 1;
    } else if state.row > state.term_height {
        state.row = if state.term_height < 1 {
            1
        } else {
            state.term_height
        };
    }
}

impl<'a> BytesMode<'a> {
    /// Bytes mode for a file of `file_size` bytes.
    pub fn new(keyboard: &'a Keyboard, parameters: &'a Parameters, file_size: usize) -> (mode:
        BytesMode<'a>)
        requires
            parameters.byte_size >= 1,
        ensures
            mode.keyboard == keyboard,
            mode.parameters == parameters,
            mode.offsets == file_size as int / parameters.byte_size as int,
            mode.minimal_width == minimal_width(parameters.byte_size),
            mode.to_draw == BytesScreens::Bytes,
            !mode.save_requested,
    {
        let offsets = file_size / parameters.byte_size as usize;
        let minimal_width: u32 = ((parameters.byte_size as u32 + 1) * 5) + 16;
        BytesMode {
            keyboard,
            parameters,
            offsets,
            minimal_width,
            to_draw: BytesScreens::Bytes,
            save_requested: false,
        }
    }

    /// Handles a key: carries out the operation it is bound to, if any. For
    /// the save operation the mode only notes the request.
    pub fn handle_input(
        &mut self,
        event: &KeyEvent,
        state: &mut TermState,
        parameters: &Parameters,
    ) -> (next: Modes)
        requires
            old(state).wf(parameters),
        ensures
            final(state).wf(parameters),
            bytes_key_handled(
                *old(self),
                *final(self),
                *event,
                old(state)@,
                final(state)@,
                parameters.byte_size,
                next,
            ),
    {
        match self.keyboard.get(event) {
            Some(operation) => {
                if operation == Operation::Save {
                    self.save_requested = true;
                }
                perform(operation, state, parameters)
            },
            None => Modes::Bytes,
        }
    }

    /// Says whether a save was requested since the last call, and forgets
    /// the request.
    pub fn take_save_request(&mut self) -> (requested: bool)
        ensures
            requested == old(self).save_requested,
            *final(self) == (BytesMode { save_requested: false, ..*old(self) }),
    {
        let requested = self.save_requested;
        self.save_requested = false;
        requested
    }

    /// Handles a mouse event; see [`mouse_view`].
    pub fn handle_mouse(
        &mut self,
        event: &MouseEvent,
        state: &mut TermState,
        parameters: &Parameters,
    ) -> (next: Modes)
        ensures
            next == Modes::Bytes,
            *final(self) == *old(self),
            final(state)@ == mouse_view(old(state)@, *event),
            final(state).found_sequences == old(state).found_sequences,
    {
        match event.kind {
            MouseEventKind::ScrollDown => {
                if state.render_from_offset < usize::MAX {
                    state.render_from_offset += 1;
                }
            },
            MouseEventKind::ScrollUp => {
                if state.render_from_offset > 0 {
                    state.render_from_offset -= 1;
                }
            },
            MouseEventKind::Up(btn) => match btn {
                MouseButton::Left => {
                    state.column = event.column;
                    state.row = event.row;
                    keep_cursor_on_screen(state);
                },
                _ => {},
            },
            _ => {},
        }
        Modes::Bytes
    }

    /// Handles a resize: decides between the grid and the notice that the
    /// terminal is too narrow, and keeps the cursor on the screen.
    pub fn handle_resize(
        &mut self,
        width: u16,
        height: u16,
        state: &mut TermState,
        parameters: &Parameters,
    ) -> (next: Modes)
        ensures
            next == Modes::Bytes,
            bytes_resized(*old(self), *final(self), width, height, old(state)@, final(state)@),
            final(state)@.cursor_on_screen(),
            final(state).found_sequences == old(state).found_sequences,
    {
        if (width as u32) < self.minimal_width {
            self.to_draw = BytesScreens::TooSmall;
            keep_cursor_on_screen(state);
            return Modes::Bytes;
        }
        self.to_draw = BytesScreens::Bytes;
        state.term_width = width;
        state.term_height = height;
        keep_cursor_on_screen(state);
        Modes::Bytes
    }

    /// Whether drawing is to be skipped after a key or the mouse: there is
    /// no grid to draw while the terminal is too narrow.
    pub fn skip_rendering(&self) -> (skip: bool)
        ensures
            skip == (self.to_draw == BytesScreens::TooSmall),
    {
        self.to_draw == BytesScreens::TooSmall
    }
}

} // verus!
