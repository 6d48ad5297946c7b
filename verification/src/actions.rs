//! The operations that keys are bound to. Each takes the state and gives
//! the mode to go on in.

use vstd::prelude::*;
use crate::geometry::{
    byte_under_cursor, calculate_leap, cursor_in_bytes, cursor_index, get_byte_at_cursor, leap, put_cursor,
    put_cursor_at_index,
};
use crate::keyboard::Operation;
use crate::modes::Modes;
use crate::overlay::{
    apply_commit, committed_view, get_index_of_closest_change, toggle_removed, toggle_removed_view,
};
use crate::pattern::{found_starts, get_index_of_closest_found, nearest};
use crate::state::{Direction, Parameters, StatusMode, TermState, TermStateView};

verus! {

/// Whether the cursor is in a byte cell whose index a buffer can have.
pub open spec fn on_byte(v: TermStateView, byte_size: u16) -> bool {
    byte_size >= 1 && cursor_in_bytes(v) && cursor_index(v, byte_size) <= usize::MAX
}

/// The state after a step to the left: the cursor moves by the leap, unless
/// that would take it off the screen.
pub open spec fn go_left_view(v: TermStateView) -> TermStateView {
    if leap(v, Direction::Left) <= v.column {
        TermStateView { column: (v.column - leap(v, Direction::Left)) as u16, ..v }
    } else {
        v
    }
}

/// The state after a step to the right: the cursor moves by the leap,
/// unless that would take it off the screen.
pub open spec fn go_right_view(v: TermStateView) -> TermStateView {
    if v.column + leap(v, Direction::Right) <= v.term_width {
        TermStateView { column: (v.column + leap(v, Direction::Right)) as u16, ..v }
    } else {
        v
    }
}

/// The state after a step up: the cursor stays below the header row.
pub open spec fn go_up_view(v: TermStateView) -> TermStateView {
    if v.row >= 2 {
        TermStateView { row: (v.row - 1) as u16, ..v }
    } else {
        v
    }
}

/// The state after a step down: the cursor stays on the screen.
pub open spec fn go_down_view(v: TermStateView) -> TermStateView {
    if v.row < v.term_height {
        TermStateView { row: (v.row + 1) as u16, ..v }
    } else {
        v
    }
}

/// The state after the viewport scrolls up one row, if it is not at the
/// top.
pub open spec fn scroll_up_view(v: TermStateView) -> TermStateView {
    if v.render_from_offset != 0 {
        TermStateView { render_from_offset: (v.render_from_offset - 1) as usize, ..v }
    } else {
        v
    }
}

/// The state after the viewport scrolls down one row.
pub open spec fn scroll_down_view(v: TermStateView) -> TermStateView {
    TermStateView { render_from_offset: (v.render_from_offset + 1) as usize, ..v }
}

/// The state after a jump to `target`, if there is one.
pub open spec fn jump_view(v: TermStateView, target: Option<usize>, byte_size: u16) -> TermStateView {
    match target {
        Some(index) => put_cursor(v, index, byte_size),
        None => v,
    }
}

/// The state after a save. Where the file was written, the buffer is
/// compacted, the overlay is empty and a report of an earlier failure is
/// gone; where it was not, the status line reports that and nothing else
/// changes.
pub open spec fn save_view(v: TermStateView, written: bool) -> TermStateView {
    if written {
        TermStateView {
            status_mode: if v.status_mode == StatusMode::SaveFailed {
                StatusMode::General
            } else {
                v.status_mode
            },
            ..committed_view(v)
        }
    } else {
        TermStateView { status_mode: StatusMode::SaveFailed, ..v }
    }
}

/// The index that the operation takes the cursor to, from a cursor on byte
/// `index`; `None` for an operation that is no jump and where nothing lies
/// that way.
pub open spec fn jump_target(v: TermStateView, operation: Operation, index: usize) -> Option<usize> {
    match operation {
        Operation::NextFound => nearest(found_starts(v.found), index, Direction::Right),
        Operation::PrevFound => nearest(found_starts(v.found), index, Direction::Left),
        Operation::NextChange => nearest(v.changed.union(v.removed), index, Direction::Right),
        Operation::PrevChange => nearest(v.changed.union(v.removed), index, Direction::Left),
        _ => None,
    }
}

/// The index of the last byte of the buffer, or 0 where it has none.
pub open spec fn last_index(v: TermStateView) -> usize {
    if v.bytes.len() > 0 {
        (v.bytes.len() - 1) as usize
    } else {
        0
    }
}

/// The state after an operation. An operation that cannot be carried out
/// changes nothing: one on the byte under the cursor where the cursor is on
/// none, and a scroll beyond the last row that can be counted. A save
/// changes nothing by itself: it is for the caller to write the file.
pub open spec fn operation_view(v: TermStateView, operation: Operation, byte_size: u16) -> TermStateView {
    match operation {
        Operation::GoLeft => go_left_view(v),
        Operation::GoRight => go_right_view(v),
        Operation::GoUp => go_up_view(v),
        Operation::GoDown => go_down_view(v),
        Operation::ScrollUp => scroll_up_view(v),
        Operation::ScrollDown => if v.render_from_offset < usize::MAX {
            scroll_down_view(v)
        } else {
            v
        },
        Operation::Remove => if on_byte(v, byte_size) {
            toggle_removed_view(v, cursor_index(v, byte_size) as usize)
        } else {
            v
        },
        Operation::NextFound | Operation::PrevFound | Operation::NextChange | Operation::PrevChange => if on_byte(
            v,
            byte_size,
        ) {
            jump_view(v, jump_target(v, operation, cursor_index(v, byte_size) as usize), byte_size)
        } else {
            v
        },
        Operation::GoToStart => put_cursor(v, 0, byte_size),
        Operation::GoToEnd => put_cursor(v, last_index(v), byte_size),
        Operation::GeneralStatus => TermStateView { status_mode: StatusMode::General, ..v },
        Operation::KeysStatus => TermStateView { status_mode: StatusMode::Keys, ..v },
        Operation::Quit | Operation::Edit | Operation::Save | Operation::Help | Operation::Search | Operation::GoTo => v,
    }
}

/// The mode after an operation.
pub open spec fn operation_mode(v: TermStateView, operation: Operation) -> Modes {
    match operation {
        Operation::Quit => Modes::Quit,
        Operation::Edit => Modes::Change,
        Operation::Search => Modes::Search,
        Operation::GoTo => Modes::GoTo,
        Operation::Help => if v.prev_mode != Modes::Help {
            Modes::Help
        } else {
            Modes::Bytes
        },
        _ => Modes::Bytes,
    }
}

/// Carries out an operation, where it can be; see [`operation_view`].
pub fn perform(operation: Operation, state: &mut TermState, parameters: &Parameters) -> (next: Modes)
    requires
        old(state).wf(parameters),
    ensures
        final(state).wf(parameters),
        final(state)@ == operation_view(old(state)@, operation, parameters.byte_size),
        next == operation_mode(old(state)@, operation),
{
    match operation {
        Operation::GoLeft => go_left(state, parameters),
        Operation::GoRight => go_right(state, parameters),
        Operation::GoUp => go_up(state, parameters),
        Operation::GoDown => go_down(state, parameters),
        Operation::ScrollUp => scroll_up(state, parameters),
        Operation::ScrollDown => {
            if state.render_from_offset < usize::MAX {
                scroll_down(state, parameters)
            } else {
                Modes::Bytes
            }
        },
        Operation::Quit => quit(state, parameters),
        Operation::Remove => {
            if byte_under_cursor(state, parameters).is_some() {
                remove(state, parameters)
            } else {
                Modes::Bytes
            }
        },
        Operation::Edit => edit(state, parameters),
        Operation::Save => Modes::Bytes,
        Operation::Help => help(state, parameters),
        Operation::GeneralStatus => general_status(state, parameters),
        Operation::KeysStatus => keys_status(state, parameters),
        Operation::Search => search(state, parameters),
        Operation::GoTo => goto(state, parameters),
        Operation::NextChange => {
            if byte_under_cursor(state, parameters).is_some() {
                next_change(state, parameters)
            } else {
                Modes::Bytes
            }
        },
        Operation::PrevChange => {
            if byte_under_cursor(state, parameters).is_some() {
                prev_change(state, parameters)
            } else {
                Modes::Bytes
            }
        },
        Operation::NextFound => {
            if byte_under_cursor(state, parameters).is_some() {
                next_found(state, parameters)
            } else {
                Modes::Bytes
            }
        },
        Operation::PrevFound => {
            if byte_under_cursor(state, parameters).is_some() {
                prev_found(state, parameters)
            } else {
                Modes::Bytes
            }
        },
        Operation::GoToStart => go_to_start(state, parameters),
        Operation::GoToEnd => go_to_end(state, parameters),
    }
}

/// Shows the general status line.
pub fn general_status(state: &mut TermState, parameters: &Parameters) -> (next: Modes)
    ensures
        next == Modes::Bytes,
        final(state)@ == (TermStateView { status_mode: StatusMode::General, ..old(state)@ }),
        final(state).found_sequences == old(state).found_sequences,
{
    state.status_mode = StatusMode::General;
    Modes::Bytes
}

/// Shows the key bindings in the status line.
pub fn keys_status(state: &mut TermState, parameters: &Parameters) -> (next: Modes)
    ensures
        next == Modes::Bytes,
        final(state)@ == (TermStateView { status_mode: StatusMode::Keys, ..old(state)@ }),
        final(state).found_sequences == old(state).found_sequences,
{
    state.status_mode = StatusMode::Keys;
    Modes::Bytes
}

/// Opens Search mode.
pub fn search(state: &mut TermState, parameters: &Parameters) -> (next: Modes)
    ensures
        next == Modes::Search,
        *final(state) == *old(state),
{
    Modes::Search
}

/// Opens GoTo mode.
pub fn goto(state: &mut TermState, parameters: &Parameters) -> (next: Modes)
    ensures
        next == Modes::GoTo,
        *final(state) == *old(state),
{
    Modes::GoTo
}

/// Opens Help mode, or goes back to the bytes where the help was the mode
/// before.
pub fn help(state: &mut TermState, parameters: &Parameters) -> (next: Modes)
    ensures
        next == (if old(state).prev_mode != Modes::Help {
            Modes::Help
        } else {
            Modes::Bytes
        }),
        *final(state) == *old(state),
{
    if state.prev_mode != Modes::Help {
        return Modes::Help;
    }
    Modes::Bytes
}

/// Toggles the removal mark of the byte under the cursor.
pub fn remove(state: &mut TermState, parameters: &Parameters) -> (next: Modes)
    requires
        on_byte(old(state)@, parameters.byte_size),
    ensures
        next == Modes::Bytes,
        final(state)@ == toggle_removed_view(
            old(state)@,
            cursor_index(old(state)@, parameters.byte_size) as usize,
        ),
        final(state).found_sequences == old(state).found_sequences,
{
    let byte_index = get_byte_at_cursor(state, parameters);
    toggle_removed(state, byte_index);
    Modes::Bytes
}

/// Ends a save, after the attempt to write the compacted buffer to the
/// file: `written` says whether the file was written.
pub fn save(state: &mut TermState, parameters: &Parameters, written: bool) -> (next: Modes)
    ensures
        next == Modes::Bytes,
        final(state)@ == save_view(old(state)@, written),
        final(state).found_sequences == old(state).found_sequences,
{
    if written {
        apply_commit(state);
        if state.status_mode == StatusMode::SaveFailed {
            state.status_mode = StatusMode::General;
        }
    } else {
        state.status_mode = StatusMode::SaveFailed;
    }
    Modes::Bytes
}

/// Opens Change mode.
pub fn edit(state: &mut TermState, parameters: &Parameters) -> (next: Modes)
    ensures
        next == Modes::Change,
        *final(state) == *old(state),
{
    Modes::Change
}

/// Moves the cursor one step to the left.
pub fn go_left(state: &mut TermState, parameters: &Parameters) -> (next: Modes)
    ensures
        next == Modes::Bytes,
        final(state)@ == go_left_view(old(state)@),
        final(state).found_sequences == old(state).found_sequences,
{
    let jump_by = calculate_leap(state, Direction::Left);
    if jump_by <= state.column {
        state.column -= jump_by;
    }
    Modes::Bytes
}

/// Moves the cursor one step to the right.
pub fn go_right(state: &mut TermState, parameters: &Parameters) -> (next: Modes)
    ensures
        next == Modes::Bytes,
        final(state)@ == go_right_view(old(state)@),
        final(state).found_sequences == old(state).found_sequences,
{
    let jump_by = calculate_leap(state, Direction::Right);
    if state.column as u32 + jump_by as u32 <= state.term_width as u32 {
        state.column += jump_by;
    }
    Modes::Bytes
}

/// Moves the cursor one row up.
pub fn go_up(state: &mut TermState, parameters: &Parameters) -> (next: Modes)
    ensures
        next == Modes::Bytes,
        final(state)@ == go_up_view(old(state)@),
        final(state).found_sequences == old(state).found_sequences,
{
    if state.row >= 2 {
        state.row -= 1;
    }
    Modes::Bytes
}

/// Moves the cursor one row down.
pub fn go_down(state: &mut TermState, parameters: &Parameters) -> (next: Modes)
    ensures
        next == Modes::Bytes,
        final(state)@ == go_down_view(old(state)@),
        final(state).found_sequences == old(state).found_sequences,
{
    if state.row < state.term_height {
        state.row += 1;
    }
    Modes::Bytes
}

/// Puts the cursor on the nearest match that starts after the byte under
/// the cursor, if there is one.
pub fn next_found(state: &mut TermState, parameters: &Parameters) -> (next: Modes)
    requires
        old(state).wf(parameters),
        on_byte(old(state)@, parameters.byte_size),
    ensures
        next == Modes::Bytes,
        final(state).wf(parameters),
        final(state)@ == jump_view(
            old(state)@,
            nearest(
                found_starts(old(state)@.found),
                cursor_index(old(state)@, parameters.byte_size) as usize,
                Direction::Right,
            ),
            parameters.byte_size,
        ),
{
    let current_byte_index = get_byte_at_cursor(state, parameters);
    let closest_byte_index = get_index_of_closest_found(current_byte_index, state, Direction::Right);
    if let Some(index) = closest_byte_index {
        put_cursor_at_index(state, index, parameters);
    }
    Modes::Bytes
}

/// Puts the cursor on the nearest match that starts before the byte under
/// the cursor, if there is one.
pub fn prev_found(state: &mut TermState, parameters: &Parameters) -> (next: Modes)
    requires
        old(state).wf(parameters),
        on_byte(old(state)@, parameters.byte_size),
    ensures
        next == Modes::Bytes,
        final(state).wf(parameters),
        final(state)@ == jump_view(
            old(state)@,
            nearest(
                found_starts(old(state)@.found),
                cursor_index(old(state)@, parameters.byte_size) as usize,
                Direction::Left,
            ),
            parameters.byte_size,
        ),
{
    let current_byte_index = get_byte_at_cursor(state, parameters);
    let closest_byte_index = get_index_of_closest_found(current_byte_index, state, Direction::Left);
    if let Some(index) = closest_byte_index {
        put_cursor_at_index(state, index, parameters);
    }
    Modes::Bytes
}

/// Puts the cursor on the nearest changed or removed byte after the byte
/// under the cursor, if there is one.
pub fn next_change(state: &mut TermState, parameters: &Parameters) -> (next: Modes)
    requires
        old(state).wf(parameters),
        on_byte(old(state)@, parameters.byte_size),
    ensures
        next == Modes::Bytes,
        final(state).wf(parameters),
        final(state)@ == jump_view(
            old(state)@,
            nearest(
                old(state)@.changed.union(old(state)@.removed),
                cursor_index(old(state)@, parameters.byte_size) as usize,
                Direction::Right,
            ),
            parameters.byte_size,
        ),
{
    let current_byte_index = get_byte_at_cursor(state, parameters);
    let closest_byte_index = get_index_of_closest_change(current_byte_index, state, Direction::Right);
    if let Some(index) = closest_byte_index {
        put_cursor_at_index(state, index, parameters);
    }
    Modes::Bytes
}

/// Puts the cursor on the nearest changed or removed byte before the byte
/// under the cursor, if there is one.
pub fn prev_change(state: &mut TermState, parameters: &Parameters) -> (next: Modes)
    requires
        old(state).wf(parameters),
        on_byte(old(state)@, parameters.byte_size),
    ensures
        next == Modes::Bytes,
        final(state).wf(parameters),
        final(state)@ == jump_view(
            old(state)@,
            nearest(
                old(state)@.changed.union(old(state)@.removed),
                cursor_index(old(state)@, parameters.byte_size) as usize,
                Direction::Left,
            ),
            parameters.byte_size,
        ),
{
    let current_byte_index = get_byte_at_cursor(state, parameters);
    let closest_byte_index = get_index_of_closest_change(current_byte_index, state, Direction::Left);
    if let Some(index) = closest_byte_index {
        put_cursor_at_index(state, index, parameters);
    }
    Modes::Bytes
}

/// Puts the cursor on the first byte.
pub fn go_to_start(state: &mut TermState, parameters: &Parameters) -> (next: Modes)
    requires
        old(state).wf(parameters),
    ensures
        next == Modes::Bytes,
        final(state).wf(parameters),
        final(state)@ == put_cursor(old(state)@, 0, parameters.byte_size),
{
    put_cursor_at_index(state, 0, parameters);
    Modes::Bytes
}

/// Puts the cursor on the last byte of the buffer, or on the first where
/// the buffer is empty.
pub fn go_to_end(state: &mut TermState, parameters: &Parameters) -> (next: Modes)
    requires
        old(state).wf(parameters),
    ensures
        next == Modes::Bytes,
        final(state).wf(parameters),
        final(state)@ == put_cursor(
            old(state)@,
            last_index(old(state)@),
            parameters.byte_size,
        ),
{
    let last: usize = if state.bytes.len() > 0 {
        state.bytes.len() - 1
    } else {
        0
    };
    put_cursor_at_index(state, last, parameters);
    Modes::Bytes
}

/// Scrolls the viewport one row up.
pub fn scroll_up(state: &mut TermState, parameters: &Parameters) -> (next: Modes)
    ensures
        next == Modes::Bytes,
        final(state)@ == scroll_up_view(old(state)@),
        final(state).found_sequences == old(state).found_sequences,
{
    if state.render_from_offset != 0 {
        state.render_from_offset -= 1
    }
    Modes::Bytes
}

/// Scrolls the viewport one row down.
pub fn scroll_down(state: &mut TermState, parameters: &Parameters) -> (next: Modes)
    requires
        old(state).render_from_offset < usize::MAX,
    ensures
        next == Modes::Bytes,
        final(state)@ == scroll_down_view(old(state)@),
        final(state).found_sequences == old(state).found_sequences,
{
    state.render_from_offset += 1;
    Modes::Bytes
}

/// Ends the session.
pub fn quit(state: &mut TermState, parameters: &Parameters) -> (next: Modes)
    ensures
        next == Modes::Quit,
        *final(state) == *old(state),
{
    Modes::Quit
}

/// One step to the right from the last byte cell of a row is a leap of 7
/// columns onto the first cell of the decoded region, and one step to the
/// left from there is a leap of 7 columns back.
pub proof fn lemma_leap_to_decoded_and_back(v: TermStateView, byte_size: u16)
    requires
        v.wf(byte_size),
        v.column + 4 == v.dimensions.bytes.1,
        v.dimensions.decoded.0 <= v.term_width,
    ensures
        leap(v, Direction::Right) == 7,
        go_right_view(v).column == v.dimensions.decoded.0,
        go_right_view(v).column == v.column + 7,
        leap(go_right_view(v), Direction::Left) == 7,
        go_left_view(go_right_view(v)) == v,
{
}

/// One step between two neighbouring byte cells is a leap of 5 columns,
/// and no step leads from the first byte cell to the left.
pub proof fn lemma_leap_within_bytes(v: TermStateView, byte_size: u16)
    requires
        v.wf(byte_size),
        cursor_in_bytes(v),
    ensures
        v.column == v.dimensions.bytes.0 ==> go_left_view(v) == v,
        v.column != v.dimensions.bytes.0 ==> leap(v, Direction::Left) == 5,
        v.column + 4 != v.dimensions.bytes.1 ==> leap(v, Direction::Right) == 5,
{
}

/// Putting the cursor on a byte puts it on the screen, where the screen is
/// wide enough for the bytes region.
pub proof fn lemma_put_cursor_on_screen(v: TermStateView, index: usize, byte_size: u16)
    requires
        v.wf(byte_size),
        v.dimensions.bytes.1 <= v.term_width,
    ensures
        put_cursor(v, index, byte_size).cursor_on_screen(),
{
    let w = byte_size as int;
    let i = index as int;
    assert(0 <= i % w < w) by (nonlinear_arith)
        requires
            w >= 1,
            i >= 0,
    ;
}

/// No operation takes the cursor off the screen, where the screen is wide
/// enough for the bytes region.
pub proof fn lemma_operation_keeps_cursor_on_screen(
    v: TermStateView,
    operation: Operation,
    byte_size: u16,
)
    requires
        v.wf(byte_size),
        v.cursor_on_screen(),
        v.dimensions.bytes.1 <= v.term_width,
    ensures
        operation_view(v, operation, byte_size).cursor_on_screen(),
        operation_view(v, operation, byte_size).wf(byte_size),
        operation_view(v, operation, byte_size).term_width == v.term_width,
        operation_view(v, operation, byte_size).term_height == v.term_height,
{
    if on_byte(v, byte_size) {
        let index = cursor_index(v, byte_size) as usize;
        match jump_target(v, operation, index) {
            Some(target) => lemma_put_cursor_on_screen(v, target, byte_size),
            None => {},
        }
    }
    lemma_put_cursor_on_screen(v, 0, byte_size);
    lemma_put_cursor_on_screen(v, last_index(v), byte_size);
}

} // verus!
