//! Grid geometry: where the offsets, bytes and decoded regions lie on the
//! screen, and the mapping between cursor positions and byte indices.

use vstd::prelude::*;
use crate::state::{Direction, Parameters, TermState, TermStateView};

verus! {

/// Columns taken by one byte cell: four glyphs (`0xAB`) and a separator.
pub const CELL_WIDTH: u16 = 5;

/// Glyphs of an offset label (`0x00000000`).
pub const OFFSET_WIDTH: u16 = 10;

/// Blank columns between two neighbouring regions.
pub const REGION_GAP: u16 = 3;

/// Why a grid cannot be laid out.
#[derive(Clone, Copy, Debug, PartialEq, Eq, Structural)]
pub enum GeometryError {
    /// A row must show at least one byte.
    ZeroRowWidth,
    /// The rightmost column of the grid does not fit in a screen coordinate.
    TooWide,
}

/// The three regions of the grid, each a half-open column range
/// `(start, end)` on the header row.
#[derive(Clone, Copy, Debug, PartialEq, Eq)]
pub struct Dimensions {
    pub offsets: (u16, u16),
    pub bytes: (u16, u16),
    pub decoded: (u16, u16),
}

impl Dimensions {
    /// Whether a grid of `byte_size` bytes per row, indented by `padding`,
    /// can be laid out: the row is not empty and its last column is at most
    /// `u16::MAX`.
    pub open spec fn fits(padding: u16, byte_size: u16) -> bool {
        byte_size >= 1 && padding + 15 + 6 * byte_size <= u16::MAX
    }

    /// The layout of a grid of `byte_size` bytes per row, indented by
    /// `padding`.
    pub open spec fn layout(padding: u16, byte_size: u16) -> Dimensions {
        Dimensions {
            offsets: (padding, (padding + 10) as u16),
            bytes: ((padding + 13) as u16, (padding + 12 + 5 * byte_size) as u16),
            decoded: ((padding + 15 + 5 * byte_size) as u16, (padding + 15 + 6 * byte_size) as u16),
        }
    }

    /// Lays out the grid.
    pub fn new(padding: u16, parameters: &Parameters) -> (d: Dimensions)
        requires
            Dimensions::fits(padding, parameters.byte_size),
        ensures
            d == Dimensions::layout(padding, parameters.byte_size),
    {
        let offsets_start = padding;
        let offsets_end = offsets_start + OFFSET_WIDTH;
        let bytes_start = offsets_end + REGION_GAP;
        let bytes_end = (bytes_start + parameters.byte_size * CELL_WIDTH) - 1;
        let decoded_start = bytes_end + REGION_GAP;
        let decoded_end = decoded_start + parameters.byte_size;
        Dimensions {
            offsets: (offsets_start, offsets_end),
            bytes: (bytes_start, bytes_end),
            decoded: (decoded_start, decoded_end),
        }
    }

    /// Lays out the grid, or says why it cannot be.
    pub fn try_new(padding: u16, parameters: &Parameters) -> (r: Result<Dimensions, GeometryError>)
        ensures
            match r {
                Ok(d) => Dimensions::fits(padding, parameters.byte_size)
                    && d == Dimensions::layout(padding, parameters.byte_size),
                Err(GeometryError::ZeroRowWidth) => parameters.byte_size == 0,
                Err(GeometryError::TooWide) => parameters.byte_size >= 1
                    && !Dimensions::fits(padding, parameters.byte_size),
            },
    {
        if parameters.byte_size == 0 {
            return Err(GeometryError::ZeroRowWidth);
        }
        let last: u32 = padding as u32 + 15 + 6 * (parameters.byte_size as u32);
        if last > u16::MAX as u32 {
            return Err(GeometryError::TooWide);
        }
        Ok(Dimensions::new(padding, parameters))
    }
}

/// The regions of a laid-out grid are disjoint, in the order offsets, bytes,
/// decoded, a gap of three columns apart; the bytes region is
/// `5 * byte_size - 1` columns wide and the decoded region `byte_size`.
pub proof fn lemma_layout_regions(padding: u16, byte_size: u16)
    requires
        Dimensions::fits(padding, byte_size),
    ensures
        ({
            let d = Dimensions::layout(padding, byte_size);
            &&& d.offsets.0 == padding
            &&& d.offsets.1 - d.offsets.0 == 10
            &&& d.bytes.0 == d.offsets.1 + 3
            &&& d.bytes.1 - d.bytes.0 == 5 * byte_size - 1
            &&& d.decoded.0 == d.bytes.1 + 3
            &&& d.decoded.1 - d.decoded.0 == byte_size
        }),
{
}

/// Whether the cursor lies inside the bytes region, below the header row.
pub open spec fn cursor_in_bytes(v: TermStateView) -> bool {
    v.row >= 1 && v.dimensions.bytes.0 <= v.column < v.dimensions.bytes.1
}

/// Whether the cursor stands on the first column of a byte cell.
pub open spec fn cursor_on_cell_start(v: TermStateView) -> bool {
    cursor_in_bytes(v) && (v.column - v.dimensions.bytes.0) % 5 == 0
}

/// The index of the byte whose cell the cursor is in: the row on screen
/// plus the rows scrolled away, times the row width, plus the cell's number
/// in its row. A column inside a cell counts for the cell.
pub open spec fn cursor_index(v: TermStateView, byte_size: u16) -> int {
    (v.row - 1 + v.render_from_offset) * byte_size + (v.column - v.dimensions.bytes.0) / 5
}

/// The index of the byte under the cursor, where the cursor is in the bytes
/// region and the buffer has a byte there.
pub open spec fn focused_byte(v: TermStateView, byte_size: u16) -> Option<usize> {
    if cursor_in_bytes(v) && cursor_index(v, byte_size) < v.bytes.len() {
        Some(cursor_index(v, byte_size) as usize)
    } else {
        None
    }
}

/// The grid row that holds byte `index`.
pub open spec fn index_row(index: usize, byte_size: u16) -> int {
    index as int / byte_size as int
}

/// The screen column where the cell of byte `index` starts.
pub open spec fn index_column(index: usize, byte_size: u16, dimensions: Dimensions) -> int {
    dimensions.bytes.0 + 5 * (index as int % byte_size as int)
}

/// Whether grid row `row` is on screen: the viewport shows
/// `term_height - 1` rows from `render_from_offset` on.
pub open spec fn row_visible(v: TermStateView, row: int) -> bool {
    v.render_from_offset <= row <= v.render_from_offset + v.term_height - 2
}

/// The state after the cursor is put on byte `index`. Where the byte's row
/// is on screen the viewport stays; otherwise the viewport starts at that
/// row and the cursor is on the first screen row.
pub open spec fn put_cursor(v: TermStateView, index: usize, byte_size: u16) -> TermStateView {
    let target = index_row(index, byte_size);
    let column = index_column(index, byte_size, v.dimensions) as u16;
    if row_visible(v, target) {
        TermStateView { row: (target - v.render_from_offset + 1) as u16, column, ..v }
    } else {
        TermStateView { row: 1, column, render_from_offset: target as usize, ..v }
    }
}

/// How many columns one step to the `direction` side moves the cursor:
/// nothing to the left of the first byte cell, so that the cursor stays out
/// of the offsets; 7 from the last byte cell to the decoded region and
/// back; 5 elsewhere in the bytes region, from cell to cell; 1 anywhere
/// else.
pub open spec fn leap(v: TermStateView, direction: Direction) -> u16 {
    if direction == Direction::Left && v.column == v.dimensions.bytes.0 {
        0
    } else if direction == Direction::Right && v.column + 4 == v.dimensions.bytes.1 {
        7
    } else if direction == Direction::Left && v.column == v.dimensions.decoded.0 {
        7
    } else if v.dimensions.bytes.0 <= v.column < v.dimensions.bytes.1 {
        5
    } else {
        1
    }
}

/// The index of the byte under the cursor.
pub fn get_byte_at_cursor(state: &TermState, parameters: &Parameters) -> (index: usize)
    requires
        parameters.byte_size >= 1,
        cursor_in_bytes(state@),
        cursor_index(state@, parameters.byte_size) <= usize::MAX,
    ensures
        index == cursor_index(state@, parameters.byte_size),
{
    let bytes_section_column = state.dimensions.bytes.0;
    let row_in_view: usize = (state.row - 1) as usize;
    let width: usize = parameters.byte_size as usize;
    let actual_column: usize = ((state.column - bytes_section_column) / CELL_WIDTH) as usize;
    proof {
        let r = row_in_view as int + state.render_from_offset as int;
        let w = width as int;
        assert(r <= r * w) by (nonlinear_arith)
            requires
                r >= 0,
                w >= 1,
        ;
    }
    let actual_row: usize = row_in_view + state.render_from_offset;
    actual_row * width + actual_column
}

/// The index of the byte under the cursor, where the cursor is in the bytes
/// region and the index is one that a buffer can have.
pub fn byte_under_cursor(state: &TermState, parameters: &Parameters) -> (index: Option<usize>)
    ensures
        index == (if cursor_in_bytes(state@) && cursor_index(state@, parameters.byte_size)
            <= usize::MAX {
            Some(cursor_index(state@, parameters.byte_size) as usize)
        } else {
            None
        }),
{
    if state.row < 1 || state.column < state.dimensions.bytes.0 || state.column
        >= state.dimensions.bytes.1 {
        return None;
    }
    let actual_row: u128 = (state.row - 1) as u128 + state.render_from_offset as u128;
    let actual_column: u128 = ((state.column - state.dimensions.bytes.0) / CELL_WIDTH) as u128;
    proof {
        let r = actual_row as int;
        let w = parameters.byte_size as int;
        assert(0 <= r * w <= 0x1_0000_0000_0000_FFFF * 0xFFFF) by (nonlinear_arith)
            requires
                0 <= r <= 0x1_0000_0000_0000_FFFF,
                0 <= w <= 0xFFFF,
        ;
    }
    let index: u128 = actual_row * (parameters.byte_size as u128) + actual_column;
    if index > usize::MAX as u128 {
        None
    } else {
        Some(index as usize)
    }
}

/// The grid row that holds byte `index`.
pub fn get_offset_for_index(index: usize, parameters: &Parameters) -> (offset: usize)
    requires
        parameters.byte_size >= 1,
    ensures
        offset == index_row(index, parameters.byte_size),
{
    index / parameters.byte_size as usize
}

/// The screen column where the cell of byte `index` starts.
pub fn get_column_for_index(index: usize, parameters: &Parameters, dimensions: &Dimensions) -> (column:
    u16)
    requires
        parameters.byte_size >= 1,
        dimensions.bytes.0 + 5 * (parameters.byte_size - 1) <= u16::MAX,
    ensures
        column == index_column(index, parameters.byte_size, *dimensions),
{
    let offset = get_offset_for_index(index, parameters);
    let width: usize = parameters.byte_size as usize;
    proof {
        let i = index as int;
        let w = width as int;
        assert(i == w * (i / w) + i % w && 0 <= i % w < w && (i / w) * w == w * (i / w))
            by (nonlinear_arith)
            requires
                w >= 1,
                i >= 0,
        ;
    }
    let closest_byte_pos_in_row: usize = index - offset * width;
    dimensions.bytes.0 + (closest_byte_pos_in_row as u16) * CELL_WIDTH
}

/// Puts the cursor on byte `closest_byte_index`, scrolling only where the
/// byte's row is off screen.
pub fn put_cursor_at_index(state: &mut TermState, closest_byte_index: usize, parameters: &Parameters)
    requires
        old(state).wf(parameters),
    ensures
        final(state).wf(parameters),
        final(state)@ == put_cursor(old(state)@, closest_byte_index, parameters.byte_size),
{
    let closest_byte_offset = get_offset_for_index(closest_byte_index, parameters);
    let visible_start = state.render_from_offset;
    let height: usize = state.term_height as usize;
    if state.term_height >= 2 && closest_byte_offset >= visible_start && closest_byte_offset
        - visible_start <= height - 2 {
        state.row = (closest_byte_offset - visible_start) as u16 + 1;
    } else {
        state.render_from_offset = closest_byte_offset;
        state.row = 1;
    }
    state.column = get_column_for_index(closest_byte_index, parameters, state.dimensions);
}

/// How many columns one step to the `direction` side moves the cursor.
pub fn calculate_leap(state: &TermState, direction: Direction) -> (jump_by: u16)
    ensures
        jump_by == leap(state@, direction),
{
    let dimensions = state.dimensions;
    if direction == Direction::Left && state.column == dimensions.bytes.0 {
        return 0;
    }
    if direction == Direction::Right && state.column as u32 + 4 == dimensions.bytes.1 as u32 {
        return 7;
    }
    if direction == Direction::Left && state.column == dimensions.decoded.0 {
        return 7;
    }
    if state.column >= dimensions.bytes.0 && state.column < dimensions.bytes.1 {
        return CELL_WIDTH;
    }
    1
}

/// Reading the index under the cursor and putting the cursor on that index
/// changes nothing, where the cursor stands on the first column of a byte
/// cell in a row of the viewport.
pub proof fn lemma_cursor_round_trip(v: TermStateView, byte_size: u16)
    requires
        v.wf(byte_size),
        cursor_on_cell_start(v),
        v.row < v.term_height,
        cursor_index(v, byte_size) <= usize::MAX,
    ensures
        put_cursor(v, cursor_index(v, byte_size) as usize, byte_size) == v,
{
    let w = byte_size as int;
    let r = v.row - 1 + v.render_from_offset;
    let c = (v.column - v.dimensions.bytes.0) / 5;
    let i = cursor_index(v, byte_size);
    assert(0 <= c < w);
    assert(i / w == r && i % w == c) by (nonlinear_arith)
        requires
            i == r * w + c,
            0 <= c < w,
            r >= 0,
    ;
}

/// Putting the cursor on an index and reading the index under the cursor
/// gives that index back.
pub proof fn lemma_index_round_trip(v: TermStateView, index: usize, byte_size: u16)
    requires
        v.wf(byte_size),
    ensures
        cursor_on_cell_start(put_cursor(v, index, byte_size)),
        cursor_index(put_cursor(v, index, byte_size), byte_size) == index,
{
    let w = byte_size as int;
    let i = index as int;
    assert(i == w * (i / w) + i % w && 0 <= i % w < w && (i / w) * w == w * (i / w)) by (nonlinear_arith)
        requires
            w >= 1,
            i >= 0,
    ;
    let c = i % w;
    assert((5 * c) / 5 == c && (5 * c) % 5 == 0) by (nonlinear_arith);
}

} // verus!
