//! What the modes draw: commands that place styled text on the screen. The
//! terminal that carries them out is not part of this library.

use vstd::prelude::*;
use crate::keyboard::{description_of, join, legend_lines, Keyboard};
use crate::modes::bytes::{BytesMode, BytesScreens};
use crate::modes::change::ChangeMode;
use crate::modes::goto::GoToMode;
use crate::modes::help::HelpMode;
use crate::modes::search::SearchMode;
use crate::modes::{Editor, Modes};
use crate::pattern::covered;
use crate::state::{Parameters, StatusMode, TermState, TermStateView};
use crate::text::{decimal_text, hex_text, push_chars, push_decimal, push_hex};

verus! {

broadcast use vstd::std_specs::hash::group_hash_axioms;

/// A colour of the terminal.
#[derive(Clone, Copy, Debug, PartialEq, Eq, Structural)]
pub enum Color {
    Reset,
    DarkGrey,
    DarkBlue,
    Red,
    White,
    Yellow,
}

/// A command for the terminal.
#[derive(Debug, PartialEq, Eq)]
pub enum DrawCommand {
    /// Clear the screen.
    ClearAll,
    /// Clear the screen from row `row` down.
    ClearBelow { row: u16 },
    /// Print `text` in these colours, its first character at this cell.
    Text { column: u16, row: u16, foreground: Color, background: Color, text: String },
    /// Show the cursor as a block.
    BlockCursor,
    /// Put the cursor on this cell.
    Cursor { column: u16, row: u16 },
}

/// The mathematical content of a [`DrawCommand`].
pub enum DrawCommandView {
    ClearAll,
    ClearBelow { row: u16 },
    Text { column: u16, row: u16, foreground: Color, background: Color, text: Seq<char> },
    BlockCursor,
    Cursor { column: u16, row: u16 },
}

impl View for DrawCommand {
    type V = DrawCommandView;

    open spec fn view(&self) -> DrawCommandView {
        match *self {
            DrawCommand::ClearAll => DrawCommandView::ClearAll,
            DrawCommand::ClearBelow { row } => DrawCommandView::ClearBelow { row },
            DrawCommand::Text { column, row, foreground, background, text } => DrawCommandView::Text {
                column,
                row,
                foreground,
                background,
                text: text@,
            },
            DrawCommand::BlockCursor => DrawCommandView::BlockCursor,
            DrawCommand::Cursor { column, row } => DrawCommandView::Cursor { column, row },
        }
    }
}

/// The contents of a sequence of commands.
pub open spec fn frame(commands: Seq<DrawCommand>) -> Seq<DrawCommandView> {
    commands.map_values(|c: DrawCommand| c@)
}

/// The character shown for a byte in the decoded region: a blank for ASCII
/// white space, a dot for a byte that is no ASCII or a control, and the
/// ASCII character of any other byte.
pub open spec fn symbol_of(byte: u8) -> char {
    if byte == 0x20 || byte == 0x09 || byte == 0x0A || byte == 0x0C || byte == 0x0D {
        ' '
    } else if byte >= 0x80 || byte < 0x20 || byte == 0x7F {
        '.'
    } else {
        byte as char
    }
}

/// The character shown for a byte in the decoded region.
pub fn get_symbol(byte: u8) -> (symbol: char)
    ensures
        symbol == symbol_of(byte),
{
    if byte == 0x20 || byte == 0x09 || byte == 0x0A || byte == 0x0C || byte == 0x0D {
        return ' ';
    }
    if byte >= 0x80 || byte < 0x20 || byte == 0x7F {
        return '.';
    }
    byte as char
}

/// The colour of byte `index` drawn at cell `(column, row)`: dark blue
/// under the cursor; else red where the byte is marked removed; else dark
/// blue where it is marked changed; else white inside a match; else dark
/// grey.
pub open spec fn byte_color(v: TermStateView, index: int, column: int, row: int) -> Color {
    if row == v.row && column == v.column {
        Color::DarkBlue
    } else if v.removed.contains(index as usize) {
        Color::Red
    } else if v.changed.contains(index as usize) {
        Color::DarkBlue
    } else if covered(v.found, index) {
        Color::White
    } else {
        Color::DarkGrey
    }
}

/// The colour of byte `index` drawn at cell `(column, row)`.
pub fn color_of_byte(state: &TermState, index: usize, column: u16, row: u16) -> (color: Color)
    ensures
        color == byte_color(state@, index as int, column as int, row as int),
{
    if row == state.row && column == state.column {
        Color::DarkBlue
    } else if state.bytes_removed.contains(&index) {
        Color::Red
    } else if state.bytes_changed.contains(&index) {
        Color::DarkBlue
    } else if state.found_sequences.covers(index) {
        Color::White
    } else {
        Color::DarkGrey
    }
}

/// The text of a byte cell: `0x` and two upper-case digits.
pub open spec fn byte_text(byte: u8) -> Seq<char> {
    "0x"@ + hex_text(byte as nat, 2, true)
}

/// The text of an offset label: `0x` and at least eight lower-case digits.
pub open spec fn offset_text(offset: nat) -> Seq<char> {
    "0x"@ + hex_text(offset, 8, false)
}

/// The general status line.
pub open spec fn general_status_text(v: TermStateView, file_path: Seq<char>) -> Seq<char> {
    let head = "Hex Editor ("@ + decimal_text(v.term_width as nat) + "x"@ + decimal_text(
        v.term_height as nat,
    ) + ") - "@ + decimal_text(v.column as nat) + ":"@ + decimal_text(v.row as nat) + ", file: "@
        + file_path;
    if v.changed.len() > 0 {
        head + ", Bytes changes: "@ + decimal_text(v.changed.len())
    } else {
        head
    }
}

/// The status line: the general one, the key bindings, or the report of a
/// failed save.
pub open spec fn status_text(v: TermStateView, file_path: Seq<char>, keyboard: &Keyboard) -> Seq<char> {
    match v.status_mode {
        StatusMode::General => general_status_text(v, file_path),
        StatusMode::Keys => join(legend_lines(keyboard@.legend), ", "@),
        StatusMode::SaveFailed => "Failed to save changes"@,
    }
}

/// The status line.
pub fn get_status(state: &TermState, parameters: &Parameters, keyboard: &Keyboard) -> (status: String)
    ensures
        status@ == status_text(state@, parameters.file_path@, keyboard),
{
    match state.status_mode {
        StatusMode::General => {
            let mut status = String::from_str("Hex Editor (");
            push_decimal(&mut status, state.term_width as u128);
            status.append("x");
            push_decimal(&mut status, state.term_height as u128);
            status.append(") - ");
            push_decimal(&mut status, state.column as u128);
            status.append(":");
            push_decimal(&mut status, state.row as u128);
            status.append(", file: ");
            status.append(parameters.file_path.as_str());
            let changes = state.bytes_changed.len();
            if changes > 0 {
                status.append(", Bytes changes: ");
                push_decimal(&mut status, changes as u128);
            }
            status
        },
        StatusMode::Keys => keyboard.help(", "),
        StatusMode::SaveFailed => String::from_str("Failed to save changes"),
    }
}

/// The text of a byte cell.
pub fn format_byte(byte: u8) -> (text: String)
    ensures
        text@ == byte_text(byte),
{
    let mut text = String::from_str("0x");
    push_hex(&mut text, byte as u128, 2, true);
    text
}

/// The text of an offset label.
pub fn format_offset(offset: u128) -> (text: String)
    ensures
        text@ == offset_text(offset as nat),
{
    let mut text = String::from_str("0x");
    push_hex(&mut text, offset, 8, false);
    text
}

/// The index of the first byte of the viewport.
pub open spec fn first_visible(v: TermStateView, byte_size: u16) -> int {
    v.render_from_offset * byte_size
}

/// How many bytes the viewport shows: those from the first visible one on
/// that the buffer has, as far as the rows between the header and the
/// status line take them.
pub open spec fn visible_count(v: TermStateView, byte_size: u16) -> int {
    let first = first_visible(v, byte_size);
    let room = byte_size * (v.term_height - 1);
    if v.term_height < 2 || first >= v.bytes.len() {
        0
    } else if v.bytes.len() - first < room {
        v.bytes.len() - first
    } else {
        room
    }
}

/// The cell of the `k`-th visible byte in the bytes region.
pub open spec fn byte_cell(v: TermStateView, byte_size: u16, k: int) -> DrawCommandView {
    let index = first_visible(v, byte_size) + k;
    let column = v.dimensions.bytes.0 + 5 * (k % byte_size as int);
    let row = 1 + k / byte_size as int;
    DrawCommandView::Text {
        column: column as u16,
        row: row as u16,
        foreground: byte_color(v, index, column, row),
        background: Color::Reset,
        text: byte_text(v.bytes[index]),
    }
}

/// The cell of the `k`-th visible byte in the decoded region. It has the
/// colour of the byte's cell; a blank is shown as a block of that colour.
pub open spec fn char_cell(v: TermStateView, byte_size: u16, k: int) -> DrawCommandView {
    let index = first_visible(v, byte_size) + k;
    let column = v.dimensions.bytes.0 + 5 * (k % byte_size as int);
    let row = 1 + k / byte_size as int;
    let color = byte_color(v, index, column, row);
    DrawCommandView::Text {
        column: (v.dimensions.decoded.0 + k % byte_size as int) as u16,
        row: row as u16,
        foreground: color,
        background: if symbol_of(v.bytes[index]) == ' ' {
            color
        } else {
            Color::Reset
        },
        text: seq![symbol_of(v.bytes[index])],
    }
}

/// The grid of bytes: for each visible byte its cell in the bytes region
/// and then its cell in the decoded region.
pub open spec fn bytes_frame(v: TermStateView, byte_size: u16) -> Seq<DrawCommandView> {
    Seq::new(
        (2 * visible_count(v, byte_size)) as nat,
        |j: int| if j % 2 == 0 {
            byte_cell(v, byte_size, j / 2)
        } else {
            char_cell(v, byte_size, j / 2)
        },
    )
}

/// How many offset labels the viewport shows: one for each row from the
/// first visible one to the last row of the file, as far as the rows
/// between the header and the status line take them.
pub open spec fn offsets_count(v: TermStateView, offsets: usize) -> int {
    if v.term_height < 1 || v.render_from_offset > offsets {
        0
    } else if offsets - v.render_from_offset >= v.term_height - 1 {
        v.term_height - 1
    } else {
        offsets - v.render_from_offset + 1
    }
}

/// The label of the `j`-th visible row.
pub open spec fn offset_label(v: TermStateView, byte_size: u16, j: int) -> DrawCommandView {
    DrawCommandView::Text {
        column: v.padding,
        row: (j + 1) as u16,
        foreground: Color::Yellow,
        background: Color::Reset,
        text: offset_text(((v.render_from_offset + j) * byte_size) as nat),
    }
}

/// The labels of the visible rows.
pub open spec fn offsets_frame(v: TermStateView, byte_size: u16, offsets: usize) -> Seq<DrawCommandView> {
    Seq::new(offsets_count(v, offsets) as nat, |j: int| offset_label(v, byte_size, j))
}

/// The heading of column `i` of the bytes region.
pub open spec fn column_heading(v: TermStateView, i: int) -> DrawCommandView {
    DrawCommandView::Text {
        column: (v.dimensions.bytes.0 + 5 * i) as u16,
        row: 0,
        foreground: Color::Yellow,
        background: Color::Reset,
        text: "0x"@ + hex_text(i as nat, 2, true),
    }
}

/// The parts of the screen that do not scroll: the headings of the three
/// regions and the status line.
pub open spec fn fixed_frame(v: TermStateView, byte_size: u16, status: Seq<char>) -> Seq<DrawCommandView> {
    seq![
        DrawCommandView::Text {
            column: v.padding,
            row: 0,
            foreground: Color::Yellow,
            background: Color::Reset,
            text: "Offset(h)"@,
        },
        DrawCommandView::Text {
            column: v.padding,
            row: v.term_height,
            foreground: Color::Yellow,
            background: Color::Reset,
            text: status,
        },
    ] + Seq::new(byte_size as nat, |i: int| column_heading(v, i)) + seq![
        DrawCommandView::Text {
            column: v.dimensions.decoded.0,
            row: 0,
            foreground: Color::Yellow,
            background: Color::Reset,
            text: "Decoded"@,
        },
    ]
}

/// The notice that the terminal is too narrow.
pub open spec fn too_small_frame(byte_size: u16) -> Seq<DrawCommandView> {
    seq![
        DrawCommandView::ClearAll,
        DrawCommandView::Text {
            column: 1,
            row: 1,
            foreground: Color::Reset,
            background: Color::Reset,
            text: "Windows too small to display "@ + decimal_text(byte_size as nat)
                + " bytes in one row"@,
        },
    ]
}

/// The screen of Bytes mode: the grid with its headings, labels and status
/// line and the cursor on its cell, or the notice that the terminal is too
/// narrow.
pub open spec fn bytes_mode_frame(
    v: TermStateView,
    byte_size: u16,
    to_draw: BytesScreens,
    offsets: usize,
    status: Seq<char>,
) -> Seq<DrawCommandView> {
    match to_draw {
        BytesScreens::TooSmall => too_small_frame(byte_size),
        BytesScreens::Bytes => seq![DrawCommandView::ClearAll] + fixed_frame(v, byte_size, status)
            + offsets_frame(v, byte_size, offsets) + bytes_frame(v, byte_size) + seq![
            DrawCommandView::Cursor { column: v.column, row: v.row },
        ],
    }
}

/// A command that prints `text`.
pub fn text_at(column: u16, row: u16, foreground: Color, background: Color, text: String) -> (command:
    DrawCommand)
    ensures
        command@ == (DrawCommandView::Text { column, row, foreground, background, text: text@ }),
{
    DrawCommand::Text { column, row, foreground, background, text }
}

/// Draws the grid of bytes.
pub fn draw_bytes(state: &TermState, parameters: &Parameters) -> (commands: Vec<DrawCommand>)
    requires
        state.wf(parameters),
    ensures
        frame(commands@) == bytes_frame(state@, parameters.byte_size),
{
    let mut commands: Vec<DrawCommand> = Vec::new();
    let width: usize = parameters.byte_size as usize;
    let length: usize = state.bytes.len();
    let ghost v = state@;
    let ghost n = parameters.byte_size;
    proof {
        assert(0 <= v.render_from_offset * n <= 0x1_0000_0000_0000_0000 * 0xFFFF) by (nonlinear_arith)
            requires
                0 <= v.render_from_offset <= 0x1_0000_0000_0000_0000,
                0 <= n <= 0xFFFF,
        ;
    }
    let start_from: u128 = (state.render_from_offset as u128) * (parameters.byte_size as u128);
    if state.term_height < 2 || start_from >= length as u128 {
        assert(frame(commands@) =~= bytes_frame(v, n));
        return commands;
    }
    let first: usize = start_from as usize;
    proof {
        assert(0 <= n * (v.term_height - 1) <= 0xFFFF * 0xFFFE) by (nonlinear_arith)
            requires
                1 <= n <= 0xFFFF,
                2 <= v.term_height <= 0xFFFF,
        ;
    }
    let room: u64 = (parameters.byte_size as u64) * ((state.term_height - 1) as u64);
    let count: usize = if ((length - first) as u64) < room {
        length - first
    } else {
        room as usize
    };
    assert(count == visible_count(v, n));
    let mut k: usize = 0;
    while k < count
        invariant
            k <= count,
            count == visible_count(v, n),
            v == state@,
            n == parameters.byte_size,
            width == n,
            state.wf(parameters),
            first == first_visible(v, n),
            first + count <= state.bytes.len(),
            count <= n * (v.term_height - 1),
            commands@.len() == 2 * k,
            forall|j: int| 0 <= j < 2 * k ==> (#[trigger] commands@[j])@ == bytes_frame(v, n)[j],
        decreases count - k,
    {
        let in_row: usize = k % width;
        let down: usize = k / width;
        proof {
            let ki = k as int;
            let w = n as int;
            let h = v.term_height as int;
            assert(ki / w < h - 1 && 0 <= ki % w < w && ki / w >= 0) by (nonlinear_arith)
                requires
                    0 <= ki < w * (h - 1),
                    w >= 1,
            ;
            assert((2 * ki) / 2 == ki && (2 * ki) % 2 == 0 && (2 * ki + 1) / 2 == ki && (2 * ki + 1)
                % 2 == 1);
        }
        let index = first + k;
        let byte = state.bytes[index];
        let column: u16 = state.dimensions.bytes.0 + 5 * (in_row as u16);
        let row: u16 = 1 + down as u16;
        let color = color_of_byte(state, index, column, row);
        let symbol = get_symbol(byte);
        let mut decoded = String::new();
        decoded.push(symbol);
        assert(decoded@ =~= seq![symbol]);
        let background = if symbol == ' ' {
            color
        } else {
            Color::Reset
        };
        commands.push(text_at(column, row, color, Color::Reset, format_byte(byte)));
        commands.push(
            text_at(state.dimensions.decoded.0 + in_row as u16, row, color, background, decoded),
        );
        k += 1;
    }
    assert(frame(commands@) =~= bytes_frame(v, n));
    commands
}

/// Draws the labels of the visible rows; `offsets` is the number of the
/// last row of the file.
pub fn draw_offsets(state: &TermState, parameters: &Parameters, offsets: usize) -> (commands: Vec<
    DrawCommand,
>)
    ensures
        frame(commands@) == offsets_frame(state@, parameters.byte_size, offsets),
{
    let mut commands: Vec<DrawCommand> = Vec::new();
    let ghost v = state@;
    let ghost n = parameters.byte_size;
    if state.term_height < 1 || state.render_from_offset > offsets {
        assert(frame(commands@) =~= offsets_frame(v, n, offsets));
        return commands;
    }
    let count: u16 = if offsets - state.render_from_offset >= (state.term_height - 1) as usize {
        state.term_height - 1
    } else {
        (offsets - state.render_from_offset + 1) as u16
    };
    let mut iter: u16 = 0;
    while iter < count
        invariant
            iter <= count,
            count == offsets_count(v, offsets),
            count < v.term_height,
            v == state@,
            n == parameters.byte_size,
            commands@.len() == iter,
            forall|j: int| 0 <= j < iter ==> (#[trigger] commands@[j])@ == offset_label(v, n, j),
        decreases count - iter,
    {
        proof {
            let r = v.render_from_offset as int + iter as int;
            assert(0 <= r * n <= 0x1_0000_0000_0000_FFFF * 0xFFFF) by (nonlinear_arith)
                requires
                    0 <= r <= 0x1_0000_0000_0000_FFFF,
                    0 <= n <= 0xFFFF,
            ;
        }
        let offset: u128 = (state.render_from_offset as u128 + iter as u128)
            * (parameters.byte_size as u128);
        commands.push(
            text_at(state.padding, iter + 1, Color::Yellow, Color::Reset, format_offset(offset)),
        );
        iter += 1;
    }
    assert(frame(commands@) =~= offsets_frame(v, n, offsets));
    commands
}

/// Draws the headings of the three regions and the status line.
pub fn draw_fixed_ui(state: &TermState, parameters: &Parameters, keyboard: &Keyboard) -> (commands:
    Vec<DrawCommand>)
    requires
        state.wf(parameters),
    ensures
        frame(commands@) == fixed_frame(
            state@,
            parameters.byte_size,
            status_text(state@, parameters.file_path@, keyboard),
        ),
{
    let status = get_status(state, parameters, keyboard);
    let ghost v = state@;
    let ghost n = parameters.byte_size;
    let ghost wanted = fixed_frame(v, n, status@);
    let mut commands: Vec<DrawCommand> = Vec::new();
    commands.push(
        text_at(state.padding, 0, Color::Yellow, Color::Reset, String::from_str("Offset(h)")),
    );
    commands.push(text_at(state.padding, state.term_height, Color::Yellow, Color::Reset, status));
    let mut i: u16 = 0;
    while i < parameters.byte_size
        invariant
            i <= parameters.byte_size,
            v == state@,
            n == parameters.byte_size,
            state.wf(parameters),
            commands@.len() == 2 + i,
            wanted.len() == 3 + n,
            forall|j: int| 0 <= j < 2 + i ==> (#[trigger] commands@[j])@ == wanted[j],
            forall|j: int| 0 <= j < n ==> (#[trigger] wanted[2 + j]) == column_heading(v, j),
            wanted[2 + n] == (DrawCommandView::Text {
                column: v.dimensions.decoded.0,
                row: 0,
                foreground: Color::Yellow,
                background: Color::Reset,
                text: "Decoded"@,
            }),
        decreases parameters.byte_size - i,
    {
        let mut heading = String::from_str("0x");
        push_hex(&mut heading, i as u128, 2, true);
        commands.push(
            text_at(state.dimensions.bytes.0 + 5 * i, 0, Color::Yellow, Color::Reset, heading),
        );
        assert(commands@[2 + i]@ == wanted[2 + i]);
        i += 1;
    }
    commands.push(
        text_at(
            state.dimensions.decoded.0,
            0,
            Color::Yellow,
            Color::Reset,
            String::from_str("Decoded"),
        ),
    );
    assert(frame(commands@) =~= wanted);
    commands
}

/// Moves the commands of `more` to the end of `commands`.
pub fn extend(commands: &mut Vec<DrawCommand>, more: Vec<DrawCommand>)
    ensures
        frame(final(commands)@) == frame(old(commands)@) + frame(more@),
{
    let ghost added = more@;
    let mut more = more;
    commands.append(&mut more);
    assert(frame(commands@) =~= frame(old(commands)@) + frame(added));
}

impl<'a> BytesMode<'a> {
    /// Draws the notice that the terminal is too narrow.
    pub fn draw_too_small(&self) -> (commands: Vec<DrawCommand>)
        ensures
            frame(commands@) == too_small_frame(self.parameters.byte_size),
    {
        let mut notice = String::from_str("Windows too small to display ");
        push_decimal(&mut notice, self.parameters.byte_size as u128);
        notice.append(" bytes in one row");
        let mut commands: Vec<DrawCommand> = Vec::new();
        commands.push(DrawCommand::ClearAll);
        commands.push(text_at(1, 1, Color::Reset, Color::Reset, notice));
        assert(frame(commands@) =~= too_small_frame(self.parameters.byte_size));
        commands
    }

    /// Draws the mode; see [`bytes_mode_frame`].
    pub fn draw(&self, state: &TermState) -> (commands: Vec<DrawCommand>)
        requires
            state.wf(self.parameters),
        ensures
            frame(commands@) == bytes_mode_frame(
                state@,
                self.parameters.byte_size,
                self.to_draw,
                self.offsets,
                status_text(state@, self.parameters.file_path@, self.keyboard),
            ),
    {
        match self.to_draw {
            BytesScreens::Bytes => {
                let mut commands: Vec<DrawCommand> = Vec::new();
                commands.push(DrawCommand::ClearAll);
                assert(frame(commands@) =~= seq![DrawCommandView::ClearAll]);
                extend(&mut commands, draw_fixed_ui(state, self.parameters, self.keyboard));
                extend(&mut commands, draw_offsets(state, self.parameters, self.offsets));
                extend(&mut commands, draw_bytes(state, self.parameters));
                let ghost before = commands@;
                commands.push(DrawCommand::Cursor { column: state.column, row: state.row });
                assert(frame(commands@) =~= frame(before) + seq![
                    DrawCommandView::Cursor { column: state.column, row: state.row },
                ]);
                commands
            },
            BytesScreens::TooSmall => self.draw_too_small(),
        }
    }
}

/// `count` blanks.
pub open spec fn blanks(count: int) -> Seq<char> {
    Seq::new(if count > 0 { count as nat } else { 0 }, |i: int| ' ')
}

/// The screen of Change mode: over the cell of the byte, `0x` and the
/// digits typed so far, with blanks for those still to come.
pub open spec fn change_frame(input: Seq<char>, v: TermStateView) -> Seq<DrawCommandView> {
    seq![
        DrawCommandView::Text {
            column: v.column,
            row: v.row,
            foreground: Color::Reset,
            background: Color::Reset,
            text: "0x"@ + input + blanks(2 - input.len()),
        },
    ]
}

/// The screen column of an input cursor: the cursor itself, or the last
/// column that can be named where the cursor is beyond it.
pub open spec fn cursor_column(cursor: usize) -> u16 {
    if cursor > u16::MAX {
        u16::MAX
    } else {
        cursor as u16
    }
}

/// The last line of the screen while a mode reads input there: the prompt
/// with the input and the cursor as a block on its place, or the report
/// that the offset is out of range.
pub open spec fn prompt_frame(
    prompt: Seq<char>,
    input: Seq<char>,
    cursor: usize,
    draw_error: bool,
    v: TermStateView,
) -> Seq<DrawCommandView> {
    if draw_error {
        seq![
            DrawCommandView::ClearBelow { row: v.term_height },
            DrawCommandView::Text {
                column: 1,
                row: v.term_height,
                foreground: Color::Red,
                background: Color::Reset,
                text: "Offset exceeds total number of offsets!"@,
            },
        ]
    } else {
        seq![
            DrawCommandView::ClearBelow { row: v.term_height },
            DrawCommandView::Text {
                column: 1,
                row: v.term_height,
                foreground: Color::DarkGrey,
                background: Color::Reset,
                text: prompt + input,
            },
            DrawCommandView::BlockCursor,
            DrawCommandView::Cursor { column: cursor_column(cursor), row: v.term_height },
        ]
    }
}

/// How many lines of the legend Help mode shows: all that have a row.
pub open spec fn help_count(padding: u16, legend: Seq<(Seq<char>, crate::keyboard::Operation)>) -> int {
    if legend.len() <= 0x10000 - padding {
        legend.len() as int
    } else {
        0x10000 - padding
    }
}

/// The column where the description of a chord of `length` characters
/// starts: 20 columns after the chord's start, or one blank after the chord
/// where it is longer; at most the last column that can be named.
pub open spec fn description_column(padding: u16, length: nat) -> u16 {
    let column = if length < 20 {
        padding + 20
    } else {
        padding + length + 1
    };
    if column > u16::MAX {
        u16::MAX
    } else {
        column as u16
    }
}

/// The screen of Help mode: the legend, a line for each binding, the chord
/// to the left and what it does to the right.
pub open spec fn help_frame(padding: u16, legend: Seq<(Seq<char>, crate::keyboard::Operation)>) -> Seq<
    DrawCommandView,
> {
    seq![DrawCommandView::ClearAll] + Seq::new(
        (2 * help_count(padding, legend)) as nat,
        |j: int| if j % 2 == 0 {
            DrawCommandView::Text {
                column: padding,
                row: (padding + j / 2) as u16,
                foreground: Color::Reset,
                background: Color::Reset,
                text: legend[j / 2].0,
            }
        } else {
            DrawCommandView::Text {
                column: description_column(padding, legend[j / 2].0.len()),
                row: (padding + j / 2) as u16,
                foreground: Color::Reset,
                background: Color::Reset,
                text: description_of(legend[j / 2].1),
            }
        },
    )
}

/// Draws the last line of the screen for a mode that reads input there.
pub fn draw_prompt(prompt: &str, input: &Vec<char>, cursor: usize, draw_error: bool, state: &TermState) -> (commands:
    Vec<DrawCommand>)
    ensures
        frame(commands@) == prompt_frame(prompt@, input@, cursor, draw_error, state@),
{
    let mut commands: Vec<DrawCommand> = Vec::new();
    commands.push(DrawCommand::ClearBelow { row: state.term_height });
    if draw_error {
        commands.push(
            text_at(
                1,
                state.term_height,
                Color::Red,
                Color::Reset,
                String::from_str("Offset exceeds total number of offsets!"),
            ),
        );
    } else {
        let mut msg = String::from_str(prompt);
        push_chars(&mut msg, input);
        commands.push(text_at(1, state.term_height, Color::DarkGrey, Color::Reset, msg));
        commands.push(DrawCommand::BlockCursor);
        let column: u16 = if cursor > u16::MAX as usize {
            u16::MAX
        } else {
            cursor as u16
        };
        commands.push(DrawCommand::Cursor { column, row: state.term_height });
    }
    assert(frame(commands@) =~= prompt_frame(prompt@, input@, cursor, draw_error, state@));
    commands
}

impl<'a> ChangeMode<'a> {
    /// Draws the mode; see [`change_frame`].
    pub fn draw(&self, state: &TermState) -> (commands: Vec<DrawCommand>)
        ensures
            frame(commands@) == change_frame(self.input@, state@),
    {
        let mut text = String::from_str("0x");
        push_chars(&mut text, &self.input);
        let ghost typed = text@;
        let mut i: usize = self.input.len();
        assert(text@ =~= typed + blanks(0));
        while i < 2
            invariant
                self.input@.len() <= i,
                i <= 2 || i == self.input@.len(),
                typed == "0x"@ + self.input@,
                text@ == typed + blanks(i - self.input@.len()),
            decreases 2 - i,
        {
            text.push(' ');
            assert(text@ =~= typed + blanks(i + 1 - self.input@.len()));
            i += 1;
        }
        assert(text@ =~= "0x"@ + self.input@ + blanks(2 - self.input@.len()));
        let mut commands: Vec<DrawCommand> = Vec::new();
        commands.push(text_at(state.column, state.row, Color::Reset, Color::Reset, text));
        assert(frame(commands@) =~= change_frame(self.input@, state@));
        commands
    }
}

impl GoToMode {
    /// Draws the mode: the prompt `Go to offset: 0x` with the digits.
    pub fn draw(&self, state: &TermState) -> (commands: Vec<DrawCommand>)
        ensures
            frame(commands@) == prompt_frame(
                "Go to offset: 0x"@,
                self.input@,
                self.cursor,
                self.draw_error,
                state@,
            ),
    {
        draw_prompt("Go to offset: 0x", &self.input, self.cursor, self.draw_error, state)
    }
}

impl SearchMode {
    /// Draws the mode: the prompt `Search for: ` with the digits.
    pub fn draw(&self, state: &TermState) -> (commands: Vec<DrawCommand>)
        ensures
            frame(commands@) == prompt_frame(
                "Search for: "@,
                self.input@,
                self.cursor,
                self.draw_error,
                state@,
            ),
    {
        draw_prompt("Search for: ", &self.input, self.cursor, self.draw_error, state)
    }
}

impl<'a> HelpMode<'a> {
    /// Draws the mode; see [`help_frame`].
    pub fn draw(&self, state: &TermState) -> (commands: Vec<DrawCommand>)
        ensures
            frame(commands@) == help_frame(self.padding, self.keyboard@.legend),
    {
        let ghost legend = self.keyboard@.legend;
        let ghost wanted = help_frame(self.padding, legend);
        let mut commands: Vec<DrawCommand> = Vec::new();
        commands.push(DrawCommand::ClearAll);
        let total = self.keyboard.len();
        let rows: usize = 0x10000 - self.padding as usize;
        let count: usize = if total <= rows {
            total
        } else {
            rows
        };
        let mut k: usize = 0;
        while k < count
            invariant
                k <= count,
                count == help_count(self.padding, legend),
                count <= legend.len(),
                legend == self.keyboard@.legend,
                wanted == help_frame(self.padding, legend),
                commands@.len() == 1 + 2 * k,
                forall|j: int| 0 <= j < 1 + 2 * k ==> (#[trigger] commands@[j])@ == wanted[j],
            decreases count - k,
        {
            let entry = self.keyboard.entry(k);
            let length = entry.chord.as_str().unicode_len();
            let row: u16 = (self.padding as usize + k) as u16;
            let wide: u64 = if length < 20 {
                self.padding as u64 + 20
            } else if length >= 0x10000 {
                0x10000
            } else {
                self.padding as u64 + length as u64 + 1
            };
            let column: u16 = if wide > u16::MAX as u64 {
                u16::MAX
            } else {
                wide as u16
            };
            proof {
                let ki = k as int;
                assert((2 * ki) / 2 == ki && (2 * ki) % 2 == 0 && (2 * ki + 1) / 2 == ki && (2 * ki
                    + 1) % 2 == 1);
            }
            commands.push(
                text_at(self.padding, row, Color::Reset, Color::Reset, entry.chord.clone()),
            );
            commands.push(
                text_at(
                    column,
                    row,
                    Color::Reset,
                    Color::Reset,
                    String::from_str(entry.operation.description()),
                ),
            );
            assert(commands@[1 + 2 * k]@ == wanted[1 + 2 * k]);
            assert(commands@[2 + 2 * k]@ == wanted[2 + 2 * k]);
            k += 1;
        }
        assert(frame(commands@) =~= wanted);
        commands
    }
}

/// The screen of the active mode; nothing once the session has ended.
pub open spec fn editor_frame(editor: Editor, v: TermStateView) -> Seq<DrawCommandView> {
    match editor.active {
        Modes::Bytes => bytes_mode_frame(
            v,
            editor.bytes.parameters.byte_size,
            editor.bytes.to_draw,
            editor.bytes.offsets,
            status_text(v, editor.bytes.parameters.file_path@, editor.bytes.keyboard),
        ),
        Modes::Help => help_frame(editor.help.padding, editor.help.keyboard@.legend),
        Modes::Change => change_frame(editor.change.input@, v),
        Modes::GoTo => prompt_frame(
            "Go to offset: 0x"@,
            editor.goto.input@,
            editor.goto.cursor,
            editor.goto.draw_error,
            v,
        ),
        Modes::Search => prompt_frame(
            "Search for: "@,
            editor.search.input@,
            editor.search.cursor,
            editor.search.draw_error,
            v,
        ),
        Modes::Quit => Seq::empty(),
    }
}

impl<'a> Editor<'a> {
    /// Draws the active mode.
    pub fn draw(&self, state: &TermState) -> (commands: Vec<DrawCommand>)
        requires
            state.wf(self.bytes.parameters),
        ensures
            frame(commands@) == editor_frame(*self, state@),
    {
        match self.active {
            Modes::Bytes => self.bytes.draw(state),
            Modes::Help => self.help.draw(state),
            Modes::Change => self.change.draw(state),
            Modes::GoTo => self.goto.draw(state),
            Modes::Search => self.search.draw(state),
            Modes::Quit => {
                let commands: Vec<DrawCommand> = Vec::new();
                assert(frame(commands@) =~= Seq::<DrawCommandView>::empty());
                commands
            },
        }
    }
}

} // verus!
