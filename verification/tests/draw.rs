use hex_rs::draw::{
    color_of_byte, draw_bytes, draw_fixed_ui, draw_offsets, draw_prompt, format_byte,
    format_offset, get_status, get_symbol, text_at, Color, DrawCommand,
};
use hex_rs::geometry::Dimensions;
use hex_rs::keyboard::Keyboard;
use hex_rs::modes::{BytesMode, ChangeMode, Editor, GoToMode, HelpMode, Modes, SearchMode};
use hex_rs::overlay::{mark_changed, toggle_removed};
use hex_rs::state::{Parameters, StatusMode, TermState};

fn parameters(byte_size: u16) -> Parameters {
    Parameters { file_path: String::from("file.bin"), byte_size }
}

fn table(config: &str) -> Keyboard {
    match Keyboard::new(config) {
        Ok(keyboard) => keyboard,
        Err(error) => panic!("line {}: {:?}", error.line, error.kind),
    }
}

fn text(column: u16, row: u16, foreground: Color, background: Color, text: &str) -> DrawCommand {
    DrawCommand::Text { column, row, foreground, background, text: String::from(text) }
}

#[test]
fn symbols_of_bytes() {
    assert_eq!(get_symbol(b'A'), 'A');
    assert_eq!(get_symbol(b'~'), '~');
    assert_eq!(get_symbol(b'!'), '!');
    assert_eq!(get_symbol(b' '), ' ');
    assert_eq!(get_symbol(b'\t'), ' ');
    assert_eq!(get_symbol(b'\n'), ' ');
    assert_eq!(get_symbol(b'\r'), ' ');
    assert_eq!(get_symbol(0x0C), ' ');
    assert_eq!(get_symbol(0x0B), '.');
    assert_eq!(get_symbol(0x00), '.');
    assert_eq!(get_symbol(0x1F), '.');
    assert_eq!(get_symbol(0x7F), '.');
    assert_eq!(get_symbol(0x80), '.');
    assert_eq!(get_symbol(0xFF), '.');
}

#[test]
fn symbols_agree_with_the_ascii_classes() {
    for byte in 0..=255u8 {
        let expected = if byte.is_ascii_whitespace() {
            ' '
        } else if !byte.is_ascii() || byte.is_ascii_control() {
            '.'
        } else {
            char::from(byte)
        };
        assert_eq!(get_symbol(byte), expected);
    }
}

#[test]
fn bytes_and_offsets_as_text() {
    assert_eq!(format_byte(0x00), "0x00");
    assert_eq!(format_byte(0x0A), "0x0A");
    assert_eq!(format_byte(0xFF), "0xFF");
    assert_eq!(format_offset(0), "0x00000000");
    assert_eq!(format_offset(0xa0), "0x000000a0");
    assert_eq!(format_offset(0xdead_beef), "0xdeadbeef");
    assert_eq!(format_offset(0x1_0000_0000), "0x100000000");
    for byte in 0..=255u8 {
        assert_eq!(format_byte(byte), format!("{:#04X}", byte));
    }
    for offset in [0u128, 1, 15, 16, 255, 4096, 0xffff_ffff, 0x1234_5678_9abc] {
        assert_eq!(format_offset(offset), format!("{:#010x}", offset));
    }
}

#[test]
fn colours_of_bytes() {
    let parameters = parameters(16);
    let dimensions = Dimensions::new(2, &parameters);
    let mut state = TermState::new(2, &dimensions, 120, 30, vec![0; 64], "file.bin");
    state.found_sequences.insert(4..8);
    mark_changed(&mut state, 5, 1);
    mark_changed(&mut state, 10, 1);
    toggle_removed(&mut state, 6);
    toggle_removed(&mut state, 11);
    assert_eq!(color_of_byte(&state, 0, 15, 1), Color::DarkBlue);
    assert_eq!(color_of_byte(&state, 1, 20, 1), Color::DarkGrey);
    assert_eq!(color_of_byte(&state, 4, 35, 1), Color::White);
    assert_eq!(color_of_byte(&state, 7, 50, 1), Color::White);
    assert_eq!(color_of_byte(&state, 8, 55, 1), Color::DarkGrey);
    assert_eq!(color_of_byte(&state, 5, 40, 1), Color::DarkBlue);
    assert_eq!(color_of_byte(&state, 10, 65, 1), Color::DarkBlue);
    assert_eq!(color_of_byte(&state, 6, 45, 1), Color::Red);
    assert_eq!(color_of_byte(&state, 11, 70, 1), Color::Red);
    state.column = 45;
    assert_eq!(color_of_byte(&state, 6, 45, 1), Color::DarkBlue);
    assert_eq!(color_of_byte(&state, 0, 15, 1), Color::DarkGrey);
}

#[test]
fn status_lines() {
    let parameters = parameters(16);
    let dimensions = Dimensions::new(2, &parameters);
    let keyboard = table("q quit\nf5 save\n");
    let mut state = TermState::new(2, &dimensions, 120, 30, vec![0; 64], "file.bin");
    assert_eq!(get_status(&state, &parameters, &keyboard), "Hex Editor (120x30) - 15:1, file: file.bin");
    mark_changed(&mut state, 5, 1);
    mark_changed(&mut state, 6, 1);
    state.row = 12;
    assert_eq!(
        get_status(&state, &parameters, &keyboard),
        "Hex Editor (120x30) - 15:12, file: file.bin, Bytes changes: 2"
    );
    state.status_mode = StatusMode::Keys;
    assert_eq!(get_status(&state, &parameters, &keyboard), "q: quit, f5: save changes");
    state.status_mode = StatusMode::SaveFailed;
    assert_eq!(get_status(&state, &parameters, &keyboard), "Failed to save changes");
}

#[test]
fn text_at_builds_a_text_command() {
    assert_eq!(
        text_at(3, 4, Color::Red, Color::White, String::from("x")),
        text(3, 4, Color::Red, Color::White, "x")
    );
}

#[test]
fn the_grid_of_a_small_buffer() {
    let parameters = parameters(2);
    let dimensions = Dimensions::new(2, &parameters);
    assert_eq!(dimensions.bytes, (15, 24));
    assert_eq!(dimensions.decoded, (27, 29));
    let mut state = TermState::new(2, &dimensions, 120, 30, vec![0x41, 0x20, 0x80], "file.bin");
    toggle_removed(&mut state, 1);
    assert_eq!(
        draw_bytes(&state, &parameters),
        vec![
            text(15, 1, Color::DarkBlue, Color::Reset, "0x41"),
            text(27, 1, Color::DarkBlue, Color::Reset, "A"),
            text(20, 1, Color::Red, Color::Reset, "0x20"),
            text(28, 1, Color::Red, Color::Red, " "),
            text(15, 2, Color::DarkGrey, Color::Reset, "0x80"),
            text(27, 2, Color::DarkGrey, Color::Reset, "."),
        ]
    );
}

#[test]
fn the_grid_shows_what_the_viewport_holds() {
    let parameters = parameters(2);
    let dimensions = Dimensions::new(2, &parameters);
    let mut state = TermState::new(2, &dimensions, 120, 3, vec![1, 2, 3, 4, 5, 6, 7], "file.bin");
    state.row = 3;
    assert_eq!(draw_bytes(&state, &parameters).len(), 8);
    state.render_from_offset = 1;
    assert_eq!(
        draw_bytes(&state, &parameters),
        vec![
            text(15, 1, Color::DarkGrey, Color::Reset, "0x03"),
            text(27, 1, Color::DarkGrey, Color::Reset, "."),
            text(20, 1, Color::DarkGrey, Color::Reset, "0x04"),
            text(28, 1, Color::DarkGrey, Color::Reset, "."),
            text(15, 2, Color::DarkGrey, Color::Reset, "0x05"),
            text(27, 2, Color::DarkGrey, Color::Reset, "."),
            text(20, 2, Color::DarkGrey, Color::Reset, "0x06"),
            text(28, 2, Color::DarkGrey, Color::Reset, "."),
        ]
    );
    state.render_from_offset = 3;
    assert_eq!(draw_bytes(&state, &parameters).len(), 2);
    state.render_from_offset = 4;
    assert_eq!(draw_bytes(&state, &parameters), Vec::<DrawCommand>::new());
    state.render_from_offset = usize::MAX;
    assert_eq!(draw_bytes(&state, &parameters), Vec::<DrawCommand>::new());
    state.render_from_offset = 0;
    state.term_height = 1;
    assert_eq!(draw_bytes(&state, &parameters), Vec::<DrawCommand>::new());
}

#[test]
fn the_offset_labels() {
    let parameters = parameters(16);
    let dimensions = Dimensions::new(2, &parameters);
    let mut state = TermState::new(2, &dimensions, 120, 4, vec![0; 100], "file.bin");
    assert_eq!(
        draw_offsets(&state, &parameters, 6),
        vec![
            text(2, 1, Color::Yellow, Color::Reset, "0x00000000"),
            text(2, 2, Color::Yellow, Color::Reset, "0x00000010"),
            text(2, 3, Color::Yellow, Color::Reset, "0x00000020"),
        ]
    );
    state.render_from_offset = 5;
    assert_eq!(
        draw_offsets(&state, &parameters, 6),
        vec![
            text(2, 1, Color::Yellow, Color::Reset, "0x00000050"),
            text(2, 2, Color::Yellow, Color::Reset, "0x00000060"),
        ]
    );
    state.render_from_offset = 7;
    assert_eq!(draw_offsets(&state, &parameters, 6), Vec::<DrawCommand>::new());
    state.render_from_offset = 0;
    state.term_height = 0;
    assert_eq!(draw_offsets(&state, &parameters, 6), Vec::<DrawCommand>::new());
}

#[test]
fn the_fixed_parts_of_the_screen() {
    let parameters = parameters(2);
    let dimensions = Dimensions::new(2, &parameters);
    let keyboard = table("q quit\n");
    let state = TermState::new(2, &dimensions, 120, 30, vec![0; 8], "file.bin");
    assert_eq!(
        draw_fixed_ui(&state, &parameters, &keyboard),
        vec![
            text(2, 0, Color::Yellow, Color::Reset, "Offset(h)"),
            text(2, 30, Color::Yellow, Color::Reset, "Hex Editor (120x30) - 15:1, file: file.bin"),
            text(15, 0, Color::Yellow, Color::Reset, "0x00"),
            text(20, 0, Color::Yellow, Color::Reset, "0x01"),
            text(27, 0, Color::Yellow, Color::Reset, "Decoded"),
        ]
    );
}

#[test]
fn the_screen_of_bytes_mode() {
    let parameters = parameters(2);
    let dimensions = Dimensions::new(2, &parameters);
    let keyboard = table("q quit\n");
    let state = TermState::new(2, &dimensions, 120, 30, vec![0x41], "file.bin");
    let mut mode = BytesMode::new(&keyboard, &parameters, 1);
    assert_eq!(
        mode.draw(&state),
        vec![
            DrawCommand::ClearAll,
            text(2, 0, Color::Yellow, Color::Reset, "Offset(h)"),
            text(2, 30, Color::Yellow, Color::Reset, "Hex Editor (120x30) - 15:1, file: file.bin"),
            text(15, 0, Color::Yellow, Color::Reset, "0x00"),
            text(20, 0, Color::Yellow, Color::Reset, "0x01"),
            text(27, 0, Color::Yellow, Color::Reset, "Decoded"),
            text(2, 1, Color::Yellow, Color::Reset, "0x00000000"),
            text(15, 1, Color::DarkBlue, Color::Reset, "0x41"),
            text(27, 1, Color::DarkBlue, Color::Reset, "A"),
            DrawCommand::Cursor { column: 15, row: 1 },
        ]
    );
    let mut narrow = TermState::new(2, &dimensions, 120, 30, vec![0x41], "file.bin");
    mode.handle_resize(10, 10, &mut narrow, &parameters);
    let notice = vec![
        DrawCommand::ClearAll,
        text(1, 1, Color::Reset, Color::Reset, "Windows too small to display 2 bytes in one row"),
    ];
    assert_eq!(mode.draw(&narrow), notice);
    assert_eq!(mode.draw_too_small(), notice);
}

#[test]
fn the_screen_of_change_mode() {
    let parameters = parameters(16);
    let dimensions = Dimensions::new(2, &parameters);
    let mut state = TermState::new(2, &dimensions, 120, 30, vec![0; 8], "file.bin");
    state.row = 3;
    state.column = 20;
    let mut mode = ChangeMode::new(&parameters);
    assert_eq!(mode.draw(&state), vec![text(20, 3, Color::Reset, Color::Reset, "0x  ")]);
    mode.input.push('A');
    assert_eq!(mode.draw(&state), vec![text(20, 3, Color::Reset, Color::Reset, "0xA ")]);
    mode.input.push('7');
    assert_eq!(mode.draw(&state), vec![text(20, 3, Color::Reset, Color::Reset, "0xA7")]);
}

#[test]
fn the_prompts_of_goto_and_search() {
    let parameters = parameters(16);
    let dimensions = Dimensions::new(2, &parameters);
    let state = TermState::new(2, &dimensions, 120, 30, vec![0; 8], "file.bin");
    let mut goto = GoToMode::new();
    assert_eq!(
        goto.draw(&state),
        vec![
            DrawCommand::ClearBelow { row: 30 },
            text(1, 30, Color::DarkGrey, Color::Reset, "Go to offset: 0x00000000"),
            DrawCommand::BlockCursor,
            DrawCommand::Cursor { column: 24, row: 30 },
        ]
    );
    goto.draw_error = true;
    assert_eq!(
        goto.draw(&state),
        vec![
            DrawCommand::ClearBelow { row: 30 },
            text(1, 30, Color::Red, Color::Reset, "Offset exceeds total number of offsets!"),
        ]
    );
    let mut search = SearchMode::new();
    search.input = vec!['a', 'b'];
    search.cursor = 15;
    assert_eq!(
        search.draw(&state),
        vec![
            DrawCommand::ClearBelow { row: 30 },
            text(1, 30, Color::DarkGrey, Color::Reset, "Search for: ab"),
            DrawCommand::BlockCursor,
            DrawCommand::Cursor { column: 15, row: 30 },
        ]
    );
    assert_eq!(
        draw_prompt("> ", &vec!['x'], 70000, false, &state),
        vec![
            DrawCommand::ClearBelow { row: 30 },
            text(1, 30, Color::DarkGrey, Color::Reset, "> x"),
            DrawCommand::BlockCursor,
            DrawCommand::Cursor { column: 65535, row: 30 },
        ]
    );
}

#[test]
fn the_screen_of_help_mode() {
    let parameters = parameters(16);
    let dimensions = Dimensions::new(2, &parameters);
    let keyboard = table("q quit\nshift+backspace save\nf000000000000000000005 help\n");
    let state = TermState::new(2, &dimensions, 120, 30, vec![0; 8], "file.bin");
    let mode = HelpMode::new(2, &keyboard);
    assert_eq!(
        mode.draw(&state),
        vec![
            DrawCommand::ClearAll,
            text(2, 2, Color::Reset, Color::Reset, "q"),
            text(22, 2, Color::Reset, Color::Reset, "quit"),
            text(2, 3, Color::Reset, Color::Reset, "shift+backspace"),
            text(22, 3, Color::Reset, Color::Reset, "save changes"),
            text(2, 4, Color::Reset, Color::Reset, "f000000000000000000005"),
            text(25, 4, Color::Reset, Color::Reset, "print help"),
        ]
    );
}

#[test]
fn the_editor_draws_the_active_mode() {
    let parameters = parameters(16);
    let dimensions = Dimensions::new(2, &parameters);
    let keyboard = table("q quit\n");
    let state = TermState::new(2, &dimensions, 120, 30, vec![0; 8], "file.bin");
    let mut editor = Editor::new(&keyboard, &parameters, 2, 8);
    assert_eq!(editor.draw(&state), editor.bytes.draw(&state));
    editor.active = Modes::Help;
    assert_eq!(editor.draw(&state), editor.help.draw(&state));
    editor.active = Modes::Change;
    assert_eq!(editor.draw(&state), editor.change.draw(&state));
    editor.active = Modes::GoTo;
    assert_eq!(editor.draw(&state), editor.goto.draw(&state));
    editor.active = Modes::Search;
    assert_eq!(editor.draw(&state), editor.search.draw(&state));
    editor.active = Modes::Quit;
    assert_eq!(editor.draw(&state), Vec::<DrawCommand>::new());
}
