use hex_rs::actions::{
    edit, general_status, go_to_end, go_to_start, goto, help, keys_status, perform, quit, search,
};
use hex_rs::event::{
    Event, KeyCode, KeyEvent, Modifiers, MouseButton, MouseEvent, MouseEventKind,
};
use hex_rs::geometry::Dimensions;
use hex_rs::keyboard::{default_config, Keyboard, Operation};
use hex_rs::modes::bytes::keep_cursor_on_screen;
use hex_rs::draw::DrawCommand;
use hex_rs::modes::{
    BytesMode, BytesScreens, ChangeMode, Directive, Editor, GoToMode, HelpMode, Mode, Modes,
    SearchMode,
};
use hex_rs::state::{Parameters, StatusMode, TermState};

fn parameters(byte_size: u16) -> Parameters {
    Parameters { file_path: String::from("file.bin"), byte_size }
}

fn state_with<'a>(dimensions: &'a Dimensions, length: usize) -> TermState<'a> {
    let bytes: Vec<u8> = (0..length).map(|i| i as u8).collect();
    TermState::new(2, dimensions, 120, 30, bytes, "file.bin")
}

fn key(code: KeyCode) -> KeyEvent {
    KeyEvent { code, modifiers: Modifiers::none() }
}

fn typed(c: char) -> KeyEvent {
    key(KeyCode::Char(c))
}

fn table(config: &str) -> Keyboard {
    match Keyboard::new(config) {
        Ok(keyboard) => keyboard,
        Err(error) => panic!("line {}: {:?}", error.line, error.kind),
    }
}

fn mouse(kind: MouseEventKind, column: u16, row: u16) -> MouseEvent {
    MouseEvent { kind, column, row }
}

#[test]
fn a_new_state_starts_on_the_first_byte() {
    let parameters = parameters(16);
    let dimensions = Dimensions::new(2, &parameters);
    let state = state_with(&dimensions, 4);
    assert_eq!((state.row, state.column), (1, 15));
    assert_eq!(state.render_from_offset, 0);
    assert_eq!(state.status_mode, StatusMode::General);
    assert_eq!(state.prev_mode, Modes::Bytes);
    assert_eq!(state.bytes, vec![0, 1, 2, 3]);
    assert!(state.bytes_changed.is_empty());
    assert!(state.bytes_removed.is_empty());
    assert_eq!(state.found_sequences.len(), 0);
    assert_eq!(state.file_path, "file.bin");
    assert_eq!((state.term_width, state.term_height, state.padding), (120, 30, 2));
}

#[test]
fn operations_that_only_switch_the_mode() {
    let parameters = parameters(16);
    let dimensions = Dimensions::new(2, &parameters);
    let mut state = state_with(&dimensions, 4);
    assert_eq!(search(&mut state, &parameters), Modes::Search);
    assert_eq!(goto(&mut state, &parameters), Modes::GoTo);
    assert_eq!(edit(&mut state, &parameters), Modes::Change);
    assert_eq!(quit(&mut state, &parameters), Modes::Quit);
    assert_eq!(help(&mut state, &parameters), Modes::Help);
    state.prev_mode = Modes::Help;
    assert_eq!(help(&mut state, &parameters), Modes::Bytes);
    assert_eq!((state.row, state.column), (1, 15));
}

#[test]
fn status_operations_choose_the_status_line() {
    let parameters = parameters(16);
    let dimensions = Dimensions::new(2, &parameters);
    let mut state = state_with(&dimensions, 4);
    assert_eq!(keys_status(&mut state, &parameters), Modes::Bytes);
    assert_eq!(state.status_mode, StatusMode::Keys);
    assert_eq!(general_status(&mut state, &parameters), Modes::Bytes);
    assert_eq!(state.status_mode, StatusMode::General);
}

#[test]
fn go_to_start_and_end() {
    let parameters = parameters(16);
    let dimensions = Dimensions::new(2, &parameters);
    let mut state = state_with(&dimensions, 1000);
    assert_eq!(go_to_end(&mut state, &parameters), Modes::Bytes);
    assert_eq!((state.render_from_offset, state.row, state.column), (62, 1, 50));
    assert_eq!(go_to_start(&mut state, &parameters), Modes::Bytes);
    assert_eq!((state.render_from_offset, state.row, state.column), (0, 1, 15));
    let mut empty = state_with(&dimensions, 0);
    assert_eq!(go_to_end(&mut empty, &parameters), Modes::Bytes);
    assert_eq!((empty.render_from_offset, empty.row, empty.column), (0, 1, 15));
}

#[test]
fn perform_ignores_what_cannot_be_done() {
    let parameters = parameters(16);
    let dimensions = Dimensions::new(2, &parameters);
    let mut state = state_with(&dimensions, 64);
    state.column = 97;
    assert_eq!(perform(Operation::Remove, &mut state, &parameters), Modes::Bytes);
    assert!(state.bytes_removed.is_empty());
    state.bytes_removed.insert(40);
    assert_eq!(perform(Operation::NextChange, &mut state, &parameters), Modes::Bytes);
    assert_eq!((state.row, state.column), (1, 97));
    state.render_from_offset = usize::MAX;
    assert_eq!(perform(Operation::ScrollDown, &mut state, &parameters), Modes::Bytes);
    assert_eq!(state.render_from_offset, usize::MAX);
    assert_eq!(perform(Operation::Save, &mut state, &parameters), Modes::Bytes);
    assert_eq!(state.bytes.len(), 64);
}

#[test]
fn perform_carries_out_each_operation() {
    let parameters = parameters(16);
    let dimensions = Dimensions::new(2, &parameters);
    let mut state = state_with(&dimensions, 64);
    assert_eq!(perform(Operation::GoRight, &mut state, &parameters), Modes::Bytes);
    assert_eq!(state.column, 20);
    assert_eq!(perform(Operation::GoDown, &mut state, &parameters), Modes::Bytes);
    assert_eq!(state.row, 2);
    assert_eq!(perform(Operation::Remove, &mut state, &parameters), Modes::Bytes);
    assert!(state.bytes_removed.contains(&17));
    assert_eq!(perform(Operation::GoLeft, &mut state, &parameters), Modes::Bytes);
    assert_eq!(perform(Operation::GoUp, &mut state, &parameters), Modes::Bytes);
    assert_eq!((state.row, state.column), (1, 15));
    assert_eq!(perform(Operation::NextChange, &mut state, &parameters), Modes::Bytes);
    assert_eq!((state.row, state.column), (2, 20));
    assert_eq!(perform(Operation::ScrollDown, &mut state, &parameters), Modes::Bytes);
    assert_eq!(state.render_from_offset, 1);
    assert_eq!(perform(Operation::ScrollUp, &mut state, &parameters), Modes::Bytes);
    assert_eq!(state.render_from_offset, 0);
    assert_eq!(perform(Operation::Quit, &mut state, &parameters), Modes::Quit);
    assert_eq!(perform(Operation::Edit, &mut state, &parameters), Modes::Change);
    assert_eq!(perform(Operation::Search, &mut state, &parameters), Modes::Search);
    assert_eq!(perform(Operation::GoTo, &mut state, &parameters), Modes::GoTo);
    assert_eq!(perform(Operation::Help, &mut state, &parameters), Modes::Help);
    assert_eq!(perform(Operation::KeysStatus, &mut state, &parameters), Modes::Bytes);
    assert_eq!(state.status_mode, StatusMode::Keys);
}

#[test]
fn change_mode_commits_two_digits() {
    let parameters = parameters(16);
    let dimensions = Dimensions::new(2, &parameters);
    let mut state = state_with(&dimensions, 64);
    state.row = 2;
    state.column = 20;
    let mut mode = ChangeMode::new(&parameters);
    assert_eq!(mode.handle_input(&typed('a'), &mut state, &parameters), Modes::Change);
    assert_eq!(mode.input, vec!['A']);
    assert_eq!(mode.handle_input(&key(KeyCode::Enter), &mut state, &parameters), Modes::Change);
    assert_eq!(state.bytes[17], 17);
    assert_eq!(mode.handle_input(&typed('g'), &mut state, &parameters), Modes::Change);
    assert_eq!(mode.handle_input(&typed('7'), &mut state, &parameters), Modes::Change);
    assert_eq!(mode.handle_input(&typed('3'), &mut state, &parameters), Modes::Change);
    assert_eq!(mode.input, vec!['A', '7']);
    assert_eq!(mode.handle_input(&key(KeyCode::Enter), &mut state, &parameters), Modes::Bytes);
    assert_eq!(state.bytes[17], 0xA7);
    assert!(state.bytes_changed.contains(&17));
    assert_eq!(state.bytes_changed.len(), 1);
    assert_eq!(state.bytes.len(), 64);
    assert!(mode.input.is_empty());
    assert!(!mode.should_quit());
}

#[test]
fn change_mode_backspace_and_abort() {
    let parameters = parameters(16);
    let dimensions = Dimensions::new(2, &parameters);
    let mut state = state_with(&dimensions, 64);
    let mut mode = ChangeMode::new(&parameters);
    assert_eq!(mode.handle_input(&key(KeyCode::Backspace), &mut state, &parameters), Modes::Change);
    mode.handle_input(&typed('1'), &mut state, &parameters);
    mode.handle_input(&typed('2'), &mut state, &parameters);
    assert_eq!(mode.handle_input(&key(KeyCode::Backspace), &mut state, &parameters), Modes::Change);
    assert_eq!(mode.input, vec!['1']);
    mode.handle_input(&typed('f'), &mut state, &parameters);
    assert_eq!(mode.input, vec!['1', 'F']);
    assert_eq!(mode.handle_input(&typed('q'), &mut state, &parameters), Modes::Bytes);
    assert!(mode.input.is_empty());
    assert_eq!(state.bytes[0], 0);
    assert!(state.bytes_changed.is_empty());
    assert_eq!(mode.handle_input(&key(KeyCode::Left), &mut state, &parameters), Modes::Change);
}

#[test]
fn change_mode_ignores_enter_where_no_byte_is_under_the_cursor() {
    let parameters = parameters(16);
    let dimensions = Dimensions::new(2, &parameters);
    let mut state = state_with(&dimensions, 20);
    let mut mode = ChangeMode::new(&parameters);
    mode.handle_input(&typed('1'), &mut state, &parameters);
    mode.handle_input(&typed('2'), &mut state, &parameters);
    state.row = 2;
    state.column = 35;
    assert_eq!(mode.handle_input(&key(KeyCode::Enter), &mut state, &parameters), Modes::Change);
    assert_eq!(mode.input, vec!['1', '2']);
    state.row = 1;
    state.column = 97;
    assert_eq!(mode.handle_input(&key(KeyCode::Enter), &mut state, &parameters), Modes::Change);
    assert!(state.bytes_changed.is_empty());
    state.row = 2;
    state.column = 30;
    assert_eq!(mode.handle_input(&key(KeyCode::Enter), &mut state, &parameters), Modes::Bytes);
    assert_eq!(state.bytes[19], 0x12);
}

#[test]
fn change_mode_leaves_mouse_and_resize_alone() {
    let parameters = parameters(16);
    let dimensions = Dimensions::new(2, &parameters);
    let mut state = state_with(&dimensions, 20);
    let mut mode = ChangeMode::new(&parameters);
    let click = mouse(MouseEventKind::Up(MouseButton::Left), 40, 4);
    assert_eq!(mode.handle_mouse(&click, &mut state, &parameters), Modes::Change);
    assert_eq!(mode.handle_resize(10, 10, &mut state, &parameters), Modes::Change);
    assert_eq!((state.row, state.column, state.term_width, state.term_height), (1, 15, 120, 30));
}

#[test]
fn goto_sets_the_viewport_for_an_offset_in_range() {
    let parameters = parameters(16);
    let dimensions = Dimensions::new(2, &parameters);
    let mut state = state_with(&dimensions, 64);
    let mut mode = GoToMode::new();
    assert_eq!(mode.input, vec!['0'; 8]);
    assert_eq!(mode.cursor, 24);
    assert_eq!(mode.handle_input(&key(KeyCode::Left), &mut state, &parameters), Modes::GoTo);
    assert_eq!(mode.cursor, 23);
    assert_eq!(mode.handle_input(&typed('1'), &mut state, &parameters), Modes::GoTo);
    assert_eq!(mode.input, "00000010".chars().collect::<Vec<char>>());
    assert_eq!(mode.cursor, 23);
    assert_eq!(mode.handle_input(&key(KeyCode::Enter), &mut state, &parameters), Modes::Bytes);
    assert_eq!(state.render_from_offset, 1);
    assert!(!mode.draw_error);
    assert_eq!((state.row, state.column), (1, 15));
}

#[test]
fn goto_flags_an_offset_out_of_range() {
    let parameters = parameters(16);
    let dimensions = Dimensions::new(2, &parameters);
    let mut state = state_with(&dimensions, 64);
    state.render_from_offset = 2;
    let mut mode = GoToMode::new();
    for _ in 0..7 {
        mode.handle_input(&key(KeyCode::Left), &mut state, &parameters);
    }
    assert_eq!(mode.cursor, 17);
    mode.handle_input(&key(KeyCode::Left), &mut state, &parameters);
    assert_eq!(mode.cursor, 17);
    mode.handle_input(&typed('f'), &mut state, &parameters);
    assert_eq!(mode.input, "F0000000".chars().collect::<Vec<char>>());
    assert_eq!(mode.handle_input(&key(KeyCode::Enter), &mut state, &parameters), Modes::GoTo);
    assert!(mode.draw_error);
    assert_eq!(state.render_from_offset, 2);
    assert_eq!(mode.handle_input(&key(KeyCode::Right), &mut state, &parameters), Modes::GoTo);
    assert!(!mode.draw_error);
    assert_eq!(mode.cursor, 18);
}

#[test]
fn goto_takes_the_last_row_and_not_the_next() {
    let parameters = parameters(16);
    let dimensions = Dimensions::new(2, &parameters);
    let mut state = state_with(&dimensions, 64);
    let mut mode = GoToMode::new();
    mode.input = "0000004F".chars().collect();
    assert_eq!(mode.handle_input(&key(KeyCode::Enter), &mut state, &parameters), Modes::Bytes);
    assert_eq!(state.render_from_offset, 4);
    mode.input = "00000050".chars().collect();
    assert_eq!(mode.handle_input(&key(KeyCode::Enter), &mut state, &parameters), Modes::GoTo);
    assert!(mode.draw_error);
    assert_eq!(state.render_from_offset, 4);
}

#[test]
fn goto_keys_that_do_not_edit() {
    let parameters = parameters(16);
    let dimensions = Dimensions::new(2, &parameters);
    let mut state = state_with(&dimensions, 64);
    let mut mode = GoToMode::new();
    assert_eq!(mode.handle_input(&key(KeyCode::Right), &mut state, &parameters), Modes::GoTo);
    assert_eq!(mode.cursor, 24);
    assert_eq!(mode.handle_input(&typed('x'), &mut state, &parameters), Modes::GoTo);
    assert_eq!(mode.handle_input(&key(KeyCode::Tab), &mut state, &parameters), Modes::GoTo);
    assert_eq!(mode.input, vec!['0'; 8]);
    assert_eq!(mode.handle_input(&typed('q'), &mut state, &parameters), Modes::Bytes);
    let click = mouse(MouseEventKind::ScrollDown, 0, 0);
    assert_eq!(mode.handle_mouse(&click, &mut state, &parameters), Modes::GoTo);
    assert_eq!(mode.handle_resize(10, 10, &mut state, &parameters), Modes::GoTo);
    assert_eq!(state.render_from_offset, 0);
}

#[test]
fn search_mode_finds_the_typed_bytes() {
    let parameters = parameters(16);
    let dimensions = Dimensions::new(2, &parameters);
    let mut state = TermState::new(2, &dimensions, 120, 30, vec![0, 0xAB, 0x0C, 0xAB, 0xAB, 0x0C], "f");
    state.found_sequences.insert(0..6);
    let mut mode = SearchMode::new();
    assert_eq!(mode.cursor, 13);
    assert_eq!(mode.handle_input(&key(KeyCode::Enter), &mut state, &parameters), Modes::Search);
    assert_eq!(state.found_sequences.len(), 1);
    for c in ['a', 'B', 'c'] {
        assert_eq!(mode.handle_input(&typed(c), &mut state, &parameters), Modes::Search);
    }
    assert_eq!(mode.input, vec!['a', 'B', 'c']);
    assert_eq!(mode.cursor, 16);
    assert_eq!(mode.handle_input(&key(KeyCode::Enter), &mut state, &parameters), Modes::Bytes);
    assert_eq!(state.found_sequences.len(), 2);
    assert!(state.found_sequences.contains(&(1..3)));
    assert!(state.found_sequences.contains(&(4..6)));
    assert!(!state.found_sequences.contains(&(0..6)));
    assert_eq!(mode.input, vec!['a', 'B', 'c']);
}

#[test]
fn search_mode_edits_its_input() {
    let parameters = parameters(16);
    let dimensions = Dimensions::new(2, &parameters);
    let mut state = state_with(&dimensions, 8);
    let mut mode = SearchMode::new();
    assert_eq!(mode.handle_input(&key(KeyCode::Backspace), &mut state, &parameters), Modes::Search);
    assert_eq!(mode.handle_input(&key(KeyCode::Left), &mut state, &parameters), Modes::Search);
    assert_eq!(mode.cursor, 13);
    for c in ['1', '2', '3', 'z'] {
        mode.handle_input(&typed(c), &mut state, &parameters);
    }
    assert_eq!(mode.input, vec!['1', '2', '3']);
    assert_eq!(mode.cursor, 16);
    mode.handle_input(&key(KeyCode::Left), &mut state, &parameters);
    assert_eq!(mode.cursor, 15);
    mode.handle_input(&key(KeyCode::Backspace), &mut state, &parameters);
    assert_eq!(mode.input, vec!['1', '3']);
    assert_eq!(mode.cursor, 14);
    mode.handle_input(&key(KeyCode::Left), &mut state, &parameters);
    assert_eq!(mode.cursor, 13);
    mode.handle_input(&key(KeyCode::Backspace), &mut state, &parameters);
    assert_eq!(mode.input, vec!['1', '3']);
    for _ in 0..4 {
        mode.handle_input(&key(KeyCode::Right), &mut state, &parameters);
    }
    assert_eq!(mode.cursor, 17);
    mode.handle_input(&key(KeyCode::Backspace), &mut state, &parameters);
    assert_eq!(mode.input, vec!['1', '3']);
    assert_eq!(mode.cursor, 17);
    assert_eq!(mode.handle_input(&typed('q'), &mut state, &parameters), Modes::Bytes);
    assert_eq!(mode.input, vec!['1', '3']);
    let click = mouse(MouseEventKind::ScrollDown, 0, 0);
    assert_eq!(mode.handle_mouse(&click, &mut state, &parameters), Modes::Search);
    assert_eq!(mode.handle_resize(10, 10, &mut state, &parameters), Modes::Search);
}

#[test]
fn help_mode_ends_with_any_key() {
    let parameters = parameters(16);
    let dimensions = Dimensions::new(2, &parameters);
    let keyboard = table(default_config());
    let mut state = state_with(&dimensions, 8);
    let mut mode = HelpMode::new(2, &keyboard);
    assert_eq!(mode.handle_input(&typed('x'), &mut state, &parameters), Modes::Bytes);
    assert_eq!(mode.handle_input(&key(KeyCode::Enter), &mut state, &parameters), Modes::Bytes);
    let click = mouse(MouseEventKind::Up(MouseButton::Left), 3, 3);
    assert_eq!(mode.handle_mouse(&click, &mut state, &parameters), Modes::Help);
    assert_eq!(mode.handle_resize(10, 10, &mut state, &parameters), Modes::Help);
    assert_eq!((state.row, state.column), (1, 15));
}

#[test]
fn bytes_mode_goes_through_the_bindings() {
    let parameters = parameters(16);
    let dimensions = Dimensions::new(2, &parameters);
    let keyboard = table(default_config());
    let mut state = state_with(&dimensions, 64);
    let mut mode = BytesMode::new(&keyboard, &parameters, 64);
    assert_eq!(mode.offsets, 4);
    assert_eq!(mode.minimal_width, 101);
    assert_eq!(mode.handle_input(&key(KeyCode::Right), &mut state, &parameters), Modes::Bytes);
    assert_eq!(state.column, 20);
    assert_eq!(mode.handle_input(&typed('x'), &mut state, &parameters), Modes::Bytes);
    assert_eq!(state.column, 20);
    assert_eq!(mode.handle_input(&key(KeyCode::F(3)), &mut state, &parameters), Modes::Bytes);
    assert!(state.bytes_removed.contains(&1));
    assert_eq!(mode.handle_input(&key(KeyCode::F(2)), &mut state, &parameters), Modes::Change);
    assert_eq!(mode.handle_input(&typed('h'), &mut state, &parameters), Modes::Help);
    assert_eq!(mode.handle_input(&typed('q'), &mut state, &parameters), Modes::Quit);
    assert!(!mode.save_requested);
    assert_eq!(mode.handle_input(&key(KeyCode::F(5)), &mut state, &parameters), Modes::Bytes);
    assert!(mode.save_requested);
    assert!(state.bytes_removed.contains(&1));
    assert!(mode.take_save_request());
    assert!(!mode.take_save_request());
}

#[test]
fn bytes_mode_mouse_scrolls_and_places_the_cursor() {
    let parameters = parameters(16);
    let dimensions = Dimensions::new(2, &parameters);
    let keyboard = table(default_config());
    let mut state = state_with(&dimensions, 64);
    let mut mode = BytesMode::new(&keyboard, &parameters, 64);
    let up = mouse(MouseEventKind::ScrollUp, 0, 0);
    let down = mouse(MouseEventKind::ScrollDown, 0, 0);
    assert_eq!(mode.handle_mouse(&up, &mut state, &parameters), Modes::Bytes);
    assert_eq!(state.render_from_offset, 0);
    mode.handle_mouse(&down, &mut state, &parameters);
    mode.handle_mouse(&down, &mut state, &parameters);
    assert_eq!(state.render_from_offset, 2);
    mode.handle_mouse(&up, &mut state, &parameters);
    assert_eq!(state.render_from_offset, 1);
    mode.handle_mouse(&mouse(MouseEventKind::Up(MouseButton::Left), 40, 7), &mut state, &parameters);
    assert_eq!((state.column, state.row), (40, 7));
    mode.handle_mouse(&mouse(MouseEventKind::Up(MouseButton::Left), 33, 0), &mut state, &parameters);
    assert_eq!((state.column, state.row), (33, 1));
    mode.handle_mouse(&mouse(MouseEventKind::Up(MouseButton::Left), 500, 90), &mut state, &parameters);
    assert_eq!((state.column, state.row), (120, 30));
    mode.handle_mouse(&mouse(MouseEventKind::Up(MouseButton::Right), 1, 1), &mut state, &parameters);
    mode.handle_mouse(&mouse(MouseEventKind::Down(MouseButton::Left), 1, 1), &mut state, &parameters);
    mode.handle_mouse(&mouse(MouseEventKind::Moved, 1, 1), &mut state, &parameters);
    mode.handle_mouse(&mouse(MouseEventKind::Drag(MouseButton::Middle), 1, 1), &mut state, &parameters);
    assert_eq!((state.column, state.row), (120, 30));
}

#[test]
fn bytes_mode_resize_decides_what_to_draw() {
    let parameters = parameters(16);
    let dimensions = Dimensions::new(2, &parameters);
    let keyboard = table(default_config());
    let mut state = state_with(&dimensions, 64);
    state.row = 25;
    state.column = 110;
    let mut mode = BytesMode::new(&keyboard, &parameters, 64);
    assert_eq!(mode.handle_resize(100, 10, &mut state, &parameters), Modes::Bytes);
    assert_eq!(mode.to_draw, BytesScreens::TooSmall);
    assert!(mode.skip_rendering());
    assert_eq!((state.term_width, state.term_height), (120, 30));
    assert_eq!((state.column, state.row), (110, 25));
    assert_eq!(mode.handle_resize(101, 20, &mut state, &parameters), Modes::Bytes);
    assert_eq!(mode.to_draw, BytesScreens::Bytes);
    assert!(!mode.skip_rendering());
    assert_eq!((state.term_width, state.term_height), (101, 20));
    assert_eq!((state.column, state.row), (101, 20));
}

#[test]
fn cursor_is_kept_on_the_screen() {
    let parameters = parameters(16);
    let dimensions = Dimensions::new(2, &parameters);
    let mut state = state_with(&dimensions, 64);
    state.row = 0;
    state.column = 121;
    keep_cursor_on_screen(&mut state);
    assert_eq!((state.column, state.row), (120, 1));
    state.term_height = 0;
    state.row = 9;
    keep_cursor_on_screen(&mut state);
    assert_eq!(state.row, 1);
}

#[test]
fn editor_routes_events_to_the_active_mode() {
    let parameters = parameters(16);
    let dimensions = Dimensions::new(2, &parameters);
    let keyboard = table("f2 edit\ng goto\ns search\nh help\nq quit\nright go_right\nf5 save\n");
    let mut state = state_with(&dimensions, 64);
    let mut editor = Editor::new(&keyboard, &parameters, 2, 64);
    assert_eq!(editor.active, Modes::Bytes);
    assert_eq!(editor.handle_event(&Event::Key(key(KeyCode::Right)), &mut state, &parameters), Directive::Render);
    assert_eq!(state.column, 20);
    assert_eq!(editor.handle_event(&Event::Key(key(KeyCode::F(2))), &mut state, &parameters), Directive::Render);
    assert_eq!(editor.active, Modes::Change);
    for c in ['4', '2'] {
        assert_eq!(editor.handle_event(&Event::Key(typed(c)), &mut state, &parameters), Directive::Render);
    }
    assert_eq!(editor.handle_event(&Event::Resize(10, 10), &mut state, &parameters), Directive::Render);
    assert_eq!(state.term_width, 120);
    assert_eq!(editor.handle_event(&Event::Key(key(KeyCode::Enter)), &mut state, &parameters), Directive::Render);
    assert_eq!(editor.active, Modes::Bytes);
    assert_eq!(state.bytes[1], 0x42);
    assert_eq!(editor.handle_event(&Event::Key(typed('g')), &mut state, &parameters), Directive::Render);
    assert_eq!(editor.active, Modes::GoTo);
    editor.handle_event(&Event::Key(typed('f')), &mut state, &parameters);
    assert_eq!(editor.handle_event(&Event::Key(key(KeyCode::Enter)), &mut state, &parameters), Directive::Render);
    assert_eq!(editor.active, Modes::Bytes);
    assert_eq!(state.render_from_offset, 0);
    editor.handle_event(&Event::Key(typed('s')), &mut state, &parameters);
    assert_eq!(editor.active, Modes::Search);
    editor.handle_event(&Event::Key(typed('4')), &mut state, &parameters);
    editor.handle_event(&Event::Key(typed('2')), &mut state, &parameters);
    editor.handle_event(&Event::Key(key(KeyCode::Enter)), &mut state, &parameters);
    assert_eq!(editor.active, Modes::Bytes);
    assert!(state.found_sequences.contains(&(1..2)));
    assert_eq!(state.found_sequences.len(), 1);
    editor.handle_event(&Event::Key(typed('h')), &mut state, &parameters);
    assert_eq!(editor.active, Modes::Help);
    let click = Event::Mouse(mouse(MouseEventKind::Up(MouseButton::Left), 3, 3));
    assert_eq!(editor.handle_event(&click, &mut state, &parameters), Directive::Render);
    assert_eq!(editor.active, Modes::Help);
    assert_eq!(state.column, 20);
    editor.handle_event(&Event::Key(typed('z')), &mut state, &parameters);
    assert_eq!(editor.active, Modes::Bytes);
    assert_eq!(editor.handle_event(&click, &mut state, &parameters), Directive::Render);
    assert_eq!((state.column, state.row), (3, 3));
}

#[test]
fn editor_asks_the_host_to_save() {
    let parameters = parameters(16);
    let dimensions = Dimensions::new(2, &parameters);
    let keyboard = table("f5 save\n");
    let mut state = state_with(&dimensions, 64);
    state.bytes_removed.insert(0);
    let mut editor = Editor::new(&keyboard, &parameters, 2, 64);
    assert_eq!(editor.handle_event(&Event::Key(key(KeyCode::F(5))), &mut state, &parameters), Directive::Save);
    assert_eq!(editor.active, Modes::Bytes);
    assert!(!editor.bytes.save_requested);
    assert_eq!(state.bytes.len(), 64);
    assert!(state.bytes_removed.contains(&0));
    assert_eq!(editor.handle_event(&Event::Key(typed('x')), &mut state, &parameters), Directive::Render);
}

#[test]
fn editor_skips_drawing_while_the_terminal_is_too_narrow() {
    let parameters = parameters(16);
    let dimensions = Dimensions::new(2, &parameters);
    let keyboard = table("right go_right\ns search\n");
    let mut state = state_with(&dimensions, 64);
    let mut editor = Editor::new(&keyboard, &parameters, 2, 64);
    assert_eq!(editor.handle_event(&Event::Resize(50, 20), &mut state, &parameters), Directive::Render);
    assert_eq!(editor.bytes.to_draw, BytesScreens::TooSmall);
    assert_eq!(editor.handle_event(&Event::Key(key(KeyCode::Right)), &mut state, &parameters), Directive::Skip);
    assert_eq!(state.column, 20);
    let wheel = Event::Mouse(mouse(MouseEventKind::ScrollDown, 0, 0));
    assert_eq!(editor.handle_event(&wheel, &mut state, &parameters), Directive::Skip);
    assert_eq!(editor.handle_event(&Event::Key(typed('s')), &mut state, &parameters), Directive::Render);
    assert_eq!(editor.active, Modes::Search);
    assert_eq!(editor.handle_event(&Event::Key(typed('q')), &mut state, &parameters), Directive::Skip);
    assert_eq!(editor.handle_event(&Event::Resize(150, 40), &mut state, &parameters), Directive::Render);
    assert_eq!(editor.handle_event(&Event::Key(key(KeyCode::Right)), &mut state, &parameters), Directive::Render);
}

#[test]
fn editor_stays_ended_after_quit() {
    let parameters = parameters(16);
    let dimensions = Dimensions::new(2, &parameters);
    let keyboard = table("q quit\nright go_right\n");
    let mut state = state_with(&dimensions, 64);
    let mut editor = Editor::new(&keyboard, &parameters, 2, 64);
    assert_eq!(editor.handle_event(&Event::Key(typed('q')), &mut state, &parameters), Directive::Quit);
    assert_eq!(editor.active, Modes::Quit);
    assert_eq!(editor.handle_event(&Event::Key(key(KeyCode::Right)), &mut state, &parameters), Directive::Quit);
    assert_eq!(editor.handle_event(&Event::Resize(1, 1), &mut state, &parameters), Directive::Quit);
    assert_eq!(state.column, 15);
    assert_eq!(state.term_width, 120);
}

fn press<M: Mode>(mode: &mut M, code: KeyCode, state: &mut TermState, parameters: &Parameters) -> Modes {
    Mode::handle_input(mode, &key(code), state, parameters)
}

fn shown<M: Mode>(mode: &M, state: &TermState) -> Vec<DrawCommand> {
    Mode::draw(mode, state)
}

#[test]
fn modes_share_one_interface() {
    let parameters = parameters(16);
    let dimensions = Dimensions::new(2, &parameters);
    let keyboard = table("q quit\n");
    let mut state = state_with(&dimensions, 64);
    let mut bytes = BytesMode::new(&keyboard, &parameters, 64);
    let mut help = HelpMode::new(2, &keyboard);
    let mut change = ChangeMode::new(&parameters);
    let mut goto = GoToMode::new();
    let mut search = SearchMode::new();
    assert_eq!(press(&mut bytes, KeyCode::Char('q'), &mut state, &parameters), Modes::Quit);
    assert_eq!(press(&mut help, KeyCode::Char('x'), &mut state, &parameters), Modes::Bytes);
    assert_eq!(press(&mut change, KeyCode::Char('x'), &mut state, &parameters), Modes::Change);
    assert_eq!(press(&mut goto, KeyCode::Char('x'), &mut state, &parameters), Modes::GoTo);
    assert_eq!(press(&mut search, KeyCode::Char('5'), &mut state, &parameters), Modes::Search);
    assert_eq!(search.input, vec!['5']);
    assert_eq!(shown(&bytes, &state), bytes.draw(&state));
    assert_eq!(shown(&help, &state), help.draw(&state));
    assert_eq!(shown(&change, &state), change.draw(&state));
    assert_eq!(shown(&goto, &state), goto.draw(&state));
    assert_eq!(shown(&search, &state), search.draw(&state));
    let click = mouse(MouseEventKind::Up(MouseButton::Left), 40, 7);
    assert_eq!(Mode::handle_mouse(&mut search, &click, &mut state, &parameters), Modes::Search);
    assert_eq!(Mode::handle_mouse(&mut bytes, &click, &mut state, &parameters), Modes::Bytes);
    assert_eq!((state.column, state.row), (40, 7));
    assert_eq!(Mode::handle_resize(&mut goto, 10, 10, &mut state, &parameters), Modes::GoTo);
    assert_eq!(Mode::handle_resize(&mut bytes, 200, 50, &mut state, &parameters), Modes::Bytes);
    assert_eq!((state.term_width, state.term_height), (200, 50));
}
