use hex_rs::actions::{next_found, prev_found};
use hex_rs::geometry::Dimensions;
use hex_rs::hex::{hex_value, is_ascii_hexdigit, parse_hex, parse_hex_pattern, to_ascii_lowercase, to_ascii_uppercase};
use hex_rs::modes::Modes;
use hex_rs::pattern::{get_index_of_closest_found, naive_search, nearer, MatchSet};
use hex_rs::state::{Direction, Parameters, TermState};

fn parameters(byte_size: u16) -> Parameters {
    Parameters { file_path: String::from("file.bin"), byte_size }
}

fn sorted(set: &MatchSet) -> Vec<(usize, usize)> {
    let mut ranges: Vec<(usize, usize)> = set.to_vec().iter().map(|r| (r.start, r.end)).collect();
    ranges.sort();
    ranges
}

#[test]
fn find_all_includes_overlapping_matches() {
    let found = naive_search(&vec![0xAB], &vec![0x00, 0xAB, 0xAB, 0x01]);
    assert_eq!(found.len(), 2);
    assert!(found.contains(&(1..2)));
    assert!(found.contains(&(2..3)));
    assert_eq!(sorted(&found), vec![(1, 2), (2, 3)]);
}

#[test]
fn find_all_of_a_longer_pattern_overlaps() {
    let found = naive_search(&vec![7, 7], &vec![7, 7, 7, 7]);
    assert_eq!(sorted(&found), vec![(0, 2), (1, 3), (2, 4)]);
}

#[test]
fn find_all_restarts_after_a_partial_match() {
    let found = naive_search(&vec![1, 2], &vec![1, 1, 2, 1, 2, 1]);
    assert_eq!(sorted(&found), vec![(1, 3), (3, 5)]);
}

#[test]
fn find_all_finds_a_match_at_the_end() {
    let found = naive_search(&vec![8, 9], &vec![0, 8, 9]);
    assert_eq!(sorted(&found), vec![(1, 3)]);
    let whole = naive_search(&vec![8, 9], &vec![8, 9]);
    assert_eq!(sorted(&whole), vec![(0, 2)]);
}

#[test]
fn find_all_finds_nothing() {
    assert_eq!(naive_search(&vec![5], &vec![1, 2, 3]).len(), 0);
    assert_eq!(naive_search(&vec![1, 2, 3, 4], &vec![1, 2, 3]).len(), 0);
    assert_eq!(naive_search(&vec![1], &vec![]).len(), 0);
}

#[test]
fn match_set_holds_each_range_once() {
    let mut set = MatchSet::new();
    assert_eq!(set.len(), 0);
    assert!(set.insert(1..2));
    assert!(!set.insert(1..2));
    assert!(set.insert(1..3));
    assert_eq!(set.len(), 2);
    assert!(set.contains(&(1..2)));
    assert!(!set.contains(&(2..3)));
    assert!(set.covers(2));
    assert!(!set.covers(3));
    assert!(!set.covers(0));
    set.clear();
    assert_eq!(set.len(), 0);
    assert!(!set.covers(1));
}

#[test]
fn nearest_match_to_the_right_and_left() {
    let parameters = parameters(16);
    let dimensions = Dimensions::new(2, &parameters);
    let mut state = TermState::new(2, &dimensions, 120, 30, vec![0; 64], "file.bin");
    state.found_sequences.insert(1..2);
    state.found_sequences.insert(5..6);
    assert_eq!(get_index_of_closest_found(0, &state, Direction::Right), Some(1));
    assert_eq!(get_index_of_closest_found(0, &state, Direction::Left), None);
    assert_eq!(get_index_of_closest_found(1, &state, Direction::Right), Some(5));
    assert_eq!(get_index_of_closest_found(5, &state, Direction::Right), None);
    assert_eq!(get_index_of_closest_found(5, &state, Direction::Left), Some(1));
    assert_eq!(get_index_of_closest_found(3, &state, Direction::Left), Some(1));
    assert_eq!(get_index_of_closest_found(9, &state, Direction::Left), Some(5));
}

#[test]
fn nearest_start_ignores_where_a_range_ends() {
    let mut set = MatchSet::new();
    set.insert(2..40);
    set.insert(10..12);
    assert_eq!(set.nearest_start(11, Direction::Left), Some(10));
    assert_eq!(set.nearest_start(11, Direction::Right), None);
    assert_eq!(set.nearest_start(2, Direction::Right), Some(10));
}

#[test]
fn nearer_keeps_the_closer_candidate() {
    assert_eq!(nearer(None, 4, 10, Direction::Left), Some(4));
    assert_eq!(nearer(Some(4), 7, 10, Direction::Left), Some(7));
    assert_eq!(nearer(Some(7), 4, 10, Direction::Left), Some(7));
    assert_eq!(nearer(Some(7), 10, 10, Direction::Left), Some(7));
    assert_eq!(nearer(Some(7), 12, 10, Direction::Left), Some(7));
    assert_eq!(nearer(None, 12, 10, Direction::Left), None);
    assert_eq!(nearer(None, 12, 10, Direction::Right), Some(12));
    assert_eq!(nearer(Some(12), 11, 10, Direction::Right), Some(11));
    assert_eq!(nearer(Some(11), 12, 10, Direction::Right), Some(11));
}

#[test]
fn next_and_prev_found_move_the_cursor() {
    let parameters = parameters(16);
    let dimensions = Dimensions::new(2, &parameters);
    let mut state = TermState::new(2, &dimensions, 120, 30, vec![0; 4096], "file.bin");
    state.found_sequences = naive_search(&vec![1], &{
        let mut text = vec![0u8; 4096];
        text[18] = 1;
        text[1000] = 1;
        text
    });
    assert_eq!(next_found(&mut state, &parameters), Modes::Bytes);
    assert_eq!((state.row, state.column, state.render_from_offset), (2, 25, 0));
    assert_eq!(next_found(&mut state, &parameters), Modes::Bytes);
    assert_eq!((state.row, state.column, state.render_from_offset), (1, 55, 62));
    assert_eq!(next_found(&mut state, &parameters), Modes::Bytes);
    assert_eq!((state.row, state.column, state.render_from_offset), (1, 55, 62));
    assert_eq!(prev_found(&mut state, &parameters), Modes::Bytes);
    assert_eq!((state.row, state.column, state.render_from_offset), (1, 25, 1));
}

#[test]
fn hex_digits_are_recognised_and_valued() {
    for (c, v) in [('0', 0u8), ('9', 9), ('a', 10), ('f', 15), ('A', 10), ('F', 15)] {
        assert!(is_ascii_hexdigit(c));
        assert_eq!(hex_value(c), v);
    }
    for c in ['g', 'G', ' ', 'q', '/', ':', '@', '`', 'é'] {
        assert!(!is_ascii_hexdigit(c));
    }
}

#[test]
fn ascii_case_conversion() {
    assert_eq!(to_ascii_uppercase('a'), 'A');
    assert_eq!(to_ascii_uppercase('z'), 'Z');
    assert_eq!(to_ascii_uppercase('A'), 'A');
    assert_eq!(to_ascii_uppercase('5'), '5');
    assert_eq!(to_ascii_uppercase('é'), 'é');
    assert_eq!(to_ascii_lowercase('Q'), 'q');
    assert_eq!(to_ascii_lowercase('q'), 'q');
    assert_eq!(to_ascii_lowercase('+'), '+');
}

#[test]
fn parse_hex_reads_most_significant_digit_first() {
    assert_eq!(parse_hex(&vec![]), 0);
    assert_eq!(parse_hex(&vec!['7']), 7);
    assert_eq!(parse_hex(&vec!['A', 'b']), 0xAB);
    assert_eq!(parse_hex(&"00000010".chars().collect()), 0x10);
    assert_eq!(parse_hex(&"FFFFFFFF".chars().collect()), 0xFFFF_FFFF);
    assert_eq!(parse_hex(&"12345678".chars().collect()), 0x1234_5678);
}

#[test]
fn parse_hex_pattern_pairs_digits() {
    assert_eq!(parse_hex_pattern(&"AB".chars().collect()), vec![0xAB]);
    assert_eq!(parse_hex_pattern(&"abCD01".chars().collect()), vec![0xAB, 0xCD, 0x01]);
    assert_eq!(parse_hex_pattern(&"ABC".chars().collect()), vec![0xAB, 0x0C]);
    assert_eq!(parse_hex_pattern(&"F".chars().collect()), vec![0x0F]);
    assert_eq!(parse_hex_pattern(&vec![]), Vec::<u8>::new());
}
