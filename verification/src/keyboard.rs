//! Key bindings: the operations that a key can be bound to, the text form
//! of a configuration, and the table that a configuration builds.

use vstd::prelude::*;
use std::collections::HashMap;
use crate::event::{KeyCode, KeyEvent, Modifiers};
use crate::hex::{ascii_lower, to_ascii_lowercase};
use crate::text::{copy_range, decimal_value, is_decimal_digit, to_chars};

verus! {

broadcast use vstd::std_specs::hash::group_hash_axioms;

/// What a key can be bound to.
#[derive(Clone, Copy, Debug, PartialEq, Eq, Structural)]
pub enum Operation {
    GoLeft,
    GoRight,
    GoUp,
    GoDown,
    ScrollUp,
    ScrollDown,
    Quit,
    Remove,
    Edit,
    Save,
    Help,
    GeneralStatus,
    KeysStatus,
    Search,
    GoTo,
    NextChange,
    PrevChange,
    NextFound,
    PrevFound,
    GoToStart,
    GoToEnd,
}

/// What is wrong with a line of a configuration.
#[derive(Clone, Copy, Debug, PartialEq, Eq, Structural)]
pub enum ConfigErrorKind {
    /// The line holds nothing but white space.
    BlankLine,
    /// The first word of the line names no key.
    UnknownKey,
    /// The last word of the line names no operation.
    UnknownOperation,
}

/// The first line of a configuration that cannot be read, counted from 1,
/// and what is wrong with it.
#[derive(Clone, Copy, Debug, PartialEq, Eq, Structural)]
pub struct ConfigError {
    pub line: usize,
    pub kind: ConfigErrorKind,
}

/// Whether `c` is white space: a character with the Unicode property
/// `White_Space`.
pub open spec fn is_whitespace(c: char) -> bool {
    let n = c as u32;
    ||| 0x09 <= n <= 0x0D
    ||| n == 0x20
    ||| n == 0x85
    ||| n == 0xA0
    ||| n == 0x1680
    ||| 0x2000 <= n <= 0x200A
    ||| n == 0x2028
    ||| n == 0x2029
    ||| n == 0x202F
    ||| n == 0x205F
    ||| n == 0x3000
}

/// `s` with every upper-case ASCII letter replaced by its lower-case form.
pub open spec fn lowered(s: Seq<char>) -> Seq<char> {
    s.map_values(|c: char| ascii_lower(c))
}

/// The key that a name of more than one character means: `f` and a number
/// from 1 to 12 is a function key; the other keys have fixed names. The
/// name is in lower case.
pub open spec fn named_key(s: Seq<char>) -> Option<KeyCode> {
    if s.len() >= 2 && s[0] == 'f' {
        let digits = s.skip(1);
        if (forall|i: int| 0 <= i < digits.len() ==> is_decimal_digit(#[trigger] digits[i])) && 1
            <= decimal_value(digits) <= 12 {
            Some(KeyCode::F(decimal_value(digits) as u8))
        } else {
            None
        }
    } else if s == "left"@ {
        Some(KeyCode::Left)
    } else if s == "right"@ {
        Some(KeyCode::Right)
    } else if s == "up"@ {
        Some(KeyCode::Up)
    } else if s == "down"@ {
        Some(KeyCode::Down)
    } else if s == "pg_up"@ {
        Some(KeyCode::PageUp)
    } else if s == "pg_down"@ {
        Some(KeyCode::PageDown)
    } else if s == "enter"@ {
        Some(KeyCode::Enter)
    } else if s == "end"@ {
        Some(KeyCode::End)
    } else if s == "home"@ {
        Some(KeyCode::Home)
    } else if s == "insert"@ {
        Some(KeyCode::Insert)
    } else if s == "backtab"@ {
        Some(KeyCode::BackTab)
    } else if s == "backspace"@ {
        Some(KeyCode::Backspace)
    } else if s == "delete"@ {
        Some(KeyCode::Delete)
    } else if s == "esc"@ {
        Some(KeyCode::Esc)
    } else if s == "escape"@ {
        Some(KeyCode::Esc)
    } else if s == "tab"@ {
        Some(KeyCode::Tab)
    } else {
        None
    }
}

/// The key that a name in lower case means: a single character is the key
/// that types it; a longer name is read by [`named_key`].
pub open spec fn plain_key(s: Seq<char>) -> Option<KeyCode> {
    if s.len() == 1 {
        Some(KeyCode::Char(s[0]))
    } else {
        named_key(s)
    }
}

/// The modifier that a chord of more than one character starts with, and
/// the number of characters that name it, `+` included.
pub open spec fn chord_prefix(s: Seq<char>) -> Option<(Modifiers, int)> {
    if s.len() > 5 && s.take(5) == "ctrl+"@ {
        Some((Modifiers { ctrl: true, shift: false, alt: false }, 5))
    } else if s.len() > 6 && s.take(6) == "shift+"@ {
        Some((Modifiers { ctrl: false, shift: true, alt: false }, 6))
    } else if s.len() > 4 && s.take(4) == "alt+"@ {
        Some((Modifiers { ctrl: false, shift: false, alt: true }, 4))
    } else {
        None
    }
}

/// The chord that a word of a configuration means, if any. Case does not
/// count. A single character is the key that types it; a longer word is a
/// key name, or one of `ctrl+`, `shift+`, `alt+` and then a single
/// character or a key name.
pub open spec fn chord_of(word: Seq<char>) -> Option<KeyEvent> {
    let s = lowered(word);
    if s.len() == 1 {
        Some(KeyEvent { code: KeyCode::Char(s[0]), modifiers: Modifiers::spec_none() })
    } else {
        match chord_prefix(s) {
            Some((modifiers, n)) => match plain_key(s.skip(n)) {
                Some(code) => Some(KeyEvent { code, modifiers }),
                None => None,
            },
            None => match named_key(s) {
                Some(code) => Some(KeyEvent { code, modifiers: Modifiers::spec_none() }),
                None => None,
            },
        }
    }
}

/// The operation that a word of a configuration names, if any.
pub open spec fn operation_of(word: Seq<char>) -> Option<Operation> {
    if word == "go_left"@ {
        Some(Operation::GoLeft)
    } else if word == "go_right"@ {
        Some(Operation::GoRight)
    } else if word == "go_down"@ {
        Some(Operation::GoDown)
    } else if word == "go_up"@ {
        Some(Operation::GoUp)
    } else if word == "scroll_down"@ {
        Some(Operation::ScrollDown)
    } else if word == "scroll_up"@ {
        Some(Operation::ScrollUp)
    } else if word == "quit"@ {
        Some(Operation::Quit)
    } else if word == "exit"@ {
        Some(Operation::Quit)
    } else if word == "delete"@ {
        Some(Operation::Remove)
    } else if word == "remove"@ {
        Some(Operation::Remove)
    } else if word == "edit"@ {
        Some(Operation::Edit)
    } else if word == "save"@ {
        Some(Operation::Save)
    } else if word == "help"@ {
        Some(Operation::Help)
    } else if word == "general_status"@ {
        Some(Operation::GeneralStatus)
    } else if word == "keys_status"@ {
        Some(Operation::KeysStatus)
    } else if word == "search"@ {
        Some(Operation::Search)
    } else if word == "goto"@ {
        Some(Operation::GoTo)
    } else if word == "next_change"@ {
        Some(Operation::NextChange)
    } else if word == "prev_change"@ {
        Some(Operation::PrevChange)
    } else if word == "next_found"@ {
        Some(Operation::NextFound)
    } else if word == "prev_found"@ {
        Some(Operation::PrevFound)
    } else if word == "go_to_start"@ {
        Some(Operation::GoToStart)
    } else if word == "go_to_end"@ {
        Some(Operation::GoToEnd)
    } else {
        None
    }
}

/// What the legend says of an operation.
pub open spec fn description_of(operation: Operation) -> Seq<char> {
    match operation {
        Operation::GoLeft => "moves cursor to the previous element"@,
        Operation::GoRight => "moves cursor to the next element"@,
        Operation::GoDown => "moves cursor down an offset"@,
        Operation::GoUp => "moves cursor up an offset"@,
        Operation::ScrollDown => "next offset"@,
        Operation::ScrollUp => "previous offset"@,
        Operation::Quit => "quit"@,
        Operation::Remove => "remove byte"@,
        Operation::Edit => "change byte"@,
        Operation::Save => "save changes"@,
        Operation::Help => "print help"@,
        Operation::GeneralStatus => "changes status bar to its general state"@,
        Operation::KeysStatus => "changes status bar to show key bindings"@,
        Operation::Search => "searches for bytes"@,
        Operation::GoTo => "goes to an offset"@,
        Operation::NextChange => "moves cursor to the next change"@,
        Operation::PrevChange => "moves cursor to the previous change"@,
        Operation::NextFound => "moves cursor to the next match"@,
        Operation::PrevFound => "moves cursor to the previous match"@,
        Operation::GoToStart => "moves cursor to the first byte"@,
        Operation::GoToEnd => "moves cursor to the last byte"@,
    }
}

impl Operation {
    /// What the legend says of the operation.
    pub fn description(&self) -> (text: &'static str)
        ensures
            text@ == description_of(*self),
    {
        match self {
            Operation::GoLeft => "moves cursor to the previous element",
            Operation::GoRight => "moves cursor to the next element",
            Operation::GoDown => "moves cursor down an offset",
            Operation::GoUp => "moves cursor up an offset",
            Operation::ScrollDown => "next offset",
            Operation::ScrollUp => "previous offset",
            Operation::Quit => "quit",
            Operation::Remove => "remove byte",
            Operation::Edit => "change byte",
            Operation::Save => "save changes",
            Operation::Help => "print help",
            Operation::GeneralStatus => "changes status bar to its general state",
            Operation::KeysStatus => "changes status bar to show key bindings",
            Operation::Search => "searches for bytes",
            Operation::GoTo => "goes to an offset",
            Operation::NextChange => "moves cursor to the next change",
            Operation::PrevChange => "moves cursor to the previous change",
            Operation::NextFound => "moves cursor to the next match",
            Operation::PrevFound => "moves cursor to the previous match",
            Operation::GoToStart => "moves cursor to the first byte",
            Operation::GoToEnd => "moves cursor to the last byte",
        }
    }
}

/// Tests whether `c` is white space.
pub fn is_space(c: char) -> (r: bool)
    ensures
        r == is_whitespace(c),
{
    let n: u32 = c as u32;
    (0x09 <= n && n <= 0x0D) || n == 0x20 || n == 0x85 || n == 0xA0 || n == 0x1680 || (0x2000 <= n
        && n <= 0x200A) || n == 0x2028 || n == 0x2029 || n == 0x202F || n == 0x205F || n == 0x3000
}

/// Whether the characters of `word` are those of `text`.
pub fn word_is(word: &Vec<char>, text: &str) -> (same: bool)
    ensures
        same == (word@ == text@),
{
    let n = text.unicode_len();
    if word.len() != n {
        return false;
    }
    let mut i: usize = 0;
    while i < n
        invariant
            i <= n,
            n == word@.len(),
            n == text@.len(),
            forall|k: int| 0 <= k < i ==> word@[k] == text@[k],
        decreases n - i,
    {
        if word[i] != text.get_char(i) {
            return false;
        }
        i += 1;
    }
    assert(word@ =~= text@);
    true
}

/// Whether `word` is longer than `prefix` and starts with it.
pub fn has_prefix(word: &Vec<char>, prefix: &str) -> (r: bool)
    ensures
        r == (word@.len() > prefix@.len() && word@.take(prefix@.len() as int) == prefix@),
{
    let n = prefix.unicode_len();
    if word.len() <= n {
        return false;
    }
    let mut i: usize = 0;
    while i < n
        invariant
            i <= n,
            n < word@.len(),
            n == prefix@.len(),
            forall|k: int| 0 <= k < i ==> word@[k] == prefix@[k],
        decreases n - i,
    {
        if word[i] != prefix.get_char(i) {
            assert(word@.take(n as int)[i as int] != prefix@[i as int]);
            return false;
        }
        i += 1;
    }
    assert(word@.take(n as int) =~= prefix@);
    true
}

/// Reads a key name of more than one character, in lower case.
pub fn match_named_key(name: &Vec<char>) -> (code: Option<KeyCode>)
    ensures
        code == named_key(name@),
{
    if name.len() >= 2 && name[0] == 'f' {
        let ghost digits = name@.skip(1);
        let mut number: u8 = 0;
        let mut i: usize = 1;
        while i < name.len()
            invariant
                1 <= i <= name.len(),
                name@.len() >= 2 && name@[0] == 'f',
                digits == name@.skip(1),
                forall|k: int| 0 <= k < i - 1 ==> is_decimal_digit(#[trigger] digits[k]),
                number <= 13,
                number == (if decimal_value(digits.take(i - 1)) < 13 {
                    decimal_value(digits.take(i - 1))
                } else {
                    13
                }),
            decreases name.len() - i,
        {
            let c = name[i];
            if !('0' <= c && c <= '9') {
                assert(digits[i - 1] == c && !is_decimal_digit(digits[i - 1]));
                return None;
            }
            proof {
                assert(digits.take(i as int).drop_last() =~= digits.take(i - 1));
                assert(digits.take(i as int).last() == c);
            }
            let digit: u8 = ((c as u32) - 0x30) as u8;
            number = if number >= 13 || number * 10 + digit >= 13 {
                13
            } else {
                number * 10 + digit
            };
            i += 1;
        }
        proof {
            assert(digits.take(i - 1) =~= digits);
        }
        if 1 <= number && number <= 12 {
            return Some(KeyCode::F(number));
        }
        return None;
    }
    if word_is(name, "left") {
        Some(KeyCode::Left)
    } else if word_is(name, "right") {
        Some(KeyCode::Right)
    } else if word_is(name, "up") {
        Some(KeyCode::Up)
    } else if word_is(name, "down") {
        Some(KeyCode::Down)
    } else if word_is(name, "pg_up") {
        Some(KeyCode::PageUp)
    } else if word_is(name, "pg_down") {
        Some(KeyCode::PageDown)
    } else if word_is(name, "enter") {
        Some(KeyCode::Enter)
    } else if word_is(name, "end") {
        Some(KeyCode::End)
    } else if word_is(name, "home") {
        Some(KeyCode::Home)
    } else if word_is(name, "insert") {
        Some(KeyCode::Insert)
    } else if word_is(name, "backtab") {
        Some(KeyCode::BackTab)
    } else if word_is(name, "backspace") {
        Some(KeyCode::Backspace)
    } else if word_is(name, "delete") {
        Some(KeyCode::Delete)
    } else if word_is(name, "esc") {
        Some(KeyCode::Esc)
    } else if word_is(name, "escape") {
        Some(KeyCode::Esc)
    } else if word_is(name, "tab") {
        Some(KeyCode::Tab)
    } else {
        None
    }
}

/// Reads a key name in lower case.
pub fn match_plain_key(name: &Vec<char>) -> (code: Option<KeyCode>)
    ensures
        code == plain_key(name@),
{
    if name.len() == 1 {
        Some(KeyCode::Char(name[0]))
    } else {
        match_named_key(name)
    }
}

/// Reads a chord: a key, or a modifier, `+` and a key.
pub fn match_key(key: &str) -> (chord: Option<KeyEvent>)
    ensures
        chord == chord_of(key@),
{
    let word = to_chars(key);
    let mut uniform_key: Vec<char> = Vec::new();
    let mut i: usize = 0;
    while i < word.len()
        invariant
            i <= word.len(),
            uniform_key@ == lowered(word@.take(i as int)),
        decreases word.len() - i,
    {
        uniform_key.push(to_ascii_lowercase(word[i]));
        assert(uniform_key@ =~= lowered(word@.take(i + 1)));
        i += 1;
    }
    assert(word@.take(i as int) =~= word@);
    if uniform_key.len() == 1 {
        return Some(KeyEvent { code: KeyCode::Char(uniform_key[0]), modifiers: Modifiers::none() });
    }
    proof {
        reveal_strlit("ctrl+");
        reveal_strlit("shift+");
        reveal_strlit("alt+");
    }
    let (modifiers, skip): (Modifiers, usize) = if has_prefix(&uniform_key, "ctrl+") {
        (Modifiers { ctrl: true, shift: false, alt: false }, 5)
    } else if has_prefix(&uniform_key, "shift+") {
        (Modifiers { ctrl: false, shift: true, alt: false }, 6)
    } else if has_prefix(&uniform_key, "alt+") {
        (Modifiers { ctrl: false, shift: false, alt: true }, 4)
    } else {
        (Modifiers::none(), 0)
    };
    if skip == 0 {
        return match match_named_key(&uniform_key) {
            Some(code) => Some(KeyEvent { code, modifiers }),
            None => None,
        };
    }
    let rest = copy_range(&uniform_key, skip, uniform_key.len());
    assert(rest@ =~= uniform_key@.skip(skip as int));
    match match_plain_key(&rest) {
        Some(code) => Some(KeyEvent { code, modifiers }),
        None => None,
    }
}

/// Reads the name of an operation.
pub fn match_action(action: &str) -> (operation: Option<Operation>)
    ensures
        operation == operation_of(action@),
{
    let word = to_chars(action);
    if word_is(&word, "go_left") {
        Some(Operation::GoLeft)
    } else if word_is(&word, "go_right") {
        Some(Operation::GoRight)
    } else if word_is(&word, "go_down") {
        Some(Operation::GoDown)
    } else if word_is(&word, "go_up") {
        Some(Operation::GoUp)
    } else if word_is(&word, "scroll_down") {
        Some(Operation::ScrollDown)
    } else if word_is(&word, "scroll_up") {
        Some(Operation::ScrollUp)
    } else if word_is(&word, "quit") {
        Some(Operation::Quit)
    } else if word_is(&word, "exit") {
        Some(Operation::Quit)
    } else if word_is(&word, "delete") {
        Some(Operation::Remove)
    } else if word_is(&word, "remove") {
        Some(Operation::Remove)
    } else if word_is(&word, "edit") {
        Some(Operation::Edit)
    } else if word_is(&word, "save") {
        Some(Operation::Save)
    } else if word_is(&word, "help") {
        Some(Operation::Help)
    } else if word_is(&word, "general_status") {
        Some(Operation::GeneralStatus)
    } else if word_is(&word, "keys_status") {
        Some(Operation::KeysStatus)
    } else if word_is(&word, "search") {
        Some(Operation::Search)
    } else if word_is(&word, "goto") {
        Some(Operation::GoTo)
    } else if word_is(&word, "next_change") {
        Some(Operation::NextChange)
    } else if word_is(&word, "prev_change") {
        Some(Operation::PrevChange)
    } else if word_is(&word, "next_found") {
        Some(Operation::NextFound)
    } else if word_is(&word, "prev_found") {
        Some(Operation::PrevFound)
    } else if word_is(&word, "go_to_start") {
        Some(Operation::GoToStart)
    } else if word_is(&word, "go_to_end") {
        Some(Operation::GoToEnd)
    } else {
        None
    }
}

/// The end of the line that holds position `from`: the position of the
/// next line feed, or the end of the text.
pub open spec fn line_end(text: Seq<char>, from: int) -> int
    decreases text.len() - from,
{
    if from >= text.len() {
        text.len() as int
    } else if text[from] == '\n' {
        from
    } else {
        line_end(text, from + 1)
    }
}

/// The lines of `text` from position `from` on.
pub open spec fn lines_from(text: Seq<char>, from: int) -> Seq<Seq<char>>
    decreases text.len() - from,
{
    if from < 0 || from >= text.len() {
        Seq::empty()
    } else {
        let end = line_end(text, from);
        if end < from || end >= text.len() {
            seq![text.skip(from)]
        } else {
            seq![text.subrange(from, end)] + lines_from(text, end + 1)
        }
    }
}

/// The lines of `text`: the runs between line feeds. A line feed at the end
/// of the text starts no line.
pub open spec fn lines(text: Seq<char>) -> Seq<Seq<char>> {
    lines_from(text, 0)
}

/// The first position from `from` on that holds no white space, or the end
/// of the line.
pub open spec fn spaces_end(line: Seq<char>, from: int) -> int
    decreases line.len() - from,
{
    if from >= line.len() {
        line.len() as int
    } else if !is_whitespace(line[from]) {
        from
    } else {
        spaces_end(line, from + 1)
    }
}

/// The first position from `from` on that holds white space, or the end of
/// the line.
pub open spec fn word_end(line: Seq<char>, from: int) -> int
    decreases line.len() - from,
{
    if from >= line.len() {
        line.len() as int
    } else if is_whitespace(line[from]) {
        from
    } else {
        word_end(line, from + 1)
    }
}

/// The end of the last word that ends at or before `to`: the position after
/// the last character before `to` that is no white space, or 0.
pub open spec fn spaces_start(line: Seq<char>, to: int) -> int
    decreases to,
{
    if to <= 0 {
        0
    } else if !is_whitespace(line[to - 1]) {
        to
    } else {
        spaces_start(line, to - 1)
    }
}

/// The start of the word that ends at `to`.
pub open spec fn word_start(line: Seq<char>, to: int) -> int
    decreases to,
{
    if to <= 0 {
        0
    } else if is_whitespace(line[to - 1]) {
        to
    } else {
        word_start(line, to - 1)
    }
}

/// Whether the line holds nothing but white space.
pub open spec fn is_blank(line: Seq<char>) -> bool {
    spaces_end(line, 0) == line.len()
}

/// The first word of the line.
pub open spec fn first_word(line: Seq<char>) -> Seq<char> {
    let from = spaces_end(line, 0);
    line.subrange(from, word_end(line, from))
}

/// The last word of the line.
pub open spec fn last_word(line: Seq<char>) -> Seq<char> {
    let to = spaces_start(line, line.len() as int);
    line.subrange(word_start(line, to), to)
}

/// What a line of a configuration binds: a chord, as it is written, to an
/// operation.
pub struct Binding {
    pub chord: KeyEvent,
    pub operation: Operation,
    pub chord_text: Seq<char>,
}

/// What a line of a configuration means. Its first word is the chord and
/// its last word the operation.
pub open spec fn parse_line(line: Seq<char>) -> Result<Binding, ConfigErrorKind> {
    if is_blank(line) {
        Err(ConfigErrorKind::BlankLine)
    } else {
        match chord_of(first_word(line)) {
            None => Err(ConfigErrorKind::UnknownKey),
            Some(chord) => match operation_of(last_word(line)) {
                None => Err(ConfigErrorKind::UnknownOperation),
                Some(operation) => Ok(Binding { chord, operation, chord_text: first_word(line) }),
            },
        }
    }
}

/// What a sequence of lines means: the bindings, line by line, or the first
/// line that cannot be read.
pub open spec fn read_lines(ls: Seq<Seq<char>>) -> Result<Seq<Binding>, ConfigError>
    decreases ls.len(),
{
    if ls.len() == 0 {
        Ok(Seq::empty())
    } else {
        match read_lines(ls.drop_last()) {
            Err(e) => Err(e),
            Ok(bindings) => match parse_line(ls.last()) {
                Err(kind) => Err(ConfigError { line: ls.len() as usize, kind }),
                Ok(binding) => Ok(bindings.push(binding)),
            },
        }
    }
}

/// The operation that `chord` is bound to: that of the last binding of the
/// chord.
pub open spec fn bound(bindings: Seq<Binding>, chord: KeyEvent) -> Option<Operation>
    decreases bindings.len(),
{
    if bindings.len() == 0 {
        None
    } else if bindings.last().chord == chord {
        Some(bindings.last().operation)
    } else {
        bound(bindings.drop_last(), chord)
    }
}

/// `items` with `separator` between each two.
pub open spec fn join(items: Seq<Seq<char>>, separator: Seq<char>) -> Seq<char>
    decreases items.len(),
{
    if items.len() == 0 {
        Seq::empty()
    } else if items.len() == 1 {
        items[0]
    } else {
        join(items.drop_last(), separator) + separator + items.last()
    }
}

/// The line of the legend for a binding: the chord as written, a colon and
/// what the operation does.
pub open spec fn legend_line(binding: Binding) -> Seq<char> {
    binding.chord_text + ": "@ + description_of(binding.operation)
}

/// An entry of the legend.
pub struct LegendEntry {
    /// The chord as the configuration writes it.
    pub chord: String,
    pub operation: Operation,
}

/// The table of key bindings and its legend.
pub struct Keyboard {
    keys_and_actions: HashMap<u32, Operation>,
    help: Vec<LegendEntry>,
}

/// A number for each key: the code point of a character, and numbers above
/// all code points for the other keys.
spec fn key_number(code: KeyCode) -> int {
    match code {
        KeyCode::Char(c) => c as int,
        KeyCode::F(n) => 0x110000 + n,
        KeyCode::Backspace => 0x110100,
        KeyCode::Enter => 0x110101,
        KeyCode::Left => 0x110102,
        KeyCode::Right => 0x110103,
        KeyCode::Up => 0x110104,
        KeyCode::Down => 0x110105,
        KeyCode::Home => 0x110106,
        KeyCode::End => 0x110107,
        KeyCode::PageUp => 0x110108,
        KeyCode::PageDown => 0x110109,
        KeyCode::Tab => 0x11010A,
        KeyCode::BackTab => 0x11010B,
        KeyCode::Delete => 0x11010C,
        KeyCode::Insert => 0x11010D,
        KeyCode::Esc => 0x11010E,
        KeyCode::Other => 0x11010F,
    }
}

/// A number for each chord, by which the table finds it.
spec fn chord_number(chord: KeyEvent) -> u32 {
    (key_number(chord.code) + (if chord.modifiers.ctrl {
        0x200000int
    } else {
        0
    }) + (if chord.modifiers.shift {
        0x400000int
    } else {
        0
    }) + (if chord.modifiers.alt {
        0x800000int
    } else {
        0
    })) as u32
}

/// Different chords have different numbers.
proof fn lemma_chord_number_injective(a: KeyEvent, b: KeyEvent)
    requires
        chord_number(a) == chord_number(b),
    ensures
        a == b,
{
    assert(0 <= key_number(a.code) < 0x200000);
    assert(0 <= key_number(b.code) < 0x200000);
    assert(key_number(a.code) == key_number(b.code));
    assert(a.modifiers == b.modifiers);
}

/// The number of a chord.
fn encode(chord: &KeyEvent) -> (number: u32)
    ensures
        number == chord_number(*chord),
{
    let key: u32 = match chord.code {
        KeyCode::Char(c) => c as u32,
        KeyCode::F(n) => 0x110000 + n as u32,
        KeyCode::Backspace => 0x110100,
        KeyCode::Enter => 0x110101,
        KeyCode::Left => 0x110102,
        KeyCode::Right => 0x110103,
        KeyCode::Up => 0x110104,
        KeyCode::Down => 0x110105,
        KeyCode::Home => 0x110106,
        KeyCode::End => 0x110107,
        KeyCode::PageUp => 0x110108,
        KeyCode::PageDown => 0x110109,
        KeyCode::Tab => 0x11010A,
        KeyCode::BackTab => 0x11010B,
        KeyCode::Delete => 0x11010C,
        KeyCode::Insert => 0x11010D,
        KeyCode::Esc => 0x11010E,
        KeyCode::Other => 0x11010F,
    };
    let ctrl: u32 = if chord.modifiers.ctrl {
        0x200000
    } else {
        0
    };
    let shift: u32 = if chord.modifiers.shift {
        0x400000
    } else {
        0
    };
    let alt: u32 = if chord.modifiers.alt {
        0x800000
    } else {
        0
    };
    key + ctrl + shift + alt
}

/// The mathematical content of a [`Keyboard`].
pub struct KeyboardView {
    /// The operation of each bound chord.
    pub bindings: Map<KeyEvent, Operation>,
    /// The chord, as written, and the operation of each line of the
    /// configuration, in its order.
    pub legend: Seq<(Seq<char>, Operation)>,
}

/// The table that a sequence of bindings builds: each chord has the
/// operation of its last binding, and the legend has a line for each.
pub open spec fn table_of(bindings: Seq<Binding>) -> KeyboardView {
    KeyboardView {
        bindings: Map::new(
            |chord: KeyEvent| bound(bindings, chord) is Some,
            |chord: KeyEvent| bound(bindings, chord).unwrap(),
        ),
        legend: Seq::new(bindings.len(), |i: int| (bindings[i].chord_text, bindings[i].operation)),
    }
}

/// The lines of a legend.
pub open spec fn legend_lines(legend: Seq<(Seq<char>, Operation)>) -> Seq<Seq<char>> {
    Seq::new(legend.len(), |i: int| legend[i].0 + ": "@ + description_of(legend[i].1))
}

impl View for Keyboard {
    type V = KeyboardView;

    closed spec fn view(&self) -> KeyboardView {
        KeyboardView {
            bindings: Map::new(
                |chord: KeyEvent| self.keys_and_actions@.contains_key(chord_number(chord)),
                |chord: KeyEvent| self.keys_and_actions@[chord_number(chord)],
            ),
            legend: Seq::new(
                self.help@.len(),
                |i: int| (self.help@[i].chord@, self.help@[i].operation),
            ),
        }
    }
}

/// The end of the line that starts at `from`.
fn find_line_end(text: &Vec<char>, from: usize) -> (end: usize)
    requires
        from <= text.len(),
    ensures
        from <= end <= text.len(),
        end == line_end(text@, from as int),
{
    let mut end: usize = from;
    while end < text.len() && text[end] != '\n'
        invariant
            from <= end <= text.len(),
            line_end(text@, from as int) == line_end(text@, end as int),
        decreases text.len() - end,
    {
        end += 1;
    }
    end
}

/// The first position from `from` on that holds no white space.
fn find_spaces_end(line: &Vec<char>, from: usize) -> (at: usize)
    requires
        from <= line.len(),
    ensures
        from <= at <= line.len(),
        at == spaces_end(line@, from as int),
        at < line.len() ==> !is_whitespace(line@[at as int]),
{
    let mut at: usize = from;
    while at < line.len() && is_space(line[at])
        invariant
            from <= at <= line.len(),
            spaces_end(line@, from as int) == spaces_end(line@, at as int),
        decreases line.len() - at,
    {
        at += 1;
    }
    at
}

/// The first position from `from` on that holds white space.
fn find_word_end(line: &Vec<char>, from: usize) -> (at: usize)
    requires
        from < line.len(),
        !is_whitespace(line@[from as int]),
    ensures
        from < at <= line.len(),
        at == word_end(line@, from as int),
{
    let mut at: usize = from + 1;
    while at < line.len() && !is_space(line[at])
        invariant
            from < at <= line.len(),
            word_end(line@, from as int) == word_end(line@, at as int),
        decreases line.len() - at,
    {
        at += 1;
    }
    at
}

/// The position after the last character that is no white space.
fn find_spaces_start(line: &Vec<char>, Ghost(witness): Ghost<int>) -> (at: usize)
    requires
        0 <= witness < line.len(),
        !is_whitespace(line@[witness]),
    ensures
        witness < at <= line.len(),
        at == spaces_start(line@, line@.len() as int),
        !is_whitespace(line@[at - 1]),
{
    let mut at: usize = line.len();
    while at > 0 && is_space(line[at - 1])
        invariant
            witness < at <= line.len(),
            !is_whitespace(line@[witness]),
            spaces_start(line@, line@.len() as int) == spaces_start(line@, at as int),
        decreases at,
    {
        at -= 1;
    }
    at
}

/// The start of the word that ends at `to`.
fn find_word_start(line: &Vec<char>, to: usize) -> (at: usize)
    requires
        0 < to <= line.len(),
        !is_whitespace(line@[to - 1]),
    ensures
        at < to,
        at == word_start(line@, to as int),
{
    let mut at: usize = to - 1;
    while at > 0 && !is_space(line[at - 1])
        invariant
            at < to <= line.len(),
            word_start(line@, to as int) == word_start(line@, at as int),
        decreases at,
    {
        at -= 1;
    }
    at
}

/// Lines read without error stay read: an error among the first lines is
/// the error of all.
proof fn lemma_read_lines_error(first: Seq<Seq<char>>, rest: Seq<Seq<char>>)
    requires
        read_lines(first) is Err,
    ensures
        read_lines(first + rest) == read_lines(first),
    decreases rest.len(),
{
    if rest.len() == 0 {
        assert(first + rest =~= first);
    } else {
        lemma_read_lines_error(first, rest.drop_last());
        assert((first + rest).drop_last() =~= first + rest.drop_last());
    }
}

/// A later binding of a chord replaces an earlier one and leaves the other
/// chords as they are.
pub proof fn lemma_last_binding_wins(bindings: Seq<Binding>, binding: Binding, chord: KeyEvent)
    ensures
        bound(bindings.push(binding), binding.chord) == Some(binding.operation),
        chord != binding.chord ==> bound(bindings.push(binding), chord) == bound(bindings, chord),
{
    assert(bindings.push(binding).drop_last() =~= bindings);
}

/// Where a configuration cannot be read, the error names the first line
/// that cannot be read and says what is wrong with that line; where it can
/// be read there is a binding for each line.
pub proof fn lemma_read_lines_first_error(ls: Seq<Seq<char>>)
    requires
        ls.len() <= usize::MAX,
    ensures
        match read_lines(ls) {
            Ok(bindings) => bindings.len() == ls.len() && forall|i: int|
                0 <= i < ls.len() ==> parse_line(#[trigger] ls[i]) == Ok::<Binding, ConfigErrorKind>(
                    bindings[i],
                ),
            Err(error) => 1 <= error.line <= ls.len() && parse_line(ls[error.line - 1]) == Err::<
                Binding,
                ConfigErrorKind,
            >(error.kind) && forall|i: int|
                0 <= i < error.line - 1 ==> parse_line(#[trigger] ls[i]) is Ok,
        },
    decreases ls.len(),
{
    if ls.len() > 0 {
        let first = ls.drop_last();
        lemma_read_lines_first_error(first);
        assert forall|i: int| 0 <= i < first.len() implies first[i] == ls[i] by {}
        match read_lines(first) {
            Ok(bindings) => {
                assert forall|i: int| 0 <= i < first.len() implies parse_line(#[trigger] ls[i])
                    == Ok::<Binding, ConfigErrorKind>(bindings[i]) by {
                    assert(first[i] == ls[i]);
                }
            },
            Err(error) => {
                assert(first[error.line - 1] == ls[error.line - 1]);
                assert forall|i: int| 0 <= i < error.line - 1 implies parse_line(
                    #[trigger] ls[i],
                ) is Ok by {
                    assert(first[i] == ls[i]);
                }
            },
        }
    }
}

/// The lines from a position on are the line that starts there and the
/// lines after it.
proof fn lemma_lines_from_step(text: Seq<char>, from: int)
    requires
        0 <= from < text.len(),
    ensures
        from <= line_end(text, from) <= text.len(),
        lines_from(text, from) == seq![text.subrange(from, line_end(text, from))] + lines_from(
            text,
            line_end(text, from) + 1,
        ),
{
    lemma_line_end_bounds(text, from);
    if line_end(text, from) >= text.len() {
        assert(text.skip(from) =~= text.subrange(from, line_end(text, from)));
        assert(lines_from(text, line_end(text, from) + 1) =~= Seq::<Seq<char>>::empty());
        assert(seq![text.skip(from)] + Seq::<Seq<char>>::empty() =~= seq![text.skip(from)]);
    }
}

/// A line ends between its start and the end of the text.
proof fn lemma_line_end_bounds(text: Seq<char>, from: int)
    requires
        0 <= from <= text.len(),
    ensures
        from <= line_end(text, from) <= text.len(),
    decreases text.len() - from,
{
    if from < text.len() && text[from] != '\n' {
        lemma_line_end_bounds(text, from + 1);
    }
}

/// The configuration that is written where none is found.
pub fn default_config() -> (config: &'static str)
    ensures
        config@ == default_config_text(),
{
    "left    go_left\nright   go_right\nup      go_up\ndown    go_down\npg_up   scroll_up\npg_down scroll_down\nq       quit\nh       help\nf2      edit\nf3      remove\nf5      save\n1       general_status\n2       keys_status\n"
}

/// The text of the default configuration.
pub open spec fn default_config_text() -> Seq<char> {
    "left    go_left\nright   go_right\nup      go_up\ndown    go_down\npg_up   scroll_up\npg_down scroll_down\nq       quit\nh       help\nf2      edit\nf3      remove\nf5      save\n1       general_status\n2       keys_status\n"@
}

impl Keyboard {
    /// Builds the table from the text of a configuration. Each line binds
    /// the chord that its first word writes to the operation that its last
    /// word names; a later binding of a chord replaces an earlier one. A
    /// line that cannot be read fails the whole: the error names the first
    /// such line.
    pub fn new(config: &str) -> (table: Result<Keyboard, ConfigError>)
        ensures
            match table {
                Ok(keyboard) => read_lines(lines(config@)) is Ok && keyboard@ == table_of(
                    read_lines(lines(config@)).unwrap(),
                ),
                Err(error) => read_lines(lines(config@)) == Err::<Seq<Binding>, ConfigError>(error),
            },
    {
        let text = to_chars(config);
        let mut pairs: HashMap<u32, Operation> = HashMap::new();
        let mut help: Vec<LegendEntry> = Vec::new();
        let mut start: usize = 0;
        let mut iter: usize = 0;
        let ghost mut done: Seq<Seq<char>> = Seq::empty();
        let ghost mut bindings: Seq<Binding> = Seq::empty();
        proof {
            assert(lines(text@) =~= done + lines_from(text@, 0));
        }
        while start < text.len()
            invariant
                text@ == config@,
                start <= text.len(),
                iter <= start,
                iter == done.len(),
                lines(text@) == done + lines_from(text@, start as int),
                read_lines(done) == Ok::<Seq<Binding>, ConfigError>(bindings),
                help@.len() == bindings.len(),
                forall|i: int|
                    0 <= i < bindings.len() ==> (#[trigger] help@[i]).chord@ == bindings[i].chord_text
                        && help@[i].operation == bindings[i].operation,
                forall|chord: KeyEvent|
                    bound(bindings, chord) == (if pairs@.contains_key(#[trigger] chord_number(chord)) {
                        Some(pairs@[chord_number(chord)])
                    } else {
                        None
                    }),
            decreases text.len() - start,
        {
            let end = find_line_end(&text, start);
            let line = copy_range(&text, start, end);
            let ghost rest = lines_from(text@, end + 1);
            proof {
                lemma_lines_from_step(text@, start as int);
                assert(lines(text@) =~= done.push(line@) + rest);
                assert(done.push(line@).drop_last() =~= done);
            }
            let from = find_spaces_end(&line, 0);
            if from == line.len() {
                proof {
                    lemma_read_lines_error(done.push(line@), rest);
                }
                return Err(ConfigError { line: iter + 1, kind: ConfigErrorKind::BlankLine });
            }
            let key_end = find_word_end(&line, from);
            let action_end = find_spaces_start(&line, Ghost(from as int));
            let action_start = find_word_start(&line, action_end);
            let key = config.substring_char(start + from, start + key_end);
            let action = config.substring_char(start + action_start, start + action_end);
            proof {
                assert(key@ =~= first_word(line@));
                assert(action@ =~= last_word(line@));
            }
            let matched_key = match match_key(key) {
                Some(chord) => chord,
                None => {
                    proof {
                        lemma_read_lines_error(done.push(line@), rest);
                    }
                    return Err(ConfigError { line: iter + 1, kind: ConfigErrorKind::UnknownKey });
                },
            };
            let matched_action = match match_action(action) {
                Some(operation) => operation,
                None => {
                    proof {
                        lemma_read_lines_error(done.push(line@), rest);
                    }
                    return Err(
                        ConfigError { line: iter + 1, kind: ConfigErrorKind::UnknownOperation },
                    );
                },
            };
            let number = encode(&matched_key);
            let ghost binding = Binding {
                chord: matched_key,
                operation: matched_action,
                chord_text: first_word(line@),
            };
            let ghost before = bindings;
            pairs.insert(number, matched_action);
            help.push(LegendEntry { chord: String::from_str(key), operation: matched_action });
            proof {
                bindings = before.push(binding);
                done = done.push(line@);
                assert(bindings.drop_last() =~= before);
                assert forall|chord: KeyEvent|
                    bound(bindings, chord) == (if pairs@.contains_key(#[trigger] chord_number(chord)) {
                        Some(pairs@[chord_number(chord)])
                    } else {
                        None
                    }) by {
                    if chord_number(chord) == number {
                        lemma_chord_number_injective(chord, matched_key);
                    }
                }
            }
            iter += 1;
            if end == text.len() {
                start = end;
                proof {
                    assert(rest =~= Seq::<Seq<char>>::empty());
                    assert(lines_from(text@, start as int) =~= Seq::<Seq<char>>::empty());
                }
            } else {
                start = end + 1;
            }
        }
        proof {
            assert(lines(text@) =~= done);
        }
        let keyboard = Keyboard { keys_and_actions: pairs, help };
        proof {
            let expected = table_of(bindings);
            assert(keyboard@.bindings =~= expected.bindings);
            assert(keyboard@.legend =~= expected.legend);
        }
        Ok(keyboard)
    }

    /// The operation that a key press is bound to, if any.
    pub fn get(&self, event: &KeyEvent) -> (operation: Option<Operation>)
        ensures
            operation == (if self@.bindings.contains_key(*event) {
                Some(self@.bindings[*event])
            } else {
                None
            }),
    {
        let number = encode(event);
        match self.keys_and_actions.get(&number) {
            Some(operation) => Some(*operation),
            None => None,
        }
    }

    /// The lines of the legend, one for each line of the configuration,
    /// with `separator` between each two.
    pub fn help(&self, separator: &str) -> (text: String)
        ensures
            text@ == join(legend_lines(self@.legend), separator@),
    {
        let mut text = String::new();
        let mut i: usize = 0;
        while i < self.help.len()
            invariant
                i <= self.help.len(),
                text@ == join(legend_lines(self@.legend).take(i as int), separator@),
            decreases self.help.len() - i,
        {
            let ghost items = legend_lines(self@.legend);
            if i > 0 {
                text.append(separator);
            }
            text.append(self.help[i].chord.as_str());
            text.append(": ");
            text.append(self.help[i].operation.description());
            proof {
                assert(items.take(i + 1).drop_last() =~= items.take(i as int));
                assert(items.take(i + 1).last() == items[i as int]);
                if i == 0 {
                    assert(items.take(0) =~= Seq::<Seq<char>>::empty());
                    assert(text@ =~= items[0]);
                    assert(items.take(1)[0] == items[0]);
                } else {
                    assert(text@ =~= join(items.take(i as int), separator@) + separator@
                        + items[i as int]);
                }
            }
            i += 1;
        }
        proof {
            assert(legend_lines(self@.legend).take(i as int) =~= legend_lines(self@.legend));
        }
        text
    }

    /// The number of lines of the legend.
    pub fn len(&self) -> (n: usize)
        ensures
            n == self@.legend.len(),
    {
        self.help.len()
    }

    /// The chord, as written, and the operation of line `i` of the legend.
    pub fn entry(&self, i: usize) -> (entry: &LegendEntry)
        requires
            i < self@.legend.len(),
        ensures
            entry.chord@ == self@.legend[i as int].0,
            entry.operation == self@.legend[i as int].1,
    {
        &self.help[i]
    }
}

} // verus!
