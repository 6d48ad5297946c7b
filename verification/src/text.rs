//! Text as sequences of characters: taking strings apart and putting them
//! together.

use vstd::prelude::*;

verus! {

/// The characters of `s`.
pub fn to_chars(s: &str) -> (chars: Vec<char>)
    ensures
        chars@ == s@,
{
    let mut chars: Vec<char> = Vec::new();
    for c in it: s.chars()
        invariant
            chars@ == it.seq().take(it.index()),
    {
        chars.push(c);
    }
    chars
}

/// The characters of `chars` from `from` up to `to`.
pub fn copy_range(chars: &Vec<char>, from: usize, to: usize) -> (part: Vec<char>)
    requires
        from <= to <= chars.len(),
    ensures
        part@ == chars@.subrange(from as int, to as int),
{
    let mut part: Vec<char> = Vec::new();
    let mut i: usize = from;
    while i < to
        invariant
            from <= i <= to <= chars.len(),
            part@ == chars@.subrange(from as int, i as int),
        decreases to - i,
    {
        part.push(chars[i]);
        assert(part@ =~= chars@.subrange(from as int, i + 1));
        i += 1;
    }
    part
}

/// Whether `c` is an ASCII decimal digit.
pub open spec fn is_decimal_digit(c: char) -> bool {
    '0' <= c && c <= '9'
}

/// The number that the decimal digits `s` write.
pub open spec fn decimal_value(s: Seq<char>) -> nat
    decreases s.len(),
{
    if s.len() == 0 {
        0
    } else {
        10 * decimal_value(s.drop_last()) + (s.last() as nat - '0' as nat) as nat
    }
}

/// `String::push` of the standard library appends one character to the end
/// of the string.
pub assume_specification[ String::push ](text: &mut String, ch: char)
    ensures
        final(text)@ == old(text)@.push(ch),
;

/// The digit for a value below 16: `0-9`, then `A-F` or `a-f`.
pub open spec fn digit_char(value: nat, upper: bool) -> char {
    if value < 10 {
        (value + 0x30) as u8 as char
    } else if upper {
        (value + 0x37) as u8 as char
    } else {
        (value + 0x57) as u8 as char
    }
}

/// `value` written to the base 16 with at least `width` digits and no zero
/// in front beyond them.
pub open spec fn hex_text(value: nat, width: nat, upper: bool) -> Seq<char>
    decreases value, width,
{
    if value < 16 && width <= 1 {
        seq![digit_char(value, upper)]
    } else {
        hex_text(value / 16, if width > 0 { (width - 1) as nat } else { 0 }, upper).push(
            digit_char(value % 16, upper),
        )
    }
}

/// `value` written to the base 10.
pub open spec fn decimal_text(value: nat) -> Seq<char>
    decreases value,
{
    if value < 10 {
        seq![digit_char(value, true)]
    } else {
        decimal_text(value / 10).push(digit_char(value % 10, true))
    }
}

/// The digit for a value below 16.
pub fn digit(value: u8, upper: bool) -> (c: char)
    requires
        value < 16,
    ensures
        c == digit_char(value as nat, upper),
{
    if value < 10 {
        (value + 0x30) as char
    } else if upper {
        (value + 0x37) as char
    } else {
        (value + 0x57) as char
    }
}

/// Appends `value` to the base 16, with at least `width` digits.
pub fn push_hex(text: &mut String, value: u128, width: u32, upper: bool)
    ensures
        final(text)@ == old(text)@ + hex_text(value as nat, width as nat, upper),
    decreases value, width,
{
    if value < 16 && width <= 1 {
        text.push(digit(value as u8, upper));
        assert(text@ =~= old(text)@ + hex_text(value as nat, width as nat, upper));
    } else {
        let rest: u32 = if width > 0 {
            width - 1
        } else {
            0
        };
        push_hex(text, value / 16, rest, upper);
        text.push(digit((value % 16) as u8, upper));
        assert(text@ =~= old(text)@ + hex_text(value as nat, width as nat, upper));
    }
}

/// Appends `value` to the base 10.
pub fn push_decimal(text: &mut String, value: u128)
    ensures
        final(text)@ == old(text)@ + decimal_text(value as nat),
    decreases value,
{
    if value < 10 {
        text.push(digit(value as u8, true));
        assert(text@ =~= old(text)@ + decimal_text(value as nat));
    } else {
        push_decimal(text, value / 10);
        text.push(digit((value % 10) as u8, true));
        assert(text@ =~= old(text)@ + decimal_text(value as nat));
    }
}

/// Appends the characters of `chars`.
pub fn push_chars(text: &mut String, chars: &Vec<char>)
    ensures
        final(text)@ == old(text)@ + chars@,
{
    let mut i: usize = 0;
    while i < chars.len()
        invariant
            i <= chars.len(),
            text@ == old(text)@ + chars@.take(i as int),
        decreases chars.len() - i,
    {
        text.push(chars[i]);
        assert(text@ =~= old(text)@ + chars@.take(i + 1));
        i += 1;
    }
    assert(chars@.take(i as int) =~= chars@);
}

} // verus!
