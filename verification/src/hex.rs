//! Hexadecimal digits: reading them from typed characters and writing them
//! back for display.

use vstd::prelude::*;

verus! {

/// Whether `c` is one of `0-9`, `a-f`, `A-F`.
pub open spec fn is_hex_digit(c: char) -> bool {
    ('0' <= c && c <= '9') || ('a' <= c && c <= 'f') || ('A' <= c && c <= 'F')
}

/// Whether every character of `s` is a hexadecimal digit.
pub open spec fn all_hex(s: Seq<char>) -> bool {
    forall|i: int| 0 <= i < s.len() ==> is_hex_digit(#[trigger] s[i])
}

/// The value of a hexadecimal digit; only meaningful where `is_hex_digit(c)`.
pub open spec fn hex_digit_value(c: char) -> nat {
    if '0' <= c && c <= '9' {
        (c as nat - '0' as nat) as nat
    } else if 'a' <= c && c <= 'f' {
        (c as nat - 'a' as nat + 10) as nat
    } else {
        (c as nat - 'A' as nat + 10) as nat
    }
}

/// The number that the hexadecimal digits `s` write, most significant
/// digit first.
pub open spec fn hex_number(s: Seq<char>) -> nat
    decreases s.len(),
{
    if s.len() == 0 {
        0
    } else {
        16 * hex_number(s.drop_last()) + hex_digit_value(s.last())
    }
}

/// The bytes that the hexadecimal digits `s` write, two digits to a byte;
/// a last digit without a partner is a byte by itself.
pub open spec fn hex_pattern(s: Seq<char>) -> Seq<u8> {
    Seq::new(
        ((s.len() + 1) / 2) as nat,
        |k: int| hex_number(s.subrange(2 * k, if 2 * k + 2 <= s.len() { 2 * k + 2 } else { s.len() as int })) as u8,
    )
}

/// `c` with a lower-case ASCII letter replaced by its upper-case form.
pub open spec fn ascii_upper(c: char) -> char {
    if 'a' <= c && c <= 'z' {
        ((c as u8) - 32) as char
    } else {
        c
    }
}

/// `c` with an upper-case ASCII letter replaced by its lower-case form.
pub open spec fn ascii_lower(c: char) -> char {
    if 'A' <= c && c <= 'Z' {
        ((c as u8) + 32) as char
    } else {
        c
    }
}

/// Tests whether `c` is a hexadecimal digit.
pub fn is_ascii_hexdigit(c: char) -> (r: bool)
    ensures
        r == is_hex_digit(c),
{
    ('0' <= c && c <= '9') || ('a' <= c && c <= 'f') || ('A' <= c && c <= 'F')
}

/// The upper-case form of `c` where it is a lower-case ASCII letter, else
/// `c`.
pub fn to_ascii_uppercase(c: char) -> (r: char)
    ensures
        r == ascii_upper(c),
        is_hex_digit(c) ==> is_hex_digit(r) && hex_digit_value(r) == hex_digit_value(c),
{
    if 'a' <= c && c <= 'z' {
        ((c as u8) - 32) as char
    } else {
        c
    }
}

/// The lower-case form of `c` where it is an upper-case ASCII letter, else
/// `c`.
pub fn to_ascii_lowercase(c: char) -> (r: char)
    ensures
        r == ascii_lower(c),
{
    if 'A' <= c && c <= 'Z' {
        ((c as u8) + 32) as char
    } else {
        c
    }
}

/// The value of the hexadecimal digit `c`.
pub fn hex_value(c: char) -> (v: u8)
    requires
        is_hex_digit(c),
    ensures
        v == hex_digit_value(c),
        v < 16,
{
    let code: u32 = c as u32;
    if '0' <= c && c <= '9' {
        (code - 0x30) as u8
    } else if 'a' <= c && c <= 'f' {
        (code - 0x61 + 10) as u8
    } else {
        (code - 0x41 + 10) as u8
    }
}

/// The number written by `n` hexadecimal digits is below `16^n`.
pub proof fn lemma_hex_number_bound(s: Seq<char>)
    requires
        all_hex(s),
    ensures
        hex_number(s) < pow16(s.len()),
    decreases s.len(),
{
    if s.len() > 0 {
        assert(all_hex(s.drop_last()));
        lemma_hex_number_bound(s.drop_last());
        assert(is_hex_digit(s.last()));
    }
}

/// 16 to the power `n`.
pub open spec fn pow16(n: nat) -> nat
    decreases n,
{
    if n == 0 {
        1
    } else {
        16 * pow16((n - 1) as nat)
    }
}

/// Reads up to eight hexadecimal digits as a number.
pub fn parse_hex(digits: &Vec<char>) -> (number: u32)
    requires
        all_hex(digits@),
        digits.len() <= 8,
    ensures
        number == hex_number(digits@),
{
    let mut number: u32 = 0;
    let mut i: usize = 0;
    while i < digits.len()
        invariant
            i <= digits.len() <= 8,
            all_hex(digits@),
            number == hex_number(digits@.take(i as int)),
            number < pow16(i as nat),
        decreases digits.len() - i,
    {
        proof {
            assert(digits@.take(i + 1).drop_last() =~= digits@.take(i as int));
            assert(is_hex_digit(digits@[i as int]));
            reveal_with_fuel(pow16, 9);
        }
        number = number * 16 + hex_value(digits[i]) as u32;
        i += 1;
    }
    proof {
        assert(digits@.take(i as int) =~= digits@);
    }
    number
}

/// Reads hexadecimal digits as bytes, two digits to a byte; a last digit
/// without a partner is a byte by itself.
pub fn parse_hex_pattern(input: &Vec<char>) -> (bytes: Vec<u8>)
    requires
        all_hex(input@),
    ensures
        bytes@ == hex_pattern(input@),
{
    let mut bytes: Vec<u8> = Vec::new();
    let mut counter: usize = 0;
    while counter < input.len()
        invariant
            counter <= input.len(),
            counter % 2 == 0 || counter == input.len(),
            all_hex(input@),
            bytes.len() == (counter + 1) / 2,
            forall|k: int| 0 <= k < bytes.len() ==> bytes[k] == #[trigger] hex_pattern(input@)[k],
        decreases input.len() - counter,
    {
        let ghost k = bytes.len() as int;
        assert(is_hex_digit(input@[counter as int]));
        let high = hex_value(input[counter]);
        if counter + 1 < input.len() {
            assert(is_hex_digit(input@[counter + 1]));
            let low = hex_value(input[counter + 1]);
            proof {
                let pair = input@.subrange(2 * k, 2 * k + 2);
                assert(pair.drop_last().drop_last() =~= Seq::<char>::empty());
                assert(pair.drop_last().last() == input@[counter as int]);
                assert(pair.last() == input@[counter + 1]);
                reveal_with_fuel(hex_number, 3);
                assert(hex_number(pair) == 16 * high + low);
            }
            bytes.push(high * 16 + low);
            counter += 2;
        } else {
            proof {
                let single = input@.subrange(2 * k, input@.len() as int);
                assert(single.drop_last() =~= Seq::<char>::empty());
                assert(single.last() == input@[counter as int]);
                reveal_with_fuel(hex_number, 2);
                assert(hex_number(single) == high);
            }
            bytes.push(high);
            counter += 1;
        }
    }
    proof {
        assert(bytes@ =~= hex_pattern(input@));
    }
    bytes
}

} // verus!
