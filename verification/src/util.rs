//! Conversion between PETSCII, the drive's character set, and ASCII: one
//! character at a time and for whole sequences.

use vstd::prelude::*;

verus! {

/// The ASCII character that stands for the PETSCII byte `b` on display.
///
/// Both newline codes give `'\n'`, both shifted spaces give a space, the three
/// letter bands are moved onto ASCII letters, the remaining graphic ASCII
/// bytes stand for themselves, and every other byte is shown as a dot.
pub open spec fn petscii_to_ascii_spec(b: u8) -> char {
    if b == 0x0a || b == 0x0d {
        '\n'
    } else if b == 0xa0 || b == 0xe0 {
        ' '
    } else if b == 0x40 || b == 0x60 {
        b as char
    } else if 0x41 <= b <= 0x5f {
        ((b + 0x20) as u8) as char
    } else if 0x61 <= b <= 0x7f {
        ((b - 0x20) as u8) as char
    } else if 0xc0 <= b <= 0xdf {
        ((b - 0x80) as u8) as char
    } else if 0x21 <= b <= 0x3f {
        b as char
    } else {
        '.'
    }
}

/// The low eight bits of the code of `c`.
pub open spec fn low_byte(c: char) -> u8 {
    ((c as u32) % 256) as u8
}

/// The PETSCII byte for the ASCII character `c`.
///
/// Bytes from `[` to `~` swap between the two lower letter bands, upper-case
/// letters get the high bit, and every other character keeps its low byte.
pub open spec fn ascii_to_petscii_spec(c: char) -> u8 {
    let b = low_byte(c);
    if 0x5b <= b <= 0x5f {
        (b + 0x20) as u8
    } else if 0x60 <= b <= 0x7e {
        (b - 0x20) as u8
    } else if 'A' <= c <= 'Z' {
        (b + 0x80) as u8
    } else {
        b
    }
}

/// Converts one PETSCII byte to the ASCII character that displays it.
pub fn petscii_to_ascii(character: u8) -> (c: char)
    ensures
        c == petscii_to_ascii_spec(character),
        (c as u32) < 0x80,
{
    if character == 0x0a || character == 0x0d {
        '\n'
    } else if character == 0x40 || character == 0x60 {
        character as char
    } else if character == 0xa0 || character == 0xe0 {
        ' '
    } else {
        let band: u8 = character & 0xe0;
        assert(band == 0x40 <==> 0x40 <= character <= 0x5f) by (bit_vector)
            requires
                band == character & 0xe0,
        ;
        assert(band == 0x60 <==> 0x60 <= character <= 0x7f) by (bit_vector)
            requires
                band == character & 0xe0,
        ;
        assert(band == 0xc0 <==> 0xc0 <= character <= 0xdf) by (bit_vector)
            requires
                band == character & 0xe0,
        ;
        if band == 0x40 || band == 0x60 {
            let flipped: u8 = character ^ 0x20;
            assert(0x40 <= character <= 0x5f ==> flipped == character + 0x20) by (bit_vector)
                requires
                    flipped == character ^ 0x20,
            ;
            assert(0x60 <= character <= 0x7f ==> flipped == character - 0x20) by (bit_vector)
                requires
                    flipped == character ^ 0x20,
            ;
            flipped as char
        } else if band == 0xc0 {
            let cleared: u8 = character ^ 0x80;
            assert(0xc0 <= character <= 0xdf ==> cleared == character - 0x80) by (bit_vector)
                requires
                    cleared == character ^ 0x80,
            ;
            cleared as char
        } else if 0x21 <= character && character <= 0x7e {
            character as char
        } else {
            '.'
        }
    }
}

/// Converts one ASCII character to its PETSCII byte.
pub fn ascii_to_petscii(character: char) -> (b: u8)
    ensures
        b == ascii_to_petscii_spec(character),
{
    let code: u32 = character as u32;
    let c: u8 = (code % 256) as u8;
    if 0x5b <= c && c <= 0x7e {
        let flipped: u8 = c ^ 0x20;
        assert(0x5b <= c <= 0x5f ==> flipped == c + 0x20) by (bit_vector)
            requires
                flipped == c ^ 0x20,
        ;
        assert(0x60 <= c <= 0x7e ==> flipped == c - 0x20) by (bit_vector)
            requires
                flipped == c ^ 0x20,
        ;
        flipped
    } else if 'A' <= character && character <= 'Z' {
        let raised: u8 = c | 0x80;
        assert(c < 0x80 ==> raised == c + 0x80) by (bit_vector)
            requires
                raised == c | 0x80,
        ;
        raised
    } else {
        c
    }
}

/// The display text of a PETSCII byte sequence, character by character.
pub open spec fn petscii_seq_to_ascii(input: Seq<u8>) -> Seq<char> {
    input.map_values(|b: u8| petscii_to_ascii_spec(b))
}

/// The PETSCII bytes of a text, character by character.
pub open spec fn ascii_seq_to_petscii(input: Seq<char>) -> Seq<u8> {
    input.map_values(|c: char| ascii_to_petscii_spec(c))
}

/// Converts a PETSCII byte sequence to the text that displays it.
pub fn petscii_str_to_ascii(input: &[u8]) -> (out: String)
    ensures
        out@ == petscii_seq_to_ascii(input@),
{
    let mut out = String::new();
    let mut i: usize = 0;
    while i < input.len()
        invariant
            i <= input.len(),
            out@ == petscii_seq_to_ascii(input@.take(i as int)),
        decreases input.len() - i,
    {
        out.push(petscii_to_ascii(input[i]));
        proof {
            assert(input@.take(i + 1) == input@.take(i as int).push(input@[i as int]));
        }
        i = i + 1;
    }
    proof {
        assert(input@.take(input.len() as int) == input@);
    }
    out
}

/// Converts a text to PETSCII bytes, one byte for each character.
pub fn ascii_str_to_petscii(input: &str) -> (out: Vec<u8>)
    ensures
        out@ == ascii_seq_to_petscii(input@),
{
    let mut out: Vec<u8> = Vec::new();
    for c in it: input.chars()
        invariant
            it.seq() == input@,
            out@ == ascii_seq_to_petscii(it.seq().take(it.index())),
    {
        out.push(ascii_to_petscii(c));
        proof {
            assert(it.seq().take(it.index() + 1) == it.seq().take(it.index()).push(c));
        }
    }
    proof {
        assert(input@.take(input@.len() as int) == input@);
    }
    out
}

/// Displaying a byte, encoding what is shown and displaying that again shows
/// the same character.
///
/// Four bytes are left out, because the law fails on them: `0x5f` is shown as
/// the unprintable `0x7f`, which encodes to itself; `0x60` is shown as a
/// backquote, which encodes to `0x40`; the shifted spaces `0xa0` and `0xe0`
/// are shown as a space, which encodes to `0x20` and is then shown as a dot.
pub proof fn lemma_display_round_trip(b: u8)
    requires
        b != 0x5f,
        b != 0x60,
        b != 0xa0,
        b != 0xe0,
    ensures
        petscii_to_ascii_spec(ascii_to_petscii_spec(petscii_to_ascii_spec(b)))
            == petscii_to_ascii_spec(b),
{
}

/// An ASCII character that is graphic and no backquote, or a newline, comes
/// back unchanged after encoding to PETSCII and displaying the result.
pub open spec fn survives_round_trip(c: char) -> bool {
    c == '\n' || (0x21 <= c as u32 <= 0x7e && c != '`')
}

/// Encoding such a character and displaying the byte gives the character back.
pub proof fn lemma_ascii_round_trip(c: char)
    requires
        survives_round_trip(c),
    ensures
        petscii_to_ascii_spec(ascii_to_petscii_spec(c)) == c,
{
}

} // verus!
