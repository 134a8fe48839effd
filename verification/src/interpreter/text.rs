//! Bytes as text: which byte is a character on its own, and which byte a
//! line of input stands for.

use vstd::prelude::*;
use vstd::string::StrSliceExecFns;
use vstd::utf8::{decode_utf8, encode_utf8, valid_utf8};

verus! {

/// Whether `byte` alone is the UTF-8 encoding of a character.
pub open spec fn is_printable(byte: u8) -> bool {
    byte <= 0x7f
}

/// Whether the UTF-8 encoding of `c` is one byte long.
pub open spec fn is_single_byte(c: char) -> bool {
    c as u32 <= 0x7f
}

/// The byte that a line of input stands for: its first character, if the
/// line has one and that character is a single byte in UTF-8.
pub open spec fn line_byte(line: Seq<char>) -> Option<u8> {
    if line.len() > 0 && is_single_byte(line[0]) {
        Some(line[0] as u8)
    } else {
        None
    }
}

/// The bytes that are printable are those that are valid UTF-8 on their
/// own, and such a byte decodes to the character with its number.
pub proof fn lemma_printable_is_valid_utf8(byte: u8)
    ensures
        is_printable(byte) <==> valid_utf8(seq![byte]),
        is_printable(byte) ==> decode_utf8(seq![byte]) == seq![byte as char],
{
    let bytes = seq![byte];
    assert(bytes.len() == 1 && bytes[0] == byte);
    if is_printable(byte) {
        assert((byte & 0x7f) as u32 == byte as u32) by (bit_vector)
            requires
                byte <= 0x7f,
        ;
        assert(vstd::utf8::pop_first_scalar(bytes) =~= Seq::<u8>::empty());
        assert(valid_utf8(Seq::<u8>::empty()));
        assert(valid_utf8(bytes));
        assert(decode_utf8(Seq::<u8>::empty()) =~= Seq::<char>::empty());
        assert(decode_utf8(bytes) =~= seq![byte as char]);
    } else {
        assert(!vstd::utf8::valid_first_scalar(bytes));
    }
}

/// The characters of a single byte are those whose UTF-8 encoding is one
/// byte long, and that byte is the character's number.
pub proof fn lemma_single_byte_is_utf8_length_one(c: char)
    ensures
        is_single_byte(c) <==> encode_utf8(seq![c]).len() == 1,
        is_single_byte(c) ==> encode_utf8(seq![c]) == seq![c as u8],
{
    let chars = seq![c];
    assert(chars.drop_first() =~= Seq::<char>::empty());
    assert(encode_utf8(Seq::<char>::empty()) =~= Seq::<u8>::empty());
    assert(encode_utf8(chars) =~= vstd::utf8::encode_scalar(c as u32));
    let scalar: u32 = c as u32;
    if is_single_byte(c) {
        assert((scalar & 0x7f) as u8 == scalar as u8) by (bit_vector)
            requires
                scalar <= 0x7f,
        ;
    }
}

/// The character that `byte` encodes on its own, if it encodes one.
pub fn printable_char(byte: u8) -> (text: Option<char>)
    ensures
        is_printable(byte) ==> text == Some(byte as char),
        !is_printable(byte) ==> text.is_none(),
        text is Some <==> valid_utf8(seq![byte]),
        text matches Some(c) ==> decode_utf8(seq![byte]) == seq![c],
{
    proof {
        lemma_printable_is_valid_utf8(byte);
    }
    if byte <= 0x7f {
        Some(byte as char)
    } else {
        None
    }
}

/// The byte that a line of input stands for.
pub fn first_byte(line: &str) -> (byte: Option<u8>)
    ensures
        byte == line_byte(line@),
        byte is Some <==> line@.len() > 0 && encode_utf8(seq![line@[0]]).len() == 1,
        byte matches Some(b) ==> encode_utf8(seq![line@[0]]) == seq![b],
{
    broadcast use vstd::string::group_string_axioms;

    proof {
        if line@.len() > 0 {
            lemma_single_byte_is_utf8_length_one(line@[0]);
        }
    }

    let mut chars = line.chars();
    match chars.next() {
        Some(first_char) => {
            if first_char as u32 <= 0x7f {
                Some(first_char as u8)
            } else {
                None
            }
        },
        None => None,
    }
}

} // verus!
