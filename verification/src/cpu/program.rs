//! Test programs written as text: pairs of hexadecimal digits, with spaces
//! between them wherever the author likes.

use vstd::prelude::*;
use vstd::string::StringSliceAdditionalSpecFns;
use crate::bus::bus::CpuBus;
use crate::cpu::cpu::CPU;

verus! {

/// The value of a hexadecimal digit in ASCII, upper or lower case.
pub open spec fn hex_digit(c: u8) -> Option<u8> {
    if 0x30 <= c <= 0x39 {
        Some((c - 0x30) as u8)
    } else if 0x41 <= c <= 0x46 {
        Some((c - 0x41 + 10) as u8)
    } else if 0x61 <= c <= 0x66 {
        Some((c - 0x61 + 10) as u8)
    } else {
        None
    }
}

/// Text that decodes: an even number of hexadecimal digits.
pub open spec fn is_hex(text: Seq<u8>) -> bool {
    text.len() % 2 == 0 && forall|i: int|
        0 <= i < text.len() ==> hex_digit(#[trigger] text[i]) is Some
}

/// The bytes that `text` spells, two digits each, the high digit first.
pub open spec fn hex_bytes(text: Seq<u8>) -> Seq<u8> {
    Seq::new(
        text.len() / 2,
        |i: int| (hex_digit(text[2 * i]).unwrap() * 16 + hex_digit(text[2 * i + 1]).unwrap()) as u8,
    )
}

/// The first `count` bytes of `text` without the spaces among them.
pub open spec fn without_spaces(text: Seq<u8>, count: nat) -> Seq<u8>
    decreases count,
{
    if count == 0 {
        Seq::empty()
    } else if text[count - 1] == 0x20 {
        without_spaces(text, (count - 1) as nat)
    } else {
        without_spaces(text, (count - 1) as nat).push(text[count - 1])
    }
}

#[verifier::external_type_specification]
#[verifier::external_body]
pub struct ExFromHexError(hex::FromHexError);

/// `hex::decode`: decodes exactly the texts of an even number of upper or
/// lower case hexadecimal digits, each pair to one byte, high digit first.
/// Any other text is an error.
#[verifier::external_body]
fn hex_decode(text: &Vec<u8>) -> (decoded: Result<Vec<u8>, hex::FromHexError>)
    ensures
        decoded is Ok <==> is_hex(text@),
        decoded is Ok ==> decoded.unwrap()@ == hex_bytes(text@),
{
    hex::decode(text)
}

fn strip_spaces(text: &[u8]) -> (stripped: Vec<u8>)
    ensures
        stripped@ == without_spaces(text@, text@.len()),
{
    let mut stripped: Vec<u8> = Vec::new();
    let mut i: usize = 0;
    while i < text.len()
        invariant
            i <= text@.len(),
            stripped@ == without_spaces(text@, i as nat),
        decreases text@.len() - i,
    {
        if text[i] != 0x20 {
            stripped.push(text[i]);
        }
        i = i + 1;
    }
    stripped
}

/// The program that `s` spells, if its digits pair up: `None` when a
/// character is neither a hexadecimal digit nor a space, or when the number
/// of digits is odd.
pub fn parse_program(s: &str) -> (program: Option<Vec<u8>>)
    ensures
        program is Some <==> is_hex(without_spaces(s.spec_bytes(), s.spec_bytes().len())),
        program is Some ==> program.unwrap()@ == hex_bytes(
            without_spaces(s.spec_bytes(), s.spec_bytes().len()),
        ),
{
    let digits = strip_spaces(s.as_bytes());
    match hex_decode(&digits) {
        Ok(program) => Some(program),
        Err(_) => None,
    }
}

impl<B: CpuBus> CPU<B> {
    /// The program that `s` spells: `"a9 8d"` is the two bytes 0xA9, 0x8D.
    pub fn transform(s: &str) -> (program: Vec<u8>)
        requires
            is_hex(without_spaces(s.spec_bytes(), s.spec_bytes().len())),
        ensures
            program@ == hex_bytes(without_spaces(s.spec_bytes(), s.spec_bytes().len())),
    {
        match parse_program(s) {
            Some(program) => program,
            None => Vec::new(),
        }
    }
}

} // verus!
