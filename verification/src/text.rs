//! Building lines of text: hexadecimal and decimal numbers, padding.

use vstd::prelude::*;
use vstd::string::{StrSliceExecFns, StringExecFns};

verus! {

/// The hexadecimal digit of `n`, a number below 16.
pub open spec fn hex_char(n: u8, upper: bool) -> char {
    match n {
        0 => '0',
        1 => '1',
        2 => '2',
        3 => '3',
        4 => '4',
        5 => '5',
        6 => '6',
        7 => '7',
        8 => '8',
        9 => '9',
        10 => if upper {
            'A'
        } else {
            'a'
        },
        11 => if upper {
            'B'
        } else {
            'b'
        },
        12 => if upper {
            'C'
        } else {
            'c'
        },
        13 => if upper {
            'D'
        } else {
            'd'
        },
        14 => if upper {
            'E'
        } else {
            'e'
        },
        _ => if upper {
            'F'
        } else {
            'f'
        },
    }
}

/// Two hexadecimal digits.
pub open spec fn hex2(byte: u8, upper: bool) -> Seq<char> {
    seq![hex_char(byte / 16, upper), hex_char(byte % 16, upper)]
}

/// Four hexadecimal digits.
pub open spec fn hex4(word: u16, upper: bool) -> Seq<char> {
    hex2((word / 256) as u8, upper) + hex2((word % 256) as u8, upper)
}

/// `n` in decimal, without leading zeros.
pub open spec fn decimal(n: nat) -> Seq<char>
    decreases n,
{
    if n < 10 {
        seq![hex_char(n as u8, true)]
    } else {
        decimal(n / 10).push(hex_char((n % 10) as u8, true))
    }
}

/// `n` in hexadecimal, without leading zeros.
pub open spec fn hex_number(n: nat, upper: bool) -> Seq<char>
    decreases n,
{
    if n < 16 {
        seq![hex_char(n as u8, upper)]
    } else {
        hex_number(n / 16, upper).push(hex_char((n % 16) as u8, upper))
    }
}

/// `count` spaces.
pub open spec fn spaces(count: int) -> Seq<char> {
    Seq::new(
        if count > 0 {
            count as nat
        } else {
            0
        },
        |i: int| ' ',
    )
}

/// `text` with spaces behind it, up to `width` characters.
pub open spec fn padded(text: Seq<char>, width: int) -> Seq<char> {
    text + spaces(width - text.len())
}

/// `text` with spaces in front of it, up to `width` characters.
pub open spec fn aligned_right(text: Seq<char>, width: int) -> Seq<char> {
    spaces(width - text.len()) + text
}

fn hex_digit(n: u8, upper: bool) -> (digit: &'static str)
    requires
        n < 16,
    ensures
        digit@ == seq![hex_char(n, upper)],
{
    proof {
        reveal_strlit("0");
        reveal_strlit("1");
        reveal_strlit("2");
        reveal_strlit("3");
        reveal_strlit("4");
        reveal_strlit("5");
        reveal_strlit("6");
        reveal_strlit("7");
        reveal_strlit("8");
        reveal_strlit("9");
        reveal_strlit("A");
        reveal_strlit("a");
        reveal_strlit("B");
        reveal_strlit("b");
        reveal_strlit("C");
        reveal_strlit("c");
        reveal_strlit("D");
        reveal_strlit("d");
        reveal_strlit("E");
        reveal_strlit("e");
        reveal_strlit("F");
        reveal_strlit("f");
    }
    let digit = match n {
        0 => "0",
        1 => "1",
        2 => "2",
        3 => "3",
        4 => "4",
        5 => "5",
        6 => "6",
        7 => "7",
        8 => "8",
        9 => "9",
        10 => if upper {
            "A"
        } else {
            "a"
        },
        11 => if upper {
            "B"
        } else {
            "b"
        },
        12 => if upper {
            "C"
        } else {
            "c"
        },
        13 => if upper {
            "D"
        } else {
            "d"
        },
        14 => if upper {
            "E"
        } else {
            "e"
        },
        _ => if upper {
            "F"
        } else {
            "f"
        },
    };
    assert(digit@ =~= seq![hex_char(n, upper)]);
    digit
}

pub fn push_hex2(out: &mut String, byte: u8, upper: bool)
    ensures
        final(out)@ == old(out)@ + hex2(byte, upper),
{
    out.append(hex_digit(byte / 16, upper));
    out.append(hex_digit(byte % 16, upper));
    assert(out@ =~= old(out)@ + hex2(byte, upper));
}

pub fn push_hex4(out: &mut String, word: u16, upper: bool)
    ensures
        final(out)@ == old(out)@ + hex4(word, upper),
{
    push_hex2(out, (word / 256) as u8, upper);
    push_hex2(out, (word % 256) as u8, upper);
    assert(out@ =~= old(out)@ + hex4(word, upper));
}

pub fn push_decimal(out: &mut String, n: usize)
    ensures
        final(out)@ == old(out)@ + decimal(n as nat),
    decreases n,
{
    if n >= 10 {
        push_decimal(out, n / 10);
    }
    out.append(hex_digit((n % 10) as u8, true));
    assert(out@ =~= old(out)@ + decimal(n as nat));
}

pub fn push_hex_number(out: &mut String, n: usize, upper: bool)
    ensures
        final(out)@ == old(out)@ + hex_number(n as nat, upper),
    decreases n,
{
    if n >= 16 {
        push_hex_number(out, n / 16, upper);
    }
    out.append(hex_digit((n % 16) as u8, upper));
    assert(out@ =~= old(out)@ + hex_number(n as nat, upper));
}

pub fn push_spaces(out: &mut String, count: usize)
    ensures
        final(out)@ == old(out)@ + spaces(count as int),
{
    let mut i: usize = 0;
    while i < count
        invariant
            i <= count,
            out@ == old(out)@ + spaces(i as int),
        decreases count - i,
    {
        proof {
            reveal_strlit(" ");
        }
        out.append(" ");
        i = i + 1;
        assert(out@ =~= old(out)@ + spaces(i as int));
    }
    assert(out@ =~= old(out)@ + spaces(count as int));
}

/// Appends `text`, padded with spaces behind it to `width` characters.
pub fn push_padded(out: &mut String, text: &str, width: usize)
    ensures
        final(out)@ == old(out)@ + padded(text@, width as int),
{
    out.append(text);
    let len = text.unicode_len();
    if len < width {
        push_spaces(out, width - len);
    } else {
        assert(spaces(width - len) =~= Seq::<char>::empty());
    }
    assert(out@ =~= old(out)@ + padded(text@, width as int));
}

/// Appends `text`, padded with spaces in front of it to `width` characters.
pub fn push_aligned_right(out: &mut String, text: &str, width: usize)
    ensures
        final(out)@ == old(out)@ + aligned_right(text@, width as int),
{
    let len = text.unicode_len();
    if len < width {
        push_spaces(out, width - len);
    } else {
        assert(spaces(width - len) =~= Seq::<char>::empty());
    }
    out.append(text);
    assert(out@ =~= old(out)@ + aligned_right(text@, width as int));
}

} // verus!
