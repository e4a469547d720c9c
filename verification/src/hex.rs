//! Lowercase hexadecimal rendering of bytes and counters.

use vstd::prelude::*;
use vstd::string::*;
use vstd::utf8::is_ascii_chars;

verus! {

/// The sixteen lowercase hexadecimal digits, in order of value.
pub open spec fn hex_alphabet() -> Seq<char> {
    seq!['0', '1', '2', '3', '4', '5', '6', '7', '8', '9', 'a', 'b', 'c', 'd', 'e', 'f']
}

/// The digit that stands for `d`, for `d` below sixteen.
pub open spec fn hex_char(d: int) -> char
    recommends
        0 <= d < 16,
{
    hex_alphabet()[d]
}

/// The digits of `n` in base sixteen, most significant first, without
/// leading zeros (a single `0` for zero).
pub open spec fn hex_digits(n: nat) -> Seq<char>
    decreases n,
{
    if n < 16 {
        seq![hex_char(n as int)]
    } else {
        hex_digits(n / 16) + seq![hex_char((n % 16) as int)]
    }
}

/// `n` in base sixteen, padded with one leading zero where a single digit
/// would do: never fewer than two digits, never a digit dropped.
pub open spec fn hex_padded(n: nat) -> Seq<char> {
    if n < 16 {
        seq!['0'] + hex_digits(n)
    } else {
        hex_digits(n)
    }
}

/// The two digits of a byte.
pub open spec fn hex_byte(b: u8) -> Seq<char> {
    seq![hex_char(b as int / 16), hex_char(b as int % 16)]
}

/// The one-character string of a hexadecimal digit.
pub fn hex_digit_str(d: u8) -> (s: &'static str)
    requires
        d < 16,
    ensures
        s@ == seq![hex_char(d as int)],
{
    proof {
        reveal_strlit("0");
        reveal_strlit("1");
        reveal_strlit("2");
        reveal_strlit("3");
        reveal_strlit("4");
        reveal_strlit("5");
        reveal_strlit("6");
        reveal_strlit("7");
        reveal_strlit("8");
        reveal_strlit("9");
        reveal_strlit("a");
        reveal_strlit("b");
        reveal_strlit("c");
        reveal_strlit("d");
        reveal_strlit("e");
        reveal_strlit("f");
    }
    let s = match d {
        0 => "0",
        1 => "1",
        2 => "2",
        3 => "3",
        4 => "4",
        5 => "5",
        6 => "6",
        7 => "7",
        8 => "8",
        9 => "9",
        10 => "a",
        11 => "b",
        12 => "c",
        13 => "d",
        14 => "e",
        _ => "f",
    };
    assert(s@ =~= seq![hex_char(d as int)]);
    s
}

/// Appends the two digits of `b` to `out`.
pub fn push_hex_byte(out: &mut String, b: u8)
    ensures
        final(out)@ == old(out)@ + hex_byte(b),
{
    out.append(hex_digit_str(b / 16));
    out.append(hex_digit_str(b % 16));
    assert(out@ =~= old(out)@ + hex_byte(b));
}

/// Appends the digits of `n`, without leading zeros, to `out`.
pub fn push_hex_digits(out: &mut String, n: u32)
    ensures
        final(out)@ == old(out)@ + hex_digits(n as nat),
    decreases n,
{
    if n >= 16 {
        push_hex_digits(out, n / 16);
    }
    out.append(hex_digit_str((n % 16) as u8));
    assert(out@ =~= old(out)@ + hex_digits(n as nat));
}

/// Appends `n` to `out` in at least two digits.
pub fn push_hex_padded(out: &mut String, n: u32)
    ensures
        final(out)@ == old(out)@ + hex_padded(n as nat),
{
    if n < 16 {
        out.append("0");
        proof {
            reveal_strlit("0");
        }
    }
    push_hex_digits(out, n);
    assert(out@ =~= old(out)@ + hex_padded(n as nat));
}

/// A byte is rendered in exactly two digits, the same two that the padded
/// rendering of its value gives.
pub proof fn lemma_hex_byte_is_padded(b: u8)
    ensures
        hex_byte(b) == hex_padded(b as nat),
        hex_byte(b).len() == 2,
{
    let n = b as nat;
    if n < 16 {
        assert(hex_padded(n) =~= hex_byte(b));
    } else {
        assert(n / 16 < 16);
        assert(hex_digits(n) =~= hex_digits(n / 16) + seq![hex_char((n % 16) as int)]);
        assert(hex_padded(n) =~= hex_byte(b));
    }
}

/// Hexadecimal digits are plain ASCII, in each of the renderings.
pub proof fn lemma_hex_is_ascii(n: nat, b: u8)
    ensures
        is_ascii_chars(hex_digits(n)),
        is_ascii_chars(hex_padded(n)),
        is_ascii_chars(hex_byte(b)),
    decreases n,
{
    assert(forall|d: int| 0 <= d < 16 ==> '\0' <= #[trigger] hex_char(d) <= '\u{7f}');
    if n >= 16 {
        lemma_hex_is_ascii(n / 16, b);
    }
}

} // verus!
