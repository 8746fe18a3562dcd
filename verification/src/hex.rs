//! Hexadecimal rendering of byte strings, used for connection-id diagnostics
//! and certificate fingerprints.

use vstd::prelude::*;
use vstd::string::StringExecFns;

verus! {

/// The lower-case hex digit for a value below sixteen.
pub open spec fn spec_hex_digit_lower(n: u8) -> char
    recommends
        n < 16,
{
    if n == 0 {
        '0'
    } else if n == 1 {
        '1'
    } else if n == 2 {
        '2'
    } else if n == 3 {
        '3'
    } else if n == 4 {
        '4'
    } else if n == 5 {
        '5'
    } else if n == 6 {
        '6'
    } else if n == 7 {
        '7'
    } else if n == 8 {
        '8'
    } else if n == 9 {
        '9'
    } else if n == 10 {
        'a'
    } else if n == 11 {
        'b'
    } else if n == 12 {
        'c'
    } else if n == 13 {
        'd'
    } else if n == 14 {
        'e'
    } else {
        'f'
    }
}

/// The upper-case hex digit for a value below sixteen.
pub open spec fn spec_hex_digit_upper(n: u8) -> char
    recommends
        n < 16,
{
    if n < 10 {
        spec_hex_digit_lower(n)
    } else if n == 10 {
        'A'
    } else if n == 11 {
        'B'
    } else if n == 12 {
        'C'
    } else if n == 13 {
        'D'
    } else if n == 14 {
        'E'
    } else {
        'F'
    }
}

/// The two lower-case hex digits of one byte, high nibble first.
pub open spec fn spec_hex_byte_lower(b: u8) -> Seq<char> {
    seq![spec_hex_digit_lower(b / 16), spec_hex_digit_lower(b % 16)]
}

/// The two upper-case hex digits of one byte, high nibble first.
pub open spec fn spec_hex_byte_upper(b: u8) -> Seq<char> {
    seq![spec_hex_digit_upper(b / 16), spec_hex_digit_upper(b % 16)]
}

/// Lower-case hex rendering of a byte string, two digits per byte.
pub open spec fn spec_hex_lower(data: Seq<u8>) -> Seq<char>
    decreases data.len(),
{
    if data.len() == 0 {
        Seq::empty()
    } else {
        spec_hex_lower(data.drop_last()) + spec_hex_byte_lower(data.last())
    }
}

/// The lower-case hex digit of a value below sixteen, as a one-character
/// string slice.
fn hex_digit_lower(n: u8) -> (r: &'static str)
    requires
        n < 16,
    ensures
        r@ == seq![spec_hex_digit_lower(n)],
{
    let r: &'static str = match n {
        0 => "0",
        1 => "1",
        2 => "2",
        3 => "3",
        4 => "4",
        5 => "5",
        6 => "6",
        7 => "7",
        8 => "8",
        9 => "9",
        10 => "a",
        11 => "b",
        12 => "c",
        13 => "d",
        14 => "e",
        _ => "f",
    };
    proof {
        reveal_strlit("0");
        reveal_strlit("1");
        reveal_strlit("2");
        reveal_strlit("3");
        reveal_strlit("4");
        reveal_strlit("5");
        reveal_strlit("6");
        reveal_strlit("7");
        reveal_strlit("8");
        reveal_strlit("9");
        reveal_strlit("a");
        reveal_strlit("b");
        reveal_strlit("c");
        reveal_strlit("d");
        reveal_strlit("e");
        reveal_strlit("f");
        assert(r@ =~= seq![spec_hex_digit_lower(n)]);
    }
    r
}

/// The upper-case hex digit of a value below sixteen, as a one-character
/// string slice.
fn hex_digit_upper(n: u8) -> (r: &'static str)
    requires
        n < 16,
    ensures
        r@ == seq![spec_hex_digit_upper(n)],
{
    let r: &'static str = match n {
        0 => "0",
        1 => "1",
        2 => "2",
        3 => "3",
        4 => "4",
        5 => "5",
        6 => "6",
        7 => "7",
        8 => "8",
        9 => "9",
        10 => "A",
        11 => "B",
        12 => "C",
        13 => "D",
        14 => "E",
        _ => "F",
    };
    proof {
        reveal_strlit("0");
        reveal_strlit("1");
        reveal_strlit("2");
        reveal_strlit("3");
        reveal_strlit("4");
        reveal_strlit("5");
        reveal_strlit("6");
        reveal_strlit("7");
        reveal_strlit("8");
        reveal_strlit("9");
        reveal_strlit("A");
        reveal_strlit("B");
        reveal_strlit("C");
        reveal_strlit("D");
        reveal_strlit("E");
        reveal_strlit("F");
        assert(r@ =~= seq![spec_hex_digit_upper(n)]);
    }
    r
}

/// Appends the two lower-case hex digits of a byte.
pub(crate) fn append_hex_byte_lower(out: &mut String, b: u8)
    ensures
        final(out)@ == old(out)@ + spec_hex_byte_lower(b),
{
    out.append(hex_digit_lower(b / 16));
    out.append(hex_digit_lower(b % 16));
    assert(out@ =~= old(out)@ + spec_hex_byte_lower(b));
}

/// Appends the two upper-case hex digits of a byte.
pub(crate) fn append_hex_byte_upper(out: &mut String, b: u8)
    ensures
        final(out)@ == old(out)@ + spec_hex_byte_upper(b),
{
    out.append(hex_digit_upper(b / 16));
    out.append(hex_digit_upper(b % 16));
    assert(out@ =~= old(out)@ + spec_hex_byte_upper(b));
}

/// Renders a byte string as lower-case hex, two digits per byte.
pub fn hex_lower(data: &[u8]) -> (r: String)
    ensures
        r@ == spec_hex_lower(data@),
{
    let mut out = String::new();
    assert(data@.take(0) =~= Seq::<u8>::empty());
    for i in 0..data.len()
        invariant
            out@ == spec_hex_lower(data@.take(i as int)),
    {
        append_hex_byte_lower(&mut out, data[i]);
        assert(data@.take(i + 1).drop_last() =~= data@.take(i as int));
        assert(data@.take(i + 1).last() == data@[i as int]);
    }
    assert(data@.take(data@.len() as int) =~= data@);
    out
}

} // verus!
