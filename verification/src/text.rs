//! Exact decimal and hexadecimal rendering of the attribute values that the
//! configuration report prints.

use vstd::prelude::*;
use vstd::string::StringExecFns;

verus! {

/// The character for one digit value below sixteen.
pub open spec fn digit_char(d: nat) -> char {
    if d == 0 {
        '0'
    } else if d == 1 {
        '1'
    } else if d == 2 {
        '2'
    } else if d == 3 {
        '3'
    } else if d == 4 {
        '4'
    } else if d == 5 {
        '5'
    } else if d == 6 {
        '6'
    } else if d == 7 {
        '7'
    } else if d == 8 {
        '8'
    } else if d == 9 {
        '9'
    } else if d == 10 {
        'a'
    } else if d == 11 {
        'b'
    } else if d == 12 {
        'c'
    } else if d == 13 {
        'd'
    } else if d == 14 {
        'e'
    } else {
        'f'
    }
}

/// The decimal digits of `n`, most significant first, with no sign and no
/// leading zero except for `n == 0` itself.
pub open spec fn dec_digits(n: nat) -> Seq<char>
    decreases n,
{
    if n < 10 {
        seq![digit_char(n)]
    } else {
        dec_digits(n / 10) + seq![digit_char(n % 10)]
    }
}

/// The hexadecimal digits of `n`, lower case, most significant first.
pub open spec fn hex_digits(n: nat) -> Seq<char>
    decreases n,
{
    if n < 16 {
        seq![digit_char(n)]
    } else {
        hex_digits(n / 16) + seq![digit_char(n % 16)]
    }
}

/// A signed value in decimal: a minus sign ahead of the digits of its
/// magnitude.
pub open spec fn spec_decimal(n: int) -> Seq<char> {
    if n < 0 {
        seq!['-'] + dec_digits((-n) as nat)
    } else {
        dec_digits(n as nat)
    }
}

/// A 32-bit pattern in hexadecimal behind the customary `0x` prefix.
pub open spec fn spec_hex_prefixed(n: u32) -> Seq<char> {
    seq!['0', 'x'] + hex_digits(n as nat)
}

/// The one-character string for a digit value below sixteen.
fn digit_str(d: u32) -> (r: &'static str)
    requires
        d < 16,
    ensures
        r@ == seq![digit_char(d as nat)],
{
    proof {
        reveal_strlit("0");
        reveal_strlit("1");
        reveal_strlit("2");
        reveal_strlit("3");
        reveal_strlit("4");
        reveal_strlit("5");
        reveal_strlit("6");
        reveal_strlit("7");
        reveal_strlit("8");
        reveal_strlit("9");
        reveal_strlit("a");
        reveal_strlit("b");
        reveal_strlit("c");
        reveal_strlit("d");
        reveal_strlit("e");
        reveal_strlit("f");
    }
    let r = match d {
        0 => "0",
        1 => "1",
        2 => "2",
        3 => "3",
        4 => "4",
        5 => "5",
        6 => "6",
        7 => "7",
        8 => "8",
        9 => "9",
        10 => "a",
        11 => "b",
        12 => "c",
        13 => "d",
        14 => "e",
        _ => "f",
    };
    proof {
        assert(r@ =~= seq![digit_char(d as nat)]);
    }
    r
}

/// Appends the decimal digits of `n`.
pub fn push_dec_digits(out: &mut String, n: u32)
    ensures
        final(out)@ == old(out)@ + dec_digits(n as nat),
    decreases n,
{
    if n < 10 {
        out.append(digit_str(n));
    } else {
        push_dec_digits(out, n / 10);
        out.append(digit_str(n % 10));
        proof {
            assert(final(out)@ =~= old(out)@ + dec_digits(n as nat));
        }
    }
}

/// Appends the hexadecimal digits of `n`.
pub fn push_hex_digits(out: &mut String, n: u32)
    ensures
        final(out)@ == old(out)@ + hex_digits(n as nat),
    decreases n,
{
    if n < 16 {
        out.append(digit_str(n));
    } else {
        push_hex_digits(out, n / 16);
        out.append(digit_str(n % 16));
        proof {
            assert(final(out)@ =~= old(out)@ + hex_digits(n as nat));
        }
    }
}

/// Appends a signed attribute value in decimal.
pub fn push_decimal(out: &mut String, n: i32)
    ensures
        final(out)@ == old(out)@ + spec_decimal(n as int),
{
    if n < 0 {
        out.append("-");
        proof {
            reveal_strlit("-");
            assert("-"@ =~= seq!['-']);
        }
        let m: u32 = (-(n as i64)) as u32;
        push_dec_digits(out, m);
        proof {
            assert(final(out)@ =~= old(out)@ + spec_decimal(n as int));
        }
    } else {
        push_dec_digits(out, n as u32);
    }
}

/// Appends the bit pattern of a signed attribute value as prefixed
/// hexadecimal, as the report prints masks and identifiers.
pub fn push_hex_prefixed(out: &mut String, n: i32)
    ensures
        final(out)@ == old(out)@ + spec_hex_prefixed(n as u32),
{
    out.append("0x");
    proof {
        reveal_strlit("0x");
        assert("0x"@ =~= seq!['0', 'x']);
    }
    push_hex_digits(out, n as u32);
    proof {
        assert(final(out)@ =~= old(out)@ + spec_hex_prefixed(n as u32));
    }
}

/// Renders a signed value in decimal.
pub fn decimal_string(n: i32) -> (r: String)
    ensures
        r@ == spec_decimal(n as int),
{
    let mut out = String::new();
    push_decimal(&mut out, n);
    proof {
        assert(out@ =~= spec_decimal(n as int));
    }
    out
}

/// Renders the bit pattern of a signed value as prefixed hexadecimal.
pub fn hex_string(n: i32) -> (r: String)
    ensures
        r@ == spec_hex_prefixed(n as u32),
{
    let mut out = String::new();
    push_hex_prefixed(&mut out, n);
    proof {
        assert(out@ =~= spec_hex_prefixed(n as u32));
    }
    out
}

} // verus!
