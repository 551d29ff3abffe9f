//! Text building for the codec's diagnostics.
//!
//! Decoder errors carry a rendering of the offending wire value, and encoded
//! enum tags are lower-cased variant names, so the crate needs verified
//! decimal rendering of integers and an ASCII case fold.

use vstd::prelude::*;
use crate::wire::{WireSpec, WireValue};

verus! {

/// The decimal digit character for one digit value; unspecified outside 0..=9.
pub open spec fn digit_char(d: int) -> char {
    if d == 0 {
        '0'
    } else if d == 1 {
        '1'
    } else if d == 2 {
        '2'
    } else if d == 3 {
        '3'
    } else if d == 4 {
        '4'
    } else if d == 5 {
        '5'
    } else if d == 6 {
        '6'
    } else if d == 7 {
        '7'
    } else if d == 8 {
        '8'
    } else {
        '9'
    }
}

/// The decimal rendering of a natural number, most significant digit first.
pub open spec fn dec_digits(n: nat) -> Seq<char>
    decreases n,
{
    if n < 10 {
        seq![digit_char(n as int)]
    } else {
        dec_digits(n / 10).push(digit_char((n % 10) as int))
    }
}

/// The decimal rendering of an integer: a minus sign for negative values,
/// then the digits of the magnitude.
pub open spec fn int_str(v: int) -> Seq<char> {
    if v < 0 {
        seq!['-'] + dec_digits((-v) as nat)
    } else {
        dec_digits(v as nat)
    }
}

/// The one-character string for a digit value.
fn digit_str(d: u64) -> (s: &'static str)
    requires
        d < 10,
    ensures
        s@ =~= seq![digit_char(d as int)],
{
    proof {
        reveal_strlit("0");
        reveal_strlit("1");
        reveal_strlit("2");
        reveal_strlit("3");
        reveal_strlit("4");
        reveal_strlit("5");
        reveal_strlit("6");
        reveal_strlit("7");
        reveal_strlit("8");
        reveal_strlit("9");
    }
    match d {
        0 => "0",
        1 => "1",
        2 => "2",
        3 => "3",
        4 => "4",
        5 => "5",
        6 => "6",
        7 => "7",
        8 => "8",
        _ => "9",
    }
}

/// Renders an unsigned integer in decimal.
pub fn u64_to_string(n: u64) -> (s: String)
    ensures
        s@ == dec_digits(n as nat),
    decreases n,
{
    if n < 10 {
        String::from_str(digit_str(n))
    } else {
        let mut s = u64_to_string(n / 10);
        s.append(digit_str(n % 10));
        proof {
            assert(dec_digits(n as nat) =~= dec_digits(n as nat / 10) + seq![
                digit_char((n as nat % 10) as int),
            ]);
        }
        s
    }
}

/// Renders a signed integer in decimal.
pub fn i64_to_string(v: i64) -> (s: String)
    ensures
        s@ == int_str(v as int),
{
    if v >= 0 {
        u64_to_string(v as u64)
    } else {
        let m: u64 = if v == i64::MIN {
            9223372036854775808u64
        } else {
            (-v) as u64
        };
        assert(m as nat == (-(v as int)) as nat);
        let mut s = String::from_str("-");
        s.append(u64_to_string(m).as_str());
        proof {
            reveal_strlit("-");
            assert(int_str(v as int) =~= "-"@ + dec_digits(m as nat));
        }
        s
    }
}

/// The ASCII lower-case equivalent of one character; characters outside
/// `'A'..='Z'` are unchanged.
pub open spec fn ascii_lower_char(c: char) -> char {
    match c {
        'A' => 'a',
        'B' => 'b',
        'C' => 'c',
        'D' => 'd',
        'E' => 'e',
        'F' => 'f',
        'G' => 'g',
        'H' => 'h',
        'I' => 'i',
        'J' => 'j',
        'K' => 'k',
        'L' => 'l',
        'M' => 'm',
        'N' => 'n',
        'O' => 'o',
        'P' => 'p',
        'Q' => 'q',
        'R' => 'r',
        'S' => 's',
        'T' => 't',
        'U' => 'u',
        'V' => 'v',
        'W' => 'w',
        'X' => 'x',
        'Y' => 'y',
        'Z' => 'z',
        _ => c,
    }
}

/// The character-wise ASCII case fold of a string.
pub open spec fn ascii_lower(s: Seq<char>) -> Seq<char> {
    s.map(|_i: int, c: char| ascii_lower_char(c))
}

/// The one-character string for an upper-case ASCII letter's lower-case
/// equivalent, or `None` for a character the case fold leaves unchanged.
fn lower_char_str(c: char) -> (r: Option<&'static str>)
    ensures
        match r {
            Some(l) => l@ =~= seq![ascii_lower_char(c)],
            None => ascii_lower_char(c) == c,
        },
{
    proof {
        reveal_strlit("a");
        reveal_strlit("b");
        reveal_strlit("c");
        reveal_strlit("d");
        reveal_strlit("e");
        reveal_strlit("f");
        reveal_strlit("g");
        reveal_strlit("h");
        reveal_strlit("i");
        reveal_strlit("j");
        reveal_strlit("k");
        reveal_strlit("l");
        reveal_strlit("m");
        reveal_strlit("n");
        reveal_strlit("o");
        reveal_strlit("p");
        reveal_strlit("q");
        reveal_strlit("r");
        reveal_strlit("s");
        reveal_strlit("t");
        reveal_strlit("u");
        reveal_strlit("v");
        reveal_strlit("w");
        reveal_strlit("x");
        reveal_strlit("y");
        reveal_strlit("z");
    }
    match c {
        'A' => Some("a"),
        'B' => Some("b"),
        'C' => Some("c"),
        'D' => Some("d"),
        'E' => Some("e"),
        'F' => Some("f"),
        'G' => Some("g"),
        'H' => Some("h"),
        'I' => Some("i"),
        'J' => Some("j"),
        'K' => Some("k"),
        'L' => Some("l"),
        'M' => Some("m"),
        'N' => Some("n"),
        'O' => Some("o"),
        'P' => Some("p"),
        'Q' => Some("q"),
        'R' => Some("r"),
        'S' => Some("s"),
        'T' => Some("t"),
        'U' => Some("u"),
        'V' => Some("v"),
        'W' => Some("w"),
        'X' => Some("x"),
        'Y' => Some("y"),
        'Z' => Some("z"),
        _ => None,
    }
}

/// The character-wise ASCII case fold of a string: `'A'..='Z'` become
/// `'a'..='z'`, every other character is unchanged.
pub fn ascii_lowercase(s: &str) -> (r: String)
    ensures
        r@ == ascii_lower(s@),
{
    let n = s.unicode_len();
    let mut r = String::new();
    proof {
        assert(r@ =~= ascii_lower(s@).subrange(0, 0));
    }
    let mut i: usize = 0;
    while i < n
        invariant
            i <= n,
            n == s@.len(),
            r@ == ascii_lower(s@).subrange(0, i as int),
        decreases n - i,
    {
        let c = s.get_char(i);
        match lower_char_str(c) {
            Some(l) => {
                r.append(l);
            },
            None => {
                let piece = s.substring_char(i, i + 1);
                proof {
                    assert(piece@ =~= seq![s@[i as int]]);
                }
                r.append(piece);
            },
        }
        i = i + 1;
        proof {
            assert(r@ =~= ascii_lower(s@).subrange(0, i as int));
        }
    }
    proof {
        assert(ascii_lower(s@).subrange(0, s@.len() as int) =~= ascii_lower(s@));
    }
    r
}

/// The rendering of a wire value used in decoder diagnostics: numeric kinds
/// show their value, strings show their contents, composites show only their
/// kind.
pub open spec fn render_wire(w: WireSpec) -> Seq<char> {
    match w {
        WireSpec::Bool(b) => if b {
            "Bool(true)"@
        } else {
            "Bool(false)"@
        },
        WireSpec::Byte(n) => "Byte("@ + dec_digits(n as nat) + ")"@,
        WireSpec::Int16(n) => "Int16("@ + int_str(n as int) + ")"@,
        WireSpec::UInt16(n) => "UInt16("@ + dec_digits(n as nat) + ")"@,
        WireSpec::Int32(n) => "Int32("@ + int_str(n as int) + ")"@,
        WireSpec::UInt32(n) => "UInt32("@ + dec_digits(n as nat) + ")"@,
        WireSpec::Int64(n) => "Int64("@ + int_str(n as int) + ")"@,
        WireSpec::UInt64(n) => "UInt64("@ + dec_digits(n as nat) + ")"@,
        WireSpec::Double(_) => "Double"@,
        WireSpec::Str(s) => "Str(\""@ + s + "\")"@,
        WireSpec::ObjectPath(s) => "ObjectPath(\""@ + s + "\")"@,
        WireSpec::Array(_, _) => "Array"@,
        WireSpec::Struct(_) => "Struct"@,
    }
}

/// Renders a wire value for a decoder diagnostic.
pub fn render_value(v: &WireValue) -> (out: String)
    ensures
        out@ == render_wire(v@),
{
    match v {
        WireValue::Bool(b) => {
            if *b {
                String::from_str("Bool(true)")
            } else {
                String::from_str("Bool(false)")
            }
        },
        WireValue::Byte(n) => {
            let mut s = String::from_str("Byte(");
            s.append(u64_to_string(*n as u64).as_str());
            s.append(")");
            s
        },
        WireValue::Int16(n) => {
            let mut s = String::from_str("Int16(");
            s.append(i64_to_string(*n as i64).as_str());
            s.append(")");
            s
        },
        WireValue::UInt16(n) => {
            let mut s = String::from_str("UInt16(");
            s.append(u64_to_string(*n as u64).as_str());
            s.append(")");
            s
        },
        WireValue::Int32(n) => {
            let mut s = String::from_str("Int32(");
            s.append(i64_to_string(*n as i64).as_str());
            s.append(")");
            s
        },
        WireValue::UInt32(n) => {
            let mut s = String::from_str("UInt32(");
            s.append(u64_to_string(*n as u64).as_str());
            s.append(")");
            s
        },
        WireValue::Int64(n) => {
            let mut s = String::from_str("Int64(");
            s.append(i64_to_string(*n).as_str());
            s.append(")");
            s
        },
        WireValue::UInt64(n) => {
            let mut s = String::from_str("UInt64(");
            s.append(u64_to_string(*n).as_str());
            s.append(")");
            s
        },
        WireValue::Double(_) => String::from_str("Double"),
        WireValue::Str(inner) => {
            let mut s = String::from_str("Str(\"");
            s.append(inner.as_str());
            s.append("\")");
            s
        },
        WireValue::ObjectPath(inner) => {
            let mut s = String::from_str("ObjectPath(\"");
            s.append(inner.as_str());
            s.append("\")");
            s
        },
        WireValue::Array(_, _) => String::from_str("Array"),
        WireValue::Struct(_) => String::from_str("Struct"),
    }
}

} // verus!
