//! Text forms of decoded values: decimal numbers, lists of numbers and hex
//! dumps of raw bytes.

use vstd::prelude::*;

verus! {

/// The digit of value `d` (below 16), upper case past 9.
pub open spec fn digit_char(d: int) -> char {
    if d < 10 {
        (d + 48) as u8 as char
    } else {
        (d + 55) as u8 as char
    }
}

/// The decimal digits of `n`, without leading zeros.
pub open spec fn decimal(n: nat) -> Seq<char>
    decreases n,
{
    if n < 10 {
        seq![digit_char(n as int)]
    } else {
        decimal(n / 10).push(digit_char((n % 10) as int))
    }
}

/// An integer in decimal, with a leading minus sign when it is negative.
pub open spec fn int_text(i: int) -> Seq<char> {
    if i < 0 {
        seq!['-'] + decimal((-i) as nat)
    } else {
        decimal(i as nat)
    }
}

/// The integers of `s` in decimal, separated by ", ".
pub open spec fn joined(s: Seq<int>) -> Seq<char>
    decreases s.len(),
{
    if s.len() == 0 {
        seq![]
    } else if s.len() == 1 {
        int_text(s[0])
    } else {
        joined(s.drop_last()) + ", "@ + int_text(s.last())
    }
}

/// A list of integers as text: a single value alone, two or more in brackets.
pub open spec fn list_text(s: Seq<int>) -> Seq<char> {
    if s.len() > 1 {
        "["@ + joined(s) + "]"@
    } else {
        joined(s)
    }
}

/// Each byte of `s` as two hex digits followed by a space.
pub open spec fn hex_pairs(s: Seq<u8>) -> Seq<char>
    decreases s.len(),
{
    if s.len() == 0 {
        seq![]
    } else {
        hex_pairs(s.drop_last()) + seq![
            digit_char(s.last() as int / 16),
            digit_char(s.last() as int % 16),
            ' ',
        ]
    }
}

/// The longest run of bytes that a hex dump shows.
pub const HEX_DUMP_BYTES: usize = 20;

/// Past this many bytes a hex dump is marked as truncated.
pub const HEX_DUMP_MARK_AFTER: usize = 30;

/// A hex dump of at most the first twenty bytes, marked as truncated when
/// there are more than thirty.
pub open spec fn hex_dump(b: Seq<u8>) -> Seq<char> {
    let shown = if b.len() > HEX_DUMP_BYTES {
        b.take(HEX_DUMP_BYTES as int)
    } else {
        b
    };
    hex_pairs(shown) + (if b.len() > HEX_DUMP_MARK_AFTER {
        "(truncated)"@
    } else {
        seq![]
    })
}

/// The one-character string of digit `d`.
fn digit_str(d: u64) -> (r: &'static str)
    requires
        d < 16,
    ensures
        r@ == seq![digit_char(d as int)],
{
    proof {
        reveal_strlit("0");
        reveal_strlit("1");
        reveal_strlit("2");
        reveal_strlit("3");
        reveal_strlit("4");
        reveal_strlit("5");
        reveal_strlit("6");
        reveal_strlit("7");
        reveal_strlit("8");
        reveal_strlit("9");
        reveal_strlit("A");
        reveal_strlit("B");
        reveal_strlit("C");
        reveal_strlit("D");
        reveal_strlit("E");
        reveal_strlit("F");
    }
    match d {
        0 => "0",
        1 => "1",
        2 => "2",
        3 => "3",
        4 => "4",
        5 => "5",
        6 => "6",
        7 => "7",
        8 => "8",
        9 => "9",
        10 => "A",
        11 => "B",
        12 => "C",
        13 => "D",
        14 => "E",
        _ => "F",
    }
}

/// Appends the decimal digits of `n` to `s`.
fn push_decimal(s: &mut String, n: u64)
    ensures
        final(s)@ == old(s)@ + decimal(n as nat),
    decreases n,
{
    if n < 10 {
        s.append(digit_str(n));
    } else {
        push_decimal(s, n / 10);
        s.append(digit_str(n % 10));
    }
}

/// `n` in decimal.
pub fn decimal_string(n: u64) -> (r: String)
    ensures
        r@ == decimal(n as nat),
{
    let mut s = String::new();
    push_decimal(&mut s, n);
    s
}

/// Appends `v` in decimal, with a minus sign when it is negative.
fn push_int(s: &mut String, v: i64)
    ensures
        final(s)@ == old(s)@ + int_text(v as int),
{
    if v < 0 {
        s.append("-");
        let magnitude: u64 = ((-(v + 1)) as u64) + 1;
        push_decimal(s, magnitude);
        proof {
            reveal_strlit("-");
        }
    } else {
        push_decimal(s, v as u64);
    }
}

/// The values of `collection` in decimal: one value alone, several separated
/// by ", " within brackets, none as the empty string.
pub fn vec_to_string(collection: &Vec<i64>) -> (r: String)
    ensures
        r@ == list_text(collection@.map_values(|v: i64| v as int)),
{
    let ghost vals = collection@.map_values(|v: i64| v as int);
    let mut str_form = String::new();
    if collection.len() > 1 {
        str_form.append("[");
    }
    let ghost start = str_form@;
    let mut i: usize = 0;
    while i < collection.len()
        invariant
            i <= collection@.len(),
            vals == collection@.map_values(|v: i64| v as int),
            start == (if collection@.len() > 1 {
                "["@
            } else {
                seq![]
            }),
            str_form@ == start + joined(vals.take(i as int)),
        decreases collection@.len() - i,
    {
        if i > 0 {
            str_form.append(", ");
        }
        push_int(&mut str_form, collection[i]);
        proof {
            let t = vals.take(i as int + 1);
            assert(t.drop_last() =~= vals.take(i as int));
            assert(t.last() == collection@[i as int] as int);
            if i == 0 {
                assert(vals.take(0) =~= Seq::<int>::empty());
            }
        }
        i = i + 1;
    }
    if collection.len() > 1 {
        str_form.append("]");
    }
    proof {
        assert(vals.take(collection@.len() as int) =~= vals);
    }
    str_form
}

/// The first twenty bytes as hex pairs, each followed by a space, then
/// "(truncated)" when there are more than thirty bytes.
pub fn format_bytes(bytes: &Vec<u8>) -> (r: String)
    ensures
        r@ == hex_dump(bytes@),
{
    let mut hex_form = String::new();
    let n = if bytes.len() > HEX_DUMP_BYTES {
        HEX_DUMP_BYTES
    } else {
        bytes.len()
    };
    let mut i: usize = 0;
    while i < n
        invariant
            i <= n <= bytes@.len(),
            n == (if bytes@.len() > HEX_DUMP_BYTES {
                HEX_DUMP_BYTES as int
            } else {
                bytes@.len() as int
            }),
            hex_form@ == hex_pairs(bytes@.take(i as int)),
        decreases n - i,
    {
        let b = bytes[i];
        hex_form.append(digit_str((b / 16) as u64));
        hex_form.append(digit_str((b % 16) as u64));
        hex_form.append(" ");
        proof {
            reveal_strlit(" ");
            let t = bytes@.take(i as int + 1);
            assert(t.drop_last() =~= bytes@.take(i as int));
        }
        i = i + 1;
    }
    proof {
        if bytes@.len() <= HEX_DUMP_BYTES {
            assert(bytes@.take(n as int) =~= bytes@);
        }
    }
    if bytes.len() > HEX_DUMP_MARK_AFTER {
        hex_form.append("(truncated)");
    }
    hex_form
}

} // verus!
