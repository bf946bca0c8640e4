//! Hex and decimal text formatting with exact character-level contracts.
//!
//! Wire bytes leave the library as space-separated uppercase hex pairs; the
//! comparison report also prints small decimal counts. Both are specified
//! here as functions from byte sequences to character sequences.

use vstd::prelude::*;

verus! {

/// The uppercase hex digit for a value in 0..16.
pub open spec fn spec_hex_digit(n: int) -> char {
    if n == 0 {
        '0'
    } else if n == 1 {
        '1'
    } else if n == 2 {
        '2'
    } else if n == 3 {
        '3'
    } else if n == 4 {
        '4'
    } else if n == 5 {
        '5'
    } else if n == 6 {
        '6'
    } else if n == 7 {
        '7'
    } else if n == 8 {
        '8'
    } else if n == 9 {
        '9'
    } else if n == 10 {
        'A'
    } else if n == 11 {
        'B'
    } else if n == 12 {
        'C'
    } else if n == 13 {
        'D'
    } else if n == 14 {
        'E'
    } else {
        'F'
    }
}

/// A byte as two uppercase hex digits.
pub open spec fn spec_hex_byte(b: u8) -> Seq<char> {
    seq![spec_hex_digit(b as int / 16), spec_hex_digit(b as int % 16)]
}

/// A byte sequence as space-separated uppercase hex pairs.
pub open spec fn spec_hex_line(data: Seq<u8>) -> Seq<char>
    decreases data.len(),
{
    if data.len() == 0 {
        Seq::empty()
    } else if data.len() == 1 {
        spec_hex_byte(data[0])
    } else {
        spec_hex_byte(data[0]) + seq![' '] + spec_hex_line(data.skip(1))
    }
}

/// A small count in decimal (no leading zeros, `0` for zero).
pub open spec fn spec_decimal_u8(n: u8) -> Seq<char> {
    if n < 10 {
        seq![spec_hex_digit(n as int)]
    } else if n < 100 {
        seq![spec_hex_digit(n as int / 10), spec_hex_digit(n as int % 10)]
    } else {
        seq![
            spec_hex_digit(n as int / 100),
            spec_hex_digit((n as int / 10) % 10),
            spec_hex_digit(n as int % 10),
        ]
    }
}

/// The single-character string for a digit value in 0..16.
pub fn digit_str(n: u8) -> (r: &'static str)
    requires
        n < 16,
    ensures
        r@ == seq![spec_hex_digit(n as int)],
{
    let r: &'static str = match n {
        0 => "0",
        1 => "1",
        2 => "2",
        3 => "3",
        4 => "4",
        5 => "5",
        6 => "6",
        7 => "7",
        8 => "8",
        9 => "9",
        10 => "A",
        11 => "B",
        12 => "C",
        13 => "D",
        14 => "E",
        _ => "F",
    };
    proof {
        reveal_strlit("0");
        reveal_strlit("1");
        reveal_strlit("2");
        reveal_strlit("3");
        reveal_strlit("4");
        reveal_strlit("5");
        reveal_strlit("6");
        reveal_strlit("7");
        reveal_strlit("8");
        reveal_strlit("9");
        reveal_strlit("A");
        reveal_strlit("B");
        reveal_strlit("C");
        reveal_strlit("D");
        reveal_strlit("E");
        reveal_strlit("F");
        assert(r@ =~= seq![spec_hex_digit(n as int)]);
    }
    r
}

/// Appending one byte extends the hex line by a separator (when non-empty)
/// and the byte's two digits.
pub proof fn lemma_hex_line_push(data: Seq<u8>, b: u8)
    ensures
        data.len() == 0 ==> spec_hex_line(data.push(b)) == spec_hex_byte(b),
        data.len() > 0 ==> spec_hex_line(data.push(b)) == spec_hex_line(data) + seq![' ']
            + spec_hex_byte(b),
    decreases data.len(),
{
    if data.len() == 0 {
        assert(data.push(b) =~= seq![b]);
        assert(spec_hex_line(seq![b]) == spec_hex_byte(b));
    } else if data.len() == 1 {
        assert(data.push(b).skip(1) =~= seq![b]);
        assert(spec_hex_line(data.push(b)) == spec_hex_byte(data[0]) + seq![' '] + spec_hex_line(
            seq![b],
        ));
    } else {
        lemma_hex_line_push(data.skip(1), b);
        assert(data.push(b).skip(1) =~= data.skip(1).push(b));
        assert(spec_hex_line(data.skip(1).push(b)) == spec_hex_line(data.skip(1)) + seq![' ']
            + spec_hex_byte(b));
        assert(spec_hex_line(data.push(b)) =~= spec_hex_line(data) + seq![' '] + spec_hex_byte(b));
    }
}

/// Format packet bytes as space-separated uppercase hex pairs.
pub fn format_hex(data: &[u8]) -> (r: String)
    ensures
        r@ == spec_hex_line(data@),
{
    let mut s = String::new();
    let mut i: usize = 0;
    while i < data.len()
        invariant
            i <= data@.len(),
            s@ == spec_hex_line(data@.take(i as int)),
        decreases data@.len() - i,
    {
        proof {
            reveal_strlit(" ");
            lemma_hex_line_push(data@.take(i as int), data@[i as int]);
            assert(data@.take(i as int).push(data@[i as int]) =~= data@.take(i as int + 1));
        }
        if i > 0 {
            s.append(" ");
        }
        let b = data[i];
        s.append(digit_str(b / 16));
        s.append(digit_str(b % 16));
        proof {
            assert(s@ =~= spec_hex_line(data@.take(i as int + 1)));
        }
        i = i + 1;
    }
    proof {
        assert(data@.take(data@.len() as int) =~= data@);
    }
    s
}

/// Format one byte as its two uppercase hex digits.
pub fn format_hex_byte(b: u8) -> (r: String)
    ensures
        r@ == spec_hex_byte(b),
{
    let mut s = String::new();
    s.append(digit_str(b / 16));
    s.append(digit_str(b % 16));
    proof {
        assert(s@ =~= spec_hex_byte(b));
    }
    s
}

/// Lines joined by a separator, with no trailing separator.
pub open spec fn spec_join_lines(lines: Seq<Seq<char>>, sep: Seq<char>) -> Seq<char>
    decreases lines.len(),
{
    if lines.len() == 0 {
        Seq::empty()
    } else if lines.len() == 1 {
        lines[0]
    } else {
        lines[0] + sep + spec_join_lines(lines.skip(1), sep)
    }
}

/// Appending one line extends the join by a separator when it was non-empty.
pub proof fn lemma_join_lines_push(lines: Seq<Seq<char>>, sep: Seq<char>, line: Seq<char>)
    ensures
        lines.len() == 0 ==> spec_join_lines(lines.push(line), sep) == line,
        lines.len() > 0 ==> spec_join_lines(lines.push(line), sep) == spec_join_lines(lines, sep)
            + sep + line,
    decreases lines.len(),
{
    if lines.len() == 0 {
        assert(lines.push(line) =~= seq![line]);
    } else if lines.len() == 1 {
        assert(lines.push(line).skip(1) =~= seq![line]);
        assert(spec_join_lines(lines.push(line), sep) == lines[0] + sep + spec_join_lines(
            seq![line],
            sep,
        ));
    } else {
        lemma_join_lines_push(lines.skip(1), sep, line);
        assert(lines.push(line).skip(1) =~= lines.skip(1).push(line));
        assert(spec_join_lines(lines.push(line), sep) =~= spec_join_lines(lines, sep) + sep
            + line);
    }
}

/// Format a small count in decimal.
pub fn format_decimal_u8(n: u8) -> (r: String)
    ensures
        r@ == spec_decimal_u8(n),
{
    let mut s = String::new();
    if n >= 100 {
        s.append(digit_str(n / 100));
    }
    if n >= 10 {
        s.append(digit_str((n / 10) % 10));
    }
    s.append(digit_str(n % 10));
    proof {
        assert(s@ =~= spec_decimal_u8(n));
    }
    s
}

} // verus!
