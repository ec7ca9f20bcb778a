//! Numbers as text.

use vstd::prelude::*;
use vstd::string::StringExecFns;

verus! {

/// The digit for a value below sixteen, in lower case.
pub open spec fn digit_char(d: int) -> char {
    if d == 0 {
        '0'
    } else if d == 1 {
        '1'
    } else if d == 2 {
        '2'
    } else if d == 3 {
        '3'
    } else if d == 4 {
        '4'
    } else if d == 5 {
        '5'
    } else if d == 6 {
        '6'
    } else if d == 7 {
        '7'
    } else if d == 8 {
        '8'
    } else if d == 9 {
        '9'
    } else if d == 10 {
        'a'
    } else if d == 11 {
        'b'
    } else if d == 12 {
        'c'
    } else if d == 13 {
        'd'
    } else if d == 14 {
        'e'
    } else {
        'f'
    }
}

/// The digit for a value below sixteen, in upper case.
pub open spec fn upper_digit(d: int) -> char {
    if d == 10 {
        'A'
    } else if d == 11 {
        'B'
    } else if d == 12 {
        'C'
    } else if d == 13 {
        'D'
    } else if d == 14 {
        'E'
    } else if d == 15 {
        'F'
    } else {
        digit_char(d)
    }
}

fn digit_text(d: u8) -> (r: &'static str)
    requires
        d < 16,
    ensures
        r@ == seq![digit_char(d as int)],
{
    proof {
        reveal_strlit("0");
        reveal_strlit("1");
        reveal_strlit("2");
        reveal_strlit("3");
        reveal_strlit("4");
        reveal_strlit("5");
        reveal_strlit("6");
        reveal_strlit("7");
        reveal_strlit("8");
        reveal_strlit("9");
        reveal_strlit("a");
        reveal_strlit("b");
        reveal_strlit("c");
        reveal_strlit("d");
        reveal_strlit("e");
        reveal_strlit("f");
    }
    let r = match d {
        0 => "0",
        1 => "1",
        2 => "2",
        3 => "3",
        4 => "4",
        5 => "5",
        6 => "6",
        7 => "7",
        8 => "8",
        9 => "9",
        10 => "a",
        11 => "b",
        12 => "c",
        13 => "d",
        14 => "e",
        _ => "f",
    };
    proof {
        assert(r@ =~= seq![digit_char(d as int)]);
    }
    r
}

fn upper_digit_text(d: u8) -> (r: &'static str)
    requires
        d < 16,
    ensures
        r@ == seq![upper_digit(d as int)],
{
    proof {
        reveal_strlit("A");
        reveal_strlit("B");
        reveal_strlit("C");
        reveal_strlit("D");
        reveal_strlit("E");
        reveal_strlit("F");
    }
    if d < 10 {
        return digit_text(d);
    }
    let r = match d {
        10 => "A",
        11 => "B",
        12 => "C",
        13 => "D",
        14 => "E",
        _ => "F",
    };
    proof {
        assert(r@ =~= seq![upper_digit(d as int)]);
    }
    r
}

/// A number in decimal.
pub open spec fn decimal(n: nat) -> Seq<char>
    decreases n,
{
    if n < 10 {
        seq![digit_char(n as int)]
    } else {
        decimal(n / 10).push(digit_char((n % 10) as int))
    }
}

/// Blanks or other characters in front of a text, so that it gets a width.
pub open spec fn padded(s: Seq<char>, fill: char, width: nat) -> Seq<char> {
    if s.len() >= width {
        s
    } else {
        Seq::new((width - s.len()) as nat, |i: int| fill) + s
    }
}

/// The lowest digits of a number to a base.
pub open spec fn low_digits(n: nat, count: nat, upper: bool) -> Seq<char>
    decreases count,
{
    if count == 0 {
        Seq::empty()
    } else {
        low_digits(n / 16, (count - 1) as nat, upper).push(
            if upper {
                upper_digit((n % 16) as int)
            } else {
                digit_char((n % 16) as int)
            },
        )
    }
}

/// Appends a number in decimal.
pub fn push_decimal(out: &mut String, n: u64)
    ensures
        final(out)@ == old(out)@ + decimal(n as nat),
    decreases n,
{
    let ghost before = out@;
    if n >= 10 {
        push_decimal(out, n / 10);
    }
    out.append(digit_text((n % 10) as u8));
    proof {
        assert(out@ =~= before + decimal(n as nat));
    }
}

/// How many digits a number has in decimal.
fn decimal_len(n: u64) -> (r: usize)
    ensures
        r == decimal(n as nat).len(),
        1 <= r <= 20,
{
    let mut left: u64 = n;
    let mut count: usize = 1;
    proof {
        assert(n < pow10(20)) by {
            reveal_with_fuel(pow10, 21);
        }
    }
    while left >= 10
        invariant
            1 <= count <= 20,
            decimal(n as nat).len() == decimal(left as nat).len() + count - 1,
            left < pow10((21 - count) as nat),
        decreases left,
    {
        left = left / 10;
        proof {
            reveal_with_fuel(pow10, 2);
            if count == 20 {
                assert(pow10(1) == 10);
            }
        }
        count = count + 1;
    }
    count
}

/// Powers of ten.
pub open spec fn pow10(k: nat) -> nat
    decreases k,
{
    if k == 0 {
        1
    } else {
        10 * pow10((k - 1) as nat)
    }
}

/// Appends a number in decimal with blanks or zeros in front, so that it gets a
/// width.
pub fn push_padded(out: &mut String, n: u64, zeros: bool, width: usize)
    ensures
        final(out)@ == old(out)@ + padded(
            decimal(n as nat),
            if zeros {
                '0'
            } else {
                ' '
            },
            width as nat,
        ),
{
    let ghost before = out@;
    let ghost fill = if zeros {
        '0'
    } else {
        ' '
    };
    let len: usize = decimal_len(n);
    let mut i: usize = len;
    proof {
        assert(before + Seq::new(0, |k: int| fill) =~= before);
    }
    while i < width
        invariant
            len <= i,
            i <= width || i == len,
            fill == (if zeros {
                '0'
            } else {
                ' '
            }),
            out@ == before + Seq::new((i - len) as nat, |k: int| fill),
        decreases width - i,
    {
        proof {
            reveal_strlit("0");
            reveal_strlit(" ");
        }
        if zeros {
            out.append("0");
        } else {
            out.append(" ");
        }
        proof {
            assert(out@ =~= before + Seq::new((i + 1 - len) as nat, |k: int| fill));
        }
        i = i + 1;
    }
    push_decimal(out, n);
    proof {
        assert(out@ =~= before + padded(decimal(n as nat), fill, width as nat));
    }
}

/// Appends the lowest digits of a number to base sixteen.
pub fn push_hex(out: &mut String, n: u64, count: usize, upper: bool)
    ensures
        final(out)@ == old(out)@ + low_digits(n as nat, count as nat, upper),
    decreases count,
{
    let ghost before = out@;
    if count == 0 {
        proof {
            assert(out@ =~= before + low_digits(n as nat, count as nat, upper));
        }
        return;
    }
    push_hex(out, n / 16, count - 1, upper);
    if upper {
        out.append(upper_digit_text((n % 16) as u8));
    } else {
        out.append(digit_text((n % 16) as u8));
    }
    proof {
        assert(out@ =~= before + low_digits(n as nat, count as nat, upper));
    }
}

/// The value of a digit.
pub open spec fn digit_value(c: char) -> int {
    c as int - '0' as int
}

/// The value of a text of digits.
pub open spec fn decimal_value(s: Seq<char>) -> int
    decreases s.len(),
{
    if s.len() == 0 {
        0
    } else {
        10 * decimal_value(s.drop_last()) + digit_value(s.last())
    }
}

/// A number in decimal has the value of the number, so that two numbers never
/// look the same.
pub proof fn decimals_can_be_read_back(n: nat)
    ensures
        decimal_value(decimal(n)) == n,
        decimal(n).len() >= 1,
    decreases n,
{
    if n < 10 {
        let s = decimal(n);
        assert(s.drop_last() =~= Seq::<char>::empty());
        assert(decimal_value(s.drop_last()) == 0);
    } else {
        decimals_can_be_read_back(n / 10);
        let s = decimal(n);
        assert(s.drop_last() =~= decimal(n / 10));
    }
}

/// A number to base sixteen, in lower case, without zeros in front.
pub open spec fn hexadecimal(n: nat) -> Seq<char>
    decreases n,
{
    if n < 16 {
        seq![digit_char(n as int)]
    } else {
        hexadecimal(n / 16).push(digit_char((n % 16) as int))
    }
}

/// Appends a number to base sixteen without zeros in front.
pub fn push_hexadecimal(out: &mut String, n: u64)
    ensures
        final(out)@ == old(out)@ + hexadecimal(n as nat),
    decreases n,
{
    let ghost before = out@;
    if n >= 16 {
        push_hexadecimal(out, n / 16);
    }
    out.append(digit_text((n % 16) as u8));
    proof {
        assert(out@ =~= before + hexadecimal(n as nat));
    }
}

/// The digit that a character stands for, if any.
pub open spec fn hex_value(c: char) -> int {
    if '0' <= c <= '9' {
        c as int - '0' as int
    } else if 'a' <= c <= 'f' {
        c as int - 'a' as int + 10
    } else if 'A' <= c <= 'F' {
        c as int - 'A' as int + 10
    } else {
        -1
    }
}

/// The number that hexadecimal digits stand for.
pub open spec fn hex_number(s: Seq<char>) -> int
    decreases s.len(),
{
    if s.len() == 0 {
        0
    } else {
        16 * hex_number(s.drop_last()) + hex_value(s.last())
    }
}

/// Every hexadecimal digit can be read back, in either case.
pub proof fn hex_digits_can_be_read_back(d: int)
    requires
        0 <= d < 16,
    ensures
        hex_value(digit_char(d)) == d,
        hex_value(upper_digit(d)) == d,
{
}

/// Hexadecimal numbers can be read back.
pub proof fn hexadecimals_can_be_read_back(n: nat)
    ensures
        hex_number(hexadecimal(n)) == n,
        hexadecimal(n).len() >= 1,
    decreases n,
{
    reveal_with_fuel(hex_number, 2);
    if n >= 16 {
        hexadecimals_can_be_read_back(n / 16);
        assert(hexadecimal(n).drop_last() =~= hexadecimal(n / 16));
        hex_digits_can_be_read_back((n % 16) as int);
    } else {
        hex_digits_can_be_read_back(n as int);
        assert(hexadecimal(n).drop_last().len() == 0);
    }
}

/// The low digits of a number are as many as asked for, and stand for it if they are enough.
pub proof fn low_digits_can_be_read_back(n: nat, count: nat, upper: bool)
    ensures
        low_digits(n, count, upper).len() == count,
        count == 0 ==> hex_number(low_digits(n, count, upper)) == 0,
        count > 0 ==> hex_number(low_digits(n, count, upper)) == 16 * hex_number(
            low_digits(n / 16, (count - 1) as nat, upper),
        ) + n % 16,
        count == 2 && n < 256 ==> hex_number(low_digits(n, count, upper)) == n,
    decreases count,
{
    if count > 0 {
        low_digits_can_be_read_back(n / 16, (count - 1) as nat, upper);
        hex_digits_can_be_read_back((n % 16) as int);
        assert(low_digits(n, count, upper).drop_last() =~= low_digits(
            n / 16,
            (count - 1) as nat,
            upper,
        ));
        if count == 2 {
            low_digits_can_be_read_back(n / 16 / 16, 0, upper);
        }
    }
}

/// Padding brings a text to its width from the left and leaves one that is wide enough.
pub proof fn padding_fills_from_the_left(s: Seq<char>, fill: char, width: nat)
    ensures
        s.len() >= width ==> padded(s, fill, width) == s,
        s.len() < width ==> padded(s, fill, width).len() == width && padded(s, fill, width).skip(
            width - s.len(),
        ) =~= s && forall|i: int|
            0 <= i < width - s.len() ==> #[trigger] padded(s, fill, width)[i] == fill,
{
}

} // verus!
