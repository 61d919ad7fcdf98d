//! Decimal and hexadecimal renderings of integers, as `format!` writes them
//! with `{}`, `{:x}` and `{:0N}`.
use vstd::prelude::*;

verus! {

/// The character of a digit below sixteen (lower-case letters above nine).
pub open spec fn spec_digit_char(d: int) -> char {
    seq!['0', '1', '2', '3', '4', '5', '6', '7', '8', '9', 'a', 'b', 'c', 'd', 'e', 'f'][d]
}

/// The decimal digits of `n`, most significant first, without leading zeros.
pub open spec fn spec_decimal(n: nat) -> Seq<char>
    decreases n,
{
    if n < 10 {
        seq![spec_digit_char(n as int)]
    } else {
        spec_decimal(n / 10).push(spec_digit_char((n % 10) as int))
    }
}

/// The lower-case hexadecimal digits of `n`, most significant first, without
/// leading zeros.
pub open spec fn spec_hex(n: nat) -> Seq<char>
    decreases n,
{
    if n < 16 {
        seq![spec_digit_char(n as int)]
    } else {
        spec_hex(n / 16).push(spec_digit_char((n % 16) as int))
    }
}

/// `digits` with zeros in front up to `width` characters.
pub open spec fn spec_zero_padded(digits: Seq<char>, width: nat) -> Seq<char> {
    if digits.len() < width {
        Seq::new((width - digits.len()) as nat, |i: int| '0') + digits
    } else {
        digits
    }
}

/// `n` in decimal, zero-padded to `width` characters after its sign, as
/// `{:0width}` writes it.
pub open spec fn spec_format_int(n: int, width: nat) -> Seq<char> {
    if n < 0 {
        seq!['-'] + spec_zero_padded(
            spec_decimal((-n) as nat),
            if width > 0 {
                (width - 1) as nat
            } else {
                0
            },
        )
    } else {
        spec_zero_padded(spec_decimal(n as nat), width)
    }
}

/// The one-character string of a digit below sixteen.
pub(crate) fn digit_str(d: u64) -> (s: &'static str)
    requires
        d < 16,
    ensures
        s@ == seq![spec_digit_char(d as int)],
{
    proof {
        reveal_strlit("0");
        reveal_strlit("1");
        reveal_strlit("2");
        reveal_strlit("3");
        reveal_strlit("4");
        reveal_strlit("5");
        reveal_strlit("6");
        reveal_strlit("7");
        reveal_strlit("8");
        reveal_strlit("9");
        reveal_strlit("a");
        reveal_strlit("b");
        reveal_strlit("c");
        reveal_strlit("d");
        reveal_strlit("e");
        reveal_strlit("f");
    }
    let s = match d {
        0 => "0",
        1 => "1",
        2 => "2",
        3 => "3",
        4 => "4",
        5 => "5",
        6 => "6",
        7 => "7",
        8 => "8",
        9 => "9",
        10 => "a",
        11 => "b",
        12 => "c",
        13 => "d",
        14 => "e",
        _ => "f",
    };
    assert(s@ =~= seq![spec_digit_char(d as int)]);
    s
}

/// Appends the decimal digits of `n`.
pub fn append_decimal(s: &mut String, n: u64)
    ensures
        final(s)@ == old(s)@ + spec_decimal(n as nat),
    decreases n,
{
    if n >= 10 {
        append_decimal(s, n / 10);
    }
    s.append(digit_str(n % 10));
    assert(final(s)@ =~= old(s)@ + spec_decimal(n as nat));
}

/// Appends the lower-case hexadecimal digits of `n`.
pub fn append_hex(s: &mut String, n: u64)
    ensures
        final(s)@ == old(s)@ + spec_hex(n as nat),
    decreases n,
{
    if n >= 16 {
        append_hex(s, n / 16);
    }
    s.append(digit_str(n % 16));
    assert(final(s)@ =~= old(s)@ + spec_hex(n as nat));
}

/// `n` in decimal.
pub fn decimal_string(n: u64) -> (s: String)
    ensures
        s@ == spec_decimal(n as nat),
{
    let mut s = String::new();
    append_decimal(&mut s, n);
    assert(s@ =~= spec_decimal(n as nat));
    s
}

/// `n` in lower-case hexadecimal.
pub fn hex_string(n: u64) -> (s: String)
    ensures
        s@ == spec_hex(n as nat),
{
    let mut s = String::new();
    append_hex(&mut s, n);
    assert(s@ =~= spec_hex(n as nat));
    s
}

/// Appends `count` zeros.
fn append_zeros(s: &mut String, count: usize)
    ensures
        final(s)@ == old(s)@ + Seq::new(count as nat, |i: int| '0'),
{
    let mut i: usize = 0;
    while i < count
        invariant
            i <= count,
            s@ == old(s)@ + Seq::new(i as nat, |k: int| '0'),
        decreases count - i,
    {
        proof {
            reveal_strlit("0");
        }
        assert("0"@ =~= seq!['0']);
        s.append("0");
        i = i + 1;
        assert(s@ =~= old(s)@ + Seq::new(i as nat, |k: int| '0'));
    }
}

/// Appends `n` in decimal, zero-padded to `width` characters after its sign.
pub fn append_int(s: &mut String, n: i32, width: usize)
    ensures
        final(s)@ == old(s)@ + spec_format_int(n as int, width as nat),
{
    let negative = n < 0;
    let magnitude: u64 = if negative {
        (-(n as i64)) as u64
    } else {
        n as u64
    };
    let digits = decimal_string(magnitude);
    let len = digits.unicode_len();
    let field: usize = if negative {
        if width > 0 {
            width - 1
        } else {
            0
        }
    } else {
        width
    };
    if negative {
        proof {
            reveal_strlit("-");
        }
        s.append("-");
    }
    let ghost signed = s@;
    if len < field {
        append_zeros(s, field - len);
    }
    s.append(digits.as_str());
    assert(s@ =~= signed + spec_zero_padded(spec_decimal(magnitude as nat), field as nat));
    assert(final(s)@ =~= old(s)@ + spec_format_int(n as int, width as nat));
}

/// `n` in decimal, zero-padded to `width` characters after its sign.
pub fn format_int(n: i32, width: usize) -> (s: String)
    ensures
        s@ == spec_format_int(n as int, width as nat),
{
    let mut s = String::new();
    append_int(&mut s, n, width);
    assert(s@ =~= spec_format_int(n as int, width as nat));
    s
}

} // verus!
