use vstd::prelude::*;
use vstd::string::StringExecFns;

verus! {

/// The character of digit `d` (0 to 15), upper-case beyond 9.
pub open spec fn digit_char(d: int) -> char {
    if d == 0 {
        '0'
    } else if d == 1 {
        '1'
    } else if d == 2 {
        '2'
    } else if d == 3 {
        '3'
    } else if d == 4 {
        '4'
    } else if d == 5 {
        '5'
    } else if d == 6 {
        '6'
    } else if d == 7 {
        '7'
    } else if d == 8 {
        '8'
    } else if d == 9 {
        '9'
    } else if d == 10 {
        'A'
    } else if d == 11 {
        'B'
    } else if d == 12 {
        'C'
    } else if d == 13 {
        'D'
    } else if d == 14 {
        'E'
    } else {
        'F'
    }
}

/// The digits of `n` in base `base` (2 to 16), most significant first,
/// without leading zeros (`0` is written as one digit).
pub open spec fn digits(n: nat, base: nat) -> Seq<char>
    decreases n,
    via digits_decreases
{
    if base < 2 || n < base {
        seq![digit_char(n as int)]
    } else {
        digits(n / base, base).push(digit_char((n % base) as int))
    }
}

#[via_fn]
proof fn digits_decreases(n: nat, base: nat) {
    if !(base < 2 || n < base) {
        assert(n / base < n) by (nonlinear_arith)
            requires
                n >= base,
                base >= 2,
        ;
    }
}

/// The decimal digits of `n`.
pub open spec fn decimal(n: nat) -> Seq<char> {
    digits(n, 10)
}

/// `s`, preceded by as many `'0'` as make it `width` characters long.
pub open spec fn zero_padded(s: Seq<char>, width: nat) -> Seq<char> {
    let pad: nat = if width > s.len() {
        (width - s.len()) as nat
    } else {
        0
    };
    Seq::new(pad, |i: int| '0') + s
}

/// The one-character string of digit `d`.
fn digit_str(d: u64) -> (r: &'static str)
    requires
        d < 16,
    ensures
        r@ == seq![digit_char(d as int)],
{
    proof {
        reveal_strlit("0");
        reveal_strlit("1");
        reveal_strlit("2");
        reveal_strlit("3");
        reveal_strlit("4");
        reveal_strlit("5");
        reveal_strlit("6");
        reveal_strlit("7");
        reveal_strlit("8");
        reveal_strlit("9");
        reveal_strlit("A");
        reveal_strlit("B");
        reveal_strlit("C");
        reveal_strlit("D");
        reveal_strlit("E");
        reveal_strlit("F");
    }
    match d {
        0 => "0",
        1 => "1",
        2 => "2",
        3 => "3",
        4 => "4",
        5 => "5",
        6 => "6",
        7 => "7",
        8 => "8",
        9 => "9",
        10 => "A",
        11 => "B",
        12 => "C",
        13 => "D",
        14 => "E",
        _ => "F",
    }
}

/// Appends the digits of `n` in base `base` to `out`.
pub fn push_digits(out: &mut String, n: u128, base: u128)
    requires
        2 <= base <= 16,
    ensures
        final(out)@ == old(out)@ + digits(n as nat, base as nat),
    decreases n,
{
    if n >= base {
        assert(n / base < n) by (nonlinear_arith)
            requires
                n >= base,
                base >= 2,
        ;
        push_digits(out, n / base, base);
    }
    out.append(digit_str((n % base) as u64));
    proof {
        if n >= base {
            assert(out@ =~= old(out)@ + digits(n as nat, base as nat));
        } else {
            assert(n % base == n) by (nonlinear_arith)
                requires
                    n < base,
            ;
            assert(out@ =~= old(out)@ + digits(n as nat, base as nat));
        }
    }
}

/// Appends the digits of `n` in base `base` to `out`, preceded by zeros up to
/// `width` characters.
pub fn push_padded(out: &mut String, n: u128, base: u128, width: usize)
    requires
        2 <= base <= 16,
    ensures
        final(out)@ == old(out)@ + zero_padded(digits(n as nat, base as nat), width as nat),
{
    let mut d = String::new();
    push_digits(&mut d, n, base);
    assert(d@ =~= digits(n as nat, base as nat));
    let count = d.as_str().unicode_len();
    let ghost start = out@;
    let mut i: usize = count;
    while i < width
        invariant
            count <= i,
            i <= width || i == count,
            out@ =~= start + Seq::new((i - count) as nat, |j: int| '0'),
        decreases width - i,
    {
        proof {
            reveal_strlit("0");
        }
        out.append("0");
        assert(out@ =~= start + Seq::new((i + 1 - count) as nat, |j: int| '0'));
        i = i + 1;
    }
    out.append(d.as_str());
    assert(out@ =~= start + zero_padded(digits(n as nat, base as nat), width as nat));
}

/// The decimal text of `n`.
pub fn decimal_string(n: u128) -> (r: String)
    ensures
        r@ == decimal(n as nat),
{
    let mut s = String::new();
    push_digits(&mut s, n, 10);
    assert(s@ =~= decimal(n as nat));
    s
}

/// The name of the screenshot file taken at `timestamp` (nanoseconds since
/// the Unix epoch): `screenshot_` and at least eight upper-case hexadecimal
/// digits of the timestamp, then `.bmp`.
pub fn screenshot_file_name(timestamp: u128) -> (r: String)
    ensures
        r@ == "screenshot_"@ + zero_padded(digits(timestamp as nat, 16), 8) + ".bmp"@,
{
    let mut s = String::from_str("screenshot_");
    push_padded(&mut s, timestamp, 16, 8);
    s.append(".bmp");
    s
}

} // verus!
