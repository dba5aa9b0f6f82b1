use vstd::prelude::*;

verus! {

/// The ASCII digit for `d` (taken modulo ten).
pub open spec fn digit_char(d: int) -> char {
    let d = d % 10;
    if d == 0 {
        '0'
    } else if d == 1 {
        '1'
    } else if d == 2 {
        '2'
    } else if d == 3 {
        '3'
    } else if d == 4 {
        '4'
    } else if d == 5 {
        '5'
    } else if d == 6 {
        '6'
    } else if d == 7 {
        '7'
    } else if d == 8 {
        '8'
    } else {
        '9'
    }
}

/// Decimal digits of `n`, without leading zeros (a single `0` for zero).
pub open spec fn decimal(n: nat) -> Seq<char>
    decreases n,
{
    if n < 10 {
        seq![digit_char(n as int)]
    } else {
        decimal(n / 10).push(digit_char((n % 10) as int))
    }
}

/// The last `width` decimal digits of `n`, padded on the left with zeros.
pub open spec fn padded(n: nat, width: nat) -> Seq<char>
    decreases width,
{
    if width == 0 {
        seq![]
    } else {
        padded(n / 10, (width - 1) as nat).push(digit_char((n % 10) as int))
    }
}

/// `v / 1_000_000` written with exactly six decimal places, a `-` in front when negative.
pub open spec fn fixed6(v: int) -> Seq<char> {
    let m: nat = if v < 0 {
        (-v) as nat
    } else {
        v as nat
    };
    let sign: Seq<char> = if v < 0 {
        seq!['-']
    } else {
        seq![]
    };
    sign + decimal(m / 1_000_000) + seq!['.'] + padded(m % 1_000_000, 6)
}

fn digit_str(d: u64) -> (r: &'static str)
    requires
        d < 10,
    ensures
        r@ == seq![digit_char(d as int)],
{
    proof {
        reveal_strlit("0");
        reveal_strlit("1");
        reveal_strlit("2");
        reveal_strlit("3");
        reveal_strlit("4");
        reveal_strlit("5");
        reveal_strlit("6");
        reveal_strlit("7");
        reveal_strlit("8");
        reveal_strlit("9");
    }
    if d == 0 {
        "0"
    } else if d == 1 {
        "1"
    } else if d == 2 {
        "2"
    } else if d == 3 {
        "3"
    } else if d == 4 {
        "4"
    } else if d == 5 {
        "5"
    } else if d == 6 {
        "6"
    } else if d == 7 {
        "7"
    } else if d == 8 {
        "8"
    } else {
        "9"
    }
}

fn push_decimal(s: &mut String, n: u64)
    ensures
        final(s)@ == old(s)@ + decimal(n as nat),
    decreases n,
{
    if n >= 10 {
        push_decimal(s, n / 10);
    }
    s.append(digit_str(n % 10));
    assert(final(s)@ =~= old(s)@ + decimal(n as nat));
}

fn push_padded(s: &mut String, n: u64, width: u64)
    ensures
        final(s)@ == old(s)@ + padded(n as nat, width as nat),
    decreases width,
{
    if width > 0 {
        push_padded(s, n / 10, width - 1);
        s.append(digit_str(n % 10));
        assert(final(s)@ =~= old(s)@ + padded(n as nat, width as nat));
    }
}

/// `v` millionths written as a decimal number with exactly six decimal places
/// (`-73985700` gives `-73.985700`).
pub fn format_fixed6(v: i64) -> (r: String)
    ensures
        r@ == fixed6(v as int),
{
    let m: u64 = if v < 0 {
        (-(v as i128)) as u64
    } else {
        v as u64
    };
    let mut s = String::new();
    if v < 0 {
        proof {
            reveal_strlit("-");
        }
        s.append("-");
    }
    push_decimal(&mut s, m / 1_000_000);
    proof {
        reveal_strlit(".");
    }
    s.append(".");
    push_padded(&mut s, m % 1_000_000, 6);
    assert(s@ =~= fixed6(v as int));
    s
}

} // verus!
