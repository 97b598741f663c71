use vstd::prelude::*;
use vstd::string::StringExecFns;

verus! {

/// The decimal digit character of `d`, for `d < 10`.
pub open spec fn digit_char(d: nat) -> char {
    if d == 0 {
        '0'
    } else if d == 1 {
        '1'
    } else if d == 2 {
        '2'
    } else if d == 3 {
        '3'
    } else if d == 4 {
        '4'
    } else if d == 5 {
        '5'
    } else if d == 6 {
        '6'
    } else if d == 7 {
        '7'
    } else if d == 8 {
        '8'
    } else {
        '9'
    }
}

/// The decimal digits of `n`, without leading zeros (`0` for zero).
pub open spec fn decimal_of(n: nat) -> Seq<char>
    decreases n,
{
    if n < 10 {
        seq![digit_char(n)]
    } else {
        decimal_of(n / 10).push(digit_char(n % 10))
    }
}

/// The last `width` decimal digits of `n`, with leading zeros.
pub open spec fn padded_decimal_of(n: nat, width: nat) -> Seq<char>
    decreases width,
{
    if width == 0 {
        Seq::empty()
    } else {
        padded_decimal_of(n / 10, (width - 1) as nat).push(digit_char(n % 10))
    }
}

/// The decimal text of a signed integer, with a leading `-` if negative.
pub open spec fn signed_decimal_of(v: int) -> Seq<char> {
    if v < 0 {
        seq!['-'] + decimal_of((-v) as nat)
    } else {
        decimal_of(v as nat)
    }
}

/// A count of millionths written with six fraction digits, as `{:.6}` writes the
/// number it stands for (`1500000` gives `1.500000`).
pub open spec fn fixed6_of(micros: int) -> Seq<char> {
    let a: nat = if micros < 0 {
        (-micros) as nat
    } else {
        micros as nat
    };
    let sign = if micros < 0 {
        seq!['-']
    } else {
        Seq::<char>::empty()
    };
    sign + decimal_of(a / 1_000_000) + seq!['.'] + padded_decimal_of(a % 1_000_000, 6)
}

/// `true` or `false`.
pub open spec fn bool_of(b: bool) -> Seq<char> {
    if b {
        seq!['t', 'r', 'u', 'e']
    } else {
        seq!['f', 'a', 'l', 's', 'e']
    }
}

fn digit_text(d: u64) -> (r: &'static str)
    requires
        d < 10,
    ensures
        r@ == seq![digit_char(d as nat)],
{
    proof {
        reveal_strlit("0");
        reveal_strlit("1");
        reveal_strlit("2");
        reveal_strlit("3");
        reveal_strlit("4");
        reveal_strlit("5");
        reveal_strlit("6");
        reveal_strlit("7");
        reveal_strlit("8");
        reveal_strlit("9");
    }
    if d == 0 {
        "0"
    } else if d == 1 {
        "1"
    } else if d == 2 {
        "2"
    } else if d == 3 {
        "3"
    } else if d == 4 {
        "4"
    } else if d == 5 {
        "5"
    } else if d == 6 {
        "6"
    } else if d == 7 {
        "7"
    } else if d == 8 {
        "8"
    } else {
        "9"
    }
}

/// Appends the decimal digits of `n`.
pub fn push_decimal(out: &mut String, n: u64)
    ensures
        final(out)@ == old(out)@ + decimal_of(n as nat),
    decreases n,
{
    if n >= 10 {
        push_decimal(out, n / 10);
    }
    out.append(digit_text(n % 10));
    assert(final(out)@ =~= old(out)@ + decimal_of(n as nat));
}

/// Appends the last `width` decimal digits of `n`, with leading zeros.
pub fn push_padded_decimal(out: &mut String, n: u64, width: u32)
    ensures
        final(out)@ == old(out)@ + padded_decimal_of(n as nat, width as nat),
    decreases width,
{
    if width > 0 {
        push_padded_decimal(out, n / 10, width - 1);
        out.append(digit_text(n % 10));
    }
    assert(final(out)@ =~= old(out)@ + padded_decimal_of(n as nat, width as nat));
}

/// Appends the decimal text of a signed integer.
pub fn push_signed_decimal(out: &mut String, v: i64)
    ensures
        final(out)@ == old(out)@ + signed_decimal_of(v as int),
{
    proof {
        reveal_strlit("-");
    }
    if v < 0 {
        out.append("-");
        let a: u64 = ((-(v + 1)) as u64) + 1;
        push_decimal(out, a);
    } else {
        push_decimal(out, v as u64);
    }
    assert(final(out)@ =~= old(out)@ + signed_decimal_of(v as int));
}

/// Appends a count of millionths with six fraction digits.
pub fn push_fixed6(out: &mut String, micros: i64)
    ensures
        final(out)@ == old(out)@ + fixed6_of(micros as int),
{
    proof {
        reveal_strlit("-");
        reveal_strlit(".");
    }
    let a: u64 = if micros < 0 {
        out.append("-");
        ((-(micros + 1)) as u64) + 1
    } else {
        micros as u64
    };
    push_decimal(out, a / 1_000_000);
    out.append(".");
    push_padded_decimal(out, a % 1_000_000, 6);
    assert(final(out)@ =~= old(out)@ + fixed6_of(micros as int));
}

/// `true` or `false`.
pub fn bool_text(b: bool) -> (r: &'static str)
    ensures
        r@ == bool_of(b),
{
    proof {
        reveal_strlit("true");
        reveal_strlit("false");
    }
    if b {
        "true"
    } else {
        "false"
    }
}

} // verus!
