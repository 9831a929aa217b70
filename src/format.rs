use vstd::prelude::*;
use crate::sentiment::SCORE_SCALE;
use crate::text::push_char;

verus! {

/// The decimal digit character of `d`, for `d` in `0..10`.
pub open spec fn digit_char(d: int) -> char {
    if d == 0 {
        '0'
    } else if d == 1 {
        '1'
    } else if d == 2 {
        '2'
    } else if d == 3 {
        '3'
    } else if d == 4 {
        '4'
    } else if d == 5 {
        '5'
    } else if d == 6 {
        '6'
    } else if d == 7 {
        '7'
    } else if d == 8 {
        '8'
    } else {
        '9'
    }
}

/// The decimal numeral of `n`, without leading zeros.
pub open spec fn decimal(n: nat) -> Seq<char>
    decreases n,
{
    if n < 10 {
        seq![digit_char(n as int)]
    } else {
        decimal(n / 10).push(digit_char((n % 10) as int))
    }
}

/// The last `k` decimal digits of `f`, zeros included.
pub open spec fn fixed_digits(f: nat, k: nat) -> Seq<char>
    decreases k,
{
    if k == 0 {
        Seq::empty()
    } else {
        fixed_digits(f / 10, (k - 1) as nat).push(digit_char((f % 10) as int))
    }
}

/// The last `k` decimal digits of `f` with trailing zeros dropped.
pub open spec fn fraction_digits(f: nat, k: nat) -> Seq<char>
    decreases k,
{
    if k > 0 && f % 10 == 0 {
        fraction_digits(f / 10, (k - 1) as nat)
    } else {
        fixed_digits(f, k)
    }
}

/// The decimal text of a fixed-point score: a minus sign when negative, the
/// whole part, and the fraction without trailing zeros after a point when
/// there is one.
pub open spec fn score_text_spec(v: int) -> Seq<char> {
    let a = if v < 0 {
        -v
    } else {
        v
    };
    let sign = if v < 0 {
        seq!['-']
    } else {
        Seq::empty()
    };
    let whole = decimal((a / SCORE_SCALE as int) as nat);
    let frac = a % SCORE_SCALE as int;
    if frac == 0 {
        sign + whole
    } else {
        sign + whole + seq!['.'] + fraction_digits(frac as nat, 9)
    }
}

fn digit(d: u64) -> (c: char)
    requires
        d < 10,
    ensures
        c == digit_char(d as int),
{
    match d {
        0 => '0',
        1 => '1',
        2 => '2',
        3 => '3',
        4 => '4',
        5 => '5',
        6 => '6',
        7 => '7',
        8 => '8',
        _ => '9',
    }
}

/// Appends the decimal numeral of `n` to `out`.
pub fn push_decimal(out: &mut String, n: u64)
    ensures
        final(out)@ == old(out)@ + decimal(n as nat),
    decreases n,
{
    if n >= 10 {
        push_decimal(out, n / 10);
    }
    push_char(out, digit(n % 10));
    proof {
        if n < 10 {
            assert(old(out)@.push(digit_char(n as int)) =~= old(out)@ + decimal(n as nat));
        } else {
            assert(old(out)@ + decimal((n / 10) as nat) + seq![digit_char((n % 10) as int)]
                =~= old(out)@ + decimal(n as nat));
        }
    }
}

fn push_fixed_digits(out: &mut String, f: u64, k: u64)
    ensures
        final(out)@ == old(out)@ + fixed_digits(f as nat, k as nat),
    decreases k,
{
    if k > 0 {
        push_fixed_digits(out, f / 10, k - 1);
        push_char(out, digit(f % 10));
        assert(final(out)@ =~= old(out)@ + fixed_digits(f as nat, k as nat));
    } else {
        assert(old(out)@ + Seq::<char>::empty() =~= old(out)@);
    }
}

/// The decimal text of a fixed-point score, as `0.8`, `-0.05`, `1` or `0`.
pub fn score_text(v: i64) -> (r: String)
    ensures
        r@ == score_text_spec(v as int),
{
    let a: u64 = if v < 0 {
        (0i128 - v as i128) as u64
    } else {
        v as u64
    };
    let scale = SCORE_SCALE as u64;
    let mut r = String::new();
    if v < 0 {
        push_char(&mut r, '-');
    }
    push_decimal(&mut r, a / scale);
    let mut f = a % scale;
    if f != 0 {
        push_char(&mut r, '.');
        let mut k: u64 = 9;
        while k > 0 && f % 10 == 0
            invariant
                fraction_digits(f as nat, k as nat) == fraction_digits(
                    (a % scale) as nat,
                    9,
                ),
            decreases k,
        {
            f = f / 10;
            k = k - 1;
        }
        push_fixed_digits(&mut r, f, k);
    }
    assert(r@ =~= score_text_spec(v as int));
    r
}

} // verus!
