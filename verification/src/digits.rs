//! Decimal rendering of small numbers, the base of every SGR parameter string.

use vstd::arithmetic::div_mod::lemma_div_denominator;
use vstd::prelude::*;

verus! {

/// The character for a single decimal digit.
pub open spec fn digit_char(d: nat) -> char {
    if d == 0 {
        '0'
    } else if d == 1 {
        '1'
    } else if d == 2 {
        '2'
    } else if d == 3 {
        '3'
    } else if d == 4 {
        '4'
    } else if d == 5 {
        '5'
    } else if d == 6 {
        '6'
    } else if d == 7 {
        '7'
    } else if d == 8 {
        '8'
    } else {
        '9'
    }
}

/// The decimal representation of `n`, most significant digit first,
/// with no leading zeros (a single `'0'` for zero itself).
pub open spec fn dec(n: nat) -> Seq<char>
    decreases n,
{
    if n < 10 {
        seq![digit_char(n)]
    } else {
        dec(n / 10).push(digit_char(n % 10))
    }
}

/// A two-digit number prints as its tens digit followed by its ones digit.
pub proof fn lemma_dec_two(n: nat)
    requires
        10 <= n < 100,
    ensures
        dec(n) == seq![digit_char(n / 10), digit_char(n % 10)],
{
    assert(1 <= n / 10 < 10) by (nonlinear_arith)
        requires
            10 <= n < 100,
    ;
    assert(dec(n / 10) == seq![digit_char(n / 10)]);
    assert(dec(n) =~= seq![digit_char(n / 10), digit_char(n % 10)]);
}

/// A three-digit number prints as hundreds, tens, then ones digit.
pub proof fn lemma_dec_three(n: nat)
    requires
        100 <= n < 1000,
    ensures
        dec(n) == seq![digit_char(n / 100), digit_char((n / 10) % 10), digit_char(n % 10)],
{
    assert(10 <= n / 10 < 100) by (nonlinear_arith)
        requires
            100 <= n < 1000,
    ;
    lemma_dec_two(n / 10);
    lemma_div_denominator(n as int, 10, 10);
    assert(n / 10 / 10 == n / 100);
    assert(dec(n) =~= seq![digit_char(n / 100), digit_char((n / 10) % 10), digit_char(n % 10)]);
}

/// The decimal digit `d` as a one-character string slice.
fn digit_str(d: u8) -> (r: &'static str)
    requires
        d < 10,
    ensures
        r@ == seq![digit_char(d as nat)],
{
    proof {
        reveal_strlit("0");
        reveal_strlit("1");
        reveal_strlit("2");
        reveal_strlit("3");
        reveal_strlit("4");
        reveal_strlit("5");
        reveal_strlit("6");
        reveal_strlit("7");
        reveal_strlit("8");
        reveal_strlit("9");
    }
    if d == 0 {
        "0"
    } else if d == 1 {
        "1"
    } else if d == 2 {
        "2"
    } else if d == 3 {
        "3"
    } else if d == 4 {
        "4"
    } else if d == 5 {
        "5"
    } else if d == 6 {
        "6"
    } else if d == 7 {
        "7"
    } else if d == 8 {
        "8"
    } else {
        "9"
    }
}

/// Formats `n` in decimal, with no leading zeros.
pub fn u8_to_dec(n: u8) -> (r: String)
    ensures
        r@ == dec(n as nat),
{
    proof {
        assert(n / 100 < 10) by (nonlinear_arith)
            requires
                n <= 255,
        ;
        assert((n / 10) % 10 < 10) by (nonlinear_arith);
        assert(n % 10 < 10) by (nonlinear_arith);
    }
    let mut s = String::new();
    if n >= 100 {
        s.append(digit_str(n / 100));
    }
    if n >= 10 {
        s.append(digit_str((n / 10) % 10));
    }
    s.append(digit_str(n % 10));
    proof {
        if n < 10 {
            assert(n % 10 == n) by (nonlinear_arith)
                requires
                    n < 10,
            ;
            assert(s@ =~= dec(n as nat));
        } else if n < 100 {
            lemma_dec_two(n as nat);
            assert(s@ =~= dec(n as nat));
        } else {
            lemma_dec_three(n as nat);
            assert(s@ =~= dec(n as nat));
        }
    }
    s
}

} // verus!
