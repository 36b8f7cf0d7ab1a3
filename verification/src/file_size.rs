//! Human-readable file sizes.
//!
//! A size is shown as a double-precision value would show it: the byte count
//! is rounded to the nearest `f64` (ties to even), divided by 1024 while it
//! is at least 1024 (at most four times), and printed with two decimals,
//! rounded to nearest with ties to even; whole bytes are printed without
//! decimals.

use vstd::prelude::*;
use vstd::arithmetic::div_mod::lemma_div_denominator;
use crate::text::{decimal, digit_char, push_char, push_decimal};

verus! {

/// `2^53`: integers below it are exact in an `f64`.
pub open spec fn two_53() -> nat {
    0x20_0000_0000_0000
}

/// The power of two by which an integer's low bits are dropped when it is
/// stored in an `f64` (its significand holds 53 bits).
pub open spec fn f64_scale(n: nat) -> nat
    decreases n,
{
    if n < two_53() { 1 } else { 2 * f64_scale(n / 2) }
}

/// `a / b` rounded to the nearest integer, ties to even.
pub open spec fn round_half_even(a: nat, b: nat) -> nat {
    let q = a / b;
    let r = a % b;
    if 2 * r > b || (2 * r == b && q % 2 == 1) { q + 1 } else { q }
}

/// The value of `n as f64`: `n` rounded to the nearest representable
/// double, ties to even.
pub open spec fn nearest_f64(n: nat) -> nat {
    round_half_even(n, f64_scale(n)) * f64_scale(n)
}

/// `1024^k` for the units in use.
pub open spec fn pow1024(k: nat) -> nat {
    if k == 0 {
        1
    } else if k == 1 {
        1024
    } else if k == 2 {
        0x10_0000
    } else if k == 3 {
        0x4000_0000
    } else {
        0x100_0000_0000
    }
}

/// The unit a value is shown in: how many times (at most four) it can be
/// divided by 1024 and stay at least 1.
pub open spec fn unit_index(x: nat) -> nat {
    if x >= pow1024(4) {
        4
    } else if x >= pow1024(3) {
        3
    } else if x >= pow1024(2) {
        2
    } else if x >= pow1024(1) {
        1
    } else {
        0
    }
}

/// The name of a unit.
pub open spec fn unit_name(k: nat) -> Seq<char> {
    if k == 0 {
        "B"@
    } else if k == 1 {
        "KB"@
    } else if k == 2 {
        "MB"@
    } else if k == 3 {
        "GB"@
    } else {
        "TB"@
    }
}

/// The text of a size in bytes: `"<n> B"` below 1024 bytes, otherwise the
/// value in the largest unit (up to TB) with two decimals and the unit.
pub open spec fn file_size_text(size: nat) -> Seq<char> {
    let x = nearest_f64(size);
    let k = unit_index(x);
    if k == 0 {
        decimal(x) + " B"@
    } else {
        let h = round_half_even(x * 100, pow1024(k));
        decimal(h / 100) + seq!['.', digit_char((h % 100) / 10), digit_char(h % 10), ' ']
            + unit_name(k)
    }
}

/// `a / b` rounded to nearest, ties to even, with its bound.
fn round_half_even_u128(a: u128, b: u128) -> (r: u128)
    requires
        b > 0,
        b < 0x1_0000_0000_0000_0000_0000_0000_0000,
        a < 0x1_0000_0000_0000_0000_0000_0000_0000,
    ensures
        r == round_half_even(a as nat, b as nat),
        r <= a / b + 1,
{
    let q = a / b;
    let rem = a % b;
    if 2 * rem > b || (2 * rem == b && q % 2 == 1) {
        q + 1
    } else {
        q
    }
}

/// `n as f64`, as an integer.
fn nearest_f64_u128(n: u64) -> (x: u128)
    ensures
        x == nearest_f64(n as nat),
        x <= n as nat + 0x1000,
{
    let mut m: u64 = n;
    let mut p: u128 = 1;
    while m >= 0x20_0000_0000_0000
        invariant
            1 <= p <= 0x1000,
            m as nat == n as nat / p as nat,
            p * f64_scale(m as nat) == f64_scale(n as nat),
        decreases m,
    {
        assert(p * 0x20_0000_0000_0000 <= n) by (nonlinear_arith)
            requires
                m as nat == n as nat / p as nat,
                m >= 0x20_0000_0000_0000,
                p >= 1,
        ;
        assert(p < 0x800) by (nonlinear_arith)
            requires
                p * 0x20_0000_0000_0000 <= n,
                n < 0x1_0000_0000_0000_0000,
        ;
        proof {
            lemma_div_denominator(n as int, p as int, 2);
        }
        assert(f64_scale(m as nat) == 2 * f64_scale(m as nat / 2));
        m = m / 2;
        p = p * 2;
        assert(p * f64_scale(m as nat) == f64_scale(n as nat)) by (nonlinear_arith)
            requires
                (p / 2) * (2 * f64_scale(m as nat)) == f64_scale(n as nat),
                p % 2 == 0,
        ;
    }
    assert(f64_scale(m as nat) == 1);
    let ghost fm = f64_scale(m as nat);
    assert(p == f64_scale(n as nat)) by (nonlinear_arith)
        requires
            p * fm == f64_scale(n as nat),
            fm == 1,
    ;
    let r = round_half_even_u128(n as u128, p);
    assert(r * p <= n as nat + p) by (nonlinear_arith)
        requires
            r <= n as nat / p as nat + 1,
            p >= 1,
    ;
    r * p
}

fn digit_u128(d: u128) -> (c: char)
    requires
        d < 10,
    ensures
        c == digit_char(d as nat),
{
    if d == 0 { '0' }
    else if d == 1 { '1' }
    else if d == 2 { '2' }
    else if d == 3 { '3' }
    else if d == 4 { '4' }
    else if d == 5 { '5' }
    else if d == 6 { '6' }
    else if d == 7 { '7' }
    else if d == 8 { '8' }
    else { '9' }
}

/// Formats a size in bytes for people to read, e.g. `"1.00 KB"`.
pub fn format_file_size(size: u64) -> (s: String)
    ensures
        s@ == file_size_text(size as nat),
{
    let x = nearest_f64_u128(size);
    let mut s = String::new();
    if x < 1024 {
        push_decimal(&mut s, x as u64);
        s.append(" B");
        assert(s@ =~= file_size_text(size as nat));
        return s;
    }
    let (pk, unit): (u128, &str) = if x >= 0x100_0000_0000 {
        (0x100_0000_0000, "TB")
    } else if x >= 0x4000_0000 {
        (0x4000_0000, "GB")
    } else if x >= 0x10_0000 {
        (0x10_0000, "MB")
    } else {
        (1024, "KB")
    };
    let k: Ghost<nat> = Ghost(unit_index(x as nat));
    assert(pk == pow1024(k@) && unit@ == unit_name(k@));
    let h = round_half_even_u128(x * 100, pk);
    assert(h / 100 < 0x1_0000_0000_0000_0000) by (nonlinear_arith)
        requires
            h <= (x as int * 100) / (pk as int) + 1,
            pk >= 1024,
            x <= 0x1_0000_0000_0000_1000,
    ;
    push_decimal(&mut s, (h / 100) as u64);
    push_char(&mut s, '.');
    push_char(&mut s, digit_u128((h % 100) / 10));
    push_char(&mut s, digit_u128(h % 10));
    push_char(&mut s, ' ');
    s.append(unit);
    assert(s@ =~= file_size_text(size as nat));
    s
}

} // verus!
