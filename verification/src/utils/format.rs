//! Human-readable byte sizes.
//!
//! A size is the byte count taken as the nearest 64-bit float, divided by the
//! unit, and written with two decimal places, exact halves rounded to an even
//! last digit, trailing zeros dropped. That is computed here with exact
//! integer arithmetic, and the contracts say it in those terms.
use vstd::prelude::*;
use vstd::arithmetic::power2::{pow2, lemma2_to64, lemma2_to64_rest, lemma_pow2_unfold};
use crate::text::{decimal, digit_char, push_char, to_decimal};

verus! {

/// `n / d` rounded to the nearest integer, an exact half going to the even neighbour.
pub open spec fn div_round_even(n: nat, d: nat) -> nat
    recommends
        d > 0,
{
    let q = n / d;
    let r = n % d;
    if 2 * r > d || (2 * r == d && q % 2 == 1) {
        q + 1
    } else {
        q
    }
}

/// The spacing of 64-bit floats around `b`: the least power of two `2^e`
/// (from `e` upwards) with `b / 2^e` below `2^53`.
pub open spec fn f64_spacing(b: nat, e: nat) -> nat
    decreases 64 - e,
{
    if e >= 64 || b / pow2(e) < pow2(53) {
        pow2(e)
    } else {
        f64_spacing(b, e + 1)
    }
}

/// The value of the 64-bit float nearest to `b` (ties to an even mantissa),
/// which is what `b as f64` gives for a `u64`.
pub open spec fn f64_value(b: nat) -> nat {
    div_round_even(b, f64_spacing(b, 0)) * f64_spacing(b, 0)
}

/// The unit index that repeated division by 1024 reaches, capped at PiB.
pub open spec fn unit_index(v: nat) -> nat {
    if v >= 1125899906842624 {
        5
    } else if v >= 1099511627776 {
        4
    } else if v >= 1073741824 {
        3
    } else if v >= 1048576 {
        2
    } else if v >= 1024 {
        1
    } else {
        0
    }
}

/// The number of bytes in unit `k`.
pub open spec fn unit_bytes(k: nat) -> nat {
    if k == 5 {
        1125899906842624
    } else if k == 4 {
        1099511627776
    } else if k == 3 {
        1073741824
    } else if k == 2 {
        1048576
    } else if k == 1 {
        1024
    } else {
        1
    }
}

/// The IEC name of unit `k`.
pub open spec fn unit_name(k: nat) -> Seq<char> {
    if k == 5 {
        "PiB"@
    } else if k == 4 {
        "TiB"@
    } else if k == 3 {
        "GiB"@
    } else if k == 2 {
        "MiB"@
    } else if k == 1 {
        "KiB"@
    } else {
        "bytes"@
    }
}

/// A count of hundredths written with at most two decimals, trailing zeros
/// and a bare decimal point left out.
pub open spec fn trimmed_hundredths(h: nat) -> Seq<char> {
    let f = h % 100;
    if f == 0 {
        decimal(h / 100)
    } else if f % 10 == 0 {
        decimal(h / 100) + seq!['.', digit_char(f / 10)]
    } else {
        decimal(h / 100) + seq!['.', digit_char(f / 10), digit_char(f % 10)]
    }
}

/// A count of hundredths written with exactly two decimals.
pub open spec fn two_decimals(h: nat) -> Seq<char> {
    decimal(h / 100) + seq!['.', digit_char((h % 100) / 10), digit_char(h % 10)]
}

/// What `bytes_to_human_readable` shows for `bytes`.
pub open spec fn human_readable(bytes: nat) -> Seq<char> {
    if bytes < 1024 {
        decimal(bytes) + " bytes"@
    } else {
        let v = f64_value(bytes);
        let k = unit_index(v);
        trimmed_hundredths(div_round_even(v * 100, unit_bytes(k))) + " "@ + unit_name(k)
    }
}

/// Rounded division, exactly as `div_round_even`.
pub fn div_round_even_exec(n: u128, d: u128) -> (r: u128)
    requires
        d > 0,
        n < 0x1_0000_0000_0000_0000_0000_0000_0000,
    ensures
        r as nat == div_round_even(n as nat, d as nat),
{
    let q = n / d;
    let r = n % d;
    if r > d - r || (r == d - r && q % 2 == 1) {
        q + 1
    } else {
        q
    }
}

/// `b as f64`, held exactly as an integer.
pub fn f64_value_exec(b: u64) -> (v: u128)
    ensures
        v as nat == f64_value(b as nat),
        v <= 0x1_0000_0000_0000_0000,
{
    proof {
        lemma2_to64();
        lemma2_to64_rest();
    }
    let mut unit: u64 = 1;
    let ghost mut e: nat = 0;
    while b / unit >= 9007199254740992
        invariant
            unit as nat == pow2(e),
            unit >= 1,
            unit <= 2048,
            e <= 11,
            f64_spacing(b as nat, e) == f64_spacing(b as nat, 0),
            pow2(53) == 9007199254740992,
            pow2(11) == 2048,
        decreases 11 - e,
    {
        proof {
            if e >= 11 {
                assert(e == 11);
                assert(b as nat / 2048 < 9007199254740992);
                assert(false);
            }
            lemma_pow2_unfold(e + 1);
            if e + 1 < 11 {
                vstd::arithmetic::power2::lemma_pow2_strictly_increases(e + 1, 11);
            }
        }
        unit = unit * 2;
        proof {
            e = e + 1;
        }
    }
    assert(f64_spacing(b as nat, e) == unit);
    let q = b / unit;
    let r = b % unit;
    let m: u64 = if 2 * r > unit || (2 * r == unit && q % 2 == 1) {
        q + 1
    } else {
        q
    };
    assert(m <= 9007199254740992);
    assert(m as nat * unit as nat <= 0x1_0000_0000_0000_0000) by (nonlinear_arith)
        requires
            m <= 9007199254740992,
            unit <= 2048,
    ;
    (m as u128) * (unit as u128)
}

fn unit_index_exec(v: u128) -> (k: usize)
    ensures
        k as nat == unit_index(v as nat),
{
    if v >= 1125899906842624 {
        5
    } else if v >= 1099511627776 {
        4
    } else if v >= 1073741824 {
        3
    } else if v >= 1048576 {
        2
    } else if v >= 1024 {
        1
    } else {
        0
    }
}

fn unit_bytes_exec(k: usize) -> (d: u128)
    ensures
        d as nat == unit_bytes(k as nat),
        d >= 1,
{
    if k == 5 {
        1125899906842624
    } else if k == 4 {
        1099511627776
    } else if k == 3 {
        1073741824
    } else if k == 2 {
        1048576
    } else if k == 1 {
        1024
    } else {
        1
    }
}

fn unit_name_exec(k: usize) -> (s: &'static str)
    ensures
        s@ == unit_name(k as nat),
{
    if k == 5 {
        "PiB"
    } else if k == 4 {
        "TiB"
    } else if k == 3 {
        "GiB"
    } else if k == 2 {
        "MiB"
    } else if k == 1 {
        "KiB"
    } else {
        "bytes"
    }
}

fn digit_of(d: u128) -> (c: char)
    requires
        d < 10,
    ensures
        c == digit_char(d as nat),
{
    match d {
        0 => '0',
        1 => '1',
        2 => '2',
        3 => '3',
        4 => '4',
        5 => '5',
        6 => '6',
        7 => '7',
        8 => '8',
        _ => '9',
    }
}

/// Hundredths with trailing zeros trimmed, as `trimmed_hundredths`.
pub fn trimmed_hundredths_exec(h: u128) -> (s: String)
    ensures
        s@ == trimmed_hundredths(h as nat),
{
    let f = h % 100;
    let mut s = to_decimal(h / 100);
    if f == 0 {
    } else if f % 10 == 0 {
        push_char(&mut s, '.');
        push_char(&mut s, digit_of(f / 10));
    } else {
        push_char(&mut s, '.');
        push_char(&mut s, digit_of(f / 10));
        push_char(&mut s, digit_of(f % 10));
    }
    proof {
        assert(s@ =~= trimmed_hundredths(h as nat));
    }
    s
}

/// Hundredths with exactly two decimals, as `two_decimals`.
pub fn two_decimals_exec(h: u128) -> (s: String)
    ensures
        s@ == two_decimals(h as nat),
{
    let mut s = to_decimal(h / 100);
    push_char(&mut s, '.');
    push_char(&mut s, digit_of((h % 100) / 10));
    push_char(&mut s, digit_of(h % 10));
    proof {
        assert(s@ =~= two_decimals(h as nat));
    }
    s
}

/// Converts a byte count into a human-readable string with IEC units
/// (bytes, KiB, MiB, GiB, TiB, PiB), using base 1024 and at most two
/// decimals with trailing zeros removed: `500` gives `"500 bytes"`,
/// `2048` gives `"2 KiB"`, `1536` gives `"1.5 KiB"`.
pub fn bytes_to_human_readable(bytes: u64) -> (s: String)
    ensures
        s@ == human_readable(bytes as nat),
{
    if bytes < 1024 {
        let mut s = to_decimal(bytes as u128);
        s.append(" bytes");
        return s;
    }
    let v = f64_value_exec(bytes);
    let k = unit_index_exec(v);
    let d = unit_bytes_exec(k);
    let h = div_round_even_exec(v * 100, d);
    let mut s = trimmed_hundredths_exec(h);
    s.append(" ");
    s.append(unit_name_exec(k));
    s
}

} // verus!
