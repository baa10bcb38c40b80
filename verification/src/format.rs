//! Human-readable numbers: percentages, byte sizes, durations and fixed-point values.
//!
//! Fractions are rounded to the nearest digit shown, an exact tie to the even digit, as Rust
//! rounds a float that it prints with a fixed number of decimals.

use vstd::prelude::*;

use crate::text::{decimal, decimal_string, decimal_string_wide, digit, digit_char, join2};

verus! {

/// `n / d` rounded to the nearest integer, an exact half to the even neighbour.
pub open spec fn round_div(n: nat, d: nat) -> nat
    recommends
        d > 0,
{
    let q = n / d;
    let r = n % d;
    if 2 * r > d {
        q + 1
    } else if 2 * r < d {
        q
    } else if q % 2 == 0 {
        q
    } else {
        q + 1
    }
}

/// `n / d` rounded as `round_div` says.
pub fn rounded_quotient(n: u128, d: u128) -> (r: u128)
    requires
        d > 0,
        n < u128::MAX,
    ensures
        r == round_div(n as nat, d as nat),
{
    let q = n / d;
    let rem = n % d;
    proof {
        assert(q * d <= n) by (nonlinear_arith)
            requires
                q == n / d,
                d > 0,
        ;
        assert(q < u128::MAX) by (nonlinear_arith)
            requires
                q * d <= n,
                d > 0,
                n < u128::MAX,
        ;
    }
    if rem > d - rem {
        q + 1
    } else if rem < d - rem {
        q
    } else if q % 2 == 0 {
        q
    } else {
        q + 1
    }
}

/// `t` tenths written with one decimal, as `{:.1}` writes `t / 10`.
pub open spec fn tenths_text(t: nat) -> Seq<char> {
    decimal(t / 10) + seq!['.', digit_char((t % 10) as int)]
}

/// `h` hundredths written with two decimals, as `{:.2}` writes `h / 100`.
pub open spec fn hundredths_text(h: nat) -> Seq<char> {
    decimal(h / 100) + seq!['.', digit_char(((h / 10) % 10) as int), digit_char((h % 10) as int)]
}

/// `t` tenths with one decimal.
pub fn tenths(t: u128) -> (r: String)
    ensures
        r@ == tenths_text(t as nat),
{
    let mut r = decimal_string_wide(t / 10);
    let tail: Vec<char> = vec!['.', digit(t % 10)];
    let mut i: usize = 0;
    let ghost start = r@;
    while i < tail.len()
        invariant
            i <= tail.len(),
            tail@ == seq!['.', digit_char((t % 10) as int)],
            r@ == start + tail@.take(i as int),
        decreases tail.len() - i,
    {
        crate::text::push_char(&mut r, tail[i]);
        i = i + 1;
        assert(r@ =~= start + tail@.take(i as int));
    }
    assert(tail@.take(2) =~= tail@);
    r
}

/// `h` hundredths with two decimals.
pub fn hundredths(h: u64) -> (r: String)
    ensures
        r@ == hundredths_text(h as nat),
{
    let mut r = decimal_string(h / 100);
    let ghost start = r@;
    crate::text::push_char(&mut r, '.');
    crate::text::push_char(&mut r, digit(((h / 10) % 10) as u128));
    crate::text::push_char(&mut r, digit((h % 10) as u128));
    assert(r@ =~= start + seq!['.', digit_char(((h / 10) % 10) as int), digit_char((h % 10) as int)]);
    r
}

/// `used` as a share of `total`, in tenths of a percent; zero when `total` is zero.
pub open spec fn percent_tenths(used: nat, total: nat) -> nat {
    if total == 0 {
        0
    } else {
        round_div(1000 * used, total)
    }
}

/// `used` as a share of `total`, in tenths of a percent; zero when `total` is zero.
pub fn percent(used: u64, total: u64) -> (r: u128)
    ensures
        r == percent_tenths(used as nat, total as nat),
{
    if total == 0 {
        0
    } else {
        rounded_quotient(1000 * (used as u128), total as u128)
    }
}

/// Tenths of a percent rounded from hundredths of a percent.
pub fn hundredths_to_tenths(h: u32) -> (r: u128)
    ensures
        r == round_div(h as nat, 10),
{
    rounded_quotient(h as u128, 10)
}

/// The name of the byte unit `1024^k`.
pub open spec fn unit_name(k: nat) -> Seq<char> {
    if k == 0 {
        "B"@
    } else if k == 1 {
        "KiB"@
    } else if k == 2 {
        "MiB"@
    } else if k == 3 {
        "GiB"@
    } else if k == 4 {
        "TiB"@
    } else if k == 5 {
        "PiB"@
    } else {
        "EiB"@
    }
}

/// The largest unit, from `unit = 1024^k` upwards, that is at most `v`, with its exponent.
pub open spec fn unit_scale(v: nat, unit: nat, k: nat) -> (nat, nat)
    decreases 6 - k,
{
    if k < 6 && v >= unit * 1024 {
        unit_scale(v, unit * 1024, k + 1)
    } else {
        (unit, k)
    }
}

/// A byte count as it is shown: whole bytes below 1 KiB, else one decimal in the largest
/// binary unit that fits.
pub open spec fn byte_text(v: nat) -> Seq<char> {
    if v < 1024 {
        decimal(v) + " B"@
    } else {
        let (unit, k) = unit_scale(v, 1024, 1);
        tenths_text(round_div(10 * v, unit)) + " "@ + unit_name(k)
    }
}

/// The name of the byte unit `1024^k`.
fn unit_label(k: usize) -> (r: &'static str)
    ensures
        r@ == unit_name(k as nat),
{
    proof {
        reveal_strlit("B");
        reveal_strlit("KiB");
        reveal_strlit("MiB");
        reveal_strlit("GiB");
        reveal_strlit("TiB");
        reveal_strlit("PiB");
        reveal_strlit("EiB");
    }
    if k == 0 {
        "B"
    } else if k == 1 {
        "KiB"
    } else if k == 2 {
        "MiB"
    } else if k == 3 {
        "GiB"
    } else if k == 4 {
        "TiB"
    } else if k == 5 {
        "PiB"
    } else {
        "EiB"
    }
}

/// A byte count as it is shown.
pub fn bytes(v: u64) -> (r: String)
    ensures
        r@ == byte_text(v as nat),
{
    if v < 1024 {
        let digits = decimal_string(v);
        proof {
            reveal_strlit(" B");
        }
        return join2(digits.as_str(), " B");
    }
    let wide = v as u128;
    let mut unit: u128 = 1024;
    let mut k: usize = 1;
    while k < 6 && wide >= unit * 1024
        invariant
            1 <= k <= 6,
            0 < unit <= wide,
            wide == v,
            wide < 0x1_0000_0000_0000_0000,
            unit_scale(v as nat, unit as nat, k as nat) == unit_scale(v as nat, 1024, 1),
        decreases 6 - k,
    {
        unit = unit * 1024;
        k = k + 1;
    }
    let t = rounded_quotient(10 * wide, unit);
    let number = tenths(t);
    proof {
        reveal_strlit(" ");
    }
    let with_space = join2(number.as_str(), " ");
    join2(with_space.as_str(), unit_label(k))
}

/// A duration in seconds as it is shown: days, hours and minutes from one day on; hours and
/// minutes from one hour on; else minutes and seconds.
pub open spec fn duration_text(s: nat) -> Seq<char> {
    let days = s / 86400;
    let hours = (s % 86400) / 3600;
    let minutes = (s % 3600) / 60;
    let seconds = s % 60;
    if days > 0 {
        decimal(days) + "d "@ + decimal(hours) + "h "@ + decimal(minutes) + "m"@
    } else if hours > 0 {
        decimal(hours) + "h "@ + decimal(minutes) + "m"@
    } else {
        decimal(minutes) + "m "@ + decimal(seconds) + "s"@
    }
}

/// A number followed by a unit text.
fn number_and(n: u64, unit: &str) -> (r: String)
    ensures
        r@ == decimal(n as nat) + unit@,
{
    let digits = decimal_string(n);
    join2(digits.as_str(), unit)
}

/// A duration in seconds as it is shown.
pub fn duration(s: u64) -> (r: String)
    ensures
        r@ == duration_text(s as nat),
{
    let days = s / 86400;
    let hours = (s % 86400) / 3600;
    let minutes = (s % 3600) / 60;
    let seconds = s % 60;
    proof {
        reveal_strlit("d ");
        reveal_strlit("h ");
        reveal_strlit("m");
        reveal_strlit("m ");
        reveal_strlit("s");
    }
    if days > 0 {
        let a = number_and(days, "d ");
        let b = number_and(hours, "h ");
        let c = number_and(minutes, "m");
        let ab = join2(a.as_str(), b.as_str());
        let r = join2(ab.as_str(), c.as_str());
        assert(r@ =~= duration_text(s as nat));
        r
    } else if hours > 0 {
        let b = number_and(hours, "h ");
        let c = number_and(minutes, "m");
        let r = join2(b.as_str(), c.as_str());
        assert(r@ =~= duration_text(s as nat));
        r
    } else {
        let c = number_and(minutes, "m ");
        let d = number_and(seconds, "s");
        let r = join2(c.as_str(), d.as_str());
        assert(r@ =~= duration_text(s as nat));
        r
    }
}

} // verus!
