//! Human-readable byte sizes ("1.50 GB", "512.00 KB", "17 B").
//!
//! Sizes of a kibibyte and more are shown with two decimals, exactly as a
//! 64-bit float holding `bytes` divided by the unit would print with two
//! decimals: the byte count is first rounded to 53 significant bits (the
//! nearest `f64`, ties to even), the quotient by the unit is then exact,
//! and the two-decimal text is the correctly rounded value, ties to even.

use vstd::prelude::*;
use vstd::string::*;
use crate::text::{decimal, digit_char, digit_str, digits_value, push_decimal};

verus! {

pub const KIB: u64 = 1024;

pub const MIB: u64 = 1048576;

pub const GIB: u64 = 1073741824;

/// 2^53, the first integer from which not every integer is an `f64`.
pub const F64_EXACT_LIMIT: u64 = 9007199254740992;

/// The spacing of the `f64` values around `n`: 1 below 2^53, doubling with
/// every further bit of `n`.
pub open spec fn f64_ulp(n: nat) -> nat
    decreases n,
{
    if n < F64_EXACT_LIMIT {
        1
    } else {
        2 * f64_ulp(n / 2)
    }
}

/// The value of `n` converted to `f64`: `n` rounded to a multiple of its
/// spacing, to nearest, ties to the even multiple.
pub open spec fn as_f64(n: nat) -> nat {
    let p = f64_ulp(n);
    let q = n / p;
    let r = n % p;
    if 2 * r > p || (2 * r == p && q % 2 == 1) {
        (q + 1) * p
    } else {
        q * p
    }
}

/// Below 2^53 the conversion to `f64` is exact.
pub proof fn lemma_exact_below_f64_limit(n: nat)
    requires
        n < F64_EXACT_LIMIT,
    ensures
        f64_ulp(n) == 1,
        as_f64(n) == n,
{
    assert(n / 1 == n && n % 1 == 0) by {
        vstd::arithmetic::div_mod::lemma_div_basics_2(n as int);
        vstd::arithmetic::div_mod::lemma_mod_pos_bound(n as int, 1);
    }
    assert(n * 1 == n);
}

/// `num / den` in hundredths, rounded to nearest, ties to even.
pub open spec fn round_hundredths(num: nat, den: nat) -> nat {
    let t = num * 100;
    let q = t / den;
    let r = t % den;
    if 2 * r > den || (2 * r == den && q % 2 == 1) {
        q + 1
    } else {
        q
    }
}

/// A count of hundredths written with two decimals, such as `12.05`.
pub open spec fn fixed2(h: nat) -> Seq<char> {
    decimal(h / 100) + seq!['.', digit_char((h % 100) / 10), digit_char(h % 10)]
}

/// The text shown for a size of `b` bytes.
pub open spec fn byte_text(b: nat) -> Seq<char> {
    if b >= GIB {
        fixed2(round_hundredths(as_f64(b), GIB as nat)) + " GB"@
    } else if b >= MIB {
        fixed2(round_hundredths(as_f64(b), MIB as nat)) + " MB"@
    } else if b >= KIB {
        fixed2(round_hundredths(as_f64(b), KIB as nat)) + " KB"@
    } else {
        decimal(b) + " B"@
    }
}

/// `n` converted to `f64`, as the integer that float holds.
fn f64_value(n: u64) -> (v: u128)
    ensures
        v == as_f64(n as nat),
        v < 0x10_0000_0000_0000_0000,
{
    let mut p: u64 = 1;
    let mut m: u64 = n;
    while m >= F64_EXACT_LIMIT
        invariant
            0 < p < 4096,
            m == n as nat / p as nat,
            f64_ulp(n as nat) == p * f64_ulp(m as nat),
        decreases m,
    {
        proof {
            vstd::arithmetic::div_mod::lemma_fundamental_div_mod(n as int, p as int);
            assert(0 <= n as int % p as int) by {
                vstd::arithmetic::div_mod::lemma_mod_pos_bound(n as int, p as int);
            }
            assert(p * m <= n);
            assert(p < 2048) by (nonlinear_arith)
                requires
                    p * m <= n,
                    m >= F64_EXACT_LIMIT,
                    n < 0x1_0000_0000_0000_0000,
            ;
            vstd::arithmetic::div_mod::lemma_div_denominator(n as int, p as int, 2);
            let u = f64_ulp((m / 2) as nat);
            assert(f64_ulp(m as nat) == 2 * u);
            assert(p * (2 * u) == (p * 2) * u) by (nonlinear_arith);
        }
        m = m / 2;
        p = p * 2;
    }
    let r = n % p;
    let q = m;
    proof {
        assert(f64_ulp(m as nat) == 1);
        assert(p * f64_ulp(m as nat) == p) by (nonlinear_arith)
            requires
                f64_ulp(m as nat) == 1,
        ;
        assert(f64_ulp(n as nat) == p);
        assert(q == n as nat / f64_ulp(n as nat));
        assert(r == n as nat % f64_ulp(n as nat));
        assert(q * p < 0x10_0000_0000_0000_0000) by (nonlinear_arith)
            requires
                q < F64_EXACT_LIMIT,
                p < 4096,
        ;
    }
    let p128 = p as u128;
    let q128 = q as u128;
    if 2 * (r as u128) > p128 || (2 * (r as u128) == p128 && q % 2 == 1) {
        proof {
            assert((q + 1) * p < 0x10_0000_0000_0000_0000) by (nonlinear_arith)
                requires
                    q < F64_EXACT_LIMIT,
                    p < 4096,
            ;
        }
        (q128 + 1) * p128
    } else {
        q128 * p128
    }
}

/// `num / den` in hundredths, rounded to nearest, ties to even.
fn hundredths(num: u128, den: u128) -> (h: u128)
    requires
        num < 0x10_0000_0000_0000_0000,
        0 < den <= 0x1_0000_0000_0000_0000,
    ensures
        h == round_hundredths(num as nat, den as nat),
{
    let t = num * 100;
    let q = t / den;
    let r = t % den;
    proof {
        vstd::arithmetic::div_mod::lemma_div_basics_5(t as int, den as int);
        vstd::arithmetic::div_mod::lemma_mod_pos_bound(t as int, den as int);
    }
    if 2 * r > den || (2 * r == den && q % 2 == 1) {
        q + 1
    } else {
        q
    }
}

/// Appends `h` hundredths written with two decimals.
fn push_fixed2(out: &mut String, h: u128)
    ensures
        final(out)@ == old(out)@ + fixed2(h as nat),
{
    push_decimal(out, h / 100);
    out.append(".");
    out.append(digit_str((h % 100) / 10));
    out.append(digit_str(h % 10));
    proof {
        reveal_strlit(".");
        assert(h % 10 == (h % 100) % 10) by {
            vstd::arithmetic::div_mod::lemma_mod_mod(h as int, 10, 10);
        }
        assert(final(out)@ =~= old(out)@ + fixed2(h as nat));
    }
}

/// The size `bytes` in the largest unit it reaches (GB, MB, KB), with two
/// decimals, or in plain bytes below one kibibyte.
pub fn format_bytes(bytes: u64) -> (r: String)
    ensures
        r@ == byte_text(bytes as nat),
{
    let mut out = String::new();
    if bytes >= GIB {
        push_fixed2(&mut out, hundredths(f64_value(bytes), GIB as u128));
        out.append(" GB");
    } else if bytes >= MIB {
        push_fixed2(&mut out, hundredths(f64_value(bytes), MIB as u128));
        out.append(" MB");
    } else if bytes >= KIB {
        push_fixed2(&mut out, hundredths(f64_value(bytes), KIB as u128));
        out.append(" KB");
    } else {
        push_decimal(&mut out, bytes as u128);
        out.append(" B");
    }
    out
}

/// The unit is the largest of 1024^3 (GB), 1024^2 (MB) and 1024 (KB) that
/// the size reaches, shown with its hundredths; below 1024 the plain byte
/// count is shown. Below 2^53 bytes the size is divided exactly; from there
/// on it is first rounded as a 64-bit float.
pub proof fn law_byte_units(b: nat)
    ensures
        b < 1024 ==> byte_text(b) == decimal(b) + " B"@,
        1024 <= b < 1048576 ==> byte_text(b) == fixed2(round_hundredths(b, 1024)) + " KB"@,
        1048576 <= b < 1073741824 ==> byte_text(b) == fixed2(round_hundredths(b, 1048576)) + " MB"@,
        1073741824 <= b < 9007199254740992 ==> byte_text(b) == fixed2(round_hundredths(b, 1073741824))
            + " GB"@,
        b >= 9007199254740992 ==> byte_text(b) == fixed2(round_hundredths(as_f64(b), 1073741824))
            + " GB"@,
{
    if b < F64_EXACT_LIMIT {
        lemma_exact_below_f64_limit(b);
    }
}

/// The hundredths shown are the nearest to `num / den`: off by at most half
/// a hundredth, and on an exact half the even count is taken.
pub proof fn law_rounding_is_nearest(num: nat, den: nat)
    requires
        den > 0,
    ensures
        -(den as int) <= 2 * (100 * num - round_hundredths(num, den) * den) <= den,
        (2 * (100 * num - round_hundredths(num, den) * den) == den || 2 * (100 * num
            - round_hundredths(num, den) * den) == -(den as int)) ==> round_hundredths(num, den) % 2 == 0,
{
    let t = num * 100;
    let q = t / den;
    let r = t % den;
    vstd::arithmetic::div_mod::lemma_fundamental_div_mod(t as int, den as int);
    vstd::arithmetic::div_mod::lemma_mod_pos_bound(t as int, den as int);
    assert(t == 100 * num);
    assert(q * den == den * q) by (nonlinear_arith);
    assert((q + 1) * den == q * den + den) by (nonlinear_arith);
}

/// `fixed2(h)` is the whole part `h / 100` in decimal, a point, and two
/// digits that read as `h % 100`.
pub proof fn law_two_decimals(h: nat)
    ensures
        fixed2(h).len() == decimal(h / 100).len() + 3,
        fixed2(h).subrange(0, decimal(h / 100).len() as int) == decimal(h / 100),
        fixed2(h)[decimal(h / 100).len() as int] == '.',
        48 <= fixed2(h)[decimal(h / 100).len() as int + 1] as int <= 57,
        48 <= fixed2(h)[decimal(h / 100).len() as int + 2] as int <= 57,
        digits_value(fixed2(h).subrange(decimal(h / 100).len() as int + 1, decimal(h / 100).len() as int + 3)) == h % 100,
{
    let w = decimal(h / 100);
    let f = fixed2(h);
    let tens = (h % 100) / 10;
    let ones = h % 10;
    assert(f.subrange(0, w.len() as int) =~= w);
    let two = f.subrange(w.len() as int + 1, w.len() as int + 3);
    assert(two =~= seq![digit_char(tens), digit_char(ones)]);
    assert(two.drop_last() =~= seq![digit_char(tens)]);
    assert(two.drop_last().drop_last() =~= Seq::<char>::empty());
    assert(digits_value(Seq::<char>::empty()) == 0);
    assert(tens < 10 && ones < 10);
    assert(digit_char(tens) as int == 48 + tens);
    assert(digit_char(ones) as int == 48 + ones);
    assert(ones == (h % 100) % 10) by {
        vstd::arithmetic::div_mod::lemma_mod_mod(h as int, 10, 10);
    }
    assert(h % 100 == tens * 10 + ones);
    assert(digits_value(two.drop_last()) == tens);
    assert(digits_value(two) == tens * 10 + ones);
}

/// The spacing of the `f64` values around `n` is a power of two: 1 below
/// 2^53, and from there the one that puts `n` between 2^52 and 2^53 steps
/// (53 significant bits). `n` converted to `f64` is a multiple of that
/// spacing, off from `n` by at most half of it, and on an exact half the
/// even multiple is taken.
pub proof fn law_f64_rounding(n: nat)
    ensures
        exists|e: nat| f64_ulp(n) == vstd::arithmetic::power2::pow2(e),
        n < 9007199254740992 ==> f64_ulp(n) == 1,
        n >= 9007199254740992 ==> 4503599627370496 * f64_ulp(n) <= n < 9007199254740992 * f64_ulp(n),
        as_f64(n) % f64_ulp(n) == 0,
        -(f64_ulp(n) as int) <= 2 * (as_f64(n) - n) <= f64_ulp(n),
        (2 * (as_f64(n) - n) == f64_ulp(n) || 2 * (as_f64(n) - n) == -(f64_ulp(n) as int)) ==> (as_f64(n)
            / f64_ulp(n)) % 2 == 0,
    decreases n,
{
    vstd::arithmetic::power2::lemma2_to64();
    if n >= F64_EXACT_LIMIT {
        law_f64_rounding(n / 2);
        let u = f64_ulp(n / 2);
        assert(f64_ulp(n) == 2 * u);
        let e = choose|e: nat| u == vstd::arithmetic::power2::pow2(e);
        vstd::arithmetic::power2::lemma_pow2_unfold(e + 1);
        assert(f64_ulp(n) == vstd::arithmetic::power2::pow2(e + 1));
    }
    let p = f64_ulp(n);
    assert(p >= 1) by {
        if n >= F64_EXACT_LIMIT {
            assert(4503599627370496 * p <= n < 9007199254740992 * p);
        }
    }
    let q = n / p;
    let r = n % p;
    vstd::arithmetic::div_mod::lemma_fundamental_div_mod(n as int, p as int);
    vstd::arithmetic::div_mod::lemma_mod_pos_bound(n as int, p as int);
    assert(p * q == q * p) by (nonlinear_arith);
    assert((q + 1) * p == q * p + p) by (nonlinear_arith);
    vstd::arithmetic::div_mod::lemma_mod_multiples_basic(q as int, p as int);
    vstd::arithmetic::div_mod::lemma_mod_multiples_basic((q + 1) as int, p as int);
    vstd::arithmetic::div_mod::lemma_div_multiples_vanish(q as int, p as int);
    vstd::arithmetic::div_mod::lemma_div_multiples_vanish((q + 1) as int, p as int);
    assert((q * p) / p == q);
    assert(((q + 1) * p) / p == q + 1) by {
        assert((q + 1) * p == p * (q + 1)) by (nonlinear_arith);
    }
    if 2 * r > p || (2 * r == p && q % 2 == 1) {
        assert(as_f64(n) == (q + 1) * p);
        assert(2 * (as_f64(n) - n) == 2 * p - 2 * r);
    } else {
        assert(as_f64(n) == q * p);
        assert(2 * (as_f64(n) - n) == -2 * r);
    }
}

} // verus!
