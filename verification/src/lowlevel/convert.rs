//! Conversions between physical quantities and register settings.
use vstd::prelude::*;
use vstd::arithmetic::power2::pow2;
use vstd::arithmetic::div_mod::{lemma_div_denominator, lemma_fundamental_div_mod, lemma_mod_breakdown};

use super::FXOSC;

verus! {

/// The frequency control word for a carrier frequency: `f = FXOSC / 2^16 * FREQ`.
pub open spec fn frequency_word(hz: u64) -> int {
    (hz * 65536) / (FXOSC as int)
}

/// FREQ0, FREQ1 and FREQ2 for a carrier frequency of `hz` Hertz: the low,
/// middle and high byte of `hz * 2^16 / FXOSC`.
pub fn from_frequency(hz: u64) -> (r: (u8, u8, u8))
    ensures
        r.0 == frequency_word(hz) % 256,
        r.1 == (frequency_word(hz) / 256) % 256,
        r.2 == (frequency_word(hz) / 65536) % 256,
        r.0 + 256 * r.1 + 65536 * r.2 == frequency_word(hz) % 16777216,
        r.0 + 256 * r.1 + 65536 * r.2 == ((hz * 65536) / 26000000) % 16777216,
{
    let freq: u128 = (hz as u128) * 65536 / (FXOSC as u128);
    proof {
        let a = freq as int;
        lemma_mod_breakdown(a, 256, 65536);
        lemma_mod_breakdown(a / 256, 256, 256);
        lemma_div_denominator(a, 256, 256);
    }
    ((freq % 256) as u8, ((freq / 256) % 256) as u8, ((freq / 65536) % 256) as u8)
}

/// FREQ_IF for an intermediate frequency of `hz` Hertz: `f_IF = FXOSC / 2^10 * FREQ_IF`,
/// cut to a byte.
pub fn from_freq_if(hz: u64) -> (r: u8)
    ensures
        r == ((hz * 1024) / (FXOSC as int)) % 256,
{
    (((hz as u128) * 1024 / (FXOSC as u128)) % 256) as u8
}

/// A setting of the form `(base + m) * 2^e`, with `m < base` and `e <= max_e`,
/// chosen for the value `n`: the largest one not above `n`, or the smallest
/// or largest setting where `n` is below or above all of them.
pub open spec fn is_setting_for(n: int, base: int, max_e: nat, m: int, e: nat) -> bool {
    if n < base {
        m == 0 && e == 0
    } else if n >= 2 * base * pow2(max_e) {
        m == base - 1 && e == max_e
    } else {
        &&& e <= max_e
        &&& 0 <= m < base
        &&& (base + m) * pow2(e) <= n
        &&& n < (base + m + 1) * pow2(e)
    }
}

/// The setting for `n`: the only `(m, e)` that [`is_setting_for`] holds of.
pub open spec fn setting_for(n: int, base: int, max_e: nat) -> (int, nat) {
    choose|m: int, e: nat| is_setting_for(n, base, max_e, m, e)
}

/// A value has only one setting.
pub proof fn lemma_setting_unique(n: int, base: int, max_e: nat, m1: int, e1: nat, m2: int, e2: nat)
    requires
        base >= 1,
        is_setting_for(n, base, max_e, m1, e1),
        is_setting_for(n, base, max_e, m2, e2),
    ensures
        m1 == m2,
        e1 == e2,
{
    if n < base || n >= 2 * base * pow2(max_e) {
        return;
    }
    if e1 != e2 {
        let (lo_m, lo_e, hi_m, hi_e) = if e1 < e2 { (m1, e1, m2, e2) } else { (m2, e2, m1, e1) };
        vstd::arithmetic::power2::lemma_pow2_unfold(lo_e + 1);
        if lo_e + 1 < hi_e {
            vstd::arithmetic::power2::lemma_pow2_strictly_increases(lo_e + 1, hi_e);
        }
        let p1 = pow2(lo_e);
        let p2 = pow2(hi_e);
        assert(2 * p1 <= p2);
        assert(false) by (nonlinear_arith)
            requires
                n < (base + lo_m + 1) * p1,
                (base + hi_m) * p2 <= n,
                2 * p1 <= p2,
                0 <= lo_m < base,
                0 <= hi_m,
                p1 >= 0,
        ;
    } else {
        let p = pow2(e1);
        vstd::arithmetic::power2::lemma_pow2_pos(e1);
        assert(m1 == m2) by (nonlinear_arith)
            requires
                (base + m1) * p <= n < (base + m1 + 1) * p,
                (base + m2) * p <= n < (base + m2 + 1) * p,
                p > 0,
        ;
    }
}

/// A setting that [`is_setting_for`] holds of is the setting.
pub proof fn lemma_setting_for(n: int, base: int, max_e: nat, m: int, e: nat)
    requires
        base >= 1,
        is_setting_for(n, base, max_e, m, e),
    ensures
        setting_for(n, base, max_e) == (m, e),
{
    let (m2, e2) = setting_for(n, base, max_e);
    lemma_setting_unique(n, base, max_e, m, e, m2, e2);
}

/// A setting for `x / f` (rounded down) in terms of `x` and `f` themselves:
/// `(base + m) * 2^e * f <= x < (base + m + 1) * 2^e * f`, or the ends of the
/// range where `x` lies outside it.
pub proof fn lemma_setting_physical(x: int, f: int, base: int, max_e: nat, m: int, e: nat)
    requires
        x >= 0,
        f > 0,
        base >= 1,
        is_setting_for(x / f, base, max_e, m, e),
    ensures
        x < base * f ==> m == 0 && e == 0,
        x >= 2 * base * pow2(max_e) * f ==> m == base - 1 && e == max_e,
        base * f <= x < 2 * base * pow2(max_e) * f ==> {
            &&& 0 <= m < base
            &&& e <= max_e
            &&& (base + m) * pow2(e) * f <= x
            &&& x < (base + m + 1) * pow2(e) * f
        },
{
    let n = x / f;
    let p = pow2(e);
    let k = 2 * base * pow2(max_e);
    vstd::arithmetic::power2::lemma_pow2_pos(e);
    vstd::arithmetic::power2::lemma_pow2_pos(max_e);
    lemma_fundamental_div_mod(x, f);
    assert(n * f <= x < n * f + f) by (nonlinear_arith)
        requires
            x == f * n + x % f,
            0 <= x % f < f,
    ;
    assert(x < base * f <==> n < base) by (nonlinear_arith)
        requires
            n * f <= x < n * f + f,
            f > 0,
    ;
    assert(x >= k * f <==> n >= k) by (nonlinear_arith)
        requires
            n * f <= x < n * f + f,
            f > 0,
    ;
    assert(k * f == 2 * base * pow2(max_e) * f);
    assert(k >= base) by (nonlinear_arith)
        requires
            k == 2 * base * pow2(max_e),
            pow2(max_e) > 0,
            base >= 1,
    ;
    if n >= k {
        assert(m == base - 1 && e == max_e);
    }
    if base <= n < k {
        assert((base + m) * p * f <= x) by (nonlinear_arith)
            requires
                (base + m) * p <= n,
                n * f <= x,
                f > 0,
        ;
        assert(x < (base + m + 1) * p * f) by (nonlinear_arith)
            requires
                n < (base + m + 1) * p,
                x < n * f + f,
                f > 0,
        ;
    }
}

/// Mantissa and exponent of the setting of the form `(base + m) * 2^e` for `n`.
fn mantissa_exponent(n: u128, base: u128, max_e: u32) -> (r: (u128, u32))
    requires
        1 <= base,
        max_e < 64,
        2 * base * pow2(max_e as nat) <= u128::MAX,
    ensures
        is_setting_for(n as int, base as int, max_e as nat, r.0 as int, r.1 as nat),
        r.0 < base,
        r.1 <= max_e,
{
    if n < base {
        return (0, 0);
    }
    let mut e: u32 = 0;
    let mut p: u128 = 1;
    proof {
        vstd::arithmetic::power2::lemma2_to64();
        vstd::arithmetic::power2::lemma_pow2_pos(max_e as nat);
    }
    while e < max_e && n / 2 >= base * p
        invariant
            1 <= base,
            base <= n,
            e <= max_e < 64,
            p as nat == pow2(e as nat),
            2 * base * pow2(max_e as nat) <= u128::MAX,
            base * p <= n,
        decreases max_e - e,
    {
        proof {
            vstd::arithmetic::power2::lemma_pow2_unfold((e + 1) as nat);
            if e + 1 < max_e {
                vstd::arithmetic::power2::lemma_pow2_strictly_increases((e + 1) as nat, max_e as nat);
            }
            assert(p * 2 <= pow2(max_e as nat));
            assert(pow2(max_e as nat) <= 2 * base * pow2(max_e as nat)) by (nonlinear_arith)
                requires
                    1 <= base,
            ;
            assert(base * (p * 2) <= 2 * base * pow2(max_e as nat)) by (nonlinear_arith)
                requires
                    p * 2 <= pow2(max_e as nat),
                    1 <= base,
            ;
            assert(base * (p * 2) == 2 * (base * p)) by (nonlinear_arith);
        }
        e = e + 1;
        p = p * 2;
    }
    proof {
        vstd::arithmetic::power2::lemma_pow2_pos(e as nat);
    }
    let q = n / p;
    proof {
        lemma_fundamental_div_mod(n as int, p as int);
        assert(q >= base) by (nonlinear_arith)
            requires
                base * p <= n,
                q == n / p,
                p > 0,
        ;
    }
    if e == max_e && n / 2 >= base * p {
        proof {
            assert(n >= 2 * base * pow2(max_e as nat)) by (nonlinear_arith)
                requires
                    n / 2 >= base * p,
                    p == pow2(max_e as nat),
            ;
        }
        return (base - 1, e);
    }
    proof {
        assert(n < 2 * base * p) by (nonlinear_arith)
            requires
                n / 2 < base * p,
        ;
        assert(q < 2 * base) by (nonlinear_arith)
            requires
                n < 2 * base * p,
                n == p * q + n % p,
                0 <= n % p < p,
                p > 0,
        ;
        assert((base + (q - base)) * p <= n < (base + (q - base) + 1) * p) by (nonlinear_arith)
            requires
                n == p * q + n % p,
                0 <= n % p < p,
        ;
        if e < max_e {
            vstd::arithmetic::power2::lemma_pow2_strictly_increases(e as nat, max_e as nat);
            assert(n < 2 * base * pow2(max_e as nat)) by (nonlinear_arith)
                requires
                    n < 2 * base * p,
                    p < pow2(max_e as nat),
                    base >= 1,
            ;
        } else {
            assert(n < 2 * base * pow2(max_e as nat));
        }
    }
    (q - base, e)
}

/// The value `(8 + DEVIATION_M) * 2^DEVIATION_E` that a deviation of `hz`
/// Hertz asks for: `f_dev = FXOSC / 2^17 * (8 + DEVIATION_M) * 2^DEVIATION_E`.
pub open spec fn deviation_word(hz: u64) -> int {
    (hz * 131072) / (FXOSC as int)
}

/// DEVIATION_M and DEVIATION_E for a frequency deviation of `hz` Hertz: the
/// largest deviation not above it, or the smallest or largest one where it
/// lies outside their range.
pub fn from_deviation(hz: u64) -> (r: (u8, u8))
    ensures
        is_setting_for(deviation_word(hz), 8, 7, r.0 as int, r.1 as nat),
        (r.0 as int, r.1 as nat) == setting_for(deviation_word(hz), 8, 7),
        hz * 131072 < 8 * 26000000 ==> r == (0u8, 0u8),
        hz * 131072 >= 2048 * 26000000 ==> r == (7u8, 7u8),
        8 * 26000000 <= hz * 131072 < 2048 * 26000000 ==> (8 + r.0) * pow2(r.1 as nat) * 26000000 <= hz
            * 131072 < (9 + r.0) * pow2(r.1 as nat) * 26000000,
        r.0 < 8,
        r.1 < 8,
{
    let n: u128 = (hz as u128) * 131072 / (FXOSC as u128);
    proof {
        vstd::arithmetic::power2::lemma2_to64();
    }
    let (m, e) = mantissa_exponent(n, 8, 7);
    proof {
        lemma_setting_for(deviation_word(hz), 8, 7, m as int, e as nat);
        lemma_setting_physical(hz * 131072, 26000000, 8, 7, m as int, e as nat);
    }
    (m as u8, e as u8)
}

/// The value `(256 + DRATE_M) * 2^DRATE_E` that a data rate of `baud` asks for:
/// `R = (256 + DRATE_M) * 2^DRATE_E * FXOSC / 2^28`.
pub open spec fn data_rate_word(baud: u64) -> int {
    (baud * 268435456) / (FXOSC as int)
}

/// DRATE_M and DRATE_E for a data rate of `baud` bits per second: the
/// largest rate not above it, or the smallest or largest one where it lies
/// outside their range.
pub fn from_drate(baud: u64) -> (r: (u8, u8))
    ensures
        is_setting_for(data_rate_word(baud), 256, 15, r.0 as int, r.1 as nat),
        (r.0 as int, r.1 as nat) == setting_for(data_rate_word(baud), 256, 15),
        baud * 268435456 < 256 * 26000000 ==> r == (0u8, 0u8),
        baud * 268435456 >= 16777216 * 26000000 ==> r == (255u8, 15u8),
        256 * 26000000 <= baud * 268435456 < 16777216 * 26000000 ==> (256 + r.0) * pow2(r.1 as nat) * 26000000
            <= baud * 268435456 < (257 + r.0) * pow2(r.1 as nat) * 26000000,
        r.1 < 16,
{
    let n: u128 = (baud as u128) * 268435456 / (FXOSC as u128);
    proof {
        vstd::arithmetic::power2::lemma2_to64();
    }
    let (m, e) = mantissa_exponent(n, 256, 15);
    proof {
        lemma_setting_for(data_rate_word(baud), 256, 15, m as int, e as nat);
        lemma_setting_physical(baud * 268435456, 26000000, 256, 15, m as int, e as nat);
    }
    (m as u8, e as u8)
}

/// The value `(4 + CHANBW_M) * 2^CHANBW_E` that a channel bandwidth of `hz`
/// asks for: `BW = FXOSC / (8 * (4 + CHANBW_M) * 2^CHANBW_E)`.
pub open spec fn chanbw_word(hz: u64) -> int {
    (FXOSC as int) / (8 * hz)
}

/// CHANBW_M and CHANBW_E for a channel bandwidth of `hz` Hertz: the narrowest
/// bandwidth not below it, or the widest or narrowest one where it lies
/// outside their range.
pub fn from_chanbw(hz: u64) -> (r: (u8, u8))
    requires
        0 < hz,
    ensures
        is_setting_for(chanbw_word(hz), 4, 3, r.0 as int, r.1 as nat),
        (r.0 as int, r.1 as nat) == setting_for(chanbw_word(hz), 4, 3),
        26000000 < 4 * (8 * hz) ==> r == (0u8, 0u8),
        26000000 >= 64 * (8 * hz) ==> r == (3u8, 3u8),
        4 * (8 * hz) <= 26000000 < 64 * (8 * hz) ==> (4 + r.0) * pow2(r.1 as nat) * (8 * hz) <= 26000000 < (5
            + r.0) * pow2(r.1 as nat) * (8 * hz),
        r.0 < 4,
        r.1 < 4,
{
    let n: u128 = (FXOSC as u128) / (8 * (hz as u128));
    proof {
        vstd::arithmetic::power2::lemma2_to64();
    }
    let (m, e) = mantissa_exponent(n, 4, 3);
    proof {
        lemma_setting_for(chanbw_word(hz), 4, 3, m as int, e as nat);
        lemma_setting_physical(26000000, 8 * hz, 4, 3, m as int, e as nat);
    }
    (m as u8, e as u8)
}

/// The signal strength in dBm that an RSSI reading stands for: the reading is
/// a two's complement number of half dB, offset by 74 dB.
pub open spec fn rssi_dbm(rssi: u8) -> int {
    if rssi >= 128 {
        -((256 - rssi) / 2) - 74
    } else {
        rssi / 2 - 74
    }
}

/// The signal strength in dBm of an RSSI reading (halves rounded toward zero).
pub fn from_rssi_to_rssi_dbm(rssi: u8) -> (r: i16)
    ensures
        r == rssi_dbm(rssi),
        -138 <= r <= -11,
{
    if rssi >= 128 {
        let half: i16 = ((256 - rssi as u16) / 2) as i16;
        -half - 74
    } else {
        (rssi / 2) as i16 - 74
    }
}

} // verus!
