//! IEEE-754 single-precision bit patterns, computed over the integers.
//!
//! The backend recorder hands 32-bit floating-point values to the native
//! command list (clear colors, viewport rectangles, the fixed depth range),
//! but verified code carries no floating-point type. This module therefore
//! represents every such value by its bit pattern, a `u32`, and provides
//! verified conversions from the integer inputs the interface accepts.
//!
//! The conversion rounds to nearest, ties to even, exactly as a Rust `as`
//! cast from an integer to `f32` does, so a bit pattern produced here equals
//! `f32::to_bits` of the corresponding cast.

use vstd::prelude::*;

verus! {

use vstd::arithmetic::power2::{
    pow2,
    lemma_pow2_adds,
    lemma_pow2_strictly_increases,
    lemma2_to64,
    lemma2_to64_rest,
};
use vstd::arithmetic::div_mod::{
    lemma_div_is_ordered,
    lemma_fundamental_div_mod_converse,
};
use vstd::arithmetic::mul::{lemma_mul_inequality, lemma_mul_strict_inequality};

/// The bit pattern of `1.0f32`, used for the fixed upper bound of a
/// viewport's depth range.
pub const F32_ONE_BITS: u32 = 0x3F80_0000;

/// The bit pattern of `0.0f32`, used for the fixed lower bound of a
/// viewport's depth range.
pub const F32_ZERO_BITS: u32 = 0;

/// The position of the highest set bit of `x`, i.e. the floor of the base-2
/// logarithm; `0` when `x` is `0` or `1`.
pub open spec fn msb(x: nat) -> nat
    decreases x,
{
    if x < 2 {
        0
    } else {
        1 + msb(x / 2)
    }
}

/// The IEEE-754 single-precision bit pattern of the nonnegative integer `x`,
/// rounded to nearest with ties to even.
///
/// For `x` at most `2^24` the value is exact: the significand is `x` scaled
/// into `[2^23, 2^24)`. Above that, the low `msb(x) - 23` bits are rounded
/// away; a carry out of the significand bumps the exponent. No `u32` rounds
/// up to infinity, so the exponent field never saturates.
pub open spec fn f32_bits_of_nat(x: nat) -> int {
    if x == 0 {
        0
    } else {
        let k = msb(x);
        if k <= 23 {
            (127 + k) * pow2(23) + (x * pow2((23 - k) as nat) - pow2(23))
        } else {
            let s = (k - 23) as nat;
            let q = x / pow2(s);
            let r = x % pow2(s);
            let q2: nat = if 2 * r > pow2(s) || (2 * r == pow2(s) && q % 2 == 1) {
                q + 1
            } else {
                q
            };
            if q2 == pow2(24) {
                ((127 + k + 1) * pow2(23)) as int
            } else {
                (127 + k) * pow2(23) + (q2 - pow2(23))
            }
        }
    }
}

/// The IEEE-754 single-precision bit pattern of the integer `x`: the bit
/// pattern of its magnitude, with the sign bit set when `x` is negative.
pub open spec fn f32_bits_of_int(x: int) -> int {
    if x >= 0 {
        f32_bits_of_nat(x as nat)
    } else {
        0x8000_0000 + f32_bits_of_nat((-x) as nat)
    }
}

/// `msb` is the unique `k` with `pow2(k) <= x < pow2(k + 1)`.
proof fn lemma_msb_unique(x: nat, k: nat)
    requires
        pow2(k) <= x < pow2((k + 1) as nat),
    ensures
        msb(x) == k,
    decreases k,
{
    lemma2_to64();
    if k == 0 {
        assert(x == 1);
    } else {
        lemma_pow2_strictly_increases(0, k);
        assert(pow2(k) == pow2((k - 1) as nat) * 2) by {
            lemma_pow2_adds((k - 1) as nat, 1);
        }
        assert(pow2((k + 1) as nat) == pow2(k) * 2) by {
            lemma_pow2_adds(k, 1);
        }
        assert(x >= 2);
        // x in [2 * pow2(k - 1), 2 * pow2(k)) puts x / 2 in [pow2(k - 1), pow2(k)).
        assert(x / 2 >= pow2((k - 1) as nat)) by {
            lemma_div_is_ordered(pow2(k) as int, x as int, 2);
            lemma_fundamental_div_mod_converse(pow2(k) as int, 2, pow2((k - 1) as nat) as int, 0);
        }
        assert(x / 2 < pow2(k)) by {
            lemma_div_is_ordered(x as int, pow2(k) as int * 2 - 1, 2);
            lemma_fundamental_div_mod_converse(pow2(k) as int * 2 - 1, 2, pow2(k) as int - 1, 1);
        }
        lemma_msb_unique(x / 2, (k - 1) as nat);
    }
}

/// Returns `pow2(e)` as a machine integer.
fn pow2_u64(e: u32) -> (r: u64)
    requires
        e <= 63,
    ensures
        r as nat == pow2(e as nat),
{
    let mut r: u64 = 1;
    let mut i: u32 = 0;
    proof {
        lemma2_to64();
    }
    while i < e
        invariant
            i <= e <= 63,
            r as nat == pow2(i as nat),
        decreases e - i,
    {
        proof {
            lemma_pow2_adds(i as nat, 1);
            lemma2_to64();
            if i as nat + 1 < 64 {
                lemma_pow2_strictly_increases(i as nat + 1, 64);
            }
            lemma2_to64_rest();
        }
        r = r * 2;
        i = i + 1;
    }
    r
}

/// Returns the IEEE-754 single-precision bit pattern of `x`, rounded to
/// nearest with ties to even, as `x as f32` rounds.
pub fn f32_bits_from_u32(x: u32) -> (r: u32)
    ensures
        r == f32_bits_of_nat(x as nat),
{
    if x == 0 {
        return 0;
    }
    // Find k with pow2(k) <= x < pow2(k + 1); p tracks pow2(k).
    let mut k: u32 = 0;
    let mut p: u64 = 1;
    proof {
        lemma2_to64();
        lemma2_to64_rest();
    }
    while 2 * p <= x as u64
        invariant
            x >= 1,
            k <= 31,
            p as nat == pow2(k as nat),
            p <= x as u64,
        decreases x as int - p as int,
    {
        proof {
            lemma_pow2_adds(k as nat, 1);
            lemma2_to64();
            lemma2_to64_rest();
            if k as nat + 1 >= 32 {
                assert(k == 31);
                lemma_pow2_strictly_increases(32, k as nat + 1);
            }
        }
        p = 2 * p;
        k = k + 1;
    }
    proof {
        lemma_pow2_adds(k as nat, 1);
        lemma_msb_unique(x as nat, k as nat);
    }
    if k <= 23 {
        // Exact: scale the significand up into [2^23, 2^24).
        let scale: u64 = pow2_u64(23 - k);
        proof {
            lemma2_to64();
            lemma_mul_strict_inequality(x as int, pow2(k as nat + 1) as int, scale as int);
            lemma_mul_inequality(pow2(k as nat) as int, x as int, scale as int);
            lemma_pow2_adds(k as nat + 1, (23 - k) as nat);
            lemma_pow2_adds(k as nat, (23 - k) as nat);
        }
        let m: u64 = (x as u64) * scale;
        let bits: u64 = (127 + k as u64) * 0x80_0000 + (m - 0x80_0000);
        bits as u32
    } else {
        // Round the low s = k - 23 bits away, to nearest, ties to even.
        let s: u32 = k - 23;
        let ps: u64 = pow2_u64(s);
        let ps32: u32 = ps as u32;
        proof {
            lemma2_to64();
            if s < 32 {
                lemma_pow2_strictly_increases(s as nat, 32);
            }
        }
        let q: u32 = x / ps32;
        let r: u32 = x % ps32;
        proof {
            // q stays below 2^24: x < pow2(k + 1) == pow2(s) * pow2(24).
            lemma_pow2_adds(s as nat, 24);
            lemma_fundamental_div_mod_converse(
                (pow2(s as nat) * pow2(24) - 1) as int,
                pow2(s as nat) as int,
                (pow2(24) - 1) as int,
                (pow2(s as nat) - 1) as int,
            );
            lemma_div_is_ordered(x as int, (pow2(s as nat) * pow2(24) - 1) as int, ps32 as int);
            // q stays at or above 2^23: x >= pow2(k) == pow2(s) * pow2(23).
            lemma_pow2_adds(s as nat, 23);
            lemma_fundamental_div_mod_converse(
                (pow2(s as nat) * pow2(23)) as int,
                pow2(s as nat) as int,
                pow2(23) as int,
                0,
            );
            lemma_div_is_ordered((pow2(s as nat) * pow2(23)) as int, x as int, ps32 as int);
        }
        let round_up: bool = 2 * (r as u64) > ps || (2 * (r as u64) == ps && q % 2 == 1);
        let q2: u32 = if round_up {
            q + 1
        } else {
            q
        };
        let bits: u64 = if q2 == 0x100_0000 {
            (127 + k as u64 + 1) * 0x80_0000
        } else {
            (127 + k as u64) * 0x80_0000 + (q2 as u64 - 0x80_0000)
        };
        bits as u32
    }
}

/// Returns the IEEE-754 single-precision bit pattern of `x`, rounded to
/// nearest with ties to even, as `x as f32` rounds.
pub fn f32_bits_from_i32(x: i32) -> (r: u32)
    ensures
        r == f32_bits_of_int(x as int),
{
    if x >= 0 {
        f32_bits_from_u32(x as u32)
    } else {
        let magnitude: u32 = if x == i32::MIN {
            0x8000_0000
        } else {
            (-x) as u32
        };
        let body: u32 = f32_bits_from_u32(magnitude);
        proof {
            lemma2_to64();
            lemma2_to64_rest();
            lemma_f32_bits_of_nat_range(magnitude as nat);
        }
        0x8000_0000 + body
    }
}

/// The magnitude bits of any `u32` stay below the sign bit: the exponent
/// field reaches at most `127 + 32`, so the whole pattern stays below
/// `2^31`.
proof fn lemma_f32_bits_of_nat_range(x: nat)
    requires
        x < pow2(32),
    ensures
        0 <= f32_bits_of_nat(x) < 0x8000_0000,
{
    lemma2_to64();
    lemma2_to64_rest();
    if x != 0 {
        let k = msb(x);
        lemma_msb_in_range(x);
        if k <= 23 {
            assert(x * pow2((23 - k) as nat) < pow2(24)) by {
                lemma_mul_strict_inequality(x as int, pow2(k + 1) as int, pow2((23 - k) as nat) as int);
                lemma_pow2_adds(k + 1, (23 - k) as nat);
            }
            assert(x * pow2((23 - k) as nat) >= pow2(23)) by {
                lemma_mul_inequality(pow2(k) as int, x as int, pow2((23 - k) as nat) as int);
                lemma_pow2_adds(k, (23 - k) as nat);
            }
        } else {
            let s = (k - 23) as nat;
            let q = x / pow2(s);
            assert(q < pow2(24)) by {
                lemma_pow2_adds(s, 24);
                lemma_fundamental_div_mod_converse(
                    (pow2(s) * pow2(24) - 1) as int,
                    pow2(s) as int,
                    (pow2(24) - 1) as int,
                    (pow2(s) - 1) as int,
                );
                lemma_div_is_ordered(x as int, (pow2(s) * pow2(24) - 1) as int, pow2(s) as int);
            }
            assert(q >= pow2(23)) by {
                lemma_pow2_adds(s, 23);
                lemma_fundamental_div_mod_converse(
                    (pow2(s) * pow2(23)) as int,
                    pow2(s) as int,
                    pow2(23) as int,
                    0,
                );
                lemma_div_is_ordered((pow2(s) * pow2(23)) as int, x as int, pow2(s) as int);
            }
        }
    }
}

/// `msb` of a `u32` is at most 31.
proof fn lemma_msb_in_range(x: nat)
    requires
        1 <= x < pow2(32),
    ensures
        msb(x) <= 31,
        pow2(msb(x)) <= x < pow2(msb(x) + 1),
    decreases x,
{
    lemma2_to64();
    lemma2_to64_rest();
    if x < 2 {
        assert(msb(x) == 0);
    } else {
        lemma_msb_in_range(x / 2);
        let m = msb(x / 2);
        assert(msb(x) == 1 + m);
        assert(pow2(m + 1) == pow2(m) * 2) by {
            lemma_pow2_adds(m, 1);
        }
        assert(pow2(m + 2) == pow2(m + 1) * 2) by {
            lemma_pow2_adds(m + 1, 1);
        }
        assert(x < pow2(m + 2));
        assert(pow2(m + 1) <= x);
        if m + 1 >= 32 {
            if m + 1 > 32 {
                lemma_pow2_strictly_increases(32, m + 1);
            }
            assert(false);
        }
    }
}

} // verus!
