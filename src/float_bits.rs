//! IEEE-754 single-precision bit patterns of dyadic rationals.
//!
//! The library never computes with floating-point values; it stores the bit
//! patterns that the GPU reads. Values of the form `num / 2^scale` with
//! `|num| < 2^24` are exactly representable, and this module builds their
//! encodings.

use vstd::arithmetic::power2::{lemma2_to64, lemma_pow2_adds, lemma_pow2_strictly_increases, pow2};
use vstd::prelude::*;

verus! {

/// The sign bit of a single-precision pattern.
pub open spec fn f32_sign(bits: u32) -> int {
    bits as int / 0x8000_0000
}

/// The biased exponent field of a single-precision pattern.
pub open spec fn f32_exponent(bits: u32) -> int {
    (bits as int / 0x80_0000) % 0x100
}

/// The fraction field of a single-precision pattern.
pub open spec fn f32_fraction(bits: u32) -> int {
    bits as int % 0x80_0000
}

pub open spec fn abs(n: int) -> int {
    if n < 0 {
        -n
    } else {
        n
    }
}

/// `bits` is the single-precision encoding of `num / 2^scale`: positive zero
/// when `num` is zero, otherwise a normal number with
/// `(2^23 + fraction) * 2^(exponent - 150) == |num| / 2^scale`.
pub open spec fn encodes_dyadic(bits: u32, num: int, scale: nat) -> bool {
    if num == 0 {
        bits == 0
    } else {
        &&& 0 < f32_exponent(bits) < 0xff
        &&& f32_sign(bits) == (if num < 0 {
            1int
        } else {
            0int
        })
        &&& scale <= 150
        &&& (0x80_0000 + f32_fraction(bits)) * pow2(f32_exponent(bits) as nat) == abs(num) * pow2(
            (150 - scale) as nat,
        )
    }
}

/// `bits` encodes a value `num / 2^scale` with `lo <= num < hi`.
pub open spec fn encodes_in_range(bits: u32, lo: int, hi: int, scale: nat) -> bool {
    exists|num: int| lo <= num < hi && #[trigger] encodes_dyadic(bits, num, scale)
}

/// The single-precision bit pattern of `num / 2^scale`.
pub fn dyadic_f32_bits(num: i32, scale: u32) -> (r: u32)
    requires
        -0x100_0000 < num < 0x100_0000,
        scale <= 126,
    ensures
        encodes_dyadic(r, num as int, scale as nat),
{
    if num == 0 {
        return 0;
    }
    let neg = num < 0;
    let mag: u32 = if neg {
        (-num) as u32
    } else {
        num as u32
    };
    proof {
        lemma2_to64();
    }
    let mut m: u32 = mag;
    let mut k: u32 = 0;
    while m < 0x80_0000
        invariant
            0 < mag < 0x100_0000,
            0 < m < 0x100_0000,
            m == mag * pow2(k as nat),
            m >= pow2(k as nat),
            k <= 23,
        decreases 23 - k,
    {
        proof {
            if k >= 23 {
                if k > 23 {
                    lemma_pow2_strictly_increases(23, k as nat);
                }
                assert(pow2(23) == 0x80_0000) by {
                    lemma2_to64();
                }
            }
            assert(pow2((k + 1) as nat) == 2 * pow2(k as nat)) by {
                lemma_pow2_adds(k as nat, 1);
                lemma2_to64();
            }
            assert(m * 2 == mag * pow2((k + 1) as nat)) by (nonlinear_arith)
                requires
                    m == mag * pow2(k as nat),
                    pow2((k + 1) as nat) == 2 * pow2(k as nat),
            ;
        }
        m = m * 2;
        k = k + 1;
    }
    let exponent: u32 = 150 - k - scale;
    let fraction: u32 = m - 0x80_0000;
    let sign: u32 = if neg {
        0x8000_0000
    } else {
        0
    };
    let bits: u32 = sign + exponent * 0x80_0000 + fraction;
    proof {
        let e = exponent as int;
        let f = fraction as int;
        let s: int = if neg {
            1
        } else {
            0
        };
        assert(bits as int == s * 0x8000_0000 + e * 0x80_0000 + f);
        assert(f32_fraction(bits) == f);
        assert(bits as int / 0x80_0000 == s * 0x100 + e);
        assert(f32_exponent(bits) == e);
        assert(f32_sign(bits) == s);
        assert(pow2(k as nat) * pow2(exponent as nat) == pow2((150 - scale) as nat)) by {
            lemma_pow2_adds(k as nat, exponent as nat);
        }
        assert(m * pow2(exponent as nat) == mag * pow2((150 - scale) as nat)) by (nonlinear_arith)
            requires
                m == mag * pow2(k as nat),
                pow2(k as nat) * pow2(exponent as nat) == pow2((150 - scale) as nat),
        ;
    }
    bits
}

} // verus!
