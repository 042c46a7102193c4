use vstd::prelude::*;
use vstd::arithmetic::power2::{
    lemma2_to64, lemma_pow2_adds, lemma_pow2_pos, lemma_pow2_strictly_increases, lemma_pow2_unfold,
    pow2,
};

verus! {

/// A single-precision number, held as its IEEE-754 bit pattern.
///
/// Two scalars are equal when their patterns are: `0.0` and `-0.0` differ,
/// and a NaN equals itself.
#[derive(Clone, Copy, Debug, PartialEq, Eq, Structural)]
pub struct Scalar {
    pub bits: u32,
}

/// Whole numbers below this bound are scalars without rounding: 2^24.
pub const COUNT_LIMIT: usize = 0x100_0000;

/// The position of the highest set bit of `n`: the `k` with
/// `2^k <= n < 2^(k + 1)`, and 0 for `n == 0`.
pub open spec fn floor_log2(n: nat) -> nat
    decreases n,
{
    if n < 2 {
        0
    } else {
        1 + floor_log2(n / 2)
    }
}

impl Scalar {
    /// The sign bit.
    pub open spec fn sign(self) -> nat {
        self.bits as nat / 0x8000_0000
    }

    /// The biased exponent, an 8-bit field.
    pub open spec fn exponent(self) -> nat {
        (self.bits as nat / 0x80_0000) % 0x100
    }

    /// The fraction, a 23-bit field.
    pub open spec fn fraction(self) -> nat {
        self.bits as nat % 0x80_0000
    }

    /// The magnitude of a finite scalar, multiplied by 2^149 so that it is a
    /// whole number: `fraction` for a subnormal scalar, and
    /// `(2^23 + fraction) * 2^(exponent - 1)` for a normal one.
    pub open spec fn scaled_magnitude(self) -> nat {
        if self.exponent() == 0 {
            self.fraction()
        } else {
            (0x80_0000 + self.fraction()) * pow2((self.exponent() - 1) as nat)
        }
    }

    /// Whether the scalar is finite, has a clear sign bit and the value `n`.
    pub open spec fn is_count(self, n: nat) -> bool {
        &&& self.sign() == 0
        &&& self.exponent() < 0xff
        &&& self.scaled_magnitude() == n * pow2(149)
    }

    /// The scalar `0.0`.
    pub open spec fn spec_zero() -> Scalar {
        Scalar { bits: 0 }
    }

    /// The scalar `1.0`.
    pub open spec fn spec_one() -> Scalar {
        Scalar { bits: 0x3f80_0000 }
    }

    /// The pattern of the whole number `n`, for `n < COUNT_LIMIT`: all bits
    /// clear for 0; else the exponent field holds `127 + k` for the highest
    /// set bit `k` of `n`, and the fraction field holds the bits of `n` below
    /// bit `k`, moved up against the top of the field.
    pub open spec fn spec_from_count(n: nat) -> Scalar {
        if n == 0 {
            Scalar { bits: 0 }
        } else {
            let k = floor_log2(n);
            Scalar {
                bits: ((127 + k) * 0x80_0000 + (n - pow2(k)) * pow2((23 - k) as nat)) as u32,
            }
        }
    }

    /// The absolute value: the pattern without its sign bit.
    pub open spec fn spec_abs(self) -> Scalar {
        Scalar { bits: (self.bits % 0x8000_0000) as u32 }
    }

    pub fn from_bits(bits: u32) -> (r: Scalar)
        ensures
            r.bits == bits,
    {
        Scalar { bits }
    }

    pub fn to_bits(self) -> (r: u32)
        ensures
            r == self.bits,
    {
        self.bits
    }

    #[verifier::when_used_as_spec(spec_zero)]
    pub fn zero() -> (r: Scalar)
        ensures
            r == Scalar::spec_zero(),
            r == Scalar::spec_from_count(0),
    {
        Scalar { bits: 0 }
    }

    #[verifier::when_used_as_spec(spec_one)]
    pub fn one() -> (r: Scalar)
        ensures
            r == Scalar::spec_one(),
            r == Scalar::spec_from_count(1),
    {
        proof {
            lemma2_to64();
            assert(floor_log2(1) == 0);
            assert((127 + 0) * 0x80_0000 + (1 - pow2(0)) * pow2(23) == 0x3f80_0000);
        }
        Scalar { bits: 0x3f80_0000 }
    }

    /// The absolute value: the scalar with the sign bit cleared and the
    /// other bits kept.
    pub fn abs(self) -> (r: Scalar)
        ensures
            r == self.spec_abs(),
            r.sign() == 0,
            r.exponent() == self.exponent(),
            r.fraction() == self.fraction(),
    {
        let b = self.bits;
        assert(b & 0x7fff_ffff == b % 0x8000_0000) by (bit_vector);
        Scalar { bits: b & 0x7fff_ffff }
    }

    /// The whole number below `COUNT_LIMIT` that the scalar is, if it is
    /// one: the count of which it is the pattern.
    pub fn as_count(self) -> (r: Option<usize>)
        ensures
            match r {
                Some(n) => n < COUNT_LIMIT && self == Scalar::spec_from_count(n as nat),
                None => forall|n: nat| n < COUNT_LIMIT ==> self != Scalar::spec_from_count(n),
            },
    {
        let b = self.bits;
        if b == 0 {
            return Some(0);
        }
        let e = b / 0x80_0000;
        let f = b % 0x80_0000;
        if e < 127 || e > 150 {
            proof {
                assert forall|n: nat| n < COUNT_LIMIT implies self != Scalar::spec_from_count(
                    n,
                ) by {
                    if n >= 1 && self == Scalar::spec_from_count(n) {
                        lemma_from_count_fields(n);
                        let k = floor_log2(n);
                        let g = ((n - pow2(k)) * pow2((23 - k) as nat)) as nat;
                        vstd::arithmetic::div_mod::lemma_fundamental_div_mod_converse(
                            b as int,
                            0x80_0000,
                            (127 + k) as int,
                            g as int,
                        );
                    }
                }
            }
            return None;
        }
        let k = e - 127;
        let mut j: u32 = 0;
        let mut p: u32 = 1;
        let mut q: u32 = 0x80_0000;
        proof {
            lemma2_to64();
        }
        while j < k
            invariant
                j <= k <= 23,
                p == pow2(j as nat),
                q == pow2((23 - j) as nat),
                p * q == 0x80_0000,
            decreases k - j,
        {
            proof {
                lemma_pow2_unfold((j + 1) as nat);
                lemma_pow2_unfold((23 - j) as nat);
                lemma_pow2_adds((j + 1) as nat, (23 - j - 1) as nat);
                lemma2_to64();
                assert(p * 2 <= 0x80_0000) by (nonlinear_arith)
                    requires
                        p * q == 0x80_0000,
                        q >= 2,
                        p >= 0,
                ;
            }
            p = p * 2;
            q = q / 2;
            j = j + 1;
        }
        proof {
            lemma_pow2_pos((23 - k) as nat);
        }
        if f % q != 0 {
            proof {
                assert forall|n: nat| n < COUNT_LIMIT implies self != Scalar::spec_from_count(
                    n,
                ) by {
                    if n >= 1 && self == Scalar::spec_from_count(n) {
                        lemma_from_count_fields(n);
                        let kn = floor_log2(n);
                        let g = ((n - pow2(kn)) * pow2((23 - kn) as nat)) as nat;
                        vstd::arithmetic::div_mod::lemma_fundamental_div_mod_converse(
                            b as int,
                            0x80_0000,
                            (127 + kn) as int,
                            g as int,
                        );
                        assert(kn == k);
                        assert(f == (n - p) * q);
                        vstd::arithmetic::div_mod::lemma_mod_multiples_basic(
                            n - p,
                            q as int,
                        );
                    }
                }
            }
            return None;
        }
        let d = f / q;
        proof {
            vstd::arithmetic::div_mod::lemma_fundamental_div_mod(f as int, q as int);
            assert(d * q == f) by (nonlinear_arith)
                requires
                    f == q * d + f % q,
                    f % q == 0,
            ;
            assert(d < p) by (nonlinear_arith)
                requires
                    d * q == f,
                    f < 0x80_0000,
                    p * q == 0x80_0000,
                    q > 0,
            ;
            lemma_pow2_unfold((k + 1) as nat);
            lemma_floor_log2_unique((p + d) as nat, k as nat);
            lemma_from_count_fields((p + d) as nat);
            assert(b == e * 0x80_0000 + f);
        }
        Some((p + d) as usize)
    }

    /// The scalar whose value is the whole number `n`.
    pub fn from_count(n: usize) -> (r: Scalar)
        requires
            n < COUNT_LIMIT,
        ensures
            r == Scalar::spec_from_count(n as nat),
    {
        if n == 0 {
            return Scalar { bits: 0 };
        }
        let m: u32 = n as u32;
        let mut k: u32 = 0;
        let mut p: u32 = 1;
        let mut q: u32 = 0x80_0000;
        proof {
            lemma2_to64();
        }
        while p <= m / 2
            invariant
                1 <= m < 0x100_0000,
                k <= 23,
                p == pow2(k as nat),
                q == pow2((23 - k) as nat),
                p <= m,
                floor_log2(m as nat) == k + floor_log2(m as nat / p as nat),
            decreases m - p,
        {
            proof {
                lemma2_to64();
                if k >= 23 {
                    if k > 23 {
                        lemma_pow2_strictly_increases(23, k as nat);
                    }
                    assert(false);
                }
                lemma_pow2_unfold((k + 1) as nat);
                lemma_pow2_unfold((23 - k) as nat);
                let x = m as int / p as int;
                assert(x >= 2) by (nonlinear_arith)
                    requires
                        x == m as int / p as int,
                        2 * p <= m,
                        p > 0,
                ;
                vstd::arithmetic::div_mod::lemma_div_denominator(m as int, p as int, 2);
                assert(x / 2 == m as int / (p * 2));
            }
            p = p * 2;
            q = q / 2;
            k = k + 1;
        }
        proof {
            lemma_pow2_adds(k as nat, (23 - k) as nat);
            lemma2_to64();
            assert(m as int / p as int == 1) by (nonlinear_arith)
                requires
                    p <= m < 2 * p,
            ;
            assert(floor_log2(m as nat) == k);
            assert((m - p) * q < 0x80_0000) by (nonlinear_arith)
                requires
                    p * q == 0x80_0000,
                    p <= m < 2 * p,
                    q > 0,
            ;
            assert((127 + k) * 0x80_0000 <= 150 * 0x80_0000) by (nonlinear_arith)
                requires
                    k <= 23,
            ;
        }
        Scalar { bits: (127 + k) * 0x80_0000 + (m - p) * q }
    }
}

/// `floor_log2(n)` is the exponent of the largest power of two that is not
/// above `n`.
pub proof fn lemma_floor_log2_bounds(n: nat)
    requires
        n >= 1,
    ensures
        pow2(floor_log2(n)) <= n < pow2(floor_log2(n) + 1),
    decreases n,
{
    lemma2_to64();
    if n >= 2 {
        let k = floor_log2(n / 2);
        lemma_floor_log2_bounds(n / 2);
        lemma_pow2_unfold(k + 1);
        lemma_pow2_unfold(k + 2);
    }
}

/// A pattern below 2^31 is made of its exponent and fraction fields alone.
proof fn lemma_fields(bits: u32, e: nat, f: nat)
    requires
        e < 0x100,
        f < 0x80_0000,
        bits == e * 0x80_0000 + f,
    ensures
        (Scalar { bits }).sign() == 0,
        (Scalar { bits }).exponent() == e,
        (Scalar { bits }).fraction() == f,
{
    vstd::arithmetic::div_mod::lemma_fundamental_div_mod_converse(
        bits as int,
        0x80_0000,
        e as int,
        f as int,
    );
}

/// The scaled magnitude that an exponent field and a fraction field give.
spec fn magnitude(e: nat, f: nat) -> nat {
    if e == 0 {
        f
    } else {
        (0x80_0000 + f) * pow2((e - 1) as nat)
    }
}

proof fn lemma_magnitude_rises(e1: nat, f1: nat, e2: nat, f2: nat)
    requires
        f1 < 0x80_0000,
        f2 < 0x80_0000,
        e1 < e2,
    ensures
        magnitude(e1, f1) < magnitude(e2, f2),
{
    let high = pow2((e2 - 1) as nat);
    lemma_pow2_pos((e2 - 1) as nat);
    assert(0x80_0000 * high <= (0x80_0000 + f2) * high) by (nonlinear_arith)
        requires
            high > 0,
            f2 >= 0,
    ;
    if e1 == 0 {
        assert(0x80_0000 <= 0x80_0000 * high) by (nonlinear_arith)
            requires
                high > 0,
        ;
    } else {
        let low = pow2((e1 - 1) as nat);
        lemma_pow2_pos((e1 - 1) as nat);
        lemma_pow2_unfold(e1);
        if e1 < e2 - 1 {
            lemma_pow2_strictly_increases(e1, (e2 - 1) as nat);
        }
        assert((0x80_0000 + f1) * low < 0x80_0000 * (2 * low)) by (nonlinear_arith)
            requires
                low > 0,
                f1 < 0x80_0000,
        ;
        assert(0x80_0000 * (2 * low) <= 0x80_0000 * high) by (nonlinear_arith)
            requires
                2 * low <= high,
        ;
    }
}

/// Two finite scalars with a clear sign bit and the same value are one
/// scalar: no whole number has two patterns.
pub proof fn lemma_count_unique(a: Scalar, b: Scalar, n: nat)
    requires
        a.is_count(n),
        b.is_count(n),
    ensures
        a == b,
{
    let (e1, f1) = (a.exponent(), a.fraction());
    let (e2, f2) = (b.exponent(), b.fraction());
    assert(a.scaled_magnitude() == magnitude(e1, f1));
    assert(b.scaled_magnitude() == magnitude(e2, f2));
    if e1 < e2 {
        lemma_magnitude_rises(e1, f1, e2, f2);
    } else if e2 < e1 {
        lemma_magnitude_rises(e2, f2, e1, f1);
    } else if e1 > 0 {
        let p = pow2((e1 - 1) as nat);
        lemma_pow2_pos((e1 - 1) as nat);
        assert(f1 == f2) by (nonlinear_arith)
            requires
                (0x80_0000 + f1) * p == (0x80_0000 + f2) * p,
                p > 0,
        ;
    }
    assert(a.bits == e1 * 0x80_0000 + f1);
    assert(b.bits == e2 * 0x80_0000 + f2);
}

/// The only exponent whose power of two brackets `n` is `floor_log2(n)`.
proof fn lemma_floor_log2_unique(n: nat, k: nat)
    requires
        pow2(k) <= n < pow2(k + 1),
    ensures
        floor_log2(n) == k,
{
    lemma_pow2_pos(k);
    let j = floor_log2(n);
    lemma_floor_log2_bounds(n);
    if j < k {
        if j + 1 < k {
            lemma_pow2_strictly_increases(j + 1, k);
        }
    } else if j > k {
        if k + 1 < j {
            lemma_pow2_strictly_increases(k + 1, j);
        }
    }
}

/// The fields of the pattern of a count `n` other than 0: the exponent field
/// holds `127 + k` for the highest set bit `k` of `n`, which is below 24, and
/// the fraction field holds `(n - 2^k) * 2^(23 - k)`.
proof fn lemma_from_count_fields(n: nat)
    requires
        1 <= n < COUNT_LIMIT,
    ensures
        floor_log2(n) <= 23,
        pow2(floor_log2(n)) <= n < 2 * pow2(floor_log2(n)),
        pow2(floor_log2(n)) * pow2((23 - floor_log2(n)) as nat) == 0x80_0000,
        0 <= (n - pow2(floor_log2(n))) * pow2((23 - floor_log2(n)) as nat) < 0x80_0000,
        Scalar::spec_from_count(n).bits == (127 + floor_log2(n)) * 0x80_0000 + (n - pow2(
            floor_log2(n),
        )) * pow2((23 - floor_log2(n)) as nat),
{
    lemma2_to64();
    let k = floor_log2(n);
    lemma_floor_log2_bounds(n);
    if k >= 24 {
        if k > 24 {
            lemma_pow2_strictly_increases(24, k);
        }
        assert(false);
    }
    let p = pow2(k);
    let q = pow2((23 - k) as nat);
    lemma_pow2_adds(k, (23 - k) as nat);
    lemma_pow2_unfold(k + 1);
    assert((n - p) * q < 0x80_0000 && (n - p) * q >= 0) by (nonlinear_arith)
        requires
            p * q == 0x80_0000,
            p <= n < 2 * p,
            q > 0,
    ;
    assert((127 + k) * 0x80_0000 <= 150 * 0x80_0000) by (nonlinear_arith)
        requires
            k <= 23,
    ;
}

/// The pattern that `from_count` gives for `n` is a finite scalar with a
/// clear sign bit and the value `n`.
pub proof fn lemma_from_count_value(n: nat)
    requires
        n < COUNT_LIMIT,
    ensures
        Scalar::spec_from_count(n).is_count(n),
{
    if n == 0 {
        assert(0 * pow2(149) == 0);
    } else {
        let k = floor_log2(n);
        let p = pow2(k);
        let q = pow2((23 - k) as nat);
        let f = ((n - p) * q) as nat;
        lemma_from_count_fields(n);
        lemma_fields(Scalar::spec_from_count(n).bits, 127 + k, f);
        let r = pow2(126 + k);
        lemma_pow2_adds((23 - k) as nat, 126 + k);
        assert((0x80_0000 + f) * r == n * pow2(149)) by (nonlinear_arith)
            requires
                f == (n - p) * q,
                p * q == 0x80_0000,
                q * r == pow2(149),
        ;
    }
}

/// Different counts have different patterns.
pub proof fn lemma_from_count_injective(m: nat, n: nat)
    requires
        m < COUNT_LIMIT,
        n < COUNT_LIMIT,
    ensures
        Scalar::spec_from_count(m) == Scalar::spec_from_count(n) <==> m == n,
{
    if Scalar::spec_from_count(m) == Scalar::spec_from_count(n) {
        lemma_from_count_value(m);
        lemma_from_count_value(n);
        lemma_pow2_pos(149);
        assert(m == n) by (nonlinear_arith)
            requires
                m * pow2(149) == n * pow2(149),
                pow2(149) > 0,
        ;
    }
}

} // verus!
