//! Unsigned 256-bit amounts, held as four little-endian 64-bit limbs.

use vstd::prelude::*;
use vstd::arithmetic::div_mod::lemma_fundamental_div_mod;
use vstd::arithmetic::div_mod::lemma_fundamental_div_mod_converse;

verus! {

/// The radix of one limb: 2^64.
#[verifier::inline]
pub open spec fn limb_base() -> int {
    0x1_0000_0000_0000_0000
}

/// 2^128, the weight of the third limb.
#[verifier::inline]
pub open spec fn pow128() -> int {
    0x1_0000_0000_0000_0000_0000_0000_0000_0000int
}

/// 2^192, the weight of the fourth limb.
#[verifier::inline]
pub open spec fn pow192() -> int {
    0x1_0000_0000_0000_0000_0000_0000_0000_0000_0000_0000_0000_0000int
}

/// An unsigned 256-bit integer: `l0 + l1 * 2^64 + l2 * 2^128 + l3 * 2^192`.
#[derive(Clone, Copy, Debug, PartialEq, Eq, Structural)]
pub struct U256 {
    pub l0: u64,
    pub l1: u64,
    pub l2: u64,
    pub l3: u64,
}

/// The largest value a `U256` holds, plus one: 2^256.
#[verifier::inline]
pub open spec fn u256_bound() -> int {
    0x1_0000_0000_0000_0000_0000_0000_0000_0000_0000_0000_0000_0000_0000_0000_0000_0000int
}

impl U256 {
    /// The number this value stands for.
    pub open spec fn value(&self) -> nat {
        (self.l0 + limb_base() * (self.l1 + limb_base() * (self.l2 + limb_base() * self.l3))) as nat
    }

    /// Zero.
    pub fn zero() -> (r: U256)
        ensures
            r.value() == 0,
    {
        U256 { l0: 0, l1: 0, l2: 0, l3: 0 }
    }

    /// Builds a value from its limbs, least significant first.
    pub fn from_limbs(limbs: [u64; 4]) -> (r: U256)
        ensures
            r.l0 == limbs[0],
            r.l1 == limbs[1],
            r.l2 == limbs[2],
            r.l3 == limbs[3],
    {
        U256 { l0: limbs[0], l1: limbs[1], l2: limbs[2], l3: limbs[3] }
    }

    /// The limbs of this value, least significant first.
    pub fn to_limbs(&self) -> (r: [u64; 4])
        ensures
            r[0] == self.l0,
            r[1] == self.l1,
            r[2] == self.l2,
            r[3] == self.l3,
    {
        [self.l0, self.l1, self.l2, self.l3]
    }

    /// Whether this value is zero.
    pub fn is_zero(&self) -> (r: bool)
        ensures
            r == (self.value() == 0),
    {
        self.l0 == 0 && self.l1 == 0 && self.l2 == 0 && self.l3 == 0
    }

    /// Whether this value is smaller than `other`.
    pub fn lt(&self, other: &U256) -> (r: bool)
        ensures
            r == (self.value() < other.value()),
    {
        let ghost h2 = self.l2 as int + limb_base() * self.l3;
        proof {
            let g2 = other.l2 as int + limb_base() * other.l3;
            let h1 = self.l1 as int + limb_base() * h2;
            let g1 = other.l1 as int + limb_base() * g2;
            lemma_horner_lt(self.l2 as int, self.l3 as int, other.l2 as int, other.l3 as int);
            lemma_horner_lt(self.l1 as int, h2, other.l1 as int, g2);
            lemma_horner_lt(self.l0 as int, h1, other.l0 as int, g1);
        }
        if self.l3 != other.l3 {
            self.l3 < other.l3
        } else if self.l2 != other.l2 {
            self.l2 < other.l2
        } else if self.l1 != other.l1 {
            self.l1 < other.l1
        } else {
            self.l0 < other.l0
        }
    }

    /// `self - other`, or `None` where `other` is larger.
    pub fn checked_sub(&self, other: &U256) -> (r: Option<U256>)
        ensures
            r is None <==> self.value() < other.value(),
            r matches Some(d) ==> d.value() == self.value() - other.value(),
    {
        let (d0, b0) = sub_limb(self.l0, other.l0, 0);
        let (d1, b1) = sub_limb(self.l1, other.l1, b0);
        let (d2, b2) = sub_limb(self.l2, other.l2, b1);
        let (d3, b3) = sub_limb(self.l3, other.l3, b2);
        let d = U256 { l0: d0, l1: d1, l2: d2, l3: d3 };
        proof {
            let x2 = self.l2 + limb_base() * self.l3;
            let y2 = other.l2 + limb_base() * other.l3;
            let u2 = d2 + limb_base() * d3;
            assert(u2 - pow128() * b3 == x2 - y2 - b1);
            let x1 = self.l1 + limb_base() * x2;
            let y1 = other.l1 + limb_base() * y2;
            let u1 = d1 + limb_base() * u2;
            assert(u1 - pow192() * b3 == x1 - y1 - b0);
            assert(d.value() - u256_bound() * b3 == self.value() - other.value());
        }
        if b3 == 0 {
            Some(d)
        } else {
            None
        }
    }

    /// `floor(self * num / den)`, computed without intermediate overflow.
    pub fn mul_div(&self, num: u32, den: u32) -> (r: U256)
        requires
            0 < den,
            num <= den,
        ensures
            r.value() == self.value() * num / (den as int),
    {
        let n = num as u128;
        let d = den as u128;
        // The product takes five limbs; as `num <= den` its top limb is below `den`,
        // so a long division from the top leaves a quotient of four limbs.
        let (p0, c0) = mul_limb(self.l0, n, 0);
        let (p1, c1) = mul_limb(self.l1, n, c0);
        let (p2, c2) = mul_limb(self.l2, n, c1);
        let (p3, c3) = mul_limb(self.l3, n, c2);
        let ghost x3 = self.l3 as int;
        let ghost x2 = self.l2 as int + limb_base() * x3;
        let ghost x1 = self.l1 as int + limb_base() * x2;
        let ghost prod = p0 as int + limb_base() * (p1 as int + limb_base() * (p2 as int
            + limb_base() * (p3 as int + limb_base() * c3)));
        proof {
            lemma_mul_carry(self.l0 as int, x1, num as int, 0, p0 as int, c0 as int);
            lemma_mul_carry(self.l1 as int, x2, num as int, c0 as int, p1 as int, c1 as int);
            lemma_mul_carry(self.l2 as int, x3, num as int, c1 as int, p2 as int, c2 as int);
            lemma_mul_carry(self.l3 as int, 0, num as int, c2 as int, p3 as int, c3 as int);
            assert(prod == self.value() * num);
            assert(prod >= u256_bound() * c3);
            let x = self.value() as int;
            assert(x * num < u256_bound() * den) by (nonlinear_arith)
                requires
                    0 <= x < u256_bound(),
                    0 <= num <= den,
                    0 < den;
        }
        let (q3, s3) = div_limb(c3, p3, d);
        let (q2, s2) = div_limb(s3, p2, d);
        let (q1, s1) = div_limb(s2, p1, d);
        let (q0, s0) = div_limb(s1, p0, d);
        let r = U256 { l0: q0, l1: q1, l2: q2, l3: q3 };
        proof {
            let y2 = q2 + limb_base() * q3;
            let y1 = q1 + limb_base() * y2;
            lemma_div_carry(den as int, q3 as int, 0, s3 as int, p3 as int, c3 as int);
            lemma_div_carry(den as int, q2 as int, q3 as int, s2 as int, p2 as int, s3 as int);
            lemma_div_carry(den as int, q1 as int, y2, s1 as int, p1 as int, s2 as int);
            lemma_div_carry(den as int, q0 as int, y1, s0 as int, p0 as int, s1 as int);
            assert(prod == den * r.value() + s0);
            assert(den * r.value() == r.value() * den) by (nonlinear_arith);
            lemma_fundamental_div_mod_converse(prod, den as int, r.value() as int, s0 as int);
        }
        r
    }
}

impl From<u64> for U256 {
    fn from(v: u64) -> (r: U256) {
        U256 { l0: v, l1: 0, l2: 0, l3: 0 }
    }
}

impl vstd::std_specs::convert::FromSpecImpl<u64> for U256 {
    open spec fn obeys_from_spec() -> bool {
        true
    }

    open spec fn from_spec(v: u64) -> U256 {
        U256 { l0: v, l1: 0, l2: 0, l3: 0 }
    }
}

/// One limb of a subtraction: `d - 2^64 * borrow_out == a - b - borrow_in`.
fn sub_limb(a: u64, b: u64, borrow: u64) -> (r: (u64, u64))
    requires
        borrow <= 1,
    ensures
        r.1 <= 1,
        r.0 - limb_base() * r.1 == a - b - borrow,
{
    let t: u128 = a as u128 + 0x1_0000_0000_0000_0000u128 - b as u128 - borrow as u128;
    if t >= 0x1_0000_0000_0000_0000u128 {
        ((t - 0x1_0000_0000_0000_0000u128) as u64, 0)
    } else {
        (t as u64, 1)
    }
}

/// One limb of a multiplication by a 32-bit factor: `lo + 2^64 * hi == a * n + carry`.
fn mul_limb(a: u64, n: u128, carry: u128) -> (r: (u64, u128))
    requires
        n < 0x1_0000_0000,
        carry < 0x1_0000_0000,
    ensures
        r.0 + limb_base() * r.1 == a * n + carry,
        r.1 < 0x1_0000_0000,
{
    assert(a * n <= 0xffff_ffff_ffff_ffff * 0xffff_ffff) by (nonlinear_arith)
        requires
            a <= 0xffff_ffff_ffff_ffffu64,
            n <= 0xffff_ffff,
            0 <= n;
    let t: u128 = a as u128 * n + carry;
    let hi = t / 0x1_0000_0000_0000_0000u128;
    let lo = (t % 0x1_0000_0000_0000_0000u128) as u64;
    (lo, hi)
}

/// One step of a long division by `den`: `rem * 2^64 + a == den * q + rem_out`.
fn div_limb(rem: u128, a: u64, den: u128) -> (r: (u64, u128))
    requires
        0 < den < 0x1_0000_0000,
        rem < den,
    ensures
        rem * limb_base() + a == den * r.0 + r.1,
        r.1 < den,
{
    assert(rem * limb_base() + a < den * limb_base()) by (nonlinear_arith)
        requires
            rem < den,
            a < limb_base(),
            0 <= rem;
    assert(rem * limb_base() + a <= 0xffff_ffff * limb_base()) by (nonlinear_arith)
        requires
            rem < den,
            den <= 0xffff_ffff,
            a < limb_base(),
            0 <= rem;
    let t: u128 = rem * 0x1_0000_0000_0000_0000u128 + a as u128;
    let q = t / den;
    let s = t % den;
    proof {
        lemma_fundamental_div_mod(t as int, den as int);
        assert(q < limb_base()) by (nonlinear_arith)
            requires
                t == den * q + s,
                0 <= s,
                t < den * limb_base(),
                0 < den,
                0 <= q;
    }
    (q as u64, s)
}

/// Comparing two numbers written as `low + 2^64 * high` with `low` a limb.
proof fn lemma_horner_lt(a: int, x: int, b: int, y: int)
    requires
        0 <= a < limb_base(),
        0 <= b < limb_base(),
    ensures
        (a + limb_base() * x < b + limb_base() * y) <==> (x < y || (x == y && a < b)),
        (a + limb_base() * x == b + limb_base() * y) <==> (x == y && a == b),
{
}

/// Carrying a long division through one more limb.
proof fn lemma_div_carry(d: int, q: int, y: int, s: int, p: int, s_prev: int)
    requires
        s_prev * limb_base() + p == d * q + s,
    ensures
        p + limb_base() * (d * y + s_prev) == d * (q + limb_base() * y) + s,
{
    assert(d * (q + limb_base() * y) == d * q + limb_base() * (d * y)) by (nonlinear_arith);
}

/// Carrying a multiplication through one more limb.
proof fn lemma_mul_carry(a: int, x: int, n: int, c: int, p: int, c2: int)
    requires
        p + limb_base() * c2 == a * n + c,
    ensures
        (a + limb_base() * x) * n + c == p + limb_base() * (c2 + x * n),
{
    assert((a + limb_base() * x) * n == a * n + limb_base() * (x * n)) by (nonlinear_arith);
}

} // verus!
