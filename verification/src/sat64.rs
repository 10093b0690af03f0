use vstd::prelude::*;
use crate::scalar::Real;
use crate::text::{sdec, dec_u64};

verus! {

/// A saturating 64-bit integer scalar.
///
/// It carries the `Real` operations exactly: sums, differences and products
/// saturate at the `i64` bounds, quotients truncate toward zero, the square
/// root is the integer square root (zero on negative input), and the
/// transcendental operations are the low-order truncations of their series,
/// which are meaningful only near zero. It is the crate's own witness for
/// the `Real` laws and a deterministic scalar for exercising the algorithms
/// on small ranges.
#[derive(Clone, Copy, PartialEq, Eq, Structural, Debug)]
pub struct Sat64 {
    pub v: i64,
}

/// `x` clamped to the `i64` range.
pub open spec fn sat_i64(x: int) -> i64 {
    if x > i64::MAX as int {
        i64::MAX
    } else if x < i64::MIN as int {
        i64::MIN
    } else {
        x as i64
    }
}

/// Absolute value on `int`.
pub open spec fn iabs(x: int) -> int {
    if x < 0 {
        -x
    } else {
        x
    }
}

/// Division truncated toward zero, zero on a zero divisor.
pub open spec fn stdiv(a: int, b: int) -> int {
    if b == 0 {
        0
    } else if (a < 0) == (b < 0) {
        iabs(a) / iabs(b)
    } else {
        -(iabs(a) / iabs(b))
    }
}

/// The largest root at or above `r` whose square is at most `n`.
pub open spec fn isqrt_from(n: int, r: int) -> int
    recommends
        0 <= r,
        r * r <= n,
    decreases n - r via isqrt_from_dec
{
    if 0 <= r && (r + 1) * (r + 1) <= n {
        isqrt_from(n, r + 1)
    } else {
        r
    }
}

#[via_fn]
proof fn isqrt_from_dec(n: int, r: int) {
    if 0 <= r && (r + 1) * (r + 1) <= n {
        assert(r + 1 <= n) by (nonlinear_arith)
            requires
                0 <= r,
                (r + 1) * (r + 1) <= n,
        ;
    }
}

/// The integer square root of `n`.
pub open spec fn isqrt(n: int) -> int {
    isqrt_from(n, 0)
}

proof fn lemma_isqrt_from_char(n: int, r: int, s: int)
    requires
        0 <= r <= s,
        s * s <= n,
        (s + 1) * (s + 1) > n,
    ensures
        isqrt_from(n, r) == s,
    decreases s - r,
{
    if r == s {
        assert(!((r + 1) * (r + 1) <= n));
    } else {
        assert((r + 1) * (r + 1) <= s * s) by (nonlinear_arith)
            requires
                0 <= r,
                r + 1 <= s,
        ;
        lemma_isqrt_from_char(n, r + 1, s);
    }
}

/// `isqrt` is pinned down by the two-sided square bound.
proof fn lemma_isqrt_char(n: int, s: int)
    requires
        0 <= s,
        s * s <= n,
        (s + 1) * (s + 1) > n,
    ensures
        isqrt(n) == s,
{
    lemma_isqrt_from_char(n, 0, s);
}

fn clamp_to_i64(s: i128) -> (r: i64)
    ensures
        r == sat_i64(s as int),
{
    if s > i64::MAX as i128 {
        i64::MAX
    } else if s < i64::MIN as i128 {
        i64::MIN
    } else {
        s as i64
    }
}

fn magnitude(x: i64) -> (r: u64)
    ensures
        r as int == iabs(x as int),
{
    if x >= 0 {
        x as u64
    } else {
        (-(x as i128)) as u64
    }
}

/// The decimal rendering of a `Sat64`: a minus sign for a negative value,
/// then the digits of its magnitude.
pub open spec fn sat64_text(x: Sat64) -> Seq<u8> {
    if x.v < 0 {
        seq![45u8] + sdec(iabs(x.v as int) as nat)
    } else {
        sdec(x.v as nat)
    }
}

impl Real for Sat64 {
    open spec fn sadd(self, o: Self) -> Self {
        Sat64 { v: sat_i64(self.v as int + o.v as int) }
    }

    open spec fn ssub(self, o: Self) -> Self {
        Sat64 { v: sat_i64(self.v as int - o.v as int) }
    }

    open spec fn smul(self, o: Self) -> Self {
        Sat64 { v: sat_i64(self.v as int * o.v as int) }
    }

    open spec fn sdiv(self, o: Self) -> Self {
        Sat64 { v: sat_i64(stdiv(self.v as int, o.v as int)) }
    }

    open spec fn sneg(self) -> Self {
        Sat64 { v: sat_i64(-(self.v as int)) }
    }

    open spec fn sabs(self) -> Self {
        Sat64 { v: sat_i64(iabs(self.v as int)) }
    }

    open spec fn ssqrt(self) -> Self {
        if self.v <= 0 {
            Sat64 { v: 0 }
        } else {
            Sat64 { v: isqrt(self.v as int) as i64 }
        }
    }

    open spec fn sexp(self) -> Self {
        Sat64 { v: 1 }.sadd(self).sadd(self.smul(self).sdiv(Sat64 { v: 2 }))
    }

    open spec fn satan(self) -> Self {
        self
    }

    open spec fn ssin(self) -> Self {
        self
    }

    open spec fn scos(self) -> Self {
        Sat64 { v: 1 }.ssub(self.smul(self).sdiv(Sat64 { v: 2 }))
    }

    open spec fn slt(self, o: Self) -> bool {
        self.v < o.v
    }

    open spec fn sis_zero(self) -> bool {
        self.v == 0
    }

    open spec fn sratio(n: i64, d: i64) -> Self {
        Sat64 { v: sat_i64(stdiv(n as int, d as int)) }
    }

    open spec fn sfmt_len(self) -> usize {
        sat64_text(self).len() as usize
    }

    open spec fn sfmt_byte(self, i: usize) -> u8 {
        sat64_text(self)[i as int]
    }

    fn add(self, o: Self) -> (r: Self) {
        Sat64 { v: clamp_to_i64(self.v as i128 + o.v as i128) }
    }

    fn sub(self, o: Self) -> (r: Self) {
        Sat64 { v: clamp_to_i64(self.v as i128 - o.v as i128) }
    }

    fn mul(self, o: Self) -> (r: Self) {
        let a = self.v as i128;
        let b = o.v as i128;
        proof {
            assert(a * b <= i128::MAX as int && a * b >= i128::MIN as int) by (nonlinear_arith)
                requires
                    i64::MIN as int <= a <= i64::MAX as int,
                    i64::MIN as int <= b <= i64::MAX as int,
            ;
        }
        Sat64 { v: clamp_to_i64(a * b) }
    }

    fn div(self, o: Self) -> (r: Self) {
        if o.v == 0 {
            Sat64 { v: 0 }
        } else {
            let ma = magnitude(self.v);
            let mb = magnitude(o.v);
            let q = ma / mb;
            if (self.v < 0) != (o.v < 0) {
                Sat64 { v: clamp_to_i64(-(q as i128)) }
            } else {
                Sat64 { v: clamp_to_i64(q as i128) }
            }
        }
    }

    fn neg(self) -> (r: Self) {
        Sat64 { v: clamp_to_i64(-(self.v as i128)) }
    }

    fn abs(self) -> (r: Self) {
        if self.v >= 0 {
            self
        } else {
            Sat64 { v: clamp_to_i64(-(self.v as i128)) }
        }
    }

    fn sqrt(self) -> (r: Self) {
        if self.v <= 0 {
            Sat64 { v: 0 }
        } else {
            let n = self.v as u64;
            let mut lo: u64 = 0;
            let mut hi: u64 = 3037000500;
            proof {
                assert(hi * hi > n) by (nonlinear_arith)
                    requires
                        hi == 3037000500u64,
                        n <= i64::MAX as u64,
                ;
            }
            while lo + 1 < hi
                invariant
                    lo < hi <= 3037000500,
                    (lo * lo) as int <= n as int,
                    (hi * hi) as int > n as int,
                decreases hi - lo,
            {
                let mid = lo + (hi - lo) / 2;
                proof {
                    assert(mid * mid <= u64::MAX) by (nonlinear_arith)
                        requires
                            mid <= 3037000500u64,
                    ;
                }
                if mid * mid <= n {
                    lo = mid;
                } else {
                    hi = mid;
                }
            }
            proof {
                assert((lo + 1) * (lo + 1) > n as int);
                lemma_isqrt_char(n as int, lo as int);
            }
            Sat64 { v: lo as i64 }
        }
    }

    fn exp(self) -> (r: Self) {
        let half_sq = self.mul(self).div(Sat64 { v: 2 });
        Sat64 { v: 1 }.add(self).add(half_sq)
    }

    fn atan(self) -> (r: Self) {
        self
    }

    fn sin(self) -> (r: Self) {
        self
    }

    fn cos(self) -> (r: Self) {
        let half_sq = self.mul(self).div(Sat64 { v: 2 });
        Sat64 { v: 1 }.sub(half_sq)
    }

    fn lt(self, o: Self) -> (r: bool) {
        self.v < o.v
    }

    fn is_zero(self) -> (r: bool) {
        self.v == 0
    }

    fn ratio(n: i64, d: i64) -> (r: Self) {
        Sat64 { v: n }.div(Sat64 { v: d })
    }

    fn to_text(self) -> (r: Vec<u8>) {
        let r: Vec<u8> = if self.v >= 0 {
            dec_u64(self.v as u64)
        } else {
            let mut out: Vec<u8> = Vec::new();
            out.push(45);
            let mut digits = dec_u64((-(self.v as i128)) as u64);
            out.append(&mut digits);
            out
        };
        let n_bytes = r.len();
        proof {
            assert(r@ =~= sat64_text(self));
            assert(sat64_text(self).len() == n_bytes);
            assert forall|i: int| 0 <= i < r@.len() implies r@[i] == self.sfmt_byte(
                i as usize,
            ) by {
                assert(sat64_text(self)[(i as usize) as int] == sat64_text(self)[i]);
            }
        }
        r
    }

    proof fn lt_irrefl(self) {
    }
}

} // verus!
