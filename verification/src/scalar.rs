use vstd::prelude::*;

verus! {

/// An abstract real scalar.
///
/// Every arithmetic operation the library performs goes through this trait,
/// and each executable method is pinned to an implementation-chosen spec
/// function (`sadd`, `smul`, ...), so the operations are pure: the same
/// operands always give the same result. The library's algorithms are
/// verified for every implementation whose methods meet these contracts;
/// an implementation outside this crate is responsible for meeting them,
/// exactly as a caller of a `requires` clause is.
///
/// The two comparison laws (`lt_irrefl`, `lt_asymm`) are the only facts the
/// library assumes beyond purity; they hold of any strict order.
pub trait Real: Sized + Copy {
    /// Result of addition.
    spec fn sadd(self, o: Self) -> Self;

    /// Result of subtraction.
    spec fn ssub(self, o: Self) -> Self;

    /// Result of multiplication.
    spec fn smul(self, o: Self) -> Self;

    /// Result of division.
    spec fn sdiv(self, o: Self) -> Self;

    /// Result of negation.
    spec fn sneg(self) -> Self;

    /// Result of the absolute value.
    spec fn sabs(self) -> Self;

    /// Result of the square root.
    spec fn ssqrt(self) -> Self;

    /// Result of the exponential.
    spec fn sexp(self) -> Self;

    /// Result of the arc tangent.
    spec fn satan(self) -> Self;

    /// Result of the sine.
    spec fn ssin(self) -> Self;

    /// Result of the cosine.
    spec fn scos(self) -> Self;

    /// Whether `self` is strictly below `o`.
    spec fn slt(self, o: Self) -> bool;

    /// Whether `self` is the scalar's zero.
    spec fn sis_zero(self) -> bool;

    /// The scalar closest to the rational `n / d`.
    spec fn sratio(n: i64, d: i64) -> Self;

    /// The length of the scalar's decimal rendering.
    spec fn sfmt_len(self) -> usize;

    /// Byte `i` of the scalar's decimal rendering.
    spec fn sfmt_byte(self, i: usize) -> u8;

    fn add(self, o: Self) -> (r: Self)
        ensures
            r == self.sadd(o),
    ;

    fn sub(self, o: Self) -> (r: Self)
        ensures
            r == self.ssub(o),
    ;

    fn mul(self, o: Self) -> (r: Self)
        ensures
            r == self.smul(o),
    ;

    fn div(self, o: Self) -> (r: Self)
        ensures
            r == self.sdiv(o),
    ;

    fn neg(self) -> (r: Self)
        ensures
            r == self.sneg(),
    ;

    fn abs(self) -> (r: Self)
        ensures
            r == self.sabs(),
    ;

    fn sqrt(self) -> (r: Self)
        ensures
            r == self.ssqrt(),
    ;

    fn exp(self) -> (r: Self)
        ensures
            r == self.sexp(),
    ;

    fn atan(self) -> (r: Self)
        ensures
            r == self.satan(),
    ;

    fn sin(self) -> (r: Self)
        ensures
            r == self.ssin(),
    ;

    fn cos(self) -> (r: Self)
        ensures
            r == self.scos(),
    ;

    fn lt(self, o: Self) -> (r: bool)
        ensures
            r == self.slt(o),
    ;

    fn is_zero(self) -> (r: bool)
        ensures
            r == self.sis_zero(),
    ;

    fn ratio(n: i64, d: i64) -> (r: Self)
        requires
            d != 0,
        ensures
            r == Self::sratio(n, d),
    ;

    fn to_text(self) -> (r: Vec<u8>)
        ensures
            r@.len() == self.sfmt_len(),
            forall|i: int| 0 <= i < r@.len() ==> r@[i] == self.sfmt_byte(i as usize),
    ;

    /// The strict order is irreflexive.
    proof fn lt_irrefl(self)
        ensures
            !self.slt(self),
    ;
}

/// The decimal rendering of `x`, assembled from its length and bytes.
pub open spec fn stext_of<T: Real>(x: T) -> Seq<u8> {
    Seq::new(x.sfmt_len() as nat, |i: int| x.sfmt_byte(i as usize))
}

} // verus!
