use vstd::prelude::*;
use crate::scalar::Real;

verus! {

/// A 3-vector of scalars.
#[derive(Clone, Copy, Debug)]
pub struct Vec3<T> {
    pub x: T,
    pub y: T,
    pub z: T,
}

impl<T: Real> Vec3<T> {
    /// Result of the inner product `self . o`.
    pub open spec fn sdot(self, o: Vec3<T>) -> T {
        self.x.smul(o.x).sadd(self.y.smul(o.y)).sadd(self.z.smul(o.z))
    }

    /// Result of the Euclidean norm.
    pub open spec fn snorm(self) -> T {
        self.sdot(self).ssqrt()
    }

    /// Result of normalization: `self` itself when its norm is zero.
    pub open spec fn sunit(self) -> Vec3<T> {
        if self.snorm().sis_zero() {
            self
        } else {
            self.sdiv(self.snorm())
        }
    }

    /// Result of componentwise addition.
    pub open spec fn sadd(self, o: Vec3<T>) -> Vec3<T> {
        Vec3 { x: self.x.sadd(o.x), y: self.y.sadd(o.y), z: self.z.sadd(o.z) }
    }

    /// Result of componentwise subtraction.
    pub open spec fn ssub(self, o: Vec3<T>) -> Vec3<T> {
        Vec3 { x: self.x.ssub(o.x), y: self.y.ssub(o.y), z: self.z.ssub(o.z) }
    }

    /// Result of scaling by `s`.
    pub open spec fn sscale(self, s: T) -> Vec3<T> {
        Vec3 { x: self.x.smul(s), y: self.y.smul(s), z: self.z.smul(s) }
    }

    /// Result of dividing each component by `s`.
    pub open spec fn sdiv(self, s: T) -> Vec3<T> {
        Vec3 { x: self.x.sdiv(s), y: self.y.sdiv(s), z: self.z.sdiv(s) }
    }

    pub fn dot(self, o: Vec3<T>) -> (r: T)
        ensures
            r == self.sdot(o),
    {
        self.x.mul(o.x).add(self.y.mul(o.y)).add(self.z.mul(o.z))
    }

    pub fn norm(self) -> (r: T)
        ensures
            r == self.snorm(),
    {
        self.dot(self).sqrt()
    }

    pub fn unit(self) -> (r: Vec3<T>)
        ensures
            r == self.sunit(),
    {
        let n = self.norm();
        if n.is_zero() {
            self
        } else {
            self.div(n)
        }
    }

    pub fn add(self, o: Vec3<T>) -> (r: Vec3<T>)
        ensures
            r == self.sadd(o),
    {
        Vec3 { x: self.x.add(o.x), y: self.y.add(o.y), z: self.z.add(o.z) }
    }

    pub fn sub(self, o: Vec3<T>) -> (r: Vec3<T>)
        ensures
            r == self.ssub(o),
    {
        Vec3 { x: self.x.sub(o.x), y: self.y.sub(o.y), z: self.z.sub(o.z) }
    }

    pub fn scale(self, s: T) -> (r: Vec3<T>)
        ensures
            r == self.sscale(s),
    {
        Vec3 { x: self.x.mul(s), y: self.y.mul(s), z: self.z.mul(s) }
    }

    pub fn div(self, s: T) -> (r: Vec3<T>)
        ensures
            r == self.sdiv(s),
    {
        Vec3 { x: self.x.div(s), y: self.y.div(s), z: self.z.div(s) }
    }
}

/// The six distinct entries of a symmetric 3 by 3 matrix. Only these six are
/// ever stored, so no asymmetric counterpart can be materialized.
#[derive(Clone, Copy, Debug)]
pub struct Hess<T> {
    pub xx: T,
    pub yy: T,
    pub zz: T,
    pub xy: T,
    pub xz: T,
    pub yz: T,
}

impl<T: Real> Hess<T> {
    /// Result of the quadratic form `u^T H u`.
    pub open spec fn squad(self, u: Vec3<T>) -> T {
        self.xx.smul(u.x).smul(u.x).sadd(self.yy.smul(u.y).smul(u.y)).sadd(
            self.zz.smul(u.z).smul(u.z),
        ).sadd(
            T::sratio(2i64, 1i64).smul(
                self.xy.smul(u.x).smul(u.y).sadd(self.xz.smul(u.x).smul(u.z)).sadd(
                    self.yz.smul(u.y).smul(u.z),
                ),
            ),
        )
    }

    /// Result of componentwise addition.
    pub open spec fn sadd(self, o: Hess<T>) -> Hess<T> {
        Hess {
            xx: self.xx.sadd(o.xx),
            yy: self.yy.sadd(o.yy),
            zz: self.zz.sadd(o.zz),
            xy: self.xy.sadd(o.xy),
            xz: self.xz.sadd(o.xz),
            yz: self.yz.sadd(o.yz),
        }
    }

    /// Result of scaling every entry by `s`.
    pub open spec fn sscale(self, s: T) -> Hess<T> {
        Hess {
            xx: self.xx.smul(s),
            yy: self.yy.smul(s),
            zz: self.zz.smul(s),
            xy: self.xy.smul(s),
            xz: self.xz.smul(s),
            yz: self.yz.smul(s),
        }
    }

    pub fn quad(self, u: Vec3<T>) -> (r: T)
        ensures
            r == self.squad(u),
    {
        let x = u.x;
        let y = u.y;
        let z = u.z;
        let two = T::ratio(2, 1);
        self.xx.mul(x).mul(x).add(self.yy.mul(y).mul(y)).add(self.zz.mul(z).mul(z)).add(
            two.mul(
                self.xy.mul(x).mul(y).add(self.xz.mul(x).mul(z)).add(self.yz.mul(y).mul(z)),
            ),
        )
    }

    pub fn add(self, o: Hess<T>) -> (r: Hess<T>)
        ensures
            r == self.sadd(o),
    {
        Hess {
            xx: self.xx.add(o.xx),
            yy: self.yy.add(o.yy),
            zz: self.zz.add(o.zz),
            xy: self.xy.add(o.xy),
            xz: self.xz.add(o.xz),
            yz: self.yz.add(o.yz),
        }
    }

    pub fn scale(self, s: T) -> (r: Hess<T>)
        ensures
            r == self.sscale(s),
    {
        Hess {
            xx: self.xx.mul(s),
            yy: self.yy.mul(s),
            zz: self.zz.mul(s),
            xy: self.xy.mul(s),
            xz: self.xz.mul(s),
            yz: self.yz.mul(s),
        }
    }
}

/// One spatial target with its desired axial secular angular frequency and
/// the axis along which that frequency is enforced.
#[derive(Clone, Debug)]
pub struct Waypoint<T> {
    pub r: Vec3<T>,
    pub omega_axial: T,
    pub axial_dir: Vec3<T>,
}

/// Condition and objective estimates of one solve.
#[derive(Clone, Debug)]
pub struct SolveReport<T> {
    pub cond_est: T,
    pub objective: T,
}

/// The library's error type.
#[derive(Debug)]
pub enum IonwaveError {
    /// A callable precondition was violated; detected at entry.
    InvalidInput(String),
    /// A numerical failure during iteration.
    Solver(String),
}

impl IonwaveError {
    /// The error's descriptive message.
    pub open spec fn smessage(self) -> Seq<char> {
        match self {
            IonwaveError::InvalidInput(m) => m@,
            IonwaveError::Solver(m) => m@,
        }
    }

    pub fn message(&self) -> (r: &String)
        ensures
            r@ == self.smessage(),
    {
        match self {
            IonwaveError::InvalidInput(m) => m,
            IonwaveError::Solver(m) => m,
        }
    }
}

} // verus!
