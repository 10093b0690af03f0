use vstd::prelude::*;
use crate::scalar::Real;
use crate::types::{Hess, IonwaveError, Vec3};

verus! {

/// A potential basis: value, gradient and Hessian at a point.
///
/// Each executable evaluator is pinned to a spec function of the receiver
/// and the point alone, so a basis is a pure function of its inputs and is
/// safe to evaluate from any number of threads at once.
pub trait PotentialBasis<T: Real>: Sized {
    /// The potential at `r`.
    spec fn sphi(self, r: Vec3<T>) -> T;

    /// The gradient at `r`.
    spec fn sgrad(self, r: Vec3<T>) -> Vec3<T>;

    /// The Hessian at `r`.
    spec fn shess(self, r: Vec3<T>) -> Hess<T>;

    fn phi(&self, r: Vec3<T>) -> (p: T)
        ensures
            p == self.sphi(r),
    ;

    fn grad(&self, r: Vec3<T>) -> (g: Vec3<T>)
        ensures
            g == self.sgrad(r),
    ;

    fn hess(&self, r: Vec3<T>) -> (h: Hess<T>)
        ensures
            h == self.shess(r),
    ;
}

/// The RF pseudopotential surrogate: a quadratic bowl
/// `phi = (kr (x^2 + y^2) + kz z^2) / 2` with a constant diagonal Hessian.
#[derive(Clone, Copy, Debug)]
pub struct RfPseudo<T> {
    pub kr: T,
    pub kz: T,
}

impl<T: Real> PotentialBasis<T> for RfPseudo<T> {
    open spec fn sphi(self, r: Vec3<T>) -> T {
        T::sratio(1i64, 2i64).smul(
            self.kr.smul(r.x.smul(r.x).sadd(r.y.smul(r.y))).sadd(self.kz.smul(r.z).smul(r.z)),
        )
    }

    open spec fn sgrad(self, r: Vec3<T>) -> Vec3<T> {
        Vec3 { x: self.kr.smul(r.x), y: self.kr.smul(r.y), z: self.kz.smul(r.z) }
    }

    open spec fn shess(self, r: Vec3<T>) -> Hess<T> {
        Hess {
            xx: self.kr,
            yy: self.kr,
            zz: self.kz,
            xy: T::sratio(0i64, 1i64),
            xz: T::sratio(0i64, 1i64),
            yz: T::sratio(0i64, 1i64),
        }
    }

    fn phi(&self, r: Vec3<T>) -> (p: T) {
        let half = T::ratio(1, 2);
        half.mul(self.kr.mul(r.x.mul(r.x).add(r.y.mul(r.y))).add(self.kz.mul(r.z).mul(r.z)))
    }

    fn grad(&self, r: Vec3<T>) -> (g: Vec3<T>) {
        Vec3 { x: self.kr.mul(r.x), y: self.kr.mul(r.y), z: self.kz.mul(r.z) }
    }

    fn hess(&self, r: Vec3<T>) -> (h: Hess<T>) {
        let zero = T::ratio(0, 1);
        Hess { xx: self.kr, yy: self.kr, zz: self.kz, xy: zero, xz: zero, yz: zero }
    }
}

/// An isotropic Gaussian lobe
/// `phi = scale * exp(-|r - center|^2 / (2 sigma^2))`.
#[derive(Clone, Copy, Debug)]
pub struct GaussianBasis<T> {
    pub center: Vec3<T>,
    pub sigma: T,
    pub scale: T,
}

impl<T: Real> GaussianBasis<T> {
    /// The squared width `sigma^2`.
    pub open spec fn ss2(self) -> T {
        self.sigma.smul(self.sigma)
    }

    /// The offset of `r` from the center.
    pub open spec fn sdelta(self, r: Vec3<T>) -> Vec3<T> {
        Vec3 {
            x: r.x.ssub(self.center.x),
            y: r.y.ssub(self.center.y),
            z: r.z.ssub(self.center.z),
        }
    }
}

impl<T: Real> PotentialBasis<T> for GaussianBasis<T> {
    open spec fn sphi(self, r: Vec3<T>) -> T {
        let d = self.sdelta(r);
        self.scale.smul(
            T::sratio(-1i64, 2i64).smul(
                d.x.smul(d.x).sadd(d.y.smul(d.y)).sadd(d.z.smul(d.z)),
            ).sdiv(self.ss2()).sexp(),
        )
    }

    open spec fn sgrad(self, r: Vec3<T>) -> Vec3<T> {
        let d = self.sdelta(r);
        let p = self.sphi(r);
        Vec3 {
            x: p.sneg().smul(d.x).sdiv(self.ss2()),
            y: p.sneg().smul(d.y).sdiv(self.ss2()),
            z: p.sneg().smul(d.z).sdiv(self.ss2()),
        }
    }

    open spec fn shess(self, r: Vec3<T>) -> Hess<T> {
        let d = self.sdelta(r);
        let s2 = self.ss2();
        let s4 = s2.smul(s2);
        let p = self.sphi(r);
        Hess {
            xx: p.smul(d.x.smul(d.x).ssub(s2).sdiv(s4)),
            yy: p.smul(d.y.smul(d.y).ssub(s2).sdiv(s4)),
            zz: p.smul(d.z.smul(d.z).ssub(s2).sdiv(s4)),
            xy: p.smul(d.x.smul(d.y).sdiv(s4)),
            xz: p.smul(d.x.smul(d.z).sdiv(s4)),
            yz: p.smul(d.y.smul(d.z).sdiv(s4)),
        }
    }

    fn phi(&self, r: Vec3<T>) -> (p: T) {
        let dx = r.x.sub(self.center.x);
        let dy = r.y.sub(self.center.y);
        let dz = r.z.sub(self.center.z);
        let s2 = self.sigma.mul(self.sigma);
        let mhalf = T::ratio(-1, 2);
        self.scale.mul(mhalf.mul(dx.mul(dx).add(dy.mul(dy)).add(dz.mul(dz))).div(s2).exp())
    }

    fn grad(&self, r: Vec3<T>) -> (g: Vec3<T>) {
        let dx = r.x.sub(self.center.x);
        let dy = r.y.sub(self.center.y);
        let dz = r.z.sub(self.center.z);
        let s2 = self.sigma.mul(self.sigma);
        let p = self.phi(r);
        let np = p.neg();
        Vec3 { x: np.mul(dx).div(s2), y: np.mul(dy).div(s2), z: np.mul(dz).div(s2) }
    }

    fn hess(&self, r: Vec3<T>) -> (h: Hess<T>) {
        let dx = r.x.sub(self.center.x);
        let dy = r.y.sub(self.center.y);
        let dz = r.z.sub(self.center.z);
        let s2 = self.sigma.mul(self.sigma);
        let s4 = s2.mul(s2);
        let p = self.phi(r);
        Hess {
            xx: p.mul(dx.mul(dx).sub(s2).div(s4)),
            yy: p.mul(dy.mul(dy).sub(s2).div(s4)),
            zz: p.mul(dz.mul(dz).sub(s2).div(s4)),
            xy: p.mul(dx.mul(dy).div(s4)),
            xz: p.mul(dx.mul(dz).div(s4)),
            yz: p.mul(dy.mul(dz).div(s4)),
        }
    }
}

/// The closed set of concrete bases, so a trap model can hold a
/// heterogeneous electrode bank.
#[derive(Clone, Copy, Debug)]
pub enum Basis<T> {
    Rf(RfPseudo<T>),
    Gaussian(GaussianBasis<T>),
}

impl<T: Real> PotentialBasis<T> for Basis<T> {
    open spec fn sphi(self, r: Vec3<T>) -> T {
        match self {
            Basis::Rf(b) => b.sphi(r),
            Basis::Gaussian(b) => b.sphi(r),
        }
    }

    open spec fn sgrad(self, r: Vec3<T>) -> Vec3<T> {
        match self {
            Basis::Rf(b) => b.sgrad(r),
            Basis::Gaussian(b) => b.sgrad(r),
        }
    }

    open spec fn shess(self, r: Vec3<T>) -> Hess<T> {
        match self {
            Basis::Rf(b) => b.shess(r),
            Basis::Gaussian(b) => b.shess(r),
        }
    }

    fn phi(&self, r: Vec3<T>) -> (p: T) {
        match self {
            Basis::Rf(b) => b.phi(r),
            Basis::Gaussian(b) => b.phi(r),
        }
    }

    fn grad(&self, r: Vec3<T>) -> (g: Vec3<T>) {
        match self {
            Basis::Rf(b) => b.grad(r),
            Basis::Gaussian(b) => b.grad(r),
        }
    }

    fn hess(&self, r: Vec3<T>) -> (h: Hess<T>) {
        match self {
            Basis::Rf(b) => b.hess(r),
            Basis::Gaussian(b) => b.hess(r),
        }
    }
}

/// One RF basis, an ordered bank of DC bases, and, optionally, the pair of
/// DC indices that the mirror operation swaps.
pub struct TrapModel<T> {
    pub rf: Basis<T>,
    pub dc: Vec<Basis<T>>,
    pub c2lr_pair: Option<(usize, usize)>,
}

impl<T: Real> TrapModel<T> {
    /// The rail pair, when present, names two DC electrodes.
    pub open spec fn swf(self) -> bool {
        match self.c2lr_pair {
            Some((i, j)) => i < self.dc@.len() && j < self.dc@.len(),
            None => true,
        }
    }

    /// The combined gradient of the RF basis and the first `k` DC bases at
    /// voltages `v`.
    pub open spec fn sgrad_partial(self, r: Vec3<T>, v: Seq<T>, k: int) -> Vec3<T>
        decreases k,
    {
        if k <= 0 {
            self.rf.sgrad(r)
        } else {
            let g = self.sgrad_partial(r, v, k - 1);
            let gi = self.dc@[k - 1].sgrad(r);
            Vec3 {
                x: g.x.sadd(v[k - 1].smul(gi.x)),
                y: g.y.sadd(v[k - 1].smul(gi.y)),
                z: g.z.sadd(v[k - 1].smul(gi.z)),
            }
        }
    }

    /// The combined gradient over the whole bank.
    pub open spec fn sgrad_total(self, r: Vec3<T>, v: Seq<T>) -> Vec3<T> {
        self.sgrad_partial(r, v, self.dc@.len() as int)
    }

    /// The combined Hessian of the RF basis and the first `k` DC bases at
    /// voltages `v`.
    pub open spec fn shess_partial(self, r: Vec3<T>, v: Seq<T>, k: int) -> Hess<T>
        decreases k,
    {
        if k <= 0 {
            self.rf.shess(r)
        } else {
            self.shess_partial(r, v, k - 1).sadd(self.dc@[k - 1].shess(r).sscale(v[k - 1]))
        }
    }

    /// The combined Hessian over the whole bank: the componentwise symmetric
    /// sum of the RF Hessian and every `v[j]`-scaled DC Hessian.
    pub open spec fn shess_total(self, r: Vec3<T>, v: Seq<T>) -> Hess<T> {
        self.shess_partial(r, v, self.dc@.len() as int)
    }

    pub fn new(rf: Basis<T>, dc: Vec<Basis<T>>, c2lr_pair: Option<(usize, usize)>) -> (m:
        TrapModel<T>)
        ensures
            m.rf == rf,
            m.dc == dc,
            m.c2lr_pair == c2lr_pair,
    {
        TrapModel { rf, dc, c2lr_pair }
    }

    pub fn n_electrodes(&self) -> (n: usize)
        ensures
            n == self.dc@.len(),
    {
        self.dc.len()
    }

    /// The gradient of the total potential at `r` under voltages `v`; an
    /// `InvalidInput` error exactly when `v` does not have one entry per
    /// electrode.
    pub fn grad_total(&self, r: Vec3<T>, v: &Vec<T>) -> (res: Result<Vec3<T>, IonwaveError>)
        ensures
            match res {
                Ok(g) => v@.len() == self.dc@.len() && g == self.sgrad_total(r, v@),
                Err(e) => v@.len() != self.dc@.len() && e is InvalidInput,
            },
    {
        if v.len() != self.dc.len() {
            return Err(
                IonwaveError::InvalidInput(
                    "voltage vector length does not match electrode count".to_string(),
                ),
            );
        }
        let mut g = self.rf.grad(r);
        let mut i: usize = 0;
        while i < self.dc.len()
            invariant
                i <= self.dc@.len(),
                v@.len() == self.dc@.len(),
                g == self.sgrad_partial(r, v@, i as int),
            decreases self.dc@.len() - i,
        {
            let gi = self.dc[i].grad(r);
            g = Vec3 {
                x: g.x.add(v[i].mul(gi.x)),
                y: g.y.add(v[i].mul(gi.y)),
                z: g.z.add(v[i].mul(gi.z)),
            };
            i = i + 1;
        }
        Ok(g)
    }

    /// The Hessian of the total potential at `r` under voltages `v`; an
    /// `InvalidInput` error exactly when `v` does not have one entry per
    /// electrode.
    pub fn hess_total(&self, r: Vec3<T>, v: &Vec<T>) -> (res: Result<Hess<T>, IonwaveError>)
        ensures
            match res {
                Ok(h) => v@.len() == self.dc@.len() && h == self.shess_total(r, v@),
                Err(e) => v@.len() != self.dc@.len() && e is InvalidInput,
            },
    {
        if v.len() != self.dc.len() {
            return Err(
                IonwaveError::InvalidInput(
                    "voltage vector length does not match electrode count".to_string(),
                ),
            );
        }
        let mut h = self.rf.hess(r);
        let mut i: usize = 0;
        while i < self.dc.len()
            invariant
                i <= self.dc@.len(),
                v@.len() == self.dc@.len(),
                h == self.shess_partial(r, v@, i as int),
            decreases self.dc@.len() - i,
        {
            let hi = self.dc[i].hess(r).scale(v[i]);
            h = h.add(hi);
            i = i + 1;
        }
        Ok(h)
    }
}

} // verus!
