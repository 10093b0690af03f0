use vstd::prelude::*;
use crate::lsq::dup;
use crate::scalar::Real;
use crate::types::Hess;

verus! {

/// The symmetric Hessian written out as a full 3 by 3 matrix.
pub open spec fn sm_of<T: Real>(h: Hess<T>) -> Seq<Seq<T>> {
    seq![
        seq![h.xx, h.xy, h.xz],
        seq![h.xy, h.yy, h.yz],
        seq![h.xz, h.yz, h.zz],
    ]
}

/// The pivot the sweep picks: the largest off-diagonal entry by absolute
/// value, `(0, 1)` first, then `(0, 2)`, then `(1, 2)`, each replacing the
/// running choice only when strictly larger.
pub open spec fn spivot<T: Real>(m: Seq<Seq<T>>) -> (int, int, T) {
    let c1 = if m[0][1].sabs().slt(m[0][2].sabs()) {
        (0int, 2int, m[0][2].sabs())
    } else {
        (0int, 1int, m[0][1].sabs())
    };
    if c1.2.slt(m[1][2].sabs()) {
        (1int, 2int, m[1][2].sabs())
    } else {
        c1
    }
}

/// Rows `p` and `q` rotated by the angle with cosine `c` and sine `s`.
pub open spec fn srot_rows<T: Real>(m: Seq<Seq<T>>, p: int, q: int, c: T, s: T) -> Seq<Seq<T>> {
    Seq::new(
        m.len(),
        |i: int|
            if i == p {
                Seq::new(m[p].len(), |k: int| c.smul(m[p][k]).ssub(s.smul(m[q][k])))
            } else if i == q {
                Seq::new(m[q].len(), |k: int| s.smul(m[p][k]).sadd(c.smul(m[q][k])))
            } else {
                m[i]
            },
    )
}

/// Columns `p` and `q` rotated by the angle with cosine `c` and sine `s`.
pub open spec fn srot_cols<T: Real>(m: Seq<Seq<T>>, p: int, q: int, c: T, s: T) -> Seq<Seq<T>> {
    Seq::new(
        m.len(),
        |k: int|
            m[k].update(p, c.smul(m[k][p]).ssub(s.smul(m[k][q]))).update(
                q,
                s.smul(m[k][p]).sadd(c.smul(m[k][q])),
            ),
    )
}

/// One Jacobi rotation at the chosen pivot: the angle is half the arc
/// tangent of `(aqq - app) / apq`, and the rotation is applied to the rows
/// and then to the columns.
pub open spec fn sjacobi_step<T: Real>(m: Seq<Seq<T>>) -> Seq<Seq<T>> {
    let piv = spivot(m);
    let p = piv.0;
    let q = piv.1;
    let phi = T::sratio(1i64, 2i64).smul(m[q][q].ssub(m[p][p]).sdiv(m[p][q]).satan());
    let c = phi.scos();
    let s = phi.ssin();
    srot_cols(srot_rows(m, p, q, c, s), p, q, c, s)
}

/// At most `k` further Jacobi rotations, stopping once the largest
/// off-diagonal magnitude falls below `1 / 10^12`.
pub open spec fn sjacobi_run<T: Real>(m: Seq<Seq<T>>, k: nat) -> Seq<Seq<T>>
    decreases k,
{
    if k == 0 {
        m
    } else {
        let piv = spivot(m);
        if piv.2.slt(T::sratio(1i64, 1000000000000i64)) {
            m
        } else {
            sjacobi_run(sjacobi_step(m), (k - 1) as nat)
        }
    }
}

/// The diagonal that 25 bounded Jacobi sweeps reach.
pub open spec fn seigenvalues<T: Real>(h: Hess<T>) -> Seq<T> {
    let m = sjacobi_run(sm_of(h), 25);
    seq![m[0][0], m[1][1], m[2][2]]
}

/// One secular angular frequency: the square root of `q lambda / m`,
/// floored at zero.
pub open spec fn s_secular_one<T: Real>(q: T, m: T, lam: T) -> T {
    let t = q.smul(lam).sdiv(m);
    (if t.slt(T::sratio(0i64, 1i64)) {
        T::sratio(0i64, 1i64)
    } else {
        t
    }).ssqrt()
}

/// The three secular angular frequencies for the eigenvalues of `h`.
pub open spec fn s_secular_freqs<T: Real>(h: Hess<T>, q: T, m: T) -> Seq<T> {
    Seq::new(3, |i: int| s_secular_one(q, m, seigenvalues(h)[i]))
}

/// The eigenvalues of the symmetric 3 by 3 matrix `h`, by cyclic Jacobi
/// rotations: at most 25 sweeps, stopping once every off-diagonal entry is
/// below `1 / 10^12` in magnitude, and returning whatever diagonal was
/// reached. Never fails.
pub fn eigenvalues<T: Real>(h: Hess<T>) -> (r: Vec<T>)
    ensures
        r@ == seigenvalues(h),
{
    let mut m: Vec<Vec<T>> = Vec::new();
    let mut r0: Vec<T> = Vec::new();
    r0.push(h.xx);
    r0.push(h.xy);
    r0.push(h.xz);
    let mut r1: Vec<T> = Vec::new();
    r1.push(h.xy);
    r1.push(h.yy);
    r1.push(h.yz);
    let mut r2: Vec<T> = Vec::new();
    r2.push(h.xz);
    r2.push(h.yz);
    r2.push(h.zz);
    m.push(r0);
    m.push(r1);
    m.push(r2);
    proof {
        assert(m@[0]@ =~= sm_of(h)[0]);
        assert(m@[1]@ =~= sm_of(h)[1]);
        assert(m@[2]@ =~= sm_of(h)[2]);
        assert(crate::lsq::mrows(m@) =~= sm_of(h));
    }
    let tol = T::ratio(1, 1000000000000);
    let half = T::ratio(1, 2);
    let ghost g0 = sm_of(h);
    let ghost mut g = g0;
    let mut stop = false;
    let mut it: usize = 0;
    while it < 25 && !stop
        invariant
            it <= 25,
            tol == T::sratio(1i64, 1000000000000i64),
            half == T::sratio(1i64, 2i64),
            m@.len() == 3,
            forall|i: int| 0 <= i < 3 ==> (#[trigger] m@[i])@.len() == 3,
            crate::lsq::mrows(m@) == g,
            if stop {
                g == sjacobi_run(g0, 25)
            } else {
                sjacobi_run(g, (25 - it) as nat) == sjacobi_run(g0, 25)
            },
        decreases
                (if stop {
                    0int
                } else {
                    25 - it + 1
                }),
    {
        let ghost gp = g;
        let a01 = m[0][1].abs();
        let a02 = m[0][2].abs();
        let a12 = m[1][2].abs();
        let mut p: usize = 0;
        let mut q: usize = 1;
        let mut maxv = a01;
        if maxv.lt(a02) {
            p = 0;
            q = 2;
            maxv = a02;
        }
        if maxv.lt(a12) {
            p = 1;
            q = 2;
            maxv = a12;
        }
        proof {
            assert(spivot(g) == (p as int, q as int, maxv));
        }
        if maxv.lt(tol) {
            stop = true;
            proof {
                assert(sjacobi_run(gp, (25 - it) as nat) == gp);
            }
        } else {
            let app = m[p][p];
            let aqq = m[q][q];
            let apq = m[p][q];
            let phi = half.mul(aqq.sub(app).div(apq).atan());
            let cc = phi.cos();
            let ss = phi.sin();
            // rotate rows p and q
            let mut nrp: Vec<T> = Vec::new();
            let mut nrq: Vec<T> = Vec::new();
            let mut k: usize = 0;
            while k < 3
                invariant
                    k <= 3,
                    p < 3,
                    q < 3,
                    m@.len() == 3,
                    forall|i: int| 0 <= i < 3 ==> (#[trigger] m@[i])@.len() == 3,
                    nrp@.len() == k,
                    nrq@.len() == k,
                    forall|t: int|
                        0 <= t < k ==> nrp@[t] == cc.smul(m@[p as int]@[t]).ssub(
                            ss.smul(m@[q as int]@[t]),
                        ),
                    forall|t: int|
                        0 <= t < k ==> nrq@[t] == ss.smul(m@[p as int]@[t]).sadd(
                            cc.smul(m@[q as int]@[t]),
                        ),
                decreases 3 - k,
            {
                let aik = m[p][k];
                let aqk = m[q][k];
                nrp.push(cc.mul(aik).sub(ss.mul(aqk)));
                nrq.push(ss.mul(aik).add(cc.mul(aqk)));
                k = k + 1;
            }
            let ghost grot = srot_rows(g, p as int, q as int, cc, ss);
            m[p] = nrp;
            m[q] = nrq;
            proof {
                assert forall|i: int| 0 <= i < 3 implies (#[trigger] crate::lsq::mrows(m@)[i])
                    =~= grot[i] by {}
                assert(crate::lsq::mrows(m@) =~= grot);
            }
            // rotate columns p and q
            let mut k2: usize = 0;
            while k2 < 3
                invariant
                    k2 <= 3,
                    p < 3,
                    q < 3,
                    p != q,
                    grot.len() == 3,
                    forall|i: int| 0 <= i < 3 ==> (#[trigger] grot[i]).len() == 3,
                    m@.len() == 3,
                    forall|i: int| 0 <= i < 3 ==> (#[trigger] m@[i])@.len() == 3,
                    forall|i: int|
                        0 <= i < k2 ==> (#[trigger] m@[i])@ == srot_cols(
                            grot,
                            p as int,
                            q as int,
                            cc,
                            ss,
                        )[i],
                    forall|i: int| k2 <= i < 3 ==> (#[trigger] m@[i])@ == grot[i],
                decreases 3 - k2,
            {
                let akp = m[k2][p];
                let akq = m[k2][q];
                let mut row = dup(&m[k2]);
                row[p] = cc.mul(akp).sub(ss.mul(akq));
                row[q] = ss.mul(akp).add(cc.mul(akq));
                m[k2] = row;
                k2 = k2 + 1;
            }
            proof {
                g = sjacobi_step(gp);
                assert(crate::lsq::mrows(m@) =~= g);
            }
            it = it + 1;
        }
    }
    proof {
        if !stop {
            assert(sjacobi_run(g, 0) == g);
        }
        assert(g == sjacobi_run(g0, 25));
    }
    let mut r: Vec<T> = Vec::new();
    r.push(m[0][0]);
    r.push(m[1][1]);
    r.push(m[2][2]);
    proof {
        assert(r@ =~= seigenvalues(h));
    }
    r
}

/// The three secular angular frequencies `sqrt(max(0, q lambda / m))` for
/// the eigenvalues `lambda` of `h`. Never fails; a zero entry means no
/// confinement along that mode.
pub fn secular_freqs<T: Real>(h: Hess<T>, q: T, m: T) -> (r: Vec<T>)
    ensures
        r@ == s_secular_freqs(h, q, m),
{
    let ev = eigenvalues(h);
    let zero = T::ratio(0, 1);
    let mut r: Vec<T> = Vec::new();
    let mut i: usize = 0;
    while i < 3
        invariant
            i <= 3,
            zero == T::sratio(0i64, 1i64),
            ev@ == seigenvalues(h),
            r@.len() == i,
            forall|k: int| 0 <= k < i ==> r@[k] == s_secular_one(q, m, seigenvalues(h)[k]),
        decreases 3 - i,
    {
        let t = q.mul(ev[i]).div(m);
        let val = if t.lt(zero) {
            zero
        } else {
            t
        };
        r.push(val.sqrt());
        i = i + 1;
    }
    proof {
        assert(r@ =~= s_secular_freqs(h, q, m));
    }
    r
}

} // verus!
