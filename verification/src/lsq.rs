use vstd::prelude::*;
use crate::scalar::Real;

verus! {

/// Options for one regularized least-squares solve.
#[derive(Clone, Copy, Debug)]
pub struct LsqOptions<T> {
    /// Tikhonov weight, at least zero.
    pub lambda: T,
    /// Symmetric clamp applied to the solution after iteration.
    pub voltage_limit: Option<T>,
    /// Iteration bound.
    pub iters: usize,
    /// Early stop once the residual estimate falls below this.
    pub tol: T,
}

impl<T: Real> Default for LsqOptions<T> {
    fn default() -> (r: Self)
        ensures
            r.lambda == T::sratio(1i64, 100i64),
            r.voltage_limit == Some(T::sratio(5i64, 1i64)),
            r.iters == 400,
            r.tol == T::sratio(1i64, 10000000000i64),
    {
        LsqOptions {
            lambda: T::ratio(1, 100),
            voltage_limit: Some(T::ratio(5, 1)),
            iters: 400,
            tol: T::ratio(1, 10000000000),
        }
    }
}

/// The rows of a dense matrix as a sequence of sequences.
pub open spec fn mrows<T>(a: Seq<Vec<T>>) -> Seq<Seq<T>> {
    Seq::new(a.len(), |i: int| a[i]@)
}

/// Whether every row of `a` has length `cols`.
pub open spec fn srect<T>(a: Seq<Seq<T>>, cols: int) -> bool {
    forall|i: int| 0 <= i < a.len() ==> (#[trigger] a[i]).len() == cols
}

/// A sequence of `n` zeros.
pub open spec fn szeros<T: Real>(n: int) -> Seq<T> {
    Seq::new(n as nat, |i: int| T::sratio(0i64, 1i64))
}

/// The running sum of squares of the first `k` entries.
pub open spec fn ssumsq_upto<T: Real>(s: Seq<T>, k: int) -> T
    decreases k,
{
    if k <= 0 {
        T::sratio(0i64, 1i64)
    } else {
        ssumsq_upto(s, k - 1).sadd(s[k - 1].smul(s[k - 1]))
    }
}

/// The Euclidean norm: the square root of the sum of squares.
pub open spec fn snrm2<T: Real>(s: Seq<T>) -> T {
    ssumsq_upto(s, s.len() as int).ssqrt()
}

/// Every entry scaled by `f`.
pub open spec fn sscal<T: Real>(s: Seq<T>, f: T) -> Seq<T> {
    Seq::new(s.len(), |i: int| s[i].smul(f))
}

/// `y + f x`, entrywise.
pub open spec fn saxpy<T: Real>(y: Seq<T>, x: Seq<T>, f: T) -> Seq<T> {
    Seq::new(y.len(), |i: int| y[i].sadd(f.smul(x[i])))
}

/// The running inner product of `row` and `x` over the first `k` columns,
/// skipping columns whose matrix entry is zero, as a sparse product does.
pub open spec fn srow_dot_upto<T: Real>(row: Seq<T>, x: Seq<T>, k: int) -> T
    decreases k,
{
    if k <= 0 {
        T::sratio(0i64, 1i64)
    } else {
        let s = srow_dot_upto(row, x, k - 1);
        if row[k - 1].sis_zero() {
            s
        } else {
            s.sadd(row[k - 1].smul(x[k - 1]))
        }
    }
}

/// The inner product of a matrix row and `x`, zero entries skipped.
pub open spec fn srow_dot<T: Real>(row: Seq<T>, x: Seq<T>) -> T {
    srow_dot_upto(row, x, row.len() as int)
}

/// `A x`: one zero-skipping row product per row.
pub open spec fn sspmv<T: Real>(a: Seq<Seq<T>>, x: Seq<T>) -> Seq<T> {
    Seq::new(a.len(), |i: int| srow_dot(a[i], x))
}

/// The running inner product of column `j` of `a` and `x` over the first
/// `k` rows, zero entries skipped.
pub open spec fn scol_dot_upto<T: Real>(a: Seq<Seq<T>>, x: Seq<T>, j: int, k: int) -> T
    decreases k,
{
    if k <= 0 {
        T::sratio(0i64, 1i64)
    } else {
        let s = scol_dot_upto(a, x, j, k - 1);
        if a[k - 1][j].sis_zero() {
            s
        } else {
            s.sadd(a[k - 1][j].smul(x[k - 1]))
        }
    }
}

/// The inner product of a matrix column and `x`, zero entries skipped.
pub open spec fn scol_dot<T: Real>(a: Seq<Seq<T>>, x: Seq<T>, j: int) -> T {
    scol_dot_upto(a, x, j, a.len() as int)
}

/// `A^T x`: one zero-skipping column product per column.
pub open spec fn sspmtv<T: Real>(a: Seq<Seq<T>>, x: Seq<T>, cols: int) -> Seq<T> {
    Seq::new(cols as nat, |j: int| scol_dot(a, x, j))
}

fn zeros_vec<T: Real>(n: usize) -> (r: Vec<T>)
    ensures
        r@ == szeros::<T>(n as int),
{
    let mut r: Vec<T> = Vec::new();
    let mut i: usize = 0;
    while i < n
        invariant
            i <= n,
            r@.len() == i,
            forall|k: int| 0 <= k < i ==> r@[k] == T::sratio(0i64, 1i64),
        decreases n - i,
    {
        r.push(T::ratio(0, 1));
        i = i + 1;
    }
    proof {
        assert(r@ =~= szeros::<T>(n as int));
    }
    r
}

pub(crate) fn dup<T: Real>(x: &Vec<T>) -> (r: Vec<T>)
    ensures
        r@ == x@,
{
    let mut r: Vec<T> = Vec::new();
    let mut i: usize = 0;
    while i < x.len()
        invariant
            i <= x@.len(),
            r@ == x@.subrange(0, i as int),
        decreases x@.len() - i,
    {
        r.push(x[i]);
        proof {
            assert(r@ =~= x@.subrange(0, i + 1));
        }
        i = i + 1;
    }
    proof {
        assert(x@.subrange(0, x@.len() as int) =~= x@);
    }
    r
}

fn nrm2<T: Real>(x: &Vec<T>) -> (r: T)
    ensures
        r == snrm2(x@),
{
    let mut s = T::ratio(0, 1);
    let mut i: usize = 0;
    while i < x.len()
        invariant
            i <= x@.len(),
            s == ssumsq_upto(x@, i as int),
        decreases x@.len() - i,
    {
        s = s.add(x[i].mul(x[i]));
        i = i + 1;
    }
    s.sqrt()
}

fn scal<T: Real>(x: &mut Vec<T>, f: T)
    ensures
        final(x)@ == sscal(old(x)@, f),
{
    let mut i: usize = 0;
    while i < x.len()
        invariant
            i <= x@.len(),
            x@.len() == old(x)@.len(),
            forall|k: int| 0 <= k < i ==> x@[k] == old(x)@[k].smul(f),
            forall|k: int| i <= k < x@.len() ==> x@[k] == old(x)@[k],
        decreases x@.len() - i,
    {
        let t = x[i];
        x[i] = t.mul(f);
        i = i + 1;
    }
    proof {
        assert(x@ =~= sscal(old(x)@, f));
    }
}

fn axpy<T: Real>(y: &mut Vec<T>, x: &Vec<T>, f: T)
    requires
        x@.len() == old(y)@.len(),
    ensures
        final(y)@ == saxpy(old(y)@, x@, f),
{
    let mut i: usize = 0;
    while i < y.len()
        invariant
            i <= y@.len(),
            y@.len() == old(y)@.len(),
            x@.len() == old(y)@.len(),
            forall|k: int| 0 <= k < i ==> y@[k] == old(y)@[k].sadd(f.smul(x@[k])),
            forall|k: int| i <= k < y@.len() ==> y@[k] == old(y)@[k],
        decreases y@.len() - i,
    {
        let t = y[i];
        y[i] = t.add(f.mul(x[i]));
        i = i + 1;
    }
    proof {
        assert(y@ =~= saxpy(old(y)@, x@, f));
    }
}

fn spmv<T: Real>(a: &Vec<Vec<T>>, x: &Vec<T>) -> (r: Vec<T>)
    requires
        srect(mrows(a@), x@.len() as int),
    ensures
        r@ == sspmv(mrows(a@), x@),
{
    let mut r: Vec<T> = Vec::new();
    let mut i: usize = 0;
    while i < a.len()
        invariant
            i <= a@.len(),
            srect(mrows(a@), x@.len() as int),
            r@.len() == i,
            forall|k: int| 0 <= k < i ==> r@[k] == srow_dot(mrows(a@)[k], x@),
        decreases a@.len() - i,
    {
        let row = &a[i];
        let mut s = T::ratio(0, 1);
        let mut j: usize = 0;
        while j < row.len()
            invariant
                j <= row@.len(),
                row@ == mrows(a@)[i as int],
                i < a@.len(),
                srect(mrows(a@), x@.len() as int),
                s == srow_dot_upto(row@, x@, j as int),
            decreases row@.len() - j,
        {
            let vij = row[j];
            if !vij.is_zero() {
                s = s.add(vij.mul(x[j]));
            }
            j = j + 1;
        }
        r.push(s);
        i = i + 1;
    }
    proof {
        assert(r@ =~= sspmv(mrows(a@), x@));
    }
    r
}

fn spmtv<T: Real>(a: &Vec<Vec<T>>, x: &Vec<T>, cols: usize) -> (r: Vec<T>)
    requires
        srect(mrows(a@), cols as int),
        x@.len() >= a@.len(),
    ensures
        r@ == sspmtv(mrows(a@), x@, cols as int),
{
    let mut r: Vec<T> = Vec::new();
    let mut j: usize = 0;
    while j < cols
        invariant
            j <= cols,
            srect(mrows(a@), cols as int),
            x@.len() >= a@.len(),
            r@.len() == j,
            forall|k: int| 0 <= k < j ==> r@[k] == scol_dot(mrows(a@), x@, k),
        decreases cols - j,
    {
        let mut s = T::ratio(0, 1);
        let mut i: usize = 0;
        while i < a.len()
            invariant
                i <= a@.len(),
                j < cols,
                srect(mrows(a@), cols as int),
                x@.len() >= a@.len(),
                s == scol_dot_upto(mrows(a@), x@, j as int, i as int),
            decreases a@.len() - i,
        {
            proof {
                assert(mrows(a@)[i as int].len() == cols as int);
            }
            let vij = a[i][j];
            if !vij.is_zero() {
                s = s.add(vij.mul(x[i]));
            }
            i = i + 1;
        }
        r.push(s);
        j = j + 1;
    }
    proof {
        assert(r@ =~= sspmtv(mrows(a@), x@, cols as int));
    }
    r
}

/// One entry clamped to `[-lim, lim]`, upper bound first, as the solver's
/// post-projection applies it.
pub open spec fn sclamp1<T: Real>(x: T, lim: T) -> T {
    let t = if lim.slt(x) {
        lim
    } else {
        x
    };
    if t.slt(lim.sneg()) {
        lim.sneg()
    } else {
        t
    }
}

/// The solution with the optional symmetric clamp applied.
pub open spec fn sclamped<T: Real>(xs: Seq<T>, lim: Option<T>) -> Seq<T> {
    match lim {
        Some(l) => Seq::new(xs.len(), |j: int| sclamp1(xs[j], l)),
        None => xs,
    }
}

/// Clamping is idempotent: clamping an already clamped solution changes
/// nothing. Uses only the irreflexivity of the scalar's strict order.
pub proof fn lemma_clamp_idempotent<T: Real>(xs: Seq<T>, lim: T)
    ensures
        sclamped(sclamped(xs, Some(lim)), Some(lim)) == sclamped(xs, Some(lim)),
{
    lim.lt_irrefl();
    lim.sneg().lt_irrefl();
    assert(sclamped(sclamped(xs, Some(lim)), Some(lim)) =~= sclamped(xs, Some(lim)));
}

/// The state carried between LSQR iterations.
pub struct SLsqr<T> {
    pub u: Seq<T>,
    pub v: Seq<T>,
    pub w: Seq<T>,
    pub x: Seq<T>,
    pub alpha: T,
    pub beta: T,
    pub phi_bar: T,
    pub rho_bar: T,
}

/// The augmented product `[A v; sqlam v]`.
pub open spec fn s_aug_v<T: Real>(a: Seq<Seq<T>>, cols: int, sqlam: T, v: Seq<T>) -> Seq<T> {
    sspmv(a, v) + Seq::new(cols as nat, |j: int| sqlam.smul(v[j]))
}

/// The augmented transposed product `A^T u_top + sqlam u_bottom`.
pub open spec fn s_aug_tv<T: Real>(a: Seq<Seq<T>>, cols: int, sqlam: T, u: Seq<T>) -> Seq<T> {
    Seq::new(cols as nat, |j: int| scol_dot(a, u, j).sadd(sqlam.smul(u[a.len() + j])))
}

/// `s` scaled by the reciprocal of `f`, unless `f` is zero, in which case
/// `s` is left as it is.
pub open spec fn snormalized<T: Real>(s: Seq<T>, f: T) -> Seq<T> {
    if f.sis_zero() {
        s
    } else {
        sscal(s, T::sratio(1i64, 1i64).sdiv(f))
    }
}

/// The Golub-Kahan initialization: `u` from `[b; 0]`, `v` from the
/// augmented transposed product, both normalized when their norm is not
/// zero; `x` starts at zero.
pub open spec fn s_lsqr_init<T: Real>(a: Seq<Seq<T>>, cols: int, sqlam: T, b: Seq<T>) -> SLsqr<
    T,
> {
    let u0 = b + szeros(cols);
    let beta = snrm2(u0);
    let u = snormalized(u0, beta);
    let v0 = s_aug_tv(a, cols, sqlam, u);
    let alpha = snrm2(v0);
    let v = snormalized(v0, alpha);
    SLsqr { u, v, w: v, x: szeros(cols), alpha, beta, phi_bar: beta, rho_bar: alpha }
}

/// One LSQR iteration: a bidiagonalization step followed by the QR
/// rotation and the updates of `x` and `w`.
pub open spec fn s_lsqr_step<T: Real>(a: Seq<Seq<T>>, cols: int, sqlam: T, st: SLsqr<T>) -> SLsqr<
    T,
> {
    let u1 = saxpy(s_aug_v(a, cols, sqlam, st.v), st.u, st.alpha.sneg());
    let beta = snrm2(u1);
    let u = snormalized(u1, beta);
    let v1 = saxpy(s_aug_tv(a, cols, sqlam, u), st.v, beta.sneg());
    let alpha = snrm2(v1);
    let v = snormalized(v1, alpha);
    let rho = st.rho_bar.smul(st.rho_bar).sadd(beta.smul(beta)).ssqrt();
    let c = st.rho_bar.sdiv(rho);
    let s = beta.sdiv(rho);
    let theta = s.smul(alpha);
    let rho_bar = c.sneg().smul(alpha);
    let phi = c.smul(st.phi_bar);
    let phi_bar = s.smul(st.phi_bar);
    let x = Seq::new(st.x.len(), |j: int| st.x[j].sadd(phi.sdiv(rho).smul(st.w[j])));
    let w = Seq::new(st.w.len(), |j: int| v[j].ssub(theta.sdiv(rho).smul(st.w[j])));
    SLsqr { u, v, w, x, alpha, beta, phi_bar, rho_bar }
}

/// At most `k` further LSQR iterations, stopping early once the residual
/// estimate `|phi_bar|` falls below `tol`.
pub open spec fn s_lsqr_run<T: Real>(
    a: Seq<Seq<T>>,
    cols: int,
    sqlam: T,
    tol: T,
    st: SLsqr<T>,
    k: nat,
) -> SLsqr<T>
    decreases k,
{
    if k == 0 {
        st
    } else {
        let s1 = s_lsqr_step(a, cols, sqlam, st);
        if s1.phi_bar.sabs().slt(tol) {
            s1
        } else {
            s_lsqr_run(a, cols, sqlam, tol, s1, (k - 1) as nat)
        }
    }
}

/// The regularization scale: the square root of `lambda`, floored at zero.
pub open spec fn ssqrt_lambda<T: Real>(lambda: T) -> T {
    (if lambda.slt(T::sratio(0i64, 1i64)) {
        T::sratio(0i64, 1i64)
    } else {
        lambda
    }).ssqrt()
}

/// The result of the regularized solve: the LSQR iterate on the augmented
/// system, with the optional symmetric clamp applied.
pub open spec fn stikhonov<T: Real>(
    a: Seq<Seq<T>>,
    b: Seq<T>,
    cols: int,
    opts: LsqOptions<T>,
) -> Seq<T> {
    let sqlam = ssqrt_lambda(opts.lambda);
    sclamped(
        s_lsqr_run(
            a,
            cols,
            sqlam,
            opts.tol,
            s_lsqr_init(a, cols, sqlam, b),
            opts.iters as nat,
        ).x,
        opts.voltage_limit,
    )
}

fn aug_v<T: Real>(a: &Vec<Vec<T>>, cols: usize, sqlam: T, v: &Vec<T>) -> (r: Vec<T>)
    requires
        srect(mrows(a@), cols as int),
        v@.len() == cols,
    ensures
        r@ == s_aug_v(mrows(a@), cols as int, sqlam, v@),
        r@.len() == a@.len() + cols,
{
    let mut r = spmv(a, v);
    let ghost top = r@;
    let mut j: usize = 0;
    while j < cols
        invariant
            j <= cols,
            v@.len() == cols,
            r@.len() == top.len() + j,
            r@.subrange(0, top.len() as int) == top,
            forall|k: int| 0 <= k < j ==> r@[top.len() + k] == sqlam.smul(v@[k]),
        decreases cols - j,
    {
        r.push(sqlam.mul(v[j]));
        proof {
            assert(r@.subrange(0, top.len() as int) =~= top);
        }
        j = j + 1;
    }
    proof {
        assert(r@ =~= s_aug_v(mrows(a@), cols as int, sqlam, v@));
    }
    r
}

fn aug_tv<T: Real>(a: &Vec<Vec<T>>, cols: usize, sqlam: T, u: &Vec<T>) -> (r: Vec<T>)
    requires
        srect(mrows(a@), cols as int),
        u@.len() == a@.len() + cols,
    ensures
        r@ == s_aug_tv(mrows(a@), cols as int, sqlam, u@),
        r@.len() == cols,
{
    let mut r = spmtv(a, u, cols);
    let alen = a.len();
    let ulen = u.len();
    let mut j: usize = 0;
    while j < cols
        invariant
            j <= cols,
            alen == a@.len(),
            ulen == u@.len(),
            u@.len() == a@.len() + cols,
            r@.len() == cols,
            forall|k: int|
                j <= k < cols ==> r@[k] == sspmtv(mrows(a@), u@, cols as int)[k],
            forall|k: int|
                0 <= k < j ==> r@[k] == scol_dot(mrows(a@), u@, k).sadd(
                    sqlam.smul(u@[a@.len() + k]),
                ),
        decreases cols - j,
    {
        let t = r[j];
        r[j] = t.add(sqlam.mul(u[alen + j]));
        j = j + 1;
    }
    proof {
        assert(r@ =~= s_aug_tv(mrows(a@), cols as int, sqlam, u@));
    }
    r
}

fn update_xw<T: Real>(x: &mut Vec<T>, w: &mut Vec<T>, vnew: &Vec<T>, pr: T, tr: T)
    requires
        old(x)@.len() == old(w)@.len(),
        vnew@.len() == old(w)@.len(),
    ensures
        final(x)@ == Seq::new(old(x)@.len(), |j: int| old(x)@[j].sadd(pr.smul(old(w)@[j]))),
        final(w)@ == Seq::new(old(w)@.len(), |j: int| vnew@[j].ssub(tr.smul(old(w)@[j]))),
{
    let mut j: usize = 0;
    while j < x.len()
        invariant
            j <= x@.len(),
            x@.len() == old(x)@.len(),
            w@.len() == old(w)@.len(),
            old(x)@.len() == old(w)@.len(),
            vnew@.len() == old(w)@.len(),
            forall|k: int| 0 <= k < j ==> x@[k] == old(x)@[k].sadd(pr.smul(old(w)@[k])),
            forall|k: int| j <= k < x@.len() ==> x@[k] == old(x)@[k],
            forall|k: int| 0 <= k < j ==> w@[k] == vnew@[k].ssub(tr.smul(old(w)@[k])),
            forall|k: int| j <= k < w@.len() ==> w@[k] == old(w)@[k],
        decreases x@.len() - j,
    {
        let xt = x[j];
        let wt = w[j];
        x[j] = xt.add(pr.mul(wt));
        w[j] = vnew[j].sub(tr.mul(wt));
        j = j + 1;
    }
    proof {
        assert(x@ =~= Seq::new(old(x)@.len(), |j: int| old(x)@[j].sadd(pr.smul(old(w)@[j]))));
        assert(w@ =~= Seq::new(old(w)@.len(), |j: int| vnew@[j].ssub(tr.smul(old(w)@[j]))));
    }
}

/// Clamps every entry of `x` symmetrically to `[-lim, lim]`.
pub fn clamp_symmetric<T: Real>(x: &mut Vec<T>, lim: T)
    ensures
        final(x)@ == sclamped(old(x)@, Some(lim)),
{
    let nv = lim.neg();
    let mut j: usize = 0;
    while j < x.len()
        invariant
            j <= x@.len(),
            x@.len() == old(x)@.len(),
            nv == lim.sneg(),
            forall|k: int| 0 <= k < j ==> x@[k] == sclamp1(old(x)@[k], lim),
            forall|k: int| j <= k < x@.len() ==> x@[k] == old(x)@[k],
        decreases x@.len() - j,
    {
        let mut t = x[j];
        if lim.lt(t) {
            t = lim;
        }
        if t.lt(nv) {
            t = nv;
        }
        x[j] = t;
        j = j + 1;
    }
    proof {
        assert(x@ =~= sclamped(old(x)@, Some(lim)));
    }
}

/// LSQR on the augmented matrix `[A; sqrt(lambda) I]` with right-hand side
/// `[b; 0]`, followed by the optional symmetric clamp.
///
/// The matrix must be rectangular with at least one row (the row count
/// fixes the column count), and `b` must have one entry per row. The
/// result has one entry per column and is exactly the iterate that the
/// modeled recurrence reaches within `opts.iters` steps, stopping early
/// once `|phi_bar|` drops below `opts.tol`.
pub fn tikhonov<T: Real>(a_dense: &Vec<Vec<T>>, b: &Vec<T>, opts: &LsqOptions<T>) -> (x: Vec<T>)
    requires
        a_dense@.len() > 0,
        srect(mrows(a_dense@), a_dense@[0]@.len() as int),
        b@.len() == a_dense@.len(),
    ensures
        x@.len() == a_dense@[0]@.len(),
        x@ == stikhonov(mrows(a_dense@), b@, a_dense@[0]@.len() as int, *opts),
{
    let ghost am = mrows(a_dense@);
    let m0 = a_dense.len();
    let n = a_dense[0].len();
    let zero = T::ratio(0, 1);
    let one = T::ratio(1, 1);
    let lam = if opts.lambda.lt(zero) {
        zero
    } else {
        opts.lambda
    };
    let sqlam = lam.sqrt();
    proof {
        assert(sqlam == ssqrt_lambda(opts.lambda));
    }
    let mut u = dup(b);
    let mut tailz: Vec<T> = zeros_vec(n);
    u.append(&mut tailz);
    let mut beta = nrm2(&u);
    if !beta.is_zero() {
        scal(&mut u, one.div(beta));
    }
    let mut v = aug_tv(a_dense, n, sqlam, &u);
    let mut alpha = nrm2(&v);
    if !alpha.is_zero() {
        scal(&mut v, one.div(alpha));
    }
    let mut w = dup(&v);
    let mut x: Vec<T> = zeros_vec(n);
    let mut phi_bar = beta;
    let mut rho_bar = alpha;
    let ghost st0 = s_lsqr_init(am, n as int, sqlam, b@);
    let ghost mut st = st0;
    proof {
        assert(u@ == st0.u && v@ == st0.v && w@ == st0.w && x@ == st0.x);
    }
    let mut stop = false;
    let mut it: usize = 0;
    while it < opts.iters && !stop
        invariant
            it <= opts.iters,
            one == T::sratio(1i64, 1i64),
            srect(am, n as int),
            am == mrows(a_dense@),
            am.len() == m0,
            u@.len() == m0 + n,
            v@.len() == n,
            w@.len() == n,
            x@.len() == n,
            u@ == st.u,
            v@ == st.v,
            w@ == st.w,
            x@ == st.x,
            alpha == st.alpha,
            beta == st.beta,
            phi_bar == st.phi_bar,
            rho_bar == st.rho_bar,
            if stop {
                st == s_lsqr_run(am, n as int, sqlam, opts.tol, st0, opts.iters as nat)
            } else {
                s_lsqr_run(am, n as int, sqlam, opts.tol, st, (opts.iters - it) as nat)
                    == s_lsqr_run(am, n as int, sqlam, opts.tol, st0, opts.iters as nat)
            },
        decreases opts.iters - it,
    {
        let ghost stp = st;
        let mut av = aug_v(a_dense, n, sqlam, &v);
        axpy(&mut av, &u, alpha.neg());
        u = av;
        let ghost su1 = saxpy(s_aug_v(am, n as int, sqlam, stp.v), stp.u, stp.alpha.sneg());
        proof {
            assert(u@ == su1);
        }
        beta = nrm2(&u);
        if !beta.is_zero() {
            scal(&mut u, one.div(beta));
        }
        let ghost sbeta = snrm2(su1);
        let ghost su = snormalized(su1, sbeta);
        proof {
            assert(beta == sbeta);
            assert(u@ == su);
        }
        let mut atu = aug_tv(a_dense, n, sqlam, &u);
        axpy(&mut atu, &v, beta.neg());
        let ghost sv1 = saxpy(s_aug_tv(am, n as int, sqlam, su), stp.v, sbeta.sneg());
        proof {
            assert(atu@ == sv1);
        }
        alpha = nrm2(&atu);
        if !alpha.is_zero() {
            scal(&mut atu, one.div(alpha));
        }
        let ghost salpha = snrm2(sv1);
        let ghost sv = snormalized(sv1, salpha);
        let vnew = atu;
        proof {
            assert(alpha == salpha);
            assert(vnew@ == sv);
        }
        let rho = rho_bar.mul(rho_bar).add(beta.mul(beta)).sqrt();
        let c = rho_bar.div(rho);
        let s = beta.div(rho);
        let theta = s.mul(alpha);
        rho_bar = c.neg().mul(alpha);
        let phi = c.mul(phi_bar);
        phi_bar = s.mul(phi_bar);
        update_xw(&mut x, &mut w, &vnew, phi.div(rho), theta.div(rho));
        v = vnew;
        proof {
            st = s_lsqr_step(am, n as int, sqlam, stp);
            assert(st.u == su);
            assert(st.v == sv);
            assert(st.beta == sbeta && st.alpha == salpha);
            assert(u@ == st.u && v@ == st.v && w@ == st.w && x@ == st.x);
            assert(alpha == st.alpha && beta == st.beta && phi_bar == st.phi_bar
                && rho_bar == st.rho_bar);
        }
        it = it + 1;
        if phi_bar.abs().lt(opts.tol) {
            stop = true;
            proof {
                assert(s_lsqr_run(am, n as int, sqlam, opts.tol, stp, (opts.iters - it
                    + 1) as nat) == st);
            }
        }
    }
    proof {
        if !stop {
            assert(s_lsqr_run(am, n as int, sqlam, opts.tol, st, 0) == st);
        }
        assert(st == s_lsqr_run(am, n as int, sqlam, opts.tol, st0, opts.iters as nat));
    }
    match &opts.voltage_limit {
        Some(vl) => {
            clamp_symmetric(&mut x, *vl);
        },
        None => {
            proof {
                assert(x@ == sclamped(st.x, opts.voltage_limit));
            }
        },
    }
    x
}

} // verus!
