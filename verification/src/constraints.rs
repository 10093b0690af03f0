use vstd::prelude::*;
use crate::basis::{PotentialBasis, TrapModel};
use crate::scalar::Real;
use crate::types::{Vec3, Waypoint};

verus! {

/// The unit vector along x.
pub open spec fn sex<T: Real>() -> Vec3<T> {
    Vec3 { x: T::sratio(1i64, 1i64), y: T::sratio(0i64, 1i64), z: T::sratio(0i64, 1i64) }
}

/// The unit vector along y.
pub open spec fn sey<T: Real>() -> Vec3<T> {
    Vec3 { x: T::sratio(0i64, 1i64), y: T::sratio(1i64, 1i64), z: T::sratio(0i64, 1i64) }
}

/// The heavy weight on the axial-curvature row.
pub open spec fn s_w_ax<T: Real>() -> T {
    T::sratio(1000i64, 1i64)
}

/// The soft weight on the two radial-floor rows.
pub open spec fn s_w_rad<T: Real>() -> T {
    T::sratio(50i64, 1i64)
}

/// The target axial curvature `m omega^2 / q`.
pub open spec fn s_target_curv<T: Real>(q: T, m: T, omega: T) -> T {
    m.smul(omega).smul(omega).sdiv(q)
}

/// Entry `[row, j]` of the constraint matrix: the three gradient rows, the
/// weighted axial-curvature row, and the two weighted radial-floor rows,
/// each evaluated on DC basis `j` at the waypoint.
pub open spec fn s_con_entry<T: Real>(
    model: TrapModel<T>,
    wp: Waypoint<T>,
    row: int,
    j: int,
) -> T {
    let g = model.dc@[j].sgrad(wp.r);
    let h = model.dc@[j].shess(wp.r);
    if row == 0 {
        g.x
    } else if row == 1 {
        g.y
    } else if row == 2 {
        g.z
    } else if row == 3 {
        s_w_ax::<T>().smul(h.squad(wp.axial_dir))
    } else if row == 4 {
        s_w_rad::<T>().smul(h.squad(sex()))
    } else {
        s_w_rad::<T>().smul(h.squad(sey()))
    }
}

/// Entry `row` of the right-hand side: minus the RF gradient for the
/// force rows; the weighted gap between target and RF curvature for the
/// axial row; the weighted gap between the 20 percent RF floor and the RF
/// curvature for the radial rows.
pub open spec fn s_con_rhs<T: Real>(
    model: TrapModel<T>,
    wp: Waypoint<T>,
    q: T,
    m: T,
    row: int,
) -> T {
    let grf = model.rf.sgrad(wp.r);
    let hrf = model.rf.shess(wp.r);
    if row == 0 {
        grf.x.sneg()
    } else if row == 1 {
        grf.y.sneg()
    } else if row == 2 {
        grf.z.sneg()
    } else if row == 3 {
        s_w_ax::<T>().smul(s_target_curv(q, m, wp.omega_axial).ssub(hrf.squad(wp.axial_dir)))
    } else if row == 4 {
        s_w_rad::<T>().smul(T::sratio(1i64, 5i64).smul(hrf.squad(sex())).ssub(hrf.squad(sex())))
    } else {
        s_w_rad::<T>().smul(T::sratio(1i64, 5i64).smul(hrf.squad(sey())).ssub(hrf.squad(sey())))
    }
}

/// The 6 by `n_electrodes` constraint matrix.
pub open spec fn s_con_matrix<T: Real>(model: TrapModel<T>, wp: Waypoint<T>) -> Seq<Seq<T>> {
    Seq::new(6, |row: int| Seq::new(model.dc@.len(), |j: int| s_con_entry(model, wp, row, j)))
}

/// The length-6 right-hand side.
pub open spec fn s_con_rhs_vec<T: Real>(model: TrapModel<T>, wp: Waypoint<T>, q: T, m: T) -> Seq<
    T,
> {
    Seq::new(6, |row: int| s_con_rhs(model, wp, q, m, row))
}

/// Builds the per-waypoint linear system `(A, b)`: three zero-force rows,
/// one heavily weighted axial-curvature row, and two softly weighted
/// radial-floor rows, as `s_con_entry` and `s_con_rhs` state them.
pub fn build_constraints<T: Real>(
    model: &TrapModel<T>,
    wp: &Waypoint<T>,
    charge_q: T,
    mass_m: T,
) -> (res: (Vec<Vec<T>>, Vec<T>))
    ensures
        res.0@.len() == 6,
        res.1@.len() == 6,
        forall|row: int| 0 <= row < 6 ==> (#[trigger] res.0@[row])@.len() == model.dc@.len(),
        crate::lsq::mrows(res.0@) == s_con_matrix(*model, *wp),
        res.1@ == s_con_rhs_vec(*model, *wp, charge_q, mass_m),
{
    let n = model.n_electrodes();
    let u = wp.axial_dir;
    let zero = T::ratio(0, 1);
    let one = T::ratio(1, 1);
    let ex = Vec3 { x: one, y: zero, z: zero };
    let ey = Vec3 { x: zero, y: one, z: zero };
    let w_ax = T::ratio(1000, 1);
    let w_rad = T::ratio(50, 1);
    let fifth = T::ratio(1, 5);

    let mut r0: Vec<T> = Vec::new();
    let mut r1: Vec<T> = Vec::new();
    let mut r2: Vec<T> = Vec::new();
    let mut r3: Vec<T> = Vec::new();
    let mut r4: Vec<T> = Vec::new();
    let mut r5: Vec<T> = Vec::new();
    let mut j: usize = 0;
    while j < n
        invariant
            j <= n,
            n == model.dc@.len(),
            u == wp.axial_dir,
            ex == sex::<T>(),
            ey == sey::<T>(),
            w_ax == s_w_ax::<T>(),
            w_rad == s_w_rad::<T>(),
            r0@.len() == j && r1@.len() == j && r2@.len() == j,
            r3@.len() == j && r4@.len() == j && r5@.len() == j,
            forall|k: int| 0 <= k < j ==> r0@[k] == s_con_entry(*model, *wp, 0, k),
            forall|k: int| 0 <= k < j ==> r1@[k] == s_con_entry(*model, *wp, 1, k),
            forall|k: int| 0 <= k < j ==> r2@[k] == s_con_entry(*model, *wp, 2, k),
            forall|k: int| 0 <= k < j ==> r3@[k] == s_con_entry(*model, *wp, 3, k),
            forall|k: int| 0 <= k < j ==> r4@[k] == s_con_entry(*model, *wp, 4, k),
            forall|k: int| 0 <= k < j ==> r5@[k] == s_con_entry(*model, *wp, 5, k),
        decreases n - j,
    {
        let gj = model.dc[j].grad(wp.r);
        let hj = model.dc[j].hess(wp.r);
        r0.push(gj.x);
        r1.push(gj.y);
        r2.push(gj.z);
        r3.push(w_ax.mul(hj.quad(u)));
        r4.push(w_rad.mul(hj.quad(ex)));
        r5.push(w_rad.mul(hj.quad(ey)));
        j = j + 1;
    }

    let grf = model.rf.grad(wp.r);
    let hrf = model.rf.hess(wp.r);
    let target_ax = mass_m.mul(wp.omega_axial).mul(wp.omega_axial).div(charge_q);
    let floor_x = fifth.mul(hrf.quad(ex));
    let floor_y = fifth.mul(hrf.quad(ey));

    let mut b: Vec<T> = Vec::new();
    b.push(grf.x.neg());
    b.push(grf.y.neg());
    b.push(grf.z.neg());
    b.push(w_ax.mul(target_ax.sub(hrf.quad(u))));
    b.push(w_rad.mul(floor_x.sub(hrf.quad(ex))));
    b.push(w_rad.mul(floor_y.sub(hrf.quad(ey))));

    let mut a: Vec<Vec<T>> = Vec::new();
    a.push(r0);
    a.push(r1);
    a.push(r2);
    a.push(r3);
    a.push(r4);
    a.push(r5);
    proof {
        assert forall|row: int| 0 <= row < 6 implies a@[row]@ =~= s_con_matrix(
            *model,
            *wp,
        )[row] by {
        }
        assert(crate::lsq::mrows(a@) =~= s_con_matrix(*model, *wp));
        assert(b@ =~= s_con_rhs_vec(*model, *wp, charge_q, mass_m));
    }
    (a, b)
}

} // verus!
