use vstd::prelude::*;
use crate::basis::TrapModel;
use crate::constraints::{build_constraints, s_con_matrix, s_con_rhs_vec};
use crate::lsq::{mrows, srect, stikhonov, tikhonov, LsqOptions};
use crate::scalar::Real;
use crate::types::{IonwaveError, Waypoint};

verus! {

/// The matrix with columns `i` and `j` exchanged in every row.
pub open spec fn sswap_cols<T>(a: Seq<Seq<T>>, i: int, j: int) -> Seq<Seq<T>> {
    Seq::new(a.len(), |r: int| a[r].update(i, a[r][j]).update(j, a[r][i]))
}

/// Swapping the same pair of columns twice restores the matrix.
pub proof fn lemma_swap_cols_involution<T>(a: Seq<Seq<T>>, i: int, j: int, cols: int)
    requires
        srect(a, cols),
        0 <= i < cols,
        0 <= j < cols,
    ensures
        sswap_cols(sswap_cols(a, i, j), i, j) == a,
{
    assert forall|r: int| 0 <= r < a.len() implies sswap_cols(sswap_cols(a, i, j), i, j)[r]
        =~= a[r] by {
        assert(a[r].len() == cols);
    }
    assert(sswap_cols(sswap_cols(a, i, j), i, j) =~= a);
}

/// Exchanges columns `i` and `j` of a rectangular matrix.
pub fn swap_columns<T: Real>(a: &mut Vec<Vec<T>>, i: usize, j: usize)
    requires
        forall|r: int|
            0 <= r < old(a)@.len() ==> i < (#[trigger] old(a)@[r])@.len() && j < old(
                a,
            )@[r]@.len(),
    ensures
        mrows(final(a)@) == sswap_cols(mrows(old(a)@), i as int, j as int),
{
    let mut r: usize = 0;
    while r < a.len()
        invariant
            r <= a@.len(),
            a@.len() == old(a)@.len(),
            forall|k: int|
                0 <= k < old(a)@.len() ==> i < (#[trigger] old(a)@[k])@.len() && j < old(
                    a,
                )@[k]@.len(),
            forall|k: int|
                0 <= k < r ==> (#[trigger] a@[k])@ == sswap_cols(mrows(old(a)@), i as int, j as int)[k],
            forall|k: int| r <= k < a@.len() ==> a@[k] == old(a)@[k],
        decreases a@.len() - r,
    {
        let row = &a[r];
        let ti = row[i];
        let tj = row[j];
        let mut nr: Vec<T> = Vec::new();
        let mut c: usize = 0;
        while c < a[r].len()
            invariant
                r < a@.len(),
                a@[r as int] == old(a)@[r as int],
                i < a@[r as int]@.len(),
                j < a@[r as int]@.len(),
                ti == a@[r as int]@[i as int],
                tj == a@[r as int]@[j as int],
                c <= a@[r as int]@.len(),
                nr@.len() == c,
                forall|k: int|
                    0 <= k < c ==> nr@[k] == a@[r as int]@.update(
                        i as int,
                        tj,
                    ).update(j as int, ti)[k],
            decreases a@[r as int]@.len() - c,
        {
            if c == i {
                nr.push(tj);
            } else if c == j {
                nr.push(ti);
            } else {
                nr.push(a[r][c]);
            }
            c = c + 1;
        }
        proof {
            assert(nr@ =~= a@[r as int]@.update(i as int, tj).update(j as int, ti));
        }
        a[r] = nr;
        r = r + 1;
    }
    proof {
        assert(mrows(a@) =~= sswap_cols(mrows(old(a)@), i as int, j as int));
    }
}

/// Exchanging a column with itself changes nothing.
pub proof fn lemma_swap_cols_same_index_is_noop<T>(a: Seq<Seq<T>>, i: int, cols: int)
    requires
        srect(a, cols),
        0 <= i < cols,
    ensures
        sswap_cols(a, i, i) == a,
{
    assert forall|r: int| 0 <= r < a.len() implies sswap_cols(a, i, i)[r] =~= a[r] by {
        assert(a[r].len() == cols);
    }
    assert(sswap_cols(a, i, i) =~= a);
}

/// With no recorded rail pair the pair defaults to `(0, 0)`, so the mirror
/// solve is exactly the plain solve.
pub proof fn lemma_mirror_without_rails_is_identity<T: Real>(
    model: TrapModel<T>,
    wp: Waypoint<T>,
    q_charge: T,
    mass: T,
    opts: LsqOptions<T>,
)
    requires
        model.c2lr_pair is None,
        model.dc@.len() > 0,
    ensures
        s_solve_waypoint(model, wp, q_charge, mass, true, opts) == s_solve_waypoint(
            model,
            wp,
            q_charge,
            mass,
            false,
            opts,
        ),
{
    let a = s_con_matrix(model, wp);
    let n = model.dc@.len() as int;
    assert forall|r: int| 0 <= r < a.len() implies (#[trigger] a[r]).len() == n by {}
    assert(srect(a, n));
    lemma_swap_cols_same_index_is_noop(a, 0, n);
}

/// The rail pair recorded by the model, `(0, 0)` when none is recorded.
pub open spec fn s_rail_pair<T>(model: TrapModel<T>) -> (int, int) {
    match model.c2lr_pair {
        Some(p) => (p.0 as int, p.1 as int),
        None => (0, 0),
    }
}

/// The voltages for one waypoint: the constraint system, with the rail
/// columns exchanged when `left` is set, handed to the regularized solver.
pub open spec fn s_solve_waypoint<T: Real>(
    model: TrapModel<T>,
    wp: Waypoint<T>,
    q_charge: T,
    mass: T,
    left: bool,
    opts: LsqOptions<T>,
) -> Seq<T> {
    let a = s_con_matrix(model, wp);
    let a2 = if left {
        sswap_cols(a, s_rail_pair(model).0, s_rail_pair(model).1)
    } else {
        a
    };
    stikhonov(a2, s_con_rhs_vec(model, wp, q_charge, mass), model.dc@.len() as int, opts)
}

/// Solves one waypoint. With `left` set the recorded rail columns are
/// exchanged before the solve, which yields the mirror-image waveform.
pub fn solve_waypoint<T: Real>(
    model: &TrapModel<T>,
    wp: &Waypoint<T>,
    q_charge: T,
    mass: T,
    left: bool,
    opts: &LsqOptions<T>,
) -> (x: Vec<T>)
    requires
        model.swf(),
        model.dc@.len() > 0,
    ensures
        x@.len() == model.dc@.len(),
        x@ == s_solve_waypoint(*model, *wp, q_charge, mass, left, *opts),
{
    let (mut a, b) = build_constraints(model, wp, q_charge, mass);
    let ghost n = model.dc@.len() as int;
    proof {
        assert forall|i: int| 0 <= i < mrows(a@).len() implies (#[trigger] mrows(a@)[i]).len()
            == n by {
            assert(a@[i]@.len() == n);
        }
        assert(srect(mrows(a@), n));
    }
    if left {
        let ghost before = mrows(a@);
        let (pi, pj) = match model.c2lr_pair {
            Some(p) => p,
            None => (0usize, 0usize),
        };
        proof {
            assert(pi < model.dc@.len() && pj < model.dc@.len());
            assert forall|r: int| 0 <= r < a@.len() implies pi < (#[trigger] a@[r])@.len() && pj
                < a@[r]@.len() by {
                assert(mrows(a@)[r].len() == n);
            }
        }
        swap_columns(&mut a, pi, pj);
        proof {
            assert forall|i: int| 0 <= i < mrows(a@).len() implies (#[trigger] mrows(
                a@,
            )[i]).len() == n by {
                assert(mrows(a@)[i] == before[i].update(pi as int, before[i][pj as int]).update(
                    pj as int,
                    before[i][pi as int],
                ));
                assert(before[i].len() == n);
            }
            assert(srect(mrows(a@), n));
        }
    }
    proof {
        assert(a@.len() == 6);
        assert(mrows(a@)[0].len() == n);
        assert(a@[0]@.len() == n);
    }
    let x = tikhonov(&a, &b, opts);
    x
}

/// Solves every waypoint in order and collects the voltages, one row per
/// waypoint and one column per electrode. Fails with `InvalidInput`
/// exactly when the model has no electrodes.
pub fn solve_waveform<T: Real>(
    model: &TrapModel<T>,
    waypoints: &Vec<Waypoint<T>>,
    q_charge: T,
    mass: T,
    left: bool,
    opts: &LsqOptions<T>,
) -> (res: Result<Vec<Vec<T>>, IonwaveError>)
    requires
        model.swf(),
    ensures
        match res {
            Ok(sols) => {
                &&& model.dc@.len() > 0
                &&& sols@.len() == waypoints@.len()
                &&& forall|k: int|
                    0 <= k < waypoints@.len() ==> (#[trigger] sols@[k])@.len()
                        == model.dc@.len()
                &&& forall|k: int|
                    0 <= k < waypoints@.len() ==> (#[trigger] sols@[k])@ == s_solve_waypoint(
                        *model,
                        waypoints@[k],
                        q_charge,
                        mass,
                        left,
                        *opts,
                    )
            },
            Err(e) => model.dc@.len() == 0 && e is InvalidInput,
        },
{
    let n_el = model.n_electrodes();
    if n_el == 0 {
        return Err(IonwaveError::InvalidInput("no electrodes".to_string()));
    }
    let mut sols: Vec<Vec<T>> = Vec::new();
    let mut k: usize = 0;
    while k < waypoints.len()
        invariant
            k <= waypoints@.len(),
            model.swf(),
            model.dc@.len() > 0,
            sols@.len() == k,
            forall|t: int| 0 <= t < k ==> (#[trigger] sols@[t])@.len() == model.dc@.len(),
            forall|t: int|
                0 <= t < k ==> (#[trigger] sols@[t])@ == s_solve_waypoint(
                    *model,
                    waypoints@[t],
                    q_charge,
                    mass,
                    left,
                    *opts,
                ),
        decreases waypoints@.len() - k,
    {
        let x = solve_waypoint(model, &waypoints[k], q_charge, mass, left, opts);
        sols.push(x);
        k = k + 1;
    }
    Ok(sols)
}

} // verus!
