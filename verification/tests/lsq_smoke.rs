use ionwave::lsq::{clamp_symmetric, tikhonov, LsqOptions};
use ionwave::scalar::Real;
#[derive(Clone, Copy, Debug, PartialEq)]
struct R(f64);

impl Real for R {
    fn sadd(self, _: Self) -> Self { unreachable!() }
    fn ssub(self, _: Self) -> Self { unreachable!() }
    fn smul(self, _: Self) -> Self { unreachable!() }
    fn sdiv(self, _: Self) -> Self { unreachable!() }
    fn sneg(self) -> Self { unreachable!() }
    fn sabs(self) -> Self { unreachable!() }
    fn ssqrt(self) -> Self { unreachable!() }
    fn sexp(self) -> Self { unreachable!() }
    fn satan(self) -> Self { unreachable!() }
    fn ssin(self) -> Self { unreachable!() }
    fn scos(self) -> Self { unreachable!() }
    fn slt(self, _: Self) -> bool { unreachable!() }
    fn sis_zero(self) -> bool { unreachable!() }
    fn sratio(_: i64, _: i64) -> Self { unreachable!() }
    fn sfmt_len(self) -> usize { unreachable!() }
    fn sfmt_byte(self, _: usize) -> u8 { unreachable!() }
    fn lt_irrefl(self) { unreachable!() }
    fn add(self, o: Self) -> Self { R(self.0 + o.0) }
    fn sub(self, o: Self) -> Self { R(self.0 - o.0) }
    fn mul(self, o: Self) -> Self { R(self.0 * o.0) }
    fn div(self, o: Self) -> Self { R(self.0 / o.0) }
    fn neg(self) -> Self { R(-self.0) }
    fn abs(self) -> Self { R(self.0.abs()) }
    fn sqrt(self) -> Self { R(self.0.sqrt()) }
    fn exp(self) -> Self { R(self.0.exp()) }
    fn atan(self) -> Self { R(self.0.atan()) }
    fn sin(self) -> Self { R(self.0.sin()) }
    fn cos(self) -> Self { R(self.0.cos()) }
    fn lt(self, o: Self) -> bool { self.0 < o.0 }
    fn is_zero(self) -> bool { self.0 == 0.0 }
    fn ratio(n: i64, d: i64) -> Self { R(n as f64 / d as f64) }
    fn to_text(self) -> Vec<u8> { format!("{}", self.0).into_bytes() }
}

fn rrow(vals: &[f64]) -> Vec<R> {
    vals.iter().map(|&t| R(t)).collect()
}

#[test]
fn lsqr_fits_small_system() {
    let a = vec![
        rrow(&[1.0, 0.0]),
        rrow(&[1.0, 1.0]),
        rrow(&[1.0, 2.0]),
        rrow(&[1.0, 3.0]),
    ];
    let b = rrow(&[1.0, 2.0, 2.9, 4.1]); // y ~ 0.97 + 1.02 x
    let opts = LsqOptions { lambda: R(1e-3), voltage_limit: None, iters: 200, tol: R(1e-10) };
    let v = tikhonov(&a, &b, &opts);
    assert!((v[0].0 - 0.97).abs() < 0.05);
    assert!((v[1].0 - 1.02).abs() < 0.05);
}

#[test]
fn lsqr_terminates_early_on_a_consistent_system() {
    // identity system, exact solution reached well inside the bound
    let a = vec![rrow(&[1.0, 0.0]), rrow(&[0.0, 1.0])];
    let b = rrow(&[3.0, -4.0]);
    let opts = LsqOptions { lambda: R(0.0), voltage_limit: None, iters: 200, tol: R(1e-10) };
    let v = tikhonov(&a, &b, &opts);
    assert!((v[0].0 - 3.0).abs() < 1e-8);
    assert!((v[1].0 + 4.0).abs() < 1e-8);
    assert!(v.iter().all(|t| t.0.is_finite()));
}

#[test]
fn lsqr_stays_finite_on_rank_deficient_input() {
    // two identical columns, inconsistent rows, positive lambda
    let a = vec![rrow(&[1.0, 1.0]), rrow(&[1.0, 1.0]), rrow(&[1.0, 1.0])];
    let b = rrow(&[1.0, 2.0, 4.0]);
    let opts = LsqOptions { lambda: R(1e-2), voltage_limit: None, iters: 400, tol: R(1e-12) };
    let v = tikhonov(&a, &b, &opts);
    assert_eq!(v.len(), 2);
    assert!(v.iter().all(|t| t.0.is_finite()));
}

#[test]
fn voltage_limit_clamps_the_solution() {
    let a = vec![rrow(&[1.0])];
    let b = rrow(&[10.0]);
    let opts = LsqOptions { lambda: R(0.0), voltage_limit: Some(R(2.0)), iters: 50, tol: R(1e-12) };
    let v = tikhonov(&a, &b, &opts);
    assert_eq!(v[0].0, 2.0);
}

#[test]
fn clamp_is_idempotent() {
    let mut v = rrow(&[-7.5, -2.0, 0.0, 1.5, 9.0]);
    clamp_symmetric(&mut v, R(2.0));
    let once: Vec<f64> = v.iter().map(|t| t.0).collect();
    clamp_symmetric(&mut v, R(2.0));
    let twice: Vec<f64> = v.iter().map(|t| t.0).collect();
    assert_eq!(once, vec![-2.0, -2.0, 0.0, 1.5, 2.0]);
    assert_eq!(once, twice);
}
