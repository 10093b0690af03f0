use ionwave::basis::{Basis, GaussianBasis, RfPseudo, TrapModel};
use ionwave::c2lr::solve_waveform;
use ionwave::lsq::LsqOptions;
use ionwave::scalar::Real;
use ionwave::types::{Hess, Vec3, Waypoint};
#[derive(Clone, Copy, Debug, PartialEq)]
struct R(f64);

impl Real for R {
    fn sadd(self, _: Self) -> Self { unreachable!() }
    fn ssub(self, _: Self) -> Self { unreachable!() }
    fn smul(self, _: Self) -> Self { unreachable!() }
    fn sdiv(self, _: Self) -> Self { unreachable!() }
    fn sneg(self) -> Self { unreachable!() }
    fn sabs(self) -> Self { unreachable!() }
    fn ssqrt(self) -> Self { unreachable!() }
    fn sexp(self) -> Self { unreachable!() }
    fn satan(self) -> Self { unreachable!() }
    fn ssin(self) -> Self { unreachable!() }
    fn scos(self) -> Self { unreachable!() }
    fn slt(self, _: Self) -> bool { unreachable!() }
    fn sis_zero(self) -> bool { unreachable!() }
    fn sratio(_: i64, _: i64) -> Self { unreachable!() }
    fn sfmt_len(self) -> usize { unreachable!() }
    fn sfmt_byte(self, _: usize) -> u8 { unreachable!() }
    fn lt_irrefl(self) { unreachable!() }
    fn add(self, o: Self) -> Self { R(self.0 + o.0) }
    fn sub(self, o: Self) -> Self { R(self.0 - o.0) }
    fn mul(self, o: Self) -> Self { R(self.0 * o.0) }
    fn div(self, o: Self) -> Self { R(self.0 / o.0) }
    fn neg(self) -> Self { R(-self.0) }
    fn abs(self) -> Self { R(self.0.abs()) }
    fn sqrt(self) -> Self { R(self.0.sqrt()) }
    fn exp(self) -> Self { R(self.0.exp()) }
    fn atan(self) -> Self { R(self.0.atan()) }
    fn sin(self) -> Self { R(self.0.sin()) }
    fn cos(self) -> Self { R(self.0.cos()) }
    fn lt(self, o: Self) -> bool { self.0 < o.0 }
    fn is_zero(self) -> bool { self.0 == 0.0 }
    fn ratio(n: i64, d: i64) -> Self { R(n as f64 / d as f64) }
    fn to_text(self) -> Vec<u8> { format!("{}", self.0).into_bytes() }
}

fn build_model(omega_axial: f64) -> TrapModel<R> {
    // physical constants
    let q = 1.602e-19;
    let m = 2.84e-25;

    // rf curvature from target
    let target_curv = m * omega_axial * omega_axial / q;
    let rf = RfPseudo { kr: R(1.0e10), kz: R(target_curv) };

    // gentle dc basis set
    let mut dc: Vec<Basis<R>> = Vec::new();
    let sigma = 40e-6;
    let dc_scale = 0.002;
    let z_positions: Vec<f64> = (-4..=4).map(|k| k as f64 * 63e-6).collect();
    for (idx, zc) in z_positions.iter().enumerate() {
        let left = GaussianBasis {
            center: Vec3 { x: R(-50e-6), y: R(0.0), z: R(*zc) },
            sigma: R(sigma),
            scale: R(dc_scale),
        };
        let right = GaussianBasis {
            center: Vec3 { x: R(50e-6), y: R(0.0), z: R(*zc) },
            sigma: R(sigma),
            scale: R(dc_scale),
        };
        dc.push(Basis::Gaussian(left));
        dc.push(Basis::Gaussian(right));
        if idx % 2 == 0 {
            let center = GaussianBasis {
                center: Vec3 { x: R(0.0), y: R(0.0), z: R(*zc + 0.5 * 63e-6) },
                sigma: R(sigma),
                scale: R(0.8 * dc_scale),
            };
            dc.push(Basis::Gaussian(center));
        }
    }

    TrapModel::new(Basis::Rf(rf), dc, Some((0, 1)))
}

fn make_waypoints(n_wp: usize, omega_axial: f64) -> Vec<Waypoint<R>> {
    let z0 = 0.0;
    let dz = 63e-6;
    let axial_dir = Vec3 { x: R(0.0), y: R(0.0), z: R(1.0) };
    (0..n_wp)
        .map(|i| {
            let t = i as f64 / (n_wp as f64 - 1.0);
            let z = z0 + t * dz;
            Waypoint { r: Vec3 { x: R(0.0), y: R(0.0), z: R(z) }, omega_axial: R(omega_axial), axial_dir }
        })
        .collect()
}

fn freq_along_axis(h: Hess<R>, u: Vec3<R>, q: f64, m: f64) -> f64 {
    let curv = h.quad(u).0;
    (q * curv / m).max(0.0).sqrt()
}

#[test]
fn c2lr_swap_holds() {
    let omega_axial = 2.0 * std::f64::consts::PI * 1.5e6;
    let model = build_model(omega_axial);
    let wps = make_waypoints(9, omega_axial);

    let q = 1.602e-19;
    let m = 2.84e-25;

    let opts = LsqOptions { lambda: R(1e-2), voltage_limit: Some(R(5.0)), ..Default::default() };
    let vr = solve_waveform(&model, &wps, R(q), R(m), false, &opts).expect("right");
    let vl = solve_waveform(&model, &wps, R(q), R(m), true, &opts).expect("left");

    // first two electrodes are the rails so they should swap across all waypoints
    for i in 0..wps.len() {
        assert!((vr[i][0].0 - vl[i][1].0).abs() < 1e-8);
        assert!((vr[i][1].0 - vl[i][0].0).abs() < 1e-8);
    }
}

#[test]
fn axial_frequency_near_target() {
    let omega_axial = 2.0 * std::f64::consts::PI * 1.5e6;
    let model = build_model(omega_axial);
    let wps = make_waypoints(9, omega_axial);
    let q = 1.602e-19;
    let m = 2.84e-25;
    let opts = LsqOptions { lambda: R(1e-2), voltage_limit: Some(R(5.0)), ..Default::default() };
    let vr = solve_waveform(&model, &wps, R(q), R(m), false, &opts).expect("solve");

    let u = Vec3 { x: R(0.0), y: R(0.0), z: R(1.0) };
    let mut max_dev_hz = 0.0;
    for (i, wp) in wps.iter().enumerate() {
        let h = model.hess_total(wp.r, &vr[i]).expect("lengths match");
        let w = freq_along_axis(h, u, q, m);
        let f_hz = w / (2.0 * std::f64::consts::PI);
        let dev = (f_hz - omega_axial / (2.0 * std::f64::consts::PI)).abs();
        if dev > max_dev_hz {
            max_dev_hz = dev;
        }
    }
    // allow a loose bound for the synthetic geometry then tighten once you tune weights
    assert!(max_dev_hz < 50e3, "max deviation was {} Hz", max_dev_hz);
}

#[test]
fn constraint_shape_is_six_by_n() {
    let omega_axial = 2.0 * std::f64::consts::PI * 1.5e6;
    let model = build_model(omega_axial);
    let wps = make_waypoints(1, omega_axial);
    let q = 1.602e-19;
    let m = 2.84e-25;
    let (a, b) = ionwave::constraints::build_constraints(&model, &wps[0], R(q), R(m));
    assert_eq!(a.len(), 6);
    for row in &a {
        assert_eq!(row.len(), model.n_electrodes());
    }
    assert_eq!(b.len(), 6);
}
