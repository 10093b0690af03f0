use ionwave::basis::{GaussianBasis, PotentialBasis};
use ionwave::scalar::Real;
use ionwave::types::{Hess, Vec3};
#[derive(Clone, Copy, Debug, PartialEq)]
struct R(f64);

impl Real for R {
    fn sadd(self, _: Self) -> Self { unreachable!() }
    fn ssub(self, _: Self) -> Self { unreachable!() }
    fn smul(self, _: Self) -> Self { unreachable!() }
    fn sdiv(self, _: Self) -> Self { unreachable!() }
    fn sneg(self) -> Self { unreachable!() }
    fn sabs(self) -> Self { unreachable!() }
    fn ssqrt(self) -> Self { unreachable!() }
    fn sexp(self) -> Self { unreachable!() }
    fn satan(self) -> Self { unreachable!() }
    fn ssin(self) -> Self { unreachable!() }
    fn scos(self) -> Self { unreachable!() }
    fn slt(self, _: Self) -> bool { unreachable!() }
    fn sis_zero(self) -> bool { unreachable!() }
    fn sratio(_: i64, _: i64) -> Self { unreachable!() }
    fn sfmt_len(self) -> usize { unreachable!() }
    fn sfmt_byte(self, _: usize) -> u8 { unreachable!() }
    fn lt_irrefl(self) { unreachable!() }
    fn add(self, o: Self) -> Self { R(self.0 + o.0) }
    fn sub(self, o: Self) -> Self { R(self.0 - o.0) }
    fn mul(self, o: Self) -> Self { R(self.0 * o.0) }
    fn div(self, o: Self) -> Self { R(self.0 / o.0) }
    fn neg(self) -> Self { R(-self.0) }
    fn abs(self) -> Self { R(self.0.abs()) }
    fn sqrt(self) -> Self { R(self.0.sqrt()) }
    fn exp(self) -> Self { R(self.0.exp()) }
    fn atan(self) -> Self { R(self.0.atan()) }
    fn sin(self) -> Self { R(self.0.sin()) }
    fn cos(self) -> Self { R(self.0.cos()) }
    fn lt(self, o: Self) -> bool { self.0 < o.0 }
    fn is_zero(self) -> bool { self.0 == 0.0 }
    fn ratio(n: i64, d: i64) -> Self { R(n as f64 / d as f64) }
    fn to_text(self) -> Vec<u8> { format!("{}", self.0).into_bytes() }
}

fn approx_eq(a: f64, b: f64, rtol: f64, atol: f64) -> bool {
    (a - b).abs() <= atol + rtol * b.abs().max(a.abs())
}

fn ph(basis: &GaussianBasis<R>, x: f64, y: f64, z: f64) -> f64 {
    basis.phi(Vec3 { x: R(x), y: R(y), z: R(z) }).0
}

fn num_grad(basis: &GaussianBasis<R>, x: f64, y: f64, z: f64, h: f64) -> (f64, f64, f64) {
    // central differences on phi
    let gx = (ph(basis, x + h, y, z) - ph(basis, x - h, y, z)) / (2.0 * h);
    let gy = (ph(basis, x, y + h, z) - ph(basis, x, y - h, z)) / (2.0 * h);
    let gz = (ph(basis, x, y, z + h) - ph(basis, x, y, z - h)) / (2.0 * h);
    (gx, gy, gz)
}

fn num_hess(basis: &GaussianBasis<R>, x: f64, y: f64, z: f64, h: f64) -> Hess<f64> {
    // second partials by central differences
    let f = ph(basis, x, y, z);
    let d2x = (ph(basis, x + h, y, z) - 2.0 * f + ph(basis, x - h, y, z)) / (h * h);
    let d2y = (ph(basis, x, y + h, z) - 2.0 * f + ph(basis, x, y - h, z)) / (h * h);
    let d2z = (ph(basis, x, y, z + h) - 2.0 * f + ph(basis, x, y, z - h)) / (h * h);

    // mixed partials by 4 point stencil
    let dxy = (ph(basis, x + h, y + h, z) - ph(basis, x + h, y - h, z) - ph(basis, x - h, y + h, z)
        + ph(basis, x - h, y - h, z)) / (4.0 * h * h);
    let dxz = (ph(basis, x + h, y, z + h) - ph(basis, x + h, y, z - h) - ph(basis, x - h, y, z + h)
        + ph(basis, x - h, y, z - h)) / (4.0 * h * h);
    let dyz = (ph(basis, x, y + h, z + h) - ph(basis, x, y + h, z - h) - ph(basis, x, y - h, z + h)
        + ph(basis, x, y - h, z - h)) / (4.0 * h * h);

    Hess { xx: d2x, yy: d2y, zz: d2z, xy: dxy, xz: dxz, yz: dyz }
}

#[test]
fn gaussian_grad_and_hess_match_finite_differences() {
    // a representative Gaussian basis from the demo geometry
    let basis = GaussianBasis {
        center: Vec3 { x: R(-50e-6), y: R(0.0), z: R(0.0) },
        sigma: R(40e-6),
        scale: R(2e-3), // small scale keeps numbers well conditioned
    };
    // pick a point not exactly at the center
    let (x, y, z) = (-40e-6, 10e-6, 12e-6);

    // step size tuned to sigma scale
    let h = 1e-7; // 0.1 micron

    let g_analytic = basis.grad(Vec3 { x: R(x), y: R(y), z: R(z) });
    let (nx, ny, nz) = num_grad(&basis, x, y, z, h);

    // tolerances
    let rtol_g = 3e-3;
    let atol_g = 1e-9;

    assert!(approx_eq(g_analytic.x.0, nx, rtol_g, atol_g), "grad x mismatch: analytic {} numeric {}", g_analytic.x.0, nx);
    assert!(approx_eq(g_analytic.y.0, ny, rtol_g, atol_g), "grad y mismatch: analytic {} numeric {}", g_analytic.y.0, ny);
    assert!(approx_eq(g_analytic.z.0, nz, rtol_g, atol_g), "grad z mismatch: analytic {} numeric {}", g_analytic.z.0, nz);

    let h_analytic = basis.hess(Vec3 { x: R(x), y: R(y), z: R(z) });
    let h_numeric = num_hess(&basis, x, y, z, h);

    let rtol_h = 1e-2;
    let atol_h = 1e-7;

    assert!(approx_eq(h_analytic.xx.0, h_numeric.xx, rtol_h, atol_h), "hess xx mismatch: analytic {} numeric {}", h_analytic.xx.0, h_numeric.xx);
    assert!(approx_eq(h_analytic.yy.0, h_numeric.yy, rtol_h, atol_h), "hess yy mismatch: analytic {} numeric {}", h_analytic.yy.0, h_numeric.yy);
    assert!(approx_eq(h_analytic.zz.0, h_numeric.zz, rtol_h, atol_h), "hess zz mismatch: analytic {} numeric {}", h_analytic.zz.0, h_numeric.zz);
    assert!(approx_eq(h_analytic.xy.0, h_numeric.xy, rtol_h, atol_h), "hess xy mismatch: analytic {} numeric {}", h_analytic.xy.0, h_numeric.xy);
    assert!(approx_eq(h_analytic.xz.0, h_numeric.xz, rtol_h, atol_h), "hess xz mismatch: analytic {} numeric {}", h_analytic.xz.0, h_numeric.xz);
    assert!(approx_eq(h_analytic.yz.0, h_numeric.yz, rtol_h, atol_h), "hess yz mismatch: analytic {} numeric {}", h_analytic.yz.0, h_numeric.yz);
}
