use ionwave::csv::csv_bytes;
use ionwave::sat64::Sat64;
use ionwave::scalar::Real;
#[derive(Clone, Copy, Debug, PartialEq)]
struct R(f64);

impl Real for R {
    fn sadd(self, _: Self) -> Self { unreachable!() }
    fn ssub(self, _: Self) -> Self { unreachable!() }
    fn smul(self, _: Self) -> Self { unreachable!() }
    fn sdiv(self, _: Self) -> Self { unreachable!() }
    fn sneg(self) -> Self { unreachable!() }
    fn sabs(self) -> Self { unreachable!() }
    fn ssqrt(self) -> Self { unreachable!() }
    fn sexp(self) -> Self { unreachable!() }
    fn satan(self) -> Self { unreachable!() }
    fn ssin(self) -> Self { unreachable!() }
    fn scos(self) -> Self { unreachable!() }
    fn slt(self, _: Self) -> bool { unreachable!() }
    fn sis_zero(self) -> bool { unreachable!() }
    fn sratio(_: i64, _: i64) -> Self { unreachable!() }
    fn sfmt_len(self) -> usize { unreachable!() }
    fn sfmt_byte(self, _: usize) -> u8 { unreachable!() }
    fn lt_irrefl(self) { unreachable!() }
    fn add(self, o: Self) -> Self { R(self.0 + o.0) }
    fn sub(self, o: Self) -> Self { R(self.0 - o.0) }
    fn mul(self, o: Self) -> Self { R(self.0 * o.0) }
    fn div(self, o: Self) -> Self { R(self.0 / o.0) }
    fn neg(self) -> Self { R(-self.0) }
    fn abs(self) -> Self { R(self.0.abs()) }
    fn sqrt(self) -> Self { R(self.0.sqrt()) }
    fn exp(self) -> Self { R(self.0.exp()) }
    fn atan(self) -> Self { R(self.0.atan()) }
    fn sin(self) -> Self { R(self.0.sin()) }
    fn cos(self) -> Self { R(self.0.cos()) }
    fn lt(self, o: Self) -> bool { self.0 < o.0 }
    fn is_zero(self) -> bool { self.0 == 0.0 }
    fn ratio(n: i64, d: i64) -> Self { R(n as f64 / d as f64) }
    fn to_text(self) -> Vec<u8> { format!("{}", self.0).into_bytes() }
}

#[test]
fn csv_has_header_rows_and_trailing_newlines() {
    let data = vec![vec![R(1.0), R(-2.5)], vec![R(0.25), R(3.0)]];
    let out = csv_bytes(&data);
    assert_eq!(String::from_utf8(out).unwrap(), "e0,e1\n1,-2.5\n0.25,3\n");
}

#[test]
fn csv_of_an_empty_table_is_empty() {
    let data: Vec<Vec<R>> = Vec::new();
    assert_eq!(csv_bytes(&data), Vec::<u8>::new());
}

#[test]
fn csv_renders_integer_scalars_in_decimal() {
    let data = vec![vec![Sat64 { v: 12 }, Sat64 { v: -7 }, Sat64 { v: 0 }]];
    let out = csv_bytes(&data);
    assert_eq!(String::from_utf8(out).unwrap(), "e0,e1,e2\n12,-7,0\n");
}
