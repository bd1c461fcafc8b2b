use ode_rs::numerical_methods::RungeKutta4;
use ode_rs::ode::{solve, ODE, ODESolver};
use ode_rs::state::{Real, State};

#[derive(Clone, Copy, Debug, PartialEq)]
struct R64(f64);

impl Real for R64 {
    fn plus_spec(self, _: Self) -> Self {
        unreachable!()
    }
    fn over_spec(self, _: Self) -> Self {
        unreachable!()
    }
    fn lt_spec(self, _: Self) -> bool {
        unreachable!()
    }
    fn from_u64_spec(_: u64) -> Self {
        unreachable!()
    }
    fn text_spec(&self) -> String {
        unreachable!()
    }
    fn law_plus_does_not_decrease(self, _: Self) {}
    fn plus(self, other: Self) -> Self {
        R64(self.0 + other.0)
    }
    fn over(self, other: Self) -> Self {
        R64(self.0 / other.0)
    }
    fn is_lt(self, other: Self) -> bool {
        self.0 < other.0
    }
    fn from_u64(n: u64) -> Self {
        R64(n as f64)
    }
    fn to_text(&self) -> String {
        format!("{}", self.0)
    }
}

#[derive(Clone, Copy, Debug, PartialEq)]
struct V2([f64; 2]);

impl State<R64> for V2 {
    fn len_spec(&self) -> usize {
        unreachable!()
    }
    fn plus_spec(self, _: Self) -> Self {
        unreachable!()
    }
    fn minus_spec(self, _: Self) -> Self {
        unreachable!()
    }
    fn scale_spec(self, _: R64) -> Self {
        unreachable!()
    }
    fn zeros_spec() -> Self {
        unreachable!()
    }
    fn flat_spec(&self) -> String {
        unreachable!()
    }
    fn law_zeros_plus(_: Self) {}
    fn law_minus_self(_: Self) {}
    fn len(&self) -> usize {
        2
    }
    fn zeros() -> Self {
        V2([0.0, 0.0])
    }
    fn plus(self, other: Self) -> Self {
        V2([self.0[0] + other.0[0], self.0[1] + other.0[1]])
    }
    fn minus(self, other: Self) -> Self {
        V2([self.0[0] - other.0[0], self.0[1] - other.0[1]])
    }
    fn scale(self, c: R64) -> Self {
        V2([self.0[0] * c.0, self.0[1] * c.0])
    }
    fn flat(&self) -> String {
        format!("{}, {}", self.0[0], self.0[1])
    }
}

struct SimpleHarmonicOscillator;

impl ODE<R64, V2> for SimpleHarmonicOscillator {
    fn rhs_spec(&self, _: V2, _: R64) -> V2 {
        unreachable!()
    }
    fn rhs(&self, y: &V2, _t: R64, dydt: &mut V2) {
        dydt.0[0] = y.0[1];
        dydt.0[1] = -y.0[0];
    }
}

fn norm(v: [f64; 2]) -> f64 {
    (v[0] * v[0] + v[1] * v[1]).sqrt()
}

#[test]
fn test_runge_kutta_4_vector() {
    let ode = SimpleHarmonicOscillator;
    let dt = 0.01;
    let t0 = 0.0;
    let t_final = 4.0;

    let y0 = V2([1.0, 0.0]);

    let solver = RungeKutta4::new(ode, R64(dt));
    let solution = solve(y0, R64(t0), R64(t_final), solver);

    let test_times = [1.0, 2.0, 3.0, 4.0];

    for &t in &test_times {
        let idx = solution
            .t
            .iter()
            .position(|&time| (time.0 - t).abs() < dt / 2.0)
            .expect("Time point not found");

        let numerical = solution.y[idx];
        let analytical = V2([t.cos(), -t.sin()]);

        let error = norm(numerical.minus(analytical).0) / norm(analytical.0);
        assert!(
            error < 0.01,
            "Error too large at t={}: numerical={:?}, analytical={:?}, error={}",
            t,
            numerical,
            analytical,
            error
        );
    }
}
