use ode_rs::numerical_methods::RungeKutta4;
use ode_rs::ode::{solve, ODE, ODESolver};
use ode_rs::state::{Real, State};

#[derive(Clone, Copy, Debug, PartialEq)]
struct R64(f64);

impl Real for R64 {
    fn plus_spec(self, _: Self) -> Self {
        unreachable!()
    }
    fn over_spec(self, _: Self) -> Self {
        unreachable!()
    }
    fn lt_spec(self, _: Self) -> bool {
        unreachable!()
    }
    fn from_u64_spec(_: u64) -> Self {
        unreachable!()
    }
    fn text_spec(&self) -> String {
        unreachable!()
    }
    fn law_plus_does_not_decrease(self, _: Self) {}
    fn plus(self, other: Self) -> Self {
        R64(self.0 + other.0)
    }
    fn over(self, other: Self) -> Self {
        R64(self.0 / other.0)
    }
    fn is_lt(self, other: Self) -> bool {
        self.0 < other.0
    }
    fn from_u64(n: u64) -> Self {
        R64(n as f64)
    }
    fn to_text(&self) -> String {
        format!("{}", self.0)
    }
}

impl State<R64> for R64 {
    fn len_spec(&self) -> usize {
        unreachable!()
    }
    fn plus_spec(self, _: Self) -> Self {
        unreachable!()
    }
    fn minus_spec(self, _: Self) -> Self {
        unreachable!()
    }
    fn scale_spec(self, _: R64) -> Self {
        unreachable!()
    }
    fn zeros_spec() -> Self {
        unreachable!()
    }
    fn flat_spec(&self) -> String {
        unreachable!()
    }
    fn law_zeros_plus(_: Self) {}
    fn law_minus_self(_: Self) {}
    fn len(&self) -> usize {
        1
    }
    fn zeros() -> Self {
        R64(0.0)
    }
    fn plus(self, other: Self) -> Self {
        R64(self.0 + other.0)
    }
    fn minus(self, other: Self) -> Self {
        R64(self.0 - other.0)
    }
    fn scale(self, c: R64) -> Self {
        R64(self.0 * c.0)
    }
    fn flat(&self) -> String {
        format!("{}", self.0)
    }
}

struct ExponentialDecay {
    lambda: f64,
}

impl ODE<R64, R64> for ExponentialDecay {
    fn rhs_spec(&self, _: R64, _: R64) -> R64 {
        unreachable!()
    }
    fn rhs(&self, y: &R64, _t: R64, dydt: &mut R64) {
        dydt.0 = -self.lambda * y.0;
    }
}

#[test]
fn test_runge_kutta_4() {
    let lambda = 0.5;
    let y0 = 2.0;
    let t0 = 0.0;
    let t_final = 4.0;
    let dt = 0.01;

    let ode = ExponentialDecay { lambda };

    let solver = RungeKutta4::new(ode, R64(dt));

    let solution = solve(R64(y0), R64(t0), R64(t_final), solver);

    let test_times = [1.0, 2.0, 3.0, 4.0];

    for &t in &test_times {
        let idx = solution
            .t
            .iter()
            .position(|&time| (time.0 - t).abs() < dt / 2.0)
            .expect("Time point not found");

        let numerical = solution.y[idx].0;
        let analytical = y0 * (-lambda * t).exp();

        let relative_error = (numerical - analytical).abs() / analytical.abs();
        assert!(
            relative_error < 0.01,
            "Error too large at t={}: numerical={}, analytical={}, error={}",
            t,
            numerical,
            analytical,
            relative_error
        );
    }
}
