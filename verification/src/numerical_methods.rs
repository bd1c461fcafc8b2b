use vstd::prelude::*;

use crate::ode::{ODE, ODESolver};
use crate::state::{Real, State};

verus! {

/// The classical explicit 4th-order Runge-Kutta update for state `y` at
/// time `t` with fixed step `dt`: four derivative evaluations, each stage's
/// perturbed state computed from the original `y` (never chained off a
/// previous stage's temporary), combined with weights 1, 2, 2, 1 and the
/// factor `dt/6`. The halving and weighting coefficients are formed at the
/// working precision of the scalar type.
pub open spec fn rk4_next_spec<T: Real, V: State<T>, O: ODE<T, V>>(ode: O, y: V, t: T, dt: T) -> V {
    let half = T::from_u64_spec(1).over_spec(T::from_u64_spec(2));
    let sixth = T::from_u64_spec(1).over_spec(T::from_u64_spec(6));
    let two = T::from_u64_spec(2);
    let t_half = t.plus_spec(dt.over_spec(T::from_u64_spec(2)));
    let t_full = t.plus_spec(dt);
    let k1 = ode.rhs_spec(y, t);
    let k2 = ode.rhs_spec(y.plus_spec(k1.scale_spec(dt).scale_spec(half)), t_half);
    let k3 = ode.rhs_spec(y.plus_spec(k2.scale_spec(dt).scale_spec(half)), t_half);
    let k4 = ode.rhs_spec(y.plus_spec(k3.scale_spec(dt)), t_full);
    y.plus_spec(
        k1.plus_spec(k2.scale_spec(two)).plus_spec(k3.scale_spec(two)).plus_spec(k4).scale_spec(
            dt,
        ).scale_spec(sixth),
    )
}

/// The classical 4th-order Runge-Kutta stepper. It owns one scratch buffer
/// per stage, one temporary state buffer, the fixed step size and the
/// system; the buffers are reused on every call so that a step allocates
/// nothing.
pub struct RungeKutta4<T: Real, V: State<T>, O: ODE<T, V>> {
    pub k1: V,
    pub k2: V,
    pub k3: V,
    pub k4: V,
    pub y_temp: V,
    pub dt: T,
    pub ode: O,
}

impl<T: Real, V: State<T>, O: ODE<T, V>> ODESolver<T, V, O> for RungeKutta4<T, V, O> {
    open spec fn dt_spec(&self) -> T {
        self.dt
    }

    open spec fn ode_spec(&self) -> O {
        self.ode
    }

    open spec fn next_spec(&self, y: V, t: T) -> V {
        rk4_next_spec(self.ode, y, t, self.dt)
    }

    open spec fn wf(&self) -> bool {
        &&& self.k1.len_spec() == V::zeros_spec().len_spec()
        &&& self.k2.len_spec() == V::zeros_spec().len_spec()
        &&& self.k3.len_spec() == V::zeros_spec().len_spec()
        &&& self.k4.len_spec() == V::zeros_spec().len_spec()
        &&& self.y_temp.len_spec() == V::zeros_spec().len_spec()
    }

    open spec fn fresh(&self) -> bool {
        &&& self.k1 == V::zeros_spec()
        &&& self.k2 == V::zeros_spec()
        &&& self.k3 == V::zeros_spec()
        &&& self.k4 == V::zeros_spec()
        &&& self.y_temp == V::zeros_spec()
    }

    fn new(ode: O, dt: T) -> (r: Self) {
        RungeKutta4 {
            k1: V::zeros(),
            k2: V::zeros(),
            k3: V::zeros(),
            k4: V::zeros(),
            y_temp: V::zeros(),
            dt,
            ode,
        }
    }

    fn step(&mut self, y: &mut V, t: &mut T) {
        let yc: V = *y;
        let tc: T = *t;
        let dt: T = self.dt;
        let two: T = T::from_u64(2);
        let half: T = T::from_u64(1).over(T::from_u64(2));
        let sixth: T = T::from_u64(1).over(T::from_u64(6));
        let t_half: T = tc.plus(dt.over(T::from_u64(2)));
        let t_full: T = tc.plus(dt);

        self.ode.rhs(&yc, tc, &mut self.k1);

        self.y_temp = yc.plus(self.k1.scale(dt).scale(half));
        self.ode.rhs(&self.y_temp, t_half, &mut self.k2);

        self.y_temp = yc.plus(self.k2.scale(dt).scale(half));
        self.ode.rhs(&self.y_temp, t_half, &mut self.k3);

        self.y_temp = yc.plus(self.k3.scale(dt));
        self.ode.rhs(&self.y_temp, t_full, &mut self.k4);

        *y = yc.plus(
            self.k1.plus(self.k2.scale(two)).plus(self.k3.scale(two)).plus(self.k4).scale(
                dt,
            ).scale(sixth),
        );
        *t = tc.plus(dt);
    }

    fn clone_fresh(&self) -> (r: Self) where O: Copy {
        RungeKutta4 {
            k1: V::zeros(),
            k2: V::zeros(),
            k3: V::zeros(),
            k4: V::zeros(),
            y_temp: V::zeros(),
            dt: self.dt,
            ode: self.ode,
        }
    }
}

} // verus!
