//! A generic fixed-step initial-value-problem integrator: a state
//! abstraction that lets one stepping algorithm work uniformly over scalar
//! and fixed-length vector quantities, the classical 4th-order Runge-Kutta
//! stepper expressed against it, a driving loop that records a time-stamped
//! trajectory until a stopping time is reached or passed, and a parallel
//! batch driver that integrates many independent initial conditions.

pub mod state;
pub mod ode;
pub mod numerical_methods;
