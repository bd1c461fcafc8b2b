use vstd::prelude::*;

use crate::state::{Real, State};
use rayon::iter::{IntoParallelIterator, ParallelIterator};

verus! {

/// The capability an integrable system must expose: evaluate the derivative
/// of the state at a given time. Evaluation is a pure function of the
/// receiver, the state and the time — `rhs_spec` names that value, and the
/// executable `rhs` writes exactly it into the caller-provided output slot,
/// overwriting every element.
pub trait ODE<T: Real, V: State<T>>: Sized {
    /// The instantaneous derivative of state `y` at time `t`.
    spec fn rhs_spec(&self, y: V, t: T) -> V;

    fn rhs(&self, y: &V, t: T, dydt: &mut V)
        requires
            old(dydt).len_spec() == y.len_spec(),
        ensures
            *final(dydt) == self.rhs_spec(*y, t),
            final(dydt).len_spec() == y.len_spec(),
    ;
}

/// A fixed-step stepping algorithm bound to one system. A solver is a
/// deterministic map from one `(state, time)` pair to the next: `next_spec`
/// names that map, and `step` applies it, advancing the time by exactly the
/// fixed step size. Stepping mutates only the solver's own scratch state and
/// never changes the map it computes.
pub trait ODESolver<T: Real, V: State<T>, O: ODE<T, V>>: Sized {
    /// The fixed step size the solver was constructed with.
    spec fn dt_spec(&self) -> T;

    /// The system the solver is bound to.
    spec fn ode_spec(&self) -> O;

    /// The state one step produces from state `y` at time `t`.
    spec fn next_spec(&self, y: V, t: T) -> V;

    /// The solver's scratch state is dimensionally consistent and ready.
    spec fn wf(&self) -> bool;

    /// The solver's scratch state is freshly zeroed, as construction and
    /// duplication leave it; stepping works in the scratch buffers and need
    /// not keep this.
    spec fn fresh(&self) -> bool;

    fn new(ode: O, dt: T) -> (r: Self)
        ensures
            r.wf(),
            r.fresh(),
            r.dt_spec() == dt,
            r.ode_spec() == ode,
    ;

    fn step(&mut self, y: &mut V, t: &mut T)
        requires
            old(self).wf(),
            old(y).len_spec() == V::zeros_spec().len_spec(),
        ensures
            final(self).wf(),
            final(self).dt_spec() == old(self).dt_spec(),
            final(self).ode_spec() == old(self).ode_spec(),
            forall|yy: V, tt: T|
                final(self).next_spec(yy, tt) == old(self).next_spec(yy, tt),
            *final(y) == old(self).next_spec(*old(y), *old(t)),
            final(y).len_spec() == old(y).len_spec(),
            *final(t) == old(t).plus_spec(old(self).dt_spec()),
    ;

    /// An independent duplicate with fresh zeroed scratch state that
    /// computes the same step map with the same step size for the same
    /// system, shared read-only.
    fn clone_fresh(&self) -> (r: Self) where O: Copy
        ensures
            r.wf(),
            r.fresh(),
            r.dt_spec() == self.dt_spec(),
            r.ode_spec() == self.ode_spec(),
            forall|yy: V, tt: T| r.next_spec(yy, tt) == self.next_spec(yy, tt),
    ;
}

/// An append-only trajectory: parallel time and state samples in insertion
/// order, plus an optional elapsed-wall-time measurement (in microseconds)
/// set exactly once, after the driving loop that filled the record ends.
pub struct ODESolution<T: Real, V: State<T>> {
    pub y: Vec<V>,
    pub t: Vec<T>,
    pub duration_micros: Option<u64>,
}

/// The textual form of a trajectory: one line per `(time, state)` pair,
/// `time,flattened_state`, no header, as many lines as the shorter of the
/// two sequences.
pub open spec fn csv_text_spec<T: Real, V: State<T>>(ts: Seq<T>, ys: Seq<V>) -> Seq<char>
    decreases ts.len(),
{
    if ts.len() == 0 || ys.len() == 0 {
        Seq::<char>::empty()
    } else {
        ts[0].text_spec()@ + seq![','] + ys[0].flat_spec()@ + seq!['\n'] + csv_text_spec(
            ts.drop_first(),
            ys.drop_first(),
        )
    }
}

impl<T: Real, V: State<T>> ODESolution<T, V> {
    /// The elapsed wall time of the driving loop, if it has been recorded.
    pub open spec fn duration_spec(&self) -> Option<u64> {
        self.duration_micros
    }

    pub fn new() -> (r: Self)
        ensures
            r.y@.len() == 0,
            r.t@.len() == 0,
            r.duration_spec() is None,
    {
        ODESolution { y: Vec::new(), t: Vec::new(), duration_micros: None }
    }

    pub fn push(&mut self, y: &V, t: &T)
        ensures
            final(self).y@ == old(self).y@.push(*y),
            final(self).t@ == old(self).t@.push(*t),
            final(self).duration_spec() == old(self).duration_spec(),
    {
        self.y.push(*y);
        self.t.push(*t);
    }

    pub fn get_solution_duration(&self) -> (r: Option<u64>)
        ensures
            r == self.duration_spec(),
    {
        self.duration_micros
    }

    /// Builds the full textual rendering of the record, pairing times with
    /// states index for index, for the external results writer.
    pub fn to_csv_string(&self) -> (r: String)
        ensures
            r@ == csv_text_spec(self.t@, self.y@),
    {
        let n: usize = if self.t.len() < self.y.len() {
            self.t.len()
        } else {
            self.y.len()
        };
        let mut out = String::new();
        let mut i: usize = 0;
        assert(self.t@.skip(0) == self.t@);
        assert(self.y@.skip(0) == self.y@);
        while i < n
            invariant
                i <= n,
                n <= self.t@.len(),
                n <= self.y@.len(),
                n == self.t@.len() || n == self.y@.len(),
                csv_text_spec(self.t@, self.y@) == out@ + csv_text_spec(
                    self.t@.skip(i as int),
                    self.y@.skip(i as int),
                ),
            decreases n - i,
        {
            let t_text = self.t[i].to_text();
            out.append(t_text.as_str());
            out.append(",");
            let y_text = self.y[i].flat();
            out.append(y_text.as_str());
            out.append("\n");
            proof {
                reveal_strlit(",");
                reveal_strlit("\n");
                let ts = self.t@.skip(i as int);
                let ys = self.y@.skip(i as int);
                assert(ts.len() > 0 && ys.len() > 0);
                assert(ts[0] == self.t@[i as int]);
                assert(ys[0] == self.y@[i as int]);
                assert(ts.drop_first() == self.t@.skip(i as int + 1));
                assert(ys.drop_first() == self.y@.skip(i as int + 1));
            }
            i = i + 1;
        }
        proof {
            assert(csv_text_spec(self.t@.skip(i as int), self.y@.skip(i as int)) == Seq::<
                char,
            >::empty());
            assert(out@ + Seq::<char>::empty() == out@);
        }
        out
    }
}

/// The time reached after `n` steps of size `h` from `t0`.
pub open spec fn time_after<T: Real>(t0: T, h: T, n: nat) -> T
    decreases n,
{
    if n == 0 {
        t0
    } else {
        time_after(t0, h, (n - 1) as nat).plus_spec(h)
    }
}

/// What every iteration of the single-trajectory driving loop maintains of
/// the record it fills for initial state `y0`, start time `t0` and stop time
/// `final_t`: parallel samples, the initial sample first, each later sample
/// obtained from its predecessor by one application of the solver's step map
/// with the time advanced by exactly the step size, and every stepped time
/// before the last still strictly below the stop time (the loop only went on
/// because it was).
pub open spec fn advancing_trajectory<T: Real, V: State<T>, O: ODE<T, V>, S: ODESolver<T, V, O>>(
    sol: ODESolution<T, V>,
    y0: V,
    t0: T,
    final_t: T,
    solver: S,
) -> bool {
    let n = sol.t@.len() as int;
    &&& sol.y@.len() == n
    &&& n >= 2
    &&& sol.t@[0] == t0
    &&& sol.y@[0] == y0
    &&& forall|i: int|
        0 <= i < n - 1 ==> sol.t@[i + 1] == sol.t@[i].plus_spec(solver.dt_spec())
    &&& forall|i: int|
        0 <= i < n - 1 ==> sol.y@[i + 1] == solver.next_spec(sol.y@[i], sol.t@[i])
    &&& forall|i: int| 1 <= i < n - 1 ==> sol.t@[i].lt_spec(final_t)
}

/// What the single-trajectory driving loop guarantees of a record it ran to
/// its stopping condition: an advancing trajectory whose last recorded time
/// is the first stepped time that has reached or passed the stop time. The
/// loop always takes at least one step, so the last recorded time may
/// overshoot `final_t` by up to one step.
pub open spec fn records_trajectory<T: Real, V: State<T>, O: ODE<T, V>, S: ODESolver<T, V, O>>(
    sol: ODESolution<T, V>,
    y0: V,
    t0: T,
    final_t: T,
    solver: S,
) -> bool {
    &&& advancing_trajectory(sol, y0, t0, final_t, solver)
    &&& !sol.t@[sol.t@.len() - 1].lt_spec(final_t)
}

/// `std::time::Instant`, declared so that the driving loop can measure its
/// own elapsed wall time.
#[verifier::external_type_specification]
#[verifier::external_body]
pub struct ExInstant(std::time::Instant);

/// Relies on `std::time::Instant::now`: an opaque reading of a monotonic
/// clock. The value depends on when the call runs, so nothing is promised
/// of it.
#[verifier::external_body]
fn instant_now() -> (r: std::time::Instant) {
    std::time::Instant::now()
}

/// Relies on `std::time::Instant::elapsed`: the wall time since `start`,
/// converted to whole microseconds. The value depends on when the call
/// runs, so nothing is promised of it.
#[verifier::external_body]
fn elapsed_micros(start: &std::time::Instant) -> (r: u64) {
    start.elapsed().as_micros() as u64
}

/// Integrates one trajectory: records the initial sample, then repeatedly
/// steps and records until the current time has reached or passed
/// `final_t`. The strict less-than test runs after each step, so the loop
/// always performs at least one step and never clamps the final step to
/// land exactly on `final_t`. The loop's elapsed wall time is measured and
/// stored in the record once, after the loop exits.
///
/// A scalar type whose addition can stall below `final_t` would keep the
/// loop running forever; it is therefore bounded by a step budget of
/// `usize::MAX`, beyond the reach of any run that allocates per step, and
/// the stopping clause of the contract is stated for records within it.
pub fn solve<T: Real, V: State<T>, O: ODE<T, V>, S: ODESolver<T, V, O>>(
    y0: V,
    t0: T,
    final_t: T,
    solver: S,
) -> (sol: ODESolution<T, V>)
    requires
        solver.wf(),
        y0.len_spec() == V::zeros_spec().len_spec(),
    ensures
        advancing_trajectory(sol, y0, t0, final_t, solver),
        sol.t@.len() <= usize::MAX ==> records_trajectory(sol, y0, t0, final_t, solver),
        sol.duration_spec() is Some,
{
    let ghost solver0 = solver;
    let mut s = solver;
    let mut solution = ODESolution::<T, V>::new();
    solution.push(&y0, &t0);

    let mut t = t0;
    let mut y = y0;

    let mut stopping_flag = false;
    let mut budget: usize = usize::MAX;

    let start = instant_now();

    while !stopping_flag && budget > 0
        invariant
            budget as int == usize::MAX - (solution.t@.len() - 1),
            s.wf(),
            s.dt_spec() == solver0.dt_spec(),
            forall|yy: V, tt: T| s.next_spec(yy, tt) == solver0.next_spec(yy, tt),
            solution.y@.len() == solution.t@.len(),
            solution.t@.len() >= 1,
            solution.t@[0] == t0,
            solution.y@[0] == y0,
            t == solution.t@[solution.t@.len() - 1],
            y == solution.y@[solution.y@.len() - 1],
            y.len_spec() == V::zeros_spec().len_spec(),
            forall|i: int|
                0 <= i < solution.t@.len() - 1 ==> solution.t@[i + 1] == solution.t@[i].plus_spec(
                    solver0.dt_spec(),
                ),
            forall|i: int|
                0 <= i < solution.y@.len() - 1 ==> solution.y@[i + 1] == solver0.next_spec(
                    solution.y@[i],
                    solution.t@[i],
                ),
            forall|i: int| 1 <= i < solution.t@.len() - 1 ==> solution.t@[i].lt_spec(final_t),
            stopping_flag ==> solution.t@.len() >= 2 && !solution.t@[solution.t@.len()
                - 1].lt_spec(final_t),
            !stopping_flag && solution.t@.len() >= 2 ==> solution.t@[solution.t@.len()
                - 1].lt_spec(final_t),
            solution.duration_spec() is None,
        decreases budget,
    {
        s.step(&mut y, &mut t);
        solution.push(&y, &t);

        stopping_flag = !t.is_lt(final_t);
        budget = budget - 1;
    }

    let micros = elapsed_micros(&start);
    solution.duration_micros = Some(micros);

    solution
}

/// Runs one branch of a batch: an independent duplicate of the solver, with
/// fresh scratch buffers, integrates one initial state over the common time
/// window. The duplicate computes the same step map, so the record is a
/// trajectory of the original solver.
fn solve_one_branch<T: Real, V: State<T>, O: ODE<T, V> + Copy, S: ODESolver<T, V, O>>(
    y0: V,
    t0: T,
    final_t: T,
    solver: &S,
) -> (sol: ODESolution<T, V>)
    requires
        solver.wf(),
        y0.len_spec() == V::zeros_spec().len_spec(),
    ensures
        advancing_trajectory(sol, y0, t0, final_t, *solver),
        sol.t@.len() <= usize::MAX ==> records_trajectory(sol, y0, t0, final_t, *solver),
        sol.duration_spec() is Some,
{
    let branch_solver = solver.clone_fresh();
    let sol = solve(y0, t0, final_t, branch_solver);
    sol
}

/// Relies on rayon (`Vec`'s `IntoParallelIterator`, `ParallelIterator::map`
/// and `collect` into a `Vec`): the parallel iterator of a `Vec` is indexed,
/// and mapping then collecting yields one result per input element, at the
/// same index as the input it came from, whatever the scheduling. The
/// closure only calls the verified branch runner, whose contract this
/// function restates element by element.
#[verifier::external_body]
fn par_map_branches<T: Real, V: State<T>, O: ODE<T, V> + Copy, S: ODESolver<T, V, O> + Sync>(
    y0s: Vec<V>,
    t0: T,
    final_t: T,
    solver: &S,
) -> (sols: Vec<ODESolution<T, V>>)
    requires
        solver.wf(),
        forall|i: int| 0 <= i < y0s@.len() ==> y0s@[i].len_spec() == V::zeros_spec().len_spec(),
    ensures
        sols@.len() == y0s@.len(),
        forall|i: int|
            0 <= i < sols@.len() ==> advancing_trajectory(sols@[i], y0s@[i], t0, final_t, *solver),
        forall|i: int|
            0 <= i < sols@.len() ==> (sols@[i].t@.len() <= usize::MAX ==> records_trajectory(
                sols@[i],
                y0s@[i],
                t0,
                final_t,
                *solver,
            )),
        forall|i: int| 0 <= i < sols@.len() ==> (#[trigger] sols@[i]).duration_spec() is Some,
{
    y0s.into_par_iter().map(|y0| solve_one_branch(y0, t0, final_t, solver)).collect()
}

/// Integrates many independent initial conditions concurrently, one
/// trajectory per initial state, each branch owning a fresh duplicate of
/// the solver's scratch state while sharing the system read-only. The
/// returned records correspond to the initial states index for index,
/// regardless of how the branches were scheduled or when they completed.
pub fn solve_ivp_batch<T: Real, V: State<T>, O: ODE<T, V> + Copy, S: ODESolver<T, V, O> + Sync>(
    y0s: Vec<V>,
    t0: T,
    final_t: T,
    solver: S,
) -> (sols: Vec<ODESolution<T, V>>)
    requires
        solver.wf(),
        forall|i: int| 0 <= i < y0s@.len() ==> y0s@[i].len_spec() == V::zeros_spec().len_spec(),
    ensures
        sols@.len() == y0s@.len(),
        forall|i: int|
            0 <= i < sols@.len() ==> advancing_trajectory(sols@[i], y0s@[i], t0, final_t, solver),
        forall|i: int|
            0 <= i < sols@.len() ==> (sols@[i].t@.len() <= usize::MAX ==> records_trajectory(
                sols@[i],
                y0s@[i],
                t0,
                final_t,
                solver,
            )),
        forall|i: int| 0 <= i < sols@.len() ==> (#[trigger] sols@[i]).duration_spec() is Some,
{
    par_map_branches(y0s, t0, final_t, &solver)
}

/// Law (monotonic time): with a positive step size, consecutive recorded
/// times of a trajectory differ by exactly one step and never decrease.
pub proof fn lemma_monotonic_time<T: Real, V: State<T>, O: ODE<T, V>, S: ODESolver<T, V, O>>(
    sol: ODESolution<T, V>,
    y0: V,
    t0: T,
    final_t: T,
    solver: S,
)
    requires
        records_trajectory(sol, y0, t0, final_t, solver),
        T::from_u64_spec(0).lt_spec(solver.dt_spec()),
    ensures
        forall|i: int|
            0 <= i < sol.t@.len() - 1 ==> sol.t@[i + 1] == sol.t@[i].plus_spec(solver.dt_spec()),
        forall|i: int| 0 <= i < sol.t@.len() - 1 ==> !(#[trigger] sol.t@[i + 1].lt_spec(sol.t@[i])),
{
    assert forall|i: int| 0 <= i < sol.t@.len() - 1 implies !(#[trigger] sol.t@[i + 1].lt_spec(sol.t@[i])) by {
        sol.t@[i].law_plus_does_not_decrease(solver.dt_spec());
    }
}

/// Law (recorded times in closed form): the time of sample `i` is the start
/// time advanced by `i` steps.
pub proof fn lemma_time_closed_form<T: Real, V: State<T>, O: ODE<T, V>, S: ODESolver<T, V, O>>(
    sol: ODESolution<T, V>,
    y0: V,
    t0: T,
    final_t: T,
    solver: S,
    i: int,
)
    requires
        records_trajectory(sol, y0, t0, final_t, solver),
        0 <= i < sol.t@.len(),
    ensures
        sol.t@[i] == time_after(t0, solver.dt_spec(), i as nat),
    decreases i,
{
    if i > 0 {
        lemma_time_closed_form(sol, y0, t0, final_t, solver, i - 1);
    }
}

/// Law (sample count reproducibility): the overshoot-permitting stopping
/// rule alone fixes how many samples a trajectory records. Any two records
/// produced with the same start time, stop time and step size have the same
/// length, whatever their systems, initial states or solvers.
pub proof fn lemma_sample_count_unique<
    T: Real,
    V1: State<T>,
    O1: ODE<T, V1>,
    S1: ODESolver<T, V1, O1>,
    V2: State<T>,
    O2: ODE<T, V2>,
    S2: ODESolver<T, V2, O2>,
>(
    sol1: ODESolution<T, V1>,
    sol2: ODESolution<T, V2>,
    y01: V1,
    y02: V2,
    t0: T,
    final_t: T,
    solver1: S1,
    solver2: S2,
)
    requires
        records_trajectory(sol1, y01, t0, final_t, solver1),
        records_trajectory(sol2, y02, t0, final_t, solver2),
        solver1.dt_spec() == solver2.dt_spec(),
    ensures
        sol1.t@.len() == sol2.t@.len(),
{
    let n1 = sol1.t@.len() as int;
    let n2 = sol2.t@.len() as int;
    if n1 < n2 {
        lemma_time_closed_form(sol1, y01, t0, final_t, solver1, n1 - 1);
        lemma_time_closed_form(sol2, y02, t0, final_t, solver2, n1 - 1);
        assert(sol2.t@[n1 - 1].lt_spec(final_t));
        assert(false);
    }
    if n2 < n1 {
        lemma_time_closed_form(sol1, y01, t0, final_t, solver1, n2 - 1);
        lemma_time_closed_form(sol2, y02, t0, final_t, solver2, n2 - 1);
        assert(sol1.t@[n2 - 1].lt_spec(final_t));
        assert(false);
    }
}

/// Law (sample count): a trajectory records one sample more than the number
/// of steps it took, and that number of steps is the least count, at least
/// one, by which the start time advanced step by step reaches or passes the
/// stop time.
pub proof fn lemma_sample_count<T: Real, V: State<T>, O: ODE<T, V>, S: ODESolver<T, V, O>>(
    sol: ODESolution<T, V>,
    y0: V,
    t0: T,
    final_t: T,
    solver: S,
)
    requires
        records_trajectory(sol, y0, t0, final_t, solver),
    ensures
        sol.y@.len() == sol.t@.len(),
        sol.t@.len() >= 2,
        !time_after(t0, solver.dt_spec(), (sol.t@.len() - 1) as nat).lt_spec(final_t),
        forall|k: int|
            1 <= k < sol.t@.len() - 1 ==> (#[trigger] time_after(
                t0,
                solver.dt_spec(),
                k as nat,
            )).lt_spec(final_t),
{
    lemma_time_closed_form(sol, y0, t0, final_t, solver, sol.t@.len() - 1);
    assert forall|k: int|
        1 <= k < sol.t@.len() - 1 implies (#[trigger] time_after(
        t0,
        solver.dt_spec(),
        k as nat,
    )).lt_spec(final_t) by {
        lemma_time_closed_form(sol, y0, t0, final_t, solver, k);
    }
}

proof fn lemma_samples_agree<T: Real, V: State<T>, O: ODE<T, V>, S: ODESolver<T, V, O>>(
    sol1: ODESolution<T, V>,
    sol2: ODESolution<T, V>,
    y0: V,
    t0: T,
    final_t: T,
    solver: S,
    i: int,
)
    requires
        records_trajectory(sol1, y0, t0, final_t, solver),
        records_trajectory(sol2, y0, t0, final_t, solver),
        0 <= i < sol1.t@.len(),
        i < sol2.t@.len(),
    ensures
        sol1.t@[i] == sol2.t@[i],
        sol1.y@[i] == sol2.y@[i],
    decreases i,
{
    if i > 0 {
        lemma_samples_agree(sol1, sol2, y0, t0, final_t, solver, i - 1);
        let j = i - 1;
        assert(sol1.t@[j + 1] == sol1.t@[j].plus_spec(solver.dt_spec()));
        assert(sol2.t@[j + 1] == sol2.t@[j].plus_spec(solver.dt_spec()));
        assert(sol1.y@[j + 1] == solver.next_spec(sol1.y@[j], sol1.t@[j]));
        assert(sol2.y@[j + 1] == solver.next_spec(sol2.y@[j], sol2.t@[j]));
    }
}

/// Law (reproducibility): the driving loop is deterministic. Two records of
/// the same initial state over the same time window, produced with solvers
/// that compute the same step map with the same step size — a solver and
/// any duplicate of it, on any branch of a batch, under any scheduling —
/// are identical sample for sample.
pub proof fn lemma_trajectory_deterministic<
    T: Real,
    V: State<T>,
    O: ODE<T, V>,
    S: ODESolver<T, V, O>,
>(
    sol1: ODESolution<T, V>,
    sol2: ODESolution<T, V>,
    y0: V,
    t0: T,
    final_t: T,
    solver: S,
)
    requires
        records_trajectory(sol1, y0, t0, final_t, solver),
        records_trajectory(sol2, y0, t0, final_t, solver),
    ensures
        sol1.t@ == sol2.t@,
        sol1.y@ == sol2.y@,
{
    lemma_sample_count_unique(sol1, sol2, y0, y0, t0, final_t, solver, solver);
    assert forall|i: int| 0 <= i < sol1.t@.len() implies sol1.t@[i] == sol2.t@[i] && sol1.y@[i]
        == sol2.y@[i] by {
        lemma_samples_agree(sol1, sol2, y0, t0, final_t, solver, i);
    }
    assert(sol1.t@ =~= sol2.t@);
    assert(sol1.y@ =~= sol2.y@);
}

} // verus!
