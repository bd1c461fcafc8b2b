use vstd::prelude::*;

verus! {

/// The scalar type used for time values, step sizes and the coefficients
/// that scale a state. Implementations choose the working precision; the
/// integration core only relies on the field operations named here, each
/// mirrored by a specification-level function so that contracts can speak
/// about the exact value an operation produced.
pub trait Real: Sized + Copy + Send + Sync {
    /// The value `self + other`.
    spec fn plus_spec(self, other: Self) -> Self;

    /// The value `self / other`.
    spec fn over_spec(self, other: Self) -> Self;

    /// Whether `self < other`.
    spec fn lt_spec(self, other: Self) -> bool;

    /// The scalar that represents the small integer `n`.
    spec fn from_u64_spec(n: u64) -> Self;

    /// The canonical textual rendering of the scalar.
    spec fn text_spec(&self) -> String;

    fn plus(self, other: Self) -> (r: Self)
        ensures
            r == self.plus_spec(other),
    ;

    fn over(self, other: Self) -> (r: Self)
        ensures
            r == self.over_spec(other),
    ;

    fn is_lt(self, other: Self) -> (r: bool)
        ensures
            r == self.lt_spec(other),
    ;

    fn from_u64(n: u64) -> (r: Self)
        ensures
            r == Self::from_u64_spec(n),
    ;

    fn to_text(&self) -> (r: String)
        ensures
            r@ == self.text_spec()@,
    ;

    /// Law: adding a positive increment never moves a scalar backwards.
    /// This is what makes the recorded time sequence of a trajectory
    /// non-decreasing when the step size is positive.
    proof fn law_plus_does_not_decrease(self, h: Self)
        requires
            Self::from_u64_spec(0).lt_spec(h),
        ensures
            !self.plus_spec(h).lt_spec(self),
    ;
}

/// A value being integrated: a bare scalar or a fixed-length vector of
/// scalars. The stepping algorithm works uniformly over this contract and
/// never inspects individual components; `len` exists for diagnostics and
/// for the dimensional-compatibility precondition of the arithmetic, and
/// `flat` renders the components for the results consumer.
pub trait State<T: Real>: Sized + Copy + Send + Sync {
    /// The number of scalar components (1 for a scalar state).
    spec fn len_spec(&self) -> usize;

    /// The componentwise sum `self + other`.
    spec fn plus_spec(self, other: Self) -> Self;

    /// The componentwise difference `self - other`.
    spec fn minus_spec(self, other: Self) -> Self;

    /// Every component of `self` multiplied by the scalar `c`.
    spec fn scale_spec(self, c: T) -> Self;

    /// The canonical all-zero value of the implementing shape.
    spec fn zeros_spec() -> Self;

    /// The flattened, comma-joined textual rendering of the components.
    spec fn flat_spec(&self) -> String;

    fn len(&self) -> (n: usize)
        ensures
            n == self.len_spec(),
    ;

    fn zeros() -> (r: Self)
        ensures
            r == Self::zeros_spec(),
    ;

    fn plus(self, other: Self) -> (r: Self)
        requires
            self.len_spec() == other.len_spec(),
        ensures
            r == self.plus_spec(other),
            r.len_spec() == self.len_spec(),
    ;

    fn minus(self, other: Self) -> (r: Self)
        requires
            self.len_spec() == other.len_spec(),
        ensures
            r == self.minus_spec(other),
            r.len_spec() == self.len_spec(),
    ;

    fn scale(self, c: T) -> (r: Self)
        ensures
            r == self.scale_spec(c),
            r.len_spec() == self.len_spec(),
    ;

    fn flat(&self) -> (r: String)
        ensures
            r@ == self.flat_spec()@,
    ;

    /// Law: the canonical zero is an identity for addition, for any value
    /// of the shape the zero has.
    proof fn law_zeros_plus(x: Self)
        requires
            x.len_spec() == Self::zeros_spec().len_spec(),
        ensures
            Self::zeros_spec().plus_spec(x) == x,
    ;

    /// Law: subtracting a value from itself yields the canonical zero,
    /// for any value of the shape the zero has.
    proof fn law_minus_self(x: Self)
        requires
            x.len_spec() == Self::zeros_spec().len_spec(),
        ensures
            x.minus_spec(x) == Self::zeros_spec(),
    ;
}

/// Law: for every state shape, the canonical zero is an additive identity:
/// `zeros() + x == x` for any value `x` of that shape.
pub proof fn lemma_zeros_plus_identity<T: Real, V: State<T>>(x: V)
    requires
        x.len_spec() == V::zeros_spec().len_spec(),
    ensures
        V::zeros_spec().plus_spec(x) == x,
{
    V::law_zeros_plus(x);
}

/// Law: for every state shape, subtracting a value from itself yields the
/// canonical zero: `x - x == zeros()` for any value `x` of that shape.
pub proof fn lemma_minus_self_is_zeros<T: Real, V: State<T>>(x: V)
    requires
        x.len_spec() == V::zeros_spec().len_spec(),
    ensures
        x.minus_spec(x) == V::zeros_spec(),
{
    V::law_minus_self(x);
}

} // verus!
