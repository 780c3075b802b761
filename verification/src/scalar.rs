use vstd::prelude::*;

verus! {

/// The arithmetic capability that an element type must supply.
///
/// The two distance operations are generic over the element type: any
/// floating-point representation may be used, as long as it offers zero,
/// the four arithmetic operations and a square root. Each executable
/// method is paired with a specification function naming its exact
/// result, so that every computation built from these operations has a
/// result that is pinned down as a mathematical function of the operand
/// values.
///
/// An implementation is obliged, by the `ensures` clauses below, to
/// return a value that depends on the operand values alone. A machine
/// floating-point type meets this by returning the machine result of
/// the corresponding IEEE 754 operation, which is exactly rounded and
/// deterministic, with one caveat: the payload carried inside a NaN
/// result is not pinned down by IEEE 754, so an implementation must
/// normalize every NaN result to one fixed NaN representation before
/// returning it. An implementation that cannot keep these obligations
/// falsifies every contract proved from them; they are not checked by
/// the verifier for implementations outside this crate.
pub trait Scalar: Copy + Sized {
    /// The value of the additive identity.
    spec fn zero_spec() -> Self;

    /// The value returned by `add`.
    spec fn add_spec(self, other: Self) -> Self;

    /// The value returned by `sub`.
    spec fn sub_spec(self, other: Self) -> Self;

    /// The value returned by `mul`.
    spec fn mul_spec(self, other: Self) -> Self;

    /// The value returned by `div`.
    spec fn div_spec(self, other: Self) -> Self;

    /// The value returned by `sqrt`.
    spec fn sqrt_spec(self) -> Self;

    /// The additive identity (for floating point: positive zero).
    fn zero() -> (r: Self)
        ensures
            r == Self::zero_spec(),
    ;

    /// The sum of `self` and `other`.
    fn add(self, other: Self) -> (r: Self)
        ensures
            r == self.add_spec(other),
    ;

    /// The difference of `self` and `other`.
    fn sub(self, other: Self) -> (r: Self)
        ensures
            r == self.sub_spec(other),
    ;

    /// The product of `self` and `other`.
    fn mul(self, other: Self) -> (r: Self)
        ensures
            r == self.mul_spec(other),
    ;

    /// The quotient of `self` by `other`. Division by zero must not
    /// panic; for floating point it yields an infinity or a NaN.
    fn div(self, other: Self) -> (r: Self)
        ensures
            r == self.div_spec(other),
    ;

    /// The square root of `self`. A negative operand must not panic;
    /// for floating point it yields a NaN.
    fn sqrt(self) -> (r: Self)
        ensures
            r == self.sqrt_spec(),
    ;

    /// `self` raised to an integer power. Machine implementations of
    /// this operation carry no precision guarantee and may differ
    /// between platforms, so no result value is promised.
    fn powi(self, exponent: i32) -> Self;

    /// `self` raised to a fractional power. Machine implementations of
    /// this operation carry no precision guarantee and may differ
    /// between platforms, so no result value is promised.
    fn powf(self, exponent: Self) -> Self;
}

/// The sum of the elementwise products of two equal-length sequences,
/// accumulated left to right from zero.
pub open spec fn spec_dot<T: Scalar>(a: Seq<T>, b: Seq<T>) -> T
    decreases a.len(),
{
    if a.len() == 0 {
        T::zero_spec()
    } else {
        spec_dot(a.drop_last(), b.drop_last()).add_spec(a.last().mul_spec(b.last()))
    }
}

/// The sum of the squares of a sequence's elements, accumulated left to
/// right from zero.
pub open spec fn spec_sum_squares<T: Scalar>(a: Seq<T>) -> T
    decreases a.len(),
{
    if a.len() == 0 {
        T::zero_spec()
    } else {
        spec_sum_squares(a.drop_last()).add_spec(a.last().mul_spec(a.last()))
    }
}

/// The dot product of a sequence with itself is exactly its sum of
/// squares: the numerator of a vector's similarity with itself is the
/// same value as the square of its norm before the root is taken.
pub proof fn lemma_dot_self_is_sum_squares<T: Scalar>(v: Seq<T>)
    ensures
        spec_dot(v, v) == spec_sum_squares(v),
    decreases v.len(),
{
    if v.len() > 0 {
        lemma_dot_self_is_sum_squares(v.drop_last());
    }
}

/// The L2 norm of a sequence: the square root of the sum of the squares
/// of its elements.
pub open spec fn spec_norm<T: Scalar>(a: Seq<T>) -> T {
    spec_sum_squares(a).sqrt_spec()
}

/// The sum of the squared elementwise differences of two equal-length
/// sequences, accumulated left to right from zero.
pub open spec fn spec_sum_diff_squares<T: Scalar>(a: Seq<T>, b: Seq<T>) -> T
    decreases a.len(),
{
    if a.len() == 0 {
        T::zero_spec()
    } else {
        let d = a.last().sub_spec(b.last());
        spec_sum_diff_squares(a.drop_last(), b.drop_last()).add_spec(d.mul_spec(d))
    }
}

} // verus!
