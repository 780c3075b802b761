use vstd::prelude::*;

use crate::scalar::{spec_dot, spec_norm, spec_sum_squares, Scalar};

verus! {

/// The reason a cosine-similarity computation could not proceed: the
/// two operand vectors had different lengths. Both observed lengths are
/// carried verbatim for diagnostics.
#[derive(Debug, Clone, Copy, PartialEq, Eq)]
pub enum CosineSimilarityError {
    InvalidVectors { lhs: usize, rhs: usize },
}

/// The cosine similarity of two equal-length sequences: the dot product
/// divided by the product of the two L2 norms. When either operand is
/// all zeros the divisor is zero; division by zero is the element
/// type's business (for floating point it yields a NaN), not an error.
pub open spec fn spec_cosine_similarity<T: Scalar>(a: Seq<T>, b: Seq<T>) -> T {
    spec_dot(a, b).div_spec(spec_norm(a).mul_spec(spec_norm(b)))
}

/// Computes the cosine similarity between two vectors.
///
/// Returns the similarity as a scalar of the element type, or a
/// length-mismatch error carrying both operand lengths. No other
/// failure exists: every pair of equal-length vectors yields a scalar.
pub trait CosineSimilarity<T: Scalar, Rhs: View<V = Seq<T>>>: View<V = Seq<T>> {
    fn cosine_similarity(&self, rhs: Rhs) -> (r: Result<T, CosineSimilarityError>)
        ensures
            self@.len() == rhs@.len() ==> r == Ok::<T, CosineSimilarityError>(
                spec_cosine_similarity(self@, rhs@),
            ),
            self@.len() != rhs@.len() ==> (r matches Err(e) && e == (
            CosineSimilarityError::InvalidVectors {
                lhs: self@.len() as usize,
                rhs: rhs@.len() as usize,
            })),
    ;
}

/// The cosine similarity depends only on the contents of the two
/// operands: two calls whose operands hold the same elements in the
/// same order return the same value, whatever the operands' ownership
/// form. Passing a vector by value and passing a borrowed view of equal
/// content are therefore interchangeable.
/// A vector's similarity with itself is its sum of squares divided by
/// the product of its norm with itself: numerator and squared norm are
/// the same value, so only the rounding of the square root and of the
/// final division separate the result from one.
pub proof fn lemma_self_similarity<T: Scalar>(v: Seq<T>)
    ensures
        spec_cosine_similarity(v, v) == spec_sum_squares(v).div_spec(
            spec_norm(v).mul_spec(spec_norm(v)),
        ),
{
    crate::scalar::lemma_dot_self_is_sum_squares(v);
}

pub proof fn lemma_cosine_similarity_content<T: Scalar>(
    a1: Seq<T>,
    b1: Seq<T>,
    a2: Seq<T>,
    b2: Seq<T>,
)
    requires
        a1.len() == a2.len(),
        forall|i: int| 0 <= i < a1.len() ==> a1[i] == a2[i],
        b1.len() == b2.len(),
        forall|i: int| 0 <= i < b1.len() ==> b1[i] == b2[i],
    ensures
        spec_cosine_similarity(a1, b1) == spec_cosine_similarity(a2, b2),
{
    assert(a1 =~= a2);
    assert(b1 =~= b2);
}

/// The cosine similarity of the two slices, or a length-mismatch error
/// naming both lengths. The whole computation is a single pass with no
/// early exit; nothing is computed before the lengths are checked.
pub fn cosine_similarity_of<T: Scalar>(a: &[T], b: &[T]) -> (r: Result<
    T,
    CosineSimilarityError,
>)
    ensures
        a@.len() == b@.len() ==> r == Ok::<T, CosineSimilarityError>(
            spec_cosine_similarity(a@, b@),
        ),
        a@.len() != b@.len() ==> r == Err::<T, CosineSimilarityError>(
            CosineSimilarityError::InvalidVectors { lhs: a@.len() as usize, rhs: b@.len() as usize },
        ),
{
    if a.len() != b.len() {
        return Err(CosineSimilarityError::InvalidVectors { lhs: a.len(), rhs: b.len() });
    }
    let numerator = dot_of(a, b);
    let denominator = sum_squares_of(a).sqrt().mul(sum_squares_of(b).sqrt());
    Ok(numerator.div(denominator))
}

/// The dot product of two equal-length slices, accumulated left to
/// right from zero.
pub fn dot_of<T: Scalar>(a: &[T], b: &[T]) -> (r: T)
    requires
        a@.len() == b@.len(),
    ensures
        r == spec_dot(a@, b@),
{
    let n = a.len();
    let mut acc = T::zero();
    let mut i: usize = 0;
    while i < n
        invariant
            n == a@.len() == b@.len(),
            i <= n,
            acc == spec_dot(a@.take(i as int), b@.take(i as int)),
        decreases n - i,
    {
        let term = a[i].mul(b[i]);
        acc = acc.add(term);
        proof {
            let j = i + 1;
            assert(a@.take(j as int).drop_last() =~= a@.take(i as int));
            assert(b@.take(j as int).drop_last() =~= b@.take(i as int));
            assert(a@.take(j as int).last() == a@[i as int]);
            assert(b@.take(j as int).last() == b@[i as int]);
        }
        i = i + 1;
    }
    proof {
        assert(a@.take(n as int) =~= a@);
        assert(b@.take(n as int) =~= b@);
    }
    acc
}

/// The sum of the squares of a slice's elements, accumulated left to
/// right from zero.
pub fn sum_squares_of<T: Scalar>(a: &[T]) -> (r: T)
    ensures
        r == spec_sum_squares(a@),
{
    let n = a.len();
    let mut acc = T::zero();
    let mut i: usize = 0;
    while i < n
        invariant
            n == a@.len(),
            i <= n,
            acc == spec_sum_squares(a@.take(i as int)),
        decreases n - i,
    {
        let x = a[i];
        acc = acc.add(x.mul(x));
        proof {
            let j = i + 1;
            assert(a@.take(j as int).drop_last() =~= a@.take(i as int));
            assert(a@.take(j as int).last() == a@[i as int]);
        }
        i = i + 1;
    }
    proof {
        assert(a@.take(n as int) =~= a@);
    }
    acc
}

impl<T: Scalar> CosineSimilarity<T, Vec<T>> for Vec<T> {
    fn cosine_similarity(&self, rhs: Vec<T>) -> (r: Result<T, CosineSimilarityError>) {
        cosine_similarity_of(self.as_slice(), rhs.as_slice())
    }
}

impl<'a, T: Scalar> CosineSimilarity<T, &'a [T]> for Vec<T> {
    fn cosine_similarity(&self, rhs: &'a [T]) -> (r: Result<T, CosineSimilarityError>) {
        cosine_similarity_of(self.as_slice(), rhs)
    }
}

impl<T: Scalar> CosineSimilarity<T, Vec<T>> for [T] {
    fn cosine_similarity(&self, rhs: Vec<T>) -> (r: Result<T, CosineSimilarityError>) {
        cosine_similarity_of(self, rhs.as_slice())
    }
}

impl<'a, T: Scalar> CosineSimilarity<T, &'a [T]> for [T] {
    fn cosine_similarity(&self, rhs: &'a [T]) -> (r: Result<T, CosineSimilarityError>) {
        cosine_similarity_of(self, rhs)
    }
}

} // verus!
