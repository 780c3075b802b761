use vstd::prelude::*;

use crate::scalar::{spec_sum_diff_squares, Scalar};

verus! {

/// The reason a Euclidean-distance computation could not proceed: the
/// two operand vectors had different lengths. Both observed lengths are
/// carried verbatim for diagnostics. This is deliberately a distinct
/// type from the cosine operation's error: the two are not
/// interchangeable to callers.
#[derive(Debug, Clone, Copy, PartialEq, Eq)]
pub enum EuclideanDistanceError {
    InvalidVectors { lhs: usize, rhs: usize },
}

/// The Euclidean (L2) distance of two equal-length sequences: the
/// square root of the sum of the squared elementwise differences.
pub open spec fn spec_euclidean_distance<T: Scalar>(a: Seq<T>, b: Seq<T>) -> T {
    spec_sum_diff_squares(a, b).sqrt_spec()
}

/// Computes the Euclidean distance between two vectors.
///
/// Returns the distance as a scalar of the element type, or a
/// length-mismatch error carrying both operand lengths. No other
/// failure exists: every pair of equal-length vectors yields a scalar.
pub trait EuclideanDistance<T: Scalar, Rhs: View<V = Seq<T>>>: View<V = Seq<T>> {
    fn euclidean_distance(&self, rhs: Rhs) -> (r: Result<T, EuclideanDistanceError>)
        ensures
            self@.len() == rhs@.len() ==> r == Ok::<T, EuclideanDistanceError>(
                spec_euclidean_distance(self@, rhs@),
            ),
            self@.len() != rhs@.len() ==> (r matches Err(e) && e == (
            EuclideanDistanceError::InvalidVectors {
                lhs: self@.len() as usize,
                rhs: rhs@.len() as usize,
            })),
    ;
}

/// The Euclidean distance depends only on the contents of the two
/// operands: two calls whose operands hold the same elements in the
/// same order return the same value, whatever the operands' ownership
/// form. Passing a vector by value and passing a borrowed view of equal
/// content are therefore interchangeable.
pub proof fn lemma_euclidean_distance_content<T: Scalar>(
    a1: Seq<T>,
    b1: Seq<T>,
    a2: Seq<T>,
    b2: Seq<T>,
)
    requires
        a1.len() == a2.len(),
        forall|i: int| 0 <= i < a1.len() ==> a1[i] == a2[i],
        b1.len() == b2.len(),
        forall|i: int| 0 <= i < b1.len() ==> b1[i] == b2[i],
    ensures
        spec_euclidean_distance(a1, b1) == spec_euclidean_distance(a2, b2),
{
    assert(a1 =~= a2);
    assert(b1 =~= b2);
}

/// The Euclidean distance of the two slices, or a length-mismatch error
/// naming both lengths. The full vectors are always processed; there is
/// no early exit, and nothing is computed before the lengths are
/// checked.
pub fn euclidean_distance_of<T: Scalar>(a: &[T], b: &[T]) -> (r: Result<
    T,
    EuclideanDistanceError,
>)
    ensures
        a@.len() == b@.len() ==> r == Ok::<T, EuclideanDistanceError>(
            spec_euclidean_distance(a@, b@),
        ),
        a@.len() != b@.len() ==> r == Err::<T, EuclideanDistanceError>(
            EuclideanDistanceError::InvalidVectors {
                lhs: a@.len() as usize,
                rhs: b@.len() as usize,
            },
        ),
{
    if a.len() != b.len() {
        return Err(EuclideanDistanceError::InvalidVectors { lhs: a.len(), rhs: b.len() });
    }
    Ok(sum_diff_squares_of(a, b).sqrt())
}

/// The sum of the squared elementwise differences of two equal-length
/// slices, accumulated left to right from zero.
pub fn sum_diff_squares_of<T: Scalar>(a: &[T], b: &[T]) -> (r: T)
    requires
        a@.len() == b@.len(),
    ensures
        r == spec_sum_diff_squares(a@, b@),
{
    let n = a.len();
    let mut acc = T::zero();
    let mut i: usize = 0;
    while i < n
        invariant
            n == a@.len() == b@.len(),
            i <= n,
            acc == spec_sum_diff_squares(a@.take(i as int), b@.take(i as int)),
        decreases n - i,
    {
        let d = a[i].sub(b[i]);
        acc = acc.add(d.mul(d));
        proof {
            let j = i + 1;
            assert(a@.take(j as int).drop_last() =~= a@.take(i as int));
            assert(b@.take(j as int).drop_last() =~= b@.take(i as int));
            assert(a@.take(j as int).last() == a@[i as int]);
            assert(b@.take(j as int).last() == b@[i as int]);
        }
        i = i + 1;
    }
    proof {
        assert(a@.take(n as int) =~= a@);
        assert(b@.take(n as int) =~= b@);
    }
    acc
}

impl<T: Scalar> EuclideanDistance<T, Vec<T>> for Vec<T> {
    fn euclidean_distance(&self, rhs: Vec<T>) -> (r: Result<T, EuclideanDistanceError>) {
        euclidean_distance_of(self.as_slice(), rhs.as_slice())
    }
}

impl<'a, T: Scalar> EuclideanDistance<T, &'a [T]> for Vec<T> {
    fn euclidean_distance(&self, rhs: &'a [T]) -> (r: Result<T, EuclideanDistanceError>) {
        euclidean_distance_of(self.as_slice(), rhs)
    }
}

impl<T: Scalar> EuclideanDistance<T, Vec<T>> for [T] {
    fn euclidean_distance(&self, rhs: Vec<T>) -> (r: Result<T, EuclideanDistanceError>) {
        euclidean_distance_of(self, rhs.as_slice())
    }
}

impl<'a, T: Scalar> EuclideanDistance<T, &'a [T]> for [T] {
    fn euclidean_distance(&self, rhs: &'a [T]) -> (r: Result<T, EuclideanDistanceError>) {
        euclidean_distance_of(self, rhs)
    }
}

} // verus!
