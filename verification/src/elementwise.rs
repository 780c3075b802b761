use vstd::prelude::*;

use crate::scalar::Scalar;

verus! {

/// Elementwise power over a numeric sequence.
///
/// Each call returns a newly allocated vector of the same length, with
/// no aliasing of the input: `output[i]` is the corresponding power of
/// `input[i]`. The machine power operations carry no precision
/// guarantee (see `Scalar::powi` and `Scalar::powf`), so only the shape
/// of the result is promised here.
pub trait Pow<T: Scalar>: View<V = Seq<T>> {
    /// Raises every element to the given integer power.
    fn powi(&self, rhs: i32) -> (r: Vec<T>)
        ensures
            r@.len() == self@.len(),
    ;

    /// Raises every element to the given fractional power.
    fn powf(&self, rhs: T) -> (r: Vec<T>)
        ensures
            r@.len() == self@.len(),
    ;
}

/// Elementwise square root over a numeric sequence.
///
/// Each call returns a newly allocated vector of the same length, with
/// no aliasing of the input: `output[i]` is exactly the element type's
/// square root of `input[i]`.
pub trait Sqrt<T: Scalar>: View<V = Seq<T>> {
    /// Takes the square root of every element.
    fn sqrt(&self) -> (r: Vec<T>)
        ensures
            r@.len() == self@.len(),
            forall|i: int| 0 <= i < self@.len() ==> r@[i] == self@[i].sqrt_spec(),
    ;
}

impl<T: Scalar> Pow<T> for [T] {
    fn powi(&self, rhs: i32) -> (r: Vec<T>) {
        let n = self.len();
        let mut out: Vec<T> = Vec::new();
        let mut i: usize = 0;
        while i < n
            invariant
                n == self@.len(),
                i <= n,
                out@.len() == i,
            decreases n - i,
        {
            out.push(self[i].powi(rhs));
            i = i + 1;
        }
        out
    }

    fn powf(&self, rhs: T) -> (r: Vec<T>) {
        let n = self.len();
        let mut out: Vec<T> = Vec::new();
        let mut i: usize = 0;
        while i < n
            invariant
                n == self@.len(),
                i <= n,
                out@.len() == i,
            decreases n - i,
        {
            out.push(self[i].powf(rhs));
            i = i + 1;
        }
        out
    }
}

impl<T: Scalar> Sqrt<T> for [T] {
    fn sqrt(&self) -> (r: Vec<T>) {
        let n = self.len();
        let mut out: Vec<T> = Vec::new();
        let mut i: usize = 0;
        while i < n
            invariant
                n == self@.len(),
                i <= n,
                out@.len() == i,
                forall|k: int| 0 <= k < i ==> out@[k] == self@[k].sqrt_spec(),
            decreases n - i,
        {
            out.push(self[i].sqrt());
            i = i + 1;
        }
        out
    }
}

impl<T: Scalar> Pow<T> for Vec<T> {
    fn powi(&self, rhs: i32) -> (r: Vec<T>) {
        self.as_slice().powi(rhs)
    }

    fn powf(&self, rhs: T) -> (r: Vec<T>) {
        self.as_slice().powf(rhs)
    }
}

impl<T: Scalar> Sqrt<T> for Vec<T> {
    fn sqrt(&self) -> (r: Vec<T>) {
        self.as_slice().sqrt()
    }
}

} // verus!
