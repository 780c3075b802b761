use ndarray_math::{
    CosineSimilarity, CosineSimilarityError, EuclideanDistance, EuclideanDistanceError, Pow,
    Scalar, Sqrt,
};

// A double-precision element. Every operation returns the machine
// result of the corresponding IEEE 754 operation; a NaN result is
// normalized to the one canonical NaN so that each operation returns a
// function of its operand values, as the trait's contracts demand.
#[derive(Clone, Copy, Debug, PartialEq)]
struct R64(f64);

fn normal64(x: f64) -> R64 {
    if x.is_nan() {
        R64(f64::NAN)
    } else {
        R64(x)
    }
}

impl Scalar for R64 {
    // The specification members survive compilation as ordinary
    // methods; each is the same function of the operands as its
    // executable counterpart.
    fn zero_spec() -> R64 {
        R64(0.0)
    }
    fn add_spec(self, other: R64) -> R64 {
        normal64(self.0 + other.0)
    }
    fn sub_spec(self, other: R64) -> R64 {
        normal64(self.0 - other.0)
    }
    fn mul_spec(self, other: R64) -> R64 {
        normal64(self.0 * other.0)
    }
    fn div_spec(self, other: R64) -> R64 {
        normal64(self.0 / other.0)
    }
    fn sqrt_spec(self) -> R64 {
        normal64(f64::sqrt(self.0))
    }
    fn zero() -> R64 {
        R64(0.0)
    }
    fn add(self, other: R64) -> R64 {
        normal64(self.0 + other.0)
    }
    fn sub(self, other: R64) -> R64 {
        normal64(self.0 - other.0)
    }
    fn mul(self, other: R64) -> R64 {
        normal64(self.0 * other.0)
    }
    fn div(self, other: R64) -> R64 {
        normal64(self.0 / other.0)
    }
    fn sqrt(self) -> R64 {
        normal64(f64::sqrt(self.0))
    }
    fn powi(self, exponent: i32) -> R64 {
        R64(f64::powi(self.0, exponent))
    }
    fn powf(self, exponent: R64) -> R64 {
        R64(f64::powf(self.0, exponent.0))
    }
}

// A single-precision element, under the same obligations.
#[derive(Clone, Copy, Debug, PartialEq)]
struct R32(f32);

fn normal32(x: f32) -> R32 {
    if x.is_nan() {
        R32(f32::NAN)
    } else {
        R32(x)
    }
}

impl Scalar for R32 {
    // The specification members survive compilation as ordinary
    // methods; each is the same function of the operands as its
    // executable counterpart.
    fn zero_spec() -> R32 {
        R32(0.0)
    }
    fn add_spec(self, other: R32) -> R32 {
        normal32(self.0 + other.0)
    }
    fn sub_spec(self, other: R32) -> R32 {
        normal32(self.0 - other.0)
    }
    fn mul_spec(self, other: R32) -> R32 {
        normal32(self.0 * other.0)
    }
    fn div_spec(self, other: R32) -> R32 {
        normal32(self.0 / other.0)
    }
    fn sqrt_spec(self) -> R32 {
        normal32(f32::sqrt(self.0))
    }
    fn zero() -> R32 {
        R32(0.0)
    }
    fn add(self, other: R32) -> R32 {
        normal32(self.0 + other.0)
    }
    fn sub(self, other: R32) -> R32 {
        normal32(self.0 - other.0)
    }
    fn mul(self, other: R32) -> R32 {
        normal32(self.0 * other.0)
    }
    fn div(self, other: R32) -> R32 {
        normal32(self.0 / other.0)
    }
    fn sqrt(self) -> R32 {
        normal32(f32::sqrt(self.0))
    }
    fn powi(self, exponent: i32) -> R32 {
        R32(f32::powi(self.0, exponent))
    }
    fn powf(self, exponent: R32) -> R32 {
        R32(f32::powf(self.0, exponent.0))
    }
}

fn v64(xs: &[f64]) -> Vec<R64> {
    xs.iter().map(|&x| R64(x)).collect()
}

fn v32(xs: &[f32]) -> Vec<R32> {
    xs.iter().map(|&x| R32(x)).collect()
}

#[test]
fn cosine_test_same_vectors() {
    let a = v64(&[1.0, 2.0, 3.0]);
    let b = v64(&[1.0, 2.0, 3.0]);
    assert_eq!(a.cosine_similarity(b).unwrap(), R64(1.0));
}

#[test]
fn cosine_test_orthogonal_vectors() {
    let a = v64(&[1.0, 0.0, 0.0]);
    let b = v64(&[0.0, 1.0, 0.0]);
    assert_eq!(a.cosine_similarity(b).unwrap(), R64(0.0));
}

#[test]
fn test_opposite_vectors() {
    let a = v64(&[1.0, 2.0, 3.0]);
    let b = v64(&[-1.0, -2.0, -3.0]);
    assert_eq!(a.cosine_similarity(b).unwrap(), R64(-1.0));
}

#[test]
fn test_invalid_vectors() {
    let a = v64(&[1.0, 2.0]);
    let b = v64(&[1.0, 2.0, 3.0]);
    assert!(matches!(
        a.cosine_similarity(b),
        Err(CosineSimilarityError::InvalidVectors { lhs: 2, rhs: 3 })
    ));
}

#[test]
fn test_zero_vector() {
    let a = v64(&[0.0, 0.0, 0.0]);
    let b = v64(&[1.0, 2.0, 3.0]);
    let similarity = a.cosine_similarity(b);
    assert!(similarity.is_ok_and(|item: R64| item.0.is_nan()));
}

#[test]
fn test_different_ndarray_types() {
    let a = v64(&[1.0, 2.0, 3.0]);
    let b = v64(&[1.0, 2.0, 3.0]);
    assert_eq!(a.cosine_similarity(b.as_slice()).unwrap(), R64(1.0));
}

#[test]
fn euclidean_test_same_vectors() {
    let a = v64(&[1.0, 2.0, 3.0]);
    let b = v64(&[1.0, 2.0, 3.0]);
    assert_eq!(a.euclidean_distance(b).unwrap(), R64(0.0));
}

#[test]
fn euclidean_test_orthogonal_vectors() {
    let a = v64(&[1.0, 0.0, 0.0]);
    let b = v64(&[0.0, 1.0, 0.0]);
    assert_eq!(a.euclidean_distance(b).unwrap(), R64(2.0_f64.sqrt()));
}

#[test]
fn test_euclidean_invalid_vectors() {
    let a = v64(&[1.0, 2.0]);
    let b = v64(&[1.0, 2.0, 3.0]);
    assert_eq!(
        a.euclidean_distance(b),
        Err(EuclideanDistanceError::InvalidVectors { lhs: 2, rhs: 3 })
    );
}

#[test]
fn test_cosine_of_scaled_vector() {
    // Parallel vectors of different magnitude: 28 / (sqrt(14) * sqrt(56)).
    let a = v64(&[1.0, 2.0, 3.0]);
    let b = v64(&[2.0, 4.0, 6.0]);
    assert_eq!(a.cosine_similarity(b).unwrap(), R64(1.0));
}

#[test]
fn test_view_results_bit_identical() {
    let a = v64(&[0.1, 0.2, 0.3, 0.4]);
    let b = v64(&[-0.4, 0.3, 0.7, 1.1]);
    let owned = a.cosine_similarity(b.clone()).unwrap();
    let viewed = a.cosine_similarity(b.as_slice()).unwrap();
    assert_eq!(owned.0.to_bits(), viewed.0.to_bits());
    let owned_d = a.euclidean_distance(b.clone()).unwrap();
    let viewed_d = a.euclidean_distance(b.as_slice()).unwrap();
    assert_eq!(owned_d.0.to_bits(), viewed_d.0.to_bits());
}

#[test]
fn test_slice_operands() {
    let a = v64(&[1.0, 2.0, 3.0]);
    let b = v64(&[1.0, 2.0, 3.0]);
    assert_eq!(a.as_slice().cosine_similarity(b.clone()).unwrap(), R64(1.0));
    assert_eq!(a.as_slice().euclidean_distance(b.as_slice()).unwrap(), R64(0.0));
}

#[test]
fn test_empty_vectors() {
    let a: Vec<R64> = vec![];
    let b: Vec<R64> = vec![];
    assert!(a.cosine_similarity(b.clone()).unwrap().0.is_nan());
    assert_eq!(a.euclidean_distance(b).unwrap(), R64(0.0));
}

#[test]
fn test_euclidean_constant_vectors() {
    let a = v64(&vec![1.0; 512]);
    let b = v64(&vec![4.0; 512]);
    assert_eq!(a.euclidean_distance(b).unwrap(), R64(67.88225099390856));
}

#[test]
fn test_single_precision_vectors() {
    let a = v32(&[3.0, 4.0]);
    let b = v32(&[-3.0, -4.0]);
    assert_eq!(a.cosine_similarity(b).unwrap(), R32(-1.0));
    let c = v32(&[3.0, 0.0]);
    let d = v32(&[0.0, 4.0]);
    assert_eq!(c.euclidean_distance(d).unwrap(), R32(5.0));
}

#[test]
fn test_elementwise_sqrt() {
    let a = v64(&[4.0, 9.0, 2.25]);
    assert_eq!(a.sqrt(), v64(&[2.0, 3.0, 1.5]));
}

#[test]
fn test_elementwise_powi() {
    let a = v64(&[3.0, -2.0]);
    assert_eq!(a.powi(2), v64(&[9.0, 4.0]));
    assert_eq!(a.powi(0).len(), 2);
}

#[test]
fn test_elementwise_powf() {
    let a = v64(&[4.0, 16.0]);
    assert_eq!(a.powf(R64(0.5)), v64(&[2.0, 4.0]));
}

#[test]
fn test_negative_sqrt_is_nan() {
    let a = v64(&[-1.0]);
    assert!(a.sqrt()[0].0.is_nan());
}
