use vstd::prelude::*;

use crate::scalar::Scalar;

verus! {

/// The kind of data being vectorized.
#[derive(Debug, Clone, Copy, PartialEq, Eq, Structural)]
pub enum DataType {
    /// Image data.
    Image,
    /// Text data.
    Text,
    /// Audio data (reserved; no vectorization path exists for it yet).
    Audio,
    /// Video data (reserved; no vectorization path exists for it yet).
    Video,
}

/// A vectorized datum: the ordered scalar scores produced by a run, paired
/// with the original data and its kind.
///
/// A freshly constructed `Vector` holds an empty score sequence; a run
/// replaces the whole sequence at once through
/// [`VectorOperations::overwrite_vector`], never one entry at a time.
#[derive(Debug, Clone)]
pub struct Vector<T> {
    vector: Vec<Scalar>,
    data: T,
    data_type: DataType,
}

/// Shared behaviour of `Vector` values, whatever data they hold.
pub trait VectorOperations<T>: Sized {
    /// The scores held, in prompt order.
    spec fn spec_vector(&self) -> Seq<Scalar>;

    /// The original data held.
    spec fn spec_data(&self) -> T;

    /// The kind of the data held.
    spec fn spec_data_type(&self) -> DataType;

    /// Get the scores as an owned vector.
    fn get_vector(&self) -> (r: Vec<Scalar>)
        ensures
            r@ == self.spec_vector(),
    ;

    /// Get a reference to the original data.
    fn get_data(&self) -> (r: &T)
        ensures
            *r == self.spec_data(),
    ;

    /// Get the kind of the data held.
    fn get_data_type(&self) -> (r: DataType)
        ensures
            r == self.spec_data_type(),
    ;

    /// Get the number of scores held.
    fn get_dimensionality(&self) -> (r: usize)
        ensures
            r == self.spec_vector().len(),
    ;

    /// Replace the whole score sequence at once, leaving the data and its
    /// kind as they were.
    fn overwrite_vector(&mut self, vector: Vec<Scalar>)
        ensures
            final(self).spec_vector() == vector@,
            final(self).spec_data() == old(self).spec_data(),
            final(self).spec_data_type() == old(self).spec_data_type(),
    ;
}

impl<T> VectorOperations<T> for Vector<T> {
    closed spec fn spec_vector(&self) -> Seq<Scalar> {
        self.vector@
    }

    closed spec fn spec_data(&self) -> T {
        self.data
    }

    closed spec fn spec_data_type(&self) -> DataType {
        self.data_type
    }

    fn get_vector(&self) -> (r: Vec<Scalar>) {
        self.vector.clone()
    }

    fn get_data(&self) -> (r: &T) {
        &self.data
    }

    fn get_data_type(&self) -> (r: DataType) {
        self.data_type
    }

    fn get_dimensionality(&self) -> (r: usize) {
        self.vector.len()
    }

    fn overwrite_vector(&mut self, vector: Vec<Scalar>) {
        self.vector = vector;
    }
}

impl<T> Vector<T> {
    /// Initialize a vector from image data: no scores yet, kind `Image`.
    pub fn from_image(data: T) -> (r: Vector<T>)
        ensures
            r.spec_vector() == Seq::<Scalar>::empty(),
            r.spec_data() == data,
            r.spec_data_type() == DataType::Image,
    {
        Vector { vector: Vec::new(), data, data_type: DataType::Image }
    }

    /// Initialize a vector from text data: no scores yet, kind `Text`.
    pub fn from_text(data: T) -> (r: Vector<T>)
        ensures
            r.spec_vector() == Seq::<Scalar>::empty(),
            r.spec_data() == data,
            r.spec_data_type() == DataType::Text,
    {
        Vector { vector: Vec::new(), data, data_type: DataType::Text }
    }
}

} // verus!
