//! Samples that a ring can carry.
use vstd::prelude::*;

mod sealed;

verus! {

/// A sample: a number that the program can compute, and nothing beside it. Samples in floating
/// point travel as their bit patterns. The trait is closed to types from elsewhere.
pub trait Sample: Copy + Default + sealed::Sealed {
    /// The number that the sample is.
    spec fn number(&self) -> i128;

    /// Returns the number that the sample is.
    fn to_number(&self) -> (number: i128)
        ensures
            number == self.number(),
    ;

    /// Samples that are the same number are the same.
    proof fn lemma_same_number(a: Self, b: Self)
        ensures
            a.number() == b.number() ==> a == b,
    ;
}

impl Sample for i8 {
    open spec fn number(&self) -> i128 {
        *self as i128
    }

    fn to_number(&self) -> (number: i128)
        ensures
            number == *self,
    {
        *self as i128
    }

    proof fn lemma_same_number(a: Self, b: Self) {
    }
}

impl Sample for i16 {
    open spec fn number(&self) -> i128 {
        *self as i128
    }

    fn to_number(&self) -> (number: i128)
        ensures
            number == *self,
    {
        *self as i128
    }

    proof fn lemma_same_number(a: Self, b: Self) {
    }
}

impl Sample for i32 {
    open spec fn number(&self) -> i128 {
        *self as i128
    }

    fn to_number(&self) -> (number: i128)
        ensures
            number == *self,
    {
        *self as i128
    }

    proof fn lemma_same_number(a: Self, b: Self) {
    }
}

impl Sample for u8 {
    open spec fn number(&self) -> i128 {
        *self as i128
    }

    fn to_number(&self) -> (number: i128)
        ensures
            number == *self,
    {
        *self as i128
    }

    proof fn lemma_same_number(a: Self, b: Self) {
    }
}

impl Sample for u16 {
    open spec fn number(&self) -> i128 {
        *self as i128
    }

    fn to_number(&self) -> (number: i128)
        ensures
            number == *self,
    {
        *self as i128
    }

    proof fn lemma_same_number(a: Self, b: Self) {
    }
}

impl Sample for u32 {
    open spec fn number(&self) -> i128 {
        *self as i128
    }

    fn to_number(&self) -> (number: i128)
        ensures
            number == *self,
    {
        *self as i128
    }

    proof fn lemma_same_number(a: Self, b: Self) {
    }
}

impl Sample for u64 {
    open spec fn number(&self) -> i128 {
        *self as i128
    }

    fn to_number(&self) -> (number: i128)
        ensures
            number == *self,
    {
        *self as i128
    }

    proof fn lemma_same_number(a: Self, b: Self) {
    }
}

} // verus!
