//! What keeps the samples to the types of this crate's choice.
use vstd::prelude::*;

verus! {

/// Only the types named here can be samples: no module but that of the samples can name this trait.
pub trait Sealed {

}

impl Sealed for i8 {

}

impl Sealed for i16 {

}

impl Sealed for i32 {

}

impl Sealed for u8 {

}

impl Sealed for u16 {

}

impl Sealed for u32 {

}

impl Sealed for u64 {

}

} // verus!
