//! A gravity-direction component for entities of a physics simulation.
//!
//! The direction is a plain vector, stored as given: nothing normalises it, so
//! its length may carry a magnitude as well. Its coordinates are held as the
//! bit patterns of single-precision IEEE-754 numbers, so every value, NaN and
//! the infinities included, is stored and read back exactly.
//!
//! A simulation is either planar or spatial: [`planar`] holds the component
//! for two axes, [`spatial`] the one for three.
use vstd::prelude::*;

pub mod planar;
pub mod spatial;

verus! {

/// One coordinate: the bit pattern of a single-precision IEEE-754 number.
pub type Scalar = u32;

} // verus!
