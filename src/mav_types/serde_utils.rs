//! Shapes shared by the structured records.
use vstd::prelude::*;

verus! {

/// A bit-flag field, kept as its integer value.
#[derive(Debug, Clone, Copy, PartialEq, Eq, Structural)]
pub struct BitsField<T> {
    pub bits: T,
}

} // verus!
