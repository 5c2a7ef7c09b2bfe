//! Integer geometry shared by image buffers.

use vstd::prelude::*;

verus! {

/// A horizontal and vertical pixel offset.
#[derive(Clone, Copy, Debug, PartialEq, Eq, Structural)]
pub struct Offset {
    pub h: i32,
    pub v: i32,
}

} // verus!
