//! The output description that an example is created with.

use vstd::prelude::*;

verus! {

/// Logical output size for the example.
#[derive(Clone, Copy, Debug, PartialEq, Eq, Structural)]
pub struct ExampleSize {
    pub width: u32,
    pub height: u32,
}

impl ExampleSize {
    pub fn new(width: u32, height: u32) -> (size: Self)
        ensures
            size == (ExampleSize { width, height }),
    {
        Self { width, height }
    }
}

} // verus!
