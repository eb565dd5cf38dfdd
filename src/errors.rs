use vstd::prelude::*;

verus! {

/// A byte sequence of the wrong size was presented where a fixed-size value
/// was expected.
#[derive(Clone, Copy, Debug, PartialEq, Eq, Structural)]
pub struct InvalidLength {
    /// The length that was required.
    pub expected: usize,
    /// The length that was found.
    pub actual: usize,
}

impl InvalidLength {
    /// Records a mismatch between the required and the observed length.
    pub fn new(expected: usize, actual: usize) -> (r: Self)
        ensures
            r.expected == expected,
            r.actual == actual,
    {
        InvalidLength { expected, actual }
    }
}

} // verus!
