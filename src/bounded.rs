//! A number restricted at construction to the closed range `[0, MAX]`.
use vstd::prelude::*;

verus! {

/// The raw value handed to [`BoundedUsize::new`] exceeded the bound.
#[derive(Debug, Clone, Copy, PartialEq, Eq, Structural)]
pub struct OutOfRange {
    pub value: usize,
}

/// A `usize` that is known to lie in `0..=MAX`.
#[derive(Debug, Clone, Copy)]
pub struct BoundedUsize<const MAX: usize> {
    value: usize,
}

impl<const MAX: usize> BoundedUsize<MAX> {
    /// The number as a mathematical integer.
    pub closed spec fn spec_get(&self) -> usize {
        self.value
    }

    /// Every value of this type lies within its bound.
    pub open spec fn wf(self) -> bool {
        self.spec_get() <= MAX
    }

    /// Checks `number` against the bound.
    pub fn new(number: usize) -> (r: Result<Self, OutOfRange>)
        ensures
            number <= MAX <==> r is Ok,
            r matches Ok(b) ==> b.spec_get() == number && b.wf(),
            r matches Err(e) ==> e.value == number,
    {
        if number > MAX {
            Err(OutOfRange { value: number })
        } else {
            Ok(BoundedUsize { value: number })
        }
    }

    /// The raw value.
    #[verifier::when_used_as_spec(spec_get)]
    pub fn get(&self) -> (r: usize)
        ensures
            r == self.spec_get(),
    {
        self.value
    }
}

} // verus!
