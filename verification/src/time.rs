//! Frequency values.

use vstd::prelude::*;

verus! {

/// A frequency in cycles per second.
#[derive(Clone, Copy, Debug, PartialEq, Eq, Structural)]
pub struct Hertz(pub u32);

impl Hertz {
    /// Wraps a raw cycles-per-second count.
    pub fn new(raw: u32) -> (r: Hertz)
        ensures
            r.0 == raw,
    {
        Hertz(raw)
    }
}

} // verus!
