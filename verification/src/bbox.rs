//! The bounding-box record attached to each detection: geometry in the input
//! image's pixel space plus a confidence score. Scalars are carried in fixed
//! point, as thousandths, so a coordinate of 12500 stands for 12.5 pixels and
//! a confidence of 1000 stands for a score of 1.

use vstd::prelude::*;

verus! {

/// Fixed-point denominator: all scalar fields count thousandths.
pub const MILLI: u32 = 1000;

/// One detection's geometry and score, in thousandths.
#[derive(Clone, Copy, Debug, PartialEq, Eq, Structural)]
pub struct Bbox {
    pub xmin: u32,
    pub ymin: u32,
    pub xmax: u32,
    pub ymax: u32,
    pub confidence: u32,
}

impl Bbox {
    /// The record's invariant: the box does not fold over itself and the
    /// score lies in [0, 1].
    pub open spec fn well_formed(self) -> bool {
        self.xmin <= self.xmax && self.ymin <= self.ymax && self.confidence <= MILLI
    }

    /// Builds a well-formed box from its five scalars, given in thousandths.
    pub fn new(xmin: u32, ymin: u32, xmax: u32, ymax: u32, confidence: u32) -> (r: Bbox)
        requires
            xmin <= xmax,
            ymin <= ymax,
            confidence <= MILLI,
        ensures
            r == (Bbox { xmin, ymin, xmax, ymax, confidence }),
            r.well_formed(),
    {
        Bbox { xmin, ymin, xmax, ymax, confidence }
    }
}

} // verus!
