//! Capabilities over the timer as a whole.

use vstd::prelude::*;

verus! {

/// Proof that the timer has been calibrated and that none of its
/// sub-timers runs yet, so that its common registers may be written.
pub struct HrTimCalibrated {
    _owned: (),
}

impl HrTimCalibrated {
    /// The capability, to be made once calibration has finished.
    pub fn new() -> HrTimCalibrated {
        HrTimCalibrated { _owned: () }
    }
}

} // verus!
