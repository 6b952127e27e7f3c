//! Signal conventions shared by the timer peripherals.

use vstd::prelude::*;

verus! {

/// Which level of a signal counts as active.
#[derive(Clone, Copy, Debug, PartialEq, Eq, Structural)]
pub enum Polarity {
    ActiveHigh,
    ActiveLow,
}

} // verus!
