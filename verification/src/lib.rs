//! Hardware-independent core of a driver layer for the STM32G4 family.
//!
//! Every function here is pure: it computes which register accesses a
//! peripheral needs and decides what to do with the values the hardware
//! hands back. Performing the accesses is left to the caller, so the
//! protocols can be stated and proved without a device at hand.

use vstd::prelude::*;

pub mod fmac;
pub mod hrtim;
pub mod i2c;
pub mod independent_watchdog;
pub mod observable;
pub mod pwm;
pub mod time;

verus! {

/// Keeps a trait from being implemented outside this crate's control.
pub trait Sealed {

}

} // verus!
