//! Frequencies and durations.

use vstd::prelude::*;
use vstd::std_specs::convert::FromSpecImpl;

verus! {

/// A frequency in hertz.
#[derive(Clone, Copy, Debug, PartialEq, Eq, Structural)]
pub struct Hertz {
    /// The number of hertz.
    pub raw: u32,
}

impl View for Hertz {
    type V = nat;

    /// The number of hertz.
    open spec fn view(&self) -> nat {
        self.raw as nat
    }
}

impl Hertz {
    /// The frequency of `raw` hertz.
    pub fn from_raw(raw: u32) -> (f: Hertz)
        ensures
            f == (Hertz { raw }),
    {
        Hertz { raw }
    }

    /// The number of hertz.
    pub fn raw(&self) -> (raw: u32)
        ensures
            raw == self.raw,
    {
        self.raw
    }
}

impl From<u32> for Hertz {
    fn from(raw: u32) -> (f: Hertz) {
        Hertz { raw }
    }
}

impl FromSpecImpl<u32> for Hertz {
    open spec fn obeys_from_spec() -> bool {
        true
    }

    open spec fn from_spec(raw: u32) -> Hertz {
        Hertz { raw }
    }
}

/// A duration in milliseconds.
#[derive(Clone, Copy, Debug, PartialEq, Eq, Structural)]
pub struct MilliSecond {
    /// The number of milliseconds.
    pub millis: u32,
}

impl View for MilliSecond {
    type V = nat;

    /// The number of milliseconds.
    open spec fn view(&self) -> nat {
        self.millis as nat
    }
}

impl MilliSecond {
    /// The duration of `millis` milliseconds.
    pub fn from_millis(millis: u32) -> (d: MilliSecond)
        ensures
            d == (MilliSecond { millis }),
    {
        MilliSecond { millis }
    }

    /// The number of milliseconds.
    pub fn to_millis(&self) -> (millis: u32)
        ensures
            millis == self.millis,
    {
        self.millis
    }
}

impl From<u32> for MilliSecond {
    fn from(millis: u32) -> (d: MilliSecond) {
        MilliSecond { millis }
    }
}

impl FromSpecImpl<u32> for MilliSecond {
    open spec fn obeys_from_spec() -> bool {
        true
    }

    open spec fn from_spec(millis: u32) -> MilliSecond {
        MilliSecond { millis }
    }
}

} // verus!
