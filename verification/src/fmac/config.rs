//! Filter configurations and the rules they must meet.

use vstd::prelude::*;
use crate::fmac::layout::regions_fit;
use crate::fmac::sample::Sample;

verus! {

/// Output gain applied by the accelerator after accumulation, a power of
/// two.
#[derive(Clone, Copy, Debug, PartialEq, Eq, Structural)]
pub enum Gain {
    X1,
    X2,
    X4,
    X8,
    X16,
    X32,
    X64,
    X128,
}

impl Gain {
    /// The exponent `R` of the gain `2^R`.
    pub open spec fn spec_exponent(self) -> u8 {
        match self {
            Gain::X1 => 0,
            Gain::X2 => 1,
            Gain::X4 => 2,
            Gain::X8 => 3,
            Gain::X16 => 4,
            Gain::X32 => 5,
            Gain::X64 => 6,
            Gain::X128 => 7,
        }
    }

    /// The exponent `R` of the gain `2^R`, as written to the gain field.
    #[verifier::when_used_as_spec(spec_exponent)]
    pub fn exponent(self) -> (r: u8)
        ensures
            r == self.spec_exponent(),
            r <= 7,
    {
        match self {
            Gain::X1 => 0,
            Gain::X2 => 1,
            Gain::X4 => 2,
            Gain::X8 => 3,
            Gain::X16 => 4,
            Gain::X32 => 5,
            Gain::X64 => 6,
            Gain::X128 => 7,
        }
    }
}

/// Fewest feed-forward taps a filter can have.
pub const MIN_TAPS: usize = 2;

/// Most taps a FIR filter can have.
pub const MAX_FIR_TAPS: usize = 127;

/// Most feed-forward taps an IIR filter can have.
pub const MAX_IIR_TAPS: usize = 64;

/// The rule for the buffer lengths of a FIR filter: as many initial
/// samples as taps, between 2 and 127 of them, and room for the output
/// buffer behind them.
pub open spec fn fir_lengths_ok(x1: nat, x2: nat, y: nat) -> bool {
    &&& x1 == x2
    &&& MIN_TAPS <= x1 <= MAX_FIR_TAPS
    &&& regions_fit(x1, x2, y)
}

/// The rule for the buffer lengths of an IIR filter with `b` feed-forward
/// and `a` feed-back taps, `x1` initial samples and `y` initial outputs.
pub open spec fn iir_lengths_ok(x1: nat, b: nat, a: nat, y: nat) -> bool {
    &&& MIN_TAPS <= b <= MAX_IIR_TAPS
    &&& 1 <= a <= b - 1
    &&& b + a <= 255
    &&& x1 == b
    &&& y == a
    &&& x1 + b + a + y <= 256
}

/// Whether the buffer lengths of a FIR filter meet [`fir_lengths_ok`].
pub fn fir_lengths_valid(x1: usize, x2: usize, y: usize) -> (ok: bool)
    ensures
        ok == fir_lengths_ok(x1 as nat, x2 as nat, y as nat),
{
    x1 == x2 && MIN_TAPS <= x1 && x1 <= MAX_FIR_TAPS && y <= 255 && x1 + x2 + y <= 256
}

/// Whether the buffer lengths of an IIR filter meet [`iir_lengths_ok`].
pub fn iir_lengths_valid(x1: usize, b: usize, a: usize, y: usize) -> (ok: bool)
    ensures
        ok == iir_lengths_ok(x1 as nat, b as nat, a as nat, y as nat),
{
    MIN_TAPS <= b && b <= MAX_IIR_TAPS && 1 <= a && a <= b - 1 && x1 == b && y == a
}

/// The tap counts of an IIR filter bound the memory it needs: with as many
/// initial samples as feed-forward taps and as many initial outputs as
/// feed-back taps, a filter whose tap counts are in range always fits.
pub proof fn lemma_iir_tap_bounds_suffice(b: nat, a: nat)
    requires
        2 <= b <= 64,
        1 <= a < b,
        b + a <= 255,
    ensures
        iir_lengths_ok(b, b, a, a),
        regions_fit(b, b + a, a),
{
}

/// A valid IIR filter's regions fit the buffer memory.
pub proof fn lemma_iir_regions_fit(x1: nat, b: nat, a: nat, y: nat)
    requires
        iir_lengths_ok(x1, b, a, y),
    ensures
        regions_fit(x1, b + a, y),
{
}

/// Initial buffer contents and gain of an IIR filter.
///
/// A value of this type always meets [`iir_lengths_ok`].
#[derive(Clone, Copy)]
pub struct IirConfig<'a, 'b, 'c, 'd> {
    initial_x1: &'a [Sample],
    initial_b: &'b [Sample],
    initial_a: &'c [Sample],
    initial_y: &'d [Sample],
    r: Gain,
}

impl<'a, 'b, 'c, 'd> IirConfig<'a, 'b, 'c, 'd> {
    /// The initial input samples.
    pub closed spec fn x1(&self) -> Seq<Sample> {
        self.initial_x1@
    }

    /// The feed-forward taps.
    pub closed spec fn b(&self) -> Seq<Sample> {
        self.initial_b@
    }

    /// The feed-back taps.
    pub closed spec fn a(&self) -> Seq<Sample> {
        self.initial_a@
    }

    /// The initial output history.
    pub closed spec fn y(&self) -> Seq<Sample> {
        self.initial_y@
    }

    /// The output gain.
    pub closed spec fn gain(&self) -> Gain {
        self.r
    }

    /// The length rule, which every configuration meets.
    pub open spec fn wf(&self) -> bool {
        iir_lengths_ok(
            self.x1().len(),
            self.b().len(),
            self.a().len(),
            self.y().len(),
        )
    }

    #[verifier::type_invariant]
    spec fn inv(&self) -> bool {
        self.wf()
    }

    /// A configuration from buffers whose lengths meet the rule.
    pub fn new(
        initial_x1: &'a [Sample],
        initial_b: &'b [Sample],
        initial_a: &'c [Sample],
        initial_y: &'d [Sample],
        r: Gain,
    ) -> (cfg: Self)
        requires
            iir_lengths_ok(
                initial_x1@.len(),
                initial_b@.len(),
                initial_a@.len(),
                initial_y@.len(),
            ),
        ensures
            cfg.wf(),
            cfg.x1() == initial_x1@,
            cfg.b() == initial_b@,
            cfg.a() == initial_a@,
            cfg.y() == initial_y@,
            cfg.gain() == r,
    {
        IirConfig { initial_x1, initial_b, initial_a, initial_y, r }
    }

    /// A configuration from the given buffers, or `None` when their
    /// lengths break the rule.
    pub fn try_new(
        initial_x1: &'a [Sample],
        initial_b: &'b [Sample],
        initial_a: &'c [Sample],
        initial_y: &'d [Sample],
        r: Gain,
    ) -> (cfg: Option<Self>)
        ensures
            cfg.is_some() <==> iir_lengths_ok(
                initial_x1@.len(),
                initial_b@.len(),
                initial_a@.len(),
                initial_y@.len(),
            ),
            cfg matches Some(c) ==> {
                &&& c.wf()
                &&& c.x1() == initial_x1@
                &&& c.b() == initial_b@
                &&& c.a() == initial_a@
                &&& c.y() == initial_y@
                &&& c.gain() == r
            },
    {
        if iir_lengths_valid(
            initial_x1.len(),
            initial_b.len(),
            initial_a.len(),
            initial_y.len(),
        ) {
            Some(Self::new(initial_x1, initial_b, initial_a, initial_y, r))
        } else {
            None
        }
    }

    /// The initial input samples.
    pub fn initial_x1(&self) -> (s: &'a [Sample])
        ensures
            s@ == self.x1(),
            self.wf(),
    {
        proof {
            use_type_invariant(self);
        }
        self.initial_x1
    }

    /// The feed-forward taps.
    pub fn initial_b(&self) -> (s: &'b [Sample])
        ensures
            s@ == self.b(),
            self.wf(),
    {
        proof {
            use_type_invariant(self);
        }
        self.initial_b
    }

    /// The feed-back taps.
    pub fn initial_a(&self) -> (s: &'c [Sample])
        ensures
            s@ == self.a(),
            self.wf(),
    {
        proof {
            use_type_invariant(self);
        }
        self.initial_a
    }

    /// The initial output history.
    pub fn initial_y(&self) -> (s: &'d [Sample])
        ensures
            s@ == self.y(),
            self.wf(),
    {
        proof {
            use_type_invariant(self);
        }
        self.initial_y
    }

    /// The output gain.
    pub fn r(&self) -> (g: Gain)
        ensures
            g == self.gain(),
    {
        self.r
    }
}

} // verus!
