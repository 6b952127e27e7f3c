//! External events: signals from pins and comparators that the timer can
//! react to. An input is bound to a source, its sensitivity and filter
//! are chosen on a builder, and finalizing the builder gives the register
//! fields to write and a handle that names the event.

use vstd::prelude::*;
use vstd::arithmetic::power2::pow2;
use vstd::bits::lemma_u32_shl_is_mul;
use core::marker::PhantomData;
use crate::hrtim::control::HrTimCalibrated;
use crate::pwm::Polarity;

verus! {

/// Number of the first external event.
pub const FIRST_EVENT: u8 = 1;

/// Number of the last external event that has a fast mode.
pub const LAST_FAST_EVENT: u8 = 5;

/// Number of the last external event.
pub const LAST_EVENT: u8 = 10;

/// Names external event `N` once it is configured. `IS_FAST` says
/// whether the event bypasses the timer's synchronisation.
#[derive(Copy, Clone, PartialEq)]
pub struct ExternalEventSource<const N: u8, const IS_FAST: bool> {
    _x: PhantomData<()>,
}

/// The word with only bit `position` set.
fn single_bit(position: u32) -> (mask: u32)
    requires
        position < 32,
    ensures
        mask == pow2(position as nat),
{
    proof {
        vstd::bits::lemma_u32_pow2_no_overflow(position as nat);
        lemma_u32_shl_is_mul(1, position);
    }
    1u32 << position
}

impl<const N: u8, const IS_FAST: bool> ExternalEventSource<N, IS_FAST> {
    #[verifier::type_invariant]
    spec fn inv(self) -> bool {
        FIRST_EVENT <= N <= LAST_EVENT
    }

    /// The event among the sources that set or reset a timer output: bit
    /// `N + 20`, so that event 1 is bit 21.
    pub fn output_event_bits(&self) -> (bits: u32)
        ensures
            bits == pow2((N + 20) as nat),
            FIRST_EVENT <= N <= LAST_EVENT,
    {
        proof {
            use_type_invariant(self);
        }
        single_bit(N as u32 + 20)
    }

    /// The event among the triggers of a capture: bit `N + 1`, so that
    /// event 1 is bit 2.
    pub fn capture_bits(&self) -> (bits: u32)
        ensures
            bits == pow2((N + 1) as nat),
            FIRST_EVENT <= N <= LAST_EVENT,
    {
        proof {
            use_type_invariant(self);
        }
        single_bit(N as u32 + 1)
    }

    /// The event among the sources that reset a timer's counter: bit
    /// `N + 8`, so that event 1 is bit 9.
    pub fn timer_reset_bits(&self) -> (bits: u32)
        ensures
            bits == pow2((N + 8) as nat),
            FIRST_EVENT <= N <= LAST_EVENT,
    {
        proof {
            use_type_invariant(self);
        }
        single_bit(N as u32 + 8)
    }
}

/// The ten external event inputs of the timer.
pub struct EevInputs {
    pub eev_input1: EevInput<1>,
    pub eev_input2: EevInput<2>,
    pub eev_input3: EevInput<3>,
    pub eev_input4: EevInput<4>,
    pub eev_input5: EevInput<5>,
    pub eev_input6: EevInput<6>,
    pub eev_input7: EevInput<7>,
    pub eev_input8: EevInput<8>,
    pub eev_input9: EevInput<9>,
    pub eev_input10: EevInput<10>,
}

/// External event input `N`, not yet bound to a source.
pub struct EevInput<const N: u8> {
    _x: PhantomData<()>,
}

impl EevInputs {
    /// The ten inputs. They stand for the one set the timer has, so this
    /// is to be called once.
    pub fn new() -> Self {
        EevInputs {
            eev_input1: EevInput { _x: PhantomData },
            eev_input2: EevInput { _x: PhantomData },
            eev_input3: EevInput { _x: PhantomData },
            eev_input4: EevInput { _x: PhantomData },
            eev_input5: EevInput { _x: PhantomData },
            eev_input6: EevInput { _x: PhantomData },
            eev_input7: EevInput { _x: PhantomData },
            eev_input8: EevInput { _x: PhantomData },
            eev_input9: EevInput { _x: PhantomData },
            eev_input10: EevInput { _x: PhantomData },
        }
    }
}

/// This is implemented for types that can be used as inputs to the eev.
///
/// Only implement it for types that can be used as sources to eev number
/// `EEV_N` with src bits `SRC_BITS`.
pub trait EevSrcBits<const EEV_N: u8>: Sized {
    /// The value of the source field that selects this source.
    const SRC_BITS: u8;

    /// Prepares the source for being routed to the event input.
    fn cfg(self) {
    }
}

impl<const N: u8> EevInput<N> {
    /// Binds the input to `src`: prepares the source and starts a builder
    /// that is level sensitive, active high and unfiltered.
    pub fn bind<const IS_FAST: bool, SRC>(self, src: SRC) -> (builder: SourceBuilder<
        N,
        IS_FAST,
    >) where SRC: EevSrcBits<N>
        ensures
            builder@ == EventFields::initial(SRC::SRC_BITS),
    {
        src.cfg();
        SourceBuilder::new(SRC::SRC_BITS)
    }
}

/// What an event reacts to: an edge, or a level of the given polarity.
#[derive(Clone, Copy, Debug, PartialEq, Eq, Structural)]
pub enum EdgeOrPolarity {
    Edge(Edge),
    Polarity(Polarity),
}

/// The edge an edge-sensitive event reacts to.
#[derive(Clone, Copy, Debug, PartialEq, Eq, Structural)]
pub enum Edge {
    Rising,
    Falling,
    Both,
}

impl Edge {
    /// The value of the sensitivity field that selects this edge.
    pub open spec fn spec_bits(self) -> u8 {
        match self {
            Edge::Rising => 0b01,
            Edge::Falling => 0b10,
            Edge::Both => 0b11,
        }
    }

    /// The value of the sensitivity field that selects this edge.
    #[verifier::when_used_as_spec(spec_bits)]
    pub fn bits(self) -> (b: u8)
        ensures
            b == self.spec_bits(),
            1 <= b <= 3,
    {
        match self {
            Edge::Rising => 0b01,
            Edge::Falling => 0b10,
            Edge::Both => 0b11,
        }
    }
}

/// How an event input is sampled before a change counts.
#[derive(Clone, Copy, Debug, PartialEq, Eq, Structural)]
pub enum EevSamplingFilter {
    /// No filtering, fault acts asynchronously
    ///
    /// Note that this bypasses any f_eevs (FaultSamplingClkDiv)
    Unfiltered,
    /// Sample directly at rate f_hrtim, with a count of 2
    ///
    /// Note that this bypasses: any f_eevs (FaultSamplingClkDiv)
    HrtimN2,
    /// Sample directly at rate f_hrtim, with a count of 4
    ///
    /// Note that this bypasses any f_eevs (FaultSamplingClkDiv)
    HrtimN4,
    /// Sample directly at rate f_hrtim, with a count of 8
    ///
    /// Note that this bypasses any f_eevs (FaultSamplingClkDiv)
    HrtimN8,
    /// Sample at rate f_eevs / 2, with a count of 6
    EevsDiv2N6,
    /// Sample at rate f_eevs / 2, with a count of 8
    EevsDiv2N8,
    /// Sample at rate f_eevs / 4, with a count of 6
    EevsDiv4N6,
    /// Sample at rate f_eevs / 4, with a count of 8
    EevsDiv4N8,
    /// Sample at rate f_eevs / 8, with a count of 6
    EevsDiv8N6,
    /// Sample at rate f_eevs / 8, with a count of 8
    EevsDiv8N8,
    /// Sample at rate f_eevs / 16, with a count of 5
    EevsDiv16N5,
    /// Sample at rate f_eevs / 16, with a count of 6
    EevsDiv16N6,
    /// Sample at rate f_eevs / 16, with a count of 8
    EevsDiv16N8,
    /// Sample at rate f_eevs / 32, with a count of 5
    EevsDiv32N5,
    /// Sample at rate f_eevs / 32, with a count of 6
    EevsDiv32N6,
    /// Sample at rate f_eevs / 32, with a count of 8
    EevsDiv32N8,
}

impl EevSamplingFilter {
    /// The value of the filter field that selects this filter.
    pub open spec fn spec_bits(self) -> u8 {
        match self {
            EevSamplingFilter::Unfiltered => 0b0000,
            EevSamplingFilter::HrtimN2 => 0b0001,
            EevSamplingFilter::HrtimN4 => 0b0010,
            EevSamplingFilter::HrtimN8 => 0b0011,
            EevSamplingFilter::EevsDiv2N6 => 0b0100,
            EevSamplingFilter::EevsDiv2N8 => 0b0101,
            EevSamplingFilter::EevsDiv4N6 => 0b0110,
            EevSamplingFilter::EevsDiv4N8 => 0b0111,
            EevSamplingFilter::EevsDiv8N6 => 0b1000,
            EevSamplingFilter::EevsDiv8N8 => 0b1001,
            EevSamplingFilter::EevsDiv16N5 => 0b1010,
            EevSamplingFilter::EevsDiv16N6 => 0b1011,
            EevSamplingFilter::EevsDiv16N8 => 0b1100,
            EevSamplingFilter::EevsDiv32N5 => 0b1101,
            EevSamplingFilter::EevsDiv32N6 => 0b1110,
            EevSamplingFilter::EevsDiv32N8 => 0b1111,
        }
    }

    /// The value of the filter field that selects this filter.
    #[verifier::when_used_as_spec(spec_bits)]
    pub fn bits(self) -> (b: u8)
        ensures
            b == self.spec_bits(),
            b <= 15,
    {
        match self {
            EevSamplingFilter::Unfiltered => 0b0000,
            EevSamplingFilter::HrtimN2 => 0b0001,
            EevSamplingFilter::HrtimN4 => 0b0010,
            EevSamplingFilter::HrtimN8 => 0b0011,
            EevSamplingFilter::EevsDiv2N6 => 0b0100,
            EevSamplingFilter::EevsDiv2N8 => 0b0101,
            EevSamplingFilter::EevsDiv4N6 => 0b0110,
            EevSamplingFilter::EevsDiv4N8 => 0b0111,
            EevSamplingFilter::EevsDiv8N6 => 0b1000,
            EevSamplingFilter::EevsDiv8N8 => 0b1001,
            EevSamplingFilter::EevsDiv16N5 => 0b1010,
            EevSamplingFilter::EevsDiv16N6 => 0b1011,
            EevSamplingFilter::EevsDiv16N8 => 0b1100,
            EevSamplingFilter::EevsDiv32N5 => 0b1101,
            EevSamplingFilter::EevsDiv32N6 => 0b1110,
            EevSamplingFilter::EevsDiv32N8 => 0b1111,
        }
    }
}

/// The register fields of one external event.
#[derive(Clone, Copy, Debug, PartialEq, Eq, Structural)]
pub struct EventFields {
    /// Source selection.
    pub src_bits: u8,
    /// Sensitivity: zero for level, else the edge.
    pub edge_or_polarity_bits: u8,
    /// Polarity of a level-sensitive event: set for active low.
    pub polarity_bit: bool,
    /// Sampling filter.
    pub filter_bits: u8,
}

impl EventFields {
    /// The fields a fresh builder starts from: level sensitive, active
    /// high, no filter.
    pub open spec fn initial(src_bits: u8) -> EventFields {
        EventFields { src_bits, edge_or_polarity_bits: 0, polarity_bit: false, filter_bits: 0 }
    }

    /// The sensitivity and polarity fields for `choice`.
    pub open spec fn sensing(choice: EdgeOrPolarity) -> (u8, bool) {
        match choice {
            EdgeOrPolarity::Polarity(Polarity::ActiveHigh) => (0b00, false),
            EdgeOrPolarity::Polarity(Polarity::ActiveLow) => (0b00, true),
            EdgeOrPolarity::Edge(edge) => (edge.spec_bits(), false),
        }
    }
}

/// One register update of an external event configuration.
#[derive(Clone, Copy, Debug, PartialEq, Eq, Structural)]
pub enum Command {
    /// Update the fields of event `event`, one of the first five, in the
    /// first event control register.
    ConfigureFastCapable {
        event: u8,
        src_bits: u8,
        polarity_bit: bool,
        sensitivity_bits: u8,
        fast: bool,
    },
    /// Update the fields of event `event`, one of the last five, in the
    /// second event control register.
    ConfigureFiltered { event: u8, src_bits: u8, polarity_bit: bool, sensitivity_bits: u8 },
    /// Update the filter field of event `event`, one of the last five, in
    /// the third event control register.
    SetFilter { event: u8, filter_bits: u8 },
}

/// Builders for events 1 to 5, which have a fast mode and no filter.
pub trait ExternalEventBuilder1To5 {

}

/// Builders for events 6 to 10, which have a filter and no fast mode.
pub trait ExternalEventBuilder6To10 {

}

/// Collects the settings of external event `N` before they are written.
pub struct SourceBuilder<const N: u8, const IS_FAST: bool> {
    /// EExSRC
    src_bits: u8,
    /// EExSNS
    edge_or_polarity_bits: u8,
    /// EExPOL
    polarity_bit: bool,
    /// EExF
    filter_bits: u8,
}

impl<const N: u8, const IS_FAST: bool> View for SourceBuilder<N, IS_FAST> {
    type V = EventFields;

    /// The register fields chosen so far.
    closed spec fn view(&self) -> EventFields {
        EventFields {
            src_bits: self.src_bits,
            edge_or_polarity_bits: self.edge_or_polarity_bits,
            polarity_bit: self.polarity_bit,
            filter_bits: self.filter_bits,
        }
    }
}

impl<const N: u8, const IS_FAST: bool> SourceBuilder<N, IS_FAST> {
    fn new(src_bits: u8) -> (builder: Self)
        ensures
            builder@ == EventFields::initial(src_bits),
    {
        Self {
            src_bits,
            edge_or_polarity_bits: 0,  // Level sensitive
            polarity_bit: false,  // Active high
            filter_bits: 0,  // No filter
        }
    }

    /// The register fields chosen so far.
    pub fn fields(&self) -> (fields: EventFields)
        ensures
            fields == self@,
    {
        EventFields {
            src_bits: self.src_bits,
            edge_or_polarity_bits: self.edge_or_polarity_bits,
            polarity_bit: self.polarity_bit,
            filter_bits: self.filter_bits,
        }
    }
}

impl<const N: u8> SourceBuilder<N, false> {
    /// Chooses what the event reacts to. An edge leaves the polarity
    /// field clear.
    pub fn edge_or_polarity(self, edge_or_polarity: EdgeOrPolarity) -> (builder: Self)
        ensures
            builder@ == (EventFields {
                edge_or_polarity_bits: EventFields::sensing(edge_or_polarity).0,
                polarity_bit: EventFields::sensing(edge_or_polarity).1,
                ..self@
            }),
    {
        let (edge_or_polarity_bits, polarity_bit) = match edge_or_polarity {
            EdgeOrPolarity::Polarity(Polarity::ActiveHigh) => (0b00, false),
            EdgeOrPolarity::Polarity(Polarity::ActiveLow) => (0b00, true),
            EdgeOrPolarity::Edge(Edge::Rising) => (0b01, false),
            EdgeOrPolarity::Edge(Edge::Falling) => (0b10, false),
            EdgeOrPolarity::Edge(Edge::Both) => (0b11, false),
        };
        SourceBuilder {
            src_bits: self.src_bits,
            edge_or_polarity_bits,
            polarity_bit,
            filter_bits: self.filter_bits,
        }
    }
}

impl<const N: u8> SourceBuilder<N, true> {
    /// Edge sensitivity not available in fast mode
    pub fn polarity(self, polarity: Polarity) -> (builder: Self)
        ensures
            builder@ == (EventFields {
                edge_or_polarity_bits: 0,
                polarity_bit: polarity == Polarity::ActiveLow,
                ..self@
            }),
    {
        let (edge_or_polarity_bits, polarity_bit) = match polarity {
            Polarity::ActiveHigh => (0b00, false),
            Polarity::ActiveLow => (0b00, true),
        };
        SourceBuilder {
            src_bits: self.src_bits,
            edge_or_polarity_bits,
            polarity_bit,
            filter_bits: self.filter_bits,
        }
    }
}

impl<const N: u8> SourceBuilder<N, false> where SourceBuilder<N, false>: ExternalEventBuilder6To10 {
    /// Chooses the sampling filter.
    pub fn filter(self, filter: EevSamplingFilter) -> (builder: Self)
        ensures
            builder@ == (EventFields { filter_bits: filter.spec_bits(), ..self@ }),
    {
        SourceBuilder {
            src_bits: self.src_bits,
            edge_or_polarity_bits: self.edge_or_polarity_bits,
            polarity_bit: self.polarity_bit,
            filter_bits: filter.bits(),
        }
    }
}

/// The register updates that configure one of events 1 to 5.
pub open spec fn fast_capable_program(event: u8, fields: EventFields, fast: bool) -> Seq<Command> {
    seq![
        Command::ConfigureFastCapable {
            event,
            src_bits: fields.src_bits,
            polarity_bit: fields.polarity_bit,
            sensitivity_bits: fields.edge_or_polarity_bits,
            fast,
        },
    ]
}

/// The register updates that configure one of events 6 to 10.
pub open spec fn filtered_program(event: u8, fields: EventFields) -> Seq<Command> {
    seq![
        Command::ConfigureFiltered {
            event,
            src_bits: fields.src_bits,
            polarity_bit: fields.polarity_bit,
            sensitivity_bits: fields.edge_or_polarity_bits,
        },
        Command::SetFilter { event, filter_bits: fields.filter_bits },
    ]
}

/// A builder that can be turned into a configured event.
pub trait ToExternalEventSource<const N: u8, const IS_FAST: bool>: Sized {
    /// The register updates that carry out what the builder holds.
    spec fn program(self) -> Seq<Command>;

    /// Ends the configuration: gives the handle of the event and the
    /// register updates to perform. The capability shows that the
    /// registers may be written.
    fn finalize(self, _calibrated: &mut HrTimCalibrated) -> (event: (
        ExternalEventSource<N, IS_FAST>,
        Vec<Command>,
    ))
        ensures
            event.1@ == self.program(),
    ;
}

impl<const N: u8, const IS_FAST: bool> SourceBuilder<N, IS_FAST> {
    fn finalize_fast_capable(self) -> (event: (ExternalEventSource<N, IS_FAST>, Vec<Command>))
        requires
            FIRST_EVENT <= N <= LAST_FAST_EVENT,
        ensures
            event.1@ == fast_capable_program(N, self@, IS_FAST),
    {
        let mut program: Vec<Command> = Vec::new();
        program.push(
            Command::ConfigureFastCapable {
                event: N,
                src_bits: self.src_bits,
                polarity_bit: self.polarity_bit,
                sensitivity_bits: self.edge_or_polarity_bits,
                fast: IS_FAST,
            },
        );
        (ExternalEventSource { _x: PhantomData }, program)
    }

    fn finalize_filtered(self) -> (event: (ExternalEventSource<N, IS_FAST>, Vec<Command>))
        requires
            LAST_FAST_EVENT < N <= LAST_EVENT,
        ensures
            event.1@ == filtered_program(N, self@),
    {
        let mut program: Vec<Command> = Vec::new();
        program.push(
            Command::ConfigureFiltered {
                event: N,
                src_bits: self.src_bits,
                polarity_bit: self.polarity_bit,
                sensitivity_bits: self.edge_or_polarity_bits,
            },
        );
        program.push(Command::SetFilter { event: N, filter_bits: self.filter_bits });
        (ExternalEventSource { _x: PhantomData }, program)
    }

    fn into_fast(self) -> (builder: SourceBuilder<N, true>)
        ensures
            builder@ == self@,
    {
        SourceBuilder {
            src_bits: self.src_bits,
            edge_or_polarity_bits: self.edge_or_polarity_bits,
            polarity_bit: self.polarity_bit,
            filter_bits: self.filter_bits,
        }
    }
}

impl<const IS_FAST: bool> ExternalEventBuilder1To5 for SourceBuilder<1, IS_FAST> {

}

impl SourceBuilder<1, false> {
    /// Switches event 1 to fast mode, keeping what was chosen.
    pub fn fast(self) -> (builder: SourceBuilder<1, true>)
        ensures
            builder@ == self@,
    {
        self.into_fast()
    }
}

impl<const IS_FAST: bool> ToExternalEventSource<1, IS_FAST> for SourceBuilder<1, IS_FAST> {
    open spec fn program(self) -> Seq<Command> {
        fast_capable_program(1, self@, IS_FAST)
    }

    fn finalize(self, _calibrated: &mut HrTimCalibrated) -> (event: (
        ExternalEventSource<1, IS_FAST>,
        Vec<Command>,
    )) {
        self.finalize_fast_capable()
    }
}

impl<const IS_FAST: bool> ExternalEventBuilder1To5 for SourceBuilder<2, IS_FAST> {

}

impl SourceBuilder<2, false> {
    /// Switches event 2 to fast mode, keeping what was chosen.
    pub fn fast(self) -> (builder: SourceBuilder<2, true>)
        ensures
            builder@ == self@,
    {
        self.into_fast()
    }
}

impl<const IS_FAST: bool> ToExternalEventSource<2, IS_FAST> for SourceBuilder<2, IS_FAST> {
    open spec fn program(self) -> Seq<Command> {
        fast_capable_program(2, self@, IS_FAST)
    }

    fn finalize(self, _calibrated: &mut HrTimCalibrated) -> (event: (
        ExternalEventSource<2, IS_FAST>,
        Vec<Command>,
    )) {
        self.finalize_fast_capable()
    }
}

impl<const IS_FAST: bool> ExternalEventBuilder1To5 for SourceBuilder<3, IS_FAST> {

}

impl SourceBuilder<3, false> {
    /// Switches event 3 to fast mode, keeping what was chosen.
    pub fn fast(self) -> (builder: SourceBuilder<3, true>)
        ensures
            builder@ == self@,
    {
        self.into_fast()
    }
}

impl<const IS_FAST: bool> ToExternalEventSource<3, IS_FAST> for SourceBuilder<3, IS_FAST> {
    open spec fn program(self) -> Seq<Command> {
        fast_capable_program(3, self@, IS_FAST)
    }

    fn finalize(self, _calibrated: &mut HrTimCalibrated) -> (event: (
        ExternalEventSource<3, IS_FAST>,
        Vec<Command>,
    )) {
        self.finalize_fast_capable()
    }
}

impl<const IS_FAST: bool> ExternalEventBuilder1To5 for SourceBuilder<4, IS_FAST> {

}

impl SourceBuilder<4, false> {
    /// Switches event 4 to fast mode, keeping what was chosen.
    pub fn fast(self) -> (builder: SourceBuilder<4, true>)
        ensures
            builder@ == self@,
    {
        self.into_fast()
    }
}

impl<const IS_FAST: bool> ToExternalEventSource<4, IS_FAST> for SourceBuilder<4, IS_FAST> {
    open spec fn program(self) -> Seq<Command> {
        fast_capable_program(4, self@, IS_FAST)
    }

    fn finalize(self, _calibrated: &mut HrTimCalibrated) -> (event: (
        ExternalEventSource<4, IS_FAST>,
        Vec<Command>,
    )) {
        self.finalize_fast_capable()
    }
}

impl<const IS_FAST: bool> ExternalEventBuilder1To5 for SourceBuilder<5, IS_FAST> {

}

impl SourceBuilder<5, false> {
    /// Switches event 5 to fast mode, keeping what was chosen.
    pub fn fast(self) -> (builder: SourceBuilder<5, true>)
        ensures
            builder@ == self@,
    {
        self.into_fast()
    }
}

impl<const IS_FAST: bool> ToExternalEventSource<5, IS_FAST> for SourceBuilder<5, IS_FAST> {
    open spec fn program(self) -> Seq<Command> {
        fast_capable_program(5, self@, IS_FAST)
    }

    fn finalize(self, _calibrated: &mut HrTimCalibrated) -> (event: (
        ExternalEventSource<5, IS_FAST>,
        Vec<Command>,
    )) {
        self.finalize_fast_capable()
    }
}

impl ExternalEventBuilder6To10 for SourceBuilder<6, false> {

}

impl ToExternalEventSource<6, false> for SourceBuilder<6, false> {
    open spec fn program(self) -> Seq<Command> {
        filtered_program(6, self@)
    }

    fn finalize(self, _calibrated: &mut HrTimCalibrated) -> (event: (
        ExternalEventSource<6, false>,
        Vec<Command>,
    )) {
        self.finalize_filtered()
    }
}

impl ExternalEventBuilder6To10 for SourceBuilder<7, false> {

}

impl ToExternalEventSource<7, false> for SourceBuilder<7, false> {
    open spec fn program(self) -> Seq<Command> {
        filtered_program(7, self@)
    }

    fn finalize(self, _calibrated: &mut HrTimCalibrated) -> (event: (
        ExternalEventSource<7, false>,
        Vec<Command>,
    )) {
        self.finalize_filtered()
    }
}

impl ExternalEventBuilder6To10 for SourceBuilder<8, false> {

}

impl ToExternalEventSource<8, false> for SourceBuilder<8, false> {
    open spec fn program(self) -> Seq<Command> {
        filtered_program(8, self@)
    }

    fn finalize(self, _calibrated: &mut HrTimCalibrated) -> (event: (
        ExternalEventSource<8, false>,
        Vec<Command>,
    )) {
        self.finalize_filtered()
    }
}

impl ExternalEventBuilder6To10 for SourceBuilder<9, false> {

}

impl ToExternalEventSource<9, false> for SourceBuilder<9, false> {
    open spec fn program(self) -> Seq<Command> {
        filtered_program(9, self@)
    }

    fn finalize(self, _calibrated: &mut HrTimCalibrated) -> (event: (
        ExternalEventSource<9, false>,
        Vec<Command>,
    )) {
        self.finalize_filtered()
    }
}

impl ExternalEventBuilder6To10 for SourceBuilder<10, false> {

}

impl ToExternalEventSource<10, false> for SourceBuilder<10, false> {
    open spec fn program(self) -> Seq<Command> {
        filtered_program(10, self@)
    }

    fn finalize(self, _calibrated: &mut HrTimCalibrated) -> (event: (
        ExternalEventSource<10, false>,
        Vec<Command>,
    )) {
        self.finalize_filtered()
    }
}

} // verus!
