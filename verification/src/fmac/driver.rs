//! Configuring the accelerator as a filter and talking to the running
//! filter.

use vstd::prelude::*;
use core::marker::PhantomData;
use crate::fmac::command::{buffers_load, init_buffers, Command, Function};
use crate::fmac::config::{fir_lengths_ok, fir_lengths_valid, Gain, IirConfig};
use crate::fmac::layout::MemoryMap;
use crate::fmac::sample::Sample;
use crate::fmac::transfer::Transfer;

verus! {

/// Marks a direction of a filter that is served by polling the status
/// register.
pub struct Poll;

/// Exclusive ownership of the accelerator while it is not configured.
///
/// Configuring consumes the value, so one accelerator runs one filter.
pub struct Fmac {
    _owned: (),
}

/// A filter handle together with the program that brings the accelerator
/// into the state the handle speaks for. The program must be carried out,
/// in order and in full, before the handle is used.
pub struct Setup<H> {
    /// The configured filter.
    pub handle: H,
    /// The register accesses that configure it.
    pub program: Vec<Command>,
}

/// The accelerator running a FIR filter. `RMODE` and `WMODE` say how
/// results are taken and samples are given.
pub struct Fir<RMODE, WMODE> {
    _rmode: PhantomData<RMODE>,
    _wmode: PhantomData<WMODE>,
    fmac: Fmac,
    map: MemoryMap,
}

/// The accelerator running an IIR filter. `RMODE` and `WMODE` say how
/// results are taken and samples are given.
pub struct Iir<RMODE, WMODE> {
    _rmode: PhantomData<RMODE>,
    _wmode: PhantomData<WMODE>,
    fmac: Fmac,
    map: MemoryMap,
}

/// The program that configures a FIR filter: clock, the three buffers,
/// then the parameter write that starts filtering.
pub open spec fn fir_program(
    x1: Seq<Sample>,
    x2: Seq<Sample>,
    y: Seq<Sample>,
    r: Gain,
) -> Seq<Command> {
    seq![Command::EnableClock, Command::ResetPeripheral] + buffers_load(
        x1,
        x2,
        Seq::<Sample>::empty(),
        y,
    ) + seq![
        Command::Param {
            p: x1.len() as u8,
            q: 0,
            r: r.spec_exponent(),
            func: Function::Fir,
            start: true,
        },
    ]
}

/// The program that configures an IIR filter: clock, the three buffers
/// with the feed-forward taps before the feed-back taps, then the
/// parameter write that starts filtering.
pub open spec fn iir_program(
    x1: Seq<Sample>,
    b: Seq<Sample>,
    a: Seq<Sample>,
    y: Seq<Sample>,
    r: Gain,
) -> Seq<Command> {
    seq![Command::EnableClock, Command::ResetPeripheral] + buffers_load(x1, b, a, y) + seq![
        Command::Param {
            p: b.len() as u8,
            q: a.len() as u8,
            r: r.spec_exponent(),
            func: Function::Iir,
            start: true,
        },
    ]
}

/// Turning the unconfigured accelerator into a running filter.
pub trait FmacExt: Sized {
    /// Configures a FIR filter, `Y[n] = 2^R * (X1 dot X2)`, with
    /// `initial_x2` as taps.
    fn fir(
        self,
        initial_x1: &[Sample],
        initial_x2: &[Sample],
        initial_y: &[Sample],
        r: Gain,
    ) -> (setup: Setup<Fir<Poll, Poll>>)
        requires
            fir_lengths_ok(initial_x1@.len(), initial_x2@.len(), initial_y@.len()),
        ensures
            setup.program@ == fir_program(initial_x1@, initial_x2@, initial_y@, r),
            setup.handle.memory_map().wf(),
            setup.handle.memory_map().x1().size == initial_x1@.len(),
            setup.handle.memory_map().x2().size == initial_x2@.len(),
            setup.handle.memory_map().y().size == initial_y@.len(),
    ;

    /// Configures an IIR filter,
    /// `Y[n] = 2^R * ((B dot X1) + (A dot Y))`.
    fn iir(self, cfg: IirConfig) -> (setup: Setup<Iir<Poll, Poll>>)
        ensures
            cfg.wf(),
            setup.program@ == iir_program(cfg.x1(), cfg.b(), cfg.a(), cfg.y(), cfg.gain()),
            setup.handle.memory_map().wf(),
            setup.handle.memory_map().x1().size == cfg.x1().len(),
            setup.handle.memory_map().x2().size == cfg.b().len() + cfg.a().len(),
            setup.handle.memory_map().y().size == cfg.y().len(),
    ;
}

impl Fmac {
    /// Takes ownership of the accelerator.
    pub fn new() -> Fmac {
        Fmac { _owned: () }
    }

    /// Configures a FIR filter as [`FmacExt::fir`] does, or hands the
    /// accelerator back untouched when the buffer lengths break
    /// [`fir_lengths_ok`]. No program exists in that case, so nothing
    /// is written.
    pub fn try_fir(
        self,
        initial_x1: &[Sample],
        initial_x2: &[Sample],
        initial_y: &[Sample],
        r: Gain,
    ) -> (res: Result<Setup<Fir<Poll, Poll>>, Fmac>)
        ensures
            res.is_ok() <==> fir_lengths_ok(initial_x1@.len(), initial_x2@.len(), initial_y@.len()),
            res matches Ok(setup) ==> {
                &&& setup.program@ == fir_program(initial_x1@, initial_x2@, initial_y@, r)
                &&& setup.handle.memory_map().wf()
                &&& setup.handle.memory_map().x1().size == initial_x1@.len()
                &&& setup.handle.memory_map().x2().size == initial_x2@.len()
                &&& setup.handle.memory_map().y().size == initial_y@.len()
            },
    {
        if fir_lengths_valid(initial_x1.len(), initial_x2.len(), initial_y.len()) {
            Ok(self.fir(initial_x1, initial_x2, initial_y, r))
        } else {
            Err(self)
        }
    }
}

impl FmacExt for Fmac {
    fn fir(
        self,
        initial_x1: &[Sample],
        initial_x2: &[Sample],
        initial_y: &[Sample],
        r: Gain,
    ) -> (setup: Setup<Fir<Poll, Poll>>) {
        let p: u8 = initial_x1.len() as u8;
        let no_feedback: [Sample; 0] = [];
        let mut program: Vec<Command> = Vec::new();
        program.push(Command::EnableClock);
        program.push(Command::ResetPeripheral);
        let map = init_buffers(
            &mut program,
            initial_x1,
            initial_x2,
            no_feedback.as_slice(),
            initial_y,
        );
        program.push(
            Command::Param { p, q: 0, r: r.exponent(), func: Function::Fir, start: true },
        );
        Setup { handle: Fir { _rmode: PhantomData, _wmode: PhantomData, fmac: self, map }, program }
    }

    fn iir(self, cfg: IirConfig) -> (setup: Setup<Iir<Poll, Poll>>) {
        let x1 = cfg.initial_x1();
        let b = cfg.initial_b();
        let a = cfg.initial_a();
        let y = cfg.initial_y();
        let p: u8 = b.len() as u8;
        let q: u8 = a.len() as u8;
        let mut program: Vec<Command> = Vec::new();
        program.push(Command::EnableClock);
        program.push(Command::ResetPeripheral);
        let map = init_buffers(&mut program, x1, b, a, y);
        program.push(
            Command::Param { p, q, r: cfg.r().exponent(), func: Function::Iir, start: true },
        );
        Setup { handle: Iir { _rmode: PhantomData, _wmode: PhantomData, fmac: self, map }, program }
    }
}

/// Begins a non-blocking read: it takes a result if the output buffer
/// holds one and ends empty-handed if not.
pub fn read(fmac: &mut Fmac) -> (t: Transfer)
    ensures
        t == Transfer::spec_read(),
{
    Transfer::AwaitResult { blocking: false }
}

/// Begins a read that polls until the output buffer holds a result. It
/// never ends if none is ever produced.
pub fn read_blocking(fmac: &mut Fmac) -> (t: Transfer)
    ensures
        t == Transfer::spec_read_blocking(),
{
    Transfer::AwaitResult { blocking: true }
}

/// Begins a non-blocking write of the register word `value`: it stores
/// the word if the input buffer has room and is refused if not.
pub fn write(fmac: &mut Fmac, value: u16) -> (t: Transfer)
    ensures
        t == (Transfer::AwaitSpace { word: value, blocking: false, compute: false }),
{
    Transfer::AwaitSpace { word: value, blocking: false, compute: false }
}

/// Begins a write of `value` that polls until the input buffer has room.
pub fn write_blocking(fmac: &mut Fmac, value: Sample) -> (t: Transfer)
    ensures
        t == Transfer::spec_write_blocking(value),
{
    Transfer::AwaitSpace { word: value.to_word(), blocking: true, compute: false }
}

impl<RMODE, WMODE> Fir<RMODE, WMODE> {
    /// The layout of the buffer memory the filter runs on.
    pub closed spec fn memory_map(&self) -> MemoryMap {
        self.map
    }

    /// The layout of the buffer memory the filter runs on.
    pub fn layout(&self) -> (map: MemoryMap)
        ensures
            map == self.memory_map(),
    {
        self.map
    }
}

impl<WM> Fir<Poll, WM> {
    /// Begins a non-blocking read of one result.
    pub fn read(&mut self) -> (t: Transfer)
        ensures
            t == Transfer::spec_read(),
            *final(self) == *old(self),
    {
        read(&mut self.fmac)
    }

    /// Begins a blocking read of one result. It never ends if no sample
    /// is written that produces one.
    pub fn read_blocking(&mut self) -> (t: Transfer)
        ensures
            t == Transfer::spec_read_blocking(),
            *final(self) == *old(self),
    {
        read_blocking(&mut self.fmac)
    }
}

impl<RM> Fir<RM, Poll> {
    /// Begins a non-blocking write of one sample.
    pub fn write(&mut self, value: Sample) -> (t: Transfer)
        ensures
            t == Transfer::spec_write(value),
            *final(self) == *old(self),
    {
        write(&mut self.fmac, value.to_word())
    }

    /// Begins a blocking write of one sample.
    pub fn write_blocking(&mut self, value: Sample) -> (t: Transfer)
        ensures
            t == Transfer::spec_write_blocking(value),
            *final(self) == *old(self),
    {
        write_blocking(&mut self.fmac, value)
    }
}

impl Fir<Poll, Poll> {
    /// Begins a blocking write of one sample followed by a blocking read
    /// of the result.
    pub fn compute_blocking(&mut self, value: Sample) -> (t: Transfer)
        ensures
            t == Transfer::spec_compute_blocking(value),
            *final(self) == *old(self),
    {
        Transfer::AwaitSpace { word: value.to_word(), blocking: true, compute: true }
    }
}

impl<RMODE, WMODE> Iir<RMODE, WMODE> {
    /// The layout of the buffer memory the filter runs on.
    pub closed spec fn memory_map(&self) -> MemoryMap {
        self.map
    }

    /// The layout of the buffer memory the filter runs on.
    pub fn layout(&self) -> (map: MemoryMap)
        ensures
            map == self.memory_map(),
    {
        self.map
    }
}

impl<WM> Iir<Poll, WM> {
    /// Begins a non-blocking read of one result.
    pub fn read(&mut self) -> (t: Transfer)
        ensures
            t == Transfer::spec_read(),
            *final(self) == *old(self),
    {
        read(&mut self.fmac)
    }

    /// Begins a blocking read of one result. It never ends if no sample
    /// is written that produces one.
    pub fn read_blocking(&mut self) -> (t: Transfer)
        ensures
            t == Transfer::spec_read_blocking(),
            *final(self) == *old(self),
    {
        read_blocking(&mut self.fmac)
    }
}

impl<RM> Iir<RM, Poll> {
    /// Begins a non-blocking write of one sample.
    pub fn write(&mut self, value: Sample) -> (t: Transfer)
        ensures
            t == Transfer::spec_write(value),
            *final(self) == *old(self),
    {
        write(&mut self.fmac, value.to_word())
    }

    /// Begins a blocking write of one sample.
    pub fn write_blocking(&mut self, value: Sample) -> (t: Transfer)
        ensures
            t == Transfer::spec_write_blocking(value),
            *final(self) == *old(self),
    {
        write_blocking(&mut self.fmac, value)
    }
}

impl Iir<Poll, Poll> {
    /// Begins a blocking write of one sample followed by a blocking read
    /// of the result.
    pub fn compute_blocking(&mut self, value: Sample) -> (t: Transfer)
        ensures
            t == Transfer::spec_compute_blocking(value),
            *final(self) == *old(self),
    {
        Transfer::AwaitSpace { word: value.to_word(), blocking: true, compute: true }
    }
}

} // verus!
