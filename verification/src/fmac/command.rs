//! The register accesses that configure the accelerator, as data.
//!
//! A program is a list of [`Command`]s. Whoever owns the register block
//! carries them out in order, one register access per command.

use vstd::prelude::*;
use crate::fmac::layout::{regions_fit, MemoryMap};
use crate::fmac::sample::Sample;

verus! {

/// What the accelerator is asked to do when an operation is started.
#[derive(Clone, Copy, Debug, PartialEq, Eq, Structural)]
pub enum Function {
    /// Preload the input-sample buffer.
    LoadX1,
    /// Preload the coefficient buffer.
    LoadX2,
    /// Preload the output buffer.
    LoadY,
    /// Run a FIR filter: `Y[n] = 2^R * (X1 dot X2)`.
    Fir,
    /// Run an IIR filter: `Y[n] = 2^R * ((B dot X1) + (A dot Y))`.
    Iir,
}

impl Function {
    /// The code of the function in the parameter register.
    pub open spec fn spec_code(self) -> u8 {
        match self {
            Function::LoadX1 => 1,
            Function::LoadX2 => 2,
            Function::LoadY => 3,
            Function::Fir => 8,
            Function::Iir => 9,
        }
    }

    /// The code of the function in the parameter register.
    #[verifier::when_used_as_spec(spec_code)]
    pub fn code(self) -> (c: u8)
        ensures
            c == self.spec_code(),
    {
        match self {
            Function::LoadX1 => 1,
            Function::LoadX2 => 2,
            Function::LoadY => 3,
            Function::Fir => 8,
            Function::Iir => 9,
        }
    }
}

/// The enable bits of the control register.
#[derive(Clone, Copy, Debug, PartialEq, Eq, Structural)]
pub struct Control {
    /// Interrupt when the output buffer holds a result.
    pub read_interrupt: bool,
    /// Interrupt when the input buffer has room.
    pub write_interrupt: bool,
    /// Interrupt on overflow.
    pub overflow_interrupt: bool,
    /// Interrupt on underflow.
    pub underflow_interrupt: bool,
    /// Interrupt on saturation.
    pub saturation_interrupt: bool,
    /// Request a DMA read when the output buffer holds a result.
    pub dma_read: bool,
    /// Request a DMA write when the input buffer has room.
    pub dma_write: bool,
    /// Clip results that leave the number range instead of wrapping.
    pub clip: bool,
    /// Hold the accelerator in reset.
    pub reset: bool,
}

impl Control {
    /// Every enable bit clear: no interrupts, no DMA, no clipping, not in
    /// reset.
    pub open spec fn all_clear() -> Control {
        Control {
            read_interrupt: false,
            write_interrupt: false,
            overflow_interrupt: false,
            underflow_interrupt: false,
            saturation_interrupt: false,
            dma_read: false,
            dma_write: false,
            clip: false,
            reset: false,
        }
    }
}

/// One step of a configuration program.
#[derive(Clone, Copy, Debug, PartialEq, Eq, Structural)]
pub enum Command {
    /// Switch on the accelerator's clock.
    EnableClock,
    /// Pulse the accelerator's reset line.
    ResetPeripheral,
    /// Read the start flag of the parameter register; it must be clear. A
    /// set flag means an operation is still in flight, which the driver
    /// never allows, so the program must be abandoned there.
    ExpectIdle,
    /// Write the `X1` buffer configuration register.
    ConfigureX1 { base: u8, size: u8, full_watermark: u8 },
    /// Write the `X2` buffer configuration register.
    ConfigureX2 { base: u8, size: u8 },
    /// Write the `Y` buffer configuration register.
    ConfigureY { base: u8, size: u8, empty_watermark: u8 },
    /// Write the parameter register.
    Param { p: u8, q: u8, r: u8, func: Function, start: bool },
    /// Write one word to the write-data register.
    WriteData(u16),
    /// Write the control register.
    Control(Control),
}

/// One write of the data register for each sample, in order.
pub open spec fn data_writes(xs: Seq<Sample>) -> Seq<Command> {
    Seq::new(xs.len(), |i: int| Command::WriteData(xs[i].word()))
}

/// The program that preloads `X1` with `x1` at `base`.
pub open spec fn x1_load(x1: Seq<Sample>, base: u8) -> Seq<Command> {
    seq![
        Command::ExpectIdle,
        Command::ConfigureX1 { base, size: x1.len() as u8, full_watermark: 0 },
        Command::Param { p: x1.len() as u8, q: 0, r: 0, func: Function::LoadX1, start: true },
    ] + data_writes(x1) + seq![Command::ExpectIdle]
}

/// The program that preloads `X2` with the taps `b` followed by `a`, at
/// `base`.
pub open spec fn x2_load(b: Seq<Sample>, a: Seq<Sample>, base: u8) -> Seq<Command> {
    seq![
        Command::ExpectIdle,
        Command::ConfigureX2 { base, size: (b.len() + a.len()) as u8 },
        Command::Param {
            p: b.len() as u8,
            q: a.len() as u8,
            r: 0,
            func: Function::LoadX2,
            start: true,
        },
    ] + data_writes(b) + data_writes(a) + seq![Command::ExpectIdle]
}

/// The program that preloads `Y` with `y` at `base`.
pub open spec fn y_load(y: Seq<Sample>, base: u8) -> Seq<Command> {
    seq![
        Command::ExpectIdle,
        Command::ConfigureY { base, size: y.len() as u8, empty_watermark: 0 },
        Command::Param { p: y.len() as u8, q: 0, r: 0, func: Function::LoadY, start: true },
    ] + data_writes(y) + seq![Command::ExpectIdle]
}

/// The program that preloads all three buffers: `X1` from address zero,
/// `X2` behind it and `Y` behind `X2`.
pub open spec fn buffers_load(
    x1: Seq<Sample>,
    b: Seq<Sample>,
    a: Seq<Sample>,
    y: Seq<Sample>,
) -> Seq<Command> {
    x1_load(x1, 0) + x2_load(b, a, x1.len() as u8) + y_load(
        y,
        (x1.len() + b.len() + a.len()) as u8,
    )
}

/// Appends to `program` the control-register write that selects plain
/// polling: every interrupt and DMA request off, no clipping, reset
/// released.
pub fn set_config(program: &mut Vec<Command>)
    ensures
        final(program)@ == old(program)@.push(Command::Control(Control::all_clear())),
{
    program.push(
        Command::Control(
            Control {
                read_interrupt: false,
                write_interrupt: false,
                overflow_interrupt: false,
                underflow_interrupt: false,
                saturation_interrupt: false,
                dma_read: false,
                dma_write: false,
                clip: false,
                reset: false,
            },
        ),
    );
}

/// Appends one data-register write per sample of `xs` to `program`.
fn write_samples(program: &mut Vec<Command>, xs: &[Sample])
    ensures
        final(program)@ == old(program)@ + data_writes(xs@),
{
    let ghost before = program@;
    let mut i: usize = 0;
    while i < xs.len()
        invariant
            i <= xs@.len(),
            program@.len() == before.len() + i,
            forall|j: int| 0 <= j < before.len() ==> program@[j] == before[j],
            forall|k: int|
                before.len() <= k < before.len() + i ==> program@[k] == Command::WriteData(
                    xs@[k - before.len()].word(),
                ),
        decreases xs@.len() - i,
    {
        program.push(Command::WriteData(xs[i].to_word()));
        i += 1;
    }
}

/// Appends to `program` the commands that preload `X1` with `x1` at
/// `base_addr`.
pub fn write_x1(program: &mut Vec<Command>, x1: &[Sample], base_addr: u8)
    requires
        x1@.len() <= 255,
    ensures
        final(program)@ == old(program)@ + x1_load(x1@, base_addr),
{
    let n: u8 = x1.len() as u8;
    program.push(Command::ExpectIdle);
    program.push(Command::ConfigureX1 { base: base_addr, size: n, full_watermark: 0 });
    program.push(Command::Param { p: n, q: 0, r: 0, func: Function::LoadX1, start: true });
    write_samples(program, x1);
    program.push(Command::ExpectIdle);
}

/// Appends to `program` the commands that preload `X2` with the taps `b`
/// followed by `a`, at `base_addr`. A filter without feed-back taps
/// passes an empty `a`.
pub fn write_x2(program: &mut Vec<Command>, b: &[Sample], a: &[Sample], base_addr: u8)
    requires
        b@.len() + a@.len() <= 255,
    ensures
        final(program)@ == old(program)@ + x2_load(b@, a@, base_addr),
{
    let p: u8 = b.len() as u8;
    let q: u8 = a.len() as u8;
    let size: u8 = (b.len() + a.len()) as u8;
    program.push(Command::ExpectIdle);
    program.push(Command::ConfigureX2 { base: base_addr, size });
    program.push(Command::Param { p, q, r: 0, func: Function::LoadX2, start: true });
    write_samples(program, b);
    write_samples(program, a);
    program.push(Command::ExpectIdle);
}

/// Appends to `program` the commands that preload `Y` with `y` at
/// `base_addr`.
pub fn write_y(program: &mut Vec<Command>, y: &[Sample], base_addr: u8)
    requires
        y@.len() <= 255,
    ensures
        final(program)@ == old(program)@ + y_load(y@, base_addr),
{
    let n: u8 = y.len() as u8;
    program.push(Command::ExpectIdle);
    program.push(Command::ConfigureY { base: base_addr, size: n, empty_watermark: 0 });
    program.push(Command::Param { p: n, q: 0, r: 0, func: Function::LoadY, start: true });
    write_samples(program, y);
    program.push(Command::ExpectIdle);
}

/// Partitions the buffer memory for the given buffers and appends to
/// `program` the commands that preload them: `X1`, then `X2` holding `b`
/// followed by `a`, then `Y`. Returns the layout.
pub fn init_buffers(
    program: &mut Vec<Command>,
    x1: &[Sample],
    b: &[Sample],
    a: &[Sample],
    y: &[Sample],
) -> (map: MemoryMap)
    requires
        regions_fit(x1@.len(), b@.len() + a@.len(), y@.len()),
    ensures
        final(program)@ == old(program)@ + buffers_load(x1@, b@, a@, y@),
        map.wf(),
        map.x1().size == x1@.len(),
        map.x2().size == b@.len() + a@.len(),
        map.y().size == y@.len(),
{
    let map = MemoryMap::partition(x1.len(), b.len() + a.len(), y.len());
    write_x1(program, x1, map.x1_region().base);
    write_x2(program, b, a, map.x2_region().base);
    write_y(program, y, map.y_region().base);
    map
}

} // verus!
