//! End-to-end runs of the driver against a software model of the
//! accelerator. The model carries out configuration programs and answers
//! transfers as the hardware would: it computes one output per input
//! sample while the output buffer has room, and holds further samples in
//! the input buffer until it is full.

use fixed::types::I1F15;
use stm32g4xx_hal::fmac::{
    Action, Command, Fmac, FmacError, FmacExt, Function, Gain, IirConfig, Outcome, Reply, Sample,
    Status, Transfer,
};

#[derive(Default)]
struct Model {
    clock_on: bool,
    memory: Vec<i16>,
    x1: (usize, usize),
    x2: (usize, usize),
    y: (usize, usize),
    /// Region being preloaded and the slots still to fill.
    loading: Option<(Function, usize, usize)>,
    /// Running filter: function, P, Q, R.
    running: Option<(Function, usize, usize, u8)>,
    /// Input samples, newest last; the first `P` are the preloaded ones.
    inputs: Vec<i16>,
    /// Samples accepted but not yet turned into an output.
    pending: Vec<i16>,
    /// Outputs, newest last; the first `Q` are the preloaded ones.
    outputs: Vec<i16>,
    /// Outputs computed but not yet read.
    unread: Vec<i16>,
    register_writes: usize,
    data_writes: usize,
    data_reads: usize,
}

impl Model {
    fn new() -> Model {
        Model { memory: vec![0; 256], ..Model::default() }
    }

    fn busy(&self) -> bool {
        matches!(self.loading, Some((_, _, left)) if left > 0)
    }

    fn run(&mut self, program: &[Command]) {
        for command in program {
            self.execute(*command);
        }
    }

    fn execute(&mut self, command: Command) {
        match command {
            Command::EnableClock => self.clock_on = true,
            Command::ResetPeripheral => {
                let clock_on = self.clock_on;
                *self = Model::new();
                self.clock_on = clock_on;
            }
            Command::ExpectIdle => assert!(!self.busy(), "a load is still in flight"),
            Command::ConfigureX1 { base, size, full_watermark } => {
                assert_eq!(full_watermark, 0);
                self.register_writes += 1;
                self.x1 = (base as usize, size as usize);
            }
            Command::ConfigureX2 { base, size } => {
                self.register_writes += 1;
                self.x2 = (base as usize, size as usize);
            }
            Command::ConfigureY { base, size, empty_watermark } => {
                assert_eq!(empty_watermark, 0);
                self.register_writes += 1;
                self.y = (base as usize, size as usize);
            }
            Command::Param { p, q, r, func, start } => {
                assert!(start);
                assert!(self.clock_on);
                self.register_writes += 1;
                let (p, q) = (p as usize, q as usize);
                match func {
                    Function::LoadX1 => self.loading = Some((func, self.x1.0, p)),
                    Function::LoadX2 => self.loading = Some((func, self.x2.0, p + q)),
                    Function::LoadY => self.loading = Some((func, self.y.0, p)),
                    Function::Fir | Function::Iir => {
                        assert!(self.x1.0 + self.x1.1 <= self.x2.0);
                        assert!(self.x2.0 + self.x2.1 <= self.y.0);
                        assert!(self.y.0 + self.y.1 <= 256);
                        self.inputs = self.memory[self.x1.0..self.x1.0 + self.x1.1].to_vec();
                        self.outputs = self.memory[self.y.0..self.y.0 + self.y.1].to_vec();
                        self.running = Some((func, p, q, r));
                        self.loading = None;
                    }
                }
            }
            Command::WriteData(word) => self.write_data(word),
            Command::Control(_) => self.register_writes += 1,
        }
    }

    fn write_data(&mut self, word: u16) {
        self.register_writes += 1;
        self.data_writes += 1;
        if let Some((func, at, left)) = self.loading {
            assert!(left > 0, "more words than the load asked for");
            self.memory[at] = word as i16;
            self.loading = Some((func, at + 1, left - 1));
        } else {
            assert!(self.running.is_some());
            assert!(!self.status().x1_full, "a sample was written into a full buffer");
            self.pending.push(word as i16);
            self.compute();
        }
    }

    fn read_data(&mut self) -> u16 {
        self.data_reads += 1;
        assert!(!self.unread.is_empty(), "the output buffer was read while empty");
        let word = self.unread.remove(0) as u16;
        self.compute();
        word
    }

    fn status(&self) -> Status {
        Status { x1_full: self.pending.len() >= self.x1.1, y_empty: self.unread.is_empty() }
    }

    /// Turns pending samples into outputs while the output buffer has room.
    fn compute(&mut self) {
        let (func, p, q, r) = self.running.expect("the filter is running");
        while !self.pending.is_empty() && self.unread.len() < self.y.1 {
            self.inputs.push(self.pending.remove(0));
            let taps = &self.memory[self.x2.0..self.x2.0 + self.x2.1];
            let mut acc: i64 = 0;
            let n = self.inputs.len();
            for k in 0..p {
                acc += taps[k] as i64 * self.inputs[n - 1 - k] as i64;
            }
            if func == Function::Iir {
                let m = self.outputs.len();
                for k in 0..q {
                    acc += taps[p + k] as i64 * self.outputs[m - 1 - k] as i64;
                }
            }
            let scaled = ((acc << r) + (1 << 14)) >> 15;
            let out = scaled.clamp(i16::MIN as i64, i16::MAX as i64) as i16;
            self.outputs.push(out);
            self.unread.push(out);
        }
    }

    /// Drives a transfer to its end, at most `polls` accesses long.
    fn drive(&mut self, mut transfer: Transfer, polls: usize) -> Option<Outcome> {
        for _ in 0..polls {
            let reply = match transfer.action() {
                Action::ReadStatus => Reply::Status(self.status()),
                Action::WriteData(word) => {
                    self.write_data(word);
                    Reply::Written
                }
                Action::ReadData => Reply::Data(self.read_data()),
                Action::Done(outcome) => return Some(outcome),
            };
            transfer.advance(reply);
        }
        None
    }
}

fn q15(x: f64) -> Sample {
    Sample::from_bits(I1F15::saturating_from_num(x).to_bits())
}

fn value(s: Sample) -> f64 {
    I1F15::from_bits(s.to_bits()).to_num::<f64>()
}

#[test]
fn fixed_point_conversion_matches_q15() {
    assert_eq!(q15(0.0).to_bits(), 0);
    assert_eq!(q15(0.5).to_bits(), 0x4000);
    assert_eq!(q15(-1.0).to_bits(), -0x8000);
    assert_eq!(q15(1.0).to_bits(), 0x7fff);
    assert_eq!(q15(0.1).to_bits(), 3277);
    assert_eq!(q15(-0.25).to_word(), 0xe000);
    assert_eq!(value(Sample::from_word(0xc000)), -0.5);
}

#[test]
fn single_pole_low_pass_approaches_one() {
    let x1 = [q15(0.0), q15(0.0)];
    let b = [q15(0.1), q15(0.0)];
    let a = [q15(0.9)];
    let y = [q15(0.0)];
    let cfg = IirConfig::new(&x1, &b, &a, &y, Gain::X1);
    let setup = Fmac::new().iir(cfg);
    let mut iir = setup.handle;
    let mut model = Model::new();
    model.run(&setup.program);
    assert_eq!(model.data_writes, 2 + 3 + 1);

    let one = q15(1.0);
    let lsb = 1.0 / 32768.0;
    let mut outputs = Vec::new();
    for _ in 0..100 {
        let outcome = model.drive(iir.compute_blocking(one), 16);
        match outcome {
            Some(Outcome::Sample(s)) => outputs.push(value(s)),
            other => panic!("no result: {other:?}"),
        }
    }
    assert_eq!(outputs.len(), 100);
    assert!((outputs[0] - 0.1).abs() <= 2.0 * lsb, "y[0] = {}", outputs[0]);
    assert!((outputs[1] - 0.19).abs() <= 4.0 * lsb, "y[1] = {}", outputs[1]);
    let mut ideal = 0.0;
    for (n, out) in outputs.iter().enumerate() {
        ideal = 0.1 * 1.0 + 0.9 * ideal;
        assert!((out - ideal).abs() <= 16.0 * lsb, "y[{n}] = {out}, ideal {ideal}");
        if n > 0 {
            assert!(*out >= outputs[n - 1], "output decreased at {n}");
        }
    }
    assert!((outputs[99] - 1.0).abs() <= 16.0 * lsb);
    // one sample in, one result out, each time
    assert_eq!(model.data_writes, 6 + 100);
    assert_eq!(model.data_reads, 100);
}

#[test]
fn writes_without_reads_end_in_backpressure() {
    let x1 = [q15(0.0), q15(0.0)];
    let b = [q15(0.1), q15(0.0)];
    let a = [q15(0.9)];
    let y = [q15(0.0)];
    let setup = Fmac::new().iir(IirConfig::new(&x1, &b, &a, &y, Gain::X1));
    let mut iir = setup.handle;
    let mut model = Model::new();
    model.run(&setup.program);
    let loaded = model.data_writes;

    let mut stored = 0;
    let mut refused = 0;
    let mut first_refusal = None;
    for i in 0..300 {
        match model.drive(iir.write(q15(0.5)), 4) {
            Some(Outcome::Written) => {
                assert!(first_refusal.is_none(), "a write went through after a refusal");
                stored += 1;
            }
            Some(Outcome::Refused(FmacError::X1Full)) => {
                refused += 1;
                first_refusal.get_or_insert(i);
            }
            other => panic!("unexpected end of a write: {other:?}"),
        }
    }
    assert!(refused > 0, "300 writes were all accepted");
    assert_eq!(stored + refused, 300);
    // every accepted sample reached the accelerator and none was dropped
    assert_eq!(model.data_writes - loaded, stored);
    assert_eq!(stored, model.pending.len() + model.unread.len());
    // capacity is what the buffers hold: one result and two waiting samples
    assert_eq!(first_refusal, Some(3));
}

#[test]
fn backpressure_lifts_once_results_are_read() {
    let x = [q15(0.25), q15(0.25)];
    let setup = Fmac::new().fir(&x, &x, &[q15(0.0)], Gain::X1);
    let mut fir = setup.handle;
    let mut model = Model::new();
    model.run(&setup.program);

    for _ in 0..3 {
        assert_eq!(model.drive(fir.write(q15(0.5)), 4), Some(Outcome::Written));
    }
    assert_eq!(
        model.drive(fir.write(q15(0.5)), 4),
        Some(Outcome::Refused(FmacError::X1Full))
    );
    // a blocking write would spin here: it never gives up
    assert_eq!(model.drive(fir.write_blocking(q15(0.5)), 50), None);
    // reading makes room
    assert!(matches!(model.drive(fir.read(), 4), Some(Outcome::Sample(_))));
    assert_eq!(model.drive(fir.write(q15(0.5)), 4), Some(Outcome::Written));
}

#[test]
fn read_on_an_idle_filter_leaves_the_registers_alone() {
    let x = [q15(0.25), q15(0.25)];
    let setup = Fmac::new().fir(&x, &x, &[q15(0.0)], Gain::X1);
    let mut fir = setup.handle;
    let mut model = Model::new();
    model.run(&setup.program);
    let writes = model.register_writes;
    for _ in 0..10 {
        assert_eq!(model.drive(fir.read(), 4), Some(Outcome::Empty));
    }
    assert_eq!(model.register_writes, writes);
    assert_eq!(model.data_reads, 0);
    // a blocking read would spin here
    assert_eq!(model.drive(fir.read_blocking(), 50), None);
}

#[test]
fn fir_moving_average_of_two() {
    let half = q15(0.5);
    let setup = Fmac::new().fir(&[q15(0.0), q15(0.0)], &[half, half], &[q15(0.0)], Gain::X1);
    let mut fir = setup.handle;
    let mut model = Model::new();
    model.run(&setup.program);
    let inputs = [0.5, 0.5, -0.25, 0.0];
    let expected = [0.25, 0.5, 0.125, -0.125];
    for (x, want) in inputs.iter().zip(expected) {
        match model.drive(fir.compute_blocking(q15(*x)), 16) {
            Some(Outcome::Sample(s)) => assert_eq!(value(s), want),
            other => panic!("no result: {other:?}"),
        }
    }
}

#[test]
fn invalid_configuration_reaches_no_register() {
    let model = Model::new();
    let x1 = [q15(0.0), q15(0.0), q15(0.0)];
    let x2 = [q15(0.1), q15(0.2)];
    let res = Fmac::new().try_fir(&x1, &x2, &[q15(0.0)], Gain::X1);
    assert!(res.is_err());
    // single-tap IIR, as invalid as the mismatched FIR
    let b = [q15(0.1)];
    let a = [q15(0.9)];
    assert!(IirConfig::try_new(&x1[..2], &b, &a, &x1[..2], Gain::X1).is_none());
    // nothing was produced that could be carried out
    assert_eq!(model.register_writes, 0);
}
