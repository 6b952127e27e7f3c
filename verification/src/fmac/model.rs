//! What a configuration program does to the accelerator.
//!
//! [`Accelerator`] is a model of the accelerator as far as configuration
//! goes: its buffer memory, its three region registers and the load in
//! flight. A load started with a count of `n` takes the next `n` words
//! written to the data register, stores them at consecutive addresses
//! from the region's base, and then ends by itself. The theorems below
//! show that the programs of this driver never find the accelerator busy
//! where they expect it idle, never write a word that nothing takes, and
//! leave each region holding exactly the samples it was given.

use vstd::prelude::*;
use crate::fmac::command::{buffers_load, data_writes, x1_load, x2_load, y_load, Command, Function};
use crate::fmac::config::{fir_lengths_ok, iir_lengths_ok, Gain};
use crate::fmac::driver::{fir_program, iir_program};
use crate::fmac::layout::{regions_fit, CAPACITY};
use crate::fmac::sample::Sample;

verus! {

/// A load in flight: the address the next word goes to and the number of
/// words still to come.
pub struct Load {
    pub at: int,
    pub left: nat,
}

/// The accelerator as configuration sees it.
pub struct Accelerator {
    /// Whether the clock is on.
    pub clock_on: bool,
    /// The buffer memory, one word per slot.
    pub memory: Seq<u16>,
    /// Base of `X1`.
    pub x1_base: int,
    /// Base of `X2`.
    pub x2_base: int,
    /// Base of `Y`.
    pub y_base: int,
    /// The load in flight, if any: the start flag reads set while there
    /// is one.
    pub load: Option<Load>,
    /// The parameter write that started filtering, if any.
    pub running: Option<Command>,
    /// Whether a program has gone wrong: it expected the accelerator
    /// idle during a load, or wrote a word that nothing could take.
    pub failed: bool,
}

/// The words that carry `xs`.
pub open spec fn words(xs: Seq<Sample>) -> Seq<u16> {
    Seq::new(xs.len(), |i: int| xs[i].word())
}

impl Accelerator {
    /// Whether the memory has its full size.
    pub open spec fn wf(self) -> bool {
        self.memory.len() == CAPACITY
    }

    /// Whether an operation is in flight.
    pub open spec fn busy(self) -> bool {
        self.load.is_some()
    }

    /// The accelerator after a load of `count` words to `base` has been
    /// started: a load of nothing ends at once.
    pub open spec fn loading(self, base: int, count: nat) -> Accelerator {
        Accelerator {
            load: if count == 0 {
                None
            } else {
                Some(Load { at: base, left: count })
            },
            ..self
        }
    }

    /// The accelerator after `command`.
    pub open spec fn step(self, command: Command) -> Accelerator {
        match command {
            Command::EnableClock => Accelerator { clock_on: true, ..self },
            Command::ResetPeripheral => Accelerator {
                x1_base: 0,
                x2_base: 0,
                y_base: 0,
                load: None,
                running: None,
                ..self
            },
            Command::ExpectIdle => Accelerator { failed: self.failed || self.busy(), ..self },
            Command::ConfigureX1 { base, .. } => Accelerator { x1_base: base as int, ..self },
            Command::ConfigureX2 { base, .. } => Accelerator { x2_base: base as int, ..self },
            Command::ConfigureY { base, .. } => Accelerator { y_base: base as int, ..self },
            Command::Param { p, q, func, start, .. } => if !start {
                self
            } else {
                match func {
                    Function::LoadX1 => self.loading(self.x1_base, p as nat),
                    Function::LoadX2 => self.loading(self.x2_base, (p + q) as nat),
                    Function::LoadY => self.loading(self.y_base, p as nat),
                    Function::Fir | Function::Iir => Accelerator {
                        running: Some(command),
                        ..self
                    },
                }
            },
            Command::WriteData(word) => match self.load {
                Some(load) => if 0 <= load.at < self.memory.len() {
                    Accelerator {
                        memory: self.memory.update(load.at, word),
                        load: if load.left <= 1 {
                            None
                        } else {
                            Some(Load { at: load.at + 1, left: (load.left - 1) as nat })
                        },
                        ..self
                    }
                } else {
                    Accelerator { failed: true, ..self }
                },
                None => Accelerator { failed: self.failed || self.running.is_none(), ..self },
            },
            Command::Control(_) => self,
        }
    }

    /// The accelerator after the commands of `program`, in order.
    pub open spec fn run(self, program: Seq<Command>) -> Accelerator
        decreases program.len(),
    {
        if program.len() == 0 {
            self
        } else {
            self.step(program[0]).run(program.drop_first())
        }
    }

    /// Whether the `n` slots from `base` hold `expected`.
    pub open spec fn holds(self, base: int, expected: Seq<u16>) -> bool {
        &&& 0 <= base
        &&& base + expected.len() <= self.memory.len()
        &&& self.memory.subrange(base, base + expected.len()) == expected
    }
}

/// Running two programs one after the other is running them joined.
pub proof fn lemma_run_joined(start: Accelerator, first: Seq<Command>, second: Seq<Command>)
    ensures
        start.run(first + second) == start.run(first).run(second),
    decreases first.len(),
{
    if first.len() > 0 {
        assert((first + second).drop_first() =~= first.drop_first() + second);
        lemma_run_joined(start.step(first[0]), first.drop_first(), second);
    }
}

/// Running a single command is taking one step.
pub proof fn lemma_run_one(start: Accelerator, command: Command)
    ensures
        start.run(seq![command]) == start.step(command),
{
    let program = seq![command];
    assert(start.run(program) == start.step(program[0]).run(program.drop_first()));
}

/// A load in flight takes the words written to the data register to
/// consecutive addresses and counts them off; it touches nothing else.
pub proof fn lemma_words_are_loaded(start: Accelerator, xs: Seq<Sample>)
    requires
        start.wf(),
        start.load matches Some(load) && 0 < load.left && xs.len() <= load.left && 0 <= load.at
            && load.at + xs.len() <= CAPACITY,
    ensures
        ({
            let load = start.load.unwrap();
            let end = start.run(data_writes(xs));
            &&& end == Accelerator {
                memory: end.memory,
                load: if xs.len() == load.left {
                    None
                } else {
                    Some(Load { at: load.at + xs.len(), left: (load.left - xs.len()) as nat })
                },
                ..start
            }
            &&& end.wf()
            &&& end.holds(load.at, words(xs))
            &&& forall|i: int|
                0 <= i < CAPACITY && !(load.at <= i < load.at + xs.len()) ==> end.memory[i]
                    == start.memory[i]
        }),
    decreases xs.len(),
{
    let load = start.load.unwrap();
    let program = data_writes(xs);
    if xs.len() == 0 {
        let end = start.run(program);
        assert(end.memory.subrange(load.at, load.at + 0) =~= words(xs));
    } else {
        let next = start.step(program[0]);
        let rest = xs.drop_first();
        assert(program.drop_first() =~= data_writes(rest));
        let end = next.run(data_writes(rest));
        if rest.len() > 0 {
            lemma_words_are_loaded(next, rest);
        }
        assert forall|i: int| 0 <= i < xs.len() implies end.memory.subrange(
            load.at,
            load.at + xs.len(),
        )[i] == words(xs)[i] by {
            if i > 0 {
                assert(end.memory.subrange(load.at + 1, load.at + 1 + rest.len())[i - 1]
                    == words(rest)[i - 1]);
            }
        }
        assert(end.memory.subrange(load.at, load.at + xs.len()) =~= words(xs));
    }
}

/// What a region load does to an idle accelerator: the region's base is
/// set, the region holds the samples, the rest of the memory is as it
/// was, and the accelerator is idle again without having failed.
pub open spec fn loaded(
    start: Accelerator,
    end: Accelerator,
    base: int,
    contents: Seq<u16>,
) -> bool {
    &&& end.wf()
    &&& !end.busy()
    &&& end.failed == start.failed
    &&& end.clock_on == start.clock_on
    &&& end.running == start.running
    &&& end.holds(base, contents)
    &&& forall|i: int|
        0 <= i < CAPACITY && !(base <= i < base + contents.len()) ==> end.memory[i]
            == start.memory[i]
}

/// Loading `X1` on an idle accelerator succeeds and fills the region.
pub proof fn lemma_x1_is_loaded(start: Accelerator, x1: Seq<Sample>, base: u8)
    requires
        start.wf(),
        !start.busy(),
        x1.len() <= 255,
        base + x1.len() <= CAPACITY,
    ensures
        loaded(start, start.run(x1_load(x1, base)), base as int, words(x1)),
        start.run(x1_load(x1, base)).x1_base == base,
        start.run(x1_load(x1, base)).x2_base == start.x2_base,
        start.run(x1_load(x1, base)).y_base == start.y_base,
{
    let head = seq![
        Command::ExpectIdle,
        Command::ConfigureX1 { base, size: x1.len() as u8, full_watermark: 0 },
        Command::Param { p: x1.len() as u8, q: 0, r: 0, func: Function::LoadX1, start: true },
    ];
    let tail = seq![Command::ExpectIdle];
    let armed = lemma_head_arms(start, head, base as int, x1.len());
    lemma_load_completes(start, armed, head, x1, Seq::<Sample>::empty(), tail, base as int);
}

/// Loading `X2` on an idle accelerator succeeds and fills the region with
/// the feed-forward taps followed by the feed-back taps.
pub proof fn lemma_x2_is_loaded(start: Accelerator, b: Seq<Sample>, a: Seq<Sample>, base: u8)
    requires
        start.wf(),
        !start.busy(),
        b.len() + a.len() <= 255,
        base + b.len() + a.len() <= CAPACITY,
    ensures
        loaded(start, start.run(x2_load(b, a, base)), base as int, words(b) + words(a)),
        start.run(x2_load(b, a, base)).x1_base == start.x1_base,
        start.run(x2_load(b, a, base)).x2_base == base,
        start.run(x2_load(b, a, base)).y_base == start.y_base,
{
    let head = seq![
        Command::ExpectIdle,
        Command::ConfigureX2 { base, size: (b.len() + a.len()) as u8 },
        Command::Param {
            p: b.len() as u8,
            q: a.len() as u8,
            r: 0,
            func: Function::LoadX2,
            start: true,
        },
    ];
    let tail = seq![Command::ExpectIdle];
    let armed = lemma_head_arms(start, head, base as int, b.len() + a.len());
    lemma_load_completes(start, armed, head, b, a, tail, base as int);
}

/// Loading `Y` on an idle accelerator succeeds and fills the region.
pub proof fn lemma_y_is_loaded(start: Accelerator, y: Seq<Sample>, base: u8)
    requires
        start.wf(),
        !start.busy(),
        y.len() <= 255,
        base + y.len() <= CAPACITY,
    ensures
        loaded(start, start.run(y_load(y, base)), base as int, words(y)),
        start.run(y_load(y, base)).x1_base == start.x1_base,
        start.run(y_load(y, base)).x2_base == start.x2_base,
        start.run(y_load(y, base)).y_base == base,
{
    let head = seq![
        Command::ExpectIdle,
        Command::ConfigureY { base, size: y.len() as u8, empty_watermark: 0 },
        Command::Param { p: y.len() as u8, q: 0, r: 0, func: Function::LoadY, start: true },
    ];
    let tail = seq![Command::ExpectIdle];
    let armed = lemma_head_arms(start, head, base as int, y.len());
    lemma_load_completes(start, armed, head, y, Seq::<Sample>::empty(), tail, base as int);
}

/// The three commands that open a region load, run on an idle
/// accelerator: the idle expectation holds and the load is in flight.
proof fn lemma_head_arms(start: Accelerator, head: Seq<Command>, base: int, count: nat) -> (armed:
    Accelerator)
    requires
        !start.busy(),
        head.len() == 3,
        head[0] == Command::ExpectIdle,
        start.step(head[0]).step(head[1]).step(head[2]) == start.step(head[0]).step(
            head[1],
        ).loading(base, count),
    ensures
        armed == start.run(head),
        armed == start.step(head[0]).step(head[1]).loading(base, count),
{
    let s1 = start.step(head[0]);
    let s2 = s1.step(head[1]);
    let s3 = s2.step(head[2]);
    let h1 = head.drop_first();
    let h2 = h1.drop_first();
    let h3 = h2.drop_first();
    assert(s2.run(h2) == s2.step(h2[0]).run(h3));
    assert(start.run(head) == s1.run(h1));
    s3
}

/// A load that is in flight for as many words as `first` and `second`
/// hold together takes them all and is over at the closing idle
/// expectation.
proof fn lemma_load_completes(
    start: Accelerator,
    armed: Accelerator,
    head: Seq<Command>,
    first: Seq<Sample>,
    second: Seq<Sample>,
    tail: Seq<Command>,
    base: int,
)
    requires
        start.wf(),
        !start.busy(),
        armed == start.run(head),
        armed == (Accelerator {
            x1_base: armed.x1_base,
            x2_base: armed.x2_base,
            y_base: armed.y_base,
            load: armed.load,
            ..start
        }),
        armed.load == start.loading(base, first.len() + second.len()).load,
        0 <= base,
        base + first.len() + second.len() <= CAPACITY,
        tail == seq![Command::ExpectIdle],
    ensures
        ({
            let end = start.run(head + data_writes(first) + data_writes(second) + tail);
            &&& loaded(start, end, base, words(first) + words(second))
            &&& end.x1_base == armed.x1_base
            &&& end.x2_base == armed.x2_base
            &&& end.y_base == armed.y_base
        }),
{
    let total = first.len() + second.len();
    lemma_run_joined(start, head + data_writes(first) + data_writes(second), tail);
    lemma_run_joined(start, head + data_writes(first), data_writes(second));
    lemma_run_joined(start, head, data_writes(first));
    let after_first = armed.run(data_writes(first));
    let after_second = after_first.run(data_writes(second));
    let end = after_second.run(tail);
    lemma_run_one(after_second, Command::ExpectIdle);
    if first.len() > 0 {
        lemma_words_are_loaded(armed, first);
    }
    if second.len() > 0 {
        lemma_words_are_loaded(after_first, second);
    }
    assert(end.memory.subrange(base, base + total) =~= words(first) + words(second));
}

/// What a configured accelerator looks like: idle, clock on, filtering
/// started by `start`, and the three regions back to back from address
/// zero holding the samples they were given.
pub open spec fn configured(
    end: Accelerator,
    x1: Seq<Sample>,
    x2: Seq<Sample>,
    y: Seq<Sample>,
    start: Command,
) -> bool {
    &&& end.wf()
    &&& !end.busy()
    &&& end.clock_on
    &&& end.running == Some(start)
    &&& end.x1_base == 0
    &&& end.x2_base == x1.len()
    &&& end.y_base == x1.len() + x2.len()
    &&& end.holds(0, words(x1))
    &&& end.holds(x1.len() as int, words(x2))
    &&& end.holds((x1.len() + x2.len()) as int, words(y))
}

/// Preloading the three buffers on an idle accelerator never fails, and
/// leaves `X1` at address zero, `X2` behind it with the feed-forward taps
/// before the feed-back taps, and `Y` behind `X2`, each holding its
/// samples.
pub proof fn lemma_buffers_are_loaded(
    start: Accelerator,
    x1: Seq<Sample>,
    b: Seq<Sample>,
    a: Seq<Sample>,
    y: Seq<Sample>,
)
    requires
        start.wf(),
        !start.busy(),
        regions_fit(x1.len(), b.len() + a.len(), y.len()),
    ensures
        ({
            let end = start.run(buffers_load(x1, b, a, y));
            &&& end.wf()
            &&& !end.busy()
            &&& end.failed == start.failed
            &&& end.clock_on == start.clock_on
            &&& end.running == start.running
            &&& end.x1_base == 0
            &&& end.x2_base == x1.len()
            &&& end.y_base == x1.len() + b.len() + a.len()
            &&& end.holds(0, words(x1))
            &&& end.holds(x1.len() as int, words(b) + words(a))
            &&& end.holds((x1.len() + b.len() + a.len()) as int, words(y))
        }),
{
    let n1 = x1.len();
    let n2 = b.len() + a.len();
    let p1 = x1_load(x1, 0);
    let p2 = x2_load(b, a, n1 as u8);
    let p3 = y_load(y, (n1 + n2) as u8);
    lemma_run_joined(start, p1 + p2, p3);
    lemma_run_joined(start, p1, p2);
    let s1 = start.run(p1);
    let s2 = s1.run(p2);
    let s3 = s2.run(p3);
    lemma_x1_is_loaded(start, x1, 0);
    lemma_x2_is_loaded(s1, b, a, n1 as u8);
    lemma_y_is_loaded(s2, y, (n1 + n2) as u8);
    assert(s3.memory.subrange(0, n1 as int) =~= words(x1));
    assert(s3.memory.subrange(n1 as int, (n1 + n2) as int) =~= words(b) + words(a));
}

/// The program of a FIR filter configures the accelerator, whatever state
/// it was in: nothing goes wrong on the way, so no idle expectation
/// fails and no word is lost, and the regions hold the initial samples,
/// the taps and the initial outputs.
pub proof fn lemma_fir_program_configures(
    start: Accelerator,
    x1: Seq<Sample>,
    x2: Seq<Sample>,
    y: Seq<Sample>,
    r: Gain,
)
    requires
        start.wf(),
        fir_lengths_ok(x1.len(), x2.len(), y.len()),
    ensures
        start.run(fir_program(x1, x2, y, r)).failed == start.failed,
        configured(
            start.run(fir_program(x1, x2, y, r)),
            x1,
            x2,
            y,
            Command::Param {
                p: x1.len() as u8,
                q: 0,
                r: r.spec_exponent(),
                func: Function::Fir,
                start: true,
            },
        ),
{
    let none = Seq::<Sample>::empty();
    let begin = Command::Param {
        p: x1.len() as u8,
        q: 0,
        r: r.spec_exponent(),
        func: Function::Fir,
        start: true,
    };
    lemma_program_configures(start, x1, x2, none, y, begin);
}

/// The program of an IIR filter configures the accelerator, whatever
/// state it was in: nothing goes wrong on the way, so no idle expectation
/// fails and no word is lost, and the regions hold the initial samples,
/// the feed-forward taps followed by the feed-back taps, and the initial
/// outputs.
pub proof fn lemma_iir_program_configures(
    start: Accelerator,
    x1: Seq<Sample>,
    b: Seq<Sample>,
    a: Seq<Sample>,
    y: Seq<Sample>,
    r: Gain,
)
    requires
        start.wf(),
        iir_lengths_ok(x1.len(), b.len(), a.len(), y.len()),
    ensures
        start.run(iir_program(x1, b, a, y, r)).failed == start.failed,
        configured(
            start.run(iir_program(x1, b, a, y, r)),
            x1,
            b + a,
            y,
            Command::Param {
                p: b.len() as u8,
                q: a.len() as u8,
                r: r.spec_exponent(),
                func: Function::Iir,
                start: true,
            },
        ),
{
    let begin = Command::Param {
        p: b.len() as u8,
        q: a.len() as u8,
        r: r.spec_exponent(),
        func: Function::Iir,
        start: true,
    };
    lemma_program_configures(start, x1, b, a, y, begin);
    assert(words(b) + words(a) =~= words(b + a));
}

/// Clock, reset, the three loads and the starting parameter write
/// configure the accelerator from any state.
proof fn lemma_program_configures(
    start: Accelerator,
    x1: Seq<Sample>,
    b: Seq<Sample>,
    a: Seq<Sample>,
    y: Seq<Sample>,
    begin: Command,
)
    requires
        start.wf(),
        regions_fit(x1.len(), b.len() + a.len(), y.len()),
        begin matches Command::Param { func, start, .. } && start && (func == Function::Fir || func
            == Function::Iir),
    ensures
        ({
            let end = start.run(
                seq![Command::EnableClock, Command::ResetPeripheral] + buffers_load(x1, b, a, y)
                    + seq![begin],
            );
            &&& end.wf()
            &&& !end.busy()
            &&& end.failed == start.failed
            &&& end.clock_on
            &&& end.running == Some(begin)
            &&& end.x1_base == 0
            &&& end.x2_base == x1.len()
            &&& end.y_base == x1.len() + b.len() + a.len()
            &&& end.holds(0, words(x1))
            &&& end.holds(x1.len() as int, words(b) + words(a))
            &&& end.holds((x1.len() + b.len() + a.len()) as int, words(y))
        }),
{
    let clock = seq![Command::EnableClock, Command::ResetPeripheral];
    let loads = buffers_load(x1, b, a, y);
    let last = seq![begin];
    lemma_run_joined(start, clock + loads, last);
    lemma_run_joined(start, clock, loads);
    let s0 = start.step(Command::EnableClock).step(Command::ResetPeripheral);
    assert(start.run(clock) == s0) by {
        let c1 = clock.drop_first();
        assert(start.step(clock[0]).run(c1) == start.step(clock[0]).step(c1[0]).run(
            c1.drop_first(),
        ));
    }
    lemma_buffers_are_loaded(s0, x1, b, a, y);
    let s1 = s0.run(loads);
    lemma_run_one(s1, begin);
}

} // verus!
