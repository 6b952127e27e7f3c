//! Independent watchdog: the peripheral resets the system when its
//! down-counter expires, unless it is fed in time.
//!
//! The functions here choose the prescaler, compute the counter values
//! and lay out the register accesses that start the watchdog.

use vstd::prelude::*;
use crate::time::MilliSecond;

verus! {

/// Frequency of the watchdog's clock in hertz.
pub const CLOCK_SPEED: u32 = 32000;

/// Largest value of the down-counter.
pub const MAX_COUNTER_VALUE: u32 = 0x0000_0FFF;

/// Longest time in milliseconds the watchdog can be set to.
pub const MAX_MILLIS: u32 = 32760;

/// Division of the watchdog's clock before it reaches the counter.
#[derive(Clone, Copy, Debug, PartialEq, Eq, Structural)]
pub enum Prescaler {
    DivideBy4,
    DivideBy8,
    DivideBy16,
    DivideBy32,
    DivideBy64,
    DivideBy128,
    DivideBy256,
    DivideBy256bis,
}

/// A value written to the key register.
#[derive(Clone, Copy, Debug, PartialEq, Eq, Structural)]
pub enum Key {
    /// Reloads the counter.
    Reset,
    /// Starts the watchdog.
    Start,
    /// Unlocks the prescaler, reload and window registers.
    Enable,
}

/// One step of a watchdog program.
#[derive(Clone, Copy, Debug, PartialEq, Eq, Structural)]
pub enum Command {
    /// Write the key register.
    WriteKey(Key),
    /// Wait until the prescaler-update flag of the status register is
    /// clear.
    AwaitPrescalerUpdate,
    /// Wait until the reload-update flag of the status register is clear.
    AwaitReloadUpdate,
    /// Wait until the window-update flag of the status register is clear.
    AwaitWindowUpdate,
    /// Wait until the status register reads zero.
    AwaitIdle,
    /// Write the prescaler register.
    SetPrescaler(Prescaler),
    /// Write the reload register.
    SetReload(u16),
    /// Write the window register.
    SetWindow(u16),
}

impl Prescaler {
    /// The factor by which the prescaler divides the clock.
    pub open spec fn divider(self) -> u32 {
        match self {
            Prescaler::DivideBy4 => 4,
            Prescaler::DivideBy8 => 8,
            Prescaler::DivideBy16 => 16,
            Prescaler::DivideBy32 => 32,
            Prescaler::DivideBy64 => 64,
            Prescaler::DivideBy128 => 128,
            Prescaler::DivideBy256 => 256,
            Prescaler::DivideBy256bis => 256,
        }
    }

    /// The longest time in whole milliseconds the counter can run with
    /// this prescaler.
    pub open spec fn max_millis(self) -> int {
        match self {
            Prescaler::DivideBy4 => 511,
            Prescaler::DivideBy8 => 1023,
            Prescaler::DivideBy16 => 2047,
            Prescaler::DivideBy32 => 4095,
            Prescaler::DivideBy64 => 8190,
            Prescaler::DivideBy128 => 16380,
            Prescaler::DivideBy256 => 32760,
            Prescaler::DivideBy256bis => 32760,
        }
    }

    /// The prescaler for a time of `millis`: the finest one whose longest
    /// time reaches it.
    pub open spec fn for_millis(millis: int) -> Prescaler {
        if millis <= Prescaler::DivideBy4.max_millis() {
            Prescaler::DivideBy4
        } else if millis <= Prescaler::DivideBy8.max_millis() {
            Prescaler::DivideBy8
        } else if millis <= Prescaler::DivideBy16.max_millis() {
            Prescaler::DivideBy16
        } else if millis <= Prescaler::DivideBy32.max_millis() {
            Prescaler::DivideBy32
        } else if millis <= Prescaler::DivideBy64.max_millis() {
            Prescaler::DivideBy64
        } else if millis <= Prescaler::DivideBy128.max_millis() {
            Prescaler::DivideBy128
        } else {
            Prescaler::DivideBy256
        }
    }
}

/// Ticks of the undivided clock per millisecond.
pub const TICKS_PER_MILLI: u32 = 32;

/// The counter value that runs for `millis` milliseconds at `prescaler`:
/// the ticks of the undivided clock in that time, divided by the
/// prescaler's factor.
pub open spec fn counter_value(millis: int, prescaler: Prescaler) -> int {
    match prescaler {
        Prescaler::DivideBy4 => millis * TICKS_PER_MILLI / 4,
        Prescaler::DivideBy8 => millis * TICKS_PER_MILLI / 8,
        Prescaler::DivideBy16 => millis * TICKS_PER_MILLI / 16,
        Prescaler::DivideBy32 => millis * TICKS_PER_MILLI / 32,
        Prescaler::DivideBy64 => millis * TICKS_PER_MILLI / 64,
        Prescaler::DivideBy128 => millis * TICKS_PER_MILLI / 128,
        Prescaler::DivideBy256 => millis * TICKS_PER_MILLI / 256,
        Prescaler::DivideBy256bis => millis * TICKS_PER_MILLI / 256,
    }
}

/// The program that starts the watchdog so that it must be fed no
/// earlier than `min` and no later than `max` milliseconds after the
/// last feed.
pub open spec fn windowed_program(min: int, max: int) -> Seq<Command> {
    let prescaler = Prescaler::for_millis(max);
    let reload = counter_value(max, prescaler);
    let window = counter_value(min, prescaler);
    seq![
        Command::WriteKey(Key::Start),
        Command::WriteKey(Key::Enable),
        Command::AwaitPrescalerUpdate,
        Command::SetPrescaler(prescaler),
        Command::AwaitWindowUpdate,
        Command::SetWindow(MAX_COUNTER_VALUE as u16),
        Command::AwaitReloadUpdate,
        Command::SetReload(reload as u16),
        Command::WriteKey(Key::Reset),
        Command::WriteKey(Key::Enable),
        Command::AwaitWindowUpdate,
        Command::SetWindow((reload - window) as u16),
        Command::AwaitIdle,
        Command::WriteKey(Key::Reset),
    ]
}

/// Exclusive ownership of the watchdog peripheral.
pub struct Iwdg {
    _owned: (),
}

impl Iwdg {
    /// Takes ownership of the watchdog peripheral.
    pub fn new() -> Iwdg {
        Iwdg { _owned: () }
    }
}

/// The implementation of the hardware IWDG
pub struct IndependentWatchdog {
    iwdg: Iwdg,
}

impl IndependentWatchdog {
    /// Create a new instance
    pub fn new(iwdg: Iwdg) -> Self {
        Self { iwdg }
    }

    /// Feed the watchdog, resetting the timer to 0
    pub fn feed(&mut self) -> (command: Command)
        ensures
            command == Command::WriteKey(Key::Reset),
            *final(self) == *old(self),
    {
        Command::WriteKey(Key::Reset)
    }

    /// Whether the watchdog can be started with this window: the longest
    /// time is within reach and the window does not open after it closes.
    pub open spec fn window_ok(min: nat, max: nat) -> bool {
        min <= max <= MAX_MILLIS
    }

    /// Whether [`IndependentWatchdog::start_windowed`] accepts this
    /// window.
    pub fn supports_window(min_window_time: MilliSecond, max_window_time: MilliSecond) -> (ok: bool)
        ensures
            ok == Self::window_ok(min_window_time@, max_window_time@),
    {
        min_window_time.to_millis() <= max_window_time.to_millis() && max_window_time.to_millis()
            <= MAX_MILLIS
    }

    /// The prescaler for a longest time of `millis` milliseconds.
    pub fn select_prescaler(millis: u32) -> (prescaler: Prescaler)
        requires
            millis <= MAX_MILLIS,
        ensures
            prescaler == Prescaler::for_millis(millis as int),
            millis <= prescaler.max_millis(),
            0 <= counter_value(millis as int, prescaler) <= MAX_COUNTER_VALUE,
    {
        proof {
            lemma_counter_values_fit(millis as nat, millis as nat);
        }
        if millis <= 511 {
            Prescaler::DivideBy4
        } else if millis <= 1023 {
            Prescaler::DivideBy8
        } else if millis <= 2047 {
            Prescaler::DivideBy16
        } else if millis <= 4095 {
            Prescaler::DivideBy32
        } else if millis <= 8190 {
            Prescaler::DivideBy64
        } else if millis <= 16380 {
            Prescaler::DivideBy128
        } else {
            Prescaler::DivideBy256
        }
    }

    /// Start the watchdog where it must be fed before the max time is over and
    /// not before the min time has passed
    pub fn start_windowed(
        &mut self,
        min_window_time: MilliSecond,
        max_window_time: MilliSecond,
    ) -> (program: Vec<Command>)
        requires
            Self::window_ok(min_window_time@, max_window_time@),
        ensures
            program@ == windowed_program(min_window_time@ as int, max_window_time@ as int),
            *final(self) == *old(self),
    {
        let max: u32 = max_window_time.to_millis();
        let min: u32 = min_window_time.to_millis();
        let prescaler = Self::select_prescaler(max);
        let divider: u32 = Self::get_prescaler_divider(&prescaler);
        let reload_value: u32 = max * (CLOCK_SPEED / 1000) / divider;
        let window_value: u32 = min * (CLOCK_SPEED / 1000) / divider;
        proof {
            lemma_counter_values_fit(min as nat, max as nat);
        }
        let mut program: Vec<Command> = Vec::new();
        program.push(Command::WriteKey(Key::Start));
        program.push(Command::WriteKey(Key::Enable));
        program.push(Command::AwaitPrescalerUpdate);
        program.push(Command::SetPrescaler(prescaler));
        program.push(Command::AwaitWindowUpdate);
        program.push(Command::SetWindow(MAX_COUNTER_VALUE as u16));
        program.push(Command::AwaitReloadUpdate);
        program.push(Command::SetReload(reload_value as u16));
        program.push(self.feed());
        program.push(Command::WriteKey(Key::Enable));
        program.push(Command::AwaitWindowUpdate);
        program.push(Command::SetWindow((reload_value - window_value) as u16));
        program.push(Command::AwaitIdle);
        program.push(self.feed());
        program
    }

    /// Start the watchdog with the given max time and no minimal time
    pub fn start(&mut self, max_time: MilliSecond) -> (program: Vec<Command>)
        requires
            max_time@ <= MAX_MILLIS,
        ensures
            program@ == windowed_program(0, max_time@ as int),
            *final(self) == *old(self),
    {
        self.start_windowed(MilliSecond::from_millis(0), max_time)
    }

    /// The factor by which `prescaler` divides the clock.
    pub fn get_prescaler_divider(prescaler: &Prescaler) -> (divider: u32)
        ensures
            divider == prescaler.divider(),
    {
        match prescaler {
            Prescaler::DivideBy4 => 4,
            Prescaler::DivideBy8 => 8,
            Prescaler::DivideBy16 => 16,
            Prescaler::DivideBy32 => 32,
            Prescaler::DivideBy64 => 64,
            Prescaler::DivideBy128 => 128,
            Prescaler::DivideBy256 => 256,
            Prescaler::DivideBy256bis => 256,
        }
    }
}

/// The longest time of a prescaler is the time the full counter takes at
/// the divided clock, in whole milliseconds.
pub proof fn lemma_max_millis_formula(prescaler: Prescaler)
    ensures
        prescaler.max_millis() == (MAX_COUNTER_VALUE * 1000) / (CLOCK_SPEED as int
            / prescaler.divider() as int),
        prescaler.max_millis() <= MAX_MILLIS,
{
    assert(32000int / 4 == 8000 && 4095000int / 8000 == 511);
    assert(32000int / 8 == 4000 && 4095000int / 4000 == 1023);
    assert(32000int / 16 == 2000 && 4095000int / 2000 == 2047);
    assert(32000int / 32 == 1000 && 4095000int / 1000 == 4095);
    assert(32000int / 64 == 500 && 4095000int / 500 == 8190);
    assert(32000int / 128 == 250 && 4095000int / 250 == 16380);
    assert(32000int / 256 == 125 && 4095000int / 125 == 32760);
}

/// The prescaler chosen for a time is the finest that reaches it: it
/// reaches the time, and every prescaler that does divides at least as
/// much.
pub proof fn lemma_finest_prescaler(millis: int, other: Prescaler)
    requires
        0 <= millis <= MAX_MILLIS,
    ensures
        millis <= Prescaler::for_millis(millis).max_millis(),
        millis <= other.max_millis() ==> Prescaler::for_millis(millis).divider()
            <= other.divider(),
{
}

/// The counter value is the number of clock ticks in the time, divided
/// by the prescaler's factor.
pub proof fn lemma_counter_value_formula(millis: int, prescaler: Prescaler)
    ensures
        TICKS_PER_MILLI == CLOCK_SPEED / 1000,
        counter_value(millis, prescaler) == millis * (CLOCK_SPEED as int / 1000) / (
        prescaler.divider() as int),
{
}

/// Every time within reach gives counter values that fit the twelve-bit
/// counter, and the window value never exceeds the reload value.
pub proof fn lemma_counter_values_fit(min: nat, max: nat)
    requires
        IndependentWatchdog::window_ok(min, max),
    ensures
        0 <= counter_value(min as int, Prescaler::for_millis(max as int)) <= counter_value(
            max as int,
            Prescaler::for_millis(max as int),
        ) <= MAX_COUNTER_VALUE,
{
}

} // verus!
