//! I2C bus configuration and the timing word derived from it.

use vstd::prelude::*;
use crate::time::Hertz;

verus! {

/// Largest number of digital filter cycles a configuration can ask for.
pub const MAX_DIGITAL_FILTER: u8 = 16;

/// Fastest bus speed that still gets standard-mode timing.
pub const STANDARD_MODE_MAX: u32 = 100_000;

/// I2C bus configuration.
///
/// It names either a bus speed, from which the timing is derived, or a
/// ready-made timing word, never both and never neither.
pub struct Config {
    speed: Option<Hertz>,
    timing: Option<u32>,
    analog_filter: bool,
    digital_filter: u8,
}

/// The prescaler and delays that go with a bus speed: standard mode up
/// to 100 kHz, fast mode above.
pub struct TimingProfile {
    /// Prescaler field.
    pub psc: u32,
    /// How far the SCL high period is shorter than the low period.
    pub high_margin: u32,
    /// Data hold time field.
    pub sdadel: u32,
    /// Data setup time field.
    pub scldel: u32,
}

/// The timing profile for a bus speed of `speed` hertz.
pub open spec fn profile_of(speed: int) -> TimingProfile {
    if speed <= STANDARD_MODE_MAX {
        TimingProfile { psc: 3, high_margin: 4, sdadel: 2, scldel: 4 }
    } else {
        TimingProfile { psc: 1, high_margin: 6, sdadel: 1, scldel: 3 }
    }
}

/// The SCL low period for a peripheral clock of `clk` hertz, a bus speed
/// of `speed` hertz and prescaler `psc`: one less than the number of
/// prescaled half-clock ticks per bus cycle, capped at 255.
pub open spec fn scl_low(clk: int, speed: int, psc: int) -> int {
    let ticks = ((clk / 2) / (psc + 1)) / speed - 1;
    if ticks < 255 {
        ticks
    } else {
        255
    }
}

/// The timing register word with the given fields: prescaler in bits
/// 31-28, data setup time in 23-20, data hold time in 19-16, SCL high
/// period in 15-8 and SCL low period in 7-0.
pub open spec fn timing_word(psc: int, scldel: int, sdadel: int, sclh: int, scll: int) -> int {
    psc * 0x1000_0000 + scldel * 0x10_0000 + sdadel * 0x1_0000 + sclh * 0x100 + scll
}

impl Config {
    /// The bus speed, when the timing is to be derived from it.
    pub closed spec fn speed(&self) -> Option<Hertz> {
        self.speed
    }

    /// The timing word, when it was given ready-made.
    pub closed spec fn timing(&self) -> Option<u32> {
        self.timing
    }

    /// Whether the analog noise filter is on.
    pub closed spec fn analog_filter(&self) -> bool {
        self.analog_filter
    }

    /// The length of the digital noise filter, zero when it is off.
    pub closed spec fn digital_filter(&self) -> u8 {
        self.digital_filter
    }

    /// What every configuration meets: exactly one of speed and timing is
    /// given, and the digital filter length is in range.
    pub open spec fn wf(&self) -> bool {
        &&& self.speed().is_some() != self.timing().is_some()
        &&& self.digital_filter() <= MAX_DIGITAL_FILTER
    }

    #[verifier::type_invariant]
    spec fn inv(&self) -> bool {
        self.wf()
    }

    /// Creates a default configuration for the given bus frequency: analog
    /// filter on, digital filter off.
    pub fn new(speed: Hertz) -> (cfg: Self)
        ensures
            cfg.wf(),
            cfg.speed() == Some(speed),
            cfg.timing().is_none(),
            cfg.analog_filter(),
            cfg.digital_filter() == 0,
    {
        Config { speed: Some(speed), timing: None, analog_filter: true, digital_filter: 0 }
    }

    /// Creates a default configuration with fully-customized timing:
    /// `timing` is the value of the timing register.
    pub fn with_timing(timing: u32) -> (cfg: Self)
        ensures
            cfg.wf(),
            cfg.speed().is_none(),
            cfg.timing() == Some(timing),
            cfg.analog_filter(),
            cfg.digital_filter() == 0,
    {
        Config { timing: Some(timing), speed: None, analog_filter: true, digital_filter: 0 }
    }

    /// Disables the analog noise filter.
    pub fn disable_analog_filter(self) -> (cfg: Self)
        ensures
            cfg.wf(),
            !cfg.analog_filter(),
            cfg.speed() == self.speed(),
            cfg.timing() == self.timing(),
            cfg.digital_filter() == self.digital_filter(),
    {
        proof {
            use_type_invariant(&self);
        }
        Config {
            speed: self.speed,
            timing: self.timing,
            analog_filter: false,
            digital_filter: self.digital_filter,
        }
    }

    /// Enables the digital noise filter with a length of `cycles`.
    pub fn enable_digital_filter(self, cycles: u8) -> (cfg: Self)
        requires
            cycles <= MAX_DIGITAL_FILTER,
        ensures
            cfg.wf(),
            cfg.digital_filter() == cycles,
            cfg.speed() == self.speed(),
            cfg.timing() == self.timing(),
            cfg.analog_filter() == self.analog_filter(),
    {
        proof {
            use_type_invariant(&self);
        }
        Config {
            speed: self.speed,
            timing: self.timing,
            analog_filter: self.analog_filter,
            digital_filter: cycles,
        }
    }

    /// Whether the analog noise filter is on.
    pub fn analog_filter_enabled(&self) -> (on: bool)
        ensures
            on == self.analog_filter(),
    {
        self.analog_filter
    }

    /// The length of the digital noise filter, zero when it is off.
    pub fn filter_cycles(&self) -> (cycles: u8)
        ensures
            cycles == self.digital_filter(),
            cycles <= MAX_DIGITAL_FILTER,
    {
        proof {
            use_type_invariant(self);
        }
        self.digital_filter
    }

    /// Whether a timing word exists for a peripheral clock of `i2c_clk`: a
    /// ready-made word always does; a bus speed must not be zero and must
    /// leave the SCL high period at least zero.
    pub open spec fn timing_defined(&self, i2c_clk: Hertz) -> bool {
        self.timing().is_none() ==> {
            let speed = self.speed().unwrap()@ as int;
            let profile = profile_of(speed);
            &&& speed > 0
            &&& scl_low(i2c_clk@ as int, speed, profile.psc as int) >= profile.high_margin
        }
    }

    /// The timing word for a peripheral clock of `i2c_clk`: the ready-made
    /// one, or the one derived from the bus speed.
    pub open spec fn spec_timing_bits(&self, i2c_clk: Hertz) -> int {
        match self.timing() {
            Some(bits) => bits as int,
            None => {
                let speed = self.speed().unwrap()@ as int;
                let profile = profile_of(speed);
                let scll = scl_low(i2c_clk@ as int, speed, profile.psc as int);
                timing_word(
                    profile.psc as int,
                    profile.scldel as int,
                    profile.sdadel as int,
                    scll - profile.high_margin,
                    scll,
                )
            },
        }
    }

    /// Whether [`Config::timing_bits`] can be asked for the timing word at
    /// a peripheral clock of `i2c_clk`.
    pub fn supports_clock(&self, i2c_clk: Hertz) -> (ok: bool)
        ensures
            ok == self.timing_defined(i2c_clk),
    {
        proof {
            use_type_invariant(self);
        }
        match self.timing {
            Some(_) => true,
            None => {
                let speed: u32 = match self.speed {
                    Some(s) => s.raw(),
                    None => 0,
                };
                if speed == 0 {
                    false
                } else if speed <= STANDARD_MODE_MAX {
                    low_period(i2c_clk.raw(), speed, 3) >= 4
                } else {
                    low_period(i2c_clk.raw(), speed, 1) >= 6
                }
            },
        }
    }

    /// The value of the timing register for a peripheral clock of
    /// `i2c_clk`.
    pub fn timing_bits(&self, i2c_clk: Hertz) -> (bits: u32)
        requires
            self.timing_defined(i2c_clk),
        ensures
            bits == self.spec_timing_bits(i2c_clk),
    {
        proof {
            use_type_invariant(self);
        }
        if let Some(bits) = self.timing {
            return bits;
        }
        let speed: u32 = match self.speed {
            Some(s) => s.raw(),
            None => 1,
        };
        if speed <= STANDARD_MODE_MAX {
            let scll: u32 = low_period(i2c_clk.raw(), speed, 3);
            pack_timing(3, 4, 2, scll - 4, scll)
        } else {
            let scll: u32 = low_period(i2c_clk.raw(), speed, 1);
            pack_timing(1, 3, 1, scll - 6, scll)
        }
    }
}

/// The timing word holds its five fields apart: each can be read back
/// from its bits.
pub proof fn lemma_timing_fields(psc: u32, scldel: u32, sdadel: u32, sclh: u32, scll: u32)
    requires
        psc <= 15,
        scldel <= 15,
        sdadel <= 15,
        sclh <= 255,
        scll <= 255,
    ensures
        ({
            let word = timing_word(
                psc as int,
                scldel as int,
                sdadel as int,
                sclh as int,
                scll as int,
            ) as u32;
            &&& word == timing_word(
                psc as int,
                scldel as int,
                sdadel as int,
                sclh as int,
                scll as int,
            )
            &&& word >> 28 == psc
            &&& (word >> 20) & 0xf == scldel
            &&& (word >> 16) & 0xf == sdadel
            &&& (word >> 8) & 0xff == sclh
            &&& word & 0xff == scll
            &&& (word >> 24) & 0xf == 0
        }),
{
    let word: u32 = (psc * 0x1000_0000 + scldel * 0x10_0000 + sdadel * 0x1_0000 + sclh * 0x100
        + scll) as u32;
    assert(psc * 0x1000_0000 + scldel * 0x10_0000 + sdadel * 0x1_0000 + sclh * 0x100 + scll
        <= 0xffff_ffff) by (nonlinear_arith)
        requires
            psc <= 15,
            scldel <= 15,
            sdadel <= 15,
            sclh <= 255,
            scll <= 255,
    ;
    assert(word == psc << 28 | scldel << 20 | sdadel << 16 | sclh << 8 | scll) by (bit_vector)
        requires
            psc <= 15,
            scldel <= 15,
            sdadel <= 15,
            sclh <= 255,
            scll <= 255,
            word == (psc * 0x1000_0000 + scldel * 0x10_0000 + sdadel * 0x1_0000 + sclh * 0x100
                + scll) as u32,
    ;
    assert(word >> 28 == psc && (word >> 20) & 0xf == scldel && (word >> 16) & 0xf == sdadel && (
    word >> 8) & 0xff == sclh && word & 0xff == scll && (word >> 24) & 0xf == 0) by (bit_vector)
        requires
            psc <= 15,
            scldel <= 15,
            sdadel <= 15,
            sclh <= 255,
            scll <= 255,
            word == psc << 28 | scldel << 20 | sdadel << 16 | sclh << 8 | scll,
    ;
}

/// The SCL low period, or 255 when a slow bus would need a longer one. A
/// clock too slow for even one tick per bus cycle gives -1, as
/// [`scl_low`] does.
fn low_period(clk: u32, speed: u32, psc: u32) -> (scll: u32)
    requires
        speed > 0,
        psc <= 15,
    ensures
        scl_low(clk as int, speed as int, psc as int) >= 0 ==> scll == scl_low(
            clk as int,
            speed as int,
            psc as int,
        ),
        scl_low(clk as int, speed as int, psc as int) < 0 ==> scll == 0,
        scll <= 255,
{
    assert(clk >> 1 == clk / 2) by (bit_vector);
    let ticks: u32 = ((clk >> 1) / (psc + 1)) / speed;
    if ticks == 0 {
        0
    } else if ticks - 1 < 255 {
        ticks - 1
    } else {
        255
    }
}

/// Packs the five fields of the timing register into its word.
fn pack_timing(psc: u32, scldel: u32, sdadel: u32, sclh: u32, scll: u32) -> (bits: u32)
    requires
        psc <= 15,
        scldel <= 15,
        sdadel <= 15,
        sclh <= 255,
        scll <= 255,
    ensures
        bits == timing_word(psc as int, scldel as int, sdadel as int, sclh as int, scll as int),
{
    let bits: u32 = psc << 28 | scldel << 20 | sdadel << 16 | sclh << 8 | scll;
    assert(psc << 28 | scldel << 20 | sdadel << 16 | sclh << 8 | scll == psc * 0x1000_0000
        + scldel * 0x10_0000 + sdadel * 0x1_0000 + sclh * 0x100 + scll) by (bit_vector)
        requires
            psc <= 15,
            scldel <= 15,
            sdadel <= 15,
            sclh <= 255,
            scll <= 255,
    ;
    bits
}

} // verus!
