use stm32g4xx_hal::independent_watchdog::{
    Command, IndependentWatchdog, Iwdg, Key, Prescaler, CLOCK_SPEED, MAX_COUNTER_VALUE, MAX_MILLIS,
};
use stm32g4xx_hal::time::MilliSecond;

fn ms(n: u32) -> MilliSecond {
    MilliSecond::from_millis(n)
}

fn watchdog() -> IndependentWatchdog {
    IndependentWatchdog::new(Iwdg::new())
}

const ALL: [Prescaler; 8] = [
    Prescaler::DivideBy4,
    Prescaler::DivideBy8,
    Prescaler::DivideBy16,
    Prescaler::DivideBy32,
    Prescaler::DivideBy64,
    Prescaler::DivideBy128,
    Prescaler::DivideBy256,
    Prescaler::DivideBy256bis,
];

#[test]
fn dividers() {
    let expected = [4, 8, 16, 32, 64, 128, 256, 256];
    for (p, d) in ALL.iter().zip(expected) {
        assert_eq!(IndependentWatchdog::get_prescaler_divider(p), d);
    }
}

#[test]
fn feed_reloads_the_counter() {
    assert_eq!(watchdog().feed(), Command::WriteKey(Key::Reset));
}

#[test]
fn prescaler_is_the_finest_that_reaches_the_time() {
    // the longest time of each prescaler, from the counter range and the clock
    let max_millis: Vec<u32> = ALL
        .iter()
        .map(|p| {
            (MAX_COUNTER_VALUE * 1000) / (CLOCK_SPEED / IndependentWatchdog::get_prescaler_divider(p))
        })
        .collect();
    assert_eq!(max_millis, vec![511, 1023, 2047, 4095, 8190, 16380, 32760, 32760]);
    assert_eq!(MAX_MILLIS, 32760);
    for millis in [0u32, 1, 511, 512, 1023, 1024, 2047, 2048, 4095, 4096, 8190, 8191, 16380, 16381, 32760] {
        let first = ALL.iter().zip(&max_millis).find(|(_, max)| **max >= millis).unwrap().0;
        assert_eq!(IndependentWatchdog::select_prescaler(millis), *first, "{millis} ms");
    }
}

#[test]
fn start_program_for_one_second() {
    // 1000 ms needs /8: reload = 1000 * 32 / 8 = 4000
    let program = watchdog().start(ms(1000));
    assert_eq!(
        program,
        vec![
            Command::WriteKey(Key::Start),
            Command::WriteKey(Key::Enable),
            Command::AwaitPrescalerUpdate,
            Command::SetPrescaler(Prescaler::DivideBy8),
            Command::AwaitWindowUpdate,
            Command::SetWindow(0x0fff),
            Command::AwaitReloadUpdate,
            Command::SetReload(4000),
            Command::WriteKey(Key::Reset),
            Command::WriteKey(Key::Enable),
            Command::AwaitWindowUpdate,
            Command::SetWindow(4000),
            Command::AwaitIdle,
            Command::WriteKey(Key::Reset),
        ]
    );
}

#[test]
fn windowed_start_sets_the_window_below_the_reload() {
    // 2000 ms needs /16: reload = 2000 * 32 / 16 = 4000, window = 500 * 2 = 1000
    let program = watchdog().start_windowed(ms(500), ms(2000));
    assert_eq!(program[3], Command::SetPrescaler(Prescaler::DivideBy16));
    assert_eq!(program[7], Command::SetReload(4000));
    assert_eq!(program[11], Command::SetWindow(3000));
    assert_eq!(program.len(), 14);
}

#[test]
fn start_is_a_window_from_zero() {
    for max in [0u32, 1, 100, 511, 512, 5000, 32760] {
        assert_eq!(watchdog().start(ms(max)), watchdog().start_windowed(ms(0), ms(max)));
    }
}

#[test]
fn counter_values_always_fit_twelve_bits() {
    for max in (0..=MAX_MILLIS).step_by(7).chain([MAX_MILLIS]) {
        let program = watchdog().start_windowed(ms(max / 3), ms(max));
        let divider = match program[3] {
            Command::SetPrescaler(p) => IndependentWatchdog::get_prescaler_divider(&p),
            other => panic!("{other:?}"),
        };
        let reload = max * 32 / divider;
        let window = (max / 3) * 32 / divider;
        assert!(reload <= MAX_COUNTER_VALUE);
        assert_eq!(program[7], Command::SetReload(reload as u16));
        assert_eq!(program[11], Command::SetWindow((reload - window) as u16));
    }
}

#[test]
fn longest_time_uses_the_whole_counter() {
    let program = watchdog().start(ms(MAX_MILLIS));
    assert_eq!(program[3], Command::SetPrescaler(Prescaler::DivideBy256));
    assert_eq!(program[7], Command::SetReload(4095));
}

#[test]
fn window_equal_to_the_time_closes_the_window_register() {
    let program = watchdog().start_windowed(ms(300), ms(300));
    assert_eq!(program[7], Command::SetReload(2400));
    assert_eq!(program[11], Command::SetWindow(0));
}

#[test]
fn supported_windows() {
    assert!(IndependentWatchdog::supports_window(ms(0), ms(0)));
    assert!(IndependentWatchdog::supports_window(ms(0), ms(MAX_MILLIS)));
    assert!(IndependentWatchdog::supports_window(ms(MAX_MILLIS), ms(MAX_MILLIS)));
    assert!(!IndependentWatchdog::supports_window(ms(0), ms(MAX_MILLIS + 1)));
    assert!(!IndependentWatchdog::supports_window(ms(2), ms(1)));
}
