use std::ops::{Deref, DerefMut};
use stm32g4xx_hal::observable::{Observable, ObservationLock, ObservationToken, Observed};
use stm32g4xx_hal::Sealed;

#[derive(Debug, Clone, PartialEq)]
struct Pin {
    mode: u8,
    pull_up: bool,
    samples: Vec<u16>,
}

impl Pin {
    fn analog() -> Pin {
        Pin { mode: 3, pull_up: false, samples: vec![] }
    }

    fn sample(&mut self) -> u16 {
        let v = 100 + self.samples.len() as u16;
        self.samples.push(v);
        v
    }

    /// Reconfiguring takes the pin by value.
    fn into_output(self) -> Pin {
        Pin { mode: 1, ..self }
    }
}

impl Observable for Pin {}

impl Sealed for Pin {}

/// Stands for a comparator input: it takes anything that proves the pin
/// keeps its mode.
fn comparator_input<L: ObservationLock<Peripheral = Pin>>(_lock: L) -> usize {
    std::mem::size_of::<L>()
}

#[test]
fn release_gives_back_the_same_peripheral() {
    let pin = Pin { mode: 7, pull_up: true, samples: vec![1, 2, 3] };
    let (observed, tokens): (Observed<Pin, 3>, [ObservationToken<Pin>; 3]) = pin.clone().observe();
    assert_eq!(observed.release(tokens), pin);
}

#[test]
fn release_works_for_every_observer_count() {
    let pin = Pin::analog();
    let (observed, tokens) = pin.clone().observe::<0>();
    assert_eq!(observed.release(tokens), pin);
    let (observed, tokens) = pin.clone().observe::<1>();
    assert_eq!(observed.release(tokens), pin);
    let (observed, tokens) = pin.clone().observe::<16>();
    assert_eq!(tokens.len(), 16);
    assert_eq!(observed.release(tokens), pin);
}

#[test]
fn tokens_hold_nothing() {
    assert_eq!(std::mem::size_of::<ObservationToken<Pin>>(), 0);
    assert_eq!(std::mem::size_of::<[ObservationToken<Pin>; 8]>(), 0);
    assert_eq!(std::mem::size_of::<Observed<Pin, 8>>(), std::mem::size_of::<Pin>());
}

#[test]
fn observed_peripheral_stays_usable() {
    let (mut observed, [token]) = Pin::analog().observe();
    assert_eq!(observed.as_ref().mode, 3);
    assert_eq!(observed.as_mut().sample(), 100);
    assert_eq!(observed.sample(), 101);
    assert_eq!(observed.deref().samples, vec![100, 101]);
    observed.deref_mut().pull_up = true;
    let pin = observed.release([token]);
    assert_eq!(pin, Pin { mode: 3, pull_up: true, samples: vec![100, 101] });
    // only now can it be reconfigured
    assert_eq!(pin.into_output().mode, 1);
}

#[test]
fn tokens_can_be_handed_out_and_come_back_in_any_order() {
    let (observed, [first, second]) = Pin::analog().observe();
    let pin = observed.release([second, first]);
    assert_eq!(pin, Pin::analog());
}

#[test]
fn token_and_peripheral_both_serve_as_lock() {
    let (observed, [token]) = Pin::analog().observe();
    assert_eq!(comparator_input(token), 0);
    // the token was consumed: the observation can no longer be released,
    // the pin stays as it is for good
    assert_eq!(observed.as_ref().mode, 3);
    assert_eq!(comparator_input(Pin::analog()), std::mem::size_of::<Pin>());
}
