//! Sharing a peripheral between several users without letting any of
//! them reconfigure it.

use vstd::prelude::*;
use core::marker::PhantomData;
use core::ops::{Deref, DerefMut};
use crate::Sealed;

verus! {

/// Either a peripheral or a token that stands for one: what an interface
/// accepts when it only needs the peripheral to stay as it is.
pub trait ObservationLock: Sized + Sealed {
    /// The peripheral that is held or stood for.
    type Peripheral: Observable;
}

/// Holds a peripheral that is being observed.
///
/// The peripheral can still be used through the accessors, but it cannot
/// be taken out, and so cannot be reconfigured, until every one of the
/// `OBSERVER_COUNT` tokens is handed back to [`Observed::release`].
pub struct Observed<P, const OBSERVER_COUNT: usize> {
    peripheral: P,
}

/// Proof that a peripheral of type `P` is observed and will keep its
/// configuration while the token exists. It holds nothing.
pub struct ObservationToken<P> {
    _p: PhantomData<P>,
}

impl<P, const OBSERVER_COUNT: usize> View for Observed<P, OBSERVER_COUNT> {
    type V = P;

    /// The peripheral that is held.
    closed spec fn view(&self) -> P {
        self.peripheral
    }
}

impl<P> ObservationToken<P> {
    fn new() -> Self {
        ObservationToken { _p: PhantomData }
    }
}

/// `N` fresh tokens for a peripheral of type `P`, made by
/// `core::array::from_fn`, which fills each slot of the array by a call
/// of the closure it is given. Tokens carry no data, so nothing is
/// claimed of them.
#[verifier::external_body]
fn tokens<P, const N: usize>() -> [ObservationToken<P>; N] {
    core::array::from_fn(|_| ObservationToken::new())
}

impl<P, const OBSERVER_COUNT: usize> Observed<P, OBSERVER_COUNT> {
    /// The wrapper that holds `peripheral`.
    pub closed spec fn holding(peripheral: P) -> Self {
        Observed { peripheral }
    }
}

impl<P: Observable, const OBSERVER_COUNT: usize> Observed<P, OBSERVER_COUNT> {
    /// Ends the observation and hands the peripheral back, free to be
    /// reconfigured again. Takes every token that was given out.
    pub fn release(self, _data: [ObservationToken<P>; OBSERVER_COUNT]) -> (peripheral: P)
        ensures
            peripheral == self@,
    {
        self.peripheral
    }
}

/// A peripheral that can be observed.
pub trait Observable: Sized {
    /// Splits the peripheral into an [`Observed`] that holds it and `N`
    /// tokens. Interfaces that only need the peripheral to stay as it is
    /// take a token in its place.
    fn observe<const N: usize>(self) -> (split: (Observed<Self, N>, [ObservationToken<Self>; N]))
        ensures
            split.0@ == self,
            split.0 == Observed::<Self, N>::holding(self),
    {
        (Observed { peripheral: self }, tokens())
    }
}

impl<P: Observable + Sealed> ObservationLock for P {
    type Peripheral = P;
}

impl<P: Observable + Sealed> Sealed for ObservationToken<P> {

}

impl<P: Observable + Sealed> ObservationLock for ObservationToken<P> {
    type Peripheral = P;
}

impl<P: Observable, const N: usize> Deref for Observed<P, N> {
    type Target = P;

    fn deref(&self) -> (peripheral: &P)
        ensures
            *peripheral == self@,
    {
        &self.peripheral
    }
}

impl<P: Observable, const N: usize> DerefMut for Observed<P, N> {
    fn deref_mut(&mut self) -> (peripheral: &mut P)
        ensures
            *peripheral == old(self)@,
            final(self)@ == *final(peripheral),
    {
        &mut self.peripheral
    }
}

impl<P: Observable, const N: usize> AsRef<P> for Observed<P, N> {
    fn as_ref(&self) -> (peripheral: &P)
        ensures
            *peripheral == self@,
    {
        &self.peripheral
    }
}

impl<P: Observable, const N: usize> AsMut<P> for Observed<P, N> {
    fn as_mut(&mut self) -> (peripheral: &mut P)
        ensures
            *peripheral == old(self)@,
            final(self)@ == *final(peripheral),
    {
        &mut self.peripheral
    }
}

/// Observing a peripheral and releasing it with all its tokens gives
/// back the very peripheral that went in.
pub proof fn lemma_release_undoes_observe<P: Observable, const N: usize>(peripheral: P)
    ensures
        Observed::<P, N>::holding(peripheral)@ == peripheral,
{
}

} // verus!
