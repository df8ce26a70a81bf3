//! Wake-ups between tasks: a thin shell around the single-slot signal of
//! `embassy_sync`.
use embassy_sync::blocking_mutex::raw::NoopRawMutex;
use embassy_sync::signal::Signal;
use vstd::prelude::*;

verus! {

/// A wake-up that one task gives and another waits for, within one executor.
///
/// The slot is an `embassy_sync::signal::Signal`. Giving the wake-up twice before
/// it is taken is the same as giving it once. The functions of this library that
/// give one take the notification by exclusive reference, so what their contracts
/// say of it holds at their return. Whoever waits takes the wake-up afterwards,
/// through `signal`.
#[verifier::external_body]
pub struct Notification {
    pub signal: Signal<NoopRawMutex, ()>,
}

/// What lies in the slot of a notification: one value after a wake-up was given,
/// none before that and after it was taken.
pub uninterp spec fn slot(notification: Notification) -> Seq<()>;

/// `embassy_sync::signal::Signal::new`: the slot of a new signal is empty.
#[verifier::external_body]
fn signal_new() -> (notification: Notification)
    ensures
        slot(notification) == Seq::<()>::empty(),
{
    Notification { signal: Signal::new() }
}

/// `embassy_sync::signal::Signal::signal`: puts the value into the slot, whatever
/// was there before, and wakes the task that waits. The waking is not stated.
#[verifier::external_body]
fn signal_put(notification: &mut Notification)
    ensures
        slot(*final(notification)) == seq![()],
{
    notification.signal.signal(())
}

impl Notification {
    /// Whether a wake-up was given and not yet taken.
    pub open spec fn pending(&self) -> bool {
        slot(*self).len() > 0
    }

    /// A notification that was not given yet.
    pub fn new() -> (notification: Notification)
        ensures
            !notification.pending(),
    {
        signal_new()
    }

    /// Gives the wake-up.
    pub fn signal(&mut self)
        ensures
            final(self).pending(),
    {
        signal_put(self)
    }
}

} // verus!
