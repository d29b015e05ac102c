use vstd::prelude::*;
use crate::slot::Slot;

verus! {

/// The storage an interrupt handler keeps across its runs.
///
/// It starts `Uninitialized`; the first run claims the pin and the timer from
/// their slots and moves to `Active`, where it stays.
#[derive(Clone, Copy, Debug)]
pub enum Handler<P, T> {
    Uninitialized,
    Active { pin: P, timer: T },
}

impl<P, T> Handler<P, T> {
    /// A handler that has not run yet.
    pub fn new() -> (r: Handler<P, T>)
        ensures
            r is Uninitialized,
    {
        Handler::Uninitialized
    }

    pub fn is_active(&self) -> (r: bool)
        ensures
            r == (self is Active),
    {
        match self {
            Handler::Uninitialized => false,
            Handler::Active { .. } => true,
        }
    }

    /// Makes sure the handler owns its pin and timer. On the first call it
    /// takes both out of their slots and returns `true`; on every later call
    /// it leaves the slots alone and returns `false`.
    pub fn claim(&mut self, pin_slot: &mut Slot<P>, timer_slot: &mut Slot<T>) -> (claimed: bool)
        requires
            (*old(self)) is Uninitialized ==> (*old(pin_slot)) is Full && (*old(timer_slot)) is Full,
        ensures
            claimed == ((*old(self)) is Uninitialized),
            claimed ==> {
                &&& *final(self) == (Handler::Active { pin: old(pin_slot)->0, timer: old(timer_slot)->0 })
                &&& *final(pin_slot) is Empty
                &&& *final(timer_slot) is Empty
            },
            !claimed ==> {
                &&& *final(self) == *old(self)
                &&& *final(pin_slot) == *old(pin_slot)
                &&& *final(timer_slot) == *old(timer_slot)
            },
    {
        match self {
            Handler::Active { .. } => false,
            Handler::Uninitialized => {
                let pin = pin_slot.take_once();
                let timer = timer_slot.take_once();
                *self = Handler::Active { pin, timer };
                true
            },
        }
    }

    /// The claimed pin and timer, for the handler to drive.
    pub fn parts_mut(&mut self) -> (r: (&mut P, &mut T))
        requires
            (*old(self)) is Active,
        ensures
            *r.0 == old(self)->pin,
            *r.1 == old(self)->timer,
            *final(self) == (Handler::Active { pin: *final(r.0), timer: *final(r.1) }),
    {
        match self {
            Handler::Active { pin, timer } => (pin, timer),
            Handler::Uninitialized => unreached(),
        }
    }
}

} // verus!
