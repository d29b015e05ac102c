use vstd::prelude::*;

verus! {

/// A one-shot mailbox that hands an exclusively owned value from the
/// initializer to an interrupt handler.
///
/// It is filled once, before the handler's interrupt line is unmasked, and
/// emptied once, by the handler's first run.
#[derive(Clone, Copy, Debug)]
pub enum Slot<T> {
    Empty,
    Full(T),
}

impl<T> Slot<T> {
    /// An empty slot.
    pub fn new() -> (r: Slot<T>)
        ensures
            r is Empty,
    {
        Slot::Empty
    }

    pub fn is_full(&self) -> (r: bool)
        ensures
            r == (self is Full),
    {
        match self {
            Slot::Empty => false,
            Slot::Full(_) => true,
        }
    }

    /// Stores `value`, dropping whatever the slot held before.
    pub fn put(&mut self, value: T)
        ensures
            *final(self) == Slot::Full(value),
    {
        *self = Slot::Full(value);
    }

    /// Removes and returns the stored value, leaving the slot empty for good.
    pub fn take_once(&mut self) -> (r: T)
        requires
            (*old(self)) is Full,
        ensures
            r == old(self)->0,
            *final(self) is Empty,
    {
        let mut taken: Slot<T> = Slot::Empty;
        core::mem::swap(self, &mut taken);
        match taken {
            Slot::Full(v) => v,
            Slot::Empty => unreached(),
        }
    }
}

} // verus!
