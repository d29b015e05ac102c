use vstd::prelude::*;
use crate::level::Level;

verus! {

/// A GPIO line configured as a push-pull output, and the level it drives.
#[derive(Clone, Copy, Debug, PartialEq, Eq, Structural)]
pub struct PinModel {
    pub id: u8,
    pub level: Level,
}

impl PinModel {
    pub open spec fn toggled_spec(self) -> PinModel {
        PinModel { level: self.level.not(), ..self }
    }

    /// Pin `id`, configured as an output driving `level`.
    pub fn new(id: u8, level: Level) -> (r: PinModel)
        ensures
            r == (PinModel { id, level }),
    {
        PinModel { id, level }
    }

    /// Drives the opposite level.
    pub fn toggle(&mut self)
        ensures
            *final(self) == old(self).toggled_spec(),
    {
        self.level = self.level.toggled();
    }
}

/// A countdown timer that elapses `frequency` times a second.
///
/// `expired` is the hardware flag raised on each elapse and cleared by an
/// acknowledge; `acks` counts the acknowledges made so far.
#[derive(Clone, Copy, Debug, PartialEq, Eq, Structural)]
pub struct TimerModel {
    pub frequency: u32,
    pub listening: bool,
    pub expired: bool,
    pub acks: u64,
}

impl TimerModel {
    pub open spec fn elapsed_spec(self) -> TimerModel {
        TimerModel { expired: true, ..self }
    }

    pub open spec fn acknowledged_spec(self) -> TimerModel {
        TimerModel { expired: false, acks: (self.acks + 1) as u64, ..self }
    }

    /// A timer programmed to elapse `frequency` times a second, not yet
    /// raising interrupts.
    pub fn configure(frequency: u32) -> (r: TimerModel)
        requires
            frequency > 0,
        ensures
            r == (TimerModel { frequency, listening: false, expired: false, acks: 0 }),
    {
        TimerModel { frequency, listening: false, expired: false, acks: 0 }
    }

    /// Arms the interrupt raised on each elapse.
    pub fn listen(&mut self)
        ensures
            *final(self) == (TimerModel { listening: true, ..*old(self) }),
    {
        self.listening = true;
    }

    /// The timer's period runs out: its expired flag goes up.
    pub fn elapse(&mut self)
        ensures
            *final(self) == old(self).elapsed_spec(),
    {
        self.expired = true;
    }

    /// Clears the expired flag. Returns whether it was up.
    pub fn acknowledge(&mut self) -> (was_expired: bool)
        requires
            old(self).acks < u64::MAX,
        ensures
            was_expired == old(self).expired,
            *final(self) == old(self).acknowledged_spec(),
    {
        let was_expired = self.expired;
        self.expired = false;
        self.acks = self.acks + 1;
        was_expired
    }
}

} // verus!
