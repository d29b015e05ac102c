use vstd::prelude::*;
use crate::handler::Handler;
use crate::hardware::{PinModel, TimerModel};
use crate::level::{Level, level_after, lemma_level_after_parity};
use crate::slot::Slot;

verus! {

/// What the initializer needs to bring one channel up.
#[derive(Clone, Copy, Debug, PartialEq, Eq, Structural)]
pub struct ChannelConfig {
    pub pin_id: u8,
    pub initial_level: Level,
    pub frequency: u32,
    pub priority: u8,
}

/// One LED channel: the slots that carry its pin and timer to the handler,
/// the handler's own storage, and the state of its interrupt line.
///
/// `claims` counts the handler's claims from the slots.
#[derive(Clone, Copy, Debug)]
pub struct Channel {
    pub pin_slot: Slot<PinModel>,
    pub timer_slot: Slot<TimerModel>,
    pub handler: Handler<PinModel, TimerModel>,
    pub unmasked: bool,
    pub priority: u8,
    pub claims: u8,
}

impl Channel {
    /// The channel's pin, wherever it is held.
    pub open spec fn pin(self) -> PinModel {
        match self.handler {
            Handler::Active { pin, .. } => pin,
            Handler::Uninitialized => self.pin_slot->0,
        }
    }

    /// The channel's timer, wherever it is held.
    pub open spec fn timer(self) -> TimerModel {
        match self.handler {
            Handler::Active { timer, .. } => timer,
            Handler::Uninitialized => self.timer_slot->0,
        }
    }

    /// Ownership is never split: once the handler is active both slots are
    /// empty, and an unmasked line whose handler has not run yet has both
    /// slots filled.
    pub open spec fn wf(self) -> bool {
        &&& self.handler is Active ==> self.pin_slot is Empty && self.timer_slot is Empty
        &&& self.handler is Active ==> self.claims == 1
        &&& self.handler is Uninitialized ==> self.claims == 0
        &&& self.unmasked && self.handler is Uninitialized ==> {
            self.pin_slot is Full && self.timer_slot is Full
        }
    }

    /// The channel just after its timer elapses and its handler runs once.
    pub open spec fn after_fire(self) -> Channel {
        Channel {
            pin_slot: Slot::Empty,
            timer_slot: Slot::Empty,
            handler: Handler::Active {
                pin: self.pin().toggled_spec(),
                timer: self.timer().elapsed_spec().acknowledged_spec(),
            },
            unmasked: self.unmasked,
            priority: self.priority,
            claims: if self.handler is Uninitialized {
                (self.claims + 1) as u8
            } else {
                self.claims
            },
        }
    }

    /// The state the initializer leaves for `cfg`.
    pub open spec fn booted(cfg: ChannelConfig) -> Channel {
        Channel {
            pin_slot: Slot::Full(PinModel { id: cfg.pin_id, level: cfg.initial_level }),
            timer_slot: Slot::Full(
                TimerModel { frequency: cfg.frequency, listening: true, expired: false, acks: 0 },
            ),
            handler: Handler::Uninitialized,
            unmasked: true,
            priority: cfg.priority,
            claims: 0,
        }
    }

    /// A channel with empty slots and a masked interrupt line.
    pub fn new(priority: u8) -> (r: Channel)
        ensures
            r.wf(),
            r == (Channel {
                pin_slot: Slot::Empty,
                timer_slot: Slot::Empty,
                handler: Handler::Uninitialized,
                unmasked: false,
                priority,
                claims: 0,
            }),
    {
        Channel {
            pin_slot: Slot::new(),
            timer_slot: Slot::new(),
            handler: Handler::new(),
            unmasked: false,
            priority,
            claims: 0,
        }
    }

    /// Puts the pin and the timer in their slots for the handler to claim.
    pub fn install(&mut self, pin: PinModel, timer: TimerModel)
        requires
            old(self).wf(),
            old(self).handler is Uninitialized,
        ensures
            final(self).wf(),
            *final(self) == (Channel {
                pin_slot: Slot::Full(pin),
                timer_slot: Slot::Full(timer),
                ..*old(self)
            }),
    {
        self.pin_slot.put(pin);
        self.timer_slot.put(timer);
    }

    /// Unmasks the channel's interrupt line; its slots must be filled first.
    pub fn unmask(&mut self)
        requires
            old(self).wf(),
            old(self).handler is Uninitialized ==> old(self).pin_slot is Full
                && old(self).timer_slot is Full,
        ensures
            final(self).wf(),
            *final(self) == (Channel { unmasked: true, ..*old(self) }),
    {
        self.unmasked = true;
    }

    /// The initializer for one channel: configures the pin and the timer,
    /// arms the timer's interrupt, installs both, then unmasks the line.
    pub fn boot(cfg: ChannelConfig) -> (r: Channel)
        requires
            cfg.frequency > 0,
        ensures
            r.wf(),
            r == Channel::booted(cfg),
    {
        let mut c = Channel::new(cfg.priority);
        let pin = PinModel::new(cfg.pin_id, cfg.initial_level);
        let mut timer = TimerModel::configure(cfg.frequency);
        timer.listen();
        c.install(pin, timer);
        c.unmask();
        c
    }

    /// Raises the expired flag of the channel's timer.
    fn elapse_timer(&mut self)
        requires
            old(self).wf(),
            old(self).unmasked,
        ensures
            final(self).pin_slot == old(self).pin_slot,
            final(self).unmasked == old(self).unmasked,
            final(self).priority == old(self).priority,
            final(self).claims == old(self).claims,
            final(self).handler is Active <==> old(self).handler is Active,
            final(self).wf(),
            final(self).pin() == old(self).pin(),
            final(self).timer() == old(self).timer().elapsed_spec(),
    {
        match &mut self.handler {
            Handler::Active { timer, .. } => timer.elapse(),
            Handler::Uninitialized => match &mut self.timer_slot {
                Slot::Full(timer) => timer.elapse(),
                Slot::Empty => {},
            },
        }
    }

    /// The channel's timer elapses and its interrupt handler runs: on its
    /// first run it claims the pin and the timer from their slots; on every
    /// run it toggles the pin and acknowledges the timer once. Returns whether
    /// this run claimed.
    pub fn fire(&mut self) -> (claimed: bool)
        requires
            old(self).wf(),
            old(self).unmasked,
            old(self).timer().acks < u64::MAX,
        ensures
            claimed == (old(self).handler is Uninitialized),
            final(self).wf(),
            *final(self) == old(self).after_fire(),
    {
        self.elapse_timer();
        let claimed = self.handler.claim(&mut self.pin_slot, &mut self.timer_slot);
        if claimed {
            self.claims = self.claims + 1;
        }
        let (pin, timer) = self.handler.parts_mut();
        pin.toggle();
        timer.acknowledge();
        claimed
    }

    /// Fires the channel `n` times in a row.
    pub fn fire_times(&mut self, n: u64)
        requires
            old(self).wf(),
            old(self).unmasked,
            old(self).timer().acks + n <= u64::MAX,
        ensures
            final(self).wf(),
            final(self).unmasked,
            *final(self) == fire_n(*old(self), n as nat),
    {
        let ghost start = *self;
        let mut i: u64 = 0;
        while i < n
            invariant
                0 <= i <= n,
                start.wf(),
                start.unmasked,
                start.timer().acks + n <= u64::MAX,
                *self == fire_n(start, i as nat),
            decreases n - i,
        {
            proof {
                lemma_fire_n_wf(start, i as nat);
                lemma_ack_per_fire(start, i as nat);
            }
            self.fire();
            i = i + 1;
        }
        proof {
            lemma_fire_n_wf(start, n as nat);
        }
    }

    /// The level the channel's pin drives.
    pub fn level(&self) -> (r: Level)
        requires
            self.wf(),
            self.unmasked,
        ensures
            r == self.pin().level,
    {
        self.pin_model().level
    }

    /// The number of acknowledges made on the channel's timer.
    pub fn acks(&self) -> (r: u64)
        requires
            self.wf(),
            self.unmasked,
        ensures
            r == self.timer().acks,
    {
        self.timer_model().acks
    }

    /// The rate of the channel's timer, in hertz.
    pub fn frequency(&self) -> (r: u32)
        requires
            self.wf(),
            self.unmasked,
        ensures
            r == self.timer().frequency,
    {
        self.timer_model().frequency
    }

    /// A copy of the channel's pin, wherever it is held.
    pub fn pin_model(&self) -> (r: PinModel)
        requires
            self.wf(),
            self.unmasked,
        ensures
            r == self.pin(),
    {
        match &self.handler {
            Handler::Active { pin, .. } => *pin,
            Handler::Uninitialized => match &self.pin_slot {
                Slot::Full(pin) => *pin,
                Slot::Empty => unreached(),
            },
        }
    }

    /// A copy of the channel's timer, wherever it is held.
    pub fn timer_model(&self) -> (r: TimerModel)
        requires
            self.wf(),
            self.unmasked,
        ensures
            r == self.timer(),
    {
        match &self.handler {
            Handler::Active { timer, .. } => *timer,
            Handler::Uninitialized => match &self.timer_slot {
                Slot::Full(timer) => *timer,
                Slot::Empty => unreached(),
            },
        }
    }

    /// Whether the handler has claimed its pin and timer.
    pub fn is_active(&self) -> (r: bool)
        ensures
            r == (self.handler is Active),
    {
        self.handler.is_active()
    }

    /// Whether both slots still hold their handles.
    pub fn slots_full(&self) -> (r: bool)
        ensures
            r == (self.pin_slot is Full && self.timer_slot is Full),
    {
        self.pin_slot.is_full() && self.timer_slot.is_full()
    }
}

/// The handler never finds an empty slot: on a well-formed channel whose
/// line is unmasked and whose handler has not run yet, both slots are full,
/// and the initializer leaves every channel in that state.
pub proof fn lemma_slots_full_before_first_fire(c: Channel, cfg: ChannelConfig)
    requires
        c.wf(),
    ensures
        c.unmasked && c.handler is Uninitialized ==> c.pin_slot is Full && c.timer_slot is Full,
        Channel::booted(cfg).wf(),
        Channel::booted(cfg).unmasked,
        Channel::booted(cfg).handler is Uninitialized,
        Channel::booted(cfg).pin_slot is Full,
        Channel::booted(cfg).timer_slot is Full,
{
}

/// The channel after `n` firings, one at a time.
pub open spec fn fire_n(c: Channel, n: nat) -> Channel
    decreases n,
{
    if n == 0 {
        c
    } else {
        fire_n(c, (n - 1) as nat).after_fire()
    }
}

/// Firing keeps a channel well formed and its line unmasked, and never moves
/// its pin to another line or its timer to another rate.
pub proof fn lemma_fire_n_wf(c: Channel, n: nat)
    requires
        c.wf(),
        c.unmasked,
    ensures
        fire_n(c, n).wf(),
        fire_n(c, n).unmasked,
        fire_n(c, n).priority == c.priority,
        fire_n(c, n).pin().id == c.pin().id,
        fire_n(c, n).timer().frequency == c.timer().frequency,
        fire_n(c, n).timer().listening == c.timer().listening,
    decreases n,
{
    if n > 0 {
        lemma_fire_n_wf(c, (n - 1) as nat);
    }
}

/// The handler claims from the slots exactly once: a channel that has not
/// fired yet has claimed nothing, and after any positive number of firings it
/// is active, its slots are empty and it has claimed once.
pub proof fn lemma_claim_once(c: Channel, n: nat)
    requires
        c.wf(),
        c.unmasked,
        c.handler is Uninitialized,
    ensures
        n == 0 ==> fire_n(c, n).claims == 0,
        n > 0 ==> {
            &&& fire_n(c, n).handler is Active
            &&& fire_n(c, n).pin_slot is Empty
            &&& fire_n(c, n).timer_slot is Empty
            &&& fire_n(c, n).claims == 1
        },
    decreases n,
{
    if n > 0 {
        lemma_claim_once(c, (n - 1) as nat);
        assert(fire_n(c, n) == fire_n(c, (n - 1) as nat).after_fire());
    }
}

/// A firing of a channel whose handler is already active touches neither
/// slot and claims nothing.
pub proof fn lemma_active_fire_leaves_slots(c: Channel)
    requires
        c.wf(),
        c.handler is Active,
    ensures
        c.after_fire().pin_slot == c.pin_slot,
        c.after_fire().timer_slot == c.timer_slot,
        c.after_fire().claims == c.claims,
{
}

/// Each firing toggles the pin once: after `n` firings the level is the
/// start level when `n` is even and the opposite one when `n` is odd.
pub proof fn lemma_toggle_per_fire(c: Channel, n: nat)
    ensures
        fire_n(c, n).pin().level == level_after(c.pin().level, n),
        fire_n(c, n).pin().level == (if n % 2 == 0 { c.pin().level } else { c.pin().level.not() }),
    decreases n,
{
    if n > 0 {
        lemma_toggle_per_fire(c, (n - 1) as nat);
    }
    lemma_level_after_parity(c.pin().level, n);
}

/// Each firing acknowledges the timer exactly once, the claiming one
/// included, and leaves its expired flag down.
pub proof fn lemma_ack_per_fire(c: Channel, n: nat)
    requires
        c.timer().acks + n <= u64::MAX,
    ensures
        fire_n(c, n).timer().acks == c.timer().acks + n,
        n > 0 ==> !fire_n(c, n).timer().expired,
    decreases n,
{
    if n > 0 {
        lemma_ack_per_fire(c, (n - 1) as nat);
    }
}

/// A freshly booted channel whose pin starts low is high after every odd
/// number of firings and low after every even one.
pub proof fn lemma_blink_from_low(cfg: ChannelConfig, k: nat)
    requires
        cfg.initial_level == Level::Low,
    ensures
        fire_n(Channel::booted(cfg), 2 * k).pin().level == Level::Low,
        fire_n(Channel::booted(cfg), 2 * k + 1).pin().level == Level::High,
{
    lemma_toggle_per_fire(Channel::booted(cfg), 2 * k);
    lemma_toggle_per_fire(Channel::booted(cfg), 2 * k + 1);
}

} // verus!
