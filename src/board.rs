use vstd::prelude::*;
use crate::channel::{Channel, ChannelConfig, fire_n, lemma_fire_n_wf, lemma_ack_per_fire};
use crate::level::Level;

verus! {

/// `cs` after the channel at `i` fires once.
pub open spec fn fire_at(cs: Seq<Channel>, i: int) -> Seq<Channel> {
    cs.update(i, cs[i].after_fire())
}

/// `cs` after the channels named in `events` fire, in that order.
pub open spec fn after_events(cs: Seq<Channel>, events: Seq<usize>) -> Seq<Channel>
    decreases events.len(),
{
    if events.len() == 0 {
        cs
    } else {
        fire_at(after_events(cs, events.drop_last()), events.last() as int)
    }
}

/// How many of `events` name channel `j`.
pub open spec fn count_of(events: Seq<usize>, j: int) -> nat
    decreases events.len(),
{
    if events.len() == 0 {
        0
    } else {
        count_of(events.drop_last(), j) + if events.last() as int == j {
            1nat
        } else {
            0nat
        }
    }
}

/// The firings of a timer running at `frequency` hertz between millisecond
/// `t0` and millisecond `t1` (the first excluded, the second included); it
/// first elapses one period after millisecond zero.
pub open spec fn fires_between(frequency: nat, t0: nat, t1: nat) -> nat {
    ((t1 * frequency) / 1000 - (t0 * frequency) / 1000) as nat
}

/// Channels never interact: whatever the order in which the channels fire,
/// each one ends as it would after firing alone as often as it was named.
pub proof fn lemma_channels_independent(cs: Seq<Channel>, events: Seq<usize>, j: int)
    requires
        forall|k: int| 0 <= k < events.len() ==> (#[trigger] events[k] as int) < cs.len(),
        0 <= j < cs.len(),
    ensures
        after_events(cs, events).len() == cs.len(),
        after_events(cs, events)[j] == fire_n(cs[j], count_of(events, j)),
    decreases events.len(),
{
    if events.len() > 0 {
        let rest = events.drop_last();
        assert forall|k: int| 0 <= k < rest.len() implies (#[trigger] rest[k] as int) < cs.len() by {
            assert(rest[k] == events[k]);
        }
        lemma_channels_independent(cs, rest, j);
        let i = events.last() as int;
        assert((events[events.len() - 1] as int) < cs.len());
        lemma_channels_independent(cs, rest, i);
    }
}

proof fn lemma_count_of_prefix(events: Seq<usize>, k: int, j: int)
    requires
        0 <= k <= events.len(),
    ensures
        count_of(events.take(k), j) <= count_of(events, j),
    decreases events.len() - k,
{
    if k < events.len() {
        lemma_count_of_prefix(events, k + 1, j);
        assert(events.take(k + 1).drop_last() =~= events.take(k));
    } else {
        assert(events.take(k) =~= events);
    }
}

/// A timer's firings in a window are never negative, and the window from
/// `t0` to `t1` splits at any `t` between them.
pub proof fn lemma_fires_between_split(frequency: nat, t0: nat, t: nat, t1: nat)
    requires
        t0 <= t <= t1,
    ensures
        (t0 * frequency) / 1000 <= (t * frequency) / 1000,
        (t * frequency) / 1000 <= (t1 * frequency) / 1000,
        fires_between(frequency, t0, t1) == fires_between(frequency, t0, t)
            + fires_between(frequency, t, t1),
{
    assert(t0 * frequency <= t * frequency) by (nonlinear_arith)
        requires
            t0 <= t,
    ;
    assert(t * frequency <= t1 * frequency) by (nonlinear_arith)
        requires
            t <= t1,
    ;
    vstd::arithmetic::div_mod::lemma_div_is_ordered(
        (t0 * frequency) as int,
        (t * frequency) as int,
        1000,
    );
    vstd::arithmetic::div_mod::lemma_div_is_ordered(
        (t * frequency) as int,
        (t1 * frequency) as int,
        1000,
    );
}

/// A set of LED channels and the time, in milliseconds since boot.
pub struct Board {
    pub channels: Vec<Channel>,
    pub now_ms: u64,
}

impl Board {
    /// Every channel is well formed and has its interrupt line unmasked.
    pub open spec fn wf(self) -> bool {
        forall|i: int|
            0 <= i < self.channels@.len() ==> (#[trigger] self.channels@[i]).wf()
                && self.channels@[i].unmasked
    }

    /// Runs the initializer for each configuration, in order, at time zero.
    pub fn boot(configs: &Vec<ChannelConfig>) -> (r: Board)
        requires
            forall|i: int| 0 <= i < configs@.len() ==> (#[trigger] configs@[i]).frequency > 0,
        ensures
            r.wf(),
            r.now_ms == 0,
            r.channels@.len() == configs@.len(),
            forall|i: int|
                0 <= i < configs@.len() ==> r.channels@[i] == Channel::booted(
                    #[trigger] configs@[i],
                ),
    {
        let mut channels: Vec<Channel> = Vec::new();
        let mut k: usize = 0;
        while k < configs.len()
            invariant
                k <= configs@.len(),
                channels@.len() == k,
                forall|i: int| 0 <= i < configs@.len() ==> (#[trigger] configs@[i]).frequency > 0,
                forall|i: int| 0 <= i < k ==> channels@[i] == Channel::booted(#[trigger] configs@[i]),
                forall|i: int|
                    0 <= i < k ==> (#[trigger] channels@[i]).wf() && channels@[i].unmasked,
            decreases configs@.len() - k,
        {
            let c = Channel::boot(configs[k]);
            channels.push(c);
            k = k + 1;
        }
        Board { channels, now_ms: 0 }
    }

    /// The channel at `i` fires once.
    pub fn fire(&mut self, i: usize) -> (claimed: bool)
        requires
            old(self).wf(),
            i < old(self).channels@.len(),
            old(self).channels@[i as int].timer().acks < u64::MAX,
        ensures
            final(self).wf(),
            final(self).now_ms == old(self).now_ms,
            final(self).channels@ == fire_at(old(self).channels@, i as int),
            claimed == (old(self).channels@[i as int].handler is Uninitialized),
    {
        let mut c = self.channels[i];
        let claimed = c.fire();
        self.channels.set(i, c);
        claimed
    }

    /// The channels named in `events` fire, in that order.
    pub fn run_events(&mut self, events: &Vec<usize>)
        requires
            old(self).wf(),
            forall|k: int|
                0 <= k < events@.len() ==> (#[trigger] events@[k] as int) < old(self).channels@.len(),
            forall|j: int|
                0 <= j < old(self).channels@.len() ==> (#[trigger] old(self).channels@[j]).timer().acks
                    + count_of(events@, j) <= u64::MAX,
        ensures
            final(self).wf(),
            final(self).now_ms == old(self).now_ms,
            final(self).channels@ == after_events(old(self).channels@, events@),
    {
        let ghost start = self.channels@;
        let mut k: usize = 0;
        while k < events.len()
            invariant
                k <= events@.len(),
                self.wf(),
                self.now_ms == old(self).now_ms,
                start == old(self).channels@,
                forall|m: int| 0 <= m < events@.len() ==> (#[trigger] events@[m] as int) < start.len(),
                forall|j: int|
                    0 <= j < start.len() ==> (#[trigger] start[j]).timer().acks + count_of(events@, j)
                        <= u64::MAX,
                self.channels@ == after_events(start, events@.take(k as int)),
            decreases events@.len() - k,
        {
            let ghost prefix = events@.take(k as int);
            let i = events[k];
            proof {
                assert forall|m: int| 0 <= m < prefix.len() implies (#[trigger] prefix[m] as int)
                    < start.len() by {
                    assert(prefix[m] == events@[m]);
                }
                lemma_channels_independent(start, prefix, i as int);
                lemma_count_of_prefix(events@, k + 1, i as int);
                assert(events@.take(k + 1).drop_last() =~= prefix);
                lemma_ack_per_fire(start[i as int], count_of(prefix, i as int));
            }
            self.fire(i);
            proof {
                assert(events@.take(k + 1).drop_last() =~= prefix);
            }
            k = k + 1;
        }
        proof {
            assert(events@.take(events@.len() as int) =~= events@);
        }
    }

    /// Time moves on by `ms` milliseconds; each channel fires as often as its
    /// timer elapses in that window.
    pub fn advance(&mut self, ms: u64)
        requires
            old(self).wf(),
            old(self).now_ms + ms <= u64::MAX,
            forall|j: int|
                0 <= j < old(self).channels@.len() ==> (#[trigger] old(self).channels@[j]).timer().acks
                    + fires_between(
                    old(self).channels@[j].timer().frequency as nat,
                    old(self).now_ms as nat,
                    (old(self).now_ms + ms) as nat,
                ) <= u64::MAX,
        ensures
            final(self).wf(),
            final(self).now_ms == old(self).now_ms + ms,
            final(self).channels@.len() == old(self).channels@.len(),
            forall|j: int|
                0 <= j < old(self).channels@.len() ==> (#[trigger] final(self).channels@[j])
                    == fire_n(
                    old(self).channels@[j],
                    fires_between(
                        old(self).channels@[j].timer().frequency as nat,
                        old(self).now_ms as nat,
                        (old(self).now_ms + ms) as nat,
                    ),
                ),
    {
        let ghost start = self.channels@;
        let t0 = self.now_ms;
        let t1 = self.now_ms + ms;
        let mut k: usize = 0;
        while k < self.channels.len()
            invariant
                k <= self.channels@.len(),
                self.channels@.len() == start.len(),
                start == old(self).channels@,
                t0 == old(self).now_ms,
                t1 == t0 + ms,
                self.now_ms == t0,
                self.wf(),
                forall|j: int|
                    0 <= j < start.len() ==> (#[trigger] start[j]).wf() && start[j].unmasked,
                forall|j: int|
                    0 <= j < start.len() ==> (#[trigger] start[j]).timer().acks + fires_between(
                        start[j].timer().frequency as nat,
                        t0 as nat,
                        t1 as nat,
                    ) <= u64::MAX,
                forall|j: int|
                    0 <= j < k ==> (#[trigger] self.channels@[j]) == fire_n(
                        start[j],
                        fires_between(start[j].timer().frequency as nat, t0 as nat, t1 as nat),
                    ),
                forall|j: int| k <= j < start.len() ==> (#[trigger] self.channels@[j]) == start[j],
            decreases start.len() - k,
        {
            let mut c = self.channels[k];
            let f = c.frequency();
            proof {
                lemma_fires_between_split(f as nat, t0 as nat, t0 as nat, t1 as nat);
                assert((t0 as u128) * (f as u128) <= u64::MAX as u128 * u32::MAX as u128)
                    by (nonlinear_arith)
                    requires
                        t0 <= u64::MAX,
                        f <= u32::MAX,
                ;
                assert((t1 as u128) * (f as u128) <= u64::MAX as u128 * u32::MAX as u128)
                    by (nonlinear_arith)
                    requires
                        t1 <= u64::MAX,
                        f <= u32::MAX,
                ;
            }
            let before: u128 = (t0 as u128) * (f as u128) / 1000;
            let after: u128 = (t1 as u128) * (f as u128) / 1000;
            let n = (after - before) as u64;
            c.fire_times(n);
            self.channels.set(k, c);
            k = k + 1;
        }
        self.now_ms = t1;
    }

    /// The number of channels.
    pub fn len(&self) -> (r: usize)
        ensures
            r == self.channels@.len(),
    {
        self.channels.len()
    }

    /// The level driven by the pin of channel `i`.
    pub fn level(&self, i: usize) -> (r: Level)
        requires
            self.wf(),
            i < self.channels@.len(),
        ensures
            r == self.channels@[i as int].pin().level,
    {
        self.channels[i].level()
    }

    /// The acknowledges made on the timer of channel `i`.
    pub fn acks(&self, i: usize) -> (r: u64)
        requires
            self.wf(),
            i < self.channels@.len(),
        ensures
            r == self.channels@[i as int].timer().acks,
    {
        self.channels[i].acks()
    }
}

} // verus!
