use irq_blink::board::Board;
use irq_blink::channel::{Channel, ChannelConfig};
use irq_blink::handler::Handler;
use irq_blink::hardware::{PinModel, TimerModel};
use irq_blink::level::Level;
use irq_blink::slot::Slot;

fn config(pin_id: u8, frequency: u32, priority: u8) -> ChannelConfig {
    ChannelConfig { pin_id, initial_level: Level::Low, frequency, priority }
}

#[test]
fn level_toggles_to_opposite() {
    assert_eq!(Level::Low.toggled(), Level::High);
    assert_eq!(Level::High.toggled(), Level::Low);
    assert!(Level::High.is_high());
    assert!(!Level::Low.is_high());
}

#[test]
fn slot_hands_value_over_once() {
    let mut slot: Slot<u32> = Slot::new();
    assert!(!slot.is_full());
    slot.put(7);
    assert!(slot.is_full());
    assert_eq!(slot.take_once(), 7);
    assert!(!slot.is_full());
}

#[test]
fn slot_put_replaces_previous_value() {
    let mut slot: Slot<u32> = Slot::new();
    slot.put(1);
    slot.put(2);
    assert_eq!(slot.take_once(), 2);
}

#[test]
fn handler_claims_only_on_first_call() {
    let mut pins: Slot<u8> = Slot::new();
    let mut timers: Slot<u16> = Slot::new();
    pins.put(4);
    timers.put(3);
    let mut handler: Handler<u8, u16> = Handler::new();
    assert!(!handler.is_active());
    assert!(handler.claim(&mut pins, &mut timers));
    assert!(handler.is_active());
    assert!(!pins.is_full());
    assert!(!timers.is_full());
    {
        let (pin, timer) = handler.parts_mut();
        assert_eq!((*pin, *timer), (4, 3));
        *pin = 5;
    }
    pins.put(9);
    assert!(!handler.claim(&mut pins, &mut timers));
    assert!(pins.is_full());
    let (pin, _) = handler.parts_mut();
    assert_eq!(*pin, 5);
}

#[test]
fn timer_acknowledge_clears_flag_and_counts() {
    let mut timer = TimerModel::configure(5);
    assert!(!timer.listening);
    timer.listen();
    assert!(timer.listening);
    assert!(!timer.acknowledge());
    timer.elapse();
    assert!(timer.expired);
    assert!(timer.acknowledge());
    assert!(!timer.expired);
    assert_eq!(timer.acks, 2);
    assert_eq!(timer.frequency, 5);
}

#[test]
fn pin_toggle_keeps_identity() {
    let mut pin = PinModel::new(4, Level::Low);
    pin.toggle();
    assert_eq!(pin, PinModel { id: 4, level: Level::High });
}

#[test]
fn boot_fills_slots_and_unmasks() {
    let c = Channel::boot(config(4, 1, 1));
    assert!(c.slots_full());
    assert!(c.unmasked);
    assert!(!c.is_active());
    assert_eq!(c.claims, 0);
    assert_eq!(c.level(), Level::Low);
    assert_eq!(c.frequency(), 1);
    assert_eq!(c.acks(), 0);
    assert_eq!(c.priority, 1);
    assert_eq!(c.pin_model().id, 4);
    assert!(c.timer_model().listening);
}

#[test]
fn install_then_unmask_by_hand() {
    let mut c = Channel::new(2);
    assert!(!c.slots_full());
    assert!(!c.unmasked);
    c.install(PinModel::new(0, Level::High), TimerModel::configure(2));
    assert!(c.slots_full());
    c.unmask();
    assert!(c.unmasked);
    assert_eq!(c.level(), Level::High);
}

#[test]
fn first_fire_claims_and_later_fires_do_not() {
    let mut c = Channel::boot(config(4, 1, 1));
    assert!(c.fire());
    assert!(c.is_active());
    assert!(!c.slots_full());
    assert_eq!(c.claims, 1);
    for _ in 0..10 {
        assert!(!c.fire());
        assert_eq!(c.claims, 1);
        assert!(!c.slots_full());
    }
}

#[test]
fn each_fire_toggles_once() {
    let mut c = Channel::boot(ChannelConfig {
        pin_id: 0,
        initial_level: Level::High,
        frequency: 2,
        priority: 2,
    });
    let mut expected = Level::High;
    for n in 1..=9u32 {
        c.fire();
        expected = expected.toggled();
        assert_eq!(c.level(), expected);
        let parity = if n % 2 == 0 { Level::High } else { Level::Low };
        assert_eq!(c.level(), parity);
    }
}

#[test]
fn each_fire_acknowledges_once() {
    let mut c = Channel::boot(config(4, 1, 1));
    c.fire();
    assert_eq!(c.acks(), 1);
    assert!(!c.timer_model().expired);
    c.fire_times(6);
    assert_eq!(c.acks(), 7);
    assert!(!c.timer_model().expired);
}

#[test]
fn fire_times_matches_single_fires() {
    let mut a = Channel::boot(config(4, 1, 1));
    let mut b = Channel::boot(config(4, 1, 1));
    a.fire_times(5);
    for _ in 0..5 {
        b.fire();
    }
    assert_eq!(a.level(), b.level());
    assert_eq!(a.acks(), b.acks());
    assert_eq!(a.claims, b.claims);
    a.fire_times(0);
    assert_eq!(a.acks(), 5);
}

#[test]
fn channels_do_not_interact() {
    let configs = vec![config(4, 5, 1), config(0, 2, 2)];
    let mut alone = Board::boot(&configs);
    let mut mixed = Board::boot(&configs);
    alone.run_events(&vec![1, 1, 1]);
    mixed.run_events(&vec![0, 1, 0, 0, 1, 0, 1, 0, 0]);
    assert_eq!(mixed.level(1), alone.level(1));
    assert_eq!(mixed.acks(1), alone.acks(1));
    assert_eq!(mixed.acks(1), 3);
    assert_eq!(mixed.acks(0), 6);
    assert_eq!(mixed.level(0), Level::Low);
    assert_eq!(mixed.level(1), Level::High);
}

#[test]
fn board_fire_touches_one_channel() {
    let mut b = Board::boot(&vec![config(4, 5, 1), config(0, 2, 2)]);
    assert_eq!(b.len(), 2);
    assert!(b.fire(0));
    assert!(!b.fire(0));
    assert_eq!(b.level(0), Level::Low);
    assert_eq!(b.acks(0), 2);
    assert_eq!(b.level(1), Level::Low);
    assert_eq!(b.acks(1), 0);
    assert!(!b.channels[1].is_active());
}

#[test]
fn single_channel_one_hertz_blinks() {
    let mut b = Board::boot(&vec![config(4, 1, 1)]);
    assert_eq!(b.level(0), Level::Low);
    b.advance(1000);
    assert_eq!(b.level(0), Level::High);
    b.advance(1000);
    assert_eq!(b.level(0), Level::Low);
    for k in 1..=5u64 {
        b.advance(1000);
        assert_eq!(b.level(0), Level::High);
        b.advance(1000);
        assert_eq!(b.level(0), Level::Low);
        assert_eq!(b.acks(0), 2 * (k + 1));
    }
}

#[test]
fn one_hertz_does_not_fire_early() {
    let mut b = Board::boot(&vec![config(4, 1, 1)]);
    b.advance(999);
    assert_eq!(b.acks(0), 0);
    assert_eq!(b.level(0), Level::Low);
    b.advance(1);
    assert_eq!(b.acks(0), 1);
    assert_eq!(b.now_ms, 1000);
}

#[test]
fn two_channels_five_and_two_hertz_over_one_second() {
    let mut b = Board::boot(&vec![config(4, 5, 1), config(0, 2, 2)]);
    b.advance(1000);
    assert_eq!(b.acks(0), 5);
    assert_eq!(b.level(0), Level::High);
    assert_eq!(b.acks(1), 2);
    assert_eq!(b.level(1), Level::Low);
}

#[test]
fn three_hertz_in_small_steps() {
    let mut b = Board::boot(&vec![config(1, 3, 1)]);
    let mut seen = Vec::new();
    for _ in 0..10 {
        b.advance(100);
        seen.push(b.acks(0));
    }
    assert_eq!(seen, vec![0, 0, 0, 1, 1, 1, 2, 2, 2, 3]);
}

#[test]
fn empty_board() {
    let mut b = Board::boot(&Vec::new());
    assert_eq!(b.len(), 0);
    b.advance(5000);
    b.run_events(&Vec::new());
    assert_eq!(b.now_ms, 5000);
}
