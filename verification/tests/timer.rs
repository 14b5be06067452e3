use rustual_boy::timer::Timer;

#[test]
fn timer_starts_stopped() {
    let mut timer = Timer::new();
    assert_eq!(timer.read_control_reg(), 0);
    assert!(!timer.cycles(1000));
    assert_eq!(timer.read_counter_reload_low_reg(), 0);
    assert_eq!(timer.read_counter_reload_high_reg(), 0);
    assert_eq!(timer.read_control_reg(), 0);
}

#[test]
fn timer_control_register_round_trip() {
    let mut timer = Timer::new();
    // interval, zero interrupt enable and enable are kept; the clear bit is not
    timer.write_control_reg(0x1d);
    assert_eq!(timer.read_control_reg(), 0x19);
    timer.write_control_reg(0x00);
    assert_eq!(timer.read_control_reg(), 0x00);
    timer.write_control_reg(0xff);
    assert_eq!(timer.read_control_reg(), 0x19);
}

#[test]
fn timer_reload_writes_replace_a_byte_and_load_the_counter() {
    let mut timer = Timer::new();
    timer.write_counter_reload_low_reg(0x34);
    assert_eq!(timer.read_counter_reload_low_reg(), 0x34);
    assert_eq!(timer.read_counter_reload_high_reg(), 0x00);
    timer.write_counter_reload_high_reg(0xf0);
    assert_eq!(timer.read_counter_reload_low_reg(), 0x34);
    assert_eq!(timer.read_counter_reload_high_reg(), 0xf0);
    // the byte written replaces the one that was there; the other stays
    timer.write_counter_reload_high_reg(0x12);
    assert_eq!(timer.read_counter_reload_low_reg(), 0x34);
    assert_eq!(timer.read_counter_reload_high_reg(), 0x12);
    timer.write_counter_reload_low_reg(0x03);
    assert_eq!(timer.read_counter_reload_low_reg(), 0x03);
    assert_eq!(timer.read_counter_reload_high_reg(), 0x12);
    assert_eq!(timer.read_control_reg(), 0x00);

    let mut timer = Timer::new();
    timer.write_counter_reload_low_reg(0xff);
    timer.write_counter_reload_low_reg(0x01);
    assert_eq!(timer.read_counter_reload_low_reg(), 0x01);
    assert_eq!(timer.read_counter_reload_high_reg(), 0x00);
    timer.write_counter_reload_low_reg(0x00);
    assert_eq!(timer.read_counter_reload_low_reg(), 0x00);
}

#[test]
fn a_reload_write_restarts_a_counter_that_has_counted_down() {
    let mut timer = Timer::new();
    timer.write_counter_reload_low_reg(5);
    timer.write_control_reg(0x01);
    // three large intervals of 2000 cycles
    assert!(!timer.cycles(6000));
    assert_eq!(timer.read_counter_reload_low_reg(), 2);
    // the high byte written, the counter is the whole reload value again
    timer.write_counter_reload_high_reg(0x01);
    assert_eq!(timer.read_counter_reload_low_reg(), 5);
    assert_eq!(timer.read_counter_reload_high_reg(), 0x01);
}

#[test]
fn timer_counts_down_once_per_large_interval() {
    let mut timer = Timer::new();
    timer.write_counter_reload_low_reg(5);
    timer.write_control_reg(0x01);
    // 100 us are 2000 cycles
    assert!(!timer.cycles(1999));
    assert_eq!(timer.read_counter_reload_low_reg(), 5);
    assert!(!timer.cycles(1));
    assert_eq!(timer.read_counter_reload_low_reg(), 4);
    assert!(!timer.cycles(2000 * 4));
    assert_eq!(timer.read_counter_reload_low_reg(), 0);
    assert_eq!(timer.read_control_reg() & 0x02, 0);
}

#[test]
fn timer_counts_down_once_per_small_interval() {
    let mut timer = Timer::new();
    timer.write_counter_reload_low_reg(5);
    timer.write_control_reg(0x11);
    // 20 us are 400 cycles
    assert!(!timer.cycles(399));
    assert_eq!(timer.read_counter_reload_low_reg(), 5);
    assert!(!timer.cycles(1));
    assert_eq!(timer.read_counter_reload_low_reg(), 4);
}

#[test]
fn timer_zero_edge_reloads_and_latches_status() {
    let mut timer = Timer::new();
    timer.write_counter_reload_low_reg(1);
    // small interval, enabled, zero interrupt disabled
    timer.write_control_reg(0x11);
    assert!(!timer.cycles(400));
    assert_eq!(timer.read_counter_reload_low_reg(), 0);
    assert_eq!(timer.read_control_reg(), 0x11);
    // the tick that finds the counter at zero reloads it
    assert!(!timer.cycles(400));
    assert_eq!(timer.read_counter_reload_low_reg(), 1);
    assert_eq!(timer.read_control_reg(), 0x13);
}

#[test]
fn timer_zero_interrupt() {
    let mut timer = Timer::new();
    timer.write_counter_reload_low_reg(1);
    // small interval, zero interrupt enabled, enabled
    timer.write_control_reg(0x19);
    assert!(timer.cycles(40_000));
    assert_eq!(timer.read_counter_reload_low_reg(), 1);
    assert_eq!(timer.read_counter_reload_high_reg(), 0);
    assert_eq!(timer.read_control_reg(), 0x1b);
}

#[test]
fn timer_raises_only_in_the_cycles_of_a_zero_edge() {
    let mut timer = Timer::new();
    timer.write_counter_reload_low_reg(1);
    timer.write_control_reg(0x19);
    assert!(!timer.cycles(799));
    assert!(timer.cycles(1));
    // the status stays latched, but no new edge comes in the next tick
    assert!(!timer.cycles(400));
    assert_eq!(timer.read_control_reg() & 0x02, 0x02);
    assert!(timer.cycles(400));
}

#[test]
fn timer_zero_status_clears_only_with_interrupt_disabled() {
    let mut timer = Timer::new();
    timer.write_counter_reload_low_reg(1);
    timer.write_control_reg(0x19);
    assert!(timer.cycles(800));
    assert_eq!(timer.read_control_reg() & 0x02, 0x02);
    // clear bit together with the zero interrupt enable: no effect
    timer.write_control_reg(0x1d);
    assert_eq!(timer.read_control_reg() & 0x02, 0x02);
    // clear bit with the zero interrupt disabled: cleared
    timer.write_control_reg(0x15);
    assert_eq!(timer.read_control_reg(), 0x11);
}

#[test]
fn timer_cycles_can_be_split() {
    let mut whole = Timer::new();
    whole.write_counter_reload_low_reg(3);
    whole.write_control_reg(0x19);
    let mut parts = Timer::new();
    parts.write_counter_reload_low_reg(3);
    parts.write_control_reg(0x19);

    let raised_whole = whole.cycles(5_000);
    let mut raised_parts = false;
    for n in [1usize, 399, 0, 1_234, 3_366] {
        raised_parts |= parts.cycles(n);
    }
    assert_eq!(raised_whole, raised_parts);
    assert_eq!(whole.read_control_reg(), parts.read_control_reg());
    assert_eq!(whole.read_counter_reload_low_reg(), parts.read_counter_reload_low_reg());
    assert_eq!(whole.read_counter_reload_high_reg(), parts.read_counter_reload_high_reg());
    // and they stay in step afterwards
    assert_eq!(whole.cycles(777), parts.cycles(777));
    assert_eq!(whole.read_counter_reload_low_reg(), parts.read_counter_reload_low_reg());
}

#[test]
fn timer_interval_change_restarts_the_tick_once_it_is_due() {
    let mut timer = Timer::new();
    timer.write_counter_reload_low_reg(9);
    timer.write_control_reg(0x01);
    // 1000 cycles are 50 us: not yet a large interval
    assert!(!timer.cycles(1000));
    assert_eq!(timer.read_counter_reload_low_reg(), 9);
    // with the small interval the tick is due at the next cycle
    timer.write_control_reg(0x11);
    assert!(!timer.cycles(1));
    assert_eq!(timer.read_counter_reload_low_reg(), 8);
    assert!(!timer.cycles(399));
    assert_eq!(timer.read_counter_reload_low_reg(), 8);
    assert!(!timer.cycles(1));
    assert_eq!(timer.read_counter_reload_low_reg(), 7);
}
