use chip8::timer::Timers;

#[test]
fn delay_reaches_zero_after_exactly_five_ticks() {
    let mut t = Timers::new();
    t.set_delay(5);
    for expected in [4u8, 3, 2, 1, 0] {
        t.tick();
        assert_eq!(t.get_delay(), expected);
    }
    t.tick();
    t.tick();
    assert_eq!(t.get_delay(), 0);
}

#[test]
fn sound_timer_counts_down_independently() {
    let mut t = Timers::new();
    t.set_sound(2);
    t.set_delay(10);
    t.tick();
    assert_eq!(t.get_sound(), 1);
    assert_eq!(t.get_delay(), 9);
    t.tick();
    t.tick();
    assert_eq!(t.get_sound(), 0);
    assert_eq!(t.get_delay(), 7);
}
