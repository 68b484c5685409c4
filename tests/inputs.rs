use ps_gpib::button::{duration_since_millis, Button};
use ps_gpib::delay::AsmDelay;
use ps_gpib::rotary_encoder::RotaryEncoder;

const MS: u32 = 72_000;

#[test]
fn press_is_taken_exactly_once() {
    let mut b = Button::new(true, 0);
    b.poll(false, 10 * MS);
    b.poll(true, 130 * MS);
    assert_eq!(b.take_last_press(100), Some(120));
    assert_eq!(b.take_last_press(100), None);
}

#[test]
fn short_press_is_dropped() {
    let mut b = Button::new(true, 0);
    b.poll(false, 10 * MS);
    b.poll(true, 50 * MS);
    assert_eq!(b.take_last_press(100), None);
    assert_eq!(b.last_push_duration_millis, None);
}

#[test]
fn cancelled_press_is_ignored_once() {
    let mut b = Button::new(true, 0);
    b.poll(false, 10 * MS);
    b.cancel_last_press();
    b.poll(true, 500 * MS);
    assert_eq!(b.take_last_press(60), None);
    b.poll(false, 600 * MS);
    b.poll(true, 700 * MS);
    assert_eq!(b.take_last_press(60), Some(100));
}

#[test]
fn missed_release_keeps_longer_press() {
    let mut b = Button::new(true, 0);
    b.poll(false, 0 + MS);
    b.poll(true, 301 * MS);
    b.poll(false, 400 * MS);
    b.poll(true, 500 * MS);
    assert_eq!(b.take_last_press(60), Some(300));
}

#[test]
fn is_pressed_while_held() {
    let mut b = Button::new(true, 0);
    b.poll(false, 10 * MS);
    assert!(b.is_pressed(60, 100 * MS));
    assert!(!b.is_pressed(60, 50 * MS));
    b.poll(true, 200 * MS);
    assert!(!b.is_pressed(60, 400 * MS));
}

#[test]
fn duration_is_zero_when_counter_wrapped() {
    assert_eq!(duration_since_millis(5, 10), 0);
    assert_eq!(duration_since_millis(144_000, 0), 2);
}

#[test]
fn encoder_delta_plain() {
    let mut e = RotaryEncoder::new(5);
    assert_eq!(e.poll(3), -2);
    assert_eq!(e.poll(13), 10);
    assert_eq!(e.count, 13);
}

#[test]
fn encoder_delta_across_wrap() {
    let mut e = RotaryEncoder::new(32760);
    assert_eq!(e.poll(-32766), 10);
    let mut e = RotaryEncoder::new(-32766);
    assert_eq!(e.poll(32760), -10);
}

#[test]
fn delay_cycles_per_microsecond() {
    let d = AsmDelay {};
    assert_eq!(d.cycles_for_us(1000), 72_000);
}

#[test]
fn short_press_clears_ignore_flag() {
    let mut b = Button::new(true, 0);
    b.cancel_last_press();
    b.poll(false, 10 * MS);
    b.poll(true, 40 * MS);
    assert_eq!(b.take_last_press(100), None);
    assert!(!b.ignore_last_press);
    b.poll(false, 100 * MS);
    b.poll(true, 300 * MS);
    assert_eq!(b.take_last_press(100), Some(200));
}
