use rtos::board::{led_pin_level, LedState, PinLevel};
use rtos::error::{BoardError, Kind};

#[test]
fn leds_are_active_low() {
    assert_eq!(led_pin_level(LedState::On), PinLevel::Low);
    assert_eq!(led_pin_level(LedState::Off), PinLevel::High);
}

#[test]
fn board_error_without_cause() {
    let e = BoardError::default();
    assert_eq!(e.kind(), Kind::InternalError);
    assert!(e.cause().is_none());
    assert_eq!(e.message(), "BoardError: Unknown error");
}

#[test]
fn board_error_with_kind_and_cause() {
    let e = BoardError::with_kind(Kind::InternalError).with(String::from("usart read error"));
    assert_eq!(e.kind(), Kind::InternalError);
    assert_eq!(e.cause().as_deref(), Some("usart read error"));
    assert_eq!(e.message(), "BoardError: usart read error");
}

#[test]
fn board_error_new_attaches_the_cause() {
    let e = BoardError::new(String::from("timeout"));
    assert_eq!(e.kind(), Kind::InternalError);
    assert_eq!(e.message(), "BoardError: timeout");
}
