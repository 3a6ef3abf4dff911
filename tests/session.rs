use auto_click::clicker::{Clicker, ClickerAction, HOLD};
use auto_click::press::{press_sequence, HidStep, MouseButton};
use auto_click::session::{Button, DialogOutcome, SessionState, Settings, INIT, STEP};

fn apply(s: Settings, b: Button) -> Settings {
    match s.on_button(b) {
        DialogOutcome::Continue(n) => n,
        DialogOutcome::Exit => panic!("the dialog ended"),
    }
}

#[test]
fn new_session_starts_disabled_at_init() {
    let s = SessionState::new();
    assert_eq!(s, SessionState { enabled: false, halt: false, frequency: 100 });
    assert_eq!(INIT, 100);
    assert_eq!(STEP, 20);
}

#[test]
fn scenario_right_twice_then_center_presses_once() {
    let mut shared = SessionState { enabled: false, halt: false, frequency: 100 };
    let mut clicker = Clicker::start(&shared);
    let mut s = shared.settings();
    s = apply(s, Button::Right);
    s = apply(s, Button::Right);
    assert_eq!(s.frequency, 140);
    s = apply(s, Button::Center);
    assert!(s.enabled);
    shared.write_settings(s);
    assert_eq!(shared, SessionState { enabled: true, halt: false, frequency: 140 });

    let action = clicker.on_snapshot(&shared);
    assert_eq!(action, ClickerAction::Press { hold_ms: 30 });
    assert_eq!(HOLD, 30);
    assert_eq!(clicker.sleep_ms, 140);
    let steps = press_sequence(MouseButton::Left, HOLD);
    let presses = steps.iter().filter(|st| matches!(st, HidStep::MousePress { .. })).count();
    let releases = steps.iter().filter(|st| matches!(st, HidStep::MouseRelease { .. })).count();
    assert_eq!(presses, 1);
    assert_eq!(releases, 1);
    assert!(steps.contains(&HidStep::DelayUs { us: 30_000 }));
}

#[test]
fn scenario_left_at_zero_stays_zero() {
    let s = Settings { frequency: 0, enabled: false };
    assert_eq!(s.on_button(Button::Left), DialogOutcome::Continue(Settings { frequency: 0, enabled: false }));
}

#[test]
fn left_below_one_step_is_a_no_op() {
    let s = Settings { frequency: 10, enabled: true };
    assert_eq!(apply(s, Button::Left).frequency, 10);
    let s = Settings { frequency: 20, enabled: true };
    assert_eq!(apply(s, Button::Left), Settings { frequency: 0, enabled: true });
}

#[test]
fn right_is_held_at_the_largest_value() {
    let s = Settings { frequency: u64::MAX - 5, enabled: false };
    assert_eq!(apply(s, Button::Right).frequency, u64::MAX);
    let s = Settings { frequency: u64::MAX, enabled: false };
    assert_eq!(apply(s, Button::Right).frequency, u64::MAX);
}

#[test]
fn left_right_sequence_never_goes_below_zero() {
    let mut s = Settings { frequency: 40, enabled: false };
    let seq = [
        Button::Left, Button::Left, Button::Left, Button::Left, Button::Right,
        Button::Left, Button::Left, Button::Right, Button::Right, Button::Left,
    ];
    let expected = [20u64, 0, 0, 0, 20, 0, 0, 20, 40, 20];
    for (b, e) in seq.iter().zip(expected.iter()) {
        s = apply(s, *b);
        assert_eq!(s.frequency, *e);
    }
}

#[test]
fn center_twice_restores_enabled() {
    for enabled in [false, true] {
        let s = Settings { frequency: 60, enabled };
        let once = apply(s, Button::Center);
        assert_eq!(once.enabled, !enabled);
        assert_eq!(apply(once, Button::Center), s);
    }
}

#[test]
fn back_ends_the_dialog() {
    let s = Settings { frequency: 60, enabled: true };
    assert_eq!(s.on_button(Button::Back), DialogOutcome::Exit);
}

#[test]
fn writes_keep_the_halt_request() {
    let mut shared = SessionState { enabled: false, halt: true, frequency: 100 };
    shared.write_settings(Settings { frequency: 80, enabled: true });
    assert_eq!(shared, SessionState { enabled: true, halt: true, frequency: 80 });
}

#[test]
fn halt_request_keeps_the_settings() {
    let mut shared = SessionState { enabled: true, halt: false, frequency: 60 };
    shared.request_halt();
    assert_eq!(shared, SessionState { enabled: true, halt: true, frequency: 60 });
    assert_eq!(shared.settings(), Settings { frequency: 60, enabled: true });
}
