use auto_click::clicker::{Clicker, ClickerAction};
use auto_click::session::SessionState;

fn snap(enabled: bool, halt: bool, frequency: u64) -> SessionState {
    SessionState { enabled, halt, frequency }
}

#[test]
fn start_sleeps_for_the_first_frequency() {
    let c = Clicker::start(&snap(true, false, 250));
    assert_eq!(c, Clicker { sleep_ms: 250, stopped: false });
}

#[test]
fn disabled_cycle_is_idle() {
    let mut c = Clicker::start(&snap(false, false, 100));
    assert_eq!(c.on_snapshot(&snap(false, false, 120)), ClickerAction::Idle);
    assert_eq!(c, Clicker { sleep_ms: 120, stopped: false });
}

#[test]
fn new_frequency_takes_effect_on_the_next_sleep() {
    let mut c = Clicker::start(&snap(false, false, 100));
    // The dialog writes 300 while the clicker sleeps the old 100 ms.
    assert_eq!(c.sleep_ms, 100);
    assert_eq!(c.on_snapshot(&snap(true, false, 300)), ClickerAction::Press { hold_ms: 30 });
    assert_eq!(c.sleep_ms, 300);
}

#[test]
fn halt_stops_without_a_press() {
    let mut c = Clicker::start(&snap(true, false, 100));
    assert_eq!(c.on_snapshot(&snap(true, true, 100)), ClickerAction::Stop);
    assert!(c.stopped);
    // A stopped task never presses again, whatever later snapshots say.
    assert_eq!(c.on_snapshot(&snap(true, false, 100)), ClickerAction::Stop);
    assert!(c.stopped);
}
