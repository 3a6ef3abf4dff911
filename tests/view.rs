use auto_click::session::Settings;
use auto_click::view::{push_decimal, render, status_body};

#[test]
fn render_disabled_frame() {
    let v = render(Settings { frequency: 100, enabled: false });
    assert_eq!(v.header, "Auto clicker");
    assert_eq!(v.body, "Frequency: 100ms\nActive: no");
    assert_eq!(v.left, "less");
    assert_eq!(v.center, "enable");
    assert_eq!(v.right, "more");
}

#[test]
fn render_enabled_frame() {
    let v = render(Settings { frequency: 140, enabled: true });
    assert_eq!(v.body, "Frequency: 140ms\nActive: yes");
    assert_eq!(v.center, "disable");
}

#[test]
fn status_body_at_the_extremes() {
    assert_eq!(status_body(Settings { frequency: 0, enabled: false }), "Frequency: 0ms\nActive: no");
    assert_eq!(
        status_body(Settings { frequency: u64::MAX, enabled: true }),
        "Frequency: 18446744073709551615ms\nActive: yes"
    );
}

#[test]
fn decimal_appends_without_leading_zeros() {
    let mut s = String::from("n=");
    push_decimal(&mut s, 1020);
    assert_eq!(s, "n=1020");
    let mut s = String::new();
    push_decimal(&mut s, 9);
    assert_eq!(s, "9");
}
