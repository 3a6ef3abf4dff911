use vstd::prelude::*;
use vstd::string::StringExecFns;

use crate::session::Settings;

verus! {

/// The text of one frame of the dialog.
#[derive(Clone, Debug)]
pub struct DialogView {
    pub header: &'static str,
    /// Two lines: the frequency, then whether pressing is active.
    pub body: String,
    /// Label of the button that decreases the frequency.
    pub left: &'static str,
    /// Label of the button that toggles pressing.
    pub center: &'static str,
    /// Label of the button that increases the frequency.
    pub right: &'static str,
}

/// The decimal digit for `d`, which is below ten.
pub open spec fn digit_char(d: nat) -> char {
    seq!['0', '1', '2', '3', '4', '5', '6', '7', '8', '9'][d as int]
}

/// `n` written in decimal, without leading zeros.
pub open spec fn decimal(n: nat) -> Seq<char>
    decreases n,
{
    if n < 10 {
        seq![digit_char(n)]
    } else {
        decimal(n / 10).push(digit_char(n % 10))
    }
}

/// The body that shows these settings.
pub open spec fn status_text(s: Settings) -> Seq<char> {
    "Frequency: "@ + decimal(s.frequency as nat) + "ms\nActive: "@ + (if s.enabled {
        "yes"@
    } else {
        "no"@
    })
}

/// The label of the toggle button: what pressing it will do.
pub open spec fn center_label(enabled: bool) -> Seq<char> {
    if enabled {
        "disable"@
    } else {
        "enable"@
    }
}

fn digit_str(d: u64) -> (r: &'static str)
    requires
        d < 10,
    ensures
        r@ == seq![digit_char(d as nat)],
{
    proof {
        reveal_strlit("0");
        reveal_strlit("1");
        reveal_strlit("2");
        reveal_strlit("3");
        reveal_strlit("4");
        reveal_strlit("5");
        reveal_strlit("6");
        reveal_strlit("7");
        reveal_strlit("8");
        reveal_strlit("9");
    }
    match d {
        0 => "0",
        1 => "1",
        2 => "2",
        3 => "3",
        4 => "4",
        5 => "5",
        6 => "6",
        7 => "7",
        8 => "8",
        _ => "9",
    }
}

/// Append `n` in decimal to `s`.
pub fn push_decimal(s: &mut String, n: u64)
    ensures
        final(s)@ == old(s)@ + decimal(n as nat),
    decreases n,
{
    if n >= 10 {
        push_decimal(s, n / 10);
    }
    s.append(digit_str(n % 10));
    assert(s@ =~= old(s)@ + decimal(n as nat));
}

/// The two-line body that shows the frequency and whether pressing is active.
pub fn status_body(s: Settings) -> (r: String)
    ensures
        r@ == status_text(s),
{
    let mut r = String::from_str("Frequency: ");
    push_decimal(&mut r, s.frequency);
    r.append("ms\nActive: ");
    if s.enabled {
        r.append("yes");
    } else {
        r.append("no");
    }
    assert(r@ =~= status_text(s));
    r
}

/// The dialog frame that shows these settings.
pub fn render(s: Settings) -> (r: DialogView)
    ensures
        r.header@ == "Auto clicker"@,
        r.body@ == status_text(s),
        r.left@ == "less"@,
        r.center@ == center_label(s.enabled),
        r.right@ == "more"@,
{
    DialogView {
        header: "Auto clicker",
        body: status_body(s),
        left: "less",
        center: if s.enabled {
            "disable"
        } else {
            "enable"
        },
        right: "more",
    }
}

} // verus!
