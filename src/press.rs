use vstd::prelude::*;

verus! {

/// Number of keyboard keys held together with the mouse button.
pub const KEY_COUNT: usize = 36;

/// Longest hold, in milliseconds, whose length in microseconds fits in a `u32`.
pub const MAX_HOLD_MS: u32 = 4294967;

/// A mouse button of the HID transport.
#[derive(Clone, Copy, Debug, PartialEq, Eq, Structural)]
pub enum MouseButton {
    Left,
    Right,
    Wheel,
}

/// One operation on the HID transport.
#[derive(Clone, Copy, Debug, PartialEq, Eq, Structural)]
pub enum HidStep {
    /// Press the mouse buttons of this mask.
    MousePress { mask: u8 },
    /// Press the key of this HID key code.
    KeyPress { code: u16 },
    /// Wait this many microseconds.
    DelayUs { us: u32 },
    /// Release the mouse buttons of this mask.
    MouseRelease { mask: u8 },
    /// Release the key of this HID key code.
    KeyRelease { code: u16 },
}

/// The bit of a mouse button in the transport's button mask.
pub open spec fn mask_of(b: MouseButton) -> u8 {
    match b {
        MouseButton::Left => 1,
        MouseButton::Right => 2,
        MouseButton::Wheel => 4,
    }
}

/// The key code of the `i`-th held key: the digits 0 to 9, then the letters A to Z.
pub open spec fn key_code(i: int) -> u16 {
    if i < 10 {
        (0x30 + i) as u16
    } else {
        (0x41 + (i - 10)) as u16
    }
}

/// The key codes held during a press, in order.
pub open spec fn held_key_codes() -> Seq<u16> {
    Seq::new(KEY_COUNT as nat, |i: int| key_code(i))
}

/// The operations of one press: the mouse button and then every held key go
/// down, the transport waits, then the mouse button and every held key come up.
pub open spec fn press_plan(b: MouseButton, us: u32) -> Seq<HidStep> {
    seq![HidStep::MousePress { mask: mask_of(b) }]
        + held_key_codes().map_values(|c: u16| HidStep::KeyPress { code: c })
        + seq![HidStep::DelayUs { us }, HidStep::MouseRelease { mask: mask_of(b) }]
        + held_key_codes().map_values(|c: u16| HidStep::KeyRelease { code: c })
}

impl MouseButton {
    /// The bit of this button in the transport's button mask.
    pub fn mask(&self) -> (r: u8)
        ensures
            r == mask_of(*self),
    {
        match self {
            MouseButton::Left => 1,
            MouseButton::Right => 2,
            MouseButton::Wheel => 4,
        }
    }
}

/// The key codes held during a press: the digits 0 to 9, then the letters A to Z.
pub fn held_keys() -> (r: Vec<u16>)
    ensures
        r@ == held_key_codes(),
{
    let mut r: Vec<u16> = Vec::new();
    let mut i: usize = 0;
    while i < KEY_COUNT
        invariant
            i <= KEY_COUNT,
            r@ == held_key_codes().take(i as int),
        decreases KEY_COUNT - i,
    {
        let code: u16 = if i < 10 {
            0x30 + i as u16
        } else {
            0x41 + (i - 10) as u16
        };
        r.push(code);
        i = i + 1;
        assert(r@ =~= held_key_codes().take(i as int));
    }
    assert(r@ =~= held_key_codes());
    r
}

/// The operations that press `button` and hold it for `hold_ms` milliseconds.
pub fn press_sequence(button: MouseButton, hold_ms: u32) -> (r: Vec<HidStep>)
    requires
        hold_ms <= MAX_HOLD_MS,
    ensures
        r@ == press_plan(button, (hold_ms * 1000) as u32),
{
    let mask = button.mask();
    let keys = held_keys();
    let mut r: Vec<HidStep> = Vec::new();
    r.push(HidStep::MousePress { mask });
    let mut i: usize = 0;
    while i < keys.len()
        invariant
            keys@ == held_key_codes(),
            i <= keys.len(),
            r@ == seq![HidStep::MousePress { mask }] + keys@.take(i as int).map_values(
                |c: u16| HidStep::KeyPress { code: c },
            ),
        decreases keys.len() - i,
    {
        r.push(HidStep::KeyPress { code: keys[i] });
        i = i + 1;
        assert(r@ =~= seq![HidStep::MousePress { mask }] + keys@.take(i as int).map_values(
            |c: u16| HidStep::KeyPress { code: c },
        ));
    }
    assert(keys@.take(i as int) =~= keys@);
    r.push(HidStep::DelayUs { us: hold_ms * 1000 });
    r.push(HidStep::MouseRelease { mask });
    let ghost middle = r@;
    let mut j: usize = 0;
    while j < keys.len()
        invariant
            keys@ == held_key_codes(),
            j <= keys.len(),
            r@ == middle + keys@.take(j as int).map_values(|c: u16| HidStep::KeyRelease { code: c }),
        decreases keys.len() - j,
    {
        r.push(HidStep::KeyRelease { code: keys[j] });
        j = j + 1;
        assert(r@ =~= middle + keys@.take(j as int).map_values(
            |c: u16| HidStep::KeyRelease { code: c },
        ));
    }
    assert(keys@.take(j as int) =~= keys@);
    assert(r@ =~= press_plan(button, (hold_ms * 1000) as u32));
    r
}

} // verus!
