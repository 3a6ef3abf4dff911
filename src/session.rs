use vstd::prelude::*;

verus! {

/// Delay, in milliseconds, added or removed by one press of the frequency buttons.
pub const STEP: u64 = 20;

/// Frequency, in milliseconds, that a session starts with.
pub const INIT: u64 = 100;

/// What the dialog lets the user change: the cycle length and whether pressing is on.
#[derive(Clone, Copy, Debug, PartialEq, Eq, Structural)]
pub struct Settings {
    /// Delay between press cycles, in milliseconds.
    pub frequency: u64,
    /// Whether periodic pressing is active.
    pub enabled: bool,
}

/// The state shared by the dialog and the clicker task.
///
/// The dialog is the only writer; the clicker only takes snapshots of it.
#[derive(Clone, Copy, Debug, PartialEq, Eq, Structural)]
pub struct SessionState {
    /// Whether periodic pressing is active.
    pub enabled: bool,
    /// Request for the clicker task to stop; once set it is never cleared.
    pub halt: bool,
    /// Delay between press cycles, in milliseconds.
    pub frequency: u64,
}

/// A button of the dialog, as the dialog service reports it.
#[derive(Clone, Copy, Debug, PartialEq, Eq, Structural)]
pub enum Button {
    /// Leave the dialog.
    Back,
    /// Decrease the frequency.
    Left,
    /// Toggle pressing on or off.
    Center,
    /// Increase the frequency.
    Right,
}

/// What the dialog does after a button: show the new settings, or end.
#[derive(Clone, Copy, Debug, PartialEq, Eq, Structural)]
pub enum DialogOutcome {
    /// Write these settings to the shared state and show the dialog again.
    Continue(Settings),
    /// Leave the dialog loop.
    Exit,
}

/// The frequency after one decrease: one step less, unless that would go below zero.
pub open spec fn decreased(f: u64) -> u64 {
    if f >= STEP {
        (f - STEP) as u64
    } else {
        f
    }
}

/// The frequency after one increase: one step more, held at the largest `u64`.
pub open spec fn increased(f: u64) -> u64 {
    if f <= u64::MAX - STEP {
        (f + STEP) as u64
    } else {
        u64::MAX
    }
}

/// The settings after a button other than Back.
pub open spec fn applied(s: Settings, b: Button) -> Settings {
    match b {
        Button::Left => Settings { frequency: decreased(s.frequency), ..s },
        Button::Right => Settings { frequency: increased(s.frequency), ..s },
        Button::Center => Settings { enabled: !s.enabled, ..s },
        Button::Back => s,
    }
}

/// The settings after a run of buttons, each applied in turn.
pub open spec fn settings_after(s: Settings, bs: Seq<Button>) -> Settings
    decreases bs.len(),
{
    if bs.len() == 0 {
        s
    } else {
        applied(settings_after(s, bs.drop_last()), bs.last())
    }
}

/// Whatever run of Left and Right presses the user makes, after every prefix of
/// it the frequency is at least zero and at most the starting frequency plus one
/// step per press made so far: a decrease never wraps below zero.
pub proof fn lemma_frequency_never_negative(s: Settings, bs: Seq<Button>)
    requires
        forall|i: int| 0 <= i < bs.len() ==> bs[i] == Button::Left || bs[i] == Button::Right,
    ensures
        forall|k: int|
            0 <= k <= bs.len() ==> {
                &&& 0 <= #[trigger] settings_after(s, bs.take(k)).frequency
                &&& settings_after(s, bs.take(k)).frequency <= s.frequency + STEP * k
            },
    decreases bs.len(),
{
    if bs.len() > 0 {
        let front = bs.drop_last();
        lemma_frequency_never_negative(s, front);
        assert forall|k: int| 0 <= k <= bs.len() implies {
            &&& 0 <= #[trigger] settings_after(s, bs.take(k)).frequency
            &&& settings_after(s, bs.take(k)).frequency <= s.frequency + STEP * k
        } by {
            if k < bs.len() {
                assert(bs.take(k) =~= front.take(k));
            } else {
                assert(bs.take(k) =~= bs);
                assert(front.take(k - 1) =~= front);
                let prev = settings_after(s, front.take(k - 1));
                assert(prev == settings_after(s, front));
                assert(bs[bs.len() - 1] == Button::Left || bs[bs.len() - 1] == Button::Right);
            }
        }
    }
}

/// Pressing Center twice gives back the settings the user started from.
pub proof fn lemma_toggle_twice(s: Settings)
    ensures
        applied(applied(s, Button::Center), Button::Center) == s,
{
}

impl Settings {
    /// Decrease the frequency by one step, leaving it unchanged where it would go below zero.
    pub fn decrease(&mut self)
        ensures
            final(self).frequency == decreased(old(self).frequency),
            final(self).enabled == old(self).enabled,
    {
        if self.frequency >= STEP {
            self.frequency = self.frequency - STEP;
        }
    }

    /// Increase the frequency by one step, holding it at the largest `u64`.
    pub fn increase(&mut self)
        ensures
            final(self).frequency == increased(old(self).frequency),
            final(self).enabled == old(self).enabled,
    {
        self.frequency = self.frequency.saturating_add(STEP);
    }

    /// Turn pressing on where it was off, and off where it was on.
    pub fn toggle(&mut self)
        ensures
            final(self).enabled == !old(self).enabled,
            final(self).frequency == old(self).frequency,
    {
        self.enabled = !self.enabled;
    }

    /// What the dialog does when the user picks `button`.
    pub fn on_button(self, button: Button) -> (r: DialogOutcome)
        ensures
            button == Button::Back ==> r == DialogOutcome::Exit,
            button != Button::Back ==> r == DialogOutcome::Continue(applied(self, button)),
    {
        let mut s = self;
        match button {
            Button::Back => {
                return DialogOutcome::Exit;
            },
            Button::Left => s.decrease(),
            Button::Right => s.increase(),
            Button::Center => s.toggle(),
        }
        DialogOutcome::Continue(s)
    }
}

impl SessionState {
    /// The state a session starts with: disabled, not halted, at the initial frequency.
    pub fn new() -> (r: SessionState)
        ensures
            r == (SessionState { enabled: false, halt: false, frequency: INIT }),
    {
        SessionState { enabled: false, halt: false, frequency: INIT }
    }

    /// The part of the state that the dialog shows and edits.
    pub fn settings(&self) -> (r: Settings)
        ensures
            r == (Settings { frequency: self.frequency, enabled: self.enabled }),
    {
        Settings { frequency: self.frequency, enabled: self.enabled }
    }

    /// Store the dialog's settings; the halt request is left as it was.
    pub fn write_settings(&mut self, s: Settings)
        ensures
            *final(self) == (SessionState {
                enabled: s.enabled,
                halt: old(self).halt,
                frequency: s.frequency,
            }),
    {
        self.frequency = s.frequency;
        self.enabled = s.enabled;
    }

    /// Ask the clicker task to stop; the settings are left as they were.
    pub fn request_halt(&mut self)
        ensures
            *final(self) == (SessionState { halt: true, ..*old(self) }),
    {
        self.halt = true;
    }
}

} // verus!
