use vstd::prelude::*;

verus! {

/// Exit status of a session that ended cleanly.
pub const EXIT_OK: i32 = 0;

/// Exit status of a session whose USB mode switch or restore failed.
pub const EXIT_FAILURE: i32 = 1;

/// Where the application stands in the USB mode bracket around a session.
#[derive(Clone, Copy, Debug, PartialEq, Eq, Structural)]
pub enum Phase {
    /// The original USB mode has been recorded and the switch to HID mode is under way.
    SwitchingUsb,
    /// HID mode is on, the clicker task runs and the dialog is shown.
    Running,
    /// The halt request is written and the clicker task is being joined.
    Joining,
    /// The clicker task has returned and the original USB mode is being restored.
    Restoring,
    /// The application has ended with this status.
    Done { code: i32 },
}

/// What the outside world reports to the lifecycle.
#[derive(Clone, Copy, Debug, PartialEq, Eq, Structural)]
pub enum Event {
    /// The switch to HID mode succeeded or failed.
    UsbSwitched { ok: bool },
    /// The user left the dialog.
    DialogClosed,
    /// The clicker task has returned and its join has completed.
    ClickerJoined,
    /// The restore of the original USB mode succeeded or failed.
    UsbRestored { ok: bool },
}

/// What the application does next.
#[derive(Clone, Copy, Debug, PartialEq, Eq, Structural)]
pub enum Action {
    /// Alert the user that HID mode is unavailable and end with `code`; no task is started.
    AbortStartup { code: i32 },
    /// Confirm HID mode, create the shared state, start the clicker task and show the dialog.
    StartSession,
    /// Write the halt request and wait for the clicker task to return.
    HaltAndJoin,
    /// Restore the USB mode recorded at startup.
    RestoreUsb,
    /// End with `code`.
    Exit { code: i32 },
    /// The event does not apply in this phase; nothing happens.
    Ignore,
}

/// One step of the lifecycle: the phase after an event, and what to do.
pub open spec fn step(p: Phase, e: Event) -> (Phase, Action) {
    match (p, e) {
        (Phase::SwitchingUsb, Event::UsbSwitched { ok }) => if ok {
            (Phase::Running, Action::StartSession)
        } else {
            (Phase::Done { code: EXIT_FAILURE }, Action::AbortStartup { code: EXIT_FAILURE })
        },
        (Phase::Running, Event::DialogClosed) => (Phase::Joining, Action::HaltAndJoin),
        (Phase::Joining, Event::ClickerJoined) => (Phase::Restoring, Action::RestoreUsb),
        (Phase::Restoring, Event::UsbRestored { ok }) => {
            let code = if ok {
                EXIT_OK
            } else {
                EXIT_FAILURE
            };
            (Phase::Done { code }, Action::Exit { code })
        },
        _ => (p, Action::Ignore),
    }
}

/// The phase after a run of events, from the start of the application.
pub open spec fn phase_after(evs: Seq<Event>) -> Phase
    decreases evs.len(),
{
    if evs.len() == 0 {
        Phase::SwitchingUsb
    } else {
        step(phase_after(evs.drop_last()), evs.last()).0
    }
}

/// What the application does on event `i` of a run.
pub open spec fn action_on(evs: Seq<Event>, i: int) -> Action {
    step(phase_after(evs.take(i)), evs[i]).1
}

impl Phase {
    /// The phase the application starts in.
    pub fn start() -> (r: Phase)
        ensures
            r == Phase::SwitchingUsb,
    {
        Phase::SwitchingUsb
    }

    /// Whether the application has ended, and with which status.
    pub fn exit_code(&self) -> (r: Option<i32>)
        ensures
            r == (match *self {
                Phase::Done { code } => Some(code),
                _ => None::<i32>,
            }),
    {
        match *self {
            Phase::Done { code } => Some(code),
            _ => None,
        }
    }

    /// Move to the next phase on an event and say what to do.
    ///
    /// A failed switch ends the application with a failure status before any
    /// task starts; the USB mode is restored only once the clicker task's join
    /// has completed; the final status says whether that restore succeeded.
    pub fn on_event(&mut self, e: Event) -> (r: Action)
        ensures
            (*final(self), r) == step(*old(self), e),
    {
        match (*self, e) {
            (Phase::SwitchingUsb, Event::UsbSwitched { ok }) => {
                if ok {
                    *self = Phase::Running;
                    Action::StartSession
                } else {
                    *self = Phase::Done { code: EXIT_FAILURE };
                    Action::AbortStartup { code: EXIT_FAILURE }
                }
            },
            (Phase::Running, Event::DialogClosed) => {
                *self = Phase::Joining;
                Action::HaltAndJoin
            },
            (Phase::Joining, Event::ClickerJoined) => {
                *self = Phase::Restoring;
                Action::RestoreUsb
            },
            (Phase::Restoring, Event::UsbRestored { ok }) => {
                let code = if ok {
                    EXIT_OK
                } else {
                    EXIT_FAILURE
                };
                *self = Phase::Done { code };
                Action::Exit { code }
            },
            _ => Action::Ignore,
        }
    }
}

proof fn lemma_phase_step(evs: Seq<Event>, i: int)
    requires
        0 <= i < evs.len(),
    ensures
        phase_after(evs.take(i + 1)) == step(phase_after(evs.take(i)), evs[i]).0,
{
    assert(evs.take(i + 1).drop_last() =~= evs.take(i));
}

proof fn lemma_joining_after_halt(evs: Seq<Event>, i: int)
    requires
        0 <= i <= evs.len(),
    ensures
        phase_after(evs.take(i)) == Phase::Joining ==> exists|j: int|
            0 <= j < i && #[trigger] action_on(evs, j) == Action::HaltAndJoin,
    decreases i,
{
    if i == 0 {
        assert(evs.take(0) =~= Seq::<Event>::empty());
    } else {
        lemma_joining_after_halt(evs, i - 1);
        lemma_phase_step(evs, i - 1);
        if phase_after(evs.take(i)) == Phase::Joining {
            if phase_after(evs.take(i - 1)) != Phase::Joining {
                assert(action_on(evs, i - 1) == Action::HaltAndJoin);
            }
        }
    }
}

/// The original USB mode is restored only in answer to the completed join of
/// the clicker task, and only after the halt request and the wait for that
/// join were issued.
pub proof fn lemma_restore_after_join(evs: Seq<Event>, i: int)
    requires
        0 <= i < evs.len(),
        action_on(evs, i) == Action::RestoreUsb,
    ensures
        evs[i] == Event::ClickerJoined,
        phase_after(evs.take(i)) == Phase::Joining,
        exists|j: int| 0 <= j < i && #[trigger] action_on(evs, j) == Action::HaltAndJoin,
{
    lemma_joining_after_halt(evs, i);
}

} // verus!
