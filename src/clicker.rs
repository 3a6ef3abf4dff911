use vstd::prelude::*;

use crate::session::SessionState;

verus! {

/// How long, in milliseconds, each press holds the button down.
pub const HOLD: u32 = 30;

/// The background clicker task between two snapshots of the shared state.
///
/// Each cycle sleeps for `sleep_ms`, takes a snapshot, and hands it to
/// `on_snapshot`, which says what to do and which sleep comes next.
#[derive(Clone, Copy, Debug, PartialEq, Eq, Structural)]
pub struct Clicker {
    /// Length of the next sleep: the frequency of the latest snapshot.
    pub sleep_ms: u64,
    /// Whether the task has seen a halt request and ended.
    pub stopped: bool,
}

/// What the clicker task does after a snapshot.
#[derive(Clone, Copy, Debug, PartialEq, Eq, Structural)]
pub enum ClickerAction {
    /// Press the button once, holding it for `hold_ms` milliseconds, then sleep again.
    Press { hold_ms: u32 },
    /// Do nothing this cycle and sleep again.
    Idle,
    /// Return from the task; nothing is pressed.
    Stop,
}

/// One cycle: the clicker after a snapshot, and what it does.
pub open spec fn cycle(c: Clicker, snap: SessionState) -> (Clicker, ClickerAction) {
    if c.stopped {
        (c, ClickerAction::Stop)
    } else if snap.halt {
        (Clicker { sleep_ms: snap.frequency, stopped: true }, ClickerAction::Stop)
    } else if snap.enabled {
        (Clicker { sleep_ms: snap.frequency, stopped: false }, ClickerAction::Press { hold_ms: HOLD })
    } else {
        (Clicker { sleep_ms: snap.frequency, stopped: false }, ClickerAction::Idle)
    }
}

/// The clicker after handling a run of snapshots, in order.
pub open spec fn run(c: Clicker, snaps: Seq<SessionState>) -> Clicker
    decreases snaps.len(),
{
    if snaps.len() == 0 {
        c
    } else {
        cycle(run(c, snaps.drop_last()), snaps.last()).0
    }
}

/// What the clicker does on snapshot `j` of a run.
pub open spec fn action_at(c: Clicker, snaps: Seq<SessionState>, j: int) -> ClickerAction {
    cycle(run(c, snaps.take(j)), snaps[j]).1
}

impl Clicker {
    /// The task as it starts, from the first snapshot: it will sleep for that snapshot's frequency.
    pub fn start(first: &SessionState) -> (r: Clicker)
        ensures
            r == (Clicker { sleep_ms: first.frequency, stopped: false }),
    {
        Clicker { sleep_ms: first.frequency, stopped: false }
    }

    /// Handle the snapshot taken at the end of a sleep.
    ///
    /// A halt request ends the task without a press, whatever `enabled` says;
    /// otherwise the task presses once if pressing is enabled. The next sleep
    /// lasts the snapshot's frequency.
    pub fn on_snapshot(&mut self, snap: &SessionState) -> (r: ClickerAction)
        ensures
            (*final(self), r) == cycle(*old(self), *snap),
    {
        if self.stopped {
            return ClickerAction::Stop;
        }
        self.sleep_ms = snap.frequency;
        if snap.halt {
            self.stopped = true;
            ClickerAction::Stop
        } else if snap.enabled {
            ClickerAction::Press { hold_ms: HOLD }
        } else {
            ClickerAction::Idle
        }
    }
}

proof fn lemma_run_step(c: Clicker, snaps: Seq<SessionState>, j: int)
    requires
        0 <= j < snaps.len(),
    ensures
        run(c, snaps.take(j + 1)) == cycle(run(c, snaps.take(j)), snaps[j]).0,
{
    assert(snaps.take(j + 1).drop_last() =~= snaps.take(j));
}

/// Once a snapshot carries the halt request, the clicker stops on it and on
/// every later snapshot, and never presses again.
pub proof fn lemma_halt_is_final(c: Clicker, snaps: Seq<SessionState>, i: int)
    requires
        0 <= i < snaps.len(),
        snaps[i].halt,
    ensures
        forall|j: int|
            i <= j < snaps.len() ==> {
                &&& #[trigger] action_at(c, snaps, j) == ClickerAction::Stop
                &&& run(c, snaps.take(j + 1)).stopped
            },
{
    assert forall|j: int| i <= j < snaps.len() implies {
        &&& #[trigger] action_at(c, snaps, j) == ClickerAction::Stop
        &&& run(c, snaps.take(j + 1)).stopped
    } by {
        lemma_stopped_from(c, snaps, i, j);
    }
}

proof fn lemma_stopped_from(c: Clicker, snaps: Seq<SessionState>, i: int, j: int)
    requires
        0 <= i <= j < snaps.len(),
        snaps[i].halt,
    ensures
        action_at(c, snaps, j) == ClickerAction::Stop,
        run(c, snaps.take(j + 1)).stopped,
    decreases j - i,
{
    lemma_run_step(c, snaps, j);
    if j > i {
        lemma_stopped_from(c, snaps, i, j - 1);
        assert(j - 1 + 1 == j);
    }
}

proof fn lemma_running(c: Clicker, snaps: Seq<SessionState>, j: int)
    requires
        !c.stopped,
        0 <= j <= snaps.len(),
        forall|i: int| 0 <= i < j ==> !(#[trigger] snaps[i]).halt,
    ensures
        !run(c, snaps.take(j)).stopped,
        j > 0 ==> run(c, snaps.take(j)).sleep_ms == snaps[j - 1].frequency,
    decreases j,
{
    if j == 0 {
        assert(snaps.take(0) =~= Seq::<SessionState>::empty());
    } else {
        lemma_running(c, snaps, j - 1);
        lemma_run_step(c, snaps, j - 1);
        assert(!snaps[j - 1].halt);
    }
}

/// Until a halt request, each cycle sleeps for the frequency of the snapshot
/// before it, and then acts on the snapshot it takes alone: a value the dialog
/// writes during a sleep is acted on at the end of that sleep, whose length was
/// fixed by the previous frequency.
pub proof fn lemma_staleness_bound(c: Clicker, snaps: Seq<SessionState>, j: int)
    requires
        !c.stopped,
        0 < j < snaps.len(),
        forall|i: int| 0 <= i < j ==> !(#[trigger] snaps[i]).halt,
    ensures
        run(c, snaps.take(j)).sleep_ms == snaps[j - 1].frequency,
        action_at(c, snaps, j) == (if snaps[j].halt {
            ClickerAction::Stop
        } else if snaps[j].enabled {
            ClickerAction::Press { hold_ms: HOLD }
        } else {
            ClickerAction::Idle
        }),
{
    lemma_running(c, snaps, j);
}

} // verus!
