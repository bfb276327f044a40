//! The decisions of the worker thread that shows and hides the taskbar
//! windows: when it starts a round, when it ends, and how long it waits
//! between passes over the taskbar windows.

use vstd::prelude::*;

verus! {

/// What the worker learnt from the signal channel.
#[derive(Clone, Copy, Debug, PartialEq, Eq, Structural)]
pub enum Signal {
    /// The state changed: the taskbar must be brought in line with it.
    Refresh,
    /// The program is quitting.
    Exit,
    /// Nothing was waiting (only a look without waiting gives this).
    Empty,
    /// Every sender is gone.
    Disconnected,
}

/// What happened to the worker.
#[derive(Clone, Copy, Debug, PartialEq, Eq, Structural)]
pub enum WorkerEvent {
    /// The channel gave this signal.
    Signal(Signal),
    /// The current round is over: the taskbar showed as wanted, or the
    /// attempts ran out.
    RoundFinished,
}

/// Where the worker is.
#[derive(Clone, Copy, Debug, PartialEq, Eq, Structural)]
pub enum WorkerState {
    /// Blocked on the channel until a signal comes.
    Waiting,
    /// In a round over the taskbar windows, looking at the channel before
    /// each pass.
    InRound,
    /// After a round, emptying the channel; the flag says whether a refresh
    /// came in meanwhile, so that one more round is owed.
    Draining(bool),
    /// Ended.
    Stopped,
}

/// What the worker does next.
#[derive(Clone, Copy, Debug, PartialEq, Eq, Structural)]
pub enum WorkerAction {
    /// Block on the channel.
    Wait,
    /// Look at the channel without waiting.
    Poll,
    /// Begin a new round: send a requested Windows key press, set the
    /// shell's auto-hide state, and start counting passes afresh.
    StartRound,
    /// Make the pass over the taskbar windows that was about to be made.
    ContinueRound,
    /// End the worker.
    Stop,
}

/// The worker's next state and action. A refresh starts a round at once
/// while waiting or during a round (the round then starts over, so the
/// newest state is the one shown); one that comes while the channel is being
/// emptied is remembered, and the round it calls for starts once the channel
/// is empty. An exit signal or a closed channel ends the worker, and nothing
/// else does.
pub open spec fn worker_step(s: WorkerState, e: WorkerEvent) -> (WorkerState, WorkerAction) {
    match s {
        WorkerState::Stopped => (WorkerState::Stopped, WorkerAction::Stop),
        _ => match e {
            WorkerEvent::Signal(Signal::Exit) | WorkerEvent::Signal(Signal::Disconnected) => (
                WorkerState::Stopped,
                WorkerAction::Stop,
            ),
            WorkerEvent::Signal(Signal::Refresh) => match s {
                WorkerState::Draining(_) => (WorkerState::Draining(true), WorkerAction::Poll),
                _ => (WorkerState::InRound, WorkerAction::StartRound),
            },
            WorkerEvent::Signal(Signal::Empty) => match s {
                WorkerState::Waiting => (WorkerState::Waiting, WorkerAction::Wait),
                WorkerState::InRound => (WorkerState::InRound, WorkerAction::ContinueRound),
                WorkerState::Draining(owed) => if owed {
                    (WorkerState::InRound, WorkerAction::StartRound)
                } else {
                    (WorkerState::Waiting, WorkerAction::Wait)
                },
                WorkerState::Stopped => (WorkerState::Stopped, WorkerAction::Stop),
            },
            WorkerEvent::RoundFinished => match s {
                WorkerState::InRound => (WorkerState::Draining(false), WorkerAction::Poll),
                WorkerState::Waiting => (WorkerState::Waiting, WorkerAction::Wait),
                _ => (s, WorkerAction::Poll),
            },
        },
    }
}

/// Whether an event ends the worker.
pub open spec fn is_ending(e: WorkerEvent) -> bool {
    e == WorkerEvent::Signal(Signal::Exit) || e == WorkerEvent::Signal(Signal::Disconnected)
}

/// The state after a sequence of events.
pub open spec fn run_state(s: WorkerState, events: Seq<WorkerEvent>) -> WorkerState
    decreases events.len(),
{
    if events.len() == 0 {
        s
    } else {
        run_state(worker_step(s, events[0]).0, events.drop_first())
    }
}

/// How many rounds a sequence of events starts.
pub open spec fn rounds_started(s: WorkerState, events: Seq<WorkerEvent>) -> nat
    decreases events.len(),
{
    if events.len() == 0 {
        0
    } else {
        let (t, a) = worker_step(s, events[0]);
        (if a == WorkerAction::StartRound {
            1nat
        } else {
            0nat
        }) + rounds_started(t, events.drop_first())
    }
}

impl WorkerState {
    /// Takes in an event and says what to do next.
    pub fn step(&mut self, e: WorkerEvent) -> (a: WorkerAction)
        ensures
            (*final(self), a) == worker_step(*old(self), e),
    {
        let (next, action) = match *self {
            WorkerState::Stopped => (WorkerState::Stopped, WorkerAction::Stop),
            _ => match e {
                WorkerEvent::Signal(Signal::Exit) | WorkerEvent::Signal(Signal::Disconnected) => (
                    WorkerState::Stopped,
                    WorkerAction::Stop,
                ),
                WorkerEvent::Signal(Signal::Refresh) => match *self {
                    WorkerState::Draining(_) => (WorkerState::Draining(true), WorkerAction::Poll),
                    _ => (WorkerState::InRound, WorkerAction::StartRound),
                },
                WorkerEvent::Signal(Signal::Empty) => match *self {
                    WorkerState::Waiting => (WorkerState::Waiting, WorkerAction::Wait),
                    WorkerState::InRound => (WorkerState::InRound, WorkerAction::ContinueRound),
                    WorkerState::Draining(owed) => if owed {
                        (WorkerState::InRound, WorkerAction::StartRound)
                    } else {
                        (WorkerState::Waiting, WorkerAction::Wait)
                    },
                    WorkerState::Stopped => (WorkerState::Stopped, WorkerAction::Stop),
                },
                WorkerEvent::RoundFinished => match *self {
                    WorkerState::InRound => (WorkerState::Draining(false), WorkerAction::Poll),
                    WorkerState::Waiting => (WorkerState::Waiting, WorkerAction::Wait),
                    other => (other, WorkerAction::Poll),
                },
            },
        };
        *self = next;
        action
    }
}

/// What follows a pass over the taskbar windows.
#[derive(Clone, Copy, Debug, PartialEq, Eq, Structural)]
pub enum PassOutcome {
    /// Wait this many milliseconds, then make another pass if attempts are
    /// left.
    Sleep(u64),
    /// The taskbar is shown as wanted; the round is over.
    Finished,
}

/// A round ends after this many attempts.
pub const MAX_ATTEMPTS: u32 = 60;

/// A pass that left the taskbar hidden as wanted costs this many extra
/// attempts.
pub const HIDDEN_PASS_COST: u32 = 8;

/// The attempt counter of one round over the taskbar windows.
#[derive(Clone, Copy, Debug, PartialEq, Eq, Structural)]
pub struct RetryLoop {
    pub attempts: u32,
}

impl RetryLoop {
    pub open spec fn wf(self) -> bool {
        self.attempts <= MAX_ATTEMPTS + HIDDEN_PASS_COST
    }
}

/// The counter and what follows after a pass at tick count `now`. While the
/// taskbar must linger (before `visible_until`) the passes go on every 100
/// ms and the counter starts over; a pass in which some window did not take
/// the wanted visibility is retried after 10 ms; a pass that showed the
/// taskbar ends the round; a pass that hid it is checked again after 50 ms
/// and costs extra attempts.
pub open spec fn after_pass(
    r: RetryLoop,
    now: u64,
    visible_until: u64,
    failed: bool,
    should_show: bool,
) -> (RetryLoop, PassOutcome) {
    if now < visible_until {
        (RetryLoop { attempts: 0 }, PassOutcome::Sleep(100))
    } else if failed {
        (r, PassOutcome::Sleep(10))
    } else if should_show {
        (r, PassOutcome::Finished)
    } else {
        (RetryLoop { attempts: (r.attempts + HIDDEN_PASS_COST) as u32 }, PassOutcome::Sleep(50))
    }
}

impl RetryLoop {
    pub fn new() -> (r: Self)
        ensures
            r.attempts == 0,
            r.wf(),
    {
        RetryLoop { attempts: 0 }
    }

    /// Whether another pass is allowed.
    pub fn has_attempts_left(&self) -> (res: bool)
        ensures
            res == (self.attempts < MAX_ATTEMPTS),
    {
        self.attempts < MAX_ATTEMPTS
    }

    /// Counts the pass that begins.
    pub fn start_pass(&mut self)
        requires
            old(self).attempts < MAX_ATTEMPTS,
        ensures
            final(self).attempts == old(self).attempts + 1,
            final(self).wf(),
    {
        self.attempts = self.attempts + 1;
    }

    /// Records a finished pass.
    pub fn finish_pass(&mut self, now: u64, visible_until: u64, failed: bool, should_show: bool) -> (o:
        PassOutcome)
        requires
            old(self).attempts <= MAX_ATTEMPTS,
        ensures
            (*final(self), o) == after_pass(*old(self), now, visible_until, failed, should_show),
            final(self).wf(),
    {
        if now < visible_until {
            self.attempts = 0;
            PassOutcome::Sleep(100)
        } else if failed {
            PassOutcome::Sleep(10)
        } else if should_show {
            PassOutcome::Finished
        } else {
            self.attempts = self.attempts + HIDDEN_PASS_COST;
            PassOutcome::Sleep(50)
        }
    }
}

/// Once the linger time is over, every pass uses up at least one attempt, so
/// a round ends after at most `MAX_ATTEMPTS` passes.
pub proof fn lemma_pass_uses_attempts(
    r: RetryLoop,
    now: u64,
    visible_until: u64,
    failed: bool,
    should_show: bool,
)
    requires
        r.attempts < MAX_ATTEMPTS,
        now >= visible_until,
    ensures
        ({
            let started = RetryLoop { attempts: (r.attempts + 1) as u32 };
            let (next, outcome) = after_pass(started, now, visible_until, failed, should_show);
            outcome is Finished || next.attempts > r.attempts
        }),
{
}

/// A pass that showed the taskbar, with every window visible, ends the
/// round unless the taskbar must linger.
pub proof fn lemma_shown_pass_finishes(r: RetryLoop, now: u64, visible_until: u64)
    requires
        now >= visible_until,
    ensures
        after_pass(r, now, visible_until, false, true).1 == PassOutcome::Finished,
{
}

/// The worker ends only on an exit signal or a closed channel, and once
/// ended it stays ended and starts no round.
pub proof fn lemma_ends_only_on_exit(s: WorkerState, e: WorkerEvent)
    ensures
        (worker_step(s, e).0 == WorkerState::Stopped) <==> (s == WorkerState::Stopped || is_ending(e)),
        (worker_step(s, e).1 == WorkerAction::Stop) <==> (worker_step(s, e).0 == WorkerState::Stopped),
{
}

/// After the worker ended, no sequence of events starts another round.
pub proof fn lemma_no_round_after_stop(events: Seq<WorkerEvent>)
    ensures
        rounds_started(WorkerState::Stopped, events) == 0,
        run_state(WorkerState::Stopped, events) == WorkerState::Stopped,
    decreases events.len(),
{
    if events.len() > 0 {
        lemma_no_round_after_stop(events.drop_first());
    }
}

/// A worker that has not ended only ends on some event that ends it.
pub proof fn lemma_stops_only_by_ending_event(s: WorkerState, events: Seq<WorkerEvent>)
    requires
        s != WorkerState::Stopped,
        forall|i: int| 0 <= i < events.len() ==> !is_ending(#[trigger] events[i]),
    ensures
        run_state(s, events) != WorkerState::Stopped,
    decreases events.len(),
{
    if events.len() > 0 {
        assert(!is_ending(events[0]));
        let rest = events.drop_first();
        assert forall|i: int| 0 <= i < rest.len() implies !is_ending(#[trigger] rest[i]) by {
            assert(rest[i] == events[i + 1]);
        }
        lemma_stops_only_by_ending_event(worker_step(s, events[0]).0, rest);
    }
}

/// A round is owed from this state on: a refresh came after the last round
/// began.
pub open spec fn round_owed(s: WorkerState) -> bool {
    s == WorkerState::Draining(true)
}

/// No refresh is lost: a refresh to a running worker either starts a round
/// at once or leaves a round owed.
pub proof fn lemma_refresh_starts_or_owes_round(s: WorkerState)
    requires
        s != WorkerState::Stopped,
    ensures
        ({
            let (t, a) = worker_step(s, WorkerEvent::Signal(Signal::Refresh));
            a == WorkerAction::StartRound || round_owed(t)
        }),
{
}

/// An owed round is never dropped: whatever events follow, unless the
/// worker ends, it does not go back to waiting without starting a round.
pub proof fn lemma_owed_round_starts(s: WorkerState, events: Seq<WorkerEvent>)
    requires
        round_owed(s),
        forall|i: int| 0 <= i < events.len() ==> !is_ending(#[trigger] events[i]),
        run_state(s, events) == WorkerState::Waiting,
    ensures
        rounds_started(s, events) > 0,
    decreases events.len(),
{
    if events.len() == 0 {
        assert(run_state(s, events) == s);
    } else {
        let (t, a) = worker_step(s, events[0]);
        assert(!is_ending(events[0]));
        let rest = events.drop_first();
        assert forall|i: int| 0 <= i < rest.len() implies !is_ending(#[trigger] rest[i]) by {
            assert(rest[i] == events[i + 1]);
        }
        if a != WorkerAction::StartRound {
            assert(round_owed(t));
            lemma_owed_round_starts(t, rest);
        }
    }
}

} // verus!
