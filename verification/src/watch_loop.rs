//! The watch loop as a state machine.
//!
//! The loop itself waits: for the next filesystem event, for the renderer, for
//! an interrupt. Waiting is the caller's part. What to do about each thing
//! that happens is decided here: [`WatchLoop::step`] takes the loop's state and
//! an event, and gives the next state and the action to perform.
//!
//! ```text
//! Starting --Subscribed--> Watching --(event passes filter, debouncer)--> Rebuilding
//!     |                     |  ^                                           |
//!     | SubscribeFailed     |  +---------- RebuildFinished (survivable) ---+
//!     v                     v                                              |
//!  Stopped <--- Interrupt, SourceClosed            RebuildFinished (fatal) |
//!     ^--------------------------------------------------------------------+
//! ```
//!
//! Rebuilds are strictly serialized: while one is in flight no event starts
//! another.

use vstd::prelude::*;
use crate::debounce::Debouncer;
use crate::event_filter::{
    event_targets_input, is_relevant, relevant_event, same_in_text, targets_input,
    TrackedInput, TrackedInputView, WatchEvent, WatchEventView,
};
use crate::render::{RebuildOutcome, GENERAL_FAILURE, RENDERER_MISSING};

verus! {

/// Why the loop stopped.
#[derive(Clone, Copy, Debug, PartialEq, Eq)]
pub enum Stop {
    /// An interrupt asked for it: a clean shutdown.
    Interrupted,
    /// The source of filesystem events went away: a clean shutdown.
    SourceClosed,
    /// The filesystem watcher could not be started.
    WatcherFailed,
    /// A rebuild found the renderer missing.
    RendererMissing,
    /// The task that ran a rebuild died.
    RenderCrashed,
}

impl Stop {
    /// The status that the session ends with: none for a clean shutdown.
    pub open spec fn status(self) -> Result<(), i32> {
        match self {
            Stop::Interrupted | Stop::SourceClosed => Ok(()),
            Stop::WatcherFailed | Stop::RenderCrashed => Err(GENERAL_FAILURE),
            Stop::RendererMissing => Err(RENDERER_MISSING),
        }
    }

    /// The status that the session ends with.
    pub fn exit_status(&self) -> (status: Result<(), i32>)
        ensures
            status == self.status(),
    {
        match self {
            Stop::Interrupted | Stop::SourceClosed => Ok(()),
            Stop::WatcherFailed | Stop::RenderCrashed => Err(GENERAL_FAILURE),
            Stop::RendererMissing => Err(RENDERER_MISSING),
        }
    }
}

/// Where the loop stands.
#[derive(Clone, Copy, Debug, PartialEq, Eq)]
pub enum Phase {
    /// The filesystem watcher is being set up.
    Starting,
    /// Waiting for something to happen.
    Watching,
    /// A rebuild is in flight.
    Rebuilding,
    /// The loop has ended, for the reason given.
    Stopped(Stop),
}

/// Something that happened, to which the loop must react.
#[derive(Debug)]
pub enum LoopEvent {
    /// The filesystem watcher is in place.
    Subscribed,
    /// The filesystem watcher could not be put in place.
    SubscribeFailed,
    /// The process was asked to stop.
    Interrupt,
    /// The watcher reported a filesystem event. `now` is the clock's reading as
    /// the event is taken up, `input_exists` whether the watched file is on
    /// disk at that moment.
    Notified { event: WatchEvent, now: u64, input_exists: bool },
    /// The watcher reported an error of its own.
    WatcherError,
    /// The watcher's side of the event channel is gone.
    SourceClosed,
    /// The rebuild in flight ended, at clock reading `now`.
    RebuildFinished { outcome: RebuildOutcome, now: u64 },
}

/// The mathematical content of a [`LoopEvent`].
pub enum LoopEventView {
    Subscribed,
    SubscribeFailed,
    Interrupt,
    Notified { event: WatchEventView, now: u64, input_exists: bool },
    WatcherError,
    SourceClosed,
    RebuildFinished { outcome: RebuildOutcome, now: u64 },
}

impl View for LoopEvent {
    type V = LoopEventView;

    open spec fn view(&self) -> LoopEventView {
        match *self {
            LoopEvent::Subscribed => LoopEventView::Subscribed,
            LoopEvent::SubscribeFailed => LoopEventView::SubscribeFailed,
            LoopEvent::Interrupt => LoopEventView::Interrupt,
            LoopEvent::Notified { event, now, input_exists } => LoopEventView::Notified {
                event: event@,
                now,
                input_exists,
            },
            LoopEvent::WatcherError => LoopEventView::WatcherError,
            LoopEvent::SourceClosed => LoopEventView::SourceClosed,
            LoopEvent::RebuildFinished { outcome, now } => LoopEventView::RebuildFinished {
                outcome,
                now,
            },
        }
    }
}

/// What the caller is to do after a step. After every action but
/// [`LoopAction::StartRebuild`] and [`LoopAction::Halt`] it waits for the next
/// event.
#[derive(Clone, Copy, Debug, PartialEq, Eq)]
pub enum LoopAction {
    /// Nothing: the event was of no concern, or came too soon after the last
    /// rebuild attempt.
    Wait,
    /// Say that the watched file is missing, and wait for it to reappear.
    ReportMissingInput,
    /// Say that the watcher reported an error, and go on.
    ReportWatcherError,
    /// Run the renderer, off the path on which events are delivered, and come
    /// back with [`LoopEvent::RebuildFinished`].
    StartRebuild,
    /// The rebuild succeeded: say so, and where `publish` is set, publish one
    /// reload notice on the bus. What becomes of the notice is not the loop's
    /// concern: with no subscriber it is lost, and nothing is retried.
    Rebuilt { publish: bool },
    /// The rebuild failed with this status, and the loop goes on.
    RebuildFailed { status: i32 },
    /// The event cannot be taken in this phase; the loop is unchanged. A
    /// filesystem event or an interrupt that arrives while a rebuild is in
    /// flight is to be offered again once the rebuild has finished.
    OutOfTurn,
    /// The loop has stopped: leave with this reason.
    Halt(Stop),
}

/// The mathematical content of a [`WatchLoop`].
pub struct WatchLoopView {
    /// The file that is watched.
    pub input: TrackedInputView,
    /// The debouncer.
    pub debouncer: Debouncer,
    /// Whether a successful rebuild is announced on the reload bus.
    pub publishes: bool,
    /// Where the loop stands.
    pub phase: Phase,
}

/// Whether a filesystem event, taken up in phase [`Phase::Watching`], starts a
/// rebuild: its kind is relevant, it names the watched file, the debouncer lets
/// it through,
/// and the file is on disk.
pub open spec fn qualifies(
    state: WatchLoopView,
    event: WatchEventView,
    now: u64,
    input_exists: bool,
) -> bool {
    &&& is_relevant(event.kind)
    &&& targets_input(event, state.input)
    &&& state.debouncer.ready_at(now)
    &&& input_exists
}

/// Whether a filesystem event is plainly about the watched file and free to
/// start a rebuild: its kind is relevant, one of its paths is the input's to
/// the letter, the debouncer lets it through, and the file is on disk.
pub open spec fn plainly_qualifies(
    state: WatchLoopView,
    event: WatchEventView,
    now: u64,
    input_exists: bool,
) -> bool {
    &&& is_relevant(event.kind)
    &&& exists|i: int|
        0 <= i < event.paths.len() && same_in_text(#[trigger] event.paths[i], state.input)
    &&& state.debouncer.ready_at(now)
    &&& input_exists
}

/// The reaction to a filesystem event in phase [`Phase::Watching`]: the filter
/// first, then the debouncer, then the look for the file.
pub open spec fn on_notified(
    state: WatchLoopView,
    event: WatchEventView,
    now: u64,
    input_exists: bool,
) -> (WatchLoopView, LoopAction) {
    if !is_relevant(event.kind) || !targets_input(event, state.input) {
        (state, LoopAction::Wait)
    } else if !state.debouncer.ready_at(now) {
        (state, LoopAction::Wait)
    } else if !input_exists {
        (state, LoopAction::ReportMissingInput)
    } else {
        (WatchLoopView { phase: Phase::Rebuilding, ..state }, LoopAction::StartRebuild)
    }
}

/// The reaction to the end of the rebuild in flight. A fatal outcome stops the
/// loop. Any other, success or failure alike, counts as an attempt, from which
/// the debounce interval runs anew.
pub open spec fn on_rebuild_finished(state: WatchLoopView, outcome: RebuildOutcome, now: u64) -> (
    WatchLoopView,
    LoopAction,
) {
    match outcome {
        RebuildOutcome::Crashed => (
            WatchLoopView { phase: Phase::Stopped(Stop::RenderCrashed), ..state },
            LoopAction::Halt(Stop::RenderCrashed),
        ),
        RebuildOutcome::Failed(status) => if status == RENDERER_MISSING {
            (
                WatchLoopView { phase: Phase::Stopped(Stop::RendererMissing), ..state },
                LoopAction::Halt(Stop::RendererMissing),
            )
        } else {
            (
                WatchLoopView {
                    phase: Phase::Watching,
                    debouncer: state.debouncer.after_attempt(now),
                    ..state
                },
                LoopAction::RebuildFailed { status },
            )
        },
        RebuildOutcome::Succeeded => (
            WatchLoopView { phase: Phase::Watching, debouncer: state.debouncer.after_attempt(now), ..state },
            LoopAction::Rebuilt { publish: state.publishes },
        ),
    }
}

/// The transition function of the loop: the state after `event`, and the
/// action to perform.
pub open spec fn step_of(state: WatchLoopView, event: LoopEventView) -> (
    WatchLoopView,
    LoopAction,
) {
    match state.phase {
        Phase::Stopped(why) => (state, LoopAction::Halt(why)),
        Phase::Starting => match event {
            LoopEventView::Subscribed => (
                WatchLoopView { phase: Phase::Watching, ..state },
                LoopAction::Wait,
            ),
            LoopEventView::SubscribeFailed => (
                WatchLoopView { phase: Phase::Stopped(Stop::WatcherFailed), ..state },
                LoopAction::Halt(Stop::WatcherFailed),
            ),
            _ => (state, LoopAction::OutOfTurn),
        },
        Phase::Watching => match event {
            LoopEventView::Interrupt => (
                WatchLoopView { phase: Phase::Stopped(Stop::Interrupted), ..state },
                LoopAction::Halt(Stop::Interrupted),
            ),
            LoopEventView::SourceClosed => (
                WatchLoopView { phase: Phase::Stopped(Stop::SourceClosed), ..state },
                LoopAction::Halt(Stop::SourceClosed),
            ),
            LoopEventView::WatcherError => (state, LoopAction::ReportWatcherError),
            LoopEventView::Notified { event, now, input_exists } => on_notified(
                state,
                event,
                now,
                input_exists,
            ),
            _ => (state, LoopAction::OutOfTurn),
        },
        Phase::Rebuilding => match event {
            LoopEventView::RebuildFinished { outcome, now } => on_rebuild_finished(
                state,
                outcome,
                now,
            ),
            _ => (state, LoopAction::OutOfTurn),
        },
    }
}

/// The watch loop's state: the file it watches, the debouncer, and the phase
/// it is in.
#[derive(Debug)]
pub struct WatchLoop {
    input: TrackedInput,
    debouncer: Debouncer,
    publishes: bool,
    phase: Phase,
}

impl View for WatchLoop {
    type V = WatchLoopView;

    closed spec fn view(&self) -> WatchLoopView {
        WatchLoopView {
            input: self.input@,
            debouncer: self.debouncer,
            publishes: self.publishes,
            phase: self.phase,
        }
    }
}

impl WatchLoop {
    /// A loop for `input`, about to start. `interval` is the debounce interval
    /// in nanoseconds; `publishes` says whether there is a reload bus to
    /// announce rebuilds on.
    pub fn new(input: TrackedInput, interval: u64, publishes: bool) -> (state: WatchLoop)
        ensures
            state@ == (WatchLoopView {
                input: input@,
                debouncer: Debouncer { interval, last_attempt: None },
                publishes,
                phase: Phase::Starting,
            }),
    {
        WatchLoop { input, debouncer: Debouncer::new(interval), publishes, phase: Phase::Starting }
    }

    /// The file that is watched.
    pub fn input(&self) -> (input: &TrackedInput)
        ensures
            input@ == self@.input,
    {
        &self.input
    }

    /// Where the loop stands.
    pub fn phase(&self) -> (phase: Phase)
        ensures
            phase == self@.phase,
    {
        self.phase
    }

    /// The debouncer as it stands.
    pub fn debouncer(&self) -> (debouncer: Debouncer)
        ensures
            debouncer == self@.debouncer,
    {
        self.debouncer
    }

    /// Whether rebuilds are announced on the reload bus.
    pub fn publishes(&self) -> (publishes: bool)
        ensures
            publishes == self@.publishes,
    {
        self.publishes
    }

    /// Why the loop stopped, if it has.
    pub fn stopped(&self) -> (why: Option<Stop>)
        ensures
            why matches Some(stop) ==> self@.phase == Phase::Stopped(stop),
            why is None ==> !(self@.phase is Stopped),
    {
        match self.phase {
            Phase::Stopped(stop) => Some(stop),
            _ => None,
        }
    }

    /// Takes one event: moves the loop to its next state and says what to do.
    /// A watching loop starts a rebuild on every event that plainly qualifies.
    pub fn step(&mut self, event: &LoopEvent) -> (action: LoopAction)
        ensures
            (final(self)@, action) == step_of(old(self)@, event@),
            old(self)@.phase == Phase::Watching ==> (event@ matches LoopEventView::Notified {
                event: notified,
                now,
                input_exists,
            } ==> (plainly_qualifies(old(self)@, notified, now, input_exists) ==> action
                == LoopAction::StartRebuild)),
    {
        match self.phase {
            Phase::Stopped(why) => LoopAction::Halt(why),
            Phase::Starting => match event {
                LoopEvent::Subscribed => {
                    self.phase = Phase::Watching;
                    LoopAction::Wait
                },
                LoopEvent::SubscribeFailed => {
                    self.phase = Phase::Stopped(Stop::WatcherFailed);
                    LoopAction::Halt(Stop::WatcherFailed)
                },
                _ => LoopAction::OutOfTurn,
            },
            Phase::Watching => match event {
                LoopEvent::Interrupt => {
                    self.phase = Phase::Stopped(Stop::Interrupted);
                    LoopAction::Halt(Stop::Interrupted)
                },
                LoopEvent::SourceClosed => {
                    self.phase = Phase::Stopped(Stop::SourceClosed);
                    LoopAction::Halt(Stop::SourceClosed)
                },
                LoopEvent::WatcherError => LoopAction::ReportWatcherError,
                LoopEvent::Notified { event, now, input_exists } => {
                    if !relevant_event(event) || !event_targets_input(event, &self.input) {
                        LoopAction::Wait
                    } else if !self.debouncer.ready(*now) {
                        LoopAction::Wait
                    } else if !*input_exists {
                        LoopAction::ReportMissingInput
                    } else {
                        self.phase = Phase::Rebuilding;
                        LoopAction::StartRebuild
                    }
                },
                _ => LoopAction::OutOfTurn,
            },
            Phase::Rebuilding => match event {
                LoopEvent::RebuildFinished { outcome, now } => match outcome {
                    RebuildOutcome::Crashed => {
                        self.phase = Phase::Stopped(Stop::RenderCrashed);
                        LoopAction::Halt(Stop::RenderCrashed)
                    },
                    RebuildOutcome::Failed(status) => {
                        if *status == RENDERER_MISSING {
                            self.phase = Phase::Stopped(Stop::RendererMissing);
                            LoopAction::Halt(Stop::RendererMissing)
                        } else {
                            self.debouncer.record(*now);
                            self.phase = Phase::Watching;
                            LoopAction::RebuildFailed { status: *status }
                        }
                    },
                    RebuildOutcome::Succeeded => {
                        self.debouncer.record(*now);
                        self.phase = Phase::Watching;
                        LoopAction::Rebuilt { publish: self.publishes }
                    },
                },
                _ => LoopAction::OutOfTurn,
            },
        }
    }
}

/// Of two qualifying events less than one debounce interval apart, exactly one
/// starts a rebuild: the first does, and once that rebuild has ended in a way
/// the loop survives, the second is passed over, whatever it reports.
///
/// `first` is taken up at `t1` and its rebuild ends at `done`; `second` is
/// taken up at `t2`. The clock is monotonic, so `t1 <= done <= t2`.
pub proof fn lemma_one_rebuild_per_interval(
    state: WatchLoopView,
    first: WatchEventView,
    t1: u64,
    outcome: RebuildOutcome,
    done: u64,
    second: WatchEventView,
    t2: u64,
    input_exists: bool,
)
    requires
        state.phase == Phase::Watching,
        qualifies(state, first, t1, true),
        !outcome.is_fatal(),
        t1 <= done <= t2,
        t2 - t1 < state.debouncer.interval,
    ensures
        ({
            let (rebuilding, started) = step_of(
                state,
                LoopEventView::Notified { event: first, now: t1, input_exists: true },
            );
            let (watching, _finished) = step_of(
                rebuilding,
                LoopEventView::RebuildFinished { outcome, now: done },
            );
            let (after, passed_over) = step_of(
                watching,
                LoopEventView::Notified { event: second, now: t2, input_exists },
            );
            &&& started == LoopAction::StartRebuild
            &&& passed_over == LoopAction::Wait
            &&& after == watching
            &&& after.phase == Phase::Watching
        }),
{
}

/// A rebuild that ends with the status for a missing renderer stops the loop,
/// and the stopped loop reports that status.
pub proof fn lemma_missing_renderer_stops(state: WatchLoopView, now: u64)
    requires
        state.phase == Phase::Rebuilding,
    ensures
        ({
            let (next, action) = step_of(
                state,
                LoopEventView::RebuildFinished {
                    outcome: RebuildOutcome::Failed(RENDERER_MISSING),
                    now,
                },
            );
            &&& next.phase == Phase::Stopped(Stop::RendererMissing)
            &&& action == LoopAction::Halt(Stop::RendererMissing)
            &&& Stop::RendererMissing.status() == Err::<(), i32>(RENDERER_MISSING)
        }),
{
}

/// A rebuild that fails with any other status leaves the loop watching, and
/// counts as an attempt: the debounce interval runs from the moment it ended.
pub proof fn lemma_other_failure_is_survived(state: WatchLoopView, status: i32, now: u64)
    requires
        state.phase == Phase::Rebuilding,
        status != RENDERER_MISSING,
    ensures
        ({
            let (next, action) = step_of(
                state,
                LoopEventView::RebuildFinished { outcome: RebuildOutcome::Failed(status), now },
            );
            &&& next.phase == Phase::Watching
            &&& next.debouncer.last_attempt == Some(now)
            &&& next.debouncer.interval == state.debouncer.interval
            &&& action == LoopAction::RebuildFailed { status }
        }),
{
}

/// Rebuilds are strictly serialized. Only a loop that is watching starts one,
/// and starting one puts the loop in phase [`Phase::Rebuilding`], which only
/// the end of that rebuild leaves.
pub proof fn lemma_rebuilds_are_serialized(state: WatchLoopView, event: LoopEventView)
    ensures
        ({
            let (next, action) = step_of(state, event);
            &&& action == LoopAction::StartRebuild ==> state.phase == Phase::Watching
                && next.phase == Phase::Rebuilding
            &&& state.phase == Phase::Rebuilding && !(event is RebuildFinished) ==> next == state
                && action == LoopAction::OutOfTurn
        }),
{
}

/// One reload notice per successful rebuild, and no other: the loop asks for a
/// notice only as the rebuild in flight ends in success, and is back to
/// watching at once, whatever becomes of the notice.
pub proof fn lemma_notice_follows_success_only(state: WatchLoopView, event: LoopEventView)
    ensures
        ({
            let (next, action) = step_of(state, event);
            action is Rebuilt ==> ({
                &&& state.phase == Phase::Rebuilding
                &&& event matches LoopEventView::RebuildFinished { outcome, .. }
                &&& outcome == RebuildOutcome::Succeeded
                &&& action == (LoopAction::Rebuilt { publish: state.publishes })
                &&& next.phase == Phase::Watching
            })
        }),
{
}

/// A watched file that is missing when its event is taken up is no reason to
/// rebuild, and none to stop: the loop stays as it is.
pub proof fn lemma_missing_input_is_waited_for(state: WatchLoopView, event: WatchEventView, now: u64)
    requires
        state.phase == Phase::Watching,
    ensures
        ({
            let (next, action) = step_of(
                state,
                LoopEventView::Notified { event, now, input_exists: false },
            );
            &&& next == state
            &&& action == LoopAction::Wait || action == LoopAction::ReportMissingInput
        }),
{
}

/// An event that only reports access never starts a rebuild.
pub proof fn lemma_access_never_rebuilds(
    state: WatchLoopView,
    event: WatchEventView,
    now: u64,
    input_exists: bool,
)
    requires
        event.kind is Access,
    ensures
        step_of(state, LoopEventView::Notified { event, now, input_exists }).1
            != LoopAction::StartRebuild,
{
}

/// A stopped loop stays stopped, and answers every event with the reason.
pub proof fn lemma_stopped_is_final(state: WatchLoopView, why: Stop, event: LoopEventView)
    requires
        state.phase == Phase::Stopped(why),
    ensures
        step_of(state, event) == (state, LoopAction::Halt(why)),
{
}

/// The set of the file and of the interval is fixed for the life of the loop:
/// no step changes the watched file, the interval, or whether rebuilds are
/// announced.
pub proof fn lemma_configuration_is_fixed(state: WatchLoopView, event: LoopEventView)
    ensures
        ({
            let next = step_of(state, event).0;
            &&& next.input == state.input
            &&& next.debouncer.interval == state.debouncer.interval
            &&& next.publishes == state.publishes
        }),
{
}

/// The frequency of rebuilds is bounded: a rebuild that starts after an
/// attempt has completed starts at least one interval later, whether that
/// attempt succeeded or failed.
pub proof fn lemma_rebuilds_are_spaced(
    state: WatchLoopView,
    done: u64,
    event: WatchEventView,
    now: u64,
    input_exists: bool,
)
    requires
        state.debouncer.last_attempt == Some(done),
        done <= now,
        step_of(state, LoopEventView::Notified { event, now, input_exists }).1
            == LoopAction::StartRebuild,
    ensures
        now - done >= state.debouncer.interval,
{
}

} // verus!
