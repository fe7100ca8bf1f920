//! The decisions of the inverted main loop used where the platform owns the
//! main thread and never returns it.
//!
//! There the platform's event loop drives, and the application's main future
//! is polled once per loop turn. Each rendered frame awaits the next turn,
//! which paces the application to the display. What the loop does on each
//! callback is decided here; performing it (polling, exiting) is left to the
//! caller.

use vstd::prelude::*;

verus! {

/// What the loop does on one callback.
#[derive(Clone, Copy, Debug, PartialEq, Eq, Structural)]
pub enum LoopAction {
    /// Nothing: return to the platform.
    Wait,
    /// Poll the application future once.
    PollApp,
}

/// The state of the loop between callbacks.
#[derive(Clone, Copy, Debug, PartialEq, Eq, Structural)]
pub struct IosLoop {
    /// The application was resumed: the platform forbids UI work before the
    /// application is active, and `about_to_wait` fires earlier than that.
    pub started: bool,
    /// The application future has not completed yet.
    pub running: bool,
    /// The loop turn counter that paces awaiting frames.
    pub frame: u64,
}

/// The action for a callback in which the application may be polled.
pub open spec fn poll_if_running(state: IosLoop) -> LoopAction {
    if state.running {
        LoopAction::PollApp
    } else {
        LoopAction::Wait
    }
}

/// The state after the application is resumed.
pub open spec fn after_resumed(state: IosLoop) -> IosLoop {
    IosLoop { started: true, ..state }
}

/// The state after the loop is about to wait: a new turn once started.
pub open spec fn after_about_to_wait(state: IosLoop) -> IosLoop {
    if state.started {
        IosLoop { frame: (state.frame + 1) as u64, ..state }
    } else {
        state
    }
}

/// The action when the loop is about to wait: nothing before the
/// application started, else a poll while it runs.
pub open spec fn about_to_wait_action(state: IosLoop) -> LoopAction {
    if state.started {
        poll_if_running(state)
    } else {
        LoopAction::Wait
    }
}

/// A frame that yielded in turn `yielded_at` completes its await in any
/// later turn.
pub open spec fn spec_frame_has_passed(yielded_at: u64, now: u64) -> bool {
    now != yielded_at
}

impl IosLoop {
    /// A loop not yet started, its application future pending, at turn 0.
    pub fn new() -> (r: IosLoop)
        ensures
            r == (IosLoop { started: false, running: true, frame: 0 }),
    {
        IosLoop { started: false, running: true, frame: 0 }
    }

    /// The application became active: from now on the loop polls, and this
    /// callback polls at once while the future is pending.
    pub fn resumed(&mut self) -> (action: LoopAction)
        ensures
            *final(self) == after_resumed(*old(self)),
            action == poll_if_running(*old(self)),
            final(self).started,
            final(self).running == old(self).running,
            final(self).frame == old(self).frame,
            (action == LoopAction::PollApp) == old(self).running,
    {
        self.started = true;
        if self.running {
            LoopAction::PollApp
        } else {
            LoopAction::Wait
        }
    }

    /// The loop is about to wait: once started, a new turn begins, which
    /// releases the frames that yielded in the last one, and the future is
    /// polled while it is pending.
    pub fn about_to_wait(&mut self) -> (action: LoopAction)
        requires
            old(self).started ==> old(self).frame < u64::MAX,
        ensures
            *final(self) == after_about_to_wait(*old(self)),
            action == about_to_wait_action(*old(self)),
            final(self).started == old(self).started,
            final(self).running == old(self).running,
            final(self).frame == (if old(self).started {
                old(self).frame + 1
            } else {
                old(self).frame as int
            }),
            (action == LoopAction::PollApp) == (old(self).started && old(self).running),
    {
        if !self.started {
            return LoopAction::Wait;
        }
        self.frame = self.frame + 1;
        if self.running {
            LoopAction::PollApp
        } else {
            LoopAction::Wait
        }
    }

    /// The poll the last action asked for has returned, `done` if the future
    /// completed. Returns whether the loop should be asked to exit: exactly
    /// when the future completed, which also ends polling for good.
    pub fn poll_finished(&mut self, done: bool) -> (exit: bool)
        requires
            old(self).running,
        ensures
            exit == done,
            *final(self) == (IosLoop { running: !done, ..*old(self) }),
            final(self).running == !done,
            final(self).started == old(self).started,
            final(self).frame == old(self).frame,
    {
        if done {
            self.running = false;
        }
        done
    }
}

/// Whether a frame that yielded in turn `yielded_at` may complete now, in
/// turn `now`.
pub fn frame_has_passed(yielded_at: u64, now: u64) -> (r: bool)
    ensures
        r == spec_frame_has_passed(yielded_at, now),
        r == (now != yielded_at),
{
    now != yielded_at
}

/// A callback of the platform's event loop.
#[derive(Clone, Copy, Debug, PartialEq, Eq, Structural)]
pub enum Callback {
    /// The application became active.
    Resumed,
    /// The loop is about to wait for events: the end of a turn.
    AboutToWait,
}

/// The state after one callback, and the action taken in it.
pub open spec fn step(state: IosLoop, callback: Callback) -> (IosLoop, LoopAction) {
    match callback {
        Callback::Resumed => (after_resumed(state), poll_if_running(state)),
        Callback::AboutToWait => (after_about_to_wait(state), about_to_wait_action(state)),
    }
}

/// The state after a run of callbacks in which every poll of the
/// application future returns pending.
pub open spec fn run_pending(state: IosLoop, callbacks: Seq<Callback>) -> IosLoop
    decreases callbacks.len(),
{
    if callbacks.len() == 0 {
        state
    } else {
        run_pending(step(state, callbacks[0]).0, callbacks.drop_first())
    }
}

/// How many times the application future is polled in such a run.
pub open spec fn polls_pending(state: IosLoop, callbacks: Seq<Callback>) -> nat
    decreases callbacks.len(),
{
    if callbacks.len() == 0 {
        0
    } else {
        (if step(state, callbacks[0]).1 == LoopAction::PollApp {
            1nat
        } else {
            0nat
        }) + polls_pending(step(state, callbacks[0]).0, callbacks.drop_first())
    }
}

/// How many turns end in a run of callbacks.
pub open spec fn turns(callbacks: Seq<Callback>) -> nat
    decreases callbacks.len(),
{
    if callbacks.len() == 0 {
        0
    } else {
        (if callbacks[0] == Callback::AboutToWait {
            1nat
        } else {
            0nat
        }) + turns(callbacks.drop_first())
    }
}

/// However many turns end before the application is first resumed, the
/// future is not polled in them and the loop stands where it was.
pub proof fn no_poll_before_the_first_resume(state: IosLoop, callbacks: Seq<Callback>)
    requires
        !state.started,
        forall|i: int| 0 <= i < callbacks.len() ==> #[trigger] callbacks[i] == Callback::AboutToWait,
    ensures
        polls_pending(state, callbacks) == 0,
        run_pending(state, callbacks) == state,
    decreases callbacks.len(),
{
    if callbacks.len() > 0 {
        let rest = callbacks.drop_first();
        assert forall|i: int| 0 <= i < rest.len() implies #[trigger] rest[i] == Callback::AboutToWait by {
            assert(rest[i] == callbacks[i + 1]);
        }
        assert(callbacks[0] == Callback::AboutToWait);
        no_poll_before_the_first_resume(state, rest);
    }
}

/// Once the application future has completed, no run of callbacks polls it.
pub proof fn no_poll_after_completion(state: IosLoop, callbacks: Seq<Callback>)
    requires
        !state.running,
    ensures
        polls_pending(state, callbacks) == 0,
        !run_pending(state, callbacks).running,
    decreases callbacks.len(),
{
    if callbacks.len() > 0 {
        no_poll_after_completion(step(state, callbacks[0]).0, callbacks.drop_first());
    }
}

/// Once resumed, while the future is pending, every callback polls it
/// exactly once and every turn advances the frame by one.
pub proof fn one_poll_per_callback_once_started(state: IosLoop, callbacks: Seq<Callback>)
    requires
        state.started,
        state.running,
        state.frame + callbacks.len() <= u64::MAX,
    ensures
        polls_pending(state, callbacks) == callbacks.len(),
        run_pending(state, callbacks).frame == state.frame + turns(callbacks),
        run_pending(state, callbacks).started,
        run_pending(state, callbacks).running,
    decreases callbacks.len(),
{
    if callbacks.len() > 0 {
        let next = step(state, callbacks[0]).0;
        assert(next.frame <= state.frame + 1);
        one_poll_per_callback_once_started(next, callbacks.drop_first());
    }
}

/// Before the application is resumed nothing is polled, however often the
/// loop is about to wait, and the turn counter stands still.
pub proof fn nothing_runs_before_resume(state: IosLoop)
    requires
        !state.started,
    ensures
        about_to_wait_action(state) == LoopAction::Wait,
        after_about_to_wait(state) == state,
{
}

/// A completed application future is never polled again: no callback
/// asks for a poll, and none brings the future back.
pub proof fn completed_future_is_never_polled(state: IosLoop)
    requires
        !state.running,
    ensures
        poll_if_running(state) == LoopAction::Wait,
        about_to_wait_action(state) == LoopAction::Wait,
        !after_resumed(state).running,
        !after_about_to_wait(state).running,
{
}

/// A frame is pending for the rest of the turn in which it yielded, and
/// completes in the next: one awaited frame per loop turn.
pub proof fn a_frame_waits_exactly_one_turn(state: IosLoop)
    requires
        state.started,
        state.frame < u64::MAX,
    ensures
        !spec_frame_has_passed(state.frame, state.frame),
        spec_frame_has_passed(state.frame, after_about_to_wait(state).frame),
{
}

} // verus!
