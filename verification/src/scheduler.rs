//! The public control surface (`Interrupter`) and the scheduler task whose
//! iterations (`SchedulerTask::run_step`) the dedicated background thread
//! runs until one of them asks to exit.
//!
//! The two halves are produced together by [`interrupter`] /
//! [`Interrupter::new`]; the embedding program hands the task to a thread of
//! its own (named for operational visibility) and keeps the handle.

use vstd::prelude::*;
use crate::channel::{
    channel_send, channel_try_send, channel_send_timeout, cpu_relax, park, parker_new,
    recv_done_timeout, rendezvous_channel, ticker, unpark, unparker_of, wait_control,
    wait_control_or_tick, DoneSignal, SendOutcome, TimedSendOutcome, TrySendOutcome,
};
use crate::signals::SignalPointers;
use crate::state::{lemma_inactive_stays_quiet, notify_count, run_mode, spec_step, step, Action, ControlMessage, Event, Mode};

verus! {

/// How long `shutdown` waits for the Shutdown hand-off to be accepted, in
/// nanoseconds.
pub const SHUTDOWN_HANDOFF_NANOS: u64 = 2_000_000_000;

/// How long `shutdown` then waits for the scheduler thread to finish, in
/// nanoseconds.
pub const SHUTDOWN_JOIN_NANOS: u64 = 2_000_000_000;

/// Why a handle operation failed.
#[derive(Clone, Copy, Debug, PartialEq, Eq, Structural)]
pub enum InterrupterError {
    /// The scheduler thread has already terminated, so the message for the
    /// named operation could not be delivered at all. Not retried here: no
    /// amount of retrying will help.
    Disconnected { operation: ControlMessage },
    /// Only possible for `try_pause`: the channel's hand-off slot was still
    /// busy after the one internal retry. Transient; the caller may try
    /// again.
    TransientBusy { operation: ControlMessage },
    /// The Shutdown hand-off was not accepted within the bounded wait.
    HandoffTimeout,
    /// The Shutdown hand-off was accepted but the scheduler thread did not
    /// finish within the bounded wait; the join is abandoned and the
    /// thread's true state is left ambiguous.
    JoinTimeout,
}

/// Turns the outcome of a blocking hand-off into the result of the
/// operation that requested it: delivery succeeds, a closed channel is the
/// operation's `Disconnected` error.
fn send_result(outcome: SendOutcome, operation: ControlMessage) -> (r: Result<
    (),
    InterrupterError,
>)
    ensures
        outcome == SendOutcome::Delivered <==> r == Ok::<(), InterrupterError>(()),
        outcome == SendOutcome::Closed <==> r == Err::<(), InterrupterError>(
            (InterrupterError::Disconnected { operation }),
        ),
{
    match outcome {
        SendOutcome::Delivered => Ok(()),
        SendOutcome::Closed => Err(InterrupterError::Disconnected { operation }),
    }
}

/// Turns the outcome of the single pause retry into `try_pause`'s result: a
/// still-busy slot is the transient error, a closed channel the hard one.
fn retry_pause_result(outcome: TrySendOutcome) -> (r: Result<(), InterrupterError>)
    ensures
        outcome == TrySendOutcome::Delivered <==> r == Ok::<(), InterrupterError>(()),
        outcome == TrySendOutcome::Full <==> r == Err::<(), InterrupterError>(
            (InterrupterError::TransientBusy { operation: ControlMessage::Pause }),
        ),
        outcome == TrySendOutcome::Closed <==> r == Err::<(), InterrupterError>(
            (InterrupterError::Disconnected { operation: ControlMessage::Pause }),
        ),
{
    match outcome {
        TrySendOutcome::Delivered => Ok(()),
        TrySendOutcome::Full => Err(
            InterrupterError::TransientBusy { operation: ControlMessage::Pause },
        ),
        TrySendOutcome::Closed => Err(
            InterrupterError::Disconnected { operation: ControlMessage::Pause },
        ),
    }
}

/// Turns the outcome of the bounded wait for the scheduler thread into
/// `shutdown`'s second-phase result: a closed completion channel means the
/// loop has returned, an elapsed wait is the join-timeout error.
fn join_result(signal: DoneSignal) -> (r: Result<(), InterrupterError>)
    ensures
        signal == DoneSignal::TimedOut <==> r == Err::<(), InterrupterError>(
            InterrupterError::JoinTimeout,
        ),
        signal != DoneSignal::TimedOut <==> r == Ok::<(), InterrupterError>(()),
{
    match signal {
        DoneSignal::Received => Ok(()),
        DoneSignal::Closed => Ok(()),
        DoneSignal::TimedOut => Err(InterrupterError::JoinTimeout),
    }
}

/// The handle returned to callers: the sending end of the control channel,
/// a waker aimed at the scheduler thread's parker, and — until a shutdown
/// hand-off succeeds — the receiving end of the completion channel, which
/// stands in for the thread's join handle.
pub struct Interrupter {
    control: crossbeam_channel::Sender<ControlMessage>,
    waker: crossbeam_utils::sync::Unparker,
    completion: Option<crossbeam_channel::Receiver<()>>,
}

/// Everything the dedicated scheduler thread needs: the receiving end of
/// the control channel, the ticker, the parker the thread parks on, the
/// sending end of the completion channel (dropped when the task is, which
/// is how the handle observes termination), the signal pointers to notify,
/// the loop's current mode, and a ghost log of the events processed so
/// far. The embedding program drives it by calling [`SchedulerTask::run_step`]
/// until it returns false, then dropping the task.
pub struct SchedulerTask {
    control: crossbeam_channel::Receiver<ControlMessage>,
    ticks: crossbeam_channel::Receiver<std::time::Instant>,
    parker: crossbeam_utils::sync::Parker,
    completion: crossbeam_channel::Sender<()>,
    signal_pointers: SignalPointers,
    mode: Mode,
    history: Ghost<Seq<Event>>,
}

/// Builds a scheduler over the caller-supplied signal pointers and tick
/// period, returning the handle and the task for the thread the embedding
/// program spawns.
pub fn interrupter(signal_pointers: SignalPointers, wall_time_period_nanoseconds: u64) -> (r: (
    Interrupter,
    SchedulerTask,
))
    ensures
        r.0.joinable(),
        r.1.wf(),
        r.1.current_mode() == Mode::Inactive,
        r.1.trace() == Seq::<Event>::empty(),
{
    Interrupter::new(signal_pointers, wall_time_period_nanoseconds)
}

impl Interrupter {
    /// Whether the completion slot is still held: true until a shutdown
    /// hand-off succeeds, after which the slot is empty and a further
    /// `shutdown` is treated as already shut down.
    pub closed spec fn joinable(&self) -> bool {
        self.completion is Some
    }

    /// Builds the handle together with the scheduler task. The control
    /// channel has capacity zero, so every `start`/`stop`/`shutdown`
    /// hand-off synchronizes with the loop's current iteration.
    pub fn new(signal_pointers: SignalPointers, wall_time_period_nanoseconds: u64) -> (r: (
        Interrupter,
        SchedulerTask,
    ))
        ensures
            r.0.joinable(),
            r.1.wf(),
            r.1.current_mode() == Mode::Inactive,
            r.1.trace() == Seq::<Event>::empty(),
    {
        let (control_tx, control_rx) = rendezvous_channel();
        let (completion_tx, completion_rx) = rendezvous_channel();
        let parker = parker_new();
        let waker = unparker_of(&parker);
        let handle = Interrupter {
            control: control_tx,
            waker,
            completion: Some(completion_rx),
        };
        let task = SchedulerTask {
            control: control_rx,
            ticks: ticker(wall_time_period_nanoseconds),
            parker,
            completion: completion_tx,
            signal_pointers,
            mode: Mode::Inactive,
            history: Ghost(Seq::empty()),
        };
        assert(run_mode(Mode::Inactive, Seq::<Event>::empty()) == Mode::Inactive);
        (handle, task)
    }

    /// Requests Active mode. Blocks until the scheduler loop accepts the
    /// hand-off; on success the loop's mode is Active. Fails exactly when
    /// the loop has already terminated, and is then safe to retry: the
    /// transition is an assignment, not a toggle.
    pub fn start(&self) -> (r: Result<(), InterrupterError>)
        ensures
            r matches Err(e) ==> e == (InterrupterError::Disconnected {
                operation: ControlMessage::Start,
            }),
    {
        send_result(channel_send(&self.control, ControlMessage::Start), ControlMessage::Start)
    }

    /// Requests Inactive mode, with the same hand-off contract as `start`;
    /// a no-op from the consumer's perspective if already inactive.
    pub fn stop(&self) -> (r: Result<(), InterrupterError>)
        ensures
            r matches Err(e) ==> e == (InterrupterError::Disconnected {
                operation: ControlMessage::Stop,
            }),
    {
        send_result(channel_send(&self.control, ControlMessage::Stop), ControlMessage::Stop)
    }

    /// A non-blocking request to park the scheduler thread. The first
    /// attempt that finds the hand-off slot busy earns exactly one retry,
    /// after yielding the processor a moment; a disconnected channel is a
    /// hard error at once, since time samples have already stopped. Never
    /// blocks, so it is safe from latency-sensitive contexts.
    pub fn try_pause(&self) -> (r: Result<(), InterrupterError>)
        ensures
            r matches Err(e) ==> (e == (InterrupterError::Disconnected {
                operation: ControlMessage::Pause,
            }) || e == (InterrupterError::TransientBusy { operation: ControlMessage::Pause })),
    {
        match channel_try_send(&self.control, ControlMessage::Pause) {
            TrySendOutcome::Delivered => Ok(()),
            TrySendOutcome::Closed => Err(
                InterrupterError::Disconnected { operation: ControlMessage::Pause },
            ),
            TrySendOutcome::Full => {
                cpu_relax();
                retry_pause_result(channel_try_send(&self.control, ControlMessage::Pause))
            },
        }
    }

    /// Resumes a paused scheduler thread by waking it directly — an
    /// independent control path that consumes no channel capacity and works
    /// even while the loop is parked. Non-blocking; no effect (and no
    /// error) if the thread was not parked. After a successful shutdown
    /// there is no thread left to wake, so nothing is done.
    pub fn unpause(&self) {
        if self.completion.is_some() {
            unpark(&self.waker);
        }
    }

    /// Requests termination: waits up to [`SHUTDOWN_HANDOFF_NANOS`] for the
    /// Shutdown hand-off, and on success up to [`SHUTDOWN_JOIN_NANOS`] for
    /// the scheduler thread to finish. A join that does not complete in
    /// time is abandoned — the thread may keep running detached — and
    /// reported as an error, so success is best-effort, not a guarantee.
    /// Once a hand-off has succeeded the completion slot is empty and every
    /// further call succeeds immediately as already shut down.
    pub fn shutdown(&mut self) -> (r: Result<(), InterrupterError>)
        ensures
            !old(self).joinable() ==> r == Ok::<(), InterrupterError>(()),
            r is Ok ==> !final(self).joinable(),
            r == Err::<(), InterrupterError>(InterrupterError::JoinTimeout) ==> !final(self).joinable(),
            r matches Err(e) ==> (e == (InterrupterError::Disconnected {
                operation: ControlMessage::Shutdown,
            }) || e == InterrupterError::HandoffTimeout || e == InterrupterError::JoinTimeout),
            r matches Err(e) && e != InterrupterError::JoinTimeout ==> final(self).joinable()
                == old(self).joinable(),
    {
        if self.completion.is_none() {
            return Ok(());
        }
        match channel_send_timeout(
            &self.control,
            ControlMessage::Shutdown,
            SHUTDOWN_HANDOFF_NANOS,
        ) {
            TimedSendOutcome::Delivered => {
                match self.completion.take() {
                    Some(completion) => join_result(
                        recv_done_timeout(&completion, SHUTDOWN_JOIN_NANOS),
                    ),
                    None => Ok(()),
                }
            },
            TimedSendOutcome::TimedOut => Err(InterrupterError::HandoffTimeout),
            TimedSendOutcome::Closed => Err(
                InterrupterError::Disconnected { operation: ControlMessage::Shutdown },
            ),
        }
    }
}

impl SchedulerTask {
    /// The mode the loop is in before its next iteration.
    pub closed spec fn current_mode(&self) -> Mode {
        self.mode
    }

    /// The ghost log of every event the loop has processed so far.
    pub closed spec fn trace(&self) -> Seq<Event> {
        self.history@
    }

    /// The task's invariant: its mode is exactly what running the state
    /// machine from Inactive over the processed events yields.
    pub closed spec fn wf(&self) -> bool {
        self.mode == run_mode(Mode::Inactive, self.history@)
    }

    /// One iteration of the scheduler loop, run on the dedicated thread:
    /// wait for the next event — on the control channel and the ticker
    /// while Active, on the control channel alone while Inactive (the
    /// ticker is not polled, which is what prevents wasted wake-ups) —
    /// step the state machine, and carry out the action it dictates:
    /// nothing, the notify step, or parking until woken. Returns false
    /// exactly when the loop must exit: on Shutdown, on a closed control
    /// channel, or on a failed ticker, all treated alike as a request to
    /// terminate. The driver then drops the task, which closes the
    /// completion channel.
    pub fn run_step(&mut self) -> (r: bool)
        requires
            old(self).wf(),
        ensures
            final(self).wf(),
            exists|e: Event|
                {
                    &&& final(self).trace() == old(self).trace().push(e)
                    &&& final(self).current_mode() == (#[trigger] spec_step(
                        old(self).current_mode(),
                        e,
                    )).0
                    &&& (r <==> spec_step(old(self).current_mode(), e).1 != Action::Exit)
                    &&& (old(self).current_mode() == Mode::Inactive ==> e != Event::Tick)
                },
    {
        let event = match self.mode {
            Mode::Active => wait_control_or_tick(&self.control, &self.ticks),
            Mode::Inactive => wait_control(&self.control),
        };
        let (next_mode, action) = step(self.mode, event);
        proof {
            crate::state::lemma_run_mode_push(Mode::Inactive, self.history@, event);
        }
        let keep_running = match action {
            Action::Continue => true,
            Action::Notify => {
                // Only an accepted tick in Active mode reaches here.
                assert(self.mode == Mode::Active && event == Event::Tick);
                self.signal_pointers.notify();
                true
            },
            Action::Park => {
                // Pausing parks the thread; the mode is untouched, so on
                // wake the loop resumes exactly as before.
                assert(next_mode == self.mode);
                park(&self.parker);
                true
            },
            Action::Exit => false,
        };
        self.history = Ghost(self.history@.push(event));
        self.mode = next_mode;
        proof {
            assert(self.history@ == old(self).history@.push(event));
            assert(self.mode == spec_step(old(self).mode, event).0);
        }
        keep_running
    }
}

/// A scheduler task whose processed events include no Start hand-off is
/// still inactive and has never performed a notify step: a freshly
/// created, never-started scheduler leaves the sample counter untouched,
/// however long it waits.
pub proof fn lemma_never_started_task_is_quiet(task: &SchedulerTask)
    requires
        task.wf(),
        forall|i: int| 0 <= i < task.trace().len() ==> task.trace()[i] != Event::Control(
            ControlMessage::Start,
        ),
    ensures
        task.current_mode() == Mode::Inactive,
        notify_count(Mode::Inactive, task.trace()) == 0,
{
    lemma_inactive_stays_quiet(task.trace());
}

} // verus!
