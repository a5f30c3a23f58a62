//! Trusted declarations and wrappers for the outside primitives the
//! scheduler is built on: crossbeam's channels (the zero-capacity control
//! channel, the periodic ticker and the completion channel) and its
//! targeted thread parker.
//!
//! Every contract here is believed, not proved; each wrapper states only
//! what the crossbeam sources show of every possible outcome, since whether
//! a hand-off succeeds, times out or finds the peer gone depends on what the
//! other threads are doing at that moment.

use vstd::prelude::*;
use crate::state::{ControlMessage, Event};

verus! {

/// Declares crossbeam_channel::Sender so it can stand in fields and
/// signatures; its values stay opaque.
#[verifier::external_type_specification]
#[verifier::external_body]
#[verifier::reject_recursive_types(T)]
pub struct ExSender<T>(crossbeam_channel::Sender<T>);

/// Declares crossbeam_channel::Receiver; its values stay opaque.
#[verifier::external_type_specification]
#[verifier::external_body]
#[verifier::reject_recursive_types(T)]
pub struct ExReceiver<T>(crossbeam_channel::Receiver<T>);

/// Declares std::time::Instant, which the ticker channel carries; its
/// values stay opaque.
#[verifier::external_type_specification]
#[verifier::external_body]
pub struct ExInstant(std::time::Instant);

/// Declares crossbeam_utils::sync::Parker; its values stay opaque.
#[verifier::external_type_specification]
#[verifier::external_body]
pub struct ExParker(crossbeam_utils::sync::Parker);

/// Declares crossbeam_utils::sync::Unparker; its values stay opaque.
#[verifier::external_type_specification]
#[verifier::external_body]
pub struct ExUnparker(crossbeam_utils::sync::Unparker);

/// Every way a blocking hand-off on the control channel can end.
#[derive(Clone, Copy, Debug, PartialEq, Eq, Structural)]
pub enum SendOutcome {
    /// A receiver paired up and took the message.
    Delivered,
    /// The receiving end is gone; the message can never be delivered.
    Closed,
}

/// Every way a non-blocking hand-off on the control channel can end.
#[derive(Clone, Copy, Debug, PartialEq, Eq, Structural)]
pub enum TrySendOutcome {
    /// A receiver was waiting and took the message.
    Delivered,
    /// No receiver was ready at this instant; the attempt may be retried.
    Full,
    /// The receiving end is gone; retrying can never help.
    Closed,
}

/// Every way a bounded-wait hand-off on the control channel can end.
#[derive(Clone, Copy, Debug, PartialEq, Eq, Structural)]
pub enum TimedSendOutcome {
    /// A receiver paired up within the allowed wait.
    Delivered,
    /// No receiver paired up within the allowed wait.
    TimedOut,
    /// The receiving end is gone.
    Closed,
}

/// Every way a bounded wait on the completion channel can end.
#[derive(Clone, Copy, Debug, PartialEq, Eq, Structural)]
pub enum DoneSignal {
    /// A message arrived (the completion channel never carries one in this
    /// design, but the outcome is kept total).
    Received,
    /// The sending end was dropped: the scheduler loop has returned.
    Closed,
    /// Nothing happened within the allowed wait.
    TimedOut,
}

/// Relies on crossbeam_channel::bounded with capacity zero: a rendezvous
/// channel whose sends complete only when a receive is simultaneously ready.
#[verifier::external_body]
pub(crate) fn rendezvous_channel<T>() -> (crossbeam_channel::Sender<T>, crossbeam_channel::Receiver<T>) {
    crossbeam_channel::bounded(0)
}

/// Relies on crossbeam_channel::tick: a channel that receives a tick every
/// `period_nanos` nanoseconds, holding at most one pending tick.
#[verifier::external_body]
pub(crate) fn ticker(period_nanos: u64) -> crossbeam_channel::Receiver<std::time::Instant> {
    crossbeam_channel::tick(core::time::Duration::from_nanos(period_nanos))
}

/// Relies on crossbeam_channel::Sender::send: on a zero-capacity channel it
/// blocks until a receiver pairs up, and returns an error exactly when the
/// channel is disconnected.
#[verifier::external_body]
pub(crate) fn channel_send(sender: &crossbeam_channel::Sender<ControlMessage>, message: ControlMessage) -> SendOutcome {
    match sender.send(message) {
        Ok(()) => SendOutcome::Delivered,
        Err(_) => SendOutcome::Closed,
    }
}

/// Relies on crossbeam_channel::Sender::try_send: it never blocks, and on a
/// zero-capacity channel succeeds exactly when a receiver is waiting at this
/// instant, reporting a full channel or a disconnected one otherwise.
#[verifier::external_body]
pub(crate) fn channel_try_send(sender: &crossbeam_channel::Sender<ControlMessage>, message: ControlMessage) -> TrySendOutcome {
    match sender.try_send(message) {
        Ok(()) => TrySendOutcome::Delivered,
        Err(crossbeam_channel::TrySendError::Full(_)) => TrySendOutcome::Full,
        Err(crossbeam_channel::TrySendError::Disconnected(_)) => TrySendOutcome::Closed,
    }
}

/// Relies on crossbeam_channel::Sender::send_timeout: it blocks for at most
/// `timeout_nanos` nanoseconds waiting for a receiver to pair up.
#[verifier::external_body]
pub(crate) fn channel_send_timeout(
    sender: &crossbeam_channel::Sender<ControlMessage>,
    message: ControlMessage,
    timeout_nanos: u64,
) -> TimedSendOutcome {
    match sender.send_timeout(message, core::time::Duration::from_nanos(timeout_nanos)) {
        Ok(()) => TimedSendOutcome::Delivered,
        Err(crossbeam_channel::SendTimeoutError::Timeout(_)) => TimedSendOutcome::TimedOut,
        Err(crossbeam_channel::SendTimeoutError::Disconnected(_)) => TimedSendOutcome::Closed,
    }
}

/// Relies on crossbeam_channel::Receiver::recv: it blocks until a message
/// arrives or every sender is gone, so the result is always a control
/// message or the end of the channel — never a tick.
#[verifier::external_body]
pub(crate) fn wait_control(control: &crossbeam_channel::Receiver<ControlMessage>) -> (r: Event)
    ensures
        r matches Event::Control(_) || r == Event::ChannelDown,
{
    match control.recv() {
        Ok(message) => Event::Control(message),
        Err(_) => Event::ChannelDown,
    }
}

/// Relies on crossbeam_channel::Select over the control channel and the
/// ticker: it blocks until either source is ready and reports whichever
/// fired; when both are ready at once, which one wins is unspecified.
#[verifier::external_body]
pub(crate) fn wait_control_or_tick(
    control: &crossbeam_channel::Receiver<ControlMessage>,
    ticks: &crossbeam_channel::Receiver<std::time::Instant>,
) -> Event {
    let mut sel = crossbeam_channel::Select::new();
    let control_index = sel.recv(control);
    let _ticks_index = sel.recv(ticks);
    let oper = sel.select();
    if oper.index() == control_index {
        match oper.recv(control) {
            Ok(message) => Event::Control(message),
            Err(_) => Event::ChannelDown,
        }
    } else {
        match oper.recv(ticks) {
            Ok(_) => Event::Tick,
            Err(_) => Event::TickerDown,
        }
    }
}

/// Relies on crossbeam_channel::Receiver::recv_timeout: it blocks for at
/// most `timeout_nanos` nanoseconds, reporting a message, a disconnected
/// channel, or the elapse of the wait.
#[verifier::external_body]
pub(crate) fn recv_done_timeout(done: &crossbeam_channel::Receiver<()>, timeout_nanos: u64) -> DoneSignal {
    match done.recv_timeout(core::time::Duration::from_nanos(timeout_nanos)) {
        Ok(()) => DoneSignal::Received,
        Err(crossbeam_channel::RecvTimeoutError::Timeout) => DoneSignal::TimedOut,
        Err(crossbeam_channel::RecvTimeoutError::Disconnected) => DoneSignal::Closed,
    }
}

/// Relies on crossbeam_utils::sync::Parker::new: a fresh parker whose token
/// is not set.
#[verifier::external_body]
pub(crate) fn parker_new() -> crossbeam_utils::sync::Parker {
    crossbeam_utils::sync::Parker::new()
}

/// Relies on crossbeam_utils::sync::Parker::unparker (and the unparker's
/// Clone): an owned handle that wakes exactly this parker.
#[verifier::external_body]
pub(crate) fn unparker_of(parker: &crossbeam_utils::sync::Parker) -> crossbeam_utils::sync::Unparker {
    parker.unparker().clone()
}

/// Relies on crossbeam_utils::sync::Parker::park: it blocks the calling
/// thread until the parker's token is set (by a past or future unpark) and
/// consumes the token.
#[verifier::external_body]
pub(crate) fn park(parker: &crossbeam_utils::sync::Parker) {
    parker.park();
}

/// Relies on crossbeam_utils::sync::Unparker::unpark: it sets the token and
/// wakes the parked thread if there is one; it never blocks, and it has no
/// effect beyond the token when no thread is parked.
#[verifier::external_body]
pub(crate) fn unpark(unparker: &crossbeam_utils::sync::Unparker) {
    unparker.unpark();
}

/// Relies on std::hint::spin_loop: a best-effort hint that the current
/// thread should give the processor a moment before its one retry.
#[verifier::external_body]
pub(crate) fn cpu_relax() {
    std::hint::spin_loop();
}

} // verus!
