//! The scheduler's state machine: modes, control messages, events and the
//! transition function, together with a trace model of the notify behaviour.

use vstd::prelude::*;

verus! {

/// A control message sent from a `Interrupter` handle to the scheduler loop
/// over the zero-capacity control channel.
#[derive(Clone, Copy, Debug, PartialEq, Eq, Structural)]
pub enum ControlMessage {
    Start,
    Stop,
    Pause,
    Shutdown,
}

/// The scheduler loop's mode. It begins `Inactive`; ticks are accepted and
/// notified only while `Active`.
#[derive(Clone, Copy, Debug, PartialEq, Eq, Structural)]
pub enum Mode {
    Inactive,
    Active,
}

/// One event observed by the scheduler loop in a single iteration: a control
/// message, a tick from the periodic ticker, or the loss of either source.
#[derive(Clone, Copy, Debug, PartialEq, Eq, Structural)]
pub enum Event {
    Control(ControlMessage),
    Tick,
    ChannelDown,
    TickerDown,
}

/// What the loop must do after processing an event, besides adopting the
/// next mode: nothing, perform the notify step, park the thread until it is
/// woken, or exit.
#[derive(Clone, Copy, Debug, PartialEq, Eq, Structural)]
pub enum Action {
    Continue,
    Notify,
    Park,
    Exit,
}

/// The transition relation of the scheduler loop, as a mathematical function
/// from the current mode and the observed event to the next mode and the
/// required action.
///
/// - `Start` makes the mode `Active`, `Stop` makes it `Inactive`; both are
///   plain assignments, so re-sending either is idempotent.
/// - `Pause` keeps the mode and parks the thread; pausing is an action, not
///   a persisted mode.
/// - `Shutdown`, a closed control channel, or a failed ticker all end the
///   loop.
/// - A tick is notified only while `Active`; an `Inactive` scheduler never
///   notifies, so there is no catch-up behaviour for ticks that elapsed
///   while inactive.
pub open spec fn spec_step(mode: Mode, event: Event) -> (Mode, Action) {
    match event {
        Event::Control(ControlMessage::Start) => (Mode::Active, Action::Continue),
        Event::Control(ControlMessage::Stop) => (Mode::Inactive, Action::Continue),
        Event::Control(ControlMessage::Pause) => (mode, Action::Park),
        Event::Control(ControlMessage::Shutdown) => (mode, Action::Exit),
        Event::Tick => match mode {
            Mode::Active => (Mode::Active, Action::Notify),
            Mode::Inactive => (Mode::Inactive, Action::Continue),
        },
        Event::ChannelDown => (mode, Action::Exit),
        Event::TickerDown => (mode, Action::Exit),
    }
}

/// Executable form of the transition function; it returns exactly
/// [`spec_step`] of its arguments.
pub fn step(mode: Mode, event: Event) -> (r: (Mode, Action))
    ensures
        r == spec_step(mode, event),
{
    match event {
        Event::Control(ControlMessage::Start) => (Mode::Active, Action::Continue),
        Event::Control(ControlMessage::Stop) => (Mode::Inactive, Action::Continue),
        Event::Control(ControlMessage::Pause) => (mode, Action::Park),
        Event::Control(ControlMessage::Shutdown) => (mode, Action::Exit),
        Event::Tick => match mode {
            Mode::Active => (Mode::Active, Action::Notify),
            Mode::Inactive => (Mode::Inactive, Action::Continue),
        },
        Event::ChannelDown => (mode, Action::Exit),
        Event::TickerDown => (mode, Action::Exit),
    }
}

/// The mode after the scheduler processes a whole sequence of events,
/// starting from `mode`.
pub open spec fn run_mode(mode: Mode, events: Seq<Event>) -> Mode
    decreases events.len(),
{
    if events.len() == 0 {
        mode
    } else {
        run_mode(spec_step(mode, events.first()).0, events.drop_first())
    }
}

/// How many notify steps the scheduler performs while processing a whole
/// sequence of events, starting from `mode`.
pub open spec fn notify_count(mode: Mode, events: Seq<Event>) -> nat
    decreases events.len(),
{
    if events.len() == 0 {
        0
    } else {
        (if spec_step(mode, events.first()).1 == Action::Notify {
            1nat
        } else {
            0nat
        }) + notify_count(spec_step(mode, events.first()).0, events.drop_first())
    }
}

/// Processing one more event at the end of a run steps the run's final mode
/// once.
pub proof fn lemma_run_mode_push(mode: Mode, events: Seq<Event>, event: Event)
    ensures
        run_mode(mode, events.push(event)) == spec_step(run_mode(mode, events), event).0,
    decreases events.len(),
{
    let extended = events.push(event);
    if events.len() == 0 {
        assert(extended.first() == event);
        assert(extended.drop_first() =~= Seq::<Event>::empty());
        assert(run_mode(mode, extended) == run_mode(
            spec_step(mode, event).0,
            Seq::<Event>::empty(),
        ));
        assert(run_mode(spec_step(mode, event).0, Seq::<Event>::empty()) == spec_step(
            mode,
            event,
        ).0);
        assert(run_mode(mode, events) == mode);
    } else {
        let stepped = spec_step(mode, events.first()).0;
        assert(extended.first() == events.first());
        assert(extended.drop_first() =~= events.drop_first().push(event));
        assert(run_mode(mode, extended) == run_mode(stepped, events.drop_first().push(event)));
        lemma_run_mode_push(stepped, events.drop_first(), event);
        assert(run_mode(mode, events) == run_mode(stepped, events.drop_first()));
    }
}

/// While no Start message occurs, a scheduler that begins inactive stays
/// inactive and performs no notify step at all — there is no catch-up for
/// ticks that elapse while inactive.
pub proof fn lemma_inactive_stays_quiet(events: Seq<Event>)
    requires
        forall|i: int| 0 <= i < events.len() ==> events[i] != Event::Control(ControlMessage::Start),
    ensures
        run_mode(Mode::Inactive, events) == Mode::Inactive,
        notify_count(Mode::Inactive, events) == 0,
    decreases events.len(),
{
    if events.len() > 0 {
        assert(events[0] != Event::Control(ControlMessage::Start));
        assert(spec_step(Mode::Inactive, events.first()).0 == Mode::Inactive);
        assert(forall|i: int|
            0 <= i < events.drop_first().len() ==> events.drop_first()[i] == events[i + 1]);
        lemma_inactive_stays_quiet(events.drop_first());
    }
}

/// A Stop hand-off forces the scheduler inactive, so a run that begins with
/// Stop and contains no Start afterwards produces no notify step, whatever
/// the mode was before — stopping halts notification.
pub proof fn lemma_stop_halts_notification(mode: Mode, events: Seq<Event>)
    requires
        events.len() > 0,
        events.first() == Event::Control(ControlMessage::Stop),
        forall|i: int| 0 <= i < events.len() ==> events[i] != Event::Control(ControlMessage::Start),
    ensures
        run_mode(mode, events) == Mode::Inactive,
        notify_count(mode, events) == 0,
{
    assert(spec_step(mode, events.first()) == (Mode::Inactive, Action::Continue));
    assert(forall|i: int|
        0 <= i < events.drop_first().len() ==> events.drop_first()[i] == events[i + 1]);
    lemma_inactive_stays_quiet(events.drop_first());
}

/// While active, no tick is lost: a run made only of ticks performs exactly
/// one notify step per tick and leaves the scheduler active.
pub proof fn lemma_active_ticks_notify(events: Seq<Event>)
    requires
        forall|i: int| 0 <= i < events.len() ==> events[i] == Event::Tick,
    ensures
        run_mode(Mode::Active, events) == Mode::Active,
        notify_count(Mode::Active, events) == events.len(),
    decreases events.len(),
{
    if events.len() > 0 {
        assert(events[0] == Event::Tick);
        assert(spec_step(Mode::Active, events.first()) == (Mode::Active, Action::Notify));
        assert(forall|i: int|
            0 <= i < events.drop_first().len() ==> events.drop_first()[i] == events[i + 1]);
        lemma_active_ticks_notify(events.drop_first());
    }
}

/// Pausing parks the scheduler thread but is an action, not a mode: the
/// Active/Inactive state is exactly what it was before the pause.
pub proof fn lemma_pause_preserves_mode(mode: Mode)
    ensures
        spec_step(mode, Event::Control(ControlMessage::Pause)).0 == mode,
        spec_step(mode, Event::Control(ControlMessage::Pause)).1 == Action::Park,
{
}

/// No control message is dropped around a pause: a Stop that is handed off
/// after a Pause leaves the scheduler inactive, never active, whatever the
/// mode was before.
pub proof fn lemma_pause_then_stop_lands_inactive(mode: Mode)
    ensures
        run_mode(
            mode,
            seq![
                Event::Control(ControlMessage::Pause),
                Event::Control(ControlMessage::Stop),
            ],
        ) == Mode::Inactive,
{
    let events = seq![
        Event::Control(ControlMessage::Pause),
        Event::Control(ControlMessage::Stop),
    ];
    assert(events.first() == Event::Control(ControlMessage::Pause));
    assert(run_mode(mode, events) == run_mode(mode, events.drop_first()));
    assert(events.drop_first().first() == events[1]);
    assert(events.drop_first().drop_first() =~= Seq::<Event>::empty());
    assert(run_mode(mode, events.drop_first()) == run_mode(
        Mode::Inactive,
        events.drop_first().drop_first(),
    ));
    assert(run_mode(Mode::Inactive, Seq::<Event>::empty()) == Mode::Inactive);
}

} // verus!

