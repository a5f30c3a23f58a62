//! Tests of the scheduler state machine's transition table on concrete
//! modes and events.

use interrupter::state::{step, Action, ControlMessage, Event, Mode};

#[test]
fn start_activates_from_inactive() {
    assert_eq!(
        step(Mode::Inactive, Event::Control(ControlMessage::Start)),
        (Mode::Active, Action::Continue)
    );
}

#[test]
fn start_is_idempotent_while_active() {
    assert_eq!(
        step(Mode::Active, Event::Control(ControlMessage::Start)),
        (Mode::Active, Action::Continue)
    );
}

#[test]
fn stop_deactivates_from_active() {
    assert_eq!(
        step(Mode::Active, Event::Control(ControlMessage::Stop)),
        (Mode::Inactive, Action::Continue)
    );
}

#[test]
fn stop_is_idempotent_while_inactive() {
    assert_eq!(
        step(Mode::Inactive, Event::Control(ControlMessage::Stop)),
        (Mode::Inactive, Action::Continue)
    );
}

#[test]
fn tick_notifies_only_while_active() {
    assert_eq!(step(Mode::Active, Event::Tick), (Mode::Active, Action::Notify));
    assert_eq!(step(Mode::Inactive, Event::Tick), (Mode::Inactive, Action::Continue));
}

#[test]
fn pause_parks_and_preserves_either_mode() {
    assert_eq!(
        step(Mode::Active, Event::Control(ControlMessage::Pause)),
        (Mode::Active, Action::Park)
    );
    assert_eq!(
        step(Mode::Inactive, Event::Control(ControlMessage::Pause)),
        (Mode::Inactive, Action::Park)
    );
}

#[test]
fn shutdown_and_failures_exit() {
    assert_eq!(
        step(Mode::Active, Event::Control(ControlMessage::Shutdown)),
        (Mode::Active, Action::Exit)
    );
    assert_eq!(
        step(Mode::Inactive, Event::Control(ControlMessage::Shutdown)),
        (Mode::Inactive, Action::Exit)
    );
    assert_eq!(step(Mode::Active, Event::ChannelDown), (Mode::Active, Action::Exit));
    assert_eq!(step(Mode::Inactive, Event::TickerDown), (Mode::Inactive, Action::Exit));
}

#[test]
fn pause_then_stop_lands_inactive_from_either_mode() {
    for mode in [Mode::Inactive, Mode::Active] {
        let (after_pause, action) = step(mode, Event::Control(ControlMessage::Pause));
        assert_eq!(action, Action::Park);
        let (after_stop, _) = step(after_pause, Event::Control(ControlMessage::Stop));
        assert_eq!(after_stop, Mode::Inactive);
    }
}

#[test]
fn ticks_never_activate_or_deactivate() {
    let mut mode = Mode::Inactive;
    let mut notified: u32 = 0;
    for _ in 0..5 {
        let (next, action) = step(mode, Event::Tick);
        if action == Action::Notify {
            notified += 1;
        }
        mode = next;
    }
    assert_eq!(mode, Mode::Inactive);
    assert_eq!(notified, 0);

    let mut mode = Mode::Active;
    let mut notified: u32 = 0;
    for _ in 0..5 {
        let (next, action) = step(mode, Event::Tick);
        if action == Action::Notify {
            notified += 1;
        }
        mode = next;
    }
    assert_eq!(mode, Mode::Active);
    assert_eq!(notified, 5);
}
