//! End-to-end tests that run the scheduler loop on a real thread, with the
//! real channels, ticker and parker underneath, and observe the two signal
//! locations exactly as an external consumer would.

use interrupter::{interrupter, ControlMessage, Interrupter, InterrupterError, SchedulerTask, SignalPointers};
use std::sync::atomic::{AtomicBool, AtomicU32, Ordering};
use std::sync::Arc;
use std::time::{Duration, Instant};

const PERIOD_NANOS: u64 = 10_000_000;

fn drive(mut task: SchedulerTask) {
    while task.run_step() {}
}

fn sleep_ms(ms: u64) {
    let _ = crossbeam_channel::after(Duration::from_millis(ms)).recv();
}

fn fresh_signals() -> (Arc<AtomicU32>, Arc<AtomicBool>, SignalPointers) {
    let counter = Arc::new(AtomicU32::new(0));
    let flag = Arc::new(AtomicBool::new(false));
    let pointers = SignalPointers::new(counter.clone(), flag.clone());
    (counter, flag, pointers)
}

/// Pauses the scheduler, absorbing the transient-busy error that a
/// non-blocking hand-off can hit when the loop is momentarily between
/// waits.
fn pause_with_patience(handle: &Interrupter) {
    for _ in 0..200 {
        match handle.try_pause() {
            Ok(()) => return,
            Err(InterrupterError::TransientBusy { .. }) => sleep_ms(1),
            Err(other) => panic!("pause failed hard: {other:?}"),
        }
    }
    panic!("pause stayed busy");
}

#[test]
fn fresh_handle_stays_silent() {
    let (counter, flag, pointers) = fresh_signals();
    let (mut handle, task) = interrupter(pointers, PERIOD_NANOS);
    crossbeam_utils::thread::scope(|scope| {
        scope.spawn(move |_| drive(task));
        sleep_ms(50);
        assert_eq!(counter.load(Ordering::SeqCst), 0);
        assert!(!flag.load(Ordering::SeqCst));
        assert!(handle.shutdown().is_ok());
    })
    .unwrap();
}

#[test]
fn active_scheduler_ticks_and_raises_flag() {
    let (counter, flag, pointers) = fresh_signals();
    let (mut handle, task) = interrupter(pointers, PERIOD_NANOS);
    crossbeam_utils::thread::scope(|scope| {
        scope.spawn(move |_| drive(task));
        handle.start().unwrap();
        // Four periods must yield at least three samples.
        sleep_ms(45);
        assert!(counter.load(Ordering::SeqCst) >= 3);
        assert!(flag.load(Ordering::SeqCst));
        assert!(handle.shutdown().is_ok());
    })
    .unwrap();
}

#[test]
fn flag_observed_true_implies_sample_counted() {
    let (counter, flag, pointers) = fresh_signals();
    let (mut handle, task) = interrupter(pointers, PERIOD_NANOS);
    crossbeam_utils::thread::scope(|scope| {
        scope.spawn(move |_| drive(task));
        let before_start = counter.load(Ordering::SeqCst);
        handle.start().unwrap();
        let mut observed_flag = false;
        for _ in 0..200 {
            if flag.load(Ordering::SeqCst) {
                observed_flag = true;
                break;
            }
            sleep_ms(2);
        }
        assert!(observed_flag, "flag never observed true");
        // The counter must already hold every sample the flag announces.
        assert!(counter.load(Ordering::SeqCst) > before_start);
        assert!(handle.shutdown().is_ok());
    })
    .unwrap();
}

#[test]
fn stop_halts_notification() {
    let (counter, _flag, pointers) = fresh_signals();
    let (mut handle, task) = interrupter(pointers, PERIOD_NANOS);
    crossbeam_utils::thread::scope(|scope| {
        scope.spawn(move |_| drive(task));
        handle.start().unwrap();
        sleep_ms(35);
        handle.stop().unwrap();
        let settled = counter.load(Ordering::SeqCst);
        assert!(settled > 0);
        sleep_ms(25);
        assert_eq!(counter.load(Ordering::SeqCst), settled);
        assert!(handle.shutdown().is_ok());
    })
    .unwrap();
}

#[test]
fn pause_suspends_and_unpause_resumes() {
    let (counter, _flag, pointers) = fresh_signals();
    let (mut handle, task) = interrupter(pointers, PERIOD_NANOS);
    crossbeam_utils::thread::scope(|scope| {
        scope.spawn(move |_| drive(task));
        handle.start().unwrap();
        sleep_ms(25);
        pause_with_patience(&handle);
        let while_paused = counter.load(Ordering::SeqCst);
        sleep_ms(40);
        assert_eq!(counter.load(Ordering::SeqCst), while_paused);
        handle.unpause();
        // Ticking must resume; the parked loop wakes with at most one
        // buffered tick, then one per period.
        sleep_ms(25);
        assert!(counter.load(Ordering::SeqCst) > while_paused);
        assert!(handle.shutdown().is_ok());
    })
    .unwrap();
}

#[test]
fn stop_issued_while_paused_lands_inactive() {
    let (counter, _flag, pointers) = fresh_signals();
    let (mut handle, task) = interrupter(pointers, PERIOD_NANOS);
    crossbeam_utils::thread::scope(|scope| {
        scope.spawn(move |_| drive(task));
        handle.start().unwrap();
        sleep_ms(25);
        pause_with_patience(&handle);
        crossbeam_utils::thread::scope(|inner| {
            inner.spawn(|_| {
                sleep_ms(20);
                handle.unpause();
            });
            // Blocks on the rendezvous until the woken loop receives it;
            // the control message is not dropped by the pause.
            handle.stop().unwrap();
        })
        .unwrap();
        let after_stop = counter.load(Ordering::SeqCst);
        sleep_ms(35);
        assert_eq!(counter.load(Ordering::SeqCst), after_stop);
        assert!(handle.shutdown().is_ok());
    })
    .unwrap();
}

#[test]
fn shutdown_is_bounded_and_one_shot() {
    let (_counter, _flag, pointers) = fresh_signals();
    let (mut handle, task) = interrupter(pointers, PERIOD_NANOS);
    crossbeam_utils::thread::scope(|scope| {
        scope.spawn(move |_| drive(task));
        handle.start().unwrap();
        let begun = Instant::now();
        assert_eq!(handle.shutdown(), Ok(()));
        assert!(begun.elapsed() < Duration::from_secs(4));
    })
    .unwrap();
    let again = Instant::now();
    assert_eq!(handle.shutdown(), Ok(()));
    assert!(again.elapsed() < Duration::from_secs(1));
}

#[test]
fn unpause_without_pause_is_harmless() {
    let (counter, _flag, pointers) = fresh_signals();
    let (mut handle, task) = interrupter(pointers, PERIOD_NANOS);
    crossbeam_utils::thread::scope(|scope| {
        scope.spawn(move |_| drive(task));
        handle.start().unwrap();
        handle.unpause();
        sleep_ms(35);
        assert!(counter.load(Ordering::SeqCst) >= 2);
        assert!(handle.shutdown().is_ok());
    })
    .unwrap();
    // After shutdown there is no thread to wake; still not an error.
    handle.unpause();
}

#[test]
fn operations_after_shutdown_report_disconnected() {
    let (_counter, _flag, pointers) = fresh_signals();
    let (mut handle, task) = interrupter(pointers, PERIOD_NANOS);
    crossbeam_utils::thread::scope(|scope| {
        scope.spawn(move |_| drive(task));
        assert_eq!(handle.shutdown(), Ok(()));
    })
    .unwrap();
    assert_eq!(
        handle.start(),
        Err(InterrupterError::Disconnected { operation: ControlMessage::Start })
    );
    assert_eq!(
        handle.stop(),
        Err(InterrupterError::Disconnected { operation: ControlMessage::Stop })
    );
    assert_eq!(
        handle.try_pause(),
        Err(InterrupterError::Disconnected { operation: ControlMessage::Pause })
    );
}

#[test]
fn scenario_ten_millisecond_period() {
    let (counter, flag, pointers) = fresh_signals();
    let (mut handle, task) = interrupter(pointers, 10_000_000);
    crossbeam_utils::thread::scope(|scope| {
        scope.spawn(move |_| drive(task));
        handle.start().unwrap();
        sleep_ms(55);
        let sampled = counter.load(Ordering::SeqCst);
        assert!((4..=6).contains(&sampled), "sample counter was {sampled}");
        assert!(flag.load(Ordering::SeqCst));
        handle.stop().unwrap();
        let settled = counter.load(Ordering::SeqCst);
        sleep_ms(50);
        assert_eq!(counter.load(Ordering::SeqCst), settled);
        let begun = Instant::now();
        assert_eq!(handle.shutdown(), Ok(()));
        assert!(begun.elapsed() < Duration::from_secs(4));
    })
    .unwrap();
}

#[test]
fn driver_exits_once_every_handle_is_gone() {
    let (counter, _flag, pointers) = fresh_signals();
    let (handle, mut task) = interrupter(pointers, PERIOD_NANOS);
    drop(handle);
    // The control channel is now closed, which the loop treats as a
    // request to terminate.
    assert!(!task.run_step());
    assert_eq!(counter.load(Ordering::SeqCst), 0);
}

#[test]
fn pause_without_listening_scheduler_is_transiently_busy() {
    let (_counter, _flag, pointers) = fresh_signals();
    let (handle, task) = interrupter(pointers, PERIOD_NANOS);
    // The receiving end is alive inside the task but nobody is waiting on
    // it, so the zero-capacity hand-off can never pair up right now.
    assert_eq!(
        handle.try_pause(),
        Err(InterrupterError::TransientBusy { operation: ControlMessage::Pause })
    );
    drop(task);
}

#[test]
fn shutdown_without_listening_scheduler_times_out_the_handoff() {
    let (_counter, _flag, pointers) = fresh_signals();
    let (mut handle, task) = interrupter(pointers, PERIOD_NANOS);
    let begun = Instant::now();
    assert_eq!(handle.shutdown(), Err(InterrupterError::HandoffTimeout));
    assert!(begun.elapsed() >= Duration::from_secs(2));
    assert!(begun.elapsed() < Duration::from_secs(4));
    // A failed hand-off keeps the completion slot, and once the task is
    // gone the failure becomes the hard, immediate one.
    drop(task);
    assert_eq!(
        handle.shutdown(),
        Err(InterrupterError::Disconnected { operation: ControlMessage::Shutdown })
    );
}

#[test]
fn slow_thread_after_shutdown_reports_join_timeout() {
    let (_counter, _flag, pointers) = fresh_signals();
    let (mut handle, task) = interrupter(pointers, PERIOD_NANOS);
    crossbeam_utils::thread::scope(|scope| {
        scope.spawn(move |_| {
            let mut task = task;
            while task.run_step() {}
            // Keep the task — and with it the completion channel — alive
            // well past the bounded join wait.
            sleep_ms(3_000);
            drop(task);
        });
        assert_eq!(handle.shutdown(), Err(InterrupterError::JoinTimeout));
        // The join was abandoned: a later call is already-shut-down.
        assert_eq!(handle.shutdown(), Ok(()));
    })
    .unwrap();
}
