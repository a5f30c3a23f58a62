//! The signal pointers: the two shared atomic locations that the scheduler
//! writes and an external, uncoordinated consumer reads.

use vstd::prelude::*;
use core::sync::atomic::{AtomicBool, AtomicU32, Ordering};
use std::sync::Arc;

verus! {

/// The pair of shared memory locations the scheduler signals into: a sample
/// counter and an interrupt flag. The storage is owned by the caller that
/// constructs the scheduler and shared here by reference counting, so it
/// stays valid for as long as the scheduler thread holds it; the scheduler
/// never allocates or frees the locations' logical contents, it only writes
/// them through sequentially consistent atomic operations.
pub struct SignalPointers {
    pub wall_samples: Arc<AtomicU32>,
    pub vm_interrupt: Arc<AtomicBool>,
}

impl SignalPointers {
    /// Bundles the two caller-owned locations.
    pub fn new(wall_samples: Arc<AtomicU32>, vm_interrupt: Arc<AtomicBool>) -> (r: Self)
        ensures
            r.wall_samples == wall_samples,
            r.vm_interrupt == vm_interrupt,
    {
        SignalPointers { wall_samples, vm_interrupt }
    }

    /// The notify step, run once per accepted tick while the scheduler is
    /// active: increment the sample counter first, then raise the interrupt
    /// flag, both sequentially consistent. The order is deliberate — the
    /// flag is what triggers the consumer to read the counter, so the flag
    /// must never be observable as set before the counter reflects the new
    /// sample. It is modelled by [`notify_writes`] applied to
    /// [`SignalState`].
    pub fn notify(&self) {
        self.wall_samples.fetch_add(1, Ordering::SeqCst);
        self.vm_interrupt.store(true, Ordering::SeqCst);
    }
}

/// A mathematical model of the two signal locations, together with the
/// counter value recorded at the most recent Start hand-off (the consumer's
/// baseline for a sampling session).
pub struct SignalState {
    pub samples: nat,
    pub interrupt: bool,
    pub session_base: nat,
}

/// One observable write to the model: the scheduler records the session
/// baseline at a Start, bumps the counter, or raises the flag (the two
/// halves of a notify step, at the granularity the uncoordinated consumer
/// can see them); the consumer clears the flag after acting on it.
#[derive(Clone, Copy, Debug, PartialEq, Eq, Structural)]
pub enum SignalWrite {
    RecordStart,
    BumpCounter,
    RaiseFlag,
    ClearFlag,
}

/// The effect of one write on the model.
pub open spec fn signal_write(s: SignalState, w: SignalWrite) -> SignalState {
    match w {
        SignalWrite::RecordStart => SignalState { session_base: s.samples, ..s },
        SignalWrite::BumpCounter => SignalState { samples: s.samples + 1, ..s },
        SignalWrite::RaiseFlag => SignalState { interrupt: true, ..s },
        SignalWrite::ClearFlag => SignalState { interrupt: false, ..s },
    }
}

/// The model after a whole sequence of writes.
pub open spec fn run_writes(s: SignalState, writes: Seq<SignalWrite>) -> SignalState
    decreases writes.len(),
{
    if writes.len() == 0 {
        s
    } else {
        run_writes(signal_write(s, writes.first()), writes.drop_first())
    }
}

/// The exact write sequence of one notify step: counter first, flag second.
pub open spec fn notify_writes() -> Seq<SignalWrite> {
    seq![SignalWrite::BumpCounter, SignalWrite::RaiseFlag]
}

/// The consumer-visible well-formedness of the signals: the session
/// baseline never runs ahead of the counter, so whenever the interrupt flag
/// is observed true the counter is already at or above its value at the
/// most recent Start.
pub open spec fn signals_consistent(s: SignalState) -> bool {
    s.session_base <= s.samples
}

/// The sample counter never decreases, under any sequence of writes.
pub proof fn lemma_counter_monotone(s: SignalState, writes: Seq<SignalWrite>)
    ensures
        s.samples <= run_writes(s, writes).samples,
    decreases writes.len(),
{
    if writes.len() > 0 {
        lemma_counter_monotone(signal_write(s, writes.first()), writes.drop_first());
    }
}

/// Consistency is an invariant of every write sequence: an observer that
/// sees the interrupt flag true always sees a counter at or above its value
/// immediately before the most recent Start.
pub proof fn lemma_flag_implies_session_samples(s: SignalState, writes: Seq<SignalWrite>)
    requires
        signals_consistent(s),
    ensures
        signals_consistent(run_writes(s, writes)),
        run_writes(s, writes).interrupt ==> run_writes(s, writes).samples
            >= run_writes(s, writes).session_base,
    decreases writes.len(),
{
    if writes.len() > 0 {
        lemma_flag_implies_session_samples(signal_write(s, writes.first()), writes.drop_first());
    }
}

/// The write order inside one notify step matters: at every prefix of the
/// step — before the bump, between the two writes, and after both — a flag
/// that was not already raised can only be seen together with the already
/// bumped counter. The consumer can therefore never observe the new flag
/// without the new sample.
pub proof fn lemma_notify_order(s: SignalState, k: int)
    requires
        0 <= k <= notify_writes().len(),
    ensures
        ({
            let t = run_writes(s, notify_writes().take(k));
            t.interrupt && !s.interrupt ==> t.samples == s.samples + 1
        }),
{
    let writes = notify_writes();
    if k == 0 {
        assert(writes.take(0) =~= Seq::<SignalWrite>::empty());
    } else if k == 1 {
        let taken = writes.take(1);
        let bumped = signal_write(s, SignalWrite::BumpCounter);
        assert(taken.first() == SignalWrite::BumpCounter);
        assert(taken.drop_first() =~= Seq::<SignalWrite>::empty());
        assert(run_writes(s, taken) == run_writes(bumped, taken.drop_first()));
        assert(run_writes(bumped, Seq::<SignalWrite>::empty()) == bumped);
    } else {
        let taken = writes.take(2);
        assert(taken =~= writes);
        assert(writes.first() == SignalWrite::BumpCounter);
        assert(writes.drop_first().first() == writes[1]);
        assert(writes.drop_first().drop_first() =~= Seq::<SignalWrite>::empty());
        let bumped = signal_write(s, SignalWrite::BumpCounter);
        let raised = signal_write(bumped, SignalWrite::RaiseFlag);
        assert(run_writes(s, writes) == run_writes(bumped, writes.drop_first()));
        assert(run_writes(bumped, writes.drop_first()) == run_writes(
            raised,
            writes.drop_first().drop_first(),
        ));
        assert(run_writes(raised, Seq::<SignalWrite>::empty()) == raised);
    }
}

/// A full notify step raises the flag and accounts for exactly the one new
/// sample.
pub proof fn lemma_notify_effect(s: SignalState)
    ensures
        run_writes(s, notify_writes()).samples == s.samples + 1,
        run_writes(s, notify_writes()).interrupt,
        run_writes(s, notify_writes()).session_base == s.session_base,
{
    let writes = notify_writes();
    assert(writes.first() == SignalWrite::BumpCounter);
    assert(writes.drop_first().first() == writes[1]);
    assert(writes.drop_first().drop_first() =~= Seq::<SignalWrite>::empty());
    let bumped = signal_write(s, SignalWrite::BumpCounter);
    let raised = signal_write(bumped, SignalWrite::RaiseFlag);
    assert(run_writes(s, writes) == run_writes(bumped, writes.drop_first()));
    assert(run_writes(bumped, writes.drop_first()) == run_writes(
        raised,
        writes.drop_first().drop_first(),
    ));
    assert(run_writes(raised, Seq::<SignalWrite>::empty()) == raised);
}

} // verus!
