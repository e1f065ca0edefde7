//! The debounced publish signal: mutations mark it, a periodic tick takes it.

use vstd::prelude::*;

verus! {

/// An operation on the signal.
pub enum SignalOp {
    /// A mutation was committed.
    Mark,
    /// The timer fired: the flag is read and cleared, and a publish runs if it was set.
    Tick,
    /// A publish failed: the flag is set again so that the next tick retries.
    Failed,
}

/// The flag after one operation, and whether that operation starts a publish.
pub open spec fn signal_step(flag: bool, op: SignalOp) -> (bool, bool) {
    match op {
        SignalOp::Mark => (true, false),
        SignalOp::Tick => (false, flag),
        SignalOp::Failed => (true, false),
    }
}

/// The flag after the operations, in order, and how many publishes they start.
pub open spec fn signal_run(flag: bool, ops: Seq<SignalOp>) -> (bool, nat)
    decreases ops.len(),
{
    if ops.len() == 0 {
        (flag, 0)
    } else {
        let (f, n) = signal_run(flag, ops.drop_last());
        let (g, p) = signal_step(f, ops.last());
        (g, if p { n + 1 } else { n })
    }
}

/// `n` mutations in a row.
pub open spec fn marks(n: nat) -> Seq<SignalOp> {
    Seq::new(n, |i: int| SignalOp::Mark)
}

/// Whether a publish is due.
#[derive(Debug)]
pub struct NeedPublish {
    dirty: bool,
}

impl NeedPublish {
    pub closed spec fn is_dirty(&self) -> bool {
        self.dirty
    }

    /// A signal whose flag starts as `state`.
    pub fn new(state: bool) -> (r: Self)
        ensures
            r.is_dirty() == state,
    {
        NeedPublish { dirty: state }
    }

    /// Sets the flag.
    pub fn set(&mut self, state: bool)
        ensures
            final(self).is_dirty() == state,
    {
        self.dirty = state;
    }

    /// The flag.
    pub fn get(&self) -> (r: bool)
        ensures
            r == self.is_dirty(),
    {
        self.dirty
    }

    /// Records that a mutation was committed.
    pub fn mark_dirty(&mut self)
        ensures
            final(self).is_dirty() == signal_step(old(self).is_dirty(), SignalOp::Mark).0,
    {
        self.dirty = true;
    }

    /// Reads and clears the flag in one step; a publish is due when it returns true.
    pub fn take_if_dirty(&mut self) -> (r: bool)
        ensures
            (final(self).is_dirty(), r) == signal_step(old(self).is_dirty(), SignalOp::Tick),
    {
        let r = self.dirty;
        self.dirty = false;
        r
    }

    /// Records how a publish ended: a failed one sets the flag again.
    pub fn publish_done(&mut self, ok: bool)
        ensures
            ok ==> final(self).is_dirty() == old(self).is_dirty(),
            !ok ==> final(self).is_dirty() == signal_step(old(self).is_dirty(), SignalOp::Failed).0,
    {
        if !ok {
            self.dirty = true;
        }
    }
}

proof fn lemma_marks_set(flag: bool, n: nat)
    requires
        n >= 1,
    ensures
        signal_run(flag, marks(n)) == (true, 0nat),
    decreases n,
{
    assert(marks(n).drop_last() =~= marks((n - 1) as nat));
    if n > 1 {
        lemma_marks_set(flag, (n - 1) as nat);
    } else {
        assert(marks(0) =~= Seq::<SignalOp>::empty());
    }
}

/// However many mutations (at least one) come within one timer interval, its
/// tick starts exactly one publish and leaves the flag clear; a following tick
/// with no mutation between starts none.
pub proof fn lemma_debounce(flag: bool, n: nat)
    requires
        n >= 1,
    ensures
        signal_run(flag, marks(n).push(SignalOp::Tick)) == (false, 1nat),
        signal_run(flag, marks(n).push(SignalOp::Tick).push(SignalOp::Tick)) == (false, 1nat),
{
    lemma_marks_set(flag, n);
    assert(marks(n).push(SignalOp::Tick).drop_last() =~= marks(n));
    assert(marks(n).push(SignalOp::Tick).push(SignalOp::Tick).drop_last() =~= marks(n).push(SignalOp::Tick));
    assert(signal_run(flag, marks(n).push(SignalOp::Tick)) == (false, 1nat));
}

/// A flag set when a tick starts is never lost: that tick starts a publish,
/// and if the publish fails the next tick starts another.
pub proof fn lemma_no_lost_wakeup(ops: Seq<SignalOp>)
    requires
        signal_run(false, ops).0,
    ensures
        signal_run(false, ops.push(SignalOp::Tick)).1 == signal_run(false, ops).1 + 1,
        signal_run(false, ops.push(SignalOp::Tick).push(SignalOp::Failed).push(SignalOp::Tick)).1
            == signal_run(false, ops).1 + 2,
{
    let a = ops.push(SignalOp::Tick);
    let b = a.push(SignalOp::Failed);
    let c = b.push(SignalOp::Tick);
    assert(a.drop_last() =~= ops);
    assert(b.drop_last() =~= a);
    assert(c.drop_last() =~= b);
    assert(signal_run(false, a) == (false, signal_run(false, ops).1 + 1));
    assert(signal_run(false, b) == (true, signal_run(false, ops).1 + 1));
}

} // verus!
