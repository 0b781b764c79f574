//! The trial/committed protocol of element state.
//!
//! Each element keeps a committed state (the last converged step) and a
//! trial state (the current Newton iterate). Committing makes the trial
//! state the committed one; reverting rolls the trial state back. Snapshots
//! and checkpoints record both, so that restoring one resumes exactly where
//! the snapshot was taken.
use vstd::prelude::*;

verus! {

/// A committed state and a trial state of type `S`.
#[derive(Clone, Copy, Debug)]
pub struct Staged<S> {
    /// State of the last committed step.
    pub committed: S,
    /// Current trial state.
    pub trial: S,
}

impl<S: Copy> Staged<S> {
    /// Both states equal to `initial`.
    pub fn new(initial: S) -> (r: Self)
        ensures
            r.committed == initial,
            r.trial == initial,
    {
        Staged { committed: initial, trial: initial }
    }

    /// Makes the trial state the committed one.
    pub fn commit(&mut self)
        ensures
            final(self).committed == old(self).trial,
            final(self).trial == old(self).trial,
    {
        self.committed = self.trial;
    }

    /// Rolls the trial state back to the committed one.
    pub fn revert(&mut self)
        ensures
            final(self).committed == old(self).committed,
            final(self).trial == old(self).committed,
    {
        self.trial = self.committed;
    }

    /// Sets the trial state to `next`, committing it when `commit` is set.
    pub fn update(&mut self, next: S, commit: bool)
        ensures
            final(self).trial == next,
            final(self).committed == (if commit {
                next
            } else {
                old(self).committed
            }),
    {
        self.trial = next;
        if commit {
            self.committed = self.trial;
        }
    }

    /// The states as `(committed, trial)`.
    pub fn snapshot(&self) -> (r: (S, S))
        ensures
            r == (self.committed, self.trial),
    {
        (self.committed, self.trial)
    }

    /// Restores the states of a snapshot `(committed, trial)`.
    pub fn restore(&mut self, snapshot: (S, S))
        ensures
            final(self).committed == snapshot.0,
            final(self).trial == snapshot.1,
    {
        self.committed = snapshot.0;
        self.trial = snapshot.1;
    }
}

pub open spec fn spec_commit<S>(s: Staged<S>) -> Staged<S> {
    Staged { committed: s.trial, trial: s.trial }
}

pub open spec fn spec_revert<S>(s: Staged<S>) -> Staged<S> {
    Staged { committed: s.committed, trial: s.committed }
}

pub open spec fn spec_snapshot<S>(s: Staged<S>) -> (S, S) {
    (s.committed, s.trial)
}

pub open spec fn spec_restore<S>(s: Staged<S>, snapshot: (S, S)) -> Staged<S> {
    Staged { committed: snapshot.0, trial: snapshot.1 }
}

/// Restoring a snapshot gives back the state it was taken from; a revert
/// right after a commit changes nothing; committing or reverting twice is
/// the same as once; after a revert the trial state is the committed one.
pub proof fn lemma_staged_laws<S>(s: Staged<S>)
    ensures
        spec_restore(s, spec_snapshot(s)) == s,
        forall|t: Staged<S>| spec_restore(t, spec_snapshot(s)) == s,
        spec_revert(spec_commit(s)) == spec_commit(s),
        spec_commit(spec_commit(s)) == spec_commit(s),
        spec_revert(spec_revert(s)) == spec_revert(s),
        spec_revert(s).trial == spec_revert(s).committed,
        spec_commit(spec_revert(s)) == spec_revert(s),
{
}

/// The hinge state of a fiber member as recorded in snapshots: the four
/// hinge curvatures followed by the four beam-side rotations.
pub open spec fn spec_hinge_record<T>(kappa: [T; 4], thb: [T; 4]) -> Seq<T> {
    kappa@ + thb@
}

/// Records hinge curvatures `kappa` and rotations `thb` (see
/// [`spec_hinge_record`]).
pub fn hinge_record<T: Copy>(kappa: &[T; 4], thb: &[T; 4]) -> (r: Vec<T>)
    ensures
        r@ == spec_hinge_record(*kappa, *thb),
{
    let mut r: Vec<T> = Vec::new();
    let mut k: usize = 0;
    while k < 4
        invariant
            0 <= k <= 4,
            r@ == kappa@.take(k as int),
        decreases 4 - k,
    {
        r.push(kappa[k]);
        assert(kappa@.take(k + 1) =~= kappa@.take(k as int).push(kappa@[k as int]));
        k += 1;
    }
    let mut k: usize = 0;
    while k < 4
        invariant
            0 <= k <= 4,
            r@ == kappa@ + thb@.take(k as int),
        decreases 4 - k,
    {
        r.push(thb[k]);
        assert(thb@.take(k + 1) =~= thb@.take(k as int).push(thb@[k as int]));
        k += 1;
    }
    assert(kappa@.take(4) =~= kappa@);
    assert(thb@.take(4) =~= thb@);
    r
}

/// The hinge state in a record: the curvatures and rotations when the
/// record holds exactly eight values, `None` for a record of a member
/// without hinges (or of another length).
pub fn hinge_from_record<T: Copy>(record: &Vec<T>) -> (r: Option<([T; 4], [T; 4])>)
    ensures
        match r {
            Some((kappa, thb)) => record@.len() == 8 && record@ == spec_hinge_record(kappa, thb),
            None => record@.len() != 8,
        },
{
    if record.len() != 8 {
        return None;
    }
    let kappa = [record[0], record[1], record[2], record[3]];
    let thb = [record[4], record[5], record[6], record[7]];
    assert(record@ =~= spec_hinge_record(kappa, thb));
    Some((kappa, thb))
}

/// A hinge record read back gives the recorded state.
pub proof fn lemma_hinge_record_round_trip<T>(kappa: [T; 4], thb: [T; 4])
    ensures
        spec_hinge_record(kappa, thb).len() == 8,
        forall|k2: [T; 4], t2: [T; 4]|
            spec_hinge_record(k2, t2) == spec_hinge_record(kappa, thb) ==> k2 == kappa && t2 == thb,
{
    assert forall|k2: [T; 4], t2: [T; 4]|
        spec_hinge_record(k2, t2) == spec_hinge_record(kappa, thb) implies k2 == kappa && t2
        == thb by {
        let a = spec_hinge_record(k2, t2);
        let b = spec_hinge_record(kappa, thb);
        assert forall|i: int| 0 <= i < 4 implies k2[i] == kappa[i] by {
            assert(a[i] == b[i]);
        }
        assert forall|i: int| 0 <= i < 4 implies t2[i] == thb[i] by {
            assert(a[4 + i] == b[4 + i]);
        }
        assert(k2 =~= kappa);
        assert(t2 =~= thb);
    }
}

} // verus!
