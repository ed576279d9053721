//! Shared round state and the worker-side transitions on it.
//!
//! All workers and the round coordinator share one `ThreadsData` value
//! behind a single lock.  The functions here are the state transitions
//! a worker performs while holding that lock; the lock itself, the idle
//! sleeps, and the measurement call stay in the application, which runs
//! the expensive measurement outside the lock.

use vstd::prelude::*;

verus! {

/// The mutable state shared by every worker and the coordinator.
///
/// * `chars_to_process` is the candidate set of the current round: the
///   characters not yet scored, drained from the back.
/// * `processed_chars` is the score board of the current round, in
///   insertion order; the order decides ties (see the coordinator).
/// * `found_password_prefix` is the best guess so far; only the
///   coordinator extends it, workers read snapshots of it.
pub struct ThreadsData {
    pub chars_to_process: Vec<char>,
    pub processed_chars: Vec<(i64, char)>,
    pub found_password_prefix: Vec<char>,
}

/// What a worker should do after one look at the shared state.
#[derive(PartialEq, Eq, Structural, Clone, Copy, Debug)]
pub enum WorkerStep {
    /// The prefix has reached the target length: exit cleanly.
    Done,
    /// No candidate is available right now: sleep briefly and retry.
    Idle,
    /// Score this candidate character against the current prefix.
    Probe(char),
}

impl ThreadsData {
    /// Fresh state: no candidates, no scores, empty prefix.
    pub fn new() -> (r: ThreadsData)
        ensures
            r.chars_to_process@ =~= Seq::<char>::empty(),
            r.processed_chars@ =~= Seq::<(i64, char)>::empty(),
            r.found_password_prefix@ =~= Seq::<char>::empty(),
    {
        ThreadsData {
            chars_to_process: Vec::new(),
            processed_chars: Vec::new(),
            found_password_prefix: Vec::new(),
        }
    }

    /// Begin a round: the candidate set becomes a copy of the alphabet
    /// and the score board is emptied.  The discovered prefix is kept.
    pub fn start_round(&mut self, alphabet: &Vec<char>)
        ensures
            final(self).chars_to_process@ == alphabet@,
            final(self).processed_chars@ =~= Seq::<(i64, char)>::empty(),
            final(self).found_password_prefix@ == old(self).found_password_prefix@,
    {
        let mut fresh: Vec<char> = Vec::new();
        let mut i: usize = 0;
        while i < alphabet.len()
            invariant
                i <= alphabet.len(),
                fresh@ == alphabet@.take(i as int),
            decreases alphabet.len() - i,
        {
            fresh.push(alphabet[i]);
            i += 1;
            assert(fresh@ =~= alphabet@.take(i as int));
        }
        assert(fresh@ =~= alphabet@);
        self.chars_to_process = fresh;
        self.processed_chars = Vec::new();
    }

    /// One worker decision, taken under the lock.
    ///
    /// If the prefix has reached `target_length` the worker is done; if
    /// no candidate is left it must idle without touching the score
    /// board; otherwise the most recently stored candidate is popped
    /// and handed back for measurement.  Nothing but the candidate set
    /// ever changes, and it only shrinks.
    pub fn worker_poll(&mut self, target_length: usize) -> (r: WorkerStep)
        ensures
            final(self).found_password_prefix@ == old(self).found_password_prefix@,
            final(self).processed_chars@ == old(self).processed_chars@,
            old(self).found_password_prefix@.len() == target_length ==> {
                &&& r == WorkerStep::Done
                &&& final(self).chars_to_process@ == old(self).chars_to_process@
            },
            old(self).found_password_prefix@.len() != target_length
                && old(self).chars_to_process@.len() == 0 ==> {
                &&& r == WorkerStep::Idle
                &&& final(self).chars_to_process@ == old(self).chars_to_process@
            },
            old(self).found_password_prefix@.len() != target_length
                && old(self).chars_to_process@.len() > 0 ==> {
                &&& r == WorkerStep::Probe(old(self).chars_to_process@.last())
                &&& final(self).chars_to_process@ == old(self).chars_to_process@.drop_last()
            },
    {
        if self.found_password_prefix.len() == target_length {
            return WorkerStep::Done;
        }
        match self.chars_to_process.pop() {
            Some(c) => WorkerStep::Probe(c),
            None => WorkerStep::Idle,
        }
    }

    /// Record one measurement on the score board, taken under the lock.
    pub fn record_score(&mut self, score: i64, c: char)
        ensures
            final(self).processed_chars@ == old(self).processed_chars@.push((score, c)),
            final(self).chars_to_process@ == old(self).chars_to_process@,
            final(self).found_password_prefix@ == old(self).found_password_prefix@,
    {
        self.processed_chars.push((score, c));
    }

    /// A read-only copy of the discovered prefix, taken under the lock;
    /// the worker builds its probe from the copy after releasing it.
    pub fn snapshot_prefix(&self) -> (r: Vec<char>)
        ensures
            r@ == self.found_password_prefix@,
    {
        let mut r: Vec<char> = Vec::new();
        let mut i: usize = 0;
        while i < self.found_password_prefix.len()
            invariant
                i <= self.found_password_prefix.len(),
                r@ == self.found_password_prefix@.take(i as int),
            decreases self.found_password_prefix.len() - i,
        {
            r.push(self.found_password_prefix[i]);
            i += 1;
            assert(r@ =~= self.found_password_prefix@.take(i as int));
        }
        assert(r@ =~= self.found_password_prefix@);
        r
    }
}

impl Default for ThreadsData {
    /// Same as `ThreadsData::new`.
    fn default() -> (r: ThreadsData)
        ensures
            r.chars_to_process@ =~= Seq::<char>::empty(),
            r.processed_chars@ =~= Seq::<(i64, char)>::empty(),
            r.found_password_prefix@ =~= Seq::<char>::empty(),
    {
        ThreadsData::new()
    }
}

} // verus!
