//! Length discovery: probing increasing lengths until the measured
//! signal changes its trend.
//!
//! When the password length is not configured, the solver measures a
//! filler probe of every length from 1 upward and returns the first
//! length at which the signal changes characteristically.  The exact
//! change rule is target-dependent, so it is a pluggable strategy; the
//! engine here owns the surrounding loop and its termination bound:
//! the answer never exceeds the configured maximum.

use vstd::prelude::*;

verus! {

/// A rule that decides whether the step from one length's measurement
/// to the next marks the characteristic change.
pub trait ChangeDetector {
    spec fn spec_changed(&self, prev: i64, cur: i64) -> bool;

    fn changed(&self, prev: i64, cur: i64) -> (r: bool)
        ensures
            r == self.spec_changed(prev, cur),
    ;
}

/// The simplest rule: the signal jumped by at least `min_jump` counts
/// over the previous length's measurement.
pub struct ThresholdDetector {
    pub min_jump: i64,
}

impl ChangeDetector for ThresholdDetector {
    open spec fn spec_changed(&self, prev: i64, cur: i64) -> bool {
        cur - prev >= self.min_jump
    }

    fn changed(&self, prev: i64, cur: i64) -> (r: bool) {
        (cur as i128) - (prev as i128) >= (self.min_jump as i128)
    }
}

/// The state of one length-discovery run.
///
/// The driver asks `pending_length` which length to measure next,
/// measures a filler probe of that length, and hands the score back
/// through `record`; when `pending_length` is `None` the answer is in
/// `result`.
pub struct LengthSearch {
    pub max_length: usize,
    pub next_length: usize,
    pub prev_score: Option<i64>,
    pub found: Option<usize>,
}

impl LengthSearch {
    /// Lengths start at one; whatever is found never exceeds the bound.
    pub open spec fn wf(&self) -> bool {
        &&& 1 <= self.next_length
        &&& (self.found is None ==> self.next_length <= self.max_length)
        &&& (match self.found {
            Some(l) => 1 <= l <= self.max_length,
            None => true,
        })
    }

    pub fn new(max_length: usize) -> (r: LengthSearch)
        requires
            max_length >= 1,
        ensures
            r.wf(),
            r.max_length == max_length,
            r.next_length == 1,
            r.prev_score is None,
            r.found is None,
    {
        LengthSearch { max_length, next_length: 1, prev_score: None, found: None }
    }

    /// The length whose filler probe should be measured next, or
    /// `None` once the search has settled on an answer.
    pub fn pending_length(&self) -> (r: Option<usize>)
        requires
            self.wf(),
        ensures
            self.found is None ==> r == Some(self.next_length),
            self.found is Some ==> r is None,
            r matches Some(l) ==> 1 <= l <= self.max_length,
    {
        match self.found {
            None => Some(self.next_length),
            Some(_) => None,
        }
    }

    /// Feeds back the measurement for the pending length.
    ///
    /// A detected change settles the search on the pending length; an
    /// exhausted range settles it on the bound itself; otherwise the
    /// search advances to the next length remembering this score.
    pub fn record<D: ChangeDetector>(&mut self, detector: &D, score: i64)
        requires
            old(self).wf(),
            old(self).found is None,
        ensures
            final(self).wf(),
            final(self).max_length == old(self).max_length,
            ({
                let detected = match old(self).prev_score {
                    Some(p) => detector.spec_changed(p, score),
                    None => false,
                };
                if detected {
                    *final(self) == LengthSearch {
                        found: Some(old(self).next_length),
                        ..*old(self)
                    }
                } else if old(self).next_length == old(self).max_length {
                    *final(self) == LengthSearch {
                        found: Some(old(self).max_length),
                        ..*old(self)
                    }
                } else {
                    *final(self) == LengthSearch {
                        next_length: (old(self).next_length + 1) as usize,
                        prev_score: Some(score),
                        ..*old(self)
                    }
                }
            }),
    {
        let detected: bool = match self.prev_score {
            Some(p) => detector.changed(p, score),
            None => false,
        };
        if detected {
            self.found = Some(self.next_length);
        } else if self.next_length == self.max_length {
            self.found = Some(self.max_length);
        } else {
            self.next_length = self.next_length + 1;
            self.prev_score = Some(score);
        }
    }

    /// The discovered length, once settled: never larger than
    /// `max_length`.
    pub fn result(&self) -> (r: Option<usize>)
        requires
            self.wf(),
        ensures
            r == self.found,
            r matches Some(l) ==> 1 <= l <= self.max_length,
    {
        self.found
    }
}

/// The probe measured during length discovery: `len` copies of the
/// filler character.
pub fn filler_probe(len: usize, filler: char) -> (r: Vec<char>)
    ensures
        r@ == Seq::new(len as nat, |i: int| filler),
{
    let mut r: Vec<char> = Vec::new();
    let mut i: usize = 0;
    while i < len
        invariant
            i <= len,
            r@ == Seq::new(i as nat, |j: int| filler),
        decreases len - i,
    {
        r.push(filler);
        i += 1;
        assert(r@ =~= Seq::new(i as nat, |j: int| filler));
    }
    r
}

} // verus!
