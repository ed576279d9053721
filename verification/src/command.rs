//! The probe builder: turns a prefix snapshot plus a candidate into
//! the exact input handed to the target.
//!
//! Probe shape directly affects the measured scores, so the
//! concatenation and padding order is part of the engine's contract:
//! the literal opening, then the prefix padded up to the configured
//! length, then the literal ending.

use vstd::prelude::*;

verus! {

/// `p` extended with copies of `pad` up to `length` characters; a
/// prefix already that long passes through unchanged.
pub open spec fn padded_to(p: Seq<char>, length: int, pad: char) -> Seq<char> {
    if p.len() >= length {
        p
    } else {
        p + Seq::new((length - p.len()) as nat, |i: int| pad)
    }
}

/// Builds probes: literal `input_beg`, the padded prefix, literal
/// `input_end`.
#[derive(Clone)]
pub struct InputPreparer {
    pub input_beg: Vec<char>,
    pub input_end: Vec<char>,
    pub length: usize,
    pub padding: char,
}

impl InputPreparer {
    pub fn new(input_beg: Vec<char>, input_end: Vec<char>, length: usize, padding: char) -> (r:
        InputPreparer)
        ensures
            r.input_beg@ == input_beg@,
            r.input_end@ == input_end@,
            r.length == length,
            r.padding == padding,
    {
        InputPreparer { input_beg, input_end, length, padding }
    }

    /// The full input for one measurement of `prefix`.
    pub fn prepare(&self, prefix: &Vec<char>) -> (r: Vec<char>)
        ensures
            r@ == self.input_beg@ + padded_to(prefix@, self.length as int, self.padding)
                + self.input_end@,
    {
        let mut r: Vec<char> = Vec::new();
        let mut i: usize = 0;
        while i < self.input_beg.len()
            invariant
                i <= self.input_beg@.len(),
                r@ == self.input_beg@.take(i as int),
            decreases self.input_beg@.len() - i,
        {
            r.push(self.input_beg[i]);
            i += 1;
            assert(r@ =~= self.input_beg@.take(i as int));
        }
        assert(r@ =~= self.input_beg@);

        let mut j: usize = 0;
        while j < prefix.len()
            invariant
                j <= prefix@.len(),
                r@ == self.input_beg@ + prefix@.take(j as int),
            decreases prefix@.len() - j,
        {
            r.push(prefix[j]);
            j += 1;
            assert(r@ =~= self.input_beg@ + prefix@.take(j as int));
        }
        assert(r@ =~= self.input_beg@ + prefix@);

        let mut n: usize = prefix.len();
        while n < self.length
            invariant
                n <= self.length || n == prefix@.len(),
                n >= prefix@.len(),
                r@ == self.input_beg@ + prefix@ + Seq::new(
                    (n - prefix@.len()) as nat,
                    |i: int| self.padding,
                ),
            decreases self.length - n,
        {
            r.push(self.padding);
            n += 1;
            assert(r@ =~= self.input_beg@ + prefix@ + Seq::new(
                (n - prefix@.len()) as nat,
                |i: int| self.padding,
            ));
        }
        proof {
            if prefix@.len() >= self.length {
                assert(n == prefix@.len());
                assert(Seq::new((n - prefix@.len()) as nat, |i: int| self.padding)
                    =~= Seq::<char>::empty());
                assert(r@ =~= self.input_beg@ + padded_to(
                    prefix@,
                    self.length as int,
                    self.padding,
                ));
            } else {
                assert(n == self.length);
                assert(r@ =~= self.input_beg@ + padded_to(
                    prefix@,
                    self.length as int,
                    self.padding,
                ));
            }
        }

        let mut k: usize = 0;
        let ghost mid = self.input_beg@ + padded_to(prefix@, self.length as int, self.padding);
        while k < self.input_end.len()
            invariant
                k <= self.input_end@.len(),
                r@ == mid + self.input_end@.take(k as int),
            decreases self.input_end@.len() - k,
        {
            r.push(self.input_end[k]);
            k += 1;
            assert(r@ =~= mid + self.input_end@.take(k as int));
        }
        assert(r@ =~= mid + self.input_end@);
        r
    }
}

} // verus!
