//! Round resolution: winner selection, constraint checks, and the
//! decision to continue, finish, or abort the search.
//!
//! A round ends when the candidate set has drained; the coordinator
//! then picks the winning character from the score board, appends it
//! to the discovered prefix, checks the known-plaintext constraints,
//! and either reseeds the next round or stops.

use vstd::prelude::*;

use crate::workers::ThreadsData;

verus! {

/// The configuration the round engine reads: the alphabet seeded each
/// round, the target length, and optional known-plaintext constraints.
pub struct SolverConfig {
    pub alphabet: Vec<char>,
    pub length: usize,
    pub starts_with: Vec<char>,
    pub ends_with: Vec<char>,
}

impl SolverConfig {
    /// A suffix constraint longer than the password itself is
    /// meaningless; the engine requires it to fit.
    pub open spec fn wf(&self) -> bool {
        self.ends_with@.len() <= self.length
    }
}

/// What a resolved round decides.
#[derive(PartialEq, Eq, Structural, Clone, Copy, Debug)]
pub enum RoundOutcome {
    /// The prefix grew and is still short of the target: run another round.
    Continue,
    /// The prefix reached the target length: the search is over.
    Done,
    /// The prefix contradicts a configured constraint: stop the whole run.
    Abort,
}

/// The record a round keeps: the character with the highest score, and
/// among equal highest scores the one pushed onto the board latest.
///
/// This matches sorting the board ascending by score with a stable sort
/// and taking the last element.
pub open spec fn spec_winner(board: Seq<(i64, char)>) -> (i64, char)
    recommends
        board.len() > 0,
    decreases board.len(),
{
    if board.len() <= 1 {
        board[0]
    } else if board.last().0 >= spec_winner(board.drop_last()).0 {
        board.last()
    } else {
        spec_winner(board.drop_last())
    }
}

/// The winner sits on the board, carries its maximum score, and every
/// later record scores strictly lower: the latest maximum wins ties.
pub proof fn lemma_winner_latest_max(board: Seq<(i64, char)>)
    requires
        board.len() > 0,
    ensures
        exists|i: int|
            {
                &&& 0 <= i < board.len()
                &&& board[i] == spec_winner(board)
                &&& (forall|j: int| 0 <= j < board.len() ==> (#[trigger] board[j]).0 <= board[i].0)
                &&& (forall|j: int| i < j < board.len() ==> (#[trigger] board[j]).0 < board[i].0)
            },
    decreases board.len(),
{
    if board.len() == 1 {
        let i: int = 0;
        assert({
            &&& 0 <= i < board.len()
            &&& board[i] == spec_winner(board)
            &&& (forall|j: int| 0 <= j < board.len() ==> (#[trigger] board[j]).0 <= board[i].0)
            &&& (forall|j: int| i < j < board.len() ==> (#[trigger] board[j]).0 < board[i].0)
        });
    } else {
        let rest = board.drop_last();
        lemma_winner_latest_max(rest);
        let k = choose|k: int|
            {
                &&& 0 <= k < rest.len()
                &&& rest[k] == spec_winner(rest)
                &&& (forall|j: int| 0 <= j < rest.len() ==> (#[trigger] rest[j]).0 <= rest[k].0)
                &&& (forall|j: int| k < j < rest.len() ==> (#[trigger] rest[j]).0 < rest[k].0)
            };
        assert(forall|j: int| 0 <= j < rest.len() ==> rest[j] == (#[trigger] board[j]));
        if board.last().0 >= spec_winner(rest).0 {
            let i: int = board.len() - 1;
            assert(board[i] == spec_winner(board));
            assert(forall|j: int| 0 <= j < board.len() - 1 ==> (#[trigger] board[j]).0 <= rest[k].0);
            assert({
                &&& 0 <= i < board.len()
                &&& board[i] == spec_winner(board)
                &&& (forall|j: int| 0 <= j < board.len() ==> (#[trigger] board[j]).0 <= board[i].0)
                &&& (forall|j: int| i < j < board.len() ==> (#[trigger] board[j]).0 < board[i].0)
            });
        } else {
            let i: int = k;
            assert(board[i] == spec_winner(board));
            assert({
                &&& 0 <= i < board.len()
                &&& board[i] == spec_winner(board)
                &&& (forall|j: int| 0 <= j < board.len() ==> (#[trigger] board[j]).0 <= board[i].0)
                &&& (forall|j: int| i < j < board.len() ==> (#[trigger] board[j]).0 < board[i].0)
            });
        }
    }
}

/// Picks the round winner from the score board in one pass: the record
/// with the highest score, ties going to the latest-inserted one.
pub fn select_winner(board: &Vec<(i64, char)>) -> (r: (i64, char))
    requires
        board@.len() > 0,
    ensures
        r == spec_winner(board@),
{
    let mut best: (i64, char) = board[0];
    let mut i: usize = 1;
    assert(board@.take(1) =~= seq![board@[0]]);
    while i < board.len()
        invariant
            1 <= i <= board@.len(),
            best == spec_winner(board@.take(i as int)),
        decreases board@.len() - i,
    {
        let cand: (i64, char) = board[i];
        proof {
            let t = board@.take(i + 1 as int);
            assert(t.drop_last() =~= board@.take(i as int));
            assert(t.last() == board@[i as int]);
        }
        if cand.0 >= best.0 {
            best = cand;
        }
        i += 1;
    }
    assert(board@.take(board@.len() as int) =~= board@);
    best
}

/// The prefix agrees with the required opening wherever they overlap.
pub open spec fn starts_with_ok(p: Seq<char>, s: Seq<char>) -> bool {
    forall|i: int| #![trigger p[i]] 0 <= i < p.len() && i < s.len() ==> p[i] == s[i]
}

/// The prefix agrees with the required ending wherever it has reached
/// the suffix window, the final `e.len()` positions of the password.
pub open spec fn ends_with_ok(p: Seq<char>, e: Seq<char>, length: int) -> bool
    recommends
        e.len() <= length,
{
    forall|i: int| #![trigger p[i]]
        length - e.len() <= i < p.len() ==> p[i] == e[i - (length - e.len())]
}

/// Byte-for-byte comparison of the prefix against the `starts_with`
/// constraint over their overlap.
pub fn check_starts_with(p: &Vec<char>, s: &Vec<char>) -> (r: bool)
    ensures
        r == starts_with_ok(p@, s@),
{
    let n: usize = if p.len() < s.len() {
        p.len()
    } else {
        s.len()
    };
    let mut i: usize = 0;
    while i < n
        invariant
            i <= n,
            n <= p@.len(),
            n <= s@.len(),
            n == if p@.len() < s@.len() {
                p@.len()
            } else {
                s@.len()
            },
            forall|j: int| #![trigger p@[j]] 0 <= j < i ==> p@[j] == s@[j],
        decreases n - i,
    {
        if p[i] != s[i] {
            assert(!starts_with_ok(p@, s@));
            return false;
        }
        i += 1;
    }
    true
}

/// Comparison of the prefix against the `ends_with` constraint over
/// the part of the suffix window the prefix has reached.
pub fn check_ends_with(p: &Vec<char>, e: &Vec<char>, length: usize) -> (r: bool)
    requires
        e@.len() <= length,
        p@.len() <= length,
    ensures
        r == ends_with_ok(p@, e@, length as int),
{
    let start: usize = length - e.len();
    let mut i: usize = start;
    if p.len() <= start {
        return true;
    }
    while i < p.len()
        invariant
            start == length - e@.len(),
            start <= i,
            p@.len() <= length,
            forall|j: int| #![trigger p@[j]] start <= j < i ==> p@[j] == e@[j - start],
        decreases p@.len() - i,
    {
        if p[i] != e[i - start] {
            assert(!ends_with_ok(p@, e@, length as int));
            return false;
        }
        i += 1;
    }
    true
}

/// Resolves a drained round.
///
/// The winning character is appended to the discovered prefix, the
/// prefix is held against both constraints, and the outcome says
/// whether the search reseeds, finishes, or aborts.  The prefix always
/// grows by exactly one character; on `Continue` the candidate set is
/// refilled from the alphabet and the score board is emptied, while on
/// `Done` and `Abort` both are left as they were.
pub fn process_found_chars(cfg: &SolverConfig, data: &mut ThreadsData) -> (r: RoundOutcome)
    requires
        cfg.wf(),
        old(data).processed_chars@.len() > 0,
        old(data).found_password_prefix@.len() < cfg.length,
    ensures
        final(data).found_password_prefix@ == old(data).found_password_prefix@.push(
            spec_winner(old(data).processed_chars@).1,
        ),
        final(data).found_password_prefix@.len() == old(data).found_password_prefix@.len() + 1,
        final(data).found_password_prefix@.len() <= cfg.length,
        ({
            let p = final(data).found_password_prefix@;
            let ok = starts_with_ok(p, cfg.starts_with@) && ends_with_ok(
                p,
                cfg.ends_with@,
                cfg.length as int,
            );
            &&& (r == RoundOutcome::Abort <==> !ok)
            &&& (r == RoundOutcome::Done <==> ok && p.len() == cfg.length)
            &&& (r == RoundOutcome::Continue <==> ok && p.len() < cfg.length)
        }),
        r == RoundOutcome::Continue ==> final(data).chars_to_process@ == cfg.alphabet@
            && final(data).processed_chars@ =~= Seq::<(i64, char)>::empty(),
        r != RoundOutcome::Continue ==> final(data).chars_to_process@ == old(
            data,
        ).chars_to_process@ && final(data).processed_chars@ == old(data).processed_chars@,
{
    let winner: (i64, char) = select_winner(&data.processed_chars);
    data.found_password_prefix.push(winner.1);

    if !check_starts_with(&data.found_password_prefix, &cfg.starts_with) {
        return RoundOutcome::Abort;
    }
    if !check_ends_with(&data.found_password_prefix, &cfg.ends_with, cfg.length) {
        return RoundOutcome::Abort;
    }

    if data.found_password_prefix.len() == cfg.length {
        return RoundOutcome::Done;
    }

    data.start_round(&cfg.alphabet);
    RoundOutcome::Continue
}

} // verus!
