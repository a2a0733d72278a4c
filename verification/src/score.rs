//! The rule by which the high score moves, and what follows from it.

use vstd::prelude::*;

verus! {

/// The high score after `score` is submitted against `high`: the larger of the two.
pub open spec fn record(high: nat, score: nat) -> nat {
    if score > high {
        score
    } else {
        high
    }
}

/// The high score after the submissions `scores` are applied to `high` one by
/// one, the first of them first.
pub open spec fn replay(high: nat, scores: Seq<nat>) -> nat
    decreases scores.len(),
{
    if scores.len() == 0 {
        high
    } else {
        record(replay(high, scores.drop_last()), scores.last())
    }
}

/// Whether `top` is the greatest among `high` and the members of `scores`:
/// none of them exceeds it, and it is one of them.
pub open spec fn is_greatest(top: nat, high: nat, scores: Seq<nat>) -> bool {
    &&& high <= top
    &&& forall|i: int| 0 <= i < scores.len() ==> scores[i] <= top
    &&& (top == high || exists|i: int| 0 <= i < scores.len() && scores[i] == top)
}

/// A history of submissions leaves the greatest of the starting high score
/// and all submitted scores, whatever their order.
pub proof fn lemma_replay_is_greatest(high: nat, scores: Seq<nat>)
    ensures
        is_greatest(replay(high, scores), high, scores),
    decreases scores.len(),
{
    if scores.len() > 0 {
        let earlier = scores.drop_last();
        lemma_replay_is_greatest(high, earlier);
        let before = replay(high, earlier);
        let top = replay(high, scores);
        assert forall|i: int| 0 <= i < scores.len() implies scores[i] <= top by {
            if i < earlier.len() {
                assert(earlier[i] == scores[i]);
            }
        }
        if top != high {
            if top == scores.last() {
                assert(scores[scores.len() - 1] == top);
            } else {
                let i = choose|i: int| 0 <= i < earlier.len() && earlier[i] == before;
                assert(scores[i] == top);
            }
        }
    }
}

/// Submitting a score a second time, right after the first, changes nothing:
/// after the first submission the high score is at least that score. The
/// same holds at the end of any history.
pub proof fn lemma_record_idempotent(high: nat, scores: Seq<nat>, score: nat)
    ensures
        record(record(high, score), score) == record(high, score),
        replay(high, scores.push(score).push(score)) == replay(high, scores.push(score)),
{
    let once = scores.push(score);
    let twice = once.push(score);
    assert(once.drop_last() == scores);
    assert(twice.drop_last() == once);
}

/// A score that does not beat the high score leaves it exactly as it is.
pub proof fn lemma_record_no_op(high: nat, score: nat)
    requires
        score <= high,
    ensures
        record(high, score) == high,
{
}

/// The high score never decreases, neither by one submission nor by any
/// history of them.
pub proof fn lemma_replay_never_decreases(high: nat, scores: Seq<nat>)
    ensures
        high <= replay(high, scores),
        forall|score: nat| high <= #[trigger] record(high, score),
{
    lemma_replay_is_greatest(high, scores);
}

} // verus!
