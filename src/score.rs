//! Keeping the score from the collisions of a tick.
use vstd::prelude::*;
use crate::collision::{CollisionSignal, Goal};

verus! {

/// What a hit on a collider does to the score.
pub open spec fn goal_delta(goal: Goal) -> int {
    match goal {
        Goal::Plain => 0,
        Goal::Player => -1,
        Goal::Computer => 1,
    }
}

/// The score after each signal of `signals` is applied in order.
pub open spec fn score_after(score: int, signals: Seq<CollisionSignal>) -> int
    decreases signals.len(),
{
    if signals.len() == 0 {
        score
    } else {
        score_after(score, signals.drop_last()) + goal_delta(signals.last().goal)
    }
}

/// The score after a hit on a collider with tag `goal`.
pub fn apply_goal(score: i64, goal: Goal) -> (r: i64)
    requires
        i64::MIN < score < i64::MAX,
    ensures
        r == score + goal_delta(goal),
{
    match goal {
        Goal::Plain => score,
        Goal::Player => score - 1,
        Goal::Computer => score + 1,
    }
}

/// Signals move the score by at most one each.
pub proof fn lemma_score_change_bound(score: int, signals: Seq<CollisionSignal>)
    ensures
        score - signals.len() <= score_after(score, signals) <= score + signals.len(),
    decreases signals.len(),
{
    if signals.len() > 0 {
        lemma_score_change_bound(score, signals.drop_last());
    }
}

/// The score after the signals of one tick, applied in order.
pub fn update_score(score: i64, signals: &Vec<CollisionSignal>) -> (r: i64)
    requires
        i64::MIN + signals@.len() <= score <= i64::MAX - signals@.len(),
    ensures
        r == score_after(score as int, signals@),
{
    let mut s = score;
    let mut i: usize = 0;
    while i < signals.len()
        invariant
            i <= signals@.len(),
            i64::MIN + signals@.len() <= score <= i64::MAX - signals@.len(),
            s == score_after(score as int, signals@.subrange(0, i as int)),
        decreases signals@.len() - i,
    {
        proof {
            lemma_score_change_bound(score as int, signals@.subrange(0, i as int));
        }
        assert(signals@.subrange(0, i as int + 1).drop_last() =~= signals@.subrange(0, i as int));
        s = apply_goal(s, signals[i].goal);
        i = i + 1;
    }
    assert(signals@.subrange(0, signals@.len() as int) =~= signals@);
    s
}

/// A hit on the player's goal costs one point, a hit on the computer's goal
/// earns one, and any other hit leaves the score as it was.
pub proof fn lemma_goal_scoring(score: int, signal: CollisionSignal)
    ensures
        signal.goal == Goal::Player ==> score_after(score, seq![signal]) == score - 1,
        signal.goal == Goal::Computer ==> score_after(score, seq![signal]) == score + 1,
        signal.goal == Goal::Plain ==> score_after(score, seq![signal]) == score,
{
    let s = seq![signal];
    assert(s.drop_last() =~= Seq::<CollisionSignal>::empty());
    assert(score_after(score, s.drop_last()) == score);
    assert(s.last() == signal);
    assert(score_after(score, s) == score + goal_delta(signal.goal));
}

} // verus!
