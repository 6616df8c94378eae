use vstd::prelude::*;

use crate::die::DieValue;
use crate::player::PlayerView;
use crate::rules::{
    classify, count_sum, deselected, dice_wf, die_wf, exhausted, faces_valid, fresh_dice,
    is_active, is_three_pairs, locked_count, pairs_upto, pickable, picked_die, rerolled, toggled,
    DieView,
};
use crate::state::RollType;
use crate::turn::{accepts_roll, after_roll, TurnView};

verus! {

/// Every die of a pick pass that began at `start` is as it was at `start`, or
/// was free at `start` and has been picked in this pass.
pub open spec fn in_pass_from(start: Seq<DieView>, s: Seq<DieView>) -> bool {
    &&& s.len() == start.len()
    &&& forall|i: int|
        0 <= i < s.len() ==> #[trigger] s[i] == start[i] || (!start[i].picked && s[i]
            == picked_die(start[i]))
}

/// No die is pending: the state right after a sub-roll.
pub open spec fn no_pending(s: Seq<DieView>) -> bool {
    forall|i: int| 0 <= i < s.len() ==> !(#[trigger] s[i]).picked_this_roll
}

proof fn lemma_count_sum_step(s: Seq<DieView>, n: int)
    requires
        s.len() > 0,
    ensures
        count_sum(s, n) == count_sum(s.drop_last(), n) + if is_active(s.last()) && 1
            <= s.last().value <= n {
            1int
        } else {
            0int
        },
    decreases n,
{
    if n > 0 {
        lemma_count_sum_step(s, n - 1);
    }
}

proof fn lemma_count_sum_empty(s: Seq<DieView>, n: int)
    requires
        s.len() == 0,
    ensures
        count_sum(s, n) == 0,
    decreases n,
{
    if n > 0 {
        lemma_count_sum_empty(s, n - 1);
    }
}

proof fn lemma_count_sum_partition(s: Seq<DieView>)
    requires
        forall|i: int| 0 <= i < s.len() ==> 1 <= (#[trigger] s[i]).value <= 6,
    ensures
        count_sum(s, 6) + locked_count(s) == s.len(),
    decreases s.len(),
{
    if s.len() > 0 {
        let rest = s.drop_last();
        assert forall|i: int| 0 <= i < rest.len() implies 1 <= (#[trigger] rest[i]).value <= 6 by {
            assert(rest[i] == s[i]);
        }
        lemma_count_sum_partition(rest);
        lemma_count_sum_step(s, 6);
        assert(1 <= s[s.len() - 1].value <= 6);
    } else {
        lemma_count_sum_empty(s, 6);
    }
}

/// Every die is either locked by an earlier confirmed pick or counted once
/// among the active counts: the counts of faces 1 to 6 add up to six minus the
/// number of locked dice, and so to at most six.
pub proof fn lemma_counts_cover_dice(s: Seq<DieView>)
    requires
        dice_wf(s),
    ensures
        count_sum(s, 6) == 6 - locked_count(s),
        count_sum(s, 6) <= 6,
{
    assert forall|i: int| 0 <= i < s.len() implies 1 <= (#[trigger] s[i]).value <= 6 by {
        assert(die_wf(s[i]));
    }
    lemma_count_sum_partition(s);
}

proof fn lemma_count_sum_covers_pairs(s: Seq<DieView>, n: int)
    ensures
        count_sum(s, n) >= 2 * pairs_upto(s, n),
    decreases n,
{
    if n > 0 {
        lemma_count_sum_covers_pairs(s, n - 1);
    }
}

/// Three pairs take all six dice: a roll classified as three pairs has no die
/// locked by an earlier pick, so picking all six scores only active dice.
pub proof fn lemma_three_pairs_use_all_dice(s: Seq<DieView>)
    requires
        dice_wf(s),
        classify(s) == RollType::TriplePair,
    ensures
        is_three_pairs(s),
        locked_count(s) == 0,
{
    lemma_counts_cover_dice(s);
    lemma_count_sum_covers_pairs(s, 6);
}

/// A sub-roll leaves no die pending and every die well formed: it starts a
/// fresh pick pass.
pub proof fn lemma_roll_starts_pass(s: Seq<DieView>, faces: Seq<DieValue>)
    requires
        dice_wf(s),
        faces_valid(faces),
    ensures
        dice_wf(rerolled(s, faces)),
        no_pending(rerolled(s, faces)),
{
}

/// Toggling a die keeps the dice within the pick pass that began at `start`.
pub proof fn lemma_toggle_stays_in_pass(start: Seq<DieView>, s: Seq<DieView>, i: int)
    requires
        dice_wf(start),
        no_pending(start),
        in_pass_from(start, s),
        0 <= i < 6,
    ensures
        in_pass_from(start, toggled(s, i)),
{
    let t = toggled(s, i);
    assert forall|j: int| 0 <= j < t.len() implies #[trigger] t[j] == start[j] || (
    !start[j].picked && t[j] == picked_die(start[j])) by {
        if j != i {
            assert(t[j] == s[j]);
        }
    }
}

/// Deselecting within a pick pass gives back the dice as they were when the
/// pass began, right after the sub-roll, and so the same pickable dice.
pub proof fn lemma_deselect_restores_pass(start: Seq<DieView>, s: Seq<DieView>)
    requires
        dice_wf(start),
        no_pending(start),
        in_pass_from(start, s),
    ensures
        deselected(s) == start,
        forall|i: int| 0 <= i < 6 ==> #[trigger] pickable(deselected(s), i) == pickable(start, i),
{
    assert(deselected(s) =~= start);
}

/// Hot dice: when every die is picked, a sub-roll starts over with six free
/// dice showing the faces drawn, and a roll that the turn accepts goes on
/// exactly as from a fresh pool, with the same hand.
pub proof fn lemma_hot_dice(t: TurnView, p: PlayerView, faces: Seq<DieValue>)
    requires
        dice_wf(t.dice),
        exhausted(t.dice),
        faces_valid(faces),
    ensures
        forall|i: int|
            0 <= i < 6 ==> #[trigger] rerolled(t.dice, faces)[i] == (DieView {
                value: faces[i],
                picked: false,
                picked_this_roll: false,
            }),
        rerolled(t.dice, faces) == rerolled(fresh_dice(), faces),
        accepts_roll(t.state) ==> after_roll(t, p, faces) == after_roll(
            TurnView { dice: fresh_dice(), ..t },
            p,
            faces,
        ),
{
    assert(!exhausted(fresh_dice())) by {
        assert(!fresh_dice()[0].picked);
    }
    assert(rerolled(t.dice, faces) =~= rerolled(fresh_dice(), faces));
}

} // verus!
