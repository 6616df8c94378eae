use vstd::prelude::*;

use crate::state::{RollType, ToggleResult};

verus! {

/// The mathematical value of one die: its face and its two selection flags.
pub struct DieView {
    pub value: usize,
    /// Removed from the active pool.
    pub picked: bool,
    /// Picked in the current, not yet confirmed, picking pass.
    pub picked_this_roll: bool,
}

/// A die shows a face from 1 to 6, and is pending only if it is picked.
pub open spec fn die_wf(d: DieView) -> bool {
    &&& 1 <= d.value <= 6
    &&& d.picked_this_roll ==> d.picked
}

/// The die after `pick`.
pub open spec fn picked_die(d: DieView) -> DieView {
    DieView { value: d.value, picked: true, picked_this_roll: true }
}

/// The die after `unpick`.
pub open spec fn unpicked_die(d: DieView) -> DieView {
    DieView { value: d.value, picked: false, picked_this_roll: false }
}

/// Six well-formed dice.
pub open spec fn dice_wf(s: Seq<DieView>) -> bool {
    &&& s.len() == 6
    &&& forall|i: int| 0 <= i < 6 ==> die_wf(#[trigger] s[i])
}

/// A die takes part in classification unless it was locked by an earlier
/// confirmed pick: it is free, or pending in the current pass.
pub open spec fn is_active(d: DieView) -> bool {
    !d.picked || d.picked_this_roll
}

/// A die locked by an earlier confirmed pick.
pub open spec fn is_locked(d: DieView) -> bool {
    d.picked && !d.picked_this_roll
}

/// How many active dice show `face`.
pub open spec fn face_count(s: Seq<DieView>, face: int) -> nat
    decreases s.len(),
{
    if s.len() == 0 {
        0
    } else {
        face_count(s.drop_last(), face) + if is_active(s.last()) && s.last().value == face {
            1nat
        } else {
            0nat
        }
    }
}

/// How many dice are locked.
pub open spec fn locked_count(s: Seq<DieView>) -> nat
    decreases s.len(),
{
    if s.len() == 0 {
        0
    } else {
        locked_count(s.drop_last()) + if is_locked(s.last()) {
            1nat
        } else {
            0nat
        }
    }
}

/// The sum of the active counts of faces 1 to `n`.
pub open spec fn count_sum(s: Seq<DieView>, n: int) -> nat
    decreases n,
{
    if n <= 0 {
        0
    } else {
        count_sum(s, n - 1) + face_count(s, n)
    }
}

/// How many dice of a face a pick needs before that face scores:
/// one for ones and fives, three for the others.
pub open spec fn required_count(face: int) -> nat {
    if face == 1 || face == 5 {
        1
    } else {
        3
    }
}

/// A die may be picked when it is free and its face is active `count` times,
/// at least as often as that face needs.
pub open spec fn die_pickable(d: DieView, count: int) -> bool {
    !d.picked && count >= required_count(d.value as int)
}

/// Die `i` may be picked, by the live counts of `s`.
pub open spec fn pickable(s: Seq<DieView>, i: int) -> bool {
    die_pickable(s[i], face_count(s, s[i].value as int) as int)
}

/// Some die of `s` may be picked.
pub open spec fn any_pickable(s: Seq<DieView>) -> bool {
    exists|i: int| 0 <= i < 6 && pickable(s, i)
}

/// Every die is picked.
pub open spec fn exhausted(s: Seq<DieView>) -> bool {
    forall|i: int| 0 <= i < s.len() ==> (#[trigger] s[i]).picked
}

/// The pool a new roll starts from: dice showing 1 to 6, none picked.
pub open spec fn fresh_dice() -> Seq<DieView> {
    Seq::new(6, |i: int| DieView { value: (i + 1) as usize, picked: false, picked_this_roll: false })
}

/// What toggling die `i` reports.
pub open spec fn toggle_result(s: Seq<DieView>, i: int) -> ToggleResult {
    if s[i].picked {
        if s[i].picked_this_roll {
            ToggleResult::Unpicked
        } else {
            ToggleResult::NotUnpickable
        }
    } else if pickable(s, i) {
        ToggleResult::Picked
    } else {
        ToggleResult::NotPickable
    }
}

/// The dice after toggling die `i`.
pub open spec fn toggled(s: Seq<DieView>, i: int) -> Seq<DieView> {
    match toggle_result(s, i) {
        ToggleResult::Picked => s.update(i, picked_die(s[i])),
        ToggleResult::Unpicked => s.update(i, unpicked_die(s[i])),
        _ => s,
    }
}

/// A die after `deselect`: a pending die is freed, any other is kept.
pub open spec fn deselected_die(d: DieView) -> DieView {
    if d.picked_this_roll {
        unpicked_die(d)
    } else {
        d
    }
}

/// The dice after `deselect`.
pub open spec fn deselected(s: Seq<DieView>) -> Seq<DieView> {
    s.map_values(|d: DieView| deselected_die(d))
}

/// The points of a straight.
pub const STRAIGHT_VALUE: u32 = 3000;

/// The points of three pairs.
pub const TRIPLE_PAIR_VALUE: u32 = 2000;

/// How many dice picked in the current pass show `face`.
pub open spec fn chosen_count(s: Seq<DieView>, face: int) -> nat
    decreases s.len(),
{
    if s.len() == 0 {
        0
    } else {
        chosen_count(s.drop_last(), face) + if s.last().picked_this_roll && s.last().value == face {
            1nat
        } else {
            0nat
        }
    }
}

/// The faces of the dice picked in the current pass, in die order.
pub open spec fn pending_values(s: Seq<DieView>) -> Seq<usize>
    decreases s.len(),
{
    if s.len() == 0 {
        Seq::empty()
    } else if s.last().picked_this_roll {
        pending_values(s.drop_last()).push(s.last().value)
    } else {
        pending_values(s.drop_last())
    }
}

/// Ones and fives score alone; the other faces only in sets of three or more.
pub open spec fn scores_alone(face: int) -> bool {
    face == 1 || face == 5
}

/// The points of `count` picked dice of `face`. A set of three or more scores
/// the triple's worth once for each die past the second; below three, ones
/// score 100 and fives 50 each, and other faces nothing.
pub open spec fn face_score(face: int, count: int) -> int {
    let triple = if face == 1 {
        1000
    } else {
        face * 100
    };
    if count >= 3 {
        triple * (count - 2)
    } else if face == 1 {
        100 * count
    } else if face == 5 {
        50 * count
    } else {
        0
    }
}

/// A pick may be confirmed only if no face other than one or five is picked
/// once or twice.
pub open spec fn pick_is_valid(s: Seq<DieView>) -> bool {
    forall|face: int|
        1 <= face <= 6 && !scores_alone(face) ==> #[trigger] chosen_count(s, face) == 0
            || chosen_count(s, face) >= 3
}

/// The sum of the scores of faces 1 to `n` in the current pass.
pub open spec fn score_upto(s: Seq<DieView>, n: int) -> int
    decreases n,
{
    if n <= 0 {
        0
    } else {
        score_upto(s, n - 1) + face_score(n, chosen_count(s, n) as int)
    }
}

/// The points of the dice picked in the current pass.
pub open spec fn pick_score(s: Seq<DieView>) -> int {
    score_upto(s, 6)
}

/// Each face from 1 to 6 is active exactly `k` times.
pub open spec fn all_counts_are(s: Seq<DieView>, k: nat) -> bool {
    forall|face: int| 1 <= face <= 6 ==> #[trigger] face_count(s, face) == k
}

/// How many of the faces 1 to `n` are active exactly twice.
pub open spec fn pairs_upto(s: Seq<DieView>, n: int) -> nat
    decreases n,
{
    if n <= 0 {
        0
    } else {
        pairs_upto(s, n - 1) + if face_count(s, n) == 2 {
            1nat
        } else {
            0nat
        }
    }
}

/// Three pairs: exactly three faces are active twice each.
pub open spec fn is_three_pairs(s: Seq<DieView>) -> bool {
    pairs_upto(s, 6) == 3
}

/// What a roll is, by its active counts.
pub open spec fn classify(s: Seq<DieView>) -> RollType {
    if all_counts_are(s, 1) {
        RollType::Straight
    } else if is_three_pairs(s) {
        RollType::TriplePair
    } else if any_pickable(s) {
        RollType::Simple
    } else {
        RollType::Farkle
    }
}

/// The points a whole-roll pattern is worth.
pub open spec fn pattern_value(t: RollType) -> int {
    match t {
        RollType::Straight => STRAIGHT_VALUE as int,
        RollType::TriplePair => TRIPLE_PAIR_VALUE as int,
        _ => 0,
    }
}

/// A straight or three pairs: the whole roll scores at once.
pub open spec fn is_pattern(t: RollType) -> bool {
    t is Straight || t is TriplePair
}

/// Every die picked, in the current pass.
pub open spec fn all_picked(s: Seq<DieView>) -> Seq<DieView> {
    s.map_values(|d: DieView| picked_die(d))
}

/// The faces of all dice, in die order.
pub open spec fn face_values(s: Seq<DieView>) -> Seq<usize> {
    s.map_values(|d: DieView| d.value)
}

/// Six faces, each from 1 to 6.
pub open spec fn faces_valid(faces: Seq<usize>) -> bool {
    &&& faces.len() == 6
    &&& forall|i: int| 0 <= i < 6 ==> 1 <= #[trigger] faces[i] <= 6
}

/// The pool a sub-roll starts from: a fresh one when every die is picked
/// (hot dice), else the current one.
pub open spec fn roll_start(s: Seq<DieView>) -> Seq<DieView> {
    if exhausted(s) {
        fresh_dice()
    } else {
        s
    }
}

/// A die after a sub-roll: a free die shows `face`; a picked one keeps its face
/// and is no longer pending.
pub open spec fn rerolled_die(d: DieView, face: usize) -> DieView {
    if d.picked {
        DieView { value: d.value, picked: true, picked_this_roll: false }
    } else {
        DieView { value: face, picked: false, picked_this_roll: false }
    }
}

/// The dice after a sub-roll in which free die `i` comes up `faces[i]`.
pub open spec fn rerolled(s: Seq<DieView>, faces: Seq<usize>) -> Seq<DieView> {
    Seq::new(6, |i: int| rerolled_die(roll_start(s)[i], faces[i]))
}

/// No active count exceeds the number of dice.
pub proof fn lemma_face_count_bound(s: Seq<DieView>, face: int)
    ensures
        face_count(s, face) <= s.len(),
    decreases s.len(),
{
    if s.len() > 0 {
        lemma_face_count_bound(s.drop_last(), face);
    }
}

/// No count of picked dice exceeds the number of dice.
pub proof fn lemma_chosen_count_bound(s: Seq<DieView>, face: int)
    ensures
        chosen_count(s, face) <= s.len(),
    decreases s.len(),
{
    if s.len() > 0 {
        lemma_chosen_count_bound(s.drop_last(), face);
    }
}

} // verus!
