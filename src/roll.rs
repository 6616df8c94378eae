use rand::Rng;
use vstd::prelude::*;

use crate::die::{Die, DieValue};
use crate::rules::{
    all_counts_are, all_picked, chosen_count, classify, deselected, deselected_die,
    dice_wf, die_pickable, exhausted, face_count, face_score, face_values, faces_valid, fresh_dice,
    is_pattern, is_three_pairs, lemma_chosen_count_bound, lemma_face_count_bound, pairs_upto,
    pattern_value, pending_values,
    pick_is_valid, pick_score, pickable, picked_die, rerolled, rerolled_die, roll_start,
    scores_alone, score_upto, toggle_result, toggled, unpicked_die, DieView, STRAIGHT_VALUE,
    TRIPLE_PAIR_VALUE,
};
use crate::selection::Selection;
use crate::state::{RollType, ToggleResult};

verus! {

const ONE_VALUE: u32 = 100;

const ONE_SET_VALUE: u32 = 1000;

const FIVE_VALUE: u32 = 50;

const FIVE_SET_VALUE: u32 = 500;

const SET_SCALE_VALUE: u32 = 100;

/// Relies on rand's `thread_rng` and `Rng::gen_range` over the inclusive range
/// 1 to 6: the face drawn lies in that range.
#[verifier::external_body]
fn random_face() -> (r: DieValue)
    ensures
        1 <= r <= 6,
{
    rand::thread_rng().gen_range(1..=6)
}

/// The points of `count` picked dice showing `face`.
fn face_points(face: u32, count: u32) -> (r: u32)
    requires
        1 <= face <= 6,
        count <= 6,
    ensures
        r == face_score(face as int, count as int),
        r <= 4000,
{
    if count >= 3 {
        if face == 1 {
            ONE_SET_VALUE * (count - 2)
        } else if face == 5 {
            FIVE_SET_VALUE * (count - 2)
        } else {
            assert(face * 100 * (count - 2) <= 2400) by (nonlinear_arith)
                requires
                    face <= 6,
                    3 <= count <= 6,
            ;
            face * SET_SCALE_VALUE * (count - 2)
        }
    } else if face == 1 {
        ONE_VALUE * count
    } else if face == 5 {
        FIVE_VALUE * count
    } else {
        0
    }
}

/// The pool of six dice of the current sub-roll, addressed by index 0 to 5.
#[derive(Debug)]
pub struct Roll {
    dice: [Die; 6],
}

impl View for Roll {
    type V = Seq<DieView>;

    closed spec fn view(&self) -> Seq<DieView> {
        self.dice@.map_values(|d: Die| d@)
    }
}

impl Default for Roll {
    /// A fresh pool: dice showing 1 to 6, none picked.
    fn default() -> (r: Roll)
        ensures
            r@ == fresh_dice(),
            r.wf(),
    {
        let r = Roll {
            dice: [
                Die::new_with_value(1),
                Die::new_with_value(2),
                Die::new_with_value(3),
                Die::new_with_value(4),
                Die::new_with_value(5),
                Die::new_with_value(6),
            ],
        };
        assert(r@ =~= fresh_dice());
        r
    }
}

impl Roll {
    /// Six dice, each showing 1 to 6 and pending only if picked.
    pub open spec fn wf(&self) -> bool {
        dice_wf(self@)
    }

    proof fn lemma_view_index(&self, i: int)
        requires
            0 <= i < 6,
        ensures
            self@.len() == 6,
            self@[i] == self.dice[i]@,
    {
    }

    fn is_exhausted(&self) -> (r: bool)
        requires
            self.wf(),
        ensures
            r == exhausted(self@),
    {
        let mut i: usize = 0;
        while i < 6
            invariant
                0 <= i <= 6,
                self.wf(),
                forall|j: int| 0 <= j < i ==> (#[trigger] self@[j]).picked,
            decreases 6 - i,
        {
            proof {
                self.lemma_view_index(i as int);
            }
            if !self.dice[i].picked() {
                return false;
            }
            i += 1;
        }
        true
    }

    /// For each face `f` from 1 to 6, at index `f - 1`, how many active dice show it.
    pub fn count_values(&self) -> (res: [usize; 6])
        requires
            self.wf(),
        ensures
            forall|f: int| 0 <= f < 6 ==> #[trigger] res[f] == face_count(self@, f + 1),
    {
        let mut res = [0usize; 6];
        let mut i: usize = 0;
        while i < 6
            invariant
                0 <= i <= 6,
                self.wf(),
                forall|f: int|
                    0 <= f < 6 ==> #[trigger] res[f] == face_count(self@.take(i as int), f + 1),
            decreases 6 - i,
        {
            proof {
                self.lemma_view_index(i as int);
                assert(self@.take(i + 1).drop_last() =~= self@.take(i as int));
                assert forall|f: int| 0 <= f < 6 implies res[f] <= i by {
                    lemma_face_count_bound(self@.take(i as int), f + 1);
                }
            }
            let die = &self.dice[i];
            if !die.picked() || die.picked_this_roll() {
                let v = die.value();
                res[v - 1] = res[v - 1] + 1;
            }
            i += 1;
        }
        assert(self@.take(6) =~= self@);
        res
    }

    /// Which dice may be picked, by the given active counts, or by the roll's
    /// own when none are given.
    pub fn determine_pickable(&self, occurrences: Option<&[usize; 6]>) -> (res: [bool; 6])
        requires
            self.wf(),
        ensures
            forall|i: int|
                0 <= i < 6 ==> #[trigger] res[i] == match occurrences {
                    Some(c) => die_pickable(self@[i], c[self@[i].value - 1] as int),
                    None => pickable(self@, i),
                },
            forall|i: int| 0 <= i < 6 && #[trigger] res[i] ==> !self@[i].picked,
    {
        let mut res = [false; 6];
        let counts = match occurrences {
            Some(c) => *c,
            None => self.count_values(),
        };
        let mut i: usize = 0;
        while i < 6
            invariant
                0 <= i <= 6,
                self.wf(),
                forall|f: int|
                    0 <= f < 6 ==> #[trigger] counts[f] == match occurrences {
                        Some(c) => c[f] as int,
                        None => face_count(self@, f + 1) as int,
                    },
                forall|j: int|
                    0 <= j < i ==> #[trigger] res[j] == die_pickable(
                        self@[j],
                        counts[self@[j].value - 1] as int,
                    ),
            decreases 6 - i,
        {
            proof {
                self.lemma_view_index(i as int);
            }
            let die = &self.dice[i];
            let required: usize = if die.value() == 1 || die.value() == 5 {
                1
            } else {
                3
            };
            let count = counts[die.value() - 1];
            res[i] = !die.picked() && count >= required;
            i += 1;
        }
        res
    }

    fn pick_die(&mut self, die: usize) -> (r: bool)
        requires
            old(self).wf(),
            die < 6,
        ensures
            r == pickable(old(self)@, die as int),
            final(self)@ == if r {
                old(self)@.update(die as int, picked_die(old(self)@[die as int]))
            } else {
                old(self)@
            },
            final(self).wf(),
    {
        let allowed = self.determine_pickable(None);
        if allowed[die] {
            self.dice[die].pick();
            assert(self@ =~= old(self)@.update(die as int, picked_die(old(self)@[die as int])));
            return true;
        }
        false
    }

    fn unpick_die(&mut self, die: usize) -> (r: bool)
        requires
            old(self).wf(),
            die < 6,
        ensures
            r == old(self)@[die as int].picked_this_roll,
            final(self)@ == if r {
                old(self)@.update(die as int, unpicked_die(old(self)@[die as int]))
            } else {
                old(self)@
            },
            final(self).wf(),
    {
        proof {
            self.lemma_view_index(die as int);
        }
        if self.dice[die].picked_this_roll() {
            self.dice[die].unpick();
            assert(self@ =~= old(self)@.update(die as int, unpicked_die(old(self)@[die as int])));
            return true;
        }
        false
    }

    /// Frees every die picked in the current pass; dice locked by an earlier
    /// confirmed pick stay as they are.
    pub fn deselect(&mut self)
        requires
            old(self).wf(),
        ensures
            final(self)@ == deselected(old(self)@),
            final(self).wf(),
    {
        let mut i: usize = 0;
        while i < 6
            invariant
                0 <= i <= 6,
                self.wf(),
                old(self).wf(),
                forall|j: int| 0 <= j < i ==> #[trigger] self@[j] == deselected_die(old(self)@[j]),
                forall|j: int| i <= j < 6 ==> #[trigger] self@[j] == old(self)@[j],
            decreases 6 - i,
        {
            self.unpick_die(i);
            i += 1;
        }
        assert(self@ =~= deselected(old(self)@));
    }

    /// Picks die `die` if it is free and may be picked, or frees it if it was
    /// picked in the current pass; reports which, or why neither was done.
    pub fn toggle_die(&mut self, die: usize) -> (r: ToggleResult)
        requires
            old(self).wf(),
            die < 6,
        ensures
            r == toggle_result(old(self)@, die as int),
            final(self)@ == toggled(old(self)@, die as int),
            final(self).wf(),
    {
        proof {
            self.lemma_view_index(die as int);
        }
        if self.dice[die].picked() {
            if self.unpick_die(die) {
                ToggleResult::Unpicked
            } else {
                ToggleResult::NotUnpickable
            }
        } else if self.pick_die(die) {
            ToggleResult::Picked
        } else {
            ToggleResult::NotPickable
        }
    }

    /// Starts a sub-roll in which free die `i` comes up `faces[i]`. When every
    /// die is picked, the pool is first replaced by a fresh one (hot dice).
    /// Picked dice keep their faces and are no longer pending.
    pub fn new_roll_with(&mut self, faces: &[DieValue; 6])
        requires
            old(self).wf(),
            faces_valid(faces@),
        ensures
            final(self)@ == rerolled(old(self)@, faces@),
            final(self).wf(),
    {
        if self.is_exhausted() {
            *self = Roll::default();
        }
        let ghost start = self@;
        let mut i: usize = 0;
        while i < 6
            invariant
                0 <= i <= 6,
                self.wf(),
                faces_valid(faces@),
                start == roll_start(old(self)@),
                dice_wf(start),
                forall|j: int| 0 <= j < i ==> #[trigger] self@[j] == rerolled_die(start[j], faces@[j]),
                forall|j: int| i <= j < 6 ==> #[trigger] self@[j] == start[j],
            decreases 6 - i,
        {
            proof {
                self.lemma_view_index(i as int);
            }
            let ghost before = self@;
            if self.dice[i].picked() {
                self.dice[i].settle();
            } else {
                self.dice[i].set_value(faces[i]);
            }
            assert(self@ =~= before.update(i as int, rerolled_die(start[i as int], faces@[i as int])));
            i += 1;
        }
        assert(self@ =~= rerolled(old(self)@, faces@));
    }

    /// Starts a sub-roll with faces drawn at random for the free dice. When every
    /// die is picked, the pool is first replaced by a fresh one (hot dice).
    pub fn new_roll(&mut self)
        requires
            old(self).wf(),
        ensures
            exists|faces: Seq<DieValue>|
                faces_valid(faces) && final(self)@ == #[trigger] rerolled(old(self)@, faces),
            final(self).wf(),
    {
        let faces = Roll::draw_faces();
        self.new_roll_with(&faces);
    }

    /// Six faces drawn at random, one for each die.
    pub(crate) fn draw_faces() -> (faces: [DieValue; 6])
        ensures
            faces_valid(faces@),
    {
        let mut faces = [1usize; 6];
        let mut i: usize = 0;
        while i < 6
            invariant
                0 <= i <= 6,
                faces_valid(faces@),
            decreases 6 - i,
        {
            faces[i] = random_face();
            i += 1;
        }
        faces
    }

    /// Classifies the roll. A straight (every face active once) or three pairs
    /// (three faces active twice each) picks all six dice and returns them as a
    /// selection worth 3000 or 2000. Otherwise nothing changes and the
    /// selection is empty: the roll is simple if some die may be picked, and a
    /// farkle if none may.
    pub fn determine_type(&mut self) -> (r: (Selection, RollType))
        requires
            old(self).wf(),
        ensures
            r.1 == classify(old(self)@),
            is_pattern(r.1) ==> {
                &&& final(self)@ == all_picked(old(self)@)
                &&& r.0@.values == face_values(old(self)@)
                &&& r.0@.value == pattern_value(r.1)
                &&& r.0@.value > 0
            },
            !is_pattern(r.1) ==> {
                &&& final(self)@ == old(self)@
                &&& r.0@.values == Seq::<DieValue>::empty()
                &&& r.0@.value == 0
            },
            final(self).wf(),
    {
        let counts = self.count_values();
        let ghost s = self@;
        let mut is_straight = true;
        let mut pairs: usize = 0;
        let mut i: usize = 0;
        while i < 6
            invariant
                0 <= i <= 6,
                forall|f: int| 0 <= f < 6 ==> #[trigger] counts[f] == face_count(s, f + 1),
                is_straight == forall|f: int| 0 <= f < i ==> #[trigger] counts[f] == 1,
                pairs == pairs_upto(s, i as int),
                pairs <= i,
            decreases 6 - i,
        {
            if counts[i] != 1 {
                is_straight = false;
            }
            if counts[i] == 2 {
                pairs += 1;
            }
            i += 1;
        }
        let is_triple_pair = pairs == 3;
        assert(is_straight == all_counts_are(s, 1)) by {
            if is_straight {
                assert forall|face: int| 1 <= face <= 6 implies #[trigger] face_count(s, face)
                    == 1 by {
                    assert(counts[face - 1] == 1);
                }
            } else if all_counts_are(s, 1) {
                assert forall|f: int| 0 <= f < 6 implies #[trigger] counts[f] == 1 by {
                    assert(face_count(s, f + 1) == 1);
                }
            }
        }
        if is_straight || is_triple_pair {
            let mut values: Vec<DieValue> = Vec::new();
            let mut j: usize = 0;
            while j < 6
                invariant
                    0 <= j <= 6,
                    self.wf(),
                    dice_wf(s),
                    values@ == face_values(s.take(j as int)),
                    forall|k: int| 0 <= k < j ==> #[trigger] self@[k] == picked_die(s[k]),
                    forall|k: int| j <= k < 6 ==> #[trigger] self@[k] == s[k],
                decreases 6 - j,
            {
                proof {
                    self.lemma_view_index(j as int);
                }
                values.push(self.dice[j].value());
                let ghost before = self@;
                self.dice[j].pick();
                assert(self@ =~= before.update(j as int, picked_die(s[j as int])));
                proof {
                    assert(face_values(s.take(j + 1)) =~= face_values(s.take(j as int)).push(
                        s[j as int].value,
                    ));
                }
                j += 1;
            }
            assert(self@ =~= all_picked(s));
            assert(s.take(6) =~= s);
            if is_straight {
                return (Selection::new(values, STRAIGHT_VALUE), RollType::Straight);
            } else {
                return (Selection::new(values, TRIPLE_PAIR_VALUE), RollType::TriplePair);
            }
        }
        let allowed = self.determine_pickable(Some(&counts));
        let mut k: usize = 0;
        while k < 6
            invariant
                0 <= k <= 6,
                dice_wf(s),
                s == self@,
                s == old(self)@,
                !all_counts_are(s, 1),
                !is_three_pairs(s),
                forall|f: int| 0 <= f < 6 ==> #[trigger] counts[f] == face_count(s, f + 1),
                forall|i: int|
                    0 <= i < 6 ==> #[trigger] allowed[i] == die_pickable(
                        s[i],
                        counts[s[i].value - 1] as int,
                    ),
                forall|i: int| 0 <= i < k ==> !#[trigger] pickable(s, i),
            decreases 6 - k,
        {
            proof {
                assert(counts[s[k as int].value - 1] == face_count(s, s[k as int].value as int));
            }
            if allowed[k] {
                assert(pickable(s, k as int));
                return (Selection::default(), RollType::Simple);
            }
            k += 1;
        }
        (Selection::default(), RollType::Farkle)
    }

    /// Scores the dice picked in the current pass. Fails when a face other than
    /// one or five is picked once or twice, and when the pick is worth nothing.
    pub fn construct_selection(&self) -> (r: Result<Selection, &'static str>)
        requires
            self.wf(),
        ensures
            r is Ok <==> pick_is_valid(self@) && pick_score(self@) > 0,
            r matches Ok(sel) ==> {
                &&& sel@.values == pending_values(self@)
                &&& sel@.value == pick_score(self@)
                &&& sel@.value > 0
            },
            r matches Err(e) ==> if pick_is_valid(self@) {
                e@ == "Selection must have positive value"@
            } else {
                e@ == "Can only select 3 or more dice that aren't 1 or 5"@
            },
    {
        let mut chosen = [0u32; 6];
        let mut values: Vec<DieValue> = Vec::new();
        let mut i: usize = 0;
        while i < 6
            invariant
                0 <= i <= 6,
                self.wf(),
                forall|f: int|
                    0 <= f < 6 ==> #[trigger] chosen[f] == chosen_count(self@.take(i as int), f + 1),
                values@ == pending_values(self@.take(i as int)),
            decreases 6 - i,
        {
            proof {
                self.lemma_view_index(i as int);
                assert(self@.take(i + 1).drop_last() =~= self@.take(i as int));
                assert forall|f: int| 0 <= f < 6 implies chosen[f] <= i by {
                    lemma_chosen_count_bound(self@.take(i as int), f + 1);
                }
            }
            let die = &self.dice[i];
            if die.picked_this_roll() {
                let v = die.value();
                values.push(v);
                chosen[v - 1] = chosen[v - 1] + 1;
            }
            i += 1;
        }
        assert(self@.take(6) =~= self@);
        let ghost s = self@;
        let mut value: u32 = 0;
        let mut idx: usize = 0;
        while idx < 6
            invariant
                0 <= idx <= 6,
                s == self@,
                forall|f: int| 0 <= f < 6 ==> #[trigger] chosen[f] == chosen_count(s, f + 1),
                value == score_upto(s, idx as int),
                value <= 4000 * idx,
                forall|face: int|
                    1 <= face <= idx && !scores_alone(face) ==> #[trigger] chosen_count(s, face)
                        == 0 || chosen_count(s, face) >= 3,
            decreases 6 - idx,
        {
            let face = idx + 1;
            let count = chosen[idx];
            proof {
                lemma_chosen_count_bound(s, face as int);
            }
            if face != 1 && face != 5 && count > 0 && count < 3 {
                assert(!pick_is_valid(s)) by {
                    assert(chosen_count(s, face as int) == count);
                }
                return Err("Can only select 3 or more dice that aren't 1 or 5");
            }
            value = value + face_points(face as u32, count);
            idx += 1;
        }
        if value > 0 {
            Ok(Selection::new(values, value))
        } else {
            Err("Selection must have positive value")
        }
    }

    /// The six dice.
    pub fn dice(&self) -> (r: &[Die])
        ensures
            r@.map_values(|d: Die| d@) == self@,
    {
        &self.dice
    }

    /// The six dice, for changing their faces in place.
    pub fn dice_mut(&mut self) -> (r: &mut [Die])
        ensures
            r@.map_values(|d: Die| d@) == old(self)@,
            final(r)@.map_values(|d: Die| d@) == final(self)@,
    {
        &mut self.dice
    }
}

} // verus!
