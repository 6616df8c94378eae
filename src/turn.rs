use vstd::prelude::*;

use crate::die::DieValue;
use crate::player::{hand_total, Player, PlayerView};
use crate::roll::Roll;
use crate::rules::{
    all_picked, classify, deselected, face_values, faces_valid, pattern_value, pending_values,
    pick_is_valid, pick_score, rerolled, toggle_result, toggled, DieView,
};
use crate::selection::SelectionView;
use crate::state::{GameState, RollType, ToggleResult};

verus! {

/// What a command given to a turn did.
#[derive(Debug, Clone, Copy, PartialEq, Eq)]
pub enum TurnEvent {
    /// The dice were rolled and classified; for a straight or three pairs,
    /// the points that were selected at once.
    Rolled(RollType, u32),
    /// A die was toggled.
    Toggled(ToggleResult),
    /// The pick was confirmed, for these points.
    Selected(u32),
    /// The pick could not be confirmed, for this reason; its dice were freed.
    InvalidSelection(&'static str),
    /// The hand was banked, for these points.
    Banked(u32),
    /// The last confirmed selection was taken back.
    Undone,
    /// The command is not allowed in the current state; nothing changed.
    Rejected,
}

/// The mathematical value of a turn: its dice and its state.
pub struct TurnView {
    pub dice: Seq<DieView>,
    pub state: GameState,
}

/// A roll is accepted only before anything was rolled (`FirstRoll`) or after a
/// confirmed pick (`Rolling`).
pub open spec fn accepts_roll(state: GameState) -> bool {
    state is FirstRoll || state is Rolling
}

/// The turn, the player and the event after a roll in which free die `i`
/// comes up `faces[i]`. A farkle empties the hand and ends the turn; a simple
/// roll asks for a pick; a straight or three pairs goes to the hand at once,
/// with all dice picked and the state kept, so that the next roll gets fresh
/// dice.
pub open spec fn after_roll(t: TurnView, p: PlayerView, faces: Seq<DieValue>) -> (
    TurnView,
    PlayerView,
    TurnEvent,
) {
    if !accepts_roll(t.state) {
        (t, p, TurnEvent::Rejected)
    } else {
        let s = rerolled(t.dice, faces);
        let kind = classify(s);
        match kind {
            RollType::Farkle => (
                TurnView { dice: s, state: GameState::TurnEnded },
                PlayerView { hand: Seq::empty(), ..p },
                TurnEvent::Rolled(kind, 0),
            ),
            RollType::Simple => (
                TurnView { dice: s, state: GameState::Picking },
                p,
                TurnEvent::Rolled(kind, 0),
            ),
            _ => (
                TurnView { dice: all_picked(s), state: t.state },
                PlayerView {
                    hand: p.hand.push(
                        SelectionView { values: face_values(s), value: pattern_value(kind) as nat },
                    ),
                    ..p
                },
                TurnEvent::Rolled(kind, pattern_value(kind) as u32),
            ),
        }
    }
}

/// The turn of one player: the pool of dice and where the turn stands.
#[derive(Debug)]
pub struct Turn {
    roll: Roll,
    state: GameState,
}

impl View for Turn {
    type V = TurnView;

    closed spec fn view(&self) -> TurnView {
        TurnView { dice: self.roll@, state: self.state }
    }
}

impl Turn {
    /// The dice of the turn are well formed.
    pub closed spec fn wf(&self) -> bool {
        self.roll.wf()
    }

    /// A turn that has just started: fresh dice, nothing rolled.
    pub fn new() -> (r: Turn)
        ensures
            r.wf(),
            r@.state == GameState::FirstRoll,
            r@.dice == crate::rules::fresh_dice(),
    {
        Turn { roll: Roll::default(), state: GameState::FirstRoll }
    }

    /// The dice.
    pub fn current_roll(&self) -> (r: &Roll)
        ensures
            r@ == self@.dice,
            self.wf() ==> r.wf(),
    {
        &self.roll
    }

    /// Where the turn stands.
    pub fn state(&self) -> (r: GameState)
        ensures
            r == self@.state,
    {
        self.state
    }

    /// Rolls the free dice at random, classifies the roll and acts on it;
    /// rejected while a pick is pending or after the turn ended.
    pub fn roll(&mut self, player: &mut Player) -> (r: TurnEvent)
        requires
            old(self).wf(),
        ensures
            final(self).wf(),
            exists|faces: Seq<DieValue>|
                faces_valid(faces) && (final(self)@, final(player)@, r) == #[trigger] after_roll(
                    old(self)@,
                    old(player)@,
                    faces,
                ),
    {
        let faces = Roll::draw_faces();
        self.roll_with(player, &faces)
    }

    /// Toggles die `die` while a pick is pending.
    pub fn toggle(&mut self, die: usize) -> (r: TurnEvent)
        requires
            old(self).wf(),
            die < 6,
        ensures
            final(self).wf(),
            old(self)@.state is Picking ==> {
                &&& r == TurnEvent::Toggled(toggle_result(old(self)@.dice, die as int))
                &&& final(self)@ == (TurnView { dice: toggled(old(self)@.dice, die as int), ..old(self)@ })
            },
            !(old(self)@.state is Picking) ==> r == TurnEvent::Rejected && final(self)@ == old(self)@,
    {
        if self.state != GameState::Picking {
            return TurnEvent::Rejected;
        }
        TurnEvent::Toggled(self.roll.toggle_die(die))
    }

    /// Confirms the pending pick. A pick that scores goes to the hand and the
    /// turn may roll again or bank; one that does not is reported and its dice
    /// are freed, and the pick goes on.
    pub fn confirm_pick(&mut self, player: &mut Player) -> (r: TurnEvent)
        requires
            old(self).wf(),
        ensures
            final(self).wf(),
            !(old(self)@.state is Picking) ==> {
                &&& r == TurnEvent::Rejected
                &&& final(self)@ == old(self)@
                &&& final(player)@ == old(player)@
            },
            old(self)@.state is Picking && pick_is_valid(old(self)@.dice) && pick_score(
                old(self)@.dice,
            ) > 0 ==> {
                &&& r == TurnEvent::Selected(pick_score(old(self)@.dice) as u32)
                &&& final(self)@ == (TurnView { state: GameState::Rolling, ..old(self)@ })
                &&& final(player)@ == (PlayerView {
                    hand: old(player)@.hand.push(
                        SelectionView {
                            values: pending_values(old(self)@.dice),
                            value: pick_score(old(self)@.dice) as nat,
                        },
                    ),
                    ..old(player)@
                })
            },
            old(self)@.state is Picking && !(pick_is_valid(old(self)@.dice) && pick_score(
                old(self)@.dice,
            ) > 0) ==> {
                &&& r matches TurnEvent::InvalidSelection(e) && e@ == if pick_is_valid(
                    old(self)@.dice,
                ) {
                    "Selection must have positive value"@
                } else {
                    "Can only select 3 or more dice that aren't 1 or 5"@
                }
                &&& final(self)@ == (TurnView { dice: deselected(old(self)@.dice), ..old(self)@ })
                &&& final(player)@ == old(player)@
            },
    {
        if self.state != GameState::Picking {
            return TurnEvent::Rejected;
        }
        match self.roll.construct_selection() {
            Ok(selection) => {
                let value = selection.value();
                self.state = GameState::Rolling;
                player.add_selection(selection);
                TurnEvent::Selected(value)
            },
            Err(e) => {
                self.roll.deselect();
                TurnEvent::InvalidSelection(e)
            },
        }
    }

    /// Banks the hand and ends the turn, once a pick was confirmed.
    pub fn bank(&mut self, player: &mut Player) -> (r: TurnEvent)
        requires
            old(self).wf(),
            old(self)@.state is Rolling ==> old(player)@.score + hand_total(old(player)@.hand)
                <= Player::score_limit(),
        ensures
            final(self).wf(),
            old(self)@.state is Rolling ==> {
                &&& r == TurnEvent::Banked(hand_total(old(player)@.hand) as u32)
                &&& final(self)@ == (TurnView { state: GameState::TurnEnded, ..old(self)@ })
                &&& final(player)@ == (PlayerView {
                    score: (old(player)@.score + hand_total(old(player)@.hand)) as nat,
                    hand: Seq::empty(),
                    ..old(player)@
                })
            },
            !(old(self)@.state is Rolling) ==> {
                &&& r == TurnEvent::Rejected
                &&& final(self)@ == old(self)@
                &&& final(player)@ == old(player)@
            },
    {
        if self.state != GameState::Rolling {
            return TurnEvent::Rejected;
        }
        let points = player.bank();
        self.state = GameState::TurnEnded;
        TurnEvent::Banked(points)
    }

    /// Takes back the last confirmed pick: its dice are freed, its selection
    /// leaves the hand, and the pick goes on.
    pub fn undo_pick(&mut self, player: &mut Player) -> (r: TurnEvent)
        requires
            old(self).wf(),
        ensures
            final(self).wf(),
            old(self)@.state is Rolling ==> {
                &&& r == TurnEvent::Undone
                &&& final(self)@ == (TurnView {
                    dice: deselected(old(self)@.dice),
                    state: GameState::Picking,
                })
                &&& final(player)@ == (PlayerView {
                    hand: if old(player)@.hand.len() > 0 {
                        old(player)@.hand.drop_last()
                    } else {
                        old(player)@.hand
                    },
                    ..old(player)@
                })
            },
            !(old(self)@.state is Rolling) ==> {
                &&& r == TurnEvent::Rejected
                &&& final(self)@ == old(self)@
                &&& final(player)@ == old(player)@
            },
    {
        if self.state != GameState::Rolling {
            return TurnEvent::Rejected;
        }
        self.roll.deselect();
        let _ = player.undo_selection();
        self.state = GameState::Picking;
        TurnEvent::Undone
    }

    /// Rolls with free die `i` coming up `faces[i]`, classifies the roll and
    /// acts on it; rejected while a pick is pending or after the turn ended.
    pub fn roll_with(&mut self, player: &mut Player, faces: &[DieValue; 6]) -> (r: TurnEvent)
        requires
            old(self).wf(),
            faces_valid(faces@),
        ensures
            final(self).wf(),
            (final(self)@, final(player)@, r) == after_roll(old(self)@, old(player)@, faces@),
    {
        if self.state != GameState::FirstRoll && self.state != GameState::Rolling {
            return TurnEvent::Rejected;
        }
        self.roll.new_roll_with(faces);
        let (selection, roll_type) = self.roll.determine_type();
        match roll_type {
            RollType::Farkle => {
                player.empty_hand();
                self.state = GameState::TurnEnded;
                TurnEvent::Rolled(roll_type, 0)
            },
            RollType::Straight | RollType::TriplePair => {
                let value = selection.value();
                player.add_selection(selection);
                TurnEvent::Rolled(roll_type, value)
            },
            RollType::Simple => {
                self.state = GameState::Picking;
                TurnEvent::Rolled(roll_type, 0)
            },
        }
    }
}

} // verus!
