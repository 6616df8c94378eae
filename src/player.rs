use vstd::prelude::*;

use crate::selection::{Selection, SelectionView};

verus! {

/// The mathematical value of a player: name, banked score and unbanked hand.
pub struct PlayerView {
    pub name: Seq<char>,
    pub score: nat,
    pub hand: Seq<SelectionView>,
}

/// The points of all selections in a hand.
pub open spec fn hand_total(hand: Seq<SelectionView>) -> nat
    decreases hand.len(),
{
    if hand.len() == 0 {
        0
    } else {
        hand_total(hand.drop_last()) + hand.last().value
    }
}

/// How two scores order.
pub open spec fn score_order(a: nat, b: nat) -> std::cmp::Ordering {
    if a < b {
        std::cmp::Ordering::Less
    } else if a > b {
        std::cmp::Ordering::Greater
    } else {
        std::cmp::Ordering::Equal
    }
}

/// The total of a hand is at least that of any of its prefixes.
pub proof fn lemma_hand_total_prefix(hand: Seq<SelectionView>, i: int)
    requires
        0 <= i <= hand.len(),
    ensures
        hand_total(hand.take(i)) <= hand_total(hand),
    decreases hand.len() - i,
{
    if i < hand.len() {
        lemma_hand_total_prefix(hand, i + 1);
        assert(hand.take(i + 1).drop_last() =~= hand.take(i));
    } else {
        assert(hand.take(i) =~= hand);
    }
}

/// A player: a name, the points banked so far, and the selections of the
/// current turn that are not banked yet.
#[derive(Debug)]
pub struct Player {
    hand: Vec<Selection>,
    score: u32,
    name: String,
}

impl View for Player {
    type V = PlayerView;

    closed spec fn view(&self) -> PlayerView {
        PlayerView {
            name: self.name@,
            score: self.score as nat,
            hand: self.hand@.map_values(|s: Selection| s@),
        }
    }
}

impl Player {
    /// The largest score a player can hold.
    pub open spec fn score_limit() -> nat {
        u32::MAX as nat
    }

    /// A new player with no points and an empty hand.
    pub fn new(name: String) -> (r: Player)
        ensures
            r@ == (PlayerView { name: name@, score: 0, hand: Seq::empty() }),
    {
        let r = Player { hand: Vec::new(), score: 0, name };
        assert(r@.hand =~= Seq::<SelectionView>::empty());
        r
    }

    pub fn name(&self) -> (r: &str)
        ensures
            r@ == self@.name,
    {
        self.name.as_str()
    }

    pub fn score(&self) -> (r: u32)
        ensures
            r == self@.score,
    {
        self.score
    }

    /// Discards the hand, as on a farkle.
    pub fn empty_hand(&mut self)
        ensures
            final(self)@ == (PlayerView { hand: Seq::empty(), ..old(self)@ }),
    {
        self.hand.clear();
        assert(self@.hand =~= Seq::<SelectionView>::empty());
    }

    /// The selections of the hand, oldest first.
    pub fn selections(&self) -> (r: std::slice::Iter<'_, Selection>)
        ensures
            vstd::std_specs::iter::IteratorSpec::remaining(&r).unref().map_values(
                |s: Selection| s@,
            ) == self@.hand,
    {
        self.hand.as_slice().iter()
    }

    /// Adds a selection to the hand.
    pub fn add_selection(&mut self, selection: Selection)
        ensures
            final(self)@ == (PlayerView { hand: old(self)@.hand.push(selection@), ..old(self)@ }),
    {
        let ghost s = selection@;
        self.hand.push(selection);
        assert(self@.hand =~= old(self)@.hand.push(s));
    }

    /// Takes back the most recent selection of the hand, if there is one.
    pub fn undo_selection(&mut self) -> (r: Option<Selection>)
        ensures
            old(self)@.hand.len() == 0 ==> r is None && final(self)@ == old(self)@,
            old(self)@.hand.len() > 0 ==> {
                &&& r matches Some(s) && s@ == old(self)@.hand.last()
                &&& final(self)@ == (PlayerView {
                    hand: old(self)@.hand.drop_last(),
                    ..old(self)@
                })
            },
    {
        let r = self.hand.pop();
        proof {
            if old(self)@.hand.len() > 0 {
                assert(self@.hand =~= old(self)@.hand.drop_last());
            }
        }
        r
    }

    /// Whether the points of the hand can be banked without the score
    /// exceeding the largest score a player can hold.
    pub fn bank_fits(&self) -> (r: bool)
        ensures
            r == (self@.score + hand_total(self@.hand) <= Player::score_limit()),
    {
        let ghost hand = self@.hand;
        let mut acc: u32 = self.score;
        let mut i: usize = 0;
        while i < self.hand.len()
            invariant
                0 <= i <= self.hand.len(),
                hand == self@.hand,
                acc == self@.score + hand_total(hand.take(i as int)),
            decreases self.hand.len() - i,
        {
            proof {
                assert(hand.take(i + 1).drop_last() =~= hand.take(i as int));
                lemma_hand_total_prefix(hand, i + 1);
            }
            match acc.checked_add(self.hand[i].value()) {
                Some(sum) => acc = sum,
                None => return false,
            }
            i += 1;
        }
        assert(hand.take(i as int) =~= hand);
        true
    }

    /// Moves the points of the hand into the score, empties the hand, and
    /// returns the points moved.
    pub fn bank(&mut self) -> (total: u32)
        requires
            old(self)@.score + hand_total(old(self)@.hand) <= Player::score_limit(),
        ensures
            total == hand_total(old(self)@.hand),
            final(self)@ == (PlayerView {
                score: (old(self)@.score + total) as nat,
                hand: Seq::empty(),
                ..old(self)@
            }),
    {
        let ghost hand = self@.hand;
        let mut total: u32 = 0;
        let mut i: usize = 0;
        while i < self.hand.len()
            invariant
                0 <= i <= self.hand.len(),
                hand == self@.hand,
                old(self)@ == self@,
                self@.score + hand_total(hand) <= Player::score_limit(),
                total == hand_total(hand.take(i as int)),
            decreases self.hand.len() - i,
        {
            proof {
                assert(hand.take(i + 1).drop_last() =~= hand.take(i as int));
                lemma_hand_total_prefix(hand, i + 1);
            }
            total = total + self.hand[i].value();
            i += 1;
        }
        assert(hand.take(i as int) =~= hand);
        self.score = self.score + total;
        self.empty_hand();
        total
    }
}

impl PartialEq for Player {
    /// Players are equal when their scores are.
    fn eq(&self, other: &Player) -> bool {
        self.score == other.score
    }
}

impl vstd::std_specs::cmp::PartialEqSpecImpl for Player {
    open spec fn obeys_eq_spec() -> bool {
        true
    }

    open spec fn eq_spec(&self, other: &Player) -> bool {
        self@.score == other@.score
    }
}

impl PartialOrd for Player {
    /// Players order by score.
    fn partial_cmp(&self, other: &Player) -> Option<std::cmp::Ordering> {
        if self.score < other.score {
            Some(std::cmp::Ordering::Less)
        } else if self.score > other.score {
            Some(std::cmp::Ordering::Greater)
        } else {
            Some(std::cmp::Ordering::Equal)
        }
    }
}

impl vstd::std_specs::cmp::PartialOrdSpecImpl for Player {
    open spec fn obeys_partial_cmp_spec() -> bool {
        true
    }

    open spec fn partial_cmp_spec(&self, other: &Player) -> Option<std::cmp::Ordering> {
        Some(score_order(self@.score, other@.score))
    }
}

} // verus!
