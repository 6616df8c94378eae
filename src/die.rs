use vstd::prelude::*;

use crate::rules::{die_wf, picked_die, unpicked_die, DieView};

verus! {

/// A face value of a die.
pub type DieValue = usize;

/// A single six-sided die with its selection state.
#[derive(Debug)]
pub struct Die {
    value: DieValue,
    picked: bool,
    picked_this_roll: bool,
}

impl View for Die {
    type V = DieView;

    closed spec fn view(&self) -> DieView {
        DieView { value: self.value, picked: self.picked, picked_this_roll: self.picked_this_roll }
    }
}

impl Die {
    /// A die is well formed when its face is 1 to 6 and it is pending only if picked.
    pub open spec fn wf(&self) -> bool {
        die_wf(self@)
    }

    pub(crate) fn new_with_value(value: DieValue) -> (d: Die)
        ensures
            d@ == (DieView { value, picked: false, picked_this_roll: false }),
    {
        Die { value, picked: false, picked_this_roll: false }
    }

    pub(crate) fn pick(&mut self)
        ensures
            final(self)@ == picked_die(old(self)@),
    {
        self.picked = true;
        self.picked_this_roll = true;
    }

    pub(crate) fn unpick(&mut self)
        ensures
            final(self)@ == unpicked_die(old(self)@),
    {
        self.picked = false;
        self.picked_this_roll = false;
    }

    /// Keeps a picked die locked for the next sub-roll: it is no longer pending.
    pub(crate) fn settle(&mut self)
        ensures
            final(self)@ == (DieView { picked_this_roll: false, ..old(self)@ }),
    {
        self.picked_this_roll = false;
    }

    pub fn picked(&self) -> (r: bool)
        ensures
            r == self@.picked,
    {
        self.picked
    }

    pub fn picked_this_roll(&self) -> (r: bool)
        ensures
            r == self@.picked_this_roll,
    {
        self.picked_this_roll
    }

    pub fn value(&self) -> (r: DieValue)
        ensures
            r == self@.value,
    {
        self.value
    }

    pub fn set_value(&mut self, value: DieValue)
        ensures
            final(self)@ == (DieView { value, ..old(self)@ }),
    {
        self.value = value;
    }
}

} // verus!
