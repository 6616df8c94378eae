use vstd::prelude::*;

use crate::die::DieValue;

verus! {

/// The mathematical value of a selection: the faces scored and their points.
pub struct SelectionView {
    pub values: Seq<usize>,
    pub value: nat,
}

/// A scored set of dice: the faces that were scored, in die order, and the
/// points they are worth.
#[derive(Debug)]
pub struct Selection {
    values: Vec<DieValue>,
    value: u32,
}

impl View for Selection {
    type V = SelectionView;

    closed spec fn view(&self) -> SelectionView {
        SelectionView { values: self.values@, value: self.value as nat }
    }
}

impl Default for Selection {
    /// The empty selection, worth nothing.
    fn default() -> (r: Selection)
        ensures
            r@.values == Seq::<usize>::empty(),
            r@.value == 0,
    {
        Selection { values: Vec::new(), value: 0 }
    }
}

impl Selection {
    pub(crate) fn new(values: Vec<DieValue>, value: u32) -> (r: Selection)
        ensures
            r@.values == values@,
            r@.value == value,
    {
        Selection { values, value }
    }

    /// The faces scored, in die order.
    pub fn values(&self) -> (r: std::slice::Iter<'_, DieValue>)
        ensures
            vstd::std_specs::iter::IteratorSpec::remaining(&r).unref() == self@.values,
    {
        self.values.as_slice().iter()
    }

    /// The points this selection is worth.
    pub fn value(&self) -> (r: u32)
        ensures
            r == self@.value,
    {
        self.value
    }
}

} // verus!
