//! One picked option: its position in the caller's list and its label.

use vstd::prelude::*;

verus! {

/// An `(original index, label)` pair of the caller-supplied option list.
#[derive(Debug)]
pub struct OptionAnswer {
    /// Position of the option in the original list.
    pub index: usize,
    /// The option's label.
    pub value: String,
}

impl OptionAnswer {
    /// Pair an original index with its label.
    pub fn new(index: usize, value: &str) -> (r: Self)
        ensures
            r.index == index,
            r.value@ == value@,
    {
        OptionAnswer { index, value: value.to_owned() }
    }

    /// A copy with the same index and label.
    pub fn duplicate(&self) -> (r: Self)
        ensures
            r.index == self.index,
            r.value@ == self.value@,
    {
        OptionAnswer { index: self.index, value: self.value.clone() }
    }
}

} // verus!
