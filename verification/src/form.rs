//! A text field of a form, with the verdict of its last validation.

use vstd::prelude::*;

verus! {

/// What a text field holds: the text, and whether it was found acceptable
/// when it was last judged. An empty field counts as not judged yet, and
/// is flagged valid.
#[derive(Clone, Debug)]
pub struct FormValue {
    /// The text of the field.
    pub value: String,
    /// Outcome of the last validation.
    pub valid: bool,
}

/// A field as contracts see it.
pub ghost struct FormView {
    pub value: Seq<char>,
    pub valid: bool,
}

impl View for FormValue {
    type V = FormView;

    open spec fn view(&self) -> FormView {
        FormView { value: self.value@, valid: self.valid }
    }
}

impl FormView {
    /// A field that holds some text which passed its validation.
    pub open spec fn filled_and_valid(self) -> bool {
        self.value.len() > 0 && self.valid
    }
}

impl FormValue {
    /// An empty field, flagged valid.
    pub fn new() -> (r: Self)
        ensures
            r@.value.len() == 0,
            r@.valid,
    {
        FormValue { value: String::new(), valid: true }
    }

    /// Whether the field holds some text which passed its validation.
    pub fn filled_and_valid(&self) -> (r: bool)
        ensures
            r == self@.filled_and_valid(),
    {
        !self.value.as_str().is_empty() && self.valid
    }
}

impl Default for FormValue {
    fn default() -> (r: Self)
        ensures
            r@.value.len() == 0,
            r@.valid,
    {
        FormValue::new()
    }
}

} // verus!
