use vstd::prelude::*;
use crate::error::ModelError;
use crate::structs::qualifier::{Qualifier, QualifierView};

verus! {

/// Trait with functions for a qualifiable element which may be further qualified by one or
/// more qualifiers.
pub trait TQualifiable {
    /// The additional qualifications of the element.
    spec fn qualifiers_view(&self) -> Seq<QualifierView>;

    /// Sets the additional qualifications of the element.
    fn set_qualifiers(&mut self, qualifiers: Vec<Qualifier>)
        ensures
            final(self).qualifiers_view() == qualifiers.deep_view(),
    ;

    /// Returns the additional qualifications of the element.
    fn get_qualifiers(&self) -> (r: &Vec<Qualifier>)
        ensures
            r.deep_view() == self.qualifiers_view(),
    ;

    /// Returns the additional qualifications of the element, open to change.
    fn get_mut_qualifiers(&mut self) -> (r: &mut Vec<Qualifier>)
        ensures
            r.deep_view() == old(self).qualifiers_view(),
            final(self).qualifiers_view() == final(r).deep_view(),
    ;

    /// Adds a qualification at the end.
    fn add_qualifier(&mut self, qualifier: Qualifier)
        ensures
            final(self).qualifiers_view() == old(self).qualifiers_view().push(qualifier@),
    ;

    /// Removes and returns the qualification at position `index`. Where there is none,
    /// nothing changes and the index is reported as out of range.
    fn remove_qualifier(&mut self, index: usize) -> (r: Result<Qualifier, ModelError>)
        ensures
            match r {
                Ok(item) => index < old(self).qualifiers_view().len()
                    && item@ == old(self).qualifiers_view()[index as int]
                    && final(self).qualifiers_view() ==
                        old(self).qualifiers_view().remove(index as int),
                Err(e) => index >= old(self).qualifiers_view().len()
                    && e == ModelError::IndexOutOfRange
                    && final(self).qualifiers_view() == old(self).qualifiers_view(),
            },
    ;
}

} // verus!
