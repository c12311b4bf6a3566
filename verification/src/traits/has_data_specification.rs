use vstd::prelude::*;
use crate::error::ModelError;
use crate::structs::reference::{Reference, ReferenceView};

verus! {

/// Trait with functions for an element that can be extended by using data specification
/// templates. A data specification template defines a named set of additional attributes an
/// element may or shall have. The data specifications used are explicitly specified with
/// their global ID.
pub trait THasDataSpecification {
    /// The external references to the data specification templates used by the element.
    spec fn data_specifications_view(&self) -> Seq<ReferenceView>;

    /// Sets the external references to the data specification templates used by the element.
    fn set_data_specifications(&mut self, data_specifications: Vec<Reference>)
        ensures
            final(self).data_specifications_view() == data_specifications.deep_view(),
    ;

    /// Returns the external references to the data specification templates used by the element.
    fn get_data_specifications(&self) -> (r: &Vec<Reference>)
        ensures
            r.deep_view() == self.data_specifications_view(),
    ;

    /// Returns the external references to the data specification templates used by the element,
    /// open to change.
    fn get_mut_data_specifications(&mut self) -> (r: &mut Vec<Reference>)
        ensures
            r.deep_view() == old(self).data_specifications_view(),
            final(self).data_specifications_view() == final(r).deep_view(),
    ;

    /// Adds an external reference to a data specification template at the end.
    fn add_data_specification(&mut self, data_specification: Reference)
        ensures
            final(self).data_specifications_view() ==
                old(self).data_specifications_view().push(data_specification@),
    ;

    /// Removes and returns the external reference to a data specification template at position
    /// `index`. Where there is none,
    /// nothing changes and the index is reported as out of range.
    fn remove_data_specification(&mut self, index: usize) -> (r: Result<Reference, ModelError>)
        ensures
            match r {
                Ok(item) => index < old(self).data_specifications_view().len()
                    && item@ == old(self).data_specifications_view()[index as int]
                    && final(self).data_specifications_view() ==
                        old(self).data_specifications_view().remove(index as int),
                Err(e) => index >= old(self).data_specifications_view().len()
                    && e == ModelError::IndexOutOfRange
                    && final(self).data_specifications_view() ==
                        old(self).data_specifications_view(),
            },
    ;
}

} // verus!
