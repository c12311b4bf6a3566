use vstd::prelude::*;
use crate::structs::reference::{Reference, ReferenceView};
use crate::traits::has_data_specification::THasDataSpecification;
use crate::traits::has_semantics::THasSemantics;
use crate::traits::qualifiable::TQualifiable;
use crate::traits::referable::TReferable;
use crate::traits::submodel_element::TSubmodelElement;

verus! {

/// The two ends of a relationship.
#[verifier::ext_equal]
pub struct RelationshipAspect {
    pub first: Option<ReferenceView>,
    pub second: Option<ReferenceView>,
}

/// Trait with functions for an element that relates two elements, a subject and an object.
pub trait TRelationshipElement: TSubmodelElement {
    /// What the element carries of this aspect.
    spec fn relationship(&self) -> RelationshipAspect;

    /// Sets the reference to the first element, the subject.
    fn set_first(&mut self, first: Reference)
        ensures
            final(self).relationship() ==
                (RelationshipAspect { first: Some(first@), ..old(self).relationship() }),
            final(self).referable() == old(self).referable(),
            final(self).semantics() == old(self).semantics(),
            final(self).qualifiers_view() == old(self).qualifiers_view(),
            final(self).data_specifications_view() == old(self).data_specifications_view(),
    ;

    /// Returns the reference to the first element, the subject, if there is one.
    fn get_first(&self) -> (r: Option<&Reference>)
        ensures
            r.deep_view() == self.relationship().first,
    ;

    /// Returns the reference to the first element, the subject, open to change, if there is one.
    fn get_mut_first(&mut self) -> (r: Option<&mut Reference>)
        ensures
            match r {
                Some(m) => old(self).relationship().first == Some(m@)
                    && final(self).relationship() ==
                    (RelationshipAspect { first: Some(final(m)@), ..old(self).relationship() }),
                None => old(self).relationship().first is None
                    && final(self).relationship() == old(self).relationship(),
            },
            final(self).referable() == old(self).referable(),
            final(self).semantics() == old(self).semantics(),
            final(self).qualifiers_view() == old(self).qualifiers_view(),
            final(self).data_specifications_view() == old(self).data_specifications_view(),
    ;

    /// Sets the reference to the second element, the object.
    fn set_second(&mut self, second: Reference)
        ensures
            final(self).relationship() ==
                (RelationshipAspect { second: Some(second@), ..old(self).relationship() }),
            final(self).referable() == old(self).referable(),
            final(self).semantics() == old(self).semantics(),
            final(self).qualifiers_view() == old(self).qualifiers_view(),
            final(self).data_specifications_view() == old(self).data_specifications_view(),
    ;

    /// Returns the reference to the second element, the object, if there is one.
    fn get_second(&self) -> (r: Option<&Reference>)
        ensures
            r.deep_view() == self.relationship().second,
    ;

    /// Returns the reference to the second element, the object, open to change, if there is one.
    fn get_mut_second(&mut self) -> (r: Option<&mut Reference>)
        ensures
            match r {
                Some(m) => old(self).relationship().second == Some(m@)
                    && final(self).relationship() ==
                    (RelationshipAspect { second: Some(final(m)@),
                    ..old(self).relationship() }),
                None => old(self).relationship().second is None
                    && final(self).relationship() == old(self).relationship(),
            },
            final(self).referable() == old(self).referable(),
            final(self).semantics() == old(self).semantics(),
            final(self).qualifiers_view() == old(self).qualifiers_view(),
            final(self).data_specifications_view() == old(self).data_specifications_view(),
    ;
}

} // verus!
