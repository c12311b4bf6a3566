use vstd::prelude::*;
use crate::error::ModelError;
use crate::structs::reference::{Reference, ReferenceView};

verus! {

/// The semantic annotation of an element.
#[verifier::ext_equal]
pub struct SemanticsAspect {
    pub semantic_id: Option<ReferenceView>,
    pub supplemental_semantic_ids: Seq<ReferenceView>,
}

/// Trait with functions for an element that can have a semantic definition plus some
/// supplemental semantic definitions.
pub trait THasSemantics {
    /// What the element carries of this aspect.
    spec fn semantics(&self) -> SemanticsAspect;

    /// Sets the identifier of the semantic definition of the element, its main semantic ID.
    fn set_semantic_id(&mut self, semantic_id: Reference)
        ensures
            final(self).semantics() ==
                (SemanticsAspect { semantic_id: Some(semantic_id@), ..old(self).semantics() }),
    ;

    /// Returns the identifier of the semantic definition of the element, its main semantic ID, if
    /// there is one.
    fn get_semantic_id(&self) -> (r: Option<&Reference>)
        ensures
            r.deep_view() == self.semantics().semantic_id,
    ;

    /// Returns the identifier of the semantic definition of the element, its main semantic ID, open
    /// to change, if there is one.
    fn get_mut_semantic_id(&mut self) -> (r: Option<&mut Reference>)
        ensures
            match r {
                Some(m) => old(self).semantics().semantic_id == Some(m@)
                    && final(self).semantics() ==
                    (SemanticsAspect { semantic_id: Some(final(m)@), ..old(self).semantics() }),
                None => old(self).semantics().semantic_id is None
                    && final(self).semantics() == old(self).semantics(),
            },
    ;

    /// Sets the identifiers of supplemental semantic definitions of the element.
    fn set_supplemental_semantic_ids(&mut self, supplemental_semantic_ids: Vec<Reference>)
        ensures
            final(self).semantics() ==
                (SemanticsAspect { supplemental_semantic_ids: supplemental_semantic_ids.deep_view(),
                ..old(self).semantics() }),
    ;

    /// Returns the identifiers of supplemental semantic definitions of the element.
    fn get_supplemental_semantic_ids(&self) -> (r: &Vec<Reference>)
        ensures
            r.deep_view() == self.semantics().supplemental_semantic_ids,
    ;

    /// Returns the identifiers of supplemental semantic definitions of the element, open to change.
    fn get_mut_supplemental_semantic_ids(&mut self) -> (r: &mut Vec<Reference>)
        ensures
            r.deep_view() == old(self).semantics().supplemental_semantic_ids,
            final(self).semantics() ==
                (SemanticsAspect { supplemental_semantic_ids: final(r).deep_view(),
                ..old(self).semantics() }),
    ;

    /// Adds an identifier of a supplemental semantic definition at the end.
    fn add_supplemental_semantic_id(&mut self, supplemental_semantic_id: Reference)
        ensures
            final(self).semantics() ==
                (SemanticsAspect {
                supplemental_semantic_ids: old(self).semantics().supplemental_semantic_ids.push(
                supplemental_semantic_id@), ..old(self).semantics() }),
    ;

    /// Removes and returns the identifier of a supplemental semantic definition at position
    /// `index`. Where there is none,
    /// nothing changes and the index is reported as out of range.
    fn remove_supplemental_semantic_id(&mut self, index: usize) -> (r: Result<Reference,
        ModelError>)
        ensures
            match r {
                Ok(item) => index < old(self).semantics().supplemental_semantic_ids.len()
                    && item@ == old(self).semantics().supplemental_semantic_ids[index as int]
                    && final(self).semantics() ==
                        (SemanticsAspect {
                        supplemental_semantic_ids: old(self).semantics().supplemental_semantic_ids.remove(
                        index as int), ..old(self).semantics() }),
                Err(e) => index >= old(self).semantics().supplemental_semantic_ids.len()
                    && e == ModelError::IndexOutOfRange
                    && final(self).semantics() == old(self).semantics(),
            },
    ;
}

} // verus!
