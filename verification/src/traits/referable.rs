use vstd::prelude::*;
use crate::error::ModelError;
use crate::structs::multi_language_name_type::{MultiLanguageNameType, MultiLanguageNameTypeView};
use crate::structs::multi_language_text_type::{MultiLanguageTextType, MultiLanguageTextTypeView};

verus! {

/// What every referable element carries.
#[verifier::ext_equal]
pub struct ReferableAspect {
    pub category: Option<Seq<char>>,
    pub id_short: Option<Seq<char>>,
    pub display_name: Seq<MultiLanguageNameTypeView>,
    pub description: Seq<MultiLanguageTextTypeView>,
}

/// Trait with functions for elements that are referable by its short ID.
pub trait TReferable {
    /// What the element carries of this aspect.
    spec fn referable(&self) -> ReferableAspect;

    /// Sets the category, a value that gives further meta information.
    fn set_category(&mut self, category: String)
        ensures
            final(self).referable() ==
                (ReferableAspect { category: Some(category@), ..old(self).referable() }),
    ;

    /// Returns the category, a value that gives further meta information, if there is one.
    fn get_category(&self) -> (r: Option<&String>)
        ensures
            r.deep_view() == self.referable().category,
    ;

    /// Returns the category, a value that gives further meta information, open to change, if there
    /// is one.
    fn get_mut_category(&mut self) -> (r: Option<&mut String>)
        ensures
            match r {
                Some(m) => old(self).referable().category == Some(m@)
                    && final(self).referable() ==
                    (ReferableAspect { category: Some(final(m)@), ..old(self).referable() }),
                None => old(self).referable().category is None
                    && final(self).referable() == old(self).referable(),
            },
    ;

    /// Sets the short ID of the element.
    fn set_id_short(&mut self, id_short: String)
        ensures
            final(self).referable() ==
                (ReferableAspect { id_short: Some(id_short@), ..old(self).referable() }),
    ;

    /// Returns the short ID of the element, if there is one.
    fn get_id_short(&self) -> (r: Option<&String>)
        ensures
            r.deep_view() == self.referable().id_short,
    ;

    /// Returns the short ID of the element, open to change, if there is one.
    fn get_mut_id_short(&mut self) -> (r: Option<&mut String>)
        ensures
            match r {
                Some(m) => old(self).referable().id_short == Some(m@)
                    && final(self).referable() ==
                    (ReferableAspect { id_short: Some(final(m)@), ..old(self).referable() }),
                None => old(self).referable().id_short is None
                    && final(self).referable() == old(self).referable(),
            },
    ;

    /// Sets the display name of the element, one entry for each language.
    fn set_display_name(&mut self, display_name: Vec<MultiLanguageNameType>)
        ensures
            final(self).referable() ==
                (ReferableAspect { display_name: display_name.deep_view(),
                ..old(self).referable() }),
    ;

    /// Returns the display name of the element, one entry for each language.
    fn get_display_name(&self) -> (r: &Vec<MultiLanguageNameType>)
        ensures
            r.deep_view() == self.referable().display_name,
    ;

    /// Returns the display name of the element, one entry for each language, open to change.
    fn get_mut_display_name(&mut self) -> (r: &mut Vec<MultiLanguageNameType>)
        ensures
            r.deep_view() == old(self).referable().display_name,
            final(self).referable() ==
                (ReferableAspect { display_name: final(r).deep_view(), ..old(self).referable() }),
    ;

    /// Adds a display name in one language at the end.
    fn add_display_name(&mut self, display_name: MultiLanguageNameType)
        ensures
            final(self).referable() ==
                (ReferableAspect { display_name: old(self).referable().display_name.push(
                display_name@), ..old(self).referable() }),
    ;

    /// Removes and returns the display name in one language at position `index`. Where there is
    /// none,
    /// nothing changes and the index is reported as out of range.
    fn remove_display_name(&mut self, index: usize) -> (r: Result<MultiLanguageNameType,
        ModelError>)
        ensures
            match r {
                Ok(item) => index < old(self).referable().display_name.len()
                    && item@ == old(self).referable().display_name[index as int]
                    && final(self).referable() ==
                        (ReferableAspect { display_name: old(self).referable().display_name.remove(
                        index as int), ..old(self).referable() }),
                Err(e) => index >= old(self).referable().display_name.len()
                    && e == ModelError::IndexOutOfRange
                    && final(self).referable() == old(self).referable(),
            },
    ;

    /// Sets the description of the element, one entry for each language.
    fn set_description(&mut self, description: Vec<MultiLanguageTextType>)
        ensures
            final(self).referable() ==
                (ReferableAspect { description: description.deep_view(), ..old(self).referable() }),
    ;

    /// Returns the description of the element, one entry for each language.
    fn get_description(&self) -> (r: &Vec<MultiLanguageTextType>)
        ensures
            r.deep_view() == self.referable().description,
    ;

    /// Returns the description of the element, one entry for each language, open to change.
    fn get_mut_description(&mut self) -> (r: &mut Vec<MultiLanguageTextType>)
        ensures
            r.deep_view() == old(self).referable().description,
            final(self).referable() ==
                (ReferableAspect { description: final(r).deep_view(), ..old(self).referable() }),
    ;

    /// Adds a description in one language at the end.
    fn add_description(&mut self, description: MultiLanguageTextType)
        ensures
            final(self).referable() ==
                (ReferableAspect { description: old(self).referable().description.push(
                description@), ..old(self).referable() }),
    ;

    /// Removes and returns the description in one language at position `index`. Where there is
    /// none,
    /// nothing changes and the index is reported as out of range.
    fn remove_description(&mut self, index: usize) -> (r: Result<MultiLanguageTextType, ModelError>)
        ensures
            match r {
                Ok(item) => index < old(self).referable().description.len()
                    && item@ == old(self).referable().description[index as int]
                    && final(self).referable() ==
                        (ReferableAspect { description: old(self).referable().description.remove(
                        index as int), ..old(self).referable() }),
                Err(e) => index >= old(self).referable().description.len()
                    && e == ModelError::IndexOutOfRange
                    && final(self).referable() == old(self).referable(),
            },
    ;
}

} // verus!
