use vstd::prelude::*;
use crate::error::ModelError;
use crate::structs::extension::{Extension, ExtensionView};

verus! {

/// Trait with functions for an element that can be extended by proprietary extensions.
pub trait THasExtensions {
    /// The extensions of the element.
    spec fn extensions_view(&self) -> Seq<ExtensionView>;

    /// Sets the extensions of the element.
    fn set_extensions(&mut self, extensions: Vec<Extension>)
        ensures
            final(self).extensions_view() == extensions.deep_view(),
    ;

    /// Returns the extensions of the element.
    fn get_extensions(&self) -> (r: &Vec<Extension>)
        ensures
            r.deep_view() == self.extensions_view(),
    ;

    /// Returns the extensions of the element, open to change.
    fn get_mut_extensions(&mut self) -> (r: &mut Vec<Extension>)
        ensures
            r.deep_view() == old(self).extensions_view(),
            final(self).extensions_view() == final(r).deep_view(),
    ;

    /// Adds an extension at the end.
    fn add_extension(&mut self, extension: Extension)
        ensures
            final(self).extensions_view() == old(self).extensions_view().push(extension@),
    ;

    /// Removes and returns the extension at position `index`. Where there is none,
    /// nothing changes and the index is reported as out of range.
    fn remove_extension(&mut self, index: usize) -> (r: Result<Extension, ModelError>)
        ensures
            match r {
                Ok(item) => index < old(self).extensions_view().len()
                    && item@ == old(self).extensions_view()[index as int]
                    && final(self).extensions_view() ==
                        old(self).extensions_view().remove(index as int),
                Err(e) => index >= old(self).extensions_view().len()
                    && e == ModelError::IndexOutOfRange
                    && final(self).extensions_view() == old(self).extensions_view(),
            },
    ;
}

} // verus!
