use vstd::prelude::*;
use crate::enumerations::modelling_kind::ModellingKind;

verus! {

/// Trait with functions for an element with a kind, that can either represent a template or
/// an instance.
pub trait THasKind {
    /// The kind of the element.
    spec fn kind_view(&self) -> Option<ModellingKind>;

    /// Sets the kind of the element.
    fn set_kind(&mut self, kind: ModellingKind)
        ensures
            final(self).kind_view() == Some(kind),
    ;

    /// Returns the kind of the element, if there is one.
    fn get_kind(&self) -> (r: Option<&ModellingKind>)
        ensures
            r.deep_view() == self.kind_view(),
    ;

    /// Returns the kind of the element, open to change, if there is one.
    fn get_kind_mut(&mut self) -> (r: Option<&mut ModellingKind>)
        ensures
            match r {
                Some(m) => old(self).kind_view() == Some(*m)
                    && final(self).kind_view() == Some(*final(m)),
                None => old(self).kind_view() is None
                    && final(self).kind_view() == old(self).kind_view(),
            },
    ;
}

} // verus!
