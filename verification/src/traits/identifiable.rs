use vstd::prelude::*;
use crate::structs::administrative_information::{
    AdministrativeInformation,
    AdministrativeInformationView,
};
use crate::traits::referable::TReferable;

verus! {

/// The identity of an identifiable element.
#[verifier::ext_equal]
pub struct IdentityAspect {
    pub administrative_information: Option<AdministrativeInformationView>,
    pub id: Seq<char>,
}

/// Trait with functions for an element that has a globally unique identifier.
pub trait TIdentifiable: TReferable {
    /// What the element carries of this aspect.
    spec fn identity(&self) -> IdentityAspect;

    /// Sets the administrative information of the element.
    fn set_administration(&mut self, administrative_information: AdministrativeInformation)
        ensures
            final(self).identity() ==
                (IdentityAspect { administrative_information: Some(administrative_information@),
                ..old(self).identity() }),
            final(self).referable() == old(self).referable(),
    ;

    /// Returns the administrative information of the element, if there is one.
    fn get_administration(&self) -> (r: Option<&AdministrativeInformation>)
        ensures
            r.deep_view() == self.identity().administrative_information,
    ;

    /// Returns the administrative information of the element, open to change, if there is one.
    fn get_mut_administration(&mut self) -> (r: Option<&mut AdministrativeInformation>)
        ensures
            match r {
                Some(m) => old(self).identity().administrative_information == Some(m@)
                    && final(self).identity() ==
                    (IdentityAspect { administrative_information: Some(final(m)@),
                    ..old(self).identity() }),
                None => old(self).identity().administrative_information is None
                    && final(self).identity() == old(self).identity(),
            },
            final(self).referable() == old(self).referable(),
    ;

    /// Sets the globally unique identification of the element.
    fn set_id(&mut self, id: String)
        ensures
            final(self).identity() == (IdentityAspect { id: id@, ..old(self).identity() }),
            final(self).referable() == old(self).referable(),
    ;

    /// Returns the globally unique identification of the element.
    fn get_id(&self) -> (r: &String)
        ensures
            r@ == self.identity().id,
    ;

    /// Returns the globally unique identification of the element, open to change.
    fn get_mut_id(&mut self) -> (r: &mut String)
        ensures
            r@ == old(self).identity().id,
            final(self).identity() == (IdentityAspect { id: final(r)@, ..old(self).identity() }),
            final(self).referable() == old(self).referable(),
    ;
}

} // verus!
