use vstd::prelude::*;
use crate::traits::submodel_element::TSubmodelElement;

verus! {

/// An event element is a submodel element that stands for an event.
pub trait TEventElement: TSubmodelElement {
}

} // verus!
