use vstd::prelude::*;
use crate::error::ModelError;
use crate::names::lemma_name_codes;
use crate::structs::administrative_information::{
    AdministrativeInformation,
    AdministrativeInformationView,
};
use crate::structs::annotated_relationship_element::{
    AnnotatedRelationshipElement,
    AnnotatedRelationshipElementView,
};
use crate::structs::asset_administration_shell::{
    AssetAdministrationShell,
    AssetAdministrationShellView,
};
use crate::structs::basic_event_element::{BasicEventElement, BasicEventElementView};
use crate::structs::blob::{Blob, BlobView};
use crate::structs::capability::{Capability, CapabilityView};
use crate::structs::concept_description::{ConceptDescription, ConceptDescriptionView};
use crate::structs::entity::{Entity, EntityView};
use crate::structs::file::{File, FileView};
use crate::structs::multi_language_property::{MultiLanguageProperty, MultiLanguagePropertyView};
use crate::structs::operation::{Operation, OperationView};
use crate::structs::property::{Property, PropertyView};
use crate::structs::range::{Range, RangeView};
use crate::structs::reference::{Reference, ReferenceView};
use crate::structs::reference_element::{ReferenceElement, ReferenceElementView};
use crate::structs::relationship_element::{RelationshipElement, RelationshipElementView};
use crate::structs::submodel::{Submodel, SubmodelView};
use crate::structs::submodel_element_collection::{
    SubmodelElementCollection,
    SubmodelElementCollectionView,
};
use crate::structs::submodel_element_list::{SubmodelElementList, SubmodelElementListView};
use crate::traits::has_data_specification::THasDataSpecification;
use crate::wire::{
    add_member,
    fail,
    fail_at,
    find,
    lemma_lookup_push,
    lookup,
    member,
    outcome,
    same_text,
    tagged,
    DecodeError,
    DecodeErrorView,
    DecodeFault,
    Field,
    FieldView,
    Wire,
    WireView,
};

verus! {

/// Any of the elements that can be extended by data specification templates.
#[derive(Debug, PartialEq)]
pub enum HasDataSpecification {
    BasicEventElement(BasicEventElement),
    Capability(Capability),
    SubmodelElementCollection(SubmodelElementCollection),
    RelationshipElement(RelationshipElement),
    ReferenceElement(ReferenceElement),
    Property(Property),
    MultiLanguageProperty(MultiLanguageProperty),
    AnnotatedRelationshipElement(AnnotatedRelationshipElement),
    AssetAdministrationShell(AssetAdministrationShell),
    AdministrativeInformation(AdministrativeInformation),
    Entity(Entity),
    Operation(Operation),
    Range(Range),
    Blob(Blob),
    File(File),
    SubmodelElementList(SubmodelElementList),
    Submodel(Submodel),
    ConceptDescription(ConceptDescription),
}

/// The mathematical form of a [`HasDataSpecification`].
#[verifier::ext_equal]
pub enum HasDataSpecificationView {
    BasicEventElement(BasicEventElementView),
    Capability(CapabilityView),
    SubmodelElementCollection(SubmodelElementCollectionView),
    RelationshipElement(RelationshipElementView),
    ReferenceElement(ReferenceElementView),
    Property(PropertyView),
    MultiLanguageProperty(MultiLanguagePropertyView),
    AnnotatedRelationshipElement(AnnotatedRelationshipElementView),
    AssetAdministrationShell(AssetAdministrationShellView),
    AdministrativeInformation(AdministrativeInformationView),
    Entity(EntityView),
    Operation(OperationView),
    Range(RangeView),
    Blob(BlobView),
    File(FileView),
    SubmodelElementList(SubmodelElementListView),
    Submodel(SubmodelView),
    ConceptDescription(ConceptDescriptionView),
}

impl View for HasDataSpecification {
    type V = HasDataSpecificationView;

    open spec fn view(&self) -> HasDataSpecificationView {
        match self {
            HasDataSpecification::BasicEventElement(x) =>
                HasDataSpecificationView::BasicEventElement(x@),
            HasDataSpecification::Capability(x) => HasDataSpecificationView::Capability(x@),
            HasDataSpecification::SubmodelElementCollection(x) =>
                HasDataSpecificationView::SubmodelElementCollection(x@),
            HasDataSpecification::RelationshipElement(x) =>
                HasDataSpecificationView::RelationshipElement(x@),
            HasDataSpecification::ReferenceElement(x) =>
                HasDataSpecificationView::ReferenceElement(x@),
            HasDataSpecification::Property(x) => HasDataSpecificationView::Property(x@),
            HasDataSpecification::MultiLanguageProperty(x) =>
                HasDataSpecificationView::MultiLanguageProperty(x@),
            HasDataSpecification::AnnotatedRelationshipElement(x) =>
                HasDataSpecificationView::AnnotatedRelationshipElement(x@),
            HasDataSpecification::AssetAdministrationShell(x) =>
                HasDataSpecificationView::AssetAdministrationShell(x@),
            HasDataSpecification::AdministrativeInformation(x) =>
                HasDataSpecificationView::AdministrativeInformation(x@),
            HasDataSpecification::Entity(x) => HasDataSpecificationView::Entity(x@),
            HasDataSpecification::Operation(x) => HasDataSpecificationView::Operation(x@),
            HasDataSpecification::Range(x) => HasDataSpecificationView::Range(x@),
            HasDataSpecification::Blob(x) => HasDataSpecificationView::Blob(x@),
            HasDataSpecification::File(x) => HasDataSpecificationView::File(x@),
            HasDataSpecification::SubmodelElementList(x) =>
                HasDataSpecificationView::SubmodelElementList(x@),
            HasDataSpecification::Submodel(x) => HasDataSpecificationView::Submodel(x@),
            HasDataSpecification::ConceptDescription(x) =>
                HasDataSpecificationView::ConceptDescription(x@),
        }
    }
}

impl DeepView for HasDataSpecification {
    type V = HasDataSpecificationView;

    open spec fn deep_view(&self) -> HasDataSpecificationView {
        self@
    }
}

impl Clone for HasDataSpecification {
    fn clone(&self) -> (r: HasDataSpecification)
        ensures
            r@ == self@,
    {
        match self {
            HasDataSpecification::BasicEventElement(x) =>
                HasDataSpecification::BasicEventElement(x.clone()),
            HasDataSpecification::Capability(x) => HasDataSpecification::Capability(x.clone()),
            HasDataSpecification::SubmodelElementCollection(x) =>
                HasDataSpecification::SubmodelElementCollection(x.clone()),
            HasDataSpecification::RelationshipElement(x) =>
                HasDataSpecification::RelationshipElement(x.clone()),
            HasDataSpecification::ReferenceElement(x) =>
                HasDataSpecification::ReferenceElement(x.clone()),
            HasDataSpecification::Property(x) => HasDataSpecification::Property(x.clone()),
            HasDataSpecification::MultiLanguageProperty(x) =>
                HasDataSpecification::MultiLanguageProperty(x.clone()),
            HasDataSpecification::AnnotatedRelationshipElement(x) =>
                HasDataSpecification::AnnotatedRelationshipElement(x.clone()),
            HasDataSpecification::AssetAdministrationShell(x) =>
                HasDataSpecification::AssetAdministrationShell(x.clone()),
            HasDataSpecification::AdministrativeInformation(x) =>
                HasDataSpecification::AdministrativeInformation(x.clone()),
            HasDataSpecification::Entity(x) => HasDataSpecification::Entity(x.clone()),
            HasDataSpecification::Operation(x) => HasDataSpecification::Operation(x.clone()),
            HasDataSpecification::Range(x) => HasDataSpecification::Range(x.clone()),
            HasDataSpecification::Blob(x) => HasDataSpecification::Blob(x.clone()),
            HasDataSpecification::File(x) => HasDataSpecification::File(x.clone()),
            HasDataSpecification::SubmodelElementList(x) =>
                HasDataSpecification::SubmodelElementList(x.clone()),
            HasDataSpecification::Submodel(x) => HasDataSpecification::Submodel(x.clone()),
            HasDataSpecification::ConceptDescription(x) =>
                HasDataSpecification::ConceptDescription(x.clone()),
        }
    }
}

impl HasDataSpecification {
    /// The external references to the data specification templates used by the element.
    pub open spec fn data_specifications_view(&self) -> Seq<ReferenceView> {
        match self {
            HasDataSpecification::BasicEventElement(x) => x.data_specifications_view(),
            HasDataSpecification::Capability(x) => x.data_specifications_view(),
            HasDataSpecification::SubmodelElementCollection(x) => x.data_specifications_view(),
            HasDataSpecification::RelationshipElement(x) => x.data_specifications_view(),
            HasDataSpecification::ReferenceElement(x) => x.data_specifications_view(),
            HasDataSpecification::Property(x) => x.data_specifications_view(),
            HasDataSpecification::MultiLanguageProperty(x) => x.data_specifications_view(),
            HasDataSpecification::AnnotatedRelationshipElement(x) => x.data_specifications_view(),
            HasDataSpecification::AssetAdministrationShell(x) => x.data_specifications_view(),
            HasDataSpecification::AdministrativeInformation(x) => x.data_specifications_view(),
            HasDataSpecification::Entity(x) => x.data_specifications_view(),
            HasDataSpecification::Operation(x) => x.data_specifications_view(),
            HasDataSpecification::Range(x) => x.data_specifications_view(),
            HasDataSpecification::Blob(x) => x.data_specifications_view(),
            HasDataSpecification::File(x) => x.data_specifications_view(),
            HasDataSpecification::SubmodelElementList(x) => x.data_specifications_view(),
            HasDataSpecification::Submodel(x) => x.data_specifications_view(),
            HasDataSpecification::ConceptDescription(x) => x.data_specifications_view(),
        }
    }

    /// Sets the external references to the data specification templates used by the element.
    pub fn set_data_specifications(&mut self, data_specifications: Vec<Reference>)
        ensures
            final(self)@ == old(self)@.with_data_specifications(data_specifications.deep_view()),
    {
        match self {
            HasDataSpecification::BasicEventElement(x) =>
                x.set_data_specifications(data_specifications),
            HasDataSpecification::Capability(x) => x.set_data_specifications(data_specifications),
            HasDataSpecification::SubmodelElementCollection(x) =>
                x.set_data_specifications(data_specifications),
            HasDataSpecification::RelationshipElement(x) =>
                x.set_data_specifications(data_specifications),
            HasDataSpecification::ReferenceElement(x) =>
                x.set_data_specifications(data_specifications),
            HasDataSpecification::Property(x) => x.set_data_specifications(data_specifications),
            HasDataSpecification::MultiLanguageProperty(x) =>
                x.set_data_specifications(data_specifications),
            HasDataSpecification::AnnotatedRelationshipElement(x) =>
                x.set_data_specifications(data_specifications),
            HasDataSpecification::AssetAdministrationShell(x) =>
                x.set_data_specifications(data_specifications),
            HasDataSpecification::AdministrativeInformation(x) =>
                x.set_data_specifications(data_specifications),
            HasDataSpecification::Entity(x) => x.set_data_specifications(data_specifications),
            HasDataSpecification::Operation(x) => x.set_data_specifications(data_specifications),
            HasDataSpecification::Range(x) => x.set_data_specifications(data_specifications),
            HasDataSpecification::Blob(x) => x.set_data_specifications(data_specifications),
            HasDataSpecification::File(x) => x.set_data_specifications(data_specifications),
            HasDataSpecification::SubmodelElementList(x) =>
                x.set_data_specifications(data_specifications),
            HasDataSpecification::Submodel(x) => x.set_data_specifications(data_specifications),
            HasDataSpecification::ConceptDescription(x) =>
                x.set_data_specifications(data_specifications),
        }
    }

    /// Returns the external references to the data specification templates used by the element.
    pub fn get_data_specifications(&self) -> (r: &Vec<Reference>)
        ensures
            r.deep_view() == self.data_specifications_view(),
    {
        match self {
            HasDataSpecification::BasicEventElement(x) => x.get_data_specifications(),
            HasDataSpecification::Capability(x) => x.get_data_specifications(),
            HasDataSpecification::SubmodelElementCollection(x) => x.get_data_specifications(),
            HasDataSpecification::RelationshipElement(x) => x.get_data_specifications(),
            HasDataSpecification::ReferenceElement(x) => x.get_data_specifications(),
            HasDataSpecification::Property(x) => x.get_data_specifications(),
            HasDataSpecification::MultiLanguageProperty(x) => x.get_data_specifications(),
            HasDataSpecification::AnnotatedRelationshipElement(x) => x.get_data_specifications(),
            HasDataSpecification::AssetAdministrationShell(x) => x.get_data_specifications(),
            HasDataSpecification::AdministrativeInformation(x) => x.get_data_specifications(),
            HasDataSpecification::Entity(x) => x.get_data_specifications(),
            HasDataSpecification::Operation(x) => x.get_data_specifications(),
            HasDataSpecification::Range(x) => x.get_data_specifications(),
            HasDataSpecification::Blob(x) => x.get_data_specifications(),
            HasDataSpecification::File(x) => x.get_data_specifications(),
            HasDataSpecification::SubmodelElementList(x) => x.get_data_specifications(),
            HasDataSpecification::Submodel(x) => x.get_data_specifications(),
            HasDataSpecification::ConceptDescription(x) => x.get_data_specifications(),
        }
    }

    /// Returns the external references to the data specification templates used by the element,
    /// open to change.
    pub fn get_mut_data_specifications(&mut self) -> (r: &mut Vec<Reference>)
        ensures
            r.deep_view() == old(self).data_specifications_view(),
            final(self)@ == old(self)@.with_data_specifications(final(r).deep_view()),
    {
        match self {
            HasDataSpecification::BasicEventElement(x) => x.get_mut_data_specifications(),
            HasDataSpecification::Capability(x) => x.get_mut_data_specifications(),
            HasDataSpecification::SubmodelElementCollection(x) => x.get_mut_data_specifications(),
            HasDataSpecification::RelationshipElement(x) => x.get_mut_data_specifications(),
            HasDataSpecification::ReferenceElement(x) => x.get_mut_data_specifications(),
            HasDataSpecification::Property(x) => x.get_mut_data_specifications(),
            HasDataSpecification::MultiLanguageProperty(x) => x.get_mut_data_specifications(),
            HasDataSpecification::AnnotatedRelationshipElement(x) =>
                x.get_mut_data_specifications(),
            HasDataSpecification::AssetAdministrationShell(x) => x.get_mut_data_specifications(),
            HasDataSpecification::AdministrativeInformation(x) => x.get_mut_data_specifications(),
            HasDataSpecification::Entity(x) => x.get_mut_data_specifications(),
            HasDataSpecification::Operation(x) => x.get_mut_data_specifications(),
            HasDataSpecification::Range(x) => x.get_mut_data_specifications(),
            HasDataSpecification::Blob(x) => x.get_mut_data_specifications(),
            HasDataSpecification::File(x) => x.get_mut_data_specifications(),
            HasDataSpecification::SubmodelElementList(x) => x.get_mut_data_specifications(),
            HasDataSpecification::Submodel(x) => x.get_mut_data_specifications(),
            HasDataSpecification::ConceptDescription(x) => x.get_mut_data_specifications(),
        }
    }

    /// Adds an external reference to a data specification template at the end.
    pub fn add_data_specification(&mut self, data_specification: Reference)
        ensures
            final(self)@ ==
                old(self)@.with_data_specifications(old(self).data_specifications_view().push(
                data_specification@)),
    {
        match self {
            HasDataSpecification::BasicEventElement(x) =>
                x.add_data_specification(data_specification),
            HasDataSpecification::Capability(x) => x.add_data_specification(data_specification),
            HasDataSpecification::SubmodelElementCollection(x) =>
                x.add_data_specification(data_specification),
            HasDataSpecification::RelationshipElement(x) =>
                x.add_data_specification(data_specification),
            HasDataSpecification::ReferenceElement(x) =>
                x.add_data_specification(data_specification),
            HasDataSpecification::Property(x) => x.add_data_specification(data_specification),
            HasDataSpecification::MultiLanguageProperty(x) =>
                x.add_data_specification(data_specification),
            HasDataSpecification::AnnotatedRelationshipElement(x) =>
                x.add_data_specification(data_specification),
            HasDataSpecification::AssetAdministrationShell(x) =>
                x.add_data_specification(data_specification),
            HasDataSpecification::AdministrativeInformation(x) =>
                x.add_data_specification(data_specification),
            HasDataSpecification::Entity(x) => x.add_data_specification(data_specification),
            HasDataSpecification::Operation(x) => x.add_data_specification(data_specification),
            HasDataSpecification::Range(x) => x.add_data_specification(data_specification),
            HasDataSpecification::Blob(x) => x.add_data_specification(data_specification),
            HasDataSpecification::File(x) => x.add_data_specification(data_specification),
            HasDataSpecification::SubmodelElementList(x) =>
                x.add_data_specification(data_specification),
            HasDataSpecification::Submodel(x) => x.add_data_specification(data_specification),
            HasDataSpecification::ConceptDescription(x) =>
                x.add_data_specification(data_specification),
        }
    }

    /// Removes and returns the external reference to a data specification template at position
    /// `index`. Where there is none,
    /// nothing changes and the index is reported as out of range.
    pub fn remove_data_specification(&mut self, index: usize) -> (r: Result<Reference, ModelError>)
        ensures
            match r {
                Ok(item) => index < old(self).data_specifications_view().len()
                    && item@ == old(self).data_specifications_view()[index as int]
                    && final(self)@ ==
                        old(self)@.with_data_specifications(
                        old(self).data_specifications_view().remove(index as int)),
                Err(e) => index >= old(self).data_specifications_view().len()
                    && e == ModelError::IndexOutOfRange
                    && final(self)@ == old(self)@,
            },
    {
        match self {
            HasDataSpecification::BasicEventElement(x) => x.remove_data_specification(index),
            HasDataSpecification::Capability(x) => x.remove_data_specification(index),
            HasDataSpecification::SubmodelElementCollection(x) =>
                x.remove_data_specification(index),
            HasDataSpecification::RelationshipElement(x) => x.remove_data_specification(index),
            HasDataSpecification::ReferenceElement(x) => x.remove_data_specification(index),
            HasDataSpecification::Property(x) => x.remove_data_specification(index),
            HasDataSpecification::MultiLanguageProperty(x) => x.remove_data_specification(index),
            HasDataSpecification::AnnotatedRelationshipElement(x) =>
                x.remove_data_specification(index),
            HasDataSpecification::AssetAdministrationShell(x) => x.remove_data_specification(index),
            HasDataSpecification::AdministrativeInformation(x) =>
                x.remove_data_specification(index),
            HasDataSpecification::Entity(x) => x.remove_data_specification(index),
            HasDataSpecification::Operation(x) => x.remove_data_specification(index),
            HasDataSpecification::Range(x) => x.remove_data_specification(index),
            HasDataSpecification::Blob(x) => x.remove_data_specification(index),
            HasDataSpecification::File(x) => x.remove_data_specification(index),
            HasDataSpecification::SubmodelElementList(x) => x.remove_data_specification(index),
            HasDataSpecification::Submodel(x) => x.remove_data_specification(index),
            HasDataSpecification::ConceptDescription(x) => x.remove_data_specification(index),
        }
    }
}

impl HasDataSpecificationView {
    /// Whether every reference in the value is well formed.
    pub open spec fn well_formed(self) -> bool {
        match self {
            HasDataSpecificationView::BasicEventElement(x) => x.well_formed(),
            HasDataSpecificationView::Capability(x) => x.well_formed(),
            HasDataSpecificationView::SubmodelElementCollection(x) => x.well_formed(),
            HasDataSpecificationView::RelationshipElement(x) => x.well_formed(),
            HasDataSpecificationView::ReferenceElement(x) => x.well_formed(),
            HasDataSpecificationView::Property(x) => x.well_formed(),
            HasDataSpecificationView::MultiLanguageProperty(x) => x.well_formed(),
            HasDataSpecificationView::AnnotatedRelationshipElement(x) => x.well_formed(),
            HasDataSpecificationView::AssetAdministrationShell(x) => x.well_formed(),
            HasDataSpecificationView::AdministrativeInformation(x) => x.well_formed(),
            HasDataSpecificationView::Entity(x) => x.well_formed(),
            HasDataSpecificationView::Operation(x) => x.well_formed(),
            HasDataSpecificationView::Range(x) => x.well_formed(),
            HasDataSpecificationView::Blob(x) => x.well_formed(),
            HasDataSpecificationView::File(x) => x.well_formed(),
            HasDataSpecificationView::SubmodelElementList(x) => x.well_formed(),
            HasDataSpecificationView::Submodel(x) => x.well_formed(),
            HasDataSpecificationView::ConceptDescription(x) => x.well_formed(),
        }
    }

    /// The same value with the external references to the data specification templates used by the
    /// element replaced.
    pub open spec fn with_data_specifications(self, data_specifications: Seq<ReferenceView>)
        -> HasDataSpecificationView {
        match self {
            HasDataSpecificationView::BasicEventElement(x) =>
                HasDataSpecificationView::BasicEventElement(x.with_data_specifications(
                data_specifications)),
            HasDataSpecificationView::Capability(x) =>
                HasDataSpecificationView::Capability(x.with_data_specifications(
                data_specifications)),
            HasDataSpecificationView::SubmodelElementCollection(x) =>
                HasDataSpecificationView::SubmodelElementCollection(x.with_data_specifications(
                data_specifications)),
            HasDataSpecificationView::RelationshipElement(x) =>
                HasDataSpecificationView::RelationshipElement(x.with_data_specifications(
                data_specifications)),
            HasDataSpecificationView::ReferenceElement(x) =>
                HasDataSpecificationView::ReferenceElement(x.with_data_specifications(
                data_specifications)),
            HasDataSpecificationView::Property(x) =>
                HasDataSpecificationView::Property(x.with_data_specifications(data_specifications)),
            HasDataSpecificationView::MultiLanguageProperty(x) =>
                HasDataSpecificationView::MultiLanguageProperty(x.with_data_specifications(
                data_specifications)),
            HasDataSpecificationView::AnnotatedRelationshipElement(x) =>
                HasDataSpecificationView::AnnotatedRelationshipElement(x.with_data_specifications(
                data_specifications)),
            HasDataSpecificationView::AssetAdministrationShell(x) =>
                HasDataSpecificationView::AssetAdministrationShell(x.with_data_specifications(
                data_specifications)),
            HasDataSpecificationView::AdministrativeInformation(x) =>
                HasDataSpecificationView::AdministrativeInformation(x.with_data_specifications(
                data_specifications)),
            HasDataSpecificationView::Entity(x) =>
                HasDataSpecificationView::Entity(x.with_data_specifications(data_specifications)),
            HasDataSpecificationView::Operation(x) =>
                HasDataSpecificationView::Operation(x.with_data_specifications(
                data_specifications)),
            HasDataSpecificationView::Range(x) =>
                HasDataSpecificationView::Range(x.with_data_specifications(data_specifications)),
            HasDataSpecificationView::Blob(x) =>
                HasDataSpecificationView::Blob(x.with_data_specifications(data_specifications)),
            HasDataSpecificationView::File(x) =>
                HasDataSpecificationView::File(x.with_data_specifications(data_specifications)),
            HasDataSpecificationView::SubmodelElementList(x) =>
                HasDataSpecificationView::SubmodelElementList(x.with_data_specifications(
                data_specifications)),
            HasDataSpecificationView::Submodel(x) =>
                HasDataSpecificationView::Submodel(x.with_data_specifications(data_specifications)),
            HasDataSpecificationView::ConceptDescription(x) =>
                HasDataSpecificationView::ConceptDescription(x.with_data_specifications(
                data_specifications)),
        }
    }

    /// The name of the type of the value, which tells the variants apart on
    /// the wire.
    pub open spec fn model_type(self) -> Seq<char> {
        match self {
            HasDataSpecificationView::BasicEventElement(_) => "BasicEventElement"@,
            HasDataSpecificationView::Capability(_) => "Capability"@,
            HasDataSpecificationView::SubmodelElementCollection(_) => "SubmodelElementCollection"@,
            HasDataSpecificationView::RelationshipElement(_) => "RelationshipElement"@,
            HasDataSpecificationView::ReferenceElement(_) => "ReferenceElement"@,
            HasDataSpecificationView::Property(_) => "Property"@,
            HasDataSpecificationView::MultiLanguageProperty(_) => "MultiLanguageProperty"@,
            HasDataSpecificationView::AnnotatedRelationshipElement(_) =>
                "AnnotatedRelationshipElement"@,
            HasDataSpecificationView::AssetAdministrationShell(_) => "AssetAdministrationShell"@,
            HasDataSpecificationView::AdministrativeInformation(_) => "AdministrativeInformation"@,
            HasDataSpecificationView::Entity(_) => "Entity"@,
            HasDataSpecificationView::Operation(_) => "Operation"@,
            HasDataSpecificationView::Range(_) => "Range"@,
            HasDataSpecificationView::Blob(_) => "Blob"@,
            HasDataSpecificationView::File(_) => "File"@,
            HasDataSpecificationView::SubmodelElementList(_) => "SubmodelElementList"@,
            HasDataSpecificationView::Submodel(_) => "Submodel"@,
            HasDataSpecificationView::ConceptDescription(_) => "ConceptDescription"@,
        }
    }

    /// Whether `tag` is the name of a type that is accepted in this place.
    pub open spec fn knows(tag: Seq<char>) -> bool {
        tag == "BasicEventElement"@
            || tag == "Capability"@
            || tag == "SubmodelElementCollection"@
            || tag == "RelationshipElement"@
            || tag == "ReferenceElement"@
            || tag == "Property"@
            || tag == "MultiLanguageProperty"@
            || tag == "AnnotatedRelationshipElement"@
            || tag == "AssetAdministrationShell"@
            || tag == "AdministrativeInformation"@
            || tag == "Entity"@
            || tag == "Operation"@
            || tag == "Range"@
            || tag == "Blob"@
            || tag == "File"@
            || tag == "SubmodelElementList"@
            || tag == "Submodel"@
            || tag == "ConceptDescription"@
    }

    /// The value on the wire: a record that begins with the name of the
    /// type and goes on with the members of the value.
    pub open spec fn to_wire(self) -> WireView {
        WireView::Record(
            match self {
                HasDataSpecificationView::BasicEventElement(x) =>
                    x.members_after(tagged(Some("BasicEventElement"@))),
                HasDataSpecificationView::Capability(x) =>
                    x.members_after(tagged(Some("Capability"@))),
                HasDataSpecificationView::SubmodelElementCollection(x) =>
                    x.members_after(tagged(Some("SubmodelElementCollection"@))),
                HasDataSpecificationView::RelationshipElement(x) =>
                    x.members_after(tagged(Some("RelationshipElement"@))),
                HasDataSpecificationView::ReferenceElement(x) =>
                    x.members_after(tagged(Some("ReferenceElement"@))),
                HasDataSpecificationView::Property(x) => x.members_after(tagged(Some("Property"@))),
                HasDataSpecificationView::MultiLanguageProperty(x) =>
                    x.members_after(tagged(Some("MultiLanguageProperty"@))),
                HasDataSpecificationView::AnnotatedRelationshipElement(x) =>
                    x.members_after(tagged(Some("AnnotatedRelationshipElement"@))),
                HasDataSpecificationView::AssetAdministrationShell(x) =>
                    x.members_after(tagged(Some("AssetAdministrationShell"@))),
                HasDataSpecificationView::AdministrativeInformation(x) =>
                    x.members_after(tagged(Some("AdministrativeInformation"@))),
                HasDataSpecificationView::Entity(x) => x.members_after(tagged(Some("Entity"@))),
                HasDataSpecificationView::Operation(x) =>
                    x.members_after(tagged(Some("Operation"@))),
                HasDataSpecificationView::Range(x) => x.members_after(tagged(Some("Range"@))),
                HasDataSpecificationView::Blob(x) => x.members_after(tagged(Some("Blob"@))),
                HasDataSpecificationView::File(x) => x.members_after(tagged(Some("File"@))),
                HasDataSpecificationView::SubmodelElementList(x) =>
                    x.members_after(tagged(Some("SubmodelElementList"@))),
                HasDataSpecificationView::Submodel(x) => x.members_after(tagged(Some("Submodel"@))),
                HasDataSpecificationView::ConceptDescription(x) =>
                    x.members_after(tagged(Some("ConceptDescription"@))),
            },
        )
    }

    /// The value that a wire value stands for: that of the type that the
    /// member `modelType` names. A name of no accepted type is refused.
    pub open spec fn from_wire(w: WireView) -> Result<HasDataSpecificationView, DecodeErrorView> {
        match w {
            WireView::Record(fields) => match lookup(fields, "modelType"@) {
                None => Err(fail_at(DecodeFault::MissingField, "modelType"@)),
                Some(WireView::Text(tag)) => HasDataSpecificationView::from_tagged(tag, fields),
                Some(_) => Err(fail_at(DecodeFault::ExpectedText, "modelType"@)),
            },
            _ => Err(fail(DecodeFault::ExpectedRecord)),
        }
    }

    /// The value of the type called `tag` that the members of a record stand
    /// for.
    #[verifier::opaque]
    pub open spec fn from_tagged(tag: Seq<char>, fields: Seq<FieldView>) -> Result<
        HasDataSpecificationView,
        DecodeErrorView,
    > {
        if tag == "BasicEventElement"@ {
            match BasicEventElementView::from_members(fields) {
                Ok(x) => Ok(HasDataSpecificationView::BasicEventElement(x)),
                Err(e) => Err(e),
            }
        } else if tag == "Capability"@ {
            match CapabilityView::from_members(fields) {
                Ok(x) => Ok(HasDataSpecificationView::Capability(x)),
                Err(e) => Err(e),
            }
        } else if tag == "SubmodelElementCollection"@ {
            match SubmodelElementCollectionView::from_members(fields) {
                Ok(x) => Ok(HasDataSpecificationView::SubmodelElementCollection(x)),
                Err(e) => Err(e),
            }
        } else if tag == "RelationshipElement"@ {
            match RelationshipElementView::from_members(fields) {
                Ok(x) => Ok(HasDataSpecificationView::RelationshipElement(x)),
                Err(e) => Err(e),
            }
        } else if tag == "ReferenceElement"@ {
            match ReferenceElementView::from_members(fields) {
                Ok(x) => Ok(HasDataSpecificationView::ReferenceElement(x)),
                Err(e) => Err(e),
            }
        } else if tag == "Property"@ {
            match PropertyView::from_members(fields) {
                Ok(x) => Ok(HasDataSpecificationView::Property(x)),
                Err(e) => Err(e),
            }
        } else if tag == "MultiLanguageProperty"@ {
            match MultiLanguagePropertyView::from_members(fields) {
                Ok(x) => Ok(HasDataSpecificationView::MultiLanguageProperty(x)),
                Err(e) => Err(e),
            }
        } else if tag == "AnnotatedRelationshipElement"@ {
            match AnnotatedRelationshipElementView::from_members(fields) {
                Ok(x) => Ok(HasDataSpecificationView::AnnotatedRelationshipElement(x)),
                Err(e) => Err(e),
            }
        } else if tag == "AssetAdministrationShell"@ {
            match AssetAdministrationShellView::from_members(fields) {
                Ok(x) => Ok(HasDataSpecificationView::AssetAdministrationShell(x)),
                Err(e) => Err(e),
            }
        } else if tag == "AdministrativeInformation"@ {
            match AdministrativeInformationView::from_members(fields) {
                Ok(x) => Ok(HasDataSpecificationView::AdministrativeInformation(x)),
                Err(e) => Err(e),
            }
        } else if tag == "Entity"@ {
            match EntityView::from_members(fields) {
                Ok(x) => Ok(HasDataSpecificationView::Entity(x)),
                Err(e) => Err(e),
            }
        } else if tag == "Operation"@ {
            match OperationView::from_members(fields) {
                Ok(x) => Ok(HasDataSpecificationView::Operation(x)),
                Err(e) => Err(e),
            }
        } else if tag == "Range"@ {
            match RangeView::from_members(fields) {
                Ok(x) => Ok(HasDataSpecificationView::Range(x)),
                Err(e) => Err(e),
            }
        } else if tag == "Blob"@ {
            match BlobView::from_members(fields) {
                Ok(x) => Ok(HasDataSpecificationView::Blob(x)),
                Err(e) => Err(e),
            }
        } else if tag == "File"@ {
            match FileView::from_members(fields) {
                Ok(x) => Ok(HasDataSpecificationView::File(x)),
                Err(e) => Err(e),
            }
        } else if tag == "SubmodelElementList"@ {
            match SubmodelElementListView::from_members(fields) {
                Ok(x) => Ok(HasDataSpecificationView::SubmodelElementList(x)),
                Err(e) => Err(e),
            }
        } else if tag == "Submodel"@ {
            match SubmodelView::from_members(fields) {
                Ok(x) => Ok(HasDataSpecificationView::Submodel(x)),
                Err(e) => Err(e),
            }
        } else if tag == "ConceptDescription"@ {
            match ConceptDescriptionView::from_members(fields) {
                Ok(x) => Ok(HasDataSpecificationView::ConceptDescription(x)),
                Err(e) => Err(e),
            }
        } else {
            Err(fail_at(DecodeFault::UnknownDiscriminant, "modelType"@))
        }
    }

    /// What is encoded carries the exact name of its type as its type name.
    pub proof fn lemma_model_type(self)
        ensures
            self.to_wire() matches WireView::Record(fields) && lookup(fields, "modelType"@) == Some(
                WireView::Text(self.model_type()),
            ),
            HasDataSpecificationView::knows(self.model_type()),
    {
        broadcast use lemma_lookup_push;

        match self {
            HasDataSpecificationView::BasicEventElement(x) => {
                x.lemma_model_type_kept(Some("BasicEventElement"@));
            },
            HasDataSpecificationView::Capability(x) => {
                x.lemma_model_type_kept(Some("Capability"@));
            },
            HasDataSpecificationView::SubmodelElementCollection(x) => {
                x.lemma_model_type_kept(Some("SubmodelElementCollection"@));
            },
            HasDataSpecificationView::RelationshipElement(x) => {
                x.lemma_model_type_kept(Some("RelationshipElement"@));
            },
            HasDataSpecificationView::ReferenceElement(x) => {
                x.lemma_model_type_kept(Some("ReferenceElement"@));
            },
            HasDataSpecificationView::Property(x) => {
                x.lemma_model_type_kept(Some("Property"@));
            },
            HasDataSpecificationView::MultiLanguageProperty(x) => {
                x.lemma_model_type_kept(Some("MultiLanguageProperty"@));
            },
            HasDataSpecificationView::AnnotatedRelationshipElement(x) => {
                x.lemma_model_type_kept(Some("AnnotatedRelationshipElement"@));
            },
            HasDataSpecificationView::AssetAdministrationShell(x) => {
                x.lemma_model_type_kept(Some("AssetAdministrationShell"@));
            },
            HasDataSpecificationView::AdministrativeInformation(x) => {
                x.lemma_model_type_kept(Some("AdministrativeInformation"@));
            },
            HasDataSpecificationView::Entity(x) => {
                x.lemma_model_type_kept(Some("Entity"@));
            },
            HasDataSpecificationView::Operation(x) => {
                x.lemma_model_type_kept(Some("Operation"@));
            },
            HasDataSpecificationView::Range(x) => {
                x.lemma_model_type_kept(Some("Range"@));
            },
            HasDataSpecificationView::Blob(x) => {
                x.lemma_model_type_kept(Some("Blob"@));
            },
            HasDataSpecificationView::File(x) => {
                x.lemma_model_type_kept(Some("File"@));
            },
            HasDataSpecificationView::SubmodelElementList(x) => {
                x.lemma_model_type_kept(Some("SubmodelElementList"@));
            },
            HasDataSpecificationView::Submodel(x) => {
                x.lemma_model_type_kept(Some("Submodel"@));
            },
            HasDataSpecificationView::ConceptDescription(x) => {
                x.lemma_model_type_kept(Some("ConceptDescription"@));
            },
        }
    }

    /// A record whose type name is that of no accepted type is refused.
    pub proof fn lemma_unknown_model_type(fields: Seq<FieldView>, tag: Seq<char>)
        requires
            lookup(fields, "modelType"@) == Some(WireView::Text(tag)),
            !HasDataSpecificationView::knows(tag),
        ensures
            HasDataSpecificationView::from_wire(WireView::Record(fields)) ==
                Err::<HasDataSpecificationView, DecodeErrorView>(
                fail_at(DecodeFault::UnknownDiscriminant, "modelType"@),
            ),
    {
        reveal(HasDataSpecificationView::from_tagged);
    }

    /// A value of the variant `BasicEventElement` is found again from what it is on the wire.
    proof fn lemma_round_trip_basic_event_element(x: BasicEventElementView)
        requires
            x.well_formed(),
        ensures
            HasDataSpecificationView::from_wire(HasDataSpecificationView::BasicEventElement(
                x).to_wire()) == Ok::<HasDataSpecificationView, DecodeErrorView>(
                HasDataSpecificationView::BasicEventElement(x),
            ),
    {
        broadcast use lemma_lookup_push;

        reveal(HasDataSpecificationView::from_tagged);
        lemma_name_codes();
        x.lemma_members_round_trip(Some("BasicEventElement"@));
        x.lemma_model_type_kept(Some("BasicEventElement"@));
    }

    /// A value of the variant `Capability` is found again from what it is on the wire.
    proof fn lemma_round_trip_capability(x: CapabilityView)
        requires
            x.well_formed(),
        ensures
            HasDataSpecificationView::from_wire(HasDataSpecificationView::Capability(
                x).to_wire()) == Ok::<HasDataSpecificationView, DecodeErrorView>(
                HasDataSpecificationView::Capability(x),
            ),
    {
        broadcast use lemma_lookup_push;

        reveal(HasDataSpecificationView::from_tagged);
        lemma_name_codes();
        x.lemma_members_round_trip(Some("Capability"@));
        x.lemma_model_type_kept(Some("Capability"@));
    }

    /// A value of the variant `SubmodelElementCollection` is found again from what it is on the
    /// wire.
    proof fn lemma_round_trip_submodel_element_collection(x: SubmodelElementCollectionView)
        requires
            x.well_formed(),
        ensures
            HasDataSpecificationView::from_wire(HasDataSpecificationView::SubmodelElementCollection(
                x).to_wire()) == Ok::<HasDataSpecificationView, DecodeErrorView>(
                HasDataSpecificationView::SubmodelElementCollection(x),
            ),
    {
        broadcast use lemma_lookup_push;

        reveal(HasDataSpecificationView::from_tagged);
        lemma_name_codes();
        x.lemma_members_round_trip(Some("SubmodelElementCollection"@));
        x.lemma_model_type_kept(Some("SubmodelElementCollection"@));
    }

    /// A value of the variant `RelationshipElement` is found again from what it is on the wire.
    proof fn lemma_round_trip_relationship_element(x: RelationshipElementView)
        requires
            x.well_formed(),
        ensures
            HasDataSpecificationView::from_wire(HasDataSpecificationView::RelationshipElement(
                x).to_wire()) == Ok::<HasDataSpecificationView, DecodeErrorView>(
                HasDataSpecificationView::RelationshipElement(x),
            ),
    {
        broadcast use lemma_lookup_push;

        reveal(HasDataSpecificationView::from_tagged);
        lemma_name_codes();
        x.lemma_members_round_trip(Some("RelationshipElement"@));
        x.lemma_model_type_kept(Some("RelationshipElement"@));
    }

    /// A value of the variant `ReferenceElement` is found again from what it is on the wire.
    proof fn lemma_round_trip_reference_element(x: ReferenceElementView)
        requires
            x.well_formed(),
        ensures
            HasDataSpecificationView::from_wire(HasDataSpecificationView::ReferenceElement(
                x).to_wire()) == Ok::<HasDataSpecificationView, DecodeErrorView>(
                HasDataSpecificationView::ReferenceElement(x),
            ),
    {
        broadcast use lemma_lookup_push;

        reveal(HasDataSpecificationView::from_tagged);
        lemma_name_codes();
        x.lemma_members_round_trip(Some("ReferenceElement"@));
        x.lemma_model_type_kept(Some("ReferenceElement"@));
    }

    /// A value of the variant `Property` is found again from what it is on the wire.
    proof fn lemma_round_trip_property(x: PropertyView)
        requires
            x.well_formed(),
        ensures
            HasDataSpecificationView::from_wire(HasDataSpecificationView::Property(x).to_wire()) ==
                Ok::<HasDataSpecificationView, DecodeErrorView>(
                HasDataSpecificationView::Property(x),
            ),
    {
        broadcast use lemma_lookup_push;

        reveal(HasDataSpecificationView::from_tagged);
        lemma_name_codes();
        x.lemma_members_round_trip(Some("Property"@));
        x.lemma_model_type_kept(Some("Property"@));
    }

    /// A value of the variant `MultiLanguageProperty` is found again from what it is on the wire.
    proof fn lemma_round_trip_multi_language_property(x: MultiLanguagePropertyView)
        requires
            x.well_formed(),
        ensures
            HasDataSpecificationView::from_wire(HasDataSpecificationView::MultiLanguageProperty(
                x).to_wire()) == Ok::<HasDataSpecificationView, DecodeErrorView>(
                HasDataSpecificationView::MultiLanguageProperty(x),
            ),
    {
        broadcast use lemma_lookup_push;

        reveal(HasDataSpecificationView::from_tagged);
        lemma_name_codes();
        x.lemma_members_round_trip(Some("MultiLanguageProperty"@));
        x.lemma_model_type_kept(Some("MultiLanguageProperty"@));
    }

    /// A value of the variant `AnnotatedRelationshipElement` is found again from what it is on the
    /// wire.
    proof fn lemma_round_trip_annotated_relationship_element(x: AnnotatedRelationshipElementView)
        requires
            x.well_formed(),
        ensures
            HasDataSpecificationView::from_wire(
                HasDataSpecificationView::AnnotatedRelationshipElement(x).to_wire()) ==
                Ok::<HasDataSpecificationView, DecodeErrorView>(
                HasDataSpecificationView::AnnotatedRelationshipElement(x),
            ),
    {
        broadcast use lemma_lookup_push;

        reveal(HasDataSpecificationView::from_tagged);
        lemma_name_codes();
        x.lemma_members_round_trip(Some("AnnotatedRelationshipElement"@));
        x.lemma_model_type_kept(Some("AnnotatedRelationshipElement"@));
    }

    /// A value of the variant `AssetAdministrationShell` is found again from what it is on the
    /// wire.
    proof fn lemma_round_trip_asset_administration_shell(x: AssetAdministrationShellView)
        requires
            x.well_formed(),
        ensures
            HasDataSpecificationView::from_wire(HasDataSpecificationView::AssetAdministrationShell(
                x).to_wire()) == Ok::<HasDataSpecificationView, DecodeErrorView>(
                HasDataSpecificationView::AssetAdministrationShell(x),
            ),
    {
        broadcast use lemma_lookup_push;

        reveal(HasDataSpecificationView::from_tagged);
        lemma_name_codes();
        x.lemma_members_round_trip(Some("AssetAdministrationShell"@));
        x.lemma_model_type_kept(Some("AssetAdministrationShell"@));
    }

    /// A value of the variant `AdministrativeInformation` is found again from what it is on the
    /// wire.
    proof fn lemma_round_trip_administrative_information(x: AdministrativeInformationView)
        requires
            x.well_formed(),
        ensures
            HasDataSpecificationView::from_wire(HasDataSpecificationView::AdministrativeInformation(
                x).to_wire()) == Ok::<HasDataSpecificationView, DecodeErrorView>(
                HasDataSpecificationView::AdministrativeInformation(x),
            ),
    {
        broadcast use lemma_lookup_push;

        reveal(HasDataSpecificationView::from_tagged);
        lemma_name_codes();
        x.lemma_members_round_trip(Some("AdministrativeInformation"@));
        x.lemma_model_type_kept(Some("AdministrativeInformation"@));
    }

    /// A value of the variant `Entity` is found again from what it is on the wire.
    proof fn lemma_round_trip_entity(x: EntityView)
        requires
            x.well_formed(),
        ensures
            HasDataSpecificationView::from_wire(HasDataSpecificationView::Entity(x).to_wire()) ==
                Ok::<HasDataSpecificationView, DecodeErrorView>(
                HasDataSpecificationView::Entity(x),
            ),
    {
        broadcast use lemma_lookup_push;

        reveal(HasDataSpecificationView::from_tagged);
        lemma_name_codes();
        x.lemma_members_round_trip(Some("Entity"@));
        x.lemma_model_type_kept(Some("Entity"@));
    }

    /// A value of the variant `Operation` is found again from what it is on the wire.
    proof fn lemma_round_trip_operation(x: OperationView)
        requires
            x.well_formed(),
        ensures
            HasDataSpecificationView::from_wire(HasDataSpecificationView::Operation(x).to_wire()) ==
                Ok::<HasDataSpecificationView, DecodeErrorView>(
                HasDataSpecificationView::Operation(x),
            ),
    {
        broadcast use lemma_lookup_push;

        reveal(HasDataSpecificationView::from_tagged);
        lemma_name_codes();
        x.lemma_members_round_trip(Some("Operation"@));
        x.lemma_model_type_kept(Some("Operation"@));
    }

    /// A value of the variant `Range` is found again from what it is on the wire.
    proof fn lemma_round_trip_range(x: RangeView)
        requires
            x.well_formed(),
        ensures
            HasDataSpecificationView::from_wire(HasDataSpecificationView::Range(x).to_wire()) ==
                Ok::<HasDataSpecificationView, DecodeErrorView>(
                HasDataSpecificationView::Range(x),
            ),
    {
        broadcast use lemma_lookup_push;

        reveal(HasDataSpecificationView::from_tagged);
        lemma_name_codes();
        x.lemma_members_round_trip(Some("Range"@));
        x.lemma_model_type_kept(Some("Range"@));
    }

    /// A value of the variant `Blob` is found again from what it is on the wire.
    proof fn lemma_round_trip_blob(x: BlobView)
        requires
            x.well_formed(),
        ensures
            HasDataSpecificationView::from_wire(HasDataSpecificationView::Blob(x).to_wire()) ==
                Ok::<HasDataSpecificationView, DecodeErrorView>(
                HasDataSpecificationView::Blob(x),
            ),
    {
        broadcast use lemma_lookup_push;

        reveal(HasDataSpecificationView::from_tagged);
        lemma_name_codes();
        x.lemma_members_round_trip(Some("Blob"@));
        x.lemma_model_type_kept(Some("Blob"@));
    }

    /// A value of the variant `File` is found again from what it is on the wire.
    proof fn lemma_round_trip_file(x: FileView)
        requires
            x.well_formed(),
        ensures
            HasDataSpecificationView::from_wire(HasDataSpecificationView::File(x).to_wire()) ==
                Ok::<HasDataSpecificationView, DecodeErrorView>(
                HasDataSpecificationView::File(x),
            ),
    {
        broadcast use lemma_lookup_push;

        reveal(HasDataSpecificationView::from_tagged);
        lemma_name_codes();
        x.lemma_members_round_trip(Some("File"@));
        x.lemma_model_type_kept(Some("File"@));
    }

    /// A value of the variant `SubmodelElementList` is found again from what it is on the wire.
    proof fn lemma_round_trip_submodel_element_list(x: SubmodelElementListView)
        requires
            x.well_formed(),
        ensures
            HasDataSpecificationView::from_wire(HasDataSpecificationView::SubmodelElementList(
                x).to_wire()) == Ok::<HasDataSpecificationView, DecodeErrorView>(
                HasDataSpecificationView::SubmodelElementList(x),
            ),
    {
        broadcast use lemma_lookup_push;

        reveal(HasDataSpecificationView::from_tagged);
        lemma_name_codes();
        x.lemma_members_round_trip(Some("SubmodelElementList"@));
        x.lemma_model_type_kept(Some("SubmodelElementList"@));
    }

    /// A value of the variant `Submodel` is found again from what it is on the wire.
    proof fn lemma_round_trip_submodel(x: SubmodelView)
        requires
            x.well_formed(),
        ensures
            HasDataSpecificationView::from_wire(HasDataSpecificationView::Submodel(x).to_wire()) ==
                Ok::<HasDataSpecificationView, DecodeErrorView>(
                HasDataSpecificationView::Submodel(x),
            ),
    {
        broadcast use lemma_lookup_push;

        reveal(HasDataSpecificationView::from_tagged);
        lemma_name_codes();
        x.lemma_members_round_trip(Some("Submodel"@));
        x.lemma_model_type_kept(Some("Submodel"@));
    }

    /// A value of the variant `ConceptDescription` is found again from what it is on the wire.
    proof fn lemma_round_trip_concept_description(x: ConceptDescriptionView)
        requires
            x.well_formed(),
        ensures
            HasDataSpecificationView::from_wire(HasDataSpecificationView::ConceptDescription(
                x).to_wire()) == Ok::<HasDataSpecificationView, DecodeErrorView>(
                HasDataSpecificationView::ConceptDescription(x),
            ),
    {
        broadcast use lemma_lookup_push;

        reveal(HasDataSpecificationView::from_tagged);
        lemma_name_codes();
        x.lemma_members_round_trip(Some("ConceptDescription"@));
        x.lemma_model_type_kept(Some("ConceptDescription"@));
    }

    /// Every value is found again from what it is on the wire.
    pub proof fn lemma_round_trip(self)
        requires
            self.well_formed(),
        ensures
            HasDataSpecificationView::from_wire(self.to_wire()) ==
                Ok::<HasDataSpecificationView, DecodeErrorView>(self),
    {
        match self {
            HasDataSpecificationView::BasicEventElement(x) => {
                HasDataSpecificationView::lemma_round_trip_basic_event_element(x);
            },
            HasDataSpecificationView::Capability(x) => {
                HasDataSpecificationView::lemma_round_trip_capability(x);
            },
            HasDataSpecificationView::SubmodelElementCollection(x) => {
                HasDataSpecificationView::lemma_round_trip_submodel_element_collection(x);
            },
            HasDataSpecificationView::RelationshipElement(x) => {
                HasDataSpecificationView::lemma_round_trip_relationship_element(x);
            },
            HasDataSpecificationView::ReferenceElement(x) => {
                HasDataSpecificationView::lemma_round_trip_reference_element(x);
            },
            HasDataSpecificationView::Property(x) => {
                HasDataSpecificationView::lemma_round_trip_property(x);
            },
            HasDataSpecificationView::MultiLanguageProperty(x) => {
                HasDataSpecificationView::lemma_round_trip_multi_language_property(x);
            },
            HasDataSpecificationView::AnnotatedRelationshipElement(x) => {
                HasDataSpecificationView::lemma_round_trip_annotated_relationship_element(x);
            },
            HasDataSpecificationView::AssetAdministrationShell(x) => {
                HasDataSpecificationView::lemma_round_trip_asset_administration_shell(x);
            },
            HasDataSpecificationView::AdministrativeInformation(x) => {
                HasDataSpecificationView::lemma_round_trip_administrative_information(x);
            },
            HasDataSpecificationView::Entity(x) => {
                HasDataSpecificationView::lemma_round_trip_entity(x);
            },
            HasDataSpecificationView::Operation(x) => {
                HasDataSpecificationView::lemma_round_trip_operation(x);
            },
            HasDataSpecificationView::Range(x) => {
                HasDataSpecificationView::lemma_round_trip_range(x);
            },
            HasDataSpecificationView::Blob(x) => {
                HasDataSpecificationView::lemma_round_trip_blob(x);
            },
            HasDataSpecificationView::File(x) => {
                HasDataSpecificationView::lemma_round_trip_file(x);
            },
            HasDataSpecificationView::SubmodelElementList(x) => {
                HasDataSpecificationView::lemma_round_trip_submodel_element_list(x);
            },
            HasDataSpecificationView::Submodel(x) => {
                HasDataSpecificationView::lemma_round_trip_submodel(x);
            },
            HasDataSpecificationView::ConceptDescription(x) => {
                HasDataSpecificationView::lemma_round_trip_concept_description(x);
            },
        }
    }
}

impl HasDataSpecification {
    /// The name of the type of the value.
    pub fn model_type(&self) -> (s: &'static str)
        ensures
            s@ == self@.model_type(),
    {
        match self {
            HasDataSpecification::BasicEventElement(_) => "BasicEventElement",
            HasDataSpecification::Capability(_) => "Capability",
            HasDataSpecification::SubmodelElementCollection(_) => "SubmodelElementCollection",
            HasDataSpecification::RelationshipElement(_) => "RelationshipElement",
            HasDataSpecification::ReferenceElement(_) => "ReferenceElement",
            HasDataSpecification::Property(_) => "Property",
            HasDataSpecification::MultiLanguageProperty(_) => "MultiLanguageProperty",
            HasDataSpecification::AnnotatedRelationshipElement(_) => "AnnotatedRelationshipElement",
            HasDataSpecification::AssetAdministrationShell(_) => "AssetAdministrationShell",
            HasDataSpecification::AdministrativeInformation(_) => "AdministrativeInformation",
            HasDataSpecification::Entity(_) => "Entity",
            HasDataSpecification::Operation(_) => "Operation",
            HasDataSpecification::Range(_) => "Range",
            HasDataSpecification::Blob(_) => "Blob",
            HasDataSpecification::File(_) => "File",
            HasDataSpecification::SubmodelElementList(_) => "SubmodelElementList",
            HasDataSpecification::Submodel(_) => "Submodel",
            HasDataSpecification::ConceptDescription(_) => "ConceptDescription",
        }
    }

    /// The value as it travels: a record that begins with the name of the
    /// type. What comes out decodes to the same value again.
    pub fn encode(&self) -> (w: Wire)
        ensures
            w@ == self@.to_wire(),
            self@.well_formed(),
            HasDataSpecificationView::from_wire(w@) ==
                Ok::<HasDataSpecificationView, DecodeErrorView>(self@),
    {
        let mut fields: Vec<Field> = Vec::new();
        assert(fields.deep_view() =~= Seq::<FieldView>::empty());
        add_member(&mut fields, "modelType", Wire::text(self.model_type()));
        match self {
            HasDataSpecification::BasicEventElement(x) => x.encode_members(&mut fields),
            HasDataSpecification::Capability(x) => x.encode_members(&mut fields),
            HasDataSpecification::SubmodelElementCollection(x) => x.encode_members(&mut fields),
            HasDataSpecification::RelationshipElement(x) => x.encode_members(&mut fields),
            HasDataSpecification::ReferenceElement(x) => x.encode_members(&mut fields),
            HasDataSpecification::Property(x) => x.encode_members(&mut fields),
            HasDataSpecification::MultiLanguageProperty(x) => x.encode_members(&mut fields),
            HasDataSpecification::AnnotatedRelationshipElement(x) => x.encode_members(&mut fields),
            HasDataSpecification::AssetAdministrationShell(x) => x.encode_members(&mut fields),
            HasDataSpecification::AdministrativeInformation(x) => x.encode_members(&mut fields),
            HasDataSpecification::Entity(x) => x.encode_members(&mut fields),
            HasDataSpecification::Operation(x) => x.encode_members(&mut fields),
            HasDataSpecification::Range(x) => x.encode_members(&mut fields),
            HasDataSpecification::Blob(x) => x.encode_members(&mut fields),
            HasDataSpecification::File(x) => x.encode_members(&mut fields),
            HasDataSpecification::SubmodelElementList(x) => x.encode_members(&mut fields),
            HasDataSpecification::Submodel(x) => x.encode_members(&mut fields),
            HasDataSpecification::ConceptDescription(x) => x.encode_members(&mut fields),
        }
        proof {
            self@.lemma_round_trip();
        }
        Wire::record(fields)
    }

    /// The value that `w` stands for.
    pub fn decode(w: &Wire) -> (r: Result<HasDataSpecification, DecodeError>)
        ensures
            outcome(r) == HasDataSpecificationView::from_wire(w@),
    {
        let fields = match w.members() {
            Some(fields) => fields,
            None => {
                return Err(DecodeError::new(DecodeFault::ExpectedRecord));
            },
        };
        let tag = match find(fields, "modelType") {
            None => {
                return Err(DecodeError::at(DecodeFault::MissingField, "modelType"));
            },
            Some(Wire::Text(tag)) => tag,
            Some(_) => {
                return Err(DecodeError::at(DecodeFault::ExpectedText, "modelType"));
            },
        };
        proof {
            reveal(HasDataSpecificationView::from_tagged);
        }
        if same_text(tag.as_str(), "BasicEventElement") {
            match BasicEventElement::decode_members(fields) {
                Ok(x) => Ok(HasDataSpecification::BasicEventElement(x)),
                Err(e) => Err(e),
            }
        } else if same_text(tag.as_str(), "Capability") {
            match Capability::decode_members(fields) {
                Ok(x) => Ok(HasDataSpecification::Capability(x)),
                Err(e) => Err(e),
            }
        } else if same_text(tag.as_str(), "SubmodelElementCollection") {
            match SubmodelElementCollection::decode_members(fields) {
                Ok(x) => Ok(HasDataSpecification::SubmodelElementCollection(x)),
                Err(e) => Err(e),
            }
        } else if same_text(tag.as_str(), "RelationshipElement") {
            match RelationshipElement::decode_members(fields) {
                Ok(x) => Ok(HasDataSpecification::RelationshipElement(x)),
                Err(e) => Err(e),
            }
        } else if same_text(tag.as_str(), "ReferenceElement") {
            match ReferenceElement::decode_members(fields) {
                Ok(x) => Ok(HasDataSpecification::ReferenceElement(x)),
                Err(e) => Err(e),
            }
        } else if same_text(tag.as_str(), "Property") {
            match Property::decode_members(fields) {
                Ok(x) => Ok(HasDataSpecification::Property(x)),
                Err(e) => Err(e),
            }
        } else if same_text(tag.as_str(), "MultiLanguageProperty") {
            match MultiLanguageProperty::decode_members(fields) {
                Ok(x) => Ok(HasDataSpecification::MultiLanguageProperty(x)),
                Err(e) => Err(e),
            }
        } else if same_text(tag.as_str(), "AnnotatedRelationshipElement") {
            match AnnotatedRelationshipElement::decode_members(fields) {
                Ok(x) => Ok(HasDataSpecification::AnnotatedRelationshipElement(x)),
                Err(e) => Err(e),
            }
        } else if same_text(tag.as_str(), "AssetAdministrationShell") {
            match AssetAdministrationShell::decode_members(fields) {
                Ok(x) => Ok(HasDataSpecification::AssetAdministrationShell(x)),
                Err(e) => Err(e),
            }
        } else if same_text(tag.as_str(), "AdministrativeInformation") {
            match AdministrativeInformation::decode_members(fields) {
                Ok(x) => Ok(HasDataSpecification::AdministrativeInformation(x)),
                Err(e) => Err(e),
            }
        } else if same_text(tag.as_str(), "Entity") {
            match Entity::decode_members(fields) {
                Ok(x) => Ok(HasDataSpecification::Entity(x)),
                Err(e) => Err(e),
            }
        } else if same_text(tag.as_str(), "Operation") {
            match Operation::decode_members(fields) {
                Ok(x) => Ok(HasDataSpecification::Operation(x)),
                Err(e) => Err(e),
            }
        } else if same_text(tag.as_str(), "Range") {
            match Range::decode_members(fields) {
                Ok(x) => Ok(HasDataSpecification::Range(x)),
                Err(e) => Err(e),
            }
        } else if same_text(tag.as_str(), "Blob") {
            match Blob::decode_members(fields) {
                Ok(x) => Ok(HasDataSpecification::Blob(x)),
                Err(e) => Err(e),
            }
        } else if same_text(tag.as_str(), "File") {
            match File::decode_members(fields) {
                Ok(x) => Ok(HasDataSpecification::File(x)),
                Err(e) => Err(e),
            }
        } else if same_text(tag.as_str(), "SubmodelElementList") {
            match SubmodelElementList::decode_members(fields) {
                Ok(x) => Ok(HasDataSpecification::SubmodelElementList(x)),
                Err(e) => Err(e),
            }
        } else if same_text(tag.as_str(), "Submodel") {
            match Submodel::decode_members(fields) {
                Ok(x) => Ok(HasDataSpecification::Submodel(x)),
                Err(e) => Err(e),
            }
        } else if same_text(tag.as_str(), "ConceptDescription") {
            match ConceptDescription::decode_members(fields) {
                Ok(x) => Ok(HasDataSpecification::ConceptDescription(x)),
                Err(e) => Err(e),
            }
        } else {
            Err(DecodeError::at(DecodeFault::UnknownDiscriminant, "modelType"))
        }
    }
}

} // verus!
