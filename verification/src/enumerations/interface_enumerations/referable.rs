use vstd::prelude::*;
use crate::error::ModelError;
use crate::names::lemma_name_codes;
use crate::structs::annotated_relationship_element::{
    AnnotatedRelationshipElement,
    AnnotatedRelationshipElementView,
};
use crate::structs::asset_administration_shell::{
    AssetAdministrationShell,
    AssetAdministrationShellView,
};
use crate::structs::basic_event_element::{BasicEventElement, BasicEventElementView};
use crate::structs::blob::{Blob, BlobView};
use crate::structs::capability::{Capability, CapabilityView};
use crate::structs::concept_description::{ConceptDescription, ConceptDescriptionView};
use crate::structs::entity::{Entity, EntityView};
use crate::structs::file::{File, FileView};
use crate::structs::multi_language_name_type::MultiLanguageNameType;
use crate::structs::multi_language_property::{MultiLanguageProperty, MultiLanguagePropertyView};
use crate::structs::multi_language_text_type::MultiLanguageTextType;
use crate::structs::operation::{Operation, OperationView};
use crate::structs::property::{Property, PropertyView};
use crate::structs::range::{Range, RangeView};
use crate::structs::reference_element::{ReferenceElement, ReferenceElementView};
use crate::structs::relationship_element::{RelationshipElement, RelationshipElementView};
use crate::structs::submodel::{Submodel, SubmodelView};
use crate::structs::submodel_element_collection::{
    SubmodelElementCollection,
    SubmodelElementCollectionView,
};
use crate::structs::submodel_element_list::{SubmodelElementList, SubmodelElementListView};
use crate::traits::referable::{ReferableAspect, TReferable};
use crate::wire::{
    add_member,
    fail,
    fail_at,
    find,
    lemma_lookup_push,
    lookup,
    member,
    outcome,
    same_text,
    tagged,
    DecodeError,
    DecodeErrorView,
    DecodeFault,
    Field,
    FieldView,
    Wire,
    WireView,
};

verus! {

/// Any of the elements that are referable by a short ID.
#[derive(Debug, PartialEq)]
pub enum Referable {
    AnnotatedRelationshipElement(AnnotatedRelationshipElement),
    AssetAdministrationShell(AssetAdministrationShell),
    BasicEventElement(Box<BasicEventElement>),
    Blob(Blob),
    Capability(Capability),
    ConceptDescription(ConceptDescription),
    Entity(Entity),
    File(File),
    MultiLanguageProperty(MultiLanguageProperty),
    Operation(Operation),
    Property(Property),
    Range(Range),
    ReferenceElement(ReferenceElement),
    RelationshipElement(RelationshipElement),
    Submodel(Submodel),
    SubmodelElementCollection(SubmodelElementCollection),
    SubmodelElementList(SubmodelElementList),
}

/// The mathematical form of a [`Referable`].
#[verifier::ext_equal]
pub enum ReferableView {
    AnnotatedRelationshipElement(AnnotatedRelationshipElementView),
    AssetAdministrationShell(AssetAdministrationShellView),
    BasicEventElement(Box<BasicEventElementView>),
    Blob(BlobView),
    Capability(CapabilityView),
    ConceptDescription(ConceptDescriptionView),
    Entity(EntityView),
    File(FileView),
    MultiLanguageProperty(MultiLanguagePropertyView),
    Operation(OperationView),
    Property(PropertyView),
    Range(RangeView),
    ReferenceElement(ReferenceElementView),
    RelationshipElement(RelationshipElementView),
    Submodel(SubmodelView),
    SubmodelElementCollection(SubmodelElementCollectionView),
    SubmodelElementList(SubmodelElementListView),
}

impl Referable {
    /// The mathematical form of the value.
    pub open spec fn model(&self) -> ReferableView
        decreases self,
    {
        match self {
            Referable::AnnotatedRelationshipElement(x) =>
                ReferableView::AnnotatedRelationshipElement(x@),
            Referable::AssetAdministrationShell(x) => ReferableView::AssetAdministrationShell(x@),
            Referable::BasicEventElement(x) =>
                ReferableView::BasicEventElement(Box::new((**x).model())),
            Referable::Blob(x) => ReferableView::Blob(x@),
            Referable::Capability(x) => ReferableView::Capability(x@),
            Referable::ConceptDescription(x) => ReferableView::ConceptDescription(x@),
            Referable::Entity(x) => ReferableView::Entity(x.model()),
            Referable::File(x) => ReferableView::File(x@),
            Referable::MultiLanguageProperty(x) => ReferableView::MultiLanguageProperty(x@),
            Referable::Operation(x) => ReferableView::Operation(x.model()),
            Referable::Property(x) => ReferableView::Property(x@),
            Referable::Range(x) => ReferableView::Range(x@),
            Referable::ReferenceElement(x) => ReferableView::ReferenceElement(x@),
            Referable::RelationshipElement(x) => ReferableView::RelationshipElement(x@),
            Referable::Submodel(x) => ReferableView::Submodel(x.model()),
            Referable::SubmodelElementCollection(x) =>
                ReferableView::SubmodelElementCollection(x.model()),
            Referable::SubmodelElementList(x) => ReferableView::SubmodelElementList(x.model()),
        }
    }
}

impl View for Referable {
    type V = ReferableView;

    open spec fn view(&self) -> ReferableView {
        self.model()
    }
}

impl DeepView for Referable {
    type V = ReferableView;

    open spec fn deep_view(&self) -> ReferableView {
        self@
    }
}

impl Clone for Referable {
    fn clone(&self) -> (r: Referable)
        ensures
            r@ == self@,
        decreases self,
    {
        match self {
            Referable::AnnotatedRelationshipElement(x) =>
                Referable::AnnotatedRelationshipElement(x.clone()),
            Referable::AssetAdministrationShell(x) =>
                Referable::AssetAdministrationShell(x.clone()),
            Referable::BasicEventElement(x) =>
                Referable::BasicEventElement(Box::new((**x).clone())),
            Referable::Blob(x) => Referable::Blob(x.clone()),
            Referable::Capability(x) => Referable::Capability(x.clone()),
            Referable::ConceptDescription(x) => Referable::ConceptDescription(x.clone()),
            Referable::Entity(x) => Referable::Entity(x.clone()),
            Referable::File(x) => Referable::File(x.clone()),
            Referable::MultiLanguageProperty(x) => Referable::MultiLanguageProperty(x.clone()),
            Referable::Operation(x) => Referable::Operation(x.clone()),
            Referable::Property(x) => Referable::Property(x.clone()),
            Referable::Range(x) => Referable::Range(x.clone()),
            Referable::ReferenceElement(x) => Referable::ReferenceElement(x.clone()),
            Referable::RelationshipElement(x) => Referable::RelationshipElement(x.clone()),
            Referable::Submodel(x) => Referable::Submodel(x.clone()),
            Referable::SubmodelElementCollection(x) =>
                Referable::SubmodelElementCollection(x.clone()),
            Referable::SubmodelElementList(x) => Referable::SubmodelElementList(x.clone()),
        }
    }
}

impl TReferable for Referable {
    open spec fn referable(&self) -> ReferableAspect {
        match self {
            Referable::AnnotatedRelationshipElement(x) => x.referable(),
            Referable::AssetAdministrationShell(x) => x.referable(),
            Referable::BasicEventElement(x) => x.referable(),
            Referable::Blob(x) => x.referable(),
            Referable::Capability(x) => x.referable(),
            Referable::ConceptDescription(x) => x.referable(),
            Referable::Entity(x) => x.referable(),
            Referable::File(x) => x.referable(),
            Referable::MultiLanguageProperty(x) => x.referable(),
            Referable::Operation(x) => x.referable(),
            Referable::Property(x) => x.referable(),
            Referable::Range(x) => x.referable(),
            Referable::ReferenceElement(x) => x.referable(),
            Referable::RelationshipElement(x) => x.referable(),
            Referable::Submodel(x) => x.referable(),
            Referable::SubmodelElementCollection(x) => x.referable(),
            Referable::SubmodelElementList(x) => x.referable(),
        }
    }

    fn set_category(&mut self, category: String)
        ensures
            final(self)@ ==
                old(self)@.with_referable(ReferableAspect { category: Some(category@),
                ..old(self).referable() }),
    {
        match self {
            Referable::AnnotatedRelationshipElement(x) => x.set_category(category),
            Referable::AssetAdministrationShell(x) => x.set_category(category),
            Referable::BasicEventElement(x) => x.set_category(category),
            Referable::Blob(x) => x.set_category(category),
            Referable::Capability(x) => x.set_category(category),
            Referable::ConceptDescription(x) => x.set_category(category),
            Referable::Entity(x) => x.set_category(category),
            Referable::File(x) => x.set_category(category),
            Referable::MultiLanguageProperty(x) => x.set_category(category),
            Referable::Operation(x) => x.set_category(category),
            Referable::Property(x) => x.set_category(category),
            Referable::Range(x) => x.set_category(category),
            Referable::ReferenceElement(x) => x.set_category(category),
            Referable::RelationshipElement(x) => x.set_category(category),
            Referable::Submodel(x) => x.set_category(category),
            Referable::SubmodelElementCollection(x) => x.set_category(category),
            Referable::SubmodelElementList(x) => x.set_category(category),
        }
    }

    fn get_category(&self) -> (r: Option<&String>) {
        match self {
            Referable::AnnotatedRelationshipElement(x) => x.get_category(),
            Referable::AssetAdministrationShell(x) => x.get_category(),
            Referable::BasicEventElement(x) => x.get_category(),
            Referable::Blob(x) => x.get_category(),
            Referable::Capability(x) => x.get_category(),
            Referable::ConceptDescription(x) => x.get_category(),
            Referable::Entity(x) => x.get_category(),
            Referable::File(x) => x.get_category(),
            Referable::MultiLanguageProperty(x) => x.get_category(),
            Referable::Operation(x) => x.get_category(),
            Referable::Property(x) => x.get_category(),
            Referable::Range(x) => x.get_category(),
            Referable::ReferenceElement(x) => x.get_category(),
            Referable::RelationshipElement(x) => x.get_category(),
            Referable::Submodel(x) => x.get_category(),
            Referable::SubmodelElementCollection(x) => x.get_category(),
            Referable::SubmodelElementList(x) => x.get_category(),
        }
    }

    fn get_mut_category(&mut self) -> (r: Option<&mut String>)
        ensures
            match r {
                Some(m) =>
                    final(self)@ ==
                    old(self)@.with_referable(ReferableAspect { category: Some(final(m)@),
                    ..old(self).referable() }),
                None => final(self)@ == old(self)@,
            },
    {
        match self {
            Referable::AnnotatedRelationshipElement(x) => x.get_mut_category(),
            Referable::AssetAdministrationShell(x) => x.get_mut_category(),
            Referable::BasicEventElement(x) => x.get_mut_category(),
            Referable::Blob(x) => x.get_mut_category(),
            Referable::Capability(x) => x.get_mut_category(),
            Referable::ConceptDescription(x) => x.get_mut_category(),
            Referable::Entity(x) => x.get_mut_category(),
            Referable::File(x) => x.get_mut_category(),
            Referable::MultiLanguageProperty(x) => x.get_mut_category(),
            Referable::Operation(x) => x.get_mut_category(),
            Referable::Property(x) => x.get_mut_category(),
            Referable::Range(x) => x.get_mut_category(),
            Referable::ReferenceElement(x) => x.get_mut_category(),
            Referable::RelationshipElement(x) => x.get_mut_category(),
            Referable::Submodel(x) => x.get_mut_category(),
            Referable::SubmodelElementCollection(x) => x.get_mut_category(),
            Referable::SubmodelElementList(x) => x.get_mut_category(),
        }
    }

    fn set_id_short(&mut self, id_short: String)
        ensures
            final(self)@ ==
                old(self)@.with_referable(ReferableAspect { id_short: Some(id_short@),
                ..old(self).referable() }),
    {
        match self {
            Referable::AnnotatedRelationshipElement(x) => x.set_id_short(id_short),
            Referable::AssetAdministrationShell(x) => x.set_id_short(id_short),
            Referable::BasicEventElement(x) => x.set_id_short(id_short),
            Referable::Blob(x) => x.set_id_short(id_short),
            Referable::Capability(x) => x.set_id_short(id_short),
            Referable::ConceptDescription(x) => x.set_id_short(id_short),
            Referable::Entity(x) => x.set_id_short(id_short),
            Referable::File(x) => x.set_id_short(id_short),
            Referable::MultiLanguageProperty(x) => x.set_id_short(id_short),
            Referable::Operation(x) => x.set_id_short(id_short),
            Referable::Property(x) => x.set_id_short(id_short),
            Referable::Range(x) => x.set_id_short(id_short),
            Referable::ReferenceElement(x) => x.set_id_short(id_short),
            Referable::RelationshipElement(x) => x.set_id_short(id_short),
            Referable::Submodel(x) => x.set_id_short(id_short),
            Referable::SubmodelElementCollection(x) => x.set_id_short(id_short),
            Referable::SubmodelElementList(x) => x.set_id_short(id_short),
        }
    }

    fn get_id_short(&self) -> (r: Option<&String>) {
        match self {
            Referable::AnnotatedRelationshipElement(x) => x.get_id_short(),
            Referable::AssetAdministrationShell(x) => x.get_id_short(),
            Referable::BasicEventElement(x) => x.get_id_short(),
            Referable::Blob(x) => x.get_id_short(),
            Referable::Capability(x) => x.get_id_short(),
            Referable::ConceptDescription(x) => x.get_id_short(),
            Referable::Entity(x) => x.get_id_short(),
            Referable::File(x) => x.get_id_short(),
            Referable::MultiLanguageProperty(x) => x.get_id_short(),
            Referable::Operation(x) => x.get_id_short(),
            Referable::Property(x) => x.get_id_short(),
            Referable::Range(x) => x.get_id_short(),
            Referable::ReferenceElement(x) => x.get_id_short(),
            Referable::RelationshipElement(x) => x.get_id_short(),
            Referable::Submodel(x) => x.get_id_short(),
            Referable::SubmodelElementCollection(x) => x.get_id_short(),
            Referable::SubmodelElementList(x) => x.get_id_short(),
        }
    }

    fn get_mut_id_short(&mut self) -> (r: Option<&mut String>)
        ensures
            match r {
                Some(m) =>
                    final(self)@ ==
                    old(self)@.with_referable(ReferableAspect { id_short: Some(final(m)@),
                    ..old(self).referable() }),
                None => final(self)@ == old(self)@,
            },
    {
        match self {
            Referable::AnnotatedRelationshipElement(x) => x.get_mut_id_short(),
            Referable::AssetAdministrationShell(x) => x.get_mut_id_short(),
            Referable::BasicEventElement(x) => x.get_mut_id_short(),
            Referable::Blob(x) => x.get_mut_id_short(),
            Referable::Capability(x) => x.get_mut_id_short(),
            Referable::ConceptDescription(x) => x.get_mut_id_short(),
            Referable::Entity(x) => x.get_mut_id_short(),
            Referable::File(x) => x.get_mut_id_short(),
            Referable::MultiLanguageProperty(x) => x.get_mut_id_short(),
            Referable::Operation(x) => x.get_mut_id_short(),
            Referable::Property(x) => x.get_mut_id_short(),
            Referable::Range(x) => x.get_mut_id_short(),
            Referable::ReferenceElement(x) => x.get_mut_id_short(),
            Referable::RelationshipElement(x) => x.get_mut_id_short(),
            Referable::Submodel(x) => x.get_mut_id_short(),
            Referable::SubmodelElementCollection(x) => x.get_mut_id_short(),
            Referable::SubmodelElementList(x) => x.get_mut_id_short(),
        }
    }

    fn set_display_name(&mut self, display_name: Vec<MultiLanguageNameType>)
        ensures
            final(self)@ ==
                old(self)@.with_referable(ReferableAspect { display_name: display_name.deep_view(),
                ..old(self).referable() }),
    {
        match self {
            Referable::AnnotatedRelationshipElement(x) => x.set_display_name(display_name),
            Referable::AssetAdministrationShell(x) => x.set_display_name(display_name),
            Referable::BasicEventElement(x) => x.set_display_name(display_name),
            Referable::Blob(x) => x.set_display_name(display_name),
            Referable::Capability(x) => x.set_display_name(display_name),
            Referable::ConceptDescription(x) => x.set_display_name(display_name),
            Referable::Entity(x) => x.set_display_name(display_name),
            Referable::File(x) => x.set_display_name(display_name),
            Referable::MultiLanguageProperty(x) => x.set_display_name(display_name),
            Referable::Operation(x) => x.set_display_name(display_name),
            Referable::Property(x) => x.set_display_name(display_name),
            Referable::Range(x) => x.set_display_name(display_name),
            Referable::ReferenceElement(x) => x.set_display_name(display_name),
            Referable::RelationshipElement(x) => x.set_display_name(display_name),
            Referable::Submodel(x) => x.set_display_name(display_name),
            Referable::SubmodelElementCollection(x) => x.set_display_name(display_name),
            Referable::SubmodelElementList(x) => x.set_display_name(display_name),
        }
    }

    fn get_display_name(&self) -> (r: &Vec<MultiLanguageNameType>) {
        match self {
            Referable::AnnotatedRelationshipElement(x) => x.get_display_name(),
            Referable::AssetAdministrationShell(x) => x.get_display_name(),
            Referable::BasicEventElement(x) => x.get_display_name(),
            Referable::Blob(x) => x.get_display_name(),
            Referable::Capability(x) => x.get_display_name(),
            Referable::ConceptDescription(x) => x.get_display_name(),
            Referable::Entity(x) => x.get_display_name(),
            Referable::File(x) => x.get_display_name(),
            Referable::MultiLanguageProperty(x) => x.get_display_name(),
            Referable::Operation(x) => x.get_display_name(),
            Referable::Property(x) => x.get_display_name(),
            Referable::Range(x) => x.get_display_name(),
            Referable::ReferenceElement(x) => x.get_display_name(),
            Referable::RelationshipElement(x) => x.get_display_name(),
            Referable::Submodel(x) => x.get_display_name(),
            Referable::SubmodelElementCollection(x) => x.get_display_name(),
            Referable::SubmodelElementList(x) => x.get_display_name(),
        }
    }

    fn get_mut_display_name(&mut self) -> (r: &mut Vec<MultiLanguageNameType>)
        ensures
            final(self)@ ==
                old(self)@.with_referable(ReferableAspect { display_name: final(r).deep_view(),
                ..old(self).referable() }),
    {
        match self {
            Referable::AnnotatedRelationshipElement(x) => x.get_mut_display_name(),
            Referable::AssetAdministrationShell(x) => x.get_mut_display_name(),
            Referable::BasicEventElement(x) => x.get_mut_display_name(),
            Referable::Blob(x) => x.get_mut_display_name(),
            Referable::Capability(x) => x.get_mut_display_name(),
            Referable::ConceptDescription(x) => x.get_mut_display_name(),
            Referable::Entity(x) => x.get_mut_display_name(),
            Referable::File(x) => x.get_mut_display_name(),
            Referable::MultiLanguageProperty(x) => x.get_mut_display_name(),
            Referable::Operation(x) => x.get_mut_display_name(),
            Referable::Property(x) => x.get_mut_display_name(),
            Referable::Range(x) => x.get_mut_display_name(),
            Referable::ReferenceElement(x) => x.get_mut_display_name(),
            Referable::RelationshipElement(x) => x.get_mut_display_name(),
            Referable::Submodel(x) => x.get_mut_display_name(),
            Referable::SubmodelElementCollection(x) => x.get_mut_display_name(),
            Referable::SubmodelElementList(x) => x.get_mut_display_name(),
        }
    }

    fn add_display_name(&mut self, display_name: MultiLanguageNameType)
        ensures
            final(self)@ ==
                old(self)@.with_referable(ReferableAspect {
                display_name: old(self).referable().display_name.push(display_name@),
                ..old(self).referable() }),
    {
        match self {
            Referable::AnnotatedRelationshipElement(x) => x.add_display_name(display_name),
            Referable::AssetAdministrationShell(x) => x.add_display_name(display_name),
            Referable::BasicEventElement(x) => x.add_display_name(display_name),
            Referable::Blob(x) => x.add_display_name(display_name),
            Referable::Capability(x) => x.add_display_name(display_name),
            Referable::ConceptDescription(x) => x.add_display_name(display_name),
            Referable::Entity(x) => x.add_display_name(display_name),
            Referable::File(x) => x.add_display_name(display_name),
            Referable::MultiLanguageProperty(x) => x.add_display_name(display_name),
            Referable::Operation(x) => x.add_display_name(display_name),
            Referable::Property(x) => x.add_display_name(display_name),
            Referable::Range(x) => x.add_display_name(display_name),
            Referable::ReferenceElement(x) => x.add_display_name(display_name),
            Referable::RelationshipElement(x) => x.add_display_name(display_name),
            Referable::Submodel(x) => x.add_display_name(display_name),
            Referable::SubmodelElementCollection(x) => x.add_display_name(display_name),
            Referable::SubmodelElementList(x) => x.add_display_name(display_name),
        }
    }

    fn remove_display_name(&mut self, index: usize) -> (r: Result<MultiLanguageNameType,
        ModelError>)
        ensures
            match r {
                Ok(item) =>
                    final(self)@ ==
                    old(self)@.with_referable(ReferableAspect {
                    display_name: old(self).referable().display_name.remove(index as int),
                    ..old(self).referable() }),
                Err(e) => final(self)@ == old(self)@,
            },
    {
        match self {
            Referable::AnnotatedRelationshipElement(x) => x.remove_display_name(index),
            Referable::AssetAdministrationShell(x) => x.remove_display_name(index),
            Referable::BasicEventElement(x) => x.remove_display_name(index),
            Referable::Blob(x) => x.remove_display_name(index),
            Referable::Capability(x) => x.remove_display_name(index),
            Referable::ConceptDescription(x) => x.remove_display_name(index),
            Referable::Entity(x) => x.remove_display_name(index),
            Referable::File(x) => x.remove_display_name(index),
            Referable::MultiLanguageProperty(x) => x.remove_display_name(index),
            Referable::Operation(x) => x.remove_display_name(index),
            Referable::Property(x) => x.remove_display_name(index),
            Referable::Range(x) => x.remove_display_name(index),
            Referable::ReferenceElement(x) => x.remove_display_name(index),
            Referable::RelationshipElement(x) => x.remove_display_name(index),
            Referable::Submodel(x) => x.remove_display_name(index),
            Referable::SubmodelElementCollection(x) => x.remove_display_name(index),
            Referable::SubmodelElementList(x) => x.remove_display_name(index),
        }
    }

    fn set_description(&mut self, description: Vec<MultiLanguageTextType>)
        ensures
            final(self)@ ==
                old(self)@.with_referable(ReferableAspect { description: description.deep_view(),
                ..old(self).referable() }),
    {
        match self {
            Referable::AnnotatedRelationshipElement(x) => x.set_description(description),
            Referable::AssetAdministrationShell(x) => x.set_description(description),
            Referable::BasicEventElement(x) => x.set_description(description),
            Referable::Blob(x) => x.set_description(description),
            Referable::Capability(x) => x.set_description(description),
            Referable::ConceptDescription(x) => x.set_description(description),
            Referable::Entity(x) => x.set_description(description),
            Referable::File(x) => x.set_description(description),
            Referable::MultiLanguageProperty(x) => x.set_description(description),
            Referable::Operation(x) => x.set_description(description),
            Referable::Property(x) => x.set_description(description),
            Referable::Range(x) => x.set_description(description),
            Referable::ReferenceElement(x) => x.set_description(description),
            Referable::RelationshipElement(x) => x.set_description(description),
            Referable::Submodel(x) => x.set_description(description),
            Referable::SubmodelElementCollection(x) => x.set_description(description),
            Referable::SubmodelElementList(x) => x.set_description(description),
        }
    }

    fn get_description(&self) -> (r: &Vec<MultiLanguageTextType>) {
        match self {
            Referable::AnnotatedRelationshipElement(x) => x.get_description(),
            Referable::AssetAdministrationShell(x) => x.get_description(),
            Referable::BasicEventElement(x) => x.get_description(),
            Referable::Blob(x) => x.get_description(),
            Referable::Capability(x) => x.get_description(),
            Referable::ConceptDescription(x) => x.get_description(),
            Referable::Entity(x) => x.get_description(),
            Referable::File(x) => x.get_description(),
            Referable::MultiLanguageProperty(x) => x.get_description(),
            Referable::Operation(x) => x.get_description(),
            Referable::Property(x) => x.get_description(),
            Referable::Range(x) => x.get_description(),
            Referable::ReferenceElement(x) => x.get_description(),
            Referable::RelationshipElement(x) => x.get_description(),
            Referable::Submodel(x) => x.get_description(),
            Referable::SubmodelElementCollection(x) => x.get_description(),
            Referable::SubmodelElementList(x) => x.get_description(),
        }
    }

    fn get_mut_description(&mut self) -> (r: &mut Vec<MultiLanguageTextType>)
        ensures
            final(self)@ ==
                old(self)@.with_referable(ReferableAspect { description: final(r).deep_view(),
                ..old(self).referable() }),
    {
        match self {
            Referable::AnnotatedRelationshipElement(x) => x.get_mut_description(),
            Referable::AssetAdministrationShell(x) => x.get_mut_description(),
            Referable::BasicEventElement(x) => x.get_mut_description(),
            Referable::Blob(x) => x.get_mut_description(),
            Referable::Capability(x) => x.get_mut_description(),
            Referable::ConceptDescription(x) => x.get_mut_description(),
            Referable::Entity(x) => x.get_mut_description(),
            Referable::File(x) => x.get_mut_description(),
            Referable::MultiLanguageProperty(x) => x.get_mut_description(),
            Referable::Operation(x) => x.get_mut_description(),
            Referable::Property(x) => x.get_mut_description(),
            Referable::Range(x) => x.get_mut_description(),
            Referable::ReferenceElement(x) => x.get_mut_description(),
            Referable::RelationshipElement(x) => x.get_mut_description(),
            Referable::Submodel(x) => x.get_mut_description(),
            Referable::SubmodelElementCollection(x) => x.get_mut_description(),
            Referable::SubmodelElementList(x) => x.get_mut_description(),
        }
    }

    fn add_description(&mut self, description: MultiLanguageTextType)
        ensures
            final(self)@ ==
                old(self)@.with_referable(ReferableAspect {
                description: old(self).referable().description.push(description@),
                ..old(self).referable() }),
    {
        match self {
            Referable::AnnotatedRelationshipElement(x) => x.add_description(description),
            Referable::AssetAdministrationShell(x) => x.add_description(description),
            Referable::BasicEventElement(x) => x.add_description(description),
            Referable::Blob(x) => x.add_description(description),
            Referable::Capability(x) => x.add_description(description),
            Referable::ConceptDescription(x) => x.add_description(description),
            Referable::Entity(x) => x.add_description(description),
            Referable::File(x) => x.add_description(description),
            Referable::MultiLanguageProperty(x) => x.add_description(description),
            Referable::Operation(x) => x.add_description(description),
            Referable::Property(x) => x.add_description(description),
            Referable::Range(x) => x.add_description(description),
            Referable::ReferenceElement(x) => x.add_description(description),
            Referable::RelationshipElement(x) => x.add_description(description),
            Referable::Submodel(x) => x.add_description(description),
            Referable::SubmodelElementCollection(x) => x.add_description(description),
            Referable::SubmodelElementList(x) => x.add_description(description),
        }
    }

    fn remove_description(&mut self, index: usize) -> (r: Result<MultiLanguageTextType, ModelError>)
        ensures
            match r {
                Ok(item) =>
                    final(self)@ ==
                    old(self)@.with_referable(ReferableAspect {
                    description: old(self).referable().description.remove(index as int),
                    ..old(self).referable() }),
                Err(e) => final(self)@ == old(self)@,
            },
    {
        match self {
            Referable::AnnotatedRelationshipElement(x) => x.remove_description(index),
            Referable::AssetAdministrationShell(x) => x.remove_description(index),
            Referable::BasicEventElement(x) => x.remove_description(index),
            Referable::Blob(x) => x.remove_description(index),
            Referable::Capability(x) => x.remove_description(index),
            Referable::ConceptDescription(x) => x.remove_description(index),
            Referable::Entity(x) => x.remove_description(index),
            Referable::File(x) => x.remove_description(index),
            Referable::MultiLanguageProperty(x) => x.remove_description(index),
            Referable::Operation(x) => x.remove_description(index),
            Referable::Property(x) => x.remove_description(index),
            Referable::Range(x) => x.remove_description(index),
            Referable::ReferenceElement(x) => x.remove_description(index),
            Referable::RelationshipElement(x) => x.remove_description(index),
            Referable::Submodel(x) => x.remove_description(index),
            Referable::SubmodelElementCollection(x) => x.remove_description(index),
            Referable::SubmodelElementList(x) => x.remove_description(index),
        }
    }
}

impl ReferableView {
    /// Whether every reference in the value is well formed.
    pub open spec fn well_formed(self) -> bool
        decreases self, 0nat,
    {
        match self {
            ReferableView::AnnotatedRelationshipElement(x) => x.well_formed(),
            ReferableView::AssetAdministrationShell(x) => x.well_formed(),
            ReferableView::BasicEventElement(x) => x.well_formed(),
            ReferableView::Blob(x) => x.well_formed(),
            ReferableView::Capability(x) => x.well_formed(),
            ReferableView::ConceptDescription(x) => x.well_formed(),
            ReferableView::Entity(x) => x.well_formed(),
            ReferableView::File(x) => x.well_formed(),
            ReferableView::MultiLanguageProperty(x) => x.well_formed(),
            ReferableView::Operation(x) => x.well_formed(),
            ReferableView::Property(x) => x.well_formed(),
            ReferableView::Range(x) => x.well_formed(),
            ReferableView::ReferenceElement(x) => x.well_formed(),
            ReferableView::RelationshipElement(x) => x.well_formed(),
            ReferableView::Submodel(x) => x.well_formed(),
            ReferableView::SubmodelElementCollection(x) => x.well_formed(),
            ReferableView::SubmodelElementList(x) => x.well_formed(),
        }
    }

    /// The same value with what it carries of the aspect replaced.
    pub open spec fn with_referable(self, aspect: ReferableAspect) -> ReferableView {
        match self {
            ReferableView::AnnotatedRelationshipElement(x) =>
                ReferableView::AnnotatedRelationshipElement(x.with_referable(aspect)),
            ReferableView::AssetAdministrationShell(x) =>
                ReferableView::AssetAdministrationShell(x.with_referable(aspect)),
            ReferableView::BasicEventElement(x) =>
                ReferableView::BasicEventElement(Box::new(x.with_referable(aspect))),
            ReferableView::Blob(x) => ReferableView::Blob(x.with_referable(aspect)),
            ReferableView::Capability(x) => ReferableView::Capability(x.with_referable(aspect)),
            ReferableView::ConceptDescription(x) =>
                ReferableView::ConceptDescription(x.with_referable(aspect)),
            ReferableView::Entity(x) => ReferableView::Entity(x.with_referable(aspect)),
            ReferableView::File(x) => ReferableView::File(x.with_referable(aspect)),
            ReferableView::MultiLanguageProperty(x) =>
                ReferableView::MultiLanguageProperty(x.with_referable(aspect)),
            ReferableView::Operation(x) => ReferableView::Operation(x.with_referable(aspect)),
            ReferableView::Property(x) => ReferableView::Property(x.with_referable(aspect)),
            ReferableView::Range(x) => ReferableView::Range(x.with_referable(aspect)),
            ReferableView::ReferenceElement(x) =>
                ReferableView::ReferenceElement(x.with_referable(aspect)),
            ReferableView::RelationshipElement(x) =>
                ReferableView::RelationshipElement(x.with_referable(aspect)),
            ReferableView::Submodel(x) => ReferableView::Submodel(x.with_referable(aspect)),
            ReferableView::SubmodelElementCollection(x) =>
                ReferableView::SubmodelElementCollection(x.with_referable(aspect)),
            ReferableView::SubmodelElementList(x) =>
                ReferableView::SubmodelElementList(x.with_referable(aspect)),
        }
    }

    /// The name of the type of the value, which tells the variants apart on
    /// the wire.
    pub open spec fn model_type(self) -> Seq<char> {
        match self {
            ReferableView::AnnotatedRelationshipElement(_) => "AnnotatedRelationshipElement"@,
            ReferableView::AssetAdministrationShell(_) => "AssetAdministrationShell"@,
            ReferableView::BasicEventElement(_) => "BasicEventElement"@,
            ReferableView::Blob(_) => "Blob"@,
            ReferableView::Capability(_) => "Capability"@,
            ReferableView::ConceptDescription(_) => "ConceptDescription"@,
            ReferableView::Entity(_) => "Entity"@,
            ReferableView::File(_) => "File"@,
            ReferableView::MultiLanguageProperty(_) => "MultiLanguageProperty"@,
            ReferableView::Operation(_) => "Operation"@,
            ReferableView::Property(_) => "Property"@,
            ReferableView::Range(_) => "Range"@,
            ReferableView::ReferenceElement(_) => "ReferenceElement"@,
            ReferableView::RelationshipElement(_) => "RelationshipElement"@,
            ReferableView::Submodel(_) => "Submodel"@,
            ReferableView::SubmodelElementCollection(_) => "SubmodelElementCollection"@,
            ReferableView::SubmodelElementList(_) => "SubmodelElementList"@,
        }
    }

    /// Whether `tag` is the name of a type that is accepted in this place.
    pub open spec fn knows(tag: Seq<char>) -> bool {
        tag == "AnnotatedRelationshipElement"@
            || tag == "AssetAdministrationShell"@
            || tag == "BasicEventElement"@
            || tag == "Blob"@
            || tag == "Capability"@
            || tag == "ConceptDescription"@
            || tag == "Entity"@
            || tag == "File"@
            || tag == "MultiLanguageProperty"@
            || tag == "Operation"@
            || tag == "Property"@
            || tag == "Range"@
            || tag == "ReferenceElement"@
            || tag == "RelationshipElement"@
            || tag == "Submodel"@
            || tag == "SubmodelElementCollection"@
            || tag == "SubmodelElementList"@
    }

    /// The value on the wire: a record that begins with the name of the
    /// type and goes on with the members of the value.
    pub open spec fn to_wire(self) -> WireView
        decreases self, 3nat,
    {
        WireView::Record(
            match self {
                ReferableView::AnnotatedRelationshipElement(x) =>
                    x.members_after(tagged(Some("AnnotatedRelationshipElement"@))),
                ReferableView::AssetAdministrationShell(x) =>
                    x.members_after(tagged(Some("AssetAdministrationShell"@))),
                ReferableView::BasicEventElement(x) =>
                    x.members_after(tagged(Some("BasicEventElement"@))),
                ReferableView::Blob(x) => x.members_after(tagged(Some("Blob"@))),
                ReferableView::Capability(x) => x.members_after(tagged(Some("Capability"@))),
                ReferableView::ConceptDescription(x) =>
                    x.members_after(tagged(Some("ConceptDescription"@))),
                ReferableView::Entity(x) => x.members_after(tagged(Some("Entity"@))),
                ReferableView::File(x) => x.members_after(tagged(Some("File"@))),
                ReferableView::MultiLanguageProperty(x) =>
                    x.members_after(tagged(Some("MultiLanguageProperty"@))),
                ReferableView::Operation(x) => x.members_after(tagged(Some("Operation"@))),
                ReferableView::Property(x) => x.members_after(tagged(Some("Property"@))),
                ReferableView::Range(x) => x.members_after(tagged(Some("Range"@))),
                ReferableView::ReferenceElement(x) =>
                    x.members_after(tagged(Some("ReferenceElement"@))),
                ReferableView::RelationshipElement(x) =>
                    x.members_after(tagged(Some("RelationshipElement"@))),
                ReferableView::Submodel(x) => x.members_after(tagged(Some("Submodel"@))),
                ReferableView::SubmodelElementCollection(x) =>
                    x.members_after(tagged(Some("SubmodelElementCollection"@))),
                ReferableView::SubmodelElementList(x) =>
                    x.members_after(tagged(Some("SubmodelElementList"@))),
            },
        )
    }

    /// The value that a wire value stands for: that of the type that the
    /// member `modelType` names. A name of no accepted type is refused.
    pub open spec fn from_wire(w: WireView) -> Result<ReferableView, DecodeErrorView>
        decreases w, 3nat,
    {
        match w {
            WireView::Record(fields) => match lookup(fields, "modelType"@) {
                None => Err(fail_at(DecodeFault::MissingField, "modelType"@)),
                Some(WireView::Text(tag)) => ReferableView::from_tagged(tag, fields),
                Some(_) => Err(fail_at(DecodeFault::ExpectedText, "modelType"@)),
            },
            _ => Err(fail(DecodeFault::ExpectedRecord)),
        }
    }

    /// The value of the type called `tag` that the members of a record stand
    /// for.
    #[verifier::opaque]
    pub open spec fn from_tagged(tag: Seq<char>, fields: Seq<FieldView>) -> Result<
        ReferableView,
        DecodeErrorView,
    >
        decreases fields, 2nat,
    {
        if tag == "AnnotatedRelationshipElement"@ {
            match AnnotatedRelationshipElementView::from_members(fields) {
                Ok(x) => Ok(ReferableView::AnnotatedRelationshipElement(x)),
                Err(e) => Err(e),
            }
        } else if tag == "AssetAdministrationShell"@ {
            match AssetAdministrationShellView::from_members(fields) {
                Ok(x) => Ok(ReferableView::AssetAdministrationShell(x)),
                Err(e) => Err(e),
            }
        } else if tag == "BasicEventElement"@ {
            match BasicEventElementView::from_members(fields) {
                Ok(x) => Ok(ReferableView::BasicEventElement(Box::new(x))),
                Err(e) => Err(e),
            }
        } else if tag == "Blob"@ {
            match BlobView::from_members(fields) {
                Ok(x) => Ok(ReferableView::Blob(x)),
                Err(e) => Err(e),
            }
        } else if tag == "Capability"@ {
            match CapabilityView::from_members(fields) {
                Ok(x) => Ok(ReferableView::Capability(x)),
                Err(e) => Err(e),
            }
        } else if tag == "ConceptDescription"@ {
            match ConceptDescriptionView::from_members(fields) {
                Ok(x) => Ok(ReferableView::ConceptDescription(x)),
                Err(e) => Err(e),
            }
        } else if tag == "Entity"@ {
            match EntityView::from_members(fields) {
                Ok(x) => Ok(ReferableView::Entity(x)),
                Err(e) => Err(e),
            }
        } else if tag == "File"@ {
            match FileView::from_members(fields) {
                Ok(x) => Ok(ReferableView::File(x)),
                Err(e) => Err(e),
            }
        } else if tag == "MultiLanguageProperty"@ {
            match MultiLanguagePropertyView::from_members(fields) {
                Ok(x) => Ok(ReferableView::MultiLanguageProperty(x)),
                Err(e) => Err(e),
            }
        } else if tag == "Operation"@ {
            match OperationView::from_members(fields) {
                Ok(x) => Ok(ReferableView::Operation(x)),
                Err(e) => Err(e),
            }
        } else if tag == "Property"@ {
            match PropertyView::from_members(fields) {
                Ok(x) => Ok(ReferableView::Property(x)),
                Err(e) => Err(e),
            }
        } else if tag == "Range"@ {
            match RangeView::from_members(fields) {
                Ok(x) => Ok(ReferableView::Range(x)),
                Err(e) => Err(e),
            }
        } else if tag == "ReferenceElement"@ {
            match ReferenceElementView::from_members(fields) {
                Ok(x) => Ok(ReferableView::ReferenceElement(x)),
                Err(e) => Err(e),
            }
        } else if tag == "RelationshipElement"@ {
            match RelationshipElementView::from_members(fields) {
                Ok(x) => Ok(ReferableView::RelationshipElement(x)),
                Err(e) => Err(e),
            }
        } else if tag == "Submodel"@ {
            match SubmodelView::from_members(fields) {
                Ok(x) => Ok(ReferableView::Submodel(x)),
                Err(e) => Err(e),
            }
        } else if tag == "SubmodelElementCollection"@ {
            match SubmodelElementCollectionView::from_members(fields) {
                Ok(x) => Ok(ReferableView::SubmodelElementCollection(x)),
                Err(e) => Err(e),
            }
        } else if tag == "SubmodelElementList"@ {
            match SubmodelElementListView::from_members(fields) {
                Ok(x) => Ok(ReferableView::SubmodelElementList(x)),
                Err(e) => Err(e),
            }
        } else {
            Err(fail_at(DecodeFault::UnknownDiscriminant, "modelType"@))
        }
    }

    /// A value that may be absent on the wire: null stands for absence.
    pub open spec fn optional_to_wire(v: Option<ReferableView>) -> WireView
        decreases v, 0nat,
    {
        match v {
            Some(v) => v.to_wire(),
            None => WireView::Null,
        }
    }

    /// What is encoded carries the exact name of its type as its type name.
    pub proof fn lemma_model_type(self)
        ensures
            self.to_wire() matches WireView::Record(fields) && lookup(fields, "modelType"@) == Some(
                WireView::Text(self.model_type()),
            ),
            ReferableView::knows(self.model_type()),
    {
        broadcast use lemma_lookup_push;

        match self {
            ReferableView::AnnotatedRelationshipElement(x) => {
                x.lemma_model_type_kept(Some("AnnotatedRelationshipElement"@));
            },
            ReferableView::AssetAdministrationShell(x) => {
                x.lemma_model_type_kept(Some("AssetAdministrationShell"@));
            },
            ReferableView::BasicEventElement(x) => {
                x.lemma_model_type_kept(Some("BasicEventElement"@));
            },
            ReferableView::Blob(x) => {
                x.lemma_model_type_kept(Some("Blob"@));
            },
            ReferableView::Capability(x) => {
                x.lemma_model_type_kept(Some("Capability"@));
            },
            ReferableView::ConceptDescription(x) => {
                x.lemma_model_type_kept(Some("ConceptDescription"@));
            },
            ReferableView::Entity(x) => {
                x.lemma_model_type_kept(Some("Entity"@));
            },
            ReferableView::File(x) => {
                x.lemma_model_type_kept(Some("File"@));
            },
            ReferableView::MultiLanguageProperty(x) => {
                x.lemma_model_type_kept(Some("MultiLanguageProperty"@));
            },
            ReferableView::Operation(x) => {
                x.lemma_model_type_kept(Some("Operation"@));
            },
            ReferableView::Property(x) => {
                x.lemma_model_type_kept(Some("Property"@));
            },
            ReferableView::Range(x) => {
                x.lemma_model_type_kept(Some("Range"@));
            },
            ReferableView::ReferenceElement(x) => {
                x.lemma_model_type_kept(Some("ReferenceElement"@));
            },
            ReferableView::RelationshipElement(x) => {
                x.lemma_model_type_kept(Some("RelationshipElement"@));
            },
            ReferableView::Submodel(x) => {
                x.lemma_model_type_kept(Some("Submodel"@));
            },
            ReferableView::SubmodelElementCollection(x) => {
                x.lemma_model_type_kept(Some("SubmodelElementCollection"@));
            },
            ReferableView::SubmodelElementList(x) => {
                x.lemma_model_type_kept(Some("SubmodelElementList"@));
            },
        }
    }

    /// A record whose type name is that of no accepted type is refused.
    pub proof fn lemma_unknown_model_type(fields: Seq<FieldView>, tag: Seq<char>)
        requires
            lookup(fields, "modelType"@) == Some(WireView::Text(tag)),
            !ReferableView::knows(tag),
        ensures
            ReferableView::from_wire(WireView::Record(fields)) ==
                Err::<ReferableView, DecodeErrorView>(
                fail_at(DecodeFault::UnknownDiscriminant, "modelType"@),
            ),
    {
        reveal(ReferableView::from_tagged);
    }

    /// A value of the variant `AnnotatedRelationshipElement` is found again from what it is on the
    /// wire.
    proof fn lemma_round_trip_annotated_relationship_element(x: AnnotatedRelationshipElementView)
        requires
            x.well_formed(),
        ensures
            ReferableView::from_wire(ReferableView::AnnotatedRelationshipElement(x).to_wire()) ==
                Ok::<ReferableView, DecodeErrorView>(
                ReferableView::AnnotatedRelationshipElement(x),
            ),
        decreases x, 2nat,
    {
        broadcast use lemma_lookup_push;

        reveal(ReferableView::from_tagged);
        lemma_name_codes();
        x.lemma_members_round_trip(Some("AnnotatedRelationshipElement"@));
        x.lemma_model_type_kept(Some("AnnotatedRelationshipElement"@));
    }

    /// A value of the variant `AssetAdministrationShell` is found again from what it is on the
    /// wire.
    proof fn lemma_round_trip_asset_administration_shell(x: AssetAdministrationShellView)
        requires
            x.well_formed(),
        ensures
            ReferableView::from_wire(ReferableView::AssetAdministrationShell(x).to_wire()) ==
                Ok::<ReferableView, DecodeErrorView>(
                ReferableView::AssetAdministrationShell(x),
            ),
        decreases x, 2nat,
    {
        broadcast use lemma_lookup_push;

        reveal(ReferableView::from_tagged);
        lemma_name_codes();
        x.lemma_members_round_trip(Some("AssetAdministrationShell"@));
        x.lemma_model_type_kept(Some("AssetAdministrationShell"@));
    }

    /// A value of the variant `BasicEventElement` is found again from what it is on the wire.
    proof fn lemma_round_trip_basic_event_element(x: BasicEventElementView)
        requires
            x.well_formed(),
        ensures
            ReferableView::from_wire(ReferableView::BasicEventElement(Box::new(x)).to_wire()) ==
                Ok::<ReferableView, DecodeErrorView>(
                ReferableView::BasicEventElement(Box::new(x)),
            ),
        decreases x, 2nat,
    {
        broadcast use lemma_lookup_push;

        reveal(ReferableView::from_tagged);
        lemma_name_codes();
        x.lemma_members_round_trip(Some("BasicEventElement"@));
        x.lemma_model_type_kept(Some("BasicEventElement"@));
    }

    /// A value of the variant `Blob` is found again from what it is on the wire.
    proof fn lemma_round_trip_blob(x: BlobView)
        requires
            x.well_formed(),
        ensures
            ReferableView::from_wire(ReferableView::Blob(x).to_wire()) ==
                Ok::<ReferableView, DecodeErrorView>(
                ReferableView::Blob(x),
            ),
        decreases x, 2nat,
    {
        broadcast use lemma_lookup_push;

        reveal(ReferableView::from_tagged);
        lemma_name_codes();
        x.lemma_members_round_trip(Some("Blob"@));
        x.lemma_model_type_kept(Some("Blob"@));
    }

    /// A value of the variant `Capability` is found again from what it is on the wire.
    proof fn lemma_round_trip_capability(x: CapabilityView)
        requires
            x.well_formed(),
        ensures
            ReferableView::from_wire(ReferableView::Capability(x).to_wire()) ==
                Ok::<ReferableView, DecodeErrorView>(
                ReferableView::Capability(x),
            ),
        decreases x, 2nat,
    {
        broadcast use lemma_lookup_push;

        reveal(ReferableView::from_tagged);
        lemma_name_codes();
        x.lemma_members_round_trip(Some("Capability"@));
        x.lemma_model_type_kept(Some("Capability"@));
    }

    /// A value of the variant `ConceptDescription` is found again from what it is on the wire.
    proof fn lemma_round_trip_concept_description(x: ConceptDescriptionView)
        requires
            x.well_formed(),
        ensures
            ReferableView::from_wire(ReferableView::ConceptDescription(x).to_wire()) ==
                Ok::<ReferableView, DecodeErrorView>(
                ReferableView::ConceptDescription(x),
            ),
        decreases x, 2nat,
    {
        broadcast use lemma_lookup_push;

        reveal(ReferableView::from_tagged);
        lemma_name_codes();
        x.lemma_members_round_trip(Some("ConceptDescription"@));
        x.lemma_model_type_kept(Some("ConceptDescription"@));
    }

    /// A value of the variant `Entity` is found again from what it is on the wire.
    proof fn lemma_round_trip_entity(x: EntityView)
        requires
            x.well_formed(),
        ensures
            ReferableView::from_wire(ReferableView::Entity(x).to_wire()) ==
                Ok::<ReferableView, DecodeErrorView>(
                ReferableView::Entity(x),
            ),
        decreases x, 2nat,
    {
        broadcast use lemma_lookup_push;

        reveal(ReferableView::from_tagged);
        lemma_name_codes();
        x.lemma_members_round_trip(Some("Entity"@));
        x.lemma_model_type_kept(Some("Entity"@));
    }

    /// A value of the variant `File` is found again from what it is on the wire.
    proof fn lemma_round_trip_file(x: FileView)
        requires
            x.well_formed(),
        ensures
            ReferableView::from_wire(ReferableView::File(x).to_wire()) ==
                Ok::<ReferableView, DecodeErrorView>(
                ReferableView::File(x),
            ),
        decreases x, 2nat,
    {
        broadcast use lemma_lookup_push;

        reveal(ReferableView::from_tagged);
        lemma_name_codes();
        x.lemma_members_round_trip(Some("File"@));
        x.lemma_model_type_kept(Some("File"@));
    }

    /// A value of the variant `MultiLanguageProperty` is found again from what it is on the wire.
    proof fn lemma_round_trip_multi_language_property(x: MultiLanguagePropertyView)
        requires
            x.well_formed(),
        ensures
            ReferableView::from_wire(ReferableView::MultiLanguageProperty(x).to_wire()) ==
                Ok::<ReferableView, DecodeErrorView>(
                ReferableView::MultiLanguageProperty(x),
            ),
        decreases x, 2nat,
    {
        broadcast use lemma_lookup_push;

        reveal(ReferableView::from_tagged);
        lemma_name_codes();
        x.lemma_members_round_trip(Some("MultiLanguageProperty"@));
        x.lemma_model_type_kept(Some("MultiLanguageProperty"@));
    }

    /// A value of the variant `Operation` is found again from what it is on the wire.
    proof fn lemma_round_trip_operation(x: OperationView)
        requires
            x.well_formed(),
        ensures
            ReferableView::from_wire(ReferableView::Operation(x).to_wire()) ==
                Ok::<ReferableView, DecodeErrorView>(
                ReferableView::Operation(x),
            ),
        decreases x, 2nat,
    {
        broadcast use lemma_lookup_push;

        reveal(ReferableView::from_tagged);
        lemma_name_codes();
        x.lemma_members_round_trip(Some("Operation"@));
        x.lemma_model_type_kept(Some("Operation"@));
    }

    /// A value of the variant `Property` is found again from what it is on the wire.
    proof fn lemma_round_trip_property(x: PropertyView)
        requires
            x.well_formed(),
        ensures
            ReferableView::from_wire(ReferableView::Property(x).to_wire()) ==
                Ok::<ReferableView, DecodeErrorView>(
                ReferableView::Property(x),
            ),
        decreases x, 2nat,
    {
        broadcast use lemma_lookup_push;

        reveal(ReferableView::from_tagged);
        lemma_name_codes();
        x.lemma_members_round_trip(Some("Property"@));
        x.lemma_model_type_kept(Some("Property"@));
    }

    /// A value of the variant `Range` is found again from what it is on the wire.
    proof fn lemma_round_trip_range(x: RangeView)
        requires
            x.well_formed(),
        ensures
            ReferableView::from_wire(ReferableView::Range(x).to_wire()) ==
                Ok::<ReferableView, DecodeErrorView>(
                ReferableView::Range(x),
            ),
        decreases x, 2nat,
    {
        broadcast use lemma_lookup_push;

        reveal(ReferableView::from_tagged);
        lemma_name_codes();
        x.lemma_members_round_trip(Some("Range"@));
        x.lemma_model_type_kept(Some("Range"@));
    }

    /// A value of the variant `ReferenceElement` is found again from what it is on the wire.
    proof fn lemma_round_trip_reference_element(x: ReferenceElementView)
        requires
            x.well_formed(),
        ensures
            ReferableView::from_wire(ReferableView::ReferenceElement(x).to_wire()) ==
                Ok::<ReferableView, DecodeErrorView>(
                ReferableView::ReferenceElement(x),
            ),
        decreases x, 2nat,
    {
        broadcast use lemma_lookup_push;

        reveal(ReferableView::from_tagged);
        lemma_name_codes();
        x.lemma_members_round_trip(Some("ReferenceElement"@));
        x.lemma_model_type_kept(Some("ReferenceElement"@));
    }

    /// A value of the variant `RelationshipElement` is found again from what it is on the wire.
    proof fn lemma_round_trip_relationship_element(x: RelationshipElementView)
        requires
            x.well_formed(),
        ensures
            ReferableView::from_wire(ReferableView::RelationshipElement(x).to_wire()) ==
                Ok::<ReferableView, DecodeErrorView>(
                ReferableView::RelationshipElement(x),
            ),
        decreases x, 2nat,
    {
        broadcast use lemma_lookup_push;

        reveal(ReferableView::from_tagged);
        lemma_name_codes();
        x.lemma_members_round_trip(Some("RelationshipElement"@));
        x.lemma_model_type_kept(Some("RelationshipElement"@));
    }

    /// A value of the variant `Submodel` is found again from what it is on the wire.
    proof fn lemma_round_trip_submodel(x: SubmodelView)
        requires
            x.well_formed(),
        ensures
            ReferableView::from_wire(ReferableView::Submodel(x).to_wire()) ==
                Ok::<ReferableView, DecodeErrorView>(
                ReferableView::Submodel(x),
            ),
        decreases x, 2nat,
    {
        broadcast use lemma_lookup_push;

        reveal(ReferableView::from_tagged);
        lemma_name_codes();
        x.lemma_members_round_trip(Some("Submodel"@));
        x.lemma_model_type_kept(Some("Submodel"@));
    }

    /// A value of the variant `SubmodelElementCollection` is found again from what it is on the
    /// wire.
    proof fn lemma_round_trip_submodel_element_collection(x: SubmodelElementCollectionView)
        requires
            x.well_formed(),
        ensures
            ReferableView::from_wire(ReferableView::SubmodelElementCollection(x).to_wire()) ==
                Ok::<ReferableView, DecodeErrorView>(
                ReferableView::SubmodelElementCollection(x),
            ),
        decreases x, 2nat,
    {
        broadcast use lemma_lookup_push;

        reveal(ReferableView::from_tagged);
        lemma_name_codes();
        x.lemma_members_round_trip(Some("SubmodelElementCollection"@));
        x.lemma_model_type_kept(Some("SubmodelElementCollection"@));
    }

    /// A value of the variant `SubmodelElementList` is found again from what it is on the wire.
    proof fn lemma_round_trip_submodel_element_list(x: SubmodelElementListView)
        requires
            x.well_formed(),
        ensures
            ReferableView::from_wire(ReferableView::SubmodelElementList(x).to_wire()) ==
                Ok::<ReferableView, DecodeErrorView>(
                ReferableView::SubmodelElementList(x),
            ),
        decreases x, 2nat,
    {
        broadcast use lemma_lookup_push;

        reveal(ReferableView::from_tagged);
        lemma_name_codes();
        x.lemma_members_round_trip(Some("SubmodelElementList"@));
        x.lemma_model_type_kept(Some("SubmodelElementList"@));
    }

    /// Every value is found again from what it is on the wire.
    pub proof fn lemma_round_trip(self)
        requires
            self.well_formed(),
        ensures
            ReferableView::from_wire(self.to_wire()) == Ok::<ReferableView, DecodeErrorView>(self),
        decreases self, 3nat,
    {
        match self {
            ReferableView::AnnotatedRelationshipElement(x) => {
                ReferableView::lemma_round_trip_annotated_relationship_element(x);
            },
            ReferableView::AssetAdministrationShell(x) => {
                ReferableView::lemma_round_trip_asset_administration_shell(x);
            },
            ReferableView::BasicEventElement(x) => {
                ReferableView::lemma_round_trip_basic_event_element(*x);
            },
            ReferableView::Blob(x) => {
                ReferableView::lemma_round_trip_blob(x);
            },
            ReferableView::Capability(x) => {
                ReferableView::lemma_round_trip_capability(x);
            },
            ReferableView::ConceptDescription(x) => {
                ReferableView::lemma_round_trip_concept_description(x);
            },
            ReferableView::Entity(x) => {
                ReferableView::lemma_round_trip_entity(x);
            },
            ReferableView::File(x) => {
                ReferableView::lemma_round_trip_file(x);
            },
            ReferableView::MultiLanguageProperty(x) => {
                ReferableView::lemma_round_trip_multi_language_property(x);
            },
            ReferableView::Operation(x) => {
                ReferableView::lemma_round_trip_operation(x);
            },
            ReferableView::Property(x) => {
                ReferableView::lemma_round_trip_property(x);
            },
            ReferableView::Range(x) => {
                ReferableView::lemma_round_trip_range(x);
            },
            ReferableView::ReferenceElement(x) => {
                ReferableView::lemma_round_trip_reference_element(x);
            },
            ReferableView::RelationshipElement(x) => {
                ReferableView::lemma_round_trip_relationship_element(x);
            },
            ReferableView::Submodel(x) => {
                ReferableView::lemma_round_trip_submodel(x);
            },
            ReferableView::SubmodelElementCollection(x) => {
                ReferableView::lemma_round_trip_submodel_element_collection(x);
            },
            ReferableView::SubmodelElementList(x) => {
                ReferableView::lemma_round_trip_submodel_element_list(x);
            },
        }
    }
}

impl Referable {
    /// The name of the type of the value.
    pub fn model_type(&self) -> (s: &'static str)
        ensures
            s@ == self@.model_type(),
    {
        match self {
            Referable::AnnotatedRelationshipElement(_) => "AnnotatedRelationshipElement",
            Referable::AssetAdministrationShell(_) => "AssetAdministrationShell",
            Referable::BasicEventElement(_) => "BasicEventElement",
            Referable::Blob(_) => "Blob",
            Referable::Capability(_) => "Capability",
            Referable::ConceptDescription(_) => "ConceptDescription",
            Referable::Entity(_) => "Entity",
            Referable::File(_) => "File",
            Referable::MultiLanguageProperty(_) => "MultiLanguageProperty",
            Referable::Operation(_) => "Operation",
            Referable::Property(_) => "Property",
            Referable::Range(_) => "Range",
            Referable::ReferenceElement(_) => "ReferenceElement",
            Referable::RelationshipElement(_) => "RelationshipElement",
            Referable::Submodel(_) => "Submodel",
            Referable::SubmodelElementCollection(_) => "SubmodelElementCollection",
            Referable::SubmodelElementList(_) => "SubmodelElementList",
        }
    }

    /// The value as it travels: a record that begins with the name of the
    /// type. What comes out decodes to the same value again.
    pub fn encode(&self) -> (w: Wire)
        ensures
            w@ == self@.to_wire(),
            self@.well_formed(),
            ReferableView::from_wire(w@) == Ok::<ReferableView, DecodeErrorView>(self@),
        decreases self, 3nat,
    {
        let mut fields: Vec<Field> = Vec::new();
        assert(fields.deep_view() =~= Seq::<FieldView>::empty());
        add_member(&mut fields, "modelType", Wire::text(self.model_type()));
        match self {
            Referable::AnnotatedRelationshipElement(x) => x.encode_members(&mut fields),
            Referable::AssetAdministrationShell(x) => x.encode_members(&mut fields),
            Referable::BasicEventElement(x) => x.encode_members(&mut fields),
            Referable::Blob(x) => x.encode_members(&mut fields),
            Referable::Capability(x) => x.encode_members(&mut fields),
            Referable::ConceptDescription(x) => x.encode_members(&mut fields),
            Referable::Entity(x) => x.encode_members(&mut fields),
            Referable::File(x) => x.encode_members(&mut fields),
            Referable::MultiLanguageProperty(x) => x.encode_members(&mut fields),
            Referable::Operation(x) => x.encode_members(&mut fields),
            Referable::Property(x) => x.encode_members(&mut fields),
            Referable::Range(x) => x.encode_members(&mut fields),
            Referable::ReferenceElement(x) => x.encode_members(&mut fields),
            Referable::RelationshipElement(x) => x.encode_members(&mut fields),
            Referable::Submodel(x) => x.encode_members(&mut fields),
            Referable::SubmodelElementCollection(x) => x.encode_members(&mut fields),
            Referable::SubmodelElementList(x) => x.encode_members(&mut fields),
        }
        proof {
            self@.lemma_round_trip();
        }
        Wire::record(fields)
    }

    /// The value that `w` stands for.
    pub fn decode(w: &Wire) -> (r: Result<Referable, DecodeError>)
        ensures
            outcome(r) == ReferableView::from_wire(w@),
        decreases w, 3nat,
    {
        let fields = match w.members() {
            Some(fields) => fields,
            None => {
                return Err(DecodeError::new(DecodeFault::ExpectedRecord));
            },
        };
        let tag = match find(fields, "modelType") {
            None => {
                return Err(DecodeError::at(DecodeFault::MissingField, "modelType"));
            },
            Some(Wire::Text(tag)) => tag,
            Some(_) => {
                return Err(DecodeError::at(DecodeFault::ExpectedText, "modelType"));
            },
        };
        proof {
            reveal(ReferableView::from_tagged);
        }
        if same_text(tag.as_str(), "AnnotatedRelationshipElement") {
            match AnnotatedRelationshipElement::decode_members(fields) {
                Ok(x) => Ok(Referable::AnnotatedRelationshipElement(x)),
                Err(e) => Err(e),
            }
        } else if same_text(tag.as_str(), "AssetAdministrationShell") {
            match AssetAdministrationShell::decode_members(fields) {
                Ok(x) => Ok(Referable::AssetAdministrationShell(x)),
                Err(e) => Err(e),
            }
        } else if same_text(tag.as_str(), "BasicEventElement") {
            match BasicEventElement::decode_members(fields) {
                Ok(x) => Ok(Referable::BasicEventElement(Box::new(x))),
                Err(e) => Err(e),
            }
        } else if same_text(tag.as_str(), "Blob") {
            match Blob::decode_members(fields) {
                Ok(x) => Ok(Referable::Blob(x)),
                Err(e) => Err(e),
            }
        } else if same_text(tag.as_str(), "Capability") {
            match Capability::decode_members(fields) {
                Ok(x) => Ok(Referable::Capability(x)),
                Err(e) => Err(e),
            }
        } else if same_text(tag.as_str(), "ConceptDescription") {
            match ConceptDescription::decode_members(fields) {
                Ok(x) => Ok(Referable::ConceptDescription(x)),
                Err(e) => Err(e),
            }
        } else if same_text(tag.as_str(), "Entity") {
            match Entity::decode_members(fields) {
                Ok(x) => Ok(Referable::Entity(x)),
                Err(e) => Err(e),
            }
        } else if same_text(tag.as_str(), "File") {
            match File::decode_members(fields) {
                Ok(x) => Ok(Referable::File(x)),
                Err(e) => Err(e),
            }
        } else if same_text(tag.as_str(), "MultiLanguageProperty") {
            match MultiLanguageProperty::decode_members(fields) {
                Ok(x) => Ok(Referable::MultiLanguageProperty(x)),
                Err(e) => Err(e),
            }
        } else if same_text(tag.as_str(), "Operation") {
            match Operation::decode_members(fields) {
                Ok(x) => Ok(Referable::Operation(x)),
                Err(e) => Err(e),
            }
        } else if same_text(tag.as_str(), "Property") {
            match Property::decode_members(fields) {
                Ok(x) => Ok(Referable::Property(x)),
                Err(e) => Err(e),
            }
        } else if same_text(tag.as_str(), "Range") {
            match Range::decode_members(fields) {
                Ok(x) => Ok(Referable::Range(x)),
                Err(e) => Err(e),
            }
        } else if same_text(tag.as_str(), "ReferenceElement") {
            match ReferenceElement::decode_members(fields) {
                Ok(x) => Ok(Referable::ReferenceElement(x)),
                Err(e) => Err(e),
            }
        } else if same_text(tag.as_str(), "RelationshipElement") {
            match RelationshipElement::decode_members(fields) {
                Ok(x) => Ok(Referable::RelationshipElement(x)),
                Err(e) => Err(e),
            }
        } else if same_text(tag.as_str(), "Submodel") {
            match Submodel::decode_members(fields) {
                Ok(x) => Ok(Referable::Submodel(x)),
                Err(e) => Err(e),
            }
        } else if same_text(tag.as_str(), "SubmodelElementCollection") {
            match SubmodelElementCollection::decode_members(fields) {
                Ok(x) => Ok(Referable::SubmodelElementCollection(x)),
                Err(e) => Err(e),
            }
        } else if same_text(tag.as_str(), "SubmodelElementList") {
            match SubmodelElementList::decode_members(fields) {
                Ok(x) => Ok(Referable::SubmodelElementList(x)),
                Err(e) => Err(e),
            }
        } else {
            Err(DecodeError::at(DecodeFault::UnknownDiscriminant, "modelType"))
        }
    }

    /// The value as it travels, or null where there is none.
    pub fn encode_optional(v: &Option<Referable>) -> (w: Wire)
        ensures
            w@ == ReferableView::optional_to_wire(v.deep_view()),
            v matches Some(x) ==> x@.well_formed(),
        decreases v, 0nat,
    {
        match v {
            Some(v) => v.encode(),
            None => Wire::Null,
        }
    }
}

impl ReferableView {
    /// Whether the value and everything below it keeps what a document must
    /// keep.
    pub open spec fn consistent(self) -> bool
        decreases self, 0nat,
    {
        match self {
            ReferableView::AnnotatedRelationshipElement(x) => x.consistent(),
            ReferableView::AssetAdministrationShell(x) => x.consistent(),
            ReferableView::BasicEventElement(x) => x.consistent(),
            ReferableView::Blob(x) => x.consistent(),
            ReferableView::Capability(x) => x.consistent(),
            ReferableView::ConceptDescription(x) => x.consistent(),
            ReferableView::Entity(x) => x.consistent(),
            ReferableView::File(x) => x.consistent(),
            ReferableView::MultiLanguageProperty(x) => x.consistent(),
            ReferableView::Operation(x) => x.consistent(),
            ReferableView::Property(x) => x.consistent(),
            ReferableView::Range(x) => x.consistent(),
            ReferableView::ReferenceElement(x) => x.consistent(),
            ReferableView::RelationshipElement(x) => x.consistent(),
            ReferableView::Submodel(x) => x.consistent(),
            ReferableView::SubmodelElementCollection(x) => x.consistent(),
            ReferableView::SubmodelElementList(x) => x.consistent(),
        }
    }
}

impl Referable {
    /// Whether the value and everything below it keeps what a document must
    /// keep.
    pub fn is_consistent(&self) -> (b: bool)
        ensures
            b == self@.consistent(),
        decreases self, 1nat,
    {
        match self {
            Referable::AnnotatedRelationshipElement(x) => x.is_consistent(),
            Referable::AssetAdministrationShell(x) => x.is_consistent(),
            Referable::BasicEventElement(x) => x.is_consistent(),
            Referable::Blob(x) => x.is_consistent(),
            Referable::Capability(x) => x.is_consistent(),
            Referable::ConceptDescription(x) => x.is_consistent(),
            Referable::Entity(x) => x.is_consistent(),
            Referable::File(x) => x.is_consistent(),
            Referable::MultiLanguageProperty(x) => x.is_consistent(),
            Referable::Operation(x) => x.is_consistent(),
            Referable::Property(x) => x.is_consistent(),
            Referable::Range(x) => x.is_consistent(),
            Referable::ReferenceElement(x) => x.is_consistent(),
            Referable::RelationshipElement(x) => x.is_consistent(),
            Referable::Submodel(x) => x.is_consistent(),
            Referable::SubmodelElementCollection(x) => x.is_consistent(),
            Referable::SubmodelElementList(x) => x.is_consistent(),
        }
    }
}

} // verus!
