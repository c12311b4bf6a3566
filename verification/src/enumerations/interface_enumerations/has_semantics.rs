use vstd::prelude::*;
use crate::error::ModelError;
use crate::names::lemma_name_codes;
use crate::structs::annotated_relationship_element::{
    AnnotatedRelationshipElement,
    AnnotatedRelationshipElementView,
};
use crate::structs::basic_event_element::{BasicEventElement, BasicEventElementView};
use crate::structs::blob::{Blob, BlobView};
use crate::structs::capability::{Capability, CapabilityView};
use crate::structs::entity::{Entity, EntityView};
use crate::structs::extension::{Extension, ExtensionView};
use crate::structs::file::{File, FileView};
use crate::structs::multi_language_property::{MultiLanguageProperty, MultiLanguagePropertyView};
use crate::structs::operation::{Operation, OperationView};
use crate::structs::property::{Property, PropertyView};
use crate::structs::qualifier::{Qualifier, QualifierView};
use crate::structs::range::{Range, RangeView};
use crate::structs::reference::Reference;
use crate::structs::reference_element::{ReferenceElement, ReferenceElementView};
use crate::structs::relationship_element::{RelationshipElement, RelationshipElementView};
use crate::structs::specific_asset_id::{SpecificAssetId, SpecificAssetIdView};
use crate::structs::submodel::{Submodel, SubmodelView};
use crate::structs::submodel_element_collection::{
    SubmodelElementCollection,
    SubmodelElementCollectionView,
};
use crate::structs::submodel_element_list::{SubmodelElementList, SubmodelElementListView};
use crate::traits::has_semantics::{SemanticsAspect, THasSemantics};
use crate::wire::{
    add_member,
    fail,
    fail_at,
    find,
    lemma_lookup_push,
    lookup,
    member,
    outcome,
    same_text,
    tagged,
    DecodeError,
    DecodeErrorView,
    DecodeFault,
    Field,
    FieldView,
    Wire,
    WireView,
};

verus! {

/// Any of the elements that can have a semantic definition.
#[derive(Debug, PartialEq)]
pub enum HasSemantics {
    Submodel(Submodel),
    Qualifier(Qualifier),
    Extension(Extension),
    SubmodelElementCollection(SubmodelElementCollection),
    RelationshipElement(RelationshipElement),
    ReferenceElement(ReferenceElement),
    Property(Property),
    MultiLanguageProperty(MultiLanguageProperty),
    AnnotatedRelationshipElement(AnnotatedRelationshipElement),
    Entity(Entity),
    Operation(Operation),
    Range(Range),
    Blob(Blob),
    File(File),
    SubmodelElementList(SubmodelElementList),
    SpecificAssetId(SpecificAssetId),
    Capability(Capability),
    BasicEventElement(BasicEventElement),
}

/// The mathematical form of a [`HasSemantics`].
#[verifier::ext_equal]
pub enum HasSemanticsView {
    Submodel(SubmodelView),
    Qualifier(QualifierView),
    Extension(ExtensionView),
    SubmodelElementCollection(SubmodelElementCollectionView),
    RelationshipElement(RelationshipElementView),
    ReferenceElement(ReferenceElementView),
    Property(PropertyView),
    MultiLanguageProperty(MultiLanguagePropertyView),
    AnnotatedRelationshipElement(AnnotatedRelationshipElementView),
    Entity(EntityView),
    Operation(OperationView),
    Range(RangeView),
    Blob(BlobView),
    File(FileView),
    SubmodelElementList(SubmodelElementListView),
    SpecificAssetId(SpecificAssetIdView),
    Capability(CapabilityView),
    BasicEventElement(BasicEventElementView),
}

impl View for HasSemantics {
    type V = HasSemanticsView;

    open spec fn view(&self) -> HasSemanticsView {
        match self {
            HasSemantics::Submodel(x) => HasSemanticsView::Submodel(x@),
            HasSemantics::Qualifier(x) => HasSemanticsView::Qualifier(x@),
            HasSemantics::Extension(x) => HasSemanticsView::Extension(x@),
            HasSemantics::SubmodelElementCollection(x) =>
                HasSemanticsView::SubmodelElementCollection(x@),
            HasSemantics::RelationshipElement(x) => HasSemanticsView::RelationshipElement(x@),
            HasSemantics::ReferenceElement(x) => HasSemanticsView::ReferenceElement(x@),
            HasSemantics::Property(x) => HasSemanticsView::Property(x@),
            HasSemantics::MultiLanguageProperty(x) => HasSemanticsView::MultiLanguageProperty(x@),
            HasSemantics::AnnotatedRelationshipElement(x) =>
                HasSemanticsView::AnnotatedRelationshipElement(x@),
            HasSemantics::Entity(x) => HasSemanticsView::Entity(x@),
            HasSemantics::Operation(x) => HasSemanticsView::Operation(x@),
            HasSemantics::Range(x) => HasSemanticsView::Range(x@),
            HasSemantics::Blob(x) => HasSemanticsView::Blob(x@),
            HasSemantics::File(x) => HasSemanticsView::File(x@),
            HasSemantics::SubmodelElementList(x) => HasSemanticsView::SubmodelElementList(x@),
            HasSemantics::SpecificAssetId(x) => HasSemanticsView::SpecificAssetId(x@),
            HasSemantics::Capability(x) => HasSemanticsView::Capability(x@),
            HasSemantics::BasicEventElement(x) => HasSemanticsView::BasicEventElement(x@),
        }
    }
}

impl DeepView for HasSemantics {
    type V = HasSemanticsView;

    open spec fn deep_view(&self) -> HasSemanticsView {
        self@
    }
}

impl Clone for HasSemantics {
    fn clone(&self) -> (r: HasSemantics)
        ensures
            r@ == self@,
    {
        match self {
            HasSemantics::Submodel(x) => HasSemantics::Submodel(x.clone()),
            HasSemantics::Qualifier(x) => HasSemantics::Qualifier(x.clone()),
            HasSemantics::Extension(x) => HasSemantics::Extension(x.clone()),
            HasSemantics::SubmodelElementCollection(x) =>
                HasSemantics::SubmodelElementCollection(x.clone()),
            HasSemantics::RelationshipElement(x) => HasSemantics::RelationshipElement(x.clone()),
            HasSemantics::ReferenceElement(x) => HasSemantics::ReferenceElement(x.clone()),
            HasSemantics::Property(x) => HasSemantics::Property(x.clone()),
            HasSemantics::MultiLanguageProperty(x) =>
                HasSemantics::MultiLanguageProperty(x.clone()),
            HasSemantics::AnnotatedRelationshipElement(x) =>
                HasSemantics::AnnotatedRelationshipElement(x.clone()),
            HasSemantics::Entity(x) => HasSemantics::Entity(x.clone()),
            HasSemantics::Operation(x) => HasSemantics::Operation(x.clone()),
            HasSemantics::Range(x) => HasSemantics::Range(x.clone()),
            HasSemantics::Blob(x) => HasSemantics::Blob(x.clone()),
            HasSemantics::File(x) => HasSemantics::File(x.clone()),
            HasSemantics::SubmodelElementList(x) => HasSemantics::SubmodelElementList(x.clone()),
            HasSemantics::SpecificAssetId(x) => HasSemantics::SpecificAssetId(x.clone()),
            HasSemantics::Capability(x) => HasSemantics::Capability(x.clone()),
            HasSemantics::BasicEventElement(x) => HasSemantics::BasicEventElement(x.clone()),
        }
    }
}

impl THasSemantics for HasSemantics {
    open spec fn semantics(&self) -> SemanticsAspect {
        match self {
            HasSemantics::Submodel(x) => x.semantics(),
            HasSemantics::Qualifier(x) => x.semantics(),
            HasSemantics::Extension(x) => x.semantics(),
            HasSemantics::SubmodelElementCollection(x) => x.semantics(),
            HasSemantics::RelationshipElement(x) => x.semantics(),
            HasSemantics::ReferenceElement(x) => x.semantics(),
            HasSemantics::Property(x) => x.semantics(),
            HasSemantics::MultiLanguageProperty(x) => x.semantics(),
            HasSemantics::AnnotatedRelationshipElement(x) => x.semantics(),
            HasSemantics::Entity(x) => x.semantics(),
            HasSemantics::Operation(x) => x.semantics(),
            HasSemantics::Range(x) => x.semantics(),
            HasSemantics::Blob(x) => x.semantics(),
            HasSemantics::File(x) => x.semantics(),
            HasSemantics::SubmodelElementList(x) => x.semantics(),
            HasSemantics::SpecificAssetId(x) => x.semantics(),
            HasSemantics::Capability(x) => x.semantics(),
            HasSemantics::BasicEventElement(x) => x.semantics(),
        }
    }

    fn set_semantic_id(&mut self, semantic_id: Reference)
        ensures
            final(self)@ ==
                old(self)@.with_semantics(SemanticsAspect { semantic_id: Some(semantic_id@),
                ..old(self).semantics() }),
    {
        match self {
            HasSemantics::Submodel(x) => x.set_semantic_id(semantic_id),
            HasSemantics::Qualifier(x) => x.set_semantic_id(semantic_id),
            HasSemantics::Extension(x) => x.set_semantic_id(semantic_id),
            HasSemantics::SubmodelElementCollection(x) => x.set_semantic_id(semantic_id),
            HasSemantics::RelationshipElement(x) => x.set_semantic_id(semantic_id),
            HasSemantics::ReferenceElement(x) => x.set_semantic_id(semantic_id),
            HasSemantics::Property(x) => x.set_semantic_id(semantic_id),
            HasSemantics::MultiLanguageProperty(x) => x.set_semantic_id(semantic_id),
            HasSemantics::AnnotatedRelationshipElement(x) => x.set_semantic_id(semantic_id),
            HasSemantics::Entity(x) => x.set_semantic_id(semantic_id),
            HasSemantics::Operation(x) => x.set_semantic_id(semantic_id),
            HasSemantics::Range(x) => x.set_semantic_id(semantic_id),
            HasSemantics::Blob(x) => x.set_semantic_id(semantic_id),
            HasSemantics::File(x) => x.set_semantic_id(semantic_id),
            HasSemantics::SubmodelElementList(x) => x.set_semantic_id(semantic_id),
            HasSemantics::SpecificAssetId(x) => x.set_semantic_id(semantic_id),
            HasSemantics::Capability(x) => x.set_semantic_id(semantic_id),
            HasSemantics::BasicEventElement(x) => x.set_semantic_id(semantic_id),
        }
    }

    fn get_semantic_id(&self) -> (r: Option<&Reference>) {
        match self {
            HasSemantics::Submodel(x) => x.get_semantic_id(),
            HasSemantics::Qualifier(x) => x.get_semantic_id(),
            HasSemantics::Extension(x) => x.get_semantic_id(),
            HasSemantics::SubmodelElementCollection(x) => x.get_semantic_id(),
            HasSemantics::RelationshipElement(x) => x.get_semantic_id(),
            HasSemantics::ReferenceElement(x) => x.get_semantic_id(),
            HasSemantics::Property(x) => x.get_semantic_id(),
            HasSemantics::MultiLanguageProperty(x) => x.get_semantic_id(),
            HasSemantics::AnnotatedRelationshipElement(x) => x.get_semantic_id(),
            HasSemantics::Entity(x) => x.get_semantic_id(),
            HasSemantics::Operation(x) => x.get_semantic_id(),
            HasSemantics::Range(x) => x.get_semantic_id(),
            HasSemantics::Blob(x) => x.get_semantic_id(),
            HasSemantics::File(x) => x.get_semantic_id(),
            HasSemantics::SubmodelElementList(x) => x.get_semantic_id(),
            HasSemantics::SpecificAssetId(x) => x.get_semantic_id(),
            HasSemantics::Capability(x) => x.get_semantic_id(),
            HasSemantics::BasicEventElement(x) => x.get_semantic_id(),
        }
    }

    fn get_mut_semantic_id(&mut self) -> (r: Option<&mut Reference>)
        ensures
            match r {
                Some(m) =>
                    final(self)@ ==
                    old(self)@.with_semantics(SemanticsAspect { semantic_id: Some(final(m)@),
                    ..old(self).semantics() }),
                None => final(self)@ == old(self)@,
            },
    {
        match self {
            HasSemantics::Submodel(x) => x.get_mut_semantic_id(),
            HasSemantics::Qualifier(x) => x.get_mut_semantic_id(),
            HasSemantics::Extension(x) => x.get_mut_semantic_id(),
            HasSemantics::SubmodelElementCollection(x) => x.get_mut_semantic_id(),
            HasSemantics::RelationshipElement(x) => x.get_mut_semantic_id(),
            HasSemantics::ReferenceElement(x) => x.get_mut_semantic_id(),
            HasSemantics::Property(x) => x.get_mut_semantic_id(),
            HasSemantics::MultiLanguageProperty(x) => x.get_mut_semantic_id(),
            HasSemantics::AnnotatedRelationshipElement(x) => x.get_mut_semantic_id(),
            HasSemantics::Entity(x) => x.get_mut_semantic_id(),
            HasSemantics::Operation(x) => x.get_mut_semantic_id(),
            HasSemantics::Range(x) => x.get_mut_semantic_id(),
            HasSemantics::Blob(x) => x.get_mut_semantic_id(),
            HasSemantics::File(x) => x.get_mut_semantic_id(),
            HasSemantics::SubmodelElementList(x) => x.get_mut_semantic_id(),
            HasSemantics::SpecificAssetId(x) => x.get_mut_semantic_id(),
            HasSemantics::Capability(x) => x.get_mut_semantic_id(),
            HasSemantics::BasicEventElement(x) => x.get_mut_semantic_id(),
        }
    }

    fn set_supplemental_semantic_ids(&mut self, supplemental_semantic_ids: Vec<Reference>)
        ensures
            final(self)@ ==
                old(self)@.with_semantics(SemanticsAspect {
                supplemental_semantic_ids: supplemental_semantic_ids.deep_view(),
                ..old(self).semantics() }),
    {
        match self {
            HasSemantics::Submodel(x) => x.set_supplemental_semantic_ids(supplemental_semantic_ids),
            HasSemantics::Qualifier(x) =>
                x.set_supplemental_semantic_ids(supplemental_semantic_ids),
            HasSemantics::Extension(x) =>
                x.set_supplemental_semantic_ids(supplemental_semantic_ids),
            HasSemantics::SubmodelElementCollection(x) =>
                x.set_supplemental_semantic_ids(supplemental_semantic_ids),
            HasSemantics::RelationshipElement(x) =>
                x.set_supplemental_semantic_ids(supplemental_semantic_ids),
            HasSemantics::ReferenceElement(x) =>
                x.set_supplemental_semantic_ids(supplemental_semantic_ids),
            HasSemantics::Property(x) => x.set_supplemental_semantic_ids(supplemental_semantic_ids),
            HasSemantics::MultiLanguageProperty(x) =>
                x.set_supplemental_semantic_ids(supplemental_semantic_ids),
            HasSemantics::AnnotatedRelationshipElement(x) =>
                x.set_supplemental_semantic_ids(supplemental_semantic_ids),
            HasSemantics::Entity(x) => x.set_supplemental_semantic_ids(supplemental_semantic_ids),
            HasSemantics::Operation(x) =>
                x.set_supplemental_semantic_ids(supplemental_semantic_ids),
            HasSemantics::Range(x) => x.set_supplemental_semantic_ids(supplemental_semantic_ids),
            HasSemantics::Blob(x) => x.set_supplemental_semantic_ids(supplemental_semantic_ids),
            HasSemantics::File(x) => x.set_supplemental_semantic_ids(supplemental_semantic_ids),
            HasSemantics::SubmodelElementList(x) =>
                x.set_supplemental_semantic_ids(supplemental_semantic_ids),
            HasSemantics::SpecificAssetId(x) =>
                x.set_supplemental_semantic_ids(supplemental_semantic_ids),
            HasSemantics::Capability(x) =>
                x.set_supplemental_semantic_ids(supplemental_semantic_ids),
            HasSemantics::BasicEventElement(x) =>
                x.set_supplemental_semantic_ids(supplemental_semantic_ids),
        }
    }

    fn get_supplemental_semantic_ids(&self) -> (r: &Vec<Reference>) {
        match self {
            HasSemantics::Submodel(x) => x.get_supplemental_semantic_ids(),
            HasSemantics::Qualifier(x) => x.get_supplemental_semantic_ids(),
            HasSemantics::Extension(x) => x.get_supplemental_semantic_ids(),
            HasSemantics::SubmodelElementCollection(x) => x.get_supplemental_semantic_ids(),
            HasSemantics::RelationshipElement(x) => x.get_supplemental_semantic_ids(),
            HasSemantics::ReferenceElement(x) => x.get_supplemental_semantic_ids(),
            HasSemantics::Property(x) => x.get_supplemental_semantic_ids(),
            HasSemantics::MultiLanguageProperty(x) => x.get_supplemental_semantic_ids(),
            HasSemantics::AnnotatedRelationshipElement(x) => x.get_supplemental_semantic_ids(),
            HasSemantics::Entity(x) => x.get_supplemental_semantic_ids(),
            HasSemantics::Operation(x) => x.get_supplemental_semantic_ids(),
            HasSemantics::Range(x) => x.get_supplemental_semantic_ids(),
            HasSemantics::Blob(x) => x.get_supplemental_semantic_ids(),
            HasSemantics::File(x) => x.get_supplemental_semantic_ids(),
            HasSemantics::SubmodelElementList(x) => x.get_supplemental_semantic_ids(),
            HasSemantics::SpecificAssetId(x) => x.get_supplemental_semantic_ids(),
            HasSemantics::Capability(x) => x.get_supplemental_semantic_ids(),
            HasSemantics::BasicEventElement(x) => x.get_supplemental_semantic_ids(),
        }
    }

    fn get_mut_supplemental_semantic_ids(&mut self) -> (r: &mut Vec<Reference>)
        ensures
            final(self)@ ==
                old(self)@.with_semantics(SemanticsAspect {
                supplemental_semantic_ids: final(r).deep_view(), ..old(self).semantics() }),
    {
        match self {
            HasSemantics::Submodel(x) => x.get_mut_supplemental_semantic_ids(),
            HasSemantics::Qualifier(x) => x.get_mut_supplemental_semantic_ids(),
            HasSemantics::Extension(x) => x.get_mut_supplemental_semantic_ids(),
            HasSemantics::SubmodelElementCollection(x) => x.get_mut_supplemental_semantic_ids(),
            HasSemantics::RelationshipElement(x) => x.get_mut_supplemental_semantic_ids(),
            HasSemantics::ReferenceElement(x) => x.get_mut_supplemental_semantic_ids(),
            HasSemantics::Property(x) => x.get_mut_supplemental_semantic_ids(),
            HasSemantics::MultiLanguageProperty(x) => x.get_mut_supplemental_semantic_ids(),
            HasSemantics::AnnotatedRelationshipElement(x) => x.get_mut_supplemental_semantic_ids(),
            HasSemantics::Entity(x) => x.get_mut_supplemental_semantic_ids(),
            HasSemantics::Operation(x) => x.get_mut_supplemental_semantic_ids(),
            HasSemantics::Range(x) => x.get_mut_supplemental_semantic_ids(),
            HasSemantics::Blob(x) => x.get_mut_supplemental_semantic_ids(),
            HasSemantics::File(x) => x.get_mut_supplemental_semantic_ids(),
            HasSemantics::SubmodelElementList(x) => x.get_mut_supplemental_semantic_ids(),
            HasSemantics::SpecificAssetId(x) => x.get_mut_supplemental_semantic_ids(),
            HasSemantics::Capability(x) => x.get_mut_supplemental_semantic_ids(),
            HasSemantics::BasicEventElement(x) => x.get_mut_supplemental_semantic_ids(),
        }
    }

    fn add_supplemental_semantic_id(&mut self, supplemental_semantic_id: Reference)
        ensures
            final(self)@ ==
                old(self)@.with_semantics(SemanticsAspect {
                supplemental_semantic_ids: old(self).semantics().supplemental_semantic_ids.push(
                supplemental_semantic_id@), ..old(self).semantics() }),
    {
        match self {
            HasSemantics::Submodel(x) => x.add_supplemental_semantic_id(supplemental_semantic_id),
            HasSemantics::Qualifier(x) => x.add_supplemental_semantic_id(supplemental_semantic_id),
            HasSemantics::Extension(x) => x.add_supplemental_semantic_id(supplemental_semantic_id),
            HasSemantics::SubmodelElementCollection(x) =>
                x.add_supplemental_semantic_id(supplemental_semantic_id),
            HasSemantics::RelationshipElement(x) =>
                x.add_supplemental_semantic_id(supplemental_semantic_id),
            HasSemantics::ReferenceElement(x) =>
                x.add_supplemental_semantic_id(supplemental_semantic_id),
            HasSemantics::Property(x) => x.add_supplemental_semantic_id(supplemental_semantic_id),
            HasSemantics::MultiLanguageProperty(x) =>
                x.add_supplemental_semantic_id(supplemental_semantic_id),
            HasSemantics::AnnotatedRelationshipElement(x) =>
                x.add_supplemental_semantic_id(supplemental_semantic_id),
            HasSemantics::Entity(x) => x.add_supplemental_semantic_id(supplemental_semantic_id),
            HasSemantics::Operation(x) => x.add_supplemental_semantic_id(supplemental_semantic_id),
            HasSemantics::Range(x) => x.add_supplemental_semantic_id(supplemental_semantic_id),
            HasSemantics::Blob(x) => x.add_supplemental_semantic_id(supplemental_semantic_id),
            HasSemantics::File(x) => x.add_supplemental_semantic_id(supplemental_semantic_id),
            HasSemantics::SubmodelElementList(x) =>
                x.add_supplemental_semantic_id(supplemental_semantic_id),
            HasSemantics::SpecificAssetId(x) =>
                x.add_supplemental_semantic_id(supplemental_semantic_id),
            HasSemantics::Capability(x) => x.add_supplemental_semantic_id(supplemental_semantic_id),
            HasSemantics::BasicEventElement(x) =>
                x.add_supplemental_semantic_id(supplemental_semantic_id),
        }
    }

    fn remove_supplemental_semantic_id(&mut self, index: usize) -> (r: Result<Reference,
        ModelError>)
        ensures
            match r {
                Ok(item) =>
                    final(self)@ ==
                    old(self)@.with_semantics(SemanticsAspect {
                    supplemental_semantic_ids: old(self).semantics().supplemental_semantic_ids.remove(
                    index as int), ..old(self).semantics() }),
                Err(e) => final(self)@ == old(self)@,
            },
    {
        match self {
            HasSemantics::Submodel(x) => x.remove_supplemental_semantic_id(index),
            HasSemantics::Qualifier(x) => x.remove_supplemental_semantic_id(index),
            HasSemantics::Extension(x) => x.remove_supplemental_semantic_id(index),
            HasSemantics::SubmodelElementCollection(x) => x.remove_supplemental_semantic_id(index),
            HasSemantics::RelationshipElement(x) => x.remove_supplemental_semantic_id(index),
            HasSemantics::ReferenceElement(x) => x.remove_supplemental_semantic_id(index),
            HasSemantics::Property(x) => x.remove_supplemental_semantic_id(index),
            HasSemantics::MultiLanguageProperty(x) => x.remove_supplemental_semantic_id(index),
            HasSemantics::AnnotatedRelationshipElement(x) =>
                x.remove_supplemental_semantic_id(index),
            HasSemantics::Entity(x) => x.remove_supplemental_semantic_id(index),
            HasSemantics::Operation(x) => x.remove_supplemental_semantic_id(index),
            HasSemantics::Range(x) => x.remove_supplemental_semantic_id(index),
            HasSemantics::Blob(x) => x.remove_supplemental_semantic_id(index),
            HasSemantics::File(x) => x.remove_supplemental_semantic_id(index),
            HasSemantics::SubmodelElementList(x) => x.remove_supplemental_semantic_id(index),
            HasSemantics::SpecificAssetId(x) => x.remove_supplemental_semantic_id(index),
            HasSemantics::Capability(x) => x.remove_supplemental_semantic_id(index),
            HasSemantics::BasicEventElement(x) => x.remove_supplemental_semantic_id(index),
        }
    }
}

impl HasSemanticsView {
    /// Whether every reference in the value is well formed.
    pub open spec fn well_formed(self) -> bool {
        match self {
            HasSemanticsView::Submodel(x) => x.well_formed(),
            HasSemanticsView::Qualifier(x) => x.well_formed(),
            HasSemanticsView::Extension(x) => x.well_formed(),
            HasSemanticsView::SubmodelElementCollection(x) => x.well_formed(),
            HasSemanticsView::RelationshipElement(x) => x.well_formed(),
            HasSemanticsView::ReferenceElement(x) => x.well_formed(),
            HasSemanticsView::Property(x) => x.well_formed(),
            HasSemanticsView::MultiLanguageProperty(x) => x.well_formed(),
            HasSemanticsView::AnnotatedRelationshipElement(x) => x.well_formed(),
            HasSemanticsView::Entity(x) => x.well_formed(),
            HasSemanticsView::Operation(x) => x.well_formed(),
            HasSemanticsView::Range(x) => x.well_formed(),
            HasSemanticsView::Blob(x) => x.well_formed(),
            HasSemanticsView::File(x) => x.well_formed(),
            HasSemanticsView::SubmodelElementList(x) => x.well_formed(),
            HasSemanticsView::SpecificAssetId(x) => x.well_formed(),
            HasSemanticsView::Capability(x) => x.well_formed(),
            HasSemanticsView::BasicEventElement(x) => x.well_formed(),
        }
    }

    /// The same value with what it carries of the aspect replaced.
    pub open spec fn with_semantics(self, aspect: SemanticsAspect) -> HasSemanticsView {
        match self {
            HasSemanticsView::Submodel(x) => HasSemanticsView::Submodel(x.with_semantics(aspect)),
            HasSemanticsView::Qualifier(x) => HasSemanticsView::Qualifier(x.with_semantics(aspect)),
            HasSemanticsView::Extension(x) => HasSemanticsView::Extension(x.with_semantics(aspect)),
            HasSemanticsView::SubmodelElementCollection(x) =>
                HasSemanticsView::SubmodelElementCollection(x.with_semantics(aspect)),
            HasSemanticsView::RelationshipElement(x) =>
                HasSemanticsView::RelationshipElement(x.with_semantics(aspect)),
            HasSemanticsView::ReferenceElement(x) =>
                HasSemanticsView::ReferenceElement(x.with_semantics(aspect)),
            HasSemanticsView::Property(x) => HasSemanticsView::Property(x.with_semantics(aspect)),
            HasSemanticsView::MultiLanguageProperty(x) =>
                HasSemanticsView::MultiLanguageProperty(x.with_semantics(aspect)),
            HasSemanticsView::AnnotatedRelationshipElement(x) =>
                HasSemanticsView::AnnotatedRelationshipElement(x.with_semantics(aspect)),
            HasSemanticsView::Entity(x) => HasSemanticsView::Entity(x.with_semantics(aspect)),
            HasSemanticsView::Operation(x) => HasSemanticsView::Operation(x.with_semantics(aspect)),
            HasSemanticsView::Range(x) => HasSemanticsView::Range(x.with_semantics(aspect)),
            HasSemanticsView::Blob(x) => HasSemanticsView::Blob(x.with_semantics(aspect)),
            HasSemanticsView::File(x) => HasSemanticsView::File(x.with_semantics(aspect)),
            HasSemanticsView::SubmodelElementList(x) =>
                HasSemanticsView::SubmodelElementList(x.with_semantics(aspect)),
            HasSemanticsView::SpecificAssetId(x) =>
                HasSemanticsView::SpecificAssetId(x.with_semantics(aspect)),
            HasSemanticsView::Capability(x) =>
                HasSemanticsView::Capability(x.with_semantics(aspect)),
            HasSemanticsView::BasicEventElement(x) =>
                HasSemanticsView::BasicEventElement(x.with_semantics(aspect)),
        }
    }

    /// The name of the type of the value, which tells the variants apart on
    /// the wire.
    pub open spec fn model_type(self) -> Seq<char> {
        match self {
            HasSemanticsView::Submodel(_) => "Submodel"@,
            HasSemanticsView::Qualifier(_) => "Qualifier"@,
            HasSemanticsView::Extension(_) => "Extension"@,
            HasSemanticsView::SubmodelElementCollection(_) => "SubmodelElementCollection"@,
            HasSemanticsView::RelationshipElement(_) => "RelationshipElement"@,
            HasSemanticsView::ReferenceElement(_) => "ReferenceElement"@,
            HasSemanticsView::Property(_) => "Property"@,
            HasSemanticsView::MultiLanguageProperty(_) => "MultiLanguageProperty"@,
            HasSemanticsView::AnnotatedRelationshipElement(_) => "AnnotatedRelationshipElement"@,
            HasSemanticsView::Entity(_) => "Entity"@,
            HasSemanticsView::Operation(_) => "Operation"@,
            HasSemanticsView::Range(_) => "Range"@,
            HasSemanticsView::Blob(_) => "Blob"@,
            HasSemanticsView::File(_) => "File"@,
            HasSemanticsView::SubmodelElementList(_) => "SubmodelElementList"@,
            HasSemanticsView::SpecificAssetId(_) => "SpecificAssetId"@,
            HasSemanticsView::Capability(_) => "Capability"@,
            HasSemanticsView::BasicEventElement(_) => "BasicEventElement"@,
        }
    }

    /// Whether `tag` is the name of a type that is accepted in this place.
    pub open spec fn knows(tag: Seq<char>) -> bool {
        tag == "Submodel"@
            || tag == "Qualifier"@
            || tag == "Extension"@
            || tag == "SubmodelElementCollection"@
            || tag == "RelationshipElement"@
            || tag == "ReferenceElement"@
            || tag == "Property"@
            || tag == "MultiLanguageProperty"@
            || tag == "AnnotatedRelationshipElement"@
            || tag == "Entity"@
            || tag == "Operation"@
            || tag == "Range"@
            || tag == "Blob"@
            || tag == "File"@
            || tag == "SubmodelElementList"@
            || tag == "SpecificAssetId"@
            || tag == "Capability"@
            || tag == "BasicEventElement"@
    }

    /// The value on the wire: a record that begins with the name of the
    /// type and goes on with the members of the value.
    pub open spec fn to_wire(self) -> WireView {
        WireView::Record(
            match self {
                HasSemanticsView::Submodel(x) => x.members_after(tagged(Some("Submodel"@))),
                HasSemanticsView::Qualifier(x) => x.members_after(tagged(Some("Qualifier"@))),
                HasSemanticsView::Extension(x) => x.members_after(tagged(Some("Extension"@))),
                HasSemanticsView::SubmodelElementCollection(x) =>
                    x.members_after(tagged(Some("SubmodelElementCollection"@))),
                HasSemanticsView::RelationshipElement(x) =>
                    x.members_after(tagged(Some("RelationshipElement"@))),
                HasSemanticsView::ReferenceElement(x) =>
                    x.members_after(tagged(Some("ReferenceElement"@))),
                HasSemanticsView::Property(x) => x.members_after(tagged(Some("Property"@))),
                HasSemanticsView::MultiLanguageProperty(x) =>
                    x.members_after(tagged(Some("MultiLanguageProperty"@))),
                HasSemanticsView::AnnotatedRelationshipElement(x) =>
                    x.members_after(tagged(Some("AnnotatedRelationshipElement"@))),
                HasSemanticsView::Entity(x) => x.members_after(tagged(Some("Entity"@))),
                HasSemanticsView::Operation(x) => x.members_after(tagged(Some("Operation"@))),
                HasSemanticsView::Range(x) => x.members_after(tagged(Some("Range"@))),
                HasSemanticsView::Blob(x) => x.members_after(tagged(Some("Blob"@))),
                HasSemanticsView::File(x) => x.members_after(tagged(Some("File"@))),
                HasSemanticsView::SubmodelElementList(x) =>
                    x.members_after(tagged(Some("SubmodelElementList"@))),
                HasSemanticsView::SpecificAssetId(x) =>
                    x.members_after(tagged(Some("SpecificAssetId"@))),
                HasSemanticsView::Capability(x) => x.members_after(tagged(Some("Capability"@))),
                HasSemanticsView::BasicEventElement(x) =>
                    x.members_after(tagged(Some("BasicEventElement"@))),
            },
        )
    }

    /// The value that a wire value stands for: that of the type that the
    /// member `modelType` names. A name of no accepted type is refused.
    pub open spec fn from_wire(w: WireView) -> Result<HasSemanticsView, DecodeErrorView> {
        match w {
            WireView::Record(fields) => match lookup(fields, "modelType"@) {
                None => Err(fail_at(DecodeFault::MissingField, "modelType"@)),
                Some(WireView::Text(tag)) => HasSemanticsView::from_tagged(tag, fields),
                Some(_) => Err(fail_at(DecodeFault::ExpectedText, "modelType"@)),
            },
            _ => Err(fail(DecodeFault::ExpectedRecord)),
        }
    }

    /// The value of the type called `tag` that the members of a record stand
    /// for.
    #[verifier::opaque]
    pub open spec fn from_tagged(tag: Seq<char>, fields: Seq<FieldView>) -> Result<
        HasSemanticsView,
        DecodeErrorView,
    > {
        if tag == "Submodel"@ {
            match SubmodelView::from_members(fields) {
                Ok(x) => Ok(HasSemanticsView::Submodel(x)),
                Err(e) => Err(e),
            }
        } else if tag == "Qualifier"@ {
            match QualifierView::from_members(fields) {
                Ok(x) => Ok(HasSemanticsView::Qualifier(x)),
                Err(e) => Err(e),
            }
        } else if tag == "Extension"@ {
            match ExtensionView::from_members(fields) {
                Ok(x) => Ok(HasSemanticsView::Extension(x)),
                Err(e) => Err(e),
            }
        } else if tag == "SubmodelElementCollection"@ {
            match SubmodelElementCollectionView::from_members(fields) {
                Ok(x) => Ok(HasSemanticsView::SubmodelElementCollection(x)),
                Err(e) => Err(e),
            }
        } else if tag == "RelationshipElement"@ {
            match RelationshipElementView::from_members(fields) {
                Ok(x) => Ok(HasSemanticsView::RelationshipElement(x)),
                Err(e) => Err(e),
            }
        } else if tag == "ReferenceElement"@ {
            match ReferenceElementView::from_members(fields) {
                Ok(x) => Ok(HasSemanticsView::ReferenceElement(x)),
                Err(e) => Err(e),
            }
        } else if tag == "Property"@ {
            match PropertyView::from_members(fields) {
                Ok(x) => Ok(HasSemanticsView::Property(x)),
                Err(e) => Err(e),
            }
        } else if tag == "MultiLanguageProperty"@ {
            match MultiLanguagePropertyView::from_members(fields) {
                Ok(x) => Ok(HasSemanticsView::MultiLanguageProperty(x)),
                Err(e) => Err(e),
            }
        } else if tag == "AnnotatedRelationshipElement"@ {
            match AnnotatedRelationshipElementView::from_members(fields) {
                Ok(x) => Ok(HasSemanticsView::AnnotatedRelationshipElement(x)),
                Err(e) => Err(e),
            }
        } else if tag == "Entity"@ {
            match EntityView::from_members(fields) {
                Ok(x) => Ok(HasSemanticsView::Entity(x)),
                Err(e) => Err(e),
            }
        } else if tag == "Operation"@ {
            match OperationView::from_members(fields) {
                Ok(x) => Ok(HasSemanticsView::Operation(x)),
                Err(e) => Err(e),
            }
        } else if tag == "Range"@ {
            match RangeView::from_members(fields) {
                Ok(x) => Ok(HasSemanticsView::Range(x)),
                Err(e) => Err(e),
            }
        } else if tag == "Blob"@ {
            match BlobView::from_members(fields) {
                Ok(x) => Ok(HasSemanticsView::Blob(x)),
                Err(e) => Err(e),
            }
        } else if tag == "File"@ {
            match FileView::from_members(fields) {
                Ok(x) => Ok(HasSemanticsView::File(x)),
                Err(e) => Err(e),
            }
        } else if tag == "SubmodelElementList"@ {
            match SubmodelElementListView::from_members(fields) {
                Ok(x) => Ok(HasSemanticsView::SubmodelElementList(x)),
                Err(e) => Err(e),
            }
        } else if tag == "SpecificAssetId"@ {
            match SpecificAssetIdView::from_members(fields) {
                Ok(x) => Ok(HasSemanticsView::SpecificAssetId(x)),
                Err(e) => Err(e),
            }
        } else if tag == "Capability"@ {
            match CapabilityView::from_members(fields) {
                Ok(x) => Ok(HasSemanticsView::Capability(x)),
                Err(e) => Err(e),
            }
        } else if tag == "BasicEventElement"@ {
            match BasicEventElementView::from_members(fields) {
                Ok(x) => Ok(HasSemanticsView::BasicEventElement(x)),
                Err(e) => Err(e),
            }
        } else {
            Err(fail_at(DecodeFault::UnknownDiscriminant, "modelType"@))
        }
    }

    /// What is encoded carries the exact name of its type as its type name.
    pub proof fn lemma_model_type(self)
        ensures
            self.to_wire() matches WireView::Record(fields) && lookup(fields, "modelType"@) == Some(
                WireView::Text(self.model_type()),
            ),
            HasSemanticsView::knows(self.model_type()),
    {
        broadcast use lemma_lookup_push;

        match self {
            HasSemanticsView::Submodel(x) => {
                x.lemma_model_type_kept(Some("Submodel"@));
            },
            HasSemanticsView::Qualifier(x) => {
                x.lemma_model_type_kept(Some("Qualifier"@));
            },
            HasSemanticsView::Extension(x) => {
                x.lemma_model_type_kept(Some("Extension"@));
            },
            HasSemanticsView::SubmodelElementCollection(x) => {
                x.lemma_model_type_kept(Some("SubmodelElementCollection"@));
            },
            HasSemanticsView::RelationshipElement(x) => {
                x.lemma_model_type_kept(Some("RelationshipElement"@));
            },
            HasSemanticsView::ReferenceElement(x) => {
                x.lemma_model_type_kept(Some("ReferenceElement"@));
            },
            HasSemanticsView::Property(x) => {
                x.lemma_model_type_kept(Some("Property"@));
            },
            HasSemanticsView::MultiLanguageProperty(x) => {
                x.lemma_model_type_kept(Some("MultiLanguageProperty"@));
            },
            HasSemanticsView::AnnotatedRelationshipElement(x) => {
                x.lemma_model_type_kept(Some("AnnotatedRelationshipElement"@));
            },
            HasSemanticsView::Entity(x) => {
                x.lemma_model_type_kept(Some("Entity"@));
            },
            HasSemanticsView::Operation(x) => {
                x.lemma_model_type_kept(Some("Operation"@));
            },
            HasSemanticsView::Range(x) => {
                x.lemma_model_type_kept(Some("Range"@));
            },
            HasSemanticsView::Blob(x) => {
                x.lemma_model_type_kept(Some("Blob"@));
            },
            HasSemanticsView::File(x) => {
                x.lemma_model_type_kept(Some("File"@));
            },
            HasSemanticsView::SubmodelElementList(x) => {
                x.lemma_model_type_kept(Some("SubmodelElementList"@));
            },
            HasSemanticsView::SpecificAssetId(x) => {
                x.lemma_model_type_kept(Some("SpecificAssetId"@));
            },
            HasSemanticsView::Capability(x) => {
                x.lemma_model_type_kept(Some("Capability"@));
            },
            HasSemanticsView::BasicEventElement(x) => {
                x.lemma_model_type_kept(Some("BasicEventElement"@));
            },
        }
    }

    /// A record whose type name is that of no accepted type is refused.
    pub proof fn lemma_unknown_model_type(fields: Seq<FieldView>, tag: Seq<char>)
        requires
            lookup(fields, "modelType"@) == Some(WireView::Text(tag)),
            !HasSemanticsView::knows(tag),
        ensures
            HasSemanticsView::from_wire(WireView::Record(fields)) ==
                Err::<HasSemanticsView, DecodeErrorView>(
                fail_at(DecodeFault::UnknownDiscriminant, "modelType"@),
            ),
    {
        reveal(HasSemanticsView::from_tagged);
    }

    /// A value of the variant `Submodel` is found again from what it is on the wire.
    proof fn lemma_round_trip_submodel(x: SubmodelView)
        requires
            x.well_formed(),
        ensures
            HasSemanticsView::from_wire(HasSemanticsView::Submodel(x).to_wire()) ==
                Ok::<HasSemanticsView, DecodeErrorView>(
                HasSemanticsView::Submodel(x),
            ),
    {
        broadcast use lemma_lookup_push;

        reveal(HasSemanticsView::from_tagged);
        lemma_name_codes();
        x.lemma_members_round_trip(Some("Submodel"@));
        x.lemma_model_type_kept(Some("Submodel"@));
    }

    /// A value of the variant `Qualifier` is found again from what it is on the wire.
    proof fn lemma_round_trip_qualifier(x: QualifierView)
        requires
            x.well_formed(),
        ensures
            HasSemanticsView::from_wire(HasSemanticsView::Qualifier(x).to_wire()) ==
                Ok::<HasSemanticsView, DecodeErrorView>(
                HasSemanticsView::Qualifier(x),
            ),
    {
        broadcast use lemma_lookup_push;

        reveal(HasSemanticsView::from_tagged);
        lemma_name_codes();
        x.lemma_members_round_trip(Some("Qualifier"@));
        x.lemma_model_type_kept(Some("Qualifier"@));
    }

    /// A value of the variant `Extension` is found again from what it is on the wire.
    proof fn lemma_round_trip_extension(x: ExtensionView)
        requires
            x.well_formed(),
        ensures
            HasSemanticsView::from_wire(HasSemanticsView::Extension(x).to_wire()) ==
                Ok::<HasSemanticsView, DecodeErrorView>(
                HasSemanticsView::Extension(x),
            ),
    {
        broadcast use lemma_lookup_push;

        reveal(HasSemanticsView::from_tagged);
        lemma_name_codes();
        x.lemma_members_round_trip(Some("Extension"@));
        x.lemma_model_type_kept(Some("Extension"@));
    }

    /// A value of the variant `SubmodelElementCollection` is found again from what it is on the
    /// wire.
    proof fn lemma_round_trip_submodel_element_collection(x: SubmodelElementCollectionView)
        requires
            x.well_formed(),
        ensures
            HasSemanticsView::from_wire(HasSemanticsView::SubmodelElementCollection(x).to_wire()) ==
                Ok::<HasSemanticsView, DecodeErrorView>(
                HasSemanticsView::SubmodelElementCollection(x),
            ),
    {
        broadcast use lemma_lookup_push;

        reveal(HasSemanticsView::from_tagged);
        lemma_name_codes();
        x.lemma_members_round_trip(Some("SubmodelElementCollection"@));
        x.lemma_model_type_kept(Some("SubmodelElementCollection"@));
    }

    /// A value of the variant `RelationshipElement` is found again from what it is on the wire.
    proof fn lemma_round_trip_relationship_element(x: RelationshipElementView)
        requires
            x.well_formed(),
        ensures
            HasSemanticsView::from_wire(HasSemanticsView::RelationshipElement(x).to_wire()) ==
                Ok::<HasSemanticsView, DecodeErrorView>(
                HasSemanticsView::RelationshipElement(x),
            ),
    {
        broadcast use lemma_lookup_push;

        reveal(HasSemanticsView::from_tagged);
        lemma_name_codes();
        x.lemma_members_round_trip(Some("RelationshipElement"@));
        x.lemma_model_type_kept(Some("RelationshipElement"@));
    }

    /// A value of the variant `ReferenceElement` is found again from what it is on the wire.
    proof fn lemma_round_trip_reference_element(x: ReferenceElementView)
        requires
            x.well_formed(),
        ensures
            HasSemanticsView::from_wire(HasSemanticsView::ReferenceElement(x).to_wire()) ==
                Ok::<HasSemanticsView, DecodeErrorView>(
                HasSemanticsView::ReferenceElement(x),
            ),
    {
        broadcast use lemma_lookup_push;

        reveal(HasSemanticsView::from_tagged);
        lemma_name_codes();
        x.lemma_members_round_trip(Some("ReferenceElement"@));
        x.lemma_model_type_kept(Some("ReferenceElement"@));
    }

    /// A value of the variant `Property` is found again from what it is on the wire.
    proof fn lemma_round_trip_property(x: PropertyView)
        requires
            x.well_formed(),
        ensures
            HasSemanticsView::from_wire(HasSemanticsView::Property(x).to_wire()) ==
                Ok::<HasSemanticsView, DecodeErrorView>(
                HasSemanticsView::Property(x),
            ),
    {
        broadcast use lemma_lookup_push;

        reveal(HasSemanticsView::from_tagged);
        lemma_name_codes();
        x.lemma_members_round_trip(Some("Property"@));
        x.lemma_model_type_kept(Some("Property"@));
    }

    /// A value of the variant `MultiLanguageProperty` is found again from what it is on the wire.
    proof fn lemma_round_trip_multi_language_property(x: MultiLanguagePropertyView)
        requires
            x.well_formed(),
        ensures
            HasSemanticsView::from_wire(HasSemanticsView::MultiLanguageProperty(x).to_wire()) ==
                Ok::<HasSemanticsView, DecodeErrorView>(
                HasSemanticsView::MultiLanguageProperty(x),
            ),
    {
        broadcast use lemma_lookup_push;

        reveal(HasSemanticsView::from_tagged);
        lemma_name_codes();
        x.lemma_members_round_trip(Some("MultiLanguageProperty"@));
        x.lemma_model_type_kept(Some("MultiLanguageProperty"@));
    }

    /// A value of the variant `AnnotatedRelationshipElement` is found again from what it is on the
    /// wire.
    proof fn lemma_round_trip_annotated_relationship_element(x: AnnotatedRelationshipElementView)
        requires
            x.well_formed(),
        ensures
            HasSemanticsView::from_wire(HasSemanticsView::AnnotatedRelationshipElement(
                x).to_wire()) == Ok::<HasSemanticsView, DecodeErrorView>(
                HasSemanticsView::AnnotatedRelationshipElement(x),
            ),
    {
        broadcast use lemma_lookup_push;

        reveal(HasSemanticsView::from_tagged);
        lemma_name_codes();
        x.lemma_members_round_trip(Some("AnnotatedRelationshipElement"@));
        x.lemma_model_type_kept(Some("AnnotatedRelationshipElement"@));
    }

    /// A value of the variant `Entity` is found again from what it is on the wire.
    proof fn lemma_round_trip_entity(x: EntityView)
        requires
            x.well_formed(),
        ensures
            HasSemanticsView::from_wire(HasSemanticsView::Entity(x).to_wire()) ==
                Ok::<HasSemanticsView, DecodeErrorView>(
                HasSemanticsView::Entity(x),
            ),
    {
        broadcast use lemma_lookup_push;

        reveal(HasSemanticsView::from_tagged);
        lemma_name_codes();
        x.lemma_members_round_trip(Some("Entity"@));
        x.lemma_model_type_kept(Some("Entity"@));
    }

    /// A value of the variant `Operation` is found again from what it is on the wire.
    proof fn lemma_round_trip_operation(x: OperationView)
        requires
            x.well_formed(),
        ensures
            HasSemanticsView::from_wire(HasSemanticsView::Operation(x).to_wire()) ==
                Ok::<HasSemanticsView, DecodeErrorView>(
                HasSemanticsView::Operation(x),
            ),
    {
        broadcast use lemma_lookup_push;

        reveal(HasSemanticsView::from_tagged);
        lemma_name_codes();
        x.lemma_members_round_trip(Some("Operation"@));
        x.lemma_model_type_kept(Some("Operation"@));
    }

    /// A value of the variant `Range` is found again from what it is on the wire.
    proof fn lemma_round_trip_range(x: RangeView)
        requires
            x.well_formed(),
        ensures
            HasSemanticsView::from_wire(HasSemanticsView::Range(x).to_wire()) ==
                Ok::<HasSemanticsView, DecodeErrorView>(
                HasSemanticsView::Range(x),
            ),
    {
        broadcast use lemma_lookup_push;

        reveal(HasSemanticsView::from_tagged);
        lemma_name_codes();
        x.lemma_members_round_trip(Some("Range"@));
        x.lemma_model_type_kept(Some("Range"@));
    }

    /// A value of the variant `Blob` is found again from what it is on the wire.
    proof fn lemma_round_trip_blob(x: BlobView)
        requires
            x.well_formed(),
        ensures
            HasSemanticsView::from_wire(HasSemanticsView::Blob(x).to_wire()) ==
                Ok::<HasSemanticsView, DecodeErrorView>(
                HasSemanticsView::Blob(x),
            ),
    {
        broadcast use lemma_lookup_push;

        reveal(HasSemanticsView::from_tagged);
        lemma_name_codes();
        x.lemma_members_round_trip(Some("Blob"@));
        x.lemma_model_type_kept(Some("Blob"@));
    }

    /// A value of the variant `File` is found again from what it is on the wire.
    proof fn lemma_round_trip_file(x: FileView)
        requires
            x.well_formed(),
        ensures
            HasSemanticsView::from_wire(HasSemanticsView::File(x).to_wire()) ==
                Ok::<HasSemanticsView, DecodeErrorView>(
                HasSemanticsView::File(x),
            ),
    {
        broadcast use lemma_lookup_push;

        reveal(HasSemanticsView::from_tagged);
        lemma_name_codes();
        x.lemma_members_round_trip(Some("File"@));
        x.lemma_model_type_kept(Some("File"@));
    }

    /// A value of the variant `SubmodelElementList` is found again from what it is on the wire.
    proof fn lemma_round_trip_submodel_element_list(x: SubmodelElementListView)
        requires
            x.well_formed(),
        ensures
            HasSemanticsView::from_wire(HasSemanticsView::SubmodelElementList(x).to_wire()) ==
                Ok::<HasSemanticsView, DecodeErrorView>(
                HasSemanticsView::SubmodelElementList(x),
            ),
    {
        broadcast use lemma_lookup_push;

        reveal(HasSemanticsView::from_tagged);
        lemma_name_codes();
        x.lemma_members_round_trip(Some("SubmodelElementList"@));
        x.lemma_model_type_kept(Some("SubmodelElementList"@));
    }

    /// A value of the variant `SpecificAssetId` is found again from what it is on the wire.
    proof fn lemma_round_trip_specific_asset_id(x: SpecificAssetIdView)
        requires
            x.well_formed(),
        ensures
            HasSemanticsView::from_wire(HasSemanticsView::SpecificAssetId(x).to_wire()) ==
                Ok::<HasSemanticsView, DecodeErrorView>(
                HasSemanticsView::SpecificAssetId(x),
            ),
    {
        broadcast use lemma_lookup_push;

        reveal(HasSemanticsView::from_tagged);
        lemma_name_codes();
        x.lemma_members_round_trip(Some("SpecificAssetId"@));
        x.lemma_model_type_kept(Some("SpecificAssetId"@));
    }

    /// A value of the variant `Capability` is found again from what it is on the wire.
    proof fn lemma_round_trip_capability(x: CapabilityView)
        requires
            x.well_formed(),
        ensures
            HasSemanticsView::from_wire(HasSemanticsView::Capability(x).to_wire()) ==
                Ok::<HasSemanticsView, DecodeErrorView>(
                HasSemanticsView::Capability(x),
            ),
    {
        broadcast use lemma_lookup_push;

        reveal(HasSemanticsView::from_tagged);
        lemma_name_codes();
        x.lemma_members_round_trip(Some("Capability"@));
        x.lemma_model_type_kept(Some("Capability"@));
    }

    /// A value of the variant `BasicEventElement` is found again from what it is on the wire.
    proof fn lemma_round_trip_basic_event_element(x: BasicEventElementView)
        requires
            x.well_formed(),
        ensures
            HasSemanticsView::from_wire(HasSemanticsView::BasicEventElement(x).to_wire()) ==
                Ok::<HasSemanticsView, DecodeErrorView>(
                HasSemanticsView::BasicEventElement(x),
            ),
    {
        broadcast use lemma_lookup_push;

        reveal(HasSemanticsView::from_tagged);
        lemma_name_codes();
        x.lemma_members_round_trip(Some("BasicEventElement"@));
        x.lemma_model_type_kept(Some("BasicEventElement"@));
    }

    /// Every value is found again from what it is on the wire.
    pub proof fn lemma_round_trip(self)
        requires
            self.well_formed(),
        ensures
            HasSemanticsView::from_wire(self.to_wire()) ==
                Ok::<HasSemanticsView, DecodeErrorView>(self),
    {
        match self {
            HasSemanticsView::Submodel(x) => {
                HasSemanticsView::lemma_round_trip_submodel(x);
            },
            HasSemanticsView::Qualifier(x) => {
                HasSemanticsView::lemma_round_trip_qualifier(x);
            },
            HasSemanticsView::Extension(x) => {
                HasSemanticsView::lemma_round_trip_extension(x);
            },
            HasSemanticsView::SubmodelElementCollection(x) => {
                HasSemanticsView::lemma_round_trip_submodel_element_collection(x);
            },
            HasSemanticsView::RelationshipElement(x) => {
                HasSemanticsView::lemma_round_trip_relationship_element(x);
            },
            HasSemanticsView::ReferenceElement(x) => {
                HasSemanticsView::lemma_round_trip_reference_element(x);
            },
            HasSemanticsView::Property(x) => {
                HasSemanticsView::lemma_round_trip_property(x);
            },
            HasSemanticsView::MultiLanguageProperty(x) => {
                HasSemanticsView::lemma_round_trip_multi_language_property(x);
            },
            HasSemanticsView::AnnotatedRelationshipElement(x) => {
                HasSemanticsView::lemma_round_trip_annotated_relationship_element(x);
            },
            HasSemanticsView::Entity(x) => {
                HasSemanticsView::lemma_round_trip_entity(x);
            },
            HasSemanticsView::Operation(x) => {
                HasSemanticsView::lemma_round_trip_operation(x);
            },
            HasSemanticsView::Range(x) => {
                HasSemanticsView::lemma_round_trip_range(x);
            },
            HasSemanticsView::Blob(x) => {
                HasSemanticsView::lemma_round_trip_blob(x);
            },
            HasSemanticsView::File(x) => {
                HasSemanticsView::lemma_round_trip_file(x);
            },
            HasSemanticsView::SubmodelElementList(x) => {
                HasSemanticsView::lemma_round_trip_submodel_element_list(x);
            },
            HasSemanticsView::SpecificAssetId(x) => {
                HasSemanticsView::lemma_round_trip_specific_asset_id(x);
            },
            HasSemanticsView::Capability(x) => {
                HasSemanticsView::lemma_round_trip_capability(x);
            },
            HasSemanticsView::BasicEventElement(x) => {
                HasSemanticsView::lemma_round_trip_basic_event_element(x);
            },
        }
    }
}

impl HasSemantics {
    /// The name of the type of the value.
    pub fn model_type(&self) -> (s: &'static str)
        ensures
            s@ == self@.model_type(),
    {
        match self {
            HasSemantics::Submodel(_) => "Submodel",
            HasSemantics::Qualifier(_) => "Qualifier",
            HasSemantics::Extension(_) => "Extension",
            HasSemantics::SubmodelElementCollection(_) => "SubmodelElementCollection",
            HasSemantics::RelationshipElement(_) => "RelationshipElement",
            HasSemantics::ReferenceElement(_) => "ReferenceElement",
            HasSemantics::Property(_) => "Property",
            HasSemantics::MultiLanguageProperty(_) => "MultiLanguageProperty",
            HasSemantics::AnnotatedRelationshipElement(_) => "AnnotatedRelationshipElement",
            HasSemantics::Entity(_) => "Entity",
            HasSemantics::Operation(_) => "Operation",
            HasSemantics::Range(_) => "Range",
            HasSemantics::Blob(_) => "Blob",
            HasSemantics::File(_) => "File",
            HasSemantics::SubmodelElementList(_) => "SubmodelElementList",
            HasSemantics::SpecificAssetId(_) => "SpecificAssetId",
            HasSemantics::Capability(_) => "Capability",
            HasSemantics::BasicEventElement(_) => "BasicEventElement",
        }
    }

    /// The value as it travels: a record that begins with the name of the
    /// type. What comes out decodes to the same value again.
    pub fn encode(&self) -> (w: Wire)
        ensures
            w@ == self@.to_wire(),
            self@.well_formed(),
            HasSemanticsView::from_wire(w@) == Ok::<HasSemanticsView, DecodeErrorView>(self@),
    {
        let mut fields: Vec<Field> = Vec::new();
        assert(fields.deep_view() =~= Seq::<FieldView>::empty());
        add_member(&mut fields, "modelType", Wire::text(self.model_type()));
        match self {
            HasSemantics::Submodel(x) => x.encode_members(&mut fields),
            HasSemantics::Qualifier(x) => x.encode_members(&mut fields),
            HasSemantics::Extension(x) => x.encode_members(&mut fields),
            HasSemantics::SubmodelElementCollection(x) => x.encode_members(&mut fields),
            HasSemantics::RelationshipElement(x) => x.encode_members(&mut fields),
            HasSemantics::ReferenceElement(x) => x.encode_members(&mut fields),
            HasSemantics::Property(x) => x.encode_members(&mut fields),
            HasSemantics::MultiLanguageProperty(x) => x.encode_members(&mut fields),
            HasSemantics::AnnotatedRelationshipElement(x) => x.encode_members(&mut fields),
            HasSemantics::Entity(x) => x.encode_members(&mut fields),
            HasSemantics::Operation(x) => x.encode_members(&mut fields),
            HasSemantics::Range(x) => x.encode_members(&mut fields),
            HasSemantics::Blob(x) => x.encode_members(&mut fields),
            HasSemantics::File(x) => x.encode_members(&mut fields),
            HasSemantics::SubmodelElementList(x) => x.encode_members(&mut fields),
            HasSemantics::SpecificAssetId(x) => x.encode_members(&mut fields),
            HasSemantics::Capability(x) => x.encode_members(&mut fields),
            HasSemantics::BasicEventElement(x) => x.encode_members(&mut fields),
        }
        proof {
            self@.lemma_round_trip();
        }
        Wire::record(fields)
    }

    /// The value that `w` stands for.
    pub fn decode(w: &Wire) -> (r: Result<HasSemantics, DecodeError>)
        ensures
            outcome(r) == HasSemanticsView::from_wire(w@),
    {
        let fields = match w.members() {
            Some(fields) => fields,
            None => {
                return Err(DecodeError::new(DecodeFault::ExpectedRecord));
            },
        };
        let tag = match find(fields, "modelType") {
            None => {
                return Err(DecodeError::at(DecodeFault::MissingField, "modelType"));
            },
            Some(Wire::Text(tag)) => tag,
            Some(_) => {
                return Err(DecodeError::at(DecodeFault::ExpectedText, "modelType"));
            },
        };
        proof {
            reveal(HasSemanticsView::from_tagged);
        }
        if same_text(tag.as_str(), "Submodel") {
            match Submodel::decode_members(fields) {
                Ok(x) => Ok(HasSemantics::Submodel(x)),
                Err(e) => Err(e),
            }
        } else if same_text(tag.as_str(), "Qualifier") {
            match Qualifier::decode_members(fields) {
                Ok(x) => Ok(HasSemantics::Qualifier(x)),
                Err(e) => Err(e),
            }
        } else if same_text(tag.as_str(), "Extension") {
            match Extension::decode_members(fields) {
                Ok(x) => Ok(HasSemantics::Extension(x)),
                Err(e) => Err(e),
            }
        } else if same_text(tag.as_str(), "SubmodelElementCollection") {
            match SubmodelElementCollection::decode_members(fields) {
                Ok(x) => Ok(HasSemantics::SubmodelElementCollection(x)),
                Err(e) => Err(e),
            }
        } else if same_text(tag.as_str(), "RelationshipElement") {
            match RelationshipElement::decode_members(fields) {
                Ok(x) => Ok(HasSemantics::RelationshipElement(x)),
                Err(e) => Err(e),
            }
        } else if same_text(tag.as_str(), "ReferenceElement") {
            match ReferenceElement::decode_members(fields) {
                Ok(x) => Ok(HasSemantics::ReferenceElement(x)),
                Err(e) => Err(e),
            }
        } else if same_text(tag.as_str(), "Property") {
            match Property::decode_members(fields) {
                Ok(x) => Ok(HasSemantics::Property(x)),
                Err(e) => Err(e),
            }
        } else if same_text(tag.as_str(), "MultiLanguageProperty") {
            match MultiLanguageProperty::decode_members(fields) {
                Ok(x) => Ok(HasSemantics::MultiLanguageProperty(x)),
                Err(e) => Err(e),
            }
        } else if same_text(tag.as_str(), "AnnotatedRelationshipElement") {
            match AnnotatedRelationshipElement::decode_members(fields) {
                Ok(x) => Ok(HasSemantics::AnnotatedRelationshipElement(x)),
                Err(e) => Err(e),
            }
        } else if same_text(tag.as_str(), "Entity") {
            match Entity::decode_members(fields) {
                Ok(x) => Ok(HasSemantics::Entity(x)),
                Err(e) => Err(e),
            }
        } else if same_text(tag.as_str(), "Operation") {
            match Operation::decode_members(fields) {
                Ok(x) => Ok(HasSemantics::Operation(x)),
                Err(e) => Err(e),
            }
        } else if same_text(tag.as_str(), "Range") {
            match Range::decode_members(fields) {
                Ok(x) => Ok(HasSemantics::Range(x)),
                Err(e) => Err(e),
            }
        } else if same_text(tag.as_str(), "Blob") {
            match Blob::decode_members(fields) {
                Ok(x) => Ok(HasSemantics::Blob(x)),
                Err(e) => Err(e),
            }
        } else if same_text(tag.as_str(), "File") {
            match File::decode_members(fields) {
                Ok(x) => Ok(HasSemantics::File(x)),
                Err(e) => Err(e),
            }
        } else if same_text(tag.as_str(), "SubmodelElementList") {
            match SubmodelElementList::decode_members(fields) {
                Ok(x) => Ok(HasSemantics::SubmodelElementList(x)),
                Err(e) => Err(e),
            }
        } else if same_text(tag.as_str(), "SpecificAssetId") {
            match SpecificAssetId::decode_members(fields) {
                Ok(x) => Ok(HasSemantics::SpecificAssetId(x)),
                Err(e) => Err(e),
            }
        } else if same_text(tag.as_str(), "Capability") {
            match Capability::decode_members(fields) {
                Ok(x) => Ok(HasSemantics::Capability(x)),
                Err(e) => Err(e),
            }
        } else if same_text(tag.as_str(), "BasicEventElement") {
            match BasicEventElement::decode_members(fields) {
                Ok(x) => Ok(HasSemantics::BasicEventElement(x)),
                Err(e) => Err(e),
            }
        } else {
            Err(DecodeError::at(DecodeFault::UnknownDiscriminant, "modelType"))
        }
    }
}

} // verus!
