use vstd::prelude::*;
use crate::enumerations::aas_submodel_elements::AasSubmodelElements;
use crate::enumerations::data_type_def_xsd::DataTypeDefXsd;
use crate::error::ModelError;
use crate::names::lemma_name_codes;
use crate::structs::annotated_relationship_element::{
    AnnotatedRelationshipElement,
    AnnotatedRelationshipElementView,
};
use crate::structs::basic_event_element::{BasicEventElement, BasicEventElementView};
use crate::structs::blob::{Blob, BlobView};
use crate::structs::capability::{Capability, CapabilityView};
use crate::structs::entity::{Entity, EntityView};
use crate::structs::file::{File, FileView};
use crate::structs::multi_language_name_type::MultiLanguageNameType;
use crate::structs::multi_language_property::{MultiLanguageProperty, MultiLanguagePropertyView};
use crate::structs::multi_language_text_type::MultiLanguageTextType;
use crate::structs::operation::{Operation, OperationView};
use crate::structs::property::{Property, PropertyView};
use crate::structs::qualifier::{Qualifier, QualifierView};
use crate::structs::range::{Range, RangeView};
use crate::structs::reference::{Reference, ReferenceView};
use crate::structs::reference_element::{ReferenceElement, ReferenceElementView};
use crate::structs::relationship_element::{RelationshipElement, RelationshipElementView};
use crate::structs::submodel_element_collection::{
    SubmodelElementCollection,
    SubmodelElementCollectionView,
};
use crate::structs::submodel_element_list::{SubmodelElementList, SubmodelElementListView};
use crate::traits::has_data_specification::THasDataSpecification;
use crate::traits::has_semantics::{SemanticsAspect, THasSemantics};
use crate::traits::qualifiable::TQualifiable;
use crate::traits::referable::{ReferableAspect, TReferable};
use crate::traits::submodel_element::TSubmodelElement;
use crate::validation::{all_distinct, distinct, present_texts};
use crate::wire::{
    add_member,
    fail,
    fail_at,
    find,
    lemma_lookup_push,
    lookup,
    member,
    outcome,
    same_text,
    tagged,
    DecodeError,
    DecodeErrorView,
    DecodeFault,
    Field,
    FieldView,
    PathStepView,
    Wire,
    WireView,
};

verus! {

/// Any of the submodel elements.
#[derive(Debug, PartialEq)]
pub enum SubmodelElement {
    RelationshipElement(RelationshipElement),
    AnnotatedRelationshipElement(AnnotatedRelationshipElement),
    Property(Property),
    MultiLanguageProperty(MultiLanguageProperty),
    Range(Range),
    Blob(Blob),
    File(File),
    ReferenceElement(ReferenceElement),
    Capability(Capability),
    SubmodelElementList(SubmodelElementList),
    SubmodelElementCollection(SubmodelElementCollection),
    Entity(Entity),
    BasicEventElement(BasicEventElement),
    Operation(Operation),
}

/// The mathematical form of a [`SubmodelElement`].
#[verifier::ext_equal]
pub enum SubmodelElementView {
    RelationshipElement(RelationshipElementView),
    AnnotatedRelationshipElement(AnnotatedRelationshipElementView),
    Property(PropertyView),
    MultiLanguageProperty(MultiLanguagePropertyView),
    Range(RangeView),
    Blob(BlobView),
    File(FileView),
    ReferenceElement(ReferenceElementView),
    Capability(CapabilityView),
    SubmodelElementList(SubmodelElementListView),
    SubmodelElementCollection(SubmodelElementCollectionView),
    Entity(EntityView),
    BasicEventElement(BasicEventElementView),
    Operation(OperationView),
}

impl SubmodelElement {
    /// The mathematical form of the value.
    pub open spec fn model(&self) -> SubmodelElementView
        decreases self,
    {
        match self {
            SubmodelElement::RelationshipElement(x) => SubmodelElementView::RelationshipElement(x@),
            SubmodelElement::AnnotatedRelationshipElement(x) =>
                SubmodelElementView::AnnotatedRelationshipElement(x@),
            SubmodelElement::Property(x) => SubmodelElementView::Property(x@),
            SubmodelElement::MultiLanguageProperty(x) =>
                SubmodelElementView::MultiLanguageProperty(x@),
            SubmodelElement::Range(x) => SubmodelElementView::Range(x@),
            SubmodelElement::Blob(x) => SubmodelElementView::Blob(x@),
            SubmodelElement::File(x) => SubmodelElementView::File(x@),
            SubmodelElement::ReferenceElement(x) => SubmodelElementView::ReferenceElement(x@),
            SubmodelElement::Capability(x) => SubmodelElementView::Capability(x@),
            SubmodelElement::SubmodelElementList(x) =>
                SubmodelElementView::SubmodelElementList(x.model()),
            SubmodelElement::SubmodelElementCollection(x) =>
                SubmodelElementView::SubmodelElementCollection(x.model()),
            SubmodelElement::Entity(x) => SubmodelElementView::Entity(x.model()),
            SubmodelElement::BasicEventElement(x) =>
                SubmodelElementView::BasicEventElement(x.model()),
            SubmodelElement::Operation(x) => SubmodelElementView::Operation(x.model()),
        }
    }
}

impl View for SubmodelElement {
    type V = SubmodelElementView;

    open spec fn view(&self) -> SubmodelElementView {
        self.model()
    }
}

impl DeepView for SubmodelElement {
    type V = SubmodelElementView;

    open spec fn deep_view(&self) -> SubmodelElementView {
        self@
    }
}

impl Clone for SubmodelElement {
    fn clone(&self) -> (r: SubmodelElement)
        ensures
            r@ == self@,
        decreases self,
    {
        match self {
            SubmodelElement::RelationshipElement(x) =>
                SubmodelElement::RelationshipElement(x.clone()),
            SubmodelElement::AnnotatedRelationshipElement(x) =>
                SubmodelElement::AnnotatedRelationshipElement(x.clone()),
            SubmodelElement::Property(x) => SubmodelElement::Property(x.clone()),
            SubmodelElement::MultiLanguageProperty(x) =>
                SubmodelElement::MultiLanguageProperty(x.clone()),
            SubmodelElement::Range(x) => SubmodelElement::Range(x.clone()),
            SubmodelElement::Blob(x) => SubmodelElement::Blob(x.clone()),
            SubmodelElement::File(x) => SubmodelElement::File(x.clone()),
            SubmodelElement::ReferenceElement(x) => SubmodelElement::ReferenceElement(x.clone()),
            SubmodelElement::Capability(x) => SubmodelElement::Capability(x.clone()),
            SubmodelElement::SubmodelElementList(x) =>
                SubmodelElement::SubmodelElementList(x.clone()),
            SubmodelElement::SubmodelElementCollection(x) =>
                SubmodelElement::SubmodelElementCollection(x.clone()),
            SubmodelElement::Entity(x) => SubmodelElement::Entity(x.clone()),
            SubmodelElement::BasicEventElement(x) => SubmodelElement::BasicEventElement(x.clone()),
            SubmodelElement::Operation(x) => SubmodelElement::Operation(x.clone()),
        }
    }
}

impl TReferable for SubmodelElement {
    open spec fn referable(&self) -> ReferableAspect {
        match self {
            SubmodelElement::RelationshipElement(x) => x.referable(),
            SubmodelElement::AnnotatedRelationshipElement(x) => x.referable(),
            SubmodelElement::Property(x) => x.referable(),
            SubmodelElement::MultiLanguageProperty(x) => x.referable(),
            SubmodelElement::Range(x) => x.referable(),
            SubmodelElement::Blob(x) => x.referable(),
            SubmodelElement::File(x) => x.referable(),
            SubmodelElement::ReferenceElement(x) => x.referable(),
            SubmodelElement::Capability(x) => x.referable(),
            SubmodelElement::SubmodelElementList(x) => x.referable(),
            SubmodelElement::SubmodelElementCollection(x) => x.referable(),
            SubmodelElement::Entity(x) => x.referable(),
            SubmodelElement::BasicEventElement(x) => x.referable(),
            SubmodelElement::Operation(x) => x.referable(),
        }
    }

    fn set_category(&mut self, category: String)
        ensures
            final(self)@ ==
                old(self)@.with_referable(ReferableAspect { category: Some(category@),
                ..old(self).referable() }),
    {
        match self {
            SubmodelElement::RelationshipElement(x) => x.set_category(category),
            SubmodelElement::AnnotatedRelationshipElement(x) => x.set_category(category),
            SubmodelElement::Property(x) => x.set_category(category),
            SubmodelElement::MultiLanguageProperty(x) => x.set_category(category),
            SubmodelElement::Range(x) => x.set_category(category),
            SubmodelElement::Blob(x) => x.set_category(category),
            SubmodelElement::File(x) => x.set_category(category),
            SubmodelElement::ReferenceElement(x) => x.set_category(category),
            SubmodelElement::Capability(x) => x.set_category(category),
            SubmodelElement::SubmodelElementList(x) => x.set_category(category),
            SubmodelElement::SubmodelElementCollection(x) => x.set_category(category),
            SubmodelElement::Entity(x) => x.set_category(category),
            SubmodelElement::BasicEventElement(x) => x.set_category(category),
            SubmodelElement::Operation(x) => x.set_category(category),
        }
    }

    fn get_category(&self) -> (r: Option<&String>) {
        match self {
            SubmodelElement::RelationshipElement(x) => x.get_category(),
            SubmodelElement::AnnotatedRelationshipElement(x) => x.get_category(),
            SubmodelElement::Property(x) => x.get_category(),
            SubmodelElement::MultiLanguageProperty(x) => x.get_category(),
            SubmodelElement::Range(x) => x.get_category(),
            SubmodelElement::Blob(x) => x.get_category(),
            SubmodelElement::File(x) => x.get_category(),
            SubmodelElement::ReferenceElement(x) => x.get_category(),
            SubmodelElement::Capability(x) => x.get_category(),
            SubmodelElement::SubmodelElementList(x) => x.get_category(),
            SubmodelElement::SubmodelElementCollection(x) => x.get_category(),
            SubmodelElement::Entity(x) => x.get_category(),
            SubmodelElement::BasicEventElement(x) => x.get_category(),
            SubmodelElement::Operation(x) => x.get_category(),
        }
    }

    fn get_mut_category(&mut self) -> (r: Option<&mut String>)
        ensures
            match r {
                Some(m) =>
                    final(self)@ ==
                    old(self)@.with_referable(ReferableAspect { category: Some(final(m)@),
                    ..old(self).referable() }),
                None => final(self)@ == old(self)@,
            },
    {
        match self {
            SubmodelElement::RelationshipElement(x) => x.get_mut_category(),
            SubmodelElement::AnnotatedRelationshipElement(x) => x.get_mut_category(),
            SubmodelElement::Property(x) => x.get_mut_category(),
            SubmodelElement::MultiLanguageProperty(x) => x.get_mut_category(),
            SubmodelElement::Range(x) => x.get_mut_category(),
            SubmodelElement::Blob(x) => x.get_mut_category(),
            SubmodelElement::File(x) => x.get_mut_category(),
            SubmodelElement::ReferenceElement(x) => x.get_mut_category(),
            SubmodelElement::Capability(x) => x.get_mut_category(),
            SubmodelElement::SubmodelElementList(x) => x.get_mut_category(),
            SubmodelElement::SubmodelElementCollection(x) => x.get_mut_category(),
            SubmodelElement::Entity(x) => x.get_mut_category(),
            SubmodelElement::BasicEventElement(x) => x.get_mut_category(),
            SubmodelElement::Operation(x) => x.get_mut_category(),
        }
    }

    fn set_id_short(&mut self, id_short: String)
        ensures
            final(self)@ ==
                old(self)@.with_referable(ReferableAspect { id_short: Some(id_short@),
                ..old(self).referable() }),
    {
        match self {
            SubmodelElement::RelationshipElement(x) => x.set_id_short(id_short),
            SubmodelElement::AnnotatedRelationshipElement(x) => x.set_id_short(id_short),
            SubmodelElement::Property(x) => x.set_id_short(id_short),
            SubmodelElement::MultiLanguageProperty(x) => x.set_id_short(id_short),
            SubmodelElement::Range(x) => x.set_id_short(id_short),
            SubmodelElement::Blob(x) => x.set_id_short(id_short),
            SubmodelElement::File(x) => x.set_id_short(id_short),
            SubmodelElement::ReferenceElement(x) => x.set_id_short(id_short),
            SubmodelElement::Capability(x) => x.set_id_short(id_short),
            SubmodelElement::SubmodelElementList(x) => x.set_id_short(id_short),
            SubmodelElement::SubmodelElementCollection(x) => x.set_id_short(id_short),
            SubmodelElement::Entity(x) => x.set_id_short(id_short),
            SubmodelElement::BasicEventElement(x) => x.set_id_short(id_short),
            SubmodelElement::Operation(x) => x.set_id_short(id_short),
        }
    }

    fn get_id_short(&self) -> (r: Option<&String>) {
        match self {
            SubmodelElement::RelationshipElement(x) => x.get_id_short(),
            SubmodelElement::AnnotatedRelationshipElement(x) => x.get_id_short(),
            SubmodelElement::Property(x) => x.get_id_short(),
            SubmodelElement::MultiLanguageProperty(x) => x.get_id_short(),
            SubmodelElement::Range(x) => x.get_id_short(),
            SubmodelElement::Blob(x) => x.get_id_short(),
            SubmodelElement::File(x) => x.get_id_short(),
            SubmodelElement::ReferenceElement(x) => x.get_id_short(),
            SubmodelElement::Capability(x) => x.get_id_short(),
            SubmodelElement::SubmodelElementList(x) => x.get_id_short(),
            SubmodelElement::SubmodelElementCollection(x) => x.get_id_short(),
            SubmodelElement::Entity(x) => x.get_id_short(),
            SubmodelElement::BasicEventElement(x) => x.get_id_short(),
            SubmodelElement::Operation(x) => x.get_id_short(),
        }
    }

    fn get_mut_id_short(&mut self) -> (r: Option<&mut String>)
        ensures
            match r {
                Some(m) =>
                    final(self)@ ==
                    old(self)@.with_referable(ReferableAspect { id_short: Some(final(m)@),
                    ..old(self).referable() }),
                None => final(self)@ == old(self)@,
            },
    {
        match self {
            SubmodelElement::RelationshipElement(x) => x.get_mut_id_short(),
            SubmodelElement::AnnotatedRelationshipElement(x) => x.get_mut_id_short(),
            SubmodelElement::Property(x) => x.get_mut_id_short(),
            SubmodelElement::MultiLanguageProperty(x) => x.get_mut_id_short(),
            SubmodelElement::Range(x) => x.get_mut_id_short(),
            SubmodelElement::Blob(x) => x.get_mut_id_short(),
            SubmodelElement::File(x) => x.get_mut_id_short(),
            SubmodelElement::ReferenceElement(x) => x.get_mut_id_short(),
            SubmodelElement::Capability(x) => x.get_mut_id_short(),
            SubmodelElement::SubmodelElementList(x) => x.get_mut_id_short(),
            SubmodelElement::SubmodelElementCollection(x) => x.get_mut_id_short(),
            SubmodelElement::Entity(x) => x.get_mut_id_short(),
            SubmodelElement::BasicEventElement(x) => x.get_mut_id_short(),
            SubmodelElement::Operation(x) => x.get_mut_id_short(),
        }
    }

    fn set_display_name(&mut self, display_name: Vec<MultiLanguageNameType>)
        ensures
            final(self)@ ==
                old(self)@.with_referable(ReferableAspect { display_name: display_name.deep_view(),
                ..old(self).referable() }),
    {
        match self {
            SubmodelElement::RelationshipElement(x) => x.set_display_name(display_name),
            SubmodelElement::AnnotatedRelationshipElement(x) => x.set_display_name(display_name),
            SubmodelElement::Property(x) => x.set_display_name(display_name),
            SubmodelElement::MultiLanguageProperty(x) => x.set_display_name(display_name),
            SubmodelElement::Range(x) => x.set_display_name(display_name),
            SubmodelElement::Blob(x) => x.set_display_name(display_name),
            SubmodelElement::File(x) => x.set_display_name(display_name),
            SubmodelElement::ReferenceElement(x) => x.set_display_name(display_name),
            SubmodelElement::Capability(x) => x.set_display_name(display_name),
            SubmodelElement::SubmodelElementList(x) => x.set_display_name(display_name),
            SubmodelElement::SubmodelElementCollection(x) => x.set_display_name(display_name),
            SubmodelElement::Entity(x) => x.set_display_name(display_name),
            SubmodelElement::BasicEventElement(x) => x.set_display_name(display_name),
            SubmodelElement::Operation(x) => x.set_display_name(display_name),
        }
    }

    fn get_display_name(&self) -> (r: &Vec<MultiLanguageNameType>) {
        match self {
            SubmodelElement::RelationshipElement(x) => x.get_display_name(),
            SubmodelElement::AnnotatedRelationshipElement(x) => x.get_display_name(),
            SubmodelElement::Property(x) => x.get_display_name(),
            SubmodelElement::MultiLanguageProperty(x) => x.get_display_name(),
            SubmodelElement::Range(x) => x.get_display_name(),
            SubmodelElement::Blob(x) => x.get_display_name(),
            SubmodelElement::File(x) => x.get_display_name(),
            SubmodelElement::ReferenceElement(x) => x.get_display_name(),
            SubmodelElement::Capability(x) => x.get_display_name(),
            SubmodelElement::SubmodelElementList(x) => x.get_display_name(),
            SubmodelElement::SubmodelElementCollection(x) => x.get_display_name(),
            SubmodelElement::Entity(x) => x.get_display_name(),
            SubmodelElement::BasicEventElement(x) => x.get_display_name(),
            SubmodelElement::Operation(x) => x.get_display_name(),
        }
    }

    fn get_mut_display_name(&mut self) -> (r: &mut Vec<MultiLanguageNameType>)
        ensures
            final(self)@ ==
                old(self)@.with_referable(ReferableAspect { display_name: final(r).deep_view(),
                ..old(self).referable() }),
    {
        match self {
            SubmodelElement::RelationshipElement(x) => x.get_mut_display_name(),
            SubmodelElement::AnnotatedRelationshipElement(x) => x.get_mut_display_name(),
            SubmodelElement::Property(x) => x.get_mut_display_name(),
            SubmodelElement::MultiLanguageProperty(x) => x.get_mut_display_name(),
            SubmodelElement::Range(x) => x.get_mut_display_name(),
            SubmodelElement::Blob(x) => x.get_mut_display_name(),
            SubmodelElement::File(x) => x.get_mut_display_name(),
            SubmodelElement::ReferenceElement(x) => x.get_mut_display_name(),
            SubmodelElement::Capability(x) => x.get_mut_display_name(),
            SubmodelElement::SubmodelElementList(x) => x.get_mut_display_name(),
            SubmodelElement::SubmodelElementCollection(x) => x.get_mut_display_name(),
            SubmodelElement::Entity(x) => x.get_mut_display_name(),
            SubmodelElement::BasicEventElement(x) => x.get_mut_display_name(),
            SubmodelElement::Operation(x) => x.get_mut_display_name(),
        }
    }

    fn add_display_name(&mut self, display_name: MultiLanguageNameType)
        ensures
            final(self)@ ==
                old(self)@.with_referable(ReferableAspect {
                display_name: old(self).referable().display_name.push(display_name@),
                ..old(self).referable() }),
    {
        match self {
            SubmodelElement::RelationshipElement(x) => x.add_display_name(display_name),
            SubmodelElement::AnnotatedRelationshipElement(x) => x.add_display_name(display_name),
            SubmodelElement::Property(x) => x.add_display_name(display_name),
            SubmodelElement::MultiLanguageProperty(x) => x.add_display_name(display_name),
            SubmodelElement::Range(x) => x.add_display_name(display_name),
            SubmodelElement::Blob(x) => x.add_display_name(display_name),
            SubmodelElement::File(x) => x.add_display_name(display_name),
            SubmodelElement::ReferenceElement(x) => x.add_display_name(display_name),
            SubmodelElement::Capability(x) => x.add_display_name(display_name),
            SubmodelElement::SubmodelElementList(x) => x.add_display_name(display_name),
            SubmodelElement::SubmodelElementCollection(x) => x.add_display_name(display_name),
            SubmodelElement::Entity(x) => x.add_display_name(display_name),
            SubmodelElement::BasicEventElement(x) => x.add_display_name(display_name),
            SubmodelElement::Operation(x) => x.add_display_name(display_name),
        }
    }

    fn remove_display_name(&mut self, index: usize) -> (r: Result<MultiLanguageNameType,
        ModelError>)
        ensures
            match r {
                Ok(item) =>
                    final(self)@ ==
                    old(self)@.with_referable(ReferableAspect {
                    display_name: old(self).referable().display_name.remove(index as int),
                    ..old(self).referable() }),
                Err(e) => final(self)@ == old(self)@,
            },
    {
        match self {
            SubmodelElement::RelationshipElement(x) => x.remove_display_name(index),
            SubmodelElement::AnnotatedRelationshipElement(x) => x.remove_display_name(index),
            SubmodelElement::Property(x) => x.remove_display_name(index),
            SubmodelElement::MultiLanguageProperty(x) => x.remove_display_name(index),
            SubmodelElement::Range(x) => x.remove_display_name(index),
            SubmodelElement::Blob(x) => x.remove_display_name(index),
            SubmodelElement::File(x) => x.remove_display_name(index),
            SubmodelElement::ReferenceElement(x) => x.remove_display_name(index),
            SubmodelElement::Capability(x) => x.remove_display_name(index),
            SubmodelElement::SubmodelElementList(x) => x.remove_display_name(index),
            SubmodelElement::SubmodelElementCollection(x) => x.remove_display_name(index),
            SubmodelElement::Entity(x) => x.remove_display_name(index),
            SubmodelElement::BasicEventElement(x) => x.remove_display_name(index),
            SubmodelElement::Operation(x) => x.remove_display_name(index),
        }
    }

    fn set_description(&mut self, description: Vec<MultiLanguageTextType>)
        ensures
            final(self)@ ==
                old(self)@.with_referable(ReferableAspect { description: description.deep_view(),
                ..old(self).referable() }),
    {
        match self {
            SubmodelElement::RelationshipElement(x) => x.set_description(description),
            SubmodelElement::AnnotatedRelationshipElement(x) => x.set_description(description),
            SubmodelElement::Property(x) => x.set_description(description),
            SubmodelElement::MultiLanguageProperty(x) => x.set_description(description),
            SubmodelElement::Range(x) => x.set_description(description),
            SubmodelElement::Blob(x) => x.set_description(description),
            SubmodelElement::File(x) => x.set_description(description),
            SubmodelElement::ReferenceElement(x) => x.set_description(description),
            SubmodelElement::Capability(x) => x.set_description(description),
            SubmodelElement::SubmodelElementList(x) => x.set_description(description),
            SubmodelElement::SubmodelElementCollection(x) => x.set_description(description),
            SubmodelElement::Entity(x) => x.set_description(description),
            SubmodelElement::BasicEventElement(x) => x.set_description(description),
            SubmodelElement::Operation(x) => x.set_description(description),
        }
    }

    fn get_description(&self) -> (r: &Vec<MultiLanguageTextType>) {
        match self {
            SubmodelElement::RelationshipElement(x) => x.get_description(),
            SubmodelElement::AnnotatedRelationshipElement(x) => x.get_description(),
            SubmodelElement::Property(x) => x.get_description(),
            SubmodelElement::MultiLanguageProperty(x) => x.get_description(),
            SubmodelElement::Range(x) => x.get_description(),
            SubmodelElement::Blob(x) => x.get_description(),
            SubmodelElement::File(x) => x.get_description(),
            SubmodelElement::ReferenceElement(x) => x.get_description(),
            SubmodelElement::Capability(x) => x.get_description(),
            SubmodelElement::SubmodelElementList(x) => x.get_description(),
            SubmodelElement::SubmodelElementCollection(x) => x.get_description(),
            SubmodelElement::Entity(x) => x.get_description(),
            SubmodelElement::BasicEventElement(x) => x.get_description(),
            SubmodelElement::Operation(x) => x.get_description(),
        }
    }

    fn get_mut_description(&mut self) -> (r: &mut Vec<MultiLanguageTextType>)
        ensures
            final(self)@ ==
                old(self)@.with_referable(ReferableAspect { description: final(r).deep_view(),
                ..old(self).referable() }),
    {
        match self {
            SubmodelElement::RelationshipElement(x) => x.get_mut_description(),
            SubmodelElement::AnnotatedRelationshipElement(x) => x.get_mut_description(),
            SubmodelElement::Property(x) => x.get_mut_description(),
            SubmodelElement::MultiLanguageProperty(x) => x.get_mut_description(),
            SubmodelElement::Range(x) => x.get_mut_description(),
            SubmodelElement::Blob(x) => x.get_mut_description(),
            SubmodelElement::File(x) => x.get_mut_description(),
            SubmodelElement::ReferenceElement(x) => x.get_mut_description(),
            SubmodelElement::Capability(x) => x.get_mut_description(),
            SubmodelElement::SubmodelElementList(x) => x.get_mut_description(),
            SubmodelElement::SubmodelElementCollection(x) => x.get_mut_description(),
            SubmodelElement::Entity(x) => x.get_mut_description(),
            SubmodelElement::BasicEventElement(x) => x.get_mut_description(),
            SubmodelElement::Operation(x) => x.get_mut_description(),
        }
    }

    fn add_description(&mut self, description: MultiLanguageTextType)
        ensures
            final(self)@ ==
                old(self)@.with_referable(ReferableAspect {
                description: old(self).referable().description.push(description@),
                ..old(self).referable() }),
    {
        match self {
            SubmodelElement::RelationshipElement(x) => x.add_description(description),
            SubmodelElement::AnnotatedRelationshipElement(x) => x.add_description(description),
            SubmodelElement::Property(x) => x.add_description(description),
            SubmodelElement::MultiLanguageProperty(x) => x.add_description(description),
            SubmodelElement::Range(x) => x.add_description(description),
            SubmodelElement::Blob(x) => x.add_description(description),
            SubmodelElement::File(x) => x.add_description(description),
            SubmodelElement::ReferenceElement(x) => x.add_description(description),
            SubmodelElement::Capability(x) => x.add_description(description),
            SubmodelElement::SubmodelElementList(x) => x.add_description(description),
            SubmodelElement::SubmodelElementCollection(x) => x.add_description(description),
            SubmodelElement::Entity(x) => x.add_description(description),
            SubmodelElement::BasicEventElement(x) => x.add_description(description),
            SubmodelElement::Operation(x) => x.add_description(description),
        }
    }

    fn remove_description(&mut self, index: usize) -> (r: Result<MultiLanguageTextType, ModelError>)
        ensures
            match r {
                Ok(item) =>
                    final(self)@ ==
                    old(self)@.with_referable(ReferableAspect {
                    description: old(self).referable().description.remove(index as int),
                    ..old(self).referable() }),
                Err(e) => final(self)@ == old(self)@,
            },
    {
        match self {
            SubmodelElement::RelationshipElement(x) => x.remove_description(index),
            SubmodelElement::AnnotatedRelationshipElement(x) => x.remove_description(index),
            SubmodelElement::Property(x) => x.remove_description(index),
            SubmodelElement::MultiLanguageProperty(x) => x.remove_description(index),
            SubmodelElement::Range(x) => x.remove_description(index),
            SubmodelElement::Blob(x) => x.remove_description(index),
            SubmodelElement::File(x) => x.remove_description(index),
            SubmodelElement::ReferenceElement(x) => x.remove_description(index),
            SubmodelElement::Capability(x) => x.remove_description(index),
            SubmodelElement::SubmodelElementList(x) => x.remove_description(index),
            SubmodelElement::SubmodelElementCollection(x) => x.remove_description(index),
            SubmodelElement::Entity(x) => x.remove_description(index),
            SubmodelElement::BasicEventElement(x) => x.remove_description(index),
            SubmodelElement::Operation(x) => x.remove_description(index),
        }
    }
}

impl THasSemantics for SubmodelElement {
    open spec fn semantics(&self) -> SemanticsAspect {
        match self {
            SubmodelElement::RelationshipElement(x) => x.semantics(),
            SubmodelElement::AnnotatedRelationshipElement(x) => x.semantics(),
            SubmodelElement::Property(x) => x.semantics(),
            SubmodelElement::MultiLanguageProperty(x) => x.semantics(),
            SubmodelElement::Range(x) => x.semantics(),
            SubmodelElement::Blob(x) => x.semantics(),
            SubmodelElement::File(x) => x.semantics(),
            SubmodelElement::ReferenceElement(x) => x.semantics(),
            SubmodelElement::Capability(x) => x.semantics(),
            SubmodelElement::SubmodelElementList(x) => x.semantics(),
            SubmodelElement::SubmodelElementCollection(x) => x.semantics(),
            SubmodelElement::Entity(x) => x.semantics(),
            SubmodelElement::BasicEventElement(x) => x.semantics(),
            SubmodelElement::Operation(x) => x.semantics(),
        }
    }

    fn set_semantic_id(&mut self, semantic_id: Reference)
        ensures
            final(self)@ ==
                old(self)@.with_semantics(SemanticsAspect { semantic_id: Some(semantic_id@),
                ..old(self).semantics() }),
    {
        match self {
            SubmodelElement::RelationshipElement(x) => x.set_semantic_id(semantic_id),
            SubmodelElement::AnnotatedRelationshipElement(x) => x.set_semantic_id(semantic_id),
            SubmodelElement::Property(x) => x.set_semantic_id(semantic_id),
            SubmodelElement::MultiLanguageProperty(x) => x.set_semantic_id(semantic_id),
            SubmodelElement::Range(x) => x.set_semantic_id(semantic_id),
            SubmodelElement::Blob(x) => x.set_semantic_id(semantic_id),
            SubmodelElement::File(x) => x.set_semantic_id(semantic_id),
            SubmodelElement::ReferenceElement(x) => x.set_semantic_id(semantic_id),
            SubmodelElement::Capability(x) => x.set_semantic_id(semantic_id),
            SubmodelElement::SubmodelElementList(x) => x.set_semantic_id(semantic_id),
            SubmodelElement::SubmodelElementCollection(x) => x.set_semantic_id(semantic_id),
            SubmodelElement::Entity(x) => x.set_semantic_id(semantic_id),
            SubmodelElement::BasicEventElement(x) => x.set_semantic_id(semantic_id),
            SubmodelElement::Operation(x) => x.set_semantic_id(semantic_id),
        }
    }

    fn get_semantic_id(&self) -> (r: Option<&Reference>) {
        match self {
            SubmodelElement::RelationshipElement(x) => x.get_semantic_id(),
            SubmodelElement::AnnotatedRelationshipElement(x) => x.get_semantic_id(),
            SubmodelElement::Property(x) => x.get_semantic_id(),
            SubmodelElement::MultiLanguageProperty(x) => x.get_semantic_id(),
            SubmodelElement::Range(x) => x.get_semantic_id(),
            SubmodelElement::Blob(x) => x.get_semantic_id(),
            SubmodelElement::File(x) => x.get_semantic_id(),
            SubmodelElement::ReferenceElement(x) => x.get_semantic_id(),
            SubmodelElement::Capability(x) => x.get_semantic_id(),
            SubmodelElement::SubmodelElementList(x) => x.get_semantic_id(),
            SubmodelElement::SubmodelElementCollection(x) => x.get_semantic_id(),
            SubmodelElement::Entity(x) => x.get_semantic_id(),
            SubmodelElement::BasicEventElement(x) => x.get_semantic_id(),
            SubmodelElement::Operation(x) => x.get_semantic_id(),
        }
    }

    fn get_mut_semantic_id(&mut self) -> (r: Option<&mut Reference>)
        ensures
            match r {
                Some(m) =>
                    final(self)@ ==
                    old(self)@.with_semantics(SemanticsAspect { semantic_id: Some(final(m)@),
                    ..old(self).semantics() }),
                None => final(self)@ == old(self)@,
            },
    {
        match self {
            SubmodelElement::RelationshipElement(x) => x.get_mut_semantic_id(),
            SubmodelElement::AnnotatedRelationshipElement(x) => x.get_mut_semantic_id(),
            SubmodelElement::Property(x) => x.get_mut_semantic_id(),
            SubmodelElement::MultiLanguageProperty(x) => x.get_mut_semantic_id(),
            SubmodelElement::Range(x) => x.get_mut_semantic_id(),
            SubmodelElement::Blob(x) => x.get_mut_semantic_id(),
            SubmodelElement::File(x) => x.get_mut_semantic_id(),
            SubmodelElement::ReferenceElement(x) => x.get_mut_semantic_id(),
            SubmodelElement::Capability(x) => x.get_mut_semantic_id(),
            SubmodelElement::SubmodelElementList(x) => x.get_mut_semantic_id(),
            SubmodelElement::SubmodelElementCollection(x) => x.get_mut_semantic_id(),
            SubmodelElement::Entity(x) => x.get_mut_semantic_id(),
            SubmodelElement::BasicEventElement(x) => x.get_mut_semantic_id(),
            SubmodelElement::Operation(x) => x.get_mut_semantic_id(),
        }
    }

    fn set_supplemental_semantic_ids(&mut self, supplemental_semantic_ids: Vec<Reference>)
        ensures
            final(self)@ ==
                old(self)@.with_semantics(SemanticsAspect {
                supplemental_semantic_ids: supplemental_semantic_ids.deep_view(),
                ..old(self).semantics() }),
    {
        match self {
            SubmodelElement::RelationshipElement(x) =>
                x.set_supplemental_semantic_ids(supplemental_semantic_ids),
            SubmodelElement::AnnotatedRelationshipElement(x) =>
                x.set_supplemental_semantic_ids(supplemental_semantic_ids),
            SubmodelElement::Property(x) =>
                x.set_supplemental_semantic_ids(supplemental_semantic_ids),
            SubmodelElement::MultiLanguageProperty(x) =>
                x.set_supplemental_semantic_ids(supplemental_semantic_ids),
            SubmodelElement::Range(x) => x.set_supplemental_semantic_ids(supplemental_semantic_ids),
            SubmodelElement::Blob(x) => x.set_supplemental_semantic_ids(supplemental_semantic_ids),
            SubmodelElement::File(x) => x.set_supplemental_semantic_ids(supplemental_semantic_ids),
            SubmodelElement::ReferenceElement(x) =>
                x.set_supplemental_semantic_ids(supplemental_semantic_ids),
            SubmodelElement::Capability(x) =>
                x.set_supplemental_semantic_ids(supplemental_semantic_ids),
            SubmodelElement::SubmodelElementList(x) =>
                x.set_supplemental_semantic_ids(supplemental_semantic_ids),
            SubmodelElement::SubmodelElementCollection(x) =>
                x.set_supplemental_semantic_ids(supplemental_semantic_ids),
            SubmodelElement::Entity(x) =>
                x.set_supplemental_semantic_ids(supplemental_semantic_ids),
            SubmodelElement::BasicEventElement(x) =>
                x.set_supplemental_semantic_ids(supplemental_semantic_ids),
            SubmodelElement::Operation(x) =>
                x.set_supplemental_semantic_ids(supplemental_semantic_ids),
        }
    }

    fn get_supplemental_semantic_ids(&self) -> (r: &Vec<Reference>) {
        match self {
            SubmodelElement::RelationshipElement(x) => x.get_supplemental_semantic_ids(),
            SubmodelElement::AnnotatedRelationshipElement(x) => x.get_supplemental_semantic_ids(),
            SubmodelElement::Property(x) => x.get_supplemental_semantic_ids(),
            SubmodelElement::MultiLanguageProperty(x) => x.get_supplemental_semantic_ids(),
            SubmodelElement::Range(x) => x.get_supplemental_semantic_ids(),
            SubmodelElement::Blob(x) => x.get_supplemental_semantic_ids(),
            SubmodelElement::File(x) => x.get_supplemental_semantic_ids(),
            SubmodelElement::ReferenceElement(x) => x.get_supplemental_semantic_ids(),
            SubmodelElement::Capability(x) => x.get_supplemental_semantic_ids(),
            SubmodelElement::SubmodelElementList(x) => x.get_supplemental_semantic_ids(),
            SubmodelElement::SubmodelElementCollection(x) => x.get_supplemental_semantic_ids(),
            SubmodelElement::Entity(x) => x.get_supplemental_semantic_ids(),
            SubmodelElement::BasicEventElement(x) => x.get_supplemental_semantic_ids(),
            SubmodelElement::Operation(x) => x.get_supplemental_semantic_ids(),
        }
    }

    fn get_mut_supplemental_semantic_ids(&mut self) -> (r: &mut Vec<Reference>)
        ensures
            final(self)@ ==
                old(self)@.with_semantics(SemanticsAspect {
                supplemental_semantic_ids: final(r).deep_view(), ..old(self).semantics() }),
    {
        match self {
            SubmodelElement::RelationshipElement(x) => x.get_mut_supplemental_semantic_ids(),
            SubmodelElement::AnnotatedRelationshipElement(x) =>
                x.get_mut_supplemental_semantic_ids(),
            SubmodelElement::Property(x) => x.get_mut_supplemental_semantic_ids(),
            SubmodelElement::MultiLanguageProperty(x) => x.get_mut_supplemental_semantic_ids(),
            SubmodelElement::Range(x) => x.get_mut_supplemental_semantic_ids(),
            SubmodelElement::Blob(x) => x.get_mut_supplemental_semantic_ids(),
            SubmodelElement::File(x) => x.get_mut_supplemental_semantic_ids(),
            SubmodelElement::ReferenceElement(x) => x.get_mut_supplemental_semantic_ids(),
            SubmodelElement::Capability(x) => x.get_mut_supplemental_semantic_ids(),
            SubmodelElement::SubmodelElementList(x) => x.get_mut_supplemental_semantic_ids(),
            SubmodelElement::SubmodelElementCollection(x) => x.get_mut_supplemental_semantic_ids(),
            SubmodelElement::Entity(x) => x.get_mut_supplemental_semantic_ids(),
            SubmodelElement::BasicEventElement(x) => x.get_mut_supplemental_semantic_ids(),
            SubmodelElement::Operation(x) => x.get_mut_supplemental_semantic_ids(),
        }
    }

    fn add_supplemental_semantic_id(&mut self, supplemental_semantic_id: Reference)
        ensures
            final(self)@ ==
                old(self)@.with_semantics(SemanticsAspect {
                supplemental_semantic_ids: old(self).semantics().supplemental_semantic_ids.push(
                supplemental_semantic_id@), ..old(self).semantics() }),
    {
        match self {
            SubmodelElement::RelationshipElement(x) =>
                x.add_supplemental_semantic_id(supplemental_semantic_id),
            SubmodelElement::AnnotatedRelationshipElement(x) =>
                x.add_supplemental_semantic_id(supplemental_semantic_id),
            SubmodelElement::Property(x) =>
                x.add_supplemental_semantic_id(supplemental_semantic_id),
            SubmodelElement::MultiLanguageProperty(x) =>
                x.add_supplemental_semantic_id(supplemental_semantic_id),
            SubmodelElement::Range(x) => x.add_supplemental_semantic_id(supplemental_semantic_id),
            SubmodelElement::Blob(x) => x.add_supplemental_semantic_id(supplemental_semantic_id),
            SubmodelElement::File(x) => x.add_supplemental_semantic_id(supplemental_semantic_id),
            SubmodelElement::ReferenceElement(x) =>
                x.add_supplemental_semantic_id(supplemental_semantic_id),
            SubmodelElement::Capability(x) =>
                x.add_supplemental_semantic_id(supplemental_semantic_id),
            SubmodelElement::SubmodelElementList(x) =>
                x.add_supplemental_semantic_id(supplemental_semantic_id),
            SubmodelElement::SubmodelElementCollection(x) =>
                x.add_supplemental_semantic_id(supplemental_semantic_id),
            SubmodelElement::Entity(x) => x.add_supplemental_semantic_id(supplemental_semantic_id),
            SubmodelElement::BasicEventElement(x) =>
                x.add_supplemental_semantic_id(supplemental_semantic_id),
            SubmodelElement::Operation(x) =>
                x.add_supplemental_semantic_id(supplemental_semantic_id),
        }
    }

    fn remove_supplemental_semantic_id(&mut self, index: usize) -> (r: Result<Reference,
        ModelError>)
        ensures
            match r {
                Ok(item) =>
                    final(self)@ ==
                    old(self)@.with_semantics(SemanticsAspect {
                    supplemental_semantic_ids: old(self).semantics().supplemental_semantic_ids.remove(
                    index as int), ..old(self).semantics() }),
                Err(e) => final(self)@ == old(self)@,
            },
    {
        match self {
            SubmodelElement::RelationshipElement(x) => x.remove_supplemental_semantic_id(index),
            SubmodelElement::AnnotatedRelationshipElement(x) =>
                x.remove_supplemental_semantic_id(index),
            SubmodelElement::Property(x) => x.remove_supplemental_semantic_id(index),
            SubmodelElement::MultiLanguageProperty(x) => x.remove_supplemental_semantic_id(index),
            SubmodelElement::Range(x) => x.remove_supplemental_semantic_id(index),
            SubmodelElement::Blob(x) => x.remove_supplemental_semantic_id(index),
            SubmodelElement::File(x) => x.remove_supplemental_semantic_id(index),
            SubmodelElement::ReferenceElement(x) => x.remove_supplemental_semantic_id(index),
            SubmodelElement::Capability(x) => x.remove_supplemental_semantic_id(index),
            SubmodelElement::SubmodelElementList(x) => x.remove_supplemental_semantic_id(index),
            SubmodelElement::SubmodelElementCollection(x) =>
                x.remove_supplemental_semantic_id(index),
            SubmodelElement::Entity(x) => x.remove_supplemental_semantic_id(index),
            SubmodelElement::BasicEventElement(x) => x.remove_supplemental_semantic_id(index),
            SubmodelElement::Operation(x) => x.remove_supplemental_semantic_id(index),
        }
    }
}

impl TQualifiable for SubmodelElement {
    open spec fn qualifiers_view(&self) -> Seq<QualifierView> {
        match self {
            SubmodelElement::RelationshipElement(x) => x.qualifiers_view(),
            SubmodelElement::AnnotatedRelationshipElement(x) => x.qualifiers_view(),
            SubmodelElement::Property(x) => x.qualifiers_view(),
            SubmodelElement::MultiLanguageProperty(x) => x.qualifiers_view(),
            SubmodelElement::Range(x) => x.qualifiers_view(),
            SubmodelElement::Blob(x) => x.qualifiers_view(),
            SubmodelElement::File(x) => x.qualifiers_view(),
            SubmodelElement::ReferenceElement(x) => x.qualifiers_view(),
            SubmodelElement::Capability(x) => x.qualifiers_view(),
            SubmodelElement::SubmodelElementList(x) => x.qualifiers_view(),
            SubmodelElement::SubmodelElementCollection(x) => x.qualifiers_view(),
            SubmodelElement::Entity(x) => x.qualifiers_view(),
            SubmodelElement::BasicEventElement(x) => x.qualifiers_view(),
            SubmodelElement::Operation(x) => x.qualifiers_view(),
        }
    }

    fn set_qualifiers(&mut self, qualifiers: Vec<Qualifier>)
        ensures
            final(self)@ == old(self)@.with_qualifiers(qualifiers.deep_view()),
    {
        match self {
            SubmodelElement::RelationshipElement(x) => x.set_qualifiers(qualifiers),
            SubmodelElement::AnnotatedRelationshipElement(x) => x.set_qualifiers(qualifiers),
            SubmodelElement::Property(x) => x.set_qualifiers(qualifiers),
            SubmodelElement::MultiLanguageProperty(x) => x.set_qualifiers(qualifiers),
            SubmodelElement::Range(x) => x.set_qualifiers(qualifiers),
            SubmodelElement::Blob(x) => x.set_qualifiers(qualifiers),
            SubmodelElement::File(x) => x.set_qualifiers(qualifiers),
            SubmodelElement::ReferenceElement(x) => x.set_qualifiers(qualifiers),
            SubmodelElement::Capability(x) => x.set_qualifiers(qualifiers),
            SubmodelElement::SubmodelElementList(x) => x.set_qualifiers(qualifiers),
            SubmodelElement::SubmodelElementCollection(x) => x.set_qualifiers(qualifiers),
            SubmodelElement::Entity(x) => x.set_qualifiers(qualifiers),
            SubmodelElement::BasicEventElement(x) => x.set_qualifiers(qualifiers),
            SubmodelElement::Operation(x) => x.set_qualifiers(qualifiers),
        }
    }

    fn get_qualifiers(&self) -> (r: &Vec<Qualifier>) {
        match self {
            SubmodelElement::RelationshipElement(x) => x.get_qualifiers(),
            SubmodelElement::AnnotatedRelationshipElement(x) => x.get_qualifiers(),
            SubmodelElement::Property(x) => x.get_qualifiers(),
            SubmodelElement::MultiLanguageProperty(x) => x.get_qualifiers(),
            SubmodelElement::Range(x) => x.get_qualifiers(),
            SubmodelElement::Blob(x) => x.get_qualifiers(),
            SubmodelElement::File(x) => x.get_qualifiers(),
            SubmodelElement::ReferenceElement(x) => x.get_qualifiers(),
            SubmodelElement::Capability(x) => x.get_qualifiers(),
            SubmodelElement::SubmodelElementList(x) => x.get_qualifiers(),
            SubmodelElement::SubmodelElementCollection(x) => x.get_qualifiers(),
            SubmodelElement::Entity(x) => x.get_qualifiers(),
            SubmodelElement::BasicEventElement(x) => x.get_qualifiers(),
            SubmodelElement::Operation(x) => x.get_qualifiers(),
        }
    }

    fn get_mut_qualifiers(&mut self) -> (r: &mut Vec<Qualifier>)
        ensures
            final(self)@ == old(self)@.with_qualifiers(final(r).deep_view()),
    {
        match self {
            SubmodelElement::RelationshipElement(x) => x.get_mut_qualifiers(),
            SubmodelElement::AnnotatedRelationshipElement(x) => x.get_mut_qualifiers(),
            SubmodelElement::Property(x) => x.get_mut_qualifiers(),
            SubmodelElement::MultiLanguageProperty(x) => x.get_mut_qualifiers(),
            SubmodelElement::Range(x) => x.get_mut_qualifiers(),
            SubmodelElement::Blob(x) => x.get_mut_qualifiers(),
            SubmodelElement::File(x) => x.get_mut_qualifiers(),
            SubmodelElement::ReferenceElement(x) => x.get_mut_qualifiers(),
            SubmodelElement::Capability(x) => x.get_mut_qualifiers(),
            SubmodelElement::SubmodelElementList(x) => x.get_mut_qualifiers(),
            SubmodelElement::SubmodelElementCollection(x) => x.get_mut_qualifiers(),
            SubmodelElement::Entity(x) => x.get_mut_qualifiers(),
            SubmodelElement::BasicEventElement(x) => x.get_mut_qualifiers(),
            SubmodelElement::Operation(x) => x.get_mut_qualifiers(),
        }
    }

    fn add_qualifier(&mut self, qualifier: Qualifier)
        ensures
            final(self)@ ==
                old(self)@.with_qualifiers(old(self).qualifiers_view().push(qualifier@)),
    {
        match self {
            SubmodelElement::RelationshipElement(x) => x.add_qualifier(qualifier),
            SubmodelElement::AnnotatedRelationshipElement(x) => x.add_qualifier(qualifier),
            SubmodelElement::Property(x) => x.add_qualifier(qualifier),
            SubmodelElement::MultiLanguageProperty(x) => x.add_qualifier(qualifier),
            SubmodelElement::Range(x) => x.add_qualifier(qualifier),
            SubmodelElement::Blob(x) => x.add_qualifier(qualifier),
            SubmodelElement::File(x) => x.add_qualifier(qualifier),
            SubmodelElement::ReferenceElement(x) => x.add_qualifier(qualifier),
            SubmodelElement::Capability(x) => x.add_qualifier(qualifier),
            SubmodelElement::SubmodelElementList(x) => x.add_qualifier(qualifier),
            SubmodelElement::SubmodelElementCollection(x) => x.add_qualifier(qualifier),
            SubmodelElement::Entity(x) => x.add_qualifier(qualifier),
            SubmodelElement::BasicEventElement(x) => x.add_qualifier(qualifier),
            SubmodelElement::Operation(x) => x.add_qualifier(qualifier),
        }
    }

    fn remove_qualifier(&mut self, index: usize) -> (r: Result<Qualifier, ModelError>)
        ensures
            match r {
                Ok(item) =>
                    final(self)@ ==
                    old(self)@.with_qualifiers(old(self).qualifiers_view().remove(
                    index as int)),
                Err(e) => final(self)@ == old(self)@,
            },
    {
        match self {
            SubmodelElement::RelationshipElement(x) => x.remove_qualifier(index),
            SubmodelElement::AnnotatedRelationshipElement(x) => x.remove_qualifier(index),
            SubmodelElement::Property(x) => x.remove_qualifier(index),
            SubmodelElement::MultiLanguageProperty(x) => x.remove_qualifier(index),
            SubmodelElement::Range(x) => x.remove_qualifier(index),
            SubmodelElement::Blob(x) => x.remove_qualifier(index),
            SubmodelElement::File(x) => x.remove_qualifier(index),
            SubmodelElement::ReferenceElement(x) => x.remove_qualifier(index),
            SubmodelElement::Capability(x) => x.remove_qualifier(index),
            SubmodelElement::SubmodelElementList(x) => x.remove_qualifier(index),
            SubmodelElement::SubmodelElementCollection(x) => x.remove_qualifier(index),
            SubmodelElement::Entity(x) => x.remove_qualifier(index),
            SubmodelElement::BasicEventElement(x) => x.remove_qualifier(index),
            SubmodelElement::Operation(x) => x.remove_qualifier(index),
        }
    }
}

impl THasDataSpecification for SubmodelElement {
    open spec fn data_specifications_view(&self) -> Seq<ReferenceView> {
        match self {
            SubmodelElement::RelationshipElement(x) => x.data_specifications_view(),
            SubmodelElement::AnnotatedRelationshipElement(x) => x.data_specifications_view(),
            SubmodelElement::Property(x) => x.data_specifications_view(),
            SubmodelElement::MultiLanguageProperty(x) => x.data_specifications_view(),
            SubmodelElement::Range(x) => x.data_specifications_view(),
            SubmodelElement::Blob(x) => x.data_specifications_view(),
            SubmodelElement::File(x) => x.data_specifications_view(),
            SubmodelElement::ReferenceElement(x) => x.data_specifications_view(),
            SubmodelElement::Capability(x) => x.data_specifications_view(),
            SubmodelElement::SubmodelElementList(x) => x.data_specifications_view(),
            SubmodelElement::SubmodelElementCollection(x) => x.data_specifications_view(),
            SubmodelElement::Entity(x) => x.data_specifications_view(),
            SubmodelElement::BasicEventElement(x) => x.data_specifications_view(),
            SubmodelElement::Operation(x) => x.data_specifications_view(),
        }
    }

    fn set_data_specifications(&mut self, data_specifications: Vec<Reference>)
        ensures
            final(self)@ == old(self)@.with_data_specifications(data_specifications.deep_view()),
    {
        match self {
            SubmodelElement::RelationshipElement(x) =>
                x.set_data_specifications(data_specifications),
            SubmodelElement::AnnotatedRelationshipElement(x) =>
                x.set_data_specifications(data_specifications),
            SubmodelElement::Property(x) => x.set_data_specifications(data_specifications),
            SubmodelElement::MultiLanguageProperty(x) =>
                x.set_data_specifications(data_specifications),
            SubmodelElement::Range(x) => x.set_data_specifications(data_specifications),
            SubmodelElement::Blob(x) => x.set_data_specifications(data_specifications),
            SubmodelElement::File(x) => x.set_data_specifications(data_specifications),
            SubmodelElement::ReferenceElement(x) => x.set_data_specifications(data_specifications),
            SubmodelElement::Capability(x) => x.set_data_specifications(data_specifications),
            SubmodelElement::SubmodelElementList(x) =>
                x.set_data_specifications(data_specifications),
            SubmodelElement::SubmodelElementCollection(x) =>
                x.set_data_specifications(data_specifications),
            SubmodelElement::Entity(x) => x.set_data_specifications(data_specifications),
            SubmodelElement::BasicEventElement(x) => x.set_data_specifications(data_specifications),
            SubmodelElement::Operation(x) => x.set_data_specifications(data_specifications),
        }
    }

    fn get_data_specifications(&self) -> (r: &Vec<Reference>) {
        match self {
            SubmodelElement::RelationshipElement(x) => x.get_data_specifications(),
            SubmodelElement::AnnotatedRelationshipElement(x) => x.get_data_specifications(),
            SubmodelElement::Property(x) => x.get_data_specifications(),
            SubmodelElement::MultiLanguageProperty(x) => x.get_data_specifications(),
            SubmodelElement::Range(x) => x.get_data_specifications(),
            SubmodelElement::Blob(x) => x.get_data_specifications(),
            SubmodelElement::File(x) => x.get_data_specifications(),
            SubmodelElement::ReferenceElement(x) => x.get_data_specifications(),
            SubmodelElement::Capability(x) => x.get_data_specifications(),
            SubmodelElement::SubmodelElementList(x) => x.get_data_specifications(),
            SubmodelElement::SubmodelElementCollection(x) => x.get_data_specifications(),
            SubmodelElement::Entity(x) => x.get_data_specifications(),
            SubmodelElement::BasicEventElement(x) => x.get_data_specifications(),
            SubmodelElement::Operation(x) => x.get_data_specifications(),
        }
    }

    fn get_mut_data_specifications(&mut self) -> (r: &mut Vec<Reference>)
        ensures
            final(self)@ == old(self)@.with_data_specifications(final(r).deep_view()),
    {
        match self {
            SubmodelElement::RelationshipElement(x) => x.get_mut_data_specifications(),
            SubmodelElement::AnnotatedRelationshipElement(x) => x.get_mut_data_specifications(),
            SubmodelElement::Property(x) => x.get_mut_data_specifications(),
            SubmodelElement::MultiLanguageProperty(x) => x.get_mut_data_specifications(),
            SubmodelElement::Range(x) => x.get_mut_data_specifications(),
            SubmodelElement::Blob(x) => x.get_mut_data_specifications(),
            SubmodelElement::File(x) => x.get_mut_data_specifications(),
            SubmodelElement::ReferenceElement(x) => x.get_mut_data_specifications(),
            SubmodelElement::Capability(x) => x.get_mut_data_specifications(),
            SubmodelElement::SubmodelElementList(x) => x.get_mut_data_specifications(),
            SubmodelElement::SubmodelElementCollection(x) => x.get_mut_data_specifications(),
            SubmodelElement::Entity(x) => x.get_mut_data_specifications(),
            SubmodelElement::BasicEventElement(x) => x.get_mut_data_specifications(),
            SubmodelElement::Operation(x) => x.get_mut_data_specifications(),
        }
    }

    fn add_data_specification(&mut self, data_specification: Reference)
        ensures
            final(self)@ ==
                old(self)@.with_data_specifications(old(self).data_specifications_view().push(
                data_specification@)),
    {
        match self {
            SubmodelElement::RelationshipElement(x) => x.add_data_specification(data_specification),
            SubmodelElement::AnnotatedRelationshipElement(x) =>
                x.add_data_specification(data_specification),
            SubmodelElement::Property(x) => x.add_data_specification(data_specification),
            SubmodelElement::MultiLanguageProperty(x) =>
                x.add_data_specification(data_specification),
            SubmodelElement::Range(x) => x.add_data_specification(data_specification),
            SubmodelElement::Blob(x) => x.add_data_specification(data_specification),
            SubmodelElement::File(x) => x.add_data_specification(data_specification),
            SubmodelElement::ReferenceElement(x) => x.add_data_specification(data_specification),
            SubmodelElement::Capability(x) => x.add_data_specification(data_specification),
            SubmodelElement::SubmodelElementList(x) => x.add_data_specification(data_specification),
            SubmodelElement::SubmodelElementCollection(x) =>
                x.add_data_specification(data_specification),
            SubmodelElement::Entity(x) => x.add_data_specification(data_specification),
            SubmodelElement::BasicEventElement(x) => x.add_data_specification(data_specification),
            SubmodelElement::Operation(x) => x.add_data_specification(data_specification),
        }
    }

    fn remove_data_specification(&mut self, index: usize) -> (r: Result<Reference, ModelError>)
        ensures
            match r {
                Ok(item) =>
                    final(self)@ ==
                    old(self)@.with_data_specifications(
                    old(self).data_specifications_view().remove(index as int)),
                Err(e) => final(self)@ == old(self)@,
            },
    {
        match self {
            SubmodelElement::RelationshipElement(x) => x.remove_data_specification(index),
            SubmodelElement::AnnotatedRelationshipElement(x) => x.remove_data_specification(index),
            SubmodelElement::Property(x) => x.remove_data_specification(index),
            SubmodelElement::MultiLanguageProperty(x) => x.remove_data_specification(index),
            SubmodelElement::Range(x) => x.remove_data_specification(index),
            SubmodelElement::Blob(x) => x.remove_data_specification(index),
            SubmodelElement::File(x) => x.remove_data_specification(index),
            SubmodelElement::ReferenceElement(x) => x.remove_data_specification(index),
            SubmodelElement::Capability(x) => x.remove_data_specification(index),
            SubmodelElement::SubmodelElementList(x) => x.remove_data_specification(index),
            SubmodelElement::SubmodelElementCollection(x) => x.remove_data_specification(index),
            SubmodelElement::Entity(x) => x.remove_data_specification(index),
            SubmodelElement::BasicEventElement(x) => x.remove_data_specification(index),
            SubmodelElement::Operation(x) => x.remove_data_specification(index),
        }
    }
}

impl TSubmodelElement for SubmodelElement {
}

impl SubmodelElementView {
    /// Whether every reference in the value is well formed.
    pub open spec fn well_formed(self) -> bool
        decreases self, 0nat,
    {
        match self {
            SubmodelElementView::RelationshipElement(x) => x.well_formed(),
            SubmodelElementView::AnnotatedRelationshipElement(x) => x.well_formed(),
            SubmodelElementView::Property(x) => x.well_formed(),
            SubmodelElementView::MultiLanguageProperty(x) => x.well_formed(),
            SubmodelElementView::Range(x) => x.well_formed(),
            SubmodelElementView::Blob(x) => x.well_formed(),
            SubmodelElementView::File(x) => x.well_formed(),
            SubmodelElementView::ReferenceElement(x) => x.well_formed(),
            SubmodelElementView::Capability(x) => x.well_formed(),
            SubmodelElementView::SubmodelElementList(x) => x.well_formed(),
            SubmodelElementView::SubmodelElementCollection(x) => x.well_formed(),
            SubmodelElementView::Entity(x) => x.well_formed(),
            SubmodelElementView::BasicEventElement(x) => x.well_formed(),
            SubmodelElementView::Operation(x) => x.well_formed(),
        }
    }

    /// The same value with what it carries of the aspect replaced.
    pub open spec fn with_referable(self, aspect: ReferableAspect) -> SubmodelElementView {
        match self {
            SubmodelElementView::RelationshipElement(x) =>
                SubmodelElementView::RelationshipElement(x.with_referable(aspect)),
            SubmodelElementView::AnnotatedRelationshipElement(x) =>
                SubmodelElementView::AnnotatedRelationshipElement(x.with_referable(aspect)),
            SubmodelElementView::Property(x) =>
                SubmodelElementView::Property(x.with_referable(aspect)),
            SubmodelElementView::MultiLanguageProperty(x) =>
                SubmodelElementView::MultiLanguageProperty(x.with_referable(aspect)),
            SubmodelElementView::Range(x) => SubmodelElementView::Range(x.with_referable(aspect)),
            SubmodelElementView::Blob(x) => SubmodelElementView::Blob(x.with_referable(aspect)),
            SubmodelElementView::File(x) => SubmodelElementView::File(x.with_referable(aspect)),
            SubmodelElementView::ReferenceElement(x) =>
                SubmodelElementView::ReferenceElement(x.with_referable(aspect)),
            SubmodelElementView::Capability(x) =>
                SubmodelElementView::Capability(x.with_referable(aspect)),
            SubmodelElementView::SubmodelElementList(x) =>
                SubmodelElementView::SubmodelElementList(x.with_referable(aspect)),
            SubmodelElementView::SubmodelElementCollection(x) =>
                SubmodelElementView::SubmodelElementCollection(x.with_referable(aspect)),
            SubmodelElementView::Entity(x) => SubmodelElementView::Entity(x.with_referable(aspect)),
            SubmodelElementView::BasicEventElement(x) =>
                SubmodelElementView::BasicEventElement(x.with_referable(aspect)),
            SubmodelElementView::Operation(x) =>
                SubmodelElementView::Operation(x.with_referable(aspect)),
        }
    }

    /// The same value with what it carries of the aspect replaced.
    pub open spec fn with_semantics(self, aspect: SemanticsAspect) -> SubmodelElementView {
        match self {
            SubmodelElementView::RelationshipElement(x) =>
                SubmodelElementView::RelationshipElement(x.with_semantics(aspect)),
            SubmodelElementView::AnnotatedRelationshipElement(x) =>
                SubmodelElementView::AnnotatedRelationshipElement(x.with_semantics(aspect)),
            SubmodelElementView::Property(x) =>
                SubmodelElementView::Property(x.with_semantics(aspect)),
            SubmodelElementView::MultiLanguageProperty(x) =>
                SubmodelElementView::MultiLanguageProperty(x.with_semantics(aspect)),
            SubmodelElementView::Range(x) => SubmodelElementView::Range(x.with_semantics(aspect)),
            SubmodelElementView::Blob(x) => SubmodelElementView::Blob(x.with_semantics(aspect)),
            SubmodelElementView::File(x) => SubmodelElementView::File(x.with_semantics(aspect)),
            SubmodelElementView::ReferenceElement(x) =>
                SubmodelElementView::ReferenceElement(x.with_semantics(aspect)),
            SubmodelElementView::Capability(x) =>
                SubmodelElementView::Capability(x.with_semantics(aspect)),
            SubmodelElementView::SubmodelElementList(x) =>
                SubmodelElementView::SubmodelElementList(x.with_semantics(aspect)),
            SubmodelElementView::SubmodelElementCollection(x) =>
                SubmodelElementView::SubmodelElementCollection(x.with_semantics(aspect)),
            SubmodelElementView::Entity(x) => SubmodelElementView::Entity(x.with_semantics(aspect)),
            SubmodelElementView::BasicEventElement(x) =>
                SubmodelElementView::BasicEventElement(x.with_semantics(aspect)),
            SubmodelElementView::Operation(x) =>
                SubmodelElementView::Operation(x.with_semantics(aspect)),
        }
    }

    /// The same value with the additional qualifications of the element replaced.
    pub open spec fn with_qualifiers(self, qualifiers: Seq<QualifierView>) -> SubmodelElementView {
        match self {
            SubmodelElementView::RelationshipElement(x) =>
                SubmodelElementView::RelationshipElement(x.with_qualifiers(qualifiers)),
            SubmodelElementView::AnnotatedRelationshipElement(x) =>
                SubmodelElementView::AnnotatedRelationshipElement(x.with_qualifiers(qualifiers)),
            SubmodelElementView::Property(x) =>
                SubmodelElementView::Property(x.with_qualifiers(qualifiers)),
            SubmodelElementView::MultiLanguageProperty(x) =>
                SubmodelElementView::MultiLanguageProperty(x.with_qualifiers(qualifiers)),
            SubmodelElementView::Range(x) =>
                SubmodelElementView::Range(x.with_qualifiers(qualifiers)),
            SubmodelElementView::Blob(x) =>
                SubmodelElementView::Blob(x.with_qualifiers(qualifiers)),
            SubmodelElementView::File(x) =>
                SubmodelElementView::File(x.with_qualifiers(qualifiers)),
            SubmodelElementView::ReferenceElement(x) =>
                SubmodelElementView::ReferenceElement(x.with_qualifiers(qualifiers)),
            SubmodelElementView::Capability(x) =>
                SubmodelElementView::Capability(x.with_qualifiers(qualifiers)),
            SubmodelElementView::SubmodelElementList(x) =>
                SubmodelElementView::SubmodelElementList(x.with_qualifiers(qualifiers)),
            SubmodelElementView::SubmodelElementCollection(x) =>
                SubmodelElementView::SubmodelElementCollection(x.with_qualifiers(qualifiers)),
            SubmodelElementView::Entity(x) =>
                SubmodelElementView::Entity(x.with_qualifiers(qualifiers)),
            SubmodelElementView::BasicEventElement(x) =>
                SubmodelElementView::BasicEventElement(x.with_qualifiers(qualifiers)),
            SubmodelElementView::Operation(x) =>
                SubmodelElementView::Operation(x.with_qualifiers(qualifiers)),
        }
    }

    /// The same value with the external references to the data specification templates used by the
    /// element replaced.
    pub open spec fn with_data_specifications(self, data_specifications: Seq<ReferenceView>)
        -> SubmodelElementView {
        match self {
            SubmodelElementView::RelationshipElement(x) =>
                SubmodelElementView::RelationshipElement(x.with_data_specifications(
                data_specifications)),
            SubmodelElementView::AnnotatedRelationshipElement(x) =>
                SubmodelElementView::AnnotatedRelationshipElement(x.with_data_specifications(
                data_specifications)),
            SubmodelElementView::Property(x) =>
                SubmodelElementView::Property(x.with_data_specifications(data_specifications)),
            SubmodelElementView::MultiLanguageProperty(x) =>
                SubmodelElementView::MultiLanguageProperty(x.with_data_specifications(
                data_specifications)),
            SubmodelElementView::Range(x) =>
                SubmodelElementView::Range(x.with_data_specifications(data_specifications)),
            SubmodelElementView::Blob(x) =>
                SubmodelElementView::Blob(x.with_data_specifications(data_specifications)),
            SubmodelElementView::File(x) =>
                SubmodelElementView::File(x.with_data_specifications(data_specifications)),
            SubmodelElementView::ReferenceElement(x) =>
                SubmodelElementView::ReferenceElement(x.with_data_specifications(
                data_specifications)),
            SubmodelElementView::Capability(x) =>
                SubmodelElementView::Capability(x.with_data_specifications(data_specifications)),
            SubmodelElementView::SubmodelElementList(x) =>
                SubmodelElementView::SubmodelElementList(x.with_data_specifications(
                data_specifications)),
            SubmodelElementView::SubmodelElementCollection(x) =>
                SubmodelElementView::SubmodelElementCollection(x.with_data_specifications(
                data_specifications)),
            SubmodelElementView::Entity(x) =>
                SubmodelElementView::Entity(x.with_data_specifications(data_specifications)),
            SubmodelElementView::BasicEventElement(x) =>
                SubmodelElementView::BasicEventElement(x.with_data_specifications(
                data_specifications)),
            SubmodelElementView::Operation(x) =>
                SubmodelElementView::Operation(x.with_data_specifications(data_specifications)),
        }
    }

    /// The name of the type of the value, which tells the variants apart on
    /// the wire.
    pub open spec fn model_type(self) -> Seq<char> {
        match self {
            SubmodelElementView::RelationshipElement(_) => "RelationshipElement"@,
            SubmodelElementView::AnnotatedRelationshipElement(_) => "AnnotatedRelationshipElement"@,
            SubmodelElementView::Property(_) => "Property"@,
            SubmodelElementView::MultiLanguageProperty(_) => "MultiLanguageProperty"@,
            SubmodelElementView::Range(_) => "Range"@,
            SubmodelElementView::Blob(_) => "Blob"@,
            SubmodelElementView::File(_) => "File"@,
            SubmodelElementView::ReferenceElement(_) => "ReferenceElement"@,
            SubmodelElementView::Capability(_) => "Capability"@,
            SubmodelElementView::SubmodelElementList(_) => "SubmodelElementList"@,
            SubmodelElementView::SubmodelElementCollection(_) => "SubmodelElementCollection"@,
            SubmodelElementView::Entity(_) => "Entity"@,
            SubmodelElementView::BasicEventElement(_) => "BasicEventElement"@,
            SubmodelElementView::Operation(_) => "Operation"@,
        }
    }

    /// Whether `tag` is the name of a type that is accepted in this place.
    pub open spec fn knows(tag: Seq<char>) -> bool {
        tag == "RelationshipElement"@
            || tag == "AnnotatedRelationshipElement"@
            || tag == "Property"@
            || tag == "MultiLanguageProperty"@
            || tag == "Range"@
            || tag == "Blob"@
            || tag == "File"@
            || tag == "ReferenceElement"@
            || tag == "Capability"@
            || tag == "SubmodelElementList"@
            || tag == "SubmodelElementCollection"@
            || tag == "Entity"@
            || tag == "BasicEventElement"@
            || tag == "Operation"@
    }

    /// The value on the wire: a record that begins with the name of the
    /// type and goes on with the members of the value.
    pub open spec fn to_wire(self) -> WireView
        decreases self, 3nat,
    {
        WireView::Record(
            match self {
                SubmodelElementView::RelationshipElement(x) =>
                    x.members_after(tagged(Some("RelationshipElement"@))),
                SubmodelElementView::AnnotatedRelationshipElement(x) =>
                    x.members_after(tagged(Some("AnnotatedRelationshipElement"@))),
                SubmodelElementView::Property(x) => x.members_after(tagged(Some("Property"@))),
                SubmodelElementView::MultiLanguageProperty(x) =>
                    x.members_after(tagged(Some("MultiLanguageProperty"@))),
                SubmodelElementView::Range(x) => x.members_after(tagged(Some("Range"@))),
                SubmodelElementView::Blob(x) => x.members_after(tagged(Some("Blob"@))),
                SubmodelElementView::File(x) => x.members_after(tagged(Some("File"@))),
                SubmodelElementView::ReferenceElement(x) =>
                    x.members_after(tagged(Some("ReferenceElement"@))),
                SubmodelElementView::Capability(x) => x.members_after(tagged(Some("Capability"@))),
                SubmodelElementView::SubmodelElementList(x) =>
                    x.members_after(tagged(Some("SubmodelElementList"@))),
                SubmodelElementView::SubmodelElementCollection(x) =>
                    x.members_after(tagged(Some("SubmodelElementCollection"@))),
                SubmodelElementView::Entity(x) => x.members_after(tagged(Some("Entity"@))),
                SubmodelElementView::BasicEventElement(x) =>
                    x.members_after(tagged(Some("BasicEventElement"@))),
                SubmodelElementView::Operation(x) => x.members_after(tagged(Some("Operation"@))),
            },
        )
    }

    /// The value that a wire value stands for: that of the type that the
    /// member `modelType` names. A name of no accepted type is refused.
    pub open spec fn from_wire(w: WireView) -> Result<SubmodelElementView, DecodeErrorView>
        decreases w, 3nat,
    {
        match w {
            WireView::Record(fields) => match lookup(fields, "modelType"@) {
                None => Err(fail_at(DecodeFault::MissingField, "modelType"@)),
                Some(WireView::Text(tag)) => SubmodelElementView::from_tagged(tag, fields),
                Some(_) => Err(fail_at(DecodeFault::ExpectedText, "modelType"@)),
            },
            _ => Err(fail(DecodeFault::ExpectedRecord)),
        }
    }

    /// The value of the type called `tag` that the members of a record stand
    /// for.
    #[verifier::opaque]
    pub open spec fn from_tagged(tag: Seq<char>, fields: Seq<FieldView>) -> Result<
        SubmodelElementView,
        DecodeErrorView,
    >
        decreases fields, 2nat,
    {
        if tag == "RelationshipElement"@ {
            match RelationshipElementView::from_members(fields) {
                Ok(x) => Ok(SubmodelElementView::RelationshipElement(x)),
                Err(e) => Err(e),
            }
        } else if tag == "AnnotatedRelationshipElement"@ {
            match AnnotatedRelationshipElementView::from_members(fields) {
                Ok(x) => Ok(SubmodelElementView::AnnotatedRelationshipElement(x)),
                Err(e) => Err(e),
            }
        } else if tag == "Property"@ {
            match PropertyView::from_members(fields) {
                Ok(x) => Ok(SubmodelElementView::Property(x)),
                Err(e) => Err(e),
            }
        } else if tag == "MultiLanguageProperty"@ {
            match MultiLanguagePropertyView::from_members(fields) {
                Ok(x) => Ok(SubmodelElementView::MultiLanguageProperty(x)),
                Err(e) => Err(e),
            }
        } else if tag == "Range"@ {
            match RangeView::from_members(fields) {
                Ok(x) => Ok(SubmodelElementView::Range(x)),
                Err(e) => Err(e),
            }
        } else if tag == "Blob"@ {
            match BlobView::from_members(fields) {
                Ok(x) => Ok(SubmodelElementView::Blob(x)),
                Err(e) => Err(e),
            }
        } else if tag == "File"@ {
            match FileView::from_members(fields) {
                Ok(x) => Ok(SubmodelElementView::File(x)),
                Err(e) => Err(e),
            }
        } else if tag == "ReferenceElement"@ {
            match ReferenceElementView::from_members(fields) {
                Ok(x) => Ok(SubmodelElementView::ReferenceElement(x)),
                Err(e) => Err(e),
            }
        } else if tag == "Capability"@ {
            match CapabilityView::from_members(fields) {
                Ok(x) => Ok(SubmodelElementView::Capability(x)),
                Err(e) => Err(e),
            }
        } else if tag == "SubmodelElementList"@ {
            match SubmodelElementListView::from_members(fields) {
                Ok(x) => Ok(SubmodelElementView::SubmodelElementList(x)),
                Err(e) => Err(e),
            }
        } else if tag == "SubmodelElementCollection"@ {
            match SubmodelElementCollectionView::from_members(fields) {
                Ok(x) => Ok(SubmodelElementView::SubmodelElementCollection(x)),
                Err(e) => Err(e),
            }
        } else if tag == "Entity"@ {
            match EntityView::from_members(fields) {
                Ok(x) => Ok(SubmodelElementView::Entity(x)),
                Err(e) => Err(e),
            }
        } else if tag == "BasicEventElement"@ {
            match BasicEventElementView::from_members(fields) {
                Ok(x) => Ok(SubmodelElementView::BasicEventElement(x)),
                Err(e) => Err(e),
            }
        } else if tag == "Operation"@ {
            match OperationView::from_members(fields) {
                Ok(x) => Ok(SubmodelElementView::Operation(x)),
                Err(e) => Err(e),
            }
        } else {
            Err(fail_at(DecodeFault::UnknownDiscriminant, "modelType"@))
        }
    }

    /// A list of values on the wire: the values in their order.
    pub open spec fn list_to_wire(items: Seq<SubmodelElementView>) -> WireView
        decreases items, 0nat,
    {
        WireView::List(
            Seq::new(
                items.len(),
                |i: int|
                    if 0 <= i < items.len() {
                        items[i].to_wire()
                    } else {
                        WireView::Null
                    },
            ),
        )
    }

    /// The values that the items from position `start` on stand for. The first
    /// item that stands for none decides the failure.
    pub open spec fn list_from_items(items: Seq<WireView>, start: nat) -> Result<
        Seq<SubmodelElementView>,
        DecodeErrorView,
    >
        decreases items, items.len() - start,
    {
        if start >= items.len() {
            Ok(Seq::empty())
        } else {
            match SubmodelElementView::from_wire(items[start as int]) {
                Err(e) => Err(e.under(PathStepView::Index(start as int))),
                Ok(v) => match SubmodelElementView::list_from_items(items, start + 1) {
                    Ok(rest) => Ok(seq![v] + rest),
                    Err(e) => Err(e),
                },
            }
        }
    }

    /// The values that a list on the wire stands for.
    pub open spec fn list_from_wire(w: WireView) -> Result<Seq<SubmodelElementView>,
        DecodeErrorView>
        decreases w, 0nat,
    {
        match w {
            WireView::List(items) => SubmodelElementView::list_from_items(items, 0),
            _ => Err(fail(DecodeFault::ExpectedList)),
        }
    }

    /// What is encoded carries the exact name of its type as its type name.
    pub proof fn lemma_model_type(self)
        ensures
            self.to_wire() matches WireView::Record(fields) && lookup(fields, "modelType"@) == Some(
                WireView::Text(self.model_type()),
            ),
            SubmodelElementView::knows(self.model_type()),
    {
        broadcast use lemma_lookup_push;

        match self {
            SubmodelElementView::RelationshipElement(x) => {
                x.lemma_model_type_kept(Some("RelationshipElement"@));
            },
            SubmodelElementView::AnnotatedRelationshipElement(x) => {
                x.lemma_model_type_kept(Some("AnnotatedRelationshipElement"@));
            },
            SubmodelElementView::Property(x) => {
                x.lemma_model_type_kept(Some("Property"@));
            },
            SubmodelElementView::MultiLanguageProperty(x) => {
                x.lemma_model_type_kept(Some("MultiLanguageProperty"@));
            },
            SubmodelElementView::Range(x) => {
                x.lemma_model_type_kept(Some("Range"@));
            },
            SubmodelElementView::Blob(x) => {
                x.lemma_model_type_kept(Some("Blob"@));
            },
            SubmodelElementView::File(x) => {
                x.lemma_model_type_kept(Some("File"@));
            },
            SubmodelElementView::ReferenceElement(x) => {
                x.lemma_model_type_kept(Some("ReferenceElement"@));
            },
            SubmodelElementView::Capability(x) => {
                x.lemma_model_type_kept(Some("Capability"@));
            },
            SubmodelElementView::SubmodelElementList(x) => {
                x.lemma_model_type_kept(Some("SubmodelElementList"@));
            },
            SubmodelElementView::SubmodelElementCollection(x) => {
                x.lemma_model_type_kept(Some("SubmodelElementCollection"@));
            },
            SubmodelElementView::Entity(x) => {
                x.lemma_model_type_kept(Some("Entity"@));
            },
            SubmodelElementView::BasicEventElement(x) => {
                x.lemma_model_type_kept(Some("BasicEventElement"@));
            },
            SubmodelElementView::Operation(x) => {
                x.lemma_model_type_kept(Some("Operation"@));
            },
        }
    }

    /// A record whose type name is that of no accepted type is refused.
    pub proof fn lemma_unknown_model_type(fields: Seq<FieldView>, tag: Seq<char>)
        requires
            lookup(fields, "modelType"@) == Some(WireView::Text(tag)),
            !SubmodelElementView::knows(tag),
        ensures
            SubmodelElementView::from_wire(WireView::Record(fields)) ==
                Err::<SubmodelElementView, DecodeErrorView>(
                fail_at(DecodeFault::UnknownDiscriminant, "modelType"@),
            ),
    {
        reveal(SubmodelElementView::from_tagged);
    }

    /// A value of the variant `RelationshipElement` is found again from what it is on the wire.
    proof fn lemma_round_trip_relationship_element(x: RelationshipElementView)
        requires
            x.well_formed(),
        ensures
            SubmodelElementView::from_wire(SubmodelElementView::RelationshipElement(x).to_wire()) ==
                Ok::<SubmodelElementView, DecodeErrorView>(
                SubmodelElementView::RelationshipElement(x),
            ),
        decreases x, 2nat,
    {
        broadcast use lemma_lookup_push;

        reveal(SubmodelElementView::from_tagged);
        lemma_name_codes();
        x.lemma_members_round_trip(Some("RelationshipElement"@));
        x.lemma_model_type_kept(Some("RelationshipElement"@));
    }

    /// A value of the variant `AnnotatedRelationshipElement` is found again from what it is on the
    /// wire.
    proof fn lemma_round_trip_annotated_relationship_element(x: AnnotatedRelationshipElementView)
        requires
            x.well_formed(),
        ensures
            SubmodelElementView::from_wire(SubmodelElementView::AnnotatedRelationshipElement(
                x).to_wire()) == Ok::<SubmodelElementView, DecodeErrorView>(
                SubmodelElementView::AnnotatedRelationshipElement(x),
            ),
        decreases x, 2nat,
    {
        broadcast use lemma_lookup_push;

        reveal(SubmodelElementView::from_tagged);
        lemma_name_codes();
        x.lemma_members_round_trip(Some("AnnotatedRelationshipElement"@));
        x.lemma_model_type_kept(Some("AnnotatedRelationshipElement"@));
    }

    /// A value of the variant `Property` is found again from what it is on the wire.
    proof fn lemma_round_trip_property(x: PropertyView)
        requires
            x.well_formed(),
        ensures
            SubmodelElementView::from_wire(SubmodelElementView::Property(x).to_wire()) ==
                Ok::<SubmodelElementView, DecodeErrorView>(
                SubmodelElementView::Property(x),
            ),
        decreases x, 2nat,
    {
        broadcast use lemma_lookup_push;

        reveal(SubmodelElementView::from_tagged);
        lemma_name_codes();
        x.lemma_members_round_trip(Some("Property"@));
        x.lemma_model_type_kept(Some("Property"@));
    }

    /// A value of the variant `MultiLanguageProperty` is found again from what it is on the wire.
    proof fn lemma_round_trip_multi_language_property(x: MultiLanguagePropertyView)
        requires
            x.well_formed(),
        ensures
            SubmodelElementView::from_wire(SubmodelElementView::MultiLanguageProperty(
                x).to_wire()) == Ok::<SubmodelElementView, DecodeErrorView>(
                SubmodelElementView::MultiLanguageProperty(x),
            ),
        decreases x, 2nat,
    {
        broadcast use lemma_lookup_push;

        reveal(SubmodelElementView::from_tagged);
        lemma_name_codes();
        x.lemma_members_round_trip(Some("MultiLanguageProperty"@));
        x.lemma_model_type_kept(Some("MultiLanguageProperty"@));
    }

    /// A value of the variant `Range` is found again from what it is on the wire.
    proof fn lemma_round_trip_range(x: RangeView)
        requires
            x.well_formed(),
        ensures
            SubmodelElementView::from_wire(SubmodelElementView::Range(x).to_wire()) ==
                Ok::<SubmodelElementView, DecodeErrorView>(
                SubmodelElementView::Range(x),
            ),
        decreases x, 2nat,
    {
        broadcast use lemma_lookup_push;

        reveal(SubmodelElementView::from_tagged);
        lemma_name_codes();
        x.lemma_members_round_trip(Some("Range"@));
        x.lemma_model_type_kept(Some("Range"@));
    }

    /// A value of the variant `Blob` is found again from what it is on the wire.
    proof fn lemma_round_trip_blob(x: BlobView)
        requires
            x.well_formed(),
        ensures
            SubmodelElementView::from_wire(SubmodelElementView::Blob(x).to_wire()) ==
                Ok::<SubmodelElementView, DecodeErrorView>(
                SubmodelElementView::Blob(x),
            ),
        decreases x, 2nat,
    {
        broadcast use lemma_lookup_push;

        reveal(SubmodelElementView::from_tagged);
        lemma_name_codes();
        x.lemma_members_round_trip(Some("Blob"@));
        x.lemma_model_type_kept(Some("Blob"@));
    }

    /// A value of the variant `File` is found again from what it is on the wire.
    proof fn lemma_round_trip_file(x: FileView)
        requires
            x.well_formed(),
        ensures
            SubmodelElementView::from_wire(SubmodelElementView::File(x).to_wire()) ==
                Ok::<SubmodelElementView, DecodeErrorView>(
                SubmodelElementView::File(x),
            ),
        decreases x, 2nat,
    {
        broadcast use lemma_lookup_push;

        reveal(SubmodelElementView::from_tagged);
        lemma_name_codes();
        x.lemma_members_round_trip(Some("File"@));
        x.lemma_model_type_kept(Some("File"@));
    }

    /// A value of the variant `ReferenceElement` is found again from what it is on the wire.
    proof fn lemma_round_trip_reference_element(x: ReferenceElementView)
        requires
            x.well_formed(),
        ensures
            SubmodelElementView::from_wire(SubmodelElementView::ReferenceElement(x).to_wire()) ==
                Ok::<SubmodelElementView, DecodeErrorView>(
                SubmodelElementView::ReferenceElement(x),
            ),
        decreases x, 2nat,
    {
        broadcast use lemma_lookup_push;

        reveal(SubmodelElementView::from_tagged);
        lemma_name_codes();
        x.lemma_members_round_trip(Some("ReferenceElement"@));
        x.lemma_model_type_kept(Some("ReferenceElement"@));
    }

    /// A value of the variant `Capability` is found again from what it is on the wire.
    proof fn lemma_round_trip_capability(x: CapabilityView)
        requires
            x.well_formed(),
        ensures
            SubmodelElementView::from_wire(SubmodelElementView::Capability(x).to_wire()) ==
                Ok::<SubmodelElementView, DecodeErrorView>(
                SubmodelElementView::Capability(x),
            ),
        decreases x, 2nat,
    {
        broadcast use lemma_lookup_push;

        reveal(SubmodelElementView::from_tagged);
        lemma_name_codes();
        x.lemma_members_round_trip(Some("Capability"@));
        x.lemma_model_type_kept(Some("Capability"@));
    }

    /// A value of the variant `SubmodelElementList` is found again from what it is on the wire.
    proof fn lemma_round_trip_submodel_element_list(x: SubmodelElementListView)
        requires
            x.well_formed(),
        ensures
            SubmodelElementView::from_wire(SubmodelElementView::SubmodelElementList(x).to_wire()) ==
                Ok::<SubmodelElementView, DecodeErrorView>(
                SubmodelElementView::SubmodelElementList(x),
            ),
        decreases x, 2nat,
    {
        broadcast use lemma_lookup_push;

        reveal(SubmodelElementView::from_tagged);
        lemma_name_codes();
        x.lemma_members_round_trip(Some("SubmodelElementList"@));
        x.lemma_model_type_kept(Some("SubmodelElementList"@));
    }

    /// A value of the variant `SubmodelElementCollection` is found again from what it is on the
    /// wire.
    proof fn lemma_round_trip_submodel_element_collection(x: SubmodelElementCollectionView)
        requires
            x.well_formed(),
        ensures
            SubmodelElementView::from_wire(SubmodelElementView::SubmodelElementCollection(
                x).to_wire()) == Ok::<SubmodelElementView, DecodeErrorView>(
                SubmodelElementView::SubmodelElementCollection(x),
            ),
        decreases x, 2nat,
    {
        broadcast use lemma_lookup_push;

        reveal(SubmodelElementView::from_tagged);
        lemma_name_codes();
        x.lemma_members_round_trip(Some("SubmodelElementCollection"@));
        x.lemma_model_type_kept(Some("SubmodelElementCollection"@));
    }

    /// A value of the variant `Entity` is found again from what it is on the wire.
    proof fn lemma_round_trip_entity(x: EntityView)
        requires
            x.well_formed(),
        ensures
            SubmodelElementView::from_wire(SubmodelElementView::Entity(x).to_wire()) ==
                Ok::<SubmodelElementView, DecodeErrorView>(
                SubmodelElementView::Entity(x),
            ),
        decreases x, 2nat,
    {
        broadcast use lemma_lookup_push;

        reveal(SubmodelElementView::from_tagged);
        lemma_name_codes();
        x.lemma_members_round_trip(Some("Entity"@));
        x.lemma_model_type_kept(Some("Entity"@));
    }

    /// A value of the variant `BasicEventElement` is found again from what it is on the wire.
    proof fn lemma_round_trip_basic_event_element(x: BasicEventElementView)
        requires
            x.well_formed(),
        ensures
            SubmodelElementView::from_wire(SubmodelElementView::BasicEventElement(x).to_wire()) ==
                Ok::<SubmodelElementView, DecodeErrorView>(
                SubmodelElementView::BasicEventElement(x),
            ),
        decreases x, 2nat,
    {
        broadcast use lemma_lookup_push;

        reveal(SubmodelElementView::from_tagged);
        lemma_name_codes();
        x.lemma_members_round_trip(Some("BasicEventElement"@));
        x.lemma_model_type_kept(Some("BasicEventElement"@));
    }

    /// A value of the variant `Operation` is found again from what it is on the wire.
    proof fn lemma_round_trip_operation(x: OperationView)
        requires
            x.well_formed(),
        ensures
            SubmodelElementView::from_wire(SubmodelElementView::Operation(x).to_wire()) ==
                Ok::<SubmodelElementView, DecodeErrorView>(
                SubmodelElementView::Operation(x),
            ),
        decreases x, 2nat,
    {
        broadcast use lemma_lookup_push;

        reveal(SubmodelElementView::from_tagged);
        lemma_name_codes();
        x.lemma_members_round_trip(Some("Operation"@));
        x.lemma_model_type_kept(Some("Operation"@));
    }

    /// Every value is found again from what it is on the wire.
    pub proof fn lemma_round_trip(self)
        requires
            self.well_formed(),
        ensures
            SubmodelElementView::from_wire(self.to_wire()) ==
                Ok::<SubmodelElementView, DecodeErrorView>(self),
        decreases self, 3nat,
    {
        match self {
            SubmodelElementView::RelationshipElement(x) => {
                SubmodelElementView::lemma_round_trip_relationship_element(x);
            },
            SubmodelElementView::AnnotatedRelationshipElement(x) => {
                SubmodelElementView::lemma_round_trip_annotated_relationship_element(x);
            },
            SubmodelElementView::Property(x) => {
                SubmodelElementView::lemma_round_trip_property(x);
            },
            SubmodelElementView::MultiLanguageProperty(x) => {
                SubmodelElementView::lemma_round_trip_multi_language_property(x);
            },
            SubmodelElementView::Range(x) => {
                SubmodelElementView::lemma_round_trip_range(x);
            },
            SubmodelElementView::Blob(x) => {
                SubmodelElementView::lemma_round_trip_blob(x);
            },
            SubmodelElementView::File(x) => {
                SubmodelElementView::lemma_round_trip_file(x);
            },
            SubmodelElementView::ReferenceElement(x) => {
                SubmodelElementView::lemma_round_trip_reference_element(x);
            },
            SubmodelElementView::Capability(x) => {
                SubmodelElementView::lemma_round_trip_capability(x);
            },
            SubmodelElementView::SubmodelElementList(x) => {
                SubmodelElementView::lemma_round_trip_submodel_element_list(x);
            },
            SubmodelElementView::SubmodelElementCollection(x) => {
                SubmodelElementView::lemma_round_trip_submodel_element_collection(x);
            },
            SubmodelElementView::Entity(x) => {
                SubmodelElementView::lemma_round_trip_entity(x);
            },
            SubmodelElementView::BasicEventElement(x) => {
                SubmodelElementView::lemma_round_trip_basic_event_element(x);
            },
            SubmodelElementView::Operation(x) => {
                SubmodelElementView::lemma_round_trip_operation(x);
            },
        }
    }

    /// The values from position `start` on are found again from the items that
    /// stand for them.
    pub proof fn lemma_list_items_round_trip(items: Seq<SubmodelElementView>, start: nat)
        requires
            forall|i: int| 0 <= i < items.len() ==> (#[trigger] items[i]).well_formed(),
            start <= items.len(),
        ensures
            SubmodelElementView::list_from_items(SubmodelElementView::list_to_wire(items)->List_0,
                start) == Ok::<
                Seq<SubmodelElementView>,
                DecodeErrorView,
            >(items.skip(start as int)),
        decreases items, items.len() - start,
    {
        if start >= items.len() {
            assert(items.skip(start as int) =~= Seq::empty());
        } else {
            items[start as int].lemma_round_trip();
            SubmodelElementView::lemma_list_items_round_trip(items, start + 1);
            assert(seq![items[start as int]] + items.skip(start as int + 1) =~= items.skip(
                start as int));
        }
    }

    /// Every list of values is found again from what it is on the wire.
    pub proof fn lemma_list_round_trip(items: Seq<SubmodelElementView>)
        requires
            forall|i: int| 0 <= i < items.len() ==> (#[trigger] items[i]).well_formed(),
        ensures
            SubmodelElementView::list_from_wire(SubmodelElementView::list_to_wire(items)) == Ok::<
                Seq<SubmodelElementView>,
                DecodeErrorView,
            >(items),
        decreases items, items.len() + 1,
    {
        SubmodelElementView::lemma_list_items_round_trip(items, 0);
        assert(items.skip(0) =~= items);
    }
}

impl SubmodelElement {
    /// The name of the type of the value.
    pub fn model_type(&self) -> (s: &'static str)
        ensures
            s@ == self@.model_type(),
    {
        match self {
            SubmodelElement::RelationshipElement(_) => "RelationshipElement",
            SubmodelElement::AnnotatedRelationshipElement(_) => "AnnotatedRelationshipElement",
            SubmodelElement::Property(_) => "Property",
            SubmodelElement::MultiLanguageProperty(_) => "MultiLanguageProperty",
            SubmodelElement::Range(_) => "Range",
            SubmodelElement::Blob(_) => "Blob",
            SubmodelElement::File(_) => "File",
            SubmodelElement::ReferenceElement(_) => "ReferenceElement",
            SubmodelElement::Capability(_) => "Capability",
            SubmodelElement::SubmodelElementList(_) => "SubmodelElementList",
            SubmodelElement::SubmodelElementCollection(_) => "SubmodelElementCollection",
            SubmodelElement::Entity(_) => "Entity",
            SubmodelElement::BasicEventElement(_) => "BasicEventElement",
            SubmodelElement::Operation(_) => "Operation",
        }
    }

    /// The value as it travels: a record that begins with the name of the
    /// type. What comes out decodes to the same value again.
    pub fn encode(&self) -> (w: Wire)
        ensures
            w@ == self@.to_wire(),
            self@.well_formed(),
            SubmodelElementView::from_wire(w@) == Ok::<SubmodelElementView, DecodeErrorView>(self@),
        decreases self, 3nat,
    {
        let mut fields: Vec<Field> = Vec::new();
        assert(fields.deep_view() =~= Seq::<FieldView>::empty());
        add_member(&mut fields, "modelType", Wire::text(self.model_type()));
        match self {
            SubmodelElement::RelationshipElement(x) => x.encode_members(&mut fields),
            SubmodelElement::AnnotatedRelationshipElement(x) => x.encode_members(&mut fields),
            SubmodelElement::Property(x) => x.encode_members(&mut fields),
            SubmodelElement::MultiLanguageProperty(x) => x.encode_members(&mut fields),
            SubmodelElement::Range(x) => x.encode_members(&mut fields),
            SubmodelElement::Blob(x) => x.encode_members(&mut fields),
            SubmodelElement::File(x) => x.encode_members(&mut fields),
            SubmodelElement::ReferenceElement(x) => x.encode_members(&mut fields),
            SubmodelElement::Capability(x) => x.encode_members(&mut fields),
            SubmodelElement::SubmodelElementList(x) => x.encode_members(&mut fields),
            SubmodelElement::SubmodelElementCollection(x) => x.encode_members(&mut fields),
            SubmodelElement::Entity(x) => x.encode_members(&mut fields),
            SubmodelElement::BasicEventElement(x) => x.encode_members(&mut fields),
            SubmodelElement::Operation(x) => x.encode_members(&mut fields),
        }
        proof {
            self@.lemma_round_trip();
        }
        Wire::record(fields)
    }

    /// The value that `w` stands for.
    pub fn decode(w: &Wire) -> (r: Result<SubmodelElement, DecodeError>)
        ensures
            outcome(r) == SubmodelElementView::from_wire(w@),
        decreases w, 3nat,
    {
        let fields = match w.members() {
            Some(fields) => fields,
            None => {
                return Err(DecodeError::new(DecodeFault::ExpectedRecord));
            },
        };
        let tag = match find(fields, "modelType") {
            None => {
                return Err(DecodeError::at(DecodeFault::MissingField, "modelType"));
            },
            Some(Wire::Text(tag)) => tag,
            Some(_) => {
                return Err(DecodeError::at(DecodeFault::ExpectedText, "modelType"));
            },
        };
        proof {
            reveal(SubmodelElementView::from_tagged);
        }
        if same_text(tag.as_str(), "RelationshipElement") {
            match RelationshipElement::decode_members(fields) {
                Ok(x) => Ok(SubmodelElement::RelationshipElement(x)),
                Err(e) => Err(e),
            }
        } else if same_text(tag.as_str(), "AnnotatedRelationshipElement") {
            match AnnotatedRelationshipElement::decode_members(fields) {
                Ok(x) => Ok(SubmodelElement::AnnotatedRelationshipElement(x)),
                Err(e) => Err(e),
            }
        } else if same_text(tag.as_str(), "Property") {
            match Property::decode_members(fields) {
                Ok(x) => Ok(SubmodelElement::Property(x)),
                Err(e) => Err(e),
            }
        } else if same_text(tag.as_str(), "MultiLanguageProperty") {
            match MultiLanguageProperty::decode_members(fields) {
                Ok(x) => Ok(SubmodelElement::MultiLanguageProperty(x)),
                Err(e) => Err(e),
            }
        } else if same_text(tag.as_str(), "Range") {
            match Range::decode_members(fields) {
                Ok(x) => Ok(SubmodelElement::Range(x)),
                Err(e) => Err(e),
            }
        } else if same_text(tag.as_str(), "Blob") {
            match Blob::decode_members(fields) {
                Ok(x) => Ok(SubmodelElement::Blob(x)),
                Err(e) => Err(e),
            }
        } else if same_text(tag.as_str(), "File") {
            match File::decode_members(fields) {
                Ok(x) => Ok(SubmodelElement::File(x)),
                Err(e) => Err(e),
            }
        } else if same_text(tag.as_str(), "ReferenceElement") {
            match ReferenceElement::decode_members(fields) {
                Ok(x) => Ok(SubmodelElement::ReferenceElement(x)),
                Err(e) => Err(e),
            }
        } else if same_text(tag.as_str(), "Capability") {
            match Capability::decode_members(fields) {
                Ok(x) => Ok(SubmodelElement::Capability(x)),
                Err(e) => Err(e),
            }
        } else if same_text(tag.as_str(), "SubmodelElementList") {
            match SubmodelElementList::decode_members(fields) {
                Ok(x) => Ok(SubmodelElement::SubmodelElementList(x)),
                Err(e) => Err(e),
            }
        } else if same_text(tag.as_str(), "SubmodelElementCollection") {
            match SubmodelElementCollection::decode_members(fields) {
                Ok(x) => Ok(SubmodelElement::SubmodelElementCollection(x)),
                Err(e) => Err(e),
            }
        } else if same_text(tag.as_str(), "Entity") {
            match Entity::decode_members(fields) {
                Ok(x) => Ok(SubmodelElement::Entity(x)),
                Err(e) => Err(e),
            }
        } else if same_text(tag.as_str(), "BasicEventElement") {
            match BasicEventElement::decode_members(fields) {
                Ok(x) => Ok(SubmodelElement::BasicEventElement(x)),
                Err(e) => Err(e),
            }
        } else if same_text(tag.as_str(), "Operation") {
            match Operation::decode_members(fields) {
                Ok(x) => Ok(SubmodelElement::Operation(x)),
                Err(e) => Err(e),
            }
        } else {
            Err(DecodeError::at(DecodeFault::UnknownDiscriminant, "modelType"))
        }
    }

    /// The values as they travel: a list, in their order.
    #[verifier::loop_isolation(false)]
    pub fn encode_list(items: &Vec<SubmodelElement>) -> (w: Wire)
        ensures
            w@ == SubmodelElementView::list_to_wire(items.deep_view()),
            forall|i: int| 0 <= i < items.len() ==> (#[trigger] items.deep_view()[i]).well_formed(),
        decreases items, 0nat,
    {
        let mut out: Vec<Wire> = Vec::new();
        let mut i: usize = 0;
        while i < items.len()
            invariant
                i <= items.len(),
                out.len() == i,
                forall|j: int| 0 <= j < i ==>
                    (#[trigger] out[j])@ == items.deep_view()[j].to_wire(),
                forall|j: int| 0 <= j < i ==> (#[trigger] items.deep_view()[j]).well_formed(),
            decreases items.len() - i,
        {
            out.push(items[i].encode());
            i += 1;
        }
        let w = Wire::list(out);
        assert(w@->List_0 =~= SubmodelElementView::list_to_wire(items.deep_view())->List_0);
        w
    }

    /// The values that the list `w` stands for. The first item that stands
    /// for none decides the failure.
    #[verifier::loop_isolation(false)]
    pub fn decode_list(w: &Wire) -> (r: Result<Vec<SubmodelElement>, DecodeError>)
        ensures
            outcome(r) == SubmodelElementView::list_from_wire(w@),
        decreases w, 0nat,
    {
        let items = match w.items() {
            Some(items) => items,
            None => {
                return Err(DecodeError::new(DecodeFault::ExpectedList));
            },
        };
        let mut out: Vec<SubmodelElement> = Vec::new();
        let mut i: usize = 0;
        assert(Seq::<SubmodelElementView>::empty() + SubmodelElementView::list_from_items(
            items.deep_view(), 0)->Ok_0
            =~= SubmodelElementView::list_from_items(items.deep_view(), 0)->Ok_0);
        while i < items.len()
            invariant
                i <= items.len(),
                w@ == WireView::List(items.deep_view()),
                SubmodelElementView::list_from_items(items.deep_view(), 0) ==
                    (match SubmodelElementView::list_from_items(
                    items.deep_view(),
                    i as nat,
                ) {
                    Ok(rest) => Ok(out.deep_view() + rest),
                    Err(e) => Err(e),
                }),
            decreases items.len() - i,
        {
            let ghost before = out.deep_view();
            match SubmodelElement::decode(&items[i]) {
                Ok(v) => {
                    out.push(v);
                    proof {
                        let rest = SubmodelElementView::list_from_items(items.deep_view(),
                            (i + 1) as nat);
                        if rest is Ok {
                            assert(out.deep_view() + rest->Ok_0 =~= before + (seq![
                                v@] + rest->Ok_0));
                        }
                    }
                },
                Err(e) => {
                    return Err(e.under_index(i));
                },
            }
            i += 1;
        }
        assert(out.deep_view() + Seq::<SubmodelElementView>::empty() =~= out.deep_view());
        Ok(out)
    }

    /// A copy of each of the values, in their order.
    #[verifier::loop_isolation(false)]
    pub fn clone_list(items: &Vec<SubmodelElement>) -> (r: Vec<SubmodelElement>)
        ensures
            r.deep_view() == items.deep_view(),
        decreases items, 0nat,
    {
        let mut out: Vec<SubmodelElement> = Vec::new();
        let mut i: usize = 0;
        while i < items.len()
            invariant
                i <= items.len(),
                out.len() == i,
                forall|j: int| 0 <= j < i ==> (#[trigger] out[j])@ == items[j]@,
            decreases items.len() - i,
        {
            out.push(items[i].clone());
            i += 1;
        }
        assert(out.deep_view() =~= items.deep_view());
        out
    }
}

impl SubmodelElementView {
    /// Whether the value and everything below it keeps what a document must
    /// keep.
    pub open spec fn consistent(self) -> bool
        decreases self, 0nat,
    {
        match self {
            SubmodelElementView::RelationshipElement(x) => x.consistent(),
            SubmodelElementView::AnnotatedRelationshipElement(x) => x.consistent(),
            SubmodelElementView::Property(x) => x.consistent(),
            SubmodelElementView::MultiLanguageProperty(x) => x.consistent(),
            SubmodelElementView::Range(x) => x.consistent(),
            SubmodelElementView::Blob(x) => x.consistent(),
            SubmodelElementView::File(x) => x.consistent(),
            SubmodelElementView::ReferenceElement(x) => x.consistent(),
            SubmodelElementView::Capability(x) => x.consistent(),
            SubmodelElementView::SubmodelElementList(x) => x.consistent(),
            SubmodelElementView::SubmodelElementCollection(x) => x.consistent(),
            SubmodelElementView::Entity(x) => x.consistent(),
            SubmodelElementView::BasicEventElement(x) => x.consistent(),
            SubmodelElementView::Operation(x) => x.consistent(),
        }
    }

    /// The short ID of the element, if it has one.
    pub open spec fn id_short(self) -> Option<Seq<char>> {
        match self {
            SubmodelElementView::RelationshipElement(x) => x.id_short,
            SubmodelElementView::AnnotatedRelationshipElement(x) => x.id_short,
            SubmodelElementView::Property(x) => x.id_short,
            SubmodelElementView::MultiLanguageProperty(x) => x.id_short,
            SubmodelElementView::Range(x) => x.id_short,
            SubmodelElementView::Blob(x) => x.id_short,
            SubmodelElementView::File(x) => x.id_short,
            SubmodelElementView::ReferenceElement(x) => x.id_short,
            SubmodelElementView::Capability(x) => x.id_short,
            SubmodelElementView::SubmodelElementList(x) => x.id_short,
            SubmodelElementView::SubmodelElementCollection(x) => x.id_short,
            SubmodelElementView::Entity(x) => x.id_short,
            SubmodelElementView::BasicEventElement(x) => x.id_short,
            SubmodelElementView::Operation(x) => x.id_short,
        }
    }

    /// The short IDs of the elements, in their order; absence where an
    /// element has none.
    pub open spec fn id_shorts(items: Seq<SubmodelElementView>) -> Seq<Option<Seq<char>>> {
        Seq::new(items.len(), |i: int| items[i].id_short())
    }

    /// Whether no short ID occurs twice among the elements.
    pub open spec fn id_shorts_distinct(items: Seq<SubmodelElementView>) -> bool {
        distinct(present_texts(SubmodelElementView::id_shorts(items)))
    }

    /// Whether the element is of the kind `kind`. An abstract kind takes each
    /// of the types that it stands for.
    pub open spec fn is_of_kind(self, kind: AasSubmodelElements) -> bool {
        match kind {
            AasSubmodelElements::SubmodelElement => true,
            AasSubmodelElements::AnnotatedRelationshipElement =>
                self is AnnotatedRelationshipElement,
            AasSubmodelElements::Entity => self is Entity,
            AasSubmodelElements::SubmodelElementCollection => self is SubmodelElementCollection,
            AasSubmodelElements::SubmodelElementList => self is SubmodelElementList,
            AasSubmodelElements::BasicEventElement => self is BasicEventElement,
            AasSubmodelElements::Blob => self is Blob,
            AasSubmodelElements::Capability => self is Capability,
            AasSubmodelElements::DataElement => self is Property || self is MultiLanguageProperty
                || self is Range || self is Blob || self is File || self is ReferenceElement,
            AasSubmodelElements::EventElement => self is BasicEventElement,
            AasSubmodelElements::File => self is File,
            AasSubmodelElements::MultiLanguageProperty => self is MultiLanguageProperty,
            AasSubmodelElements::Operation => self is Operation,
            AasSubmodelElements::Property => self is Property,
            AasSubmodelElements::Range => self is Range,
            AasSubmodelElements::ReferenceElement => self is ReferenceElement,
            AasSubmodelElements::RelationshipElement => self is RelationshipElement
                || self is AnnotatedRelationshipElement,
        }
    }

    /// The data type of the value of the element, where the element is one
    /// that declares it: a property or a range.
    pub open spec fn value_type(self) -> Option<DataTypeDefXsd> {
        match self {
            SubmodelElementView::Property(x) => Some(x.value_type),
            SubmodelElementView::Range(x) => Some(x.value_type),
            _ => None,
        }
    }

    /// Whether the element fits a list that declares the kind `kind` and,
    /// where `value_type` is given, that data type for the values of its
    /// elements.
    pub open spec fn fits(self, kind: AasSubmodelElements, value_type: Option<DataTypeDefXsd>)
        -> bool {
        &&& self.is_of_kind(kind)
        &&& (value_type matches Some(t) ==> (self.value_type() matches Some(u) ==> u == t))
    }
}

impl SubmodelElement {
    /// Whether the value and everything below it keeps what a document must
    /// keep.
    pub fn is_consistent(&self) -> (b: bool)
        ensures
            b == self@.consistent(),
        decreases self, 1nat,
    {
        match self {
            SubmodelElement::RelationshipElement(x) => x.is_consistent(),
            SubmodelElement::AnnotatedRelationshipElement(x) => x.is_consistent(),
            SubmodelElement::Property(x) => x.is_consistent(),
            SubmodelElement::MultiLanguageProperty(x) => x.is_consistent(),
            SubmodelElement::Range(x) => x.is_consistent(),
            SubmodelElement::Blob(x) => x.is_consistent(),
            SubmodelElement::File(x) => x.is_consistent(),
            SubmodelElement::ReferenceElement(x) => x.is_consistent(),
            SubmodelElement::Capability(x) => x.is_consistent(),
            SubmodelElement::SubmodelElementList(x) => x.is_consistent(),
            SubmodelElement::SubmodelElementCollection(x) => x.is_consistent(),
            SubmodelElement::Entity(x) => x.is_consistent(),
            SubmodelElement::BasicEventElement(x) => x.is_consistent(),
            SubmodelElement::Operation(x) => x.is_consistent(),
        }
    }

    /// Whether each of the values keeps what a document must keep.
    #[verifier::loop_isolation(false)]
    pub fn all_consistent(items: &Vec<SubmodelElement>) -> (b: bool)
        ensures
            b == (forall|i: int|
                0 <= i < items.len() ==> (#[trigger] items.deep_view()[i]).consistent()),
        decreases items, 0nat,
    {
        let mut i: usize = 0;
        while i < items.len()
            invariant
                i <= items.len(),
                forall|j: int| 0 <= j < i ==> (#[trigger] items.deep_view()[j]).consistent(),
            decreases items.len() - i,
        {
            if !items[i].is_consistent() {
                assert(!items.deep_view()[i as int].consistent());
                return false;
            }
            i += 1;
        }
        true
    }

    /// Whether no short ID occurs twice among the elements.
    pub fn id_shorts_distinct(items: &Vec<SubmodelElement>) -> (b: bool)
        ensures
            b == SubmodelElementView::id_shorts_distinct(items.deep_view()),
    {
        let ghost all = SubmodelElementView::id_shorts(items.deep_view());
        let mut found: Vec<&String> = Vec::new();
        let mut i: usize = 0;
        assert(all.take(0) =~= Seq::empty());
        while i < items.len()
            invariant
                i <= items.len(),
                all == SubmodelElementView::id_shorts(items.deep_view()),
                found.deep_view() == present_texts(all.take(i as int)),
            decreases items.len() - i,
        {
            let ghost before = found.deep_view();
            let id_short = items[i].get_id_short();
            proof {
                assert(all.take(i + 1).drop_last() =~= all.take(i as int));
                assert(all.take(i + 1).last() == all[i as int]);
                assert(all[i as int] == items.deep_view()[i as int].id_short());
                assert(id_short.deep_view() == all[i as int]);
            }
            match id_short {
                Some(text) => {
                    found.push(text);
                    assert(found.deep_view() =~= before.push(text@));
                },
                None => {},
            }
            i += 1;
        }
        assert(all.take(all.len() as int) =~= all);
        all_distinct(&found)
    }

    /// Whether the element is of the kind `kind`. An abstract kind takes each
    /// of the types that it stands for.
    pub fn is_of_kind(&self, kind: AasSubmodelElements) -> (b: bool)
        ensures
            b == self@.is_of_kind(kind),
    {
        match kind {
            AasSubmodelElements::SubmodelElement => true,
            AasSubmodelElements::AnnotatedRelationshipElement => match self {
                SubmodelElement::AnnotatedRelationshipElement(_) => true,
                _ => false,
            },
            AasSubmodelElements::Entity => match self {
                SubmodelElement::Entity(_) => true,
                _ => false,
            },
            AasSubmodelElements::SubmodelElementCollection => match self {
                SubmodelElement::SubmodelElementCollection(_) => true,
                _ => false,
            },
            AasSubmodelElements::SubmodelElementList => match self {
                SubmodelElement::SubmodelElementList(_) => true,
                _ => false,
            },
            AasSubmodelElements::BasicEventElement => match self {
                SubmodelElement::BasicEventElement(_) => true,
                _ => false,
            },
            AasSubmodelElements::Blob => match self {
                SubmodelElement::Blob(_) => true,
                _ => false,
            },
            AasSubmodelElements::Capability => match self {
                SubmodelElement::Capability(_) => true,
                _ => false,
            },
            AasSubmodelElements::DataElement => match self {
                SubmodelElement::Property(_) | SubmodelElement::MultiLanguageProperty(
                    _) | SubmodelElement::Range(_) | SubmodelElement::Blob(
                    _) | SubmodelElement::File(_) | SubmodelElement::ReferenceElement(_) =>
                    true,
                _ => false,
            },
            AasSubmodelElements::EventElement => match self {
                SubmodelElement::BasicEventElement(_) => true,
                _ => false,
            },
            AasSubmodelElements::File => match self {
                SubmodelElement::File(_) => true,
                _ => false,
            },
            AasSubmodelElements::MultiLanguageProperty => match self {
                SubmodelElement::MultiLanguageProperty(_) => true,
                _ => false,
            },
            AasSubmodelElements::Operation => match self {
                SubmodelElement::Operation(_) => true,
                _ => false,
            },
            AasSubmodelElements::Property => match self {
                SubmodelElement::Property(_) => true,
                _ => false,
            },
            AasSubmodelElements::Range => match self {
                SubmodelElement::Range(_) => true,
                _ => false,
            },
            AasSubmodelElements::ReferenceElement => match self {
                SubmodelElement::ReferenceElement(_) => true,
                _ => false,
            },
            AasSubmodelElements::RelationshipElement => match self {
                SubmodelElement::RelationshipElement(
                    _) | SubmodelElement::AnnotatedRelationshipElement(_) => true,
                _ => false,
            },
        }
    }

    /// The data type of the value of the element, where the element is one
    /// that declares it: a property or a range.
    pub fn value_type(&self) -> (r: Option<DataTypeDefXsd>)
        ensures
            r == self@.value_type(),
    {
        match self {
            SubmodelElement::Property(x) => Some(*x.get_value_type()),
            SubmodelElement::Range(x) => Some(*x.get_value_type()),
            _ => None,
        }
    }

    /// Whether the element fits a list that declares the kind `kind` and,
    /// where `value_type` is given, that data type for the values of its
    /// elements.
    pub fn fits(&self, kind: AasSubmodelElements, value_type: Option<DataTypeDefXsd>) -> (b: bool)
        ensures
            b == self@.fits(kind, value_type),
    {
        if !self.is_of_kind(kind) {
            return false;
        }
        match (value_type, self.value_type()) {
            (Some(t), Some(u)) => t == u,
            _ => true,
        }
    }

    /// Whether each of the elements fits a list that declares `kind` and
    /// `value_type`.
    pub fn all_fit(
        items: &Vec<SubmodelElement>,
        kind: AasSubmodelElements,
        value_type: Option<DataTypeDefXsd>,
    ) -> (b: bool)
        ensures
            b == (forall|i: int|
                0 <= i < items.len() ==> (#[trigger] items.deep_view()[i]).fits(kind, value_type)),
    {
        let mut i: usize = 0;
        while i < items.len()
            invariant
                i <= items.len(),
                forall|j: int|
                    0 <= j < i ==> (#[trigger] items.deep_view()[j]).fits(kind, value_type),
            decreases items.len() - i,
        {
            if !items[i].fits(kind, value_type) {
                assert(!items.deep_view()[i as int].fits(kind, value_type));
                return false;
            }
            i += 1;
        }
        true
    }
}

} // verus!
