use vstd::prelude::*;
use crate::error::ModelError;
use crate::names::lemma_name_codes;
use crate::structs::blob::{Blob, BlobView};
use crate::structs::file::{File, FileView};
use crate::structs::multi_language_name_type::MultiLanguageNameType;
use crate::structs::multi_language_property::{MultiLanguageProperty, MultiLanguagePropertyView};
use crate::structs::multi_language_text_type::MultiLanguageTextType;
use crate::structs::property::{Property, PropertyView};
use crate::structs::qualifier::{Qualifier, QualifierView};
use crate::structs::range::{Range, RangeView};
use crate::structs::reference::{Reference, ReferenceView};
use crate::structs::reference_element::{ReferenceElement, ReferenceElementView};
use crate::traits::data_element::TDataElement;
use crate::traits::has_data_specification::THasDataSpecification;
use crate::traits::has_semantics::{SemanticsAspect, THasSemantics};
use crate::traits::qualifiable::TQualifiable;
use crate::traits::referable::{ReferableAspect, TReferable};
use crate::traits::submodel_element::TSubmodelElement;
use crate::validation::{all_distinct, distinct, present_texts};
use crate::wire::{
    add_member,
    fail,
    fail_at,
    find,
    lemma_lookup_push,
    lookup,
    member,
    outcome,
    same_text,
    tagged,
    DecodeError,
    DecodeErrorView,
    DecodeFault,
    Field,
    FieldView,
    PathStepView,
    Wire,
    WireView,
};

verus! {

/// Any of the data elements: the submodel elements that are not further composed of other
/// submodel elements. A place of this type accepts no container.
#[derive(Debug, PartialEq)]
pub enum DataElement {
    Property(Property),
    MultiLanguageProperty(MultiLanguageProperty),
    Range(Range),
    Blob(Blob),
    File(File),
    ReferenceElement(ReferenceElement),
}

/// The mathematical form of a [`DataElement`].
#[verifier::ext_equal]
pub enum DataElementView {
    Property(PropertyView),
    MultiLanguageProperty(MultiLanguagePropertyView),
    Range(RangeView),
    Blob(BlobView),
    File(FileView),
    ReferenceElement(ReferenceElementView),
}

impl View for DataElement {
    type V = DataElementView;

    open spec fn view(&self) -> DataElementView {
        match self {
            DataElement::Property(x) => DataElementView::Property(x@),
            DataElement::MultiLanguageProperty(x) => DataElementView::MultiLanguageProperty(x@),
            DataElement::Range(x) => DataElementView::Range(x@),
            DataElement::Blob(x) => DataElementView::Blob(x@),
            DataElement::File(x) => DataElementView::File(x@),
            DataElement::ReferenceElement(x) => DataElementView::ReferenceElement(x@),
        }
    }
}

impl DeepView for DataElement {
    type V = DataElementView;

    open spec fn deep_view(&self) -> DataElementView {
        self@
    }
}

impl Clone for DataElement {
    fn clone(&self) -> (r: DataElement)
        ensures
            r@ == self@,
    {
        match self {
            DataElement::Property(x) => DataElement::Property(x.clone()),
            DataElement::MultiLanguageProperty(x) => DataElement::MultiLanguageProperty(x.clone()),
            DataElement::Range(x) => DataElement::Range(x.clone()),
            DataElement::Blob(x) => DataElement::Blob(x.clone()),
            DataElement::File(x) => DataElement::File(x.clone()),
            DataElement::ReferenceElement(x) => DataElement::ReferenceElement(x.clone()),
        }
    }
}

impl TReferable for DataElement {
    open spec fn referable(&self) -> ReferableAspect {
        match self {
            DataElement::Property(x) => x.referable(),
            DataElement::MultiLanguageProperty(x) => x.referable(),
            DataElement::Range(x) => x.referable(),
            DataElement::Blob(x) => x.referable(),
            DataElement::File(x) => x.referable(),
            DataElement::ReferenceElement(x) => x.referable(),
        }
    }

    fn set_category(&mut self, category: String)
        ensures
            final(self)@ ==
                old(self)@.with_referable(ReferableAspect { category: Some(category@),
                ..old(self).referable() }),
    {
        match self {
            DataElement::Property(x) => x.set_category(category),
            DataElement::MultiLanguageProperty(x) => x.set_category(category),
            DataElement::Range(x) => x.set_category(category),
            DataElement::Blob(x) => x.set_category(category),
            DataElement::File(x) => x.set_category(category),
            DataElement::ReferenceElement(x) => x.set_category(category),
        }
    }

    fn get_category(&self) -> (r: Option<&String>) {
        match self {
            DataElement::Property(x) => x.get_category(),
            DataElement::MultiLanguageProperty(x) => x.get_category(),
            DataElement::Range(x) => x.get_category(),
            DataElement::Blob(x) => x.get_category(),
            DataElement::File(x) => x.get_category(),
            DataElement::ReferenceElement(x) => x.get_category(),
        }
    }

    fn get_mut_category(&mut self) -> (r: Option<&mut String>)
        ensures
            match r {
                Some(m) =>
                    final(self)@ ==
                    old(self)@.with_referable(ReferableAspect { category: Some(final(m)@),
                    ..old(self).referable() }),
                None => final(self)@ == old(self)@,
            },
    {
        match self {
            DataElement::Property(x) => x.get_mut_category(),
            DataElement::MultiLanguageProperty(x) => x.get_mut_category(),
            DataElement::Range(x) => x.get_mut_category(),
            DataElement::Blob(x) => x.get_mut_category(),
            DataElement::File(x) => x.get_mut_category(),
            DataElement::ReferenceElement(x) => x.get_mut_category(),
        }
    }

    fn set_id_short(&mut self, id_short: String)
        ensures
            final(self)@ ==
                old(self)@.with_referable(ReferableAspect { id_short: Some(id_short@),
                ..old(self).referable() }),
    {
        match self {
            DataElement::Property(x) => x.set_id_short(id_short),
            DataElement::MultiLanguageProperty(x) => x.set_id_short(id_short),
            DataElement::Range(x) => x.set_id_short(id_short),
            DataElement::Blob(x) => x.set_id_short(id_short),
            DataElement::File(x) => x.set_id_short(id_short),
            DataElement::ReferenceElement(x) => x.set_id_short(id_short),
        }
    }

    fn get_id_short(&self) -> (r: Option<&String>) {
        match self {
            DataElement::Property(x) => x.get_id_short(),
            DataElement::MultiLanguageProperty(x) => x.get_id_short(),
            DataElement::Range(x) => x.get_id_short(),
            DataElement::Blob(x) => x.get_id_short(),
            DataElement::File(x) => x.get_id_short(),
            DataElement::ReferenceElement(x) => x.get_id_short(),
        }
    }

    fn get_mut_id_short(&mut self) -> (r: Option<&mut String>)
        ensures
            match r {
                Some(m) =>
                    final(self)@ ==
                    old(self)@.with_referable(ReferableAspect { id_short: Some(final(m)@),
                    ..old(self).referable() }),
                None => final(self)@ == old(self)@,
            },
    {
        match self {
            DataElement::Property(x) => x.get_mut_id_short(),
            DataElement::MultiLanguageProperty(x) => x.get_mut_id_short(),
            DataElement::Range(x) => x.get_mut_id_short(),
            DataElement::Blob(x) => x.get_mut_id_short(),
            DataElement::File(x) => x.get_mut_id_short(),
            DataElement::ReferenceElement(x) => x.get_mut_id_short(),
        }
    }

    fn set_display_name(&mut self, display_name: Vec<MultiLanguageNameType>)
        ensures
            final(self)@ ==
                old(self)@.with_referable(ReferableAspect { display_name: display_name.deep_view(),
                ..old(self).referable() }),
    {
        match self {
            DataElement::Property(x) => x.set_display_name(display_name),
            DataElement::MultiLanguageProperty(x) => x.set_display_name(display_name),
            DataElement::Range(x) => x.set_display_name(display_name),
            DataElement::Blob(x) => x.set_display_name(display_name),
            DataElement::File(x) => x.set_display_name(display_name),
            DataElement::ReferenceElement(x) => x.set_display_name(display_name),
        }
    }

    fn get_display_name(&self) -> (r: &Vec<MultiLanguageNameType>) {
        match self {
            DataElement::Property(x) => x.get_display_name(),
            DataElement::MultiLanguageProperty(x) => x.get_display_name(),
            DataElement::Range(x) => x.get_display_name(),
            DataElement::Blob(x) => x.get_display_name(),
            DataElement::File(x) => x.get_display_name(),
            DataElement::ReferenceElement(x) => x.get_display_name(),
        }
    }

    fn get_mut_display_name(&mut self) -> (r: &mut Vec<MultiLanguageNameType>)
        ensures
            final(self)@ ==
                old(self)@.with_referable(ReferableAspect { display_name: final(r).deep_view(),
                ..old(self).referable() }),
    {
        match self {
            DataElement::Property(x) => x.get_mut_display_name(),
            DataElement::MultiLanguageProperty(x) => x.get_mut_display_name(),
            DataElement::Range(x) => x.get_mut_display_name(),
            DataElement::Blob(x) => x.get_mut_display_name(),
            DataElement::File(x) => x.get_mut_display_name(),
            DataElement::ReferenceElement(x) => x.get_mut_display_name(),
        }
    }

    fn add_display_name(&mut self, display_name: MultiLanguageNameType)
        ensures
            final(self)@ ==
                old(self)@.with_referable(ReferableAspect {
                display_name: old(self).referable().display_name.push(display_name@),
                ..old(self).referable() }),
    {
        match self {
            DataElement::Property(x) => x.add_display_name(display_name),
            DataElement::MultiLanguageProperty(x) => x.add_display_name(display_name),
            DataElement::Range(x) => x.add_display_name(display_name),
            DataElement::Blob(x) => x.add_display_name(display_name),
            DataElement::File(x) => x.add_display_name(display_name),
            DataElement::ReferenceElement(x) => x.add_display_name(display_name),
        }
    }

    fn remove_display_name(&mut self, index: usize) -> (r: Result<MultiLanguageNameType,
        ModelError>)
        ensures
            match r {
                Ok(item) =>
                    final(self)@ ==
                    old(self)@.with_referable(ReferableAspect {
                    display_name: old(self).referable().display_name.remove(index as int),
                    ..old(self).referable() }),
                Err(e) => final(self)@ == old(self)@,
            },
    {
        match self {
            DataElement::Property(x) => x.remove_display_name(index),
            DataElement::MultiLanguageProperty(x) => x.remove_display_name(index),
            DataElement::Range(x) => x.remove_display_name(index),
            DataElement::Blob(x) => x.remove_display_name(index),
            DataElement::File(x) => x.remove_display_name(index),
            DataElement::ReferenceElement(x) => x.remove_display_name(index),
        }
    }

    fn set_description(&mut self, description: Vec<MultiLanguageTextType>)
        ensures
            final(self)@ ==
                old(self)@.with_referable(ReferableAspect { description: description.deep_view(),
                ..old(self).referable() }),
    {
        match self {
            DataElement::Property(x) => x.set_description(description),
            DataElement::MultiLanguageProperty(x) => x.set_description(description),
            DataElement::Range(x) => x.set_description(description),
            DataElement::Blob(x) => x.set_description(description),
            DataElement::File(x) => x.set_description(description),
            DataElement::ReferenceElement(x) => x.set_description(description),
        }
    }

    fn get_description(&self) -> (r: &Vec<MultiLanguageTextType>) {
        match self {
            DataElement::Property(x) => x.get_description(),
            DataElement::MultiLanguageProperty(x) => x.get_description(),
            DataElement::Range(x) => x.get_description(),
            DataElement::Blob(x) => x.get_description(),
            DataElement::File(x) => x.get_description(),
            DataElement::ReferenceElement(x) => x.get_description(),
        }
    }

    fn get_mut_description(&mut self) -> (r: &mut Vec<MultiLanguageTextType>)
        ensures
            final(self)@ ==
                old(self)@.with_referable(ReferableAspect { description: final(r).deep_view(),
                ..old(self).referable() }),
    {
        match self {
            DataElement::Property(x) => x.get_mut_description(),
            DataElement::MultiLanguageProperty(x) => x.get_mut_description(),
            DataElement::Range(x) => x.get_mut_description(),
            DataElement::Blob(x) => x.get_mut_description(),
            DataElement::File(x) => x.get_mut_description(),
            DataElement::ReferenceElement(x) => x.get_mut_description(),
        }
    }

    fn add_description(&mut self, description: MultiLanguageTextType)
        ensures
            final(self)@ ==
                old(self)@.with_referable(ReferableAspect {
                description: old(self).referable().description.push(description@),
                ..old(self).referable() }),
    {
        match self {
            DataElement::Property(x) => x.add_description(description),
            DataElement::MultiLanguageProperty(x) => x.add_description(description),
            DataElement::Range(x) => x.add_description(description),
            DataElement::Blob(x) => x.add_description(description),
            DataElement::File(x) => x.add_description(description),
            DataElement::ReferenceElement(x) => x.add_description(description),
        }
    }

    fn remove_description(&mut self, index: usize) -> (r: Result<MultiLanguageTextType, ModelError>)
        ensures
            match r {
                Ok(item) =>
                    final(self)@ ==
                    old(self)@.with_referable(ReferableAspect {
                    description: old(self).referable().description.remove(index as int),
                    ..old(self).referable() }),
                Err(e) => final(self)@ == old(self)@,
            },
    {
        match self {
            DataElement::Property(x) => x.remove_description(index),
            DataElement::MultiLanguageProperty(x) => x.remove_description(index),
            DataElement::Range(x) => x.remove_description(index),
            DataElement::Blob(x) => x.remove_description(index),
            DataElement::File(x) => x.remove_description(index),
            DataElement::ReferenceElement(x) => x.remove_description(index),
        }
    }
}

impl THasSemantics for DataElement {
    open spec fn semantics(&self) -> SemanticsAspect {
        match self {
            DataElement::Property(x) => x.semantics(),
            DataElement::MultiLanguageProperty(x) => x.semantics(),
            DataElement::Range(x) => x.semantics(),
            DataElement::Blob(x) => x.semantics(),
            DataElement::File(x) => x.semantics(),
            DataElement::ReferenceElement(x) => x.semantics(),
        }
    }

    fn set_semantic_id(&mut self, semantic_id: Reference)
        ensures
            final(self)@ ==
                old(self)@.with_semantics(SemanticsAspect { semantic_id: Some(semantic_id@),
                ..old(self).semantics() }),
    {
        match self {
            DataElement::Property(x) => x.set_semantic_id(semantic_id),
            DataElement::MultiLanguageProperty(x) => x.set_semantic_id(semantic_id),
            DataElement::Range(x) => x.set_semantic_id(semantic_id),
            DataElement::Blob(x) => x.set_semantic_id(semantic_id),
            DataElement::File(x) => x.set_semantic_id(semantic_id),
            DataElement::ReferenceElement(x) => x.set_semantic_id(semantic_id),
        }
    }

    fn get_semantic_id(&self) -> (r: Option<&Reference>) {
        match self {
            DataElement::Property(x) => x.get_semantic_id(),
            DataElement::MultiLanguageProperty(x) => x.get_semantic_id(),
            DataElement::Range(x) => x.get_semantic_id(),
            DataElement::Blob(x) => x.get_semantic_id(),
            DataElement::File(x) => x.get_semantic_id(),
            DataElement::ReferenceElement(x) => x.get_semantic_id(),
        }
    }

    fn get_mut_semantic_id(&mut self) -> (r: Option<&mut Reference>)
        ensures
            match r {
                Some(m) =>
                    final(self)@ ==
                    old(self)@.with_semantics(SemanticsAspect { semantic_id: Some(final(m)@),
                    ..old(self).semantics() }),
                None => final(self)@ == old(self)@,
            },
    {
        match self {
            DataElement::Property(x) => x.get_mut_semantic_id(),
            DataElement::MultiLanguageProperty(x) => x.get_mut_semantic_id(),
            DataElement::Range(x) => x.get_mut_semantic_id(),
            DataElement::Blob(x) => x.get_mut_semantic_id(),
            DataElement::File(x) => x.get_mut_semantic_id(),
            DataElement::ReferenceElement(x) => x.get_mut_semantic_id(),
        }
    }

    fn set_supplemental_semantic_ids(&mut self, supplemental_semantic_ids: Vec<Reference>)
        ensures
            final(self)@ ==
                old(self)@.with_semantics(SemanticsAspect {
                supplemental_semantic_ids: supplemental_semantic_ids.deep_view(),
                ..old(self).semantics() }),
    {
        match self {
            DataElement::Property(x) => x.set_supplemental_semantic_ids(supplemental_semantic_ids),
            DataElement::MultiLanguageProperty(x) =>
                x.set_supplemental_semantic_ids(supplemental_semantic_ids),
            DataElement::Range(x) => x.set_supplemental_semantic_ids(supplemental_semantic_ids),
            DataElement::Blob(x) => x.set_supplemental_semantic_ids(supplemental_semantic_ids),
            DataElement::File(x) => x.set_supplemental_semantic_ids(supplemental_semantic_ids),
            DataElement::ReferenceElement(x) =>
                x.set_supplemental_semantic_ids(supplemental_semantic_ids),
        }
    }

    fn get_supplemental_semantic_ids(&self) -> (r: &Vec<Reference>) {
        match self {
            DataElement::Property(x) => x.get_supplemental_semantic_ids(),
            DataElement::MultiLanguageProperty(x) => x.get_supplemental_semantic_ids(),
            DataElement::Range(x) => x.get_supplemental_semantic_ids(),
            DataElement::Blob(x) => x.get_supplemental_semantic_ids(),
            DataElement::File(x) => x.get_supplemental_semantic_ids(),
            DataElement::ReferenceElement(x) => x.get_supplemental_semantic_ids(),
        }
    }

    fn get_mut_supplemental_semantic_ids(&mut self) -> (r: &mut Vec<Reference>)
        ensures
            final(self)@ ==
                old(self)@.with_semantics(SemanticsAspect {
                supplemental_semantic_ids: final(r).deep_view(), ..old(self).semantics() }),
    {
        match self {
            DataElement::Property(x) => x.get_mut_supplemental_semantic_ids(),
            DataElement::MultiLanguageProperty(x) => x.get_mut_supplemental_semantic_ids(),
            DataElement::Range(x) => x.get_mut_supplemental_semantic_ids(),
            DataElement::Blob(x) => x.get_mut_supplemental_semantic_ids(),
            DataElement::File(x) => x.get_mut_supplemental_semantic_ids(),
            DataElement::ReferenceElement(x) => x.get_mut_supplemental_semantic_ids(),
        }
    }

    fn add_supplemental_semantic_id(&mut self, supplemental_semantic_id: Reference)
        ensures
            final(self)@ ==
                old(self)@.with_semantics(SemanticsAspect {
                supplemental_semantic_ids: old(self).semantics().supplemental_semantic_ids.push(
                supplemental_semantic_id@), ..old(self).semantics() }),
    {
        match self {
            DataElement::Property(x) => x.add_supplemental_semantic_id(supplemental_semantic_id),
            DataElement::MultiLanguageProperty(x) =>
                x.add_supplemental_semantic_id(supplemental_semantic_id),
            DataElement::Range(x) => x.add_supplemental_semantic_id(supplemental_semantic_id),
            DataElement::Blob(x) => x.add_supplemental_semantic_id(supplemental_semantic_id),
            DataElement::File(x) => x.add_supplemental_semantic_id(supplemental_semantic_id),
            DataElement::ReferenceElement(x) =>
                x.add_supplemental_semantic_id(supplemental_semantic_id),
        }
    }

    fn remove_supplemental_semantic_id(&mut self, index: usize) -> (r: Result<Reference,
        ModelError>)
        ensures
            match r {
                Ok(item) =>
                    final(self)@ ==
                    old(self)@.with_semantics(SemanticsAspect {
                    supplemental_semantic_ids: old(self).semantics().supplemental_semantic_ids.remove(
                    index as int), ..old(self).semantics() }),
                Err(e) => final(self)@ == old(self)@,
            },
    {
        match self {
            DataElement::Property(x) => x.remove_supplemental_semantic_id(index),
            DataElement::MultiLanguageProperty(x) => x.remove_supplemental_semantic_id(index),
            DataElement::Range(x) => x.remove_supplemental_semantic_id(index),
            DataElement::Blob(x) => x.remove_supplemental_semantic_id(index),
            DataElement::File(x) => x.remove_supplemental_semantic_id(index),
            DataElement::ReferenceElement(x) => x.remove_supplemental_semantic_id(index),
        }
    }
}

impl TQualifiable for DataElement {
    open spec fn qualifiers_view(&self) -> Seq<QualifierView> {
        match self {
            DataElement::Property(x) => x.qualifiers_view(),
            DataElement::MultiLanguageProperty(x) => x.qualifiers_view(),
            DataElement::Range(x) => x.qualifiers_view(),
            DataElement::Blob(x) => x.qualifiers_view(),
            DataElement::File(x) => x.qualifiers_view(),
            DataElement::ReferenceElement(x) => x.qualifiers_view(),
        }
    }

    fn set_qualifiers(&mut self, qualifiers: Vec<Qualifier>)
        ensures
            final(self)@ == old(self)@.with_qualifiers(qualifiers.deep_view()),
    {
        match self {
            DataElement::Property(x) => x.set_qualifiers(qualifiers),
            DataElement::MultiLanguageProperty(x) => x.set_qualifiers(qualifiers),
            DataElement::Range(x) => x.set_qualifiers(qualifiers),
            DataElement::Blob(x) => x.set_qualifiers(qualifiers),
            DataElement::File(x) => x.set_qualifiers(qualifiers),
            DataElement::ReferenceElement(x) => x.set_qualifiers(qualifiers),
        }
    }

    fn get_qualifiers(&self) -> (r: &Vec<Qualifier>) {
        match self {
            DataElement::Property(x) => x.get_qualifiers(),
            DataElement::MultiLanguageProperty(x) => x.get_qualifiers(),
            DataElement::Range(x) => x.get_qualifiers(),
            DataElement::Blob(x) => x.get_qualifiers(),
            DataElement::File(x) => x.get_qualifiers(),
            DataElement::ReferenceElement(x) => x.get_qualifiers(),
        }
    }

    fn get_mut_qualifiers(&mut self) -> (r: &mut Vec<Qualifier>)
        ensures
            final(self)@ == old(self)@.with_qualifiers(final(r).deep_view()),
    {
        match self {
            DataElement::Property(x) => x.get_mut_qualifiers(),
            DataElement::MultiLanguageProperty(x) => x.get_mut_qualifiers(),
            DataElement::Range(x) => x.get_mut_qualifiers(),
            DataElement::Blob(x) => x.get_mut_qualifiers(),
            DataElement::File(x) => x.get_mut_qualifiers(),
            DataElement::ReferenceElement(x) => x.get_mut_qualifiers(),
        }
    }

    fn add_qualifier(&mut self, qualifier: Qualifier)
        ensures
            final(self)@ ==
                old(self)@.with_qualifiers(old(self).qualifiers_view().push(qualifier@)),
    {
        match self {
            DataElement::Property(x) => x.add_qualifier(qualifier),
            DataElement::MultiLanguageProperty(x) => x.add_qualifier(qualifier),
            DataElement::Range(x) => x.add_qualifier(qualifier),
            DataElement::Blob(x) => x.add_qualifier(qualifier),
            DataElement::File(x) => x.add_qualifier(qualifier),
            DataElement::ReferenceElement(x) => x.add_qualifier(qualifier),
        }
    }

    fn remove_qualifier(&mut self, index: usize) -> (r: Result<Qualifier, ModelError>)
        ensures
            match r {
                Ok(item) =>
                    final(self)@ ==
                    old(self)@.with_qualifiers(old(self).qualifiers_view().remove(
                    index as int)),
                Err(e) => final(self)@ == old(self)@,
            },
    {
        match self {
            DataElement::Property(x) => x.remove_qualifier(index),
            DataElement::MultiLanguageProperty(x) => x.remove_qualifier(index),
            DataElement::Range(x) => x.remove_qualifier(index),
            DataElement::Blob(x) => x.remove_qualifier(index),
            DataElement::File(x) => x.remove_qualifier(index),
            DataElement::ReferenceElement(x) => x.remove_qualifier(index),
        }
    }
}

impl THasDataSpecification for DataElement {
    open spec fn data_specifications_view(&self) -> Seq<ReferenceView> {
        match self {
            DataElement::Property(x) => x.data_specifications_view(),
            DataElement::MultiLanguageProperty(x) => x.data_specifications_view(),
            DataElement::Range(x) => x.data_specifications_view(),
            DataElement::Blob(x) => x.data_specifications_view(),
            DataElement::File(x) => x.data_specifications_view(),
            DataElement::ReferenceElement(x) => x.data_specifications_view(),
        }
    }

    fn set_data_specifications(&mut self, data_specifications: Vec<Reference>)
        ensures
            final(self)@ == old(self)@.with_data_specifications(data_specifications.deep_view()),
    {
        match self {
            DataElement::Property(x) => x.set_data_specifications(data_specifications),
            DataElement::MultiLanguageProperty(x) => x.set_data_specifications(data_specifications),
            DataElement::Range(x) => x.set_data_specifications(data_specifications),
            DataElement::Blob(x) => x.set_data_specifications(data_specifications),
            DataElement::File(x) => x.set_data_specifications(data_specifications),
            DataElement::ReferenceElement(x) => x.set_data_specifications(data_specifications),
        }
    }

    fn get_data_specifications(&self) -> (r: &Vec<Reference>) {
        match self {
            DataElement::Property(x) => x.get_data_specifications(),
            DataElement::MultiLanguageProperty(x) => x.get_data_specifications(),
            DataElement::Range(x) => x.get_data_specifications(),
            DataElement::Blob(x) => x.get_data_specifications(),
            DataElement::File(x) => x.get_data_specifications(),
            DataElement::ReferenceElement(x) => x.get_data_specifications(),
        }
    }

    fn get_mut_data_specifications(&mut self) -> (r: &mut Vec<Reference>)
        ensures
            final(self)@ == old(self)@.with_data_specifications(final(r).deep_view()),
    {
        match self {
            DataElement::Property(x) => x.get_mut_data_specifications(),
            DataElement::MultiLanguageProperty(x) => x.get_mut_data_specifications(),
            DataElement::Range(x) => x.get_mut_data_specifications(),
            DataElement::Blob(x) => x.get_mut_data_specifications(),
            DataElement::File(x) => x.get_mut_data_specifications(),
            DataElement::ReferenceElement(x) => x.get_mut_data_specifications(),
        }
    }

    fn add_data_specification(&mut self, data_specification: Reference)
        ensures
            final(self)@ ==
                old(self)@.with_data_specifications(old(self).data_specifications_view().push(
                data_specification@)),
    {
        match self {
            DataElement::Property(x) => x.add_data_specification(data_specification),
            DataElement::MultiLanguageProperty(x) => x.add_data_specification(data_specification),
            DataElement::Range(x) => x.add_data_specification(data_specification),
            DataElement::Blob(x) => x.add_data_specification(data_specification),
            DataElement::File(x) => x.add_data_specification(data_specification),
            DataElement::ReferenceElement(x) => x.add_data_specification(data_specification),
        }
    }

    fn remove_data_specification(&mut self, index: usize) -> (r: Result<Reference, ModelError>)
        ensures
            match r {
                Ok(item) =>
                    final(self)@ ==
                    old(self)@.with_data_specifications(
                    old(self).data_specifications_view().remove(index as int)),
                Err(e) => final(self)@ == old(self)@,
            },
    {
        match self {
            DataElement::Property(x) => x.remove_data_specification(index),
            DataElement::MultiLanguageProperty(x) => x.remove_data_specification(index),
            DataElement::Range(x) => x.remove_data_specification(index),
            DataElement::Blob(x) => x.remove_data_specification(index),
            DataElement::File(x) => x.remove_data_specification(index),
            DataElement::ReferenceElement(x) => x.remove_data_specification(index),
        }
    }
}

impl TSubmodelElement for DataElement {
}

impl TDataElement for DataElement {
}

impl DataElementView {
    /// Whether every reference in the value is well formed.
    pub open spec fn well_formed(self) -> bool {
        match self {
            DataElementView::Property(x) => x.well_formed(),
            DataElementView::MultiLanguageProperty(x) => x.well_formed(),
            DataElementView::Range(x) => x.well_formed(),
            DataElementView::Blob(x) => x.well_formed(),
            DataElementView::File(x) => x.well_formed(),
            DataElementView::ReferenceElement(x) => x.well_formed(),
        }
    }

    /// The same value with what it carries of the aspect replaced.
    pub open spec fn with_referable(self, aspect: ReferableAspect) -> DataElementView {
        match self {
            DataElementView::Property(x) => DataElementView::Property(x.with_referable(aspect)),
            DataElementView::MultiLanguageProperty(x) =>
                DataElementView::MultiLanguageProperty(x.with_referable(aspect)),
            DataElementView::Range(x) => DataElementView::Range(x.with_referable(aspect)),
            DataElementView::Blob(x) => DataElementView::Blob(x.with_referable(aspect)),
            DataElementView::File(x) => DataElementView::File(x.with_referable(aspect)),
            DataElementView::ReferenceElement(x) =>
                DataElementView::ReferenceElement(x.with_referable(aspect)),
        }
    }

    /// The same value with what it carries of the aspect replaced.
    pub open spec fn with_semantics(self, aspect: SemanticsAspect) -> DataElementView {
        match self {
            DataElementView::Property(x) => DataElementView::Property(x.with_semantics(aspect)),
            DataElementView::MultiLanguageProperty(x) =>
                DataElementView::MultiLanguageProperty(x.with_semantics(aspect)),
            DataElementView::Range(x) => DataElementView::Range(x.with_semantics(aspect)),
            DataElementView::Blob(x) => DataElementView::Blob(x.with_semantics(aspect)),
            DataElementView::File(x) => DataElementView::File(x.with_semantics(aspect)),
            DataElementView::ReferenceElement(x) =>
                DataElementView::ReferenceElement(x.with_semantics(aspect)),
        }
    }

    /// The same value with the additional qualifications of the element replaced.
    pub open spec fn with_qualifiers(self, qualifiers: Seq<QualifierView>) -> DataElementView {
        match self {
            DataElementView::Property(x) =>
                DataElementView::Property(x.with_qualifiers(qualifiers)),
            DataElementView::MultiLanguageProperty(x) =>
                DataElementView::MultiLanguageProperty(x.with_qualifiers(qualifiers)),
            DataElementView::Range(x) => DataElementView::Range(x.with_qualifiers(qualifiers)),
            DataElementView::Blob(x) => DataElementView::Blob(x.with_qualifiers(qualifiers)),
            DataElementView::File(x) => DataElementView::File(x.with_qualifiers(qualifiers)),
            DataElementView::ReferenceElement(x) =>
                DataElementView::ReferenceElement(x.with_qualifiers(qualifiers)),
        }
    }

    /// The same value with the external references to the data specification templates used by the
    /// element replaced.
    pub open spec fn with_data_specifications(self, data_specifications: Seq<ReferenceView>)
        -> DataElementView {
        match self {
            DataElementView::Property(x) =>
                DataElementView::Property(x.with_data_specifications(data_specifications)),
            DataElementView::MultiLanguageProperty(x) =>
                DataElementView::MultiLanguageProperty(x.with_data_specifications(
                data_specifications)),
            DataElementView::Range(x) =>
                DataElementView::Range(x.with_data_specifications(data_specifications)),
            DataElementView::Blob(x) =>
                DataElementView::Blob(x.with_data_specifications(data_specifications)),
            DataElementView::File(x) =>
                DataElementView::File(x.with_data_specifications(data_specifications)),
            DataElementView::ReferenceElement(x) =>
                DataElementView::ReferenceElement(x.with_data_specifications(data_specifications)),
        }
    }

    /// The name of the type of the value, which tells the variants apart on
    /// the wire.
    pub open spec fn model_type(self) -> Seq<char> {
        match self {
            DataElementView::Property(_) => "Property"@,
            DataElementView::MultiLanguageProperty(_) => "MultiLanguageProperty"@,
            DataElementView::Range(_) => "Range"@,
            DataElementView::Blob(_) => "Blob"@,
            DataElementView::File(_) => "File"@,
            DataElementView::ReferenceElement(_) => "ReferenceElement"@,
        }
    }

    /// Whether `tag` is the name of a type that is accepted in this place.
    pub open spec fn knows(tag: Seq<char>) -> bool {
        tag == "Property"@
            || tag == "MultiLanguageProperty"@
            || tag == "Range"@
            || tag == "Blob"@
            || tag == "File"@
            || tag == "ReferenceElement"@
    }

    /// The value on the wire: a record that begins with the name of the
    /// type and goes on with the members of the value.
    pub open spec fn to_wire(self) -> WireView {
        WireView::Record(
            match self {
                DataElementView::Property(x) => x.members_after(tagged(Some("Property"@))),
                DataElementView::MultiLanguageProperty(x) =>
                    x.members_after(tagged(Some("MultiLanguageProperty"@))),
                DataElementView::Range(x) => x.members_after(tagged(Some("Range"@))),
                DataElementView::Blob(x) => x.members_after(tagged(Some("Blob"@))),
                DataElementView::File(x) => x.members_after(tagged(Some("File"@))),
                DataElementView::ReferenceElement(x) =>
                    x.members_after(tagged(Some("ReferenceElement"@))),
            },
        )
    }

    /// The value that a wire value stands for: that of the type that the
    /// member `modelType` names. A name of no accepted type is refused.
    pub open spec fn from_wire(w: WireView) -> Result<DataElementView, DecodeErrorView> {
        match w {
            WireView::Record(fields) => match lookup(fields, "modelType"@) {
                None => Err(fail_at(DecodeFault::MissingField, "modelType"@)),
                Some(WireView::Text(tag)) => DataElementView::from_tagged(tag, fields),
                Some(_) => Err(fail_at(DecodeFault::ExpectedText, "modelType"@)),
            },
            _ => Err(fail(DecodeFault::ExpectedRecord)),
        }
    }

    /// The value of the type called `tag` that the members of a record stand
    /// for.
    #[verifier::opaque]
    pub open spec fn from_tagged(tag: Seq<char>, fields: Seq<FieldView>) -> Result<
        DataElementView,
        DecodeErrorView,
    > {
        if tag == "Property"@ {
            match PropertyView::from_members(fields) {
                Ok(x) => Ok(DataElementView::Property(x)),
                Err(e) => Err(e),
            }
        } else if tag == "MultiLanguageProperty"@ {
            match MultiLanguagePropertyView::from_members(fields) {
                Ok(x) => Ok(DataElementView::MultiLanguageProperty(x)),
                Err(e) => Err(e),
            }
        } else if tag == "Range"@ {
            match RangeView::from_members(fields) {
                Ok(x) => Ok(DataElementView::Range(x)),
                Err(e) => Err(e),
            }
        } else if tag == "Blob"@ {
            match BlobView::from_members(fields) {
                Ok(x) => Ok(DataElementView::Blob(x)),
                Err(e) => Err(e),
            }
        } else if tag == "File"@ {
            match FileView::from_members(fields) {
                Ok(x) => Ok(DataElementView::File(x)),
                Err(e) => Err(e),
            }
        } else if tag == "ReferenceElement"@ {
            match ReferenceElementView::from_members(fields) {
                Ok(x) => Ok(DataElementView::ReferenceElement(x)),
                Err(e) => Err(e),
            }
        } else {
            Err(fail_at(DecodeFault::UnknownDiscriminant, "modelType"@))
        }
    }

    /// A list of values on the wire: the values in their order.
    pub open spec fn list_to_wire(items: Seq<DataElementView>) -> WireView {
        WireView::List(
            Seq::new(
                items.len(),
                |i: int|
                    if 0 <= i < items.len() {
                        items[i].to_wire()
                    } else {
                        WireView::Null
                    },
            ),
        )
    }

    /// The values that the items from position `start` on stand for. The first
    /// item that stands for none decides the failure.
    pub open spec fn list_from_items(items: Seq<WireView>, start: nat) -> Result<
        Seq<DataElementView>,
        DecodeErrorView,
    >
        decreases items.len() - start,
    {
        if start >= items.len() {
            Ok(Seq::empty())
        } else {
            match DataElementView::from_wire(items[start as int]) {
                Err(e) => Err(e.under(PathStepView::Index(start as int))),
                Ok(v) => match DataElementView::list_from_items(items, start + 1) {
                    Ok(rest) => Ok(seq![v] + rest),
                    Err(e) => Err(e),
                },
            }
        }
    }

    /// The values that a list on the wire stands for.
    pub open spec fn list_from_wire(w: WireView) -> Result<Seq<DataElementView>, DecodeErrorView> {
        match w {
            WireView::List(items) => DataElementView::list_from_items(items, 0),
            _ => Err(fail(DecodeFault::ExpectedList)),
        }
    }

    /// What is encoded carries the exact name of its type as its type name.
    pub proof fn lemma_model_type(self)
        ensures
            self.to_wire() matches WireView::Record(fields) && lookup(fields, "modelType"@) == Some(
                WireView::Text(self.model_type()),
            ),
            DataElementView::knows(self.model_type()),
    {
        broadcast use lemma_lookup_push;

        match self {
            DataElementView::Property(x) => {
                x.lemma_model_type_kept(Some("Property"@));
            },
            DataElementView::MultiLanguageProperty(x) => {
                x.lemma_model_type_kept(Some("MultiLanguageProperty"@));
            },
            DataElementView::Range(x) => {
                x.lemma_model_type_kept(Some("Range"@));
            },
            DataElementView::Blob(x) => {
                x.lemma_model_type_kept(Some("Blob"@));
            },
            DataElementView::File(x) => {
                x.lemma_model_type_kept(Some("File"@));
            },
            DataElementView::ReferenceElement(x) => {
                x.lemma_model_type_kept(Some("ReferenceElement"@));
            },
        }
    }

    /// A record whose type name is that of no accepted type is refused.
    pub proof fn lemma_unknown_model_type(fields: Seq<FieldView>, tag: Seq<char>)
        requires
            lookup(fields, "modelType"@) == Some(WireView::Text(tag)),
            !DataElementView::knows(tag),
        ensures
            DataElementView::from_wire(WireView::Record(fields)) ==
                Err::<DataElementView, DecodeErrorView>(
                fail_at(DecodeFault::UnknownDiscriminant, "modelType"@),
            ),
    {
        reveal(DataElementView::from_tagged);
    }

    /// A value of the variant `Property` is found again from what it is on the wire.
    proof fn lemma_round_trip_property(x: PropertyView)
        requires
            x.well_formed(),
        ensures
            DataElementView::from_wire(DataElementView::Property(x).to_wire()) ==
                Ok::<DataElementView, DecodeErrorView>(
                DataElementView::Property(x),
            ),
    {
        broadcast use lemma_lookup_push;

        reveal(DataElementView::from_tagged);
        lemma_name_codes();
        x.lemma_members_round_trip(Some("Property"@));
        x.lemma_model_type_kept(Some("Property"@));
    }

    /// A value of the variant `MultiLanguageProperty` is found again from what it is on the wire.
    proof fn lemma_round_trip_multi_language_property(x: MultiLanguagePropertyView)
        requires
            x.well_formed(),
        ensures
            DataElementView::from_wire(DataElementView::MultiLanguageProperty(x).to_wire()) ==
                Ok::<DataElementView, DecodeErrorView>(
                DataElementView::MultiLanguageProperty(x),
            ),
    {
        broadcast use lemma_lookup_push;

        reveal(DataElementView::from_tagged);
        lemma_name_codes();
        x.lemma_members_round_trip(Some("MultiLanguageProperty"@));
        x.lemma_model_type_kept(Some("MultiLanguageProperty"@));
    }

    /// A value of the variant `Range` is found again from what it is on the wire.
    proof fn lemma_round_trip_range(x: RangeView)
        requires
            x.well_formed(),
        ensures
            DataElementView::from_wire(DataElementView::Range(x).to_wire()) ==
                Ok::<DataElementView, DecodeErrorView>(
                DataElementView::Range(x),
            ),
    {
        broadcast use lemma_lookup_push;

        reveal(DataElementView::from_tagged);
        lemma_name_codes();
        x.lemma_members_round_trip(Some("Range"@));
        x.lemma_model_type_kept(Some("Range"@));
    }

    /// A value of the variant `Blob` is found again from what it is on the wire.
    proof fn lemma_round_trip_blob(x: BlobView)
        requires
            x.well_formed(),
        ensures
            DataElementView::from_wire(DataElementView::Blob(x).to_wire()) ==
                Ok::<DataElementView, DecodeErrorView>(
                DataElementView::Blob(x),
            ),
    {
        broadcast use lemma_lookup_push;

        reveal(DataElementView::from_tagged);
        lemma_name_codes();
        x.lemma_members_round_trip(Some("Blob"@));
        x.lemma_model_type_kept(Some("Blob"@));
    }

    /// A value of the variant `File` is found again from what it is on the wire.
    proof fn lemma_round_trip_file(x: FileView)
        requires
            x.well_formed(),
        ensures
            DataElementView::from_wire(DataElementView::File(x).to_wire()) ==
                Ok::<DataElementView, DecodeErrorView>(
                DataElementView::File(x),
            ),
    {
        broadcast use lemma_lookup_push;

        reveal(DataElementView::from_tagged);
        lemma_name_codes();
        x.lemma_members_round_trip(Some("File"@));
        x.lemma_model_type_kept(Some("File"@));
    }

    /// A value of the variant `ReferenceElement` is found again from what it is on the wire.
    proof fn lemma_round_trip_reference_element(x: ReferenceElementView)
        requires
            x.well_formed(),
        ensures
            DataElementView::from_wire(DataElementView::ReferenceElement(x).to_wire()) ==
                Ok::<DataElementView, DecodeErrorView>(
                DataElementView::ReferenceElement(x),
            ),
    {
        broadcast use lemma_lookup_push;

        reveal(DataElementView::from_tagged);
        lemma_name_codes();
        x.lemma_members_round_trip(Some("ReferenceElement"@));
        x.lemma_model_type_kept(Some("ReferenceElement"@));
    }

    /// Every value is found again from what it is on the wire.
    pub proof fn lemma_round_trip(self)
        requires
            self.well_formed(),
        ensures
            DataElementView::from_wire(self.to_wire()) ==
                Ok::<DataElementView, DecodeErrorView>(self),
    {
        match self {
            DataElementView::Property(x) => {
                DataElementView::lemma_round_trip_property(x);
            },
            DataElementView::MultiLanguageProperty(x) => {
                DataElementView::lemma_round_trip_multi_language_property(x);
            },
            DataElementView::Range(x) => {
                DataElementView::lemma_round_trip_range(x);
            },
            DataElementView::Blob(x) => {
                DataElementView::lemma_round_trip_blob(x);
            },
            DataElementView::File(x) => {
                DataElementView::lemma_round_trip_file(x);
            },
            DataElementView::ReferenceElement(x) => {
                DataElementView::lemma_round_trip_reference_element(x);
            },
        }
    }

    /// The values from position `start` on are found again from the items that
    /// stand for them.
    pub proof fn lemma_list_items_round_trip(items: Seq<DataElementView>, start: nat)
        requires
            forall|i: int| 0 <= i < items.len() ==> (#[trigger] items[i]).well_formed(),
            start <= items.len(),
        ensures
            DataElementView::list_from_items(DataElementView::list_to_wire(items)->List_0, start) ==
                Ok::<
                Seq<DataElementView>,
                DecodeErrorView,
            >(items.skip(start as int)),
        decreases items.len() - start,
    {
        if start >= items.len() {
            assert(items.skip(start as int) =~= Seq::empty());
        } else {
            items[start as int].lemma_round_trip();
            DataElementView::lemma_list_items_round_trip(items, start + 1);
            assert(seq![items[start as int]] + items.skip(start as int + 1) =~= items.skip(
                start as int));
        }
    }

    /// Every list of values is found again from what it is on the wire.
    pub proof fn lemma_list_round_trip(items: Seq<DataElementView>)
        requires
            forall|i: int| 0 <= i < items.len() ==> (#[trigger] items[i]).well_formed(),
        ensures
            DataElementView::list_from_wire(DataElementView::list_to_wire(items)) == Ok::<
                Seq<DataElementView>,
                DecodeErrorView,
            >(items),
    {
        DataElementView::lemma_list_items_round_trip(items, 0);
        assert(items.skip(0) =~= items);
    }
}

impl DataElement {
    /// The name of the type of the value.
    pub fn model_type(&self) -> (s: &'static str)
        ensures
            s@ == self@.model_type(),
    {
        match self {
            DataElement::Property(_) => "Property",
            DataElement::MultiLanguageProperty(_) => "MultiLanguageProperty",
            DataElement::Range(_) => "Range",
            DataElement::Blob(_) => "Blob",
            DataElement::File(_) => "File",
            DataElement::ReferenceElement(_) => "ReferenceElement",
        }
    }

    /// The value as it travels: a record that begins with the name of the
    /// type. What comes out decodes to the same value again.
    pub fn encode(&self) -> (w: Wire)
        ensures
            w@ == self@.to_wire(),
            self@.well_formed(),
            DataElementView::from_wire(w@) == Ok::<DataElementView, DecodeErrorView>(self@),
    {
        let mut fields: Vec<Field> = Vec::new();
        assert(fields.deep_view() =~= Seq::<FieldView>::empty());
        add_member(&mut fields, "modelType", Wire::text(self.model_type()));
        match self {
            DataElement::Property(x) => x.encode_members(&mut fields),
            DataElement::MultiLanguageProperty(x) => x.encode_members(&mut fields),
            DataElement::Range(x) => x.encode_members(&mut fields),
            DataElement::Blob(x) => x.encode_members(&mut fields),
            DataElement::File(x) => x.encode_members(&mut fields),
            DataElement::ReferenceElement(x) => x.encode_members(&mut fields),
        }
        proof {
            self@.lemma_round_trip();
        }
        Wire::record(fields)
    }

    /// The value that `w` stands for.
    pub fn decode(w: &Wire) -> (r: Result<DataElement, DecodeError>)
        ensures
            outcome(r) == DataElementView::from_wire(w@),
    {
        let fields = match w.members() {
            Some(fields) => fields,
            None => {
                return Err(DecodeError::new(DecodeFault::ExpectedRecord));
            },
        };
        let tag = match find(fields, "modelType") {
            None => {
                return Err(DecodeError::at(DecodeFault::MissingField, "modelType"));
            },
            Some(Wire::Text(tag)) => tag,
            Some(_) => {
                return Err(DecodeError::at(DecodeFault::ExpectedText, "modelType"));
            },
        };
        proof {
            reveal(DataElementView::from_tagged);
        }
        if same_text(tag.as_str(), "Property") {
            match Property::decode_members(fields) {
                Ok(x) => Ok(DataElement::Property(x)),
                Err(e) => Err(e),
            }
        } else if same_text(tag.as_str(), "MultiLanguageProperty") {
            match MultiLanguageProperty::decode_members(fields) {
                Ok(x) => Ok(DataElement::MultiLanguageProperty(x)),
                Err(e) => Err(e),
            }
        } else if same_text(tag.as_str(), "Range") {
            match Range::decode_members(fields) {
                Ok(x) => Ok(DataElement::Range(x)),
                Err(e) => Err(e),
            }
        } else if same_text(tag.as_str(), "Blob") {
            match Blob::decode_members(fields) {
                Ok(x) => Ok(DataElement::Blob(x)),
                Err(e) => Err(e),
            }
        } else if same_text(tag.as_str(), "File") {
            match File::decode_members(fields) {
                Ok(x) => Ok(DataElement::File(x)),
                Err(e) => Err(e),
            }
        } else if same_text(tag.as_str(), "ReferenceElement") {
            match ReferenceElement::decode_members(fields) {
                Ok(x) => Ok(DataElement::ReferenceElement(x)),
                Err(e) => Err(e),
            }
        } else {
            Err(DecodeError::at(DecodeFault::UnknownDiscriminant, "modelType"))
        }
    }

    /// The values as they travel: a list, in their order.
    pub fn encode_list(items: &Vec<DataElement>) -> (w: Wire)
        ensures
            w@ == DataElementView::list_to_wire(items.deep_view()),
            forall|i: int| 0 <= i < items.len() ==> (#[trigger] items.deep_view()[i]).well_formed(),
    {
        let mut out: Vec<Wire> = Vec::new();
        let mut i: usize = 0;
        while i < items.len()
            invariant
                i <= items.len(),
                out.len() == i,
                forall|j: int| 0 <= j < i ==>
                    (#[trigger] out[j])@ == items.deep_view()[j].to_wire(),
                forall|j: int| 0 <= j < i ==> (#[trigger] items.deep_view()[j]).well_formed(),
            decreases items.len() - i,
        {
            out.push(items[i].encode());
            i += 1;
        }
        let w = Wire::list(out);
        assert(w@->List_0 =~= DataElementView::list_to_wire(items.deep_view())->List_0);
        w
    }

    /// The values that the list `w` stands for. The first item that stands
    /// for none decides the failure.
    pub fn decode_list(w: &Wire) -> (r: Result<Vec<DataElement>, DecodeError>)
        ensures
            outcome(r) == DataElementView::list_from_wire(w@),
    {
        let items = match w.items() {
            Some(items) => items,
            None => {
                return Err(DecodeError::new(DecodeFault::ExpectedList));
            },
        };
        let mut out: Vec<DataElement> = Vec::new();
        let mut i: usize = 0;
        assert(Seq::<DataElementView>::empty() + DataElementView::list_from_items(items.deep_view(),
            0)->Ok_0
            =~= DataElementView::list_from_items(items.deep_view(), 0)->Ok_0);
        while i < items.len()
            invariant
                i <= items.len(),
                w@ == WireView::List(items.deep_view()),
                DataElementView::list_from_items(items.deep_view(), 0) ==
                    (match DataElementView::list_from_items(
                    items.deep_view(),
                    i as nat,
                ) {
                    Ok(rest) => Ok(out.deep_view() + rest),
                    Err(e) => Err(e),
                }),
            decreases items.len() - i,
        {
            let ghost before = out.deep_view();
            match DataElement::decode(&items[i]) {
                Ok(v) => {
                    out.push(v);
                    proof {
                        let rest = DataElementView::list_from_items(items.deep_view(),
                            (i + 1) as nat);
                        if rest is Ok {
                            assert(out.deep_view() + rest->Ok_0 =~= before + (seq![
                                v@] + rest->Ok_0));
                        }
                    }
                },
                Err(e) => {
                    return Err(e.under_index(i));
                },
            }
            i += 1;
        }
        assert(out.deep_view() + Seq::<DataElementView>::empty() =~= out.deep_view());
        Ok(out)
    }

    /// A copy of each of the values, in their order.
    pub fn clone_list(items: &Vec<DataElement>) -> (r: Vec<DataElement>)
        ensures
            r.deep_view() == items.deep_view(),
    {
        let mut out: Vec<DataElement> = Vec::new();
        let mut i: usize = 0;
        while i < items.len()
            invariant
                i <= items.len(),
                out.len() == i,
                forall|j: int| 0 <= j < i ==> (#[trigger] out[j])@ == items[j]@,
            decreases items.len() - i,
        {
            out.push(items[i].clone());
            i += 1;
        }
        assert(out.deep_view() =~= items.deep_view());
        out
    }
}

impl DataElementView {
    /// Whether the value and everything below it keeps what a document must
    /// keep.
    pub open spec fn consistent(self) -> bool {
        match self {
            DataElementView::Property(x) => x.consistent(),
            DataElementView::MultiLanguageProperty(x) => x.consistent(),
            DataElementView::Range(x) => x.consistent(),
            DataElementView::Blob(x) => x.consistent(),
            DataElementView::File(x) => x.consistent(),
            DataElementView::ReferenceElement(x) => x.consistent(),
        }
    }

    /// The short ID of the element, if it has one.
    pub open spec fn id_short(self) -> Option<Seq<char>> {
        match self {
            DataElementView::Property(x) => x.id_short,
            DataElementView::MultiLanguageProperty(x) => x.id_short,
            DataElementView::Range(x) => x.id_short,
            DataElementView::Blob(x) => x.id_short,
            DataElementView::File(x) => x.id_short,
            DataElementView::ReferenceElement(x) => x.id_short,
        }
    }

    /// The short IDs of the elements, in their order; absence where an
    /// element has none.
    pub open spec fn id_shorts(items: Seq<DataElementView>) -> Seq<Option<Seq<char>>> {
        Seq::new(items.len(), |i: int| items[i].id_short())
    }

    /// Whether no short ID occurs twice among the elements.
    pub open spec fn id_shorts_distinct(items: Seq<DataElementView>) -> bool {
        distinct(present_texts(DataElementView::id_shorts(items)))
    }
}

impl DataElement {
    /// Whether the value and everything below it keeps what a document must
    /// keep.
    pub fn is_consistent(&self) -> (b: bool)
        ensures
            b == self@.consistent(),
    {
        match self {
            DataElement::Property(x) => x.is_consistent(),
            DataElement::MultiLanguageProperty(x) => x.is_consistent(),
            DataElement::Range(x) => x.is_consistent(),
            DataElement::Blob(x) => x.is_consistent(),
            DataElement::File(x) => x.is_consistent(),
            DataElement::ReferenceElement(x) => x.is_consistent(),
        }
    }

    /// Whether each of the values keeps what a document must keep.
    pub fn all_consistent(items: &Vec<DataElement>) -> (b: bool)
        ensures
            b == (forall|i: int|
                0 <= i < items.len() ==> (#[trigger] items.deep_view()[i]).consistent()),
    {
        let mut i: usize = 0;
        while i < items.len()
            invariant
                i <= items.len(),
                forall|j: int| 0 <= j < i ==> (#[trigger] items.deep_view()[j]).consistent(),
            decreases items.len() - i,
        {
            if !items[i].is_consistent() {
                assert(!items.deep_view()[i as int].consistent());
                return false;
            }
            i += 1;
        }
        true
    }

    /// Whether no short ID occurs twice among the elements.
    pub fn id_shorts_distinct(items: &Vec<DataElement>) -> (b: bool)
        ensures
            b == DataElementView::id_shorts_distinct(items.deep_view()),
    {
        let ghost all = DataElementView::id_shorts(items.deep_view());
        let mut found: Vec<&String> = Vec::new();
        let mut i: usize = 0;
        assert(all.take(0) =~= Seq::empty());
        while i < items.len()
            invariant
                i <= items.len(),
                all == DataElementView::id_shorts(items.deep_view()),
                found.deep_view() == present_texts(all.take(i as int)),
            decreases items.len() - i,
        {
            let ghost before = found.deep_view();
            let id_short = items[i].get_id_short();
            proof {
                assert(all.take(i + 1).drop_last() =~= all.take(i as int));
                assert(all.take(i + 1).last() == all[i as int]);
                assert(all[i as int] == items.deep_view()[i as int].id_short());
                assert(id_short.deep_view() == all[i as int]);
            }
            match id_short {
                Some(text) => {
                    found.push(text);
                    assert(found.deep_view() =~= before.push(text@));
                },
                None => {},
            }
            i += 1;
        }
        assert(all.take(all.len() as int) =~= all);
        all_distinct(&found)
    }
}

} // verus!
