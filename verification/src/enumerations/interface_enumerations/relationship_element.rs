use vstd::prelude::*;
use crate::error::ModelError;
use crate::names::lemma_name_codes;
use crate::structs::annotated_relationship_element::{
    AnnotatedRelationshipElement,
    AnnotatedRelationshipElementView,
};
use crate::structs::extension::{Extension, ExtensionView};
use crate::structs::multi_language_name_type::MultiLanguageNameType;
use crate::structs::multi_language_text_type::MultiLanguageTextType;
use crate::structs::qualifier::{Qualifier, QualifierView};
use crate::structs::reference::{Reference, ReferenceView};
use crate::traits::has_data_specification::THasDataSpecification;
use crate::traits::has_extensions::THasExtensions;
use crate::traits::has_semantics::{SemanticsAspect, THasSemantics};
use crate::traits::qualifiable::TQualifiable;
use crate::traits::referable::{ReferableAspect, TReferable};
use crate::traits::relationship_element::{RelationshipAspect, TRelationshipElement};
use crate::traits::submodel_element::TSubmodelElement;
use crate::wire::{
    add_member,
    fail,
    fail_at,
    find,
    lemma_lookup_push,
    lookup,
    member,
    outcome,
    same_text,
    tagged,
    DecodeError,
    DecodeErrorView,
    DecodeFault,
    Field,
    FieldView,
    Wire,
    WireView,
};

verus! {

/// Any of the relationship elements. A place of this type accepts nothing else.
#[derive(Debug, PartialEq)]
pub enum RelationshipElement {
    RelationshipElement(crate::structs::relationship_element::RelationshipElement),
    AnnotatedRelationshipElement(AnnotatedRelationshipElement),
}

/// The mathematical form of a [`RelationshipElement`].
#[verifier::ext_equal]
pub enum RelationshipElementView {
    RelationshipElement(crate::structs::relationship_element::RelationshipElementView),
    AnnotatedRelationshipElement(AnnotatedRelationshipElementView),
}

impl View for RelationshipElement {
    type V = RelationshipElementView;

    open spec fn view(&self) -> RelationshipElementView {
        match self {
            RelationshipElement::RelationshipElement(x) =>
                RelationshipElementView::RelationshipElement(x@),
            RelationshipElement::AnnotatedRelationshipElement(x) =>
                RelationshipElementView::AnnotatedRelationshipElement(x@),
        }
    }
}

impl DeepView for RelationshipElement {
    type V = RelationshipElementView;

    open spec fn deep_view(&self) -> RelationshipElementView {
        self@
    }
}

impl Clone for RelationshipElement {
    fn clone(&self) -> (r: RelationshipElement)
        ensures
            r@ == self@,
    {
        match self {
            RelationshipElement::RelationshipElement(x) =>
                RelationshipElement::RelationshipElement(x.clone()),
            RelationshipElement::AnnotatedRelationshipElement(x) =>
                RelationshipElement::AnnotatedRelationshipElement(x.clone()),
        }
    }
}

impl TReferable for RelationshipElement {
    open spec fn referable(&self) -> ReferableAspect {
        match self {
            RelationshipElement::RelationshipElement(x) => x.referable(),
            RelationshipElement::AnnotatedRelationshipElement(x) => x.referable(),
        }
    }

    fn set_category(&mut self, category: String)
        ensures
            final(self)@ ==
                old(self)@.with_referable(ReferableAspect { category: Some(category@),
                ..old(self).referable() }),
    {
        match self {
            RelationshipElement::RelationshipElement(x) => x.set_category(category),
            RelationshipElement::AnnotatedRelationshipElement(x) => x.set_category(category),
        }
    }

    fn get_category(&self) -> (r: Option<&String>) {
        match self {
            RelationshipElement::RelationshipElement(x) => x.get_category(),
            RelationshipElement::AnnotatedRelationshipElement(x) => x.get_category(),
        }
    }

    fn get_mut_category(&mut self) -> (r: Option<&mut String>)
        ensures
            match r {
                Some(m) =>
                    final(self)@ ==
                    old(self)@.with_referable(ReferableAspect { category: Some(final(m)@),
                    ..old(self).referable() }),
                None => final(self)@ == old(self)@,
            },
    {
        match self {
            RelationshipElement::RelationshipElement(x) => x.get_mut_category(),
            RelationshipElement::AnnotatedRelationshipElement(x) => x.get_mut_category(),
        }
    }

    fn set_id_short(&mut self, id_short: String)
        ensures
            final(self)@ ==
                old(self)@.with_referable(ReferableAspect { id_short: Some(id_short@),
                ..old(self).referable() }),
    {
        match self {
            RelationshipElement::RelationshipElement(x) => x.set_id_short(id_short),
            RelationshipElement::AnnotatedRelationshipElement(x) => x.set_id_short(id_short),
        }
    }

    fn get_id_short(&self) -> (r: Option<&String>) {
        match self {
            RelationshipElement::RelationshipElement(x) => x.get_id_short(),
            RelationshipElement::AnnotatedRelationshipElement(x) => x.get_id_short(),
        }
    }

    fn get_mut_id_short(&mut self) -> (r: Option<&mut String>)
        ensures
            match r {
                Some(m) =>
                    final(self)@ ==
                    old(self)@.with_referable(ReferableAspect { id_short: Some(final(m)@),
                    ..old(self).referable() }),
                None => final(self)@ == old(self)@,
            },
    {
        match self {
            RelationshipElement::RelationshipElement(x) => x.get_mut_id_short(),
            RelationshipElement::AnnotatedRelationshipElement(x) => x.get_mut_id_short(),
        }
    }

    fn set_display_name(&mut self, display_name: Vec<MultiLanguageNameType>)
        ensures
            final(self)@ ==
                old(self)@.with_referable(ReferableAspect { display_name: display_name.deep_view(),
                ..old(self).referable() }),
    {
        match self {
            RelationshipElement::RelationshipElement(x) => x.set_display_name(display_name),
            RelationshipElement::AnnotatedRelationshipElement(x) =>
                x.set_display_name(display_name),
        }
    }

    fn get_display_name(&self) -> (r: &Vec<MultiLanguageNameType>) {
        match self {
            RelationshipElement::RelationshipElement(x) => x.get_display_name(),
            RelationshipElement::AnnotatedRelationshipElement(x) => x.get_display_name(),
        }
    }

    fn get_mut_display_name(&mut self) -> (r: &mut Vec<MultiLanguageNameType>)
        ensures
            final(self)@ ==
                old(self)@.with_referable(ReferableAspect { display_name: final(r).deep_view(),
                ..old(self).referable() }),
    {
        match self {
            RelationshipElement::RelationshipElement(x) => x.get_mut_display_name(),
            RelationshipElement::AnnotatedRelationshipElement(x) => x.get_mut_display_name(),
        }
    }

    fn add_display_name(&mut self, display_name: MultiLanguageNameType)
        ensures
            final(self)@ ==
                old(self)@.with_referable(ReferableAspect {
                display_name: old(self).referable().display_name.push(display_name@),
                ..old(self).referable() }),
    {
        match self {
            RelationshipElement::RelationshipElement(x) => x.add_display_name(display_name),
            RelationshipElement::AnnotatedRelationshipElement(x) =>
                x.add_display_name(display_name),
        }
    }

    fn remove_display_name(&mut self, index: usize) -> (r: Result<MultiLanguageNameType,
        ModelError>)
        ensures
            match r {
                Ok(item) =>
                    final(self)@ ==
                    old(self)@.with_referable(ReferableAspect {
                    display_name: old(self).referable().display_name.remove(index as int),
                    ..old(self).referable() }),
                Err(e) => final(self)@ == old(self)@,
            },
    {
        match self {
            RelationshipElement::RelationshipElement(x) => x.remove_display_name(index),
            RelationshipElement::AnnotatedRelationshipElement(x) => x.remove_display_name(index),
        }
    }

    fn set_description(&mut self, description: Vec<MultiLanguageTextType>)
        ensures
            final(self)@ ==
                old(self)@.with_referable(ReferableAspect { description: description.deep_view(),
                ..old(self).referable() }),
    {
        match self {
            RelationshipElement::RelationshipElement(x) => x.set_description(description),
            RelationshipElement::AnnotatedRelationshipElement(x) => x.set_description(description),
        }
    }

    fn get_description(&self) -> (r: &Vec<MultiLanguageTextType>) {
        match self {
            RelationshipElement::RelationshipElement(x) => x.get_description(),
            RelationshipElement::AnnotatedRelationshipElement(x) => x.get_description(),
        }
    }

    fn get_mut_description(&mut self) -> (r: &mut Vec<MultiLanguageTextType>)
        ensures
            final(self)@ ==
                old(self)@.with_referable(ReferableAspect { description: final(r).deep_view(),
                ..old(self).referable() }),
    {
        match self {
            RelationshipElement::RelationshipElement(x) => x.get_mut_description(),
            RelationshipElement::AnnotatedRelationshipElement(x) => x.get_mut_description(),
        }
    }

    fn add_description(&mut self, description: MultiLanguageTextType)
        ensures
            final(self)@ ==
                old(self)@.with_referable(ReferableAspect {
                description: old(self).referable().description.push(description@),
                ..old(self).referable() }),
    {
        match self {
            RelationshipElement::RelationshipElement(x) => x.add_description(description),
            RelationshipElement::AnnotatedRelationshipElement(x) => x.add_description(description),
        }
    }

    fn remove_description(&mut self, index: usize) -> (r: Result<MultiLanguageTextType, ModelError>)
        ensures
            match r {
                Ok(item) =>
                    final(self)@ ==
                    old(self)@.with_referable(ReferableAspect {
                    description: old(self).referable().description.remove(index as int),
                    ..old(self).referable() }),
                Err(e) => final(self)@ == old(self)@,
            },
    {
        match self {
            RelationshipElement::RelationshipElement(x) => x.remove_description(index),
            RelationshipElement::AnnotatedRelationshipElement(x) => x.remove_description(index),
        }
    }
}

impl THasExtensions for RelationshipElement {
    open spec fn extensions_view(&self) -> Seq<ExtensionView> {
        match self {
            RelationshipElement::RelationshipElement(x) => x.extensions_view(),
            RelationshipElement::AnnotatedRelationshipElement(x) => x.extensions_view(),
        }
    }

    fn set_extensions(&mut self, extensions: Vec<Extension>)
        ensures
            final(self)@ == old(self)@.with_extensions(extensions.deep_view()),
    {
        match self {
            RelationshipElement::RelationshipElement(x) => x.set_extensions(extensions),
            RelationshipElement::AnnotatedRelationshipElement(x) => x.set_extensions(extensions),
        }
    }

    fn get_extensions(&self) -> (r: &Vec<Extension>) {
        match self {
            RelationshipElement::RelationshipElement(x) => x.get_extensions(),
            RelationshipElement::AnnotatedRelationshipElement(x) => x.get_extensions(),
        }
    }

    fn get_mut_extensions(&mut self) -> (r: &mut Vec<Extension>)
        ensures
            final(self)@ == old(self)@.with_extensions(final(r).deep_view()),
    {
        match self {
            RelationshipElement::RelationshipElement(x) => x.get_mut_extensions(),
            RelationshipElement::AnnotatedRelationshipElement(x) => x.get_mut_extensions(),
        }
    }

    fn add_extension(&mut self, extension: Extension)
        ensures
            final(self)@ ==
                old(self)@.with_extensions(old(self).extensions_view().push(extension@)),
    {
        match self {
            RelationshipElement::RelationshipElement(x) => x.add_extension(extension),
            RelationshipElement::AnnotatedRelationshipElement(x) => x.add_extension(extension),
        }
    }

    fn remove_extension(&mut self, index: usize) -> (r: Result<Extension, ModelError>)
        ensures
            match r {
                Ok(item) =>
                    final(self)@ ==
                    old(self)@.with_extensions(old(self).extensions_view().remove(
                    index as int)),
                Err(e) => final(self)@ == old(self)@,
            },
    {
        match self {
            RelationshipElement::RelationshipElement(x) => x.remove_extension(index),
            RelationshipElement::AnnotatedRelationshipElement(x) => x.remove_extension(index),
        }
    }
}

impl THasSemantics for RelationshipElement {
    open spec fn semantics(&self) -> SemanticsAspect {
        match self {
            RelationshipElement::RelationshipElement(x) => x.semantics(),
            RelationshipElement::AnnotatedRelationshipElement(x) => x.semantics(),
        }
    }

    fn set_semantic_id(&mut self, semantic_id: Reference)
        ensures
            final(self)@ ==
                old(self)@.with_semantics(SemanticsAspect { semantic_id: Some(semantic_id@),
                ..old(self).semantics() }),
    {
        match self {
            RelationshipElement::RelationshipElement(x) => x.set_semantic_id(semantic_id),
            RelationshipElement::AnnotatedRelationshipElement(x) => x.set_semantic_id(semantic_id),
        }
    }

    fn get_semantic_id(&self) -> (r: Option<&Reference>) {
        match self {
            RelationshipElement::RelationshipElement(x) => x.get_semantic_id(),
            RelationshipElement::AnnotatedRelationshipElement(x) => x.get_semantic_id(),
        }
    }

    fn get_mut_semantic_id(&mut self) -> (r: Option<&mut Reference>)
        ensures
            match r {
                Some(m) =>
                    final(self)@ ==
                    old(self)@.with_semantics(SemanticsAspect { semantic_id: Some(final(m)@),
                    ..old(self).semantics() }),
                None => final(self)@ == old(self)@,
            },
    {
        match self {
            RelationshipElement::RelationshipElement(x) => x.get_mut_semantic_id(),
            RelationshipElement::AnnotatedRelationshipElement(x) => x.get_mut_semantic_id(),
        }
    }

    fn set_supplemental_semantic_ids(&mut self, supplemental_semantic_ids: Vec<Reference>)
        ensures
            final(self)@ ==
                old(self)@.with_semantics(SemanticsAspect {
                supplemental_semantic_ids: supplemental_semantic_ids.deep_view(),
                ..old(self).semantics() }),
    {
        match self {
            RelationshipElement::RelationshipElement(x) =>
                x.set_supplemental_semantic_ids(supplemental_semantic_ids),
            RelationshipElement::AnnotatedRelationshipElement(x) =>
                x.set_supplemental_semantic_ids(supplemental_semantic_ids),
        }
    }

    fn get_supplemental_semantic_ids(&self) -> (r: &Vec<Reference>) {
        match self {
            RelationshipElement::RelationshipElement(x) => x.get_supplemental_semantic_ids(),
            RelationshipElement::AnnotatedRelationshipElement(x) =>
                x.get_supplemental_semantic_ids(),
        }
    }

    fn get_mut_supplemental_semantic_ids(&mut self) -> (r: &mut Vec<Reference>)
        ensures
            final(self)@ ==
                old(self)@.with_semantics(SemanticsAspect {
                supplemental_semantic_ids: final(r).deep_view(), ..old(self).semantics() }),
    {
        match self {
            RelationshipElement::RelationshipElement(x) => x.get_mut_supplemental_semantic_ids(),
            RelationshipElement::AnnotatedRelationshipElement(x) =>
                x.get_mut_supplemental_semantic_ids(),
        }
    }

    fn add_supplemental_semantic_id(&mut self, supplemental_semantic_id: Reference)
        ensures
            final(self)@ ==
                old(self)@.with_semantics(SemanticsAspect {
                supplemental_semantic_ids: old(self).semantics().supplemental_semantic_ids.push(
                supplemental_semantic_id@), ..old(self).semantics() }),
    {
        match self {
            RelationshipElement::RelationshipElement(x) =>
                x.add_supplemental_semantic_id(supplemental_semantic_id),
            RelationshipElement::AnnotatedRelationshipElement(x) =>
                x.add_supplemental_semantic_id(supplemental_semantic_id),
        }
    }

    fn remove_supplemental_semantic_id(&mut self, index: usize) -> (r: Result<Reference,
        ModelError>)
        ensures
            match r {
                Ok(item) =>
                    final(self)@ ==
                    old(self)@.with_semantics(SemanticsAspect {
                    supplemental_semantic_ids: old(self).semantics().supplemental_semantic_ids.remove(
                    index as int), ..old(self).semantics() }),
                Err(e) => final(self)@ == old(self)@,
            },
    {
        match self {
            RelationshipElement::RelationshipElement(x) => x.remove_supplemental_semantic_id(index),
            RelationshipElement::AnnotatedRelationshipElement(x) =>
                x.remove_supplemental_semantic_id(index),
        }
    }
}

impl TQualifiable for RelationshipElement {
    open spec fn qualifiers_view(&self) -> Seq<QualifierView> {
        match self {
            RelationshipElement::RelationshipElement(x) => x.qualifiers_view(),
            RelationshipElement::AnnotatedRelationshipElement(x) => x.qualifiers_view(),
        }
    }

    fn set_qualifiers(&mut self, qualifiers: Vec<Qualifier>)
        ensures
            final(self)@ == old(self)@.with_qualifiers(qualifiers.deep_view()),
    {
        match self {
            RelationshipElement::RelationshipElement(x) => x.set_qualifiers(qualifiers),
            RelationshipElement::AnnotatedRelationshipElement(x) => x.set_qualifiers(qualifiers),
        }
    }

    fn get_qualifiers(&self) -> (r: &Vec<Qualifier>) {
        match self {
            RelationshipElement::RelationshipElement(x) => x.get_qualifiers(),
            RelationshipElement::AnnotatedRelationshipElement(x) => x.get_qualifiers(),
        }
    }

    fn get_mut_qualifiers(&mut self) -> (r: &mut Vec<Qualifier>)
        ensures
            final(self)@ == old(self)@.with_qualifiers(final(r).deep_view()),
    {
        match self {
            RelationshipElement::RelationshipElement(x) => x.get_mut_qualifiers(),
            RelationshipElement::AnnotatedRelationshipElement(x) => x.get_mut_qualifiers(),
        }
    }

    fn add_qualifier(&mut self, qualifier: Qualifier)
        ensures
            final(self)@ ==
                old(self)@.with_qualifiers(old(self).qualifiers_view().push(qualifier@)),
    {
        match self {
            RelationshipElement::RelationshipElement(x) => x.add_qualifier(qualifier),
            RelationshipElement::AnnotatedRelationshipElement(x) => x.add_qualifier(qualifier),
        }
    }

    fn remove_qualifier(&mut self, index: usize) -> (r: Result<Qualifier, ModelError>)
        ensures
            match r {
                Ok(item) =>
                    final(self)@ ==
                    old(self)@.with_qualifiers(old(self).qualifiers_view().remove(
                    index as int)),
                Err(e) => final(self)@ == old(self)@,
            },
    {
        match self {
            RelationshipElement::RelationshipElement(x) => x.remove_qualifier(index),
            RelationshipElement::AnnotatedRelationshipElement(x) => x.remove_qualifier(index),
        }
    }
}

impl THasDataSpecification for RelationshipElement {
    open spec fn data_specifications_view(&self) -> Seq<ReferenceView> {
        match self {
            RelationshipElement::RelationshipElement(x) => x.data_specifications_view(),
            RelationshipElement::AnnotatedRelationshipElement(x) => x.data_specifications_view(),
        }
    }

    fn set_data_specifications(&mut self, data_specifications: Vec<Reference>)
        ensures
            final(self)@ == old(self)@.with_data_specifications(data_specifications.deep_view()),
    {
        match self {
            RelationshipElement::RelationshipElement(x) =>
                x.set_data_specifications(data_specifications),
            RelationshipElement::AnnotatedRelationshipElement(x) =>
                x.set_data_specifications(data_specifications),
        }
    }

    fn get_data_specifications(&self) -> (r: &Vec<Reference>) {
        match self {
            RelationshipElement::RelationshipElement(x) => x.get_data_specifications(),
            RelationshipElement::AnnotatedRelationshipElement(x) => x.get_data_specifications(),
        }
    }

    fn get_mut_data_specifications(&mut self) -> (r: &mut Vec<Reference>)
        ensures
            final(self)@ == old(self)@.with_data_specifications(final(r).deep_view()),
    {
        match self {
            RelationshipElement::RelationshipElement(x) => x.get_mut_data_specifications(),
            RelationshipElement::AnnotatedRelationshipElement(x) => x.get_mut_data_specifications(),
        }
    }

    fn add_data_specification(&mut self, data_specification: Reference)
        ensures
            final(self)@ ==
                old(self)@.with_data_specifications(old(self).data_specifications_view().push(
                data_specification@)),
    {
        match self {
            RelationshipElement::RelationshipElement(x) =>
                x.add_data_specification(data_specification),
            RelationshipElement::AnnotatedRelationshipElement(x) =>
                x.add_data_specification(data_specification),
        }
    }

    fn remove_data_specification(&mut self, index: usize) -> (r: Result<Reference, ModelError>)
        ensures
            match r {
                Ok(item) =>
                    final(self)@ ==
                    old(self)@.with_data_specifications(
                    old(self).data_specifications_view().remove(index as int)),
                Err(e) => final(self)@ == old(self)@,
            },
    {
        match self {
            RelationshipElement::RelationshipElement(x) => x.remove_data_specification(index),
            RelationshipElement::AnnotatedRelationshipElement(x) =>
                x.remove_data_specification(index),
        }
    }
}

impl TRelationshipElement for RelationshipElement {
    open spec fn relationship(&self) -> RelationshipAspect {
        match self {
            RelationshipElement::RelationshipElement(x) => x.relationship(),
            RelationshipElement::AnnotatedRelationshipElement(x) => x.relationship(),
        }
    }

    fn set_first(&mut self, first: Reference)
        ensures
            final(self)@ ==
                old(self)@.with_relationship(RelationshipAspect { first: Some(first@),
                ..old(self).relationship() }),
    {
        match self {
            RelationshipElement::RelationshipElement(x) => x.set_first(first),
            RelationshipElement::AnnotatedRelationshipElement(x) => x.set_first(first),
        }
    }

    fn get_first(&self) -> (r: Option<&Reference>) {
        match self {
            RelationshipElement::RelationshipElement(x) => x.get_first(),
            RelationshipElement::AnnotatedRelationshipElement(x) => x.get_first(),
        }
    }

    fn get_mut_first(&mut self) -> (r: Option<&mut Reference>)
        ensures
            match r {
                Some(m) =>
                    final(self)@ ==
                    old(self)@.with_relationship(RelationshipAspect { first: Some(final(m)@),
                    ..old(self).relationship() }),
                None => final(self)@ == old(self)@,
            },
    {
        match self {
            RelationshipElement::RelationshipElement(x) => x.get_mut_first(),
            RelationshipElement::AnnotatedRelationshipElement(x) => x.get_mut_first(),
        }
    }

    fn set_second(&mut self, second: Reference)
        ensures
            final(self)@ ==
                old(self)@.with_relationship(RelationshipAspect { second: Some(second@),
                ..old(self).relationship() }),
    {
        match self {
            RelationshipElement::RelationshipElement(x) => x.set_second(second),
            RelationshipElement::AnnotatedRelationshipElement(x) => x.set_second(second),
        }
    }

    fn get_second(&self) -> (r: Option<&Reference>) {
        match self {
            RelationshipElement::RelationshipElement(x) => x.get_second(),
            RelationshipElement::AnnotatedRelationshipElement(x) => x.get_second(),
        }
    }

    fn get_mut_second(&mut self) -> (r: Option<&mut Reference>)
        ensures
            match r {
                Some(m) =>
                    final(self)@ ==
                    old(self)@.with_relationship(RelationshipAspect { second: Some(final(m)@),
                    ..old(self).relationship() }),
                None => final(self)@ == old(self)@,
            },
    {
        match self {
            RelationshipElement::RelationshipElement(x) => x.get_mut_second(),
            RelationshipElement::AnnotatedRelationshipElement(x) => x.get_mut_second(),
        }
    }
}

impl TSubmodelElement for RelationshipElement {
}

impl RelationshipElementView {
    /// Whether every reference in the value is well formed.
    pub open spec fn well_formed(self) -> bool {
        match self {
            RelationshipElementView::RelationshipElement(x) => x.well_formed(),
            RelationshipElementView::AnnotatedRelationshipElement(x) => x.well_formed(),
        }
    }

    /// The same value with what it carries of the aspect replaced.
    pub open spec fn with_referable(self, aspect: ReferableAspect) -> RelationshipElementView {
        match self {
            RelationshipElementView::RelationshipElement(x) =>
                RelationshipElementView::RelationshipElement(x.with_referable(aspect)),
            RelationshipElementView::AnnotatedRelationshipElement(x) =>
                RelationshipElementView::AnnotatedRelationshipElement(x.with_referable(aspect)),
        }
    }

    /// The same value with the extensions of the element replaced.
    pub open spec fn with_extensions(self, extensions: Seq<ExtensionView>)
        -> RelationshipElementView {
        match self {
            RelationshipElementView::RelationshipElement(x) =>
                RelationshipElementView::RelationshipElement(x.with_extensions(extensions)),
            RelationshipElementView::AnnotatedRelationshipElement(x) =>
                RelationshipElementView::AnnotatedRelationshipElement(x.with_extensions(
                extensions)),
        }
    }

    /// The same value with what it carries of the aspect replaced.
    pub open spec fn with_semantics(self, aspect: SemanticsAspect) -> RelationshipElementView {
        match self {
            RelationshipElementView::RelationshipElement(x) =>
                RelationshipElementView::RelationshipElement(x.with_semantics(aspect)),
            RelationshipElementView::AnnotatedRelationshipElement(x) =>
                RelationshipElementView::AnnotatedRelationshipElement(x.with_semantics(aspect)),
        }
    }

    /// The same value with the additional qualifications of the element replaced.
    pub open spec fn with_qualifiers(self, qualifiers: Seq<QualifierView>)
        -> RelationshipElementView {
        match self {
            RelationshipElementView::RelationshipElement(x) =>
                RelationshipElementView::RelationshipElement(x.with_qualifiers(qualifiers)),
            RelationshipElementView::AnnotatedRelationshipElement(x) =>
                RelationshipElementView::AnnotatedRelationshipElement(x.with_qualifiers(
                qualifiers)),
        }
    }

    /// The same value with the external references to the data specification templates used by the
    /// element replaced.
    pub open spec fn with_data_specifications(self, data_specifications: Seq<ReferenceView>)
        -> RelationshipElementView {
        match self {
            RelationshipElementView::RelationshipElement(x) =>
                RelationshipElementView::RelationshipElement(x.with_data_specifications(
                data_specifications)),
            RelationshipElementView::AnnotatedRelationshipElement(x) =>
                RelationshipElementView::AnnotatedRelationshipElement(x.with_data_specifications(
                data_specifications)),
        }
    }

    /// The same value with what it carries of the aspect replaced.
    pub open spec fn with_relationship(self, aspect: RelationshipAspect)
        -> RelationshipElementView {
        match self {
            RelationshipElementView::RelationshipElement(x) =>
                RelationshipElementView::RelationshipElement(x.with_relationship(aspect)),
            RelationshipElementView::AnnotatedRelationshipElement(x) =>
                RelationshipElementView::AnnotatedRelationshipElement(x.with_relationship(aspect)),
        }
    }

    /// The name of the type of the value, which tells the variants apart on
    /// the wire.
    pub open spec fn model_type(self) -> Seq<char> {
        match self {
            RelationshipElementView::RelationshipElement(_) => "RelationshipElement"@,
            RelationshipElementView::AnnotatedRelationshipElement(_) =>
                "AnnotatedRelationshipElement"@,
        }
    }

    /// Whether `tag` is the name of a type that is accepted in this place.
    pub open spec fn knows(tag: Seq<char>) -> bool {
        tag == "RelationshipElement"@
            || tag == "AnnotatedRelationshipElement"@
    }

    /// The value on the wire: a record that begins with the name of the
    /// type and goes on with the members of the value.
    pub open spec fn to_wire(self) -> WireView {
        WireView::Record(
            match self {
                RelationshipElementView::RelationshipElement(x) =>
                    x.members_after(tagged(Some("RelationshipElement"@))),
                RelationshipElementView::AnnotatedRelationshipElement(x) =>
                    x.members_after(tagged(Some("AnnotatedRelationshipElement"@))),
            },
        )
    }

    /// The value that a wire value stands for: that of the type that the
    /// member `modelType` names. A name of no accepted type is refused.
    pub open spec fn from_wire(w: WireView) -> Result<RelationshipElementView, DecodeErrorView> {
        match w {
            WireView::Record(fields) => match lookup(fields, "modelType"@) {
                None => Err(fail_at(DecodeFault::MissingField, "modelType"@)),
                Some(WireView::Text(tag)) => RelationshipElementView::from_tagged(tag, fields),
                Some(_) => Err(fail_at(DecodeFault::ExpectedText, "modelType"@)),
            },
            _ => Err(fail(DecodeFault::ExpectedRecord)),
        }
    }

    /// The value of the type called `tag` that the members of a record stand
    /// for.
    #[verifier::opaque]
    pub open spec fn from_tagged(tag: Seq<char>, fields: Seq<FieldView>) -> Result<
        RelationshipElementView,
        DecodeErrorView,
    > {
        if tag == "RelationshipElement"@ {
            match crate::structs::relationship_element::RelationshipElementView::from_members(
                fields) {
                Ok(x) => Ok(RelationshipElementView::RelationshipElement(x)),
                Err(e) => Err(e),
            }
        } else if tag == "AnnotatedRelationshipElement"@ {
            match AnnotatedRelationshipElementView::from_members(fields) {
                Ok(x) => Ok(RelationshipElementView::AnnotatedRelationshipElement(x)),
                Err(e) => Err(e),
            }
        } else {
            Err(fail_at(DecodeFault::UnknownDiscriminant, "modelType"@))
        }
    }

    /// What is encoded carries the exact name of its type as its type name.
    pub proof fn lemma_model_type(self)
        ensures
            self.to_wire() matches WireView::Record(fields) && lookup(fields, "modelType"@) == Some(
                WireView::Text(self.model_type()),
            ),
            RelationshipElementView::knows(self.model_type()),
    {
        broadcast use lemma_lookup_push;

        match self {
            RelationshipElementView::RelationshipElement(x) => {
                x.lemma_model_type_kept(Some("RelationshipElement"@));
            },
            RelationshipElementView::AnnotatedRelationshipElement(x) => {
                x.lemma_model_type_kept(Some("AnnotatedRelationshipElement"@));
            },
        }
    }

    /// A record whose type name is that of no accepted type is refused.
    pub proof fn lemma_unknown_model_type(fields: Seq<FieldView>, tag: Seq<char>)
        requires
            lookup(fields, "modelType"@) == Some(WireView::Text(tag)),
            !RelationshipElementView::knows(tag),
        ensures
            RelationshipElementView::from_wire(WireView::Record(fields)) ==
                Err::<RelationshipElementView, DecodeErrorView>(
                fail_at(DecodeFault::UnknownDiscriminant, "modelType"@),
            ),
    {
        reveal(RelationshipElementView::from_tagged);
    }

    /// A value of the variant `RelationshipElement` is found again from what it is on the wire.
    proof fn lemma_round_trip_relationship_element(
        x: crate::structs::relationship_element::RelationshipElementView)
        requires
            x.well_formed(),
        ensures
            RelationshipElementView::from_wire(RelationshipElementView::RelationshipElement(
                x).to_wire()) == Ok::<RelationshipElementView, DecodeErrorView>(
                RelationshipElementView::RelationshipElement(x),
            ),
    {
        broadcast use lemma_lookup_push;

        reveal(RelationshipElementView::from_tagged);
        lemma_name_codes();
        x.lemma_members_round_trip(Some("RelationshipElement"@));
        x.lemma_model_type_kept(Some("RelationshipElement"@));
    }

    /// A value of the variant `AnnotatedRelationshipElement` is found again from what it is on the
    /// wire.
    proof fn lemma_round_trip_annotated_relationship_element(x: AnnotatedRelationshipElementView)
        requires
            x.well_formed(),
        ensures
            RelationshipElementView::from_wire(
                RelationshipElementView::AnnotatedRelationshipElement(x).to_wire()) ==
                Ok::<RelationshipElementView, DecodeErrorView>(
                RelationshipElementView::AnnotatedRelationshipElement(x),
            ),
    {
        broadcast use lemma_lookup_push;

        reveal(RelationshipElementView::from_tagged);
        lemma_name_codes();
        x.lemma_members_round_trip(Some("AnnotatedRelationshipElement"@));
        x.lemma_model_type_kept(Some("AnnotatedRelationshipElement"@));
    }

    /// Every value is found again from what it is on the wire.
    pub proof fn lemma_round_trip(self)
        requires
            self.well_formed(),
        ensures
            RelationshipElementView::from_wire(self.to_wire()) ==
                Ok::<RelationshipElementView, DecodeErrorView>(self),
    {
        match self {
            RelationshipElementView::RelationshipElement(x) => {
                RelationshipElementView::lemma_round_trip_relationship_element(x);
            },
            RelationshipElementView::AnnotatedRelationshipElement(x) => {
                RelationshipElementView::lemma_round_trip_annotated_relationship_element(x);
            },
        }
    }
}

impl RelationshipElement {
    /// The name of the type of the value.
    pub fn model_type(&self) -> (s: &'static str)
        ensures
            s@ == self@.model_type(),
    {
        match self {
            RelationshipElement::RelationshipElement(_) => "RelationshipElement",
            RelationshipElement::AnnotatedRelationshipElement(_) => "AnnotatedRelationshipElement",
        }
    }

    /// The value as it travels: a record that begins with the name of the
    /// type. What comes out decodes to the same value again.
    pub fn encode(&self) -> (w: Wire)
        ensures
            w@ == self@.to_wire(),
            self@.well_formed(),
            RelationshipElementView::from_wire(w@) ==
                Ok::<RelationshipElementView, DecodeErrorView>(self@),
    {
        let mut fields: Vec<Field> = Vec::new();
        assert(fields.deep_view() =~= Seq::<FieldView>::empty());
        add_member(&mut fields, "modelType", Wire::text(self.model_type()));
        match self {
            RelationshipElement::RelationshipElement(x) => x.encode_members(&mut fields),
            RelationshipElement::AnnotatedRelationshipElement(x) => x.encode_members(&mut fields),
        }
        proof {
            self@.lemma_round_trip();
        }
        Wire::record(fields)
    }

    /// The value that `w` stands for.
    pub fn decode(w: &Wire) -> (r: Result<RelationshipElement, DecodeError>)
        ensures
            outcome(r) == RelationshipElementView::from_wire(w@),
    {
        let fields = match w.members() {
            Some(fields) => fields,
            None => {
                return Err(DecodeError::new(DecodeFault::ExpectedRecord));
            },
        };
        let tag = match find(fields, "modelType") {
            None => {
                return Err(DecodeError::at(DecodeFault::MissingField, "modelType"));
            },
            Some(Wire::Text(tag)) => tag,
            Some(_) => {
                return Err(DecodeError::at(DecodeFault::ExpectedText, "modelType"));
            },
        };
        proof {
            reveal(RelationshipElementView::from_tagged);
        }
        if same_text(tag.as_str(), "RelationshipElement") {
            match crate::structs::relationship_element::RelationshipElement::decode_members(
                fields) {
                Ok(x) => Ok(RelationshipElement::RelationshipElement(x)),
                Err(e) => Err(e),
            }
        } else if same_text(tag.as_str(), "AnnotatedRelationshipElement") {
            match AnnotatedRelationshipElement::decode_members(fields) {
                Ok(x) => Ok(RelationshipElement::AnnotatedRelationshipElement(x)),
                Err(e) => Err(e),
            }
        } else {
            Err(DecodeError::at(DecodeFault::UnknownDiscriminant, "modelType"))
        }
    }
}

} // verus!
