use vstd::prelude::*;
use crate::enumerations::interface_enumerations::data_element::{DataElement, DataElementView};
use crate::error::ModelError;
use crate::names::lemma_name_codes;
use crate::structs::extension::{Extension, ExtensionView};
use crate::structs::multi_language_name_type::{MultiLanguageNameType, MultiLanguageNameTypeView};
use crate::structs::multi_language_text_type::{MultiLanguageTextType, MultiLanguageTextTypeView};
use crate::structs::qualifier::{Qualifier, QualifierView};
use crate::structs::reference::{Reference, ReferenceView};
use crate::traits::has_data_specification::THasDataSpecification;
use crate::traits::has_extensions::THasExtensions;
use crate::traits::has_semantics::{SemanticsAspect, THasSemantics};
use crate::traits::qualifiable::TQualifiable;
use crate::traits::referable::{ReferableAspect, TReferable};
use crate::traits::relationship_element::{RelationshipAspect, TRelationshipElement};
use crate::traits::submodel_element::TSubmodelElement;
use crate::validation::distinct;
use crate::wire::{
    add_member,
    decode_text,
    encode_optional_text,
    fail,
    fail_at,
    find,
    find_present,
    in_field,
    lemma_lookup_push,
    lookup,
    member,
    optional,
    optional_text_encode,
    outcome,
    present,
    tagged,
    text_decode,
    DecodeError,
    DecodeErrorView,
    DecodeFault,
    Field,
    FieldView,
    Wire,
    WireView,
};

verus! {

/// An annotated relationship element is a relationship element that can be annotated with
/// additional data elements.
#[derive(Debug, PartialEq)]
pub struct AnnotatedRelationshipElement {
    /// The data elements that annotate the relationship between the two elements.
    annotations: Vec<DataElement>,
    /// The category, a value that gives further meta information.
    category: Option<String>,
    /// The short ID of the element.
    id_short: Option<String>,
    /// The display name of the element, one entry for each language.
    display_name: Vec<MultiLanguageNameType>,
    /// The description of the element, one entry for each language.
    description: Vec<MultiLanguageTextType>,
    /// The extensions of the element.
    extensions: Vec<Extension>,
    /// The identifier of the semantic definition of the element, its main semantic ID.
    semantic_id: Option<Reference>,
    /// The identifiers of supplemental semantic definitions of the element.
    supplemental_semantic_ids: Vec<Reference>,
    /// The additional qualifications of the element.
    qualifiers: Vec<Qualifier>,
    /// The external references to the data specification templates used by the element.
    data_specifications: Vec<Reference>,
    /// The reference to the first element, the subject.
    first: Option<Reference>,
    /// The reference to the second element, the object.
    second: Option<Reference>,
}

/// The mathematical form of an [`AnnotatedRelationshipElement`].
#[verifier::ext_equal]
pub struct AnnotatedRelationshipElementView {
    pub annotations: Seq<DataElementView>,
    pub category: Option<Seq<char>>,
    pub id_short: Option<Seq<char>>,
    pub display_name: Seq<MultiLanguageNameTypeView>,
    pub description: Seq<MultiLanguageTextTypeView>,
    pub extensions: Seq<ExtensionView>,
    pub semantic_id: Option<ReferenceView>,
    pub supplemental_semantic_ids: Seq<ReferenceView>,
    pub qualifiers: Seq<QualifierView>,
    pub data_specifications: Seq<ReferenceView>,
    pub first: Option<ReferenceView>,
    pub second: Option<ReferenceView>,
}

impl View for AnnotatedRelationshipElement {
    type V = AnnotatedRelationshipElementView;

    closed spec fn view(&self) -> AnnotatedRelationshipElementView {
        AnnotatedRelationshipElementView {
            annotations: self.annotations.deep_view(),
            category: self.category.deep_view(),
            id_short: self.id_short.deep_view(),
            display_name: self.display_name.deep_view(),
            description: self.description.deep_view(),
            extensions: self.extensions.deep_view(),
            semantic_id: self.semantic_id.deep_view(),
            supplemental_semantic_ids: self.supplemental_semantic_ids.deep_view(),
            qualifiers: self.qualifiers.deep_view(),
            data_specifications: self.data_specifications.deep_view(),
            first: self.first.deep_view(),
            second: self.second.deep_view(),
        }
    }
}

impl DeepView for AnnotatedRelationshipElement {
    type V = AnnotatedRelationshipElementView;

    open spec fn deep_view(&self) -> AnnotatedRelationshipElementView {
        self@
    }
}

impl Clone for AnnotatedRelationshipElement {
    fn clone(&self) -> (r: AnnotatedRelationshipElement)
        ensures
            r@ == self@,
    {
        AnnotatedRelationshipElement {
            annotations: DataElement::clone_list(&self.annotations),
            category: self.category.clone(),
            id_short: self.id_short.clone(),
            display_name: MultiLanguageNameType::clone_list(&self.display_name),
            description: MultiLanguageTextType::clone_list(&self.description),
            extensions: Extension::clone_list(&self.extensions),
            semantic_id: match &self.semantic_id {
                Some(v) => Some(v.clone()),
                None => None,
            },
            supplemental_semantic_ids: Reference::clone_list(&self.supplemental_semantic_ids),
            qualifiers: Qualifier::clone_list(&self.qualifiers),
            data_specifications: Reference::clone_list(&self.data_specifications),
            first: match &self.first {
                Some(v) => Some(v.clone()),
                None => None,
            },
            second: match &self.second {
                Some(v) => Some(v.clone()),
                None => None,
            },
        }
    }
}

impl AnnotatedRelationshipElement {
    /// Creates an annotated relationship element with everything absent or empty.
    pub fn new() -> (r: AnnotatedRelationshipElement)
        ensures
            r@ == (AnnotatedRelationshipElementView {
                annotations: Seq::empty(),
                category: None,
                id_short: None,
                display_name: Seq::empty(),
                description: Seq::empty(),
                extensions: Seq::empty(),
                semantic_id: None,
                supplemental_semantic_ids: Seq::empty(),
                qualifiers: Seq::empty(),
                data_specifications: Seq::empty(),
                first: None,
                second: None,
            }),
    {
        AnnotatedRelationshipElement {
            annotations: Vec::new(),
            category: None,
            id_short: None,
            display_name: Vec::new(),
            description: Vec::new(),
            extensions: Vec::new(),
            semantic_id: None,
            supplemental_semantic_ids: Vec::new(),
            qualifiers: Vec::new(),
            data_specifications: Vec::new(),
            first: None,
            second: None,
        }
    }

    /// Sets the data elements that annotate the relationship between the two elements.
    pub fn set_annotations(&mut self, annotations: Vec<DataElement>)
        ensures
            final(self)@ ==
                (AnnotatedRelationshipElementView { annotations: annotations.deep_view(),
                ..old(self)@ }),
    {
        self.annotations = annotations;
    }

    /// Returns the data elements that annotate the relationship between the two elements.
    pub fn get_data_elements(&self) -> (r: &Vec<DataElement>)
        ensures
            r.deep_view() == self@.annotations,
    {
        &self.annotations
    }

    /// Adds a data element that annotates the relationship at the end.
    pub fn add_data_element(&mut self, data_element: DataElement)
        ensures
            final(self)@ ==
                (AnnotatedRelationshipElementView { annotations: old(self)@.annotations.push(
                data_element@), ..old(self)@ }),
    {
        self.annotations.push(data_element);
    }

    /// Removes and returns the data element that annotates the relationship at position `index`.
    /// Where there is none,
    /// nothing changes and the index is reported as out of range.
    pub fn remove_data_element(&mut self, index: usize) -> (r: Result<DataElement, ModelError>)
        ensures
            match r {
                Ok(item) => index < old(self)@.annotations.len()
                    && item@ == old(self)@.annotations[index as int]
                    && final(self)@ ==
                        (AnnotatedRelationshipElementView {
                        annotations: old(self)@.annotations.remove(index as int),
                        ..old(self)@ }),
                Err(e) => index >= old(self)@.annotations.len() && e == ModelError::IndexOutOfRange
                    && final(self)@ == old(self)@,
            },
    {
        if index < self.annotations.len() {
            Ok(self.annotations.remove(index))
        } else {
            Err(ModelError::IndexOutOfRange)
        }
    }
}

impl TReferable for AnnotatedRelationshipElement {
    open spec fn referable(&self) -> ReferableAspect {
        ReferableAspect {
            category: self@.category,
            id_short: self@.id_short,
            display_name: self@.display_name,
            description: self@.description,
        }
    }

    fn set_category(&mut self, category: String)
        ensures
            final(self)@ ==
                (AnnotatedRelationshipElementView { category: Some(category@), ..old(self)@ }),
    {
        self.category = Some(category);
    }

    fn get_category(&self) -> (r: Option<&String>) {
        self.category.as_ref()
    }

    fn get_mut_category(&mut self) -> (r: Option<&mut String>)
        ensures
            match r {
                Some(m) =>
                    final(self)@ ==
                    (AnnotatedRelationshipElementView { category: Some(final(m)@),
                    ..old(self)@ }),
                None => final(self)@ == old(self)@,
            },
    {
        self.category.as_mut()
    }

    fn set_id_short(&mut self, id_short: String)
        ensures
            final(self)@ ==
                (AnnotatedRelationshipElementView { id_short: Some(id_short@), ..old(self)@ }),
    {
        self.id_short = Some(id_short);
    }

    fn get_id_short(&self) -> (r: Option<&String>) {
        self.id_short.as_ref()
    }

    fn get_mut_id_short(&mut self) -> (r: Option<&mut String>)
        ensures
            match r {
                Some(m) =>
                    final(self)@ ==
                    (AnnotatedRelationshipElementView { id_short: Some(final(m)@),
                    ..old(self)@ }),
                None => final(self)@ == old(self)@,
            },
    {
        self.id_short.as_mut()
    }

    fn set_display_name(&mut self, display_name: Vec<MultiLanguageNameType>)
        ensures
            final(self)@ ==
                (AnnotatedRelationshipElementView { display_name: display_name.deep_view(),
                ..old(self)@ }),
    {
        self.display_name = display_name;
    }

    fn get_display_name(&self) -> (r: &Vec<MultiLanguageNameType>) {
        &self.display_name
    }

    fn get_mut_display_name(&mut self) -> (r: &mut Vec<MultiLanguageNameType>)
        ensures
            final(self)@ ==
                (AnnotatedRelationshipElementView { display_name: final(r).deep_view(),
                ..old(self)@ }),
    {
        &mut self.display_name
    }

    fn add_display_name(&mut self, display_name: MultiLanguageNameType)
        ensures
            final(self)@ ==
                (AnnotatedRelationshipElementView { display_name: old(self)@.display_name.push(
                display_name@), ..old(self)@ }),
    {
        self.display_name.push(display_name);
    }

    fn remove_display_name(&mut self, index: usize) -> (r: Result<MultiLanguageNameType,
        ModelError>)
        ensures
            match r {
                Ok(item) =>
                    final(self)@ ==
                    (AnnotatedRelationshipElementView {
                    display_name: old(self)@.display_name.remove(index as int),
                    ..old(self)@ }),
                Err(e) => final(self)@ == old(self)@,
            },
    {
        if index < self.display_name.len() {
            Ok(self.display_name.remove(index))
        } else {
            Err(ModelError::IndexOutOfRange)
        }
    }

    fn set_description(&mut self, description: Vec<MultiLanguageTextType>)
        ensures
            final(self)@ ==
                (AnnotatedRelationshipElementView { description: description.deep_view(),
                ..old(self)@ }),
    {
        self.description = description;
    }

    fn get_description(&self) -> (r: &Vec<MultiLanguageTextType>) {
        &self.description
    }

    fn get_mut_description(&mut self) -> (r: &mut Vec<MultiLanguageTextType>)
        ensures
            final(self)@ ==
                (AnnotatedRelationshipElementView { description: final(r).deep_view(),
                ..old(self)@ }),
    {
        &mut self.description
    }

    fn add_description(&mut self, description: MultiLanguageTextType)
        ensures
            final(self)@ ==
                (AnnotatedRelationshipElementView { description: old(self)@.description.push(
                description@), ..old(self)@ }),
    {
        self.description.push(description);
    }

    fn remove_description(&mut self, index: usize) -> (r: Result<MultiLanguageTextType, ModelError>)
        ensures
            match r {
                Ok(item) =>
                    final(self)@ ==
                    (AnnotatedRelationshipElementView {
                    description: old(self)@.description.remove(index as int),
                    ..old(self)@ }),
                Err(e) => final(self)@ == old(self)@,
            },
    {
        if index < self.description.len() {
            Ok(self.description.remove(index))
        } else {
            Err(ModelError::IndexOutOfRange)
        }
    }
}

impl THasExtensions for AnnotatedRelationshipElement {
    open spec fn extensions_view(&self) -> Seq<ExtensionView> {
        self@.extensions
    }

    fn set_extensions(&mut self, extensions: Vec<Extension>)
        ensures
            final(self)@ ==
                (AnnotatedRelationshipElementView { extensions: extensions.deep_view(),
                ..old(self)@ }),
    {
        self.extensions = extensions;
    }

    fn get_extensions(&self) -> (r: &Vec<Extension>) {
        &self.extensions
    }

    fn get_mut_extensions(&mut self) -> (r: &mut Vec<Extension>)
        ensures
            final(self)@ ==
                (AnnotatedRelationshipElementView { extensions: final(r).deep_view(),
                ..old(self)@ }),
    {
        &mut self.extensions
    }

    fn add_extension(&mut self, extension: Extension)
        ensures
            final(self)@ ==
                (AnnotatedRelationshipElementView { extensions: old(self)@.extensions.push(
                extension@), ..old(self)@ }),
    {
        self.extensions.push(extension);
    }

    fn remove_extension(&mut self, index: usize) -> (r: Result<Extension, ModelError>)
        ensures
            match r {
                Ok(item) =>
                    final(self)@ ==
                    (AnnotatedRelationshipElementView {
                    extensions: old(self)@.extensions.remove(index as int), ..old(self)@ }),
                Err(e) => final(self)@ == old(self)@,
            },
    {
        if index < self.extensions.len() {
            Ok(self.extensions.remove(index))
        } else {
            Err(ModelError::IndexOutOfRange)
        }
    }
}

impl THasSemantics for AnnotatedRelationshipElement {
    open spec fn semantics(&self) -> SemanticsAspect {
        SemanticsAspect {
            semantic_id: self@.semantic_id,
            supplemental_semantic_ids: self@.supplemental_semantic_ids,
        }
    }

    fn set_semantic_id(&mut self, semantic_id: Reference)
        ensures
            final(self)@ ==
                (AnnotatedRelationshipElementView { semantic_id: Some(semantic_id@),
                ..old(self)@ }),
    {
        self.semantic_id = Some(semantic_id);
    }

    fn get_semantic_id(&self) -> (r: Option<&Reference>) {
        self.semantic_id.as_ref()
    }

    fn get_mut_semantic_id(&mut self) -> (r: Option<&mut Reference>)
        ensures
            match r {
                Some(m) =>
                    final(self)@ ==
                    (AnnotatedRelationshipElementView { semantic_id: Some(final(m)@),
                    ..old(self)@ }),
                None => final(self)@ == old(self)@,
            },
    {
        self.semantic_id.as_mut()
    }

    fn set_supplemental_semantic_ids(&mut self, supplemental_semantic_ids: Vec<Reference>)
        ensures
            final(self)@ ==
                (AnnotatedRelationshipElementView {
                supplemental_semantic_ids: supplemental_semantic_ids.deep_view(),
                ..old(self)@ }),
    {
        self.supplemental_semantic_ids = supplemental_semantic_ids;
    }

    fn get_supplemental_semantic_ids(&self) -> (r: &Vec<Reference>) {
        &self.supplemental_semantic_ids
    }

    fn get_mut_supplemental_semantic_ids(&mut self) -> (r: &mut Vec<Reference>)
        ensures
            final(self)@ ==
                (AnnotatedRelationshipElementView { supplemental_semantic_ids: final(r).deep_view(),
                ..old(self)@ }),
    {
        &mut self.supplemental_semantic_ids
    }

    fn add_supplemental_semantic_id(&mut self, supplemental_semantic_id: Reference)
        ensures
            final(self)@ ==
                (AnnotatedRelationshipElementView {
                supplemental_semantic_ids: old(self)@.supplemental_semantic_ids.push(
                supplemental_semantic_id@), ..old(self)@ }),
    {
        self.supplemental_semantic_ids.push(supplemental_semantic_id);
    }

    fn remove_supplemental_semantic_id(&mut self, index: usize) -> (r: Result<Reference,
        ModelError>)
        ensures
            match r {
                Ok(item) =>
                    final(self)@ ==
                    (AnnotatedRelationshipElementView {
                    supplemental_semantic_ids: old(self)@.supplemental_semantic_ids.remove(
                    index as int), ..old(self)@ }),
                Err(e) => final(self)@ == old(self)@,
            },
    {
        if index < self.supplemental_semantic_ids.len() {
            Ok(self.supplemental_semantic_ids.remove(index))
        } else {
            Err(ModelError::IndexOutOfRange)
        }
    }
}

impl TQualifiable for AnnotatedRelationshipElement {
    open spec fn qualifiers_view(&self) -> Seq<QualifierView> {
        self@.qualifiers
    }

    fn set_qualifiers(&mut self, qualifiers: Vec<Qualifier>)
        ensures
            final(self)@ ==
                (AnnotatedRelationshipElementView { qualifiers: qualifiers.deep_view(),
                ..old(self)@ }),
    {
        self.qualifiers = qualifiers;
    }

    fn get_qualifiers(&self) -> (r: &Vec<Qualifier>) {
        &self.qualifiers
    }

    fn get_mut_qualifiers(&mut self) -> (r: &mut Vec<Qualifier>)
        ensures
            final(self)@ ==
                (AnnotatedRelationshipElementView { qualifiers: final(r).deep_view(),
                ..old(self)@ }),
    {
        &mut self.qualifiers
    }

    fn add_qualifier(&mut self, qualifier: Qualifier)
        ensures
            final(self)@ ==
                (AnnotatedRelationshipElementView { qualifiers: old(self)@.qualifiers.push(
                qualifier@), ..old(self)@ }),
    {
        self.qualifiers.push(qualifier);
    }

    fn remove_qualifier(&mut self, index: usize) -> (r: Result<Qualifier, ModelError>)
        ensures
            match r {
                Ok(item) =>
                    final(self)@ ==
                    (AnnotatedRelationshipElementView {
                    qualifiers: old(self)@.qualifiers.remove(index as int), ..old(self)@ }),
                Err(e) => final(self)@ == old(self)@,
            },
    {
        if index < self.qualifiers.len() {
            Ok(self.qualifiers.remove(index))
        } else {
            Err(ModelError::IndexOutOfRange)
        }
    }
}

impl THasDataSpecification for AnnotatedRelationshipElement {
    open spec fn data_specifications_view(&self) -> Seq<ReferenceView> {
        self@.data_specifications
    }

    fn set_data_specifications(&mut self, data_specifications: Vec<Reference>)
        ensures
            final(self)@ ==
                (AnnotatedRelationshipElementView {
                data_specifications: data_specifications.deep_view(), ..old(self)@ }),
    {
        self.data_specifications = data_specifications;
    }

    fn get_data_specifications(&self) -> (r: &Vec<Reference>) {
        &self.data_specifications
    }

    fn get_mut_data_specifications(&mut self) -> (r: &mut Vec<Reference>)
        ensures
            final(self)@ ==
                (AnnotatedRelationshipElementView { data_specifications: final(r).deep_view(),
                ..old(self)@ }),
    {
        &mut self.data_specifications
    }

    fn add_data_specification(&mut self, data_specification: Reference)
        ensures
            final(self)@ ==
                (AnnotatedRelationshipElementView {
                data_specifications: old(self)@.data_specifications.push(data_specification@),
                ..old(self)@ }),
    {
        self.data_specifications.push(data_specification);
    }

    fn remove_data_specification(&mut self, index: usize) -> (r: Result<Reference, ModelError>)
        ensures
            match r {
                Ok(item) =>
                    final(self)@ ==
                    (AnnotatedRelationshipElementView {
                    data_specifications: old(self)@.data_specifications.remove(
                    index as int), ..old(self)@ }),
                Err(e) => final(self)@ == old(self)@,
            },
    {
        if index < self.data_specifications.len() {
            Ok(self.data_specifications.remove(index))
        } else {
            Err(ModelError::IndexOutOfRange)
        }
    }
}

impl TRelationshipElement for AnnotatedRelationshipElement {
    open spec fn relationship(&self) -> RelationshipAspect {
        RelationshipAspect {
            first: self@.first,
            second: self@.second,
        }
    }

    fn set_first(&mut self, first: Reference)
        ensures
            final(self)@ ==
                (AnnotatedRelationshipElementView { first: Some(first@), ..old(self)@ }),
    {
        self.first = Some(first);
    }

    fn get_first(&self) -> (r: Option<&Reference>) {
        self.first.as_ref()
    }

    fn get_mut_first(&mut self) -> (r: Option<&mut Reference>)
        ensures
            match r {
                Some(m) =>
                    final(self)@ ==
                    (AnnotatedRelationshipElementView { first: Some(final(m)@), ..old(self)@ }),
                None => final(self)@ == old(self)@,
            },
    {
        self.first.as_mut()
    }

    fn set_second(&mut self, second: Reference)
        ensures
            final(self)@ ==
                (AnnotatedRelationshipElementView { second: Some(second@), ..old(self)@ }),
    {
        self.second = Some(second);
    }

    fn get_second(&self) -> (r: Option<&Reference>) {
        self.second.as_ref()
    }

    fn get_mut_second(&mut self) -> (r: Option<&mut Reference>)
        ensures
            match r {
                Some(m) =>
                    final(self)@ ==
                    (AnnotatedRelationshipElementView { second: Some(final(m)@),
                    ..old(self)@ }),
                None => final(self)@ == old(self)@,
            },
    {
        self.second.as_mut()
    }
}

impl TSubmodelElement for AnnotatedRelationshipElement {
}

impl AnnotatedRelationshipElementView {
    /// The same value with what it carries of the aspect replaced.
    pub open spec fn with_referable(self, aspect: ReferableAspect)
        -> AnnotatedRelationshipElementView {
        AnnotatedRelationshipElementView {
            category: aspect.category,
            id_short: aspect.id_short,
            display_name: aspect.display_name,
            description: aspect.description,
            ..self
        }
    }

    /// The same value with the extensions of the element replaced.
    pub open spec fn with_extensions(self, extensions: Seq<ExtensionView>)
        -> AnnotatedRelationshipElementView {
        AnnotatedRelationshipElementView {
            extensions,
            ..self
        }
    }

    /// The same value with what it carries of the aspect replaced.
    pub open spec fn with_semantics(self, aspect: SemanticsAspect)
        -> AnnotatedRelationshipElementView {
        AnnotatedRelationshipElementView {
            semantic_id: aspect.semantic_id,
            supplemental_semantic_ids: aspect.supplemental_semantic_ids,
            ..self
        }
    }

    /// The same value with the additional qualifications of the element replaced.
    pub open spec fn with_qualifiers(self, qualifiers: Seq<QualifierView>)
        -> AnnotatedRelationshipElementView {
        AnnotatedRelationshipElementView {
            qualifiers,
            ..self
        }
    }

    /// The same value with the external references to the data specification templates used by the
    /// element replaced.
    pub open spec fn with_data_specifications(self, data_specifications: Seq<ReferenceView>)
        -> AnnotatedRelationshipElementView {
        AnnotatedRelationshipElementView {
            data_specifications,
            ..self
        }
    }

    /// The same value with what it carries of the aspect replaced.
    pub open spec fn with_relationship(self, aspect: RelationshipAspect)
        -> AnnotatedRelationshipElementView {
        AnnotatedRelationshipElementView {
            first: aspect.first,
            second: aspect.second,
            ..self
        }
    }

    /// Whether every reference in the value is well formed.
    pub open spec fn well_formed(self) -> bool {
        &&& (forall|i: int| 0 <= i < self.annotations.len() ==>
            (#[trigger] self.annotations[i]).well_formed())
        &&& (forall|i: int| 0 <= i < self.extensions.len() ==>
            (#[trigger] self.extensions[i]).well_formed())
        &&& (self.semantic_id matches Some(v) ==> v.well_formed())
        &&& (forall|i: int| 0 <= i < self.supplemental_semantic_ids.len() ==>
            (#[trigger] self.supplemental_semantic_ids[i]).well_formed())
        &&& (forall|i: int| 0 <= i < self.qualifiers.len() ==>
            (#[trigger] self.qualifiers[i]).well_formed())
        &&& (forall|i: int| 0 <= i < self.data_specifications.len() ==>
            (#[trigger] self.data_specifications[i]).well_formed())
        &&& (self.first matches Some(v) ==> v.well_formed())
        &&& (self.second matches Some(v) ==> v.well_formed())
    }

    /// The members of a record that begins with `before` and goes on with
    /// the members of the value, in their order.
    #[verifier::opaque]
    pub open spec fn members_after(self, before: Seq<FieldView>) -> Seq<FieldView> {
        before
            .push(member("annotations"@, DataElementView::list_to_wire(self.annotations)))
            .push(member("category"@, optional_text_encode(self.category)))
            .push(member("idShort"@, optional_text_encode(self.id_short)))
            .push(member("displayName"@,
                MultiLanguageNameTypeView::list_to_wire(self.display_name)))
            .push(member("description"@, MultiLanguageTextTypeView::list_to_wire(self.description)))
            .push(member("extensions"@, ExtensionView::list_to_wire(self.extensions)))
            .push(member("semanticId"@, ReferenceView::optional_to_wire(self.semantic_id)))
            .push(member("supplementalSemanticIds"@,
                ReferenceView::list_to_wire(self.supplemental_semantic_ids)))
            .push(member("qualifiers"@, QualifierView::list_to_wire(self.qualifiers)))
            .push(member("embeddedDataSpecifications"@,
                ReferenceView::list_to_wire(self.data_specifications)))
            .push(member("first"@, ReferenceView::optional_to_wire(self.first)))
            .push(member("second"@, ReferenceView::optional_to_wire(self.second)))
    }

    /// The value on the wire: the record of its members.
    pub open spec fn to_wire(self) -> WireView {
        WireView::Record(self.members_after(Seq::empty()))
    }

    /// The value that the members of a record stand for. Members of other
    /// names are passed over; of two members of one name the first counts;
    /// the first member in the order above that cannot be decoded decides
    /// the failure.
    #[verifier::opaque]
    pub open spec fn from_members(fields: Seq<FieldView>)
        -> Result<AnnotatedRelationshipElementView, DecodeErrorView> {
        let annotations = match lookup(fields, "annotations"@) {
            None => Err(fail_at(DecodeFault::MissingField, "annotations"@)),
            Some(x) => in_field("annotations"@, DataElementView::list_from_wire(x)),
        };
        let category = match present(fields, "category"@) {
            None => Ok(None),
            Some(x) => optional(in_field("category"@, text_decode(x))),
        };
        let id_short = match present(fields, "idShort"@) {
            None => Ok(None),
            Some(x) => optional(in_field("idShort"@, text_decode(x))),
        };
        let display_name = match lookup(fields, "displayName"@) {
            None => Err(fail_at(DecodeFault::MissingField, "displayName"@)),
            Some(x) => in_field("displayName"@, MultiLanguageNameTypeView::list_from_wire(x)),
        };
        let description = match lookup(fields, "description"@) {
            None => Err(fail_at(DecodeFault::MissingField, "description"@)),
            Some(x) => in_field("description"@, MultiLanguageTextTypeView::list_from_wire(x)),
        };
        let extensions = match lookup(fields, "extensions"@) {
            None => Err(fail_at(DecodeFault::MissingField, "extensions"@)),
            Some(x) => in_field("extensions"@, ExtensionView::list_from_wire(x)),
        };
        let semantic_id = match present(fields, "semanticId"@) {
            None => Ok(None),
            Some(x) => optional(in_field("semanticId"@, ReferenceView::from_wire(x))),
        };
        let supplemental_semantic_ids = match lookup(fields, "supplementalSemanticIds"@) {
            None => Err(fail_at(DecodeFault::MissingField, "supplementalSemanticIds"@)),
            Some(x) => in_field("supplementalSemanticIds"@, ReferenceView::list_from_wire(x)),
        };
        let qualifiers = match lookup(fields, "qualifiers"@) {
            None => Err(fail_at(DecodeFault::MissingField, "qualifiers"@)),
            Some(x) => in_field("qualifiers"@, QualifierView::list_from_wire(x)),
        };
        let data_specifications = match lookup(fields, "embeddedDataSpecifications"@) {
            None => Err(fail_at(DecodeFault::MissingField, "embeddedDataSpecifications"@)),
            Some(x) => in_field("embeddedDataSpecifications"@, ReferenceView::list_from_wire(x)),
        };
        let first = match present(fields, "first"@) {
            None => Ok(None),
            Some(x) => optional(in_field("first"@, ReferenceView::from_wire(x))),
        };
        let second = match present(fields, "second"@) {
            None => Ok(None),
            Some(x) => optional(in_field("second"@, ReferenceView::from_wire(x))),
        };
        if annotations is Err {
            Err(annotations->Err_0)
        } else if category is Err {
            Err(category->Err_0)
        } else if id_short is Err {
            Err(id_short->Err_0)
        } else if display_name is Err {
            Err(display_name->Err_0)
        } else if description is Err {
            Err(description->Err_0)
        } else if extensions is Err {
            Err(extensions->Err_0)
        } else if semantic_id is Err {
            Err(semantic_id->Err_0)
        } else if supplemental_semantic_ids is Err {
            Err(supplemental_semantic_ids->Err_0)
        } else if qualifiers is Err {
            Err(qualifiers->Err_0)
        } else if data_specifications is Err {
            Err(data_specifications->Err_0)
        } else if first is Err {
            Err(first->Err_0)
        } else if second is Err {
            Err(second->Err_0)
        } else {
            Ok(AnnotatedRelationshipElementView {
                annotations: annotations->Ok_0,
                category: category->Ok_0,
                id_short: id_short->Ok_0,
                display_name: display_name->Ok_0,
                description: description->Ok_0,
                extensions: extensions->Ok_0,
                semantic_id: semantic_id->Ok_0,
                supplemental_semantic_ids: supplemental_semantic_ids->Ok_0,
                qualifiers: qualifiers->Ok_0,
                data_specifications: data_specifications->Ok_0,
                first: first->Ok_0,
                second: second->Ok_0,
            })
        }
    }

    /// The value that a wire value stands for.
    pub open spec fn from_wire(w: WireView) -> Result<AnnotatedRelationshipElementView,
        DecodeErrorView> {
        match w {
            WireView::Record(fields) => AnnotatedRelationshipElementView::from_members(fields),
            _ => Err(fail(DecodeFault::ExpectedRecord)),
        }
    }

    /// The members of the value hide no type name that the record begins with.
    pub proof fn lemma_model_type_kept(self, tag: Option<Seq<char>>)
        ensures
            lookup(self.members_after(tagged(tag)), "modelType"@) == lookup(
                tagged(tag),
                "modelType"@,
            ),
    {
        broadcast use lemma_lookup_push;

        reveal(AnnotatedRelationshipElementView::members_after);
        lemma_name_codes();
    }

    /// The value is found again from the members of its record, whether the
    /// record begins with a type name or not.
    pub proof fn lemma_members_round_trip(self, tag: Option<Seq<char>>)
        requires
            self.well_formed(),
        ensures
            AnnotatedRelationshipElementView::from_members(self.members_after(tagged(tag))) ==
                Ok::<AnnotatedRelationshipElementView, DecodeErrorView>(
                self,
            ),
    {
        broadcast use lemma_lookup_push;

        reveal(AnnotatedRelationshipElementView::members_after);
        reveal(AnnotatedRelationshipElementView::from_members);
        lemma_name_codes();
        DataElementView::lemma_list_round_trip(self.annotations);
        MultiLanguageNameTypeView::lemma_list_round_trip(self.display_name);
        MultiLanguageTextTypeView::lemma_list_round_trip(self.description);
        ExtensionView::lemma_list_round_trip(self.extensions);
        match self.semantic_id {
            Some(v) => {
                v.lemma_round_trip();
            },
            None => {},
        }
        ReferenceView::lemma_list_round_trip(self.supplemental_semantic_ids);
        QualifierView::lemma_list_round_trip(self.qualifiers);
        ReferenceView::lemma_list_round_trip(self.data_specifications);
        match self.first {
            Some(v) => {
                v.lemma_round_trip();
            },
            None => {},
        }
        match self.second {
            Some(v) => {
                v.lemma_round_trip();
            },
            None => {},
        }
    }

    /// Every value is found again from what it is on the wire.
    pub proof fn lemma_round_trip(self)
        requires
            self.well_formed(),
        ensures
            AnnotatedRelationshipElementView::from_wire(self.to_wire()) ==
                Ok::<AnnotatedRelationshipElementView, DecodeErrorView>(self),
    {
        self.lemma_members_round_trip(None);
    }
}

impl AnnotatedRelationshipElement {
    /// The value as it travels: the record of its members. What comes out
    /// decodes to the same value again.
    pub fn encode(&self) -> (w: Wire)
        ensures
            w@ == self@.to_wire(),
            self@.well_formed(),
            AnnotatedRelationshipElementView::from_wire(w@) ==
                Ok::<AnnotatedRelationshipElementView, DecodeErrorView>(self@),
    {
        let mut fields: Vec<Field> = Vec::new();
        assert(fields.deep_view() =~= Seq::<FieldView>::empty());
        self.encode_members(&mut fields);
        proof {
            self@.lemma_round_trip();
        }
        Wire::record(fields)
    }

    /// Appends the members of the value, as they travel, to `fields`.
    pub fn encode_members(&self, fields: &mut Vec<Field>)
        ensures
            final(fields).deep_view() == self@.members_after(old(fields).deep_view()),
            self@.well_formed(),
    {
        reveal(AnnotatedRelationshipElementView::members_after);
        add_member(fields, "annotations", DataElement::encode_list(&self.annotations));
        add_member(fields, "category", encode_optional_text(&self.category));
        add_member(fields, "idShort", encode_optional_text(&self.id_short));
        add_member(fields, "displayName", MultiLanguageNameType::encode_list(&self.display_name));
        add_member(fields, "description", MultiLanguageTextType::encode_list(&self.description));
        add_member(fields, "extensions", Extension::encode_list(&self.extensions));
        add_member(fields, "semanticId", Reference::encode_optional(&self.semantic_id));
        add_member(fields, "supplementalSemanticIds",
            Reference::encode_list(&self.supplemental_semantic_ids));
        add_member(fields, "qualifiers", Qualifier::encode_list(&self.qualifiers));
        add_member(fields, "embeddedDataSpecifications",
            Reference::encode_list(&self.data_specifications));
        add_member(fields, "first", Reference::encode_optional(&self.first));
        add_member(fields, "second", Reference::encode_optional(&self.second));
    }

    /// The value that `w` stands for.
    pub fn decode(w: &Wire) -> (r: Result<AnnotatedRelationshipElement, DecodeError>)
        ensures
            outcome(r) == AnnotatedRelationshipElementView::from_wire(w@),
    {
        match w.members() {
            Some(fields) => AnnotatedRelationshipElement::decode_members(fields),
            None => Err(DecodeError::new(DecodeFault::ExpectedRecord)),
        }
    }

    /// The value that the members `fields` of a record stand for.
    pub fn decode_members(fields: &Vec<Field>) -> (r: Result<AnnotatedRelationshipElement,
        DecodeError>)
        ensures
            outcome(r) == AnnotatedRelationshipElementView::from_members(fields.deep_view()),
    {
        reveal(AnnotatedRelationshipElementView::from_members);
        let annotations = match find(fields, "annotations") {
            None => Err(DecodeError::at(DecodeFault::MissingField, "annotations")),
            Some(x) => match DataElement::decode_list(x) {
                Ok(v) => Ok(v),
                Err(e) => Err(e.under_field("annotations")),
            },
        };
        let category = match find_present(fields, "category") {
            None => Ok(None),
            Some(x) => match decode_text(x) {
                Ok(v) => Ok(Some(v)),
                Err(e) => Err(e.under_field("category")),
            },
        };
        let id_short = match find_present(fields, "idShort") {
            None => Ok(None),
            Some(x) => match decode_text(x) {
                Ok(v) => Ok(Some(v)),
                Err(e) => Err(e.under_field("idShort")),
            },
        };
        let display_name = match find(fields, "displayName") {
            None => Err(DecodeError::at(DecodeFault::MissingField, "displayName")),
            Some(x) => match MultiLanguageNameType::decode_list(x) {
                Ok(v) => Ok(v),
                Err(e) => Err(e.under_field("displayName")),
            },
        };
        let description = match find(fields, "description") {
            None => Err(DecodeError::at(DecodeFault::MissingField, "description")),
            Some(x) => match MultiLanguageTextType::decode_list(x) {
                Ok(v) => Ok(v),
                Err(e) => Err(e.under_field("description")),
            },
        };
        let extensions = match find(fields, "extensions") {
            None => Err(DecodeError::at(DecodeFault::MissingField, "extensions")),
            Some(x) => match Extension::decode_list(x) {
                Ok(v) => Ok(v),
                Err(e) => Err(e.under_field("extensions")),
            },
        };
        let semantic_id = match find_present(fields, "semanticId") {
            None => Ok(None),
            Some(x) => match Reference::decode(x) {
                Ok(v) => Ok(Some(v)),
                Err(e) => Err(e.under_field("semanticId")),
            },
        };
        let supplemental_semantic_ids = match find(fields, "supplementalSemanticIds") {
            None => Err(DecodeError::at(DecodeFault::MissingField, "supplementalSemanticIds")),
            Some(x) => match Reference::decode_list(x) {
                Ok(v) => Ok(v),
                Err(e) => Err(e.under_field("supplementalSemanticIds")),
            },
        };
        let qualifiers = match find(fields, "qualifiers") {
            None => Err(DecodeError::at(DecodeFault::MissingField, "qualifiers")),
            Some(x) => match Qualifier::decode_list(x) {
                Ok(v) => Ok(v),
                Err(e) => Err(e.under_field("qualifiers")),
            },
        };
        let data_specifications = match find(fields, "embeddedDataSpecifications") {
            None => Err(DecodeError::at(DecodeFault::MissingField, "embeddedDataSpecifications")),
            Some(x) => match Reference::decode_list(x) {
                Ok(v) => Ok(v),
                Err(e) => Err(e.under_field("embeddedDataSpecifications")),
            },
        };
        let first = match find_present(fields, "first") {
            None => Ok(None),
            Some(x) => match Reference::decode(x) {
                Ok(v) => Ok(Some(v)),
                Err(e) => Err(e.under_field("first")),
            },
        };
        let second = match find_present(fields, "second") {
            None => Ok(None),
            Some(x) => match Reference::decode(x) {
                Ok(v) => Ok(Some(v)),
                Err(e) => Err(e.under_field("second")),
            },
        };
        let annotations = match annotations {
            Ok(v) => v,
            Err(e) => {
                return Err(e);
            },
        };
        let category = match category {
            Ok(v) => v,
            Err(e) => {
                return Err(e);
            },
        };
        let id_short = match id_short {
            Ok(v) => v,
            Err(e) => {
                return Err(e);
            },
        };
        let display_name = match display_name {
            Ok(v) => v,
            Err(e) => {
                return Err(e);
            },
        };
        let description = match description {
            Ok(v) => v,
            Err(e) => {
                return Err(e);
            },
        };
        let extensions = match extensions {
            Ok(v) => v,
            Err(e) => {
                return Err(e);
            },
        };
        let semantic_id = match semantic_id {
            Ok(v) => v,
            Err(e) => {
                return Err(e);
            },
        };
        let supplemental_semantic_ids = match supplemental_semantic_ids {
            Ok(v) => v,
            Err(e) => {
                return Err(e);
            },
        };
        let qualifiers = match qualifiers {
            Ok(v) => v,
            Err(e) => {
                return Err(e);
            },
        };
        let data_specifications = match data_specifications {
            Ok(v) => v,
            Err(e) => {
                return Err(e);
            },
        };
        let first = match first {
            Ok(v) => v,
            Err(e) => {
                return Err(e);
            },
        };
        let second = match second {
            Ok(v) => v,
            Err(e) => {
                return Err(e);
            },
        };
        let r = AnnotatedRelationshipElement { annotations, category, id_short, display_name,
            description, extensions, semantic_id, supplemental_semantic_ids, qualifiers,
            data_specifications, first, second };
        assert(r@ =~= AnnotatedRelationshipElementView::from_members(fields.deep_view())->Ok_0);
        Ok(r)
    }
}

impl AnnotatedRelationshipElementView {
    /// Whether the value and everything below it keeps what a document must
    /// keep: no language twice in one collection of texts, no short ID twice
    /// among the elements of one container, no empty and no repeated ID.
    pub open spec fn consistent(self) -> bool {
        &&& DataElementView::id_shorts_distinct(self.annotations)
        &&& (forall|i: int| 0 <= i < self.annotations.len() ==>
            (#[trigger] self.annotations[i]).consistent())
        &&& distinct(MultiLanguageNameTypeView::languages(self.display_name))
        &&& distinct(MultiLanguageTextTypeView::languages(self.description))
    }
}

impl AnnotatedRelationshipElement {
    /// Whether the value and everything below it keeps what a document must
    /// keep.
    pub fn is_consistent(&self) -> (b: bool)
        ensures
            b == self@.consistent(),
    {
        let annotations_short_ids = DataElement::id_shorts_distinct(&self.annotations);
        let annotations_below = DataElement::all_consistent(&self.annotations);
        let display_name_languages = MultiLanguageNameType::languages_distinct(&self.display_name);
        let description_languages = MultiLanguageTextType::languages_distinct(&self.description);
        annotations_short_ids && annotations_below && display_name_languages
            && description_languages
    }
}

} // verus!
