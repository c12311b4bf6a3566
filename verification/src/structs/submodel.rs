use vstd::prelude::*;
use crate::enumerations::interface_enumerations::submodel_element::{
    SubmodelElement,
    SubmodelElementView,
};
use crate::enumerations::modelling_kind::ModellingKind;
use crate::error::ModelError;
use crate::names::lemma_name_codes;
use crate::structs::administrative_information::{
    AdministrativeInformation,
    AdministrativeInformationView,
};
use crate::structs::extension::{Extension, ExtensionView};
use crate::structs::multi_language_name_type::{MultiLanguageNameType, MultiLanguageNameTypeView};
use crate::structs::multi_language_text_type::{MultiLanguageTextType, MultiLanguageTextTypeView};
use crate::structs::qualifier::{Qualifier, QualifierView};
use crate::structs::reference::{Reference, ReferenceView};
use crate::traits::has_data_specification::THasDataSpecification;
use crate::traits::has_extensions::THasExtensions;
use crate::traits::has_kind::THasKind;
use crate::traits::has_semantics::{SemanticsAspect, THasSemantics};
use crate::traits::identifiable::{IdentityAspect, TIdentifiable};
use crate::traits::qualifiable::TQualifiable;
use crate::traits::referable::{ReferableAspect, TReferable};
use crate::validation::distinct;
use crate::wire::{
    add_member,
    decode_text,
    encode_optional_text,
    encode_text,
    fail,
    fail_at,
    find,
    find_present,
    in_field,
    lemma_lookup_push,
    lemma_lookup_smaller,
    lookup,
    member,
    optional,
    optional_text_encode,
    outcome,
    present,
    tagged,
    text_decode,
    text_encode,
    DecodeError,
    DecodeErrorView,
    DecodeFault,
    Field,
    FieldView,
    PathStepView,
    Wire,
    WireView,
};

verus! {

/// A submodel defines a specific aspect of the asset represented by the Asset Administration
/// Shell.
#[derive(Debug, PartialEq)]
pub struct Submodel {
    /// The submodel elements the submodel consists of.
    submodel_elements: Vec<SubmodelElement>,
    /// The administrative information of the element.
    administrative_information: Option<AdministrativeInformation>,
    /// The globally unique identification of the element.
    id: String,
    /// The kind of the element.
    kind: Option<ModellingKind>,
    /// The identifier of the semantic definition of the element, its main semantic ID.
    semantic_id: Option<Reference>,
    /// The identifiers of supplemental semantic definitions of the element.
    supplemental_semantic_ids: Vec<Reference>,
    /// The additional qualifications of the element.
    qualifiers: Vec<Qualifier>,
    /// The external references to the data specification templates used by the element.
    data_specifications: Vec<Reference>,
    /// The category, a value that gives further meta information.
    category: Option<String>,
    /// The short ID of the element.
    id_short: Option<String>,
    /// The display name of the element, one entry for each language.
    display_name: Vec<MultiLanguageNameType>,
    /// The description of the element, one entry for each language.
    description: Vec<MultiLanguageTextType>,
    /// The extensions of the element.
    extensions: Vec<Extension>,
}

/// The mathematical form of a [`Submodel`].
#[verifier::ext_equal]
pub struct SubmodelView {
    pub submodel_elements: Seq<SubmodelElementView>,
    pub administrative_information: Option<AdministrativeInformationView>,
    pub id: Seq<char>,
    pub kind: Option<ModellingKind>,
    pub semantic_id: Option<ReferenceView>,
    pub supplemental_semantic_ids: Seq<ReferenceView>,
    pub qualifiers: Seq<QualifierView>,
    pub data_specifications: Seq<ReferenceView>,
    pub category: Option<Seq<char>>,
    pub id_short: Option<Seq<char>>,
    pub display_name: Seq<MultiLanguageNameTypeView>,
    pub description: Seq<MultiLanguageTextTypeView>,
    pub extensions: Seq<ExtensionView>,
}

impl Submodel {
    /// The mathematical form of the value.
    pub closed spec fn model(&self) -> SubmodelView
        decreases self,
    {
        SubmodelView {
            submodel_elements: Seq::new(
                self.submodel_elements@.len(),
                |i: int|
                    if 0 <= i < self.submodel_elements@.len() {
                        self.submodel_elements@[i].model()
                    } else {
                        arbitrary()
                    },
            ),
            administrative_information: self.administrative_information.deep_view(),
            id: self.id@,
            kind: self.kind,
            semantic_id: self.semantic_id.deep_view(),
            supplemental_semantic_ids: self.supplemental_semantic_ids.deep_view(),
            qualifiers: self.qualifiers.deep_view(),
            data_specifications: self.data_specifications.deep_view(),
            category: self.category.deep_view(),
            id_short: self.id_short.deep_view(),
            display_name: self.display_name.deep_view(),
            description: self.description.deep_view(),
            extensions: self.extensions.deep_view(),
        }
    }
}

/// The mathematical form of a submodel, field by field.
broadcast proof fn lemma_model(e: Submodel)
    ensures
        #[trigger] e.model() == (SubmodelView {
            submodel_elements: e.submodel_elements.deep_view(),
            administrative_information: e.administrative_information.deep_view(),
            id: e.id@,
            kind: e.kind,
            semantic_id: e.semantic_id.deep_view(),
            supplemental_semantic_ids: e.supplemental_semantic_ids.deep_view(),
            qualifiers: e.qualifiers.deep_view(),
            data_specifications: e.data_specifications.deep_view(),
            category: e.category.deep_view(),
            id_short: e.id_short.deep_view(),
            display_name: e.display_name.deep_view(),
            description: e.description.deep_view(),
            extensions: e.extensions.deep_view(),
        }),
{
    assert(e.model().submodel_elements =~= e.submodel_elements.deep_view());
}

impl View for Submodel {
    type V = SubmodelView;

    open spec fn view(&self) -> SubmodelView {
        self.model()
    }
}

impl DeepView for Submodel {
    type V = SubmodelView;

    open spec fn deep_view(&self) -> SubmodelView {
        self@
    }
}

impl Clone for Submodel {
    fn clone(&self) -> (r: Submodel)
        ensures
            r@ == self@,
        decreases self,
    {
        broadcast use lemma_model;

        Submodel {
            submodel_elements: SubmodelElement::clone_list(&self.submodel_elements),
            administrative_information: match &self.administrative_information {
                Some(v) => Some(v.clone()),
                None => None,
            },
            id: self.id.clone(),
            kind: self.kind,
            semantic_id: match &self.semantic_id {
                Some(v) => Some(v.clone()),
                None => None,
            },
            supplemental_semantic_ids: Reference::clone_list(&self.supplemental_semantic_ids),
            qualifiers: Qualifier::clone_list(&self.qualifiers),
            data_specifications: Reference::clone_list(&self.data_specifications),
            category: self.category.clone(),
            id_short: self.id_short.clone(),
            display_name: MultiLanguageNameType::clone_list(&self.display_name),
            description: MultiLanguageTextType::clone_list(&self.description),
            extensions: Extension::clone_list(&self.extensions),
        }
    }
}

impl Submodel {
    /// Creates a submodel from what it must have; everything else is
    /// absent or empty.
    pub fn new(id: String) -> (r: Submodel)
        ensures
            r@ == (SubmodelView {
                submodel_elements: Seq::empty(),
                administrative_information: None,
                id: id@,
                kind: None,
                semantic_id: None,
                supplemental_semantic_ids: Seq::empty(),
                qualifiers: Seq::empty(),
                data_specifications: Seq::empty(),
                category: None,
                id_short: None,
                display_name: Seq::empty(),
                description: Seq::empty(),
                extensions: Seq::empty(),
            }),
    {
        broadcast use lemma_model;

        let r = Submodel {
            submodel_elements: Vec::new(),
            administrative_information: None,
            id,
            kind: None,
            semantic_id: None,
            supplemental_semantic_ids: Vec::new(),
            qualifiers: Vec::new(),
            data_specifications: Vec::new(),
            category: None,
            id_short: None,
            display_name: Vec::new(),
            description: Vec::new(),
            extensions: Vec::new(),
        };
        assert(r.submodel_elements.deep_view() =~= Seq::empty());
        r
    }

    /// Sets the submodel elements the submodel consists of.
    pub fn set_submodel_elements(&mut self, submodel_elements: Vec<SubmodelElement>)
        ensures
            final(self)@ ==
                (SubmodelView { submodel_elements: submodel_elements.deep_view(), ..old(self)@ }),
    {
        broadcast use lemma_model;

        self.submodel_elements = submodel_elements;
    }

    /// Returns the submodel elements the submodel consists of.
    pub fn get_submodel_elements(&self) -> (r: &Vec<SubmodelElement>)
        ensures
            r.deep_view() == self@.submodel_elements,
    {
        broadcast use lemma_model;

        &self.submodel_elements
    }

    /// Returns the submodel elements the submodel consists of, open to change.
    pub fn get_mut_submodel_elements(&mut self) -> (r: &mut Vec<SubmodelElement>)
        ensures
            r.deep_view() == old(self)@.submodel_elements,
            final(self)@ ==
                (SubmodelView { submodel_elements: final(r).deep_view(), ..old(self)@ }),
    {
        broadcast use lemma_model;

        &mut self.submodel_elements
    }

    /// Adds a submodel element of the submodel at the end.
    pub fn add_submodel_element(&mut self, submodel_element: SubmodelElement)
        ensures
            final(self)@ ==
                (SubmodelView { submodel_elements: old(self)@.submodel_elements.push(
                submodel_element@), ..old(self)@ }),
    {
        broadcast use lemma_model;

        self.submodel_elements.push(submodel_element);
        assert(self.submodel_elements.deep_view() =~= old(self).submodel_elements.deep_view().push(
            submodel_element@));
    }

    /// Removes and returns the submodel element of the submodel at position `index`. Where there is
    /// none,
    /// nothing changes and the index is reported as out of range.
    pub fn remove_submodel_element(&mut self, index: usize) -> (r: Result<SubmodelElement,
        ModelError>)
        ensures
            match r {
                Ok(item) => index < old(self)@.submodel_elements.len()
                    && item@ == old(self)@.submodel_elements[index as int]
                    && final(self)@ ==
                        (SubmodelView { submodel_elements: old(self)@.submodel_elements.remove(
                        index as int), ..old(self)@ }),
                Err(e) => index >= old(self)@.submodel_elements.len()
                    && e == ModelError::IndexOutOfRange
                    && final(self)@ == old(self)@,
            },
    {
        broadcast use lemma_model;

        if index < self.submodel_elements.len() {
            let item = self.submodel_elements.remove(index);
            assert(self.submodel_elements.deep_view() =~= old(self).submodel_elements.deep_view().remove(
                index as int));
            Ok(item)
        } else {
            Err(ModelError::IndexOutOfRange)
        }
    }
}

impl TIdentifiable for Submodel {
    open spec fn identity(&self) -> IdentityAspect {
        IdentityAspect {
            administrative_information: self@.administrative_information,
            id: self@.id,
        }
    }

    fn set_administration(&mut self, administrative_information: AdministrativeInformation)
        ensures
            final(self)@ ==
                (SubmodelView { administrative_information: Some(administrative_information@),
                ..old(self)@ }),
    {
        broadcast use lemma_model;

        self.administrative_information = Some(administrative_information);
    }

    fn get_administration(&self) -> (r: Option<&AdministrativeInformation>) {
        broadcast use lemma_model;

        self.administrative_information.as_ref()
    }

    fn get_mut_administration(&mut self) -> (r: Option<&mut AdministrativeInformation>)
        ensures
            match r {
                Some(m) =>
                    final(self)@ ==
                    (SubmodelView { administrative_information: Some(final(m)@),
                    ..old(self)@ }),
                None => final(self)@ == old(self)@,
            },
    {
        broadcast use lemma_model;

        self.administrative_information.as_mut()
    }

    fn set_id(&mut self, id: String)
        ensures
            final(self)@ == (SubmodelView { id: id@, ..old(self)@ }),
    {
        broadcast use lemma_model;

        self.id = id;
    }

    fn get_id(&self) -> (r: &String) {
        broadcast use lemma_model;

        &self.id
    }

    fn get_mut_id(&mut self) -> (r: &mut String)
        ensures
            final(self)@ == (SubmodelView { id: final(r)@, ..old(self)@ }),
    {
        broadcast use lemma_model;

        &mut self.id
    }
}

impl THasKind for Submodel {
    open spec fn kind_view(&self) -> Option<ModellingKind> {
        self@.kind
    }

    fn set_kind(&mut self, kind: ModellingKind)
        ensures
            final(self)@ == (SubmodelView { kind: Some(kind), ..old(self)@ }),
    {
        broadcast use lemma_model;

        self.kind = Some(kind);
    }

    fn get_kind(&self) -> (r: Option<&ModellingKind>) {
        broadcast use lemma_model;

        self.kind.as_ref()
    }

    fn get_kind_mut(&mut self) -> (r: Option<&mut ModellingKind>)
        ensures
            match r {
                Some(m) => final(self)@ == (SubmodelView { kind: Some(*final(m)), ..old(self)@ }),
                None => final(self)@ == old(self)@,
            },
    {
        broadcast use lemma_model;

        self.kind.as_mut()
    }
}

impl THasSemantics for Submodel {
    open spec fn semantics(&self) -> SemanticsAspect {
        SemanticsAspect {
            semantic_id: self@.semantic_id,
            supplemental_semantic_ids: self@.supplemental_semantic_ids,
        }
    }

    fn set_semantic_id(&mut self, semantic_id: Reference)
        ensures
            final(self)@ == (SubmodelView { semantic_id: Some(semantic_id@), ..old(self)@ }),
    {
        broadcast use lemma_model;

        self.semantic_id = Some(semantic_id);
    }

    fn get_semantic_id(&self) -> (r: Option<&Reference>) {
        broadcast use lemma_model;

        self.semantic_id.as_ref()
    }

    fn get_mut_semantic_id(&mut self) -> (r: Option<&mut Reference>)
        ensures
            match r {
                Some(m) =>
                    final(self)@ == (SubmodelView { semantic_id: Some(final(m)@), ..old(self)@ }),
                None => final(self)@ == old(self)@,
            },
    {
        broadcast use lemma_model;

        self.semantic_id.as_mut()
    }

    fn set_supplemental_semantic_ids(&mut self, supplemental_semantic_ids: Vec<Reference>)
        ensures
            final(self)@ ==
                (SubmodelView { supplemental_semantic_ids: supplemental_semantic_ids.deep_view(),
                ..old(self)@ }),
    {
        broadcast use lemma_model;

        self.supplemental_semantic_ids = supplemental_semantic_ids;
    }

    fn get_supplemental_semantic_ids(&self) -> (r: &Vec<Reference>) {
        broadcast use lemma_model;

        &self.supplemental_semantic_ids
    }

    fn get_mut_supplemental_semantic_ids(&mut self) -> (r: &mut Vec<Reference>)
        ensures
            final(self)@ ==
                (SubmodelView { supplemental_semantic_ids: final(r).deep_view(), ..old(self)@ }),
    {
        broadcast use lemma_model;

        &mut self.supplemental_semantic_ids
    }

    fn add_supplemental_semantic_id(&mut self, supplemental_semantic_id: Reference)
        ensures
            final(self)@ ==
                (SubmodelView {
                supplemental_semantic_ids: old(self)@.supplemental_semantic_ids.push(
                supplemental_semantic_id@), ..old(self)@ }),
    {
        broadcast use lemma_model;

        self.supplemental_semantic_ids.push(supplemental_semantic_id);
    }

    fn remove_supplemental_semantic_id(&mut self, index: usize) -> (r: Result<Reference,
        ModelError>)
        ensures
            match r {
                Ok(item) =>
                    final(self)@ ==
                    (SubmodelView {
                    supplemental_semantic_ids: old(self)@.supplemental_semantic_ids.remove(
                    index as int), ..old(self)@ }),
                Err(e) => final(self)@ == old(self)@,
            },
    {
        broadcast use lemma_model;

        if index < self.supplemental_semantic_ids.len() {
            Ok(self.supplemental_semantic_ids.remove(index))
        } else {
            Err(ModelError::IndexOutOfRange)
        }
    }
}

impl TQualifiable for Submodel {
    open spec fn qualifiers_view(&self) -> Seq<QualifierView> {
        self@.qualifiers
    }

    fn set_qualifiers(&mut self, qualifiers: Vec<Qualifier>)
        ensures
            final(self)@ == (SubmodelView { qualifiers: qualifiers.deep_view(), ..old(self)@ }),
    {
        broadcast use lemma_model;

        self.qualifiers = qualifiers;
    }

    fn get_qualifiers(&self) -> (r: &Vec<Qualifier>) {
        broadcast use lemma_model;

        &self.qualifiers
    }

    fn get_mut_qualifiers(&mut self) -> (r: &mut Vec<Qualifier>)
        ensures
            final(self)@ == (SubmodelView { qualifiers: final(r).deep_view(), ..old(self)@ }),
    {
        broadcast use lemma_model;

        &mut self.qualifiers
    }

    fn add_qualifier(&mut self, qualifier: Qualifier)
        ensures
            final(self)@ ==
                (SubmodelView { qualifiers: old(self)@.qualifiers.push(qualifier@), ..old(self)@ }),
    {
        broadcast use lemma_model;

        self.qualifiers.push(qualifier);
    }

    fn remove_qualifier(&mut self, index: usize) -> (r: Result<Qualifier, ModelError>)
        ensures
            match r {
                Ok(item) =>
                    final(self)@ ==
                    (SubmodelView { qualifiers: old(self)@.qualifiers.remove(index as int),
                    ..old(self)@ }),
                Err(e) => final(self)@ == old(self)@,
            },
    {
        broadcast use lemma_model;

        if index < self.qualifiers.len() {
            Ok(self.qualifiers.remove(index))
        } else {
            Err(ModelError::IndexOutOfRange)
        }
    }
}

impl THasDataSpecification for Submodel {
    open spec fn data_specifications_view(&self) -> Seq<ReferenceView> {
        self@.data_specifications
    }

    fn set_data_specifications(&mut self, data_specifications: Vec<Reference>)
        ensures
            final(self)@ ==
                (SubmodelView { data_specifications: data_specifications.deep_view(),
                ..old(self)@ }),
    {
        broadcast use lemma_model;

        self.data_specifications = data_specifications;
    }

    fn get_data_specifications(&self) -> (r: &Vec<Reference>) {
        broadcast use lemma_model;

        &self.data_specifications
    }

    fn get_mut_data_specifications(&mut self) -> (r: &mut Vec<Reference>)
        ensures
            final(self)@ ==
                (SubmodelView { data_specifications: final(r).deep_view(), ..old(self)@ }),
    {
        broadcast use lemma_model;

        &mut self.data_specifications
    }

    fn add_data_specification(&mut self, data_specification: Reference)
        ensures
            final(self)@ ==
                (SubmodelView { data_specifications: old(self)@.data_specifications.push(
                data_specification@), ..old(self)@ }),
    {
        broadcast use lemma_model;

        self.data_specifications.push(data_specification);
    }

    fn remove_data_specification(&mut self, index: usize) -> (r: Result<Reference, ModelError>)
        ensures
            match r {
                Ok(item) =>
                    final(self)@ ==
                    (SubmodelView { data_specifications: old(self)@.data_specifications.remove(
                    index as int), ..old(self)@ }),
                Err(e) => final(self)@ == old(self)@,
            },
    {
        broadcast use lemma_model;

        if index < self.data_specifications.len() {
            Ok(self.data_specifications.remove(index))
        } else {
            Err(ModelError::IndexOutOfRange)
        }
    }
}

impl TReferable for Submodel {
    open spec fn referable(&self) -> ReferableAspect {
        ReferableAspect {
            category: self@.category,
            id_short: self@.id_short,
            display_name: self@.display_name,
            description: self@.description,
        }
    }

    fn set_category(&mut self, category: String)
        ensures
            final(self)@ == (SubmodelView { category: Some(category@), ..old(self)@ }),
    {
        broadcast use lemma_model;

        self.category = Some(category);
    }

    fn get_category(&self) -> (r: Option<&String>) {
        broadcast use lemma_model;

        self.category.as_ref()
    }

    fn get_mut_category(&mut self) -> (r: Option<&mut String>)
        ensures
            match r {
                Some(m) =>
                    final(self)@ == (SubmodelView { category: Some(final(m)@), ..old(self)@ }),
                None => final(self)@ == old(self)@,
            },
    {
        broadcast use lemma_model;

        self.category.as_mut()
    }

    fn set_id_short(&mut self, id_short: String)
        ensures
            final(self)@ == (SubmodelView { id_short: Some(id_short@), ..old(self)@ }),
    {
        broadcast use lemma_model;

        self.id_short = Some(id_short);
    }

    fn get_id_short(&self) -> (r: Option<&String>) {
        broadcast use lemma_model;

        self.id_short.as_ref()
    }

    fn get_mut_id_short(&mut self) -> (r: Option<&mut String>)
        ensures
            match r {
                Some(m) =>
                    final(self)@ == (SubmodelView { id_short: Some(final(m)@), ..old(self)@ }),
                None => final(self)@ == old(self)@,
            },
    {
        broadcast use lemma_model;

        self.id_short.as_mut()
    }

    fn set_display_name(&mut self, display_name: Vec<MultiLanguageNameType>)
        ensures
            final(self)@ == (SubmodelView { display_name: display_name.deep_view(), ..old(self)@ }),
    {
        broadcast use lemma_model;

        self.display_name = display_name;
    }

    fn get_display_name(&self) -> (r: &Vec<MultiLanguageNameType>) {
        broadcast use lemma_model;

        &self.display_name
    }

    fn get_mut_display_name(&mut self) -> (r: &mut Vec<MultiLanguageNameType>)
        ensures
            final(self)@ == (SubmodelView { display_name: final(r).deep_view(), ..old(self)@ }),
    {
        broadcast use lemma_model;

        &mut self.display_name
    }

    fn add_display_name(&mut self, display_name: MultiLanguageNameType)
        ensures
            final(self)@ ==
                (SubmodelView { display_name: old(self)@.display_name.push(display_name@),
                ..old(self)@ }),
    {
        broadcast use lemma_model;

        self.display_name.push(display_name);
    }

    fn remove_display_name(&mut self, index: usize) -> (r: Result<MultiLanguageNameType,
        ModelError>)
        ensures
            match r {
                Ok(item) =>
                    final(self)@ ==
                    (SubmodelView { display_name: old(self)@.display_name.remove(index as int),
                    ..old(self)@ }),
                Err(e) => final(self)@ == old(self)@,
            },
    {
        broadcast use lemma_model;

        if index < self.display_name.len() {
            Ok(self.display_name.remove(index))
        } else {
            Err(ModelError::IndexOutOfRange)
        }
    }

    fn set_description(&mut self, description: Vec<MultiLanguageTextType>)
        ensures
            final(self)@ == (SubmodelView { description: description.deep_view(), ..old(self)@ }),
    {
        broadcast use lemma_model;

        self.description = description;
    }

    fn get_description(&self) -> (r: &Vec<MultiLanguageTextType>) {
        broadcast use lemma_model;

        &self.description
    }

    fn get_mut_description(&mut self) -> (r: &mut Vec<MultiLanguageTextType>)
        ensures
            final(self)@ == (SubmodelView { description: final(r).deep_view(), ..old(self)@ }),
    {
        broadcast use lemma_model;

        &mut self.description
    }

    fn add_description(&mut self, description: MultiLanguageTextType)
        ensures
            final(self)@ ==
                (SubmodelView { description: old(self)@.description.push(description@),
                ..old(self)@ }),
    {
        broadcast use lemma_model;

        self.description.push(description);
    }

    fn remove_description(&mut self, index: usize) -> (r: Result<MultiLanguageTextType, ModelError>)
        ensures
            match r {
                Ok(item) =>
                    final(self)@ ==
                    (SubmodelView { description: old(self)@.description.remove(index as int),
                    ..old(self)@ }),
                Err(e) => final(self)@ == old(self)@,
            },
    {
        broadcast use lemma_model;

        if index < self.description.len() {
            Ok(self.description.remove(index))
        } else {
            Err(ModelError::IndexOutOfRange)
        }
    }
}

impl THasExtensions for Submodel {
    open spec fn extensions_view(&self) -> Seq<ExtensionView> {
        self@.extensions
    }

    fn set_extensions(&mut self, extensions: Vec<Extension>)
        ensures
            final(self)@ == (SubmodelView { extensions: extensions.deep_view(), ..old(self)@ }),
    {
        broadcast use lemma_model;

        self.extensions = extensions;
    }

    fn get_extensions(&self) -> (r: &Vec<Extension>) {
        broadcast use lemma_model;

        &self.extensions
    }

    fn get_mut_extensions(&mut self) -> (r: &mut Vec<Extension>)
        ensures
            final(self)@ == (SubmodelView { extensions: final(r).deep_view(), ..old(self)@ }),
    {
        broadcast use lemma_model;

        &mut self.extensions
    }

    fn add_extension(&mut self, extension: Extension)
        ensures
            final(self)@ ==
                (SubmodelView { extensions: old(self)@.extensions.push(extension@), ..old(self)@ }),
    {
        broadcast use lemma_model;

        self.extensions.push(extension);
    }

    fn remove_extension(&mut self, index: usize) -> (r: Result<Extension, ModelError>)
        ensures
            match r {
                Ok(item) =>
                    final(self)@ ==
                    (SubmodelView { extensions: old(self)@.extensions.remove(index as int),
                    ..old(self)@ }),
                Err(e) => final(self)@ == old(self)@,
            },
    {
        broadcast use lemma_model;

        if index < self.extensions.len() {
            Ok(self.extensions.remove(index))
        } else {
            Err(ModelError::IndexOutOfRange)
        }
    }
}

impl SubmodelView {
    /// The same value with what it carries of the aspect replaced.
    pub open spec fn with_identity(self, aspect: IdentityAspect) -> SubmodelView {
        SubmodelView {
            administrative_information: aspect.administrative_information,
            id: aspect.id,
            ..self
        }
    }

    /// The same value with the kind of the element replaced.
    pub open spec fn with_kind(self, kind: Option<ModellingKind>) -> SubmodelView {
        SubmodelView {
            kind,
            ..self
        }
    }

    /// The same value with what it carries of the aspect replaced.
    pub open spec fn with_semantics(self, aspect: SemanticsAspect) -> SubmodelView {
        SubmodelView {
            semantic_id: aspect.semantic_id,
            supplemental_semantic_ids: aspect.supplemental_semantic_ids,
            ..self
        }
    }

    /// The same value with the additional qualifications of the element replaced.
    pub open spec fn with_qualifiers(self, qualifiers: Seq<QualifierView>) -> SubmodelView {
        SubmodelView {
            qualifiers,
            ..self
        }
    }

    /// The same value with the external references to the data specification templates used by the
    /// element replaced.
    pub open spec fn with_data_specifications(self, data_specifications: Seq<ReferenceView>)
        -> SubmodelView {
        SubmodelView {
            data_specifications,
            ..self
        }
    }

    /// The same value with what it carries of the aspect replaced.
    pub open spec fn with_referable(self, aspect: ReferableAspect) -> SubmodelView {
        SubmodelView {
            category: aspect.category,
            id_short: aspect.id_short,
            display_name: aspect.display_name,
            description: aspect.description,
            ..self
        }
    }

    /// The same value with the extensions of the element replaced.
    pub open spec fn with_extensions(self, extensions: Seq<ExtensionView>) -> SubmodelView {
        SubmodelView {
            extensions,
            ..self
        }
    }

    /// Whether every reference in the value is well formed.
    pub open spec fn well_formed(self) -> bool
        decreases self, 0nat,
    {
        &&& (forall|i: int| 0 <= i < self.submodel_elements.len() ==>
            (#[trigger] self.submodel_elements[i]).well_formed())
        &&& (self.administrative_information matches Some(v) ==> v.well_formed())
        &&& (self.semantic_id matches Some(v) ==> v.well_formed())
        &&& (forall|i: int| 0 <= i < self.supplemental_semantic_ids.len() ==>
            (#[trigger] self.supplemental_semantic_ids[i]).well_formed())
        &&& (forall|i: int| 0 <= i < self.qualifiers.len() ==>
            (#[trigger] self.qualifiers[i]).well_formed())
        &&& (forall|i: int| 0 <= i < self.data_specifications.len() ==>
            (#[trigger] self.data_specifications[i]).well_formed())
        &&& (forall|i: int| 0 <= i < self.extensions.len() ==>
            (#[trigger] self.extensions[i]).well_formed())
    }

    /// The members of a record that begins with `before` and goes on with
    /// the members of the value, in their order.
    pub open spec fn members_after(self, before: Seq<FieldView>) -> Seq<FieldView>
        decreases self, 1nat,
    {
        self.layout(before)
    }

    /// The members of the value, one by one, behind `before`.
    #[verifier::opaque]
    pub open spec fn layout(self, before: Seq<FieldView>) -> Seq<FieldView>
        decreases self, 0nat,
    {
        before
            .push(member("submodelElements"@,
                SubmodelElementView::list_to_wire(self.submodel_elements)))
            .push(member("administration"@,
                AdministrativeInformationView::optional_to_wire(self.administrative_information)))
            .push(member("id"@, text_encode(self.id)))
            .push(member("kind"@, ModellingKind::optional_to_wire(self.kind)))
            .push(member("semanticId"@, ReferenceView::optional_to_wire(self.semantic_id)))
            .push(member("supplementalSemanticIds"@,
                ReferenceView::list_to_wire(self.supplemental_semantic_ids)))
            .push(member("qualifiers"@, QualifierView::list_to_wire(self.qualifiers)))
            .push(member("embeddedDataSpecifications"@,
                ReferenceView::list_to_wire(self.data_specifications)))
            .push(member("category"@, optional_text_encode(self.category)))
            .push(member("idShort"@, optional_text_encode(self.id_short)))
            .push(member("displayName"@,
                MultiLanguageNameTypeView::list_to_wire(self.display_name)))
            .push(member("description"@, MultiLanguageTextTypeView::list_to_wire(self.description)))
            .push(member("extensions"@, ExtensionView::list_to_wire(self.extensions)))
    }

    /// The value on the wire: the record of its members.
    pub open spec fn to_wire(self) -> WireView
        decreases self, 2nat,
    {
        WireView::Record(self.members_after(Seq::empty()))
    }

    /// The value that the members of a record stand for. Members of other
    /// names are passed over; of two members of one name the first counts;
    /// the first member in the order above that cannot be decoded decides
    /// the failure.
    pub open spec fn from_members(fields: Seq<FieldView>) -> Result<SubmodelView, DecodeErrorView>
        decreases fields, 1nat,
    {
        SubmodelView::parse(fields)
    }

    /// The value that the members of a record stand for, member by member.
    #[verifier::opaque]
    pub open spec fn parse(fields: Seq<FieldView>) -> Result<SubmodelView, DecodeErrorView>
        decreases fields, 0nat,
    {
        let submodel_elements = match lookup(fields, "submodelElements"@) {
            None => Err(fail_at(DecodeFault::MissingField, "submodelElements"@)),
            Some(x) => {
                proof {
                    lemma_lookup_smaller(fields, "submodelElements"@);
                }
                in_field("submodelElements"@, SubmodelElementView::list_from_wire(x))
            },
        };
        let administrative_information = match present(fields, "administration"@) {
            None => Ok(None),
            Some(x) =>
                optional(in_field("administration"@, AdministrativeInformationView::from_wire(x))),
        };
        let id = match lookup(fields, "id"@) {
            None => Err(fail_at(DecodeFault::MissingField, "id"@)),
            Some(x) => in_field("id"@, text_decode(x)),
        };
        let kind = match present(fields, "kind"@) {
            None => Ok(None),
            Some(x) => optional(in_field("kind"@, ModellingKind::from_wire(x))),
        };
        let semantic_id = match present(fields, "semanticId"@) {
            None => Ok(None),
            Some(x) => optional(in_field("semanticId"@, ReferenceView::from_wire(x))),
        };
        let supplemental_semantic_ids = match lookup(fields, "supplementalSemanticIds"@) {
            None => Err(fail_at(DecodeFault::MissingField, "supplementalSemanticIds"@)),
            Some(x) => in_field("supplementalSemanticIds"@, ReferenceView::list_from_wire(x)),
        };
        let qualifiers = match lookup(fields, "qualifiers"@) {
            None => Err(fail_at(DecodeFault::MissingField, "qualifiers"@)),
            Some(x) => in_field("qualifiers"@, QualifierView::list_from_wire(x)),
        };
        let data_specifications = match lookup(fields, "embeddedDataSpecifications"@) {
            None => Err(fail_at(DecodeFault::MissingField, "embeddedDataSpecifications"@)),
            Some(x) => in_field("embeddedDataSpecifications"@, ReferenceView::list_from_wire(x)),
        };
        let category = match present(fields, "category"@) {
            None => Ok(None),
            Some(x) => optional(in_field("category"@, text_decode(x))),
        };
        let id_short = match present(fields, "idShort"@) {
            None => Ok(None),
            Some(x) => optional(in_field("idShort"@, text_decode(x))),
        };
        let display_name = match lookup(fields, "displayName"@) {
            None => Err(fail_at(DecodeFault::MissingField, "displayName"@)),
            Some(x) => in_field("displayName"@, MultiLanguageNameTypeView::list_from_wire(x)),
        };
        let description = match lookup(fields, "description"@) {
            None => Err(fail_at(DecodeFault::MissingField, "description"@)),
            Some(x) => in_field("description"@, MultiLanguageTextTypeView::list_from_wire(x)),
        };
        let extensions = match lookup(fields, "extensions"@) {
            None => Err(fail_at(DecodeFault::MissingField, "extensions"@)),
            Some(x) => in_field("extensions"@, ExtensionView::list_from_wire(x)),
        };
        if submodel_elements is Err {
            Err(submodel_elements->Err_0)
        } else if administrative_information is Err {
            Err(administrative_information->Err_0)
        } else if id is Err {
            Err(id->Err_0)
        } else if kind is Err {
            Err(kind->Err_0)
        } else if semantic_id is Err {
            Err(semantic_id->Err_0)
        } else if supplemental_semantic_ids is Err {
            Err(supplemental_semantic_ids->Err_0)
        } else if qualifiers is Err {
            Err(qualifiers->Err_0)
        } else if data_specifications is Err {
            Err(data_specifications->Err_0)
        } else if category is Err {
            Err(category->Err_0)
        } else if id_short is Err {
            Err(id_short->Err_0)
        } else if display_name is Err {
            Err(display_name->Err_0)
        } else if description is Err {
            Err(description->Err_0)
        } else if extensions is Err {
            Err(extensions->Err_0)
        } else {
            Ok(SubmodelView {
                submodel_elements: submodel_elements->Ok_0,
                administrative_information: administrative_information->Ok_0,
                id: id->Ok_0,
                kind: kind->Ok_0,
                semantic_id: semantic_id->Ok_0,
                supplemental_semantic_ids: supplemental_semantic_ids->Ok_0,
                qualifiers: qualifiers->Ok_0,
                data_specifications: data_specifications->Ok_0,
                category: category->Ok_0,
                id_short: id_short->Ok_0,
                display_name: display_name->Ok_0,
                description: description->Ok_0,
                extensions: extensions->Ok_0,
            })
        }
    }

    /// The value that a wire value stands for.
    pub open spec fn from_wire(w: WireView) -> Result<SubmodelView, DecodeErrorView>
        decreases w, 0nat,
    {
        match w {
            WireView::Record(fields) => SubmodelView::from_members(fields),
            _ => Err(fail(DecodeFault::ExpectedRecord)),
        }
    }

    /// A list of values on the wire: the values in their order.
    pub open spec fn list_to_wire(items: Seq<SubmodelView>) -> WireView
        decreases items, 0nat,
    {
        WireView::List(
            Seq::new(
                items.len(),
                |i: int|
                    if 0 <= i < items.len() {
                        items[i].to_wire()
                    } else {
                        WireView::Null
                    },
            ),
        )
    }

    /// The values that the items from position `start` on stand for. The first
    /// item that stands for none decides the failure.
    pub open spec fn list_from_items(items: Seq<WireView>, start: nat) -> Result<
        Seq<SubmodelView>,
        DecodeErrorView,
    >
        decreases items, items.len() - start,
    {
        if start >= items.len() {
            Ok(Seq::empty())
        } else {
            match SubmodelView::from_wire(items[start as int]) {
                Err(e) => Err(e.under(PathStepView::Index(start as int))),
                Ok(v) => match SubmodelView::list_from_items(items, start + 1) {
                    Ok(rest) => Ok(seq![v] + rest),
                    Err(e) => Err(e),
                },
            }
        }
    }

    /// The values that a list on the wire stands for.
    pub open spec fn list_from_wire(w: WireView) -> Result<Seq<SubmodelView>, DecodeErrorView>
        decreases w, 0nat,
    {
        match w {
            WireView::List(items) => SubmodelView::list_from_items(items, 0),
            _ => Err(fail(DecodeFault::ExpectedList)),
        }
    }

    /// The members of the value hide no type name that the record begins with.
    pub proof fn lemma_model_type_kept(self, tag: Option<Seq<char>>)
        ensures
            lookup(self.members_after(tagged(tag)), "modelType"@) == lookup(
                tagged(tag),
                "modelType"@,
            ),
    {
        broadcast use lemma_lookup_push;

        reveal(SubmodelView::layout);
        lemma_name_codes();
    }

    /// The value is found again from the members of its record, whether the
    /// record begins with a type name or not.
    #[verifier::rlimit(50)]
    pub proof fn lemma_members_round_trip(self, tag: Option<Seq<char>>)
        requires
            self.well_formed(),
        ensures
            SubmodelView::from_members(self.members_after(tagged(tag))) ==
                Ok::<SubmodelView, DecodeErrorView>(
                self,
            ),
        decreases self, 0nat,
    {
        broadcast use lemma_lookup_push;

        reveal(SubmodelView::layout);
        reveal(SubmodelView::parse);
        lemma_name_codes();
        SubmodelElementView::lemma_list_round_trip(self.submodel_elements);
        match self.administrative_information {
            Some(v) => {
                v.lemma_round_trip();
            },
            None => {},
        }
        match self.kind {
            Some(v) => {
                v.lemma_round_trip();
            },
            None => {},
        }
        match self.semantic_id {
            Some(v) => {
                v.lemma_round_trip();
            },
            None => {},
        }
        ReferenceView::lemma_list_round_trip(self.supplemental_semantic_ids);
        QualifierView::lemma_list_round_trip(self.qualifiers);
        ReferenceView::lemma_list_round_trip(self.data_specifications);
        MultiLanguageNameTypeView::lemma_list_round_trip(self.display_name);
        MultiLanguageTextTypeView::lemma_list_round_trip(self.description);
        ExtensionView::lemma_list_round_trip(self.extensions);
    }

    /// Every value is found again from what it is on the wire.
    pub proof fn lemma_round_trip(self)
        requires
            self.well_formed(),
        ensures
            SubmodelView::from_wire(self.to_wire()) == Ok::<SubmodelView, DecodeErrorView>(self),
        decreases self, 2nat,
    {
        self.lemma_members_round_trip(None);
    }

    /// The values from position `start` on are found again from the items that
    /// stand for them.
    pub proof fn lemma_list_items_round_trip(items: Seq<SubmodelView>, start: nat)
        requires
            forall|i: int| 0 <= i < items.len() ==> (#[trigger] items[i]).well_formed(),
            start <= items.len(),
        ensures
            SubmodelView::list_from_items(SubmodelView::list_to_wire(items)->List_0, start) == Ok::<
                Seq<SubmodelView>,
                DecodeErrorView,
            >(items.skip(start as int)),
        decreases items, items.len() - start,
    {
        if start >= items.len() {
            assert(items.skip(start as int) =~= Seq::empty());
        } else {
            items[start as int].lemma_round_trip();
            SubmodelView::lemma_list_items_round_trip(items, start + 1);
            assert(seq![items[start as int]] + items.skip(start as int + 1) =~= items.skip(
                start as int));
        }
    }

    /// Every list of values is found again from what it is on the wire.
    pub proof fn lemma_list_round_trip(items: Seq<SubmodelView>)
        requires
            forall|i: int| 0 <= i < items.len() ==> (#[trigger] items[i]).well_formed(),
        ensures
            SubmodelView::list_from_wire(SubmodelView::list_to_wire(items)) == Ok::<
                Seq<SubmodelView>,
                DecodeErrorView,
            >(items),
        decreases items, items.len() + 1,
    {
        SubmodelView::lemma_list_items_round_trip(items, 0);
        assert(items.skip(0) =~= items);
    }
}

impl Submodel {
    /// The value as it travels: the record of its members. What comes out
    /// decodes to the same value again.
    pub fn encode(&self) -> (w: Wire)
        ensures
            w@ == self@.to_wire(),
            self@.well_formed(),
            SubmodelView::from_wire(w@) == Ok::<SubmodelView, DecodeErrorView>(self@),
        decreases self, 2nat,
    {
        let mut fields: Vec<Field> = Vec::new();
        assert(fields.deep_view() =~= Seq::<FieldView>::empty());
        self.encode_members(&mut fields);
        proof {
            self@.lemma_round_trip();
        }
        Wire::record(fields)
    }

    /// Appends the members of the value, as they travel, to `fields`.
    pub fn encode_members(&self, fields: &mut Vec<Field>)
        ensures
            final(fields).deep_view() == self@.members_after(old(fields).deep_view()),
            self@.well_formed(),
        decreases self, 0nat,
    {
        broadcast use lemma_model;

        reveal(SubmodelView::layout);
        add_member(fields, "submodelElements",
            SubmodelElement::encode_list(&self.submodel_elements));
        add_member(fields, "administration",
            AdministrativeInformation::encode_optional(&self.administrative_information));
        add_member(fields, "id", encode_text(&self.id));
        add_member(fields, "kind", ModellingKind::encode_optional(&self.kind));
        add_member(fields, "semanticId", Reference::encode_optional(&self.semantic_id));
        add_member(fields, "supplementalSemanticIds",
            Reference::encode_list(&self.supplemental_semantic_ids));
        add_member(fields, "qualifiers", Qualifier::encode_list(&self.qualifiers));
        add_member(fields, "embeddedDataSpecifications",
            Reference::encode_list(&self.data_specifications));
        add_member(fields, "category", encode_optional_text(&self.category));
        add_member(fields, "idShort", encode_optional_text(&self.id_short));
        add_member(fields, "displayName", MultiLanguageNameType::encode_list(&self.display_name));
        add_member(fields, "description", MultiLanguageTextType::encode_list(&self.description));
        add_member(fields, "extensions", Extension::encode_list(&self.extensions));
    }

    /// The value that `w` stands for.
    pub fn decode(w: &Wire) -> (r: Result<Submodel, DecodeError>)
        ensures
            outcome(r) == SubmodelView::from_wire(w@),
        decreases w, 0nat,
    {
        match w.members() {
            Some(fields) => Submodel::decode_members(fields),
            None => Err(DecodeError::new(DecodeFault::ExpectedRecord)),
        }
    }

    /// The value that the members `fields` of a record stand for.
    #[verifier::rlimit(50)]
    pub fn decode_members(fields: &Vec<Field>) -> (r: Result<Submodel, DecodeError>)
        ensures
            outcome(r) == SubmodelView::from_members(fields.deep_view()),
        decreases fields, 0nat,
    {
        broadcast use lemma_model;

        reveal(SubmodelView::parse);
        let submodel_elements = match find(fields, "submodelElements") {
            None => Err(DecodeError::at(DecodeFault::MissingField, "submodelElements")),
            Some(x) => match SubmodelElement::decode_list(x) {
                Ok(v) => Ok(v),
                Err(e) => Err(e.under_field("submodelElements")),
            },
        };
        let administrative_information = match find_present(fields, "administration") {
            None => Ok(None),
            Some(x) => match AdministrativeInformation::decode(x) {
                Ok(v) => Ok(Some(v)),
                Err(e) => Err(e.under_field("administration")),
            },
        };
        let id = match find(fields, "id") {
            None => Err(DecodeError::at(DecodeFault::MissingField, "id")),
            Some(x) => match decode_text(x) {
                Ok(v) => Ok(v),
                Err(e) => Err(e.under_field("id")),
            },
        };
        let kind = match find_present(fields, "kind") {
            None => Ok(None),
            Some(x) => match ModellingKind::decode(x) {
                Ok(v) => Ok(Some(v)),
                Err(e) => Err(e.under_field("kind")),
            },
        };
        let semantic_id = match find_present(fields, "semanticId") {
            None => Ok(None),
            Some(x) => match Reference::decode(x) {
                Ok(v) => Ok(Some(v)),
                Err(e) => Err(e.under_field("semanticId")),
            },
        };
        let supplemental_semantic_ids = match find(fields, "supplementalSemanticIds") {
            None => Err(DecodeError::at(DecodeFault::MissingField, "supplementalSemanticIds")),
            Some(x) => match Reference::decode_list(x) {
                Ok(v) => Ok(v),
                Err(e) => Err(e.under_field("supplementalSemanticIds")),
            },
        };
        let qualifiers = match find(fields, "qualifiers") {
            None => Err(DecodeError::at(DecodeFault::MissingField, "qualifiers")),
            Some(x) => match Qualifier::decode_list(x) {
                Ok(v) => Ok(v),
                Err(e) => Err(e.under_field("qualifiers")),
            },
        };
        let data_specifications = match find(fields, "embeddedDataSpecifications") {
            None => Err(DecodeError::at(DecodeFault::MissingField, "embeddedDataSpecifications")),
            Some(x) => match Reference::decode_list(x) {
                Ok(v) => Ok(v),
                Err(e) => Err(e.under_field("embeddedDataSpecifications")),
            },
        };
        let category = match find_present(fields, "category") {
            None => Ok(None),
            Some(x) => match decode_text(x) {
                Ok(v) => Ok(Some(v)),
                Err(e) => Err(e.under_field("category")),
            },
        };
        let id_short = match find_present(fields, "idShort") {
            None => Ok(None),
            Some(x) => match decode_text(x) {
                Ok(v) => Ok(Some(v)),
                Err(e) => Err(e.under_field("idShort")),
            },
        };
        let display_name = match find(fields, "displayName") {
            None => Err(DecodeError::at(DecodeFault::MissingField, "displayName")),
            Some(x) => match MultiLanguageNameType::decode_list(x) {
                Ok(v) => Ok(v),
                Err(e) => Err(e.under_field("displayName")),
            },
        };
        let description = match find(fields, "description") {
            None => Err(DecodeError::at(DecodeFault::MissingField, "description")),
            Some(x) => match MultiLanguageTextType::decode_list(x) {
                Ok(v) => Ok(v),
                Err(e) => Err(e.under_field("description")),
            },
        };
        let extensions = match find(fields, "extensions") {
            None => Err(DecodeError::at(DecodeFault::MissingField, "extensions")),
            Some(x) => match Extension::decode_list(x) {
                Ok(v) => Ok(v),
                Err(e) => Err(e.under_field("extensions")),
            },
        };
        let submodel_elements = match submodel_elements {
            Ok(v) => v,
            Err(e) => {
                return Err(e);
            },
        };
        let administrative_information = match administrative_information {
            Ok(v) => v,
            Err(e) => {
                return Err(e);
            },
        };
        let id = match id {
            Ok(v) => v,
            Err(e) => {
                return Err(e);
            },
        };
        let kind = match kind {
            Ok(v) => v,
            Err(e) => {
                return Err(e);
            },
        };
        let semantic_id = match semantic_id {
            Ok(v) => v,
            Err(e) => {
                return Err(e);
            },
        };
        let supplemental_semantic_ids = match supplemental_semantic_ids {
            Ok(v) => v,
            Err(e) => {
                return Err(e);
            },
        };
        let qualifiers = match qualifiers {
            Ok(v) => v,
            Err(e) => {
                return Err(e);
            },
        };
        let data_specifications = match data_specifications {
            Ok(v) => v,
            Err(e) => {
                return Err(e);
            },
        };
        let category = match category {
            Ok(v) => v,
            Err(e) => {
                return Err(e);
            },
        };
        let id_short = match id_short {
            Ok(v) => v,
            Err(e) => {
                return Err(e);
            },
        };
        let display_name = match display_name {
            Ok(v) => v,
            Err(e) => {
                return Err(e);
            },
        };
        let description = match description {
            Ok(v) => v,
            Err(e) => {
                return Err(e);
            },
        };
        let extensions = match extensions {
            Ok(v) => v,
            Err(e) => {
                return Err(e);
            },
        };
        let r = Submodel { submodel_elements, administrative_information, id, kind, semantic_id,
            supplemental_semantic_ids, qualifiers, data_specifications, category, id_short,
            display_name, description, extensions };
        assert(r@ =~= SubmodelView::from_members(fields.deep_view())->Ok_0);
        Ok(r)
    }

    /// The values as they travel: a list, in their order.
    #[verifier::loop_isolation(false)]
    pub fn encode_list(items: &Vec<Submodel>) -> (w: Wire)
        ensures
            w@ == SubmodelView::list_to_wire(items.deep_view()),
            forall|i: int| 0 <= i < items.len() ==> (#[trigger] items.deep_view()[i]).well_formed(),
        decreases items, 0nat,
    {
        let mut out: Vec<Wire> = Vec::new();
        let mut i: usize = 0;
        while i < items.len()
            invariant
                i <= items.len(),
                out.len() == i,
                forall|j: int| 0 <= j < i ==>
                    (#[trigger] out[j])@ == items.deep_view()[j].to_wire(),
                forall|j: int| 0 <= j < i ==> (#[trigger] items.deep_view()[j]).well_formed(),
            decreases items.len() - i,
        {
            out.push(items[i].encode());
            i += 1;
        }
        let w = Wire::list(out);
        assert(w@->List_0 =~= SubmodelView::list_to_wire(items.deep_view())->List_0);
        w
    }

    /// The values that the list `w` stands for. The first item that stands
    /// for none decides the failure.
    #[verifier::loop_isolation(false)]
    pub fn decode_list(w: &Wire) -> (r: Result<Vec<Submodel>, DecodeError>)
        ensures
            outcome(r) == SubmodelView::list_from_wire(w@),
        decreases w, 0nat,
    {
        let items = match w.items() {
            Some(items) => items,
            None => {
                return Err(DecodeError::new(DecodeFault::ExpectedList));
            },
        };
        let mut out: Vec<Submodel> = Vec::new();
        let mut i: usize = 0;
        assert(Seq::<SubmodelView>::empty() + SubmodelView::list_from_items(items.deep_view(),
            0)->Ok_0
            =~= SubmodelView::list_from_items(items.deep_view(), 0)->Ok_0);
        while i < items.len()
            invariant
                i <= items.len(),
                w@ == WireView::List(items.deep_view()),
                SubmodelView::list_from_items(items.deep_view(), 0) ==
                    (match SubmodelView::list_from_items(
                    items.deep_view(),
                    i as nat,
                ) {
                    Ok(rest) => Ok(out.deep_view() + rest),
                    Err(e) => Err(e),
                }),
            decreases items.len() - i,
        {
            let ghost before = out.deep_view();
            match Submodel::decode(&items[i]) {
                Ok(v) => {
                    out.push(v);
                    proof {
                        let rest = SubmodelView::list_from_items(items.deep_view(), (i + 1) as nat);
                        if rest is Ok {
                            assert(out.deep_view() + rest->Ok_0 =~= before + (seq![
                                v@] + rest->Ok_0));
                        }
                    }
                },
                Err(e) => {
                    return Err(e.under_index(i));
                },
            }
            i += 1;
        }
        assert(out.deep_view() + Seq::<SubmodelView>::empty() =~= out.deep_view());
        Ok(out)
    }

    /// A copy of each of the values, in their order.
    #[verifier::loop_isolation(false)]
    pub fn clone_list(items: &Vec<Submodel>) -> (r: Vec<Submodel>)
        ensures
            r.deep_view() == items.deep_view(),
        decreases items, 0nat,
    {
        let mut out: Vec<Submodel> = Vec::new();
        let mut i: usize = 0;
        while i < items.len()
            invariant
                i <= items.len(),
                out.len() == i,
                forall|j: int| 0 <= j < i ==> (#[trigger] out[j])@ == items[j]@,
            decreases items.len() - i,
        {
            out.push(items[i].clone());
            i += 1;
        }
        assert(out.deep_view() =~= items.deep_view());
        out
    }
}

impl SubmodelView {
    /// Whether the value and everything below it keeps what a document must
    /// keep: no language twice in one collection of texts, no short ID twice
    /// among the elements of one container, no empty and no repeated ID.
    pub open spec fn consistent(self) -> bool
        decreases self, 0nat,
    {
        &&& SubmodelElementView::id_shorts_distinct(self.submodel_elements)
        &&& (forall|i: int| 0 <= i < self.submodel_elements.len() ==>
            (#[trigger] self.submodel_elements[i]).consistent())
        &&& self.id.len() > 0
        &&& distinct(MultiLanguageNameTypeView::languages(self.display_name))
        &&& distinct(MultiLanguageTextTypeView::languages(self.description))
    }
}

impl Submodel {
    /// Whether the value and everything below it keeps what a document must
    /// keep.
    pub fn is_consistent(&self) -> (b: bool)
        ensures
            b == self@.consistent(),
        decreases self, 1nat,
    {
        broadcast use lemma_model;

        assert(self@.submodel_elements =~= self.submodel_elements.deep_view());
        let submodel_elements_short_ids = SubmodelElement::id_shorts_distinct(
            &self.submodel_elements);
        let submodel_elements_below = SubmodelElement::all_consistent(&self.submodel_elements);
        let id_given = !self.id.as_str().is_empty();
        let display_name_languages = MultiLanguageNameType::languages_distinct(&self.display_name);
        let description_languages = MultiLanguageTextType::languages_distinct(&self.description);
        submodel_elements_short_ids && submodel_elements_below && id_given && display_name_languages
            && description_languages
    }

    /// Whether each of the values keeps what a document must keep.
    #[verifier::loop_isolation(false)]
    pub fn all_consistent(items: &Vec<Submodel>) -> (b: bool)
        ensures
            b == (forall|i: int|
                0 <= i < items.len() ==> (#[trigger] items.deep_view()[i]).consistent()),
        decreases items, 0nat,
    {
        let mut i: usize = 0;
        while i < items.len()
            invariant
                i <= items.len(),
                forall|j: int| 0 <= j < i ==> (#[trigger] items.deep_view()[j]).consistent(),
            decreases items.len() - i,
        {
            if !items[i].is_consistent() {
                assert(!items.deep_view()[i as int].consistent());
                return false;
            }
            i += 1;
        }
        true
    }
}

} // verus!
