use vstd::prelude::*;
use crate::enumerations::entity_type::EntityType;
use crate::enumerations::interface_enumerations::submodel_element::{
    SubmodelElement,
    SubmodelElementView,
};
use crate::error::ModelError;
use crate::names::lemma_name_codes;
use crate::structs::extension::{Extension, ExtensionView};
use crate::structs::multi_language_name_type::{MultiLanguageNameType, MultiLanguageNameTypeView};
use crate::structs::multi_language_text_type::{MultiLanguageTextType, MultiLanguageTextTypeView};
use crate::structs::qualifier::{Qualifier, QualifierView};
use crate::structs::reference::{Reference, ReferenceView};
use crate::structs::specific_asset_id::{SpecificAssetId, SpecificAssetIdView};
use crate::traits::has_data_specification::THasDataSpecification;
use crate::traits::has_extensions::THasExtensions;
use crate::traits::has_semantics::{SemanticsAspect, THasSemantics};
use crate::traits::qualifiable::TQualifiable;
use crate::traits::referable::{ReferableAspect, TReferable};
use crate::traits::submodel_element::TSubmodelElement;
use crate::validation::distinct;
use crate::wire::{
    add_member,
    decode_text,
    encode_optional_text,
    fail,
    fail_at,
    find,
    find_present,
    in_field,
    lemma_lookup_push,
    lemma_lookup_smaller,
    lookup,
    member,
    optional,
    optional_text_encode,
    outcome,
    present,
    tagged,
    text_decode,
    DecodeError,
    DecodeErrorView,
    DecodeFault,
    Field,
    FieldView,
    Wire,
    WireView,
};

verus! {

/// An entity is a submodel element that is used to model entities.
#[derive(Debug, PartialEq)]
pub struct Entity {
    /// The statements applicable to the entity, each described by a submodel element.
    statements: Vec<SubmodelElement>,
    /// The type of the entity: co-managed or self-managed.
    entity_type: Option<EntityType>,
    /// The global identifier of the asset the entity is representing.
    global_asset_id: Option<String>,
    /// The supplementary identifiers of the asset the entity is representing.
    specific_asset_ids: Vec<SpecificAssetId>,
    /// The category, a value that gives further meta information.
    category: Option<String>,
    /// The short ID of the element.
    id_short: Option<String>,
    /// The display name of the element, one entry for each language.
    display_name: Vec<MultiLanguageNameType>,
    /// The description of the element, one entry for each language.
    description: Vec<MultiLanguageTextType>,
    /// The extensions of the element.
    extensions: Vec<Extension>,
    /// The identifier of the semantic definition of the element, its main semantic ID.
    semantic_id: Option<Reference>,
    /// The identifiers of supplemental semantic definitions of the element.
    supplemental_semantic_ids: Vec<Reference>,
    /// The additional qualifications of the element.
    qualifiers: Vec<Qualifier>,
    /// The external references to the data specification templates used by the element.
    data_specifications: Vec<Reference>,
}

/// The mathematical form of an [`Entity`].
#[verifier::ext_equal]
pub struct EntityView {
    pub statements: Seq<SubmodelElementView>,
    pub entity_type: Option<EntityType>,
    pub global_asset_id: Option<Seq<char>>,
    pub specific_asset_ids: Seq<SpecificAssetIdView>,
    pub category: Option<Seq<char>>,
    pub id_short: Option<Seq<char>>,
    pub display_name: Seq<MultiLanguageNameTypeView>,
    pub description: Seq<MultiLanguageTextTypeView>,
    pub extensions: Seq<ExtensionView>,
    pub semantic_id: Option<ReferenceView>,
    pub supplemental_semantic_ids: Seq<ReferenceView>,
    pub qualifiers: Seq<QualifierView>,
    pub data_specifications: Seq<ReferenceView>,
}

impl Entity {
    /// The mathematical form of the value.
    pub closed spec fn model(&self) -> EntityView
        decreases self,
    {
        EntityView {
            statements: Seq::new(
                self.statements@.len(),
                |i: int|
                    if 0 <= i < self.statements@.len() {
                        self.statements@[i].model()
                    } else {
                        arbitrary()
                    },
            ),
            entity_type: self.entity_type,
            global_asset_id: self.global_asset_id.deep_view(),
            specific_asset_ids: self.specific_asset_ids.deep_view(),
            category: self.category.deep_view(),
            id_short: self.id_short.deep_view(),
            display_name: self.display_name.deep_view(),
            description: self.description.deep_view(),
            extensions: self.extensions.deep_view(),
            semantic_id: self.semantic_id.deep_view(),
            supplemental_semantic_ids: self.supplemental_semantic_ids.deep_view(),
            qualifiers: self.qualifiers.deep_view(),
            data_specifications: self.data_specifications.deep_view(),
        }
    }
}

/// The mathematical form of an entity, field by field.
broadcast proof fn lemma_model(e: Entity)
    ensures
        #[trigger] e.model() == (EntityView {
            statements: e.statements.deep_view(),
            entity_type: e.entity_type,
            global_asset_id: e.global_asset_id.deep_view(),
            specific_asset_ids: e.specific_asset_ids.deep_view(),
            category: e.category.deep_view(),
            id_short: e.id_short.deep_view(),
            display_name: e.display_name.deep_view(),
            description: e.description.deep_view(),
            extensions: e.extensions.deep_view(),
            semantic_id: e.semantic_id.deep_view(),
            supplemental_semantic_ids: e.supplemental_semantic_ids.deep_view(),
            qualifiers: e.qualifiers.deep_view(),
            data_specifications: e.data_specifications.deep_view(),
        }),
{
    assert(e.model().statements =~= e.statements.deep_view());
}

impl View for Entity {
    type V = EntityView;

    open spec fn view(&self) -> EntityView {
        self.model()
    }
}

impl DeepView for Entity {
    type V = EntityView;

    open spec fn deep_view(&self) -> EntityView {
        self@
    }
}

impl Clone for Entity {
    fn clone(&self) -> (r: Entity)
        ensures
            r@ == self@,
        decreases self,
    {
        broadcast use lemma_model;

        Entity {
            statements: SubmodelElement::clone_list(&self.statements),
            entity_type: self.entity_type,
            global_asset_id: self.global_asset_id.clone(),
            specific_asset_ids: SpecificAssetId::clone_list(&self.specific_asset_ids),
            category: self.category.clone(),
            id_short: self.id_short.clone(),
            display_name: MultiLanguageNameType::clone_list(&self.display_name),
            description: MultiLanguageTextType::clone_list(&self.description),
            extensions: Extension::clone_list(&self.extensions),
            semantic_id: match &self.semantic_id {
                Some(v) => Some(v.clone()),
                None => None,
            },
            supplemental_semantic_ids: Reference::clone_list(&self.supplemental_semantic_ids),
            qualifiers: Qualifier::clone_list(&self.qualifiers),
            data_specifications: Reference::clone_list(&self.data_specifications),
        }
    }
}

impl Entity {
    /// Creates an entity with everything absent or empty.
    pub fn new() -> (r: Entity)
        ensures
            r@ == (EntityView {
                statements: Seq::empty(),
                entity_type: None,
                global_asset_id: None,
                specific_asset_ids: Seq::empty(),
                category: None,
                id_short: None,
                display_name: Seq::empty(),
                description: Seq::empty(),
                extensions: Seq::empty(),
                semantic_id: None,
                supplemental_semantic_ids: Seq::empty(),
                qualifiers: Seq::empty(),
                data_specifications: Seq::empty(),
            }),
    {
        broadcast use lemma_model;

        let r = Entity {
            statements: Vec::new(),
            entity_type: None,
            global_asset_id: None,
            specific_asset_ids: Vec::new(),
            category: None,
            id_short: None,
            display_name: Vec::new(),
            description: Vec::new(),
            extensions: Vec::new(),
            semantic_id: None,
            supplemental_semantic_ids: Vec::new(),
            qualifiers: Vec::new(),
            data_specifications: Vec::new(),
        };
        assert(r.statements.deep_view() =~= Seq::empty());
        r
    }

    /// Sets the statements applicable to the entity, each described by a submodel element.
    pub fn set_statements(&mut self, statements: Vec<SubmodelElement>)
        ensures
            final(self)@ == (EntityView { statements: statements.deep_view(), ..old(self)@ }),
    {
        broadcast use lemma_model;

        self.statements = statements;
    }

    /// Returns the statements applicable to the entity, each described by a submodel element.
    pub fn get_statements(&self) -> (r: &Vec<SubmodelElement>)
        ensures
            r.deep_view() == self@.statements,
    {
        broadcast use lemma_model;

        &self.statements
    }

    /// Returns the statements applicable to the entity, each described by a submodel element, open
    /// to change.
    pub fn get_mut_statements(&mut self) -> (r: &mut Vec<SubmodelElement>)
        ensures
            r.deep_view() == old(self)@.statements,
            final(self)@ == (EntityView { statements: final(r).deep_view(), ..old(self)@ }),
    {
        broadcast use lemma_model;

        &mut self.statements
    }

    /// Adds a statement applicable to the entity at the end.
    pub fn add_statement(&mut self, statement: SubmodelElement)
        ensures
            final(self)@ ==
                (EntityView { statements: old(self)@.statements.push(statement@), ..old(self)@ }),
    {
        broadcast use lemma_model;

        self.statements.push(statement);
        assert(self.statements.deep_view() =~= old(self).statements.deep_view().push(statement@));
    }

    /// Removes and returns the statement applicable to the entity at position `index`. Where there
    /// is none,
    /// nothing changes and the index is reported as out of range.
    pub fn remove_statement(&mut self, index: usize) -> (r: Result<SubmodelElement, ModelError>)
        ensures
            match r {
                Ok(item) => index < old(self)@.statements.len()
                    && item@ == old(self)@.statements[index as int]
                    && final(self)@ ==
                        (EntityView { statements: old(self)@.statements.remove(index as int),
                        ..old(self)@ }),
                Err(e) => index >= old(self)@.statements.len() && e == ModelError::IndexOutOfRange
                    && final(self)@ == old(self)@,
            },
    {
        broadcast use lemma_model;

        if index < self.statements.len() {
            let item = self.statements.remove(index);
            assert(self.statements.deep_view() =~= old(self).statements.deep_view().remove(
                index as int));
            Ok(item)
        } else {
            Err(ModelError::IndexOutOfRange)
        }
    }

    /// Sets the type of the entity: co-managed or self-managed.
    pub fn set_entity_type(&mut self, entity_type: EntityType)
        ensures
            final(self)@ == (EntityView { entity_type: Some(entity_type), ..old(self)@ }),
    {
        broadcast use lemma_model;

        self.entity_type = Some(entity_type);
    }

    /// Returns the type of the entity: co-managed or self-managed, if there is one.
    pub fn get_entity_type(&self) -> (r: Option<&EntityType>)
        ensures
            r.deep_view() == self@.entity_type,
    {
        broadcast use lemma_model;

        self.entity_type.as_ref()
    }

    /// Returns the type of the entity: co-managed or self-managed, open to change, if there is one.
    pub fn get_mut_entity_type(&mut self) -> (r: Option<&mut EntityType>)
        ensures
            match r {
                Some(m) => old(self)@.entity_type == Some(*m)
                    && final(self)@ == (EntityView { entity_type: Some(*final(m)), ..old(self)@ }),
                None => old(self)@.entity_type is None && final(self)@ == old(self)@,
            },
    {
        broadcast use lemma_model;

        self.entity_type.as_mut()
    }

    /// Sets the global identifier of the asset the entity is representing.
    pub fn set_global_asset_id(&mut self, global_asset_id: String)
        ensures
            final(self)@ == (EntityView { global_asset_id: Some(global_asset_id@), ..old(self)@ }),
    {
        broadcast use lemma_model;

        self.global_asset_id = Some(global_asset_id);
    }

    /// Returns the global identifier of the asset the entity is representing, if there is one.
    pub fn get_global_asset_id(&self) -> (r: Option<&String>)
        ensures
            r.deep_view() == self@.global_asset_id,
    {
        broadcast use lemma_model;

        self.global_asset_id.as_ref()
    }

    /// Returns the global identifier of the asset the entity is representing, open to change, if
    /// there is one.
    pub fn get_mut_global_asset_id(&mut self) -> (r: Option<&mut String>)
        ensures
            match r {
                Some(m) => old(self)@.global_asset_id == Some(m@)
                    && final(self)@ ==
                    (EntityView { global_asset_id: Some(final(m)@), ..old(self)@ }),
                None => old(self)@.global_asset_id is None && final(self)@ == old(self)@,
            },
    {
        broadcast use lemma_model;

        self.global_asset_id.as_mut()
    }

    /// Sets the supplementary identifiers of the asset the entity is representing.
    pub fn set_specific_asset_ids(&mut self, specific_asset_ids: Vec<SpecificAssetId>)
        ensures
            final(self)@ ==
                (EntityView { specific_asset_ids: specific_asset_ids.deep_view(), ..old(self)@ }),
    {
        broadcast use lemma_model;

        self.specific_asset_ids = specific_asset_ids;
    }

    /// Returns the supplementary identifiers of the asset the entity is representing.
    pub fn get_specific_asset_ids(&self) -> (r: &Vec<SpecificAssetId>)
        ensures
            r.deep_view() == self@.specific_asset_ids,
    {
        broadcast use lemma_model;

        &self.specific_asset_ids
    }

    /// Returns the supplementary identifiers of the asset the entity is representing, open to
    /// change.
    pub fn get_mut_specific_asset_ids(&mut self) -> (r: &mut Vec<SpecificAssetId>)
        ensures
            r.deep_view() == old(self)@.specific_asset_ids,
            final(self)@ == (EntityView { specific_asset_ids: final(r).deep_view(), ..old(self)@ }),
    {
        broadcast use lemma_model;

        &mut self.specific_asset_ids
    }

    /// Adds a supplementary identifier of the asset at the end.
    pub fn add_specific_asset_id(&mut self, specific_asset_id: SpecificAssetId)
        ensures
            final(self)@ ==
                (EntityView { specific_asset_ids: old(self)@.specific_asset_ids.push(
                specific_asset_id@), ..old(self)@ }),
    {
        broadcast use lemma_model;

        self.specific_asset_ids.push(specific_asset_id);
    }

    /// Removes and returns the supplementary identifier of the asset at position `index`. Where
    /// there is none,
    /// nothing changes and the index is reported as out of range.
    pub fn remove_specific_asset_id(&mut self, index: usize) -> (r: Result<SpecificAssetId,
        ModelError>)
        ensures
            match r {
                Ok(item) => index < old(self)@.specific_asset_ids.len()
                    && item@ == old(self)@.specific_asset_ids[index as int]
                    && final(self)@ ==
                        (EntityView { specific_asset_ids: old(self)@.specific_asset_ids.remove(
                        index as int), ..old(self)@ }),
                Err(e) => index >= old(self)@.specific_asset_ids.len()
                    && e == ModelError::IndexOutOfRange
                    && final(self)@ == old(self)@,
            },
    {
        broadcast use lemma_model;

        if index < self.specific_asset_ids.len() {
            Ok(self.specific_asset_ids.remove(index))
        } else {
            Err(ModelError::IndexOutOfRange)
        }
    }
}

impl TReferable for Entity {
    open spec fn referable(&self) -> ReferableAspect {
        ReferableAspect {
            category: self@.category,
            id_short: self@.id_short,
            display_name: self@.display_name,
            description: self@.description,
        }
    }

    fn set_category(&mut self, category: String)
        ensures
            final(self)@ == (EntityView { category: Some(category@), ..old(self)@ }),
    {
        broadcast use lemma_model;

        self.category = Some(category);
    }

    fn get_category(&self) -> (r: Option<&String>) {
        broadcast use lemma_model;

        self.category.as_ref()
    }

    fn get_mut_category(&mut self) -> (r: Option<&mut String>)
        ensures
            match r {
                Some(m) => final(self)@ == (EntityView { category: Some(final(m)@), ..old(self)@ }),
                None => final(self)@ == old(self)@,
            },
    {
        broadcast use lemma_model;

        self.category.as_mut()
    }

    fn set_id_short(&mut self, id_short: String)
        ensures
            final(self)@ == (EntityView { id_short: Some(id_short@), ..old(self)@ }),
    {
        broadcast use lemma_model;

        self.id_short = Some(id_short);
    }

    fn get_id_short(&self) -> (r: Option<&String>) {
        broadcast use lemma_model;

        self.id_short.as_ref()
    }

    fn get_mut_id_short(&mut self) -> (r: Option<&mut String>)
        ensures
            match r {
                Some(m) => final(self)@ == (EntityView { id_short: Some(final(m)@), ..old(self)@ }),
                None => final(self)@ == old(self)@,
            },
    {
        broadcast use lemma_model;

        self.id_short.as_mut()
    }

    fn set_display_name(&mut self, display_name: Vec<MultiLanguageNameType>)
        ensures
            final(self)@ == (EntityView { display_name: display_name.deep_view(), ..old(self)@ }),
    {
        broadcast use lemma_model;

        self.display_name = display_name;
    }

    fn get_display_name(&self) -> (r: &Vec<MultiLanguageNameType>) {
        broadcast use lemma_model;

        &self.display_name
    }

    fn get_mut_display_name(&mut self) -> (r: &mut Vec<MultiLanguageNameType>)
        ensures
            final(self)@ == (EntityView { display_name: final(r).deep_view(), ..old(self)@ }),
    {
        broadcast use lemma_model;

        &mut self.display_name
    }

    fn add_display_name(&mut self, display_name: MultiLanguageNameType)
        ensures
            final(self)@ ==
                (EntityView { display_name: old(self)@.display_name.push(display_name@),
                ..old(self)@ }),
    {
        broadcast use lemma_model;

        self.display_name.push(display_name);
    }

    fn remove_display_name(&mut self, index: usize) -> (r: Result<MultiLanguageNameType,
        ModelError>)
        ensures
            match r {
                Ok(item) =>
                    final(self)@ ==
                    (EntityView { display_name: old(self)@.display_name.remove(index as int),
                    ..old(self)@ }),
                Err(e) => final(self)@ == old(self)@,
            },
    {
        broadcast use lemma_model;

        if index < self.display_name.len() {
            Ok(self.display_name.remove(index))
        } else {
            Err(ModelError::IndexOutOfRange)
        }
    }

    fn set_description(&mut self, description: Vec<MultiLanguageTextType>)
        ensures
            final(self)@ == (EntityView { description: description.deep_view(), ..old(self)@ }),
    {
        broadcast use lemma_model;

        self.description = description;
    }

    fn get_description(&self) -> (r: &Vec<MultiLanguageTextType>) {
        broadcast use lemma_model;

        &self.description
    }

    fn get_mut_description(&mut self) -> (r: &mut Vec<MultiLanguageTextType>)
        ensures
            final(self)@ == (EntityView { description: final(r).deep_view(), ..old(self)@ }),
    {
        broadcast use lemma_model;

        &mut self.description
    }

    fn add_description(&mut self, description: MultiLanguageTextType)
        ensures
            final(self)@ ==
                (EntityView { description: old(self)@.description.push(description@),
                ..old(self)@ }),
    {
        broadcast use lemma_model;

        self.description.push(description);
    }

    fn remove_description(&mut self, index: usize) -> (r: Result<MultiLanguageTextType, ModelError>)
        ensures
            match r {
                Ok(item) =>
                    final(self)@ ==
                    (EntityView { description: old(self)@.description.remove(index as int),
                    ..old(self)@ }),
                Err(e) => final(self)@ == old(self)@,
            },
    {
        broadcast use lemma_model;

        if index < self.description.len() {
            Ok(self.description.remove(index))
        } else {
            Err(ModelError::IndexOutOfRange)
        }
    }
}

impl THasExtensions for Entity {
    open spec fn extensions_view(&self) -> Seq<ExtensionView> {
        self@.extensions
    }

    fn set_extensions(&mut self, extensions: Vec<Extension>)
        ensures
            final(self)@ == (EntityView { extensions: extensions.deep_view(), ..old(self)@ }),
    {
        broadcast use lemma_model;

        self.extensions = extensions;
    }

    fn get_extensions(&self) -> (r: &Vec<Extension>) {
        broadcast use lemma_model;

        &self.extensions
    }

    fn get_mut_extensions(&mut self) -> (r: &mut Vec<Extension>)
        ensures
            final(self)@ == (EntityView { extensions: final(r).deep_view(), ..old(self)@ }),
    {
        broadcast use lemma_model;

        &mut self.extensions
    }

    fn add_extension(&mut self, extension: Extension)
        ensures
            final(self)@ ==
                (EntityView { extensions: old(self)@.extensions.push(extension@), ..old(self)@ }),
    {
        broadcast use lemma_model;

        self.extensions.push(extension);
    }

    fn remove_extension(&mut self, index: usize) -> (r: Result<Extension, ModelError>)
        ensures
            match r {
                Ok(item) =>
                    final(self)@ ==
                    (EntityView { extensions: old(self)@.extensions.remove(index as int),
                    ..old(self)@ }),
                Err(e) => final(self)@ == old(self)@,
            },
    {
        broadcast use lemma_model;

        if index < self.extensions.len() {
            Ok(self.extensions.remove(index))
        } else {
            Err(ModelError::IndexOutOfRange)
        }
    }
}

impl THasSemantics for Entity {
    open spec fn semantics(&self) -> SemanticsAspect {
        SemanticsAspect {
            semantic_id: self@.semantic_id,
            supplemental_semantic_ids: self@.supplemental_semantic_ids,
        }
    }

    fn set_semantic_id(&mut self, semantic_id: Reference)
        ensures
            final(self)@ == (EntityView { semantic_id: Some(semantic_id@), ..old(self)@ }),
    {
        broadcast use lemma_model;

        self.semantic_id = Some(semantic_id);
    }

    fn get_semantic_id(&self) -> (r: Option<&Reference>) {
        broadcast use lemma_model;

        self.semantic_id.as_ref()
    }

    fn get_mut_semantic_id(&mut self) -> (r: Option<&mut Reference>)
        ensures
            match r {
                Some(m) =>
                    final(self)@ == (EntityView { semantic_id: Some(final(m)@), ..old(self)@ }),
                None => final(self)@ == old(self)@,
            },
    {
        broadcast use lemma_model;

        self.semantic_id.as_mut()
    }

    fn set_supplemental_semantic_ids(&mut self, supplemental_semantic_ids: Vec<Reference>)
        ensures
            final(self)@ ==
                (EntityView { supplemental_semantic_ids: supplemental_semantic_ids.deep_view(),
                ..old(self)@ }),
    {
        broadcast use lemma_model;

        self.supplemental_semantic_ids = supplemental_semantic_ids;
    }

    fn get_supplemental_semantic_ids(&self) -> (r: &Vec<Reference>) {
        broadcast use lemma_model;

        &self.supplemental_semantic_ids
    }

    fn get_mut_supplemental_semantic_ids(&mut self) -> (r: &mut Vec<Reference>)
        ensures
            final(self)@ ==
                (EntityView { supplemental_semantic_ids: final(r).deep_view(), ..old(self)@ }),
    {
        broadcast use lemma_model;

        &mut self.supplemental_semantic_ids
    }

    fn add_supplemental_semantic_id(&mut self, supplemental_semantic_id: Reference)
        ensures
            final(self)@ ==
                (EntityView { supplemental_semantic_ids: old(self)@.supplemental_semantic_ids.push(
                supplemental_semantic_id@), ..old(self)@ }),
    {
        broadcast use lemma_model;

        self.supplemental_semantic_ids.push(supplemental_semantic_id);
    }

    fn remove_supplemental_semantic_id(&mut self, index: usize) -> (r: Result<Reference,
        ModelError>)
        ensures
            match r {
                Ok(item) =>
                    final(self)@ ==
                    (EntityView {
                    supplemental_semantic_ids: old(self)@.supplemental_semantic_ids.remove(
                    index as int), ..old(self)@ }),
                Err(e) => final(self)@ == old(self)@,
            },
    {
        broadcast use lemma_model;

        if index < self.supplemental_semantic_ids.len() {
            Ok(self.supplemental_semantic_ids.remove(index))
        } else {
            Err(ModelError::IndexOutOfRange)
        }
    }
}

impl TQualifiable for Entity {
    open spec fn qualifiers_view(&self) -> Seq<QualifierView> {
        self@.qualifiers
    }

    fn set_qualifiers(&mut self, qualifiers: Vec<Qualifier>)
        ensures
            final(self)@ == (EntityView { qualifiers: qualifiers.deep_view(), ..old(self)@ }),
    {
        broadcast use lemma_model;

        self.qualifiers = qualifiers;
    }

    fn get_qualifiers(&self) -> (r: &Vec<Qualifier>) {
        broadcast use lemma_model;

        &self.qualifiers
    }

    fn get_mut_qualifiers(&mut self) -> (r: &mut Vec<Qualifier>)
        ensures
            final(self)@ == (EntityView { qualifiers: final(r).deep_view(), ..old(self)@ }),
    {
        broadcast use lemma_model;

        &mut self.qualifiers
    }

    fn add_qualifier(&mut self, qualifier: Qualifier)
        ensures
            final(self)@ ==
                (EntityView { qualifiers: old(self)@.qualifiers.push(qualifier@), ..old(self)@ }),
    {
        broadcast use lemma_model;

        self.qualifiers.push(qualifier);
    }

    fn remove_qualifier(&mut self, index: usize) -> (r: Result<Qualifier, ModelError>)
        ensures
            match r {
                Ok(item) =>
                    final(self)@ ==
                    (EntityView { qualifiers: old(self)@.qualifiers.remove(index as int),
                    ..old(self)@ }),
                Err(e) => final(self)@ == old(self)@,
            },
    {
        broadcast use lemma_model;

        if index < self.qualifiers.len() {
            Ok(self.qualifiers.remove(index))
        } else {
            Err(ModelError::IndexOutOfRange)
        }
    }
}

impl THasDataSpecification for Entity {
    open spec fn data_specifications_view(&self) -> Seq<ReferenceView> {
        self@.data_specifications
    }

    fn set_data_specifications(&mut self, data_specifications: Vec<Reference>)
        ensures
            final(self)@ ==
                (EntityView { data_specifications: data_specifications.deep_view(), ..old(self)@ }),
    {
        broadcast use lemma_model;

        self.data_specifications = data_specifications;
    }

    fn get_data_specifications(&self) -> (r: &Vec<Reference>) {
        broadcast use lemma_model;

        &self.data_specifications
    }

    fn get_mut_data_specifications(&mut self) -> (r: &mut Vec<Reference>)
        ensures
            final(self)@ ==
                (EntityView { data_specifications: final(r).deep_view(), ..old(self)@ }),
    {
        broadcast use lemma_model;

        &mut self.data_specifications
    }

    fn add_data_specification(&mut self, data_specification: Reference)
        ensures
            final(self)@ ==
                (EntityView { data_specifications: old(self)@.data_specifications.push(
                data_specification@), ..old(self)@ }),
    {
        broadcast use lemma_model;

        self.data_specifications.push(data_specification);
    }

    fn remove_data_specification(&mut self, index: usize) -> (r: Result<Reference, ModelError>)
        ensures
            match r {
                Ok(item) =>
                    final(self)@ ==
                    (EntityView { data_specifications: old(self)@.data_specifications.remove(
                    index as int), ..old(self)@ }),
                Err(e) => final(self)@ == old(self)@,
            },
    {
        broadcast use lemma_model;

        if index < self.data_specifications.len() {
            Ok(self.data_specifications.remove(index))
        } else {
            Err(ModelError::IndexOutOfRange)
        }
    }
}

impl TSubmodelElement for Entity {
}

impl EntityView {
    /// The same value with what it carries of the aspect replaced.
    pub open spec fn with_referable(self, aspect: ReferableAspect) -> EntityView {
        EntityView {
            category: aspect.category,
            id_short: aspect.id_short,
            display_name: aspect.display_name,
            description: aspect.description,
            ..self
        }
    }

    /// The same value with the extensions of the element replaced.
    pub open spec fn with_extensions(self, extensions: Seq<ExtensionView>) -> EntityView {
        EntityView {
            extensions,
            ..self
        }
    }

    /// The same value with what it carries of the aspect replaced.
    pub open spec fn with_semantics(self, aspect: SemanticsAspect) -> EntityView {
        EntityView {
            semantic_id: aspect.semantic_id,
            supplemental_semantic_ids: aspect.supplemental_semantic_ids,
            ..self
        }
    }

    /// The same value with the additional qualifications of the element replaced.
    pub open spec fn with_qualifiers(self, qualifiers: Seq<QualifierView>) -> EntityView {
        EntityView {
            qualifiers,
            ..self
        }
    }

    /// The same value with the external references to the data specification templates used by the
    /// element replaced.
    pub open spec fn with_data_specifications(self, data_specifications: Seq<ReferenceView>)
        -> EntityView {
        EntityView {
            data_specifications,
            ..self
        }
    }

    /// Whether every reference in the value is well formed.
    pub open spec fn well_formed(self) -> bool
        decreases self, 0nat,
    {
        &&& (forall|i: int| 0 <= i < self.statements.len() ==>
            (#[trigger] self.statements[i]).well_formed())
        &&& (forall|i: int| 0 <= i < self.specific_asset_ids.len() ==>
            (#[trigger] self.specific_asset_ids[i]).well_formed())
        &&& (forall|i: int| 0 <= i < self.extensions.len() ==>
            (#[trigger] self.extensions[i]).well_formed())
        &&& (self.semantic_id matches Some(v) ==> v.well_formed())
        &&& (forall|i: int| 0 <= i < self.supplemental_semantic_ids.len() ==>
            (#[trigger] self.supplemental_semantic_ids[i]).well_formed())
        &&& (forall|i: int| 0 <= i < self.qualifiers.len() ==>
            (#[trigger] self.qualifiers[i]).well_formed())
        &&& (forall|i: int| 0 <= i < self.data_specifications.len() ==>
            (#[trigger] self.data_specifications[i]).well_formed())
    }

    /// The members of a record that begins with `before` and goes on with
    /// the members of the value, in their order.
    pub open spec fn members_after(self, before: Seq<FieldView>) -> Seq<FieldView>
        decreases self, 1nat,
    {
        self.layout(before)
    }

    /// The members of the value, one by one, behind `before`.
    #[verifier::opaque]
    pub open spec fn layout(self, before: Seq<FieldView>) -> Seq<FieldView>
        decreases self, 0nat,
    {
        before
            .push(member("statements"@, SubmodelElementView::list_to_wire(self.statements)))
            .push(member("entityType"@, EntityType::optional_to_wire(self.entity_type)))
            .push(member("globalAssetId"@, optional_text_encode(self.global_asset_id)))
            .push(member("specificAssetIds"@,
                SpecificAssetIdView::list_to_wire(self.specific_asset_ids)))
            .push(member("category"@, optional_text_encode(self.category)))
            .push(member("idShort"@, optional_text_encode(self.id_short)))
            .push(member("displayName"@,
                MultiLanguageNameTypeView::list_to_wire(self.display_name)))
            .push(member("description"@, MultiLanguageTextTypeView::list_to_wire(self.description)))
            .push(member("extensions"@, ExtensionView::list_to_wire(self.extensions)))
            .push(member("semanticId"@, ReferenceView::optional_to_wire(self.semantic_id)))
            .push(member("supplementalSemanticIds"@,
                ReferenceView::list_to_wire(self.supplemental_semantic_ids)))
            .push(member("qualifiers"@, QualifierView::list_to_wire(self.qualifiers)))
            .push(member("embeddedDataSpecifications"@,
                ReferenceView::list_to_wire(self.data_specifications)))
    }

    /// The value on the wire: the record of its members.
    pub open spec fn to_wire(self) -> WireView
        decreases self, 2nat,
    {
        WireView::Record(self.members_after(Seq::empty()))
    }

    /// The value that the members of a record stand for. Members of other
    /// names are passed over; of two members of one name the first counts;
    /// the first member in the order above that cannot be decoded decides
    /// the failure.
    pub open spec fn from_members(fields: Seq<FieldView>) -> Result<EntityView, DecodeErrorView>
        decreases fields, 1nat,
    {
        EntityView::parse(fields)
    }

    /// The value that the members of a record stand for, member by member.
    #[verifier::opaque]
    pub open spec fn parse(fields: Seq<FieldView>) -> Result<EntityView, DecodeErrorView>
        decreases fields, 0nat,
    {
        let statements = match lookup(fields, "statements"@) {
            None => Err(fail_at(DecodeFault::MissingField, "statements"@)),
            Some(x) => {
                proof {
                    lemma_lookup_smaller(fields, "statements"@);
                }
                in_field("statements"@, SubmodelElementView::list_from_wire(x))
            },
        };
        let entity_type = match present(fields, "entityType"@) {
            None => Ok(None),
            Some(x) => optional(in_field("entityType"@, EntityType::from_wire(x))),
        };
        let global_asset_id = match present(fields, "globalAssetId"@) {
            None => Ok(None),
            Some(x) => optional(in_field("globalAssetId"@, text_decode(x))),
        };
        let specific_asset_ids = match lookup(fields, "specificAssetIds"@) {
            None => Err(fail_at(DecodeFault::MissingField, "specificAssetIds"@)),
            Some(x) => in_field("specificAssetIds"@, SpecificAssetIdView::list_from_wire(x)),
        };
        let category = match present(fields, "category"@) {
            None => Ok(None),
            Some(x) => optional(in_field("category"@, text_decode(x))),
        };
        let id_short = match present(fields, "idShort"@) {
            None => Ok(None),
            Some(x) => optional(in_field("idShort"@, text_decode(x))),
        };
        let display_name = match lookup(fields, "displayName"@) {
            None => Err(fail_at(DecodeFault::MissingField, "displayName"@)),
            Some(x) => in_field("displayName"@, MultiLanguageNameTypeView::list_from_wire(x)),
        };
        let description = match lookup(fields, "description"@) {
            None => Err(fail_at(DecodeFault::MissingField, "description"@)),
            Some(x) => in_field("description"@, MultiLanguageTextTypeView::list_from_wire(x)),
        };
        let extensions = match lookup(fields, "extensions"@) {
            None => Err(fail_at(DecodeFault::MissingField, "extensions"@)),
            Some(x) => in_field("extensions"@, ExtensionView::list_from_wire(x)),
        };
        let semantic_id = match present(fields, "semanticId"@) {
            None => Ok(None),
            Some(x) => optional(in_field("semanticId"@, ReferenceView::from_wire(x))),
        };
        let supplemental_semantic_ids = match lookup(fields, "supplementalSemanticIds"@) {
            None => Err(fail_at(DecodeFault::MissingField, "supplementalSemanticIds"@)),
            Some(x) => in_field("supplementalSemanticIds"@, ReferenceView::list_from_wire(x)),
        };
        let qualifiers = match lookup(fields, "qualifiers"@) {
            None => Err(fail_at(DecodeFault::MissingField, "qualifiers"@)),
            Some(x) => in_field("qualifiers"@, QualifierView::list_from_wire(x)),
        };
        let data_specifications = match lookup(fields, "embeddedDataSpecifications"@) {
            None => Err(fail_at(DecodeFault::MissingField, "embeddedDataSpecifications"@)),
            Some(x) => in_field("embeddedDataSpecifications"@, ReferenceView::list_from_wire(x)),
        };
        if statements is Err {
            Err(statements->Err_0)
        } else if entity_type is Err {
            Err(entity_type->Err_0)
        } else if global_asset_id is Err {
            Err(global_asset_id->Err_0)
        } else if specific_asset_ids is Err {
            Err(specific_asset_ids->Err_0)
        } else if category is Err {
            Err(category->Err_0)
        } else if id_short is Err {
            Err(id_short->Err_0)
        } else if display_name is Err {
            Err(display_name->Err_0)
        } else if description is Err {
            Err(description->Err_0)
        } else if extensions is Err {
            Err(extensions->Err_0)
        } else if semantic_id is Err {
            Err(semantic_id->Err_0)
        } else if supplemental_semantic_ids is Err {
            Err(supplemental_semantic_ids->Err_0)
        } else if qualifiers is Err {
            Err(qualifiers->Err_0)
        } else if data_specifications is Err {
            Err(data_specifications->Err_0)
        } else {
            Ok(EntityView {
                statements: statements->Ok_0,
                entity_type: entity_type->Ok_0,
                global_asset_id: global_asset_id->Ok_0,
                specific_asset_ids: specific_asset_ids->Ok_0,
                category: category->Ok_0,
                id_short: id_short->Ok_0,
                display_name: display_name->Ok_0,
                description: description->Ok_0,
                extensions: extensions->Ok_0,
                semantic_id: semantic_id->Ok_0,
                supplemental_semantic_ids: supplemental_semantic_ids->Ok_0,
                qualifiers: qualifiers->Ok_0,
                data_specifications: data_specifications->Ok_0,
            })
        }
    }

    /// The value that a wire value stands for.
    pub open spec fn from_wire(w: WireView) -> Result<EntityView, DecodeErrorView>
        decreases w, 0nat,
    {
        match w {
            WireView::Record(fields) => EntityView::from_members(fields),
            _ => Err(fail(DecodeFault::ExpectedRecord)),
        }
    }

    /// The members of the value hide no type name that the record begins with.
    pub proof fn lemma_model_type_kept(self, tag: Option<Seq<char>>)
        ensures
            lookup(self.members_after(tagged(tag)), "modelType"@) == lookup(
                tagged(tag),
                "modelType"@,
            ),
    {
        broadcast use lemma_lookup_push;

        reveal(EntityView::layout);
        lemma_name_codes();
    }

    /// The value is found again from the members of its record, whether the
    /// record begins with a type name or not.
    #[verifier::rlimit(50)]
    pub proof fn lemma_members_round_trip(self, tag: Option<Seq<char>>)
        requires
            self.well_formed(),
        ensures
            EntityView::from_members(self.members_after(tagged(tag))) ==
                Ok::<EntityView, DecodeErrorView>(
                self,
            ),
        decreases self, 0nat,
    {
        broadcast use lemma_lookup_push;

        reveal(EntityView::layout);
        reveal(EntityView::parse);
        lemma_name_codes();
        SubmodelElementView::lemma_list_round_trip(self.statements);
        match self.entity_type {
            Some(v) => {
                v.lemma_round_trip();
            },
            None => {},
        }
        SpecificAssetIdView::lemma_list_round_trip(self.specific_asset_ids);
        MultiLanguageNameTypeView::lemma_list_round_trip(self.display_name);
        MultiLanguageTextTypeView::lemma_list_round_trip(self.description);
        ExtensionView::lemma_list_round_trip(self.extensions);
        match self.semantic_id {
            Some(v) => {
                v.lemma_round_trip();
            },
            None => {},
        }
        ReferenceView::lemma_list_round_trip(self.supplemental_semantic_ids);
        QualifierView::lemma_list_round_trip(self.qualifiers);
        ReferenceView::lemma_list_round_trip(self.data_specifications);
    }

    /// Every value is found again from what it is on the wire.
    pub proof fn lemma_round_trip(self)
        requires
            self.well_formed(),
        ensures
            EntityView::from_wire(self.to_wire()) == Ok::<EntityView, DecodeErrorView>(self),
        decreases self, 2nat,
    {
        self.lemma_members_round_trip(None);
    }
}

impl Entity {
    /// The value as it travels: the record of its members. What comes out
    /// decodes to the same value again.
    pub fn encode(&self) -> (w: Wire)
        ensures
            w@ == self@.to_wire(),
            self@.well_formed(),
            EntityView::from_wire(w@) == Ok::<EntityView, DecodeErrorView>(self@),
        decreases self, 2nat,
    {
        let mut fields: Vec<Field> = Vec::new();
        assert(fields.deep_view() =~= Seq::<FieldView>::empty());
        self.encode_members(&mut fields);
        proof {
            self@.lemma_round_trip();
        }
        Wire::record(fields)
    }

    /// Appends the members of the value, as they travel, to `fields`.
    pub fn encode_members(&self, fields: &mut Vec<Field>)
        ensures
            final(fields).deep_view() == self@.members_after(old(fields).deep_view()),
            self@.well_formed(),
        decreases self, 0nat,
    {
        broadcast use lemma_model;

        reveal(EntityView::layout);
        add_member(fields, "statements", SubmodelElement::encode_list(&self.statements));
        add_member(fields, "entityType", EntityType::encode_optional(&self.entity_type));
        add_member(fields, "globalAssetId", encode_optional_text(&self.global_asset_id));
        add_member(fields, "specificAssetIds",
            SpecificAssetId::encode_list(&self.specific_asset_ids));
        add_member(fields, "category", encode_optional_text(&self.category));
        add_member(fields, "idShort", encode_optional_text(&self.id_short));
        add_member(fields, "displayName", MultiLanguageNameType::encode_list(&self.display_name));
        add_member(fields, "description", MultiLanguageTextType::encode_list(&self.description));
        add_member(fields, "extensions", Extension::encode_list(&self.extensions));
        add_member(fields, "semanticId", Reference::encode_optional(&self.semantic_id));
        add_member(fields, "supplementalSemanticIds",
            Reference::encode_list(&self.supplemental_semantic_ids));
        add_member(fields, "qualifiers", Qualifier::encode_list(&self.qualifiers));
        add_member(fields, "embeddedDataSpecifications",
            Reference::encode_list(&self.data_specifications));
    }

    /// The value that `w` stands for.
    pub fn decode(w: &Wire) -> (r: Result<Entity, DecodeError>)
        ensures
            outcome(r) == EntityView::from_wire(w@),
        decreases w, 0nat,
    {
        match w.members() {
            Some(fields) => Entity::decode_members(fields),
            None => Err(DecodeError::new(DecodeFault::ExpectedRecord)),
        }
    }

    /// The value that the members `fields` of a record stand for.
    #[verifier::rlimit(50)]
    pub fn decode_members(fields: &Vec<Field>) -> (r: Result<Entity, DecodeError>)
        ensures
            outcome(r) == EntityView::from_members(fields.deep_view()),
        decreases fields, 0nat,
    {
        broadcast use lemma_model;

        reveal(EntityView::parse);
        let statements = match find(fields, "statements") {
            None => Err(DecodeError::at(DecodeFault::MissingField, "statements")),
            Some(x) => match SubmodelElement::decode_list(x) {
                Ok(v) => Ok(v),
                Err(e) => Err(e.under_field("statements")),
            },
        };
        let entity_type = match find_present(fields, "entityType") {
            None => Ok(None),
            Some(x) => match EntityType::decode(x) {
                Ok(v) => Ok(Some(v)),
                Err(e) => Err(e.under_field("entityType")),
            },
        };
        let global_asset_id = match find_present(fields, "globalAssetId") {
            None => Ok(None),
            Some(x) => match decode_text(x) {
                Ok(v) => Ok(Some(v)),
                Err(e) => Err(e.under_field("globalAssetId")),
            },
        };
        let specific_asset_ids = match find(fields, "specificAssetIds") {
            None => Err(DecodeError::at(DecodeFault::MissingField, "specificAssetIds")),
            Some(x) => match SpecificAssetId::decode_list(x) {
                Ok(v) => Ok(v),
                Err(e) => Err(e.under_field("specificAssetIds")),
            },
        };
        let category = match find_present(fields, "category") {
            None => Ok(None),
            Some(x) => match decode_text(x) {
                Ok(v) => Ok(Some(v)),
                Err(e) => Err(e.under_field("category")),
            },
        };
        let id_short = match find_present(fields, "idShort") {
            None => Ok(None),
            Some(x) => match decode_text(x) {
                Ok(v) => Ok(Some(v)),
                Err(e) => Err(e.under_field("idShort")),
            },
        };
        let display_name = match find(fields, "displayName") {
            None => Err(DecodeError::at(DecodeFault::MissingField, "displayName")),
            Some(x) => match MultiLanguageNameType::decode_list(x) {
                Ok(v) => Ok(v),
                Err(e) => Err(e.under_field("displayName")),
            },
        };
        let description = match find(fields, "description") {
            None => Err(DecodeError::at(DecodeFault::MissingField, "description")),
            Some(x) => match MultiLanguageTextType::decode_list(x) {
                Ok(v) => Ok(v),
                Err(e) => Err(e.under_field("description")),
            },
        };
        let extensions = match find(fields, "extensions") {
            None => Err(DecodeError::at(DecodeFault::MissingField, "extensions")),
            Some(x) => match Extension::decode_list(x) {
                Ok(v) => Ok(v),
                Err(e) => Err(e.under_field("extensions")),
            },
        };
        let semantic_id = match find_present(fields, "semanticId") {
            None => Ok(None),
            Some(x) => match Reference::decode(x) {
                Ok(v) => Ok(Some(v)),
                Err(e) => Err(e.under_field("semanticId")),
            },
        };
        let supplemental_semantic_ids = match find(fields, "supplementalSemanticIds") {
            None => Err(DecodeError::at(DecodeFault::MissingField, "supplementalSemanticIds")),
            Some(x) => match Reference::decode_list(x) {
                Ok(v) => Ok(v),
                Err(e) => Err(e.under_field("supplementalSemanticIds")),
            },
        };
        let qualifiers = match find(fields, "qualifiers") {
            None => Err(DecodeError::at(DecodeFault::MissingField, "qualifiers")),
            Some(x) => match Qualifier::decode_list(x) {
                Ok(v) => Ok(v),
                Err(e) => Err(e.under_field("qualifiers")),
            },
        };
        let data_specifications = match find(fields, "embeddedDataSpecifications") {
            None => Err(DecodeError::at(DecodeFault::MissingField, "embeddedDataSpecifications")),
            Some(x) => match Reference::decode_list(x) {
                Ok(v) => Ok(v),
                Err(e) => Err(e.under_field("embeddedDataSpecifications")),
            },
        };
        let statements = match statements {
            Ok(v) => v,
            Err(e) => {
                return Err(e);
            },
        };
        let entity_type = match entity_type {
            Ok(v) => v,
            Err(e) => {
                return Err(e);
            },
        };
        let global_asset_id = match global_asset_id {
            Ok(v) => v,
            Err(e) => {
                return Err(e);
            },
        };
        let specific_asset_ids = match specific_asset_ids {
            Ok(v) => v,
            Err(e) => {
                return Err(e);
            },
        };
        let category = match category {
            Ok(v) => v,
            Err(e) => {
                return Err(e);
            },
        };
        let id_short = match id_short {
            Ok(v) => v,
            Err(e) => {
                return Err(e);
            },
        };
        let display_name = match display_name {
            Ok(v) => v,
            Err(e) => {
                return Err(e);
            },
        };
        let description = match description {
            Ok(v) => v,
            Err(e) => {
                return Err(e);
            },
        };
        let extensions = match extensions {
            Ok(v) => v,
            Err(e) => {
                return Err(e);
            },
        };
        let semantic_id = match semantic_id {
            Ok(v) => v,
            Err(e) => {
                return Err(e);
            },
        };
        let supplemental_semantic_ids = match supplemental_semantic_ids {
            Ok(v) => v,
            Err(e) => {
                return Err(e);
            },
        };
        let qualifiers = match qualifiers {
            Ok(v) => v,
            Err(e) => {
                return Err(e);
            },
        };
        let data_specifications = match data_specifications {
            Ok(v) => v,
            Err(e) => {
                return Err(e);
            },
        };
        let r = Entity { statements, entity_type, global_asset_id, specific_asset_ids, category,
            id_short, display_name, description, extensions, semantic_id, supplemental_semantic_ids,
            qualifiers, data_specifications };
        assert(r@ =~= EntityView::from_members(fields.deep_view())->Ok_0);
        Ok(r)
    }
}

impl EntityView {
    /// Whether the value and everything below it keeps what a document must
    /// keep: no language twice in one collection of texts, no short ID twice
    /// among the elements of one container, no empty and no repeated ID.
    pub open spec fn consistent(self) -> bool
        decreases self, 0nat,
    {
        &&& SubmodelElementView::id_shorts_distinct(self.statements)
        &&& (forall|i: int| 0 <= i < self.statements.len() ==>
            (#[trigger] self.statements[i]).consistent())
        &&& distinct(MultiLanguageNameTypeView::languages(self.display_name))
        &&& distinct(MultiLanguageTextTypeView::languages(self.description))
    }
}

impl Entity {
    /// Whether the value and everything below it keeps what a document must
    /// keep.
    pub fn is_consistent(&self) -> (b: bool)
        ensures
            b == self@.consistent(),
        decreases self, 1nat,
    {
        broadcast use lemma_model;

        assert(self@.statements =~= self.statements.deep_view());
        let statements_short_ids = SubmodelElement::id_shorts_distinct(&self.statements);
        let statements_below = SubmodelElement::all_consistent(&self.statements);
        let display_name_languages = MultiLanguageNameType::languages_distinct(&self.display_name);
        let description_languages = MultiLanguageTextType::languages_distinct(&self.description);
        statements_short_ids && statements_below && display_name_languages && description_languages
    }
}

} // verus!
