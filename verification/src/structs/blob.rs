use vstd::prelude::*;
use crate::error::ModelError;
use crate::names::lemma_name_codes;
use crate::structs::multi_language_name_type::{MultiLanguageNameType, MultiLanguageNameTypeView};
use crate::structs::multi_language_text_type::{MultiLanguageTextType, MultiLanguageTextTypeView};
use crate::structs::qualifier::{Qualifier, QualifierView};
use crate::structs::reference::{Reference, ReferenceView};
use crate::traits::data_element::TDataElement;
use crate::traits::has_data_specification::THasDataSpecification;
use crate::traits::has_semantics::{SemanticsAspect, THasSemantics};
use crate::traits::qualifiable::TQualifiable;
use crate::traits::referable::{ReferableAspect, TReferable};
use crate::traits::submodel_element::TSubmodelElement;
use crate::validation::distinct;
use crate::wire::{
    add_member,
    decode_text,
    encode_optional_text,
    encode_text,
    fail,
    fail_at,
    find,
    find_present,
    in_field,
    lemma_lookup_push,
    lookup,
    member,
    optional,
    optional_text_encode,
    outcome,
    present,
    tagged,
    text_decode,
    text_encode,
    DecodeError,
    DecodeErrorView,
    DecodeFault,
    Field,
    FieldView,
    Wire,
    WireView,
};

verus! {

/// A blob is a data element that represents a file that is contained with its source code in
/// the value attribute.
#[derive(Debug, PartialEq)]
pub struct Blob {
    /// The content of the blob, in the text form in which it travels.
    value: Option<String>,
    /// The content type of the content of the blob.
    content_type: String,
    /// The category, a value that gives further meta information.
    category: Option<String>,
    /// The short ID of the element.
    id_short: Option<String>,
    /// The display name of the element, one entry for each language.
    display_name: Vec<MultiLanguageNameType>,
    /// The description of the element, one entry for each language.
    description: Vec<MultiLanguageTextType>,
    /// The identifier of the semantic definition of the element, its main semantic ID.
    semantic_id: Option<Reference>,
    /// The identifiers of supplemental semantic definitions of the element.
    supplemental_semantic_ids: Vec<Reference>,
    /// The additional qualifications of the element.
    qualifiers: Vec<Qualifier>,
    /// The external references to the data specification templates used by the element.
    data_specifications: Vec<Reference>,
}

/// The mathematical form of a [`Blob`].
#[verifier::ext_equal]
pub struct BlobView {
    pub value: Option<Seq<char>>,
    pub content_type: Seq<char>,
    pub category: Option<Seq<char>>,
    pub id_short: Option<Seq<char>>,
    pub display_name: Seq<MultiLanguageNameTypeView>,
    pub description: Seq<MultiLanguageTextTypeView>,
    pub semantic_id: Option<ReferenceView>,
    pub supplemental_semantic_ids: Seq<ReferenceView>,
    pub qualifiers: Seq<QualifierView>,
    pub data_specifications: Seq<ReferenceView>,
}

impl View for Blob {
    type V = BlobView;

    closed spec fn view(&self) -> BlobView {
        BlobView {
            value: self.value.deep_view(),
            content_type: self.content_type@,
            category: self.category.deep_view(),
            id_short: self.id_short.deep_view(),
            display_name: self.display_name.deep_view(),
            description: self.description.deep_view(),
            semantic_id: self.semantic_id.deep_view(),
            supplemental_semantic_ids: self.supplemental_semantic_ids.deep_view(),
            qualifiers: self.qualifiers.deep_view(),
            data_specifications: self.data_specifications.deep_view(),
        }
    }
}

impl DeepView for Blob {
    type V = BlobView;

    open spec fn deep_view(&self) -> BlobView {
        self@
    }
}

impl Clone for Blob {
    fn clone(&self) -> (r: Blob)
        ensures
            r@ == self@,
    {
        Blob {
            value: self.value.clone(),
            content_type: self.content_type.clone(),
            category: self.category.clone(),
            id_short: self.id_short.clone(),
            display_name: MultiLanguageNameType::clone_list(&self.display_name),
            description: MultiLanguageTextType::clone_list(&self.description),
            semantic_id: match &self.semantic_id {
                Some(v) => Some(v.clone()),
                None => None,
            },
            supplemental_semantic_ids: Reference::clone_list(&self.supplemental_semantic_ids),
            qualifiers: Qualifier::clone_list(&self.qualifiers),
            data_specifications: Reference::clone_list(&self.data_specifications),
        }
    }
}

impl Blob {
    /// Creates a blob from what it must have; everything else is
    /// absent or empty.
    pub fn new(content_type: String) -> (r: Blob)
        ensures
            r@ == (BlobView {
                value: None,
                content_type: content_type@,
                category: None,
                id_short: None,
                display_name: Seq::empty(),
                description: Seq::empty(),
                semantic_id: None,
                supplemental_semantic_ids: Seq::empty(),
                qualifiers: Seq::empty(),
                data_specifications: Seq::empty(),
            }),
    {
        Blob {
            value: None,
            content_type,
            category: None,
            id_short: None,
            display_name: Vec::new(),
            description: Vec::new(),
            semantic_id: None,
            supplemental_semantic_ids: Vec::new(),
            qualifiers: Vec::new(),
            data_specifications: Vec::new(),
        }
    }

    /// Sets the content of the blob, in the text form in which it travels.
    pub fn set_value(&mut self, value: String)
        ensures
            final(self)@ == (BlobView { value: Some(value@), ..old(self)@ }),
    {
        self.value = Some(value);
    }

    /// Returns the content of the blob, in the text form in which it travels, if there is one.
    pub fn get_value(&self) -> (r: Option<&String>)
        ensures
            r.deep_view() == self@.value,
    {
        self.value.as_ref()
    }

    /// Sets the content type of the content of the blob.
    pub fn set_content_type(&mut self, content_type: String)
        ensures
            final(self)@ == (BlobView { content_type: content_type@, ..old(self)@ }),
    {
        self.content_type = content_type;
    }

    /// Returns the content type of the content of the blob.
    pub fn get_content_type(&self) -> (r: &String)
        ensures
            r@ == self@.content_type,
    {
        &self.content_type
    }
}

impl TReferable for Blob {
    open spec fn referable(&self) -> ReferableAspect {
        ReferableAspect {
            category: self@.category,
            id_short: self@.id_short,
            display_name: self@.display_name,
            description: self@.description,
        }
    }

    fn set_category(&mut self, category: String)
        ensures
            final(self)@ == (BlobView { category: Some(category@), ..old(self)@ }),
    {
        self.category = Some(category);
    }

    fn get_category(&self) -> (r: Option<&String>) {
        self.category.as_ref()
    }

    fn get_mut_category(&mut self) -> (r: Option<&mut String>)
        ensures
            match r {
                Some(m) => final(self)@ == (BlobView { category: Some(final(m)@), ..old(self)@ }),
                None => final(self)@ == old(self)@,
            },
    {
        self.category.as_mut()
    }

    fn set_id_short(&mut self, id_short: String)
        ensures
            final(self)@ == (BlobView { id_short: Some(id_short@), ..old(self)@ }),
    {
        self.id_short = Some(id_short);
    }

    fn get_id_short(&self) -> (r: Option<&String>) {
        self.id_short.as_ref()
    }

    fn get_mut_id_short(&mut self) -> (r: Option<&mut String>)
        ensures
            match r {
                Some(m) => final(self)@ == (BlobView { id_short: Some(final(m)@), ..old(self)@ }),
                None => final(self)@ == old(self)@,
            },
    {
        self.id_short.as_mut()
    }

    fn set_display_name(&mut self, display_name: Vec<MultiLanguageNameType>)
        ensures
            final(self)@ == (BlobView { display_name: display_name.deep_view(), ..old(self)@ }),
    {
        self.display_name = display_name;
    }

    fn get_display_name(&self) -> (r: &Vec<MultiLanguageNameType>) {
        &self.display_name
    }

    fn get_mut_display_name(&mut self) -> (r: &mut Vec<MultiLanguageNameType>)
        ensures
            final(self)@ == (BlobView { display_name: final(r).deep_view(), ..old(self)@ }),
    {
        &mut self.display_name
    }

    fn add_display_name(&mut self, display_name: MultiLanguageNameType)
        ensures
            final(self)@ ==
                (BlobView { display_name: old(self)@.display_name.push(display_name@),
                ..old(self)@ }),
    {
        self.display_name.push(display_name);
    }

    fn remove_display_name(&mut self, index: usize) -> (r: Result<MultiLanguageNameType,
        ModelError>)
        ensures
            match r {
                Ok(item) =>
                    final(self)@ ==
                    (BlobView { display_name: old(self)@.display_name.remove(index as int),
                    ..old(self)@ }),
                Err(e) => final(self)@ == old(self)@,
            },
    {
        if index < self.display_name.len() {
            Ok(self.display_name.remove(index))
        } else {
            Err(ModelError::IndexOutOfRange)
        }
    }

    fn set_description(&mut self, description: Vec<MultiLanguageTextType>)
        ensures
            final(self)@ == (BlobView { description: description.deep_view(), ..old(self)@ }),
    {
        self.description = description;
    }

    fn get_description(&self) -> (r: &Vec<MultiLanguageTextType>) {
        &self.description
    }

    fn get_mut_description(&mut self) -> (r: &mut Vec<MultiLanguageTextType>)
        ensures
            final(self)@ == (BlobView { description: final(r).deep_view(), ..old(self)@ }),
    {
        &mut self.description
    }

    fn add_description(&mut self, description: MultiLanguageTextType)
        ensures
            final(self)@ ==
                (BlobView { description: old(self)@.description.push(description@), ..old(self)@ }),
    {
        self.description.push(description);
    }

    fn remove_description(&mut self, index: usize) -> (r: Result<MultiLanguageTextType, ModelError>)
        ensures
            match r {
                Ok(item) =>
                    final(self)@ ==
                    (BlobView { description: old(self)@.description.remove(index as int),
                    ..old(self)@ }),
                Err(e) => final(self)@ == old(self)@,
            },
    {
        if index < self.description.len() {
            Ok(self.description.remove(index))
        } else {
            Err(ModelError::IndexOutOfRange)
        }
    }
}

impl THasSemantics for Blob {
    open spec fn semantics(&self) -> SemanticsAspect {
        SemanticsAspect {
            semantic_id: self@.semantic_id,
            supplemental_semantic_ids: self@.supplemental_semantic_ids,
        }
    }

    fn set_semantic_id(&mut self, semantic_id: Reference)
        ensures
            final(self)@ == (BlobView { semantic_id: Some(semantic_id@), ..old(self)@ }),
    {
        self.semantic_id = Some(semantic_id);
    }

    fn get_semantic_id(&self) -> (r: Option<&Reference>) {
        self.semantic_id.as_ref()
    }

    fn get_mut_semantic_id(&mut self) -> (r: Option<&mut Reference>)
        ensures
            match r {
                Some(m) =>
                    final(self)@ == (BlobView { semantic_id: Some(final(m)@), ..old(self)@ }),
                None => final(self)@ == old(self)@,
            },
    {
        self.semantic_id.as_mut()
    }

    fn set_supplemental_semantic_ids(&mut self, supplemental_semantic_ids: Vec<Reference>)
        ensures
            final(self)@ ==
                (BlobView { supplemental_semantic_ids: supplemental_semantic_ids.deep_view(),
                ..old(self)@ }),
    {
        self.supplemental_semantic_ids = supplemental_semantic_ids;
    }

    fn get_supplemental_semantic_ids(&self) -> (r: &Vec<Reference>) {
        &self.supplemental_semantic_ids
    }

    fn get_mut_supplemental_semantic_ids(&mut self) -> (r: &mut Vec<Reference>)
        ensures
            final(self)@ ==
                (BlobView { supplemental_semantic_ids: final(r).deep_view(), ..old(self)@ }),
    {
        &mut self.supplemental_semantic_ids
    }

    fn add_supplemental_semantic_id(&mut self, supplemental_semantic_id: Reference)
        ensures
            final(self)@ ==
                (BlobView { supplemental_semantic_ids: old(self)@.supplemental_semantic_ids.push(
                supplemental_semantic_id@), ..old(self)@ }),
    {
        self.supplemental_semantic_ids.push(supplemental_semantic_id);
    }

    fn remove_supplemental_semantic_id(&mut self, index: usize) -> (r: Result<Reference,
        ModelError>)
        ensures
            match r {
                Ok(item) =>
                    final(self)@ ==
                    (BlobView {
                    supplemental_semantic_ids: old(self)@.supplemental_semantic_ids.remove(
                    index as int), ..old(self)@ }),
                Err(e) => final(self)@ == old(self)@,
            },
    {
        if index < self.supplemental_semantic_ids.len() {
            Ok(self.supplemental_semantic_ids.remove(index))
        } else {
            Err(ModelError::IndexOutOfRange)
        }
    }
}

impl TQualifiable for Blob {
    open spec fn qualifiers_view(&self) -> Seq<QualifierView> {
        self@.qualifiers
    }

    fn set_qualifiers(&mut self, qualifiers: Vec<Qualifier>)
        ensures
            final(self)@ == (BlobView { qualifiers: qualifiers.deep_view(), ..old(self)@ }),
    {
        self.qualifiers = qualifiers;
    }

    fn get_qualifiers(&self) -> (r: &Vec<Qualifier>) {
        &self.qualifiers
    }

    fn get_mut_qualifiers(&mut self) -> (r: &mut Vec<Qualifier>)
        ensures
            final(self)@ == (BlobView { qualifiers: final(r).deep_view(), ..old(self)@ }),
    {
        &mut self.qualifiers
    }

    fn add_qualifier(&mut self, qualifier: Qualifier)
        ensures
            final(self)@ ==
                (BlobView { qualifiers: old(self)@.qualifiers.push(qualifier@), ..old(self)@ }),
    {
        self.qualifiers.push(qualifier);
    }

    fn remove_qualifier(&mut self, index: usize) -> (r: Result<Qualifier, ModelError>)
        ensures
            match r {
                Ok(item) =>
                    final(self)@ ==
                    (BlobView { qualifiers: old(self)@.qualifiers.remove(index as int),
                    ..old(self)@ }),
                Err(e) => final(self)@ == old(self)@,
            },
    {
        if index < self.qualifiers.len() {
            Ok(self.qualifiers.remove(index))
        } else {
            Err(ModelError::IndexOutOfRange)
        }
    }
}

impl THasDataSpecification for Blob {
    open spec fn data_specifications_view(&self) -> Seq<ReferenceView> {
        self@.data_specifications
    }

    fn set_data_specifications(&mut self, data_specifications: Vec<Reference>)
        ensures
            final(self)@ ==
                (BlobView { data_specifications: data_specifications.deep_view(), ..old(self)@ }),
    {
        self.data_specifications = data_specifications;
    }

    fn get_data_specifications(&self) -> (r: &Vec<Reference>) {
        &self.data_specifications
    }

    fn get_mut_data_specifications(&mut self) -> (r: &mut Vec<Reference>)
        ensures
            final(self)@ == (BlobView { data_specifications: final(r).deep_view(), ..old(self)@ }),
    {
        &mut self.data_specifications
    }

    fn add_data_specification(&mut self, data_specification: Reference)
        ensures
            final(self)@ ==
                (BlobView { data_specifications: old(self)@.data_specifications.push(
                data_specification@), ..old(self)@ }),
    {
        self.data_specifications.push(data_specification);
    }

    fn remove_data_specification(&mut self, index: usize) -> (r: Result<Reference, ModelError>)
        ensures
            match r {
                Ok(item) =>
                    final(self)@ ==
                    (BlobView { data_specifications: old(self)@.data_specifications.remove(
                    index as int), ..old(self)@ }),
                Err(e) => final(self)@ == old(self)@,
            },
    {
        if index < self.data_specifications.len() {
            Ok(self.data_specifications.remove(index))
        } else {
            Err(ModelError::IndexOutOfRange)
        }
    }
}

impl TSubmodelElement for Blob {
}

impl TDataElement for Blob {
}

impl BlobView {
    /// The same value with what it carries of the aspect replaced.
    pub open spec fn with_referable(self, aspect: ReferableAspect) -> BlobView {
        BlobView {
            category: aspect.category,
            id_short: aspect.id_short,
            display_name: aspect.display_name,
            description: aspect.description,
            ..self
        }
    }

    /// The same value with what it carries of the aspect replaced.
    pub open spec fn with_semantics(self, aspect: SemanticsAspect) -> BlobView {
        BlobView {
            semantic_id: aspect.semantic_id,
            supplemental_semantic_ids: aspect.supplemental_semantic_ids,
            ..self
        }
    }

    /// The same value with the additional qualifications of the element replaced.
    pub open spec fn with_qualifiers(self, qualifiers: Seq<QualifierView>) -> BlobView {
        BlobView {
            qualifiers,
            ..self
        }
    }

    /// The same value with the external references to the data specification templates used by the
    /// element replaced.
    pub open spec fn with_data_specifications(self, data_specifications: Seq<ReferenceView>)
        -> BlobView {
        BlobView {
            data_specifications,
            ..self
        }
    }

    /// Whether every reference in the value is well formed.
    pub open spec fn well_formed(self) -> bool {
        &&& (self.semantic_id matches Some(v) ==> v.well_formed())
        &&& (forall|i: int| 0 <= i < self.supplemental_semantic_ids.len() ==>
            (#[trigger] self.supplemental_semantic_ids[i]).well_formed())
        &&& (forall|i: int| 0 <= i < self.qualifiers.len() ==>
            (#[trigger] self.qualifiers[i]).well_formed())
        &&& (forall|i: int| 0 <= i < self.data_specifications.len() ==>
            (#[trigger] self.data_specifications[i]).well_formed())
    }

    /// The members of a record that begins with `before` and goes on with
    /// the members of the value, in their order.
    #[verifier::opaque]
    pub open spec fn members_after(self, before: Seq<FieldView>) -> Seq<FieldView> {
        before
            .push(member("value"@, optional_text_encode(self.value)))
            .push(member("contentType"@, text_encode(self.content_type)))
            .push(member("category"@, optional_text_encode(self.category)))
            .push(member("idShort"@, optional_text_encode(self.id_short)))
            .push(member("displayName"@,
                MultiLanguageNameTypeView::list_to_wire(self.display_name)))
            .push(member("description"@, MultiLanguageTextTypeView::list_to_wire(self.description)))
            .push(member("semanticId"@, ReferenceView::optional_to_wire(self.semantic_id)))
            .push(member("supplementalSemanticIds"@,
                ReferenceView::list_to_wire(self.supplemental_semantic_ids)))
            .push(member("qualifiers"@, QualifierView::list_to_wire(self.qualifiers)))
            .push(member("embeddedDataSpecifications"@,
                ReferenceView::list_to_wire(self.data_specifications)))
    }

    /// The value on the wire: the record of its members.
    pub open spec fn to_wire(self) -> WireView {
        WireView::Record(self.members_after(Seq::empty()))
    }

    /// The value that the members of a record stand for. Members of other
    /// names are passed over; of two members of one name the first counts;
    /// the first member in the order above that cannot be decoded decides
    /// the failure.
    #[verifier::opaque]
    pub open spec fn from_members(fields: Seq<FieldView>) -> Result<BlobView, DecodeErrorView> {
        let value = match present(fields, "value"@) {
            None => Ok(None),
            Some(x) => optional(in_field("value"@, text_decode(x))),
        };
        let content_type = match lookup(fields, "contentType"@) {
            None => Err(fail_at(DecodeFault::MissingField, "contentType"@)),
            Some(x) => in_field("contentType"@, text_decode(x)),
        };
        let category = match present(fields, "category"@) {
            None => Ok(None),
            Some(x) => optional(in_field("category"@, text_decode(x))),
        };
        let id_short = match present(fields, "idShort"@) {
            None => Ok(None),
            Some(x) => optional(in_field("idShort"@, text_decode(x))),
        };
        let display_name = match lookup(fields, "displayName"@) {
            None => Err(fail_at(DecodeFault::MissingField, "displayName"@)),
            Some(x) => in_field("displayName"@, MultiLanguageNameTypeView::list_from_wire(x)),
        };
        let description = match lookup(fields, "description"@) {
            None => Err(fail_at(DecodeFault::MissingField, "description"@)),
            Some(x) => in_field("description"@, MultiLanguageTextTypeView::list_from_wire(x)),
        };
        let semantic_id = match present(fields, "semanticId"@) {
            None => Ok(None),
            Some(x) => optional(in_field("semanticId"@, ReferenceView::from_wire(x))),
        };
        let supplemental_semantic_ids = match lookup(fields, "supplementalSemanticIds"@) {
            None => Err(fail_at(DecodeFault::MissingField, "supplementalSemanticIds"@)),
            Some(x) => in_field("supplementalSemanticIds"@, ReferenceView::list_from_wire(x)),
        };
        let qualifiers = match lookup(fields, "qualifiers"@) {
            None => Err(fail_at(DecodeFault::MissingField, "qualifiers"@)),
            Some(x) => in_field("qualifiers"@, QualifierView::list_from_wire(x)),
        };
        let data_specifications = match lookup(fields, "embeddedDataSpecifications"@) {
            None => Err(fail_at(DecodeFault::MissingField, "embeddedDataSpecifications"@)),
            Some(x) => in_field("embeddedDataSpecifications"@, ReferenceView::list_from_wire(x)),
        };
        if value is Err {
            Err(value->Err_0)
        } else if content_type is Err {
            Err(content_type->Err_0)
        } else if category is Err {
            Err(category->Err_0)
        } else if id_short is Err {
            Err(id_short->Err_0)
        } else if display_name is Err {
            Err(display_name->Err_0)
        } else if description is Err {
            Err(description->Err_0)
        } else if semantic_id is Err {
            Err(semantic_id->Err_0)
        } else if supplemental_semantic_ids is Err {
            Err(supplemental_semantic_ids->Err_0)
        } else if qualifiers is Err {
            Err(qualifiers->Err_0)
        } else if data_specifications is Err {
            Err(data_specifications->Err_0)
        } else {
            Ok(BlobView {
                value: value->Ok_0,
                content_type: content_type->Ok_0,
                category: category->Ok_0,
                id_short: id_short->Ok_0,
                display_name: display_name->Ok_0,
                description: description->Ok_0,
                semantic_id: semantic_id->Ok_0,
                supplemental_semantic_ids: supplemental_semantic_ids->Ok_0,
                qualifiers: qualifiers->Ok_0,
                data_specifications: data_specifications->Ok_0,
            })
        }
    }

    /// The value that a wire value stands for.
    pub open spec fn from_wire(w: WireView) -> Result<BlobView, DecodeErrorView> {
        match w {
            WireView::Record(fields) => BlobView::from_members(fields),
            _ => Err(fail(DecodeFault::ExpectedRecord)),
        }
    }

    /// The members of the value hide no type name that the record begins with.
    pub proof fn lemma_model_type_kept(self, tag: Option<Seq<char>>)
        ensures
            lookup(self.members_after(tagged(tag)), "modelType"@) == lookup(
                tagged(tag),
                "modelType"@,
            ),
    {
        broadcast use lemma_lookup_push;

        reveal(BlobView::members_after);
        lemma_name_codes();
    }

    /// The value is found again from the members of its record, whether the
    /// record begins with a type name or not.
    pub proof fn lemma_members_round_trip(self, tag: Option<Seq<char>>)
        requires
            self.well_formed(),
        ensures
            BlobView::from_members(self.members_after(tagged(tag))) ==
                Ok::<BlobView, DecodeErrorView>(
                self,
            ),
    {
        broadcast use lemma_lookup_push;

        reveal(BlobView::members_after);
        reveal(BlobView::from_members);
        lemma_name_codes();
        MultiLanguageNameTypeView::lemma_list_round_trip(self.display_name);
        MultiLanguageTextTypeView::lemma_list_round_trip(self.description);
        match self.semantic_id {
            Some(v) => {
                v.lemma_round_trip();
            },
            None => {},
        }
        ReferenceView::lemma_list_round_trip(self.supplemental_semantic_ids);
        QualifierView::lemma_list_round_trip(self.qualifiers);
        ReferenceView::lemma_list_round_trip(self.data_specifications);
    }

    /// Every value is found again from what it is on the wire.
    pub proof fn lemma_round_trip(self)
        requires
            self.well_formed(),
        ensures
            BlobView::from_wire(self.to_wire()) == Ok::<BlobView, DecodeErrorView>(self),
    {
        self.lemma_members_round_trip(None);
    }
}

impl Blob {
    /// The value as it travels: the record of its members. What comes out
    /// decodes to the same value again.
    pub fn encode(&self) -> (w: Wire)
        ensures
            w@ == self@.to_wire(),
            self@.well_formed(),
            BlobView::from_wire(w@) == Ok::<BlobView, DecodeErrorView>(self@),
    {
        let mut fields: Vec<Field> = Vec::new();
        assert(fields.deep_view() =~= Seq::<FieldView>::empty());
        self.encode_members(&mut fields);
        proof {
            self@.lemma_round_trip();
        }
        Wire::record(fields)
    }

    /// Appends the members of the value, as they travel, to `fields`.
    pub fn encode_members(&self, fields: &mut Vec<Field>)
        ensures
            final(fields).deep_view() == self@.members_after(old(fields).deep_view()),
            self@.well_formed(),
    {
        reveal(BlobView::members_after);
        add_member(fields, "value", encode_optional_text(&self.value));
        add_member(fields, "contentType", encode_text(&self.content_type));
        add_member(fields, "category", encode_optional_text(&self.category));
        add_member(fields, "idShort", encode_optional_text(&self.id_short));
        add_member(fields, "displayName", MultiLanguageNameType::encode_list(&self.display_name));
        add_member(fields, "description", MultiLanguageTextType::encode_list(&self.description));
        add_member(fields, "semanticId", Reference::encode_optional(&self.semantic_id));
        add_member(fields, "supplementalSemanticIds",
            Reference::encode_list(&self.supplemental_semantic_ids));
        add_member(fields, "qualifiers", Qualifier::encode_list(&self.qualifiers));
        add_member(fields, "embeddedDataSpecifications",
            Reference::encode_list(&self.data_specifications));
    }

    /// The value that `w` stands for.
    pub fn decode(w: &Wire) -> (r: Result<Blob, DecodeError>)
        ensures
            outcome(r) == BlobView::from_wire(w@),
    {
        match w.members() {
            Some(fields) => Blob::decode_members(fields),
            None => Err(DecodeError::new(DecodeFault::ExpectedRecord)),
        }
    }

    /// The value that the members `fields` of a record stand for.
    pub fn decode_members(fields: &Vec<Field>) -> (r: Result<Blob, DecodeError>)
        ensures
            outcome(r) == BlobView::from_members(fields.deep_view()),
    {
        reveal(BlobView::from_members);
        let value = match find_present(fields, "value") {
            None => Ok(None),
            Some(x) => match decode_text(x) {
                Ok(v) => Ok(Some(v)),
                Err(e) => Err(e.under_field("value")),
            },
        };
        let content_type = match find(fields, "contentType") {
            None => Err(DecodeError::at(DecodeFault::MissingField, "contentType")),
            Some(x) => match decode_text(x) {
                Ok(v) => Ok(v),
                Err(e) => Err(e.under_field("contentType")),
            },
        };
        let category = match find_present(fields, "category") {
            None => Ok(None),
            Some(x) => match decode_text(x) {
                Ok(v) => Ok(Some(v)),
                Err(e) => Err(e.under_field("category")),
            },
        };
        let id_short = match find_present(fields, "idShort") {
            None => Ok(None),
            Some(x) => match decode_text(x) {
                Ok(v) => Ok(Some(v)),
                Err(e) => Err(e.under_field("idShort")),
            },
        };
        let display_name = match find(fields, "displayName") {
            None => Err(DecodeError::at(DecodeFault::MissingField, "displayName")),
            Some(x) => match MultiLanguageNameType::decode_list(x) {
                Ok(v) => Ok(v),
                Err(e) => Err(e.under_field("displayName")),
            },
        };
        let description = match find(fields, "description") {
            None => Err(DecodeError::at(DecodeFault::MissingField, "description")),
            Some(x) => match MultiLanguageTextType::decode_list(x) {
                Ok(v) => Ok(v),
                Err(e) => Err(e.under_field("description")),
            },
        };
        let semantic_id = match find_present(fields, "semanticId") {
            None => Ok(None),
            Some(x) => match Reference::decode(x) {
                Ok(v) => Ok(Some(v)),
                Err(e) => Err(e.under_field("semanticId")),
            },
        };
        let supplemental_semantic_ids = match find(fields, "supplementalSemanticIds") {
            None => Err(DecodeError::at(DecodeFault::MissingField, "supplementalSemanticIds")),
            Some(x) => match Reference::decode_list(x) {
                Ok(v) => Ok(v),
                Err(e) => Err(e.under_field("supplementalSemanticIds")),
            },
        };
        let qualifiers = match find(fields, "qualifiers") {
            None => Err(DecodeError::at(DecodeFault::MissingField, "qualifiers")),
            Some(x) => match Qualifier::decode_list(x) {
                Ok(v) => Ok(v),
                Err(e) => Err(e.under_field("qualifiers")),
            },
        };
        let data_specifications = match find(fields, "embeddedDataSpecifications") {
            None => Err(DecodeError::at(DecodeFault::MissingField, "embeddedDataSpecifications")),
            Some(x) => match Reference::decode_list(x) {
                Ok(v) => Ok(v),
                Err(e) => Err(e.under_field("embeddedDataSpecifications")),
            },
        };
        let value = match value {
            Ok(v) => v,
            Err(e) => {
                return Err(e);
            },
        };
        let content_type = match content_type {
            Ok(v) => v,
            Err(e) => {
                return Err(e);
            },
        };
        let category = match category {
            Ok(v) => v,
            Err(e) => {
                return Err(e);
            },
        };
        let id_short = match id_short {
            Ok(v) => v,
            Err(e) => {
                return Err(e);
            },
        };
        let display_name = match display_name {
            Ok(v) => v,
            Err(e) => {
                return Err(e);
            },
        };
        let description = match description {
            Ok(v) => v,
            Err(e) => {
                return Err(e);
            },
        };
        let semantic_id = match semantic_id {
            Ok(v) => v,
            Err(e) => {
                return Err(e);
            },
        };
        let supplemental_semantic_ids = match supplemental_semantic_ids {
            Ok(v) => v,
            Err(e) => {
                return Err(e);
            },
        };
        let qualifiers = match qualifiers {
            Ok(v) => v,
            Err(e) => {
                return Err(e);
            },
        };
        let data_specifications = match data_specifications {
            Ok(v) => v,
            Err(e) => {
                return Err(e);
            },
        };
        let r = Blob { value, content_type, category, id_short, display_name, description,
            semantic_id, supplemental_semantic_ids, qualifiers, data_specifications };
        assert(r@ =~= BlobView::from_members(fields.deep_view())->Ok_0);
        Ok(r)
    }
}

impl BlobView {
    /// Whether the value and everything below it keeps what a document must
    /// keep: no language twice in one collection of texts, no short ID twice
    /// among the elements of one container, no empty and no repeated ID.
    pub open spec fn consistent(self) -> bool {
        &&& distinct(MultiLanguageNameTypeView::languages(self.display_name))
        &&& distinct(MultiLanguageTextTypeView::languages(self.description))
    }
}

impl Blob {
    /// Whether the value and everything below it keeps what a document must
    /// keep.
    pub fn is_consistent(&self) -> (b: bool)
        ensures
            b == self@.consistent(),
    {
        let display_name_languages = MultiLanguageNameType::languages_distinct(&self.display_name);
        let description_languages = MultiLanguageTextType::languages_distinct(&self.description);
        display_name_languages && description_languages
    }
}

} // verus!
