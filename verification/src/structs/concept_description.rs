use vstd::prelude::*;
use crate::error::ModelError;
use crate::names::lemma_name_codes;
use crate::structs::administrative_information::{
    AdministrativeInformation,
    AdministrativeInformationView,
};
use crate::structs::extension::{Extension, ExtensionView};
use crate::structs::multi_language_name_type::{MultiLanguageNameType, MultiLanguageNameTypeView};
use crate::structs::multi_language_text_type::{MultiLanguageTextType, MultiLanguageTextTypeView};
use crate::structs::reference::{Reference, ReferenceView};
use crate::traits::has_data_specification::THasDataSpecification;
use crate::traits::has_extensions::THasExtensions;
use crate::traits::identifiable::{IdentityAspect, TIdentifiable};
use crate::traits::referable::{ReferableAspect, TReferable};
use crate::validation::distinct;
use crate::wire::{
    add_member,
    decode_text,
    encode_optional_text,
    encode_text,
    fail,
    fail_at,
    find,
    find_present,
    in_field,
    lemma_lookup_push,
    lookup,
    member,
    optional,
    optional_text_encode,
    outcome,
    present,
    tagged,
    text_decode,
    text_encode,
    DecodeError,
    DecodeErrorView,
    DecodeFault,
    Field,
    FieldView,
    PathStepView,
    Wire,
    WireView,
};

verus! {

/// The semantics of a property or other elements that may have a semantic description is
/// defined by a concept description.
#[derive(Debug, PartialEq)]
pub struct ConceptDescription {
    /// The references to external definitions the concept is compatible to or was derived from.
    is_case_of: Vec<Reference>,
    /// The external references to the data specification templates used by the element.
    data_specifications: Vec<Reference>,
    /// The category, a value that gives further meta information.
    category: Option<String>,
    /// The short ID of the element.
    id_short: Option<String>,
    /// The display name of the element, one entry for each language.
    display_name: Vec<MultiLanguageNameType>,
    /// The description of the element, one entry for each language.
    description: Vec<MultiLanguageTextType>,
    /// The extensions of the element.
    extensions: Vec<Extension>,
    /// The administrative information of the element.
    administrative_information: Option<AdministrativeInformation>,
    /// The globally unique identification of the element.
    id: String,
}

/// The mathematical form of a [`ConceptDescription`].
#[verifier::ext_equal]
pub struct ConceptDescriptionView {
    pub is_case_of: Seq<ReferenceView>,
    pub data_specifications: Seq<ReferenceView>,
    pub category: Option<Seq<char>>,
    pub id_short: Option<Seq<char>>,
    pub display_name: Seq<MultiLanguageNameTypeView>,
    pub description: Seq<MultiLanguageTextTypeView>,
    pub extensions: Seq<ExtensionView>,
    pub administrative_information: Option<AdministrativeInformationView>,
    pub id: Seq<char>,
}

impl View for ConceptDescription {
    type V = ConceptDescriptionView;

    closed spec fn view(&self) -> ConceptDescriptionView {
        ConceptDescriptionView {
            is_case_of: self.is_case_of.deep_view(),
            data_specifications: self.data_specifications.deep_view(),
            category: self.category.deep_view(),
            id_short: self.id_short.deep_view(),
            display_name: self.display_name.deep_view(),
            description: self.description.deep_view(),
            extensions: self.extensions.deep_view(),
            administrative_information: self.administrative_information.deep_view(),
            id: self.id@,
        }
    }
}

impl DeepView for ConceptDescription {
    type V = ConceptDescriptionView;

    open spec fn deep_view(&self) -> ConceptDescriptionView {
        self@
    }
}

impl Clone for ConceptDescription {
    fn clone(&self) -> (r: ConceptDescription)
        ensures
            r@ == self@,
    {
        ConceptDescription {
            is_case_of: Reference::clone_list(&self.is_case_of),
            data_specifications: Reference::clone_list(&self.data_specifications),
            category: self.category.clone(),
            id_short: self.id_short.clone(),
            display_name: MultiLanguageNameType::clone_list(&self.display_name),
            description: MultiLanguageTextType::clone_list(&self.description),
            extensions: Extension::clone_list(&self.extensions),
            administrative_information: match &self.administrative_information {
                Some(v) => Some(v.clone()),
                None => None,
            },
            id: self.id.clone(),
        }
    }
}

impl ConceptDescription {
    /// Creates a concept description from what it must have; everything else is
    /// absent or empty.
    pub fn new(id: String) -> (r: ConceptDescription)
        ensures
            r@ == (ConceptDescriptionView {
                is_case_of: Seq::empty(),
                data_specifications: Seq::empty(),
                category: None,
                id_short: None,
                display_name: Seq::empty(),
                description: Seq::empty(),
                extensions: Seq::empty(),
                administrative_information: None,
                id: id@,
            }),
    {
        ConceptDescription {
            is_case_of: Vec::new(),
            data_specifications: Vec::new(),
            category: None,
            id_short: None,
            display_name: Vec::new(),
            description: Vec::new(),
            extensions: Vec::new(),
            administrative_information: None,
            id,
        }
    }

    /// Sets the references to external definitions the concept is compatible to or was derived
    /// from.
    pub fn set_is_case_ofs(&mut self, is_case_of: Vec<Reference>)
        ensures
            final(self)@ ==
                (ConceptDescriptionView { is_case_of: is_case_of.deep_view(), ..old(self)@ }),
    {
        self.is_case_of = is_case_of;
    }

    /// Returns the references to external definitions the concept is compatible to or was derived
    /// from.
    pub fn get_is_case_ofs(&self) -> (r: &Vec<Reference>)
        ensures
            r.deep_view() == self@.is_case_of,
    {
        &self.is_case_of
    }

    /// Adds a reference to an external definition the concept is compatible to at the end.
    pub fn add_is_case_of(&mut self, is_case_of: Reference)
        ensures
            final(self)@ ==
                (ConceptDescriptionView { is_case_of: old(self)@.is_case_of.push(is_case_of@),
                ..old(self)@ }),
    {
        self.is_case_of.push(is_case_of);
    }

    /// Removes and returns the reference to an external definition the concept is compatible to at
    /// position `index`. Where there is none,
    /// nothing changes and the index is reported as out of range.
    pub fn remove_is_case_of(&mut self, index: usize) -> (r: Result<Reference, ModelError>)
        ensures
            match r {
                Ok(item) => index < old(self)@.is_case_of.len()
                    && item@ == old(self)@.is_case_of[index as int]
                    && final(self)@ ==
                        (ConceptDescriptionView { is_case_of: old(self)@.is_case_of.remove(
                        index as int), ..old(self)@ }),
                Err(e) => index >= old(self)@.is_case_of.len() && e == ModelError::IndexOutOfRange
                    && final(self)@ == old(self)@,
            },
    {
        if index < self.is_case_of.len() {
            Ok(self.is_case_of.remove(index))
        } else {
            Err(ModelError::IndexOutOfRange)
        }
    }
}

impl THasDataSpecification for ConceptDescription {
    open spec fn data_specifications_view(&self) -> Seq<ReferenceView> {
        self@.data_specifications
    }

    fn set_data_specifications(&mut self, data_specifications: Vec<Reference>)
        ensures
            final(self)@ ==
                (ConceptDescriptionView { data_specifications: data_specifications.deep_view(),
                ..old(self)@ }),
    {
        self.data_specifications = data_specifications;
    }

    fn get_data_specifications(&self) -> (r: &Vec<Reference>) {
        &self.data_specifications
    }

    fn get_mut_data_specifications(&mut self) -> (r: &mut Vec<Reference>)
        ensures
            final(self)@ ==
                (ConceptDescriptionView { data_specifications: final(r).deep_view(),
                ..old(self)@ }),
    {
        &mut self.data_specifications
    }

    fn add_data_specification(&mut self, data_specification: Reference)
        ensures
            final(self)@ ==
                (ConceptDescriptionView { data_specifications: old(self)@.data_specifications.push(
                data_specification@), ..old(self)@ }),
    {
        self.data_specifications.push(data_specification);
    }

    fn remove_data_specification(&mut self, index: usize) -> (r: Result<Reference, ModelError>)
        ensures
            match r {
                Ok(item) =>
                    final(self)@ ==
                    (ConceptDescriptionView {
                    data_specifications: old(self)@.data_specifications.remove(
                    index as int), ..old(self)@ }),
                Err(e) => final(self)@ == old(self)@,
            },
    {
        if index < self.data_specifications.len() {
            Ok(self.data_specifications.remove(index))
        } else {
            Err(ModelError::IndexOutOfRange)
        }
    }
}

impl TReferable for ConceptDescription {
    open spec fn referable(&self) -> ReferableAspect {
        ReferableAspect {
            category: self@.category,
            id_short: self@.id_short,
            display_name: self@.display_name,
            description: self@.description,
        }
    }

    fn set_category(&mut self, category: String)
        ensures
            final(self)@ == (ConceptDescriptionView { category: Some(category@), ..old(self)@ }),
    {
        self.category = Some(category);
    }

    fn get_category(&self) -> (r: Option<&String>) {
        self.category.as_ref()
    }

    fn get_mut_category(&mut self) -> (r: Option<&mut String>)
        ensures
            match r {
                Some(m) =>
                    final(self)@ ==
                    (ConceptDescriptionView { category: Some(final(m)@), ..old(self)@ }),
                None => final(self)@ == old(self)@,
            },
    {
        self.category.as_mut()
    }

    fn set_id_short(&mut self, id_short: String)
        ensures
            final(self)@ == (ConceptDescriptionView { id_short: Some(id_short@), ..old(self)@ }),
    {
        self.id_short = Some(id_short);
    }

    fn get_id_short(&self) -> (r: Option<&String>) {
        self.id_short.as_ref()
    }

    fn get_mut_id_short(&mut self) -> (r: Option<&mut String>)
        ensures
            match r {
                Some(m) =>
                    final(self)@ ==
                    (ConceptDescriptionView { id_short: Some(final(m)@), ..old(self)@ }),
                None => final(self)@ == old(self)@,
            },
    {
        self.id_short.as_mut()
    }

    fn set_display_name(&mut self, display_name: Vec<MultiLanguageNameType>)
        ensures
            final(self)@ ==
                (ConceptDescriptionView { display_name: display_name.deep_view(), ..old(self)@ }),
    {
        self.display_name = display_name;
    }

    fn get_display_name(&self) -> (r: &Vec<MultiLanguageNameType>) {
        &self.display_name
    }

    fn get_mut_display_name(&mut self) -> (r: &mut Vec<MultiLanguageNameType>)
        ensures
            final(self)@ ==
                (ConceptDescriptionView { display_name: final(r).deep_view(), ..old(self)@ }),
    {
        &mut self.display_name
    }

    fn add_display_name(&mut self, display_name: MultiLanguageNameType)
        ensures
            final(self)@ ==
                (ConceptDescriptionView { display_name: old(self)@.display_name.push(display_name@),
                ..old(self)@ }),
    {
        self.display_name.push(display_name);
    }

    fn remove_display_name(&mut self, index: usize) -> (r: Result<MultiLanguageNameType,
        ModelError>)
        ensures
            match r {
                Ok(item) =>
                    final(self)@ ==
                    (ConceptDescriptionView { display_name: old(self)@.display_name.remove(
                    index as int), ..old(self)@ }),
                Err(e) => final(self)@ == old(self)@,
            },
    {
        if index < self.display_name.len() {
            Ok(self.display_name.remove(index))
        } else {
            Err(ModelError::IndexOutOfRange)
        }
    }

    fn set_description(&mut self, description: Vec<MultiLanguageTextType>)
        ensures
            final(self)@ ==
                (ConceptDescriptionView { description: description.deep_view(), ..old(self)@ }),
    {
        self.description = description;
    }

    fn get_description(&self) -> (r: &Vec<MultiLanguageTextType>) {
        &self.description
    }

    fn get_mut_description(&mut self) -> (r: &mut Vec<MultiLanguageTextType>)
        ensures
            final(self)@ ==
                (ConceptDescriptionView { description: final(r).deep_view(), ..old(self)@ }),
    {
        &mut self.description
    }

    fn add_description(&mut self, description: MultiLanguageTextType)
        ensures
            final(self)@ ==
                (ConceptDescriptionView { description: old(self)@.description.push(description@),
                ..old(self)@ }),
    {
        self.description.push(description);
    }

    fn remove_description(&mut self, index: usize) -> (r: Result<MultiLanguageTextType, ModelError>)
        ensures
            match r {
                Ok(item) =>
                    final(self)@ ==
                    (ConceptDescriptionView { description: old(self)@.description.remove(
                    index as int), ..old(self)@ }),
                Err(e) => final(self)@ == old(self)@,
            },
    {
        if index < self.description.len() {
            Ok(self.description.remove(index))
        } else {
            Err(ModelError::IndexOutOfRange)
        }
    }
}

impl THasExtensions for ConceptDescription {
    open spec fn extensions_view(&self) -> Seq<ExtensionView> {
        self@.extensions
    }

    fn set_extensions(&mut self, extensions: Vec<Extension>)
        ensures
            final(self)@ ==
                (ConceptDescriptionView { extensions: extensions.deep_view(), ..old(self)@ }),
    {
        self.extensions = extensions;
    }

    fn get_extensions(&self) -> (r: &Vec<Extension>) {
        &self.extensions
    }

    fn get_mut_extensions(&mut self) -> (r: &mut Vec<Extension>)
        ensures
            final(self)@ ==
                (ConceptDescriptionView { extensions: final(r).deep_view(), ..old(self)@ }),
    {
        &mut self.extensions
    }

    fn add_extension(&mut self, extension: Extension)
        ensures
            final(self)@ ==
                (ConceptDescriptionView { extensions: old(self)@.extensions.push(extension@),
                ..old(self)@ }),
    {
        self.extensions.push(extension);
    }

    fn remove_extension(&mut self, index: usize) -> (r: Result<Extension, ModelError>)
        ensures
            match r {
                Ok(item) =>
                    final(self)@ ==
                    (ConceptDescriptionView { extensions: old(self)@.extensions.remove(
                    index as int), ..old(self)@ }),
                Err(e) => final(self)@ == old(self)@,
            },
    {
        if index < self.extensions.len() {
            Ok(self.extensions.remove(index))
        } else {
            Err(ModelError::IndexOutOfRange)
        }
    }
}

impl TIdentifiable for ConceptDescription {
    open spec fn identity(&self) -> IdentityAspect {
        IdentityAspect {
            administrative_information: self@.administrative_information,
            id: self@.id,
        }
    }

    fn set_administration(&mut self, administrative_information: AdministrativeInformation)
        ensures
            final(self)@ ==
                (ConceptDescriptionView {
                administrative_information: Some(administrative_information@), ..old(self)@ }),
    {
        self.administrative_information = Some(administrative_information);
    }

    fn get_administration(&self) -> (r: Option<&AdministrativeInformation>) {
        self.administrative_information.as_ref()
    }

    fn get_mut_administration(&mut self) -> (r: Option<&mut AdministrativeInformation>)
        ensures
            match r {
                Some(m) =>
                    final(self)@ ==
                    (ConceptDescriptionView { administrative_information: Some(final(m)@),
                    ..old(self)@ }),
                None => final(self)@ == old(self)@,
            },
    {
        self.administrative_information.as_mut()
    }

    fn set_id(&mut self, id: String)
        ensures
            final(self)@ == (ConceptDescriptionView { id: id@, ..old(self)@ }),
    {
        self.id = id;
    }

    fn get_id(&self) -> (r: &String) {
        &self.id
    }

    fn get_mut_id(&mut self) -> (r: &mut String)
        ensures
            final(self)@ == (ConceptDescriptionView { id: final(r)@, ..old(self)@ }),
    {
        &mut self.id
    }
}

impl ConceptDescriptionView {
    /// The same value with the external references to the data specification templates used by the
    /// element replaced.
    pub open spec fn with_data_specifications(self, data_specifications: Seq<ReferenceView>)
        -> ConceptDescriptionView {
        ConceptDescriptionView {
            data_specifications,
            ..self
        }
    }

    /// The same value with what it carries of the aspect replaced.
    pub open spec fn with_referable(self, aspect: ReferableAspect) -> ConceptDescriptionView {
        ConceptDescriptionView {
            category: aspect.category,
            id_short: aspect.id_short,
            display_name: aspect.display_name,
            description: aspect.description,
            ..self
        }
    }

    /// The same value with the extensions of the element replaced.
    pub open spec fn with_extensions(self, extensions: Seq<ExtensionView>)
        -> ConceptDescriptionView {
        ConceptDescriptionView {
            extensions,
            ..self
        }
    }

    /// The same value with what it carries of the aspect replaced.
    pub open spec fn with_identity(self, aspect: IdentityAspect) -> ConceptDescriptionView {
        ConceptDescriptionView {
            administrative_information: aspect.administrative_information,
            id: aspect.id,
            ..self
        }
    }

    /// Whether every reference in the value is well formed.
    pub open spec fn well_formed(self) -> bool {
        &&& (forall|i: int| 0 <= i < self.is_case_of.len() ==>
            (#[trigger] self.is_case_of[i]).well_formed())
        &&& (forall|i: int| 0 <= i < self.data_specifications.len() ==>
            (#[trigger] self.data_specifications[i]).well_formed())
        &&& (forall|i: int| 0 <= i < self.extensions.len() ==>
            (#[trigger] self.extensions[i]).well_formed())
        &&& (self.administrative_information matches Some(v) ==> v.well_formed())
    }

    /// The members of a record that begins with `before` and goes on with
    /// the members of the value, in their order.
    #[verifier::opaque]
    pub open spec fn members_after(self, before: Seq<FieldView>) -> Seq<FieldView> {
        before
            .push(member("isCaseOf"@, ReferenceView::list_to_wire(self.is_case_of)))
            .push(member("embeddedDataSpecifications"@,
                ReferenceView::list_to_wire(self.data_specifications)))
            .push(member("category"@, optional_text_encode(self.category)))
            .push(member("idShort"@, optional_text_encode(self.id_short)))
            .push(member("displayName"@,
                MultiLanguageNameTypeView::list_to_wire(self.display_name)))
            .push(member("description"@, MultiLanguageTextTypeView::list_to_wire(self.description)))
            .push(member("extensions"@, ExtensionView::list_to_wire(self.extensions)))
            .push(member("administration"@,
                AdministrativeInformationView::optional_to_wire(self.administrative_information)))
            .push(member("id"@, text_encode(self.id)))
    }

    /// The value on the wire: the record of its members.
    pub open spec fn to_wire(self) -> WireView {
        WireView::Record(self.members_after(Seq::empty()))
    }

    /// The value that the members of a record stand for. Members of other
    /// names are passed over; of two members of one name the first counts;
    /// the first member in the order above that cannot be decoded decides
    /// the failure.
    #[verifier::opaque]
    pub open spec fn from_members(fields: Seq<FieldView>) -> Result<ConceptDescriptionView,
        DecodeErrorView> {
        let is_case_of = match lookup(fields, "isCaseOf"@) {
            None => Err(fail_at(DecodeFault::MissingField, "isCaseOf"@)),
            Some(x) => in_field("isCaseOf"@, ReferenceView::list_from_wire(x)),
        };
        let data_specifications = match lookup(fields, "embeddedDataSpecifications"@) {
            None => Err(fail_at(DecodeFault::MissingField, "embeddedDataSpecifications"@)),
            Some(x) => in_field("embeddedDataSpecifications"@, ReferenceView::list_from_wire(x)),
        };
        let category = match present(fields, "category"@) {
            None => Ok(None),
            Some(x) => optional(in_field("category"@, text_decode(x))),
        };
        let id_short = match present(fields, "idShort"@) {
            None => Ok(None),
            Some(x) => optional(in_field("idShort"@, text_decode(x))),
        };
        let display_name = match lookup(fields, "displayName"@) {
            None => Err(fail_at(DecodeFault::MissingField, "displayName"@)),
            Some(x) => in_field("displayName"@, MultiLanguageNameTypeView::list_from_wire(x)),
        };
        let description = match lookup(fields, "description"@) {
            None => Err(fail_at(DecodeFault::MissingField, "description"@)),
            Some(x) => in_field("description"@, MultiLanguageTextTypeView::list_from_wire(x)),
        };
        let extensions = match lookup(fields, "extensions"@) {
            None => Err(fail_at(DecodeFault::MissingField, "extensions"@)),
            Some(x) => in_field("extensions"@, ExtensionView::list_from_wire(x)),
        };
        let administrative_information = match present(fields, "administration"@) {
            None => Ok(None),
            Some(x) =>
                optional(in_field("administration"@, AdministrativeInformationView::from_wire(x))),
        };
        let id = match lookup(fields, "id"@) {
            None => Err(fail_at(DecodeFault::MissingField, "id"@)),
            Some(x) => in_field("id"@, text_decode(x)),
        };
        if is_case_of is Err {
            Err(is_case_of->Err_0)
        } else if data_specifications is Err {
            Err(data_specifications->Err_0)
        } else if category is Err {
            Err(category->Err_0)
        } else if id_short is Err {
            Err(id_short->Err_0)
        } else if display_name is Err {
            Err(display_name->Err_0)
        } else if description is Err {
            Err(description->Err_0)
        } else if extensions is Err {
            Err(extensions->Err_0)
        } else if administrative_information is Err {
            Err(administrative_information->Err_0)
        } else if id is Err {
            Err(id->Err_0)
        } else {
            Ok(ConceptDescriptionView {
                is_case_of: is_case_of->Ok_0,
                data_specifications: data_specifications->Ok_0,
                category: category->Ok_0,
                id_short: id_short->Ok_0,
                display_name: display_name->Ok_0,
                description: description->Ok_0,
                extensions: extensions->Ok_0,
                administrative_information: administrative_information->Ok_0,
                id: id->Ok_0,
            })
        }
    }

    /// The value that a wire value stands for.
    pub open spec fn from_wire(w: WireView) -> Result<ConceptDescriptionView, DecodeErrorView> {
        match w {
            WireView::Record(fields) => ConceptDescriptionView::from_members(fields),
            _ => Err(fail(DecodeFault::ExpectedRecord)),
        }
    }

    /// A list of values on the wire: the values in their order.
    pub open spec fn list_to_wire(items: Seq<ConceptDescriptionView>) -> WireView {
        WireView::List(
            Seq::new(
                items.len(),
                |i: int|
                    if 0 <= i < items.len() {
                        items[i].to_wire()
                    } else {
                        WireView::Null
                    },
            ),
        )
    }

    /// The values that the items from position `start` on stand for. The first
    /// item that stands for none decides the failure.
    pub open spec fn list_from_items(items: Seq<WireView>, start: nat) -> Result<
        Seq<ConceptDescriptionView>,
        DecodeErrorView,
    >
        decreases items.len() - start,
    {
        if start >= items.len() {
            Ok(Seq::empty())
        } else {
            match ConceptDescriptionView::from_wire(items[start as int]) {
                Err(e) => Err(e.under(PathStepView::Index(start as int))),
                Ok(v) => match ConceptDescriptionView::list_from_items(items, start + 1) {
                    Ok(rest) => Ok(seq![v] + rest),
                    Err(e) => Err(e),
                },
            }
        }
    }

    /// The values that a list on the wire stands for.
    pub open spec fn list_from_wire(w: WireView) -> Result<Seq<ConceptDescriptionView>,
        DecodeErrorView> {
        match w {
            WireView::List(items) => ConceptDescriptionView::list_from_items(items, 0),
            _ => Err(fail(DecodeFault::ExpectedList)),
        }
    }

    /// The members of the value hide no type name that the record begins with.
    pub proof fn lemma_model_type_kept(self, tag: Option<Seq<char>>)
        ensures
            lookup(self.members_after(tagged(tag)), "modelType"@) == lookup(
                tagged(tag),
                "modelType"@,
            ),
    {
        broadcast use lemma_lookup_push;

        reveal(ConceptDescriptionView::members_after);
        lemma_name_codes();
    }

    /// The value is found again from the members of its record, whether the
    /// record begins with a type name or not.
    pub proof fn lemma_members_round_trip(self, tag: Option<Seq<char>>)
        requires
            self.well_formed(),
        ensures
            ConceptDescriptionView::from_members(self.members_after(tagged(tag))) ==
                Ok::<ConceptDescriptionView, DecodeErrorView>(
                self,
            ),
    {
        broadcast use lemma_lookup_push;

        reveal(ConceptDescriptionView::members_after);
        reveal(ConceptDescriptionView::from_members);
        lemma_name_codes();
        ReferenceView::lemma_list_round_trip(self.is_case_of);
        ReferenceView::lemma_list_round_trip(self.data_specifications);
        MultiLanguageNameTypeView::lemma_list_round_trip(self.display_name);
        MultiLanguageTextTypeView::lemma_list_round_trip(self.description);
        ExtensionView::lemma_list_round_trip(self.extensions);
        match self.administrative_information {
            Some(v) => {
                v.lemma_round_trip();
            },
            None => {},
        }
    }

    /// Every value is found again from what it is on the wire.
    pub proof fn lemma_round_trip(self)
        requires
            self.well_formed(),
        ensures
            ConceptDescriptionView::from_wire(self.to_wire()) ==
                Ok::<ConceptDescriptionView, DecodeErrorView>(self),
    {
        self.lemma_members_round_trip(None);
    }

    /// The values from position `start` on are found again from the items that
    /// stand for them.
    pub proof fn lemma_list_items_round_trip(items: Seq<ConceptDescriptionView>, start: nat)
        requires
            forall|i: int| 0 <= i < items.len() ==> (#[trigger] items[i]).well_formed(),
            start <= items.len(),
        ensures
            ConceptDescriptionView::list_from_items(ConceptDescriptionView::list_to_wire(
                items)->List_0, start) == Ok::<
                Seq<ConceptDescriptionView>,
                DecodeErrorView,
            >(items.skip(start as int)),
        decreases items.len() - start,
    {
        if start >= items.len() {
            assert(items.skip(start as int) =~= Seq::empty());
        } else {
            items[start as int].lemma_round_trip();
            ConceptDescriptionView::lemma_list_items_round_trip(items, start + 1);
            assert(seq![items[start as int]] + items.skip(start as int + 1) =~= items.skip(
                start as int));
        }
    }

    /// Every list of values is found again from what it is on the wire.
    pub proof fn lemma_list_round_trip(items: Seq<ConceptDescriptionView>)
        requires
            forall|i: int| 0 <= i < items.len() ==> (#[trigger] items[i]).well_formed(),
        ensures
            ConceptDescriptionView::list_from_wire(ConceptDescriptionView::list_to_wire(items)) ==
                Ok::<
                Seq<ConceptDescriptionView>,
                DecodeErrorView,
            >(items),
    {
        ConceptDescriptionView::lemma_list_items_round_trip(items, 0);
        assert(items.skip(0) =~= items);
    }
}

impl ConceptDescription {
    /// The value as it travels: the record of its members. What comes out
    /// decodes to the same value again.
    pub fn encode(&self) -> (w: Wire)
        ensures
            w@ == self@.to_wire(),
            self@.well_formed(),
            ConceptDescriptionView::from_wire(w@) ==
                Ok::<ConceptDescriptionView, DecodeErrorView>(self@),
    {
        let mut fields: Vec<Field> = Vec::new();
        assert(fields.deep_view() =~= Seq::<FieldView>::empty());
        self.encode_members(&mut fields);
        proof {
            self@.lemma_round_trip();
        }
        Wire::record(fields)
    }

    /// Appends the members of the value, as they travel, to `fields`.
    pub fn encode_members(&self, fields: &mut Vec<Field>)
        ensures
            final(fields).deep_view() == self@.members_after(old(fields).deep_view()),
            self@.well_formed(),
    {
        reveal(ConceptDescriptionView::members_after);
        add_member(fields, "isCaseOf", Reference::encode_list(&self.is_case_of));
        add_member(fields, "embeddedDataSpecifications",
            Reference::encode_list(&self.data_specifications));
        add_member(fields, "category", encode_optional_text(&self.category));
        add_member(fields, "idShort", encode_optional_text(&self.id_short));
        add_member(fields, "displayName", MultiLanguageNameType::encode_list(&self.display_name));
        add_member(fields, "description", MultiLanguageTextType::encode_list(&self.description));
        add_member(fields, "extensions", Extension::encode_list(&self.extensions));
        add_member(fields, "administration",
            AdministrativeInformation::encode_optional(&self.administrative_information));
        add_member(fields, "id", encode_text(&self.id));
    }

    /// The value that `w` stands for.
    pub fn decode(w: &Wire) -> (r: Result<ConceptDescription, DecodeError>)
        ensures
            outcome(r) == ConceptDescriptionView::from_wire(w@),
    {
        match w.members() {
            Some(fields) => ConceptDescription::decode_members(fields),
            None => Err(DecodeError::new(DecodeFault::ExpectedRecord)),
        }
    }

    /// The value that the members `fields` of a record stand for.
    pub fn decode_members(fields: &Vec<Field>) -> (r: Result<ConceptDescription, DecodeError>)
        ensures
            outcome(r) == ConceptDescriptionView::from_members(fields.deep_view()),
    {
        reveal(ConceptDescriptionView::from_members);
        let is_case_of = match find(fields, "isCaseOf") {
            None => Err(DecodeError::at(DecodeFault::MissingField, "isCaseOf")),
            Some(x) => match Reference::decode_list(x) {
                Ok(v) => Ok(v),
                Err(e) => Err(e.under_field("isCaseOf")),
            },
        };
        let data_specifications = match find(fields, "embeddedDataSpecifications") {
            None => Err(DecodeError::at(DecodeFault::MissingField, "embeddedDataSpecifications")),
            Some(x) => match Reference::decode_list(x) {
                Ok(v) => Ok(v),
                Err(e) => Err(e.under_field("embeddedDataSpecifications")),
            },
        };
        let category = match find_present(fields, "category") {
            None => Ok(None),
            Some(x) => match decode_text(x) {
                Ok(v) => Ok(Some(v)),
                Err(e) => Err(e.under_field("category")),
            },
        };
        let id_short = match find_present(fields, "idShort") {
            None => Ok(None),
            Some(x) => match decode_text(x) {
                Ok(v) => Ok(Some(v)),
                Err(e) => Err(e.under_field("idShort")),
            },
        };
        let display_name = match find(fields, "displayName") {
            None => Err(DecodeError::at(DecodeFault::MissingField, "displayName")),
            Some(x) => match MultiLanguageNameType::decode_list(x) {
                Ok(v) => Ok(v),
                Err(e) => Err(e.under_field("displayName")),
            },
        };
        let description = match find(fields, "description") {
            None => Err(DecodeError::at(DecodeFault::MissingField, "description")),
            Some(x) => match MultiLanguageTextType::decode_list(x) {
                Ok(v) => Ok(v),
                Err(e) => Err(e.under_field("description")),
            },
        };
        let extensions = match find(fields, "extensions") {
            None => Err(DecodeError::at(DecodeFault::MissingField, "extensions")),
            Some(x) => match Extension::decode_list(x) {
                Ok(v) => Ok(v),
                Err(e) => Err(e.under_field("extensions")),
            },
        };
        let administrative_information = match find_present(fields, "administration") {
            None => Ok(None),
            Some(x) => match AdministrativeInformation::decode(x) {
                Ok(v) => Ok(Some(v)),
                Err(e) => Err(e.under_field("administration")),
            },
        };
        let id = match find(fields, "id") {
            None => Err(DecodeError::at(DecodeFault::MissingField, "id")),
            Some(x) => match decode_text(x) {
                Ok(v) => Ok(v),
                Err(e) => Err(e.under_field("id")),
            },
        };
        let is_case_of = match is_case_of {
            Ok(v) => v,
            Err(e) => {
                return Err(e);
            },
        };
        let data_specifications = match data_specifications {
            Ok(v) => v,
            Err(e) => {
                return Err(e);
            },
        };
        let category = match category {
            Ok(v) => v,
            Err(e) => {
                return Err(e);
            },
        };
        let id_short = match id_short {
            Ok(v) => v,
            Err(e) => {
                return Err(e);
            },
        };
        let display_name = match display_name {
            Ok(v) => v,
            Err(e) => {
                return Err(e);
            },
        };
        let description = match description {
            Ok(v) => v,
            Err(e) => {
                return Err(e);
            },
        };
        let extensions = match extensions {
            Ok(v) => v,
            Err(e) => {
                return Err(e);
            },
        };
        let administrative_information = match administrative_information {
            Ok(v) => v,
            Err(e) => {
                return Err(e);
            },
        };
        let id = match id {
            Ok(v) => v,
            Err(e) => {
                return Err(e);
            },
        };
        let r = ConceptDescription { is_case_of, data_specifications, category, id_short,
            display_name, description, extensions, administrative_information, id };
        assert(r@ =~= ConceptDescriptionView::from_members(fields.deep_view())->Ok_0);
        Ok(r)
    }

    /// The values as they travel: a list, in their order.
    pub fn encode_list(items: &Vec<ConceptDescription>) -> (w: Wire)
        ensures
            w@ == ConceptDescriptionView::list_to_wire(items.deep_view()),
            forall|i: int| 0 <= i < items.len() ==> (#[trigger] items.deep_view()[i]).well_formed(),
    {
        let mut out: Vec<Wire> = Vec::new();
        let mut i: usize = 0;
        while i < items.len()
            invariant
                i <= items.len(),
                out.len() == i,
                forall|j: int| 0 <= j < i ==>
                    (#[trigger] out[j])@ == items.deep_view()[j].to_wire(),
                forall|j: int| 0 <= j < i ==> (#[trigger] items.deep_view()[j]).well_formed(),
            decreases items.len() - i,
        {
            out.push(items[i].encode());
            i += 1;
        }
        let w = Wire::list(out);
        assert(w@->List_0 =~= ConceptDescriptionView::list_to_wire(items.deep_view())->List_0);
        w
    }

    /// The values that the list `w` stands for. The first item that stands
    /// for none decides the failure.
    pub fn decode_list(w: &Wire) -> (r: Result<Vec<ConceptDescription>, DecodeError>)
        ensures
            outcome(r) == ConceptDescriptionView::list_from_wire(w@),
    {
        let items = match w.items() {
            Some(items) => items,
            None => {
                return Err(DecodeError::new(DecodeFault::ExpectedList));
            },
        };
        let mut out: Vec<ConceptDescription> = Vec::new();
        let mut i: usize = 0;
        assert(Seq::<ConceptDescriptionView>::empty() + ConceptDescriptionView::list_from_items(
            items.deep_view(), 0)->Ok_0
            =~= ConceptDescriptionView::list_from_items(items.deep_view(), 0)->Ok_0);
        while i < items.len()
            invariant
                i <= items.len(),
                w@ == WireView::List(items.deep_view()),
                ConceptDescriptionView::list_from_items(items.deep_view(), 0) ==
                    (match ConceptDescriptionView::list_from_items(
                    items.deep_view(),
                    i as nat,
                ) {
                    Ok(rest) => Ok(out.deep_view() + rest),
                    Err(e) => Err(e),
                }),
            decreases items.len() - i,
        {
            let ghost before = out.deep_view();
            match ConceptDescription::decode(&items[i]) {
                Ok(v) => {
                    out.push(v);
                    proof {
                        let rest = ConceptDescriptionView::list_from_items(items.deep_view(),
                            (i + 1) as nat);
                        if rest is Ok {
                            assert(out.deep_view() + rest->Ok_0 =~= before + (seq![
                                v@] + rest->Ok_0));
                        }
                    }
                },
                Err(e) => {
                    return Err(e.under_index(i));
                },
            }
            i += 1;
        }
        assert(out.deep_view() + Seq::<ConceptDescriptionView>::empty() =~= out.deep_view());
        Ok(out)
    }

    /// A copy of each of the values, in their order.
    pub fn clone_list(items: &Vec<ConceptDescription>) -> (r: Vec<ConceptDescription>)
        ensures
            r.deep_view() == items.deep_view(),
    {
        let mut out: Vec<ConceptDescription> = Vec::new();
        let mut i: usize = 0;
        while i < items.len()
            invariant
                i <= items.len(),
                out.len() == i,
                forall|j: int| 0 <= j < i ==> (#[trigger] out[j])@ == items[j]@,
            decreases items.len() - i,
        {
            out.push(items[i].clone());
            i += 1;
        }
        assert(out.deep_view() =~= items.deep_view());
        out
    }
}

impl ConceptDescriptionView {
    /// Whether the value and everything below it keeps what a document must
    /// keep: no language twice in one collection of texts, no short ID twice
    /// among the elements of one container, no empty and no repeated ID.
    pub open spec fn consistent(self) -> bool {
        &&& distinct(MultiLanguageNameTypeView::languages(self.display_name))
        &&& distinct(MultiLanguageTextTypeView::languages(self.description))
        &&& self.id.len() > 0
    }
}

impl ConceptDescription {
    /// Whether the value and everything below it keeps what a document must
    /// keep.
    pub fn is_consistent(&self) -> (b: bool)
        ensures
            b == self@.consistent(),
    {
        let display_name_languages = MultiLanguageNameType::languages_distinct(&self.display_name);
        let description_languages = MultiLanguageTextType::languages_distinct(&self.description);
        let id_given = !self.id.as_str().is_empty();
        display_name_languages && description_languages && id_given
    }

    /// Whether each of the values keeps what a document must keep.
    pub fn all_consistent(items: &Vec<ConceptDescription>) -> (b: bool)
        ensures
            b == (forall|i: int|
                0 <= i < items.len() ==> (#[trigger] items.deep_view()[i]).consistent()),
    {
        let mut i: usize = 0;
        while i < items.len()
            invariant
                i <= items.len(),
                forall|j: int| 0 <= j < i ==> (#[trigger] items.deep_view()[j]).consistent(),
            decreases items.len() - i,
        {
            if !items[i].is_consistent() {
                assert(!items.deep_view()[i as int].consistent());
                return false;
            }
            i += 1;
        }
        true
    }
}

} // verus!
