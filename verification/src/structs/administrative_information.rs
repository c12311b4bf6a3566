use vstd::prelude::*;
use crate::error::ModelError;
use crate::names::lemma_name_codes;
use crate::structs::reference::{Reference, ReferenceView};
use crate::traits::has_data_specification::THasDataSpecification;
use crate::wire::{
    add_member,
    decode_text,
    encode_optional_text,
    fail,
    fail_at,
    find,
    find_present,
    in_field,
    lemma_lookup_push,
    lookup,
    member,
    optional,
    optional_text_encode,
    outcome,
    present,
    tagged,
    text_decode,
    DecodeError,
    DecodeErrorView,
    DecodeFault,
    Field,
    FieldView,
    Wire,
    WireView,
};

verus! {

/// Administrative meta-information for an element like version information.
#[derive(Debug, PartialEq)]
pub struct AdministrativeInformation {
    /// The version of the element.
    version: Option<String>,
    /// The revision of the element.
    revision: Option<String>,
    /// The subject ID of the subject responsible for making the element.
    creator: Option<Reference>,
    /// The identifier of the template that guided the creation of the element.
    template_id: Option<String>,
    /// The external references to the data specification templates used by the element.
    data_specifications: Vec<Reference>,
}

/// The mathematical form of an [`AdministrativeInformation`].
#[verifier::ext_equal]
pub struct AdministrativeInformationView {
    pub version: Option<Seq<char>>,
    pub revision: Option<Seq<char>>,
    pub creator: Option<ReferenceView>,
    pub template_id: Option<Seq<char>>,
    pub data_specifications: Seq<ReferenceView>,
}

impl View for AdministrativeInformation {
    type V = AdministrativeInformationView;

    closed spec fn view(&self) -> AdministrativeInformationView {
        AdministrativeInformationView {
            version: self.version.deep_view(),
            revision: self.revision.deep_view(),
            creator: self.creator.deep_view(),
            template_id: self.template_id.deep_view(),
            data_specifications: self.data_specifications.deep_view(),
        }
    }
}

impl DeepView for AdministrativeInformation {
    type V = AdministrativeInformationView;

    open spec fn deep_view(&self) -> AdministrativeInformationView {
        self@
    }
}

impl Clone for AdministrativeInformation {
    fn clone(&self) -> (r: AdministrativeInformation)
        ensures
            r@ == self@,
    {
        AdministrativeInformation {
            version: self.version.clone(),
            revision: self.revision.clone(),
            creator: match &self.creator {
                Some(v) => Some(v.clone()),
                None => None,
            },
            template_id: self.template_id.clone(),
            data_specifications: Reference::clone_list(&self.data_specifications),
        }
    }
}

impl AdministrativeInformation {
    /// Creates an piece of administrative information with everything absent or empty.
    pub fn new() -> (r: AdministrativeInformation)
        ensures
            r@ == (AdministrativeInformationView {
                version: None,
                revision: None,
                creator: None,
                template_id: None,
                data_specifications: Seq::empty(),
            }),
    {
        AdministrativeInformation {
            version: None,
            revision: None,
            creator: None,
            template_id: None,
            data_specifications: Vec::new(),
        }
    }

    /// Sets the version of the element.
    pub fn set_version(&mut self, version: String)
        ensures
            final(self)@ ==
                (AdministrativeInformationView { version: Some(version@), ..old(self)@ }),
    {
        self.version = Some(version);
    }

    /// Returns the version of the element, if there is one.
    pub fn get_version(&self) -> (r: Option<&String>)
        ensures
            r.deep_view() == self@.version,
    {
        self.version.as_ref()
    }

    /// Returns the version of the element, open to change, if there is one.
    pub fn get_mut_version(&mut self) -> (r: Option<&mut String>)
        ensures
            match r {
                Some(m) => old(self)@.version == Some(m@)
                    && final(self)@ ==
                    (AdministrativeInformationView { version: Some(final(m)@), ..old(self)@ }),
                None => old(self)@.version is None && final(self)@ == old(self)@,
            },
    {
        self.version.as_mut()
    }

    /// Sets the revision of the element.
    pub fn set_revision(&mut self, revision: String)
        ensures
            final(self)@ ==
                (AdministrativeInformationView { revision: Some(revision@), ..old(self)@ }),
    {
        self.revision = Some(revision);
    }

    /// Returns the revision of the element, if there is one.
    pub fn get_revision(&self) -> (r: Option<&String>)
        ensures
            r.deep_view() == self@.revision,
    {
        self.revision.as_ref()
    }

    /// Returns the revision of the element, open to change, if there is one.
    pub fn get_mut_revision(&mut self) -> (r: Option<&mut String>)
        ensures
            match r {
                Some(m) => old(self)@.revision == Some(m@)
                    && final(self)@ ==
                    (AdministrativeInformationView { revision: Some(final(m)@), ..old(self)@ }),
                None => old(self)@.revision is None && final(self)@ == old(self)@,
            },
    {
        self.revision.as_mut()
    }

    /// Sets the subject ID of the subject responsible for making the element.
    pub fn set_creator(&mut self, creator: Reference)
        ensures
            final(self)@ ==
                (AdministrativeInformationView { creator: Some(creator@), ..old(self)@ }),
    {
        self.creator = Some(creator);
    }

    /// Returns the subject ID of the subject responsible for making the element, if there is one.
    pub fn get_creator(&self) -> (r: Option<&Reference>)
        ensures
            r.deep_view() == self@.creator,
    {
        self.creator.as_ref()
    }

    /// Returns the subject ID of the subject responsible for making the element, open to change, if
    /// there is one.
    pub fn get_mut_creator(&mut self) -> (r: Option<&mut Reference>)
        ensures
            match r {
                Some(m) => old(self)@.creator == Some(m@)
                    && final(self)@ ==
                    (AdministrativeInformationView { creator: Some(final(m)@), ..old(self)@ }),
                None => old(self)@.creator is None && final(self)@ == old(self)@,
            },
    {
        self.creator.as_mut()
    }

    /// Sets the identifier of the template that guided the creation of the element.
    pub fn set_template_id(&mut self, template_id: String)
        ensures
            final(self)@ ==
                (AdministrativeInformationView { template_id: Some(template_id@), ..old(self)@ }),
    {
        self.template_id = Some(template_id);
    }

    /// Returns the identifier of the template that guided the creation of the element, if there is
    /// one.
    pub fn get_template_id(&self) -> (r: Option<&String>)
        ensures
            r.deep_view() == self@.template_id,
    {
        self.template_id.as_ref()
    }

    /// Returns the identifier of the template that guided the creation of the element, open to
    /// change, if there is one.
    pub fn get_mut_template_id(&mut self) -> (r: Option<&mut String>)
        ensures
            match r {
                Some(m) => old(self)@.template_id == Some(m@)
                    && final(self)@ ==
                    (AdministrativeInformationView { template_id: Some(final(m)@),
                    ..old(self)@ }),
                None => old(self)@.template_id is None && final(self)@ == old(self)@,
            },
    {
        self.template_id.as_mut()
    }
}

impl THasDataSpecification for AdministrativeInformation {
    open spec fn data_specifications_view(&self) -> Seq<ReferenceView> {
        self@.data_specifications
    }

    fn set_data_specifications(&mut self, data_specifications: Vec<Reference>)
        ensures
            final(self)@ ==
                (AdministrativeInformationView {
                data_specifications: data_specifications.deep_view(), ..old(self)@ }),
    {
        self.data_specifications = data_specifications;
    }

    fn get_data_specifications(&self) -> (r: &Vec<Reference>) {
        &self.data_specifications
    }

    fn get_mut_data_specifications(&mut self) -> (r: &mut Vec<Reference>)
        ensures
            final(self)@ ==
                (AdministrativeInformationView { data_specifications: final(r).deep_view(),
                ..old(self)@ }),
    {
        &mut self.data_specifications
    }

    fn add_data_specification(&mut self, data_specification: Reference)
        ensures
            final(self)@ ==
                (AdministrativeInformationView {
                data_specifications: old(self)@.data_specifications.push(data_specification@),
                ..old(self)@ }),
    {
        self.data_specifications.push(data_specification);
    }

    fn remove_data_specification(&mut self, index: usize) -> (r: Result<Reference, ModelError>)
        ensures
            match r {
                Ok(item) =>
                    final(self)@ ==
                    (AdministrativeInformationView {
                    data_specifications: old(self)@.data_specifications.remove(
                    index as int), ..old(self)@ }),
                Err(e) => final(self)@ == old(self)@,
            },
    {
        if index < self.data_specifications.len() {
            Ok(self.data_specifications.remove(index))
        } else {
            Err(ModelError::IndexOutOfRange)
        }
    }
}

impl AdministrativeInformationView {
    /// The same value with the external references to the data specification templates used by the
    /// element replaced.
    pub open spec fn with_data_specifications(self, data_specifications: Seq<ReferenceView>)
        -> AdministrativeInformationView {
        AdministrativeInformationView {
            data_specifications,
            ..self
        }
    }

    /// Whether every reference in the value is well formed.
    pub open spec fn well_formed(self) -> bool {
        &&& (self.creator matches Some(v) ==> v.well_formed())
        &&& (forall|i: int| 0 <= i < self.data_specifications.len() ==>
            (#[trigger] self.data_specifications[i]).well_formed())
    }

    /// The members of a record that begins with `before` and goes on with
    /// the members of the value, in their order.
    #[verifier::opaque]
    pub open spec fn members_after(self, before: Seq<FieldView>) -> Seq<FieldView> {
        before
            .push(member("version"@, optional_text_encode(self.version)))
            .push(member("revision"@, optional_text_encode(self.revision)))
            .push(member("creator"@, ReferenceView::optional_to_wire(self.creator)))
            .push(member("templateId"@, optional_text_encode(self.template_id)))
            .push(member("embeddedDataSpecifications"@,
                ReferenceView::list_to_wire(self.data_specifications)))
    }

    /// The value on the wire: the record of its members.
    pub open spec fn to_wire(self) -> WireView {
        WireView::Record(self.members_after(Seq::empty()))
    }

    /// The value that the members of a record stand for. Members of other
    /// names are passed over; of two members of one name the first counts;
    /// the first member in the order above that cannot be decoded decides
    /// the failure.
    #[verifier::opaque]
    pub open spec fn from_members(fields: Seq<FieldView>) -> Result<AdministrativeInformationView,
        DecodeErrorView> {
        let version = match present(fields, "version"@) {
            None => Ok(None),
            Some(x) => optional(in_field("version"@, text_decode(x))),
        };
        let revision = match present(fields, "revision"@) {
            None => Ok(None),
            Some(x) => optional(in_field("revision"@, text_decode(x))),
        };
        let creator = match present(fields, "creator"@) {
            None => Ok(None),
            Some(x) => optional(in_field("creator"@, ReferenceView::from_wire(x))),
        };
        let template_id = match present(fields, "templateId"@) {
            None => Ok(None),
            Some(x) => optional(in_field("templateId"@, text_decode(x))),
        };
        let data_specifications = match lookup(fields, "embeddedDataSpecifications"@) {
            None => Err(fail_at(DecodeFault::MissingField, "embeddedDataSpecifications"@)),
            Some(x) => in_field("embeddedDataSpecifications"@, ReferenceView::list_from_wire(x)),
        };
        if version is Err {
            Err(version->Err_0)
        } else if revision is Err {
            Err(revision->Err_0)
        } else if creator is Err {
            Err(creator->Err_0)
        } else if template_id is Err {
            Err(template_id->Err_0)
        } else if data_specifications is Err {
            Err(data_specifications->Err_0)
        } else {
            Ok(AdministrativeInformationView {
                version: version->Ok_0,
                revision: revision->Ok_0,
                creator: creator->Ok_0,
                template_id: template_id->Ok_0,
                data_specifications: data_specifications->Ok_0,
            })
        }
    }

    /// The value that a wire value stands for.
    pub open spec fn from_wire(w: WireView) -> Result<AdministrativeInformationView,
        DecodeErrorView> {
        match w {
            WireView::Record(fields) => AdministrativeInformationView::from_members(fields),
            _ => Err(fail(DecodeFault::ExpectedRecord)),
        }
    }

    /// A value that may be absent on the wire: null stands for absence.
    pub open spec fn optional_to_wire(v: Option<AdministrativeInformationView>) -> WireView {
        match v {
            Some(v) => v.to_wire(),
            None => WireView::Null,
        }
    }

    /// The members of the value hide no type name that the record begins with.
    pub proof fn lemma_model_type_kept(self, tag: Option<Seq<char>>)
        ensures
            lookup(self.members_after(tagged(tag)), "modelType"@) == lookup(
                tagged(tag),
                "modelType"@,
            ),
    {
        broadcast use lemma_lookup_push;

        reveal(AdministrativeInformationView::members_after);
        lemma_name_codes();
    }

    /// The value is found again from the members of its record, whether the
    /// record begins with a type name or not.
    pub proof fn lemma_members_round_trip(self, tag: Option<Seq<char>>)
        requires
            self.well_formed(),
        ensures
            AdministrativeInformationView::from_members(self.members_after(tagged(tag))) ==
                Ok::<AdministrativeInformationView, DecodeErrorView>(
                self,
            ),
    {
        broadcast use lemma_lookup_push;

        reveal(AdministrativeInformationView::members_after);
        reveal(AdministrativeInformationView::from_members);
        lemma_name_codes();
        match self.creator {
            Some(v) => {
                v.lemma_round_trip();
            },
            None => {},
        }
        ReferenceView::lemma_list_round_trip(self.data_specifications);
    }

    /// Every value is found again from what it is on the wire.
    pub proof fn lemma_round_trip(self)
        requires
            self.well_formed(),
        ensures
            AdministrativeInformationView::from_wire(self.to_wire()) ==
                Ok::<AdministrativeInformationView, DecodeErrorView>(self),
    {
        self.lemma_members_round_trip(None);
    }
}

impl AdministrativeInformation {
    /// The value as it travels: the record of its members. What comes out
    /// decodes to the same value again.
    pub fn encode(&self) -> (w: Wire)
        ensures
            w@ == self@.to_wire(),
            self@.well_formed(),
            AdministrativeInformationView::from_wire(w@) ==
                Ok::<AdministrativeInformationView, DecodeErrorView>(self@),
    {
        let mut fields: Vec<Field> = Vec::new();
        assert(fields.deep_view() =~= Seq::<FieldView>::empty());
        self.encode_members(&mut fields);
        proof {
            self@.lemma_round_trip();
        }
        Wire::record(fields)
    }

    /// Appends the members of the value, as they travel, to `fields`.
    pub fn encode_members(&self, fields: &mut Vec<Field>)
        ensures
            final(fields).deep_view() == self@.members_after(old(fields).deep_view()),
            self@.well_formed(),
    {
        reveal(AdministrativeInformationView::members_after);
        add_member(fields, "version", encode_optional_text(&self.version));
        add_member(fields, "revision", encode_optional_text(&self.revision));
        add_member(fields, "creator", Reference::encode_optional(&self.creator));
        add_member(fields, "templateId", encode_optional_text(&self.template_id));
        add_member(fields, "embeddedDataSpecifications",
            Reference::encode_list(&self.data_specifications));
    }

    /// The value that `w` stands for.
    pub fn decode(w: &Wire) -> (r: Result<AdministrativeInformation, DecodeError>)
        ensures
            outcome(r) == AdministrativeInformationView::from_wire(w@),
    {
        match w.members() {
            Some(fields) => AdministrativeInformation::decode_members(fields),
            None => Err(DecodeError::new(DecodeFault::ExpectedRecord)),
        }
    }

    /// The value that the members `fields` of a record stand for.
    pub fn decode_members(fields: &Vec<Field>) -> (r: Result<AdministrativeInformation,
        DecodeError>)
        ensures
            outcome(r) == AdministrativeInformationView::from_members(fields.deep_view()),
    {
        reveal(AdministrativeInformationView::from_members);
        let version = match find_present(fields, "version") {
            None => Ok(None),
            Some(x) => match decode_text(x) {
                Ok(v) => Ok(Some(v)),
                Err(e) => Err(e.under_field("version")),
            },
        };
        let revision = match find_present(fields, "revision") {
            None => Ok(None),
            Some(x) => match decode_text(x) {
                Ok(v) => Ok(Some(v)),
                Err(e) => Err(e.under_field("revision")),
            },
        };
        let creator = match find_present(fields, "creator") {
            None => Ok(None),
            Some(x) => match Reference::decode(x) {
                Ok(v) => Ok(Some(v)),
                Err(e) => Err(e.under_field("creator")),
            },
        };
        let template_id = match find_present(fields, "templateId") {
            None => Ok(None),
            Some(x) => match decode_text(x) {
                Ok(v) => Ok(Some(v)),
                Err(e) => Err(e.under_field("templateId")),
            },
        };
        let data_specifications = match find(fields, "embeddedDataSpecifications") {
            None => Err(DecodeError::at(DecodeFault::MissingField, "embeddedDataSpecifications")),
            Some(x) => match Reference::decode_list(x) {
                Ok(v) => Ok(v),
                Err(e) => Err(e.under_field("embeddedDataSpecifications")),
            },
        };
        let version = match version {
            Ok(v) => v,
            Err(e) => {
                return Err(e);
            },
        };
        let revision = match revision {
            Ok(v) => v,
            Err(e) => {
                return Err(e);
            },
        };
        let creator = match creator {
            Ok(v) => v,
            Err(e) => {
                return Err(e);
            },
        };
        let template_id = match template_id {
            Ok(v) => v,
            Err(e) => {
                return Err(e);
            },
        };
        let data_specifications = match data_specifications {
            Ok(v) => v,
            Err(e) => {
                return Err(e);
            },
        };
        let r = AdministrativeInformation { version, revision, creator, template_id,
            data_specifications };
        assert(r@ =~= AdministrativeInformationView::from_members(fields.deep_view())->Ok_0);
        Ok(r)
    }

    /// The value as it travels, or null where there is none.
    pub fn encode_optional(v: &Option<AdministrativeInformation>) -> (w: Wire)
        ensures
            w@ == AdministrativeInformationView::optional_to_wire(v.deep_view()),
            v matches Some(x) ==> x@.well_formed(),
    {
        match v {
            Some(v) => v.encode(),
            None => Wire::Null,
        }
    }
}

} // verus!
