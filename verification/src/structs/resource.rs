use vstd::prelude::*;
use crate::names::lemma_name_codes;
use crate::wire::{
    add_member,
    decode_text,
    encode_optional_text,
    encode_text,
    fail,
    fail_at,
    find,
    find_present,
    in_field,
    lemma_lookup_push,
    lookup,
    member,
    optional,
    optional_text_encode,
    outcome,
    present,
    tagged,
    text_decode,
    text_encode,
    DecodeError,
    DecodeErrorView,
    DecodeFault,
    Field,
    FieldView,
    Wire,
    WireView,
};

verus! {

/// A resource represents an address to a file (a locator). The value is a URI that can
/// represent an absolute or relative path.
#[derive(Debug, PartialEq)]
pub struct Resource {
    /// The path and name of the resource (with file extension).
    path: String,
    /// The content type of the content of the file.
    content_type: Option<String>,
}

/// The mathematical form of a [`Resource`].
#[verifier::ext_equal]
pub struct ResourceView {
    pub path: Seq<char>,
    pub content_type: Option<Seq<char>>,
}

impl View for Resource {
    type V = ResourceView;

    closed spec fn view(&self) -> ResourceView {
        ResourceView {
            path: self.path@,
            content_type: self.content_type.deep_view(),
        }
    }
}

impl DeepView for Resource {
    type V = ResourceView;

    open spec fn deep_view(&self) -> ResourceView {
        self@
    }
}

impl Clone for Resource {
    fn clone(&self) -> (r: Resource)
        ensures
            r@ == self@,
    {
        Resource {
            path: self.path.clone(),
            content_type: self.content_type.clone(),
        }
    }
}

impl Resource {
    /// Creates a resource from what it must have; everything else is
    /// absent or empty.
    pub fn new(path: String) -> (r: Resource)
        ensures
            r@ == (ResourceView {
                path: path@,
                content_type: None,
            }),
    {
        Resource {
            path,
            content_type: None,
        }
    }

    /// Sets the path and name of the resource (with file extension).
    pub fn set_path(&mut self, path: String)
        ensures
            final(self)@ == (ResourceView { path: path@, ..old(self)@ }),
    {
        self.path = path;
    }

    /// Returns the path and name of the resource (with file extension).
    pub fn get_path(&self) -> (r: &String)
        ensures
            r@ == self@.path,
    {
        &self.path
    }

    /// Sets the content type of the content of the file.
    pub fn set_content_type(&mut self, content_type: String)
        ensures
            final(self)@ == (ResourceView { content_type: Some(content_type@), ..old(self)@ }),
    {
        self.content_type = Some(content_type);
    }

    /// Returns the content type of the content of the file, if there is one.
    pub fn get_content_type(&self) -> (r: Option<&String>)
        ensures
            r.deep_view() == self@.content_type,
    {
        self.content_type.as_ref()
    }
}

impl ResourceView {
    /// The members of a record that begins with `before` and goes on with
    /// the members of the value, in their order.
    #[verifier::opaque]
    pub open spec fn members_after(self, before: Seq<FieldView>) -> Seq<FieldView> {
        before
            .push(member("path"@, text_encode(self.path)))
            .push(member("contentType"@, optional_text_encode(self.content_type)))
    }

    /// The value on the wire: the record of its members.
    pub open spec fn to_wire(self) -> WireView {
        WireView::Record(self.members_after(Seq::empty()))
    }

    /// The value that the members of a record stand for. Members of other
    /// names are passed over; of two members of one name the first counts;
    /// the first member in the order above that cannot be decoded decides
    /// the failure.
    #[verifier::opaque]
    pub open spec fn from_members(fields: Seq<FieldView>) -> Result<ResourceView, DecodeErrorView> {
        let path = match lookup(fields, "path"@) {
            None => Err(fail_at(DecodeFault::MissingField, "path"@)),
            Some(x) => in_field("path"@, text_decode(x)),
        };
        let content_type = match present(fields, "contentType"@) {
            None => Ok(None),
            Some(x) => optional(in_field("contentType"@, text_decode(x))),
        };
        if path is Err {
            Err(path->Err_0)
        } else if content_type is Err {
            Err(content_type->Err_0)
        } else {
            Ok(ResourceView {
                path: path->Ok_0,
                content_type: content_type->Ok_0,
            })
        }
    }

    /// The value that a wire value stands for.
    pub open spec fn from_wire(w: WireView) -> Result<ResourceView, DecodeErrorView> {
        match w {
            WireView::Record(fields) => ResourceView::from_members(fields),
            _ => Err(fail(DecodeFault::ExpectedRecord)),
        }
    }

    /// A value that may be absent on the wire: null stands for absence.
    pub open spec fn optional_to_wire(v: Option<ResourceView>) -> WireView {
        match v {
            Some(v) => v.to_wire(),
            None => WireView::Null,
        }
    }

    /// The members of the value hide no type name that the record begins with.
    pub proof fn lemma_model_type_kept(self, tag: Option<Seq<char>>)
        ensures
            lookup(self.members_after(tagged(tag)), "modelType"@) == lookup(
                tagged(tag),
                "modelType"@,
            ),
    {
        broadcast use lemma_lookup_push;

        reveal(ResourceView::members_after);
        lemma_name_codes();
    }

    /// The value is found again from the members of its record, whether the
    /// record begins with a type name or not.
    pub proof fn lemma_members_round_trip(self, tag: Option<Seq<char>>)
        ensures
            ResourceView::from_members(self.members_after(tagged(tag))) ==
                Ok::<ResourceView, DecodeErrorView>(
                self,
            ),
    {
        broadcast use lemma_lookup_push;

        reveal(ResourceView::members_after);
        reveal(ResourceView::from_members);
        lemma_name_codes();

    }

    /// Every value is found again from what it is on the wire.
    pub proof fn lemma_round_trip(self)
        ensures
            ResourceView::from_wire(self.to_wire()) == Ok::<ResourceView, DecodeErrorView>(self),
    {
        self.lemma_members_round_trip(None);
    }
}

impl Resource {
    /// The value as it travels: the record of its members. What comes out
    /// decodes to the same value again.
    pub fn encode(&self) -> (w: Wire)
        ensures
            w@ == self@.to_wire(),
            ResourceView::from_wire(w@) == Ok::<ResourceView, DecodeErrorView>(self@),
    {
        let mut fields: Vec<Field> = Vec::new();
        assert(fields.deep_view() =~= Seq::<FieldView>::empty());
        self.encode_members(&mut fields);
        proof {
            self@.lemma_round_trip();
        }
        Wire::record(fields)
    }

    /// Appends the members of the value, as they travel, to `fields`.
    pub fn encode_members(&self, fields: &mut Vec<Field>)
        ensures
            final(fields).deep_view() == self@.members_after(old(fields).deep_view()),
    {
        reveal(ResourceView::members_after);
        add_member(fields, "path", encode_text(&self.path));
        add_member(fields, "contentType", encode_optional_text(&self.content_type));
    }

    /// The value that `w` stands for.
    pub fn decode(w: &Wire) -> (r: Result<Resource, DecodeError>)
        ensures
            outcome(r) == ResourceView::from_wire(w@),
    {
        match w.members() {
            Some(fields) => Resource::decode_members(fields),
            None => Err(DecodeError::new(DecodeFault::ExpectedRecord)),
        }
    }

    /// The value that the members `fields` of a record stand for.
    pub fn decode_members(fields: &Vec<Field>) -> (r: Result<Resource, DecodeError>)
        ensures
            outcome(r) == ResourceView::from_members(fields.deep_view()),
    {
        reveal(ResourceView::from_members);
        let path = match find(fields, "path") {
            None => Err(DecodeError::at(DecodeFault::MissingField, "path")),
            Some(x) => match decode_text(x) {
                Ok(v) => Ok(v),
                Err(e) => Err(e.under_field("path")),
            },
        };
        let content_type = match find_present(fields, "contentType") {
            None => Ok(None),
            Some(x) => match decode_text(x) {
                Ok(v) => Ok(Some(v)),
                Err(e) => Err(e.under_field("contentType")),
            },
        };
        let path = match path {
            Ok(v) => v,
            Err(e) => {
                return Err(e);
            },
        };
        let content_type = match content_type {
            Ok(v) => v,
            Err(e) => {
                return Err(e);
            },
        };
        let r = Resource { path, content_type };
        assert(r@ =~= ResourceView::from_members(fields.deep_view())->Ok_0);
        Ok(r)
    }

    /// The value as it travels, or null where there is none.
    pub fn encode_optional(v: &Option<Resource>) -> (w: Wire)
        ensures
            w@ == ResourceView::optional_to_wire(v.deep_view()),
    {
        match v {
            Some(v) => v.encode(),
            None => Wire::Null,
        }
    }
}

} // verus!
