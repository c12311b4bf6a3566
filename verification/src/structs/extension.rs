use vstd::prelude::*;
use crate::enumerations::data_type_def_xsd::DataTypeDefXsd;
use crate::error::ModelError;
use crate::names::lemma_name_codes;
use crate::structs::reference::{Reference, ReferenceView};
use crate::traits::has_semantics::{SemanticsAspect, THasSemantics};
use crate::wire::{
    add_member,
    decode_text,
    encode_optional_text,
    encode_text,
    fail,
    fail_at,
    find,
    find_present,
    in_field,
    lemma_lookup_push,
    lookup,
    member,
    optional,
    optional_text_encode,
    outcome,
    present,
    tagged,
    text_decode,
    text_encode,
    DecodeError,
    DecodeErrorView,
    DecodeFault,
    Field,
    FieldView,
    PathStepView,
    Wire,
    WireView,
};

verus! {

/// A single extension of an element.
#[derive(Debug, PartialEq)]
pub struct Extension {
    /// The name of the extension.
    name: String,
    /// The data type of the value of the extension.
    value_type: Option<DataTypeDefXsd>,
    /// The value of the extension.
    value: Option<String>,
    /// The references to the elements the extension refers to.
    refers_to: Vec<Reference>,
    /// The identifier of the semantic definition of the element, its main semantic ID.
    semantic_id: Option<Reference>,
    /// The identifiers of supplemental semantic definitions of the element.
    supplemental_semantic_ids: Vec<Reference>,
}

/// The mathematical form of an [`Extension`].
#[verifier::ext_equal]
pub struct ExtensionView {
    pub name: Seq<char>,
    pub value_type: Option<DataTypeDefXsd>,
    pub value: Option<Seq<char>>,
    pub refers_to: Seq<ReferenceView>,
    pub semantic_id: Option<ReferenceView>,
    pub supplemental_semantic_ids: Seq<ReferenceView>,
}

impl View for Extension {
    type V = ExtensionView;

    closed spec fn view(&self) -> ExtensionView {
        ExtensionView {
            name: self.name@,
            value_type: self.value_type,
            value: self.value.deep_view(),
            refers_to: self.refers_to.deep_view(),
            semantic_id: self.semantic_id.deep_view(),
            supplemental_semantic_ids: self.supplemental_semantic_ids.deep_view(),
        }
    }
}

impl DeepView for Extension {
    type V = ExtensionView;

    open spec fn deep_view(&self) -> ExtensionView {
        self@
    }
}

impl Clone for Extension {
    fn clone(&self) -> (r: Extension)
        ensures
            r@ == self@,
    {
        Extension {
            name: self.name.clone(),
            value_type: self.value_type,
            value: self.value.clone(),
            refers_to: Reference::clone_list(&self.refers_to),
            semantic_id: match &self.semantic_id {
                Some(v) => Some(v.clone()),
                None => None,
            },
            supplemental_semantic_ids: Reference::clone_list(&self.supplemental_semantic_ids),
        }
    }
}

impl Extension {
    /// Creates an extension from what it must have; everything else is
    /// absent or empty.
    pub fn new(name: String) -> (r: Extension)
        ensures
            r@ == (ExtensionView {
                name: name@,
                value_type: None,
                value: None,
                refers_to: Seq::empty(),
                semantic_id: None,
                supplemental_semantic_ids: Seq::empty(),
            }),
    {
        Extension {
            name,
            value_type: None,
            value: None,
            refers_to: Vec::new(),
            semantic_id: None,
            supplemental_semantic_ids: Vec::new(),
        }
    }

    /// Sets the name of the extension.
    pub fn set_name(&mut self, name: String)
        ensures
            final(self)@ == (ExtensionView { name: name@, ..old(self)@ }),
    {
        self.name = name;
    }

    /// Returns the name of the extension.
    pub fn get_name(&self) -> (r: &String)
        ensures
            r@ == self@.name,
    {
        &self.name
    }

    /// Returns the name of the extension, open to change.
    pub fn get_mut_name(&mut self) -> (r: &mut String)
        ensures
            r@ == old(self)@.name,
            final(self)@ == (ExtensionView { name: final(r)@, ..old(self)@ }),
    {
        &mut self.name
    }

    /// Sets the data type of the value of the extension.
    pub fn set_value_type(&mut self, value_type: DataTypeDefXsd)
        ensures
            final(self)@ == (ExtensionView { value_type: Some(value_type), ..old(self)@ }),
    {
        self.value_type = Some(value_type);
    }

    /// Returns the data type of the value of the extension, if there is one.
    pub fn get_value_type(&self) -> (r: Option<&DataTypeDefXsd>)
        ensures
            r.deep_view() == self@.value_type,
    {
        self.value_type.as_ref()
    }

    /// Returns the data type of the value of the extension, open to change, if there is one.
    pub fn get_mut_value_type(&mut self) -> (r: Option<&mut DataTypeDefXsd>)
        ensures
            match r {
                Some(m) => old(self)@.value_type == Some(*m)
                    && final(self)@ ==
                    (ExtensionView { value_type: Some(*final(m)), ..old(self)@ }),
                None => old(self)@.value_type is None && final(self)@ == old(self)@,
            },
    {
        self.value_type.as_mut()
    }

    /// Sets the value of the extension.
    pub fn set_value(&mut self, value: String)
        ensures
            final(self)@ == (ExtensionView { value: Some(value@), ..old(self)@ }),
    {
        self.value = Some(value);
    }

    /// Returns the value of the extension, if there is one.
    pub fn get_value(&self) -> (r: Option<&String>)
        ensures
            r.deep_view() == self@.value,
    {
        self.value.as_ref()
    }

    /// Returns the value of the extension, open to change, if there is one.
    pub fn get_mut_value(&mut self) -> (r: Option<&mut String>)
        ensures
            match r {
                Some(m) => old(self)@.value == Some(m@)
                    && final(self)@ == (ExtensionView { value: Some(final(m)@), ..old(self)@ }),
                None => old(self)@.value is None && final(self)@ == old(self)@,
            },
    {
        self.value.as_mut()
    }

    /// Sets the references to the elements the extension refers to.
    pub fn set_refers_to(&mut self, refers_to: Vec<Reference>)
        ensures
            final(self)@ == (ExtensionView { refers_to: refers_to.deep_view(), ..old(self)@ }),
    {
        self.refers_to = refers_to;
    }

    /// Returns the references to the elements the extension refers to.
    pub fn get_refers_to(&self) -> (r: &Vec<Reference>)
        ensures
            r.deep_view() == self@.refers_to,
    {
        &self.refers_to
    }

    /// Returns the references to the elements the extension refers to, open to change.
    pub fn get_mut_refers_to(&mut self) -> (r: &mut Vec<Reference>)
        ensures
            r.deep_view() == old(self)@.refers_to,
            final(self)@ == (ExtensionView { refers_to: final(r).deep_view(), ..old(self)@ }),
    {
        &mut self.refers_to
    }

    /// Adds a reference to an element the extension refers to at the end.
    pub fn add_refers_to(&mut self, refers_to: Reference)
        ensures
            final(self)@ ==
                (ExtensionView { refers_to: old(self)@.refers_to.push(refers_to@), ..old(self)@ }),
    {
        self.refers_to.push(refers_to);
    }

    /// Removes and returns the reference to an element the extension refers to at position `index`.
    /// Where there is none,
    /// nothing changes and the index is reported as out of range.
    pub fn remove_refers_to(&mut self, index: usize) -> (r: Result<Reference, ModelError>)
        ensures
            match r {
                Ok(item) => index < old(self)@.refers_to.len()
                    && item@ == old(self)@.refers_to[index as int]
                    && final(self)@ ==
                        (ExtensionView { refers_to: old(self)@.refers_to.remove(index as int),
                        ..old(self)@ }),
                Err(e) => index >= old(self)@.refers_to.len() && e == ModelError::IndexOutOfRange
                    && final(self)@ == old(self)@,
            },
    {
        if index < self.refers_to.len() {
            Ok(self.refers_to.remove(index))
        } else {
            Err(ModelError::IndexOutOfRange)
        }
    }
}

impl THasSemantics for Extension {
    open spec fn semantics(&self) -> SemanticsAspect {
        SemanticsAspect {
            semantic_id: self@.semantic_id,
            supplemental_semantic_ids: self@.supplemental_semantic_ids,
        }
    }

    fn set_semantic_id(&mut self, semantic_id: Reference)
        ensures
            final(self)@ == (ExtensionView { semantic_id: Some(semantic_id@), ..old(self)@ }),
    {
        self.semantic_id = Some(semantic_id);
    }

    fn get_semantic_id(&self) -> (r: Option<&Reference>) {
        self.semantic_id.as_ref()
    }

    fn get_mut_semantic_id(&mut self) -> (r: Option<&mut Reference>)
        ensures
            match r {
                Some(m) =>
                    final(self)@ == (ExtensionView { semantic_id: Some(final(m)@), ..old(self)@ }),
                None => final(self)@ == old(self)@,
            },
    {
        self.semantic_id.as_mut()
    }

    fn set_supplemental_semantic_ids(&mut self, supplemental_semantic_ids: Vec<Reference>)
        ensures
            final(self)@ ==
                (ExtensionView { supplemental_semantic_ids: supplemental_semantic_ids.deep_view(),
                ..old(self)@ }),
    {
        self.supplemental_semantic_ids = supplemental_semantic_ids;
    }

    fn get_supplemental_semantic_ids(&self) -> (r: &Vec<Reference>) {
        &self.supplemental_semantic_ids
    }

    fn get_mut_supplemental_semantic_ids(&mut self) -> (r: &mut Vec<Reference>)
        ensures
            final(self)@ ==
                (ExtensionView { supplemental_semantic_ids: final(r).deep_view(), ..old(self)@ }),
    {
        &mut self.supplemental_semantic_ids
    }

    fn add_supplemental_semantic_id(&mut self, supplemental_semantic_id: Reference)
        ensures
            final(self)@ ==
                (ExtensionView {
                supplemental_semantic_ids: old(self)@.supplemental_semantic_ids.push(
                supplemental_semantic_id@), ..old(self)@ }),
    {
        self.supplemental_semantic_ids.push(supplemental_semantic_id);
    }

    fn remove_supplemental_semantic_id(&mut self, index: usize) -> (r: Result<Reference,
        ModelError>)
        ensures
            match r {
                Ok(item) =>
                    final(self)@ ==
                    (ExtensionView {
                    supplemental_semantic_ids: old(self)@.supplemental_semantic_ids.remove(
                    index as int), ..old(self)@ }),
                Err(e) => final(self)@ == old(self)@,
            },
    {
        if index < self.supplemental_semantic_ids.len() {
            Ok(self.supplemental_semantic_ids.remove(index))
        } else {
            Err(ModelError::IndexOutOfRange)
        }
    }
}

impl ExtensionView {
    /// The same value with what it carries of the aspect replaced.
    pub open spec fn with_semantics(self, aspect: SemanticsAspect) -> ExtensionView {
        ExtensionView {
            semantic_id: aspect.semantic_id,
            supplemental_semantic_ids: aspect.supplemental_semantic_ids,
            ..self
        }
    }

    /// Whether every reference in the value is well formed.
    pub open spec fn well_formed(self) -> bool {
        &&& (forall|i: int| 0 <= i < self.refers_to.len() ==>
            (#[trigger] self.refers_to[i]).well_formed())
        &&& (self.semantic_id matches Some(v) ==> v.well_formed())
        &&& (forall|i: int| 0 <= i < self.supplemental_semantic_ids.len() ==>
            (#[trigger] self.supplemental_semantic_ids[i]).well_formed())
    }

    /// The members of a record that begins with `before` and goes on with
    /// the members of the value, in their order.
    #[verifier::opaque]
    pub open spec fn members_after(self, before: Seq<FieldView>) -> Seq<FieldView> {
        before
            .push(member("name"@, text_encode(self.name)))
            .push(member("valueType"@, DataTypeDefXsd::optional_to_wire(self.value_type)))
            .push(member("value"@, optional_text_encode(self.value)))
            .push(member("refersTo"@, ReferenceView::list_to_wire(self.refers_to)))
            .push(member("semanticId"@, ReferenceView::optional_to_wire(self.semantic_id)))
            .push(member("supplementalSemanticIds"@,
                ReferenceView::list_to_wire(self.supplemental_semantic_ids)))
    }

    /// The value on the wire: the record of its members.
    pub open spec fn to_wire(self) -> WireView {
        WireView::Record(self.members_after(Seq::empty()))
    }

    /// The value that the members of a record stand for. Members of other
    /// names are passed over; of two members of one name the first counts;
    /// the first member in the order above that cannot be decoded decides
    /// the failure.
    #[verifier::opaque]
    pub open spec fn from_members(fields: Seq<FieldView>) -> Result<ExtensionView,
        DecodeErrorView> {
        let name = match lookup(fields, "name"@) {
            None => Err(fail_at(DecodeFault::MissingField, "name"@)),
            Some(x) => in_field("name"@, text_decode(x)),
        };
        let value_type = match present(fields, "valueType"@) {
            None => Ok(None),
            Some(x) => optional(in_field("valueType"@, DataTypeDefXsd::from_wire(x))),
        };
        let value = match present(fields, "value"@) {
            None => Ok(None),
            Some(x) => optional(in_field("value"@, text_decode(x))),
        };
        let refers_to = match lookup(fields, "refersTo"@) {
            None => Err(fail_at(DecodeFault::MissingField, "refersTo"@)),
            Some(x) => in_field("refersTo"@, ReferenceView::list_from_wire(x)),
        };
        let semantic_id = match present(fields, "semanticId"@) {
            None => Ok(None),
            Some(x) => optional(in_field("semanticId"@, ReferenceView::from_wire(x))),
        };
        let supplemental_semantic_ids = match lookup(fields, "supplementalSemanticIds"@) {
            None => Err(fail_at(DecodeFault::MissingField, "supplementalSemanticIds"@)),
            Some(x) => in_field("supplementalSemanticIds"@, ReferenceView::list_from_wire(x)),
        };
        if name is Err {
            Err(name->Err_0)
        } else if value_type is Err {
            Err(value_type->Err_0)
        } else if value is Err {
            Err(value->Err_0)
        } else if refers_to is Err {
            Err(refers_to->Err_0)
        } else if semantic_id is Err {
            Err(semantic_id->Err_0)
        } else if supplemental_semantic_ids is Err {
            Err(supplemental_semantic_ids->Err_0)
        } else {
            Ok(ExtensionView {
                name: name->Ok_0,
                value_type: value_type->Ok_0,
                value: value->Ok_0,
                refers_to: refers_to->Ok_0,
                semantic_id: semantic_id->Ok_0,
                supplemental_semantic_ids: supplemental_semantic_ids->Ok_0,
            })
        }
    }

    /// The value that a wire value stands for.
    pub open spec fn from_wire(w: WireView) -> Result<ExtensionView, DecodeErrorView> {
        match w {
            WireView::Record(fields) => ExtensionView::from_members(fields),
            _ => Err(fail(DecodeFault::ExpectedRecord)),
        }
    }

    /// A list of values on the wire: the values in their order.
    pub open spec fn list_to_wire(items: Seq<ExtensionView>) -> WireView {
        WireView::List(
            Seq::new(
                items.len(),
                |i: int|
                    if 0 <= i < items.len() {
                        items[i].to_wire()
                    } else {
                        WireView::Null
                    },
            ),
        )
    }

    /// The values that the items from position `start` on stand for. The first
    /// item that stands for none decides the failure.
    pub open spec fn list_from_items(items: Seq<WireView>, start: nat) -> Result<
        Seq<ExtensionView>,
        DecodeErrorView,
    >
        decreases items.len() - start,
    {
        if start >= items.len() {
            Ok(Seq::empty())
        } else {
            match ExtensionView::from_wire(items[start as int]) {
                Err(e) => Err(e.under(PathStepView::Index(start as int))),
                Ok(v) => match ExtensionView::list_from_items(items, start + 1) {
                    Ok(rest) => Ok(seq![v] + rest),
                    Err(e) => Err(e),
                },
            }
        }
    }

    /// The values that a list on the wire stands for.
    pub open spec fn list_from_wire(w: WireView) -> Result<Seq<ExtensionView>, DecodeErrorView> {
        match w {
            WireView::List(items) => ExtensionView::list_from_items(items, 0),
            _ => Err(fail(DecodeFault::ExpectedList)),
        }
    }

    /// The members of the value hide no type name that the record begins with.
    pub proof fn lemma_model_type_kept(self, tag: Option<Seq<char>>)
        ensures
            lookup(self.members_after(tagged(tag)), "modelType"@) == lookup(
                tagged(tag),
                "modelType"@,
            ),
    {
        broadcast use lemma_lookup_push;

        reveal(ExtensionView::members_after);
        lemma_name_codes();
    }

    /// The value is found again from the members of its record, whether the
    /// record begins with a type name or not.
    pub proof fn lemma_members_round_trip(self, tag: Option<Seq<char>>)
        requires
            self.well_formed(),
        ensures
            ExtensionView::from_members(self.members_after(tagged(tag))) ==
                Ok::<ExtensionView, DecodeErrorView>(
                self,
            ),
    {
        broadcast use lemma_lookup_push;

        reveal(ExtensionView::members_after);
        reveal(ExtensionView::from_members);
        lemma_name_codes();
        match self.value_type {
            Some(v) => {
                v.lemma_round_trip();
            },
            None => {},
        }
        ReferenceView::lemma_list_round_trip(self.refers_to);
        match self.semantic_id {
            Some(v) => {
                v.lemma_round_trip();
            },
            None => {},
        }
        ReferenceView::lemma_list_round_trip(self.supplemental_semantic_ids);
    }

    /// Every value is found again from what it is on the wire.
    pub proof fn lemma_round_trip(self)
        requires
            self.well_formed(),
        ensures
            ExtensionView::from_wire(self.to_wire()) == Ok::<ExtensionView, DecodeErrorView>(self),
    {
        self.lemma_members_round_trip(None);
    }

    /// The values from position `start` on are found again from the items that
    /// stand for them.
    pub proof fn lemma_list_items_round_trip(items: Seq<ExtensionView>, start: nat)
        requires
            forall|i: int| 0 <= i < items.len() ==> (#[trigger] items[i]).well_formed(),
            start <= items.len(),
        ensures
            ExtensionView::list_from_items(ExtensionView::list_to_wire(items)->List_0, start) ==
                Ok::<
                Seq<ExtensionView>,
                DecodeErrorView,
            >(items.skip(start as int)),
        decreases items.len() - start,
    {
        if start >= items.len() {
            assert(items.skip(start as int) =~= Seq::empty());
        } else {
            items[start as int].lemma_round_trip();
            ExtensionView::lemma_list_items_round_trip(items, start + 1);
            assert(seq![items[start as int]] + items.skip(start as int + 1) =~= items.skip(
                start as int));
        }
    }

    /// Every list of values is found again from what it is on the wire.
    pub proof fn lemma_list_round_trip(items: Seq<ExtensionView>)
        requires
            forall|i: int| 0 <= i < items.len() ==> (#[trigger] items[i]).well_formed(),
        ensures
            ExtensionView::list_from_wire(ExtensionView::list_to_wire(items)) == Ok::<
                Seq<ExtensionView>,
                DecodeErrorView,
            >(items),
    {
        ExtensionView::lemma_list_items_round_trip(items, 0);
        assert(items.skip(0) =~= items);
    }
}

impl Extension {
    /// The value as it travels: the record of its members. What comes out
    /// decodes to the same value again.
    pub fn encode(&self) -> (w: Wire)
        ensures
            w@ == self@.to_wire(),
            self@.well_formed(),
            ExtensionView::from_wire(w@) == Ok::<ExtensionView, DecodeErrorView>(self@),
    {
        let mut fields: Vec<Field> = Vec::new();
        assert(fields.deep_view() =~= Seq::<FieldView>::empty());
        self.encode_members(&mut fields);
        proof {
            self@.lemma_round_trip();
        }
        Wire::record(fields)
    }

    /// Appends the members of the value, as they travel, to `fields`.
    pub fn encode_members(&self, fields: &mut Vec<Field>)
        ensures
            final(fields).deep_view() == self@.members_after(old(fields).deep_view()),
            self@.well_formed(),
    {
        reveal(ExtensionView::members_after);
        add_member(fields, "name", encode_text(&self.name));
        add_member(fields, "valueType", DataTypeDefXsd::encode_optional(&self.value_type));
        add_member(fields, "value", encode_optional_text(&self.value));
        add_member(fields, "refersTo", Reference::encode_list(&self.refers_to));
        add_member(fields, "semanticId", Reference::encode_optional(&self.semantic_id));
        add_member(fields, "supplementalSemanticIds",
            Reference::encode_list(&self.supplemental_semantic_ids));
    }

    /// The value that `w` stands for.
    pub fn decode(w: &Wire) -> (r: Result<Extension, DecodeError>)
        ensures
            outcome(r) == ExtensionView::from_wire(w@),
    {
        match w.members() {
            Some(fields) => Extension::decode_members(fields),
            None => Err(DecodeError::new(DecodeFault::ExpectedRecord)),
        }
    }

    /// The value that the members `fields` of a record stand for.
    pub fn decode_members(fields: &Vec<Field>) -> (r: Result<Extension, DecodeError>)
        ensures
            outcome(r) == ExtensionView::from_members(fields.deep_view()),
    {
        reveal(ExtensionView::from_members);
        let name = match find(fields, "name") {
            None => Err(DecodeError::at(DecodeFault::MissingField, "name")),
            Some(x) => match decode_text(x) {
                Ok(v) => Ok(v),
                Err(e) => Err(e.under_field("name")),
            },
        };
        let value_type = match find_present(fields, "valueType") {
            None => Ok(None),
            Some(x) => match DataTypeDefXsd::decode(x) {
                Ok(v) => Ok(Some(v)),
                Err(e) => Err(e.under_field("valueType")),
            },
        };
        let value = match find_present(fields, "value") {
            None => Ok(None),
            Some(x) => match decode_text(x) {
                Ok(v) => Ok(Some(v)),
                Err(e) => Err(e.under_field("value")),
            },
        };
        let refers_to = match find(fields, "refersTo") {
            None => Err(DecodeError::at(DecodeFault::MissingField, "refersTo")),
            Some(x) => match Reference::decode_list(x) {
                Ok(v) => Ok(v),
                Err(e) => Err(e.under_field("refersTo")),
            },
        };
        let semantic_id = match find_present(fields, "semanticId") {
            None => Ok(None),
            Some(x) => match Reference::decode(x) {
                Ok(v) => Ok(Some(v)),
                Err(e) => Err(e.under_field("semanticId")),
            },
        };
        let supplemental_semantic_ids = match find(fields, "supplementalSemanticIds") {
            None => Err(DecodeError::at(DecodeFault::MissingField, "supplementalSemanticIds")),
            Some(x) => match Reference::decode_list(x) {
                Ok(v) => Ok(v),
                Err(e) => Err(e.under_field("supplementalSemanticIds")),
            },
        };
        let name = match name {
            Ok(v) => v,
            Err(e) => {
                return Err(e);
            },
        };
        let value_type = match value_type {
            Ok(v) => v,
            Err(e) => {
                return Err(e);
            },
        };
        let value = match value {
            Ok(v) => v,
            Err(e) => {
                return Err(e);
            },
        };
        let refers_to = match refers_to {
            Ok(v) => v,
            Err(e) => {
                return Err(e);
            },
        };
        let semantic_id = match semantic_id {
            Ok(v) => v,
            Err(e) => {
                return Err(e);
            },
        };
        let supplemental_semantic_ids = match supplemental_semantic_ids {
            Ok(v) => v,
            Err(e) => {
                return Err(e);
            },
        };
        let r = Extension { name, value_type, value, refers_to, semantic_id,
            supplemental_semantic_ids };
        assert(r@ =~= ExtensionView::from_members(fields.deep_view())->Ok_0);
        Ok(r)
    }

    /// The values as they travel: a list, in their order.
    pub fn encode_list(items: &Vec<Extension>) -> (w: Wire)
        ensures
            w@ == ExtensionView::list_to_wire(items.deep_view()),
            forall|i: int| 0 <= i < items.len() ==> (#[trigger] items.deep_view()[i]).well_formed(),
    {
        let mut out: Vec<Wire> = Vec::new();
        let mut i: usize = 0;
        while i < items.len()
            invariant
                i <= items.len(),
                out.len() == i,
                forall|j: int| 0 <= j < i ==>
                    (#[trigger] out[j])@ == items.deep_view()[j].to_wire(),
                forall|j: int| 0 <= j < i ==> (#[trigger] items.deep_view()[j]).well_formed(),
            decreases items.len() - i,
        {
            out.push(items[i].encode());
            i += 1;
        }
        let w = Wire::list(out);
        assert(w@->List_0 =~= ExtensionView::list_to_wire(items.deep_view())->List_0);
        w
    }

    /// The values that the list `w` stands for. The first item that stands
    /// for none decides the failure.
    pub fn decode_list(w: &Wire) -> (r: Result<Vec<Extension>, DecodeError>)
        ensures
            outcome(r) == ExtensionView::list_from_wire(w@),
    {
        let items = match w.items() {
            Some(items) => items,
            None => {
                return Err(DecodeError::new(DecodeFault::ExpectedList));
            },
        };
        let mut out: Vec<Extension> = Vec::new();
        let mut i: usize = 0;
        assert(Seq::<ExtensionView>::empty() + ExtensionView::list_from_items(items.deep_view(),
            0)->Ok_0
            =~= ExtensionView::list_from_items(items.deep_view(), 0)->Ok_0);
        while i < items.len()
            invariant
                i <= items.len(),
                w@ == WireView::List(items.deep_view()),
                ExtensionView::list_from_items(items.deep_view(), 0) ==
                    (match ExtensionView::list_from_items(
                    items.deep_view(),
                    i as nat,
                ) {
                    Ok(rest) => Ok(out.deep_view() + rest),
                    Err(e) => Err(e),
                }),
            decreases items.len() - i,
        {
            let ghost before = out.deep_view();
            match Extension::decode(&items[i]) {
                Ok(v) => {
                    out.push(v);
                    proof {
                        let rest = ExtensionView::list_from_items(items.deep_view(),
                            (i + 1) as nat);
                        if rest is Ok {
                            assert(out.deep_view() + rest->Ok_0 =~= before + (seq![
                                v@] + rest->Ok_0));
                        }
                    }
                },
                Err(e) => {
                    return Err(e.under_index(i));
                },
            }
            i += 1;
        }
        assert(out.deep_view() + Seq::<ExtensionView>::empty() =~= out.deep_view());
        Ok(out)
    }

    /// A copy of each of the values, in their order.
    pub fn clone_list(items: &Vec<Extension>) -> (r: Vec<Extension>)
        ensures
            r.deep_view() == items.deep_view(),
    {
        let mut out: Vec<Extension> = Vec::new();
        let mut i: usize = 0;
        while i < items.len()
            invariant
                i <= items.len(),
                out.len() == i,
                forall|j: int| 0 <= j < i ==> (#[trigger] out[j])@ == items[j]@,
            decreases items.len() - i,
        {
            out.push(items[i].clone());
            i += 1;
        }
        assert(out.deep_view() =~= items.deep_view());
        out
    }
}

} // verus!
