use vstd::prelude::*;
use crate::enumerations::data_type_def_xsd::DataTypeDefXsd;
use crate::enumerations::qualifier_kind::QualifierKind;
use crate::error::ModelError;
use crate::names::lemma_name_codes;
use crate::structs::reference::{Reference, ReferenceView};
use crate::traits::has_semantics::{SemanticsAspect, THasSemantics};
use crate::wire::{
    add_member,
    decode_text,
    encode_optional_text,
    encode_text,
    fail,
    fail_at,
    find,
    find_present,
    in_field,
    lemma_lookup_push,
    lookup,
    member,
    optional,
    optional_text_encode,
    outcome,
    present,
    tagged,
    text_decode,
    text_encode,
    DecodeError,
    DecodeErrorView,
    DecodeFault,
    Field,
    FieldView,
    PathStepView,
    Wire,
    WireView,
};

verus! {

/// A qualifier is a type-value-pair. Depending on the kind of qualifier it makes additional
/// statements about its value, concept or existence and other meta information.
#[derive(Debug, PartialEq)]
pub struct Qualifier {
    /// The kind of qualifier that is applied to the element.
    kind: Option<QualifierKind>,
    /// The type of qualifier that is applied to the element.
    qualifier_type: String,
    /// The data type of the qualifier value.
    value_type: DataTypeDefXsd,
    /// The value of the qualifier.
    value: Option<String>,
    /// The reference to the global unique ID of a coded value.
    value_id: Option<Reference>,
    /// The identifier of the semantic definition of the element, its main semantic ID.
    semantic_id: Option<Reference>,
    /// The identifiers of supplemental semantic definitions of the element.
    supplemental_semantic_ids: Vec<Reference>,
}

/// The mathematical form of a [`Qualifier`].
#[verifier::ext_equal]
pub struct QualifierView {
    pub kind: Option<QualifierKind>,
    pub qualifier_type: Seq<char>,
    pub value_type: DataTypeDefXsd,
    pub value: Option<Seq<char>>,
    pub value_id: Option<ReferenceView>,
    pub semantic_id: Option<ReferenceView>,
    pub supplemental_semantic_ids: Seq<ReferenceView>,
}

impl View for Qualifier {
    type V = QualifierView;

    closed spec fn view(&self) -> QualifierView {
        QualifierView {
            kind: self.kind,
            qualifier_type: self.qualifier_type@,
            value_type: self.value_type,
            value: self.value.deep_view(),
            value_id: self.value_id.deep_view(),
            semantic_id: self.semantic_id.deep_view(),
            supplemental_semantic_ids: self.supplemental_semantic_ids.deep_view(),
        }
    }
}

impl DeepView for Qualifier {
    type V = QualifierView;

    open spec fn deep_view(&self) -> QualifierView {
        self@
    }
}

impl Clone for Qualifier {
    fn clone(&self) -> (r: Qualifier)
        ensures
            r@ == self@,
    {
        Qualifier {
            kind: self.kind,
            qualifier_type: self.qualifier_type.clone(),
            value_type: self.value_type,
            value: self.value.clone(),
            value_id: match &self.value_id {
                Some(v) => Some(v.clone()),
                None => None,
            },
            semantic_id: match &self.semantic_id {
                Some(v) => Some(v.clone()),
                None => None,
            },
            supplemental_semantic_ids: Reference::clone_list(&self.supplemental_semantic_ids),
        }
    }
}

impl Qualifier {
    /// Creates a qualifier from what it must have; everything else is
    /// absent or empty.
    pub fn new(qualifier_type: String, value_type: DataTypeDefXsd) -> (r: Qualifier)
        ensures
            r@ == (QualifierView {
                kind: None,
                qualifier_type: qualifier_type@,
                value_type,
                value: None,
                value_id: None,
                semantic_id: None,
                supplemental_semantic_ids: Seq::empty(),
            }),
    {
        Qualifier {
            kind: None,
            qualifier_type,
            value_type,
            value: None,
            value_id: None,
            semantic_id: None,
            supplemental_semantic_ids: Vec::new(),
        }
    }

    /// Sets the kind of qualifier that is applied to the element.
    pub fn set_kind(&mut self, kind: QualifierKind)
        ensures
            final(self)@ == (QualifierView { kind: Some(kind), ..old(self)@ }),
    {
        self.kind = Some(kind);
    }

    /// Returns the kind of qualifier that is applied to the element, if there is one.
    pub fn get_kind(&self) -> (r: Option<&QualifierKind>)
        ensures
            r.deep_view() == self@.kind,
    {
        self.kind.as_ref()
    }

    /// Sets the type of qualifier that is applied to the element.
    pub fn set_qualifier_type(&mut self, qualifier_type: String)
        ensures
            final(self)@ == (QualifierView { qualifier_type: qualifier_type@, ..old(self)@ }),
    {
        self.qualifier_type = qualifier_type;
    }

    /// Returns the type of qualifier that is applied to the element.
    pub fn get_qualifier_type(&self) -> (r: &String)
        ensures
            r@ == self@.qualifier_type,
    {
        &self.qualifier_type
    }

    /// Sets the data type of the qualifier value.
    pub fn set_value_type(&mut self, value_type: DataTypeDefXsd)
        ensures
            final(self)@ == (QualifierView { value_type, ..old(self)@ }),
    {
        self.value_type = value_type;
    }

    /// Returns the data type of the qualifier value.
    pub fn get_value_type(&self) -> (r: &DataTypeDefXsd)
        ensures
            *r == self@.value_type,
    {
        &self.value_type
    }

    /// Sets the value of the qualifier.
    pub fn set_value(&mut self, value: String)
        ensures
            final(self)@ == (QualifierView { value: Some(value@), ..old(self)@ }),
    {
        self.value = Some(value);
    }

    /// Returns the value of the qualifier, if there is one.
    pub fn get_value(&self) -> (r: Option<&String>)
        ensures
            r.deep_view() == self@.value,
    {
        self.value.as_ref()
    }

    /// Sets the reference to the global unique ID of a coded value.
    pub fn set_value_id(&mut self, value_id: Reference)
        ensures
            final(self)@ == (QualifierView { value_id: Some(value_id@), ..old(self)@ }),
    {
        self.value_id = Some(value_id);
    }

    /// Returns the reference to the global unique ID of a coded value, if there is one.
    pub fn get_value_id(&self) -> (r: Option<&Reference>)
        ensures
            r.deep_view() == self@.value_id,
    {
        self.value_id.as_ref()
    }
}

impl THasSemantics for Qualifier {
    open spec fn semantics(&self) -> SemanticsAspect {
        SemanticsAspect {
            semantic_id: self@.semantic_id,
            supplemental_semantic_ids: self@.supplemental_semantic_ids,
        }
    }

    fn set_semantic_id(&mut self, semantic_id: Reference)
        ensures
            final(self)@ == (QualifierView { semantic_id: Some(semantic_id@), ..old(self)@ }),
    {
        self.semantic_id = Some(semantic_id);
    }

    fn get_semantic_id(&self) -> (r: Option<&Reference>) {
        self.semantic_id.as_ref()
    }

    fn get_mut_semantic_id(&mut self) -> (r: Option<&mut Reference>)
        ensures
            match r {
                Some(m) =>
                    final(self)@ == (QualifierView { semantic_id: Some(final(m)@), ..old(self)@ }),
                None => final(self)@ == old(self)@,
            },
    {
        self.semantic_id.as_mut()
    }

    fn set_supplemental_semantic_ids(&mut self, supplemental_semantic_ids: Vec<Reference>)
        ensures
            final(self)@ ==
                (QualifierView { supplemental_semantic_ids: supplemental_semantic_ids.deep_view(),
                ..old(self)@ }),
    {
        self.supplemental_semantic_ids = supplemental_semantic_ids;
    }

    fn get_supplemental_semantic_ids(&self) -> (r: &Vec<Reference>) {
        &self.supplemental_semantic_ids
    }

    fn get_mut_supplemental_semantic_ids(&mut self) -> (r: &mut Vec<Reference>)
        ensures
            final(self)@ ==
                (QualifierView { supplemental_semantic_ids: final(r).deep_view(), ..old(self)@ }),
    {
        &mut self.supplemental_semantic_ids
    }

    fn add_supplemental_semantic_id(&mut self, supplemental_semantic_id: Reference)
        ensures
            final(self)@ ==
                (QualifierView {
                supplemental_semantic_ids: old(self)@.supplemental_semantic_ids.push(
                supplemental_semantic_id@), ..old(self)@ }),
    {
        self.supplemental_semantic_ids.push(supplemental_semantic_id);
    }

    fn remove_supplemental_semantic_id(&mut self, index: usize) -> (r: Result<Reference,
        ModelError>)
        ensures
            match r {
                Ok(item) =>
                    final(self)@ ==
                    (QualifierView {
                    supplemental_semantic_ids: old(self)@.supplemental_semantic_ids.remove(
                    index as int), ..old(self)@ }),
                Err(e) => final(self)@ == old(self)@,
            },
    {
        if index < self.supplemental_semantic_ids.len() {
            Ok(self.supplemental_semantic_ids.remove(index))
        } else {
            Err(ModelError::IndexOutOfRange)
        }
    }
}

impl QualifierView {
    /// The same value with what it carries of the aspect replaced.
    pub open spec fn with_semantics(self, aspect: SemanticsAspect) -> QualifierView {
        QualifierView {
            semantic_id: aspect.semantic_id,
            supplemental_semantic_ids: aspect.supplemental_semantic_ids,
            ..self
        }
    }

    /// Whether every reference in the value is well formed.
    pub open spec fn well_formed(self) -> bool {
        &&& (self.value_id matches Some(v) ==> v.well_formed())
        &&& (self.semantic_id matches Some(v) ==> v.well_formed())
        &&& (forall|i: int| 0 <= i < self.supplemental_semantic_ids.len() ==>
            (#[trigger] self.supplemental_semantic_ids[i]).well_formed())
    }

    /// The members of a record that begins with `before` and goes on with
    /// the members of the value, in their order.
    #[verifier::opaque]
    pub open spec fn members_after(self, before: Seq<FieldView>) -> Seq<FieldView> {
        before
            .push(member("kind"@, QualifierKind::optional_to_wire(self.kind)))
            .push(member("type"@, text_encode(self.qualifier_type)))
            .push(member("valueType"@, self.value_type.to_wire()))
            .push(member("value"@, optional_text_encode(self.value)))
            .push(member("valueId"@, ReferenceView::optional_to_wire(self.value_id)))
            .push(member("semanticId"@, ReferenceView::optional_to_wire(self.semantic_id)))
            .push(member("supplementalSemanticIds"@,
                ReferenceView::list_to_wire(self.supplemental_semantic_ids)))
    }

    /// The value on the wire: the record of its members.
    pub open spec fn to_wire(self) -> WireView {
        WireView::Record(self.members_after(Seq::empty()))
    }

    /// The value that the members of a record stand for. Members of other
    /// names are passed over; of two members of one name the first counts;
    /// the first member in the order above that cannot be decoded decides
    /// the failure.
    #[verifier::opaque]
    pub open spec fn from_members(fields: Seq<FieldView>) -> Result<QualifierView,
        DecodeErrorView> {
        let kind = match present(fields, "kind"@) {
            None => Ok(None),
            Some(x) => optional(in_field("kind"@, QualifierKind::from_wire(x))),
        };
        let qualifier_type = match lookup(fields, "type"@) {
            None => Err(fail_at(DecodeFault::MissingField, "type"@)),
            Some(x) => in_field("type"@, text_decode(x)),
        };
        let value_type = match lookup(fields, "valueType"@) {
            None => Err(fail_at(DecodeFault::MissingField, "valueType"@)),
            Some(x) => in_field("valueType"@, DataTypeDefXsd::from_wire(x)),
        };
        let value = match present(fields, "value"@) {
            None => Ok(None),
            Some(x) => optional(in_field("value"@, text_decode(x))),
        };
        let value_id = match present(fields, "valueId"@) {
            None => Ok(None),
            Some(x) => optional(in_field("valueId"@, ReferenceView::from_wire(x))),
        };
        let semantic_id = match present(fields, "semanticId"@) {
            None => Ok(None),
            Some(x) => optional(in_field("semanticId"@, ReferenceView::from_wire(x))),
        };
        let supplemental_semantic_ids = match lookup(fields, "supplementalSemanticIds"@) {
            None => Err(fail_at(DecodeFault::MissingField, "supplementalSemanticIds"@)),
            Some(x) => in_field("supplementalSemanticIds"@, ReferenceView::list_from_wire(x)),
        };
        if kind is Err {
            Err(kind->Err_0)
        } else if qualifier_type is Err {
            Err(qualifier_type->Err_0)
        } else if value_type is Err {
            Err(value_type->Err_0)
        } else if value is Err {
            Err(value->Err_0)
        } else if value_id is Err {
            Err(value_id->Err_0)
        } else if semantic_id is Err {
            Err(semantic_id->Err_0)
        } else if supplemental_semantic_ids is Err {
            Err(supplemental_semantic_ids->Err_0)
        } else {
            Ok(QualifierView {
                kind: kind->Ok_0,
                qualifier_type: qualifier_type->Ok_0,
                value_type: value_type->Ok_0,
                value: value->Ok_0,
                value_id: value_id->Ok_0,
                semantic_id: semantic_id->Ok_0,
                supplemental_semantic_ids: supplemental_semantic_ids->Ok_0,
            })
        }
    }

    /// The value that a wire value stands for.
    pub open spec fn from_wire(w: WireView) -> Result<QualifierView, DecodeErrorView> {
        match w {
            WireView::Record(fields) => QualifierView::from_members(fields),
            _ => Err(fail(DecodeFault::ExpectedRecord)),
        }
    }

    /// A list of values on the wire: the values in their order.
    pub open spec fn list_to_wire(items: Seq<QualifierView>) -> WireView {
        WireView::List(
            Seq::new(
                items.len(),
                |i: int|
                    if 0 <= i < items.len() {
                        items[i].to_wire()
                    } else {
                        WireView::Null
                    },
            ),
        )
    }

    /// The values that the items from position `start` on stand for. The first
    /// item that stands for none decides the failure.
    pub open spec fn list_from_items(items: Seq<WireView>, start: nat) -> Result<
        Seq<QualifierView>,
        DecodeErrorView,
    >
        decreases items.len() - start,
    {
        if start >= items.len() {
            Ok(Seq::empty())
        } else {
            match QualifierView::from_wire(items[start as int]) {
                Err(e) => Err(e.under(PathStepView::Index(start as int))),
                Ok(v) => match QualifierView::list_from_items(items, start + 1) {
                    Ok(rest) => Ok(seq![v] + rest),
                    Err(e) => Err(e),
                },
            }
        }
    }

    /// The values that a list on the wire stands for.
    pub open spec fn list_from_wire(w: WireView) -> Result<Seq<QualifierView>, DecodeErrorView> {
        match w {
            WireView::List(items) => QualifierView::list_from_items(items, 0),
            _ => Err(fail(DecodeFault::ExpectedList)),
        }
    }

    /// The members of the value hide no type name that the record begins with.
    pub proof fn lemma_model_type_kept(self, tag: Option<Seq<char>>)
        ensures
            lookup(self.members_after(tagged(tag)), "modelType"@) == lookup(
                tagged(tag),
                "modelType"@,
            ),
    {
        broadcast use lemma_lookup_push;

        reveal(QualifierView::members_after);
        lemma_name_codes();
    }

    /// The value is found again from the members of its record, whether the
    /// record begins with a type name or not.
    pub proof fn lemma_members_round_trip(self, tag: Option<Seq<char>>)
        requires
            self.well_formed(),
        ensures
            QualifierView::from_members(self.members_after(tagged(tag))) ==
                Ok::<QualifierView, DecodeErrorView>(
                self,
            ),
    {
        broadcast use lemma_lookup_push;

        reveal(QualifierView::members_after);
        reveal(QualifierView::from_members);
        lemma_name_codes();
        match self.kind {
            Some(v) => {
                v.lemma_round_trip();
            },
            None => {},
        }
        self.value_type.lemma_round_trip();
        match self.value_id {
            Some(v) => {
                v.lemma_round_trip();
            },
            None => {},
        }
        match self.semantic_id {
            Some(v) => {
                v.lemma_round_trip();
            },
            None => {},
        }
        ReferenceView::lemma_list_round_trip(self.supplemental_semantic_ids);
    }

    /// Every value is found again from what it is on the wire.
    pub proof fn lemma_round_trip(self)
        requires
            self.well_formed(),
        ensures
            QualifierView::from_wire(self.to_wire()) == Ok::<QualifierView, DecodeErrorView>(self),
    {
        self.lemma_members_round_trip(None);
    }

    /// The values from position `start` on are found again from the items that
    /// stand for them.
    pub proof fn lemma_list_items_round_trip(items: Seq<QualifierView>, start: nat)
        requires
            forall|i: int| 0 <= i < items.len() ==> (#[trigger] items[i]).well_formed(),
            start <= items.len(),
        ensures
            QualifierView::list_from_items(QualifierView::list_to_wire(items)->List_0, start) ==
                Ok::<
                Seq<QualifierView>,
                DecodeErrorView,
            >(items.skip(start as int)),
        decreases items.len() - start,
    {
        if start >= items.len() {
            assert(items.skip(start as int) =~= Seq::empty());
        } else {
            items[start as int].lemma_round_trip();
            QualifierView::lemma_list_items_round_trip(items, start + 1);
            assert(seq![items[start as int]] + items.skip(start as int + 1) =~= items.skip(
                start as int));
        }
    }

    /// Every list of values is found again from what it is on the wire.
    pub proof fn lemma_list_round_trip(items: Seq<QualifierView>)
        requires
            forall|i: int| 0 <= i < items.len() ==> (#[trigger] items[i]).well_formed(),
        ensures
            QualifierView::list_from_wire(QualifierView::list_to_wire(items)) == Ok::<
                Seq<QualifierView>,
                DecodeErrorView,
            >(items),
    {
        QualifierView::lemma_list_items_round_trip(items, 0);
        assert(items.skip(0) =~= items);
    }
}

impl Qualifier {
    /// The value as it travels: the record of its members. What comes out
    /// decodes to the same value again.
    pub fn encode(&self) -> (w: Wire)
        ensures
            w@ == self@.to_wire(),
            self@.well_formed(),
            QualifierView::from_wire(w@) == Ok::<QualifierView, DecodeErrorView>(self@),
    {
        let mut fields: Vec<Field> = Vec::new();
        assert(fields.deep_view() =~= Seq::<FieldView>::empty());
        self.encode_members(&mut fields);
        proof {
            self@.lemma_round_trip();
        }
        Wire::record(fields)
    }

    /// Appends the members of the value, as they travel, to `fields`.
    pub fn encode_members(&self, fields: &mut Vec<Field>)
        ensures
            final(fields).deep_view() == self@.members_after(old(fields).deep_view()),
            self@.well_formed(),
    {
        reveal(QualifierView::members_after);
        add_member(fields, "kind", QualifierKind::encode_optional(&self.kind));
        add_member(fields, "type", encode_text(&self.qualifier_type));
        add_member(fields, "valueType", self.value_type.encode());
        add_member(fields, "value", encode_optional_text(&self.value));
        add_member(fields, "valueId", Reference::encode_optional(&self.value_id));
        add_member(fields, "semanticId", Reference::encode_optional(&self.semantic_id));
        add_member(fields, "supplementalSemanticIds",
            Reference::encode_list(&self.supplemental_semantic_ids));
    }

    /// The value that `w` stands for.
    pub fn decode(w: &Wire) -> (r: Result<Qualifier, DecodeError>)
        ensures
            outcome(r) == QualifierView::from_wire(w@),
    {
        match w.members() {
            Some(fields) => Qualifier::decode_members(fields),
            None => Err(DecodeError::new(DecodeFault::ExpectedRecord)),
        }
    }

    /// The value that the members `fields` of a record stand for.
    pub fn decode_members(fields: &Vec<Field>) -> (r: Result<Qualifier, DecodeError>)
        ensures
            outcome(r) == QualifierView::from_members(fields.deep_view()),
    {
        reveal(QualifierView::from_members);
        let kind = match find_present(fields, "kind") {
            None => Ok(None),
            Some(x) => match QualifierKind::decode(x) {
                Ok(v) => Ok(Some(v)),
                Err(e) => Err(e.under_field("kind")),
            },
        };
        let qualifier_type = match find(fields, "type") {
            None => Err(DecodeError::at(DecodeFault::MissingField, "type")),
            Some(x) => match decode_text(x) {
                Ok(v) => Ok(v),
                Err(e) => Err(e.under_field("type")),
            },
        };
        let value_type = match find(fields, "valueType") {
            None => Err(DecodeError::at(DecodeFault::MissingField, "valueType")),
            Some(x) => match DataTypeDefXsd::decode(x) {
                Ok(v) => Ok(v),
                Err(e) => Err(e.under_field("valueType")),
            },
        };
        let value = match find_present(fields, "value") {
            None => Ok(None),
            Some(x) => match decode_text(x) {
                Ok(v) => Ok(Some(v)),
                Err(e) => Err(e.under_field("value")),
            },
        };
        let value_id = match find_present(fields, "valueId") {
            None => Ok(None),
            Some(x) => match Reference::decode(x) {
                Ok(v) => Ok(Some(v)),
                Err(e) => Err(e.under_field("valueId")),
            },
        };
        let semantic_id = match find_present(fields, "semanticId") {
            None => Ok(None),
            Some(x) => match Reference::decode(x) {
                Ok(v) => Ok(Some(v)),
                Err(e) => Err(e.under_field("semanticId")),
            },
        };
        let supplemental_semantic_ids = match find(fields, "supplementalSemanticIds") {
            None => Err(DecodeError::at(DecodeFault::MissingField, "supplementalSemanticIds")),
            Some(x) => match Reference::decode_list(x) {
                Ok(v) => Ok(v),
                Err(e) => Err(e.under_field("supplementalSemanticIds")),
            },
        };
        let kind = match kind {
            Ok(v) => v,
            Err(e) => {
                return Err(e);
            },
        };
        let qualifier_type = match qualifier_type {
            Ok(v) => v,
            Err(e) => {
                return Err(e);
            },
        };
        let value_type = match value_type {
            Ok(v) => v,
            Err(e) => {
                return Err(e);
            },
        };
        let value = match value {
            Ok(v) => v,
            Err(e) => {
                return Err(e);
            },
        };
        let value_id = match value_id {
            Ok(v) => v,
            Err(e) => {
                return Err(e);
            },
        };
        let semantic_id = match semantic_id {
            Ok(v) => v,
            Err(e) => {
                return Err(e);
            },
        };
        let supplemental_semantic_ids = match supplemental_semantic_ids {
            Ok(v) => v,
            Err(e) => {
                return Err(e);
            },
        };
        let r = Qualifier { kind, qualifier_type, value_type, value, value_id, semantic_id,
            supplemental_semantic_ids };
        assert(r@ =~= QualifierView::from_members(fields.deep_view())->Ok_0);
        Ok(r)
    }

    /// The values as they travel: a list, in their order.
    pub fn encode_list(items: &Vec<Qualifier>) -> (w: Wire)
        ensures
            w@ == QualifierView::list_to_wire(items.deep_view()),
            forall|i: int| 0 <= i < items.len() ==> (#[trigger] items.deep_view()[i]).well_formed(),
    {
        let mut out: Vec<Wire> = Vec::new();
        let mut i: usize = 0;
        while i < items.len()
            invariant
                i <= items.len(),
                out.len() == i,
                forall|j: int| 0 <= j < i ==>
                    (#[trigger] out[j])@ == items.deep_view()[j].to_wire(),
                forall|j: int| 0 <= j < i ==> (#[trigger] items.deep_view()[j]).well_formed(),
            decreases items.len() - i,
        {
            out.push(items[i].encode());
            i += 1;
        }
        let w = Wire::list(out);
        assert(w@->List_0 =~= QualifierView::list_to_wire(items.deep_view())->List_0);
        w
    }

    /// The values that the list `w` stands for. The first item that stands
    /// for none decides the failure.
    pub fn decode_list(w: &Wire) -> (r: Result<Vec<Qualifier>, DecodeError>)
        ensures
            outcome(r) == QualifierView::list_from_wire(w@),
    {
        let items = match w.items() {
            Some(items) => items,
            None => {
                return Err(DecodeError::new(DecodeFault::ExpectedList));
            },
        };
        let mut out: Vec<Qualifier> = Vec::new();
        let mut i: usize = 0;
        assert(Seq::<QualifierView>::empty() + QualifierView::list_from_items(items.deep_view(),
            0)->Ok_0
            =~= QualifierView::list_from_items(items.deep_view(), 0)->Ok_0);
        while i < items.len()
            invariant
                i <= items.len(),
                w@ == WireView::List(items.deep_view()),
                QualifierView::list_from_items(items.deep_view(), 0) ==
                    (match QualifierView::list_from_items(
                    items.deep_view(),
                    i as nat,
                ) {
                    Ok(rest) => Ok(out.deep_view() + rest),
                    Err(e) => Err(e),
                }),
            decreases items.len() - i,
        {
            let ghost before = out.deep_view();
            match Qualifier::decode(&items[i]) {
                Ok(v) => {
                    out.push(v);
                    proof {
                        let rest = QualifierView::list_from_items(items.deep_view(),
                            (i + 1) as nat);
                        if rest is Ok {
                            assert(out.deep_view() + rest->Ok_0 =~= before + (seq![
                                v@] + rest->Ok_0));
                        }
                    }
                },
                Err(e) => {
                    return Err(e.under_index(i));
                },
            }
            i += 1;
        }
        assert(out.deep_view() + Seq::<QualifierView>::empty() =~= out.deep_view());
        Ok(out)
    }

    /// A copy of each of the values, in their order.
    pub fn clone_list(items: &Vec<Qualifier>) -> (r: Vec<Qualifier>)
        ensures
            r.deep_view() == items.deep_view(),
    {
        let mut out: Vec<Qualifier> = Vec::new();
        let mut i: usize = 0;
        while i < items.len()
            invariant
                i <= items.len(),
                out.len() == i,
                forall|j: int| 0 <= j < i ==> (#[trigger] out[j])@ == items[j]@,
            decreases items.len() - i,
        {
            out.push(items[i].clone());
            i += 1;
        }
        assert(out.deep_view() =~= items.deep_view());
        out
    }
}

} // verus!
