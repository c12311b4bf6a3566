use vstd::prelude::*;
use crate::error::ModelError;
use crate::names::lemma_name_codes;
use crate::structs::reference::{Reference, ReferenceView};
use crate::traits::has_semantics::{SemanticsAspect, THasSemantics};
use crate::wire::{
    add_member,
    decode_text,
    encode_text,
    fail,
    fail_at,
    find,
    find_present,
    in_field,
    lemma_lookup_push,
    lookup,
    member,
    optional,
    outcome,
    present,
    tagged,
    text_decode,
    text_encode,
    DecodeError,
    DecodeErrorView,
    DecodeFault,
    Field,
    FieldView,
    PathStepView,
    Wire,
    WireView,
};

verus! {

/// A specific asset ID describes a generic supplementary identifying attribute of the asset.
/// The specific asset ID is not necessarily globally unique.
#[derive(Debug, PartialEq)]
pub struct SpecificAssetId {
    /// The name of the asset identifier.
    name: String,
    /// The value of the specific asset identifier with the corresponding name.
    value: String,
    /// The unique ID of the (external) subject the specific asset ID value belongs to.
    external_subject_id: Option<Reference>,
    /// The identifier of the semantic definition of the element, its main semantic ID.
    semantic_id: Option<Reference>,
    /// The identifiers of supplemental semantic definitions of the element.
    supplemental_semantic_ids: Vec<Reference>,
}

/// The mathematical form of a [`SpecificAssetId`].
#[verifier::ext_equal]
pub struct SpecificAssetIdView {
    pub name: Seq<char>,
    pub value: Seq<char>,
    pub external_subject_id: Option<ReferenceView>,
    pub semantic_id: Option<ReferenceView>,
    pub supplemental_semantic_ids: Seq<ReferenceView>,
}

impl View for SpecificAssetId {
    type V = SpecificAssetIdView;

    closed spec fn view(&self) -> SpecificAssetIdView {
        SpecificAssetIdView {
            name: self.name@,
            value: self.value@,
            external_subject_id: self.external_subject_id.deep_view(),
            semantic_id: self.semantic_id.deep_view(),
            supplemental_semantic_ids: self.supplemental_semantic_ids.deep_view(),
        }
    }
}

impl DeepView for SpecificAssetId {
    type V = SpecificAssetIdView;

    open spec fn deep_view(&self) -> SpecificAssetIdView {
        self@
    }
}

impl Clone for SpecificAssetId {
    fn clone(&self) -> (r: SpecificAssetId)
        ensures
            r@ == self@,
    {
        SpecificAssetId {
            name: self.name.clone(),
            value: self.value.clone(),
            external_subject_id: match &self.external_subject_id {
                Some(v) => Some(v.clone()),
                None => None,
            },
            semantic_id: match &self.semantic_id {
                Some(v) => Some(v.clone()),
                None => None,
            },
            supplemental_semantic_ids: Reference::clone_list(&self.supplemental_semantic_ids),
        }
    }
}

impl SpecificAssetId {
    /// Creates a specific asset ID from what it must have; everything else is
    /// absent or empty.
    pub fn new(name: String, value: String) -> (r: SpecificAssetId)
        ensures
            r@ == (SpecificAssetIdView {
                name: name@,
                value: value@,
                external_subject_id: None,
                semantic_id: None,
                supplemental_semantic_ids: Seq::empty(),
            }),
    {
        SpecificAssetId {
            name,
            value,
            external_subject_id: None,
            semantic_id: None,
            supplemental_semantic_ids: Vec::new(),
        }
    }

    /// Sets the name of the asset identifier.
    pub fn set_name(&mut self, name: String)
        ensures
            final(self)@ == (SpecificAssetIdView { name: name@, ..old(self)@ }),
    {
        self.name = name;
    }

    /// Returns the name of the asset identifier.
    pub fn get_name(&self) -> (r: &String)
        ensures
            r@ == self@.name,
    {
        &self.name
    }

    /// Returns the name of the asset identifier, open to change.
    pub fn get_mut_name(&mut self) -> (r: &mut String)
        ensures
            r@ == old(self)@.name,
            final(self)@ == (SpecificAssetIdView { name: final(r)@, ..old(self)@ }),
    {
        &mut self.name
    }

    /// Sets the value of the specific asset identifier with the corresponding name.
    pub fn set_value(&mut self, value: String)
        ensures
            final(self)@ == (SpecificAssetIdView { value: value@, ..old(self)@ }),
    {
        self.value = value;
    }

    /// Returns the value of the specific asset identifier with the corresponding name.
    pub fn get_value(&self) -> (r: &String)
        ensures
            r@ == self@.value,
    {
        &self.value
    }

    /// Returns the value of the specific asset identifier with the corresponding name, open to
    /// change.
    pub fn get_mut_value(&mut self) -> (r: &mut String)
        ensures
            r@ == old(self)@.value,
            final(self)@ == (SpecificAssetIdView { value: final(r)@, ..old(self)@ }),
    {
        &mut self.value
    }

    /// Sets the unique ID of the (external) subject the specific asset ID value belongs to.
    pub fn set_external_subject_id(&mut self, external_subject_id: Reference)
        ensures
            final(self)@ ==
                (SpecificAssetIdView { external_subject_id: Some(external_subject_id@),
                ..old(self)@ }),
    {
        self.external_subject_id = Some(external_subject_id);
    }

    /// Returns the unique ID of the (external) subject the specific asset ID value belongs to, if
    /// there is one.
    pub fn get_external_subject_id(&self) -> (r: Option<&Reference>)
        ensures
            r.deep_view() == self@.external_subject_id,
    {
        self.external_subject_id.as_ref()
    }

    /// Returns the unique ID of the (external) subject the specific asset ID value belongs to, open
    /// to change, if there is one.
    pub fn get_mut_external_subject_id(&mut self) -> (r: Option<&mut Reference>)
        ensures
            match r {
                Some(m) => old(self)@.external_subject_id == Some(m@)
                    && final(self)@ ==
                    (SpecificAssetIdView { external_subject_id: Some(final(m)@),
                    ..old(self)@ }),
                None => old(self)@.external_subject_id is None && final(self)@ == old(self)@,
            },
    {
        self.external_subject_id.as_mut()
    }
}

impl THasSemantics for SpecificAssetId {
    open spec fn semantics(&self) -> SemanticsAspect {
        SemanticsAspect {
            semantic_id: self@.semantic_id,
            supplemental_semantic_ids: self@.supplemental_semantic_ids,
        }
    }

    fn set_semantic_id(&mut self, semantic_id: Reference)
        ensures
            final(self)@ == (SpecificAssetIdView { semantic_id: Some(semantic_id@), ..old(self)@ }),
    {
        self.semantic_id = Some(semantic_id);
    }

    fn get_semantic_id(&self) -> (r: Option<&Reference>) {
        self.semantic_id.as_ref()
    }

    fn get_mut_semantic_id(&mut self) -> (r: Option<&mut Reference>)
        ensures
            match r {
                Some(m) =>
                    final(self)@ ==
                    (SpecificAssetIdView { semantic_id: Some(final(m)@), ..old(self)@ }),
                None => final(self)@ == old(self)@,
            },
    {
        self.semantic_id.as_mut()
    }

    fn set_supplemental_semantic_ids(&mut self, supplemental_semantic_ids: Vec<Reference>)
        ensures
            final(self)@ ==
                (SpecificAssetIdView {
                supplemental_semantic_ids: supplemental_semantic_ids.deep_view(),
                ..old(self)@ }),
    {
        self.supplemental_semantic_ids = supplemental_semantic_ids;
    }

    fn get_supplemental_semantic_ids(&self) -> (r: &Vec<Reference>) {
        &self.supplemental_semantic_ids
    }

    fn get_mut_supplemental_semantic_ids(&mut self) -> (r: &mut Vec<Reference>)
        ensures
            final(self)@ ==
                (SpecificAssetIdView { supplemental_semantic_ids: final(r).deep_view(),
                ..old(self)@ }),
    {
        &mut self.supplemental_semantic_ids
    }

    fn add_supplemental_semantic_id(&mut self, supplemental_semantic_id: Reference)
        ensures
            final(self)@ ==
                (SpecificAssetIdView {
                supplemental_semantic_ids: old(self)@.supplemental_semantic_ids.push(
                supplemental_semantic_id@), ..old(self)@ }),
    {
        self.supplemental_semantic_ids.push(supplemental_semantic_id);
    }

    fn remove_supplemental_semantic_id(&mut self, index: usize) -> (r: Result<Reference,
        ModelError>)
        ensures
            match r {
                Ok(item) =>
                    final(self)@ ==
                    (SpecificAssetIdView {
                    supplemental_semantic_ids: old(self)@.supplemental_semantic_ids.remove(
                    index as int), ..old(self)@ }),
                Err(e) => final(self)@ == old(self)@,
            },
    {
        if index < self.supplemental_semantic_ids.len() {
            Ok(self.supplemental_semantic_ids.remove(index))
        } else {
            Err(ModelError::IndexOutOfRange)
        }
    }
}

impl SpecificAssetIdView {
    /// The same value with what it carries of the aspect replaced.
    pub open spec fn with_semantics(self, aspect: SemanticsAspect) -> SpecificAssetIdView {
        SpecificAssetIdView {
            semantic_id: aspect.semantic_id,
            supplemental_semantic_ids: aspect.supplemental_semantic_ids,
            ..self
        }
    }

    /// Whether every reference in the value is well formed.
    pub open spec fn well_formed(self) -> bool {
        &&& (self.external_subject_id matches Some(v) ==> v.well_formed())
        &&& (self.semantic_id matches Some(v) ==> v.well_formed())
        &&& (forall|i: int| 0 <= i < self.supplemental_semantic_ids.len() ==>
            (#[trigger] self.supplemental_semantic_ids[i]).well_formed())
    }

    /// The members of a record that begins with `before` and goes on with
    /// the members of the value, in their order.
    #[verifier::opaque]
    pub open spec fn members_after(self, before: Seq<FieldView>) -> Seq<FieldView> {
        before
            .push(member("name"@, text_encode(self.name)))
            .push(member("value"@, text_encode(self.value)))
            .push(member("externalSubjectId"@,
                ReferenceView::optional_to_wire(self.external_subject_id)))
            .push(member("semanticId"@, ReferenceView::optional_to_wire(self.semantic_id)))
            .push(member("supplementalSemanticIds"@,
                ReferenceView::list_to_wire(self.supplemental_semantic_ids)))
    }

    /// The value on the wire: the record of its members.
    pub open spec fn to_wire(self) -> WireView {
        WireView::Record(self.members_after(Seq::empty()))
    }

    /// The value that the members of a record stand for. Members of other
    /// names are passed over; of two members of one name the first counts;
    /// the first member in the order above that cannot be decoded decides
    /// the failure.
    #[verifier::opaque]
    pub open spec fn from_members(fields: Seq<FieldView>) -> Result<SpecificAssetIdView,
        DecodeErrorView> {
        let name = match lookup(fields, "name"@) {
            None => Err(fail_at(DecodeFault::MissingField, "name"@)),
            Some(x) => in_field("name"@, text_decode(x)),
        };
        let value = match lookup(fields, "value"@) {
            None => Err(fail_at(DecodeFault::MissingField, "value"@)),
            Some(x) => in_field("value"@, text_decode(x)),
        };
        let external_subject_id = match present(fields, "externalSubjectId"@) {
            None => Ok(None),
            Some(x) => optional(in_field("externalSubjectId"@, ReferenceView::from_wire(x))),
        };
        let semantic_id = match present(fields, "semanticId"@) {
            None => Ok(None),
            Some(x) => optional(in_field("semanticId"@, ReferenceView::from_wire(x))),
        };
        let supplemental_semantic_ids = match lookup(fields, "supplementalSemanticIds"@) {
            None => Err(fail_at(DecodeFault::MissingField, "supplementalSemanticIds"@)),
            Some(x) => in_field("supplementalSemanticIds"@, ReferenceView::list_from_wire(x)),
        };
        if name is Err {
            Err(name->Err_0)
        } else if value is Err {
            Err(value->Err_0)
        } else if external_subject_id is Err {
            Err(external_subject_id->Err_0)
        } else if semantic_id is Err {
            Err(semantic_id->Err_0)
        } else if supplemental_semantic_ids is Err {
            Err(supplemental_semantic_ids->Err_0)
        } else {
            Ok(SpecificAssetIdView {
                name: name->Ok_0,
                value: value->Ok_0,
                external_subject_id: external_subject_id->Ok_0,
                semantic_id: semantic_id->Ok_0,
                supplemental_semantic_ids: supplemental_semantic_ids->Ok_0,
            })
        }
    }

    /// The value that a wire value stands for.
    pub open spec fn from_wire(w: WireView) -> Result<SpecificAssetIdView, DecodeErrorView> {
        match w {
            WireView::Record(fields) => SpecificAssetIdView::from_members(fields),
            _ => Err(fail(DecodeFault::ExpectedRecord)),
        }
    }

    /// A list of values on the wire: the values in their order.
    pub open spec fn list_to_wire(items: Seq<SpecificAssetIdView>) -> WireView {
        WireView::List(
            Seq::new(
                items.len(),
                |i: int|
                    if 0 <= i < items.len() {
                        items[i].to_wire()
                    } else {
                        WireView::Null
                    },
            ),
        )
    }

    /// The values that the items from position `start` on stand for. The first
    /// item that stands for none decides the failure.
    pub open spec fn list_from_items(items: Seq<WireView>, start: nat) -> Result<
        Seq<SpecificAssetIdView>,
        DecodeErrorView,
    >
        decreases items.len() - start,
    {
        if start >= items.len() {
            Ok(Seq::empty())
        } else {
            match SpecificAssetIdView::from_wire(items[start as int]) {
                Err(e) => Err(e.under(PathStepView::Index(start as int))),
                Ok(v) => match SpecificAssetIdView::list_from_items(items, start + 1) {
                    Ok(rest) => Ok(seq![v] + rest),
                    Err(e) => Err(e),
                },
            }
        }
    }

    /// The values that a list on the wire stands for.
    pub open spec fn list_from_wire(w: WireView) -> Result<Seq<SpecificAssetIdView>,
        DecodeErrorView> {
        match w {
            WireView::List(items) => SpecificAssetIdView::list_from_items(items, 0),
            _ => Err(fail(DecodeFault::ExpectedList)),
        }
    }

    /// The members of the value hide no type name that the record begins with.
    pub proof fn lemma_model_type_kept(self, tag: Option<Seq<char>>)
        ensures
            lookup(self.members_after(tagged(tag)), "modelType"@) == lookup(
                tagged(tag),
                "modelType"@,
            ),
    {
        broadcast use lemma_lookup_push;

        reveal(SpecificAssetIdView::members_after);
        lemma_name_codes();
    }

    /// The value is found again from the members of its record, whether the
    /// record begins with a type name or not.
    pub proof fn lemma_members_round_trip(self, tag: Option<Seq<char>>)
        requires
            self.well_formed(),
        ensures
            SpecificAssetIdView::from_members(self.members_after(tagged(tag))) ==
                Ok::<SpecificAssetIdView, DecodeErrorView>(
                self,
            ),
    {
        broadcast use lemma_lookup_push;

        reveal(SpecificAssetIdView::members_after);
        reveal(SpecificAssetIdView::from_members);
        lemma_name_codes();
        match self.external_subject_id {
            Some(v) => {
                v.lemma_round_trip();
            },
            None => {},
        }
        match self.semantic_id {
            Some(v) => {
                v.lemma_round_trip();
            },
            None => {},
        }
        ReferenceView::lemma_list_round_trip(self.supplemental_semantic_ids);
    }

    /// Every value is found again from what it is on the wire.
    pub proof fn lemma_round_trip(self)
        requires
            self.well_formed(),
        ensures
            SpecificAssetIdView::from_wire(self.to_wire()) ==
                Ok::<SpecificAssetIdView, DecodeErrorView>(self),
    {
        self.lemma_members_round_trip(None);
    }

    /// The values from position `start` on are found again from the items that
    /// stand for them.
    pub proof fn lemma_list_items_round_trip(items: Seq<SpecificAssetIdView>, start: nat)
        requires
            forall|i: int| 0 <= i < items.len() ==> (#[trigger] items[i]).well_formed(),
            start <= items.len(),
        ensures
            SpecificAssetIdView::list_from_items(SpecificAssetIdView::list_to_wire(items)->List_0,
                start) == Ok::<
                Seq<SpecificAssetIdView>,
                DecodeErrorView,
            >(items.skip(start as int)),
        decreases items.len() - start,
    {
        if start >= items.len() {
            assert(items.skip(start as int) =~= Seq::empty());
        } else {
            items[start as int].lemma_round_trip();
            SpecificAssetIdView::lemma_list_items_round_trip(items, start + 1);
            assert(seq![items[start as int]] + items.skip(start as int + 1) =~= items.skip(
                start as int));
        }
    }

    /// Every list of values is found again from what it is on the wire.
    pub proof fn lemma_list_round_trip(items: Seq<SpecificAssetIdView>)
        requires
            forall|i: int| 0 <= i < items.len() ==> (#[trigger] items[i]).well_formed(),
        ensures
            SpecificAssetIdView::list_from_wire(SpecificAssetIdView::list_to_wire(items)) == Ok::<
                Seq<SpecificAssetIdView>,
                DecodeErrorView,
            >(items),
    {
        SpecificAssetIdView::lemma_list_items_round_trip(items, 0);
        assert(items.skip(0) =~= items);
    }
}

impl SpecificAssetId {
    /// The value as it travels: the record of its members. What comes out
    /// decodes to the same value again.
    pub fn encode(&self) -> (w: Wire)
        ensures
            w@ == self@.to_wire(),
            self@.well_formed(),
            SpecificAssetIdView::from_wire(w@) == Ok::<SpecificAssetIdView, DecodeErrorView>(self@),
    {
        let mut fields: Vec<Field> = Vec::new();
        assert(fields.deep_view() =~= Seq::<FieldView>::empty());
        self.encode_members(&mut fields);
        proof {
            self@.lemma_round_trip();
        }
        Wire::record(fields)
    }

    /// Appends the members of the value, as they travel, to `fields`.
    pub fn encode_members(&self, fields: &mut Vec<Field>)
        ensures
            final(fields).deep_view() == self@.members_after(old(fields).deep_view()),
            self@.well_formed(),
    {
        reveal(SpecificAssetIdView::members_after);
        add_member(fields, "name", encode_text(&self.name));
        add_member(fields, "value", encode_text(&self.value));
        add_member(fields, "externalSubjectId",
            Reference::encode_optional(&self.external_subject_id));
        add_member(fields, "semanticId", Reference::encode_optional(&self.semantic_id));
        add_member(fields, "supplementalSemanticIds",
            Reference::encode_list(&self.supplemental_semantic_ids));
    }

    /// The value that `w` stands for.
    pub fn decode(w: &Wire) -> (r: Result<SpecificAssetId, DecodeError>)
        ensures
            outcome(r) == SpecificAssetIdView::from_wire(w@),
    {
        match w.members() {
            Some(fields) => SpecificAssetId::decode_members(fields),
            None => Err(DecodeError::new(DecodeFault::ExpectedRecord)),
        }
    }

    /// The value that the members `fields` of a record stand for.
    pub fn decode_members(fields: &Vec<Field>) -> (r: Result<SpecificAssetId, DecodeError>)
        ensures
            outcome(r) == SpecificAssetIdView::from_members(fields.deep_view()),
    {
        reveal(SpecificAssetIdView::from_members);
        let name = match find(fields, "name") {
            None => Err(DecodeError::at(DecodeFault::MissingField, "name")),
            Some(x) => match decode_text(x) {
                Ok(v) => Ok(v),
                Err(e) => Err(e.under_field("name")),
            },
        };
        let value = match find(fields, "value") {
            None => Err(DecodeError::at(DecodeFault::MissingField, "value")),
            Some(x) => match decode_text(x) {
                Ok(v) => Ok(v),
                Err(e) => Err(e.under_field("value")),
            },
        };
        let external_subject_id = match find_present(fields, "externalSubjectId") {
            None => Ok(None),
            Some(x) => match Reference::decode(x) {
                Ok(v) => Ok(Some(v)),
                Err(e) => Err(e.under_field("externalSubjectId")),
            },
        };
        let semantic_id = match find_present(fields, "semanticId") {
            None => Ok(None),
            Some(x) => match Reference::decode(x) {
                Ok(v) => Ok(Some(v)),
                Err(e) => Err(e.under_field("semanticId")),
            },
        };
        let supplemental_semantic_ids = match find(fields, "supplementalSemanticIds") {
            None => Err(DecodeError::at(DecodeFault::MissingField, "supplementalSemanticIds")),
            Some(x) => match Reference::decode_list(x) {
                Ok(v) => Ok(v),
                Err(e) => Err(e.under_field("supplementalSemanticIds")),
            },
        };
        let name = match name {
            Ok(v) => v,
            Err(e) => {
                return Err(e);
            },
        };
        let value = match value {
            Ok(v) => v,
            Err(e) => {
                return Err(e);
            },
        };
        let external_subject_id = match external_subject_id {
            Ok(v) => v,
            Err(e) => {
                return Err(e);
            },
        };
        let semantic_id = match semantic_id {
            Ok(v) => v,
            Err(e) => {
                return Err(e);
            },
        };
        let supplemental_semantic_ids = match supplemental_semantic_ids {
            Ok(v) => v,
            Err(e) => {
                return Err(e);
            },
        };
        let r = SpecificAssetId { name, value, external_subject_id, semantic_id,
            supplemental_semantic_ids };
        assert(r@ =~= SpecificAssetIdView::from_members(fields.deep_view())->Ok_0);
        Ok(r)
    }

    /// The values as they travel: a list, in their order.
    pub fn encode_list(items: &Vec<SpecificAssetId>) -> (w: Wire)
        ensures
            w@ == SpecificAssetIdView::list_to_wire(items.deep_view()),
            forall|i: int| 0 <= i < items.len() ==> (#[trigger] items.deep_view()[i]).well_formed(),
    {
        let mut out: Vec<Wire> = Vec::new();
        let mut i: usize = 0;
        while i < items.len()
            invariant
                i <= items.len(),
                out.len() == i,
                forall|j: int| 0 <= j < i ==>
                    (#[trigger] out[j])@ == items.deep_view()[j].to_wire(),
                forall|j: int| 0 <= j < i ==> (#[trigger] items.deep_view()[j]).well_formed(),
            decreases items.len() - i,
        {
            out.push(items[i].encode());
            i += 1;
        }
        let w = Wire::list(out);
        assert(w@->List_0 =~= SpecificAssetIdView::list_to_wire(items.deep_view())->List_0);
        w
    }

    /// The values that the list `w` stands for. The first item that stands
    /// for none decides the failure.
    pub fn decode_list(w: &Wire) -> (r: Result<Vec<SpecificAssetId>, DecodeError>)
        ensures
            outcome(r) == SpecificAssetIdView::list_from_wire(w@),
    {
        let items = match w.items() {
            Some(items) => items,
            None => {
                return Err(DecodeError::new(DecodeFault::ExpectedList));
            },
        };
        let mut out: Vec<SpecificAssetId> = Vec::new();
        let mut i: usize = 0;
        assert(Seq::<SpecificAssetIdView>::empty() + SpecificAssetIdView::list_from_items(
            items.deep_view(), 0)->Ok_0
            =~= SpecificAssetIdView::list_from_items(items.deep_view(), 0)->Ok_0);
        while i < items.len()
            invariant
                i <= items.len(),
                w@ == WireView::List(items.deep_view()),
                SpecificAssetIdView::list_from_items(items.deep_view(), 0) ==
                    (match SpecificAssetIdView::list_from_items(
                    items.deep_view(),
                    i as nat,
                ) {
                    Ok(rest) => Ok(out.deep_view() + rest),
                    Err(e) => Err(e),
                }),
            decreases items.len() - i,
        {
            let ghost before = out.deep_view();
            match SpecificAssetId::decode(&items[i]) {
                Ok(v) => {
                    out.push(v);
                    proof {
                        let rest = SpecificAssetIdView::list_from_items(items.deep_view(),
                            (i + 1) as nat);
                        if rest is Ok {
                            assert(out.deep_view() + rest->Ok_0 =~= before + (seq![
                                v@] + rest->Ok_0));
                        }
                    }
                },
                Err(e) => {
                    return Err(e.under_index(i));
                },
            }
            i += 1;
        }
        assert(out.deep_view() + Seq::<SpecificAssetIdView>::empty() =~= out.deep_view());
        Ok(out)
    }

    /// A copy of each of the values, in their order.
    pub fn clone_list(items: &Vec<SpecificAssetId>) -> (r: Vec<SpecificAssetId>)
        ensures
            r.deep_view() == items.deep_view(),
    {
        let mut out: Vec<SpecificAssetId> = Vec::new();
        let mut i: usize = 0;
        while i < items.len()
            invariant
                i <= items.len(),
                out.len() == i,
                forall|j: int| 0 <= j < i ==> (#[trigger] out[j])@ == items[j]@,
            decreases items.len() - i,
        {
            out.push(items[i].clone());
            i += 1;
        }
        assert(out.deep_view() =~= items.deep_view());
        out
    }
}

} // verus!
