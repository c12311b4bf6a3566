use vstd::prelude::*;
use crate::enumerations::reference_type::ReferenceType;
use crate::error::ModelError;
use crate::names::lemma_name_codes;
use crate::structs::key::{Key, KeyView};
use crate::wire::{
    add_member,
    fail,
    fail_at,
    find,
    find_present,
    in_field,
    lemma_lookup_push,
    lemma_lookup_smaller,
    lookup,
    member,
    outcome,
    present,
    tagged,
    DecodeError,
    DecodeErrorView,
    DecodeFault,
    Field,
    FieldView,
    PathStepView,
    Wire,
    WireView,
};

verus! {

/// A reference to an element inside the document or to something outside
/// it: a path of keys.
///
/// A reference always has at least one key, and the first key of a model
/// reference names a root of the document: a shell, a submodel or a concept
/// description. No reference that breaks this can be made or reached.
#[derive(Debug, PartialEq)]
pub struct Reference {
    /// Whether the reference points out of the document or into it.
    reference_type: ReferenceType,
    /// The semantic ID of the element that is referred to.
    referred_semantic_id: Option<Box<Reference>>,
    /// The path: each key after the first descends one level into the
    /// children of the element that the key before it names.
    keys: Vec<Key>,
}

/// The mathematical form of a [`Reference`].
#[verifier::ext_equal]
pub struct ReferenceView {
    pub reference_type: ReferenceType,
    pub referred_semantic_id: Option<Box<ReferenceView>>,
    pub keys: Seq<KeyView>,
}

/// Whether `keys` can be the path of a reference of the type
/// `reference_type`: there is a key, and for a model reference the first key
/// names a root of the document.
pub open spec fn keys_admissible(reference_type: ReferenceType, keys: Seq<KeyView>) -> bool {
    &&& keys.len() > 0
    &&& reference_type == ReferenceType::ModelReference ==> keys[0].key_type.is_root()
}

/// Whether the key at position `i` of `keys` can follow the key before it,
/// going by the kinds of the two keys alone.
pub open spec fn step_fits(keys: Seq<KeyView>, i: int) -> bool {
    keys[i - 1].key_type.admits_child(keys[i].key_type)
}

impl View for Reference {
    type V = ReferenceView;

    closed spec fn view(&self) -> ReferenceView
        decreases self,
    {
        ReferenceView {
            reference_type: self.reference_type,
            referred_semantic_id: match self.referred_semantic_id {
                Some(r) => Some(Box::new((*r)@)),
                None => None,
            },
            keys: self.keys.deep_view(),
        }
    }
}

impl DeepView for Reference {
    type V = ReferenceView;

    open spec fn deep_view(&self) -> ReferenceView {
        self@
    }
}

impl Clone for Reference {
    fn clone(&self) -> (r: Reference)
        ensures
            r@ == self@,
        decreases self,
    {
        proof {
            use_type_invariant(self);
        }
        Reference {
            reference_type: self.reference_type,
            referred_semantic_id: match &self.referred_semantic_id {
                Some(r) => Some(Box::new((**r).clone())),
                None => None,
            },
            keys: Key::clone_list(&self.keys),
        }
    }
}

/// Whether `keys` can be the path of a reference of the type `reference_type`.
fn admits(reference_type: ReferenceType, keys: &Vec<Key>) -> (b: bool)
    ensures
        b == keys_admissible(reference_type, keys.deep_view()),
{
    if keys.len() == 0 {
        false
    } else {
        match reference_type {
            ReferenceType::ModelReference => keys[0].get_key_type().is_root_kind(),
            ReferenceType::ExternalReference => true,
        }
    }
}

impl Reference {
    #[verifier::type_invariant]
    closed spec fn admissible(&self) -> bool {
        keys_admissible(self.reference_type, self.keys.deep_view())
    }

    /// Creates a reference of the given type with the given path and no
    /// referred semantic ID. A path without keys is refused, and so is the
    /// path of a model reference whose first key names no root.
    pub fn new(reference_type: ReferenceType, keys: Vec<Key>) -> (r: Result<Reference, ModelError>)
        ensures
            match r {
                Ok(x) => keys_admissible(reference_type, keys.deep_view()) && x@ == (ReferenceView {
                    reference_type,
                    referred_semantic_id: None,
                    keys: keys.deep_view(),
                }),
                Err(e) => !keys_admissible(reference_type, keys.deep_view()) && e
                    == ModelError::InvalidReference,
            },
    {
        if admits(reference_type, &keys) {
            Ok(Reference { reference_type, referred_semantic_id: None, keys })
        } else {
            Err(ModelError::InvalidReference)
        }
    }

    /// Sets the type of the reference. Where the path cannot be that of a
    /// reference of the new type, nothing changes and the edit is refused.
    pub fn set_reference_type(&mut self, reference_type: ReferenceType) -> (r: Result<
        (),
        ModelError,
    >)
        ensures
            match r {
                Ok(_) => keys_admissible(reference_type, old(self)@.keys)
                    && final(self)@ == (ReferenceView { reference_type, ..old(self)@ }),
                Err(e) => !keys_admissible(reference_type, old(self)@.keys) && e
                    == ModelError::InvalidReference && final(self)@ == old(self)@,
            },
    {
        if admits(reference_type, &self.keys) {
            self.reference_type = reference_type;
            Ok(())
        } else {
            Err(ModelError::InvalidReference)
        }
    }

    /// Returns the type of the reference.
    pub fn get_reference_type(&self) -> (r: &ReferenceType)
        ensures
            *r == self@.reference_type,
    {
        &self.reference_type
    }

    /// Sets the semantic ID of the element that is referred to.
    pub fn set_referred_semantic_id(&mut self, referred_semantic_id: Box<Reference>)
        ensures
            final(self)@ == (ReferenceView {
                referred_semantic_id: Some(Box::new(referred_semantic_id@)),
                ..old(self)@
            }),
    {
        proof {
            use_type_invariant(&*self);
        }
        self.referred_semantic_id = Some(referred_semantic_id);
    }

    /// Returns the semantic ID of the element that is referred to, if there
    /// is one.
    pub fn get_referred_semantic_id(&self) -> (r: Option<&Reference>)
        ensures
            match r {
                Some(x) => self@.referred_semantic_id == Some(Box::new(x@)),
                None => self@.referred_semantic_id is None,
            },
    {
        match &self.referred_semantic_id {
            Some(r) => Some(&**r),
            None => None,
        }
    }

    /// Sets the path of the reference. Where `keys` cannot be the path of a
    /// reference of this type, nothing changes and the edit is refused.
    pub fn set_keys(&mut self, keys: Vec<Key>) -> (r: Result<(), ModelError>)
        ensures
            match r {
                Ok(_) => keys_admissible(old(self)@.reference_type, keys.deep_view())
                    && final(self)@ == (ReferenceView { keys: keys.deep_view(), ..old(self)@ }),
                Err(e) => !keys_admissible(old(self)@.reference_type, keys.deep_view()) && e
                    == ModelError::InvalidReference && final(self)@ == old(self)@,
            },
    {
        if admits(self.reference_type, &keys) {
            self.keys = keys;
            Ok(())
        } else {
            Err(ModelError::InvalidReference)
        }
    }

    /// Returns the path of the reference. It is never empty.
    pub fn get_keys(&self) -> (r: &Vec<Key>)
        ensures
            r.deep_view() == self@.keys,
            keys_admissible(self@.reference_type, self@.keys),
    {
        proof {
            use_type_invariant(self);
        }
        &self.keys
    }

    /// Adds a key at the end of the path.
    pub fn add_key(&mut self, key: Key)
        ensures
            final(self)@ == (ReferenceView { keys: old(self)@.keys.push(key@), ..old(self)@ }),
    {
        proof {
            use_type_invariant(&*self);
        }
        let mut keys = Key::clone_list(&self.keys);
        keys.push(key);
        self.keys = keys;
    }

    /// Removes and returns the key at position `index`. Where there is none,
    /// nothing changes and the index is reported as out of range. Where the
    /// rest could not be the path of this reference, nothing changes and the
    /// edit is refused.
    pub fn remove_key(&mut self, index: usize) -> (r: Result<Key, ModelError>)
        ensures
            match r {
                Ok(key) => index < old(self)@.keys.len() && keys_admissible(
                    old(self)@.reference_type,
                    old(self)@.keys.remove(index as int),
                ) && key@ == old(self)@.keys[index as int] && final(self)@ == (ReferenceView {
                    keys: old(self)@.keys.remove(index as int),
                    ..old(self)@
                }),
                Err(e) => final(self)@ == old(self)@ && (if index >= old(self)@.keys.len() {
                    e == ModelError::IndexOutOfRange
                } else {
                    e == ModelError::InvalidReference && !keys_admissible(
                        old(self)@.reference_type,
                        old(self)@.keys.remove(index as int),
                    )
                }),
            },
    {
        proof {
            use_type_invariant(&*self);
        }
        if index >= self.keys.len() {
            return Err(ModelError::IndexOutOfRange);
        }
        if self.keys.len() < 2 {
            return Err(ModelError::InvalidReference);
        }
        if index == 0 {
            let next_is_root = self.keys[1].get_key_type().is_root_kind();
            match self.reference_type {
                ReferenceType::ModelReference => {
                    if !next_is_root {
                        return Err(ModelError::InvalidReference);
                    }
                },
                ReferenceType::ExternalReference => {},
            }
        }
        let ghost before = self.keys.deep_view();
        let mut keys = Key::clone_list(&self.keys);
        let key = keys.remove(index);
        proof {
            assert(keys.deep_view() =~= before.remove(index as int));
            assert(keys.deep_view()[0] == (if index == 0 {
                before[1]
            } else {
                before[0]
            }));
        }
        self.keys = keys;
        Ok(key)
    }
}

impl Reference {
    /// Whether the path of a model reference descends level by level, going
    /// by the kinds of its keys alone. Whether the elements that the keys name
    /// are there is for a resolver to say, which has the document.
    pub fn path_descends(&self) -> (b: bool)
        ensures
            b == self@.descends(),
    {
        match self.reference_type {
            ReferenceType::ExternalReference => {
                return true;
            },
            ReferenceType::ModelReference => {},
        }
        let mut i: usize = 1;
        while i < self.keys.len()
            invariant
                1 <= i,
                self@.reference_type == ReferenceType::ModelReference,
                self@.keys == self.keys.deep_view(),
                forall|j: int|
                    0 < j < i && j < self.keys.len() ==> #[trigger] step_fits(self@.keys, j),
            decreases self.keys.len() - i,
        {
            let parent = self.keys[i - 1].get_key_type();
            let child = self.keys[i].get_key_type();
            if !parent.admits_child_kind(child) {
                assert(!step_fits(self@.keys, i as int));
                return false;
            }
            i += 1;
        }
        true
    }
}

impl ReferenceView {
    /// Whether the reference and every reference below it has a path that is
    /// admissible for its type.
    pub open spec fn well_formed(self) -> bool
        decreases self, 0nat,
    {
        &&& keys_admissible(self.reference_type, self.keys)
        &&& (self.referred_semantic_id matches Some(r) ==> r.well_formed())
    }

    /// Whether the path of a model reference descends level by level, going
    /// by the kinds of its keys alone: each key after the first is of a kind
    /// that can stand among the children of an element of the kind of the key
    /// before it. The keys of an external reference are opaque to the model,
    /// and this holds of every external reference.
    pub open spec fn descends(self) -> bool {
        self.reference_type == ReferenceType::ModelReference ==> forall|i: int|
            0 < i < self.keys.len() ==> #[trigger] step_fits(self.keys, i)
    }

    /// The members of a record that begins with `before` and goes on with
    /// the members of the value, in their order.
    #[verifier::opaque]
    pub open spec fn members_after(self, before: Seq<FieldView>) -> Seq<FieldView>
        decreases self, 0nat,
    {
        before
            .push(member("type"@, self.reference_type.to_wire()))
            .push(
                member(
                    "referredSemanticId"@,
                    match self.referred_semantic_id {
                        Some(r) => r.to_wire(),
                        None => WireView::Null,
                    },
                ),
            )
            .push(member("keys"@, KeyView::list_to_wire(self.keys)))
    }

    /// The value on the wire: the record of its members.
    pub open spec fn to_wire(self) -> WireView
        decreases self, 1nat,
    {
        WireView::Record(self.members_after(Seq::empty()))
    }

    /// A value that may be absent on the wire: null stands for absence.
    pub open spec fn optional_to_wire(v: Option<ReferenceView>) -> WireView {
        match v {
            Some(v) => v.to_wire(),
            None => WireView::Null,
        }
    }

    /// A list of values on the wire: the values in their order.
    pub open spec fn list_to_wire(items: Seq<ReferenceView>) -> WireView {
        WireView::List(
            Seq::new(
                items.len(),
                |i: int|
                    if 0 <= i < items.len() {
                        items[i].to_wire()
                    } else {
                        WireView::Null
                    },
            ),
        )
    }

    /// The value that the members of a record stand for. Members of other
    /// names are passed over; of two members of one name the first counts;
    /// the first member in the order above that cannot be decoded decides
    /// the failure. A path that is not admissible for the type is refused.
    #[verifier::opaque]
    pub open spec fn from_members(fields: Seq<FieldView>) -> Result<ReferenceView, DecodeErrorView>
        decreases fields, 0nat,
    {
        let reference_type = match lookup(fields, "type"@) {
            None => Err(fail_at(DecodeFault::MissingField, "type"@)),
            Some(x) => in_field("type"@, ReferenceType::from_wire(x)),
        };
        let referred_semantic_id = match present(fields, "referredSemanticId"@) {
            None => Ok(None),
            Some(x) => {
                proof {
                    lemma_lookup_smaller(fields, "referredSemanticId"@);
                }
                match in_field("referredSemanticId"@, ReferenceView::from_wire(x)) {
                    Ok(r) => Ok(Some(Box::new(r))),
                    Err(e) => Err(e),
                }
            },
        };
        let keys = match lookup(fields, "keys"@) {
            None => Err(fail_at(DecodeFault::MissingField, "keys"@)),
            Some(x) => in_field("keys"@, KeyView::list_from_wire(x)),
        };
        if reference_type is Err {
            Err(reference_type->Err_0)
        } else if referred_semantic_id is Err {
            Err(referred_semantic_id->Err_0)
        } else if keys is Err {
            Err(keys->Err_0)
        } else if !keys_admissible(reference_type->Ok_0, keys->Ok_0) {
            Err(fail(DecodeFault::InvalidReference))
        } else {
            Ok(
                ReferenceView {
                    reference_type: reference_type->Ok_0,
                    referred_semantic_id: referred_semantic_id->Ok_0,
                    keys: keys->Ok_0,
                },
            )
        }
    }

    /// The value that a wire value stands for.
    pub open spec fn from_wire(w: WireView) -> Result<ReferenceView, DecodeErrorView>
        decreases w, 1nat,
    {
        match w {
            WireView::Record(fields) => ReferenceView::from_members(fields),
            _ => Err(fail(DecodeFault::ExpectedRecord)),
        }
    }

    /// The values that the items from position `start` on stand for. The first
    /// item that stands for none decides the failure.
    pub open spec fn list_from_items(items: Seq<WireView>, start: nat) -> Result<
        Seq<ReferenceView>,
        DecodeErrorView,
    >
        decreases items.len() - start,
    {
        if start >= items.len() {
            Ok(Seq::empty())
        } else {
            match ReferenceView::from_wire(items[start as int]) {
                Err(e) => Err(e.under(PathStepView::Index(start as int))),
                Ok(v) => match ReferenceView::list_from_items(items, start + 1) {
                    Ok(rest) => Ok(seq![v] + rest),
                    Err(e) => Err(e),
                },
            }
        }
    }

    /// The values that a list on the wire stands for.
    pub open spec fn list_from_wire(w: WireView) -> Result<Seq<ReferenceView>, DecodeErrorView> {
        match w {
            WireView::List(items) => ReferenceView::list_from_items(items, 0),
            _ => Err(fail(DecodeFault::ExpectedList)),
        }
    }

    /// The value is found again from the members of its record, whether the
    /// record begins with a type name or not.
    pub proof fn lemma_members_round_trip(self, tag: Option<Seq<char>>)
        requires
            self.well_formed(),
        ensures
            ReferenceView::from_members(self.members_after(tagged(tag))) == Ok::<
                ReferenceView,
                DecodeErrorView,
            >(self),
            lookup(self.members_after(tagged(tag)), "modelType"@) == lookup(
                tagged(tag),
                "modelType"@,
            ),
        decreases self, 0nat,
    {
        broadcast use lemma_lookup_push;

        reveal(ReferenceView::members_after);
        reveal(ReferenceView::from_members);
        lemma_name_codes();
        self.reference_type.lemma_round_trip();
        match self.referred_semantic_id {
            Some(r) => {
                r.lemma_round_trip();
            },
            None => {},
        }
        KeyView::lemma_list_round_trip(self.keys);
    }

    /// Every well-formed reference is found again from what it is on the
    /// wire: its type, its keys in their order with their types and values,
    /// and what it refers to.
    pub proof fn lemma_round_trip(self)
        requires
            self.well_formed(),
        ensures
            ReferenceView::from_wire(self.to_wire()) == Ok::<ReferenceView, DecodeErrorView>(self),
        decreases self, 1nat,
    {
        reveal(ReferenceView::members_after);
        reveal(ReferenceView::from_members);
        self.lemma_members_round_trip(None);
    }

    /// The references from position `start` on are found again from the items
    /// that stand for them.
    pub proof fn lemma_list_items_round_trip(items: Seq<ReferenceView>, start: nat)
        requires
            forall|i: int| 0 <= i < items.len() ==> (#[trigger] items[i]).well_formed(),
            start <= items.len(),
        ensures
            ReferenceView::list_from_items(ReferenceView::list_to_wire(items)->List_0, start)
                == Ok::<Seq<ReferenceView>, DecodeErrorView>(items.skip(start as int)),
        decreases items.len() - start,
    {
        if start >= items.len() {
            assert(items.skip(start as int) =~= Seq::empty());
        } else {
            items[start as int].lemma_round_trip();
            ReferenceView::lemma_list_items_round_trip(items, start + 1);
            assert(seq![items[start as int]] + items.skip(start as int + 1) =~= items.skip(
                start as int,
            ));
        }
    }

    /// Every list of well-formed references is found again from what it is
    /// on the wire.
    pub proof fn lemma_list_round_trip(items: Seq<ReferenceView>)
        requires
            forall|i: int| 0 <= i < items.len() ==> (#[trigger] items[i]).well_formed(),
        ensures
            ReferenceView::list_from_wire(ReferenceView::list_to_wire(items)) == Ok::<
                Seq<ReferenceView>,
                DecodeErrorView,
            >(items),
    {
        ReferenceView::lemma_list_items_round_trip(items, 0);
        assert(items.skip(0) =~= items);
    }

    /// A reference that was decoded is well formed.
    pub proof fn lemma_decoded_is_well_formed(w: WireView)
        ensures
            ReferenceView::from_wire(w) matches Ok(r) ==> r.well_formed(),
        decreases w,
    {
        reveal(ReferenceView::from_members);
        match w {
            WireView::Record(fields) => {
                match present(fields, "referredSemanticId"@) {
                    Some(x) => {
                        lemma_lookup_smaller(fields, "referredSemanticId"@);
                        ReferenceView::lemma_decoded_is_well_formed(x);
                    },
                    None => {},
                }
            },
            _ => {},
        }
    }
}

impl Reference {
    /// The value as it travels: the record of its members. What comes out
    /// decodes to the same value again.
    pub fn encode(&self) -> (w: Wire)
        ensures
            w@ == self@.to_wire(),
            self@.well_formed(),
            ReferenceView::from_wire(w@) == Ok::<ReferenceView, DecodeErrorView>(self@),
        decreases self, 1nat,
    {
        let mut fields: Vec<Field> = Vec::new();
        assert(fields.deep_view() =~= Seq::<FieldView>::empty());
        self.encode_members(&mut fields);
        proof {
            reveal(ReferenceView::members_after);
            self@.lemma_round_trip();
        }
        Wire::record(fields)
    }

    /// Appends the members of the value, as they travel, to `fields`.
    pub fn encode_members(&self, fields: &mut Vec<Field>)
        ensures
            final(fields).deep_view() == self@.members_after(old(fields).deep_view()),
            self@.well_formed(),
        decreases self, 0nat,
    {
        proof {
            use_type_invariant(self);
            reveal(ReferenceView::members_after);
        }
        add_member(fields, "type", self.reference_type.encode());
        let referred = match &self.referred_semantic_id {
            Some(r) => r.encode(),
            None => Wire::Null,
        };
        add_member(fields, "referredSemanticId", referred);
        add_member(fields, "keys", Key::encode_list(&self.keys));
    }

    /// The value as it travels, or null where there is none.
    pub fn encode_optional(v: &Option<Reference>) -> (w: Wire)
        ensures
            w@ == ReferenceView::optional_to_wire(v.deep_view()),
            v matches Some(x) ==> x@.well_formed(),
    {
        match v {
            Some(v) => v.encode(),
            None => Wire::Null,
        }
    }

    /// The values as they travel: a list, in their order.
    pub fn encode_list(items: &Vec<Reference>) -> (w: Wire)
        ensures
            w@ == ReferenceView::list_to_wire(items.deep_view()),
            forall|i: int| 0 <= i < items.len() ==> (#[trigger] items.deep_view()[i]).well_formed(),
    {
        let mut out: Vec<Wire> = Vec::new();
        let mut i: usize = 0;
        while i < items.len()
            invariant
                i <= items.len(),
                out.len() == i,
                forall|j: int|
                    0 <= j < i ==> (#[trigger] out[j])@ == items.deep_view()[j].to_wire(),
                forall|j: int| 0 <= j < i ==> (#[trigger] items.deep_view()[j]).well_formed(),
            decreases items.len() - i,
        {
            out.push(items[i].encode());
            i += 1;
        }
        let w = Wire::list(out);
        assert(w@->List_0 =~= ReferenceView::list_to_wire(items.deep_view())->List_0);
        w
    }

    /// The value that `w` stands for.
    pub fn decode(w: &Wire) -> (r: Result<Reference, DecodeError>)
        ensures
            outcome(r) == ReferenceView::from_wire(w@),
        decreases w, 1nat,
    {
        proof {
            reveal(ReferenceView::from_members);
        }
        match w.members() {
            Some(fields) => Reference::decode_members(fields),
            None => Err(DecodeError::new(DecodeFault::ExpectedRecord)),
        }
    }

    /// The value that the members `fields` of a record stand for.
    pub fn decode_members(fields: &Vec<Field>) -> (r: Result<Reference, DecodeError>)
        ensures
            outcome(r) == ReferenceView::from_members(fields.deep_view()),
        decreases fields, 0nat,
    {
        proof {
            reveal(ReferenceView::from_members);
        }
        let reference_type = match find(fields, "type") {
            None => {
                return Err(DecodeError::at(DecodeFault::MissingField, "type"));
            },
            Some(x) => match ReferenceType::decode(x) {
                Ok(v) => v,
                Err(e) => {
                    return Err(e.under_field("type"));
                },
            },
        };
        let referred_semantic_id = match find_present(fields, "referredSemanticId") {
            None => None,
            Some(x) => match Reference::decode(x) {
                Ok(v) => Some(Box::new(v)),
                Err(e) => {
                    return Err(e.under_field("referredSemanticId"));
                },
            },
        };
        let keys = match find(fields, "keys") {
            None => {
                return Err(DecodeError::at(DecodeFault::MissingField, "keys"));
            },
            Some(x) => match Key::decode_list(x) {
                Ok(v) => v,
                Err(e) => {
                    return Err(e.under_field("keys"));
                },
            },
        };
        if !admits(reference_type, &keys) {
            return Err(DecodeError::new(DecodeFault::InvalidReference));
        }
        let r = Reference { reference_type, referred_semantic_id, keys };
        assert(r@ =~= ReferenceView::from_members(fields.deep_view())->Ok_0);
        Ok(r)
    }

    /// The values that the list `w` stands for. The first item that stands
    /// for none decides the failure.
    pub fn decode_list(w: &Wire) -> (r: Result<Vec<Reference>, DecodeError>)
        ensures
            outcome(r) == ReferenceView::list_from_wire(w@),
    {
        let items = match w.items() {
            Some(items) => items,
            None => {
                return Err(DecodeError::new(DecodeFault::ExpectedList));
            },
        };
        let mut out: Vec<Reference> = Vec::new();
        let mut i: usize = 0;
        assert(Seq::<ReferenceView>::empty() + ReferenceView::list_from_items(
            items.deep_view(),
            0,
        )->Ok_0 =~= ReferenceView::list_from_items(items.deep_view(), 0)->Ok_0);
        while i < items.len()
            invariant
                i <= items.len(),
                w@ == WireView::List(items.deep_view()),
                ReferenceView::list_from_items(items.deep_view(), 0) == (
                match ReferenceView::list_from_items(items.deep_view(), i as nat) {
                    Ok(rest) => Ok(out.deep_view() + rest),
                    Err(e) => Err(e),
                }),
            decreases items.len() - i,
        {
            let ghost before = out.deep_view();
            match Reference::decode(&items[i]) {
                Ok(v) => {
                    out.push(v);
                    proof {
                        let rest = ReferenceView::list_from_items(
                            items.deep_view(),
                            (i + 1) as nat,
                        );
                        if rest is Ok {
                            assert(out.deep_view() + rest->Ok_0 =~= before + (seq![v@]
                                + rest->Ok_0));
                        }
                    }
                },
                Err(e) => {
                    return Err(e.under_index(i));
                },
            }
            i += 1;
        }
        assert(out.deep_view() + Seq::<ReferenceView>::empty() =~= out.deep_view());
        Ok(out)
    }

    /// A copy of each of the values, in their order.
    pub fn clone_list(items: &Vec<Reference>) -> (r: Vec<Reference>)
        ensures
            r.deep_view() == items.deep_view(),
    {
        let mut out: Vec<Reference> = Vec::new();
        let mut i: usize = 0;
        while i < items.len()
            invariant
                i <= items.len(),
                out.len() == i,
                forall|j: int| 0 <= j < i ==> (#[trigger] out[j])@ == items[j]@,
            decreases items.len() - i,
        {
            out.push(items[i].clone());
            i += 1;
        }
        assert(out.deep_view() =~= items.deep_view());
        out
    }
}

} // verus!
