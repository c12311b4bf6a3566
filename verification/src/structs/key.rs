use vstd::prelude::*;
use crate::enumerations::key_type::KeyType;
use crate::names::lemma_name_codes;
use crate::wire::{
    add_member,
    decode_text,
    encode_text,
    fail,
    fail_at,
    find,
    in_field,
    lemma_lookup_push,
    lookup,
    member,
    outcome,
    tagged,
    text_decode,
    text_encode,
    DecodeError,
    DecodeErrorView,
    DecodeFault,
    Field,
    FieldView,
    PathStepView,
    Wire,
    WireView,
};

verus! {

/// A key is a reference to an element by its kind and its ID.
#[derive(Debug, PartialEq)]
pub struct Key {
    /// The kind of element that the key points at.
    key_type: KeyType,
    /// The ID of the element that the key points at.
    value: String,
}

/// The mathematical form of a [`Key`].
#[verifier::ext_equal]
pub struct KeyView {
    pub key_type: KeyType,
    pub value: Seq<char>,
}

impl View for Key {
    type V = KeyView;

    closed spec fn view(&self) -> KeyView {
        KeyView {
            key_type: self.key_type,
            value: self.value@,
        }
    }
}

impl DeepView for Key {
    type V = KeyView;

    open spec fn deep_view(&self) -> KeyView {
        self@
    }
}

impl Clone for Key {
    fn clone(&self) -> (r: Key)
        ensures
            r@ == self@,
    {
        Key {
            key_type: self.key_type,
            value: self.value.clone(),
        }
    }
}

impl Key {
    /// Creates a key from what it must have; everything else is
    /// absent or empty.
    pub fn new(key_type: KeyType, value: String) -> (r: Key)
        ensures
            r@ == (KeyView {
                key_type,
                value: value@,
            }),
    {
        Key {
            key_type,
            value,
        }
    }

    /// Sets the kind of element that the key points at.
    pub fn set_key_type(&mut self, key_type: KeyType)
        ensures
            final(self)@ == (KeyView { key_type, ..old(self)@ }),
    {
        self.key_type = key_type;
    }

    /// Returns the kind of element that the key points at.
    pub fn get_key_type(&self) -> (r: &KeyType)
        ensures
            *r == self@.key_type,
    {
        &self.key_type
    }

    /// Returns the kind of element that the key points at, open to change.
    pub fn get_mut_key_type(&mut self) -> (r: &mut KeyType)
        ensures
            *r == old(self)@.key_type,
            final(self)@ == (KeyView { key_type: *final(r), ..old(self)@ }),
    {
        &mut self.key_type
    }

    /// Sets the ID of the element that the key points at.
    pub fn set_value(&mut self, value: String)
        ensures
            final(self)@ == (KeyView { value: value@, ..old(self)@ }),
    {
        self.value = value;
    }

    /// Returns the ID of the element that the key points at.
    pub fn get_value(&self) -> (r: &String)
        ensures
            r@ == self@.value,
    {
        &self.value
    }

    /// Returns the ID of the element that the key points at, open to change.
    pub fn get_mut_value(&mut self) -> (r: &mut String)
        ensures
            r@ == old(self)@.value,
            final(self)@ == (KeyView { value: final(r)@, ..old(self)@ }),
    {
        &mut self.value
    }
}

impl KeyView {
    /// The members of a record that begins with `before` and goes on with
    /// the members of the value, in their order.
    #[verifier::opaque]
    pub open spec fn members_after(self, before: Seq<FieldView>) -> Seq<FieldView> {
        before
            .push(member("type"@, self.key_type.to_wire()))
            .push(member("value"@, text_encode(self.value)))
    }

    /// The value on the wire: the record of its members.
    pub open spec fn to_wire(self) -> WireView {
        WireView::Record(self.members_after(Seq::empty()))
    }

    /// The value that the members of a record stand for. Members of other
    /// names are passed over; of two members of one name the first counts;
    /// the first member in the order above that cannot be decoded decides
    /// the failure.
    #[verifier::opaque]
    pub open spec fn from_members(fields: Seq<FieldView>) -> Result<KeyView, DecodeErrorView> {
        let key_type = match lookup(fields, "type"@) {
            None => Err(fail_at(DecodeFault::MissingField, "type"@)),
            Some(x) => in_field("type"@, KeyType::from_wire(x)),
        };
        let value = match lookup(fields, "value"@) {
            None => Err(fail_at(DecodeFault::MissingField, "value"@)),
            Some(x) => in_field("value"@, text_decode(x)),
        };
        if key_type is Err {
            Err(key_type->Err_0)
        } else if value is Err {
            Err(value->Err_0)
        } else {
            Ok(KeyView {
                key_type: key_type->Ok_0,
                value: value->Ok_0,
            })
        }
    }

    /// The value that a wire value stands for.
    pub open spec fn from_wire(w: WireView) -> Result<KeyView, DecodeErrorView> {
        match w {
            WireView::Record(fields) => KeyView::from_members(fields),
            _ => Err(fail(DecodeFault::ExpectedRecord)),
        }
    }

    /// A list of values on the wire: the values in their order.
    pub open spec fn list_to_wire(items: Seq<KeyView>) -> WireView {
        WireView::List(
            Seq::new(
                items.len(),
                |i: int|
                    if 0 <= i < items.len() {
                        items[i].to_wire()
                    } else {
                        WireView::Null
                    },
            ),
        )
    }

    /// The values that the items from position `start` on stand for. The first
    /// item that stands for none decides the failure.
    pub open spec fn list_from_items(items: Seq<WireView>, start: nat) -> Result<
        Seq<KeyView>,
        DecodeErrorView,
    >
        decreases items.len() - start,
    {
        if start >= items.len() {
            Ok(Seq::empty())
        } else {
            match KeyView::from_wire(items[start as int]) {
                Err(e) => Err(e.under(PathStepView::Index(start as int))),
                Ok(v) => match KeyView::list_from_items(items, start + 1) {
                    Ok(rest) => Ok(seq![v] + rest),
                    Err(e) => Err(e),
                },
            }
        }
    }

    /// The values that a list on the wire stands for.
    pub open spec fn list_from_wire(w: WireView) -> Result<Seq<KeyView>, DecodeErrorView> {
        match w {
            WireView::List(items) => KeyView::list_from_items(items, 0),
            _ => Err(fail(DecodeFault::ExpectedList)),
        }
    }

    /// The members of the value hide no type name that the record begins with.
    pub proof fn lemma_model_type_kept(self, tag: Option<Seq<char>>)
        ensures
            lookup(self.members_after(tagged(tag)), "modelType"@) == lookup(
                tagged(tag),
                "modelType"@,
            ),
    {
        broadcast use lemma_lookup_push;

        reveal(KeyView::members_after);
        lemma_name_codes();
    }

    /// The value is found again from the members of its record, whether the
    /// record begins with a type name or not.
    pub proof fn lemma_members_round_trip(self, tag: Option<Seq<char>>)
        ensures
            KeyView::from_members(self.members_after(tagged(tag))) ==
                Ok::<KeyView, DecodeErrorView>(
                self,
            ),
    {
        broadcast use lemma_lookup_push;

        reveal(KeyView::members_after);
        reveal(KeyView::from_members);
        lemma_name_codes();
        self.key_type.lemma_round_trip();
    }

    /// Every value is found again from what it is on the wire.
    pub proof fn lemma_round_trip(self)
        ensures
            KeyView::from_wire(self.to_wire()) == Ok::<KeyView, DecodeErrorView>(self),
    {
        self.lemma_members_round_trip(None);
    }

    /// The values from position `start` on are found again from the items that
    /// stand for them.
    pub proof fn lemma_list_items_round_trip(items: Seq<KeyView>, start: nat)
        requires
            start <= items.len(),
        ensures
            KeyView::list_from_items(KeyView::list_to_wire(items)->List_0, start) == Ok::<
                Seq<KeyView>,
                DecodeErrorView,
            >(items.skip(start as int)),
        decreases items.len() - start,
    {
        if start >= items.len() {
            assert(items.skip(start as int) =~= Seq::empty());
        } else {
            items[start as int].lemma_round_trip();
            KeyView::lemma_list_items_round_trip(items, start + 1);
            assert(seq![items[start as int]] + items.skip(start as int + 1) =~= items.skip(
                start as int));
        }
    }

    /// Every list of values is found again from what it is on the wire.
    pub proof fn lemma_list_round_trip(items: Seq<KeyView>)
        ensures
            KeyView::list_from_wire(KeyView::list_to_wire(items)) == Ok::<
                Seq<KeyView>,
                DecodeErrorView,
            >(items),
    {
        KeyView::lemma_list_items_round_trip(items, 0);
        assert(items.skip(0) =~= items);
    }
}

impl Key {
    /// The value as it travels: the record of its members. What comes out
    /// decodes to the same value again.
    pub fn encode(&self) -> (w: Wire)
        ensures
            w@ == self@.to_wire(),
            KeyView::from_wire(w@) == Ok::<KeyView, DecodeErrorView>(self@),
    {
        let mut fields: Vec<Field> = Vec::new();
        assert(fields.deep_view() =~= Seq::<FieldView>::empty());
        self.encode_members(&mut fields);
        proof {
            self@.lemma_round_trip();
        }
        Wire::record(fields)
    }

    /// Appends the members of the value, as they travel, to `fields`.
    pub fn encode_members(&self, fields: &mut Vec<Field>)
        ensures
            final(fields).deep_view() == self@.members_after(old(fields).deep_view()),
    {
        reveal(KeyView::members_after);
        add_member(fields, "type", self.key_type.encode());
        add_member(fields, "value", encode_text(&self.value));
    }

    /// The value that `w` stands for.
    pub fn decode(w: &Wire) -> (r: Result<Key, DecodeError>)
        ensures
            outcome(r) == KeyView::from_wire(w@),
    {
        match w.members() {
            Some(fields) => Key::decode_members(fields),
            None => Err(DecodeError::new(DecodeFault::ExpectedRecord)),
        }
    }

    /// The value that the members `fields` of a record stand for.
    pub fn decode_members(fields: &Vec<Field>) -> (r: Result<Key, DecodeError>)
        ensures
            outcome(r) == KeyView::from_members(fields.deep_view()),
    {
        reveal(KeyView::from_members);
        let key_type = match find(fields, "type") {
            None => Err(DecodeError::at(DecodeFault::MissingField, "type")),
            Some(x) => match KeyType::decode(x) {
                Ok(v) => Ok(v),
                Err(e) => Err(e.under_field("type")),
            },
        };
        let value = match find(fields, "value") {
            None => Err(DecodeError::at(DecodeFault::MissingField, "value")),
            Some(x) => match decode_text(x) {
                Ok(v) => Ok(v),
                Err(e) => Err(e.under_field("value")),
            },
        };
        let key_type = match key_type {
            Ok(v) => v,
            Err(e) => {
                return Err(e);
            },
        };
        let value = match value {
            Ok(v) => v,
            Err(e) => {
                return Err(e);
            },
        };
        let r = Key { key_type, value };
        assert(r@ =~= KeyView::from_members(fields.deep_view())->Ok_0);
        Ok(r)
    }

    /// The values as they travel: a list, in their order.
    pub fn encode_list(items: &Vec<Key>) -> (w: Wire)
        ensures
            w@ == KeyView::list_to_wire(items.deep_view()),
    {
        let mut out: Vec<Wire> = Vec::new();
        let mut i: usize = 0;
        while i < items.len()
            invariant
                i <= items.len(),
                out.len() == i,
                forall|j: int| 0 <= j < i ==>
                    (#[trigger] out[j])@ == items.deep_view()[j].to_wire(),
            decreases items.len() - i,
        {
            out.push(items[i].encode());
            i += 1;
        }
        let w = Wire::list(out);
        assert(w@->List_0 =~= KeyView::list_to_wire(items.deep_view())->List_0);
        w
    }

    /// The values that the list `w` stands for. The first item that stands
    /// for none decides the failure.
    pub fn decode_list(w: &Wire) -> (r: Result<Vec<Key>, DecodeError>)
        ensures
            outcome(r) == KeyView::list_from_wire(w@),
    {
        let items = match w.items() {
            Some(items) => items,
            None => {
                return Err(DecodeError::new(DecodeFault::ExpectedList));
            },
        };
        let mut out: Vec<Key> = Vec::new();
        let mut i: usize = 0;
        assert(Seq::<KeyView>::empty() + KeyView::list_from_items(items.deep_view(), 0)->Ok_0
            =~= KeyView::list_from_items(items.deep_view(), 0)->Ok_0);
        while i < items.len()
            invariant
                i <= items.len(),
                w@ == WireView::List(items.deep_view()),
                KeyView::list_from_items(items.deep_view(), 0) == (match KeyView::list_from_items(
                    items.deep_view(),
                    i as nat,
                ) {
                    Ok(rest) => Ok(out.deep_view() + rest),
                    Err(e) => Err(e),
                }),
            decreases items.len() - i,
        {
            let ghost before = out.deep_view();
            match Key::decode(&items[i]) {
                Ok(v) => {
                    out.push(v);
                    proof {
                        let rest = KeyView::list_from_items(items.deep_view(), (i + 1) as nat);
                        if rest is Ok {
                            assert(out.deep_view() + rest->Ok_0 =~= before + (seq![
                                v@] + rest->Ok_0));
                        }
                    }
                },
                Err(e) => {
                    return Err(e.under_index(i));
                },
            }
            i += 1;
        }
        assert(out.deep_view() + Seq::<KeyView>::empty() =~= out.deep_view());
        Ok(out)
    }

    /// A copy of each of the values, in their order.
    pub fn clone_list(items: &Vec<Key>) -> (r: Vec<Key>)
        ensures
            r.deep_view() == items.deep_view(),
    {
        let mut out: Vec<Key> = Vec::new();
        let mut i: usize = 0;
        while i < items.len()
            invariant
                i <= items.len(),
                out.len() == i,
                forall|j: int| 0 <= j < i ==> (#[trigger] out[j])@ == items[j]@,
            decreases items.len() - i,
        {
            out.push(items[i].clone());
            i += 1;
        }
        assert(out.deep_view() =~= items.deep_view());
        out
    }
}

} // verus!
