use vstd::prelude::*;
use crate::names::lemma_name_codes;
use crate::validation::{all_distinct, distinct};
use crate::wire::{
    add_member,
    decode_text,
    encode_text,
    fail,
    fail_at,
    find,
    in_field,
    lemma_lookup_push,
    lookup,
    member,
    outcome,
    tagged,
    text_decode,
    text_encode,
    DecodeError,
    DecodeErrorView,
    DecodeFault,
    Field,
    FieldView,
    PathStepView,
    Wire,
    WireView,
};

verus! {

/// A short text in one language, as used for display names.
#[derive(Debug, PartialEq)]
pub struct MultiLanguageNameType {
    /// The language of the text.
    language: String,
    /// The text in that language.
    text: String,
}

/// The mathematical form of a [`MultiLanguageNameType`].
#[verifier::ext_equal]
pub struct MultiLanguageNameTypeView {
    pub language: Seq<char>,
    pub text: Seq<char>,
}

impl View for MultiLanguageNameType {
    type V = MultiLanguageNameTypeView;

    closed spec fn view(&self) -> MultiLanguageNameTypeView {
        MultiLanguageNameTypeView {
            language: self.language@,
            text: self.text@,
        }
    }
}

impl DeepView for MultiLanguageNameType {
    type V = MultiLanguageNameTypeView;

    open spec fn deep_view(&self) -> MultiLanguageNameTypeView {
        self@
    }
}

impl Clone for MultiLanguageNameType {
    fn clone(&self) -> (r: MultiLanguageNameType)
        ensures
            r@ == self@,
    {
        MultiLanguageNameType {
            language: self.language.clone(),
            text: self.text.clone(),
        }
    }
}

impl MultiLanguageNameType {
    /// Creates a name in one language from what it must have; everything else is
    /// absent or empty.
    pub fn new(language: String, text: String) -> (r: MultiLanguageNameType)
        ensures
            r@ == (MultiLanguageNameTypeView {
                language: language@,
                text: text@,
            }),
    {
        MultiLanguageNameType {
            language,
            text,
        }
    }

    /// Sets the language of the text.
    pub fn set_language(&mut self, language: String)
        ensures
            final(self)@ == (MultiLanguageNameTypeView { language: language@, ..old(self)@ }),
    {
        self.language = language;
    }

    /// Returns the language of the text.
    pub fn get_language(&self) -> (r: &String)
        ensures
            r@ == self@.language,
    {
        &self.language
    }

    /// Returns the language of the text, open to change.
    pub fn get_mut_language(&mut self) -> (r: &mut String)
        ensures
            r@ == old(self)@.language,
            final(self)@ == (MultiLanguageNameTypeView { language: final(r)@, ..old(self)@ }),
    {
        &mut self.language
    }

    /// Sets the text in that language.
    pub fn set_text(&mut self, text: String)
        ensures
            final(self)@ == (MultiLanguageNameTypeView { text: text@, ..old(self)@ }),
    {
        self.text = text;
    }

    /// Returns the text in that language.
    pub fn get_text(&self) -> (r: &String)
        ensures
            r@ == self@.text,
    {
        &self.text
    }

    /// Returns the text in that language, open to change.
    pub fn get_mut_text(&mut self) -> (r: &mut String)
        ensures
            r@ == old(self)@.text,
            final(self)@ == (MultiLanguageNameTypeView { text: final(r)@, ..old(self)@ }),
    {
        &mut self.text
    }
}

impl MultiLanguageNameTypeView {
    /// The members of a record that begins with `before` and goes on with
    /// the members of the value, in their order.
    #[verifier::opaque]
    pub open spec fn members_after(self, before: Seq<FieldView>) -> Seq<FieldView> {
        before
            .push(member("language"@, text_encode(self.language)))
            .push(member("text"@, text_encode(self.text)))
    }

    /// The value on the wire: the record of its members.
    pub open spec fn to_wire(self) -> WireView {
        WireView::Record(self.members_after(Seq::empty()))
    }

    /// The value that the members of a record stand for. Members of other
    /// names are passed over; of two members of one name the first counts;
    /// the first member in the order above that cannot be decoded decides
    /// the failure.
    #[verifier::opaque]
    pub open spec fn from_members(fields: Seq<FieldView>) -> Result<MultiLanguageNameTypeView,
        DecodeErrorView> {
        let language = match lookup(fields, "language"@) {
            None => Err(fail_at(DecodeFault::MissingField, "language"@)),
            Some(x) => in_field("language"@, text_decode(x)),
        };
        let text = match lookup(fields, "text"@) {
            None => Err(fail_at(DecodeFault::MissingField, "text"@)),
            Some(x) => in_field("text"@, text_decode(x)),
        };
        if language is Err {
            Err(language->Err_0)
        } else if text is Err {
            Err(text->Err_0)
        } else {
            Ok(MultiLanguageNameTypeView {
                language: language->Ok_0,
                text: text->Ok_0,
            })
        }
    }

    /// The value that a wire value stands for.
    pub open spec fn from_wire(w: WireView) -> Result<MultiLanguageNameTypeView, DecodeErrorView> {
        match w {
            WireView::Record(fields) => MultiLanguageNameTypeView::from_members(fields),
            _ => Err(fail(DecodeFault::ExpectedRecord)),
        }
    }

    /// A list of values on the wire: the values in their order.
    pub open spec fn list_to_wire(items: Seq<MultiLanguageNameTypeView>) -> WireView {
        WireView::List(
            Seq::new(
                items.len(),
                |i: int|
                    if 0 <= i < items.len() {
                        items[i].to_wire()
                    } else {
                        WireView::Null
                    },
            ),
        )
    }

    /// The values that the items from position `start` on stand for. The first
    /// item that stands for none decides the failure.
    pub open spec fn list_from_items(items: Seq<WireView>, start: nat) -> Result<
        Seq<MultiLanguageNameTypeView>,
        DecodeErrorView,
    >
        decreases items.len() - start,
    {
        if start >= items.len() {
            Ok(Seq::empty())
        } else {
            match MultiLanguageNameTypeView::from_wire(items[start as int]) {
                Err(e) => Err(e.under(PathStepView::Index(start as int))),
                Ok(v) => match MultiLanguageNameTypeView::list_from_items(items, start + 1) {
                    Ok(rest) => Ok(seq![v] + rest),
                    Err(e) => Err(e),
                },
            }
        }
    }

    /// The values that a list on the wire stands for.
    pub open spec fn list_from_wire(w: WireView) -> Result<Seq<MultiLanguageNameTypeView>,
        DecodeErrorView> {
        match w {
            WireView::List(items) => MultiLanguageNameTypeView::list_from_items(items, 0),
            _ => Err(fail(DecodeFault::ExpectedList)),
        }
    }

    /// The members of the value hide no type name that the record begins with.
    pub proof fn lemma_model_type_kept(self, tag: Option<Seq<char>>)
        ensures
            lookup(self.members_after(tagged(tag)), "modelType"@) == lookup(
                tagged(tag),
                "modelType"@,
            ),
    {
        broadcast use lemma_lookup_push;

        reveal(MultiLanguageNameTypeView::members_after);
        lemma_name_codes();
    }

    /// The value is found again from the members of its record, whether the
    /// record begins with a type name or not.
    pub proof fn lemma_members_round_trip(self, tag: Option<Seq<char>>)
        ensures
            MultiLanguageNameTypeView::from_members(self.members_after(tagged(tag))) ==
                Ok::<MultiLanguageNameTypeView, DecodeErrorView>(
                self,
            ),
    {
        broadcast use lemma_lookup_push;

        reveal(MultiLanguageNameTypeView::members_after);
        reveal(MultiLanguageNameTypeView::from_members);
        lemma_name_codes();

    }

    /// Every value is found again from what it is on the wire.
    pub proof fn lemma_round_trip(self)
        ensures
            MultiLanguageNameTypeView::from_wire(self.to_wire()) ==
                Ok::<MultiLanguageNameTypeView, DecodeErrorView>(self),
    {
        self.lemma_members_round_trip(None);
    }

    /// The values from position `start` on are found again from the items that
    /// stand for them.
    pub proof fn lemma_list_items_round_trip(items: Seq<MultiLanguageNameTypeView>, start: nat)
        requires
            start <= items.len(),
        ensures
            MultiLanguageNameTypeView::list_from_items(MultiLanguageNameTypeView::list_to_wire(
                items)->List_0, start) == Ok::<
                Seq<MultiLanguageNameTypeView>,
                DecodeErrorView,
            >(items.skip(start as int)),
        decreases items.len() - start,
    {
        if start >= items.len() {
            assert(items.skip(start as int) =~= Seq::empty());
        } else {
            items[start as int].lemma_round_trip();
            MultiLanguageNameTypeView::lemma_list_items_round_trip(items, start + 1);
            assert(seq![items[start as int]] + items.skip(start as int + 1) =~= items.skip(
                start as int));
        }
    }

    /// Every list of values is found again from what it is on the wire.
    pub proof fn lemma_list_round_trip(items: Seq<MultiLanguageNameTypeView>)
        ensures
            MultiLanguageNameTypeView::list_from_wire(MultiLanguageNameTypeView::list_to_wire(
                items)) == Ok::<
                Seq<MultiLanguageNameTypeView>,
                DecodeErrorView,
            >(items),
    {
        MultiLanguageNameTypeView::lemma_list_items_round_trip(items, 0);
        assert(items.skip(0) =~= items);
    }
}

impl MultiLanguageNameType {
    /// The value as it travels: the record of its members. What comes out
    /// decodes to the same value again.
    pub fn encode(&self) -> (w: Wire)
        ensures
            w@ == self@.to_wire(),
            MultiLanguageNameTypeView::from_wire(w@) ==
                Ok::<MultiLanguageNameTypeView, DecodeErrorView>(self@),
    {
        let mut fields: Vec<Field> = Vec::new();
        assert(fields.deep_view() =~= Seq::<FieldView>::empty());
        self.encode_members(&mut fields);
        proof {
            self@.lemma_round_trip();
        }
        Wire::record(fields)
    }

    /// Appends the members of the value, as they travel, to `fields`.
    pub fn encode_members(&self, fields: &mut Vec<Field>)
        ensures
            final(fields).deep_view() == self@.members_after(old(fields).deep_view()),
    {
        reveal(MultiLanguageNameTypeView::members_after);
        add_member(fields, "language", encode_text(&self.language));
        add_member(fields, "text", encode_text(&self.text));
    }

    /// The value that `w` stands for.
    pub fn decode(w: &Wire) -> (r: Result<MultiLanguageNameType, DecodeError>)
        ensures
            outcome(r) == MultiLanguageNameTypeView::from_wire(w@),
    {
        match w.members() {
            Some(fields) => MultiLanguageNameType::decode_members(fields),
            None => Err(DecodeError::new(DecodeFault::ExpectedRecord)),
        }
    }

    /// The value that the members `fields` of a record stand for.
    pub fn decode_members(fields: &Vec<Field>) -> (r: Result<MultiLanguageNameType, DecodeError>)
        ensures
            outcome(r) == MultiLanguageNameTypeView::from_members(fields.deep_view()),
    {
        reveal(MultiLanguageNameTypeView::from_members);
        let language = match find(fields, "language") {
            None => Err(DecodeError::at(DecodeFault::MissingField, "language")),
            Some(x) => match decode_text(x) {
                Ok(v) => Ok(v),
                Err(e) => Err(e.under_field("language")),
            },
        };
        let text = match find(fields, "text") {
            None => Err(DecodeError::at(DecodeFault::MissingField, "text")),
            Some(x) => match decode_text(x) {
                Ok(v) => Ok(v),
                Err(e) => Err(e.under_field("text")),
            },
        };
        let language = match language {
            Ok(v) => v,
            Err(e) => {
                return Err(e);
            },
        };
        let text = match text {
            Ok(v) => v,
            Err(e) => {
                return Err(e);
            },
        };
        let r = MultiLanguageNameType { language, text };
        assert(r@ =~= MultiLanguageNameTypeView::from_members(fields.deep_view())->Ok_0);
        Ok(r)
    }

    /// The values as they travel: a list, in their order.
    pub fn encode_list(items: &Vec<MultiLanguageNameType>) -> (w: Wire)
        ensures
            w@ == MultiLanguageNameTypeView::list_to_wire(items.deep_view()),
    {
        let mut out: Vec<Wire> = Vec::new();
        let mut i: usize = 0;
        while i < items.len()
            invariant
                i <= items.len(),
                out.len() == i,
                forall|j: int| 0 <= j < i ==>
                    (#[trigger] out[j])@ == items.deep_view()[j].to_wire(),
            decreases items.len() - i,
        {
            out.push(items[i].encode());
            i += 1;
        }
        let w = Wire::list(out);
        assert(w@->List_0 =~= MultiLanguageNameTypeView::list_to_wire(items.deep_view())->List_0);
        w
    }

    /// The values that the list `w` stands for. The first item that stands
    /// for none decides the failure.
    pub fn decode_list(w: &Wire) -> (r: Result<Vec<MultiLanguageNameType>, DecodeError>)
        ensures
            outcome(r) == MultiLanguageNameTypeView::list_from_wire(w@),
    {
        let items = match w.items() {
            Some(items) => items,
            None => {
                return Err(DecodeError::new(DecodeFault::ExpectedList));
            },
        };
        let mut out: Vec<MultiLanguageNameType> = Vec::new();
        let mut i: usize = 0;
        assert(Seq::<MultiLanguageNameTypeView>::empty() + MultiLanguageNameTypeView::list_from_items(
            items.deep_view(), 0)->Ok_0
            =~= MultiLanguageNameTypeView::list_from_items(items.deep_view(), 0)->Ok_0);
        while i < items.len()
            invariant
                i <= items.len(),
                w@ == WireView::List(items.deep_view()),
                MultiLanguageNameTypeView::list_from_items(items.deep_view(), 0) ==
                    (match MultiLanguageNameTypeView::list_from_items(
                    items.deep_view(),
                    i as nat,
                ) {
                    Ok(rest) => Ok(out.deep_view() + rest),
                    Err(e) => Err(e),
                }),
            decreases items.len() - i,
        {
            let ghost before = out.deep_view();
            match MultiLanguageNameType::decode(&items[i]) {
                Ok(v) => {
                    out.push(v);
                    proof {
                        let rest = MultiLanguageNameTypeView::list_from_items(items.deep_view(),
                            (i + 1) as nat);
                        if rest is Ok {
                            assert(out.deep_view() + rest->Ok_0 =~= before + (seq![
                                v@] + rest->Ok_0));
                        }
                    }
                },
                Err(e) => {
                    return Err(e.under_index(i));
                },
            }
            i += 1;
        }
        assert(out.deep_view() + Seq::<MultiLanguageNameTypeView>::empty() =~= out.deep_view());
        Ok(out)
    }

    /// A copy of each of the values, in their order.
    pub fn clone_list(items: &Vec<MultiLanguageNameType>) -> (r: Vec<MultiLanguageNameType>)
        ensures
            r.deep_view() == items.deep_view(),
    {
        let mut out: Vec<MultiLanguageNameType> = Vec::new();
        let mut i: usize = 0;
        while i < items.len()
            invariant
                i <= items.len(),
                out.len() == i,
                forall|j: int| 0 <= j < i ==> (#[trigger] out[j])@ == items[j]@,
            decreases items.len() - i,
        {
            out.push(items[i].clone());
            i += 1;
        }
        assert(out.deep_view() =~= items.deep_view());
        out
    }
}

impl MultiLanguageNameTypeView {
    /// The languages of the entries, in their order.
    pub open spec fn languages(items: Seq<MultiLanguageNameTypeView>) -> Seq<Seq<char>> {
        Seq::new(items.len(), |i: int| items[i].language)
    }
}

impl MultiLanguageNameType {
    /// Whether no language occurs twice among the entries.
    pub fn languages_distinct(items: &Vec<MultiLanguageNameType>) -> (b: bool)
        ensures
            b == distinct(MultiLanguageNameTypeView::languages(items.deep_view())),
    {
        let ghost all = MultiLanguageNameTypeView::languages(items.deep_view());
        let mut languages: Vec<&String> = Vec::new();
        let mut i: usize = 0;
        assert(languages.deep_view() =~= all.take(0));
        while i < items.len()
            invariant
                i <= items.len(),
                all == MultiLanguageNameTypeView::languages(items.deep_view()),
                languages.deep_view() == all.take(i as int),
            decreases items.len() - i,
        {
            let ghost before = languages.deep_view();
            let language = items[i].get_language();
            languages.push(language);
            assert(languages.deep_view() =~= before.push(language@));
            assert(all.take(i + 1) =~= all.take(i as int).push(all[i as int]));
            i += 1;
        }
        assert(all.take(all.len() as int) =~= all);
        all_distinct(&languages)
    }
}

} // verus!
