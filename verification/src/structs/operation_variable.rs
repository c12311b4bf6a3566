use vstd::prelude::*;
use crate::enumerations::interface_enumerations::submodel_element::{
    SubmodelElement,
    SubmodelElementView,
};
use crate::names::lemma_name_codes;
use crate::wire::{
    add_member,
    fail,
    fail_at,
    find,
    in_field,
    lemma_lookup_push,
    lemma_lookup_smaller,
    lookup,
    member,
    outcome,
    tagged,
    DecodeError,
    DecodeErrorView,
    DecodeFault,
    Field,
    FieldView,
    PathStepView,
    Wire,
    WireView,
};

verus! {

/// The value of an operation variable is a submodel element that is used as input and/or
/// output variable of an operation.
#[derive(Debug, PartialEq)]
pub struct OperationVariable {
    /// The submodel element that describes the argument or result of the operation.
    value: SubmodelElement,
}

/// The mathematical form of an [`OperationVariable`].
#[verifier::ext_equal]
pub struct OperationVariableView {
    pub value: SubmodelElementView,
}

impl OperationVariable {
    /// The mathematical form of the value.
    pub closed spec fn model(&self) -> OperationVariableView
        decreases self,
    {
        OperationVariableView {
            value: self.value.model(),
        }
    }
}

/// The mathematical form of an operation variable, field by field.
broadcast proof fn lemma_model(e: OperationVariable)
    ensures
        #[trigger] e.model() == (OperationVariableView {
            value: e.value@,
        }),
{
}

impl View for OperationVariable {
    type V = OperationVariableView;

    open spec fn view(&self) -> OperationVariableView {
        self.model()
    }
}

impl DeepView for OperationVariable {
    type V = OperationVariableView;

    open spec fn deep_view(&self) -> OperationVariableView {
        self@
    }
}

impl Clone for OperationVariable {
    fn clone(&self) -> (r: OperationVariable)
        ensures
            r@ == self@,
        decreases self,
    {
        broadcast use lemma_model;

        OperationVariable {
            value: self.value.clone(),
        }
    }
}

impl OperationVariable {
    /// Creates an operation variable from what it must have; everything else is
    /// absent or empty.
    pub fn new(value: SubmodelElement) -> (r: OperationVariable)
        ensures
            r@ == (OperationVariableView {
                value: value@,
            }),
    {
        broadcast use lemma_model;

        OperationVariable {
            value,
        }
    }

    /// Sets the submodel element that describes the argument or result of the operation.
    pub fn set_value(&mut self, value: SubmodelElement)
        ensures
            final(self)@ == (OperationVariableView { value: value@, ..old(self)@ }),
    {
        broadcast use lemma_model;

        self.value = value;
    }

    /// Returns the submodel element that describes the argument or result of the operation.
    pub fn get_value(&self) -> (r: &SubmodelElement)
        ensures
            r@ == self@.value,
    {
        broadcast use lemma_model;

        &self.value
    }

    /// Returns the submodel element that describes the argument or result of the operation, open to
    /// change.
    pub fn get_mut_value(&mut self) -> (r: &mut SubmodelElement)
        ensures
            r@ == old(self)@.value,
            final(self)@ == (OperationVariableView { value: final(r)@, ..old(self)@ }),
    {
        broadcast use lemma_model;

        &mut self.value
    }
}

impl OperationVariableView {
    /// Whether every reference in the value is well formed.
    pub open spec fn well_formed(self) -> bool
        decreases self, 0nat,
    {
        &&& self.value.well_formed()
    }

    /// The members of a record that begins with `before` and goes on with
    /// the members of the value, in their order.
    pub open spec fn members_after(self, before: Seq<FieldView>) -> Seq<FieldView>
        decreases self, 1nat,
    {
        self.layout(before)
    }

    /// The members of the value, one by one, behind `before`.
    #[verifier::opaque]
    pub open spec fn layout(self, before: Seq<FieldView>) -> Seq<FieldView>
        decreases self, 0nat,
    {
        before
            .push(member("value"@, self.value.to_wire()))
    }

    /// The value on the wire: the record of its members.
    pub open spec fn to_wire(self) -> WireView
        decreases self, 2nat,
    {
        WireView::Record(self.members_after(Seq::empty()))
    }

    /// The value that the members of a record stand for. Members of other
    /// names are passed over; of two members of one name the first counts;
    /// the first member in the order above that cannot be decoded decides
    /// the failure.
    pub open spec fn from_members(fields: Seq<FieldView>) -> Result<OperationVariableView,
        DecodeErrorView>
        decreases fields, 1nat,
    {
        OperationVariableView::parse(fields)
    }

    /// The value that the members of a record stand for, member by member.
    #[verifier::opaque]
    pub open spec fn parse(fields: Seq<FieldView>) -> Result<OperationVariableView, DecodeErrorView>
        decreases fields, 0nat,
    {
        let value = match lookup(fields, "value"@) {
            None => Err(fail_at(DecodeFault::MissingField, "value"@)),
            Some(x) => {
                proof {
                    lemma_lookup_smaller(fields, "value"@);
                }
                in_field("value"@, SubmodelElementView::from_wire(x))
            },
        };
        if value is Err {
            Err(value->Err_0)
        } else {
            Ok(OperationVariableView {
                value: value->Ok_0,
            })
        }
    }

    /// The value that a wire value stands for.
    pub open spec fn from_wire(w: WireView) -> Result<OperationVariableView, DecodeErrorView>
        decreases w, 0nat,
    {
        match w {
            WireView::Record(fields) => OperationVariableView::from_members(fields),
            _ => Err(fail(DecodeFault::ExpectedRecord)),
        }
    }

    /// A list of values on the wire: the values in their order.
    pub open spec fn list_to_wire(items: Seq<OperationVariableView>) -> WireView
        decreases items, 0nat,
    {
        WireView::List(
            Seq::new(
                items.len(),
                |i: int|
                    if 0 <= i < items.len() {
                        items[i].to_wire()
                    } else {
                        WireView::Null
                    },
            ),
        )
    }

    /// The values that the items from position `start` on stand for. The first
    /// item that stands for none decides the failure.
    pub open spec fn list_from_items(items: Seq<WireView>, start: nat) -> Result<
        Seq<OperationVariableView>,
        DecodeErrorView,
    >
        decreases items, items.len() - start,
    {
        if start >= items.len() {
            Ok(Seq::empty())
        } else {
            match OperationVariableView::from_wire(items[start as int]) {
                Err(e) => Err(e.under(PathStepView::Index(start as int))),
                Ok(v) => match OperationVariableView::list_from_items(items, start + 1) {
                    Ok(rest) => Ok(seq![v] + rest),
                    Err(e) => Err(e),
                },
            }
        }
    }

    /// The values that a list on the wire stands for.
    pub open spec fn list_from_wire(w: WireView) -> Result<Seq<OperationVariableView>,
        DecodeErrorView>
        decreases w, 0nat,
    {
        match w {
            WireView::List(items) => OperationVariableView::list_from_items(items, 0),
            _ => Err(fail(DecodeFault::ExpectedList)),
        }
    }

    /// The members of the value hide no type name that the record begins with.
    pub proof fn lemma_model_type_kept(self, tag: Option<Seq<char>>)
        ensures
            lookup(self.members_after(tagged(tag)), "modelType"@) == lookup(
                tagged(tag),
                "modelType"@,
            ),
    {
        broadcast use lemma_lookup_push;

        reveal(OperationVariableView::layout);
        lemma_name_codes();
    }

    /// The value is found again from the members of its record, whether the
    /// record begins with a type name or not.
    pub proof fn lemma_members_round_trip(self, tag: Option<Seq<char>>)
        requires
            self.well_formed(),
        ensures
            OperationVariableView::from_members(self.members_after(tagged(tag))) ==
                Ok::<OperationVariableView, DecodeErrorView>(
                self,
            ),
        decreases self, 0nat,
    {
        broadcast use lemma_lookup_push;

        reveal(OperationVariableView::layout);
        reveal(OperationVariableView::parse);
        lemma_name_codes();
        self.value.lemma_round_trip();
    }

    /// Every value is found again from what it is on the wire.
    pub proof fn lemma_round_trip(self)
        requires
            self.well_formed(),
        ensures
            OperationVariableView::from_wire(self.to_wire()) ==
                Ok::<OperationVariableView, DecodeErrorView>(self),
        decreases self, 2nat,
    {
        self.lemma_members_round_trip(None);
    }

    /// The values from position `start` on are found again from the items that
    /// stand for them.
    pub proof fn lemma_list_items_round_trip(items: Seq<OperationVariableView>, start: nat)
        requires
            forall|i: int| 0 <= i < items.len() ==> (#[trigger] items[i]).well_formed(),
            start <= items.len(),
        ensures
            OperationVariableView::list_from_items(OperationVariableView::list_to_wire(
                items)->List_0, start) == Ok::<
                Seq<OperationVariableView>,
                DecodeErrorView,
            >(items.skip(start as int)),
        decreases items, items.len() - start,
    {
        if start >= items.len() {
            assert(items.skip(start as int) =~= Seq::empty());
        } else {
            items[start as int].lemma_round_trip();
            OperationVariableView::lemma_list_items_round_trip(items, start + 1);
            assert(seq![items[start as int]] + items.skip(start as int + 1) =~= items.skip(
                start as int));
        }
    }

    /// Every list of values is found again from what it is on the wire.
    pub proof fn lemma_list_round_trip(items: Seq<OperationVariableView>)
        requires
            forall|i: int| 0 <= i < items.len() ==> (#[trigger] items[i]).well_formed(),
        ensures
            OperationVariableView::list_from_wire(OperationVariableView::list_to_wire(items)) ==
                Ok::<
                Seq<OperationVariableView>,
                DecodeErrorView,
            >(items),
        decreases items, items.len() + 1,
    {
        OperationVariableView::lemma_list_items_round_trip(items, 0);
        assert(items.skip(0) =~= items);
    }
}

impl OperationVariable {
    /// The value as it travels: the record of its members. What comes out
    /// decodes to the same value again.
    pub fn encode(&self) -> (w: Wire)
        ensures
            w@ == self@.to_wire(),
            self@.well_formed(),
            OperationVariableView::from_wire(w@) ==
                Ok::<OperationVariableView, DecodeErrorView>(self@),
        decreases self, 2nat,
    {
        let mut fields: Vec<Field> = Vec::new();
        assert(fields.deep_view() =~= Seq::<FieldView>::empty());
        self.encode_members(&mut fields);
        proof {
            self@.lemma_round_trip();
        }
        Wire::record(fields)
    }

    /// Appends the members of the value, as they travel, to `fields`.
    pub fn encode_members(&self, fields: &mut Vec<Field>)
        ensures
            final(fields).deep_view() == self@.members_after(old(fields).deep_view()),
            self@.well_formed(),
        decreases self, 0nat,
    {
        broadcast use lemma_model;

        reveal(OperationVariableView::layout);
        add_member(fields, "value", self.value.encode());
    }

    /// The value that `w` stands for.
    pub fn decode(w: &Wire) -> (r: Result<OperationVariable, DecodeError>)
        ensures
            outcome(r) == OperationVariableView::from_wire(w@),
        decreases w, 0nat,
    {
        match w.members() {
            Some(fields) => OperationVariable::decode_members(fields),
            None => Err(DecodeError::new(DecodeFault::ExpectedRecord)),
        }
    }

    /// The value that the members `fields` of a record stand for.
    pub fn decode_members(fields: &Vec<Field>) -> (r: Result<OperationVariable, DecodeError>)
        ensures
            outcome(r) == OperationVariableView::from_members(fields.deep_view()),
        decreases fields, 0nat,
    {
        broadcast use lemma_model;

        reveal(OperationVariableView::parse);
        let value = match find(fields, "value") {
            None => Err(DecodeError::at(DecodeFault::MissingField, "value")),
            Some(x) => match SubmodelElement::decode(x) {
                Ok(v) => Ok(v),
                Err(e) => Err(e.under_field("value")),
            },
        };
        let value = match value {
            Ok(v) => v,
            Err(e) => {
                return Err(e);
            },
        };
        let r = OperationVariable { value };
        assert(r@ =~= OperationVariableView::from_members(fields.deep_view())->Ok_0);
        Ok(r)
    }

    /// The values as they travel: a list, in their order.
    #[verifier::loop_isolation(false)]
    pub fn encode_list(items: &Vec<OperationVariable>) -> (w: Wire)
        ensures
            w@ == OperationVariableView::list_to_wire(items.deep_view()),
            forall|i: int| 0 <= i < items.len() ==> (#[trigger] items.deep_view()[i]).well_formed(),
        decreases items, 0nat,
    {
        let mut out: Vec<Wire> = Vec::new();
        let mut i: usize = 0;
        while i < items.len()
            invariant
                i <= items.len(),
                out.len() == i,
                forall|j: int| 0 <= j < i ==>
                    (#[trigger] out[j])@ == items.deep_view()[j].to_wire(),
                forall|j: int| 0 <= j < i ==> (#[trigger] items.deep_view()[j]).well_formed(),
            decreases items.len() - i,
        {
            out.push(items[i].encode());
            i += 1;
        }
        let w = Wire::list(out);
        assert(w@->List_0 =~= OperationVariableView::list_to_wire(items.deep_view())->List_0);
        w
    }

    /// The values that the list `w` stands for. The first item that stands
    /// for none decides the failure.
    #[verifier::loop_isolation(false)]
    pub fn decode_list(w: &Wire) -> (r: Result<Vec<OperationVariable>, DecodeError>)
        ensures
            outcome(r) == OperationVariableView::list_from_wire(w@),
        decreases w, 0nat,
    {
        let items = match w.items() {
            Some(items) => items,
            None => {
                return Err(DecodeError::new(DecodeFault::ExpectedList));
            },
        };
        let mut out: Vec<OperationVariable> = Vec::new();
        let mut i: usize = 0;
        assert(Seq::<OperationVariableView>::empty() + OperationVariableView::list_from_items(
            items.deep_view(), 0)->Ok_0
            =~= OperationVariableView::list_from_items(items.deep_view(), 0)->Ok_0);
        while i < items.len()
            invariant
                i <= items.len(),
                w@ == WireView::List(items.deep_view()),
                OperationVariableView::list_from_items(items.deep_view(), 0) ==
                    (match OperationVariableView::list_from_items(
                    items.deep_view(),
                    i as nat,
                ) {
                    Ok(rest) => Ok(out.deep_view() + rest),
                    Err(e) => Err(e),
                }),
            decreases items.len() - i,
        {
            let ghost before = out.deep_view();
            match OperationVariable::decode(&items[i]) {
                Ok(v) => {
                    out.push(v);
                    proof {
                        let rest = OperationVariableView::list_from_items(items.deep_view(),
                            (i + 1) as nat);
                        if rest is Ok {
                            assert(out.deep_view() + rest->Ok_0 =~= before + (seq![
                                v@] + rest->Ok_0));
                        }
                    }
                },
                Err(e) => {
                    return Err(e.under_index(i));
                },
            }
            i += 1;
        }
        assert(out.deep_view() + Seq::<OperationVariableView>::empty() =~= out.deep_view());
        Ok(out)
    }

    /// A copy of each of the values, in their order.
    #[verifier::loop_isolation(false)]
    pub fn clone_list(items: &Vec<OperationVariable>) -> (r: Vec<OperationVariable>)
        ensures
            r.deep_view() == items.deep_view(),
        decreases items, 0nat,
    {
        let mut out: Vec<OperationVariable> = Vec::new();
        let mut i: usize = 0;
        while i < items.len()
            invariant
                i <= items.len(),
                out.len() == i,
                forall|j: int| 0 <= j < i ==> (#[trigger] out[j])@ == items[j]@,
            decreases items.len() - i,
        {
            out.push(items[i].clone());
            i += 1;
        }
        assert(out.deep_view() =~= items.deep_view());
        out
    }
}

impl OperationVariableView {
    /// Whether the value and everything below it keeps what a document must
    /// keep: no language twice in one collection of texts, no short ID twice
    /// among the elements of one container, no empty and no repeated ID.
    pub open spec fn consistent(self) -> bool
        decreases self, 0nat,
    {
        &&& self.value.consistent()
    }
}

impl OperationVariable {
    /// Whether the value and everything below it keeps what a document must
    /// keep.
    pub fn is_consistent(&self) -> (b: bool)
        ensures
            b == self@.consistent(),
        decreases self, 1nat,
    {
        broadcast use lemma_model;

        let value_below = self.value.is_consistent();
        value_below
    }

    /// Whether each of the values keeps what a document must keep.
    #[verifier::loop_isolation(false)]
    pub fn all_consistent(items: &Vec<OperationVariable>) -> (b: bool)
        ensures
            b == (forall|i: int|
                0 <= i < items.len() ==> (#[trigger] items.deep_view()[i]).consistent()),
        decreases items, 0nat,
    {
        let mut i: usize = 0;
        while i < items.len()
            invariant
                i <= items.len(),
                forall|j: int| 0 <= j < i ==> (#[trigger] items.deep_view()[j]).consistent(),
            decreases items.len() - i,
        {
            if !items[i].is_consistent() {
                assert(!items.deep_view()[i as int].consistent());
                return false;
            }
            i += 1;
        }
        true
    }
}

} // verus!
