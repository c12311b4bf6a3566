//! The wire tree: the tagged, JSON-like shape in which a document travels.
//!
//! Every model type maps itself to a [`Wire`] value and back. A serializer
//! outside this library turns the tree into text; the names, tags and
//! literals that interoperability depends on are all fixed here and in the
//! model types.
use vstd::prelude::*;

verus! {

/// A value of the wire tree.
#[derive(Debug, PartialEq)]
pub enum Wire {
    /// An absent value.
    Null,
    /// A truth value.
    Bool(bool),
    /// A piece of text.
    Text(String),
    /// An ordered list of values.
    List(Vec<Wire>),
    /// An object: named members, in order.
    Record(Vec<Field>),
}

/// One named member of a record.
#[derive(Debug, PartialEq)]
pub struct Field {
    pub name: String,
    pub value: Wire,
}

/// The mathematical form of a [`Wire`] value.
#[verifier::ext_equal]
pub enum WireView {
    Null,
    Bool(bool),
    Text(Seq<char>),
    List(Seq<WireView>),
    Record(Seq<FieldView>),
}

/// The mathematical form of a [`Field`].
#[verifier::ext_equal]
pub struct FieldView {
    pub name: Seq<char>,
    pub value: WireView,
}

impl View for Wire {
    type V = WireView;

    open spec fn view(&self) -> WireView
        decreases self,
    {
        match self {
            Wire::Null => WireView::Null,
            Wire::Bool(b) => WireView::Bool(*b),
            Wire::Text(s) => WireView::Text(s@),
            Wire::List(items) => WireView::List(
                Seq::new(
                    items@.len(),
                    |i: int|
                        if 0 <= i < items@.len() {
                            items@[i]@
                        } else {
                            WireView::Null
                        },
                ),
            ),
            Wire::Record(fields) => WireView::Record(
                Seq::new(
                    fields@.len(),
                    |i: int|
                        if 0 <= i < fields@.len() {
                            FieldView { name: fields@[i].name@, value: fields@[i].value@ }
                        } else {
                            FieldView { name: Seq::empty(), value: WireView::Null }
                        },
                ),
            ),
        }
    }
}

impl DeepView for Wire {
    type V = WireView;

    open spec fn deep_view(&self) -> WireView {
        self@
    }
}

impl View for Field {
    type V = FieldView;

    open spec fn view(&self) -> FieldView {
        FieldView { name: self.name@, value: self.value@ }
    }
}

impl DeepView for Field {
    type V = FieldView;

    open spec fn deep_view(&self) -> FieldView {
        self@
    }
}

impl Clone for Wire {
    #[verifier::loop_isolation(false)]
    fn clone(&self) -> (r: Wire)
        ensures
            r@ == self@,
        decreases self,
    {
        match self {
            Wire::Null => Wire::Null,
            Wire::Bool(b) => Wire::Bool(*b),
            Wire::Text(s) => Wire::Text(s.clone()),
            Wire::List(items) => {
                let mut out: Vec<Wire> = Vec::new();
                let mut i: usize = 0;
                while i < items.len()
                    invariant
                        i <= items.len(),
                        out.len() == i,
                        forall|j: int| 0 <= j < i ==> out[j]@ == items[j]@,
                    decreases items.len() - i,
                {
                    out.push(items[i].clone());
                    i += 1;
                }
                let r = Wire::List(out);
                assert(r@->List_0 =~= self@->List_0);
                r
            },
            Wire::Record(fields) => {
                let mut out: Vec<Field> = Vec::new();
                let mut i: usize = 0;
                while i < fields.len()
                    invariant
                        i <= fields.len(),
                        out.len() == i,
                        forall|j: int| 0 <= j < i ==> out[j]@ == fields[j]@,
                    decreases fields.len() - i,
                {
                    let f = &fields[i];
                    out.push(Field { name: f.name.clone(), value: f.value.clone() });
                    i += 1;
                }
                let r = Wire::Record(out);
                assert(r@->Record_0 =~= self@->Record_0);
                r
            },
        }
    }
}

impl Clone for Field {
    fn clone(&self) -> (r: Field)
        ensures
            r@ == self@,
    {
        Field { name: self.name.clone(), value: self.value.clone() }
    }
}

/// The member `name` with the value `value`.
pub open spec fn member(name: Seq<char>, value: WireView) -> FieldView {
    FieldView { name, value }
}

/// The value of the first member called `name` at or after position `start`.
pub open spec fn lookup_from(fields: Seq<FieldView>, name: Seq<char>, start: int) -> Option<
    WireView,
>
    decreases fields.len() - start,
{
    if start < 0 || start >= fields.len() {
        None
    } else if fields[start].name == name {
        Some(fields[start].value)
    } else {
        lookup_from(fields, name, start + 1)
    }
}

/// The value of the first member called `name`, if there is one.
pub open spec fn lookup(fields: Seq<FieldView>, name: Seq<char>) -> Option<WireView> {
    lookup_from(fields, name, 0)
}

/// The value of the member `name`, where it is there and not null.
pub open spec fn present(fields: Seq<FieldView>, name: Seq<char>) -> Option<WireView> {
    match lookup(fields, name) {
        Some(WireView::Null) => None,
        found => found,
    }
}

/// What a lookup from a position on finds is a part of the record.
pub proof fn lemma_lookup_from_smaller(fields: Seq<FieldView>, name: Seq<char>, start: int)
    ensures
        lookup_from(fields, name, start) matches Some(v) ==> decreases_to!(fields => v),
    decreases fields.len() - start,
{
    if start < 0 || start >= fields.len() {
    } else if fields[start].name == name {
    } else {
        lemma_lookup_from_smaller(fields, name, start + 1);
    }
}

/// What a lookup finds is a part of the record it was found in.
pub proof fn lemma_lookup_smaller(fields: Seq<FieldView>, name: Seq<char>)
    ensures
        lookup(fields, name) matches Some(v) ==> decreases_to!(fields => v),
        present(fields, name) matches Some(v) ==> decreases_to!(fields => v),
{
    lemma_lookup_from_smaller(fields, name, 0);
}

/// A lookup from a position on in two records joined end to end searches the
/// rest of the first, then the second.
pub proof fn lemma_lookup_from_concat(
    a: Seq<FieldView>,
    b: Seq<FieldView>,
    name: Seq<char>,
    start: int,
)
    requires
        0 <= start,
    ensures
        start <= a.len() ==> lookup_from(a + b, name, start) == (if lookup_from(a, name, start)
            is Some {
            lookup_from(a, name, start)
        } else {
            lookup_from(b, name, 0)
        }),
        start >= a.len() ==> lookup_from(a + b, name, start) == lookup_from(
            b,
            name,
            start - a.len(),
        ),
    decreases (a + b).len() - start,
{
    if start >= (a + b).len() {
    } else {
        lemma_lookup_from_concat(a, b, name, start + 1);
    }
}

/// A lookup in two records joined end to end searches the first, then the second.
pub proof fn lemma_lookup_concat(a: Seq<FieldView>, b: Seq<FieldView>, name: Seq<char>)
    ensures
        lookup(a + b, name) == (if lookup(a, name) is Some {
            lookup(a, name)
        } else {
            lookup(b, name)
        }),
{
    lemma_lookup_from_concat(a, b, name, 0);
}

/// A lookup in a record with one more member at its end searches the record,
/// then the new member.
pub broadcast proof fn lemma_lookup_push(fields: Seq<FieldView>, last: FieldView, name: Seq<char>)
    ensures
        #[trigger] lookup(fields.push(last), name) == (if lookup(fields, name) is Some {
            lookup(fields, name)
        } else if last.name == name {
            Some(last.value)
        } else {
            None
        }),
{
    let one = Seq::<FieldView>::empty().push(last);
    assert(fields.push(last) =~= fields + one);
    lemma_lookup_concat(fields, one, name);
    reveal_with_fuel(lookup_from, 3);
}

/// The members that a record begins with: its type name, where it carries one.
pub open spec fn tagged(tag: Option<Seq<char>>) -> Seq<FieldView> {
    match tag {
        Some(t) => Seq::empty().push(member("modelType"@, WireView::Text(t))),
        None => Seq::empty(),
    }
}

/// Whether two pieces of text hold the same characters.
pub fn same_text(a: &str, b: &str) -> (r: bool)
    ensures
        r == (a@ == b@),
{
    let x = a.to_owned();
    let y = b.to_owned();
    x == y
}

impl Field {
    /// The member `name` with the value `value`.
    pub fn new(name: &str, value: Wire) -> (f: Field)
        ensures
            f@ == member(name@, value@),
    {
        Field { name: name.to_owned(), value }
    }
}

impl Wire {
    /// The text `s` as a wire value.
    pub fn text(s: &str) -> (w: Wire)
        ensures
            w@ == WireView::Text(s@),
    {
        Wire::Text(s.to_owned())
    }

    /// The list of `items` as a wire value.
    pub fn list(items: Vec<Wire>) -> (w: Wire)
        ensures
            w@ == WireView::List(items.deep_view()),
    {
        let w = Wire::List(items);
        assert(w@->List_0 =~= items.deep_view());
        w
    }

    /// The record of `fields` as a wire value.
    pub fn record(fields: Vec<Field>) -> (w: Wire)
        ensures
            w@ == WireView::Record(fields.deep_view()),
    {
        let w = Wire::Record(fields);
        assert(w@->Record_0 =~= fields.deep_view());
        w
    }

    /// The members of a record; `None` for any other value.
    pub fn members(&self) -> (r: Option<&Vec<Field>>)
        ensures
            match r {
                Some(fields) => self@ == WireView::Record(fields.deep_view())
                    && decreases_to!(self => fields),
                None => !(self@ is Record),
            },
    {
        match self {
            Wire::Record(fields) => {
                assert(self@->Record_0 =~= fields.deep_view());
                Some(fields)
            },
            _ => None,
        }
    }

    /// The items of a list; `None` for any other value.
    pub fn items(&self) -> (r: Option<&Vec<Wire>>)
        ensures
            match r {
                Some(items) => self@ == WireView::List(items.deep_view())
                    && decreases_to!(self => items),
                None => !(self@ is List),
            },
    {
        match self {
            Wire::List(items) => {
                assert(self@->List_0 =~= items.deep_view());
                Some(items)
            },
            _ => None,
        }
    }

    /// The value of the first member called `name`, where `self` is a record
    /// that has one.
    pub fn get(&self, name: &str) -> (r: Option<&Wire>)
        ensures
            match r {
                Some(x) => self@ matches WireView::Record(fields) && lookup(fields, name@)
                    == Some(x@),
                None => self@ matches WireView::Record(fields) ==> lookup(fields, name@) is None,
            },
    {
        match self.members() {
            Some(fields) => find(fields, name),
            None => None,
        }
    }
}

/// Appends the member `name` with the value `value` to `fields`.
pub fn add_member(fields: &mut Vec<Field>, name: &str, value: Wire)
    ensures
        final(fields).deep_view() == old(fields).deep_view().push(member(name@, value@)),
{
    fields.push(Field::new(name, value));
    assert(fields.deep_view() =~= old(fields).deep_view().push(member(name@, value@)));
}

/// The value of the first member of `fields` called `name`.
pub fn find<'a>(fields: &'a Vec<Field>, name: &str) -> (r: Option<&'a Wire>)
    ensures
        match r {
            Some(x) => lookup(fields.deep_view(), name@) == Some(x@) && decreases_to!(fields => x),
            None => lookup(fields.deep_view(), name@) is None,
        },
{
    let key = name.to_owned();
    let mut i: usize = 0;
    while i < fields.len()
        invariant
            i <= fields.len(),
            key@ == name@,
            lookup(fields.deep_view(), name@) == lookup_from(fields.deep_view(), name@, i as int),
        decreases fields.len() - i,
    {
        if fields[i].name == key {
            return Some(&fields[i].value);
        }
        i += 1;
    }
    None
}

/// The value of the first member of `fields` called `name`, where it is
/// there and not null.
pub fn find_present<'a>(fields: &'a Vec<Field>, name: &str) -> (r: Option<&'a Wire>)
    ensures
        match r {
            Some(x) => present(fields.deep_view(), name@) == Some(x@) && decreases_to!(fields => x),
            None => present(fields.deep_view(), name@) is None,
        },
{
    match find(fields, name) {
        Some(Wire::Null) => None,
        found => found,
    }
}

/// What was wrong with a wire value that could not be decoded.
#[derive(Clone, Copy, Debug, PartialEq, Eq, Structural)]
pub enum DecodeFault {
    /// A record was expected and something else was found.
    ExpectedRecord,
    /// A list was expected and something else was found.
    ExpectedList,
    /// Text was expected and something else was found.
    ExpectedText,
    /// A truth value was expected and something else was found.
    ExpectedBool,
    /// A member that must be there is not.
    MissingField,
    /// The discriminant names no type that is accepted in this place.
    UnknownDiscriminant,
    /// The text is none of the literals of the enumeration.
    UnknownLiteral,
    /// The reference has no keys, or is a model reference whose first key
    /// does not name a root of the document.
    InvalidReference,
}

impl View for DecodeFault {
    type V = DecodeFault;

    open spec fn view(&self) -> DecodeFault {
        *self
    }
}

impl DeepView for DecodeFault {
    type V = DecodeFault;

    open spec fn deep_view(&self) -> DecodeFault {
        *self
    }
}

/// One step of the path from the root of a wire value to a part of it.
#[derive(Debug, PartialEq, Eq)]
pub enum PathStep {
    /// Into the member of this name.
    Field(String),
    /// Into the item at this position.
    Index(usize),
}

/// The mathematical form of a [`PathStep`].
pub enum PathStepView {
    Field(Seq<char>),
    Index(int),
}

impl View for PathStep {
    type V = PathStepView;

    open spec fn view(&self) -> PathStepView {
        match self {
            PathStep::Field(name) => PathStepView::Field(name@),
            PathStep::Index(i) => PathStepView::Index(*i as int),
        }
    }
}

impl DeepView for PathStep {
    type V = PathStepView;

    open spec fn deep_view(&self) -> PathStepView {
        self@
    }
}

impl Clone for PathStep {
    fn clone(&self) -> (r: PathStep)
        ensures
            r@ == self@,
    {
        match self {
            PathStep::Field(name) => PathStep::Field(name.clone()),
            PathStep::Index(i) => PathStep::Index(*i),
        }
    }
}

/// A failed decoding: what was wrong, and the path to the place, outermost
/// step first.
#[derive(Debug, PartialEq, Eq)]
pub struct DecodeError {
    pub fault: DecodeFault,
    pub path: Vec<PathStep>,
}

/// The mathematical form of a [`DecodeError`].
#[verifier::ext_equal]
pub struct DecodeErrorView {
    pub fault: DecodeFault,
    pub path: Seq<PathStepView>,
}

impl View for DecodeError {
    type V = DecodeErrorView;

    open spec fn view(&self) -> DecodeErrorView {
        DecodeErrorView { fault: self.fault, path: self.path.deep_view() }
    }
}

impl DeepView for DecodeError {
    type V = DecodeErrorView;

    open spec fn deep_view(&self) -> DecodeErrorView {
        self@
    }
}

impl Clone for DecodeError {
    fn clone(&self) -> (r: DecodeError)
        ensures
            r@ == self@,
    {
        let mut path: Vec<PathStep> = Vec::new();
        let mut i: usize = 0;
        while i < self.path.len()
            invariant
                i <= self.path.len(),
                path.len() == i,
                forall|j: int| 0 <= j < i ==> path[j]@ == self.path[j]@,
            decreases self.path.len() - i,
        {
            path.push(self.path[i].clone());
            i += 1;
        }
        let r = DecodeError { fault: self.fault, path };
        assert(r@.path =~= self@.path);
        r
    }
}

/// The failure `fault` at the place where decoding stands.
pub open spec fn fail(fault: DecodeFault) -> DecodeErrorView {
    DecodeErrorView { fault, path: Seq::empty() }
}

/// The failure `fault` of the member `name`.
pub open spec fn fail_at(fault: DecodeFault, name: Seq<char>) -> DecodeErrorView {
    DecodeErrorView { fault, path: seq![PathStepView::Field(name)] }
}

impl DecodeErrorView {
    /// The same failure, seen from one step further out.
    pub open spec fn under(self, step: PathStepView) -> DecodeErrorView {
        DecodeErrorView { fault: self.fault, path: seq![step] + self.path }
    }
}

/// The result `r` of decoding the member `name`, seen from the record.
pub open spec fn in_field<T>(name: Seq<char>, r: Result<T, DecodeErrorView>) -> Result<
    T,
    DecodeErrorView,
> {
    match r {
        Ok(v) => Ok(v),
        Err(e) => Err(e.under(PathStepView::Field(name))),
    }
}

/// The result `r` of decoding the item at `index`, seen from the list.
pub open spec fn in_item<T>(index: int, r: Result<T, DecodeErrorView>) -> Result<
    T,
    DecodeErrorView,
> {
    match r {
        Ok(v) => Ok(v),
        Err(e) => Err(e.under(PathStepView::Index(index))),
    }
}

/// The result `r` of decoding a member that may be absent.
pub open spec fn optional<T>(r: Result<T, DecodeErrorView>) -> Result<Option<T>, DecodeErrorView> {
    match r {
        Ok(v) => Ok(Some(v)),
        Err(e) => Err(e),
    }
}

/// The mathematical form of the result of a decoding.
pub open spec fn outcome<T: DeepView>(r: Result<T, DecodeError>) -> Result<T::V, DecodeErrorView> {
    match r {
        Ok(v) => Ok(v.deep_view()),
        Err(e) => Err(e@),
    }
}

impl DecodeError {
    /// The failure `fault` at the place where decoding stands.
    pub fn new(fault: DecodeFault) -> (e: DecodeError)
        ensures
            e@ == fail(fault),
    {
        let e = DecodeError { fault, path: Vec::new() };
        assert(e@.path =~= Seq::empty());
        e
    }

    /// The failure `fault` of the member `name`.
    pub fn at(fault: DecodeFault, name: &str) -> (e: DecodeError)
        ensures
            e@ == fail_at(fault, name@),
    {
        let mut path: Vec<PathStep> = Vec::new();
        path.push(PathStep::Field(name.to_owned()));
        let e = DecodeError { fault, path };
        assert(e@.path =~= seq![PathStepView::Field(name@)]);
        e
    }

    /// The same failure, seen from the record that holds the member `name`.
    pub fn under_field(self, name: &str) -> (e: DecodeError)
        ensures
            e@ == self@.under(PathStepView::Field(name@)),
    {
        let mut path = self.path;
        let ghost before = path.deep_view();
        path.insert(0, PathStep::Field(name.to_owned()));
        let e = DecodeError { fault: self.fault, path };
        assert(e@.path =~= seq![PathStepView::Field(name@)] + before);
        e
    }

    /// The same failure, seen from the list that holds the item at `index`.
    pub fn under_index(self, index: usize) -> (e: DecodeError)
        ensures
            e@ == self@.under(PathStepView::Index(index as int)),
    {
        let mut path = self.path;
        let ghost before = path.deep_view();
        path.insert(0, PathStep::Index(index));
        let e = DecodeError { fault: self.fault, path };
        assert(e@.path =~= seq![PathStepView::Index(index as int)] + before);
        e
    }

    /// What was wrong.
    pub fn get_fault(&self) -> (f: DecodeFault)
        ensures
            f == self@.fault,
    {
        self.fault
    }

    /// The path to the place, outermost step first.
    pub fn get_path(&self) -> (p: &Vec<PathStep>)
        ensures
            p.deep_view() == self@.path,
    {
        &self.path
    }
}

/// Text on the wire.
pub open spec fn text_encode(s: Seq<char>) -> WireView {
    WireView::Text(s)
}

/// The text that a wire value holds.
pub open spec fn text_decode(w: WireView) -> Result<Seq<char>, DecodeErrorView> {
    match w {
        WireView::Text(s) => Ok(s),
        _ => Err(fail(DecodeFault::ExpectedText)),
    }
}

/// Text that may be absent: null stands for absence.
pub open spec fn optional_text_encode(s: Option<Seq<char>>) -> WireView {
    match s {
        Some(s) => WireView::Text(s),
        None => WireView::Null,
    }
}

/// A truth value that may be absent: null stands for absence.
pub open spec fn optional_bool_encode(b: Option<bool>) -> WireView {
    match b {
        Some(b) => WireView::Bool(b),
        None => WireView::Null,
    }
}

/// The truth value that a wire value holds.
pub open spec fn bool_decode(w: WireView) -> Result<bool, DecodeErrorView> {
    match w {
        WireView::Bool(b) => Ok(b),
        _ => Err(fail(DecodeFault::ExpectedBool)),
    }
}

/// The text `s` as a wire value.
pub fn encode_text(s: &String) -> (w: Wire)
    ensures
        w@ == text_encode(s@),
{
    Wire::Text(s.clone())
}

/// The text that `w` holds.
pub fn decode_text(w: &Wire) -> (r: Result<String, DecodeError>)
    ensures
        outcome(r) == text_decode(w@),
{
    match w {
        Wire::Text(s) => Ok(s.clone()),
        _ => Err(DecodeError::new(DecodeFault::ExpectedText)),
    }
}

/// The text `s`, or null where there is none.
pub fn encode_optional_text(s: &Option<String>) -> (w: Wire)
    ensures
        w@ == optional_text_encode(s.deep_view()),
{
    match s {
        Some(s) => Wire::Text(s.clone()),
        None => Wire::Null,
    }
}

/// The truth value `b`, or null where there is none.
pub fn encode_optional_bool(b: &Option<bool>) -> (w: Wire)
    ensures
        w@ == optional_bool_encode(*b),
{
    match b {
        Some(b) => Wire::Bool(*b),
        None => Wire::Null,
    }
}

/// The truth value that `w` holds.
pub fn decode_bool(w: &Wire) -> (r: Result<bool, DecodeError>)
    ensures
        outcome(r) == bool_decode(w@),
{
    match w {
        Wire::Bool(b) => Ok(*b),
        _ => Err(DecodeError::new(DecodeFault::ExpectedBool)),
    }
}

} // verus!
