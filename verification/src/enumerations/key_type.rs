use vstd::prelude::*;
use crate::wire::{
    fail, outcome, same_text, DecodeError, DecodeErrorView, DecodeFault, Wire, WireView,
};

verus! {

/// Enumeration of the kinds of element that a key of a reference can point at.
#[derive(Clone, Copy, Debug, PartialEq, Eq, Structural)]
pub enum KeyType {
    AnnotatedRelationshipElement,
    AssetAdministrationShell,
    BasicEventElement,
    Blob,
    Capability,
    ConceptDescription,
    DataElement,
    Entity,
    EventElement,
    File,
    FragmentReference,
    GlobalReference,
    Identifiable,
    MultiLanguageProperty,
    Operation,
    Property,
    Range,
    Referable,
    ReferenceElement,
    RelationshipElement,
    Submodel,
    SubmodelElement,
    SubmodelElementCollection,
    SubmodelElementList,
}

impl View for KeyType {
    type V = KeyType;

    open spec fn view(&self) -> KeyType {
        *self
    }
}

impl DeepView for KeyType {
    type V = KeyType;

    open spec fn deep_view(&self) -> KeyType {
        *self
    }
}

impl KeyType {
    /// The literal that stands for the value on the wire.
    pub open spec fn literal(self) -> Seq<char> {
        match self {
            KeyType::AnnotatedRelationshipElement => "AnnotatedRelationshipElement"@,
            KeyType::AssetAdministrationShell => "AssetAdministrationShell"@,
            KeyType::BasicEventElement => "BasicEventElement"@,
            KeyType::Blob => "Blob"@,
            KeyType::Capability => "Capability"@,
            KeyType::ConceptDescription => "ConceptDescription"@,
            KeyType::DataElement => "DataElement"@,
            KeyType::Entity => "Entity"@,
            KeyType::EventElement => "EventElement"@,
            KeyType::File => "File"@,
            KeyType::FragmentReference => "FragmentReference"@,
            KeyType::GlobalReference => "GlobalReference"@,
            KeyType::Identifiable => "Identifiable"@,
            KeyType::MultiLanguageProperty => "MultiLanguageProperty"@,
            KeyType::Operation => "Operation"@,
            KeyType::Property => "Property"@,
            KeyType::Range => "Range"@,
            KeyType::Referable => "Referable"@,
            KeyType::ReferenceElement => "ReferenceElement"@,
            KeyType::RelationshipElement => "RelationshipElement"@,
            KeyType::Submodel => "Submodel"@,
            KeyType::SubmodelElement => "SubmodelElement"@,
            KeyType::SubmodelElementCollection => "SubmodelElementCollection"@,
            KeyType::SubmodelElementList => "SubmodelElementList"@,
        }
    }

    /// The value that the literal `s` stands for.
    #[verifier::opaque]
    pub open spec fn from_literal(s: Seq<char>) -> Option<KeyType> {
        if s == "AnnotatedRelationshipElement"@ {
            Some(KeyType::AnnotatedRelationshipElement)
        } else if s == "AssetAdministrationShell"@ {
            Some(KeyType::AssetAdministrationShell)
        } else if s == "BasicEventElement"@ {
            Some(KeyType::BasicEventElement)
        } else if s == "Blob"@ {
            Some(KeyType::Blob)
        } else if s == "Capability"@ {
            Some(KeyType::Capability)
        } else if s == "ConceptDescription"@ {
            Some(KeyType::ConceptDescription)
        } else if s == "DataElement"@ {
            Some(KeyType::DataElement)
        } else if s == "Entity"@ {
            Some(KeyType::Entity)
        } else if s == "EventElement"@ {
            Some(KeyType::EventElement)
        } else if s == "File"@ {
            Some(KeyType::File)
        } else if s == "FragmentReference"@ {
            Some(KeyType::FragmentReference)
        } else if s == "GlobalReference"@ {
            Some(KeyType::GlobalReference)
        } else if s == "Identifiable"@ {
            Some(KeyType::Identifiable)
        } else if s == "MultiLanguageProperty"@ {
            Some(KeyType::MultiLanguageProperty)
        } else if s == "Operation"@ {
            Some(KeyType::Operation)
        } else if s == "Property"@ {
            Some(KeyType::Property)
        } else if s == "Range"@ {
            Some(KeyType::Range)
        } else if s == "Referable"@ {
            Some(KeyType::Referable)
        } else if s == "ReferenceElement"@ {
            Some(KeyType::ReferenceElement)
        } else if s == "RelationshipElement"@ {
            Some(KeyType::RelationshipElement)
        } else if s == "Submodel"@ {
            Some(KeyType::Submodel)
        } else if s == "SubmodelElement"@ {
            Some(KeyType::SubmodelElement)
        } else if s == "SubmodelElementCollection"@ {
            Some(KeyType::SubmodelElementCollection)
        } else if s == "SubmodelElementList"@ {
            Some(KeyType::SubmodelElementList)
        } else {
            None
        }
    }

    /// Whether the kind is that of a root of the document: a shell, a submodel
    /// or a concept description.
    pub open spec fn is_root(self) -> bool {
        self == KeyType::AssetAdministrationShell
            || self == KeyType::Submodel
            || self == KeyType::ConceptDescription
    }

    /// Whether the kind is that of a root of the document.
    pub fn is_root_kind(&self) -> (r: bool)
        ensures
            r == self.is_root(),
    {
        match self {
            KeyType::AssetAdministrationShell | KeyType::Submodel | KeyType::ConceptDescription =>
                true,
            _ => false,
        }
    }

    /// Whether the kind is that of a submodel element, concrete or abstract.
    pub open spec fn is_element(self) -> bool {
        self == KeyType::AnnotatedRelationshipElement
            || self == KeyType::BasicEventElement
            || self == KeyType::Blob
            || self == KeyType::Capability
            || self == KeyType::DataElement
            || self == KeyType::Entity
            || self == KeyType::EventElement
            || self == KeyType::File
            || self == KeyType::MultiLanguageProperty
            || self == KeyType::Operation
            || self == KeyType::Property
            || self == KeyType::Range
            || self == KeyType::ReferenceElement
            || self == KeyType::RelationshipElement
            || self == KeyType::SubmodelElement
            || self == KeyType::SubmodelElementCollection
            || self == KeyType::SubmodelElementList
    }

    /// Whether the kind is that of a submodel element, concrete or abstract.
    pub fn is_element_kind(&self) -> (r: bool)
        ensures
            r == self.is_element(),
    {
        match self {
            KeyType::AnnotatedRelationshipElement
                | KeyType::BasicEventElement
                | KeyType::Blob
                | KeyType::Capability
                | KeyType::DataElement
                | KeyType::Entity
                | KeyType::EventElement
                | KeyType::File
                | KeyType::MultiLanguageProperty
                | KeyType::Operation
                | KeyType::Property
                | KeyType::Range
                | KeyType::ReferenceElement
                | KeyType::RelationshipElement
                | KeyType::SubmodelElement
                | KeyType::SubmodelElementCollection
                | KeyType::SubmodelElementList => true,
            _ => false,
        }
    }

    /// Whether the kind is that of a data element, concrete or abstract.
    pub open spec fn is_data_element(self) -> bool {
        self == KeyType::Blob
            || self == KeyType::DataElement
            || self == KeyType::File
            || self == KeyType::MultiLanguageProperty
            || self == KeyType::Property
            || self == KeyType::Range
            || self == KeyType::ReferenceElement
    }

    /// Whether the kind is that of a data element, concrete or abstract.
    pub fn is_data_element_kind(&self) -> (r: bool)
        ensures
            r == self.is_data_element(),
    {
        match self {
            KeyType::Blob
                | KeyType::DataElement
                | KeyType::File
                | KeyType::MultiLanguageProperty
                | KeyType::Property
                | KeyType::Range
                | KeyType::ReferenceElement => true,
            _ => false,
        }
    }

    /// Whether an element of the kind can have submodel elements as its children: as the
    /// elements of a submodel, the statements of an entity or the values of a collection
    /// or a list. An abstract kind that may stand for such an element counts.
    pub open spec fn holds_elements(self) -> bool {
        self == KeyType::Submodel
            || self == KeyType::Entity
            || self == KeyType::SubmodelElementCollection
            || self == KeyType::SubmodelElementList
            || self == KeyType::SubmodelElement
            || self == KeyType::Referable
            || self == KeyType::Identifiable
    }

    /// Whether an element of the kind can have submodel elements as its children: as the
    /// elements of a submodel, the statements of an entity or the values of a collection
    /// or a list. An abstract kind that may stand for such an element counts.
    pub fn holds_elements_kind(&self) -> (r: bool)
        ensures
            r == self.holds_elements(),
    {
        match self {
            KeyType::Submodel
                | KeyType::Entity
                | KeyType::SubmodelElementCollection
                | KeyType::SubmodelElementList
                | KeyType::SubmodelElement
                | KeyType::Referable
                | KeyType::Identifiable => true,
            _ => false,
        }
    }

    /// Whether an element of the kind can have data elements as its annotations.
    pub open spec fn holds_annotations(self) -> bool {
        self == KeyType::AnnotatedRelationshipElement
            || self == KeyType::RelationshipElement
    }

    /// Whether an element of the kind can have data elements as its annotations.
    pub fn holds_annotations_kind(&self) -> (r: bool)
        ensures
            r == self.holds_annotations(),
    {
        match self {
            KeyType::AnnotatedRelationshipElement
                | KeyType::RelationshipElement => true,
            _ => false,
        }
    }

    /// Whether a key of the kind `child` can follow a key of this kind in the
    /// path of a model reference, going by the kinds alone: the child enters
    /// the submodel elements, statements or values of its parent, or its
    /// annotations, and is of a kind that stands there.
    #[verifier::opaque]
    pub open spec fn admits_child(self, child: KeyType) -> bool {
        ||| self.holds_elements() && child.is_element()
        ||| self.holds_annotations() && child.is_data_element()
    }

    /// Whether a key of the kind `child` can follow a key of this kind in the
    /// path of a model reference, going by the kinds alone.
    pub fn admits_child_kind(&self, child: &KeyType) -> (r: bool)
        ensures
            r == self.admits_child(*child),
    {
        proof {
            reveal(KeyType::admits_child);
        }
        (self.holds_elements_kind() && child.is_element_kind()) || (self.holds_annotations_kind()
            && child.is_data_element_kind())
    }

    /// The value on the wire: its literal, as text.
    pub open spec fn to_wire(self) -> WireView {
        WireView::Text(self.literal())
    }

    /// A value that may be absent on the wire: null stands for absence.
    pub open spec fn optional_to_wire(v: Option<KeyType>) -> WireView {
        match v {
            Some(v) => v.to_wire(),
            None => WireView::Null,
        }
    }

    /// The value that a wire value stands for.
    pub open spec fn from_wire(w: WireView) -> Result<KeyType, DecodeErrorView> {
        match w {
            WireView::Text(s) => match KeyType::from_literal(s) {
                Some(v) => Ok(v),
                None => Err(fail(DecodeFault::UnknownLiteral)),
            },
            _ => Err(fail(DecodeFault::ExpectedText)),
        }
    }

    /// Every value is found again from its literal.
    pub proof fn lemma_literal_round_trip(self)
        ensures
            KeyType::from_literal(self.literal()) == Some(self),
    {
        reveal(KeyType::from_literal);
        reveal_strlit("AnnotatedRelationshipElement");
        reveal_strlit("AssetAdministrationShell");
        reveal_strlit("BasicEventElement");
        reveal_strlit("Blob");
        reveal_strlit("Capability");
        reveal_strlit("ConceptDescription");
        reveal_strlit("DataElement");
        reveal_strlit("Entity");
        reveal_strlit("EventElement");
        reveal_strlit("File");
        reveal_strlit("FragmentReference");
        reveal_strlit("GlobalReference");
        reveal_strlit("Identifiable");
        reveal_strlit("MultiLanguageProperty");
        reveal_strlit("Operation");
        reveal_strlit("Property");
        reveal_strlit("Range");
        reveal_strlit("Referable");
        reveal_strlit("ReferenceElement");
        reveal_strlit("RelationshipElement");
        reveal_strlit("Submodel");
        reveal_strlit("SubmodelElement");
        reveal_strlit("SubmodelElementCollection");
        reveal_strlit("SubmodelElementList");
        assert(
            "AnnotatedRelationshipElement"@.len() == 28
                && "AnnotatedRelationshipElement"@[0] == 'A'
        );
        assert("AssetAdministrationShell"@.len() == 24 && "AssetAdministrationShell"@[0] == 'A');
        assert("BasicEventElement"@.len() == 17 && "BasicEventElement"@[0] == 'B');
        assert("Blob"@.len() == 4 && "Blob"@[0] == 'B');
        assert("Capability"@.len() == 10 && "Capability"@[0] == 'C');
        assert("ConceptDescription"@.len() == 18 && "ConceptDescription"@[0] == 'C');
        assert("DataElement"@.len() == 11 && "DataElement"@[0] == 'D');
        assert("Entity"@.len() == 6 && "Entity"@[0] == 'E');
        assert("EventElement"@.len() == 12 && "EventElement"@[0] == 'E');
        assert("File"@.len() == 4 && "File"@[0] == 'F');
        assert("FragmentReference"@.len() == 17 && "FragmentReference"@[0] == 'F');
        assert("GlobalReference"@.len() == 15 && "GlobalReference"@[0] == 'G');
        assert("Identifiable"@.len() == 12 && "Identifiable"@[0] == 'I');
        assert("MultiLanguageProperty"@.len() == 21 && "MultiLanguageProperty"@[0] == 'M');
        assert("Operation"@.len() == 9 && "Operation"@[0] == 'O');
        assert("Property"@.len() == 8 && "Property"@[0] == 'P');
        assert("Range"@.len() == 5 && "Range"@[0] == 'R');
        assert("Referable"@.len() == 9 && "Referable"@[0] == 'R');
        assert("ReferenceElement"@.len() == 16 && "ReferenceElement"@[0] == 'R');
        assert("RelationshipElement"@.len() == 19 && "RelationshipElement"@[0] == 'R');
        assert("Submodel"@.len() == 8 && "Submodel"@[0] == 'S');
        assert("SubmodelElement"@.len() == 15 && "SubmodelElement"@[0] == 'S');
        assert("SubmodelElementCollection"@.len() == 25 && "SubmodelElementCollection"@[0] == 'S');
        assert("SubmodelElementList"@.len() == 19 && "SubmodelElementList"@[0] == 'S');
    }

    /// A text stands for a value only where it is the literal of that value.
    pub proof fn lemma_literal_unique(s: Seq<char>)
        ensures
            KeyType::from_literal(s) matches Some(v) ==> v.literal() == s,
    {
        reveal(KeyType::from_literal);
    }

    /// Every value is found again from what it is on the wire.
    pub proof fn lemma_round_trip(self)
        ensures
            KeyType::from_wire(self.to_wire()) == Ok::<KeyType, DecodeErrorView>(self),
    {
        self.lemma_literal_round_trip();
    }

    /// The literal that stands for the value on the wire.
    pub fn as_str(&self) -> (s: &'static str)
        ensures
            s@ == self.literal(),
    {
        match self {
            KeyType::AnnotatedRelationshipElement => "AnnotatedRelationshipElement",
            KeyType::AssetAdministrationShell => "AssetAdministrationShell",
            KeyType::BasicEventElement => "BasicEventElement",
            KeyType::Blob => "Blob",
            KeyType::Capability => "Capability",
            KeyType::ConceptDescription => "ConceptDescription",
            KeyType::DataElement => "DataElement",
            KeyType::Entity => "Entity",
            KeyType::EventElement => "EventElement",
            KeyType::File => "File",
            KeyType::FragmentReference => "FragmentReference",
            KeyType::GlobalReference => "GlobalReference",
            KeyType::Identifiable => "Identifiable",
            KeyType::MultiLanguageProperty => "MultiLanguageProperty",
            KeyType::Operation => "Operation",
            KeyType::Property => "Property",
            KeyType::Range => "Range",
            KeyType::Referable => "Referable",
            KeyType::ReferenceElement => "ReferenceElement",
            KeyType::RelationshipElement => "RelationshipElement",
            KeyType::Submodel => "Submodel",
            KeyType::SubmodelElement => "SubmodelElement",
            KeyType::SubmodelElementCollection => "SubmodelElementCollection",
            KeyType::SubmodelElementList => "SubmodelElementList",
        }
    }

    /// The value that the literal `s` stands for; `None` where it stands for none.
    pub fn parse(s: &str) -> (r: Option<KeyType>)
        ensures
            r == KeyType::from_literal(s@),
    {
        proof {
            reveal(KeyType::from_literal);
        }
        if same_text(s, "AnnotatedRelationshipElement") {
            Some(KeyType::AnnotatedRelationshipElement)
        } else if same_text(s, "AssetAdministrationShell") {
            Some(KeyType::AssetAdministrationShell)
        } else if same_text(s, "BasicEventElement") {
            Some(KeyType::BasicEventElement)
        } else if same_text(s, "Blob") {
            Some(KeyType::Blob)
        } else if same_text(s, "Capability") {
            Some(KeyType::Capability)
        } else if same_text(s, "ConceptDescription") {
            Some(KeyType::ConceptDescription)
        } else if same_text(s, "DataElement") {
            Some(KeyType::DataElement)
        } else if same_text(s, "Entity") {
            Some(KeyType::Entity)
        } else if same_text(s, "EventElement") {
            Some(KeyType::EventElement)
        } else if same_text(s, "File") {
            Some(KeyType::File)
        } else if same_text(s, "FragmentReference") {
            Some(KeyType::FragmentReference)
        } else if same_text(s, "GlobalReference") {
            Some(KeyType::GlobalReference)
        } else if same_text(s, "Identifiable") {
            Some(KeyType::Identifiable)
        } else if same_text(s, "MultiLanguageProperty") {
            Some(KeyType::MultiLanguageProperty)
        } else if same_text(s, "Operation") {
            Some(KeyType::Operation)
        } else if same_text(s, "Property") {
            Some(KeyType::Property)
        } else if same_text(s, "Range") {
            Some(KeyType::Range)
        } else if same_text(s, "Referable") {
            Some(KeyType::Referable)
        } else if same_text(s, "ReferenceElement") {
            Some(KeyType::ReferenceElement)
        } else if same_text(s, "RelationshipElement") {
            Some(KeyType::RelationshipElement)
        } else if same_text(s, "Submodel") {
            Some(KeyType::Submodel)
        } else if same_text(s, "SubmodelElement") {
            Some(KeyType::SubmodelElement)
        } else if same_text(s, "SubmodelElementCollection") {
            Some(KeyType::SubmodelElementCollection)
        } else if same_text(s, "SubmodelElementList") {
            Some(KeyType::SubmodelElementList)
        } else {
            None
        }
    }

    /// The value as it travels.
    pub fn encode(&self) -> (w: Wire)
        ensures
            w@ == self.to_wire(),
            KeyType::from_wire(w@) == Ok::<KeyType, DecodeErrorView>(*self),
    {
        proof {
            self.lemma_round_trip();
        }
        Wire::text(self.as_str())
    }

    /// The value as it travels, or null where there is none.
    pub fn encode_optional(v: &Option<KeyType>) -> (w: Wire)
        ensures
            w@ == KeyType::optional_to_wire(*v),
    {
        match v {
            Some(v) => v.encode(),
            None => Wire::Null,
        }
    }

    /// The value that `w` stands for.
    pub fn decode(w: &Wire) -> (r: Result<KeyType, DecodeError>)
        ensures
            outcome(r) == KeyType::from_wire(w@),
    {
        match w {
            Wire::Text(s) => match KeyType::parse(s.as_str()) {
                Some(v) => Ok(v),
                None => Err(DecodeError::new(DecodeFault::UnknownLiteral)),
            },
            _ => Err(DecodeError::new(DecodeFault::ExpectedText)),
        }
    }
}

} // verus!
