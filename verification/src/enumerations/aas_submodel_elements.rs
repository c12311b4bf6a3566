use vstd::prelude::*;
use crate::wire::{
    fail, outcome, same_text, DecodeError, DecodeErrorView, DecodeFault, Wire, WireView,
};

verus! {

/// Enumeration of submodel element types including abstract submodel element types.
#[derive(Clone, Copy, Debug, PartialEq, Eq, Structural)]
pub enum AasSubmodelElements {
    SubmodelElement,
    AnnotatedRelationshipElement,
    Entity,
    SubmodelElementCollection,
    SubmodelElementList,
    BasicEventElement,
    Blob,
    Capability,
    DataElement,
    EventElement,
    File,
    MultiLanguageProperty,
    Operation,
    Property,
    Range,
    ReferenceElement,
    RelationshipElement,
}

impl View for AasSubmodelElements {
    type V = AasSubmodelElements;

    open spec fn view(&self) -> AasSubmodelElements {
        *self
    }
}

impl DeepView for AasSubmodelElements {
    type V = AasSubmodelElements;

    open spec fn deep_view(&self) -> AasSubmodelElements {
        *self
    }
}

impl AasSubmodelElements {
    /// The literal that stands for the value on the wire.
    pub open spec fn literal(self) -> Seq<char> {
        match self {
            AasSubmodelElements::SubmodelElement => "SubmodelElement"@,
            AasSubmodelElements::AnnotatedRelationshipElement => "AnnotatedRelationshipElement"@,
            AasSubmodelElements::Entity => "Entity"@,
            AasSubmodelElements::SubmodelElementCollection => "SubmodelElementCollection"@,
            AasSubmodelElements::SubmodelElementList => "SubmodelElementList"@,
            AasSubmodelElements::BasicEventElement => "BasicEventElement"@,
            AasSubmodelElements::Blob => "Blob"@,
            AasSubmodelElements::Capability => "Capability"@,
            AasSubmodelElements::DataElement => "DataElement"@,
            AasSubmodelElements::EventElement => "EventElement"@,
            AasSubmodelElements::File => "File"@,
            AasSubmodelElements::MultiLanguageProperty => "MultiLanguageProperty"@,
            AasSubmodelElements::Operation => "Operation"@,
            AasSubmodelElements::Property => "Property"@,
            AasSubmodelElements::Range => "Range"@,
            AasSubmodelElements::ReferenceElement => "ReferenceElement"@,
            AasSubmodelElements::RelationshipElement => "RelationshipElement"@,
        }
    }

    /// The value that the literal `s` stands for.
    #[verifier::opaque]
    pub open spec fn from_literal(s: Seq<char>) -> Option<AasSubmodelElements> {
        if s == "SubmodelElement"@ {
            Some(AasSubmodelElements::SubmodelElement)
        } else if s == "AnnotatedRelationshipElement"@ {
            Some(AasSubmodelElements::AnnotatedRelationshipElement)
        } else if s == "Entity"@ {
            Some(AasSubmodelElements::Entity)
        } else if s == "SubmodelElementCollection"@ {
            Some(AasSubmodelElements::SubmodelElementCollection)
        } else if s == "SubmodelElementList"@ {
            Some(AasSubmodelElements::SubmodelElementList)
        } else if s == "BasicEventElement"@ {
            Some(AasSubmodelElements::BasicEventElement)
        } else if s == "Blob"@ {
            Some(AasSubmodelElements::Blob)
        } else if s == "Capability"@ {
            Some(AasSubmodelElements::Capability)
        } else if s == "DataElement"@ {
            Some(AasSubmodelElements::DataElement)
        } else if s == "EventElement"@ {
            Some(AasSubmodelElements::EventElement)
        } else if s == "File"@ {
            Some(AasSubmodelElements::File)
        } else if s == "MultiLanguageProperty"@ {
            Some(AasSubmodelElements::MultiLanguageProperty)
        } else if s == "Operation"@ {
            Some(AasSubmodelElements::Operation)
        } else if s == "Property"@ {
            Some(AasSubmodelElements::Property)
        } else if s == "Range"@ {
            Some(AasSubmodelElements::Range)
        } else if s == "ReferenceElement"@ {
            Some(AasSubmodelElements::ReferenceElement)
        } else if s == "RelationshipElement"@ {
            Some(AasSubmodelElements::RelationshipElement)
        } else {
            None
        }
    }

    /// The value on the wire: its literal, as text.
    pub open spec fn to_wire(self) -> WireView {
        WireView::Text(self.literal())
    }

    /// A value that may be absent on the wire: null stands for absence.
    pub open spec fn optional_to_wire(v: Option<AasSubmodelElements>) -> WireView {
        match v {
            Some(v) => v.to_wire(),
            None => WireView::Null,
        }
    }

    /// The value that a wire value stands for.
    pub open spec fn from_wire(w: WireView) -> Result<AasSubmodelElements, DecodeErrorView> {
        match w {
            WireView::Text(s) => match AasSubmodelElements::from_literal(s) {
                Some(v) => Ok(v),
                None => Err(fail(DecodeFault::UnknownLiteral)),
            },
            _ => Err(fail(DecodeFault::ExpectedText)),
        }
    }

    /// Every value is found again from its literal.
    pub proof fn lemma_literal_round_trip(self)
        ensures
            AasSubmodelElements::from_literal(self.literal()) == Some(self),
    {
        reveal(AasSubmodelElements::from_literal);
        reveal_strlit("SubmodelElement");
        reveal_strlit("AnnotatedRelationshipElement");
        reveal_strlit("Entity");
        reveal_strlit("SubmodelElementCollection");
        reveal_strlit("SubmodelElementList");
        reveal_strlit("BasicEventElement");
        reveal_strlit("Blob");
        reveal_strlit("Capability");
        reveal_strlit("DataElement");
        reveal_strlit("EventElement");
        reveal_strlit("File");
        reveal_strlit("MultiLanguageProperty");
        reveal_strlit("Operation");
        reveal_strlit("Property");
        reveal_strlit("Range");
        reveal_strlit("ReferenceElement");
        reveal_strlit("RelationshipElement");
        assert("SubmodelElement"@.len() == 15 && "SubmodelElement"@[0] == 'S');
        assert(
            "AnnotatedRelationshipElement"@.len() == 28
                && "AnnotatedRelationshipElement"@[0] == 'A'
        );
        assert("Entity"@.len() == 6 && "Entity"@[0] == 'E');
        assert("SubmodelElementCollection"@.len() == 25 && "SubmodelElementCollection"@[0] == 'S');
        assert("SubmodelElementList"@.len() == 19 && "SubmodelElementList"@[0] == 'S');
        assert("BasicEventElement"@.len() == 17 && "BasicEventElement"@[0] == 'B');
        assert("Blob"@.len() == 4 && "Blob"@[0] == 'B');
        assert("Capability"@.len() == 10 && "Capability"@[0] == 'C');
        assert("DataElement"@.len() == 11 && "DataElement"@[0] == 'D');
        assert("EventElement"@.len() == 12 && "EventElement"@[0] == 'E');
        assert("File"@.len() == 4 && "File"@[0] == 'F');
        assert("MultiLanguageProperty"@.len() == 21 && "MultiLanguageProperty"@[0] == 'M');
        assert("Operation"@.len() == 9 && "Operation"@[0] == 'O');
        assert("Property"@.len() == 8 && "Property"@[0] == 'P');
        assert("Range"@.len() == 5 && "Range"@[0] == 'R');
        assert("ReferenceElement"@.len() == 16 && "ReferenceElement"@[0] == 'R');
        assert("RelationshipElement"@.len() == 19 && "RelationshipElement"@[0] == 'R');
    }

    /// A text stands for a value only where it is the literal of that value.
    pub proof fn lemma_literal_unique(s: Seq<char>)
        ensures
            AasSubmodelElements::from_literal(s) matches Some(v) ==> v.literal() == s,
    {
        reveal(AasSubmodelElements::from_literal);
    }

    /// Every value is found again from what it is on the wire.
    pub proof fn lemma_round_trip(self)
        ensures
            AasSubmodelElements::from_wire(self.to_wire()) ==
                Ok::<AasSubmodelElements, DecodeErrorView>(self),
    {
        self.lemma_literal_round_trip();
    }

    /// The literal that stands for the value on the wire.
    pub fn as_str(&self) -> (s: &'static str)
        ensures
            s@ == self.literal(),
    {
        match self {
            AasSubmodelElements::SubmodelElement => "SubmodelElement",
            AasSubmodelElements::AnnotatedRelationshipElement => "AnnotatedRelationshipElement",
            AasSubmodelElements::Entity => "Entity",
            AasSubmodelElements::SubmodelElementCollection => "SubmodelElementCollection",
            AasSubmodelElements::SubmodelElementList => "SubmodelElementList",
            AasSubmodelElements::BasicEventElement => "BasicEventElement",
            AasSubmodelElements::Blob => "Blob",
            AasSubmodelElements::Capability => "Capability",
            AasSubmodelElements::DataElement => "DataElement",
            AasSubmodelElements::EventElement => "EventElement",
            AasSubmodelElements::File => "File",
            AasSubmodelElements::MultiLanguageProperty => "MultiLanguageProperty",
            AasSubmodelElements::Operation => "Operation",
            AasSubmodelElements::Property => "Property",
            AasSubmodelElements::Range => "Range",
            AasSubmodelElements::ReferenceElement => "ReferenceElement",
            AasSubmodelElements::RelationshipElement => "RelationshipElement",
        }
    }

    /// The value that the literal `s` stands for; `None` where it stands for none.
    pub fn parse(s: &str) -> (r: Option<AasSubmodelElements>)
        ensures
            r == AasSubmodelElements::from_literal(s@),
    {
        proof {
            reveal(AasSubmodelElements::from_literal);
        }
        if same_text(s, "SubmodelElement") {
            Some(AasSubmodelElements::SubmodelElement)
        } else if same_text(s, "AnnotatedRelationshipElement") {
            Some(AasSubmodelElements::AnnotatedRelationshipElement)
        } else if same_text(s, "Entity") {
            Some(AasSubmodelElements::Entity)
        } else if same_text(s, "SubmodelElementCollection") {
            Some(AasSubmodelElements::SubmodelElementCollection)
        } else if same_text(s, "SubmodelElementList") {
            Some(AasSubmodelElements::SubmodelElementList)
        } else if same_text(s, "BasicEventElement") {
            Some(AasSubmodelElements::BasicEventElement)
        } else if same_text(s, "Blob") {
            Some(AasSubmodelElements::Blob)
        } else if same_text(s, "Capability") {
            Some(AasSubmodelElements::Capability)
        } else if same_text(s, "DataElement") {
            Some(AasSubmodelElements::DataElement)
        } else if same_text(s, "EventElement") {
            Some(AasSubmodelElements::EventElement)
        } else if same_text(s, "File") {
            Some(AasSubmodelElements::File)
        } else if same_text(s, "MultiLanguageProperty") {
            Some(AasSubmodelElements::MultiLanguageProperty)
        } else if same_text(s, "Operation") {
            Some(AasSubmodelElements::Operation)
        } else if same_text(s, "Property") {
            Some(AasSubmodelElements::Property)
        } else if same_text(s, "Range") {
            Some(AasSubmodelElements::Range)
        } else if same_text(s, "ReferenceElement") {
            Some(AasSubmodelElements::ReferenceElement)
        } else if same_text(s, "RelationshipElement") {
            Some(AasSubmodelElements::RelationshipElement)
        } else {
            None
        }
    }

    /// The value as it travels.
    pub fn encode(&self) -> (w: Wire)
        ensures
            w@ == self.to_wire(),
            AasSubmodelElements::from_wire(w@) == Ok::<AasSubmodelElements, DecodeErrorView>(*self),
    {
        proof {
            self.lemma_round_trip();
        }
        Wire::text(self.as_str())
    }

    /// The value as it travels, or null where there is none.
    pub fn encode_optional(v: &Option<AasSubmodelElements>) -> (w: Wire)
        ensures
            w@ == AasSubmodelElements::optional_to_wire(*v),
    {
        match v {
            Some(v) => v.encode(),
            None => Wire::Null,
        }
    }

    /// The value that `w` stands for.
    pub fn decode(w: &Wire) -> (r: Result<AasSubmodelElements, DecodeError>)
        ensures
            outcome(r) == AasSubmodelElements::from_wire(w@),
    {
        match w {
            Wire::Text(s) => match AasSubmodelElements::parse(s.as_str()) {
                Some(v) => Ok(v),
                None => Err(DecodeError::new(DecodeFault::UnknownLiteral)),
            },
            _ => Err(DecodeError::new(DecodeFault::ExpectedText)),
        }
    }
}

} // verus!
