use vstd::prelude::*;
use crate::wire::{
    fail, outcome, same_text, DecodeError, DecodeErrorView, DecodeFault, Wire, WireView,
};

verus! {

/// Enumeration for denoting what a qualifier says something about.
#[derive(Clone, Copy, Debug, PartialEq, Eq, Structural)]
pub enum QualifierKind {
    /// Qualifies the value of the element.
    ValueQualifier,
    /// Qualifies the semantic definition of the element.
    ConceptQualifier,
    /// Qualifies the elements of a template.
    TemplateQualifier,
}

impl View for QualifierKind {
    type V = QualifierKind;

    open spec fn view(&self) -> QualifierKind {
        *self
    }
}

impl DeepView for QualifierKind {
    type V = QualifierKind;

    open spec fn deep_view(&self) -> QualifierKind {
        *self
    }
}

impl QualifierKind {
    /// The literal that stands for the value on the wire.
    pub open spec fn literal(self) -> Seq<char> {
        match self {
            QualifierKind::ValueQualifier => "Value"@,
            QualifierKind::ConceptQualifier => "Concept"@,
            QualifierKind::TemplateQualifier => "Template"@,
        }
    }

    /// The value that the literal `s` stands for.
    #[verifier::opaque]
    pub open spec fn from_literal(s: Seq<char>) -> Option<QualifierKind> {
        if s == "Value"@ {
            Some(QualifierKind::ValueQualifier)
        } else if s == "Concept"@ {
            Some(QualifierKind::ConceptQualifier)
        } else if s == "Template"@ {
            Some(QualifierKind::TemplateQualifier)
        } else {
            None
        }
    }

    /// The value on the wire: its literal, as text.
    pub open spec fn to_wire(self) -> WireView {
        WireView::Text(self.literal())
    }

    /// A value that may be absent on the wire: null stands for absence.
    pub open spec fn optional_to_wire(v: Option<QualifierKind>) -> WireView {
        match v {
            Some(v) => v.to_wire(),
            None => WireView::Null,
        }
    }

    /// The value that a wire value stands for.
    pub open spec fn from_wire(w: WireView) -> Result<QualifierKind, DecodeErrorView> {
        match w {
            WireView::Text(s) => match QualifierKind::from_literal(s) {
                Some(v) => Ok(v),
                None => Err(fail(DecodeFault::UnknownLiteral)),
            },
            _ => Err(fail(DecodeFault::ExpectedText)),
        }
    }

    /// Every value is found again from its literal.
    pub proof fn lemma_literal_round_trip(self)
        ensures
            QualifierKind::from_literal(self.literal()) == Some(self),
    {
        reveal(QualifierKind::from_literal);
        reveal_strlit("Value");
        reveal_strlit("Concept");
        reveal_strlit("Template");
        assert("Value"@.len() == 5);
        assert("Concept"@.len() == 7);
        assert("Template"@.len() == 8);
    }

    /// A text stands for a value only where it is the literal of that value.
    pub proof fn lemma_literal_unique(s: Seq<char>)
        ensures
            QualifierKind::from_literal(s) matches Some(v) ==> v.literal() == s,
    {
        reveal(QualifierKind::from_literal);
    }

    /// Every value is found again from what it is on the wire.
    pub proof fn lemma_round_trip(self)
        ensures
            QualifierKind::from_wire(self.to_wire()) == Ok::<QualifierKind, DecodeErrorView>(self),
    {
        self.lemma_literal_round_trip();
    }

    /// The literal that stands for the value on the wire.
    pub fn as_str(&self) -> (s: &'static str)
        ensures
            s@ == self.literal(),
    {
        match self {
            QualifierKind::ValueQualifier => "Value",
            QualifierKind::ConceptQualifier => "Concept",
            QualifierKind::TemplateQualifier => "Template",
        }
    }

    /// The value that the literal `s` stands for; `None` where it stands for none.
    pub fn parse(s: &str) -> (r: Option<QualifierKind>)
        ensures
            r == QualifierKind::from_literal(s@),
    {
        proof {
            reveal(QualifierKind::from_literal);
        }
        if same_text(s, "Value") {
            Some(QualifierKind::ValueQualifier)
        } else if same_text(s, "Concept") {
            Some(QualifierKind::ConceptQualifier)
        } else if same_text(s, "Template") {
            Some(QualifierKind::TemplateQualifier)
        } else {
            None
        }
    }

    /// The value as it travels.
    pub fn encode(&self) -> (w: Wire)
        ensures
            w@ == self.to_wire(),
            QualifierKind::from_wire(w@) == Ok::<QualifierKind, DecodeErrorView>(*self),
    {
        proof {
            self.lemma_round_trip();
        }
        Wire::text(self.as_str())
    }

    /// The value as it travels, or null where there is none.
    pub fn encode_optional(v: &Option<QualifierKind>) -> (w: Wire)
        ensures
            w@ == QualifierKind::optional_to_wire(*v),
    {
        match v {
            Some(v) => v.encode(),
            None => Wire::Null,
        }
    }

    /// The value that `w` stands for.
    pub fn decode(w: &Wire) -> (r: Result<QualifierKind, DecodeError>)
        ensures
            outcome(r) == QualifierKind::from_wire(w@),
    {
        match w {
            Wire::Text(s) => match QualifierKind::parse(s.as_str()) {
                Some(v) => Ok(v),
                None => Err(DecodeError::new(DecodeFault::UnknownLiteral)),
            },
            _ => Err(DecodeError::new(DecodeFault::ExpectedText)),
        }
    }
}

} // verus!
