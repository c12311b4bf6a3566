use vstd::prelude::*;
use crate::wire::{
    fail, outcome, same_text, DecodeError, DecodeErrorView, DecodeFault, Wire, WireView,
};

verus! {

/// Enumeration for denoting whether a reference points out of the document or into it.
#[derive(Clone, Copy, Debug, PartialEq, Eq, Structural)]
pub enum ReferenceType {
    /// Points outside the document; its keys are opaque to the model.
    ExternalReference,
    /// Points into the document by a path of keys.
    ModelReference,
}

impl View for ReferenceType {
    type V = ReferenceType;

    open spec fn view(&self) -> ReferenceType {
        *self
    }
}

impl DeepView for ReferenceType {
    type V = ReferenceType;

    open spec fn deep_view(&self) -> ReferenceType {
        *self
    }
}

impl ReferenceType {
    /// The literal that stands for the value on the wire.
    pub open spec fn literal(self) -> Seq<char> {
        match self {
            ReferenceType::ExternalReference => "ExternalReference"@,
            ReferenceType::ModelReference => "ModelReference"@,
        }
    }

    /// The value that the literal `s` stands for.
    #[verifier::opaque]
    pub open spec fn from_literal(s: Seq<char>) -> Option<ReferenceType> {
        if s == "ExternalReference"@ {
            Some(ReferenceType::ExternalReference)
        } else if s == "ModelReference"@ {
            Some(ReferenceType::ModelReference)
        } else {
            None
        }
    }

    /// The value on the wire: its literal, as text.
    pub open spec fn to_wire(self) -> WireView {
        WireView::Text(self.literal())
    }

    /// A value that may be absent on the wire: null stands for absence.
    pub open spec fn optional_to_wire(v: Option<ReferenceType>) -> WireView {
        match v {
            Some(v) => v.to_wire(),
            None => WireView::Null,
        }
    }

    /// The value that a wire value stands for.
    pub open spec fn from_wire(w: WireView) -> Result<ReferenceType, DecodeErrorView> {
        match w {
            WireView::Text(s) => match ReferenceType::from_literal(s) {
                Some(v) => Ok(v),
                None => Err(fail(DecodeFault::UnknownLiteral)),
            },
            _ => Err(fail(DecodeFault::ExpectedText)),
        }
    }

    /// Every value is found again from its literal.
    pub proof fn lemma_literal_round_trip(self)
        ensures
            ReferenceType::from_literal(self.literal()) == Some(self),
    {
        reveal(ReferenceType::from_literal);
        reveal_strlit("ExternalReference");
        reveal_strlit("ModelReference");
        assert("ExternalReference"@.len() == 17);
        assert("ModelReference"@.len() == 14);
    }

    /// A text stands for a value only where it is the literal of that value.
    pub proof fn lemma_literal_unique(s: Seq<char>)
        ensures
            ReferenceType::from_literal(s) matches Some(v) ==> v.literal() == s,
    {
        reveal(ReferenceType::from_literal);
    }

    /// Every value is found again from what it is on the wire.
    pub proof fn lemma_round_trip(self)
        ensures
            ReferenceType::from_wire(self.to_wire()) == Ok::<ReferenceType, DecodeErrorView>(self),
    {
        self.lemma_literal_round_trip();
    }

    /// The literal that stands for the value on the wire.
    pub fn as_str(&self) -> (s: &'static str)
        ensures
            s@ == self.literal(),
    {
        match self {
            ReferenceType::ExternalReference => "ExternalReference",
            ReferenceType::ModelReference => "ModelReference",
        }
    }

    /// The value that the literal `s` stands for; `None` where it stands for none.
    pub fn parse(s: &str) -> (r: Option<ReferenceType>)
        ensures
            r == ReferenceType::from_literal(s@),
    {
        proof {
            reveal(ReferenceType::from_literal);
        }
        if same_text(s, "ExternalReference") {
            Some(ReferenceType::ExternalReference)
        } else if same_text(s, "ModelReference") {
            Some(ReferenceType::ModelReference)
        } else {
            None
        }
    }

    /// The value as it travels.
    pub fn encode(&self) -> (w: Wire)
        ensures
            w@ == self.to_wire(),
            ReferenceType::from_wire(w@) == Ok::<ReferenceType, DecodeErrorView>(*self),
    {
        proof {
            self.lemma_round_trip();
        }
        Wire::text(self.as_str())
    }

    /// The value as it travels, or null where there is none.
    pub fn encode_optional(v: &Option<ReferenceType>) -> (w: Wire)
        ensures
            w@ == ReferenceType::optional_to_wire(*v),
    {
        match v {
            Some(v) => v.encode(),
            None => Wire::Null,
        }
    }

    /// The value that `w` stands for.
    pub fn decode(w: &Wire) -> (r: Result<ReferenceType, DecodeError>)
        ensures
            outcome(r) == ReferenceType::from_wire(w@),
    {
        match w {
            Wire::Text(s) => match ReferenceType::parse(s.as_str()) {
                Some(v) => Ok(v),
                None => Err(DecodeError::new(DecodeFault::UnknownLiteral)),
            },
            _ => Err(DecodeError::new(DecodeFault::ExpectedText)),
        }
    }
}

} // verus!
