use vstd::prelude::*;
use crate::wire::{
    fail, outcome, same_text, DecodeError, DecodeErrorView, DecodeFault, Wire, WireView,
};

verus! {

/// Enumeration for denoting whether an element is a template or an instance.
#[derive(Clone, Copy, Debug, PartialEq, Eq, Structural)]
pub enum ModellingKind {
    /// Specification of the common features of a structured element in sufficient detail that
    /// such an instance can be instantiated using it.
    Template,
    /// Concrete, clearly identifiable element instance. Its creation and validation may be
    /// guided by a corresponding element template.
    Instance,
}

impl View for ModellingKind {
    type V = ModellingKind;

    open spec fn view(&self) -> ModellingKind {
        *self
    }
}

impl DeepView for ModellingKind {
    type V = ModellingKind;

    open spec fn deep_view(&self) -> ModellingKind {
        *self
    }
}

impl ModellingKind {
    /// The literal that stands for the value on the wire.
    pub open spec fn literal(self) -> Seq<char> {
        match self {
            ModellingKind::Template => "Template"@,
            ModellingKind::Instance => "Instance"@,
        }
    }

    /// The value that the literal `s` stands for.
    #[verifier::opaque]
    pub open spec fn from_literal(s: Seq<char>) -> Option<ModellingKind> {
        if s == "Template"@ {
            Some(ModellingKind::Template)
        } else if s == "Instance"@ {
            Some(ModellingKind::Instance)
        } else {
            None
        }
    }

    /// The value on the wire: its literal, as text.
    pub open spec fn to_wire(self) -> WireView {
        WireView::Text(self.literal())
    }

    /// A value that may be absent on the wire: null stands for absence.
    pub open spec fn optional_to_wire(v: Option<ModellingKind>) -> WireView {
        match v {
            Some(v) => v.to_wire(),
            None => WireView::Null,
        }
    }

    /// The value that a wire value stands for.
    pub open spec fn from_wire(w: WireView) -> Result<ModellingKind, DecodeErrorView> {
        match w {
            WireView::Text(s) => match ModellingKind::from_literal(s) {
                Some(v) => Ok(v),
                None => Err(fail(DecodeFault::UnknownLiteral)),
            },
            _ => Err(fail(DecodeFault::ExpectedText)),
        }
    }

    /// Every value is found again from its literal.
    pub proof fn lemma_literal_round_trip(self)
        ensures
            ModellingKind::from_literal(self.literal()) == Some(self),
    {
        reveal(ModellingKind::from_literal);
        reveal_strlit("Template");
        reveal_strlit("Instance");
        assert("Template"@.len() == 8 && "Template"@[0] == 'T');
        assert("Instance"@.len() == 8 && "Instance"@[0] == 'I');
    }

    /// A text stands for a value only where it is the literal of that value.
    pub proof fn lemma_literal_unique(s: Seq<char>)
        ensures
            ModellingKind::from_literal(s) matches Some(v) ==> v.literal() == s,
    {
        reveal(ModellingKind::from_literal);
    }

    /// Every value is found again from what it is on the wire.
    pub proof fn lemma_round_trip(self)
        ensures
            ModellingKind::from_wire(self.to_wire()) == Ok::<ModellingKind, DecodeErrorView>(self),
    {
        self.lemma_literal_round_trip();
    }

    /// The literal that stands for the value on the wire.
    pub fn as_str(&self) -> (s: &'static str)
        ensures
            s@ == self.literal(),
    {
        match self {
            ModellingKind::Template => "Template",
            ModellingKind::Instance => "Instance",
        }
    }

    /// The value that the literal `s` stands for; `None` where it stands for none.
    pub fn parse(s: &str) -> (r: Option<ModellingKind>)
        ensures
            r == ModellingKind::from_literal(s@),
    {
        proof {
            reveal(ModellingKind::from_literal);
        }
        if same_text(s, "Template") {
            Some(ModellingKind::Template)
        } else if same_text(s, "Instance") {
            Some(ModellingKind::Instance)
        } else {
            None
        }
    }

    /// The value as it travels.
    pub fn encode(&self) -> (w: Wire)
        ensures
            w@ == self.to_wire(),
            ModellingKind::from_wire(w@) == Ok::<ModellingKind, DecodeErrorView>(*self),
    {
        proof {
            self.lemma_round_trip();
        }
        Wire::text(self.as_str())
    }

    /// The value as it travels, or null where there is none.
    pub fn encode_optional(v: &Option<ModellingKind>) -> (w: Wire)
        ensures
            w@ == ModellingKind::optional_to_wire(*v),
    {
        match v {
            Some(v) => v.encode(),
            None => Wire::Null,
        }
    }

    /// The value that `w` stands for.
    pub fn decode(w: &Wire) -> (r: Result<ModellingKind, DecodeError>)
        ensures
            outcome(r) == ModellingKind::from_wire(w@),
    {
        match w {
            Wire::Text(s) => match ModellingKind::parse(s.as_str()) {
                Some(v) => Ok(v),
                None => Err(DecodeError::new(DecodeFault::UnknownLiteral)),
            },
            _ => Err(DecodeError::new(DecodeFault::ExpectedText)),
        }
    }
}

} // verus!
