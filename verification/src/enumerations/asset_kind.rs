use vstd::prelude::*;
use crate::wire::{
    fail, outcome, same_text, DecodeError, DecodeErrorView, DecodeFault, Wire, WireView,
};

verus! {

/// Enumeration for denoting whether an asset is a type asset or an instance asset or is a
/// role or whether this kind of classification is not applicable.
#[derive(Clone, Copy, Debug, PartialEq, Eq, Structural)]
pub enum AssetKind {
    /// type asset
    Type,
    /// instance asset
    Instance,
    /// role asset
    Role,
    /// neither a type asset nor an instance asset nor a role asset
    NotApplicable,
}

impl View for AssetKind {
    type V = AssetKind;

    open spec fn view(&self) -> AssetKind {
        *self
    }
}

impl DeepView for AssetKind {
    type V = AssetKind;

    open spec fn deep_view(&self) -> AssetKind {
        *self
    }
}

impl AssetKind {
    /// The literal that stands for the value on the wire.
    pub open spec fn literal(self) -> Seq<char> {
        match self {
            AssetKind::Type => "Type"@,
            AssetKind::Instance => "Instance"@,
            AssetKind::Role => "Role"@,
            AssetKind::NotApplicable => "NotApplicable"@,
        }
    }

    /// The value that the literal `s` stands for.
    #[verifier::opaque]
    pub open spec fn from_literal(s: Seq<char>) -> Option<AssetKind> {
        if s == "Type"@ {
            Some(AssetKind::Type)
        } else if s == "Instance"@ {
            Some(AssetKind::Instance)
        } else if s == "Role"@ {
            Some(AssetKind::Role)
        } else if s == "NotApplicable"@ {
            Some(AssetKind::NotApplicable)
        } else {
            None
        }
    }

    /// The value on the wire: its literal, as text.
    pub open spec fn to_wire(self) -> WireView {
        WireView::Text(self.literal())
    }

    /// A value that may be absent on the wire: null stands for absence.
    pub open spec fn optional_to_wire(v: Option<AssetKind>) -> WireView {
        match v {
            Some(v) => v.to_wire(),
            None => WireView::Null,
        }
    }

    /// The value that a wire value stands for.
    pub open spec fn from_wire(w: WireView) -> Result<AssetKind, DecodeErrorView> {
        match w {
            WireView::Text(s) => match AssetKind::from_literal(s) {
                Some(v) => Ok(v),
                None => Err(fail(DecodeFault::UnknownLiteral)),
            },
            _ => Err(fail(DecodeFault::ExpectedText)),
        }
    }

    /// Every value is found again from its literal.
    pub proof fn lemma_literal_round_trip(self)
        ensures
            AssetKind::from_literal(self.literal()) == Some(self),
    {
        reveal(AssetKind::from_literal);
        reveal_strlit("Type");
        reveal_strlit("Instance");
        reveal_strlit("Role");
        reveal_strlit("NotApplicable");
        assert("Type"@.len() == 4 && "Type"@[0] == 'T');
        assert("Instance"@.len() == 8 && "Instance"@[0] == 'I');
        assert("Role"@.len() == 4 && "Role"@[0] == 'R');
        assert("NotApplicable"@.len() == 13 && "NotApplicable"@[0] == 'N');
    }

    /// A text stands for a value only where it is the literal of that value.
    pub proof fn lemma_literal_unique(s: Seq<char>)
        ensures
            AssetKind::from_literal(s) matches Some(v) ==> v.literal() == s,
    {
        reveal(AssetKind::from_literal);
    }

    /// Every value is found again from what it is on the wire.
    pub proof fn lemma_round_trip(self)
        ensures
            AssetKind::from_wire(self.to_wire()) == Ok::<AssetKind, DecodeErrorView>(self),
    {
        self.lemma_literal_round_trip();
    }

    /// The literal that stands for the value on the wire.
    pub fn as_str(&self) -> (s: &'static str)
        ensures
            s@ == self.literal(),
    {
        match self {
            AssetKind::Type => "Type",
            AssetKind::Instance => "Instance",
            AssetKind::Role => "Role",
            AssetKind::NotApplicable => "NotApplicable",
        }
    }

    /// The value that the literal `s` stands for; `None` where it stands for none.
    pub fn parse(s: &str) -> (r: Option<AssetKind>)
        ensures
            r == AssetKind::from_literal(s@),
    {
        proof {
            reveal(AssetKind::from_literal);
        }
        if same_text(s, "Type") {
            Some(AssetKind::Type)
        } else if same_text(s, "Instance") {
            Some(AssetKind::Instance)
        } else if same_text(s, "Role") {
            Some(AssetKind::Role)
        } else if same_text(s, "NotApplicable") {
            Some(AssetKind::NotApplicable)
        } else {
            None
        }
    }

    /// The value as it travels.
    pub fn encode(&self) -> (w: Wire)
        ensures
            w@ == self.to_wire(),
            AssetKind::from_wire(w@) == Ok::<AssetKind, DecodeErrorView>(*self),
    {
        proof {
            self.lemma_round_trip();
        }
        Wire::text(self.as_str())
    }

    /// The value as it travels, or null where there is none.
    pub fn encode_optional(v: &Option<AssetKind>) -> (w: Wire)
        ensures
            w@ == AssetKind::optional_to_wire(*v),
    {
        match v {
            Some(v) => v.encode(),
            None => Wire::Null,
        }
    }

    /// The value that `w` stands for.
    pub fn decode(w: &Wire) -> (r: Result<AssetKind, DecodeError>)
        ensures
            outcome(r) == AssetKind::from_wire(w@),
    {
        match w {
            Wire::Text(s) => match AssetKind::parse(s.as_str()) {
                Some(v) => Ok(v),
                None => Err(DecodeError::new(DecodeFault::UnknownLiteral)),
            },
            _ => Err(DecodeError::new(DecodeFault::ExpectedText)),
        }
    }
}

} // verus!
