use vstd::prelude::*;
use crate::wire::{
    fail, outcome, same_text, DecodeError, DecodeErrorView, DecodeFault, Wire, WireView,
};

verus! {

/// Enumeration for denoting whether an entity is a self-managed entity or a co-managed entity.
#[derive(Clone, Copy, Debug, PartialEq, Eq, Structural)]
pub enum EntityType {
    /// There is no separate Asset Administration Shell for co-managed entities. Co-managed
    /// entities need to be part of a self-managed entity.
    CoManagedEntity,
    /// Self-managed entities have their own Asset Administration Shell but can be part of
    /// another composite self-managed entity.
    SelfManagedEntity,
}

impl View for EntityType {
    type V = EntityType;

    open spec fn view(&self) -> EntityType {
        *self
    }
}

impl DeepView for EntityType {
    type V = EntityType;

    open spec fn deep_view(&self) -> EntityType {
        *self
    }
}

impl EntityType {
    /// The literal that stands for the value on the wire.
    pub open spec fn literal(self) -> Seq<char> {
        match self {
            EntityType::CoManagedEntity => "CoManagedEntity"@,
            EntityType::SelfManagedEntity => "SelfManagedEntity"@,
        }
    }

    /// The value that the literal `s` stands for.
    #[verifier::opaque]
    pub open spec fn from_literal(s: Seq<char>) -> Option<EntityType> {
        if s == "CoManagedEntity"@ {
            Some(EntityType::CoManagedEntity)
        } else if s == "SelfManagedEntity"@ {
            Some(EntityType::SelfManagedEntity)
        } else {
            None
        }
    }

    /// The value on the wire: its literal, as text.
    pub open spec fn to_wire(self) -> WireView {
        WireView::Text(self.literal())
    }

    /// A value that may be absent on the wire: null stands for absence.
    pub open spec fn optional_to_wire(v: Option<EntityType>) -> WireView {
        match v {
            Some(v) => v.to_wire(),
            None => WireView::Null,
        }
    }

    /// The value that a wire value stands for.
    pub open spec fn from_wire(w: WireView) -> Result<EntityType, DecodeErrorView> {
        match w {
            WireView::Text(s) => match EntityType::from_literal(s) {
                Some(v) => Ok(v),
                None => Err(fail(DecodeFault::UnknownLiteral)),
            },
            _ => Err(fail(DecodeFault::ExpectedText)),
        }
    }

    /// Every value is found again from its literal.
    pub proof fn lemma_literal_round_trip(self)
        ensures
            EntityType::from_literal(self.literal()) == Some(self),
    {
        reveal(EntityType::from_literal);
        reveal_strlit("CoManagedEntity");
        reveal_strlit("SelfManagedEntity");
        assert("CoManagedEntity"@.len() == 15);
        assert("SelfManagedEntity"@.len() == 17);
    }

    /// A text stands for a value only where it is the literal of that value.
    pub proof fn lemma_literal_unique(s: Seq<char>)
        ensures
            EntityType::from_literal(s) matches Some(v) ==> v.literal() == s,
    {
        reveal(EntityType::from_literal);
    }

    /// Every value is found again from what it is on the wire.
    pub proof fn lemma_round_trip(self)
        ensures
            EntityType::from_wire(self.to_wire()) == Ok::<EntityType, DecodeErrorView>(self),
    {
        self.lemma_literal_round_trip();
    }

    /// The literal that stands for the value on the wire.
    pub fn as_str(&self) -> (s: &'static str)
        ensures
            s@ == self.literal(),
    {
        match self {
            EntityType::CoManagedEntity => "CoManagedEntity",
            EntityType::SelfManagedEntity => "SelfManagedEntity",
        }
    }

    /// The value that the literal `s` stands for; `None` where it stands for none.
    pub fn parse(s: &str) -> (r: Option<EntityType>)
        ensures
            r == EntityType::from_literal(s@),
    {
        proof {
            reveal(EntityType::from_literal);
        }
        if same_text(s, "CoManagedEntity") {
            Some(EntityType::CoManagedEntity)
        } else if same_text(s, "SelfManagedEntity") {
            Some(EntityType::SelfManagedEntity)
        } else {
            None
        }
    }

    /// The value as it travels.
    pub fn encode(&self) -> (w: Wire)
        ensures
            w@ == self.to_wire(),
            EntityType::from_wire(w@) == Ok::<EntityType, DecodeErrorView>(*self),
    {
        proof {
            self.lemma_round_trip();
        }
        Wire::text(self.as_str())
    }

    /// The value as it travels, or null where there is none.
    pub fn encode_optional(v: &Option<EntityType>) -> (w: Wire)
        ensures
            w@ == EntityType::optional_to_wire(*v),
    {
        match v {
            Some(v) => v.encode(),
            None => Wire::Null,
        }
    }

    /// The value that `w` stands for.
    pub fn decode(w: &Wire) -> (r: Result<EntityType, DecodeError>)
        ensures
            outcome(r) == EntityType::from_wire(w@),
    {
        match w {
            Wire::Text(s) => match EntityType::parse(s.as_str()) {
                Some(v) => Ok(v),
                None => Err(DecodeError::new(DecodeFault::UnknownLiteral)),
            },
            _ => Err(DecodeError::new(DecodeFault::ExpectedText)),
        }
    }
}

} // verus!
