use vstd::prelude::*;
use crate::wire::{
    fail, outcome, same_text, DecodeError, DecodeErrorView, DecodeFault, Wire, WireView,
};

verus! {

/// Event direction.
#[derive(Clone, Copy, Debug, PartialEq, Eq, Structural)]
pub enum Direction {
    /// Input direction.
    Input,
    /// Output direction.
    Output,
}

impl View for Direction {
    type V = Direction;

    open spec fn view(&self) -> Direction {
        *self
    }
}

impl DeepView for Direction {
    type V = Direction;

    open spec fn deep_view(&self) -> Direction {
        *self
    }
}

impl Direction {
    /// The literal that stands for the value on the wire.
    pub open spec fn literal(self) -> Seq<char> {
        match self {
            Direction::Input => "input"@,
            Direction::Output => "output"@,
        }
    }

    /// The value that the literal `s` stands for.
    #[verifier::opaque]
    pub open spec fn from_literal(s: Seq<char>) -> Option<Direction> {
        if s == "input"@ {
            Some(Direction::Input)
        } else if s == "output"@ {
            Some(Direction::Output)
        } else {
            None
        }
    }

    /// The value on the wire: its literal, as text.
    pub open spec fn to_wire(self) -> WireView {
        WireView::Text(self.literal())
    }

    /// A value that may be absent on the wire: null stands for absence.
    pub open spec fn optional_to_wire(v: Option<Direction>) -> WireView {
        match v {
            Some(v) => v.to_wire(),
            None => WireView::Null,
        }
    }

    /// The value that a wire value stands for.
    pub open spec fn from_wire(w: WireView) -> Result<Direction, DecodeErrorView> {
        match w {
            WireView::Text(s) => match Direction::from_literal(s) {
                Some(v) => Ok(v),
                None => Err(fail(DecodeFault::UnknownLiteral)),
            },
            _ => Err(fail(DecodeFault::ExpectedText)),
        }
    }

    /// Every value is found again from its literal.
    pub proof fn lemma_literal_round_trip(self)
        ensures
            Direction::from_literal(self.literal()) == Some(self),
    {
        reveal(Direction::from_literal);
        reveal_strlit("input");
        reveal_strlit("output");
        assert("input"@.len() == 5);
        assert("output"@.len() == 6);
    }

    /// A text stands for a value only where it is the literal of that value.
    pub proof fn lemma_literal_unique(s: Seq<char>)
        ensures
            Direction::from_literal(s) matches Some(v) ==> v.literal() == s,
    {
        reveal(Direction::from_literal);
    }

    /// Every value is found again from what it is on the wire.
    pub proof fn lemma_round_trip(self)
        ensures
            Direction::from_wire(self.to_wire()) == Ok::<Direction, DecodeErrorView>(self),
    {
        self.lemma_literal_round_trip();
    }

    /// The literal that stands for the value on the wire.
    pub fn as_str(&self) -> (s: &'static str)
        ensures
            s@ == self.literal(),
    {
        match self {
            Direction::Input => "input",
            Direction::Output => "output",
        }
    }

    /// The value that the literal `s` stands for; `None` where it stands for none.
    pub fn parse(s: &str) -> (r: Option<Direction>)
        ensures
            r == Direction::from_literal(s@),
    {
        proof {
            reveal(Direction::from_literal);
        }
        if same_text(s, "input") {
            Some(Direction::Input)
        } else if same_text(s, "output") {
            Some(Direction::Output)
        } else {
            None
        }
    }

    /// The value as it travels.
    pub fn encode(&self) -> (w: Wire)
        ensures
            w@ == self.to_wire(),
            Direction::from_wire(w@) == Ok::<Direction, DecodeErrorView>(*self),
    {
        proof {
            self.lemma_round_trip();
        }
        Wire::text(self.as_str())
    }

    /// The value as it travels, or null where there is none.
    pub fn encode_optional(v: &Option<Direction>) -> (w: Wire)
        ensures
            w@ == Direction::optional_to_wire(*v),
    {
        match v {
            Some(v) => v.encode(),
            None => Wire::Null,
        }
    }

    /// The value that `w` stands for.
    pub fn decode(w: &Wire) -> (r: Result<Direction, DecodeError>)
        ensures
            outcome(r) == Direction::from_wire(w@),
    {
        match w {
            Wire::Text(s) => match Direction::parse(s.as_str()) {
                Some(v) => Ok(v),
                None => Err(DecodeError::new(DecodeFault::UnknownLiteral)),
            },
            _ => Err(DecodeError::new(DecodeFault::ExpectedText)),
        }
    }
}

} // verus!
