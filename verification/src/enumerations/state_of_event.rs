use vstd::prelude::*;
use crate::wire::{
    fail, outcome, same_text, DecodeError, DecodeErrorView, DecodeFault, Wire, WireView,
};

verus! {

/// State of an event.
#[derive(Clone, Copy, Debug, PartialEq, Eq, Structural)]
pub enum StateOfEvent {
    /// Event is on.
    On,
    /// Event is off.
    Off,
}

impl View for StateOfEvent {
    type V = StateOfEvent;

    open spec fn view(&self) -> StateOfEvent {
        *self
    }
}

impl DeepView for StateOfEvent {
    type V = StateOfEvent;

    open spec fn deep_view(&self) -> StateOfEvent {
        *self
    }
}

impl StateOfEvent {
    /// The literal that stands for the value on the wire.
    pub open spec fn literal(self) -> Seq<char> {
        match self {
            StateOfEvent::On => "on"@,
            StateOfEvent::Off => "off"@,
        }
    }

    /// The value that the literal `s` stands for.
    #[verifier::opaque]
    pub open spec fn from_literal(s: Seq<char>) -> Option<StateOfEvent> {
        if s == "on"@ {
            Some(StateOfEvent::On)
        } else if s == "off"@ {
            Some(StateOfEvent::Off)
        } else {
            None
        }
    }

    /// The value on the wire: its literal, as text.
    pub open spec fn to_wire(self) -> WireView {
        WireView::Text(self.literal())
    }

    /// A value that may be absent on the wire: null stands for absence.
    pub open spec fn optional_to_wire(v: Option<StateOfEvent>) -> WireView {
        match v {
            Some(v) => v.to_wire(),
            None => WireView::Null,
        }
    }

    /// The value that a wire value stands for.
    pub open spec fn from_wire(w: WireView) -> Result<StateOfEvent, DecodeErrorView> {
        match w {
            WireView::Text(s) => match StateOfEvent::from_literal(s) {
                Some(v) => Ok(v),
                None => Err(fail(DecodeFault::UnknownLiteral)),
            },
            _ => Err(fail(DecodeFault::ExpectedText)),
        }
    }

    /// Every value is found again from its literal.
    pub proof fn lemma_literal_round_trip(self)
        ensures
            StateOfEvent::from_literal(self.literal()) == Some(self),
    {
        reveal(StateOfEvent::from_literal);
        reveal_strlit("on");
        reveal_strlit("off");
        assert("on"@.len() == 2);
        assert("off"@.len() == 3);
    }

    /// A text stands for a value only where it is the literal of that value.
    pub proof fn lemma_literal_unique(s: Seq<char>)
        ensures
            StateOfEvent::from_literal(s) matches Some(v) ==> v.literal() == s,
    {
        reveal(StateOfEvent::from_literal);
    }

    /// Every value is found again from what it is on the wire.
    pub proof fn lemma_round_trip(self)
        ensures
            StateOfEvent::from_wire(self.to_wire()) == Ok::<StateOfEvent, DecodeErrorView>(self),
    {
        self.lemma_literal_round_trip();
    }

    /// The literal that stands for the value on the wire.
    pub fn as_str(&self) -> (s: &'static str)
        ensures
            s@ == self.literal(),
    {
        match self {
            StateOfEvent::On => "on",
            StateOfEvent::Off => "off",
        }
    }

    /// The value that the literal `s` stands for; `None` where it stands for none.
    pub fn parse(s: &str) -> (r: Option<StateOfEvent>)
        ensures
            r == StateOfEvent::from_literal(s@),
    {
        proof {
            reveal(StateOfEvent::from_literal);
        }
        if same_text(s, "on") {
            Some(StateOfEvent::On)
        } else if same_text(s, "off") {
            Some(StateOfEvent::Off)
        } else {
            None
        }
    }

    /// The value as it travels.
    pub fn encode(&self) -> (w: Wire)
        ensures
            w@ == self.to_wire(),
            StateOfEvent::from_wire(w@) == Ok::<StateOfEvent, DecodeErrorView>(*self),
    {
        proof {
            self.lemma_round_trip();
        }
        Wire::text(self.as_str())
    }

    /// The value as it travels, or null where there is none.
    pub fn encode_optional(v: &Option<StateOfEvent>) -> (w: Wire)
        ensures
            w@ == StateOfEvent::optional_to_wire(*v),
    {
        match v {
            Some(v) => v.encode(),
            None => Wire::Null,
        }
    }

    /// The value that `w` stands for.
    pub fn decode(w: &Wire) -> (r: Result<StateOfEvent, DecodeError>)
        ensures
            outcome(r) == StateOfEvent::from_wire(w@),
    {
        match w {
            Wire::Text(s) => match StateOfEvent::parse(s.as_str()) {
                Some(v) => Ok(v),
                None => Err(DecodeError::new(DecodeFault::UnknownLiteral)),
            },
            _ => Err(DecodeError::new(DecodeFault::ExpectedText)),
        }
    }
}

} // verus!
