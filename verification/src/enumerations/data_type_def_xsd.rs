use vstd::prelude::*;
use crate::wire::{
    fail, outcome, same_text, DecodeError, DecodeErrorView, DecodeFault, Wire, WireView,
};

verus! {

/// Enumeration listing the data types of the XML schema definition that a value can have.
#[derive(Clone, Copy, Debug, PartialEq, Eq, Structural)]
pub enum DataTypeDefXsd {
    AnyUri,
    Base64Binary,
    Boolean,
    Byte,
    Date,
    DateTime,
    Decimal,
    Double,
    Duration,
    Float,
    GDay,
    GMonth,
    GMonthDay,
    GYear,
    GYearMonth,
    HexBinary,
    Int,
    Integer,
    Long,
    NegativeInteger,
    NonNegativeInteger,
    NonPositiveInteger,
    PositiveInteger,
    Short,
    String,
    Time,
    UnsignedByte,
    UnsignedInt,
    UnsignedLong,
    UnsignedShort,
}

impl View for DataTypeDefXsd {
    type V = DataTypeDefXsd;

    open spec fn view(&self) -> DataTypeDefXsd {
        *self
    }
}

impl DeepView for DataTypeDefXsd {
    type V = DataTypeDefXsd;

    open spec fn deep_view(&self) -> DataTypeDefXsd {
        *self
    }
}

impl DataTypeDefXsd {
    /// The literal that stands for the value on the wire.
    pub open spec fn literal(self) -> Seq<char> {
        match self {
            DataTypeDefXsd::AnyUri => "xs:anyURI"@,
            DataTypeDefXsd::Base64Binary => "xs:base64Binary"@,
            DataTypeDefXsd::Boolean => "xs:boolean"@,
            DataTypeDefXsd::Byte => "xs:byte"@,
            DataTypeDefXsd::Date => "xs:date"@,
            DataTypeDefXsd::DateTime => "xs:dateTime"@,
            DataTypeDefXsd::Decimal => "xs:decimal"@,
            DataTypeDefXsd::Double => "xs:double"@,
            DataTypeDefXsd::Duration => "xs:duration"@,
            DataTypeDefXsd::Float => "xs:float"@,
            DataTypeDefXsd::GDay => "xs:gDay"@,
            DataTypeDefXsd::GMonth => "xs:gMonth"@,
            DataTypeDefXsd::GMonthDay => "xs:gMonthDay"@,
            DataTypeDefXsd::GYear => "xs:gYear"@,
            DataTypeDefXsd::GYearMonth => "xs:gYearMonth"@,
            DataTypeDefXsd::HexBinary => "xs:hexBinary"@,
            DataTypeDefXsd::Int => "xs:int"@,
            DataTypeDefXsd::Integer => "xs:integer"@,
            DataTypeDefXsd::Long => "xs:long"@,
            DataTypeDefXsd::NegativeInteger => "xs:negativeInteger"@,
            DataTypeDefXsd::NonNegativeInteger => "xs:nonNegativeInteger"@,
            DataTypeDefXsd::NonPositiveInteger => "xs:nonPositiveInteger"@,
            DataTypeDefXsd::PositiveInteger => "xs:positiveInteger"@,
            DataTypeDefXsd::Short => "xs:short"@,
            DataTypeDefXsd::String => "xs:string"@,
            DataTypeDefXsd::Time => "xs:time"@,
            DataTypeDefXsd::UnsignedByte => "xs:unsignedByte"@,
            DataTypeDefXsd::UnsignedInt => "xs:unsignedInt"@,
            DataTypeDefXsd::UnsignedLong => "xs:unsignedLong"@,
            DataTypeDefXsd::UnsignedShort => "xs:unsignedShort"@,
        }
    }

    /// The value that the literal `s` stands for.
    #[verifier::opaque]
    pub open spec fn from_literal(s: Seq<char>) -> Option<DataTypeDefXsd> {
        if s == "xs:anyURI"@ {
            Some(DataTypeDefXsd::AnyUri)
        } else if s == "xs:base64Binary"@ {
            Some(DataTypeDefXsd::Base64Binary)
        } else if s == "xs:boolean"@ {
            Some(DataTypeDefXsd::Boolean)
        } else if s == "xs:byte"@ {
            Some(DataTypeDefXsd::Byte)
        } else if s == "xs:date"@ {
            Some(DataTypeDefXsd::Date)
        } else if s == "xs:dateTime"@ {
            Some(DataTypeDefXsd::DateTime)
        } else if s == "xs:decimal"@ {
            Some(DataTypeDefXsd::Decimal)
        } else if s == "xs:double"@ {
            Some(DataTypeDefXsd::Double)
        } else if s == "xs:duration"@ {
            Some(DataTypeDefXsd::Duration)
        } else if s == "xs:float"@ {
            Some(DataTypeDefXsd::Float)
        } else if s == "xs:gDay"@ {
            Some(DataTypeDefXsd::GDay)
        } else if s == "xs:gMonth"@ {
            Some(DataTypeDefXsd::GMonth)
        } else if s == "xs:gMonthDay"@ {
            Some(DataTypeDefXsd::GMonthDay)
        } else if s == "xs:gYear"@ {
            Some(DataTypeDefXsd::GYear)
        } else if s == "xs:gYearMonth"@ {
            Some(DataTypeDefXsd::GYearMonth)
        } else if s == "xs:hexBinary"@ {
            Some(DataTypeDefXsd::HexBinary)
        } else if s == "xs:int"@ {
            Some(DataTypeDefXsd::Int)
        } else if s == "xs:integer"@ {
            Some(DataTypeDefXsd::Integer)
        } else if s == "xs:long"@ {
            Some(DataTypeDefXsd::Long)
        } else if s == "xs:negativeInteger"@ {
            Some(DataTypeDefXsd::NegativeInteger)
        } else if s == "xs:nonNegativeInteger"@ {
            Some(DataTypeDefXsd::NonNegativeInteger)
        } else if s == "xs:nonPositiveInteger"@ {
            Some(DataTypeDefXsd::NonPositiveInteger)
        } else if s == "xs:positiveInteger"@ {
            Some(DataTypeDefXsd::PositiveInteger)
        } else if s == "xs:short"@ {
            Some(DataTypeDefXsd::Short)
        } else if s == "xs:string"@ {
            Some(DataTypeDefXsd::String)
        } else if s == "xs:time"@ {
            Some(DataTypeDefXsd::Time)
        } else if s == "xs:unsignedByte"@ {
            Some(DataTypeDefXsd::UnsignedByte)
        } else if s == "xs:unsignedInt"@ {
            Some(DataTypeDefXsd::UnsignedInt)
        } else if s == "xs:unsignedLong"@ {
            Some(DataTypeDefXsd::UnsignedLong)
        } else if s == "xs:unsignedShort"@ {
            Some(DataTypeDefXsd::UnsignedShort)
        } else {
            None
        }
    }

    /// The value on the wire: its literal, as text.
    pub open spec fn to_wire(self) -> WireView {
        WireView::Text(self.literal())
    }

    /// A value that may be absent on the wire: null stands for absence.
    pub open spec fn optional_to_wire(v: Option<DataTypeDefXsd>) -> WireView {
        match v {
            Some(v) => v.to_wire(),
            None => WireView::Null,
        }
    }

    /// The value that a wire value stands for.
    pub open spec fn from_wire(w: WireView) -> Result<DataTypeDefXsd, DecodeErrorView> {
        match w {
            WireView::Text(s) => match DataTypeDefXsd::from_literal(s) {
                Some(v) => Ok(v),
                None => Err(fail(DecodeFault::UnknownLiteral)),
            },
            _ => Err(fail(DecodeFault::ExpectedText)),
        }
    }

    /// Every value is found again from its literal.
    pub proof fn lemma_literal_round_trip(self)
        ensures
            DataTypeDefXsd::from_literal(self.literal()) == Some(self),
    {
        reveal(DataTypeDefXsd::from_literal);
        reveal_strlit("xs:anyURI");
        reveal_strlit("xs:base64Binary");
        reveal_strlit("xs:boolean");
        reveal_strlit("xs:byte");
        reveal_strlit("xs:date");
        reveal_strlit("xs:dateTime");
        reveal_strlit("xs:decimal");
        reveal_strlit("xs:double");
        reveal_strlit("xs:duration");
        reveal_strlit("xs:float");
        reveal_strlit("xs:gDay");
        reveal_strlit("xs:gMonth");
        reveal_strlit("xs:gMonthDay");
        reveal_strlit("xs:gYear");
        reveal_strlit("xs:gYearMonth");
        reveal_strlit("xs:hexBinary");
        reveal_strlit("xs:int");
        reveal_strlit("xs:integer");
        reveal_strlit("xs:long");
        reveal_strlit("xs:negativeInteger");
        reveal_strlit("xs:nonNegativeInteger");
        reveal_strlit("xs:nonPositiveInteger");
        reveal_strlit("xs:positiveInteger");
        reveal_strlit("xs:short");
        reveal_strlit("xs:string");
        reveal_strlit("xs:time");
        reveal_strlit("xs:unsignedByte");
        reveal_strlit("xs:unsignedInt");
        reveal_strlit("xs:unsignedLong");
        reveal_strlit("xs:unsignedShort");
        assert("xs:anyURI"@.len() == 9 && "xs:anyURI"@[4] == 'n' && "xs:anyURI"@[6] == 'U');
        assert(
            "xs:base64Binary"@.len() == 15
                && "xs:base64Binary"@[4] == 'a'
                && "xs:base64Binary"@[6] == 'e'
                && "xs:base64Binary"@[11] == 'n'
        );
        assert("xs:boolean"@.len() == 10 && "xs:boolean"@[4] == 'o' && "xs:boolean"@[6] == 'l');
        assert("xs:byte"@.len() == 7 && "xs:byte"@[4] == 'y' && "xs:byte"@[6] == 'e');
        assert("xs:date"@.len() == 7 && "xs:date"@[4] == 'a' && "xs:date"@[6] == 'e');
        assert("xs:dateTime"@.len() == 11 && "xs:dateTime"@[4] == 'a' && "xs:dateTime"@[6] == 'e');
        assert("xs:decimal"@.len() == 10 && "xs:decimal"@[4] == 'e' && "xs:decimal"@[6] == 'i');
        assert("xs:double"@.len() == 9 && "xs:double"@[4] == 'o' && "xs:double"@[6] == 'b');
        assert("xs:duration"@.len() == 11 && "xs:duration"@[4] == 'u' && "xs:duration"@[6] == 'a');
        assert("xs:float"@.len() == 8 && "xs:float"@[4] == 'l' && "xs:float"@[6] == 'a');
        assert("xs:gDay"@.len() == 7 && "xs:gDay"@[4] == 'D' && "xs:gDay"@[6] == 'y');
        assert("xs:gMonth"@.len() == 9 && "xs:gMonth"@[4] == 'M' && "xs:gMonth"@[6] == 'n');
        assert(
            "xs:gMonthDay"@.len() == 12
                && "xs:gMonthDay"@[4] == 'M'
                && "xs:gMonthDay"@[6] == 'n'
                && "xs:gMonthDay"@[11] == 'y'
        );
        assert("xs:gYear"@.len() == 8 && "xs:gYear"@[4] == 'Y' && "xs:gYear"@[6] == 'a');
        assert(
            "xs:gYearMonth"@.len() == 13
                && "xs:gYearMonth"@[4] == 'Y'
                && "xs:gYearMonth"@[6] == 'a'
                && "xs:gYearMonth"@[11] == 't'
        );
        assert(
            "xs:hexBinary"@.len() == 12
                && "xs:hexBinary"@[4] == 'e'
                && "xs:hexBinary"@[6] == 'B'
                && "xs:hexBinary"@[11] == 'y'
        );
        assert("xs:int"@.len() == 6 && "xs:int"@[4] == 'n');
        assert("xs:integer"@.len() == 10 && "xs:integer"@[4] == 'n' && "xs:integer"@[6] == 'e');
        assert("xs:long"@.len() == 7 && "xs:long"@[4] == 'o' && "xs:long"@[6] == 'g');
        assert(
            "xs:negativeInteger"@.len() == 18
                && "xs:negativeInteger"@[4] == 'e'
                && "xs:negativeInteger"@[6] == 'a'
                && "xs:negativeInteger"@[11] == 'I'
        );
        assert(
            "xs:nonNegativeInteger"@.len() == 21
                && "xs:nonNegativeInteger"@[4] == 'o'
                && "xs:nonNegativeInteger"@[6] == 'N'
                && "xs:nonNegativeInteger"@[11] == 'i'
        );
        assert(
            "xs:nonPositiveInteger"@.len() == 21
                && "xs:nonPositiveInteger"@[4] == 'o'
                && "xs:nonPositiveInteger"@[6] == 'P'
                && "xs:nonPositiveInteger"@[11] == 'i'
        );
        assert(
            "xs:positiveInteger"@.len() == 18
                && "xs:positiveInteger"@[4] == 'o'
                && "xs:positiveInteger"@[6] == 'i'
                && "xs:positiveInteger"@[11] == 'I'
        );
        assert("xs:short"@.len() == 8 && "xs:short"@[4] == 'h' && "xs:short"@[6] == 'r');
        assert("xs:string"@.len() == 9 && "xs:string"@[4] == 't' && "xs:string"@[6] == 'i');
        assert("xs:time"@.len() == 7 && "xs:time"@[4] == 'i' && "xs:time"@[6] == 'e');
        assert(
            "xs:unsignedByte"@.len() == 15
                && "xs:unsignedByte"@[4] == 'n'
                && "xs:unsignedByte"@[6] == 'i'
                && "xs:unsignedByte"@[11] == 'B'
        );
        assert(
            "xs:unsignedInt"@.len() == 14
                && "xs:unsignedInt"@[4] == 'n'
                && "xs:unsignedInt"@[6] == 'i'
                && "xs:unsignedInt"@[11] == 'I'
        );
        assert(
            "xs:unsignedLong"@.len() == 15
                && "xs:unsignedLong"@[4] == 'n'
                && "xs:unsignedLong"@[6] == 'i'
                && "xs:unsignedLong"@[11] == 'L'
        );
        assert(
            "xs:unsignedShort"@.len() == 16
                && "xs:unsignedShort"@[4] == 'n'
                && "xs:unsignedShort"@[6] == 'i'
                && "xs:unsignedShort"@[11] == 'S'
        );
    }

    /// A text stands for a value only where it is the literal of that value.
    pub proof fn lemma_literal_unique(s: Seq<char>)
        ensures
            DataTypeDefXsd::from_literal(s) matches Some(v) ==> v.literal() == s,
    {
        reveal(DataTypeDefXsd::from_literal);
    }

    /// Every value is found again from what it is on the wire.
    pub proof fn lemma_round_trip(self)
        ensures
            DataTypeDefXsd::from_wire(self.to_wire()) ==
                Ok::<DataTypeDefXsd, DecodeErrorView>(self),
    {
        self.lemma_literal_round_trip();
    }

    /// The literal that stands for the value on the wire.
    pub fn as_str(&self) -> (s: &'static str)
        ensures
            s@ == self.literal(),
    {
        match self {
            DataTypeDefXsd::AnyUri => "xs:anyURI",
            DataTypeDefXsd::Base64Binary => "xs:base64Binary",
            DataTypeDefXsd::Boolean => "xs:boolean",
            DataTypeDefXsd::Byte => "xs:byte",
            DataTypeDefXsd::Date => "xs:date",
            DataTypeDefXsd::DateTime => "xs:dateTime",
            DataTypeDefXsd::Decimal => "xs:decimal",
            DataTypeDefXsd::Double => "xs:double",
            DataTypeDefXsd::Duration => "xs:duration",
            DataTypeDefXsd::Float => "xs:float",
            DataTypeDefXsd::GDay => "xs:gDay",
            DataTypeDefXsd::GMonth => "xs:gMonth",
            DataTypeDefXsd::GMonthDay => "xs:gMonthDay",
            DataTypeDefXsd::GYear => "xs:gYear",
            DataTypeDefXsd::GYearMonth => "xs:gYearMonth",
            DataTypeDefXsd::HexBinary => "xs:hexBinary",
            DataTypeDefXsd::Int => "xs:int",
            DataTypeDefXsd::Integer => "xs:integer",
            DataTypeDefXsd::Long => "xs:long",
            DataTypeDefXsd::NegativeInteger => "xs:negativeInteger",
            DataTypeDefXsd::NonNegativeInteger => "xs:nonNegativeInteger",
            DataTypeDefXsd::NonPositiveInteger => "xs:nonPositiveInteger",
            DataTypeDefXsd::PositiveInteger => "xs:positiveInteger",
            DataTypeDefXsd::Short => "xs:short",
            DataTypeDefXsd::String => "xs:string",
            DataTypeDefXsd::Time => "xs:time",
            DataTypeDefXsd::UnsignedByte => "xs:unsignedByte",
            DataTypeDefXsd::UnsignedInt => "xs:unsignedInt",
            DataTypeDefXsd::UnsignedLong => "xs:unsignedLong",
            DataTypeDefXsd::UnsignedShort => "xs:unsignedShort",
        }
    }

    /// The value that the literal `s` stands for; `None` where it stands for none.
    pub fn parse(s: &str) -> (r: Option<DataTypeDefXsd>)
        ensures
            r == DataTypeDefXsd::from_literal(s@),
    {
        proof {
            reveal(DataTypeDefXsd::from_literal);
        }
        if same_text(s, "xs:anyURI") {
            Some(DataTypeDefXsd::AnyUri)
        } else if same_text(s, "xs:base64Binary") {
            Some(DataTypeDefXsd::Base64Binary)
        } else if same_text(s, "xs:boolean") {
            Some(DataTypeDefXsd::Boolean)
        } else if same_text(s, "xs:byte") {
            Some(DataTypeDefXsd::Byte)
        } else if same_text(s, "xs:date") {
            Some(DataTypeDefXsd::Date)
        } else if same_text(s, "xs:dateTime") {
            Some(DataTypeDefXsd::DateTime)
        } else if same_text(s, "xs:decimal") {
            Some(DataTypeDefXsd::Decimal)
        } else if same_text(s, "xs:double") {
            Some(DataTypeDefXsd::Double)
        } else if same_text(s, "xs:duration") {
            Some(DataTypeDefXsd::Duration)
        } else if same_text(s, "xs:float") {
            Some(DataTypeDefXsd::Float)
        } else if same_text(s, "xs:gDay") {
            Some(DataTypeDefXsd::GDay)
        } else if same_text(s, "xs:gMonth") {
            Some(DataTypeDefXsd::GMonth)
        } else if same_text(s, "xs:gMonthDay") {
            Some(DataTypeDefXsd::GMonthDay)
        } else if same_text(s, "xs:gYear") {
            Some(DataTypeDefXsd::GYear)
        } else if same_text(s, "xs:gYearMonth") {
            Some(DataTypeDefXsd::GYearMonth)
        } else if same_text(s, "xs:hexBinary") {
            Some(DataTypeDefXsd::HexBinary)
        } else if same_text(s, "xs:int") {
            Some(DataTypeDefXsd::Int)
        } else if same_text(s, "xs:integer") {
            Some(DataTypeDefXsd::Integer)
        } else if same_text(s, "xs:long") {
            Some(DataTypeDefXsd::Long)
        } else if same_text(s, "xs:negativeInteger") {
            Some(DataTypeDefXsd::NegativeInteger)
        } else if same_text(s, "xs:nonNegativeInteger") {
            Some(DataTypeDefXsd::NonNegativeInteger)
        } else if same_text(s, "xs:nonPositiveInteger") {
            Some(DataTypeDefXsd::NonPositiveInteger)
        } else if same_text(s, "xs:positiveInteger") {
            Some(DataTypeDefXsd::PositiveInteger)
        } else if same_text(s, "xs:short") {
            Some(DataTypeDefXsd::Short)
        } else if same_text(s, "xs:string") {
            Some(DataTypeDefXsd::String)
        } else if same_text(s, "xs:time") {
            Some(DataTypeDefXsd::Time)
        } else if same_text(s, "xs:unsignedByte") {
            Some(DataTypeDefXsd::UnsignedByte)
        } else if same_text(s, "xs:unsignedInt") {
            Some(DataTypeDefXsd::UnsignedInt)
        } else if same_text(s, "xs:unsignedLong") {
            Some(DataTypeDefXsd::UnsignedLong)
        } else if same_text(s, "xs:unsignedShort") {
            Some(DataTypeDefXsd::UnsignedShort)
        } else {
            None
        }
    }

    /// The value as it travels.
    pub fn encode(&self) -> (w: Wire)
        ensures
            w@ == self.to_wire(),
            DataTypeDefXsd::from_wire(w@) == Ok::<DataTypeDefXsd, DecodeErrorView>(*self),
    {
        proof {
            self.lemma_round_trip();
        }
        Wire::text(self.as_str())
    }

    /// The value as it travels, or null where there is none.
    pub fn encode_optional(v: &Option<DataTypeDefXsd>) -> (w: Wire)
        ensures
            w@ == DataTypeDefXsd::optional_to_wire(*v),
    {
        match v {
            Some(v) => v.encode(),
            None => Wire::Null,
        }
    }

    /// The value that `w` stands for.
    pub fn decode(w: &Wire) -> (r: Result<DataTypeDefXsd, DecodeError>)
        ensures
            outcome(r) == DataTypeDefXsd::from_wire(w@),
    {
        match w {
            Wire::Text(s) => match DataTypeDefXsd::parse(s.as_str()) {
                Some(v) => Ok(v),
                None => Err(DecodeError::new(DecodeFault::UnknownLiteral)),
            },
            _ => Err(DecodeError::new(DecodeFault::ExpectedText)),
        }
    }
}

} // verus!
