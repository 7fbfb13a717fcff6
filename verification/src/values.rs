//! The value domain of the mutation compiler: the raw JSON-like values a
//! caller may supply, the closed tagged union of decoded field values the
//! database accepts, cardinalities, and document formats.

use vstd::prelude::*;
use crate::text::str_eq;

verus! {

/// How many values a field may bind to: exactly one (a required field),
/// at most one (an optional field), or at least one (a multi field).
#[derive(Clone, Copy, Debug, PartialEq, Eq, Structural)]
pub enum Cardinality {
    One,
    AtMostOne,
    AtLeastOne,
}

/// The source format of a post body.
#[derive(Clone, Copy, Debug, PartialEq, Eq, Structural)]
pub enum DocFormat {
    Md,
    Rst,
}

impl DocFormat {
    /// The wire name of the format.
    pub open spec fn name_spec(self) -> Seq<char> {
        match self {
            DocFormat::Md => "Md"@,
            DocFormat::Rst => "Rst"@,
        }
    }

    pub fn name(&self) -> (r: &'static str)
        ensures
            r@ == self.name_spec(),
    {
        match self {
            DocFormat::Md => "Md",
            DocFormat::Rst => "Rst",
        }
    }

    /// The format a wire name denotes, if any.
    pub open spec fn of_name_spec(s: Seq<char>) -> Option<DocFormat> {
        if s == "Md"@ {
            Some(DocFormat::Md)
        } else if s == "Rst"@ {
            Some(DocFormat::Rst)
        } else {
            None
        }
    }

    pub fn of_name(s: &str) -> (r: Option<DocFormat>)
        ensures
            r == Self::of_name_spec(s@),
    {
        if str_eq(s, "Md") {
            Some(DocFormat::Md)
        } else if str_eq(s, "Rst") {
            Some(DocFormat::Rst)
        } else {
            None
        }
    }

    /// The lenient reading used outside the compile path: an unknown or
    /// non-string value falls back to the default format.
    pub open spec fn from_raw_spec(v: RawModel) -> DocFormat {
        match v {
            RawModel::Str(s) => match Self::of_name_spec(s) {
                Some(f) => f,
                None => DocFormat::Md,
            },
            _ => DocFormat::Md,
        }
    }

    pub fn from_raw(v: &RawValue) -> (r: DocFormat)
        ensures
            r == Self::from_raw_spec(v@),
    {
        match v {
            RawValue::Str(s) => match Self::of_name(s.as_str()) {
                Some(f) => f,
                None => DocFormat::Md,
            },
            _ => DocFormat::Md,
        }
    }
}

/// A value as it stands in the caller's decoded JSON document, before any
/// typed decoding. `Other` stands for any shape the schema's decode rules
/// never accept (numbers, nested objects, mixed arrays).
#[derive(Debug, Clone, PartialEq, Eq)]
pub enum RawValue {
    Null,
    Bool(bool),
    Str(String),
    StrList(Vec<String>),
    Other,
}

/// The mathematical shape of a `RawValue`.
#[verifier::ext_equal]
pub ghost enum RawModel {
    Null,
    Bool(bool),
    Str(Seq<char>),
    StrList(Seq<Seq<char>>),
    Other,
}

impl View for RawValue {
    type V = RawModel;

    open spec fn view(&self) -> RawModel {
        match self {
            RawValue::Null => RawModel::Null,
            RawValue::Bool(b) => RawModel::Bool(*b),
            RawValue::Str(s) => RawModel::Str(s@),
            RawValue::StrList(ss) => RawModel::StrList(ss.deep_view()),
            RawValue::Other => RawModel::Other,
        }
    }
}

impl DeepView for RawValue {
    type V = RawModel;

    open spec fn deep_view(&self) -> RawModel {
        self.view()
    }
}

/// A decoded field value: the closed union of primitive kinds the database
/// driver accepts from this compiler. Identifiers are carried as their
/// 128-bit integer form. `Absent` records an explicit null: the field was
/// supplied, with no value.
#[derive(Debug, Clone, PartialEq, Eq)]
pub enum FieldValue {
    Str(String),
    Bool(bool),
    Uuid(u128),
    UuidList(Vec<u128>),
    Enum(String),
    Absent,
}

/// The mathematical shape of a `FieldValue`.
#[verifier::ext_equal]
pub ghost enum ValueModel {
    Str(Seq<char>),
    Bool(bool),
    Uuid(u128),
    UuidList(Seq<u128>),
    Enum(Seq<char>),
    Absent,
}

impl View for FieldValue {
    type V = ValueModel;

    open spec fn view(&self) -> ValueModel {
        match self {
            FieldValue::Str(s) => ValueModel::Str(s@),
            FieldValue::Bool(b) => ValueModel::Bool(*b),
            FieldValue::Uuid(u) => ValueModel::Uuid(*u),
            FieldValue::UuidList(us) => ValueModel::UuidList(us@),
            FieldValue::Enum(s) => ValueModel::Enum(s@),
            FieldValue::Absent => ValueModel::Absent,
        }
    }
}

impl DeepView for FieldValue {
    type V = ValueModel;

    open spec fn deep_view(&self) -> ValueModel {
        self.view()
    }
}

/// Why a supplied value failed to decode into its field's declared type.
#[derive(Clone, Copy, Debug, PartialEq, Eq, Structural)]
pub enum DecodeErrorKind {
    ExpectedString,
    ExpectedBool,
    ExpectedStringList,
    InvalidIdentifier,
    UnknownFormat,
    UnexpectedNull,
}

impl DecodeErrorKind {
    pub fn message(&self) -> (r: &'static str) {
        match self {
            DecodeErrorKind::ExpectedString => "expected a string or null",
            DecodeErrorKind::ExpectedBool => "expected a boolean or null",
            DecodeErrorKind::ExpectedStringList => "expected a list of identifier strings",
            DecodeErrorKind::InvalidIdentifier => "not a well-formed identifier",
            DecodeErrorKind::UnknownFormat => "not a known document format",
            DecodeErrorKind::UnexpectedNull => "a required field cannot be null",
        }
    }
}

} // verus!
