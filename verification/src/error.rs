use vstd::prelude::*;

use crate::value::ValueKind;

verus! {

/// Why a value could not be read the way a visitor asked for.
#[derive(Debug, PartialEq)]
pub enum DeError {
    /// A union holds a value that cannot be read through it.
    UnsupportedUnion,
    /// A value of this kind cannot be read without a type hint.
    IncorrectKind(ValueKind),
    /// Avro has no character type.
    CharUnsupported,
    /// Text was asked of something that is not a string, bytes or a fixed.
    NotAString,
    /// Bytes that were to be read as text are not UTF-8; the text says why.
    InvalidUtf8(String),
    /// An option was asked of something that is not a union.
    NotAUnion,
    /// A unit was asked of something that is not a null.
    NotANull,
    /// A sequence was asked of something that is not an array.
    NotAnArray,
    /// A map was asked of something that is neither a map nor a record.
    NotRecordOrMap,
    /// A struct was asked of something that is not a record.
    NotARecord,
    /// An enum was asked of something that is neither a record nor an enum.
    NotAnEnum,
    /// A record standing for an enum has no field.
    EmptyRecord,
    /// The first field of a record standing for an enum holds a string
    /// but is not named `type`; the name it has.
    FirstFieldNotType(String),
    /// The first field of a record standing for an enum holds neither a
    /// string nor an enum symbol.
    FirstFieldNotName,
    /// A newtype variant has no second field to read its value from.
    MissingNewtypeValue,
    /// A tuple variant has no second field to read its values from.
    MissingTupleValue,
    /// A struct variant has no second field to read its fields from.
    MissingStructValue,
    /// A value was asked for with no key left to pair it with.
    TooManyValues,
    /// A symbol-only enum was read as a newtype variant.
    UnexpectedNewtypeVariant,
    /// A symbol-only enum was read as a tuple variant.
    UnexpectedTupleVariant,
    /// A symbol-only enum was read as a struct variant.
    UnexpectedStructVariant,
}


/// What an error says, with its texts taken as character sequences.
pub enum Fault {
    UnsupportedUnion,
    IncorrectKind(ValueKind),
    CharUnsupported,
    NotAString,
    InvalidUtf8(Seq<char>),
    NotAUnion,
    NotANull,
    NotAnArray,
    NotRecordOrMap,
    NotARecord,
    NotAnEnum,
    EmptyRecord,
    FirstFieldNotType(Seq<char>),
    FirstFieldNotName,
    MissingNewtypeValue,
    MissingTupleValue,
    MissingStructValue,
    TooManyValues,
    UnexpectedNewtypeVariant,
    UnexpectedTupleVariant,
    UnexpectedStructVariant,
}

impl View for DeError {
    type V = Fault;

    open spec fn view(&self) -> Fault {
        match self {
            DeError::UnsupportedUnion => Fault::UnsupportedUnion,
            DeError::IncorrectKind(k) => Fault::IncorrectKind(*k),
            DeError::CharUnsupported => Fault::CharUnsupported,
            DeError::NotAString => Fault::NotAString,
            DeError::InvalidUtf8(m) => Fault::InvalidUtf8(m@),
            DeError::NotAUnion => Fault::NotAUnion,
            DeError::NotANull => Fault::NotANull,
            DeError::NotAnArray => Fault::NotAnArray,
            DeError::NotRecordOrMap => Fault::NotRecordOrMap,
            DeError::NotARecord => Fault::NotARecord,
            DeError::NotAnEnum => Fault::NotAnEnum,
            DeError::EmptyRecord => Fault::EmptyRecord,
            DeError::FirstFieldNotType(f) => Fault::FirstFieldNotType(f@),
            DeError::FirstFieldNotName => Fault::FirstFieldNotName,
            DeError::MissingNewtypeValue => Fault::MissingNewtypeValue,
            DeError::MissingTupleValue => Fault::MissingTupleValue,
            DeError::MissingStructValue => Fault::MissingStructValue,
            DeError::TooManyValues => Fault::TooManyValues,
            DeError::UnexpectedNewtypeVariant => Fault::UnexpectedNewtypeVariant,
            DeError::UnexpectedTupleVariant => Fault::UnexpectedTupleVariant,
            DeError::UnexpectedStructVariant => Fault::UnexpectedStructVariant,
        }
    }
}

/// A result taken by the views of what it holds.
pub open spec fn result_view<T: View>(r: Result<T, DeError>) -> Result<T::V, Fault> {
    match r {
        Ok(t) => Ok(t@),
        Err(e) => Err(e@),
    }
}

} // verus!
