use vstd::prelude::*;
use vstd::utf8::*;

use crate::error::{result_view, DeError, Fault};
use crate::text::{str_from_utf8, utf8_error_text, uuid_text, uuid_to_string};
use crate::value::{kind_of, MapEntries, Value};

verus! {

/// Reads one Avro value the way a serde visitor asks for it.
///
/// Each `deserialize_*` method decides what the visitor is handed: a scalar,
/// borrowed or owned text, bytes, the items of an array, the fields of a
/// record, the entries of a map, or an error.
pub struct Deserializer<'de> {
    input: &'de Value,
}

impl<'de> View for Deserializer<'de> {
    type V = Value;

    closed spec fn view(&self) -> Value {
        *self.input
    }
}

/// What a visitor is handed when a value is read without a type hint.
#[derive(Debug, PartialEq)]
pub enum AnyStep<'de> {
    Unit,
    Bool(bool),
    I32(i32),
    I64(i64),
    /// The bits of a 32-bit float.
    F32(u32),
    /// The bits of a 64-bit float.
    F64(u64),
    /// Text borrowed from the value.
    Str(&'de str),
    /// The items of an array.
    Array(&'de [Value]),
    /// The fields of a record, in order.
    Record(&'de [(String, Value)]),
    /// The entries of a map.
    Entries(&'de MapEntries),
}

/// The model of an `AnyStep`.
pub enum Visit {
    Unit,
    Bool(bool),
    I32(i32),
    I64(i64),
    F32(u32),
    F64(u64),
    Str(Seq<char>),
    Array(Seq<Value>),
    Record(Seq<(String, Value)>),
    Entries(Seq<(String, Value)>),
}

impl<'de> View for AnyStep<'de> {
    type V = Visit;

    open spec fn view(&self) -> Visit {
        match self {
            AnyStep::Unit => Visit::Unit,
            AnyStep::Bool(b) => Visit::Bool(*b),
            AnyStep::I32(i) => Visit::I32(*i),
            AnyStep::I64(i) => Visit::I64(*i),
            AnyStep::F32(f) => Visit::F32(*f),
            AnyStep::F64(d) => Visit::F64(*d),
            AnyStep::Str(s) => Visit::Str(s@),
            AnyStep::Array(items) => Visit::Array(items@),
            AnyStep::Record(fields) => Visit::Record(fields@),
            AnyStep::Entries(entries) => Visit::Entries(entries@),
        }
    }
}

/// Text a visitor is handed: borrowed from the value, or made anew.
#[derive(Debug, PartialEq)]
pub enum TextStep<'de> {
    Borrowed(&'de str),
    Owned(String),
}

/// The model of a `TextStep`.
pub enum Text {
    Borrowed(Seq<char>),
    Owned(Seq<char>),
}

impl<'de> View for TextStep<'de> {
    type V = Text;

    open spec fn view(&self) -> Text {
        match self {
            TextStep::Borrowed(s) => Text::Borrowed(s@),
            TextStep::Owned(s) => Text::Owned(s@),
        }
    }
}

/// What a visitor is handed when a tuple is asked for.
#[derive(Debug, PartialEq)]
pub enum TupleStep<'de> {
    /// The items of an array, one element each.
    Items(&'de [Value]),
    /// The bytes of a fixed, one element each.
    Bytes(&'de [u8]),
}

/// The model of a `TupleStep`.
pub enum TupleVisit {
    Items(Seq<Value>),
    Bytes(Seq<u8>),
}

impl<'de> View for TupleStep<'de> {
    type V = TupleVisit;

    open spec fn view(&self) -> TupleVisit {
        match self {
            TupleStep::Items(items) => TupleVisit::Items(items@),
            TupleStep::Bytes(bytes) => TupleVisit::Bytes(bytes@),
        }
    }
}

/// What a visitor is handed when a map is asked for.
#[derive(Debug, PartialEq)]
pub enum MapStep<'de> {
    /// The entries of an Avro map.
    Entries(&'de MapEntries),
    /// The fields of a record, read as a map from field names.
    Record(&'de [(String, Value)]),
}

/// The model of a `MapStep`.
pub enum MapVisit {
    Entries(Seq<(String, Value)>),
    Record(Seq<(String, Value)>),
}

impl<'de> View for MapStep<'de> {
    type V = MapVisit;

    open spec fn view(&self) -> MapVisit {
        match self {
            MapStep::Entries(e) => MapVisit::Entries(e@),
            MapStep::Record(f) => MapVisit::Record(f@),
        }
    }
}

/// What a visitor is handed when an enum is asked for.
#[derive(Debug, PartialEq)]
pub enum EnumStep<'de> {
    /// A record whose first field names the variant and whose second field,
    /// if any, holds its content.
    Tagged(&'de [(String, Value)]),
    /// The name of an enum symbol, a variant without content.
    Symbol(&'de str),
}

/// The model of an `EnumStep`.
pub enum EnumVisit {
    Tagged(Seq<(String, Value)>),
    Symbol(Seq<char>),
}

impl<'de> View for EnumStep<'de> {
    type V = EnumVisit;

    open spec fn view(&self) -> EnumVisit {
        match self {
            EnumStep::Tagged(f) => EnumVisit::Tagged(f@),
            EnumStep::Symbol(s) => EnumVisit::Symbol(s@),
        }
    }
}

/// What a value reads as without a type hint when it stands on its own:
/// `None` for the kinds that cannot be read so.
pub open spec fn plain_visit(v: Value) -> Option<Visit> {
    match v {
        Value::Null => Some(Visit::Unit),
        Value::Boolean(b) => Some(Visit::Bool(b)),
        Value::Int(i) => Some(Visit::I32(i)),
        Value::Date(i) => Some(Visit::I32(i)),
        Value::TimeMillis(i) => Some(Visit::I32(i)),
        Value::Long(i) => Some(Visit::I64(i)),
        Value::TimeMicros(i) => Some(Visit::I64(i)),
        Value::TimestampMillis(i) => Some(Visit::I64(i)),
        Value::TimestampMicros(i) => Some(Visit::I64(i)),
        Value::Float(f) => Some(Visit::F32(f)),
        Value::Double(d) => Some(Visit::F64(d)),
        Value::String(s) => Some(Visit::Str(s@)),
        Value::Array(items) => Some(Visit::Array(items@)),
        Value::Record(fields) => Some(Visit::Record(fields@)),
        Value::AvroMap(entries) => Some(Visit::Entries(entries@)),
        _ => None,
    }
}

/// Whether a union branch holding `v` can be read without a type hint:
/// dates, times of day in milliseconds, and what cannot be read on its own
/// (among them a union) cannot.
pub open spec fn union_admits(v: Value) -> bool {
    &&& plain_visit(v) is Some
    &&& !(v is Date)
    &&& !(v is TimeMillis)
}

/// What reading a value without a type hint gives.
pub open spec fn any_visit(v: Value) -> Result<Visit, Fault> {
    match v {
        Value::Union(_, inner) => if union_admits(*inner) {
            Ok(plain_visit(*inner).unwrap())
        } else {
            Err(Fault::UnsupportedUnion)
        },
        _ => match plain_visit(v) {
            Some(x) => Ok(x),
            None => Err(Fault::IncorrectKind(kind_of(v))),
        },
    }
}

/// Bytes read as text: their UTF-8 decoding, owned or borrowed, or the
/// decoding error.
pub open spec fn utf8_text(bytes: Seq<u8>, owned: bool) -> Result<Text, Fault> {
    if !valid_utf8(bytes) {
        Err(Fault::InvalidUtf8(utf8_error_text(bytes)))
    } else if owned {
        Ok(Text::Owned(decode_utf8(bytes)))
    } else {
        Ok(Text::Borrowed(decode_utf8(bytes)))
    }
}

/// What reading a value as a borrowed string gives.
pub open spec fn str_visit(v: Value) -> Result<Text, Fault> {
    match v {
        Value::String(s) => Ok(Text::Borrowed(s@)),
        Value::Bytes(b) => utf8_text(b@, false),
        Value::Fixed(_, b) => utf8_text(b@, false),
        Value::Uuid(u) => Ok(Text::Owned(uuid_text(u@))),
        _ => Err(Fault::NotAString),
    }
}

/// What reading a value as an owned string gives.
pub open spec fn string_visit(v: Value) -> Result<Text, Fault> {
    match v {
        Value::String(s) => Ok(Text::Borrowed(s@)),
        Value::Bytes(b) => utf8_text(b@, true),
        Value::Fixed(_, b) => utf8_text(b@, true),
        Value::Union(_, inner) => match *inner {
            Value::String(s) => Ok(Text::Borrowed(s@)),
            _ => Err(Fault::NotAString),
        },
        _ => Err(Fault::NotAString),
    }
}

/// What reading a value as borrowed bytes gives: the UTF-8 encoding of a
/// string, the bytes of bytes or of a fixed, the sixteen bytes of a UUID.
pub open spec fn bytes_visit(v: Value) -> Result<Seq<u8>, Fault> {
    match v {
        Value::String(s) => Ok(encode_utf8(s@)),
        Value::Bytes(b) => Ok(b@),
        Value::Fixed(_, b) => Ok(b@),
        Value::Uuid(u) => Ok(u@),
        _ => Err(Fault::NotAString),
    }
}

/// What reading a value as an owned byte buffer gives.
pub open spec fn byte_buf_visit(v: Value) -> Result<Seq<u8>, Fault> {
    match v {
        Value::String(s) => Ok(encode_utf8(s@)),
        Value::Bytes(b) => Ok(b@),
        Value::Fixed(_, b) => Ok(b@),
        _ => Err(Fault::NotAString),
    }
}

/// What reading a value as an option gives: a union holding null is
/// `None`, any other union is `Some` of the value it holds.
pub open spec fn option_visit(v: Value) -> Result<Option<Value>, Fault> {
    match v {
        Value::Union(_, inner) => if *inner is Null {
            Ok(None)
        } else {
            Ok(Some(*inner))
        },
        _ => Err(Fault::NotAUnion),
    }
}

/// Whether a value reads as the unit: a null, bare or in a union.
pub open spec fn is_unit(v: Value) -> bool {
    match v {
        Value::Null => true,
        Value::Union(_, inner) => *inner is Null,
        _ => false,
    }
}

/// What reading a value as a sequence gives: the items of an array, bare or
/// in a union.
pub open spec fn seq_visit(v: Value) -> Result<Seq<Value>, Fault> {
    match v {
        Value::Array(items) => Ok(items@),
        Value::Union(_, inner) => match *inner {
            Value::Array(items) => Ok(items@),
            _ => Err(Fault::NotAnArray),
        },
        _ => Err(Fault::NotAnArray),
    }
}

/// What reading a value as a tuple gives: the bytes of a fixed, otherwise
/// what reading it as a sequence gives.
pub open spec fn tuple_visit(v: Value) -> Result<TupleVisit, Fault> {
    match v {
        Value::Fixed(_, bytes) => Ok(TupleVisit::Bytes(bytes@)),
        _ => match seq_visit(v) {
            Ok(items) => Ok(TupleVisit::Items(items)),
            Err(f) => Err(f),
        },
    }
}

/// What reading a value as a map gives.
pub open spec fn map_visit(v: Value) -> Result<MapVisit, Fault> {
    match v {
        Value::AvroMap(entries) => Ok(MapVisit::Entries(entries@)),
        Value::Record(fields) => Ok(MapVisit::Record(fields@)),
        _ => Err(Fault::NotRecordOrMap),
    }
}

/// What reading a value as a struct gives: the fields of a record, bare or
/// in a union.
pub open spec fn struct_visit(v: Value) -> Result<Seq<(String, Value)>, Fault> {
    match v {
        Value::Record(fields) => Ok(fields@),
        Value::Union(_, inner) => match *inner {
            Value::Record(fields) => Ok(fields@),
            _ => Err(Fault::NotARecord),
        },
        _ => Err(Fault::NotARecord),
    }
}

/// What reading a value as an enum gives.
pub open spec fn enum_visit(v: Value) -> Result<EnumVisit, Fault> {
    match v {
        Value::Record(fields) => Ok(EnumVisit::Tagged(fields@)),
        Value::Enum(_, name) => Ok(EnumVisit::Symbol(name@)),
        _ => Err(Fault::NotAnEnum),
    }
}

/// Reads bytes as text, borrowed or made anew.
fn bytes_as_text<'de>(bytes: &'de [u8], owned: bool) -> (r: Result<TextStep<'de>, DeError>)
    ensures
        result_view(r) == utf8_text(bytes@, owned),
{
    match str_from_utf8(bytes) {
        Ok(s) => {
            proof {
                encode_utf8_decode_utf8(s@);
            }
            if owned {
                Ok(TextStep::Owned(s.to_owned()))
            } else {
                Ok(TextStep::Borrowed(s))
            }
        },
        Err(m) => Err(DeError::InvalidUtf8(m)),
    }
}

/// Copies bytes into a buffer of their own.
fn copy_bytes(bytes: &[u8]) -> (out: Vec<u8>)
    ensures
        out@ == bytes@,
{
    let mut out: Vec<u8> = Vec::new();
    let mut i: usize = 0;
    while i < bytes.len()
        invariant
            i <= bytes@.len(),
            out@ == bytes@.subrange(0, i as int),
        decreases bytes@.len() - i,
    {
        out.push(bytes[i]);
        i = i + 1;
        assert(out@ =~= bytes@.subrange(0, i as int));
    }
    assert(bytes@.subrange(0, bytes@.len() as int) =~= bytes@);
    out
}

impl<'de> Deserializer<'de> {
    /// A deserializer for the given value.
    pub fn new(input: &'de Value) -> (d: Self)
        ensures
            d@ == *input,
    {
        Deserializer { input }
    }

    /// The value this deserializer reads.
    pub fn input(&self) -> (v: &'de Value)
        ensures
            *v == self@,
    {
        self.input
    }

    /// Reads the value without a type hint: nulls, booleans, integers
    /// (dates and times among them), floats, strings, arrays, records and
    /// maps are handed over as they are; a union is read through, unless
    /// what it holds is a date, a time of day in milliseconds, or something
    /// that cannot be read on its own.
    pub fn deserialize_any(&self) -> (r: Result<AnyStep<'de>, DeError>)
        ensures
            result_view(r) == any_visit(self@),
    {
        match self.input {
            Value::Null => Ok(AnyStep::Unit),
            Value::Boolean(b) => Ok(AnyStep::Bool(*b)),
            Value::Int(i) => Ok(AnyStep::I32(*i)),
            Value::Date(i) => Ok(AnyStep::I32(*i)),
            Value::TimeMillis(i) => Ok(AnyStep::I32(*i)),
            Value::Long(i) => Ok(AnyStep::I64(*i)),
            Value::TimeMicros(i) => Ok(AnyStep::I64(*i)),
            Value::TimestampMillis(i) => Ok(AnyStep::I64(*i)),
            Value::TimestampMicros(i) => Ok(AnyStep::I64(*i)),
            Value::Float(f) => Ok(AnyStep::F32(*f)),
            Value::Double(d) => Ok(AnyStep::F64(*d)),
            Value::Union(_, u) => match &**u {
                Value::Null => Ok(AnyStep::Unit),
                Value::Boolean(b) => Ok(AnyStep::Bool(*b)),
                Value::Int(i) => Ok(AnyStep::I32(*i)),
                Value::Long(i) => Ok(AnyStep::I64(*i)),
                Value::TimeMicros(i) => Ok(AnyStep::I64(*i)),
                Value::TimestampMillis(i) => Ok(AnyStep::I64(*i)),
                Value::TimestampMicros(i) => Ok(AnyStep::I64(*i)),
                Value::Float(f) => Ok(AnyStep::F32(*f)),
                Value::Double(d) => Ok(AnyStep::F64(*d)),
                Value::Record(fields) => Ok(AnyStep::Record(fields.as_slice())),
                Value::Array(items) => Ok(AnyStep::Array(items.as_slice())),
                Value::String(s) => Ok(AnyStep::Str(s.as_str())),
                Value::AvroMap(entries) => Ok(AnyStep::Entries(entries)),
                _ => Err(DeError::UnsupportedUnion),
            },
            Value::Record(fields) => Ok(AnyStep::Record(fields.as_slice())),
            Value::Array(items) => Ok(AnyStep::Array(items.as_slice())),
            Value::String(s) => Ok(AnyStep::Str(s.as_str())),
            Value::AvroMap(entries) => Ok(AnyStep::Entries(entries)),
            value => Err(DeError::IncorrectKind(value.kind())),
        }
    }

    /// Avro has no character type: reading a character always fails.
    pub fn deserialize_char(&self) -> (r: Result<(), DeError>)
        ensures
            r matches Err(e) && e@ == Fault::CharUnsupported,
    {
        Err(DeError::CharUnsupported)
    }

    /// Reads the value as borrowed text: a string as it is, bytes or a fixed
    /// decoded as UTF-8, a UUID as its hyphenated text.
    pub fn deserialize_str(&self) -> (r: Result<TextStep<'de>, DeError>)
        ensures
            result_view(r) == str_visit(self@),
    {
        match self.input {
            Value::String(s) => Ok(TextStep::Borrowed(s.as_str())),
            Value::Bytes(bytes) => bytes_as_text(bytes.as_slice(), false),
            Value::Fixed(_, bytes) => bytes_as_text(bytes.as_slice(), false),
            Value::Uuid(u) => Ok(TextStep::Owned(uuid_to_string(u))),
            _ => Err(DeError::NotAString),
        }
    }

    /// Reads the value as owned text: a string as it is (also in a union),
    /// bytes or a fixed decoded as UTF-8 into a new string.
    pub fn deserialize_string(&self) -> (r: Result<TextStep<'de>, DeError>)
        ensures
            result_view(r) == string_visit(self@),
    {
        match self.input {
            Value::String(s) => Ok(TextStep::Borrowed(s.as_str())),
            Value::Bytes(bytes) => bytes_as_text(bytes.as_slice(), true),
            Value::Fixed(_, bytes) => bytes_as_text(bytes.as_slice(), true),
            Value::Union(_, x) => match &**x {
                Value::String(s) => Ok(TextStep::Borrowed(s.as_str())),
                _ => Err(DeError::NotAString),
            },
            _ => Err(DeError::NotAString),
        }
    }

    /// Reads the value as borrowed bytes.
    pub fn deserialize_bytes(&self) -> (r: Result<&'de [u8], DeError>)
        ensures
            result_view(r) == bytes_visit(self@),
    {
        match self.input {
            Value::String(s) => Ok(s.as_str().as_bytes()),
            Value::Bytes(bytes) => Ok(bytes.as_slice()),
            Value::Fixed(_, bytes) => Ok(bytes.as_slice()),
            Value::Uuid(u) => Ok(u.as_slice()),
            _ => Err(DeError::NotAString),
        }
    }

    /// Reads the value as an owned byte buffer.
    pub fn deserialize_byte_buf(&self) -> (r: Result<Vec<u8>, DeError>)
        ensures
            result_view(r) == byte_buf_visit(self@),
    {
        match self.input {
            Value::String(s) => Ok(copy_bytes(s.as_str().as_bytes())),
            Value::Bytes(bytes) => Ok(copy_bytes(bytes.as_slice())),
            Value::Fixed(_, bytes) => Ok(copy_bytes(bytes.as_slice())),
            _ => Err(DeError::NotAString),
        }
    }

    /// Reads the value as an option: only a union can be one.
    pub fn deserialize_option(&self) -> (r: Result<Option<&'de Value>, DeError>)
        ensures
            match option_visit(self@) {
                Ok(None) => r matches Ok(None),
                Ok(Some(v)) => r matches Ok(Some(x)) && *x == v,
                Err(f) => r matches Err(e) && e@ == f,
            },
    {
        match self.input {
            Value::Union(_, inner) => match &**inner {
                Value::Null => Ok(None),
                x => Ok(Some(x)),
            },
            _ => Err(DeError::NotAUnion),
        }
    }

    /// Reads the value as the unit: a null, bare or in a union.
    pub fn deserialize_unit(&self) -> (r: Result<(), DeError>)
        ensures
            r is Ok <==> is_unit(self@),
            r matches Err(e) ==> e@ == Fault::NotANull,
    {
        match self.input {
            Value::Null => Ok(()),
            Value::Union(_, x) => match &**x {
                Value::Null => Ok(()),
                _ => Err(DeError::NotANull),
            },
            _ => Err(DeError::NotANull),
        }
    }

    /// Reads the value as a unit struct: as the unit.
    pub fn deserialize_unit_struct(&self) -> (r: Result<(), DeError>)
        ensures
            r is Ok <==> is_unit(self@),
            r matches Err(e) ==> e@ == Fault::NotANull,
    {
        self.deserialize_unit()
    }

    /// Reads the value as a newtype struct: its content is this same value.
    pub fn deserialize_newtype_struct(&self) -> (d: Deserializer<'de>)
        ensures
            d@ == self@,
    {
        Deserializer { input: self.input }
    }

    /// Reads the value as a sequence: the items of an array, bare or in a
    /// union.
    pub fn deserialize_seq(&self) -> (r: Result<&'de [Value], DeError>)
        ensures
            result_view(r) == seq_visit(self@),
    {
        match self.input {
            Value::Array(items) => Ok(items.as_slice()),
            Value::Union(_, inner) => match &**inner {
                Value::Array(items) => Ok(items.as_slice()),
                _ => Err(DeError::NotAnArray),
            },
            _ => Err(DeError::NotAnArray),
        }
    }

    /// Reads the value as a tuple: as a sequence, except that a fixed hands
    /// out its bytes, one element per byte (so that a fixed reads as a byte
    /// array).
    pub fn deserialize_tuple(&self) -> (r: Result<TupleStep<'de>, DeError>)
        ensures
            result_view(r) == tuple_visit(self@),
    {
        match self.input {
            Value::Fixed(_, bytes) => Ok(TupleStep::Bytes(bytes.as_slice())),
            _ => match self.deserialize_seq() {
                Ok(items) => Ok(TupleStep::Items(items)),
                Err(e) => Err(e),
            },
        }
    }

    /// Reads the value as a tuple struct: as a sequence.
    pub fn deserialize_tuple_struct(&self) -> (r: Result<&'de [Value], DeError>)
        ensures
            result_view(r) == seq_visit(self@),
    {
        self.deserialize_seq()
    }

    /// Reads the value as a map: the entries of a map, or the fields of a
    /// record keyed by their names.
    pub fn deserialize_map(&self) -> (r: Result<MapStep<'de>, DeError>)
        ensures
            result_view(r) == map_visit(self@),
    {
        match self.input {
            Value::AvroMap(entries) => Ok(MapStep::Entries(entries)),
            Value::Record(fields) => Ok(MapStep::Record(fields.as_slice())),
            _ => Err(DeError::NotRecordOrMap),
        }
    }

    /// Reads the value as a struct: the fields of a record, bare or in a
    /// union.
    pub fn deserialize_struct(&self) -> (r: Result<&'de [(String, Value)], DeError>)
        ensures
            result_view(r) == struct_visit(self@),
    {
        match self.input {
            Value::Record(fields) => Ok(fields.as_slice()),
            Value::Union(_, inner) => match &**inner {
                Value::Record(fields) => Ok(fields.as_slice()),
                _ => Err(DeError::NotARecord),
            },
            _ => Err(DeError::NotARecord),
        }
    }

    /// Reads the value as an enum: a record names its variant in its first
    /// field; an enum symbol is a variant without content.
    pub fn deserialize_enum(&self) -> (r: Result<EnumStep<'de>, DeError>)
        ensures
            result_view(r) == enum_visit(self@),
    {
        match self.input {
            Value::Record(fields) => Ok(EnumStep::Tagged(fields.as_slice())),
            Value::Enum(_, name) => Ok(EnumStep::Symbol(name.as_str())),
            _ => Err(DeError::NotAnEnum),
        }
    }

    /// Reads the value as an identifier: as borrowed text.
    pub fn deserialize_identifier(&self) -> (r: Result<TextStep<'de>, DeError>)
        ensures
            result_view(r) == str_visit(self@),
    {
        self.deserialize_str()
    }

    /// Reads a value that will be thrown away: as without a type hint.
    pub fn deserialize_ignored_any(&self) -> (r: Result<AnyStep<'de>, DeError>)
        ensures
            result_view(r) == any_visit(self@),
    {
        self.deserialize_any()
    }
}

} // verus!
