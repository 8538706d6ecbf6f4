use vstd::prelude::*;
use vstd::utf8::*;

use crate::access::{variant_name, map_key_step, map_value_step, record_key_step, record_value_step, seq_step};
use crate::de::{
    any_visit, byte_buf_visit, bytes_visit, enum_visit, is_unit, map_visit, option_visit,
    seq_visit, str_visit, string_visit, struct_visit, tuple_visit, union_admits, EnumVisit,
    MapVisit, Text, TupleVisit, Visit,
};
use crate::text::utf8_error_text;
use crate::error::Fault;
use crate::text::{lemma_hex_text_ascii, uuid_text};
use crate::value::{keys_distinct, kind_of, MapEntries, Value};

verus! {

/// A union is read through without a type hint: a union holding a value
/// that may stand in one reads exactly as that value does.
pub proof fn law_union_reads_through(index: u32, inner: Value)
    requires
        union_admits(inner),
    ensures
        any_visit(Value::Union(index, Box::new(inner))) == any_visit(inner),
{
}

/// Read as a string, a sequence, a struct, an option or the unit, a union
/// holding a string, an array, a record or a null reads as what it holds.
pub proof fn law_union_transparent_for_hints(index: u32, inner: Value)
    ensures
        inner is String ==> string_visit(Value::Union(index, Box::new(inner))) == string_visit(
            inner,
        ),
        inner is Array ==> seq_visit(Value::Union(index, Box::new(inner))) == seq_visit(inner),
        inner is Record ==> struct_visit(Value::Union(index, Box::new(inner))) == struct_visit(
            inner,
        ),
        is_unit(Value::Union(index, Box::new(inner))) == (inner is Null),
        option_visit(Value::Union(index, Box::new(inner))) == (if inner is Null {
            Ok::<Option<Value>, Fault>(None)
        } else {
            Ok::<Option<Value>, Fault>(Some(inner))
        }),
{
}

/// Dates and times read, without a type hint, as the integers they are
/// stored as: days and milliseconds as 32-bit, microseconds and timestamps
/// as 64-bit integers.
pub proof fn law_logical_types_read_as_integers(i: i32, l: i64)
    ensures
        any_visit(Value::Date(i)) == Ok::<Visit, Fault>(Visit::I32(i)),
        any_visit(Value::TimeMillis(i)) == Ok::<Visit, Fault>(Visit::I32(i)),
        any_visit(Value::TimeMicros(l)) == Ok::<Visit, Fault>(Visit::I64(l)),
        any_visit(Value::TimestampMillis(l)) == Ok::<Visit, Fault>(Visit::I64(l)),
        any_visit(Value::TimestampMicros(l)) == Ok::<Visit, Fault>(Visit::I64(l)),
{
}

/// Text and bytes agree: the bytes a string reads as are valid UTF-8, and
/// bytes holding them read back as that string; bytes that read as text are
/// the UTF-8 encoding of that text.
pub proof fn law_text_bytes_round_trip(s: String, bytes: Vec<u8>)
    ensures
        bytes_visit(Value::String(s)) == Ok::<Seq<u8>, Fault>(encode_utf8(s@)),
        bytes@ == encode_utf8(s@) ==> str_visit(Value::Bytes(bytes)) == Ok::<Text, Fault>(
            Text::Borrowed(s@),
        ),
        str_visit(Value::Bytes(bytes)) matches Ok(Text::Borrowed(t)) ==> encode_utf8(t) == bytes@,
{
    encode_utf8_valid_utf8(s@);
    encode_utf8_decode_utf8(s@);
    if valid_utf8(bytes@) {
        decode_utf8_encode_utf8(bytes@);
    }
}

/// The text of a UUID has 36 characters, with hyphens at positions 8, 13,
/// 18 and 23.
pub proof fn law_uuid_text_shape(bytes: Seq<u8>)
    requires
        bytes.len() == 16,
    ensures
        uuid_text(bytes).len() == 36,
        uuid_text(bytes)[8] == '-',
        uuid_text(bytes)[13] == '-',
        uuid_text(bytes)[18] == '-',
        uuid_text(bytes)[23] == '-',
{
    lemma_hex_text_ascii(bytes.subrange(0, 4));
    lemma_hex_text_ascii(bytes.subrange(4, 6));
    lemma_hex_text_ascii(bytes.subrange(6, 8));
    lemma_hex_text_ascii(bytes.subrange(8, 10));
    lemma_hex_text_ascii(bytes.subrange(10, 16));
}

/// What `n` successive steps through the items of an array hand out.
pub open spec fn seq_drain(items: Seq<Value>, pos: nat, n: nat) -> Seq<Option<Value>>
    decreases n,
{
    if n == 0 {
        seq![]
    } else {
        let (next, out) = seq_step(items, pos);
        seq![out] + seq_drain(items, next, (n - 1) as nat)
    }
}

/// An array is handed out item by item, in order, and then nothing, for
/// as long as one asks.
pub proof fn law_seq_hands_out_items_in_order(items: Seq<Value>, pos: nat, n: nat)
    requires
        pos <= items.len(),
    ensures
        seq_drain(items, pos, n).len() == n,
        forall|k: int|
            0 <= k < n ==> #[trigger] seq_drain(items, pos, n)[k] == (if pos + k < items.len() {
                Some(items[pos + k])
            } else {
                None
            }),
    decreases n,
{
    if n > 0 {
        let (next, out) = seq_step(items, pos);
        law_seq_hands_out_items_in_order(items, next, (n - 1) as nat);
        let rest = seq_drain(items, next, (n - 1) as nat);
        assert forall|k: int| 0 <= k < n implies #[trigger] seq_drain(items, pos, n)[k] == (if pos
            + k < items.len() {
            Some(items[pos + k])
        } else {
            None
        }) by {
            if k > 0 {
                assert(seq_drain(items, pos, n)[k] == rest[k - 1]);
            }
        }
    }
}

/// What `n` rounds of asking a record for a key and then a value hand out.
pub open spec fn record_drain(
    fields: Seq<(String, Value)>,
    pos: nat,
    pending: Option<Value>,
    n: nat,
) -> Seq<(Option<String>, Result<Value, Fault>)>
    decreases n,
{
    if n == 0 {
        seq![]
    } else {
        let (p1, pend1, key) = record_key_step(fields, pos, pending);
        let (pend2, value) = record_value_step(pend1);
        seq![(key, value)] + record_drain(fields, p1, pend2, (n - 1) as nat)
    }
}

/// Asked for a key and then a value, round after round, a record hands out
/// each field's name with that field's own value, in field order; once the
/// fields are all out, there is no key and asking for a value is an error.
pub proof fn law_record_pairs_keys_with_values(fields: Seq<(String, Value)>, pos: nat, n: nat)
    requires
        pos <= fields.len(),
    ensures
        record_drain(fields, pos, None, n).len() == n,
        forall|k: int|
            0 <= k < n ==> #[trigger] record_drain(fields, pos, None, n)[k] == (if pos + k
                < fields.len() {
                (Some(fields[pos + k].0), Ok::<Value, Fault>(fields[pos + k].1))
            } else {
                (None, Err(Fault::TooManyValues))
            }),
    decreases n,
{
    if n > 0 {
        let (p1, pend1, key) = record_key_step(fields, pos, None);
        let (pend2, value) = record_value_step(pend1);
        assert(pend2 is None);
        law_record_pairs_keys_with_values(fields, p1, (n - 1) as nat);
        let rest = record_drain(fields, p1, pend2, (n - 1) as nat);
        assert forall|k: int| 0 <= k < n implies #[trigger] record_drain(fields, pos, None, n)[k]
            == (if pos + k < fields.len() {
            (Some(fields[pos + k].0), Ok::<Value, Fault>(fields[pos + k].1))
        } else {
            (None, Err(Fault::TooManyValues))
        }) by {
            if k > 0 {
                assert(record_drain(fields, pos, None, n)[k] == rest[k - 1]);
            }
        }
    }
}

/// A value asked for twice in a row, with no key between, is an error the
/// second time.
pub proof fn law_record_value_once(pending: Option<Value>)
    ensures
        record_value_step(record_value_step(pending).0).1 == Err::<Value, Fault>(
            Fault::TooManyValues,
        ),
{
}

/// What `n` rounds of asking a map for a key and then a value hand out.
pub open spec fn map_drain(entries: Seq<(String, Value)>, keys: nat, values: nat, n: nat) -> Seq<
    (Option<String>, Result<Value, Fault>),
>
    decreases n,
{
    if n == 0 {
        seq![]
    } else {
        let (k1, key) = map_key_step(entries, keys);
        let (v1, value) = map_value_step(entries, values);
        seq![(key, value)] + map_drain(entries, k1, v1, (n - 1) as nat)
    }
}

/// Asked for a key and then a value, round after round, a map hands out
/// each entry's key with that entry's own value, in entry order; once the
/// entries are all out, there is no key and asking for a value is an error.
pub proof fn law_map_pairs_keys_with_values(entries: Seq<(String, Value)>, pos: nat, n: nat)
    requires
        pos <= entries.len(),
    ensures
        map_drain(entries, pos, pos, n).len() == n,
        forall|k: int|
            0 <= k < n ==> #[trigger] map_drain(entries, pos, pos, n)[k] == (if pos + k
                < entries.len() {
                (Some(entries[pos + k].0), Ok::<Value, Fault>(entries[pos + k].1))
            } else {
                (None, Err(Fault::TooManyValues))
            }),
    decreases n,
{
    if n > 0 {
        let (k1, key) = map_key_step(entries, pos);
        let (v1, value) = map_value_step(entries, pos);
        law_map_pairs_keys_with_values(entries, k1, (n - 1) as nat);
        let rest = map_drain(entries, k1, v1, (n - 1) as nat);
        assert forall|k: int| 0 <= k < n implies #[trigger] map_drain(entries, pos, pos, n)[k] == (
        if pos + k < entries.len() {
            (Some(entries[pos + k].0), Ok::<Value, Fault>(entries[pos + k].1))
        } else {
            (None, Err(Fault::TooManyValues))
        }) by {
            if k > 0 {
                assert(map_drain(entries, pos, pos, n)[k] == rest[k - 1]);
            }
        }
    }
}

/// A map hands out no key twice: its keys are distinct, as those of every
/// map access are (`MapDeserializer::new`).
pub proof fn law_map_hands_out_each_key_once(entries: Seq<(String, Value)>, n: nat)
    requires
        keys_distinct(entries),
    ensures
        forall|j: int, k: int|
            0 <= j < k < n && map_drain(entries, 0, 0, n)[j].0 is Some
                ==> #[trigger] map_drain(entries, 0, 0, n)[j].0 != #[trigger] map_drain(
                entries,
                0,
                0,
                n,
            )[k].0,
{
    law_map_pairs_keys_with_values(entries, 0, n);
    assert forall|j: int, k: int|
        0 <= j < k < n && map_drain(entries, 0, 0, n)[j].0 is Some implies #[trigger] map_drain(
        entries,
        0,
        0,
        n,
    )[j].0 != #[trigger] map_drain(entries, 0, 0, n)[k].0 by {
        if k < entries.len() {
            assert(entries[j].0@ != entries[k].0@);
        }
    }
}

/// Without a type hint, each kind that can be read on its own is handed
/// over as it is: null as the unit, booleans, 32-bit integers (dates and
/// times of day in milliseconds among them), 64-bit integers (times in
/// microseconds and timestamps among them), float bits, strings, the items of
/// an array, the fields of a record and the entries of a map, all of them
/// whole; bytes, fixeds, enum symbols and UUIDs are refused by their kind.
pub proof fn law_any_hands_over_each_kind(
    b: bool,
    i: i32,
    l: i64,
    f: u32,
    d: u64,
    s: String,
    items: Vec<Value>,
    fields: Vec<(String, Value)>,
    entries: MapEntries,
    bytes: Vec<u8>,
    n: usize,
    sym: u32,
    u: [u8; 16],
)
    ensures
        any_visit(Value::Null) == Ok::<Visit, Fault>(Visit::Unit),
        any_visit(Value::Boolean(b)) == Ok::<Visit, Fault>(Visit::Bool(b)),
        any_visit(Value::Int(i)) == Ok::<Visit, Fault>(Visit::I32(i)),
        any_visit(Value::Date(i)) == Ok::<Visit, Fault>(Visit::I32(i)),
        any_visit(Value::TimeMillis(i)) == Ok::<Visit, Fault>(Visit::I32(i)),
        any_visit(Value::Long(l)) == Ok::<Visit, Fault>(Visit::I64(l)),
        any_visit(Value::TimeMicros(l)) == Ok::<Visit, Fault>(Visit::I64(l)),
        any_visit(Value::TimestampMillis(l)) == Ok::<Visit, Fault>(Visit::I64(l)),
        any_visit(Value::TimestampMicros(l)) == Ok::<Visit, Fault>(Visit::I64(l)),
        any_visit(Value::Float(f)) == Ok::<Visit, Fault>(Visit::F32(f)),
        any_visit(Value::Double(d)) == Ok::<Visit, Fault>(Visit::F64(d)),
        any_visit(Value::String(s)) == Ok::<Visit, Fault>(Visit::Str(s@)),
        any_visit(Value::Array(items)) == Ok::<Visit, Fault>(Visit::Array(items@)),
        any_visit(Value::Record(fields)) == Ok::<Visit, Fault>(Visit::Record(fields@)),
        any_visit(Value::AvroMap(entries)) == Ok::<Visit, Fault>(Visit::Entries(entries@)),
        any_visit(Value::Bytes(bytes)) == Err::<Visit, Fault>(
            Fault::IncorrectKind(kind_of(Value::Bytes(bytes))),
        ),
        any_visit(Value::Fixed(n, bytes)) == Err::<Visit, Fault>(
            Fault::IncorrectKind(kind_of(Value::Fixed(n, bytes))),
        ),
        any_visit(Value::Enum(sym, s)) == Err::<Visit, Fault>(
            Fault::IncorrectKind(kind_of(Value::Enum(sym, s))),
        ),
        any_visit(Value::Uuid(u)) == Err::<Visit, Fault>(
            Fault::IncorrectKind(kind_of(Value::Uuid(u))),
        ),
{
}

/// Without a type hint, a union holding a null, a boolean, an int, a long,
/// a time in microseconds, a timestamp, a float, a double, a string, an
/// array, a record or a map reads exactly as the value it holds, and that
/// reading succeeds; a union holding a date, a time of day in milliseconds,
/// bytes, a fixed, an enum symbol, a UUID or another union is refused as an
/// unsupported union.
pub proof fn law_union_reads_through_by_kind(index: u32, inner: Value)
    ensures
        ({
            ||| inner is Null
            ||| inner is Boolean
            ||| inner is Int
            ||| inner is Long
            ||| inner is TimeMicros
            ||| inner is TimestampMillis
            ||| inner is TimestampMicros
            ||| inner is Float
            ||| inner is Double
            ||| inner is String
            ||| inner is Array
            ||| inner is Record
            ||| inner is AvroMap
        }) ==> any_visit(Value::Union(index, Box::new(inner))) == any_visit(inner) && any_visit(
            inner,
        ) is Ok,
        ({
            ||| inner is Date
            ||| inner is TimeMillis
            ||| inner is Bytes
            ||| inner is Fixed
            ||| inner is Enum
            ||| inner is Uuid
            ||| inner is Union
        }) ==> any_visit(Value::Union(index, Box::new(inner))) == Err::<Visit, Fault>(
            Fault::UnsupportedUnion,
        ),
{
}

/// In particular a union holding a boolean reads, without a type hint, as
/// that boolean, whichever branch it is in.
pub proof fn law_union_of_boolean_reads_as_boolean(index: u32, b: bool)
    ensures
        any_visit(Value::Union(index, Box::new(Value::Boolean(b)))) == Ok::<Visit, Fault>(
            Visit::Bool(b),
        ),
{
}

/// Bytes and fixeds read as text alike: as their UTF-8 decoding when they
/// are valid UTF-8 (borrowed for a str, owned for a string), and as the
/// decoding error otherwise; the text handed out encodes back to exactly
/// those bytes. A string reads as itself, borrowed.
pub proof fn law_bytes_and_fixed_read_as_text(n: usize, b: Vec<u8>, s: String)
    ensures
        str_visit(Value::Fixed(n, b)) == str_visit(Value::Bytes(b)),
        string_visit(Value::Fixed(n, b)) == string_visit(Value::Bytes(b)),
        valid_utf8(b@) ==> str_visit(Value::Bytes(b)) == Ok::<Text, Fault>(
            Text::Borrowed(decode_utf8(b@)),
        ),
        valid_utf8(b@) ==> string_visit(Value::Bytes(b)) == Ok::<Text, Fault>(
            Text::Owned(decode_utf8(b@)),
        ),
        !valid_utf8(b@) ==> str_visit(Value::Bytes(b)) == Err::<Text, Fault>(
            Fault::InvalidUtf8(utf8_error_text(b@)),
        ),
        !valid_utf8(b@) ==> string_visit(Value::Bytes(b)) == Err::<Text, Fault>(
            Fault::InvalidUtf8(utf8_error_text(b@)),
        ),
        string_visit(Value::Fixed(n, b)) matches Ok(Text::Owned(t)) ==> encode_utf8(t) == b@,
        str_visit(Value::Fixed(n, b)) matches Ok(Text::Borrowed(t)) ==> encode_utf8(t) == b@,
        str_visit(Value::String(s)) == Ok::<Text, Fault>(Text::Borrowed(s@)),
        string_visit(Value::String(s)) == Ok::<Text, Fault>(Text::Borrowed(s@)),
{
    if valid_utf8(b@) {
        decode_utf8_encode_utf8(b@);
    }
}

/// Bytes, fixeds and UUIDs read as bytes give exactly their bytes, and a
/// string its UTF-8 encoding; as an owned buffer, bytes, fixeds and strings
/// give the same.
pub proof fn law_bytes_read_as_themselves(n: usize, b: Vec<u8>, u: [u8; 16], s: String)
    ensures
        bytes_visit(Value::Bytes(b)) == Ok::<Seq<u8>, Fault>(b@),
        bytes_visit(Value::Fixed(n, b)) == Ok::<Seq<u8>, Fault>(b@),
        bytes_visit(Value::Uuid(u)) == Ok::<Seq<u8>, Fault>(u@),
        bytes_visit(Value::String(s)) == Ok::<Seq<u8>, Fault>(encode_utf8(s@)),
        byte_buf_visit(Value::Bytes(b)) == Ok::<Seq<u8>, Fault>(b@),
        byte_buf_visit(Value::Fixed(n, b)) == Ok::<Seq<u8>, Fault>(b@),
        byte_buf_visit(Value::String(s)) == Ok::<Seq<u8>, Fault>(encode_utf8(s@)),
{
}

/// An array read as a sequence, a tuple or through a union hands out all
/// of its items, in order; a fixed read as a tuple hands out all its bytes.
pub proof fn law_array_reads_as_all_its_items(index: u32, items: Vec<Value>, n: usize, b: Vec<u8>)
    ensures
        seq_visit(Value::Array(items)) == Ok::<Seq<Value>, Fault>(items@),
        seq_visit(Value::Union(index, Box::new(Value::Array(items)))) == Ok::<Seq<Value>, Fault>(
            items@,
        ),
        tuple_visit(Value::Array(items)) == Ok::<TupleVisit, Fault>(TupleVisit::Items(items@)),
        tuple_visit(Value::Fixed(n, b)) == Ok::<TupleVisit, Fault>(TupleVisit::Bytes(b@)),
        seq_visit(Value::Array(items)) matches Ok(got) ==> got.len() == items@.len(),
{
}

/// A record read as a map or as a struct hands out all of its fields, in
/// order, and a map all of its entries; a record read as an enum hands all
/// its fields to the enum access, and an enum symbol its name.
pub proof fn law_record_and_map_read_whole(
    index: u32,
    fields: Vec<(String, Value)>,
    entries: MapEntries,
    sym: u32,
    name: String,
)
    ensures
        map_visit(Value::Record(fields)) == Ok::<MapVisit, Fault>(MapVisit::Record(fields@)),
        map_visit(Value::AvroMap(entries)) == Ok::<MapVisit, Fault>(MapVisit::Entries(entries@)),
        struct_visit(Value::Record(fields)) == Ok::<Seq<(String, Value)>, Fault>(fields@),
        struct_visit(Value::Union(index, Box::new(Value::Record(fields)))) == Ok::<
            Seq<(String, Value)>,
            Fault,
        >(fields@),
        enum_visit(Value::Record(fields)) == Ok::<EnumVisit, Fault>(EnumVisit::Tagged(fields@)),
        enum_visit(Value::Enum(sym, name)) == Ok::<EnumVisit, Fault>(EnumVisit::Symbol(name@)),
{
}

/// A union holding null reads as an absent option and as the unit; a union
/// holding anything else reads as that value, present; a bare null reads as
/// the unit but not as an option.
pub proof fn law_options_and_units(index: u32, inner: Value)
    ensures
        option_visit(Value::Union(index, Box::new(Value::Null))) == Ok::<Option<Value>, Fault>(
            None,
        ),
        !(inner is Null) ==> option_visit(Value::Union(index, Box::new(inner))) == Ok::<
            Option<Value>,
            Fault,
        >(Some(inner)),
        option_visit(Value::Null) == Err::<Option<Value>, Fault>(Fault::NotAUnion),
        is_unit(Value::Null),
        is_unit(Value::Union(index, Box::new(Value::Null))),
{
}

/// A record standing for an enum names its variant by a first field called
/// `type` holding a string or an enum symbol: the variant is that text. A
/// first field with another name holding a string is refused with that
/// name; any other first field is refused; a record without fields too.
pub proof fn law_enum_variant_from_type_field(
    fields: Seq<(String, Value)>,
    text: String,
    sym: u32,
)
    ensures
        fields.len() == 0 ==> variant_name(fields) == Err::<Seq<char>, Fault>(Fault::EmptyRecord),
        fields.len() > 0 && fields[0].0@ == "type"@ && fields[0].1 == Value::String(text)
            ==> variant_name(fields) == Ok::<Seq<char>, Fault>(text@),
        fields.len() > 0 && fields[0].0@ == "type"@ && fields[0].1 == Value::Enum(sym, text)
            ==> variant_name(fields) == Ok::<Seq<char>, Fault>(text@),
        fields.len() > 0 && fields[0].0@ != "type"@ && fields[0].1 == Value::String(text)
            ==> variant_name(fields) == Err::<Seq<char>, Fault>(
            Fault::FirstFieldNotType(fields[0].0@),
        ),
        fields.len() > 0 && !(fields[0].1 is String) && !(fields[0].1 is Enum) ==> variant_name(
            fields,
        ) == Err::<Seq<char>, Fault>(Fault::FirstFieldNotName),
{
}

} // verus!
