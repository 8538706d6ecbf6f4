use apache_avro::access::{
    ByteSeqDeserializer, EnumDeserializer, EnumUnitDeserializer, MapDeserializer,
    RecordDeserializer, SeqDeserializer,
};
use apache_avro::de::{AnyStep, Deserializer, EnumStep, MapStep, TextStep, TupleStep};
use apache_avro::error::DeError;
use apache_avro::text::uuid_to_string;
use apache_avro::value::{MapEntries, Value, ValueKind};

fn s(x: &str) -> String {
    x.to_owned()
}

fn map_of(entries: Vec<(String, Value)>) -> Value {
    let mut m = MapEntries::new();
    for (k, v) in entries {
        m.insert(k, v);
    }
    Value::AvroMap(m)
}

fn union(i: u32, v: Value) -> Value {
    Value::Union(i, Box::new(v))
}

fn any(v: &Value) -> Result<AnyStep<'_>, DeError> {
    Deserializer::new(v).deserialize_any()
}

#[test]
fn any_reads_scalars() {
    assert_eq!(any(&Value::Null), Ok(AnyStep::Unit));
    assert_eq!(any(&Value::Boolean(false)), Ok(AnyStep::Bool(false)));
    assert_eq!(any(&Value::Int(-7)), Ok(AnyStep::I32(-7)));
    assert_eq!(any(&Value::Long(1 << 40)), Ok(AnyStep::I64(1 << 40)));
    assert_eq!(any(&Value::Float(1.5f32.to_bits())), Ok(AnyStep::F32(1.5f32.to_bits())));
    assert_eq!(any(&Value::Double(2.5f64.to_bits())), Ok(AnyStep::F64(2.5f64.to_bits())));
    let st = Value::String(s("x"));
    assert_eq!(any(&st), Ok(AnyStep::Str("x")));
}

#[test]
fn any_refuses_kinds_it_cannot_read() {
    assert_eq!(any(&Value::Bytes(vec![1])), Err(DeError::IncorrectKind(ValueKind::Bytes)));
    assert_eq!(any(&Value::Fixed(1, vec![1])), Err(DeError::IncorrectKind(ValueKind::Fixed)));
    assert_eq!(any(&Value::Enum(0, s("A"))), Err(DeError::IncorrectKind(ValueKind::Enum)));
    assert_eq!(any(&Value::Uuid([0; 16])), Err(DeError::IncorrectKind(ValueKind::Uuid)));
}

#[test]
fn union_reads_through_when_admitted() {
    let inners = vec![
        Value::Null,
        Value::Boolean(true),
        Value::Int(3),
        Value::Long(4),
        Value::TimeMicros(5),
        Value::TimestampMillis(6),
        Value::TimestampMicros(7),
        Value::Float(8),
        Value::Double(9),
        Value::String(s("t")),
        Value::Array(vec![Value::Null]),
        Value::Record(vec![(s("a"), Value::Null)]),
        map_of(vec![(s("k"), Value::Null)]),
    ];
    for inner in inners {
        let direct = format!("{:?}", any(&inner));
        let u = union(2, inner);
        assert_eq!(format!("{:?}", any(&u)), direct);
    }
}

#[test]
fn union_refuses_dates_times_and_nested_unions() {
    assert_eq!(any(&union(0, Value::Date(3))), Err(DeError::UnsupportedUnion));
    assert_eq!(any(&union(0, Value::TimeMillis(3))), Err(DeError::UnsupportedUnion));
    assert_eq!(any(&union(0, union(0, Value::Null))), Err(DeError::UnsupportedUnion));
    assert_eq!(any(&union(0, Value::Bytes(vec![]))), Err(DeError::UnsupportedUnion));
}

#[test]
fn char_is_never_read() {
    assert_eq!(
        Deserializer::new(&Value::String(s("a"))).deserialize_char(),
        Err(DeError::CharUnsupported)
    );
}

#[test]
fn str_reads_strings_bytes_fixed_and_uuids() {
    let b = Value::Bytes("héllo".as_bytes().to_vec());
    assert_eq!(Deserializer::new(&b).deserialize_str(), Ok(TextStep::Borrowed("héllo")));
    let f = Value::Fixed(2, b"ok".to_vec());
    assert_eq!(Deserializer::new(&f).deserialize_str(), Ok(TextStep::Borrowed("ok")));
    let n = Value::Int(1);
    assert_eq!(Deserializer::new(&n).deserialize_str(), Err(DeError::NotAString));
    // A union is not read through as a borrowed string.
    let u = union(0, Value::String(s("a")));
    assert_eq!(Deserializer::new(&u).deserialize_str(), Err(DeError::NotAString));
    assert_eq!(Deserializer::new(&u).deserialize_identifier(), Err(DeError::NotAString));
}

#[test]
fn invalid_utf8_is_reported_with_its_reason() {
    let bad = Value::Bytes(vec![0xff, 0x41]);
    let expected = std::str::from_utf8(&[0xff, 0x41]).unwrap_err().to_string();
    assert_eq!(
        Deserializer::new(&bad).deserialize_str(),
        Err(DeError::InvalidUtf8(expected.clone()))
    );
    assert_eq!(
        Deserializer::new(&bad).deserialize_string(),
        Err(DeError::InvalidUtf8(expected))
    );
    let cut = Value::Fixed(1, vec![0xc3]);
    assert!(matches!(
        Deserializer::new(&cut).deserialize_str(),
        Err(DeError::InvalidUtf8(_))
    ));
}

#[test]
fn string_reads_owned_text_and_unions() {
    let b = Value::Bytes(b"abc".to_vec());
    assert_eq!(Deserializer::new(&b).deserialize_string(), Ok(TextStep::Owned(s("abc"))));
    let u = union(1, Value::String(s("in")));
    assert_eq!(Deserializer::new(&u).deserialize_string(), Ok(TextStep::Borrowed("in")));
    let ub = union(1, Value::Bytes(b"in".to_vec()));
    assert_eq!(Deserializer::new(&ub).deserialize_string(), Err(DeError::NotAString));
    let id = Value::Uuid([0; 16]);
    assert_eq!(Deserializer::new(&id).deserialize_string(), Err(DeError::NotAString));
}

#[test]
fn bytes_and_byte_buf() {
    let st = Value::String(s("é"));
    assert_eq!(Deserializer::new(&st).deserialize_bytes(), Ok(&[0xc3u8, 0xa9][..]));
    assert_eq!(Deserializer::new(&st).deserialize_byte_buf(), Ok(vec![0xc3u8, 0xa9]));
    let f = Value::Fixed(3, vec![1, 2, 3]);
    assert_eq!(Deserializer::new(&f).deserialize_bytes(), Ok(&[1u8, 2, 3][..]));
    assert_eq!(Deserializer::new(&f).deserialize_byte_buf(), Ok(vec![1u8, 2, 3]));
    let id = Value::Uuid([7; 16]);
    assert_eq!(Deserializer::new(&id).deserialize_bytes(), Ok(&[7u8; 16][..]));
    assert_eq!(Deserializer::new(&id).deserialize_byte_buf(), Err(DeError::NotAString));
    assert_eq!(Deserializer::new(&Value::Null).deserialize_bytes(), Err(DeError::NotAString));
}

#[test]
fn text_bytes_round_trip() {
    let st = Value::String(s("añb€"));
    let bytes = Deserializer::new(&st).deserialize_bytes().unwrap().to_vec();
    let back = Value::Bytes(bytes);
    assert_eq!(Deserializer::new(&back).deserialize_str(), Ok(TextStep::Borrowed("añb€")));
}

#[test]
fn option_and_unit() {
    let none = union(0, Value::Null);
    assert_eq!(Deserializer::new(&none).deserialize_option(), Ok(None));
    let some = union(1, Value::Long(3));
    assert_eq!(Deserializer::new(&some).deserialize_option(), Ok(Some(&Value::Long(3))));
    assert_eq!(Deserializer::new(&Value::Null).deserialize_option(), Err(DeError::NotAUnion));
    assert_eq!(Deserializer::new(&Value::Null).deserialize_unit(), Ok(()));
    assert_eq!(Deserializer::new(&none).deserialize_unit_struct(), Ok(()));
    assert_eq!(Deserializer::new(&some).deserialize_unit(), Err(DeError::NotANull));
    assert_eq!(Deserializer::new(&Value::Int(0)).deserialize_unit(), Err(DeError::NotANull));
}

#[test]
fn seq_tuple_and_errors() {
    let arr = Value::Array(vec![Value::Int(1)]);
    assert_eq!(Deserializer::new(&arr).deserialize_seq(), Ok(&[Value::Int(1)][..]));
    let u = union(0, Value::Array(vec![]));
    assert_eq!(Deserializer::new(&u).deserialize_tuple_struct(), Ok(&[][..]));
    assert_eq!(Deserializer::new(&u).deserialize_tuple(), Ok(TupleStep::Items(&[][..])));
    let f = Value::Fixed(2, vec![9, 8]);
    assert_eq!(Deserializer::new(&f).deserialize_seq(), Err(DeError::NotAnArray));
    assert_eq!(Deserializer::new(&f).deserialize_tuple(), Ok(TupleStep::Bytes(&[9u8, 8][..])));
    assert_eq!(Deserializer::new(&Value::Null).deserialize_tuple(), Err(DeError::NotAnArray));
}

#[test]
fn map_struct_enum_errors() {
    let n = Value::Null;
    assert_eq!(Deserializer::new(&n).deserialize_map(), Err(DeError::NotRecordOrMap));
    assert_eq!(Deserializer::new(&n).deserialize_struct(), Err(DeError::NotARecord));
    assert_eq!(Deserializer::new(&n).deserialize_enum(), Err(DeError::NotAnEnum));
    let m = map_of(vec![(s("k"), Value::Int(1))]);
    match Deserializer::new(&m).deserialize_map() {
        Ok(MapStep::Entries(entries)) => {
            assert_eq!(entries.as_slice(), &[(s("k"), Value::Int(1))][..])
        }
        other => panic!("unexpected {other:?}"),
    }
    assert_eq!(Deserializer::new(&m).deserialize_struct(), Err(DeError::NotARecord));
    let u = union(0, Value::Record(vec![]));
    assert_eq!(Deserializer::new(&u).deserialize_struct(), Ok(&[][..]));
    assert_eq!(Deserializer::new(&u).deserialize_map(), Err(DeError::NotRecordOrMap));
    let e = Value::Enum(1, s("B"));
    assert_eq!(Deserializer::new(&e).deserialize_enum(), Ok(EnumStep::Symbol("B")));
}

#[test]
fn newtype_struct_reads_the_same_value() {
    let v = Value::Long(5);
    let d = Deserializer::new(&v);
    let inner = d.deserialize_newtype_struct();
    assert_eq!(inner.input(), &Value::Long(5));
}

#[test]
fn seq_access_hands_out_items_in_order_then_nothing() {
    let items = vec![Value::Int(1), Value::Int(2)];
    let mut seq = SeqDeserializer::new(&items);
    assert_eq!(seq.next_element(), Some(&Value::Int(1)));
    assert_eq!(seq.next_element(), Some(&Value::Int(2)));
    assert_eq!(seq.next_element(), None);
    assert_eq!(seq.next_element(), None);
    let mut bytes = ByteSeqDeserializer::new(&[5, 6]);
    assert_eq!(bytes.next_element(), Some(5));
    assert_eq!(bytes.next_element(), Some(6));
    assert_eq!(bytes.next_element(), None);
}

#[test]
fn map_entries_keep_keys_distinct() {
    let mut m = MapEntries::new();
    assert_eq!(m.insert(s("a"), Value::Int(1)), None);
    assert_eq!(m.insert(s("b"), Value::Int(2)), None);
    assert_eq!(m.insert(s("a"), Value::Int(3)), Some(Value::Int(1)));
    assert_eq!(
        m.as_slice(),
        &[(s("a"), Value::Int(3)), (s("b"), Value::Int(2))][..]
    );
    let mut d = MapDeserializer::new(&m);
    assert_eq!(d.next_key(), Some(&s("a")));
    assert_eq!(d.next_key(), Some(&s("b")));
    assert_eq!(d.next_key(), None);
}

#[test]
fn map_access_pairs_keys_with_values() {
    let mut entries = MapEntries::new();
    entries.insert(s("a"), Value::Int(1));
    entries.insert(s("b"), Value::Int(2));
    let mut m = MapDeserializer::new(&entries);
    assert_eq!(m.next_key(), Some(&s("a")));
    assert_eq!(m.next_value(), Ok(&Value::Int(1)));
    assert_eq!(m.next_key(), Some(&s("b")));
    assert_eq!(m.next_value(), Ok(&Value::Int(2)));
    assert_eq!(m.next_key(), None);
    assert_eq!(m.next_value(), Err(DeError::TooManyValues));
}

#[test]
fn record_access_values_follow_keys() {
    let fields = vec![(s("a"), Value::Int(1)), (s("b"), Value::Int(2))];
    let mut r = RecordDeserializer::new(&fields);
    assert_eq!(r.next_value(), Err(DeError::TooManyValues));
    assert_eq!(r.next_key(), Some(&s("a")));
    assert_eq!(r.next_value(), Ok(&Value::Int(1)));
    assert_eq!(r.next_value(), Err(DeError::TooManyValues));
    assert_eq!(r.next_key(), Some(&s("b")));
    assert_eq!(r.next_key(), None);
    // The value of the last field is still kept after the keys run out.
    assert_eq!(r.next_value(), Ok(&Value::Int(2)));
}

#[test]
fn enum_symbol_access() {
    let e = EnumUnitDeserializer::new("Val2");
    assert_eq!(e.variant_seed(), "Val2");
    assert_eq!(e.unit_variant(), Ok(()));
    assert_eq!(e.newtype_variant_seed(), Err(DeError::UnexpectedNewtypeVariant));
    assert_eq!(e.tuple_variant(), Err(DeError::UnexpectedTupleVariant));
    assert_eq!(e.struct_variant(), Err(DeError::UnexpectedStructVariant));
}

#[test]
fn enum_record_access_and_its_errors() {
    let empty: Vec<(String, Value)> = vec![];
    let e = EnumDeserializer::new(&empty);
    assert_eq!(e.variant_seed(), Err(DeError::EmptyRecord));
    assert_eq!(e.newtype_variant_seed(), Err(DeError::MissingNewtypeValue));
    assert_eq!(e.tuple_variant(), Err(DeError::MissingTupleValue));
    assert_eq!(e.struct_variant(), Err(DeError::MissingStructValue));
    assert_eq!(e.unit_variant(), Ok(()));

    let wrong_name = vec![(s("kind"), Value::String(s("A")))];
    assert_eq!(
        EnumDeserializer::new(&wrong_name).variant_seed(),
        Err(DeError::FirstFieldNotType(s("kind")))
    );
    let wrong_value = vec![(s("type"), Value::Int(0))];
    assert_eq!(
        EnumDeserializer::new(&wrong_value).variant_seed(),
        Err(DeError::FirstFieldNotName)
    );
    let enum_not_type = vec![(s("kind"), Value::Enum(0, s("A")))];
    assert_eq!(
        EnumDeserializer::new(&enum_not_type).variant_seed(),
        Err(DeError::FirstFieldNotName)
    );
    let by_symbol = vec![(s("type"), Value::Enum(3, s("C"))), (s("value"), Value::Int(4))];
    let e = EnumDeserializer::new(&by_symbol);
    assert_eq!(e.variant_seed(), Ok("C"));
    assert_eq!(e.newtype_variant_seed(), Ok(&Value::Int(4)));
    assert_eq!(e.tuple_variant(), Err(DeError::NotAnArray));
    assert_eq!(e.struct_variant(), Err(DeError::NotARecord));
}

#[test]
fn uuid_text_matches_the_uuid_crate() {
    let samples: [[u8; 16]; 3] = [
        [0; 16],
        [0xff; 16],
        [0x12, 0x34, 0x56, 0x78, 0x9a, 0xbc, 0xde, 0xf0, 0x0f, 0xed, 0xcb, 0xa9, 0x87, 0x65, 0x43, 0x21],
    ];
    for b in samples.iter() {
        let text = uuid_to_string(b);
        assert_eq!(text, uuid::Uuid::from_bytes(*b).to_string());
        assert_eq!(text.len(), 36);
        assert_eq!(&text[8..9], "-");
    }
    assert_eq!(uuid_to_string(&[0xab; 16]), "abababab-abab-abab-abab-abababababab");
}

#[test]
fn kind_of_each_value() {
    assert_eq!(map_of(vec![]).kind(), ValueKind::AvroMap);
    assert_eq!(union(0, Value::Null).kind(), ValueKind::Union);
    assert_eq!(Value::Date(0).kind(), ValueKind::Date);
}

