use vstd::prelude::*;

use crate::de::{seq_visit, struct_visit, Deserializer};
use crate::error::{result_view, DeError, Fault};
use crate::value::{keys_distinct, MapEntries, Value};

verus! {

/// The value behind an optional reference.
pub open spec fn deref_opt<'a>(o: Option<&'a Value>) -> Option<Value> {
    match o {
        Some(v) => Some(*v),
        None => None,
    }
}

/// One step through the items of an array, from position `pos`: the next
/// position and the item handed out, if any is left.
pub open spec fn seq_step(items: Seq<Value>, pos: nat) -> (nat, Option<Value>) {
    if pos < items.len() {
        ((pos + 1) as nat, Some(items[pos as int]))
    } else {
        (pos, None)
    }
}

/// Hands out the items of an array, one at a time, in order.
pub struct SeqDeserializer<'de> {
    input: &'de [Value],
    pos: usize,
}

impl<'de> SeqDeserializer<'de> {
    #[verifier::type_invariant]
    spec fn within_bounds(self) -> bool {
        self.pos <= self.input@.len()
    }

    /// The items this access walks through.
    pub closed spec fn items(self) -> Seq<Value> {
        self.input@
    }

    /// How many items were handed out so far.
    pub closed spec fn position(self) -> nat {
        self.pos as nat
    }

    /// An access to the given items, none handed out yet.
    pub fn new(input: &'de [Value]) -> (s: Self)
        ensures
            s.items() == input@,
            s.position() == 0,
    {
        SeqDeserializer { input, pos: 0 }
    }

    /// Hands out the next item, or `None` once all were handed out.
    pub fn next_element(&mut self) -> (r: Option<&'de Value>)
        ensures
            final(self).items() == old(self).items(),
            (final(self).position(), deref_opt(r)) == seq_step(old(self).items(), old(self).position()),
            final(self).position() <= final(self).items().len(),
    {
        proof {
            use_type_invariant(&*self);
        }
        if self.pos < self.input.len() {
            let item = &self.input[self.pos];
            self.pos = self.pos + 1;
            Some(item)
        } else {
            None
        }
    }
}

/// One step through a byte string, from position `pos`: the next position
/// and the byte handed out, if any is left.
pub open spec fn byte_step(bytes: Seq<u8>, pos: nat) -> (nat, Option<u8>) {
    if pos < bytes.len() {
        ((pos + 1) as nat, Some(bytes[pos as int]))
    } else {
        (pos, None)
    }
}

/// Hands out the bytes of a fixed, one at a time, in order.
pub struct ByteSeqDeserializer<'de> {
    input: &'de [u8],
    pos: usize,
}

impl<'de> ByteSeqDeserializer<'de> {
    #[verifier::type_invariant]
    spec fn within_bounds(self) -> bool {
        self.pos <= self.input@.len()
    }

    /// The bytes this access walks through.
    pub closed spec fn bytes(self) -> Seq<u8> {
        self.input@
    }

    /// How many bytes were handed out so far.
    pub closed spec fn position(self) -> nat {
        self.pos as nat
    }

    /// An access to the given bytes, none handed out yet.
    pub fn new(input: &'de [u8]) -> (s: Self)
        ensures
            s.bytes() == input@,
            s.position() == 0,
    {
        ByteSeqDeserializer { input, pos: 0 }
    }

    /// Hands out the next byte, or `None` once all were handed out.
    pub fn next_element(&mut self) -> (r: Option<u8>)
        ensures
            final(self).bytes() == old(self).bytes(),
            (final(self).position(), r) == byte_step(old(self).bytes(), old(self).position()),
    {
        proof {
            use_type_invariant(&*self);
        }
        if self.pos < self.input.len() {
            let b = self.input[self.pos];
            self.pos = self.pos + 1;
            Some(b)
        } else {
            None
        }
    }
}

/// One step through the keys of a map, from position `keys`.
pub open spec fn map_key_step(entries: Seq<(String, Value)>, keys: nat) -> (nat, Option<String>) {
    if keys < entries.len() {
        ((keys + 1) as nat, Some(entries[keys as int].0))
    } else {
        (keys, None)
    }
}

/// One step through the values of a map, from position `values`: a value
/// asked for past the last one is an error.
pub open spec fn map_value_step(entries: Seq<(String, Value)>, values: nat) -> (nat, Result<Value, Fault>) {
    if values < entries.len() {
        ((values + 1) as nat, Ok(entries[values as int].1))
    } else {
        (values, Err(Fault::TooManyValues))
    }
}

/// Hands out the keys and the values of a map, each in entry order.
pub struct MapDeserializer<'de> {
    input: &'de MapEntries,
    keys: usize,
    values: usize,
}

impl<'de> MapDeserializer<'de> {
    #[verifier::type_invariant]
    spec fn within_bounds(self) -> bool {
        &&& self.keys <= self.input@.len()
        &&& self.values <= self.input@.len()
        &&& keys_distinct(self.input@)
    }

    /// The entries this access walks through.
    pub closed spec fn entries(self) -> Seq<(String, Value)> {
        self.input@
    }

    /// How many keys were handed out so far.
    pub closed spec fn keys_taken(self) -> nat {
        self.keys as nat
    }

    /// How many values were handed out so far.
    pub closed spec fn values_taken(self) -> nat {
        self.values as nat
    }

    /// An access to the entries of the given map, no key and no value
    /// handed out yet.
    pub fn new(input: &'de MapEntries) -> (m: Self)
        ensures
            m.entries() == input@,
            m.keys_taken() == 0,
            m.values_taken() == 0,
            keys_distinct(m.entries()),
    {
        proof {
            use_type_invariant(input);
        }
        MapDeserializer { input, keys: 0, values: 0 }
    }

    /// Hands out the next key, or `None` once all keys were handed out.
    pub fn next_key(&mut self) -> (r: Option<&'de String>)
        ensures
            final(self).entries() == old(self).entries(),
            final(self).values_taken() == old(self).values_taken(),
            (final(self).keys_taken(), match r {
                Some(k) => Some(*k),
                None => None::<String>,
            }) == map_key_step(old(self).entries(), old(self).keys_taken()),
            keys_distinct(final(self).entries()),
            r matches Some(k) ==> forall|j: int|
                0 <= j < old(self).keys_taken() ==> #[trigger] old(self).entries()[j].0@ != k@,
    {
        proof {
            use_type_invariant(&*self);
        }
        let entries = self.input.as_slice();
        if self.keys < entries.len() {
            let key = &entries[self.keys].0;
            self.keys = self.keys + 1;
            Some(key)
        } else {
            None
        }
    }

    /// Hands out the next value; asking past the last one is an error.
    pub fn next_value(&mut self) -> (r: Result<&'de Value, DeError>)
        ensures
            final(self).entries() == old(self).entries(),
            final(self).keys_taken() == old(self).keys_taken(),
            (final(self).values_taken(), match r {
                Ok(v) => Ok(*v),
                Err(e) => Err(e@),
            }) == map_value_step(old(self).entries(), old(self).values_taken()),
    {
        proof {
            use_type_invariant(&*self);
        }
        let entries = self.input.as_slice();
        if self.values < entries.len() {
            let value = &entries[self.values].1;
            self.values = self.values + 1;
            Ok(value)
        } else {
            Err(DeError::TooManyValues)
        }
    }
}

/// One key step through the fields of a record: the next position, the
/// value kept for the next value step, and the field name handed out.
pub open spec fn record_key_step(fields: Seq<(String, Value)>, pos: nat, pending: Option<Value>) -> (
    nat,
    Option<Value>,
    Option<String>,
) {
    if pos < fields.len() {
        ((pos + 1) as nat, Some(fields[pos as int].1), Some(fields[pos as int].0))
    } else {
        (pos, pending, None)
    }
}

/// One value step through a record: the value kept by the last key step,
/// taken out; with none kept, an error.
pub open spec fn record_value_step(pending: Option<Value>) -> (Option<Value>, Result<Value, Fault>) {
    match pending {
        Some(v) => (None, Ok(v)),
        None => (None, Err(Fault::TooManyValues)),
    }
}

/// Hands out the fields of a record as keys and values: each value is the
/// value of the field whose name was handed out last.
pub struct RecordDeserializer<'de> {
    input: &'de [(String, Value)],
    pos: usize,
    value: Option<&'de Value>,
}

impl<'de> RecordDeserializer<'de> {
    #[verifier::type_invariant]
    spec fn within_bounds(self) -> bool {
        self.pos <= self.input@.len()
    }

    /// The fields this access walks through.
    pub closed spec fn fields(self) -> Seq<(String, Value)> {
        self.input@
    }

    /// How many field names were handed out so far.
    pub closed spec fn position(self) -> nat {
        self.pos as nat
    }

    /// The value kept for the next value step.
    pub closed spec fn pending(self) -> Option<Value> {
        deref_opt(self.value)
    }

    /// An access to the given fields, nothing handed out or kept yet.
    pub fn new(input: &'de [(String, Value)]) -> (r: Self)
        ensures
            r.fields() == input@,
            r.position() == 0,
            r.pending() == None::<Value>,
    {
        RecordDeserializer { input, pos: 0, value: None }
    }

    /// Hands out the next field name and keeps its value, or `None` once all
    /// fields were handed out.
    pub fn next_key(&mut self) -> (r: Option<&'de String>)
        ensures
            final(self).fields() == old(self).fields(),
            (final(self).position(), final(self).pending(), match r {
                Some(k) => Some(*k),
                None => None::<String>,
            }) == record_key_step(old(self).fields(), old(self).position(), old(self).pending()),
    {
        proof {
            use_type_invariant(&*self);
        }
        if self.pos < self.input.len() {
            let field = &self.input[self.pos];
            self.value = Some(&field.1);
            self.pos = self.pos + 1;
            Some(&field.0)
        } else {
            None
        }
    }

    /// Hands out the value kept by the last key step; with none kept, an
    /// error.
    pub fn next_value(&mut self) -> (r: Result<&'de Value, DeError>)
        ensures
            final(self).fields() == old(self).fields(),
            final(self).position() == old(self).position(),
            (final(self).pending(), match r {
                Ok(v) => Ok(*v),
                Err(e) => Err(e@),
            }) == record_value_step(old(self).pending()),
    {
        proof {
            use_type_invariant(&*self);
        }
        match self.value {
            Some(value) => {
                self.value = None;
                Ok(value)
            },
            None => Err(DeError::TooManyValues),
        }
    }
}

/// Reads an enum symbol: a variant that is only a name.
pub struct EnumUnitDeserializer<'a> {
    input: &'a str,
}

impl<'a> View for EnumUnitDeserializer<'a> {
    type V = Seq<char>;

    closed spec fn view(&self) -> Seq<char> {
        self.input@
    }
}

impl<'a> EnumUnitDeserializer<'a> {
    /// A reader of the symbol with the given name.
    pub fn new(input: &'a str) -> (e: Self)
        ensures
            e@ == input@,
    {
        EnumUnitDeserializer { input }
    }

    /// The name of the variant: the symbol itself.
    pub fn variant_seed(&self) -> (name: &'a str)
        ensures
            name@ == self@,
    {
        self.input
    }

    /// A symbol is a unit variant.
    pub fn unit_variant(&self) -> (r: Result<(), DeError>)
        ensures
            r is Ok,
    {
        Ok(())
    }

    /// A symbol has no newtype content.
    pub fn newtype_variant_seed(&self) -> (r: Result<(), DeError>)
        ensures
            r matches Err(e) && e@ == Fault::UnexpectedNewtypeVariant,
    {
        Err(DeError::UnexpectedNewtypeVariant)
    }

    /// A symbol has no tuple content.
    pub fn tuple_variant(&self) -> (r: Result<(), DeError>)
        ensures
            r matches Err(e) && e@ == Fault::UnexpectedTupleVariant,
    {
        Err(DeError::UnexpectedTupleVariant)
    }

    /// A symbol has no struct content.
    pub fn struct_variant(&self) -> (r: Result<(), DeError>)
        ensures
            r matches Err(e) && e@ == Fault::UnexpectedStructVariant,
    {
        Err(DeError::UnexpectedStructVariant)
    }
}

/// The variant a record standing for an enum names: its first field must be
/// named `type` and hold a string or an enum symbol, the variant's name.
pub open spec fn variant_name(fields: Seq<(String, Value)>) -> Result<Seq<char>, Fault> {
    if fields.len() == 0 {
        Err(Fault::EmptyRecord)
    } else {
        let name = fields[0].0@;
        match fields[0].1 {
            Value::String(x) => if name == "type"@ {
                Ok(x@)
            } else {
                Err(Fault::FirstFieldNotType(name))
            },
            Value::Enum(_, x) => if name == "type"@ {
                Ok(x@)
            } else {
                Err(Fault::FirstFieldNotName)
            },
            _ => Err(Fault::FirstFieldNotName),
        }
    }
}

/// Reads an enum from a record: the first field names the variant, the
/// second, if there is one, holds its content.
pub struct EnumDeserializer<'de> {
    input: &'de [(String, Value)],
}

impl<'de> View for EnumDeserializer<'de> {
    type V = Seq<(String, Value)>;

    closed spec fn view(&self) -> Seq<(String, Value)> {
        self.input@
    }
}

impl<'de> EnumDeserializer<'de> {
    /// A reader of the enum the given record fields stand for.
    pub fn new(input: &'de [(String, Value)]) -> (e: Self)
        ensures
            e@ == input@,
    {
        EnumDeserializer { input }
    }

    /// The name of the variant, as the first field gives it.
    pub fn variant_seed(&self) -> (r: Result<&'de str, DeError>)
        ensures
            result_view(r) == variant_name(self@),
    {
        if self.input.len() == 0 {
            return Err(DeError::EmptyRecord);
        }
        let first = &self.input[0];
        let tag = "type".to_owned();
        let named_type = first.0 == tag;
        match &first.1 {
            Value::String(x) => if named_type {
                Ok(x.as_str())
            } else {
                Err(DeError::FirstFieldNotType(first.0.clone()))
            },
            Value::Enum(_, x) => if named_type {
                Ok(x.as_str())
            } else {
                Err(DeError::FirstFieldNotName)
            },
            _ => Err(DeError::FirstFieldNotName),
        }
    }

    /// A variant read as a unit needs nothing more.
    pub fn unit_variant(&self) -> (r: Result<(), DeError>)
        ensures
            r is Ok,
    {
        Ok(())
    }

    /// The content of a newtype variant: the value of the second field.
    pub fn newtype_variant_seed(&self) -> (r: Result<&'de Value, DeError>)
        ensures
            self@.len() > 1 ==> (r matches Ok(v) && *v == self@[1].1),
            self@.len() <= 1 ==> (r matches Err(e) && e@ == Fault::MissingNewtypeValue),
    {
        if self.input.len() > 1 {
            Ok(&self.input[1].1)
        } else {
            Err(DeError::MissingNewtypeValue)
        }
    }

    /// The content of a tuple variant: the value of the second field read
    /// as a sequence.
    pub fn tuple_variant(&self) -> (r: Result<&'de [Value], DeError>)
        ensures
            self@.len() > 1 ==> result_view(r) == seq_visit(self@[1].1),
            self@.len() <= 1 ==> (r matches Err(e) && e@ == Fault::MissingTupleValue),
    {
        if self.input.len() > 1 {
            Deserializer::new(&self.input[1].1).deserialize_seq()
        } else {
            Err(DeError::MissingTupleValue)
        }
    }

    /// The content of a struct variant: the value of the second field read
    /// as a struct.
    pub fn struct_variant(&self) -> (r: Result<&'de [(String, Value)], DeError>)
        ensures
            self@.len() > 1 ==> result_view(r) == struct_visit(self@[1].1),
            self@.len() <= 1 ==> (r matches Err(e) && e@ == Fault::MissingStructValue),
    {
        if self.input.len() > 1 {
            Deserializer::new(&self.input[1].1).deserialize_struct()
        } else {
            Err(DeError::MissingStructValue)
        }
    }
}

} // verus!
