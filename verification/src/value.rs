use vstd::prelude::*;

verus! {

/// An Avro value, as the deserializers read it.
///
/// Floating-point values are held by their IEEE-754 bit patterns, a UUID by
/// its sixteen bytes, and the entries of a map as a list of pairs whose keys
/// are pairwise distinct.
#[derive(Debug, PartialEq)]
pub enum Value {
    Null,
    Boolean(bool),
    Int(i32),
    Long(i64),
    /// The bits of a 32-bit float.
    Float(u32),
    /// The bits of a 64-bit float.
    Double(u64),
    Bytes(Vec<u8>),
    String(String),
    /// A fixed-size byte array: its declared size and its bytes.
    Fixed(usize, Vec<u8>),
    /// An enum symbol: its index and its name.
    Enum(u32, String),
    /// A union branch: the index of the branch and the value in it.
    Union(u32, Box<Value>),
    Array(Vec<Value>),
    /// The entries of a map, no key occurring twice.
    AvroMap(MapEntries),
    Record(Vec<(String, Value)>),
    Date(i32),
    TimeMillis(i32),
    TimeMicros(i64),
    TimestampMillis(i64),
    TimestampMicros(i64),
    Uuid([u8; 16]),
}

/// The kind of an Avro value (the schema kind it belongs to).
#[derive(Debug, Clone, Copy, PartialEq, Eq)]
pub enum ValueKind {
    Null,
    Boolean,
    Int,
    Long,
    Float,
    Double,
    Bytes,
    String,
    Fixed,
    Enum,
    Union,
    Array,
    AvroMap,
    Record,
    Date,
    TimeMillis,
    TimeMicros,
    TimestampMillis,
    TimestampMicros,
    Uuid,
}

/// Whether no key occurs twice among the entries of a map.
pub open spec fn keys_distinct(entries: Seq<(String, Value)>) -> bool {
    forall|i: int, j: int|
        0 <= i < j < entries.len() ==> #[trigger] entries[i].0@ != #[trigger] entries[j].0@
}

/// Whether some entry has the given key.
pub open spec fn has_key(entries: Seq<(String, Value)>, key: Seq<char>) -> bool {
    exists|i: int| 0 <= i < entries.len() && #[trigger] entries[i].0@ == key
}

/// The entries of an Avro map, in the order they were first inserted; no key
/// occurs twice.
#[derive(Debug, PartialEq)]
pub struct MapEntries {
    entries: Vec<(String, Value)>,
}

impl View for MapEntries {
    type V = Seq<(String, Value)>;

    closed spec fn view(&self) -> Seq<(String, Value)> {
        self.entries@
    }
}

/// Where the entry with the given key stands, if there is one.
fn position_of(entries: &Vec<(String, Value)>, key: &String) -> (r: Option<usize>)
    ensures
        match r {
            Some(i) => i < entries@.len() && entries@[i as int].0@ == key@,
            None => !has_key(entries@, key@),
        },
{
    let mut i: usize = 0;
    while i < entries.len()
        invariant
            i <= entries@.len(),
            forall|j: int| 0 <= j < i ==> entries@[j].0@ != key@,
        decreases entries@.len() - i,
    {
        if entries[i].0 == *key {
            return Some(i);
        }
        i = i + 1;
    }
    None
}

impl MapEntries {
    #[verifier::type_invariant]
    pub(crate) open spec fn distinct(self) -> bool {
        keys_distinct(self@)
    }

    /// A map with no entry.
    pub fn new() -> (m: Self)
        ensures
            m@ == Seq::<(String, Value)>::empty(),
    {
        MapEntries { entries: Vec::new() }
    }

    /// Sets the value of a key: an entry already holding the key keeps its
    /// place and gets the new value, and the value it held is given back;
    /// otherwise the entry is added last.
    pub fn insert(&mut self, key: String, value: Value) -> (replaced: Option<Value>)
        ensures
            !has_key(old(self)@, key@) ==> replaced is None && final(self)@ == old(self)@.push(
                (key, value),
            ),
            has_key(old(self)@, key@) ==> exists|i: int|
                0 <= i < old(self)@.len() && old(self)@[i].0@ == key@ && replaced == Some(
                    old(self)@[i].1,
                ) && final(self)@ == old(self)@.update(i, (old(self)@[i].0, value)),
    {
        proof {
            use_type_invariant(&*self);
        }
        let mut entries: Vec<(String, Value)> = Vec::new();
        std::mem::swap(&mut entries, &mut self.entries);
        let ghost before = entries@;
        match position_of(&entries, &key) {
            Some(i) => {
                let (k, old_value) = entries.remove(i);
                entries.insert(i, (k, value));
                proof {
                    assert(entries@ =~= before.update(i as int, (before[i as int].0, value)));
                    assert forall|a: int, b: int|
                        0 <= a < b < entries@.len() implies #[trigger] entries@[a].0@
                        != #[trigger] entries@[b].0@ by {
                        assert(entries@[a].0 == before[a].0);
                        assert(entries@[b].0 == before[b].0);
                    }
                }
                self.entries = entries;
                Some(old_value)
            },
            None => {
                entries.push((key, value));
                proof {
                    assert forall|a: int, b: int|
                        0 <= a < b < entries@.len() implies #[trigger] entries@[a].0@
                        != #[trigger] entries@[b].0@ by {
                        if b == before.len() {
                            assert(before[a].0@ != key@);
                        } else {
                            assert(entries@[a] == before[a]);
                            assert(entries@[b] == before[b]);
                        }
                    }
                }
                self.entries = entries;
                None
            },
        }
    }

    /// The entries, no key occurring twice.
    pub fn as_slice(&self) -> (s: &[(String, Value)])
        ensures
            s@ == self@,
            keys_distinct(self@),
    {
        proof {
            use_type_invariant(self);
        }
        self.entries.as_slice()
    }
}

/// The kind of a value: the variant it is built with.
pub open spec fn kind_of(v: Value) -> ValueKind {
    match v {
        Value::Null => ValueKind::Null,
        Value::Boolean(_) => ValueKind::Boolean,
        Value::Int(_) => ValueKind::Int,
        Value::Long(_) => ValueKind::Long,
        Value::Float(_) => ValueKind::Float,
        Value::Double(_) => ValueKind::Double,
        Value::Bytes(_) => ValueKind::Bytes,
        Value::String(_) => ValueKind::String,
        Value::Fixed(_, _) => ValueKind::Fixed,
        Value::Enum(_, _) => ValueKind::Enum,
        Value::Union(_, _) => ValueKind::Union,
        Value::Array(_) => ValueKind::Array,
        Value::AvroMap(_) => ValueKind::AvroMap,
        Value::Record(_) => ValueKind::Record,
        Value::Date(_) => ValueKind::Date,
        Value::TimeMillis(_) => ValueKind::TimeMillis,
        Value::TimeMicros(_) => ValueKind::TimeMicros,
        Value::TimestampMillis(_) => ValueKind::TimestampMillis,
        Value::TimestampMicros(_) => ValueKind::TimestampMicros,
        Value::Uuid(_) => ValueKind::Uuid,
    }
}

impl Value {
    /// The kind of this value.
    pub fn kind(&self) -> (k: ValueKind)
        ensures
            k == kind_of(*self),
    {
        match self {
            Value::Null => ValueKind::Null,
            Value::Boolean(_) => ValueKind::Boolean,
            Value::Int(_) => ValueKind::Int,
            Value::Long(_) => ValueKind::Long,
            Value::Float(_) => ValueKind::Float,
            Value::Double(_) => ValueKind::Double,
            Value::Bytes(_) => ValueKind::Bytes,
            Value::String(_) => ValueKind::String,
            Value::Fixed(_, _) => ValueKind::Fixed,
            Value::Enum(_, _) => ValueKind::Enum,
            Value::Union(_, _) => ValueKind::Union,
            Value::Array(_) => ValueKind::Array,
            Value::AvroMap(_) => ValueKind::AvroMap,
            Value::Record(_) => ValueKind::Record,
            Value::Date(_) => ValueKind::Date,
            Value::TimeMillis(_) => ValueKind::TimeMillis,
            Value::TimeMicros(_) => ValueKind::TimeMicros,
            Value::TimestampMillis(_) => ValueKind::TimestampMillis,
            Value::TimestampMicros(_) => ValueKind::TimestampMicros,
            Value::Uuid(_) => ValueKind::Uuid,
        }
    }
}

} // verus!
