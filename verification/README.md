# apache_avro (value deserialization)

Reading Avro values the way serde visitors ask for them, with every decision
specified and proved in Verus.

- `src/value.rs` — the Avro value model (floats by their bits, a UUID by its
  bytes, a map by its entries, kept free of repeated keys by `MapEntries`)
  and value kinds.
- `src/de.rs` — `Deserializer`: for each way a visitor can ask for a value,
  what it is handed or which error it gets, each stated by a spec function.
- `src/access.rs` — the accesses that hand out the items of an array, the
  bytes of a fixed, the keys and values of a map or of a record, and the
  variant of an enum, as state machines with exact contracts.
- `src/text.rs` — UTF-8 decoding through `std::str::from_utf8`, and the
  hyphenated text of a UUID.
- `src/error.rs` — the errors and their model.
- `src/laws.rs` — properties that span the functions: unions read through,
  text and bytes agree, accesses hand out entries in order and pair keys with
  their values.
- `app/` — the serde trait implementations that carry out those decisions,
  `from_value`, and the user-facing `Value` with floats, UUIDs and hash maps.
