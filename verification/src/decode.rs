//! Decoding of a payload into a record: the bytes are framed as text, the
//! text is parsed as a JSON document, and the members that the schema names
//! are read from it.

use vstd::prelude::*;
use vstd::string::*;

use crate::json::{
    as_number, as_text, as_unsigned, json_document, json_member, json_number, json_text,
    json_unsigned, member, parse_document,
};
use crate::record::{
    fields_record, record_from_fields, DecodeError, EnvironmentalRecord, Lookup, RawFields,
    RawFieldsView, RecordView,
};
use crate::schema::{Schema, SchemaView, TimestampFormat};
use crate::timestamp::{parse_rfc3339, rfc3339_seconds};
use crate::wire::{frame, payload_text};

verus! {

/// The member of a document under `key`, read as an unsigned integer.
pub open spec fn document_unsigned(document: serde_json::Value, key: Seq<char>) -> Lookup<u64> {
    match json_member(document, key) {
        None => Lookup::Missing,
        Some(m) => match json_unsigned(m) {
            None => Lookup::Mistyped,
            Some(v) => Lookup::Found(v),
        },
    }
}

/// The member of a document under `key`, read as a number.
pub open spec fn document_number(document: serde_json::Value, key: Seq<char>) -> Lookup<u64> {
    match json_member(document, key) {
        None => Lookup::Missing,
        Some(m) => match json_number(m) {
            None => Lookup::Mistyped,
            Some(v) => Lookup::Found(v),
        },
    }
}

/// The member of a document under `key`, read as a text.
pub open spec fn document_text(document: serde_json::Value, key: Seq<char>) -> Lookup<Seq<char>> {
    match json_member(document, key) {
        None => Lookup::Missing,
        Some(m) => match json_text(m) {
            None => Lookup::Mistyped,
            Some(v) => Lookup::Found(v),
        },
    }
}

/// The seconds since the epoch that a text names as a date and time; a
/// text that names none, or a time before the epoch, is not of the type
/// asked for.
pub open spec fn text_seconds(text: Seq<char>) -> Lookup<u64> {
    match rfc3339_seconds(text) {
        Some(seconds) => if seconds >= 0 {
            Lookup::Found(seconds as u64)
        } else {
            Lookup::Mistyped
        },
        None => Lookup::Mistyped,
    }
}

/// The member `timestamp` of a document: an unsigned integer, or a text
/// that names a date and time, as the format asks.
pub open spec fn document_timestamp(
    timestamps: TimestampFormat,
    document: serde_json::Value,
) -> Lookup<u64> {
    match timestamps {
        TimestampFormat::Epoch => document_unsigned(document, "timestamp"@),
        TimestampFormat::Rfc3339 => match document_text(document, "timestamp"@) {
            Lookup::Missing => Lookup::Missing,
            Lookup::Mistyped => Lookup::Mistyped,
            Lookup::Found(text) => text_seconds(text),
        },
    }
}

/// The members that a record is read from: `timestamp` as the format asks,
/// `sensor_name` as a text, and each quantity of the schema as a number.
/// Members that the schema does not name are not looked at.
pub open spec fn document_fields(schema: SchemaView, document: serde_json::Value) -> RawFieldsView {
    RawFieldsView {
        timestamp: document_timestamp(schema.timestamps, document),
        sensor_name: document_text(document, "sensor_name"@),
        quantities: Seq::new(
            schema.fields.len(),
            |i: int| document_number(document, schema.fields[i]),
        ),
    }
}

/// The record that a payload decodes to under a schema, or the reason why
/// it does not decode.
pub open spec fn decoded(schema: SchemaView, payload: Seq<u8>) -> Result<RecordView, DecodeError> {
    match payload_text(payload) {
        None => Err(DecodeError::InvalidUtf8),
        Some(text) => match json_document(text) {
            None => Err(DecodeError::InvalidJson),
            Some(document) => fields_record(document_fields(schema, document)),
        },
    }
}

fn read_unsigned(document: &serde_json::Value, key: &str) -> (r: Lookup<u64>)
    ensures
        r == document_unsigned(*document, key@),
{
    match member(document, key) {
        None => Lookup::Missing,
        Some(m) => match as_unsigned(m) {
            None => Lookup::Mistyped,
            Some(v) => Lookup::Found(v),
        },
    }
}

fn read_number(document: &serde_json::Value, key: &str) -> (r: Lookup<u64>)
    ensures
        r == document_number(*document, key@),
{
    match member(document, key) {
        None => Lookup::Missing,
        Some(m) => match as_number(m) {
            None => Lookup::Mistyped,
            Some(v) => Lookup::Found(v),
        },
    }
}

fn read_text(document: &serde_json::Value, key: &str) -> (r: Lookup<String>)
    ensures
        match r {
            Lookup::Missing => document_text(*document, key@) is Missing,
            Lookup::Mistyped => document_text(*document, key@) is Mistyped,
            Lookup::Found(s) => document_text(*document, key@) == Lookup::Found(s@),
        },
{
    match member(document, key) {
        None => Lookup::Missing,
        Some(m) => match as_text(m) {
            None => Lookup::Mistyped,
            Some(v) => Lookup::Found(v),
        },
    }
}

fn read_timestamp(timestamps: TimestampFormat, document: &serde_json::Value) -> (r: Lookup<u64>)
    ensures
        r == document_timestamp(timestamps, *document),
{
    match timestamps {
        TimestampFormat::Epoch => read_unsigned(document, "timestamp"),
        TimestampFormat::Rfc3339 => match read_text(document, "timestamp") {
            Lookup::Missing => Lookup::Missing,
            Lookup::Mistyped => Lookup::Mistyped,
            Lookup::Found(text) => seconds_of_text(text.as_str()),
        },
    }
}

/// Reads a text as a date and time and gives its seconds since the epoch.
pub fn seconds_of_text(text: &str) -> (r: Lookup<u64>)
    ensures
        r == text_seconds(text@),
{
    seconds_found(parse_rfc3339(text))
}

/// The seconds since the epoch as a timestamp: found where a date and time
/// was read that does not lie before the epoch.
pub fn seconds_found(seconds: Option<i64>) -> (r: Lookup<u64>)
    ensures
        r == match seconds {
            Some(s) => if s >= 0 {
                Lookup::Found(s as u64)
            } else {
                Lookup::Mistyped
            },
            None => Lookup::<u64>::Mistyped,
        },
{
    match seconds {
        Some(s) => {
            if s >= 0 {
                Lookup::Found(s as u64)
            } else {
                Lookup::Mistyped
            }
        },
        None => Lookup::Mistyped,
    }
}

/// Reads from a parsed document the members that the schema names.
pub fn read_fields(schema: &Schema, document: &serde_json::Value) -> (fields: RawFields)
    ensures
        fields@ == document_fields(schema@, *document),
{
    let timestamp = read_timestamp(schema.timestamps, document);
    let sensor_name = read_text(document, "sensor_name");
    let mut quantities: Vec<Lookup<u64>> = Vec::new();
    let mut i: usize = 0;
    while i < schema.quantities.len()
        invariant
            i <= schema.quantities@.len(),
            quantities@.len() == i,
            forall|j: int|
                0 <= j < i ==> #[trigger] quantities@[j] == document_number(
                    *document,
                    schema.quantities@[j].field@,
                ),
        decreases schema.quantities@.len() - i,
    {
        quantities.push(read_number(document, schema.quantities[i].field.as_str()));
        i += 1;
    }
    let fields = RawFields { timestamp, sensor_name, quantities };
    proof {
        assert(fields@.quantities =~= document_fields(schema@, *document).quantities);
    }
    fields
}

/// Decodes the bytes of one message into a record. A payload decodes exactly
/// when it is valid UTF-8, its text without trailing white space is a JSON
/// document, and the document holds the timestamp, the sensor name and every
/// quantity of the schema with the type asked for; otherwise the error says
/// which of these failed first.
pub fn decode(schema: &Schema, payload: &[u8]) -> (r: Result<EnvironmentalRecord, DecodeError>)
    ensures
        match r {
            Ok(record) => decoded(schema@, payload@) == Ok::<RecordView, DecodeError>(record@),
            Err(e) => decoded(schema@, payload@) == Err::<RecordView, DecodeError>(e),
        },
        r matches Ok(record) ==> record.matches_schema(schema),
{
    match frame(payload) {
        None => Err(DecodeError::InvalidUtf8),
        Some(text) => match parse_document(text) {
            None => Err(DecodeError::InvalidJson),
            Some(document) => record_from_fields(read_fields(schema, &document)),
        },
    }
}

} // verus!
