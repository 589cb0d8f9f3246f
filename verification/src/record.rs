//! The canonical record of one sensor reading, and its decoding from the
//! members of a payload.

use vstd::prelude::*;
use vstd::string::*;

use crate::schema::Schema;

verus! {

/// One sensor reading. A quantity is held as the IEEE-754 binary64 bit
/// pattern of its value, which the library carries and never interprets.
#[derive(Clone, Debug)]
pub struct EnvironmentalRecord {
    /// Seconds since the epoch, UTC.
    pub timestamp: u64,
    /// The name of the sensor that took the reading.
    pub sensor_name: String,
    /// One value per quantity of the schema, in the schema's order.
    pub quantities: Vec<u64>,
}

/// The mathematical value of a record.
pub struct RecordView {
    pub timestamp: u64,
    pub sensor_name: Seq<char>,
    pub quantities: Seq<u64>,
}

impl RecordView {
    /// A record in memory has no more quantities than a machine word counts.
    pub open spec fn representable(self) -> bool {
        self.quantities.len() <= usize::MAX
    }
}

impl View for EnvironmentalRecord {
    type V = RecordView;

    open spec fn view(&self) -> RecordView {
        RecordView {
            timestamp: self.timestamp,
            sensor_name: self.sensor_name@,
            quantities: self.quantities@,
        }
    }
}

impl EnvironmentalRecord {
    /// A record matches a schema when it has one value for each quantity.
    pub open spec fn matches_schema(&self, schema: &Schema) -> bool {
        self.quantities@.len() == schema.quantities@.len()
    }
}

/// A member of a payload that a record is read from.
#[derive(Clone, Copy, Debug, PartialEq, Eq, Structural)]
pub enum Field {
    Timestamp,
    SensorName,
    /// The quantity at this position of the schema.
    Quantity(usize),
}

/// Why a payload was not decoded.
#[derive(Clone, Copy, Debug, PartialEq, Eq, Structural)]
pub enum DecodeError {
    /// The bytes are no valid UTF-8.
    InvalidUtf8,
    /// The text is no JSON document.
    InvalidJson,
    /// The document has no such member.
    Missing(Field),
    /// The member is not of the type that the schema asks for.
    Mistyped(Field),
}

/// What was found in a document under one member name.
#[derive(Clone, Debug)]
pub enum Lookup<T> {
    Missing,
    Mistyped,
    Found(T),
}

/// The members that a schema names, as found in one document.
#[derive(Clone, Debug)]
pub struct RawFields {
    pub timestamp: Lookup<u64>,
    pub sensor_name: Lookup<String>,
    pub quantities: Vec<Lookup<u64>>,
}

/// The mathematical value of `RawFields`.
pub struct RawFieldsView {
    pub timestamp: Lookup<u64>,
    pub sensor_name: Lookup<Seq<char>>,
    pub quantities: Seq<Lookup<u64>>,
}

impl View for RawFields {
    type V = RawFieldsView;

    open spec fn view(&self) -> RawFieldsView {
        RawFieldsView {
            timestamp: self.timestamp,
            sensor_name: match self.sensor_name {
                Lookup::Missing => Lookup::Missing,
                Lookup::Mistyped => Lookup::Mistyped,
                Lookup::Found(s) => Lookup::Found(s@),
            },
            quantities: self.quantities@,
        }
    }
}

/// The error that one member gives, if it was not found as asked.
pub open spec fn lookup_error<T>(found: Lookup<T>, field: Field) -> Option<DecodeError> {
    match found {
        Lookup::Missing => Some(DecodeError::Missing(field)),
        Lookup::Mistyped => Some(DecodeError::Mistyped(field)),
        Lookup::Found(_) => None,
    }
}

/// The position of the first quantity among the first `n` that was not
/// found as asked, or `n` if there is none.
pub open spec fn first_unfound(quantities: Seq<Lookup<u64>>, n: int) -> int
    decreases n,
{
    if n <= 0 {
        0
    } else {
        let before = first_unfound(quantities, n - 1);
        if before < n - 1 {
            before
        } else if quantities[n - 1] is Found {
            n
        } else {
            n - 1
        }
    }
}

/// The record that the members of a document give: the timestamp, the sensor
/// name and every quantity must have been found; if not, the first one that
/// was not, in that order, decides the error.
pub open spec fn fields_record(fields: RawFieldsView) -> Result<RecordView, DecodeError> {
    let bad = first_unfound(fields.quantities, fields.quantities.len() as int);
    if let Some(e) = lookup_error(fields.timestamp, Field::Timestamp) {
        Err(e)
    } else if let Some(e) = lookup_error(fields.sensor_name, Field::SensorName) {
        Err(e)
    } else if bad < fields.quantities.len() {
        Err(lookup_error(fields.quantities[bad], Field::Quantity(bad as usize))->0)
    } else {
        Ok(
            RecordView {
                timestamp: fields.timestamp->Found_0,
                sensor_name: fields.sensor_name->Found_0,
                quantities: Seq::new(fields.quantities.len(), |i: int| fields.quantities[i]->Found_0),
            },
        )
    }
}

/// The members that a record is written as: each one found.
pub open spec fn record_fields(record: RecordView) -> RawFieldsView {
    RawFieldsView {
        timestamp: Lookup::Found(record.timestamp),
        sensor_name: Lookup::Found(record.sensor_name),
        quantities: Seq::new(record.quantities.len(), |i: int| Lookup::Found(record.quantities[i])),
    }
}

/// `first_unfound` is the least position that was not found.
pub proof fn lemma_first_unfound(quantities: Seq<Lookup<u64>>, n: int)
    requires
        0 <= n <= quantities.len(),
    ensures
        0 <= first_unfound(quantities, n) <= n,
        forall|i: int| 0 <= i < first_unfound(quantities, n) ==> #[trigger] quantities[i] is Found,
        first_unfound(quantities, n) < n ==> !(quantities[first_unfound(quantities, n)] is Found),
    decreases n,
{
    if n > 0 {
        lemma_first_unfound(quantities, n - 1);
    }
}

/// Builds the record from the members found in a document.
pub fn record_from_fields(fields: RawFields) -> (r: Result<EnvironmentalRecord, DecodeError>)
    ensures
        match r {
            Ok(record) => fields_record(fields@) == Ok::<RecordView, DecodeError>(record@),
            Err(e) => fields_record(fields@) == Err::<RecordView, DecodeError>(e),
        },
{
    let ghost view = fields@;
    let RawFields { timestamp, sensor_name, quantities } = fields;
    let timestamp = match timestamp {
        Lookup::Found(t) => t,
        Lookup::Missing => { return Err(DecodeError::Missing(Field::Timestamp)); },
        Lookup::Mistyped => { return Err(DecodeError::Mistyped(Field::Timestamp)); },
    };
    let sensor_name = match sensor_name {
        Lookup::Found(s) => s,
        Lookup::Missing => { return Err(DecodeError::Missing(Field::SensorName)); },
        Lookup::Mistyped => { return Err(DecodeError::Mistyped(Field::SensorName)); },
    };
    let mut values: Vec<u64> = Vec::new();
    let mut i: usize = 0;
    while i < quantities.len()
        invariant
            i <= quantities@.len(),
            view == fields@,
            quantities@ == view.quantities,
            view.timestamp == Lookup::Found(timestamp),
            view.sensor_name == Lookup::Found(sensor_name@),
            values@.len() == i,
            first_unfound(quantities@, i as int) == i,
            forall|j: int| 0 <= j < i ==> values@[j] == (#[trigger] quantities@[j])->Found_0,
        decreases quantities@.len() - i,
    {
        match quantities[i] {
            Lookup::Found(v) => {
                values.push(v);
            },
            Lookup::Missing => {
                proof {
                    lemma_unfound_stays(quantities@, i as int, quantities@.len() as int);
                }
                return Err(DecodeError::Missing(Field::Quantity(i)));
            },
            Lookup::Mistyped => {
                proof {
                    lemma_unfound_stays(quantities@, i as int, quantities@.len() as int);
                }
                return Err(DecodeError::Mistyped(Field::Quantity(i)));
            },
        }
        i += 1;
    }
    let record = EnvironmentalRecord { timestamp, sensor_name, quantities: values };
    proof {
        assert(record@.quantities =~= Seq::new(
            view.quantities.len(),
            |i: int| view.quantities[i]->Found_0,
        ));
    }
    Ok(record)
}

/// Once a position was not found, it stays the first such position however
/// many more are looked at.
proof fn lemma_unfound_stays(quantities: Seq<Lookup<u64>>, at: int, n: int)
    requires
        0 <= at < n <= quantities.len(),
        first_unfound(quantities, at) == at,
        !(quantities[at] is Found),
    ensures
        first_unfound(quantities, n) == at,
    decreases n - at,
{
    if n > at + 1 {
        lemma_unfound_stays(quantities, at, n - 1);
    }
}

/// Writes a record as the members of a document.
pub fn fields_from_record(record: &EnvironmentalRecord) -> (fields: RawFields)
    ensures
        fields@ == record_fields(record@),
{
    let mut quantities: Vec<Lookup<u64>> = Vec::new();
    let mut i: usize = 0;
    while i < record.quantities.len()
        invariant
            i <= record.quantities@.len(),
            quantities@.len() == i,
            forall|j: int| 0 <= j < i ==> #[trigger] quantities@[j] == Lookup::Found(record.quantities@[j]),
        decreases record.quantities@.len() - i,
    {
        quantities.push(Lookup::Found(record.quantities[i]));
        i += 1;
    }
    let fields = RawFields {
        timestamp: Lookup::Found(record.timestamp),
        sensor_name: Lookup::Found(record.sensor_name.clone()),
        quantities,
    };
    proof {
        assert(fields@.quantities =~= record_fields(record@).quantities);
    }
    fields
}

/// Reading back the members that a record was written as gives the record:
/// the timestamp, the sensor name and the bit pattern of every quantity.
pub proof fn lemma_fields_round_trip(record: RecordView)
    ensures
        fields_record(record_fields(record)) == Ok::<RecordView, DecodeError>(record),
{
    let fields = record_fields(record);
    lemma_first_unfound(fields.quantities, fields.quantities.len() as int);
    let back = fields_record(fields);
    assert(back is Ok);
    assert(back->Ok_0.quantities =~= record.quantities);
}

} // verus!
