//! The schema of a reading: which measured quantities a payload carries and
//! where each of them is stored.

use vstd::prelude::*;
use vstd::string::*;

verus! {

/// One measured quantity: the payload member that carries it, and the child
/// table and column that store it.
#[derive(Clone, Debug)]
pub struct Quantity {
    /// Name of the payload member.
    pub field: String,
    /// Name of the child table.
    pub table: String,
    /// Name of the value column in the child table.
    pub column: String,
}

/// How a payload writes the time of a reading.
#[derive(Clone, Copy, Debug, PartialEq, Eq)]
pub enum TimestampFormat {
    /// As a number: the seconds since the epoch.
    Epoch,
    /// As a text: a date and time with offset, in the form of RFC 3339.
    Rfc3339,
}

/// What a payload must hold: how it writes the time, and the quantities of
/// a reading, in the order in which they are read from a payload and
/// written to the store.
#[derive(Clone, Debug)]
pub struct Schema {
    pub timestamps: TimestampFormat,
    pub quantities: Vec<Quantity>,
}

/// What decoding reads of a schema.
pub struct SchemaView {
    /// How the time is written.
    pub timestamps: TimestampFormat,
    /// The payload member names of the quantities, in order.
    pub fields: Seq<Seq<char>>,
}

impl View for Schema {
    type V = SchemaView;

    open spec fn view(&self) -> SchemaView {
        SchemaView { timestamps: self.timestamps, fields: self.fields() }
    }
}

impl Schema {
    /// The payload member names of the quantities, in order.
    pub open spec fn fields(&self) -> Seq<Seq<char>> {
        Seq::new(self.quantities@.len(), |i: int| self.quantities@[i].field@)
    }

    /// A schema names at least one quantity.
    pub open spec fn wf(&self) -> bool {
        self.quantities@.len() >= 1
    }

    /// A schema of the given quantities; `None` where there is none.
    pub fn new(timestamps: TimestampFormat, quantities: Vec<Quantity>) -> (r: Option<Schema>)
        ensures
            r.is_some() == (quantities@.len() >= 1),
            r matches Some(s) ==> s.timestamps == timestamps && s.quantities == quantities
                && s.wf(),
    {
        if quantities.len() >= 1 {
            Some(Schema { timestamps, quantities })
        } else {
            None
        }
    }

    /// The number of quantities.
    pub fn len(&self) -> (n: usize)
        ensures
            n == self.quantities@.len(),
    {
        self.quantities.len()
    }
}

/// A quantity stored in the table of its own name, in the column `value`.
fn plain_quantity(name: &str, column: &str) -> (q: Quantity)
    ensures
        q.field@ == name@,
        q.table@ == name@,
        q.column@ == column@,
{
    Quantity {
        field: String::from_str(name),
        table: String::from_str(name),
        column: String::from_str(column),
    }
}

/// The member names of the full environmental schema.
pub open spec fn environmental_fields() -> Seq<Seq<char>> {
    seq![
        "temperature"@,
        "humidity"@,
        "pressure"@,
        "illuminance"@,
        "uva"@,
        "uvb"@,
        "uvIndex"@,
    ]
}

/// The full environmental schema: the time as a number, then temperature,
/// humidity, pressure, illuminance, and the three ultraviolet quantities.
pub fn environmental_schema() -> (s: Schema)
    ensures
        s.wf(),
        s.timestamps == TimestampFormat::Epoch,
        s.fields() == environmental_fields(),
{
    let mut quantities: Vec<Quantity> = Vec::new();
    quantities.push(plain_quantity("temperature", "celsius"));
    quantities.push(plain_quantity("humidity", "humidity"));
    quantities.push(plain_quantity("pressure", "pressure"));
    quantities.push(plain_quantity("illuminance", "illuminance"));
    quantities.push(plain_quantity("uva", "uva"));
    quantities.push(plain_quantity("uvb", "uvb"));
    quantities.push(plain_quantity("uvIndex", "uv_index"));
    let s = Schema { timestamps: TimestampFormat::Epoch, quantities };
    assert(s.fields() =~= environmental_fields());
    s
}

} // verus!
