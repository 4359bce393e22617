//! A tracer that forwards the host's records to a Telegraf endpoint.
//!
//! This module decides what is sent: the measurement point that a record
//! makes, or that the record is dropped.  Opening the connection and
//! writing to it are left to the caller.

use vstd::prelude::*;
use vstd::string::*;
use crate::tracer::{SpecTraceEntry, SpecTraceValue, Trace, TraceEntry, TraceValue};

verus! {

/// The variable of the environment that names the endpoint.
pub const ENDPOINT_VARIABLE: &'static str = "VLC_TELEGRAF_ENDPOINT";

/// The endpoint where the environment names none.
pub const DEFAULT_ENDPOINT: &'static str = "tcp://localhost:8094";

/// The name of the measurement of every point.
pub const MEASUREMENT: &'static str = "measurement";

/// A dimension of a point: texts by which the points are indexed.
#[derive(Clone, Debug, PartialEq, Eq)]
pub struct Tag {
    pub name: String,
    pub value: String,
}

/// A measured value.  A floating-point value is held as the bits of a
/// double.
#[derive(Clone, Debug, PartialEq, Eq)]
pub enum FieldData {
    Boolean(bool),
    UNumber(u64),
    Number(i64),
    Float(u64),
    Str(String),
}

/// A measured value under its name.
#[derive(Clone, Debug, PartialEq, Eq)]
pub struct Field {
    pub name: String,
    pub value: FieldData,
}

/// One measurement point.
#[derive(Clone, Debug, PartialEq, Eq)]
pub struct Point {
    pub measurement: String,
    pub tags: Vec<Tag>,
    pub fields: Vec<Field>,
    pub timestamp: Option<u64>,
}

pub struct SpecTag {
    pub name: Seq<char>,
    pub value: Seq<char>,
}

pub enum SpecFieldData {
    Boolean(bool),
    UNumber(u64),
    Number(i64),
    Float(u64),
    Str(Seq<char>),
}

pub struct SpecField {
    pub name: Seq<char>,
    pub value: SpecFieldData,
}

pub struct SpecPoint {
    pub measurement: Seq<char>,
    pub tags: Seq<SpecTag>,
    pub fields: Seq<SpecField>,
    pub timestamp: Option<u64>,
}

impl View for Tag {
    type V = SpecTag;

    open spec fn view(&self) -> SpecTag {
        SpecTag { name: self.name@, value: self.value@ }
    }
}

impl View for FieldData {
    type V = SpecFieldData;

    open spec fn view(&self) -> SpecFieldData {
        match *self {
            FieldData::Boolean(b) => SpecFieldData::Boolean(b),
            FieldData::UNumber(n) => SpecFieldData::UNumber(n),
            FieldData::Number(n) => SpecFieldData::Number(n),
            FieldData::Float(b) => SpecFieldData::Float(b),
            FieldData::Str(s) => SpecFieldData::Str(s@),
        }
    }
}

impl View for Field {
    type V = SpecField;

    open spec fn view(&self) -> SpecField {
        SpecField { name: self.name@, value: self.value@ }
    }
}

/// What a list of tags stands for.
pub open spec fn tags_view(tags: Seq<Tag>) -> Seq<SpecTag> {
    tags.map_values(|t: Tag| t@)
}

/// What a list of fields stands for.
pub open spec fn fields_view(fields: Seq<Field>) -> Seq<SpecField> {
    fields.map_values(|f: Field| f@)
}

impl View for Point {
    type V = SpecPoint;

    open spec fn view(&self) -> SpecPoint {
        SpecPoint {
            measurement: self.measurement@,
            tags: tags_view(self.tags@),
            fields: fields_view(self.fields@),
            timestamp: self.timestamp,
        }
    }
}

/// The measured value that a value of a record is.
pub open spec fn spec_field_data(value: SpecTraceValue) -> SpecFieldData {
    match value {
        SpecTraceValue::String(s) => SpecFieldData::Str(s),
        SpecTraceValue::Integer(n) => SpecFieldData::Number(n),
        SpecTraceValue::Unsigned(n) => SpecFieldData::UNumber(n),
        SpecTraceValue::Double(b) => SpecFieldData::Float(b),
    }
}

/// Whether an entry is a tag: its value is a text.
pub open spec fn spec_is_tag(entry: SpecTraceEntry) -> bool {
    entry.value is String
}

/// The tag that an entry with a text makes.
pub open spec fn spec_tag(entry: SpecTraceEntry) -> SpecTag {
    SpecTag { name: entry.key, value: entry.value->String_0 }
}

/// The field that an entry makes.
pub open spec fn spec_field(entry: SpecTraceEntry) -> SpecField {
    SpecField { name: entry.key, value: spec_field_data(entry.value) }
}

pub open spec fn tag_filter() -> spec_fn(SpecTraceEntry) -> bool {
    |entry: SpecTraceEntry| spec_is_tag(entry)
}

pub open spec fn field_filter() -> spec_fn(SpecTraceEntry) -> bool {
    |entry: SpecTraceEntry| !spec_is_tag(entry)
}

/// The tags of a record: its entries with a text, in their order.
pub open spec fn spec_tags(entries: Seq<SpecTraceEntry>) -> Seq<SpecTag> {
    entries.filter(tag_filter()).map_values(|entry: SpecTraceEntry| spec_tag(entry))
}

/// The fields of a record: its other entries, in their order.
pub open spec fn spec_fields(entries: Seq<SpecTraceEntry>) -> Seq<SpecField> {
    entries.filter(field_filter()).map_values(|entry: SpecTraceEntry| spec_field(entry))
}

/// The point that a record makes: its tags and its fields under the fixed
/// measurement, without a time.  A record without a field makes no point.
pub open spec fn spec_point(entries: Seq<SpecTraceEntry>) -> Option<SpecPoint> {
    if spec_fields(entries).len() == 0 {
        None
    } else {
        Some(
            SpecPoint {
                measurement: MEASUREMENT@,
                tags: spec_tags(entries),
                fields: spec_fields(entries),
                timestamp: None,
            },
        )
    }
}

/// One more entry adds a tag or a field to those of the entries before it.
pub proof fn lemma_partition_step(entries: Seq<SpecTraceEntry>, i: int)
    requires
        0 <= i < entries.len(),
    ensures
        spec_tags(entries.take(i + 1)) == (if spec_is_tag(entries[i]) {
            spec_tags(entries.take(i)).push(spec_tag(entries[i]))
        } else {
            spec_tags(entries.take(i))
        }),
        spec_fields(entries.take(i + 1)) == (if spec_is_tag(entries[i]) {
            spec_fields(entries.take(i))
        } else {
            spec_fields(entries.take(i)).push(spec_field(entries[i]))
        }),
{
    reveal(Seq::filter);
    let more = entries.take(i + 1);
    assert(more.drop_last() =~= entries.take(i));
    assert(more.last() == entries[i]);
    if spec_is_tag(entries[i]) {
        assert(spec_tags(more) =~= spec_tags(entries.take(i)).push(spec_tag(entries[i])));
    } else {
        assert(spec_fields(more) =~= spec_fields(entries.take(i)).push(spec_field(entries[i])));
    }
}

/// Every entry of a record becomes a tag or a field, and none becomes both.
pub proof fn lemma_partition_len(entries: Seq<SpecTraceEntry>)
    ensures
        spec_tags(entries).len() + spec_fields(entries).len() == entries.len(),
    decreases entries.len(),
{
    reveal(Seq::filter);
    if entries.len() > 0 {
        lemma_partition_len(entries.drop_last());
        assert(entries.take(entries.len() - 1) =~= entries.drop_last());
        assert(entries.take(entries.len() as int) =~= entries);
        lemma_partition_step(entries, entries.len() - 1);
    }
}

/// A record whose entries are all texts makes no point: it is dropped.
pub proof fn lemma_only_tags_dropped(entries: Seq<SpecTraceEntry>)
    requires
        forall|i: int| 0 <= i < entries.len() ==> spec_is_tag(#[trigger] entries[i]),
    ensures
        spec_point(entries) is None,
        spec_fields(entries).len() == 0,
    decreases entries.len(),
{
    reveal(Seq::filter);
    if entries.len() > 0 {
        lemma_only_tags_dropped(entries.drop_last());
    }
}

/// A record with an entry that is no text makes one point, with the texts
/// as its tags, the other entries as its fields, and no time.
pub proof fn lemma_field_makes_point(entries: Seq<SpecTraceEntry>, i: int)
    requires
        0 <= i < entries.len(),
        !spec_is_tag(entries[i]),
    ensures
        spec_point(entries) matches Some(point) && point.tags == spec_tags(entries) && point.fields
            == spec_fields(entries) && point.timestamp is None && point.measurement
            == MEASUREMENT@,
        spec_fields(entries).len() > 0,
{
    entries.lemma_filter_contains(field_filter(), i);
}

/// The measured value that a value of a record is.
pub fn field_data(value: &TraceValue) -> (data: FieldData)
    ensures
        data@ == spec_field_data(value@),
{
    match value {
        TraceValue::String(value) => FieldData::Str(String::from_str(value)),
        TraceValue::Integer(value) => FieldData::Number(*value),
        TraceValue::Unsigned(value) => FieldData::UNumber(*value),
        TraceValue::Double(value) => FieldData::Float(*value),
    }
}

/// The view of an optional point.
pub open spec fn point_view(point: Option<Point>) -> Option<SpecPoint> {
    match point {
        Some(p) => Some(p@),
        None => None,
    }
}

/// The point to write for a record, or `None` where the record is to be
/// dropped.
///
/// The entries whose value is a text become tags, all others fields.  A
/// record that gives no field is dropped: a point without a field cannot
/// be written.  The point carries no time.
pub fn trace_point(trace: &Trace) -> (point: Option<Point>)
    ensures
        point_view(point) == spec_point(trace.spec_entries()),
{
    let ghost all = trace.spec_entries();
    let mut tags: Vec<Tag> = Vec::new();
    let mut records: Vec<Field> = Vec::new();
    let mut iterator = trace.entries();
    let mut done = false;
    proof {
        reveal(Seq::filter);
        assert(all.take(0) =~= Seq::<SpecTraceEntry>::empty());
        assert(tags_view(tags@) =~= spec_tags(all.take(0)));
        assert(fields_view(records@) =~= spec_fields(all.take(0)));
    }
    while !done
        invariant
            iterator.trace() == trace.raw(),
            all == trace.spec_entries(),
            0 <= iterator.position() <= all.len(),
            done ==> iterator.position() == all.len(),
            tags_view(tags@) == spec_tags(all.take(iterator.position())),
            fields_view(records@) == spec_fields(all.take(iterator.position())),
        decreases
                all.len() - iterator.position() + (if done {
                    0int
                } else {
                    1int
                }),
    {
        let ghost at = iterator.position();
        match iterator.next() {
            None => {
                done = true;
            },
            Some(entry) => {
                let ghost before_tags = tags_view(tags@);
                let ghost before_fields = fields_view(records@);
                let name = String::from_str(entry.key);
                proof {
                    lemma_partition_step(all, at);
                }
                match entry.value {
                    TraceValue::String(value) => {
                        let value = String::from_str(value);
                        let tag = Tag { name, value };
                        tags.push(tag);
                        assert(tags_view(tags@) =~= before_tags.push(spec_tag(all[at])));
                    },
                    _ => {
                        let value = field_data(&entry.value);
                        let field = Field { name, value };
                        records.push(field);
                        assert(fields_view(records@) =~= before_fields.push(spec_field(all[at])));
                    },
                }
            },
        }
    }
    assert(all.take(all.len() as int) =~= all);
    if records.len() == 0 {
        return None;
    }
    Some(Point { measurement: String::from_str(MEASUREMENT), tags, fields: records, timestamp: None })
}

/// Why a write to the endpoint failed.
#[derive(Clone, Debug, PartialEq, Eq)]
pub enum TelegrafError {
    IoError(String),
    ConnectionError(String),
    BadProtocol(String),
}

/// What becomes of a write that failed.
#[derive(Clone, Debug, PartialEq, Eq)]
pub enum Report {
    /// The failure is reported on the diagnostic stream with this text, and
    /// tracing goes on.
    Diagnostic(String),
    /// The endpoint asks for something that the tracer cannot do.  This is
    /// not passed over in silence: the caller stops.
    Unsupported,
}

/// What becomes of a write that failed: a failure of the connection or of
/// input and output is reported and otherwise ignored, so that tracing
/// never stops the program that is traced.
pub fn report(error: &TelegrafError) -> (r: Report)
    ensures
        match *error {
            TelegrafError::IoError(e) => r matches Report::Diagnostic(text) && text@
                == "TelegrafTracer: IO Error: "@ + e@,
            TelegrafError::ConnectionError(s) => r matches Report::Diagnostic(text) && text@
                == "telegraf tracer: connection error: "@ + s@,
            TelegrafError::BadProtocol(_) => r is Unsupported,
        },
{
    match error {
        TelegrafError::IoError(e) => {
            let mut text = String::from_str("TelegrafTracer: IO Error: ");
            text.append(e.as_str());
            Report::Diagnostic(text)
        },
        TelegrafError::ConnectionError(s) => {
            let mut text = String::from_str("telegraf tracer: connection error: ");
            text.append(s.as_str());
            Report::Diagnostic(text)
        },
        TelegrafError::BadProtocol(_) => Report::Unsupported,
    }
}

/// The address of the endpoint: the one that the environment names, or the
/// default.
pub fn endpoint_address(configured: Option<String>) -> (address: String)
    ensures
        address@ == (match configured {
            Some(s) => s@,
            None => DEFAULT_ENDPOINT@,
        }),
{
    match configured {
        Some(address) => address,
        None => String::from_str(DEFAULT_ENDPOINT),
    }
}

} // verus!
