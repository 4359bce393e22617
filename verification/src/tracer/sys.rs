//! A trace record as the host hands it over.
//!
//! The host keeps the entries of a record in an array without a length: an
//! entry without a key ends the record.  The value of an entry is one of
//! four things, and the entry's kind says which.

use vstd::prelude::*;
use vstd::utf8::*;

verus! {

/// The kind of the value of an entry.
#[allow(non_camel_case_types)]
#[derive(Debug, Copy, Clone, Hash, PartialEq, Eq, Structural)]
#[non_exhaustive]
pub enum vlc_tracer_value_type {
    Integer,
    Double,
    String,
    Unsigned,
}

impl vlc_tracer_value_type {
    /// The number that the host knows this kind by.
    pub open spec fn spec_code(self) -> int {
        match self {
            vlc_tracer_value_type::Integer => 0,
            vlc_tracer_value_type::Double => 1,
            vlc_tracer_value_type::String => 2,
            vlc_tracer_value_type::Unsigned => 3,
        }
    }

    pub fn code(&self) -> (c: u32)
        ensures
            c == self.spec_code(),
    {
        match self {
            vlc_tracer_value_type::Integer => 0,
            vlc_tracer_value_type::Double => 1,
            vlc_tracer_value_type::String => 2,
            vlc_tracer_value_type::Unsigned => 3,
        }
    }
}

/// The value of an entry: the one of the four that the host wrote.  A
/// double is held as its bits, a text as its bytes.
#[allow(non_camel_case_types)]
#[derive(Clone, Debug, PartialEq, Eq)]
pub enum vlc_tracer_value {
    Integer(i64),
    Double(u64),
    String(Vec<u8>),
    Unsigned(u64),
}

impl vlc_tracer_value {
    /// The kind under which this value is read.
    pub open spec fn spec_kind(self) -> vlc_tracer_value_type {
        match self {
            vlc_tracer_value::Integer(_) => vlc_tracer_value_type::Integer,
            vlc_tracer_value::Double(_) => vlc_tracer_value_type::Double,
            vlc_tracer_value::String(_) => vlc_tracer_value_type::String,
            vlc_tracer_value::Unsigned(_) => vlc_tracer_value_type::Unsigned,
        }
    }

    /// The kind under which this value is read.
    pub fn kind(&self) -> (k: vlc_tracer_value_type)
        ensures
            k == self.spec_kind(),
    {
        match self {
            vlc_tracer_value::Integer(_) => vlc_tracer_value_type::Integer,
            vlc_tracer_value::Double(_) => vlc_tracer_value_type::Double,
            vlc_tracer_value::String(_) => vlc_tracer_value_type::String,
            vlc_tracer_value::Unsigned(_) => vlc_tracer_value_type::Unsigned,
        }
    }
}

/// One entry of a record.  An entry without a key ends the record.
#[allow(non_camel_case_types)]
#[derive(Clone, Debug, PartialEq, Eq)]
pub struct vlc_tracer_entry {
    pub key: Option<Vec<u8>>,
    pub value: vlc_tracer_value,
    pub kind: vlc_tracer_value_type,
}

impl vlc_tracer_entry {
    /// What the host guarantees of an entry that does not end the record:
    /// its key is a text, its kind is that of the value that was written,
    /// and a value that is a text is valid UTF-8, as the key is.
    pub open spec fn well_formed(self) -> bool {
        &&& self.key matches Some(key) && valid_utf8(key@)
        &&& self.kind == self.value.spec_kind()
        &&& self.value matches vlc_tracer_value::String(text) ==> valid_utf8(text@)
    }
}

/// A record: its entries, up to and including the one that ends it.
#[allow(non_camel_case_types)]
#[derive(Clone, Debug, PartialEq, Eq)]
pub struct vlc_tracer_trace {
    pub entries: Vec<vlc_tracer_entry>,
}

/// The place of the first entry without a key, at or after `from`; the
/// number of entries where every entry from `from` on has a key.
pub open spec fn spec_sentinel(entries: Seq<vlc_tracer_entry>, from: int) -> int
    decreases entries.len() - from,
{
    if 0 <= from < entries.len() && entries[from].key is Some {
        spec_sentinel(entries, from + 1)
    } else {
        from
    }
}

pub proof fn lemma_sentinel(entries: Seq<vlc_tracer_entry>, from: int)
    requires
        0 <= from <= entries.len(),
    ensures
        from <= spec_sentinel(entries, from) <= entries.len(),
        forall|i: int| from <= i < spec_sentinel(entries, from) ==> entries[i].key is Some,
        spec_sentinel(entries, from) < entries.len() ==> entries[spec_sentinel(
            entries,
            from,
        )].key is None,
        forall|i: int|
            from <= i <= spec_sentinel(entries, from) ==> spec_sentinel(entries, i)
                == spec_sentinel(entries, from),
    decreases entries.len() - from,
{
    if 0 <= from < entries.len() && entries[from].key is Some {
        lemma_sentinel(entries, from + 1);
    }
}

impl vlc_tracer_trace {
    /// The number of entries before the one that ends the record.
    pub open spec fn spec_len(self) -> int {
        spec_sentinel(self.entries@, 0)
    }

    /// What the host guarantees of a record: an entry without a key ends
    /// it, and every entry before that one is well formed.
    pub open spec fn well_formed(self) -> bool {
        &&& self.spec_len() < self.entries@.len()
        &&& forall|i: int| 0 <= i < self.spec_len() ==> (#[trigger] self.entries@[i]).well_formed()
    }
}

} // verus!
