//! Tracers: the capability of receiving the host's trace records.

use vstd::prelude::*;
use vstd::utf8::*;
use crate::convert::AssumeValid;
use crate::object::Object;
use crate::plugin::ModuleProtocol;
use crate::tracer::sys::{lemma_sentinel, spec_sentinel, vlc_tracer_entry, vlc_tracer_trace, vlc_tracer_value};

pub mod sys;

verus! {

/// A time of the host's clock.
#[derive(Clone, Copy, Debug, PartialEq, Eq, Structural)]
pub struct Tick(pub i64);

/// The capability of a tracer.
///
/// The host calls `trace` from several threads at once, with no lock of
/// its own: an implementation guards what it changes.
pub trait TracerCapability: Sync {
    /// Opens a tracer for `obj`.  `None` means that the module is not to be
    /// activated here; the host then goes on without it.
    fn open(obj: &mut Object) -> Option<Self> where Self: Sized;

    /// Receives one record.
    fn trace(&self, tick: Tick, trace: &Trace);
}

/// A tracer that the host has activated.  The host owns it from its
/// activation until it destroys it.
pub struct TracerInstance<T: TracerCapability> {
    instance: T,
}

impl<T: TracerCapability> TracerInstance<T> {
    /// The tracer that was opened.
    pub closed spec fn spec_instance(&self) -> T {
        self.instance
    }
}

/// What the host gets from an activation: the instance where the tracer
/// opened, nothing where it did not.
pub fn activation<T: TracerCapability>(opened: Option<T>) -> (r: Option<TracerInstance<T>>)
    ensures
        r is Some <==> opened is Some,
        r matches Some(instance) ==> instance.spec_instance() == opened->0,
{
    match opened {
        Some(instance) => Some(TracerInstance { instance }),
        None => None,
    }
}

/// Whether `r` is what the host gets where the tracer's `open` gave
/// `opened`: the instance that was opened, or nothing.
pub open spec fn spec_activation<T: TracerCapability>(
    opened: Option<T>,
    r: Option<TracerInstance<T>>,
) -> bool {
    &&& r is Some <==> opened is Some
    &&& r matches Some(instance) ==> instance.spec_instance() == opened->0
}

/// Activates the tracer `T` for `obj`: `obj` is handed to the tracer's
/// `open`, and the host gets the instance where the tracer opened, nothing
/// where it did not.
pub fn activate_tracer<T: TracerCapability>(obj: &mut Object) -> (r: Option<TracerInstance<T>>)
    ensures
        exists|handed: &mut Object, opened: Option<T>|
            *handed == *old(obj) && *final(handed) == *final(obj) && call_ensures(
                T::open,
                (handed,),
                opened,
            ) && spec_activation(opened, r),
{
    let opened = T::open(obj);
    activation(opened)
}

/// Hands one record to an activated tracer.
pub fn tracer_trace<T: TracerCapability>(opaque: &TracerInstance<T>, tick: i64, trace: &Trace) {
    opaque.instance.trace(Tick(tick), trace)
}

/// Takes an activated tracer back from the host.  The instance is taken by
/// value: it cannot be destroyed twice.
pub fn tracer_destroy<T: TracerCapability>(opaque: TracerInstance<T>) -> (instance: T)
    ensures
        instance == opaque.spec_instance(),
{
    opaque.instance
}

/// The loader of the tracer capability.  A tracer is destroyed through its
/// instance: the loader has no deactivation function of its own.
pub struct TracerModuleLoader;

/// The activation function of the tracer `T`, as a value that the loader
/// hands out.
pub struct TracerCapabilityActivate<T: TracerCapability> {
    module: core::marker::PhantomData<T>,
}

impl<T: TracerCapability> TracerCapabilityActivate<T> {
    /// Activates the tracer `T` for `obj`, as `activate_tracer` does.
    pub fn call(&self, obj: &mut Object) -> (r: Option<TracerInstance<T>>)
        ensures
            exists|handed: &mut Object, opened: Option<T>|
                *handed == *old(obj) && *final(handed) == *final(obj) && call_ensures(
                    T::open,
                    (handed,),
                    opened,
                ) && spec_activation(opened, r),
    {
        activate_tracer::<T>(obj)
    }
}

impl<T: TracerCapability> ModuleProtocol<T> for TracerModuleLoader {
    type Activate = TracerCapabilityActivate<T>;

    type Deactivate = ();

    fn activate_function() -> Self::Activate {
        TracerCapabilityActivate { module: core::marker::PhantomData }
    }
}

/// The value of an entry of a record.  A double is held as its bits.
#[derive(Debug, Clone, Copy, PartialEq)]
pub enum TraceValue<'a> {
    Integer(i64),
    Double(u64),
    String(&'a str),
    Unsigned(u64),
}

pub enum SpecTraceValue {
    Integer(i64),
    Double(u64),
    String(Seq<char>),
    Unsigned(u64),
}

impl<'a> View for TraceValue<'a> {
    type V = SpecTraceValue;

    open spec fn view(&self) -> SpecTraceValue {
        match *self {
            TraceValue::Integer(n) => SpecTraceValue::Integer(n),
            TraceValue::Double(b) => SpecTraceValue::Double(b),
            TraceValue::String(s) => SpecTraceValue::String(s@),
            TraceValue::Unsigned(n) => SpecTraceValue::Unsigned(n),
        }
    }
}

/// A key and a value of a record.
#[derive(Debug, Clone, Copy, PartialEq)]
pub struct TraceEntry<'a> {
    pub key: &'a str,
    pub value: TraceValue<'a>,
}

pub struct SpecTraceEntry {
    pub key: Seq<char>,
    pub value: SpecTraceValue,
}

impl<'a> View for TraceEntry<'a> {
    type V = SpecTraceEntry;

    open spec fn view(&self) -> SpecTraceEntry {
        SpecTraceEntry { key: self.key@, value: self.value@ }
    }
}

/// What an entry of the host holds: its key and its value, the texts read
/// as UTF-8.
pub open spec fn spec_entry(entry: vlc_tracer_entry) -> SpecTraceEntry {
    SpecTraceEntry {
        key: decode_utf8(entry.key->0@),
        value: match entry.value {
            vlc_tracer_value::Integer(n) => SpecTraceValue::Integer(n),
            vlc_tracer_value::Double(b) => SpecTraceValue::Double(b),
            vlc_tracer_value::String(text) => SpecTraceValue::String(decode_utf8(text@)),
            vlc_tracer_value::Unsigned(n) => SpecTraceValue::Unsigned(n),
        },
    }
}

/// The entries of a record, up to the one that ends it.
pub open spec fn spec_entries(raw: vlc_tracer_trace) -> Seq<SpecTraceEntry> {
    Seq::new(raw.spec_len() as nat, |i: int| spec_entry(raw.entries@[i]))
}

impl<'a> TraceEntry<'a> {
    /// Reads an entry of the host.  The host guarantees that the entry is
    /// well formed.
    pub fn from(entry: &'a vlc_tracer_entry) -> (r: TraceEntry<'a>)
        requires
            entry.well_formed(),
        ensures
            r@ == spec_entry(*entry),
    {
        let key: &'a str = match &entry.key {
            Some(key) => key.as_slice().assume_valid(),
            None => "",
        };
        let value = match &entry.value {
            vlc_tracer_value::Integer(n) => TraceValue::Integer(*n),
            vlc_tracer_value::Double(b) => TraceValue::Double(*b),
            vlc_tracer_value::String(text) => TraceValue::String(text.as_slice().assume_valid()),
            vlc_tracer_value::Unsigned(n) => TraceValue::Unsigned(*n),
        };
        TraceEntry { key, value }
    }
}

/// Whether the host's guarantee holds of an entry that has a key.
pub fn entry_well_formed(entry: &vlc_tracer_entry) -> (r: bool)
    ensures
        r == entry.well_formed(),
{
    let key_ok = match &entry.key {
        Some(key) => crate::convert::text_of(key.as_slice()).is_some(),
        None => false,
    };
    let text_ok = match &entry.value {
        vlc_tracer_value::String(text) => crate::convert::text_of(text.as_slice()).is_some(),
        _ => true,
    };
    key_ok && entry.kind == entry.value.kind() && text_ok
}

/// A trace record of the host, borrowed for one call.
#[derive(PartialEq, Copy, Clone)]
pub struct Trace<'a> {
    raw: &'a vlc_tracer_trace,
}

impl<'a> Trace<'a> {
    #[verifier::type_invariant]
    spec fn inv(self) -> bool {
        self.raw.well_formed()
    }

    /// The record as the host holds it.
    pub closed spec fn raw(&self) -> vlc_tracer_trace {
        *self.raw
    }

    /// The entries of the record.
    pub open spec fn spec_entries(&self) -> Seq<SpecTraceEntry> {
        spec_entries(self.raw())
    }

    /// Takes a record of the host, if the host's guarantee holds of it: an
    /// entry without a key ends it, and every entry before that one is well
    /// formed.
    pub fn new(raw: &'a vlc_tracer_trace) -> (r: Option<Trace<'a>>)
        ensures
            r is Some <==> raw.well_formed(),
            r matches Some(trace) ==> trace.raw() == *raw,
    {
        let mut i: usize = 0;
        while i < raw.entries.len()
            invariant
                i <= raw.entries@.len(),
                spec_sentinel(raw.entries@, i as int) == raw.spec_len(),
                forall|j: int| 0 <= j < i ==> (#[trigger] raw.entries@[j]).well_formed(),
            decreases raw.entries@.len() - i,
        {
            if raw.entries[i].key.is_none() {
                return Some(Trace { raw });
            }
            proof {
                lemma_sentinel(raw.entries@, i + 1);
            }
            if !entry_well_formed(&raw.entries[i]) {
                return None;
            }
            i += 1;
        }
        None
    }

    /// Get an iterator over the trace entries.
    pub fn entries(&self) -> (iterator: TraceIterator<'a>)
        ensures
            iterator.trace() == self.raw(),
            iterator.position() == 0,
            iterator.trace().well_formed(),
    {
        proof {
            use_type_invariant(self);
            lemma_sentinel(self.raw.entries@, 0);
        }
        TraceIterator { raw: self.raw, current_field: 0 }
    }
}

/// Iterate over trace record entries: one entry at a time, up to the entry
/// that ends the record.
pub struct TraceIterator<'a> {
    raw: &'a vlc_tracer_trace,
    current_field: usize,
}

impl<'a> TraceIterator<'a> {
    #[verifier::type_invariant]
    spec fn inv(self) -> bool {
        &&& self.raw.well_formed()
        &&& self.current_field <= self.raw.spec_len()
    }

    /// The record that is walked.
    pub closed spec fn trace(&self) -> vlc_tracer_trace {
        *self.raw
    }

    /// The number of entries that were handed out.
    pub closed spec fn position(&self) -> int {
        self.current_field as int
    }

    /// The next entry of the record, or `None` at the entry that ends it.
    pub fn next(&mut self) -> (r: Option<TraceEntry<'a>>)
        ensures
            final(self).trace() == old(self).trace(),
            0 <= old(self).position() <= old(self).trace().spec_len(),
            match r {
                Some(entry) => {
                    &&& old(self).position() < old(self).trace().spec_len()
                    &&& entry@ == spec_entries(old(self).trace())[old(self).position()]
                    &&& final(self).position() == old(self).position() + 1
                },
                None => {
                    &&& old(self).position() == old(self).trace().spec_len()
                    &&& final(self).position() == old(self).position()
                },
            },
    {
        proof {
            use_type_invariant(&*self);
            lemma_sentinel(self.raw.entries@, 0);
        }
        let raw: &'a vlc_tracer_trace = self.raw;
        let at = self.current_field;
        assert(at < raw.entries.len());
        if raw.entries[at].key.is_none() {
            return None;
        }
        let output = TraceEntry::from(&raw.entries[at]);
        self.current_field = at + 1;
        Some(output)
    }
}

} // verus!
