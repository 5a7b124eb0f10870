//! The event store that decoded payloads are placed into.
//!
//! An event is addressable in one of two layouts: it either carries a bare
//! root value (the modern layout, where the whole decoded payload *is* the
//! event), or it carries a table of named top-level fields (the legacy
//! layout, where decoded data is inserted under a configured key). The two
//! operations this layer needs are root-value assignment and field
//! insertion; richer addressing belongs to the event store itself and is not
//! modeled here.

use vstd::prelude::*;

verus! {

/// A decoded scalar value carried inside an event.
///
/// Every decoder in this layer produces byte-string values: a payload is
/// turned into an opaque byte string before it is placed into an event.
#[derive(Debug, Clone, PartialEq, Eq)]
pub enum Value {
    Bytes(Vec<u8>),
}

/// The mathematical value of a `Value`: the byte sequence it carries.
#[verifier::ext_equal]
pub enum ValueView {
    Bytes(Seq<u8>),
}

impl View for Value {
    type V = ValueView;

    open spec fn view(&self) -> ValueView {
        match self {
            Value::Bytes(b) => ValueView::Bytes(b@),
        }
    }
}

/// One named top-level field of an event.
#[derive(Debug, Clone, PartialEq, Eq)]
pub struct Field {
    pub key: String,
    pub value: Value,
}

/// The mathematical value of a `Field`.
#[verifier::ext_equal]
pub struct FieldView {
    pub key: Seq<char>,
    pub value: ValueView,
}

impl View for Field {
    type V = FieldView;

    open spec fn view(&self) -> FieldView {
        FieldView { key: self.key@, value: self.value@ }
    }
}

/// What an event holds: either a bare root value, or a table of named
/// top-level fields.
#[derive(Debug, Clone, PartialEq, Eq)]
pub enum EventContents {
    Root(Value),
    Fields(Vec<Field>),
}

/// The mathematical value of an event's contents. The field table is a
/// sequence of key/value pairs; lookups take the first pair with a matching
/// key, so later duplicates are shadowed.
#[verifier::ext_equal]
pub enum ContentsView {
    Root(ValueView),
    Fields(Seq<FieldView>),
}

impl View for EventContents {
    type V = ContentsView;

    open spec fn view(&self) -> ContentsView {
        match self {
            EventContents::Root(v) => ContentsView::Root(v@),
            EventContents::Fields(fs) => ContentsView::Fields(fs@.map_values(|f: Field| f@)),
        }
    }
}

/// The value of the first field at index `i` or later whose key is `key`,
/// if any.
pub open spec fn lookup_fields_from(fields: Seq<FieldView>, key: Seq<char>, i: int) -> Option<ValueView>
    decreases fields.len() - i,
{
    if i < 0 || i >= fields.len() {
        None
    } else if fields[i].key == key {
        Some(fields[i].value)
    } else {
        lookup_fields_from(fields, key, i + 1)
    }
}

/// The value stored under `key` in an event with the given contents: the
/// first matching field of the table, and nothing for a bare root value,
/// which has no named fields.
pub open spec fn lookup_contents(contents: ContentsView, key: Seq<char>) -> Option<ValueView> {
    match contents {
        ContentsView::Root(_) => None,
        ContentsView::Fields(fields) => lookup_fields_from(fields, key, 0),
    }
}

/// The field table after inserting `value` under `key`, scanning from index
/// `i`: the first field with a matching key is replaced, and if none
/// matches the new field is appended.
pub open spec fn insert_fields_from(
    fields: Seq<FieldView>,
    key: Seq<char>,
    value: ValueView,
    i: int,
) -> Seq<FieldView>
    decreases fields.len() - i,
{
    if i < 0 || i >= fields.len() {
        fields.push(FieldView { key, value })
    } else if fields[i].key == key {
        fields.update(i, FieldView { key, value })
    } else {
        insert_fields_from(fields, key, value, i + 1)
    }
}

/// An event's contents after inserting `value` under `key`. Insertion
/// addresses the field table; a bare root value carries no fields and is
/// left unchanged.
pub open spec fn insert_contents(contents: ContentsView, key: Seq<char>, value: ValueView) -> ContentsView {
    match contents {
        ContentsView::Root(v) => ContentsView::Root(v),
        ContentsView::Fields(fields) => ContentsView::Fields(
            insert_fields_from(fields, key, value, 0),
        ),
    }
}

impl EventContents {
    /// The contents after inserting `value` under `key`: the first field
    /// with that key is replaced, and if none matches the new field is
    /// appended. A bare root value carries no fields and is left unchanged.
    pub fn insert(self, key: String, value: Value) -> (r: EventContents)
        ensures
            r@ == insert_contents(self@, key@, value@),
    {
        let ghost input: ContentsView = self@;
        let ghost k: Seq<char> = key@;
        let ghost v: ValueView = value@;
        match self {
            EventContents::Root(root) => EventContents::Root(root),
            EventContents::Fields(mut fields) => {
                let ghost orig: Seq<FieldView> = fields@.map_values(|f: Field| f@);
                proof {
                    assert(input == ContentsView::Fields(orig));
                }
                let n = fields.len();
                let mut i: usize = 0;
                while i < n
                    invariant
                        n == fields.len(),
                        i <= n,
                        key@ == k,
                        value@ == v,
                        self@ == input,
                        input == ContentsView::Fields(orig),
                        orig == fields@.map_values(|f: Field| f@),
                        insert_fields_from(orig, k, v, 0) == insert_fields_from(
                            orig,
                            k,
                            v,
                            i as int,
                        ),
                    decreases n - i,
                {
                    proof {
                        assert(orig[i as int] == fields@[i as int]@);
                    }
                    if fields[i].key == key {
                        proof {
                            assert(insert_fields_from(orig, k, v, i as int) == orig.update(
                                i as int,
                                (FieldView { key: k, value: v }),
                            ));
                        }
                        fields[i] = Field { key, value };
                        proof {
                            assert(fields@.map_values(|f: Field| f@) =~= orig.update(
                                i as int,
                                (FieldView { key: k, value: v }),
                            ));
                            assert((EventContents::Fields(fields))@ =~= insert_contents(
                                input,
                                k,
                                v,
                            ));
                        }
                        return EventContents::Fields(fields);
                    }
                    proof {
                        assert(insert_fields_from(orig, k, v, i as int)
                            == insert_fields_from(orig, k, v, i as int + 1));
                    }
                    i += 1;
                }
                proof {
                    assert(insert_fields_from(orig, k, v, n as int) == orig.push(
                        (FieldView { key: k, value: v }),
                    ));
                }
                fields.push(Field { key, value });
                proof {
                    assert(fields@.map_values(|f: Field| f@) =~= orig.push(
                        (FieldView { key: k, value: v }),
                    ));
                    assert((EventContents::Fields(fields))@ =~= insert_contents(input, k, v));
                }
                EventContents::Fields(fields)
            }
        }
    }
}

/// A structured, addressable log record: the unit a decoder produces.
#[derive(Debug, Clone, PartialEq, Eq)]
pub struct LogEvent {
    pub contents: EventContents,
}

impl View for LogEvent {
    type V = ContentsView;

    open spec fn view(&self) -> ContentsView {
        self.contents@
    }
}

impl Default for LogEvent {
    /// A fresh event: an empty field table, with no fields fabricated.
    fn default() -> (log: LogEvent)
        ensures
            log@ == ContentsView::Fields(Seq::<FieldView>::empty()),
    {
        let log = LogEvent { contents: EventContents::Fields(Vec::new()) };
        proof {
            assert(log@ =~= ContentsView::Fields(Seq::<FieldView>::empty()));
        }
        log
    }
}

impl LogEvent {
    /// An event whose whole contents is the given root value.
    pub fn from_root_value(value: Value) -> (log: LogEvent)
        ensures
            log@ == ContentsView::Root(value@),
    {
        LogEvent { contents: EventContents::Root(value) }
    }

    /// Inserts `value` under `key` in the field table, replacing the first
    /// field with that key or appending a new one. An event holding a bare
    /// root value has no field table and is left unchanged.
    pub fn insert(&mut self, key: String, value: Value)
        ensures
            final(self)@ == insert_contents(old(self)@, key@, value@),
    {
        let mut contents = EventContents::Fields(Vec::new());
        core::mem::swap(&mut contents, &mut self.contents);
        self.contents = contents.insert(key, value);
    }

    /// The value stored under `key`: the first field of the table with that
    /// key, if any. An event holding a bare root value has no named fields.
    pub fn get(&self, key: &String) -> (r: Option<&Value>)
        ensures
            match r {
                Some(v) => lookup_contents(self@, key@) == Some(v@),
                None => lookup_contents(self@, key@) is None,
            },
    {
        match &self.contents {
            EventContents::Root(_) => None,
            EventContents::Fields(fields) => {
                let ghost m: Seq<FieldView> = fields@.map_values(|f: Field| f@);
                proof {
                    assert(self@ == ContentsView::Fields(m));
                }
                let n = fields.len();
                let mut i: usize = 0;
                while i < n
                    invariant
                        n == fields.len(),
                        i <= n,
                        m == fields@.map_values(|f: Field| f@),
                        self@ == ContentsView::Fields(m),
                        lookup_fields_from(m, key@, 0) == lookup_fields_from(m, key@, i as int),
                    decreases n - i,
                {
                    proof {
                        assert(m[i as int] == fields@[i as int]@);
                    }
                    if fields[i].key == *key {
                        proof {
                            assert(lookup_fields_from(m, key@, i as int) == Some(m[i as int].value));
                        }
                        return Some(&fields[i].value);
                    }
                    proof {
                        assert(lookup_fields_from(m, key@, i as int) == lookup_fields_from(
                            m,
                            key@,
                            i as int + 1,
                        ));
                    }
                    i += 1;
                }
                None
            }
        }
    }

    /// The bare root value, for an event in the modern layout; an event
    /// carrying a field table has none.
    pub fn get_root(&self) -> (r: Option<&Value>)
        ensures
            match r {
                Some(v) => self@ == ContentsView::Root(v@),
                None => self@ is Fields,
            },
    {
        match &self.contents {
            EventContents::Root(v) => Some(v),
            EventContents::Fields(_) => None,
        }
    }
}

/// An event of any of the pipeline's categories. Decoders in this layer
/// produce log events only.
#[derive(Debug, Clone, PartialEq, Eq)]
pub enum Event {
    Log(LogEvent),
}

impl View for Event {
    type V = ContentsView;

    open spec fn view(&self) -> ContentsView {
        match self {
            Event::Log(log) => log@,
        }
    }
}

impl Event {
    /// The log record this event carries.
    pub fn as_log(&self) -> (log: &LogEvent)
        ensures
            log@ == self@,
    {
        match self {
            Event::Log(log) => log,
        }
    }
}

impl From<LogEvent> for Event {
    fn from(log: LogEvent) -> (event: Event) {
        Event::Log(log)
    }
}

impl vstd::std_specs::convert::FromSpecImpl<LogEvent> for Event {
    open spec fn obeys_from_spec() -> bool {
        true
    }

    open spec fn from_spec(log: LogEvent) -> Event {
        Event::Log(log)
    }
}

} // verus!
