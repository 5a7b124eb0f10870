//! The pass-through decoder: the identity decoding, which treats the whole
//! input buffer as a single opaque byte-string value. It is the no-op
//! action for input where no further decoding has been specified, and by
//! construction it never fails: any byte sequence is a valid opaque string.

use crate::config::{DataType, LogNamespace};
use crate::decoding::{buffer_events, DecodeError, Deserializer, EventBuffer};
use crate::event::{
    lookup_contents, ContentsView, Event, FieldView, LogEvent, Value, ValueView,
};
use crate::schema::{
    contents_match_definition, Definition, DefinitionView, FieldSchemaView, Kind,
};
use vstd::prelude::*;
use vstd::string::StringExecFns;

verus! {

/// The single event the pass-through decoder produces for `bytes` under
/// `log_namespace`: under the modern namespace the payload is the event's
/// root value; under the legacy namespace it is the one field of an
/// otherwise empty event, stored under the message key.
pub open spec fn bytes_decoded_contents(
    message_key: Seq<char>,
    bytes: Seq<u8>,
    log_namespace: LogNamespace,
) -> ContentsView {
    match log_namespace {
        LogNamespace::Vector => ContentsView::Root(ValueView::Bytes(bytes)),
        LogNamespace::Legacy => ContentsView::Fields(
            seq![FieldView { key: message_key, value: ValueView::Bytes(bytes) }],
        ),
    }
}

/// The schema shape the pass-through decoder declares under each namespace:
/// legacy, an empty definition plus one byte-string field at the message
/// key, meaning `message`; modern, the event root itself as a byte string,
/// with the namespace's default metadata, root meaning `message`.
pub open spec fn bytes_schema_definition(
    message_key: Seq<char>,
    log_namespace: LogNamespace,
) -> DefinitionView {
    match log_namespace {
        LogNamespace::Legacy => DefinitionView {
            log_namespace: LogNamespace::Legacy,
            root_kind: None,
            root_meaning: None,
            fields: seq![
                FieldSchemaView { key: message_key, kind: Kind::Bytes, meaning: Some("message"@) },
            ],
        },
        LogNamespace::Vector => DefinitionView {
            log_namespace: LogNamespace::Vector,
            root_kind: Some(Kind::Bytes),
            root_meaning: Some("message"@),
            fields: Seq::<FieldSchemaView>::empty(),
        },
    }
}

/// Config used to build a `BytesDeserializer`.
#[derive(Debug, Clone, Default, PartialEq, Eq)]
pub struct BytesDeserializerConfig;

impl BytesDeserializerConfig {
    /// Creates a new `BytesDeserializerConfig`.
    pub fn new() -> (config: BytesDeserializerConfig) {
        BytesDeserializerConfig
    }

    /// Build the `BytesDeserializer` from this configuration, around the
    /// message key resolved once by the caller from its process-wide
    /// log-schema configuration.
    pub fn build(&self, log_schema_message_key: String) -> (d: BytesDeserializer)
        ensures
            d.log_schema_message_key == log_schema_message_key,
    {
        BytesDeserializer::new(log_schema_message_key)
    }

    /// Return the type of event built by this deserializer.
    pub fn output_type(&self) -> (t: DataType)
        ensures
            t == DataType::Log,
    {
        DataType::Log
    }

    /// The schema produced by the deserializer under the given namespace,
    /// for the given resolved message key.
    pub fn schema_definition(&self, log_schema_message_key: String, log_namespace: LogNamespace) -> (d:
        Definition)
        ensures
            d@ == bytes_schema_definition(log_schema_message_key@, log_namespace),
    {
        match log_namespace {
            LogNamespace::Legacy => {
                let d = Definition::empty_legacy_namespace().with_event_field(
                    log_schema_message_key,
                    Kind::Bytes,
                    Some(String::from_str("message")),
                );
                proof {
                    assert(d@ =~= bytes_schema_definition(log_schema_message_key@, log_namespace));
                }
                d
            }
            LogNamespace::Vector => {
                let d = Definition::new_with_default_metadata(Kind::Bytes, log_namespace)
                    .with_meaning(String::from_str("message"));
                proof {
                    assert(d@ =~= bytes_schema_definition(log_schema_message_key@, log_namespace));
                }
                d
            }
        }
    }
}

/// Deserializer that converts bytes to an `Event`.
///
/// This deserializer can be considered as the no-op action for input where
/// no further decoding has been specified.
#[derive(Debug, Clone, PartialEq, Eq)]
pub struct BytesDeserializer {
    /// Only used with the legacy namespace: the field key the payload is
    /// inserted under. The modern namespace decodes the data at the root of
    /// the event. Resolved once, at construction, so two deserializers
    /// built with different keys coexist independently.
    pub log_schema_message_key: String,
}

/// An owned copy of the payload bytes; the input buffer is left untouched.
fn copy_bytes(bytes: &Vec<u8>) -> (r: Vec<u8>)
    ensures
        r@ == bytes@,
{
    let mut r: Vec<u8> = Vec::new();
    let n = bytes.len();
    let mut i: usize = 0;
    while i < n
        invariant
            n == bytes.len(),
            i <= n,
            r@ == bytes@.subrange(0, i as int),
        decreases n - i,
    {
        r.push(bytes[i]);
        proof {
            assert(r@ =~= bytes@.subrange(0, i as int + 1));
        }
        i += 1;
    }
    proof {
        assert(bytes@.subrange(0, n as int) =~= bytes@);
    }
    r
}

impl Default for BytesDeserializer {
    /// The deserializer around the conventional default message key, for
    /// pipelines whose log-schema configuration names no other.
    fn default() -> (d: BytesDeserializer)
        ensures
            d.log_schema_message_key@ == "message"@,
    {
        BytesDeserializer::new(String::from_str("message"))
    }
}

impl BytesDeserializer {
    /// Creates a new `BytesDeserializer` around the resolved message key.
    pub fn new(log_schema_message_key: String) -> (d: BytesDeserializer)
        ensures
            d.log_schema_message_key == log_schema_message_key,
    {
        BytesDeserializer { log_schema_message_key }
    }

    /// Deserializes the given bytes, which will always produce a single
    /// `LogEvent`: the payload at the event root under the modern
    /// namespace, or as the message-key field of a fresh event under the
    /// legacy namespace.
    pub fn parse_single(&self, bytes: &Vec<u8>, log_namespace: LogNamespace) -> (log: LogEvent)
        ensures
            log@ == bytes_decoded_contents(self.log_schema_message_key@, bytes@, log_namespace),
    {
        match log_namespace {
            LogNamespace::Vector => log_namespace.new_log_from_data(Value::Bytes(copy_bytes(bytes))),
            LogNamespace::Legacy => {
                let mut log = LogEvent::default();
                log.insert(self.log_schema_message_key.clone(), Value::Bytes(copy_bytes(bytes)));
                proof {
                    assert(Seq::<FieldView>::empty().push(
                        (FieldView {
                            key: self.log_schema_message_key@,
                            value: ValueView::Bytes(bytes@),
                        }),
                    ) =~= seq![
                        FieldView {
                            key: self.log_schema_message_key@,
                            value: ValueView::Bytes(bytes@),
                        },
                    ]);
                }
                log
            }
        }
    }
}

impl Deserializer for BytesDeserializer {
    /// The pass-through decoding is total: every payload, the empty one
    /// included, yields exactly one event.
    open spec fn decoded(&self, bytes: Seq<u8>, log_namespace: LogNamespace) -> Option<
        Seq<ContentsView>,
    > {
        Some(seq![bytes_decoded_contents(self.log_schema_message_key@, bytes, log_namespace)])
    }

    fn parse(&self, bytes: &Vec<u8>, log_namespace: LogNamespace) -> (r: Result<
        EventBuffer,
        DecodeError,
    >) {
        let log = self.parse_single(bytes, log_namespace);
        let mut events = EventBuffer::empty();
        events.push(Event::from(log));
        proof {
            assert(buffer_events(events).map_values(|e: Event| e@) =~= seq![
                bytes_decoded_contents(self.log_schema_message_key@, bytes@, log_namespace),
            ]);
        }
        Ok(events)
    }
}

/// Totality of the pass-through decoding: for every payload, the empty one
/// included, and under either namespace, the decoder declares exactly one
/// event — so by the `Deserializer` contract its `parse` never fails and
/// returns a one-event sequence.
pub proof fn lemma_parse_totality(d: BytesDeserializer, bytes: Seq<u8>, log_namespace: LogNamespace)
    ensures
        d.decoded(bytes, log_namespace) matches Some(events) && events.len() == 1,
{
}

/// Legacy placement: the one event decoded from any payload under the
/// legacy namespace holds the payload, byte for byte, under the message
/// key, and no other top-level field beyond the empty-event baseline.
pub proof fn lemma_legacy_placement(message_key: Seq<char>, bytes: Seq<u8>)
    ensures
        bytes_decoded_contents(message_key, bytes, LogNamespace::Legacy) matches ContentsView::Fields(
            fields,
        ) && fields == seq![FieldView { key: message_key, value: ValueView::Bytes(bytes) }],
        lookup_contents(
            bytes_decoded_contents(message_key, bytes, LogNamespace::Legacy),
            message_key,
        ) == Some(ValueView::Bytes(bytes)),
{
}

/// Modern placement: the one event decoded from any payload under the
/// modern namespace carries the payload, byte for byte, as its root value.
pub proof fn lemma_modern_placement(message_key: Seq<char>, bytes: Seq<u8>)
    ensures
        bytes_decoded_contents(message_key, bytes, LogNamespace::Vector) == ContentsView::Root(
            ValueView::Bytes(bytes),
        ),
{
}

/// Schema/decode agreement: under both namespaces, every event the
/// pass-through decoder produces has exactly the shape its declared schema
/// definition promises — same field path, same base type — and the location
/// the definition tags with the meaning `message` holds the decoded
/// payload.
pub proof fn lemma_schema_decode_agreement(
    message_key: Seq<char>,
    bytes: Seq<u8>,
    log_namespace: LogNamespace,
)
    ensures
        contents_match_definition(
            bytes_schema_definition(message_key, log_namespace),
            bytes_decoded_contents(message_key, bytes, log_namespace),
        ),
        log_namespace is Legacy ==> bytes_schema_definition(message_key, log_namespace).fields
            =~= seq![
            FieldSchemaView { key: message_key, kind: Kind::Bytes, meaning: Some("message"@) },
        ] && lookup_contents(
            bytes_decoded_contents(message_key, bytes, log_namespace),
            message_key,
        ) == Some(ValueView::Bytes(bytes)),
        log_namespace is Vector ==> bytes_schema_definition(message_key, log_namespace).root_meaning
            == Some("message"@) && bytes_decoded_contents(message_key, bytes, log_namespace)
            == ContentsView::Root(ValueView::Bytes(bytes)),
{
    let def = bytes_schema_definition(message_key, log_namespace);
    let contents = bytes_decoded_contents(message_key, bytes, log_namespace);
    match log_namespace {
        LogNamespace::Legacy => {
            assert(def.fields.len() == 1);
            assert(lookup_contents(contents, message_key) == Some(ValueView::Bytes(bytes)));
            assert(forall|j: int| 0 <= j < def.fields.len() ==> def.fields[j].key == message_key);
            assert(contents_match_definition(def, contents));
        }
        LogNamespace::Vector => {
            assert(contents_match_definition(def, contents));
        }
    }
}

} // verus!
