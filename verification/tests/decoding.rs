use codecs::bytes::{BytesDeserializer, BytesDeserializerConfig};
use codecs::config::{DataType, LogNamespace};
use codecs::decoding::Deserializer;
use codecs::event::{LogEvent, Value};
use codecs::schema::{Definition, Kind};

#[test]
fn deserialize_bytes_legacy_namespace() {
    let input: Vec<u8> = "foo".as_bytes().to_vec();
    let deserializer = BytesDeserializer::new("message".to_string());

    let events = deserializer.parse(&input, LogNamespace::Legacy).unwrap();
    let mut events = events.into_vec().into_iter();

    {
        let event = events.next().unwrap();
        let log = event.as_log();
        assert_eq!(
            log.get(&"message".to_string()).unwrap(),
            &Value::Bytes("foo".as_bytes().to_vec())
        );
    }

    assert_eq!(events.next(), None);
}

#[test]
fn deserialize_bytes_vector_namespace() {
    let input: Vec<u8> = "foo".as_bytes().to_vec();
    let deserializer = BytesDeserializer::new("message".to_string());

    let events = deserializer.parse(&input, LogNamespace::Vector).unwrap();
    assert_eq!(events.len(), 1);

    assert_eq!(
        events.get(0).unwrap().as_log().get_root().unwrap(),
        &Value::Bytes("foo".as_bytes().to_vec())
    );
}

#[test]
fn generate_config() {
    let config = BytesDeserializerConfig::default();
    let _ = config.build("message".to_string());
}

#[test]
fn deserialize_empty_payload_legacy_namespace() {
    let input: Vec<u8> = Vec::new();
    let deserializer = BytesDeserializer::new("message".to_string());

    let events = deserializer.parse(&input, LogNamespace::Legacy).unwrap();
    assert_eq!(events.len(), 1);

    let events = events.into_vec();
    assert_eq!(
        events[0].as_log().get(&"message".to_string()).unwrap(),
        &Value::Bytes(Vec::new())
    );
}

#[test]
fn deserialize_empty_payload_vector_namespace() {
    let input: Vec<u8> = Vec::new();
    let deserializer = BytesDeserializer::new("message".to_string());

    let events = deserializer.parse(&input, LogNamespace::Vector).unwrap();
    assert_eq!(events.len(), 1);

    assert_eq!(
        events.get(0).unwrap().as_log().get_root().unwrap(),
        &Value::Bytes(Vec::new())
    );
}

#[test]
fn output_type_is_log() {
    assert_eq!(
        BytesDeserializerConfig::new().output_type(),
        DataType::Log
    );
    assert_eq!(
        BytesDeserializerConfig::default().output_type(),
        DataType::Log
    );
}

#[test]
fn schema_definition_legacy_declares_message_field() {
    let config = BytesDeserializerConfig::new();
    let definition = config.schema_definition("message".to_string(), LogNamespace::Legacy);

    assert_eq!(definition.log_namespace, LogNamespace::Legacy);
    assert_eq!(definition.root_kind, None);
    assert_eq!(definition.root_meaning, None);
    assert_eq!(definition.fields.len(), 1);
    assert_eq!(definition.fields[0].key, "message");
    assert_eq!(definition.fields[0].kind, Kind::Bytes);
    assert_eq!(definition.fields[0].meaning, Some("message".to_string()));
}

#[test]
fn schema_definition_vector_declares_bytes_root() {
    let config = BytesDeserializerConfig::new();
    let definition = config.schema_definition("message".to_string(), LogNamespace::Vector);

    assert_eq!(definition.log_namespace, LogNamespace::Vector);
    assert_eq!(definition.root_kind, Some(Kind::Bytes));
    assert_eq!(definition.root_meaning, Some("message".to_string()));
    assert!(definition.fields.is_empty());
}

#[test]
fn parse_leaves_input_intact_and_is_repeatable() {
    let input: Vec<u8> = "payload".as_bytes().to_vec();
    let deserializer = BytesDeserializer::new("message".to_string());

    let first = deserializer.parse(&input, LogNamespace::Legacy).unwrap().into_vec();
    assert_eq!(input, "payload".as_bytes().to_vec());

    let second = deserializer.parse(&input, LogNamespace::Legacy).unwrap().into_vec();
    assert_eq!(first, second);
}

#[test]
fn insert_replaces_first_matching_field() {
    let mut log = LogEvent::default();
    log.insert("message".to_string(), Value::Bytes(b"one".to_vec()));
    log.insert("other".to_string(), Value::Bytes(b"two".to_vec()));
    log.insert("message".to_string(), Value::Bytes(b"three".to_vec()));

    assert_eq!(
        log.get(&"message".to_string()).unwrap(),
        &Value::Bytes(b"three".to_vec())
    );
    assert_eq!(
        log.get(&"other".to_string()).unwrap(),
        &Value::Bytes(b"two".to_vec())
    );
    assert_eq!(log.get(&"missing".to_string()), None);
}

#[test]
fn modern_event_has_no_named_fields() {
    let deserializer = BytesDeserializer::new("message".to_string());
    let log = deserializer.parse_single(&b"x".to_vec(), LogNamespace::Vector);

    assert_eq!(log.get(&"message".to_string()), None);
    assert_eq!(log.get_root().unwrap(), &Value::Bytes(b"x".to_vec()));
}

#[test]
fn legacy_event_has_no_root_value() {
    let deserializer = BytesDeserializer::new("message".to_string());
    let log = deserializer.parse_single(&b"x".to_vec(), LogNamespace::Legacy);

    assert_eq!(log.get_root(), None);
}

#[test]
fn decoders_with_different_keys_are_independent() {
    let first = BytesDeserializerConfig::new().build("message".to_string());
    let second = BytesDeserializerConfig::new().build("text".to_string());

    let log_first = first.parse_single(&b"x".to_vec(), LogNamespace::Legacy);
    let log_second = second.parse_single(&b"x".to_vec(), LogNamespace::Legacy);

    assert_eq!(
        log_first.get(&"message".to_string()).unwrap(),
        &Value::Bytes(b"x".to_vec())
    );
    assert_eq!(log_second.get(&"message".to_string()), None);
    assert_eq!(
        log_second.get(&"text".to_string()).unwrap(),
        &Value::Bytes(b"x".to_vec())
    );
}

#[test]
fn with_event_field_accumulates_fields() {
    let definition = Definition::empty_legacy_namespace()
        .with_event_field("a".to_string(), Kind::Bytes, None)
        .with_event_field("b".to_string(), Kind::Bytes, Some("message".to_string()));

    assert_eq!(definition.fields.len(), 2);
    assert_eq!(definition.fields[0].key, "a");
    assert_eq!(definition.fields[0].meaning, None);
    assert_eq!(definition.fields[1].key, "b");
    assert_eq!(definition.fields[1].meaning, Some("message".to_string()));
}
