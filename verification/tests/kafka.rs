use actix_demo::producer::consumer::{consume_record, payload_text, HeaderExtractor};
use actix_demo::producer::service::{publish, publish_record, publish_reply, HeaderInjector, Message};
use actix_demo::utils::kafka::{consumer_client_config, producer_client_config};
use actix_demo::utils::text::same_text;
use rdkafka::config::RDKafkaLogLevel;
use rdkafka::message::{Header, Headers, OwnedHeaders};

fn entries(headers: &OwnedHeaders) -> Vec<(String, Option<Vec<u8>>)> {
    headers
        .iter()
        .map(|h| (h.key.to_string(), h.value.map(|v| v.to_vec())))
        .collect()
}

#[test]
fn producer_config_settings() {
    let config = producer_client_config("localhost:9092");
    assert_eq!(config.get("bootstrap.servers"), Some("localhost:9092"));
    assert_eq!(config.get("message.timeout.ms"), Some("5000"));
    assert_eq!(config.config_map().len(), 2);
}

#[test]
fn consumer_config_settings() {
    let config = consumer_client_config("broker:9092", "demo-group");
    assert_eq!(config.get("group.id"), Some("demo-group"));
    assert_eq!(config.get("bootstrap.servers"), Some("broker:9092"));
    assert_eq!(config.get("enable.partition.eof"), Some("false"));
    assert_eq!(config.get("session.timeout.ms"), Some("6000"));
    assert_eq!(config.get("enable.auto.commit"), Some("true"));
    assert_eq!(config.config_map().len(), 5);
    assert!(matches!(config.log_level, RDKafkaLogLevel::Debug));
}

#[test]
fn injector_puts_new_header_first() {
    let mut headers = OwnedHeaders::new()
        .insert(Header { key: "a", value: Some("1") })
        .insert(Header { key: "b", value: Some("2") });
    HeaderInjector(&mut headers).set("traceparent", "00-abc-01".to_string());
    assert_eq!(
        entries(&headers),
        vec![
            ("traceparent".to_string(), Some(b"00-abc-01".to_vec())),
            ("a".to_string(), Some(b"1".to_vec())),
            ("b".to_string(), Some(b"2".to_vec())),
        ]
    );
}

#[test]
fn extract_after_inject_gives_value_back() {
    let mut headers = OwnedHeaders::new().insert(Header { key: "traceparent", value: Some("old") });
    HeaderInjector(&mut headers).set("traceparent", "new".to_string());
    let extractor = HeaderExtractor(headers.as_borrowed());
    assert_eq!(extractor.get("traceparent"), Some("new"));
    assert_eq!(extractor.keys(), vec!["traceparent", "traceparent"]);
}

#[test]
fn latest_injection_wins() {
    let mut headers = OwnedHeaders::new();
    HeaderInjector(&mut headers).set("k", "first".to_string());
    HeaderInjector(&mut headers).set("k", "second".to_string());
    assert_eq!(HeaderExtractor(headers.as_borrowed()).get("k"), Some("second"));
}

#[test]
fn extractor_skips_non_text_values_and_misses() {
    let headers = OwnedHeaders::new()
        .insert(Header { key: "k", value: Some(&[0xffu8, 0xfe][..]) })
        .insert(Header { key: "other", value: Some("x") })
        .insert(Header { key: "k", value: Some("text") });
    let extractor = HeaderExtractor(headers.as_borrowed());
    assert_eq!(extractor.get("k"), Some("text"));
    assert_eq!(extractor.get("missing"), None);
    assert_eq!(extractor.keys(), vec!["k", "other", "k"]);
}

#[test]
fn extractor_header_without_value() {
    let headers = OwnedHeaders::new()
        .insert::<str>(Header { key: "k", value: None })
        .insert(Header { key: "k", value: Some("later") });
    assert_eq!(HeaderExtractor(headers.as_borrowed()).get("k"), None);
}

#[test]
fn payload_text_decodes_or_is_empty() {
    assert_eq!(payload_text(Some("héllo".as_bytes())), "héllo");
    assert_eq!(payload_text(Some(&[0xc3u8, 0x28][..])), "");
    assert_eq!(payload_text(None), "");
}

#[test]
fn consume_record_with_headers_records_span() {
    let action = consume_record(Some(b"Message hi"), true);
    assert_eq!(action.payload, "Message hi");
    let span = action.span.expect("span");
    assert_eq!(span.tracer, "consumer");
    assert_eq!(span.name, "consume_payload");
    assert_eq!(span.attribute_key, "payload");
    assert_eq!(span.attribute_value, "Message hi");
}

#[test]
fn consume_record_without_headers() {
    let action = consume_record(None, false);
    assert_eq!(action.payload, "");
    assert!(action.span.is_none());
}

#[test]
fn publish_record_fields() {
    let record = publish_record(&Message { text: "hello".to_string() }, "key-1".to_string());
    assert_eq!(record.topic, "actixweb_demo");
    assert_eq!(record.payload, "Message hello");
    assert_eq!(record.key, "key-1");
    assert_eq!(
        entries(&record.headers),
        vec![("header_key".to_string(), Some(b"header_value".to_vec()))]
    );
}

#[test]
fn publish_keys_with_v7_uuid() {
    let record = publish(&Message { text: "x".to_string() });
    let key: Vec<char> = record.key.chars().collect();
    assert_eq!(key.len(), 36);
    for (i, c) in key.iter().enumerate() {
        match i {
            8 | 13 | 18 | 23 => assert_eq!(*c, '-'),
            14 => assert_eq!(*c, '7'),
            19 => assert!("89ab".contains(*c)),
            _ => assert!(c.is_ascii_hexdigit() && !c.is_ascii_uppercase()),
        }
    }
    assert_eq!(record.payload, "Message x");
}

#[test]
fn published_payload_is_read_back() {
    let record = publish_record(&Message { text: "über".to_string() }, String::new());
    assert_eq!(payload_text(Some(record.payload.as_bytes())), record.payload);
}

#[test]
fn publish_reply_by_delivery() {
    let ok = publish_reply(Ok((0, 12)));
    assert_eq!(ok.status, 200);
    assert_eq!(ok.body, "OK");
    let failed = publish_reply(Err("queue full".to_string()));
    assert_eq!(failed.status, 500);
    assert_eq!(failed.body, "OK");
}

#[test]
fn same_text_compares_bytes() {
    assert!(same_text("traceparent", "traceparent"));
    assert!(!same_text("traceparent", "tracestate"));
    assert!(!same_text("a", "ab"));
}

#[test]
fn extractor_over_owned_headers_reads_injected_value() {
    let mut headers = OwnedHeaders::new()
        .insert(Header { key: "tracestate", value: Some("a=1") })
        .insert(Header { key: "traceparent", value: Some("old") });
    HeaderInjector(&mut headers).set("traceparent", "00-new-01".to_string());
    let extractor = HeaderExtractor::from_owned(&headers);
    assert_eq!(extractor.get("traceparent"), Some("00-new-01"));
    assert_eq!(extractor.get("tracestate"), Some("a=1"));
    assert_eq!(extractor.keys(), vec!["traceparent", "tracestate", "traceparent"]);
}
