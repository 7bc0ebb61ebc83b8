use ingest_bridge::config::{Settings, CONSUMER_GROUP};
use ingest_bridge::ingest::{Action, Event, FatalError, Ingestion, Phase, PAUSE_MILLIS};
use ingest_bridge::record::{StoredRecord, ID_LENGTH};
use ingest_bridge::schema::{plan_provision, table_listed, AttributeKind, KeyRole, Provision, SchemaDescriptor};

fn names(list: &[&str]) -> Vec<String> {
    list.iter().map(|s| s.to_string()).collect()
}

/// A loop for `table` that has subscribed and found its table.
fn running(table: &str) -> Ingestion {
    let (mut ing, _) = Ingestion::start(table.to_string());
    ing.step(Event::Subscribed);
    let a = ing.step(Event::TablesListed(names(&[table])));
    assert!(matches!(a, Action::Poll));
    ing
}

/// Feeds one delivered payload through a full iteration; returns the record written, if any.
fn deliver(ing: &mut Ingestion, payload: &[u8], write_ok: bool) -> Option<StoredRecord> {
    let written = match ing.step(Event::Delivered(payload.to_vec())) {
        Action::Write(table, rec) => {
            assert_eq!(table, ing.table);
            let a = ing.step(if write_ok { Event::Written } else { Event::WriteFailed });
            assert!(matches!(a, Action::Pause(PAUSE_MILLIS)));
            Some(rec)
        }
        Action::Pause(ms) => {
            assert_eq!(ms, PAUSE_MILLIS);
            None
        }
        _ => panic!("unexpected action after a delivery"),
    };
    assert!(matches!(ing.step(Event::Paused), Action::Poll));
    assert_eq!(ing.phase, Phase::Polling);
    written
}

#[test]
fn settings_take_defaults() {
    let s = Settings::resolve(None, None, None, None);
    assert_eq!(s.broker, "kafka:9092");
    assert_eq!(s.topic, "test-topic");
    assert_eq!(s.store_endpoint, "http://dynamodb:8000");
    assert_eq!(s.table, "KafkaMessages");
    assert_eq!(CONSUMER_GROUP, "rust-consumer-group");
}

#[test]
fn settings_keep_given_values() {
    let s = Settings::resolve(Some("b:1".to_string()), Some("t".to_string()), None, Some("T".to_string()));
    assert_eq!(s.broker, "b:1");
    assert_eq!(s.topic, "t");
    assert_eq!(s.store_endpoint, "http://dynamodb:8000");
    assert_eq!(s.table, "T");
}

#[test]
fn standard_layout_is_text_partition_key_with_five_units() {
    let s = SchemaDescriptor::standard();
    assert_eq!(s.key_attribute, "id");
    assert_eq!(s.key_kind, AttributeKind::Text);
    assert_eq!(s.key_role, KeyRole::Partition);
    assert_eq!(s.read_capacity, 5);
    assert_eq!(s.write_capacity, 5);
}

#[test]
fn listing_lookup() {
    let list = names(&["A", "KafkaMessages", "B"]);
    assert!(table_listed(&list, &"KafkaMessages".to_string()));
    assert!(!table_listed(&list, &"Kafka".to_string()));
    assert!(!table_listed(&Vec::new(), &"A".to_string()));
}

#[test]
fn schema_ensure_twice_creates_one_table() {
    let table = "KafkaMessages".to_string();
    let mut store: Vec<(String, SchemaDescriptor)> = Vec::new();
    for _ in 0..2 {
        let listing: Vec<String> = store.iter().map(|(n, _)| n.clone()).collect();
        if let Provision::Create(layout) = plan_provision(&listing, &table) {
            store.push((table.clone(), layout));
        }
    }
    assert_eq!(store.len(), 1);
    assert_eq!(store[0].0, table);
    assert_eq!(store[0].1.key_attribute, "id");
    assert_eq!(store[0].1.key_role, KeyRole::Partition);
}

#[test]
fn startup_creates_missing_table() {
    let (mut ing, first) = Ingestion::start("KafkaMessages".to_string());
    assert!(matches!(first, Action::Subscribe));
    assert_eq!(ing.phase, Phase::Subscribing);
    assert!(matches!(ing.step(Event::Subscribed), Action::ListTables));
    match ing.step(Event::TablesListed(names(&["Other"]))) {
        Action::CreateTable(table, s) => {
            assert_eq!(table, "KafkaMessages");
            assert_eq!(s.key_attribute, "id");
            assert_eq!(s.read_capacity, 5);
        }
        _ => panic!("expected the table to be created"),
    }
    assert_eq!(ing.phase, Phase::Creating);
    assert!(matches!(ing.step(Event::TableCreated), Action::Poll));
    assert_eq!(ing.phase, Phase::Polling);
}

#[test]
fn startup_skips_creation_when_table_exists() {
    let ing = running("KafkaMessages");
    assert_eq!(ing.phase, Phase::Polling);
    assert_eq!(ing.table, "KafkaMessages");
}

#[test]
fn subscribe_failure_aborts() {
    let (mut ing, _) = Ingestion::start("T".to_string());
    assert!(matches!(ing.step(Event::SubscribeFailed), Action::Abort(FatalError::SubscribeFailed)));
    assert_eq!(ing.phase, Phase::Aborted(FatalError::SubscribeFailed));
}

#[test]
fn listing_failure_aborts() {
    let (mut ing, _) = Ingestion::start("T".to_string());
    ing.step(Event::Subscribed);
    assert!(matches!(ing.step(Event::ListFailed), Action::Abort(FatalError::ListTablesFailed)));
    assert_eq!(ing.phase, Phase::Aborted(FatalError::ListTablesFailed));
}

#[test]
fn creation_failure_aborts() {
    let (mut ing, _) = Ingestion::start("T".to_string());
    ing.step(Event::Subscribed);
    ing.step(Event::TablesListed(Vec::new()));
    assert!(matches!(ing.step(Event::CreateFailed), Action::Abort(FatalError::CreateTableFailed)));
    assert_eq!(ing.phase, Phase::Aborted(FatalError::CreateTableFailed));
}

#[test]
fn record_from_text_payload() {
    let rec = StoredRecord::from_payload(b"hello".to_vec()).unwrap();
    assert_eq!(rec.message, "hello");
    assert_eq!(rec.id.len(), ID_LENGTH);
    let dashes: Vec<usize> = rec.id.char_indices().filter(|(_, c)| *c == '-').map(|(i, _)| i).collect();
    assert_eq!(dashes, vec![8, 13, 18, 23]);
}

#[test]
fn record_from_multibyte_payload() {
    let rec = StoredRecord::from_payload("grüße".as_bytes().to_vec()).unwrap();
    assert_eq!(rec.message, "grüße");
}

#[test]
fn record_from_empty_payload() {
    let rec = StoredRecord::from_payload(Vec::new()).unwrap();
    assert_eq!(rec.message, "");
}

#[test]
fn invalid_utf8_gives_no_record() {
    assert!(StoredRecord::from_payload(vec![0xff, 0xfe, 0x41]).is_none());
    assert!(StoredRecord::from_payload(vec![0xc0, 0x80]).is_none());
    assert!(StoredRecord::from_payload(vec![0xed, 0xa0, 0x80]).is_none());
    assert!(StoredRecord::from_decoded(None, "x".to_string()).is_none());
    let rec = StoredRecord::from_decoded(Some("m".to_string()), "x".to_string()).unwrap();
    assert_eq!(rec.id, "x");
    assert_eq!(rec.message, "m");
}

#[test]
fn poll_error_and_empty_poll_keep_looping() {
    let mut ing = running("T");
    assert!(matches!(ing.step(Event::PollFailed), Action::Pause(PAUSE_MILLIS)));
    assert!(matches!(ing.step(Event::Paused), Action::Poll));
    assert!(matches!(ing.step(Event::PollEmpty), Action::Pause(PAUSE_MILLIS)));
    assert!(matches!(ing.step(Event::Paused), Action::Poll));
    assert_eq!(ing.phase, Phase::Polling);
}

#[test]
fn all_published_messages_are_written() {
    let mut ing = running("T");
    let published = ["m1", "m2", "m3", "m4", "m5"];
    let written: Vec<String> =
        published.iter().filter_map(|m| deliver(&mut ing, m.as_bytes(), true)).map(|r| r.message).collect();
    assert_eq!(written, published.to_vec());
}

#[test]
fn undecodable_payload_between_valid_ones() {
    let mut ing = running("T");
    let a = deliver(&mut ing, b"first", true).unwrap();
    assert!(deliver(&mut ing, &[0xc3, 0x28], true).is_none());
    let b = deliver(&mut ing, b"second", true).unwrap();
    assert_eq!(a.message, "first");
    assert_eq!(b.message, "second");
}

#[test]
fn rejected_write_does_not_stop_the_loop() {
    let mut ing = running("T");
    let a = deliver(&mut ing, b"dropped", false).unwrap();
    assert_eq!(a.message, "dropped");
    let b = deliver(&mut ing, b"next", true).unwrap();
    assert_eq!(b.message, "next");
}

#[test]
fn record_ids_are_distinct_in_a_run() {
    let mut ing = running("T");
    let mut ids: Vec<String> = (0..200).filter_map(|i| deliver(&mut ing, format!("m{i}").as_bytes(), true)).map(|r| r.id).collect();
    assert_eq!(ids.len(), 200);
    ids.sort();
    ids.dedup();
    assert_eq!(ids.len(), 200);
}

#[test]
fn hello_world_scenario() {
    let table = "KafkaMessages".to_string();
    let mut tables: Vec<String> = Vec::new();
    let (mut ing, _) = Ingestion::start(table.clone());
    ing.step(Event::Subscribed);
    assert!(matches!(ing.step(Event::TablesListed(tables.clone())), Action::CreateTable(_, _)));
    tables.push(table.clone());
    ing.step(Event::TableCreated);
    let mut store: Vec<StoredRecord> = Vec::new();
    for m in ["hello", "world"] {
        store.extend(deliver(&mut ing, m.as_bytes(), true));
    }
    assert_eq!(store.len(), 2);
    assert!(store.iter().all(|r| r.message == "hello" || r.message == "world"));
    assert_ne!(store[0].message, store[1].message);
    assert!(!store[0].id.is_empty() && !store[1].id.is_empty());
    assert_ne!(store[0].id, store[1].id);
    assert!(matches!(plan_provision(&tables, &table), Provision::AlreadyPresent));
    assert_eq!(tables.len(), 1);
}

#[test]
fn events_outside_the_phase_are_not_accepted() {
    let (ing, _) = Ingestion::start("T".to_string());
    assert!(ing.accepts(&Event::Subscribed));
    assert!(!ing.accepts(&Event::Paused));
    let ing = running("T");
    assert!(ing.accepts(&Event::Delivered(vec![1])));
    assert!(!ing.accepts(&Event::Written));
}

#[test]
fn create_refused_because_table_exists_is_not_fatal() {
    let (mut ing, _) = Ingestion::start("KafkaMessages".to_string());
    ing.step(Event::Subscribed);
    assert!(matches!(ing.step(Event::TablesListed(Vec::new())), Action::CreateTable(_, _)));
    assert!(ing.accepts(&Event::TableExists));
    assert!(matches!(ing.step(Event::TableExists), Action::Poll));
    assert_eq!(ing.phase, Phase::Polling);
}

#[test]
fn idle_polls_between_messages_lose_nothing() {
    let mut ing = running("T");
    let mut written = Vec::new();
    for m in ["a", "b"] {
        assert!(matches!(ing.step(Event::PollEmpty), Action::Pause(PAUSE_MILLIS)));
        assert!(matches!(ing.step(Event::Paused), Action::Poll));
        assert!(matches!(ing.step(Event::PollFailed), Action::Pause(PAUSE_MILLIS)));
        assert!(matches!(ing.step(Event::Paused), Action::Poll));
        written.extend(deliver(&mut ing, m.as_bytes(), true).map(|r| r.message));
    }
    assert_eq!(written, vec!["a".to_string(), "b".to_string()]);
}
