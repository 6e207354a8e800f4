//! The JSONL journal: replay, appends and replication.

use durable_streams::client::error::Error;
use durable_streams::client::idempotent::{IdempotentProducer, IdempotentProducerConfig};
use durable_streams::client::ingest::{JsonInputFormat, parse_json_input, parse_json_lines};
use durable_streams::client::journal::{
    JournalDirection, JournalRecord, JournalStreamIdentity, JsonJournal, ProducerJournalProgress,
    ReplayState, commit_valid_prefix, frame_lines, read_lines, replay_journal,
};
use durable_streams::client::model::{
    LiveMode, ReadChunk, ReadPayload, ReadRequest, ReadResponse, RequestOptions,
};
use durable_streams::client::replica::{ReadReplica, replica_request};
use durable_streams::time::Timestamp;
use serde_json::Value;

const NOW: Timestamp = Timestamp { seconds: 1_767_225_600, nanos: 0 };

fn orders() -> JournalStreamIdentity {
    JournalStreamIdentity::new("/orders".to_string(), "application/json".to_string())
        .expect("stream")
}

fn time_text(t: Timestamp) -> String {
    chrono::DateTime::from_timestamp(t.seconds, t.nanos).expect("time in range").to_rfc3339()
}

fn text_time(text: &str) -> Option<Timestamp> {
    let t = chrono::DateTime::parse_from_rfc3339(text).ok()?;
    Some(Timestamp { seconds: t.timestamp(), nanos: t.timestamp_subsec_nanos() })
}

fn opt(value: Option<&String>) -> Value {
    value.map_or(Value::Null, |v| Value::from(v.as_str()))
}

fn encode(record: &JournalRecord) -> Vec<u8> {
    let mut stream = serde_json::Map::new();
    stream.insert("path".to_string(), Value::from(record.stream.path.as_str()));
    stream.insert("content_type".to_string(), Value::from(record.stream.content_type.as_str()));
    let mut line = serde_json::Map::new();
    line.insert("version".to_string(), Value::from(record.version));
    line.insert("stream".to_string(), Value::from(stream));
    let direction = match record.direction {
        JournalDirection::Inbound => "inbound",
        JournalDirection::Outbound => "outbound",
    };
    line.insert("direction".to_string(), Value::from(direction));
    line.insert("local_seq".to_string(), Value::from(record.local_seq));
    line.insert("batch_seq".to_string(), Value::from(record.batch_seq));
    line.insert("batch_index".to_string(), Value::from(record.batch_index));
    line.insert("batch_len".to_string(), Value::from(record.batch_len));
    line.insert(
        "payload".to_string(),
        serde_json::from_str(&record.payload).expect("payload is JSON"),
    );
    line.insert("next_offset".to_string(), opt(record.next_offset.as_ref()));
    line.insert("observed_at".to_string(), Value::from(time_text(record.observed_at)));
    line.insert("persisted_at".to_string(), Value::from(time_text(record.persisted_at)));
    if let Some(p) = &record.producer {
        let mut producer = serde_json::Map::new();
        producer.insert("producer_id".to_string(), Value::from(p.producer_id.as_str()));
        producer.insert("epoch".to_string(), Value::from(p.epoch));
        producer.insert("next_seq".to_string(), Value::from(p.next_seq));
        producer.insert("acked_server_offset".to_string(), opt(p.acked_server_offset.as_ref()));
        producer.insert(
            "acked_local_seq".to_string(),
            p.acked_local_seq.map_or(Value::Null, Value::from),
        );
        line.insert("producer".to_string(), Value::from(producer));
    }
    serde_json::to_vec(&Value::from(line)).expect("record serializes")
}

fn text(value: &Value, key: &str) -> Option<String> {
    value.get(key)?.as_str().map(ToString::to_string)
}

fn decode(line: &[u8]) -> Option<JournalRecord> {
    let v: Value = serde_json::from_slice(line).ok()?;
    let stream = v.get("stream")?;
    let producer = match v.get("producer") {
        None | Some(Value::Null) => None,
        Some(p) => Some(ProducerJournalProgress {
            producer_id: text(p, "producer_id")?,
            epoch: p.get("epoch")?.as_i64()?,
            next_seq: p.get("next_seq")?.as_i64()?,
            acked_server_offset: text(p, "acked_server_offset"),
            acked_local_seq: p.get("acked_local_seq").and_then(Value::as_u64),
        }),
    };
    Some(JournalRecord {
        version: v.get("version")?.as_u64()? as u32,
        stream: JournalStreamIdentity {
            path: text(stream, "path")?,
            content_type: text(stream, "content_type")?,
        },
        direction: match v.get("direction")?.as_str()? {
            "inbound" => JournalDirection::Inbound,
            "outbound" => JournalDirection::Outbound,
            _ => return None,
        },
        local_seq: v.get("local_seq")?.as_u64()?,
        batch_seq: v.get("batch_seq")?.as_u64()?,
        batch_index: v.get("batch_index")?.as_u64()? as u32,
        batch_len: v.get("batch_len")?.as_u64()? as u32,
        payload: v.get("payload")?.to_string(),
        next_offset: text(&v, "next_offset"),
        observed_at: text_time(v.get("observed_at")?.as_str()?)?,
        persisted_at: text_time(v.get("persisted_at")?.as_str()?)?,
        producer,
    })
}

fn replay(file: &Vec<u8>, stream: &JournalStreamIdentity) -> Result<ReplayState, Error> {
    let (lines, ends) = read_lines(file);
    let parsed: Vec<Option<JournalRecord>> = lines.iter().map(|line| decode(line)).collect();
    replay_journal(parsed, stream, &ends)
}

fn open(file: &Vec<u8>, stream: JournalStreamIdentity) -> Result<JsonJournal, Error> {
    let state = replay(file, &stream)?;
    Ok(JsonJournal::open(stream, state))
}

fn append(
    file: &mut Vec<u8>,
    journal: &mut JsonJournal,
    direction: JournalDirection,
    values: &[&str],
    next_offset: Option<&str>,
    producer: Option<&ProducerJournalProgress>,
) {
    let values: Vec<String> = values.iter().map(|v| (*v).to_string()).collect();
    let batch = journal
        .prepare_batch(direction, &values, &next_offset.map(ToString::to_string), producer, NOW)
        .expect("append");
    let lines: Vec<Vec<u8>> = batch.iter().map(encode).collect();
    file.extend(frame_lines(&lines));
    let count = journal.append_written(batch, next_offset.map(ToString::to_string));
    assert_eq!(count, lines.len());
}

fn values(journal: &JsonJournal) -> Vec<String> {
    journal.values().into_iter().cloned().collect()
}

#[test]
fn rebuilds_state_after_reopen() {
    let mut file = Vec::new();
    let mut journal = open(&file, orders()).expect("open journal");
    append(
        &mut file,
        &mut journal,
        JournalDirection::Inbound,
        &[r#"{"id":1}"#, r#"{"id":2}"#],
        Some("2"),
        None,
    );

    let reopened = open(&file, orders()).expect("reopen journal");
    assert_eq!(reopened.resume_offset(), Some("2"));
    assert_eq!(values(&reopened), vec![r#"{"id":1}"#, r#"{"id":2}"#]);
}

#[test]
fn ignores_trailing_partial_line() {
    let mut file = Vec::new();
    let mut journal = open(&file, orders()).expect("open journal");
    append(
        &mut file,
        &mut journal,
        JournalDirection::Inbound,
        &[r#"{"id":1}"#],
        Some("1"),
        None,
    );
    file.extend_from_slice(br#"{"version":1,"stream":{"path":"/orders""#);

    let reopened = open(&file, orders()).expect("reopen journal");
    assert_eq!(values(&reopened), vec![r#"{"id":1}"#]);
    assert_eq!(reopened.resume_offset(), Some("1"));
}

#[test]
fn ignores_trailing_corrupt_suffix_after_valid_prefix() {
    let mut file = Vec::new();
    let mut journal = open(&file, orders()).expect("open journal");
    append(
        &mut file,
        &mut journal,
        JournalDirection::Inbound,
        &[r#"{"id":1}"#],
        Some("1"),
        None,
    );
    file.extend_from_slice(b"not-json\n");

    let reopened = open(&file, orders()).expect("reopen journal");
    assert_eq!(values(&reopened), vec![r#"{"id":1}"#]);
}

#[test]
fn preserves_forward_compatible_producer_metadata() {
    let progress = ProducerJournalProgress {
        producer_id: "producer-a".to_string(),
        epoch: 3,
        next_seq: 11,
        acked_server_offset: Some("9".to_string()),
        acked_local_seq: Some(0),
    };
    let mut file = Vec::new();
    let mut journal = open(&file, orders()).expect("open journal");
    append(
        &mut file,
        &mut journal,
        JournalDirection::Outbound,
        &[r#"{"id":7}"#],
        Some("9"),
        Some(&progress),
    );

    let reopened = open(&file, orders()).expect("reopen journal");
    assert_eq!(reopened.records()[0].producer.as_ref().expect("producer"), &progress);
}

#[test]
fn journal_replay_rebuilds_the_same_local_state_after_restart() {
    let mut file = Vec::new();
    {
        let mut journal = open(&file, orders()).expect("open journal");
        append(
            &mut file,
            &mut journal,
            JournalDirection::Inbound,
            &[r#"{"id":1}"#, r#"{"id":2}"#],
            Some("2"),
            None,
        );
    }

    let reopened = open(&file, orders()).expect("reopen journal");
    assert_eq!(values(&reopened), vec![r#"{"id":1}"#, r#"{"id":2}"#]);
    assert_eq!(reopened.resume_offset(), Some("2"));
}

#[test]
fn trailing_partial_line_is_ignored_without_losing_earlier_records() {
    let mut file = Vec::new();
    let mut journal = open(&file, orders()).expect("open journal");
    append(
        &mut file,
        &mut journal,
        JournalDirection::Inbound,
        &[r#"{"id":1}"#],
        Some("1"),
        None,
    );
    file.extend_from_slice(br#"{"version":1,"stream":{"path":"/orders""#);

    let reopened = open(&file, orders()).expect("reopen journal");
    assert_eq!(values(&reopened), vec![r#"{"id":1}"#]);
}

#[test]
fn producer_metadata_is_forward_compatible_with_v1_replay() {
    let mut file = b"{\"version\":1,\"stream\":{\"path\":\"/orders\",\"content_type\":\"application/json\"},\
\"direction\":\"inbound\",\"local_seq\":0,\"batch_seq\":0,\"batch_index\":0,\
\"batch_len\":1,\"payload\":{\"id\":1},\"next_offset\":\"1\",\
\"observed_at\":\"2026-01-01T00:00:00Z\",\"persisted_at\":\"2026-01-01T00:00:00Z\"}\n"
        .to_vec();

    let mut journal = open(&file, orders()).expect("open journal");
    assert_eq!(values(&journal), vec![r#"{"id":1}"#]);
    append(
        &mut file,
        &mut journal,
        JournalDirection::Outbound,
        &[r#"{"id":2}"#],
        Some("2"),
        Some(&ProducerJournalProgress {
            producer_id: "producer-1".to_string(),
            epoch: 4,
            next_seq: 9,
            acked_server_offset: Some("2".to_string()),
            acked_local_seq: Some(1),
        }),
    );

    let reopened = open(&file, orders()).expect("reopen journal");
    assert_eq!(reopened.records().len(), 2);
    assert_eq!(reopened.records()[1].producer.as_ref().expect("producer").next_seq, 9);
}

fn page(values: &[&str], next_offset: &str) -> ReadResponse {
    ReadResponse {
        status: 200,
        next_offset: next_offset.to_string(),
        up_to_date: true,
        stream_closed: false,
        cursor: None,
        content_type: Some("application/json".to_string()),
        etag: None,
        chunks: Vec::<ReadChunk>::new(),
        payload: Some(ReadPayload::Json(values.iter().map(|v| (*v).to_string()).collect())),
    }
}

/// One replication step against a server that answers with a page.
fn replicate(file: &mut Vec<u8>, replica: &mut ReadReplica, response: ReadResponse) -> usize {
    let next_offset = response.next_offset.clone();
    let up_to_date = response.up_to_date;
    let stream_closed = response.stream_closed;
    let batch = replica.replicate(response, NOW).expect("records");
    let lines: Vec<Vec<u8>> = batch.iter().map(encode).collect();
    file.extend(frame_lines(&lines));
    replica.finish_step(batch, next_offset, up_to_date, stream_closed).appended
}

#[test]
fn resume_uses_the_last_persisted_server_offset_and_fetches_only_gaps() {
    let mut file = Vec::new();
    let mut replica = ReadReplica::open(orders(), replay(&file, &orders()).unwrap());
    let first = replica_request(replica.journal(), ReadRequest::default()).unwrap();
    assert_eq!(first.offset, None);
    let appended = replicate(&mut file, &mut replica, page(&[r#"{"id":1}"#, r#"{"id":2}"#], "2"));
    assert_eq!(appended, 2);

    let mut restarted = ReadReplica::open(orders(), replay(&file, &orders()).unwrap());
    let second = replica_request(restarted.journal(), ReadRequest::default()).unwrap();
    assert_eq!(second.offset.as_deref(), Some("2"));
    let appended = replicate(&mut file, &mut restarted, page(&[r#"{"id":3}"#], "3"));

    assert_eq!(appended, 1);
    assert_eq!(
        values(restarted.journal()),
        vec![r#"{"id":1}"#, r#"{"id":2}"#, r#"{"id":3}"#]
    );
}

#[test]
fn read_replication_preserves_message_order_across_restart_and_catch_up() {
    let mut file = Vec::new();
    let mut replica = ReadReplica::open(orders(), replay(&file, &orders()).unwrap());
    replicate(&mut file, &mut replica, page(&[r#"{"id":1}"#, r#"{"id":2}"#], "2"));
    assert_eq!(replica.resume_offset(), Some("2"));

    let mut restarted = ReadReplica::open(orders(), replay(&file, &orders()).unwrap());
    replicate(&mut file, &mut restarted, page(&[r#"{"id":3}"#, r#"{"id":4}"#], "4"));

    assert_eq!(
        restarted.values().into_iter().cloned().collect::<Vec<_>>(),
        vec![r#"{"id":1}"#, r#"{"id":2}"#, r#"{"id":3}"#, r#"{"id":4}"#]
    );
    assert_eq!(restarted.records().len(), 4);
}

#[test]
fn an_empty_page_moves_the_offset_only() {
    let mut file = Vec::new();
    let mut replica = ReadReplica::open(orders(), replay(&file, &orders()).unwrap());
    assert_eq!(replicate(&mut file, &mut replica, page(&[], "7")), 0);
    assert_eq!(replica.resume_offset(), Some("7"));
    assert!(replica.journal().is_empty());
}

#[test]
fn replicas_reject_offsets_live_events_and_bytes() {
    let replica = ReadReplica::open(orders(), replay(&Vec::new(), &orders()).unwrap());
    let mut request = ReadRequest::default();
    request.offset = Some("1".to_string());
    assert!(matches!(
        replica_request(replica.journal(), request),
        Err(Error::InvalidArgument(_))
    ));
    let mut request = ReadRequest::default();
    request.live = LiveMode::Sse;
    assert!(matches!(
        replica_request(replica.journal(), request),
        Err(Error::InvalidArgument(_))
    ));
    let mut response = page(&[], "1");
    response.payload = Some(ReadPayload::Bytes(vec![1]));
    assert!(matches!(replica.replicate(response, NOW), Err(Error::Parse(_))));
}

#[test]
fn other_streams_and_versions_fail_the_open() {
    let mut file = Vec::new();
    let mut journal = open(&file, orders()).unwrap();
    append(&mut file, &mut journal, JournalDirection::Inbound, &["1"], None, None);
    let other = JournalStreamIdentity::new("/x".to_string(), "application/json".to_string()).unwrap();
    assert!(matches!(open(&file, other), Err(Error::Parse(m)) if m.contains("mismatch")));
    let mut record = journal.records()[0].clone();
    record.version = 2;
    let file = frame_lines(&vec![encode(&record)]);
    assert!(matches!(
        open(&file, orders()),
        Err(Error::Parse(m)) if m == "unsupported journal record version 2"
    ));
}

#[test]
fn identities_are_of_json_streams() {
    assert!(JournalStreamIdentity::new(" ".to_string(), "application/json".to_string()).is_err());
    assert!(JournalStreamIdentity::new("/a".to_string(), "text/plain".to_string()).is_err());
    assert!(
        JournalStreamIdentity::new("/a".to_string(), "application/json; v=1".to_string()).is_ok()
    );
    assert!(
        JournalStreamIdentity::new("/a".to_string(), "application/json ; v=1".to_string()).is_ok()
    );
    for refused in ["Application/JSON", " application/json", "application/jsonx", ";application/json"] {
        assert!(JournalStreamIdentity::new("/a".to_string(), refused.to_string()).is_err());
    }
    assert!(matches!(
        JournalStreamIdentity::new("/a".to_string(), "application/json-seq".to_string()),
        Err(Error::InvalidArgument(m))
            if m == "journal only supports application/json content types, got 'application/json-seq'"
    ));
}

#[test]
fn records_carry_their_place() {
    let mut file = Vec::new();
    let mut journal = open(&file, orders()).unwrap();
    append(&mut file, &mut journal, JournalDirection::Inbound, &["1", "2"], Some("2"), None);
    let mut journal = open(&file, orders()).unwrap();
    append(&mut file, &mut journal, JournalDirection::Inbound, &[], Some("5"), None);
    assert_eq!((journal.records().len(), journal.resume_offset()), (2, Some("5")));
    append(&mut file, &mut journal, JournalDirection::Inbound, &[], None, None);
    assert_eq!((journal.resume_offset(), journal.next_batch_seq), (Some("5"), 1));
    append(&mut file, &mut journal, JournalDirection::Outbound, &["3"], None, None);
    for (i, record) in journal.records().iter().enumerate() {
        assert_eq!((record.version, record.local_seq), (1, i as u64));
        assert_eq!(record.stream, orders());
        assert!(record.batch_index < record.batch_len);
    }
    assert_eq!(values(&journal), vec!["1", "2", "3"]);
}

#[test]
fn only_validated_content_counts() {
    let state = replay(&b"not-json\n".to_vec(), &orders()).unwrap();
    assert!(state.records.is_empty());
    assert_eq!(state.resume_offset, None);
    assert_eq!((state.next_local_seq, state.next_batch_seq, state.valid_bytes), (0, 0, 0));

    let mut file = Vec::new();
    let mut journal = open(&file, orders()).unwrap();
    append(&mut file, &mut journal, JournalDirection::Inbound, &["1", "2"], Some("2"), None);
    let whole = file.len();
    append(&mut file, &mut journal, JournalDirection::Inbound, &["3", "4"], Some("4"), None);
    let half = frame_lines(&vec![encode(&journal.records()[2])]);
    let mut cut_short = file[..whole].to_vec();
    cut_short.extend(half);
    let state = replay(&cut_short, &orders()).unwrap();
    assert_eq!(state.valid_bytes, whole as u64);
    assert_eq!(state.records.len(), 2);
    assert_eq!(replay(&file, &orders()).unwrap().valid_bytes, file.len() as u64);
}

#[test]
fn appends_behind_damage_survive_a_restart() {
    for damage in [&b"not-json\n"[..], b"{\"version\":1}\n\n \n", b"{\"version\""] {
        let mut file = Vec::new();
        let mut journal = open(&file, orders()).unwrap();
        append(&mut file, &mut journal, JournalDirection::Inbound, &["1"], Some("1"), None);
        file.extend_from_slice(damage);

        let state = replay(&file, &orders()).unwrap();
        file.truncate(state.valid_bytes as usize);
        let mut journal = JsonJournal::open(orders(), state);
        append(&mut file, &mut journal, JournalDirection::Inbound, &["2", "3"], None, None);
        append(&mut file, &mut journal, JournalDirection::Inbound, &["4"], Some("4"), None);

        let reopened = open(&file, orders()).unwrap();
        assert_eq!(reopened.records(), journal.records());
        assert_eq!(reopened.resume_offset(), Some("4"));
        assert_eq!(reopened.next_batch_seq, journal.next_batch_seq);
        assert_eq!(values(&reopened), vec!["1", "2", "3", "4"]);
    }
}

#[test]
fn a_partial_batch_is_dropped() {
    let mut file = Vec::new();
    let mut journal = open(&file, orders()).unwrap();
    append(&mut file, &mut journal, JournalDirection::Inbound, &["1"], Some("1"), None);
    append(&mut file, &mut journal, JournalDirection::Inbound, &["2", "3"], Some("3"), None);
    let mut records = journal.records().clone();
    records.pop();
    let state = commit_valid_prefix(records);
    assert_eq!(state.records.len(), 1);
    assert_eq!(state.resume_offset.as_deref(), Some("1"));
    assert_eq!((state.next_local_seq, state.next_batch_seq), (1, 1));
}

#[test]
fn complete_lines_are_told_from_a_partial_one() {
    let (lines, ends) = read_lines(&b"a\n \n b \nc".to_vec());
    assert_eq!(lines, vec![b"a".to_vec(), b"b".to_vec()]);
    assert_eq!(ends, vec![2, 8]);
    assert_eq!(frame_lines(&lines), b"a\nb\n".to_vec());
}

#[test]
fn producer_progress_is_journaled() {
    let producer = IdempotentProducer::new(
        "/orders".to_string(),
        "application/json".to_string(),
        RequestOptions { headers: Vec::new(), query: Vec::new() },
        IdempotentProducerConfig { producer_id: "p".to_string(), epoch: 4, ..Default::default() },
    )
    .unwrap();
    assert_eq!(
        producer.progress(),
        ProducerJournalProgress {
            producer_id: "p".to_string(),
            epoch: 4,
            next_seq: 0,
            acked_server_offset: None,
            acked_local_seq: None,
        }
    );
}

// ── Input ──────────────────────────────────────────────────────────

#[test]
fn accepts_single_json_value() {
    let input = parse_json_input(br#"{"kind":"one"}"#).expect("single value parses");
    assert_eq!(input.format(), JsonInputFormat::JsonValue);
    assert_eq!(input.values(), &[r#"{"kind":"one"}"#]);
}

#[test]
fn accepts_json_array() {
    let input = parse_json_input(br#"[{"id":1},{"id":2}]"#).expect("array parses");
    assert_eq!(input.format(), JsonInputFormat::JsonArray);
    assert_eq!(input.values(), &[r#"{"id":1}"#, r#"{"id":2}"#]);
}

#[test]
fn accepts_json_lines() {
    let input = parse_json_input(
        br#"{"id":1}
{"id":2}
"#,
    )
    .expect("json lines parse");
    assert_eq!(input.format(), JsonInputFormat::JsonLines);
    assert_eq!(input.values(), &[r#"{"id":1}"#, r#"{"id":2}"#]);
}

#[test]
fn returns_clear_parse_errors() {
    let error = parse_json_input(
        br#"{"id":1}
not-json
"#,
    )
    .expect_err("invalid jsonl should fail");
    assert!(
        error.to_string().contains("line 2"),
        "unexpected error: {}",
        error.to_string()
    );
}

#[test]
fn empty_lines_are_skipped_but_counted() {
    let input = parse_json_lines(b"\n{\"a\":1}\r\n\n").unwrap();
    assert_eq!(input.into_values(), vec![r#"{"a":1}"#]);
    assert!(parse_json_lines(b"\n\nx").unwrap_err().contains("line 3"));
    assert!(parse_json_lines(&[0xff]).is_err());
}

#[test]
fn cli_persist_normalizes_jsonl_into_the_library_journal_path() {
    let input = parse_json_input(b"{\"id\":1}\n{\"id\":2}\n").expect("input");
    let mut file = Vec::new();
    let mut journal = open(&file, orders()).expect("open journal");
    let texts: Vec<&str> = input.values().iter().map(String::as_str).collect();
    append(&mut file, &mut journal, JournalDirection::Inbound, &texts, None, None);

    let journal = open(&file, orders()).expect("open journal");
    assert_eq!(values(&journal), vec![r#"{"id":1}"#, r#"{"id":2}"#]);
}
