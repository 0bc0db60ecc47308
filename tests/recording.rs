use sentra_lab_engine::compressor::{CompressionLevel, Compressor};
use sentra_lab_engine::error::EngineError;
use sentra_lab_engine::event::{events_to_json, Event, EventType};
use sentra_lab_engine::exporter::{format_timestamp, ExportFormat, Exporter};
use sentra_lab_engine::interceptor::{call_completed_event, call_made_event};
use sentra_lab_engine::queue::EventQueue;
use sentra_lab_engine::recorder::{record, DrainAction, DrainTask, RecorderConfig, RecorderStats};
use sentra_lab_engine::storage::{batch_file_path, batch_id_for, BatchIndex, BatchMetadata, StorageConfig};

fn create_test_event(id: &str) -> Event {
    Event {
        id: id.to_string(),
        run_id: "test".to_string(),
        event_type: EventType::AgentStarted,
        timestamp_ns: 0,
        data: "{}".to_string(),
        duration_us: None,
    }
}

fn export_event() -> Event {
    Event {
        id: "evt_123".to_string(),
        run_id: "run_abc".to_string(),
        event_type: EventType::AgentStarted,
        timestamp_ns: 1234567890000000000,
        data: "{\"test\":\"data\"}".to_string(),
        duration_us: Some(1000),
    }
}

#[test]
fn test_compression_levels() {
    assert_eq!(CompressionLevel::Fast.as_i32(), 1);
    assert_eq!(CompressionLevel::Balanced.as_i32(), 3);
    assert_eq!(CompressionLevel::Best.as_i32(), 19);
}

#[test]
fn test_compress_decompress() {
    let compressor = Compressor::new(CompressionLevel::Balanced);
    let data = b"Hello, World! This is test data.".repeat(100);
    let compressed = compressor.compress(&data).unwrap();
    assert!(compressed.len() < data.len());
    let decompressed = compressor.decompress(&compressed).unwrap();
    assert_eq!(decompressed, data);
}

#[test]
fn test_json_compression() {
    let compressor = Compressor::new(CompressionLevel::Balanced);
    let json_data = r#"{"id":"evt_123","type":"agent_started","data":{}}"#.repeat(1000);
    let compressed = compressor.compress(json_data.as_bytes()).unwrap();
    let ratio = json_data.len() as f64 / compressed.len() as f64;
    assert!(ratio > 5.0);
}

#[test]
fn test_compression_levels_comparison() {
    let data = b"Test data for compression".repeat(100);
    let fast = Compressor::new(CompressionLevel::Fast);
    let balanced = Compressor::new(CompressionLevel::Balanced);
    let best = Compressor::new(CompressionLevel::Best);
    let fast_size = fast.compress(&data).unwrap().len();
    let balanced_size = balanced.compress(&data).unwrap().len();
    let best_size = best.compress(&data).unwrap().len();
    assert!(best_size <= balanced_size);
    assert!(balanced_size <= fast_size);
}

#[test]
fn round_trip_at_every_level_and_size() {
    let sizes = [0usize, 1, 1024, 1 << 20];
    for level in [CompressionLevel::Fast, CompressionLevel::Balanced, CompressionLevel::Best] {
        let c = Compressor::new(level);
        for &n in sizes.iter() {
            let x: Vec<u8> = (0..n).map(|i| ((i * 7919 + 13) % 251) as u8).collect();
            let packed = c.compress(&x).unwrap();
            assert_ne!(packed, x);
            assert_eq!(c.decompress(&packed).unwrap(), x);
        }
    }
}

#[test]
fn decompress_rejects_garbage() {
    let c = Compressor::default();
    let r = c.decompress(b"definitely not a zstd frame");
    assert!(matches!(r, Err(EngineError::CompressionFailed(_))));
    assert_eq!(r.unwrap_err().kind_name(), "compression-failed");
}

#[test]
fn estimate_follows_level_ratios() {
    let data = vec![0u8; 300];
    assert_eq!(Compressor::new(CompressionLevel::Fast).estimate_compressed_size(&data), 60);
    assert_eq!(Compressor::new(CompressionLevel::Balanced).estimate_compressed_size(&data), 30);
    assert_eq!(Compressor::new(CompressionLevel::Best).estimate_compressed_size(&data), 20);
}

#[test]
fn test_queue_creation() {
    let queue = EventQueue::new(100);
    assert_eq!(queue.capacity(), 100);
    assert_eq!(queue.len(), 0);
    assert!(queue.is_empty());
}

#[test]
fn test_push_pop() {
    let mut queue = EventQueue::new(10);
    let event = create_test_event("evt_1");
    queue.push(event).unwrap();
    assert_eq!(queue.len(), 1);
    assert!(!queue.is_empty());
    let popped = queue.try_pop();
    assert!(popped.is_some());
    assert_eq!(popped.unwrap().id, "evt_1");
    assert_eq!(queue.len(), 0);
    assert!(queue.is_empty());
}

#[test]
fn test_queue_full() {
    let mut queue = EventQueue::new(2);
    queue.push(create_test_event("evt_1")).unwrap();
    queue.push(create_test_event("evt_2")).unwrap();
    assert!(queue.is_full());
    let result = queue.push(create_test_event("evt_3"));
    assert!(result.is_err());
    let stats = queue.stats();
    assert_eq!(stats.drop_count, 1);
}

#[test]
fn event_queue_test_stats() {
    let mut queue = EventQueue::new(10);
    queue.push(create_test_event("evt_1")).unwrap();
    queue.push(create_test_event("evt_2")).unwrap();
    queue.try_pop();
    let stats = queue.stats();
    assert_eq!(stats.push_count, 2);
    assert_eq!(stats.pop_count, 1);
    assert_eq!(stats.current_size, 1);
}

#[test]
fn queue_overflow_hands_back_the_event_and_keeps_order() {
    let mut queue = EventQueue::new(2);
    assert!(queue.push(create_test_event("A")).is_ok());
    assert!(queue.push(create_test_event("B")).is_ok());
    let back = queue.push(create_test_event("C")).unwrap_err();
    assert_eq!(back.id, "C");
    assert_eq!(queue.stats().drop_count, 1);
    assert_eq!(queue.try_pop().unwrap().id, "A");
    assert_eq!(queue.try_pop().unwrap().id, "B");
    assert!(queue.try_pop().is_none());
}

#[test]
fn queue_counts_balance_after_mixed_operations() {
    let mut queue = EventQueue::new(3);
    let mut attempts = 0u64;
    let mut popped = Vec::new();
    for round in 0..5 {
        for i in 0..3 {
            attempts += 1;
            let _ = queue.push(create_test_event(&format!("e{}_{}", round, i)));
        }
        if let Some(e) = queue.try_pop() {
            popped.push(e.id);
        }
    }
    let s = queue.stats();
    assert_eq!(attempts, s.pop_count + s.drop_count + s.current_size as u64);
    assert_eq!(s.push_count, s.pop_count + s.current_size as u64);
    assert_eq!(popped[0], "e0_0");
    assert_eq!(popped[1], "e0_1");
}

#[test]
fn record_reports_a_full_queue() {
    let mut queue = EventQueue::new(1);
    assert!(record(&mut queue, create_test_event("x")).is_ok());
    let r = record(&mut queue, create_test_event("y"));
    assert!(matches!(r, Err(EngineError::RecordingFailed(_))));
    assert_eq!(queue.stats().drop_count, 1);
}

#[test]
fn recorder_config_defaults() {
    let c = RecorderConfig::default();
    assert_eq!(c.batch_size, 1000);
    assert_eq!(c.flush_interval_ms, 100);
    assert_eq!(c.compression_level, CompressionLevel::Fast);
    assert_eq!(c.max_queue_size, 1_000_000);
}

#[test]
fn recorder_test_stats() {
    let task = DrainTask::new(1000, CompressionLevel::Fast);
    let stats = task.stats();
    assert_eq!(stats.events_recorded, 0);
}

#[test]
fn averages_divide_totals() {
    let mut s = RecorderStats::default();
    assert_eq!(s.avg_record_time_ns(), 0);
    assert_eq!(s.avg_flush_time_ms(), 0);
    s.events_recorded = 4;
    s.total_record_time_ns = 1000;
    s.batches_flushed = 3;
    s.total_flush_time_ms = 10;
    assert_eq!(s.avg_record_time_ns(), 250);
    assert_eq!(s.avg_flush_time_ms(), 3);
}

fn payload_ids(c: &Compressor, payload: &[u8]) -> Vec<String> {
    let text = String::from_utf8(c.decompress(payload).unwrap()).unwrap();
    text.split("\"id\":\"").skip(1).map(|s| s.split('"').next().unwrap().to_string()).collect()
}

#[test]
fn recorder_round_trip_in_two_batches() {
    let mut queue = EventQueue::new(16);
    let mut task = DrainTask::new(3, CompressionLevel::Fast);
    let mut index = BatchIndex::new("events".to_string());
    for i in 1..=5 {
        record(&mut queue, create_test_event(&format!("e{}", i))).unwrap();
        task.note_recorded(100);
    }
    let c = Compressor::new(CompressionLevel::Fast);
    let mut batches = Vec::new();
    loop {
        match task.wake(&mut queue) {
            DrainAction::Sleep => break,
            DrainAction::Write { payload, event_count } => {
                let plan = index.next_write();
                index.commit(plan.number, payload.len() as u64, event_count as i64, 0);
                batches.push((plan.batch_id, payload_ids(&c, &payload)));
                task.written(true, payload.len() as u64, 1);
            }
        }
    }
    assert_eq!(batches.len(), 2);
    assert_eq!(batches[0].0, "batch_00000001");
    assert_eq!(batches[0].1, vec!["e1", "e2", "e3"]);
    assert_eq!(batches[1].0, "batch_00000002");
    assert_eq!(batches[1].1, vec!["e4", "e5"]);
    let stats = task.stats();
    assert_eq!(stats.events_recorded, 5);
    assert_eq!(stats.events_flushed, 5);
    assert_eq!(stats.batches_flushed, 2);
    assert_eq!(index.stats().total_batches, 2);
}

#[test]
fn failed_writes_are_retried_then_halved() {
    let mut queue = EventQueue::new(16);
    let mut task = DrainTask::new(4, CompressionLevel::Fast);
    for i in 0..4 {
        record(&mut queue, create_test_event(&format!("e{}", i))).unwrap();
    }
    for _ in 0..2 {
        assert!(matches!(task.wake(&mut queue), DrainAction::Write { event_count: 4, .. }));
        task.written(false, 0, 0);
        assert_eq!(task.dropped_events(), 0);
    }
    assert!(matches!(task.wake(&mut queue), DrainAction::Write { event_count: 4, .. }));
    task.written(false, 0, 0);
    assert_eq!(task.dropped_events(), 2);
    match task.wake(&mut queue) {
        DrainAction::Write { event_count, .. } => assert_eq!(event_count, 2),
        DrainAction::Sleep => panic!("the kept half must be written"),
    }
}

#[test]
fn batch_names_and_paths() {
    assert_eq!(batch_id_for(1), "batch_00000001");
    assert_eq!(batch_id_for(123456789), "batch_123456789");
    assert_eq!(batch_file_path("events", 2), "events/batch_00000002.zst");
    let cfg = StorageConfig::default();
    assert_eq!(cfg.db_name, "events.db");
    assert_eq!(cfg.events_dir, "events");
}

#[test]
fn batch_index_is_dense_and_finds_files() {
    let mut index = BatchIndex::new("events".to_string());
    for n in 1..=3u64 {
        let plan = index.next_write();
        assert_eq!(plan.number, n);
        index.commit(plan.number, 10 * n, 1, 0);
    }
    let rows = index.list_batches();
    assert_eq!(rows.len(), 3);
    assert_eq!(rows[2].batch_id, "batch_00000003");
    assert_eq!(rows[2].compressed_size, 30);
    assert_eq!(index.stats().total_size_bytes, 60);
    assert_eq!(index.file_of("batch_00000002").unwrap(), "events/batch_00000002.zst");
    assert!(index.file_of("batch_00000009").is_none());
}

#[test]
fn rebuilding_the_index_rejects_gaps() {
    let row = |id: &str| BatchMetadata { batch_id: id.to_string(), event_count: 1, compressed_size: 5, created_at: 0 };
    let ok = BatchIndex::from_rows("events".to_string(), vec![row("batch_00000001"), row("batch_00000002")]);
    assert_eq!(ok.unwrap().next_write().number, 3);
    let gap = BatchIndex::from_rows("events".to_string(), vec![row("batch_00000001"), row("batch_00000003")]);
    assert!(matches!(gap, Err(EngineError::StorageFailed(_))));
}

#[test]
fn batch_json_is_an_array_of_events() {
    let events = vec![create_test_event("a"), create_test_event("b\"q")];
    let text = events_to_json(&events, false);
    assert_eq!(
        text,
        "[{\"id\":\"a\",\"run_id\":\"test\",\"event_type\":\"agent_started\",\"timestamp_ns\":0,\"data\":{},\"duration_us\":null},{\"id\":\"b\\\"q\",\"run_id\":\"test\",\"event_type\":\"agent_started\",\"timestamp_ns\":0,\"data\":{},\"duration_us\":null}]"
    );
    assert_eq!(events_to_json(&Vec::new(), true), "[]");
}

#[test]
fn test_json_export() {
    let exporter = Exporter::new(ExportFormat::Json);
    let events = vec![export_event()];
    let result = exporter.export(&events);
    assert!(result.is_ok());
    let json = result.unwrap();
    assert!(json.contains("evt_123"));
}

#[test]
fn test_har_export() {
    let exporter = Exporter::new(ExportFormat::Har);
    let events = vec![export_event()];
    let result = exporter.export(&events);
    assert!(result.is_ok());
    let har = result.unwrap();
    assert!(har.contains("Sentra Lab"));
    assert!(har.contains("version"));
}

#[test]
fn test_junit_export() {
    let exporter = Exporter::new(ExportFormat::JUnit);
    let events = vec![export_event()];
    let result = exporter.export(&events);
    assert!(result.is_ok());
    let xml = result.unwrap();
    assert!(xml.contains("<?xml"));
    assert!(xml.contains("testsuite"));
    assert!(xml.contains("evt_123"));
}

#[test]
fn har_keeps_only_external_calls() {
    let mut call = export_event();
    call.event_type = EventType::ExternalCallMade;
    call.duration_us = Some(1500);
    let har = Exporter::new(ExportFormat::Har).export(&vec![export_event(), call]).unwrap();
    assert_eq!(har.matches("startedDateTime").count(), 1);
    assert!(har.contains("\"time\": 1.5"));
    assert!(har.contains("\"version\": \"1.2\""));
    assert!(har.contains("2009-02-13T23:31:30+00:00"));
    let empty = Exporter::new(ExportFormat::Har).export(&vec![export_event()]).unwrap();
    assert!(empty.contains("\"entries\": []"));
}

#[test]
fn junit_counts_failures() {
    let mut err = export_event();
    err.id = "evt_err".to_string();
    err.event_type = EventType::ErrorEncountered;
    let xml = Exporter::new(ExportFormat::JUnit).export(&vec![export_event(), err]).unwrap();
    assert!(xml.contains("tests=\"2\" failures=\"1\""));
    assert!(xml.contains("<testcase name=\"evt_123\" time=\"0.001\">"));
    assert!(xml.contains("<failure message=\"Error encountered\">{\"test\":\"data\"}</failure>"));
    assert_eq!(xml.matches("<failure").count(), 1);
}

#[test]
fn timestamps_are_rfc3339_utc() {
    assert_eq!(format_timestamp(0), "1970-01-01T00:00:00+00:00");
    assert_eq!(format_timestamp(1_500_000_000), "1970-01-01T00:00:01.500+00:00");
}

#[test]
fn har_reads_request_and_status_from_payloads() {
    let made = call_made_event("m".to_string(), "r".to_string(), 0, "GET", "http://localhost:8080/v1");
    let done = call_completed_event("c".to_string(), "r".to_string(), 0, 404, 2000);
    let har = Exporter::new(ExportFormat::Har).export(&vec![made, done]).unwrap();
    assert!(har.contains("\"method\": \"GET\""));
    assert!(har.contains("\"url\": \"http://localhost:8080/v1\""));
    assert!(har.contains("\"status\": 404"));
    assert!(har.contains("\"statusText\": \"\""));
    let doc: serde_json::Value = serde_json::from_str(&har).unwrap();
    assert_eq!(doc["log"]["version"], "1.2");
    assert_eq!(doc["log"]["entries"].as_array().unwrap().len(), 2);
}

#[test]
fn exported_json_parses_back() {
    let json = Exporter::new(ExportFormat::Json).export(&vec![export_event(), create_test_event("x")]).unwrap();
    let doc: serde_json::Value = serde_json::from_str(&json).unwrap();
    assert_eq!(doc[0]["id"], "evt_123");
    assert_eq!(doc[0]["data"]["test"], "data");
    assert_eq!(doc[1]["duration_us"], serde_json::Value::Null);
    let compact = events_to_json(&vec![create_test_event("q\n\u{1}")], false);
    let back: serde_json::Value = serde_json::from_str(&compact).unwrap();
    assert_eq!(back[0]["id"], "q\n\u{1}");
}

#[test]
fn orphan_files_are_those_without_rows() {
    let mut index = BatchIndex::new("events".to_string());
    let plan = index.next_write();
    index.commit(plan.number, 3, 1, 0);
    let listing = vec![
        "batch_00000001.zst".to_string(),
        "batch_00000002.zst".to_string(),
        "notes.txt".to_string(),
    ];
    assert_eq!(index.orphan_files(&listing), vec!["batch_00000002.zst".to_string(), "notes.txt".to_string()]);
    assert!(index.is_committed_file("batch_00000001.zst"));
}

#[test]
fn written_batches_are_recorded_only_with_matching_length() {
    let mut index = BatchIndex::new("events".to_string());
    let plan = index.next_write();
    let bad = index.record_written(plan.number, 10, 9, 1, 0);
    assert!(matches!(bad, Err(EngineError::StorageFailed(_))));
    assert_eq!(index.stats().total_batches, 0);
    assert!(matches!(index.record_written(plan.number + 1, 10, 10, 1, 0), Err(EngineError::StorageFailed(_))));
    index.record_written(plan.number, 10, 10, 1, 0).unwrap();
    let rows = index.list_batches();
    assert_eq!(rows[0].batch_id, "batch_00000001");
    assert_eq!(rows[0].compressed_size, 10);
}

#[test]
fn compression_is_deterministic_per_level() {
    let x = b"same input".repeat(50);
    let a = Compressor::new(CompressionLevel::Best).compress(&x).unwrap();
    let b = Compressor::new(CompressionLevel::Best).compress(&x).unwrap();
    assert_eq!(a, b);
    let fast = Compressor::new(CompressionLevel::Fast);
    assert_eq!(Compressor::new(CompressionLevel::Best).decompress(&fast.compress(&x).unwrap()).unwrap(), x);
}
