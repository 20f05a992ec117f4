use std::sync::Arc;
use std::sync::Mutex;

use tracing_perfetto::EventType;
use tracing_perfetto::Field;
use tracing_perfetto::FieldValue;
use tracing_perfetto::MarkerFilter;
use tracing_perfetto::PacketData;
use tracing_perfetto::PerfettoLayer;
use tracing_perfetto::PerfettoWriter;
use tracing_perfetto::Trace;
use tracing_perfetto::TrackDescriptor;
use tracing_perfetto::TrackEvent;
use tracing_perfetto::WriteError;
use tracing_perfetto::AnnotationValue;

#[derive(Clone)]
struct TestWriter {
    buf: Arc<Mutex<Vec<u8>>>,
}

impl TestWriter {
    fn new() -> TestWriter {
        TestWriter { buf: Arc::new(Mutex::new(Vec::new())) }
    }

    fn written(&self) -> Vec<u8> {
        self.buf.lock().unwrap().clone()
    }
}

impl PerfettoWriter for TestWriter {
    fn write_log(&self, buf: bytes::BytesMut) -> Result<(), WriteError> {
        self.buf.lock().unwrap().extend_from_slice(&buf);
        Ok(())
    }
}

fn thread_track(uuid: u64) -> TrackDescriptor {
    TrackDescriptor { uuid, parent_uuid: None, name: None }
}

fn field(name: &str, value: FieldValue) -> Field {
    Field { name: name.to_string(), value }
}

fn events_of(batch: &Trace) -> Vec<&TrackEvent> {
    batch
        .packets
        .iter()
        .filter_map(|p| match &p.data {
            PacketData::TrackEvent(e) => Some(e),
            _ => None,
        })
        .collect()
}

// Open "outer", open "inner" (no name), record x=1 on "inner", close
// "inner", close "outer": two begin/end pairs, inner's begin carries the
// annotation, and both spans share the opening thread's track.
#[test]
fn nested_spans_end_to_end() {
    let writer = TestWriter::new();
    let layer = PerfettoLayer::new(writer.clone())
        .with_debug_annotations(true)
        .with_identifiers(7, 42)
        .with_process_id(1234);
    let thread_uuid = 1000u64;

    let outer = layer
        .on_new_span("outer".to_string(), None, vec![], None, thread_uuid)
        .expect("outer span must be admitted");
    let mut inner = layer
        .on_new_span(
            "inner".to_string(),
            None,
            vec![],
            outer.track_descriptor.clone(),
            thread_uuid,
        )
        .expect("inner span must be admitted");

    layer.on_record(&mut inner, vec![field("x", FieldValue::I64(1))]);

    let inner_batch = layer.on_close(inner, "inner".to_string(), None, thread_track(thread_uuid));
    let outer_batch = layer.on_close(outer, "outer".to_string(), None, thread_track(thread_uuid));

    let mut begins = Vec::new();
    let mut ends = Vec::new();
    for batch in [&inner_batch, &outer_batch] {
        for e in events_of(batch) {
            match e.event_type {
                EventType::SliceBegin => begins.push(e),
                EventType::SliceEnd => ends.push(e),
                EventType::Instant => panic!("no instants were recorded"),
            }
        }
    }
    assert_eq!(begins.len(), 2);
    assert_eq!(ends.len(), 2);

    // Inner's begin carries exactly one annotation, named `x`, integer 1.
    let inner_begin = events_of(&inner_batch)
        .into_iter()
        .find(|e| e.event_type == EventType::SliceBegin)
        .unwrap();
    assert_eq!(inner_begin.name.as_deref(), Some("inner"));
    assert_eq!(inner_begin.debug_annotations.len(), 1);
    assert_eq!(inner_begin.debug_annotations[0].name, "x");
    assert!(matches!(inner_begin.debug_annotations[0].value, AnnotationValue::Int(1)));

    // End packets never carry annotations.
    for e in ends.iter() {
        assert_eq!(e.debug_annotations.len(), 0);
    }

    // Neither span named a track: both default to the opening thread.
    for e in begins.iter().chain(ends.iter()) {
        assert_eq!(e.track_uuid, thread_uuid);
    }

    // Each pair shares one track identity.
    let inner_events = events_of(&inner_batch);
    assert_eq!(inner_events[0].track_uuid, inner_events[1].track_uuid);

    // Every event packet is stamped with the sequence identifier and pid.
    for batch in [&inner_batch, &outer_batch] {
        for p in batch.packets.iter() {
            if let PacketData::TrackEvent(_) = &p.data {
                assert_eq!(p.sequence_id, Some(7));
                assert_eq!(p.trusted_pid, Some(1234));
            }
        }
    }

    assert!(!writer.written().is_empty());
}

// A span carrying `perfetto.track_name = "render"` lands on a named track:
// the batch declares a "render" track that is a child of the process
// track, both begin and end carry its identity, and that identity differs
// from the thread default.
#[test]
fn named_track_span() {
    let writer = TestWriter::new();
    let layer = PerfettoLayer::new(writer.clone()).with_identifiers(7, 42);
    let thread_uuid = 1000u64;

    let state = layer
        .on_new_span(
            "draw".to_string(),
            None,
            vec![field("perfetto.track_name", FieldValue::Str("render".to_string()))],
            None,
            thread_uuid,
        )
        .expect("span must be admitted");

    let descriptor = state.track_descriptor.clone().expect("a named track must be resolved");
    assert_eq!(descriptor.name.as_deref(), Some("render"));
    assert_eq!(descriptor.parent_uuid, Some(42));
    assert_ne!(descriptor.uuid, thread_uuid);

    let batch = layer.on_close(state, "draw".to_string(), None, thread_track(thread_uuid));

    // The second header packet declares the named track.
    match &batch.packets[1].data {
        PacketData::TrackDescriptor(td) => {
            assert_eq!(td.name.as_deref(), Some("render"));
            assert_eq!(td.parent_uuid, Some(42));
            assert_eq!(td.uuid, descriptor.uuid);
        }
        _ => panic!("the second header packet must be a track descriptor"),
    }

    let events = events_of(&batch);
    assert_eq!(events.len(), 2);
    assert_eq!(events[0].track_uuid, descriptor.uuid);
    assert_eq!(events[1].track_uuid, descriptor.uuid);
}

// A child span with no explicit name, nested in a parent with a named
// track, inherits exactly the parent's track identity.
#[test]
fn child_inherits_named_track() {
    let writer = TestWriter::new();
    let layer = PerfettoLayer::new(writer).with_identifiers(7, 42);
    let thread_uuid = 1000u64;

    let parent = layer
        .on_new_span(
            "parent".to_string(),
            None,
            vec![field("perfetto.track_name", FieldValue::Str("render".to_string()))],
            None,
            thread_uuid,
        )
        .unwrap();
    let parent_uuid = parent.track_descriptor.as_ref().unwrap().uuid;

    let child = layer
        .on_new_span(
            "child".to_string(),
            None,
            vec![],
            parent.track_descriptor.clone(),
            thread_uuid,
        )
        .unwrap();

    let child_descriptor = child.track_descriptor.as_ref().unwrap();
    assert_eq!(child_descriptor.uuid, parent_uuid);
    assert_eq!(child_descriptor.name.as_deref(), Some("render"));
}

// The same name resolves to the same named-track identity on every call.
#[test]
fn named_track_resolution_is_deterministic() {
    let first = tracing_perfetto::track::named_child_for("render", 42);
    let second = tracing_perfetto::track::named_child_for("render", 42);
    assert_eq!(first.uuid, second.uuid);

    let other = tracing_perfetto::track::named_child_for("upload", 42);
    assert_ne!(other.uuid, first.uuid);
}

// With a marker filter configured and no satisfying field, nothing is
// written to the sink at all, and later updates are silently swallowed.
#[test]
fn filtered_span_writes_nothing() {
    let writer = TestWriter::new();
    let layer = PerfettoLayer::new(writer.clone())
        .with_debug_annotations(true)
        .with_filter_by_marker(MarkerFilter { marker: "perfetto".to_string() });

    let state = layer.on_new_span(
        "quiet".to_string(),
        None,
        vec![field("unrelated", FieldValue::Bool(true))],
        None,
        1000,
    );
    assert!(state.is_none());

    let event = layer.on_event_standalone(
        "ping".to_string(),
        None,
        vec![field("other", FieldValue::I64(3))],
        thread_track(1000),
    );
    assert!(event.is_none());

    assert!(writer.written().is_empty());
}

// With a marker filter configured, a span bearing the marker is captured.
#[test]
fn marked_span_is_captured() {
    let writer = TestWriter::new();
    let layer = PerfettoLayer::new(writer.clone())
        .with_debug_annotations(true)
        .with_filter_by_marker(MarkerFilter { marker: "perfetto".to_string() });

    let state = layer.on_new_span(
        "loud".to_string(),
        None,
        vec![
            field("perfetto", FieldValue::Bool(true)),
            field("detail", FieldValue::Str("kept".to_string())),
        ],
        None,
        1000,
    );
    let state = state.expect("the marker must admit the span");
    let batch = layer.on_close(state, "loud".to_string(), None, thread_track(1000));
    assert_eq!(events_of(&batch).len(), 2);
    assert!(!writer.written().is_empty());
}

// An instant event with no enclosing span flushes immediately on the
// thread's track; one nested in a span is deferred into the span's batch.
#[test]
fn instant_events_nested_and_standalone() {
    let writer = TestWriter::new();
    let layer = PerfettoLayer::new(writer.clone())
        .with_debug_annotations(true)
        .with_identifiers(9, 42);

    let batch = layer
        .on_event_standalone(
            "tick".to_string(),
            None,
            vec![field("n", FieldValue::U64(5))],
            thread_track(1000),
        )
        .expect("no filter is configured");
    assert_eq!(batch.packets.len(), 3);
    let events = events_of(&batch);
    assert_eq!(events.len(), 1);
    assert_eq!(events[0].event_type, EventType::Instant);
    assert_eq!(events[0].track_uuid, 1000);
    assert_eq!(events[0].name.as_deref(), Some("tick"));
    let flushed_standalone = writer.written();
    assert!(!flushed_standalone.is_empty());

    let mut span = layer
        .on_new_span("outer".to_string(), None, vec![], None, 1000)
        .unwrap();
    let before = writer.written().len();
    layer.on_event_in_span(&mut span, "mark".to_string(), None, vec![], 1000);
    // The nested instant is buffered, not flushed.
    assert_eq!(writer.written().len(), before);
    assert_eq!(span.trace.packets.len(), 2);

    let batch = layer.on_close(span, "outer".to_string(), None, thread_track(1000));
    let events = events_of(&batch);
    assert_eq!(events.len(), 3);
    assert_eq!(events[1].event_type, EventType::Instant);
    assert_eq!(events[1].name.as_deref(), Some("mark"));
}

// The bytes handed to the sink are exactly the encoding of the batch the
// close returned.
#[test]
fn flushed_bytes_match_batch_encoding() {
    let writer = TestWriter::new();
    let layer = PerfettoLayer::new(writer.clone())
        .with_identifiers(7, 42)
        .with_process_id(77);

    let state = layer
        .on_new_span("solo".to_string(), None, vec![], None, 1000)
        .unwrap();
    let batch = layer.on_close(state, "solo".to_string(), None, thread_track(1000));

    let expected = tracing_perfetto::wire::encode_trace(&batch);
    assert_eq!(writer.written(), expected);
    assert!(!expected.is_empty());
}

struct FailingWriter;

impl PerfettoWriter for FailingWriter {
    fn write_log(&self, _buf: bytes::BytesMut) -> Result<(), WriteError> {
        Err(WriteError)
    }
}

// A sink failure is swallowed: the unit's data is dropped, nothing is
// retried, and the host program is never interrupted.
#[test]
fn write_failure_is_swallowed() {
    let layer = PerfettoLayer::new(FailingWriter).with_identifiers(1, 2);
    let state = layer
        .on_new_span("solo".to_string(), None, vec![], None, 1000)
        .unwrap();
    let batch = layer.on_close(state, "solo".to_string(), None, thread_track(1000));
    assert_eq!(batch.packets.len(), 4);

    let batch = layer.on_event_standalone("tick".to_string(), None, vec![], thread_track(1000));
    assert!(batch.is_some());
}

// With annotation collection disabled, recording further fields on an
// open span attaches no debug annotation anywhere.
#[test]
fn record_without_annotations_attaches_nothing() {
    let writer = TestWriter::new();
    let layer = PerfettoLayer::new(writer).with_identifiers(1, 2);

    let mut state = layer
        .on_new_span("quiet".to_string(), None, vec![], None, 1000)
        .unwrap();
    layer.on_record(&mut state, vec![field("x", FieldValue::I64(1))]);

    let batch = layer.on_close(state, "quiet".to_string(), None, thread_track(1000));
    for e in events_of(&batch) {
        assert_eq!(e.debug_annotations.len(), 0);
    }
}
