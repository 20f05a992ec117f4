//! The engine instance and the span lifecycle.
//!
//! On span open the marker filter gates capture, the track resolver
//! assigns a track, and a begin packet is buffered in a fresh span state.
//! Field updates append annotations to the buffered begin packet. Nested
//! instants append packets. On span close an end packet is appended and
//! the whole accumulated batch — prefixed by the process descriptor and
//! the unit's track descriptor — is encoded and flushed to the sink.

use vstd::prelude::*;

use crate::annotation::annotations_of;
use crate::annotation::append_annotations;
use crate::annotation::collect_annotations;
use crate::fields::Field;
use crate::fields::FieldFilter;
use crate::fields::FieldView;
use crate::fields::MarkerFilter;
use crate::fields::extract_track_name;
use crate::fields::fields_view;
use crate::fields::filter_accepts_some;
use crate::fields::some_field_accepted;
use crate::fields::track_name_of;
use crate::host;
use crate::packet::EventType;
use crate::packet::PacketData;
use crate::packet::PacketDataView;
use crate::packet::ProcessDescriptor;
use crate::packet::SourceLocation;
use crate::packet::SourceLocationView;
use crate::packet::Trace;
use crate::packet::TracePacket;
use crate::packet::TracePacketView;
use crate::packet::TrackEventView;
use crate::packet::count_events_of_type;
use crate::packet::create_event;
use crate::packet::is_event_of_type;
use crate::sink::PerfettoWriter;
use crate::sink::buffer_from_slice;
use crate::track::TrackDescriptor;
use crate::track::TrackDescriptorView;
use crate::track::opt_descriptor_view;
use crate::track::resolve_span_track;
use crate::track::resolved_track;
use crate::wire::encode_trace;

verus! {

/// Identifier stamped on every packet this engine emits, so a downstream
/// reader can group packets from one producer. Fixed for the engine's
/// lifetime.
pub struct SequenceId(u64);

impl SequenceId {
    pub fn new(n: u64) -> (r: Self)
        ensures
            r@ == n,
    {
        SequenceId(n)
    }

    pub fn get(&self) -> (r: u64)
        ensures
            r == self@,
    {
        self.0
    }
}

impl View for SequenceId {
    type V = u64;

    closed spec fn view(&self) -> u64 {
        self.0
    }
}

/// A 64-bit key into the trace tool's track namespace.
pub struct TrackUuid(u64);

impl TrackUuid {
    pub fn new(n: u64) -> (r: Self)
        ensures
            r@ == n,
    {
        TrackUuid(n)
    }

    pub fn get(&self) -> (r: u64)
        ensures
            r == self@,
    {
        self.0
    }
}

impl View for TrackUuid {
    type V = u64;

    closed spec fn view(&self) -> u64 {
        self.0
    }
}

/// What the engine is configured to capture.
pub struct Config<F> {
    pub debug_annotations: bool,
    pub filter: Option<F>,
}

impl<F: FieldFilter> Config<F> {
    /// Whether a span or event bearing `fields` is captured: everything is
    /// enabled unless a filter is configured, in which case some field
    /// name must satisfy it.
    pub open spec fn spec_enabled(&self, fields: Seq<FieldView>) -> bool {
        match self.filter {
            Some(f) => some_field_accepted(f, fields),
            None => true,
        }
    }

    /// Decides capture for one span or event; evaluation is pure and
    /// re-entrant.
    pub fn enabled(&self, fields: &Vec<Field>) -> (r: bool)
        ensures
            r == self.spec_enabled(fields_view(fields@)),
    {
        match &self.filter {
            Some(f) => filter_accepts_some(f, fields),
            None => true,
        }
    }
}

impl<F: FieldFilter> Default for Config<F> {
    /// The default configuration: no annotations, no filter — everything
    /// is captured bare.
    fn default() -> (r: Self)
        ensures
            r.debug_annotations == false,
            r.filter is None,
    {
        Config { debug_annotations: false, filter: None }
    }
}

/// Per-span accumulator, created at span open and destroyed exactly once,
/// at span close. `track_descriptor: None` means the span floats on
/// whichever thread-default track is active when each event is emitted.
pub struct PerfettoSpanState {
    pub track_descriptor: Option<TrackDescriptor>,
    pub trace: Trace,
}

impl PerfettoSpanState {
    /// The buffered begin event.
    pub open spec fn begin_event(&self) -> TrackEventView {
        self.trace@[0].data->TrackEvent_0
    }

    /// A span state always holds its begin packet first, carrying the
    /// span's resolved track identity, followed only by nested instants.
    pub open spec fn wf(&self) -> bool {
        &&& self.trace@.len() >= 1
        &&& self.trace@[0].data is TrackEvent
        &&& self.begin_event().event_type == EventType::SliceBegin
        &&& (self.track_descriptor is Some ==> self.begin_event().track_uuid
            == self.track_descriptor->0@.uuid)
        &&& forall|i: int|
            1 <= i < self.trace@.len() ==> is_event_of_type(#[trigger] self.trace@[i], EventType::Instant)
    }
}

/// A packet carrying no payload but a track descriptor, as emitted in the
/// header of every flushed batch.
pub open spec fn descriptor_packet(td: TrackDescriptorView) -> TracePacketView {
    TracePacketView {
        timestamp: None,
        trusted_pid: None,
        sequence_id: None,
        data: PacketDataView::TrackDescriptor(td),
    }
}

/// Records spans as Slice-Begin/Slice-End pairs and events as Instants,
/// assembling encoded packet batches for the sink `W`.
pub struct PerfettoLayer<W, F = MarkerFilter> {
    pub sequence_id: SequenceId,
    pub process_track_uuid: TrackUuid,
    pub writer: W,
    pub config: Config<F>,
    pub pid: Option<i32>,
}

impl<W> PerfettoLayer<W, MarkerFilter> {
    /// A fresh engine over `writer`: both per-instance identifiers are
    /// drawn at random, annotations are off, and no filter is set.
    pub fn new(writer: W) -> (r: Self)
        ensures
            r.writer == writer,
            r.config.debug_annotations == false,
            r.config.filter is None,
            r.pid is None,
    {
        PerfettoLayer {
            sequence_id: SequenceId::new(host::random_u64()),
            process_track_uuid: TrackUuid::new(host::random_u64()),
            writer,
            config: Config::default(),
            pid: None,
        }
    }
}

impl<W, F: FieldFilter> PerfettoLayer<W, F> {
    /// The whole-process header packet: the process track identity with
    /// the trusted process id.
    pub open spec fn process_packet(&self) -> TracePacketView {
        TracePacketView {
            timestamp: None,
            trusted_pid: None,
            sequence_id: None,
            data: PacketDataView::ProcessDescriptor(
                ProcessDescriptor { uuid: self.process_track_uuid@, pid: self.pid },
            ),
        }
    }

    /// Whether an event packet is stamped with this engine's sequence
    /// identifier and process id.
    pub open spec fn stamped(&self, p: TracePacketView) -> bool {
        &&& p.sequence_id == Some(self.sequence_id@ as u32)
        &&& p.trusted_pid == self.pid
    }

    /// Configures whether spans and events are recorded with their field
    /// values as debug annotations.
    pub fn with_debug_annotations(self, value: bool) -> (r: Self)
        ensures
            r.config.debug_annotations == value,
            r.config.filter == self.config.filter,
            r.writer == self.writer,
            r.sequence_id@ == self.sequence_id@,
            r.process_track_uuid@ == self.process_track_uuid@,
            r.pid == self.pid,
    {
        PerfettoLayer {
            config: Config { debug_annotations: value, filter: self.config.filter },
            ..self
        }
    }

    /// Configures capture to be gated on the occurrence of a field name
    /// the given filter accepts; spans and events with no such field are
    /// not recorded at all.
    pub fn with_filter_by_marker<F2: FieldFilter>(self, filter: F2) -> (r: PerfettoLayer<W, F2>)
        ensures
            r.config.filter == Some(filter),
            r.config.debug_annotations == self.config.debug_annotations,
            r.writer == self.writer,
            r.sequence_id@ == self.sequence_id@,
            r.process_track_uuid@ == self.process_track_uuid@,
            r.pid == self.pid,
    {
        PerfettoLayer {
            sequence_id: self.sequence_id,
            process_track_uuid: self.process_track_uuid,
            writer: self.writer,
            config: Config {
                debug_annotations: self.config.debug_annotations,
                filter: Some(filter),
            },
            pid: self.pid,
        }
    }

    /// Sets the trusted process id stamped on every event packet. The id
    /// comes from the host environment, which owns process identity.
    pub fn with_process_id(self, pid: i32) -> (r: Self)
        ensures
            r.pid == Some(pid),
            r.config == self.config,
            r.writer == self.writer,
            r.sequence_id@ == self.sequence_id@,
            r.process_track_uuid@ == self.process_track_uuid@,
    {
        PerfettoLayer { pid: Some(pid), ..self }
    }

    /// Fixes both per-instance identifiers, so a deterministic source can
    /// stand in for the random one.
    pub fn with_identifiers(self, sequence_id: u64, process_track_uuid: u64) -> (r: Self)
        ensures
            r.sequence_id@ == sequence_id,
            r.process_track_uuid@ == process_track_uuid,
            r.config == self.config,
            r.writer == self.writer,
            r.pid == self.pid,
    {
        PerfettoLayer {
            sequence_id: SequenceId::new(sequence_id),
            process_track_uuid: TrackUuid::new(process_track_uuid),
            ..self
        }
    }

    fn sequence_number(&self) -> (r: u32)
        ensures
            r == self.sequence_id@ as u32,
    {
        #[verifier::truncate] (self.sequence_id.get() as u32)
    }

    fn now_packet_timestamp(&self) -> Option<u64> {
        match host::now_timestamp_nanos() {
            Some(t) => Some(#[verifier::truncate] (t as u64)),
            None => None,
        }
    }

    /// Opens a span: gates it through the filter, resolves its track,
    /// builds its begin packet, and returns the fresh span state — or
    /// `None` when the span is filtered out, in which case nothing is
    /// ever emitted for it.
    pub fn on_new_span(
        &self,
        name: String,
        location: Option<SourceLocation>,
        fields: Vec<Field>,
        inherited: Option<TrackDescriptor>,
        thread_uuid: u64,
    ) -> (r: Option<PerfettoSpanState>)
        ensures
            r is Some <==> self.config.spec_enabled(fields_view(fields@)),
            r is Some ==> ({
                let state = r->0;
                let resolved = resolved_track(
                    track_name_of(fields_view(fields@)),
                    opt_descriptor_view(inherited),
                    self.process_track_uuid@,
                );
                &&& state.wf()
                &&& opt_descriptor_view(state.track_descriptor) == resolved
                &&& state.trace@.len() == 1
                &&& state.begin_event().name == Some(name@)
                &&& state.begin_event().track_uuid == (match resolved {
                    Some(td) => td.uuid,
                    None => thread_uuid,
                })
                &&& state.begin_event().debug_annotations == (if self.config.debug_annotations {
                    annotations_of(fields_view(fields@))
                } else {
                    Seq::<crate::annotation::DebugAnnotationView>::empty()
                })
                &&& state.begin_event().location == (match location {
                    Some(l) => Some(l@),
                    None => None::<SourceLocationView>,
                })
                &&& self.stamped(state.trace@[0])
            }),
    {
        if !self.config.enabled(&fields) {
            return None;
        }
        let debug_annotations = if self.config.debug_annotations {
            collect_annotations(&fields)
        } else {
            Vec::new()
        };
        let user_track_name = extract_track_name(&fields);
        let span_track_descriptor = resolve_span_track(
            user_track_name,
            inherited,
            self.process_track_uuid.get(),
        );
        let final_uuid = match &span_track_descriptor {
            Some(d) => d.uuid,
            None => thread_uuid,
        };
        let event = create_event(
            final_uuid,
            Some(name),
            location,
            debug_annotations,
            EventType::SliceBegin,
        );
        let packet = TracePacket {
            timestamp: self.now_packet_timestamp(),
            trusted_pid: self.pid,
            sequence_id: Some(self.sequence_number()),
            data: PacketData::TrackEvent(event),
        };
        let mut packets: Vec<TracePacket> = Vec::new();
        packets.push(packet);
        let state = PerfettoSpanState {
            track_descriptor: span_track_descriptor,
            trace: Trace { packets },
        };
        proof {
            assert(state.trace@ =~= seq![packet@]);
        }
        Some(state)
    }

    /// Records further field values on an open span. With annotation
    /// collection enabled, one annotation per field is appended to the
    /// buffered begin packet — never to any later packet — preserving
    /// visit order; with it disabled, the update is accepted and no
    /// annotation is ever attached. The span's resolved track never
    /// changes.
    pub fn on_record(&self, state: &mut PerfettoSpanState, fields: Vec<Field>)
        requires
            old(state).wf(),
        ensures
            final(state).wf(),
            final(state).track_descriptor == old(state).track_descriptor,
            final(state).trace@.len() == old(state).trace@.len(),
            final(state).begin_event().event_type == old(state).begin_event().event_type,
            final(state).begin_event().name == old(state).begin_event().name,
            final(state).begin_event().track_uuid == old(state).begin_event().track_uuid,
            final(state).begin_event().location == old(state).begin_event().location,
            final(state).begin_event().debug_annotations == old(
                state,
            ).begin_event().debug_annotations + (if self.config.debug_annotations {
                annotations_of(fields_view(fields@))
            } else {
                Seq::<crate::annotation::DebugAnnotationView>::empty()
            }),
            final(state).trace@[0].timestamp == old(state).trace@[0].timestamp,
            final(state).trace@[0].trusted_pid == old(state).trace@[0].trusted_pid,
            final(state).trace@[0].sequence_id == old(state).trace@[0].sequence_id,
            forall|i: int|
                1 <= i < old(state).trace@.len() ==> final(state).trace@[i] == old(state).trace@[i],
    {
        let p0 = state.trace.packets.remove(0);
        let ghost old_p0 = p0@;
        let new_p0 = match p0.data {
            PacketData::TrackEvent(e0) => {
                let mut e = e0;
                if self.config.debug_annotations {
                    append_annotations(&mut e.debug_annotations, &fields);
                } else {
                    proof {
                        assert(crate::annotation::annotations_view(e.debug_annotations@)
                            + Seq::<crate::annotation::DebugAnnotationView>::empty()
                            =~= crate::annotation::annotations_view(e.debug_annotations@));
                    }
                }
                TracePacket {
                    timestamp: p0.timestamp,
                    trusted_pid: p0.trusted_pid,
                    sequence_id: p0.sequence_id,
                    data: PacketData::TrackEvent(e),
                }
            },
            other => TracePacket {
                timestamp: p0.timestamp,
                trusted_pid: p0.trusted_pid,
                sequence_id: p0.sequence_id,
                data: other,
            },
        };
        state.trace.packets.insert(0, new_p0);
        proof {
            assert(state.trace@ =~= seq![new_p0@] + old(state).trace@.drop_first());
            assert(forall|i: int|
                1 <= i < old(state).trace@.len() ==> state.trace@[i] == old(state).trace@[i]);
        }
    }

    /// Records an instant event nested in an open span: if the filter
    /// admits it, one instant packet on the span's resolved track — or
    /// the calling thread's track when none was resolved — is appended to
    /// the span's buffer, to be flushed when the span closes; otherwise
    /// the state is untouched.
    pub fn on_event_in_span(
        &self,
        state: &mut PerfettoSpanState,
        name: String,
        location: Option<SourceLocation>,
        fields: Vec<Field>,
        thread_uuid: u64,
    )
        requires
            old(state).wf(),
        ensures
            final(state).wf(),
            final(state).track_descriptor == old(state).track_descriptor,
            !self.config.spec_enabled(fields_view(fields@)) ==> *final(state) == *old(state),
            self.config.spec_enabled(fields_view(fields@)) ==> ({
                let added = final(state).trace@.last();
                &&& final(state).trace@.len() == old(state).trace@.len() + 1
                &&& forall|i: int|
                    0 <= i < old(state).trace@.len() ==> final(state).trace@[i] == old(
                        state,
                    ).trace@[i]
                &&& added.data is TrackEvent
                &&& added.data->TrackEvent_0.event_type == EventType::Instant
                &&& added.data->TrackEvent_0.name == Some(name@)
                &&& added.data->TrackEvent_0.track_uuid == (match old(state).track_descriptor {
                    Some(td) => td@.uuid,
                    None => thread_uuid,
                })
                &&& added.data->TrackEvent_0.debug_annotations == (
                if self.config.debug_annotations {
                    annotations_of(fields_view(fields@))
                } else {
                    Seq::<crate::annotation::DebugAnnotationView>::empty()
                })
                &&& self.stamped(added)
            }),
    {
        if !self.config.enabled(&fields) {
            return ;
        }
        let debug_annotations = if self.config.debug_annotations {
            collect_annotations(&fields)
        } else {
            Vec::new()
        };
        let track_uuid = match &state.track_descriptor {
            Some(td) => td.uuid,
            None => thread_uuid,
        };
        let event = create_event(
            track_uuid,
            Some(name),
            location,
            debug_annotations,
            EventType::Instant,
        );
        let packet = TracePacket {
            timestamp: self.now_packet_timestamp(),
            trusted_pid: self.pid,
            sequence_id: Some(self.sequence_number()),
            data: PacketData::TrackEvent(event),
        };
        state.trace.packets.push(packet);
        proof {
            assert(state.trace@ =~= old(state).trace@.push(packet@));
        }
    }
}

impl<W: PerfettoWriter, F: FieldFilter> PerfettoLayer<W, F> {
    /// Assembles the final batch for one flush unit — the process
    /// descriptor first, the unit's track descriptor second, then the
    /// accumulated packets in order — encodes it, and hands the bytes to
    /// the sink in one call. A write failure is swallowed: the data is
    /// dropped and the host program is never interrupted. Returns the
    /// assembled batch.
    pub fn write_log(&self, log: Trace, track_descriptor: TrackDescriptor) -> (r: Trace)
        ensures
            r@ == seq![self.process_packet(), descriptor_packet(track_descriptor@)] + log@,
    {
        let mut log = log;
        let ghost orig = log@;
        let process_packet = TracePacket {
            timestamp: None,
            trusted_pid: None,
            sequence_id: None,
            data: PacketData::ProcessDescriptor(
                ProcessDescriptor { uuid: self.process_track_uuid.get(), pid: self.pid },
            ),
        };
        log.packets.insert(0, process_packet);
        let td_packet = TracePacket {
            timestamp: None,
            trusted_pid: None,
            sequence_id: None,
            data: PacketData::TrackDescriptor(track_descriptor),
        };
        log.packets.insert(1, td_packet);
        proof {
            assert(log@ =~= seq![self.process_packet(), descriptor_packet(td_packet.data->TrackDescriptor_0@)]
                + orig);
        }
        let encoded = encode_trace(&log);
        let buffer = buffer_from_slice(encoded.as_slice());
        let _ = self.writer.write_log(buffer);
        log
    }

    /// Records an instant event with no enclosing span: if the filter
    /// admits it, one instant packet on the calling thread's track is
    /// assembled into a batch and flushed immediately, and the flushed
    /// batch is returned; otherwise nothing is written at all.
    pub fn on_event_standalone(
        &self,
        name: String,
        location: Option<SourceLocation>,
        fields: Vec<Field>,
        thread_track: TrackDescriptor,
    ) -> (r: Option<Trace>)
        ensures
            r is Some <==> self.config.spec_enabled(fields_view(fields@)),
            r is Some ==> ({
                let batch = r->0;
                let added = batch@.last();
                &&& batch@.len() == 3
                &&& batch@[0] == self.process_packet()
                &&& batch@[1] == descriptor_packet(thread_track@)
                &&& added.data is TrackEvent
                &&& added.data->TrackEvent_0.event_type == EventType::Instant
                &&& added.data->TrackEvent_0.name == Some(name@)
                &&& added.data->TrackEvent_0.track_uuid == thread_track@.uuid
                &&& added.data->TrackEvent_0.debug_annotations == (
                if self.config.debug_annotations {
                    annotations_of(fields_view(fields@))
                } else {
                    Seq::<crate::annotation::DebugAnnotationView>::empty()
                })
                &&& self.stamped(added)
            }),
    {
        if !self.config.enabled(&fields) {
            return None;
        }
        let debug_annotations = if self.config.debug_annotations {
            collect_annotations(&fields)
        } else {
            Vec::new()
        };
        let event = create_event(
            thread_track.uuid,
            Some(name),
            location,
            debug_annotations,
            EventType::Instant,
        );
        let packet = TracePacket {
            timestamp: self.now_packet_timestamp(),
            trusted_pid: self.pid,
            sequence_id: Some(self.sequence_number()),
            data: PacketData::TrackEvent(event),
        };
        let mut packets: Vec<TracePacket> = Vec::new();
        packets.push(packet);
        let ghost packet_view = packet@;
        let trace = Trace { packets };
        proof {
            assert(trace@ =~= seq![packet_view]);
        }
        let batch = self.write_log(trace, thread_track);
        proof {
            assert(batch@.last() == packet_view);
        }
        Some(batch)
    }

    /// Closes a span: the end packet — on the same track identity the
    /// span resolved at open, or the given thread track when none was
    /// resolved, and always with an empty annotation list — is appended
    /// to the buffer, and the whole batch is assembled and flushed. The
    /// batch holds exactly one Slice-Begin and one Slice-End; when the
    /// span resolved a track, the pair shares that one identity.
    pub fn on_close(
        &self,
        state: PerfettoSpanState,
        name: String,
        location: Option<SourceLocation>,
        thread_track: TrackDescriptor,
    ) -> (r: Trace)
        requires
            state.wf(),
        ensures
            ({
                let end_uuid = match state.track_descriptor {
                    Some(td) => td@.uuid,
                    None => thread_track@.uuid,
                };
                let chosen_td = match state.track_descriptor {
                    Some(td) => td@,
                    None => thread_track@,
                };
                let end = r@.last();
                &&& r@.len() == state.trace@.len() + 3
                &&& r@[0] == self.process_packet()
                &&& r@[1] == descriptor_packet(chosen_td)
                &&& forall|i: int|
                    0 <= i < state.trace@.len() ==> r@[2 + i] == state.trace@[i]
                &&& end.data is TrackEvent
                &&& end.data->TrackEvent_0.event_type == EventType::SliceEnd
                &&& end.data->TrackEvent_0.name == Some(name@)
                &&& end.data->TrackEvent_0.track_uuid == end_uuid
                &&& end.data->TrackEvent_0.debug_annotations.len() == 0
                &&& self.stamped(end)
                &&& count_events_of_type(r@, EventType::SliceBegin) == 1
                &&& count_events_of_type(r@, EventType::SliceEnd) == 1
                &&& (state.track_descriptor is Some ==> end.data->TrackEvent_0.track_uuid
                    == state.begin_event().track_uuid)
                &&& (state.track_descriptor is None && state.begin_event().track_uuid
                    == thread_track@.uuid ==> end.data->TrackEvent_0.track_uuid
                    == state.begin_event().track_uuid)
            }),
    {
        let track_uuid = match &state.track_descriptor {
            Some(td) => td.uuid,
            None => thread_track.uuid,
        };
        let event = create_event(track_uuid, Some(name), location, Vec::new(), EventType::SliceEnd);
        let packet = TracePacket {
            timestamp: self.now_packet_timestamp(),
            trusted_pid: self.pid,
            sequence_id: Some(self.sequence_number()),
            data: PacketData::TrackEvent(event),
        };
        let ghost packet_view = packet@;
        let mut log = state.trace;
        log.packets.push(packet);
        proof {
            assert(log@ =~= state.trace@.push(packet_view));
            assert(crate::annotation::annotations_view(Seq::<
                crate::annotation::DebugAnnotation,
            >::empty()) =~= Seq::<crate::annotation::DebugAnnotationView>::empty());
        }
        let chosen = match state.track_descriptor {
            Some(td) => td,
            None => thread_track,
        };
        let batch = self.write_log(log, chosen);
        proof {
            let header = seq![self.process_packet(), descriptor_packet(chosen@)];
            assert(batch@ =~= header + state.trace@.push(packet_view));
            assert(batch@.last() == packet_view);
            lemma_count_concat(header, state.trace@.push(packet_view), EventType::SliceBegin);
            lemma_count_concat(header, state.trace@.push(packet_view), EventType::SliceEnd);
            lemma_count_header(self.process_packet(), descriptor_packet(chosen@));
            lemma_count_span_packets(state.trace@);
            assert(state.trace@.push(packet_view).drop_last() =~= state.trace@);
            assert(count_events_of_type(state.trace@.push(packet_view), EventType::SliceBegin)
                == 1);
            assert(count_events_of_type(state.trace@.push(packet_view), EventType::SliceEnd) == 1);
        }
        batch
    }
}

/// Counting events distributes over concatenation of batches.
proof fn lemma_count_concat(a: Seq<TracePacketView>, b: Seq<TracePacketView>, t: EventType)
    ensures
        count_events_of_type(a + b, t) == count_events_of_type(a, t) + count_events_of_type(b, t),
    decreases b.len(),
{
    if b.len() == 0 {
        assert(a + b =~= a);
    } else {
        lemma_count_concat(a, b.drop_last(), t);
        assert((a + b).drop_last() =~= a + b.drop_last());
        assert((a + b).last() == b.last());
    }
}

/// The two header packets hold no track events at all.
proof fn lemma_count_header(p0: TracePacketView, p1: TracePacketView)
    requires
        !(p0.data is TrackEvent),
        !(p1.data is TrackEvent),
    ensures
        forall|t: EventType| count_events_of_type(seq![p0, p1], t) == 0,
{
    assert forall|t: EventType| count_events_of_type(seq![p0, p1], t) == 0 by {
        let s = seq![p0, p1];
        assert(s.drop_last() =~= seq![p0]);
        assert(seq![p0].drop_last() =~= Seq::<TracePacketView>::empty());
        assert(count_events_of_type(Seq::<TracePacketView>::empty(), t) == 0);
        assert(count_events_of_type(seq![p0], t) == 0);
    }
}

/// A well-formed span buffer holds exactly one begin and no end.
proof fn lemma_count_span_packets(s: Seq<TracePacketView>)
    requires
        s.len() >= 1,
        is_event_of_type(s[0], EventType::SliceBegin),
        forall|i: int| 1 <= i < s.len() ==> is_event_of_type(#[trigger] s[i], EventType::Instant),
    ensures
        count_events_of_type(s, EventType::SliceBegin) == 1,
        count_events_of_type(s, EventType::SliceEnd) == 0,
    decreases s.len(),
{
    if s.len() == 1 {
        assert(s.drop_last() =~= Seq::<TracePacketView>::empty());
        assert(count_events_of_type(Seq::<TracePacketView>::empty(), EventType::SliceBegin) == 0);
        assert(count_events_of_type(Seq::<TracePacketView>::empty(), EventType::SliceEnd) == 0);
    } else {
        lemma_count_span_packets(s.drop_last());
        assert(!is_event_of_type(s.last(), EventType::SliceBegin));
        assert(!is_event_of_type(s.last(), EventType::SliceEnd));
    }
}

} // verus!
