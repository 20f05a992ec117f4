//! The trace packet model: track events, descriptors, and the ordered
//! packet list a span accumulates until it closes.

use vstd::prelude::*;

use crate::annotation::DebugAnnotation;
use crate::annotation::DebugAnnotationView;
use crate::annotation::annotations_view;
use crate::track::TrackDescriptor;
use crate::track::TrackDescriptorView;

verus! {

/// The sub-kind of a track event: a span maps to a Slice-Begin/Slice-End
/// pair; an event maps to a single Instant.
#[derive(PartialEq, Eq, Structural, Clone, Copy, Debug)]
pub enum EventType {
    SliceBegin,
    SliceEnd,
    Instant,
}

/// Where in the host program a span or event was declared.
pub struct SourceLocation {
    pub file: String,
    pub line: u32,
}

/// Mathematical image of a [`SourceLocation`].
pub struct SourceLocationView {
    pub file: Seq<char>,
    pub line: u32,
}

impl View for SourceLocation {
    type V = SourceLocationView;

    open spec fn view(&self) -> SourceLocationView {
        SourceLocationView { file: self.file@, line: self.line }
    }
}

/// A begin, end, or instant record on one track.
pub struct TrackEvent {
    pub event_type: EventType,
    pub name: Option<String>,
    pub track_uuid: u64,
    pub debug_annotations: Vec<DebugAnnotation>,
    pub location: Option<SourceLocation>,
}

/// Mathematical image of a [`TrackEvent`].
pub struct TrackEventView {
    pub event_type: EventType,
    pub name: Option<Seq<char>>,
    pub track_uuid: u64,
    pub debug_annotations: Seq<DebugAnnotationView>,
    pub location: Option<SourceLocationView>,
}

impl View for TrackEvent {
    type V = TrackEventView;

    open spec fn view(&self) -> TrackEventView {
        TrackEventView {
            event_type: self.event_type,
            name: match &self.name {
                Some(n) => Some(n@),
                None => None,
            },
            track_uuid: self.track_uuid,
            debug_annotations: annotations_view(self.debug_annotations@),
            location: match &self.location {
                Some(l) => Some(l@),
                None => None,
            },
        }
    }
}

/// Declares the whole process as a top-level track.
pub struct ProcessDescriptor {
    pub uuid: u64,
    pub pid: Option<i32>,
}

/// Exactly one of the three payloads a packet carries.
pub enum PacketData {
    TrackEvent(TrackEvent),
    TrackDescriptor(TrackDescriptor),
    ProcessDescriptor(ProcessDescriptor),
}

/// Mathematical image of a [`PacketData`].
pub enum PacketDataView {
    TrackEvent(TrackEventView),
    TrackDescriptor(TrackDescriptorView),
    ProcessDescriptor(ProcessDescriptor),
}

impl View for PacketData {
    type V = PacketDataView;

    open spec fn view(&self) -> PacketDataView {
        match self {
            PacketData::TrackEvent(e) => PacketDataView::TrackEvent(e@),
            PacketData::TrackDescriptor(d) => PacketDataView::TrackDescriptor(d@),
            PacketData::ProcessDescriptor(p) => PacketDataView::ProcessDescriptor(*p),
        }
    }
}

/// A timestamped record carrying exactly one payload, stamped with the
/// engine's sequence identifier and the process id.
pub struct TracePacket {
    pub timestamp: Option<u64>,
    pub trusted_pid: Option<i32>,
    pub sequence_id: Option<u32>,
    pub data: PacketData,
}

/// Mathematical image of a [`TracePacket`].
pub struct TracePacketView {
    pub timestamp: Option<u64>,
    pub trusted_pid: Option<i32>,
    pub sequence_id: Option<u32>,
    pub data: PacketDataView,
}

impl View for TracePacket {
    type V = TracePacketView;

    open spec fn view(&self) -> TracePacketView {
        TracePacketView {
            timestamp: self.timestamp,
            trusted_pid: self.trusted_pid,
            sequence_id: self.sequence_id,
            data: self.data@,
        }
    }
}

/// An ordered batch of trace packets.
pub struct Trace {
    pub packets: Vec<TracePacket>,
}

/// The image of a whole packet list.
pub open spec fn packets_view(packets: Seq<TracePacket>) -> Seq<TracePacketView> {
    packets.map_values(|p: TracePacket| p@)
}

impl View for Trace {
    type V = Seq<TracePacketView>;

    open spec fn view(&self) -> Seq<TracePacketView> {
        packets_view(self.packets@)
    }
}

/// Whether the packet is a track event of the given sub-kind.
pub open spec fn is_event_of_type(p: TracePacketView, t: EventType) -> bool {
    match p.data {
        PacketDataView::TrackEvent(e) => e.event_type == t,
        _ => false,
    }
}

/// How many track events of the given sub-kind the batch holds.
pub open spec fn count_events_of_type(packets: Seq<TracePacketView>, t: EventType) -> nat
    decreases packets.len(),
{
    if packets.len() == 0 {
        0
    } else {
        count_events_of_type(packets.drop_last(), t) + if is_event_of_type(packets.last(), t) {
            1nat
        } else {
            0nat
        }
    }
}

/// Builds a track event record.
pub fn create_event(
    track_uuid: u64,
    name: Option<String>,
    location: Option<SourceLocation>,
    debug_annotations: Vec<DebugAnnotation>,
    event_type: EventType,
) -> (r: TrackEvent)
    ensures
        r@.event_type == event_type,
        r@.track_uuid == track_uuid,
        r@.name == (match name {
            Some(n) => Some(n@),
            None => None::<Seq<char>>,
        }),
        r@.debug_annotations == annotations_view(debug_annotations@),
        r@.location == (match location {
            Some(l) => Some(l@),
            None => None::<SourceLocationView>,
        }),
{
    TrackEvent { event_type, name, track_uuid, debug_annotations, location }
}

} // verus!
