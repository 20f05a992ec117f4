//! Conversion of structured instrumentation spans and events into the
//! Perfetto binary trace format.
//!
//! The engine resolves a track identity for each span or event, buffers the
//! packets a span accumulates while it is open, renders typed field values
//! into debug annotations, and assembles an ordered, self-describing packet
//! batch that is encoded to protobuf wire bytes and handed to a sink.

pub mod annotation;
pub mod fields;
mod host;
pub mod layer;
pub mod packet;
pub mod sink;
pub mod track;
pub mod wire;

pub use annotation::AnnotationValue;
pub use annotation::DebugAnnotation;
pub use fields::Field;
pub use fields::FieldFilter;
pub use fields::FieldValue;
pub use fields::MarkerFilter;
pub use layer::Config;
pub use layer::PerfettoLayer;
pub use layer::PerfettoSpanState;
pub use layer::SequenceId;
pub use layer::TrackUuid;
pub use packet::EventType;
pub use packet::PacketData;
pub use packet::ProcessDescriptor;
pub use packet::SourceLocation;
pub use packet::Trace;
pub use packet::TracePacket;
pub use packet::TrackEvent;
pub use sink::PerfettoWriter;
pub use sink::WriteError;
pub use track::TrackDescriptor;
