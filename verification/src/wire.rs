//! Protobuf wire encoding of the packet model.
//!
//! The batch is serialized field-for-field against the trace tool's public
//! schema: varint keys and values, length-delimited submessages, and
//! little-endian fixed 64-bit doubles. Every encoder is proved to produce
//! exactly the bytes its specification function describes.

use vstd::prelude::*;
use vstd::utf8::encode_utf8;

use crate::annotation::AnnotationValueView;
use crate::annotation::DebugAnnotation;
use crate::annotation::DebugAnnotationView;
use crate::packet::EventType;
use crate::packet::PacketData;
use crate::packet::PacketDataView;
use crate::packet::ProcessDescriptor;
use crate::packet::SourceLocation;
use crate::packet::SourceLocationView;
use crate::packet::Trace;
use crate::packet::TracePacket;
use crate::packet::TracePacketView;
use crate::packet::TrackEvent;
use crate::packet::TrackEventView;
use crate::packet::packets_view;
use crate::track::TrackDescriptor;
use crate::track::TrackDescriptorView;

verus! {

pub const WIRE_VARINT: u64 = 0;

pub const WIRE_FIXED64: u64 = 1;

pub const WIRE_LEN: u64 = 2;

pub const TRACE_PACKET_FIELD: u64 = 1;

pub const PACKET_TIMESTAMP_FIELD: u64 = 8;

pub const PACKET_SEQUENCE_ID_FIELD: u64 = 10;

pub const PACKET_TRACK_EVENT_FIELD: u64 = 11;

pub const PACKET_TRACK_DESCRIPTOR_FIELD: u64 = 60;

pub const PACKET_TRUSTED_PID_FIELD: u64 = 79;

pub const EVENT_ANNOTATIONS_FIELD: u64 = 4;

pub const EVENT_TYPE_FIELD: u64 = 9;

pub const EVENT_TRACK_UUID_FIELD: u64 = 11;

pub const EVENT_NAME_FIELD: u64 = 23;

pub const EVENT_SOURCE_LOCATION_FIELD: u64 = 33;

pub const LOCATION_FILE_FIELD: u64 = 2;

pub const LOCATION_LINE_FIELD: u64 = 4;

pub const DESCRIPTOR_UUID_FIELD: u64 = 1;

pub const DESCRIPTOR_NAME_FIELD: u64 = 2;

pub const DESCRIPTOR_PROCESS_FIELD: u64 = 3;

pub const DESCRIPTOR_PARENT_UUID_FIELD: u64 = 5;

pub const PROCESS_PID_FIELD: u64 = 1;

pub const ANNOTATION_NAME_FIELD: u64 = 10;

pub const ANNOTATION_BOOL_FIELD: u64 = 2;

pub const ANNOTATION_INT_FIELD: u64 = 4;

pub const ANNOTATION_DOUBLE_FIELD: u64 = 5;

pub const ANNOTATION_STRING_FIELD: u64 = 6;

pub const TYPE_SLICE_BEGIN: u64 = 1;

pub const TYPE_SLICE_END: u64 = 2;

pub const TYPE_INSTANT: u64 = 3;

/// The base-128 varint encoding of `n`, least significant group first.
pub open spec fn varint(n: nat) -> Seq<u8>
    decreases n,
{
    if n < 128 {
        seq![n as u8]
    } else {
        seq![((n % 128) + 128) as u8] + varint(n / 128)
    }
}

/// The key introducing a field: field number and wire type packed into one
/// varint.
pub open spec fn key_bytes(field: nat, wire: nat) -> Seq<u8> {
    varint(field * 8 + wire)
}

/// A varint-typed field.
pub open spec fn uint_field(field: nat, v: nat) -> Seq<u8> {
    key_bytes(field, WIRE_VARINT as nat) + varint(v)
}

/// A signed 64-bit value in a varint-typed field: the two's-complement bit
/// pattern, sign-extended to 64 bits.
pub open spec fn int_field(field: nat, v: i64) -> Seq<u8> {
    uint_field(field, (v as u64) as nat)
}

/// The eight bytes of `x`, least significant first.
pub open spec fn le64(x: u64) -> Seq<u8> {
    seq![
        (x % 0x100) as u8,
        ((x / 0x100) % 0x100) as u8,
        ((x / 0x1_0000) % 0x100) as u8,
        ((x / 0x100_0000) % 0x100) as u8,
        ((x / 0x1_0000_0000) % 0x100) as u8,
        ((x / 0x100_0000_0000) % 0x100) as u8,
        ((x / 0x1_0000_0000_0000) % 0x100) as u8,
        ((x / 0x100_0000_0000_0000) % 0x100) as u8,
    ]
}

/// A fixed 64-bit field; a double travels as its bit pattern.
pub open spec fn double_field(field: nat, bits: u64) -> Seq<u8> {
    key_bytes(field, WIRE_FIXED64 as nat) + le64(bits)
}

/// A length-delimited field: key, payload length, payload.
pub open spec fn len_field(field: nat, payload: Seq<u8>) -> Seq<u8> {
    key_bytes(field, WIRE_LEN as nat) + varint(payload.len()) + payload
}

/// A string field: the UTF-8 bytes, length-delimited.
pub open spec fn string_field(field: nat, s: Seq<char>) -> Seq<u8> {
    len_field(field, encode_utf8(s))
}

/// The wire bytes of one annotation value.
pub open spec fn annotation_value_bytes(v: AnnotationValueView) -> Seq<u8> {
    match v {
        AnnotationValueView::Bool(b) => uint_field(
            ANNOTATION_BOOL_FIELD as nat,
            if b {
                1nat
            } else {
                0nat
            },
        ),
        AnnotationValueView::Int(i) => int_field(ANNOTATION_INT_FIELD as nat, i),
        AnnotationValueView::DoubleBits(d) => double_field(ANNOTATION_DOUBLE_FIELD as nat, d),
        AnnotationValueView::Str(s) => string_field(ANNOTATION_STRING_FIELD as nat, s),
    }
}

/// The wire bytes of one debug annotation: its name, then its value.
pub open spec fn annotation_bytes(a: DebugAnnotationView) -> Seq<u8> {
    string_field(ANNOTATION_NAME_FIELD as nat, a.name) + annotation_value_bytes(a.value)
}

/// The wire bytes of a repeated annotation list, in order.
pub open spec fn annotation_list_bytes(annotations: Seq<DebugAnnotationView>) -> Seq<u8>
    decreases annotations.len(),
{
    if annotations.len() == 0 {
        Seq::<u8>::empty()
    } else {
        annotation_list_bytes(annotations.drop_last()) + len_field(
            EVENT_ANNOTATIONS_FIELD as nat,
            annotation_bytes(annotations.last()),
        )
    }
}

/// The numeric value of a track event sub-kind in the trace schema.
pub open spec fn event_type_value(t: EventType) -> nat {
    match t {
        EventType::SliceBegin => TYPE_SLICE_BEGIN as nat,
        EventType::SliceEnd => TYPE_SLICE_END as nat,
        EventType::Instant => TYPE_INSTANT as nat,
    }
}

/// The wire bytes of a source location submessage.
pub open spec fn location_bytes(l: SourceLocationView) -> Seq<u8> {
    string_field(LOCATION_FILE_FIELD as nat, l.file) + uint_field(
        LOCATION_LINE_FIELD as nat,
        l.line as nat,
    )
}

/// The wire bytes of a track event submessage.
pub open spec fn track_event_bytes(e: TrackEventView) -> Seq<u8> {
    annotation_list_bytes(e.debug_annotations) + uint_field(
        EVENT_TYPE_FIELD as nat,
        event_type_value(e.event_type),
    ) + uint_field(EVENT_TRACK_UUID_FIELD as nat, e.track_uuid as nat) + (match e.name {
        Some(n) => string_field(EVENT_NAME_FIELD as nat, n),
        None => Seq::<u8>::empty(),
    }) + (match e.location {
        Some(l) => len_field(EVENT_SOURCE_LOCATION_FIELD as nat, location_bytes(l)),
        None => Seq::<u8>::empty(),
    })
}

/// The wire bytes of a track descriptor submessage.
pub open spec fn track_descriptor_bytes(td: TrackDescriptorView) -> Seq<u8> {
    uint_field(DESCRIPTOR_UUID_FIELD as nat, td.uuid as nat) + (match td.name {
        Some(n) => string_field(DESCRIPTOR_NAME_FIELD as nat, n),
        None => Seq::<u8>::empty(),
    }) + (match td.parent_uuid {
        Some(p) => uint_field(DESCRIPTOR_PARENT_UUID_FIELD as nat, p as nat),
        None => Seq::<u8>::empty(),
    })
}

/// The wire bytes of the process track descriptor: the process track's
/// identity with a nested process submessage carrying the pid.
pub open spec fn process_descriptor_bytes(p: ProcessDescriptor) -> Seq<u8> {
    uint_field(DESCRIPTOR_UUID_FIELD as nat, p.uuid as nat) + len_field(
        DESCRIPTOR_PROCESS_FIELD as nat,
        match p.pid {
            Some(pid) => int_field(PROCESS_PID_FIELD as nat, pid as i64),
            None => Seq::<u8>::empty(),
        },
    )
}

/// The wire bytes of a packet's payload, under its field in the packet.
pub open spec fn packet_data_bytes(d: PacketDataView) -> Seq<u8> {
    match d {
        PacketDataView::TrackEvent(e) => len_field(
            PACKET_TRACK_EVENT_FIELD as nat,
            track_event_bytes(e),
        ),
        PacketDataView::TrackDescriptor(td) => len_field(
            PACKET_TRACK_DESCRIPTOR_FIELD as nat,
            track_descriptor_bytes(td),
        ),
        PacketDataView::ProcessDescriptor(p) => len_field(
            PACKET_TRACK_DESCRIPTOR_FIELD as nat,
            process_descriptor_bytes(p),
        ),
    }
}

/// The wire bytes of one trace packet submessage.
pub open spec fn trace_packet_bytes(p: TracePacketView) -> Seq<u8> {
    (match p.timestamp {
        Some(t) => uint_field(PACKET_TIMESTAMP_FIELD as nat, t as nat),
        None => Seq::<u8>::empty(),
    }) + (match p.sequence_id {
        Some(s) => uint_field(PACKET_SEQUENCE_ID_FIELD as nat, s as nat),
        None => Seq::<u8>::empty(),
    }) + packet_data_bytes(p.data) + (match p.trusted_pid {
        Some(pid) => int_field(PACKET_TRUSTED_PID_FIELD as nat, pid as i64),
        None => Seq::<u8>::empty(),
    })
}

/// The wire bytes of a whole batch: each packet under the repeated packet
/// field, in order.
pub open spec fn trace_bytes(packets: Seq<TracePacketView>) -> Seq<u8>
    decreases packets.len(),
{
    if packets.len() == 0 {
        Seq::<u8>::empty()
    } else {
        trace_bytes(packets.drop_last()) + len_field(
            TRACE_PACKET_FIELD as nat,
            trace_packet_bytes(packets.last()),
        )
    }
}

/// Appends the varint encoding of `n`.
pub fn push_varint(buf: &mut Vec<u8>, n: u64)
    ensures
        final(buf)@ == old(buf)@ + varint(n as nat),
{
    let ghost pre = old(buf)@;
    let mut m: u64 = n;
    while m >= 128
        invariant
            buf@ + varint(m as nat) == pre + varint(n as nat),
        decreases m,
    {
        let ghost before = buf@;
        let b: u8 = ((m % 128) + 128) as u8;
        buf.push(b);
        m = m / 128;
        proof {
            assert(buf@ + varint(m as nat) =~= before + (seq![b] + varint(m as nat)));
        }
    }
    let ghost before = buf@;
    buf.push(m as u8);
    proof {
        assert(varint(m as nat) =~= seq![m as u8]);
        assert(buf@ =~= before + varint(m as nat));
    }
}

/// Appends the key of a field.
pub fn push_key(buf: &mut Vec<u8>, field: u64, wire: u64)
    requires
        field <= 0x10000,
        wire <= 7,
    ensures
        final(buf)@ == old(buf)@ + key_bytes(field as nat, wire as nat),
{
    push_varint(buf, field * 8 + wire);
}

/// Appends a varint-typed field.
pub fn push_uint_field(buf: &mut Vec<u8>, field: u64, v: u64)
    requires
        field <= 0x10000,
    ensures
        final(buf)@ == old(buf)@ + uint_field(field as nat, v as nat),
{
    let ghost pre = buf@;
    push_key(buf, field, WIRE_VARINT);
    push_varint(buf, v);
    proof {
        assert(buf@ =~= pre + uint_field(field as nat, v as nat));
    }
}

/// Appends a signed 64-bit value as its sign-extended varint field.
pub fn push_int_field(buf: &mut Vec<u8>, field: u64, v: i64)
    requires
        field <= 0x10000,
    ensures
        final(buf)@ == old(buf)@ + int_field(field as nat, v),
{
    push_uint_field(buf, field, #[verifier::truncate] (v as u64));
}

/// Appends a fixed 64-bit field, least significant byte first.
pub fn push_double_field(buf: &mut Vec<u8>, field: u64, bits: u64)
    requires
        field <= 0x10000,
    ensures
        final(buf)@ == old(buf)@ + double_field(field as nat, bits),
{
    let ghost pre = buf@;
    push_key(buf, field, WIRE_FIXED64);
    let ghost mid = buf@;
    buf.push((bits % 0x100) as u8);
    buf.push(((bits / 0x100) % 0x100) as u8);
    buf.push(((bits / 0x1_0000) % 0x100) as u8);
    buf.push(((bits / 0x100_0000) % 0x100) as u8);
    buf.push(((bits / 0x1_0000_0000) % 0x100) as u8);
    buf.push(((bits / 0x100_0000_0000) % 0x100) as u8);
    buf.push(((bits / 0x1_0000_0000_0000) % 0x100) as u8);
    buf.push(((bits / 0x100_0000_0000_0000) % 0x100) as u8);
    proof {
        assert(buf@ =~= mid + le64(bits));
        assert(buf@ =~= pre + double_field(field as nat, bits));
    }
}

/// Appends a length-delimited field holding `payload`.
pub fn push_submessage(buf: &mut Vec<u8>, field: u64, payload: Vec<u8>)
    requires
        field <= 0x10000,
    ensures
        final(buf)@ == old(buf)@ + len_field(field as nat, payload@),
{
    let ghost pre = buf@;
    push_key(buf, field, WIRE_LEN);
    push_varint(buf, payload.len() as u64);
    let mut p = payload;
    buf.append(&mut p);
    proof {
        assert(buf@ =~= pre + len_field(field as nat, payload@));
    }
}

/// Appends a string field: the string's UTF-8 bytes, length-delimited.
pub fn push_string_field(buf: &mut Vec<u8>, field: u64, s: &str)
    requires
        field <= 0x10000,
    ensures
        final(buf)@ == old(buf)@ + string_field(field as nat, s@),
{
    let ghost pre = buf@;
    let bytes = s.as_bytes();
    push_key(buf, field, WIRE_LEN);
    push_varint(buf, bytes.len() as u64);
    buf.extend_from_slice(bytes);
    proof {
        assert(buf@ =~= pre + string_field(field as nat, s@));
    }
}

/// Encodes one debug annotation submessage.
pub fn encode_annotation(a: &DebugAnnotation) -> (r: Vec<u8>)
    ensures
        r@ == annotation_bytes(a@),
{
    let mut buf: Vec<u8> = Vec::new();
    push_string_field(&mut buf, ANNOTATION_NAME_FIELD, a.name.as_str());
    match &a.value {
        crate::annotation::AnnotationValue::Bool(b) => {
            push_uint_field(
                &mut buf,
                ANNOTATION_BOOL_FIELD,
                if *b {
                    1
                } else {
                    0
                },
            );
        },
        crate::annotation::AnnotationValue::Int(i) => {
            push_int_field(&mut buf, ANNOTATION_INT_FIELD, *i);
        },
        crate::annotation::AnnotationValue::DoubleBits(d) => {
            push_double_field(&mut buf, ANNOTATION_DOUBLE_FIELD, *d);
        },
        crate::annotation::AnnotationValue::Str(s) => {
            push_string_field(&mut buf, ANNOTATION_STRING_FIELD, s.as_str());
        },
    }
    proof {
        assert(buf@ =~= annotation_bytes(a@));
    }
    buf
}

/// Encodes a track event submessage.
pub fn encode_track_event(e: &TrackEvent) -> (r: Vec<u8>)
    ensures
        r@ == track_event_bytes(e@),
{
    let mut buf: Vec<u8> = Vec::new();
    let mut i: usize = 0;
    let ghost anns = e@.debug_annotations;
    while i < e.debug_annotations.len()
        invariant
            0 <= i <= e.debug_annotations.len(),
            anns == e@.debug_annotations,
            anns.len() == e.debug_annotations@.len(),
            forall|j: int|
                0 <= j < e.debug_annotations@.len() ==> anns[j] == e.debug_annotations@[j]@,
            buf@ == annotation_list_bytes(anns.take(i as int)),
        decreases e.debug_annotations.len() - i,
    {
        let ghost pre = buf@;
        let sub = encode_annotation(&e.debug_annotations[i]);
        push_submessage(&mut buf, EVENT_ANNOTATIONS_FIELD, sub);
        proof {
            assert(anns.take(i + 1 as int).drop_last() =~= anns.take(i as int));
            assert(anns.take(i + 1 as int).last() == anns[i as int]);
            assert(buf@ =~= annotation_list_bytes(anns.take(i + 1 as int)));
        }
        i += 1;
    }
    proof {
        assert(anns.take(anns.len() as int) =~= anns);
    }
    let ghost after_anns = buf@;
    push_uint_field(
        &mut buf,
        EVENT_TYPE_FIELD,
        match e.event_type {
            EventType::SliceBegin => TYPE_SLICE_BEGIN,
            EventType::SliceEnd => TYPE_SLICE_END,
            EventType::Instant => TYPE_INSTANT,
        },
    );
    push_uint_field(&mut buf, EVENT_TRACK_UUID_FIELD, e.track_uuid);
    match &e.name {
        Some(n) => push_string_field(&mut buf, EVENT_NAME_FIELD, n.as_str()),
        None => (),
    }
    match &e.location {
        Some(l) => {
            let mut loc: Vec<u8> = Vec::new();
            push_string_field(&mut loc, LOCATION_FILE_FIELD, l.file.as_str());
            push_uint_field(&mut loc, LOCATION_LINE_FIELD, l.line as u64);
            proof {
                assert(loc@ =~= location_bytes(l@));
            }
            push_submessage(&mut buf, EVENT_SOURCE_LOCATION_FIELD, loc);
        },
        None => (),
    }
    proof {
        assert(buf@ =~= track_event_bytes(e@));
    }
    buf
}

/// Encodes a track descriptor submessage.
pub fn encode_track_descriptor(td: &TrackDescriptor) -> (r: Vec<u8>)
    ensures
        r@ == track_descriptor_bytes(td@),
{
    let mut buf: Vec<u8> = Vec::new();
    push_uint_field(&mut buf, DESCRIPTOR_UUID_FIELD, td.uuid);
    match &td.name {
        Some(n) => push_string_field(&mut buf, DESCRIPTOR_NAME_FIELD, n.as_str()),
        None => (),
    }
    match &td.parent_uuid {
        Some(p) => push_uint_field(&mut buf, DESCRIPTOR_PARENT_UUID_FIELD, *p),
        None => (),
    }
    proof {
        assert(buf@ =~= track_descriptor_bytes(td@));
    }
    buf
}

/// Encodes the process track descriptor submessage.
pub fn encode_process_descriptor(p: &ProcessDescriptor) -> (r: Vec<u8>)
    ensures
        r@ == process_descriptor_bytes(*p),
{
    let mut buf: Vec<u8> = Vec::new();
    push_uint_field(&mut buf, DESCRIPTOR_UUID_FIELD, p.uuid);
    let mut proc_buf: Vec<u8> = Vec::new();
    match p.pid {
        Some(pid) => push_int_field(&mut proc_buf, PROCESS_PID_FIELD, pid as i64),
        None => (),
    }
    push_submessage(&mut buf, DESCRIPTOR_PROCESS_FIELD, proc_buf);
    proof {
        assert(buf@ =~= process_descriptor_bytes(*p));
    }
    buf
}

/// Encodes one trace packet submessage.
pub fn encode_packet(p: &TracePacket) -> (r: Vec<u8>)
    ensures
        r@ == trace_packet_bytes(p@),
{
    let mut buf: Vec<u8> = Vec::new();
    match p.timestamp {
        Some(t) => push_uint_field(&mut buf, PACKET_TIMESTAMP_FIELD, t),
        None => (),
    }
    match p.sequence_id {
        Some(s) => push_uint_field(&mut buf, PACKET_SEQUENCE_ID_FIELD, s as u64),
        None => (),
    }
    match &p.data {
        PacketData::TrackEvent(e) => {
            let sub = encode_track_event(e);
            push_submessage(&mut buf, PACKET_TRACK_EVENT_FIELD, sub);
        },
        PacketData::TrackDescriptor(td) => {
            let sub = encode_track_descriptor(td);
            push_submessage(&mut buf, PACKET_TRACK_DESCRIPTOR_FIELD, sub);
        },
        PacketData::ProcessDescriptor(pd) => {
            let sub = encode_process_descriptor(pd);
            push_submessage(&mut buf, PACKET_TRACK_DESCRIPTOR_FIELD, sub);
        },
    }
    match p.trusted_pid {
        Some(pid) => push_int_field(&mut buf, PACKET_TRUSTED_PID_FIELD, pid as i64),
        None => (),
    }
    proof {
        assert(buf@ =~= trace_packet_bytes(p@));
    }
    buf
}

/// Encodes a whole batch to its binary wire form.
pub fn encode_trace(t: &Trace) -> (r: Vec<u8>)
    ensures
        r@ == trace_bytes(t@),
{
    let mut buf: Vec<u8> = Vec::new();
    let mut i: usize = 0;
    let ghost ps = t@;
    while i < t.packets.len()
        invariant
            0 <= i <= t.packets.len(),
            ps == t@,
            ps.len() == t.packets@.len(),
            forall|j: int| 0 <= j < t.packets@.len() ==> ps[j] == t.packets@[j]@,
            buf@ == trace_bytes(ps.take(i as int)),
        decreases t.packets.len() - i,
    {
        let sub = encode_packet(&t.packets[i]);
        push_submessage(&mut buf, TRACE_PACKET_FIELD, sub);
        proof {
            assert(ps.take(i + 1 as int).drop_last() =~= ps.take(i as int));
            assert(ps.take(i + 1 as int).last() == ps[i as int]);
            assert(buf@ =~= trace_bytes(ps.take(i + 1 as int)));
        }
        i += 1;
    }
    proof {
        assert(ps.take(ps.len() as int) =~= ps);
    }
    buf
}

} // verus!
