//! Resolving the track a span or event belongs to.
//!
//! A named track's identity is derived deterministically from the track
//! name and the process track identity, so the same name always maps to
//! the same numeric identity within one process, across all threads.

use vstd::prelude::*;

verus! {

/// Metadata declaring a track: its identity, its parent track if any, and
/// its display name if any.
pub struct TrackDescriptor {
    pub uuid: u64,
    pub parent_uuid: Option<u64>,
    pub name: Option<String>,
}

/// Mathematical image of a [`TrackDescriptor`].
pub struct TrackDescriptorView {
    pub uuid: u64,
    pub parent_uuid: Option<u64>,
    pub name: Option<Seq<char>>,
}

impl View for TrackDescriptor {
    type V = TrackDescriptorView;

    open spec fn view(&self) -> TrackDescriptorView {
        TrackDescriptorView {
            uuid: self.uuid,
            parent_uuid: self.parent_uuid,
            name: match &self.name {
                Some(n) => Some(n@),
                None => None,
            },
        }
    }
}

impl Clone for TrackDescriptor {
    fn clone(&self) -> (r: Self)
        ensures
            r@ == self@,
    {
        TrackDescriptor {
            uuid: self.uuid,
            parent_uuid: self.parent_uuid,
            name: match &self.name {
                Some(n) => Some(n.clone()),
                None => None,
            },
        }
    }
}

/// The image of an optional descriptor.
pub open spec fn opt_descriptor_view(d: Option<TrackDescriptor>) -> Option<TrackDescriptorView> {
    match d {
        Some(td) => Some(td@),
        None => None,
    }
}

pub const FNV_OFFSET_BASIS: u64 = 0xcbf29ce484222325;

pub const FNV_PRIME: u64 = 0x100000001b3;

/// One step of the FNV-1a hash.
pub open spec fn fnv1a_step(h: u64, byte: u8) -> u64 {
    (h ^ (byte as u64)).wrapping_mul(FNV_PRIME)
}

/// The FNV-1a hash of `bytes` continued from state `h`.
pub open spec fn fnv1a_from(h: u64, bytes: Seq<u8>) -> u64
    decreases bytes.len(),
{
    if bytes.len() == 0 {
        h
    } else {
        fnv1a_from(fnv1a_step(h, bytes.first()), bytes.drop_first())
    }
}

/// The identity of the named track `name` under the process track
/// `parent_uuid`: a deterministic function of exactly those two values.
pub open spec fn named_track_uuid(name: Seq<char>, parent_uuid: u64) -> u64 {
    fnv1a_from(FNV_OFFSET_BASIS, vstd::utf8::encode_utf8(name)) ^ parent_uuid
}

fn fnv1a_hash(bytes: &[u8]) -> (r: u64)
    ensures
        r == fnv1a_from(FNV_OFFSET_BASIS, bytes@),
{
    let mut h: u64 = FNV_OFFSET_BASIS;
    let mut i: usize = 0;
    proof {
        assert(bytes@.skip(0) =~= bytes@);
    }
    while i < bytes.len()
        invariant
            0 <= i <= bytes.len(),
            fnv1a_from(h, bytes@.skip(i as int)) == fnv1a_from(FNV_OFFSET_BASIS, bytes@),
        decreases bytes.len() - i,
    {
        let ghost pre = bytes@.skip(i as int);
        h = (h ^ (bytes[i] as u64)).wrapping_mul(FNV_PRIME);
        proof {
            assert(pre.first() == bytes@[i as int]);
            assert(pre.drop_first() =~= bytes@.skip(i + 1 as int));
        }
        i += 1;
    }
    proof {
        assert(bytes@.skip(bytes@.len() as int) =~= Seq::<u8>::empty());
    }
    h
}

/// Synthesizes the descriptor of the named track `name`, a child of the
/// process track. The identity depends only on the name and the process
/// track identity.
pub fn named_child_for(name: &str, parent_uuid: u64) -> (r: TrackDescriptor)
    ensures
        r@.uuid == named_track_uuid(name@, parent_uuid),
        r@.parent_uuid == Some(parent_uuid),
        r@.name == Some(name@),
{
    let bytes = name.as_bytes();
    let h = fnv1a_hash(bytes);
    TrackDescriptor { uuid: h ^ parent_uuid, parent_uuid: Some(parent_uuid), name: Some(
        name.to_owned(),
    ) }
}

/// The descriptor a span resolves to: an explicitly named track takes
/// precedence; otherwise the ancestor's descriptor is inherited verbatim;
/// otherwise none, meaning the thread-default track active at each
/// emission.
pub open spec fn resolved_track(
    explicit_name: Option<Seq<char>>,
    inherited: Option<TrackDescriptorView>,
    process_uuid: u64,
) -> Option<TrackDescriptorView> {
    match explicit_name {
        Some(name) => Some(
            TrackDescriptorView {
                uuid: named_track_uuid(name, process_uuid),
                parent_uuid: Some(process_uuid),
                name: Some(name),
            },
        ),
        None => inherited,
    }
}

/// Resolves the track assignment for a span: the explicit name, if one was
/// given, wins; otherwise the inherited descriptor passes through
/// unchanged; otherwise the span floats on the thread-default track.
/// Resolution never fails.
pub fn resolve_span_track(
    explicit_name: Option<String>,
    inherited: Option<TrackDescriptor>,
    process_uuid: u64,
) -> (r: Option<TrackDescriptor>)
    ensures
        opt_descriptor_view(r) == resolved_track(
            match explicit_name {
                Some(n) => Some(n@),
                None => None,
            },
            opt_descriptor_view(inherited),
            process_uuid,
        ),
{
    match explicit_name {
        Some(name) => Some(named_child_for(name.as_str(), process_uuid)),
        None => inherited,
    }
}

/// The same name resolves to the same named-track identity, always: the
/// identity is a function of the name and the process track identity and
/// of nothing else.
pub proof fn lemma_named_track_deterministic(
    name1: Seq<char>,
    name2: Seq<char>,
    process_uuid: u64,
)
    requires
        name1 == name2,
    ensures
        named_track_uuid(name1, process_uuid) == named_track_uuid(name2, process_uuid),
{
}

/// A child span with no explicit track name, nested inside a parent that
/// resolved a track, resolves to exactly its parent's track identity.
pub proof fn lemma_child_inherits_parent_track(
    parent: TrackDescriptorView,
    process_uuid: u64,
)
    ensures
        resolved_track(None, Some(parent), process_uuid) == Some(parent),
{
}

} // verus!
