//! What an ingestion handler decides once the request's body has been
//! decoded: reject, acknowledge a duplicate, or hand the record to the
//! hand-off buffers and forward it to the broker.
//!
//! Decoding and publishing are the caller's work: it hands in what the
//! decoder gave and reports whether the broker took the record.

use crate::dedup::{is_live, mark_spec, pool_of, with_markers, DedupPools};
use crate::error::{status_of, GatewayError};
use crate::fingerprint::{fingerprint, fingerprint_spec};
use crate::ring::{push_spec, RingBuffer};
use crate::telemetry::{
    AircraftId, AircraftIdView, AircraftPosition, AircraftPositionView, AircraftVelocity,
    AircraftVelocityView, DecodedTelemetry, DecodedTelemetryView, TelemetryEnvelope,
    TelemetryFormat,
};
use vstd::prelude::*;

verus! {

/// The three hand-off buffers, one per telemetry category.
pub struct HandoffBuffers {
    pub id_ring: RingBuffer<AircraftId>,
    pub position_ring: RingBuffer<AircraftPosition>,
    pub velocity_ring: RingBuffer<AircraftVelocity>,
}

/// What becomes of a request.
#[derive(Debug)]
pub enum Ingest {
    /// The request is refused with this error.
    Reject(GatewayError),
    /// The record was seen before: acknowledge, do nothing more.
    Acknowledge,
    /// A first sighting: the record is in its hand-off buffer and is to be
    /// published to the broker.
    Forward(DecodedTelemetry),
}

/// The subject's name as a sequence of characters.
pub open spec fn subject_view(subject: Option<&str>) -> Option<Seq<char>> {
    match subject {
        Some(s) => Some(s@),
        None => None,
    }
}

/// The identifier that a record is stored under: the authenticated subject
/// where there is one, else the identifier that was decoded.
pub open spec fn tagged_identifier(decoded: Seq<char>, subject: Option<Seq<char>>) -> Seq<char> {
    match subject {
        Some(s) => s,
        None => decoded,
    }
}

/// A record as it is handed on: under the identifier of `tagged_identifier`
/// and stamped with the arrival time of its request.
pub open spec fn tag_spec(
    record: DecodedTelemetryView,
    subject: Option<Seq<char>>,
    arrival: u64,
) -> DecodedTelemetryView {
    match record {
        DecodedTelemetryView::Identity(id) => DecodedTelemetryView::Identity(
            AircraftIdView {
                identifier: tagged_identifier(id.identifier, subject),
                timestamp_network: arrival,
            },
        ),
        DecodedTelemetryView::Position(p) => DecodedTelemetryView::Position(
            AircraftPositionView {
                identifier: tagged_identifier(p.identifier, subject),
                position: p.position,
                timestamp_network: arrival,
            },
        ),
        DecodedTelemetryView::Velocity(v) => DecodedTelemetryView::Velocity(
            AircraftVelocityView {
                identifier: tagged_identifier(v.identifier, subject),
                velocity: v.velocity,
                timestamp_network: arrival,
            },
        ),
        DecodedTelemetryView::BasicTelemetry(b) => DecodedTelemetryView::BasicTelemetry(b),
    }
}

/// `after` is `before` with `record` pushed onto the buffer of its category.
/// The other buffers, and all of them for a record without a category, are
/// as before.
pub open spec fn handed_off(
    before: HandoffBuffers,
    after: HandoffBuffers,
    record: DecodedTelemetry,
) -> bool {
    &&& after.id_ring.spec_capacity() == before.id_ring.spec_capacity()
    &&& after.position_ring.spec_capacity() == before.position_ring.spec_capacity()
    &&& after.velocity_ring.spec_capacity() == before.velocity_ring.spec_capacity()
    &&& after.id_ring@ == match record {
        DecodedTelemetry::Identity(id) => push_spec(
            before.id_ring@,
            before.id_ring.spec_capacity(),
            id,
        ),
        _ => before.id_ring@,
    }
    &&& after.position_ring@ == match record {
        DecodedTelemetry::Position(p) => push_spec(
            before.position_ring@,
            before.position_ring.spec_capacity(),
            p,
        ),
        _ => before.position_ring@,
    }
    &&& after.velocity_ring@ == match record {
        DecodedTelemetry::Velocity(v) => push_spec(
            before.velocity_ring@,
            before.velocity_ring.spec_capacity(),
            v,
        ),
        _ => before.velocity_ring@,
    }
}

/// How a request ends, given whether the broker took the record (which
/// matters for a forwarded record only): a record that the broker did not
/// take makes the backend unavailable.
pub open spec fn conclusion_spec(outcome: Ingest, published: bool) -> Result<(), GatewayError> {
    match outcome {
        Ingest::Reject(e) => Err(e),
        Ingest::Acknowledge => Ok(()),
        Ingest::Forward(_) => if published {
            Ok(())
        } else {
            Err(GatewayError::BackendUnavailable)
        },
    }
}

/// The status code that answers a request, given whether the broker took
/// the record (which matters for a forwarded record only).
pub open spec fn response_spec(outcome: Ingest, published: bool) -> u16 {
    match outcome {
        Ingest::Reject(e) => status_of(e),
        Ingest::Acknowledge => 200,
        Ingest::Forward(_) => if published {
            200
        } else {
            status_of(GatewayError::BackendUnavailable)
        },
    }
}

/// The fingerprint of a request: that of its record, under the identifier
/// that the record is stored under. It is the same at whatever time the
/// request arrives. (A request that was not decoded has none that matters.)
pub open spec fn request_fingerprint(
    format: TelemetryFormat,
    decoded: Option<DecodedTelemetry>,
    subject: Option<&str>,
) -> u64 {
    match decoded {
        Some(record) => fingerprint_spec(format, tag_spec(record@, subject_view(subject), 0)),
        None => 0,
    }
}

/// The kind of an outcome.
pub enum Decision {
    Reject,
    Acknowledge,
    Forward,
}

/// The kind of what became of a request.
pub open spec fn decision_of(outcome: Ingest) -> Decision {
    match outcome {
        Ingest::Reject(_) => Decision::Reject,
        Ingest::Acknowledge => Decision::Acknowledge,
        Ingest::Forward(_) => Decision::Forward,
    }
}

/// What `ingest` decides, and the store of fingerprints after it: a request
/// that was not decoded is rejected and leaves the store alone; a
/// fingerprint that is live in the store at the arrival time is a duplicate;
/// any other is a first sighting, and is marked.
pub open spec fn decide(
    cache: Map<u64, nat>,
    decodable: bool,
    key: u64,
    ttl: u64,
    arrival: u64,
) -> (Map<u64, nat>, Decision) {
    if !decodable {
        (cache, Decision::Reject)
    } else if is_live(cache, key, arrival) {
        (cache, Decision::Acknowledge)
    } else {
        (mark_spec(cache, key, ttl, arrival), Decision::Forward)
    }
}

impl HandoffBuffers {
    /// Three empty buffers of the given capacity each.
    pub fn new(capacity: usize) -> (r: Self)
        ensures
            r.id_ring@ == Seq::<AircraftId>::empty(),
            r.position_ring@ == Seq::<AircraftPosition>::empty(),
            r.velocity_ring@ == Seq::<AircraftVelocity>::empty(),
            r.id_ring.spec_capacity() == capacity,
            r.position_ring.spec_capacity() == capacity,
            r.velocity_ring.spec_capacity() == capacity,
    {
        HandoffBuffers {
            id_ring: RingBuffer::new(capacity),
            position_ring: RingBuffer::new(capacity),
            velocity_ring: RingBuffer::new(capacity),
        }
    }

    /// Pushes a copy of `record` onto the buffer of its category.
    pub fn hand_off(&mut self, record: &DecodedTelemetry)
        ensures
            handed_off(*old(self), *final(self), *record),
    {
        match record {
            DecodedTelemetry::Identity(id) => self.id_ring.push(id.clone()),
            DecodedTelemetry::Position(p) => self.position_ring.push(p.clone()),
            DecodedTelemetry::Velocity(v) => self.velocity_ring.push(v.clone()),
            DecodedTelemetry::BasicTelemetry(_) => {},
        }
    }
}

/// The identifier to store a record under.
fn tag_identifier(decoded: String, subject: Option<&str>) -> (r: String)
    ensures
        r@ == tagged_identifier(decoded@, subject_view(subject)),
{
    match subject {
        Some(s) => s.to_owned(),
        None => decoded,
    }
}

/// Puts a record under the authenticated subject's name, where there is one,
/// and stamps it with the arrival time of its request.
pub fn tag(record: DecodedTelemetry, subject: Option<&str>, arrival: u64) -> (r: DecodedTelemetry)
    ensures
        r@ == tag_spec(record@, subject_view(subject), arrival),
{
    match record {
        DecodedTelemetry::Identity(id) => DecodedTelemetry::Identity(
            AircraftId {
                identifier: tag_identifier(id.identifier, subject),
                timestamp_network: arrival,
            },
        ),
        DecodedTelemetry::Position(p) => DecodedTelemetry::Position(
            AircraftPosition {
                identifier: tag_identifier(p.identifier, subject),
                position: p.position,
                timestamp_network: arrival,
            },
        ),
        DecodedTelemetry::Velocity(v) => DecodedTelemetry::Velocity(
            AircraftVelocity {
                identifier: tag_identifier(v.identifier, subject),
                velocity: v.velocity,
                timestamp_network: arrival,
            },
        ),
        DecodedTelemetry::BasicTelemetry(b) => DecodedTelemetry::BasicTelemetry(b),
    }
}

/// Decides on a tagged record once the duplicate-suppression store has
/// answered: `Some(true)` for a fingerprint that it had seen, `Some(false)`
/// for a first sighting, `None` where it could not be reached.
pub fn settle(record: DecodedTelemetry, sighting: Option<bool>, buffers: &mut HandoffBuffers) -> (r:
    Ingest)
    ensures
        match sighting {
            None => r == Ingest::Reject(GatewayError::CacheUnavailable) && *final(buffers) == *old(
                buffers,
            ),
            Some(true) => r == Ingest::Acknowledge && *final(buffers) == *old(buffers),
            Some(false) => r == Ingest::Forward(record) && handed_off(
                *old(buffers),
                *final(buffers),
                record,
            ),
        },
{
    match sighting {
        None => Ingest::Reject(GatewayError::CacheUnavailable),
        Some(true) => Ingest::Acknowledge,
        Some(false) => {
            buffers.hand_off(&record);
            Ingest::Forward(record)
        },
    }
}

/// Handles one request against the gateway's own stores of fingerprints.
///
/// `decoded` is what the decoder of the envelope's format made of the
/// payload (`None`: it could not decode it); `subject` names the reporter of
/// an authenticated request. An empty payload is a decode failure whatever
/// the decoder says. The record is tagged, and its fingerprint is looked up
/// in the store of the envelope's format, with that format's time to live.
/// A request that is rejected leaves stores and buffers untouched; a
/// duplicate leaves the buffers untouched and its marker as old as it was.
pub fn ingest(
    envelope: &TelemetryEnvelope,
    subject: Option<&str>,
    decoded: Option<DecodedTelemetry>,
    pools: &mut DedupPools,
    buffers: &mut HandoffBuffers,
) -> (r: Ingest)
    ensures
        ({
            let pool = pool_of(old(pools)@, envelope.format);
            let (markers, decision) = decide(
                pool.markers,
                decoded is Some && envelope.payload@.len() > 0,
                request_fingerprint(envelope.format, decoded, subject),
                pool.ttl,
                envelope.arrival,
            );
            final(pools)@ == with_markers(old(pools)@, envelope.format, markers) && decision_of(r)
                == decision
        }),
        match r {
            Ingest::Reject(e) => e == GatewayError::DecodeError && *final(buffers) == *old(buffers),
            Ingest::Acknowledge => *final(buffers) == *old(buffers),
            Ingest::Forward(tagged) => decoded matches Some(record) && tagged@ == tag_spec(
                record@,
                subject_view(subject),
                envelope.arrival,
            ) && handed_off(*old(buffers), *final(buffers), tagged),
        },
{
    if envelope.payload.len() == 0 {
        return Ingest::Reject(GatewayError::DecodeError);
    }
    let Some(record) = decoded else {
        return Ingest::Reject(GatewayError::DecodeError);
    };
    let ghost untagged = record@;
    let tagged = tag(record, subject, envelope.arrival);
    proof {
        lemma_fingerprint_ignores_arrival(
            envelope.format,
            untagged,
            subject_view(subject),
            envelope.arrival,
            0,
        );
    }
    let key = fingerprint(envelope.format, &tagged);
    let seen = pools.seen_or_mark(envelope.format, key, envelope.arrival);
    settle(tagged, Some(seen), buffers)
}

/// How the request ends: well, or with the error to answer it with.
pub fn conclude(outcome: &Ingest, published: bool) -> (r: Result<(), GatewayError>)
    ensures
        r == conclusion_spec(*outcome, published),
        response_spec(*outcome, published) == match r {
            Ok(_) => 200,
            Err(e) => status_of(e),
        },
{
    match outcome {
        Ingest::Reject(e) => Err(*e),
        Ingest::Acknowledge => Ok(()),
        Ingest::Forward(_) => if published {
            Ok(())
        } else {
            Err(GatewayError::BackendUnavailable)
        },
    }
}

/// The status code that answers the request.
pub fn respond(outcome: &Ingest, published: bool) -> (r: u16)
    ensures
        r == response_spec(*outcome, published),
{
    match outcome {
        Ingest::Reject(e) => e.status_code(),
        Ingest::Acknowledge => 200,
        Ingest::Forward(_) => if published {
            200
        } else {
            GatewayError::BackendUnavailable.status_code()
        },
    }
}

/// The time at which a record arrives is no part of its fingerprint: a
/// retransmission has the fingerprint of the packet that it repeats.
pub proof fn lemma_fingerprint_ignores_arrival(
    format: TelemetryFormat,
    record: DecodedTelemetryView,
    subject: Option<Seq<char>>,
    first: u64,
    second: u64,
)
    ensures
        fingerprint_spec(format, tag_spec(record, subject, first)) == fingerprint_spec(
            format,
            tag_spec(record, subject, second),
        ),
{
}

/// Two requests with the same fingerprint, the second within the time to
/// live that the first one set, the fingerprint not being live before: the
/// first is forwarded and the second is acknowledged without being
/// forwarded, whatever happened in between to other fingerprints is not
/// considered here. Both are answered `200`, the first once the broker has
/// taken it.
pub proof fn lemma_duplicate_forwarded_once(
    cache: Map<u64, nat>,
    key: u64,
    ttl: u64,
    first: u64,
    second: u64,
    record: DecodedTelemetry,
)
    requires
        !is_live(cache, key, first),
        first <= second < first + ttl,
    ensures
        ({
            let (marked, one) = decide(cache, true, key, ttl, first);
            let (after, two) = decide(marked, true, key, ttl, second);
            &&& one == Decision::Forward
            &&& two == Decision::Acknowledge
            &&& after == marked
        }),
        response_spec(Ingest::Forward(record), true) == 200,
        forall|published: bool| response_spec(Ingest::Acknowledge, published) == 200,
{
}

/// A request that cannot be decoded is answered `400` and changes nothing.
pub proof fn lemma_undecodable_changes_nothing(
    cache: Map<u64, nat>,
    key: u64,
    ttl: u64,
    arrival: u64,
)
    ensures
        decide(cache, false, key, ttl, arrival) == (cache, Decision::Reject),
        forall|published: bool|
            response_spec(Ingest::Reject(GatewayError::DecodeError), published) == 400,
{
}

} // verus!
