//! Fingerprints: the 64-bit FNV-1a hash of a record's format, of the identity
//! of the asset and of what the record says of it. The time at which a
//! record arrived is no part of it, so that a retransmission has the
//! fingerprint of the packet that it repeats.

use crate::telemetry::{
    canonical_bits, canonical_f32, format_tag, DecodedTelemetry, DecodedTelemetryView,
    PositionData, TelemetryFormat, VelocityData,
};
use vstd::bytes::{spec_u128_to_le_bytes, spec_u32_to_le_bytes, u128_to_le_bytes, u32_to_le_bytes};
use vstd::prelude::*;
use vstd::slice::slice_to_vec;
use vstd::utf8::encode_utf8;

verus! {

/// FNV-1a, 64 bits: the offset basis.
pub const FNV_OFFSET_BASIS: u64 = 0xcbf2_9ce4_8422_2325;

/// FNV-1a, 64 bits: the prime.
pub const FNV_PRIME: u64 = 0x0000_0100_0000_01b3;

/// The byte after an identifier. It occurs in no UTF-8 text, so an
/// identifier never runs into what follows it.
pub const NAME_END: u8 = 0xff;

/// One round of FNV-1a: xor the byte in, then multiply by the prime.
pub open spec fn fnv_step(hash: u64, byte: u8) -> u64 {
    (hash ^ (byte as u64)).wrapping_mul(FNV_PRIME)
}

/// FNV-1a over `bytes`, first to last, starting from `hash`.
pub open spec fn fnv1a_from(hash: u64, bytes: Seq<u8>) -> u64
    decreases bytes.len(),
{
    if bytes.len() == 0 {
        hash
    } else {
        fnv_step(fnv1a_from(hash, bytes.drop_last()), bytes.last())
    }
}

/// An identifier in a fingerprint: its UTF-8 bytes and the end mark.
pub open spec fn name_bytes(identifier: Seq<char>) -> Seq<u8> {
    encode_utf8(identifier) + seq![NAME_END]
}

/// A floating-point number in a fingerprint: its canonical bit pattern,
/// least significant byte first.
pub open spec fn f32_bytes(bits: u32) -> Seq<u8> {
    spec_u32_to_le_bytes(canonical_f32(bits))
}

/// A position in a fingerprint: latitude, longitude, altitude.
pub open spec fn position_bytes(position: PositionData) -> Seq<u8> {
    f32_bytes(position.latitude) + f32_bytes(position.longitude) + f32_bytes(
        position.altitude_meters,
    )
}

/// A velocity in a fingerprint: horizontal speed, vertical speed, track.
pub open spec fn velocity_bytes(velocity: VelocityData) -> Seq<u8> {
    f32_bytes(velocity.velocity_horizontal_ground_mps) + f32_bytes(velocity.velocity_vertical_mps)
        + f32_bytes(velocity.track_angle_degrees)
}

/// A record in a fingerprint: the number of its category, the identity of
/// the asset and what the record says of it. Neither the arrival time nor
/// the checksum (which follows from the rest) is part of it.
pub open spec fn record_bytes(record: DecodedTelemetryView) -> Seq<u8> {
    match record {
        DecodedTelemetryView::Identity(id) => seq![1u8] + name_bytes(id.identifier),
        DecodedTelemetryView::Position(p) => seq![2u8] + name_bytes(p.identifier) + position_bytes(
            p.position,
        ),
        DecodedTelemetryView::Velocity(v) => seq![3u8] + name_bytes(v.identifier) + velocity_bytes(
            v.velocity,
        ),
        DecodedTelemetryView::BasicTelemetry(b) => seq![4u8] + spec_u128_to_le_bytes(b.uuid)
            + position_bytes(b.position),
    }
}

/// The fingerprint of a record that came in `format`.
pub open spec fn fingerprint_spec(format: TelemetryFormat, record: DecodedTelemetryView) -> u64 {
    fnv1a_from(FNV_OFFSET_BASIS, seq![format_tag(format)] + record_bytes(record))
}

/// Hashing `a + b` is hashing `a` and going on with `b`.
pub proof fn lemma_fnv1a_concat(hash: u64, a: Seq<u8>, b: Seq<u8>)
    ensures
        fnv1a_from(hash, a + b) == fnv1a_from(fnv1a_from(hash, a), b),
    decreases b.len(),
{
    if b.len() == 0 {
        assert(a + b =~= a);
    } else {
        lemma_fnv1a_concat(hash, a, b.drop_last());
        assert((a + b).drop_last() =~= a + b.drop_last());
        assert((a + b).last() == b.last());
    }
}

/// FNV-1a over `bytes`, starting from `hash`.
pub fn fnv1a_update(hash: u64, bytes: &[u8]) -> (r: u64)
    ensures
        r == fnv1a_from(hash, bytes@),
{
    let mut h = hash;
    let mut i: usize = 0;
    while i < bytes.len()
        invariant
            i <= bytes@.len(),
            h == fnv1a_from(hash, bytes@.take(i as int)),
        decreases bytes@.len() - i,
    {
        assert(bytes@.take(i + 1).drop_last() =~= bytes@.take(i as int));
        h = (h ^ (bytes[i] as u64)).wrapping_mul(FNV_PRIME);
        i += 1;
    }
    assert(bytes@.take(i as int) =~= bytes@);
    h
}

fn write_name(out: &mut Vec<u8>, identifier: &str)
    ensures
        final(out)@ == old(out)@ + name_bytes(identifier@),
{
    let mut bytes = slice_to_vec(identifier.as_bytes());
    out.append(&mut bytes);
    out.push(NAME_END);
    assert(final(out)@ =~= old(out)@ + name_bytes(identifier@));
}

fn write_f32(out: &mut Vec<u8>, bits: u32)
    ensures
        final(out)@ == old(out)@ + f32_bytes(bits),
{
    let mut bytes = u32_to_le_bytes(canonical_bits(bits));
    out.append(&mut bytes);
}

fn write_position(out: &mut Vec<u8>, position: &PositionData)
    ensures
        final(out)@ == old(out)@ + position_bytes(*position),
{
    write_f32(out, position.latitude);
    write_f32(out, position.longitude);
    write_f32(out, position.altitude_meters);
    assert(final(out)@ =~= old(out)@ + position_bytes(*position));
}

fn write_velocity(out: &mut Vec<u8>, velocity: &VelocityData)
    ensures
        final(out)@ == old(out)@ + velocity_bytes(*velocity),
{
    write_f32(out, velocity.velocity_horizontal_ground_mps);
    write_f32(out, velocity.velocity_vertical_mps);
    write_f32(out, velocity.track_angle_degrees);
    assert(final(out)@ =~= old(out)@ + velocity_bytes(*velocity));
}

/// The bytes that a record's fingerprint is the hash of, after the format.
pub fn write_record(out: &mut Vec<u8>, record: &DecodedTelemetry)
    ensures
        final(out)@ == old(out)@ + record_bytes(record@),
{
    match record {
        DecodedTelemetry::Identity(id) => {
            out.push(1);
            write_name(out, id.identifier.as_str());
        },
        DecodedTelemetry::Position(p) => {
            out.push(2);
            write_name(out, p.identifier.as_str());
            write_position(out, &p.position);
        },
        DecodedTelemetry::Velocity(v) => {
            out.push(3);
            write_name(out, v.identifier.as_str());
            write_velocity(out, &v.velocity);
        },
        DecodedTelemetry::BasicTelemetry(b) => {
            out.push(4);
            let mut uuid = u128_to_le_bytes(b.uuid());
            out.append(&mut uuid);
            let position = b.position();
            write_position(out, &position);
        },
    }
    assert(final(out)@ =~= old(out)@ + record_bytes(record@));
}

/// The fingerprint of a record that came in `format`.
pub fn fingerprint(format: TelemetryFormat, record: &DecodedTelemetry) -> (r: u64)
    ensures
        r == fingerprint_spec(format, record@),
{
    let mut input: Vec<u8> = Vec::new();
    input.push(format.tag());
    write_record(&mut input, record);
    assert(input@ =~= seq![format_tag(format)] + record_bytes(record@));
    fnv1a_update(FNV_OFFSET_BASIS, input.as_slice())
}

} // verus!
