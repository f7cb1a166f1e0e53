//! What reporters send, and what the decoders make of it.
//!
//! Floating-point quantities are held by their IEEE 754 bit patterns: the
//! gateway carries them through and compares them, as totally ordered
//! numbers, but never computes with them.

use crate::clock::unix_now;
use vstd::prelude::*;

verus! {

/// The wire formats that the gateway takes telemetry in.
#[derive(Clone, Copy, Debug, PartialEq, Eq, Structural)]
pub enum TelemetryFormat {
    Adsb,
    Mavlink,
    NetworkRemoteId,
}

/// The byte that stands for a format in a fingerprint.
pub open spec fn format_tag(format: TelemetryFormat) -> u8 {
    match format {
        TelemetryFormat::Adsb => 1,
        TelemetryFormat::Mavlink => 2,
        TelemetryFormat::NetworkRemoteId => 3,
    }
}

/// The key prefix under which a format's fingerprints are stored.
pub open spec fn namespace_of(format: TelemetryFormat) -> Seq<char> {
    match format {
        TelemetryFormat::Adsb => "tlm:adsb"@,
        TelemetryFormat::Mavlink => "tlm:mav"@,
        TelemetryFormat::NetworkRemoteId => "tlm:netrid"@,
    }
}

impl TelemetryFormat {
    /// The byte that stands for the format in a fingerprint.
    pub fn tag(&self) -> (r: u8)
        ensures
            r == format_tag(*self),
    {
        match self {
            TelemetryFormat::Adsb => 1,
            TelemetryFormat::Mavlink => 2,
            TelemetryFormat::NetworkRemoteId => 3,
        }
    }

    /// The key prefix under which the format's fingerprints are stored.
    pub fn namespace(&self) -> (r: &'static str)
        ensures
            r@ == namespace_of(*self),
    {
        match self {
            TelemetryFormat::Adsb => "tlm:adsb",
            TelemetryFormat::Mavlink => "tlm:mav",
            TelemetryFormat::NetworkRemoteId => "tlm:netrid",
        }
    }
}

/// One inbound request: the raw payload, its format and its arrival time in
/// seconds since the epoch.
#[derive(Debug)]
pub struct TelemetryEnvelope {
    pub payload: Vec<u8>,
    pub format: TelemetryFormat,
    pub arrival: u64,
}

impl TelemetryEnvelope {
    /// The envelope of a request that arrives now. A clock that reads a
    /// time before the epoch counts as reading the epoch.
    pub fn arriving(payload: Vec<u8>, format: TelemetryFormat) -> (r: Self)
        ensures
            r.payload == payload,
            r.format == format,
    {
        let now = unix_now();
        let arrival = if now < 0 {
            0
        } else {
            now as u64
        };
        TelemetryEnvelope { payload, format, arrival }
    }
}

/// The bit pattern that stands for a floating-point number when numbers are
/// compared: every NaN is the same NaN, and the two zeros are the same zero.
/// Any other number is told apart by its own bits.
pub open spec fn canonical_f32(bits: u32) -> u32 {
    if bits & 0x7fff_ffff > 0x7f80_0000 {
        0x7fc0_0000
    } else if bits & 0x7fff_ffff == 0 {
        0
    } else {
        bits
    }
}

/// The bit pattern by which a floating-point number is compared.
pub fn canonical_bits(bits: u32) -> (r: u32)
    ensures
        r == canonical_f32(bits),
{
    let magnitude = bits & 0x7fff_ffff;
    if magnitude > 0x7f80_0000 {
        0x7fc0_0000
    } else if magnitude == 0 {
        0
    } else {
        bits
    }
}

/// A canonical bit pattern stands for itself.
pub proof fn lemma_canonical_is_idempotent(bits: u32)
    ensures
        canonical_f32(canonical_f32(bits)) == canonical_f32(bits),
{
    assert(0x7fc0_0000u32 & 0x7fff_ffff > 0x7f80_0000) by (bit_vector);
    assert(0u32 & 0x7fff_ffff == 0) by (bit_vector);
}

/// Global location of the asset
#[derive(Clone, Copy, Debug, PartialEq, Eq, Structural)]
pub struct PositionData {
    /// current latitude
    pub latitude: u32,
    /// current longitude
    pub longitude: u32,
    /// current altitude in meters
    pub altitude_meters: u32,
}

/// Reduced telemetry from the asset
/// Reduced bandwidth for nominal flight
#[derive(Clone, Copy, Debug, PartialEq, Eq, Structural)]
pub struct BasicTelemetryData {
    /// Asset ID
    pub uuid: u128,
    /// Current Position
    pub position: PositionData,
    /// Data Checksum
    checksum: u32,
}

/// What a `BasicTelemetryData` holds.
pub struct BasicTelemetryView {
    pub uuid: u128,
    pub position: PositionData,
    pub checksum: u32,
}

impl View for BasicTelemetryData {
    type V = BasicTelemetryView;

    closed spec fn view(&self) -> BasicTelemetryView {
        BasicTelemetryView { uuid: self.uuid, position: self.position, checksum: self.checksum }
    }
}

impl BasicTelemetryData {
    /// A record with the checksum that came with it. The gateway trusts the
    /// decoder to have checked it and does not recompute it.
    pub fn new(uuid: u128, position: PositionData, checksum: u32) -> (r: Self)
        ensures
            r@ == (BasicTelemetryView { uuid, position, checksum }),
    {
        BasicTelemetryData { uuid, position, checksum }
    }

    /// Asset ID
    pub fn uuid(&self) -> (r: u128)
        ensures
            r == self@.uuid,
    {
        self.uuid
    }

    /// Current Position
    pub fn position(&self) -> (r: PositionData)
        ensures
            r == self@.position,
    {
        self.position
    }

    /// Data Checksum, as the reporter sent it
    pub fn checksum(&self) -> (r: u32)
        ensures
            r == self@.checksum,
    {
        self.checksum
    }
}

/// Who an aircraft is.
#[derive(Debug)]
pub struct AircraftId {
    pub identifier: String,
    pub timestamp_network: u64,
}

/// Where an aircraft is.
#[derive(Debug)]
pub struct AircraftPosition {
    pub identifier: String,
    pub position: PositionData,
    pub timestamp_network: u64,
}

/// The horizontal and vertical speed and the track angle of an aircraft.
#[derive(Clone, Copy, Debug, PartialEq, Eq, Structural)]
pub struct VelocityData {
    pub velocity_horizontal_ground_mps: u32,
    pub velocity_vertical_mps: u32,
    pub track_angle_degrees: u32,
}

/// How an aircraft moves.
#[derive(Debug)]
pub struct AircraftVelocity {
    pub identifier: String,
    pub velocity: VelocityData,
    pub timestamp_network: u64,
}

/// What an `AircraftId` says.
pub struct AircraftIdView {
    pub identifier: Seq<char>,
    pub timestamp_network: u64,
}

/// What an `AircraftPosition` says.
pub struct AircraftPositionView {
    pub identifier: Seq<char>,
    pub position: PositionData,
    pub timestamp_network: u64,
}

/// What an `AircraftVelocity` says.
pub struct AircraftVelocityView {
    pub identifier: Seq<char>,
    pub velocity: VelocityData,
    pub timestamp_network: u64,
}

impl View for AircraftId {
    type V = AircraftIdView;

    open spec fn view(&self) -> AircraftIdView {
        AircraftIdView {
            identifier: self.identifier@,
            timestamp_network: self.timestamp_network,
        }
    }
}

impl View for AircraftPosition {
    type V = AircraftPositionView;

    open spec fn view(&self) -> AircraftPositionView {
        AircraftPositionView {
            identifier: self.identifier@,
            position: self.position,
            timestamp_network: self.timestamp_network,
        }
    }
}

impl View for AircraftVelocity {
    type V = AircraftVelocityView;

    open spec fn view(&self) -> AircraftVelocityView {
        AircraftVelocityView {
            identifier: self.identifier@,
            velocity: self.velocity,
            timestamp_network: self.timestamp_network,
        }
    }
}

impl Clone for AircraftId {
    fn clone(&self) -> (r: Self)
        ensures
            r == *self,
    {
        AircraftId {
            identifier: self.identifier.clone(),
            timestamp_network: self.timestamp_network,
        }
    }
}

impl Clone for AircraftPosition {
    fn clone(&self) -> (r: Self)
        ensures
            r == *self,
    {
        AircraftPosition {
            identifier: self.identifier.clone(),
            position: self.position,
            timestamp_network: self.timestamp_network,
        }
    }
}

impl Clone for AircraftVelocity {
    fn clone(&self) -> (r: Self)
        ensures
            r == *self,
    {
        AircraftVelocity {
            identifier: self.identifier.clone(),
            velocity: self.velocity,
            timestamp_network: self.timestamp_network,
        }
    }
}

/// A decoded telemetry record.
#[derive(Debug)]
pub enum DecodedTelemetry {
    Identity(AircraftId),
    Position(AircraftPosition),
    Velocity(AircraftVelocity),
    BasicTelemetry(BasicTelemetryData),
}

/// What a `DecodedTelemetry` says.
pub enum DecodedTelemetryView {
    Identity(AircraftIdView),
    Position(AircraftPositionView),
    Velocity(AircraftVelocityView),
    BasicTelemetry(BasicTelemetryView),
}

impl View for DecodedTelemetry {
    type V = DecodedTelemetryView;

    open spec fn view(&self) -> DecodedTelemetryView {
        match self {
            DecodedTelemetry::Identity(id) => DecodedTelemetryView::Identity(id@),
            DecodedTelemetry::Position(position) => DecodedTelemetryView::Position(position@),
            DecodedTelemetry::Velocity(velocity) => DecodedTelemetryView::Velocity(velocity@),
            DecodedTelemetry::BasicTelemetry(basic) => DecodedTelemetryView::BasicTelemetry(
                basic@,
            ),
        }
    }
}

impl Clone for DecodedTelemetry {
    fn clone(&self) -> (r: Self)
        ensures
            r == *self,
    {
        match self {
            DecodedTelemetry::Identity(id) => DecodedTelemetry::Identity(id.clone()),
            DecodedTelemetry::Position(position) => DecodedTelemetry::Position(position.clone()),
            DecodedTelemetry::Velocity(velocity) => DecodedTelemetry::Velocity(velocity.clone()),
            DecodedTelemetry::BasicTelemetry(basic) => DecodedTelemetry::BasicTelemetry(*basic),
        }
    }
}

} // verus!
