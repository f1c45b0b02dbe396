//! Shared record types: the closed set of aircraft types, the
//! identity record the ingest path emits, and the two tables that
//! derive an aircraft type from the wire encodings.

use crate::msg::adsb::{AdsbFrame, TypeCoding};
use crate::msg::netrid::UaType;
use vstd::prelude::*;

verus! {

/// The closed set of aircraft types the spatial service knows.
#[derive(Debug, Copy, Clone, PartialEq, Eq, Structural)]
pub enum AircraftType {
    /// Unspecified.
    Undeclared,
    /// Aeroplane.
    Aeroplane,
    /// Rotorcraft.
    Rotorcraft,
    /// Gyroplane.
    Gyroplane,
    /// Hybrid lift.
    Hybridlift,
    /// Ornithopter.
    Ornithopter,
    /// Glider.
    Glider,
    /// Kite.
    Kite,
    /// Free balloon.
    Freeballoon,
    /// Captive balloon.
    Captiveballoon,
    /// Airship.
    Airship,
    /// Unpowered (free fall or parachute).
    Unpowered,
    /// Rocket.
    Rocket,
    /// Tethered (powered aircraft).
    Tethered,
    /// Ground obstacle.
    Groundobstacle,
    /// Other.
    Other,
}

/// The aircraft type a Remote-ID UA type maps to, one to one.
pub open spec fn spec_aircraft_type_of_ua(t: UaType) -> AircraftType {
    match t {
        UaType::Undeclared => AircraftType::Undeclared,
        UaType::Aeroplane => AircraftType::Aeroplane,
        UaType::Rotorcraft => AircraftType::Rotorcraft,
        UaType::Gyroplane => AircraftType::Gyroplane,
        UaType::HybridLift => AircraftType::Hybridlift,
        UaType::Ornithopter => AircraftType::Ornithopter,
        UaType::Glider => AircraftType::Glider,
        UaType::Kite => AircraftType::Kite,
        UaType::FreeBalloon => AircraftType::Freeballoon,
        UaType::CaptiveBalloon => AircraftType::Captiveballoon,
        UaType::Airship => AircraftType::Airship,
        UaType::Unpowered => AircraftType::Unpowered,
        UaType::Rocket => AircraftType::Rocket,
        UaType::Tethered => AircraftType::Tethered,
        UaType::GroundObstacle => AircraftType::Groundobstacle,
        UaType::Other => AircraftType::Other,
    }
}

impl From<UaType> for AircraftType {
    /// Map a Remote-ID UA type onto the matching aircraft type.
    fn from(t: UaType) -> (r: AircraftType) {
        match t {
            UaType::Undeclared => AircraftType::Undeclared,
            UaType::Aeroplane => AircraftType::Aeroplane,
            UaType::Rotorcraft => AircraftType::Rotorcraft,
            UaType::Gyroplane => AircraftType::Gyroplane,
            UaType::HybridLift => AircraftType::Hybridlift,
            UaType::Ornithopter => AircraftType::Ornithopter,
            UaType::Glider => AircraftType::Glider,
            UaType::Kite => AircraftType::Kite,
            UaType::FreeBalloon => AircraftType::Freeballoon,
            UaType::CaptiveBalloon => AircraftType::Captiveballoon,
            UaType::Airship => AircraftType::Airship,
            UaType::Unpowered => AircraftType::Unpowered,
            UaType::Rocket => AircraftType::Rocket,
            UaType::Tethered => AircraftType::Tethered,
            UaType::GroundObstacle => AircraftType::Groundobstacle,
            UaType::Other => AircraftType::Other,
        }
    }
}

impl vstd::std_specs::convert::FromSpecImpl<UaType> for AircraftType {
    open spec fn obeys_from_spec() -> bool {
        true
    }

    open spec fn from_spec(t: UaType) -> AircraftType {
        spec_aircraft_type_of_ua(t)
    }
}

/// The aircraft type an ADS-B identification message derives from its
/// nested type coding and 3-bit category, table applied exactly:
/// type coding D always maps to Other, as does category zero; coding C
/// gives ground obstacles for categories 4-7; coding B gives gliders,
/// airships, unpowered aircraft and rockets; coding A category 7 is a
/// rotorcraft; everything else is Other.
pub open spec fn spec_aircraft_type_adsb(tc: TypeCoding, ca: u8) -> AircraftType {
    if tc is D {
        AircraftType::Other
    } else if ca == 0 {
        AircraftType::Other
    } else if tc is C && (ca == 1 || ca == 3) {
        AircraftType::Other
    } else if tc is C && (4 <= ca <= 7) {
        AircraftType::Groundobstacle
    } else if tc is B && (ca == 1 || ca == 4) {
        AircraftType::Glider
    } else if tc is B && ca == 2 {
        AircraftType::Airship
    } else if tc is B && ca == 3 {
        AircraftType::Unpowered
    } else if tc is B && ca == 7 {
        AircraftType::Rocket
    } else if tc is A && ca == 7 {
        AircraftType::Rotorcraft
    } else {
        AircraftType::Other
    }
}

/// Decode an aircraft type from ADS-B message type coding and
/// aircraft category.
pub fn get_aircraft_type(type_coding: TypeCoding, aircraft_category: u8) -> (r: AircraftType)
    ensures
        r == spec_aircraft_type_adsb(type_coding, aircraft_category),
{
    match (type_coding, aircraft_category) {
        (TypeCoding::D, _) => AircraftType::Other,
        (_, 0) => AircraftType::Other,
        (TypeCoding::C, 1) => AircraftType::Other,
        (TypeCoding::C, 3) => AircraftType::Other,
        (TypeCoding::C, 4) => AircraftType::Groundobstacle,
        (TypeCoding::C, 5) => AircraftType::Groundobstacle,
        (TypeCoding::C, 6) => AircraftType::Groundobstacle,
        (TypeCoding::C, 7) => AircraftType::Groundobstacle,
        (TypeCoding::B, 1) => AircraftType::Glider,
        (TypeCoding::B, 2) => AircraftType::Airship,
        (TypeCoding::B, 3) => AircraftType::Unpowered,
        (TypeCoding::B, 4) => AircraftType::Glider,
        (TypeCoding::B, 5) => AircraftType::Other,
        (TypeCoding::B, 7) => AircraftType::Rocket,
        (TypeCoding::A, 7) => AircraftType::Rotorcraft,
        _ => AircraftType::Other,
    }
}


/// A hashed key combining a primary and a secondary key, as the
/// dedup cache keys bit-packed frames: sixteen times the primary key
/// plus the primary key plus the secondary key, wrapping.
pub open spec fn spec_hashed_key(p: u32, s: u32) -> u32 {
    (((p << 4) + p + s) % 0x100000000) as u32
}

/// Combine two keys per [`spec_hashed_key`].
pub fn hashed_key_value(p: u32, s: u32) -> (r: u32)
    ensures
        r == spec_hashed_key(p, s),
{
    let shifted: u32 = p << 4;
    let sum: u64 = (shifted as u64) + (p as u64) + (s as u64);
    proof {
        assert((sum as u32) as int == sum as int % 0x100000000) by (bit_vector);
    }
    #[verifier::truncate] (sum as u32)
}

/// A trait for getting a hashed key from a bit-packed frame.
pub trait Keys {
    /// Often the aircraft ID.
    spec fn spec_primary_key(&self) -> u32;

    /// The sequence number, timestamp, or checksum.
    spec fn spec_secondary_key(&self) -> u32;

    /// Often the aircraft ID.
    fn primary_key(&self) -> (r: u32)
        ensures
            r == self.spec_primary_key(),
    ;

    /// The sequence number, timestamp, or checksum.
    fn secondary_key(&self) -> (r: u32)
        ensures
            r == self.spec_secondary_key(),
    ;

    /// A key combining the primary and secondary keys; a multiply by
    /// a large odd number avoids the collisions a bitwise XOR has.
    fn hashed_key(&self) -> (r: u32)
        ensures
            r == spec_hashed_key(self.spec_primary_key(), self.spec_secondary_key()),
    ;
}

impl Keys for AdsbFrame {
    /// The 24-bit ICAO address.
    open spec fn spec_primary_key(&self) -> u32 {
        ((self.icao@[0] as u32) * 0x10000 + (self.icao@[1] as u32) * 0x100 + (
        self.icao@[2] as u32)) as u32
    }

    /// The frame's parity field.
    open spec fn spec_secondary_key(&self) -> u32 {
        self.parity
    }

    fn primary_key(&self) -> (r: u32) {
        crate::msg::adsb::get_adsb_icao_address(&self.icao)
    }

    fn secondary_key(&self) -> (r: u32) {
        self.parity
    }

    fn hashed_key(&self) -> (r: u32) {
        let p = self.primary_key();
        let s = self.secondary_key();
        hashed_key_value(p, s)
    }
}

/// Identity record emitted for an aircraft: exactly one of the
/// identifier and the session identifier is populated, per the
/// Remote-ID identification type.
#[derive(Debug, Clone)]
pub struct AircraftId {
    /// Long-lived identifier of the aircraft.
    pub identifier: Option<String>,
    /// Session identifier, for UTM-assigned and session-specific ids.
    pub session_id: Option<String>,
    /// The declared aircraft type.
    pub aircraft_type: AircraftType,
    /// Milliseconds since the epoch when the decode completed.
    pub timestamp_network: u64,
    /// Milliseconds since the epoch claimed by the asset, if any.
    pub timestamp_asset: Option<u64>,
}

/// ADS-B message metadata handed to the raw-packet archive.
#[derive(Debug, Clone, Copy, PartialEq, Eq, Structural)]
pub struct HeaderData {
    /// Header ICAO address.
    pub icao_address: i64,
    /// Header message type.
    pub message_type: i64,
}

} // verus!
