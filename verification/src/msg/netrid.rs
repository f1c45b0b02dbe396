//! Bit-exact codec for Network Remote-ID frames.
//!
//! A frame is 25 bytes: a 1-byte header (message type in the high
//! nibble, protocol version in the low nibble) and a 24-byte message.
//! Multi-byte numeric fields of the location message are little-endian;
//! bit fields are MSB-first.

use vstd::prelude::*;

verus! {

/// Total size of a Remote-ID frame.
pub const REMOTE_ID_PACKET_LENGTH: usize = 25;

/// Remote ID protocol version this service speaks.
pub const REMOTE_ID_PROTOCOL_VERSION: u8 = 0x2;

/// A field of a frame held a value outside its enumeration.
#[derive(Debug, Copy, Clone, PartialEq, Eq, Structural)]
pub enum UnpackError {
    /// A bit field carried a reserved or unknown enumeration value.
    InvalidField,
}

/// Remote ID message types.
#[derive(Debug, Copy, Clone, PartialEq, Eq, Structural)]
pub enum MessageType {
    /// Basic Remote ID message.
    Basic,
    /// Location Remote ID message.
    Location,
    /// Authentication Remote ID message.
    Authentication,
    /// Self ID Remote ID message.
    SelfId,
    /// System Remote ID message.
    System,
    /// Operator ID Remote ID message.
    OperatorId,
    /// Message Pack Remote ID message.
    MessagePack,
}

/// The wire value of a message type.
pub open spec fn spec_message_type_value(t: MessageType) -> u8 {
    match t {
        MessageType::Basic => 0x0,
        MessageType::Location => 0x1,
        MessageType::Authentication => 0x2,
        MessageType::SelfId => 0x3,
        MessageType::System => 0x4,
        MessageType::OperatorId => 0x5,
        MessageType::MessagePack => 0xF,
    }
}

impl MessageType {
    /// The wire value of this message type.
    pub fn as_u8(&self) -> (r: u8)
        ensures
            r == spec_message_type_value(*self),
    {
        match self {
            MessageType::Basic => 0x0,
            MessageType::Location => 0x1,
            MessageType::Authentication => 0x2,
            MessageType::SelfId => 0x3,
            MessageType::System => 0x4,
            MessageType::OperatorId => 0x5,
            MessageType::MessagePack => 0xF,
        }
    }

    /// The message type a wire value names, if any.
    pub fn from_u8(v: u8) -> (r: Option<MessageType>)
        ensures
            r matches Some(t) ==> spec_message_type_value(t) == v,
            r is None <==> (6 <= v && v != 0xF),
    {
        match v {
            0x0 => Some(MessageType::Basic),
            0x1 => Some(MessageType::Location),
            0x2 => Some(MessageType::Authentication),
            0x3 => Some(MessageType::SelfId),
            0x4 => Some(MessageType::System),
            0x5 => Some(MessageType::OperatorId),
            0xF => Some(MessageType::MessagePack),
            _ => None,
        }
    }
}

/// Unmanned aircraft type.
#[derive(Debug, Copy, Clone, PartialEq, Eq, Structural)]
pub enum UaType {
    /// Unspecified.
    Undeclared,
    /// Aeroplane.
    Aeroplane,
    /// Rotorcraft.
    Rotorcraft,
    /// Gyroplane.
    Gyroplane,
    /// Hybrid lift.
    HybridLift,
    /// Ornithopter.
    Ornithopter,
    /// Glider.
    Glider,
    /// Kite.
    Kite,
    /// Free balloon.
    FreeBalloon,
    /// Captive balloon.
    CaptiveBalloon,
    /// Airship.
    Airship,
    /// Unpowered (free fall or parachute).
    Unpowered,
    /// Rocket.
    Rocket,
    /// Tethered (powered aircraft).
    Tethered,
    /// Ground obstacle (windmill, skyscraper, and the like).
    GroundObstacle,
    /// Other.
    Other,
}

/// The wire value of an unmanned aircraft type.
pub open spec fn spec_ua_type_value(t: UaType) -> u8 {
    match t {
        UaType::Undeclared => 0x0,
        UaType::Aeroplane => 0x1,
        UaType::Rotorcraft => 0x2,
        UaType::Gyroplane => 0x3,
        UaType::HybridLift => 0x4,
        UaType::Ornithopter => 0x5,
        UaType::Glider => 0x6,
        UaType::Kite => 0x7,
        UaType::FreeBalloon => 0x8,
        UaType::CaptiveBalloon => 0x9,
        UaType::Airship => 0xA,
        UaType::Unpowered => 0xB,
        UaType::Rocket => 0xC,
        UaType::Tethered => 0xD,
        UaType::GroundObstacle => 0xE,
        UaType::Other => 0xF,
    }
}

impl UaType {
    /// The wire value of this aircraft type.
    pub fn as_u8(&self) -> (r: u8)
        ensures
            r == spec_ua_type_value(*self),
    {
        match self {
            UaType::Undeclared => 0x0,
            UaType::Aeroplane => 0x1,
            UaType::Rotorcraft => 0x2,
            UaType::Gyroplane => 0x3,
            UaType::HybridLift => 0x4,
            UaType::Ornithopter => 0x5,
            UaType::Glider => 0x6,
            UaType::Kite => 0x7,
            UaType::FreeBalloon => 0x8,
            UaType::CaptiveBalloon => 0x9,
            UaType::Airship => 0xA,
            UaType::Unpowered => 0xB,
            UaType::Rocket => 0xC,
            UaType::Tethered => 0xD,
            UaType::GroundObstacle => 0xE,
            UaType::Other => 0xF,
        }
    }

    /// The aircraft type a nibble names; every nibble names one.
    pub fn from_u8(v: u8) -> (r: UaType)
        requires
            v < 16,
        ensures
            spec_ua_type_value(r) == v,
    {
        match v {
            0x0 => UaType::Undeclared,
            0x1 => UaType::Aeroplane,
            0x2 => UaType::Rotorcraft,
            0x3 => UaType::Gyroplane,
            0x4 => UaType::HybridLift,
            0x5 => UaType::Ornithopter,
            0x6 => UaType::Glider,
            0x7 => UaType::Kite,
            0x8 => UaType::FreeBalloon,
            0x9 => UaType::CaptiveBalloon,
            0xA => UaType::Airship,
            0xB => UaType::Unpowered,
            0xC => UaType::Rocket,
            0xD => UaType::Tethered,
            0xE => UaType::GroundObstacle,
            _ => UaType::Other,
        }
    }
}

/// Identification type of the basic message.
#[derive(Debug, Copy, Clone, PartialEq, Eq, Structural)]
pub enum IdType {
    /// Unspecified.
    Unspecified,
    /// Serial number.
    SerialNumber,
    /// Civil aviation authority assigned.
    CaaAssigned,
    /// UTM assigned.
    UtmAssigned,
    /// Specific session.
    SpecificSession,
}

/// The wire value of an identification type.
pub open spec fn spec_id_type_value(t: IdType) -> u8 {
    match t {
        IdType::Unspecified => 0x0,
        IdType::SerialNumber => 0x1,
        IdType::CaaAssigned => 0x2,
        IdType::UtmAssigned => 0x3,
        IdType::SpecificSession => 0x4,
    }
}

impl IdType {
    /// The wire value of this identification type.
    pub fn as_u8(&self) -> (r: u8)
        ensures
            r == spec_id_type_value(*self),
    {
        match self {
            IdType::Unspecified => 0x0,
            IdType::SerialNumber => 0x1,
            IdType::CaaAssigned => 0x2,
            IdType::UtmAssigned => 0x3,
            IdType::SpecificSession => 0x4,
        }
    }

    /// The identification type a wire value names, if any.
    pub fn from_u8(v: u8) -> (r: Option<IdType>)
        ensures
            r matches Some(t) ==> spec_id_type_value(t) == v,
            r is None <==> v > 4,
    {
        match v {
            0x0 => Some(IdType::Unspecified),
            0x1 => Some(IdType::SerialNumber),
            0x2 => Some(IdType::CaaAssigned),
            0x3 => Some(IdType::UtmAssigned),
            0x4 => Some(IdType::SpecificSession),
            _ => None,
        }
    }
}

/// Operational status of the aircraft.
#[derive(Debug, Copy, Clone, PartialEq, Eq, Structural)]
pub enum OperationalStatus {
    /// Unspecified.
    Undeclared,
    /// On the ground.
    Ground,
    /// Airborne.
    Airborne,
    /// Emergency.
    Emergency,
    /// System failure.
    SystemFailure,
}

/// The wire value of an operational status; values 5-15 are reserved.
pub open spec fn spec_operational_status_value(s: OperationalStatus) -> u8 {
    match s {
        OperationalStatus::Undeclared => 0x0,
        OperationalStatus::Ground => 0x1,
        OperationalStatus::Airborne => 0x2,
        OperationalStatus::Emergency => 0x3,
        OperationalStatus::SystemFailure => 0x4,
    }
}

impl OperationalStatus {
    /// The wire value of this status.
    pub fn as_u8(&self) -> (r: u8)
        ensures
            r == spec_operational_status_value(*self),
    {
        match self {
            OperationalStatus::Undeclared => 0x0,
            OperationalStatus::Ground => 0x1,
            OperationalStatus::Airborne => 0x2,
            OperationalStatus::Emergency => 0x3,
            OperationalStatus::SystemFailure => 0x4,
        }
    }

    /// The status a wire value names, if any.
    pub fn from_u8(v: u8) -> (r: Option<OperationalStatus>)
        ensures
            r matches Some(s) ==> spec_operational_status_value(s) == v,
            r is None <==> v > 4,
    {
        match v {
            0x0 => Some(OperationalStatus::Undeclared),
            0x1 => Some(OperationalStatus::Ground),
            0x2 => Some(OperationalStatus::Airborne),
            0x3 => Some(OperationalStatus::Emergency),
            0x4 => Some(OperationalStatus::SystemFailure),
            _ => None,
        }
    }
}

/// Horizontal accuracy, in meters.
#[derive(Debug, Copy, Clone, PartialEq, Eq, Structural)]
pub enum HorizontalAccuracyMeters {
    /// Greater than or equal to 18520 meters.
    Gte18520,
    /// Less than 18520 meters.
    Lt18520,
    /// Less than 7408 meters.
    Lt7408,
    /// Less than 3704 meters.
    Lt3704,
    /// Less than 1852 meters.
    Lt1852,
    /// Less than 926 meters.
    Lt926,
    /// Less than 555.6 meters.
    Lt555_6,
    /// Less than 185.2 meters.
    Lt185_2,
    /// Less than 92.6 meters.
    Lt92_6,
    /// Less than 30 meters.
    Lt30,
    /// Less than 10 meters.
    Lt10,
    /// Less than 3 meters.
    Lt3,
    /// Less than 1 meter.
    Lt1,
}

/// The wire value of a horizontal accuracy; values 13-15 are reserved.
pub open spec fn spec_horizontal_accuracy_value(a: HorizontalAccuracyMeters) -> u8 {
    match a {
        HorizontalAccuracyMeters::Gte18520 => 0x0,
        HorizontalAccuracyMeters::Lt18520 => 0x1,
        HorizontalAccuracyMeters::Lt7408 => 0x2,
        HorizontalAccuracyMeters::Lt3704 => 0x3,
        HorizontalAccuracyMeters::Lt1852 => 0x4,
        HorizontalAccuracyMeters::Lt926 => 0x5,
        HorizontalAccuracyMeters::Lt555_6 => 0x6,
        HorizontalAccuracyMeters::Lt185_2 => 0x7,
        HorizontalAccuracyMeters::Lt92_6 => 0x8,
        HorizontalAccuracyMeters::Lt30 => 0x9,
        HorizontalAccuracyMeters::Lt10 => 0xA,
        HorizontalAccuracyMeters::Lt3 => 0xB,
        HorizontalAccuracyMeters::Lt1 => 0xC,
    }
}

impl HorizontalAccuracyMeters {
    /// The wire value of this accuracy.
    pub fn as_u8(&self) -> (r: u8)
        ensures
            r == spec_horizontal_accuracy_value(*self),
    {
        match self {
            HorizontalAccuracyMeters::Gte18520 => 0x0,
            HorizontalAccuracyMeters::Lt18520 => 0x1,
            HorizontalAccuracyMeters::Lt7408 => 0x2,
            HorizontalAccuracyMeters::Lt3704 => 0x3,
            HorizontalAccuracyMeters::Lt1852 => 0x4,
            HorizontalAccuracyMeters::Lt926 => 0x5,
            HorizontalAccuracyMeters::Lt555_6 => 0x6,
            HorizontalAccuracyMeters::Lt185_2 => 0x7,
            HorizontalAccuracyMeters::Lt92_6 => 0x8,
            HorizontalAccuracyMeters::Lt30 => 0x9,
            HorizontalAccuracyMeters::Lt10 => 0xA,
            HorizontalAccuracyMeters::Lt3 => 0xB,
            HorizontalAccuracyMeters::Lt1 => 0xC,
        }
    }

    /// The accuracy a wire value names, if any.
    pub fn from_u8(v: u8) -> (r: Option<HorizontalAccuracyMeters>)
        ensures
            r matches Some(a) ==> spec_horizontal_accuracy_value(a) == v,
            r is None <==> v > 0xC,
    {
        match v {
            0x0 => Some(HorizontalAccuracyMeters::Gte18520),
            0x1 => Some(HorizontalAccuracyMeters::Lt18520),
            0x2 => Some(HorizontalAccuracyMeters::Lt7408),
            0x3 => Some(HorizontalAccuracyMeters::Lt3704),
            0x4 => Some(HorizontalAccuracyMeters::Lt1852),
            0x5 => Some(HorizontalAccuracyMeters::Lt926),
            0x6 => Some(HorizontalAccuracyMeters::Lt555_6),
            0x7 => Some(HorizontalAccuracyMeters::Lt185_2),
            0x8 => Some(HorizontalAccuracyMeters::Lt92_6),
            0x9 => Some(HorizontalAccuracyMeters::Lt30),
            0xA => Some(HorizontalAccuracyMeters::Lt10),
            0xB => Some(HorizontalAccuracyMeters::Lt3),
            0xC => Some(HorizontalAccuracyMeters::Lt1),
            _ => None,
        }
    }
}

/// Vertical accuracy, in meters.
#[derive(Debug, Copy, Clone, PartialEq, Eq, Structural)]
pub enum VerticalAccuracyMeters {
    /// Unknown, or greater than or equal to 150 meters.
    Gte150Unknown,
    /// Less than 150 meters.
    Lt150,
    /// Less than 45 meters.
    Lt45,
    /// Less than 25 meters.
    Lt25,
    /// Less than 10 meters.
    Lt10,
    /// Less than 3 meters.
    Lt3,
    /// Less than 1 meter.
    Lt1,
}

/// The wire value of a vertical accuracy; values 7-15 are reserved.
pub open spec fn spec_vertical_accuracy_value(a: VerticalAccuracyMeters) -> u8 {
    match a {
        VerticalAccuracyMeters::Gte150Unknown => 0x0,
        VerticalAccuracyMeters::Lt150 => 0x1,
        VerticalAccuracyMeters::Lt45 => 0x2,
        VerticalAccuracyMeters::Lt25 => 0x3,
        VerticalAccuracyMeters::Lt10 => 0x4,
        VerticalAccuracyMeters::Lt3 => 0x5,
        VerticalAccuracyMeters::Lt1 => 0x6,
    }
}

impl VerticalAccuracyMeters {
    /// The wire value of this accuracy.
    pub fn as_u8(&self) -> (r: u8)
        ensures
            r == spec_vertical_accuracy_value(*self),
    {
        match self {
            VerticalAccuracyMeters::Gte150Unknown => 0x0,
            VerticalAccuracyMeters::Lt150 => 0x1,
            VerticalAccuracyMeters::Lt45 => 0x2,
            VerticalAccuracyMeters::Lt25 => 0x3,
            VerticalAccuracyMeters::Lt10 => 0x4,
            VerticalAccuracyMeters::Lt3 => 0x5,
            VerticalAccuracyMeters::Lt1 => 0x6,
        }
    }

    /// The accuracy a wire value names, if any.
    pub fn from_u8(v: u8) -> (r: Option<VerticalAccuracyMeters>)
        ensures
            r matches Some(a) ==> spec_vertical_accuracy_value(a) == v,
            r is None <==> v > 6,
    {
        match v {
            0x0 => Some(VerticalAccuracyMeters::Gte150Unknown),
            0x1 => Some(VerticalAccuracyMeters::Lt150),
            0x2 => Some(VerticalAccuracyMeters::Lt45),
            0x3 => Some(VerticalAccuracyMeters::Lt25),
            0x4 => Some(VerticalAccuracyMeters::Lt10),
            0x5 => Some(VerticalAccuracyMeters::Lt3),
            0x6 => Some(VerticalAccuracyMeters::Lt1),
            _ => None,
        }
    }
}

/// Speed accuracy, in meters per second.
#[derive(Debug, Copy, Clone, PartialEq, Eq, Structural)]
pub enum SpeedAccuracyMetersPerSecond {
    /// Unknown, or greater than or equal to 10 meters per second.
    Gte10Unknown,
    /// Less than 10 meters per second.
    Lt10,
    /// Less than 3 meters per second.
    Lt3,
    /// Less than 1 meter per second.
    Lt1,
    /// Less than 0.3 meters per second.
    Lt0_3,
}

/// The wire value of a speed accuracy; values 5-15 are reserved.
pub open spec fn spec_speed_accuracy_value(a: SpeedAccuracyMetersPerSecond) -> u8 {
    match a {
        SpeedAccuracyMetersPerSecond::Gte10Unknown => 0x0,
        SpeedAccuracyMetersPerSecond::Lt10 => 0x1,
        SpeedAccuracyMetersPerSecond::Lt3 => 0x2,
        SpeedAccuracyMetersPerSecond::Lt1 => 0x3,
        SpeedAccuracyMetersPerSecond::Lt0_3 => 0x4,
    }
}

impl SpeedAccuracyMetersPerSecond {
    /// The wire value of this accuracy.
    pub fn as_u8(&self) -> (r: u8)
        ensures
            r == spec_speed_accuracy_value(*self),
    {
        match self {
            SpeedAccuracyMetersPerSecond::Gte10Unknown => 0x0,
            SpeedAccuracyMetersPerSecond::Lt10 => 0x1,
            SpeedAccuracyMetersPerSecond::Lt3 => 0x2,
            SpeedAccuracyMetersPerSecond::Lt1 => 0x3,
            SpeedAccuracyMetersPerSecond::Lt0_3 => 0x4,
        }
    }

    /// The accuracy a wire value names, if any.
    pub fn from_u8(v: u8) -> (r: Option<SpeedAccuracyMetersPerSecond>)
        ensures
            r matches Some(a) ==> spec_speed_accuracy_value(a) == v,
            r is None <==> v > 4,
    {
        match v {
            0x0 => Some(SpeedAccuracyMetersPerSecond::Gte10Unknown),
            0x1 => Some(SpeedAccuracyMetersPerSecond::Lt10),
            0x2 => Some(SpeedAccuracyMetersPerSecond::Lt3),
            0x3 => Some(SpeedAccuracyMetersPerSecond::Lt1),
            0x4 => Some(SpeedAccuracyMetersPerSecond::Lt0_3),
            _ => None,
        }
    }
}

/// Operator location type.
#[derive(Debug, Copy, Clone, PartialEq, Eq, Structural)]
pub enum OperatorLocationSource {
    /// Takeoff location.
    Takeoff,
    /// Mobile operator location.
    Dynamic,
    /// Fixed operator location.
    Fixed,
}

/// Unmanned system certification region.
#[derive(Debug, Copy, Clone, PartialEq, Eq, Structural)]
pub enum UaClassification {
    /// Unspecified.
    Undeclared,
    /// EU (European Union) classification.
    EuropeanUnion,
}

/// European Union UA category.
#[derive(Debug, Copy, Clone, PartialEq, Eq, Structural)]
pub enum EuropeanUnionCategory {
    /// Unspecified.
    Undefined,
    /// Open category.
    Open,
    /// Specific category.
    Specific,
    /// Certified category.
    Certified,
}

/// European Union UA class.
#[derive(Debug, Copy, Clone, PartialEq, Eq, Structural)]
pub enum EuropeanUnionClass {
    /// Unspecified.
    Undefined,
    /// Class 0 (under 250 g maximum takeoff mass).
    C0,
    /// Class 1 (under 900 g maximum takeoff mass).
    C1,
    /// Class 2 (under 4 kg maximum takeoff mass).
    C2,
    /// Class 3 (under 25 kg maximum takeoff mass).
    C3,
    /// Class 4.
    C4,
    /// Class 5.
    C5,
    /// Class 6.
    C6,
}

/// Authentication type.
#[derive(Debug, Copy, Clone, PartialEq, Eq, Structural)]
pub enum UaAuthenticationType {
    /// Unspecified.
    Unspecified,
    /// UAS ID signature.
    UasIdSignature,
    /// Operator ID signature.
    OperatorIdSignature,
    /// Message set signature.
    MessageSetSignature,
    /// Network Remote ID.
    NetworkRemoteId,
    /// Specific authentication method.
    SpecificAuthMethod,
}

/// Height reference of the location message.
#[derive(Debug, Copy, Clone, PartialEq, Eq, Structural)]
pub enum HeightType {
    /// Height above takeoff.
    AboveTakeoff,
    /// Height above ground level.
    AboveGroundLevel,
}

/// The bit a height type packs to.
pub open spec fn spec_height_type_bit(h: HeightType) -> u8 {
    match h {
        HeightType::AboveTakeoff => 0,
        HeightType::AboveGroundLevel => 1,
    }
}

/// East/west direction segment of the track.
#[derive(Debug, Copy, Clone, PartialEq, Eq, Structural)]
pub enum EastWestDirection {
    /// East (track under 180 degrees).
    East,
    /// West (track at or over 180 degrees).
    West,
}

/// The bit an east/west direction packs to.
pub open spec fn spec_ew_direction_bit(d: EastWestDirection) -> u8 {
    match d {
        EastWestDirection::East => 0,
        EastWestDirection::West => 1,
    }
}

/// Speed multiplier of the encoded ground speed.
#[derive(Debug, Copy, Clone, PartialEq, Eq, Structural)]
pub enum SpeedMultiplier {
    /// Decoded speed is the field times 0.25.
    X0_25,
    /// Decoded speed is the field times 0.75 plus 63.75.
    X0_75,
}

/// The bit a speed multiplier packs to.
pub open spec fn spec_speed_multiplier_bit(m: SpeedMultiplier) -> u8 {
    match m {
        SpeedMultiplier::X0_25 => 0,
        SpeedMultiplier::X0_75 => 1,
    }
}

/// Remote ID packet frame header: message type in the high nibble,
/// protocol version in the low nibble.
#[derive(Debug, Clone, Copy, PartialEq, Eq, Structural)]
pub struct Header {
    /// Message type (mandatory).
    pub message_type: MessageType,
    /// Protocol version (mandatory); see [`REMOTE_ID_PROTOCOL_VERSION`].
    pub protocol_version: u8,
}

impl Header {
    /// Field ranges that hold of every decoded header.
    pub open spec fn wf(&self) -> bool {
        self.protocol_version < 16
    }

    /// The byte this header packs to.
    pub open spec fn spec_byte(&self) -> u8 {
        ((spec_message_type_value(self.message_type) << 4) | self.protocol_version) as u8
    }
}

impl Default for Header {
    /// A basic-message header at the current protocol version.
    fn default() -> (r: Header)
        ensures
            r.message_type is Basic,
            r.protocol_version == REMOTE_ID_PROTOCOL_VERSION,
    {
        Header { message_type: MessageType::Basic, protocol_version: REMOTE_ID_PROTOCOL_VERSION }
    }
}

/// Remote ID packet frame: one header byte and 24 message bytes.
#[derive(Debug, Clone, Copy, PartialEq, Eq)]
pub struct Frame {
    /// The frame header.
    pub header: Header,
    /// The message body.
    pub message: [u8; 24],
}

impl Frame {
    /// Field ranges that hold of every decoded frame.
    pub open spec fn wf(&self) -> bool {
        self.header.wf()
    }

    /// The 25 bytes this frame packs to.
    pub open spec fn spec_bytes(&self) -> Seq<u8> {
        seq![self.header.spec_byte()] + self.message@
    }

    /// Pack the frame into its 25 bytes.
    pub fn pack(&self) -> (r: Vec<u8>)
        requires
            self.wf(),
        ensures
            r@ == self.spec_bytes(),
            r@.len() == REMOTE_ID_PACKET_LENGTH,
    {
        let mut out: Vec<u8> = Vec::new();
        out.push((self.header.message_type.as_u8() << 4) | self.header.protocol_version);
        let mut i: usize = 0;
        while i < 24
            invariant
                i <= 24,
                out@.len() == 1 + i,
                out@[0] == self.header.spec_byte(),
                forall|j: int| 0 <= j < i ==> out@[j + 1] == self.message@[j],
            decreases 24 - i,
        {
            out.push(self.message[i]);
            i += 1;
        }
        proof {
            assert(out@ =~= self.spec_bytes());
        }
        out
    }

    /// Unpack 25 bytes into a frame.
    ///
    /// Exactly the packets whose high header nibble names a known
    /// message type unpack successfully, and an unpacked frame packs
    /// back to the very bytes it came from.
    pub fn unpack(src: &[u8; 25]) -> (r: Result<Frame, UnpackError>)
        ensures
            r matches Ok(f) ==> f.wf() && f.spec_bytes() == src@,
            r is Err <==> (6 <= src@[0] >> 4 && src@[0] >> 4 != 0xF),
            r matches Err(e) ==> e is InvalidField,
    {
        let b0: u8 = src[0];
        let mt_val: u8 = b0 >> 4;
        let pv: u8 = b0 & 0x0f;
        let Some(message_type) = MessageType::from_u8(mt_val) else {
            return Err(UnpackError::InvalidField);
        };
        let mut message: [u8; 24] = [0; 24];
        let mut i: usize = 0;
        while i < 24
            invariant
                i <= 24,
                forall|j: int| 0 <= j < i ==> message@[j] == src@[j + 1],
            decreases 24 - i,
        {
            message[i] = src[i + 1];
            i += 1;
        }
        let f = Frame { header: Header { message_type, protocol_version: pv }, message };
        proof {
            let mt = spec_message_type_value(message_type);
            assert(((b0 >> 4) << 4) | (b0 & 0x0f) == b0 && (b0 & 0x0f) < 16) by (bit_vector);
            assert(f.spec_bytes() =~= src@);
        }
        Ok(f)
    }
}

/// Remote ID messages this service decodes.
#[derive(Debug, Clone, Copy, PartialEq, Eq)]
pub enum RidMessage {
    /// Remote ID basic message.
    Basic(BasicMessage),
    /// Remote ID location message.
    Location(LocationMessage),
}

impl Frame {
    /// Decode the typed message this frame carries. Basic and
    /// location messages decode (if their enumerated fields are
    /// valid); every other message type is rejected.
    pub fn decode_message(&self) -> (r: Result<RidMessage, UnpackError>)
        ensures
            r matches Ok(RidMessage::Basic(m)) ==> self.header.message_type is Basic
                && m.spec_bytes() == self.message@,
            r matches Ok(RidMessage::Location(m)) ==> self.header.message_type is Location && m.wf()
                && m.spec_bytes() == self.message@,
            r is Err <==> (match self.header.message_type {
                MessageType::Basic => self.message@[0] >> 4 > 4,
                MessageType::Location => (self.message@[0] >> 4 > 4 || self.message@[18] >> 4 > 6
                    || (self.message@[18] & 0x0f) > 0xC || self.message@[19] >> 4 > 6 || (
                self.message@[19] & 0x0f) > 4),
                _ => true,
            }),
    {
        match self.header.message_type {
            MessageType::Basic => match BasicMessage::unpack(&self.message) {
                Ok(m) => Ok(RidMessage::Basic(m)),
                Err(e) => Err(e),
            },
            MessageType::Location => match LocationMessage::unpack(&self.message) {
                Ok(m) => Ok(RidMessage::Location(m)),
                Err(e) => Err(e),
            },
            _ => Err(UnpackError::InvalidField),
        }
    }
}

/// Remote ID basic message: identification of the aircraft.
#[derive(Debug, Clone, Copy, PartialEq, Eq)]
pub struct BasicMessage {
    /// Identification type (mandatory).
    pub id_type: IdType,
    /// Unmanned aircraft type (mandatory).
    pub ua_type: UaType,
    /// The UAS identifier, 20 bytes.
    pub uas_id: [u8; 20],
    /// Reserved field.
    pub reserved: [u8; 3],
}

impl Default for BasicMessage {
    /// An all-zero basic message.
    fn default() -> (r: BasicMessage)
        ensures
            r.id_type is Unspecified,
            r.ua_type is Undeclared,
            r.uas_id@ =~= Seq::<u8>::new(20, |i: int| 0u8),
            r.reserved@ =~= Seq::<u8>::new(3, |i: int| 0u8),
    {
        BasicMessage {
            id_type: IdType::Unspecified,
            ua_type: UaType::Undeclared,
            uas_id: [0; 20],
            reserved: [0; 3],
        }
    }
}

impl BasicMessage {
    /// The 24 bytes this message packs to.
    pub open spec fn spec_bytes(&self) -> Seq<u8> {
        seq![((spec_id_type_value(self.id_type) << 4) | spec_ua_type_value(self.ua_type)) as u8]
            + self.uas_id@ + self.reserved@
    }

    /// Pack the message into its 24 bytes.
    pub fn pack(&self) -> (r: Vec<u8>)
        ensures
            r@ == self.spec_bytes(),
            r@.len() == 24,
    {
        let mut out: Vec<u8> = Vec::new();
        out.push((self.id_type.as_u8() << 4) | self.ua_type.as_u8());
        let mut i: usize = 0;
        while i < 20
            invariant
                i <= 20,
                out@.len() == 1 + i,
                out@[0] == ((spec_id_type_value(self.id_type) << 4) | spec_ua_type_value(
                    self.ua_type,
                )) as u8,
                forall|j: int| 0 <= j < i ==> out@[j + 1] == self.uas_id@[j],
            decreases 20 - i,
        {
            out.push(self.uas_id[i]);
            i += 1;
        }
        out.push(self.reserved[0]);
        out.push(self.reserved[1]);
        out.push(self.reserved[2]);
        proof {
            assert(out@ =~= self.spec_bytes());
        }
        out
    }

    /// Unpack 24 message bytes into a basic message.
    ///
    /// Exactly the messages whose identification nibble is a known
    /// value unpack successfully, and an unpacked message packs back
    /// to the very bytes it came from.
    pub fn unpack(src: &[u8; 24]) -> (r: Result<BasicMessage, UnpackError>)
        ensures
            r matches Ok(m) ==> m.spec_bytes() == src@,
            r is Err <==> src@[0] >> 4 > 4,
    {
        let b0: u8 = src[0];
        let Some(id_type) = IdType::from_u8(b0 >> 4) else {
            return Err(UnpackError::InvalidField);
        };
        let ua_val: u8 = b0 & 0x0f;
        proof {
            assert((b0 & 0x0f) < 16 && ((b0 >> 4) << 4) | (b0 & 0x0f) == b0) by (bit_vector);
        }
        let ua_type: UaType = UaType::from_u8(ua_val);
        let mut uas_id: [u8; 20] = [0; 20];
        let mut i: usize = 0;
        while i < 20
            invariant
                i <= 20,
                forall|j: int| 0 <= j < i ==> uas_id@[j] == src@[j + 1],
            decreases 20 - i,
        {
            uas_id[i] = src[i + 1];
            i += 1;
        }
        let reserved: [u8; 3] = [src[21], src[22], src[23]];
        let m = BasicMessage { id_type, ua_type, uas_id, reserved };
        proof {
            assert(m.spec_bytes() =~= src@);
        }
        Ok(m)
    }
}

/// Remote ID location message: position, speed, and accuracy fields.
#[derive(Debug, Clone, Copy, PartialEq, Eq, Structural)]
pub struct LocationMessage {
    /// Operational status.
    pub operational_status: OperationalStatus,
    /// Reserved bit.
    pub reserved_0: u8,
    /// Height type.
    pub height_type: HeightType,
    /// East/west direction.
    pub ew_direction: EastWestDirection,
    /// Speed multiplier.
    pub speed_multiplier: SpeedMultiplier,
    /// Track direction measured clockwise from true north; add 180
    /// when the east/west direction bit is set (facing west).
    pub track_direction: u8,
    /// Encoded ground speed.
    pub speed: u8,
    /// Encoded vertical rate; positive is up.
    pub vertical_speed: i8,
    /// Latitude, in 1e-7 degree steps.
    pub latitude: i32,
    /// Longitude, in 1e-7 degree steps.
    pub longitude: i32,
    /// Encoded pressure altitude.
    pub pressure_altitude: u16,
    /// Encoded geodetic altitude.
    pub geodetic_altitude: u16,
    /// Height above takeoff or ground (see the height type bit).
    pub height: u16,
    /// Vertical accuracy.
    pub vertical_accuracy: VerticalAccuracyMeters,
    /// Horizontal accuracy.
    pub horizontal_accuracy: HorizontalAccuracyMeters,
    /// Barometric altitude accuracy.
    pub barometric_altitude_accuracy: VerticalAccuracyMeters,
    /// Speed accuracy.
    pub speed_accuracy: SpeedAccuracyMetersPerSecond,
    /// Timestamp: tenths of a second since the last top of the hour.
    pub timestamp: u16,
    /// Reserved nibble.
    pub reserved_1: u8,
    /// Timestamp accuracy nibble: 0 is unknown, otherwise the value
    /// times 0.1 seconds.
    pub timestamp_accuracy: u8,
    /// Reserved byte.
    pub reserved_2: u8,
}

impl LocationMessage {
    /// Field ranges that hold of every decoded location message.
    pub open spec fn wf(&self) -> bool {
        &&& self.reserved_0 < 2
        &&& self.reserved_1 < 16
        &&& self.timestamp_accuracy < 16
    }

    /// The 24 bytes this message packs to.
    pub open spec fn spec_bytes(&self) -> Seq<u8> {
        seq![
            ((spec_operational_status_value(self.operational_status) << 4) | (self.reserved_0 << 3)
                | (spec_height_type_bit(self.height_type) << 2) | (spec_ew_direction_bit(
                self.ew_direction,
            ) << 1) | spec_speed_multiplier_bit(self.speed_multiplier)) as u8,
            self.track_direction,
            self.speed,
            (self.vertical_speed as u8),
            ((self.latitude as u32) as u8),
            (((self.latitude as u32) >> 8) as u8),
            (((self.latitude as u32) >> 16) as u8),
            (((self.latitude as u32) >> 24) as u8),
            ((self.longitude as u32) as u8),
            (((self.longitude as u32) >> 8) as u8),
            (((self.longitude as u32) >> 16) as u8),
            (((self.longitude as u32) >> 24) as u8),
            (self.pressure_altitude as u8),
            ((self.pressure_altitude >> 8) as u8),
            (self.geodetic_altitude as u8),
            ((self.geodetic_altitude >> 8) as u8),
            (self.height as u8),
            ((self.height >> 8) as u8),
            ((spec_vertical_accuracy_value(self.vertical_accuracy) << 4)
                | spec_horizontal_accuracy_value(self.horizontal_accuracy)) as u8,
            ((spec_vertical_accuracy_value(self.barometric_altitude_accuracy) << 4)
                | spec_speed_accuracy_value(self.speed_accuracy)) as u8,
            (self.timestamp as u8),
            ((self.timestamp >> 8) as u8),
            ((self.reserved_1 << 4) | self.timestamp_accuracy) as u8,
            self.reserved_2,
        ]
    }

    /// Pack the message into its 24 bytes.
    pub fn pack(&self) -> (r: Vec<u8>)
        requires
            self.wf(),
        ensures
            r@ == self.spec_bytes(),
            r@.len() == 24,
    {
        let mut out: Vec<u8> = Vec::new();
        out.push(
            (self.operational_status.as_u8() << 4) | (self.reserved_0 << 3) | (height_bit_of(
                self.height_type,
            ) << 2) | (ew_bit_of(self.ew_direction) << 1) | multiplier_bit_of(
                self.speed_multiplier,
            ),
        );
        out.push(self.track_direction);
        out.push(self.speed);
        out.push(#[verifier::truncate] (self.vertical_speed as u8));
        let lat: u32 = #[verifier::truncate] (self.latitude as u32);
        out.push(lat as u8);
        out.push((lat >> 8) as u8);
        out.push((lat >> 16) as u8);
        out.push((lat >> 24) as u8);
        let lon: u32 = #[verifier::truncate] (self.longitude as u32);
        out.push(lon as u8);
        out.push((lon >> 8) as u8);
        out.push((lon >> 16) as u8);
        out.push((lon >> 24) as u8);
        out.push(self.pressure_altitude as u8);
        out.push((self.pressure_altitude >> 8) as u8);
        out.push(self.geodetic_altitude as u8);
        out.push((self.geodetic_altitude >> 8) as u8);
        out.push(self.height as u8);
        out.push((self.height >> 8) as u8);
        out.push((self.vertical_accuracy.as_u8() << 4) | self.horizontal_accuracy.as_u8());
        out.push((self.barometric_altitude_accuracy.as_u8() << 4) | self.speed_accuracy.as_u8());
        out.push(self.timestamp as u8);
        out.push((self.timestamp >> 8) as u8);
        out.push((self.reserved_1 << 4) | self.timestamp_accuracy);
        out.push(self.reserved_2);
        proof {
            assert(out@ =~= self.spec_bytes());
        }
        out
    }

    /// Unpack 24 message bytes into a location message.
    ///
    /// Exactly the messages whose enumerated bit fields all carry
    /// known values unpack successfully, and an unpacked message
    /// packs back to the very bytes it came from.
    pub fn unpack(src: &[u8; 24]) -> (r: Result<LocationMessage, UnpackError>)
        ensures
            r matches Ok(m) ==> m.wf() && m.spec_bytes() == src@,
            r is Err <==> (src@[0] >> 4 > 4 || src@[18] >> 4 > 6 || (src@[18] & 0x0f) > 0xC || src@[19]
                >> 4 > 6 || (src@[19] & 0x0f) > 4),
    {
        let b0: u8 = src[0];
        let Some(operational_status) = OperationalStatus::from_u8(b0 >> 4) else {
            return Err(UnpackError::InvalidField);
        };
        let reserved_0: u8 = (b0 >> 3) & 0x01;
        let height_type: HeightType = if ((b0 >> 2) & 0x01) == 1 {
            HeightType::AboveGroundLevel
        } else {
            HeightType::AboveTakeoff
        };
        let ew_direction: EastWestDirection = if ((b0 >> 1) & 0x01) == 1 {
            EastWestDirection::West
        } else {
            EastWestDirection::East
        };
        let speed_multiplier: SpeedMultiplier = if (b0 & 0x01) == 1 {
            SpeedMultiplier::X0_75
        } else {
            SpeedMultiplier::X0_25
        };
        let b18: u8 = src[18];
        let Some(vertical_accuracy) = VerticalAccuracyMeters::from_u8(b18 >> 4) else {
            return Err(UnpackError::InvalidField);
        };
        let Some(horizontal_accuracy) = HorizontalAccuracyMeters::from_u8(b18 & 0x0f) else {
            return Err(UnpackError::InvalidField);
        };
        let b19: u8 = src[19];
        let Some(barometric_altitude_accuracy) = VerticalAccuracyMeters::from_u8(b19 >> 4) else {
            return Err(UnpackError::InvalidField);
        };
        let Some(speed_accuracy) = SpeedAccuracyMetersPerSecond::from_u8(b19 & 0x0f) else {
            return Err(UnpackError::InvalidField);
        };
        let lat_bits: u32 = (src[4] as u32) | ((src[5] as u32) << 8) | ((src[6] as u32) << 16) | ((
        src[7] as u32) << 24);
        let lon_bits: u32 = (src[8] as u32) | ((src[9] as u32) << 8) | ((src[10] as u32) << 16) | ((
        src[11] as u32) << 24);
        let pressure_altitude: u16 = (src[12] as u16) | ((src[13] as u16) << 8);
        let geodetic_altitude: u16 = (src[14] as u16) | ((src[15] as u16) << 8);
        let height: u16 = (src[16] as u16) | ((src[17] as u16) << 8);
        let timestamp: u16 = (src[20] as u16) | ((src[21] as u16) << 8);
        let b22: u8 = src[22];
        let m = LocationMessage {
            operational_status,
            reserved_0,
            height_type,
            ew_direction,
            speed_multiplier,
            track_direction: src[1],
            speed: src[2],
            vertical_speed: #[verifier::truncate] (src[3] as i8),
            latitude: #[verifier::truncate] (lat_bits as i32),
            longitude: #[verifier::truncate] (lon_bits as i32),
            pressure_altitude,
            geodetic_altitude,
            height,
            vertical_accuracy,
            horizontal_accuracy,
            barometric_altitude_accuracy,
            speed_accuracy,
            timestamp,
            reserved_1: b22 >> 4,
            timestamp_accuracy: b22 & 0x0f,
            reserved_2: src[23],
        };
        proof {
            let rb: u8 = (b0 >> 3) & 0x01;
            let hb: u8 = if ((b0 >> 2) & 0x01) == 1 { 1u8 } else { 0u8 };
            let eb: u8 = if ((b0 >> 1) & 0x01) == 1 { 1u8 } else { 0u8 };
            let mb: u8 = if (b0 & 0x01) == 1 { 1u8 } else { 0u8 };
            assert(rb < 2 && (((b0 >> 4) << 4) | (rb << 3) | (hb << 2) | (eb << 1) | mb) == b0)
                by (bit_vector)
                requires
                    rb == (b0 >> 3) & 0x01,
                    hb == (if ((b0 >> 2) & 0x01) == 1 { 1u8 } else { 0u8 }),
                    eb == (if ((b0 >> 1) & 0x01) == 1 { 1u8 } else { 0u8 }),
                    mb == (if (b0 & 0x01) == 1 { 1u8 } else { 0u8 }),
            ;
            lemma_nibbles(b18);
            lemma_nibbles(b19);
            lemma_nibbles(b22);
            lemma_u16_le(src@[12], src@[13]);
            lemma_u16_le(src@[14], src@[15]);
            lemma_u16_le(src@[16], src@[17]);
            lemma_u16_le(src@[20], src@[21]);
            lemma_u32_le(src@[4], src@[5], src@[6], src@[7]);
            lemma_u32_le(src@[8], src@[9], src@[10], src@[11]);
            lemma_i8_byte(src@[3]);
            assert(m.spec_bytes() =~= src@);
        }
        Ok(m)
    }
}


/// Errors decoding a location message.
#[derive(Debug, Copy, Clone, PartialEq, Eq, Structural)]
pub enum LocationDecodeError {
    /// Speed is greater than or equal to 254.25 m/s.
    SpeedGte254_25,
    /// Unknown speed.
    UnknownSpeed,
    /// Unknown altitude.
    UnknownAltitude,
    /// Unknown timestamp.
    UnknownTimestamp,
}

/// Errors encoding a location message.
#[derive(Debug, Copy, Clone, PartialEq, Eq, Structural)]
pub enum LocationEncodeError {
    /// Track angle is 360 degrees or larger.
    InvalidTrackAngle,
    /// Supplied ground speed was negative.
    NegativeGroundSpeed,
    /// Unknown timestamp.
    UnknownTimestamp,
}

/// Milliseconds in an hour.
pub const MS_PER_HOUR: u64 = 3600000;

impl LocationMessage {
    /// The ground speed in quarters of a meter per second that the
    /// speed field and multiplier encode: the field itself under
    /// multiplier 0.25, three times the field plus 255 (that is,
    /// 0.75 times the field plus 63.75) under multiplier 0.75.
    pub open spec fn spec_speed_quarters(&self) -> u16 {
        match self.speed_multiplier {
            SpeedMultiplier::X0_25 => self.speed as u16,
            SpeedMultiplier::X0_75 => (3 * (self.speed as u16) + 255) as u16,
        }
    }

    /// Decode the track direction in degrees: the raw byte, plus 180
    /// when the east/west direction bit is set.
    pub fn decode_direction(&self) -> (r: u16)
        ensures
            self.ew_direction is East ==> r == self.track_direction,
            self.ew_direction is West ==> r == self.track_direction + 180,
            r < 436,
    {
        match self.ew_direction {
            EastWestDirection::East => self.track_direction as u16,
            EastWestDirection::West => self.track_direction as u16 + 180,
        }
    }

    /// Encode a track direction in degrees as a direction bit and a
    /// byte; directions of 360 degrees or more are invalid.
    pub fn encode_direction(direction: u16) -> (r: Result<
        (EastWestDirection, u8),
        LocationEncodeError,
    >)
        ensures
            r is Err <==> direction >= 360,
            r matches Err(e) ==> e is InvalidTrackAngle,
            r matches Ok(p) ==> if direction < 180 {
                p.0 is East && p.1 == direction
            } else {
                p.0 is West && p.1 == direction - 180
            },
    {
        if direction >= 360 {
            return Err(LocationEncodeError::InvalidTrackAngle);
        }
        if direction < 180 {
            Ok((EastWestDirection::East, direction as u8))
        } else {
            Ok((EastWestDirection::West, (direction - 180) as u8))
        }
    }

    /// Decode the ground speed in quarters of a meter per second.
    ///
    /// 1020 quarters (255.0 m/s) means the speed is unknown and 1017
    /// quarters (254.25 m/s) means it is at least that fast; both are
    /// errors. The metric value is the result divided by four.
    pub fn decode_speed_quarters(&self) -> (r: Result<u16, LocationDecodeError>)
        ensures
            r matches Err(e) ==> (e is UnknownSpeed <==> self.spec_speed_quarters() == 1020) && (
            e is SpeedGte254_25 <==> self.spec_speed_quarters() == 1017),
            r is Err <==> (self.spec_speed_quarters() == 1020 || self.spec_speed_quarters()
                == 1017),
            r matches Ok(q) ==> q == self.spec_speed_quarters(),
    {
        let quarters: u16 = match self.speed_multiplier {
            SpeedMultiplier::X0_25 => self.speed as u16,
            SpeedMultiplier::X0_75 => 3 * (self.speed as u16) + 255,
        };
        if quarters == 1020 {
            Err(LocationDecodeError::UnknownSpeed)
        } else if quarters == 1017 {
            Err(LocationDecodeError::SpeedGte254_25)
        } else {
            Ok(quarters)
        }
    }

    /// Encode a ground speed given in quarters of a meter per second
    /// as a multiplier bit and a byte: under 0.25-multiplier range as
    /// is, above it with the 0.75 multiplier, saturating at the top.
    pub fn encode_speed_quarters(quarters: u16) -> (r: (SpeedMultiplier, u8))
        ensures
            quarters <= 255 ==> r.0 is X0_25 && r.1 == quarters,
            255 < quarters < 1017 ==> r.0 is X0_75 && r.1 == (quarters - 255) / 3,
            quarters >= 1017 ==> r.0 is X0_75 && r.1 == 254,
    {
        if quarters <= 255 {
            (SpeedMultiplier::X0_25, quarters as u8)
        } else if quarters < 1017 {
            (SpeedMultiplier::X0_75, ((quarters - 255) / 3) as u8)
        } else {
            (SpeedMultiplier::X0_75, 254)
        }
    }

    /// Decode the vertical rate in halves of a meter per second:
    /// the raw byte, saturated to plus or minus 124 halves (62 m/s);
    /// 126 halves (63 m/s) means the rate is unknown.
    pub fn decode_vertical_speed_halves(&self) -> (r: Result<i16, LocationDecodeError>)
        ensures
            r is Err <==> self.vertical_speed == 126,
            r matches Err(e) ==> e is UnknownSpeed,
            r matches Ok(h) ==> h == if self.vertical_speed >= 124 {
                124int
            } else if self.vertical_speed <= -124 {
                -124int
            } else {
                self.vertical_speed as int
            },
    {
        let h: i16 = self.vertical_speed as i16;
        if h == 126 {
            Err(LocationDecodeError::UnknownSpeed)
        } else if h >= 124 {
            Ok(124)
        } else if h <= -124 {
            Ok(-124)
        } else {
            Ok(h)
        }
    }

    /// Decode the pressure altitude in halves of a meter above the
    /// -1000 m datum: the raw field minus 2000 halves. A zero field
    /// means the altitude is unknown.
    pub fn decode_altitude_half_meters(&self) -> (r: Result<i32, LocationDecodeError>)
        ensures
            r is Err <==> self.pressure_altitude == 0,
            r matches Err(e) ==> e is UnknownAltitude,
            r matches Ok(h) ==> h == self.pressure_altitude - 2000,
    {
        if self.pressure_altitude == 0 {
            Err(LocationDecodeError::UnknownAltitude)
        } else {
            Ok(self.pressure_altitude as i32 - 2000)
        }
    }

    /// Resolve the timestamp field against a wall clock reading.
    ///
    /// The field counts tenths of a second since the most recent top
    /// of an hour; if it exceeds the tenths elapsed in the current
    /// hour, it refers to the previous hour.
    pub fn decode_timestamp_ms(&self, now_ms: u64) -> (r: u64)
        requires
            now_ms >= MS_PER_HOUR,
            now_ms < 0x4000000000000000,
        ensures
            r == spec_timestamp_ms(self.timestamp, now_ms),
    {
        let hour_start: u64 = now_ms - now_ms % MS_PER_HOUR;
        let tenths_since_hour: u64 = (now_ms % MS_PER_HOUR) / 100;
        let encoded_ms: u64 = (self.timestamp as u64) * 100;
        if (self.timestamp as u64) > tenths_since_hour {
            (hour_start - MS_PER_HOUR) + encoded_ms
        } else {
            hour_start + encoded_ms
        }
    }

    /// Encode a wall clock reading as tenths of a second since the
    /// most recent top of an hour.
    pub fn encode_timestamp_tenths(ms_since_epoch: u64) -> (r: u16)
        ensures
            r == (ms_since_epoch % (MS_PER_HOUR as u64)) / 100,
            r < 36000,
    {
        ((ms_since_epoch % MS_PER_HOUR) / 100) as u16
    }
}

/// The instant a timestamp field names, given the clock reading at
/// decode time: tenths of a second since the top of the current hour,
/// or of the previous hour when the field exceeds the clock.
pub open spec fn spec_timestamp_ms(encoded_tenths: u16, now_ms: u64) -> int {
    let hour_start = now_ms - now_ms % (MS_PER_HOUR as u64);
    let tenths_since_hour = (now_ms % (MS_PER_HOUR as u64)) / 100;
    if encoded_tenths > tenths_since_hour {
        hour_start - MS_PER_HOUR + 100 * encoded_tenths
    } else {
        hour_start + 100 * encoded_tenths
    }
}

/// A byte splits into its high and low nibble.
proof fn lemma_nibbles(b: u8)
    by (bit_vector)
    ensures
        ((b >> 4) << 4) | (b & 0x0f) == b,
        b >> 4 < 16,
        b & 0x0f < 16,
{
}

/// A little-endian 16-bit read splits back into its two bytes.
proof fn lemma_u16_le(lo: u8, hi: u8)
    by (bit_vector)
    ensures
        (((lo as u16) | ((hi as u16) << 8)) as u8) == lo,
        ((((lo as u16) | ((hi as u16) << 8)) >> 8) as u8) == hi,
{
}

/// A little-endian 32-bit read, cast through i32, splits back into
/// its four bytes.
proof fn lemma_u32_le(b0: u8, b1: u8, b2: u8, b3: u8)
    by (bit_vector)
    ensures
        ((((((b0 as u32) | ((b1 as u32) << 8) | ((b2 as u32) << 16) | ((b3 as u32) << 24)) as i32)
            as u32) as u8) == b0),
        (((((((b0 as u32) | ((b1 as u32) << 8) | ((b2 as u32) << 16) | ((b3 as u32) << 24)) as i32)
            as u32) >> 8) as u8) == b1),
        (((((((b0 as u32) | ((b1 as u32) << 8) | ((b2 as u32) << 16) | ((b3 as u32) << 24)) as i32)
            as u32) >> 16) as u8) == b2),
        (((((((b0 as u32) | ((b1 as u32) << 8) | ((b2 as u32) << 16) | ((b3 as u32) << 24)) as i32)
            as u32) >> 24) as u8) == b3),
{
}

/// A byte read as i8 casts back to the same byte.
proof fn lemma_i8_byte(b: u8)
    by (bit_vector)
    ensures
        ((b as i8) as u8) == b,
{
}

/// The bit a height type packs to.
pub fn height_bit_of(h: HeightType) -> (r: u8)
    ensures
        r == spec_height_type_bit(h),
{
    match h {
        HeightType::AboveTakeoff => 0,
        HeightType::AboveGroundLevel => 1,
    }
}

/// The bit an east/west direction packs to.
pub fn ew_bit_of(d: EastWestDirection) -> (r: u8)
    ensures
        r == spec_ew_direction_bit(d),
{
    match d {
        EastWestDirection::East => 0,
        EastWestDirection::West => 1,
    }
}

/// The bit a speed multiplier packs to.
pub fn multiplier_bit_of(m: SpeedMultiplier) -> (r: u8)
    ensures
        r == spec_speed_multiplier_bit(m),
{
    match m {
        SpeedMultiplier::X0_25 => 0,
        SpeedMultiplier::X0_75 => 1,
    }
}

} // verus!
