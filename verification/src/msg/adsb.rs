//! Bit-exact codec for ADS-B extended squitter frames.
//!
//! Each frame is exactly 14 bytes (112 bits), MSB-first:
//! bits 0-4 downlink format (17 for ADS-B), bits 5-7 capability,
//! bits 8-31 the 24-bit ICAO address, bits 32-87 the message body
//! (typed by the 5-bit type code at bits 32-36), bits 88-111 parity.

use vstd::prelude::*;

verus! {

/// Expected size of ADS-B packets.
pub const ADSB_SIZE_BYTES: usize = 14;

/// Downlink format of an ADS-B extended squitter.
pub const ADSB_DOWNLINK_FORMAT: u8 = 17;

/// Possible errors decoding ADS-B packets.
#[derive(Debug, Copy, Clone, PartialEq, Eq, Structural)]
pub enum DecodeError {
    /// The latitudes of a packet pair are in different zones.
    CrossedLatitudeZones,
    /// Unsupported subtype (airspeed-only velocity).
    UnsupportedSubtype,
    /// Invalid aircraft subtype (subtype is not 1, 2, 3, 4).
    InvalidSubtype,
}

impl DecodeError {
    /// Human-readable description of the error.
    pub fn message(&self) -> (r: String)
        ensures
            self is CrossedLatitudeZones ==> r@ == "Crossed latitude zones"@,
            self is UnsupportedSubtype ==> r@ == "Unsupported subtype"@,
            self is InvalidSubtype ==> r@ == "Invalid subtype"@,
    {
        match self {
            DecodeError::CrossedLatitudeZones => String::from_str("Crossed latitude zones"),
            DecodeError::UnsupportedSubtype => String::from_str("Unsupported subtype"),
            DecodeError::InvalidSubtype => String::from_str("Invalid subtype"),
        }
    }
}

/// Possible errors encoding ADS-B packets.
#[derive(Debug, Copy, Clone, PartialEq, Eq, Structural)]
pub enum EncodeError {
    /// Invalid CPR flag.
    InvalidFlag,
}

impl EncodeError {
    /// Human-readable description of the error.
    pub fn message(&self) -> (r: String)
        ensures
            r@ == "Invalid CPR flag"@,
    {
        match self {
            EncodeError::InvalidFlag => String::from_str("Invalid CPR flag"),
        }
    }
}

/// Errors decoding a whole 14-byte frame into a typed message.
#[derive(Debug, Copy, Clone, PartialEq, Eq, Structural)]
pub enum FrameError {
    /// The downlink format is not 17 (not an ADS-B frame).
    NonAdsbFormat,
    /// The 5-bit type code carries a message this service does not decode.
    UnsupportedMessageType,
}

/// Sign of a velocity component: 0 = positive, 1 = negative.
#[derive(Debug, Copy, Clone, PartialEq, Eq, Structural)]
pub enum Sign {
    Positive,
    Negative,
}

/// The bit a [`Sign`] packs to.
pub open spec fn spec_sign_bit(s: Sign) -> u8 {
    match s {
        Sign::Positive => 0,
        Sign::Negative => 1,
    }
}

/// CPR parity of an airborne position message.
#[derive(Debug, Copy, Clone, PartialEq, Eq, Structural)]
pub enum CprFormat {
    Even,
    Odd,
}

/// The bit a [`CprFormat`] packs to.
pub open spec fn spec_cpr_bit(f: CprFormat) -> u8 {
    match f {
        CprFormat::Even => 0,
        CprFormat::Odd => 1,
    }
}

impl CprFormat {
    /// The flag as it appears in cache keys: even = 0, odd = 1.
    pub fn as_u8(&self) -> (r: u8)
        ensures
            r == spec_cpr_bit(*self),
    {
        match self {
            CprFormat::Even => 0,
            CprFormat::Odd => 1,
        }
    }
}

/// Nested type coding of an identification message, derived from the
/// type code: D = 1, C = 2, B = 3, A = 4.
#[derive(Debug, Copy, Clone, PartialEq, Eq, Structural)]
pub enum TypeCoding {
    D,
    C,
    B,
    A,
}

/// The type code a [`TypeCoding`] corresponds to.
pub open spec fn spec_type_coding_code(t: TypeCoding) -> u8 {
    match t {
        TypeCoding::D => 1,
        TypeCoding::C => 2,
        TypeCoding::B => 3,
        TypeCoding::A => 4,
    }
}

/// Aircraft identification message (type codes 1-4): a 3-bit category
/// and eight 6-bit callsign character codes.
#[derive(Debug, Clone, Copy, PartialEq, Eq)]
pub struct Identification {
    /// Type code, 1 to 4.
    pub tc: u8,
    /// 3-bit aircraft category.
    pub ca: u8,
    /// Eight 6-bit character codes of the callsign.
    pub chars: [u8; 8],
}

impl Identification {
    /// Field ranges that hold of every decoded identification message.
    pub open spec fn wf(&self) -> bool {
        &&& 1 <= self.tc <= 4
        &&& self.ca < 8
        &&& self.chars@[0] < 64
        &&& self.chars@[1] < 64
        &&& self.chars@[2] < 64
        &&& self.chars@[3] < 64
        &&& self.chars@[4] < 64
        &&& self.chars@[5] < 64
        &&& self.chars@[6] < 64
        &&& self.chars@[7] < 64
    }

    /// The nested type coding (D = 1, C = 2, B = 3, A = 4).
    pub fn type_coding(&self) -> (r: TypeCoding)
        requires
            self.wf(),
        ensures
            spec_type_coding_code(r) == self.tc,
    {
        if self.tc == 1 {
            TypeCoding::D
        } else if self.tc == 2 {
            TypeCoding::C
        } else if self.tc == 3 {
            TypeCoding::B
        } else {
            TypeCoding::A
        }
    }
}

/// Airborne position message (type codes 9-18): CPR-encoded latitude
/// and longitude halves and a 12-bit encoded altitude.
#[derive(Debug, Clone, Copy, PartialEq, Eq)]
pub struct AirbornePosition {
    /// Type code, 9 to 18.
    pub tc: u8,
    /// 2-bit surveillance status.
    pub surveillance_status: u8,
    /// Single antenna flag.
    pub saf: bool,
    /// Raw 12-bit altitude field; `None` when the field is all zero
    /// (no altitude information).
    pub alt: Option<u16>,
    /// Time synchronisation bit.
    pub time_bit: bool,
    /// CPR parity: even or odd.
    pub odd_flag: CprFormat,
    /// 17-bit CPR latitude.
    pub lat_cpr: u32,
    /// 17-bit CPR longitude.
    pub lon_cpr: u32,
}

impl AirbornePosition {
    /// Field ranges that hold of every decoded position message.
    pub open spec fn wf(&self) -> bool {
        &&& 9 <= self.tc <= 18
        &&& self.surveillance_status < 4
        &&& match self.alt {
            Option::Some(a) => 0 < a < 4096,
            Option::None => true,
        }
        &&& self.lat_cpr < 0x20000
        &&& self.lon_cpr < 0x20000
    }

    /// The raw 12-bit altitude field as it packs into the frame.
    pub open spec fn spec_alt_raw(&self) -> u16 {
        match self.alt {
            Option::Some(a) => a,
            Option::None => 0,
        }
    }
}

/// Airborne velocity message (type code 19), ground-speed subtypes.
#[derive(Debug, Clone, Copy, PartialEq, Eq)]
pub struct AirborneVelocity {
    /// 3-bit subtype; 1 and 2 carry ground speed.
    pub st: u8,
    /// Intent change flag.
    pub intent_change: bool,
    /// IFR capability flag.
    pub ifr_capability: bool,
    /// 3-bit navigation uncertainty category.
    pub nuc: u8,
    /// Sign of the east-west component.
    pub ew_sign: Sign,
    /// 10-bit east-west velocity field.
    pub ew_vel: u16,
    /// Sign of the north-south component.
    pub ns_sign: Sign,
    /// 10-bit north-south velocity field.
    pub ns_vel: u16,
    /// Vertical rate source bit.
    pub vrate_src: bool,
    /// Sign of the vertical rate: 0 = climb, 1 = descend.
    pub vrate_sign: Sign,
    /// 9-bit vertical rate field.
    pub vrate_value: u16,
    /// 2 reserved bits.
    pub reserved: u8,
    /// Sign of the GNSS/barometric altitude difference.
    pub gnss_sign: Sign,
    /// 7-bit GNSS/barometric altitude difference field.
    pub gnss_baro_diff: u8,
}

impl AirborneVelocity {
    /// Field ranges that hold of every decoded velocity message.
    pub open spec fn wf(&self) -> bool {
        &&& self.st < 8
        &&& self.nuc < 8
        &&& self.ew_vel < 1024
        &&& self.ns_vel < 1024
        &&& self.vrate_value < 512
        &&& self.reserved < 4
        &&& self.gnss_baro_diff < 128
    }

    /// Whether the subtype carries ground speed (subtypes 1 and 2).
    pub open spec fn spec_has_ground_speed(&self) -> bool {
        self.st == 1 || self.st == 2
    }

    /// Whether the subtype carries ground speed (subtypes 1 and 2).
    pub fn has_ground_speed(&self) -> (r: bool)
        ensures
            r == self.spec_has_ground_speed(),
    {
        self.st == 1 || self.st == 2
    }
}

/// The typed body of an ADS-B frame (the ME field).
#[derive(Debug, Clone, Copy, PartialEq, Eq)]
pub enum AdsbMessage {
    /// Aircraft identification, type codes 1-4.
    Identification(Identification),
    /// Airborne position, type codes 9-18.
    AirbornePosition(AirbornePosition),
    /// Airborne velocity, type code 19.
    AirborneVelocity(AirborneVelocity),
}

impl AdsbMessage {
    /// Field ranges that hold of every decoded message body.
    pub open spec fn wf(&self) -> bool {
        match self {
            AdsbMessage::Identification(m) => m.wf(),
            AdsbMessage::AirbornePosition(m) => m.wf(),
            AdsbMessage::AirborneVelocity(m) => m.wf(),
        }
    }
}

/// A decoded ADS-B extended squitter frame, downlink format 17.
#[derive(Debug, Clone, Copy, PartialEq, Eq)]
pub struct AdsbFrame {
    /// 3-bit capability field.
    pub capability: u8,
    /// 24-bit ICAO address, three bytes MSB-first.
    pub icao: [u8; 3],
    /// The typed message body.
    pub message: AdsbMessage,
    /// 24-bit parity field, kept raw so a frame re-encodes exactly.
    pub parity: u32,
}

impl AdsbFrame {
    /// Field ranges that hold of every decoded frame.
    pub open spec fn wf(&self) -> bool {
        &&& self.capability < 8
        &&& self.message.wf()
        &&& self.parity < 0x1000000
    }
}

/// The downlink format of a raw frame: the five high bits of byte 0.
pub open spec fn spec_downlink_format(b: Seq<u8>) -> u8 {
    b[0] >> 3
}

/// The type code of a raw frame: the five high bits of byte 4.
pub open spec fn spec_type_code(b: Seq<u8>) -> u8 {
    (b[4] >> 3) & 0x1f
}

/// Type codes this service decodes: identification (1-4), airborne
/// position (9-18) and airborne velocity (19).
pub open spec fn spec_supported_type_code(tc: u8) -> bool {
    (1 <= tc <= 4) || (9 <= tc <= 18) || tc == 19
}

/// How a message body packs into the seven ME bytes (frame bytes 4-10).
pub open spec fn spec_me_bytes(m: AdsbMessage) -> Seq<u8> {
    match m {
        AdsbMessage::Identification(i) => seq![
            ((i.tc << 3) | i.ca) as u8,
            ((i.chars@[0] << 2) | (i.chars@[1] >> 4)) as u8,
            ((i.chars@[1] << 4) | (i.chars@[2] >> 2)) as u8,
            ((i.chars@[2] << 6) | i.chars@[3]) as u8,
            ((i.chars@[4] << 2) | (i.chars@[5] >> 4)) as u8,
            ((i.chars@[5] << 4) | (i.chars@[6] >> 2)) as u8,
            ((i.chars@[6] << 6) | i.chars@[7]) as u8,
        ],
        AdsbMessage::AirbornePosition(p) => seq![
            ((p.tc << 3) | (p.surveillance_status << 1) | (if p.saf { 1u8 } else { 0u8 })) as u8,
            (p.spec_alt_raw() >> 4) as u8,
            (((p.spec_alt_raw() as u8) << 4) | ((if p.time_bit { 1u8 } else { 0u8 }) << 3)
                | (spec_cpr_bit(p.odd_flag) << 2) | ((p.lat_cpr >> 15) as u8)) as u8,
            ((p.lat_cpr >> 7) as u8),
            (((p.lat_cpr as u8) << 1) | ((p.lon_cpr >> 16) as u8)) as u8,
            ((p.lon_cpr >> 8) as u8),
            (p.lon_cpr as u8),
        ],
        AdsbMessage::AirborneVelocity(v) => seq![
            ((19u8 << 3) | v.st) as u8,
            (((if v.intent_change { 1u8 } else { 0u8 }) << 7)
                | ((if v.ifr_capability { 1u8 } else { 0u8 }) << 6) | (v.nuc << 3)
                | (spec_sign_bit(v.ew_sign) << 2) | ((v.ew_vel >> 8) as u8)) as u8,
            (v.ew_vel as u8),
            ((spec_sign_bit(v.ns_sign) << 7) | ((v.ns_vel >> 3) as u8)) as u8,
            (((v.ns_vel as u8) << 5) | ((if v.vrate_src { 1u8 } else { 0u8 }) << 4)
                | (spec_sign_bit(v.vrate_sign) << 3) | ((v.vrate_value >> 6) as u8)) as u8,
            (((v.vrate_value as u8) << 2) | v.reserved) as u8,
            ((spec_sign_bit(v.gnss_sign) << 7) | v.gnss_baro_diff) as u8,
        ],
    }
}

/// How a whole frame packs into its 14 bytes.
pub open spec fn spec_frame_bytes(f: AdsbFrame) -> Seq<u8> {
    seq![
        ((ADSB_DOWNLINK_FORMAT << 3) | f.capability) as u8,
        f.icao@[0],
        f.icao@[1],
        f.icao@[2],
    ] + spec_me_bytes(f.message) + seq![
        ((f.parity >> 16) as u8),
        ((f.parity >> 8) as u8),
        (f.parity as u8),
    ]
}

/// Decode a 14-byte ADS-B extended squitter into a typed frame.
///
/// Exactly the frames whose downlink format is 17 and whose type code
/// is one this service handles decode successfully, and a decoded
/// frame re-encodes to the very bytes it was decoded from.
pub fn decode_adsb(bytes: &[u8; 14]) -> (r: Result<AdsbFrame, FrameError>)
    ensures
        r matches Err(FrameError::NonAdsbFormat) <==> spec_downlink_format(bytes@)
            != ADSB_DOWNLINK_FORMAT,
        r matches Err(FrameError::UnsupportedMessageType) <==> (spec_downlink_format(bytes@)
            == ADSB_DOWNLINK_FORMAT && !spec_supported_type_code(spec_type_code(bytes@))),
        r matches Ok(f) ==> f.wf() && spec_frame_bytes(f) == bytes@,
{
    let b0: u8 = bytes[0];
    let b4: u8 = bytes[4];
    let b5: u8 = bytes[5];
    let b6: u8 = bytes[6];
    let b7: u8 = bytes[7];
    let b8: u8 = bytes[8];
    let b9: u8 = bytes[9];
    let b10: u8 = bytes[10];
    if (b0 >> 3) != ADSB_DOWNLINK_FORMAT {
        return Err(FrameError::NonAdsbFormat);
    }
    let capability: u8 = b0 & 0x07;
    proof {
        assert((b0 >> 3) == 17 ==> ((17u8 << 3) | (b0 & 0x07)) == b0 && (b0 & 0x07) < 8)
            by (bit_vector);
    }
    let icao: [u8; 3] = [bytes[1], bytes[2], bytes[3]];
    let b11: u8 = bytes[11];
    let b12: u8 = bytes[12];
    let b13: u8 = bytes[13];
    let parity: u32 = ((b11 as u32) << 16) | ((b12 as u32) << 8) | (b13 as u32);
    proof {
        let p = ((b11 as u32) << 16) | ((b12 as u32) << 8) | (b13 as u32);
        assert(p < 0x1000000 && ((p >> 16) as u8) == b11 && ((p >> 8) as u8) == b12 && (p as u8)
            == b13) by (bit_vector)
            requires
                p == ((b11 as u32) << 16) | ((b12 as u32) << 8) | (b13 as u32),
        ;
    }
    let tc: u8 = (b4 >> 3) & 0x1f;
    proof {
        assert(((b4 >> 3) & 0x1f) == (b4 >> 3)) by (bit_vector);
    }
    let message: AdsbMessage = if 1 <= tc && tc <= 4 {
        let ca: u8 = b4 & 0x07;
        let chars: [u8; 8] = [
            b5 >> 2,
            ((b5 & 0x03) << 4) | (b6 >> 4),
            ((b6 & 0x0f) << 2) | (b7 >> 6),
            b7 & 0x3f,
            b8 >> 2,
            ((b8 & 0x03) << 4) | (b9 >> 4),
            ((b9 & 0x0f) << 2) | (b10 >> 6),
            b10 & 0x3f,
        ];
        proof {
            assert(((((b4 >> 3) & 0x1f) << 3) | (b4 & 0x07)) == b4 && (b4 & 0x07) < 8 && (b5 >> 2) < 64 && (((b5
                & 0x03) << 4) | (b6 >> 4)) < 64 && (((b6 & 0x0f) << 2) | (b7 >> 6)) < 64 && (b7
                & 0x3f) < 64 && (b8 >> 2) < 64 && (((b8 & 0x03) << 4) | (b9 >> 4)) < 64 && (((b9
                & 0x0f) << 2) | (b10 >> 6)) < 64 && (b10 & 0x3f) < 64) by (bit_vector);
            assert((((b5 >> 2) << 2) | ((((b5 & 0x03) << 4) | (b6 >> 4)) >> 4)) == b5 && (((((b5
                & 0x03) << 4) | (b6 >> 4)) << 4) | (((((b6 & 0x0f) << 2) | (b7 >> 6))) >> 2)) == b6
                && (((((b6 & 0x0f) << 2) | (b7 >> 6)) << 6) | (b7 & 0x3f)) == b7 && (((b8 >> 2)
                << 2) | ((((b8 & 0x03) << 4) | (b9 >> 4)) >> 4)) == b8 && (((((b8 & 0x03) << 4) | (
            b9 >> 4)) << 4) | (((((b9 & 0x0f) << 2) | (b10 >> 6))) >> 2)) == b9 && (((((b9 & 0x0f)
                << 2) | (b10 >> 6)) << 6) | (b10 & 0x3f)) == b10) by (bit_vector);
        }
        AdsbMessage::Identification(Identification { tc, ca, chars })
    } else if 9 <= tc && tc <= 18 {
        let surveillance_status: u8 = (b4 >> 1) & 0x03;
        let saf: bool = (b4 & 0x01) == 1;
        let alt_raw: u16 = ((b5 as u16) << 4) | (((b6 as u16) >> 4));
        let alt: Option<u16> = if alt_raw == 0 {
            Option::None
        } else {
            Option::Some(alt_raw)
        };
        let time_bit: bool = ((b6 >> 3) & 0x01) == 1;
        let odd_flag: CprFormat = if ((b6 >> 2) & 0x01) == 1 {
            CprFormat::Odd
        } else {
            CprFormat::Even
        };
        let lat_cpr: u32 = (((b6 & 0x03) as u32) << 15) | ((b7 as u32) << 7) | ((b8 as u32) >> 1);
        let lon_cpr: u32 = (((b8 & 0x01) as u32) << 16) | ((b9 as u32) << 8) | (b10 as u32);
        proof {
            let tcv = (b4 >> 3) & 0x1f;
            let altv = ((b5 as u16) << 4) | (((b6 as u16) >> 4));
            let tbit: u8 = if ((b6 >> 3) & 0x01) == 1 { 1u8 } else { 0u8 };
            let obit: u8 = if ((b6 >> 2) & 0x01) == 1 { 1u8 } else { 0u8 };
            let sbit: u8 = if (b4 & 0x01) == 1 { 1u8 } else { 0u8 };
            let latv = (((b6 & 0x03) as u32) << 15) | ((b7 as u32) << 7) | ((b8 as u32) >> 1);
            let lonv = (((b8 & 0x01) as u32) << 16) | ((b9 as u32) << 8) | (b10 as u32);
            assert(altv < 4096 && latv < 0x20000 && lonv < 0x20000 && ((b4 >> 1) & 0x03) < 4 && ((
            tcv << 3) | (((b4 >> 1) & 0x03) << 1) | sbit) == b4) by (bit_vector)
                requires
                    tbit == (if ((b6 >> 3) & 0x01) == 1 { 1u8 } else { 0u8 }),
                    obit == (if ((b6 >> 2) & 0x01) == 1 { 1u8 } else { 0u8 }),
                    sbit == (if (b4 & 0x01) == 1 { 1u8 } else { 0u8 }),
                    tcv == ((b4 >> 3) & 0x1f),
                    altv == ((b5 as u16) << 4) | (((b6 as u16) >> 4)),
                    latv == (((b6 & 0x03) as u32) << 15) | ((b7 as u32) << 7) | ((b8 as u32) >> 1),
                    lonv == (((b8 & 0x01) as u32) << 16) | ((b9 as u32) << 8) | (b10 as u32),
            ;
            assert(((altv >> 4) as u8) == b5 && ((((altv as u8) << 4) | (tbit << 3) | (obit << 2)
                | ((latv >> 15) as u8))) == b6 && ((latv >> 7) as u8) == b7 && ((((latv as u8) << 1)
                | ((lonv >> 16) as u8))) == b8 && ((lonv >> 8) as u8) == b9 && ((lonv as u8))
                == b10) by (bit_vector)
                requires
                    tbit == (if ((b6 >> 3) & 0x01) == 1 { 1u8 } else { 0u8 }),
                    obit == (if ((b6 >> 2) & 0x01) == 1 { 1u8 } else { 0u8 }),
                    altv == ((b5 as u16) << 4) | (((b6 as u16) >> 4)),
                    latv == (((b6 & 0x03) as u32) << 15) | ((b7 as u32) << 7) | ((b8 as u32) >> 1),
                    lonv == (((b8 & 0x01) as u32) << 16) | ((b9 as u32) << 8) | (b10 as u32),
            ;
        }
        AdsbMessage::AirbornePosition(
            AirbornePosition {
                tc,
                surveillance_status,
                saf,
                alt,
                time_bit,
                odd_flag,
                lat_cpr,
                lon_cpr,
            },
        )
    } else if tc == 19 {
        let st: u8 = b4 & 0x07;
        let intent_change: bool = (b5 >> 7) == 1;
        let ifr_capability: bool = ((b5 >> 6) & 0x01) == 1;
        let nuc: u8 = (b5 >> 3) & 0x07;
        let ew_sign: Sign = if ((b5 >> 2) & 0x01) == 1 {
            Sign::Negative
        } else {
            Sign::Positive
        };
        let ew_vel: u16 = (((b5 & 0x03) as u16) << 8) | (b6 as u16);
        let ns_sign: Sign = if (b7 >> 7) == 1 {
            Sign::Negative
        } else {
            Sign::Positive
        };
        let ns_vel: u16 = (((b7 & 0x7f) as u16) << 3) | ((b8 as u16) >> 5);
        let vrate_src: bool = ((b8 >> 4) & 0x01) == 1;
        let vrate_sign: Sign = if ((b8 >> 3) & 0x01) == 1 {
            Sign::Negative
        } else {
            Sign::Positive
        };
        let vrate_value: u16 = (((b8 & 0x07) as u16) << 6) | ((b9 as u16) >> 2);
        let reserved: u8 = b9 & 0x03;
        let gnss_sign: Sign = if (b10 >> 7) == 1 {
            Sign::Negative
        } else {
            Sign::Positive
        };
        let gnss_baro_diff: u8 = b10 & 0x7f;
        proof {
            let icb: u8 = if (b5 >> 7) == 1 { 1u8 } else { 0u8 };
            let ifrb: u8 = if ((b5 >> 6) & 0x01) == 1 { 1u8 } else { 0u8 };
            let ewsb: u8 = if ((b5 >> 2) & 0x01) == 1 { 1u8 } else { 0u8 };
            let nssb: u8 = if (b7 >> 7) == 1 { 1u8 } else { 0u8 };
            let vsrcb: u8 = if ((b8 >> 4) & 0x01) == 1 { 1u8 } else { 0u8 };
            let vsb: u8 = if ((b8 >> 3) & 0x01) == 1 { 1u8 } else { 0u8 };
            let gsb: u8 = if (b10 >> 7) == 1 { 1u8 } else { 0u8 };
            let ewv = (((b5 & 0x03) as u16) << 8) | (b6 as u16);
            let nsv = (((b7 & 0x7f) as u16) << 3) | ((b8 as u16) >> 5);
            let vrv = (((b8 & 0x07) as u16) << 6) | ((b9 as u16) >> 2);
            assert(ewv < 1024 && nsv < 1024 && vrv < 512 && (b4 & 0x07) < 8 && ((b5 >> 3) & 0x07)
                < 8 && (b9 & 0x03)
                < 4 && (b10 & 0x7f) < 128 && (((b4 >> 3) & 0x1f) == 19 ==> ((19u8 << 3) | (b4
                & 0x07)) == b4)) by (bit_vector)
                requires
                    ewv == (((b5 & 0x03) as u16) << 8) | (b6 as u16),
                    nsv == (((b7 & 0x7f) as u16) << 3) | ((b8 as u16) >> 5),
                    vrv == (((b8 & 0x07) as u16) << 6) | ((b9 as u16) >> 2),
            ;
            assert(((icb << 7) | (ifrb << 6) | (((b5 >> 3) & 0x07) << 3) | (ewsb << 2) | ((ewv >> 8)
                as u8)) == b5 && ((ewv as u8)) == b6 && ((nssb << 7) | ((nsv >> 3) as u8)) == b7 && (
            ((nsv as u8) << 5) | (vsrcb << 4) | (vsb << 3) | ((vrv >> 6) as u8)) == b8 && (((
            vrv as u8) << 2) | (b9 & 0x03)) == b9 && ((gsb << 7) | (b10 & 0x7f)) == b10)
                by (bit_vector)
                requires
                    icb == (if (b5 >> 7) == 1 { 1u8 } else { 0u8 }),
                    ifrb == (if ((b5 >> 6) & 0x01) == 1 { 1u8 } else { 0u8 }),
                    ewsb == (if ((b5 >> 2) & 0x01) == 1 { 1u8 } else { 0u8 }),
                    nssb == (if (b7 >> 7) == 1 { 1u8 } else { 0u8 }),
                    vsrcb == (if ((b8 >> 4) & 0x01) == 1 { 1u8 } else { 0u8 }),
                    vsb == (if ((b8 >> 3) & 0x01) == 1 { 1u8 } else { 0u8 }),
                    gsb == (if (b10 >> 7) == 1 { 1u8 } else { 0u8 }),
                    ewv == (((b5 & 0x03) as u16) << 8) | (b6 as u16),
                    nsv == (((b7 & 0x7f) as u16) << 3) | ((b8 as u16) >> 5),
                    vrv == (((b8 & 0x07) as u16) << 6) | ((b9 as u16) >> 2),
            ;
        }
        AdsbMessage::AirborneVelocity(
            AirborneVelocity {
                st,
                intent_change,
                ifr_capability,
                nuc,
                ew_sign,
                ew_vel,
                ns_sign,
                ns_vel,
                vrate_src,
                vrate_sign,
                vrate_value,
                reserved,
                gnss_sign,
                gnss_baro_diff,
            },
        )
    } else {
        return Err(FrameError::UnsupportedMessageType);
    };
    let f = AdsbFrame { capability, icao, message, parity };
    proof {
        assert(spec_frame_bytes(f) =~= bytes@);
    }
    Ok(f)
}

/// Re-encode a typed frame into its 14 bytes.
pub fn encode_adsb(frame: &AdsbFrame) -> (r: Vec<u8>)
    requires
        frame.wf(),
    ensures
        r@ == spec_frame_bytes(*frame),
        r@.len() == 14,
{
    let mut out: Vec<u8> = Vec::new();
    out.push((ADSB_DOWNLINK_FORMAT << 3) | frame.capability);
    out.push(frame.icao[0]);
    out.push(frame.icao[1]);
    out.push(frame.icao[2]);
    match &frame.message {
        AdsbMessage::Identification(i) => {
            out.push((i.tc << 3) | i.ca);
            out.push((i.chars[0] << 2) | (i.chars[1] >> 4));
            out.push((i.chars[1] << 4) | (i.chars[2] >> 2));
            out.push((i.chars[2] << 6) | i.chars[3]);
            out.push((i.chars[4] << 2) | (i.chars[5] >> 4));
            out.push((i.chars[5] << 4) | (i.chars[6] >> 2));
            out.push((i.chars[6] << 6) | i.chars[7]);
        },
        AdsbMessage::AirbornePosition(p) => {
            let alt_raw: u16 = match p.alt {
                Option::Some(a) => a,
                Option::None => 0,
            };
            out.push((p.tc << 3) | (p.surveillance_status << 1) | (if p.saf {
                1
            } else {
                0
            }));
            out.push((alt_raw >> 4) as u8);
            out.push(((alt_raw as u8) << 4) | ((if p.time_bit {
                1u8
            } else {
                0u8
            }) << 3) | (p.odd_flag.as_u8() << 2) | ((p.lat_cpr >> 15) as u8));
            out.push((p.lat_cpr >> 7) as u8);
            out.push(((p.lat_cpr as u8) << 1) | ((p.lon_cpr >> 16) as u8));
            out.push((p.lon_cpr >> 8) as u8);
            out.push(p.lon_cpr as u8);
        },
        AdsbMessage::AirborneVelocity(v) => {
            out.push((19u8 << 3) | v.st);
            out.push(((if v.intent_change {
                1u8
            } else {
                0u8
            }) << 7) | ((if v.ifr_capability {
                1u8
            } else {
                0u8
            }) << 6) | (v.nuc << 3) | (sign_bit(&v.ew_sign) << 2) | ((v.ew_vel >> 8) as u8));
            out.push(v.ew_vel as u8);
            out.push((sign_bit(&v.ns_sign) << 7) | ((v.ns_vel >> 3) as u8));
            out.push(((v.ns_vel as u8) << 5) | ((if v.vrate_src {
                1u8
            } else {
                0u8
            }) << 4) | (sign_bit(&v.vrate_sign) << 3) | ((v.vrate_value >> 6) as u8));
            out.push(((v.vrate_value as u8) << 2) | v.reserved);
            out.push((sign_bit(&v.gnss_sign) << 7) | v.gnss_baro_diff);
        },
    }
    out.push((frame.parity >> 16) as u8);
    out.push((frame.parity >> 8) as u8);
    out.push(frame.parity as u8);
    proof {
        assert(out@ =~= spec_frame_bytes(*frame));
    }
    out
}

/// The bit a [`Sign`] packs to.
pub fn sign_bit(s: &Sign) -> (r: u8)
    ensures
        r == spec_sign_bit(*s),
{
    match s {
        Sign::Positive => 0,
        Sign::Negative => 1,
    }
}

/// Convert the ICAO field to a u32: the 24-bit address packed into the
/// low three bytes of a 32-bit big-endian integer, top byte zero.
pub fn get_adsb_icao_address(icao: &[u8; 3]) -> (r: u32)
    ensures
        r == icao@[0] as u32 * 0x10000 + icao@[1] as u32 * 0x100 + icao@[2] as u32,
        r < 0x1000000,
{
    (icao[0] as u32) * 0x10000 + (icao[1] as u32) * 0x100 + (icao[2] as u32)
}

/// Parses the ADS-B packet for the message type field: the five high
/// bits of the fifth byte (bits 32-36, 0-indexed).
pub fn get_adsb_message_type(bytes: &[u8; 14]) -> (r: i64)
    ensures
        r == spec_type_code(bytes@),
        0 <= r < 32,
{
    let b: u8 = bytes[4];
    proof {
        assert(((b >> 3) & 0x1f) < 32) by (bit_vector);
    }
    ((b >> 3) & 0x1f) as i64
}

/// The altitude in feet that a raw 12-bit altitude field encodes:
/// the Q-bit (bit 4 of the field) selects 25 ft or 100 ft increments,
/// and the value is the remaining 11 bits with the Q-bit spliced out.
pub open spec fn spec_altitude_feet(altitude: u16) -> int {
    (if altitude & 0x010 != 0 {
        25int
    } else {
        100int
    }) * (((altitude & 0xfe0) >> 1) | (altitude & 0xf)) - 1000
}

/// Converts an encoded ADS-B altitude field to altitude in feet.
///
/// The metric conversion (feet times 0.3048) is left to the caller.
pub fn decode_altitude_feet(altitude: u16) -> (r: i32)
    ensures
        r == spec_altitude_feet(altitude),
{
    let coef_ft: i32 = if (altitude & 0x010) != 0 {
        25
    } else {
        100
    };
    let n: u16 = ((altitude & 0xfe0) >> 1) | (altitude & 0xf);
    proof {
        assert((((altitude & 0xfe0) >> 1) | (altitude & 0xf)) < 2048) by (bit_vector);
    }
    (n as i32) * coef_ft - 1000
}

/// The raw altitude field that encodes a whole number of feet in
/// 25 ft increments with the Q-bit set.
pub open spec fn spec_encode_altitude(altitude_ft: u16) -> u16 {
    let v = ((altitude_ft + 1000) / 25) as u16;
    (((v & 0xfff0) << 1) | 0x010 | (v & 0xf)) as u16
}

/// Encode an altitude given in feet as a raw 12-bit altitude field,
/// using 25 ft increments (Q-bit set).
pub fn encode_altitude_field(altitude_ft: u16) -> (r: u16)
    ensures
        r == spec_encode_altitude(altitude_ft),
{
    let v: u16 = ((altitude_ft as u32 + 1000) / 25) as u16;
    proof {
        assert(((altitude_ft as u32 + 1000) / 25) as u16 == ((altitude_ft + 1000) / 25) as u16)
            by (bit_vector);
    }
    ((v & 0xfff0) << 1) | 0x010 | (v & 0xf)
}

/// The east-west and north-south ground speed components in knots
/// that a subtype-1 or subtype-2 velocity message encodes; subtype 2
/// (supersonic) scales both components by four.
pub open spec fn spec_velocity_component(st: u8, sign: Sign, vel: u16) -> int {
    let magnitude = if st == 2 {
        4 * (vel - 1)
    } else {
        vel - 1
    };
    if sign is Negative {
        -magnitude
    } else {
        magnitude
    }
}

/// Decodes the ground-speed components of an airborne velocity
/// message. Subtypes 3 and 4 (airspeed only) are rejected as
/// unsupported; any other subtype than 1 and 2 is invalid.
///
/// The caller turns the components into speed and track angle
/// (a hypotenuse and an arc tangent, floating point).
pub fn ground_speed_components(st: u8, ew_sign: Sign, ew_vel: u16, ns_sign: Sign, ns_vel: u16) -> (r:
    Result<(i32, i32), DecodeError>)
    ensures
        r matches Ok(c) ==> (st == 1 || st == 2) && c.0 == spec_velocity_component(st, ew_sign, ew_vel)
            && c.1 == spec_velocity_component(st, ns_sign, ns_vel),
        r matches Err(DecodeError::UnsupportedSubtype) <==> (st == 3 || st == 4),
        r matches Err(DecodeError::InvalidSubtype) <==> !(1 <= st <= 4),
        r is Ok <==> (st == 1 || st == 2),
{
    if st == 1 || st == 2 {
        let scale: i32 = if st == 2 {
            4
        } else {
            1
        };
        let vx: i32 = match ew_sign {
            Sign::Positive => scale * (ew_vel as i32 - 1),
            Sign::Negative => -(scale * (ew_vel as i32 - 1)),
        };
        let vy: i32 = match ns_sign {
            Sign::Positive => scale * (ns_vel as i32 - 1),
            Sign::Negative => -(scale * (ns_vel as i32 - 1)),
        };
        Ok((vx, vy))
    } else if st == 3 || st == 4 {
        Err(DecodeError::UnsupportedSubtype)
    } else {
        Err(DecodeError::InvalidSubtype)
    }
}

/// The vertical rate in feet per second that a vertical rate field
/// encodes: 64 times (value - 1), negative when descending.
pub open spec fn spec_vertical_rate_ftps(vrate_sign: Sign, vrate_value: u16) -> int {
    if vrate_sign is Negative {
        -64 * (vrate_value - 1)
    } else {
        64 * (vrate_value - 1)
    }
}

/// Decodes the vertical speed field to feet per second.
///
/// The metric conversion (times 0.3048) is left to the caller.
pub fn decode_vertical_rate_ftps(vrate_sign: Sign, vrate_value: u16) -> (r: i32)
    ensures
        r == spec_vertical_rate_ftps(vrate_sign, vrate_value),
{
    match vrate_sign {
        Sign::Positive => 64 * (vrate_value as i32 - 1),
        Sign::Negative => -(64 * (vrate_value as i32 - 1)),
    }
}

} // verus!
