//! Per-endpoint orchestration: the length checks, the dedup gate,
//! the record builders and the cache key construction that the ingest
//! handlers perform between the HTTP surface and the egress rings.
//!
//! The surrounding application owns the sockets, the cache and broker
//! round-trips and the floating-point unit conversions; every decision
//! and every value that crosses those boundaries is built here.

use crate::cache::CacheError;
use crate::msg::adsb::{AirbornePosition, Identification};
use crate::msg::netrid::{BasicMessage, LocationMessage, MessageType, MS_PER_HOUR};
use crate::ring::RingBuffer;
use crate::types::{
    spec_aircraft_type_adsb, spec_aircraft_type_of_ua, AircraftId, AircraftType, HeaderData,
};
use vstd::prelude::*;
use vstd::utf8::{decode_utf8, valid_utf8};

verus! {

/// Errors of the ingest handlers, each mapping to an HTTP status.
#[derive(Debug, Copy, Clone, PartialEq, Eq, Structural)]
pub enum IngestError {
    /// The packet is the wrong length or does not decode.
    MalformedPacket,
    /// A dependency misbehaved (cache protocol error, ring refusal).
    InternalError,
    /// The packet is well-formed but of a kind not ingested yet.
    NotImplemented,
    /// A dependency of the service is down.
    Unavailable,
}

impl IngestError {
    /// The HTTP status this error maps to.
    pub fn status_code(&self) -> (r: u16)
        ensures
            self is MalformedPacket ==> r == 400,
            self is InternalError ==> r == 500,
            self is NotImplemented ==> r == 501,
            self is Unavailable ==> r == 503,
    {
        match self {
            IngestError::MalformedPacket => 400,
            IngestError::InternalError => 500,
            IngestError::NotImplemented => 501,
            IngestError::Unavailable => 503,
        }
    }
}

/// Check an ADS-B submission against its fixed size: exactly the
/// 14-byte bodies pass, unchanged.
pub fn adsb_payload(payload: &[u8]) -> (r: Result<[u8; 14], IngestError>)
    ensures
        r is Ok <==> payload@.len() == 14,
        r matches Ok(a) ==> a@ == payload@,
        r matches Err(e) ==> e is MalformedPacket,
{
    if payload.len() != 14 {
        return Err(IngestError::MalformedPacket);
    }
    let mut a: [u8; 14] = [0; 14];
    let mut i: usize = 0;
    while i < 14
        invariant
            i <= 14,
            payload@.len() == 14,
            forall|j: int| 0 <= j < i ==> a@[j] == payload@[j],
        decreases 14 - i,
    {
        a[i] = payload[i];
        i += 1;
    }
    proof {
        assert(a@ =~= payload@);
    }
    Ok(a)
}

/// Check a Remote-ID submission against its fixed size: exactly the
/// 25-byte bodies pass, unchanged.
pub fn netrid_payload(payload: &[u8]) -> (r: Result<[u8; 25], IngestError>)
    ensures
        r is Ok <==> payload@.len() == 25,
        r matches Ok(a) ==> a@ == payload@,
        r matches Err(e) ==> e is MalformedPacket,
{
    if payload.len() != 25 {
        return Err(IngestError::MalformedPacket);
    }
    let mut a: [u8; 25] = [0; 25];
    let mut i: usize = 0;
    while i < 25
        invariant
            i <= 25,
            payload@.len() == 25,
            forall|j: int| 0 <= j < i ==> a@[j] == payload@[j],
        decreases 25 - i,
    {
        a[i] = payload[i];
        i += 1;
    }
    proof {
        assert(a@ =~= payload@);
    }
    Ok(a)
}

/// The metadata the raw-packet archive records for an ADS-B frame.
pub fn header_data(bytes: &[u8; 14]) -> (r: HeaderData)
    ensures
        r.icao_address == bytes@[1] as int * 0x10000 + bytes@[2] as int * 0x100 + bytes@[3] as int,
        r.message_type == crate::msg::adsb::spec_type_code(bytes@),
{
    let icao: [u8; 3] = [bytes[1], bytes[2], bytes[3]];
    HeaderData {
        icao_address: crate::msg::adsb::get_adsb_icao_address(&icao) as i64,
        message_type: crate::msg::adsb::get_adsb_message_type(bytes),
    }
}

/// The code point a 6-bit callsign character code decodes to:
/// 1 to 26 are the capital letters, 48 to 57 the digits, 32 the
/// space, and anything else the placeholder '#'.
pub open spec fn spec_callsign_codepoint(code: u8) -> u32 {
    if 1 <= code <= 26 {
        (64 + code) as u32
    } else if 48 <= code <= 57 {
        code as u32
    } else if code == 32 {
        32
    } else {
        35
    }
}

/// The one-character string of a 6-bit callsign character code.
fn callsign_char_str(code: u8) -> (r: &'static str)
    ensures
        r@.len() == 1,
        r@[0] as u32 == spec_callsign_codepoint(code),
{
    proof {
        reveal_strlit(" ");
        reveal_strlit("#");
        reveal_strlit("0");
        reveal_strlit("1");
        reveal_strlit("2");
        reveal_strlit("3");
        reveal_strlit("4");
        reveal_strlit("5");
        reveal_strlit("6");
        reveal_strlit("7");
        reveal_strlit("8");
        reveal_strlit("9");
        reveal_strlit("A");
        reveal_strlit("B");
        reveal_strlit("C");
        reveal_strlit("D");
        reveal_strlit("E");
        reveal_strlit("F");
        reveal_strlit("G");
        reveal_strlit("H");
        reveal_strlit("I");
        reveal_strlit("J");
        reveal_strlit("K");
        reveal_strlit("L");
        reveal_strlit("M");
        reveal_strlit("N");
        reveal_strlit("O");
        reveal_strlit("P");
        reveal_strlit("Q");
        reveal_strlit("R");
        reveal_strlit("S");
        reveal_strlit("T");
        reveal_strlit("U");
        reveal_strlit("V");
        reveal_strlit("W");
        reveal_strlit("X");
        reveal_strlit("Y");
        reveal_strlit("Z");
    }
    match code {
        1 => "A",
        2 => "B",
        3 => "C",
        4 => "D",
        5 => "E",
        6 => "F",
        7 => "G",
        8 => "H",
        9 => "I",
        10 => "J",
        11 => "K",
        12 => "L",
        13 => "M",
        14 => "N",
        15 => "O",
        16 => "P",
        17 => "Q",
        18 => "R",
        19 => "S",
        20 => "T",
        21 => "U",
        22 => "V",
        23 => "W",
        24 => "X",
        25 => "Y",
        26 => "Z",
        32 => " ",
        48 => "0",
        49 => "1",
        50 => "2",
        51 => "3",
        52 => "4",
        53 => "5",
        54 => "6",
        55 => "7",
        56 => "8",
        57 => "9",
        _ => "#",
    }
}

/// Decode the eight 6-bit character codes of an identification
/// message into the callsign string.
pub fn callsign_string(chars: &[u8; 8]) -> (r: String)
    ensures
        r@.len() == 8,
        forall|i: int| 0 <= i < 8 ==> #[trigger] r@[i] as u32 == spec_callsign_codepoint(chars@[i]),
{
    let mut out = String::new();
    let mut i: usize = 0;
    while i < 8
        invariant
            i <= 8,
            out@.len() == i,
            forall|j: int|
                0 <= j < i ==> #[trigger] out@[j] as u32 == spec_callsign_codepoint(chars@[j]),
        decreases 8 - i,
    {
        out.append(callsign_char_str(chars[i]));
        i += 1;
    }
    out
}

/// The type coding a type code between 1 and 4 names.
pub open spec fn spec_coding_of_tc(tc: u8) -> crate::msg::adsb::TypeCoding {
    if tc == 1 {
        crate::msg::adsb::TypeCoding::D
    } else if tc == 2 {
        crate::msg::adsb::TypeCoding::C
    } else if tc == 3 {
        crate::msg::adsb::TypeCoding::B
    } else {
        crate::msg::adsb::TypeCoding::A
    }
}

/// What holds of the identity record an ADS-B identification
/// message produces: the decoded callsign is the identifier, the
/// aircraft type follows the type-coding table, and the network
/// timestamp is the decode instant.
pub open spec fn spec_identification_record(r: AircraftId, msg: Identification, now_ms: u64) -> bool {
    &&& r.identifier matches Some(s) && s@.len() == 8 && (forall|i: int|
        0 <= i < 8 ==> #[trigger] s@[i] as u32 == spec_callsign_codepoint(msg.chars@[i]))
    &&& r.session_id is None
    &&& r.aircraft_type == spec_aircraft_type_adsb(spec_coding_of_tc(msg.tc), msg.ca)
    &&& r.timestamp_network == now_ms
    &&& r.timestamp_asset is None
}

/// Build the identity record of an ADS-B identification message and
/// append it to the id ring; a full ring discards the record (the
/// ingest path never blocks on egress).
pub fn process_identification(
    msg: &Identification,
    now_ms: u64,
    ring: &mut RingBuffer<AircraftId>,
) -> (accepted: bool)
    requires
        msg.wf(),
        old(ring).wf(),
    ensures
        final(ring).wf(),
        final(ring).spec_capacity() == old(ring).spec_capacity(),
        accepted ==> final(ring)@.len() == old(ring)@.len() + 1 && final(ring)@.take(
            old(ring)@.len() as int,
        ) == old(ring)@ && spec_identification_record(final(ring)@.last(), *msg, now_ms),
        !accepted ==> final(ring)@ == old(ring)@ && old(ring)@.len() == old(ring).spec_capacity(),
{
    let identifier = callsign_string(&msg.chars);
    let aircraft_type = crate::types::get_aircraft_type(msg.type_coding(), msg.ca);
    let item = AircraftId {
        identifier: Some(identifier),
        session_id: None,
        aircraft_type,
        timestamp_network: now_ms,
        timestamp_asset: None,
    };
    let accepted = ring.try_push(item);
    proof {
        if accepted {
            assert(final(ring)@.take(old(ring)@.len() as int) =~= old(ring)@);
        }
    }
    accepted
}

/// What holds of the identity record a Remote-ID basic message
/// produces: the aircraft type maps one to one from the UA type, and
/// the trimmed UAS identifier fills exactly one of the two identity
/// fields, selected by the identification type: the session id for
/// UTM-assigned and session-specific identification, the identifier
/// itself otherwise. The other field stays empty; the submitter is
/// attributable through the authenticated claim upstream.
pub open spec fn spec_basic_id_record(r: AircraftId, msg: BasicMessage, now_ms: u64) -> bool {
    let ident = crate::text::spec_trim(decode_utf8(msg.uas_id@));
    &&& r.aircraft_type == spec_aircraft_type_of_ua(msg.ua_type)
    &&& r.timestamp_network == now_ms
    &&& r.timestamp_asset is None
    &&& if msg.id_type is UtmAssigned || msg.id_type is SpecificSession {
        r.identifier is None && (r.session_id matches Some(t) && t@ == ident)
    } else {
        (r.identifier matches Some(t) && t@ == ident) && r.session_id is None
    }
}

/// Build the identity record of a Remote-ID basic message: the UAS
/// id field (decoded and trimmed) identifies the aircraft or names
/// its session, per the identification type; exactly one of the two
/// fields is populated. A UAS id that is not valid UTF-8 rejects the
/// message.
pub fn basic_id_record(msg: &BasicMessage, now_ms: u64) -> (r: Result<AircraftId, IngestError>)
    ensures
        r is Ok <==> valid_utf8(msg.uas_id@),
        r matches Ok(rec) ==> spec_basic_id_record(rec, *msg, now_ms),
        r matches Err(e) ==> e is MalformedPacket,
{
    let mut raw: Vec<u8> = Vec::new();
    let mut i: usize = 0;
    while i < 20
        invariant
            i <= 20,
            raw@ =~= msg.uas_id@.take(i as int),
        decreases 20 - i,
    {
        raw.push(msg.uas_id[i]);
        i += 1;
    }
    proof {
        assert(raw@ =~= msg.uas_id@);
    }
    let Some(decoded) = crate::text::utf8_string(raw) else {
        return Err(IngestError::MalformedPacket);
    };
    let identifier: String = String::from_str(crate::text::trim(decoded.as_str()));
    let mut item = AircraftId {
        identifier: None,
        session_id: None,
        aircraft_type: AircraftType::from(msg.ua_type),
        timestamp_network: now_ms,
        timestamp_asset: None,
    };
    match msg.id_type {
        crate::msg::netrid::IdType::UtmAssigned => {
            item.session_id = Some(identifier);
        },
        crate::msg::netrid::IdType::SpecificSession => {
            item.session_id = Some(identifier);
        },
        _ => {
            item.identifier = Some(identifier);
        },
    }
    Ok(item)
}

/// Build the identity record of a Remote-ID basic message and append
/// it to the id ring. Basic messages are exempt from the dedup
/// counter, so every submission reaches this enqueue; a full ring
/// discards the record.
pub fn process_basic_message(
    msg: &BasicMessage,
    now_ms: u64,
    ring: &mut RingBuffer<AircraftId>,
) -> (r: Result<bool, IngestError>)
    requires
        old(ring).wf(),
    ensures
        final(ring).wf(),
        final(ring).spec_capacity() == old(ring).spec_capacity(),
        r is Ok <==> valid_utf8(msg.uas_id@),
        r matches Err(e) ==> e is MalformedPacket && final(ring)@ == old(ring)@,
        r matches Ok(accepted) ==> if accepted {
            final(ring)@.len() == old(ring)@.len() + 1 && final(ring)@.take(
                old(ring)@.len() as int,
            ) == old(ring)@ && spec_basic_id_record(final(ring)@.last(), *msg, now_ms)
        } else {
            final(ring)@ == old(ring)@ && old(ring)@.len() == old(ring).spec_capacity()
        },
{
    let item = match basic_id_record(msg, now_ms) {
        Ok(item) => item,
        Err(e) => {
            return Err(e);
        },
    };
    let accepted = ring.try_push(item);
    proof {
        if accepted {
            assert(final(ring)@.take(old(ring)@.len() as int) =~= old(ring)@);
        }
    }
    Ok(accepted)
}

/// Whether a Remote-ID message type passes through the dedup counter.
/// Basic messages carry identification that is stable for the whole
/// flight and are exempt: they are processed on every submission.
pub fn needs_dedup(message_type: MessageType) -> (r: bool)
    ensures
        r <==> !(message_type is Basic),
{
    match message_type {
        MessageType::Basic => false,
        _ => true,
    }
}

/// Whether a Remote-ID message type is one this service decodes:
/// basic and location messages are; everything else is rejected.
pub fn supported_rid_type(message_type: MessageType) -> (r: bool)
    ensures
        r <==> (message_type is Basic || message_type is Location),
{
    match message_type {
        MessageType::Basic => true,
        MessageType::Location => true,
        _ => false,
    }
}

/// The integer decode of a location message: every unit-bearing field
/// in the exact units the wire carries, before the floating-point
/// unit conversions the egress records want.
#[derive(Debug, Clone, Copy, PartialEq, Eq, Structural)]
pub struct LocationDecoded {
    /// Pressure altitude, in halves of a meter above the -1000 m datum.
    pub altitude_half_m: i32,
    /// Ground speed, in quarters of a meter per second.
    pub speed_quarters: u16,
    /// Vertical rate, in halves of a meter per second, saturated.
    pub vertical_halves: i16,
    /// Track direction, in whole degrees clockwise from true north.
    pub track_direction_deg: u16,
    /// Latitude, in 1e-7 degree steps.
    pub latitude_e7: i32,
    /// Longitude, in 1e-7 degree steps.
    pub longitude_e7: i32,
    /// The asset timestamp resolved against the wall clock, if known.
    pub timestamp_ms: Option<u64>,
}

/// Decode the unit-bearing fields of a location message, rejecting
/// the unknown-value sentinels: a zero altitude field, the
/// unknown-speed and top-speed sentinels, and the unknown vertical
/// rate all reject the message.
pub fn decode_location(msg: &LocationMessage, now_ms: u64) -> (r: Result<
    LocationDecoded,
    crate::msg::netrid::LocationDecodeError,
>)
    requires
        now_ms >= MS_PER_HOUR,
        now_ms < 0x4000000000000000,
    ensures
        r matches Err(e) ==> (e is UnknownAltitude <==> msg.pressure_altitude == 0),
        r matches Err(e) && e is SpeedGte254_25 ==> msg.pressure_altitude != 0
            && msg.spec_speed_quarters() == 1017,
        r matches Err(e) && e is UnknownSpeed ==> msg.pressure_altitude != 0 && (
        msg.spec_speed_quarters() == 1020 || msg.vertical_speed == 126),
        r is Err <==> (msg.pressure_altitude == 0 || msg.spec_speed_quarters() == 1020
            || msg.spec_speed_quarters() == 1017 || msg.vertical_speed == 126),
        r matches Ok(d) ==> {
            &&& d.altitude_half_m == msg.pressure_altitude - 2000
            &&& d.speed_quarters == msg.spec_speed_quarters()
            &&& d.vertical_halves == (if msg.vertical_speed >= 124 {
                124int
            } else if msg.vertical_speed <= -124 {
                -124int
            } else {
                msg.vertical_speed as int
            })
            &&& (msg.ew_direction is East ==> d.track_direction_deg == msg.track_direction)
            &&& (msg.ew_direction is West ==> d.track_direction_deg == msg.track_direction + 180)
            &&& d.latitude_e7 == msg.latitude
            &&& d.longitude_e7 == msg.longitude
            &&& d.timestamp_ms matches Some(t) && t == crate::msg::netrid::spec_timestamp_ms(
                msg.timestamp,
                now_ms,
            )
        },
{
    let altitude_half_m = match msg.decode_altitude_half_meters() {
        Ok(v) => v,
        Err(e) => {
            return Err(e);
        },
    };
    let speed_quarters = match msg.decode_speed_quarters() {
        Ok(v) => v,
        Err(e) => {
            return Err(e);
        },
    };
    let vertical_halves = match msg.decode_vertical_speed_halves() {
        Ok(v) => v,
        Err(e) => {
            return Err(e);
        },
    };
    Ok(
        LocationDecoded {
            altitude_half_m,
            speed_quarters,
            vertical_halves,
            track_direction_deg: msg.decode_direction(),
            latitude_e7: msg.latitude,
            longitude_e7: msg.longitude,
            timestamp_ms: Some(msg.decode_timestamp_ms(now_ms)),
        },
    )
}

/// The cache key of a CPR half: the ICAO address in hex, the field
/// name, and the parity bit.
pub open spec fn spec_cpr_key(icao: u32, lat: bool, parity: u8) -> Seq<char> {
    crate::cache::spec_u32_hex(icao) + (if lat {
        ":lat_cpr:"@
    } else {
        ":lon_cpr:"@
    }) + crate::cache::spec_u32_hex(parity as u32)
}

/// Build the cache key of one CPR half.
fn cpr_cache_key(icao: u32, lat: bool, parity: u8) -> (r: String)
    ensures
        r@ == spec_cpr_key(icao, lat, parity),
{
    let mut out = crate::cache::u32_to_hex(icao);
    if lat {
        out.append(":lat_cpr:");
    } else {
        out.append(":lon_cpr:");
    }
    let digits = crate::cache::u32_to_hex(parity as u32);
    out.append(digits.as_str());
    out
}

/// The entries an airborne position message stores in the CPR pair
/// cache: its latitude and longitude halves, as decimal strings,
/// keyed by ICAO address and the message's own parity.
pub fn cpr_store_entries(icao: u32, pos: &AirbornePosition) -> (r: Vec<(String, String)>)
    ensures
        r@.len() == 2,
        r@[0].0@ == spec_cpr_key(icao, true, crate::msg::adsb::spec_cpr_bit(pos.odd_flag)),
        r@[0].1@ == crate::cache::spec_u32_dec(pos.lat_cpr),
        r@[1].0@ == spec_cpr_key(icao, false, crate::msg::adsb::spec_cpr_bit(pos.odd_flag)),
        r@[1].1@ == crate::cache::spec_u32_dec(pos.lon_cpr),
{
    let parity = pos.odd_flag.as_u8();
    let mut out: Vec<(String, String)> = Vec::new();
    out.push((cpr_cache_key(icao, true, parity), crate::cache::u32_to_decimal(pos.lat_cpr)));
    out.push((cpr_cache_key(icao, false, parity), crate::cache::u32_to_decimal(pos.lon_cpr)));
    out
}

/// The keys under which the opposite (odd) halves of a position pair
/// are looked up once the even half arrives.
pub fn cpr_fetch_keys(icao: u32) -> (r: Vec<String>)
    ensures
        r@.len() == 2,
        r@[0]@ == spec_cpr_key(icao, true, 1),
        r@[1]@ == spec_cpr_key(icao, false, 1),
{
    let mut out: Vec<String> = Vec::new();
    out.push(cpr_cache_key(icao, true, 1));
    out.push(cpr_cache_key(icao, false, 1));
    out
}

/// Whether an incoming position message completes a CPR pair: only
/// an even-parity message is paired with the stored odd halves; an
/// odd-parity message only waits in the cache.
pub fn position_completes_pair(pos: &AirbornePosition) -> (r: bool)
    ensures
        r <==> pos.odd_flag is Even,
{
    match pos.odd_flag {
        crate::msg::adsb::CprFormat::Even => true,
        crate::msg::adsb::CprFormat::Odd => false,
    }
}

/// Whether a decimal string from the cache parses as a CPR half.
pub open spec fn spec_parses_u32(s: Seq<char>) -> bool {
    s.len() > 0 && crate::cache::spec_all_digits(s) && crate::cache::spec_dec_value(s)
        < 0x100000000
}

/// Read a CPR half pair out of what the cache returned: the read must
/// have produced exactly two values and both must parse as numbers,
/// or the operation failed.
pub fn cpr_pair_values(values: &Vec<String>) -> (r: Result<(u32, u32), CacheError>)
    ensures
        r is Ok <==> (values@.len() == 2 && spec_parses_u32(values@[0]@) && spec_parses_u32(
            values@[1]@,
        )),
        r matches Ok(p) ==> p.0 == crate::cache::spec_dec_value(values@[0]@) && p.1
            == crate::cache::spec_dec_value(values@[1]@),
        r matches Err(e) ==> e is OperationFailed,
{
    if values.len() != 2 {
        return Err(CacheError::OperationFailed);
    }
    let Some(a) = crate::cache::parse_u32_decimal(values[0].as_str()) else {
        return Err(CacheError::OperationFailed);
    };
    let Some(b) = crate::cache::parse_u32_decimal(values[1].as_str()) else {
        return Err(CacheError::OperationFailed);
    };
    Ok((a, b))
}

/// The health check for load balancing: healthy exactly when both
/// the raw-packet archive and the spatial service are ready.
pub fn health_status(storage_ready: bool, gis_ready: bool) -> (r: u16)
    ensures
        r == 200 <==> (storage_ready && gis_ready),
        r == 200 || r == 503,
{
    if storage_ready && gis_ready {
        200
    } else {
        503
    }
}

} // verus!
