//! Tests of the ingest pipeline: dedup keys and gate, payload length
//! checks, record builders, CPR pair cache plumbing, rings and the
//! batcher decisions.

use svc_telemetry::amqp;
use svc_telemetry::cache::{
    bytes_to_key, exact_count, increment_count, parse_u32_decimal, reporter_gate, u32_to_decimal,
    u32_to_hex, CacheError, DedupCounter, ReporterGate, CACHE_EXPIRE_MS_ADSB,
};
use svc_telemetry::handlers::{
    adsb_payload, basic_id_record, cpr_fetch_keys, cpr_pair_values, cpr_store_entries,
    decode_location, header_data, health_status, needs_dedup, netrid_payload,
    position_completes_pair, process_basic_message, process_identification, supported_rid_type,
    IngestError, LocationDecoded,
};
use svc_telemetry::msg::adsb::{decode_adsb, AdsbMessage};
use svc_telemetry::msg::netrid::{
    BasicMessage, EastWestDirection, HeightType, HorizontalAccuracyMeters, IdType,
    LocationMessage, MessageType, OperationalStatus, SpeedAccuracyMetersPerSecond,
    SpeedMultiplier, UaType, VerticalAccuracyMeters,
};
use svc_telemetry::ring::{
    after_delivery, batch_sleep_ms, capacity_for, ClientAction, RingBuffer,
};
use svc_telemetry::msg::adsb::TypeCoding;
use svc_telemetry::types::{get_aircraft_type, AircraftId, AircraftType};

#[test]
fn test_bytes_to_key() {
    let frame = vec![0x01, 0x02, 0x03, 0x04];
    let key = bytes_to_key(&frame);
    assert_eq!(key, "01020304");
}

#[test]
fn test_get_aircraft_type() {
    // TC = 1 (D) and any category is a reserved field
    assert_eq!(
        get_aircraft_type(TypeCoding::D, rand::random::<u8>()),
        AircraftType::Other
    );

    // TC = 2 (C) and category 1,3 are surface vehicles
    assert_eq!(get_aircraft_type(TypeCoding::C, 1), AircraftType::Other);
    assert_eq!(get_aircraft_type(TypeCoding::C, 3), AircraftType::Other);

    // TC = 2 (C) and category 4,5,6,7 are ground obstacles
    assert_eq!(
        get_aircraft_type(TypeCoding::C, 4),
        AircraftType::Groundobstacle
    );
    assert_eq!(
        get_aircraft_type(TypeCoding::C, 5),
        AircraftType::Groundobstacle
    );
    assert_eq!(
        get_aircraft_type(TypeCoding::C, 6),
        AircraftType::Groundobstacle
    );
    assert_eq!(
        get_aircraft_type(TypeCoding::C, 7),
        AircraftType::Groundobstacle
    );

    // TC = 3 (B) and category 1,4 are gliders
    assert_eq!(get_aircraft_type(TypeCoding::B, 1), AircraftType::Glider);
    assert_eq!(get_aircraft_type(TypeCoding::B, 4), AircraftType::Glider);

    // TC = 3 (B) and category 2 is a lighter than air aircraft
    assert_eq!(get_aircraft_type(TypeCoding::B, 2), AircraftType::Airship);

    // TC = 3 (B) and category 3 is a parachute/unpowered
    assert_eq!(get_aircraft_type(TypeCoding::B, 3), AircraftType::Unpowered);

    // TC = 3 (B) and category 5 is a reserved field
    assert_eq!(get_aircraft_type(TypeCoding::B, 5), AircraftType::Other);

    // TC = 3 (B) and category 7 is a rocket
    assert_eq!(get_aircraft_type(TypeCoding::B, 7), AircraftType::Rocket);

    // TC = 4 (A) and category 7 is a rotorcraft
    assert_eq!(
        get_aircraft_type(TypeCoding::A, 7),
        AircraftType::Rotorcraft
    );
}

#[test]
fn test_aircraft_type() {
    assert_eq!(
        AircraftType::from(UaType::Undeclared),
        AircraftType::Undeclared
    );
    assert_eq!(
        AircraftType::from(UaType::Aeroplane),
        AircraftType::Aeroplane
    );
    assert_eq!(
        AircraftType::from(UaType::Rotorcraft),
        AircraftType::Rotorcraft
    );
    assert_eq!(
        AircraftType::from(UaType::Gyroplane),
        AircraftType::Gyroplane
    );
    assert_eq!(
        AircraftType::from(UaType::HybridLift),
        AircraftType::Hybridlift
    );
    assert_eq!(
        AircraftType::from(UaType::Ornithopter),
        AircraftType::Ornithopter
    );
    assert_eq!(AircraftType::from(UaType::Glider), AircraftType::Glider);
    assert_eq!(AircraftType::from(UaType::Kite), AircraftType::Kite);
    assert_eq!(
        AircraftType::from(UaType::FreeBalloon),
        AircraftType::Freeballoon
    );
    assert_eq!(
        AircraftType::from(UaType::CaptiveBalloon),
        AircraftType::Captiveballoon
    );
    assert_eq!(AircraftType::from(UaType::Airship), AircraftType::Airship);
    assert_eq!(
        AircraftType::from(UaType::Unpowered),
        AircraftType::Unpowered
    );
    assert_eq!(AircraftType::from(UaType::Rocket), AircraftType::Rocket);
    assert_eq!(AircraftType::from(UaType::Tethered), AircraftType::Tethered);
    assert_eq!(
        AircraftType::from(UaType::GroundObstacle),
        AircraftType::Groundobstacle
    );
    assert_eq!(AircraftType::from(UaType::Other), AircraftType::Other);
}

#[test]
fn payload_length_checks() {
    // 13 bytes to the ADS-B endpoint is malformed; 14 is accepted.
    assert_eq!(
        adsb_payload(&vec![0u8; 13]),
        Err(IngestError::MalformedPacket)
    );
    assert!(adsb_payload(&vec![0u8; 14]).is_ok());
    assert_eq!(IngestError::MalformedPacket.status_code(), 400);

    // 24 bytes to the Remote-ID endpoint is malformed; 25 is accepted.
    assert_eq!(
        netrid_payload(&vec![0u8; 24]),
        Err(IngestError::MalformedPacket)
    );
    assert!(netrid_payload(&vec![0u8; 25]).is_ok());
}

#[test]
fn reporter_gate_thresholds() {
    assert_eq!(reporter_gate(0), ReporterGate::Impossible);
    assert_eq!(reporter_gate(1), ReporterGate::Process);
    for count in 2..7u32 {
        assert_eq!(reporter_gate(count), ReporterGate::AlreadyConfirmed);
    }
}

#[test]
fn dedup_counter_counts_up_then_expires() {
    // Six sightings of the identical frame within the TTL count
    // 1,2,3,4,5,6; after the TTL has lapsed the count restarts at 1.
    let mut counter = DedupCounter::new();
    let t0: u64 = 1_000_000;
    let ttl = CACHE_EXPIRE_MS_ADSB;
    for expected in 1..7u32 {
        let count = counter.increment(t0 + expected as u64, ttl);
        assert_eq!(count, expected);
    }
    // The expiry was set at the first sighting and never refreshed.
    assert_eq!(counter.entry.unwrap().expires_at_ms, t0 + 1 + ttl as u64);
    let count = counter.increment(t0 + 1 + ttl as u64, ttl);
    assert_eq!(count, 1);
}

#[test]
fn increment_reply_validation() {
    assert_eq!(increment_count(-3), Err(CacheError::OperationFailed));
    assert_eq!(increment_count(0), Err(CacheError::OperationFailed));
    assert_eq!(increment_count(1), Ok(1));
    assert_eq!(increment_count(6), Ok(6));
    assert_eq!(increment_count(0xffffffff), Ok(u32::MAX));
    assert_eq!(
        increment_count(0x100000000),
        Err(CacheError::OperationFailed)
    );
    assert_eq!(
        CacheError::OperationFailed.message(),
        "The operation on the redis cache failed."
    );
}

#[test]
fn multi_get_must_return_all_values() {
    assert_eq!(
        exact_count(vec![String::from("93000")], 2),
        Err(CacheError::OperationFailed)
    );
    let ok = exact_count(vec![String::from("93000"), String::from("51372")], 2);
    assert_eq!(
        ok,
        Ok(vec![String::from("93000"), String::from("51372")])
    );
}

#[test]
fn decimal_and_hex_formatting() {
    assert_eq!(u32_to_hex(0x123456), "123456");
    assert_eq!(u32_to_hex(0), "0");
    assert_eq!(u32_to_decimal(93000), "93000");
    assert_eq!(u32_to_decimal(0), "0");
    assert_eq!(parse_u32_decimal("93000"), Some(93000));
    assert_eq!(parse_u32_decimal("007"), Some(7));
    assert_eq!(parse_u32_decimal(""), None);
    assert_eq!(parse_u32_decimal("12a"), None);
    assert_eq!(parse_u32_decimal("4294967295"), Some(u32::MAX));
    assert_eq!(parse_u32_decimal("4294967296"), None);
}

#[test]
fn cpr_cache_keys_and_pairing() {
    let payload: [u8; 14] = [
        0x8D, 0x40, 0x62, 0x1D, 0x58, 0xC3, 0x82, 0xD6, 0x90, 0xC8, 0xAC, 0x28, 0x63, 0xA7,
    ];
    let frame = decode_adsb(&payload).unwrap();
    let AdsbMessage::AirbornePosition(pos) = frame.message else {
        panic!("expected a position message");
    };
    // The even message completes a pair against the stored odd halves.
    assert!(position_completes_pair(&pos));

    let entries = cpr_store_entries(0x40621D, &pos);
    assert_eq!(entries[0].0, "40621d:lat_cpr:0");
    assert_eq!(entries[0].1, "93000");
    assert_eq!(entries[1].0, "40621d:lon_cpr:0");
    assert_eq!(entries[1].1, "51372");

    let keys = cpr_fetch_keys(0x40621D);
    assert_eq!(keys[0], "40621d:lat_cpr:1");
    assert_eq!(keys[1], "40621d:lon_cpr:1");

    let values = vec![String::from("74158"), String::from("50194")];
    assert_eq!(cpr_pair_values(&values), Ok((74158, 50194)));
    let missing = vec![String::from("74158")];
    assert_eq!(
        cpr_pair_values(&missing),
        Err(CacheError::OperationFailed)
    );
}

#[test]
fn basic_message_builds_identity_record() {
    let mut msg = BasicMessage {
        id_type: IdType::SerialNumber,
        ua_type: UaType::Rotorcraft,
        uas_id: *b"DRONE-001           ",
        reserved: [0; 3],
    };
    let rec = basic_id_record(&msg, 1000).unwrap();
    assert_eq!(rec.identifier, Some(String::from("DRONE-001")));
    assert_eq!(rec.session_id, None);
    assert_eq!(rec.aircraft_type, AircraftType::Rotorcraft);
    assert_eq!(rec.timestamp_network, 1000);
    assert_eq!(rec.timestamp_asset, None);

    // Session-scoped identification stores the UAS id as the session
    // and leaves the identifier empty: exactly one field carries it.
    msg.id_type = IdType::UtmAssigned;
    let rec = basic_id_record(&msg, 1000).unwrap();
    assert_eq!(rec.identifier, None);
    assert_eq!(rec.session_id, Some(String::from("DRONE-001")));
}

#[test]
fn basic_messages_skip_dedup_and_always_enqueue() {
    // Basic messages are exempt from the dedup counter...
    assert!(!needs_dedup(MessageType::Basic));
    assert!(needs_dedup(MessageType::Location));
    assert!(supported_rid_type(MessageType::Basic));
    assert!(supported_rid_type(MessageType::Location));
    assert!(!supported_rid_type(MessageType::System));

    // ...so the identical message enqueues an id record every time.
    let msg = BasicMessage {
        id_type: IdType::CaaAssigned,
        ua_type: UaType::Aeroplane,
        uas_id: *b"DRONE-002           ",
        reserved: [0; 3],
    };
    let mut ring: RingBuffer<AircraftId> = RingBuffer::new(8);
    for round in 1..4usize {
        let accepted = process_basic_message(&msg, 5, &mut ring).unwrap();
        assert!(accepted);
        assert_eq!(ring.len(), round);
    }
}

#[test]
fn identification_message_enqueues_callsign_record() {
    let payload: [u8; 14] = [
        0x8D, 0x48, 0x40, 0xD6, 0x20, 0x2C, 0xC3, 0x71, 0xC3, 0x2C, 0xE0, 0x57, 0x60, 0x98,
    ];
    let frame = decode_adsb(&payload).unwrap();
    let AdsbMessage::Identification(id) = frame.message else {
        panic!("expected an identification message");
    };
    let mut ring: RingBuffer<AircraftId> = RingBuffer::new(4);
    assert!(process_identification(&id, 77, &mut ring));
    assert_eq!(ring.len(), 1);
    let batch = ring.drain(1);
    assert_eq!(batch[0].identifier, Some(String::from("KLM1023 ")));
    assert_eq!(batch[0].aircraft_type, AircraftType::Other);
    assert_eq!(batch[0].timestamp_network, 77);
}

#[test]
fn location_message_decodes_to_integer_fields() {
    let msg = LocationMessage {
        operational_status: OperationalStatus::Airborne,
        reserved_0: 0,
        height_type: HeightType::AboveTakeoff,
        ew_direction: EastWestDirection::West,
        speed_multiplier: SpeedMultiplier::X0_25,
        track_direction: 10,
        speed: 120,
        vertical_speed: 4,
        latitude: 370000000,
        longitude: -1220000000,
        pressure_altitude: 2204,
        geodetic_altitude: 0,
        height: 0,
        vertical_accuracy: VerticalAccuracyMeters::Lt10,
        horizontal_accuracy: HorizontalAccuracyMeters::Lt10,
        barometric_altitude_accuracy: VerticalAccuracyMeters::Lt10,
        speed_accuracy: SpeedAccuracyMetersPerSecond::Lt3,
        timestamp: 6000,
        reserved_1: 0,
        timestamp_accuracy: 1,
        reserved_2: 0,
    };
    let now = 100 * 3_600_000 + 900_000;
    let d: LocationDecoded = decode_location(&msg, now).unwrap();
    assert_eq!(d.altitude_half_m, 204); // 102 m
    assert_eq!(d.speed_quarters, 120); // 30 m/s
    assert_eq!(d.vertical_halves, 4); // 2 m/s climb
    assert_eq!(d.track_direction_deg, 190);
    assert_eq!(d.latitude_e7, 370000000);
    assert_eq!(d.longitude_e7, -1220000000);
    assert_eq!(d.timestamp_ms, Some(100 * 3_600_000 + 600_000));

    // A zero altitude field rejects the message.
    let mut unknown = msg;
    unknown.pressure_altitude = 0;
    assert!(decode_location(&unknown, now).is_err());
}

#[test]
fn raw_archive_metadata() {
    let payload: [u8; 14] = [
        0x8D, 0x48, 0x50, 0x20, 0x99, 0x44, 0x09, 0x94, 0x08, 0x38, 0x17, 0x5B, 0x28, 0x4F,
    ];
    let meta = header_data(&payload);
    assert_eq!(meta.icao_address, 0x485020);
    assert_eq!(meta.message_type, 19);
}

#[test]
fn ring_is_bounded_and_fifo() {
    // P5: however many producers push, the ring holds at most its
    // capacity; the overflow is discarded, not queued.
    let mut ring: RingBuffer<u64> = RingBuffer::new(3);
    assert_eq!(capacity_for(4096, 1365), 3);
    assert!(ring.try_push(1));
    assert!(ring.try_push(2));
    assert!(ring.try_push(3));
    for extra in 4..100u64 {
        assert!(!ring.try_push(extra));
        assert_eq!(ring.len(), 3);
    }

    // The batcher drains the oldest records first.
    let batch = ring.drain(2);
    assert_eq!(batch, vec![1, 2]);
    assert_eq!(ring.len(), 1);
    let rest = ring.drain(10);
    assert_eq!(rest, vec![3]);
    assert_eq!(ring.len(), 0);
    assert!(ring.drain(5).is_empty());
}

#[test]
fn failed_delivery_invalidates_and_drops() {
    // P7: a failing spatial-service call invalidates the client; the
    // drained batch is gone from the ring either way and is not
    // replayed on the next tick.
    let mut ring: RingBuffer<u64> = RingBuffer::new(8);
    for item in 1..6u64 {
        assert!(ring.try_push(item));
    }
    let batch = ring.drain(3);
    assert_eq!(batch, vec![1, 2, 3]);
    assert_eq!(after_delivery(false), ClientAction::Invalidate);
    assert_eq!(after_delivery(true), ClientAction::Keep);
    // The next tick sees only what the batch left behind.
    let next = ring.drain(3);
    assert_eq!(next, vec![4, 5]);
}

#[test]
fn batcher_cadence_sleep() {
    assert_eq!(batch_sleep_ms(10, 50), 40);
    assert_eq!(batch_sleep_ms(50, 50), 0);
    assert_eq!(batch_sleep_ms(80, 50), 0);
}

#[test]
fn broker_topology_names() {
    assert_eq!(amqp::EXCHANGE_NAME_TELEMETRY, "telemetry");
    assert_eq!(amqp::QUEUE_NAME_ADSB, "adsb");
    assert_eq!(amqp::ROUTING_KEY_ADSB, "adsb");
    assert_eq!(amqp::QUEUE_NAME_NETRID_ID, "netrid_id");
    assert_eq!(amqp::QUEUE_NAME_NETRID_POSITION, "netrid_pos");
    assert_eq!(amqp::QUEUE_NAME_NETRID_VELOCITY, "netrid_vel");
    assert_eq!(amqp::ROUTING_KEY_NETRID_ID, "netrid:id");
    assert_eq!(amqp::ROUTING_KEY_NETRID_POSITION, "netrid:pos");
    assert_eq!(amqp::ROUTING_KEY_NETRID_VELOCITY, "netrid:vel");
    assert_eq!(
        amqp::AMQPError::CouldNotPublish.message(),
        "Could not publish to queue."
    );
    assert_eq!(IngestError::NotImplemented.status_code(), 501);
    assert_eq!(IngestError::Unavailable.status_code(), 503);
    assert_eq!(IngestError::InternalError.status_code(), 500);
}

#[test]
fn health_requires_both_dependencies() {
    // With storage reachable and gis unreachable the service is
    // unavailable; with both reachable it is healthy.
    assert_eq!(health_status(true, false), 503);
    assert_eq!(health_status(false, true), 503);
    assert_eq!(health_status(false, false), 503);
    assert_eq!(health_status(true, true), 200);
}
