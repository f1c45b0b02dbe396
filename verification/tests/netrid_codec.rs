//! Tests of the Remote-ID wire codec.

use svc_telemetry::msg::netrid::{
    BasicMessage, EastWestDirection, Frame, Header, HeightType, HorizontalAccuracyMeters, IdType,
    LocationDecodeError, LocationEncodeError, LocationMessage, MessageType, OperationalStatus,
    RidMessage, SpeedAccuracyMetersPerSecond, SpeedMultiplier, UaType, UnpackError,
    VerticalAccuracyMeters,
};

#[test]
fn test_basic_id_message() {
    let msg = BasicMessage {
        id_type: IdType::CaaAssigned,
        ua_type: UaType::Rotorcraft,
        uas_id: [0; 20],
        reserved: [0; 3],
    };

    let frame = Frame {
        header: Header {
            message_type: MessageType::Basic,
            ..Default::default()
        },
        message: msg.pack().try_into().unwrap(),
    };

    let bytes = frame.pack();
    assert_eq!(bytes.len(), 25);
}

#[test]
fn test_location_message() {
    let msg = LocationMessage {
        operational_status: OperationalStatus::Airborne,
        reserved_0: 0,
        height_type: HeightType::AboveTakeoff,
        ew_direction: EastWestDirection::East,
        speed_multiplier: SpeedMultiplier::X0_25,
        track_direction: 10,
        speed: 0,
        vertical_speed: 0,
        latitude: 0,
        longitude: 0,
        pressure_altitude: 0,
        geodetic_altitude: 0,
        height: 0,
        vertical_accuracy: VerticalAccuracyMeters::Lt150,
        horizontal_accuracy: HorizontalAccuracyMeters::Lt1852,
        barometric_altitude_accuracy: VerticalAccuracyMeters::Lt150,
        speed_accuracy: SpeedAccuracyMetersPerSecond::Lt10,
        timestamp: 0,
        reserved_1: 0,
        timestamp_accuracy: 0,
        reserved_2: 0,
    };

    let frame = Frame {
        header: Header {
            message_type: MessageType::Location,
            ..Default::default()
        },
        message: msg.pack().try_into().unwrap(),
    };

    let bytes = frame.clone().pack();
    assert_eq!(bytes.len(), 25);
}

#[test]
fn frame_round_trips_through_bytes() {
    let msg = BasicMessage {
        id_type: IdType::SerialNumber,
        ua_type: UaType::Aeroplane,
        uas_id: *b"DRONE-001           ",
        reserved: [0; 3],
    };
    let frame = Frame {
        header: Header::default(),
        message: msg.pack().try_into().unwrap(),
    };
    let bytes: [u8; 25] = frame.pack().try_into().unwrap();
    let reparsed = Frame::unpack(&bytes).unwrap();
    assert_eq!(reparsed, frame);
    let inner = BasicMessage::unpack(&reparsed.message).unwrap();
    assert_eq!(inner, msg);
}

#[test]
fn location_message_round_trips_through_bytes() {
    let msg = LocationMessage {
        operational_status: OperationalStatus::Airborne,
        reserved_0: 0,
        height_type: HeightType::AboveGroundLevel,
        ew_direction: EastWestDirection::West,
        speed_multiplier: SpeedMultiplier::X0_75,
        track_direction: 10,
        speed: 120,
        vertical_speed: -4,
        latitude: 540000000,
        longitude: 50000000,
        pressure_altitude: 2204,
        geodetic_altitude: 2210,
        height: 200,
        vertical_accuracy: VerticalAccuracyMeters::Lt1,
        horizontal_accuracy: HorizontalAccuracyMeters::Lt1,
        barometric_altitude_accuracy: VerticalAccuracyMeters::Lt1,
        speed_accuracy: SpeedAccuracyMetersPerSecond::Lt1,
        timestamp: 31000,
        reserved_1: 0,
        timestamp_accuracy: 3,
        reserved_2: 0,
    };
    let bytes: [u8; 24] = msg.pack().try_into().unwrap();
    let reparsed = LocationMessage::unpack(&bytes).unwrap();
    assert_eq!(reparsed, msg);
    assert_eq!(reparsed.pack(), bytes.to_vec());
}

#[test]
fn reserved_field_values_rejected() {
    // Operational status values 5-15 are reserved.
    let mut bytes: [u8; 24] = [0; 24];
    bytes[0] = 0x50;
    assert_eq!(
        LocationMessage::unpack(&bytes),
        Err(UnpackError::InvalidField)
    );

    // Identification types above 4 are unknown.
    let mut bytes: [u8; 24] = [0; 24];
    bytes[0] = 0x70;
    assert_eq!(BasicMessage::unpack(&bytes), Err(UnpackError::InvalidField));

    // Header message types 6-14 are unknown.
    let mut bytes: [u8; 25] = [0; 25];
    bytes[0] = 0x62;
    assert_eq!(Frame::unpack(&bytes), Err(UnpackError::InvalidField));
}

#[test]
fn only_basic_and_location_messages_decode() {
    let msg = BasicMessage {
        id_type: IdType::CaaAssigned,
        ua_type: UaType::Aeroplane,
        uas_id: [0; 20],
        reserved: [0; 3],
    };
    let mut frame = Frame {
        header: Header {
            message_type: MessageType::Basic,
            protocol_version: 2,
        },
        message: msg.pack().try_into().unwrap(),
    };
    let decoded = frame.decode_message().unwrap();
    assert_eq!(decoded, RidMessage::Basic(msg));

    // A message-pack frame is well-formed but not ingested.
    frame.header.message_type = MessageType::MessagePack;
    assert_eq!(frame.decode_message(), Err(UnpackError::InvalidField));

    // A location header over a basic body decodes as the header
    // says, or is rejected when the fields do not fit.
    frame.header.message_type = MessageType::Location;
    assert!(frame.decode_message().is_ok());
}

#[test]
fn direction_encoding_splits_at_180() {
    let msg_east = LocationMessage {
        operational_status: OperationalStatus::Undeclared,
        reserved_0: 0,
        height_type: HeightType::AboveTakeoff,
        ew_direction: EastWestDirection::East,
        speed_multiplier: SpeedMultiplier::X0_25,
        track_direction: 10,
        speed: 0,
        vertical_speed: 0,
        latitude: 0,
        longitude: 0,
        pressure_altitude: 0,
        geodetic_altitude: 0,
        height: 0,
        vertical_accuracy: VerticalAccuracyMeters::Gte150Unknown,
        horizontal_accuracy: HorizontalAccuracyMeters::Gte18520,
        barometric_altitude_accuracy: VerticalAccuracyMeters::Gte150Unknown,
        speed_accuracy: SpeedAccuracyMetersPerSecond::Gte10Unknown,
        timestamp: 0,
        reserved_1: 0,
        timestamp_accuracy: 0,
        reserved_2: 0,
    };
    assert_eq!(msg_east.decode_direction(), 10);
    let mut msg_west = msg_east;
    msg_west.ew_direction = EastWestDirection::West;
    assert_eq!(msg_west.decode_direction(), 190);

    assert_eq!(
        LocationMessage::encode_direction(190),
        Ok((EastWestDirection::West, 10))
    );
    assert_eq!(
        LocationMessage::encode_direction(10),
        Ok((EastWestDirection::East, 10))
    );
    assert_eq!(
        LocationMessage::encode_direction(360),
        Err(LocationEncodeError::InvalidTrackAngle)
    );
}

#[test]
fn speed_quarters_round_trip_and_sentinels() {
    let mut msg = LocationMessage {
        operational_status: OperationalStatus::Undeclared,
        reserved_0: 0,
        height_type: HeightType::AboveTakeoff,
        ew_direction: EastWestDirection::East,
        speed_multiplier: SpeedMultiplier::X0_25,
        track_direction: 0,
        speed: 120,
        vertical_speed: 0,
        latitude: 0,
        longitude: 0,
        pressure_altitude: 0,
        geodetic_altitude: 0,
        height: 0,
        vertical_accuracy: VerticalAccuracyMeters::Gte150Unknown,
        horizontal_accuracy: HorizontalAccuracyMeters::Gte18520,
        barometric_altitude_accuracy: VerticalAccuracyMeters::Gte150Unknown,
        speed_accuracy: SpeedAccuracyMetersPerSecond::Gte10Unknown,
        timestamp: 0,
        reserved_1: 0,
        timestamp_accuracy: 0,
        reserved_2: 0,
    };
    // 30 m/s = 120 quarters under the 0.25 multiplier.
    assert_eq!(msg.decode_speed_quarters(), Ok(120));
    assert_eq!(
        LocationMessage::encode_speed_quarters(120),
        (SpeedMultiplier::X0_25, 120)
    );

    // 255 under the 0.75 multiplier is the unknown-speed sentinel.
    msg.speed_multiplier = SpeedMultiplier::X0_75;
    msg.speed = 255;
    assert_eq!(
        msg.decode_speed_quarters(),
        Err(LocationDecodeError::UnknownSpeed)
    );

    // 254 under the 0.75 multiplier means at least 254.25 m/s.
    msg.speed = 254;
    assert_eq!(
        msg.decode_speed_quarters(),
        Err(LocationDecodeError::SpeedGte254_25)
    );

    // The high range encodes with the 0.75 multiplier.
    assert_eq!(
        LocationMessage::encode_speed_quarters(300),
        (SpeedMultiplier::X0_75, 15)
    );
    assert_eq!(
        LocationMessage::encode_speed_quarters(2000),
        (SpeedMultiplier::X0_75, 254)
    );

    // Vertical speed: sentinel and saturation.
    msg.vertical_speed = 126;
    assert_eq!(
        msg.decode_vertical_speed_halves(),
        Err(LocationDecodeError::UnknownSpeed)
    );
    msg.vertical_speed = 125;
    assert_eq!(msg.decode_vertical_speed_halves(), Ok(124));
    msg.vertical_speed = -125;
    assert_eq!(msg.decode_vertical_speed_halves(), Ok(-124));
    msg.vertical_speed = 8;
    assert_eq!(msg.decode_vertical_speed_halves(), Ok(8));

    // Altitude: the zero field is the unknown sentinel.
    assert_eq!(
        msg.decode_altitude_half_meters(),
        Err(LocationDecodeError::UnknownAltitude)
    );
    msg.pressure_altitude = 2204;
    assert_eq!(msg.decode_altitude_half_meters(), Ok(204));
}

#[test]
fn timestamp_resolves_against_the_clock() {
    let hour: u64 = 3_600_000;
    // Ten minutes into the hour, a field of 6000 tenths (= 10 min)
    // names the current instant.
    let now = 100 * hour + 600_000;
    let mut msg = LocationMessage {
        operational_status: OperationalStatus::Undeclared,
        reserved_0: 0,
        height_type: HeightType::AboveTakeoff,
        ew_direction: EastWestDirection::East,
        speed_multiplier: SpeedMultiplier::X0_25,
        track_direction: 0,
        speed: 0,
        vertical_speed: 0,
        latitude: 0,
        longitude: 0,
        pressure_altitude: 0,
        geodetic_altitude: 0,
        height: 0,
        vertical_accuracy: VerticalAccuracyMeters::Gte150Unknown,
        horizontal_accuracy: HorizontalAccuracyMeters::Gte18520,
        barometric_altitude_accuracy: VerticalAccuracyMeters::Gte150Unknown,
        speed_accuracy: SpeedAccuracyMetersPerSecond::Gte10Unknown,
        timestamp: 6000,
        reserved_1: 0,
        timestamp_accuracy: 0,
        reserved_2: 0,
    };
    assert_eq!(msg.decode_timestamp_ms(now), 100 * hour + 600_000);

    // A field beyond the elapsed tenths refers to the previous hour.
    msg.timestamp = 12000;
    assert_eq!(msg.decode_timestamp_ms(now), 99 * hour + 1_200_000);

    // Encoding takes the tenths since the top of the hour.
    assert_eq!(LocationMessage::encode_timestamp_tenths(now), 6000);
}
