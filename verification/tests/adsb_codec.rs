//! Tests of the ADS-B wire codec.

use svc_telemetry::msg::adsb::{
    decode_adsb, decode_altitude_feet, decode_vertical_rate_ftps, encode_adsb,
    encode_altitude_field, get_adsb_icao_address, get_adsb_message_type, ground_speed_components,
    AdsbMessage, CprFormat, DecodeError, EncodeError, FrameError, Sign, TypeCoding,
};
use svc_telemetry::types::Keys;

#[test]
fn test_get_adsb_icao_address() {
    let icao = [0x01, 0x02, 0x03];
    let icao_address = get_adsb_icao_address(&icao);
    assert_eq!(icao_address, 0x00010203);
}

#[test]
fn test_get_adsb_message_type() {
    let bytes = [0; 14];
    let message_type = get_adsb_message_type(&bytes);
    assert_eq!(message_type, 0);

    let mut bytes = [0; 14];
    let expected_message_type = 0b10101;
    bytes[4] = expected_message_type << 3;

    let message_type = get_adsb_message_type(&bytes);
    assert_eq!(message_type, expected_message_type as i64);
}

#[test]
fn test_decode_error_display() {
    assert_eq!(
        DecodeError::CrossedLatitudeZones.message(),
        "Crossed latitude zones"
    );
    assert_eq!(DecodeError::InvalidSubtype.message(), "Invalid subtype");
}

#[test]
fn api_ut_get_adsb_message_type() {
    {
        let expected_message_type: i64 = 4;
        let payload: [u8; 14] = [
            0x8D, 0x48, 0x40, 0xD6, 0x20, 0x2C, 0xC3, 0x71, 0xC3, 0x2C, 0xE0, 0x57, 0x60, 0x98,
        ];
        println!("{}", payload.len());
        let Ok(bytes) = <[u8; 14]>::try_from(payload) else {
            panic!();
        };
        assert_eq!(get_adsb_message_type(&bytes), expected_message_type);
    }

    {
        let expected_message_type: i64 = 11;
        let payload: [u8; 14] = [
            0x8D, 0x40, 0x62, 0x1D, 0x58, 0xC3, 0x82, 0xD6, 0x90, 0xC8, 0xAC, 0x28, 0x63, 0xA7,
        ];
        println!("{}", payload.len());
        let Ok(bytes) = <[u8; 14]>::try_from(payload) else {
            panic!();
        };
        assert_eq!(get_adsb_message_type(&bytes), expected_message_type);
    }

    {
        let expected_message_type: i64 = 19;
        let payload: [u8; 14] = [
            0x8D, 0x48, 0x50, 0x20, 0x99, 0x44, 0x09, 0x94, 0x08, 0x38, 0x17, 0x5B, 0x28, 0x4F,
        ];
        println!("{}", payload.len());
        let Ok(bytes) = <[u8; 14]>::try_from(payload) else {
            panic!();
        };
        assert_eq!(get_adsb_message_type(&bytes), expected_message_type);
    }
}

#[test]
fn rest_api_ut_get_adsb_message_type() {
    {
        let expected_message_type: i64 = 4;
        let payload: [u8; 14] = [
            0x8D, 0x48, 0x40, 0xD6, 0x20, 0x2C, 0xC3, 0x71, 0xC3, 0x2C, 0xE0, 0x57, 0x60, 0x98,
        ];
        println!("{}", payload.len());
        let Ok(bytes) = <[u8; 14]>::try_from(payload) else {
            panic!();
        };
        assert_eq!(get_adsb_message_type(&bytes), expected_message_type);
    }

    {
        let expected_message_type: i64 = 11;
        let payload: [u8; 14] = [
            0x8D, 0x40, 0x62, 0x1D, 0x58, 0xC3, 0x82, 0xD6, 0x90, 0xC8, 0xAC, 0x28, 0x63, 0xA7,
        ];
        println!("{}", payload.len());
        let Ok(bytes) = <[u8; 14]>::try_from(payload) else {
            panic!();
        };
        assert_eq!(get_adsb_message_type(&bytes), expected_message_type);
    }

    {
        let expected_message_type: i64 = 19;
        let payload: [u8; 14] = [
            0x8D, 0x48, 0x50, 0x20, 0x99, 0x44, 0x09, 0x94, 0x08, 0x38, 0x17, 0x5B, 0x28, 0x4F,
        ];
        println!("{}", payload.len());
        let Ok(bytes) = <[u8; 14]>::try_from(payload) else {
            panic!();
        };
        assert_eq!(get_adsb_message_type(&bytes), expected_message_type);
    }
}

#[test]
fn identification_frame_decodes_callsign() {
    let payload: [u8; 14] = [
        0x8D, 0x48, 0x40, 0xD6, 0x20, 0x2C, 0xC3, 0x71, 0xC3, 0x2C, 0xE0, 0x57, 0x60, 0x98,
    ];
    let frame = decode_adsb(&payload).unwrap();
    assert_eq!(frame.capability, 0x8D & 0x07);
    assert_eq!(frame.icao, [0x48, 0x40, 0xD6]);
    let AdsbMessage::Identification(id) = frame.message else {
        panic!("expected an identification message");
    };
    assert_eq!(id.tc, 4);
    assert_eq!(id.ca, 0);
    assert_eq!(id.type_coding(), TypeCoding::A);
    let callsign = svc_telemetry::handlers::callsign_string(&id.chars);
    assert_eq!(callsign, "KLM1023 ");
    // P1: the decoded frame re-encodes to the very bytes it came from.
    let encoded = encode_adsb(&frame);
    assert_eq!(encoded, payload.to_vec());
}

#[test]
fn position_frame_decodes_cpr_fields() {
    let payload: [u8; 14] = [
        0x8D, 0x40, 0x62, 0x1D, 0x58, 0xC3, 0x82, 0xD6, 0x90, 0xC8, 0xAC, 0x28, 0x63, 0xA7,
    ];
    let frame = decode_adsb(&payload).unwrap();
    let AdsbMessage::AirbornePosition(pos) = frame.message else {
        panic!("expected a position message");
    };
    assert_eq!(pos.tc, 11);
    assert_eq!(pos.odd_flag, CprFormat::Even);
    assert_eq!(pos.lat_cpr, 93000);
    assert_eq!(pos.lon_cpr, 51372);
    assert_eq!(pos.alt, Some(0xC38));
    // The altitude field decodes to 38000 ft.
    assert_eq!(decode_altitude_feet(0xC38), 38000);
    let encoded = encode_adsb(&frame);
    assert_eq!(encoded, payload.to_vec());
}

#[test]
fn velocity_frame_decodes_components() {
    let payload: [u8; 14] = [
        0x8D, 0x48, 0x50, 0x20, 0x99, 0x44, 0x09, 0x94, 0x08, 0x38, 0x17, 0x5B, 0x28, 0x4F,
    ];
    let frame = decode_adsb(&payload).unwrap();
    let AdsbMessage::AirborneVelocity(vel) = frame.message else {
        panic!("expected a velocity message");
    };
    assert_eq!(vel.st, 1);
    assert_eq!(vel.ew_sign, Sign::Negative);
    assert_eq!(vel.ew_vel, 9);
    assert_eq!(vel.ns_sign, Sign::Negative);
    assert_eq!(vel.ns_vel, 160);
    assert_eq!(vel.vrate_sign, Sign::Negative);
    assert_eq!(vel.vrate_value, 14);
    let encoded = encode_adsb(&frame);
    assert_eq!(encoded, payload.to_vec());
}

#[test]
fn non_adsb_downlink_format_rejected() {
    let mut payload: [u8; 14] = [0; 14];
    payload[0] = 0x28; // downlink format 5
    assert_eq!(decode_adsb(&payload), Err(FrameError::NonAdsbFormat));
}

#[test]
fn unsupported_type_code_rejected() {
    let mut payload: [u8; 14] = [0; 14];
    payload[0] = 17 << 3;
    payload[4] = 28 << 3; // emergency status, not decoded here
    assert_eq!(
        decode_adsb(&payload),
        Err(FrameError::UnsupportedMessageType)
    );
}

#[test]
fn ground_speed_components_by_subtype() {
    // The P10 vector: subtype 1, both components negative.
    let (vx, vy) = ground_speed_components(1, Sign::Negative, 9, Sign::Negative, 160).unwrap();
    assert_eq!((vx, vy), (-8, -159));

    // Subtype 2 scales by four.
    let (vx, vy) = ground_speed_components(2, Sign::Positive, 9, Sign::Negative, 160).unwrap();
    assert_eq!((vx, vy), (32, -636));

    // Airspeed-only subtypes are unsupported; others invalid.
    assert_eq!(
        ground_speed_components(3, Sign::Negative, 9, Sign::Negative, 160),
        Err(DecodeError::UnsupportedSubtype)
    );
    assert_eq!(
        ground_speed_components(4, Sign::Negative, 9, Sign::Negative, 160),
        Err(DecodeError::UnsupportedSubtype)
    );
    assert_eq!(
        ground_speed_components(5, Sign::Negative, 9, Sign::Negative, 160),
        Err(DecodeError::InvalidSubtype)
    );
}

#[test]
fn vertical_rate_in_feet_per_second() {
    assert_eq!(decode_vertical_rate_ftps(Sign::Negative, 14), -832);
    assert_eq!(decode_vertical_rate_ftps(Sign::Negative, 37), -2304);
    assert_eq!(decode_vertical_rate_ftps(Sign::Positive, 37), 2304);
}

#[test]
fn altitude_field_round_trip() {
    // 38000 ft encodes with the Q-bit and decodes back exactly.
    let field = encode_altitude_field(38000);
    assert_eq!(field, 0b110000111000);
    assert_eq!(decode_altitude_feet(field), 38000);
    assert_eq!(EncodeError::InvalidFlag.message(), "Invalid CPR flag");
}

#[test]
fn hashed_key_combines_icao_and_parity() {
    let payload: [u8; 14] = [
        0x8D, 0x48, 0x40, 0xD6, 0x20, 0x2C, 0xC3, 0x71, 0xC3, 0x2C, 0xE0, 0x57, 0x60, 0x98,
    ];
    let frame = decode_adsb(&payload).unwrap();
    assert_eq!(frame.primary_key(), 0x4840D6);
    assert_eq!(frame.secondary_key(), 0x576098);
    let p: u32 = 0x4840D6;
    assert_eq!(frame.hashed_key(), (p << 4) + p + 0x576098);
}
