use a8mini_camera::checksum::checksum;
use a8mini_camera::control::{A8MiniAtittude, A8MiniComplexCommand, A8MiniHTTPQuery, A8MiniSimpleCommand};
use a8mini_camera::exchange::ExchangeError;
use a8mini_camera::frame::{decode, encode, FrameError, MAX_PAYLOAD_LEN};

#[test]
fn checksum_of_empty_input_is_zero() {
    assert_eq!(checksum(&[]), 0);
}

#[test]
fn checksum_matches_standard_check_value() {
    assert_eq!(checksum(b"123456789"), 0x31c3);
}

#[test]
fn checksum_is_deterministic_and_sees_a_flipped_bit() {
    let data = vec![0x55u8, 0x66, 0x01, 0x04, 0x00, 0x00, 0x00, 0x0e, 0x84, 0x03];
    assert_eq!(checksum(&data), checksum(&data));
    for i in 0..data.len() {
        for bit in 0..8 {
            let mut flipped = data.clone();
            flipped[i] ^= 1u8 << bit;
            assert_ne!(checksum(&flipped), checksum(&data));
        }
    }
}

#[test]
fn simple_command_with_empty_payload_matches_reference_frame() {
    let frame = encode(0x01, &[]).unwrap();
    assert_eq!(frame, vec![0x55, 0x66, 0x01, 0x00, 0x00, 0x00, 0x00, 0x01, 0x64, 0xc4]);
    assert_eq!(A8MiniSimpleCommand::FirmwareVersionInformation.to_bytes(), frame);
}

#[test]
fn attitude_request_frame() {
    assert_eq!(
        A8MiniSimpleCommand::AttitudeInformation.to_bytes(),
        vec![0x55, 0x66, 0x01, 0x00, 0x00, 0x00, 0x00, 0x0d, 0xe8, 0x05]
    );
}

#[test]
fn auto_center_frame() {
    assert_eq!(
        A8MiniSimpleCommand::AutoCenter.to_bytes(),
        vec![0x55, 0x66, 0x01, 0x01, 0x00, 0x00, 0x00, 0x08, 0x01, 0xd1, 0x12]
    );
}

#[test]
fn take_picture_frame() {
    assert_eq!(
        A8MiniSimpleCommand::TakePicture.to_bytes(),
        vec![0x55, 0x66, 0x01, 0x01, 0x00, 0x00, 0x00, 0x0c, 0x00, 0x34, 0xce]
    );
}

#[test]
fn rotation_commands_carry_speed_pairs() {
    assert_eq!(A8MiniSimpleCommand::RotateUp.payload(), vec![0x00, 0x64]);
    assert_eq!(A8MiniSimpleCommand::RotateLeft.payload(), vec![0x9c, 0x00]);
    assert_eq!(A8MiniSimpleCommand::StopRotation.opcode(), 0x07);
}

#[test]
fn angle_command_serialises_two_little_endian_i16() {
    let cmd = A8MiniComplexCommand::SetYawPitchAngle(900, -900);
    let payload = cmd.payload();
    assert_eq!(payload.len(), 4);
    assert_eq!(payload, vec![0x84, 0x03, 0x7c, 0xfc]);
    assert_eq!(cmd.opcode(), 0x0e);
    let frame = cmd.to_bytes();
    assert_eq!(&frame[..8], &[0x55, 0x66, 0x01, 0x04, 0x00, 0x00, 0x00, 0x0e]);
    assert_eq!(&frame[8..12], &payload[..]);
    assert_eq!(frame.len(), 14);
}

#[test]
fn angle_command_is_not_clamped() {
    assert_eq!(A8MiniComplexCommand::SetYawPitchAngle(-32768, 32767).payload(), vec![0x00, 0x80, 0xff, 0x7f]);
}

#[test]
fn speed_command_serialises_signed_bytes() {
    assert_eq!(A8MiniComplexCommand::SetYawPitchSpeed(-25, -15).payload(), vec![0xe7, 0xf1]);
    assert_eq!(A8MiniComplexCommand::SetYawPitchSpeed(50, 10).payload(), vec![0x32, 0x0a]);
}

#[test]
fn time_command_serialises_little_endian_u64() {
    let cmd = A8MiniComplexCommand::SetTimeUTC(0x0102030405060708);
    assert_eq!(cmd.payload(), vec![0x08, 0x07, 0x06, 0x05, 0x04, 0x03, 0x02, 0x01]);
    assert_eq!(cmd.opcode(), 0x30);
}

#[test]
fn codec_specs_command_layout() {
    let cmd = A8MiniComplexCommand::SetCodecSpecs(1, 2, 1920, 1080, 4000, 0);
    assert_eq!(cmd.payload(), vec![1, 2, 0x80, 0x07, 0x38, 0x04, 0xa0, 0x0f, 0]);
    assert_eq!(A8MiniComplexCommand::GetCodecSpecs(1).payload(), vec![1]);
}

#[test]
fn round_trip_recovers_opcode_and_payload() {
    let payload = vec![1u8, 2, 3, 250, 0, 7];
    let frame = encode(0x42, &payload).unwrap();
    let decoded = decode(&frame).unwrap();
    assert_eq!(decoded.opcode, 0x42);
    assert_eq!(decoded.payload, payload);
}

#[test]
fn trailing_bytes_after_the_checksum_are_ignored() {
    let mut frame = encode(0x0d, &[9, 8]).unwrap();
    frame.extend_from_slice(&[0, 0, 0, 0]);
    let decoded = decode(&frame).unwrap();
    assert_eq!(decoded.payload, vec![9, 8]);
}

#[test]
fn flipping_a_payload_or_checksum_bit_is_rejected() {
    let frame = encode(0x0e, &[0x84, 0x03, 0x7c, 0xfc]).unwrap();
    for i in 8..frame.len() {
        for bit in 0..8 {
            let mut bad = frame.clone();
            bad[i] ^= 1u8 << bit;
            assert_eq!(decode(&bad).unwrap_err(), FrameError::ChecksumMismatch);
        }
    }
}

#[test]
fn overlong_declared_length_is_truncated() {
    let mut frame = encode(0x01, &[1, 2, 3]).unwrap();
    frame[3] = 200;
    assert_eq!(decode(&frame).unwrap_err(), FrameError::Truncated);
}

#[test]
fn short_buffer_is_truncated() {
    assert_eq!(decode(&[0x55, 0x66, 0x01]).unwrap_err(), FrameError::Truncated);
    assert_eq!(decode(&[]).unwrap_err(), FrameError::Truncated);
}

#[test]
fn wrong_sync_marker_is_malformed() {
    let mut frame = encode(0x01, &[]).unwrap();
    frame[0] = 0x56;
    assert_eq!(decode(&frame).unwrap_err(), FrameError::Malformed);
}

#[test]
fn largest_payload_is_framed_and_one_more_byte_is_refused() {
    let payload = vec![0xabu8; MAX_PAYLOAD_LEN];
    let frame = encode(0x20, &payload).unwrap();
    assert_eq!(frame.len(), MAX_PAYLOAD_LEN + 10);
    assert_eq!(decode(&frame).unwrap().payload.len(), MAX_PAYLOAD_LEN);
    let too_big = vec![0u8; MAX_PAYLOAD_LEN + 1];
    assert_eq!(encode(0x20, &too_big).unwrap_err(), FrameError::PayloadTooLarge);
}

#[test]
fn attitude_payload_populates_every_field() {
    let payload = [0x84u8, 0x03, 0x7c, 0xfc, 0x0a, 0x00, 0xff, 0xff, 0x00, 0x80, 0xff, 0x7f];
    let att = A8MiniAtittude::from_payload(&payload).unwrap();
    assert_eq!(
        att,
        A8MiniAtittude { theta_yaw: 900, theta_pitch: -900, theta_roll: 10, v_yaw: -1, v_pitch: -32768, v_roll: 32767 }
    );
}

#[test]
fn attitude_payload_one_byte_short_is_a_decode_error() {
    let payload = [0u8; 11];
    assert_eq!(A8MiniAtittude::from_payload(&payload).unwrap_err(), ExchangeError::DecodeError);
    assert_eq!(A8MiniAtittude::from_payload(&[0u8; 13]).unwrap_err(), ExchangeError::DecodeError);
}

#[test]
fn queries_are_fixed_strings() {
    assert_eq!(
        A8MiniHTTPQuery::GetDirectoriesPhotos.text(),
        "/cgi-bin/media.cgi/api/v1/getdirectories?media_type=0"
    );
    assert_eq!(
        A8MiniHTTPQuery::GetMediaCountVideos.text(),
        "/cgi-bin/media.cgi/api/v1/getmediacount?media_type=1"
    );
}
