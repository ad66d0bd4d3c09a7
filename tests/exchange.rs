use a8mini_camera::exchange::{check_attitude_reply, check_command_reply, check_query_reply, check_transmit, ExchangeError};
use a8mini_camera::frame::{encode, FrameError};

#[test]
fn nothing_sent_is_a_transmit_failure() {
    assert_eq!(check_transmit(0), Err(ExchangeError::TransmitFailed));
    assert_eq!(check_transmit(10), Ok(()));
}

#[test]
fn timed_out_command_is_no_response() {
    assert_eq!(check_command_reply(None).unwrap_err(), ExchangeError::NoResponse);
}

#[test]
fn empty_command_reply_is_empty_response() {
    assert_eq!(check_command_reply(Some(vec![])).unwrap_err(), ExchangeError::EmptyResponse);
}

#[test]
fn corrupt_command_reply_is_invalid_frame() {
    let mut frame = encode(0x0d, &[1, 2]).unwrap();
    frame[8] ^= 0x10;
    assert_eq!(
        check_command_reply(Some(frame)).unwrap_err(),
        ExchangeError::InvalidFrame(FrameError::ChecksumMismatch)
    );
    assert_eq!(
        check_command_reply(Some(vec![1, 2, 3, 4, 5, 6, 7, 8, 9, 10])).unwrap_err(),
        ExchangeError::InvalidFrame(FrameError::Malformed)
    );
}

#[test]
fn valid_command_reply_yields_its_payload() {
    let frame = encode(0x81, &[5, 6, 7]).unwrap();
    let f = check_command_reply(Some(frame)).unwrap();
    assert_eq!(f.opcode, 0x81);
    assert_eq!(f.payload, vec![5, 6, 7]);
}

#[test]
fn attitude_reply_is_decoded() {
    let payload = [0x84u8, 0x03, 0x7c, 0xfc, 0, 0, 1, 0, 2, 0, 3, 0];
    let att = check_attitude_reply(Some(encode(0x0d, &payload).unwrap())).unwrap();
    assert_eq!((att.theta_yaw, att.theta_pitch, att.theta_roll), (900, -900, 0));
    assert_eq!((att.v_yaw, att.v_pitch, att.v_roll), (1, 2, 3));
}

#[test]
fn short_attitude_reply_is_a_decode_error() {
    let reply = encode(0x0d, &[0u8; 11]).unwrap();
    assert_eq!(check_attitude_reply(Some(reply)).unwrap_err(), ExchangeError::DecodeError);
    assert_eq!(check_attitude_reply(None).unwrap_err(), ExchangeError::NoResponse);
}

#[test]
fn text_reply_is_decoded() {
    assert_eq!(check_query_reply(Some(b"{\"code\":200}".to_vec())).unwrap(), "{\"code\":200}");
    assert_eq!(check_query_reply(Some("h\u{e9}".as_bytes().to_vec())).unwrap(), "h\u{e9}");
}

#[test]
fn text_reply_failures() {
    assert_eq!(check_query_reply(None).unwrap_err(), ExchangeError::NoResponse);
    assert_eq!(check_query_reply(Some(vec![])).unwrap_err(), ExchangeError::EmptyResponse);
    assert_eq!(check_query_reply(Some(vec![0x66, 0xff])).unwrap_err(), ExchangeError::TextDecodeError);
}
