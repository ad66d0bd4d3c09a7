//! Decisions of one request/response exchange. The caller transmits and
//! waits; these functions turn what the transport reported into the
//! exchange's result.
use vstd::prelude::*;
use vstd::utf8::{decode_utf8, valid_utf8};
use crate::control::{attitude_of, A8MiniAtittude, ATTITUDE_PAYLOAD_LEN};
use crate::frame::{decode, decode_frame, Frame, FrameError};

verus! {

/// Why an exchange failed.
#[derive(Clone, Copy, Debug, PartialEq, Eq, Structural)]
pub enum ExchangeError {
    /// The transport accepted no byte of the request.
    TransmitFailed,
    /// No reply came before the timeout.
    NoResponse,
    /// The reply was empty.
    EmptyResponse,
    /// The reply is not a valid frame.
    InvalidFrame(FrameError),
    /// The reply payload does not have the expected layout.
    DecodeError,
    /// The reply to a text query is not valid UTF-8.
    TextDecodeError,
}

/// Result of transmitting a request of which the transport accepted `sent`
/// bytes.
pub fn check_transmit(sent: usize) -> (r: Result<(), ExchangeError>)
    ensures
        r == (if sent > 0 {
            Ok::<(), ExchangeError>(())
        } else {
            Err(ExchangeError::TransmitFailed)
        }),
{
    if sent == 0 {
        Err(ExchangeError::TransmitFailed)
    } else {
        Ok(())
    }
}

/// The bytes of a reply, if one arrived.
pub open spec fn reply_view(reply: Option<Vec<u8>>) -> Option<Seq<u8>> {
    match reply {
        Some(v) => Some(v@),
        None => None,
    }
}

/// What a command exchange yields for a reply (`None`: the wait timed out).
pub open spec fn command_outcome(reply: Option<Seq<u8>>) -> Result<(u8, Seq<u8>), ExchangeError> {
    match reply {
        None => Err(ExchangeError::NoResponse),
        Some(b) => if b.len() == 0 {
            Err(ExchangeError::EmptyResponse)
        } else {
            match decode_frame(b) {
                Ok(f) => Ok(f),
                Err(e) => Err(ExchangeError::InvalidFrame(e)),
            }
        },
    }
}

/// The result of a command exchange, given the reply that arrived, or `None`
/// when the wait for it timed out.
pub fn check_command_reply(reply: Option<Vec<u8>>) -> (r: Result<Frame, ExchangeError>)
    ensures
        match r {
            Ok(f) => command_outcome(reply_view(reply)) == Ok::<
                (u8, Seq<u8>),
                ExchangeError,
            >((f.opcode, f.payload@)),
            Err(e) => command_outcome(reply_view(reply)) == Err::<
                (u8, Seq<u8>),
                ExchangeError,
            >(e),
        },
{
    match reply {
        None => Err(ExchangeError::NoResponse),
        Some(bytes) => {
            if bytes.len() == 0 {
                return Err(ExchangeError::EmptyResponse);
            }
            match decode(bytes.as_slice()) {
                Ok(f) => Ok(f),
                Err(e) => Err(ExchangeError::InvalidFrame(e)),
            }
        },
    }
}

/// The attitude an attitude exchange yields, given its reply.
pub open spec fn attitude_outcome(reply: Option<Seq<u8>>) -> Result<A8MiniAtittude, ExchangeError> {
    match command_outcome(reply) {
        Err(e) => Err(e),
        Ok((_, p)) => if p.len() == ATTITUDE_PAYLOAD_LEN {
            Ok(attitude_of(p))
        } else {
            Err(ExchangeError::DecodeError)
        },
    }
}

/// The result of an attitude exchange: the reply is validated as a frame and
/// its payload decoded as an attitude.
pub fn check_attitude_reply(reply: Option<Vec<u8>>) -> (r: Result<A8MiniAtittude, ExchangeError>)
    ensures
        r == attitude_outcome(reply_view(reply)),
{
    match check_command_reply(reply) {
        Ok(f) => A8MiniAtittude::from_payload(f.payload.as_slice()),
        Err(e) => Err(e),
    }
}

/// Relies on `String::from_utf8`: it succeeds exactly on valid UTF-8, and the
/// string then holds the characters the bytes encode.
#[verifier::external_body]
fn utf8_to_string(bytes: Vec<u8>) -> (r: Option<String>)
    ensures
        match r {
            Some(s) => valid_utf8(bytes@) && s@ == decode_utf8(bytes@),
            None => !valid_utf8(bytes@),
        },
{
    String::from_utf8(bytes).ok()
}

/// The result of a text-query exchange, given the reply that arrived, or
/// `None` when the wait for it timed out.
pub fn check_query_reply(reply: Option<Vec<u8>>) -> (r: Result<String, ExchangeError>)
    ensures
        match reply {
            None => r == Err::<String, ExchangeError>(ExchangeError::NoResponse),
            Some(b) => if b@.len() == 0 {
                r == Err::<String, ExchangeError>(ExchangeError::EmptyResponse)
            } else if !valid_utf8(b@) {
                r == Err::<String, ExchangeError>(ExchangeError::TextDecodeError)
            } else {
                r matches Ok(s) && s@ == decode_utf8(b@)
            },
        },
{
    match reply {
        None => Err(ExchangeError::NoResponse),
        Some(bytes) => {
            if bytes.len() == 0 {
                return Err(ExchangeError::EmptyResponse);
            }
            match utf8_to_string(bytes) {
                Some(s) => Ok(s),
                None => Err(ExchangeError::TextDecodeError),
            }
        },
    }
}

} // verus!
