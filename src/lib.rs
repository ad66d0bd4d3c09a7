//! Control protocol of a gimbal camera reached over UDP: the CRC-16 that
//! seals each frame, the frame codec, the command and text-query catalogues,
//! the attitude telemetry layout, and the decisions of one request/response
//! exchange.
use vstd::prelude::*;

pub mod checksum;
pub mod frame;
pub mod control;
pub mod exchange;

verus! {

} // verus!
