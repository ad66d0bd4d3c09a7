//! The command catalogue, the text-query catalogue and the attitude
//! telemetry layout.
use vstd::prelude::*;
use crate::exchange::ExchangeError;
use crate::frame::{encode, encode_frame, le16, read_le16, MAX_PAYLOAD_LEN};

verus! {

/// Two's-complement bit pattern of a signed 16-bit value.
pub open spec fn i16_bits(x: i16) -> int {
    if x < 0 {
        x + 0x10000
    } else {
        x as int
    }
}

/// Two's-complement byte of a signed 8-bit value.
pub open spec fn i8_byte(x: i8) -> u8 {
    (if x < 0 {
        x + 0x100
    } else {
        x as int
    }) as u8
}

/// Little-endian signed 16-bit value.
pub open spec fn i16_le(x: i16) -> Seq<u8> {
    le16(i16_bits(x))
}

/// The `width` low bytes of `v`, least significant first.
pub open spec fn le_bytes(v: nat, width: nat) -> Seq<u8>
    decreases width,
{
    if width == 0 {
        Seq::empty()
    } else {
        seq![(v % 256) as u8] + le_bytes(v / 256, (width - 1) as nat)
    }
}

proof fn lemma_le_bytes_len(v: nat, width: nat)
    ensures
        le_bytes(v, width).len() == width,
    decreases width,
{
    if width > 0 {
        lemma_le_bytes_len(v / 256, (width - 1) as nat);
    }
}

/// The signed 16-bit value of two little-endian bytes.
pub open spec fn read_i16(lo: u8, hi: u8) -> i16 {
    (if read_le16(lo, hi) >= 0x8000 {
        read_le16(lo, hi) - 0x10000
    } else {
        read_le16(lo, hi)
    }) as i16
}

fn push_le16(out: &mut Vec<u8>, v: u16)
    ensures
        final(out)@ == old(out)@ + le16(v as int),
{
    out.push((v % 256) as u8);
    out.push((v / 256) as u8);
    assert(final(out)@ =~= old(out)@ + le16(v as int));
}

fn push_i16(out: &mut Vec<u8>, x: i16)
    ensures
        final(out)@ == old(out)@ + i16_le(x),
{
    let bits: u16 = if x < 0 {
        (x as i32 + 0x10000) as u16
    } else {
        x as u16
    };
    push_le16(out, bits);
}

fn push_le_u64(out: &mut Vec<u8>, v: u64)
    ensures
        final(out)@ == old(out)@ + le_bytes(v as nat, 8),
{
    let ghost start = out@;
    let mut rest: u64 = v;
    let mut i: u64 = 0;
    while i < 8
        invariant
            i <= 8,
            out@ + le_bytes(rest as nat, (8 - i) as nat) == start + le_bytes(v as nat, 8),
        decreases 8 - i,
    {
        assert(le_bytes(rest as nat, (8 - i) as nat) =~= seq![(rest % 256) as u8] + le_bytes(
            (rest / 256) as nat,
            (8 - i - 1) as nat,
        ));
        out.push((rest % 256) as u8);
        rest = rest / 256;
        i = i + 1;
        assert(out@ + le_bytes(rest as nat, (8 - i) as nat) =~= start + le_bytes(v as nat, 8));
    }
    assert(le_bytes(rest as nat, 0) =~= Seq::<u8>::empty());
    assert(out@ =~= start + le_bytes(v as nat, 8));
}

/// Frames a payload of catalogue size; such payloads always fit.
fn frame_small(opcode: u8, payload: &Vec<u8>) -> (r: Vec<u8>)
    requires
        payload@.len() <= MAX_PAYLOAD_LEN,
    ensures
        r@ == encode_frame(opcode, payload@),
{
    match encode(opcode, payload.as_slice()) {
        Ok(v) => v,
        // the precondition keeps `encode` from failing here
        Err(_) => Vec::new(),
    }
}

/// Commands without parameters: each has a fixed opcode and payload.
#[derive(Clone, Copy, Debug, PartialEq, Eq, Structural)]
pub enum A8MiniSimpleCommand {
    AutoCenter,
    RotateUp,
    RotateDown,
    RotateRight,
    RotateLeft,
    StopRotation,
    ZoomIn,
    ZoomOut,
    FocusIn,
    FocusOut,
    AutoFocus,
    TakePicture,
    RecordVideo,
    SetLockMode,
    SetFollowMode,
    SetFPVMode,
    FirmwareVersionInformation,
    HardwareIDInformation,
    CameraInformation,
    AttitudeInformation,
    MaxZoomInformation,
}

impl A8MiniSimpleCommand {
    pub open spec fn spec_opcode(self) -> u8 {
        match self {
            A8MiniSimpleCommand::AutoCenter => 0x08,
            A8MiniSimpleCommand::RotateUp => 0x07,
            A8MiniSimpleCommand::RotateDown => 0x07,
            A8MiniSimpleCommand::RotateRight => 0x07,
            A8MiniSimpleCommand::RotateLeft => 0x07,
            A8MiniSimpleCommand::StopRotation => 0x07,
            A8MiniSimpleCommand::ZoomIn => 0x05,
            A8MiniSimpleCommand::ZoomOut => 0x05,
            A8MiniSimpleCommand::FocusIn => 0x06,
            A8MiniSimpleCommand::FocusOut => 0x06,
            A8MiniSimpleCommand::AutoFocus => 0x04,
            A8MiniSimpleCommand::TakePicture => 0x0c,
            A8MiniSimpleCommand::RecordVideo => 0x0c,
            A8MiniSimpleCommand::SetLockMode => 0x0c,
            A8MiniSimpleCommand::SetFollowMode => 0x0c,
            A8MiniSimpleCommand::SetFPVMode => 0x0c,
            A8MiniSimpleCommand::FirmwareVersionInformation => 0x01,
            A8MiniSimpleCommand::HardwareIDInformation => 0x02,
            A8MiniSimpleCommand::CameraInformation => 0x0a,
            A8MiniSimpleCommand::AttitudeInformation => 0x0d,
            A8MiniSimpleCommand::MaxZoomInformation => 0x16,
        }
    }

    pub open spec fn spec_payload(self) -> Seq<u8> {
        match self {
            A8MiniSimpleCommand::AutoCenter => seq![0x01u8],
            A8MiniSimpleCommand::RotateUp => seq![0x00u8, 0x64u8],
            A8MiniSimpleCommand::RotateDown => seq![0x00u8, 0x9cu8],
            A8MiniSimpleCommand::RotateRight => seq![0x64u8, 0x00u8],
            A8MiniSimpleCommand::RotateLeft => seq![0x9cu8, 0x00u8],
            A8MiniSimpleCommand::StopRotation => seq![0x00u8, 0x00u8],
            A8MiniSimpleCommand::ZoomIn => seq![0x01u8],
            A8MiniSimpleCommand::ZoomOut => seq![0xffu8],
            A8MiniSimpleCommand::FocusIn => seq![0x01u8],
            A8MiniSimpleCommand::FocusOut => seq![0xffu8],
            A8MiniSimpleCommand::AutoFocus => seq![0x01u8],
            A8MiniSimpleCommand::TakePicture => seq![0x00u8],
            A8MiniSimpleCommand::RecordVideo => seq![0x02u8],
            A8MiniSimpleCommand::SetLockMode => seq![0x03u8],
            A8MiniSimpleCommand::SetFollowMode => seq![0x04u8],
            A8MiniSimpleCommand::SetFPVMode => seq![0x05u8],
            _ => Seq::empty(),
        }
    }

    /// The opcode that selects this command.
    pub fn opcode(&self) -> (r: u8)
        ensures
            r == self.spec_opcode(),
    {
        match self {
            A8MiniSimpleCommand::AutoCenter => 0x08,
            A8MiniSimpleCommand::RotateUp => 0x07,
            A8MiniSimpleCommand::RotateDown => 0x07,
            A8MiniSimpleCommand::RotateRight => 0x07,
            A8MiniSimpleCommand::RotateLeft => 0x07,
            A8MiniSimpleCommand::StopRotation => 0x07,
            A8MiniSimpleCommand::ZoomIn => 0x05,
            A8MiniSimpleCommand::ZoomOut => 0x05,
            A8MiniSimpleCommand::FocusIn => 0x06,
            A8MiniSimpleCommand::FocusOut => 0x06,
            A8MiniSimpleCommand::AutoFocus => 0x04,
            A8MiniSimpleCommand::TakePicture => 0x0c,
            A8MiniSimpleCommand::RecordVideo => 0x0c,
            A8MiniSimpleCommand::SetLockMode => 0x0c,
            A8MiniSimpleCommand::SetFollowMode => 0x0c,
            A8MiniSimpleCommand::SetFPVMode => 0x0c,
            A8MiniSimpleCommand::FirmwareVersionInformation => 0x01,
            A8MiniSimpleCommand::HardwareIDInformation => 0x02,
            A8MiniSimpleCommand::CameraInformation => 0x0a,
            A8MiniSimpleCommand::AttitudeInformation => 0x0d,
            A8MiniSimpleCommand::MaxZoomInformation => 0x16,
        }
    }

    /// The payload this command carries.
    pub fn payload(&self) -> (r: Vec<u8>)
        ensures
            r@ == self.spec_payload(),
    {
        let r = match self {
            A8MiniSimpleCommand::AutoCenter => vec![0x01u8],
            A8MiniSimpleCommand::RotateUp => vec![0x00u8, 0x64u8],
            A8MiniSimpleCommand::RotateDown => vec![0x00u8, 0x9cu8],
            A8MiniSimpleCommand::RotateRight => vec![0x64u8, 0x00u8],
            A8MiniSimpleCommand::RotateLeft => vec![0x9cu8, 0x00u8],
            A8MiniSimpleCommand::StopRotation => vec![0x00u8, 0x00u8],
            A8MiniSimpleCommand::ZoomIn => vec![0x01u8],
            A8MiniSimpleCommand::ZoomOut => vec![0xffu8],
            A8MiniSimpleCommand::FocusIn => vec![0x01u8],
            A8MiniSimpleCommand::FocusOut => vec![0xffu8],
            A8MiniSimpleCommand::AutoFocus => vec![0x01u8],
            A8MiniSimpleCommand::TakePicture => vec![0x00u8],
            A8MiniSimpleCommand::RecordVideo => vec![0x02u8],
            A8MiniSimpleCommand::SetLockMode => vec![0x03u8],
            A8MiniSimpleCommand::SetFollowMode => vec![0x04u8],
            A8MiniSimpleCommand::SetFPVMode => vec![0x05u8],
            _ => Vec::new(),
        };
        assert(r@ =~= self.spec_payload());
        r
    }

    /// The complete wire frame of this command.
    pub fn to_bytes(&self) -> (r: Vec<u8>)
        ensures
            r@ == encode_frame(self.spec_opcode(), self.spec_payload()),
    {
        let p = self.payload();
        frame_small(self.opcode(), &p)
    }
}

/// Commands with numeric parameters, written little-endian in the units the
/// device expects. Values are passed through unclamped.
#[derive(Clone, Copy, Debug, PartialEq, Eq, Structural)]
pub enum A8MiniComplexCommand {
    /// Yaw and pitch rotation speed, signed percent of the maximum.
    SetYawPitchSpeed(i8, i8),
    /// Yaw and pitch target angle, in tenths of a degree.
    SetYawPitchAngle(i16, i16),
    /// UTC time in microseconds since the Unix epoch.
    SetTimeUTC(u64),
    /// Query the encoding of one stream.
    GetCodecSpecs(u8),
    /// Stream, encoder, width, height, bitrate and a reserved byte.
    SetCodecSpecs(u8, u8, u16, u16, u16, u8),
}

impl A8MiniComplexCommand {
    pub open spec fn spec_opcode(self) -> u8 {
        match self {
            A8MiniComplexCommand::SetYawPitchSpeed(..) => 0x07,
            A8MiniComplexCommand::SetYawPitchAngle(..) => 0x0e,
            A8MiniComplexCommand::SetTimeUTC(..) => 0x30,
            A8MiniComplexCommand::GetCodecSpecs(..) => 0x20,
            A8MiniComplexCommand::SetCodecSpecs(..) => 0x21,
        }
    }

    pub open spec fn spec_payload(self) -> Seq<u8> {
        match self {
            A8MiniComplexCommand::SetYawPitchSpeed(yaw, pitch) => seq![i8_byte(yaw), i8_byte(pitch)],
            A8MiniComplexCommand::SetYawPitchAngle(yaw, pitch) => i16_le(yaw) + i16_le(pitch),
            A8MiniComplexCommand::SetTimeUTC(t) => le_bytes(t as nat, 8),
            A8MiniComplexCommand::GetCodecSpecs(stream) => seq![stream],
            A8MiniComplexCommand::SetCodecSpecs(stream, enc, w, h, rate, reserved) => seq![
                stream,
                enc,
            ] + le16(w as int) + le16(h as int) + le16(rate as int) + seq![reserved],
        }
    }

    /// The opcode that selects this command.
    pub fn opcode(&self) -> (r: u8)
        ensures
            r == self.spec_opcode(),
    {
        match self {
            A8MiniComplexCommand::SetYawPitchSpeed(..) => 0x07,
            A8MiniComplexCommand::SetYawPitchAngle(..) => 0x0e,
            A8MiniComplexCommand::SetTimeUTC(..) => 0x30,
            A8MiniComplexCommand::GetCodecSpecs(..) => 0x20,
            A8MiniComplexCommand::SetCodecSpecs(..) => 0x21,
        }
    }

    /// The parameters, serialised in order.
    pub fn payload(&self) -> (r: Vec<u8>)
        ensures
            r@ == self.spec_payload(),
    {
        let mut out: Vec<u8> = Vec::new();
        match *self {
            A8MiniComplexCommand::SetYawPitchSpeed(yaw, pitch) => {
                out.push(if yaw < 0 { (yaw as i16 + 0x100) as u8 } else { yaw as u8 });
                out.push(if pitch < 0 { (pitch as i16 + 0x100) as u8 } else { pitch as u8 });
            },
            A8MiniComplexCommand::SetYawPitchAngle(yaw, pitch) => {
                push_i16(&mut out, yaw);
                push_i16(&mut out, pitch);
            },
            A8MiniComplexCommand::SetTimeUTC(t) => {
                push_le_u64(&mut out, t);
            },
            A8MiniComplexCommand::GetCodecSpecs(stream) => {
                out.push(stream);
            },
            A8MiniComplexCommand::SetCodecSpecs(stream, enc, w, h, rate, reserved) => {
                out.push(stream);
                out.push(enc);
                push_le16(&mut out, w);
                push_le16(&mut out, h);
                push_le16(&mut out, rate);
                out.push(reserved);
            },
        }
        assert(out@ =~= self.spec_payload());
        out
    }

    /// The complete wire frame of this command.
    pub fn to_bytes(&self) -> (r: Vec<u8>)
        ensures
            r@ == encode_frame(self.spec_opcode(), self.spec_payload()),
    {
        let p = self.payload();
        proof {
            if let A8MiniComplexCommand::SetTimeUTC(t) = *self {
                lemma_le_bytes_len(t as nat, 8);
            }
        }
        frame_small(self.opcode(), &p)
    }
}

/// Width of the attitude reply payload: six signed 16-bit fields.
pub const ATTITUDE_PAYLOAD_LEN: usize = 12;

/// Gimbal attitude in tenths of a degree and its rates in tenths of a degree
/// per second.
#[derive(Clone, Copy, Debug, PartialEq, Eq, Structural)]
pub struct A8MiniAtittude {
    pub theta_yaw: i16,
    pub theta_pitch: i16,
    pub theta_roll: i16,
    pub v_yaw: i16,
    pub v_pitch: i16,
    pub v_roll: i16,
}

/// The attitude an attitude payload holds: six little-endian signed
/// 16-bit fields in declaration order.
pub open spec fn attitude_of(p: Seq<u8>) -> A8MiniAtittude {
    A8MiniAtittude {
        theta_yaw: read_i16(p[0], p[1]),
        theta_pitch: read_i16(p[2], p[3]),
        theta_roll: read_i16(p[4], p[5]),
        v_yaw: read_i16(p[6], p[7]),
        v_pitch: read_i16(p[8], p[9]),
        v_roll: read_i16(p[10], p[11]),
    }
}

fn read_i16_at(p: &[u8], i: usize) -> (r: i16)
    requires
        i + 1 < p@.len(),
    ensures
        r == read_i16(p@[i as int], p@[i + 1]),
{
    let u: u16 = p[i] as u16 + 256 * (p[i + 1] as u16);
    if u >= 0x8000 {
        (u as i32 - 0x10000) as i16
    } else {
        u as i16
    }
}

impl A8MiniAtittude {
    /// Decodes an attitude reply payload; any other width is a decode error.
    pub fn from_payload(payload: &[u8]) -> (r: Result<A8MiniAtittude, ExchangeError>)
        ensures
            payload@.len() == ATTITUDE_PAYLOAD_LEN ==> r == Ok::<A8MiniAtittude, ExchangeError>(
                attitude_of(payload@),
            ),
            payload@.len() != ATTITUDE_PAYLOAD_LEN ==> r == Err::<A8MiniAtittude, ExchangeError>(
                ExchangeError::DecodeError,
            ),
    {
        if payload.len() != ATTITUDE_PAYLOAD_LEN {
            return Err(ExchangeError::DecodeError);
        }
        Ok(A8MiniAtittude {
            theta_yaw: read_i16_at(payload, 0),
            theta_pitch: read_i16_at(payload, 2),
            theta_roll: read_i16_at(payload, 4),
            v_yaw: read_i16_at(payload, 6),
            v_pitch: read_i16_at(payload, 8),
            v_roll: read_i16_at(payload, 10),
        })
    }
}

/// Plain-text queries to the device's media service.
#[derive(Clone, Copy, Debug, PartialEq, Eq, Structural)]
pub enum A8MiniHTTPQuery {
    GetDirectoriesPhotos,
    GetDirectoriesVideos,
    GetMediaCountPhotos,
    GetMediaCountVideos,
}

impl A8MiniHTTPQuery {
    pub open spec fn spec_text(self) -> Seq<char> {
        match self {
            A8MiniHTTPQuery::GetDirectoriesPhotos => "/cgi-bin/media.cgi/api/v1/getdirectories?media_type=0"@,
            A8MiniHTTPQuery::GetDirectoriesVideos => "/cgi-bin/media.cgi/api/v1/getdirectories?media_type=1"@,
            A8MiniHTTPQuery::GetMediaCountPhotos => "/cgi-bin/media.cgi/api/v1/getmediacount?media_type=0"@,
            A8MiniHTTPQuery::GetMediaCountVideos => "/cgi-bin/media.cgi/api/v1/getmediacount?media_type=1"@,
        }
    }

    /// The request sent, as is, for this query.
    pub fn text(&self) -> (r: &'static str)
        ensures
            r@ == self.spec_text(),
    {
        match self {
            A8MiniHTTPQuery::GetDirectoriesPhotos => "/cgi-bin/media.cgi/api/v1/getdirectories?media_type=0",
            A8MiniHTTPQuery::GetDirectoriesVideos => "/cgi-bin/media.cgi/api/v1/getdirectories?media_type=1",
            A8MiniHTTPQuery::GetMediaCountPhotos => "/cgi-bin/media.cgi/api/v1/getmediacount?media_type=0",
            A8MiniHTTPQuery::GetMediaCountVideos => "/cgi-bin/media.cgi/api/v1/getmediacount?media_type=1",
        }
    }
}

} // verus!
