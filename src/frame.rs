use vstd::prelude::*;
use vstd::slice::{slice_subrange, slice_to_vec};

use crc::{Crc, CRC_16_MODBUS};

use crate::structs::{
    exception_code_of, function_code_byte, function_code_of, ExceptionCode, FunctionCode,
    RequestPayload,
};

verus! {

/// Largest frame a Modbus RTU line carries.
pub const FRAME_SIZE_MAX: usize = 256;

/// CRC-16/MODBUS of a byte sequence, as the `crc` crate computes it.
pub uninterp spec fn crc16_modbus(data: Seq<u8>) -> u16;

/// First CRC byte on the wire (the CRC is sent little-endian).
pub open spec fn crc_lo(c: u16) -> u8 {
    (c % 256) as u8
}

/// Second CRC byte on the wire.
pub open spec fn crc_hi(c: u16) -> u8 {
    (c / 256) as u8
}

/// A byte sequence followed by its CRC, low byte first.
pub open spec fn with_crc(s: Seq<u8>) -> Seq<u8> {
    s.push(crc_lo(crc16_modbus(s))).push(crc_hi(crc16_modbus(s)))
}

/// The bytes of a request frame: slave id, function code, payload, CRC.
pub open spec fn encode_request(slave_id: u8, payload: RequestPayload) -> Seq<u8> {
    with_crc(seq![slave_id, function_code_byte(payload.code())] + payload.body())
}

/// The bytes of a frame that the CRC covers.
pub open spec fn crc_covered(s: Seq<u8>) -> Seq<u8> {
    s.subrange(0, s.len() - 2)
}

/// The CRC carried in the last two bytes of a frame.
pub open spec fn trailing_crc(s: Seq<u8>) -> u16 {
    (s[s.len() - 2] as int + s[s.len() - 1] as int * 256) as u16
}

/// Why a byte sequence is not a frame, if it is not one.
pub open spec fn frame_error(s: Seq<u8>) -> Option<FrameParseError> {
    if s.len() < 5 {
        Some(FrameParseError::TooSmall)
    } else if function_code_of((s[1] % 128) as u8) is None {
        Some(FrameParseError::UndefinedFunctionCode)
    } else if s[s.len() - 2] != crc_lo(crc16_modbus(crc_covered(s))) || s[s.len() - 1]
        != crc_hi(crc16_modbus(crc_covered(s))) {
        Some(FrameParseError::InvalidCRC)
    } else {
        None
    }
}

/// A byte sequence that decodes as a frame.
pub open spec fn valid_frame(s: Seq<u8>) -> bool {
    frame_error(s) is None
}

/// The payload that an 8-byte request frame carries, if it is one.
pub open spec fn decode_request(s: Seq<u8>) -> Option<RequestPayload> {
    if s.len() != 8 {
        None
    } else {
        let a = crate::structs::be_u16(s[2], s[3]);
        let b = crate::structs::be_u16(s[4], s[5]);
        if s[1] == 3 {
            Some(
                RequestPayload::ReadHoldingRegisters(
                    crate::structs::request::ReadRegisters { start_address: a, quantity: b },
                ),
            )
        } else if s[1] == 4 {
            Some(
                RequestPayload::ReadInputRegisters(
                    crate::structs::request::ReadRegisters { start_address: a, quantity: b },
                ),
            )
        } else if s[1] == 6 {
            Some(
                RequestPayload::PresetHoldingRegister(
                    crate::structs::request::WriteRegister { address: a, value: b },
                ),
            )
        } else {
            None
        }
    }
}

/// The two CRC bytes on the wire read back as the CRC they came from.
pub proof fn lemma_crc_bytes(c: u16)
    ensures
        (crc_lo(c) as int + crc_hi(c) as int * 256) as u16 == c,
{
}

/// Encoding a request and decoding the bytes gives back a valid frame that
/// carries the same slave id and the same payload, and the CRC recomputed over
/// the frame matches the CRC it carries.
pub proof fn lemma_round_trip(slave_id: u8, payload: RequestPayload)
    ensures
        valid_frame(encode_request(slave_id, payload)),
        encode_request(slave_id, payload)[0] == slave_id,
        decode_request(encode_request(slave_id, payload)) == Some(payload),
        crc16_modbus(crc_covered(encode_request(slave_id, payload))) == trailing_crc(
            encode_request(slave_id, payload),
        ),
{
    let body = seq![slave_id, function_code_byte(payload.code())] + payload.body();
    let s = encode_request(slave_id, payload);
    assert(crc_covered(s) =~= body);
    lemma_crc_bytes(crc16_modbus(body));
    match payload {
        RequestPayload::ReadHoldingRegisters(r) => {
            crate::structs::lemma_be_u16_round_trip(r.start_address);
            crate::structs::lemma_be_u16_round_trip(r.quantity);
        },
        RequestPayload::ReadInputRegisters(r) => {
            crate::structs::lemma_be_u16_round_trip(r.start_address);
            crate::structs::lemma_be_u16_round_trip(r.quantity);
        },
        RequestPayload::PresetHoldingRegister(w) => {
            crate::structs::lemma_be_u16_round_trip(w.address);
            crate::structs::lemma_be_u16_round_trip(w.value);
        },
    }
}

/// Bytes that keep a frame's length, function code and CRC bytes, but whose
/// checksum over the covered bytes differs from the frame's, are rejected
/// with `InvalidCRC`.
pub proof fn lemma_altered_frame_rejected(s: Seq<u8>, t: Seq<u8>)
    requires
        valid_frame(s),
        t.len() == s.len(),
        t[t.len() - 2] == s[s.len() - 2],
        t[t.len() - 1] == s[s.len() - 1],
        function_code_of((t[1] % 128) as u8) is Some,
        crc16_modbus(crc_covered(t)) != crc16_modbus(crc_covered(s)),
    ensures
        frame_error(t) == Some(FrameParseError::InvalidCRC),
{
    lemma_crc_bytes(crc16_modbus(crc_covered(s)));
    lemma_crc_bytes(crc16_modbus(crc_covered(t)));
}

/// A Modbus RTU frame whose length, function code and CRC have been checked:
/// `[slave_id][function_code][data...][crc_lo][crc_hi]`.
#[derive(Debug)]
pub struct Frame {
    buf: Vec<u8>,
}

#[derive(Debug, Clone, Copy, PartialEq, Eq, Structural)]
pub enum FrameParseError {
    TooSmall,
    UndefinedFunctionCode,
    InvalidCRC,
}

impl View for Frame {
    type V = Seq<u8>;

    closed spec fn view(&self) -> Seq<u8> {
        self.buf@
    }
}

impl Clone for Frame {
    fn clone(&self) -> (r: Frame)
        ensures
            r@ == self@,
    {
        proof {
            use_type_invariant(self);
        }
        let buf = slice_to_vec(self.buf.as_slice());
        Frame { buf }
    }
}

impl Frame {
    #[verifier::type_invariant]
    spec fn well_formed(self) -> bool {
        valid_frame(self.buf@)
    }

    /// Checks length, function code and CRC of received bytes and keeps them.
    pub fn from_bytes(bytes: &[u8]) -> (r: Result<Frame, FrameParseError>)
        ensures
            r is Ok <==> valid_frame(bytes@),
            r is Ok ==> r->Ok_0@ == bytes@,
            r is Err ==> frame_error(bytes@) == Some(r->Err_0),
    {
        if bytes.len() < 5 {
            return Err(FrameParseError::TooSmall);
        }
        if FunctionCode::from_int(bytes[1] % 128).is_none() {
            return Err(FrameParseError::UndefinedFunctionCode);
        }
        let n = bytes.len();
        let crc = Self::compute_crc(slice_subrange(bytes, 0, n - 2));
        if bytes[n - 2] != (crc % 256) as u8 {
            return Err(FrameParseError::InvalidCRC);
        }
        if bytes[n - 1] != (crc / 256) as u8 {
            return Err(FrameParseError::InvalidCRC);
        }
        let buf = slice_to_vec(bytes);
        Ok(Frame { buf })
    }

    /// Encodes a request for the given slave.
    pub fn from_request(slave_id: u8, payload: &RequestPayload) -> (r: Frame)
        ensures
            r@ == encode_request(slave_id, *payload),
    {
        let mut buf: Vec<u8> = Vec::new();
        buf.push(slave_id);
        buf.push(payload.function_code().to_int());
        let body = payload.to_be_bytes();
        buf.push(body[0]);
        buf.push(body[1]);
        buf.push(body[2]);
        buf.push(body[3]);
        let ghost covered = buf@;
        assert(covered =~= seq![slave_id, function_code_byte(payload.code())] + payload.body());
        let crc = Self::compute_crc(buf.as_slice());
        buf.push((crc % 256) as u8);
        buf.push((crc / 256) as u8);
        proof {
            assert(crc_covered(buf@) =~= covered);
            let fc = function_code_byte(payload.code());
            assert(function_code_of((fc % 128) as u8) is Some);
        }
        assert(buf@ =~= encode_request(slave_id, *payload));
        Frame { buf }
    }

    /// The length of the frame; every frame has passed the checks of `from_bytes`.
    pub fn len(&self) -> (r: usize)
        ensures
            r == self@.len(),
            valid_frame(self@),
    {
        proof {
            use_type_invariant(self);
        }
        self.buf.len()
    }

    pub fn bytes(&self) -> (r: &[u8])
        ensures
            r@ == self@,
            valid_frame(self@),
    {
        proof {
            use_type_invariant(self);
        }
        self.buf.as_slice()
    }

    /// The bytes between the function code and the CRC.
    pub fn data(&self) -> (r: &[u8])
        ensures
            r@ == self@.subrange(2, self@.len() - 2),
            valid_frame(self@),
    {
        proof {
            use_type_invariant(self);
        }
        slice_subrange(self.buf.as_slice(), 2, self.buf.len() - 2)
    }

    pub fn slave_id(&self) -> (r: u8)
        ensures
            r == self@[0],
    {
        proof {
            use_type_invariant(self);
        }
        self.buf[0]
    }

    /// The function code, with the exception flag masked out.
    pub fn function_code(&self) -> (r: FunctionCode)
        ensures
            function_code_of((self@[1] % 128) as u8) == Some(r),
            valid_frame(self@),
    {
        proof {
            use_type_invariant(self);
        }
        FunctionCode::from_int(self.buf[1] % 128).unwrap()
    }

    /// Whether the slave answered with an exception (high bit of the function code).
    pub fn is_exception(&self) -> (r: bool)
        ensures
            r == (self@[1] >= 128),
    {
        proof {
            use_type_invariant(self);
        }
        self.buf[1] >= 128
    }

    pub fn exception_code(&self) -> (r: Option<ExceptionCode>)
        ensures
            r == (if self@[1] >= 128 {
                Some(exception_code_of(self@[2]))
            } else {
                None
            }),
    {
        proof {
            use_type_invariant(self);
        }
        if self.is_exception() {
            Some(ExceptionCode::from_int(self.buf[2]))
        } else {
            None
        }
    }

    /// The CRC that the frame carries in its last two bytes.
    pub fn crc(&self) -> (r: u16)
        ensures
            r == trailing_crc(self@),
    {
        proof {
            use_type_invariant(self);
        }
        let n = self.buf.len();
        self.buf[n - 2] as u16 + self.buf[n - 1] as u16 * 256
    }

    /// Whether the CRC recomputed over the frame matches the one it carries.
    pub fn is_valid(&self) -> (r: bool)
        ensures
            r == (crc16_modbus(crc_covered(self@)) == trailing_crc(self@)),
            r,
    {
        proof {
            use_type_invariant(self);
        }
        let n = self.buf.len();
        let actual = Self::compute_crc(slice_subrange(self.buf.as_slice(), 0, n - 2));
        let carried = self.crc();
        proof {
            let c = actual;
            assert(trailing_crc(self@) == c) by {
                assert(self@[self@.len() - 2] == crc_lo(c));
                assert(self@[self@.len() - 1] == crc_hi(c));
            }
        }
        actual == carried
    }

    /// Relies on `crc::Crc::<u16>::checksum` with the `CRC_16_MODBUS` parameters:
    /// the checksum is a function of the bytes alone.
    #[verifier::external_body]
    pub fn compute_crc(data: &[u8]) -> (r: u16)
        ensures
            r == crc16_modbus(data@),
    {
        let modbus: Crc<u16> = Crc::<u16>::new(&CRC_16_MODBUS);
        modbus.checksum(data)
    }
}

impl RequestPayload {
    /// Reads back the payload of an encoded request frame.
    pub fn decode_frame(frame: &Frame) -> (r: Option<RequestPayload>)
        ensures
            r == decode_request(frame@),
    {
        let bytes = frame.bytes();
        if bytes.len() != 8 {
            return None;
        }
        let a: u16 = bytes[2] as u16 * 256 + bytes[3] as u16;
        let b: u16 = bytes[4] as u16 * 256 + bytes[5] as u16;
        if bytes[1] == 3 {
            Some(
                RequestPayload::ReadHoldingRegisters(
                    crate::structs::request::ReadRegisters { start_address: a, quantity: b },
                ),
            )
        } else if bytes[1] == 4 {
            Some(
                RequestPayload::ReadInputRegisters(
                    crate::structs::request::ReadRegisters { start_address: a, quantity: b },
                ),
            )
        } else if bytes[1] == 6 {
            Some(
                RequestPayload::PresetHoldingRegister(
                    crate::structs::request::WriteRegister { address: a, value: b },
                ),
            )
        } else {
            None
        }
    }
}

} // verus!
