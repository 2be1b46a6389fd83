use vstd::prelude::*;

pub mod request;
pub mod response;

use request::{ReadRegisters, WriteRegister};

verus! {

/// Modbus function codes understood by this transport.
#[derive(Debug, Clone, Copy, PartialEq, Eq, Structural)]
pub enum FunctionCode {
    /// Read one or more holding registers (0x03)
    ReadHoldingRegisters,
    /// Read input registers (0x04)
    ReadInputRegisters,
    /// Write one register (0x06)
    PresetHoldingRegister,
}

/// Exception codes a slave may answer with.
#[derive(Debug, Clone, Copy, PartialEq, Eq, Structural)]
pub enum ExceptionCode {
    IllegalFunction,
    IllegalDataAddress,
    IllegalDataValue,
    SlaveDeviceFailure,
    Acknowledge,
    SlaveDeviceBusy,
    NegativeAcknowledge,
    MemoryParityError,
    GatewayPathUnavailable,
    GatewayTargetDeviceFailedToRespond,
    Unknown,
}

/// The function code a byte stands for, if any.
pub open spec fn function_code_of(value: u8) -> Option<FunctionCode> {
    if value == 3 {
        Some(FunctionCode::ReadHoldingRegisters)
    } else if value == 4 {
        Some(FunctionCode::ReadInputRegisters)
    } else if value == 6 {
        Some(FunctionCode::PresetHoldingRegister)
    } else {
        None
    }
}

/// The byte that encodes a function code on the wire.
pub open spec fn function_code_byte(code: FunctionCode) -> u8 {
    match code {
        FunctionCode::ReadHoldingRegisters => 3,
        FunctionCode::ReadInputRegisters => 4,
        FunctionCode::PresetHoldingRegister => 6,
    }
}

/// The exception code a byte stands for; bytes outside the table are `Unknown`.
pub open spec fn exception_code_of(value: u8) -> ExceptionCode {
    if value == 0x01 {
        ExceptionCode::IllegalFunction
    } else if value == 0x02 {
        ExceptionCode::IllegalDataAddress
    } else if value == 0x03 {
        ExceptionCode::IllegalDataValue
    } else if value == 0x04 {
        ExceptionCode::SlaveDeviceFailure
    } else if value == 0x05 {
        ExceptionCode::Acknowledge
    } else if value == 0x06 {
        ExceptionCode::SlaveDeviceBusy
    } else if value == 0x07 {
        ExceptionCode::NegativeAcknowledge
    } else if value == 0x08 {
        ExceptionCode::MemoryParityError
    } else if value == 0x0A {
        ExceptionCode::GatewayPathUnavailable
    } else if value == 0x0B {
        ExceptionCode::GatewayTargetDeviceFailedToRespond
    } else {
        ExceptionCode::Unknown
    }
}

impl FunctionCode {
    pub fn from_int(value: u8) -> (r: Option<FunctionCode>)
        ensures
            r == function_code_of(value),
    {
        match value {
            3 => Some(FunctionCode::ReadHoldingRegisters),
            4 => Some(FunctionCode::ReadInputRegisters),
            6 => Some(FunctionCode::PresetHoldingRegister),
            _ => None,
        }
    }

    /// The wire byte of this function code.
    pub fn to_int(&self) -> (r: u8)
        ensures
            r == function_code_byte(*self),
            function_code_of(r) == Some(*self),
    {
        match self {
            FunctionCode::ReadHoldingRegisters => 3,
            FunctionCode::ReadInputRegisters => 4,
            FunctionCode::PresetHoldingRegister => 6,
        }
    }
}

impl ExceptionCode {
    pub fn from_int(value: u8) -> (r: ExceptionCode)
        ensures
            r == exception_code_of(value),
    {
        match value {
            0x01 => ExceptionCode::IllegalFunction,
            0x02 => ExceptionCode::IllegalDataAddress,
            0x03 => ExceptionCode::IllegalDataValue,
            0x04 => ExceptionCode::SlaveDeviceFailure,
            0x05 => ExceptionCode::Acknowledge,
            0x06 => ExceptionCode::SlaveDeviceBusy,
            0x07 => ExceptionCode::NegativeAcknowledge,
            0x08 => ExceptionCode::MemoryParityError,
            0x0A => ExceptionCode::GatewayPathUnavailable,
            0x0B => ExceptionCode::GatewayTargetDeviceFailedToRespond,
            _ => ExceptionCode::Unknown,
        }
    }
}

/// High byte of a 16-bit value in big-endian order.
pub open spec fn be_hi(x: u16) -> u8 {
    (x / 256) as u8
}

/// Low byte of a 16-bit value in big-endian order.
pub open spec fn be_lo(x: u16) -> u8 {
    (x % 256) as u8
}

/// The 16-bit value of a big-endian byte pair.
pub open spec fn be_u16(hi: u8, lo: u8) -> u16 {
    (hi as int * 256 + lo as int) as u16
}

/// Two 16-bit fields written big-endian one after the other.
pub open spec fn be_pair(a: u16, b: u16) -> Seq<u8> {
    seq![be_hi(a), be_lo(a), be_hi(b), be_lo(b)]
}

/// Splitting a value into its big-endian bytes and joining them gives it back.
pub proof fn lemma_be_u16_round_trip(x: u16)
    ensures
        be_u16(be_hi(x), be_lo(x)) == x,
{
}

pub(crate) fn be_bytes(a: u16, b: u16) -> (r: [u8; 4])
    ensures
        r@ == be_pair(a, b),
{
    let r: [u8; 4] = [(a / 256) as u8, (a % 256) as u8, (b / 256) as u8, (b % 256) as u8];
    assert(r@ =~= be_pair(a, b));
    r
}

/// A request payload; each kind maps to exactly one function code.
#[derive(Debug, Clone, Copy, PartialEq, Eq, Structural)]
pub enum RequestPayload {
    /// Read one or more holding registers
    ReadHoldingRegisters(ReadRegisters),
    /// Read input registers
    ReadInputRegisters(ReadRegisters),
    /// Write one register
    PresetHoldingRegister(WriteRegister),
}

impl RequestPayload {
    /// The function code this payload is sent with.
    pub open spec fn code(self) -> FunctionCode {
        match self {
            RequestPayload::ReadHoldingRegisters(_) => FunctionCode::ReadHoldingRegisters,
            RequestPayload::ReadInputRegisters(_) => FunctionCode::ReadInputRegisters,
            RequestPayload::PresetHoldingRegister(_) => FunctionCode::PresetHoldingRegister,
        }
    }

    /// The four payload bytes that follow the function code on the wire.
    pub open spec fn body(self) -> Seq<u8> {
        match self {
            RequestPayload::ReadHoldingRegisters(r) => be_pair(r.start_address, r.quantity),
            RequestPayload::ReadInputRegisters(r) => be_pair(r.start_address, r.quantity),
            RequestPayload::PresetHoldingRegister(w) => be_pair(w.address, w.value),
        }
    }

    pub fn function_code(&self) -> (r: FunctionCode)
        ensures
            r == self.code(),
    {
        match self {
            RequestPayload::ReadHoldingRegisters(_) => FunctionCode::ReadHoldingRegisters,
            RequestPayload::ReadInputRegisters(_) => FunctionCode::ReadInputRegisters,
            RequestPayload::PresetHoldingRegister(_) => FunctionCode::PresetHoldingRegister,
        }
    }

    /// The four payload bytes of this request.
    pub fn to_be_bytes(&self) -> (r: [u8; 4])
        ensures
            r@ == self.body(),
    {
        match self {
            RequestPayload::ReadHoldingRegisters(r) => r.to_be_bytes(),
            RequestPayload::ReadInputRegisters(r) => r.to_be_bytes(),
            RequestPayload::PresetHoldingRegister(w) => w.to_be_bytes(),
        }
    }
}

/// A request together with what its reply carried.
#[derive(Debug, Clone, PartialEq, Eq)]
pub struct RequestResultData<Request, Result> {
    pub request: Request,
    pub result: Result,
}

pub type ReadRequestResult = RequestResultData<ReadRegisters, Vec<u16>>;

pub type WriteRequestResult = RequestResultData<WriteRegister, ()>;

pub type ExceptionRequestResult = RequestResultData<RequestPayload, ExceptionCode>;

/// The outcome of one request, keyed by the kind of the request sent.
#[derive(Debug, Clone, PartialEq, Eq)]
pub enum RequestResult {
    ReadHoldingRegisters(ReadRequestResult),
    ReadInputRegisters(ReadRequestResult),
    PresetHoldingRegister(WriteRequestResult),
    Exception(ExceptionRequestResult),
}

} // verus!
