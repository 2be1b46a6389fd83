use vstd::prelude::*;

verus! {

/// Number of data bits per character.
#[derive(Debug, Clone, Copy, PartialEq, Eq, Structural)]
pub enum DataBits {
    Five,
    Six,
    Seven,
    Eight,
}

#[derive(Debug, Clone, Copy, PartialEq, Eq, Structural)]
pub enum Parity {
    Off,
    Odd,
    Even,
}

#[derive(Debug, Clone, Copy, PartialEq, Eq, Structural)]
pub enum StopBits {
    One,
    Two,
}

#[derive(Debug, Clone, Copy, PartialEq, Eq, Structural)]
pub enum FlowControl {
    Off,
    Software,
    Hardware,
}

/// Connection parameters of one serial line; durations are in nanoseconds.
#[derive(Debug, Clone)]
pub struct Config {
    pub slave_id: u8,
    pub path: String,
    pub data_bits: DataBits,
    pub parity: Parity,
    pub stop_bits: StopBits,
    pub flow_control: FlowControl,
    /// Read timeout of the port, in nanoseconds.
    pub timeout: u64,
    pub baudrate: u32,
    /// Time the device needs to process a request, in nanoseconds; added to every wait.
    pub machine_operation_delay: u64,
}

pub open spec fn data_bit_count(d: DataBits) -> int {
    match d {
        DataBits::Five => 5,
        DataBits::Six => 6,
        DataBits::Seven => 7,
        DataBits::Eight => 8,
    }
}

pub open spec fn parity_bit_count(p: Parity) -> int {
    match p {
        Parity::Off => 0,
        _ => 1,
    }
}

pub open spec fn stop_bit_count(s: StopBits) -> int {
    match s {
        StopBits::One => 1,
        StopBits::Two => 2,
    }
}

impl Config {
    /// Bits on the wire per character: data bits, parity bit if any, stop bits.
    pub open spec fn bits_per_char(self) -> int {
        data_bit_count(self.data_bits) + parity_bit_count(self.parity) + stop_bit_count(
            self.stop_bits,
        )
    }

    /// Time of one character on the wire, from the integer time of one bit.
    pub open spec fn char_time(self) -> int {
        self.bits_per_char() * (1_000_000int / self.baudrate as int)
    }

    /// Wait after sending `message_size` bytes: their transmission time, a silence
    /// of three and a half characters, and the device's operation delay.
    pub open spec fn timeout_for(self, message_size: int) -> int {
        self.char_time() * message_size + (self.char_time() * 35) / 10
            + self.machine_operation_delay
    }

    pub fn total_bits_per_frame(&self) -> (r: u8)
        ensures
            r == self.bits_per_char(),
    {
        let data_bits: u8 = match self.data_bits {
            DataBits::Five => 5,
            DataBits::Six => 6,
            DataBits::Seven => 7,
            DataBits::Eight => 8,
        };
        let parity_bits: u8 = match self.parity {
            Parity::Off => 0,
            _ => 1,
        };
        let stop_bits: u8 = match self.stop_bits {
            StopBits::One => 1,
            StopBits::Two => 2,
        };
        data_bits + parity_bits + stop_bits
    }
}

/// The time to wait for a reply after sending `message_size` bytes, in nanoseconds.
pub fn compute_timeout(config: &Config, message_size: usize) -> (r: u64)
    requires
        config.baudrate > 0,
        config.timeout_for(message_size as int) <= u64::MAX,
    ensures
        r == config.timeout_for(message_size as int),
{
    let nanoseconds_per_bit: u64 = (1000000 / config.baudrate) as u64;
    let bits: u64 = config.total_bits_per_frame() as u64;
    assert(bits * nanoseconds_per_bit <= 11 * 1000000) by (nonlinear_arith)
        requires
            bits <= 11,
            nanoseconds_per_bit <= 1000000,
    ;
    let nanoseconds_per_byte: u64 = bits * nanoseconds_per_bit;
    let n: u64 = message_size as u64;
    let ghost c = config.char_time();
    assert(c == nanoseconds_per_byte);
    assert(0 <= c * n) by (nonlinear_arith)
        requires
            0 <= c,
            0 <= n,
    ;
    let transmission_timeout: u64 = nanoseconds_per_byte * n;
    let silent_time: u64 = (nanoseconds_per_byte * 35) / 10;
    let mut full_timeout: u64 = transmission_timeout;
    full_timeout = full_timeout + silent_time;
    full_timeout = full_timeout + config.machine_operation_delay;
    full_timeout
}

} // verus!
