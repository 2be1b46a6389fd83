use vstd::prelude::*;

verus! {

/// Registers of the US-3202510 inverter.
#[derive(Debug, Clone, Copy, PartialEq, Eq, Structural)]
pub enum Register {
    // Holding registers (read/write), from 0x0002
    /// Register 0x0002
    SetFrequency,
    /// Register 0x0003
    RunCommand,
    /// Register 0x0004
    AccelerationTime,
    /// Register 0x0005
    DecelerationTime,
    // Input registers (read only), from 0x0008
    /// Register 0x0008
    BusVoltage,
    /// Register 0x0009
    LineCurrent,
    /// Register 0x000A
    DriveTemperature,
    /// Register 0x000B
    SystemStatus,
    /// Register 0x000C
    ErrorCode,
    /// Register 0x000D
    CurrentFrequency,
}

pub const HOLD_REGISTER_OFFSET: u16 = 0x2;

pub const INPUT_REGISTER_OFFSET: u16 = 0x8;

impl Register {
    pub open spec fn spec_address(self) -> u16 {
        match self {
            Register::SetFrequency => 0x0002,
            Register::RunCommand => 0x0003,
            Register::AccelerationTime => 0x0004,
            Register::DecelerationTime => 0x0005,
            Register::BusVoltage => 0x0008,
            Register::LineCurrent => 0x0009,
            Register::DriveTemperature => 0x000A,
            Register::SystemStatus => 0x000B,
            Register::ErrorCode => 0x000C,
            Register::CurrentFrequency => 0x000D,
        }
    }

    pub fn address(self) -> (r: u16)
        ensures
            r == self.spec_address(),
    {
        match self {
            Register::SetFrequency => HOLD_REGISTER_OFFSET,
            Register::RunCommand => HOLD_REGISTER_OFFSET + 1,
            Register::AccelerationTime => HOLD_REGISTER_OFFSET + 2,
            Register::DecelerationTime => HOLD_REGISTER_OFFSET + 3,
            Register::BusVoltage => INPUT_REGISTER_OFFSET,
            Register::LineCurrent => INPUT_REGISTER_OFFSET + 1,
            Register::DriveTemperature => INPUT_REGISTER_OFFSET + 2,
            Register::SystemStatus => INPUT_REGISTER_OFFSET + 3,
            Register::ErrorCode => INPUT_REGISTER_OFFSET + 4,
            Register::CurrentFrequency => INPUT_REGISTER_OFFSET + 5,
        }
    }
}

} // verus!
