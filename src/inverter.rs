//! Driver of one US-3202510 inverter: turns intents into queued requests on
//! fixed slots and keeps the last status read back.
use vstd::prelude::*;

use crate::config::Config as LineConfig;
use crate::frame::{encode_request, Frame};
use crate::interface::{
    be_words, correlates, register_bytes, Interface, InterfaceIOError, InterfaceView, Request,
    RequestRegistryEntry,
};
use crate::register::Register;
use crate::structs::request::{ReadRegisters, WriteRegister};
use crate::structs::{RequestPayload, RequestResult};

verus! {

pub const SLOT_SET_FREQUENCY: usize = 0;

pub const SLOT_RUN_COMMAND: usize = 1;

pub const SLOT_ACCELERATION_TIME: usize = 2;

pub const SLOT_DECELERATION_TIME: usize = 3;

pub const SLOT_READ_STATUS: usize = 4;

pub const SLOT_COUNT: usize = 5;

/// Number of input registers read for a status, from `BusVoltage` to `CurrentFrequency`.
pub const STATUS_REGISTER_COUNT: u16 = 6;

/// Direction the motor is asked to run in.
#[derive(Debug, Clone, Copy, PartialEq, Eq, Structural)]
pub enum RunState {
    Stopped,
    Forward,
    Reverse,
}

/// What was last asked of the inverter.
#[derive(Debug, Clone, Copy, PartialEq, Eq, Structural)]
pub struct Config {
    /// Frequency target in 0.01 Hz.
    pub frequency: u16,
    pub run_state: RunState,
    /// 1 to 15
    pub acceleration_level: u16,
    /// 1 to 15
    pub deceleration_level: u16,
}

/// Operating state reported in the `SystemStatus` register (0, 1, 2).
#[derive(Debug, Clone, Copy, PartialEq, Eq, Structural)]
pub enum SystemStatus {
    Idle,
    Running,
    Fault,
}

/// Fault reported in the `ErrorCode` register (0 to 7).
#[derive(Debug, Clone, Copy, PartialEq, Eq, Structural)]
pub enum ErrorCode {
    NoError,
    PulseOvercurrent,
    IgbtOvercurrentProtection,
    DcBusOvervoltageProtection,
    TemperatureNearIgbtLimit,
    InverterThermalProtection,
    InverterOverload100Percent,
    InverterPowerCut,
}

pub open spec fn system_status_of(value: u16) -> Option<SystemStatus> {
    if value == 0 {
        Some(SystemStatus::Idle)
    } else if value == 1 {
        Some(SystemStatus::Running)
    } else if value == 2 {
        Some(SystemStatus::Fault)
    } else {
        None
    }
}

pub open spec fn error_code_of(value: u16) -> Option<ErrorCode> {
    if value == 0 {
        Some(ErrorCode::NoError)
    } else if value == 1 {
        Some(ErrorCode::PulseOvercurrent)
    } else if value == 2 {
        Some(ErrorCode::IgbtOvercurrentProtection)
    } else if value == 3 {
        Some(ErrorCode::DcBusOvervoltageProtection)
    } else if value == 4 {
        Some(ErrorCode::TemperatureNearIgbtLimit)
    } else if value == 5 {
        Some(ErrorCode::InverterThermalProtection)
    } else if value == 6 {
        Some(ErrorCode::InverterOverload100Percent)
    } else if value == 7 {
        Some(ErrorCode::InverterPowerCut)
    } else {
        None
    }
}

impl SystemStatus {
    /// The state a register value stands for; none for values outside the table.
    pub fn from_register(value: u16) -> (r: Option<SystemStatus>)
        ensures
            r == system_status_of(value),
    {
        match value {
            0 => Some(SystemStatus::Idle),
            1 => Some(SystemStatus::Running),
            2 => Some(SystemStatus::Fault),
            _ => None,
        }
    }
}

impl ErrorCode {
    /// The fault a register value stands for; none for values outside the table.
    pub fn from_register(value: u16) -> (r: Option<ErrorCode>)
        ensures
            r == error_code_of(value),
    {
        match value {
            0 => Some(ErrorCode::NoError),
            1 => Some(ErrorCode::PulseOvercurrent),
            2 => Some(ErrorCode::IgbtOvercurrentProtection),
            3 => Some(ErrorCode::DcBusOvervoltageProtection),
            4 => Some(ErrorCode::TemperatureNearIgbtLimit),
            5 => Some(ErrorCode::InverterThermalProtection),
            6 => Some(ErrorCode::InverterOverload100Percent),
            7 => Some(ErrorCode::InverterPowerCut),
            _ => None,
        }
    }
}

/// Raw input registers of the last status read.
#[derive(Debug, Clone, Copy, PartialEq, Eq, Structural)]
pub struct Status {
    pub voltage: u16,
    pub current: u16,
    pub temperature: u16,
    pub system_status: u16,
    pub error_code: u16,
    /// Output frequency in 0.01 Hz.
    pub frequency: u16,
}

/// The run command written for a direction. The gearbox behind the motor is
/// inverted, so forward is commanded as reverse and the other way round
/// (1 = forward, 2 = stop, 3 = reverse on the wire).
pub open spec fn run_command_of(state: RunState) -> u16 {
    match state {
        RunState::Stopped => 2,
        RunState::Forward => 3,
        RunState::Reverse => 1,
    }
}

pub open spec fn slot_priority(slot: int) -> u32 {
    if slot == SLOT_RUN_COMMAND {
        20
    } else if slot == SLOT_SET_FREQUENCY {
        15
    } else if slot == SLOT_READ_STATUS {
        5
    } else {
        10
    }
}

/// The status read off six status registers.
pub open spec fn status_of(words: Seq<u16>) -> Status {
    Status {
        voltage: words[0],
        current: words[1],
        temperature: words[2],
        system_status: words[3],
        error_code: words[4],
        frequency: words[5],
    }
}

/// The status after the reply `f` to request `p` arrived: a non-exception
/// reply to a status read with six register values replaces it.
pub open spec fn status_after_reply(
    status: Option<Status>,
    f: Seq<u8>,
    p: RequestPayload,
) -> Option<Status> {
    if p is ReadInputRegisters && correlates(f, p) && f[1] < 128 && register_bytes(f) is Some
        && be_words(register_bytes(f)->Some_0).len() == STATUS_REGISTER_COUNT {
        Some(status_of(be_words(register_bytes(f)->Some_0)))
    } else {
        status
    }
}

/// The status after `result` was taken in.
pub open spec fn status_after_result(status: Option<Status>, result: RequestResult) -> Option<Status> {
    match result {
        RequestResult::ReadInputRegisters(d) => if d.result@.len() == STATUS_REGISTER_COUNT {
            Some(status_of(d.result@))
        } else {
            status
        },
        _ => status,
    }
}

/// The status once `reply` to the request in flight in `v` was taken in.
pub open spec fn status_after(
    status: Option<Status>,
    v: InterfaceView,
    reply: Option<Result<Option<Frame>, InterfaceIOError>>,
) -> Option<Status> {
    match reply {
        Some(Ok(Some(f))) => if v.queued_id is Some {
            status_after_reply(status, f@, v.payloads[v.queued_id->Some_0 as int]->Some_0)
        } else {
            status
        },
        _ => status,
    }
}

/// The interface state once `reply` was taken in.
pub open spec fn after_reply(
    v: InterfaceView,
    reply: Option<Result<Option<Frame>, InterfaceIOError>>,
) -> InterfaceView {
    if v.queued_id is Some && reply is Some {
        v.settled()
    } else {
        v
    }
}

/// The slot priorities of the inverter.
pub fn request_registry() -> (r: Vec<RequestRegistryEntry>)
    ensures
        r@.len() == SLOT_COUNT,
        forall|i: int|
            0 <= i < SLOT_COUNT ==> #[trigger] r@[i] == (RequestRegistryEntry {
                priority: slot_priority(i),
                extra_delay: 0,
            }),
{
    let mut r: Vec<RequestRegistryEntry> = Vec::new();
    r.push(RequestRegistryEntry { priority: 15, extra_delay: 0 });
    r.push(RequestRegistryEntry { priority: 20, extra_delay: 0 });
    r.push(RequestRegistryEntry { priority: 10, extra_delay: 0 });
    r.push(RequestRegistryEntry { priority: 10, extra_delay: 0 });
    r.push(RequestRegistryEntry { priority: 5, extra_delay: 0 });
    r
}

/// A US-3202510 inverter on a Modbus RTU line.
#[derive(Debug)]
pub struct US3202510 {
    pub interface: Interface,
    pub config: Config,
    pub status: Option<Status>,
}

impl US3202510 {
    pub open spec fn wf(&self) -> bool {
        &&& self.interface@.wf()
        &&& self.interface@.slot_count() == SLOT_COUNT
    }

    pub fn new(line: LineConfig) -> (r: US3202510)
        ensures
            r.wf(),
            r.interface@.slave_id == line.slave_id,
            r.interface@.queued_id is None,
            !r.interface@.has_pending(),
            r.config == (Config {
                frequency: 0,
                run_state: RunState::Stopped,
                acceleration_level: 7,
                deceleration_level: 7,
            }),
            r.status is None,
    {
        let registry = request_registry();
        let interface = Interface::new(line, registry.as_slice());
        US3202510 {
            interface,
            config: Config {
                frequency: 0,
                run_state: RunState::Stopped,
                acceleration_level: 7,
                deceleration_level: 7,
            },
            status: None,
        }
    }

    pub fn get_config(&self) -> (r: Config)
        ensures
            r == self.config,
    {
        self.config
    }

    pub fn get_status(&self) -> (r: Option<Status>)
        ensures
            r == self.status,
    {
        self.status
    }

    fn write_register(&mut self, slot: usize, register: Register, value: u16)
        requires
            old(self).wf(),
        ensures
            final(self).wf(),
            final(self).interface@ == old(self).interface@.queued(
                slot as int,
                RequestPayload::PresetHoldingRegister(
                    WriteRegister { address: register.spec_address(), value },
                ),
            ),
            final(self).config == old(self).config,
            final(self).status == old(self).status,
    {
        let payload = RequestPayload::PresetHoldingRegister(
            WriteRegister { address: register.address(), value },
        );
        self.interface.queue_request(Request { type_id: slot, payload });
    }

    /// Asks for a new output frequency, in 0.01 Hz; a newer target replaces one not yet sent.
    pub fn set_frequency_target(&mut self, frequency: u16)
        requires
            old(self).wf(),
        ensures
            final(self).wf(),
            final(self).interface@ == old(self).interface@.queued(
                SLOT_SET_FREQUENCY as int,
                RequestPayload::PresetHoldingRegister(
                    WriteRegister { address: 0x0002, value: frequency },
                ),
            ),
            final(self).config == (Config { frequency, ..old(self).config }),
            final(self).status == old(self).status,
    {
        self.write_register(SLOT_SET_FREQUENCY, Register::SetFrequency, frequency);
        self.config.frequency = frequency;
    }

    /// Asks the motor to stop or to run in a direction.
    pub fn set_rotation_state(&mut self, state: RunState)
        requires
            old(self).wf(),
        ensures
            final(self).wf(),
            final(self).interface@ == old(self).interface@.queued(
                SLOT_RUN_COMMAND as int,
                RequestPayload::PresetHoldingRegister(
                    WriteRegister { address: 0x0003, value: run_command_of(state) },
                ),
            ),
            final(self).config == (Config { run_state: state, ..old(self).config }),
            final(self).status == old(self).status,
    {
        let value: u16 = match state {
            RunState::Stopped => 2,
            RunState::Forward => 3,
            RunState::Reverse => 1,
        };
        self.write_register(SLOT_RUN_COMMAND, Register::RunCommand, value);
        self.config.run_state = state;
    }

    pub fn stop_motor(&mut self)
        requires
            old(self).wf(),
        ensures
            final(self).wf(),
            final(self).interface@ == old(self).interface@.queued(
                SLOT_RUN_COMMAND as int,
                RequestPayload::PresetHoldingRegister(
                    WriteRegister { address: 0x0003, value: 2 },
                ),
            ),
            final(self).config == (Config { run_state: RunState::Stopped, ..old(self).config }),
            final(self).status == old(self).status,
    {
        self.set_rotation_state(RunState::Stopped);
    }

    pub fn set_acceleration_level(&mut self, level: u16)
        requires
            old(self).wf(),
        ensures
            final(self).wf(),
            final(self).interface@ == old(self).interface@.queued(
                SLOT_ACCELERATION_TIME as int,
                RequestPayload::PresetHoldingRegister(
                    WriteRegister { address: 0x0004, value: level },
                ),
            ),
            final(self).config == (Config { acceleration_level: level, ..old(self).config }),
            final(self).status == old(self).status,
    {
        self.write_register(SLOT_ACCELERATION_TIME, Register::AccelerationTime, level);
        self.config.acceleration_level = level;
    }

    pub fn set_deceleration_level(&mut self, level: u16)
        requires
            old(self).wf(),
        ensures
            final(self).wf(),
            final(self).interface@ == old(self).interface@.queued(
                SLOT_DECELERATION_TIME as int,
                RequestPayload::PresetHoldingRegister(
                    WriteRegister { address: 0x0005, value: level },
                ),
            ),
            final(self).config == (Config { deceleration_level: level, ..old(self).config }),
            final(self).status == old(self).status,
    {
        self.write_register(SLOT_DECELERATION_TIME, Register::DecelerationTime, level);
        self.config.deceleration_level = level;
    }

    /// Asks for the status registers to be read.
    pub fn refresh_status(&mut self)
        requires
            old(self).wf(),
        ensures
            final(self).wf(),
            final(self).interface@ == old(self).interface@.queued(
                SLOT_READ_STATUS as int,
                RequestPayload::ReadInputRegisters(
                    ReadRegisters { start_address: 0x0008, quantity: STATUS_REGISTER_COUNT },
                ),
            ),
            final(self).config == old(self).config,
            final(self).status == old(self).status,
    {
        let payload = RequestPayload::ReadInputRegisters(
            ReadRegisters {
                start_address: Register::BusVoltage.address(),
                quantity: STATUS_REGISTER_COUNT,
            },
        );
        self.interface.queue_request(Request { type_id: SLOT_READ_STATUS, payload });
    }

    /// Takes in the result of a request: six status registers replace the status.
    pub fn apply_result(&mut self, result: &RequestResult)
        ensures
            final(self).status == status_after_result(old(self).status, *result),
            final(self).interface == old(self).interface,
            final(self).config == old(self).config,
    {
        match result {
            RequestResult::ReadInputRegisters(d) => {
                if d.result.len() == 6 {
                    self.status = Some(
                        Status {
                            voltage: d.result[0],
                            current: d.result[1],
                            temperature: d.result[2],
                            system_status: d.result[3],
                            error_code: d.result[4],
                            frequency: d.result[5],
                        },
                    );
                }
            },
            _ => {},
        }
    }

    /// One poll step: takes in what the line reported, if anything, then hands
    /// out the next frame to send where the line is free and a request waits.
    /// A failed transaction leaves the status as it was.
    pub fn update(&mut self, reply: Option<Result<Option<Frame>, InterfaceIOError>>) -> (r: Option<
        Frame,
    >)
        requires
            old(self).wf(),
        ensures
            final(self).wf(),
            final(self).interface@ == after_reply(old(self).interface@, reply).after_send(),
            r is Some <==> after_reply(old(self).interface@, reply).send_outcome() is Ok,
            after_reply(old(self).interface@, reply).send_outcome() matches Ok(w) ==> r matches Some(
                f,
            ) && f@ == encode_request(
                old(self).interface@.slave_id,
                old(self).interface@.payloads[w]->Some_0,
            ),
            final(self).config == old(self).config,
            final(self).status == status_after(old(self).status, old(self).interface@, reply),
    {
        let ghost pre = self.interface@;
        let ghost pre_status = self.status;
        match self.interface.check_result(reply) {
            Ok(Some(result)) => {
                self.apply_result(&result);
            },
            _ => {},
        }
        assert(self.interface@ == after_reply(pre, reply));
        if self.interface.is_ready_to_send() {
            match self.interface.send_next_request() {
                Ok(frame) => Some(frame),
                Err(_) => None,
            }
        } else {
            None
        }
    }
}

} // verus!
