//! Modbus RTU transport core: frame codec, request payload model, and the
//! priority scheduler that keeps at most one request in flight on a
//! half-duplex serial line.

pub mod structs;
pub mod frame;
pub mod config;
pub mod interface;
pub mod guarantees;
pub mod register;
pub mod inverter;
pub mod id_pool;

pub use config::Config;
pub use frame::Frame;
pub use interface::Interface;
pub use interface::Request as InterfaceRequest;
pub use interface::RequestRegistryEntry;
pub use structs::request;
pub use structs::response;
pub use structs::FunctionCode;
pub use structs::RequestPayload;
pub use structs::RequestResult;
