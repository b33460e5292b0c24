//! Host side of the PICOBOOT USB bootloader protocol: the fixed wire
//! layout of commands and status replies, the command/status exchange as a
//! state machine, endpoint resolution over descriptor data, and the flashing
//! pass that turns a firmware image into erase/write/verify steps.
pub mod wire;
pub mod exchange;
pub mod ops;
pub mod target;
pub mod endpoint;
pub mod flash;

pub use target::TargetID;
pub use wire::PicobootCmd;
