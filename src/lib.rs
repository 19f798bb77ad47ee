//! Running an external flashing tool and turning its console output into a
//! single pass/fail result.
//!
//! The modules hold the decisions of that work as verified functions: how raw
//! output bytes become text, how each output stream is accumulated, which text
//! a finished run reports, and how the tool configuration is derived from the
//! detected serial port. Spawning processes, reading pipes and emitting GUI
//! events stay with the caller.

pub mod capture;
pub mod config;
pub mod decode;
pub mod engine;
pub mod report;

pub use capture::{drain_reads, DrainStep, OutputStream, StreamCapture};
pub use config::{update_port, Config, PortEntry, PortKind, ProgramDir};
pub use decode::{decode_bytes, TextEncoding};
pub use engine::{finish_execution, plan_command, CommandPlan, ExecError};
pub use report::{command_line_text, logs_command_line, status_message, LogLevel};
