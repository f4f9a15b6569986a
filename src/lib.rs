//! Host telemetry: the derived metrics and the decisions that sit between the
//! operating system's raw readings and what is handed to a presentation layer.

pub mod memory;
pub mod process;
pub mod network;
pub mod battery;
pub mod cpu;
pub mod system;
pub mod tray;
