//! Task aggregation for the Cairo bootloader: the task model, the task
//! builder, the builtin-selection scope hook and the packed-output slots.

pub mod args;
pub mod bootloaders;
pub mod engine;
pub mod hints;
pub mod tasks;
