//! The CPU: instructions, their decoding, their execution, and the engine's
//! decisions around each step.

pub mod instruction;
pub mod exec;
pub mod step;
pub mod run;
pub mod text;
