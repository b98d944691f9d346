//! Render core of a single-triangle sample: the decisions and data that drive a
//! double-buffered swap chain, a direct command queue and a fence, kept apart
//! from the graphics API calls that carry them out.

pub mod adapter;
pub mod command_line;
pub mod commands;
pub mod memory_size;
pub mod pipeline;
pub mod sync;
pub mod targets;
pub mod text;
pub mod vertex;
