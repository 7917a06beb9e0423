//! Turns a decoded image — three color planes, each with its own row
//! stride — into one densely packed interleaved pixel buffer, and rescales
//! that buffer to a target resolution, deriving a missing dimension from
//! the source aspect ratio.

pub mod compose;
pub mod pipeline;
pub mod scale;
pub mod types;
