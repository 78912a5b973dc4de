//! The Metal driver's host logic: what a step dispatches, over what grids, and
//! in which buffers.

pub mod abi;
pub mod dag;
pub mod dataflow;
pub mod dispatch_gptoss;
pub mod dispatch_llama;
pub mod encoder;
pub mod error;
pub mod geometry;
pub mod pipeline;
pub mod psos_gptoss;
pub mod rule;
pub mod shapes;
pub mod sizing;
pub mod step;
pub mod text;
pub mod tuning;
