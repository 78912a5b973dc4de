//! The planning half of a GPU inference driver.

pub mod arith;
pub mod cuda;
pub mod kernels;
pub mod metal;
pub mod seam;
pub mod strings;
