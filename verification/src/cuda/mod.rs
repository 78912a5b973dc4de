//! The CUDA driver's host logic: binding, joining and dispatching a lowered
//! fire, and the cache of captured graphs.

pub mod action;
pub mod arm;
pub mod arms;
pub mod bind;
pub mod context;
pub mod dispatch;
pub mod fits;
pub mod launch;
pub mod plan;
pub mod planner;
pub mod resolver;
pub mod run;
pub mod signature;
pub mod supergraph;
pub mod symbols;
pub mod trace;
