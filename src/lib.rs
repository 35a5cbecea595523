//! GPU resource and compute-dispatch framework: the decisions of the buffer
//! protocol, compute dispatch and render-pass orchestration, with their
//! contracts. The device calls themselves are made by the host application.

pub mod usage;
pub mod compute;
pub mod render_pass;
pub mod engine;
pub mod memory;
pub mod mesh;
