//! Kernel dispatch and buffer management for a Gaussian-splat pipeline on
//! the GPU.
//!
//! The crate sizes workgroup dispatches ([`dispatch`], [`indirect`]),
//! describes typed device buffers ([`tensor`]), names and compiles shader
//! variants ([`kernel`], [`shader`]), and records the requests that a
//! compute client has to carry out ([`client`]). Beside that stand the
//! decisions of the scene loader ([`dataset`]) and the bookkeeping of the
//! model ([`splats`]) that need neither the device nor floating point.
//!
//! Every function states its behaviour as a contract over a mathematical
//! model of the values involved. Nothing here touches the device: requests
//! are recorded in a [`client::CommandQueue`], and whoever owns the compute
//! client hands them on in order.

pub mod client;
pub mod dataset;
pub mod dispatch;
pub mod indirect;
pub mod kernel;
pub mod shader;
pub mod splats;
pub mod tensor;

pub use crate::dispatch::calc_cube_count;
pub use crate::indirect::create_dispatch_buffer;
pub use crate::shader::{module_to_compiled, CompiledKernel};
pub use crate::tensor::{bitcast_tensor, create_tensor, create_uniform_buffer};
