//! Communicators for data-parallel training over NCCL.
//!
//! A communicator decides which device operations to launch, with which
//! buffers, element counts, roots and streams. Every operation is handed to
//! the host program as a [`calls::DeviceCall`], a plain value that names the
//! NCCL or CUDA function and holds all of its arguments; the host launches it.
//! The decisions themselves are verified.
pub mod calls;
pub mod communicator;
pub mod datatypes;
pub mod effects;
pub mod error;
pub mod group;
pub mod hierarchical;
pub mod inner;
pub mod laws;
pub mod operands;
pub mod results;
pub mod single;
pub mod unique_id;
