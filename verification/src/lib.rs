//! Birdcage sandbox.
//!
//! This crate decides what a sandbox on Windows has to do: which access its container is
//! granted for each exception, in what order the system is called, what a failure means, and
//! how a program is launched in the container. The system calls themselves are made by whoever
//! drives it: each operation says what has to be done next and goes on with the reply.
use vstd::prelude::*;

pub mod access;
pub mod behaviour;
pub mod container;
pub mod environment;
pub mod error;
pub mod grant;
pub mod guarantees;
pub mod path_name;
pub mod path_type;
pub mod proc_thread_attribute_list;
pub mod sandbox;
pub mod security;
pub mod sid;
pub mod spawn;
pub mod wide;
pub mod win32;

pub use crate::error::Error;
pub use crate::sandbox::{Exception, Sandbox, WindowsSandbox};

verus! {

/// Default platform sandbox.
pub type Birdcage = WindowsSandbox;

} // verus!
