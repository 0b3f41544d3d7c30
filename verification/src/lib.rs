//! Decision logic for a desktop shell that supervises a local backend server.
//!
//! The shell decides whether a backend is already reachable, how to launch
//! one when it is not, when the launched backend counts as ready, and how the
//! spawned process is torn down. Everything in this crate is a pure decision
//! over plain values; the caller performs the I/O.
//!
//! - [`environment`]: the variables read at startup and what follows from
//!   them.
//! - [`resolver`]: locating the runtime executable.
//! - [`launch`]: the three startup modes and the launch configuration.
//! - [`preparation`]: the filesystem steps that precede a launch.
//! - [`startup`]: the whole plan, from what was seen on disk.
//! - [`readiness`]: waiting for the launched server to accept connections.
//! - [`process`]: ownership and teardown of the spawned process.

pub mod environment;
pub mod launch;
pub mod preparation;
pub mod process;
pub mod readiness;
pub mod resolver;
pub mod startup;
