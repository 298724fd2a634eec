//! The master of a service supervisor: the framing of its control socket, the
//! decisions of a client session and the start sequence of the process, each
//! stated by a contract and proved.
//!
//! Sockets, timers, actors and system calls are left to the program around the
//! library. It performs what the library asks for and reports what came of it.
pub mod buffer;
pub mod client;
pub mod client_laws;
pub mod codec;
pub mod master;
pub mod process;
pub mod startup;
pub mod startup_laws;
pub mod types;
