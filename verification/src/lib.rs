//! Supervisor for a single companion server process.
//!
//! The library holds the verified core of a desktop application's backend
//! supervisor: the shared slot that tracks at most one running child process,
//! the routine that plans the delayed start of that process, and the routine
//! that plans its shutdown when the application window closes. The
//! surrounding shell (the UI framework, the async runtime, the actual spawn
//! and signal calls) lives outside the library and only performs the actions
//! these routines decide on.

pub mod lifecycle;
pub mod location;
pub mod slot;
