//! Capture-device control for a photobooth backend: a single-worker actor
//! that owns the exclusive device handle, the command protocol its callers
//! use, the frame-to-data-URL codec the worker runs, and the printer-job
//! preparation around the OS print spool.
//!
//! The actor's worker loop, the platform device calls and all I/O live in
//! the host application; every decision they act on is made and proved here.

pub mod actor;
pub mod codec;
pub mod facade;
pub mod printing;
pub mod status;
