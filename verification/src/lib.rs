//! A safe boundary over a screen-capture backend.
//!
//! Callers hold opaque, single-owner handles for displays and capture
//! sessions, receive failures as caller-owned error handles, and read
//! every outcome out of a uniform value-or-error envelope. The backend
//! itself is an external engine: the thin face that calls it stands
//! outside this library and hands each outcome in as a plain value,
//! and every decision the boundary makes over an outcome is verified
//! here.

pub mod boundary;
pub mod envelope;
pub mod error;
pub mod handle;
