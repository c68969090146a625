//! Validation and command-dispatch core of a WebGL-style graphics context.
//!
//! The crate models the caller-side half of a split renderer: it accepts
//! drawing and resource API calls, enforces the legality rules of the
//! WebGL 1.0 specification, tracks binding and ownership state of GPU object
//! handles, and encodes every validated operation as an immutable command
//! value. Commands accumulate in an outbox; the host environment drains the
//! outbox onto its channel to the out-of-process rendering backend and, for
//! query commands, hands the backend's reply back to the context.
//!
//! Scalar floating-point values (colors, depth ranges, vertex attributes)
//! cross this core as IEEE-754 bit patterns held in `u32`: the core never
//! performs floating-point arithmetic, it only stores, compares and forwards
//! such values.

#![allow(non_snake_case)]

pub mod constants;
pub mod error;
pub mod limits;
pub mod floatbits;
pub mod command;
pub mod extensions;
pub mod objects;
pub mod textures;
pub mod context;
pub mod settings;
pub mod bindings;
pub mod buffers;
pub mod deletion;
pub mod uploads;
pub mod uniforms;
pub mod drawing;
pub mod queries;
pub mod framebuffers;
pub mod shaders;
pub mod permissions;
