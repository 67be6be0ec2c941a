//! Build-time binding generator for a native trading API distributed as a C++
//! header plus a shared object, together with the runtime event queue used by
//! the callback bridge it emits.
//!
//! The generator walks a tree of typed declaration nodes (records, methods,
//! parameters) taken from the native header and emits, as text: safe wrapper
//! methods for the outbound API, and the full inbound callback bridge — a
//! capability trait, an ABI dispatch table whose field order equals native
//! declaration order, a static table instance, a tagged event type with one
//! payload struct per callback, and native trampolines that null-check every
//! pointer argument before use.

pub mod bridge;
pub mod config;
pub mod errors;
pub mod methods;
pub mod model;
pub mod names;
pub mod params;
pub mod records;
pub mod text;
