//! A verified model of an OpenGL device that caches what the context has
//! bound. Each operation updates the cache and returns the list of GL calls
//! it has decided on; whoever holds the GL context makes those calls.
pub mod gl;
pub mod types;
pub mod handles;
pub mod device;
pub mod shader;
