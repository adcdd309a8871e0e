//! Start-up decisions of a desktop shell that registers its plugins and, when
//! configured to, launches a bundled backend server as a child process.
//!
//! The host framework does the outside work (registering a plugin, resolving
//! and spawning the sidecar); this library decides, from the build settings and
//! the outcome of each piece of work, what is done next and how set-up ends.
pub mod session;
pub mod setup;
