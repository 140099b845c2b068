//! Configuration resolution for a JavaScript/TypeScript formatting plugin.
//!
//! Raw, weakly typed settings are turned into a typed
//! [`configuration::Configuration`] together with an ordered list of
//! non-fatal diagnostics.
pub mod configuration;
pub mod format_text;
