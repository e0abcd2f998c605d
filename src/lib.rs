//! Settings resolution for a static web server: merging command-line and
//! file-based options, and compiling the file's header, rewrite and redirect
//! rules into ordered matchers.

pub mod error;
pub mod general;
pub mod glob;
pub mod rules;
pub mod settings;
pub mod server;
