//! Why resolving the settings failed.

use vstd::prelude::*;

verus! {

/// The three rule lists of the `advanced` section.
#[derive(Clone, Copy, Debug, PartialEq, Eq, Structural)]
pub enum RuleKind {
    Headers,
    Rewrites,
    Redirects,
}

/// A fatal resolution failure. A declared configuration file that is not a
/// regular file is no failure: resolution then uses the command line alone.
#[derive(Clone, Debug)]
pub enum SettingsError {
    /// The configuration file's path could not be canonicalized.
    PathResolution,
    /// The configuration file is malformed or uses an unsupported option shape.
    ConfigParse,
    /// The source pattern of entry `index` of the `rule` list does not compile.
    PatternCompile { rule: RuleKind, index: usize, pattern: String },
    /// Redirect entry `index` declares a status code other than 301 or 302.
    InvalidStatusCode { index: usize, code: u16 },
}

} // verus!
