//! The resolved settings: general options and compiled rules, built once at
//! startup from the command line and an optional configuration file.

use vstd::prelude::*;
use crate::error::SettingsError;
use crate::general::{
    merged_general, no_overrides, resolve_general, resolved_log_level, Features, FileGeneral,
    General,
};
use crate::rules::{advanced_compiled, advanced_failure, advanced_ok, compile_advanced, Advanced, RawAdvanced};

verus! {

/// The contents of a configuration file: both sections optional.
#[derive(Debug)]
pub struct FileSettings {
    pub general: Option<FileGeneral>,
    pub advanced: Option<RawAdvanced>,
}

/// What looking for the declared configuration file found.
#[derive(Debug)]
pub enum ConfigLookup {
    /// No file was declared, or the declared path is not a regular file.
    Absent,
    /// The declared path could not be canonicalized.
    Unresolvable,
    /// The file could not be read, or its contents are malformed.
    Unparsable,
    /// The file was read from the canonical path `path`.
    Parsed { path: String, file: FileSettings },
}

/// The general options that a file's general section is laid over: the
/// section itself, or an empty one when the file has none.
pub open spec fn declared_general(file: FileSettings) -> FileGeneral {
    match file.general {
        Some(g) => g,
        None => no_overrides(),
    }
}

/// The full server settings.
pub struct Settings {
    /// General server options.
    pub general: General,
    /// Compiled rules, when the configuration file has an `advanced` section.
    pub advanced: Option<Advanced>,
}

impl Settings {
    /// Converges the command-line options `cmd` and what the lookup of the
    /// configuration file found into one settings value. The file's options
    /// always win over the command line; a missing file leaves the command line
    /// alone; any failure returns an error and no settings at all.
    pub fn get(cmd: General, lookup: ConfigLookup, feats: Features) -> (r: Result<Settings, SettingsError>)
        ensures
            match lookup {
                ConfigLookup::Absent => r is Ok && r->Ok_0.general == cmd && r->Ok_0.advanced is None,
                ConfigLookup::Unresolvable => r is Err && r->Err_0 is PathResolution,
                ConfigLookup::Unparsable => r is Err && r->Err_0 is ConfigParse,
                ConfigLookup::Parsed { path, file } => {
                    &&& (r is Ok <==> (file.advanced is Some ==> advanced_ok(file.advanced->0)))
                    &&& (r is Ok ==> {
                        let s = r->Ok_0;
                        let g = declared_general(file);
                        &&& s.general == merged_general(cmd, g, feats, s.general.log_level, Some(path))
                        &&& s.general.log_level@ == resolved_log_level(cmd, g)
                        &&& (s.advanced is Some <==> file.advanced is Some)
                        &&& (s.advanced is Some ==> advanced_compiled(s.advanced->0, file.advanced->0))
                    })
                    &&& (r is Err ==> file.advanced is Some && advanced_failure(file.advanced->0, r->Err_0))
                },
            },
    {
        match lookup {
            ConfigLookup::Absent => Ok(Settings { general: cmd, advanced: None }),
            ConfigLookup::Unresolvable => Err(SettingsError::PathResolution),
            ConfigLookup::Unparsable => Err(SettingsError::ConfigParse),
            ConfigLookup::Parsed { path, file } => {
                let advanced = match file.advanced.as_ref() {
                    Some(raw) => match compile_advanced(raw) {
                        Ok(a) => Some(a),
                        Err(e) => return Err(e),
                    },
                    None => None,
                };
                let g = match file.general {
                    Some(g) => g,
                    None => FileGeneral::empty(),
                };
                let general = resolve_general(cmd, g, feats, Some(path));
                Ok(Settings { general, advanced })
            },
        }
    }
}

} // verus!
