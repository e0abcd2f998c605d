//! The `general` settings record and its field-by-field merge.

use vstd::prelude::*;

verus! {

/// Output format of a directory listing.
#[derive(Clone, Copy, Debug, PartialEq, Eq, Structural)]
pub enum DirListFmt {
    Html,
    Json,
}

/// Log verbosity as written in a configuration file.
#[derive(Clone, Copy, Debug, PartialEq, Eq, Structural)]
pub enum LogLevel {
    Error,
    Warn,
    Info,
    Debug,
    Trace,
}

/// The lower-case name under which a log level is stored in `General::log_level`.
pub open spec fn level_name(l: LogLevel) -> Seq<char> {
    match l {
        LogLevel::Error => seq!['e', 'r', 'r', 'o', 'r'],
        LogLevel::Warn => seq!['w', 'a', 'r', 'n'],
        LogLevel::Info => seq!['i', 'n', 'f', 'o'],
        LogLevel::Debug => seq!['d', 'e', 'b', 'u', 'g'],
        LogLevel::Trace => seq!['t', 'r', 'a', 'c', 'e'],
    }
}

impl LogLevel {
    /// The level's lower-case name.
    pub fn name(&self) -> (r: String)
        ensures
            r@ == level_name(*self),
    {
        match self {
            LogLevel::Error => {
                proof { reveal_strlit("error"); }
                "error".to_owned()
            },
            LogLevel::Warn => {
                proof { reveal_strlit("warn"); }
                "warn".to_owned()
            },
            LogLevel::Info => {
                proof { reveal_strlit("info"); }
                "info".to_owned()
            },
            LogLevel::Debug => {
                proof { reveal_strlit("debug"); }
                "debug".to_owned()
            },
            LogLevel::Trace => {
                proof { reveal_strlit("trace"); }
                "trace".to_owned()
            },
        }
    }
}

/// Which optional feature groups take part in resolution. The fields of a
/// disabled group keep their command-line value whatever the file says.
#[derive(Clone, Copy, Debug, PartialEq, Eq, Structural)]
pub struct Features {
    pub compression: bool,
    pub http2: bool,
    pub directory_listing: bool,
    pub basic_auth: bool,
    pub fallback_page: bool,
    pub windows_service: bool,
}

impl Features {
    /// Every feature group enabled.
    pub fn all() -> (r: Features)
        ensures
            r.compression && r.http2 && r.directory_listing && r.basic_auth
                && r.fallback_page && r.windows_service,
    {
        Features {
            compression: true,
            http2: true,
            directory_listing: true,
            basic_auth: true,
            fallback_page: true,
            windows_service: true,
        }
    }
}

/// The fully defaulted general server options.
#[derive(Clone, Debug)]
pub struct General {
    pub host: String,
    pub port: u16,
    pub root: String,
    pub log_level: String,
    pub config_file: Option<String>,
    pub cache_control_headers: bool,
    pub compression: bool,
    pub compression_static: bool,
    pub page404: String,
    pub page50x: String,
    pub http2: bool,
    pub http2_tls_cert: Option<String>,
    pub http2_tls_key: Option<String>,
    pub https_redirect: bool,
    pub https_redirect_host: String,
    pub https_redirect_from_port: u16,
    pub https_redirect_from_hosts: String,
    pub security_headers: bool,
    pub cors_allow_origins: String,
    pub cors_allow_headers: String,
    pub cors_expose_headers: String,
    pub directory_listing: bool,
    pub directory_listing_order: u8,
    pub directory_listing_format: DirListFmt,
    pub basic_auth: String,
    pub fd: Option<usize>,
    pub threads_multiplier: usize,
    pub max_blocking_threads: usize,
    pub grace_period: u8,
    pub page_fallback: String,
    pub log_remote_address: bool,
    pub redirect_trailing_slash: bool,
    pub ignore_hidden_files: bool,
    pub windows_service: bool,
}

/// The general options of a configuration file: each one may be absent.
#[derive(Clone, Debug)]
pub struct FileGeneral {
    pub host: Option<String>,
    pub port: Option<u16>,
    pub root: Option<String>,
    pub log_level: Option<LogLevel>,
    pub cache_control_headers: Option<bool>,
    pub compression: Option<bool>,
    pub compression_static: Option<bool>,
    pub page404: Option<String>,
    pub page50x: Option<String>,
    pub http2: Option<bool>,
    pub http2_tls_cert: Option<String>,
    pub http2_tls_key: Option<String>,
    pub https_redirect: Option<bool>,
    pub https_redirect_host: Option<String>,
    pub https_redirect_from_port: Option<u16>,
    pub https_redirect_from_hosts: Option<String>,
    pub security_headers: Option<bool>,
    pub cors_allow_origins: Option<String>,
    pub cors_allow_headers: Option<String>,
    pub cors_expose_headers: Option<String>,
    pub directory_listing: Option<bool>,
    pub directory_listing_order: Option<u8>,
    pub directory_listing_format: Option<DirListFmt>,
    pub basic_auth: Option<String>,
    pub fd: Option<usize>,
    pub threads_multiplier: Option<usize>,
    pub max_blocking_threads: Option<usize>,
    pub grace_period: Option<u8>,
    pub page_fallback: Option<String>,
    pub log_remote_address: Option<bool>,
    pub redirect_trailing_slash: Option<bool>,
    pub ignore_hidden_files: Option<bool>,
    pub windows_service: Option<bool>,
}

/// A general section that declares nothing.
pub open spec fn no_overrides() -> FileGeneral {
    FileGeneral {
        host: None,
        port: None,
        root: None,
        log_level: None,
        cache_control_headers: None,
        compression: None,
        compression_static: None,
        page404: None,
        page50x: None,
        http2: None,
        http2_tls_cert: None,
        http2_tls_key: None,
        https_redirect: None,
        https_redirect_host: None,
        https_redirect_from_port: None,
        https_redirect_from_hosts: None,
        security_headers: None,
        cors_allow_origins: None,
        cors_allow_headers: None,
        cors_expose_headers: None,
        directory_listing: None,
        directory_listing_order: None,
        directory_listing_format: None,
        basic_auth: None,
        fd: None,
        threads_multiplier: None,
        max_blocking_threads: None,
        grace_period: None,
        page_fallback: None,
        log_remote_address: None,
        redirect_trailing_slash: None,
        ignore_hidden_files: None,
        windows_service: None,
    }
}

impl FileGeneral {
    /// A general section that declares nothing.
    pub fn empty() -> (r: FileGeneral)
        ensures
            r == no_overrides(),
    {
        FileGeneral {
            host: None,
            port: None,
            root: None,
            log_level: None,
            cache_control_headers: None,
            compression: None,
            compression_static: None,
            page404: None,
            page50x: None,
            http2: None,
            http2_tls_cert: None,
            http2_tls_key: None,
            https_redirect: None,
            https_redirect_host: None,
            https_redirect_from_port: None,
            https_redirect_from_hosts: None,
            security_headers: None,
            cors_allow_origins: None,
            cors_allow_headers: None,
            cors_expose_headers: None,
            directory_listing: None,
            directory_listing_order: None,
            directory_listing_format: None,
            basic_auth: None,
            fd: None,
            threads_multiplier: None,
            max_blocking_threads: None,
            grace_period: None,
            page_fallback: None,
            log_remote_address: None,
            redirect_trailing_slash: None,
            ignore_hidden_files: None,
            windows_service: None,
        }
    }
}

/// A declared value replaces the base value; an absent one keeps it.
pub open spec fn overlay<T>(base: T, over: Option<T>) -> T {
    match over {
        Some(v) => v,
        None => base,
    }
}

/// `overlay`, applied only when the field's feature group is enabled.
pub open spec fn overlay_if<T>(enabled: bool, base: T, over: Option<T>) -> T {
    if enabled {
        overlay(base, over)
    } else {
        base
    }
}

/// For an optional field: a declared value replaces the base value.
pub open spec fn overlay_opt<T>(enabled: bool, base: Option<T>, over: Option<T>) -> Option<T> {
    if enabled && over is Some {
        over
    } else {
        base
    }
}

/// The single reducer of the merge: the file's value, when declared, wins.
pub fn override_with<T>(base: T, over: Option<T>) -> (r: T)
    ensures
        r == overlay(base, over),
{
    match over {
        Some(v) => v,
        None => base,
    }
}

/// `override_with` for a field of a feature group.
pub fn override_if<T>(enabled: bool, base: T, over: Option<T>) -> (r: T)
    ensures
        r == overlay_if(enabled, base, over),
{
    if enabled {
        override_with(base, over)
    } else {
        base
    }
}

/// `override_with` for a field whose resolved value is itself optional.
pub fn override_opt<T>(enabled: bool, base: Option<T>, over: Option<T>) -> (r: Option<T>)
    ensures
        r == overlay_opt(enabled, base, over),
{
    if enabled && over.is_some() {
        over
    } else {
        base
    }
}

/// The resolved security-headers flag. With the HTTP/2 group enabled, an
/// undeclared flag is switched on when HTTP/2 itself resolved to on.
pub open spec fn resolved_security_headers(
    cmd: General,
    file: FileGeneral,
    feats: Features,
    http2: bool,
) -> bool {
    if feats.http2 {
        match file.security_headers {
            Some(v) => v,
            None => if http2 {
                true
            } else {
                cmd.security_headers
            },
        }
    } else {
        overlay(cmd.security_headers, file.security_headers)
    }
}

/// The resolved log level: a declared level's name, else the command-line value.
pub open spec fn resolved_log_level(cmd: General, file: FileGeneral) -> Seq<char> {
    match file.log_level {
        Some(l) => level_name(l),
        None => cmd.log_level@,
    }
}

/// The general options after the file's general section is laid over the
/// command-line options. The log level is stored as text, so it is given here
/// as `log_level` and described by `resolved_log_level`.
pub open spec fn merged_general(
    cmd: General,
    file: FileGeneral,
    feats: Features,
    log_level: String,
    config_file: Option<String>,
) -> General {
    let http2 = overlay_if(feats.http2, cmd.http2, file.http2);
    General {
        host: overlay(cmd.host, file.host),
        port: overlay(cmd.port, file.port),
        root: overlay(cmd.root, file.root),
        log_level,
        config_file,
        cache_control_headers: overlay(cmd.cache_control_headers, file.cache_control_headers),
        compression: overlay_if(feats.compression, cmd.compression, file.compression),
        compression_static: overlay_if(
            feats.compression,
            cmd.compression_static,
            file.compression_static,
        ),
        page404: overlay(cmd.page404, file.page404),
        page50x: overlay(cmd.page50x, file.page50x),
        http2,
        http2_tls_cert: overlay_opt(feats.http2, cmd.http2_tls_cert, file.http2_tls_cert),
        http2_tls_key: overlay_opt(feats.http2, cmd.http2_tls_key, file.http2_tls_key),
        https_redirect: overlay_if(feats.http2, cmd.https_redirect, file.https_redirect),
        https_redirect_host: overlay_if(
            feats.http2,
            cmd.https_redirect_host,
            file.https_redirect_host,
        ),
        https_redirect_from_port: overlay_if(
            feats.http2,
            cmd.https_redirect_from_port,
            file.https_redirect_from_port,
        ),
        https_redirect_from_hosts: overlay_if(
            feats.http2,
            cmd.https_redirect_from_hosts,
            file.https_redirect_from_hosts,
        ),
        security_headers: resolved_security_headers(cmd, file, feats, http2),
        cors_allow_origins: overlay(cmd.cors_allow_origins, file.cors_allow_origins),
        cors_allow_headers: overlay(cmd.cors_allow_headers, file.cors_allow_headers),
        cors_expose_headers: overlay(cmd.cors_expose_headers, file.cors_expose_headers),
        directory_listing: overlay_if(
            feats.directory_listing,
            cmd.directory_listing,
            file.directory_listing,
        ),
        directory_listing_order: overlay_if(
            feats.directory_listing,
            cmd.directory_listing_order,
            file.directory_listing_order,
        ),
        directory_listing_format: overlay_if(
            feats.directory_listing,
            cmd.directory_listing_format,
            file.directory_listing_format,
        ),
        basic_auth: overlay_if(feats.basic_auth, cmd.basic_auth, file.basic_auth),
        fd: overlay_opt(true, cmd.fd, file.fd),
        threads_multiplier: overlay(cmd.threads_multiplier, file.threads_multiplier),
        max_blocking_threads: overlay(cmd.max_blocking_threads, file.max_blocking_threads),
        grace_period: overlay(cmd.grace_period, file.grace_period),
        page_fallback: overlay_if(feats.fallback_page, cmd.page_fallback, file.page_fallback),
        log_remote_address: overlay(cmd.log_remote_address, file.log_remote_address),
        redirect_trailing_slash: overlay(
            cmd.redirect_trailing_slash,
            file.redirect_trailing_slash,
        ),
        ignore_hidden_files: overlay(cmd.ignore_hidden_files, file.ignore_hidden_files),
        windows_service: overlay_if(
            feats.windows_service,
            cmd.windows_service,
            file.windows_service,
        ),
    }
}

/// Lays the file's general section over the command-line options, field by
/// field: a declared value always wins, an absent one keeps the command-line
/// value, and the fields of a disabled feature group are left as they are.
/// `config_file` is the path the options were read from.
#[verifier::rlimit(100)]
pub fn resolve_general(
    cmd: General,
    file: FileGeneral,
    feats: Features,
    config_file: Option<String>,
) -> (r: General)
    ensures
        r == merged_general(cmd, file, feats, r.log_level, config_file),
        r.log_level@ == resolved_log_level(cmd, file),
{
    let log_level = match file.log_level {
        Some(l) => l.name(),
        None => cmd.log_level,
    };
    let http2 = override_if(feats.http2, cmd.http2, file.http2);
    let security_headers = if feats.http2 {
        match file.security_headers {
            Some(v) => v,
            None => http2 || cmd.security_headers,
        }
    } else {
        override_with(cmd.security_headers, file.security_headers)
    };
    let host = override_with(cmd.host, file.host);
    let port = override_with(cmd.port, file.port);
    let root = override_with(cmd.root, file.root);
    let cache_control_headers = override_with(cmd.cache_control_headers, file.cache_control_headers);
    let compression = override_if(feats.compression, cmd.compression, file.compression);
    let compression_static = override_if(feats.compression, cmd.compression_static, file.compression_static);
    let page404 = override_with(cmd.page404, file.page404);
    let page50x = override_with(cmd.page50x, file.page50x);
    let http2_tls_cert = override_opt(feats.http2, cmd.http2_tls_cert, file.http2_tls_cert);
    let http2_tls_key = override_opt(feats.http2, cmd.http2_tls_key, file.http2_tls_key);
    let https_redirect = override_if(feats.http2, cmd.https_redirect, file.https_redirect);
    let https_redirect_host = override_if(feats.http2, cmd.https_redirect_host, file.https_redirect_host);
    let https_redirect_from_port = override_if(feats.http2, cmd.https_redirect_from_port, file.https_redirect_from_port);
    let https_redirect_from_hosts = override_if(feats.http2, cmd.https_redirect_from_hosts, file.https_redirect_from_hosts);
    let cors_allow_origins = override_with(cmd.cors_allow_origins, file.cors_allow_origins);
    let cors_allow_headers = override_with(cmd.cors_allow_headers, file.cors_allow_headers);
    let cors_expose_headers = override_with(cmd.cors_expose_headers, file.cors_expose_headers);
    let directory_listing = override_if(feats.directory_listing, cmd.directory_listing, file.directory_listing);
    let directory_listing_order = override_if(feats.directory_listing, cmd.directory_listing_order, file.directory_listing_order);
    let directory_listing_format = override_if(feats.directory_listing, cmd.directory_listing_format, file.directory_listing_format);
    let basic_auth = override_if(feats.basic_auth, cmd.basic_auth, file.basic_auth);
    let fd = override_opt(true, cmd.fd, file.fd);
    let threads_multiplier = override_with(cmd.threads_multiplier, file.threads_multiplier);
    let max_blocking_threads = override_with(cmd.max_blocking_threads, file.max_blocking_threads);
    let grace_period = override_with(cmd.grace_period, file.grace_period);
    let page_fallback = override_if(feats.fallback_page, cmd.page_fallback, file.page_fallback);
    let log_remote_address = override_with(cmd.log_remote_address, file.log_remote_address);
    let redirect_trailing_slash = override_with(cmd.redirect_trailing_slash, file.redirect_trailing_slash);
    let ignore_hidden_files = override_with(cmd.ignore_hidden_files, file.ignore_hidden_files);
    let windows_service = override_if(feats.windows_service, cmd.windows_service, file.windows_service);
    General {
        host,
        port,
        root,
        log_level,
        config_file,
        cache_control_headers,
        compression,
        compression_static,
        page404,
        page50x,
        http2,
        http2_tls_cert,
        http2_tls_key,
        https_redirect,
        https_redirect_host,
        https_redirect_from_port,
        https_redirect_from_hosts,
        security_headers,
        cors_allow_origins,
        cors_allow_headers,
        cors_expose_headers,
        directory_listing,
        directory_listing_order,
        directory_listing_format,
        basic_auth,
        fd,
        threads_multiplier,
        max_blocking_threads,
        grace_period,
        page_fallback,
        log_remote_address,
        redirect_trailing_slash,
        ignore_hidden_files,
        windows_service,
    }
}

/// Every field that the file declares takes the file's value, whatever the
/// command line said (for a feature group's fields: when the group is enabled).
pub proof fn lemma_file_wins(
    cmd: General,
    file: FileGeneral,
    feats: Features,
    log_level: String,
    config_file: Option<String>,
)
    ensures
        ({
            let r = merged_general(cmd, file, feats, log_level, config_file);
            &&& (file.host is Some ==> r.host == file.host->0)
            &&& (file.port is Some ==> r.port == file.port->0)
            &&& (file.root is Some ==> r.root == file.root->0)
            &&& (file.cache_control_headers is Some ==> r.cache_control_headers == file.cache_control_headers->0)
            &&& (file.page404 is Some ==> r.page404 == file.page404->0)
            &&& (file.page50x is Some ==> r.page50x == file.page50x->0)
            &&& (file.cors_allow_origins is Some ==> r.cors_allow_origins == file.cors_allow_origins->0)
            &&& (file.cors_allow_headers is Some ==> r.cors_allow_headers == file.cors_allow_headers->0)
            &&& (file.cors_expose_headers is Some ==> r.cors_expose_headers == file.cors_expose_headers->0)
            &&& (file.threads_multiplier is Some ==> r.threads_multiplier == file.threads_multiplier->0)
            &&& (file.max_blocking_threads is Some ==> r.max_blocking_threads == file.max_blocking_threads->0)
            &&& (file.grace_period is Some ==> r.grace_period == file.grace_period->0)
            &&& (file.log_remote_address is Some ==> r.log_remote_address == file.log_remote_address->0)
            &&& (file.redirect_trailing_slash is Some ==> r.redirect_trailing_slash == file.redirect_trailing_slash->0)
            &&& (file.ignore_hidden_files is Some ==> r.ignore_hidden_files == file.ignore_hidden_files->0)
            &&& (feats.compression && file.compression is Some ==> r.compression == file.compression->0)
            &&& (feats.compression && file.compression_static is Some ==> r.compression_static == file.compression_static->0)
            &&& (feats.http2 && file.http2 is Some ==> r.http2 == file.http2->0)
            &&& (feats.http2 && file.https_redirect is Some ==> r.https_redirect == file.https_redirect->0)
            &&& (feats.http2 && file.https_redirect_host is Some ==> r.https_redirect_host == file.https_redirect_host->0)
            &&& (feats.http2 && file.https_redirect_from_port is Some ==> r.https_redirect_from_port == file.https_redirect_from_port->0)
            &&& (feats.http2 && file.https_redirect_from_hosts is Some ==> r.https_redirect_from_hosts == file.https_redirect_from_hosts->0)
            &&& (feats.directory_listing && file.directory_listing is Some ==> r.directory_listing == file.directory_listing->0)
            &&& (feats.directory_listing && file.directory_listing_order is Some ==> r.directory_listing_order == file.directory_listing_order->0)
            &&& (feats.directory_listing && file.directory_listing_format is Some ==> r.directory_listing_format == file.directory_listing_format->0)
            &&& (feats.basic_auth && file.basic_auth is Some ==> r.basic_auth == file.basic_auth->0)
            &&& (feats.fallback_page && file.page_fallback is Some ==> r.page_fallback == file.page_fallback->0)
            &&& (feats.windows_service && file.windows_service is Some ==> r.windows_service == file.windows_service->0)
            &&& (feats.http2 && file.http2_tls_cert is Some ==> r.http2_tls_cert == file.http2_tls_cert)
            &&& (feats.http2 && file.http2_tls_key is Some ==> r.http2_tls_key == file.http2_tls_key)
            &&& (file.fd is Some ==> r.fd == file.fd)
            &&& (file.security_headers is Some ==> r.security_headers == file.security_headers->0)
            &&& (file.log_level is Some ==> resolved_log_level(cmd, file) == level_name(file.log_level->0))
        }),
{
}

/// Every field that the file leaves out keeps the command-line value; so does
/// every field of a disabled feature group. The one exception is the
/// security-headers flag, which an enabled HTTP/2 switches on.
pub proof fn lemma_defaults_kept(
    cmd: General,
    file: FileGeneral,
    feats: Features,
    log_level: String,
    config_file: Option<String>,
)
    ensures
        ({
            let r = merged_general(cmd, file, feats, log_level, config_file);
            &&& (file.host is None ==> r.host == cmd.host)
            &&& (file.port is None ==> r.port == cmd.port)
            &&& (file.root is None ==> r.root == cmd.root)
            &&& (file.cache_control_headers is None ==> r.cache_control_headers == cmd.cache_control_headers)
            &&& (file.page404 is None ==> r.page404 == cmd.page404)
            &&& (file.page50x is None ==> r.page50x == cmd.page50x)
            &&& (file.cors_allow_origins is None ==> r.cors_allow_origins == cmd.cors_allow_origins)
            &&& (file.cors_allow_headers is None ==> r.cors_allow_headers == cmd.cors_allow_headers)
            &&& (file.cors_expose_headers is None ==> r.cors_expose_headers == cmd.cors_expose_headers)
            &&& (file.threads_multiplier is None ==> r.threads_multiplier == cmd.threads_multiplier)
            &&& (file.max_blocking_threads is None ==> r.max_blocking_threads == cmd.max_blocking_threads)
            &&& (file.grace_period is None ==> r.grace_period == cmd.grace_period)
            &&& (file.log_remote_address is None ==> r.log_remote_address == cmd.log_remote_address)
            &&& (file.redirect_trailing_slash is None ==> r.redirect_trailing_slash == cmd.redirect_trailing_slash)
            &&& (file.ignore_hidden_files is None ==> r.ignore_hidden_files == cmd.ignore_hidden_files)
            &&& (!feats.compression || file.compression is None ==> r.compression == cmd.compression)
            &&& (!feats.compression || file.compression_static is None ==> r.compression_static == cmd.compression_static)
            &&& (!feats.http2 || file.http2 is None ==> r.http2 == cmd.http2)
            &&& (!feats.http2 || file.https_redirect is None ==> r.https_redirect == cmd.https_redirect)
            &&& (!feats.http2 || file.https_redirect_host is None ==> r.https_redirect_host == cmd.https_redirect_host)
            &&& (!feats.http2 || file.https_redirect_from_port is None ==> r.https_redirect_from_port == cmd.https_redirect_from_port)
            &&& (!feats.http2 || file.https_redirect_from_hosts is None ==> r.https_redirect_from_hosts == cmd.https_redirect_from_hosts)
            &&& (!feats.directory_listing || file.directory_listing is None ==> r.directory_listing == cmd.directory_listing)
            &&& (!feats.directory_listing || file.directory_listing_order is None ==> r.directory_listing_order == cmd.directory_listing_order)
            &&& (!feats.directory_listing || file.directory_listing_format is None ==> r.directory_listing_format == cmd.directory_listing_format)
            &&& (!feats.basic_auth || file.basic_auth is None ==> r.basic_auth == cmd.basic_auth)
            &&& (!feats.fallback_page || file.page_fallback is None ==> r.page_fallback == cmd.page_fallback)
            &&& (!feats.windows_service || file.windows_service is None ==> r.windows_service == cmd.windows_service)
            &&& (!feats.http2 || file.http2_tls_cert is None ==> r.http2_tls_cert == cmd.http2_tls_cert)
            &&& (!feats.http2 || file.http2_tls_key is None ==> r.http2_tls_key == cmd.http2_tls_key)
            &&& (file.fd is None ==> r.fd == cmd.fd)
            &&& (file.security_headers is None && !(feats.http2 && r.http2) ==> r.security_headers == cmd.security_headers)
            &&& (file.log_level is None ==> resolved_log_level(cmd, file) == cmd.log_level@)
        }),
{
}

/// With the HTTP/2 group enabled and HTTP/2 resolved to on, a security-headers
/// flag that the file leaves out resolves to on; a flag that the file sets to
/// off stays off whatever HTTP/2 resolved to.
pub proof fn lemma_security_headers_coupling(
    cmd: General,
    file: FileGeneral,
    feats: Features,
    log_level: String,
    config_file: Option<String>,
)
    ensures
        ({
            let r = merged_general(cmd, file, feats, log_level, config_file);
            &&& (feats.http2 && r.http2 && file.security_headers is None ==> r.security_headers)
            &&& (file.security_headers == Some(false) ==> !r.security_headers)
        }),
{
}

} // verus!
