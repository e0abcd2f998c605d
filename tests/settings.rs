use static_web_server::error::{RuleKind, SettingsError};
use static_web_server::general::{resolve_general, DirListFmt, Features, FileGeneral, General, LogLevel};
use static_web_server::rules::{
    compile_advanced, HeaderEntry, HeaderPair, RawAdvanced, RedirectEntry, RedirectKind, RewriteEntry,
};
use static_web_server::server::Server;
use static_web_server::settings::{ConfigLookup, FileSettings, Settings};

fn cmd_defaults() -> General {
    General {
        host: "::".to_string(),
        port: 80,
        root: "./public".to_string(),
        log_level: "error".to_string(),
        config_file: Some("./config.toml".to_string()),
        cache_control_headers: true,
        compression: true,
        compression_static: false,
        page404: "./public/404.html".to_string(),
        page50x: "./public/50x.html".to_string(),
        http2: false,
        http2_tls_cert: None,
        http2_tls_key: None,
        https_redirect: false,
        https_redirect_host: "localhost".to_string(),
        https_redirect_from_port: 80,
        https_redirect_from_hosts: "localhost".to_string(),
        security_headers: false,
        cors_allow_origins: String::new(),
        cors_allow_headers: "origin, content-type".to_string(),
        cors_expose_headers: "origin, content-type".to_string(),
        directory_listing: false,
        directory_listing_order: 6,
        directory_listing_format: DirListFmt::Html,
        basic_auth: String::new(),
        fd: None,
        threads_multiplier: 1,
        max_blocking_threads: 512,
        grace_period: 0,
        page_fallback: String::new(),
        log_remote_address: false,
        redirect_trailing_slash: true,
        ignore_hidden_files: false,
        windows_service: false,
    }
}

fn header(name: &str, value: &str) -> HeaderPair {
    HeaderPair { name: name.to_string(), value: value.to_string() }
}

fn no_rules() -> RawAdvanced {
    RawAdvanced { headers: None, rewrites: None, redirects: None }
}

fn parsed(general: Option<FileGeneral>, advanced: Option<RawAdvanced>) -> ConfigLookup {
    ConfigLookup::Parsed {
        path: "/etc/sws/config.toml".to_string(),
        file: FileSettings { general, advanced },
    }
}

fn rewrites(sources: &[&str]) -> RawAdvanced {
    let mut raw = no_rules();
    raw.rewrites = Some(
        sources
            .iter()
            .map(|s| RewriteEntry { source: s.to_string(), destination: format!("/to{}", s) })
            .collect(),
    );
    raw
}

#[test]
fn file_values_override_command_line() {
    let mut file = FileGeneral::empty();
    file.host = Some("127.0.0.1".to_string());
    file.port = Some(8787);
    file.log_level = Some(LogLevel::Trace);
    file.directory_listing = Some(true);
    file.directory_listing_format = Some(DirListFmt::Json);
    file.fd = Some(3);
    file.http2_tls_cert = Some("cert.pem".to_string());
    let s = Settings::get(cmd_defaults(), parsed(Some(file), None), Features::all()).unwrap();
    assert_eq!(s.general.host, "127.0.0.1");
    assert_eq!(s.general.port, 8787);
    assert_eq!(s.general.log_level, "trace");
    assert!(s.general.directory_listing);
    assert_eq!(s.general.directory_listing_format, DirListFmt::Json);
    assert_eq!(s.general.fd, Some(3));
    assert_eq!(s.general.http2_tls_cert, Some("cert.pem".to_string()));
    assert_eq!(s.general.config_file, Some("/etc/sws/config.toml".to_string()));
    assert!(s.advanced.is_none());
}

#[test]
fn file_wins_even_over_explicit_command_line_value() {
    let mut cmd = cmd_defaults();
    cmd.port = 9000;
    let mut file = FileGeneral::empty();
    file.port = Some(8080);
    let g = resolve_general(cmd, file, Features::all(), None);
    assert_eq!(g.port, 8080);
}

#[test]
fn absent_fields_keep_command_line_values() {
    let mut file = FileGeneral::empty();
    file.port = Some(8080);
    let s = Settings::get(cmd_defaults(), parsed(Some(file), None), Features::all()).unwrap();
    let d = cmd_defaults();
    assert_eq!(s.general.host, d.host);
    assert_eq!(s.general.root, d.root);
    assert_eq!(s.general.log_level, d.log_level);
    assert_eq!(s.general.max_blocking_threads, d.max_blocking_threads);
    assert_eq!(s.general.cors_allow_headers, d.cors_allow_headers);
    assert_eq!(s.general.security_headers, d.security_headers);
}

#[test]
fn disabled_feature_group_is_not_merged() {
    let mut feats = Features::all();
    feats.compression = false;
    let mut file = FileGeneral::empty();
    file.compression = Some(false);
    file.compression_static = Some(true);
    let g = resolve_general(cmd_defaults(), file, feats, None);
    assert!(g.compression);
    assert!(!g.compression_static);
}

#[test]
fn http2_turns_on_security_headers_by_default() {
    let mut file = FileGeneral::empty();
    file.http2 = Some(true);
    let g = resolve_general(cmd_defaults(), file, Features::all(), None);
    assert!(g.http2);
    assert!(g.security_headers);
}

#[test]
fn explicit_security_headers_off_wins_over_http2() {
    let mut file = FileGeneral::empty();
    file.http2 = Some(true);
    file.security_headers = Some(false);
    let g = resolve_general(cmd_defaults(), file, Features::all(), None);
    assert!(!g.security_headers);
    let mut cmd = cmd_defaults();
    cmd.http2 = true;
    let mut file = FileGeneral::empty();
    file.security_headers = Some(false);
    let g = resolve_general(cmd, file, Features::all(), None);
    assert!(!g.security_headers);
}

#[test]
fn file_without_general_section_keeps_command_line() {
    let s = Settings::get(cmd_defaults(), parsed(None, Some(no_rules())), Features::all()).unwrap();
    assert_eq!(s.general.port, 80);
    assert_eq!(s.general.host, "::");
    let a = s.advanced.unwrap();
    assert!(a.headers.is_none() && a.rewrites.is_none() && a.redirects.is_none());
}

#[test]
fn missing_config_file_uses_command_line_only() {
    let s = Settings::get(cmd_defaults(), ConfigLookup::Absent, Features::all()).unwrap();
    let d = cmd_defaults();
    assert_eq!(s.general.port, d.port);
    assert_eq!(s.general.root, d.root);
    assert_eq!(s.general.config_file, d.config_file);
    assert!(s.advanced.is_none());
}

#[test]
fn unresolvable_path_fails() {
    let r = Settings::get(cmd_defaults(), ConfigLookup::Unresolvable, Features::all());
    assert!(matches!(r, Err(SettingsError::PathResolution)));
}

#[test]
fn malformed_file_fails() {
    let r = Settings::get(cmd_defaults(), ConfigLookup::Unparsable, Features::all());
    assert!(matches!(r, Err(SettingsError::ConfigParse)));
}

#[test]
fn globstar_pattern_matches_nested_paths() {
    let a = compile_advanced(&rewrites(&["/static/**"])).unwrap();
    assert_eq!(a.rewrite_for("/static/a/b.css"), Some(0));
    assert_eq!(a.rewrite_for("/other/a.css"), None);
}

#[test]
fn star_pattern_stays_in_one_segment() {
    let a = compile_advanced(&rewrites(&["/img/*.png"])).unwrap();
    assert_eq!(a.rewrite_for("/img/x.png"), Some(0));
    assert_eq!(a.rewrite_for("/img/x.jpg"), None);
    assert_eq!(a.rewrite_for("/img/a/x.png"), None);
}

#[test]
fn classes_alternation_and_question_mark() {
    let a = compile_advanced(&rewrites(&["/{a,b}/file?.[ch]"])).unwrap();
    assert_eq!(a.rewrite_for("/a/file1.c"), Some(0));
    assert_eq!(a.rewrite_for("/b/file2.h"), Some(0));
    assert_eq!(a.rewrite_for("/c/file1.c"), None);
    assert_eq!(a.rewrite_for("/a/file12.c"), None);
}

#[test]
fn later_header_entry_overrides_earlier() {
    let mut raw = no_rules();
    raw.headers = Some(vec![
        HeaderEntry { source: "/api/*".to_string(), headers: vec![header("cache-control", "max-age=60")] },
        HeaderEntry { source: "/api/*".to_string(), headers: vec![header("cache-control", "no-store")] },
        HeaderEntry { source: "/other/*".to_string(), headers: vec![header("x-other", "1")] },
    ]);
    let a = compile_advanced(&raw).unwrap();
    let name = "cache-control".to_string();
    assert_eq!(a.header_value("/api/v1", &name), Some("no-store".to_string()));
    assert_eq!(a.headers_for("/api/v1"), vec![0, 1]);
    assert_eq!(a.header_value("/api/v1", &"x-other".to_string()), None);
    assert_eq!(a.header_value("/static/x", &name), None);
}

#[test]
fn first_matching_redirect_applies() {
    let mut raw = no_rules();
    raw.redirects = Some(vec![
        RedirectEntry { source: "/old".to_string(), destination: "/new".to_string(), kind: 301 },
        RedirectEntry { source: "/o*".to_string(), destination: "/elsewhere".to_string(), kind: 302 },
    ]);
    let a = compile_advanced(&raw).unwrap();
    let i = a.redirect_for("/old").unwrap();
    assert_eq!(i, 0);
    let r = &a.redirects.as_ref().unwrap()[i];
    assert_eq!(r.destination, "/new");
    assert_eq!(r.kind, RedirectKind::MovedPermanently);
    assert_eq!(r.kind.code(), 301);
    assert_eq!(a.redirect_for("/other"), Some(1));
    assert_eq!(a.redirect_for("/x"), None);
}

#[test]
fn first_matching_rewrite_applies() {
    let a = compile_advanced(&rewrites(&["/docs/*", "/*/*"])).unwrap();
    assert_eq!(a.rewrite_for("/docs/a"), Some(0));
    assert_eq!(a.rewrite_for("/blog/a"), Some(1));
    assert_eq!(a.rewrites.as_ref().unwrap()[1].destination, "/to/*/*");
}

#[test]
fn invalid_redirect_status_fails_resolution() {
    let mut raw = no_rules();
    raw.redirects = Some(vec![
        RedirectEntry { source: "/a".to_string(), destination: "/b".to_string(), kind: 302 },
        RedirectEntry { source: "/old".to_string(), destination: "/new".to_string(), kind: 418 },
    ]);
    let r = Settings::get(cmd_defaults(), parsed(None, Some(raw)), Features::all());
    assert!(matches!(r, Err(SettingsError::InvalidStatusCode { index: 1, code: 418 })));
}

#[test]
fn bad_pattern_fails_and_names_entry() {
    let mut raw = rewrites(&["/ok/*", "/bad/[a"]);
    raw.headers = Some(vec![HeaderEntry { source: "/h/*".to_string(), headers: vec![] }]);
    let r = Settings::get(cmd_defaults(), parsed(None, Some(raw)), Features::all());
    match r {
        Err(SettingsError::PatternCompile { rule, index, pattern }) => {
            assert_eq!(rule, RuleKind::Rewrites);
            assert_eq!(index, 1);
            assert_eq!(pattern, "/bad/[a");
        },
        _ => panic!("expected a pattern error"),
    }
}

#[test]
fn header_pattern_error_comes_first() {
    let mut raw = rewrites(&["/bad/[a"]);
    raw.headers = Some(vec![HeaderEntry { source: "{a".to_string(), headers: vec![] }]);
    raw.redirects = Some(vec![RedirectEntry { source: "/x".to_string(), destination: "/y".to_string(), kind: 999 }]);
    let r = compile_advanced(&raw);
    assert!(matches!(r, Err(SettingsError::PatternCompile { rule: RuleKind::Headers, index: 0, .. })));
}

#[test]
fn redirect_pattern_checked_before_status() {
    let mut raw = no_rules();
    raw.redirects = Some(vec![RedirectEntry { source: "/[z".to_string(), destination: "/y".to_string(), kind: 418 }]);
    let r = compile_advanced(&raw);
    assert!(matches!(r, Err(SettingsError::PatternCompile { rule: RuleKind::Redirects, index: 0, .. })));
}

#[test]
fn compiling_twice_accepts_same_paths() {
    let raw = rewrites(&["/static/**", "/img/*.png", "/{a,b}/?"]);
    let a = compile_advanced(&raw).unwrap();
    let b = compile_advanced(&raw).unwrap();
    for p in ["/static/x/y", "/img/x.png", "/img/a/x.png", "/a/1", "/c/1", "/"] {
        assert_eq!(a.rewrite_for(p), b.rewrite_for(p));
    }
    let pa: Vec<String> = a.rewrites.as_ref().unwrap().iter().map(|r| r.source.pattern().clone()).collect();
    let pb: Vec<String> = b.rewrites.as_ref().unwrap().iter().map(|r| r.source.pattern().clone()).collect();
    assert_eq!(pa, pb);
    assert_eq!(pa[0], "/static/**");
}

#[test]
fn header_lists_are_copied_in_order() {
    let mut raw = no_rules();
    raw.headers = Some(vec![HeaderEntry {
        source: "/**".to_string(),
        headers: vec![header("a", "1"), header("b", "2"), header("a", "3")],
    }]);
    let a = compile_advanced(&raw).unwrap();
    let h = &a.headers.as_ref().unwrap()[0].headers;
    assert_eq!(h.len(), 3);
    assert_eq!(h[1].name, "b");
    assert_eq!(a.header_value("/x", &"a".to_string()), Some("3".to_string()));
}

#[test]
fn log_level_names() {
    assert_eq!(LogLevel::Error.name(), "error");
    assert_eq!(LogLevel::Warn.name(), "warn");
    assert_eq!(LogLevel::Info.name(), "info");
    assert_eq!(LogLevel::Debug.name(), "debug");
    assert_eq!(LogLevel::Trace.name(), "trace");
}

#[test]
fn redirect_kinds() {
    assert_eq!(RedirectKind::from_code(301), Some(RedirectKind::MovedPermanently));
    assert_eq!(RedirectKind::from_code(302), Some(RedirectKind::Found));
    assert_eq!(RedirectKind::from_code(418), None);
    assert_eq!(RedirectKind::Found.code(), 302);
}

#[test]
fn worker_thread_count() {
    assert_eq!(Server::with_cpus(0, 8).threads(), 1);
    assert_eq!(Server::with_cpus(1, 8).threads(), 1);
    assert_eq!(Server::with_cpus(2, 8).threads(), 16);
    assert_eq!(Server::with_cpus(usize::MAX, 2).threads(), usize::MAX);
    let s = Settings::get(cmd_defaults(), ConfigLookup::Absent, Features::all()).unwrap();
    assert_eq!(Server::new(&s).threads(), 1);
}
