//! The `advanced` rules: raw entries as a configuration file declares them,
//! and their compiled, ordered form.

use vstd::prelude::*;
use crate::error::{RuleKind, SettingsError};
use crate::glob::{glob_accepts, glob_valid, Matcher};

verus! {

/// One custom response header.
#[derive(Debug)]
pub struct HeaderPair {
    pub name: String,
    pub value: String,
}

impl View for HeaderPair {
    type V = (Seq<char>, Seq<char>);

    open spec fn view(&self) -> (Seq<char>, Seq<char>) {
        (self.name@, self.value@)
    }
}

impl HeaderPair {
    /// A copy of the header.
    pub fn duplicate(&self) -> (r: HeaderPair)
        ensures
            r@ == self@,
    {
        HeaderPair { name: self.name.clone(), value: self.value.clone() }
    }
}

/// Two header lists that hold the same headers in the same order.
pub open spec fn same_pairs(a: Seq<HeaderPair>, b: Seq<HeaderPair>) -> bool {
    a.len() == b.len() && forall|k: int| 0 <= k < a.len() ==> #[trigger] a[k]@ == b[k]@
}

/// A copy of a header list.
pub fn copy_pairs(v: &Vec<HeaderPair>) -> (r: Vec<HeaderPair>)
    ensures
        same_pairs(r@, v@),
{
    let mut r: Vec<HeaderPair> = Vec::new();
    let mut i: usize = 0;
    while i < v.len()
        invariant
            i <= v@.len(),
            r@.len() == i,
            forall|k: int| 0 <= k < i ==> #[trigger] r@[k]@ == v@[k]@,
        decreases v@.len() - i,
    {
        r.push(v[i].duplicate());
        i = i + 1;
    }
    r
}

/// A `headers` entry of the file: a source pattern and the headers to add.
#[derive(Debug)]
pub struct HeaderEntry {
    pub source: String,
    pub headers: Vec<HeaderPair>,
}

/// A `rewrites` entry of the file.
#[derive(Clone, Debug)]
pub struct RewriteEntry {
    pub source: String,
    pub destination: String,
}

/// A `redirects` entry of the file; `kind` is the declared status code.
#[derive(Clone, Debug)]
pub struct RedirectEntry {
    pub source: String,
    pub destination: String,
    pub kind: u16,
}

/// The file's `advanced` section, each list optional.
#[derive(Debug)]
pub struct RawAdvanced {
    pub headers: Option<Vec<HeaderEntry>>,
    pub rewrites: Option<Vec<RewriteEntry>>,
    pub redirects: Option<Vec<RedirectEntry>>,
}

/// The status of a redirect response.
#[derive(Clone, Copy, Debug, PartialEq, Eq, Structural)]
pub enum RedirectKind {
    /// 301 Moved Permanently.
    MovedPermanently,
    /// 302 Found.
    Found,
}

/// Whether `code` is a redirect status that an entry may declare.
pub open spec fn valid_kind(code: u16) -> bool {
    code == 301 || code == 302
}

impl RedirectKind {
    pub open spec fn spec_code(self) -> u16 {
        match self {
            RedirectKind::MovedPermanently => 301,
            RedirectKind::Found => 302,
        }
    }

    /// The HTTP status code.
    pub fn code(&self) -> (r: u16)
        ensures
            r == self.spec_code(),
    {
        match self {
            RedirectKind::MovedPermanently => 301,
            RedirectKind::Found => 302,
        }
    }

    /// The kind with status code `code`, if there is one.
    pub fn from_code(code: u16) -> (r: Option<RedirectKind>)
        ensures
            r is Some <==> valid_kind(code),
            r is Some ==> r->0.spec_code() == code,
    {
        if code == 301 {
            Some(RedirectKind::MovedPermanently)
        } else if code == 302 {
            Some(RedirectKind::Found)
        } else {
            None
        }
    }
}

/// A compiled `headers` rule.
pub struct Headers {
    pub source: Matcher,
    pub headers: Vec<HeaderPair>,
}

/// A compiled `rewrites` rule.
pub struct Rewrites {
    pub source: Matcher,
    pub destination: String,
}

/// A compiled `redirects` rule.
pub struct Redirects {
    pub source: Matcher,
    pub destination: String,
    pub kind: RedirectKind,
}

/// The compiled rule lists, each in declaration order.
pub struct Advanced {
    pub headers: Option<Vec<Headers>>,
    pub rewrites: Option<Vec<Rewrites>>,
    pub redirects: Option<Vec<Redirects>>,
}

/// Whether `err` is the pattern failure of entry `i`, whose source is `source`.
pub open spec fn is_pattern_error(err: SettingsError, rule: RuleKind, i: int, source: Seq<char>) -> bool {
    &&& err is PatternCompile
    &&& err->PatternCompile_rule == rule
    &&& err->PatternCompile_index == i
    &&& err->PatternCompile_pattern@ == source
}

/// Whether a `headers` entry compiles.
pub open spec fn header_entry_ok(e: HeaderEntry) -> bool {
    glob_valid(e.source@)
}

/// Whether a `rewrites` entry compiles.
pub open spec fn rewrite_entry_ok(e: RewriteEntry) -> bool {
    glob_valid(e.source@)
}

/// Whether a `redirects` entry compiles.
pub open spec fn redirect_entry_ok(e: RedirectEntry) -> bool {
    glob_valid(e.source@) && valid_kind(e.kind)
}

/// Whether every `headers` entry compiles.
pub open spec fn headers_ok(e: Seq<HeaderEntry>) -> bool {
    forall|i: int| 0 <= i < e.len() ==> #[trigger] header_entry_ok(e[i])
}

/// Whether every `rewrites` entry compiles.
pub open spec fn rewrites_ok(e: Seq<RewriteEntry>) -> bool {
    forall|i: int| 0 <= i < e.len() ==> #[trigger] rewrite_entry_ok(e[i])
}

/// Whether every `redirects` entry compiles.
pub open spec fn redirects_ok(e: Seq<RedirectEntry>) -> bool {
    forall|i: int| 0 <= i < e.len() ==> #[trigger] redirect_entry_ok(e[i])
}

/// Whether `c` is the compiled form of the `headers` entries `e`, entry by entry.
pub open spec fn headers_compiled(c: Seq<Headers>, e: Seq<HeaderEntry>) -> bool {
    &&& c.len() == e.len()
    &&& forall|i: int| 0 <= i < c.len() ==> {
        &&& #[trigger] c[i].source@ == e[i].source@
        &&& same_pairs(c[i].headers@, e[i].headers@)
    }
}

/// Whether `c` is the compiled form of the `rewrites` entries `e`, entry by entry.
pub open spec fn rewrites_compiled(c: Seq<Rewrites>, e: Seq<RewriteEntry>) -> bool {
    &&& c.len() == e.len()
    &&& forall|i: int| 0 <= i < c.len() ==> {
        &&& #[trigger] c[i].source@ == e[i].source@
        &&& c[i].destination@ == e[i].destination@
    }
}

/// Whether `c` is the compiled form of the `redirects` entries `e`, entry by entry.
pub open spec fn redirects_compiled(c: Seq<Redirects>, e: Seq<RedirectEntry>) -> bool {
    &&& c.len() == e.len()
    &&& forall|i: int| 0 <= i < c.len() ==> #[trigger] compiled_redirect(c[i], e[i])
}

/// Whether `err` reports the first `headers` entry that does not compile.
pub open spec fn header_failure(e: Seq<HeaderEntry>, err: SettingsError) -> bool {
    exists|i: int| {
        &&& 0 <= i < e.len()
        &&& !#[trigger] header_entry_ok(e[i])
        &&& forall|j: int| 0 <= j < i ==> header_entry_ok(e[j])
        &&& is_pattern_error(err, RuleKind::Headers, i, e[i].source@)
    }
}

/// Whether `err` reports the first `rewrites` entry that does not compile.
pub open spec fn rewrite_failure(e: Seq<RewriteEntry>, err: SettingsError) -> bool {
    exists|i: int| {
        &&& 0 <= i < e.len()
        &&& !#[trigger] rewrite_entry_ok(e[i])
        &&& forall|j: int| 0 <= j < i ==> rewrite_entry_ok(e[j])
        &&& is_pattern_error(err, RuleKind::Rewrites, i, e[i].source@)
    }
}

/// Whether `err` reports the first `redirects` entry that does not compile:
/// its pattern if that fails, else its status code.
pub open spec fn redirect_failure(e: Seq<RedirectEntry>, err: SettingsError) -> bool {
    exists|i: int| {
        &&& 0 <= i < e.len()
        &&& !#[trigger] redirect_entry_ok(e[i])
        &&& forall|j: int| 0 <= j < i ==> redirect_entry_ok(e[j])
        &&& if glob_valid(e[i].source@) {
            err == (SettingsError::InvalidStatusCode { index: i as usize, code: e[i].kind })
        } else {
            is_pattern_error(err, RuleKind::Redirects, i, e[i].source@)
        }
    }
}

/// Whether a whole `advanced` section compiles.
pub open spec fn advanced_ok(raw: RawAdvanced) -> bool {
    &&& (raw.headers is Some ==> headers_ok(raw.headers->0@))
    &&& (raw.rewrites is Some ==> rewrites_ok(raw.rewrites->0@))
    &&& (raw.redirects is Some ==> redirects_ok(raw.redirects->0@))
}

/// Whether `c` is the compiled form of `raw`: each list present exactly when
/// it was declared, and compiled entry by entry.
pub open spec fn advanced_compiled(c: Advanced, raw: RawAdvanced) -> bool {
    &&& (c.headers is Some <==> raw.headers is Some)
    &&& (c.rewrites is Some <==> raw.rewrites is Some)
    &&& (c.redirects is Some <==> raw.redirects is Some)
    &&& (c.headers is Some ==> headers_compiled(c.headers->0@, raw.headers->0@))
    &&& (c.rewrites is Some ==> rewrites_compiled(c.rewrites->0@, raw.rewrites->0@))
    &&& (c.redirects is Some ==> redirects_compiled(c.redirects->0@, raw.redirects->0@))
}

/// Whether `err` reports the first failure of `raw`: the lists are compiled
/// headers first, then rewrites, then redirects.
pub open spec fn advanced_failure(raw: RawAdvanced, err: SettingsError) -> bool {
    if raw.headers is Some && !headers_ok(raw.headers->0@) {
        header_failure(raw.headers->0@, err)
    } else if raw.rewrites is Some && !rewrites_ok(raw.rewrites->0@) {
        rewrite_failure(raw.rewrites->0@, err)
    } else {
        raw.redirects is Some && redirect_failure(raw.redirects->0@, err)
    }
}

/// Compiles the `headers` entries, in order. The first entry whose pattern
/// does not compile fails the whole list.
pub fn compile_headers(entries: &Vec<HeaderEntry>) -> (r: Result<Vec<Headers>, SettingsError>)
    ensures
        r is Ok <==> headers_ok(entries@),
        r is Ok ==> headers_compiled(r->Ok_0@, entries@),
        r is Err ==> header_failure(entries@, r->Err_0),
{
    let mut out: Vec<Headers> = Vec::new();
    let mut i: usize = 0;
    while i < entries.len()
        invariant
            i <= entries@.len(),
            out@.len() == i,
            forall|j: int| 0 <= j < i ==> #[trigger] header_entry_ok(entries@[j]),
            forall|j: int| 0 <= j < i ==> {
                &&& #[trigger] out@[j].source@ == entries@[j].source@
                &&& same_pairs(out@[j].headers@, entries@[j].headers@)
            },
        decreases entries@.len() - i,
    {
        let e = &entries[i];
        match Matcher::compile(&e.source) {
            Ok(source) => {
                out.push(Headers { source, headers: copy_pairs(&e.headers) });
            },
            Err(_) => {
                let err = SettingsError::PatternCompile {
                    rule: RuleKind::Headers,
                    index: i,
                    pattern: e.source.clone(),
                };
                assert(!header_entry_ok(entries@[i as int]));
                return Err(err);
            },
        }
        i = i + 1;
    }
    Ok(out)
}

/// Compiles the `rewrites` entries, in order. The first entry whose pattern
/// does not compile fails the whole list.
pub fn compile_rewrites(entries: &Vec<RewriteEntry>) -> (r: Result<Vec<Rewrites>, SettingsError>)
    ensures
        r is Ok <==> rewrites_ok(entries@),
        r is Ok ==> rewrites_compiled(r->Ok_0@, entries@),
        r is Err ==> rewrite_failure(entries@, r->Err_0),
{
    let mut out: Vec<Rewrites> = Vec::new();
    let mut i: usize = 0;
    while i < entries.len()
        invariant
            i <= entries@.len(),
            out@.len() == i,
            forall|j: int| 0 <= j < i ==> #[trigger] rewrite_entry_ok(entries@[j]),
            forall|j: int| 0 <= j < i ==> {
                &&& #[trigger] out@[j].source@ == entries@[j].source@
                &&& out@[j].destination@ == entries@[j].destination@
            },
        decreases entries@.len() - i,
    {
        let e = &entries[i];
        match Matcher::compile(&e.source) {
            Ok(source) => {
                out.push(Rewrites { source, destination: e.destination.clone() });
            },
            Err(_) => {
                let err = SettingsError::PatternCompile {
                    rule: RuleKind::Rewrites,
                    index: i,
                    pattern: e.source.clone(),
                };
                assert(!rewrite_entry_ok(entries@[i as int]));
                return Err(err);
            },
        }
        i = i + 1;
    }
    Ok(out)
}

/// Whether `c` is the compiled form of redirect entry `e`.
pub open spec fn compiled_redirect(c: Redirects, e: RedirectEntry) -> bool {
    &&& c.source@ == e.source@
    &&& c.destination@ == e.destination@
    &&& c.kind.spec_code() == e.kind
}

/// Compiles the `redirects` entries, in order. The first entry whose pattern
/// does not compile, or whose status code is neither 301 nor 302, fails the
/// whole list; within one entry the pattern is checked first.
pub fn compile_redirects(entries: &Vec<RedirectEntry>) -> (r: Result<Vec<Redirects>, SettingsError>)
    ensures
        r is Ok <==> redirects_ok(entries@),
        r is Ok ==> redirects_compiled(r->Ok_0@, entries@),
        r is Err ==> redirect_failure(entries@, r->Err_0),
{
    let mut out: Vec<Redirects> = Vec::new();
    let mut i: usize = 0;
    while i < entries.len()
        invariant
            i <= entries@.len(),
            out@.len() == i,
            forall|j: int| 0 <= j < i ==> #[trigger] redirect_entry_ok(entries@[j]),
            forall|j: int| 0 <= j < i ==> #[trigger] compiled_redirect(out@[j], entries@[j]),
        decreases entries@.len() - i,
    {
        let e = &entries[i];
        match Matcher::compile(&e.source) {
            Ok(source) => {
                match RedirectKind::from_code(e.kind) {
                    Some(kind) => {
                        out.push(Redirects { source, destination: e.destination.clone(), kind });
                    },
                    None => {
                        assert(!redirect_entry_ok(entries@[i as int]));
                        return Err(SettingsError::InvalidStatusCode { index: i, code: e.kind });
                    },
                }
            },
            Err(_) => {
                let err = SettingsError::PatternCompile {
                    rule: RuleKind::Redirects,
                    index: i,
                    pattern: e.source.clone(),
                };
                assert(!redirect_entry_ok(entries@[i as int]));
                return Err(err);
            },
        }
        i = i + 1;
    }
    Ok(out)
}

/// Whether `r` is the index of the first pattern of `pats` that accepts
/// `path`, or `None` when no pattern accepts it.
pub open spec fn first_match(pats: Seq<Seq<char>>, path: Seq<char>, r: Option<usize>) -> bool {
    match r {
        Some(i) => {
            &&& i < pats.len()
            &&& glob_accepts(pats[i as int], path)
            &&& forall|j: int| 0 <= j < i ==> !glob_accepts(#[trigger] pats[j], path)
        },
        None => forall|j: int| 0 <= j < pats.len() ==> !glob_accepts(#[trigger] pats[j], path),
    }
}

pub open spec fn header_patterns(v: Seq<Headers>) -> Seq<Seq<char>> {
    v.map_values(|h: Headers| h.source@)
}

pub open spec fn rewrite_patterns(v: Seq<Rewrites>) -> Seq<Seq<char>> {
    v.map_values(|w: Rewrites| w.source@)
}

pub open spec fn redirect_patterns(v: Seq<Redirects>) -> Seq<Seq<char>> {
    v.map_values(|d: Redirects| d.source@)
}

/// The value of the last header called `name` in `pairs`.
pub open spec fn last_value(pairs: Seq<HeaderPair>, name: Seq<char>) -> Option<Seq<char>>
    decreases pairs.len(),
{
    if pairs.len() == 0 {
        None
    } else if pairs.last().name@ == name {
        Some(pairs.last().value@)
    } else {
        last_value(pairs.drop_last(), name)
    }
}

/// The value that header `name` gets on a response for `path`: every rule
/// that accepts the path contributes its headers, and a later rule overrides
/// an earlier one.
pub open spec fn applied_header(rules: Seq<Headers>, path: Seq<char>, name: Seq<char>) -> Option<Seq<char>>
    decreases rules.len(),
{
    if rules.len() == 0 {
        None
    } else {
        let h = rules.last();
        let own = if glob_accepts(h.source@, path) {
            last_value(h.headers@, name)
        } else {
            None
        };
        match own {
            Some(v) => Some(v),
            None => applied_header(rules.drop_last(), path, name),
        }
    }
}

/// The value of the last header called `name` in `pairs`.
fn find_last_value(pairs: &Vec<HeaderPair>, name: &String) -> (r: Option<String>)
    ensures
        match r {
            Some(v) => last_value(pairs@, name@) == Some(v@),
            None => last_value(pairs@, name@) is None,
        },
{
    let mut i: usize = pairs.len();
    assert(pairs@.subrange(0, i as int) =~= pairs@);
    while i > 0
        invariant
            i <= pairs@.len(),
            last_value(pairs@, name@) == last_value(pairs@.subrange(0, i as int), name@),
        decreases i,
    {
        let p = &pairs[i - 1];
        assert(pairs@.subrange(0, i as int).drop_last() =~= pairs@.subrange(0, i - 1));
        assert(pairs@.subrange(0, i as int).last() == pairs@[i - 1]);
        if p.name.eq(name) {
            return Some(p.value.clone());
        }
        i = i - 1;
    }
    None
}

/// Compiles a whole `advanced` section. Any entry that fails fails the whole
/// section: a partial rule set is never returned.
pub fn compile_advanced(raw: &RawAdvanced) -> (r: Result<Advanced, SettingsError>)
    ensures
        r is Ok <==> advanced_ok(*raw),
        r is Ok ==> advanced_compiled(r->Ok_0, *raw),
        r is Err ==> advanced_failure(*raw, r->Err_0),
{
    let headers = match raw.headers.as_ref() {
        Some(e) => match compile_headers(e) {
            Ok(c) => Some(c),
            Err(err) => return Err(err),
        },
        None => None,
    };
    let rewrites = match raw.rewrites.as_ref() {
        Some(e) => match compile_rewrites(e) {
            Ok(c) => Some(c),
            Err(err) => return Err(err),
        },
        None => None,
    };
    let redirects = match raw.redirects.as_ref() {
        Some(e) => match compile_redirects(e) {
            Ok(c) => Some(c),
            Err(err) => return Err(err),
        },
        None => None,
    };
    Ok(Advanced { headers, rewrites, redirects })
}

impl Advanced {
    /// The index of the first rewrite rule that accepts `path`: only that one
    /// applies.
    pub fn rewrite_for(&self, path: &str) -> (r: Option<usize>)
        ensures
            match self.rewrites {
                Some(v) => first_match(rewrite_patterns(v@), path@, r),
                None => r is None,
            },
    {
        match self.rewrites.as_ref() {
            None => None,
            Some(v) => {
                let mut i: usize = 0;
                while i < v.len()
                    invariant
                        i <= v@.len(),
                        forall|j: int| 0 <= j < i ==> !glob_accepts(#[trigger] rewrite_patterns(v@)[j], path@),
                        self.rewrites == Some(*v),
                    decreases v@.len() - i,
                {
                    assert(rewrite_patterns(v@)[i as int] == v@[i as int].source@);
                    if v[i].source.is_match(path) {
                        return Some(i);
                    }
                    i = i + 1;
                }
                None
            },
        }
    }

    /// The index of the first redirect rule that accepts `path`: only its
    /// destination and kind apply.
    pub fn redirect_for(&self, path: &str) -> (r: Option<usize>)
        ensures
            match self.redirects {
                Some(v) => first_match(redirect_patterns(v@), path@, r),
                None => r is None,
            },
    {
        match self.redirects.as_ref() {
            None => None,
            Some(v) => {
                let mut i: usize = 0;
                while i < v.len()
                    invariant
                        i <= v@.len(),
                        forall|j: int| 0 <= j < i ==> !glob_accepts(#[trigger] redirect_patterns(v@)[j], path@),
                        self.redirects == Some(*v),
                    decreases v@.len() - i,
                {
                    assert(redirect_patterns(v@)[i as int] == v@[i as int].source@);
                    if v[i].source.is_match(path) {
                        return Some(i);
                    }
                    i = i + 1;
                }
                None
            },
        }
    }

    /// The indexes of all header rules that accept `path`, in declaration
    /// order: each contributes its headers, later ones overriding earlier ones.
    pub fn headers_for(&self, path: &str) -> (r: Vec<usize>)
        ensures
            match self.headers {
                Some(v) => {
                    &&& forall|k: int| 0 <= k < r@.len() ==> #[trigger] r@[k] < v@.len()
                        && glob_accepts(header_patterns(v@)[r@[k] as int], path@)
                    &&& forall|k: int, l: int| 0 <= k < l < r@.len() ==> r@[k] < r@[l]
                    &&& forall|j: int| 0 <= j < v@.len() && glob_accepts(#[trigger] header_patterns(v@)[j], path@)
                        ==> r@.contains(j as usize)
                },
                None => r@.len() == 0,
            },
    {
        let mut r: Vec<usize> = Vec::new();
        match self.headers.as_ref() {
            None => {},
            Some(v) => {
                let mut i: usize = 0;
                while i < v.len()
                    invariant
                        i <= v@.len(),
                        forall|k: int| 0 <= k < r@.len() ==> #[trigger] r@[k] < i
                            && glob_accepts(header_patterns(v@)[r@[k] as int], path@),
                        forall|k: int, l: int| 0 <= k < l < r@.len() ==> r@[k] < r@[l],
                        forall|j: int| 0 <= j < i && glob_accepts(#[trigger] header_patterns(v@)[j], path@)
                            ==> r@.contains(j as usize),
                    decreases v@.len() - i,
                {
                    assert(header_patterns(v@)[i as int] == v@[i as int].source@);
                    let ghost prev = r@;
                    if v[i].source.is_match(path) {
                        r.push(i);
                        assert forall|j: int| 0 <= j <= i && glob_accepts(#[trigger] header_patterns(v@)[j], path@)
                            implies r@.contains(j as usize) by {
                            if j < i {
                                let k = choose|k: int| 0 <= k < prev.len() && prev[k] == j as usize;
                                assert(r@[k] == j as usize);
                            } else {
                                assert(r@[r@.len() - 1] == j as usize);
                            }
                        }
                    }
                    i = i + 1;
                }
            },
        }
        r
    }

    /// The value that header `name` gets on a response for `path`, if any.
    pub fn header_value(&self, path: &str, name: &String) -> (r: Option<String>)
        ensures
            match self.headers {
                Some(v) => match r {
                    Some(s) => applied_header(v@, path@, name@) == Some(s@),
                    None => applied_header(v@, path@, name@) is None,
                },
                None => r is None,
            },
    {
        match self.headers.as_ref() {
            None => None,
            Some(v) => {
                let mut i: usize = v.len();
                assert(v@.subrange(0, i as int) =~= v@);
                while i > 0
                    invariant
                        i <= v@.len(),
                        applied_header(v@, path@, name@) == applied_header(v@.subrange(0, i as int), path@, name@),
                        self.headers == Some(*v),
                    decreases i,
                {
                    let h = &v[i - 1];
                    assert(v@.subrange(0, i as int).drop_last() =~= v@.subrange(0, i - 1));
                    assert(v@.subrange(0, i as int).last() == v@[i - 1]);
                    if h.source.is_match(path) {
                        let found = find_last_value(&h.headers, name);
                        if found.is_some() {
                            assert(glob_accepts(v@.subrange(0, i as int).last().source@, path@));
                            assert(applied_header(v@.subrange(0, i as int), path@, name@) == Some(found->0@));
                            return found;
                        }
                    }
                    i = i - 1;
                }
                None
            },
        }
    }
}

/// Compiling one `advanced` section twice gives rule lists that accept
/// exactly the same paths, rule by rule.
pub proof fn lemma_compile_deterministic(raw: RawAdvanced, a: Advanced, b: Advanced)
    requires
        advanced_compiled(a, raw),
        advanced_compiled(b, raw),
    ensures
        a.headers is Some <==> b.headers is Some,
        a.rewrites is Some <==> b.rewrites is Some,
        a.redirects is Some <==> b.redirects is Some,
        a.headers is Some ==> a.headers->0@.len() == b.headers->0@.len(),
        a.rewrites is Some ==> a.rewrites->0@.len() == b.rewrites->0@.len(),
        a.redirects is Some ==> a.redirects->0@.len() == b.redirects->0@.len(),
        forall|i: int, path: Seq<char>| a.headers is Some && 0 <= i < a.headers->0@.len() ==>
            (#[trigger] glob_accepts(a.headers->0@[i].source@, path) <==> glob_accepts(b.headers->0@[i].source@, path)),
        forall|i: int, path: Seq<char>| a.rewrites is Some && 0 <= i < a.rewrites->0@.len() ==>
            (#[trigger] glob_accepts(a.rewrites->0@[i].source@, path) <==> glob_accepts(b.rewrites->0@[i].source@, path)),
        forall|i: int, path: Seq<char>| a.redirects is Some && 0 <= i < a.redirects->0@.len() ==>
            (#[trigger] glob_accepts(a.redirects->0@[i].source@, path) <==> glob_accepts(b.redirects->0@[i].source@, path)),
{
    assert forall|i: int, path: Seq<char>| a.redirects is Some && 0 <= i < a.redirects->0@.len() implies
        (#[trigger] glob_accepts(a.redirects->0@[i].source@, path) <==> glob_accepts(b.redirects->0@[i].source@, path)) by {
        assert(compiled_redirect(a.redirects->0@[i], raw.redirects->0@[i]));
        assert(compiled_redirect(b.redirects->0@[i], raw.redirects->0@[i]));
    }
}

} // verus!
