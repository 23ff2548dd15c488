//! Package arguments as users write them (`host/scope/name@spec`, aliases
//! `alias@pkg:...`, legacy names and directories), and their parser.
//!
//! The grammar is this crate's own: the spec functions below state it, and
//! the parser is proved to follow them. Versions and requirements inside a
//! spec are semver's, and hosts are found by the url crate.

use vstd::prelude::*;
use crate::host::{Host, HostView, host_of_url, opt_host_view, url_host};
use crate::text::{
    ascii_lower, chars_of, concat, eq_ignore_ascii_case, find_char, find_from, lemma_find_from,
    lemma_find_from_is, matches_ignore_case_at, substring,
};
use crate::version::{
    ComparatorView,
    Version,
    VersionReq,
    VersionView,
    semver_parse,
    semver_req_parse,
};

verus! {

/// The root cause of every package-arg failure; an `ArgError` says which
/// input failed and why.
#[derive(Debug, Clone, Copy, PartialEq, Eq)]
pub enum PackageArgError {
    ParseError,
}

impl PackageArgError {
    /// The message of the error, as its display.
    pub fn message(&self) -> (r: String)
        ensures
            r@ == "Failed to parse package arg."@,
    {
        "Failed to parse package arg.".to_owned()
    }
}

/// Why a package argument could not be read, with the input that failed.
#[derive(Debug, Clone, PartialEq, Eq)]
pub enum ArgError {
    /// The text has no name-and-spec shape.
    Invalid(String),
    /// A registry spec came without a name.
    SpecWithoutName(String),
    /// Neither a name nor a spec was given.
    Empty,
    /// The name is not a registry name (`host/scope/name`, or a legacy one).
    InvalidRegistry(String),
}

/// The value of an `ArgError`.
pub enum ArgErrorView {
    Invalid(Seq<char>),
    SpecWithoutName(Seq<char>),
    Empty,
    InvalidRegistry(Seq<char>),
}

impl View for ArgError {
    type V = ArgErrorView;

    open spec fn view(&self) -> ArgErrorView {
        match self {
            ArgError::Invalid(s) => ArgErrorView::Invalid(s@),
            ArgError::SpecWithoutName(s) => ArgErrorView::SpecWithoutName(s@),
            ArgError::Empty => ArgErrorView::Empty,
            ArgError::InvalidRegistry(s) => ArgErrorView::InvalidRegistry(s@),
        }
    }
}

/// The message of a package-arg failure.
pub open spec fn arg_error_message(e: ArgErrorView) -> Seq<char> {
    match e {
        ArgErrorView::Invalid(s) => "Invalid package arg: "@ + s,
        ArgErrorView::SpecWithoutName(s) => "Tried to resolve a registry spec ("@ + s
            + ") without a name."@,
        ArgErrorView::Empty => "Neither a name nor a spec were passed in. Failed to resolve."@,
        ArgErrorView::InvalidRegistry(s) => "Invalid registry arg string: `"@ + s + "`"@,
    }
}

impl ArgError {
    /// The message of the failure, as its display.
    pub fn message(&self) -> (r: String)
        ensures
            r@ == arg_error_message(self@),
    {
        match self {
            ArgError::Invalid(s) => concat("Invalid package arg: ", s),
            ArgError::SpecWithoutName(s) => {
                let mut r = concat("Tried to resolve a registry spec (", s);
                r.append(") without a name.");
                r
            },
            ArgError::Empty => "Neither a name nor a spec were passed in. Failed to resolve.".to_owned(),
            ArgError::InvalidRegistry(s) => {
                let mut r = concat("Invalid registry arg string: `", s);
                r.append("`");
                r
            },
        }
    }
}

/// The value of a `PackageArg`.
pub enum PackageArgView {
    Dir { name: Option<Seq<char>>, path: Seq<char> },
    Alias { name: Seq<char>, package: Box<PackageArgView> },
    Tag { host: Option<HostView>, name: Seq<char>, tag: Seq<char> },
    Version { host: Option<HostView>, name: Seq<char>, version: VersionView },
    Range { host: Option<HostView>, name: Seq<char>, range: Seq<ComparatorView> },
}

/// A parsed package argument.
#[derive(Debug, PartialEq, Eq)]
pub enum PackageArg {
    /// A directory on disk, optionally under a name.
    Dir { name: Option<String>, path: String },
    /// Another package argument under a new name.
    Alias { name: String, package: Box<PackageArg> },
    /// A registry package at a dist-tag.
    Tag { host: Option<Host>, name: String, tag: String },
    /// A registry package at an exact version.
    Version { host: Option<Host>, name: String, version: Version },
    /// A registry package within a version range.
    Range { host: Option<Host>, name: String, range: VersionReq },
}

/// The value of an optional string.
pub open spec fn opt_str_view(o: Option<String>) -> Option<Seq<char>> {
    match o {
        Some(s) => Some(s@),
        None => None,
    }
}

/// The value of a package argument.
pub open spec fn arg_view(a: PackageArg) -> PackageArgView
    decreases a,
{
    match a {
        PackageArg::Dir { name, path } => PackageArgView::Dir {
            name: opt_str_view(name),
            path: path@,
        },
        PackageArg::Alias { name, package } => PackageArgView::Alias {
            name: name@,
            package: Box::new(arg_view(*package)),
        },
        PackageArg::Tag { host, name, tag } => PackageArgView::Tag {
            host: opt_host_view(host),
            name: name@,
            tag: tag@,
        },
        PackageArg::Version { host, name, version } => PackageArgView::Version {
            host: opt_host_view(host),
            name: name@,
            version: version@,
        },
        PackageArg::Range { host, name, range } => PackageArgView::Range {
            host: opt_host_view(host),
            name: name@,
            range: range@,
        },
    }
}

impl View for PackageArg {
    type V = PackageArgView;

    open spec fn view(&self) -> PackageArgView {
        arg_view(*self)
    }
}

/// The value of a parse result.
pub open spec fn result_view(r: Result<PackageArg, ArgError>) -> Result<
    PackageArgView,
    ArgErrorView,
> {
    match r {
        Ok(a) => Ok(a@),
        Err(e) => Err(e@),
    }
}

// ---------------------------------------------------------------------
// The grammar.
// ---------------------------------------------------------------------

/// No line feed at or after `from`.
pub open spec fn no_newline_from(s: Seq<char>, from: int) -> bool {
    find_from(s, '\n', from) == s.len()
}

/// The argument names a legacy scoped package, `.../legacy/@scope/name`:
/// the first `@` comes right after a non-empty prefix ending in `/legacy/`
/// (any case), and at least one character other than `@` follows it.
pub open spec fn legacy_scoped(s: Seq<char>) -> bool {
    let p = find_from(s, '@', 0);
    &&& 9 <= p < s.len()
    &&& eq_ignore_ascii_case(s.subrange(p - 8, p), "/legacy/"@)
    &&& find_from(s, '@', p + 1) > p + 1
}

/// Splits an argument into its name and optional spec at the `@` that
/// ends the name: the first `@`, or for a legacy scoped name the second.
/// The name is never empty and a spec never holds a line feed; otherwise
/// there is no split.
pub open spec fn split_name_spec(s: Seq<char>) -> Option<(Seq<char>, Option<Seq<char>>)> {
    let p = find_from(s, '@', 0);
    let end = if legacy_scoped(s) {
        find_from(s, '@', p + 1)
    } else {
        p
    };
    if end == 0 {
        None
    } else if end == s.len() {
        Some((s, None))
    } else if no_newline_from(s, end + 1) {
        Some((s.subrange(0, end), Some(s.subrange(end + 1, s.len() as int))))
    } else {
        None
    }
}

/// `/` or `\`.
pub open spec fn is_separator(c: char) -> bool {
    c == '/' || c == '\\'
}

/// A drive letter: an ASCII letter, or one of the two other characters
/// that fold to one (U+017F and U+212A).
pub open spec fn is_drive_letter(c: char) -> bool {
    ||| 97 <= (c as u32) <= 122
    ||| 65 <= (c as u32) <= 90
    ||| (c as u32) == 0x17f
    ||| (c as u32) == 0x212a
}

/// The text names a file: it starts with a separator, with a drive letter,
/// `:` and a separator, with `.` and a separator, or with `file:` in any
/// case.
pub open spec fn is_file_path(s: Seq<char>) -> bool {
    ||| s.len() >= 1 && is_separator(s[0])
    ||| s.len() >= 3 && is_drive_letter(s[0]) && s[1] == ':' && is_separator(s[2])
    ||| s.len() >= 2 && s[0] == '.' && is_separator(s[1])
    ||| s.len() >= 5 && eq_ignore_ascii_case(s.subrange(0, 5), "file:"@)
}

/// The spec names an alias: it starts with `pkg:`.
pub open spec fn is_alias_spec(s: Seq<char>) -> bool {
    s.len() >= 4 && s[0] == 'p' && s[1] == 'k' && s[2] == 'g' && s[3] == ':'
}

/// Three non-empty `/`-separated segments: `host/scope/name`.
pub open spec fn plain_shape(n: Seq<char>) -> bool {
    let i = find_from(n, '/', 0);
    let j = find_from(n, '/', i + 1);
    &&& 0 < i
    &&& i + 1 < j
    &&& j + 1 < n.len()
    &&& find_from(n, '/', j + 1) == n.len()
}

/// `host/legacy/name` or `host/legacy/scope/name`, with `legacy` in any
/// case and every segment non-empty.
pub open spec fn legacy_shape(n: Seq<char>) -> bool {
    let i = find_from(n, '/', 0);
    let j = find_from(n, '/', i + 1);
    let k = find_from(n, '/', j + 1);
    &&& 0 < i < n.len()
    &&& j < n.len()
    &&& eq_ignore_ascii_case(n.subrange(i + 1, j), "legacy"@)
    &&& j + 1 < k
    &&& (k == n.len() || (k + 1 < n.len() && find_from(n, '/', k + 1) == n.len()))
}

/// A registry name split into its host (with the `/` that ends it) and the
/// package name after it.
pub open spec fn split_registry_name(n: Seq<char>) -> Option<(Seq<char>, Seq<char>)> {
    let i = find_from(n, '/', 0);
    if plain_shape(n) || legacy_shape(n) {
        Some((n.subrange(0, i + 1), n.subrange(i + 1, n.len() as int)))
    } else {
        None
    }
}

/// What a registry argument is: an exact version where semver parses the
/// spec as one, else a range where semver parses it as a requirement, else
/// a dist-tag. With no spec the tag is `latest`.
pub open spec fn spec_from_registry(name: Seq<char>, spec: Option<Seq<char>>) -> Result<
    PackageArgView,
    ArgErrorView,
> {
    match split_registry_name(name) {
        None => Err(ArgErrorView::InvalidRegistry(name)),
        Some((host_part, clean)) => {
            let host = url_host("https://"@ + host_part);
            let sp = match spec {
                Some(x) => x,
                None => "latest"@,
            };
            match semver_parse(sp) {
                Some(v) => Ok(PackageArgView::Version { host, name: clean, version: v }),
                None => match semver_req_parse(sp) {
                    Some(r) => Ok(PackageArgView::Range { host, name: clean, range: r }),
                    None => Ok(PackageArgView::Tag { host, name: clean, tag: sp }),
                },
            }
        },
    }
}

/// The length of an optional text (zero for none).
pub open spec fn opt_len(o: Option<Seq<char>>) -> nat {
    match o {
        Some(s) => s.len(),
        None => 0,
    }
}

/// What `PackageArg::from_string` gives for a text.
pub open spec fn spec_from_string(s: Seq<char>) -> Result<PackageArgView, ArgErrorView>
    decreases s.len(), 1int,
{
    match split_name_spec(s) {
        None => Err(ArgErrorView::Invalid(s)),
        Some((name, spec)) => {
            proof {
                lemma_split_shorter(s);
            }
            if is_file_path(name) {
                spec_resolve(None, Some(name))
            } else {
                spec_resolve(Some(name), spec)
            }
        },
    }
}

/// What `PackageArg::resolve` gives for a name and spec.
pub open spec fn spec_resolve(name: Option<Seq<char>>, spec: Option<Seq<char>>) -> Result<
    PackageArgView,
    ArgErrorView,
>
    decreases opt_len(spec), 0int,
{
    match spec {
        Some(sp) => {
            if is_file_path(sp) {
                Ok(PackageArgView::Dir { name, path: sp })
            } else if name is None {
                Err(ArgErrorView::SpecWithoutName(sp))
            } else if is_alias_spec(sp) {
                match spec_from_string(sp.subrange(4, sp.len() as int)) {
                    Ok(p) => Ok(PackageArgView::Alias { name: name.unwrap(), package: Box::new(p) }),
                    Err(e) => Err(e),
                }
            } else {
                spec_from_registry(name.unwrap(), Some(sp))
            }
        },
        None => match name {
            Some(n) => spec_from_registry(n, None),
            None => Err(ArgErrorView::Empty),
        },
    }
}

/// The name and spec of a split are no longer than the argument, and the
/// spec is shorter.
pub proof fn lemma_split_shorter(s: Seq<char>)
    ensures
        split_name_spec(s) matches Some((n, sp)) ==> n.len() <= s.len() && opt_len(sp) < s.len(),
{
    lemma_find_from(s, '@', 0);
    let p = find_from(s, '@', 0);
    if p < s.len() {
        lemma_find_from(s, '@', p + 1);
    }
}

/// A package argument is a registry one, directly or through aliases.
pub open spec fn spec_is_registry(a: PackageArgView) -> bool
    decreases a,
{
    match a {
        PackageArgView::Alias { package, .. } => spec_is_registry(*package),
        PackageArgView::Dir { .. } => false,
        _ => true,
    }
}

// ---------------------------------------------------------------------
// The parser.
// ---------------------------------------------------------------------

/// Splits an argument into name and spec as `split_name_spec` says.
fn split_arg(s: &str) -> (r: Option<(String, Option<String>)>)
    ensures
        match r {
            None => split_name_spec(s@) is None,
            Some((n, sp)) => split_name_spec(s@) == Some((n@, opt_str_view(sp))),
        },
{
    let cs = chars_of(s);
    let len = cs.len();
    let p = find_char(&cs, '@', 0);
    proof {
        lemma_find_from(s@, '@', 0);
        reveal_strlit("/legacy/");
    }
    let mut legacy = false;
    if 9 <= p && p < len {
        if matches_ignore_case_at(&cs, p - 8, "/legacy/") {
            let q = find_char(&cs, '@', p + 1);
            legacy = q > p + 1;
        }
    }
    assert(legacy == legacy_scoped(s@));
    let end = if legacy {
        find_char(&cs, '@', p + 1)
    } else {
        p
    };
    proof {
        if legacy {
            lemma_find_from(s@, '@', p + 1);
        }
    }
    if end == 0 {
        None
    } else if end == len {
        Some((s.to_owned(), None))
    } else {
        let nl = find_char(&cs, '\n', end + 1);
        if nl == len {
            let name = substring(s, 0, end);
            let spec = substring(s, end + 1, len);
            Some((name, Some(spec)))
        } else {
            None
        }
    }
}

/// Whether a text names a file, as `is_file_path` says.
fn is_file_text(s: &str) -> (r: bool)
    ensures
        r == is_file_path(s@),
{
    let cs = chars_of(s);
    let n = cs.len();
    proof {
        reveal_strlit("file:");
    }
    if n >= 1 && (cs[0] == '/' || cs[0] == '\\') {
        return true;
    }
    if n >= 3 && cs[1] == ':' && (cs[2] == '/' || cs[2] == '\\') {
        let c = cs[0] as u32;
        if (97 <= c && c <= 122) || (65 <= c && c <= 90) || c == 0x17f || c == 0x212a {
            return true;
        }
    }
    if n >= 2 && cs[0] == '.' && (cs[1] == '/' || cs[1] == '\\') {
        return true;
    }
    matches_ignore_case_at(&cs, 0, "file:")
}

/// Whether a spec names an alias, as `is_alias_spec` says.
fn is_alias_text(s: &str) -> (r: bool)
    ensures
        r == is_alias_spec(s@),
{
    let cs = chars_of(s);
    cs.len() >= 4 && cs[0] == 'p' && cs[1] == 'k' && cs[2] == 'g' && cs[3] == ':'
}

/// Splits a registry name into host and package name, as
/// `split_registry_name` says.
pub(crate) fn split_registry(name: &str) -> (r: Option<(String, String)>)
    ensures
        match r {
            None => split_registry_name(name@) is None,
            Some((h, n)) => split_registry_name(name@) == Some((h@, n@)),
        },
{
    let cs = chars_of(name);
    let len = cs.len();
    let i = find_char(&cs, '/', 0);
    proof {
        lemma_find_from(name@, '/', 0);
        reveal_strlit("legacy");
    }
    if i == 0 || i >= len {
        return None;
    }
    let j = find_char(&cs, '/', i + 1);
    proof {
        lemma_find_from(name@, '/', i + 1);
    }
    let plain = i + 1 < j && j < len && j + 1 < len && find_char(&cs, '/', j + 1) == len;
    let mut legacy = false;
    if !plain && j < len && j - i == 7 && matches_ignore_case_at(&cs, i + 1, "legacy") {
        let k = find_char(&cs, '/', j + 1);
        proof {
            lemma_find_from(name@, '/', j + 1);
        }
        legacy = j + 1 < k && (k == len || (k + 1 < len && find_char(&cs, '/', k + 1) == len));
    }
    proof {
        if !plain && j < len && j - i != 7 {
            assert(name@.subrange(i + 1, j as int).len() != "legacy"@.len());
        }
    }
    assert(plain == plain_shape(name@));
    assert(plain || legacy == legacy_shape(name@));
    if plain || legacy {
        let host = substring(name, 0, i + 1);
        let rest = substring(name, i + 1, len);
        Some((host, rest))
    } else {
        None
    }
}

/// Builds the registry argument that `spec_from_registry` describes.
fn from_registry(name: String, spec: Option<String>) -> (r: Result<PackageArg, ArgError>)
    ensures
        result_view(r) == spec_from_registry(name@, opt_str_view(spec)),
{
    let (host_part, clean_name) = match split_registry(&name) {
        Some(parts) => parts,
        None => {
            return Err(ArgError::InvalidRegistry(name));
        },
    };
    let url = concat("https://", &host_part);
    let host = host_of_url(&url);
    let spec_str = match spec {
        Some(x) => x,
        None => "latest".to_owned(),
    };
    match Version::parse(&spec_str) {
        Some(version) => Ok(PackageArg::Version { name: clean_name, version, host }),
        None => match VersionReq::parse(&spec_str) {
            Some(range) => Ok(PackageArg::Range { name: clean_name, range, host }),
            None => Ok(PackageArg::Tag { name: clean_name, tag: spec_str, host }),
        },
    }
}

/// A directory argument.
fn from_dir(name: Option<String>, spec: String) -> (r: Result<PackageArg, ArgError>)
    ensures
        result_view(r) == Ok::<PackageArgView, ArgErrorView>(
            PackageArgView::Dir { name: opt_str_view(name), path: spec@ },
        ),
{
    Ok(PackageArg::Dir { name, path: spec })
}

/// An alias: `name` for the argument that follows `pkg:` in the spec.
fn from_alias(name: String, spec: String) -> (r: Result<PackageArg, ArgError>)
    requires
        is_alias_spec(spec@),
    ensures
        result_view(r) == match spec_from_string(spec@.subrange(4, spec@.len() as int)) {
            Ok(p) => Ok(PackageArgView::Alias { name: name@, package: Box::new(p) }),
            Err(e) => Err(e),
        },
    decreases spec@.len(), 0int,
{
    let n = spec.unicode_len();
    let rest = substring(&spec, 4, n);
    match PackageArg::from_string(&rest) {
        Ok(package) => Ok(PackageArg::Alias { name, package: Box::new(package) }),
        Err(e) => Err(e),
    }
}

impl PackageArg {
    /// Parses a package argument: splits it into name and spec, then
    /// resolves them. A name that is a file path is resolved as a spec
    /// without a name.
    pub fn from_string(s: &str) -> (r: Result<PackageArg, ArgError>)
        ensures
            result_view(r) == spec_from_string(s@),
        decreases s@.len(), 2int,
    {
        proof {
            lemma_split_shorter(s@);
        }
        match split_arg(s) {
            None => Err(ArgError::Invalid(s.to_owned())),
            Some((name, spec)) => {
                if is_file_text(&name) {
                    Self::resolve(None, Some(name))
                } else {
                    Self::resolve(Some(name), spec)
                }
            },
        }
    }

    /// Resolves a name and spec: a file spec is a directory; a spec without
    /// a name fails; `pkg:` makes an alias; anything else names a registry
    /// package.
    pub fn resolve(name: Option<String>, spec: Option<String>) -> (r: Result<
        PackageArg,
        ArgError,
    >)
        ensures
            result_view(r) == spec_resolve(opt_str_view(name), opt_str_view(spec)),
        decreases opt_len(opt_str_view(spec)), 1int,
    {
        match spec {
            Some(sp) => {
                if is_file_text(&sp) {
                    from_dir(name, sp)
                } else {
                    match name {
                        None => Err(ArgError::SpecWithoutName(sp)),
                        Some(n) => {
                            if is_alias_text(&sp) {
                                from_alias(n, sp)
                            } else {
                                from_registry(n, Some(sp))
                            }
                        },
                    }
                }
            },
            None => match name {
                Some(n) => from_registry(n, None),
                None => Err(ArgError::Empty),
            },
        }
    }

    /// Accepts any name as it is.
    pub fn validate_name(name: &str) -> (r: Result<String, ArgError>)
        ensures
            r matches Ok(n) && n@ == name@,
    {
        Ok(name.to_owned())
    }

    /// Whether the argument names a registry package, directly or through
    /// aliases.
    pub fn is_registry(&self) -> (r: bool)
        ensures
            r == spec_is_registry(self@),
        decreases self,
    {
        match self {
            PackageArg::Alias { package, .. } => package.is_registry(),
            PackageArg::Dir { .. } => false,
            _ => true,
        }
    }
}

impl std::str::FromStr for PackageArg {
    type Err = ArgError;

    /// Parses as `PackageArg::from_string` does.
    fn from_str(s: &str) -> (r: Result<PackageArg, ArgError>)
        ensures
            result_view(r) == spec_from_string(s@),
    {
        PackageArg::from_string(s)
    }
}

// ---------------------------------------------------------------------
// Laws of parsing.
// ---------------------------------------------------------------------

/// `s` has no `@`.
pub open spec fn no_at(s: Seq<char>) -> bool {
    forall|k: int| 0 <= k < s.len() ==> s[k] != '@'
}

/// A bare argument (no `@`) that is not a file path names a registry
/// package at its default tag.
pub proof fn lemma_bare_name_is_registry(s: Seq<char>)
    requires
        s.len() > 0,
        no_at(s),
        !is_file_path(s),
    ensures
        spec_from_string(s) == spec_from_registry(s, None),
{
    lemma_find_from_is(s, '@', 0, s.len() as int);
}

/// A bare argument (no `@`) that is a file path names that directory.
pub proof fn lemma_bare_file_path_is_dir(s: Seq<char>)
    requires
        s.len() > 0,
        no_at(s),
        is_file_path(s),
    ensures
        spec_from_string(s) == Ok::<PackageArgView, ArgErrorView>(
            PackageArgView::Dir { name: None, path: s },
        ),
{
    lemma_find_from_is(s, '@', 0, s.len() as int);
}

/// A Windows path, an ASCII letter of either case, `:` and `/` or `\`
/// followed by anything, is a file path; without an `@` in it, the
/// argument is that directory, unnamed.
pub proof fn lemma_drive_letter_path(c: char, sep: char, rest: Seq<char>)
    requires
        ('a' <= c && c <= 'z') || ('A' <= c && c <= 'Z'),
        sep == '/' || sep == '\\',
    ensures
        is_file_path(seq![c, ':', sep] + rest),
        no_at(seq![c, ':', sep] + rest) ==> spec_from_string(seq![c, ':', sep] + rest) == Ok::<
            PackageArgView,
            ArgErrorView,
        >(PackageArgView::Dir { name: None, path: seq![c, ':', sep] + rest }),
{
    let s = seq![c, ':', sep] + rest;
    assert(s[0] == c && s[1] == ':' && s[2] == sep);
    if no_at(s) {
        lemma_bare_file_path_is_dir(s);
    }
}

/// `name@pkg:rest` is the argument `rest` under the alias `name`, for a
/// name that has no `@`, is not a file path and does not end in
/// `/legacy/`, and a `rest` without line feeds.
pub proof fn lemma_alias(name: Seq<char>, rest: Seq<char>)
    requires
        name.len() > 0,
        no_at(name),
        !is_file_path(name),
        !(name.len() >= 8 && eq_ignore_ascii_case(
            name.subrange(name.len() - 8, name.len() as int),
            "/legacy/"@,
        )),
        find_from(rest, '\n', 0) == rest.len(),
    ensures
        spec_from_string(name + seq!['@', 'p', 'k', 'g', ':'] + rest) == match spec_from_string(
            rest,
        ) {
            Ok(a) => Ok(PackageArgView::Alias { name, package: Box::new(a) }),
            Err(e) => Err(e),
        },
{
    let s = name + seq!['@', 'p', 'k', 'g', ':'] + rest;
    let p = name.len() as int;
    let spec = seq!['p', 'k', 'g', ':'] + rest;
    assert(s[p] == '@');
    lemma_find_from_is(s, '@', 0, p);
    assert(s.subrange(0, p) =~= name);
    assert(s.subrange(p + 1, s.len() as int) =~= spec);
    if p >= 9 {
        assert(s.subrange(p - 8, p) =~= name.subrange(name.len() - 8, name.len() as int));
    }
    assert(!legacy_scoped(s));
    lemma_find_from(rest, '\n', 0);
    assert forall|k: int| p + 1 <= k < s.len() implies s[k] != '\n' by {
        if k >= p + 5 {
            assert(s[k] == rest[k - p - 5]);
        }
    }
    lemma_find_from_is(s, '\n', p + 1, s.len() as int);
    assert(spec.subrange(4, spec.len() as int) =~= rest);
    reveal_strlit("file:");
    assert(!eq_ignore_ascii_case(spec.subrange(0, 5), "file:"@) || spec.len() < 5) by {
        if spec.len() >= 5 {
            assert(ascii_lower(spec.subrange(0, 5)[0]) != ascii_lower("file:"@[0]));
        }
    }
}

} // verus!
