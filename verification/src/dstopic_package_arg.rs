//! The package arguments of `dstopic`: `[host/]scope/name[@spec]`,
//! legacy names `host/legacy/[scope/]name`, and aliases `alias@pkg:...`.
//! The spec is everything after the first `@`.

use vstd::prelude::*;
use crate::host::{Host, host_of_url, opt_host_view, url_host};
use crate::package_arg::{
    ArgError,
    ArgErrorView,
    PackageArgView,
    is_alias_spec,
    opt_len,
    opt_str_view,
    split_registry,
    split_registry_name,
};
use crate::text::{chars_of, concat, find_char, find_from, lemma_find_from, substring};
use crate::version::{Version, VersionReq, VersionView, semver_parse, semver_req_parse};

verus! {

/// A parsed `dstopic` package argument.
#[derive(Debug, PartialEq, Eq)]
pub enum PackageArg {
    /// Another package argument under a new name.
    Alias { name: String, package: Box<PackageArg> },
    /// A registry package at a dist-tag.
    Tag { host: Option<Host>, name: String, tag: String },
    /// A registry package at an exact version.
    Version { host: Option<Host>, name: String, version: Version },
    /// A registry package within a version range.
    Range { host: Option<Host>, name: String, range: VersionReq },
}

/// The value of a `dstopic` package argument.
pub open spec fn arg_view(a: PackageArg) -> PackageArgView
    decreases a,
{
    match a {
        PackageArg::Alias { name, package } => PackageArgView::Alias {
            name: name@,
            package: Box::new(arg_view(*package)),
        },
        PackageArg::Tag { host, name, tag } => PackageArgView::Tag {
            host: opt_host_view(host),
            name: name@,
            tag: tag@,
        },
        PackageArg::Version { host, name, version } => PackageArgView::Version {
            host: opt_host_view(host),
            name: name@,
            version: version@,
        },
        PackageArg::Range { host, name, range } => PackageArgView::Range {
            host: opt_host_view(host),
            name: name@,
            range: range@,
        },
    }
}

impl View for PackageArg {
    type V = PackageArgView;

    open spec fn view(&self) -> PackageArgView {
        arg_view(*self)
    }
}

/// The value of a parse result.
pub open spec fn result_view(r: Result<PackageArg, ArgError>) -> Result<
    PackageArgView,
    ArgErrorView,
> {
    match r {
        Ok(a) => Ok(a@),
        Err(e) => Err(e@),
    }
}

/// Splits at the first `@`: the name before it, and the spec after it if
/// there is one.
pub open spec fn split_at_first_at(s: Seq<char>) -> (Seq<char>, Option<Seq<char>>) {
    let p = find_from(s, '@', 0);
    if p < s.len() {
        (s.subrange(0, p), Some(s.subrange(p + 1, s.len() as int)))
    } else {
        (s, None)
    }
}

/// Two non-empty `/`-separated segments: `scope/name`, with no host.
pub open spec fn hostless_shape(n: Seq<char>) -> bool {
    let i = find_from(n, '/', 0);
    &&& 0 < i
    &&& i + 1 < n.len()
    &&& find_from(n, '/', i + 1) == n.len()
}

/// A registry name split into its optional host (without the `/` that
/// ends it) and the package name.
pub open spec fn split_dstopic_name(n: Seq<char>) -> Option<(Option<Seq<char>>, Seq<char>)> {
    if hostless_shape(n) {
        Some((None, n))
    } else {
        match split_registry_name(n) {
            Some((h, rest)) => Some((Some(h.subrange(0, h.len() - 1)), rest)),
            None => None,
        }
    }
}

/// What a registry argument is: an exact version where semver parses the
/// spec as one, else a range where semver parses it as a requirement, else
/// a dist-tag (`latest` when there is no spec).
pub open spec fn spec_from_registry(name: Seq<char>, spec: Option<Seq<char>>) -> Result<
    PackageArgView,
    ArgErrorView,
> {
    match split_dstopic_name(name) {
        None => Err(ArgErrorView::InvalidRegistry(name)),
        Some((host_part, clean)) => {
            let host = match host_part {
                Some(h) => url_host("https://"@ + h),
                None => None,
            };
            let sp = match spec {
                Some(x) => x,
                None => "latest"@,
            };
            match semver_parse(sp) {
                Some(v) => Ok(PackageArgView::Version { host, name: clean, version: v }),
                None => match semver_req_parse(sp) {
                    Some(r) => Ok(PackageArgView::Range { host, name: clean, range: r }),
                    None => Ok(PackageArgView::Tag { host, name: clean, tag: sp }),
                },
            }
        },
    }
}

/// What `PackageArg::from_string` gives for a text.
pub open spec fn spec_from_string(s: Seq<char>) -> Result<PackageArgView, ArgErrorView>
    decreases s.len(), 1int,
{
    let (name, spec) = split_at_first_at(s);
    proof {
        lemma_find_from(s, '@', 0);
    }
    spec_resolve(name, spec)
}

/// What `PackageArg::resolve` gives: an alias for a `pkg:` spec, else a
/// registry argument.
pub open spec fn spec_resolve(name: Seq<char>, spec: Option<Seq<char>>) -> Result<
    PackageArgView,
    ArgErrorView,
>
    decreases opt_len(spec), 0int,
{
    match spec {
        Some(sp) => if is_alias_spec(sp) {
            match spec_from_string(sp.subrange(4, sp.len() as int)) {
                Ok(p) => Ok(PackageArgView::Alias { name, package: Box::new(p) }),
                Err(e) => Err(e),
            }
        } else {
            spec_from_registry(name, Some(sp))
        },
        None => spec_from_registry(name, None),
    }
}

/// Splits a registry name as `split_dstopic_name` says.
fn split_name(name: &str) -> (r: Option<(Option<String>, String)>)
    ensures
        match r {
            None => split_dstopic_name(name@) is None,
            Some((h, n)) => split_dstopic_name(name@) == Some((opt_str_view(h), n@)),
        },
{
    let cs = chars_of(name);
    let len = cs.len();
    let i = find_char(&cs, '/', 0);
    proof {
        lemma_find_from(name@, '/', 0);
    }
    if 0 < i && i < len && i + 1 < len && find_char(&cs, '/', i + 1) == len {
        return Some((None, name.to_owned()));
    }
    match split_registry(name) {
        Some((h, rest)) => {
            let hl = h.unicode_len();
            let host = substring(&h, 0, hl - 1);
            Some((Some(host), rest))
        },
        None => None,
    }
}

/// Builds the registry argument that `spec_from_registry` describes.
fn from_registry(name: String, spec: Option<String>) -> (r: Result<PackageArg, ArgError>)
    ensures
        result_view(r) == spec_from_registry(name@, opt_str_view(spec)),
{
    let (host_part, clean_name) = match split_name(&name) {
        Some(parts) => parts,
        None => {
            return Err(ArgError::InvalidRegistry(name));
        },
    };
    let host = match host_part {
        Some(h) => {
            let url = concat("https://", &h);
            host_of_url(&url)
        },
        None => None,
    };
    let spec_str = match spec {
        Some(x) => x,
        None => "latest".to_owned(),
    };
    match Version::parse(&spec_str) {
        Some(version) => Ok(PackageArg::Version { name: clean_name, version, host }),
        None => match VersionReq::parse(&spec_str) {
            Some(range) => Ok(PackageArg::Range { name: clean_name, range, host }),
            None => Ok(PackageArg::Tag { name: clean_name, tag: spec_str, host }),
        },
    }
}

/// An alias: `name` for the argument that follows `pkg:` in the spec.
fn from_alias(name: String, spec: String) -> (r: Result<PackageArg, ArgError>)
    requires
        is_alias_spec(spec@),
    ensures
        result_view(r) == match spec_from_string(spec@.subrange(4, spec@.len() as int)) {
            Ok(p) => Ok(PackageArgView::Alias { name: name@, package: Box::new(p) }),
            Err(e) => Err(e),
        },
    decreases spec@.len(), 0int,
{
    let n = spec.unicode_len();
    let rest = substring(&spec, 4, n);
    match PackageArg::from_string(&rest) {
        Ok(package) => Ok(PackageArg::Alias { name, package: Box::new(package) }),
        Err(e) => Err(e),
    }
}

impl PackageArg {
    /// Parses a package argument: the name is what comes before the first
    /// `@`, the spec what comes after it.
    pub fn from_string(s: &str) -> (r: Result<PackageArg, ArgError>)
        ensures
            result_view(r) == spec_from_string(s@),
        decreases s@.len(), 2int,
    {
        let cs = chars_of(s);
        let len = cs.len();
        let p = find_char(&cs, '@', 0);
        proof {
            lemma_find_from(s@, '@', 0);
        }
        if p < len {
            let name = substring(s, 0, p);
            let spec = substring(s, p + 1, len);
            Self::resolve(name, Some(spec))
        } else {
            Self::resolve(s.to_owned(), None)
        }
    }

    /// Resolves a name and spec: a `pkg:` spec makes an alias, anything
    /// else names a registry package.
    pub fn resolve(name: String, spec: Option<String>) -> (r: Result<PackageArg, ArgError>)
        ensures
            result_view(r) == spec_resolve(name@, opt_str_view(spec)),
        decreases opt_len(opt_str_view(spec)), 1int,
    {
        match spec {
            Some(sp) => {
                let cs = chars_of(&sp);
                if cs.len() >= 4 && cs[0] == 'p' && cs[1] == 'k' && cs[2] == 'g' && cs[3] == ':' {
                    from_alias(name, sp)
                } else {
                    from_registry(name, Some(sp))
                }
            },
            None => from_registry(name, None),
        }
    }

    /// Accepts any name as it is.
    pub fn validate_name(name: &str) -> (r: Result<String, ArgError>)
        ensures
            r matches Ok(n) && n@ == name@,
    {
        Ok(name.to_owned())
    }

    /// Whether the argument names a registry package; every `dstopic`
    /// argument does, directly or through aliases.
    pub fn is_registry(&self) -> (r: bool)
        ensures
            r,
        decreases self,
    {
        match self {
            PackageArg::Alias { package, .. } => package.is_registry(),
            _ => true,
        }
    }
}

/// A spec that semver parses as a version makes an exact-version argument
/// with that version, for every registry name that splits, with a host or
/// without one; the name is the package name the split gives.
pub proof fn lemma_exact_version(name: Seq<char>, spec: Seq<char>, v: VersionView)
    requires
        split_dstopic_name(name) is Some,
        semver_parse(spec) == Some(v),
    ensures
        spec_from_registry(name, Some(spec)) matches Ok(PackageArgView::Version { name: n, version, .. })
            && version == v && n == split_dstopic_name(name).unwrap().1,
        !is_alias_spec(spec) ==> spec_resolve(name, Some(spec)) == spec_from_registry(
            name,
            Some(spec),
        ),
{
}

} // verus!
