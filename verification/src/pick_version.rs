//! Choosing the version of a package that a package argument asks for, and
//! the integrity recorded for it.

use vstd::prelude::*;
use crate::host::HostView;
use crate::package_arg::{PackageArg, PackageArgView, spec_is_registry};
use crate::packument::{clone_integrity, EntropicPackument, PackumentView, VersionMap};
use crate::version::{
    ComparatorView,
    Version,
    VersionReq,
    VersionView,
    semver_matches,
    semver_req_parse,
    version_order,
};

verus! {

/// Chooses versions, falling back on a default dist-tag.
pub struct Picker {
    pub default_tag: String,
}

/// Why no version could be picked.
#[derive(Debug, Clone, Copy, PartialEq, Eq, Structural)]
pub enum PickerError {
    /// No matching version.
    NoVersion,
    /// Only version, tag, range and alias package args are supported.
    InvalidPackageArg,
}

impl PickerError {
    /// The message of the error, as its display.
    pub fn message(&self) -> (r: String)
        ensures
            r@ == match self {
                PickerError::NoVersion => "No matching version."@,
                PickerError::InvalidPackageArg => "Only Version, Tag, Range, and Alias package args are supported."@,
            },
    {
        match self {
            PickerError::NoVersion => "No matching version.".to_owned(),
            PickerError::InvalidPackageArg => "Only Version, Tag, Range, and Alias package args are supported.".to_owned(),
        }
    }
}

/// The argument that an alias stands for, through any number of aliases.
pub open spec fn unalias(w: PackageArgView) -> PackageArgView
    decreases w,
{
    match w {
        PackageArgView::Alias { package, .. } => unalias(*package),
        _ => w,
    }
}

/// The version a tag points at, if any.
pub open spec fn tag_lookup(tags: Map<Seq<char>, VersionView>, t: Seq<char>) -> Option<VersionView> {
    if tags.dom().contains(t) {
        Some(tags[t])
    } else {
        None
    }
}

/// `b` is the greatest version of the map that the range accepts.
pub open spec fn is_max_satisfying(
    versions: Map<VersionView, ssri::Integrity>,
    range: Seq<ComparatorView>,
    b: VersionView,
) -> bool {
    &&& versions.dom().contains(b)
    &&& semver_matches(range, b)
    &&& forall|k: VersionView|
        #![trigger versions.dom().contains(k)]
        versions.dom().contains(k) && semver_matches(range, k) && k != b ==> version_order(k, b) < 0
}

/// `m` is the greatest version that the range accepts, or `None` where it
/// accepts none.
pub open spec fn max_satisfying_spec(
    versions: Map<VersionView, ssri::Integrity>,
    range: Seq<ComparatorView>,
    m: Option<VersionView>,
) -> bool {
    match m {
        Some(b) => is_max_satisfying(versions, range, b),
        None => forall|k: VersionView| #[trigger] versions.dom().contains(k) ==> !semver_matches(range, k),
    }
}

/// The greatest accepted version among the first `n` entries of the map,
/// as a scan in entry order finds it: each accepted version replaces the
/// one found so far unless that one is greater.
pub open spec fn scan_max(vm: VersionMap, range: Seq<ComparatorView>, n: int) -> Option<VersionView>
    decreases n,
{
    if n <= 0 {
        None
    } else {
        let found = scan_max(vm, range, n - 1);
        let v = vm.key(n - 1);
        if semver_matches(range, v) {
            match found {
                Some(b) => if version_order(b, v) <= 0 {
                    Some(v)
                } else {
                    Some(b)
                },
                None => Some(v),
            }
        } else {
            found
        }
    }
}

/// The greatest version of the map that the range accepts, as the scan
/// over all its entries finds it.
pub open spec fn greatest_accepted(vm: VersionMap, range: Seq<ComparatorView>) -> Option<VersionView> {
    scan_max(vm, range, vm.size() as int)
}

/// What picking `wanted` from the packument gives, with the greatest
/// accepted version that the scan finds.
pub open spec fn pick_result(default_tag: Seq<char>, p: EntropicPackument, wanted: PackageArgView) -> Result<
    ssri::Integrity,
    PickerError,
> {
    spec_pick(default_tag, p@, wanted, greatest_accepted(p.versions, range_of(unalias(wanted))))
}

/// The range asks for any version: it has no comparators, or it is what
/// semver parses `*` to.
pub open spec fn is_star(range: Seq<ComparatorView>) -> bool {
    range.len() == 0 || semver_req_parse("*"@) == Some(range)
}

/// The range of a range argument (empty for any other).
pub open spec fn range_of(w: PackageArgView) -> Seq<ComparatorView> {
    match w {
        PackageArgView::Range { range, .. } => range,
        _ => Seq::empty(),
    }
}

/// For a range: the default tag's version, where the packument has it and
/// the range accepts it.
pub open spec fn default_tag_fits(default_tag: Seq<char>, p: PackumentView, w: PackageArgView) -> bool {
    &&& w is Range
    &&& tag_lookup(p.tags, default_tag) matches Some(t)
    &&& p.versions.dom().contains(t)
    &&& semver_matches(range_of(w), t)
}

/// The version a (non-alias) argument targets: the exact version; the
/// version its tag points at; for a range, the default tag's version where
/// it fits, else the greatest version the range accepts (`m`), else for a
/// range that asks for any version the default tag's version.
pub open spec fn pick_target(
    default_tag: Seq<char>,
    p: PackumentView,
    w: PackageArgView,
    m: Option<VersionView>,
) -> Option<VersionView> {
    match w {
        PackageArgView::Version { version, .. } => Some(version),
        PackageArgView::Tag { tag, .. } => tag_lookup(p.tags, tag),
        PackageArgView::Range { range, .. } => {
            if default_tag_fits(default_tag, p, w) {
                tag_lookup(p.tags, default_tag)
            } else if m is Some {
                m
            } else if is_star(range) {
                tag_lookup(p.tags, default_tag)
            } else {
                None
            }
        },
        _ => None,
    }
}

/// Picking needs the greatest accepted version: the argument is a range
/// (through aliases), the packument has versions, and the default tag
/// does not fit.
pub open spec fn needs_max(default_tag: Seq<char>, p: PackumentView, wanted: PackageArgView) -> bool {
    &&& p.versions.dom() != Set::<VersionView>::empty()
    &&& unalias(wanted) is Range
    &&& !default_tag_fits(default_tag, p, unalias(wanted))
}

/// What picking gives, where `m` is the greatest version the range accepts:
/// no versions at all, or a directory argument, is an error; otherwise the
/// integrity of the targeted version, where the packument has it.
pub open spec fn spec_pick(
    default_tag: Seq<char>,
    p: PackumentView,
    wanted: PackageArgView,
    m: Option<VersionView>,
) -> Result<ssri::Integrity, PickerError> {
    if p.versions.dom() == Set::<VersionView>::empty() {
        Err(PickerError::NoVersion)
    } else if unalias(wanted) is Dir {
        Err(PickerError::InvalidPackageArg)
    } else {
        match pick_target(default_tag, p, unalias(wanted), m) {
            Some(t) => if p.versions.dom().contains(t) {
                Ok(p.versions[t])
            } else {
                Err(PickerError::NoVersion)
            },
            None => Err(PickerError::NoVersion),
        }
    }
}

/// The value of an optional version.
pub open spec fn opt_version_view(o: Option<Version>) -> Option<VersionView> {
    match o {
        Some(v) => Some(v@),
        None => None,
    }
}

/// The greatest version in the map that the range accepts.
fn max_satisfying(versions: &VersionMap, range: &VersionReq) -> (r: Option<Version>)
    ensures
        opt_version_view(r) == greatest_accepted(*versions, range@),
        max_satisfying_spec(versions@, range@, opt_version_view(r)),
{
    let mut best: Option<Version> = None;
    let ghost mut best_idx: int = 0;
    let n = versions.len();
    let mut i: usize = 0;
    while i < n
        invariant
            n == versions.size(),
            i <= n,
            opt_version_view(best) == scan_max(*versions, range@, i as int),
            best matches Some(b) ==> {
                &&& 0 <= best_idx < i
                &&& b@ == versions.key(best_idx)
                &&& semver_matches(range@, b@)
                &&& forall|j: int|
                    0 <= j < i && semver_matches(range@, #[trigger] versions.key(j)) && versions.key(j)
                        != b@ ==> version_order(versions.key(j), b@) < 0
            },
            best is None ==> forall|j: int| 0 <= j < i ==> !semver_matches(range@, #[trigger] versions.key(j)),
        decreases n - i,
    {
        let v = versions.key_at(i);
        if range.matches(v) {
            match &best {
                None => {
                    best = Some(v.clone());
                    proof {
                        best_idx = i as int;
                    }
                },
                Some(b) => {
                    let o = b.order(v);
                    assert(versions.key(best_idx) != versions.key(i as int));
                    if o <= 0 {
                        best = Some(v.clone());
                        proof {
                            best_idx = i as int;
                        }
                    }
                },
            }
        }
        i = i + 1;
    }
    let ghost bv = opt_version_view(best);
    proof {
        versions.lemma_entries();
        match bv {
            Some(b) => {
                assert(versions@.dom().contains(versions.key(best_idx)));
                assert forall|k: VersionView|
                    #![trigger versions@.dom().contains(k)]
                    versions@.dom().contains(k) && semver_matches(range@, k) && k != b implies version_order(
                    k,
                    b,
                ) < 0 by {
                    let j = choose|j: int| 0 <= j < versions.size() && #[trigger] versions.key(j) == k;
                }
            },
            None => {
                assert forall|k: VersionView| #[trigger] versions@.dom().contains(k) implies !semver_matches(
                    range@,
                    k,
                ) by {
                    let j = choose|j: int| 0 <= j < versions.size() && #[trigger] versions.key(j) == k;
                }
            },
        }
    }
    best
}

/// Whether a range asks for any version: no comparators, or the same
/// comparators that semver parses `*` to.
fn range_is_star(range: &VersionReq) -> (r: bool)
    ensures
        r == is_star(range@),
{
    if range.is_empty() {
        return true;
    }
    match VersionReq::parse("*") {
        Some(star) => range.same(&star),
        None => false,
    }
}

impl Default for Picker {
    /// A picker whose default tag is `latest`.
    fn default() -> (r: Self)
        ensures
            r.default_tag@ == "latest"@,
    {
        Picker { default_tag: "latest".to_owned() }
    }
}

/// A failed pick: the kind of failure and the context that explains it.
#[derive(Debug, Clone, PartialEq, Eq)]
pub struct PickFailure {
    pub error: PickerError,
    pub context: String,
}

impl PickFailure {
    /// The message of the failure, as its display: the context.
    pub fn message(&self) -> (r: String)
        ensures
            r@ == self.context@,
    {
        self.context.clone()
    }
}

/// How Rust's derived `Debug` writes a package argument.
pub uninterp spec fn package_arg_debug(a: PackageArgView) -> Seq<char>;

/// Writes a package argument as its derived `Debug` does. Claims that the
/// result is what `package_arg_debug` names for the argument's value.
#[verifier::external_body]
fn debug_package_arg(a: &PackageArg) -> (r: String)
    ensures
        r@ == package_arg_debug(a@),
{
    format!("{:?}", a)
}

/// The argument that an alias stands for, through any number of aliases.
fn unaliased(wanted: &PackageArg) -> (r: &PackageArg)
    ensures
        r@ == unalias(wanted@),
    decreases wanted,
{
    match wanted {
        PackageArg::Alias { package, .. } => unaliased(package),
        _ => wanted,
    }
}

/// The context of a failed pick: an empty packument is named; otherwise
/// the argument (through aliases) that was of the wrong kind or that no
/// version matched is shown as `Debug` writes it.
pub open spec fn pick_context(p: PackumentView, wanted: PackageArgView, error: PickerError) -> Seq<char> {
    if p.versions.dom() == Set::<VersionView>::empty() {
        "No versions were present in the packument for "@ + p.name
    } else {
        match error {
            PickerError::InvalidPackageArg => "Received an unexpected PackageArg type: "@
                + package_arg_debug(unalias(wanted)),
            PickerError::NoVersion => "No versions could be found because "@ + package_arg_debug(
                unalias(wanted),
            ) + " did not match any existing versions"@,
        }
    }
}

impl Picker {
    /// A picker whose default tag is `latest`.
    pub fn new() -> (r: Self)
        ensures
            r.default_tag@ == "latest"@,
    {
        Picker { default_tag: "latest".to_owned() }
    }

    /// The same picker with another default tag.
    pub fn default_tag(self, tag: String) -> (r: Self)
        ensures
            r.default_tag@ == tag@,
    {
        let mut p = self;
        p.default_tag = tag;
        p
    }

    /// Picks the integrity of the version that `wanted` asks for; an error
    /// says only which kind of failure it was.
    fn pick_kind(&self, packument: &EntropicPackument, wanted: &PackageArg) -> (r: Result<
        ssri::Integrity,
        PickerError,
    >)
        ensures
            r == pick_result(self.default_tag@, *packument, wanted@),
            needs_max(self.default_tag@, packument@, wanted@) ==> max_satisfying_spec(
                packument@.versions,
                range_of(unalias(wanted@)),
                greatest_accepted(packument.versions, range_of(unalias(wanted@))),
            ),
        decreases wanted,
    {
        if packument.versions.is_empty() {
            return Err(PickerError::NoVersion);
        }
        if let PackageArg::Alias { package, .. } = wanted {
            return self.pick_kind(packument, package);
        }
        let ghost w = wanted@;
        let mut target: Option<Version> = match wanted {
            PackageArg::Version { version, .. } => Some(version.clone()),
            PackageArg::Tag { tag, .. } => match packument.tags.get(tag) {
                Some(v) => Some(v.clone()),
                None => None,
            },
            PackageArg::Range { .. } => None,
            _ => {
                return Err(PickerError::InvalidPackageArg);
            },
        };
        let tag_version: Option<Version> = match packument.tags.get(&self.default_tag) {
            Some(v) => Some(v.clone()),
            None => None,
        };
        assert(opt_version_view(tag_version) == tag_lookup(packument@.tags, self.default_tag@));
        let mut fits = false;
        if target.is_none() {
            if let Some(tv) = &tag_version {
                if packument.versions.get(tv).is_some() {
                    if let PackageArg::Range { range, .. } = wanted {
                        if range.matches(tv) {
                            fits = true;
                        }
                    }
                }
            }
        }
        assert(fits == default_tag_fits(self.default_tag@, packument@, w));
        if fits {
            target = tag_version;
        } else if let PackageArg::Range { range, .. } = wanted {
            let m = max_satisfying(&packument.versions, range);
            let ghost mv = opt_version_view(m);
            if m.is_some() {
                target = m;
            } else if range_is_star(range) {
                target = tag_version;
            }
            let r = match &target {
                Some(v) => match packument.versions.get(v) {
                    Some(i) => Ok(clone_integrity(i)),
                    None => Err(PickerError::NoVersion),
                },
                None => Err(PickerError::NoVersion),
            };
            assert(max_satisfying_spec(packument@.versions, range_of(unalias(wanted@)), mv));
            assert(r == spec_pick(self.default_tag@, packument@, wanted@, mv));
            return r;
        }
        match &target {
            Some(v) => match packument.versions.get(v) {
                Some(i) => Ok(clone_integrity(i)),
                None => Err(PickerError::NoVersion),
            },
            None => Err(PickerError::NoVersion),
        }
    }

    /// Picks the integrity of the version that `wanted` asks for. A failure
    /// carries its kind and a context that names the package, or the
    /// argument that could not be served.
    pub fn pick(&self, packument: &EntropicPackument, wanted: &PackageArg) -> (r: Result<
        ssri::Integrity,
        PickFailure,
    >)
        ensures
            match r {
                Ok(i) => pick_result(self.default_tag@, *packument, wanted@) == Ok::<
                    ssri::Integrity,
                    PickerError,
                >(i),
                Err(f) => pick_result(self.default_tag@, *packument, wanted@) == Err::<
                    ssri::Integrity,
                    PickerError,
                >(f.error) && f.context@ == pick_context(packument@, wanted@, f.error),
            },
            needs_max(self.default_tag@, packument@, wanted@) ==> max_satisfying_spec(
                packument@.versions,
                range_of(unalias(wanted@)),
                greatest_accepted(packument.versions, range_of(unalias(wanted@))),
            ),
    {
        match self.pick_kind(packument, wanted) {
            Ok(i) => Ok(i),
            Err(error) => {
                let context = if packument.versions.is_empty() {
                    crate::text::concat("No versions were present in the packument for ", &packument.name)
                } else {
                    let shown = debug_package_arg(unaliased(wanted));
                    match error {
                        PickerError::InvalidPackageArg => crate::text::concat(
                            "Received an unexpected PackageArg type: ",
                            &shown,
                        ),
                        PickerError::NoVersion => {
                            let mut c = crate::text::concat("No versions could be found because ", &shown);
                            c.append(" did not match any existing versions");
                            c
                        },
                    }
                };
                Err(PickFailure { error, context })
            },
        }
    }
}

// ---------------------------------------------------------------------
// Laws of picking.
// ---------------------------------------------------------------------

/// An alias picks exactly what the argument it stands for picks.
pub proof fn lemma_pick_alias(
    default_tag: Seq<char>,
    p: PackumentView,
    name: Seq<char>,
    package: PackageArgView,
    m: Option<VersionView>,
)
    ensures
        spec_pick(default_tag, p, PackageArgView::Alias { name, package: Box::new(package) }, m)
            == spec_pick(default_tag, p, package, m),
        needs_max(default_tag, p, PackageArgView::Alias { name, package: Box::new(package) })
            == needs_max(default_tag, p, package),
{
}

/// A packument without versions gives nothing, whatever is asked.
pub proof fn lemma_pick_no_versions(
    default_tag: Seq<char>,
    p: PackumentView,
    wanted: PackageArgView,
    m: Option<VersionView>,
)
    requires
        p.versions.dom() == Set::<VersionView>::empty(),
    ensures
        spec_pick(default_tag, p, wanted, m) == Err::<ssri::Integrity, PickerError>(
            PickerError::NoVersion,
        ),
{
}

/// Asking for an exact version gives the integrity last recorded for it.
pub proof fn lemma_pick_after_insert(
    default_tag: Seq<char>,
    p: PackumentView,
    v: VersionView,
    i: ssri::Integrity,
    host: Option<HostView>,
    name: Seq<char>,
    m: Option<VersionView>,
)
    ensures
        spec_pick(
            default_tag,
            PackumentView { versions: p.versions.insert(v, i), ..p },
            PackageArgView::Version { host, name, version: v },
            m,
        ) == Ok::<ssri::Integrity, PickerError>(i),
{
    let versions = p.versions.insert(v, i);
    assert(versions.dom().contains(v));
    assert(versions.dom() != Set::<VersionView>::empty());
}

/// Asking for a dist-tag gives the integrity of the version it points at,
/// where the packument has that version.
pub proof fn lemma_pick_tag(
    default_tag: Seq<char>,
    p: PackumentView,
    tag: Seq<char>,
    host: Option<HostView>,
    name: Seq<char>,
    m: Option<VersionView>,
)
    requires
        p.tags.dom().contains(tag),
        p.versions.dom().contains(p.tags[tag]),
    ensures
        spec_pick(default_tag, p, PackageArgView::Tag { host, name, tag }, m) == Ok::<
            ssri::Integrity,
            PickerError,
        >(p.versions[p.tags[tag]]),
{
    assert(p.versions.dom() != Set::<VersionView>::empty());
}

/// Picking refuses an argument as unsupported exactly where it is not a
/// registry argument (given a packument with versions).
pub proof fn lemma_pick_refuses_non_registry(
    default_tag: Seq<char>,
    p: PackumentView,
    wanted: PackageArgView,
    m: Option<VersionView>,
)
    requires
        p.versions.dom() != Set::<VersionView>::empty(),
    ensures
        (spec_pick(default_tag, p, wanted, m) == Err::<ssri::Integrity, PickerError>(
            PickerError::InvalidPackageArg,
        )) == !spec_is_registry(wanted),
    decreases wanted,
{
    if let PackageArgView::Alias { package, .. } = wanted {
        lemma_pick_refuses_non_registry(default_tag, p, *package, m);
    }
}

/// What a range picks, the packument has, and the range accepts (unless
/// the range asks for any version); where the default tag does not fit and
/// the range accepts some version, it is the greatest such version.
pub proof fn lemma_pick_range(
    default_tag: Seq<char>,
    p: PackumentView,
    host: Option<HostView>,
    name: Seq<char>,
    range: Seq<ComparatorView>,
    m: Option<VersionView>,
)
    requires
        max_satisfying_spec(p.versions, range, m),
    ensures
        spec_pick(default_tag, p, PackageArgView::Range { host, name, range }, m) matches Ok(i)
            ==> exists|t: VersionView|
            #![trigger p.versions.dom().contains(t)]
            p.versions.dom().contains(t) && p.versions[t] == i && (semver_matches(range, t)
                || range.len() == 0 || semver_req_parse("*"@) == Some(range)),
        ({
            let w = PackageArgView::Range { host, name, range };
            &&& !default_tag_fits(default_tag, p, w)
            &&& m matches Some(b)
        }) ==> spec_pick(default_tag, p, PackageArgView::Range { host, name, range }, m) == Ok::<
            ssri::Integrity,
            PickerError,
        >(p.versions[m.unwrap()]) && is_max_satisfying(p.versions, range, m.unwrap()),
{
    let w = PackageArgView::Range { host, name, range };
    if default_tag_fits(default_tag, p, w) {
        let t = tag_lookup(p.tags, default_tag).unwrap();
        assert(p.versions.dom().contains(t));
    } else if m is Some {
        let b = m.unwrap();
        assert(p.versions.dom().contains(b));
    } else if is_star(range) {
        if let Some(t) = tag_lookup(p.tags, default_tag) {
            if p.versions.dom().contains(t) {
                assert(p.versions.dom().contains(t));
            }
        }
    }
}

/// The scan finds only versions of the map that the range accepts.
pub proof fn lemma_scan_max_accepted(vm: VersionMap, range: Seq<ComparatorView>, n: int)
    requires
        0 <= n <= vm.size(),
    ensures
        scan_max(vm, range, n) matches Some(v) ==> semver_matches(range, v) && vm@.dom().contains(v),
    decreases n,
{
    if n > 0 {
        lemma_scan_max_accepted(vm, range, n - 1);
        vm.lemma_entries();
        assert(vm@.dom().contains(vm.key(n - 1)));
    }
}

/// Whatever a range argument picks is the integrity of a version that the
/// packument has and that the range accepts; only a range that asks for
/// any version (no comparators, or what semver parses `*` to) may fall
/// back on the default tag's version without accepting it. A range that
/// accepts none of the packument's versions, and is not such a range,
/// picks nothing.
pub proof fn lemma_pick_range_accepts(
    default_tag: Seq<char>,
    p: EntropicPackument,
    host: Option<HostView>,
    name: Seq<char>,
    range: Seq<ComparatorView>,
)
    ensures
        pick_result(default_tag, p, PackageArgView::Range { host, name, range }) matches Ok(i)
            ==> exists|t: VersionView|
            #![trigger p@.versions.dom().contains(t)]
            p@.versions.dom().contains(t) && p@.versions[t] == i && (semver_matches(range, t)
                || range.len() == 0 || semver_req_parse("*"@) == Some(range)),
        ({
            &&& forall|t: VersionView| #[trigger] p@.versions.dom().contains(t) ==> !semver_matches(range, t)
            &&& range.len() != 0
            &&& semver_req_parse("*"@) != Some(range)
        }) ==> pick_result(default_tag, p, PackageArgView::Range { host, name, range }) is Err,
{
    let w = PackageArgView::Range { host, name, range };
    let m = greatest_accepted(p.versions, range);
    lemma_scan_max_accepted(p.versions, range, p.versions.size() as int);
    assert(unalias(w) == w);
    if default_tag_fits(default_tag, p@, w) {
        let t = tag_lookup(p@.tags, default_tag).unwrap();
        assert(p@.versions.dom().contains(t));
    } else if m is Some {
        let b = m.unwrap();
        assert(p@.versions.dom().contains(b));
    }
}

/// Picking an alias gives exactly what picking the argument it stands for
/// gives, ranges included.
pub proof fn lemma_pick_result_alias(
    default_tag: Seq<char>,
    p: EntropicPackument,
    name: Seq<char>,
    package: PackageArgView,
)
    ensures
        pick_result(default_tag, p, PackageArgView::Alias { name, package: Box::new(package) })
            == pick_result(default_tag, p, package),
{
}

/// Asking for an exact version gives its integrity where the packument has
/// it and `NoVersion` otherwise, whatever the default tag.
pub proof fn lemma_pick_version(
    default_tag: Seq<char>,
    p: PackumentView,
    v: VersionView,
    host: Option<HostView>,
    name: Seq<char>,
    m: Option<VersionView>,
)
    requires
        p.versions.dom() != Set::<VersionView>::empty(),
    ensures
        spec_pick(default_tag, p, PackageArgView::Version { host, name, version: v }, m) == if p.versions.dom().contains(v) {
            Ok::<ssri::Integrity, PickerError>(p.versions[v])
        } else {
            Err(PickerError::NoVersion)
        },
{
}

/// Asking for a dist-tag gives the integrity of the version it points at
/// where the packument has both, and `NoVersion` otherwise, whatever the
/// default tag.
pub proof fn lemma_pick_tag_exact(
    default_tag: Seq<char>,
    p: PackumentView,
    tag: Seq<char>,
    host: Option<HostView>,
    name: Seq<char>,
    m: Option<VersionView>,
)
    requires
        p.versions.dom() != Set::<VersionView>::empty(),
    ensures
        spec_pick(default_tag, p, PackageArgView::Tag { host, name, tag }, m) == if p.tags.dom().contains(tag) && p.versions.dom().contains(p.tags[tag]) {
            Ok::<ssri::Integrity, PickerError>(p.versions[p.tags[tag]])
        } else {
            Err(PickerError::NoVersion)
        },
{
}

} // verus!
