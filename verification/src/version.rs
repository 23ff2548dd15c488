//! Semantic versions and version requirements, held as plain values.
//!
//! Parsing, ordering and requirement matching are semver's: the wrappers
//! below make those calls, and the names `semver_parse`,
//! `semver_req_parse`, `version_order` and `semver_matches` stand for what
//! they return.

use vstd::prelude::*;

verus! {

#[verifier::external_type_specification]
#[verifier::external_body]
pub struct ExSemverOp(semver::Op);

/// The value of a `Version`: its numbers, pre-release and build metadata.
pub struct VersionView {
    pub major: u64,
    pub minor: u64,
    pub patch: u64,
    pub pre: Seq<char>,
    pub build: Seq<char>,
}

/// The value of one comparator of a requirement, such as `>=1.2`.
pub struct ComparatorView {
    pub op: semver::Op,
    pub major: u64,
    pub minor: Option<u64>,
    pub patch: Option<u64>,
    pub pre: Seq<char>,
}

/// What `semver::Version::parse` gives for a text, as a plain value
/// (`None` where it fails).
pub uninterp spec fn semver_parse(text: Seq<char>) -> Option<VersionView>;

/// What `semver::VersionReq::parse` gives for a text: its comparators
/// (`None` where it fails).
pub uninterp spec fn semver_req_parse(text: Seq<char>) -> Option<Seq<ComparatorView>>;

/// semver's total order on versions: negative, zero or positive as `a` is
/// less than, equal to or greater than `b`.
pub uninterp spec fn version_order(a: VersionView, b: VersionView) -> int;

/// Whether semver's `VersionReq::matches` accepts the version.
pub uninterp spec fn semver_matches(req: Seq<ComparatorView>, v: VersionView) -> bool;

/// A pre-release text that semver accepts inside a requirement.
pub open spec fn req_pre_ok(p: Seq<char>) -> bool {
    exists|t: Seq<char>, j: int|
        #![trigger semver_req_parse(t), req_pre_at(t, j)]
        semver_req_parse(t) is Some && 0 <= j < semver_req_parse(t).unwrap().len()
            && req_pre_at(t, j) == p
}

/// The pre-release text of the `j`th comparator that `t` parses to.
pub open spec fn req_pre_at(t: Seq<char>, j: int) -> Seq<char> {
    semver_req_parse(t).unwrap()[j].pre
}

/// A semantic version, `major.minor.patch[-pre][+build]`. Only semver's
/// parser makes one, so every `Version` is one that semver produced.
#[derive(Debug, PartialEq, Eq)]
pub struct Version {
    major: u64,
    minor: u64,
    patch: u64,
    pre: String,
    build: String,
}

impl View for Version {
    type V = VersionView;

    closed spec fn view(&self) -> VersionView {
        VersionView {
            major: self.major,
            minor: self.minor,
            patch: self.patch,
            pre: self.pre@,
            build: self.build@,
        }
    }
}

impl Version {
    #[verifier::type_invariant]
    closed spec fn came_from_semver(self) -> bool {
        exists|t: Seq<char>| semver_parse(t) == Some(self@)
    }

    /// Parses a version as semver does; `None` where semver refuses the text.
    pub fn parse(text: &str) -> (r: Option<Version>)
        ensures
            match r {
                Some(v) => semver_parse(text@) == Some(v@),
                None => semver_parse(text@) is None,
            },
    {
        parse_version(text)
    }

    /// Whether two versions are the same version.
    pub fn same(&self, other: &Version) -> (r: bool)
        ensures
            r == (self@ == other@),
    {
        self.major == other.major && self.minor == other.minor && self.patch == other.patch
            && self.pre == other.pre && self.build == other.build
    }

    /// semver's ordering of two versions: -1, 0 or 1.
    pub fn order(&self, other: &Version) -> (r: i8)
        ensures
            r == version_order(self@, other@),
            -1 <= r <= 1,
            version_order(other@, self@) == -r,
            (r == 0) == (self@ == other@),
            forall|c: VersionView|
                version_order(c, self@) < 0 && r < 0 ==> #[trigger] version_order(c, other@) < 0,
    {
        proof {
            use_type_invariant(self);
            use_type_invariant(other);
        }
        order_versions(self, other)
    }
}

impl Clone for Version {
    fn clone(&self) -> (r: Self)
        ensures
            r == *self,
    {
        proof {
            use_type_invariant(self);
        }
        Version {
            major: self.major,
            minor: self.minor,
            patch: self.patch,
            pre: self.pre.clone(),
            build: self.build.clone(),
        }
    }
}

/// One comparator of a requirement: an operator and a partial version.
#[derive(Debug, PartialEq, Eq)]
pub struct Comparator {
    pub op: semver::Op,
    pub major: u64,
    pub minor: Option<u64>,
    pub patch: Option<u64>,
    pub pre: String,
}

impl Clone for Comparator {
    fn clone(&self) -> (r: Self)
        ensures
            r == *self,
    {
        Comparator {
            op: self.op,
            major: self.major,
            minor: self.minor,
            patch: self.patch,
            pre: self.pre.clone(),
        }
    }
}

impl View for Comparator {
    type V = ComparatorView;

    open spec fn view(&self) -> ComparatorView {
        ComparatorView {
            op: self.op,
            major: self.major,
            minor: self.minor,
            patch: self.patch,
            pre: self.pre@,
        }
    }
}

/// A version requirement: the comparators that a version must all meet.
#[derive(Debug, PartialEq, Eq)]
pub struct VersionReq {
    comparators: Vec<Comparator>,
}

/// The values of a list of comparators.
pub open spec fn comparators_view(cs: Seq<Comparator>) -> Seq<ComparatorView> {
    cs.map_values(|c: Comparator| c@)
}

impl View for VersionReq {
    type V = Seq<ComparatorView>;

    closed spec fn view(&self) -> Seq<ComparatorView> {
        comparators_view(self.comparators@)
    }
}

impl VersionReq {
    #[verifier::type_invariant]
    closed spec fn pre_releases_ok(self) -> bool {
        forall|i: int|
            0 <= i < self.comparators@.len() ==> req_pre_ok(#[trigger] self.comparators@[i].pre@)
    }

    /// Parses a requirement as semver does; `None` where semver refuses it.
    pub fn parse(text: &str) -> (r: Option<VersionReq>)
        ensures
            match r {
                Some(q) => semver_req_parse(text@) == Some(q@),
                None => semver_req_parse(text@) is None,
            },
    {
        parse_req(text)
    }

    /// The requirement with no comparators, which semver calls `STAR`.
    pub fn star() -> (r: VersionReq)
        ensures
            r@ == Seq::<ComparatorView>::empty(),
    {
        let r = VersionReq { comparators: Vec::new() };
        assert(r@ =~= Seq::<ComparatorView>::empty());
        r
    }

    /// Whether this requirement has no comparators.
    pub fn is_empty(&self) -> (r: bool)
        ensures
            r == (self@.len() == 0),
    {
        self.comparators.len() == 0
    }

    /// Whether `v` meets this requirement, as semver decides it.
    pub fn matches(&self, v: &Version) -> (r: bool)
        ensures
            r == semver_matches(self@, v@),
    {
        proof {
            use_type_invariant(self);
            use_type_invariant(v);
        }
        req_matches(self, v)
    }

    /// Whether two requirements have the same comparators.
    pub fn same(&self, other: &VersionReq) -> (r: bool)
        ensures
            r == (self@ == other@),
    {
        let n = self.comparators.len();
        if n != other.comparators.len() {
            proof {
                assert(self@.len() == n);
            }
            return false;
        }
        let mut i: usize = 0;
        while i < n
            invariant
                n == self.comparators.len(),
                n == other.comparators.len(),
                i <= n,
                forall|k: int| 0 <= k < i ==> self@[k] == other@[k],
            decreases n - i,
        {
            let a = &self.comparators[i];
            let b = &other.comparators[i];
            let same_minor = match (a.minor, b.minor) {
                (Some(x), Some(y)) => x == y,
                (None, None) => true,
                _ => false,
            };
            let same_patch = match (a.patch, b.patch) {
                (Some(x), Some(y)) => x == y,
                (None, None) => true,
                _ => false,
            };
            if !(same_op(a.op, b.op) && a.major == b.major && same_minor && same_patch && a.pre
                == b.pre) {
                assert(self@[i as int] != other@[i as int]);
                return false;
            }
            assert(self@[i as int] == other@[i as int]);
            i = i + 1;
        }
        assert(self@ =~= other@);
        true
    }
}

impl Clone for VersionReq {
    fn clone(&self) -> (r: Self)
        ensures
            r@ == self@,
    {
        proof {
            use_type_invariant(self);
        }
        let mut comparators: Vec<Comparator> = Vec::new();
        let mut i: usize = 0;
        while i < self.comparators.len()
            invariant
                i <= self.comparators@.len(),
                comparators@ == self.comparators@.subrange(0, i as int),
            decreases self.comparators.len() - i,
        {
            comparators.push(self.comparators[i].clone());
            i = i + 1;
            assert(comparators@ =~= self.comparators@.subrange(0, i as int));
        }
        assert(comparators@ =~= self.comparators@);
        VersionReq { comparators }
    }
}

/// Calls `semver::Version::parse` and holds the result as plain values:
/// the three numbers and the texts of the pre-release and build metadata.
/// Claims that the result is what `semver_parse` names for the text.
#[verifier::external_body]
fn parse_version(text: &str) -> (r: Option<Version>)
    ensures
        match r {
            Some(v) => semver_parse(text@) == Some(v@),
            None => semver_parse(text@) is None,
        },
{
    match semver::Version::parse(text) {
        Ok(v) => Some(Version { major: v.major, minor: v.minor, patch: v.patch, pre: v.pre.as_str().to_string(), build: v.build.as_str().to_string() }),
        Err(_) => None,
    }
}

/// Calls `Ord::cmp` on the two `semver::Version`s that the plain values
/// stand for (rebuilt with `Prerelease::new` and `BuildMetadata::new`, which
/// accept any text that semver's own parser produced). Claims that the
/// result is what `version_order` names, and the facts of a total order
/// consistent with equality that semver's derived `Ord` has: swapping the
/// arguments negates it, it is zero exactly on equal versions, and it is
/// transitive.
#[verifier::external_body]
fn order_versions(a: &Version, b: &Version) -> (r: i8)
    requires
        exists|t: Seq<char>| semver_parse(t) == Some(a@),
        exists|t: Seq<char>| semver_parse(t) == Some(b@),
    ensures
        r == version_order(a@, b@),
        -1 <= r <= 1,
        version_order(b@, a@) == -r,
        (r == 0) == (a@ == b@),
        forall|c: VersionView|
            version_order(c, a@) < 0 && r < 0 ==> #[trigger] version_order(c, b@) < 0,
{
    let x = semver::Version { major: a.major, minor: a.minor, patch: a.patch, pre: semver::Prerelease::new(&a.pre).unwrap(), build: semver::BuildMetadata::new(&a.build).unwrap() };
    let y = semver::Version { major: b.major, minor: b.minor, patch: b.patch, pre: semver::Prerelease::new(&b.pre).unwrap(), build: semver::BuildMetadata::new(&b.build).unwrap() };
    match x.cmp(&y) {
        std::cmp::Ordering::Less => -1,
        std::cmp::Ordering::Equal => 0,
        std::cmp::Ordering::Greater => 1,
    }
}

/// Calls `semver::VersionReq::parse` and holds each comparator as plain
/// values. Claims that the result is what `semver_req_parse` names.
#[verifier::external_body]
fn parse_req(text: &str) -> (r: Option<VersionReq>)
    ensures
        match r {
            Some(q) => semver_req_parse(text@) == Some(q@),
            None => semver_req_parse(text@) is None,
        },
{
    match semver::VersionReq::parse(text) {
        Ok(q) => {
            let mut comparators = Vec::new();
            for c in q.comparators {
                comparators.push(Comparator { op: c.op, major: c.major, minor: c.minor, patch: c.patch, pre: c.pre.as_str().to_string() });
            }
            Some(VersionReq { comparators })
        },
        Err(_) => None,
    }
}

/// Calls `semver::VersionReq::matches` on the requirement and version that
/// the plain values stand for (pre-release texts rebuilt with
/// `Prerelease::new`, which accepts what semver's parser produced). Claims
/// that the result is what `semver_matches` names.
#[verifier::external_body]
fn req_matches(q: &VersionReq, v: &Version) -> (r: bool)
    requires
        forall|i: int| 0 <= i < q@.len() ==> req_pre_ok(#[trigger] q@[i].pre),
        exists|t: Seq<char>| semver_parse(t) == Some(v@),
    ensures
        r == semver_matches(q@, v@),
{
    let mut comparators = Vec::new();
    for c in q.comparators.iter() {
        comparators.push(semver::Comparator { op: c.op, major: c.major, minor: c.minor, patch: c.patch, pre: semver::Prerelease::new(&c.pre).unwrap() });
    }
    let version = semver::Version { major: v.major, minor: v.minor, patch: v.patch, pre: semver::Prerelease::new(&v.pre).unwrap(), build: semver::BuildMetadata::new(&v.build).unwrap() };
    semver::VersionReq { comparators }.matches(&version)
}

/// Calls semver's derived `PartialEq` on two operators. Claims that it
/// returns whether they are the same operator.
#[verifier::external_body]
fn same_op(a: semver::Op, b: semver::Op) -> (r: bool)
    ensures
        r == (a == b),
{
    a == b
}

} // verus!
