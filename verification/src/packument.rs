//! Package documents ("packuments"): a package's dist-tags and the
//! integrity of each of its versions.

use vstd::prelude::*;
use crate::version::{Version, VersionView};

verus! {

#[verifier::external_type_specification]
#[verifier::external_body]
pub struct ExIntegrity(ssri::Integrity);

/// A UTC instant: whole seconds since the Unix epoch and the nanoseconds
/// past them.
#[derive(Debug, Clone, Copy, PartialEq, Eq)]
pub struct Timestamp {
    pub secs: i64,
    pub nanos: u32,
}

/// Calls ssri's derived `Clone` on an integrity. Claims that the copy is
/// the same value.
#[verifier::external_body]
pub(crate) fn clone_integrity(i: &ssri::Integrity) -> (r: ssri::Integrity)
    ensures
        r == *i,
{
    i.clone()
}

#[verifier::external_type_specification]
#[verifier::external_body]
pub struct ExSystemTime(std::time::SystemTime);

/// Calls `std::time::SystemTime::now`. The result depends on the clock, so
/// nothing is claimed of it.
#[verifier::external_body]
fn system_now() -> std::time::SystemTime {
    std::time::SystemTime::now()
}

/// Calls `SystemTime::duration_since` with the Unix epoch: `Ok` with the
/// seconds and nanoseconds that the instant lies after the epoch, or `Err`
/// with how far it lies before (the error's `duration`). Claims only that
/// the nanoseconds stay below one second, as `Duration` keeps them.
#[verifier::external_body]
fn since_epoch(t: &std::time::SystemTime) -> (r: Result<(u64, u32), (u64, u32)>)
    ensures
        match r {
            Ok((_, n)) => n < 1_000_000_000,
            Err((_, n)) => n < 1_000_000_000,
        },
{
    match t.duration_since(std::time::UNIX_EPOCH) {
        Ok(d) => Ok((d.as_secs(), d.subsec_nanos())),
        Err(e) => Err((e.duration().as_secs(), e.duration().subsec_nanos())),
    }
}

/// A count of seconds held in an `i64`, saturating at its bounds.
pub open spec fn clamp_secs(v: int) -> i64 {
    if v > i64::MAX {
        i64::MAX
    } else if v < i64::MIN {
        i64::MIN
    } else {
        v as i64
    }
}

/// The instant that lies the given seconds and nanoseconds after the epoch
/// (`Ok`) or before it (`Err`), with its seconds saturated to an `i64`.
pub open spec fn timestamp_spec(d: Result<(u64, u32), (u64, u32)>) -> Timestamp {
    match d {
        Ok((s, n)) => Timestamp { secs: clamp_secs(s as int), nanos: n },
        Err((s, n)) => if n == 0 {
            Timestamp { secs: clamp_secs(-(s as int)), nanos: 0 }
        } else {
            Timestamp { secs: clamp_secs(-(s as int) - 1), nanos: (1_000_000_000 - n) as u32 }
        },
    }
}

/// Seconds held in an `i64`, saturating at its bounds.
fn clamp_i128(v: i128) -> (r: i64)
    ensures
        r == clamp_secs(v as int),
{
    if v > i64::MAX as i128 {
        i64::MAX
    } else if v < i64::MIN as i128 {
        i64::MIN
    } else {
        v as i64
    }
}

/// The instant that an offset from the Unix epoch stands for: after it for
/// `Ok`, before it for `Err`; nanoseconds always count forward from the
/// seconds.
pub fn timestamp_from_epoch_offset(d: Result<(u64, u32), (u64, u32)>) -> (r: Timestamp)
    requires
        match d {
            Ok((_, n)) => n < 1_000_000_000,
            Err((_, n)) => n < 1_000_000_000,
        },
    ensures
        r == timestamp_spec(d),
{
    match d {
        Ok((s, n)) => Timestamp { secs: clamp_i128(s as i128), nanos: n },
        Err((s, n)) => {
            if n == 0 {
                Timestamp { secs: clamp_i128(-(s as i128)), nanos: 0 }
            } else {
                Timestamp { secs: clamp_i128(-(s as i128) - 1), nanos: 1_000_000_000 - n }
            }
        },
    }
}

/// The current instant, by the system clock. A clock set before the epoch
/// gives a negative count of seconds; nothing here panics.
pub fn now() -> (r: Timestamp)
    ensures
        r.nanos < 1_000_000_000,
{
    let t = system_now();
    let d = since_epoch(&t);
    timestamp_from_epoch_offset(d)
}

/// The integrity of each version of a package: a map in which no version
/// occurs twice.
pub struct VersionMap {
    entries: Vec<(Version, ssri::Integrity)>,
}

impl View for VersionMap {
    type V = Map<VersionView, ssri::Integrity>;

    closed spec fn view(&self) -> Map<VersionView, ssri::Integrity> {
        Map::new(
            |k: VersionView| exists|i: int| 0 <= i < self.entries@.len() && #[trigger] self.entries@[i].0@ == k,
            |k: VersionView|
                self.entries@[choose|i: int|
                    0 <= i < self.entries@.len() && #[trigger] self.entries@[i].0@ == k].1,
        )
    }
}

impl VersionMap {
    #[verifier::type_invariant]
    closed spec fn keys_distinct(self) -> bool {
        forall|i: int, j: int|
            0 <= i < self.entries@.len() && 0 <= j < self.entries@.len() && i != j
                ==> self.entries@[i].0@ != self.entries@[j].0@
    }

    /// The number of entries.
    pub closed spec fn size(self) -> nat {
        self.entries@.len()
    }

    /// The version of the `i`th entry.
    pub closed spec fn key(self, i: int) -> VersionView {
        self.entries@[i].0@
    }

    /// The versions of the map are those of its entries, and each entry's
    /// integrity is the map's value at its version.
    pub proof fn lemma_entries(self)
        ensures
            forall|k: VersionView|
                self@.dom().contains(k) <==> exists|i: int| 0 <= i < self.size() && #[trigger] self.key(i) == k,
            forall|i: int| 0 <= i < self.size() ==> #[trigger] self@.dom().contains(self.key(i)),
    {
        assert forall|i: int| 0 <= i < self.size() implies #[trigger] self@.dom().contains(self.key(i)) by {
            assert(self.entries@[i].0@ == self.key(i));
        }
        assert forall|k: VersionView| self@.dom().contains(k) implies exists|i: int|
            0 <= i < self.size() && #[trigger] self.key(i) == k by {
            let i = choose|i: int| 0 <= i < self.entries@.len() && #[trigger] self.entries@[i].0@ == k;
            assert(self.key(i) == k);
        }
    }

    proof fn lemma_value_at(self, i: int)
        requires
            self.keys_distinct(),
            0 <= i < self.entries@.len(),
        ensures
            self@.dom().contains(self.entries@[i].0@),
            self@[self.entries@[i].0@] == self.entries@[i].1,
    {
        let k = self.entries@[i].0@;
        assert(self.entries@[i].0@ == k);
        let j = choose|j: int| 0 <= j < self.entries@.len() && #[trigger] self.entries@[j].0@ == k;
        assert(i == j);
    }

    /// An empty map.
    pub fn new() -> (r: VersionMap)
        ensures
            r@ == Map::<VersionView, ssri::Integrity>::empty(),
    {
        let r = VersionMap { entries: Vec::new() };
        assert(r@ =~= Map::<VersionView, ssri::Integrity>::empty());
        r
    }

    /// The number of versions.
    pub fn len(&self) -> (r: usize)
        ensures
            r == self.size(),
            self@.dom().finite(),
            self@.dom().len() == r,
    {
        proof {
            use_type_invariant(self);
            let ks = self.entries@.map_values(|e: (Version, ssri::Integrity)| e.0@);
            assert(ks.no_duplicates());
            ks.unique_seq_to_set();
            vstd::seq_lib::seq_to_set_is_finite(ks);
            assert forall|k: VersionView| #[trigger] ks.to_set().contains(k) == self@.dom().contains(k) by {
                if self@.dom().contains(k) {
                    let i = choose|i: int| 0 <= i < self.entries@.len() && #[trigger] self.entries@[i].0@ == k;
                    assert(ks[i] == k);
                }
                if ks.to_set().contains(k) {
                    let i = choose|i: int| 0 <= i < ks.len() && ks[i] == k;
                    assert(self.entries@[i].0@ == k);
                }
            }
            assert(ks.to_set() =~= self@.dom());
        }
        self.entries.len()
    }

    /// Whether the map has no version.
    pub fn is_empty(&self) -> (r: bool)
        ensures
            r == (self@.dom() == Set::<VersionView>::empty()),
    {
        if self.entries.len() == 0 {
            assert(self@.dom() =~= Set::<VersionView>::empty());
            true
        } else {
            proof {
                self.lemma_entries();
                assert(self@.dom().contains(self.key(0)));
            }
            false
        }
    }

    /// The version of the `i`th entry.
    pub fn key_at(&self, i: usize) -> (r: &Version)
        requires
            i < self.size(),
        ensures
            r@ == self.key(i as int),
            forall|j: int| 0 <= j < self.size() && j != i ==> self.key(j) != r@,
    {
        proof {
            use_type_invariant(self);
        }
        &self.entries[i].0
    }

    /// The integrity recorded for a version, if any.
    pub fn get(&self, k: &Version) -> (r: Option<&ssri::Integrity>)
        ensures
            match r {
                Some(i) => self@.dom().contains(k@) && self@[k@] == *i,
                None => !self@.dom().contains(k@),
            },
    {
        proof {
            use_type_invariant(self);
        }
        let mut i: usize = 0;
        while i < self.entries.len()
            invariant
                self.keys_distinct(),
                i <= self.entries@.len(),
                forall|j: int| 0 <= j < i ==> self.entries@[j].0@ != k@,
            decreases self.entries.len() - i,
        {
            if self.entries[i].0.same(k) {
                proof {
                    self.lemma_value_at(i as int);
                }
                return Some(&self.entries[i].1);
            }
            i = i + 1;
        }
        proof {
            if self@.dom().contains(k@) {
                let j = choose|j: int| 0 <= j < self.entries@.len() && #[trigger] self.entries@[j].0@ == k@;
                assert(self.entries@[j].0@ == k@);
            }
        }
        None
    }

    /// Records the integrity of a version, replacing any earlier one.
    pub fn insert(&mut self, k: Version, v: ssri::Integrity)
        ensures
            final(self)@ == old(self)@.insert(k@, v),
    {
        proof {
            use_type_invariant(&*self);
        }
        let ghost old_map = self@;
        let ghost old_entries = self.entries@;
        assert(forall|a: int, b: int|
            0 <= a < old_entries.len() && 0 <= b < old_entries.len() && a != b
                ==> old_entries[a].0@ != old_entries[b].0@);
        let mut i: usize = 0;
        while i < self.entries.len()
            invariant
                self.entries@ == old_entries,
                i <= self.entries@.len(),
                forall|j: int| 0 <= j < i ==> self.entries@[j].0@ != k@,
            ensures
                i <= old_entries.len(),
                i < old_entries.len() ==> old_entries[i as int].0@ == k@,
                forall|j: int| 0 <= j < i ==> old_entries[j].0@ != k@,
            decreases self.entries.len() - i,
        {
            if self.entries[i].0.same(&k) {
                break;
            }
            i = i + 1;
        }
        let mut entries = Vec::new();
        std::mem::swap(&mut entries, &mut self.entries);
        assert(entries@ == old_entries);
        if i < entries.len() {
            entries.set(i, (k, v));
        } else {
            entries.push((k, v));
        }
        let ghost new_entries = entries@;
        proof {
            assert forall|a: int, b: int|
                0 <= a < new_entries.len() && 0 <= b < new_entries.len() && a != b
                    implies new_entries[a].0@ != new_entries[b].0@ by {
                if a == i as int {
                } else if b == i as int {
                } else {
                    assert(new_entries[a] == old_entries[a]);
                    assert(new_entries[b] == old_entries[b]);
                }
            }
        }
        self.entries = entries;
        proof {
            let m = self@;
            let target = old_map.insert(k@, v);
            assert forall|kk: VersionView| #[trigger] m.dom().contains(kk) == target.dom().contains(kk) by {
                if m.dom().contains(kk) {
                    let j = choose|j: int| 0 <= j < new_entries.len() && #[trigger] new_entries[j].0@ == kk;
                    if j != i as int {
                        assert(old_entries[j].0@ == kk);
                    }
                }
                if target.dom().contains(kk) {
                    if kk == k@ {
                        assert(new_entries[i as int].0@ == kk);
                    } else {
                        let j = choose|j: int| 0 <= j < old_entries.len() && #[trigger] old_entries[j].0@ == kk;
                        assert(new_entries[j].0@ == kk);
                    }
                }
            }
            assert forall|kk: VersionView| m.dom().contains(kk) implies #[trigger] m[kk] == target[kk] by {
                let j = choose|j: int| 0 <= j < new_entries.len() && #[trigger] new_entries[j].0@ == kk;
                self.lemma_value_at(j);
                if j == i as int {
                } else {
                    assert(old_entries[j].0@ == kk);
                    let oj = choose|oj: int| 0 <= oj < old_entries.len() && #[trigger] old_entries[oj].0@ == kk;
                    assert(oj == j);
                }
            }
            assert(m =~= target);
        }
    }
}

/// The version that each dist-tag points at: a map in which no tag occurs
/// twice.
pub struct TagMap {
    entries: Vec<(String, Version)>,
}

impl View for TagMap {
    type V = Map<Seq<char>, VersionView>;

    closed spec fn view(&self) -> Map<Seq<char>, VersionView> {
        Map::new(
            |k: Seq<char>| exists|i: int| 0 <= i < self.entries@.len() && #[trigger] self.entries@[i].0@ == k,
            |k: Seq<char>|
                self.entries@[choose|i: int|
                    0 <= i < self.entries@.len() && #[trigger] self.entries@[i].0@ == k].1@,
        )
    }
}

impl TagMap {
    #[verifier::type_invariant]
    closed spec fn tags_distinct(self) -> bool {
        forall|i: int, j: int|
            0 <= i < self.entries@.len() && 0 <= j < self.entries@.len() && i != j
                ==> self.entries@[i].0@ != self.entries@[j].0@
    }

    proof fn lemma_value_at(self, i: int)
        requires
            self.tags_distinct(),
            0 <= i < self.entries@.len(),
        ensures
            self@.dom().contains(self.entries@[i].0@),
            self@[self.entries@[i].0@] == self.entries@[i].1@,
    {
        let k = self.entries@[i].0@;
        assert(self.entries@[i].0@ == k);
        let j = choose|j: int| 0 <= j < self.entries@.len() && #[trigger] self.entries@[j].0@ == k;
        assert(i == j);
    }

    /// An empty map.
    pub fn new() -> (r: TagMap)
        ensures
            r@ == Map::<Seq<char>, VersionView>::empty(),
    {
        let r = TagMap { entries: Vec::new() };
        assert(r@ =~= Map::<Seq<char>, VersionView>::empty());
        r
    }

    /// The version a tag points at, if any.
    pub fn get(&self, tag: &str) -> (r: Option<&Version>)
        ensures
            match r {
                Some(v) => self@.dom().contains(tag@) && self@[tag@] == v@,
                None => !self@.dom().contains(tag@),
            },
    {
        proof {
            use_type_invariant(self);
        }
        let key = tag.to_owned();
        let mut i: usize = 0;
        while i < self.entries.len()
            invariant
                self.tags_distinct(),
                key@ == tag@,
                i <= self.entries@.len(),
                forall|j: int| 0 <= j < i ==> self.entries@[j].0@ != tag@,
            decreases self.entries.len() - i,
        {
            if self.entries[i].0 == key {
                proof {
                    self.lemma_value_at(i as int);
                }
                return Some(&self.entries[i].1);
            }
            i = i + 1;
        }
        proof {
            if self@.dom().contains(tag@) {
                let j = choose|j: int| 0 <= j < self.entries@.len() && #[trigger] self.entries@[j].0@ == tag@;
                assert(self.entries@[j].0@ == tag@);
            }
        }
        None
    }

    /// Points a tag at a version, replacing where it pointed before.
    pub fn insert(&mut self, tag: String, v: Version)
        ensures
            final(self)@ == old(self)@.insert(tag@, v@),
    {
        proof {
            use_type_invariant(&*self);
        }
        let ghost old_map = self@;
        let ghost old_entries = self.entries@;
        let ghost kv = tag@;
        let ghost vv = v@;
        assert(forall|a: int, b: int|
            0 <= a < old_entries.len() && 0 <= b < old_entries.len() && a != b
                ==> old_entries[a].0@ != old_entries[b].0@);
        let mut i: usize = 0;
        while i < self.entries.len()
            invariant
                self.entries@ == old_entries,
                i <= self.entries@.len(),
                forall|j: int| 0 <= j < i ==> self.entries@[j].0@ != tag@,
                kv == tag@,
            ensures
                i <= old_entries.len(),
                i < old_entries.len() ==> old_entries[i as int].0@ == kv,
                forall|j: int| 0 <= j < i ==> old_entries[j].0@ != kv,
            decreases self.entries.len() - i,
        {
            if self.entries[i].0 == tag {
                break;
            }
            i = i + 1;
        }
        let mut entries = Vec::new();
        std::mem::swap(&mut entries, &mut self.entries);
        assert(entries@ == old_entries);
        if i < entries.len() {
            entries.set(i, (tag, v));
        } else {
            entries.push((tag, v));
        }
        let ghost new_entries = entries@;
        assert(new_entries[i as int].0@ == kv && new_entries[i as int].1@ == vv);
        proof {
            assert forall|a: int, b: int|
                0 <= a < new_entries.len() && 0 <= b < new_entries.len() && a != b
                    implies new_entries[a].0@ != new_entries[b].0@ by {
                if a == i as int {
                } else if b == i as int {
                } else {
                    assert(new_entries[a] == old_entries[a]);
                    assert(new_entries[b] == old_entries[b]);
                }
            }
        }
        self.entries = entries;
        proof {
            let m = self@;
            let target = old_map.insert(kv, vv);
            assert forall|kk: Seq<char>| #[trigger] m.dom().contains(kk) == target.dom().contains(kk) by {
                if m.dom().contains(kk) {
                    let j = choose|j: int| 0 <= j < new_entries.len() && #[trigger] new_entries[j].0@ == kk;
                    if j != i as int {
                        assert(old_entries[j].0@ == kk);
                    }
                }
                if target.dom().contains(kk) {
                    if kk == kv {
                        assert(new_entries[i as int].0@ == kk);
                    } else {
                        let j = choose|j: int| 0 <= j < old_entries.len() && #[trigger] old_entries[j].0@ == kk;
                        assert(new_entries[j].0@ == kk);
                    }
                }
            }
            assert forall|kk: Seq<char>| m.dom().contains(kk) implies #[trigger] m[kk] == target[kk] by {
                let j = choose|j: int| 0 <= j < new_entries.len() && #[trigger] new_entries[j].0@ == kk;
                self.lemma_value_at(j);
                if j == i as int {
                } else {
                    assert(old_entries[j].0@ == kk);
                    let oj = choose|oj: int| 0 <= oj < old_entries.len() && #[trigger] old_entries[oj].0@ == kk;
                    assert(oj == j);
                }
            }
            assert(m =~= target);
        }
    }
}

/// The value of a packument that the picker reads.
pub struct PackumentView {
    pub name: Seq<char>,
    pub tags: Map<Seq<char>, VersionView>,
    pub versions: Map<VersionView, ssri::Integrity>,
}

/// A package's document in the registry.
pub struct EntropicPackument {
    pub created: Timestamp,
    pub modified: Timestamp,
    pub name: String,
    pub require_tfa: bool,
    pub tags: TagMap,
    pub versions: VersionMap,
}

/// The packument type under the name its users know.
pub type Packument = EntropicPackument;

impl View for EntropicPackument {
    type V = PackumentView;

    open spec fn view(&self) -> PackumentView {
        PackumentView { name: self.name@, tags: self.tags@, versions: self.versions@ }
    }
}

impl Default for EntropicPackument {
    /// A packument with no name, tags or versions, created and modified now.
    fn default() -> (r: Self)
        ensures
            r.name@ == Seq::<char>::empty(),
            !r.require_tfa,
            r.tags@ == Map::<Seq<char>, VersionView>::empty(),
            r.versions@ == Map::<VersionView, ssri::Integrity>::empty(),
            r.created.nanos < 1_000_000_000,
            r.modified.nanos < 1_000_000_000,
    {
        EntropicPackument {
            created: now(),
            modified: now(),
            name: String::new(),
            require_tfa: false,
            tags: TagMap::new(),
            versions: VersionMap::new(),
        }
    }
}

} // verus!
