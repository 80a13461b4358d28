//! Semantic versions, the harvest filter, and the compatibility resolver
//! that selects a generated artifact set for an installed runtime.
//!
//! Tag names are parsed through the `semver` crate; everything that decides
//! which versions are kept and which artifact set is selected is verified
//! here.

use vstd::prelude::*;

verus! {

/// A semantic version triple. The sentinel `0.0.0` stands for an untagged
/// empty repository state and is never harvested.
#[derive(Debug, Clone, Copy, PartialEq, Eq, Structural)]
pub struct Version {
    pub major: u64,
    pub minor: u64,
    pub patch: u64,
}

/// Lexicographic order on (major, minor, patch).
pub open spec fn version_le(a: Version, b: Version) -> bool {
    if a.major != b.major {
        a.major < b.major
    } else if a.minor != b.minor {
        a.minor < b.minor
    } else {
        a.patch <= b.patch
    }
}

pub open spec fn version_lt(a: Version, b: Version) -> bool {
    version_le(a, b) && a != b
}

/// The first version that the caret rule counts as a breaking change after
/// `c`: the next major version, or the next minor version while the major
/// version is still zero. Returned as a triple of unbounded integers, since
/// it only serves as a bound.
pub open spec fn next_breaking(c: Version) -> (int, int, int) {
    if c.major > 0 {
        (c.major + 1, 0int, 0int)
    } else {
        (0int, c.minor + 1, 0int)
    }
}

/// `a < b` where `b` is an unbounded triple.
pub open spec fn version_lt_triple(a: Version, b: (int, int, int)) -> bool {
    if a.major != b.0 {
        (a.major as int) < b.0
    } else if a.minor != b.1 {
        (a.minor as int) < b.1
    } else {
        (a.patch as int) < b.2
    }
}

/// Exact policy: the candidate matches only the identical runtime version.
pub open spec fn spec_matches_exact(candidate: Version, runtime: Version) -> bool {
    candidate == runtime
}

/// Caret policy: the runtime lies in the half-open range from the candidate
/// up to (excluding) the candidate's next breaking version.
pub open spec fn spec_matches_caret(candidate: Version, runtime: Version) -> bool {
    version_le(candidate, runtime) && version_lt_triple(runtime, next_breaking(candidate))
}

/// The compatibility policy used when resolving a generated artifact set
/// against the installed runtime version.
#[derive(Debug, Clone, Copy, PartialEq, Eq, Structural)]
pub enum MatchPolicy {
    /// Only the identical version is usable.
    Exact,
    /// Forward-compatible matching with caret semantics.
    Caret,
}

pub open spec fn spec_matches(candidate: Version, runtime: Version, policy: MatchPolicy) -> bool {
    match policy {
        MatchPolicy::Exact => spec_matches_exact(candidate, runtime),
        MatchPolicy::Caret => spec_matches_caret(candidate, runtime),
    }
}

impl Version {
    pub fn new(major: u64, minor: u64, patch: u64) -> (r: Self)
        ensures
            r == (Version { major, minor, patch }),
    {
        Self { major, minor, patch }
    }

    /// Total-order comparison: `self <= other`.
    pub fn le(&self, other: &Version) -> (r: bool)
        ensures
            r == version_le(*self, *other),
    {
        if self.major != other.major {
            self.major < other.major
        } else if self.minor != other.minor {
            self.minor < other.minor
        } else {
            self.patch <= other.patch
        }
    }

    /// Strict total-order comparison: `self < other`.
    pub fn lt(&self, other: &Version) -> (r: bool)
        ensures
            r == version_lt(*self, *other),
    {
        self.le(other) && !(self.major == other.major && self.minor == other.minor && self.patch
            == other.patch)
    }

    /// Does this candidate version match `runtime` under `policy`?
    pub fn matches(&self, runtime: &Version, policy: MatchPolicy) -> (r: bool)
        ensures
            r == spec_matches(*self, *runtime, policy),
    {
        match policy {
            MatchPolicy::Exact => {
                self.major == runtime.major && self.minor == runtime.minor && self.patch
                    == runtime.patch
            },
            MatchPolicy::Caret => {
                if !self.le(runtime) {
                    false
                } else if self.major > 0 {
                    runtime.major == self.major
                } else {
                    runtime.major == 0 && runtime.minor == self.minor
                }
            },
        }
    }
}

/// Every version is caret-compatible with itself, and an exact match is
/// in particular a caret match: the exact policy only narrows the caret
/// policy.
pub proof fn lemma_exact_within_caret(candidate: Version, runtime: Version)
    ensures
        spec_matches_caret(candidate, candidate),
        spec_matches_exact(candidate, runtime) ==> spec_matches_caret(candidate, runtime),
{
}

/// A version is accepted for harvesting when it is not the empty-repository
/// sentinel and is not below the configured floor.
pub open spec fn spec_accepted(v: Version, floor: Version) -> bool {
    v != (Version { major: 0, minor: 0, patch: 0 }) && version_le(floor, v)
}

/// Harvest filter for one version.
pub fn accept_version(v: &Version, floor: &Version) -> (r: bool)
    ensures
        r == spec_accepted(*v, *floor),
{
    if v.major == 0 && v.minor == 0 && v.patch == 0 {
        false
    } else {
        floor.le(v)
    }
}

/// Strictly ascending, hence duplicate-free.
pub open spec fn sorted_unique(s: Seq<Version>) -> bool {
    forall|i: int, j: int| 0 <= i < j < s.len() ==> version_lt(#[trigger] s[i], #[trigger] s[j])
}

/// Insert `v` into a strictly ascending list, keeping it strictly ascending;
/// a version already present is left alone.
fn insert_sorted(list: &mut Vec<Version>, v: Version)
    requires
        sorted_unique(old(list)@),
    ensures
        sorted_unique(final(list)@),
        forall|w: Version| final(list)@.contains(w) <==> (old(list)@.contains(w) || w == v),
{
    let ghost orig = list@;
    let n = list.len();
    let mut i: usize = 0;
    while i < n && list[i].lt(&v)
        invariant
            n == list.len(),
            list@ == orig,
            i <= n,
            sorted_unique(orig),
            forall|k: int| 0 <= k < i ==> version_lt(#[trigger] orig[k], v),
        decreases n - i,
    {
        i = i + 1;
    }
    if i < n && list[i].major == v.major && list[i].minor == v.minor && list[i].patch == v.patch {
        proof {
            assert(orig[i as int] == v);
            assert(orig.contains(orig[i as int]));
        }
        return;
    }
    proof {
        assert forall|k: int| i <= k < orig.len() implies version_lt(v, #[trigger] orig[k]) by {
            if k == i {
                assert(!version_lt(orig[k], v));
                assert(orig[k] != v);
            } else {
                assert(version_lt(orig[i as int], orig[k]));
                assert(!version_lt(orig[i as int], v));
                assert(orig[i as int] != v);
            }
        }
    }
    list.insert(i, v);
    proof {
        assert forall|a: int, b: int| 0 <= a < b < list@.len() implies version_lt(
            #[trigger] list@[a],
            #[trigger] list@[b],
        ) by {
            if a < i {
                assert(list@[a] == orig[a]);
            } else if a == i {
                assert(list@[a] == v);
            } else {
                assert(list@[a] == orig[a - 1]);
            }
            if b < i {
                assert(list@[b] == orig[b]);
            } else if b == i {
                assert(list@[b] == v);
            } else {
                assert(list@[b] == orig[b - 1]);
            }
        }
        assert(list@[i as int] == v);
        assert(list@.contains(v));
        assert forall|w: Version| #[trigger] list@.contains(w) implies (orig.contains(w) || w
            == v) by {
            let k = choose|k: int| 0 <= k < list@.len() && list@[k] == w;
            if k < i {
                assert(orig[k] == w);
                assert(orig.contains(w));
            } else if k > i {
                assert(orig[k - 1] == w);
                assert(orig.contains(w));
            }
        }
        assert forall|w: Version| #[trigger] orig.contains(w) implies list@.contains(w) by {
            let k = choose|k: int| 0 <= k < orig.len() && orig[k] == w;
            if k < i {
                assert(list@[k] == w);
            } else {
                assert(list@[k + 1] == w);
            }
        }
    }
}

/// What `semver` makes of a byte string: the numeric triple of the parsed
/// version, or nothing when the bytes are not a well-formed version.
pub uninterp spec fn semver_of(s: Seq<u8>) -> Option<Version>;

/// Relies on `semver::Version::parse`: the result is a function of the
/// input text alone. The wrapper keeps the numeric (major, minor, patch)
/// triple and discards pre-release and build metadata; input that is not
/// UTF-8 yields `None`, as does text the parser rejects.
#[verifier::external_body]
fn parse_semver_bytes(s: &[u8]) -> (r: Option<Version>)
    ensures
        r == semver_of(s@),
{
    let text = match core::str::from_utf8(s) {
        Ok(t) => t,
        Err(_) => return None,
    };
    match semver::Version::parse(text) {
        Ok(v) => Some(Version { major: v.major, minor: v.minor, patch: v.patch }),
        Err(_) => None,
    }
}

/// Parse a version string such as a per-version directory name.
pub fn parse_version(s: &[u8]) -> (r: Option<Version>)
    ensures
        r == semver_of(s@),
{
    parse_semver_bytes(s)
}

/// Index of the last `/` in `t`, or `-1` when there is none.
pub open spec fn spec_last_slash(t: Seq<u8>) -> int
    decreases t.len(),
{
    if t.len() == 0 {
        -1
    } else if t[t.len() - 1] == 47u8 {
        t.len() - 1
    } else {
        spec_last_slash(t.drop_last())
    }
}

/// The version a repository tag name denotes: the trailing path segment must
/// be `v` followed by a version.
pub open spec fn spec_tag_version(t: Seq<u8>) -> Option<Version> {
    let seg = t.subrange(spec_last_slash(t) + 1, t.len() as int);
    if seg.len() >= 1 && seg[0] == 118u8 {
        semver_of(seg.subrange(1, seg.len() as int))
    } else {
        None
    }
}

/// Parse the version out of a tag name such as `refs/tags/v0.4.0`: the part
/// of the trailing path segment after a mandatory `v` prefix.
pub fn version_from_tag(tag: &[u8]) -> (r: Option<Version>)
    ensures
        r == spec_tag_version(tag@),
{
    proof {
        assert(tag@.subrange(0, tag@.len() as int) =~= tag@);
    }
    let n = tag.len();
    let mut j: usize = n;
    while j > 0 && tag[j - 1] != 47u8
        invariant
            j <= n,
            n == tag@.len(),
            spec_last_slash(tag@) == spec_last_slash(tag@.subrange(0, j as int)),
            forall|k: int| j <= k < n ==> tag@[k] != 47u8,
        decreases j,
    {
        proof {
            assert(tag@.subrange(0, j as int).drop_last() =~= tag@.subrange(0, j - 1));
            assert(tag@.subrange(0, j as int).last() == tag@[j - 1]);
        }
        j = j - 1;
    }
    proof {
        if j == 0 {
            assert(tag@.subrange(0, 0) =~= Seq::<u8>::empty());
            assert(spec_last_slash(tag@) == -1);
        } else {
            assert(tag@.subrange(0, j as int).last() == tag@[j - 1]);
            assert(spec_last_slash(tag@) == j - 1);
        }
    }
    let seg = vstd::slice::slice_subrange(tag, j, n);
    if seg.len() >= 1 && seg[0] == 118u8 {
        let rest = vstd::slice::slice_subrange(seg, 1, seg.len());
        proof {
            assert(rest@ =~= tag@.subrange(spec_last_slash(tag@) + 1, tag@.len() as int).subrange(
                1,
                tag@.subrange(spec_last_slash(tag@) + 1, tag@.len() as int).len() as int,
            ));
        }
        parse_semver_bytes(rest)
    } else {
        None
    }
}

/// Parse every tag name, keep the versions that pass the harvest filter,
/// and return them in strictly ascending order without duplicates. The
/// sentinel `0.0.0` and versions below `floor` never appear in the result.
#[verifier::rlimit(100)]
pub fn harvest_versions(tags: &Vec<Vec<u8>>, floor: &Version) -> (r: Vec<Version>)
    ensures
        sorted_unique(r@),
        forall|k: int|
            0 <= k < r@.len() ==> spec_accepted(#[trigger] r@[k], *floor) && exists|u: int|
                0 <= u < tags@.len() && spec_tag_version(#[trigger] tags@[u]@) == Some(r@[k]),
        forall|u: int, v: Version|
            #![trigger spec_tag_version(tags@[u]@), spec_accepted(v, *floor)]
            0 <= u < tags@.len() && spec_tag_version(tags@[u]@) == Some(v) && spec_accepted(
                v,
                *floor,
            ) ==> r@.contains(v),
{
    let mut out: Vec<Version> = Vec::new();
    let n = tags.len();
    let mut t: usize = 0;
    while t < n
        invariant
            t <= n,
            n == tags.len(),
            sorted_unique(out@),
            forall|k: int|
                0 <= k < out@.len() ==> spec_accepted(#[trigger] out@[k], *floor) && exists|
                    u: int,
                |
                    0 <= u < t && spec_tag_version(#[trigger] tags@[u]@) == Some(out@[k]),
            forall|u: int, v: Version|
                #![trigger spec_tag_version(tags@[u]@), spec_accepted(v, *floor)]
                0 <= u < t && spec_tag_version(tags@[u]@) == Some(v) && spec_accepted(v, *floor)
                    ==> out@.contains(v),
        decreases n - t,
    {
        let parsed = version_from_tag(tags[t].as_slice());
        let ghost pre = out@;
        let mut keep = false;
        if let Some(v) = parsed {
            if accept_version(&v, floor) {
                keep = true;
                insert_sorted(&mut out, v);
            }
        }
        proof {
            assert(spec_tag_version(tags@[t as int]@) == parsed);
            assert forall|k: int| 0 <= k < out@.len() implies spec_accepted(
                #[trigger] out@[k],
                *floor,
            ) && exists|u: int|
                0 <= u < t + 1 && spec_tag_version(#[trigger] tags@[u]@) == Some(out@[k]) by {
                let w = out@[k];
                assert(out@.contains(w));
                if pre.contains(w) {
                    let j = choose|j: int| 0 <= j < pre.len() && pre[j] == w;
                    assert(spec_accepted(pre[j], *floor));
                } else {
                    assert(keep && parsed == Some(w));
                    assert(spec_tag_version(tags@[t as int]@) == Some(w));
                }
            }
            assert forall|u: int, v: Version|
                #![trigger spec_tag_version(tags@[u]@), spec_accepted(v, *floor)]
                0 <= u < t + 1 && spec_tag_version(tags@[u]@) == Some(v) && spec_accepted(
                    v,
                    *floor,
                ) implies out@.contains(v) by {
                if u < t {
                    assert(pre.contains(v));
                    if keep {
                        assert(out@.contains(v));
                    }
                } else {
                    assert(parsed == Some(v));
                    assert(keep);
                    assert(out@.contains(v));
                }
            }
        }
        t = t + 1;
    }
    proof {
        assert forall|k: int| 0 <= k < out@.len() implies spec_accepted(
            #[trigger] out@[k],
            *floor,
        ) && exists|u: int|
            0 <= u < tags@.len() && spec_tag_version(#[trigger] tags@[u]@) == Some(out@[k]) by {
            assert(spec_accepted(out@[k], *floor));
            assert(exists|u: int|
                0 <= u < t && spec_tag_version(#[trigger] tags@[u]@) == Some(out@[k]));
            let u = choose|u: int|
                0 <= u < t && spec_tag_version(#[trigger] tags@[u]@) == Some(out@[k]);
            assert(0 <= u < tags@.len() && spec_tag_version(tags@[u]@) == Some(out@[k]));
        }
    }
    out
}

/// Select the artifact set for `runtime`: the highest candidate version that
/// matches under `policy`, or `None` when no candidate matches.
pub fn resolve_version(candidates: &Vec<Version>, runtime: &Version, policy: MatchPolicy) -> (r:
    Option<Version>)
    ensures
        match r {
            Some(v) => {
                &&& candidates@.contains(v)
                &&& spec_matches(v, *runtime, policy)
                &&& forall|k: int|
                    0 <= k < candidates@.len() && spec_matches(
                        #[trigger] candidates@[k],
                        *runtime,
                        policy,
                    ) ==> version_le(candidates@[k], v)
            },
            None => forall|k: int|
                0 <= k < candidates@.len() ==> !spec_matches(
                    #[trigger] candidates@[k],
                    *runtime,
                    policy,
                ),
        },
{
    let mut best: Option<Version> = None;
    let n = candidates.len();
    for k in 0..n
        invariant
            n == candidates.len(),
            match best {
                Some(b) => {
                    &&& candidates@.contains(b)
                    &&& spec_matches(b, *runtime, policy)
                    &&& forall|j: int|
                        0 <= j < k && spec_matches(#[trigger] candidates@[j], *runtime, policy)
                            ==> version_le(candidates@[j], b)
                },
                None => forall|j: int|
                    0 <= j < k ==> !spec_matches(#[trigger] candidates@[j], *runtime, policy),
            },
    {
        let c = candidates[k];
        if c.matches(runtime, policy) {
            match best {
                Some(b) => {
                    if b.lt(&c) {
                        best = Some(c);
                        proof {
                            assert(candidates@.contains(candidates@[k as int]));
                        }
                    }
                },
                None => {
                    best = Some(c);
                    proof {
                        assert(candidates@.contains(candidates@[k as int]));
                    }
                },
            }
        }
    }
    best
}

/// Caret matching never reaches across the configured breaking boundary:
/// when the candidate and the runtime differ in their breaking component,
/// the candidate does not match.
pub proof fn lemma_caret_respects_major(candidate: Version, runtime: Version)
    ensures
        candidate.major != runtime.major ==> !spec_matches_caret(candidate, runtime),
        candidate.major == 0 && runtime.major == 0 && candidate.minor != runtime.minor
            ==> !spec_matches_caret(candidate, runtime),
{
}

} // verus!
