//! Semantic versions reduced to their ordered numeric components, together
//! with the parsing and range-match predicates supplied by the `semver`
//! crate.

use vstd::prelude::*;

verus! {

/// A semantic version reduced to its numeric components, ordered
/// lexicographically by (major, minor, patch).
#[derive(Clone, Copy, PartialEq, Eq, Structural, Debug)]
pub struct Version {
    pub major: u64,
    pub minor: u64,
    pub patch: u64,
}

/// Strict lexicographic order on (major, minor, patch).
pub open spec fn version_lt(a: Version, b: Version) -> bool {
    ||| a.major < b.major
    ||| (a.major == b.major && a.minor < b.minor)
    ||| (a.major == b.major && a.minor == b.minor && a.patch < b.patch)
}

/// Non-strict companion of `version_lt`.
pub open spec fn version_le(a: Version, b: Version) -> bool {
    version_lt(a, b) || a == b
}

impl Version {
    /// The zero version, the default "has always existed" lower bound.
    pub fn zero() -> (r: Version)
        ensures
            r == (Version { major: 0, minor: 0, patch: 0 }),
    {
        Version { major: 0, minor: 0, patch: 0 }
    }

    /// `self < other` in the lexicographic version order.
    pub fn lt(&self, other: &Version) -> (r: bool)
        ensures
            r == version_lt(*self, *other),
    {
        if self.major != other.major {
            self.major < other.major
        } else if self.minor != other.minor {
            self.minor < other.minor
        } else {
            self.patch < other.patch
        }
    }

    /// `self >= other` in the lexicographic version order.
    pub fn ge(&self, other: &Version) -> (r: bool)
        ensures
            r == version_le(*other, *self),
    {
        !self.lt(other)
    }
}

/// Every version is at least the zero version.
pub proof fn lemma_zero_version_least(v: Version)
    ensures
        version_le(Version { major: 0, minor: 0, patch: 0 }, v),
{
}

/// The numeric components that `semver::Version::parse` extracts from a
/// string, or `None` when the string is not a valid version.
pub uninterp spec fn spec_parse_version(s: Seq<char>) -> Option<Version>;

/// Whether `semver::VersionReq::parse` accepts a range expression.
pub uninterp spec fn spec_range_wf(s: Seq<char>) -> bool;

/// The answer `semver::VersionReq::matches` gives for a well-formed range
/// expression and the version with the given numeric components.
pub uninterp spec fn spec_range_matches(s: Seq<char>, major: u64, minor: u64, patch: u64) -> bool;

/// Relies on `semver::Version::parse`: its result is a function of the
/// characters of the string alone, and its `major`, `minor` and `patch`
/// fields are the parsed numeric components.
#[verifier::external_body]
pub(crate) fn parse_version(s: &str) -> (r: Option<Version>)
    ensures
        r == spec_parse_version(s@),
{
    match semver::Version::parse(s) {
        Ok(v) => Some(Version { major: v.major, minor: v.minor, patch: v.patch }),
        Err(_) => None,
    }
}

/// Relies on `semver::VersionReq::parse`: whether a range expression is
/// accepted is a function of its characters alone.
#[verifier::external_body]
pub(crate) fn range_parses(s: &str) -> (r: bool)
    ensures
        r == spec_range_wf(s@),
{
    semver::VersionReq::parse(s).is_ok()
}

/// Relies on `semver::VersionReq::parse` and `semver::VersionReq::matches`:
/// for a well-formed range expression the answer is a function of the
/// range's characters and of the queried version's numeric components.
#[verifier::external_body]
pub(crate) fn range_matches(s: &str, v: &Version) -> (r: bool)
    requires
        spec_range_wf(s@),
    ensures
        r == spec_range_matches(s@, v.major, v.minor, v.patch),
{
    match semver::VersionReq::parse(s) {
        Ok(req) => req.matches(&semver::Version::new(v.major, v.minor, v.patch)),
        Err(_) => false,
    }
}

} // verus!
