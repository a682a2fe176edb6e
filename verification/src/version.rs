//! Host versions and the test for a host that is too old.

use vstd::prelude::*;

verus! {

/// A host release: major, minor and revision number.
#[derive(Clone, Copy, Debug, PartialEq, Eq, Structural)]
pub struct WslVersion {
    pub major: u32,
    pub minor: u32,
    pub revision: u32,
}

/// The position of a release among all releases: releases are ordered by
/// major number first, then minor, then revision.
pub open spec fn release_rank(major: u32, minor: u32, revision: u32) -> int {
    major as int * 0x1_0000_0000_0000_0000 + minor as int * 0x1_0000_0000 + revision as int
}

impl WslVersion {
    /// The rank of this release.
    pub open spec fn rank(self) -> int {
        release_rank(self.major, self.minor, self.revision)
    }

    /// This release comes strictly before `major.minor.revision`.
    pub open spec fn precedes(self, major: u32, minor: u32, revision: u32) -> bool {
        self.rank() < release_rank(major, minor, revision)
    }
}

/// Two releases have the same rank only if they are the same release.
pub proof fn lemma_rank_injective(a: WslVersion, b: WslVersion)
    requires
        a.rank() == b.rank(),
    ensures
        a == b,
{
}

/// A release comes before `major.minor.revision` exactly if its major number
/// is lower, or the major numbers agree and its minor number is lower, or
/// both agree and its revision number is lower.
pub proof fn lemma_precedes_is_lexicographic(v: WslVersion, major: u32, minor: u32, revision: u32)
    ensures
        v.precedes(major, minor, revision) <==> (v.major < major || (v.major == major && (v.minor
            < minor || (v.minor == minor && v.revision < revision)))),
{
}

/// No release comes before itself, and a release that comes before a second
/// one comes before every release that the second one comes before.
pub proof fn lemma_precedes_is_strict_order(a: WslVersion, b: WslVersion, c: WslVersion)
    ensures
        !a.precedes(a.major, a.minor, a.revision),
        a.precedes(b.major, b.minor, b.revision) && b.precedes(c.major, c.minor, c.revision)
            ==> a.precedes(c.major, c.minor, c.revision),
        a == b || a.precedes(b.major, b.minor, b.revision) || b.precedes(
            a.major,
            a.minor,
            a.revision,
        ),
{
}

/// Whether the host release `api_version` is older than the release
/// `major.minor.revision`.
pub fn is_wsl_old(major: u32, minor: u32, revision: u32, api_version: &WslVersion) -> (outdated: bool)
    ensures
        outdated == api_version.precedes(major, minor, revision),
{
    api_version.major < major
        || (api_version.major == major && api_version.minor < minor)
        || (api_version.major == major
            && api_version.minor == minor
            && api_version.revision < revision)
}

} // verus!
