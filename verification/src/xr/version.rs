//! Graphics-API versions and the range of them that a runtime supports.

use vstd::prelude::*;

verus! {

/// A version number of three components, ordered component by component.
#[derive(Clone, Copy, Debug, PartialEq, Eq, Structural)]
pub struct Version {
    pub major: u16,
    pub minor: u16,
    pub patch: u32,
}

impl Version {
    /// `self` is strictly older than `other`: the first component in which
    /// the two differ is smaller in `self`.
    pub open spec fn precedes(self, other: Version) -> bool {
        ||| self.major < other.major
        ||| self.major == other.major && self.minor < other.minor
        ||| self.major == other.major && self.minor == other.minor && self.patch < other.patch
    }

    /// The version as one number: the major component in the top 16 bits of
    /// 64, the minor component in the next 16 and the patch in the low 32.
    /// Display runtimes exchange versions in this form.
    pub open spec fn packed(self) -> int {
        self.major * 0x1_0000_0000_0000 + self.minor * 0x1_0000_0000 + self.patch
    }

    pub fn new(major: u16, minor: u16, patch: u32) -> (v: Version)
        ensures
            v == (Version { major, minor, patch }),
    {
        Version { major, minor, patch }
    }

    /// Whether `self` is strictly older than `other`: the answer that
    /// comparing the packed forms gives.
    pub fn less_than(&self, other: &Version) -> (r: bool)
        ensures
            r == self.precedes(*other),
            r == (self.packed() < other.packed()),
    {
        if self.major != other.major {
            self.major < other.major
        } else if self.minor != other.minor {
            self.minor < other.minor
        } else {
            self.patch < other.patch
        }
    }
}

/// The versions of the graphics API that a display runtime supports.
#[derive(Clone, Copy, Debug, PartialEq, Eq, Structural)]
pub struct GraphicsRequirements {
    pub min_api_version_supported: Version,
    pub max_api_version_supported: Version,
}

impl GraphicsRequirements {
    /// The range admits `backend` when `backend` is not older than the
    /// minimum and its major component does not exceed that of the maximum.
    /// Minor and patch components above the maximum are tolerated.
    pub open spec fn admits(self, backend: Version) -> bool {
        &&& !backend.precedes(self.min_api_version_supported)
        &&& backend.major <= self.max_api_version_supported.major
    }

    /// Whether a rendering backend of version `backend` can present through
    /// this runtime.
    pub fn supports(&self, backend: &Version) -> (ok: bool)
        ensures
            ok == self.admits(*backend),
    {
        !backend.less_than(&self.min_api_version_supported)
            && backend.major <= self.max_api_version_supported.major
    }

    /// The first major version that the runtime no longer supports, for
    /// diagnostics that print the range as an open interval.
    pub fn first_unsupported_major(&self) -> (m: u32)
        ensures
            m == self.max_api_version_supported.major + 1,
    {
        let major: u32 = self.max_api_version_supported.major.into();
        major + 1
    }
}

/// The component-wise order is the numeric order of the packed form.
pub proof fn lemma_precedes_is_packed_order(a: Version, b: Version)
    ensures
        a.precedes(b) <==> a.packed() < b.packed(),
        a == b <==> a.packed() == b.packed(),
{
}

/// Of two versions exactly one of these holds: the first is older, they are
/// equal, the second is older.
pub proof fn lemma_version_order_is_total(a: Version, b: Version)
    ensures
        a.precedes(b) || a == b || b.precedes(a),
        !(a.precedes(b) && b.precedes(a)),
        !a.precedes(a),
{
}

/// Being older is transitive.
pub proof fn lemma_precedes_is_transitive(a: Version, b: Version, c: Version)
    requires
        a.precedes(b),
        b.precedes(c),
    ensures
        a.precedes(c),
{
}

/// Every version from the minimum up to the maximum is admitted, and so is
/// every later version that shares the maximum's major component. A version
/// of a higher major component never is, nor one older than the minimum.
pub proof fn lemma_admitted_versions(range: GraphicsRequirements, backend: Version)
    ensures
        !backend.precedes(range.min_api_version_supported) && !range.max_api_version_supported.precedes(
            backend,
        ) ==> range.admits(backend),
        backend.major > range.max_api_version_supported.major ==> !range.admits(backend),
        backend.precedes(range.min_api_version_supported) ==> !range.admits(backend),
{
}

} // verus!
