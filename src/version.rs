use vstd::prelude::*;

verus! {

/// A runtime version in `major.minor.patch` form.
#[derive(Clone, Copy, Debug, PartialEq, Eq, Structural)]
pub struct Version {
    pub major: u32,
    pub minor: u32,
    pub patch: u32,
}

/// `a` comes no later than `b` in lexicographic order of (major, minor, patch).
pub open spec fn version_le(a: Version, b: Version) -> bool {
    a.major < b.major || (a.major == b.major && (a.minor < b.minor || (a.minor == b.minor
        && a.patch <= b.patch)))
}

/// The oldest runtime on which the portability extensions are required on macOS.
pub open spec fn portability_minimum_spec() -> Version {
    Version { major: 1, minor: 3, patch: 216 }
}

/// The portability extensions are needed on macOS from the minimum version on.
pub open spec fn portability_needed(on_macos: bool, runtime: Version) -> bool {
    on_macos && version_le(portability_minimum_spec(), runtime)
}

impl Version {
    pub fn new(major: u32, minor: u32, patch: u32) -> (r: Version)
        ensures
            r == (Version { major, minor, patch }),
    {
        Version { major, minor, patch }
    }

    /// Whether `self` is `other` or a later version.
    pub fn at_least(&self, other: &Version) -> (r: bool)
        ensures
            r == version_le(*other, *self),
    {
        if self.major != other.major {
            self.major > other.major
        } else if self.minor != other.minor {
            self.minor > other.minor
        } else {
            self.patch >= other.patch
        }
    }
}

pub fn portability_minimum() -> (r: Version)
    ensures
        r == portability_minimum_spec(),
{
    Version::new(1, 3, 216)
}

/// Whether instance creation must enable the portability extensions and flag.
pub fn portability_required(on_macos: bool, runtime: &Version) -> (r: bool)
    ensures
        r == portability_needed(on_macos, *runtime),
{
    on_macos && runtime.at_least(&portability_minimum())
}

/// Relies on vulkanalia's `vk::make_version`, which packs a version as
/// `(major << 22) | (minor << 12) | patch`.
pub assume_specification[ vulkanalia::vk::make_version ](major: u32, minor: u32, patch: u32) -> (r: u32)
    ensures
        r == ((major << 22u32) | (minor << 12u32) | patch),
;

/// The packed 32-bit form of a version, as the API's metadata records carry it.
pub fn packed_version(v: &Version) -> (r: u32)
    requires
        v.major < 1024,
        v.minor < 1024,
        v.patch < 4096,
    ensures
        r == v.major * 4194304 + v.minor * 4096 + v.patch,
{
    let r = vulkanalia::vk::make_version(v.major, v.minor, v.patch);
    let (ma, mi, pa) = (v.major, v.minor, v.patch);
    assert(((ma << 22u32) | (mi << 12u32) | pa) == ma * 4194304 + mi * 4096 + pa) by (bit_vector)
        requires
            ma < 1024u32,
            mi < 1024u32,
            pa < 4096u32,
    ;
    r
}

} // verus!
