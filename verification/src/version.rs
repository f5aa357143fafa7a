//! Application version triple and its packed 32-bit form.
//!
//! The graphics API identifies an application and an engine by a version
//! packed into one 32-bit word: a variant in the top three bits, then a
//! seven-bit major, a ten-bit minor and a twelve-bit patch number.

use vstd::prelude::*;

verus! {

/// A semantic version triple for the application or the engine.
#[derive(Clone, Copy, Debug, PartialEq, Eq, Structural)]
pub struct AppVersion {
    pub major: u32,
    pub minor: u32,
    pub patch: u32,
}

impl AppVersion {
    /// Builds the triple from its three components.
    pub fn new(major: u32, minor: u32, patch: u32) -> (v: AppVersion)
        ensures
            v.major == major,
            v.minor == minor,
            v.patch == patch,
    {
        AppVersion { major, minor, patch }
    }

    /// Packs this version, with variant zero, for the graphics API.
    pub fn to_api_version(&self) -> (v: u32)
        ensures
            v == packed_api_version(0, self.major, self.minor, self.patch),
    {
        make_api_version(0, self.major, self.minor, self.patch)
    }
}

/// The packed 32-bit form of a version: variant in bits 29..32, major in
/// bits 22..29, minor in bits 12..22 and patch in bits 0..12. Components
/// too wide for their field lose their high bits, as the graphics API's
/// own packing macro makes them.
pub open spec fn packed_api_version(variant: u32, major: u32, minor: u32, patch: u32) -> u32 {
    (variant << 29) | (major << 22) | (minor << 12) | patch
}

/// Packs a version word for the graphics API. When every component fits
/// its field, the packed word is exactly the weighted sum of the
/// components, so no two in-range versions collide.
pub fn make_api_version(variant: u32, major: u32, minor: u32, patch: u32) -> (v: u32)
    ensures
        v == packed_api_version(variant, major, minor, patch),
        (variant < 8 && major < 128 && minor < 1024 && patch < 4096) ==> v == variant
            * 0x2000_0000 + major * 0x40_0000 + minor * 0x1000 + patch,
{
    proof {
        assert((variant < 8 && major < 128 && minor < 1024 && patch < 4096) ==> ((variant << 29) | (
        major << 22) | (minor << 12) | patch) == variant * 0x2000_0000 + major * 0x40_0000 + minor
            * 0x1000 + patch) by (bit_vector);
    }
    (variant << 29) | (major << 22) | (minor << 12) | patch
}

} // verus!
