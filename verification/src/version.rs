//! Packing and unpacking of Vulkan version numbers.

use vstd::prelude::*;

verus! {

/// Largest major number that the packed application version can hold
/// (10 bits above bit 22).
pub const VERSION_MAJOR_MAX: u32 = 0x3ff;

/// Largest major number that the packed API version can hold (7 bits).
pub const API_MAJOR_MAX: u32 = 0x7f;

/// Largest variant number of a packed API version (3 bits).
pub const API_VARIANT_MAX: u32 = 0x7;

/// Largest minor number of either packing (10 bits).
pub const MINOR_MAX: u32 = 0x3ff;

/// Largest patch number of either packing (12 bits).
pub const PATCH_MAX: u32 = 0xfff;

/// The integer that `major.minor.patch` packs to: major from bit 22 up,
/// minor in bits 12..22, patch in bits 0..12.
pub open spec fn packed_version(major: int, minor: int, patch: int) -> int {
    major * 0x40_0000 + minor * 0x1000 + patch
}

/// The integer that `variant.major.minor.patch` packs to: variant in the
/// top three bits, then the fields of [`packed_version`].
pub open spec fn packed_api_version(variant: int, major: int, minor: int, patch: int) -> int {
    variant * 0x2000_0000 + major * 0x40_0000 + minor * 0x1000 + patch
}

/// Whether the three numbers fit their fields of a packed version.
pub open spec fn version_in_range(major: u32, minor: u32, patch: u32) -> bool {
    major <= VERSION_MAJOR_MAX && minor <= MINOR_MAX && patch <= PATCH_MAX
}

/// Whether the four numbers fit their fields of a packed API version.
pub open spec fn api_version_in_range(variant: u32, major: u32, minor: u32, patch: u32) -> bool {
    variant <= API_VARIANT_MAX && major <= API_MAJOR_MAX && minor <= MINOR_MAX && patch
        <= PATCH_MAX
}

/// Packs an application or engine version: major shifted to bit 22, minor
/// to bit 12, patch in the low bits, combined with bitwise or. While each
/// number fits its field this is [`packed_version`]; a number too large
/// for its field spills into the next one, as it does in the C macro.
pub fn make_vk_version(major: u32, minor: u32, patch: u32) -> (packed: u32)
    ensures
        packed == (major << 22) | (minor << 12) | patch,
        version_in_range(major, minor, patch) ==> packed == packed_version(
            major as int,
            minor as int,
            patch as int,
        ),
{
    let v: u32 = (major << 22) | (minor << 12) | patch;
    assert(major <= 0x3ff && minor <= 0x3ff && patch <= 0xfff ==> v == major * 0x40_0000 + minor
        * 0x1000 + patch) by (bit_vector)
        requires
            v == (major << 22) | (minor << 12) | patch,
    ;
    v
}

/// Packs an API version: the variant shifted to bit 29, then as
/// [`make_vk_version`]. While each number fits its field this is
/// [`packed_api_version`].
pub fn make_vk_api_version(variant: u32, major: u32, minor: u32, patch: u32) -> (packed: u32)
    ensures
        packed == (variant << 29) | (major << 22) | (minor << 12) | patch,
        api_version_in_range(variant, major, minor, patch) ==> packed == packed_api_version(
            variant as int,
            major as int,
            minor as int,
            patch as int,
        ),
{
    let v: u32 = (variant << 29) | (major << 22) | (minor << 12) | patch;
    assert(variant <= 0x7 && major <= 0x7f && minor <= 0x3ff && patch <= 0xfff ==> v == variant
        * 0x2000_0000 + major * 0x40_0000 + minor * 0x1000 + patch) by (bit_vector)
        requires
            v == (variant << 29) | (major << 22) | (minor << 12) | patch,
    ;
    v
}

/// Splits a packed API version into `(variant, major, minor, patch)`.
/// The four numbers are the unique in-range fields that pack to `version`.
pub fn get_vk_api_version(version: u32) -> (fields: (u32, u32, u32, u32))
    ensures
        api_version_in_range(fields.0, fields.1, fields.2, fields.3),
        packed_api_version(fields.0 as int, fields.1 as int, fields.2 as int, fields.3 as int)
            == version,
{
    let variant: u32 = version >> 29;
    let major: u32 = (version >> 22) & 0x7f;
    let minor: u32 = (version >> 12) & 0x3ff;
    let patch: u32 = version & 0xfff;
    assert(variant <= 0x7 && major <= 0x7f && minor <= 0x3ff && patch <= 0xfff && variant
        * 0x2000_0000 + major * 0x40_0000 + minor * 0x1000 + patch == version) by (bit_vector)
        requires
            variant == version >> 29,
            major == (version >> 22) & 0x7f,
            minor == (version >> 12) & 0x3ff,
            patch == version & 0xfff,
    ;
    (variant, major, minor, patch)
}

/// Unpacking undoes packing: the fields that went into a packed API version
/// are the ones that come out of it.
pub proof fn lemma_api_version_round_trip(
    variant: u32,
    major: u32,
    minor: u32,
    patch: u32,
    other: (u32, u32, u32, u32),
)
    requires
        api_version_in_range(variant, major, minor, patch),
        api_version_in_range(other.0, other.1, other.2, other.3),
        packed_api_version(other.0 as int, other.1 as int, other.2 as int, other.3 as int)
            == packed_api_version(variant as int, major as int, minor as int, patch as int),
    ensures
        other == (variant, major, minor, patch),
{
}

} // verus!
