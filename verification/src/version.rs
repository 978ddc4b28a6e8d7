use vstd::prelude::*;

verus! {

/// The version number that the parser library reports packs its major, minor
/// and patch numbers one byte each: `major * 0x10000 + minor * 0x100 + patch`.
pub open spec fn packed_version(major: u32, minor: u32, patch: u32) -> int {
    major * 0x10000 + minor * 0x100 + patch
}

/// Splits a packed parser library version into `(major, minor, patch)`.
///
/// Each part is one byte of the packed number: bits 16 to 23, 8 to 15 and 0 to 7.
pub fn version_from_packed(version: u32) -> (v: (u32, u32, u32))
    ensures
        v.0 == (version / 0x10000) % 0x100,
        v.1 == (version / 0x100) % 0x100,
        v.2 == version % 0x100,
{
    assert((version >> 16) & 255 == (version / 0x10000) % 0x100) by (bit_vector);
    assert((version >> 8) & 255 == (version / 0x100) % 0x100) by (bit_vector);
    assert(version & 255 == version % 0x100) by (bit_vector);
    let major = (version >> 16) & 255;
    let minor = (version >> 8) & 255;
    let patch = version & 255;

    (major, minor, patch)
}

/// Splitting a packed version gives back the numbers that were packed, when
/// each of them fits in a byte.
pub proof fn lemma_version_roundtrip(major: u32, minor: u32, patch: u32)
    requires
        major < 0x100,
        minor < 0x100,
        patch < 0x100,
    ensures
        ({
            let version = packed_version(major, minor, patch);
            &&& 0 <= version <= u32::MAX
            &&& (version / 0x10000) % 0x100 == major
            &&& (version / 0x100) % 0x100 == minor
            &&& version % 0x100 == patch
        }),
{
}

} // verus!
