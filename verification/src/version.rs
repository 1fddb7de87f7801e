//! The engine's version number: three bytes packed into one word.

use vstd::prelude::*;

verus! {

/// A version of the audio engine.
#[derive(Clone, Copy, Debug, PartialEq, Eq)]
pub struct Version {
    pub major: u32,
    pub minor: u32,
    pub patch: u32,
}

/// The version that a packed word holds: from its low end, one byte each of
/// patch, minor and major. What lies above the third byte is not part of it.
pub open spec fn unpacked(word: u32) -> Version {
    Version {
        major: ((word as int / 0x1_0000) % 0x100) as u32,
        minor: ((word as int / 0x100) % 0x100) as u32,
        patch: (word as int % 0x100) as u32,
    }
}

/// Whether a version belongs to the release line 2.03.
pub open spec fn is_line_2_03(version: Version) -> bool {
    version.major == 2 && version.minor == 3
}

/// Whether a version is the release 2.03.09.
pub open spec fn is_release_2_03_09(version: Version) -> bool {
    is_line_2_03(version) && version.patch == 9
}

/// Unpacks the version number that the engine reports.
pub fn unpack_version(word: u32) -> (version: Version)
    ensures
        version == unpacked(word),
{
    let major = (word >> 16) & 0xFF;
    let minor = (word >> 8) & 0xFF;
    let patch = word & 0xFF;
    assert(major == (word / 0x1_0000) % 0x100) by (bit_vector)
        requires
            major == (word >> 16) & 0xFF,
    ;
    assert(minor == (word / 0x100) % 0x100) by (bit_vector)
        requires
            minor == (word >> 8) & 0xFF,
    ;
    assert(patch == word % 0x100) by (bit_vector)
        requires
            patch == word & 0xFF,
    ;
    Version { major, minor, patch }
}

/// Whether the engine is of the release line 2.03.
pub fn is_supported_line(version: Version) -> (supported: bool)
    ensures
        supported == is_line_2_03(version),
{
    version.major == 2 && version.minor == 3
}

/// Whether the engine is the release 2.03.09.
pub fn is_expected_release(version: Version) -> (expected: bool)
    ensures
        expected == is_release_2_03_09(version),
{
    version.major == 2 && version.minor == 3 && version.patch == 9
}

/// Each part of a version is a byte, and the three parts make up the low
/// three bytes of the word they were unpacked from.
pub proof fn lemma_unpacked_parts(word: u32)
    ensures
        unpacked(word).major < 0x100,
        unpacked(word).minor < 0x100,
        unpacked(word).patch < 0x100,
        unpacked(word).major * 0x1_0000 + unpacked(word).minor * 0x100 + unpacked(word).patch
            == word % 0x100_0000,
{
}

} // verus!
