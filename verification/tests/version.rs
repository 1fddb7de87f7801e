use libfmod_demos::version::{is_expected_release, is_supported_line, unpack_version, Version};

#[test]
fn unpacks_three_bytes() {
    assert_eq!(unpack_version(0x0002_0309), Version { major: 2, minor: 3, patch: 9 });
    assert_eq!(unpack_version(0x0002_0222), Version { major: 2, minor: 2, patch: 0x22 });
    assert_eq!(unpack_version(0), Version { major: 0, minor: 0, patch: 0 });
    assert_eq!(unpack_version(0x00ff_ffff), Version { major: 255, minor: 255, patch: 255 });
}

#[test]
fn ignores_the_top_byte() {
    assert_eq!(unpack_version(0xab02_0309), Version { major: 2, minor: 3, patch: 9 });
    assert_eq!(unpack_version(u32::MAX), Version { major: 255, minor: 255, patch: 255 });
}

#[test]
fn recognises_the_release_line() {
    assert!(is_supported_line(unpack_version(0x0002_0309)));
    assert!(is_supported_line(unpack_version(0x0002_0300)));
    assert!(!is_supported_line(unpack_version(0x0002_0209)));
    assert!(!is_supported_line(unpack_version(0x0003_0309)));
}

#[test]
fn recognises_the_release() {
    assert!(is_expected_release(unpack_version(0x0002_0309)));
    assert!(!is_expected_release(unpack_version(0x0002_0308)));
    assert!(!is_expected_release(unpack_version(0x0002_0409)));
    assert!(!is_expected_release(Version { major: 1, minor: 3, patch: 9 }));
}
