use hmd_bootstrap::xr::version::{GraphicsRequirements, Version};

fn supported(min: (u16, u16, u32), max: (u16, u16, u32)) -> GraphicsRequirements {
    GraphicsRequirements {
        min_api_version_supported: Version::new(min.0, min.1, min.2),
        max_api_version_supported: Version::new(max.0, max.1, max.2),
    }
}

#[test]
fn new_keeps_the_components() {
    let v = Version::new(1, 2, 3);
    assert_eq!(v.major, 1);
    assert_eq!(v.minor, 2);
    assert_eq!(v.patch, 3);
    assert_eq!(v, Version { major: 1, minor: 2, patch: 3 });
}

#[test]
fn less_than_compares_major_first() {
    assert!(Version::new(1, 9, 9).less_than(&Version::new(2, 0, 0)));
    assert!(!Version::new(2, 0, 0).less_than(&Version::new(1, 9, 9)));
}

#[test]
fn less_than_compares_minor_before_patch() {
    assert!(Version::new(1, 1, 500).less_than(&Version::new(1, 2, 0)));
    assert!(!Version::new(1, 2, 0).less_than(&Version::new(1, 1, 500)));
}

#[test]
fn less_than_compares_patch_last() {
    assert!(Version::new(1, 1, 0).less_than(&Version::new(1, 1, 1)));
    assert!(!Version::new(1, 1, 1).less_than(&Version::new(1, 1, 0)));
}

#[test]
fn less_than_is_strict() {
    assert!(!Version::new(1, 1, 0).less_than(&Version::new(1, 1, 0)));
    assert!(!Version::new(u16::MAX, u16::MAX, u32::MAX)
        .less_than(&Version::new(u16::MAX, u16::MAX, u32::MAX)));
}

#[test]
fn less_than_agrees_with_the_runtime_versions() {
    let samples = [
        (0u16, 0u16, 0u32),
        (0, 0, 1),
        (0, 1, 0),
        (1, 0, 0),
        (1, 0, u32::MAX),
        (1, 1, 0),
        (1, u16::MAX, 7),
        (2, 0, 0),
        (u16::MAX, u16::MAX, u32::MAX),
    ];
    for a in samples {
        for b in samples {
            let ours = Version::new(a.0, a.1, a.2).less_than(&Version::new(b.0, b.1, b.2));
            let theirs = openxr::Version::new(a.0, a.1, a.2) < openxr::Version::new(b.0, b.1, b.2);
            assert_eq!(ours, theirs, "{:?} < {:?}", a, b);
        }
    }
}

#[test]
fn backend_inside_the_range_is_supported() {
    assert!(supported((1, 0, 0), (1, 2, 0)).supports(&Version::new(1, 1, 0)));
}

#[test]
fn backend_below_the_minimum_is_refused() {
    assert!(!supported((1, 2, 0), (1, 3, 0)).supports(&Version::new(1, 1, 0)));
}

#[test]
fn backend_of_higher_major_is_refused() {
    assert!(!supported((1, 0, 0), (1, 5, 0)).supports(&Version::new(2, 0, 0)));
}

#[test]
fn backend_equal_to_the_minimum_is_supported() {
    assert!(supported((1, 1, 0), (1, 3, 0)).supports(&Version::new(1, 1, 0)));
}

#[test]
fn minor_and_patch_above_the_maximum_are_tolerated() {
    assert!(supported((1, 0, 0), (1, 2, 0)).supports(&Version::new(1, 3, 0)));
    assert!(supported((1, 0, 0), (1, 2, 0)).supports(&Version::new(1, 2, 77)));
}

#[test]
fn patch_below_the_minimum_is_refused() {
    assert!(!supported((1, 1, 5), (1, 3, 0)).supports(&Version::new(1, 1, 4)));
}

#[test]
fn first_unsupported_major_is_one_above_the_maximum() {
    assert_eq!(supported((1, 0, 0), (1, 3, 0)).first_unsupported_major(), 2);
    assert_eq!(supported((1, 0, 0), (u16::MAX, 0, 0)).first_unsupported_major(), 65536);
}
