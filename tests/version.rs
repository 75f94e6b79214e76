use gpgpu::{confirm_api_version, select_version, Error, Version};

#[test]
fn version_ordering_is_lexicographic() {
    let v = Version::new(1, 2, 0);
    assert!(v.is_at_most(&Version::new(1, 2, 0)));
    assert!(v.is_at_most(&Version::new(1, 2, 1)));
    assert!(v.is_at_most(&Version::new(2, 0, 0)));
    assert!(!v.is_at_most(&Version::new(1, 1, 9)));
    assert!(!Version::new(2, 0, 0).is_at_most(&Version::new(1, 9, 9)));
}

#[test]
fn select_version_defaults_to_local() {
    let local = Version::new(1, 2, 189);
    assert_eq!(select_version(None, local), Ok(local));
}

#[test]
fn select_version_accepts_older_request() {
    let local = Version::new(1, 2, 189);
    let v = Version::new(1, 1, 0);
    assert_eq!(select_version(Some(v), local), Ok(v));
    assert_eq!(select_version(Some(local), local), Ok(local));
}

#[test]
fn select_version_rejects_newer_request() {
    let local = Version::new(1, 1, 0);
    let v = Version::new(1, 2, 0);
    assert_eq!(
        select_version(Some(v), local),
        Err(Error::VersionUnavailable { requested: v, local })
    );
}

#[test]
fn confirm_api_version_without_request() {
    assert_eq!(confirm_api_version(None, None), Ok(()));
    assert_eq!(confirm_api_version(None, Some(Version::new(1, 0, 0))), Ok(()));
}

#[test]
fn confirm_api_version_compares() {
    let dev = Version::new(1, 2, 0);
    assert_eq!(confirm_api_version(Some(Version::new(1, 1, 0)), Some(dev)), Ok(()));
    assert_eq!(confirm_api_version(Some(dev), Some(dev)), Ok(()));
    let want = Version::new(1, 3, 0);
    assert_eq!(
        confirm_api_version(Some(want), Some(dev)),
        Err(Error::ApiVersionTooOld { requested: want, available: dev })
    );
}
