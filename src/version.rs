use vstd::prelude::*;

verus! {

/// A Vulkan API version, ordered by major, then minor, then patch number.
#[derive(Clone, Copy, Debug, PartialEq, Eq, Structural)]
pub struct Version {
    pub major: u32,
    pub minor: u32,
    pub patch: u32,
}

/// `a` is older than or equal to `b`, comparing lexicographically.
pub open spec fn version_le(a: Version, b: Version) -> bool {
    ||| a.major < b.major
    ||| (a.major == b.major && a.minor < b.minor)
    ||| (a.major == b.major && a.minor == b.minor && a.patch <= b.patch)
}

impl Version {
    pub fn new(major: u32, minor: u32, patch: u32) -> (r: Version)
        ensures
            r == (Version { major, minor, patch }),
    {
        Version { major, minor, patch }
    }

    /// Whether `self` is older than or equal to `other`.
    pub fn is_at_most(&self, other: &Version) -> (r: bool)
        ensures
            r == version_le(*self, *other),
    {
        if self.major != other.major {
            self.major < other.major
        } else if self.minor != other.minor {
            self.minor < other.minor
        } else {
            self.patch <= other.patch
        }
    }
}

/// Failures while negotiating an instance, a device or a swapchain.
#[derive(Clone, Copy, Debug, PartialEq, Eq, Structural)]
pub enum Error {
    /// The requested instance version is newer than what the local driver offers.
    VersionUnavailable { requested: Version, local: Version },
    /// The physical device implements an older API version than the one requested.
    ApiVersionTooOld { requested: Version, available: Version },
    /// A swapchain was asked for, but no surface was created.
    SurfaceNotEnabled,
    /// The surface reports no supported image format.
    NoSurfaceFormat,
}

/// Picks the instance version: the requested one when the local driver
/// supports it, the driver's own version when none is requested.
pub fn select_version(requested: Option<Version>, local: Version) -> (r: Result<Version, Error>)
    ensures
        requested is None ==> r == Ok::<Version, Error>(local),
        requested matches Some(v) ==> {
            &&& version_le(v, local) ==> r == Ok::<Version, Error>(v)
            &&& !version_le(v, local) ==> r == Err::<Version, Error>(
                Error::VersionUnavailable { requested: v, local },
            )
        },
{
    match requested {
        Some(v) => {
            if v.is_at_most(&local) {
                Ok(v)
            } else {
                Err(Error::VersionUnavailable { requested: v, local })
            }
        },
        None => Ok(local),
    }
}

/// Checks a requested API version against what a physical device implements.
/// With no request every device passes.
pub fn confirm_api_version(requested: Option<Version>, available: Option<Version>) -> (r: Result<
    (),
    Error,
>)
    requires
        requested is Some ==> available is Some,
    ensures
        requested is None ==> r is Ok,
        requested matches Some(v) ==> {
            &&& version_le(v, available->0) ==> r is Ok
            &&& !version_le(v, available->0) ==> r == Err::<(), Error>(
                Error::ApiVersionTooOld { requested: v, available: available->0 },
            )
        },
{
    match requested {
        Some(v) => {
            let have = available.unwrap();
            if v.is_at_most(&have) {
                Ok(())
            } else {
                Err(Error::ApiVersionTooOld { requested: v, available: have })
            }
        },
        None => Ok(()),
    }
}

} // verus!
