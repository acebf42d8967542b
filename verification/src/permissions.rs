//! System-permission checks the shell consults before a call: screen
//! recording, accessibility (input control) and microphone access.
//!
//! On the platforms modeled here no native permission prompt exists, so
//! every permission reports granted; the native checks of the platforms
//! that have them live outside the library, behind the same names.

use vstd::prelude::*;

verus! {

/// The platform's permission checks.
pub struct PlatformPermissions;

impl PlatformPermissions {
    /// Whether screen capture is permitted; granted where the OS has no
    /// screen-recording prompt.
    pub fn screenshare() -> (r: bool)
        ensures
            r,
    {
        true
    }

    /// Whether input control is permitted; granted where the OS has no
    /// accessibility prompt.
    pub fn accessibility() -> (r: bool)
        ensures
            r,
    {
        true
    }

    /// Whether microphone access is permitted; granted where the OS has
    /// no microphone prompt.
    pub fn microphone() -> (r: bool)
        ensures
            r,
    {
        true
    }
}

/// Whether screen sharing is permitted.
pub fn screenshare() -> (r: bool)
    ensures
        r,
{
    PlatformPermissions::screenshare()
}

/// Whether accessibility control is permitted.
pub fn accessibility() -> (r: bool)
    ensures
        r,
{
    PlatformPermissions::accessibility()
}

/// Whether microphone access is permitted.
pub fn microphone() -> (r: bool)
    ensures
        r,
{
    PlatformPermissions::microphone()
}

/// Whether any required permission is missing: true where at least one
/// of the three checks fails. With every check granted on this platform,
/// nothing is ever missing.
pub fn has_ungranted_permissions() -> (r: bool)
    ensures
        !r,
{
    !screenshare() || !accessibility() || !microphone()
}

} // verus!
