//! SBSA SMBIOS platform component.

use vstd::prelude::*;

verus! {

/// SBSA platform SMBIOS record provider.
///
/// The component itself carries no state: the SMBIOS records it publishes are
/// fixed platform-descriptor data, assembled and handed to the firmware's
/// SMBIOS service by the platform glue around this crate.
pub struct SbsaSmbiosPlatform;

impl SbsaSmbiosPlatform {
    /// Creates a new instance.
    pub fn new() -> (platform: SbsaSmbiosPlatform)
        ensures
            platform == (SbsaSmbiosPlatform {}),
    {
        SbsaSmbiosPlatform {}
    }
}

impl Default for SbsaSmbiosPlatform {
    fn default() -> (platform: SbsaSmbiosPlatform)
        ensures
            platform == (SbsaSmbiosPlatform {}),
    {
        SbsaSmbiosPlatform {}
    }
}

} // verus!
