//! WiFi credentials of the device and the check that they were filled in.

use vstd::prelude::*;
use crate::text::str_equal;

verus! {

/// WiFi network name (development value).
pub const WIFI_SSID: &'static str = "NYHC!";

/// WiFi password (development value).
pub const WIFI_PASSWORD: &'static str = "335288888";

/// Placeholder SSID of an unconfigured build.
pub const PLACEHOLDER_SSID: &'static str = "YOUR_WIFI_SSID";

/// Whether `ssid` is a real network name: not empty and not the placeholder.
pub open spec fn ssid_configured(ssid: Seq<char>) -> bool {
    ssid.len() > 0 && ssid != PLACEHOLDER_SSID@
}

/// Whether `ssid` holds a real network name.
pub fn ssid_is_configured(ssid: &str) -> (configured: bool)
    ensures
        configured == ssid_configured(ssid@),
{
    !ssid.is_empty() && !str_equal(ssid, PLACEHOLDER_SSID)
}

/// Check whether WiFi credentials are configured.
pub fn is_configured() -> (configured: bool)
    ensures
        configured == ssid_configured(WIFI_SSID@),
{
    ssid_is_configured(WIFI_SSID)
}

} // verus!
