use vstd::prelude::*;
use vstd::string::StringExecFns;

verus! {

/// Substring of the `Server` header that the Xidian portal's gateway sends.
pub const XIDIAN_VENDOR_SIGNATURE: &'static str = "NetEngine Server";

/// Host name of the Xidian portal, which it injects into pages it serves.
pub const XIDIAN_HOST: &'static str = "w.xidian.edu.cn";

/// The HTTPS origin of the Xidian portal's login pages.
pub const XIDIAN_ORIGIN: &'static str = "https://w.xidian.edu.cn";

/// What identifies one captive portal: the detection and discovery rules
/// read their signatures from here, so another portal is another value.
pub struct PortalProfile {
    /// Host name that the portal injects into the pages it serves.
    pub host: String,
    /// HTTPS origin (scheme and host, no trailing slash) of its login pages.
    pub origin: String,
    /// Substring of the `Server` header sent by the portal's gateway.
    pub vendor_signature: String,
}

impl PortalProfile {
    /// The profile of the Xidian university WLAN portal.
    pub fn xidian() -> (p: PortalProfile)
        ensures
            p.host@ == XIDIAN_HOST@,
            p.origin@ == XIDIAN_ORIGIN@,
            p.vendor_signature@ == XIDIAN_VENDOR_SIGNATURE@,
    {
        PortalProfile {
            host: String::from_str(XIDIAN_HOST),
            origin: String::from_str(XIDIAN_ORIGIN),
            vendor_signature: String::from_str(XIDIAN_VENDOR_SIGNATURE),
        }
    }
}

} // verus!
