use vstd::prelude::*;

use crate::portal::PortalProfile;
use crate::text::{has_substring, str_contains};

verus! {

/// The connectivity verdict for one probe.
#[derive(Clone, Copy, Debug, PartialEq, Eq, Structural)]
pub enum Connectivity {
    Online,
    Offline,
}

/// What was read from one HTTP response to a connectivity probe.
pub struct ProbeResponse {
    /// The numeric HTTP status code.
    pub status: u16,
    /// The `Server` header as text, if the response carried one (bytes that
    /// are not UTF-8 are replaced, the rest of the value is kept).
    pub server: Option<String>,
    /// The body decoded as text, or `None` when it could not be decoded.
    pub body: Option<String>,
}

/// The result of one HTTP probe.
pub enum ProbeOutcome {
    /// DNS, connect, timeout or TLS failure: no response at all.
    TransportError,
    Response(ProbeResponse),
}

/// Whether an HTTP status code lies in the success class (200 to 299).
pub open spec fn is_success_spec(code: u16) -> bool {
    200 <= code && code <= 299
}

/// The `Server` header is present and names the portal's vendor.
pub open spec fn server_has_signature(p: PortalProfile, r: ProbeResponse) -> bool {
    match r.server {
        Some(s) => has_substring(s@, p.vendor_signature@),
        None => false,
    }
}

/// The decoded body mentions the portal's host name.
pub open spec fn body_has_host(p: PortalProfile, r: ProbeResponse) -> bool {
    match r.body {
        Some(b) => has_substring(b@, p.host@),
        None => false,
    }
}

/// The ordered rules: any one of them marks a response as coming from the
/// portal rather than from the open internet.
pub open spec fn response_offline(p: PortalProfile, r: ProbeResponse) -> bool {
    ||| !is_success_spec(r.status)
    ||| server_has_signature(p, r)
    ||| r.body is None
    ||| body_has_host(p, r)
}

pub open spec fn classify_spec(p: PortalProfile, o: ProbeOutcome) -> Connectivity {
    match o {
        ProbeOutcome::TransportError => Connectivity::Offline,
        ProbeOutcome::Response(r) => if response_offline(p, r) {
            Connectivity::Offline
        } else {
            Connectivity::Online
        },
    }
}

/// Tells whether an HTTP status code is a success (2xx) status.
pub fn is_success(code: u16) -> (r: bool)
    ensures
        r == is_success_spec(code),
{
    200 <= code && code <= 299
}

/// Rule: a status outside 2xx is anomalous, and taken as offline.
pub fn offline_by_status(r: &ProbeResponse) -> (b: bool)
    ensures
        b == !is_success_spec(r.status),
{
    !is_success(r.status)
}

/// Rule: a `Server` header carrying the vendor's signature came from the portal.
pub fn offline_by_server(p: &PortalProfile, r: &ProbeResponse) -> (b: bool)
    ensures
        b == server_has_signature(*p, *r),
{
    match &r.server {
        Some(s) => str_contains(s.as_str(), p.vendor_signature.as_str()),
        None => false,
    }
}

/// Rule: a body that cannot be decoded as text cannot prove that we are online.
pub fn offline_by_undecodable_body(r: &ProbeResponse) -> (b: bool)
    ensures
        b == (r.body is None),
{
    r.body.is_none()
}

/// Rule: a body that mentions the portal's host was injected by the portal.
pub fn offline_by_body(p: &PortalProfile, r: &ProbeResponse) -> (b: bool)
    ensures
        b == body_has_host(*p, *r),
{
    match &r.body {
        Some(text) => str_contains(text.as_str(), p.host.as_str()),
        None => false,
    }
}

/// Classifies one probe outcome by applying the rules in order; the first
/// rule that fires decides `Offline`, and a response that passes all of them
/// is `Online`.
pub fn classify(p: &PortalProfile, o: &ProbeOutcome) -> (c: Connectivity)
    ensures
        c == classify_spec(*p, *o),
{
    match o {
        ProbeOutcome::TransportError => Connectivity::Offline,
        ProbeOutcome::Response(r) => {
            if offline_by_status(r) {
                Connectivity::Offline
            } else if offline_by_server(p, r) {
                Connectivity::Offline
            } else if offline_by_undecodable_body(r) {
                Connectivity::Offline
            } else if offline_by_body(p, r) {
                Connectivity::Offline
            } else {
                Connectivity::Online
            }
        },
    }
}

/// A response whose status is not 2xx is classified offline, whatever its
/// headers and body.
pub proof fn lemma_non_success_is_offline(p: PortalProfile, r: ProbeResponse)
    requires
        !is_success_spec(r.status),
    ensures
        classify_spec(p, ProbeOutcome::Response(r)) == Connectivity::Offline,
{
}

/// A response whose `Server` header carries the vendor's signature is
/// classified offline, even with a 2xx status and a body without the
/// portal's host.
pub proof fn lemma_vendor_server_is_offline(p: PortalProfile, r: ProbeResponse)
    requires
        server_has_signature(p, r),
    ensures
        classify_spec(p, ProbeOutcome::Response(r)) == Connectivity::Offline,
{
}

/// A 2xx response without the vendor's signature in its `Server` header,
/// whose decoded body does not mention the portal's host, is classified
/// online.
pub proof fn lemma_clean_response_is_online(p: PortalProfile, r: ProbeResponse)
    requires
        is_success_spec(r.status),
        !server_has_signature(p, r),
        r.body is Some,
        !has_substring(r.body->Some_0@, p.host@),
    ensures
        classify_spec(p, ProbeOutcome::Response(r)) == Connectivity::Online,
{
}

/// A 2xx response whose body mentions the portal's host is classified
/// offline.
pub proof fn lemma_portal_body_is_offline(p: PortalProfile, r: ProbeResponse)
    requires
        is_success_spec(r.status),
        r.body is Some,
        has_substring(r.body->Some_0@, p.host@),
    ensures
        classify_spec(p, ProbeOutcome::Response(r)) == Connectivity::Offline,
{
}

} // verus!
