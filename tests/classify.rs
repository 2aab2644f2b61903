use xdwlan_login::classify::{
    classify, is_success, offline_by_body, offline_by_server, offline_by_status,
    offline_by_undecodable_body, Connectivity, ProbeOutcome, ProbeResponse,
};
use xdwlan_login::portal::PortalProfile;

fn xidian() -> PortalProfile {
    PortalProfile::xidian()
}

fn response(status: u16, server: Option<&str>, body: Option<&str>) -> ProbeOutcome {
    ProbeOutcome::Response(ProbeResponse {
        status,
        server: server.map(|s| s.to_string()),
        body: body.map(|b| b.to_string()),
    })
}

#[test]
fn transport_error_is_offline() {
    assert_eq!(classify(&xidian(), &ProbeOutcome::TransportError), Connectivity::Offline);
}

#[test]
fn non_success_status_is_offline_whatever_the_body() {
    let clean = "<html>baidu</html>";
    assert_eq!(classify(&xidian(), &response(503, Some("Apache"), Some(clean))), Connectivity::Offline);
    assert_eq!(classify(&xidian(), &response(404, None, Some(clean))), Connectivity::Offline);
    assert_eq!(classify(&xidian(), &response(302, None, Some("w.xidian.edu.cn"))), Connectivity::Offline);
    assert_eq!(classify(&xidian(), &response(199, None, Some(clean))), Connectivity::Offline);
    assert_eq!(classify(&xidian(), &response(300, None, Some(clean))), Connectivity::Offline);
}

#[test]
fn vendor_server_header_is_offline() {
    let r = response(200, Some("NetEngine Server 1.0"), Some("<html>baidu</html>"));
    assert_eq!(classify(&xidian(), &r), Connectivity::Offline);
    let r = response(200, Some("Huawei NetEngine Server"), Some("hello"));
    assert_eq!(classify(&xidian(), &r), Connectivity::Offline);
}

#[test]
fn clean_success_response_is_online() {
    let r = response(200, Some("Apache"), Some("<html>baidu</html>"));
    assert_eq!(classify(&xidian(), &r), Connectivity::Online);
    let r = response(299, None, Some(""));
    assert_eq!(classify(&xidian(), &r), Connectivity::Online);
    // A header that names the vendor only in part is no signature.
    let r = response(200, Some("NetEngine"), Some("ok"));
    assert_eq!(classify(&xidian(), &r), Connectivity::Online);
    // An unreadable header reads as empty text.
    let r = response(204, Some(""), Some("ok"));
    assert_eq!(classify(&xidian(), &r), Connectivity::Online);
}

#[test]
fn portal_host_in_body_is_offline() {
    let r = response(200, Some("Apache"), Some("<a href=\"https://w.xidian.edu.cn/\">login</a>"));
    assert_eq!(classify(&xidian(), &r), Connectivity::Offline);
    let r = response(200, None, Some("w.xidian.edu.cn"));
    assert_eq!(classify(&xidian(), &r), Connectivity::Offline);
}

#[test]
fn undecodable_body_is_offline() {
    let r = response(200, Some("Apache"), None);
    assert_eq!(classify(&xidian(), &r), Connectivity::Offline);
}

#[test]
fn success_status_bounds() {
    assert!(!is_success(199));
    assert!(is_success(200));
    assert!(is_success(250));
    assert!(is_success(299));
    assert!(!is_success(300));
    assert!(!is_success(503));
    assert!(!is_success(0));
}

#[test]
fn each_rule_alone() {
    let r = ProbeResponse {
        status: 500,
        server: Some("NetEngine Server".to_string()),
        body: Some("w.xidian.edu.cn".to_string()),
    };
    assert!(offline_by_status(&r));
    assert!(offline_by_server(&xidian(), &r));
    assert!(!offline_by_undecodable_body(&r));
    assert!(offline_by_body(&xidian(), &r));
    let r = ProbeResponse { status: 200, server: None, body: None };
    assert!(!offline_by_status(&r));
    assert!(!offline_by_server(&xidian(), &r));
    assert!(offline_by_undecodable_body(&r));
    assert!(!offline_by_body(&xidian(), &r));
    let r = ProbeResponse {
        status: 200,
        server: Some("nginx".to_string()),
        body: Some("w.xidian.edu".to_string()),
    };
    assert!(!offline_by_server(&xidian(), &r));
    assert!(!offline_by_body(&xidian(), &r));
}

#[test]
fn another_portal_profile_is_honoured() {
    let p = PortalProfile {
        host: "portal.example".to_string(),
        origin: "https://portal.example".to_string(),
        vendor_signature: "CaptiveOS".to_string(),
    };
    let r = response(200, Some("CaptiveOS/2"), Some("hello"));
    assert_eq!(classify(&p, &r), Connectivity::Offline);
    let r = response(200, Some("NetEngine Server"), Some("w.xidian.edu.cn"));
    assert_eq!(classify(&p, &r), Connectivity::Online);
    let r = response(200, None, Some("see portal.example"));
    assert_eq!(classify(&p, &r), Connectivity::Offline);
}

#[test]
fn xidian_profile_values() {
    let p = xidian();
    assert_eq!(p.host, "w.xidian.edu.cn");
    assert_eq!(p.origin, "https://w.xidian.edu.cn");
    assert_eq!(p.vendor_signature, "NetEngine Server");
}
