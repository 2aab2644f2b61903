use xdwlan_login::portal::PortalProfile;
use xdwlan_login::resolve::{
    discover_url, find_login_url, is_login_url_exec, login_url_or_default, resolve_step,
    FetchResult, ResolveStep, DEFAULT_LOGIN_URL, MAX_ATTEMPTS,
};

fn xidian() -> PortalProfile {
    PortalProfile::xidian()
}

fn body(s: &str) -> FetchResult {
    FetchResult::Body(s.to_string())
}

fn found(step: ResolveStep) -> Option<String> {
    match step {
        ResolveStep::Found(u) => Some(u),
        _ => None,
    }
}

const PORTAL_PAGE: &str = "<html><script src=\"http://w.xidian.edu.cn/js\"></script>\
<form method=\"post\" action=\"https://w.xidian.edu.cn/srun_portal_pc.php?ac_id=8\">\
</form></html>";

#[test]
fn discovers_form_action_url() {
    assert_eq!(
        discover_url(&xidian(), &body(PORTAL_PAGE)),
        Some("https://w.xidian.edu.cn/srun_portal_pc.php?ac_id=8".to_string())
    );
}

#[test]
fn discovers_leftmost_form_action() {
    let page = "w.xidian.edu.cn action=\"https://w.xidian.edu.cn/a.html\" \
                action=\"https://w.xidian.edu.cn/b.html\"";
    assert_eq!(discover_url(&xidian(), &body(page)), Some("https://w.xidian.edu.cn/a.html".to_string()));
}

#[test]
fn no_url_without_form_action() {
    assert_eq!(discover_url(&xidian(), &body("<html>w.xidian.edu.cn</html>")), None);
    assert_eq!(discover_url(&xidian(), &body("<html>baidu</html>")), None);
    assert_eq!(discover_url(&xidian(), &FetchResult::TransportError), None);
}

#[test]
fn malformed_form_action_is_not_matched() {
    // No closing quote.
    assert_eq!(discover_url(&xidian(), &body("action=\"https://w.xidian.edu.cn/login")), None);
    // A character outside the admitted set stops the match.
    assert_eq!(discover_url(&xidian(), &body("action=\"https://w.xidian.edu.cn/lo gin\"")), None);
    // Origin alone, with no path.
    assert_eq!(discover_url(&xidian(), &body("action=\"https://w.xidian.edu.cn\"")), None);
    // A host that only starts with the portal's host.
    let page = "w.xidian.edu.cn <form action=\"https://w.xidian.edu.cn.evil.example/login\">";
    assert_eq!(discover_url(&xidian(), &body(page)), None);
    let page = "w.xidian.edu.cn action=\"https://w.xidian.edu.cnx/login\"";
    assert_eq!(discover_url(&xidian(), &body(page)), None);
    // Another origin.
    assert_eq!(discover_url(&xidian(), &body("w.xidian.edu.cn action=\"https://example.com/x\"")), None);
    // Plain HTTP is not the portal's login origin.
    assert_eq!(discover_url(&xidian(), &body("action=\"http://w.xidian.edu.cn/x\"")), None);
}

#[test]
fn first_matching_attempt_returns_url() {
    assert!(matches!(resolve_step(&xidian(), 1, &body("<html>baidu</html>")), ResolveStep::FetchAgain));
    assert!(matches!(resolve_step(&xidian(), 2, &FetchResult::TransportError), ResolveStep::FetchAgain));
    assert_eq!(
        found(resolve_step(&xidian(), 3, &body(PORTAL_PAGE))),
        Some("https://w.xidian.edu.cn/srun_portal_pc.php?ac_id=8".to_string())
    );
    // Found on the last attempt still wins over exhaustion.
    assert_eq!(
        found(resolve_step(&xidian(), MAX_ATTEMPTS, &body(PORTAL_PAGE))),
        Some("https://w.xidian.edu.cn/srun_portal_pc.php?ac_id=8".to_string())
    );
}

#[test]
fn five_failed_attempts_exhaust_and_fall_back() {
    assert_eq!(MAX_ATTEMPTS, 5);
    let attempts = [
        FetchResult::TransportError,
        body("<html>baidu</html>"),
        FetchResult::TransportError,
        body("w.xidian.edu.cn without a form"),
        FetchResult::TransportError,
    ];
    for (k, f) in attempts.iter().enumerate() {
        let step = resolve_step(&xidian(), k as u32 + 1, f);
        if k + 1 < 5 {
            assert!(matches!(step, ResolveStep::FetchAgain));
        } else {
            assert!(matches!(step, ResolveStep::Exhausted));
        }
    }
    assert_eq!(login_url_or_default(None), "https://w.xidian.edu.cn/index_8.html");
    assert_eq!(DEFAULT_LOGIN_URL, "https://w.xidian.edu.cn/index_8.html");
}

#[test]
fn discovered_url_is_kept() {
    let u = "https://w.xidian.edu.cn/login?x=1".to_string();
    assert_eq!(login_url_or_default(Some(u.clone())), u);
}

#[test]
fn look_alike_host_is_skipped_for_the_real_one() {
    let page = "w.xidian.edu.cn action=\"https://w.xidian.edu.cn.evil.example/login\" \
                action=\"https://w.xidian.edu.cn/login\"";
    assert_eq!(discover_url(&xidian(), &body(page)), Some("https://w.xidian.edu.cn/login".to_string()));
}

#[test]
fn evil_pages_exhaust_the_search() {
    let page = "<form action=\"https://w.xidian.edu.cn.evil.example/login\">";
    for k in 1..=5u32 {
        let step = resolve_step(&xidian(), k, &body(page));
        if k < 5 {
            assert!(matches!(step, ResolveStep::FetchAgain));
        } else {
            assert!(matches!(step, ResolveStep::Exhausted));
        }
    }
}

#[test]
fn login_url_shape() {
    let o = "https://w.xidian.edu.cn";
    assert!(is_login_url_exec("https://w.xidian.edu.cn/", o));
    assert!(is_login_url_exec("https://w.xidian.edu.cn/a_b-c.html?x=1&y=2", o));
    assert!(!is_login_url_exec("https://w.xidian.edu.cn", o));
    assert!(!is_login_url_exec("https://w.xidian.edu.cn.evil/x", o));
    assert!(!is_login_url_exec("https://w.xidian.edu.cn/a b", o));
    assert!(!is_login_url_exec("http://w.xidian.edu.cn/a", o));
    assert!(!is_login_url_exec("", o));
}

#[test]
fn first_login_url_among_values() {
    let values = vec![
        "/relative".to_string(),
        "https://w.xidian.edu.cn.evil/x".to_string(),
        "https://w.xidian.edu.cn/one".to_string(),
        "https://w.xidian.edu.cn/two".to_string(),
    ];
    assert_eq!(
        find_login_url(&values, "https://w.xidian.edu.cn"),
        Some("https://w.xidian.edu.cn/one".to_string())
    );
    assert_eq!(find_login_url(&values[..2].to_vec(), "https://w.xidian.edu.cn"), None);
    assert_eq!(find_login_url(&Vec::new(), "https://w.xidian.edu.cn"), None);
}

#[test]
fn discovery_at_another_portal() {
    let p = PortalProfile {
        host: "portal.example".to_string(),
        origin: "https://portal.example".to_string(),
        vendor_signature: "CaptiveOS".to_string(),
    };
    let page = body("portal.example <form action=\"https://portal.example/login?x=1\">");
    assert_eq!(discover_url(&p, &page), Some("https://portal.example/login?x=1".to_string()));
    // Another portal's form action is no login URL of this one.
    let page = body("<form action=\"https://w.xidian.edu.cn/login\">");
    assert_eq!(discover_url(&p, &page), None);
}
