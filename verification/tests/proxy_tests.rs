use spacebot_desktop::get_proxy_port;
use spacebot_desktop::proxy::{
    body_unreadable, forwarded_header_indices, is_hop_by_hop, login_failed, login_succeeded,
    login_url_for, needs_umbrel_login, proxy_step, resolve_target, retry_failed, send_failed,
    should_forward_header, should_send_body, umbrel_login_url, ProxyAction, ProxyEvent, ProxyPhase,
    RedirectLocation,
};
use spacebot_desktop::text::encode_component;

#[test]
fn proxy_port() {
    assert_eq!(get_proxy_port(), 19777);
}

#[test]
fn hop_by_hop_names() {
    for n in [
        "host", "connection", "keep-alive", "proxy-authenticate", "proxy-authorization", "te", "trailers",
        "transfer-encoding", "upgrade",
    ] {
        assert!(is_hop_by_hop(n), "{n}");
    }
    assert!(!is_hop_by_hop("content-type"));
    assert!(!is_hop_by_hop("Host"));
    assert!(!is_hop_by_hop("cookie"));
    assert!(!is_hop_by_hop(""));
}

#[test]
fn forwarding_lowercases_names() {
    assert!(!should_forward_header("Connection"));
    assert!(!should_forward_header("TRANSFER-ENCODING"));
    assert!(should_forward_header("Content-Type"));
    assert!(should_forward_header("set-cookie"));
}

#[test]
fn header_indices_skip_hop_by_hop() {
    let names: Vec<String> = ["accept", "Host", "cookie", "upgrade", "x-a", "Keep-Alive"]
        .iter()
        .map(|s| s.to_string())
        .collect();
    assert_eq!(forwarded_header_indices(&names), vec![0, 2, 4]);
    assert_eq!(forwarded_header_indices(&Vec::new()), Vec::<usize>::new());
}

#[test]
fn body_sent_when_present_or_method_requires() {
    assert!(should_send_body(false, "GET"));
    assert!(!should_send_body(true, "GET"));
    assert!(!should_send_body(true, "DELETE"));
    assert!(should_send_body(true, "POST"));
    assert!(should_send_body(true, "PUT"));
    assert!(should_send_body(true, "PATCH"));
    assert!(!should_send_body(true, "post"));
}

#[test]
fn target_is_joined_without_doubled_slash() {
    assert_eq!(
        resolve_target("http://umbrel.local:19898/", Some("/api/health?x=1")).ok(),
        Some("http://umbrel.local:19898/api/health?x=1".to_string())
    );
    assert_eq!(
        resolve_target("http://h///", Some("/a")).ok(),
        Some("http://h/a".to_string())
    );
    assert_eq!(resolve_target("http://h", None).ok(), Some("http://h/".to_string()));
    assert_eq!(resolve_target("///", Some("/a")).ok(), Some("/a".to_string()));
}

#[test]
fn empty_target_is_bad_gateway() {
    let r = resolve_target("", Some("/a"));
    match r {
        Err(reply) => {
            assert_eq!(reply.status, 502);
            assert_eq!(reply.message, "Proxy target not configured");
        }
        Ok(_) => panic!("expected an error reply"),
    }
}

#[test]
fn error_replies() {
    let r = body_unreadable();
    assert_eq!((r.status, r.message.as_str()), (400, "Failed to read request body"));
    let r = send_failed("connection refused");
    assert_eq!((r.status, r.message.as_str()), (502, "Proxy error: connection refused"));
    let r = login_failed();
    assert_eq!((r.status, r.message.as_str()), (502, "Umbrel authentication failed"));
    let r = retry_failed("timeout");
    assert_eq!((r.status, r.message.as_str()), (502, "Retry failed: timeout"));
}

#[test]
fn umbrel_redirect_detection() {
    let loc = Some("http://100.122.110.56:2000/?app=spacebot");
    assert!(needs_umbrel_login(302, loc, "pw"));
    assert!(needs_umbrel_login(303, loc, "pw"));
    assert!(!needs_umbrel_login(301, loc, "pw"));
    assert!(!needs_umbrel_login(307, loc, "pw"));
    assert!(!needs_umbrel_login(302, loc, ""));
    assert!(!needs_umbrel_login(302, None, "pw"));
    assert!(!needs_umbrel_login(302, Some("http://example.com/login"), "pw"));
    assert!(needs_umbrel_login(302, Some(":2000"), "pw"));
}

#[test]
fn login_status() {
    assert!(login_succeeded(200));
    assert!(login_succeeded(204));
    assert!(login_succeeded(299));
    assert!(!login_succeeded(199));
    assert!(!login_succeeded(300));
    assert!(!login_succeeded(401));
}

#[test]
fn login_url_from_redirect() {
    assert_eq!(
        umbrel_login_url("http://100.64.0.7:2000/?origin=http%3A%2F%2Fumbrel.local&app=spacebot&path=%2Fapi"),
        Some("http://100.64.0.7:2000/v1/account/login?origin=http%3A%2F%2Fumbrel.local&app=spacebot&path=%2Fapi".to_string())
    );
}

#[test]
fn login_url_defaults() {
    assert_eq!(
        umbrel_login_url("http://umbrel.local:2000/"),
        Some("http://umbrel.local:2000/v1/account/login?origin=host&app=spacebot&path=%2F".to_string())
    );
    assert_eq!(
        umbrel_login_url("mailto:someone@example.com"),
        Some("http://100.122.110.56:2000/v1/account/login?origin=host&app=spacebot&path=%2F".to_string())
    );
}

#[test]
fn login_url_first_value_wins() {
    assert_eq!(
        umbrel_login_url("http://h:2000/?app=a&app=b&path=%2Fp"),
        Some("http://h:2000/v1/account/login?origin=host&app=a&path=%2Fp".to_string())
    );
}

#[test]
fn login_url_refuses_non_urls() {
    assert_eq!(umbrel_login_url("not a url"), None);
    assert_eq!(umbrel_login_url(""), None);
    assert_eq!(umbrel_login_url("/relative/path"), None);
}

#[test]
fn login_url_for_parts() {
    let parts = RedirectLocation {
        host: Some("10.0.0.1".to_string()),
        query: vec![("path".to_string(), "/x".to_string()), ("origin".to_string(), "o".to_string())],
    };
    assert_eq!(login_url_for(&parts), "http://10.0.0.1:2000/v1/account/login?origin=o&app=spacebot&path=%2Fx");
}

#[test]
fn login_values_are_percent_encoded() {
    assert_eq!(
        umbrel_login_url("http://h:2000/?path=%2Fa%26b%3Dc&app=my+app&origin=%C3%A9t%C3%A9"),
        Some("http://h:2000/v1/account/login?origin=%C3%A9t%C3%A9&app=my%20app&path=%2Fa%26b%3Dc".to_string())
    );
}

#[test]
fn encode_component_matches_encode_uri_component() {
    assert_eq!(encode_component(""), "");
    assert_eq!(encode_component("AZaz09-_.!~*'()"), "AZaz09-_.!~*'()");
    assert_eq!(encode_component("/a&b=c d"), "%2Fa%26b%3Dc%20d");
    assert_eq!(encode_component("#+%?"), "%23%2B%25%3F");
    assert_eq!(encode_component("é€"), "%C3%A9%E2%82%AC");
}

fn reply_of(a: ProxyAction) -> (u16, String) {
    match a {
        ProxyAction::Reply(r) => (r.status, r.message),
        _ => panic!("expected a reply"),
    }
}

#[test]
fn step_passes_back_plain_answers() {
    let (p, a) = proxy_step(ProxyPhase::FirstSend, "pw", ProxyEvent::Answered { status: 200, location: None });
    assert_eq!(p, ProxyPhase::Finished);
    assert!(matches!(a, ProxyAction::PassBack));
    let (_, a) = proxy_step(
        ProxyPhase::FirstSend,
        "",
        ProxyEvent::Answered { status: 302, location: Some("http://h:2000/".to_string()) },
    );
    assert!(matches!(a, ProxyAction::PassBack));
}

#[test]
fn step_logs_in_resends_and_passes_back() {
    let (p, a) = proxy_step(
        ProxyPhase::FirstSend,
        "pw",
        ProxyEvent::Answered { status: 302, location: Some("http://h:2000/?app=spacebot".to_string()) },
    );
    assert_eq!(p, ProxyPhase::LoggingIn);
    match a {
        ProxyAction::LogIn { url } => {
            assert_eq!(url, "http://h:2000/v1/account/login?origin=host&app=spacebot&path=%2F")
        }
        _ => panic!("expected a login"),
    }
    let (p, a) = proxy_step(p, "pw", ProxyEvent::LoggedIn { ok: true });
    assert_eq!(p, ProxyPhase::Resending);
    assert!(matches!(a, ProxyAction::Resend));
    let (p, a) = proxy_step(p, "pw", ProxyEvent::Resent);
    assert_eq!(p, ProxyPhase::Finished);
    assert!(matches!(a, ProxyAction::PassBack));
}

#[test]
fn step_failures_reply_bad_gateway() {
    let (_, a) = proxy_step(ProxyPhase::FirstSend, "pw", ProxyEvent::SendFailed { error: "refused".to_string() });
    assert_eq!(reply_of(a), (502, "Proxy error: refused".to_string()));
    let (_, a) = proxy_step(ProxyPhase::LoggingIn, "pw", ProxyEvent::LoggedIn { ok: false });
    assert_eq!(reply_of(a), (502, "Umbrel authentication failed".to_string()));
    let (_, a) = proxy_step(ProxyPhase::Resending, "pw", ProxyEvent::ResendFailed { error: "reset".to_string() });
    assert_eq!(reply_of(a), (502, "Retry failed: reset".to_string()));
    let (p, a) = proxy_step(
        ProxyPhase::FirstSend,
        "pw",
        ProxyEvent::Answered { status: 303, location: Some(":2000".to_string()) },
    );
    assert_eq!(p, ProxyPhase::Finished);
    assert_eq!(reply_of(a), (502, "Umbrel authentication failed".to_string()));
}
