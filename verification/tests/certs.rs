use deport::certs::{
    cert_hosts, is_cert_expired, is_cert_strong, unix_secs_from_diff, Curve, KeyInfo,
    SignatureAlgorithm, CA_COMMON_NAME, EXPIRY_BUFFER_MS,
};
use deport::proxy::{
    forward_plan, listen_address, must_generate_ca, proxy_running, sni_domain, ConnectProbe,
    ForwardPlan,
};
use deport::routes::{Route, RouteManager};

#[test]
fn hosts_of_certificates() {
    assert_eq!(cert_hosts("web.localhost"), vec!["web.localhost".to_string()]);
    assert_eq!(cert_hosts("a.b.localhost"), vec!["a.b.localhost".to_string(), "*.b.localhost".to_string()]);
    assert_eq!(cert_hosts("localhost"), vec!["localhost".to_string()]);
    assert_eq!(CA_COMMON_NAME, "DEPORT LOCAL CA");
}

#[test]
fn strength_rules() {
    assert!(is_cert_strong(SignatureAlgorithm::Sha256WithRsa, KeyInfo::Rsa { size_bytes: 256 }));
    assert!(!is_cert_strong(SignatureAlgorithm::Sha256WithRsa, KeyInfo::Rsa { size_bytes: 128 }));
    assert!(is_cert_strong(SignatureAlgorithm::EcdsaWithSha256, KeyInfo::Ec { curve: Some(Curve::Prime256v1) }));
    assert!(!is_cert_strong(SignatureAlgorithm::EcdsaWithSha256, KeyInfo::Ec { curve: None }));
    assert!(!is_cert_strong(SignatureAlgorithm::Other, KeyInfo::Rsa { size_bytes: 512 }));
    assert!(!is_cert_strong(SignatureAlgorithm::Sha512WithRsa, KeyInfo::Unreadable));
}

#[test]
fn expiry_buffer() {
    let week = EXPIRY_BUFFER_MS / 1000;
    assert!(is_cert_expired(None, 0, 0));
    assert!(is_cert_expired(Some(100), 200, 0));
    assert!(is_cert_expired(Some(1000 + week - 1), 1000, 0));
    assert!(!is_cert_expired(Some(1000 + week), 1000, 0));
    assert!(is_cert_expired(Some(1000 + week), 1000, 1));
    assert_eq!(unix_secs_from_diff(2, 5), 2 * 86400 + 5);
}

#[test]
fn forwarding() {
    let mut routes = RouteManager::new();
    routes.insert("web.localhost".to_string(), Route { port: 3000, pid: 1 });
    match forward_plan(&routes, Some("web.localhost"), None, Some("10.0.0.2"), Some("/a?b=1")) {
        ForwardPlan::Forward { uri, forwarded_for } => {
            assert_eq!(uri, "http://127.0.0.1:3000/a?b=1");
            assert_eq!(forwarded_for, "10.0.0.2");
        }
        ForwardPlan::NotFound => panic!("route expected"),
    }
    match forward_plan(&routes, Some("web.localhost"), Some("1.2.3.4"), None, None) {
        ForwardPlan::Forward { uri, forwarded_for } => {
            assert_eq!(uri, "http://127.0.0.1:3000");
            assert_eq!(forwarded_for, "1.2.3.4");
        }
        ForwardPlan::NotFound => panic!("route expected"),
    }
    match forward_plan(&routes, Some("web.localhost"), None, None, None) {
        ForwardPlan::Forward { forwarded_for, .. } => assert_eq!(forwarded_for, "127.0.0.1"),
        ForwardPlan::NotFound => panic!("route expected"),
    }
    assert!(matches!(forward_plan(&routes, Some("x.localhost"), None, None, None), ForwardPlan::NotFound));
    assert!(matches!(forward_plan(&routes, None, None, None, None), ForwardPlan::NotFound));
}

#[test]
fn proxy_bits() {
    assert!(proxy_running(ConnectProbe::Connected));
    assert!(proxy_running(ConnectProbe::PermissionDenied));
    assert!(!proxy_running(ConnectProbe::Failed));
    assert_eq!(listen_address(1999), "127.0.0.1:1999");
    assert_eq!(sni_domain(Some("web.localhost")), "web.localhost");
    assert_eq!(sni_domain(None), "unknown");
    assert!(must_generate_ca(true, false));
    assert!(!must_generate_ca(true, true));
}
