use oci_tester::target::{
    credentials_from_userpass, image_reference, parse_reg, parse_userpass, prepare_push,
    prepare_target, push_image_reference, ConfigError, Credentials, TransportMode,
};

#[test]
fn parse_target_http_with_port() {
    let (host, mode) = parse_reg("http://localhost:6000").unwrap();
    assert_eq!(host, "localhost:6000");
    assert_eq!(mode, TransportMode::Plaintext);
}

#[test]
fn parse_target_ftp_is_refused() {
    match parse_reg("ftp://x") {
        Err(ConfigError::UnknownProtocol(scheme)) => assert_eq!(scheme, "ftp"),
        other => panic!("unexpected: {:?}", other),
    }
}

#[test]
fn parse_target_https_without_port() {
    let (host, mode) = parse_reg("https://index.docker.io").unwrap();
    assert_eq!(host, "index.docker.io");
    assert_eq!(mode, TransportMode::Tls);
}

#[test]
fn parse_target_default_port_is_dropped() {
    let (host, mode) = parse_reg("https://registry.example:443").unwrap();
    assert_eq!(host, "registry.example");
    assert_eq!(mode, TransportMode::Tls);
}

#[test]
fn parse_target_other_port_is_kept() {
    let (host, _) = parse_reg("https://registry.example:8443/v2").unwrap();
    assert_eq!(host, "registry.example:8443");
}

#[test]
fn parse_target_not_a_url() {
    assert!(matches!(parse_reg("localhost 6000"), Err(ConfigError::InvalidUrl)));
}

#[test]
fn parse_target_without_host() {
    assert!(matches!(parse_reg("unix:/run/registry.sock"), Err(ConfigError::MissingHost)));
}

#[test]
fn userpass_two_fields() {
    assert_eq!(parse_userpass("user:secret"), ("user".to_string(), "secret".to_string()));
}

#[test]
fn userpass_password_keeps_colons() {
    assert_eq!(parse_userpass("alice:pa:ss"), ("alice".to_string(), "pa:ss".to_string()));
}

#[test]
fn userpass_empty_fields() {
    assert_eq!(parse_userpass(":"), (String::new(), String::new()));
}

#[test]
fn credentials_default_to_anonymous() {
    assert!(matches!(credentials_from_userpass(None), Ok(Credentials::Anonymous)));
}

#[test]
fn credentials_basic() {
    match credentials_from_userpass(Some("admin:pw")) {
        Ok(Credentials::Basic(u, p)) => {
            assert_eq!(u, "admin");
            assert_eq!(p, "pw");
        }
        other => panic!("unexpected: {:?}", other),
    }
}

#[test]
fn credentials_without_colon_are_refused() {
    assert!(matches!(
        credentials_from_userpass(Some("admin")),
        Err(ConfigError::MalformedCredentials)
    ));
}

#[test]
fn reference_on_local_registry() {
    let r = image_reference("localhost:6000", "alpine:3.19").unwrap();
    assert_eq!(r.registry, "localhost:6000");
    assert_eq!(r.repository, "alpine");
    assert_eq!(r.tag.as_deref(), Some("3.19"));
    assert_eq!(r.digest, None);
}

#[test]
fn reference_without_tag_gets_latest() {
    let r = image_reference("localhost:6000", "test/this").unwrap();
    assert_eq!(r.repository, "test/this");
    assert_eq!(r.tag.as_deref(), Some("latest"));
}

#[test]
fn reference_malformed() {
    assert!(matches!(
        image_reference("localhost:6000", "Upper/Case"),
        Err(ConfigError::InvalidReference)
    ));
}

#[test]
fn push_reference_embeds_index() {
    let r = push_image_reference("localhost:6000", "test", "this", 42, "latest").unwrap();
    assert_eq!(r.registry, "localhost:6000");
    assert_eq!(r.repository, "test/this-42");
    assert_eq!(r.tag.as_deref(), Some("latest"));
}

#[test]
fn prepare_push_one_reference_per_image() {
    let setup = prepare_push("http://localhost:6000", None, 3, "ns", "img", "v1").unwrap();
    assert_eq!(setup.mode, TransportMode::Plaintext);
    assert_eq!(setup.references.len(), 3);
    for (i, r) in setup.references.iter().enumerate() {
        assert_eq!(r.repository, format!("ns/img-{i}"));
        assert_eq!(r.tag.as_deref(), Some("v1"));
    }
}

#[test]
fn prepare_push_zero_images() {
    let setup = prepare_push("http://localhost:6000", None, 0, "ns", "img", "v1").unwrap();
    assert!(setup.references.is_empty());
}

#[test]
fn prepare_push_bad_tag() {
    assert!(matches!(
        prepare_push("http://localhost:6000", None, 2, "ns", "img", "bad tag"),
        Err(ConfigError::InvalidReference)
    ));
}

#[test]
fn prepare_push_bad_scheme_comes_first() {
    assert!(matches!(
        prepare_push("ftp://localhost", Some("nocolon"), 1, "ns", "img", "v1"),
        Err(ConfigError::UnknownProtocol(_))
    ));
}

#[test]
fn prepare_target_pull() {
    let t = prepare_target("https://index.docker.io", Some("u:p"), "alpine:latest").unwrap();
    assert_eq!(t.mode, TransportMode::Tls);
    assert_eq!(t.reference.registry, "docker.io");
    assert_eq!(t.reference.repository, "library/alpine");
    assert!(matches!(t.credentials, Credentials::Basic(_, _)));
}

#[test]
fn prepare_target_bad_credentials() {
    assert!(matches!(
        prepare_target("http://localhost:6000", Some("nocolon"), "alpine"),
        Err(ConfigError::MalformedCredentials)
    ));
}
