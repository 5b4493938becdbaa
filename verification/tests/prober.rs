use roura_desktop::prober::{
    build_version_url, get_backend_version, version_of, version_of_document, ProbeError, Reply,
    PROBE_TIMEOUT_SECS,
};

fn answered(status: u16, body: &str) -> Reply {
    Reply::Answered { status, body: body.as_bytes().to_vec() }
}

#[test]
fn version_url_names_loopback_and_port() {
    assert_eq!(build_version_url(8765), "http://127.0.0.1:8765/version");
    assert_eq!(build_version_url(0), "http://127.0.0.1:0/version");
    assert_eq!(build_version_url(65535), "http://127.0.0.1:65535/version");
}

#[test]
fn probe_timeout_is_two_seconds() {
    assert_eq!(PROBE_TIMEOUT_SECS, 2);
}

#[test]
fn version_is_read_from_a_successful_answer() {
    let reply = answered(200, r#"{"version": "1.4.2", "name": "agent"}"#);
    assert_eq!(get_backend_version(&reply), Ok("1.4.2".to_string()));
    assert_eq!(version_of(&reply), Some("1.4.2".to_string()));
}

#[test]
fn unreachable_endpoint_yields_no_version() {
    let reply = Reply::Unreachable { cause: "connection refused".to_string() };
    assert_eq!(
        get_backend_version(&reply),
        Err(ProbeError::Unreachable("connection refused".to_string()))
    );
    assert_eq!(version_of(&reply), None);
}

#[test]
fn non_success_status_yields_no_version() {
    let reply = answered(500, r#"{"version": "1.4.2"}"#);
    assert_eq!(get_backend_version(&reply), Err(ProbeError::Rejected(500)));
    assert_eq!(version_of(&reply), None);
    assert_eq!(get_backend_version(&answered(199, "{}")), Err(ProbeError::Rejected(199)));
    assert_eq!(get_backend_version(&answered(300, "{}")), Err(ProbeError::Rejected(300)));
    assert_eq!(
        get_backend_version(&answered(299, r#"{"version":"x"}"#)),
        Ok("x".to_string())
    );
}

#[test]
fn malformed_body_yields_no_version() {
    let reply = answered(200, "not json");
    assert!(matches!(get_backend_version(&reply), Err(ProbeError::Malformed(_))));
    assert_eq!(version_of(&reply), None);
    assert!(matches!(get_backend_version(&answered(200, "")), Err(ProbeError::Malformed(_))));
}

#[test]
fn missing_or_mistyped_version_yields_no_version() {
    assert_eq!(
        get_backend_version(&answered(200, r#"{"name": "agent"}"#)),
        Err(ProbeError::MissingVersion)
    );
    assert_eq!(
        get_backend_version(&answered(200, r#"{"version": 3}"#)),
        Err(ProbeError::MissingVersion)
    );
    assert_eq!(
        get_backend_version(&answered(200, r#"["version", "1.0"]"#)),
        Err(ProbeError::MissingVersion)
    );
    assert_eq!(version_of(&answered(200, r#"{"version": null}"#)), None);
}

#[test]
fn version_of_document_reads_the_member() {
    let document: serde_json::Value =
        serde_json::from_str(r#"{"version": "0.9.0-beta"}"#).unwrap();
    assert_eq!(version_of_document(&document), Ok("0.9.0-beta".to_string()));
    let nested: serde_json::Value =
        serde_json::from_str(r#"{"info": {"version": "1"}}"#).unwrap();
    assert_eq!(version_of_document(&nested), Err(ProbeError::MissingVersion));
    let text: serde_json::Value = serde_json::from_str(r#""version""#).unwrap();
    assert_eq!(version_of_document(&text), Err(ProbeError::MissingVersion));
}

#[test]
fn probe_error_messages() {
    assert_eq!(
        ProbeError::Unreachable("timed out".to_string()).message(),
        "Failed to connect to backend: timed out"
    );
    assert_eq!(ProbeError::Rejected(404).message(), "Backend answered with status 404");
    assert_eq!(
        ProbeError::Malformed("expected value at line 1 column 1".to_string()).message(),
        "Failed to parse response: expected value at line 1 column 1"
    );
    assert_eq!(ProbeError::MissingVersion.message(), "No version in response");
}
