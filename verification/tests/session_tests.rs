use loggy::session::{
    credential_failure, missing_provider_error, remote_failure, resolve_profile, Session,
};

#[test]
fn fresh_session_is_not_initialized() {
    let s: Session<u32, String> = Session::new();
    assert!(!s.is_initialized());
    assert!(s.client.is_none());
    assert!(s.config.is_none());
    assert!(s.active_profile.is_none());
    let err = s.check_ready().unwrap_err();
    assert_eq!(err.message, "AWS client not initialized");
    assert!(!err.requires_reconnect);
}

#[test]
fn install_makes_the_whole_triple_observable() {
    let mut s: Session<u32, String> = Session::new();
    s.install(7, "us-east-1".to_string(), Some("dev".to_string()));
    assert!(s.is_initialized());
    assert!(s.check_ready().is_ok());
    assert_eq!(s.client, Some(7));
    assert_eq!(s.config, Some("us-east-1".to_string()));
    assert_eq!(s.active_profile, Some("dev".to_string()));
}

#[test]
fn reconnect_clears_the_triple_but_keeps_the_identity() {
    let mut s: Session<u32, String> = Session::new();
    s.install(7, "us-east-1".to_string(), Some("dev".to_string()));
    s.reconnect_begin();
    // the session is NotInitialized the moment reconnect begins, so a failed
    // attempt can never leave a stale client behind
    assert!(!s.is_initialized());
    assert!(s.client.is_none());
    assert!(s.config.is_none());
    assert_eq!(s.active_profile, Some("dev".to_string()));
    assert!(s.check_ready().is_err());
}

#[test]
fn profile_resolution_prefers_hint_then_stored_then_env() {
    assert_eq!(
        resolve_profile(Some("a".into()), Some("b".into()), Some("c".into())),
        Some("a".to_string())
    );
    assert_eq!(resolve_profile(None, Some("b".into()), Some("c".into())), Some("b".to_string()));
    assert_eq!(resolve_profile(None, None, Some("c".into())), Some("c".to_string()));
    assert_eq!(resolve_profile(None, None, None), None);
}

#[test]
fn expired_credential_failure_triggers_reauth() {
    let d = credential_failure("the SSO session has expired", "", "", false);
    assert!(d.trigger_reauth);
    assert!(d.error.requires_reconnect);
    assert_eq!(
        d.error.message,
        "Your AWS session has expired. Please run 'aws sso login' to refresh your credentials."
    );
}

#[test]
fn expired_phrasing_found_in_any_representation() {
    let d = credential_failure("load failed", "Debug { cause: \"expired sso token\" }", "", false);
    assert!(d.trigger_reauth);
    let d2 = credential_failure("load failed", "", "invalid_grant from the token endpoint", false);
    assert!(d2.trigger_reauth);
}

#[test]
fn missing_credentials_failure_returns_classified_error_without_reauth() {
    // classifies NoCredentials: the remedy is reconfiguration, not a browser login
    let d = credential_failure("Unable to load credentials: no credentials available", "", "", false);
    assert!(!d.trigger_reauth);
    assert!(!d.error.requires_reconnect);
    assert_eq!(
        d.error.message,
        "No AWS credentials found. Please run 'aws sso login' or configure your AWS credentials."
    );
}

#[test]
fn sso_profile_with_credential_mention_triggers_reauth() {
    let d = credential_failure("no usable credential in chain", "", "", true);
    assert!(d.trigger_reauth);
    assert!(d.error.requires_reconnect);
    // the trigger came from the SSO-backed identity, so the error reads as expiry
    assert_eq!(
        d.error.message,
        "Your AWS session has expired. Please run 'aws sso login' to refresh your credentials."
    );
    // without the SSO-backed profile the same text propagates as classified
    let d2 = credential_failure("no usable credential in chain", "", "", false);
    assert!(!d2.trigger_reauth);
    assert_eq!(d2.error.message, "no usable credential in chain");
}

#[test]
fn missing_provider_error_text() {
    let e = missing_provider_error();
    assert_eq!(
        e.message,
        "No AWS credentials configured. Please run 'aws sso login' or configure credentials."
    );
    assert!(!e.requires_reconnect);
}

#[test]
fn probe_failure_expired_triggers_reauth() {
    let d = remote_failure("ExpiredToken: sso token is no longer valid");
    assert!(d.trigger_reauth);
    assert_eq!(
        d.error.message,
        "Your AWS session has expired. Please run 'aws sso login' to refresh your credentials."
    );
}

#[test]
fn probe_failure_access_denied_never_triggers_reauth() {
    let d = remote_failure("User is not authorized to call DescribeLogGroups");
    assert!(!d.trigger_reauth);
    assert_eq!(
        d.error.message,
        "Access denied. Your AWS credentials don't have permission for this operation."
    );
    let d2 = remote_failure("AccessDeniedException when calling DescribeLogGroups");
    assert!(!d2.trigger_reauth);
    assert_eq!(
        d2.error.message,
        "Access denied. Your AWS credentials don't have permission for this operation."
    );
}

#[test]
fn probe_failure_network_returns_classified_message() {
    let d = remote_failure("connector error: os error 61");
    assert!(!d.trigger_reauth);
    assert_eq!(d.error.message, "Unable to connect to AWS. Please check your network connection.");
}

#[test]
fn remote_failure_classifies_and_flags_reauth() {
    let d = remote_failure("ThrottlingException: Rate exceeded");
    assert!(!d.trigger_reauth);
    assert!(!d.error.requires_reconnect);
    assert_eq!(d.error.message, "AWS rate limit exceeded. Please wait a moment and try again.");
    let d2 = remote_failure("the sso session has expired; re-authenticate");
    assert!(d2.trigger_reauth);
    assert!(d2.error.requires_reconnect);
}

#[test]
fn dispatch_wrapped_credential_failure_triggers_reauth() {
    // the Expired-remedial branch of the classifier also drives the trigger
    let d = remote_failure("dispatch failure while resolving credential");
    assert!(d.trigger_reauth);
    assert!(d.error.requires_reconnect);
    assert_eq!(
        d.error.message,
        "AWS credentials error. Please run 'aws sso login' or check your AWS configuration."
    );
}
