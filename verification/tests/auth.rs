use git_rsl::auth::{AllowedCredentials, AuthSession, CredentialAction};

fn allow(username: bool, ssh_key: bool, user_pass_plaintext: bool, default: bool) -> AllowedCredentials {
    AllowedCredentials { username, ssh_key, user_pass_plaintext, default }
}

#[test]
fn username_request_defers_to_retries() {
    let mut s = AuthSession::new();
    let a = s.first_session_request(allow(true, true, true, true), None);
    assert!(matches!(a, CredentialAction::RetryWithUsernames));
    assert_eq!(a.refusal_message(), Some("gonna try usernames later"));
}

#[test]
fn agent_key_offered_once_then_helper() {
    let mut s = AuthSession::new();
    match s.first_session_request(allow(false, true, true, true), Some("alice")) {
        CredentialAction::SshKeyFromAgent(u) => assert_eq!(u, "alice"),
        other => panic!("unexpected {:?}", other),
    }
    let a = s.first_session_request(allow(false, true, true, true), Some("alice"));
    assert!(matches!(a, CredentialAction::CredentialHelper));
    assert_eq!(a.refusal_message(), None);
    s.record_helper_outcome(true);
    let a = s.first_session_request(allow(false, true, false, true), Some("alice"));
    assert!(matches!(a, CredentialAction::DefaultCredential));
    let a = s.first_session_request(allow(false, true, false, false), Some("alice"));
    assert!(matches!(a, CredentialAction::NoAuthenticationAvailable));
    assert_eq!(a.refusal_message(), Some("no authentication available"));
    assert!(!s.start_username_retries(Some("u".to_string()), None, None));
    assert!(s.next_username().is_none());
}

#[test]
fn usernames_tried_helper_account_then_git() {
    let mut s = AuthSession::new();
    s.first_session_request(allow(true, false, false, false), None);
    assert!(s.start_username_retries(None, Some("bob".to_string()), Some("helper".to_string())));
    assert_eq!(s.next_username(), Some("helper".to_string()));
    assert_eq!(s.next_username(), Some("bob".to_string()));
    assert_eq!(s.next_username(), Some("git".to_string()));
    assert_eq!(s.next_username(), None);
}

#[test]
fn user_var_preferred_over_username_var() {
    let mut s = AuthSession::new();
    s.first_session_request(allow(true, false, false, false), None);
    assert!(s.start_username_retries(Some("carol".to_string()), Some("bob".to_string()), None));
    assert_eq!(s.next_username(), Some("carol".to_string()));
    assert_eq!(s.next_username(), Some("git".to_string()));
    assert_eq!(s.next_username(), None);
}

#[test]
fn retry_session_offers_name_then_key_once() {
    let mut s = AuthSession::new();
    s.first_session_request(allow(true, false, false, false), None);
    s.start_username_retries(None, None, None);
    assert_eq!(s.next_username(), Some("git".to_string()));
    match s.retry_session_request(allow(true, true, false, false)) {
        CredentialAction::Username(u) => assert_eq!(u, "git"),
        other => panic!("unexpected {:?}", other),
    }
    match s.retry_session_request(allow(false, true, false, false)) {
        CredentialAction::SshKeyFromAgent(u) => assert_eq!(u, "git"),
        other => panic!("unexpected {:?}", other),
    }
    assert!(!s.retry_should_continue());
    let a = s.retry_session_request(allow(false, true, false, false));
    assert!(matches!(a, CredentialAction::NoAuthenticationAvailable));
    assert!(s.retry_should_continue());
    let a = s.retry_session_request(allow(false, true, false, false));
    assert!(matches!(a, CredentialAction::NoAuthenticationAvailable));
    assert!(!s.retry_should_continue());
}

#[test]
fn retry_session_without_key_request_stops() {
    let mut s = AuthSession::new();
    s.first_session_request(allow(true, false, false, false), None);
    s.start_username_retries(Some("dan".to_string()), None, None);
    assert_eq!(s.next_username(), Some("dan".to_string()));
    let a = s.retry_session_request(allow(false, false, true, true));
    assert!(matches!(a, CredentialAction::NoAuthenticationAvailable));
    assert!(!s.retry_should_continue());
}
