use cider_rpc::auth::extract_token;
use cider_rpc::auth::AuthSession;

#[test]
fn token_is_everything_after_the_marker() {
    let url = "http://localhost:10769/last_fm_auth_callback?token=ABC123";
    assert_eq!(extract_token(url), Some("ABC123".to_string()));
}

#[test]
fn token_of_an_empty_suffix_is_empty() {
    assert_eq!(extract_token("/cb?token="), Some("".to_string()));
}

#[test]
fn the_last_marker_wins() {
    assert_eq!(extract_token("/cb?token=x?token=y"), Some("y".to_string()));
}

#[test]
fn a_url_without_the_marker_has_no_token() {
    assert_eq!(extract_token("/last_fm_auth_callback"), None);
    assert_eq!(extract_token("/cb?tok=x"), None);
    assert_eq!(extract_token(""), None);
    assert_eq!(extract_token("token="), None);
}

#[test]
fn a_fresh_session_is_unauthenticated() {
    let s = AuthSession::new();
    assert!(!s.is_authorised());
}

#[test]
fn a_malformed_callback_fails_with_400_and_keeps_the_state() {
    let s = AuthSession::new();
    match s.begin_callback("/last_fm_auth_callback") {
        Err(status) => assert_eq!(status, 400),
        Ok(_) => panic!("a URL without the marker must fail"),
    }
    assert!(!s.is_authorised());
}

#[test]
fn a_good_callback_yields_the_token() {
    let s = AuthSession::new();
    match s.begin_callback("/last_fm_auth_callback?token=ABC123") {
        Ok(token) => assert_eq!(token, "ABC123"),
        Err(_) => panic!("a URL with the marker must yield its token"),
    }
}

#[test]
fn a_failed_exchange_keeps_the_state_and_answers_400() {
    let mut s = AuthSession::new();
    let status = s.apply_exchange(false);
    assert_eq!(status, 400);
    assert!(!s.is_authorised());
}

#[test]
fn a_successful_exchange_authorises_and_answers_204() {
    let mut s = AuthSession::new();
    let status = s.apply_exchange(true);
    assert_eq!(status, 204);
    assert!(s.is_authorised());
}
