use archivanima::csrf::{
    CheckCSRF, CsrfConfig, CsrfToken, HeaderCSRF, VerificationFailure, BCRYPT_COST, COOKIE_NAME,
};
use archivanima::forms::LoginForm;

#[test]
fn default_configuration_keeps_32_bytes_for_a_day() {
    let config = CsrfConfig::default();
    assert_eq!(config.lifespan(), 86400);
    assert_eq!(config.cookie_name(), "csrf_token");
    assert_eq!(config.cookie_name(), COOKIE_NAME);
    assert_eq!(config.cookie_len(), 32);
    assert_eq!(config, CsrfConfig::new());
    assert_eq!(BCRYPT_COST, 8);
}

#[test]
fn configuration_is_built_step_by_step() {
    let config = CsrfConfig::default()
        .with_lifetime(60)
        .with_cookie_name("secret".to_string())
        .with_cookie_len(16);
    assert_eq!(config.lifespan(), 60);
    assert_eq!(config.cookie_name(), "secret");
    assert_eq!(config.cookie_len(), 16);
    assert_eq!(config.clone(), config);
}

#[test]
fn secret_is_shown_in_base64_without_padding() {
    assert_eq!(CsrfToken::from_secret(&vec![]).0, "");
    assert_eq!(CsrfToken::from_secret(&vec![0, 0, 0]).0, "AAAA");
    assert_eq!(CsrfToken::from_secret(&vec![0xff]).0, "/w");
    assert_eq!(CsrfToken::from_secret(&b"hello world~".to_vec()).0, "aGVsbG8gd29ybGR+");
}

#[test]
fn secret_is_read_from_the_cookie() {
    let config = CsrfConfig::default().with_cookie_len(3);
    assert_eq!(config.valid_csrf_token_from_session(Some("AAAA")), Some(vec![0, 0, 0]));
    assert_eq!(
        config.valid_csrf_token_from_session(Some("aGVsbG8gd29ybGR+")),
        Some(b"hello world~".to_vec())
    );
}

#[test]
fn short_or_malformed_secrets_are_refused() {
    let config = CsrfConfig::default().with_cookie_len(4);
    assert_eq!(config.valid_csrf_token_from_session(Some("AAAA")), None);
    assert_eq!(config.valid_csrf_token_from_session(Some("not base64!")), None);
    assert_eq!(config.valid_csrf_token_from_session(Some("AAAAAA==")), None);
    assert_eq!(config.valid_csrf_token_from_session(None), None);
    assert_eq!(CsrfConfig::default().valid_csrf_token_from_session(Some("")), None);
    let empty = CsrfConfig::default().with_cookie_len(0);
    assert_eq!(empty.valid_csrf_token_from_session(Some("")), Some(vec![]));
}

#[test]
fn tokens_of_a_session_are_verified() {
    let session = CsrfToken::from_secret(&vec![7; 32]);
    let token = session.authenticity_token().unwrap();
    assert_ne!(token, session.0);
    assert_eq!(session.verify(&token), Ok(()));
    let another = session.authenticity_token().unwrap();
    assert_ne!(another, token);
    assert_eq!(session.verify(&another), Ok(()));
}

#[test]
fn tokens_of_another_session_are_refused() {
    let session = CsrfToken::from_secret(&vec![7; 32]);
    let stranger = CsrfToken::from_secret(&vec![8; 32]);
    let token = stranger.authenticity_token().unwrap();
    assert_eq!(session.verify(&token), Err(VerificationFailure));
    assert_eq!(session.verify(""), Err(VerificationFailure));
    assert_eq!(session.verify(&session.0), Err(VerificationFailure));
    assert_eq!(session.verify("$2b$08$tooshort"), Err(VerificationFailure));
}

#[test]
fn header_must_carry_a_token_of_the_session() {
    let session = CsrfToken::from_secret(&vec![1; 32]);
    let token = session.authenticity_token().unwrap();
    assert_eq!(HeaderCSRF::check(&session, Some(&token)), Some(HeaderCSRF {}));
    assert_eq!(HeaderCSRF::check(&session, Some("forged")), None);
    assert_eq!(HeaderCSRF::check(&session, None), None);
}

#[test]
fn forms_carry_their_token() {
    let session = CsrfToken::from_secret(&vec![2; 32]);
    let token = session.authenticity_token().unwrap();
    let form = LoginForm::new(&token);
    assert_eq!(form.check_csrf(&session), Ok(()));
    let forged = LoginForm::new("forged");
    assert_eq!(forged.check_csrf(&session), Err(VerificationFailure));
}
