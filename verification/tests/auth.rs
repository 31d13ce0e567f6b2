use obs_mock::auth::{compute_auth_response, AuthConfig};

#[test]
fn test_auth_roundtrip() {
    let config = AuthConfig::new(Some("testpassword".to_string()));
    let response = compute_auth_response("testpassword", &config.salt, &config.challenge);
    assert!(config.verify(&response));
}

#[test]
fn test_auth_wrong_password() {
    let config = AuthConfig::new(Some("testpassword".to_string()));
    let response = compute_auth_response("wrongpassword", &config.salt, &config.challenge);
    assert!(!config.verify(&response));
}

#[test]
fn test_no_auth() {
    let config = AuthConfig::new(None);
    assert!(!config.requires_auth());
    assert!(config.verify("anything"));
}

#[test]
fn auth_response_known_value() {
    let r = compute_auth_response("testpassword", "c2FsdA==", "Y2hhbGxlbmdl");
    assert_eq!(r, "vyS95FNyAjfQlCOWFIxOpXwyo/3zseQwL5heH6dol7k=");
}

#[test]
fn auth_response_of_empty_strings() {
    let r = compute_auth_response("", "", "");
    assert_eq!(r, "XEB0z23rR/W2r5xf4+C70OQrlZb+iKxU1ca275h+DyA=");
}

#[test]
fn salt_and_challenge_are_base64_of_32_bytes() {
    let config = AuthConfig::new(Some("pw".to_string()));
    assert_eq!(config.salt.len(), 44);
    assert_eq!(config.challenge.len(), 44);
    assert!(config.salt.ends_with('='));
    assert!(config.requires_auth());
    assert_eq!(config.password, Some("pw".to_string()));
}

#[test]
fn verify_with_fixed_salt_and_challenge() {
    let config = AuthConfig {
        password: Some("testpassword".to_string()),
        salt: "c2FsdA==".to_string(),
        challenge: "Y2hhbGxlbmdl".to_string(),
    };
    assert!(config.verify("vyS95FNyAjfQlCOWFIxOpXwyo/3zseQwL5heH6dol7k="));
    assert!(!config.verify(""));
    assert!(!config.verify("vyS95FNyAjfQlCOWFIxOpXwyo/3zseQwL5heH6dol7k"));
}

#[test]
fn two_configs_draw_different_challenges() {
    let a = AuthConfig::new(None);
    let b = AuthConfig::new(None);
    assert_ne!(a.challenge, b.challenge);
    assert_ne!(a.salt, a.challenge);
}

fn base64_of_32_shape(s: &str) -> bool {
    let b = s.as_bytes();
    b.len() == 44 && b[43] == b'=' && b[..43].iter().all(|c| c.is_ascii_alphanumeric() || *c == b'+' || *c == b'/')
}

#[test]
fn tokens_and_responses_have_the_shape_of_32_bytes() {
    let config = AuthConfig::new(Some("pw".to_string()));
    assert!(base64_of_32_shape(&config.salt));
    assert!(base64_of_32_shape(&config.challenge));
    let r = compute_auth_response("pw", &config.salt, &config.challenge);
    assert!(base64_of_32_shape(&r));
}
