use lib_utils::datasource::subsonic::auth::SubsonicAuth;

#[test]
fn test_auth_params() {
    let auth = SubsonicAuth::new("testuser".to_string(), "testpass".to_string(), true);

    let params = auth.get_auth_params();
    assert_eq!(params.len(), 3);
    assert_eq!(params[0].0, "u");
    assert_eq!(params[0].1, "testuser");
    assert_eq!(params[1].0, "t");
    assert_eq!(params[2].0, "s");
}

#[test]
fn test_token_generation() {
    let auth = SubsonicAuth::new("admin".to_string(), "admin".to_string(), true);

    let token = auth.generate_token("salt");
    assert_eq!(token, "3042d7230c565a47d72a21d39759cb3d");
}

#[test]
fn the_token_of_an_empty_salt_is_the_digest_of_the_password() {
    let auth = SubsonicAuth::new("admin".to_string(), "admin".to_string(), true);
    assert_eq!(auth.generate_token(""), "21232f297a57a5a743894a0e4a801fc3");
}

#[test]
fn the_token_is_made_of_the_password_and_the_salt_sent() {
    let auth = SubsonicAuth::new("user".to_string(), "secret".to_string(), true);
    let params = auth.get_auth_params();
    let salt = params[2].1.clone();
    assert_eq!(salt.len(), 16);
    assert!(salt.chars().all(|c| c.is_ascii_alphanumeric()));
    assert_eq!(params[1].1, auth.generate_token(&salt));
    assert_eq!(params[1].1.len(), 32);
}

#[test]
fn without_a_token_the_password_is_sent() {
    let auth = SubsonicAuth::new("user".to_string(), "secret".to_string(), false);
    let params = auth.get_auth_params();
    assert_eq!(params, vec![("u", "user".to_string()), ("p", "secret".to_string())]);
}

#[test]
fn the_token_of_an_empty_password_and_salt_is_the_digest_of_nothing() {
    let auth = SubsonicAuth::new("user".to_string(), String::new(), true);
    assert_eq!(auth.generate_token(""), "d41d8cd98f00b204e9800998ecf8427e");
}
