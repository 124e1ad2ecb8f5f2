use file_server_rs::error::ApiError;
use file_server_rs::middleware::create_auth_middleware;

#[test]
fn right_token_passes() {
    let auth = create_auth_middleware("s3cret".to_string());
    assert_eq!(auth.authorize(Some("Bearer s3cret")), Ok(()));
}

#[test]
fn wrong_token_is_unauthorized() {
    let auth = create_auth_middleware("s3cret".to_string());
    assert_eq!(auth.authorize(Some("Bearer other")), Err(ApiError::Unauthorized));
    assert_eq!(auth.authorize(Some("Bearer s3cret ")), Err(ApiError::Unauthorized));
    assert_eq!(auth.authorize(Some("Bearer ")), Err(ApiError::Unauthorized));
}

#[test]
fn missing_header_is_unauthorized() {
    let auth = create_auth_middleware("s3cret".to_string());
    assert_eq!(auth.authorize(None), Err(ApiError::Unauthorized));
}

#[test]
fn other_scheme_is_unauthorized() {
    let auth = create_auth_middleware("s3cret".to_string());
    assert_eq!(auth.authorize(Some("Basic s3cret")), Err(ApiError::Unauthorized));
    assert_eq!(auth.authorize(Some("s3cret")), Err(ApiError::Unauthorized));
    assert_eq!(auth.authorize(Some("bearer s3cret")), Err(ApiError::Unauthorized));
    assert_eq!(auth.authorize(Some("Bearers3cret")), Err(ApiError::Unauthorized));
}

#[test]
fn repeated_scheme_is_part_of_the_token() {
    let auth = create_auth_middleware("s3cret".to_string());
    assert_eq!(auth.authorize(Some("Bearer Bearer s3cret")), Err(ApiError::Unauthorized));
    let auth = create_auth_middleware("Bearer s3cret".to_string());
    assert_eq!(auth.authorize(Some("Bearer Bearer s3cret")), Ok(()));
}

#[test]
fn empty_required_token_matches_a_bare_scheme() {
    let auth = create_auth_middleware(String::new());
    assert_eq!(auth.authorize(Some("Bearer ")), Ok(()));
    assert_eq!(auth.authorize(Some("Bearer x")), Err(ApiError::Unauthorized));
}

#[test]
fn unauthorized_is_status_401() {
    assert_eq!(ApiError::Unauthorized.status(), 401);
}
