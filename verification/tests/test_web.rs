use app_core::level::PermissionLevel;
use app_core::models::User;
use app_core::respond::{
    credential_error, keeps_own_status, ApiError, ApiErrorId, ApiErrorResponse,
    AuthenticatorError, ExtractorError, JwtErrorKind,
};
use app_core::error::CoreError;
use app_core::session::{cleared_cookies, token_cookie, token_cookies, SameSite};
use app_core::web::{
    carries_upload, content_disposition, upload_field, extract_token, frontend_target, resolve_api_version,
    shown_level, upload_from_field, GetMeResponse,
};
use jsonwebtoken::errors::ErrorKind;
use uuid::Uuid;

/// Status the API would answer for a token the authenticator rejected.
fn status_for(error: AuthenticatorError) -> u16 {
    ApiErrorResponse::from_api_error(&credential_error(error)).status_code
}

fn jwt_kind(kind: &ErrorKind) -> JwtErrorKind {
    match kind {
        ErrorKind::InvalidToken => JwtErrorKind::InvalidToken,
        ErrorKind::InvalidSignature => JwtErrorKind::InvalidSignature,
        ErrorKind::InvalidSubject => JwtErrorKind::InvalidSubject,
        ErrorKind::InvalidIssuer => JwtErrorKind::InvalidIssuer,
        ErrorKind::ExpiredSignature => JwtErrorKind::ExpiredSignature,
        _ => JwtErrorKind::Other,
    }
}

#[test]
fn unusable_credentials_answer_unauthorized() {
    let unusable = vec![
        AuthenticatorError::Message,
        AuthenticatorError::Message,
        AuthenticatorError::InvalidRealm,
        AuthenticatorError::AuthenticationFailure,
    ];

    for error in unusable {
        let display = format!("{error:?}");
        let status = status_for(error);
        assert_eq!(
            status, 401,
            "an unusable credential must answer 401, got {status} for {display:?}"
        );
    }
}

#[test]
fn malformed_token_answers_unauthorized() {
    let error = jsonwebtoken::decode_header("not-a-jwt")
        .expect_err("a malformed token must fail to decode");
    let kind = format!("{:?}", error.kind());
    let status = status_for(AuthenticatorError::JwtError(jwt_kind(error.kind())));
    assert_eq!(status, 401, "a malformed token must answer 401, got {status} for kind {kind}");
}

#[test]
fn expired_token_keeps_its_own_unauthorized() {
    let jwt_error =
        jsonwebtoken::errors::Error::from(jsonwebtoken::errors::ErrorKind::ExpiredSignature);
    let kind = format!("{:?}", jwt_error.kind());
    let status = status_for(AuthenticatorError::JwtError(jwt_kind(jwt_error.kind())));
    assert_eq!(
        status, 401,
        "an expired token must answer 401 so the frontend refreshes, got {status} for kind {kind}"
    );
}

#[test]
fn server_faults_stay_server_errors() {
    let status = status_for(AuthenticatorError::NoJwk);
    assert_eq!(status, 500, "missing JWKS is a server fault and must stay a 500, got {status}");
}

#[test]
fn only_server_faults_and_expiry_keep_their_own_status() {
    assert!(keeps_own_status(AuthenticatorError::NoJwk));
    assert!(keeps_own_status(AuthenticatorError::RequestError));
    assert!(keeps_own_status(AuthenticatorError::JwtError(JwtErrorKind::ExpiredSignature)));
    assert!(!keeps_own_status(AuthenticatorError::JwtError(JwtErrorKind::InvalidToken)));
    assert!(!keeps_own_status(AuthenticatorError::AuthenticationFailure));
}

#[test]
fn an_expired_token_is_answered_token_expired() {
    let response = ApiErrorResponse::from_api_error(&credential_error(
        AuthenticatorError::JwtError(JwtErrorKind::ExpiredSignature),
    ));
    assert_eq!(response.id, ApiErrorId::TokenExpired);
    assert_eq!(response.error, "Your authentication token has expired. Please log back in.");
}

#[test]
fn not_found_answers_do_not_name_the_resource() {
    let a = ApiErrorResponse::from_api_error(&ApiError::CoreError(CoreError::NotFound("a".into())));
    let b = ApiErrorResponse::from_api_error(&ApiError::CoreError(CoreError::NotFound("b".into())));

    assert_eq!(a.status_code, 404);
    assert_eq!(a.error, "Not found.");
    assert_eq!((a.id, a.error, a.status_code), (b.id, b.error, b.status_code));
}

#[test]
fn other_domain_errors_are_unexpected() {
    let r = ApiErrorResponse::from_api_error(&ApiError::CoreError(CoreError::Encryption));
    assert_eq!((r.id, r.status_code), (ApiErrorId::Unexpected, 500));
    let r = ApiErrorResponse::from_api_error(&ApiError::ExtractorError(ExtractorError::NotLoggedIn));
    assert_eq!((r.id, r.status_code), (ApiErrorId::Unauthorized, 401));
    let r = ApiErrorResponse::from_api_error(&ApiError::ExtractorError(
        ExtractorError::InvalidHeaderCharacters("\u{1}".into()),
    ));
    assert_eq!((r.id, r.status_code), (ApiErrorId::HeaderInvalidAsciiCharacters, 400));
    let r = ApiErrorResponse::from_api_error(&ApiError::AuthenticatorError(
        AuthenticatorError::InvalidSignature,
    ));
    assert_eq!((r.id, r.status_code), (ApiErrorId::Forbidden, 403));
    let r = ApiErrorResponse::from_api_error(&ApiError::TooManyRequests(3));
    assert_eq!(r.status_code, 429);
}

#[test]
fn a_same_origin_path_is_followed() {
    assert_eq!(
        frontend_target("https://app.example//", Some("/files/42")),
        "https://app.example/files/42"
    );
}

#[test]
fn an_absolute_url_is_not_followed() {
    assert_eq!(
        frontend_target("https://app.example/", Some("https://evil.example/")),
        "https://app.example/"
    );
    assert_eq!(frontend_target("https://app.example", None), "https://app.example");
}

#[test]
fn a_download_name_is_quoted_without_what_breaks_the_quote() {
    assert_eq!(
        content_disposition("re\"port\\\n2024.pdf"),
        "attachment; filename=\"report2024.pdf\""
    );
    assert_eq!(content_disposition("été.txt"), "attachment; filename=\"été.txt\"");
}

#[test]
fn the_bearer_prefix_is_stripped_and_the_cookie_is_a_fallback() {
    assert_eq!(extract_token(Some("Bearer abc"), Some("cookie")), Some("abc".to_string()));
    assert_eq!(extract_token(Some("rawkey"), None), Some("rawkey".to_string()));
    assert_eq!(extract_token(None, Some("cookie")), Some("cookie".to_string()));
    assert_eq!(extract_token(None, None), None);
}

#[test]
fn the_version_prefers_build_then_tag_then_hash() {
    assert_eq!(resolve_api_version(Some("9.9"), Some("v1"), Some("abc"), "0.1.0"), "9.9");
    assert_eq!(resolve_api_version(None, Some(" v1.2\n"), Some("abc"), "0.1.0"), "v1.2");
    assert_eq!(resolve_api_version(None, Some("  \n"), Some("abc1234\n"), "0.1.0"), "abc1234");
    assert_eq!(resolve_api_version(None, None, None, "0.1.0"), "0.1.0");
}

#[test]
fn the_profile_overlays_the_local_row() {
    let subject = Uuid::new_v4();
    let me = GetMeResponse::from_userinfo(subject.as_u128(), "Ada", "L.", "ada@example.org");
    assert_eq!(me.id, subject.to_string());
    assert_eq!(me.role, "USER");
    assert_eq!(me.created_at, 0);

    let user = User {
        id: subject.as_u128(),
        username: "ada".to_string(),
        first_name: "Augusta".to_string(),
        last_name: "King".to_string(),
        email: "ada@example.org".to_string(),
        created_at: 1_700_000_000_000,
    };
    let me = me.with_profile(&user);

    assert_eq!((me.first_name.as_str(), me.last_name.as_str()), ("Augusta", "King"));
    assert_eq!(me.created_at, 1_700_000_000_000);
    assert_eq!(me.email, "ada@example.org");
}

#[test]
fn an_unknown_stored_level_is_shown_as_viewer() {
    assert_eq!(shown_level("manager"), PermissionLevel::Manager);
    assert_eq!(shown_level("owner"), PermissionLevel::Viewer);
}

#[test]
fn a_login_sets_both_tokens_as_http_only_cookies() {
    let cookies = token_cookies("access".to_string(), Some("refresh".to_string()), true);
    assert_eq!(cookies.len(), 2);
    assert_eq!(cookies[0].name, "access_token");
    assert_eq!(cookies[0].value, "access");
    assert_eq!(cookies[1].name, "refresh_token");
    assert_eq!(cookies[1].value, "refresh");
    for c in &cookies {
        assert!(c.http_only, "{} must be hidden from scripts", c.name);
        assert_eq!(c.same_site, SameSite::Lax);
        assert_eq!(c.path, "/");
        assert!(c.secure);
    }
}

#[test]
fn without_a_refresh_token_only_the_access_cookie_is_set() {
    let cookies = token_cookies("access".to_string(), None, false);
    assert_eq!(cookies.len(), 1);
    assert_eq!(cookies[0].name, "access_token");
    assert!(!cookies[0].secure, "an insecure deployment must not mark the cookie secure");
}

#[test]
fn a_token_cookie_carries_its_value() {
    let c = token_cookie("access_token", "abc".to_string(), true);
    assert_eq!((c.name.as_str(), c.value.as_str()), ("access_token", "abc"));
    assert!(c.http_only);
}

#[test]
fn a_logout_clears_both_cookies_at_the_root_path() {
    let cleared = cleared_cookies();
    assert_eq!(
        cleared,
        vec![
            ("access_token".to_string(), "/".to_string()),
            ("refresh_token".to_string(), "/".to_string())
        ]
    );
}

#[test]
fn only_the_file_field_carries_an_upload() {
    assert!(carries_upload(Some("file")));
    assert!(!carries_upload(Some("files")));
    assert!(!carries_upload(Some("name")));
    assert!(!carries_upload(None));
}

#[test]
fn an_upload_field_without_metadata_gets_the_defaults() {
    let u = upload_from_field(None, None, vec![1, 2, 3]);
    assert_eq!(u.name, "");
    assert_eq!(u.mime_type, "application/octet-stream");
    assert_eq!(u.content, vec![1, 2, 3]);

    let u = upload_from_field(Some("photo.png"), Some("image/png"), Vec::new());
    assert_eq!(u.name, "photo.png");
    assert_eq!(u.mime_type, "image/png");
    assert!(u.content.is_empty());
}

#[test]
fn the_first_field_named_file_is_the_upload() {
    let names = vec![Some("parent".to_string()), None, Some("file".to_string()), Some("file".to_string())];
    assert_eq!(upload_field(&names).expect("a file field is there"), 2);
}

#[test]
fn a_body_without_a_file_field_is_refused() {
    let names = vec![Some("name".to_string()), None];
    match upload_field(&names) {
        Err(CoreError::InvalidRequest(m)) => {
            assert_eq!(m, "the multipart body carries no `file` field")
        }
        other => panic!("expected a refusal, got {other:?}"),
    }
}

#[test]
fn a_token_failure_other_than_expiry_is_a_server_fault() {
    let r = ApiErrorResponse::from_api_error(&ApiError::AuthenticatorError(
        AuthenticatorError::JwtError(JwtErrorKind::InvalidSignature),
    ));
    assert_eq!(r.status_code, 500);
    assert_eq!(r.id, ApiErrorId::Unexpected);
    let r = ApiErrorResponse::from_api_error(&ApiError::AuthenticatorError(
        AuthenticatorError::JwtError(JwtErrorKind::ExpiredSignature),
    ));
    assert_eq!(r.status_code, 401);
    assert_eq!(r.id, ApiErrorId::TokenExpired);
}
