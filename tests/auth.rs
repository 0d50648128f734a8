use alexandria::credentials::{claims_from, generate_token, validate_token, TOKEN_LIFETIME};
use alexandria::error::AppError;
use alexandria::access::{accept_token, authorize, bearer_token_of, check_expiry, presented_token, AuthHeader, AuthRejection};
use alexandria::credentials::Claims;

const SECRET: &str = "test-signing-key";
const NOW: i64 = 1_700_000_000;

fn bearer(token: &str) -> AuthHeader {
    AuthHeader::Text(format!("Bearer {}", token))
}

#[test]
fn lifetime_is_seven_days() {
    assert_eq!(TOKEN_LIFETIME, 604_800);
}

#[test]
fn issued_token_validates_to_its_subject() {
    let token = generate_token("u1".to_string(), SECRET, NOW).unwrap();
    assert_ne!(token, "u1");
    assert_eq!(token.split('.').count(), 3);
    let claims = validate_token(&token, SECRET).unwrap();
    assert_eq!(claims.sub, "u1");
    assert_eq!(claims.exp, NOW + 604_800);
}

#[test]
fn issued_token_is_admitted_then_expires() {
    let token = generate_token("u1".to_string(), SECRET, NOW).unwrap();
    let claims = authorize(&bearer(&token), SECRET, NOW).unwrap();
    assert_eq!(claims.sub, "u1");
    let at_expiry = authorize(&bearer(&token), SECRET, NOW + TOKEN_LIFETIME).unwrap();
    assert_eq!(at_expiry.exp, NOW + TOKEN_LIFETIME);
    assert_eq!(
        authorize(&bearer(&token), SECRET, NOW + TOKEN_LIFETIME + 1).unwrap_err(),
        AuthRejection::ExpiredCredential
    );
}

#[test]
fn expired_token_still_validates_structurally() {
    let token = generate_token("u2".to_string(), SECRET, 1000).unwrap();
    let claims = validate_token(&token, SECRET).unwrap();
    assert_eq!(claims.sub, "u2");
    assert_eq!(claims.exp, 1000 + 604_800);
}

#[test]
fn wrong_secret_is_invalid() {
    let token = generate_token("u1".to_string(), SECRET, NOW).unwrap();
    assert!(matches!(validate_token(&token, "another-key"), Err(AppError::NotAuthorized)));
    assert_eq!(
        authorize(&bearer(&token), "another-key", NOW).unwrap_err(),
        AuthRejection::InvalidCredential
    );
}

#[test]
fn garbage_token_is_invalid() {
    assert!(matches!(validate_token("abc", SECRET), Err(AppError::NotAuthorized)));
    assert_eq!(
        authorize(&bearer("abc"), SECRET, NOW).unwrap_err(),
        AuthRejection::InvalidCredential
    );
}

#[test]
fn missing_header_is_rejected() {
    assert_eq!(
        authorize(&AuthHeader::Missing, SECRET, NOW).unwrap_err(),
        AuthRejection::MissingCredential
    );
}

#[test]
fn wrong_scheme_is_malformed() {
    let header = AuthHeader::Text("Token abc".to_string());
    // an empty secret would make any validation fail as invalid, so a
    // malformed answer shows that no validation took place
    assert_eq!(authorize(&header, "", NOW).unwrap_err(), AuthRejection::MalformedCredential);
    assert_eq!(
        authorize(&header, SECRET, NOW).unwrap_err().to_app_error(),
        AppError::BadRequest
    );
}

#[test]
fn unreadable_header_is_malformed() {
    assert_eq!(
        authorize(&AuthHeader::Unreadable, SECRET, NOW).unwrap_err(),
        AuthRejection::MalformedCredential
    );
}

#[test]
fn bearer_prefix_is_exact() {
    assert_eq!(bearer_token_of("Bearer abc"), Some("abc"));
    assert_eq!(bearer_token_of("Bearer "), Some(""));
    assert_eq!(bearer_token_of("bearer abc"), None);
    assert_eq!(bearer_token_of("Bearer"), None);
    assert_eq!(bearer_token_of("BearerXabc"), None);
    assert_eq!(bearer_token_of(""), None);
    assert_eq!(bearer_token_of("Bearer ünï"), Some("ünï"));
}

#[test]
fn rejection_error_kinds() {
    assert_eq!(AuthRejection::MissingCredential.to_app_error(), AppError::BadRequest);
    assert_eq!(AuthRejection::MalformedCredential.to_app_error(), AppError::BadRequest);
    assert_eq!(AuthRejection::InvalidCredential.to_app_error(), AppError::NotAuthorized);
    assert_eq!(AuthRejection::ExpiredCredential.to_app_error(), AppError::NotAuthorized);
}

#[test]
fn expiry_boundary() {
    let c = Claims { sub: "s".to_string(), exp: 10 };
    assert_eq!(check_expiry(c.clone(), 10).unwrap().sub, "s");
    assert_eq!(check_expiry(c, 11).unwrap_err(), AuthRejection::ExpiredCredential);
}

#[test]
fn claims_need_subject_and_expiry() {
    let ok = claims_from(Some((Some("s".to_string()), Some(5)))).unwrap();
    assert_eq!(ok.sub, "s");
    assert_eq!(ok.exp, 5);
    assert!(matches!(claims_from(None), Err(AppError::NotAuthorized)));
    assert!(matches!(claims_from(Some((None, Some(5)))), Err(AppError::NotAuthorized)));
    assert!(matches!(claims_from(Some((Some("s".to_string()), None))), Err(AppError::NotAuthorized)));
}

#[test]
fn error_statuses_and_messages() {
    assert_eq!(AppError::BadRequest.status_code(), 400);
    assert_eq!(AppError::Conflict.status_code(), 409);
    assert_eq!(AppError::InternalServerError.status_code(), 500);
    assert_eq!(AppError::NotFound.status_code(), 404);
    assert_eq!(AppError::NotAuthorized.status_code(), 401);
    assert_eq!(AppError::Conflict.message(), "conflict");
    assert_eq!(AppError::NotFound.message(), "not found");
    assert_eq!(AppError::BadRequest.message(), "bad request");
    assert_eq!(AppError::NotAuthorized.message(), "not authorized");
    assert_eq!(AppError::InternalServerError.message(), "internal server error");
}

#[test]
fn presented_token_needs_bearer_header() {
    assert_eq!(presented_token(&bearer("abc")), Ok("abc".to_string()));
    assert_eq!(presented_token(&AuthHeader::Missing), Err(AuthRejection::MissingCredential));
    assert_eq!(presented_token(&AuthHeader::Unreadable), Err(AuthRejection::MalformedCredential));
    assert_eq!(
        presented_token(&AuthHeader::Text("Token abc".to_string())),
        Err(AuthRejection::MalformedCredential)
    );
}

#[test]
fn accept_token_checks_signature_then_expiry() {
    let token = generate_token("u1".to_string(), SECRET, NOW).unwrap();
    assert_eq!(accept_token(&token, SECRET, NOW).unwrap().sub, "u1");
    assert_eq!(accept_token(&token, "other", NOW).unwrap_err(), AuthRejection::InvalidCredential);
    assert_eq!(
        accept_token(&token, SECRET, NOW + TOKEN_LIFETIME + 1).unwrap_err(),
        AuthRejection::ExpiredCredential
    );
}

#[test]
fn refreshed_token_gets_fresh_expiry() {
    let old = generate_token("u3".to_string(), SECRET, NOW).unwrap();
    let claims = validate_token(&old, SECRET).unwrap();
    let later = NOW + 3600;
    let fresh = generate_token(claims.sub, SECRET, later).unwrap();
    let renewed = validate_token(&fresh, SECRET).unwrap();
    assert_eq!(renewed.sub, "u3");
    assert_eq!(renewed.exp, later + 604_800);
}
