use inspect_service::error::{ApiResponse, AppError};

fn check(e: AppError, status: u16, message: &str) {
    assert_eq!(e.status_code(), status);
    assert_eq!(e.message(), message);
    let r = e.into_response();
    assert_eq!(r.status, status);
    assert_eq!(r.body.status_code, status);
    assert!(!r.body.success);
    assert_eq!(r.body.message, message);
    assert!(r.body.data.is_none());
}

#[test]
fn generic_maps_to_500() {
    check(AppError::Generic("oops"), 500, "An error occurred: oops");
}

#[test]
fn invalid_input_maps_to_400() {
    check(AppError::InvalidInput("missing name"), 400, "Invalid input: missing name");
}

#[test]
fn database_error_maps_to_500() {
    check(AppError::DatabaseError("no rows"), 500, "Database error: no rows");
}

#[test]
fn network_error_maps_to_503() {
    check(AppError::NetworkError("down"), 503, "Network error: down");
}

#[test]
fn authentication_error_maps_to_401() {
    check(AppError::AuthenticationError("bad token"), 401, "Authentication failed: bad token");
}

#[test]
fn authorization_error_maps_to_403() {
    check(AppError::AuthorizationError("admins only"), 403, "Authorization failed: admins only");
}

#[test]
fn empty_detail_keeps_prefix() {
    assert_eq!(AppError::Generic("").message(), "An error occurred: ");
    assert_eq!(AppError::Generic("").detail(), "");
}

#[test]
fn envelope_success_follows_status_class() {
    let ok: ApiResponse<u32> = ApiResponse::new(200, String::from("fine"), Some(7));
    assert!(ok.success);
    assert_eq!(ok.data, Some(7));
    let edge: ApiResponse<u32> = ApiResponse::new(299, String::from("fine"), None);
    assert!(edge.success);
    let redirect: ApiResponse<u32> = ApiResponse::new(300, String::from("moved"), None);
    assert!(!redirect.success);
    let below: ApiResponse<u32> = ApiResponse::new(199, String::from("info"), None);
    assert!(!below.success);
    let failed: ApiResponse<()> = ApiResponse::failure(404, String::from("gone"));
    assert!(!failed.success);
    assert_eq!(failed.status_code, 404);
    assert_eq!(failed.message, "gone");
    assert!(failed.data.is_none());
}
