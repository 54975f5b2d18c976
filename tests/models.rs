use callscreen::error::AppError;
use callscreen::models::{default_page, default_per_page, ApiResponse, Pagination, MAX_PER_PAGE};

#[test]
fn pagination_defaults() {
    assert_eq!(default_page(), 1);
    assert_eq!(default_per_page(), 20);
}

#[test]
fn pagination_rejects_zero_page() {
    let e = Pagination { page: 0, per_page: 10 }.validate().unwrap_err();
    assert_eq!(e, "page must be >= 1");
}

#[test]
fn pagination_rejects_zero_page_size() {
    let e = Pagination { page: 3, per_page: 0 }.validate().unwrap_err();
    assert_eq!(e, "per_page must be >= 1");
}

#[test]
fn pagination_clamps_page_size() {
    let p = Pagination { page: 2, per_page: 500 }.validate().unwrap();
    assert_eq!(p.page, 2);
    assert_eq!(p.per_page, MAX_PER_PAGE);
    let q = Pagination { page: 2, per_page: 100 }.validate().unwrap();
    assert_eq!(q.per_page, 100);
    let r = Pagination { page: 1, per_page: 7 }.validate().unwrap();
    assert_eq!(r.per_page, 7);
}

#[test]
fn pagination_offset_and_limit() {
    let p = Pagination { page: 3, per_page: 20 };
    assert_eq!(p.offset(), 40);
    assert_eq!(p.limit(), 20);
    let first = Pagination { page: 1, per_page: 50 };
    assert_eq!(first.offset(), 0);
    let far = Pagination { page: u32::MAX, per_page: 100 };
    assert_eq!(far.offset(), (u32::MAX as i64 - 1) * 100);
}

#[test]
fn api_response_envelopes() {
    let ok = ApiResponse::success(5u32);
    assert!(ok.success);
    assert_eq!(ok.data, Some(5));
    assert!(ok.error.is_none());
    let err: ApiResponse<u32> = ApiResponse::error("Not found");
    assert!(!err.success);
    assert!(err.data.is_none());
    assert_eq!(err.error.as_deref(), Some("Not found"));
}

#[test]
fn app_error_status_codes() {
    assert_eq!(AppError::Database("connection refused".to_string()).status_code(), 500);
    assert_eq!(AppError::NotImplemented.status_code(), 501);
    assert_eq!(AppError::NotFound.status_code(), 404);
    assert_eq!(AppError::Conflict.status_code(), 409);
    assert_eq!(AppError::BadRequest("x".to_string()).status_code(), 400);
}

#[test]
fn storage_detail_is_never_shown() {
    let e = AppError::Database("duplicate key value violates unique constraint".to_string());
    assert_eq!(e.public_message(), "Database error");
    assert_eq!(AppError::BadRequest("invalid email format".to_string()).public_message(), "invalid email format");
    assert_eq!(AppError::NotFound.public_message(), "Not found");
    assert_eq!(AppError::Conflict.public_message(), "booking already resolved");
    assert_eq!(AppError::NotImplemented.public_message(), "Not implemented");
}
