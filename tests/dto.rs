use backend::models::dto::{
    ApiResponse, BulkOperationResponse, ErrorResponse, PaginatedResponse, PaginationParams, SortOrder,
};

#[test]
fn test_pagination_params_default() {
    let params = PaginationParams::default();
    assert_eq!(params.page(), 1);
    assert_eq!(params.per_page(), 20);
}

#[test]
fn pagination_params_absent_values() {
    let params = PaginationParams { page: None, per_page: None };
    assert_eq!(params.page(), 1);
    assert_eq!(params.per_page(), 20);
    assert_eq!(params.offset(), 0);
    assert_eq!(params.limit(), 20);
}

#[test]
fn test_pagination_offset_limit() {
    let params = PaginationParams { page: Some(2), per_page: Some(10) };

    assert_eq!(params.offset(), 10);
    assert_eq!(params.limit(), 10);
}

#[test]
fn test_paginated_response() {
    let data = vec![1, 2, 3];
    let response = PaginatedResponse::new(data, 1, 10, 25);

    assert_eq!(response.page, 1);
    assert_eq!(response.per_page, 10);
    assert_eq!(response.total, 25);
    assert_eq!(response.total_pages, 3);
}

#[test]
fn page_counts_at_the_edges() {
    assert_eq!(PaginatedResponse::new(vec![0u8], 1, 10, 30).total_pages, 3);
    assert_eq!(PaginatedResponse::new(Vec::<u8>::new(), 1, 10, 0).total_pages, 0);
    assert_eq!(PaginatedResponse::new(Vec::<u8>::new(), 1, 0, 0).total_pages, 0);
    assert_eq!(PaginatedResponse::new(Vec::<u8>::new(), 1, 0, 5).total_pages, u32::MAX);
    assert_eq!(PaginatedResponse::new(Vec::<u8>::new(), 1, 1, u64::MAX).total_pages, u32::MAX);
}

#[test]
fn test_api_response_success() {
    let response = ApiResponse::success("test data");
    assert!(response.success);
    assert_eq!(response.data, Some("test data"));
    assert!(response.message.is_none());
}

#[test]
fn api_response_success_with_message() {
    let response = ApiResponse::success_with_message(7, "created".to_string());
    assert!(response.success);
    assert_eq!(response.data, Some(7));
    assert_eq!(response.message, Some("created".to_string()));
}

#[test]
fn test_api_response_error() {
    let response: ApiResponse<()> = ApiResponse::error("Something went wrong".to_string());
    assert!(!response.success);
    assert!(response.data.is_none());
    assert_eq!(response.message, Some("Something went wrong".to_string()));
}

#[test]
fn test_error_response() {
    let error = ErrorResponse::new("Not found".to_string());
    assert_eq!(error.error, "Not found");
    assert!(error.details.is_none());
    assert!(error.code.is_none());
}

#[test]
fn test_error_response_with_details() {
    let error = ErrorResponse::with_details(
        "Validation failed".to_string(),
        vec!["Email is required".to_string(), "Password too short".to_string()],
    );
    assert_eq!(error.details.as_ref().unwrap().len(), 2);
}

#[test]
fn test_error_response_with_code() {
    let error = ErrorResponse::with_code("Not found".to_string(), "NOT_FOUND".to_string());
    assert_eq!(error.code, Some("NOT_FOUND".to_string()));
}

#[test]
fn test_sort_order_default() {
    let order = SortOrder::default();
    assert!(matches!(order, SortOrder::Desc));
}

#[test]
fn test_bulk_operation_response() {
    let response = BulkOperationResponse {
        success_count: 8,
        failure_count: 2,
        errors: vec!["Error 1".to_string()],
    };
    assert_eq!(response.success_count, 8);
    assert_eq!(response.failure_count, 2);
}
