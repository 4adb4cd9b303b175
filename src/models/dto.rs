//! Request and response shapes of the API.

use vstd::prelude::*;

verus! {

/// Which page of a listing to return, and how long pages are.
#[derive(Debug)]
pub struct PaginationParams {
    pub page: Option<u32>,
    pub per_page: Option<u32>,
}

/// The page asked for; the first when none is given.
pub open spec fn page_of(p: PaginationParams) -> u32 {
    match p.page {
        Some(n) => n,
        None => 1,
    }
}

/// The page length asked for; 20 when none is given.
pub open spec fn per_page_of(p: PaginationParams) -> u32 {
    match p.per_page {
        Some(n) => n,
        None => 20,
    }
}

impl Default for PaginationParams {
    fn default() -> (r: PaginationParams)
        ensures
            r.page == Some(1u32),
            r.per_page == Some(20u32),
    {
        PaginationParams { page: Some(1), per_page: Some(20) }
    }
}

impl PaginationParams {
    /// The page number, 1 when absent.
    pub fn page(&self) -> (r: u32)
        ensures
            r == page_of(*self),
    {
        match self.page {
            Some(n) => n,
            None => 1,
        }
    }

    /// The page length, 20 when absent.
    pub fn per_page(&self) -> (r: u32)
        ensures
            r == per_page_of(*self),
    {
        match self.per_page {
            Some(n) => n,
            None => 20,
        }
    }

    /// How many items come before the page: `(page - 1) * per_page`.
    pub fn offset(&self) -> (r: u32)
        requires
            page_of(*self) >= 1,
            (page_of(*self) - 1) * per_page_of(*self) <= u32::MAX,
        ensures
            r == (page_of(*self) - 1) * per_page_of(*self),
    {
        (self.page() - 1) * self.per_page()
    }

    /// How many items a page holds.
    pub fn limit(&self) -> (r: u32)
        ensures
            r == per_page_of(*self),
    {
        self.per_page()
    }
}

/// The number of pages that `total` items fill at `per_page` items a page,
/// rounded up and capped at `u32::MAX`; with pages of no items, none when
/// there are no items and `u32::MAX` otherwise.
pub open spec fn page_count(total: nat, per_page: nat) -> nat {
    if per_page == 0 {
        if total == 0 {
            0
        } else {
            u32::MAX as nat
        }
    } else {
        let n = ((total + per_page - 1) as nat) / per_page;
        if n > u32::MAX {
            u32::MAX as nat
        } else {
            n
        }
    }
}

/// One page of a listing.
#[derive(Debug)]
pub struct PaginatedResponse<T> {
    pub data: Vec<T>,
    pub page: u32,
    pub per_page: u32,
    pub total: u64,
    pub total_pages: u32,
}

impl<T> PaginatedResponse<T> {
    /// The page `page` of a listing of `total` items, holding `data`.
    pub fn new(data: Vec<T>, page: u32, per_page: u32, total: u64) -> (r: PaginatedResponse<T>)
        ensures
            r.data == data,
            r.page == page,
            r.per_page == per_page,
            r.total == total,
            r.total_pages == page_count(total as nat, per_page as nat),
    {
        let total_pages: u32 = if per_page == 0 {
            if total == 0 {
                0
            } else {
                u32::MAX
            }
        } else {
            let p = per_page as u64;
            let full = total / p;
            assert(total % p != 0 ==> full < u64::MAX) by (nonlinear_arith)
                requires
                    p > 0,
                    full as int == total as int / p as int,
            {
                if total % p != 0 {
                    assert(p >= 2);
                    assert(full * p <= total);
                }
            }
            let n = if total % p == 0 {
                full
            } else {
                full + 1
            };
            assert(n as int == (total + p - 1) as int / p as int) by (nonlinear_arith)
                requires
                    p > 0,
                    full as int == total as int / p as int,
                    n as int == (if total as int % p as int == 0 { full as int } else { full as int + 1 }),
            {
            }
            if n > u32::MAX as u64 {
                u32::MAX
            } else {
                n as u32
            }
        };
        PaginatedResponse { data, page, per_page, total, total_pages }
    }
}

/// The order of a listing.
#[derive(Debug, Clone, Copy, PartialEq, Eq, Structural)]
pub enum SortOrder {
    Asc,
    Desc,
}

impl Default for SortOrder {
    fn default() -> (r: SortOrder)
        ensures
            r == SortOrder::Desc,
    {
        SortOrder::Desc
    }
}

/// The envelope of every API answer.
#[derive(Debug)]
pub struct ApiResponse<T> {
    pub success: bool,
    pub data: Option<T>,
    pub message: Option<String>,
}

impl<T> ApiResponse<T> {
    /// A success carrying `data`.
    pub fn success(data: T) -> (r: ApiResponse<T>)
        ensures
            r.success,
            r.data == Some(data),
            r.message is None,
    {
        ApiResponse { success: true, data: Some(data), message: None }
    }

    /// A success carrying `data` and `message`.
    pub fn success_with_message(data: T, message: String) -> (r: ApiResponse<T>)
        ensures
            r.success,
            r.data == Some(data),
            r.message == Some(message),
    {
        ApiResponse { success: true, data: Some(data), message: Some(message) }
    }
}

impl ApiResponse<()> {
    /// A failure explained by `message`.
    pub fn error(message: String) -> (r: ApiResponse<()>)
        ensures
            !r.success,
            r.data is None,
            r.message == Some(message),
    {
        ApiResponse { success: false, data: None, message: Some(message) }
    }
}

/// The body of an error answer.
#[derive(Debug)]
pub struct ErrorResponse {
    pub error: String,
    pub details: Option<Vec<String>>,
    pub code: Option<String>,
}

impl ErrorResponse {
    /// An error with only its description.
    pub fn new(error: String) -> (r: ErrorResponse)
        ensures
            r.error == error,
            r.details is None,
            r.code is None,
    {
        ErrorResponse { error, details: None, code: None }
    }

    /// An error with a list of details.
    pub fn with_details(error: String, details: Vec<String>) -> (r: ErrorResponse)
        ensures
            r.error == error,
            r.details == Some(details),
            r.code is None,
    {
        ErrorResponse { error, details: Some(details), code: None }
    }

    /// An error with a machine-readable code.
    pub fn with_code(error: String, code: String) -> (r: ErrorResponse)
        ensures
            r.error == error,
            r.details is None,
            r.code == Some(code),
    {
        ErrorResponse { error, details: None, code: Some(code) }
    }
}

/// A text search with pagination.
#[derive(Debug)]
pub struct SearchParams {
    pub q: String,
    pub pagination: PaginationParams,
}

/// Filters of the user listing.
#[derive(Debug)]
pub struct UserFilterParams {
    pub role: Option<String>,
    pub is_active: Option<bool>,
    pub search: Option<String>,
    pub sort_by: Option<String>,
    pub order: Option<SortOrder>,
    pub pagination: PaginationParams,
}

/// The outcome of an operation on many items.
#[derive(Debug)]
pub struct BulkOperationResponse {
    pub success_count: usize,
    pub failure_count: usize,
    pub errors: Vec<String>,
}

/// The answer of the health endpoint.
#[derive(Debug)]
pub struct HealthCheckResponse {
    pub status: String,
    pub timestamp: i64,
    pub database: DatabaseStatus,
    pub version: String,
}

/// Whether the database answers, and how fast.
#[derive(Debug)]
pub struct DatabaseStatus {
    pub connected: bool,
    pub latency_ms: Option<u64>,
}

/// Counts of the stored items.
#[derive(Debug)]
pub struct StatsResponse {
    pub total_users: u64,
    pub total_posts: u64,
    pub total_files: u64,
    pub active_sessions: u64,
}

} // verus!
