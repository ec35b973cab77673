//! Response-side data shapes that carry computed content: pagination,
//! connection test results, and the internal pool-info projection.

use vstd::prelude::*;
use crate::connection::ConnectionConfig;

verus! {

/// The number of pages `total` items fill at `page_size` per page, clipped
/// into `u32` range.
pub open spec fn spec_total_pages(total: u64, page_size: u32) -> u32 {
    let tp = total as int / page_size as int + (if total as int % page_size as int != 0 {
        1int
    } else {
        0int
    });
    if tp > u32::MAX {
        u32::MAX
    } else {
        tp as u32
    }
}

/// Pagination information for list responses.
#[derive(Clone, Copy, PartialEq, Eq, Structural, Debug)]
pub struct Pagination {
    /// Current page number (1-based).
    pub page: u32,
    /// Number of items per page.
    pub page_size: u32,
    /// Total number of items.
    pub total: u64,
    /// Total number of pages.
    pub total_pages: u32,
    /// Whether there is a next page.
    pub has_next: bool,
    /// Whether there is a previous page.
    pub has_prev: bool,
}

impl Pagination {
    /// Creates pagination info from the total count and page parameters:
    /// the page count rounds up, and the next/previous flags compare the
    /// current page against it.
    pub fn new(page: u32, page_size: u32, total: u64) -> (r: Pagination)
        requires
            page_size >= 1,
        ensures
            r.page == page,
            r.page_size == page_size,
            r.total == total,
            r.total_pages == spec_total_pages(total, page_size),
            r.has_next == (page < r.total_pages),
            r.has_prev == (page > 1),
    {
        let ps = page_size as u64;
        let mut tp64: u64 = total / ps;
        if total % ps != 0 {
            // both the saturated sum and the true sum land above u32::MAX
            // together, so the clipped page count is unaffected
            tp64 = match tp64.checked_add(1) {
                Some(v) => v,
                None => u64::MAX,
            };
        }
        let total_pages: u32 = if tp64 > u32::MAX as u64 {
            u32::MAX
        } else {
            tp64 as u32
        };
        Pagination {
            page,
            page_size,
            total,
            total_pages,
            has_next: page < total_pages,
            has_prev: page > 1,
        }
    }
}

/// A paginated list response.
pub struct PaginatedData<T> {
    /// List of items.
    pub items: Vec<T>,
    /// Pagination information.
    pub pagination: Pagination,
}

impl<T> PaginatedData<T> {
    /// Creates a new paginated data response.
    pub fn new(items: Vec<T>, page: u32, page_size: u32, total: u64) -> (r: Self)
        requires
            page_size >= 1,
        ensures
            r.items == items,
            r.pagination == (Pagination {
                page,
                page_size,
                total,
                total_pages: spec_total_pages(total, page_size),
                has_next: page < spec_total_pages(total, page_size),
                has_prev: page > 1,
            }),
    {
        PaginatedData { items, pagination: Pagination::new(page, page_size, total) }
    }
}

/// Empty response body for delete operations.
#[derive(Clone, Copy, PartialEq, Eq, Structural, Debug)]
pub struct EmptyData;

/// The outcome of one connection test.
pub struct ConnectionTestResult {
    /// The tested connection's id.
    pub id: String,
    /// Whether the test succeeded.
    pub success: bool,
    /// Round-trip latency in milliseconds, on success.
    pub latency_ms: Option<u64>,
    /// The failure message, on failure.
    pub error: Option<String>,
}

impl ConnectionTestResult {
    /// A successful test with its measured latency.
    pub fn passed(id: String, latency_ms: u64) -> (r: Self)
        ensures
            r.id == id,
            r.success,
            r.latency_ms == Some(latency_ms),
            r.error is None,
    {
        ConnectionTestResult { id, success: true, latency_ms: Some(latency_ms), error: None }
    }

    /// A failed test with its error message.
    pub fn failed(id: String, error: String) -> (r: Self)
        ensures
            r.id == id,
            !r.success,
            r.latency_ms is None,
            r.error == Some(error),
    {
        ConnectionTestResult { id, success: false, latency_ms: None, error: Some(error) }
    }
}

/// Non-secret addressing info of one connection, for a downstream
/// query-execution collaborator: credentials never cross this boundary.
pub struct PoolInfo {
    /// Connection id.
    pub id: String,
    /// Backend kind label.
    pub db_type: String,
    /// Database host.
    pub host: Option<String>,
    /// Database port.
    pub port: Option<u16>,
    /// Default database name.
    pub database: Option<String>,
}

impl PoolInfo {
    /// Projects a stored configuration to its non-secret addressing info.
    pub fn of_config(c: &ConnectionConfig) -> (r: PoolInfo)
        ensures
            r.id == c.id,
            r.db_type@ == c.db_type.spec_label(),
            r.host == c.host,
            r.port == c.port,
            r.database == c.database,
    {
        PoolInfo {
            id: c.id.clone(),
            db_type: c.db_type.as_label().to_owned(),
            host: crate::connection::clone_opt_string(&c.host),
            port: c.port,
            database: crate::connection::clone_opt_string(&c.database),
        }
    }
}

} // verus!
