//! Page arithmetic for paginated listings.
//!
//! A listing is cut into pages of `per_page` items, numbered from 1. From the
//! requested page and the number of items, [`PaginationMeta`] tells a client how
//! many pages there are and whether a page lies before or after the current one.

use vstd::arithmetic::div_mod::lemma_fundamental_div_mod;
use vstd::arithmetic::div_mod::lemma_fundamental_div_mod_converse;
use vstd::prelude::*;

verus! {

/// The page a client asks for: its 1-based number and its size.
#[derive(Debug, Clone, Copy, PartialEq, Eq, Structural)]
pub struct PaginationParams {
    pub page: i64,
    pub per_page: i64,
}

impl PaginationParams {
    /// A request names a page from 1 on, of at least one item.
    pub open spec fn valid(&self) -> bool {
        self.page >= 1 && self.per_page > 0
    }
}

impl Default for PaginationParams {
    /// The first page, ten items long.
    fn default() -> (params: Self)
        ensures
            params == (PaginationParams { page: 1, per_page: 10 }),
            params.valid(),
    {
        Self { page: 1, per_page: 10 }
    }
}

/// Summary of where one page stands in the whole listing.
#[derive(Debug, Clone, Copy, PartialEq, Eq, Structural)]
pub struct PaginationMeta {
    pub current_page: i64,
    pub per_page: i64,
    pub total_items: i64,
    pub total_pages: i64,
    pub has_next_page: bool,
    pub has_previous_page: bool,
}

/// One page of items together with its summary.
#[derive(Debug, PartialEq, Eq)]
pub struct PaginatedResponse<T> {
    pub data: Vec<T>,
    pub meta: PaginationMeta,
}

/// Ceiling of `total / per_page` for a positive `per_page`: the least `n`
/// with `n * per_page >= total`.
pub open spec fn ceil_div(total: int, per_page: int) -> int
    recommends
        per_page > 0,
{
    (total + per_page - 1) / per_page
}

/// Ceiling of the rational `total / per_page`, extended to every page size.
///
/// A negative page size divides as the rationals do. A page size of zero gives
/// a count without bound, in the direction of the sign of `total`, and zero
/// when there is no item either.
pub open spec fn page_count(total: int, per_page: int) -> int {
    if per_page > 0 {
        ceil_div(total, per_page)
    } else if per_page < 0 {
        ceil_div(-total, -per_page)
    } else if total > 0 {
        i64::MAX as int
    } else if total < 0 {
        i64::MIN as int
    } else {
        0
    }
}

/// The nearest value of `i64` to `n`.
pub open spec fn saturate(n: int) -> i64 {
    if n > i64::MAX {
        i64::MAX
    } else if n < i64::MIN {
        i64::MIN
    } else {
        n as i64
    }
}

/// The number of pages that `total` items fill, as the summary reports it.
pub open spec fn total_pages_of(total: i64, per_page: i64) -> i64 {
    saturate(page_count(total as int, per_page as int))
}

/// `ceil_div(total, per_page)` is a ceiling: the quotient lies in the unit
/// interval that ends at it.
pub proof fn lemma_ceil_div_is_ceiling(total: int, per_page: int)
    requires
        per_page > 0,
    ensures
        (ceil_div(total, per_page) - 1) * per_page < total <= ceil_div(total, per_page) * per_page,
{
    let x = total + per_page - 1;
    let q = x / per_page;
    lemma_fundamental_div_mod(x, per_page);
    assert((q - 1) * per_page == per_page * q - per_page) by (nonlinear_arith);
    assert(q * per_page == per_page * q) by (nonlinear_arith);
}

/// No other integer is that ceiling: whatever `n` has the quotient in the
/// unit interval that ends at `n` is `ceil_div(total, per_page)`.
pub proof fn lemma_ceiling_is_unique(total: int, per_page: int, n: int)
    requires
        per_page > 0,
        (n - 1) * per_page < total <= n * per_page,
    ensures
        n == ceil_div(total, per_page),
{
    let x = total + per_page - 1;
    let rest = total - 1 - (n - 1) * per_page;
    assert((n - 1) * per_page == n * per_page - per_page) by (nonlinear_arith);
    assert(x == n * per_page + rest);
    lemma_fundamental_div_mod_converse(x, per_page, n, rest);
}

/// With no item there is no page; with some, at least one and at most one for
/// each item.
pub proof fn lemma_ceil_div_bounds(total: int, per_page: int)
    requires
        per_page > 0,
    ensures
        total <= 0 ==> total <= ceil_div(total, per_page) <= 0,
        total == 0 ==> ceil_div(total, per_page) == 0,
        total > 0 ==> 1 <= ceil_div(total, per_page) <= total,
{
    let n = ceil_div(total, per_page);
    lemma_ceil_div_is_ceiling(total, per_page);
    assert(total <= 0 ==> n <= 0) by (nonlinear_arith)
        requires
            per_page > 0,
            (n - 1) * per_page < total,
    ;
    assert(total <= 0 ==> total <= n) by (nonlinear_arith)
        requires
            per_page > 0,
            total <= n * per_page,
    ;
    assert(total == 0 ==> n == 0) by (nonlinear_arith)
        requires
            per_page > 0,
            (n - 1) * per_page < total <= n * per_page,
    ;
    assert(total > 0 ==> 1 <= n <= total) by (nonlinear_arith)
        requires
            per_page > 0,
            (n - 1) * per_page < total <= n * per_page,
    ;
}

/// How many pages of `per_page` items `total` items fill.
///
/// Never fails. For a positive page size this is the exact ceiling of
/// `total / per_page`; see [`page_count`] for the other page sizes.
pub fn total_pages(total: i64, per_page: i64) -> (pages: i64)
    ensures
        pages == total_pages_of(total, per_page),
        total >= 0 && per_page > 0 ==> pages == ceil_div(total as int, per_page as int),
{
    if per_page == 0 {
        return if total > 0 {
            i64::MAX
        } else if total < 0 {
            i64::MIN
        } else {
            0
        };
    }
    let wide_total: i128 = total as i128;
    let wide_size: i128 = per_page as i128;
    // Divide by a positive size: flipping both signs keeps the quotient.
    let items: i128 = if wide_size < 0 { -wide_total } else { wide_total };
    let size: i128 = if wide_size < 0 { -wide_size } else { wide_size };
    let pages: i128 = if items > 0 {
        (items + size - 1) / size
    } else {
        let whole: i128 = (-items) / size;
        proof {
            lemma_fundamental_div_mod(-items as int, size as int);
            assert(size * whole == whole * size) by (nonlinear_arith);
            assert((-whole - 1) * size == -(whole * size) - size) by (nonlinear_arith);
            assert((-whole) * size == -(whole * size)) by (nonlinear_arith);
            lemma_ceiling_is_unique(items as int, size as int, -whole as int);
        }
        -whole
    };
    proof {
        lemma_ceil_div_bounds(items as int, size as int);
    }
    if pages > i64::MAX as i128 {
        i64::MAX
    } else if pages < i64::MIN as i128 {
        i64::MIN
    } else {
        pages as i64
    }
}

impl PaginationMeta {
    /// The summary of page `params.page` in a listing of `total` items.
    pub open spec fn of(total: i64, params: PaginationParams) -> PaginationMeta {
        PaginationMeta {
            current_page: params.page,
            per_page: params.per_page,
            total_items: total,
            total_pages: total_pages_of(total, params.per_page),
            has_next_page: params.page < total_pages_of(total, params.per_page),
            has_previous_page: params.page > 1,
        }
    }

    /// Summarises page `pagination.page` of a listing of `total` items.
    ///
    /// Nothing is validated and nothing fails: a caller that wants only
    /// meaningful summaries rejects a page below 1 or a page size below 1
    /// before it gets here.
    pub fn new(total: i64, pagination: &PaginationParams) -> (meta: Self)
        ensures
            meta == Self::of(total, *pagination),
    {
        let total_pages: i64 = total_pages(total, pagination.per_page);
        PaginationMeta {
            current_page: pagination.page,
            per_page: pagination.per_page,
            total_items: total,
            total_pages,
            has_next_page: pagination.page < total_pages,
            has_previous_page: pagination.page > 1,
        }
    }
}

impl<T> PaginatedResponse<T> {
    /// Wraps the items of one page with the summary of that page.
    ///
    /// The items are kept as they are, in their order; `total` is the number
    /// of items in the whole listing and need not be `data.len()`.
    pub fn new(data: Vec<T>, total: i64, pagination: &PaginationParams) -> (response: Self)
        ensures
            response.data == data,
            response.meta == PaginationMeta::of(total, *pagination),
    {
        Self { data, meta: PaginationMeta::new(total, pagination) }
    }
}

/// For a listing of `total >= 0` items and a valid request, the number of
/// pages is the ceiling of `total / per_page`, a next page exists exactly when
/// the current one is before the last, and a previous page exists exactly
/// when the current one is after the first.
pub proof fn lemma_meta_of_valid_request(total: i64, params: PaginationParams)
    requires
        total >= 0,
        params.valid(),
    ensures
        ({
            let meta = PaginationMeta::of(total, params);
            &&& meta.total_pages == ceil_div(total as int, params.per_page as int)
            &&& (meta.total_pages - 1) * params.per_page < total <= meta.total_pages * params.per_page
            &&& 0 <= meta.total_pages <= total
            &&& meta.has_next_page <==> params.page < meta.total_pages
            &&& meta.has_previous_page <==> params.page > 1
            &&& meta.current_page == params.page
            &&& meta.per_page == params.per_page
            &&& meta.total_items == total
        }),
{
    lemma_ceil_div_is_ceiling(total as int, params.per_page as int);
    lemma_ceil_div_bounds(total as int, params.per_page as int);
}

/// A next page exists exactly when items remain beyond the current page.
pub proof fn lemma_next_page_iff_items_remain(total: i64, params: PaginationParams)
    requires
        total >= 0,
        params.valid(),
    ensures
        PaginationMeta::of(total, params).has_next_page <==> params.page * params.per_page < total,
{
    let pages = ceil_div(total as int, params.per_page as int);
    let page = params.page as int;
    let size = params.per_page as int;
    lemma_meta_of_valid_request(total, params);
    assert(page < pages ==> page * size < total) by (nonlinear_arith)
        requires
            size > 0,
            (pages - 1) * size < total,
    ;
    assert(page * size < total ==> page < pages) by (nonlinear_arith)
        requires
            size > 0,
            total <= pages * size,
    ;
}

/// An empty listing has no page, and so neither a next nor, on its first
/// page, a previous one.
pub proof fn lemma_empty_listing(params: PaginationParams)
    requires
        params.valid(),
    ensures
        PaginationMeta::of(0, params).total_pages == 0,
        !PaginationMeta::of(0, params).has_next_page,
        params.page == 1 ==> !PaginationMeta::of(0, params).has_previous_page,
{
    lemma_meta_of_valid_request(0, params);
}

} // verus!
