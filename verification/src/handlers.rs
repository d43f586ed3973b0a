//! What each endpoint answers.
//!
//! A handler is given the outcome of the work done for a request, and decides
//! the reply: the status, and what the envelope carries. Reaching the database
//! and speaking HTTP are left to the caller.
//!
//! | request                         | served | refused or failed |
//! |---------------------------------|--------|-------------------|
//! | `POST /organizations`           | 201    | 400, 500          |
//! | `GET /organizations/{id}`       | 200    | 404, 500          |
//! | `PUT /organizations/{id}`       | 200    | 400, 404, 500     |
//! | `DELETE /organizations/{id}`    | 204    | 404, 500          |
//! | `GET /organizations`            | 200    | 400, 500          |

use crate::error::ApiError;
use crate::error::DatabaseError;
use crate::error::ErrorCode;
use crate::error::ErrorContext;
use crate::model::BaseModel;
use crate::model::Organization;
use crate::pagination::ceil_div;
use crate::pagination::lemma_meta_of_valid_request;
use crate::pagination::lemma_next_page_iff_items_remain;
use crate::pagination::PaginatedResponse;
use crate::pagination::PaginationMeta;
use crate::pagination::PaginationParams;
use crate::repository::agrees;
use crate::repository::counted_in;
use crate::repository::created_in;
use crate::repository::deleted_in;
use crate::repository::found_in;
use crate::repository::listed_in;
use crate::repository::live_count;
use crate::repository::live_rows;
use crate::repository::page_of;
use crate::repository::updated_in;
use crate::response::HttpReply;
use crate::response::OrganizationResponse;
use vstd::arithmetic::div_mod::lemma_fundamental_div_mod;
use vstd::prelude::*;

verus! {

/// The error of a handler that could not get a connection from the pool.
/// `reason` is what the pool said.
pub fn connection_unavailable(reason: String) -> (error: ApiError)
    ensures
        error.translates(DatabaseError::PoolError(reason)),
        error.code == ErrorCode::ConnectionPoolError,
        error.code.status_of() == 500,
{
    ApiError::from(DatabaseError::PoolError(reason))
}

/// Answers `GET /organizations/{id}`: 200 with the organization that was
/// found, or the reply to the error.
pub fn get_organization(found: Result<Organization, ApiError>) -> (reply: HttpReply<
    OrganizationResponse,
>)
    ensures
        reply.status == status_for(found, 200),
        match found {
            Ok(organization) => reply.is_success(200, OrganizationResponse { organization }),
            Err(error) => reply.is_failure(error),
        },
{
    match found {
        Ok(organization) => HttpReply::success(200, OrganizationResponse { organization }),
        Err(error) => HttpReply::failure(&error),
    }
}

/// Answers `POST /organizations`: 201 with the organization that was
/// created, or the reply to the error.
pub fn create_organization(created: Result<Organization, ApiError>) -> (reply: HttpReply<
    OrganizationResponse,
>)
    ensures
        reply.status == status_for(created, 201),
        match created {
            Ok(organization) => reply.is_success(201, OrganizationResponse { organization }),
            Err(error) => reply.is_failure(error),
        },
{
    match created {
        Ok(organization) => HttpReply::success(201, OrganizationResponse { organization }),
        Err(error) => HttpReply::failure(&error),
    }
}

/// Answers `PUT /organizations/{id}`: 200 with the organization as it is
/// after the update, or the reply to the error.
pub fn update_organization(updated: Result<Organization, ApiError>) -> (reply: HttpReply<
    OrganizationResponse,
>)
    ensures
        reply.status == status_for(updated, 200),
        match updated {
            Ok(organization) => reply.is_success(200, OrganizationResponse { organization }),
            Err(error) => reply.is_failure(error),
        },
{
    match updated {
        Ok(organization) => HttpReply::success(200, OrganizationResponse { organization }),
        Err(error) => HttpReply::failure(&error),
    }
}

/// Answers `DELETE /organizations/{id}`: 204 without a body once the
/// organization is deleted, or the reply to the error.
pub fn delete_organization(deleted: Result<Organization, ApiError>) -> (reply: HttpReply<
    OrganizationResponse,
>)
    ensures
        reply.status == status_for(deleted, 204),
        match deleted {
            Ok(_) => reply.status == 204 && reply.body is None,
            Err(error) => reply.is_failure(error),
        },
{
    match deleted {
        Ok(_) => HttpReply::no_content(),
        Err(error) => HttpReply::failure(&error),
    }
}

/// The page size that a listing is asked for: `limit`, or 10 where the query
/// names none.
pub open spec fn limit_of(limit: Option<i64>) -> i64 {
    match limit {
        Some(limit) => limit,
        None => 10,
    }
}

/// The number of items that a listing is asked to skip: `offset`, or 0 where
/// the query names none.
pub open spec fn offset_of(offset: Option<i64>) -> i64 {
    match offset {
        Some(offset) => offset,
        None => 0,
    }
}

/// What is wrong with the query of a listing, if anything: the first of a
/// limit below 1, an offset below 0, and an offset so large that the number
/// of its page is no `i64`.
pub open spec fn query_fault(limit: Option<i64>, offset: Option<i64>) -> Option<Seq<char>> {
    if limit_of(limit) <= 0 {
        Some("limit must be positive"@)
    } else if offset_of(offset) < 0 {
        Some("offset must not be negative"@)
    } else if offset_of(offset) / limit_of(limit) + 1 > i64::MAX {
        Some("offset is too large"@)
    } else {
        None
    }
}

/// `error` is the validation error with the message `message`: nothing else
/// is known of it, and nothing caused it.
pub open spec fn is_validation_error(error: ApiError, message: Seq<char>) -> bool {
    &&& error.code == ErrorCode::Validation
    &&& error.message@ == message
    &&& error.context.details@.len() == 0
    &&& error.source is None
}

fn validation_error(message: &str) -> (error: ApiError)
    ensures
        is_validation_error(error, message@),
{
    ApiError::new(ErrorCode::Validation, String::from_str(message), ErrorContext::new())
}

/// Reads the query of `GET /organizations` as the request for a page.
///
/// The page size is `limit`, 10 by default. The page is the one on which the
/// item at `offset` lies, 0 by default: page `offset / limit + 1`. An offset
/// between two pages is thus taken back to the start of its page. A query
/// that names no such page is a validation error, see [`query_fault`].
pub fn page_request(limit: Option<i64>, offset: Option<i64>) -> (request: Result<
    PaginationParams,
    ApiError,
>)
    ensures
        match request {
            Ok(params) => {
                &&& query_fault(limit, offset) is None
                &&& params.per_page == limit_of(limit)
                &&& params.page == offset_of(offset) / limit_of(limit) + 1
                &&& params.valid()
                &&& (params.page - 1) * params.per_page <= offset_of(offset) < params.page
                    * params.per_page
            },
            Err(error) => {
                &&& query_fault(limit, offset) matches Some(message)
                &&& is_validation_error(error, message)
            },
        },
{
    let per_page: i64 = match limit {
        Some(limit) => limit,
        None => 10,
    };
    let skipped: i64 = match offset {
        Some(offset) => offset,
        None => 0,
    };
    if per_page <= 0 {
        return Err(validation_error("limit must be positive"));
    }
    if skipped < 0 {
        return Err(validation_error("offset must not be negative"));
    }
    let before: i64 = skipped / per_page;
    if before == i64::MAX {
        return Err(validation_error("offset is too large"));
    }
    proof {
        lemma_fundamental_div_mod(skipped as int, per_page as int);
        let rest = (skipped as int) % (per_page as int);
        assert(before * per_page == per_page * before) by (nonlinear_arith);
        assert((before + 1) * per_page == before * per_page + per_page) by (nonlinear_arith);
        assert(before >= 0) by (nonlinear_arith)
            requires
                per_page > 0,
                skipped >= 0,
                skipped == per_page * before + rest,
                0 <= rest < per_page,
        ;
    }
    Ok(PaginationParams { page: before + 1, per_page })
}

/// What listing a page and counting the whole listing came to together: the
/// rows with the total, or the error of the first of the two that failed.
pub open spec fn listing_of(
    listed: Result<Vec<Organization>, ApiError>,
    counted: Result<i64, ApiError>,
) -> Result<(Vec<Organization>, i64), ApiError> {
    match listed {
        Ok(rows) => match counted {
            Ok(total) => Ok((rows, total)),
            Err(error) => Err(error),
        },
        Err(error) => Err(error),
    }
}

/// Answers `GET /organizations`: 200 with the rows that were listed and the
/// summary of their page, or the reply to the error.
///
/// `listed` holds the rows of page `pagination` and `counted` the number of
/// items of the whole listing. The summary is that of the whole listing: its
/// total is `counted`, whatever the number of rows on the page.
pub fn list_organizations(
    listed: Result<Vec<Organization>, ApiError>,
    counted: Result<i64, ApiError>,
    pagination: &PaginationParams,
) -> (reply: HttpReply<PaginatedResponse<Organization>>)
    ensures
        reply.status == status_for(listing_of(listed, counted), 200),
        match listing_of(listed, counted) {
            Ok((rows, total)) => {
                &&& reply.status == 200
                &&& reply.body matches Some(envelope)
                &&& envelope.error is None
                &&& envelope.status@ == "success"@
                &&& envelope.data matches Some(page)
                &&& page.data == rows
                &&& page.meta == PaginationMeta::of(total, *pagination)
            },
            Err(error) => reply.is_failure(error),
        },
{
    match listed {
        Ok(rows) => match counted {
            Ok(total) => HttpReply::success(200, PaginatedResponse::new(rows, total, pagination)),
            Err(error) => HttpReply::failure(&error),
        },
        Err(error) => HttpReply::failure(&error),
    }
}

/// The status of the reply to `outcome` where `served` is the status of
/// success: `served`, or the status of the error's category.
pub open spec fn status_for<T>(outcome: Result<T, ApiError>, served: u16) -> u16 {
    match outcome {
        Ok(_) => served,
        Err(error) => error.code.status_of(),
    }
}

/// Where the outcome of the work agrees with what the repository refuses,
/// the reply has the status of success, or that of the refusal, or 500.
pub proof fn lemma_status_of_outcome<T>(
    outcome: Result<T, ApiError>,
    refusal: Option<ErrorCode>,
    served: u16,
)
    requires
        agrees(outcome, refusal),
    ensures
        outcome is Ok ==> refusal is None && status_for(outcome, served) == served,
        outcome is Err ==> status_for(outcome, served) == 500 || (refusal matches Some(code)
            && status_for(outcome, served) == code.status_of()),
{
}

/// A read answers 200, 404 or 500.
pub proof fn lemma_statuses_of_read<M: BaseModel>(rows: Seq<M>, id: u128, found: Result<M, ApiError>)
    requires
        found_in(rows, id, found),
    ensures
        status_for(found, 200) == 200 || status_for(found, 200) == 404 || status_for(found, 200)
            == 500,
{
}

/// A creation answers 201, 400 or 500.
pub proof fn lemma_statuses_of_creation<M: BaseModel>(
    before: Seq<M>,
    after: Seq<M>,
    model: M,
    created: Result<M, ApiError>,
)
    requires
        created_in(before, after, model, created),
    ensures
        status_for(created, 201) == 201 || status_for(created, 201) == 400 || status_for(
            created,
            201,
        ) == 500,
{
}

/// An update answers 200, 400, 404 or 500.
pub proof fn lemma_statuses_of_update<M: BaseModel>(
    before: Seq<M>,
    after: Seq<M>,
    id: u128,
    model: M,
    updated: Result<M, ApiError>,
)
    requires
        updated_in(before, after, id, model, updated),
    ensures
        status_for(updated, 200) == 200 || status_for(updated, 200) == 400 || status_for(
            updated,
            200,
        ) == 404 || status_for(updated, 200) == 500,
{
}

/// A deletion answers 204, 404 or 500.
pub proof fn lemma_statuses_of_deletion<M: BaseModel>(
    before: Seq<M>,
    after: Seq<M>,
    id: u128,
    deleted: Result<M, ApiError>,
)
    requires
        deleted_in(before, after, id, deleted),
    ensures
        status_for(deleted, 204) == 204 || status_for(deleted, 204) == 404 || status_for(
            deleted,
            204,
        ) == 500,
{
}

/// A listing answers 200 or 500 once its query is accepted, and 400 where
/// the query is not.
pub proof fn lemma_statuses_of_listing(
    rows: Seq<Organization>,
    pagination: PaginationParams,
    listed: Result<Vec<Organization>, ApiError>,
    counted: Result<i64, ApiError>,
    rejected: ApiError,
    message: Seq<char>,
)
    requires
        listed_in(rows, pagination, listed),
        counted_in(rows, counted),
        is_validation_error(rejected, message),
    ensures
        status_for(listing_of(listed, counted), 200) == 200 || status_for(
            listing_of(listed, counted),
            200,
        ) == 500,
        status_for(listing_of(Err(rejected), counted), 200) == 400,
{
}

/// The summary of a listing is that of the whole listing. Where page
/// `pagination` of `rows` was listed and the live rows were counted, the
/// total is the number of live rows, the number of pages is the ceiling of
/// the total by the page size, and a next page exists exactly when live rows
/// remain beyond the page.
pub proof fn lemma_summary_of_listing(
    rows: Seq<Organization>,
    pagination: PaginationParams,
    listed: Result<Vec<Organization>, ApiError>,
    counted: Result<i64, ApiError>,
)
    requires
        pagination.valid(),
        listed_in(rows, pagination, listed),
        counted_in(rows, counted),
        listing_of(listed, counted) is Ok,
    ensures
        ({
            let (page, total) = listing_of(listed, counted)->Ok_0;
            let meta = PaginationMeta::of(total, pagination);
            &&& page@ == page_of(live_rows(rows), pagination)
            &&& meta.total_items == live_count(rows)
            &&& meta.total_pages == ceil_div(meta.total_items as int, pagination.per_page as int)
            &&& meta.has_next_page <==> pagination.page * pagination.per_page < meta.total_items
            &&& meta.has_previous_page <==> pagination.page > 1
        }),
{
    let total = counted->Ok_0;
    lemma_meta_of_valid_request(total, pagination);
    lemma_next_page_iff_items_remain(total, pagination);
}

} // verus!
