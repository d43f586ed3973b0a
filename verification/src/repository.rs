//! The repository contract: what finding, creating, updating, soft-deleting
//! and listing do to a table of rows, and when each is refused.
//!
//! A table is a sequence of rows in the order of their insertion. A row is
//! never removed: a soft delete marks it as no longer live, and from then on
//! reads pass it over. The contract describes one connection at work; it says
//! nothing of what other connections do between two calls.

use crate::error::ApiError;
use crate::error::ErrorCode;
use crate::model::BaseModel;
use crate::model::Organization;
use crate::pagination::saturate;
use crate::pagination::PaginationParams;
use vstd::prelude::*;

verus! {

/// Row `i` of `rows` has the identifier `id`.
pub open spec fn holds_id<M: BaseModel>(rows: Seq<M>, id: u128, i: int) -> bool {
    0 <= i < rows.len() && rows[i].model_id() == id
}

/// Row `i` of `rows` has the identifier `id` and is live.
pub open spec fn live_at<M: BaseModel>(rows: Seq<M>, id: u128, i: int) -> bool {
    holds_id(rows, id, i) && rows[i].is_live()
}

/// Some row, live or not, has the identifier `id`.
pub open spec fn has_id<M: BaseModel>(rows: Seq<M>, id: u128) -> bool {
    exists|i: int| holds_id(rows, id, i)
}

/// Some live row has the identifier `id`.
pub open spec fn has_live<M: BaseModel>(rows: Seq<M>, id: u128) -> bool {
    exists|i: int| live_at(rows, id, i)
}

/// Where the row with the identifier `id` stands, if there is one.
pub open spec fn index_of<M: BaseModel>(rows: Seq<M>, id: u128) -> int {
    choose|i: int| holds_id(rows, id, i)
}

/// Row `j` of `rows` is live and a uniqueness rule sets it against `model`.
pub open spec fn rival_at<M: BaseModel>(rows: Seq<M>, model: M, j: int) -> bool {
    0 <= j < rows.len() && rows[j].is_live() && rows[j].collides(&model)
}

/// Some live row other than row `except` is set against `model` by a
/// uniqueness rule.
pub open spec fn has_rival<M: BaseModel>(rows: Seq<M>, model: M, except: int) -> bool {
    exists|j: int| j != except && rival_at(rows, model, j)
}

/// A table is well formed when no two rows share an identifier and no
/// uniqueness rule sets two live rows against each other.
pub open spec fn well_formed<M: BaseModel>(rows: Seq<M>) -> bool {
    &&& forall|i: int, j: int|
        0 <= i < rows.len() && 0 <= j < rows.len() && i != j ==> #[trigger] rows[i].model_id()
            != #[trigger] rows[j].model_id()
    &&& forall|i: int, j: int|
        0 <= i < rows.len() && i != j && #[trigger] rival_at(rows, rows[i], j) ==> !rows[i].is_live()
}

/// The live rows, in the order of their insertion.
pub open spec fn live_rows<M: BaseModel>(rows: Seq<M>) -> Seq<M> {
    rows.filter(|row: M| row.is_live())
}

/// The items of page `params.page` when `items` is cut into pages of
/// `params.per_page`: those from item `(page - 1) * per_page` up to, and
/// without, item `page * per_page`, as far as there are such items.
pub open spec fn page_of<A>(items: Seq<A>, params: PaginationParams) -> Seq<A>
    recommends
        params.valid(),
{
    let first = (params.page - 1) * params.per_page;
    let from = if first < items.len() {
        first
    } else {
        items.len() as int
    };
    let to = if first + params.per_page < items.len() {
        first + params.per_page
    } else {
        items.len() as int
    };
    items.subrange(from, to)
}

/// Why a row with the identifier `id` cannot be read or soft-deleted, if it
/// cannot: no live row has that identifier.
pub open spec fn find_refusal<M: BaseModel>(rows: Seq<M>, id: u128) -> Option<ErrorCode> {
    if has_live(rows, id) {
        None
    } else {
        Some(ErrorCode::NotFound)
    }
}

/// Why `model` cannot be created, if it cannot: its identifier is in use, or
/// a uniqueness rule sets it against a live row.
pub open spec fn create_refusal<M: BaseModel>(rows: Seq<M>, model: M) -> Option<ErrorCode> {
    if has_id(rows, model.model_id()) || has_rival(rows, model, -1) {
        Some(ErrorCode::Conflict)
    } else {
        None
    }
}

/// Why the row with the identifier `id` cannot be updated to `model`, if it
/// cannot: no live row has that identifier, or a uniqueness rule sets `model`
/// against another live row.
pub open spec fn update_refusal<M: BaseModel>(rows: Seq<M>, id: u128, model: M) -> Option<
    ErrorCode,
> {
    if !has_live(rows, id) {
        Some(ErrorCode::NotFound)
    } else if has_rival(rows, model, index_of(rows, id)) {
        Some(ErrorCode::Conflict)
    } else {
        None
    }
}

/// A failure of the service itself rather than a refusal of the request.
pub open spec fn is_infrastructure(code: ErrorCode) -> bool {
    code == ErrorCode::DatabaseError || code == ErrorCode::ConnectionPoolError
}

/// `outcome` agrees with `refusal`: it succeeds only where nothing refuses
/// the request, and where it fails, it fails with the refusal's category or
/// because the service itself failed.
pub open spec fn agrees<T>(outcome: Result<T, ApiError>, refusal: Option<ErrorCode>) -> bool {
    match outcome {
        Ok(_) => refusal is None,
        Err(error) => is_infrastructure(error.code) || refusal == Some(error.code),
    }
}

/// In a well-formed table the row with a given identifier stands at one
/// place only.
pub proof fn lemma_index_of<M: BaseModel>(rows: Seq<M>, id: u128, i: int)
    requires
        well_formed(rows),
        holds_id(rows, id, i),
    ensures
        index_of(rows, id) == i,
{
    let k = index_of(rows, id);
    assert(holds_id(rows, id, k));
    if k != i {
        assert(rows[k].model_id() != rows[i].model_id());
    }
}

/// Creating an entity that a uniqueness rule sets against a live row is
/// refused as a conflict, and so is creating one under an identifier in use.
pub proof fn lemma_create_collision_is_conflict<M: BaseModel>(rows: Seq<M>, model: M, j: int)
    requires
        rival_at(rows, model, j) || holds_id(rows, model.model_id(), j),
    ensures
        create_refusal(rows, model) == Some(ErrorCode::Conflict),
{
    if rival_at(rows, model, j) {
        assert(j != -1 && rival_at(rows, model, j));
    }
}

/// Creating an organization under the name of a live organization is refused
/// as a conflict.
pub proof fn lemma_name_of_live_organization_is_conflict(
    rows: Seq<Organization>,
    model: Organization,
    j: int,
)
    requires
        0 <= j < rows.len(),
        !rows[j].deleted,
        rows[j].name@ == model.name@,
    ensures
        create_refusal(rows, model) == Some(ErrorCode::Conflict),
{
    lemma_create_collision_is_conflict(rows, model, j);
}

/// Reading, updating and soft-deleting under an identifier that no row has
/// are refused as not found.
pub proof fn lemma_unknown_id_is_not_found<M: BaseModel>(rows: Seq<M>, id: u128, model: M)
    requires
        !has_id(rows, id),
    ensures
        find_refusal(rows, id) == Some(ErrorCode::NotFound),
        update_refusal(rows, id, model) == Some(ErrorCode::NotFound),
{
    assert forall|i: int| !live_at(rows, id, i) by {
        if live_at(rows, id, i) {
            assert(holds_id(rows, id, i));
        }
    }
}

/// A call whose outcome agrees with a refusal, and that was not failed by the
/// service itself, failed with the category of the refusal.
pub proof fn lemma_refusal_decides<T>(outcome: Result<T, ApiError>, code: ErrorCode)
    requires
        agrees(outcome, Some(code)),
    ensures
        outcome is Err,
        !is_infrastructure(outcome->Err_0.code) ==> outcome->Err_0.code == code,
{
}

/// A page never holds more items than the page size, and keeps the order of
/// the items.
pub proof fn lemma_page_of_is_bounded<A>(items: Seq<A>, params: PaginationParams)
    requires
        params.valid(),
    ensures
        page_of(items, params).len() <= params.per_page,
        page_of(items, params).len() <= items.len(),
        forall|k: int|
            0 <= k < page_of(items, params).len() ==> #[trigger] page_of(items, params)[k]
                == items[(params.page - 1) * params.per_page + k],
{
    let first = (params.page - 1) * params.per_page;
    assert(first >= 0) by (nonlinear_arith)
        requires
            first == (params.page - 1) * params.per_page,
            params.page >= 1,
            params.per_page > 0,
    ;
}

/// A read of the row with the identifier `id` in `rows` came out as `found`:
/// the live row with that identifier, or not found where there is none.
pub open spec fn found_in<M: BaseModel>(rows: Seq<M>, id: u128, found: Result<M, ApiError>) -> bool {
    &&& agrees(found, find_refusal(rows, id))
    &&& found matches Ok(row) ==> row == rows[index_of(rows, id)]
}

/// Creating `model` came out as `created` and made `after` of `before`: the
/// new row stands after the rows there were, is live and has the identifier
/// of `model`; a refusal changes nothing.
pub open spec fn created_in<M: BaseModel>(
    before: Seq<M>,
    after: Seq<M>,
    model: M,
    created: Result<M, ApiError>,
) -> bool {
    &&& agrees(created, create_refusal(before, model))
    &&& match created {
        Ok(row) => after == before.push(row) && row.model_id() == model.model_id() && row.is_live(),
        Err(_) => after == before,
    }
}

/// Updating the row with the identifier `id` to `model` came out as
/// `updated` and made `after` of `before`: the row is replaced where it
/// stood by a live row with the same identifier; a refusal changes nothing.
pub open spec fn updated_in<M: BaseModel>(
    before: Seq<M>,
    after: Seq<M>,
    id: u128,
    model: M,
    updated: Result<M, ApiError>,
) -> bool {
    &&& agrees(updated, update_refusal(before, id, model))
    &&& match updated {
        Ok(row) => after == before.update(index_of(before, id), row) && row.model_id() == id
            && row.is_live(),
        Err(_) => after == before,
    }
}

/// Soft-deleting the row with the identifier `id` came out as `deleted` and
/// made `after` of `before`: the row stays where it stood, with the same
/// identifier, and is no longer live; a refusal changes nothing.
pub open spec fn deleted_in<M: BaseModel>(
    before: Seq<M>,
    after: Seq<M>,
    id: u128,
    deleted: Result<M, ApiError>,
) -> bool {
    &&& agrees(deleted, find_refusal(before, id))
    &&& match deleted {
        Ok(row) => after == before.update(index_of(before, id), row) && row.model_id() == id
            && !row.is_live(),
        Err(_) => after == before,
    }
}

/// Listing page `pagination` of `rows` came out as `listed`: the live rows of
/// that page in the order of their insertion.
pub open spec fn listed_in<M: BaseModel>(
    rows: Seq<M>,
    pagination: PaginationParams,
    listed: Result<Vec<M>, ApiError>,
) -> bool {
    &&& agrees(listed, None)
    &&& listed matches Ok(page) ==> page@ == page_of(live_rows(rows), pagination)
}

/// The number of live rows in `rows`, as a listing reports it as its total.
pub open spec fn live_count<M: BaseModel>(rows: Seq<M>) -> i64 {
    saturate(live_rows(rows).len() as int)
}

/// Counting the live rows of `rows` came out as `counted`: their number.
pub open spec fn counted_in<M: BaseModel>(rows: Seq<M>, counted: Result<i64, ApiError>) -> bool {
    &&& agrees(counted, None)
    &&& counted matches Ok(total) ==> total == live_count(rows)
}

/// Looking for the organization with the name `name` in `rows` came out as
/// `found`: a live row with that name, or none where no live row has it.
pub open spec fn named_in(
    rows: Seq<Organization>,
    name: Seq<char>,
    found: Result<Option<Organization>, ApiError>,
) -> bool {
    &&& agrees(found, None)
    &&& match found {
        Ok(Some(row)) => exists|i: int|
            0 <= i < rows.len() && #[trigger] rows[i] == row && !row.deleted && row.name@ == name,
        Ok(None) => forall|i: int|
            0 <= i < rows.len() && !(#[trigger] rows[i]).deleted ==> rows[i].name@ != name,
        Err(_) => true,
    }
}

/// Once the row with the identifier `id` has been soft-deleted, reading it,
/// updating it and soft-deleting it again are refused as not found.
pub proof fn lemma_soft_deleted_is_not_found<M: BaseModel>(
    before: Seq<M>,
    after: Seq<M>,
    id: u128,
    deleted: Result<M, ApiError>,
    model: M,
)
    requires
        well_formed(before),
        deleted is Ok,
        deleted_in(before, after, id, deleted),
    ensures
        find_refusal(after, id) == Some(ErrorCode::NotFound),
        update_refusal(after, id, model) == Some(ErrorCode::NotFound),
{
    let i = choose|i: int| live_at(before, id, i);
    lemma_index_of(before, id, i);
    assert forall|k: int| !live_at(after, id, k) by {
        if 0 <= k < after.len() && k != i {
            assert(after[k] == before[k]);
            assert(before[k].model_id() != before[i].model_id());
        }
    }
}

/// A read that follows a soft delete of the same row does not succeed, and
/// unless the service itself fails, it fails as not found.
pub proof fn lemma_read_after_soft_delete<M: BaseModel>(
    before: Seq<M>,
    after: Seq<M>,
    id: u128,
    deleted: Result<M, ApiError>,
    found: Result<M, ApiError>,
)
    requires
        well_formed(before),
        deleted is Ok,
        deleted_in(before, after, id, deleted),
        found_in(after, id, found),
    ensures
        found matches Err(error) && (error.code == ErrorCode::NotFound || is_infrastructure(
            error.code,
        )),
{
    lemma_soft_deleted_is_not_found(before, after, id, deleted, deleted->Ok_0);
}

/// `outcome` fails, if it fails, with one of two categories or because the
/// service itself failed.
pub open spec fn fails_as<T>(outcome: Result<T, ApiError>, first: ErrorCode, second: ErrorCode) -> bool {
    outcome matches Err(error) ==> error.code == first || error.code == second || is_infrastructure(
        error.code,
    )
}

/// Reading, creating, updating, soft-deleting and listing the rows of one kind
/// of entity through a connection.
///
/// What a call does to the rows is said by [`found_in`], [`created_in`],
/// [`updated_in`], [`deleted_in`], [`listed_in`] and [`counted_in`]. The rows
/// behind a
/// connection are out of sight here, so the methods promise of these only what
/// shows in the outcome itself. Every call may fail because the service itself
/// fails, with a database or a pool error.
pub trait BaseRepository<M: BaseModel> {
    /// What the rows are reached through.
    type Conn;

    /// The live row with the identifier `id`. Not found where there is none,
    /// be it that no row has the identifier or that the row was soft-deleted.
    fn find_by_id(conn: &mut Self::Conn, id: u128) -> (found: Result<M, ApiError>)
        ensures
            found matches Ok(row) ==> row.model_id() == id && row.is_live(),
            fails_as(found, ErrorCode::NotFound, ErrorCode::NotFound),
    ;

    /// Adds `model` after the rows there are and returns the new row, which
    /// is live and has the identifier of `model`. A conflict where the
    /// identifier is in use or a uniqueness rule sets `model` against a live
    /// row.
    fn create(conn: &mut Self::Conn, model: &M) -> (created: Result<M, ApiError>)
        ensures
            created matches Ok(row) ==> row.model_id() == model.model_id() && row.is_live(),
            fails_as(created, ErrorCode::Conflict, ErrorCode::Conflict),
    ;

    /// Replaces the live row with the identifier `id` by a live row with the
    /// same identifier and returns it. Not found where no live row has the
    /// identifier; a conflict where a uniqueness rule sets `model` against
    /// another live row.
    fn update(conn: &mut Self::Conn, id: u128, model: &M) -> (updated: Result<M, ApiError>)
        ensures
            updated matches Ok(row) ==> row.model_id() == id && row.is_live(),
            fails_as(updated, ErrorCode::NotFound, ErrorCode::Conflict),
    ;

    /// Marks the live row with the identifier `id` as deleted and returns
    /// it as it then is. The row stays in the table. Not found where no live
    /// row has the identifier, so also where it was soft-deleted before.
    fn soft_delete(conn: &mut Self::Conn, id: u128) -> (deleted: Result<M, ApiError>)
        ensures
            deleted matches Ok(row) ==> row.model_id() == id && !row.is_live(),
            fails_as(deleted, ErrorCode::NotFound, ErrorCode::NotFound),
    ;

    /// The live rows of the requested page, in the order of their insertion:
    /// never more than `pagination.per_page`.
    fn list(conn: &mut Self::Conn, pagination: &PaginationParams) -> (listed: Result<
        Vec<M>,
        ApiError,
    >)
        requires
            pagination.valid(),
        ensures
            listed matches Ok(page) ==> page@.len() <= pagination.per_page && forall|k: int|
                0 <= k < page@.len() ==> (#[trigger] page@[k]).is_live(),
            listed matches Err(error) ==> is_infrastructure(error.code),
    ;

    /// The number of live rows, which is the total of a listing whatever
    /// page of it is asked for.
    fn count(conn: &mut Self::Conn) -> (counted: Result<i64, ApiError>)
        ensures
            counted matches Ok(total) ==> total >= 0,
            counted matches Err(error) ==> is_infrastructure(error.code),
    ;
}

/// The repository of organizations: beside what every repository does, it
/// finds an organization by its name. [`named_in`] says what that does.
pub trait OrganizationRepository: BaseRepository<Organization> {
    /// The live organization with the name `name`, or `None` where no live
    /// organization has it.
    fn find_by_name(&self, conn: &mut Self::Conn, name: &str) -> (found: Result<
        Option<Organization>,
        ApiError,
    >)
        ensures
            found matches Ok(Some(row)) ==> !row.deleted && row.name@ == name@,
            found matches Err(error) ==> is_infrastructure(error.code),
    ;
}

} // verus!
