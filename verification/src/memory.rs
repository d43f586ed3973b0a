//! A repository of organizations that keeps its table in memory.
//!
//! It does what the repository contract says and nothing else: it never fails
//! on its own account, so each of its outcomes is decided by the rows alone.

use crate::error::ApiError;
use crate::error::DatabaseError;
use crate::error::ErrorCode;
use crate::model::BaseModel;
use crate::model::Organization;
use crate::pagination::PaginationParams;
use crate::repository::counted_in;
use crate::repository::create_refusal;
use crate::repository::created_in;
use crate::repository::deleted_in;
use crate::repository::found_in;
use crate::repository::has_id;
use crate::repository::has_live;
use crate::repository::has_rival;
use crate::repository::holds_id;
use crate::repository::index_of;
use crate::repository::lemma_index_of;
use crate::repository::lemma_page_of_is_bounded;
use crate::repository::listed_in;
use crate::repository::live_at;
use crate::repository::live_rows;
use crate::repository::named_in;
use crate::repository::page_of;
use crate::repository::rival_at;
use crate::repository::update_refusal;
use crate::repository::updated_in;
use crate::repository::well_formed;
use crate::repository::BaseRepository;
use crate::repository::OrganizationRepository;
use vstd::prelude::*;

verus! {

/// A table of organizations, in the order of their insertion.
#[derive(Debug)]
pub struct OrganizationTable {
    pub rows: Vec<Organization>,
}

impl OrganizationTable {
    /// A table without rows.
    pub fn new() -> (table: Self)
        ensures
            table.rows@.len() == 0,
            well_formed(table.rows@),
    {
        OrganizationTable { rows: Vec::new() }
    }
}

/// The repository that works on an [`OrganizationTable`].
#[derive(Debug, Clone, Copy)]
pub struct MemoryRepository;

/// `error` reports that no live organization has the identifier asked for.
pub open spec fn is_not_found(error: ApiError) -> bool {
    &&& error.source matches Some(cause)
    &&& cause matches DatabaseError::RecordNotFound(text)
    &&& text@ == "organization"@
    &&& error.translates(cause)
}

/// `error` reports that a uniqueness rule is broken; `what` names the rule.
pub open spec fn is_conflict(error: ApiError, what: Seq<char>) -> bool {
    &&& error.source matches Some(cause)
    &&& cause matches DatabaseError::UniqueViolation(text)
    &&& text@ == what
    &&& error.translates(cause)
}

fn not_found() -> (error: ApiError)
    ensures
        is_not_found(error),
        error.code == ErrorCode::NotFound,
{
    ApiError::from(DatabaseError::RecordNotFound(String::from_str("organization")))
}

fn conflict(what: &str) -> (error: ApiError)
    ensures
        is_conflict(error, what@),
        error.code == ErrorCode::Conflict,
{
    ApiError::from(DatabaseError::UniqueViolation(String::from_str(what)))
}

/// Where the live row with the identifier `id` stands.
fn live_position(rows: &Vec<Organization>, id: u128) -> (position: Option<usize>)
    ensures
        match position {
            Some(i) => live_at(rows@, id, i as int),
            None => !has_live(rows@, id),
        },
{
    let mut i: usize = 0;
    while i < rows.len()
        invariant
            i <= rows.len(),
            forall|k: int| 0 <= k < i ==> !live_at(rows@, id, k),
        decreases rows.len() - i,
    {
        if rows[i].id == id && !rows[i].deleted {
            return Some(i);
        }
        i += 1;
    }
    None
}

/// Whether some row, live or not, has the identifier `id`.
fn id_in_use(rows: &Vec<Organization>, id: u128) -> (in_use: bool)
    ensures
        in_use == has_id(rows@, id),
{
    let mut i: usize = 0;
    while i < rows.len()
        invariant
            i <= rows.len(),
            forall|k: int| 0 <= k < i ==> !holds_id(rows@, id, k),
        decreases rows.len() - i,
    {
        if rows[i].id == id {
            assert(holds_id(rows@, id, i as int));
            return true;
        }
        i += 1;
    }
    false
}

/// Where the first live row with the name `name` stands, row `except` left
/// aside.
fn name_position(rows: &Vec<Organization>, name: &str, except: Option<usize>) -> (position: Option<
    usize,
>)
    ensures
        match position {
            Some(j) => j < rows.len() && except != Some(j) && !rows[j as int].deleted
                && rows[j as int].name@ == name@,
            None => forall|k: int|
                0 <= k < rows.len() && except != Some(k as usize) && !(#[trigger] rows[k]).deleted
                    ==> rows[k].name@ != name@,
        },
{
    let wanted: String = String::from_str(name);
    let mut j: usize = 0;
    while j < rows.len()
        invariant
            j <= rows.len(),
            wanted@ == name@,
            forall|k: int|
                0 <= k < j && except != Some(k as usize) && !(#[trigger] rows[k]).deleted
                    ==> rows[k].name@ != name@,
        decreases rows.len() - j,
    {
        let skip: bool = match except {
            Some(e) => e == j,
            None => false,
        };
        if !skip && !rows[j].deleted && rows[j].name == wanted {
            return Some(j);
        }
        j += 1;
    }
    None
}

/// Whether a live row other than row `except` has the name of `model`.
fn name_in_use(rows: &Vec<Organization>, model: &Organization, except: Option<usize>) -> (in_use:
    bool)
    requires
        except matches Some(e) ==> e < rows.len(),
    ensures
        in_use == has_rival(
            rows@,
            *model,
            match except {
                Some(e) => e as int,
                None => -1,
            },
        ),
{
    let ghost aside: int = match except {
        Some(e) => e as int,
        None => -1,
    };
    match name_position(rows, model.name.as_str(), except) {
        Some(j) => {
            assert(j as int != aside && rival_at(rows@, *model, j as int));
            true
        },
        None => {
            assert forall|k: int| !(k != aside && rival_at(rows@, *model, k)) by {
                if k != aside && rival_at(rows@, *model, k) {
                    assert(except != Some(k as usize));
                    assert(!rows[k].deleted);
                }
            }
            false
        },
    }
}

impl BaseRepository<Organization> for MemoryRepository {
    type Conn = OrganizationTable;

    /// Succeeds exactly where a live organization has the identifier, and
    /// leaves the table as it is.
    fn find_by_id(conn: &mut OrganizationTable, id: u128) -> (found: Result<Organization, ApiError>)
        ensures
            final(conn).rows@ == old(conn).rows@,
            found is Ok <==> has_live(old(conn).rows@, id),
            found matches Err(error) ==> is_not_found(error),
            well_formed(old(conn).rows@) ==> found_in(old(conn).rows@, id, found),
    {
        match live_position(&conn.rows, id) {
            Some(i) => {
                proof {
                    if well_formed(conn.rows@) {
                        lemma_index_of(conn.rows@, id, i as int);
                    }
                }
                Ok(conn.rows[i].duplicate())
            },
            None => Err(not_found()),
        }
    }

    /// Succeeds exactly where neither the identifier nor the name is in use;
    /// the new row is live and has the identifier and the name of `model`.
    fn create(conn: &mut OrganizationTable, model: &Organization) -> (created: Result<
        Organization,
        ApiError,
    >)
        ensures
            created_in(old(conn).rows@, final(conn).rows@, *model, created),
            created is Ok <==> create_refusal(old(conn).rows@, *model) is None,
            created matches Ok(row) ==> row == (Organization {
                id: model.id,
                name: model.name,
                deleted: false,
            }),
            created matches Err(error) ==> {
                &&& has_id(old(conn).rows@, model.id) ==> is_conflict(error, "organization id"@)
                &&& !has_id(old(conn).rows@, model.id) ==> is_conflict(
                    error,
                    "organization name"@,
                )
            },
            well_formed(old(conn).rows@) ==> well_formed(final(conn).rows@),
    {
        if id_in_use(&conn.rows, model.id) {
            return Err(conflict("organization id"));
        }
        if name_in_use(&conn.rows, model, None) {
            return Err(conflict("organization name"));
        }
        let row: Organization = Organization {
            id: model.id,
            name: model.name.clone(),
            deleted: false,
        };
        let ghost before: Seq<Organization> = conn.rows@;
        conn.rows.push(row.duplicate());
        proof {
            let after = conn.rows@;
            let n = before.len() as int;
            if well_formed(before) {
                assert forall|i: int, j: int|
                    0 <= i < after.len() && 0 <= j < after.len() && i != j implies #[trigger] after[i].model_id()
                    != #[trigger] after[j].model_id() by {
                    if i == n {
                        assert(!holds_id(before, model.id, j));
                    } else if j == n {
                        assert(!holds_id(before, model.id, i));
                    } else {
                        assert(before[i].model_id() != before[j].model_id());
                    }
                }
                assert forall|i: int, j: int|
                    0 <= i < after.len() && i != j && #[trigger] rival_at(
                        after,
                        after[i],
                        j,
                    ) implies !after[i].is_live() by {
                    if i == n {
                        assert(rival_at(before, *model, j));
                    } else if j == n {
                        assert(rival_at(before, *model, i) || !before[i].is_live());
                    } else {
                        assert(rival_at(before, before[i], j));
                    }
                }
            }
        }
        Ok(row)
    }

    /// On a well-formed table, succeeds exactly where a live organization has
    /// the identifier and no other live organization has the name of `model`;
    /// the row then has that name, its identifier as before, and is live.
    fn update(conn: &mut OrganizationTable, id: u128, model: &Organization) -> (updated: Result<
        Organization,
        ApiError,
    >)
        ensures
            !has_live(old(conn).rows@, id) ==> updated is Err,
            updated matches Ok(row) ==> {
                &&& row == (Organization { id, name: model.name, deleted: false })
                &&& exists|i: int|
                    live_at(old(conn).rows@, id, i) && !has_rival(old(conn).rows@, *model, i)
                        && final(conn).rows@ == old(conn).rows@.update(i, row)
            },
            updated matches Err(error) ==> {
                &&& final(conn).rows@ == old(conn).rows@
                &&& !has_live(old(conn).rows@, id) ==> is_not_found(error)
                &&& has_live(old(conn).rows@, id) ==> is_conflict(error, "organization name"@)
            },
            well_formed(old(conn).rows@) ==> {
                &&& well_formed(final(conn).rows@)
                &&& updated_in(old(conn).rows@, final(conn).rows@, id, *model, updated)
                &&& updated is Ok <==> update_refusal(old(conn).rows@, id, *model) is None
            },
    {
        let position: Option<usize> = live_position(&conn.rows, id);
        match position {
            None => Err(not_found()),
            Some(i) => {
                proof {
                    if well_formed(conn.rows@) {
                        lemma_index_of(conn.rows@, id, i as int);
                    }
                }
                if name_in_use(&conn.rows, model, Some(i)) {
                    return Err(conflict("organization name"));
                }
                let row: Organization = Organization { id, name: model.name.clone(), deleted: false };
                let ghost before: Seq<Organization> = conn.rows@;
                conn.rows.set(i, row.duplicate());
                proof {
                    let after = conn.rows@;
                    if well_formed(before) {
                        assert forall|a: int, b: int|
                            0 <= a < after.len() && 0 <= b < after.len() && a != b implies #[trigger] after[a].model_id()
                            != #[trigger] after[b].model_id() by {
                            assert(before[a].model_id() != before[b].model_id());
                        }
                        assert forall|a: int, b: int|
                            0 <= a < after.len() && a != b && #[trigger] rival_at(
                                after,
                                after[a],
                                b,
                            ) implies !after[a].is_live() by {
                            if a == i {
                                assert(rival_at(before, *model, b));
                            } else if b == i {
                                assert(rival_at(before, *model, a) || !before[a].is_live());
                            } else {
                                assert(rival_at(before, before[a], b));
                            }
                        }
                    }
                }
                Ok(row)
            },
        }
    }

    /// Succeeds exactly where a live organization has the identifier; the
    /// row keeps its identifier and its name.
    fn soft_delete(conn: &mut OrganizationTable, id: u128) -> (deleted: Result<
        Organization,
        ApiError,
    >)
        ensures
            deleted is Ok <==> has_live(old(conn).rows@, id),
            deleted matches Ok(row) ==> exists|i: int|
                live_at(old(conn).rows@, id, i) && row == (Organization {
                    id,
                    name: old(conn).rows@[i].name,
                    deleted: true,
                }) && final(conn).rows@ == old(conn).rows@.update(i, row),
            deleted matches Err(error) ==> final(conn).rows@ == old(conn).rows@ && is_not_found(
                error,
            ),
            well_formed(old(conn).rows@) ==> {
                &&& well_formed(final(conn).rows@)
                &&& deleted_in(old(conn).rows@, final(conn).rows@, id, deleted)
                &&& deleted matches Ok(row) ==> row == (Organization {
                    id,
                    name: old(conn).rows@[index_of(old(conn).rows@, id)].name,
                    deleted: true,
                })
            },
    {
        let position: Option<usize> = live_position(&conn.rows, id);
        match position {
            None => Err(not_found()),
            Some(i) => {
                proof {
                    if well_formed(conn.rows@) {
                        lemma_index_of(conn.rows@, id, i as int);
                    }
                }
                let row: Organization = Organization {
                    id,
                    name: conn.rows[i].name.clone(),
                    deleted: true,
                };
                let ghost before: Seq<Organization> = conn.rows@;
                conn.rows.set(i, row.duplicate());
                proof {
                    let after = conn.rows@;
                    if well_formed(before) {
                        assert forall|a: int, b: int|
                            0 <= a < after.len() && 0 <= b < after.len() && a != b implies #[trigger] after[a].model_id()
                            != #[trigger] after[b].model_id() by {
                            assert(before[a].model_id() != before[b].model_id());
                        }
                        assert forall|a: int, b: int|
                            0 <= a < after.len() && a != b && #[trigger] rival_at(
                                after,
                                after[a],
                                b,
                            ) implies !after[a].is_live() by {
                            if a != i && b != i {
                                assert(rival_at(before, before[a], b));
                            }
                        }
                    }
                }
                Ok(row)
            },
        }
    }

    /// Always succeeds, and leaves the table as it is.
    fn list(conn: &mut OrganizationTable, pagination: &PaginationParams) -> (listed: Result<
        Vec<Organization>,
        ApiError,
    >)
        ensures
            final(conn).rows@ == old(conn).rows@,
            listed is Ok,
            listed_in(old(conn).rows@, *pagination, listed),
    {
        let before: i128 = pagination.page as i128 - 1;
        let size: i128 = pagination.per_page as i128;
        assert(0 <= before * size <= 0x8000_0000_0000_0000 * 0x8000_0000_0000_0000)
            by (nonlinear_arith)
            requires
                0 <= before <= 0x8000_0000_0000_0000,
                0 <= size <= 0x8000_0000_0000_0000,
        ;
        let first: i128 = before * size;
        let beyond: i128 = first + pagination.per_page as i128;
        let mut page: Vec<Organization> = Vec::new();
        let mut seen: usize = 0;
        let mut i: usize = 0;
        proof {
            reveal(Seq::filter);
            assert(conn.rows@.take(0) =~= Seq::<Organization>::empty());
        }
        while i < conn.rows.len()
            invariant
                i <= conn.rows.len(),
                pagination.valid(),
                first == (pagination.page - 1) * pagination.per_page,
                beyond == first + pagination.per_page,
                seen == live_rows(conn.rows@.take(i as int)).len(),
                seen <= i,
                page@ == page_of(live_rows(conn.rows@.take(i as int)), *pagination),
                forall|k: int| 0 <= k < page@.len() ==> !(#[trigger] page@[k]).deleted,
            decreases conn.rows.len() - i,
        {
            proof {
                let seq = conn.rows@;
                let prefix = seq.take(i as int);
                let next = seq.take(i as int + 1);
                assert(next.drop_last() =~= prefix);
                assert(next.last() == seq[i as int]);
                reveal(Seq::filter);
                assert(live_rows(next) == if seq[i as int].is_live() {
                    live_rows(prefix).push(seq[i as int])
                } else {
                    live_rows(prefix)
                });
            }
            if !conn.rows[i].deleted {
                if first <= seen as i128 && (seen as i128) < beyond {
                    page.push(conn.rows[i].duplicate());
                }
                seen += 1;
            }
            i += 1;
        }
        proof {
            assert(conn.rows@.take(i as int) =~= conn.rows@);
            lemma_page_of_is_bounded(live_rows(conn.rows@), *pagination);
        }
        Ok(page)
    }

    /// Always succeeds, and leaves the table as it is.
    fn count(conn: &mut OrganizationTable) -> (counted: Result<i64, ApiError>)
        ensures
            final(conn).rows@ == old(conn).rows@,
            counted is Ok,
            counted_in(old(conn).rows@, counted),
    {
        let mut live: u64 = 0;
        let mut i: usize = 0;
        proof {
            reveal(Seq::filter);
            assert(conn.rows@.take(0) =~= Seq::<Organization>::empty());
        }
        while i < conn.rows.len()
            invariant
                i <= conn.rows.len(),
                live == live_rows(conn.rows@.take(i as int)).len(),
                live <= i,
            decreases conn.rows.len() - i,
        {
            proof {
                let seq = conn.rows@;
                let prefix = seq.take(i as int);
                let next = seq.take(i as int + 1);
                assert(next.drop_last() =~= prefix);
                assert(next.last() == seq[i as int]);
                reveal(Seq::filter);
                assert(live_rows(next) == if seq[i as int].is_live() {
                    live_rows(prefix).push(seq[i as int])
                } else {
                    live_rows(prefix)
                });
            }
            if !conn.rows[i].deleted {
                live += 1;
            }
            i += 1;
        }
        proof {
            assert(conn.rows@.take(i as int) =~= conn.rows@);
        }
        if live > i64::MAX as u64 {
            Ok(i64::MAX)
        } else {
            Ok(live as i64)
        }
    }
}

impl OrganizationRepository for MemoryRepository {
    /// Always succeeds, and leaves the table as it is.
    fn find_by_name(&self, conn: &mut OrganizationTable, name: &str) -> (found: Result<
        Option<Organization>,
        ApiError,
    >)
        ensures
            final(conn).rows@ == old(conn).rows@,
            found is Ok,
            named_in(old(conn).rows@, name@, found),
    {
        match name_position(&conn.rows, name, None) {
            Some(j) => Ok(Some(conn.rows[j].duplicate())),
            None => Ok(None),
        }
    }
}

} // verus!
