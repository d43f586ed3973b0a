use organization_api::error::{ApiError, DatabaseError, ErrorCode};
use organization_api::handlers::{
    create_organization, delete_organization, get_organization, list_organizations,
    update_organization,
};
use organization_api::memory::{MemoryRepository, OrganizationTable};
use organization_api::model::Organization;
use organization_api::pagination::PaginationParams;
use organization_api::repository::{BaseRepository, OrganizationRepository};

fn org(id: u128, name: &str) -> Organization {
    Organization::new(id, name.to_string())
}

fn table_of(names: &[&str]) -> OrganizationTable {
    let mut table = OrganizationTable::new();
    for (i, name) in names.iter().enumerate() {
        MemoryRepository::create(&mut table, &org(i as u128 + 1, name)).unwrap();
    }
    table
}

fn names(rows: &[Organization]) -> Vec<&str> {
    rows.iter().map(|o| o.name.as_str()).collect()
}

fn not_found() -> ApiError {
    ApiError::from(DatabaseError::RecordNotFound("organization".to_string()))
}

fn conflict(what: &str) -> ApiError {
    ApiError::from(DatabaseError::UniqueViolation(what.to_string()))
}

#[test]
fn new_table_is_empty() {
    let mut table = OrganizationTable::new();
    assert!(table.rows.is_empty());
    assert_eq!(MemoryRepository::find_by_id(&mut table, 1), Err(not_found()));
    assert_eq!(MemoryRepository::list(&mut table, &PaginationParams::default()), Ok(vec![]));
}

#[test]
fn created_organization_is_found() {
    let mut table = OrganizationTable::new();
    let created = MemoryRepository::create(&mut table, &org(1, "Acme")).unwrap();
    assert_eq!(created, org(1, "Acme"));
    assert_eq!(table.rows, vec![org(1, "Acme")]);
    assert_eq!(MemoryRepository::find_by_id(&mut table, 1), Ok(org(1, "Acme")));
    assert_eq!(table.rows, vec![org(1, "Acme")]);
}

#[test]
fn created_organization_is_live_whatever_the_model_says() {
    let mut table = OrganizationTable::new();
    let mut model = org(1, "Acme");
    model.deleted = true;
    assert_eq!(MemoryRepository::create(&mut table, &model), Ok(org(1, "Acme")));
    assert_eq!(MemoryRepository::find_by_id(&mut table, 1), Ok(org(1, "Acme")));
}

#[test]
fn create_with_the_name_of_a_live_organization_is_a_conflict() {
    let mut table = table_of(&["Acme", "Globex"]);
    let refused = MemoryRepository::create(&mut table, &org(9, "Acme")).unwrap_err();
    assert_eq!(refused.code, ErrorCode::Conflict);
    assert_eq!(refused, conflict("organization name"));
    assert_eq!(table.rows, vec![org(1, "Acme"), org(2, "Globex")]);
    assert_eq!(create_organization(Err(refused)).status, 400);
}

#[test]
fn create_with_an_identifier_in_use_is_a_conflict() {
    let mut table = table_of(&["Acme"]);
    let refused = MemoryRepository::create(&mut table, &org(1, "Globex")).unwrap_err();
    assert_eq!(refused, conflict("organization id"));
    MemoryRepository::soft_delete(&mut table, 1).unwrap();
    let refused = MemoryRepository::create(&mut table, &org(1, "Globex")).unwrap_err();
    assert_eq!(refused, conflict("organization id"));
    assert_eq!(table.rows.len(), 1);
}

#[test]
fn name_of_a_deleted_organization_is_free_again() {
    let mut table = table_of(&["Acme"]);
    MemoryRepository::soft_delete(&mut table, 1).unwrap();
    assert_eq!(MemoryRepository::create(&mut table, &org(2, "Acme")), Ok(org(2, "Acme")));
    assert_eq!(MemoryRepository::find_by_id(&mut table, 2), Ok(org(2, "Acme")));
}

#[test]
fn names_differ_by_case() {
    let mut table = table_of(&["Acme"]);
    assert_eq!(MemoryRepository::create(&mut table, &org(2, "acme")), Ok(org(2, "acme")));
}

#[test]
fn soft_deleted_organization_is_not_found() {
    let mut table = table_of(&["Acme", "Globex"]);
    let deleted = MemoryRepository::soft_delete(&mut table, 1).unwrap();
    assert_eq!(deleted, Organization { id: 1, name: "Acme".to_string(), deleted: true });
    let found = MemoryRepository::find_by_id(&mut table, 1);
    assert_eq!(found, Err(not_found()));
    assert_eq!(found.clone().unwrap_err().code, ErrorCode::NotFound);
    assert_eq!(get_organization(found).status, 404);
    assert_eq!(MemoryRepository::find_by_id(&mut table, 2), Ok(org(2, "Globex")));
}

#[test]
fn soft_delete_keeps_the_row() {
    let mut table = table_of(&["Acme", "Globex"]);
    MemoryRepository::soft_delete(&mut table, 2).unwrap();
    assert_eq!(
        table.rows,
        vec![org(1, "Acme"), Organization { id: 2, name: "Globex".to_string(), deleted: true }]
    );
}

#[test]
fn soft_delete_twice_is_not_found() {
    let mut table = table_of(&["Acme"]);
    assert!(MemoryRepository::soft_delete(&mut table, 1).is_ok());
    let again = MemoryRepository::soft_delete(&mut table, 1);
    assert_eq!(again, Err(not_found()));
    assert_eq!(delete_organization(again).status, 404);
}

#[test]
fn update_of_an_unknown_identifier_is_not_found() {
    let mut table = table_of(&["Acme"]);
    let updated = MemoryRepository::update(&mut table, 42, &org(42, "Initech"));
    assert_eq!(updated, Err(not_found()));
    assert_eq!(updated.clone().unwrap_err().code, ErrorCode::NotFound);
    assert_eq!(update_organization(updated).status, 404);
    assert_eq!(table.rows, vec![org(1, "Acme")]);
}

#[test]
fn delete_of_an_unknown_identifier_is_not_found() {
    let mut table = table_of(&["Acme"]);
    let deleted = MemoryRepository::soft_delete(&mut table, 42);
    assert_eq!(deleted, Err(not_found()));
    assert_eq!(deleted.clone().unwrap_err().code, ErrorCode::NotFound);
    assert_eq!(delete_organization(deleted).status, 404);
    assert_eq!(table.rows, vec![org(1, "Acme")]);
}

#[test]
fn find_of_an_unknown_identifier_is_not_found() {
    let mut table = table_of(&["Acme"]);
    assert_eq!(MemoryRepository::find_by_id(&mut table, 0), Err(not_found()));
    assert_eq!(MemoryRepository::find_by_id(&mut table, u128::MAX), Err(not_found()));
}

#[test]
fn update_of_a_deleted_organization_is_not_found() {
    let mut table = table_of(&["Acme"]);
    MemoryRepository::soft_delete(&mut table, 1).unwrap();
    assert_eq!(MemoryRepository::update(&mut table, 1, &org(1, "Initech")), Err(not_found()));
}

#[test]
fn update_renames_in_place() {
    let mut table = table_of(&["Acme", "Globex", "Initech"]);
    let updated = MemoryRepository::update(&mut table, 2, &org(77, "Hooli")).unwrap();
    assert_eq!(updated, org(2, "Hooli"));
    assert_eq!(table.rows, vec![org(1, "Acme"), org(2, "Hooli"), org(3, "Initech")]);
    assert_eq!(MemoryRepository::find_by_id(&mut table, 2), Ok(org(2, "Hooli")));
    assert_eq!(MemoryRepository::find_by_id(&mut table, 77), Err(not_found()));
}

#[test]
fn update_to_its_own_name_is_served() {
    let mut table = table_of(&["Acme", "Globex"]);
    assert_eq!(MemoryRepository::update(&mut table, 1, &org(1, "Acme")), Ok(org(1, "Acme")));
}

#[test]
fn update_to_the_name_of_another_live_organization_is_a_conflict() {
    let mut table = table_of(&["Acme", "Globex"]);
    let refused = MemoryRepository::update(&mut table, 1, &org(1, "Globex"));
    assert_eq!(refused, Err(conflict("organization name")));
    assert_eq!(update_organization(refused).status, 400);
    assert_eq!(table.rows, vec![org(1, "Acme"), org(2, "Globex")]);
    MemoryRepository::soft_delete(&mut table, 2).unwrap();
    assert_eq!(MemoryRepository::update(&mut table, 1, &org(1, "Globex")), Ok(org(1, "Globex")));
}

#[test]
fn list_is_in_insertion_order() {
    let mut table = table_of(&["Zeta", "Acme", "Mid"]);
    let listed = MemoryRepository::list(&mut table, &PaginationParams::default()).unwrap();
    assert_eq!(names(&listed), vec!["Zeta", "Acme", "Mid"]);
}

#[test]
fn list_passes_over_deleted_rows() {
    let mut table = table_of(&["a", "b", "c", "d", "e"]);
    MemoryRepository::soft_delete(&mut table, 2).unwrap();
    MemoryRepository::soft_delete(&mut table, 4).unwrap();
    let page = |page, per_page| PaginationParams { page, per_page };
    let listed = MemoryRepository::list(&mut table, &page(1, 10)).unwrap();
    assert_eq!(names(&listed), vec!["a", "c", "e"]);
    let listed = MemoryRepository::list(&mut table, &page(1, 2)).unwrap();
    assert_eq!(names(&listed), vec!["a", "c"]);
    let listed = MemoryRepository::list(&mut table, &page(2, 2)).unwrap();
    assert_eq!(names(&listed), vec!["e"]);
    assert_eq!(table.rows.len(), 5);
}

#[test]
fn list_returns_the_requested_page() {
    let all = ["a", "b", "c", "d", "e", "f", "g"];
    let mut table = table_of(&all);
    let page = |page, per_page| PaginationParams { page, per_page };
    let listed = |table: &mut OrganizationTable, p: PaginationParams| -> Vec<String> {
        MemoryRepository::list(table, &p).unwrap().into_iter().map(|o| o.name).collect()
    };
    assert_eq!(listed(&mut table, page(1, 3)), vec!["a", "b", "c"]);
    assert_eq!(listed(&mut table, page(2, 3)), vec!["d", "e", "f"]);
    assert_eq!(listed(&mut table, page(3, 3)), vec!["g"]);
    assert_eq!(listed(&mut table, page(4, 3)), Vec::<String>::new());
    assert_eq!(listed(&mut table, page(1, 7)), all.to_vec());
    assert_eq!(listed(&mut table, page(1, 1)), vec!["a"]);
    assert_eq!(listed(&mut table, page(7, 1)), vec!["g"]);
    assert_eq!(listed(&mut table, page(8, 1)), Vec::<String>::new());
    assert_eq!(listed(&mut table, page(1, i64::MAX)), all.to_vec());
    assert_eq!(listed(&mut table, page(i64::MAX, i64::MAX)), Vec::<String>::new());
    assert_eq!(listed(&mut table, page(i64::MAX, 1)), Vec::<String>::new());
}

#[test]
fn list_never_exceeds_the_page_size() {
    let mut table = table_of(&["a", "b", "c", "d", "e", "f", "g"]);
    for per_page in 1i64..10 {
        for page in 1i64..10 {
            let listed =
                MemoryRepository::list(&mut table, &PaginationParams { page, per_page }).unwrap();
            assert!(listed.len() as i64 <= per_page);
        }
    }
}

#[test]
fn find_by_name_finds_live_organizations_only() {
    let mut table = table_of(&["Acme", "Globex"]);
    let repository = MemoryRepository;
    assert_eq!(repository.find_by_name(&mut table, "Globex"), Ok(Some(org(2, "Globex"))));
    assert_eq!(repository.find_by_name(&mut table, "Initech"), Ok(None));
    assert_eq!(repository.find_by_name(&mut table, ""), Ok(None));
    MemoryRepository::soft_delete(&mut table, 2).unwrap();
    assert_eq!(repository.find_by_name(&mut table, "Globex"), Ok(None));
    MemoryRepository::create(&mut table, &org(3, "Globex")).unwrap();
    assert_eq!(repository.find_by_name(&mut table, "Globex"), Ok(Some(org(3, "Globex"))));
}

#[test]
fn duplicate_equals_what_it_copies() {
    let mut acme = org(5, "Acme");
    assert_eq!(acme.duplicate(), acme);
    acme.deleted = true;
    assert_eq!(acme.duplicate(), acme);
}

#[test]
fn refusals_carry_their_cause() {
    let mut table = table_of(&["Acme"]);
    let refused = MemoryRepository::find_by_id(&mut table, 2).unwrap_err();
    assert_eq!(refused.message, "Record not found: organization");
    assert_eq!(refused.source, Some(DatabaseError::RecordNotFound("organization".to_string())));
    let refused = MemoryRepository::create(&mut table, &org(2, "Acme")).unwrap_err();
    assert_eq!(refused.message, "Unique constraint violation: organization name");
    assert_eq!(
        refused.source,
        Some(DatabaseError::UniqueViolation("organization name".to_string()))
    );
}

fn rename<R: OrganizationRepository>(
    repository: &R,
    table: &mut R::Conn,
    from: &str,
    to: &str,
) -> Result<Organization, ApiError> {
    match repository.find_by_name(table, from)? {
        Some(found) => R::update(table, found.id, &Organization::new(found.id, to.to_string())),
        None => Err(not_found()),
    }
}

#[test]
fn repository_is_used_through_its_trait() {
    let mut table = table_of(&["Acme", "Globex"]);
    assert_eq!(rename(&MemoryRepository, &mut table, "Acme", "Hooli"), Ok(org(1, "Hooli")));
    assert_eq!(rename(&MemoryRepository, &mut table, "Acme", "Initech"), Err(not_found()));
    assert_eq!(
        rename(&MemoryRepository, &mut table, "Hooli", "Globex"),
        Err(conflict("organization name"))
    );
    assert_eq!(table.rows, vec![org(1, "Hooli"), org(2, "Globex")]);
}

#[test]
fn replies_follow_the_repository() {
    let mut table = OrganizationTable::new();
    let created = MemoryRepository::create(&mut table, &org(1, "Acme"));
    assert_eq!(create_organization(created).status, 201);
    let again = MemoryRepository::create(&mut table, &org(2, "Acme"));
    assert_eq!(create_organization(again).status, 400);
    assert_eq!(get_organization(MemoryRepository::find_by_id(&mut table, 1)).status, 200);
    let updated = MemoryRepository::update(&mut table, 1, &org(1, "Globex"));
    assert_eq!(update_organization(updated).status, 200);
    assert_eq!(delete_organization(MemoryRepository::soft_delete(&mut table, 1)).status, 204);
    assert_eq!(get_organization(MemoryRepository::find_by_id(&mut table, 1)).status, 404);
    assert_eq!(delete_organization(MemoryRepository::soft_delete(&mut table, 1)).status, 404);
}

#[test]
fn count_is_the_number_of_live_rows() {
    let mut table = OrganizationTable::new();
    assert_eq!(MemoryRepository::count(&mut table), Ok(0));
    let mut table = table_of(&["a", "b", "c", "d", "e"]);
    assert_eq!(MemoryRepository::count(&mut table), Ok(5));
    MemoryRepository::soft_delete(&mut table, 2).unwrap();
    MemoryRepository::soft_delete(&mut table, 4).unwrap();
    assert_eq!(MemoryRepository::count(&mut table), Ok(3));
    assert_eq!(table.rows.len(), 5);
    MemoryRepository::create(&mut table, &org(6, "f")).unwrap();
    assert_eq!(MemoryRepository::count(&mut table), Ok(4));
}

#[test]
fn listing_a_page_reports_the_whole_listing() {
    let mut table = table_of(&["a", "b", "c", "d", "e", "f", "g"]);
    MemoryRepository::soft_delete(&mut table, 3).unwrap();
    let params = PaginationParams { page: 2, per_page: 2 };
    let listed = MemoryRepository::list(&mut table, &params);
    let counted = MemoryRepository::count(&mut table);
    let page = list_organizations(listed, counted, &params).body.unwrap().data.unwrap();
    assert_eq!(names(&page.data), vec!["d", "e"]);
    assert_eq!(page.meta.total_items, 6);
    assert_eq!(page.meta.total_pages, 3);
    assert_eq!(page.meta.current_page, 2);
    assert!(page.meta.has_next_page);
    assert!(page.meta.has_previous_page);
}
