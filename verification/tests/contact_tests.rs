use contact_api::contact_service;
use contact_api::errors::AppError;
use contact_api::models::{
    Contact, ContactResponse, CreateContactRequest, SearchContactRequest, UpdateContactRequest,
};
use contact_api::store::Db;

fn contact_req(first: &str, last: Option<&str>, email: Option<&str>, phone: Option<&str>)
    -> CreateContactRequest {
    CreateContactRequest {
        first_name: first.to_string(),
        last_name: last.map(|s| s.to_string()),
        email: email.map(|s| s.to_string()),
        phone: phone.map(|s| s.to_string()),
    }
}

fn search_req(
    name: Option<&str>,
    email: Option<&str>,
    phone: Option<&str>,
    page: Option<i32>,
    size: Option<i32>,
) -> SearchContactRequest {
    SearchContactRequest {
        name: name.map(|s| s.to_string()),
        email: email.map(|s| s.to_string()),
        phone: phone.map(|s| s.to_string()),
        page,
        size,
    }
}

#[test]
fn create_and_get_contact() {
    let mut db = Db::new();
    let req = contact_req("Andi", Some("Wijaya"), Some("andi@example.com"), Some("0811"));
    let created = contact_service::create(&mut db, "alice", &req).unwrap();
    assert_eq!(created.id, 1);
    assert_eq!(created.first_name, "Andi");
    assert_eq!(created.last_name.as_deref(), Some("Wijaya"));
    let fetched = contact_service::get(&db, "alice", 1).unwrap();
    assert_eq!(fetched.id, 1);
    assert_eq!(fetched.first_name, "Andi");
    assert_eq!(fetched.email.as_deref(), Some("andi@example.com"));
    assert_eq!(fetched.phone.as_deref(), Some("0811"));
}

#[test]
fn get_unknown_contact_not_found() {
    let db = Db::new();
    match contact_service::get(&db, "alice", 7) {
        Err(AppError::NotFound(m)) => assert_eq!(m, "contact is not found"),
        other => panic!("expected NotFound, got {:?}", other),
    }
}

#[test]
fn contact_invisible_to_other_user() {
    let mut db = Db::new();
    let created =
        contact_service::create(&mut db, "alice", &contact_req("Andi", None, None, None)).unwrap();
    let id = created.id;
    match contact_service::get(&db, "bob", id) {
        Err(AppError::NotFound(m)) => assert_eq!(m, "contact is not found"),
        other => panic!("expected NotFound, got {:?}", other),
    }
    let upd = UpdateContactRequest {
        first_name: "Taken".to_string(),
        last_name: None,
        email: None,
        phone: None,
    };
    match contact_service::update(&mut db, "bob", id, &upd) {
        Err(AppError::NotFound(m)) => assert_eq!(m, "contact is not found"),
        other => panic!("expected NotFound, got {:?}", other),
    }
    match contact_service::remove(&mut db, "bob", id) {
        Err(AppError::NotFound(m)) => assert_eq!(m, "contact is not found"),
        other => panic!("expected NotFound, got {:?}", other),
    }
    // Owner still sees the untouched row.
    let fetched = contact_service::get(&db, "alice", id).unwrap();
    assert_eq!(fetched.first_name, "Andi");
}

#[test]
fn update_contact_replaces_all_fields() {
    let mut db = Db::new();
    let req = contact_req("Andi", Some("Wijaya"), Some("andi@example.com"), Some("0811"));
    let id = contact_service::create(&mut db, "alice", &req).unwrap().id;
    let upd = UpdateContactRequest {
        first_name: "Andrew".to_string(),
        last_name: None,
        email: None,
        phone: None,
    };
    let resp = contact_service::update(&mut db, "alice", id, &upd).unwrap();
    assert_eq!(resp.first_name, "Andrew");
    assert!(resp.last_name.is_none());
    let fetched = contact_service::get(&db, "alice", id).unwrap();
    assert_eq!(fetched.first_name, "Andrew");
    assert!(fetched.last_name.is_none());
    assert!(fetched.email.is_none());
    assert!(fetched.phone.is_none());
}

#[test]
fn remove_contact_then_gone() {
    let mut db = Db::new();
    let id =
        contact_service::create(&mut db, "alice", &contact_req("Andi", None, None, None))
            .unwrap()
            .id;
    contact_service::remove(&mut db, "alice", id).unwrap();
    match contact_service::get(&db, "alice", id) {
        Err(AppError::NotFound(_)) => {},
        other => panic!("expected NotFound, got {:?}", other),
    }
    match contact_service::remove(&mut db, "alice", id) {
        Err(AppError::NotFound(_)) => {},
        other => panic!("expected NotFound, got {:?}", other),
    }
}

#[test]
fn search_pagination_counts() {
    let mut db = Db::new();
    for i in 0..25 {
        let req = contact_req(&format!("Person{:02}", i), None, None, None);
        contact_service::create(&mut db, "alice", &req).unwrap();
    }
    let resp =
        contact_service::search(&db, "alice", &search_req(None, None, None, None, Some(10)))
            .unwrap();
    assert_eq!(resp.paging.page, 1);
    assert_eq!(resp.paging.total_item, 25);
    assert_eq!(resp.paging.total_page, 3);
    assert_eq!(resp.data.len(), 10);
    assert_eq!(resp.data[0].first_name, "Person00");

    let page3 =
        contact_service::search(&db, "alice", &search_req(None, None, None, Some(3), Some(10)))
            .unwrap();
    assert_eq!(page3.data.len(), 5);
    assert_eq!(page3.data[0].first_name, "Person20");

    let page9 =
        contact_service::search(&db, "alice", &search_req(None, None, None, Some(9), Some(10)))
            .unwrap();
    assert_eq!(page9.data.len(), 0);
    assert_eq!(page9.paging.page, 9);
}

#[test]
fn search_clamps_page_and_size() {
    let mut db = Db::new();
    for i in 0..25 {
        let req = contact_req(&format!("Person{:02}", i), None, None, None);
        contact_service::create(&mut db, "alice", &req).unwrap();
    }
    let clamped_page =
        contact_service::search(&db, "alice", &search_req(None, None, None, Some(-4), Some(10)))
            .unwrap();
    assert_eq!(clamped_page.paging.page, 1);
    assert_eq!(clamped_page.data[0].first_name, "Person00");

    let size_zero =
        contact_service::search(&db, "alice", &search_req(None, None, None, None, Some(0)))
            .unwrap();
    assert_eq!(size_zero.data.len(), 1);
    assert_eq!(size_zero.paging.total_page, 25);

    let size_huge =
        contact_service::search(&db, "alice", &search_req(None, None, None, None, Some(1000)))
            .unwrap();
    assert_eq!(size_huge.data.len(), 25);
    assert_eq!(size_huge.paging.total_page, 1);
}

#[test]
fn search_filters_by_name_email_phone() {
    let mut db = Db::new();
    contact_service::create(
        &mut db,
        "alice",
        &contact_req("Andi", Some("Wijaya"), Some("Andi@Example.com"), Some("0811-22")),
    )
    .unwrap();
    contact_service::create(
        &mut db,
        "alice",
        &contact_req("Budi", Some("Santoso"), None, Some("0899")),
    )
    .unwrap();
    contact_service::create(&mut db, "bob", &contact_req("Andira", None, None, None)).unwrap();

    // Case-insensitive name match against first or last name.
    let by_name =
        contact_service::search(&db, "alice", &search_req(Some("AND"), None, None, None, None))
            .unwrap();
    assert_eq!(by_name.data.len(), 1);
    assert_eq!(by_name.data[0].first_name, "Andi");
    let by_last =
        contact_service::search(&db, "alice", &search_req(Some("santo"), None, None, None, None))
            .unwrap();
    assert_eq!(by_last.data.len(), 1);
    assert_eq!(by_last.data[0].first_name, "Budi");

    // Email substring match; rows without an email never match.
    let by_email = contact_service::search(
        &db,
        "alice",
        &search_req(None, Some("example.COM"), None, None, None),
    )
    .unwrap();
    assert_eq!(by_email.data.len(), 1);
    assert_eq!(by_email.data[0].first_name, "Andi");

    // Phone substring match.
    let by_phone =
        contact_service::search(&db, "alice", &search_req(None, None, Some("089"), None, None))
            .unwrap();
    assert_eq!(by_phone.data.len(), 1);
    assert_eq!(by_phone.data[0].first_name, "Budi");

    // Search never crosses the owner boundary.
    let other =
        contact_service::search(&db, "carol", &search_req(None, None, None, None, None)).unwrap();
    assert_eq!(other.paging.total_item, 0);
    assert_eq!(other.paging.total_page, 0);
    assert_eq!(other.data.len(), 0);
}

#[test]
fn create_contact_at_id_cap_fails() {
    let mut db = Db {
        users: Vec::new(),
        contacts: Vec::new(),
        addresses: Vec::new(),
        next_contact_id: i32::MAX,
        next_address_id: 1,
    };
    match contact_service::create(&mut db, "alice", &contact_req("Andi", None, None, None)) {
        Err(AppError::Internal) => {},
        other => panic!("expected Internal, got {:?}", other),
    }
}

#[test]
fn contact_response_from_contact() {
    let c = Contact {
        id: 9,
        first_name: "Andi".to_string(),
        last_name: Some("Wijaya".to_string()),
        email: None,
        phone: Some("0811".to_string()),
        username: "alice".to_string(),
    };
    let r = ContactResponse::from(c);
    assert_eq!(r.id, 9);
    assert_eq!(r.first_name, "Andi");
    assert_eq!(r.last_name.as_deref(), Some("Wijaya"));
    assert!(r.email.is_none());
    assert_eq!(r.phone.as_deref(), Some("0811"));
}
