use platypus::QueryOptions;
use platypus::config::Config;
use platypus::error::ErrorKind;
use platypus::item::DomainItem;
use platypus::item::Field;
use platypus::persist::Persistence;

fn test_config() -> Config {
    let mut config = Config::new();
    config.supply("DB_HOST".to_string(), "mem://".to_string());
    config.supply("DB_NS".to_string(), "tmf".to_string());
    config.supply("DB_USER".to_string(), "tester".to_string());
    config.supply("DB_PASS".to_string(), "secret".to_string());
    config
}

fn gateway() -> Persistence {
    Persistence::new(&test_config()).expect("gateway should build")
}

fn item_with(class: &str, fields: Vec<(&str, &str)>) -> DomainItem {
    let mut item = DomainItem::new(class.to_string());
    for (name, value) in fields {
        item.set_field(name.to_string(), value.to_string());
    }
    item
}

#[test]
fn new_requires_every_db_setting() {
    let mut config = Config::new();
    let e = Persistence::new(&config).err().expect("missing host must fail");
    assert_eq!(e.kind, ErrorKind::Configuration);
    assert_eq!(e.message, "DB_HOST not defined");

    config.supply("DB_HOST".to_string(), "mem://".to_string());
    let e = Persistence::new(&config).err().expect("missing namespace must fail");
    assert_eq!(e.message, "DB Namespace not configured");

    config.supply("DB_NS".to_string(), "tmf".to_string());
    let e = Persistence::new(&config).err().expect("missing user must fail");
    assert_eq!(e.message, "DB User not set");

    config.supply("DB_USER".to_string(), "tester".to_string());
    let e = Persistence::new(&config).err().expect("missing password must fail");
    assert_eq!(e.message, "DB Pass not set");

    config.supply("DB_PASS".to_string(), "secret".to_string());
    assert!(Persistence::new(&config).is_ok());
}

#[test]
fn create_round_trip_keeps_fields() {
    let mut p = gateway();
    let item = item_with("catalog", vec![("name", "Spring"), ("status", "New")]);
    let created = p.create_tmf_item(item).expect("create must succeed");
    assert_eq!(created.len(), 1);
    let id = created[0].id.clone().expect("create must assign an id");
    assert!(!id.is_empty());

    let read = p
        .get_tmf_item("catalog", id.as_str())
        .expect("get must not fail");
    assert_eq!(read.len(), 1);
    assert_eq!(read[0].get_field("name"), Some("Spring".to_string()));
    assert_eq!(read[0].get_field("status"), Some("New".to_string()));
    assert_eq!(read[0].class, "catalog");
    assert_eq!(read[0].id, Some(id));
}

#[test]
fn repeated_get_is_identical() {
    let mut p = gateway();
    let created = p
        .create_tmf_item(item_with("catalog", vec![("name", "Steady")]))
        .expect("create must succeed");
    let id = created[0].id.clone().unwrap();

    let first = p.get_tmf_item("catalog", id.as_str()).unwrap();
    let second = p.get_tmf_item("catalog", id.as_str()).unwrap();
    assert_eq!(first.len(), second.len());
    assert_eq!(first[0].id, second[0].id);
    assert_eq!(first[0].get_field("name"), second[0].get_field("name"));
    assert_eq!(first[0].last_update, second[0].last_update);
}

#[test]
fn patch_merges_and_refreshes_timestamp() {
    let mut p = gateway();
    let created = p
        .create_tmf_item_lastupdate(
            item_with("catalog", vec![("name", "Templates"), ("status", "New")]),
            100,
        )
        .expect("create must succeed");
    let id = created[0].id.clone().unwrap();
    assert_eq!(created[0].last_update, Some(100));

    let patch = item_with("catalog", vec![("name", "Templates-v2")]);
    let patched = p
        .patch_tmf_item_lastupdate("catalog", id.as_str(), patch, 200)
        .expect("patch of an existing record must succeed");
    assert_eq!(patched.len(), 1);
    assert_eq!(patched[0].get_field("name"), Some("Templates-v2".to_string()));
    assert_eq!(patched[0].get_field("status"), Some("New".to_string()));
    assert_eq!(patched[0].last_update, Some(200));

    let read = p.get_tmf_item("catalog", id.as_str()).unwrap();
    assert_eq!(read[0].get_field("name"), Some("Templates-v2".to_string()));
    assert_eq!(read[0].get_field("status"), Some("New".to_string()));
    assert!(read[0].last_update.unwrap() > 100);
}

#[test]
fn patch_of_missing_record_is_not_found() {
    let mut p = gateway();
    let patch = item_with("catalog", vec![("name", "ghost")]);
    let e = p
        .patch_tmf_item("catalog", "missing", patch)
        .err()
        .expect("patch of a missing record must fail");
    assert_eq!(e.kind, ErrorKind::NotFound);
    assert_eq!(e.message, "Could not update object");
}

#[test]
fn delete_is_final_and_second_delete_fails() {
    let mut p = gateway();
    let created = p
        .create_tmf_item(item_with("catalog", vec![("name", "Doomed")]))
        .expect("create must succeed");
    let id = created[0].id.clone().unwrap();

    let removed = p
        .delete_tmf_item("catalog", id.as_str())
        .expect("first delete must succeed");
    assert_eq!(removed.get_field("name"), Some("Doomed".to_string()));

    let read = p.get_tmf_item("catalog", id.as_str()).unwrap();
    assert!(read.is_empty());

    let e = p
        .delete_tmf_item("catalog", id.as_str())
        .err()
        .expect("second delete must fail");
    assert_eq!(e.kind, ErrorKind::NotFound);
    assert_eq!(e.message, "Issue Deleting object");
}

#[test]
fn projection_returns_identity_fields_and_name_only() {
    let mut p = gateway();
    p.create_tmf_item(item_with(
        "catalog",
        vec![("name", "Visible"), ("status", "Hidden"), ("description", "Hidden too")],
    ))
    .expect("create must succeed");

    let mut opts = QueryOptions::all();
    opts.fields = Some("name".to_string());
    let listed = p.get_items("catalog", &opts).expect("list must not fail");
    assert_eq!(listed.len(), 1);
    let it = &listed[0];
    assert!(it.id.is_some());
    assert!(it.href.is_some());
    assert_eq!(it.get_field("name"), Some("Visible".to_string()));
    assert_eq!(it.get_field("status"), None);
    assert_eq!(it.get_field("description"), None);
    assert_eq!(it.fields.len(), 1);
}

#[test]
fn pagination_returns_exactly_the_window() {
    let mut p = gateway();
    for n in 0..5 {
        p.create_tmf_item(item_with("catalog", vec![("name", &format!("cat-{}", n))]))
            .expect("create must succeed");
    }
    let mut opts = QueryOptions::all();
    opts.limit = Some(2);
    opts.offset = Some(1);
    let listed = p.get_items("catalog", &opts).expect("list must not fail");
    assert_eq!(listed.len(), 2);
    assert_eq!(listed[0].get_field("name"), Some("cat-1".to_string()));
    assert_eq!(listed[1].get_field("name"), Some("cat-2".to_string()));

    let mut beyond = QueryOptions::all();
    beyond.limit = Some(100);
    let all = p.get_items("catalog", &beyond).unwrap();
    assert_eq!(all.len(), 5);
}

#[test]
fn name_filter_selects_matching_items() {
    let mut p = gateway();
    p.create_tmf_item(item_with("catalog", vec![("name", "Access")])).unwrap();
    p.create_tmf_item(item_with("catalog", vec![("name", "Other")])).unwrap();

    let mut opts = QueryOptions::all();
    opts.name = Some("Access".to_string());
    let listed = p.get_items("catalog", &opts).unwrap();
    assert_eq!(listed.len(), 1);
    assert_eq!(listed[0].get_field("name"), Some("Access".to_string()));
}

#[test]
fn create_category_assigns_id_and_href() {
    let mut p = gateway();
    let created = p
        .create_tmf_item(item_with("category", vec![("name", "Access")]))
        .expect("create must succeed");
    let id = created[0].id.clone().expect("id must be generated");
    assert_eq!(id.len(), 36);
    let href = created[0].href.clone().expect("href must be derived");
    assert_eq!(href, format!("/tmf-api/category/{}", id));

    let read = p.get_tmf_item("category", id.as_str()).unwrap();
    assert_eq!(read[0].get_field("name"), Some("Access".to_string()));
}

#[test]
fn get_of_unknown_id_is_empty_not_a_fault() {
    let p = gateway();
    let read = p.get_tmf_item("catalog", "doesnotexist123").unwrap();
    assert!(read.is_empty());
    let opts = QueryOptions::all();
    let read = p.get_item("catalog", "doesnotexist123", &opts).unwrap();
    assert!(read.is_empty());
}

#[test]
fn two_creates_are_independently_retrievable() {
    let mut p = gateway();
    let a = p
        .create_tmf_item(item_with("catalog", vec![("name", "First")]))
        .unwrap();
    let b = p
        .create_tmf_item(item_with("catalog", vec![("name", "Second")]))
        .unwrap();
    let id_a = a[0].id.clone().unwrap();
    let id_b = b[0].id.clone().unwrap();
    assert_ne!(id_a, id_b);

    let read_a = p.get_tmf_item("catalog", id_a.as_str()).unwrap();
    let read_b = p.get_tmf_item("catalog", id_b.as_str()).unwrap();
    assert_eq!(read_a[0].get_field("name"), Some("First".to_string()));
    assert_eq!(read_b[0].get_field("name"), Some("Second".to_string()));
}

#[test]
fn same_id_in_different_classes_does_not_collide() {
    let mut p = gateway();
    let mut cat = item_with("catalog", vec![("name", "A")]);
    cat.id = Some("shared".to_string());
    let mut cus = item_with("customer", vec![("name", "B")]);
    cus.id = Some("shared".to_string());
    p.create_tmf_item(cat).expect("catalog create must succeed");
    p.create_tmf_item(cus).expect("customer create must succeed");

    let a = p.get_tmf_item("catalog", "shared").unwrap();
    let b = p.get_tmf_item("customer", "shared").unwrap();
    assert_eq!(a[0].get_field("name"), Some("A".to_string()));
    assert_eq!(b[0].get_field("name"), Some("B".to_string()));
}

#[test]
fn duplicate_id_is_a_conflict() {
    let mut p = gateway();
    let mut first = item_with("catalog", vec![("name", "A")]);
    first.id = Some("dup".to_string());
    p.create_tmf_item(first).expect("first create must succeed");

    let mut second = item_with("catalog", vec![("name", "B")]);
    second.id = Some("dup".to_string());
    let e = p
        .create_tmf_item(second)
        .err()
        .expect("second create with the same id must fail");
    assert_eq!(e.kind, ErrorKind::Conflict);
    assert_eq!(e.message, "Could not create object");
}

#[test]
fn empty_supplied_id_is_a_validation_error() {
    let mut p = gateway();
    let mut item = item_with("catalog", vec![("name", "A")]);
    item.id = Some(String::new());
    let e = p.create_tmf_item(item).err().expect("empty id must be rejected");
    assert_eq!(e.kind, ErrorKind::Validation);
}

#[test]
fn supplied_id_is_honoured() {
    let mut p = gateway();
    let mut item = item_with("catalog", vec![("name", "Pinned")]);
    item.id = Some("pinned-id".to_string());
    let created = p.create_tmf_item(item).unwrap();
    assert_eq!(created[0].id, Some("pinned-id".to_string()));
    assert_eq!(
        created[0].href,
        Some("/tmf-api/catalog/pinned-id".to_string())
    );
}

#[test]
fn patch_ignores_id_carried_by_the_body() {
    let mut p = gateway();
    let mut item = item_with("catalog", vec![("name", "Anchored")]);
    item.id = Some("path-id".to_string());
    p.create_tmf_item(item).unwrap();

    let mut patch = item_with("catalog", vec![("name", "Anchored-v2")]);
    patch.id = Some("body-id".to_string());
    let patched = p.patch_tmf_item("catalog", "path-id", patch).unwrap();
    assert_eq!(patched[0].id, Some("path-id".to_string()));

    let read = p.get_tmf_item("catalog", "path-id").unwrap();
    assert_eq!(read[0].get_field("name"), Some("Anchored-v2".to_string()));
    assert!(p.get_tmf_item("catalog", "body-id").unwrap().is_empty());
}

#[test]
fn field_access_on_items() {
    let item = DomainItem {
        class: "catalog".to_string(),
        id: None,
        href: None,
        last_update: None,
        fields: vec![Field { name: "name".to_string(), value: "X".to_string() }],
    };
    assert_eq!(item.get_field("name"), Some("X".to_string()));
    assert_eq!(item.get_field("missing"), None);
}
