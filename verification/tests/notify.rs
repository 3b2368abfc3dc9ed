use platypus::QueryOptions;
use platypus::config::Config;
use platypus::api::dispatch_delete;
use platypus::api::dispatch_get;
use platypus::api::dispatch_list;
use platypus::api::dispatch_patch;
use platypus::api::dispatch_post;
use platypus::api::is_unimplemented_object;
use platypus::api::known_objects;
use platypus::api::resolve_object;
use platypus::error::ErrorKind;
use platypus::error::PlatypusError;
use platypus::error::TMFError;
use platypus::hub::Event;
use platypus::hub::EventType;
use platypus::hub::HubManagement;
use platypus::hub::NotificationEndpoint;
use platypus::hub::NotificationListener;
use platypus::hub::NullListener;
use platypus::hub::create_notifying;
use platypus::hub::delete_notifying;
use platypus::hub::ensure_endpoint_id;
use platypus::hub::event_type_for_patch;
use platypus::hub::patch_notifying;
use platypus::hub::render_delete_hub;
use platypus::hub::render_register_hub;
use platypus::hub::to_event;
use platypus::item::DomainItem;
use platypus::persist::Persistence;
use platypus::render::ResponseBody;
use platypus::render::render_delete_output;
use platypus::render::render_get_output;
use platypus::render::render_list_output;
use platypus::render::render_patch_output;
use platypus::render::render_post_output;
use platypus::render::CONTENT_LANGUAGE;

fn gateway() -> Persistence {
    let mut config = Config::new();
    config.supply("DB_HOST".to_string(), "mem://".to_string());
    config.supply("DB_NS".to_string(), "tmf".to_string());
    config.supply("DB_USER".to_string(), "tester".to_string());
    config.supply("DB_PASS".to_string(), "secret".to_string());
    Persistence::new(&config).expect("gateway should build")
}

fn item_with(class: &str, fields: Vec<(&str, &str)>) -> DomainItem {
    let mut item = DomainItem::new(class.to_string());
    for (name, value) in fields {
        item.set_field(name.to_string(), value.to_string());
    }
    item
}

struct Recorder {
    seen: Vec<(String, EventType)>,
}

impl NotificationListener for Recorder {
    fn notify(&mut self, event: &Event) -> Result<(), PlatypusError> {
        self.seen.push((event.domain.clone(), event.event_type));
        Ok(())
    }
}

struct Failing;

impl NotificationListener for Failing {
    fn notify(&mut self, _event: &Event) -> Result<(), PlatypusError> {
        Err(PlatypusError::from("delivery is down"))
    }
}

#[test]
fn events_carry_domain_and_type() {
    let item = item_with("catalog", vec![("name", "X")]);
    let ev = to_event(&item, EventType::Create);
    assert_eq!(ev.domain, "catalog");
    assert_eq!(ev.event_type, EventType::Create);
    assert_eq!(ev.item.get_field("name"), Some("X".to_string()));
}

#[test]
fn patch_event_type_follows_status_field() {
    let plain = item_with("customer", vec![("name", "N")]);
    assert_eq!(event_type_for_patch(&plain), EventType::Update);
    let status = item_with("customer", vec![("status", "Approved")]);
    assert_eq!(event_type_for_patch(&status), EventType::StateChange);
}

#[test]
fn notifications_are_fire_and_forget() {
    let mut p = gateway();
    let mut down = Failing;
    let created = create_notifying(&mut p, &mut down, item_with("catalog", vec![("name", "A")]))
        .expect("a failing listener must not fail the create");
    let id = created[0].id.clone().unwrap();

    let patched = patch_notifying(
        &mut p,
        &mut down,
        "catalog",
        id.as_str(),
        item_with("catalog", vec![("status", "Live")]),
    )
    .expect("a failing listener must not fail the patch");
    assert_eq!(patched[0].get_field("status"), Some("Live".to_string()));

    delete_notifying(&mut p, &mut down, "catalog", id.as_str())
        .expect("a failing listener must not fail the delete");
}

#[test]
fn notifications_report_each_mutation() {
    let mut p = gateway();
    let mut rec = Recorder { seen: Vec::new() };
    let created = create_notifying(&mut p, &mut rec, item_with("catalog", vec![("name", "A")]))
        .expect("create must succeed");
    let id = created[0].id.clone().unwrap();
    patch_notifying(
        &mut p,
        &mut rec,
        "catalog",
        id.as_str(),
        item_with("catalog", vec![("status", "Live")]),
    )
    .unwrap();
    delete_notifying(&mut p, &mut rec, "catalog", id.as_str()).unwrap();

    assert_eq!(
        rec.seen,
        vec![
            ("catalog".to_string(), EventType::Create),
            ("catalog".to_string(), EventType::StateChange),
            ("catalog".to_string(), EventType::Delete),
        ]
    );
}

#[test]
fn hub_registration_round_trip() {
    let mut endpoint = NotificationEndpoint {
        id: None,
        domain: "catalog".to_string(),
        filter: None,
        callback: "https://example.invalid/hook".to_string(),
        query: None,
    };
    ensure_endpoint_id(&mut endpoint);
    let id = endpoint.id.clone().expect("an id must be assigned");
    assert_eq!(id.len(), 36);

    let mut hub = HubManagement::new(None);
    hub.persist(gateway());
    let registered = hub.register_hub(endpoint).expect("registration must succeed");
    assert_eq!(registered.id, Some(id.clone()));

    let (status, location) = render_register_hub(&Ok(registered));
    assert_eq!(status, 201);
    assert_eq!(location, Some(format!("/tmf-api/hub/{}", id)));

    let removed = hub.unregister_hub(id.as_str()).expect("removal must succeed");
    assert_eq!(removed.get_field("callback"), Some("https://example.invalid/hook".to_string()));
    assert_eq!(render_delete_hub(&Ok(removed)), 204);

    let second = hub.unregister_hub(id.as_str());
    assert!(second.is_err());
    assert_eq!(render_delete_hub(&second), 404);
}

#[test]
fn render_list_carries_count_and_language() {
    let items = vec![
        item_with("catalog", vec![("name", "A")]),
        item_with("catalog", vec![("name", "B")]),
    ];
    let plan = render_list_output(Ok(items));
    assert_eq!(plan.status, 200);
    assert_eq!(
        plan.headers,
        vec![
            ("X-Total-Count".to_string(), "2".to_string()),
            ("Content-Language".to_string(), CONTENT_LANGUAGE.to_string()),
        ]
    );
    assert!(matches!(plan.body, ResponseBody::Items(_)));

    let failed = render_list_output(Err(PlatypusError::from("boom")));
    assert_eq!(failed.status, 500);
}

#[test]
fn render_get_serves_item_with_etag_or_not_found() {
    let body = b"{\"name\":\"A\"}".to_vec();
    let plan = render_get_output(Ok(vec![item_with("catalog", vec![("name", "A")])]), Some(body.clone()));
    assert_eq!(plan.status, 200);
    assert_eq!(plan.headers[0], ("Content-Language".to_string(), "en_GB".to_string()));
    assert_eq!(plan.headers[1].0, "ETag");
    let tag = plan.headers[1].1.clone();
    assert!(tag.starts_with('"') && tag.ends_with('"'));
    assert_ne!(tag.as_bytes(), body.as_slice());

    let missing = render_get_output(Ok(Vec::new()), None);
    assert_eq!(missing.status, 404);
    match missing.body {
        ResponseBody::Failure(f) => assert_eq!(f.message, "Object not found"),
        _ => panic!("a missing item must render a failure body"),
    }
}

#[test]
fn etag_is_a_function_of_the_bytes() {
    let serve = |body: &[u8]| {
        let plan = render_get_output(
            Ok(vec![item_with("catalog", vec![("name", "A")])]),
            Some(body.to_vec()),
        );
        plan.headers[1].1.clone()
    };
    let a1 = serve(b"hello");
    let a2 = serve(b"hello");
    let b = serve(b"world");
    assert_eq!(a1, a2);
    assert_ne!(a1, b);
    assert_ne!(a1.as_bytes(), b"hello");
}

#[test]
fn render_post_serves_location() {
    let mut p = gateway();
    let created = p
        .create_tmf_item(item_with("catalog", vec![("name", "A")]))
        .unwrap();
    let href = created[0].href.clone().unwrap();
    let plan = render_post_output(Ok(created));
    assert_eq!(plan.status, 201);
    assert_eq!(plan.headers[0], ("Location".to_string(), href));

    let rejected = render_post_output(Err(PlatypusError::with_kind(
        ErrorKind::Validation,
        "Invalid Object: {object}",
    )));
    assert_eq!(rejected.status, 400);

    let broken = render_post_output(Err(PlatypusError::from("no")));
    assert_eq!(broken.status, 500);
}

#[test]
fn render_delete_statuses() {
    let ok: Result<DomainItem, PlatypusError> = Ok(item_with("catalog", vec![]));
    assert_eq!(render_delete_output(&ok), 204);
    let missing: Result<DomainItem, PlatypusError> =
        Err(PlatypusError::with_kind(ErrorKind::NotFound, "Issue Deleting object"));
    assert_eq!(render_delete_output(&missing), 404);
    let invalid: Result<DomainItem, PlatypusError> =
        Err(PlatypusError::with_kind(ErrorKind::Validation, "Invalid Object: {object}"));
    assert_eq!(render_delete_output(&invalid), 400);
    let broken: Result<DomainItem, PlatypusError> = Err(PlatypusError::from("no"));
    assert_eq!(render_delete_output(&broken), 500);
}

#[test]
fn deleted_then_deleted_again_renders_not_found() {
    let mut p = gateway();
    let created = p
        .create_tmf_item(item_with("catalog", vec![("name", "Once")]))
        .unwrap();
    let id = created[0].id.clone().unwrap();
    let first = dispatch_delete(&mut p, "tmf620", "catalog", id.as_str());
    assert_eq!(render_delete_output(&first), 204);
    let second = dispatch_delete(&mut p, "tmf620", "catalog", id.as_str());
    assert_eq!(render_delete_output(&second), 404);
}

#[test]
fn render_patch_serves_item_or_not_found() {
    let mut p = gateway();
    let created = p
        .create_tmf_item(item_with("catalog", vec![("name", "Before")]))
        .unwrap();
    let id = created[0].id.clone().unwrap();

    let patched = p.patch_tmf_item("catalog", id.as_str(), item_with("catalog", vec![("name", "After")]));
    let plan = render_patch_output(patched);
    assert_eq!(plan.status, 200);
    match plan.body {
        ResponseBody::Item(it) => assert_eq!(it.get_field("name"), Some("After".to_string())),
        _ => panic!("a patched item must render as a body"),
    }

    let missing = p.patch_tmf_item("catalog", "absent", item_with("catalog", vec![("name", "X")]));
    let plan = render_patch_output(missing);
    assert_eq!(plan.status, 404);
}

#[test]
fn unknown_and_reserved_objects_render_bad_request() {
    let p = gateway();
    let unknown = dispatch_list(&p, "tmf620", "nonsense", &QueryOptions::all());
    let plan = render_list_output(unknown);
    assert_eq!(plan.status, 400);

    let reserved = dispatch_list(&p, "tmf620", "importJob", &QueryOptions::all());
    match &reserved {
        Err(e) => assert_eq!(e.message, "importJob: Not implemented"),
        Ok(_) => panic!("a reserved object must not be listed"),
    }
    assert_eq!(render_list_output(reserved).status, 400);

    let reserved_get = dispatch_get(&p, "tmf620", "hub", "x", &QueryOptions::all());
    match &reserved_get {
        Err(e) => assert_eq!(e.message, "hub: Not implemented"),
        Ok(_) => panic!("a reserved object must not be read"),
    }
    assert_eq!(render_get_output(reserved_get, None).status, 400);
}

#[test]
fn create_conflict_renders_conflict_status() {
    let mut p = gateway();
    let mut first = item_with("catalog", vec![("name", "A")]);
    first.id = Some("taken".to_string());
    p.create_tmf_item(first).unwrap();
    let mut second = item_with("catalog", vec![("name", "B")]);
    second.id = Some("taken".to_string());
    let outcome = p.create_tmf_item(second);
    assert_eq!(render_post_output(outcome).status, 409);
}

#[test]
fn error_envelope_carries_code_and_reason() {
    let e = PlatypusError::from("database unreachable");
    assert_eq!(e.kind, ErrorKind::Internal);
    let t = TMFError::from(e);
    assert_eq!(t.code, "PLAT001");
    assert_eq!(t.reason, "database unreachable");
    assert_eq!(t.message, Some("PLAT001: database unreachable".to_string()));
    assert_eq!(t.status, None);
    assert_eq!(t.reference_error, None);
}

#[test]
fn api_families_serve_their_objects() {
    assert!(resolve_object("tmf620", "catalog"));
    assert!(resolve_object("tmf620", "productOffering"));
    assert!(!resolve_object("tmf620", "customer"));
    assert!(resolve_object("tmf629", "customer"));
    assert!(resolve_object("tmf632", "organization"));
    assert!(!resolve_object("unknown", "catalog"));
    assert_eq!(known_objects("tmf648"), vec!["quote"]);
    assert!(is_unimplemented_object("importJob"));
    assert!(is_unimplemented_object("hub"));
    assert!(!is_unimplemented_object("catalog"));
}

#[test]
fn dispatch_follows_the_family_tables() {
    let mut p = gateway();
    let created = dispatch_post(
        &mut p,
        "tmf620",
        "catalog",
        item_with("catalog", vec![("name", "Templates")]),
        100,
    )
    .expect("post of a served object must succeed");
    let id = created[0].id.clone().unwrap();
    assert_eq!(created[0].last_update, Some(100), "tmf620 types keep a timestamp");

    let listed = dispatch_list(&p, "tmf620", "catalog", &QueryOptions::all()).unwrap();
    assert_eq!(listed.len(), 1);

    let read = dispatch_get(&p, "tmf620", "catalog", id.as_str(), &QueryOptions::all()).unwrap();
    assert_eq!(read[0].get_field("name"), Some("Templates".to_string()));

    let patched = dispatch_patch(
        &mut p,
        "tmf620",
        "catalog",
        id.as_str(),
        item_with("catalog", vec![("name", "Templates-v2")]),
        200,
    )
    .unwrap();
    assert_eq!(patched[0].get_field("name"), Some("Templates-v2".to_string()));
    assert_eq!(patched[0].last_update, Some(200));

    dispatch_delete(&mut p, "tmf620", "catalog", id.as_str()).unwrap();
    assert!(dispatch_get(&p, "tmf620", "catalog", id.as_str(), &QueryOptions::all())
        .unwrap()
        .is_empty());

    let bad = dispatch_list(&p, "tmf620", "nonsense", &QueryOptions::all());
    match bad {
        Err(e) => assert_eq!(e.kind, ErrorKind::Validation),
        Ok(_) => panic!("an unknown object must be rejected"),
    }

    let unstamped = dispatch_post(
        &mut p,
        "tmf629",
        "customer",
        item_with("customer", vec![("name", "C")]),
        300,
    )
    .unwrap();
    assert_eq!(unstamped[0].last_update, None, "tmf629 types keep no timestamp");
}

#[test]
fn null_listener_swallows_events() {
    let mut p = gateway();
    let mut quiet = NullListener {};
    let created = create_notifying(&mut p, &mut quiet, item_with("catalog", vec![("name", "Q")]))
        .expect("create with the null listener must succeed");
    assert_eq!(created.len(), 1);
}
