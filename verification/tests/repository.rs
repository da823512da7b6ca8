use settings_api::memory::MemorySettingsRepository;
use settings_api::repo::SettingsRepository;
use settings_api::settings::{PaginationParams, Settings};

fn params(limit: u32, offset: u32) -> PaginationParams {
    PaginationParams { limit, offset }
}

fn create_with(repo: &mut MemorySettingsRepository, data: &str) -> Settings {
    repo.create(Settings::new(data.to_string()))
        .expect("creation under a fresh identifier succeeds")
}

#[test]
fn round_trip_create_then_find() {
    let mut repo = MemorySettingsRepository::new();
    let payload = "{\"theme\":\"dark\",\"count\":3}";
    let stored = create_with(&mut repo, payload);
    assert_eq!(stored.data, payload);
    let found = repo
        .find_by_id(stored.id)
        .expect("lookup succeeds")
        .expect("the created record is present");
    assert_eq!(found.id, stored.id);
    assert_eq!(found.data, payload);
}

#[test]
fn delete_twice_succeeds() {
    let mut repo = MemorySettingsRepository::new();
    let stored = create_with(&mut repo, "{\"a\":1}");

    assert!(repo.delete(stored.id).is_ok());
    assert!(repo.delete(stored.id).is_ok());

    // Deleting an identifier that never existed succeeds as well.
    assert!(repo.delete(0xdead_beef_u128).is_ok());
    assert!(repo.delete(0xdead_beef_u128).is_ok());
    assert!(repo.find_by_id(stored.id).unwrap().is_none());
}

#[test]
fn missing_read_and_update() {
    let mut repo = MemorySettingsRepository::new();
    create_with(&mut repo, "{\"present\":true}");

    let unused: u128 = 0x1234_5678_9abc_def0;
    assert!(repo.find_by_id(unused).unwrap().is_none());
    let outcome = repo
        .update(unused, Settings::new("{\"x\":0}".to_string()))
        .unwrap();
    assert!(outcome.is_none());
}

#[test]
fn pagination_bounds() {
    let mut repo = MemorySettingsRepository::new();
    for i in 0..3 {
        create_with(&mut repo, &format!("{{\"n\":{}}}", i));
    }

    for (limit, offset, expected) in [
        (0u32, 0u32, 0usize),
        (2, 0, 2),
        (5, 0, 3),
        (2, 2, 1),
        (5, 3, 0),
        (1, 5, 0),
    ] {
        let page = repo.find_all(params(limit, offset)).unwrap();
        assert_eq!(page.items.len(), expected, "limit {} offset {}", limit, offset);
        assert_eq!(page.total, 3);
        assert_eq!(page.limit, limit);
        assert_eq!(page.offset, offset);
    }
}

#[test]
fn ordering_most_recently_modified_first() {
    let mut repo = MemorySettingsRepository::new();
    let a = create_with(&mut repo, "{\"name\":\"a\"}");
    let b = create_with(&mut repo, "{\"name\":\"b\"}");
    let c = create_with(&mut repo, "{\"name\":\"c\"}");

    let page = repo.find_all(params(10, 0)).unwrap();
    let ids: Vec<u128> = page.items.iter().map(|s| s.id).collect();
    assert_eq!(ids, vec![c.id, b.id, a.id]);

    // Updating a record moves it to the front of subsequent listings.
    repo.update(a.id, Settings::new("{\"name\":\"a2\"}".to_string()))
        .unwrap()
        .expect("the record is present");
    let page = repo.find_all(params(10, 0)).unwrap();
    let ids: Vec<u128> = page.items.iter().map(|s| s.id).collect();
    assert_eq!(ids, vec![a.id, c.id, b.id]);
    assert_eq!(page.items[0].data, "{\"name\":\"a2\"}");
}

#[test]
fn update_preserves_identity() {
    let mut repo = MemorySettingsRepository::new();
    let stored = create_with(&mut repo, "{\"v\":1}");

    let updated = repo
        .update(stored.id, Settings::new("{\"v\":2}".to_string()))
        .unwrap()
        .expect("the record is present");
    assert_eq!(updated.id, stored.id);

    let found = repo
        .find_by_id(stored.id)
        .unwrap()
        .expect("still reachable by the same identifier");
    assert_eq!(found.data, "{\"v\":2}");
}

#[test]
fn single_record_listing() {
    let mut repo = MemorySettingsRepository::new();
    let stored = create_with(&mut repo, "{\"foo\":\"bar\"}");
    assert_eq!(stored.data, "{\"foo\":\"bar\"}");

    let page = repo.find_all(params(10, 0)).unwrap();
    assert_eq!(page.total, 1);
    assert_eq!(page.items.len(), 1);
    assert_eq!(page.items[0].id, stored.id);
    assert_eq!(page.items[0].data, "{\"foo\":\"bar\"}");
}

#[test]
fn two_records_paged_one_by_one() {
    let mut repo = MemorySettingsRepository::new();
    let a = create_with(&mut repo, "{\"rec\":\"a\"}");
    let b = create_with(&mut repo, "{\"rec\":\"b\"}");

    let first = repo.find_all(params(1, 0)).unwrap();
    assert_eq!(first.items.len(), 1);
    assert_eq!(first.items[0].id, b.id, "last modified comes first");

    let second = repo.find_all(params(1, 1)).unwrap();
    assert_eq!(second.items.len(), 1);
    assert_eq!(second.items[0].id, a.id);
}

#[test]
fn create_rejects_identifier_collision() {
    let mut repo = MemorySettingsRepository::new();
    let stored = create_with(&mut repo, "{}");
    let clash = Settings {
        id: stored.id,
        data: "{\"other\":1}".to_string(),
    };
    let res = repo.create(clash);
    assert!(matches!(
        res,
        Err(settings_api::error::AppError::Database(_))
    ));
    // The store is unchanged by the failed creation.
    assert_eq!(repo.find_all(params(10, 0)).unwrap().total, 1);
}

#[test]
fn create_settings_works_basic_map() {
    let mut repo = MemorySettingsRepository::new();
    let json_1 = "{\"foo\": \"bar\"}";
    create_with(&mut repo, json_1);

    let page = repo.find_all(params(10, 0)).unwrap();
    assert_eq!(page.total, 1);
    assert_eq!(page.items[0].data, json_1);
}

#[test]
fn create_settings_works_empty_json() {
    let mut repo = MemorySettingsRepository::new();
    let json_1 = "{}";
    create_with(&mut repo, json_1);

    let page = repo.find_all(params(10, 0)).unwrap();
    assert_eq!(page.total, 1);
    assert_eq!(page.items[0].data, json_1);
}

#[test]
fn minted_identifiers_differ() {
    let a = Settings::new("{}".to_string());
    let b = Settings::new("{}".to_string());
    assert_ne!(a.id, b.id);
}
