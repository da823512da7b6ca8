use settings_api::codec::{decode_row, encode_row, page_from_rows, update_outcome};
use settings_api::error::AppError;
use settings_api::settings::{PaginationParams, Settings};

const SAMPLE_ID: u128 = 0xa1a2a3a4_b1b2_c1c2_d1d2_d3d4d5d6d7d8;

#[test]
fn encode_row_writes_canonical_id_text() {
    let s = Settings {
        id: SAMPLE_ID,
        data: "{\"k\":true}".to_string(),
    };
    let (id_text, data_text) = encode_row(&s);
    assert_eq!(id_text, "a1a2a3a4-b1b2-c1c2-d1d2-d3d4d5d6d7d8");
    assert_eq!(id_text.len(), 36);
    assert_eq!(id_text, uuid::Uuid::from_u128(SAMPLE_ID).to_string());
    assert_eq!(data_text, "{\"k\":true}");
}

#[test]
fn encode_then_decode_round_trips() {
    let s = Settings {
        id: SAMPLE_ID,
        data: "{\"nested\":{\"a\":[1,2]}}".to_string(),
    };
    let (id_text, data_text) = encode_row(&s);
    let back = decode_row(&id_text, &data_text).unwrap();
    assert_eq!(back.id, s.id);
    assert_eq!(back.data, s.data);
}

#[test]
fn decode_accepts_simple_id_form() {
    let back = decode_row("a1a2a3a4b1b2c1c2d1d2d3d4d5d6d7d8", "{}").unwrap();
    assert_eq!(back.id, SAMPLE_ID);
}

#[test]
fn decode_rejects_corrupt_id() {
    let r = decode_row("not-an-identifier", "{}");
    match r {
        Err(AppError::Internal(detail)) => assert_eq!(detail, "Invalid UUID in database"),
        other => panic!("expected an internal error, got {:?}", other),
    }
}

#[test]
fn decode_rejects_corrupt_payload() {
    let r = decode_row("a1a2a3a4-b1b2-c1c2-d1d2-d3d4d5d6d7d8", "{\"unclosed\":");
    match r {
        Err(AppError::Internal(detail)) => assert_eq!(detail, "Invalid JSON in database"),
        other => panic!("expected an internal error, got {:?}", other),
    }
}

#[test]
fn page_from_rows_keeps_order_and_envelope() {
    let rows = vec![
        (
            "00000000-0000-0000-0000-000000000002".to_string(),
            "{\"n\":2}".to_string(),
        ),
        (
            "00000000-0000-0000-0000-000000000001".to_string(),
            "{\"n\":1}".to_string(),
        ),
    ];
    let page = page_from_rows(rows, 7, PaginationParams { limit: 2, offset: 0 }).unwrap();
    assert_eq!(page.total, 7);
    assert_eq!(page.limit, 2);
    assert_eq!(page.offset, 0);
    assert_eq!(page.items.len(), 2);
    assert_eq!(page.items[0].id, 2);
    assert_eq!(page.items[0].data, "{\"n\":2}");
    assert_eq!(page.items[1].id, 1);
}

#[test]
fn page_from_rows_aborts_on_corrupt_row() {
    let rows = vec![
        (
            "00000000-0000-0000-0000-000000000001".to_string(),
            "{}".to_string(),
        ),
        ("garbage".to_string(), "{}".to_string()),
    ];
    let r = page_from_rows(rows, 2, PaginationParams { limit: 10, offset: 0 });
    assert!(matches!(r, Err(AppError::Internal(_))));
}

#[test]
fn update_outcome_zero_rows_is_absent() {
    let s = Settings {
        id: 9,
        data: "{}".to_string(),
    };
    assert!(update_outcome(0, 9, s).is_none());
}

#[test]
fn update_outcome_carries_matched_id_and_new_payload() {
    let s = Settings {
        id: 1234,
        data: "{\"v\":9}".to_string(),
    };
    let updated = update_outcome(1, 77, s).unwrap();
    assert_eq!(updated.id, 77, "the matched identifier wins");
    assert_eq!(updated.data, "{\"v\":9}");
}
