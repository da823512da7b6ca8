use vstd::prelude::*;

use crate::error::AppError;
use crate::ids::{format_record_id, parse_record_id, uuid_of_text, uuid_text_of};
use crate::settings::{PaginatedResult, PaginationParams, RecordView, Settings};

verus! {

/// Whether a piece of text is valid JSON.
pub uninterp spec fn valid_json(text: Seq<char>) -> bool;

/// Relies on serde_json::from_str: whether the text parses as a JSON
/// value.
#[verifier::external_body]
fn json_text_parses(text: &str) -> (r: bool)
    ensures
        r == valid_json(text@),
{
    serde_json::from_str::<serde_json::Value>(text).is_ok()
}

/// What decoding a persisted row yields: the record, where the identifier
/// text denotes an identifier and the payload text is valid JSON; nothing
/// otherwise.
pub open spec fn decoded_row(id_text: Seq<char>, data_text: Seq<char>) -> Option<RecordView> {
    match uuid_of_text(id_text) {
        Some(id) => if valid_json(data_text) {
            Some(RecordView { id, data: data_text })
        } else {
            None
        },
        None => None,
    }
}

/// A record as it is written to the relational store: the identifier in
/// its canonical text form, and the payload text verbatim.
pub fn encode_row(settings: &Settings) -> (r: (String, String))
    ensures
        r.0@ == uuid_text_of(settings.id),
        uuid_of_text(r.0@) == Some(settings.id),
        r.1@ == settings.data@,
{
    (format_record_id(settings.id), settings.data.clone())
}

/// A persisted row read back into a record. A corrupt identifier or
/// payload is an internal error — a previously successful write whose
/// stored bytes are no longer valid — distinct from "not found".
pub fn decode_row(id_text: &str, data_text: &str) -> (r: Result<Settings, AppError>)
    ensures
        match r {
            Ok(s) => decoded_row(id_text@, data_text@) == Some(s@),
            Err(e) => decoded_row(id_text@, data_text@) is None && (e matches AppError::Internal(
                detail,
            ) && (if uuid_of_text(id_text@) is None {
                detail@ == "Invalid UUID in database"@
            } else {
                detail@ == "Invalid JSON in database"@
            })),
        },
{
    match parse_record_id(id_text) {
        None => Err(AppError::Internal("Invalid UUID in database".to_owned())),
        Some(id) => {
            if json_text_parses(data_text) {
                Ok(Settings { id, data: data_text.to_owned() })
            } else {
                Err(AppError::Internal("Invalid JSON in database".to_owned()))
            }
        },
    }
}

/// A fetched page read back whole: every row decoded in order; one corrupt
/// row aborts the page with an internal error — no partial pages.
pub fn page_from_rows(rows: Vec<(String, String)>, total: u64, params: PaginationParams) -> (r:
    Result<PaginatedResult<Settings>, AppError>)
    ensures
        match r {
            Ok(page) => page.total == total && page.limit == params.limit && page.offset
                == params.offset && page.items@.len() == rows@.len() && (forall|i: int|
                0 <= i < rows@.len() ==> #[trigger] decoded_row(rows@[i].0@, rows@[i].1@) == Some(
                    page.items@[i]@,
                )),
            Err(e) => e is Internal && (exists|i: int|
                0 <= i < rows@.len() && #[trigger] decoded_row(rows@[i].0@, rows@[i].1@) is None),
        },
{
    let mut items: Vec<Settings> = Vec::new();
    let mut i: usize = 0;
    while i < rows.len()
        invariant
            i <= rows@.len(),
            items@.len() == i,
            forall|k: int|
                0 <= k < i ==> #[trigger] decoded_row(rows@[k].0@, rows@[k].1@) == Some(
                    items@[k]@,
                ),
        decreases rows@.len() - i,
    {
        let row = &rows[i];
        match decode_row(row.0.as_str(), row.1.as_str()) {
            Ok(s) => items.push(s),
            Err(e) => {
                return Err(e);
            },
        }
        i = i + 1;
    }
    Ok(PaginatedResult { items, total, limit: params.limit, offset: params.offset })
}

/// The update decision read off the engine's affected-row count: zero rows
/// means the identifier was absent; otherwise the updated record carries
/// the matched identifier and the new payload.
pub fn update_outcome(rows_affected: u64, id: u128, settings: Settings) -> (r: Option<Settings>)
    ensures
        match r {
            Some(updated) => rows_affected != 0 && updated.id == id && updated.data@
                == settings.data@,
            None => rows_affected == 0,
        },
{
    if rows_affected == 0 {
        None
    } else {
        Some(Settings { id, data: settings.data })
    }
}

} // verus!
