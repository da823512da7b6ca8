use vstd::prelude::*;

use crate::config::Config;
use crate::error::AppError;
use crate::ids::{parse_record_id, uuid_of_text};
use crate::settings::PaginationParams;

verus! {

/// Pagination as it arrives on the listing route: both values optional.
#[derive(Debug)]
pub struct PaginationQuery {
    pub limit: Option<u32>,
    pub offset: Option<u32>,
}

/// The limit an engine is handed: the requested one, defaulted when
/// absent, and clamped to the configured maximum.
pub open spec fn effective_limit(requested: Option<u32>, default: u32, max: u32) -> u32 {
    let base = match requested {
        Some(l) => l,
        None => default,
    };
    if base <= max {
        base
    } else {
        max
    }
}

/// The offset an engine is handed: the requested one, or zero.
pub open spec fn effective_offset(requested: Option<u32>) -> u32 {
    match requested {
        Some(o) => o,
        None => 0u32,
    }
}

/// Defaults and clamps the caller's pagination before it reaches a
/// repository, which expects validated values.
pub fn clamp_pagination(query: &PaginationQuery, config: &Config) -> (p: PaginationParams)
    ensures
        p.limit == effective_limit(query.limit, config.default_limit, config.max_limit),
        p.offset == effective_offset(query.offset),
{
    let base = match query.limit {
        Some(l) => l,
        None => config.default_limit,
    };
    let limit = if base <= config.max_limit {
        base
    } else {
        config.max_limit
    };
    let offset = match query.offset {
        Some(o) => o,
        None => 0,
    };
    PaginationParams { limit, offset }
}

/// Reads an identifier out of a path segment. Invalid identifier text is
/// "not found", never a distinct parse error.
pub fn parse_path_id(text: &str) -> (r: Result<u128, AppError>)
    ensures
        match r {
            Ok(id) => uuid_of_text(text@) == Some(id),
            Err(e) => uuid_of_text(text@) is None && e is NotFound,
        },
{
    match parse_record_id(text) {
        Some(id) => Ok(id),
        None => Err(AppError::NotFound),
    }
}

/// The boundary rule for write bodies: only a JSON object is accepted;
/// anything else is invalid input, named as such to the caller.
pub fn check_object_body(body_is_object: bool) -> (r: Result<(), AppError>)
    ensures
        body_is_object <==> r is Ok,
        !body_is_object ==> (r matches Err(AppError::InvalidJson(detail)) && detail@
            == "Request body must be a JSON object"@),
{
    if body_is_object {
        Ok(())
    } else {
        Err(AppError::InvalidJson("Request body must be a JSON object".to_owned()))
    }
}

} // verus!
