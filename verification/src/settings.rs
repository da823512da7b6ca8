use vstd::prelude::*;

use crate::ids::mint_record_id;

verus! {

/// One stored settings document: a 128-bit identifier, minted at creation
/// and immutable thereafter, and the document's JSON text kept verbatim.
#[derive(Debug)]
pub struct Settings {
    pub id: u128,
    pub data: String,
}

/// The mathematical value of a stored record: its identifier and the
/// character sequence of its JSON text.
#[verifier::ext_equal]
pub struct RecordView {
    pub id: u128,
    pub data: Seq<char>,
}

impl View for Settings {
    type V = RecordView;

    open spec fn view(&self) -> RecordView {
        RecordView { id: self.id, data: self.data@ }
    }
}

impl Clone for Settings {
    fn clone(&self) -> (r: Self)
        ensures
            r@ == self@,
    {
        Settings { id: self.id, data: self.data.clone() }
    }
}

impl Settings {
    /// Mints a fresh random identifier and pairs it with the given payload
    /// text, which is kept unchanged.
    pub fn new(data: String) -> (s: Settings)
        ensures
            s.data@ == data@,
    {
        Settings { id: mint_record_id(), data }
    }
}

/// The views of a sequence of records, in order.
pub open spec fn views_of(items: Seq<Settings>) -> Seq<RecordView> {
    items.map_values(|s: Settings| s@)
}

/// The pagination parameters an engine applies: how many records to return
/// and how many to skip, already defaulted and clamped by the boundary.
#[derive(Debug, Clone, Default)]
pub struct PaginationParams {
    pub limit: u32,
    pub offset: u32,
}

/// The pagination envelope listing returns: the page itself, the count of
/// all live records, and the effective parameters echoed back.
#[derive(Debug, Clone)]
pub struct PaginatedResult<T> {
    pub items: Vec<T>,
    pub total: u64,
    pub limit: u32,
    pub offset: u32,
}

} // verus!
