use vstd::prelude::*;

use crate::error::AppError;
use crate::model::{
    contains_id, find_in_store, page_of_store, store_after_create, store_after_delete,
    store_after_update, wf_store,
};
use crate::settings::{views_of, PaginatedResult, PaginationParams, RecordView, Settings};

verus! {

/// The repository port: the five persistence operations every storage
/// engine offers, specified once against an abstract store so that all
/// implementations share one behavioral contract.
///
/// The abstract store lists the live records most recently modified
/// first; creation and update prepend, listing slices.
pub trait SettingsRepository: Sized {
    /// The abstract state of the engine: live records, most recently
    /// modified first.
    spec fn store(&self) -> Seq<RecordView>;

    /// The engine's internal invariant; every operation preserves it.
    spec fn inv(&self) -> bool;

    /// The invariant includes the store's own well-formedness — unique
    /// identifiers — which callers need to reason with the store model.
    proof fn inv_store_wf(&self)
        requires
            self.inv(),
        ensures
            wf_store(self.store()),
    ;

    /// Persists a new record under its caller-supplied identifier and
    /// returns it unchanged; an identifier collision is a storage error.
    fn create(&mut self, settings: Settings) -> (r: Result<Settings, AppError>)
        requires
            old(self).inv(),
        ensures
            final(self).inv(),
            match r {
                Ok(stored) => !contains_id(old(self).store(), stored.id) && stored@ == settings@
                    && final(self).store() == store_after_create(old(self).store(), settings@),
                Err(e) => contains_id(old(self).store(), settings.id) && final(self).store()
                    == old(self).store() && e is Database,
            },
    ;

    /// Returns one page of records, most recently modified first, together
    /// with the count of all live records and the parameters it applied.
    fn find_all(&self, params: PaginationParams) -> (r: Result<
        PaginatedResult<Settings>,
        AppError,
    >)
        requires
            self.inv(),
        ensures
            r is Ok,
            match r {
                Ok(page) => page.total == self.store().len() && page.limit == params.limit
                    && page.offset == params.offset && views_of(page.items@) == page_of_store(
                    self.store(),
                    params.limit as int,
                    params.offset as int,
                ),
                Err(_) => true,
            },
    ;

    /// Fetches the record carrying the identifier; absence is signalled,
    /// not raised.
    fn find_by_id(&self, id: u128) -> (r: Result<Option<Settings>, AppError>)
        requires
            self.inv(),
        ensures
            r is Ok,
            match r {
                Ok(found) => match found {
                    Some(s) => s.id == id && find_in_store(self.store(), id) == Some(s@),
                    None => find_in_store(self.store(), id) is None,
                },
                Err(_) => true,
            },
    ;

    /// Replaces the payload of the record matched by the `id` argument
    /// (the supplied record's own identifier is ignored for matching) and
    /// refreshes its modification time; the returned record carries the
    /// matched identifier. An absent identifier is signalled, not raised.
    fn update(&mut self, id: u128, settings: Settings) -> (r: Result<Option<Settings>, AppError>)
        requires
            old(self).inv(),
        ensures
            final(self).inv(),
            r is Ok,
            match r {
                Ok(Some(updated)) => contains_id(old(self).store(), id) && updated.id == id
                    && updated.data@ == settings.data@ && final(self).store()
                    == store_after_update(old(self).store(), id, settings.data@),
                Ok(None) => !contains_id(old(self).store(), id) && final(self).store() == old(
                    self,
                ).store(),
                Err(_) => true,
            },
    ;

    /// Removes the record carrying the identifier if present; succeeds
    /// either way — delete is idempotent and never reports "not found".
    fn delete(&mut self, id: u128) -> (r: Result<(), AppError>)
        requires
            old(self).inv(),
        ensures
            final(self).inv(),
            r is Ok,
            final(self).store() == store_after_delete(old(self).store(), id),
    ;
}

} // verus!
