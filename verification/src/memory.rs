use vstd::prelude::*;

use crate::error::AppError;
use crate::model::{
    contains_id, index_of_id, lemma_delete_removes, lemma_index_unique, lemma_wf_create,
    lemma_wf_update, page_of_store, store_after_create, store_after_delete, store_after_update,
    wf_store,
};
use crate::repo::SettingsRepository;
use crate::settings::{views_of, PaginatedResult, PaginationParams, RecordView, Settings};

verus! {

/// The in-memory storage engine: the live records held directly, most
/// recently modified first. It implements the repository port in full and
/// is the reference against which the relational engine's contract reads.
pub struct MemorySettingsRepository {
    rows: Vec<Settings>,
}

impl MemorySettingsRepository {
    /// An empty store.
    pub fn new() -> (r: MemorySettingsRepository)
        ensures
            r.inv(),
            r.store() == Seq::<RecordView>::empty(),
    {
        let r = MemorySettingsRepository { rows: Vec::new() };
        proof {
            assert(r.store() =~= Seq::<RecordView>::empty());
        }
        r
    }

    /// The position of the record carrying the identifier, if any.
    fn position_of(&self, id: u128) -> (r: Option<usize>)
        requires
            self.inv(),
        ensures
            match r {
                Some(i) => i < self.store().len() && self.store()[i as int].id == id
                    && contains_id(self.store(), id) && index_of_id(self.store(), id) == i as int,
                None => !contains_id(self.store(), id),
            },
    {
        let mut i: usize = 0;
        while i < self.rows.len()
            invariant
                self.inv(),
                i <= self.rows@.len(),
                forall|j: int| 0 <= j < i ==> self.store()[j].id != id,
            decreases self.rows@.len() - i,
        {
            if self.rows[i].id == id {
                proof {
                    lemma_index_unique(self.store(), id, i as int);
                }
                return Some(i);
            }
            i = i + 1;
        }
        proof {
            if contains_id(self.store(), id) {
                let k = index_of_id(self.store(), id);
                assert(self.store()[k].id != id);
            }
        }
        None
    }
}

impl SettingsRepository for MemorySettingsRepository {
    closed spec fn store(&self) -> Seq<RecordView> {
        views_of(self.rows@)
    }

    closed spec fn inv(&self) -> bool {
        wf_store(self.store())
    }

    proof fn inv_store_wf(&self) {
    }

    fn create(&mut self, settings: Settings) -> (r: Result<Settings, AppError>) {
        match self.position_of(settings.id) {
            Some(_) => Err(AppError::Database("duplicate identifier in settings store".to_owned())),
            None => {
                let ghost m0 = self.store();
                let stored = settings.clone();
                self.rows.insert(0, settings);
                proof {
                    assert(self.store() =~= store_after_create(m0, stored@));
                    lemma_wf_create(m0, stored@);
                }
                Ok(stored)
            },
        }
    }

    fn find_all(&self, params: PaginationParams) -> (r: Result<
        PaginatedResult<Settings>,
        AppError,
    >) {
        let len: usize = self.rows.len();
        let total: u64 = len as u64;
        let limit: usize = params.limit as usize;
        let offset: usize = params.offset as usize;
        let start: usize = if offset <= len {
            offset
        } else {
            len
        };
        let remaining: usize = len - start;
        let take: usize = if limit <= remaining {
            limit
        } else {
            remaining
        };
        let end: usize = start + take;
        let mut items: Vec<Settings> = Vec::new();
        let mut i: usize = start;
        while i < end
            invariant
                self.inv(),
                start <= i <= end,
                end <= self.rows@.len(),
                items@.len() == i - start,
                forall|k: int|
                    0 <= k < i - start ==> #[trigger] views_of(items@)[k] == self.store()[start
                        + k],
            decreases end - i,
        {
            let row = self.rows[i].clone();
            let ghost pre = items@;
            items.push(row);
            proof {
                assert(items@ == pre.push(row));
                assert forall|k: int| 0 <= k < i + 1 - start implies #[trigger] views_of(items@)[k]
                    == self.store()[start + k] by {
                    if k < i - start {
                        assert(items@[k] == pre[k]);
                        assert(views_of(pre)[k] == self.store()[start + k]);
                    } else {
                        assert(items@[k] == row);
                    }
                }
            }
            i = i + 1;
        }
        let result = PaginatedResult { items, total, limit: params.limit, offset: params.offset };
        proof {
            assert(page_of_store(self.store(), params.limit as int, params.offset as int)
                =~= self.store().subrange(start as int, end as int));
            assert(views_of(result.items@) =~= self.store().subrange(start as int, end as int));
        }
        Ok(result)
    }

    fn find_by_id(&self, id: u128) -> (r: Result<Option<Settings>, AppError>) {
        match self.position_of(id) {
            Some(i) => Ok(Some(self.rows[i].clone())),
            None => Ok(None),
        }
    }

    fn update(&mut self, id: u128, settings: Settings) -> (r: Result<Option<Settings>, AppError>) {
        match self.position_of(id) {
            None => Ok(None),
            Some(i) => {
                let ghost m0 = self.store();
                self.rows.remove(i);
                proof {
                    assert(self.store() =~= store_after_delete(m0, id));
                }
                let updated = Settings { id, data: settings.data };
                let out = updated.clone();
                self.rows.insert(0, updated);
                proof {
                    assert(self.store() =~= store_after_delete(m0, id).insert(
                        0,
                        RecordView { id, data: out.data@ },
                    ));
                    assert(self.store() == store_after_update(m0, id, out.data@));
                    lemma_wf_update(m0, id, out.data@);
                }
                Ok(Some(out))
            },
        }
    }

    fn delete(&mut self, id: u128) -> (r: Result<(), AppError>) {
        let ghost m0 = self.store();
        match self.position_of(id) {
            Some(i) => {
                self.rows.remove(i);
                proof {
                    assert(self.store() =~= store_after_delete(m0, id));
                    lemma_delete_removes(m0, id);
                }
            },
            None => {},
        }
        Ok(())
    }
}

} // verus!
