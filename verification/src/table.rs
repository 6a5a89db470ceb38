//! A table held in memory: what one store operation does to the rows of one
//! entity type, and what it returns. The service decides against a store
//! that behaves like this one.

use vstd::prelude::*;
use crate::event::rows_view;
use crate::record::{has_text, views, Changes, Criteria, Draft, Entity};
use crate::search::{satisfies, Query};
use crate::store::{StoreCall, StoreError, StoreErrorView, StoreFault};

verus! {

/// Whether no two rows have the same key.
pub open spec fn distinct<E: Entity>(rows: Seq<E::V>) -> bool {
    forall|i: int, j: int|
        0 <= i < j < rows.len() ==> E::key(#[trigger] rows[i]) != E::key(#[trigger] rows[j])
}

/// Whether a row has the key `id`.
pub open spec fn holds<E: Entity>(rows: Seq<E::V>, id: Seq<char>) -> bool {
    exists|i: int| 0 <= i < rows.len() && E::key(#[trigger] rows[i]) == id
}

/// Where the row with the key `id` stands, if `holds(rows, id)`.
pub open spec fn place<E: Entity>(rows: Seq<E::V>, id: Seq<char>) -> int {
    choose|i: int| 0 <= i < rows.len() && E::key(#[trigger] rows[i]) == id
}

/// The failure of an insert under a key that a row has already.
pub open spec fn duplicate_key() -> StoreErrorView {
    StoreErrorView {
        fault: StoreFault::Other,
        message: "duplicate key value violates unique constraint"@,
    }
}

/// The failure of a query with a negative limit.
pub open spec fn negative_limit() -> StoreErrorView {
    StoreErrorView { fault: StoreFault::Other, message: "LIMIT must not be negative"@ }
}

/// The failure of a query with a negative offset.
pub open spec fn negative_offset() -> StoreErrorView {
    StoreErrorView { fault: StoreFault::Other, message: "OFFSET must not be negative"@ }
}

/// What a look-up by key returns: the row with that key, if there is one.
pub open spec fn lookup<E: Entity>(rows: Seq<E::V>, id: Seq<char>) -> Seq<E::V> {
    if holds::<E>(rows, id) {
        seq![rows[place::<E>(rows, id)]]
    } else {
        Seq::empty()
    }
}

/// The predicate of a query on rows.
pub open spec fn predicate<E: Entity, F: Criteria<E>>(query: Query<F>) -> spec_fn(E::V) -> bool {
    |row: E::V| satisfies::<E, F>(query, row)
}

/// The rows that are left when `offset` rows are passed over and at most
/// `limit` rows are taken after them.
pub open spec fn window<R>(rows: Seq<R>, offset: Option<i64>, limit: Option<i64>) -> Seq<R> {
    let rest = match offset {
        Some(n) => if n < rows.len() {
            rows.skip(n as int)
        } else {
            Seq::empty()
        },
        None => rows,
    };
    match limit {
        Some(n) => if n < rest.len() {
            rest.take(n as int)
        } else {
            rest
        },
        None => rest,
    }
}

/// What a search returns: the rows that meet every predicate of the query,
/// in the order of the table, cut to the window of offset and limit.
pub open spec fn selected<E: Entity, F: Criteria<E>>(rows: Seq<E::V>, query: Query<F>) -> Result<
    Seq<E::V>,
    StoreErrorView,
> {
    if query.limit matches Some(n) && n < 0 {
        Err(negative_limit())
    } else if query.offset matches Some(n) && n < 0 {
        Err(negative_offset())
    } else {
        Ok(window(rows.filter(predicate::<E, F>(query)), query.offset, query.limit))
    }
}

/// The table after an insert of `row`: the row is added at the end unless
/// its key is taken.
pub open spec fn rows_after_insert<E: Entity>(rows: Seq<E::V>, row: E::V) -> Seq<E::V> {
    if holds::<E>(rows, E::key(row)) {
        rows
    } else {
        rows.push(row)
    }
}

/// What an insert of `row` returns: the row as it is stored, or a failure if
/// its key is taken.
pub open spec fn insert_returns<E: Entity>(rows: Seq<E::V>, row: E::V) -> Result<
    Seq<E::V>,
    StoreErrorView,
> {
    if holds::<E>(rows, E::key(row)) {
        Err(duplicate_key())
    } else {
        Ok(seq![row])
    }
}

/// The table after an update of the row with the key `id`: that row is
/// changed in its place, and every other row stays as it is.
pub open spec fn rows_after_update<E: Entity, C: Changes<E>>(
    rows: Seq<E::V>,
    id: Seq<char>,
    changes: C,
) -> Seq<E::V> {
    if holds::<E>(rows, id) {
        let at = place::<E>(rows, id);
        rows.update(at, changes.applied(rows[at]))
    } else {
        rows
    }
}

/// What an update returns: the row as it is after the update, if there is
/// one with the key.
pub open spec fn update_returns<E: Entity, C: Changes<E>>(
    rows: Seq<E::V>,
    id: Seq<char>,
    changes: C,
) -> Seq<E::V> {
    if holds::<E>(rows, id) {
        seq![changes.applied(rows[place::<E>(rows, id)])]
    } else {
        Seq::empty()
    }
}

/// The table after a delete of the row with the key `id`.
pub open spec fn rows_after_delete<E: Entity>(rows: Seq<E::V>, id: Seq<char>) -> Seq<E::V> {
    if holds::<E>(rows, id) {
        rows.remove(place::<E>(rows, id))
    } else {
        rows
    }
}

/// The table after an operation.
pub open spec fn rows_after<E: Entity, D: Draft<E>, C: Changes<E>, F: Criteria<E>>(
    rows: Seq<E::V>,
    call: StoreCall<D, C, F>,
) -> Seq<E::V> {
    match call {
        StoreCall::Fetch { id } => rows,
        StoreCall::Search(query) => rows,
        StoreCall::Insert(draft) => rows_after_insert::<E>(rows, draft.row()),
        StoreCall::Update { id, changes } => rows_after_update::<E, C>(rows, id@, changes),
        StoreCall::Delete { id } => rows_after_delete::<E>(rows, id@),
    }
}

/// What an operation returns: the rows that it met or made, or its failure.
pub open spec fn returned<E: Entity, D: Draft<E>, C: Changes<E>, F: Criteria<E>>(
    rows: Seq<E::V>,
    call: StoreCall<D, C, F>,
) -> Result<Seq<E::V>, StoreErrorView> {
    match call {
        StoreCall::Fetch { id } => Ok(lookup::<E>(rows, id@)),
        StoreCall::Search(query) => selected::<E, F>(rows, query),
        StoreCall::Insert(draft) => insert_returns::<E>(rows, draft.row()),
        StoreCall::Update { id, changes } => Ok(update_returns::<E, C>(rows, id@, changes)),
        StoreCall::Delete { id } => Ok(lookup::<E>(rows, id@)),
    }
}

/// One table of the store: rows of one entity type, no two with the same
/// key, in the order in which they were inserted.
pub struct Table<E: Entity> {
    rows: Vec<E>,
}

impl<E: Entity> View for Table<E> {
    type V = Seq<E::V>;

    closed spec fn view(&self) -> Seq<E::V> {
        views(self.rows@)
    }
}

impl<E: Entity> Table<E> {
    /// The invariant of a table: no two rows have the same key.
    pub open spec fn wf(&self) -> bool {
        distinct::<E>(self@)
    }

    /// A table without rows.
    pub fn new() -> (table: Self)
        ensures
            table.wf(),
            table@ == Seq::<E::V>::empty(),
    {
        let table = Table { rows: Vec::new() };
        assert(table@ =~= Seq::<E::V>::empty());
        table
    }

    /// The number of rows.
    pub fn len(&self) -> (n: usize)
        ensures
            n == self@.len(),
    {
        self.rows.len()
    }

    /// Where the row with the key `id` stands.
    fn locate(&self, id: &String) -> (at: Option<usize>)
        requires
            self.wf(),
        ensures
            at is Some <==> holds::<E>(self@, id@),
            at matches Some(i) ==> i == place::<E>(self@, id@) && i < self.rows.len(),
    {
        let mut i: usize = 0;
        while i < self.rows.len()
            invariant
                self.wf(),
                i <= self.rows.len(),
                forall|j: int| 0 <= j < i ==> E::key(#[trigger] self@[j]) != id@,
            decreases self.rows.len() - i,
        {
            if *self.rows[i].id() == *id {
                proof {
                    assert(E::key(self@[i as int]) == id@);
                    let w = place::<E>(self@, id@);
                    assert(E::key(self@[w]) == id@);
                    assert(w == i);
                }
                return Some(i);
            }
            i += 1;
        }
        None
    }

    /// Runs one operation.
    pub fn execute<D: Draft<E>, C: Changes<E>, F: Criteria<E>>(
        &mut self,
        call: StoreCall<D, C, F>,
    ) -> (outcome: Result<Vec<E>, StoreError>)
        requires
            old(self).wf(),
        ensures
            final(self).wf(),
            final(self)@ == rows_after::<E, D, C, F>(old(self)@, call),
            rows_view(outcome) == returned::<E, D, C, F>(old(self)@, call),
    {
        match call {
            StoreCall::Fetch { id } => self.fetch(&id),
            StoreCall::Search(query) => self.load(&query),
            StoreCall::Insert(draft) => self.insert(draft),
            StoreCall::Update { id, changes } => self.update(&id, &changes),
            StoreCall::Delete { id } => self.delete(&id),
        }
    }

    /// Looks a row up by its key: the rows that come back are the row with
    /// the key `id`, or none.
    pub fn fetch(&self, id: &String) -> (found: Result<Vec<E>, StoreError>)
        requires
            self.wf(),
        ensures
            rows_view(found) == Ok::<Seq<E::V>, StoreErrorView>(lookup::<E>(self@, id@)),
    {
        let mut found: Vec<E> = Vec::new();
        match self.locate(id) {
            Some(at) => {
                found.push(self.rows[at].duplicate());
                assert(views(found@) =~= lookup::<E>(self@, id@));
            },
            None => {
                assert(views(found@) =~= lookup::<E>(self@, id@));
            },
        }
        Ok(found)
    }

    /// Runs a search.
    pub fn load<F: Criteria<E>>(&self, query: &Query<F>) -> (found: Result<Vec<E>, StoreError>)
        ensures
            rows_view(found) == selected::<E, F>(self@, *query),
    {
        if let Some(n) = query.limit {
            if n < 0 {
                return Err(StoreError::other("LIMIT must not be negative".to_owned()));
            }
        }
        if let Some(n) = query.offset {
            if n < 0 {
                return Err(StoreError::other("OFFSET must not be negative".to_owned()));
            }
        }
        let ghost wanted = predicate::<E, F>(*query);
        let mut met: Vec<E> = Vec::new();
        let mut i: usize = 0;
        while i < self.rows.len()
            invariant
                i <= self.rows.len(),
                wanted == predicate::<E, F>(*query),
                views(met@) == self@.take(i as int).filter(wanted),
            decreases self.rows.len() - i,
        {
            let row = &self.rows[i];
            let passed = match &query.ids {
                Some(ids) => has_text(ids, row.id()),
                None => true,
            };
            let admitted = passed && query.filter.test(row);
            proof {
                assert(self@.take(i as int + 1) =~= self@.take(i as int).push(self@[i as int]));
                self@.take(i as int).lemma_filter_push(self@[i as int], wanted);
                assert(admitted == wanted(self@[i as int]));
            }
            if admitted {
                met.push(row.duplicate());
                assert(views(met@) =~= self@.take(i as int).filter(wanted).push(self@[i as int]));
            }
            i += 1;
        }
        assert(self@.take(self.rows.len() as int) =~= self@);
        let from: usize = match query.offset {
            Some(n) => if (n as u64) < (met.len() as u64) {
                n as usize
            } else {
                met.len()
            },
            None => 0,
        };
        let left: usize = met.len() - from;
        let count: usize = match query.limit {
            Some(n) => if (n as u64) < (left as u64) {
                n as usize
            } else {
                left
            },
            None => left,
        };
        let mut found: Vec<E> = Vec::new();
        let mut k: usize = 0;
        while k < count
            invariant
                k <= count,
                from + count <= met.len(),
                found.len() == k,
                forall|j: int| 0 <= j < k ==> found[j]@ == met[from + j]@,
            decreases count - k,
        {
            found.push(met[from + k].duplicate());
            k += 1;
        }
        assert(views(found@) =~= window(views(met@), query.offset, query.limit));
        Ok(found)
    }

    /// Inserts a row. The rows that come back are the row as it is stored.
    pub fn insert<D: Draft<E>>(&mut self, draft: D) -> (inserted: Result<Vec<E>, StoreError>)
        requires
            old(self).wf(),
        ensures
            final(self).wf(),
            final(self)@ == rows_after_insert::<E>(old(self)@, draft.row()),
            rows_view(inserted) == insert_returns::<E>(old(self)@, draft.row()),
    {
        let row = draft.into_row();
        match self.locate(row.id()) {
            Some(_) => Err(
                StoreError::other("duplicate key value violates unique constraint".to_owned()),
            ),
            None => {
                let mut inserted: Vec<E> = Vec::new();
                inserted.push(row.duplicate());
                self.rows.push(row);
                proof {
                    assert(self@ =~= old(self)@.push(row@));
                    assert(views(inserted@) =~= seq![row@]);
                    assert forall|i: int, j: int| 0 <= i < j < self@.len() implies E::key(
                        #[trigger] self@[i],
                    ) != E::key(#[trigger] self@[j]) by {
                        if j == self@.len() - 1 {
                            assert(self@[i] == old(self)@[i]);
                        } else {
                            assert(self@[i] == old(self)@[i]);
                            assert(self@[j] == old(self)@[j]);
                        }
                    }
                }
                Ok(inserted)
            },
        }
    }

    /// Updates the row with the key `id`. The rows that come back are that
    /// row as it is after the update, or none.
    pub fn update<C: Changes<E>>(&mut self, id: &String, changes: &C) -> (updated: Result<
        Vec<E>,
        StoreError,
    >)
        requires
            old(self).wf(),
        ensures
            final(self).wf(),
            final(self)@ == rows_after_update::<E, C>(old(self)@, id@, *changes),
            rows_view(updated) == Ok::<Seq<E::V>, StoreErrorView>(
                update_returns::<E, C>(old(self)@, id@, *changes),
            ),
    {
        let mut updated: Vec<E> = Vec::new();
        match self.locate(id) {
            Some(at) => {
                let changed = changes.apply(&self.rows[at]);
                updated.push(changed.duplicate());
                self.rows.set(at, changed);
                proof {
                    changes.keeps_key(old(self)@[at as int]);
                    assert(self@ =~= old(self)@.update(at as int, changed@));
                    assert(views(updated@) =~= seq![changed@]);
                    assert forall|i: int, j: int| 0 <= i < j < self@.len() implies E::key(
                        #[trigger] self@[i],
                    ) != E::key(#[trigger] self@[j]) by {
                        assert(E::key(self@[i]) == E::key(old(self)@[i]));
                        assert(E::key(self@[j]) == E::key(old(self)@[j]));
                    }
                }
            },
            None => {
                assert(views(updated@) =~= Seq::<E::V>::empty());
            },
        }
        Ok(updated)
    }

    /// Deletes the row with the key `id`. The rows that come back are that
    /// row as it was, or none.
    pub fn delete(&mut self, id: &String) -> (deleted: Result<Vec<E>, StoreError>)
        requires
            old(self).wf(),
        ensures
            final(self).wf(),
            final(self)@ == rows_after_delete::<E>(old(self)@, id@),
            rows_view(deleted) == Ok::<Seq<E::V>, StoreErrorView>(lookup::<E>(old(self)@, id@)),
    {
        let mut deleted: Vec<E> = Vec::new();
        match self.locate(id) {
            Some(at) => {
                let row = self.rows.remove(at);
                proof {
                    assert(self@ =~= old(self)@.remove(at as int));
                    assert forall|i: int, j: int| 0 <= i < j < self@.len() implies E::key(
                        #[trigger] self@[i],
                    ) != E::key(#[trigger] self@[j]) by {
                        let a = if i < at { i } else { i + 1 };
                        let b = if j < at { j } else { j + 1 };
                        assert(self@[i] == old(self)@[a]);
                        assert(self@[j] == old(self)@[b]);
                    }
                }
                deleted.push(row);
                assert(views(deleted@) =~= lookup::<E>(old(self)@, id@));
            },
            None => {
                assert(views(deleted@) =~= lookup::<E>(old(self)@, id@));
            },
        }
        Ok(deleted)
    }
}

} // verus!
