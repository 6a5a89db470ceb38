//! What the five entity types have in common: a record with a key, the
//! payload that stands for it in an outcome event, drafts of new records,
//! sparse changesets and search criteria.

use vstd::prelude::*;

verus! {

/// The model of an optional string.
pub open spec fn text(field: Option<String>) -> Option<Seq<char>> {
    match field {
        Some(s) => Some(s@),
        None => None,
    }
}

/// The models of a sequence of strings.
pub open spec fn texts(fields: Seq<String>) -> Seq<Seq<char>> {
    Seq::new(fields.len(), |i: int| fields[i]@)
}

/// The models of a sequence of values.
pub open spec fn views<T: View>(items: Seq<T>) -> Seq<T::V> {
    Seq::new(items.len(), |i: int| items[i]@)
}

/// Copies an optional string.
pub fn copy_text(field: &Option<String>) -> (copy: Option<String>)
    ensures
        text(copy) == text(*field),
{
    match field {
        Some(s) => Some(s.clone()),
        None => None,
    }
}

/// Copies a list of strings.
pub fn copy_texts(fields: &Vec<String>) -> (copy: Vec<String>)
    ensures
        texts(copy@) == texts(fields@),
{
    let mut copy: Vec<String> = Vec::new();
    let mut i: usize = 0;
    while i < fields.len()
        invariant
            i <= fields.len(),
            copy.len() == i,
            forall|j: int| 0 <= j < i ==> copy[j]@ == fields[j]@,
        decreases fields.len() - i,
    {
        copy.push(fields[i].clone());
        i += 1;
    }
    assert(texts(copy@) =~= texts(fields@));
    copy
}

/// Whether `wanted` is one of `fields`.
pub fn has_text(fields: &Vec<String>, wanted: &String) -> (found: bool)
    ensures
        found == texts(fields@).contains(wanted@),
{
    let mut i: usize = 0;
    while i < fields.len()
        invariant
            i <= fields.len(),
            forall|j: int| 0 <= j < i ==> fields[j]@ != wanted@,
        decreases fields.len() - i,
    {
        if fields[i] == *wanted {
            assert(texts(fields@)[i as int] == wanted@);
            return true;
        }
        i += 1;
    }
    false
}

/// The change that an update makes to a field that may hold no value. A
/// field that a request does not name is `Keep`; `Clear` asks for the field
/// to hold no value; `Replace` asks for it to hold the value given.
#[derive(Debug, PartialEq, Eq)]
pub enum Patch {
    Keep,
    Clear,
    Replace(String),
}

/// The model of a [`Patch`].
pub enum PatchView {
    Keep,
    Clear,
    Replace(Seq<char>),
}

impl View for Patch {
    type V = PatchView;

    open spec fn view(&self) -> PatchView {
        match self {
            Patch::Keep => PatchView::Keep,
            Patch::Clear => PatchView::Clear,
            Patch::Replace(s) => PatchView::Replace(s@),
        }
    }
}

/// What a field holds after a patch.
pub open spec fn patched(patch: PatchView, current: Option<Seq<char>>) -> Option<Seq<char>> {
    match patch {
        PatchView::Keep => current,
        PatchView::Clear => None,
        PatchView::Replace(s) => Some(s),
    }
}

/// The value that a patch sets, if it sets one.
pub open spec fn value_set(patch: PatchView) -> Option<Seq<char>> {
    match patch {
        PatchView::Replace(s) => Some(s),
        _ => None,
    }
}

impl Patch {
    /// A copy of the patch.
    pub fn duplicate(&self) -> (copy: Patch)
        ensures
            copy@ == self@,
    {
        match self {
            Patch::Keep => Patch::Keep,
            Patch::Clear => Patch::Clear,
            Patch::Replace(s) => Patch::Replace(s.clone()),
        }
    }

    /// What a field that holds `current` holds after the patch.
    pub fn apply(&self, current: &Option<String>) -> (after: Option<String>)
        ensures
            text(after) == patched(self@, text(*current)),
    {
        match self {
            Patch::Keep => copy_text(current),
            Patch::Clear => None,
            Patch::Replace(s) => Some(s.clone()),
        }
    }

    /// The value that the patch sets, if it sets one.
    pub fn value(&self) -> (value: Option<String>)
        ensures
            text(value) == value_set(self@),
    {
        match self {
            Patch::Replace(s) => Some(s.clone()),
            _ => None,
        }
    }

    /// Whether the patch leaves the field as it is.
    pub fn is_keep(&self) -> (keep: bool)
        ensures
            keep == (self@ is Keep),
    {
        match self {
            Patch::Keep => true,
            _ => false,
        }
    }
}

/// Whether a field meets an equality predicate: an absent predicate
/// constrains nothing.
pub open spec fn agrees(wanted: Option<Seq<char>>, actual: Seq<char>) -> bool {
    match wanted {
        Some(w) => w == actual,
        None => true,
    }
}

/// Tests a field against an equality predicate.
pub fn meets(wanted: &Option<String>, actual: &String) -> (met: bool)
    ensures
        met == agrees(text(*wanted), actual@),
{
    match wanted {
        Some(w) => *w == *actual,
        None => true,
    }
}

/// A stored record type. Its model `V` holds the record's fields as plain
/// values; `Partial` is the payload that stands for a record in an outcome
/// event, with every field optional.
pub trait Entity: View + Sized {
    type Partial: View;

    /// The id of a record.
    spec fn key(row: Self::V) -> Seq<char>;

    /// The payload that holds every field of a record.
    spec fn whole(row: Self::V) -> <Self::Partial as View>::V;

    /// The payload that holds an id and nothing else.
    spec fn bare(id: Seq<char>) -> <Self::Partial as View>::V;

    /// The text that tells a caller that no such record exists.
    spec fn missing_text() -> Seq<char>;

    /// The id of this record.
    fn id(&self) -> (id: &String)
        ensures
            id@ == Self::key(self@),
    ;

    /// A copy of this record.
    fn duplicate(&self) -> (copy: Self)
        ensures
            copy@ == self@,
    ;

    /// The payload that holds every field of this record.
    fn snapshot(&self) -> (partial: Self::Partial)
        ensures
            partial@ == Self::whole(self@),
    ;

    /// The payload that holds `id` and nothing else.
    fn placeholder(id: &String) -> (partial: Self::Partial)
        ensures
            partial@ == Self::bare(id@),
    ;

    /// The text that tells a caller that no such record exists.
    fn missing() -> (message: String)
        ensures
            message@ == Self::missing_text(),
    ;
}

/// A new record, id included, as it is handed to the store.
pub trait Draft<E: Entity>: Sized {
    /// The record that the draft describes.
    spec fn row(self) -> E::V;

    /// The record that the store holds once the draft is inserted.
    fn into_row(self) -> (row: E)
        ensures
            row@ == self.row(),
    ;
}

/// A sparse set of field updates: a field that it does not name stays as it
/// is, and the id never changes.
pub trait Changes<E: Entity>: Sized {
    /// The row that `row` becomes.
    spec fn applied(self, row: E::V) -> E::V;

    /// Whether the changeset names no field.
    spec fn is_empty(self) -> bool;

    /// Applies the changes to a copy of `row`.
    fn apply(&self, row: &E) -> (changed: E)
        ensures
            changed@ == self.applied(row@),
    ;

    /// Whether the changeset names no field.
    fn names_nothing(&self) -> (empty: bool)
        ensures
            empty == self.is_empty(),
    ;

    /// No changeset changes the id of a row.
    proof fn keeps_key(self, row: E::V)
        ensures
            E::key(self.applied(row)) == E::key(row),
    ;

    /// A changeset that names no field leaves a row as it is.
    proof fn empty_keeps_row(self, row: E::V)
        requires
            self.is_empty(),
        ensures
            self.applied(row) == row,
    ;
}

/// The predicates of a search beside the id filter. They combine
/// conjunctively, and one that is absent constrains nothing.
pub trait Criteria<E: Entity>: Sized {
    /// Whether `row` meets every predicate that is present.
    spec fn admits(self, row: E::V) -> bool;

    /// Whether no predicate is present.
    spec fn is_open(self) -> bool;

    /// Whether `row` meets every predicate that is present.
    fn test(&self, row: &E) -> (admitted: bool)
        ensures
            admitted == self.admits(row@),
    ;

    /// Criteria without a predicate admit every row.
    proof fn open_admits_all(self, row: E::V)
        requires
            self.is_open(),
        ensures
            self.admits(row),
    ;
}

} // verus!
