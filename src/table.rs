//! A table of records keyed by a unique identifier, for the catalogues that
//! are plain persistence. A record may also clash with another one on a
//! field that must be unique (a name, an e-mail address); the table refuses
//! such a record.

use vstd::prelude::*;
use crate::error::RepoError;
use crate::keys::{fresh_key, has_key, key_pos, lemma_key_pos, lemma_unique_push, lemma_unique_remove, unique_keys};

verus! {

/// A record that a table can hold.
pub trait Record: Sized {
    /// A selection of records by their fields.
    type Query;

    /// The record is selected by the query.
    spec fn matches(&self, q: &Self::Query) -> bool;

    fn matches_query(&self, q: &Self::Query) -> (r: bool)
        ensures
            r == self.matches(q),
    ;

    /// The record's identifier.
    spec fn key(&self) -> u128;

    /// The two records may not both be stored, apart from their identifiers.
    spec fn clashes(&self, other: &Self) -> bool;

    fn id(&self) -> (r: u128)
        ensures
            r == self.key(),
    ;

    fn clashes_with(&self, other: &Self) -> (r: bool)
        ensures
            r == self.clashes(other),
    ;

    fn copy(&self) -> (r: Self)
        ensures
            r == *self,
    ;
}

/// The identifiers of the records, in table order.
pub open spec fn record_keys<T: Record>(s: Seq<T>) -> Seq<u128> {
    s.map_values(|r: T| r.key())
}

/// Some record clashes with `row`.
pub open spec fn clashes_any<T: Record>(s: Seq<T>, row: T) -> bool {
    exists|i: int| 0 <= i < s.len() && row.clashes(&s[i])
}

/// The record with this identifier, if any.
pub open spec fn record_by_key<T: Record>(s: Seq<T>, id: u128) -> Option<T> {
    if has_key(record_keys(s), id) {
        Some(s[key_pos(record_keys(s), id)])
    } else {
        None
    }
}

/// The table and the result after inserting `row`: refused where its
/// identifier is taken or it clashes with a stored record.
pub open spec fn record_insertion<T: Record>(s: Seq<T>, row: T) -> (Seq<T>, Result<T, RepoError>) {
    if has_key(record_keys(s), row.key()) || clashes_any(s, row) {
        (s, Err(RepoError::Conflict))
    } else {
        (s.push(row), Ok(row))
    }
}

/// The table and the result after replacing the record with `row`'s
/// identifier: refused where there is none, or where `row` clashes with
/// another stored record.
pub open spec fn record_replacement<T: Record>(s: Seq<T>, row: T) -> (Seq<T>, Result<T, RepoError>) {
    if !has_key(record_keys(s), row.key()) {
        (s, Err(RepoError::NotFound))
    } else if exists|i: int|
        0 <= i < s.len() && i != key_pos(record_keys(s), row.key()) && row.clashes(&s[i]) {
        (s, Err(RepoError::Conflict))
    } else {
        (s.update(key_pos(record_keys(s), row.key()), row), Ok(row))
    }
}

/// The table and the result after removing the record `id`.
pub open spec fn record_removal<T: Record>(s: Seq<T>, id: u128) -> (Seq<T>, bool) {
    if has_key(record_keys(s), id) {
        (s.remove(key_pos(record_keys(s), id)), true)
    } else {
        (s, false)
    }
}

/// The records that the query selects, in table order.
pub open spec fn records_matching<T: Record>(s: Seq<T>, q: T::Query) -> Seq<T>
    decreases s.len(),
{
    if s.len() == 0 {
        Seq::empty()
    } else if s.last().matches(&q) {
        records_matching(s.drop_last(), q).push(s.last())
    } else {
        records_matching(s.drop_last(), q)
    }
}

/// Records held in memory, with unique identifiers.
pub struct Table<T> {
    rows: Vec<T>,
}

impl<T: Record> View for Table<T> {
    type V = Seq<T>;

    closed spec fn view(&self) -> Seq<T> {
        self.rows@
    }
}

impl<T: Record> Table<T> {
    pub open spec fn wf(&self) -> bool {
        unique_keys(record_keys(self@))
    }

    /// An empty table.
    pub fn new() -> (r: Self)
        ensures
            r.wf(),
            r@ == Seq::<T>::empty(),
    {
        let r = Table { rows: Vec::new() };
        assert(record_keys(r@) =~= Seq::<u128>::empty());
        r
    }

    /// The stored records, in table order.
    pub fn as_slice(&self) -> (r: &[T])
        ensures
            r@ == self@,
    {
        self.rows.as_slice()
    }

    fn position(&self, id: u128) -> (r: Option<usize>)
        requires
            self.wf(),
        ensures
            match r {
                Some(i) => i < self@.len() && has_key(record_keys(self@), id) && key_pos(
                    record_keys(self@),
                    id,
                ) == i,
                None => !has_key(record_keys(self@), id),
            },
    {
        let mut i: usize = 0;
        while i < self.rows.len()
            invariant
                i <= self@.len(),
                self.rows@ == self@,
                self.wf(),
                forall|j: int| 0 <= j < i ==> self@[j].key() != id,
            decreases self@.len() - i,
        {
            if self.rows[i].id() == id {
                proof {
                    lemma_key_pos(record_keys(self@), id, i as int);
                }
                return Some(i);
            }
            i += 1;
        }
        proof {
            assert forall|j: int| 0 <= j < record_keys(self@).len() implies record_keys(
                self@,
            )[j] != id by {
                assert(self@[j].key() != id);
            }
        }
        None
    }

    /// The first position other than `skip` whose record clashes with `row`.
    fn clash_position(&self, row: &T, skip: usize) -> (r: Option<usize>)
        ensures
            match r {
                Some(i) => i < self@.len() && i != skip && row.clashes(&self@[i as int]),
                None => forall|i: int| 0 <= i < self@.len() && i != skip ==> !row.clashes(&self@[i]),
            },
    {
        let mut i: usize = 0;
        while i < self.rows.len()
            invariant
                i <= self@.len(),
                self.rows@ == self@,
                forall|j: int| 0 <= j < i && j != skip ==> !row.clashes(&self@[j]),
            decreases self@.len() - i,
        {
            if i != skip && row.clashes_with(&self.rows[i]) {
                return Some(i);
            }
            i += 1;
        }
        None
    }

    /// All records, in table order.
    pub fn find_all(&self) -> (r: Vec<T>)
        ensures
            r@ == self@,
    {
        let mut out: Vec<T> = Vec::new();
        let mut i: usize = 0;
        while i < self.rows.len()
            invariant
                i <= self@.len(),
                self.rows@ == self@,
                out@ == self@.take(i as int),
            decreases self@.len() - i,
        {
            out.push(self.rows[i].copy());
            i += 1;
            assert(out@ =~= self@.take(i as int));
        }
        assert(self@.take(i as int) =~= self@);
        out
    }

    /// The records that the query selects, in table order.
    pub fn find_matching(&self, q: &T::Query) -> (r: Vec<T>)
        ensures
            r@ == records_matching(self@, *q),
    {
        let mut out: Vec<T> = Vec::new();
        let mut i: usize = 0;
        while i < self.rows.len()
            invariant
                i <= self@.len(),
                self.rows@ == self@,
                out@ == records_matching(self@.take(i as int), *q),
            decreases self@.len() - i,
        {
            assert(self@.take(i as int + 1).drop_last() =~= self@.take(i as int));
            if self.rows[i].matches_query(q) {
                out.push(self.rows[i].copy());
            }
            i += 1;
        }
        assert(self@.take(i as int) =~= self@);
        out
    }

    /// Whether the query selects some record.
    pub fn any_matching(&self, q: &T::Query) -> (r: bool)
        ensures
            r == (records_matching(self@, *q).len() > 0),
    {
        self.find_matching(q).len() > 0
    }

    /// An identifier that no stored record has: `candidate` where it is free,
    /// else the least free one.
    pub fn fresh_id(&self, candidate: u128) -> (r: u128)
        ensures
            !has_key(record_keys(self@), r),
    {
        let mut keys: Vec<u128> = Vec::new();
        let mut i: usize = 0;
        while i < self.rows.len()
            invariant
                i <= self@.len(),
                self.rows@ == self@,
                keys@ == record_keys(self@.take(i as int)),
            decreases self@.len() - i,
        {
            keys.push(self.rows[i].id());
            i += 1;
            assert(keys@ =~= record_keys(self@.take(i as int)));
        }
        assert(self@.take(i as int) =~= self@);
        fresh_key(&keys, candidate)
    }

    /// The record with this identifier.
    pub fn find_by_id(&self, id: u128) -> (r: Option<T>)
        requires
            self.wf(),
        ensures
            r == record_by_key(self@, id),
    {
        match self.position(id) {
            Some(i) => Some(self.rows[i].copy()),
            None => None,
        }
    }

    /// Stores `row`, unless its identifier is taken or it clashes.
    pub fn insert(&mut self, row: T) -> (r: Result<T, RepoError>)
        requires
            old(self).wf(),
        ensures
            final(self).wf(),
            (final(self)@, r) == record_insertion(old(self)@, row),
    {
        if self.position(row.id()).is_some() {
            return Err(RepoError::Conflict);
        }
        if self.clash_position(&row, self.rows.len()).is_some() {
            return Err(RepoError::Conflict);
        }
        let out = row.copy();
        let ghost k = row.key();
        self.rows.push(row);
        proof {
            assert(record_keys(self@) =~= record_keys(old(self)@).push(k));
            lemma_unique_push(record_keys(old(self)@), k);
        }
        Ok(out)
    }

    /// Replaces the record with `row`'s identifier by `row`.
    pub fn replace(&mut self, row: T) -> (r: Result<T, RepoError>)
        requires
            old(self).wf(),
        ensures
            final(self).wf(),
            (final(self)@, r) == record_replacement(old(self)@, row),
    {
        match self.position(row.id()) {
            None => Err(RepoError::NotFound),
            Some(i) => {
                if self.clash_position(&row, i).is_some() {
                    return Err(RepoError::Conflict);
                }
                let out = row.copy();
                self.rows.set(i, row);
                proof {
                    assert(record_keys(self@) =~= record_keys(old(self)@));
                }
                Ok(out)
            },
        }
    }

    /// Removes the record `id`; true where it existed.
    pub fn remove(&mut self, id: u128) -> (r: bool)
        requires
            old(self).wf(),
        ensures
            final(self).wf(),
            (final(self)@, r) == record_removal(old(self)@, id),
    {
        match self.position(id) {
            Some(i) => {
                self.rows.remove(i);
                proof {
                    assert(record_keys(self@) =~= record_keys(old(self)@).remove(i as int));
                    lemma_unique_remove(record_keys(old(self)@), i as int);
                }
                true
            },
            None => false,
        }
    }
}

} // verus!
