//! The registry of tracked paths: an append-only list of entries, read through
//! a cursor that a scan leaves at the end.
use vstd::prelude::*;

use crate::bytes::{copy_bytes, same_bytes};
use crate::lines::{line_for, line_of, lines_of, parse_lines, views};

verus! {

/// Why an insertion was refused.
#[derive(Debug, Clone, Copy, PartialEq, Eq, Structural)]
pub enum StoreError {
    /// The path is not present on the filesystem.
    NotExists,
    /// An entry already equals the path.
    Duplicate,
}

/// The refusal an insertion meets, if any.
pub open spec fn insert_error(entries: Seq<Seq<u8>>, p: Seq<u8>, exists: bool) -> Option<StoreError> {
    if !exists {
        Some(StoreError::NotExists)
    } else if entries.contains(p) {
        Some(StoreError::Duplicate)
    } else {
        None
    }
}

/// The entries after an insertion: one more on success, the same otherwise.
pub open spec fn after_insert(entries: Seq<Seq<u8>>, p: Seq<u8>, exists: bool) -> Seq<Seq<u8>> {
    if insert_error(entries, p, exists) is None {
        entries.push(p)
    } else {
        entries
    }
}

/// Whether an entry at or after `cursor` equals `p`.
pub open spec fn found_from(entries: Seq<Seq<u8>>, cursor: int, p: Seq<u8>) -> bool {
    exists|i: int| cursor <= i < entries.len() && entries[i] == p
}

/// The entries after inserting each of `ps` in turn, all of them as existing paths.
pub open spec fn insert_all(entries: Seq<Seq<u8>>, ps: Seq<Seq<u8>>) -> Seq<Seq<u8>>
    decreases ps.len(),
{
    if ps.len() == 0 {
        entries
    } else {
        after_insert(insert_all(entries, ps.drop_last()), ps.last(), true)
    }
}

/// The registry: its entries in the order they were recorded, and the read
/// cursor, counted in entries.
pub struct Store {
    entries: Vec<Vec<u8>>,
    cursor: usize,
}

impl Store {
    /// The recorded entries.
    pub closed spec fn entries(&self) -> Seq<Seq<u8>> {
        views(self.entries@)
    }

    /// The index of the next entry that the cursor will read.
    pub closed spec fn cursor(&self) -> nat {
        self.cursor as nat
    }

    /// The cursor stands within the entries.
    pub closed spec fn wf(&self) -> bool {
        self.cursor <= self.entries@.len()
    }

    /// Opens a registry over the current contents of its backing file, with
    /// the cursor at the start.
    pub fn new(contents: &[u8]) -> (r: Store)
        ensures
            r.wf(),
            r.entries() == lines_of(contents@),
            r.cursor() == 0,
    {
        Store { entries: parse_lines(contents), cursor: 0 }
    }

    /// The number of entries.
    pub fn len(&self) -> (r: usize)
        ensures
            r == self.entries().len(),
    {
        self.entries.len()
    }

    /// Moves the cursor back to the first entry.
    pub fn rewind(&mut self)
        ensures
            final(self).wf(),
            final(self).entries() == old(self).entries(),
            final(self).cursor() == 0,
    {
        self.cursor = 0;
    }

    /// Records `p`, which `exists` says is present on the filesystem, and
    /// returns the bytes to append to the backing file. A missing path and a
    /// path equal to an entry are refused and change nothing. The cursor stays.
    pub fn insert(&mut self, p: &[u8], exists: bool) -> (r: Result<Vec<u8>, StoreError>)
        requires
            old(self).wf(),
        ensures
            final(self).wf(),
            final(self).entries() == after_insert(old(self).entries(), p@, exists),
            final(self).cursor() == old(self).cursor(),
            match r {
                Ok(l) => insert_error(old(self).entries(), p@, exists) is None && l@ == line_of(p@),
                Err(e) => insert_error(old(self).entries(), p@, exists) == Some(e),
            },
    {
        if !exists {
            return Err(StoreError::NotExists);
        }
        match first_match(&self.entries, 0, p) {
            Some(k) => {
                assert(views(self.entries@)[k as int] == p@);
                return Err(StoreError::Duplicate);
            },
            None => {},
        }
        assert(!self.entries().contains(p@));
        let ghost before = self.entries@;
        self.entries.push(copy_bytes(p));
        assert(self.entries() =~= views(before).push(p@));
        Ok(line_for(p))
    }

    /// Rewinds, then reads every entry, leaving the cursor at the end.
    pub fn paths(&mut self) -> (r: Vec<Vec<u8>>)
        requires
            old(self).wf(),
        ensures
            final(self).wf(),
            views(r@) == old(self).entries(),
            final(self).entries() == old(self).entries(),
            final(self).cursor() == old(self).entries().len(),
    {
        self.cursor = 0;
        let mut r: Vec<Vec<u8>> = Vec::new();
        while self.cursor < self.entries.len()
            invariant
                self.cursor <= self.entries@.len(),
                self.entries@ == old(self).entries@,
                views(r@) == self.entries().take(self.cursor as int),
            decreases self.entries@.len() - self.cursor,
        {
            let ghost before = r@;
            r.push(copy_bytes(self.entries[self.cursor].as_slice()));
            self.cursor += 1;
            assert(views(r@) =~= views(before).push(self.entries()[self.cursor - 1]));
            assert(views(r@) =~= self.entries().take(self.cursor as int));
        }
        assert(self.entries().take(self.cursor as int) =~= self.entries());
        r
    }

    /// Reads entries from the cursor until one equals `p`. On a match the
    /// cursor stops just after it; otherwise it ends at the last entry.
    pub fn contains(&mut self, p: &[u8]) -> (r: bool)
        requires
            old(self).wf(),
        ensures
            final(self).wf(),
            final(self).entries() == old(self).entries(),
            r == found_from(old(self).entries(), old(self).cursor() as int, p@),
            r ==> {
                &&& old(self).cursor() < final(self).cursor()
                &&& final(self).entries()[final(self).cursor() - 1] == p@
                &&& !found_from(old(self).entries().take(final(self).cursor() - 1), old(self).cursor() as int, p@)
            },
            !r ==> final(self).cursor() == old(self).entries().len(),
    {
        let n = self.entries.len();
        match first_match(&self.entries, self.cursor, p) {
            Some(k) => {
                assert(k < n);
                let ghost start = self.cursor as int;
                self.cursor = k + 1;
                let ghost seen = self.entries().take(k as int);
                assert(forall|j: int| start <= j < k ==> seen[j] == self.entries()[j]);
                true
            },
            None => {
                self.cursor = self.entries.len();
                false
            },
        }
    }
}

/// The first index at or after `from` whose entry equals `p`.
fn first_match(entries: &Vec<Vec<u8>>, from: usize, p: &[u8]) -> (r: Option<usize>)
    requires
        from <= entries@.len(),
    ensures
        match r {
            Some(k) => {
                &&& from <= k < entries@.len()
                &&& views(entries@)[k as int] == p@
                &&& forall|j: int| from <= j < k ==> views(entries@)[j] != p@
            },
            None => forall|j: int| from <= j < entries@.len() ==> views(entries@)[j] != p@,
        },
{
    let mut i: usize = from;
    while i < entries.len()
        invariant
            from <= i <= entries@.len(),
            forall|j: int| from <= j < i ==> views(entries@)[j] != p@,
        decreases entries@.len() - i,
    {
        if same_bytes(entries[i].as_slice(), p) {
            return Some(i);
        }
        i += 1;
    }
    None
}

/// Inserting an existing path that is not yet recorded succeeds, and inserting
/// it again is refused as a duplicate: the registry grows by one entry, not two.
pub proof fn lemma_insert_twice(entries: Seq<Seq<u8>>, p: Seq<u8>)
    requires
        !entries.contains(p),
    ensures
        insert_error(entries, p, true) is None,
        insert_error(after_insert(entries, p, true), p, true) == Some(StoreError::Duplicate),
        after_insert(after_insert(entries, p, true), p, true).len() == entries.len() + 1,
{
    assert(entries.push(p).last() == p);
    assert(entries.push(p).contains(p));
}

/// Inserting a path that is not on the filesystem is refused and leaves the
/// entries unchanged.
pub proof fn lemma_insert_missing(entries: Seq<Seq<u8>>, p: Seq<u8>)
    ensures
        insert_error(entries, p, false) == Some(StoreError::NotExists),
        after_insert(entries, p, false) == entries,
{
}

/// Inserting distinct existing paths into an empty registry succeeds each
/// time and leaves exactly those paths, in insertion order, which is what a
/// full scan then reads.
pub proof fn lemma_inserts_then_scan(ps: Seq<Seq<u8>>)
    requires
        ps.no_duplicates(),
    ensures
        insert_all(seq![], ps) == ps,
        forall|i: int| 0 <= i < ps.len() ==> insert_error(insert_all(seq![], ps.take(i)), #[trigger] ps[i], true) is None,
    decreases ps.len(),
{
    if ps.len() > 0 {
        let front = ps.drop_last();
        assert(front.no_duplicates());
        lemma_inserts_then_scan(front);
        assert(!front.contains(ps.last()));
        assert(front.push(ps.last()) =~= ps);
        assert forall|i: int| 0 <= i < ps.len() implies insert_error(insert_all(seq![], ps.take(i)), #[trigger] ps[i], true) is None by {
            if i < ps.len() - 1 {
                assert(ps.take(i) =~= front.take(i));
                assert(front[i] == ps[i]);
            } else {
                assert(ps.take(i) =~= front);
            }
        }
    }
}

/// Right after a full scan the cursor is at the end, so no entry is found
/// from there, whatever the registry holds.
pub proof fn lemma_contains_after_scan(entries: Seq<Seq<u8>>, p: Seq<u8>)
    ensures
        !found_from(entries, entries.len() as int, p),
{
}

} // verus!
