//! The metadata index: a durable, ordered mapping from identifiers to file
//! records.
//!
//! The index assigns identifiers strictly increasing and never reused, keeps
//! one record per successful ingest, and serves listings ordered by creation
//! time descending with ties broken by identifier descending.

use vstd::prelude::*;

use crate::errors::AppError;
use crate::record::FileRecord;

verus! {

/// The listing order: `a` comes strictly before `b` when `a` was created
/// earlier, or at the same time with a smaller identifier.  Listings show
/// records in the reverse of this order (newest first).
pub open spec fn key_lt(a: FileRecord, b: FileRecord) -> bool {
    a.created_at < b.created_at || (a.created_at == b.created_at && a.id < b.id)
}

/// The records as a listing shows them: newest first, that is, the stored
/// (ascending) order reversed.
pub open spec fn listing(s: Seq<FileRecord>) -> Seq<FileRecord> {
    Seq::new(s.len(), |i: int| s[s.len() - 1 - i])
}

/// The window of the listing that one zero-based page shows: at most `size`
/// records starting at offset `page * size`; an out-of-range page is empty.
pub open spec fn page_slice(s: Seq<FileRecord>, page: int, size: int) -> Seq<FileRecord> {
    let full = listing(s);
    let lo = if page * size <= full.len() {
        page * size
    } else {
        full.len() as int
    };
    let hi = if page * size + size <= full.len() {
        page * size + size
    } else {
        full.len() as int
    };
    full.subrange(lo, hi)
}

/// The metadata index.  Records are stored in ascending `key_lt` order, so a
/// listing is the stored sequence read backwards.
pub struct Database {
    records: Vec<FileRecord>,
    next_id: u64,
}

impl View for Database {
    type V = Seq<FileRecord>;

    closed spec fn view(&self) -> Seq<FileRecord> {
        self.records@
    }
}

impl Database {
    /// The identifier the next inserted record will receive.
    pub closed spec fn spec_next_id(self) -> u64 {
        self.next_id
    }

    /// The index invariant: identifiers are positive, below the next free
    /// identifier, and the stored order is strictly ascending by
    /// `(created_at, id)` — so identifiers are unique and listings are
    /// well-defined.
    pub open spec fn wf(self) -> bool {
        &&& 1 <= self.spec_next_id()
        &&& (forall|i: int|
            0 <= i < self@.len() ==> 1 <= #[trigger] self@[i].id < self.spec_next_id())
        &&& (forall|i: int, j: int|
            #![trigger self@[i], self@[j]]
            0 <= i < j < self@.len() ==> key_lt(self@[i], self@[j]))
        &&& (forall|i: int, j: int|
            #![trigger self@[i].id, self@[j].id]
            0 <= i < j < self@.len() ==> self@[i].id != self@[j].id)
    }

    /// A fresh, empty index; the first record will get identifier 1.
    pub fn new() -> (r: Self)
        ensures
            r.wf(),
            r@ == Seq::<FileRecord>::empty(),
            r.spec_next_id() == 1,
    {
        Database { records: Vec::new(), next_id: 1 }
    }

    /// How many records the index holds.
    pub fn len(&self) -> (r: usize)
        ensures
            r == self@.len(),
    {
        self.records.len()
    }

    /// The identifier the next successful insert will assign.
    pub fn peek_next_id(&self) -> (r: u64)
        ensures
            r == self.spec_next_id(),
    {
        self.next_id
    }

    /// Appends a new record for a fully ingested file.  The index assigns the
    /// identifier — strictly greater than every identifier it ever assigned —
    /// and stamps the record with the supplied creation time.  The stored
    /// order (and so the listing order) is preserved whatever `now` is.
    pub fn add_file(&mut self, full_path: String, thumb_path: String, mime: &str, now: u64) -> (r:
        FileRecord)
        requires
            old(self).wf(),
            old(self).spec_next_id() < u64::MAX,
        ensures
            final(self).wf(),
            r.id == old(self).spec_next_id(),
            final(self).spec_next_id() == old(self).spec_next_id() + 1,
            r.mime@ == mime@,
            r.full_path == full_path,
            r.thumb_path == thumb_path,
            r.created_at == now,
            forall|i: int| 0 <= i < old(self)@.len() ==> #[trigger] old(self)@[i].id < r.id,
            exists|p: int|
                0 <= p <= old(self)@.len() && final(self)@ == #[trigger] old(self)@.insert(p, r),
            final(self)@.contains(r),
            forall|r0: FileRecord| #[trigger] old(self)@.contains(r0) ==> final(self)@.contains(r0),
    {
        let ghost s = self.records@;
        let mut p: usize = 0;
        while p < self.records.len() && self.records[p].created_at <= now
            invariant
                self.records@ == s,
                0 <= p <= s.len(),
                forall|i: int| 0 <= i < p ==> #[trigger] s[i].created_at <= now,
            decreases s.len() - p,
        {
            p += 1;
        }
        let rec = FileRecord {
            id: self.next_id,
            mime: mime.to_owned(),
            full_path,
            thumb_path,
            created_at: now,
        };
        let result = rec.duplicate();
        self.records.insert(p, rec);
        self.next_id = self.next_id + 1;
        proof {
            let t = self.records@;
            assert forall|i: int, j: int|
                #![trigger t[i], t[j]]
                0 <= i < j < t.len() implies key_lt(t[i], t[j]) by {
                if j < p {
                    assert(t[i] == s[i] && t[j] == s[j]);
                } else if j == p {
                    assert(t[j] == rec);
                    assert(t[i] == s[i]);
                    assert(s[i].created_at <= now);
                } else {
                    assert(t[j] == s[j - 1]);
                    if i < p {
                        assert(t[i] == s[i]);
                        if j - 1 == p as int - 1 && i == p as int - 1 {
                        }
                        if j - 1 >= p {
                            assert(s[p as int].created_at > now);
                            if p < j - 1 {
                                assert(key_lt(s[p as int], s[j - 1]));
                            }
                            assert(s[j - 1].created_at > now);
                        }
                    } else if i == p {
                        assert(t[i] == rec);
                        assert(s[p as int].created_at > now);
                        if p < j - 1 {
                            assert(key_lt(s[p as int], s[j - 1]));
                        }
                        assert(s[j - 1].created_at > now);
                    } else {
                        assert(t[i] == s[i - 1]);
                        assert(key_lt(s[i - 1], s[j - 1]));
                    }
                }
            }
            assert forall|i: int| 0 <= i < t.len() implies 1 <= #[trigger] t[i].id
                < self.next_id by {
                if i < p {
                    assert(t[i] == s[i]);
                } else if i > p {
                    assert(t[i] == s[i - 1]);
                }
            }
            assert forall|i: int, j: int|
                #![trigger t[i].id, t[j].id]
                0 <= i < j < t.len() implies t[i].id != t[j].id by {
                if j < p {
                    assert(t[i] == s[i] && t[j] == s[j]);
                } else if j == p {
                    assert(t[i] == s[i]);
                } else {
                    assert(t[j] == s[j - 1]);
                    if i < p {
                        assert(t[i] == s[i]);
                    } else if i == p {
                        assert(t[i] == rec);
                    } else {
                        assert(t[i] == s[i - 1]);
                    }
                }
            }
            assert(t[p as int] == rec);
            assert(result == rec);
            assert(self.records@ == old(self)@.insert(p as int, result));
            assert(self.records@[p as int] == result);
            assert(self.records@.contains(result));
            assert forall|r0: FileRecord| #[trigger] s.contains(r0) implies t.contains(r0) by {
                let i = choose|i: int| 0 <= i < s.len() && s[i] == r0;
                if i < p {
                    assert(t[i] == r0);
                } else {
                    assert(t[i + 1] == r0);
                }
            }
        }
        result
    }

    /// Point lookup: returns the record carrying `id`, or `NotFound` when the
    /// index holds none.
    pub fn get_file(&self, id: u64) -> (r: Result<FileRecord, AppError>)
        ensures
            r is Ok <==> exists|i: int| 0 <= i < self@.len() && #[trigger] self@[i].id == id,
            r is Ok ==> exists|i: int|
                0 <= i < self@.len() && #[trigger] self@[i].id == id && r->Ok_0 == self@[i],
            r is Err ==> r->Err_0 == AppError::NotFound,
    {
        let n = self.records.len();
        let mut i: usize = 0;
        while i < n
            invariant
                n == self@.len(),
                0 <= i <= n,
                forall|k: int| 0 <= k < i ==> #[trigger] self@[k].id != id,
            decreases n - i,
        {
            if self.records[i].id == id {
                return Ok(self.records[i].duplicate());
            }
            i += 1;
        }
        Err(AppError::NotFound)
    }

    /// Reverse-chronological paginated scan, zero-based.  Fails with
    /// `InvalidArgument` exactly when `size` is zero; an out-of-range page is
    /// an empty listing, not an error.  Never returns more than `size`
    /// records.
    pub fn get_files(&self, page: u16, size: u16) -> (r: Result<Vec<FileRecord>, AppError>)
        ensures
            r is Err <==> size == 0,
            r is Err ==> r->Err_0 == AppError::InvalidArgument,
            r is Ok ==> r->Ok_0@ == page_slice(self@, page as int, size as int),
            r is Ok ==> r->Ok_0@.len() <= size,
    {
        if size == 0 {
            return Err(AppError::InvalidArgument);
        }
        proof {
            assert((page as int) * (size as int) <= 65535int * 65535int) by (nonlinear_arith)
                requires
                    page <= 65535,
                    size <= 65535,
            ;
        }
        let offset: usize = (page as usize) * (size as usize);
        let len = self.records.len();
        if offset >= len {
            let empty: Vec<FileRecord> = Vec::new();
            proof {
                assert(empty@ =~= page_slice(self@, page as int, size as int));
            }
            return Ok(empty);
        }
        let remaining = len - offset;
        let count = if (size as usize) < remaining {
            size as usize
        } else {
            remaining
        };
        let mut out: Vec<FileRecord> = Vec::new();
        let mut i: usize = 0;
        while i < count
            invariant
                len == self@.len(),
                offset + count <= len,
                count <= size,
                0 <= i <= count,
                out@.len() == i,
                forall|k: int| 0 <= k < i ==> #[trigger] out@[k] == self@[len - 1 - offset - k],
            decreases count - i,
        {
            out.push(self.records[len - 1 - offset - i].duplicate());
            i += 1;
        }
        proof {
            assert(out@ =~= page_slice(self@, page as int, size as int));
        }
        Ok(out)
    }
}

/// Pages 0 through `n - 1` of one size, concatenated in page order.
pub open spec fn pages_concat(s: Seq<FileRecord>, size: int, n: int) -> Seq<FileRecord>
    decreases n,
{
    if n <= 0 {
        Seq::<FileRecord>::empty()
    } else {
        pages_concat(s, size, n - 1) + page_slice(s, n - 1, size)
    }
}

/// The first `n` pages, read in order, form exactly the first `n * size`
/// entries of the full listing (all of it, once `n * size` reaches the
/// record count).
pub proof fn lemma_pages_concat_is_prefix(s: Seq<FileRecord>, size: int, n: int)
    requires
        size >= 1,
        n >= 0,
    ensures
        pages_concat(s, size, n) == listing(s).take(
            if n * size <= s.len() {
                n * size
            } else {
                s.len() as int
            },
        ),
    decreases n,
{
    if n == 0 {
        assert(pages_concat(s, size, 0) =~= listing(s).take(0));
    } else {
        lemma_pages_concat_is_prefix(s, size, n - 1);
        assert((n - 1) * size == n * size - size) by (nonlinear_arith);
        assert((n - 1) * size >= 0) by (nonlinear_arith)
            requires
                n >= 1,
                size >= 1,
        ;
        let prev = if (n - 1) * size <= s.len() {
            (n - 1) * size
        } else {
            s.len() as int
        };
        let cur = if n * size <= s.len() {
            n * size
        } else {
            s.len() as int
        };
        assert(pages_concat(s, size, n) =~= listing(s).take(cur));
        assert(pages_concat(s, size, n) == listing(s).take(cur));
    }
}

/// Paging exhausts the index without loss or duplication: once enough pages
/// of one size have been read to cover every record, their concatenation is
/// the full listing, newest first.
pub proof fn lemma_pages_cover_listing(s: Seq<FileRecord>, size: int, n: int)
    requires
        size >= 1,
        n >= 0,
        n * size >= s.len(),
    ensures
        pages_concat(s, size, n) == listing(s),
{
    lemma_pages_concat_is_prefix(s, size, n);
    assert(listing(s).take(s.len() as int) =~= listing(s));
}

/// One page never shows more than `size` records.
pub proof fn lemma_page_within_size(s: Seq<FileRecord>, page: int, size: int)
    requires
        page >= 0,
        size >= 0,
    ensures
        page_slice(s, page, size).len() <= size,
{
}

/// A listing of a well-formed index is ordered newest first: strictly
/// descending by creation time, ties broken by identifier descending.
pub proof fn lemma_listing_sorted(db: Database)
    requires
        db.wf(),
    ensures
        forall|i: int, j: int|
            #![trigger listing(db@)[i], listing(db@)[j]]
            0 <= i < j < listing(db@).len() ==> key_lt(listing(db@)[j], listing(db@)[i]),
{
    let full = listing(db@);
    let n = db@.len() as int;
    assert forall|i: int, j: int|
        #![trigger full[i], full[j]]
        0 <= i < j < full.len() implies key_lt(full[j], full[i]) by {
        assert(full[i] == db@[n - 1 - i]);
        assert(full[j] == db@[n - 1 - j]);
        assert(key_lt(db@[n - 1 - j], db@[n - 1 - i]));
    }
}

/// A listing shows exactly the records the index holds — committed records
/// appear in it, and nothing else does.
pub proof fn lemma_listing_preserves_records(s: Seq<FileRecord>)
    ensures
        forall|r: FileRecord| listing(s).contains(r) <==> #[trigger] s.contains(r),
{
    let n = s.len() as int;
    assert forall|r: FileRecord| #[trigger] s.contains(r) implies listing(s).contains(r) by {
        let i = choose|i: int| 0 <= i < s.len() && s[i] == r;
        assert(listing(s)[n - 1 - i] == r);
    }
    assert forall|r: FileRecord| listing(s).contains(r) implies #[trigger] s.contains(r) by {
        let i = choose|i: int| 0 <= i < listing(s).len() && listing(s)[i] == r;
        assert(s[n - 1 - i] == r);
    }
}

/// No two records of a well-formed index share an identifier.
pub proof fn lemma_ids_unique(db: Database)
    requires
        db.wf(),
    ensures
        forall|i: int, j: int|
            #![trigger db@[i].id, db@[j].id]
            0 <= i < db@.len() && 0 <= j < db@.len() && i != j ==> db@[i].id != db@[j].id,
{
}

/// A record just committed is retrievable: inserting it anywhere in the
/// stored order leaves it present in the new state, under its identifier —
/// which is what a later point lookup of that identifier demands to
/// succeed, with that very record among its possible answers.
pub proof fn lemma_inserted_record_present(
    s: Seq<FileRecord>,
    t: Seq<FileRecord>,
    p: int,
    r: FileRecord,
)
    requires
        0 <= p <= s.len(),
        t == s.insert(p, r),
    ensures
        0 <= p < t.len(),
        t[p] == r,
        exists|i: int| 0 <= i < t.len() && #[trigger] t[i].id == r.id && t[i] == r,
{
    assert(t[p].id == r.id);
}

} // verus!
