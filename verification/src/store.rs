//! The mapping store: short code to original URL, with unique codes and
//! identifiers that are never handed out twice.

use vstd::prelude::*;
use vstd::string::*;

verus! {

/// One stored association between a short code and the URL it stands for.
#[derive(Debug)]
pub struct UrlMapping {
    /// Identifier assigned by the store.
    pub id: u64,
    /// The lookup key.
    pub short_code: String,
    /// The URL as the caller supplied it.
    pub original_url: String,
    /// Creation time, in seconds since the epoch.
    pub created_at: i64,
}

/// What a mapping is, mathematically.
pub struct MappingView {
    pub id: int,
    pub short_code: Seq<char>,
    pub original_url: Seq<char>,
    pub created_at: int,
}

impl View for UrlMapping {
    type V = MappingView;

    open spec fn view(&self) -> MappingView {
        MappingView {
            id: self.id as int,
            short_code: self.short_code@,
            original_url: self.original_url@,
            created_at: self.created_at as int,
        }
    }
}

impl Clone for UrlMapping {
    fn clone(&self) -> (copy: Self)
        ensures
            copy@ == self@,
    {
        UrlMapping {
            id: self.id,
            short_code: self.short_code.clone(),
            original_url: self.original_url.clone(),
            created_at: self.created_at,
        }
    }
}

/// Why an insert was turned down.
#[derive(Clone, Copy, Debug, PartialEq, Eq, Structural)]
pub enum StoreError {
    /// The short code is already taken.
    DuplicateCode,
    /// The store cannot take another row.
    Unavailable,
}

/// What a store is, mathematically: its rows in insertion order and the
/// identifier that the next row will get.
pub struct StoreView {
    pub rows: Seq<MappingView>,
    pub next_id: int,
}

impl StoreView {
    /// Some row carries `code`.
    pub open spec fn contains_code(self, code: Seq<char>) -> bool {
        exists|i: int| 0 <= i < self.rows.len() && (#[trigger] self.rows[i]).short_code == code
    }

    /// The row that carries `code`, if there is one. The match is on the
    /// whole code, never on a part of it.
    pub open spec fn find(self, code: Seq<char>) -> Option<MappingView> {
        if self.contains_code(code) {
            Some(
                self.rows[choose|i: int|
                    0 <= i < self.rows.len() && (#[trigger] self.rows[i]).short_code == code],
            )
        } else {
            None
        }
    }

    /// No two rows share a short code.
    pub open spec fn unique_codes(self) -> bool {
        forall|i: int, j: int|
            0 <= i < j < self.rows.len() ==> (#[trigger] self.rows[i]).short_code != (
            #[trigger] self.rows[j]).short_code
    }

    /// Identifiers grow with insertion order and stay below `next_id`, so
    /// none is ever used twice.
    pub open spec fn fresh_ids(self) -> bool {
        &&& 1 <= self.next_id
        &&& forall|i: int| 0 <= i < self.rows.len() ==> 1 <= (#[trigger] self.rows[i]).id < self.next_id
        &&& forall|i: int, j: int|
            0 <= i < j < self.rows.len() ==> (#[trigger] self.rows[i]).id < (
            #[trigger] self.rows[j]).id
    }

    /// The store's invariant.
    pub open spec fn wf(self) -> bool {
        self.unique_codes() && self.fresh_ids()
    }

    /// The row that an insert into this store creates.
    pub open spec fn new_row(self, code: Seq<char>, url: Seq<char>, created_at: int) -> MappingView {
        MappingView { id: self.next_id, short_code: code, original_url: url, created_at }
    }

    /// The store after one more row has been written.
    pub open spec fn with_row(self, code: Seq<char>, url: Seq<char>, created_at: int) -> StoreView {
        StoreView {
            rows: self.rows.push(self.new_row(code, url, created_at)),
            next_id: self.next_id + 1,
        }
    }
}

/// In a store with unique codes, `find` returns the one row with the code.
pub proof fn lemma_find_row(store: StoreView, i: int)
    requires
        store.unique_codes(),
        0 <= i < store.rows.len(),
    ensures
        store.find(store.rows[i].short_code) == Some(store.rows[i]),
{
    let code = store.rows[i].short_code;
    assert(store.contains_code(code));
    let k = choose|k: int| 0 <= k < store.rows.len() && (#[trigger] store.rows[k]).short_code == code;
    assert(k == i) by {
        if k < i {
            assert(store.rows[k].short_code != store.rows[i].short_code);
        } else if i < k {
            assert(store.rows[i].short_code != store.rows[k].short_code);
        }
    }
}

/// Writing a row under an unused code keeps the invariant.
pub proof fn lemma_with_row_wf(store: StoreView, code: Seq<char>, url: Seq<char>, created_at: int)
    requires
        store.wf(),
        !store.contains_code(code),
    ensures
        store.with_row(code, url, created_at).wf(),
{
    let after = store.with_row(code, url, created_at);
    let n = store.rows.len() as int;
    assert forall|i: int, j: int| 0 <= i < j < after.rows.len() implies (#[trigger] after.rows[i]).short_code
        != (#[trigger] after.rows[j]).short_code && after.rows[i].id < after.rows[j].id by {
        assert(after.rows[i] == store.rows[i]);
        if j < n {
            assert(after.rows[j] == store.rows[j]);
        }
    }
    assert forall|i: int| 0 <= i < after.rows.len() implies 1 <= (#[trigger] after.rows[i]).id
        < after.next_id by {
        if i < n {
            assert(after.rows[i] == store.rows[i]);
        }
    }
}

/// An in-memory mapping store.
#[derive(Debug)]
pub struct MemoryStore {
    rows: Vec<UrlMapping>,
    next_id: u64,
}

impl View for MemoryStore {
    type V = StoreView;

    closed spec fn view(&self) -> StoreView {
        StoreView {
            rows: Seq::new(self.rows@.len(), |i: int| self.rows@[i]@),
            next_id: self.next_id as int,
        }
    }
}

impl MemoryStore {
    /// An empty store; the first row will get the identifier 1.
    pub fn new() -> (store: Self)
        ensures
            store@.wf(),
            store@.rows == Seq::<MappingView>::empty(),
            store@.next_id == 1,
    {
        MemoryStore::starting_at(1)
    }

    /// An empty store whose first row will get the identifier `first_id`.
    pub fn starting_at(first_id: u64) -> (store: Self)
        requires
            1 <= first_id,
        ensures
            store@.wf(),
            store@.rows == Seq::<MappingView>::empty(),
            store@.next_id == first_id,
    {
        let store = MemoryStore { rows: Vec::new(), next_id: first_id };
        assert(store@.rows =~= Seq::<MappingView>::empty());
        store
    }

    /// Number of rows.
    pub fn len(&self) -> (n: usize)
        ensures
            n == self@.rows.len(),
    {
        self.rows.len()
    }

    /// Index of the first row that carries `code`.
    fn position(&self, code: &str) -> (found: Option<usize>)
        ensures
            match found {
                Some(i) => i < self@.rows.len() && self@.rows[i as int].short_code == code@,
                None => !self@.contains_code(code@),
            },
    {
        let wanted = String::from_str(code);
        let mut i: usize = 0;
        while i < self.rows.len()
            invariant
                i <= self.rows.len(),
                wanted@ == code@,
                forall|k: int| 0 <= k < i ==> (#[trigger] self@.rows[k]).short_code != code@,
            decreases self.rows.len() - i,
        {
            if self.rows[i].short_code == wanted {
                return Some(i);
            }
            i += 1;
        }
        None
    }

    /// Looks a short code up. Read-only.
    pub fn lookup(&self, short_code: &str) -> (found: Option<UrlMapping>)
        requires
            self@.wf(),
        ensures
            match found {
                Some(m) => self@.find(short_code@) == Some(m@),
                None => self@.find(short_code@).is_none(),
            },
    {
        match self.position(short_code) {
            Some(i) => {
                proof {
                    lemma_find_row(self@, i as int);
                }
                Some(self.rows[i].clone())
            },
            None => None,
        }
    }

    /// Writes one new row, unless the code is taken or the identifiers have
    /// run out; in both of those cases the store is left as it was.
    pub fn insert(&mut self, short_code: &str, original_url: &str, created_at: i64) -> (res: Result<
        UrlMapping,
        StoreError,
    >)
        requires
            old(self)@.wf(),
        ensures
            final(self)@.wf(),
            match res {
                Ok(m) => {
                    &&& !old(self)@.contains_code(short_code@)
                    &&& old(self)@.next_id < u64::MAX
                    &&& final(self)@ == old(self)@.with_row(
                        short_code@,
                        original_url@,
                        created_at as int,
                    )
                    &&& m@ == old(self)@.new_row(short_code@, original_url@, created_at as int)
                },
                Err(StoreError::DuplicateCode) => {
                    &&& old(self)@.contains_code(short_code@)
                    &&& final(self)@ == old(self)@
                },
                Err(StoreError::Unavailable) => {
                    &&& !old(self)@.contains_code(short_code@)
                    &&& old(self)@.next_id == u64::MAX
                    &&& final(self)@ == old(self)@
                },
            },
    {
        if self.position(short_code).is_some() {
            return Err(StoreError::DuplicateCode);
        }
        if self.next_id == u64::MAX {
            return Err(StoreError::Unavailable);
        }
        let row = UrlMapping {
            id: self.next_id,
            short_code: String::from_str(short_code),
            original_url: String::from_str(original_url),
            created_at,
        };
        let copy = row.clone();
        self.rows.push(row);
        self.next_id = self.next_id + 1;
        proof {
            let before = old(self)@;
            lemma_with_row_wf(before, short_code@, original_url@, created_at as int);
            assert(self@.rows =~= before.with_row(
                short_code@,
                original_url@,
                created_at as int,
            ).rows);
        }
        Ok(copy)
    }
}

} // verus!
