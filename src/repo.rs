use vstd::prelude::*;

use crate::codec::{decoded, flatten, stamp_of, uint_of, SqlValue, U16_MAX, U64_MAX};
use crate::rows::supplied;
use crate::entity::{Author, Book, PartialAuthor, PartialBook, PartialPublisher, Progress, Publisher, User};
use crate::error::{expect_one, RepoError};

verus! {

/// A record that is stored as one row of a table.
pub trait Record: Sized {
    spec fn decode_spec(row: Seq<SqlValue>) -> Option<Self>;

    fn decode_row(row: &Vec<SqlValue>) -> (r: Result<Self, RepoError>)
        ensures
            r == decoded(Self::decode_spec(row@)),
    ;
}

/// A record that is changed by folding a sparse patch onto it.
pub trait Patchable: Record {
    type Patch;

    spec fn merged_spec(self, p: Self::Patch) -> Self;

    spec fn update_spec(self) -> Seq<SqlValue>;

    /// Every value that the patch supplies is one the record can hold.
    spec fn patch_ok(p: Self::Patch) -> bool;

    fn check_patch(p: &Self::Patch) -> (r: bool)
        ensures
            r == Self::patch_ok(*p),
    ;

    fn merge_patch(self, p: Self::Patch) -> (r: Self)
        ensures
            r == self.merged_spec(p),
    ;

    fn update_params_of(&self) -> (r: Vec<SqlValue>)
        ensures
            r@ == self.update_spec(),
    ;
}

impl Record for Author {
    open spec fn decode_spec(row: Seq<SqlValue>) -> Option<Author> {
        Author::decode(row)
    }

    fn decode_row(row: &Vec<SqlValue>) -> (r: Result<Author, RepoError>) {
        Author::from_row(row)
    }
}

impl Record for Book {
    open spec fn decode_spec(row: Seq<SqlValue>) -> Option<Book> {
        Book::decode(row)
    }

    fn decode_row(row: &Vec<SqlValue>) -> (r: Result<Book, RepoError>) {
        Book::from_row(row)
    }
}

impl Record for Publisher {
    open spec fn decode_spec(row: Seq<SqlValue>) -> Option<Publisher> {
        Publisher::decode(row)
    }

    fn decode_row(row: &Vec<SqlValue>) -> (r: Result<Publisher, RepoError>) {
        Publisher::from_row(row)
    }
}

impl Record for User {
    open spec fn decode_spec(row: Seq<SqlValue>) -> Option<User> {
        User::decode(row)
    }

    fn decode_row(row: &Vec<SqlValue>) -> (r: Result<User, RepoError>) {
        User::from_row(row)
    }
}

impl Record for Progress {
    open spec fn decode_spec(row: Seq<SqlValue>) -> Option<Progress> {
        Progress::decode(row)
    }

    fn decode_row(row: &Vec<SqlValue>) -> (r: Result<Progress, RepoError>) {
        Progress::from_row(row)
    }
}

impl Patchable for Author {
    type Patch = PartialAuthor;

    open spec fn patch_ok(p: PartialAuthor) -> bool {
        p.birth_ok()
    }

    fn check_patch(p: &PartialAuthor) -> (r: bool) {
        p.check_birth()
    }

    open spec fn merged_spec(self, p: PartialAuthor) -> Author {
        self.merged(p)
    }

    open spec fn update_spec(self) -> Seq<SqlValue> {
        self.update_params()
    }

    fn merge_patch(self, p: PartialAuthor) -> (r: Author) {
        self.merge(p)
    }

    fn update_params_of(&self) -> (r: Vec<SqlValue>) {
        self.update_binds()
    }
}

impl Patchable for Book {
    type Patch = PartialBook;

    open spec fn patch_ok(p: PartialBook) -> bool {
        true
    }

    fn check_patch(p: &PartialBook) -> (r: bool) {
        true
    }

    open spec fn merged_spec(self, p: PartialBook) -> Book {
        self.merged(p)
    }

    open spec fn update_spec(self) -> Seq<SqlValue> {
        self.update_params()
    }

    fn merge_patch(self, p: PartialBook) -> (r: Book) {
        self.merge(p)
    }

    fn update_params_of(&self) -> (r: Vec<SqlValue>) {
        self.update_binds()
    }
}

impl Patchable for Publisher {
    type Patch = PartialPublisher;

    open spec fn patch_ok(p: PartialPublisher) -> bool {
        true
    }

    fn check_patch(p: &PartialPublisher) -> (r: bool) {
        true
    }

    open spec fn merged_spec(self, p: PartialPublisher) -> Publisher {
        self.merged(p)
    }

    open spec fn update_spec(self) -> Seq<SqlValue> {
        self.update_params()
    }

    fn merge_patch(self, p: PartialPublisher) -> (r: Publisher) {
        self.merge(p)
    }

    fn update_params_of(&self) -> (r: Vec<SqlValue>) {
        self.update_binds()
    }
}

/// The record that a lookup by key found: `NotFound` for no row, `Ambiguous`
/// for more than one, else the decoded row.
pub open spec fn one_spec<T: Record>(rows: Seq<Vec<SqlValue>>) -> Result<T, RepoError> {
    if rows.len() == 0 {
        Err(RepoError::NotFound)
    } else if rows.len() > 1 {
        Err(RepoError::Ambiguous)
    } else {
        decoded(T::decode_spec(rows[0]@))
    }
}

/// Every row decodes.
pub open spec fn all_decode<T: Record>(rows: Seq<Vec<SqlValue>>) -> bool {
    forall|i: int| 0 <= i < rows.len() ==> (#[trigger] T::decode_spec(rows[i]@)) is Some
}

/// The rows of a lookup by key, read as exactly one record.
pub fn fetch_one_of<T: Record>(rows: Vec<Vec<SqlValue>>) -> (r: Result<T, RepoError>)
    ensures
        r == one_spec::<T>(rows@),
{
    match expect_one(rows) {
        Ok(row) => T::decode_row(&row),
        Err(e) => Err(e),
    }
}

/// The rows of a whole table, read as records in the order given; a row that
/// does not decode makes the whole read a validation error.
pub fn fetch_all_of<T: Record>(rows: Vec<Vec<SqlValue>>) -> (r: Result<Vec<T>, RepoError>)
    ensures
        all_decode::<T>(rows@) <==> r is Ok,
        !all_decode::<T>(rows@) ==> r == Err::<Vec<T>, RepoError>(RepoError::Validation),
        r matches Ok(v) ==> v@.len() == rows@.len() && forall|i: int|
            0 <= i < rows@.len() ==> Some(#[trigger] v@[i]) == T::decode_spec(rows@[i]@),
{
    let mut out: Vec<T> = Vec::new();
    let mut i: usize = 0;
    while i < rows.len()
        invariant
            i <= rows@.len(),
            out@.len() == i,
            forall|j: int| 0 <= j < i ==> Some(#[trigger] out@[j]) == T::decode_spec(rows@[j]@),
        decreases rows@.len() - i,
    {
        match T::decode_row(&rows[i]) {
            Ok(t) => out.push(t),
            Err(e) => {
                assert(T::decode_spec(rows@[i as int]@) is None);
                return Err(e);
            },
        }
        i = i + 1;
    }
    assert(all_decode::<T>(rows@)) by {
        assert forall|j: int| 0 <= j < rows@.len() implies (#[trigger] T::decode_spec(rows@[j]@)) is Some by {
            assert(Some(out@[j]) == T::decode_spec(rows@[j]@));
        }
    }
    Ok(out)
}

/// The step of an update that follows reading the current row: the merged
/// record and the parameters of the statement that stores it, or why the
/// update stops (a patch value the record cannot hold, then no single row).
pub fn plan_update<T: Patchable>(rows: Vec<Vec<SqlValue>>, patch: T::Patch) -> (r: Result<(T, Vec<SqlValue>), RepoError>)
    ensures
        !T::patch_ok(patch) ==> r == Err::<(T, Vec<SqlValue>), RepoError>(RepoError::Validation),
        T::patch_ok(patch) ==> (one_spec::<T>(rows@) matches Err(e) ==> r == Err::<(T, Vec<SqlValue>), RepoError>(e)),
        T::patch_ok(patch) ==> (one_spec::<T>(rows@) matches Ok(cur) ==> (r matches Ok(pair) && pair.0
            == cur.merged_spec(patch) && pair.1@ == pair.0.update_spec())),
{
    if !T::check_patch(&patch) {
        return Err(RepoError::Validation);
    }
    let cur: T = fetch_one_of(rows)?;
    let merged = cur.merge_patch(patch);
    let params = merged.update_params_of();
    Ok((merged, params))
}

/// What a delete reports: the number of rows removed, zero where there was
/// none. A delete of a missing key is not an error.
pub fn delete_outcome(affected: u64) -> (r: Result<u64, RepoError>)
    ensures
        r == Ok::<u64, RepoError>(affected),
{
    Ok(affected)
}

impl Book {
    /// The authors of this book; the link between books and authors is not
    /// stored yet.
    pub fn fetch_authors() -> (r: Result<Vec<Author>, RepoError>)
        ensures
            r == Err::<Vec<Author>, RepoError>(RepoError::NotImplemented),
    {
        Err(RepoError::NotImplemented)
    }

    /// The books written by an author; the link between books and authors is
    /// not stored yet.
    pub fn fetch_books_by_author(author_id: u64) -> (r: Result<Vec<Book>, RepoError>)
        ensures
            r == Err::<Vec<Book>, RepoError>(RepoError::NotImplemented),
    {
        Err(RepoError::NotImplemented)
    }

    /// The key to look this book's publisher up by; a book without a
    /// publisher has none to find.
    pub fn publisher_key(&self) -> (r: Result<u16, RepoError>)
        ensures
            self.publisher_id matches Some(k) ==> r == Ok::<u16, RepoError>(k),
            self.publisher_id is None ==> r == Err::<u16, RepoError>(RepoError::NotFound),
    {
        match self.publisher_id {
            Some(k) => Ok(k),
            None => Err(RepoError::NotFound),
        }
    }
}

/// Reading back, by its key, the row that an author create stored: where
/// the row holds the values bound by the insert, the author read has the
/// partial's fields and both store timestamps, and the read succeeds
/// whenever the store filled in the key and the timestamps.
pub proof fn lemma_author_create_round_trip(p: PartialAuthor, rows: Seq<Vec<SqlValue>>)
    requires
        supplied(p.name),
        p.birth_ok(),
        rows.len() == 1,
        rows[0]@.len() == 6,
        rows[0]@.subrange(1, 4) == p.insert_params(),
    ensures
        uint_of(rows[0]@[0], U64_MAX) is Some && stamp_of(rows[0]@[4]) is Some && stamp_of(rows[0]@[5]) is Some
            ==> one_spec::<Author>(rows) is Ok,
        one_spec::<Author>(rows) matches Ok(a) ==> {
            &&& a.name == p.name.unwrap()
            &&& a.description == flatten(p.description)
            &&& a.birth == flatten(p.birth)
            &&& a.date_added is Some
            &&& a.date_last_updated is Some
        },
{
    let row = rows[0]@;
    assert(row.subrange(1, 4)[0] == row[1]);
    assert(row.subrange(1, 4)[1] == row[2]);
    assert(row.subrange(1, 4)[2] == row[3]);
}

/// Reading back, by its key, the row that a book create stored: the book
/// read has the partial's fields and both store timestamps, and the read
/// succeeds whenever the store filled in the key and the timestamps.
pub proof fn lemma_book_create_round_trip(p: PartialBook, rows: Seq<Vec<SqlValue>>)
    requires
        p.complete(),
        rows.len() == 1,
        rows[0]@.len() == 12,
        rows[0]@.subrange(1, 10) == p.insert_params(),
    ensures
        uint_of(rows[0]@[0], U64_MAX) is Some && stamp_of(rows[0]@[10]) is Some && stamp_of(rows[0]@[11]) is Some
            ==> one_spec::<Book>(rows) is Ok,
        one_spec::<Book>(rows) matches Ok(b) ==> {
            &&& b.isbn == p.isbn.unwrap()
            &&& b.name == p.name.unwrap()
            &&& b.description == flatten(p.description)
            &&& b.language == flatten(p.language)
            &&& b.nsfw == p.nsfw.unwrap()
            &&& b.num_pages == p.num_pages.unwrap()
            &&& b.image_formatted == p.image_formatted.unwrap()
            &&& b.publisher_id == flatten(p.publisher_id)
            &&& b.date_published == flatten(p.date_published)
            &&& b.date_added is Some
            &&& b.date_last_updated is Some
        },
{
    let row = rows[0]@;
    let sub = row.subrange(1, 10);
    assert(sub[0] == row[1]);
    assert(sub[1] == row[2]);
    assert(sub[2] == row[3]);
    assert(sub[3] == row[4]);
    assert(sub[4] == row[5]);
    assert(sub[5] == row[6]);
    assert(sub[6] == row[7]);
    assert(sub[7] == row[8]);
    assert(sub[8] == row[9]);
}

/// Reading back, by its key, the row that a publisher create stored: the
/// publisher read has the given name, description and city and both store
/// timestamps, and the read succeeds whenever the store filled in the key and
/// the timestamps.
pub proof fn lemma_publisher_create_round_trip(p: PartialPublisher, rows: Seq<Vec<SqlValue>>)
    requires
        p.complete(),
        rows.len() == 1,
        rows[0]@.len() == 6,
        rows[0]@.subrange(1, 4) == p.insert_params(),
    ensures
        uint_of(rows[0]@[0], U16_MAX) is Some && stamp_of(rows[0]@[4]) is Some && stamp_of(rows[0]@[5]) is Some
            ==> one_spec::<Publisher>(rows) is Ok,
        one_spec::<Publisher>(rows) matches Ok(q) ==> {
            &&& q.name == p.name.unwrap()
            &&& q.description == p.description.unwrap()
            &&& q.city == flatten(p.city)
            &&& q.date_added is Some
            &&& q.date_last_updated is Some
        },
{
    let row = rows[0]@;
    assert(row.subrange(1, 4)[0] == row[1]);
    assert(row.subrange(1, 4)[1] == row[2]);
    assert(row.subrange(1, 4)[2] == row[3]);
}

/// Reading back, by its key, the row that a progress create stored: the
/// record read has the reader, book and page it was created with and both
/// store timestamps, and the read succeeds whenever the store filled in the
/// key and the timestamps.
pub proof fn lemma_progress_create_round_trip(
    user_id: u8,
    book_id: u64,
    current_page: u16,
    rows: Seq<Vec<SqlValue>>,
)
    requires
        rows.len() == 1,
        rows[0]@.len() == 6,
        rows[0]@.subrange(1, 4) == Progress::insert_params(user_id, book_id, current_page),
    ensures
        uint_of(rows[0]@[0], U64_MAX) is Some && stamp_of(rows[0]@[4]) is Some && stamp_of(rows[0]@[5]) is Some
            ==> one_spec::<Progress>(rows) is Ok,
        one_spec::<Progress>(rows) matches Ok(g) ==> {
            &&& g.user_id == user_id
            &&& g.book_id == book_id
            &&& g.current_page == current_page
            &&& g.date_added is Some
            &&& g.date_last_updated is Some
        },
{
    let row = rows[0]@;
    assert(row.subrange(1, 4)[0] == row[1]);
    assert(row.subrange(1, 4)[1] == row[2]);
    assert(row.subrange(1, 4)[2] == row[3]);
}

/// A key handed back by the store for a table whose keys are 16 bits wide;
/// a wider one is a validation error.
pub fn key16(id: u64) -> (r: Result<u16, RepoError>)
    ensures
        id <= 65535 ==> r == Ok::<u16, RepoError>(id as u16),
        id > 65535 ==> r == Err::<u16, RepoError>(RepoError::Validation),
{
    if id <= 65535 {
        Ok(id as u16)
    } else {
        Err(RepoError::Validation)
    }
}

} // verus!
