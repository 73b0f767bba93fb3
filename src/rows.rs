use vstd::prelude::*;

use crate::codec::{
    bool_of, decoded, flatten, get_bool, get_opt_day, get_opt_stamp, get_opt_text, get_opt_uint, get_stamp, stamp_of,
    get_text, get_uint, narrow16, opt_day_of, opt_day_val, opt_stamp_of, opt_stamp_val,
    opt_text_of, opt_text_val, opt_uint_of, opt_uint_val, put_opt_day, put_opt_stamp,
    put_opt_text, put_opt_u16, text_of, uint_of, widen16, SqlValue, U16_MAX, U64_MAX, U8_MAX,
};
use crate::date::Date;
use crate::entity::{Author, Book, PartialAuthor, PartialBook, PartialPublisher, Progress, Publisher, User};
use crate::error::RepoError;

verus! {

/// A stored date, when present, is a day that exists.
pub open spec fn day_ok(o: Option<Date>) -> bool {
    o matches Some(d) ==> d.wf()
}

/// A required text value: present and not empty.
pub open spec fn supplied(o: Option<String>) -> bool {
    o matches Some(s) && s@.len() > 0
}

pub fn is_supplied(o: &Option<String>) -> (r: bool)
    ensures
        r == supplied(*o),
{
    match o {
        Some(s) => !s.as_str().is_empty(),
        None => false,
    }
}

/// Both store timestamps are filled in, as every row read back has them.
pub open spec fn stamped(added: Option<i64>, updated: Option<i64>) -> bool {
    added is Some && updated is Some
}

impl Author {
    pub open spec fn wf(self) -> bool {
        day_ok(self.birth) && stamped(self.date_added, self.date_last_updated)
    }

    /// The row `id, name, description, birth, date_added, date_last_updated`.
    pub open spec fn row(self) -> Seq<SqlValue> {
        seq![
            SqlValue::UInt(self.id),
            SqlValue::Text(self.name),
            opt_text_val(self.description),
            opt_day_val(self.birth),
            opt_stamp_val(self.date_added),
            opt_stamp_val(self.date_last_updated),
        ]
    }

    pub open spec fn decode(row: Seq<SqlValue>) -> Option<Author> {
        if row.len() == 6 && uint_of(row[0], U64_MAX) is Some && text_of(row[1]) is Some
            && opt_text_of(row[2]) is Some && opt_day_of(row[3]) is Some && stamp_of(row[4]) is Some && stamp_of(row[5]) is Some {
            Some(
                Author {
                    id: uint_of(row[0], U64_MAX).unwrap(),
                    name: text_of(row[1]).unwrap(),
                    description: opt_text_of(row[2]).unwrap(),
                    birth: opt_day_of(row[3]).unwrap(),
                    date_added: Some(stamp_of(row[4]).unwrap()),
                    date_last_updated: Some(stamp_of(row[5]).unwrap()),
                },
            )
        } else {
            None
        }
    }

    /// The author that a row read from the store holds.
    pub fn from_row(row: &Vec<SqlValue>) -> (r: Result<Author, RepoError>)
        ensures
            r == decoded(Author::decode(row@)),
    {
        if row.len() != 6 {
            return Err(RepoError::Validation);
        }
        let id = match get_uint(&row[0], U64_MAX) { Some(v) => v, None => return Err(RepoError::Validation) };
        let name = match get_text(&row[1]) { Some(v) => v, None => return Err(RepoError::Validation) };
        let description = match get_opt_text(&row[2]) { Some(v) => v, None => return Err(RepoError::Validation) };
        let birth = match get_opt_day(&row[3]) { Some(v) => v, None => return Err(RepoError::Validation) };
        let date_added = match get_stamp(&row[4]) { Some(v) => Some(v), None => return Err(RepoError::Validation) };
        let date_last_updated = match get_stamp(&row[5]) { Some(v) => Some(v), None => return Err(RepoError::Validation) };
        Ok(Author { id, name, description, birth, date_added, date_last_updated })
    }

    /// The row that stores this author.
    pub fn to_row(&self) -> (r: Vec<SqlValue>)
        ensures
            r@ == self.row(),
    {
        let mut r: Vec<SqlValue> = Vec::new();
        r.push(SqlValue::UInt(self.id));
        r.push(SqlValue::Text(self.name.clone()));
        r.push(put_opt_text(&self.description));
        r.push(put_opt_day(self.birth));
        r.push(put_opt_stamp(self.date_added));
        r.push(put_opt_stamp(self.date_last_updated));
        assert(r@ =~= self.row());
        r
    }

    /// Parameters of the update statement: `name, description, birth` and then
    /// the key.
    pub open spec fn update_params(self) -> Seq<SqlValue> {
        seq![
            SqlValue::Text(self.name),
            opt_text_val(self.description),
            opt_day_val(self.birth),
            SqlValue::UInt(self.id),
        ]
    }

    pub fn update_binds(&self) -> (r: Vec<SqlValue>)
        ensures
            r@ == self.update_params(),
    {
        let mut r: Vec<SqlValue> = Vec::new();
        r.push(SqlValue::Text(self.name.clone()));
        r.push(put_opt_text(&self.description));
        r.push(put_opt_day(self.birth));
        r.push(SqlValue::UInt(self.id));
        assert(r@ =~= self.update_params());
        r
    }
}

impl PartialAuthor {
    /// A birth date, where one is given, is a day that exists.
    pub open spec fn birth_ok(self) -> bool {
        day_ok(flatten(self.birth))
    }

    pub fn check_birth(&self) -> (r: bool)
        ensures
            r == self.birth_ok(),
    {
        match self.birth {
            Some(Some(d)) => d.is_valid(),
            _ => true,
        }
    }

    /// Parameters of the insert statement: `name, description, birth`.
    pub open spec fn insert_params(self) -> Seq<SqlValue> {
        seq![
            SqlValue::Text(self.name.unwrap()),
            opt_text_val(flatten(self.description)),
            opt_day_val(flatten(self.birth)),
        ]
    }

    /// The insert parameters for a new author; the name is required and a
    /// birth date must exist.
    pub fn insert_binds(&self) -> (r: Result<Vec<SqlValue>, RepoError>)
        ensures
            !(supplied(self.name) && self.birth_ok()) ==> r == Err::<Vec<SqlValue>, RepoError>(
                RepoError::Validation,
            ),
            supplied(self.name) && self.birth_ok() ==> (r matches Ok(v) && v@ == self.insert_params()),
    {
        if !is_supplied(&self.name) || !self.check_birth() {
            return Err(RepoError::Validation);
        }
        let mut r: Vec<SqlValue> = Vec::new();
        match &self.name {
            Some(n) => r.push(SqlValue::Text(n.clone())),
            None => {},
        }
        match &self.description {
            Some(d) => r.push(put_opt_text(d)),
            None => r.push(SqlValue::Null),
        }
        match self.birth {
            Some(b) => r.push(put_opt_day(b)),
            None => r.push(SqlValue::Null),
        }
        assert(r@ =~= self.insert_params());
        Ok(r)
    }
}

/// Decoding the row that stores an author gives the author back.
pub proof fn lemma_author_row_round_trip(a: Author)
    requires
        a.wf(),
    ensures
        Author::decode(a.row()) == Some(a),
{
}


impl Book {
    pub open spec fn wf(self) -> bool {
        stamped(self.date_added, self.date_last_updated)
    }

    /// The row `id, isbn, name, description, language, nsfw, num_pages,
    /// image_formatted, publisher_id, date_published, date_added,
    /// date_last_updated`.
    pub open spec fn row(self) -> Seq<SqlValue> {
        seq![
            SqlValue::UInt(self.id),
            SqlValue::Text(self.isbn),
            SqlValue::Text(self.name),
            opt_text_val(self.description),
            opt_text_val(self.language),
            SqlValue::Bool(self.nsfw),
            SqlValue::UInt(self.num_pages as u64),
            SqlValue::Bool(self.image_formatted),
            opt_uint_val(widen16(self.publisher_id)),
            opt_stamp_val(self.date_published),
            opt_stamp_val(self.date_added),
            opt_stamp_val(self.date_last_updated),
        ]
    }

    pub open spec fn decode(row: Seq<SqlValue>) -> Option<Book> {
        if row.len() == 12 && uint_of(row[0], U64_MAX) is Some && text_of(row[1]) is Some
            && text_of(row[2]) is Some && opt_text_of(row[3]) is Some && opt_text_of(row[4]) is Some
            && bool_of(row[5]) is Some && uint_of(row[6], U16_MAX) is Some && bool_of(row[7]) is Some
            && opt_uint_of(row[8], U16_MAX) is Some && opt_stamp_of(row[9]) is Some && stamp_of(row[10]) is Some && stamp_of(row[11]) is Some {
            Some(
                Book {
                    id: uint_of(row[0], U64_MAX).unwrap(),
                    isbn: text_of(row[1]).unwrap(),
                    name: text_of(row[2]).unwrap(),
                    description: opt_text_of(row[3]).unwrap(),
                    language: opt_text_of(row[4]).unwrap(),
                    nsfw: bool_of(row[5]).unwrap(),
                    num_pages: uint_of(row[6], U16_MAX).unwrap() as u16,
                    image_formatted: bool_of(row[7]).unwrap(),
                    publisher_id: narrow16(opt_uint_of(row[8], U16_MAX).unwrap()),
                    date_published: opt_stamp_of(row[9]).unwrap(),
                    date_added: Some(stamp_of(row[10]).unwrap()),
                    date_last_updated: Some(stamp_of(row[11]).unwrap()),
                },
            )
        } else {
            None
        }
    }

    /// The book that a row read from the store holds; a page count or
    /// publisher key wider than 16 bits is a validation error.
    pub fn from_row(row: &Vec<SqlValue>) -> (r: Result<Book, RepoError>)
        ensures
            r == decoded(Book::decode(row@)),
    {
        if row.len() != 12 {
            return Err(RepoError::Validation);
        }
        let id = match get_uint(&row[0], U64_MAX) { Some(v) => v, None => return Err(RepoError::Validation) };
        let isbn = match get_text(&row[1]) { Some(v) => v, None => return Err(RepoError::Validation) };
        let name = match get_text(&row[2]) { Some(v) => v, None => return Err(RepoError::Validation) };
        let description = match get_opt_text(&row[3]) { Some(v) => v, None => return Err(RepoError::Validation) };
        let language = match get_opt_text(&row[4]) { Some(v) => v, None => return Err(RepoError::Validation) };
        let nsfw = match get_bool(&row[5]) { Some(v) => v, None => return Err(RepoError::Validation) };
        let num_pages = match get_uint(&row[6], U16_MAX) { Some(v) => v as u16, None => return Err(RepoError::Validation) };
        let image_formatted = match get_bool(&row[7]) { Some(v) => v, None => return Err(RepoError::Validation) };
        let publisher_id = match get_opt_uint(&row[8], U16_MAX) {
            Some(Some(v)) => Some(v as u16),
            Some(None) => None,
            None => return Err(RepoError::Validation),
        };
        let date_published = match get_opt_stamp(&row[9]) { Some(v) => v, None => return Err(RepoError::Validation) };
        let date_added = match get_stamp(&row[10]) { Some(v) => Some(v), None => return Err(RepoError::Validation) };
        let date_last_updated = match get_stamp(&row[11]) { Some(v) => Some(v), None => return Err(RepoError::Validation) };
        Ok(Book {
            id,
            isbn,
            name,
            description,
            language,
            nsfw,
            num_pages,
            image_formatted,
            publisher_id,
            date_published,
            date_added,
            date_last_updated,
        })
    }

    /// The row that stores this book.
    pub fn to_row(&self) -> (r: Vec<SqlValue>)
        ensures
            r@ == self.row(),
    {
        let mut r: Vec<SqlValue> = Vec::new();
        r.push(SqlValue::UInt(self.id));
        r.push(SqlValue::Text(self.isbn.clone()));
        r.push(SqlValue::Text(self.name.clone()));
        r.push(put_opt_text(&self.description));
        r.push(put_opt_text(&self.language));
        r.push(SqlValue::Bool(self.nsfw));
        r.push(SqlValue::UInt(self.num_pages as u64));
        r.push(SqlValue::Bool(self.image_formatted));
        r.push(put_opt_u16(self.publisher_id));
        r.push(put_opt_stamp(self.date_published));
        r.push(put_opt_stamp(self.date_added));
        r.push(put_opt_stamp(self.date_last_updated));
        assert(r@ =~= self.row());
        r
    }

    /// Parameters of the update statement: the nine writable columns in row
    /// order, then the key.
    pub open spec fn update_params(self) -> Seq<SqlValue> {
        self.row().subrange(1, 10).push(SqlValue::UInt(self.id))
    }

    pub fn update_binds(&self) -> (r: Vec<SqlValue>)
        ensures
            r@ == self.update_params(),
    {
        let mut r: Vec<SqlValue> = Vec::new();
        r.push(SqlValue::Text(self.isbn.clone()));
        r.push(SqlValue::Text(self.name.clone()));
        r.push(put_opt_text(&self.description));
        r.push(put_opt_text(&self.language));
        r.push(SqlValue::Bool(self.nsfw));
        r.push(SqlValue::UInt(self.num_pages as u64));
        r.push(SqlValue::Bool(self.image_formatted));
        r.push(put_opt_u16(self.publisher_id));
        r.push(put_opt_stamp(self.date_published));
        r.push(SqlValue::UInt(self.id));
        assert(r@ =~= self.update_params());
        r
    }
}

impl PartialBook {
    /// Every column that has no null: isbn and name not empty, the flags and
    /// the page count present.
    pub open spec fn complete(self) -> bool {
        supplied(self.isbn) && supplied(self.name) && self.nsfw is Some && self.num_pages is Some
            && self.image_formatted is Some
    }

    /// Parameters of the insert statement: `isbn, name, description, language,
    /// nsfw, num_pages, image_formatted, publisher_id, date_published`.
    pub open spec fn insert_params(self) -> Seq<SqlValue> {
        seq![
            SqlValue::Text(self.isbn.unwrap()),
            SqlValue::Text(self.name.unwrap()),
            opt_text_val(flatten(self.description)),
            opt_text_val(flatten(self.language)),
            SqlValue::Bool(self.nsfw.unwrap()),
            SqlValue::UInt(self.num_pages.unwrap() as u64),
            SqlValue::Bool(self.image_formatted.unwrap()),
            opt_uint_val(widen16(flatten(self.publisher_id))),
            opt_stamp_val(flatten(self.date_published)),
        ]
    }

    /// The insert parameters for a new book; every non-null column is required.
    pub fn insert_binds(&self) -> (r: Result<Vec<SqlValue>, RepoError>)
        ensures
            !self.complete() ==> r == Err::<Vec<SqlValue>, RepoError>(RepoError::Validation),
            self.complete() ==> (r matches Ok(v) && v@ == self.insert_params()),
    {
        if !is_supplied(&self.isbn) || !is_supplied(&self.name) {
            return Err(RepoError::Validation);
        }
        let (nsfw, num_pages, image_formatted) = match (self.nsfw, self.num_pages, self.image_formatted) {
            (Some(a), Some(b), Some(c)) => (a, b, c),
            _ => return Err(RepoError::Validation),
        };
        let mut r: Vec<SqlValue> = Vec::new();
        match &self.isbn {
            Some(v) => r.push(SqlValue::Text(v.clone())),
            None => {},
        }
        match &self.name {
            Some(v) => r.push(SqlValue::Text(v.clone())),
            None => {},
        }
        match &self.description {
            Some(d) => r.push(put_opt_text(d)),
            None => r.push(SqlValue::Null),
        }
        match &self.language {
            Some(d) => r.push(put_opt_text(d)),
            None => r.push(SqlValue::Null),
        }
        r.push(SqlValue::Bool(nsfw));
        r.push(SqlValue::UInt(num_pages as u64));
        r.push(SqlValue::Bool(image_formatted));
        match self.publisher_id {
            Some(p) => r.push(put_opt_u16(p)),
            None => r.push(SqlValue::Null),
        }
        match self.date_published {
            Some(d) => r.push(put_opt_stamp(d)),
            None => r.push(SqlValue::Null),
        }
        assert(r@ =~= self.insert_params());
        Ok(r)
    }
}

impl Publisher {
    pub open spec fn wf(self) -> bool {
        stamped(self.date_added, self.date_last_updated)
    }

    /// The row `id, name, description, city, date_added, date_last_updated`.
    pub open spec fn row(self) -> Seq<SqlValue> {
        seq![
            SqlValue::UInt(self.id as u64),
            SqlValue::Text(self.name),
            SqlValue::Text(self.description),
            opt_text_val(self.city),
            opt_stamp_val(self.date_added),
            opt_stamp_val(self.date_last_updated),
        ]
    }

    pub open spec fn decode(row: Seq<SqlValue>) -> Option<Publisher> {
        if row.len() == 6 && uint_of(row[0], U16_MAX) is Some && text_of(row[1]) is Some
            && text_of(row[2]) is Some && opt_text_of(row[3]) is Some && stamp_of(row[4]) is Some
            && stamp_of(row[5]) is Some {
            Some(
                Publisher {
                    id: uint_of(row[0], U16_MAX).unwrap() as u16,
                    name: text_of(row[1]).unwrap(),
                    description: text_of(row[2]).unwrap(),
                    city: opt_text_of(row[3]).unwrap(),
                    date_added: Some(stamp_of(row[4]).unwrap()),
                    date_last_updated: Some(stamp_of(row[5]).unwrap()),
                },
            )
        } else {
            None
        }
    }

    /// The publisher that a row read from the store holds.
    pub fn from_row(row: &Vec<SqlValue>) -> (r: Result<Publisher, RepoError>)
        ensures
            r == decoded(Publisher::decode(row@)),
    {
        if row.len() != 6 {
            return Err(RepoError::Validation);
        }
        let id = match get_uint(&row[0], U16_MAX) { Some(v) => v as u16, None => return Err(RepoError::Validation) };
        let name = match get_text(&row[1]) { Some(v) => v, None => return Err(RepoError::Validation) };
        let description = match get_text(&row[2]) { Some(v) => v, None => return Err(RepoError::Validation) };
        let city = match get_opt_text(&row[3]) { Some(v) => v, None => return Err(RepoError::Validation) };
        let date_added = match get_stamp(&row[4]) { Some(v) => Some(v), None => return Err(RepoError::Validation) };
        let date_last_updated = match get_stamp(&row[5]) { Some(v) => Some(v), None => return Err(RepoError::Validation) };
        Ok(Publisher { id, name, description, city, date_added, date_last_updated })
    }

    /// The row that stores this publisher.
    pub fn to_row(&self) -> (r: Vec<SqlValue>)
        ensures
            r@ == self.row(),
    {
        let mut r: Vec<SqlValue> = Vec::new();
        r.push(SqlValue::UInt(self.id as u64));
        r.push(SqlValue::Text(self.name.clone()));
        r.push(SqlValue::Text(self.description.clone()));
        r.push(put_opt_text(&self.city));
        r.push(put_opt_stamp(self.date_added));
        r.push(put_opt_stamp(self.date_last_updated));
        assert(r@ =~= self.row());
        r
    }

    /// Parameters of the update statement: `name, description, city`, then the
    /// key.
    pub open spec fn update_params(self) -> Seq<SqlValue> {
        seq![
            SqlValue::Text(self.name),
            SqlValue::Text(self.description),
            opt_text_val(self.city),
            SqlValue::UInt(self.id as u64),
        ]
    }

    pub fn update_binds(&self) -> (r: Vec<SqlValue>)
        ensures
            r@ == self.update_params(),
    {
        let mut r: Vec<SqlValue> = Vec::new();
        r.push(SqlValue::Text(self.name.clone()));
        r.push(SqlValue::Text(self.description.clone()));
        r.push(put_opt_text(&self.city));
        r.push(SqlValue::UInt(self.id as u64));
        assert(r@ =~= self.update_params());
        r
    }
}

impl PartialPublisher {
    /// Name and description are both given; any text, the empty one
    /// included, is a valid value for them.
    pub open spec fn complete(self) -> bool {
        self.name is Some && self.description is Some
    }

    /// Parameters of the insert statement: `name, description, city`.
    pub open spec fn insert_params(self) -> Seq<SqlValue> {
        seq![
            SqlValue::Text(self.name.unwrap()),
            SqlValue::Text(self.description.unwrap()),
            opt_text_val(flatten(self.city)),
        ]
    }

    /// The insert parameters for a new publisher; name and description must
    /// be given.
    pub fn insert_binds(&self) -> (r: Result<Vec<SqlValue>, RepoError>)
        ensures
            !self.complete() ==> r == Err::<Vec<SqlValue>, RepoError>(RepoError::Validation),
            self.complete() ==> (r matches Ok(v) && v@ == self.insert_params()),
    {
        if self.name.is_none() || self.description.is_none() {
            return Err(RepoError::Validation);
        }
        let mut r: Vec<SqlValue> = Vec::new();
        match &self.name {
            Some(v) => r.push(SqlValue::Text(v.clone())),
            None => {},
        }
        match &self.description {
            Some(v) => r.push(SqlValue::Text(v.clone())),
            None => {},
        }
        match &self.city {
            Some(d) => r.push(put_opt_text(d)),
            None => r.push(SqlValue::Null),
        }
        assert(r@ =~= self.insert_params());
        Ok(r)
    }
}

impl User {
    pub open spec fn wf(self) -> bool {
        stamped(self.date_added, self.date_last_updated)
    }

    /// The row `id, name, date_added, date_last_updated`.
    pub open spec fn row(self) -> Seq<SqlValue> {
        seq![
            SqlValue::UInt(self.id as u64),
            SqlValue::Text(self.name),
            opt_stamp_val(self.date_added),
            opt_stamp_val(self.date_last_updated),
        ]
    }

    pub open spec fn decode(row: Seq<SqlValue>) -> Option<User> {
        if row.len() == 4 && uint_of(row[0], U8_MAX) is Some && text_of(row[1]) is Some
            && stamp_of(row[2]) is Some && stamp_of(row[3]) is Some {
            Some(
                User {
                    id: uint_of(row[0], U8_MAX).unwrap() as u8,
                    name: text_of(row[1]).unwrap(),
                    date_added: Some(stamp_of(row[2]).unwrap()),
                    date_last_updated: Some(stamp_of(row[3]).unwrap()),
                },
            )
        } else {
            None
        }
    }

    /// The user that a row read from the store holds; a key wider than a byte
    /// is a validation error.
    pub fn from_row(row: &Vec<SqlValue>) -> (r: Result<User, RepoError>)
        ensures
            r == decoded(User::decode(row@)),
    {
        if row.len() != 4 {
            return Err(RepoError::Validation);
        }
        let id = match get_uint(&row[0], U8_MAX) { Some(v) => v as u8, None => return Err(RepoError::Validation) };
        let name = match get_text(&row[1]) { Some(v) => v, None => return Err(RepoError::Validation) };
        let date_added = match get_stamp(&row[2]) { Some(v) => Some(v), None => return Err(RepoError::Validation) };
        let date_last_updated = match get_stamp(&row[3]) { Some(v) => Some(v), None => return Err(RepoError::Validation) };
        Ok(User { id, name, date_added, date_last_updated })
    }

    /// The row that stores this user.
    pub fn to_row(&self) -> (r: Vec<SqlValue>)
        ensures
            r@ == self.row(),
    {
        let mut r: Vec<SqlValue> = Vec::new();
        r.push(SqlValue::UInt(self.id as u64));
        r.push(SqlValue::Text(self.name.clone()));
        r.push(put_opt_stamp(self.date_added));
        r.push(put_opt_stamp(self.date_last_updated));
        assert(r@ =~= self.row());
        r
    }

    /// Parameters of the insert statement: the chosen key, then the name.
    pub open spec fn insert_params(id: u8, name: String) -> Seq<SqlValue> {
        seq![SqlValue::UInt(id as u64), SqlValue::Text(name)]
    }

    pub fn insert_binds(id: u8, name: String) -> (r: Vec<SqlValue>)
        ensures
            r@ == User::insert_params(id, name),
    {
        let mut r: Vec<SqlValue> = Vec::new();
        r.push(SqlValue::UInt(id as u64));
        r.push(SqlValue::Text(name));
        assert(r@ =~= User::insert_params(id, name));
        r
    }

    /// Parameters of the rename statement: the new name, then the key.
    pub open spec fn update_params(id: u8, name: String) -> Seq<SqlValue> {
        seq![SqlValue::Text(name), SqlValue::UInt(id as u64)]
    }

    pub fn update_binds(id: u8, name: String) -> (r: Vec<SqlValue>)
        ensures
            r@ == User::update_params(id, name),
    {
        let mut r: Vec<SqlValue> = Vec::new();
        r.push(SqlValue::Text(name));
        r.push(SqlValue::UInt(id as u64));
        assert(r@ =~= User::update_params(id, name));
        r
    }
}

impl Progress {
    pub open spec fn wf(self) -> bool {
        stamped(self.date_added, self.date_last_updated)
    }

    /// The row `id, user_id, book_id, current_page, date_added,
    /// date_last_updated`.
    pub open spec fn row(self) -> Seq<SqlValue> {
        seq![
            SqlValue::UInt(self.id),
            SqlValue::UInt(self.user_id as u64),
            SqlValue::UInt(self.book_id),
            SqlValue::UInt(self.current_page as u64),
            opt_stamp_val(self.date_added),
            opt_stamp_val(self.date_last_updated),
        ]
    }

    pub open spec fn decode(row: Seq<SqlValue>) -> Option<Progress> {
        if row.len() == 6 && uint_of(row[0], U64_MAX) is Some && uint_of(row[1], U8_MAX) is Some
            && uint_of(row[2], U64_MAX) is Some && uint_of(row[3], U16_MAX) is Some && stamp_of(row[4]) is Some && stamp_of(row[5]) is Some {
            Some(
                Progress {
                    id: uint_of(row[0], U64_MAX).unwrap(),
                    user_id: uint_of(row[1], U8_MAX).unwrap() as u8,
                    book_id: uint_of(row[2], U64_MAX).unwrap(),
                    current_page: uint_of(row[3], U16_MAX).unwrap() as u16,
                    date_added: Some(stamp_of(row[4]).unwrap()),
                    date_last_updated: Some(stamp_of(row[5]).unwrap()),
                },
            )
        } else {
            None
        }
    }

    /// The progress record that a row read from the store holds.
    pub fn from_row(row: &Vec<SqlValue>) -> (r: Result<Progress, RepoError>)
        ensures
            r == decoded(Progress::decode(row@)),
    {
        if row.len() != 6 {
            return Err(RepoError::Validation);
        }
        let id = match get_uint(&row[0], U64_MAX) { Some(v) => v, None => return Err(RepoError::Validation) };
        let user_id = match get_uint(&row[1], U8_MAX) { Some(v) => v as u8, None => return Err(RepoError::Validation) };
        let book_id = match get_uint(&row[2], U64_MAX) { Some(v) => v, None => return Err(RepoError::Validation) };
        let current_page = match get_uint(&row[3], U16_MAX) { Some(v) => v as u16, None => return Err(RepoError::Validation) };
        let date_added = match get_stamp(&row[4]) { Some(v) => Some(v), None => return Err(RepoError::Validation) };
        let date_last_updated = match get_stamp(&row[5]) { Some(v) => Some(v), None => return Err(RepoError::Validation) };
        Ok(Progress { id, user_id, book_id, current_page, date_added, date_last_updated })
    }

    /// The row that stores this progress record.
    pub fn to_row(&self) -> (r: Vec<SqlValue>)
        ensures
            r@ == self.row(),
    {
        let mut r: Vec<SqlValue> = Vec::new();
        r.push(SqlValue::UInt(self.id));
        r.push(SqlValue::UInt(self.user_id as u64));
        r.push(SqlValue::UInt(self.book_id));
        r.push(SqlValue::UInt(self.current_page as u64));
        r.push(put_opt_stamp(self.date_added));
        r.push(put_opt_stamp(self.date_last_updated));
        assert(r@ =~= self.row());
        r
    }

    /// The composite key `user_id, book_id` that progress is looked up by.
    pub open spec fn key_params(user_id: u8, book_id: u64) -> Seq<SqlValue> {
        seq![SqlValue::UInt(user_id as u64), SqlValue::UInt(book_id)]
    }

    pub fn key_binds(user_id: u8, book_id: u64) -> (r: Vec<SqlValue>)
        ensures
            r@ == Progress::key_params(user_id, book_id),
    {
        let mut r: Vec<SqlValue> = Vec::new();
        r.push(SqlValue::UInt(user_id as u64));
        r.push(SqlValue::UInt(book_id));
        assert(r@ =~= Progress::key_params(user_id, book_id));
        r
    }

    /// Parameters of the insert statement: `user_id, book_id, current_page`.
    pub open spec fn insert_params(user_id: u8, book_id: u64, current_page: u16) -> Seq<SqlValue> {
        Progress::key_params(user_id, book_id).push(SqlValue::UInt(current_page as u64))
    }

    pub fn insert_binds(user_id: u8, book_id: u64, current_page: u16) -> (r: Vec<SqlValue>)
        ensures
            r@ == Progress::insert_params(user_id, book_id, current_page),
    {
        let mut r = Progress::key_binds(user_id, book_id);
        r.push(SqlValue::UInt(current_page as u64));
        r
    }

    /// Parameters of the page update: `current_page`, then the composite key.
    pub open spec fn update_params(user_id: u8, book_id: u64, current_page: u16) -> Seq<SqlValue> {
        seq![SqlValue::UInt(current_page as u64)] + Progress::key_params(user_id, book_id)
    }

    pub fn update_binds(user_id: u8, book_id: u64, current_page: u16) -> (r: Vec<SqlValue>)
        ensures
            r@ == Progress::update_params(user_id, book_id, current_page),
    {
        let mut r: Vec<SqlValue> = Vec::new();
        r.push(SqlValue::UInt(current_page as u64));
        r.push(SqlValue::UInt(user_id as u64));
        r.push(SqlValue::UInt(book_id));
        assert(r@ =~= Progress::update_params(user_id, book_id, current_page));
        r
    }
}

/// Decoding the row that stores a book gives the book back.
pub proof fn lemma_book_row_round_trip(b: Book)
    requires
        b.wf(),
    ensures
        Book::decode(b.row()) == Some(b),
{
}

/// Decoding the row that stores a publisher gives the publisher back.
pub proof fn lemma_publisher_row_round_trip(p: Publisher)
    requires
        p.wf(),
    ensures
        Publisher::decode(p.row()) == Some(p),
{
}

/// Decoding the row that stores a user gives the user back.
pub proof fn lemma_user_row_round_trip(u: User)
    requires
        u.wf(),
    ensures
        User::decode(u.row()) == Some(u),
{
}

/// Decoding the row that stores a progress record gives the record back.
pub proof fn lemma_progress_row_round_trip(g: Progress)
    requires
        g.wf(),
    ensures
        Progress::decode(g.row()) == Some(g),
{
}

/// Every record read back from the store carries both store timestamps (and,
/// for an author, a birth date that exists).
pub proof fn lemma_decoded_records_are_stamped(row: Seq<SqlValue>)
    ensures
        Author::decode(row) matches Some(a) ==> a.wf(),
        Book::decode(row) matches Some(b) ==> b.wf(),
        Publisher::decode(row) matches Some(p) ==> p.wf(),
        User::decode(row) matches Some(u) ==> u.wf(),
        Progress::decode(row) matches Some(g) ==> g.wf(),
{
}

} // verus!
