use vstd::prelude::*;

use crate::date::Date;

verus! {

/// A required text field takes a supplied value only when it is not empty.
pub open spec fn text_or(old: String, new: Option<String>) -> String {
    match new {
        Some(s) => if s@.len() > 0 { s } else { old },
        None => old,
    }
}

/// A required non-text field takes any supplied value.
pub open spec fn value_or<T>(old: T, new: Option<T>) -> T {
    match new {
        Some(v) => v,
        None => old,
    }
}

/// A nullable field takes whatever is supplied, `None` included; absence
/// leaves it as it was.
pub open spec fn nullable_or<T>(old: Option<T>, new: Option<Option<T>>) -> Option<T> {
    match new {
        Some(v) => v,
        None => old,
    }
}

pub fn merge_text(old: String, new: Option<String>) -> (r: String)
    ensures
        r == text_or(old, new),
{
    match new {
        Some(s) => if s.as_str().is_empty() { old } else { s },
        None => old,
    }
}

pub fn merge_value<T>(old: T, new: Option<T>) -> (r: T)
    ensures
        r == value_or(old, new),
{
    match new {
        Some(v) => v,
        None => old,
    }
}

pub fn merge_nullable<T>(old: Option<T>, new: Option<Option<T>>) -> (r: Option<T>)
    ensures
        r == nullable_or(old, new),
{
    match new {
        Some(v) => v,
        None => old,
    }
}

/// An author. Timestamps are seconds since the Unix epoch, UTC, set by the store.
#[derive(Clone, Debug, PartialEq, Eq)]
pub struct Author {
    pub id: u64,
    pub name: String,
    pub description: Option<String>,
    pub birth: Option<Date>,
    pub date_added: Option<i64>,
    pub date_last_updated: Option<i64>,
}

/// A sparse author: `None` leaves a field alone; for a nullable field
/// `Some(None)` clears it.
#[derive(Clone, Debug, PartialEq, Eq)]
pub struct PartialAuthor {
    pub name: Option<String>,
    pub description: Option<Option<String>>,
    pub birth: Option<Option<Date>>,
}

/// A book. `num_pages` and `publisher_id` are bounded by their column widths.
#[derive(Clone, Debug, PartialEq, Eq)]
pub struct Book {
    pub id: u64,
    pub isbn: String,
    pub name: String,
    pub description: Option<String>,
    pub language: Option<String>,
    pub nsfw: bool,
    pub num_pages: u16,
    pub image_formatted: bool,
    pub publisher_id: Option<u16>,
    pub date_published: Option<i64>,
    pub date_added: Option<i64>,
    pub date_last_updated: Option<i64>,
}

#[derive(Clone, Debug, PartialEq, Eq)]
pub struct PartialBook {
    pub isbn: Option<String>,
    pub name: Option<String>,
    pub description: Option<Option<String>>,
    pub language: Option<Option<String>>,
    pub nsfw: Option<bool>,
    pub num_pages: Option<u16>,
    pub image_formatted: Option<bool>,
    pub publisher_id: Option<Option<u16>>,
    pub date_published: Option<Option<i64>>,
}

#[derive(Clone, Debug, PartialEq, Eq)]
pub struct Publisher {
    pub id: u16,
    pub name: String,
    pub description: String,
    pub city: Option<String>,
    pub date_added: Option<i64>,
    pub date_last_updated: Option<i64>,
}

#[derive(Clone, Debug, PartialEq, Eq)]
pub struct PartialPublisher {
    pub name: Option<String>,
    pub description: Option<String>,
    pub city: Option<Option<String>>,
}

/// A reader; its key fits in one byte.
#[derive(Clone, Debug, PartialEq, Eq)]
pub struct User {
    pub id: u8,
    pub name: String,
    pub date_added: Option<i64>,
    pub date_last_updated: Option<i64>,
}

/// How far a reader has got in a book.
#[derive(Clone, Debug, PartialEq, Eq)]
pub struct Progress {
    pub id: u64,
    pub user_id: u8,
    pub book_id: u64,
    pub current_page: u16,
    pub date_added: Option<i64>,
    pub date_last_updated: Option<i64>,
}

impl Author {
    pub open spec fn merged(self, p: PartialAuthor) -> Author {
        Author {
            name: text_or(self.name, p.name),
            description: nullable_or(self.description, p.description),
            birth: nullable_or(self.birth, p.birth),
            ..self
        }
    }

    /// Folds a partial author onto this one.
    pub fn merge(self, partial: PartialAuthor) -> (r: Author)
        ensures
            r == self.merged(partial),
    {
        Author {
            id: self.id,
            name: merge_text(self.name, partial.name),
            description: merge_nullable(self.description, partial.description),
            birth: merge_nullable(self.birth, partial.birth),
            date_added: self.date_added,
            date_last_updated: self.date_last_updated,
        }
    }
}

impl Book {
    pub open spec fn merged(self, p: PartialBook) -> Book {
        Book {
            isbn: text_or(self.isbn, p.isbn),
            name: text_or(self.name, p.name),
            description: nullable_or(self.description, p.description),
            language: nullable_or(self.language, p.language),
            nsfw: value_or(self.nsfw, p.nsfw),
            num_pages: value_or(self.num_pages, p.num_pages),
            image_formatted: value_or(self.image_formatted, p.image_formatted),
            publisher_id: nullable_or(self.publisher_id, p.publisher_id),
            date_published: nullable_or(self.date_published, p.date_published),
            ..self
        }
    }

    /// Folds a partial book onto this one.
    pub fn merge(self, partial: PartialBook) -> (r: Book)
        ensures
            r == self.merged(partial),
    {
        Book {
            id: self.id,
            isbn: merge_text(self.isbn, partial.isbn),
            name: merge_text(self.name, partial.name),
            description: merge_nullable(self.description, partial.description),
            language: merge_nullable(self.language, partial.language),
            nsfw: merge_value(self.nsfw, partial.nsfw),
            num_pages: merge_value(self.num_pages, partial.num_pages),
            image_formatted: merge_value(self.image_formatted, partial.image_formatted),
            publisher_id: merge_nullable(self.publisher_id, partial.publisher_id),
            date_published: merge_nullable(self.date_published, partial.date_published),
            date_added: self.date_added,
            date_last_updated: self.date_last_updated,
        }
    }
}

impl Publisher {
    pub open spec fn merged(self, p: PartialPublisher) -> Publisher {
        Publisher {
            name: text_or(self.name, p.name),
            description: text_or(self.description, p.description),
            city: nullable_or(self.city, p.city),
            ..self
        }
    }

    /// Folds a partial publisher onto this one.
    pub fn merge(self, partial: PartialPublisher) -> (r: Publisher)
        ensures
            r == self.merged(partial),
    {
        Publisher {
            id: self.id,
            name: merge_text(self.name, partial.name),
            description: merge_text(self.description, partial.description),
            city: merge_nullable(self.city, partial.city),
            date_added: self.date_added,
            date_last_updated: self.date_last_updated,
        }
    }
}

/// Absent fields of a partial author leave the stored ones, supplied fields
/// replace them (a required name only when not empty), and key and timestamps
/// never change.
pub proof fn lemma_author_merge_precedence(a: Author, p: PartialAuthor)
    ensures
        a.merged(p).id == a.id,
        a.merged(p).date_added == a.date_added,
        a.merged(p).date_last_updated == a.date_last_updated,
        p.name is None ==> a.merged(p).name == a.name,
        p.description is None ==> a.merged(p).description == a.description,
        p.birth is None ==> a.merged(p).birth == a.birth,
        p.name matches Some(n) ==> (n@.len() > 0 ==> a.merged(p).name == n),
        p.description matches Some(d) ==> a.merged(p).description == d,
        p.birth matches Some(b) ==> a.merged(p).birth == b,
{
}

/// Merging never empties a required field that was filled.
pub proof fn lemma_merge_keeps_required(a: Author, pa: PartialAuthor, b: Book, pb: PartialBook, c: Publisher, pc: PartialPublisher)
    ensures
        a.name@.len() > 0 ==> a.merged(pa).name@.len() > 0,
        b.name@.len() > 0 ==> b.merged(pb).name@.len() > 0,
        b.isbn@.len() > 0 ==> b.merged(pb).isbn@.len() > 0,
        c.name@.len() > 0 ==> c.merged(pc).name@.len() > 0,
        c.description@.len() > 0 ==> c.merged(pc).description@.len() > 0,
{
}

} // verus!
